use crate::name_map::NameMap;
use crate::package::constructor::Constructor;
use crate::package::constructor::ConstructorView;
use crate::package::input::Input;
use crate::package::input::InputView;
use crate::package::output::Output;
use crate::package::output::OutputView;
use crate::package::type_parameter::TypeParameter;
use crate::package::type_parameter::TypeParameterView;
use vstd::prelude::*;

verus! {

/// A type of the catalog: what it takes and gives, the type parameters it
/// declares, and its constructors by name.
#[derive(Debug, PartialEq)]
pub struct Type {
    pub inputs: Option<NameMap<Input>>,
    pub outputs: Option<NameMap<Output>>,
    pub type_parameters: Option<Vec<TypeParameter>>,
    pub constructors: NameMap<Constructor>,
}

/// The model of a [`Type`].
pub ghost struct TypeView {
    pub inputs: Option<Seq<(Seq<char>, InputView)>>,
    pub outputs: Option<Seq<(Seq<char>, OutputView)>>,
    pub type_parameters: Option<Seq<TypeParameterView>>,
    pub constructors: Seq<(Seq<char>, ConstructorView)>,
}

impl DeepView for Type {
    type V = TypeView;

    open spec fn deep_view(&self) -> TypeView {
        TypeView {
            inputs: self.inputs.deep_view(),
            outputs: self.outputs.deep_view(),
            type_parameters: self.type_parameters.deep_view(),
            constructors: self.constructors.deep_view(),
        }
    }
}

impl View for Type {
    type V = TypeView;

    open spec fn view(&self) -> TypeView {
        self.deep_view()
    }
}

impl Type {
    /// A type without inputs, outputs and type parameters, with the one
    /// constructor given, under the name given.
    pub fn new_with_constructor(constructor_name: &str, constructor: Constructor) -> (made: Self)
        ensures
            made@ == (TypeView {
                inputs: None,
                outputs: None,
                type_parameters: None,
                constructors: seq![(constructor_name@, constructor@)],
            }),
    {
        let mut constructors: NameMap<Constructor> = NameMap::new();
        constructors.insert(constructor_name.to_owned(), constructor);
        Type { inputs: None, outputs: None, type_parameters: None, constructors }
    }

    /// A primitive type: it is made from its default value, under the name
    /// `Default`, or read from the document, under the name `Json`.
    pub fn new_primitive_type() -> (made: Self)
        ensures
            made@ == crate::package_manager::primitive_type(),
    {
        let mut constructors: NameMap<Constructor> = NameMap::new();
        constructors.insert("Default".to_owned(), Constructor::FromDefault);
        constructors.insert("Json".to_owned(), Constructor::FromJson);
        proof {
            reveal_strlit("Default");
            reveal_strlit("Json");
            let first = seq![("Default"@, ConstructorView::FromDefault)];
            assert("Json"@.len() == 4);
            crate::name_map::lemma_position_absent(first, "Json"@);
            assert(constructors.deep_view() =~= seq![
                ("Default"@, ConstructorView::FromDefault),
                ("Json"@, ConstructorView::FromJson),
            ]);
        }
        Type { inputs: None, outputs: None, type_parameters: None, constructors }
    }

    /// A type without inputs, outputs, type parameters and constructors.
    pub fn new_simple() -> (made: Self)
        ensures
            made@ == crate::package_manager::simple_type(),
    {
        Type { inputs: None, outputs: None, type_parameters: None, constructors: NameMap::new() }
    }
}

/// A copy of an optional list of type parameters.
pub fn clone_type_parameters(parameters: &Option<Vec<TypeParameter>>) -> (copy: Option<
    Vec<TypeParameter>,
>)
    ensures
        copy.deep_view() == parameters.deep_view(),
{
    match parameters {
        None => None,
        Some(list) => {
            let mut copy: Vec<TypeParameter> = Vec::new();
            let mut at: usize = 0;
            while at < list.len()
                invariant
                    at <= list.len(),
                    copy.deep_view() == list.deep_view().take(at as int),
                decreases list.len() - at,
            {
                let ghost before = copy.deep_view();
                let parameter = list[at].clone();
                copy.push(parameter);
                assert(copy.deep_view() =~= before.push(parameter@));
                at = at + 1;
            }
            Some(copy)
        },
    }
}

impl Clone for Type {
    fn clone(&self) -> (copy: Self)
        ensures
            copy@ == self@,
    {
        let inputs = match &self.inputs {
            None => None,
            Some(map) => {
                let copy = map.clone();
                proof {
                    map.lemma_same_entries(&copy);
                }
                Some(copy)
            },
        };
        let outputs = match &self.outputs {
            None => None,
            Some(map) => {
                let copy = map.clone();
                proof {
                    map.lemma_same_entries(&copy);
                }
                Some(copy)
            },
        };
        let constructors = self.constructors.clone();
        proof {
            self.constructors.lemma_same_entries(&constructors);
        }
        Type {
            inputs,
            outputs,
            type_parameters: clone_type_parameters(&self.type_parameters),
            constructors,
        }
    }
}

/// A copy of a map of types.
pub fn clone_types(types: &NameMap<Type>) -> (copy: NameMap<Type>)
    ensures
        copy.deep_view() == types.deep_view(),
{
    let copy = types.clone();
    proof {
        types.lemma_same_entries(&copy);
    }
    copy
}

} // verus!
