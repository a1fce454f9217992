use crate::text::clone_names;
use vstd::prelude::*;

verus! {

/// A type parameter that a type declares, with the traits that a type bound
/// to it has to implement.
#[derive(Debug, PartialEq)]
pub struct TypeParameter {
    pub name: String,
    pub constraints: Vec<String>,
}

/// The model of a [`TypeParameter`].
pub ghost struct TypeParameterView {
    pub name: Seq<char>,
    pub constraints: Seq<Seq<char>>,
}

impl DeepView for TypeParameter {
    type V = TypeParameterView;

    open spec fn deep_view(&self) -> TypeParameterView {
        TypeParameterView { name: self.name@, constraints: self.constraints.deep_view() }
    }
}

impl View for TypeParameter {
    type V = TypeParameterView;

    open spec fn view(&self) -> TypeParameterView {
        self.deep_view()
    }
}

impl Clone for TypeParameter {
    fn clone(&self) -> (copy: Self)
        ensures
            copy@ == self@,
    {
        TypeParameter { name: self.name.clone(), constraints: clone_names(&self.constraints) }
    }
}

} // verus!
