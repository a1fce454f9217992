use vstd::prelude::*;

verus! {

/// The use of a type: a type that is named, or a placeholder for a type
/// that the caller binds, each with the types it is instantiated with.
#[derive(Debug, PartialEq)]
pub enum TypeDescription {
    Type { name: String, type_parameters: Option<Vec<Box<TypeDescription>>> },
    Generic { name: String, type_parameters: Option<Vec<Box<TypeDescription>>> },
}

/// The model of a [`TypeDescription`].
pub ghost enum TypeDescriptionView {
    Type { name: Seq<char>, type_parameters: Option<Seq<TypeDescriptionView>> },
    Generic { name: Seq<char>, type_parameters: Option<Seq<TypeDescriptionView>> },
}

impl TypeDescriptionView {
    /// The name that the description gives.
    pub open spec fn name(self) -> Seq<char> {
        match self {
            TypeDescriptionView::Type { name, .. } => name,
            TypeDescriptionView::Generic { name, .. } => name,
        }
    }

    /// The descriptions of the types that this one is instantiated with.
    pub open spec fn parameters(self) -> Seq<TypeDescriptionView> {
        match self {
            TypeDescriptionView::Type { type_parameters: Some(list), .. } => list,
            TypeDescriptionView::Generic { type_parameters: Some(list), .. } => list,
            _ => Seq::empty(),
        }
    }
}

/// The models of the descriptions in an optional list.
pub open spec fn parameters_view(
    parameters: Option<Vec<Box<TypeDescription>>>,
) -> Option<Seq<TypeDescriptionView>>
    decreases parameters,
{
    match parameters {
        Some(list) => Some(
            Seq::new(
                list@.len(),
                |at: int|
                    if 0 <= at < list@.len() {
                        (*list@[at]).deep_view()
                    } else {
                        arbitrary()
                    },
            ),
        ),
        None => None,
    }
}

impl DeepView for TypeDescription {
    type V = TypeDescriptionView;

    open spec fn deep_view(&self) -> TypeDescriptionView
        decreases self,
    {
        match self {
            TypeDescription::Type { name, type_parameters } => TypeDescriptionView::Type {
                name: name@,
                type_parameters: parameters_view(*type_parameters),
            },
            TypeDescription::Generic { name, type_parameters } => TypeDescriptionView::Generic {
                name: name@,
                type_parameters: parameters_view(*type_parameters),
            },
        }
    }
}

impl View for TypeDescription {
    type V = TypeDescriptionView;

    open spec fn view(&self) -> TypeDescriptionView {
        self.deep_view()
    }
}

/// Whether two optional lists of descriptions are the same, part for part.
pub fn same_parameters(
    left: &Option<Vec<Box<TypeDescription>>>,
    right: &Option<Vec<Box<TypeDescription>>>,
) -> (equal: bool)
    ensures
        equal == (parameters_view(*left) == parameters_view(*right)),
    decreases left,
{
    match left {
        None => right.is_none(),
        Some(ours) => match right {
            None => false,
            Some(theirs) => {
                let ghost our_view = parameters_view(*left)->0;
                let ghost their_view = parameters_view(*right)->0;
                if ours.len() != theirs.len() {
                    assert(our_view.len() != their_view.len());
                    return false;
                }
                let mut at: usize = 0;
                while at < ours.len()
                    invariant
                        at <= ours.len(),
                        ours.len() == theirs.len(),
                        *left == Some(*ours),
                        our_view == parameters_view(*left)->0,
                        their_view == parameters_view(*right)->0,
                        our_view.len() == ours.len(),
                        their_view.len() == theirs.len(),
                        forall|i: int| 0 <= i < ours.len() ==> our_view[i] == (*ours@[i]).deep_view(),
                        forall|i: int|
                            0 <= i < theirs.len() ==> their_view[i] == (*theirs@[i]).deep_view(),
                        forall|i: int| 0 <= i < at ==> our_view[i] == their_view[i],
                    decreases ours.len() - at,
                {
                    if !ours[at].same(&theirs[at]) {
                        assert(our_view[at as int] != their_view[at as int]);
                        return false;
                    }
                    at = at + 1;
                }
                assert(our_view =~= their_view);
                true
            },
        },
    }
}

impl TypeDescription {
    /// Whether two descriptions are the same, part for part.
    pub fn same(&self, other: &TypeDescription) -> (equal: bool)
        ensures
            equal == (self@ == other@),
        decreases self,
    {
        match self {
            TypeDescription::Type { name, type_parameters } => match other {
                TypeDescription::Type { name: other_name, type_parameters: other_parameters } => {
                    *name == *other_name && same_parameters(type_parameters, other_parameters)
                },
                TypeDescription::Generic { .. } => false,
            },
            TypeDescription::Generic { name, type_parameters } => match other {
                TypeDescription::Generic {
                    name: other_name,
                    type_parameters: other_parameters,
                } => { *name == *other_name && same_parameters(type_parameters, other_parameters) },
                TypeDescription::Type { .. } => false,
            },
        }
    }
}

/// A copy of an optional list of descriptions.
pub fn clone_parameters(parameters: &Option<Vec<Box<TypeDescription>>>) -> (copy: Option<
    Vec<Box<TypeDescription>>,
>)
    ensures
        parameters_view(copy) == parameters_view(*parameters),
    decreases parameters,
{
    match parameters {
        None => None,
        Some(list) => {
            let ghost models = parameters_view(*parameters)->0;
            let mut copy: Vec<Box<TypeDescription>> = Vec::new();
            let mut at: usize = 0;
            while at < list.len()
                invariant
                    at <= list.len(),
                    *parameters == Some(*list),
                    models == parameters_view(*parameters)->0,
                    copy@.len() == at,
                    forall|i: int| 0 <= i < at ==> (*copy@[i]).deep_view() == models[i],
                decreases list.len() - at,
            {
                let item = (*list[at]).clone();
                copy.push(Box::new(item));
                at = at + 1;
            }
            Some(copy)
        },
    }
}

impl Clone for TypeDescription {
    fn clone(&self) -> (copy: Self)
        ensures
            copy@ == self@,
        decreases self,
    {
        match self {
            TypeDescription::Type { name, type_parameters } => TypeDescription::Type {
                name: name.clone(),
                type_parameters: clone_parameters(type_parameters),
            },
            TypeDescription::Generic { name, type_parameters } => TypeDescription::Generic {
                name: name.clone(),
                type_parameters: clone_parameters(type_parameters),
            },
        }
    }
}

} // verus!
