use vstd::prelude::*;

verus! {

/// Where the value of an argument comes from: it is built by the named
/// constructor of its type, or it is an object that exists already.
#[derive(Debug, PartialEq)]
pub enum ArgumentConstruction {
    Constructor(String),
    ExistingObject(),
}

/// The model of an [`ArgumentConstruction`].
pub ghost enum ArgumentConstructionView {
    Constructor(Seq<char>),
    ExistingObject,
}

impl DeepView for ArgumentConstruction {
    type V = ArgumentConstructionView;

    open spec fn deep_view(&self) -> ArgumentConstructionView {
        match self {
            ArgumentConstruction::Constructor(name) => ArgumentConstructionView::Constructor(name@),
            ArgumentConstruction::ExistingObject() => ArgumentConstructionView::ExistingObject,
        }
    }
}

impl View for ArgumentConstruction {
    type V = ArgumentConstructionView;

    open spec fn view(&self) -> ArgumentConstructionView {
        self.deep_view()
    }
}

impl ArgumentConstruction {
    /// Whether two values are the same, part for part.
    pub fn same(&self, other: &ArgumentConstruction) -> (equal: bool)
        ensures
            equal == (self@ == other@),
    {
        match self {
            ArgumentConstruction::Constructor(name) => match other {
                ArgumentConstruction::Constructor(other_name) => *name == *other_name,
                ArgumentConstruction::ExistingObject() => false,
            },
            ArgumentConstruction::ExistingObject() => match other {
                ArgumentConstruction::Constructor(_) => false,
                ArgumentConstruction::ExistingObject() => true,
            },
        }
    }
}

impl Clone for ArgumentConstruction {
    fn clone(&self) -> (copy: Self)
        ensures
            copy@ == self@,
    {
        match self {
            ArgumentConstruction::Constructor(name) => ArgumentConstruction::Constructor(
                name.clone(),
            ),
            ArgumentConstruction::ExistingObject() => ArgumentConstruction::ExistingObject(),
        }
    }
}

} // verus!
