use crate::package::type_description::TypeDescription;
use crate::package::type_description::TypeDescriptionView;
use vstd::prelude::*;

verus! {

/// An input that a type declares. The generated code does not depend on it.
#[derive(Debug, PartialEq)]
pub struct Input {
    pub input_type: TypeDescription,
}

/// The model of an [`Input`].
pub ghost struct InputView {
    pub input_type: TypeDescriptionView,
}

impl DeepView for Input {
    type V = InputView;

    open spec fn deep_view(&self) -> InputView {
        InputView { input_type: self.input_type.deep_view() }
    }
}

impl View for Input {
    type V = InputView;

    open spec fn view(&self) -> InputView {
        self.deep_view()
    }
}

impl Clone for Input {
    fn clone(&self) -> (copy: Self)
        ensures
            copy@ == self@,
    {
        Input { input_type: self.input_type.clone() }
    }
}

} // verus!
