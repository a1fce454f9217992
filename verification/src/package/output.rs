use crate::package::type_description::TypeDescription;
use crate::package::type_description::TypeDescriptionView;
use vstd::prelude::*;

verus! {

/// An output that a type declares. The generated code does not depend on it.
#[derive(Debug, PartialEq)]
pub struct Output {
    pub output_type: TypeDescription,
}

/// The model of an [`Output`].
pub ghost struct OutputView {
    pub output_type: TypeDescriptionView,
}

impl DeepView for Output {
    type V = OutputView;

    open spec fn deep_view(&self) -> OutputView {
        OutputView { output_type: self.output_type.deep_view() }
    }
}

impl View for Output {
    type V = OutputView;

    open spec fn view(&self) -> OutputView {
        self.deep_view()
    }
}

impl Clone for Output {
    fn clone(&self) -> (copy: Self)
        ensures
            copy@ == self@,
    {
        Output { output_type: self.output_type.clone() }
    }
}

} // verus!
