use vstd::prelude::*;

verus! {

/// One variable that the generated code declares: the name of its type, the
/// types that the type is instantiated with, as they are written behind its
/// name, the variable's own name, and whether it is declared mutable.
#[derive(Debug, PartialEq)]
pub struct ObjectDescription {
    pub type_path: String,
    pub type_parameter_part: String,
    pub name: String,
    pub is_mutable: bool,
}

/// The model of an [`ObjectDescription`].
pub ghost struct ObjectDescriptionView {
    pub type_path: Seq<char>,
    pub type_parameter_part: Seq<char>,
    pub name: Seq<char>,
    pub is_mutable: bool,
}

impl DeepView for ObjectDescription {
    type V = ObjectDescriptionView;

    open spec fn deep_view(&self) -> ObjectDescriptionView {
        ObjectDescriptionView {
            type_path: self.type_path@,
            type_parameter_part: self.type_parameter_part@,
            name: self.name@,
            is_mutable: self.is_mutable,
        }
    }
}

impl View for ObjectDescription {
    type V = ObjectDescriptionView;

    open spec fn view(&self) -> ObjectDescriptionView {
        self.deep_view()
    }
}

impl Clone for ObjectDescription {
    fn clone(&self) -> (copy: Self)
        ensures
            copy@ == self@,
    {
        ObjectDescription {
            type_path: self.type_path.clone(),
            type_parameter_part: self.type_parameter_part.clone(),
            name: self.name.clone(),
            is_mutable: self.is_mutable,
        }
    }
}

} // verus!
