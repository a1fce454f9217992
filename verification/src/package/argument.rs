use crate::package::argument_construction::ArgumentConstruction;
use crate::package::argument_construction::ArgumentConstructionView;
use crate::package::argument_passing::ArgumentPassing;
use crate::package::type_description::TypeDescription;
use crate::package::type_description::TypeDescriptionView;
use crate::package::emission::argument_object;
use crate::package::emission::change_observer_argument;
use crate::package::emission::context_argument;
use crate::package::emission::postfix_code;
use crate::package::emission::prefix_code;
use crate::package::object_description::ObjectDescription;
use vstd::prelude::*;

verus! {

/// One argument of a constructor: the type it has, the name it is bound
/// to, how it is passed and where its value comes from.
#[derive(Debug, PartialEq)]
pub struct Argument {
    pub arg_type: Box<TypeDescription>,
    pub name: String,
    pub passing: ArgumentPassing,
    pub construction: ArgumentConstruction,
}

/// The model of an [`Argument`].
pub ghost struct ArgumentView {
    pub arg_type: TypeDescriptionView,
    pub name: Seq<char>,
    pub passing: ArgumentPassing,
    pub construction: ArgumentConstructionView,
}

impl DeepView for Argument {
    type V = ArgumentView;

    open spec fn deep_view(&self) -> ArgumentView {
        ArgumentView {
            arg_type: (*self.arg_type).deep_view(),
            name: self.name@,
            passing: self.passing,
            construction: self.construction.deep_view(),
        }
    }
}

impl View for Argument {
    type V = ArgumentView;

    open spec fn view(&self) -> ArgumentView {
        self.deep_view()
    }
}

impl Argument {
    /// The argument that stands for the change observer.
    pub fn new_change_observer_arg() -> (made: Self)
        ensures
            made@ == change_observer_argument(),
    {
        Argument {
            arg_type: Box::new(
                TypeDescription::Type { name: "()".to_string(), type_parameters: None },
            ),
            name: "change_observer".to_string(),
            passing: ArgumentPassing::Clone,
            construction: ArgumentConstruction::ExistingObject(),
        }
    }

    /// The argument that stands for the context.
    pub fn new_context_arg() -> (made: Self)
        ensures
            made@ == context_argument(),
    {
        Argument {
            arg_type: Box::new(
                TypeDescription::Type { name: "()".to_string(), type_parameters: None },
            ),
            name: "context".to_string(),
            passing: ArgumentPassing::Clone,
            construction: ArgumentConstruction::ExistingObject(),
        }
    }

    /// What is written before the argument's name in a call.
    pub fn emit_prefix_code(&self) -> (code: String)
        ensures
            code@ == prefix_code(self.passing),
    {
        match self.passing {
            ArgumentPassing::Move => "".to_string(),
            ArgumentPassing::Clone => "".to_string(),
            ArgumentPassing::MutableReference => "&mut ".to_string(),
            ArgumentPassing::Reference => "&".to_string(),
        }
    }

    /// What is written behind the argument's name in a call.
    pub fn emit_postfix_code(&self) -> (code: String)
        ensures
            code@ == postfix_code(self.passing),
    {
        match self.passing {
            ArgumentPassing::Move => "".to_string(),
            ArgumentPassing::Clone => ".clone()".to_string(),
            ArgumentPassing::MutableReference => "".to_string(),
            ArgumentPassing::Reference => "".to_string(),
        }
    }

    /// The binding that the code of the argument declares.
    pub fn into_object_description(
        &self,
        type_path: &String,
        type_parameter_part: &String,
    ) -> (object: ObjectDescription)
        ensures
            object@ == argument_object(self@, type_path@, type_parameter_part@),
    {
        ObjectDescription {
            type_path: type_path.clone(),
            type_parameter_part: type_parameter_part.clone(),
            name: self.name.clone(),
            is_mutable: match self.passing {
                ArgumentPassing::MutableReference => true,
                _ => false,
            },
        }
    }

    /// Whether two arguments are the same, part for part.
    pub fn same(&self, other: &Argument) -> (equal: bool)
        ensures
            equal == (self@ == other@),
    {
        self.arg_type.same(&other.arg_type) && self.name == other.name && self.passing
            == other.passing && self.construction.same(&other.construction)
    }
}

impl Clone for Argument {
    fn clone(&self) -> (copy: Self)
        ensures
            copy@ == self@,
    {
        Argument {
            arg_type: Box::new((*self.arg_type).clone()),
            name: self.name.clone(),
            passing: self.passing,
            construction: self.construction.clone(),
        }
    }
}

} // verus!
