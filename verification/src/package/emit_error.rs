//! The errors of the engine.

use vstd::prelude::*;
use vstd::string::*;

verus! {

/// What was looked for and not found.
#[derive(Debug, PartialEq)]
pub enum Missing {
    /// No type of this name is in the catalog.
    Type(String),
    /// The type has no constructor of this name.
    Constructor { constructor_name: String, type_path: String },
    /// No type is bound to the placeholder of this name.
    GenericBinding(String),
}

/// Why no code was generated.
#[derive(Debug, PartialEq)]
pub enum EmitError {
    /// A type, a constructor or the binding of a placeholder is missing.
    NotFound(Missing),
    /// The template engine reported an error, in the words of `message`.
    TemplateError { message: String },
    /// The constructor of this name, of this type, needs an argument that
    /// is built by a constructor whose code is being generated already.
    CycleError { type_path: String, constructor_name: String },
}

/// The model of a [`Missing`].
pub ghost enum MissingView {
    Type(Seq<char>),
    Constructor { constructor_name: Seq<char>, type_path: Seq<char> },
    GenericBinding(Seq<char>),
}

/// The model of an [`EmitError`]. It leaves out the words of the template
/// engine.
pub ghost enum EmitErrorView {
    NotFound(MissingView),
    TemplateError,
    CycleError { type_path: Seq<char>, constructor_name: Seq<char> },
}

impl DeepView for Missing {
    type V = MissingView;

    open spec fn deep_view(&self) -> MissingView {
        match self {
            Missing::Type(name) => MissingView::Type(name@),
            Missing::Constructor { constructor_name, type_path } => MissingView::Constructor {
                constructor_name: constructor_name@,
                type_path: type_path@,
            },
            Missing::GenericBinding(name) => MissingView::GenericBinding(name@),
        }
    }
}

impl View for Missing {
    type V = MissingView;

    open spec fn view(&self) -> MissingView {
        self.deep_view()
    }
}

impl DeepView for EmitError {
    type V = EmitErrorView;

    open spec fn deep_view(&self) -> EmitErrorView {
        match self {
            EmitError::NotFound(missing) => EmitErrorView::NotFound(missing.deep_view()),
            EmitError::TemplateError { .. } => EmitErrorView::TemplateError,
            EmitError::CycleError { type_path, constructor_name } => EmitErrorView::CycleError {
                type_path: type_path@,
                constructor_name: constructor_name@,
            },
        }
    }
}

impl View for EmitError {
    type V = EmitErrorView;

    open spec fn view(&self) -> EmitErrorView {
        self.deep_view()
    }
}

/// The error as a sentence, without the words of the template engine.
pub open spec fn message_text(error: EmitErrorView) -> Seq<char> {
    match error {
        EmitErrorView::NotFound(MissingView::Type(name)) => "Type description for '"@ + name
            + "' not found."@,
        EmitErrorView::NotFound(
            MissingView::Constructor { constructor_name, type_path },
        ) => "Constructor '"@ + constructor_name + "' for type '"@ + type_path + "' not found."@,
        EmitErrorView::NotFound(MissingView::GenericBinding(_)) => "Generic type was not resolved"@,
        EmitErrorView::TemplateError => "The template could not be rendered."@,
        EmitErrorView::CycleError { type_path, constructor_name } => "Constructor '"@
            + constructor_name + "' for type '"@ + type_path + "' needs itself."@,
    }
}

impl EmitError {
    /// The error as a sentence. For an error of the template engine the
    /// sentence is the engine's own.
    pub fn message(&self) -> (text: String)
        ensures
            !(self is TemplateError) ==> text@ == message_text(self@),
            self matches EmitError::TemplateError { message } ==> text@ == message@,
    {
        match self {
            EmitError::NotFound(Missing::Type(name)) => {
                let mut text = "Type description for '".to_string();
                text.append(name.as_str());
                text.append("' not found.");
                text
            },
            EmitError::NotFound(Missing::Constructor { constructor_name, type_path }) => {
                let mut text = "Constructor '".to_string();
                text.append(constructor_name.as_str());
                text.append("' for type '");
                text.append(type_path.as_str());
                text.append("' not found.");
                text
            },
            EmitError::NotFound(Missing::GenericBinding(_)) => {
                "Generic type was not resolved".to_string()
            },
            EmitError::TemplateError { message } => message.clone(),
            EmitError::CycleError { type_path, constructor_name } => {
                let mut text = "Constructor '".to_string();
                text.append(constructor_name.as_str());
                text.append("' for type '");
                text.append(type_path.as_str());
                text.append("' needs itself.");
                text
            },
        }
    }
}

/// The model of what a function of the engine returns: the text of the
/// code, or the model of the error.
pub open spec fn outcome(result: Result<String, EmitError>) -> Result<Seq<char>, EmitErrorView> {
    match result {
        Ok(code) => Ok(code@),
        Err(error) => Err(error@),
    }
}

} // verus!
