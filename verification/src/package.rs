//! What a package is made of, and the engine that writes the code that
//! builds an instance of one of its types.

pub mod argument;
pub mod argument_construction;
pub mod argument_passing;
pub mod constructor;
pub mod cycle;
pub mod emission;
pub mod emit_error;
pub mod known;
pub mod input;
pub mod modifier;
pub mod module;
pub mod namespace;
pub mod object_description;
pub mod output;
pub mod package;
pub mod package_crate;
pub mod package_type;
pub mod precedence;
pub mod type_description;
pub mod type_parameter;
