//! A catalog of types and their constructors, and an engine that writes
//! the code that builds an instance of a type: first the code that builds
//! each argument that is to be built, then the statement that declares the
//! instance.
//!
//! [`package_manager::PackageManager`] is the catalog. It holds packages, a
//! package holds crates, and a crate holds types and modules. A qualified
//! name stands for at most one type of the catalog.
//! [`package::constructor::Constructor`] says how an instance of a type is
//! made, and [`package::constructor::Constructor::emit_code_template`]
//! writes the code.
//!
//! Every function states what it returns over the models of its arguments.
//! The model of a value is its `view`: a text is the sequence of its
//! characters, and a map from names is the sequence of its entries.

pub mod name_map;
pub mod package;
pub mod package_manager;
pub mod template;
pub mod text;
