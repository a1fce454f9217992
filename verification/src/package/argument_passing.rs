use vstd::prelude::*;

verus! {

/// How the value of an argument is handed to the call that takes it.
#[derive(Debug, Clone, Copy, PartialEq, Eq, Structural)]
pub enum ArgumentPassing {
    Reference,
    MutableReference,
    Move,
    Clone,
}

} // verus!
