use vstd::prelude::*;

verus! {

/// Whether a value is mutable and whether it is held by reference.
#[derive(Debug, Clone, Copy, PartialEq, Eq, Structural)]
pub struct Modifier {
    is_mutable: bool,
    is_reference: bool,
}

} // verus!
