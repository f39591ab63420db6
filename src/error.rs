use vstd::prelude::*;

verus! {

/// Errors that a handler reports one layer up.
#[derive(Debug, Clone, Copy, PartialEq, Eq, Structural)]
pub enum Error {
    /// An argument was out of range, such as a register index.
    RmiErrorInput,
    /// The translation table walk failed.
    RmiErrorRtt,
}

} // verus!
