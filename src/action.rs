use vstd::prelude::*;

verus! {

/// Why a command is being dispatched.
#[derive(Clone, Copy, Debug, PartialEq, Eq, Structural)]
pub enum Action {
    /// Describe the command instead of doing its work.
    Help,
    /// Do the command's work.
    Execute,
}

} // verus!
