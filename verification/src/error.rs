use vstd::prelude::*;

verus! {

/// Why an operation on the registry was refused.
#[derive(Debug, Clone, Copy, PartialEq, Eq, Structural)]
pub enum Error {
    /// The attempt does not hash to the stored digest.
    WrongAnswer,
    /// No question is stored at the requested position.
    QuestionDoesntExist,
    /// The caller has a role, but not the one the operation asks for.
    InvalidPowerLevel,
    /// The caller has no role at all, or is not the owner.
    InvalidCaller,
}

} // verus!
