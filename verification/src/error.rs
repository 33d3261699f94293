//! Terminal outcomes of an execution.

use vstd::prelude::*;

verus! {

/// A run that ended normally.
#[derive(Clone, Copy, Debug, PartialEq, Eq, Structural)]
pub enum ExitSucceed {
    /// The code ran off its end, met an unassigned byte, or executed a stop.
    Stopped,
    /// The code executed an explicit return.
    Returned,
}

/// A run that ended in a fault.
#[derive(Clone, Copy, Debug, PartialEq, Eq, Structural)]
pub enum ExitError {
    /// The gas limit does not cover a cost.
    OutOfGas,
    /// A jump target is not a jump destination.
    InvalidJump,
    /// A push onto a full stack.
    StackOverflow,
    /// A pop from a stack that holds too few items.
    StackUnderflow,
    /// An instruction that is not allowed where it stands.
    InvalidOpcode,
    /// A memory or data access outside the addressable range.
    OutOfBounds,
    /// A transfer of control into a code section that does not exist.
    InvalidSection,
}

/// Why a machine stopped. Exactly one reason is reported per run.
#[derive(Clone, Copy, Debug, PartialEq, Eq, Structural)]
pub enum ExitReason {
    /// A successful halt.
    Succeed(ExitSucceed),
    /// An explicit revert; the return range designates the data it carries.
    Revert,
    /// A fault.
    Error(ExitError),
}

impl ExitReason {
    /// Whether the reason is a successful halt.
    pub open spec fn spec_is_succeed(&self) -> bool {
        *self is Succeed
    }

    /// Whether the reason is a successful halt.
    #[verifier::when_used_as_spec(spec_is_succeed)]
    pub fn is_succeed(&self) -> (r: bool)
        ensures
            r == (*self is Succeed),
    {
        match self {
            ExitReason::Succeed(_) => true,
            _ => false,
        }
    }

    /// Whether the reason is a fault.
    pub open spec fn spec_is_error(&self) -> bool {
        *self is Error
    }

    /// Whether the reason is a fault.
    #[verifier::when_used_as_spec(spec_is_error)]
    pub fn is_error(&self) -> (r: bool)
        ensures
            r == (*self is Error),
    {
        match self {
            ExitReason::Error(_) => true,
            _ => false,
        }
    }
}

} // verus!
