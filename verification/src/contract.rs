//! The call context of an execution.

use vstd::prelude::*;
use bytes::Bytes;
use primitive_types::U256;

verus! {

/// What a machine is invoked with: the code to run, the data handed to the
/// call, and the value that comes with it.
#[derive(Debug)]
pub struct Contract {
    /// The code to run.
    pub code: Bytes,
    /// The data handed to the call.
    pub input: Bytes,
    /// The value that comes with the call.
    pub value: U256,
}

impl Contract {
    /// A call context of the given parts.
    pub fn new(code: Bytes, input: Bytes, value: U256) -> (contract: Contract)
        ensures
            contract == (Contract { code, input, value }),
    {
        Contract { code, input, value }
    }
}

} // verus!
