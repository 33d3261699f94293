//! Execution core of a stack-based virtual machine with an Ethereum-style
//! instruction set: the gas ledger, the bytecode container, the execution
//! cursor, the machine state and the step loop.
//!
//! The logic is verified with Verus. Machine words are `primitive_types::U256`
//! and byte buffers are `bytes::Bytes`; what is taken for granted of the two
//! is stated in the modules [`word`] and [`buffer`] and nowhere else.

pub mod buffer;
pub mod bytecode;
pub mod contract;
pub mod error;
pub mod ext_bytecode;
pub mod gas;
pub mod machine;
pub mod memory;
pub mod opcode;
pub mod stack;
pub mod word;
