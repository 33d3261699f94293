//! Instruction bytes and the control outcomes of a dispatched instruction.

use vstd::prelude::*;
use crate::error::ExitReason;

verus! {

/// Halts execution.
pub const STOP: u8 = 0x00;
/// Marks a valid target of a jump in flat code.
pub const JUMPDEST: u8 = 0x5b;
/// Pushes the one byte that follows it.
pub const PUSH1: u8 = 0x60;
/// Pushes the thirty-two bytes that follow it.
pub const PUSH32: u8 = 0x7f;

/// Whether `byte` is an assigned instruction.
pub open spec fn is_opcode(byte: u8) -> bool {
    ||| byte <= 0x0b
    ||| 0x10 <= byte <= 0x1d
    ||| byte == 0x20
    ||| 0x30 <= byte <= 0x4a
    ||| 0x50 <= byte <= 0xa4
    ||| 0xd0 <= byte <= 0xd3
    ||| 0xe0 <= byte <= 0xe8
    ||| byte == 0xec
    ||| byte == 0xee
    ||| 0xf0 <= byte <= 0xf5
    ||| 0xf7 <= byte <= 0xfb
    ||| 0xfd <= byte
}

/// Number of bytes that the instruction `byte` occupies in flat code: itself
/// and, for a push, its immediate operand.
pub open spec fn instruction_len(byte: u8) -> int {
    if PUSH1 <= byte <= PUSH32 {
        byte - PUSH1 + 2
    } else {
        1
    }
}

/// The instruction at `position` of `code`, if there is a byte and it is assigned.
pub open spec fn decode_at(code: Seq<u8>, position: int) -> Option<OpCode> {
    if 0 <= position < code.len() && is_opcode(code[position]) {
        Some(OpCode(code[position]))
    } else {
        None
    }
}

/// An assigned instruction byte.
#[derive(Clone, Copy, Debug, PartialEq, Eq, Structural)]
pub struct OpCode(pub u8);

impl OpCode {
    /// Decodes a byte; `None` for a byte that is not assigned.
    pub fn try_from_u8(byte: u8) -> (r: Option<OpCode>)
        ensures
            r == if is_opcode(byte) { Some(OpCode(byte)) } else { None },
    {
        let assigned: bool = byte <= 0x0b || (0x10 <= byte && byte <= 0x1d) || byte == 0x20 || (0x30
            <= byte && byte <= 0x4a) || (0x50 <= byte && byte <= 0xa4) || (0xd0 <= byte && byte
            <= 0xd3) || (0xe0 <= byte && byte <= 0xe8) || byte == 0xec || byte == 0xee || (0xf0
            <= byte && byte <= 0xf5) || (0xf7 <= byte && byte <= 0xfb) || 0xfd <= byte;
        if assigned {
            Some(OpCode(byte))
        } else {
            None
        }
    }

    /// The instruction byte.
    pub fn as_u8(&self) -> (r: u8)
        ensures
            r == self.0,
    {
        self.0
    }
}

/// What a dispatched instruction asks of the step loop.
#[derive(Clone, Copy, Debug, PartialEq, Eq, Structural)]
pub enum Control {
    /// Go on with the next byte.
    Continue,
    /// Go on after skipping the given number of bytes, the instruction included.
    ContinueN(u32),
    /// Go on at the given position.
    Jump(usize),
    /// Stop with the given reason.
    Exit(ExitReason),
}

} // verus!
