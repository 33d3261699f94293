//! The execution state of one call and the step loop that drives it.

use vstd::prelude::*;
use bytes::Bytes;
use core::ops::Range;
use primitive_types::U256;
use crate::buffer::{bytes_as_slice, bytes_from_vec, bytes_new, bytes_view};
use crate::contract::Contract;
use crate::error::{ExitReason, ExitSucceed};
use crate::gas::{Gas, GasView};
use crate::memory::{read_padded, zeros, Memory};
use crate::opcode::{decode_at, Control, OpCode};
use crate::stack::Stack;
use crate::word::{u256_as_usize, u256_from_usize, u256_gt, u256_sub, u256_value};

verus! {

/// Greatest number of words on the stack of a new machine.
pub const STACK_LIMIT: usize = 10000;

/// Greatest length of the memory of a new machine.
pub const MEMORY_LIMIT: usize = 10000;

/// The reason that is reported where execution runs off the code.
pub open spec fn stopped() -> ExitReason {
    ExitReason::Succeed(ExitSucceed::Stopped)
}

/// The position at which execution goes on after `control` was returned for
/// the instruction at `program_counter`. An advance saturates at `usize::MAX`,
/// which lies at or beyond the end of any code. An exit leaves the position.
pub open spec fn next_position(program_counter: usize, control: Control) -> usize {
    match control {
        Control::Continue => if program_counter < usize::MAX {
            (program_counter + 1) as usize
        } else {
            usize::MAX
        },
        Control::ContinueN(n) => if program_counter + n <= usize::MAX {
            (program_counter + n) as usize
        } else {
            usize::MAX
        },
        Control::Jump(target) => target,
        Control::Exit(_) => program_counter,
    }
}

/// What a step reports after `control` was returned: an exit ends the run with
/// its reason, anything else lets it go on.
pub open spec fn control_result(control: Control) -> Result<(), ExitReason> {
    match control {
        Control::Exit(reason) => Err(reason),
        _ => Ok(()),
    }
}

/// The bytes that a return range of `start..end` designates in `memory`; what
/// lies beyond the end of `memory` reads as zero.
pub open spec fn return_bytes(memory: Seq<u8>, start: nat, end: nat) -> Seq<u8> {
    read_padded(memory, start as int, (end - start) as nat)
}

/// The capability that a machine is driven with: it observes each step and
/// gives each instruction its meaning. The machine promises what it hands
/// over; nothing is assumed of what comes back.
pub trait ExtHandler {
    /// Called once per step with the instruction about to be dispatched.
    fn trace_opcode(&mut self, opcode: OpCode, machine: &Machine)
        requires
            machine.current_opcode() == Some(opcode),
    ;

    /// Executes `opcode`, which stands at `program_counter`, on a machine that
    /// has not stopped, and says how execution goes on.
    fn eval(&mut self, machine: &mut Machine, opcode: OpCode, program_counter: usize) -> (control:
        Control)
        requires
            old(machine).status is Ok,
            old(machine).program_counter == program_counter,
            old(machine).current_opcode() == Some(opcode),
    ;
}

/// The execution state of one call.
pub struct Machine {
    /// Contract information and invoking data.
    pub contract: Contract,
    /// Position of the instruction that is executed next.
    pub program_counter: usize,
    /// The part of memory that holds the return value.
    pub return_range: Range<U256>,
    /// Memory.
    pub memory: Memory,
    /// Stack.
    pub stack: Stack,
    /// `Ok` while running, the terminal reason once stopped.
    pub status: Result<(), ExitReason>,
    /// What the most recent sub-call returned.
    pub return_data_buffer: Bytes,
    /// The gas ledger.
    pub gas: Gas,
}

impl Machine {
    /// The code that the machine runs.
    pub open spec fn code(&self) -> Seq<u8> {
        bytes_view(self.contract.code)
    }

    /// The instruction at the cursor, if the cursor is within the code and the
    /// byte there is assigned.
    pub open spec fn current_opcode(&self) -> Option<OpCode> {
        decode_at(self.code(), self.program_counter as int)
    }

    /// The machine after `control` was applied to it for the instruction at
    /// `program_counter`: an exit records its reason and leaves the cursor,
    /// anything else moves the cursor and leaves the status.
    pub open spec fn after_control(self, program_counter: usize, control: Control) -> Machine {
        match control {
            Control::Exit(reason) => Machine { status: Err(reason), ..self },
            _ => Machine { program_counter: next_position(program_counter, control), ..self },
        }
    }

    /// The machine after it ran off its code: stopped normally.
    pub open spec fn after_implicit_stop(self) -> Machine {
        Machine { status: Err(stopped()), ..self }
    }

    /// How a step ends where it has nothing to dispatch, with the machine it
    /// leaves: a normal stop where no assigned instruction stands at the
    /// cursor, else the recorded reason where the machine has stopped before.
    /// `None` where the instruction at the cursor is due.
    pub open spec fn ends_without_dispatch(self) -> Option<(Machine, ExitReason)> {
        if self.current_opcode() is None {
            Some((self.after_implicit_stop(), stopped()))
        } else {
            match self.status {
                Err(reason) => Some((self, reason)),
                Ok(_) => None,
            }
        }
    }

    /// A machine at the start of `contract`'s code, with empty stack, memory
    /// and return range, and a ledger of `gas_limit`.
    pub fn new(contract: Contract, gas_limit: u64) -> (machine: Machine)
        ensures
            machine.contract == contract,
            machine.program_counter == 0,
            u256_value(machine.return_range.start) == 0,
            u256_value(machine.return_range.end) == 0,
            machine.memory@ == Seq::<u8>::empty(),
            machine.memory.limit() == MEMORY_LIMIT,
            machine.memory.wf(),
            machine.stack@ == Seq::<U256>::empty(),
            machine.stack.limit() == STACK_LIMIT,
            machine.stack.wf(),
            machine.status == Ok::<(), ExitReason>(()),
            bytes_view(machine.return_data_buffer) == Seq::<u8>::empty(),
            machine.gas@ == (GasView { limit: gas_limit as nat, used: 0, memory: 0, refunded: 0 }),
    {
        Machine {
            program_counter: 0,
            return_range: Range { start: u256_from_usize(0), end: u256_from_usize(0) },
            memory: Memory::new(MEMORY_LIMIT),
            stack: Stack::new(STACK_LIMIT),
            status: Ok(()),
            return_data_buffer: bytes_new(),
            contract,
            gas: Gas::new(gas_limit),
        }
    }

    /// The call context.
    pub fn contract(&self) -> (contract: &Contract)
        ensures
            *contract == self.contract,
    {
        &self.contract
    }

    /// The gas ledger. The machine stays as it is.
    pub fn gas(&mut self) -> (gas: &Gas)
        ensures
            *gas == old(self).gas,
            *final(self) == *old(self),
    {
        &self.gas
    }

    /// Adds a signed amount to the refund counter of the ledger.
    pub fn gas_refund(&mut self, refund: i64)
        requires
            i64::MIN <= old(self).gas@.refunded + refund <= i64::MAX,
        ensures
            final(self).gas@ == (GasView {
                refunded: old(self).gas@.refunded + refund,
                ..old(self).gas@
            }),
            *final(self) == (Machine { gas: final(self).gas, ..*old(self) }),
    {
        self.gas.record_refund(refund);
    }

    /// Raises the memory cost of the ledger to `gas_memory` where that is
    /// higher. A value that is not above the recorded one changes nothing.
    pub fn gas_memory(&mut self, gas_memory: u64)
        ensures
            final(self).gas@ == old(self).gas@.memory_cost_update(gas_memory as nat),
            *final(self) == (Machine { gas: final(self).gas, ..*old(self) }),
            gas_memory <= old(self).gas@.memory ==> *final(self) == *old(self),
    {
        self.gas.memory_cost_update(gas_memory);
    }

    /// The stack.
    pub fn stack(&self) -> (stack: &Stack)
        ensures
            *stack == self.stack,
    {
        &self.stack
    }

    /// The stack, to change it.
    pub fn stack_mut(&mut self) -> (stack: &mut Stack)
        ensures
            *stack == old(self).stack,
            *final(self) == (Machine { stack: *final(stack), ..*old(self) }),
    {
        &mut self.stack
    }

    /// The memory.
    pub fn memory(&self) -> (memory: &Memory)
        ensures
            *memory == self.memory,
    {
        &self.memory
    }

    /// The memory, to change it.
    pub fn memory_mut(&mut self) -> (memory: &mut Memory)
        ensures
            *memory == old(self).memory,
            *final(self) == (Machine { memory: *final(memory), ..*old(self) }),
    {
        &mut self.memory
    }

    /// Position of the instruction that is executed next.
    pub fn program_counter(&self) -> (program_counter: usize)
        ensures
            program_counter == self.program_counter,
    {
        self.program_counter
    }

    /// Applies to the cursor and the status what a dispatched instruction
    /// asked for. `program_counter` is the position of that instruction.
    pub fn apply_control(&mut self, program_counter: usize, control: Control) -> (r: Result<
        (),
        ExitReason,
    >)
        ensures
            r == control_result(control),
            *final(self) == old(self).after_control(program_counter, control),
    {
        match control {
            Control::Continue => {
                self.program_counter = program_counter.saturating_add(1);
                Ok(())
            },
            Control::ContinueN(n) => {
                self.program_counter = program_counter.saturating_add(n as usize);
                Ok(())
            },
            Control::Exit(reason) => {
                self.status = Err(reason);
                Err(reason)
            },
            Control::Jump(target) => {
                self.program_counter = target;
                Ok(())
            },
        }
    }

    /// Executes one instruction.
    ///
    /// Where no assigned instruction stands at the cursor, the machine stops
    /// normally and the handler is not called. Where the machine has stopped
    /// before, the step observes the instruction, dispatches nothing, leaves
    /// the machine as it is and reports the recorded reason again. Otherwise
    /// the handler executes the instruction and what it returns is applied as
    /// `apply_control` says. A reason that is reported is always the one that
    /// the status holds afterwards.
    pub fn step<H: ExtHandler>(&mut self, handler: &mut H) -> (r: Result<(), ExitReason>)
        ensures
            r matches Err(reason) ==> final(self).status == Err::<(), ExitReason>(reason),
            r is Ok ==> old(self).ends_without_dispatch() is None,
            old(self).ends_without_dispatch() matches Some((after, reason)) ==> {
                &&& r == Err::<(), ExitReason>(reason)
                &&& *final(self) == after
            },
            old(self).current_opcode() is None ==> *final(handler) == *old(handler),
    {
        let program_counter: usize = self.program_counter;
        let code: &[u8] = bytes_as_slice(&self.contract.code);
        let opcode: Option<OpCode> = if program_counter < code.len() {
            OpCode::try_from_u8(code[program_counter])
        } else {
            None
        };
        let opcode: OpCode = match opcode {
            Some(opcode) => opcode,
            None => {
                self.status = Err(ExitReason::Succeed(ExitSucceed::Stopped));
                return Err(ExitReason::Succeed(ExitSucceed::Stopped));
            },
        };
        handler.trace_opcode(opcode, self);
        if let Err(reason) = self.status {
            return Err(reason);
        }
        let control: Control = handler.eval(self, opcode, program_counter);
        self.apply_control(program_counter, control)
    }

    /// Executes instructions until one of them ends the run or `max_steps`
    /// steps were taken; `None` says that the run has not ended yet.
    ///
    /// A run on a machine at whose cursor no assigned instruction stands, as
    /// with empty code, ends at once with a normal stop and without a call of
    /// the handler. A run on a machine that has stopped before reports the
    /// recorded reason again and leaves the machine as it is.
    pub fn run<H: ExtHandler>(&mut self, handler: &mut H, max_steps: usize) -> (r: Option<
        ExitReason,
    >)
        ensures
            r matches Some(reason) ==> final(self).status == Err::<(), ExitReason>(reason),
            r is None && max_steps > 0 ==> old(self).ends_without_dispatch() is None,
            max_steps == 0 ==> r is None && *final(self) == *old(self) && *final(handler) == *old(
                handler,
            ),
            max_steps > 0 ==> (old(self).ends_without_dispatch() matches Some((after, reason)) ==> {
                &&& r == Some(reason)
                &&& *final(self) == after
            }),
            max_steps > 0 && old(self).current_opcode() is None ==> *final(handler) == *old(
                handler,
            ),
    {
        let mut steps: usize = 0;
        while steps < max_steps
            invariant
                steps <= max_steps,
                steps == 0 ==> *self == *old(self) && *handler == *old(handler),
                steps > 0 ==> old(self).ends_without_dispatch() is None,
            decreases max_steps - steps,
        {
            if let Err(reason) = self.step(handler) {
                return Some(reason);
            }
            steps += 1;
        }
        None
    }

    /// Copies the return value out of memory. The range is given in words,
    /// which reach further than memory can: what lies beyond the end of
    /// memory, and beyond `usize::MAX`, reads as zero.
    pub fn return_value(&self) -> (value: Bytes)
        requires
            u256_value(self.return_range.start) <= u256_value(self.return_range.end),
            u256_value(self.return_range.end) - u256_value(self.return_range.start) <= usize::MAX,
        ensures
            bytes_view(value) == return_bytes(
                self.memory@,
                u256_value(self.return_range.start),
                u256_value(self.return_range.end),
            ),
    {
        let addressable: U256 = u256_from_usize(usize::MAX);
        let start: U256 = self.return_range.start;
        let end: U256 = self.return_range.end;
        let memory_len: usize = self.memory.len();
        if u256_gt(&start, &addressable) {
            let len: usize = u256_as_usize(&u256_sub(end, start));
            let mut ret: Vec<u8> = Vec::new();
            while ret.len() < len
                invariant
                    ret@.len() <= len,
                    ret@ == zeros(ret@.len()),
                decreases len - ret@.len(),
            {
                ret.push(0u8);
                assert(ret@ =~= zeros(ret@.len()));
            }
            assert(ret@ =~= return_bytes(self.memory@, u256_value(start), u256_value(end)));
            bytes_from_vec(ret)
        } else if u256_gt(&end, &addressable) {
            let offset: usize = u256_as_usize(&start);
            let len: usize = u256_as_usize(&u256_sub(end, start));
            let mut ret: Vec<u8> = self.memory.read(offset, usize::MAX - offset);
            while ret.len() < len
                invariant
                    usize::MAX - offset <= ret@.len() <= len,
                    memory_len == self.memory@.len(),
                    ret@ == read_padded(self.memory@, offset as int, ret@.len()),
                decreases len - ret@.len(),
            {
                ret.push(0u8);
                assert(ret@ =~= read_padded(self.memory@, offset as int, ret@.len()));
            }
            bytes_from_vec(ret)
        } else {
            let offset: usize = u256_as_usize(&start);
            let len: usize = u256_as_usize(&u256_sub(end, start));
            self.memory.get(offset, len)
        }
    }

    /// Copies the return value out of memory, or gives `None` where the
    /// return range ends before it starts or is longer than `usize::MAX`.
    pub fn checked_return_value(&self) -> (value: Option<Bytes>)
        ensures
            ({
                let start = u256_value(self.return_range.start);
                let end = u256_value(self.return_range.end);
                if start <= end && end - start <= usize::MAX {
                    value is Some && bytes_view(value.unwrap()) == return_bytes(
                        self.memory@,
                        start,
                        end,
                    )
                } else {
                    value is None
                }
            }),
    {
        let start: U256 = self.return_range.start;
        let end: U256 = self.return_range.end;
        if u256_gt(&start, &end) {
            return None;
        }
        let len: U256 = u256_sub(end, start);
        let addressable: U256 = u256_from_usize(usize::MAX);
        if u256_gt(&len, &addressable) {
            return None;
        }
        Some(self.return_value())
    }
}

/// No instruction stands at a cursor at or beyond the end of the code, so a
/// step on a machine with empty code stops it normally, wherever its cursor is.
pub proof fn lemma_no_opcode_beyond_code(machine: Machine)
    ensures
        machine.program_counter >= machine.code().len() ==> machine.current_opcode() is None,
        machine.code().len() == 0 ==> machine.ends_without_dispatch() == Some(
            (machine.after_implicit_stop(), stopped()),
        ),
{
}

/// A step that ends without a dispatch is repeated by every later step: it
/// leaves a machine on which the next step ends in the same way, with the same
/// reason, and changes nothing.
pub proof fn lemma_stop_is_permanent(machine: Machine)
    ensures
        machine.ends_without_dispatch() matches Some((after, reason))
            ==> after.ends_without_dispatch() == Some((after, reason)),
{
}

/// An exit is permanent: once the handler has ended the run with `reason` and
/// `apply_control` has recorded it, every later step on that machine dispatches
/// nothing, changes nothing and reports `reason` again, as long as an
/// instruction stands at the cursor.
pub proof fn lemma_exit_is_permanent(machine: Machine, program_counter: usize, reason: ExitReason)
    requires
        machine.current_opcode() is Some,
    ensures
        ({
            let exited = machine.after_control(program_counter, Control::Exit(reason));
            &&& exited.status == Err::<(), ExitReason>(reason)
            &&& exited.ends_without_dispatch() == Some((exited, reason))
        }),
{
}

/// The three shapes of a return value: a range within memory gives exactly
/// that part of memory; a range of any kind gives as many bytes as it is long,
/// zero from the end of memory on; a range that starts beyond `usize::MAX`,
/// which no memory reaches, gives zeros only.
pub proof fn lemma_return_bytes_cases(memory: Seq<u8>, start: nat, end: nat)
    requires
        start <= end,
        memory.len() <= usize::MAX,
    ensures
        end <= memory.len() ==> return_bytes(memory, start, end) == memory.subrange(
            start as int,
            end as int,
        ),
        return_bytes(memory, start, end).len() == end - start,
        forall|i: int|
            0 <= i < end - start && start + i < memory.len() ==> #[trigger] return_bytes(
                memory,
                start,
                end,
            )[i] == memory[start + i],
        forall|i: int|
            0 <= i < end - start && start + i >= memory.len() ==> #[trigger] return_bytes(
                memory,
                start,
                end,
            )[i] == 0u8,
        start > usize::MAX ==> return_bytes(memory, start, end) == zeros((end - start) as nat),
{
    if end <= memory.len() {
        assert(return_bytes(memory, start, end) =~= memory.subrange(start as int, end as int));
    }
    if start > usize::MAX {
        assert(return_bytes(memory, start, end) =~= zeros((end - start) as nat));
    }
}

} // verus!
