//! The bytecode container: an immutable buffer of code bytes with what its
//! format adds to it. Flat code carries the table of its jump destinations;
//! structured code carries a header and the sections that the header describes.

use vstd::prelude::*;
use crate::opcode::{instruction_len, JUMPDEST, PUSH1, PUSH32};

verus! {

/// Whether an instruction starts at `offset` when `code` is read instruction
/// by instruction from `from` on, each push skipping its immediate operand.
pub open spec fn instruction_starts_at(code: Seq<u8>, from: int, offset: int) -> bool
    decreases code.len() - from,
{
    if from < 0 || offset < from || offset >= code.len() {
        false
    } else if offset == from {
        true
    } else if offset < from + instruction_len(code[from]) {
        false
    } else {
        instruction_starts_at(code, from + instruction_len(code[from]), offset)
    }
}

/// Whether `offset` is a valid target of a jump in the flat code `code`: a
/// jump-destination byte within the code that is an instruction of its own and
/// no part of the immediate operand of a push.
pub open spec fn is_jump_destination(code: Seq<u8>, offset: int) -> bool {
    &&& 0 <= offset < code.len()
    &&& code[offset] == JUMPDEST
    &&& instruction_starts_at(code, 0, offset)
}

/// An offset within the code starts an instruction exactly when no
/// instruction before it reaches over it, which is to say that it lies in the
/// immediate operand of no push.
pub proof fn lemma_instruction_start_not_in_immediate(code: Seq<u8>, from: int, offset: int)
    requires
        0 <= from <= offset < code.len(),
    ensures
        instruction_starts_at(code, from, offset) <==> (forall|earlier: int|
            from <= earlier < offset && #[trigger] instruction_starts_at(code, from, earlier)
                ==> earlier + instruction_len(code[earlier]) <= offset),
    decreases offset - from,
{
    let next = from + instruction_len(code[from]);
    if offset == from {
    } else if offset < next {
        assert(instruction_starts_at(code, from, from));
    } else {
        lemma_instruction_start_not_in_immediate(code, next, offset);
        assert forall|earlier: int| next <= earlier <= offset implies instruction_starts_at(
            code,
            from,
            earlier,
        ) == instruction_starts_at(code, next, earlier) by {}
        if instruction_starts_at(code, from, offset) {
            assert forall|earlier: int|
                from <= earlier < offset && #[trigger] instruction_starts_at(
                    code,
                    from,
                    earlier,
                ) implies earlier + instruction_len(code[earlier]) <= offset by {
                if earlier >= next {
                    assert(instruction_starts_at(code, next, earlier));
                }
            }
        }
        if forall|earlier: int|
            from <= earlier < offset && #[trigger] instruction_starts_at(code, from, earlier)
                ==> earlier + instruction_len(code[earlier]) <= offset {
            assert forall|earlier: int|
                next <= earlier < offset && #[trigger] instruction_starts_at(
                    code,
                    next,
                    earlier,
                ) implies earlier + instruction_len(code[earlier]) <= offset by {
                assert(instruction_starts_at(code, from, earlier));
            }
        }
    }
}

/// A valid target of a jump is a jump-destination byte that no earlier
/// instruction reaches over, and every such byte is a valid target.
pub proof fn lemma_jump_destination(code: Seq<u8>, offset: int)
    ensures
        is_jump_destination(code, offset) <==> {
            &&& 0 <= offset < code.len()
            &&& code[offset] == JUMPDEST
            &&& forall|earlier: int|
                0 <= earlier < offset && #[trigger] instruction_starts_at(code, 0, earlier)
                    ==> earlier + instruction_len(code[earlier]) <= offset
        },
{
    if 0 <= offset < code.len() {
        lemma_instruction_start_not_in_immediate(code, 0, offset);
    }
}

/// Stack behaviour of one code section of structured code.
#[derive(Clone, Copy, Debug, PartialEq, Eq, Structural)]
pub struct TypesSection {
    /// Number of stack items that the section takes.
    pub inputs: u8,
    /// Number of stack items that the section leaves.
    pub outputs: u8,
    /// Greatest height that the stack reaches in the section.
    pub max_stack_size: u16,
}

/// The header of structured code: the sizes of what the body holds.
#[derive(Clone, Debug, PartialEq, Eq)]
pub struct EofHeader {
    /// Size of each code section, in bytes.
    pub code_sizes: Vec<u16>,
    /// Size of each nested container, in bytes.
    pub container_sizes: Vec<u16>,
    /// Size that the data section has once it is complete.
    pub data_size: u16,
}

/// The body of structured code.
#[derive(Clone, Debug, PartialEq, Eq)]
pub struct EofBody {
    /// One entry per code section.
    pub types_sections: Vec<TypesSection>,
    /// Where each code section starts in the container's bytes.
    pub code_section_offsets: Vec<usize>,
    /// The data section, as far as it is there.
    pub data: Vec<u8>,
    /// The nested containers.
    pub sub_containers: Vec<Vec<u8>>,
}

/// What structured code holds besides its bytes.
#[derive(Clone, Debug, PartialEq, Eq)]
pub struct Eof {
    /// The sizes of the sections.
    pub header: EofHeader,
    /// The sections.
    pub body: EofBody,
}

/// Whether `eof` describes `bytes` consistently: there is a code section; each
/// code section has its type entry and its size and lies within `bytes`; each
/// nested container has the size that the header gives; the data section is no
/// longer than the header allows.
pub open spec fn eof_layout(bytes: Seq<u8>, eof: Eof) -> bool {
    &&& eof.body.code_section_offsets@.len() >= 1
    &&& eof.body.types_sections@.len() == eof.body.code_section_offsets@.len()
    &&& eof.header.code_sizes@.len() == eof.body.code_section_offsets@.len()
    &&& forall|i: int|
        0 <= i < eof.body.code_section_offsets@.len() ==> (
        #[trigger] eof.body.code_section_offsets@[i]) + eof.header.code_sizes@[i] <= bytes.len()
    &&& eof.body.sub_containers@.len() == eof.header.container_sizes@.len()
    &&& forall|i: int|
        0 <= i < eof.body.sub_containers@.len() ==> (#[trigger] eof.body.sub_containers@[i])@.len()
            == eof.header.container_sizes@[i]
    &&& eof.body.data@.len() <= eof.header.data_size
}

/// Sum of the first `count` sizes of `sizes`.
pub open spec fn size_sum(sizes: Seq<u16>, count: int) -> int
    decreases count,
{
    if count <= 0 {
        0
    } else {
        size_sum(sizes, count - 1) + sizes[count - 1]
    }
}

/// Where code sections start that have the sizes `sizes` and follow one
/// another without a gap, the first of them at `first`; `None` where a start
/// does not fit a `usize`.
pub fn section_starts(first: usize, sizes: &Vec<u16>) -> (starts: Option<Vec<usize>>)
    ensures
        starts is Some <==> (sizes@.len() == 0 || first + size_sum(sizes@, sizes@.len() - 1)
            <= usize::MAX),
        starts matches Some(starts) ==> {
            &&& starts@.len() == sizes@.len()
            &&& forall|i: int|
                0 <= i < sizes@.len() ==> #[trigger] starts@[i] == first + size_sum(sizes@, i)
        },
{
    let mut starts: Vec<usize> = Vec::new();
    let mut next: usize = first;
    let mut index: usize = 0;
    while index < sizes.len()
        invariant
            index <= sizes@.len(),
            starts@.len() == index,
            next == first + size_sum(sizes@, index as int),
            forall|i: int| 0 <= i < index ==> #[trigger] starts@[i] == first + size_sum(sizes@, i),
        decreases sizes@.len() - index,
    {
        starts.push(next);
        let size: usize = sizes[index] as usize;
        index += 1;
        if index < sizes.len() {
            if size > usize::MAX - next {
                proof {
                    lemma_size_sum_grows(sizes@, index as int, sizes@.len() - 1);
                }
                return None;
            }
            next += size;
        } else {
            return Some(starts);
        }
    }
    Some(starts)
}

/// The sum of more sizes is no smaller.
proof fn lemma_size_sum_grows(sizes: Seq<u16>, fewer: int, more: int)
    requires
        fewer <= more,
    ensures
        size_sum(sizes, fewer) <= size_sum(sizes, more),
    decreases more - fewer,
{
    if fewer < more {
        lemma_size_sum_grows(sizes, fewer, more - 1);
    }
}

/// Why an accessor of a container gave nothing.
#[derive(Clone, Copy, Debug, PartialEq, Eq, Structural)]
pub enum BytecodeError {
    /// The accessor is for flat code and the container is structured.
    NotLegacy,
    /// The accessor is for structured code and the container is flat.
    NotStructured,
    /// The range asked for does not lie within the section.
    OutOfRange,
}

/// What a container holds besides its bytes.
#[derive(Debug)]
enum Format {
    /// Flat code: one flag per byte, set where the byte is a jump destination.
    Legacy { jump_table: Vec<bool> },
    /// Structured code.
    Structured(Eof),
}

/// A bytecode container. It never changes once it is built.
#[derive(Debug)]
pub struct Bytecode {
    bytes: Vec<u8>,
    format: Format,
}

/// The jump table of the flat code `bytes`.
fn analyze(bytes: &Vec<u8>) -> (table: Vec<bool>)
    ensures
        table@.len() == bytes@.len(),
        forall|offset: int|
            0 <= offset < bytes@.len() ==> table@[offset] == is_jump_destination(bytes@, offset),
{
    let len: usize = bytes.len();
    let mut table: Vec<bool> = Vec::new();
    while table.len() < len
        invariant
            table@.len() <= len,
            forall|offset: int| 0 <= offset < table@.len() ==> !table@[offset],
        decreases len - table@.len(),
    {
        table.push(false);
    }
    let mut position: usize = 0;
    while position < len
        invariant
            len == bytes@.len(),
            table@.len() == len,
            position <= len,
            forall|offset: int|
                position <= offset ==> instruction_starts_at(bytes@, 0, offset)
                    == #[trigger] instruction_starts_at(bytes@, position as int, offset),
            forall|offset: int|
                0 <= offset < position ==> table@[offset] == is_jump_destination(bytes@, offset),
            forall|offset: int| position <= offset < len ==> !table@[offset],
        decreases len - position,
    {
        let byte: u8 = bytes[position];
        if byte == JUMPDEST {
            table[position] = true;
        }
        let width: usize = if PUSH1 <= byte && byte <= PUSH32 {
            (byte - PUSH1) as usize + 2
        } else {
            1
        };
        let next: usize = if len - position <= width {
            len
        } else {
            position + width
        };
        proof {
            let code = bytes@;
            assert(width == instruction_len(code[position as int]));
            assert forall|offset: int| next <= offset implies instruction_starts_at(code, 0, offset)
                == #[trigger] instruction_starts_at(code, next as int, offset) by {
                assert(instruction_starts_at(code, 0, offset) == instruction_starts_at(
                    code,
                    position as int,
                    offset,
                ));
            }
            assert forall|offset: int| 0 <= offset < next implies table@[offset]
                == is_jump_destination(code, offset) by {
                if offset >= position {
                    assert(instruction_starts_at(code, 0, offset) == instruction_starts_at(
                        code,
                        position as int,
                        offset,
                    ));
                }
            }
        }
        position = next;
    }
    table
}

impl Bytecode {
    #[verifier::type_invariant]
    spec fn consistent(self) -> bool {
        match self.format {
            Format::Legacy { jump_table } => {
                &&& jump_table@.len() == self.bytes@.len()
                &&& forall|offset: int|
                    0 <= offset < self.bytes@.len() ==> jump_table@[offset] == is_jump_destination(
                        self.bytes@,
                        offset,
                    )
            },
            Format::Structured(eof) => eof_layout(self.bytes@, eof),
        }
    }

    /// The bytes of the container.
    pub closed spec fn bytes(&self) -> Seq<u8> {
        self.bytes@
    }

    /// What the container holds besides its bytes if it is structured, `None`
    /// if it is flat.
    pub closed spec fn spec_eof(&self) -> Option<Eof> {
        match self.format {
            Format::Legacy { .. } => None,
            Format::Structured(eof) => Some(eof),
        }
    }

    /// Whether the container holds structured code.
    pub open spec fn spec_is_structured(&self) -> bool {
        self.spec_eof() is Some
    }

    /// The bytes of a container are the contents of a vector, so their number
    /// fits a `usize`.
    pub proof fn lemma_len_fits(&self)
        ensures
            self.bytes().len() <= usize::MAX,
    {
        assert(self.bytes@.len() == self.bytes.len());
    }

    /// A container of the flat code `bytes`, with the table of its jump
    /// destinations.
    pub fn new_legacy(bytes: Vec<u8>) -> (bytecode: Bytecode)
        ensures
            bytecode.bytes() == bytes@,
            !bytecode.is_structured(),
    {
        let jump_table: Vec<bool> = analyze(&bytes);
        Bytecode { bytes, format: Format::Legacy { jump_table } }
    }

    /// A container of structured code with the bytes `bytes` and the sections
    /// `eof`, or `None` where `eof` does not describe `bytes` consistently.
    pub fn new_structured(bytes: Vec<u8>, eof: Eof) -> (bytecode: Option<Bytecode>)
        ensures
            bytecode is Some <==> eof_layout(bytes@, eof),
            bytecode matches Some(built) ==> built.bytes() == bytes@ && built.spec_eof() == Some(
                eof,
            ),
    {
        let sections: usize = eof.body.code_section_offsets.len();
        if sections < 1 || eof.body.types_sections.len() != sections || eof.header.code_sizes.len()
            != sections || eof.body.sub_containers.len() != eof.header.container_sizes.len()
            || eof.body.data.len() > eof.header.data_size as usize {
            return None;
        }
        let len: usize = bytes.len();
        let mut index: usize = 0;
        while index < sections
            invariant
                index <= sections,
                len == bytes@.len(),
                sections == eof.body.code_section_offsets@.len(),
                sections == eof.header.code_sizes@.len(),
                forall|i: int|
                    0 <= i < index ==> (#[trigger] eof.body.code_section_offsets@[i])
                        + eof.header.code_sizes@[i] <= len,
            decreases sections - index,
        {
            let start: usize = eof.body.code_section_offsets[index];
            let size: usize = eof.header.code_sizes[index] as usize;
            if start > len || size > len - start {
                return None;
            }
            index += 1;
        }
        let containers: usize = eof.body.sub_containers.len();
        let mut index: usize = 0;
        while index < containers
            invariant
                index <= containers,
                containers == eof.body.sub_containers@.len(),
                containers == eof.header.container_sizes@.len(),
                forall|i: int|
                    0 <= i < index ==> (#[trigger] eof.body.sub_containers@[i])@.len()
                        == eof.header.container_sizes@[i],
            decreases containers - index,
        {
            if eof.body.sub_containers[index].len() != eof.header.container_sizes[index] as usize {
                return None;
            }
            index += 1;
        }
        Some(Bytecode { bytes, format: Format::Structured(eof) })
    }

    /// Whether the container holds structured code.
    #[verifier::when_used_as_spec(spec_is_structured)]
    pub fn is_structured(&self) -> (structured: bool)
        ensures
            structured == self.is_structured(),
    {
        match &self.format {
            Format::Legacy { .. } => false,
            Format::Structured(_) => true,
        }
    }

    /// The bytes of the container, whatever its format.
    pub fn as_slice(&self) -> (bytes: &[u8])
        ensures
            bytes@ == self.bytes(),
    {
        self.bytes.as_slice()
    }

    /// What the container holds besides its bytes if it is structured. What is
    /// handed out describes the bytes consistently.
    pub fn eof(&self) -> (eof: Option<&Eof>)
        ensures
            self.spec_eof() == match eof {
                Some(eof) => Some(*eof),
                None => None,
            },
            eof matches Some(eof) ==> eof_layout(self.bytes(), *eof),
    {
        proof {
            use_type_invariant(self);
        }
        match &self.format {
            Format::Legacy { .. } => None,
            Format::Structured(eof) => Some(eof),
        }
    }

    /// Length of flat code.
    pub fn length(&self) -> (r: Result<usize, BytecodeError>)
        ensures
            r == if self.is_structured() {
                Err::<usize, BytecodeError>(BytecodeError::NotLegacy)
            } else {
                Ok::<usize, BytecodeError>(self.bytes().len() as usize)
            },
    {
        match &self.format {
            Format::Legacy { .. } => Ok(self.bytes.len()),
            Format::Structured(_) => Err(BytecodeError::NotLegacy),
        }
    }

    /// The bytes of flat code.
    pub fn raw_slice(&self) -> (r: Result<&[u8], BytecodeError>)
        ensures
            self.is_structured() ==> r == Err::<&[u8], BytecodeError>(BytecodeError::NotLegacy),
            !self.is_structured() ==> r is Ok && r.unwrap()@ == self.bytes(),
    {
        match &self.format {
            Format::Legacy { .. } => Ok(self.bytes.as_slice()),
            Format::Structured(_) => Err(BytecodeError::NotLegacy),
        }
    }

    /// Whether `offset` is a valid target of a jump in flat code: it is exactly
    /// where a jump-destination byte stands as an instruction of its own.
    pub fn is_valid_jump_destination(&self, offset: usize) -> (r: Result<bool, BytecodeError>)
        ensures
            r == if self.is_structured() {
                Err::<bool, BytecodeError>(BytecodeError::NotLegacy)
            } else {
                Ok::<bool, BytecodeError>(is_jump_destination(self.bytes(), offset as int))
            },
    {
        proof {
            use_type_invariant(self);
        }
        match &self.format {
            Format::Legacy { jump_table } => Ok(offset < jump_table.len() && jump_table[offset]),
            Format::Structured(_) => Err(BytecodeError::NotLegacy),
        }
    }

    /// The type entry of the code section `index` of structured code.
    pub fn type_section(&self, index: usize) -> (r: Option<TypesSection>)
        ensures
            r == match self.spec_eof() {
                Some(eof) => if index < eof.body.types_sections@.len() {
                    Some(eof.body.types_sections@[index as int])
                } else {
                    None
                },
                None => None,
            },
    {
        match &self.format {
            Format::Structured(eof) => if index < eof.body.types_sections.len() {
                Some(eof.body.types_sections[index])
            } else {
                None
            },
            Format::Legacy { .. } => None,
        }
    }

    /// Where the code section `index` of structured code starts in the bytes of
    /// the container. A start that is handed out lies within the bytes.
    pub fn code_section_start(&self, index: usize) -> (r: Option<usize>)
        ensures
            r == match self.spec_eof() {
                Some(eof) => if index < eof.body.code_section_offsets@.len() {
                    Some(eof.body.code_section_offsets@[index as int])
                } else {
                    None
                },
                None => None,
            },
            r matches Some(start) ==> start <= self.bytes().len(),
            self.is_structured() && index == 0 ==> r is Some,
    {
        proof {
            use_type_invariant(self);
        }
        match &self.format {
            Format::Structured(eof) => if index < eof.body.code_section_offsets.len() {
                Some(eof.body.code_section_offsets[index])
            } else {
                None
            },
            Format::Legacy { .. } => None,
        }
    }

    /// The data section of structured code.
    pub fn data(&self) -> (r: Result<&[u8], BytecodeError>)
        ensures
            match self.spec_eof() {
                Some(eof) => r is Ok && r.unwrap()@ == eof.body.data@,
                None => r == Err::<&[u8], BytecodeError>(BytecodeError::NotStructured),
            },
    {
        match &self.format {
            Format::Structured(eof) => Ok(eof.body.data.as_slice()),
            Format::Legacy { .. } => Err(BytecodeError::NotStructured),
        }
    }

    /// The `len` bytes from `offset` on of the data section of structured
    /// code. A range that does not lie within the section is refused.
    pub fn data_slice(&self, offset: usize, len: usize) -> (r: Result<&[u8], BytecodeError>)
        ensures
            match self.spec_eof() {
                Some(eof) => if offset + len <= eof.body.data@.len() {
                    r is Ok && r.unwrap()@ == eof.body.data@.subrange(
                        offset as int,
                        offset + len,
                    )
                } else {
                    r == Err::<&[u8], BytecodeError>(BytecodeError::OutOfRange)
                },
                None => r == Err::<&[u8], BytecodeError>(BytecodeError::NotStructured),
            },
    {
        match &self.format {
            Format::Structured(eof) => {
                let data: &[u8] = eof.body.data.as_slice();
                if offset > data.len() || len > data.len() - offset {
                    Err(BytecodeError::OutOfRange)
                } else {
                    Ok(vstd::slice::slice_subrange(data, offset, offset + len))
                }
            },
            Format::Legacy { .. } => Err(BytecodeError::NotStructured),
        }
    }

    /// Size that the header of structured code gives for the data section.
    pub fn data_size(&self) -> (r: Result<usize, BytecodeError>)
        ensures
            r == match self.spec_eof() {
                Some(eof) => Ok::<usize, BytecodeError>(eof.header.data_size as usize),
                None => Err::<usize, BytecodeError>(BytecodeError::NotStructured),
            },
    {
        match &self.format {
            Format::Structured(eof) => Ok(eof.header.data_size as usize),
            Format::Legacy { .. } => Err(BytecodeError::NotStructured),
        }
    }

    /// The nested container `index` of structured code.
    pub fn sub_container(&self, index: usize) -> (r: Option<&Vec<u8>>)
        ensures
            match self.spec_eof() {
                Some(eof) => if index < eof.body.sub_containers@.len() {
                    r is Some && *r.unwrap() == eof.body.sub_containers@[index as int]
                } else {
                    r is None
                },
                None => r is None,
            },
    {
        match &self.format {
            Format::Structured(eof) => if index < eof.body.sub_containers.len() {
                Some(&eof.body.sub_containers[index])
            } else {
                None
            },
            Format::Legacy { .. } => None,
        }
    }
}

} // verus!
