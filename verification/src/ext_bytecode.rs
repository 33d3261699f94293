//! The execution cursor: a position in the bytes of a bytecode container, with
//! the reads and jumps that an interpreter makes through it.

use vstd::pervasive::unreached;
use vstd::prelude::*;
use crate::bytecode::{is_jump_destination, Bytecode, TypesSection};

verus! {

/// The unsigned number that two bytes spell, the high byte first.
pub open spec fn be_u16(high: u8, low: u8) -> u16 {
    (high * 256 + low) as u16
}

/// The signed number that a byte spells in two's complement.
pub open spec fn signed8(byte: u8) -> i8 {
    if byte < 128 {
        byte as i8
    } else {
        (byte - 256) as i8
    }
}

/// The signed number that a 16-bit pattern spells in two's complement.
pub open spec fn signed16(word: u16) -> i16 {
    if word < 32768 {
        word as i16
    } else {
        (word - 65536) as i16
    }
}

/// Where a cursor on `base` starts: at the first code section of structured
/// code, at the first byte of flat code.
pub open spec fn initial_position(base: Bytecode) -> usize {
    match base.spec_eof() {
        Some(eof) => eof.body.code_section_offsets@[0],
        None => 0,
    }
}

/// `position` moved by `offset`.
fn displaced(position: usize, offset: isize) -> (target: usize)
    requires
        0 <= position + offset <= usize::MAX,
    ensures
        target == position + offset,
{
    if offset >= 0 {
        position + offset as usize
    } else {
        position - ((-(offset + 1)) as usize + 1)
    }
}

/// The byte at `position` as a signed number.
fn signed_byte(byte: u8) -> (value: i8)
    ensures
        value == signed8(byte),
{
    if byte < 128 {
        byte as i8
    } else {
        (byte as i16 - 256) as i8
    }
}

/// The two bytes of `code` at `position` as an unsigned number, the high byte
/// first.
fn unsigned_pair(code: &[u8], position: usize) -> (value: u16)
    requires
        position + 2 <= code@.len(),
    ensures
        value == be_u16(code@[position as int], code@[position + 1]),
{
    (code[position] as u16) * 256 + code[position + 1] as u16
}

/// A 16-bit pattern as a signed number.
fn signed_pair(word: u16) -> (value: i16)
    ensures
        value == signed16(word),
{
    if word < 32768 {
        word as i16
    } else {
        (word as i32 - 65536) as i16
    }
}

/// A bytecode container with the position at which execution stands. The
/// position counts from the first byte of the container and never lies beyond
/// its last.
#[derive(Debug)]
pub struct ExtBytecode {
    base: Bytecode,
    position: usize,
}

impl ExtBytecode {
    #[verifier::type_invariant]
    spec fn within_code(self) -> bool {
        self.position <= self.base.bytes().len()
    }

    /// The container that the cursor moves in.
    pub closed spec fn base(&self) -> Bytecode {
        self.base
    }

    /// The position of the cursor, counted from the first byte of the container.
    pub closed spec fn spec_pc(&self) -> usize {
        self.position
    }

    /// The cursor moved to `target`, on the same container.
    pub closed spec fn jumped_to(self, target: usize) -> ExtBytecode {
        ExtBytecode { base: self.base, position: target }
    }

    /// The bytes that the cursor moves in.
    pub open spec fn code(&self) -> Seq<u8> {
        self.base().bytes()
    }

    /// The byte at the cursor.
    pub open spec fn spec_opcode(&self) -> u8 {
        self.code()[self.pc() as int]
    }

    /// The two bytes that lie `offset` bytes from the cursor, read as an
    /// unsigned number, the high byte first.
    pub open spec fn spec_read_offset_u16(&self, offset: int) -> u16 {
        be_u16(self.code()[self.pc() + offset], self.code()[self.pc() + offset + 1])
    }

    /// The `len` bytes from the cursor on.
    pub open spec fn spec_read_slice(&self, len: int) -> Seq<u8> {
        self.code().subrange(self.pc() as int, self.pc() + len)
    }

    /// A cursor at the start of the code of `base`.
    pub fn new(base: Bytecode) -> (cursor: ExtBytecode)
        ensures
            cursor.base() == base,
            cursor.pc() == initial_position(base),
            cursor.pc() <= cursor.code().len(),
    {
        let position: usize = match base.code_section_start(0) {
            Some(start) => start,
            None => 0,
        };
        ExtBytecode { base, position }
    }

    /// Moves the cursor by `offset` bytes. The target lies within the code or
    /// at its end.
    pub fn relative_jump(&mut self, offset: isize)
        requires
            0 <= old(self).pc() + offset <= old(self).code().len(),
        ensures
            *final(self) == old(self).jumped_to((old(self).pc() + offset) as usize),
            final(self).base() == old(self).base(),
            final(self).pc() == old(self).pc() + offset,
    {
        proof {
            self.base.lemma_len_fits();
        }
        self.position = displaced(self.position, offset);
    }

    /// Moves the cursor to `offset`, counted from the first byte of the
    /// container. The target lies within the code or at its end.
    pub fn absolute_jump(&mut self, offset: usize)
        requires
            offset <= old(self).code().len(),
        ensures
            *final(self) == old(self).jumped_to(offset),
            final(self).base() == old(self).base(),
            final(self).pc() == offset,
    {
        self.position = offset;
    }

    /// Whether `offset` is a valid target of a jump in flat code: it is
    /// exactly where a jump-destination byte stands as an instruction of its
    /// own. The cursor stays as it is.
    pub fn is_valid_legacy_jump(&mut self, offset: usize) -> (valid: bool)
        requires
            !old(self).base().is_structured(),
        ensures
            valid == is_jump_destination(old(self).code(), offset as int),
            *final(self) == *old(self),
    {
        match self.base.is_valid_jump_destination(offset) {
            Ok(valid) => valid,
            Err(_) => unreached(),
        }
    }

    /// The byte at the cursor.
    pub fn opcode(&self) -> (opcode: u8)
        requires
            self.pc() < self.code().len(),
        ensures
            opcode == self.spec_opcode(),
    {
        self.base.as_slice()[self.position]
    }

    /// The position of the cursor, counted from the first byte of the
    /// container. It never lies beyond the last byte.
    #[verifier::when_used_as_spec(spec_pc)]
    pub fn pc(&self) -> (pc: usize)
        ensures
            pc == self.pc(),
            pc <= self.code().len(),
    {
        proof {
            use_type_invariant(self);
        }
        self.position
    }

    /// The two bytes at the cursor, read as a signed number, the high byte
    /// first.
    pub fn read_i16(&self) -> (value: i16)
        requires
            self.pc() + 2 <= self.code().len(),
        ensures
            value == signed16(self.spec_read_offset_u16(0)),
    {
        signed_pair(unsigned_pair(self.base.as_slice(), self.position))
    }

    /// The two bytes at the cursor, read as an unsigned number, the high byte
    /// first.
    pub fn read_u16(&self) -> (value: u16)
        requires
            self.pc() + 2 <= self.code().len(),
        ensures
            value == self.spec_read_offset_u16(0),
    {
        unsigned_pair(self.base.as_slice(), self.position)
    }

    /// The byte at the cursor, read as a signed number.
    pub fn read_i8(&self) -> (value: i8)
        requires
            self.pc() < self.code().len(),
        ensures
            value == signed8(self.spec_opcode()),
    {
        signed_byte(self.base.as_slice()[self.position])
    }

    /// The byte at the cursor.
    pub fn read_u8(&self) -> (value: u8)
        requires
            self.pc() < self.code().len(),
        ensures
            value == self.spec_opcode(),
    {
        self.base.as_slice()[self.position]
    }

    /// The `len` bytes from the cursor on.
    pub fn read_slice(&self, len: usize) -> (bytes: &[u8])
        requires
            self.pc() + len <= self.code().len(),
        ensures
            bytes@ == self.spec_read_slice(len as int),
    {
        proof {
            self.base.lemma_len_fits();
        }
        vstd::slice::slice_subrange(self.base.as_slice(), self.position, self.position + len)
    }

    /// The two bytes that lie `offset` bytes from the cursor, read as a signed
    /// number, the high byte first.
    pub fn read_offset_i16(&self, offset: isize) -> (value: i16)
        requires
            0 <= self.pc() + offset,
            self.pc() + offset + 2 <= self.code().len(),
        ensures
            value == signed16(self.spec_read_offset_u16(offset as int)),
    {
        proof {
            self.base.lemma_len_fits();
        }
        signed_pair(unsigned_pair(self.base.as_slice(), displaced(self.position, offset)))
    }

    /// The two bytes that lie `offset` bytes from the cursor, read as an
    /// unsigned number, the high byte first.
    pub fn read_offset_u16(&self, offset: isize) -> (value: u16)
        requires
            0 <= self.pc() + offset,
            self.pc() + offset + 2 <= self.code().len(),
        ensures
            value == self.spec_read_offset_u16(offset as int),
    {
        proof {
            self.base.lemma_len_fits();
        }
        unsigned_pair(self.base.as_slice(), displaced(self.position, offset))
    }

    /// The type entry of the code section `idx` of structured code; `None` for
    /// flat code and for a section that does not exist.
    pub fn code_section_info(&self, idx: usize) -> (info: Option<&TypesSection>)
        ensures
            match self.base().spec_eof() {
                Some(eof) => if idx < eof.body.types_sections@.len() {
                    info is Some && *info.unwrap() == eof.body.types_sections@[idx as int]
                } else {
                    info is None
                },
                None => info is None,
            },
    {
        match self.base.eof() {
            Some(eof) => if idx < eof.body.types_sections.len() {
                Some(&eof.body.types_sections[idx])
            } else {
                None
            },
            None => None,
        }
    }

    /// Where the code section `idx` of structured code starts, counted from
    /// the first byte of the container; `None` for flat code and for a section
    /// that does not exist. A start that is handed out lies within the code.
    pub fn code_section_pc(&self, idx: usize) -> (start: Option<usize>)
        ensures
            start == match self.base().spec_eof() {
                Some(eof) => if idx < eof.body.code_section_offsets@.len() {
                    Some(eof.body.code_section_offsets@[idx as int])
                } else {
                    None
                },
                None => None,
            },
            start matches Some(target) ==> target <= self.code().len(),
    {
        self.base.code_section_start(idx)
    }

    /// The data section of structured code.
    pub fn data(&self) -> (data: &[u8])
        requires
            self.base().is_structured(),
        ensures
            data@ == self.base().spec_eof().unwrap().body.data@,
    {
        match self.base.eof() {
            Some(eof) => eof.body.data.as_slice(),
            None => unreached(),
        }
    }

    /// The `len` bytes from `offset` on of the data section of structured code.
    pub fn data_slice(&self, offset: usize, len: usize) -> (data: &[u8])
        requires
            self.base().is_structured(),
            offset + len <= self.base().spec_eof().unwrap().body.data@.len(),
        ensures
            data@ == self.base().spec_eof().unwrap().body.data@.subrange(
                offset as int,
                offset + len,
            ),
    {
        let data: &[u8] = self.data();
        assert(data@.len() == data.len());
        vstd::slice::slice_subrange(data, offset, offset + len)
    }

    /// Size that the header of structured code gives for the data section.
    pub fn data_size(&self) -> (size: usize)
        requires
            self.base().is_structured(),
        ensures
            size == self.base().spec_eof().unwrap().header.data_size,
    {
        match self.base.eof() {
            Some(eof) => eof.header.data_size as usize,
            None => unreached(),
        }
    }

    /// The nested container `index` of structured code; `None` for flat code
    /// and for a container that does not exist.
    pub fn eof_container(&self, index: usize) -> (container: Option<&Vec<u8>>)
        ensures
            match self.base().spec_eof() {
                Some(eof) => if index < eof.body.sub_containers@.len() {
                    container is Some && *container.unwrap() == eof.body.sub_containers@[index as int]
                } else {
                    container is None
                },
                None => container is None,
            },
    {
        self.base.sub_container(index)
    }

    /// Length of flat code.
    pub fn bytecode_len(&self) -> (len: usize)
        requires
            !self.base().is_structured(),
        ensures
            len == self.code().len(),
    {
        self.base.as_slice().len()
    }

    /// The bytes of flat code.
    pub fn bytecode_slice(&self) -> (bytes: &[u8])
        requires
            !self.base().is_structured(),
        ensures
            bytes@ == self.code(),
    {
        self.base.as_slice()
    }
}

impl AsRef<Bytecode> for ExtBytecode {
    fn as_ref(&self) -> (base: &Bytecode)
        ensures
            *base == self.base(),
    {
        &self.base
    }
}

/// A jump changes where the cursor stands and nothing else, and what is read
/// after a jump is what the container holds at the target: the bytes that are
/// read are the bytes of the code before the jump, at the target's position.
pub proof fn lemma_jump_then_read(cursor: ExtBytecode, target: usize, len: nat)
    ensures
        cursor.jumped_to(target).base() == cursor.base(),
        cursor.jumped_to(target).code() == cursor.code(),
        cursor.jumped_to(target).pc() == target,
        cursor.jumped_to(target).spec_opcode() == cursor.code()[target as int],
        cursor.jumped_to(target).spec_read_offset_u16(0) == be_u16(
            cursor.code()[target as int],
            cursor.code()[target + 1],
        ),
        cursor.jumped_to(target).spec_read_slice(len as int) == cursor.code().subrange(
            target as int,
            target + len,
        ),
{
}

/// Jumps compose: the cursor stands where the last jump put it.
pub proof fn lemma_jump_twice(cursor: ExtBytecode, first: usize, second: usize)
    ensures
        cursor.jumped_to(first).jumped_to(second) == cursor.jumped_to(second),
{
}

} // verus!
