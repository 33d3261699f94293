//! The linear memory of a machine: a growable byte buffer that reads as zero
//! wherever nothing was written.

use vstd::prelude::*;
use bytes::Bytes;
use crate::buffer::{bytes_from_vec, bytes_view};
use crate::error::ExitError;

verus! {

/// The `size` bytes of `memory` from `offset` on; what lies beyond the end of
/// `memory` reads as zero.
pub open spec fn read_padded(memory: Seq<u8>, offset: int, size: nat) -> Seq<u8> {
    Seq::new(size, |i: int| if 0 <= offset + i < memory.len() { memory[offset + i] } else { 0u8 })
}

/// `size` zero bytes.
pub open spec fn zeros(size: nat) -> Seq<u8> {
    Seq::new(size, |i: int| 0u8)
}

/// The linear memory of a machine. Its view is the sequence of its bytes.
#[derive(Clone, Debug)]
pub struct Memory {
    data: Vec<u8>,
    limit: usize,
}

impl View for Memory {
    type V = Seq<u8>;

    closed spec fn view(&self) -> Seq<u8> {
        self.data@
    }
}

impl Memory {
    /// The greatest length that the memory grows to.
    pub closed spec fn spec_limit(&self) -> usize {
        self.limit
    }

    /// Well-formedness: the memory is no longer than its limit allows. Every
    /// operation keeps a well-formed memory well-formed.
    pub open spec fn wf(&self) -> bool {
        self@.len() <= self.limit()
    }

    /// An empty memory that grows up to `limit` bytes.
    pub fn new(limit: usize) -> (memory: Memory)
        ensures
            memory@ == Seq::<u8>::empty(),
            memory.limit() == limit,
            memory.wf(),
    {
        Memory { data: Vec::new(), limit }
    }

    /// The greatest length that the memory grows to.
    #[verifier::when_used_as_spec(spec_limit)]
    pub fn limit(&self) -> (limit: usize)
        ensures
            limit == self.limit(),
    {
        self.limit
    }

    /// Number of bytes that the memory holds.
    pub fn len(&self) -> (len: usize)
        ensures
            len == self@.len(),
    {
        self.data.len()
    }

    /// Whether the memory holds no byte.
    pub fn is_empty(&self) -> (empty: bool)
        ensures
            empty == (self@.len() == 0),
    {
        self.data.len() == 0
    }

    /// Grows the memory to `size` bytes, the new ones zero. A memory that is
    /// already that long stays as it is; a size above the limit is refused and
    /// leaves the memory as it is.
    pub fn resize(&mut self, size: usize) -> (r: Result<(), ExitError>)
        ensures
            final(self).limit() == old(self).limit(),
            old(self).wf() ==> final(self).wf(),
            size > old(self).limit() ==> r == Err::<(), ExitError>(ExitError::OutOfBounds)
                && final(self)@ == old(self)@,
            size <= old(self).limit() ==> r == Ok::<(), ExitError>(()) && final(self)@
                == if size <= old(self)@.len() {
                old(self)@
            } else {
                old(self)@ + zeros((size - old(self)@.len()) as nat)
            },
    {
        if size > self.limit {
            return Err(ExitError::OutOfBounds);
        }
        let ghost before = self.data@;
        while self.data.len() < size
            invariant
                self.limit == old(self).limit,
                size <= self.limit,
                before == old(self).data@,
                self.data@.len() <= size || self.data@ == before,
                self.data@.len() >= before.len(),
                self.data@ == before + zeros((self.data@.len() - before.len()) as nat),
            decreases size - self.data.len(),
        {
            self.data.push(0u8);
            assert(self.data@ =~= before + zeros((self.data@.len() - before.len()) as nat));
        }
        assert(before + zeros(0) =~= before);
        Ok(())
    }

    /// Writes `value` at `offset`. A write that does not lie within the memory
    /// is refused and leaves the memory as it is.
    pub fn set(&mut self, offset: usize, value: &[u8]) -> (r: Result<(), ExitError>)
        ensures
            final(self).limit() == old(self).limit(),
            offset + value@.len() > old(self)@.len() ==> r == Err::<(), ExitError>(
                ExitError::OutOfBounds,
            ) && final(self)@ == old(self)@,
            offset + value@.len() <= old(self)@.len() ==> r == Ok::<(), ExitError>(())
                && final(self)@ == old(self)@.subrange(0, offset as int) + value@ + old(
                self,
            )@.subrange(offset + value@.len(), old(self)@.len() as int),
    {
        let len: usize = self.data.len();
        if offset > len || value.len() > len - offset {
            return Err(ExitError::OutOfBounds);
        }
        let ghost before = self.data@;
        let mut index: usize = 0;
        while index < value.len()
            invariant
                self.limit == old(self).limit,
                before == old(self).data@,
                index <= value@.len(),
                offset + value@.len() <= len,
                len == before.len(),
                self.data@.len() == before.len(),
                forall|i: int|
                    0 <= i < before.len() ==> self.data@[i] == if offset <= i < offset + index {
                        value@[i - offset]
                    } else {
                        before[i]
                    },
            decreases value@.len() - index,
        {
            self.data[offset + index] = value[index];
            index += 1;
        }
        assert(self.data@ =~= before.subrange(0, offset as int) + value@ + before.subrange(
            offset + value@.len(),
            before.len() as int,
        ));
        Ok(())
    }

    /// Copies `size` bytes from `offset` on; what lies beyond the end of the
    /// memory reads as zero.
    pub fn read(&self, offset: usize, size: usize) -> (bytes: Vec<u8>)
        ensures
            bytes@ == read_padded(self@, offset as int, size as nat),
    {
        let len: usize = self.data.len();
        let available: usize = if offset < len { len - offset } else { 0 };
        let mut bytes: Vec<u8> = Vec::new();
        let mut index: usize = 0;
        while index < size
            invariant
                index <= size,
                len == self.data@.len(),
                available == if offset < len { len - offset } else { 0 },
                bytes@ == read_padded(self@, offset as int, index as nat),
            decreases size - index,
        {
            let byte: u8 = if index < available { self.data[offset + index] } else { 0u8 };
            bytes.push(byte);
            index += 1;
            assert(bytes@ =~= read_padded(self@, offset as int, index as nat));
        }
        bytes
    }

    /// The `size` bytes from `offset` on as a buffer; what lies beyond the end
    /// of the memory reads as zero.
    pub fn get(&self, offset: usize, size: usize) -> (buffer: Bytes)
        ensures
            bytes_view(buffer) == read_padded(self@, offset as int, size as nat),
    {
        bytes_from_vec(self.read(offset, size))
    }
}

} // verus!
