//! A fixed-capacity byte container with checked writes: validation is total
//! before any byte moves, so no partial or overflowing copy ever executes.

use vstd::prelude::*;

use crate::fault::Fault;

verus! {

/// The mathematical view of a buffer: its fixed capacity, the written
/// length, and the bytes of the whole backing store.
#[verifier::ext_equal]
pub struct BufferModel {
    pub capacity: nat,
    pub length: nat,
    pub bytes: Seq<u8>,
}

impl BufferModel {
    /// Well-formedness: the backing store spans exactly the capacity and the
    /// written length never exceeds it.
    pub open spec fn wf(self) -> bool {
        &&& self.bytes.len() == self.capacity
        &&& self.length <= self.capacity
    }
}

/// What `write` does to the model: a request running past the capacity is
/// refused whole with CapacityExceeded; otherwise exactly `data.len()` bytes
/// land at `offset` and the length grows to cover them.
pub open spec fn spec_write(b: BufferModel, offset: nat, data: Seq<u8>) -> (BufferModel, Result<
    (),
    Fault,
>) {
    if offset + data.len() > b.capacity {
        (b, Err(Fault::CapacityExceeded))
    } else {
        (
            BufferModel {
                capacity: b.capacity,
                length: if offset + data.len() > b.length {
                    offset + data.len()
                } else {
                    b.length
                },
                bytes: b.bytes.map(
                    |i: int, c: u8|
                        if offset <= i < offset + data.len() {
                            data[i - offset]
                        } else {
                            c
                        },
                ),
            },
            Ok(()),
        )
    }
}

/// What `read` does to the model: a request running past the written length
/// is refused with OutOfRange; otherwise exactly the requested bytes come
/// back. Nothing past `length` — let alone past `capacity` — is ever read.
pub open spec fn spec_read(b: BufferModel, offset: nat, count: nat) -> Result<Seq<u8>, Fault> {
    if offset + count > b.length {
        Err(Fault::OutOfRange)
    } else {
        Ok(b.bytes.subrange(offset as int, (offset + count) as int))
    }
}

/// A fixed-capacity byte buffer. The capacity is set at construction and
/// never changes; `length` tracks how far the buffer has been written.
pub struct BoundedBuffer {
    capacity: usize,
    length: usize,
    bytes: Vec<u8>,
}

impl View for BoundedBuffer {
    type V = BufferModel;

    closed spec fn view(&self) -> BufferModel {
        BufferModel {
            capacity: self.capacity as nat,
            length: self.length as nat,
            bytes: self.bytes@,
        }
    }
}

impl BoundedBuffer {
    /// A fresh buffer of the given capacity: zeroed store, nothing written.
    pub fn new(capacity: usize) -> (b: BoundedBuffer)
        ensures
            b@.wf(),
            b@.capacity == capacity,
            b@.length == 0,
            b@.bytes == Seq::new(capacity as nat, |i: int| 0u8),
    {
        let bytes: Vec<u8> = vec![0u8; capacity];
        proof {
            assert(bytes@ =~= Seq::new(capacity as nat, |i: int| 0u8));
        }
        BoundedBuffer { capacity, length: 0, bytes }
    }

    /// The fixed capacity.
    pub fn capacity(&self) -> (r: usize)
        ensures
            r == self@.capacity,
    {
        self.capacity
    }

    /// How many bytes have been written.
    pub fn length(&self) -> (r: usize)
        ensures
            r == self@.length,
    {
        self.length
    }

    /// Copies `data` into the buffer at `offset`, all or nothing: a request
    /// that would run past the capacity is refused with CapacityExceeded
    /// before any byte is copied, and the buffer is left unchanged.
    pub fn write(&mut self, offset: usize, data: &[u8]) -> (r: Result<(), Fault>)
        requires
            old(self)@.wf(),
        ensures
            final(self)@.wf(),
            (final(self)@, r) == spec_write(old(self)@, offset as nat, data@),
    {
        if offset > self.capacity || data.len() > self.capacity - offset {
            return Err(Fault::CapacityExceeded);
        }
        let end = offset + data.len();
        let mut i: usize = 0;
        while i < data.len()
            invariant
                i <= data.len(),
                offset + data.len() <= self.capacity,
                self@.wf(),
                self.capacity == old(self).capacity,
                self.length == old(self).length,
                end == offset + data.len(),
                forall|j: int|
                    0 <= j < self.bytes@.len() ==> self.bytes@[j] == if offset <= j < offset
                        + i {
                        data@[j - offset]
                    } else {
                        old(self).bytes@[j]
                    },
            decreases data.len() - i,
        {
            self.bytes[offset + i] = data[i];
            i = i + 1;
        }
        if end > self.length {
            self.length = end;
        }
        proof {
            assert(self@.bytes =~= spec_write(old(self)@, offset as nat, data@).0.bytes);
            assert(self@ =~= spec_write(old(self)@, offset as nat, data@).0);
        }
        Ok(())
    }

    /// Reads `count` bytes starting at `offset`: a request running past the
    /// written length is refused with OutOfRange; bytes past the length are
    /// never handed out.
    pub fn read(&self, offset: usize, count: usize) -> (r: Result<Vec<u8>, Fault>)
        requires
            self@.wf(),
        ensures
            (match r {
                Ok(out) => spec_read(self@, offset as nat, count as nat) == Ok::<Seq<u8>, Fault>(
                    out@,
                ),
                Err(f) => spec_read(self@, offset as nat, count as nat) == Err::<Seq<u8>, Fault>(f),
            }),
    {
        if offset > self.length || count > self.length - offset {
            return Err(Fault::OutOfRange);
        }
        let mut out: Vec<u8> = Vec::new();
        let mut i: usize = 0;
        while i < count
            invariant
                i <= count,
                offset + count <= self.length,
                self@.wf(),
                out@ == self.bytes@.subrange(offset as int, offset + i),
            decreases count - i,
        {
            out.push(self.bytes[offset + i]);
            proof {
                assert(out@ =~= self.bytes@.subrange(offset as int, offset + i + 1));
            }
            i = i + 1;
        }
        Ok(out)
    }
}

} // verus!
