//! Buffers: the bytes of a tensor together with their descriptor.
//!
//! A buffer always holds exactly as many bytes as its descriptor asks for.
//! Every constructor checks this and fails rather than cut or pad the
//! bytes it was given.

use vstd::prelude::*;
use crate::status::InferenceError;
use crate::tensor::{TensorDesc, TensorDescView};

verus! {

/// What a buffer holds, as mathematics.
pub struct BlobView {
    pub desc: TensorDescView,
    pub bytes: Seq<u8>,
}

/// The bytes of a tensor, described by a descriptor.
#[derive(Debug)]
pub struct Blob {
    description: TensorDesc,
    data: Vec<u8>,
}

impl View for Blob {
    type V = BlobView;

    closed spec fn view(&self) -> BlobView {
        BlobView { desc: self.description@, bytes: self.data@ }
    }
}

/// Whether a buffer of `n` bytes can exist at all: no allocation is larger
/// than `isize::MAX` bytes.
pub open spec fn can_allocate(n: nat) -> bool {
    n <= isize::MAX
}

impl Blob {
    #[verifier::type_invariant]
    spec fn inv(&self) -> bool {
        self.data@.len() == self.description@.byte_len()
    }

    /// A buffer that holds a copy of `data`. The data must have exactly the
    /// size that the descriptor asks for; otherwise nothing is made and the
    /// error is `ParameterMismatch`.
    pub fn new(description: TensorDesc, data: &[u8]) -> (r: Result<Blob, InferenceError>)
        ensures
            r is Ok <==> data@.len() == description@.byte_len(),
            r matches Ok(blob) ==> blob@.desc == description@ && blob@.bytes == data@ && blob@.wf(),
            r matches Err(e) ==> e == InferenceError::ParameterMismatch,
    {
        let count = data.len();
        match description.checked_byte_len() {
            Some(n) => {
                if n == count {
                    Ok(Blob { description, data: vstd::slice::slice_to_vec(data) })
                } else {
                    Err(InferenceError::ParameterMismatch)
                }
            },
            None => Err(InferenceError::ParameterMismatch),
        }
    }

    /// A buffer of the size that the descriptor asks for, all zero. Where
    /// no buffer can be that large the error is `NotAllocated`.
    pub fn allocate(description: TensorDesc) -> (r: Result<Blob, InferenceError>)
        ensures
            r is Ok <==> can_allocate(description@.byte_len()),
            r matches Ok(blob) ==> blob@.desc == description@ && blob@.wf() && blob@.bytes
                == Seq::new(description@.byte_len(), |i: int| 0u8),
            r matches Err(e) ==> e == InferenceError::NotAllocated,
    {
        match description.checked_byte_len() {
            Some(n) => {
                if n <= isize::MAX as usize {
                    let data = vec![0u8; n];
                    proof {
                        assert(data@ =~= Seq::new(description@.byte_len(), |i: int| 0u8));
                    }
                    Ok(Blob { description, data })
                } else {
                    Err(InferenceError::NotAllocated)
                }
            },
            None => Err(InferenceError::NotAllocated),
        }
    }

    /// A buffer that takes over `data` as it is, without copying. The data
    /// must have exactly the size that the descriptor asks for; otherwise
    /// nothing is made and the error is `ParameterMismatch`.
    pub fn from(description: TensorDesc, data: Vec<u8>) -> (r: Result<Blob, InferenceError>)
        ensures
            r is Ok <==> data@.len() == description@.byte_len(),
            r matches Ok(blob) ==> blob@.desc == description@ && blob@.bytes == data@ && blob@.wf(),
            r matches Err(e) ==> e == InferenceError::ParameterMismatch,
    {
        let count = data.len();
        match description.checked_byte_len() {
            Some(n) => {
                if n == count {
                    Ok(Blob { description, data })
                } else {
                    Err(InferenceError::ParameterMismatch)
                }
            },
            None => Err(InferenceError::ParameterMismatch),
        }
    }

    /// The descriptor of this buffer.
    pub fn tensor_desc(&self) -> (desc: TensorDesc)
        ensures
            desc@ == self@.desc,
    {
        self.description
    }

    /// The number of elements in the buffer.
    pub fn len(&self) -> (n: usize)
        ensures
            n == self@.desc.len(),
            n * self@.desc.precision.spec_width() == self@.bytes.len(),
    {
        let bytes = self.data.len();
        proof {
            use_type_invariant(self);
            let w = self@.desc.precision.spec_width();
            assert(self@.desc.len() * w >= self@.desc.len()) by (nonlinear_arith)
                requires
                    w >= 1,
            ;
            assert(self@.desc.len() <= bytes);
        }
        self.description.len()
    }

    /// The number of bytes in the buffer, measured on the bytes themselves.
    /// It is the number that the descriptor asks for.
    pub fn byte_len(&self) -> (n: usize)
        ensures
            n == self@.bytes.len(),
            self@.wf(),
    {
        proof {
            use_type_invariant(self);
        }
        self.data.len()
    }

    /// The bytes of the buffer.
    pub fn buffer(&self) -> (bytes: &[u8])
        ensures
            bytes@ == self@.bytes,
    {
        self.data.as_slice()
    }

    /// Writes `data` over the bytes that start at `offset`. The bytes must
    /// lie inside the buffer; otherwise nothing is written and the error is
    /// `OutOfBounds`. The buffer keeps its descriptor and its size.
    pub fn write(&mut self, offset: usize, data: &[u8]) -> (r: Result<(), InferenceError>)
        ensures
            r is Ok <==> offset + data@.len() <= old(self)@.bytes.len(),
            r is Ok ==> final(self)@ == old(self)@.write(offset as int, data@),
            r matches Err(e) ==> e == InferenceError::OutOfBounds && final(self)@ == old(self)@,
    {
        let total = self.data.len();
        let count = data.len();
        if offset > total || count > total - offset {
            return Err(InferenceError::OutOfBounds);
        }
        let ghost before = self@;
        let mut i: usize = 0;
        while i < count
            invariant
                i <= count,
                count == data@.len(),
                offset + count <= total,
                total == before.bytes.len(),
                self@.desc == before.desc,
                self@.bytes.len() == before.bytes.len(),
                forall|j: int|
                    0 <= j < before.bytes.len() ==> self@.bytes[j] == (if offset <= j < offset + i {
                        data@[j - offset]
                    } else {
                        before.bytes[j]
                    }),
            decreases count - i,
        {
            proof {
                use_type_invariant(&*self);
            }
            self.data[offset + i] = data[i];
            i += 1;
        }
        proof {
            assert(self@.bytes =~= before.write(offset as int, data@).bytes);
        }
        Ok(())
    }
}

impl BlobView {
    /// Whether there are exactly as many bytes as the descriptor asks for.
    pub open spec fn wf(self) -> bool {
        self.bytes.len() == self.desc.byte_len()
    }

    /// This buffer with `data` written over the bytes that start at
    /// `offset`.
    pub open spec fn write(self, offset: int, data: Seq<u8>) -> BlobView {
        BlobView {
            desc: self.desc,
            bytes: Seq::new(
                self.bytes.len(),
                |j: int|
                    if offset <= j < offset + data.len() {
                        data[j - offset]
                    } else {
                        self.bytes[j]
                    },
            ),
        }
    }
}

/// What was written is what is read back, and nothing else has changed:
/// after a write inside the buffer, the bytes at the place written are the
/// data, every other byte is as it was, and the buffer is as large as before.
pub proof fn write_then_read(blob: BlobView, offset: int, data: Seq<u8>)
    requires
        0 <= offset,
        offset + data.len() <= blob.bytes.len(),
    ensures
        blob.write(offset, data).bytes.subrange(offset, offset + data.len()) == data,
        blob.write(offset, data).bytes.subrange(0, offset) == blob.bytes.subrange(0, offset),
        blob.write(offset, data).bytes.subrange(offset + data.len(), blob.bytes.len() as int)
            == blob.bytes.subrange(offset + data.len(), blob.bytes.len() as int),
        blob.write(offset, data).desc == blob.desc,
        blob.wf() ==> blob.write(offset, data).wf(),
        offset == 0 && data.len() == blob.bytes.len() ==> blob.write(offset, data).bytes == data,
{
    let after = blob.write(offset, data).bytes;
    assert(after.subrange(offset, offset + data.len()) =~= data);
    assert(after.subrange(0, offset) =~= blob.bytes.subrange(0, offset));
    assert(after.subrange(offset + data.len(), blob.bytes.len() as int) =~= blob.bytes.subrange(
        offset + data.len(),
        blob.bytes.len() as int,
    ));
    if offset == 0 && data.len() == blob.bytes.len() {
        assert(after =~= data);
    }
}

} // verus!
