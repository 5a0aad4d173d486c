//! Memory behind the pointers of the interface: what a call may read, and how it answers
//! with a sequence of bytes.
use vstd::prelude::*;
use crate::error::PQSigningError;

verus! {

/// A non-null pointer leads to at least `len` items.
pub open spec fn readable<T>(memory: Option<&[T]>, len: usize) -> bool {
    memory matches Some(items) ==> len <= items@.len()
}

/// The first `len` items behind a non-null pointer.
pub open spec fn items<T>(memory: Option<&[T]>, len: usize) -> Seq<T> {
    memory->0@.take(len as int)
}

/// What an answer of `bytes` does to an output buffer that the caller says has `buffer_len`
/// bytes: they replace the buffer's first bytes if they fit, and the buffer stays as it is
/// if they do not. The caller learns the length of the answer either way.
pub open spec fn delivered(
    bytes: Seq<u8>,
    buffer_len: usize,
    before: Seq<u8>,
    after: Seq<u8>,
    written_len: usize,
    status: PQSigningError,
) -> bool {
    &&& written_len == bytes.len()
    &&& if bytes.len() <= buffer_len {
        &&& status == PQSigningError::Success
        &&& after == bytes + before.skip(bytes.len() as int)
    } else {
        &&& status == PQSigningError::UnknownError
        &&& after == before
    }
}

/// What the output pointers of a call lead to: the contents of the buffer, and the number
/// behind the pointer to the written length.
pub struct Output {
    pub buffer: Option<Seq<u8>>,
    pub written_len: Option<usize>,
}

/// What the output pointers lead to when a call begins.
pub open spec fn output_before(buffer: Option<&mut [u8]>, written_len: Option<&mut usize>) -> Output {
    Output {
        buffer: match buffer {
            Some(memory) => Some(memory@),
            None => None,
        },
        written_len: match written_len {
            Some(written) => Some(*written),
            None => None,
        },
    }
}

/// The memory behind an output buffer's pointer has the length that the caller says.
pub open spec fn writable(buffer: Option<&mut [u8]>, buffer_len: usize) -> bool {
    buffer matches Some(memory) ==> buffer_len <= memory@.len()
}

/// A call answers with `bytes`: a null pointer is refused with nothing written, and
/// otherwise the bytes are delivered.
pub open spec fn bytes_answered(
    bytes: Seq<u8>,
    buffer_len: usize,
    before: Output,
    after: Output,
    status: PQSigningError,
) -> bool {
    if before.buffer is None || before.written_len is None {
        &&& status == PQSigningError::InvalidPointer
        &&& after == before
    } else {
        &&& after.buffer is Some
        &&& after.written_len is Some
        &&& delivered(
            bytes,
            buffer_len,
            before.buffer->0,
            after.buffer->0,
            after.written_len->0,
            status,
        )
    }
}

/// Answers with `bytes` in an output buffer.
pub fn write_bytes_to_buffer(
    bytes: &[u8],
    buffer: Option<&mut [u8]>,
    buffer_len: usize,
    written_len: Option<&mut usize>,
) -> (status: PQSigningError)
    requires
        bytes@.len() <= buffer_len ==> writable(buffer, buffer_len),
    ensures
        bytes_answered(
            bytes@,
            buffer_len,
            output_before(buffer, written_len),
            (Output {
                buffer: match buffer {
                    Some(memory) => Some(final(memory)@),
                    None => None,
                },
                written_len: match written_len {
                    Some(written) => Some(*final(written)),
                    None => None,
                },
            }),
            status,
        ),
{
    match (buffer, written_len) {
        (Some(memory), Some(written)) => {
            *written = bytes.len();
            if bytes.len() > buffer_len {
                return PQSigningError::UnknownError;
            }
            let ghost before = memory@;
            let mut i: usize = 0;
            while i < bytes.len()
                invariant
                    i <= bytes@.len() <= memory@.len(),
                    memory@.len() == before.len(),
                    forall|j: int| 0 <= j < i ==> memory@[j] == bytes@[j],
                    forall|j: int| i <= j < before.len() ==> memory@[j] == before[j],
                decreases bytes@.len() - i,
            {
                memory[i] = bytes[i];
                i += 1;
            }
            assert(memory@ =~= bytes@ + before.skip(bytes@.len() as int));
            PQSigningError::Success
        },
        _ => PQSigningError::InvalidPointer,
    }
}

/// A caller that offered too small a buffer and offers the reported length the next time
/// gets the bytes.
pub proof fn law_reported_length_is_enough(
    bytes: Seq<u8>,
    buffer_len: usize,
    before: Seq<u8>,
    after: Seq<u8>,
    reported: usize,
    status: PQSigningError,
    retry_before: Seq<u8>,
    retry_after: Seq<u8>,
    retry_written: usize,
    retry_status: PQSigningError,
)
    requires
        delivered(bytes, buffer_len, before, after, reported, status),
        retry_before.len() == reported,
        delivered(bytes, reported, retry_before, retry_after, retry_written, retry_status),
    ensures
        retry_status == PQSigningError::Success,
        retry_after == bytes,
        retry_written == reported,
{
    assert(retry_after =~= bytes);
}

} // verus!
