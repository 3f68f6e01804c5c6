//! One captured unit of media: an immutable run of bytes held in a `bytes::BytesMut`.

use byte_slice_cast::AsByteSlice;
use byte_slice_cast::AsSliceOf;
use vstd::prelude::*;
use vstd::slice::slice_to_vec;

verus! {

/// `bytes::BytesMut`, a growable byte buffer. Nothing is known of a value but what
/// `buffer_bytes` names.
#[verifier::external_type_specification]
#[verifier::external_body]
pub struct ExBytesMut(bytes::BytesMut);

/// `byte_slice_cast::Error`, the reason for which a cast between slices was refused. It is
/// only carried through.
#[verifier::external_type_specification]
#[verifier::external_body]
pub struct ExCastError(byte_slice_cast::Error);

/// The bytes that a buffer holds, first to last.
pub uninterp spec fn buffer_bytes(buffer: bytes::BytesMut) -> Seq<u8>;

/// `AsSliceOf::as_slice_of::<u8>` on a byte slice. A byte has size and alignment one, so
/// neither of the cast's two checks can fail: the cast succeeds and gives the same bytes
/// back.
#[verifier::external_body]
fn samples_of(data: &[u8]) -> (samples: Result<&[u8], byte_slice_cast::Error>)
    ensures
        samples is Ok,
        samples->Ok_0@ == data@,
{
    data.as_slice_of::<u8>()
}

/// `AsByteSlice::as_byte_slice` on a vector of bytes: the same bytes, seen as a slice.
#[verifier::external_body]
fn byte_slice_of(samples: &Vec<u8>) -> (bytes: &[u8])
    ensures
        bytes@ == samples@,
{
    samples.as_byte_slice()
}

/// `BytesMut::from` on a byte slice: a fresh buffer that holds a copy of the slice.
#[verifier::external_body]
fn buffer_from_slice(bytes: &[u8]) -> (buffer: bytes::BytesMut)
    ensures
        buffer_bytes(buffer) == bytes@,
{
    bytes::BytesMut::from(bytes)
}

/// `AsRef::<[u8]>::as_ref` on a buffer: the bytes it holds, seen as a slice.
#[verifier::external_body]
fn buffer_as_slice(buffer: &bytes::BytesMut) -> (bytes: &[u8])
    ensures
        bytes@ == buffer_bytes(*buffer),
{
    buffer.as_ref()
}

/// A captured frame. Its view is the byte sequence it carries.
pub struct Frame {
    buffer: bytes::BytesMut,
}

impl View for Frame {
    type V = Seq<u8>;

    closed spec fn view(&self) -> Seq<u8> {
        buffer_bytes(self.buffer)
    }
}

/// Why the memory of a sample could not be read as bytes.
pub struct SampleFormatError {
    /// The cast that was refused.
    pub cause: byte_slice_cast::Error,
}

impl Frame {
    /// Wraps a buffer as a frame without copying it.
    pub fn new(buffer: bytes::BytesMut) -> (frame: Frame)
        ensures
            frame@ == buffer_bytes(buffer),
    {
        Frame { buffer }
    }

    /// Copies the readable memory of a sample into a frame of its own.
    ///
    /// The memory is first read as a slice of byte samples; a frame then owns a copy of
    /// them. Reading bytes as bytes always succeeds, so a frame always comes back.
    pub fn from_samples(memory: &[u8]) -> (frame: Result<Frame, SampleFormatError>)
        ensures
            frame matches Ok(f) && f@ == memory@,
    {
        match samples_of(memory) {
            Ok(samples) => {
                let owned = slice_to_vec(samples);
                let buffer = buffer_from_slice(byte_slice_of(&owned));
                Ok(Frame { buffer })
            },
            Err(cause) => Err(SampleFormatError { cause }),
        }
    }

    /// A copy of the bytes that the frame carries.
    pub fn to_vec(&self) -> (bytes: Vec<u8>)
        ensures
            bytes@ == self@,
    {
        slice_to_vec(buffer_as_slice(&self.buffer))
    }

    /// Gives up the frame for the buffer inside it.
    pub fn into_buffer(self) -> (buffer: bytes::BytesMut)
        ensures
            buffer_bytes(buffer) == self@,
    {
        self.buffer
    }
}

} // verus!
