//! Decoded samples as the producer receives them, and their validation.

use crate::error::FrameError;
use crate::frame::rgb_bytes;
use byte_slice_cast::AsSliceOf;
use vstd::prelude::*;

verus! {

/// What a delivered sample offers the producer.
#[derive(Clone, Copy, Debug)]
pub enum Sample<'a> {
    /// The sample carries no buffer.
    NoBuffer,
    /// The sample carries a buffer that cannot be mapped for reading.
    Unreadable,
    /// The sample's buffer, mapped for reading.
    Readable(&'a [u8]),
}

/// The verdict on a sample: its payload, or the reason for dropping it.
///
/// A missing buffer and an empty one are acquisition failures, an unmappable
/// buffer is an access failure, and a payload that is not a whole number of
/// three-byte pixels is a format failure.
pub open spec fn sample_payload(sample: Sample) -> Result<Seq<u8>, FrameError> {
    match sample {
        Sample::NoBuffer => Err(FrameError::DataAcquisitionFailure),
        Sample::Unreadable => Err(FrameError::BufferAccessFailure),
        Sample::Readable(bytes) => if bytes@.len() == 0 {
            Err(FrameError::DataAcquisitionFailure)
        } else if bytes@.len() % 3 != 0 {
            Err(FrameError::FormatInterpretationFailure)
        } else {
            Ok(bytes@)
        },
    }
}

#[verifier::external_type_specification]
#[verifier::external_body]
pub struct ExCastError(byte_slice_cast::Error);

/// `byte_slice_cast::AsSliceOf::as_slice_of`, asked for three-byte arrays.
///
/// The cast succeeds exactly when the length is a multiple of three: a byte
/// array has alignment one, so only the length check can fail, and an empty
/// input passes. On success the pixels are the same memory read three bytes at
/// a time, so their bytes in order are the input.
#[verifier::external_body]
fn cast_rgb_pixels<'a>(payload: &'a [u8]) -> (r: Result<&'a [[u8; 3]], byte_slice_cast::Error>)
    ensures
        r is Ok <==> payload@.len() % 3 == 0,
        r matches Ok(pixels) ==> rgb_bytes(pixels@) == payload@,
{
    payload.as_slice_of::<[u8; 3]>()
}

/// Validates a sample and reads its payload as three-byte pixels.
pub fn decode_sample<'a>(sample: &Sample<'a>) -> (r: Result<&'a [[u8; 3]], FrameError>)
    ensures
        match sample_payload(*sample) {
            Ok(payload) => r matches Ok(pixels) && rgb_bytes(pixels@) == payload,
            Err(e) => r == Err::<&[[u8; 3]], FrameError>(e),
        },
{
    match sample {
        Sample::NoBuffer => Err(FrameError::DataAcquisitionFailure),
        Sample::Unreadable => Err(FrameError::BufferAccessFailure),
        Sample::Readable(bytes) => {
            if bytes.len() == 0 {
                return Err(FrameError::DataAcquisitionFailure);
            }
            match cast_rgb_pixels(bytes) {
                Ok(pixels) => Ok(pixels),
                Err(_) => Err(FrameError::FormatInterpretationFailure),
            }
        },
    }
}

} // verus!
