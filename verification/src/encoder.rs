//! Encoding a run of frames as one animated GIF.

use vstd::prelude::*;
use crate::error::CaptureError;
use crate::frame::rasters;
use crate::frame::Frame;

verus! {

/// The longest side that the format can hold.
pub const MAX_SIDE: u32 = 0xFFFF;

/// How an encoding ended.
#[derive(Debug)]
pub enum Encoded {
    /// The whole stream, closed.
    Done(Vec<u8>),
    /// A frame has a side longer than the format can hold.
    TooLarge,
    /// The machine had no memory for the compression buffer.
    OutOfMemory,
    /// The encoder failed in another way.
    Refused,
}

/// The bytes of the animated GIF that holds the given rasters, in order.
pub uninterp spec fn gif_stream(frames: Seq<(u32, u32, Seq<u8>)>) -> Seq<u8>;

/// Every frame covers at least one pixel.
pub open spec fn all_visible(frames: Seq<Frame>) -> bool {
    forall|i: int| 0 <= i < frames.len() ==> (#[trigger] frames[i])@.0 > 0 && frames[i]@.1 > 0
}

/// Both sides of the raster are within what the format can hold.
pub open spec fn fits(raster: (u32, u32, Seq<u8>)) -> bool {
    raster.0 <= MAX_SIDE && raster.1 <= MAX_SIDE
}

/// Every raster is within what the format can hold.
pub open spec fn all_fit(frames: Seq<(u32, u32, Seq<u8>)>) -> bool {
    forall|i: int| 0 <= i < frames.len() ==> fits(#[trigger] frames[i])
}

/// Runs `image::codecs::gif::GifEncoder::encode_frames` over the frames, each
/// as an `image::Frame` without delay, into a fresh buffer, and closes the
/// stream.
///
/// What is claimed of the encoder: where it succeeds, the buffer is the
/// stream that the frames determine, and every frame fits the format. No
/// frames give an empty buffer. A first frame that does not fit is refused
/// for its size. Frames that all fit are encoded, unless the allocation of
/// the compression buffer is refused, which the encoder reports as an error.
#[verifier::external_body]
pub(crate) fn encode_frames(frames: &Vec<Frame>) -> (r: Encoded)
    requires
        all_visible(frames@),
    ensures
        r is Done ==> r->Done_0@ == gif_stream(rasters(frames@)),
        r is Done ==> all_fit(rasters(frames@)),
        frames@.len() == 0 ==> r is Done && r->Done_0@.len() == 0,
        frames@.len() > 0 && !fits(frames@[0]@) ==> r is TooLarge,
        all_fit(rasters(frames@)) ==> r is Done || r is OutOfMemory,
{
    let mut buf: Vec<u8> = Vec::new();
    let images = frames.iter().map(|f| {
        image::Frame::new(image::RgbaImage::from_raw(f.width(), f.height(), f.pixels().clone()).unwrap())
    });
    let done = image::codecs::gif::GifEncoder::new(&mut buf).encode_frames(images);
    match done {
        Ok(()) => Encoded::Done(buf),
        Err(image::ImageError::Parameter(_)) => Encoded::TooLarge,
        Err(image::ImageError::IoError(e)) if e.kind() == std::io::ErrorKind::OutOfMemory => Encoded::OutOfMemory,
        Err(_) => Encoded::Refused,
    }
}

/// What a recording hands on, given how its encoding ended: the bytes where
/// it succeeded, [`CaptureError::OutOfMemory`] where memory ran out, and
/// [`CaptureError::EncodeFailure`] otherwise.
pub fn artifact(outcome: Encoded) -> (r: Result<Vec<u8>, CaptureError>)
    ensures
        outcome is Done ==> r == Ok::<Vec<u8>, CaptureError>(outcome->Done_0),
        outcome is TooLarge ==> r == Err::<Vec<u8>, CaptureError>(CaptureError::EncodeFailure),
        outcome is OutOfMemory ==> r == Err::<Vec<u8>, CaptureError>(CaptureError::OutOfMemory),
        outcome is Refused ==> r == Err::<Vec<u8>, CaptureError>(CaptureError::EncodeFailure),
{
    match outcome {
        Encoded::Done(bytes) => Ok(bytes),
        Encoded::TooLarge => Err(CaptureError::EncodeFailure),
        Encoded::OutOfMemory => Err(CaptureError::OutOfMemory),
        Encoded::Refused => Err(CaptureError::EncodeFailure),
    }
}

} // verus!
