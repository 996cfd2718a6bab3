//! The receiving side of a recording: frames in, one artifact out.

use vstd::prelude::*;
use crate::encoder::all_fit;
use crate::encoder::all_visible;
use crate::encoder::fits;
use crate::encoder::artifact;
use crate::encoder::encode_frames;
use crate::encoder::gif_stream;
use crate::encoder::MAX_SIDE;
use crate::error::CaptureError;
use crate::frame::rasters;
use crate::frame::Frame;
use crate::region::Bound2;

verus! {

/// Collects the frames of one recording in arrival order and encodes them
/// when the recording ends.
pub struct Consumer {
    width: u32,
    height: u32,
    frames: Vec<Frame>,
}

impl View for Consumer {
    type V = Seq<(u32, u32, Seq<u8>)>;

    /// The rasters received so far, oldest first.
    closed spec fn view(&self) -> Seq<(u32, u32, Seq<u8>)> {
        rasters(self.frames@)
    }
}

impl Consumer {
    /// Every frame received has the recording's size and covers a pixel.
    pub closed spec fn wf(&self) -> bool {
        forall|i: int|
            0 <= i < self.frames@.len() ==> {
                &&& (#[trigger] self.frames@[i])@.0 == self.width
                &&& self.frames@[i]@.1 == self.height
                &&& self.width > 0
                &&& self.height > 0
            }
    }

    /// Width that every frame of this recording has.
    pub closed spec fn frame_width(&self) -> u32 {
        self.width
    }

    /// Height that every frame of this recording has.
    pub closed spec fn frame_height(&self) -> u32 {
        self.height
    }

    /// Whether this recording takes a raster of the given size.
    pub open spec fn fits(&self, raster: (u32, u32, Seq<u8>)) -> bool {
        &&& raster.0 == self.frame_width()
        &&& raster.1 == self.frame_height()
        &&& raster.0 > 0
        &&& raster.1 > 0
    }

    /// Whether what was received can be encoded: nothing was received, or
    /// the recording's frames are within what the format can hold.
    pub open spec fn can_encode(&self) -> bool {
        self@.len() == 0 || (self.frame_width() <= MAX_SIDE && self.frame_height() <= MAX_SIDE)
    }

    /// Every frame received has the recording's size, so the frames fit the
    /// format exactly when the recording's size does.
    pub proof fn lemma_fit_by_size(&self)
        requires
            self.wf(),
        ensures
            all_fit(self@) <==> self.can_encode(),
    {
        if self@.len() > 0 {
            assert(self@[0] == self.frames@[0]@);
            if all_fit(self@) {
                assert(fits(self@[0]));
            } else {
                let i = choose|i: int| 0 <= i < self@.len() && !fits(#[trigger] self@[i]);
                assert(self@[i] == self.frames@[i]@);
            }
            if self.can_encode() {
                assert forall|i: int| 0 <= i < self@.len() implies fits(#[trigger] self@[i]) by {
                    assert(self@[i] == self.frames@[i]@);
                }
            }
        }
    }

    /// A consumer for a recording of `region`, with nothing received.
    pub fn new(region: Bound2) -> (c: Consumer)
        ensures
            c.wf(),
            c@ == Seq::<(u32, u32, Seq<u8>)>::empty(),
            c.frame_width() == region.width(),
            c.frame_height() == region.height(),
    {
        let c = Consumer { width: region.get_width(), height: region.get_height(), frames: Vec::new() };
        assert(c@ =~= Seq::<(u32, u32, Seq<u8>)>::empty());
        c
    }

    /// The number of frames received so far.
    pub fn received(&self) -> (n: usize)
        ensures
            n == self@.len(),
    {
        self.frames.len()
    }

    /// Takes the next frame of the recording. A frame whose size is not the
    /// recording's, or that covers no pixel, is refused and nothing changes.
    pub fn accept(&mut self, frame: Frame) -> (r: Result<(), CaptureError>)
        requires
            old(self).wf(),
        ensures
            final(self).wf(),
            final(self).frame_width() == old(self).frame_width(),
            final(self).frame_height() == old(self).frame_height(),
            r is Ok <==> old(self).fits(frame@),
            r is Ok ==> final(self)@ == old(self)@.push(frame@),
            r is Err ==> r == Err::<(), CaptureError>(CaptureError::CaptureFailure) && final(self)@ == old(self)@,
    {
        if frame.width() == self.width && frame.height() == self.height && self.width > 0
            && self.height > 0 {
            let ghost before = self.frames@;
            self.frames.push(frame);
            assert(rasters(self.frames@) =~= rasters(before).push(frame@));
            Ok(())
        } else {
            Err(CaptureError::CaptureFailure)
        }
    }

    /// Ends the recording: encodes what was received, in arrival order.
    /// Taking the consumer by value, it can happen once only.
    ///
    /// Frames too large for the format fail with `EncodeFailure`. Frames
    /// that fit give the artifact, unless the machine runs out of memory
    /// while encoding; a recording without frames gives the empty artifact.
    pub fn finish(self) -> (r: Result<Vec<u8>, CaptureError>)
        requires
            self.wf(),
        ensures
            r is Ok ==> r->Ok_0@ == gif_stream(self@) && all_fit(self@),
            self@.len() == 0 ==> r is Ok && r->Ok_0@.len() == 0,
            all_fit(self@) ==> r is Ok || r == Err::<Vec<u8>, CaptureError>(CaptureError::OutOfMemory),
            !all_fit(self@) ==> r == Err::<Vec<u8>, CaptureError>(CaptureError::EncodeFailure),
            r is Ok ==> self.can_encode(),
            self.can_encode() ==> r is Ok || r == Err::<Vec<u8>, CaptureError>(CaptureError::OutOfMemory),
            !self.can_encode() ==> r == Err::<Vec<u8>, CaptureError>(CaptureError::EncodeFailure),
    {
        assert(all_visible(self.frames@));
        proof {
            self.lemma_fit_by_size();
            if !all_fit(self@) {
                assert(self@[0] == self.frames@[0]@);
            }
        }
        let outcome = encode_frames(&self.frames);
        artifact(outcome)
    }
}

} // verus!
