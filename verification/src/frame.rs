//! Raster frames: RGBA pixels in rows from the top, four bytes per pixel.

use vstd::prelude::*;

verus! {

/// The number of bytes that a raster of the given size holds.
pub open spec fn raster_len(width: u32, height: u32) -> int {
    width * height * 4
}

/// One captured raster.
///
/// Every frame holds exactly `raster_len(width, height)` bytes.
#[derive(Debug)]
pub struct Frame {
    width: u32,
    height: u32,
    pixels: Vec<u8>,
}

impl View for Frame {
    type V = (u32, u32, Seq<u8>);

    closed spec fn view(&self) -> (u32, u32, Seq<u8>) {
        (self.width, self.height, self.pixels@)
    }
}

impl Frame {
    #[verifier::type_invariant]
    closed spec fn sized(&self) -> bool {
        self.pixels@.len() == raster_len(self.width, self.height)
    }

    /// Wraps a pixel buffer, if it has the size that the dimensions ask for.
    pub fn new(width: u32, height: u32, pixels: Vec<u8>) -> (r: Option<Frame>)
        ensures
            r is Some <==> pixels@.len() == raster_len(width, height),
            r is Some ==> r.unwrap()@ == (width, height, pixels@),
    {
        assert(width * height <= 0xFFFF_FFFF * 0xFFFF_FFFF) by (nonlinear_arith)
            requires
                width <= 0xFFFF_FFFF,
                height <= 0xFFFF_FFFF,
        ;
        let want: u128 = (width as u128) * (height as u128) * 4;
        if pixels.len() as u128 == want {
            Some(Frame { width, height, pixels })
        } else {
            None
        }
    }

    /// Width in pixels.
    pub fn width(&self) -> (w: u32)
        ensures
            w == self@.0,
    {
        self.width
    }

    /// Height in pixels.
    pub fn height(&self) -> (h: u32)
        ensures
            h == self@.1,
    {
        self.height
    }

    /// The pixel bytes, `raster_len` of them.
    pub fn pixels(&self) -> (p: &Vec<u8>)
        ensures
            p@ == self@.2,
            p@.len() == raster_len(self@.0, self@.1),
    {
        proof {
            use_type_invariant(self);
        }
        &self.pixels
    }
}

impl Clone for Frame {
    /// A frame with the same size and the same pixels.
    fn clone(&self) -> (r: Frame)
        ensures
            r@ == self@,
    {
        proof {
            use_type_invariant(self);
        }
        let pixels = self.pixels.clone();
        assert(pixels@ =~= self.pixels@);
        Frame { width: self.width, height: self.height, pixels }
    }
}

/// The rasters of a run of frames, in order.
pub open spec fn rasters(frames: Seq<Frame>) -> Seq<(u32, u32, Seq<u8>)> {
    frames.map_values(|f: Frame| f@)
}

} // verus!
