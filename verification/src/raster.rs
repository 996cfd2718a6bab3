//! Turning what the screen hands out into a frame: the screen's buffer
//! holds rows from the bottom up, each pixel as blue, green, red, alpha.

use vstd::prelude::*;
use crate::frame::raster_len;
use crate::frame::Frame;

verus! {

/// Where channel `c` of the pixel in column `x` of row `y` lies in a buffer
/// of rows `width` pixels wide.
pub open spec fn offset(width: int, x: int, y: int, c: int) -> int {
    (y * width + x) * 4 + c
}

/// The channel of a blue-green-red-alpha pixel that holds what channel `c`
/// of a red-green-blue-alpha pixel does: red and blue change places.
pub open spec fn source_channel(c: int) -> int {
    if c == 0 {
        2
    } else if c == 2 {
        0
    } else {
        c
    }
}

/// `pixels` shows what `raw` shows, with the rows in reverse order and red
/// and blue exchanged in every pixel.
pub open spec fn is_top_down_rgba(raw: Seq<u8>, width: int, height: int, pixels: Seq<u8>) -> bool {
    &&& pixels.len() == width * height * 4
    &&& raw.len() == width * height * 4
    &&& forall|x: int, y: int, c: int|
        0 <= x < width && 0 <= y < height && 0 <= c < 4 ==> pixels[#[trigger] offset(width, x, y, c)]
            == raw[offset(width, x, height - 1 - y, source_channel(c))]
}

/// Every channel of every pixel of a raster has its place inside the buffer.
pub proof fn lemma_offset_inside(width: int, height: int, x: int, y: int, c: int)
    requires
        0 <= x < width,
        0 <= y < height,
        0 <= c < 4,
    ensures
        0 <= offset(width, x, y, c) < width * height * 4,
        0 <= y * width <= y * width + x < height * width,
{
    assert(0 <= y * width && (y + 1) * width <= height * width) by (nonlinear_arith)
        requires
            0 <= y < height,
            0 < width,
    ;
    assert((y + 1) * width == y * width + width) by (nonlinear_arith);
    assert(height * width == width * height) by (nonlinear_arith);
}

/// Pixels lie in the buffer row after row, and within a row from the left.
pub proof fn lemma_offset_ordered(width: int, x1: int, y1: int, c1: int, x2: int, y2: int)
    requires
        0 <= x1 < width,
        0 <= x2 <= width,
        0 <= y1,
        0 <= c1 < 4,
        y1 < y2 || (y1 == y2 && x1 < x2),
    ensures
        offset(width, x1, y1, c1) < offset(width, x2, y2, 0),
{
    if y1 < y2 {
        assert((y1 + 1) * width <= y2 * width) by (nonlinear_arith)
            requires
                y1 + 1 <= y2,
                0 < width,
        ;
        assert((y1 + 1) * width == y1 * width + width) by (nonlinear_arith);
    }
}

/// Builds the frame that a raw screen buffer shows: rows from the top, each
/// pixel as red, green, blue, alpha. A buffer that does not hold exactly
/// `width * height` pixels gives nothing.
pub fn top_down_rgba(raw: &Vec<u8>, width: u32, height: u32) -> (r: Option<Frame>)
    ensures
        r is Some <==> raw@.len() == raster_len(width, height),
        r is Some ==> r.unwrap()@.0 == width && r.unwrap()@.1 == height,
        r is Some ==> is_top_down_rgba(raw@, width as int, height as int, r.unwrap()@.2),
{
    assert(width * height <= 0xFFFF_FFFF * 0xFFFF_FFFF) by (nonlinear_arith)
        requires
            width <= 0xFFFF_FFFF,
            height <= 0xFFFF_FFFF,
    ;
    let want: u128 = (width as u128) * (height as u128) * 4;
    if raw.len() as u128 != want {
        return None;
    }
    let w: usize = width as usize;
    let h: usize = height as usize;
    let ghost wi = width as int;
    let ghost hi = height as int;
    let mut out: Vec<u8> = Vec::new();
    let mut y: usize = 0;
    while y < h
        invariant
            w == wi,
            h == hi,
            wi == width,
            hi == height,
            y <= h,
            raw@.len() == wi * hi * 4,
            raw@.len() <= usize::MAX,
            out@.len() == offset(wi, 0, y as int, 0),
            forall|xx: int, yy: int, c: int|
                0 <= xx < wi && 0 <= yy < y && 0 <= c < 4 ==> out@[#[trigger] offset(wi, xx, yy, c)]
                    == raw@[offset(wi, xx, hi - 1 - yy, source_channel(c))],
        decreases h - y,
    {
        let mut x: usize = 0;
        while x < w
            invariant
                w == wi,
                h == hi,
                y < h,
                x <= w,
                raw@.len() == wi * hi * 4,
                raw@.len() <= usize::MAX,
                out@.len() == offset(wi, x as int, y as int, 0),
                forall|xx: int, yy: int, c: int|
                    0 <= xx < wi && 0 <= yy < y && 0 <= c < 4 ==> out@[#[trigger] offset(
                        wi,
                        xx,
                        yy,
                        c,
                    )] == raw@[offset(wi, xx, hi - 1 - yy, source_channel(c))],
                forall|xx: int, c: int|
                    0 <= xx < x && 0 <= c < 4 ==> out@[#[trigger] offset(wi, xx, y as int, c)]
                        == raw@[offset(wi, xx, hi - 1 - y, source_channel(c))],
            decreases w - x,
        {
            let row: usize = h - 1 - y;
            proof {
                lemma_offset_inside(wi, hi, x as int, row as int, 0);
                lemma_offset_inside(wi, hi, x as int, row as int, 3);
                lemma_offset_inside(wi, hi, x as int, y as int, 3);
            }
            let base: usize = (row * w + x) * 4;
            let ghost before = out@;
            out.push(raw[base + 2]);
            out.push(raw[base + 1]);
            out.push(raw[base]);
            out.push(raw[base + 3]);
            proof {
                let start = offset(wi, x as int, y as int, 0);
                assert(before.len() == start);
                assert forall|xx: int, yy: int, c: int|
                    0 <= xx < wi && 0 <= yy < y && 0 <= c < 4 implies out@[#[trigger] offset(
                    wi,
                    xx,
                    yy,
                    c,
                )] == raw@[offset(wi, xx, hi - 1 - yy, source_channel(c))] by {
                    lemma_offset_ordered(wi, xx, yy, c, x as int, y as int);
                    lemma_offset_inside(wi, hi, xx, yy, c);
                    assert(out@[offset(wi, xx, yy, c)] == before[offset(wi, xx, yy, c)]);
                }
                assert forall|xx: int, c: int| 0 <= xx < x + 1 && 0 <= c < 4 implies out@[#[trigger] offset(
                    wi,
                    xx,
                    y as int,
                    c,
                )] == raw@[offset(wi, xx, hi - 1 - y, source_channel(c))] by {
                    if xx < x {
                        lemma_offset_ordered(wi, xx, y as int, c, x as int, y as int);
                        lemma_offset_inside(wi, hi, xx, y as int, c);
                        assert(out@[offset(wi, xx, y as int, c)] == before[offset(
                            wi,
                            xx,
                            y as int,
                            c,
                        )]);
                    } else {
                        assert(offset(wi, xx, y as int, c) == start + c);
                        assert(offset(wi, xx, hi - 1 - y, source_channel(c)) == base
                            + source_channel(c));
                    }
                }
                assert(offset(wi, x + 1, y as int, 0) == start + 4);
            }
            x = x + 1;
        }
        proof {
            assert(offset(wi, wi, y as int, 0) == offset(wi, 0, y + 1, 0)) by (nonlinear_arith);
            assert forall|xx: int, yy: int, c: int|
                0 <= xx < wi && 0 <= yy < y + 1 && 0 <= c < 4 implies out@[#[trigger] offset(
                wi,
                xx,
                yy,
                c,
            )] == raw@[offset(wi, xx, hi - 1 - yy, source_channel(c))] by {
                if yy == y {
                }
            }
        }
        y = y + 1;
    }
    proof {
        assert(offset(wi, 0, hi, 0) == wi * hi * 4) by (nonlinear_arith);
    }
    Frame::new(width, height, out)
}

} // verus!
