use vstd::prelude::*;
use crate::fluid::Color;

verus! {

/// Width of the canvas, in pixels.
pub const PX_WIDTH: usize = 100;

/// Height of the canvas, in pixels.
pub const PX_HEIGHT: usize = 150;

/// Index of the first byte of pixel `(x, y)` in an RGBA frame whose rows are
/// `PX_WIDTH` pixels long.
pub open spec fn pixel_start(x: int, y: int) -> int {
    (x + y * PX_WIDTH) * 4
}

/// Whether pixel `(x, y)` lies wholly inside a frame of `len` bytes.
pub open spec fn pixel_fits(len: int, x: int, y: int) -> bool {
    pixel_start(x, y) + 4 <= len
}

/// `frame` with pixel `(x, y)` painted `color`.
pub open spec fn with_pixel(frame: Seq<u8>, x: int, y: int, color: Color) -> Seq<u8> {
    let i = pixel_start(x, y);
    frame.update(i, color.r).update(i + 1, color.g).update(i + 2, color.b).update(i + 3, color.a)
}

/// `frame` with each point of `points` painted `color`, in order.
pub open spec fn plot(frame: Seq<u8>, points: Seq<(usize, usize)>, color: Color) -> Seq<u8>
    decreases points.len(),
{
    if points.len() == 0 {
        frame
    } else {
        let p = points.last();
        with_pixel(plot(frame, points.drop_last(), color), p.0 as int, p.1 as int, color)
    }
}

/// Byte `k` of the background gradient. Pixel `p = k / 4` lies in row
/// `j = p / PX_WIDTH` and column `i = p % PX_WIDTH`; each channel is truncated to a byte.
pub open spec fn background_byte(k: int) -> u8 {
    let p = k / 4;
    let j = p / PX_WIDTH as int;
    let i = p % PX_WIDTH as int;
    let c = k % 4;
    if c == 0 {
        (50 + j * 255 / (PX_WIDTH * 4) as int) as u8
    } else if c == 1 {
        (15 + j * 255 / (PX_HEIGHT * 4) as int) as u8
    } else if c == 2 {
        (25 + (i + j) * 255 / ((PX_WIDTH + PX_HEIGHT) * 4) as int) as u8
    } else {
        255
    }
}

/// `frame` with the gradient on every whole pixel; trailing bytes that make
/// up no whole pixel are kept.
pub open spec fn background(frame: Seq<u8>) -> Seq<u8> {
    Seq::new(
        frame.len(),
        |k: int|
            if k < frame.len() / 4 * 4 {
                background_byte(k)
            } else {
                frame[k]
            },
    )
}

/// Paints pixel `(x, y)` of the frame.
pub fn set_pixel(frame: &mut [u8], x: usize, y: usize, color: Color)
    requires
        pixel_fits(old(frame)@.len() as int, x as int, y as int),
    ensures
        final(frame)@ == with_pixel(old(frame)@, x as int, y as int, color),
{
    let n = frame.len();
    assert(0 <= y * PX_WIDTH <= x + y * PX_WIDTH <= (x + y * PX_WIDTH) * 4 < n);
    let i = (x + y * PX_WIDTH) * 4;
    frame[i] = color.r;
    frame[i + 1] = color.g;
    frame[i + 2] = color.b;
    frame[i + 3] = color.a;
}

/// Fills the frame with the background gradient.
pub fn draw_background(frame: &mut [u8])
    ensures
        final(frame)@ == background(old(frame)@),
{
    let len = frame.len();
    let n = len / 4;
    let mut p: usize = 0;
    while p < n
        invariant
            n == len / 4,
            frame@.len() == old(frame)@.len(),
            len == frame@.len(),
            p <= n,
            forall|k: int|
                0 <= k < frame@.len() ==> #[trigger] frame@[k] == if k < p * 4 {
                    background_byte(k)
                } else {
                    old(frame)@[k]
                },
        decreases n - p,
    {
        let j = p / PX_WIDTH;
        let i = p % PX_WIDTH;
        proof {
            assert(j * 100 <= p && i < 100) by (nonlinear_arith)
                requires
                    j == p / 100,
                    i == p % 100,
            ;
            assert(p * 4 + 3 < frame@.len());
            assert(j * 255 <= 3 * p);
            assert((i + j) * 255 <= 3 * p + 99 * 255);
            assert(3 * p + 99 * 255 <= usize::MAX);
        }
        let r = #[verifier::truncate] ((50 + j * 255 / (PX_WIDTH * 4)) as u8);
        let g = #[verifier::truncate] ((15 + j * 255 / (PX_HEIGHT * 4)) as u8);
        let b = #[verifier::truncate] ((25 + (i + j) * 255 / ((PX_WIDTH + PX_HEIGHT) * 4)) as u8);
        let base = p * 4;
        frame[base] = r;
        frame[base + 1] = g;
        frame[base + 2] = b;
        frame[base + 3] = 255;
        proof {
            assert(base / 4 == p && base % 4 == 0);
            assert((base + 1) / 4 == p && (base + 1) % 4 == 1);
            assert((base + 2) / 4 == p && (base + 2) % 4 == 2);
            assert((base + 3) / 4 == p && (base + 3) % 4 == 3);
            assert(background_byte(base as int) == r);
            assert(background_byte(base + 1) == g);
            assert(background_byte(base + 2) == b);
        }
        p = p + 1;
    }
    assert(frame@ =~= background(old(frame)@));
}

/// Draws one frame: the background first when `first_frame` holds, then a
/// pixel of `color` at each point.
pub fn draw_frame(frame: &mut [u8], first_frame: bool, points: &Vec<(usize, usize)>, color: Color)
    requires
        forall|k: int|
            0 <= k < points@.len() ==> pixel_fits(
                old(frame)@.len() as int,
                (#[trigger] points@[k]).0 as int,
                points@[k].1 as int,
            ),
    ensures
        final(frame)@ == plot(
            if first_frame {
                background(old(frame)@)
            } else {
                old(frame)@
            },
            points@,
            color,
        ),
{
    if first_frame {
        draw_background(frame);
    }
    let ghost start = frame@;
    let mut k: usize = 0;
    while k < points.len()
        invariant
            k <= points@.len(),
            frame@.len() == old(frame)@.len(),
            start == if first_frame {
                background(old(frame)@)
            } else {
                old(frame)@
            },
            frame@ == plot(start, points@.subrange(0, k as int), color),
            forall|m: int|
                0 <= m < points@.len() ==> pixel_fits(
                    old(frame)@.len() as int,
                    (#[trigger] points@[m]).0 as int,
                    points@[m].1 as int,
                ),
        decreases points@.len() - k,
    {
        let (x, y) = points[k];
        set_pixel(frame, x, y, color);
        proof {
            let next = points@.subrange(0, k + 1);
            assert(next.drop_last() =~= points@.subrange(0, k as int));
        }
        k = k + 1;
    }
    assert(points@.subrange(0, points@.len() as int) =~= points@);
}

} // verus!
