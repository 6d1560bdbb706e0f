//! The pixel buffer and the assembly of one complete frame.
//!
//! A frame is a row-major buffer of exactly 360 x 270 packed colors. Only
//! the top half of the plane is computed; each computed pixel is also
//! written to its point-symmetric partner in the bottom half. When the
//! interior heuristic fired for the frame, a fixed 3x3 white marker block
//! is overlaid on rows and columns 2..5 as a diagnostic.
use vstd::prelude::*;

use crate::color::color_of;
use crate::color::pixel;
use crate::color::WHITE;

verus! {

/// Flat buffer index of the directly computed pixel at row `y`, column `x`.
pub open spec fn top_idx(y: int, x: int) -> int {
    y * 360 + x
}

/// Flat buffer index of the point-symmetric partner of row `y`, column `x`:
/// the mirror around the buffer's center.
pub open spec fn bot_idx(y: int, x: int) -> int {
    (270 - y) * 360 - x - 1
}

/// Whether row `y`, column `x` lies in the 3x3 diagnostic marker block.
pub open spec fn in_marker(y: int, x: int) -> bool {
    2 <= y < 5 && 2 <= x < 5
}

/// The color a completed frame holds at the directly computed position of
/// row `y`, column `x`: white inside the marker block when the marker was
/// drawn, otherwise the color of the pixel's escape count.
pub open spec fn top_color(counts: Seq<u8>, inside: bool, y: int, x: int) -> u32 {
    if inside && in_marker(y, x) {
        WHITE
    } else {
        color_of(counts[top_idx(y, x)])
    }
}

/// Both buffer positions of the pixel at row `y`, column `x` hold the
/// color of its escape count.
pub open spec fn cell_done(frame: Seq<u32>, counts: Seq<u8>, y: int, x: int) -> bool {
    &&& frame[top_idx(y, x)] == color_of(counts[top_idx(y, x)])
    &&& frame[bot_idx(y, x)] == color_of(counts[top_idx(y, x)])
}

/// Exact contents of a completed frame, pixel by pixel: for every row of
/// the top half and every column, the computed position holds `top_color`
/// and the mirrored position holds the count's color.
pub open spec fn rendered(frame: Seq<u32>, counts: Seq<u8>, inside: bool) -> bool {
    &&& frame.len() == 97200
    &&& forall|y: int, x: int|
        #![trigger top_idx(y, x)]
        0 <= y < 135 && 0 <= x < 360 ==> {
            &&& frame[top_idx(y, x)] == top_color(counts, inside, y, x)
            &&& frame[bot_idx(y, x)] == color_of(counts[top_idx(y, x)])
        }
}

/// Iteration depth for one frame: the reduced depth when the interior
/// heuristic fired (a large interior needs fewer iterations to resolve),
/// the full depth otherwise. The reduced depth is exactly the value whose
/// choice also triggers the marker overlay.
pub fn choose_max_iter(inside: bool) -> (m: u8)
    ensures
        m == if inside { 52u8 } else { 255u8 },
        (m == 52) <==> inside,
{
    if inside {
        52
    } else {
        255
    }
}

/// One frame's pixel buffer: exactly 360 x 270 packed colors, row-major,
/// never reallocated.
pub struct Frame {
    buf: Vec<u32>,
}

impl View for Frame {
    type V = Seq<u32>;

    closed spec fn view(&self) -> Seq<u32> {
        self.buf@
    }
}

impl Frame {
    /// The buffer's fixed-size invariant: exactly 360 x 270 pixels.
    pub open spec fn wf(&self) -> bool {
        self@.len() == 97200
    }

    /// A fresh all-zero buffer of the fixed frame size.
    pub fn new() -> (f: Frame)
        ensures
            f.wf(),
            forall|i: int| 0 <= i < 97200 ==> f@[i] == 0u32,
    {
        let mut buf: Vec<u32> = Vec::new();
        while buf.len() < 97200
            invariant
                buf@.len() <= 97200,
                forall|i: int| 0 <= i < buf@.len() ==> buf@[i] == 0u32,
            decreases 97200 - buf@.len(),
        {
            buf.push(0);
        }
        Frame { buf }
    }

    /// Number of pixels in the buffer.
    pub fn len(&self) -> (n: usize)
        ensures
            n == self@.len(),
    {
        self.buf.len()
    }

    /// The packed color at flat index `i`.
    pub fn get(&self, i: usize) -> (v: u32)
        requires
            i < self@.len(),
        ensures
            v == self@[i as int],
    {
        self.buf[i]
    }

    /// Read-only view of the whole buffer, for zero-copy consumption by a
    /// host display surface.
    pub fn as_slice(&self) -> (s: &[u32])
        ensures
            s@ == self@,
    {
        self.buf.as_slice()
    }

    /// Produce one complete frame from the escape counts of the top half.
    ///
    /// `counts[y * 360 + x]` is the escape count of the pixel at row `y`
    /// (`0 <= y < 135`) and column `x`. Each count's color is written both
    /// at its own position and at the point-symmetric partner position in
    /// the bottom half; afterwards, when `inside` holds, the 3x3 marker
    /// block is overlaid in white.
    pub fn render(&mut self, counts: &Vec<u8>, inside: bool)
        requires
            old(self).wf(),
            counts@.len() == 48600,
        ensures
            final(self).wf(),
            rendered(final(self)@, counts@, inside),
    {
        let mut y: usize = 0;
        while y < 135
            invariant
                self.wf(),
                counts@.len() == 48600,
                y <= 135,
                forall|yy: int, xx: int|
                    #![trigger top_idx(yy, xx)]
                    0 <= yy < y && 0 <= xx < 360 ==> cell_done(self@, counts@, yy, xx),
            decreases 135 - y,
        {
            let mut x: usize = 0;
            while x < 360
                invariant
                    self.wf(),
                    counts@.len() == 48600,
                    y < 135,
                    x <= 360,
                    forall|yy: int, xx: int|
                        #![trigger top_idx(yy, xx)]
                        0 <= yy < y && 0 <= xx < 360 ==> cell_done(self@, counts@, yy, xx),
                    forall|xx: int|
                        #![trigger top_idx(y as int, xx)]
                        0 <= xx < x ==> cell_done(self@, counts@, y as int, xx),
                decreases 360 - x,
            {
                let ti: usize = y * 360 + x;
                let bi: usize = (270 - y) * 360 - x - 1;
                let val: u32 = pixel(counts[ti]);
                self.buf[ti] = val;
                self.buf[bi] = val;
                x += 1;
            }
            y += 1;
        }
        let ghost mid = self@;
        if inside {
            self.buf[2 * 360 + 2] = WHITE;
            self.buf[2 * 360 + 3] = WHITE;
            self.buf[2 * 360 + 4] = WHITE;
            self.buf[3 * 360 + 2] = WHITE;
            self.buf[3 * 360 + 3] = WHITE;
            self.buf[3 * 360 + 4] = WHITE;
            self.buf[4 * 360 + 2] = WHITE;
            self.buf[4 * 360 + 3] = WHITE;
            self.buf[4 * 360 + 4] = WHITE;
        }
        proof {
            assert forall|yy: int, xx: int|
                #![trigger top_idx(yy, xx)]
                0 <= yy < 135 && 0 <= xx < 360 implies {
                &&& self@[top_idx(yy, xx)] == top_color(counts@, inside, yy, xx)
                &&& self@[bot_idx(yy, xx)] == color_of(counts@[top_idx(yy, xx)])
            } by {
                assert(cell_done(mid, counts@, yy, xx));
                if inside && in_marker(yy, xx) {
                    assert(yy == 2 || yy == 3 || yy == 4);
                    assert(xx == 2 || xx == 3 || xx == 4);
                }
            }
        }
    }
}

/// The mirrored-rasterization geometry: for every row of the top half and
/// every column, both target indices lie within the buffer and never
/// collide — a property of the fixed frame constants alone, which is why
/// the renderer needs no per-pixel bounds check.
pub proof fn lemma_mirror_in_bounds(y: int, x: int)
    requires
        0 <= y < 135,
        0 <= x < 360,
    ensures
        0 <= top_idx(y, x) < 48600,
        48600 <= bot_idx(y, x) < 97200,
        top_idx(y, x) != bot_idx(y, x),
{
}

/// A completed frame is fully determined by the escape counts and the
/// interior flag: `rendered` fixes every one of the 97200 pixels, so two
/// frames completed from the same inputs are equal.
pub proof fn lemma_rendered_determines_frame(
    f1: Seq<u32>,
    f2: Seq<u32>,
    counts: Seq<u8>,
    inside: bool,
)
    requires
        rendered(f1, counts, inside),
        rendered(f2, counts, inside),
    ensures
        f1 == f2,
{
    assert forall|i: int| 0 <= i < 97200 implies f1[i] == f2[i] by {
        if i < 48600 {
            let y = i / 360;
            let x = i % 360;
            vstd::arithmetic::div_mod::lemma_fundamental_div_mod(i, 360);
            assert(top_idx(y, x) == i);
            assert(f1[top_idx(y, x)] == top_color(counts, inside, y, x));
            assert(f2[top_idx(y, x)] == top_color(counts, inside, y, x));
        } else {
            let j = 97199 - i;
            let y = j / 360;
            let x = j % 360;
            vstd::arithmetic::div_mod::lemma_fundamental_div_mod(j, 360);
            assert(bot_idx(y, x) == i);
            assert(f1[bot_idx(y, x)] == color_of(counts[top_idx(y, x)]));
            assert(f2[bot_idx(y, x)] == color_of(counts[top_idx(y, x)]));
        }
    }
    assert(f1 =~= f2);
}

/// Point symmetry of a completed frame: every computed pixel equals its
/// point-symmetric partner, at every position except the nine marker cells
/// of a frame on which the marker was drawn (the overlay deliberately
/// breaks the symmetry there).
pub proof fn lemma_frame_symmetry(
    frame: Seq<u32>,
    counts: Seq<u8>,
    inside: bool,
    y: int,
    x: int,
)
    requires
        rendered(frame, counts, inside),
        0 <= y < 135,
        0 <= x < 360,
        !(inside && in_marker(y, x)),
    ensures
        frame[y * 360 + x] == frame[(270 - y) * 360 - x - 1],
{
    assert(frame[top_idx(y, x)] == top_color(counts, inside, y, x));
}

/// The diagnostic marker appears in a completed frame exactly when the
/// interior heuristic fired: all nine marker cells are white in that case,
/// and in no other case is any of them white (no escape count's color is
/// opaque white).
pub proof fn lemma_marker_iff(frame: Seq<u32>, counts: Seq<u8>, inside: bool)
    requires
        rendered(frame, counts, inside),
    ensures
        inside <==> (forall|y: int, x: int|
            in_marker(y, x) ==> #[trigger] frame[top_idx(y, x)] == WHITE),
{
    if inside {
        assert forall|y: int, x: int| in_marker(y, x) implies #[trigger] frame[top_idx(y, x)]
            == WHITE by {
            assert(frame[top_idx(y, x)] == top_color(counts, inside, y, x));
        }
    } else {
        assert(frame[top_idx(2, 2)] == top_color(counts, inside, 2, 2));
        crate::color::lemma_color_of_never_white(counts[top_idx(2, 2)]);
        assert(in_marker(2, 2) && frame[top_idx(2, 2)] != WHITE);
    }
}

} // verus!

