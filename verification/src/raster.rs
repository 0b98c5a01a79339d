use vstd::prelude::*;
use vstd::arithmetic::div_mod::{
    lemma_fundamental_div_mod_converse, lemma_fundamental_div_mod,
};
use vstd::arithmetic::mul::lemma_mul_inequality;
use crate::geometry::Geometry;

verus! {

/// Channel value of every border pixel: the canvas is opaque white.
pub const WHITE_CHANNEL: u8 = 255;

/// An RGBA8 raster, rows stored top to bottom as four bytes per pixel.
#[derive(Clone, Debug)]
pub struct Raster {
    pub width: u32,
    pub height: u32,
    pub data: Vec<u8>,
}

impl Raster {
    pub open spec fn wf(self) -> bool {
        self.data.len() == 4 * (self.width as int) * (self.height as int)
    }

    /// Channel `c` (0 red, 1 green, 2 blue, 3 alpha) of the pixel at column
    /// `x`, row `y`.
    pub open spec fn chan(self, x: int, y: int, c: int) -> u8 {
        self.data[byte_index(self.width as int, x, y, c)]
    }
}

/// Position of a channel byte in a row-major RGBA8 buffer of width `w`.
pub open spec fn byte_index(w: int, x: int, y: int, c: int) -> int {
    4 * (y * w + x) + c
}

/// Whether canvas position `(x, y)` lies under the source placed by `g`.
pub open spec fn in_footprint(src: Raster, g: Geometry, x: int, y: int) -> bool {
    &&& g.x_offset <= x < g.x_offset + src.width
    &&& g.y_offset <= y < g.y_offset + src.height
}

/// What the compositor leaves at `(x, y)`: the source pixel where the source
/// was placed, written through as-is (alpha included, no blending), and
/// opaque white everywhere else.
pub open spec fn overlay_chan(src: Raster, g: Geometry, x: int, y: int, c: int) -> u8 {
    if in_footprint(src, g, x, y) {
        src.chan(x - g.x_offset, y - g.y_offset, c)
    } else {
        WHITE_CHANNEL
    }
}

/// The full byte contents of the composited canvas.
pub open spec fn composite_bytes(src: Raster, g: Geometry) -> Seq<u8> {
    Seq::new(
        (4 * g.new_width * g.new_height) as nat,
        |i: int|
            overlay_chan(
                src,
                g,
                (i / 4) % (g.new_width as int),
                (i / 4) / (g.new_width as int),
                i % 4,
            ),
    )
}

/// A byte index decomposes uniquely into its column, row and channel.
proof fn lemma_byte_index_decompose(w: int, h: int, x: int, y: int, c: int)
    requires
        0 <= x < w,
        0 <= y < h,
        0 <= c < 4,
    ensures
        0 <= byte_index(w, x, y, c) < 4 * w * h,
        byte_index(w, x, y, c) % 4 == c,
        (byte_index(w, x, y, c) / 4) % w == x,
        (byte_index(w, x, y, c) / 4) / w == y,
{
    let p = y * w + x;
    let i = 4 * p + c;
    assert(0 <= p < w * h) by (nonlinear_arith)
        requires
            0 <= x < w,
            0 <= y < h,
            p == y * w + x,
    ;
    assert(0 <= i < 4 * w * h) by (nonlinear_arith)
        requires
            0 <= p < w * h,
            0 <= c < 4,
            i == 4 * p + c,
    ;
    lemma_fundamental_div_mod_converse(i, 4, p, c);
    lemma_fundamental_div_mod_converse(p, w, y, x);
}

/// Composites `src` onto a fresh opaque-white canvas of the size `g` asks
/// for, with the source's top-left corner at `(g.x_offset, g.y_offset)`.
/// Source pixels overwrite the canvas byte for byte; nothing is blended.
#[verifier::rlimit(60)]
#[verifier::loop_isolation(false)]
pub fn composite_onto_white(src: &Raster, g: &Geometry) -> (out: Raster)
    requires
        src.wf(),
        g.x_offset + src.width <= g.new_width,
        g.y_offset + src.height <= g.new_height,
        4 * (g.new_width as int) * (g.new_height as int) <= usize::MAX,
    ensures
        out.wf(),
        out.width == g.new_width,
        out.height == g.new_height,
        out.data@ == composite_bytes(*src, *g),
        forall|x: int, y: int, c: int|
            0 <= x < g.new_width && 0 <= y < g.new_height && 0 <= c < 4 ==> out.chan(x, y, c)
                == overlay_chan(*src, *g, x, y, c),
{
    let nw = g.new_width;
    let nh = g.new_height;
    let xo = g.x_offset;
    let yo = g.y_offset;
    let ghost target = composite_bytes(*src, *g);
    let mut data: Vec<u8> = Vec::new();
    let mut y: u32 = 0;
    while y < nh
        invariant
            src.wf(),
            y <= nh,
            xo + src.width <= nw,
            yo + src.height <= nh,
            4 * (nw as int) * (nh as int) <= usize::MAX,
            target == composite_bytes(*src, *g),
            target.len() == 4 * (nw as int) * (nh as int),
            data.len() == 4 * ((y as int) * (nw as int)),
            forall|i: int| 0 <= i < data.len() ==> data[i] == target[i],
        decreases nh - y,
    {
        proof {
            assert(4 * ((y as int) * (nw as int) + (nw as int)) <= 4 * (nw as int) * (nh as int)
                && ((y as int) + 1) * (nw as int) == (y as int) * (nw as int) + (nw as int))
                by (nonlinear_arith)
                requires
                    (y as int) < (nh as int),
                    0 <= (y as int),
                    0 <= (nw as int),
            ;
        }
        let mut x: u32 = 0;
        while x < nw
            invariant
                src.wf(),
                y < nh,
                x <= nw,
                xo + src.width <= nw,
                yo + src.height <= nh,
                4 * (nw as int) * (nh as int) <= usize::MAX,
                4 * ((y as int) * (nw as int) + (nw as int)) <= usize::MAX,
                target == composite_bytes(*src, *g),
                target.len() == 4 * (nw as int) * (nh as int),
                data.len() == 4 * ((y as int) * (nw as int) + (x as int)),
                forall|i: int| 0 <= i < data.len() ==> data[i] == target[i],
            decreases nw - x,
        {
            let mut c: u32 = 0;
            while c < 4
                invariant
                    src.wf(),
                    y < nh,
                    x < nw,
                    c <= 4,
                    xo + src.width <= nw,
                    yo + src.height <= nh,
                    4 * (nw as int) * (nh as int) <= usize::MAX,
                    4 * ((y as int) * (nw as int) + (nw as int)) <= usize::MAX,
                    target == composite_bytes(*src, *g),
                    target.len() == 4 * (nw as int) * (nh as int),
                    data.len() == byte_index(nw as int, x as int, y as int, c as int),
                    forall|i: int| 0 <= i < data.len() ==> data[i] == target[i],
                decreases 4 - c,
            {
                proof {
                    lemma_byte_index_decompose(nw as int, nh as int, x as int, y as int, c as int);
                }
                let v: u8 = if xo <= x && x < xo + src.width && yo <= y && y < yo + src.height {
                    proof {
                        lemma_byte_index_decompose(
                            src.width as int,
                            src.height as int,
                            x as int - xo as int,
                            y as int - yo as int,
                            c as int,
                        );
                        lemma_mul_inequality(src.width as int, nw as int, src.height as int);
                        lemma_mul_inequality(src.height as int, nh as int, nw as int);
                        assert(4 * (src.width as int) * (src.height as int) <= 4 * (nw as int) * (
                        nh as int)) by (nonlinear_arith)
                            requires
                                (src.width as int) * (src.height as int) <= (nw as int) * (
                                src.height as int),
                                (src.height as int) * (nw as int) <= (nh as int) * (nw as int),
                        ;
                    }
                    let sx = (x - xo) as usize;
                    let sy = (y - yo) as usize;
                    src.data[4 * (sy * (src.width as usize) + sx) + (c as usize)]
                } else {
                    WHITE_CHANNEL
                };
                proof {
                    let i = byte_index(nw as int, x as int, y as int, c as int);
                    assert(target[i] == overlay_chan(*src, *g, x as int, y as int, c as int));
                    assert(v == overlay_chan(*src, *g, x as int, y as int, c as int));
                }
                data.push(v);
                c = c + 1;
            }
            x = x + 1;
        }
        y = y + 1;
    }
    let out = Raster { width: nw, height: nh, data };
    proof {
        assert(4 * ((nh as int) * (nw as int)) == 4 * (nw as int) * (nh as int))
            by (nonlinear_arith);
        assert(out.data@ =~= composite_bytes(*src, *g));
        assert forall|x: int, y: int, c: int|
            0 <= x < g.new_width && 0 <= y < g.new_height && 0 <= c < 4 implies out.chan(x, y, c)
            == overlay_chan(*src, *g, x, y, c) by {
            lemma_byte_index_decompose(nw as int, nh as int, x, y, c);
        }
    }
    out
}

/// The RGB8 bytes of an RGBA8 buffer: every pixel keeps its first three
/// channels and drops its alpha.
pub open spec fn rgb_bytes(data: Seq<u8>) -> Seq<u8> {
    Seq::new((data.len() / 4) * 3, |i: int| data[4 * (i / 3) + (i % 3)])
}

/// Drops the alpha channel of a well-formed RGBA8 raster, returning the
/// packed RGB8 bytes in the same pixel order.
pub fn drop_alpha(src: &Raster) -> (out: Vec<u8>)
    requires
        src.wf(),
    ensures
        out@ == rgb_bytes(src.data@),
        out.len() == 3 * (src.width as int) * (src.height as int),
{
    let n = src.data.len() / 4;
    proof {
        let wh = (src.width as int) * (src.height as int);
        assert(src.data@.len() == wh * 4 && wh * 3 == 3 * (src.width as int) * (
        src.height as int)) by (nonlinear_arith)
            requires
                src.data@.len() == 4 * (src.width as int) * (src.height as int),
                wh == (src.width as int) * (src.height as int),
        ;
        lemma_fundamental_div_mod_converse(src.data@.len() as int, 4, wh, 0);
    }
    let mut out: Vec<u8> = Vec::new();
    let mut p: usize = 0;
    while p < n
        invariant
            src.wf(),
            n == src.data@.len() / 4,
            4 * (n as int) == src.data@.len(),
            p <= n,
            out.len() == 3 * (p as int),
            forall|i: int| 0 <= i < out.len() ==> out[i] == src.data@[4 * (i / 3) + (i % 3)],
        decreases n - p,
    {
        proof {
            assert(4 * (p as int) + 3 < src.data@.len()) by (nonlinear_arith)
                requires
                    p < n,
                    4 * (n as int) == src.data@.len(),
            ;
        }
        let r = src.data[4 * p];
        let gr = src.data[4 * p + 1];
        let b = src.data[4 * p + 2];
        out.push(r);
        out.push(gr);
        out.push(b);
        proof {
            assert forall|i: int| 0 <= i < out.len() implies out[i] == src.data@[4 * (i / 3) + (i
                % 3)] by {
                if i >= 3 * (p as int) {
                    lemma_fundamental_div_mod_converse(i, 3, p as int, i - 3 * (p as int));
                }
            }
        }
        p = p + 1;
    }
    proof {
        lemma_fundamental_div_mod(src.data@.len() as int, 4);
        assert(out@ =~= rgb_bytes(src.data@));
    }
    out
}

} // verus!
