use vstd::arithmetic::div_mod::{
    lemma_fundamental_div_mod, lemma_fundamental_div_mod_converse,
};
use vstd::prelude::*;

use crate::complex::Complex;
use crate::fp::{div_bits, fdiv, fsub, lerp, spec_lerp, sub_bits, u32_bits, Double, F_ONE};
use crate::fp::double_of_u32;
use crate::kernel::{mandelbrot, spec_escape_steps, MandelbrotConfig};

verus! {

/// The plane-space rectangle mapped onto the pixel grid.
#[derive(Clone, Copy, PartialEq, Eq, Structural, Debug)]
pub struct Viewport {
    pub xmin: Double,
    pub xmax: Double,
    pub ymin: Double,
    pub ymax: Double,
}

/// One finished pixel: its coordinate and its RGB color (opacity is always
/// full and is added when the pixel enters the color buffer).
#[derive(Clone, Copy, PartialEq, Eq, Structural, Debug)]
pub struct PixelResult {
    pub x: u32,
    pub y: u32,
    pub r: u8,
    pub g: u8,
    pub b: u8,
}

/// The palette slice start for a step count: `3 * steps`, clamped from above
/// so that three bytes can always be read. The sentinel 0 maps to the first
/// sample.
pub open spec fn spec_palette_index(steps: u32, palette_len: int) -> int {
    if 3 * steps > palette_len - 3 {
        palette_len - 3
    } else {
        3 * steps
    }
}

/// For any step count the palette slice start lies within
/// `[0, palette_len - 3]`, so reading three bytes from it is safe.
pub proof fn lemma_palette_index_safe(steps: u32, palette_len: int)
    requires
        palette_len >= 3,
    ensures
        0 <= spec_palette_index(steps, palette_len) <= palette_len - 3,
{
}

/// The palette slice start for a step count.
pub fn palette_index(steps: u32, palette_len: usize) -> (idx: usize)
    requires
        palette_len >= 3,
    ensures
        idx as int == spec_palette_index(steps, palette_len as int),
        idx + 3 <= palette_len,
{
    let scaled: u64 = 3 * (steps as u64);
    let limit: u64 = (palette_len as u64) - 3;
    if scaled > limit {
        palette_len - 3
    } else {
        scaled as usize
    }
}

/// Bit pattern of the plane x coordinate of pixel column `x`: linear
/// interpolation across the viewport at `x / (width - 1)`.
pub open spec fn spec_plane_x(x: u32, width: u32, vp: Viewport) -> u64 {
    spec_lerp(
        vp.xmin.bits,
        vp.xmax.bits,
        div_bits(u32_bits(x), sub_bits(u32_bits(width), F_ONE)),
    )
}

/// Bit pattern of the plane y coordinate of pixel row `y`.
pub open spec fn spec_plane_y(y: u32, height: u32, vp: Viewport) -> u64 {
    spec_lerp(
        vp.ymin.bits,
        vp.ymax.bits,
        div_bits(u32_bits(y), sub_bits(u32_bits(height), F_ONE)),
    )
}

/// The plane point a pixel is mapped to.
pub open spec fn spec_pixel_point(x: u32, y: u32, width: u32, height: u32, vp: Viewport) -> Complex {
    Complex::spec_new(spec_plane_x(x, width, vp), spec_plane_y(y, height, vp))
}

/// The escape-step count of a pixel.
pub open spec fn spec_pixel_steps(
    x: u32,
    y: u32,
    width: u32,
    height: u32,
    vp: Viewport,
    cfg: MandelbrotConfig,
) -> u32 {
    spec_escape_steps(spec_pixel_point(x, y, width, height, vp), cfg)
}

/// The RGB triple a pixel receives from the palette.
pub open spec fn spec_pixel_rgb(
    x: u32,
    y: u32,
    width: u32,
    height: u32,
    vp: Viewport,
    palette: Seq<u8>,
    cfg: MandelbrotConfig,
) -> (u8, u8, u8) {
    let idx = spec_palette_index(
        spec_pixel_steps(x, y, width, height, vp, cfg),
        palette.len() as int,
    );
    (palette[idx], palette[idx + 1], palette[idx + 2])
}

/// The RGBA bytes a pixel receives: the palette triple at full opacity.
pub open spec fn spec_pixel_rgba(
    x: u32,
    y: u32,
    width: u32,
    height: u32,
    vp: Viewport,
    palette: Seq<u8>,
    cfg: MandelbrotConfig,
) -> (u8, u8, u8, u8) {
    let rgb = spec_pixel_rgb(x, y, width, height, vp, palette, cfg);
    (rgb.0, rgb.1, rgb.2, 255u8)
}

/// Maps one pixel to its plane point, runs the kernel, and resolves its
/// color from the palette.
pub fn eval_pixel(
    x: u32,
    y: u32,
    width: u32,
    height: u32,
    vp: &Viewport,
    palette: &Vec<u8>,
    cfg: &MandelbrotConfig,
) -> (r: PixelResult)
    requires
        width >= 2,
        height >= 2,
        x < width,
        y < height,
        palette@.len() >= 3,
        cfg.max_steps >= 1,
    ensures
        r.x == x,
        r.y == y,
        (r.r, r.g, r.b) == spec_pixel_rgb(x, y, width, height, *vp, palette@, *cfg),
{
    let one = Double { bits: F_ONE };
    let ux = fdiv(double_of_u32(x), fsub(double_of_u32(width), one));
    let uy = fdiv(double_of_u32(y), fsub(double_of_u32(height), one));
    let point = Complex::new(lerp(vp.xmin, vp.xmax, ux), lerp(vp.ymin, vp.ymax, uy));
    let steps = mandelbrot(point, cfg);
    let idx = palette_index(steps, palette.len());
    PixelResult { x, y, r: palette[idx], g: palette[idx + 1], b: palette[idx + 2] }
}

/// The full pixel coordinate list in row-major order: entry `i` is
/// `(i % width, i / width)`.
#[verifier::loop_isolation(false)]
pub fn pixel_coords(width: u32, height: u32) -> (r: Vec<(u32, u32)>)
    requires
        width >= 1,
        height >= 1,
        (width as int) * (height as int) <= usize::MAX as int,
    ensures
        r@.len() == (width as int) * (height as int),
        forall|i: int|
            0 <= i < r@.len() ==> r@[i].0 as int == i % (width as int) && r@[i].1 as int == i / (
            width as int),
{
    let mut coords: Vec<(u32, u32)> = Vec::new();
    let mut y: u32 = 0;
    while y < height
        invariant
            y <= height,
            coords@.len() == (y as int) * (width as int),
            forall|i: int|
                0 <= i < coords@.len() ==> coords@[i].0 as int == i % (width as int)
                    && coords@[i].1 as int == i / (width as int),
        decreases height - y,
    {
        proof {
            assert((y as int) * (width as int) + (width as int) <= (height as int) * (width as int))
                by (nonlinear_arith)
                requires
                    0 <= y as int,
                    (y as int) < (height as int),
                    width as int >= 1,
            ;
        }
        let mut x: u32 = 0;
        while x < width
            invariant
                x <= width,
                coords@.len() == (y as int) * (width as int) + (x as int),
                forall|i: int|
                    0 <= i < coords@.len() ==> coords@[i].0 as int == i % (width as int)
                        && coords@[i].1 as int == i / (width as int),
            decreases width - x,
        {
            proof {
                lemma_fundamental_div_mod_converse(
                    (y as int) * (width as int) + (x as int),
                    width as int,
                    y as int,
                    x as int,
                );
            }
            coords.push((x, y));
            x = x + 1;
        }
        proof {
            assert((y as int + 1) * (width as int) == (y as int) * (width as int) + (width as int))
                by (nonlinear_arith);
        }
        y = y + 1;
    }
    proof {
        assert(coords@.len() == (height as int) * (width as int));
    }
    coords
}

/// Evaluates the contiguous chunk `[start, end)` of the coordinate list:
/// the body of one worker. Reads only immutable inputs and returns one
/// result per coordinate, in order.
pub fn eval_chunk(
    coords: &Vec<(u32, u32)>,
    start: usize,
    end: usize,
    width: u32,
    height: u32,
    vp: &Viewport,
    palette: &Vec<u8>,
    cfg: &MandelbrotConfig,
) -> (r: Vec<PixelResult>)
    requires
        start <= end <= coords@.len(),
        width >= 2,
        height >= 2,
        palette@.len() >= 3,
        cfg.max_steps >= 1,
        forall|i: int| start <= i < end ==> coords@[i].0 < width && coords@[i].1 < height,
    ensures
        r@.len() == end - start,
        forall|i: int|
            0 <= i < r@.len() ==> r@[i].x == coords@[start + i].0 && r@[i].y == coords@[start
                + i].1 && (r@[i].r, r@[i].g, r@[i].b) == spec_pixel_rgb(
                coords@[start + i].0,
                coords@[start + i].1,
                width,
                height,
                *vp,
                palette@,
                *cfg,
            ),
{
    let mut results: Vec<PixelResult> = Vec::new();
    let mut i: usize = start;
    while i < end
        invariant
            start <= i <= end <= coords@.len(),
            results@.len() == i - start,
            width >= 2,
            height >= 2,
            palette@.len() >= 3,
            cfg.max_steps >= 1,
            forall|j: int| start <= j < end ==> coords@[j].0 < width && coords@[j].1 < height,
            forall|j: int|
                0 <= j < results@.len() ==> results@[j].x == coords@[start + j].0
                    && results@[j].y == coords@[start + j].1 && (
                results@[j].r,
                results@[j].g,
                results@[j].b,
                ) == spec_pixel_rgb(
                    coords@[start + j].0,
                    coords@[start + j].1,
                    width,
                    height,
                    *vp,
                    palette@,
                    *cfg,
                ),
        decreases end - i,
    {
        let (cx, cy) = coords[i];
        let p = eval_pixel(cx, cy, width, height, vp, palette, cfg);
        results.push(p);
        i = i + 1;
    }
    results
}

/// Row-major flat index of a pixel coordinate.
pub open spec fn flat_index(x: int, y: int, width: int) -> int {
    y * width + x
}

/// The coordinate list covers the grid without duplicates: two different
/// positions in the list always hold two different pixel coordinates.
pub proof fn lemma_pixel_coords_distinct(coords: Seq<(u32, u32)>, width: int, i: int, j: int)
    requires
        width >= 1,
        0 <= i < coords.len(),
        0 <= j < coords.len(),
        i != j,
        coords[i].0 as int == i % width && coords[i].1 as int == i / width,
        coords[j].0 as int == j % width && coords[j].1 as int == j / width,
    ensures
        coords[i] != coords[j],
{
    if coords[i] == coords[j] {
        lemma_fundamental_div_mod(i, width);
        lemma_fundamental_div_mod(j, width);
    }
}

proof fn lemma_flat_lt(x: int, y: int, w: int, h: int)
    requires
        0 <= x < w,
        0 <= y < h,
    ensures
        0 <= flat_index(x, y, w),
        flat_index(x, y, w) < h * w,
{
    assert(y * w + x < h * w) by (nonlinear_arith)
        requires
            0 <= x < w,
            0 <= y,
            y < h,
    ;
}

proof fn lemma_flat_injective(x1: int, y1: int, x2: int, y2: int, w: int)
    requires
        0 <= x1 < w,
        0 <= x2 < w,
        0 <= y1,
        0 <= y2,
        flat_index(x1, y1, w) == flat_index(x2, y2, w),
    ensures
        x1 == x2,
        y1 == y2,
{
    assert(x1 == x2 && y1 == y2) by (nonlinear_arith)
        requires
            0 <= x1 < w,
            0 <= x2 < w,
            0 <= y1,
            0 <= y2,
            y1 * w + x1 == y2 * w + x2,
    ;
}

/// The width x height grid of RGBA pixels a frame is assembled into:
/// row-major, four bytes per pixel.
pub struct ColorBuffer {
    pub width: u32,
    pub height: u32,
    pub data: Vec<u8>,
}

impl ColorBuffer {
    /// The buffer holds exactly four bytes for each of its pixels.
    pub open spec fn wf(self) -> bool {
        self.data@.len() == 4 * (self.width as int) * (self.height as int)
    }

    /// The RGBA bytes stored for a pixel.
    pub open spec fn rgba_at(self, x: int, y: int) -> (u8, u8, u8, u8) {
        let o = 4 * flat_index(x, y, self.width as int);
        (self.data@[o], self.data@[o + 1], self.data@[o + 2], self.data@[o + 3])
    }

    /// A zero-filled buffer for the given dimensions.
    pub fn new(width: u32, height: u32) -> (r: ColorBuffer)
        requires
            4 * (width as int) * (height as int) <= usize::MAX as int,
        ensures
            r.wf(),
            r.width == width,
            r.height == height,
    {
        proof {
            assert((width as int) * (height as int) <= 4 * (width as int) * (height as int)
                && 4 * ((width as int) * (height as int)) == 4 * (width as int) * (height as int))
                by (nonlinear_arith)
                requires
                    width as int >= 0,
                    height as int >= 0,
            ;
        }
        let wh: usize = (width as usize) * (height as usize);
        let len: usize = 4 * wh;
        let mut data: Vec<u8> = Vec::new();
        let mut i: usize = 0;
        while i < len
            invariant
                i <= len,
                data@.len() == i,
            decreases len - i,
        {
            data.push(0);
            i = i + 1;
        }
        ColorBuffer { width, height, data }
    }

    /// Inserts one finished pixel at its coordinate, at full opacity. Every
    /// other pixel keeps its bytes, so aggregation order cannot matter.
    pub fn put_pixel(&mut self, p: PixelResult)
        requires
            old(self).wf(),
            p.x < old(self).width,
            p.y < old(self).height,
        ensures
            final(self).wf(),
            final(self).width == old(self).width,
            final(self).height == old(self).height,
            final(self).rgba_at(p.x as int, p.y as int) == (p.r, p.g, p.b, 255u8),
            forall|x: int, y: int|
                0 <= x < old(self).width && 0 <= y < old(self).height && !(x == p.x && y == p.y)
                    ==> final(self).rgba_at(x, y) == old(self).rgba_at(x, y),
    {
        let n: usize = self.data.len();
        proof {
            assert(4 * ((p.y as int) * (self.width as int) + (p.x as int)) + 3 < 4 * (
            self.width as int) * (self.height as int)) by (nonlinear_arith)
                requires
                    0 <= p.x as int,
                    (p.x as int) < (self.width as int),
                    0 <= p.y as int,
                    (p.y as int) < (self.height as int),
            ;
        }
        let f: usize = (p.y as usize) * (self.width as usize) + (p.x as usize);
        let o: usize = 4 * f;
        self.data.set(o, p.r);
        self.data.set(o + 1, p.g);
        self.data.set(o + 2, p.b);
        self.data.set(o + 3, 255);
        proof {
            assert forall|x: int, y: int|
                0 <= x < old(self).width && 0 <= y < old(self).height && !(x == p.x && y == p.y)
                    implies self.rgba_at(x, y) == old(self).rgba_at(x, y) by {
                let w = old(self).width as int;
                let h = old(self).height as int;
                let fa = flat_index(x, y, w);
                let fp = flat_index(p.x as int, p.y as int, w);
                if fa == fp {
                    lemma_flat_injective(x, y, p.x as int, p.y as int, w);
                }
                assert(fa != fp);
                assert(fp == f as int);
                assert(0 <= 4 * fa && 4 * fa + 3 < 4 * w * h) by (nonlinear_arith)
                    requires
                        0 <= x < w,
                        0 <= y < h,
                        fa == y * w + x,
                ;
            }
        }
    }
}

/// Evaluates the whole pixel grid: builds the row-major coordinate list,
/// walks it in contiguous chunks of `chunk_size` (each chunk evaluated by
/// the pure worker `eval_chunk`), and aggregates every result into the color
/// buffer. The finished buffer holds exactly one result for each of the
/// width x height coordinates.
#[verifier::loop_isolation(false)]
pub fn render_raster(
    width: u32,
    height: u32,
    vp: &Viewport,
    palette: &Vec<u8>,
    cfg: &MandelbrotConfig,
    chunk_size: usize,
) -> (buf: ColorBuffer)
    requires
        width >= 2,
        height >= 2,
        palette@.len() >= 3,
        cfg.max_steps >= 1,
        chunk_size >= 1,
        4 * (width as int) * (height as int) <= usize::MAX as int,
    ensures
        buf.wf(),
        buf.width == width,
        buf.height == height,
        forall|x: int, y: int|
            0 <= x < width && 0 <= y < height ==> buf.rgba_at(x, y) == spec_pixel_rgba(
                x as u32,
                y as u32,
                width,
                height,
                *vp,
                palette@,
                *cfg,
            ),
{
    proof {
        assert((width as int) * (height as int) <= 4 * (width as int) * (height as int))
            by (nonlinear_arith)
            requires
                width as int >= 0,
                height as int >= 0,
        ;
    }
    let coords = pixel_coords(width, height);
    let total: usize = coords.len();
    let mut buf = ColorBuffer::new(width, height);
    let mut start: usize = 0;

    proof {
        assert forall|i: int| 0 <= i < total implies coords@[i].0 < width && coords@[i].1
            < height by {
            vstd::arithmetic::div_mod::lemma_mod_bound(i, width as int);
            assert(coords@[i].1 as int == i / (width as int));
            assert(i < (width as int) * (height as int));
            assert(i / (width as int) < height as int) by (nonlinear_arith)
                requires
                    0 <= i,
                    (i as int) < (width as int) * (height as int),
                    width as int >= 1,
            ;
        }
    }

    while start < total
        invariant
            start <= total,
            buf.wf(),
            buf.width == width,
            buf.height == height,
            forall|x: int, y: int|
                0 <= x < width && 0 <= y < height && flat_index(x, y, width as int) < start
                    ==> buf.rgba_at(x, y) == spec_pixel_rgba(
                    x as u32,
                    y as u32,
                    width,
                    height,
                    *vp,
                    palette@,
                    *cfg,
                ),
        decreases total - start,
    {
        let end: usize = if total - start < chunk_size {
            total
        } else {
            start + chunk_size
        };
        let results = eval_chunk(&coords, start, end, width, height, vp, palette, cfg);
        let mut j: usize = 0;
        while j < results.len()
            invariant
                j <= results@.len(),
                results@.len() == end - start,
                start <= end <= total,
                buf.wf(),
                buf.width == width,
                buf.height == height,
                forall|x: int, y: int|
                    0 <= x < width && 0 <= y < height && flat_index(x, y, width as int) < start + j
                        ==> buf.rgba_at(x, y) == spec_pixel_rgba(
                        x as u32,
                        y as u32,
                        width,
                        height,
                        *vp,
                        palette@,
                        *cfg,
                    ),
            decreases results@.len() - j,
        {
            let p = results[j];
            proof {
                let i = start + j;
                assert(p == results@[j as int]);
                assert(p.x == coords@[i as int].0 && p.y == coords@[i as int].1);
                vstd::arithmetic::div_mod::lemma_mod_bound(i as int, width as int);
                lemma_fundamental_div_mod(i as int, width as int);
                assert((p.y as int) * (width as int) == (width as int) * (p.y as int))
                    by (nonlinear_arith);
                assert(flat_index(p.x as int, p.y as int, width as int) == i);
            }
            buf.put_pixel(p);
            proof {
                let i = start + j;
                assert forall|x: int, y: int|
                    0 <= x < width && 0 <= y < height && flat_index(x, y, width as int) < start + j
                        + 1 implies buf.rgba_at(x, y) == spec_pixel_rgba(
                    x as u32,
                    y as u32,
                    width,
                    height,
                    *vp,
                    palette@,
                    *cfg,
                ) by {
                    if flat_index(x, y, width as int) == i {
                        lemma_flat_injective(x, y, p.x as int, p.y as int, width as int);
                    }
                }
            }
            j = j + 1;
        }
        start = end;
    }

    proof {
        assert forall|x: int, y: int| 0 <= x < width && 0 <= y < height implies buf.rgba_at(x, y)
            == spec_pixel_rgba(x as u32, y as u32, width, height, *vp, palette@, *cfg) by {
            lemma_flat_lt(x, y, width as int, height as int);
            assert((height as int) * (width as int) == (width as int) * (height as int))
                by (nonlinear_arith);
        }
    }
    buf
}

} // verus!
