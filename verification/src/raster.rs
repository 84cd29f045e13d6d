//! The scanline rasterizer and the pixel-buffer type it paints into.
//!
//! A screen-space triangle is split at its middle corner (by pixel row) into
//! a flat-bottom and a flat-top half; each half walks its rows, interpolates
//! the two edge crossings and their texture coordinates linearly in `y`, and
//! fills each row left to right, interpolating `u`, `v` and the reciprocal
//! depth `invW` linearly in `x`. A pixel is painted only when its new `invW`
//! is strictly smaller than the stored one (the deliberate inverted
//! convention of this pipeline: the buffer holds reciprocal view depths and
//! ties keep the first writer); out-of-bounds pixels are skipped.
//!
//! Every function's result equals a spec-level fold over rows and pixels, so
//! the whole rasterization is a mathematical function of its inputs.
use vstd::prelude::*;

use crate::fixed::{
    clamp_s, fx_add, fx_add_s, fx_clamp, fx_div, fx_div_s, fx_from_int, fx_from_int_s, fx_idiv,
    fx_idiv_s, fx_mul, fx_mul_s, fx_neg, fx_neg_s, fx_sub, fx_sub_s, fx_trunc, fx_trunc_s, FX_ONE,
};
use crate::mesh::Triangle;

verus! {

/// A caller-owned pixel buffer: `width * height` packed `0xRRGGBBAA` pixels
/// in row-major order, top row first. Serves both as the frame's color
/// buffer and as a texture.
pub struct Image {
    pub width: usize,
    pub height: usize,
    pub pixels: Vec<u32>,
}

/// Pack four channel bytes into a `0xRRGGBBAA` pixel.
pub open spec fn rgba_s(r: u8, g: u8, b: u8, a: u8) -> u32 {
    ((r as int) * 0x100_0000 + (g as int) * 0x1_0000 + (b as int) * 0x100 + (a as int)) as u32
}

/// Pack four channel bytes into a `0xRRGGBBAA` pixel.
pub fn rgba(r: u8, g: u8, b: u8, a: u8) -> (c: u32)
    ensures
        c == rgba_s(r, g, b, a),
{
    (r as u32) * 0x100_0000 + (g as u32) * 0x1_0000 + (b as u32) * 0x100 + (a as u32)
}

impl Image {
    /// The buffer holds exactly one pixel per coordinate pair, and the
    /// dimensions are small enough that row-major index arithmetic stays
    /// exact in every integer type the pipeline uses.
    pub open spec fn wf(&self) -> bool {
        self.pixels@.len() == self.width * self.height && self.width <= 0xFFFF && self.height
            <= 0xFFFF
    }

    /// A `width * height` image filled with one color.
    pub fn gen_image_color(width: usize, height: usize, color: u32) -> (r: Image)
        requires
            width <= 0xFFFF,
            height <= 0xFFFF,
        ensures
            r.wf(),
            r.width == width,
            r.height == height,
            r.pixels@.len() == width * height,
            forall|k: int| 0 <= k < r.pixels@.len() ==> r.pixels@[k] == color,
    {
        proof {
            vstd::arithmetic::mul::lemma_mul_upper_bound(width as int, 0xFFFF, height as int, 0xFFFF);
            vstd::arithmetic::mul::lemma_mul_nonnegative(width as int, height as int);
        }
        let n: usize = width * height;
        let mut pixels: Vec<u32> = Vec::new();
        let mut k: usize = 0;
        while k < n
            invariant
                k <= n,
                pixels@.len() == k,
                forall|q: int| 0 <= q < k ==> pixels@[q] == color,
            decreases n - k,
        {
            pixels.push(color);
            k = k + 1;
        }
        Image { width, height, pixels }
    }

    /// Width in pixels.
    pub fn width(&self) -> (r: usize)
        ensures
            r == self.width,
    {
        self.width
    }

    /// Height in pixels.
    pub fn height(&self) -> (r: usize)
        ensures
            r == self.height,
    {
        self.height
    }

    /// The pixel at `(x, y)`.
    pub fn get_pixel(&self, x: usize, y: usize) -> (c: u32)
        requires
            self.wf(),
            x < self.width,
            y < self.height,
        ensures
            c == self.pixels@[y * self.width + x],
    {
        proof {
            lemma_index_fits(y as int, x as int, self.width as int, self.height as int);
        }
        self.pixels[y * self.width + x]
    }

    /// Overwrite the pixel at `(x, y)`.
    pub fn set_pixel(&mut self, x: usize, y: usize, color: u32)
        requires
            old(self).wf(),
            x < old(self).width,
            y < old(self).height,
        ensures
            final(self).wf(),
            final(self).width == old(self).width,
            final(self).height == old(self).height,
            final(self).pixels@ == old(self).pixels@.update((y * old(self).width + x) as int, color),
    {
        proof {
            lemma_index_fits(y as int, x as int, self.width as int, self.height as int);
        }
        let idx: usize = y * self.width + x;
        self.pixels.set(idx, color);
    }
}

/// Row-major indexing stays inside the buffer.
pub proof fn lemma_row_major_bound(y: int, x: int, w: int, h: int)
    by (nonlinear_arith)
    requires
        0 <= x < w,
        0 <= y < h,
    ensures
        0 <= y * w + x < w * h,
{
}

/// Row-major indexing also stays inside every integer type the pipeline
/// uses, given the dimension bounds of `Image::wf`.
pub proof fn lemma_index_fits(y: int, x: int, w: int, h: int)
    requires
        0 <= x < w,
        0 <= y < h,
        w <= 0xFFFF,
        h <= 0xFFFF,
    ensures
        0 <= y * w + x < w * h,
        w * h <= 0xFFFE_0001,
{
    lemma_row_major_bound(y, x, w, h);
    vstd::arithmetic::mul::lemma_mul_upper_bound(w, 0xFFFF, h, 0xFFFF);
}

/// Magnitude with saturation at the range bound (total on every `i64`).
pub open spec fn iabs_s(a: i64) -> i64 {
    if a < 0 {
        fx_neg_s(a)
    } else {
        a
    }
}

fn iabs(a: i64) -> (r: i64)
    ensures
        r == iabs_s(a),
{
    if a < 0 {
        fx_neg(a)
    } else {
        a
    }
}

/// One screen-space corner as the rasterizer walks it: integer pixel row
/// and column, and the fixed-point texture coordinates.
#[derive(Clone, Copy, Debug, PartialEq, Eq, Structural)]
pub struct ScreenVert {
    pub y: i64,
    pub x: i64,
    pub u: i64,
    pub v: i64,
    pub w: i64,
}

/// Corners sorted by ascending pixel row with the same three compare-swaps
/// the rasterizer performs.
pub open spec fn sort3_s(a: ScreenVert, b: ScreenVert, c: ScreenVert) -> (
    ScreenVert,
    ScreenVert,
    ScreenVert,
) {
    let p = if b.y < a.y {
        (b, a)
    } else {
        (a, b)
    };
    let q = if c.y < p.0.y {
        (c, p.0)
    } else {
        (p.0, c)
    };
    let r = if q.1.y < p.1.y {
        (q.1, p.1)
    } else {
        (p.1, q.1)
    };
    (q.0, r.0, r.1)
}

/// The two interpolated edges of one triangle half: edge `a` is the short
/// edge of this half, edge `b` the long edge from the top corner; each has
/// an anchor corner and per-row steps for `x`, `u`, `v` and `w`.
#[derive(Clone, Copy, Debug, PartialEq, Eq, Structural)]
pub struct HalfParams {
    pub ay: i64,
    pub ax: i64,
    pub au: i64,
    pub av: i64,
    pub aw: i64,
    pub dax: i64,
    pub dau: i64,
    pub dav: i64,
    pub daw: i64,
    pub by: i64,
    pub bx: i64,
    pub bu: i64,
    pub bv: i64,
    pub bw: i64,
    pub dbx: i64,
    pub dbu: i64,
    pub dbv: i64,
    pub dbw: i64,
}

/// Edge parameters from an anchor corner toward a target corner: the
/// per-row change of each interpolated quantity, zero for a flat edge.
pub open spec fn edge_steps_s(from: ScreenVert, to: ScreenVert) -> (i64, i64, i64, i64) {
    let dy = iabs_s(fx_sub_s(to.y, from.y));
    if dy != 0 {
        (
            fx_idiv_s(fx_from_int_s(fx_sub_s(to.x, from.x)), dy),
            fx_idiv_s(fx_sub_s(to.u, from.u), dy),
            fx_idiv_s(fx_sub_s(to.v, from.v), dy),
            fx_idiv_s(fx_sub_s(to.w, from.w), dy),
        )
    } else {
        (0, 0, 0, 0)
    }
}

fn edge_steps(from: &ScreenVert, to: &ScreenVert) -> (r: (i64, i64, i64, i64))
    ensures
        r == edge_steps_s(*from, *to),
{
    let dy: i64 = iabs(fx_sub(to.y, from.y));
    if dy != 0 {
        (
            fx_idiv(fx_from_int(fx_sub(to.x, from.x)), dy),
            fx_idiv(fx_sub(to.u, from.u), dy),
            fx_idiv(fx_sub(to.v, from.v), dy),
            fx_idiv(fx_sub(to.w, from.w), dy),
        )
    } else {
        (0, 0, 0, 0)
    }
}

/// The values one scanline interpolates across: the left and right pixel
/// columns, the texture coordinates at each end, and the per-pixel
/// parameter step.
#[derive(Clone, Copy, Debug, PartialEq, Eq, Structural)]
pub struct RowVals {
    pub ax: i64,
    pub bx: i64,
    pub su: i64,
    pub sv: i64,
    pub sw: i64,
    pub eu: i64,
    pub ev: i64,
    pub ew: i64,
    pub t_step: i64,
}

/// The scanline state of row `i` under `p`: each edge evaluated at `i`,
/// the ends swapped so drawing runs left to right, and the parameter step
/// `1 / (bx - ax)` (saturated for a one-pixel row, where it is never used).
pub open spec fn row_vals_s(p: HalfParams, i: i64) -> RowVals {
    let ka = fx_from_int_s(fx_sub_s(i, p.ay));
    let kb = fx_from_int_s(fx_sub_s(i, p.by));
    let ax = fx_trunc_s(fx_add_s(fx_from_int_s(p.ax), fx_mul_s(p.dax, ka)));
    let bx = fx_trunc_s(fx_add_s(fx_from_int_s(p.bx), fx_mul_s(p.dbx, kb)));
    let su = fx_add_s(p.au, fx_mul_s(p.dau, ka));
    let sv = fx_add_s(p.av, fx_mul_s(p.dav, ka));
    let sw = fx_add_s(p.aw, fx_mul_s(p.daw, ka));
    let eu = fx_add_s(p.bu, fx_mul_s(p.dbu, kb));
    let ev = fx_add_s(p.bv, fx_mul_s(p.dbv, kb));
    let ew = fx_add_s(p.bw, fx_mul_s(p.dbw, kb));
    let o = if ax > bx {
        RowVals { ax: bx, bx: ax, su: eu, sv: ev, sw: ew, eu: su, ev: sv, ew: sw, t_step: 0 }
    } else {
        RowVals { ax, bx, su, sv, sw, eu, ev, ew, t_step: 0 }
    };
    RowVals { t_step: fx_div_s(FX_ONE, fx_from_int_s(fx_sub_s(o.bx, o.ax))), ..o }
}

fn row_vals(p: &HalfParams, i: i64) -> (r: RowVals)
    ensures
        r == row_vals_s(*p, i),
        -0x8000_0000_0000 <= r.ax <= 0x8000_0000_0000,
        -0x8000_0000_0000 <= r.bx <= 0x8000_0000_0000,
        r.ax <= r.bx,
{
    let ka: i64 = fx_from_int(fx_sub(i, p.ay));
    let kb: i64 = fx_from_int(fx_sub(i, p.by));
    let ax: i64 = fx_trunc(fx_add(fx_from_int(p.ax), fx_mul(p.dax, ka)));
    let bx: i64 = fx_trunc(fx_add(fx_from_int(p.bx), fx_mul(p.dbx, kb)));
    let su: i64 = fx_add(p.au, fx_mul(p.dau, ka));
    let sv: i64 = fx_add(p.av, fx_mul(p.dav, ka));
    let sw: i64 = fx_add(p.aw, fx_mul(p.daw, ka));
    let eu: i64 = fx_add(p.bu, fx_mul(p.dbu, kb));
    let ev: i64 = fx_add(p.bv, fx_mul(p.dbv, kb));
    let ew: i64 = fx_add(p.bw, fx_mul(p.dbw, kb));
    let o: RowVals = if ax > bx {
        RowVals { ax: bx, bx: ax, su: eu, sv: ev, sw: ew, eu: su, ev: sv, ew: sw, t_step: 0 }
    } else {
        RowVals { ax, bx, su, sv, sw, eu, ev, ew, t_step: 0 }
    };
    let t_step: i64 = fx_div(FX_ONE, fx_from_int(fx_sub(o.bx, o.ax)));
    RowVals { t_step, ..o }
}

/// The color of one pixel: texture coordinates recovered by dividing the
/// interpolated `u` and `v` by the interpolated reciprocal depth
/// (perspective correction), sampled nearest-neighbor with clamping; or a
/// gray from the flat lighting intensity when there is no texture.
pub open spec fn shade_s(rv: RowVals, t: i64, texture: Option<Image>, intensity: i64) -> (
    u32,
    i64,
) {
    let one_minus = fx_sub_s(FX_ONE, t);
    let tex_u = fx_add_s(fx_mul_s(one_minus, rv.su), fx_mul_s(t, rv.eu));
    let tex_v = fx_add_s(fx_mul_s(one_minus, rv.sv), fx_mul_s(t, rv.ev));
    let tex_w = fx_add_s(fx_mul_s(one_minus, rv.sw), fx_mul_s(t, rv.ew));
    let color = match texture {
        Option::Some(img) => {
            if img.width > 0 && img.height > 0 {
                let tx = clamp_s(
                    fx_trunc_s(fx_mul_s(fx_div_s(tex_u, tex_w), fx_from_int_s(img.width as i64))),
                    0,
                    (img.width - 1) as i64,
                );
                let ty = clamp_s(
                    fx_trunc_s(fx_mul_s(fx_div_s(tex_v, tex_w), fx_from_int_s(img.height as i64))),
                    0,
                    (img.height - 1) as i64,
                );
                img.pixels@[ty * img.width + tx]
            } else {
                intensity_color_s(intensity)
            }
        },
        Option::None => intensity_color_s(intensity),
    };
    (color, tex_w)
}

/// The flat shade of an untextured pixel: the intensity clamped into a
/// channel byte, as an opaque gray.
pub open spec fn intensity_color_s(intensity: i64) -> u32 {
    let v = clamp_s(fx_trunc_s(intensity), 0, 255) as u8;
    rgba_s(v, v, v, 255)
}

fn intensity_color(intensity: i64) -> (c: u32)
    ensures
        c == intensity_color_s(intensity),
{
    let v: i64 = fx_clamp(fx_trunc(intensity), 0, 255);
    rgba(v as u8, v as u8, v as u8, 255)
}

fn shade(rv: &RowVals, t: i64, texture: &Option<Image>, intensity: i64) -> (r: (u32, i64))
    requires
        match *texture {
            Option::Some(img) => img.wf(),
            Option::None => true,
        },
    ensures
        r == shade_s(*rv, t, *texture, intensity),
{
    let one_minus: i64 = fx_sub(FX_ONE, t);
    let tex_u: i64 = fx_add(fx_mul(one_minus, rv.su), fx_mul(t, rv.eu));
    let tex_v: i64 = fx_add(fx_mul(one_minus, rv.sv), fx_mul(t, rv.ev));
    let tex_w: i64 = fx_add(fx_mul(one_minus, rv.sw), fx_mul(t, rv.ew));
    let color: u32 = match texture {
        Option::Some(img) => {
            if img.width() > 0 && img.height() > 0 {
                let tx: i64 = fx_clamp(
                    fx_trunc(fx_mul(fx_div(tex_u, tex_w), fx_from_int(img.width() as i64))),
                    0,
                    (img.width() - 1) as i64,
                );
                let ty: i64 = fx_clamp(
                    fx_trunc(fx_mul(fx_div(tex_v, tex_w), fx_from_int(img.height() as i64))),
                    0,
                    (img.height() - 1) as i64,
                );
                img.get_pixel(tx as usize, ty as usize)
            } else {
                intensity_color(intensity)
            }
        },
        Option::None => intensity_color(intensity),
    };
    (color, tex_w)
}

/// One depth-tested pixel write: inside the buffer and strictly nearer in
/// the inverted reciprocal-depth order, the color and depth are stored;
/// anywhere else both buffers stay as they are.
pub open spec fn put_pixel_s(
    w: int,
    h: int,
    pix: Seq<u32>,
    dep: Seq<i64>,
    j: int,
    i: int,
    color: u32,
    tex_w: i64,
) -> (Seq<u32>, Seq<i64>) {
    if 0 <= j < w && 0 <= i < h {
        let idx = i * w + j;
        if tex_w < dep[idx] {
            (pix.update(idx, color), dep.update(idx, tex_w))
        } else {
            (pix, dep)
        }
    } else {
        (pix, dep)
    }
}

fn put_pixel(image: &mut Image, depth: &mut Vec<i64>, j: i64, i: i64, color: u32, tex_w: i64)
    requires
        old(image).wf(),
        old(depth)@.len() == old(image).width * old(image).height,
    ensures
        final(image).wf(),
        final(image).width == old(image).width,
        final(image).height == old(image).height,
        final(depth)@.len() == old(depth)@.len(),
        (final(image).pixels@, final(depth)@) == put_pixel_s(
            old(image).width as int,
            old(image).height as int,
            old(image).pixels@,
            old(depth)@,
            j as int,
            i as int,
            color,
            tex_w,
        ),
{
    if 0 <= j && j < image.width() as i64 && 0 <= i && i < image.height() as i64 {
        proof {
            lemma_index_fits(i as int, j as int, image.width as int, image.height as int);
        }
        let idx: usize = (i as usize) * image.width() + (j as usize);
        if tex_w < depth[idx] {
            image.set_pixel(j as usize, i as usize, color);
            depth.set(idx, tex_w);
        }
    }
}

/// One scanline's pixels from column `j` to the row's right end, folding
/// the depth-tested writes left to right while the parameter `t` advances
/// by the row's step.
pub open spec fn span_s(
    rv: RowVals,
    i: i64,
    texture: Option<Image>,
    intensity: i64,
    w: int,
    h: int,
    pix: Seq<u32>,
    dep: Seq<i64>,
    j: int,
    t: i64,
) -> (Seq<u32>, Seq<i64>)
    decreases rv.bx - j + 1,
{
    if j > rv.bx {
        (pix, dep)
    } else {
        let sh = shade_s(rv, t, texture, intensity);
        let out = put_pixel_s(w, h, pix, dep, j, i as int, sh.0, sh.1);
        span_s(rv, i, texture, intensity, w, h, out.0, out.1, j + 1, fx_add_s(t, rv.t_step))
    }
}

/// Rows `i` (inclusive) to `iend` (exclusive) of one triangle half.
pub open spec fn rows_s(
    p: HalfParams,
    texture: Option<Image>,
    intensity: i64,
    w: int,
    h: int,
    pix: Seq<u32>,
    dep: Seq<i64>,
    i: int,
    iend: int,
) -> (Seq<u32>, Seq<i64>)
    decreases iend - i,
{
    if i >= iend {
        (pix, dep)
    } else {
        let rv = row_vals_s(p, i as i64);
        let out = span_s(rv, i as i64, texture, intensity, w, h, pix, dep, rv.ax as int, 0);
        rows_s(p, texture, intensity, w, h, out.0, out.1, i + 1, iend)
    }
}

fn raster_half(
    p: &HalfParams,
    ystart: i64,
    yend: i64,
    texture: &Option<Image>,
    intensity: i64,
    image: &mut Image,
    depth: &mut Vec<i64>,
)
    requires
        old(image).wf(),
        old(depth)@.len() == old(image).width * old(image).height,
        match *texture {
            Option::Some(img) => img.wf(),
            Option::None => true,
        },
        -0x8000_0000_0000 <= ystart <= 0x8000_0000_0000,
        -0x8000_0000_0000 <= yend <= 0x8000_0000_0000,
    ensures
        final(image).wf(),
        final(image).width == old(image).width,
        final(image).height == old(image).height,
        final(depth)@.len() == old(depth)@.len(),
        (final(image).pixels@, final(depth)@) == rows_s(
            *p,
            *texture,
            intensity,
            old(image).width as int,
            old(image).height as int,
            old(image).pixels@,
            old(depth)@,
            ystart as int,
            yend as int,
        ),
{
    let ghost w = image.width as int;
    let ghost h = image.height as int;
    let ghost pix0 = image.pixels@;
    let ghost dep0 = depth@;
    let mut i: i64 = ystart;
    if i >= yend {
        return ;
    }
    while i < yend
        invariant
            ystart <= i <= yend,
            -0x8000_0000_0000 <= yend <= 0x8000_0000_0000,
            image.wf(),
            image.width as int == w,
            image.height as int == h,
            depth@.len() == old(depth)@.len(),
            depth@.len() == image.width * image.height,
            match *texture {
                Option::Some(img) => img.wf(),
                Option::None => true,
            },
            rows_s(*p, *texture, intensity, w, h, pix0, dep0, ystart as int, yend as int) == rows_s(
                *p,
                *texture,
                intensity,
                w,
                h,
                image.pixels@,
                depth@,
                i as int,
                yend as int,
            ),
        decreases yend - i,
    {
        let rv: RowVals = row_vals(p, i);
        let ghost rpix0 = image.pixels@;
        let ghost rdep0 = depth@;
        let mut j: i64 = rv.ax;
        let mut t: i64 = 0;
        {
            while j <= rv.bx
                invariant
                    rv.ax <= j <= rv.bx + 1,
                    rv.bx <= 0x8000_0000_0000,
                    image.wf(),
                    image.width as int == w,
                    image.height as int == h,
                    depth@.len() == old(depth)@.len(),
                    depth@.len() == image.width * image.height,
                    match *texture {
                        Option::Some(img) => img.wf(),
                        Option::None => true,
                    },
                    span_s(rv, i, *texture, intensity, w, h, rpix0, rdep0, rv.ax as int, 0) == span_s(
                        rv,
                        i,
                        *texture,
                        intensity,
                        w,
                        h,
                        image.pixels@,
                        depth@,
                        j as int,
                        t,
                    ),
                decreases rv.bx + 1 - j,
            {
                let sh: (u32, i64) = shade(&rv, t, texture, intensity);
                put_pixel(image, depth, j, i, sh.0, sh.1);
                t = fx_add(t, rv.t_step);
                j = j + 1;
            }
        }
        proof {
            assert((image.pixels@, depth@) == span_s(
                rv,
                i,
                *texture,
                intensity,
                w,
                h,
                rpix0,
                rdep0,
                rv.ax as int,
                0,
            ));
        }
        i = i + 1;
    }
}

/// `draw_textured_triangle` as a value: the color and depth buffers after
/// rasterizing one screen-space triangle.
pub open spec fn raster_tri_s(
    tri: Triangle,
    texture: Option<Image>,
    w: int,
    h: int,
    pix: Seq<u32>,
    dep: Seq<i64>,
) -> (Seq<u32>, Seq<i64>) {
    let a = ScreenVert {
        y: fx_trunc_s(tri.v0.y),
        x: fx_trunc_s(tri.v0.x),
        u: tri.t0.u,
        v: tri.t0.v,
        w: tri.t0.w,
    };
    let b = ScreenVert {
        y: fx_trunc_s(tri.v1.y),
        x: fx_trunc_s(tri.v1.x),
        u: tri.t1.u,
        v: tri.t1.v,
        w: tri.t1.w,
    };
    let c = ScreenVert {
        y: fx_trunc_s(tri.v2.y),
        x: fx_trunc_s(tri.v2.x),
        u: tri.t2.u,
        v: tri.t2.v,
        w: tri.t2.w,
    };
    let sorted = sort3_s(a, b, c);
    let p1 = sorted.0;
    let p2 = sorted.1;
    let p3 = sorted.2;
    let e12 = edge_steps_s(p1, p2);
    let e13 = edge_steps_s(p1, p3);
    let e23 = edge_steps_s(p2, p3);
    let half1 = HalfParams {
        ay: p1.y,
        ax: p1.x,
        au: p1.u,
        av: p1.v,
        aw: p1.w,
        dax: e12.0,
        dau: e12.1,
        dav: e12.2,
        daw: e12.3,
        by: p1.y,
        bx: p1.x,
        bu: p1.u,
        bv: p1.v,
        bw: p1.w,
        dbx: e13.0,
        dbu: e13.1,
        dbv: e13.2,
        dbw: e13.3,
    };
    let half2 = HalfParams {
        ay: p2.y,
        ax: p2.x,
        au: p2.u,
        av: p2.v,
        aw: p2.w,
        dax: e23.0,
        dau: e23.1,
        dav: e23.2,
        daw: e23.3,
        ..half1
    };
    let out1 = rows_s(half1, texture, tri.intensity, w, h, pix, dep, p1.y as int, p2.y as int);
    rows_s(half2, texture, tri.intensity, w, h, out1.0, out1.1, p2.y as int, p3.y as int)
}

/// Rasterize one screen-space triangle into the color and depth buffers:
/// scanline fill of its two halves with perspective-correct texture
/// sampling and the strict inverted depth test. The buffers afterwards are
/// exactly `raster_tri_s` of the buffers before.
pub fn draw_textured_triangle(
    triangle: &Triangle,
    image: &mut Image,
    texture: &Option<Image>,
    depth_buffer: &mut Vec<i64>,
)
    requires
        old(image).wf(),
        old(depth_buffer)@.len() == old(image).width * old(image).height,
        match *texture {
            Option::Some(img) => img.wf(),
            Option::None => true,
        },
    ensures
        final(image).wf(),
        final(image).width == old(image).width,
        final(image).height == old(image).height,
        final(depth_buffer)@.len() == old(depth_buffer)@.len(),
        (final(image).pixels@, final(depth_buffer)@) == raster_tri_s(
            *triangle,
            *texture,
            old(image).width as int,
            old(image).height as int,
            old(image).pixels@,
            old(depth_buffer)@,
        ),
{
    let tri = *triangle;
    let a = ScreenVert {
        y: fx_trunc(tri.v0.y),
        x: fx_trunc(tri.v0.x),
        u: tri.t0.u,
        v: tri.t0.v,
        w: tri.t0.w,
    };
    let b = ScreenVert {
        y: fx_trunc(tri.v1.y),
        x: fx_trunc(tri.v1.x),
        u: tri.t1.u,
        v: tri.t1.v,
        w: tri.t1.w,
    };
    let c = ScreenVert {
        y: fx_trunc(tri.v2.y),
        x: fx_trunc(tri.v2.x),
        u: tri.t2.u,
        v: tri.t2.v,
        w: tri.t2.w,
    };
    let s1: (ScreenVert, ScreenVert) = if b.y < a.y {
        (b, a)
    } else {
        (a, b)
    };
    let s2: (ScreenVert, ScreenVert) = if c.y < s1.0.y {
        (c, s1.0)
    } else {
        (s1.0, c)
    };
    let s3: (ScreenVert, ScreenVert) = if s2.1.y < s1.1.y {
        (s2.1, s1.1)
    } else {
        (s1.1, s2.1)
    };
    let p1: ScreenVert = s2.0;
    let p2: ScreenVert = s3.0;
    let p3: ScreenVert = s3.1;
    proof {
        assert(sort3_s(a, b, c) == (p1, p2, p3));
    }
    let e12: (i64, i64, i64, i64) = edge_steps(&p1, &p2);
    let e13: (i64, i64, i64, i64) = edge_steps(&p1, &p3);
    let e23: (i64, i64, i64, i64) = edge_steps(&p2, &p3);
    let half1 = HalfParams {
        ay: p1.y,
        ax: p1.x,
        au: p1.u,
        av: p1.v,
        aw: p1.w,
        dax: e12.0,
        dau: e12.1,
        dav: e12.2,
        daw: e12.3,
        by: p1.y,
        bx: p1.x,
        bu: p1.u,
        bv: p1.v,
        bw: p1.w,
        dbx: e13.0,
        dbu: e13.1,
        dbv: e13.2,
        dbw: e13.3,
    };
    let half2 = HalfParams {
        ay: p2.y,
        ax: p2.x,
        au: p2.u,
        av: p2.v,
        aw: p2.w,
        dax: e23.0,
        dau: e23.1,
        dav: e23.2,
        daw: e23.3,
        ..half1
    };
    raster_half(&half1, p1.y, p2.y, texture, tri.intensity, image, depth_buffer);
    raster_half(&half2, p2.y, p3.y, texture, tri.intensity, image, depth_buffer);
}

} // verus!
