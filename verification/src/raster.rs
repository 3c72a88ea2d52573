//! The rasterizer: a display-processor state object (current texture
//! image, eight tile descriptors, 4 KiB of texture memory) and the draw
//! operations that scan-convert triangles and rectangles into a
//! caller-supplied RGBA framebuffer of 320 pixels per row.
//!
//! Every draw's effect on the framebuffer is pinned down by a
//! scanline-by-scanline specification of the edge walk. All fixed-point
//! stepping is wraparound 32-bit arithmetic, and no draw ever reads or
//! writes outside the framebuffer or texture memory: a pixel whose
//! byte index would fall outside the buffer is skipped.

use vstd::prelude::*;

use crate::commands::ImageReference;
use crate::commands::Rectangle;
use crate::commands::Tile;
use crate::fixed::models_of;
use crate::fixed::Coefficient;
use crate::fixed::CoefficientModel;
use crate::fixed::EdgeCoefficients;
use crate::fixed::ShadeCoefficients;
use crate::fixed::TextureCoefficients;

verus! {

/// Wraparound 32-bit signed addition, the stepping arithmetic of every
/// interpolated quantity.
pub open spec fn wrap_add(a: i32, b: i32) -> i32 {
    vstd::wrapping::i32_specs::wrapping_add(a, b)
}

/// The high byte of a 16.16 color channel, clamped to zero for
/// negative values.
pub open spec fn spec_channel_byte(color: i32) -> u8 {
    if color < 0 {
        0
    } else {
        (color >> 16) as u8
    }
}

/// Converts an interpolated 16.16 color channel to its 8-bit value.
fn i32_to_u8_color(color: i32) -> (r: u8)
    ensures
        r == spec_channel_byte(color),
{
    if color < 0 {
        0
    } else {
        #[verifier::truncate] ((color >> 16) as u8)
    }
}

/// Packs the four interpolated channels into one RGBA8 word: the
/// clamped high byte of each of red, green, blue and alpha, most
/// significant first.
pub open spec fn spec_rgba(red: i32, green: i32, blue: i32, alpha: i32) -> u32 {
    ((spec_channel_byte(red) as u32) << 24) | ((spec_channel_byte(green) as u32) << 16) | ((
    spec_channel_byte(blue) as u32) << 8) | (spec_channel_byte(alpha) as u32)
}

/// Packs interpolated channels into an RGBA8 word.
fn to_rgba(red: i32, green: i32, blue: i32, alpha: i32) -> (r: u32)
    ensures
        r == spec_rgba(red, green, blue, alpha),
{
    ((i32_to_u8_color(red) as u32) << 24) | ((i32_to_u8_color(green) as u32) << 16) | ((
    i32_to_u8_color(blue) as u32) << 8) | (i32_to_u8_color(alpha) as u32)
}

/// One pixel write at `(x, scanline)`: the four color bytes land at
/// `(scanline * 320 + x) * 4`, most significant first; a pixel whose
/// bytes would not fit inside the buffer is skipped.
pub open spec fn spec_write_pixel(fb: Seq<u8>, scanline: int, x: int, color: u32) -> Seq<u8> {
    let idx = (scanline * 320 + x) * 4;
    if 0 <= idx && idx + 4 <= fb.len() {
        fb.update(idx, (color >> 24) as u8).update(idx + 1, (color >> 16) as u8).update(
            idx + 2,
            (color >> 8) as u8,
        ).update(idx + 3, color as u8)
    } else {
        fb
    }
}

/// Writes one pixel's four color bytes, skipping the write when the
/// bytes would fall outside the buffer.
fn put_pixel(fb: &mut Vec<u8>, scanline: usize, x: usize, color: u32)
    requires
        scanline < 0x10000,
    ensures
        final(fb)@ == spec_write_pixel(old(fb)@, scanline as int, x as int, color),
{
    let len = fb.len();
    let base = scanline * 320;
    if x <= len && base <= len - x && len >= 4 {
        let p = base + x;
        if p <= (len - 4) / 4 {
            let idx = p * 4;
            proof {
                assert(4 * ((len - 4) / 4) <= len - 4) by (nonlinear_arith);
                assert(idx + 4 <= len);
            }
            fb[idx] = (color >> 24) as u8;
            fb[idx + 1] = (color >> 16) as u8;
            fb[idx + 2] = (color >> 8) as u8;
            fb[idx + 3] = color as u8;
        } else {
            proof {
                assert((len - 4) / 4 * 4 + 3 >= len - 4) by (nonlinear_arith);
                assert((scanline as int * 320 + x as int) * 4 + 4 > len);
            }
        }
    } else {
        proof {
            assert((scanline as int * 320 + x as int) * 4 + 4 > len || x > len);
            if x > len {
                assert((scanline as int * 320 + x as int) * 4 + 4 > len);
            }
        }
    }
}

/// Fills the inclusive pixel span `x_start ..= x_stop` of one scanline
/// with a flat color, pixel by pixel; the empty span (start past stop)
/// leaves the buffer as it was.
pub open spec fn spec_fill_span(fb: Seq<u8>, scanline: int, lo: int, hi: int, color: u32) -> Seq<
    u8,
>
    decreases hi + 1 - lo,
{
    if lo > hi {
        fb
    } else {
        spec_fill_span(spec_write_pixel(fb, scanline, lo, color), scanline, lo + 1, hi, color)
    }
}

/// A span that starts at or past the buffer's byte count writes
/// nothing: every one of its pixel indices falls outside the buffer.
proof fn lemma_fill_span_beyond(fb: Seq<u8>, scanline: int, lo: int, hi: int, color: u32)
    requires
        scanline >= 0,
        lo >= fb.len(),
    ensures
        spec_fill_span(fb, scanline, lo, hi, color) == fb,
    decreases hi + 1 - lo,
{
    if lo > hi {
    } else {
        assert(spec_write_pixel(fb, scanline, lo, color) == fb);
        lemma_fill_span_beyond(fb, scanline, lo + 1, hi, color);
    }
}

/// The state object of the display processor: the current texture
/// image, the eight tile descriptors with the active-tile selector, and
/// the 4 KiB texture memory.
pub struct RDP {
    pub texture: ImageReference,
    pub tiles: [Tile; 8],
    pub active_tile: u8,
    pub texmem: [u8; 4096],
}

impl RDP {
    /// Well-formed state: the active-tile selector names one of the
    /// eight tiles.
    pub open spec fn wf(self) -> bool {
        self.active_tile < 8
    }

    /// Fills every pixel of the inclusive span with the flat color.
    #[verifier::loop_isolation(false)]
    fn fill_between_pixels(
        &self,
        fb: &mut Vec<u8>,
        x_start: usize,
        x_stop: usize,
        scanline: usize,
        color: u32,
    )
        requires
            scanline < 0x10000,
        ensures
            final(fb)@ == spec_fill_span(old(fb)@, scanline as int, x_start as int, x_stop as int, color),
    {
        if x_start > x_stop {
            return ;
        }
        let len = fb.len();
        if x_start >= len {
            proof {
                lemma_fill_span_beyond(fb@, scanline as int, x_start as int, x_stop as int, color);
            }
            return ;
        }
        let stop = if x_stop < len {
            x_stop
        } else {
            len - 1
        };
        let mut x = x_start;
        while x <= stop
            invariant
                x_start <= x <= stop + 1,
                stop < len,
                fb@.len() == len,
                spec_fill_span(old(fb)@, scanline as int, x_start as int, x_stop as int, color)
                    == spec_fill_span(fb@, scanline as int, x as int, x_stop as int, color),
            decreases stop + 1 - x,
        {
            put_pixel(fb, scanline, x, color);
            x = x + 1;
        }
        proof {
            if x_stop >= len {
                lemma_fill_span_beyond(fb@, scanline as int, x as int, x_stop as int, color);
            }
        }
    }

    /// One phase of the flat-fill edge walk: scanlines `scanline` up to
    /// (but not reaching) `end`, spanning from the high edge `hx` to
    /// the second edge `x2`, both stepped by their slopes after each
    /// line. Yields the framebuffer and the high edge position left
    /// when the phase ends.
    pub open spec fn spec_fill_walk(
        fb: Seq<u8>,
        scanline: int,
        end: int,
        hx: i32,
        x2: i32,
        dh: i32,
        d2: i32,
        right_major: bool,
        color: u32,
    ) -> (Seq<u8>, i32)
        decreases end - scanline,
    {
        if scanline >= end {
            (fb, hx)
        } else {
            let hx_pix = hx >> 16;
            let x2_pix = x2 >> 16;
            let left = if right_major {
                hx_pix
            } else {
                x2_pix
            };
            let right = if right_major {
                x2_pix
            } else {
                hx_pix
            };
            let fb1 = spec_fill_span(
                fb,
                scanline,
                (left as usize) as int,
                (right as usize) as int,
                color,
            );
            Self::spec_fill_walk(
                fb1,
                scanline + 1,
                end,
                wrap_add(hx, dh),
                wrap_add(x2, d2),
                dh,
                d2,
                right_major,
                color,
            )
        }
    }

    /// The whole flat fill: scanlines walk from `yh` (at whole-pixel
    /// granularity) to `ym` against the middle edge, then to `yl`
    /// against the low edge, with the high edge position carried
    /// across the two phases.
    pub open spec fn spec_fill_tri(fb: Seq<u8>, e: EdgeCoefficients, color: u32) -> Seq<u8> {
        let start = (e.yh / 4) as int;
        let mid = (e.ym / 4) as int;
        let phase1 = Self::spec_fill_walk(
            fb,
            start,
            mid,
            e.spec_xh(),
            e.spec_xm(),
            e.spec_dx_h_dy(),
            e.spec_dx_m_dy(),
            e.right_major,
            color,
        );
        let start2 = if start > mid {
            start
        } else {
            mid
        };
        let phase2 = Self::spec_fill_walk(
            phase1.0,
            start2,
            (e.yl / 4) as int,
            phase1.1,
            e.spec_xl(),
            e.spec_dx_h_dy(),
            e.spec_dx_l_dy(),
            e.right_major,
            color,
        );
        phase2.0
    }

    /// Rasterizes a flat-colored triangle: walks scanlines from the
    /// top Y bound (rounded down to whole pixels) to the middle, then
    /// the bottom Y bound, filling each span between the high edge and
    /// the middle (then low) edge, with `right_major` choosing which
    /// bound is left. Edge positions step by their slopes each
    /// scanline in wraparound fixed-point arithmetic.
    #[verifier::loop_isolation(false)]
    pub fn draw_fill_tri(&self, fb: &mut Vec<u8>, coefficients: EdgeCoefficients, color: u32)
        ensures
            final(fb)@ == Self::spec_fill_tri(old(fb)@, coefficients, color),
    {
        let yh_whole_pixel = (coefficients.yh() / 4) * 4;
        let mut scanline: u16 = yh_whole_pixel / 4;
        let mut hx = coefficients.xh();
        let mut mx = coefficients.xm();
        let ym_4: u16 = coefficients.ym() / 4;
        let yl_4: u16 = coefficients.yl() / 4;
        let start0: u16 = scanline;
        let dh = coefficients.dx_h_dy();
        let dm = coefficients.dx_m_dy();
        let dl = coefficients.dx_l_dy();
        let rm = coefficients.right_major;
        let ghost g1 = Self::spec_fill_walk(
            old(fb)@,
            start0 as int,
            ym_4 as int,
            hx,
            mx,
            dh,
            dm,
            rm,
            color,
        );
        while scanline < ym_4
            invariant
                start0 <= ym_4 ==> start0 <= scanline <= ym_4,
                start0 > ym_4 ==> scanline == start0,
                g1 == Self::spec_fill_walk(
                    fb@,
                    scanline as int,
                    ym_4 as int,
                    hx,
                    mx,
                    dh,
                    dm,
                    rm,
                    color,
                ),
            decreases ym_4 - scanline,
        {
            let hx_pix = hx >> 16;
            let mx_pix = mx >> 16;
            let left = if rm {
                hx_pix
            } else {
                mx_pix
            };
            let right = if !rm {
                hx_pix
            } else {
                mx_pix
            };
            self.fill_between_pixels(
                fb,
                #[verifier::truncate] (left as usize),
                #[verifier::truncate] (right as usize),
                scanline as usize,
                color,
            );
            hx = hx.wrapping_add(dh);
            mx = mx.wrapping_add(dm);
            scanline = scanline + 1;
        }
        proof {
            assert(g1 == (fb@, hx));
        }
        let mut lx = coefficients.xl();
        let start2: u16 = scanline;
        let ghost g2 = Self::spec_fill_walk(
            fb@,
            start2 as int,
            yl_4 as int,
            hx,
            lx,
            dh,
            dl,
            rm,
            color,
        );
        while scanline < yl_4
            invariant
                start2 <= yl_4 ==> start2 <= scanline <= yl_4,
                start2 > yl_4 ==> scanline == start2,
                g2 == Self::spec_fill_walk(
                    fb@,
                    scanline as int,
                    yl_4 as int,
                    hx,
                    lx,
                    dh,
                    dl,
                    rm,
                    color,
                ),
            decreases yl_4 - scanline,
        {
            let hx_pix = hx >> 16;
            let lx_pix = lx >> 16;
            let left = if rm {
                hx_pix
            } else {
                lx_pix
            };
            let right = if !rm {
                hx_pix
            } else {
                lx_pix
            };
            self.fill_between_pixels(
                fb,
                #[verifier::truncate] (left as usize),
                #[verifier::truncate] (right as usize),
                scanline as usize,
                color,
            );
            hx = hx.wrapping_add(dh);
            lx = lx.wrapping_add(dl);
            scanline = scanline + 1;
        }
    }

    /// The flat rectangle fill, row by row from `yh` to `yl` (inclusive,
    /// in whole pixels).
    pub open spec fn spec_rect_rows(
        fb: Seq<u8>,
        y: int,
        y_stop: int,
        x_lo: int,
        x_hi: int,
        color: u32,
    ) -> Seq<u8>
        decreases y_stop + 1 - y,
    {
        if y > y_stop {
            fb
        } else {
            Self::spec_rect_rows(
                spec_fill_span(fb, y, x_lo, x_hi, color),
                y + 1,
                y_stop,
                x_lo,
                x_hi,
                color,
            )
        }
    }

    /// The effect of `draw_fill_rect`: the inclusive whole-pixel
    /// rectangle of the command, filled with the fixed placeholder
    /// color; the command's configured color is not yet honored.
    pub open spec fn spec_fill_rect(fb: Seq<u8>, r: Rectangle) -> Seq<u8> {
        Self::spec_rect_rows(
            fb,
            (r.yh / 4) as int,
            (r.yl / 4) as int,
            (r.xh / 4) as int,
            (r.xl / 4) as int,
            0x55AA55FF,
        )
    }

    /// Fills the command's inclusive pixel rectangle. The `color`
    /// argument is accepted but not yet honored: every pixel receives
    /// the fixed placeholder color, as `spec_fill_rect` states.
    #[verifier::loop_isolation(false)]
    pub fn draw_fill_rect(&self, fb: &mut Vec<u8>, rectangle: Rectangle, color: u32)
        ensures
            final(fb)@ == Self::spec_fill_rect(old(fb)@, rectangle),
    {
        let xh_pix = rectangle.xh / 4;
        let yh_pix = rectangle.yh / 4;
        let xl_pix = rectangle.xl / 4;
        let yl_pix = rectangle.yl / 4;
        let fake_color: u32 = 0x55AA55FF;
        if yh_pix > yl_pix {
            return ;
        }
        let mut y = yh_pix;
        while y <= yl_pix
            invariant
                yh_pix <= y <= yl_pix + 1,
                Self::spec_rect_rows(
                    old(fb)@,
                    yh_pix as int,
                    yl_pix as int,
                    xh_pix as int,
                    xl_pix as int,
                    fake_color,
                ) == Self::spec_rect_rows(
                    fb@,
                    y as int,
                    yl_pix as int,
                    xh_pix as int,
                    xl_pix as int,
                    fake_color,
                ),
            decreases yl_pix + 1 - y,
        {
            self.fill_between_pixels(fb, xh_pix as usize, xl_pix as usize, y as usize, fake_color);
            y = y + 1;
        }
    }
}

/// Which per-pixel operation an interpolated draw applies: convert the
/// interpolated channels to a color, or fetch a texel from texture
/// memory.
#[derive(Debug, Copy, Clone, PartialEq, Eq, Structural)]
pub enum PixelOp {
    Shade,
    Texture,
}

/// Wraparound 32-bit signed negation.
pub open spec fn wrap_neg(a: i32) -> i32 {
    vstd::wrapping::i32_specs::wrapping_sub(0i32, a)
}

/// Elementwise wraparound addition of two equally long value lists.
pub open spec fn wrap_add_seq(a: Seq<i32>, b: Seq<i32>) -> Seq<i32> {
    Seq::new(a.len(), |i: int| wrap_add(a[i], b[i]))
}

/// The starting values of a coefficient list.
pub open spec fn vals_of(cs: Seq<CoefficientModel>) -> Seq<i32> {
    cs.map_values(|c: CoefficientModel| c.val)
}

/// The edge-relative slopes of a coefficient list.
pub open spec fn des_of(cs: Seq<CoefficientModel>) -> Seq<i32> {
    cs.map_values(|c: CoefficientModel| c.de)
}

/// The per-scanline slopes of a coefficient list.
pub open spec fn dys_of(cs: Seq<CoefficientModel>) -> Seq<i32> {
    cs.map_values(|c: CoefficientModel| c.dy)
}

/// The per-pixel steps of a coefficient list: the `dx` slopes, negated
/// when the walk is not right-major, so values always advance from the
/// starting edge toward the far edge.
pub open spec fn spec_dx_steps(cs: Seq<CoefficientModel>, right_major: bool) -> Seq<i32> {
    cs.map_values(
        |c: CoefficientModel|
            if right_major {
                c.dx
            } else {
                wrap_neg(c.dx)
            },
    )
}

/// Copies a value list.
fn copy_vals(src: &Vec<i32>) -> (r: Vec<i32>)
    ensures
        r@ == src@,
{
    let mut r: Vec<i32> = Vec::new();
    let mut i: usize = 0;
    while i < src.len()
        invariant
            i <= src@.len(),
            r@ == src@.take(i as int),
        decreases src@.len() - i,
    {
        r.push(src[i]);
        proof {
            assert(r@ =~= src@.take(i + 1));
        }
        i = i + 1;
    }
    proof {
        assert(src@.take(src@.len() as int) =~= src@);
    }
    r
}

/// Adds each delta to the matching value, wrapping around.
fn add_assign_wrap(vals: &mut Vec<i32>, deltas: &Vec<i32>)
    requires
        old(vals)@.len() == deltas@.len(),
    ensures
        final(vals)@ == wrap_add_seq(old(vals)@, deltas@),
{
    let mut i: usize = 0;
    while i < deltas.len()
        invariant
            i <= deltas@.len(),
            vals@.len() == deltas@.len(),
            forall|k: int| 0 <= k < i ==> vals@[k] == wrap_add(old(vals)@[k], deltas@[k]),
            forall|k: int| i <= k < deltas@.len() ==> vals@[k] == old(vals)@[k],
        decreases deltas@.len() - i,
    {
        let v = vals[i];
        vals[i] = v.wrapping_add(deltas[i]);
        i = i + 1;
    }
    proof {
        assert(vals@ =~= wrap_add_seq(old(vals)@, deltas@));
    }
}

/// The starting values of a coefficient list, as stored values.
fn collect_vals(coeffs: &Vec<Coefficient>) -> (r: Vec<i32>)
    ensures
        r@ == vals_of(models_of(coeffs@)),
{
    let mut r: Vec<i32> = Vec::new();
    let mut i: usize = 0;
    while i < coeffs.len()
        invariant
            i <= coeffs@.len(),
            r@.len() == i,
            forall|k: int| 0 <= k < i ==> r@[k] == coeffs@[k]@.val,
        decreases coeffs@.len() - i,
    {
        r.push(coeffs[i].val());
        i = i + 1;
    }
    proof {
        assert(r@ =~= vals_of(models_of(coeffs@)));
    }
    r
}

/// The edge-relative slopes of a coefficient list.
fn collect_de(coeffs: &Vec<Coefficient>) -> (r: Vec<i32>)
    ensures
        r@ == des_of(models_of(coeffs@)),
{
    let mut r: Vec<i32> = Vec::new();
    let mut i: usize = 0;
    while i < coeffs.len()
        invariant
            i <= coeffs@.len(),
            r@.len() == i,
            forall|k: int| 0 <= k < i ==> r@[k] == coeffs@[k]@.de,
        decreases coeffs@.len() - i,
    {
        r.push(coeffs[i].de());
        i = i + 1;
    }
    proof {
        assert(r@ =~= des_of(models_of(coeffs@)));
    }
    r
}

/// The per-scanline slopes of a coefficient list.
fn collect_dy(coeffs: &Vec<Coefficient>) -> (r: Vec<i32>)
    ensures
        r@ == dys_of(models_of(coeffs@)),
{
    let mut r: Vec<i32> = Vec::new();
    let mut i: usize = 0;
    while i < coeffs.len()
        invariant
            i <= coeffs@.len(),
            r@.len() == i,
            forall|k: int| 0 <= k < i ==> r@[k] == coeffs@[k]@.dy,
        decreases coeffs@.len() - i,
    {
        r.push(coeffs[i].dy());
        i = i + 1;
    }
    proof {
        assert(r@ =~= dys_of(models_of(coeffs@)));
    }
    r
}

/// The per-pixel steps of a coefficient list, negated for a
/// left-major walk.
fn collect_dx(coeffs: &Vec<Coefficient>, right_major: bool) -> (r: Vec<i32>)
    ensures
        r@ == spec_dx_steps(models_of(coeffs@), right_major),
{
    let mut r: Vec<i32> = Vec::new();
    let mut i: usize = 0;
    while i < coeffs.len()
        invariant
            i <= coeffs@.len(),
            r@.len() == i,
            forall|k: int|
                0 <= k < i ==> r@[k] == (if right_major {
                    coeffs@[k]@.dx
                } else {
                    wrap_neg(coeffs@[k]@.dx)
                }),
        decreases coeffs@.len() - i,
    {
        let dx = coeffs[i].dx();
        if right_major {
            r.push(dx);
        } else {
            r.push((0i32).wrapping_sub(dx));
        }
        i = i + 1;
    }
    proof {
        assert(r@ =~= spec_dx_steps(models_of(coeffs@), right_major));
    }
    r
}

/// The whole-texel coordinate derived from one interpolated 16.16
/// value: the high 16 bits (as an unsigned reinterpretation) divided
/// by the fixed texel-to-subtexel scale of 32.
pub open spec fn spec_texel_coord(v: i32) -> int {
    ((v as u32) as int) / 0x10000 / 32
}

/// The texture-memory byte address a textured pixel reads from:
/// `tmem_addr + (s + t * line_width * 4) * 4`, clamped to the last
/// whole texel of the 4 KiB texture memory when it would run past it.
pub open spec fn spec_texel_addr(tile: Tile, s_val: i32, t_val: i32) -> int {
    let line_s = spec_texel_coord(s_val);
    let line_t = spec_texel_coord(t_val);
    let t_offset = line_t * ((tile.line_width as int) * 4);
    let base = (tile.tmem_addr as int) + (line_s + t_offset) * 4;
    if base > 4092 {
        4092
    } else {
        base
    }
}

/// Whatever texture coordinates a triangle interpolates to, the texel
/// fetch address stays within the last whole texel of texture memory:
/// the address is clamped, never read out of bounds.
pub proof fn lemma_texel_addr_clamped(tile: Tile, s_val: i32, t_val: i32)
    ensures
        0 <= spec_texel_addr(tile, s_val, t_val) <= 4092,
{
    let line_s = spec_texel_coord(s_val);
    let line_t = spec_texel_coord(t_val);
    let lw4 = (tile.line_width as int) * 4;
    assert(line_s >= 0);
    assert(line_t >= 0);
    assert(line_t * lw4 >= 0) by (nonlinear_arith)
        requires
            line_t >= 0,
            lw4 >= 0,
    ;
}

/// The RGBA texel the active tile yields for interpolated coordinates
/// `(s_val, t_val)`: four consecutive texture-memory bytes at the
/// clamped fetch address, packed most significant first.
pub open spec fn spec_texel_color(rdp: RDP, s_val: i32, t_val: i32) -> u32 {
    let a = spec_texel_addr(rdp.tiles@[rdp.active_tile as int], s_val, t_val);
    ((rdp.texmem@[a] as u32) << 24) | ((rdp.texmem@[a + 1] as u32) << 16) | ((rdp.texmem@[a + 2]
        as u32) << 8) | (rdp.texmem@[a + 3] as u32)
}

proof fn lemma_u64_shr16(x: u64)
    by (bit_vector)
    ensures
        x >> 16 == x / 0x10000,
{
}

/// The per-pixel effect of an interpolated draw at `(x, scanline)`
/// with the current interpolated values: a shaded pixel packs the
/// first four values into a color, a textured pixel fetches the texel
/// for the first two; a pixel left of the screen is skipped.
pub open spec fn spec_pixel_op(
    rdp: RDP,
    op: PixelOp,
    fb: Seq<u8>,
    scanline: int,
    x: int,
    vals: Seq<i32>,
) -> Seq<u8> {
    if x < 0 {
        fb
    } else {
        let color = match op {
            PixelOp::Shade => spec_rgba(vals[0], vals[1], vals[2], vals[3]),
            PixelOp::Texture => spec_texel_color(rdp, vals[0], vals[1]),
        };
        spec_write_pixel(fb, scanline, x, color)
    }
}

/// One scanline of an interpolated draw: `count` pixels starting at
/// `x` and advancing by `step`, applying the per-pixel operation and
/// stepping the values by the per-pixel slopes after each pixel.
pub open spec fn spec_scanline_walk(
    rdp: RDP,
    op: PixelOp,
    fb: Seq<u8>,
    scanline: int,
    x: int,
    step: int,
    count: int,
    vals: Seq<i32>,
    dxs: Seq<i32>,
) -> Seq<u8>
    decreases count,
{
    if count <= 0 {
        fb
    } else {
        let fb1 = spec_pixel_op(rdp, op, fb, scanline, x, vals);
        spec_scanline_walk(
            rdp,
            op,
            fb1,
            scanline,
            x + step,
            step,
            count - 1,
            wrap_add_seq(vals, dxs),
            dxs,
        )
    }
}

impl RDP {
    /// Fetches the RGBA texel of the active tile for interpolated
    /// coordinates `(s_val, t_val)`, with the clamped addressing that
    /// `spec_texel_addr` states.
    fn texel_color(&self, s_val: i32, t_val: i32) -> (c: u32)
        requires
            self.active_tile < 8,
        ensures
            c == spec_texel_color(*self, s_val, t_val),
    {
        proof {
            lemma_u64_shr16((s_val as u32) as u64);
            lemma_u64_shr16((t_val as u32) as u64);
        }
        let line_s: u64 = (((s_val as u32) as u64) >> 16) / 32;
        let line_t: u64 = (((t_val as u32) as u64) >> 16) / 32;
        let tile = self.tiles[self.active_tile as usize];
        let lw4: u64 = (tile.line_width as u64) * 4;
        proof {
            assert(line_t * lw4 <= 2047 * 262140) by (nonlinear_arith)
                requires
                    line_t <= 2047,
                    lw4 <= 262140,
            ;
        }
        let t_offset: u64 = line_t * lw4;
        let base0: u64 = (tile.tmem_addr as u64) + (line_s + t_offset) * 4;
        let base: u64 = if base0 > 4092 {
            4092
        } else {
            base0
        };
        let b = base as usize;
        ((self.texmem[b] as u32) << 24) | ((self.texmem[b + 1] as u32) << 16) | ((self.texmem[b
            + 2] as u32) << 8) | (self.texmem[b + 3] as u32)
    }

    /// Applies the draw's per-pixel operation at `(x, scanline)` with
    /// the current interpolated values.
    fn apply_pixel_op(
        &self,
        op: PixelOp,
        fb: &mut Vec<u8>,
        scanline: u16,
        x: i32,
        line_vals: &Vec<i32>,
    )
        requires
            op == PixelOp::Shade ==> line_vals@.len() == 4,
            op == PixelOp::Texture ==> line_vals@.len() == 3 && self.active_tile < 8,
        ensures
            final(fb)@ == spec_pixel_op(
                *self,
                op,
                old(fb)@,
                scanline as int,
                x as int,
                line_vals@,
            ),
    {
        if x < 0 {
            return ;
        }
        let color = match op {
            PixelOp::Shade => to_rgba(line_vals[0], line_vals[1], line_vals[2], line_vals[3]),
            PixelOp::Texture => self.texel_color(line_vals[0], line_vals[1]),
        };
        put_pixel(fb, scanline as usize, x as usize, color);
    }

    /// One phase of an interpolated edge walk: scanlines `scanline` up
    /// to (but not reaching) `end` against the second edge `x2`. Per
    /// scanline the values take their edge-relative step, the span's
    /// pixels are drawn in the winding's direction with per-pixel
    /// stepping, then the values take their per-scanline step and both
    /// edges advance by their slopes. Yields the framebuffer, the high
    /// edge position and the values left when the phase ends.
    pub open spec fn spec_interp_walk(
        rdp: RDP,
        op: PixelOp,
        fb: Seq<u8>,
        scanline: int,
        end: int,
        hx: i32,
        x2: i32,
        dh: i32,
        d2: i32,
        right_major: bool,
        des: Seq<i32>,
        dys: Seq<i32>,
        dxs: Seq<i32>,
        vals: Seq<i32>,
    ) -> (Seq<u8>, i32, Seq<i32>)
        decreases end - scanline,
    {
        if scanline >= end {
            (fb, hx, vals)
        } else {
            let hx_pix = hx >> 16;
            let x2_pix = x2 >> 16;
            let vals1 = wrap_add_seq(vals, des);
            let x0: int = if right_major {
                hx_pix as int
            } else {
                hx_pix - 1
            };
            let step: int = if right_major {
                1
            } else {
                -1
            };
            let count: int = if right_major {
                x2_pix - hx_pix
            } else {
                hx_pix - x2_pix
            };
            let fb1 = spec_scanline_walk(rdp, op, fb, scanline, x0, step, count, vals1, dxs);
            let vals2 = wrap_add_seq(vals1, dys);
            Self::spec_interp_walk(
                rdp,
                op,
                fb1,
                scanline + 1,
                end,
                wrap_add(hx, dh),
                wrap_add(x2, d2),
                dh,
                d2,
                right_major,
                des,
                dys,
                dxs,
                vals2,
            )
        }
    }

    /// Runs one phase of the interpolated edge walk, mutating the
    /// framebuffer and the value list in place and returning the
    /// scanline and high edge position left for the next phase.
    #[verifier::loop_isolation(false)]
    fn interp_phase(
        &self,
        op: PixelOp,
        fb: &mut Vec<u8>,
        start: u16,
        end: u16,
        hx0: i32,
        x20: i32,
        dh: i32,
        d2: i32,
        rm: bool,
        vals: &mut Vec<i32>,
        de_vals: &Vec<i32>,
        dy_vals: &Vec<i32>,
        dx_vals: &Vec<i32>,
    ) -> (r: (u16, i32))
        requires
            op == PixelOp::Shade ==> old(vals)@.len() == 4,
            op == PixelOp::Texture ==> old(vals)@.len() == 3 && self.active_tile < 8,
            de_vals@.len() == old(vals)@.len(),
            dy_vals@.len() == old(vals)@.len(),
            dx_vals@.len() == old(vals)@.len(),
        ensures
            ({
                let w = Self::spec_interp_walk(
                    *self,
                    op,
                    old(fb)@,
                    start as int,
                    end as int,
                    hx0,
                    x20,
                    dh,
                    d2,
                    rm,
                    de_vals@,
                    dy_vals@,
                    dx_vals@,
                    old(vals)@,
                );
                final(fb)@ == w.0 && r.1 == w.1 && final(vals)@ == w.2 && r.0 == (if start > end {
                    start
                } else {
                    end
                }) && final(vals)@.len() == old(vals)@.len()
            }),
    {
        let ghost goal = Self::spec_interp_walk(
            *self,
            op,
            old(fb)@,
            start as int,
            end as int,
            hx0,
            x20,
            dh,
            d2,
            rm,
            de_vals@,
            dy_vals@,
            dx_vals@,
            old(vals)@,
        );
        let mut scanline = start;
        let mut hx = hx0;
        let mut x2 = x20;
        while scanline < end
            invariant
                start <= end ==> start <= scanline <= end,
                start > end ==> scanline == start,
                vals@.len() == old(vals)@.len(),
                goal == Self::spec_interp_walk(
                    *self,
                    op,
                    fb@,
                    scanline as int,
                    end as int,
                    hx,
                    x2,
                    dh,
                    d2,
                    rm,
                    de_vals@,
                    dy_vals@,
                    dx_vals@,
                    vals@,
                ),
            decreases end - scanline,
        {
            let hx_pix = hx >> 16;
            let x2_pix = x2 >> 16;
            add_assign_wrap(vals, de_vals);
            let mut line_vals = copy_vals(vals);
            let ghost row_goal = spec_scanline_walk(
                *self,
                op,
                fb@,
                scanline as int,
                if rm {
                    hx_pix as int
                } else {
                    hx_pix - 1
                },
                if rm {
                    1int
                } else {
                    -1int
                },
                if rm {
                    x2_pix - hx_pix
                } else {
                    hx_pix - x2_pix
                },
                line_vals@,
                dx_vals@,
            );
            if rm {
                let mut x = hx_pix;
                while x < x2_pix
                    invariant
                        hx_pix <= x2_pix ==> hx_pix <= x <= x2_pix,
                        hx_pix > x2_pix ==> x == hx_pix,
                        line_vals@.len() == old(vals)@.len(),
                        row_goal == spec_scanline_walk(
                            *self,
                            op,
                            fb@,
                            scanline as int,
                            x as int,
                            1int,
                            x2_pix - x,
                            line_vals@,
                            dx_vals@,
                        ),
                    decreases x2_pix - x,
                {
                    self.apply_pixel_op(op, fb, scanline, x, &line_vals);
                    add_assign_wrap(&mut line_vals, dx_vals);
                    x = x + 1;
                }
            } else {
                let mut x = hx_pix;
                while x > x2_pix
                    invariant
                        hx_pix >= x2_pix ==> x2_pix <= x <= hx_pix,
                        hx_pix < x2_pix ==> x == hx_pix,
                        line_vals@.len() == old(vals)@.len(),
                        row_goal == spec_scanline_walk(
                            *self,
                            op,
                            fb@,
                            scanline as int,
                            x - 1,
                            -1int,
                            x - x2_pix,
                            line_vals@,
                            dx_vals@,
                        ),
                    decreases x - x2_pix,
                {
                    x = x - 1;
                    self.apply_pixel_op(op, fb, scanline, x, &line_vals);
                    add_assign_wrap(&mut line_vals, dx_vals);
                }
            }
            add_assign_wrap(vals, dy_vals);
            hx = hx.wrapping_add(dh);
            x2 = x2.wrapping_add(d2);
            scanline = scanline + 1;
        }
        (scanline, hx)
    }

    /// The whole interpolated draw: scanlines walk from `yh` (at
    /// whole-pixel granularity) to `ym` against the middle edge, then
    /// to `yl` against the low edge, carrying the high edge position
    /// and the interpolated values across the two phases.
    pub open spec fn spec_interp_tri(
        rdp: RDP,
        op: PixelOp,
        fb: Seq<u8>,
        e: EdgeCoefficients,
        coeffs: Seq<CoefficientModel>,
    ) -> Seq<u8> {
        let start = (e.yh / 4) as int;
        let mid = (e.ym / 4) as int;
        let des = des_of(coeffs);
        let dys = dys_of(coeffs);
        let dxs = spec_dx_steps(coeffs, e.right_major);
        let w1 = Self::spec_interp_walk(
            rdp,
            op,
            fb,
            start,
            mid,
            e.spec_xh(),
            e.spec_xm(),
            e.spec_dx_h_dy(),
            e.spec_dx_m_dy(),
            e.right_major,
            des,
            dys,
            dxs,
            vals_of(coeffs),
        );
        let start2 = if start > mid {
            start
        } else {
            mid
        };
        let w2 = Self::spec_interp_walk(
            rdp,
            op,
            w1.0,
            start2,
            (e.yl / 4) as int,
            w1.1,
            e.spec_xl(),
            e.spec_dx_h_dy(),
            e.spec_dx_l_dy(),
            e.right_major,
            des,
            dys,
            dxs,
            w1.2,
        );
        w2.0
    }

    /// Walks the triangle's edges and interpolates the coefficient
    /// list across every covered pixel, applying the given per-pixel
    /// operation.
    fn interpolate_over_triangle(
        &self,
        fb: &mut Vec<u8>,
        edge_coefficients: EdgeCoefficients,
        interp_coefficients: Vec<Coefficient>,
        op: PixelOp,
    )
        requires
            op == PixelOp::Shade ==> interp_coefficients@.len() == 4,
            op == PixelOp::Texture ==> interp_coefficients@.len() == 3 && self.active_tile < 8,
        ensures
            final(fb)@ == Self::spec_interp_tri(
                *self,
                op,
                old(fb)@,
                edge_coefficients,
                models_of(interp_coefficients@),
            ),
    {
        let yh_whole_pixel = (edge_coefficients.yh() / 4) * 4;
        let start: u16 = yh_whole_pixel / 4;
        let ym_4: u16 = edge_coefficients.ym() / 4;
        let yl_4: u16 = edge_coefficients.yl() / 4;
        let rm = edge_coefficients.right_major;
        let dx_vals = collect_dx(&interp_coefficients, rm);
        let de_vals = collect_de(&interp_coefficients);
        let dy_vals = collect_dy(&interp_coefficients);
        let mut vals = collect_vals(&interp_coefficients);
        let mid = self.interp_phase(
            op,
            fb,
            start,
            ym_4,
            edge_coefficients.xh(),
            edge_coefficients.xm(),
            edge_coefficients.dx_h_dy(),
            edge_coefficients.dx_m_dy(),
            rm,
            &mut vals,
            &de_vals,
            &dy_vals,
            &dx_vals,
        );
        let _ = self.interp_phase(
            op,
            fb,
            mid.0,
            yl_4,
            mid.1,
            edge_coefficients.xl(),
            edge_coefficients.dx_h_dy(),
            edge_coefficients.dx_l_dy(),
            rm,
            &mut vals,
            &de_vals,
            &dy_vals,
            &dx_vals,
        );
    }

    /// Rasterizes a shaded (Gouraud) triangle: the same edge walk as
    /// the flat fill, with the four color channels interpolated across
    /// the surface and each pixel written as `spec_rgba` of the
    /// channel values at that pixel.
    pub fn draw_shade_tri(
        &self,
        fb: &mut Vec<u8>,
        edge_coefficients: EdgeCoefficients,
        shade_coefficients: ShadeCoefficients,
    )
        ensures
            final(fb)@ == Self::spec_interp_tri(
                *self,
                PixelOp::Shade,
                old(fb)@,
                edge_coefficients,
                shade_coefficients.spec_models(),
            ),
    {
        self.interpolate_over_triangle(
            fb,
            edge_coefficients,
            shade_coefficients.to_vec(),
            PixelOp::Shade,
        );
    }

    /// Rasterizes a textured triangle: the same edge walk, with the
    /// s, t, w texture coordinates interpolated across the surface and
    /// each pixel written as the texel the active tile yields at those
    /// coordinates, with the fetch address clamped to texture memory.
    pub fn draw_textured_tri(
        &self,
        fb: &mut Vec<u8>,
        edge_coefficients: EdgeCoefficients,
        texture_coefficients: TextureCoefficients,
    )
        requires
            self.wf(),
        ensures
            final(fb)@ == Self::spec_interp_tri(
                *self,
                PixelOp::Texture,
                old(fb)@,
                edge_coefficients,
                texture_coefficients.spec_models(),
            ),
    {
        self.interpolate_over_triangle(
            fb,
            edge_coefficients,
            texture_coefficients.to_vec(),
            PixelOp::Texture,
        );
    }
}

/// One texel copied from the source image into texture memory: four
/// consecutive bytes, skipped whenever either side would fall outside
/// its buffer.
pub open spec fn spec_copy_texel(tm: Seq<u8>, src: Seq<u8>, dst: int, s: int) -> Seq<u8> {
    if 0 <= dst && dst + 4 <= tm.len() && 0 <= s && s + 4 <= src.len() {
        tm.update(dst, src[s]).update(dst + 1, src[s + 1]).update(dst + 2, src[s + 2]).update(
            dst + 3,
            src[s + 3],
        )
    } else {
        tm
    }
}

/// One row of a tile load: texels `x ..= sh` of texel row `y`, each
/// copied from `src_base + (x + y * w1) * 4` of the source image to
/// `base + (x + y * lw) * 4` of texture memory.
pub open spec fn spec_load_row(
    tm: Seq<u8>,
    src: Seq<u8>,
    base: int,
    lw: int,
    src_base: int,
    w1: int,
    y: int,
    x: int,
    sh: int,
) -> Seq<u8>
    decreases sh + 1 - x,
{
    if x > sh {
        tm
    } else {
        let tm1 = spec_copy_texel(tm, src, base + (x + y * lw) * 4, src_base + (x + y * w1) * 4);
        spec_load_row(tm1, src, base, lw, src_base, w1, y, x + 1, sh)
    }
}

/// The texel rows `y ..= th` of a tile load, each covering texel
/// columns `sl ..= sh`.
pub open spec fn spec_load_rows(
    tm: Seq<u8>,
    src: Seq<u8>,
    base: int,
    lw: int,
    src_base: int,
    w1: int,
    y: int,
    th: int,
    sl: int,
    sh: int,
) -> Seq<u8>
    decreases th + 1 - y,
{
    if y > th {
        tm
    } else {
        spec_load_rows(
            spec_load_row(tm, src, base, lw, src_base, w1, y, sl, sh),
            src,
            base,
            lw,
            src_base,
            w1,
            y + 1,
            th,
            sl,
            sh,
        )
    }
}

/// The effect of a whole tile load on texture memory: the command's
/// quarter-texel bounds select the texel region, the tile descriptor
/// gives the texture-memory base (in 8-byte units) and row stride, and
/// the current texture image gives the source base address and row
/// width.
pub open spec fn spec_load_tile(
    rdp: RDP,
    src: Seq<u8>,
    tile: int,
    sl: u16,
    sh: u16,
    tl: u16,
    th: u16,
) -> Seq<u8> {
    let t = rdp.tiles@[tile];
    spec_load_rows(
        rdp.texmem@,
        src,
        (t.tmem_addr as int) / 8,
        (t.line_width as int) * 4,
        rdp.texture.addr as int,
        (rdp.texture.width as int) + 1,
        (tl / 4) as int,
        (th / 4) as int,
        (sl / 4) as int,
        (sh / 4) as int,
    )
}

impl RDP {
    /// Copies the rectangular texel region `sl..=sh` by `tl..=th` (in
    /// quarter-texel units) of the current texture image from the
    /// source bytes into texture memory, at the named tile's base
    /// address and row stride. A texel whose destination or source
    /// bytes would fall outside their buffer is skipped, so the copy
    /// never reads or writes out of bounds.
    #[verifier::loop_isolation(false)]
    pub fn load_tile(&mut self, src: &[u8], tile: u8, sl: u16, sh: u16, tl: u16, th: u16)
        requires
            tile < 8,
        ensures
            final(self).texmem@ == spec_load_tile(*old(self), src@, tile as int, sl, sh, tl, th),
            final(self).texture == old(self).texture,
            final(self).tiles == old(self).tiles,
            final(self).active_tile == old(self).active_tile,
    {
        let t = self.tiles[tile as usize];
        let base: u64 = (t.tmem_addr as u64) / 8;
        let linewidth: u64 = (t.line_width as u64) * 8 / 2;
        let src_base: u64 = self.texture.addr as u64;
        let w1: u64 = (self.texture.width as u64) + 1;
        let sl_t: u16 = sl / 4;
        let sh_t: u16 = sh / 4;
        let tl_t: u16 = tl / 4;
        let th_t: u16 = th / 4;
        let src_len: u64 = src.len() as u64;
        let ghost goal = spec_load_rows(
            old(self).texmem@,
            src@,
            base as int,
            linewidth as int,
            src_base as int,
            w1 as int,
            tl_t as int,
            th_t as int,
            sl_t as int,
            sh_t as int,
        );
        let mut y = tl_t;
        while y <= th_t
            invariant
                tl_t <= y,
                y <= th_t + 1 || y == tl_t,
                self.texture == old(self).texture,
                self.tiles == old(self).tiles,
                self.active_tile == old(self).active_tile,
                goal == spec_load_rows(
                    self.texmem@,
                    src@,
                    base as int,
                    linewidth as int,
                    src_base as int,
                    w1 as int,
                    y as int,
                    th_t as int,
                    sl_t as int,
                    sh_t as int,
                ),
            decreases th_t + 1 - y,
        {
            let ghost row_goal = spec_load_row(
                self.texmem@,
                src@,
                base as int,
                linewidth as int,
                src_base as int,
                w1 as int,
                y as int,
                sl_t as int,
                sh_t as int,
            );
            let mut x = sl_t;
            while x <= sh_t
                invariant
                    sl_t <= x,
                    x <= sh_t + 1 || x == sl_t,
                    self.texture == old(self).texture,
                    self.tiles == old(self).tiles,
                    self.active_tile == old(self).active_tile,
                    row_goal == spec_load_row(
                        self.texmem@,
                        src@,
                        base as int,
                        linewidth as int,
                        src_base as int,
                        w1 as int,
                        y as int,
                        x as int,
                        sh_t as int,
                    ),
                decreases sh_t + 1 - x,
            {
                proof {
                    assert((y as u64) * linewidth <= 0x3FFF * 0x3FFFC) by (nonlinear_arith)
                        requires
                            y <= 0x3FFF,
                            linewidth <= 0x3FFFC,
                    ;
                    assert((y as u64) * w1 <= 0x3FFF * 0x10000) by (nonlinear_arith)
                        requires
                            y <= 0x3FFF,
                            w1 <= 0x10000,
                    ;
                }
                let dst: u64 = base + ((x as u64) + (y as u64) * linewidth) * 4;
                let si: u64 = src_base + ((x as u64) + (y as u64) * w1) * 4;
                if dst + 4 <= 4096 && si + 4 <= src_len {
                    let d = dst as usize;
                    let s_i = si as usize;
                    self.texmem[d] = src[s_i];
                    self.texmem[d + 1] = src[s_i + 1];
                    self.texmem[d + 2] = src[s_i + 2];
                    self.texmem[d + 3] = src[s_i + 3];
                }
                x = x + 1;
            }
            y = y + 1;
        }
    }
}

/// A row load never changes the byte count of texture memory.
proof fn lemma_load_row_len(
    tm: Seq<u8>,
    src: Seq<u8>,
    base: int,
    lw: int,
    src_base: int,
    w1: int,
    y: int,
    x0: int,
    sh: int,
)
    ensures
        spec_load_row(tm, src, base, lw, src_base, w1, y, x0, sh).len() == tm.len(),
    decreases sh + 1 - x0,
{
    if x0 > sh {
    } else {
        let tm1 = spec_copy_texel(tm, src, base + (x0 + y * lw) * 4, src_base + (x0 + y * w1) * 4);
        lemma_load_row_len(tm1, src, base, lw, src_base, w1, y, x0 + 1, sh);
    }
}

/// A row load writes nothing below its first destination byte.
proof fn lemma_load_row_frame(
    tm: Seq<u8>,
    src: Seq<u8>,
    base: int,
    lw: int,
    src_base: int,
    w1: int,
    y: int,
    x0: int,
    sh: int,
    i: int,
)
    requires
        0 <= i < tm.len(),
        i < base + (x0 + y * lw) * 4,
    ensures
        spec_load_row(tm, src, base, lw, src_base, w1, y, x0, sh).len() == tm.len(),
        spec_load_row(tm, src, base, lw, src_base, w1, y, x0, sh)[i] == tm[i],
    decreases sh + 1 - x0,
{
    if x0 > sh {
    } else {
        let tm1 = spec_copy_texel(tm, src, base + (x0 + y * lw) * 4, src_base + (x0 + y * w1) * 4);
        assert(tm1.len() == tm.len());
        assert(tm1[i] == tm[i]);
        lemma_load_row_frame(tm1, src, base, lw, src_base, w1, y, x0 + 1, sh, i);
    }
}

/// After a row load, the bytes of texel `x` hold the source image's
/// bytes for that texel, provided both sides fit their buffers.
proof fn lemma_load_row_reads(
    tm: Seq<u8>,
    src: Seq<u8>,
    base: int,
    lw: int,
    src_base: int,
    w1: int,
    y: int,
    x0: int,
    sh: int,
    x: int,
)
    requires
        x0 <= x <= sh,
        0 <= base,
        0 <= y,
        0 <= lw,
        0 <= x0,
        0 <= src_base,
        0 <= w1,
        base + (x + y * lw) * 4 + 4 <= tm.len(),
        src_base + (x + y * w1) * 4 + 4 <= src.len(),
    ensures
        spec_load_row(tm, src, base, lw, src_base, w1, y, x0, sh).len() == tm.len(),
        spec_load_row(tm, src, base, lw, src_base, w1, y, x0, sh)[base + (x + y * lw) * 4 + 0]
            == src[src_base + (x + y * w1) * 4 + 0],
        spec_load_row(tm, src, base, lw, src_base, w1, y, x0, sh)[base + (x + y * lw) * 4 + 1]
            == src[src_base + (x + y * w1) * 4 + 1],
        spec_load_row(tm, src, base, lw, src_base, w1, y, x0, sh)[base + (x + y * lw) * 4 + 2]
            == src[src_base + (x + y * w1) * 4 + 2],
        spec_load_row(tm, src, base, lw, src_base, w1, y, x0, sh)[base + (x + y * lw) * 4 + 3]
            == src[src_base + (x + y * w1) * 4 + 3],
    decreases sh + 1 - x0,
{
    assert(y * lw >= 0) by (nonlinear_arith)
        requires
            y >= 0,
            lw >= 0,
    ;
    assert(y * w1 >= 0) by (nonlinear_arith)
        requires
            y >= 0,
            w1 >= 0,
    ;
    let dst = base + (x + y * lw) * 4;
    let s = src_base + (x + y * w1) * 4;
    let tm1 = spec_copy_texel(tm, src, base + (x0 + y * lw) * 4, src_base + (x0 + y * w1) * 4);
    if x0 == x {
        assert(tm1[dst + 0] == src[s + 0]);
        assert(tm1[dst + 1] == src[s + 1]);
        assert(tm1[dst + 2] == src[s + 2]);
        assert(tm1[dst + 3] == src[s + 3]);
        lemma_load_row_frame(tm1, src, base, lw, src_base, w1, y, x0 + 1, sh, dst + 0);
        lemma_load_row_frame(tm1, src, base, lw, src_base, w1, y, x0 + 1, sh, dst + 1);
        lemma_load_row_frame(tm1, src, base, lw, src_base, w1, y, x0 + 1, sh, dst + 2);
        lemma_load_row_frame(tm1, src, base, lw, src_base, w1, y, x0 + 1, sh, dst + 3);
    } else {
        lemma_load_row_reads(tm1, src, base, lw, src_base, w1, y, x0 + 1, sh, x);
    }
}

/// Loading rows `y0` and beyond writes nothing below the first
/// destination byte of row `y0`.
proof fn lemma_load_rows_frame(
    tm: Seq<u8>,
    src: Seq<u8>,
    base: int,
    lw: int,
    src_base: int,
    w1: int,
    y0: int,
    th: int,
    sl: int,
    sh: int,
    i: int,
)
    requires
        0 <= i < tm.len(),
        0 <= lw,
        0 <= sl,
        i < base + (sl + y0 * lw) * 4,
        sh < lw,
    ensures
        spec_load_rows(tm, src, base, lw, src_base, w1, y0, th, sl, sh).len() == tm.len(),
        spec_load_rows(tm, src, base, lw, src_base, w1, y0, th, sl, sh)[i] == tm[i],
    decreases th + 1 - y0,
{
    if y0 > th {
    } else {
        let row = spec_load_row(tm, src, base, lw, src_base, w1, y0, sl, sh);
        lemma_load_row_frame(tm, src, base, lw, src_base, w1, y0, sl, sh, i);
        assert((y0 + 1) * lw == y0 * lw + lw) by (nonlinear_arith);
        lemma_load_rows_frame(row, src, base, lw, src_base, w1, y0 + 1, th, sl, sh, i);
    }
}

/// After loading rows `y0 ..= th`, the bytes of texel `(x, y)` hold
/// the source image's bytes for that texel: rows fit inside the tile's
/// stride, so no later texel of the load overwrites an earlier one.
proof fn lemma_load_rows_reads(
    tm: Seq<u8>,
    src: Seq<u8>,
    base: int,
    lw: int,
    src_base: int,
    w1: int,
    y0: int,
    th: int,
    sl: int,
    sh: int,
    x: int,
    y: int,
)
    requires
        y0 <= y <= th,
        sl <= x <= sh,
        0 <= base,
        0 <= sl,
        0 <= y0,
        0 <= src_base,
        0 <= w1,
        sh < lw,
        base + (x + y * lw) * 4 + 4 <= tm.len(),
        src_base + (x + y * w1) * 4 + 4 <= src.len(),
    ensures
        spec_load_rows(tm, src, base, lw, src_base, w1, y0, th, sl, sh).len() == tm.len(),
        spec_load_rows(tm, src, base, lw, src_base, w1, y0, th, sl, sh)[base + (x + y * lw) * 4
            + 0] == src[src_base + (x + y * w1) * 4 + 0],
        spec_load_rows(tm, src, base, lw, src_base, w1, y0, th, sl, sh)[base + (x + y * lw) * 4
            + 1] == src[src_base + (x + y * w1) * 4 + 1],
        spec_load_rows(tm, src, base, lw, src_base, w1, y0, th, sl, sh)[base + (x + y * lw) * 4
            + 2] == src[src_base + (x + y * w1) * 4 + 2],
        spec_load_rows(tm, src, base, lw, src_base, w1, y0, th, sl, sh)[base + (x + y * lw) * 4
            + 3] == src[src_base + (x + y * w1) * 4 + 3],
    decreases th + 1 - y0,
{
    let dst = base + (x + y * lw) * 4;
    let s = src_base + (x + y * w1) * 4;
    let row = spec_load_row(tm, src, base, lw, src_base, w1, y0, sl, sh);
    if y0 == y {
        lemma_load_row_reads(tm, src, base, lw, src_base, w1, y, sl, sh, x);
        assert((y + 1) * lw == y * lw + lw) by (nonlinear_arith);
        lemma_load_rows_frame(row, src, base, lw, src_base, w1, y0 + 1, th, sl, sh, dst + 0);
        lemma_load_rows_frame(row, src, base, lw, src_base, w1, y0 + 1, th, sl, sh, dst + 1);
        lemma_load_rows_frame(row, src, base, lw, src_base, w1, y0 + 1, th, sl, sh, dst + 2);
        lemma_load_rows_frame(row, src, base, lw, src_base, w1, y0 + 1, th, sl, sh, dst + 3);
    } else {
        lemma_load_row_len(tm, src, base, lw, src_base, w1, y0, sl, sh);
        lemma_load_rows_reads(row, src, base, lw, src_base, w1, y0 + 1, th, sl, sh, x, y);
    }
}

/// Loading a tile and then fetching a texel whose interpolated
/// coordinates land inside the loaded region reproduces the source
/// image's RGBA bytes, through the documented addressing: the load
/// writes texel `(x, y)` at `tmem_addr / 8 + (x + y * stride) * 4`
/// from source byte `addr + (x + y * (width + 1)) * 4`, and a textured
/// draw fetches from `tmem_addr + (s + t * stride) * 4`, so with a
/// tile based at address zero the fetch reads back exactly the copied
/// bytes. The region must fit both buffers and lie within the tile's
/// row stride.
pub proof fn lemma_load_tile_roundtrip(
    rdp: RDP,
    src: Seq<u8>,
    tile: int,
    sl: u16,
    sh: u16,
    tl: u16,
    th: u16,
    s_val: i32,
    t_val: i32,
)
    requires
        0 <= tile < 8,
        rdp.tiles@[tile].tmem_addr == 0,
        (sl / 4) as int <= spec_texel_coord(s_val) <= (sh / 4) as int,
        (tl / 4) as int <= spec_texel_coord(t_val) <= (th / 4) as int,
        ((sh / 4) as int) < (rdp.tiles@[tile].line_width as int) * 4,
        ((sh / 4) as int + ((th / 4) as int) * ((rdp.tiles@[tile].line_width as int) * 4)) * 4 + 4
            <= 4096,
        (rdp.texture.addr as int) + ((sh / 4) as int + ((th / 4) as int) * ((rdp.texture.width
            as int) + 1)) * 4 + 4 <= src.len(),
    ensures
        spec_load_tile(rdp, src, tile, sl, sh, tl, th)[spec_texel_addr(rdp.tiles@[tile], s_val, t_val) + 0]
            == src[(rdp.texture.addr as int) + (spec_texel_coord(s_val) + spec_texel_coord(t_val) * ((rdp.texture.width as int) + 1)) * 4 + 0],
        spec_load_tile(rdp, src, tile, sl, sh, tl, th)[spec_texel_addr(rdp.tiles@[tile], s_val, t_val) + 1]
            == src[(rdp.texture.addr as int) + (spec_texel_coord(s_val) + spec_texel_coord(t_val) * ((rdp.texture.width as int) + 1)) * 4 + 1],
        spec_load_tile(rdp, src, tile, sl, sh, tl, th)[spec_texel_addr(rdp.tiles@[tile], s_val, t_val) + 2]
            == src[(rdp.texture.addr as int) + (spec_texel_coord(s_val) + spec_texel_coord(t_val) * ((rdp.texture.width as int) + 1)) * 4 + 2],
        spec_load_tile(rdp, src, tile, sl, sh, tl, th)[spec_texel_addr(rdp.tiles@[tile], s_val, t_val) + 3]
            == src[(rdp.texture.addr as int) + (spec_texel_coord(s_val) + spec_texel_coord(t_val) * ((rdp.texture.width as int) + 1)) * 4 + 3],
{
    let t = rdp.tiles@[tile];
    let lw = (t.line_width as int) * 4;
    let w1 = (rdp.texture.width as int) + 1;
    let src_base = rdp.texture.addr as int;
    let x = spec_texel_coord(s_val);
    let y = spec_texel_coord(t_val);
    assert(y * lw <= ((th / 4) as int) * lw) by (nonlinear_arith)
        requires
            y <= (th / 4) as int,
            lw >= 0,
    ;
    assert(y * w1 <= ((th / 4) as int) * w1) by (nonlinear_arith)
        requires
            y <= (th / 4) as int,
            w1 >= 0,
    ;
    assert(y * lw >= 0) by (nonlinear_arith)
        requires
            y >= 0,
            lw >= 0,
    ;
    lemma_load_rows_reads(
        rdp.texmem@,
        src,
        0,
        lw,
        src_base,
        w1,
        (tl / 4) as int,
        (th / 4) as int,
        (sl / 4) as int,
        (sh / 4) as int,
        x,
        y,
    );
    assert(spec_texel_addr(t, s_val, t_val) == (x + y * lw) * 4);
}

/// A triangle whose three Y bounds coincide spans no whole scanline:
/// the flat fill walks zero lines and leaves every framebuffer byte
/// unchanged.
pub proof fn lemma_degenerate_fill_tri(fb: Seq<u8>, e: EdgeCoefficients, color: u32)
    requires
        e.yh == e.ym,
        e.ym == e.yl,
    ensures
        RDP::spec_fill_tri(fb, e, color) == fb,
{
    let start = (e.yh / 4) as int;
    assert(RDP::spec_fill_walk(
        fb,
        start,
        start,
        e.spec_xh(),
        e.spec_xm(),
        e.spec_dx_h_dy(),
        e.spec_dx_m_dy(),
        e.right_major,
        color,
    ) == (fb, e.spec_xh()));
}

/// The same holds of the interpolated draws: with coinciding Y bounds,
/// a shaded or textured triangle walks zero scanlines and leaves the
/// framebuffer unchanged.
pub proof fn lemma_degenerate_interp_tri(
    rdp: RDP,
    op: PixelOp,
    fb: Seq<u8>,
    e: EdgeCoefficients,
    coeffs: Seq<CoefficientModel>,
)
    requires
        e.yh == e.ym,
        e.ym == e.yl,
    ensures
        RDP::spec_interp_tri(rdp, op, fb, e, coeffs) == fb,
{
    let start = (e.yh / 4) as int;
    assert(RDP::spec_interp_walk(
        rdp,
        op,
        fb,
        start,
        start,
        e.spec_xh(),
        e.spec_xm(),
        e.spec_dx_h_dy(),
        e.spec_dx_m_dy(),
        e.right_major,
        des_of(coeffs),
        dys_of(coeffs),
        spec_dx_steps(coeffs, e.right_major),
        vals_of(coeffs),
    ) == (fb, e.spec_xh(), vals_of(coeffs)));
}

} // verus!
