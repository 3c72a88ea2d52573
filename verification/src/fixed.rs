//! 16.16 fixed-point coefficients: every quantity the rasterizer
//! interpolates (edge X positions, color channels, texture coordinates)
//! is a signed 32-bit value split into a 16-bit integer part and a
//! 16-bit fractional part, stored as the raw halves that appear in the
//! command stream.

use vstd::prelude::*;

verus! {

/// Reassembles a signed 16.16 fixed-point value from its raw halves:
/// `whole` becomes the high 16 bits, `frac` the low 16 bits.
pub open spec fn spec_fix(whole: u16, frac: u16) -> i32 {
    (((whole as u32) << 16) | (frac as u32)) as i32
}

/// The mathematical content of one interpolated attribute: its starting
/// value and its three slopes, each a 16.16 fixed value.
pub struct CoefficientModel {
    /// Starting value at the triangle's top edge.
    pub val: i32,
    /// Per-pixel (horizontal) slope.
    pub dx: i32,
    /// Per-scanline (vertical) slope.
    pub dy: i32,
    /// Per-scanline edge-relative (diagonal) slope.
    pub de: i32,
}

/// One interpolated attribute (a color channel or a texture coordinate),
/// kept as the raw 16-bit halves read from the command stream.
#[derive(Debug, Copy, Clone)]
pub struct Coefficient {
    pub whole: u16,
    pub frac: u16,
    pub dx_whole: u16,
    pub dy_whole: u16,
    pub de_whole: u16,
    pub dx_frac: u16,
    pub dy_frac: u16,
    pub de_frac: u16,
}

impl View for Coefficient {
    type V = CoefficientModel;

    open spec fn view(&self) -> CoefficientModel {
        CoefficientModel {
            val: spec_fix(self.whole, self.frac),
            dx: spec_fix(self.dx_whole, self.dx_frac),
            dy: spec_fix(self.dy_whole, self.dy_frac),
            de: spec_fix(self.de_whole, self.de_frac),
        }
    }
}

/// The models of a list of coefficients, in order.
pub open spec fn models_of(s: Seq<Coefficient>) -> Seq<CoefficientModel> {
    s.map_values(|c: Coefficient| c@)
}

/// Splitting a 16.16 value into its halves and reassembling them gives
/// the value back.
proof fn lemma_fix_split(v: i32)
    by (bit_vector)
    ensures
        spec_fix(((v as u32) >> 16) as u16, (v as u32) as u16) == v,
{
}

impl Coefficient {
    fn from_whole_frac(whole: u16, frac: u16) -> (r: i32)
        ensures
            r == spec_fix(whole, frac),
    {
        (((whole as u32) << 16) | (frac as u32)) as i32
    }

    fn to_whole_frac(val: i32) -> (r: (u16, u16))
        ensures
            r.0 == ((val as u32) >> 16) as u16,
            r.1 == (val as u32) as u16,
    {
        (((val as u32) >> 16) as u16, (val as u32) as u16)
    }

    /// The attribute's starting value.
    pub fn val(&self) -> (r: i32)
        ensures
            r == self@.val,
    {
        Self::from_whole_frac(self.whole, self.frac)
    }

    /// The per-pixel slope.
    pub fn dx(&self) -> (r: i32)
        ensures
            r == self@.dx,
    {
        Self::from_whole_frac(self.dx_whole, self.dx_frac)
    }

    /// The per-scanline slope.
    pub fn dy(&self) -> (r: i32)
        ensures
            r == self@.dy,
    {
        Self::from_whole_frac(self.dy_whole, self.dy_frac)
    }

    /// The edge-relative slope.
    pub fn de(&self) -> (r: i32)
        ensures
            r == self@.de,
    {
        Self::from_whole_frac(self.de_whole, self.de_frac)
    }

    /// Replaces the per-pixel slope with `val`; the other three
    /// components keep their values.
    pub fn set_dx(&mut self, val: i32)
        ensures
            final(self)@ == (CoefficientModel { dx: val, ..old(self)@ }),
    {
        let (whole, frac) = Self::to_whole_frac(val);
        self.dx_whole = whole;
        self.dx_frac = frac;
        proof {
            lemma_fix_split(val);
        }
    }
}

/// Reassembles a 16.16 fixed-point value; the free-function form used by
/// the texture-coefficient accessors.
fn whole2frac(x: u16, frac: u16) -> (r: i32)
    ensures
        r == spec_fix(x, frac),
{
    (((x as u32) << 16) | (frac as u32)) as i32
}

/// The three-edge description of a triangle: high/mid/low Y bounds in
/// quarter-pixel units, the three edge X positions with their
/// per-scanline slopes in 16.16 fixed point, and the winding flag.
#[derive(Debug)]
pub struct EdgeCoefficients {
    pub right_major: bool,
    pub level: u8,
    pub tile: u8,
    pub yl: u16,
    pub ym: u16,
    pub yh: u16,
    pub xl: u16,
    pub xl_frac: u16,
    pub dx_l_dy: u16,
    pub dx_l_dy_frac: u16,
    pub xh: u16,
    pub xh_frac: u16,
    pub dx_h_dy: u16,
    pub dx_h_dy_frac: u16,
    pub xm: u16,
    pub xm_frac: u16,
    pub dx_m_dy: u16,
    pub dx_m_dy_frac: u16,
}

impl EdgeCoefficients {
    /// The high edge's X position as a 16.16 value.
    pub open spec fn spec_xh(self) -> i32 {
        spec_fix(self.xh, self.xh_frac)
    }

    /// The middle edge's X position as a 16.16 value.
    pub open spec fn spec_xm(self) -> i32 {
        spec_fix(self.xm, self.xm_frac)
    }

    /// The low edge's X position as a 16.16 value.
    pub open spec fn spec_xl(self) -> i32 {
        spec_fix(self.xl, self.xl_frac)
    }

    /// The high edge's per-scanline X slope as a 16.16 value.
    pub open spec fn spec_dx_h_dy(self) -> i32 {
        spec_fix(self.dx_h_dy, self.dx_h_dy_frac)
    }

    /// The middle edge's per-scanline X slope as a 16.16 value.
    pub open spec fn spec_dx_m_dy(self) -> i32 {
        spec_fix(self.dx_m_dy, self.dx_m_dy_frac)
    }

    /// The low edge's per-scanline X slope as a 16.16 value.
    pub open spec fn spec_dx_l_dy(self) -> i32 {
        spec_fix(self.dx_l_dy, self.dx_l_dy_frac)
    }

    /// The top Y bound, in quarter-pixel units.
    pub fn yh(&self) -> (r: u16)
        ensures
            r == self.yh,
    {
        self.yh
    }

    /// The middle Y bound, in quarter-pixel units.
    pub fn ym(&self) -> (r: u16)
        ensures
            r == self.ym,
    {
        self.ym
    }

    /// The bottom Y bound, in quarter-pixel units.
    pub fn yl(&self) -> (r: u16)
        ensures
            r == self.yl,
    {
        self.yl
    }

    /// The high edge's X position.
    pub fn xh(&self) -> (r: i32)
        ensures
            r == self.spec_xh(),
    {
        (((self.xh as u32) << 16) | (self.xh_frac as u32)) as i32
    }

    /// The middle edge's X position.
    pub fn xm(&self) -> (r: i32)
        ensures
            r == self.spec_xm(),
    {
        (((self.xm as u32) << 16) | (self.xm_frac as u32)) as i32
    }

    /// The low edge's X position.
    pub fn xl(&self) -> (r: i32)
        ensures
            r == self.spec_xl(),
    {
        (((self.xl as u32) << 16) | (self.xl_frac as u32)) as i32
    }

    /// The high edge's per-scanline X slope.
    pub fn dx_h_dy(&self) -> (r: i32)
        ensures
            r == self.spec_dx_h_dy(),
    {
        (((self.dx_h_dy as u32) << 16) | (self.dx_h_dy_frac as u32)) as i32
    }

    /// The middle edge's per-scanline X slope.
    pub fn dx_m_dy(&self) -> (r: i32)
        ensures
            r == self.spec_dx_m_dy(),
    {
        (((self.dx_m_dy as u32) << 16) | (self.dx_m_dy_frac as u32)) as i32
    }

    /// The low edge's per-scanline X slope.
    pub fn dx_l_dy(&self) -> (r: i32)
        ensures
            r == self.spec_dx_l_dy(),
    {
        (((self.dx_l_dy as u32) << 16) | (self.dx_l_dy_frac as u32)) as i32
    }
}

/// The four color-channel attributes (red, green, blue, alpha) of a
/// shaded triangle, as the raw halves of the command stream's shade
/// coefficient block.
#[derive(Debug)]
pub struct ShadeCoefficients {
    pub red: u16,
    pub green: u16,
    pub blue: u16,
    pub alpha: u16,
    pub dr_dx: u16,
    pub dg_dx: u16,
    pub db_dx: u16,
    pub da_dx: u16,
    pub red_frac: u16,
    pub green_frac: u16,
    pub blue_frac: u16,
    pub alpha_frac: u16,
    pub dr_dx_frac: u16,
    pub dg_dx_frac: u16,
    pub db_dx_frac: u16,
    pub da_dx_frac: u16,
    pub dr_de: u16,
    pub dg_de: u16,
    pub db_de: u16,
    pub da_de: u16,
    pub dr_dy: u16,
    pub dg_dy: u16,
    pub db_dy: u16,
    pub da_dy: u16,
    pub dr_de_frac: u16,
    pub dg_de_frac: u16,
    pub db_de_frac: u16,
    pub da_de_frac: u16,
    pub dr_dy_frac: u16,
    pub dg_dy_frac: u16,
    pub db_dy_frac: u16,
    pub da_dy_frac: u16,
}

/// The three texture-coordinate attributes (s, t, w) of a textured
/// triangle, as the raw halves of the command stream's texture
/// coefficient block.
#[derive(Debug)]
pub struct TextureCoefficients {
    pub s: u16,
    pub t: u16,
    pub w: u16,
    pub ds_dx: u16,
    pub dt_dx: u16,
    pub dw_dx: u16,
    pub s_frac: u16,
    pub t_frac: u16,
    pub w_frac: u16,
    pub ds_dx_frac: u16,
    pub dt_dx_frac: u16,
    pub dw_dx_frac: u16,
    pub ds_de: u16,
    pub dt_de: u16,
    pub dw_de: u16,
    pub ds_dy: u16,
    pub dt_dy: u16,
    pub dw_dy: u16,
    pub ds_de_frac: u16,
    pub dt_de_frac: u16,
    pub dw_de_frac: u16,
    pub ds_dy_frac: u16,
    pub dt_dy_frac: u16,
    pub dw_dy_frac: u16,
}

impl TextureCoefficients {
    /// The s attribute's model.
    pub open spec fn spec_s(self) -> CoefficientModel {
        CoefficientModel {
            val: spec_fix(self.s, self.s_frac),
            dx: spec_fix(self.ds_dx, self.ds_dx_frac),
            dy: spec_fix(self.ds_dy, self.ds_dy_frac),
            de: spec_fix(self.ds_de, self.ds_de_frac),
        }
    }

    /// The t attribute's model.
    pub open spec fn spec_t(self) -> CoefficientModel {
        CoefficientModel {
            val: spec_fix(self.t, self.t_frac),
            dx: spec_fix(self.dt_dx, self.dt_dx_frac),
            dy: spec_fix(self.dt_dy, self.dt_dy_frac),
            de: spec_fix(self.dt_de, self.dt_de_frac),
        }
    }

    /// The w attribute's model.
    pub open spec fn spec_w(self) -> CoefficientModel {
        CoefficientModel {
            val: spec_fix(self.w, self.w_frac),
            dx: spec_fix(self.dw_dx, self.dw_dx_frac),
            dy: spec_fix(self.dw_dy, self.dw_dy_frac),
            de: spec_fix(self.dw_de, self.dw_de_frac),
        }
    }

    /// The models of the three attributes in interpolation order.
    pub open spec fn spec_models(self) -> Seq<CoefficientModel> {
        seq![self.spec_s(), self.spec_t(), self.spec_w()]
    }

    /// The starting s value.
    pub fn s(&self) -> (r: i32)
        ensures
            r == self.spec_s().val,
    {
        whole2frac(self.s, self.s_frac)
    }

    /// The starting t value.
    pub fn t(&self) -> (r: i32)
        ensures
            r == self.spec_t().val,
    {
        whole2frac(self.t, self.t_frac)
    }

    /// The starting w value.
    pub fn w(&self) -> (r: i32)
        ensures
            r == self.spec_w().val,
    {
        whole2frac(self.w, self.w_frac)
    }

    /// The s attribute's per-pixel slope.
    pub fn ds_dx(&self) -> (r: i32)
        ensures
            r == self.spec_s().dx,
    {
        whole2frac(self.ds_dx, self.ds_dx_frac)
    }

    /// The t attribute's per-pixel slope.
    pub fn dt_dx(&self) -> (r: i32)
        ensures
            r == self.spec_t().dx,
    {
        whole2frac(self.dt_dx, self.dt_dx_frac)
    }

    /// The w attribute's per-pixel slope.
    pub fn dw_dx(&self) -> (r: i32)
        ensures
            r == self.spec_w().dx,
    {
        whole2frac(self.dw_dx, self.dw_dx_frac)
    }

    /// The s attribute's per-scanline slope.
    pub fn ds_dy(&self) -> (r: i32)
        ensures
            r == self.spec_s().dy,
    {
        whole2frac(self.ds_dy, self.ds_dy_frac)
    }

    /// The t attribute's per-scanline slope.
    pub fn dt_dy(&self) -> (r: i32)
        ensures
            r == self.spec_t().dy,
    {
        whole2frac(self.dt_dy, self.dt_dy_frac)
    }

    /// The w attribute's per-scanline slope.
    pub fn dw_dy(&self) -> (r: i32)
        ensures
            r == self.spec_w().dy,
    {
        whole2frac(self.dw_dy, self.dw_dy_frac)
    }

    /// The s attribute's edge-relative slope.
    pub fn ds_de(&self) -> (r: i32)
        ensures
            r == self.spec_s().de,
    {
        whole2frac(self.ds_de, self.ds_de_frac)
    }

    /// The t attribute's edge-relative slope.
    pub fn dt_de(&self) -> (r: i32)
        ensures
            r == self.spec_t().de,
    {
        whole2frac(self.dt_de, self.dt_de_frac)
    }

    /// The w attribute's edge-relative slope.
    pub fn dw_de(&self) -> (r: i32)
        ensures
            r == self.spec_w().de,
    {
        whole2frac(self.dw_de, self.dw_de_frac)
    }

    /// The attributes as a uniform list of coefficients, in the order
    /// s, t, w, ready for interpolation.
    pub fn to_vec(&self) -> (r: Vec<Coefficient>)
        ensures
            models_of(r@) == self.spec_models(),
    {
        let s = Coefficient {
            whole: self.s,
            frac: self.s_frac,
            dx_whole: self.ds_dx,
            de_whole: self.ds_de,
            dy_whole: self.ds_dy,
            dx_frac: self.ds_dx_frac,
            de_frac: self.ds_de_frac,
            dy_frac: self.ds_dy_frac,
        };
        let t = Coefficient {
            whole: self.t,
            frac: self.t_frac,
            dx_whole: self.dt_dx,
            de_whole: self.dt_de,
            dy_whole: self.dt_dy,
            dx_frac: self.dt_dx_frac,
            de_frac: self.dt_de_frac,
            dy_frac: self.dt_dy_frac,
        };
        let w = Coefficient {
            whole: self.w,
            frac: self.w_frac,
            dx_whole: self.dw_dx,
            de_whole: self.dw_de,
            dy_whole: self.dw_dy,
            dx_frac: self.dw_dx_frac,
            de_frac: self.dw_de_frac,
            dy_frac: self.dw_dy_frac,
        };
        let r = vec![s, t, w];
        proof {
            assert(models_of(r@) =~= self.spec_models());
        }
        r
    }
}

impl ShadeCoefficients {
    /// The red channel's model.
    pub open spec fn spec_red(self) -> CoefficientModel {
        CoefficientModel {
            val: spec_fix(self.red, self.red_frac),
            dx: spec_fix(self.dr_dx, self.dr_dx_frac),
            dy: spec_fix(self.dr_dy, self.dr_dy_frac),
            de: spec_fix(self.dr_de, self.dr_de_frac),
        }
    }

    /// The green channel's model.
    pub open spec fn spec_green(self) -> CoefficientModel {
        CoefficientModel {
            val: spec_fix(self.green, self.green_frac),
            dx: spec_fix(self.dg_dx, self.dg_dx_frac),
            dy: spec_fix(self.dg_dy, self.dg_dy_frac),
            de: spec_fix(self.dg_de, self.dg_de_frac),
        }
    }

    /// The blue channel's model.
    pub open spec fn spec_blue(self) -> CoefficientModel {
        CoefficientModel {
            val: spec_fix(self.blue, self.blue_frac),
            dx: spec_fix(self.db_dx, self.db_dx_frac),
            dy: spec_fix(self.db_dy, self.db_dy_frac),
            de: spec_fix(self.db_de, self.db_de_frac),
        }
    }

    /// The alpha channel's model.
    pub open spec fn spec_alpha(self) -> CoefficientModel {
        CoefficientModel {
            val: spec_fix(self.alpha, self.alpha_frac),
            dx: spec_fix(self.da_dx, self.da_dx_frac),
            dy: spec_fix(self.da_dy, self.da_dy_frac),
            de: spec_fix(self.da_de, self.da_de_frac),
        }
    }

    /// The models of the four channels in interpolation order.
    pub open spec fn spec_models(self) -> Seq<CoefficientModel> {
        seq![self.spec_red(), self.spec_green(), self.spec_blue(), self.spec_alpha()]
    }

    /// The starting red value.
    pub fn red(&self) -> (r: i32)
        ensures
            r == self.spec_red().val,
    {
        (((self.red as u32) << 16) | (self.red_frac as u32)) as i32
    }

    /// The starting green value.
    pub fn green(&self) -> (r: i32)
        ensures
            r == self.spec_green().val,
    {
        (((self.green as u32) << 16) | (self.green_frac as u32)) as i32
    }

    /// The starting blue value.
    pub fn blue(&self) -> (r: i32)
        ensures
            r == self.spec_blue().val,
    {
        (((self.blue as u32) << 16) | (self.blue_frac as u32)) as i32
    }

    /// The starting alpha value.
    pub fn alpha(&self) -> (r: i32)
        ensures
            r == self.spec_alpha().val,
    {
        (((self.alpha as u32) << 16) | (self.alpha_frac as u32)) as i32
    }

    /// The red channel's per-pixel slope.
    pub fn dr_dx(&self) -> (r: i32)
        ensures
            r == self.spec_red().dx,
    {
        (((self.dr_dx as u32) << 16) | (self.dr_dx_frac as u32)) as i32
    }

    /// The green channel's per-pixel slope.
    pub fn dg_dx(&self) -> (r: i32)
        ensures
            r == self.spec_green().dx,
    {
        (((self.dg_dx as u32) << 16) | (self.dg_dx_frac as u32)) as i32
    }

    /// The blue channel's per-pixel slope.
    pub fn db_dx(&self) -> (r: i32)
        ensures
            r == self.spec_blue().dx,
    {
        (((self.db_dx as u32) << 16) | (self.db_dx_frac as u32)) as i32
    }

    /// The alpha channel's per-pixel slope.
    pub fn da_dx(&self) -> (r: i32)
        ensures
            r == self.spec_alpha().dx,
    {
        (((self.da_dx as u32) << 16) | (self.da_dx_frac as u32)) as i32
    }

    /// The red channel's per-scanline slope.
    pub fn dr_dy(&self) -> (r: i32)
        ensures
            r == self.spec_red().dy,
    {
        (((self.dr_dy as u32) << 16) | (self.dr_dy_frac as u32)) as i32
    }

    /// The green channel's per-scanline slope.
    pub fn dg_dy(&self) -> (r: i32)
        ensures
            r == self.spec_green().dy,
    {
        (((self.dg_dy as u32) << 16) | (self.dg_dy_frac as u32)) as i32
    }

    /// The blue channel's per-scanline slope.
    pub fn db_dy(&self) -> (r: i32)
        ensures
            r == self.spec_blue().dy,
    {
        (((self.db_dy as u32) << 16) | (self.db_dy_frac as u32)) as i32
    }

    /// The alpha channel's per-scanline slope.
    pub fn da_dy(&self) -> (r: i32)
        ensures
            r == self.spec_alpha().dy,
    {
        (((self.da_dy as u32) << 16) | (self.da_dy_frac as u32)) as i32
    }

    /// The red channel's edge-relative slope.
    pub fn dr_de(&self) -> (r: i32)
        ensures
            r == self.spec_red().de,
    {
        (((self.dr_de as u32) << 16) | (self.dr_de_frac as u32)) as i32
    }

    /// The green channel's edge-relative slope.
    pub fn dg_de(&self) -> (r: i32)
        ensures
            r == self.spec_green().de,
    {
        (((self.dg_de as u32) << 16) | (self.dg_de_frac as u32)) as i32
    }

    /// The blue channel's edge-relative slope.
    pub fn db_de(&self) -> (r: i32)
        ensures
            r == self.spec_blue().de,
    {
        (((self.db_de as u32) << 16) | (self.db_de_frac as u32)) as i32
    }

    /// The alpha channel's edge-relative slope.
    pub fn da_de(&self) -> (r: i32)
        ensures
            r == self.spec_alpha().de,
    {
        (((self.da_de as u32) << 16) | (self.da_de_frac as u32)) as i32
    }

    /// The channels as a uniform list of coefficients, in the order
    /// red, green, blue, alpha, ready for interpolation.
    pub fn to_vec(&self) -> (r: Vec<Coefficient>)
        ensures
            models_of(r@) == self.spec_models(),
    {
        let red = Coefficient {
            whole: self.red,
            frac: self.red_frac,
            dx_whole: self.dr_dx,
            de_whole: self.dr_de,
            dy_whole: self.dr_dy,
            dx_frac: self.dr_dx_frac,
            de_frac: self.dr_de_frac,
            dy_frac: self.dr_dy_frac,
        };
        let green = Coefficient {
            whole: self.green,
            frac: self.green_frac,
            dx_whole: self.dg_dx,
            de_whole: self.dg_de,
            dy_whole: self.dg_dy,
            dx_frac: self.dg_dx_frac,
            de_frac: self.dg_de_frac,
            dy_frac: self.dg_dy_frac,
        };
        let blue = Coefficient {
            whole: self.blue,
            frac: self.blue_frac,
            dx_whole: self.db_dx,
            de_whole: self.db_de,
            dy_whole: self.db_dy,
            dx_frac: self.db_dx_frac,
            de_frac: self.db_de_frac,
            dy_frac: self.db_dy_frac,
        };
        let alpha = Coefficient {
            whole: self.alpha,
            frac: self.alpha_frac,
            dx_whole: self.da_dx,
            de_whole: self.da_de,
            dy_whole: self.da_dy,
            dx_frac: self.da_dx_frac,
            de_frac: self.da_de_frac,
            dy_frac: self.da_dy_frac,
        };
        let r = vec![red, green, blue, alpha];
        proof {
            assert(models_of(r@) =~= self.spec_models());
        }
        r
    }
}

} // verus!
