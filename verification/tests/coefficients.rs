use magic::Coefficient;
use magic::EdgeCoefficients;

#[test]
fn coefficient_reassembles_fixed_point() {
    let c = Coefficient {
        whole: 0x0001,
        frac: 0x8000,
        dx_whole: 0xFFFF,
        dy_whole: 0x0002,
        de_whole: 0x0000,
        dx_frac: 0x0000,
        dy_frac: 0x0001,
        de_frac: 0xFFFF,
    };
    assert_eq!(c.val(), 0x0001_8000);
    assert_eq!(c.dx(), -65536);
    assert_eq!(c.dy(), 0x0002_0001);
    assert_eq!(c.de(), 0x0000_FFFF);
}

#[test]
fn coefficient_set_dx_replaces_only_dx() {
    let mut c = Coefficient {
        whole: 5,
        frac: 6,
        dx_whole: 7,
        dy_whole: 8,
        de_whole: 9,
        dx_frac: 10,
        dy_frac: 11,
        de_frac: 12,
    };
    let before_val = c.val();
    let before_dy = c.dy();
    let before_de = c.de();
    c.set_dx(-3);
    assert_eq!(c.dx(), -3);
    assert_eq!(c.val(), before_val);
    assert_eq!(c.dy(), before_dy);
    assert_eq!(c.de(), before_de);
    c.set_dx(0x1234_5678);
    assert_eq!(c.dx(), 0x1234_5678);
}

#[test]
fn edge_coefficients_accessors() {
    let e = EdgeCoefficients {
        right_major: false,
        level: 1,
        tile: 3,
        yl: 400,
        ym: 300,
        yh: 200,
        xl: 0x0010,
        xl_frac: 0x8000,
        dx_l_dy: 0xFFFF,
        dx_l_dy_frac: 0xFFFF,
        xh: 0x0020,
        xh_frac: 0x0000,
        dx_h_dy: 0x0001,
        dx_h_dy_frac: 0x0000,
        xm: 0x0030,
        xm_frac: 0x4000,
        dx_m_dy: 0x0000,
        dx_m_dy_frac: 0x0002,
    };
    assert_eq!(e.yh(), 200);
    assert_eq!(e.ym(), 300);
    assert_eq!(e.yl(), 400);
    assert_eq!(e.xl(), 0x0010_8000);
    assert_eq!(e.dx_l_dy(), -1);
    assert_eq!(e.xh(), 0x0020_0000);
    assert_eq!(e.dx_h_dy(), 0x0001_0000);
    assert_eq!(e.xm(), 0x0030_4000);
    assert_eq!(e.dx_m_dy(), 0x0000_0002);
}
