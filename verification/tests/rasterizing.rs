use magic::ImageReference;
use magic::EdgeCoefficients;
use magic::ShadeCoefficients;
use magic::TextureCoefficients;
use magic::Tile;
use magic::RDP;

fn new_rdp() -> RDP {
    RDP {
        texture: ImageReference::default(),
        tiles: [Tile::default(); 8],
        active_tile: 0,
        texmem: [0; 4096],
    }
}

fn new_fb() -> Vec<u8> {
    vec![0u8; 320 * 240 * 4]
}

fn edge(rm: bool, yh: u16, ym: u16, yl: u16, xh: u16, xm: u16, xl: u16) -> EdgeCoefficients {
    EdgeCoefficients {
        right_major: rm,
        level: 0,
        tile: 0,
        yl,
        ym,
        yh,
        xl,
        xl_frac: 0,
        dx_l_dy: 0,
        dx_l_dy_frac: 0,
        xh,
        xh_frac: 0,
        dx_h_dy: 0,
        dx_h_dy_frac: 0,
        xm,
        xm_frac: 0,
        dx_m_dy: 0,
        dx_m_dy_frac: 0,
    }
}

fn flat_shade(red: u16, green: u16, blue: u16, alpha: u16) -> ShadeCoefficients {
    ShadeCoefficients {
        red,
        green,
        blue,
        alpha,
        dr_dx: 0,
        dg_dx: 0,
        db_dx: 0,
        da_dx: 0,
        red_frac: 0,
        green_frac: 0,
        blue_frac: 0,
        alpha_frac: 0,
        dr_dx_frac: 0,
        dg_dx_frac: 0,
        db_dx_frac: 0,
        da_dx_frac: 0,
        dr_de: 0,
        dg_de: 0,
        db_de: 0,
        da_de: 0,
        dr_dy: 0,
        dg_dy: 0,
        db_dy: 0,
        da_dy: 0,
        dr_de_frac: 0,
        dg_de_frac: 0,
        db_de_frac: 0,
        da_de_frac: 0,
        dr_dy_frac: 0,
        dg_dy_frac: 0,
        db_dy_frac: 0,
        da_dy_frac: 0,
    }
}

fn flat_texture(s: u16, t: u16, w: u16) -> TextureCoefficients {
    TextureCoefficients {
        s,
        t,
        w,
        ds_dx: 0,
        dt_dx: 0,
        dw_dx: 0,
        s_frac: 0,
        t_frac: 0,
        w_frac: 0,
        ds_dx_frac: 0,
        dt_dx_frac: 0,
        dw_dx_frac: 0,
        ds_de: 0,
        dt_de: 0,
        dw_de: 0,
        ds_dy: 0,
        dt_dy: 0,
        dw_dy: 0,
        ds_de_frac: 0,
        dt_de_frac: 0,
        dw_de_frac: 0,
        ds_dy_frac: 0,
        dt_dy_frac: 0,
        dw_dy_frac: 0,
    }
}

fn pixel(fb: &[u8], x: usize, y: usize) -> [u8; 4] {
    let i = (y * 320 + x) * 4;
    [fb[i], fb[i + 1], fb[i + 2], fb[i + 3]]
}

#[test]
fn degenerate_fill_tri_touches_nothing() {
    let rdp = new_rdp();
    let mut fb = vec![0x77u8; 320 * 240 * 4];
    let e = edge(true, 100, 100, 100, 3, 9, 9);
    rdp.draw_fill_tri(&mut fb, e, 0xFF0000FF);
    assert!(fb.iter().all(|&b| b == 0x77));
}

#[test]
fn fill_tri_flat_spans() {
    let rdp = new_rdp();
    let mut fb = new_fb();
    let e = edge(true, 0, 16, 16, 10, 13, 13);
    rdp.draw_fill_tri(&mut fb, e, 0x112233FF);
    for y in 0..4 {
        for x in 10..=13 {
            assert_eq!(pixel(&fb, x, y), [0x11, 0x22, 0x33, 0xFF]);
        }
        assert_eq!(pixel(&fb, 9, y), [0, 0, 0, 0]);
        assert_eq!(pixel(&fb, 14, y), [0, 0, 0, 0]);
    }
    assert_eq!(pixel(&fb, 10, 4), [0, 0, 0, 0]);
}

#[test]
fn fill_tri_left_major_spans() {
    let rdp = new_rdp();
    let mut fb = new_fb();
    let e = edge(false, 0, 4, 4, 8, 5, 5);
    rdp.draw_fill_tri(&mut fb, e, 0xAABBCCFF);
    for x in 5..=8 {
        assert_eq!(pixel(&fb, x, 0), [0xAA, 0xBB, 0xCC, 0xFF]);
    }
    assert_eq!(pixel(&fb, 4, 0), [0, 0, 0, 0]);
    assert_eq!(pixel(&fb, 9, 0), [0, 0, 0, 0]);
    assert_eq!(pixel(&fb, 5, 1), [0, 0, 0, 0]);
}

#[test]
fn fill_tri_walks_both_phases_with_slopes() {
    let rdp = new_rdp();
    let mut fb = new_fb();
    let mut e = edge(true, 0, 4, 8, 2, 4, 6);
    e.dx_h_dy = 1;
    rdp.draw_fill_tri(&mut fb, e, 0x010203FF);
    for x in 2..=4 {
        assert_eq!(pixel(&fb, x, 0), [1, 2, 3, 0xFF]);
    }
    assert_eq!(pixel(&fb, 5, 0), [0, 0, 0, 0]);
    for x in 3..=6 {
        assert_eq!(pixel(&fb, x, 1), [1, 2, 3, 0xFF]);
    }
    assert_eq!(pixel(&fb, 2, 1), [0, 0, 0, 0]);
    assert_eq!(pixel(&fb, 7, 1), [0, 0, 0, 0]);
    assert_eq!(pixel(&fb, 3, 2), [0, 0, 0, 0]);
}

#[test]
fn fill_tri_below_framebuffer_is_safe() {
    let rdp = new_rdp();
    let mut fb = new_fb();
    let e = edge(true, 956, 1000, 1000, 0, 2, 2);
    rdp.draw_fill_tri(&mut fb, e, 0xFFFFFFFF);
    for x in 0..=2 {
        assert_eq!(pixel(&fb, x, 239), [0xFF, 0xFF, 0xFF, 0xFF]);
    }
    assert_eq!(fb.len(), 320 * 240 * 4);
}

#[test]
fn fill_rect_uses_placeholder_color() {
    let rdp = new_rdp();
    let mut fb = new_fb();
    let r = magic::Rectangle { xl: 12, yl: 8, xh: 4, yh: 4 };
    rdp.draw_fill_rect(&mut fb, r, 0xDEADBEEF);
    for y in 1..=2 {
        for x in 1..=3 {
            assert_eq!(pixel(&fb, x, y), [0x55, 0xAA, 0x55, 0xFF]);
        }
        assert_eq!(pixel(&fb, 0, y), [0, 0, 0, 0]);
        assert_eq!(pixel(&fb, 4, y), [0, 0, 0, 0]);
    }
    assert_eq!(pixel(&fb, 1, 0), [0, 0, 0, 0]);
    assert_eq!(pixel(&fb, 1, 3), [0, 0, 0, 0]);
}

#[test]
fn shade_tri_flat_colors() {
    let rdp = new_rdp();
    let mut fb = new_fb();
    let e = edge(true, 0, 4, 4, 2, 5, 5);
    let s = flat_shade(0x00C8, 0x0064, 0x0032, 0x00FF);
    rdp.draw_shade_tri(&mut fb, e, s);
    for x in 2..=4 {
        assert_eq!(pixel(&fb, x, 0), [0xC8, 0x64, 0x32, 0xFF]);
    }
    assert_eq!(pixel(&fb, 1, 0), [0, 0, 0, 0]);
    assert_eq!(pixel(&fb, 5, 0), [0, 0, 0, 0]);
}

#[test]
fn shade_tri_negative_channel_clamps_to_zero() {
    let rdp = new_rdp();
    let mut fb = new_fb();
    let e = edge(true, 0, 4, 4, 0, 1, 1);
    let s = flat_shade(0x8000, 0x0010, 0x0020, 0x8000);
    rdp.draw_shade_tri(&mut fb, e, s);
    assert_eq!(pixel(&fb, 0, 0), [0x00, 0x10, 0x20, 0x00]);
}

#[test]
fn shade_tri_steps_dx_per_pixel() {
    let rdp = new_rdp();
    let mut fb = new_fb();
    let e = edge(true, 0, 4, 4, 2, 5, 5);
    let mut s = flat_shade(0x00C8, 0x0064, 0x0032, 0x0080);
    s.dr_dx = 1;
    rdp.draw_shade_tri(&mut fb, e, s);
    assert_eq!(pixel(&fb, 2, 0), [0xC8, 0x64, 0x32, 0x80]);
    assert_eq!(pixel(&fb, 3, 0), [0xC9, 0x64, 0x32, 0x80]);
    assert_eq!(pixel(&fb, 4, 0), [0xCA, 0x64, 0x32, 0x80]);
}

#[test]
fn shade_tri_left_major_negates_dx() {
    let rdp = new_rdp();
    let mut fb = new_fb();
    let e = edge(false, 0, 4, 4, 5, 2, 2);
    let mut s = flat_shade(0x00C8, 0, 0, 0x00FF);
    s.dr_dx = 1;
    rdp.draw_shade_tri(&mut fb, e, s);
    assert_eq!(pixel(&fb, 4, 0), [0xC8, 0x00, 0x00, 0xFF]);
    assert_eq!(pixel(&fb, 3, 0), [0xC7, 0x00, 0x00, 0xFF]);
    assert_eq!(pixel(&fb, 2, 0), [0xC6, 0x00, 0x00, 0xFF]);
}

#[test]
fn textured_tri_fetches_texels() {
    let mut rdp = new_rdp();
    rdp.tiles[0].line_width = 1;
    rdp.texmem[20] = 0xDE;
    rdp.texmem[21] = 0xAD;
    rdp.texmem[22] = 0xBE;
    rdp.texmem[23] = 0xEF;
    let mut fb = new_fb();
    let e = edge(true, 0, 4, 4, 0, 1, 1);
    let t = flat_texture(0x0020, 0x0020, 0);
    rdp.draw_textured_tri(&mut fb, e, t);
    assert_eq!(pixel(&fb, 0, 0), [0xDE, 0xAD, 0xBE, 0xEF]);
}

#[test]
fn textured_tri_clamps_tmem_address() {
    let mut rdp = new_rdp();
    rdp.tiles[0].line_width = 0x1FF;
    rdp.texmem[4092] = 9;
    rdp.texmem[4093] = 8;
    rdp.texmem[4094] = 7;
    rdp.texmem[4095] = 6;
    let mut fb = new_fb();
    let e = edge(true, 0, 4, 4, 0, 1, 1);
    let t = flat_texture(0xFFFF, 0xFFFF, 0);
    rdp.draw_textured_tri(&mut fb, e, t);
    assert_eq!(pixel(&fb, 0, 0), [9, 8, 7, 6]);
}

#[test]
fn load_tile_copies_source_region() {
    let mut rdp = new_rdp();
    rdp.texture.width = 3;
    rdp.tiles[0].line_width = 1;
    let mut src = Vec::new();
    for i in 0..64u8 {
        src.push(i);
    }
    rdp.load_tile(&src, 0, 0, 12, 0, 12);
    for i in 0..64usize {
        assert_eq!(rdp.texmem[i], i as u8);
    }
    assert_eq!(rdp.texmem[64], 0);
}

#[test]
fn load_tile_then_textured_draw_reproduces_source() {
    let mut rdp = new_rdp();
    rdp.texture.width = 3;
    rdp.tiles[0].line_width = 1;
    let mut src = Vec::new();
    for i in 0..64u8 {
        src.push(i.wrapping_mul(3));
    }
    rdp.load_tile(&src, 0, 0, 12, 0, 12);
    let mut fb = new_fb();
    let e = edge(true, 0, 4, 4, 0, 1, 1);
    let t = flat_texture(0x0040, 0x0020, 0);
    rdp.draw_textured_tri(&mut fb, e, t);
    let base = (2 + 1 * 4) * 4;
    assert_eq!(
        pixel(&fb, 0, 0),
        [src[base], src[base + 1], src[base + 2], src[base + 3]]
    );
}

#[test]
fn load_tile_skips_missing_source_bytes() {
    let mut rdp = new_rdp();
    rdp.texture.width = 0;
    rdp.tiles[0].line_width = 1;
    let src = [1u8, 2, 3, 4, 5, 6, 7, 8];
    rdp.load_tile(&src, 0, 0, 12, 0, 0);
    assert_eq!(&rdp.texmem[0..8], &src[..]);
    assert!(rdp.texmem[8..].iter().all(|&b| b == 0));
}

#[test]
fn load_tile_skips_out_of_range_destination() {
    let mut rdp = new_rdp();
    rdp.texture.width = 3;
    rdp.tiles[0].line_width = 1;
    rdp.tiles[0].tmem_addr = 0x8000;
    let src = [0xAAu8; 64];
    rdp.load_tile(&src, 0, 0, 12, 0, 12);
    assert!(rdp.texmem.iter().all(|&b| b == 0));
}
