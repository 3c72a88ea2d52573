use magic::CommandError;
use magic::CommandReader;
use magic::EdgeCoefficients;
use magic::RDPCommand;
use magic::TextureFormat;
use magic::TextureSize;

#[test]
fn parse_nop() {
    let data = [0u8; 8];
    let mut reader = CommandReader::new(&data);
    let command: RDPCommand = reader.read_command().unwrap();
    match command {
        RDPCommand::Nop => {},
        _ => panic!("wrong command"),
    }
}

#[test]
fn parse_invalid() {
    let data = [1u8; 8];
    let mut reader = CommandReader::new(&data);
    let command: Result<RDPCommand, CommandError> = reader.read_command();
    assert!(command.is_err())
}

#[test]
fn parse_invalid_leaves_position() {
    let data = [1u8; 8];
    let mut reader = CommandReader::new(&data);
    assert!(matches!(reader.read_command(), Err(CommandError::InvalidOpcode)));
    assert_eq!(reader.pos, 0);
}

#[test]
fn parse_empty_stream_is_eof() {
    let data: [u8; 0] = [];
    let mut reader = CommandReader::new(&data);
    assert!(matches!(reader.read_command(), Err(CommandError::UnexpectedEof)));
    assert_eq!(reader.pos, 0);
}

#[test]
fn parse_short_word_is_eof() {
    let data = [0u8; 5];
    let mut reader = CommandReader::new(&data);
    assert!(matches!(reader.read_command(), Err(CommandError::UnexpectedEof)));
}

#[test]
fn set_fill_color_payload() {
    let word: u64 = (0x37u64 << 56) | 0xAABBCCDD;
    let data = word.to_be_bytes();
    let mut reader = CommandReader::new(&data);
    match reader.read_command().unwrap() {
        RDPCommand::SetFillColor(c) => {
            assert_eq!(c.color1, 0xAABBCCDD);
            assert_eq!(c.color2, 0xAABBCCDD);
        },
        _ => panic!("wrong command"),
    }
}

#[test]
fn parse_set_texture_image() {
    let word: u64 =
        (0x3Du64 << 56) | (3u64 << 53) | (2u64 << 51) | (500u64 << 32) | 0x0012_3456;
    let data = word.to_be_bytes();
    let mut reader = CommandReader::new(&data);
    match reader.read_command().unwrap() {
        RDPCommand::SetTextureImage(img) => {
            assert_eq!(img.format, TextureFormat::IA);
            assert_eq!(img.size, TextureSize::Bit16);
            assert_eq!(img.width, 500);
            assert_eq!(img.addr, 0x0012_3456);
        },
        _ => panic!("wrong command"),
    }
    assert_eq!(reader.pos, 8);
}

#[test]
fn parse_fill_rectangle() {
    let word: u64 = (0x36u64 << 56) | (400u64 << 44) | (240u64 << 32) | (40u64 << 12) | 16u64;
    let data = word.to_be_bytes();
    let mut reader = CommandReader::new(&data);
    match reader.read_command().unwrap() {
        RDPCommand::FillRectangle(r) => {
            assert_eq!(r.xl, 400);
            assert_eq!(r.yl, 240);
            assert_eq!(r.xh, 40);
            assert_eq!(r.yh, 16);
        },
        _ => panic!("wrong command"),
    }
}

#[test]
fn parse_set_tile() {
    let word: u64 = (0x35u64 << 56) | (1u64 << 53) | (2u64 << 51) | (0x155u64 << 41)
        | (0x0ABu64 << 32) | (2u64 << 24);
    let data = word.to_be_bytes();
    let mut reader = CommandReader::new(&data);
    match reader.read_command().unwrap() {
        RDPCommand::SetTile(t) => {
            assert_eq!(t.format, TextureFormat::YUV);
            assert_eq!(t.size, TextureSize::Bit16);
            assert_eq!(t.line_width, 0x155);
            assert_eq!(t.tmem_addr, 0x0AB);
            assert_eq!(t.tile, 2);
        },
        _ => panic!("wrong command"),
    }
}

#[test]
fn parse_load_tile() {
    let word: u64 =
        (0x34u64 << 56) | (40u64 << 44) | (20u64 << 32) | (1u64 << 24) | (120u64 << 12) | 60u64;
    let data = word.to_be_bytes();
    let mut reader = CommandReader::new(&data);
    match reader.read_command().unwrap() {
        RDPCommand::LoadTile { tile, sl, sh, tl, th } => {
            assert_eq!(tile, 1);
            assert_eq!(sl, 40);
            assert_eq!(tl, 20);
            assert_eq!(sh, 120);
            assert_eq!(th, 60);
        },
        _ => panic!("wrong command"),
    }
}

#[test]
fn parse_set_combine_mode() {
    let word: u64 = (0x3Cu64 << 56) | (0x9u64 << 52) | (0x15u64 << 47) | (0x5u64 << 3) | 0x6u64;
    let data = word.to_be_bytes();
    let mut reader = CommandReader::new(&data);
    match reader.read_command().unwrap() {
        RDPCommand::SetCombineMode(m) => {
            assert_eq!(m.sub_a_r_0, 0x9);
            assert_eq!(m.mul_r_0, 0x15);
            assert_eq!(m.sub_b_a_1, 0x5);
            assert_eq!(m.add_a_1, 0x6);
        },
        _ => panic!("wrong command"),
    }
}

#[test]
fn parse_fill_triangle() {
    let w0: u64 = (0x08u64 << 56) | (1u64 << 55) | (2u64 << 51) | (5u64 << 48) | (100u64 << 32)
        | (80u64 << 16) | 60u64;
    let dl: u64 = (11u64 << 48) | (0x8000u64 << 32) | (2u64 << 16) | 0x4000u64;
    let dh: u64 = (7u64 << 48) | (0x1234u64 << 32) | (0xFFFFu64 << 16) | 0x0001u64;
    let dm: u64 = (9u64 << 48) | (0x0000u64 << 32) | (3u64 << 16) | 0x8000u64;
    let mut data = Vec::new();
    data.extend_from_slice(&w0.to_be_bytes());
    data.extend_from_slice(&dl.to_be_bytes());
    data.extend_from_slice(&dh.to_be_bytes());
    data.extend_from_slice(&dm.to_be_bytes());
    let mut reader = CommandReader::new(&data);
    match reader.read_command().unwrap() {
        RDPCommand::FillTriangle(e) => {
            assert!(e.right_major);
            assert_eq!(e.level, 2);
            assert_eq!(e.tile, 5);
            assert_eq!(e.yl(), 100);
            assert_eq!(e.ym(), 80);
            assert_eq!(e.yh(), 60);
            assert_eq!(e.xl(), 0x000B_8000);
            assert_eq!(e.dx_l_dy(), 0x0002_4000);
            assert_eq!(e.xh(), 0x0007_1234);
            assert_eq!(e.dx_h_dy(), -65535);
            assert_eq!(e.xm(), 0x0009_0000);
            assert_eq!(e.dx_m_dy(), 0x0003_8000);
        },
        _ => panic!("wrong command"),
    }
    assert_eq!(reader.pos, 32);
}

#[test]
fn parse_fill_triangle_truncated_is_eof() {
    let w0: u64 = 0x08u64 << 56;
    let mut data = Vec::new();
    data.extend_from_slice(&w0.to_be_bytes());
    data.extend_from_slice(&[0u8; 10]);
    let mut reader = CommandReader::new(&data);
    assert!(matches!(reader.read_command(), Err(CommandError::UnexpectedEof)));
    assert_eq!(reader.pos, 0);
}

#[test]
fn parse_shade_triangle() {
    let w0: u64 = (0x0Cu64 << 56) | (8u64 << 32) | (8u64 << 16) | 0u64;
    let mut data = Vec::new();
    data.extend_from_slice(&w0.to_be_bytes());
    for _ in 0..3 {
        data.extend_from_slice(&0u64.to_be_bytes());
    }
    let colors: u64 = (0x00C8u64 << 48) | (0x0064u64 << 32) | (0x0032u64 << 16) | 0x00FFu64;
    data.extend_from_slice(&colors.to_be_bytes());
    let dxs: u64 = (1u64 << 48) | (2u64 << 32) | (3u64 << 16) | 4u64;
    data.extend_from_slice(&dxs.to_be_bytes());
    for _ in 0..5 {
        data.extend_from_slice(&0u64.to_be_bytes());
    }
    let dy_fracs: u64 = (0x1111u64 << 48) | (0x2222u64 << 32) | (0x3333u64 << 16) | 0x4444u64;
    data.extend_from_slice(&dy_fracs.to_be_bytes());
    let mut reader = CommandReader::new(&data);
    match reader.read_command().unwrap() {
        RDPCommand::ShadeTriangle(_e, s) => {
            assert_eq!(s.red(), 0x00C8_0000);
            assert_eq!(s.green(), 0x0064_0000);
            assert_eq!(s.blue(), 0x0032_0000);
            assert_eq!(s.alpha(), 0x00FF_0000);
            assert_eq!(s.dr_dx(), 0x0001_0000);
            assert_eq!(s.dg_dx(), 0x0002_0000);
            assert_eq!(s.db_dx(), 0x0003_0000);
            assert_eq!(s.da_dx(), 0x0004_0000);
            assert_eq!(s.dr_dy(), 0x0000_1111);
            assert_eq!(s.dg_dy(), 0x0000_2222);
            assert_eq!(s.db_dy(), 0x0000_3333);
            assert_eq!(s.da_dy(), 0x0000_4444);
            let v = s.to_vec();
            assert_eq!(v.len(), 4);
            assert_eq!(v[0].val(), 0x00C8_0000);
            assert_eq!(v[1].val(), 0x0064_0000);
            assert_eq!(v[2].dx(), 0x0003_0000);
            assert_eq!(v[3].dy(), 0x0000_4444);
        },
        _ => panic!("wrong command"),
    }
    assert_eq!(reader.pos, 96);
}

#[test]
fn parse_texture_triangle() {
    let w0: u64 = (0x0Au64 << 56) | (4u64 << 32) | (4u64 << 16) | 0u64;
    let mut data = Vec::new();
    data.extend_from_slice(&w0.to_be_bytes());
    for _ in 0..3 {
        data.extend_from_slice(&0u64.to_be_bytes());
    }
    let stw: u64 = (0x0020u64 << 48) | (0x0040u64 << 32) | (0x0001u64 << 16);
    data.extend_from_slice(&stw.to_be_bytes());
    for _ in 0..3 {
        data.extend_from_slice(&0u64.to_be_bytes());
    }
    let des: u64 = (5u64 << 48) | (6u64 << 32) | (7u64 << 16);
    data.extend_from_slice(&des.to_be_bytes());
    for _ in 0..3 {
        data.extend_from_slice(&0u64.to_be_bytes());
    }
    let mut reader = CommandReader::new(&data);
    match reader.read_command().unwrap() {
        RDPCommand::TextureTriangle(_e, t) => {
            assert_eq!(t.s(), 0x0020_0000);
            assert_eq!(t.t(), 0x0040_0000);
            assert_eq!(t.w(), 0x0001_0000);
            assert_eq!(t.ds_de(), 0x0005_0000);
            assert_eq!(t.dt_de(), 0x0006_0000);
            assert_eq!(t.dw_de(), 0x0007_0000);
            let v = t.to_vec();
            assert_eq!(v.len(), 3);
            assert_eq!(v[0].val(), 0x0020_0000);
            assert_eq!(v[2].de(), 0x0007_0000);
        },
        _ => panic!("wrong command"),
    }
    assert_eq!(reader.pos, 96);
}

#[test]
fn reader_position_advances_per_command() {
    let mut data = Vec::new();
    data.extend_from_slice(&0u64.to_be_bytes());
    data.extend_from_slice(&((0x37u64 << 56) | 0x11).to_be_bytes());
    let mut reader = CommandReader::new(&data);
    assert!(matches!(reader.read_command(), Ok(RDPCommand::Nop)));
    assert_eq!(reader.pos, 8);
    assert!(matches!(reader.read_command(), Ok(RDPCommand::SetFillColor(_))));
    assert_eq!(reader.pos, 16);
    assert!(matches!(reader.read_command(), Err(CommandError::UnexpectedEof)));
    assert_eq!(reader.pos, 16);
}

#[test]
fn edge_coefficients_read_consumes_three_words() {
    let dl: u64 = (1u64 << 48) | (2u64 << 32) | (3u64 << 16) | 4u64;
    let dh: u64 = (5u64 << 48) | (6u64 << 32) | (7u64 << 16) | 8u64;
    let dm: u64 = (9u64 << 48) | (10u64 << 32) | (11u64 << 16) | 12u64;
    let mut data = Vec::new();
    data.extend_from_slice(&dl.to_be_bytes());
    data.extend_from_slice(&dh.to_be_bytes());
    data.extend_from_slice(&dm.to_be_bytes());
    let mut reader = CommandReader::new(&data);
    let value: u64 = (1u64 << 55) | (300u64 << 32) | (200u64 << 16) | 100u64;
    let e = EdgeCoefficients::read(&mut reader, value).unwrap();
    assert!(e.right_major);
    assert_eq!(e.yl(), 300);
    assert_eq!(e.ym(), 200);
    assert_eq!(e.yh(), 100);
    assert_eq!(e.xl(), 0x0001_0002);
    assert_eq!(e.dx_l_dy(), 0x0003_0004);
    assert_eq!(e.xh(), 0x0005_0006);
    assert_eq!(e.dx_h_dy(), 0x0007_0008);
    assert_eq!(e.xm(), 0x0009_000A);
    assert_eq!(e.dx_m_dy(), 0x000B_000C);
    assert_eq!(reader.pos, 24);
}

#[test]
fn edge_coefficients_read_short_is_eof() {
    let data = [0u8; 20];
    let mut reader = CommandReader::new(&data);
    assert!(EdgeCoefficients::read(&mut reader, 0).is_err());
    assert_eq!(reader.pos, 0);
}

#[test]
fn command_list_runs_to_end_of_stream() {
    let mut data = Vec::new();
    data.extend_from_slice(&((0x37u64 << 56) | 0x00FF_00FF).to_be_bytes());
    let tri: u64 = (0x08u64 << 56) | (1u64 << 55) | (8u64 << 32) | (8u64 << 16);
    data.extend_from_slice(&tri.to_be_bytes());
    for _ in 0..3 {
        data.extend_from_slice(&0u64.to_be_bytes());
    }
    data.extend_from_slice(&0u64.to_be_bytes());
    let mut reader = CommandReader::new(&data);
    let mut seen = Vec::new();
    loop {
        match reader.read_command() {
            Ok(RDPCommand::SetFillColor(c)) => seen.push(format!("color {:08X}", c.color1)),
            Ok(RDPCommand::FillTriangle(e)) => seen.push(format!("tri yl {}", e.yl())),
            Ok(RDPCommand::Nop) => seen.push(String::from("nop")),
            Ok(_) => panic!("unexpected command"),
            Err(CommandError::UnexpectedEof) => break,
            Err(CommandError::InvalidOpcode) => panic!("unexpected parse error"),
        }
    }
    assert_eq!(seen, vec!["color 00FF00FF", "tri yl 8", "nop"]);
    assert_eq!(reader.pos, data.len());
}

#[test]
fn default_state_values() {
    let img = magic::ImageReference::default();
    assert_eq!(img.format, TextureFormat::RGBA);
    assert_eq!(img.size, TextureSize::Bit4);
    assert_eq!(img.width, 0);
    assert_eq!(img.addr, 0);
    let tile = magic::Tile::default();
    assert_eq!(tile.format, TextureFormat::RGBA);
    assert_eq!(tile.size, TextureSize::Bit4);
    assert_eq!(tile.line_width, 0);
    assert_eq!(tile.tmem_addr, 0);
    assert_eq!(tile.tile, 0);
    assert_eq!(TextureFormat::default(), TextureFormat::RGBA);
    assert_eq!(TextureSize::default(), TextureSize::Bit4);
}

#[test]
fn texture_format_and_size_from_u8() {
    assert_eq!(TextureFormat::from_u8(0), TextureFormat::RGBA);
    assert_eq!(TextureFormat::from_u8(1), TextureFormat::YUV);
    assert_eq!(TextureFormat::from_u8(2), TextureFormat::ColorIndex);
    assert_eq!(TextureFormat::from_u8(3), TextureFormat::IA);
    assert_eq!(TextureFormat::from_u8(4), TextureFormat::I);
    assert_eq!(TextureFormat::from_u8(7), TextureFormat::RGBA);
    assert_eq!(TextureSize::from_u8(0), TextureSize::Bit4);
    assert_eq!(TextureSize::from_u8(1), TextureSize::Bit8);
    assert_eq!(TextureSize::from_u8(2), TextureSize::Bit16);
    assert_eq!(TextureSize::from_u8(3), TextureSize::Bit32);
    assert_eq!(TextureSize::from_u8(200), TextureSize::Bit4);
}
