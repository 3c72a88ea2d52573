//! The display processor's command-stream parser: successive 64-bit
//! big-endian words are decoded into typed draw and state commands, each
//! with its own bitfield layout, and the triangle commands carry
//! variable-length trailing coefficient blocks.
//!
//! `CommandReader` holds the byte stream and a read position;
//! `read_command` consumes exactly one command and says, byte for byte,
//! which command the stream held and how far the position moved. Running
//! out of bytes surfaces as `UnexpectedEof` (the driver's end-of-list
//! sentinel), an unassigned opcode as `InvalidOpcode`.

use vstd::prelude::*;

use crate::fixed::EdgeCoefficients;
use crate::fixed::ShadeCoefficients;
use crate::fixed::TextureCoefficients;

verus! {

/// A texture's pixel format.
#[derive(Debug, Copy, Clone, PartialEq, Eq, Structural)]
pub enum TextureFormat {
    RGBA,
    YUV,
    ColorIndex,
    IA,
    I,
}

/// The format selected by a 3-bit command field.
pub open spec fn spec_texture_format(x: u8) -> TextureFormat {
    match x {
        1u8 => TextureFormat::YUV,
        2u8 => TextureFormat::ColorIndex,
        3u8 => TextureFormat::IA,
        4u8 => TextureFormat::I,
        _ => TextureFormat::RGBA,
    }
}

impl TextureFormat {
    /// Decodes a format field; values with no assigned format fall back
    /// to RGBA.
    pub fn from_u8(x: u8) -> (r: TextureFormat)
        ensures
            r == spec_texture_format(x),
    {
        match x {
            1u8 => TextureFormat::YUV,
            2u8 => TextureFormat::ColorIndex,
            3u8 => TextureFormat::IA,
            4u8 => TextureFormat::I,
            _ => TextureFormat::RGBA,
        }
    }
}

impl Default for TextureFormat {
    /// The reset value of a format field.
    fn default() -> (r: Self)
        ensures
            r == TextureFormat::RGBA,
    {
        TextureFormat::RGBA
    }
}

/// A texture's size class: bits per texel.
#[derive(Debug, Copy, Clone, PartialEq, Eq, Structural)]
pub enum TextureSize {
    Bit4,
    Bit8,
    Bit16,
    Bit32,
}

/// The size class selected by a 2-bit command field.
pub open spec fn spec_texture_size(x: u8) -> TextureSize {
    match x {
        1u8 => TextureSize::Bit8,
        2u8 => TextureSize::Bit16,
        3u8 => TextureSize::Bit32,
        _ => TextureSize::Bit4,
    }
}

impl TextureSize {
    /// Decodes a size-class field.
    pub fn from_u8(x: u8) -> (r: TextureSize)
        ensures
            r == spec_texture_size(x),
    {
        match x {
            1u8 => TextureSize::Bit8,
            2u8 => TextureSize::Bit16,
            3u8 => TextureSize::Bit32,
            _ => TextureSize::Bit4,
        }
    }
}

impl Default for TextureSize {
    /// The reset value of a size-class field.
    fn default() -> (r: Self)
        ensures
            r == TextureSize::Bit4,
    {
        TextureSize::Bit4
    }
}

/// The inclusive pixel rectangle of a FillRectangle command, in
/// quarter-pixel units.
#[derive(Debug)]
pub struct Rectangle {
    pub xl: u16,
    pub yl: u16,
    pub xh: u16,
    pub yh: u16,
}

/// The fill color set by SetFillColor; the 32-bit payload stands for
/// both 16-bit sub-colors, so the two fields carry the same value.
#[derive(Debug)]
pub struct FillColor {
    pub color1: u32,
    pub color2: u32,
}

/// The sixteen mode selectors of the two-cycle color combiner, parsed
/// for completeness; the rasterizer does not consult them.
#[derive(Debug)]
pub struct CombineMode {
    pub sub_a_r_0: u8,
    pub mul_r_0: u8,
    pub sub_a_a_0: u8,
    pub mul_a_0: u8,
    pub sub_a_r_1: u8,
    pub mul_r_1: u8,
    pub sub_b_r_0: u8,
    pub sub_b_r_1: u8,
    pub sub_a_a_1: u8,
    pub mul_a_1: u8,
    pub add_r_0: u8,
    pub sub_b_a_0: u8,
    pub add_a_0: u8,
    pub add_r_1: u8,
    pub sub_b_a_1: u8,
    pub add_a_1: u8,
}

/// The current texture image: format, size class, source width in
/// texels, and a byte address into the source image memory.
#[derive(Debug, Copy, Clone)]
pub struct ImageReference {
    pub format: TextureFormat,
    pub size: TextureSize,
    pub width: u16,
    pub addr: u32,
}

impl Default for ImageReference {
    /// The reset state: an RGBA 4-bit image of width 0 at address 0.
    fn default() -> (r: Self)
        ensures
            r.format == TextureFormat::RGBA,
            r.size == TextureSize::Bit4,
            r.width == 0,
            r.addr == 0,
    {
        ImageReference {
            format: TextureFormat::RGBA,
            size: TextureSize::Bit4,
            width: 0,
            addr: 0,
        }
    }
}

/// One tile descriptor: format, size class, line width in 8-byte units,
/// base address into texture memory in 8-byte units, and the tile index.
#[derive(Debug, Copy, Clone)]
pub struct Tile {
    pub format: TextureFormat,
    pub size: TextureSize,
    pub line_width: u16,
    pub tmem_addr: u16,
    pub tile: u8,
}

impl Default for Tile {
    /// The reset state of a tile descriptor.
    fn default() -> (r: Self)
        ensures
            r.format == TextureFormat::RGBA,
            r.size == TextureSize::Bit4,
            r.line_width == 0,
            r.tmem_addr == 0,
            r.tile == 0,
    {
        Tile {
            format: TextureFormat::RGBA,
            size: TextureSize::Bit4,
            line_width: 0,
            tmem_addr: 0,
            tile: 0,
        }
    }
}

/// One parsed display-processor command.
#[derive(Debug)]
pub enum RDPCommand {
    FillTriangle(EdgeCoefficients),
    ShadeTriangle(EdgeCoefficients, ShadeCoefficients),
    TextureTriangle(EdgeCoefficients, TextureCoefficients),
    FillRectangle(Rectangle),
    SetFillColor(FillColor),
    SetCombineMode(CombineMode),
    SetTextureImage(ImageReference),
    SetTile(Tile),
    LoadTile { tile: u8, sl: u16, sh: u16, tl: u16, th: u16 },
    Nop,
}

/// Why reading a command failed.
#[derive(Debug, Copy, Clone, PartialEq, Eq, Structural)]
pub enum CommandError {
    /// Fewer bytes remain than the command requires; the driver's
    /// end-of-list sentinel.
    UnexpectedEof,
    /// The word's opcode field matches no known command.
    InvalidOpcode,
}

/// The big-endian 64-bit word held at byte offset `i` of the stream.
pub open spec fn spec_word_at(s: Seq<u8>, i: int) -> u64 {
    ((s[i] as u64) << 56) | ((s[i + 1] as u64) << 48) | ((s[i + 2] as u64) << 40) | ((s[i + 3]
        as u64) << 32) | ((s[i + 4] as u64) << 24) | ((s[i + 5] as u64) << 16) | ((s[i + 6]
        as u64) << 8) | (s[i + 7] as u64)
}

/// Reads the big-endian 64-bit word at byte offset `i`.
fn read_word_at(bytes: &[u8], i: usize) -> (r: u64)
    requires
        i + 8 <= bytes@.len(),
    ensures
        r == spec_word_at(bytes@, i as int),
{
    ((bytes[i] as u64) << 56) | ((bytes[i + 1] as u64) << 48) | ((bytes[i + 2] as u64) << 40) | ((
    bytes[i + 3] as u64) << 32) | ((bytes[i + 4] as u64) << 24) | ((bytes[i + 5] as u64) << 16) | ((
    bytes[i + 6] as u64) << 8) | (bytes[i + 7] as u64)
}

/// The 6-bit opcode field of a command word, bits 61:56.
pub open spec fn spec_opcode_of(w: u64) -> u64 {
    (w >> 56) & 0x3F
}

/// Whether an opcode value names a known command.
pub open spec fn spec_known_opcode(op: u64) -> bool {
    op == 0x00 || op == 0x08 || op == 0x0a || op == 0x0c || op == 0x34 || op == 0x35 || op == 0x36
        || op == 0x37 || op == 0x3c || op == 0x3d
}

/// How many bytes the command with this opcode occupies: the primary
/// word, plus three edge words for a triangle, plus eight coefficient
/// words for a shaded or textured triangle.
pub open spec fn spec_command_len(op: u64) -> int {
    if op == 0x08 {
        32
    } else if op == 0x0a || op == 0x0c {
        96
    } else {
        8
    }
}

/// An unsigned bitfield of the command word: `size` bits starting at
/// bit `base`.
pub open spec fn spec_read_field_u8(value: u64, base: u8, size: u8) -> u8 {
    ((value >> base) as u8) & (((1u8 << size) - 1) as u8)
}

proof fn lemma_shl1_u8_pos(s: u8)
    by (bit_vector)
    requires
        s < 8,
    ensures
        (1u8 << s) >= 1,
{
}

/// Extracts an unsigned bitfield of `size` bits starting at bit `base`.
pub fn read_field_u8(value: u64, base: u8, size: u8) -> (r: u8)
    requires
        base < 64,
        size < 8,
    ensures
        r == spec_read_field_u8(value, base, size),
{
    proof {
        lemma_shl1_u8_pos(size);
    }
    ((value >> base) as u8) & ((1u8 << size) - 1)
}

/// The combiner mode selectors packed into a SetCombineMode word.
pub open spec fn spec_combine_mode(w: u64) -> CombineMode {
    CombineMode {
        sub_a_r_0: spec_read_field_u8(w, 52, 4),
        mul_r_0: spec_read_field_u8(w, 47, 5),
        sub_a_a_0: spec_read_field_u8(w, 44, 3),
        mul_a_0: spec_read_field_u8(w, 44, 3),
        sub_a_r_1: spec_read_field_u8(w, 37, 4),
        mul_r_1: spec_read_field_u8(w, 32, 5),
        sub_b_r_0: spec_read_field_u8(w, 28, 4),
        sub_b_r_1: spec_read_field_u8(w, 24, 4),
        sub_a_a_1: spec_read_field_u8(w, 21, 3),
        mul_a_1: spec_read_field_u8(w, 18, 3),
        add_r_0: spec_read_field_u8(w, 15, 3),
        sub_b_a_0: spec_read_field_u8(w, 12, 3),
        add_a_0: spec_read_field_u8(w, 9, 3),
        add_r_1: spec_read_field_u8(w, 6, 3),
        sub_b_a_1: spec_read_field_u8(w, 3, 3),
        add_a_1: spec_read_field_u8(w, 0, 3),
    }
}

/// The fill color packed into a SetFillColor word: the low 32 bits,
/// standing for both 16-bit sub-colors.
pub open spec fn spec_fill_color(w: u64) -> FillColor {
    FillColor { color1: w as u32, color2: w as u32 }
}

/// The image reference packed into a SetTextureImage word.
pub open spec fn spec_image_reference(w: u64) -> ImageReference {
    ImageReference {
        format: spec_texture_format(((w >> 53) & 0x7) as u8),
        size: spec_texture_size(((w >> 51) & 0x3) as u8),
        width: ((w >> 32) & 0x3FF) as u16,
        addr: (w & 0x03FFFFFF) as u32,
    }
}

/// The rectangle packed into a FillRectangle word, four 12-bit
/// quarter-pixel coordinates.
pub open spec fn spec_rectangle(w: u64) -> Rectangle {
    Rectangle {
        xl: ((w >> 44) & 0x0FFF) as u16,
        yl: ((w >> 32) & 0x0FFF) as u16,
        xh: ((w >> 12) & 0x0FFF) as u16,
        yh: (w & 0x0FFF) as u16,
    }
}

/// The tile descriptor packed into a SetTile word.
pub open spec fn spec_tile(w: u64) -> Tile {
    Tile {
        format: spec_texture_format(((w >> 53) & 0x7) as u8),
        size: spec_texture_size(((w >> 51) & 0x3) as u8),
        line_width: ((w >> 41) & 0x1FF) as u16,
        tmem_addr: ((w >> 32) & 0x1FF) as u16,
        tile: ((w >> 24) & 0x03) as u8,
    }
}

/// The edge coefficients of a triangle: the winding flag, Y bounds and
/// tile fields from the primary word `w0`, then the low, high and
/// middle edge words in stream order.
pub open spec fn spec_edge_coefficients(w0: u64, dl: u64, dh: u64, dm: u64) -> EdgeCoefficients {
    EdgeCoefficients {
        right_major: (w0 & 0x0080_0000_0000_0000) > 0,
        level: ((w0 >> 51) as u8) & 0x07,
        tile: ((w0 >> 48) as u8) & 0x07,
        yl: ((w0 >> 32) as u16) & 0x3FFF,
        ym: ((w0 >> 16) as u16) & 0x3FFF,
        yh: (w0 as u16) & 0x3FFF,
        xl: (dl >> 48) as u16,
        xl_frac: (dl >> 32) as u16,
        dx_l_dy: (dl >> 16) as u16,
        dx_l_dy_frac: dl as u16,
        xh: (dh >> 48) as u16,
        xh_frac: (dh >> 32) as u16,
        dx_h_dy: (dh >> 16) as u16,
        dx_h_dy_frac: dh as u16,
        xm: (dm >> 48) as u16,
        xm_frac: (dm >> 32) as u16,
        dx_m_dy: (dm >> 16) as u16,
        dx_m_dy_frac: dm as u16,
    }
}

/// The edge coefficients whose primary word sits at offset `n` of the
/// stream, with the three edge words following it.
pub open spec fn spec_edges_at(s: Seq<u8>, n: int) -> EdgeCoefficients {
    spec_edge_coefficients(
        spec_word_at(s, n),
        spec_word_at(s, n + 8),
        spec_word_at(s, n + 16),
        spec_word_at(s, n + 24),
    )
}

/// The shade coefficients packed into the eight words of a shaded
/// triangle's coefficient block, in stream order.
pub open spec fn spec_shade_coefficients(
    d0: u64,
    d1: u64,
    d2: u64,
    d3: u64,
    d4: u64,
    d5: u64,
    d6: u64,
    d7: u64,
) -> ShadeCoefficients {
    ShadeCoefficients {
        red: (d0 >> 48) as u16,
        green: (d0 >> 32) as u16,
        blue: (d0 >> 16) as u16,
        alpha: d0 as u16,
        dr_dx: (d1 >> 48) as u16,
        dg_dx: (d1 >> 32) as u16,
        db_dx: (d1 >> 16) as u16,
        da_dx: d1 as u16,
        red_frac: (d2 >> 48) as u16,
        green_frac: (d2 >> 32) as u16,
        blue_frac: (d2 >> 16) as u16,
        alpha_frac: d2 as u16,
        dr_dx_frac: (d3 >> 48) as u16,
        dg_dx_frac: (d3 >> 32) as u16,
        db_dx_frac: (d3 >> 16) as u16,
        da_dx_frac: d3 as u16,
        dr_de: (d4 >> 48) as u16,
        dg_de: (d4 >> 32) as u16,
        db_de: (d4 >> 16) as u16,
        da_de: d4 as u16,
        dr_dy: (d5 >> 48) as u16,
        dg_dy: (d5 >> 32) as u16,
        db_dy: (d5 >> 16) as u16,
        da_dy: d5 as u16,
        dr_de_frac: (d6 >> 48) as u16,
        dg_de_frac: (d6 >> 32) as u16,
        db_de_frac: (d6 >> 16) as u16,
        da_de_frac: d6 as u16,
        dr_dy_frac: (d7 >> 48) as u16,
        dg_dy_frac: (d7 >> 32) as u16,
        db_dy_frac: (d7 >> 16) as u16,
        da_dy_frac: d7 as u16,
    }
}

/// The shade coefficient block starting at offset `n` of the stream.
pub open spec fn spec_shade_at(s: Seq<u8>, n: int) -> ShadeCoefficients {
    spec_shade_coefficients(
        spec_word_at(s, n),
        spec_word_at(s, n + 8),
        spec_word_at(s, n + 16),
        spec_word_at(s, n + 24),
        spec_word_at(s, n + 32),
        spec_word_at(s, n + 40),
        spec_word_at(s, n + 48),
        spec_word_at(s, n + 56),
    )
}

/// The texture coefficients packed into the eight words of a textured
/// triangle's coefficient block, in stream order.
pub open spec fn spec_texture_coefficients(
    d0: u64,
    d1: u64,
    d2: u64,
    d3: u64,
    d4: u64,
    d5: u64,
    d6: u64,
    d7: u64,
) -> TextureCoefficients {
    TextureCoefficients {
        s: (d0 >> 48) as u16,
        t: (d0 >> 32) as u16,
        w: (d0 >> 16) as u16,
        ds_dx: (d1 >> 48) as u16,
        dt_dx: (d1 >> 32) as u16,
        dw_dx: (d1 >> 16) as u16,
        s_frac: (d2 >> 48) as u16,
        t_frac: (d2 >> 32) as u16,
        w_frac: (d2 >> 16) as u16,
        ds_dx_frac: (d3 >> 48) as u16,
        dt_dx_frac: (d3 >> 32) as u16,
        dw_dx_frac: (d3 >> 16) as u16,
        ds_de: (d4 >> 48) as u16,
        dt_de: (d4 >> 32) as u16,
        dw_de: (d4 >> 16) as u16,
        ds_dy: (d5 >> 48) as u16,
        dt_dy: (d5 >> 32) as u16,
        dw_dy: (d5 >> 16) as u16,
        ds_de_frac: (d6 >> 48) as u16,
        dt_de_frac: (d6 >> 32) as u16,
        dw_de_frac: (d6 >> 16) as u16,
        ds_dy_frac: (d7 >> 48) as u16,
        dt_dy_frac: (d7 >> 32) as u16,
        dw_dy_frac: (d7 >> 16) as u16,
    }
}

/// The texture coefficient block starting at offset `n` of the stream.
pub open spec fn spec_texture_at(s: Seq<u8>, n: int) -> TextureCoefficients {
    spec_texture_coefficients(
        spec_word_at(s, n),
        spec_word_at(s, n + 8),
        spec_word_at(s, n + 16),
        spec_word_at(s, n + 24),
        spec_word_at(s, n + 32),
        spec_word_at(s, n + 40),
        spec_word_at(s, n + 48),
        spec_word_at(s, n + 56),
    )
}

/// The command whose primary word sits at byte offset `n` of the
/// stream, assuming a known opcode and enough bytes.
pub open spec fn spec_command(s: Seq<u8>, n: int) -> RDPCommand {
    let w = spec_word_at(s, n);
    let op = spec_opcode_of(w);
    if op == 0x00 {
        RDPCommand::Nop
    } else if op == 0x08 {
        RDPCommand::FillTriangle(spec_edges_at(s, n))
    } else if op == 0x0a {
        RDPCommand::TextureTriangle(spec_edges_at(s, n), spec_texture_at(s, n + 32))
    } else if op == 0x0c {
        RDPCommand::ShadeTriangle(spec_edges_at(s, n), spec_shade_at(s, n + 32))
    } else if op == 0x34 {
        RDPCommand::LoadTile {
            tile: ((w >> 24) & 0x03) as u8,
            sl: ((w >> 44) & 0x3FF) as u16,
            sh: ((w >> 12) & 0x3FF) as u16,
            tl: ((w >> 32) & 0x3FF) as u16,
            th: (w & 0x3FF) as u16,
        }
    } else if op == 0x35 {
        RDPCommand::SetTile(spec_tile(w))
    } else if op == 0x36 {
        RDPCommand::FillRectangle(spec_rectangle(w))
    } else if op == 0x37 {
        RDPCommand::SetFillColor(spec_fill_color(w))
    } else if op == 0x3c {
        RDPCommand::SetCombineMode(spec_combine_mode(w))
    } else if op == 0x3d {
        RDPCommand::SetTextureImage(spec_image_reference(w))
    } else {
        RDPCommand::Nop
    }
}

/// What `read_command` returns and where it leaves the read position,
/// as a relation over the stream `s` and the starting position `n`:
/// too few bytes for the primary word is end-of-stream; an unknown
/// opcode is a parse error; a known opcode with too few trailing bytes
/// is end-of-stream; otherwise the parsed command, with the position
/// advanced by exactly the command's length. Errors leave the position
/// where it was.
pub open spec fn spec_read_result(
    s: Seq<u8>,
    n: int,
    r: Result<RDPCommand, CommandError>,
    new_pos: int,
) -> bool {
    if n + 8 > s.len() {
        r == Result::<RDPCommand, CommandError>::Err(CommandError::UnexpectedEof) && new_pos == n
    } else {
        let op = spec_opcode_of(spec_word_at(s, n));
        if !spec_known_opcode(op) {
            r == Result::<RDPCommand, CommandError>::Err(CommandError::InvalidOpcode) && new_pos
                == n
        } else if n + spec_command_len(op) > s.len() {
            r == Result::<RDPCommand, CommandError>::Err(CommandError::UnexpectedEof) && new_pos
                == n
        } else {
            r == Result::<RDPCommand, CommandError>::Ok(spec_command(s, n)) && new_pos == n
                + spec_command_len(op)
        }
    }
}

/// A command stream: the bytes and the current read position.
pub struct CommandReader<'a> {
    pub bytes: &'a [u8],
    pub pos: usize,
}

proof fn lemma_and_mask_u64(x: u64, m: u64)
    by (bit_vector)
    ensures
        x & m <= m,
{
}

impl EdgeCoefficients {
    /// Reads the three trailing edge words of a triangle command whose
    /// primary word `value` has already been consumed, and assembles
    /// the edge coefficients. Consumes exactly 24 bytes on success;
    /// fewer bytes than that is end-of-stream, and the position does
    /// not move.
    pub fn read(reader: &mut CommandReader<'_>, value: u64) -> (r: Result<
        EdgeCoefficients,
        CommandError,
    >)
        ensures
            final(reader).bytes@ == old(reader).bytes@,
            old(reader).pos + 24 <= old(reader).bytes@.len() ==> r == Result::<
                EdgeCoefficients,
                CommandError,
            >::Ok(
                spec_edge_coefficients(
                    value,
                    spec_word_at(old(reader).bytes@, old(reader).pos as int),
                    spec_word_at(old(reader).bytes@, old(reader).pos + 8),
                    spec_word_at(old(reader).bytes@, old(reader).pos + 16),
                ),
            ) && final(reader).pos == old(reader).pos + 24,
            old(reader).pos + 24 > old(reader).bytes@.len() ==> r == Result::<
                EdgeCoefficients,
                CommandError,
            >::Err(CommandError::UnexpectedEof) && final(reader).pos == old(reader).pos,
    {
        let len = reader.bytes.len();
        if reader.pos > len || len - reader.pos < 24 {
            return Err(CommandError::UnexpectedEof);
        }
        let dl = read_word_at(reader.bytes, reader.pos);
        let dh = read_word_at(reader.bytes, reader.pos + 8);
        let dm = read_word_at(reader.bytes, reader.pos + 16);
        reader.pos = reader.pos + 24;
        Ok(
            EdgeCoefficients {
                right_major: (value & 0x0080_0000_0000_0000) > 0,
                level: ((value >> 51) as u8) & 0x07,
                tile: ((value >> 48) as u8) & 0x07,
                yl: ((value >> 32) as u16) & 0x3FFF,
                ym: ((value >> 16) as u16) & 0x3FFF,
                yh: (value as u16) & 0x3FFF,
                xl: (dl >> 48) as u16,
                xl_frac: (dl >> 32) as u16,
                dx_l_dy: (dl >> 16) as u16,
                dx_l_dy_frac: dl as u16,
                xh: (dh >> 48) as u16,
                xh_frac: (dh >> 32) as u16,
                dx_h_dy: (dh >> 16) as u16,
                dx_h_dy_frac: dh as u16,
                xm: (dm >> 48) as u16,
                xm_frac: (dm >> 32) as u16,
                dx_m_dy: (dm >> 16) as u16,
                dx_m_dy_frac: dm as u16,
            },
        )
    }
}

/// Reads the eight-word shade coefficient block at the reader's
/// position, consuming 64 bytes.
fn read_shade_block(reader: &mut CommandReader<'_>) -> (r: ShadeCoefficients)
    requires
        old(reader).pos + 64 <= old(reader).bytes@.len(),
    ensures
        final(reader).bytes@ == old(reader).bytes@,
        final(reader).pos == old(reader).pos + 64,
        r == spec_shade_at(old(reader).bytes@, old(reader).pos as int),
{
    let _len = reader.bytes.len();
    let d0 = read_word_at(reader.bytes, reader.pos);
    let d1 = read_word_at(reader.bytes, reader.pos + 8);
    let d2 = read_word_at(reader.bytes, reader.pos + 16);
    let d3 = read_word_at(reader.bytes, reader.pos + 24);
    let d4 = read_word_at(reader.bytes, reader.pos + 32);
    let d5 = read_word_at(reader.bytes, reader.pos + 40);
    let d6 = read_word_at(reader.bytes, reader.pos + 48);
    let d7 = read_word_at(reader.bytes, reader.pos + 56);
    reader.pos = reader.pos + 64;
    ShadeCoefficients {
        red: (d0 >> 48) as u16,
        green: (d0 >> 32) as u16,
        blue: (d0 >> 16) as u16,
        alpha: d0 as u16,
        dr_dx: (d1 >> 48) as u16,
        dg_dx: (d1 >> 32) as u16,
        db_dx: (d1 >> 16) as u16,
        da_dx: d1 as u16,
        red_frac: (d2 >> 48) as u16,
        green_frac: (d2 >> 32) as u16,
        blue_frac: (d2 >> 16) as u16,
        alpha_frac: d2 as u16,
        dr_dx_frac: (d3 >> 48) as u16,
        dg_dx_frac: (d3 >> 32) as u16,
        db_dx_frac: (d3 >> 16) as u16,
        da_dx_frac: d3 as u16,
        dr_de: (d4 >> 48) as u16,
        dg_de: (d4 >> 32) as u16,
        db_de: (d4 >> 16) as u16,
        da_de: d4 as u16,
        dr_dy: (d5 >> 48) as u16,
        dg_dy: (d5 >> 32) as u16,
        db_dy: (d5 >> 16) as u16,
        da_dy: d5 as u16,
        dr_de_frac: (d6 >> 48) as u16,
        dg_de_frac: (d6 >> 32) as u16,
        db_de_frac: (d6 >> 16) as u16,
        da_de_frac: d6 as u16,
        dr_dy_frac: (d7 >> 48) as u16,
        dg_dy_frac: (d7 >> 32) as u16,
        db_dy_frac: (d7 >> 16) as u16,
        da_dy_frac: d7 as u16,
    }
}

/// Reads the eight-word texture coefficient block at the reader's
/// position, consuming 64 bytes.
fn read_texture_block(reader: &mut CommandReader<'_>) -> (r: TextureCoefficients)
    requires
        old(reader).pos + 64 <= old(reader).bytes@.len(),
    ensures
        final(reader).bytes@ == old(reader).bytes@,
        final(reader).pos == old(reader).pos + 64,
        r == spec_texture_at(old(reader).bytes@, old(reader).pos as int),
{
    let _len = reader.bytes.len();
    let d0 = read_word_at(reader.bytes, reader.pos);
    let d1 = read_word_at(reader.bytes, reader.pos + 8);
    let d2 = read_word_at(reader.bytes, reader.pos + 16);
    let d3 = read_word_at(reader.bytes, reader.pos + 24);
    let d4 = read_word_at(reader.bytes, reader.pos + 32);
    let d5 = read_word_at(reader.bytes, reader.pos + 40);
    let d6 = read_word_at(reader.bytes, reader.pos + 48);
    let d7 = read_word_at(reader.bytes, reader.pos + 56);
    reader.pos = reader.pos + 64;
    TextureCoefficients {
        s: (d0 >> 48) as u16,
        t: (d0 >> 32) as u16,
        w: (d0 >> 16) as u16,
        ds_dx: (d1 >> 48) as u16,
        dt_dx: (d1 >> 32) as u16,
        dw_dx: (d1 >> 16) as u16,
        s_frac: (d2 >> 48) as u16,
        t_frac: (d2 >> 32) as u16,
        w_frac: (d2 >> 16) as u16,
        ds_dx_frac: (d3 >> 48) as u16,
        dt_dx_frac: (d3 >> 32) as u16,
        dw_dx_frac: (d3 >> 16) as u16,
        ds_de: (d4 >> 48) as u16,
        dt_de: (d4 >> 32) as u16,
        dw_de: (d4 >> 16) as u16,
        ds_dy: (d5 >> 48) as u16,
        dt_dy: (d5 >> 32) as u16,
        dw_dy: (d5 >> 16) as u16,
        ds_de_frac: (d6 >> 48) as u16,
        dt_de_frac: (d6 >> 32) as u16,
        dw_de_frac: (d6 >> 16) as u16,
        ds_dy_frac: (d7 >> 48) as u16,
        dt_dy_frac: (d7 >> 32) as u16,
        dw_dy_frac: (d7 >> 16) as u16,
    }
}

impl<'a> CommandReader<'a> {
    /// A reader positioned at the start of the stream.
    pub fn new(bytes: &'a [u8]) -> (r: CommandReader<'a>)
        ensures
            r.bytes@ == bytes@,
            r.pos == 0,
    {
        CommandReader { bytes, pos: 0 }
    }

    /// Consumes one command from the stream: the primary 64-bit word,
    /// plus however many trailing words its opcode requires, advancing
    /// the position by exactly the bytes consumed. The result and the
    /// new position are pinned down by `spec_read_result`.
    pub fn read_command(&mut self) -> (r: Result<RDPCommand, CommandError>)
        ensures
            final(self).bytes@ == old(self).bytes@,
            spec_read_result(old(self).bytes@, old(self).pos as int, r, final(self).pos as int),
    {
        let len = self.bytes.len();
        if self.pos > len || len - self.pos < 8 {
            return Err(CommandError::UnexpectedEof);
        }
        let value = read_word_at(self.bytes, self.pos);
        proof {
            lemma_and_mask_u64(value >> 56, 0x3F);
        }
        let opcode = ((value >> 56) & 0x3F) as u8;
        match opcode {
            0x00 => {
                self.pos = self.pos + 8;
                Ok(RDPCommand::Nop)
            },
            0x3c => {
                let mode = CombineMode {
                    sub_a_r_0: read_field_u8(value, 52, 4),
                    mul_r_0: read_field_u8(value, 47, 5),
                    sub_a_a_0: read_field_u8(value, 44, 3),
                    mul_a_0: read_field_u8(value, 44, 3),
                    sub_a_r_1: read_field_u8(value, 37, 4),
                    mul_r_1: read_field_u8(value, 32, 5),
                    sub_b_r_0: read_field_u8(value, 28, 4),
                    sub_b_r_1: read_field_u8(value, 24, 4),
                    sub_a_a_1: read_field_u8(value, 21, 3),
                    mul_a_1: read_field_u8(value, 18, 3),
                    add_r_0: read_field_u8(value, 15, 3),
                    sub_b_a_0: read_field_u8(value, 12, 3),
                    add_a_0: read_field_u8(value, 9, 3),
                    add_r_1: read_field_u8(value, 6, 3),
                    sub_b_a_1: read_field_u8(value, 3, 3),
                    add_a_1: read_field_u8(value, 0, 3),
                };
                self.pos = self.pos + 8;
                Ok(RDPCommand::SetCombineMode(mode))
            },
            0x37 => {
                self.pos = self.pos + 8;
                Ok(
                    RDPCommand::SetFillColor(
                        FillColor { color1: value as u32, color2: value as u32 },
                    ),
                )
            },
            0x3d => {
                let format = ((value >> 53) & 0x7) as u8;
                let size = ((value >> 51) & 0x3) as u8;
                let width = ((value >> 32) & 0x3FF) as u16;
                let addr = (value & 0x03FFFFFF) as u32;
                self.pos = self.pos + 8;
                Ok(
                    RDPCommand::SetTextureImage(
                        ImageReference {
                            format: TextureFormat::from_u8(format),
                            size: TextureSize::from_u8(size),
                            width,
                            addr,
                        },
                    ),
                )
            },
            0x36 => {
                let xl = ((value >> 44) & 0x0FFF) as u16;
                let yl = ((value >> 32) & 0x0FFF) as u16;
                let xh = ((value >> 12) & 0x0FFF) as u16;
                let yh = (value & 0x0FFF) as u16;
                self.pos = self.pos + 8;
                Ok(RDPCommand::FillRectangle(Rectangle { xl, yl, xh, yh }))
            },
            0x08 => {
                if len - self.pos < 32 {
                    return Err(CommandError::UnexpectedEof);
                }
                self.pos = self.pos + 8;
                match EdgeCoefficients::read(self, value) {
                    Ok(edges) => Ok(RDPCommand::FillTriangle(edges)),
                    Err(e) => Err(e),
                }
            },
            0x0c => {
                if len - self.pos < 96 {
                    return Err(CommandError::UnexpectedEof);
                }
                self.pos = self.pos + 8;
                match EdgeCoefficients::read(self, value) {
                    Ok(edges) => {
                        let shade = read_shade_block(self);
                        Ok(RDPCommand::ShadeTriangle(edges, shade))
                    },
                    Err(e) => Err(e),
                }
            },
            0x0a => {
                if len - self.pos < 96 {
                    return Err(CommandError::UnexpectedEof);
                }
                self.pos = self.pos + 8;
                match EdgeCoefficients::read(self, value) {
                    Ok(edges) => {
                        let texture = read_texture_block(self);
                        Ok(RDPCommand::TextureTriangle(edges, texture))
                    },
                    Err(e) => Err(e),
                }
            },
            0x35 => {
                let format = ((value >> 53) & 0x7) as u8;
                let size = ((value >> 51) & 0x3) as u8;
                let line_width = ((value >> 41) & 0x1FF) as u16;
                let tmem_addr = ((value >> 32) & 0x1FF) as u16;
                let tile = ((value >> 24) & 0x03) as u8;
                self.pos = self.pos + 8;
                Ok(
                    RDPCommand::SetTile(
                        Tile {
                            format: TextureFormat::from_u8(format),
                            size: TextureSize::from_u8(size),
                            line_width,
                            tmem_addr,
                            tile,
                        },
                    ),
                )
            },
            0x34 => {
                let sl = ((value >> 44) & 0x3FF) as u16;
                let tl = ((value >> 32) & 0x3FF) as u16;
                let sh = ((value >> 12) & 0x3FF) as u16;
                let th = (value & 0x3FF) as u16;
                let tile = ((value >> 24) & 0x03) as u8;
                self.pos = self.pos + 8;
                Ok(RDPCommand::LoadTile { tile, sl, sh, tl, th })
            },
            _ => Err(CommandError::InvalidOpcode),
        }
    }
}

} // verus!
