//! The CPU's two-level instruction decoder: a 32-bit instruction word is
//! mapped to a symbolic mnemonic through an escape-descriptor table
//! (indexed by the word's top byte) and a flat mnemonic lookup table.
//!
//! Ordinary instructions decode directly off their 6-bit primary opcode
//! field; the escaped opcode spaces (SPECIAL, REGIMM and the coprocessor
//! classes) redirect to a secondary field (function code, `rt`, or `rs`)
//! that selects the mnemonic within that escape's block of the flat
//! table. `decode_vr4300` is total: unassigned encodings decode to
//! `Opcode::Invalid`, never to an error.

use vstd::prelude::*;

verus! {

/// A symbolic CPU mnemonic: one variant per legal instruction, plus the
/// distinguished `Invalid` sentinel for unassigned encodings.
#[allow(non_camel_case_types)]
#[derive(Debug, Copy, Clone, PartialEq, Eq, Structural)]
pub enum Opcode {
    Invalid,
    SLL,
    SRL,
    SRA,
    SLLV,
    SRLV,
    SRAV,
    JR,
    JALR,
    SYSCALL,
    BREAK,
    SYNC,
    MFHI,
    MTHI,
    MFLO,
    MTLO,
    DSLLV,
    DSRLV,
    DSRAV,
    MULT,
    MULTU,
    DIV,
    DIVU,
    DMULT,
    DMULTU,
    DDIV,
    DDIVU,
    ADD,
    ADDU,
    SUB,
    SUBU,
    AND,
    OR,
    XOR,
    NOR,
    SLT,
    SLTU,
    DADD,
    DADDU,
    DSUB,
    DSUBU,
    TGE,
    TGEU,
    TLT,
    TLTU,
    TEQ,
    TNE,
    DSLL,
    DSRL,
    DSRA,
    DSLL32,
    DSRL32,
    DSRA32,
    BLTZ,
    BGEZ,
    BLTZL,
    BGEZL,
    TGEI,
    TGEIU,
    TLTI,
    TLTIU,
    TEQI,
    TNEI,
    BLTZAL,
    BGEZAL,
    BLTZALL,
    BGEZALL,
    MFC0,
    DMFC0,
    MTC0,
    DMTC0,
    TLBR,
    TLBWI,
    TLBWR,
    TLBP,
    ERET,
    BC0F,
    BC0T,
    BC0FL,
    BC0TL,
    MFC1,
    DMFC1,
    CFC1,
    MTC1,
    DMTC1,
    CTC1,
    ADD_S,
    SUB_S,
    MUL_S,
    DIV_S,
    SQRT_S,
    ABS_S,
    MOV_S,
    NEG_S,
    ROUND_L_S,
    TRUNC_L_S,
    CEIL_L_S,
    FLOOR_L_S,
    ROUND_W_S,
    TRUNC_W_S,
    CEIL_W_S,
    FLOOR_W_S,
    CVT_S_D,
    CVT_D_S,
    CVT_W_S,
    CVT_L_S,
    C_F_S,
    C_UN_S,
    C_EQ_S,
    C_UEQ_S,
    C_OLT_S,
    C_ULT_S,
    C_OLE_S,
    C_ULE_S,
    C_SF_S,
    C_NGLE_S,
    C_SEQ_S,
    C_NGL_S,
    C_LT_S,
    C_NGE_S,
    C_LE_S,
    C_NGT_S,
    BC1F,
    BC1T,
    BC1FL,
    BC1TL,
    J,
    JAL,
    BEQ,
    BNE,
    BLEZ,
    BGTZ,
    ADDI,
    ADDIU,
    SLTI,
    SLTIU,
    ANDI,
    ORI,
    XORI,
    LUI,
    BEQL,
    BNEL,
    BLEZL,
    BGTZL,
    DADDI,
    DADDIU,
    LDL,
    LDR,
    LB,
    LH,
    LWL,
    LW,
    LBU,
    LHU,
    LWR,
    LWU,
    SB,
    SH,
    SWL,
    SW,
    SDL,
    SDR,
    SWR,
    CACHE,
    LL,
    LWC1,
    LLD,
    LDC1,
    LD,
    SC,
    SWC1,
    SCD,
    SDC1,
    SD,
}

/// How one value of the instruction word's top byte resolves: the
/// secondary index is `(word >> shift) & mask`, and the mnemonic sits at
/// `offset + index` in the flat lookup table. `offset == INVALID_OFFSET`
/// marks a top byte whose whole opcode space is unassigned.
#[derive(Debug, Copy, Clone, PartialEq, Eq, Structural)]
pub struct OpcodeEscape {
    pub shift: u8,
    pub mask: u8,
    pub offset: u16,
}

pub const SPEC_OFFSET: u16 = 0;
pub const FUNC_MASK: u8 = 0x3F;
pub const FUNC_SHIFT: u8 = 0;
pub const REGIMM_OFFSET: u16 = 64;
pub const RT_MASK: u8 = 0x1F;
pub const RT_SHIFT: u8 = 16;
pub const COP0_0_OFFSET: u16 = 96;
pub const RS_MASK_SHORT: u8 = 0x7;
pub const RS_SHIFT: u8 = 21;
pub const COP0_2_OFFSET: u16 = 104;
pub const COP0_3_OFFSET: u16 = 168;
pub const RT_MASK_SHORT: u8 = 0x3;
pub const COP1_0_OFFSET: u16 = 172;
pub const COP1_2_OFFSET: u16 = 180;
pub const COP1_3_OFFSET: u16 = 244;
pub const DEFAULT_OFFSET: u16 = 248;
pub const OPCODE_MASK: u8 = 0x3F;
pub const OPCODE_SHIFT: u8 = 26;
pub const INVALID_OFFSET: u16 = 65535;

/// The number of entries in the flat mnemonic lookup table.
pub const LOOKUP_TABLE_LEN: u16 = 312;

/// Whether a primary 6-bit opcode decodes directly off the first-order
/// block of the lookup table (it is neither an escape nor unassigned).
pub open spec fn spec_direct_group(g: u8) -> bool {
    (2 <= g && g <= 15) || (20 <= g && g <= 27) || (32 <= g && g <= 49) || g == 52 || g == 53
        || g == 55 || g == 56 || g == 57 || g == 60 || g == 61 || g == 63
}

/// The escape descriptor for one value of the word's top byte. Top
/// bytes that share a primary opcode share a descriptor, except in the
/// coprocessor spaces, where the top byte's low two bits (the high bits
/// of `rs`) pick between the move, function-code and branch sub-spaces.
pub open spec fn spec_escape(top: u8) -> OpcodeEscape {
    let g: u8 = top / 4;
    if g == 0 {
        OpcodeEscape { shift: FUNC_SHIFT, mask: FUNC_MASK, offset: SPEC_OFFSET }
    } else if g == 1 {
        OpcodeEscape { shift: RT_SHIFT, mask: RT_MASK, offset: REGIMM_OFFSET }
    } else if g == 16 {
        if top % 4 == 2 {
            OpcodeEscape { shift: FUNC_SHIFT, mask: FUNC_MASK, offset: COP0_2_OFFSET }
        } else if top % 4 == 3 {
            OpcodeEscape { shift: RT_SHIFT, mask: RT_MASK_SHORT, offset: COP0_3_OFFSET }
        } else {
            OpcodeEscape { shift: RS_SHIFT, mask: RS_MASK_SHORT, offset: COP0_0_OFFSET }
        }
    } else if g == 17 {
        if top % 4 == 2 {
            OpcodeEscape { shift: FUNC_SHIFT, mask: FUNC_MASK, offset: COP1_2_OFFSET }
        } else if top % 4 == 3 {
            OpcodeEscape { shift: RT_SHIFT, mask: RT_MASK_SHORT, offset: COP1_3_OFFSET }
        } else {
            OpcodeEscape { shift: RS_SHIFT, mask: RS_MASK_SHORT, offset: COP1_0_OFFSET }
        }
    } else if spec_direct_group(g) {
        OpcodeEscape { shift: OPCODE_SHIFT, mask: OPCODE_MASK, offset: DEFAULT_OFFSET }
    } else {
        OpcodeEscape { shift: OPCODE_SHIFT, mask: OPCODE_MASK, offset: INVALID_OFFSET }
    }
}

/// Looks up the escape descriptor for a top byte.
pub fn opcode_escape(top: u8) -> (r: OpcodeEscape)
    ensures
        r == spec_escape(top),
{
    let g: u8 = top / 4;
    if g == 0 {
        OpcodeEscape { shift: FUNC_SHIFT, mask: FUNC_MASK, offset: SPEC_OFFSET }
    } else if g == 1 {
        OpcodeEscape { shift: RT_SHIFT, mask: RT_MASK, offset: REGIMM_OFFSET }
    } else if g == 16 {
        if top % 4 == 2 {
            OpcodeEscape { shift: FUNC_SHIFT, mask: FUNC_MASK, offset: COP0_2_OFFSET }
        } else if top % 4 == 3 {
            OpcodeEscape { shift: RT_SHIFT, mask: RT_MASK_SHORT, offset: COP0_3_OFFSET }
        } else {
            OpcodeEscape { shift: RS_SHIFT, mask: RS_MASK_SHORT, offset: COP0_0_OFFSET }
        }
    } else if g == 17 {
        if top % 4 == 2 {
            OpcodeEscape { shift: FUNC_SHIFT, mask: FUNC_MASK, offset: COP1_2_OFFSET }
        } else if top % 4 == 3 {
            OpcodeEscape { shift: RT_SHIFT, mask: RT_MASK_SHORT, offset: COP1_3_OFFSET }
        } else {
            OpcodeEscape { shift: RS_SHIFT, mask: RS_MASK_SHORT, offset: COP1_0_OFFSET }
        }
    } else if (2 <= g && g <= 15) || (20 <= g && g <= 27) || (32 <= g && g <= 49) || g == 52
        || g == 53 || g == 55 || g == 56 || g == 57 || g == 60 || g == 61 || g == 63 {
        OpcodeEscape { shift: OPCODE_SHIFT, mask: OPCODE_MASK, offset: DEFAULT_OFFSET }
    } else {
        OpcodeEscape { shift: OPCODE_SHIFT, mask: OPCODE_MASK, offset: INVALID_OFFSET }
    }
}

/// Every escape descriptor either is the unassigned sentinel or indexes
/// within the flat lookup table: `offset + mask < LOOKUP_TABLE_LEN`,
/// with a shift small enough for a 32-bit word.
pub proof fn lemma_escape_wf(top: u8)
    ensures
        spec_escape(top).shift <= 26,
        spec_escape(top).mask <= 63,
        spec_escape(top).offset == INVALID_OFFSET || spec_escape(top).offset + spec_escape(
            top,
        ).mask < LOOKUP_TABLE_LEN,
{
}

/// The flat mnemonic lookup table: the SPECIAL function-code block, the
/// REGIMM block, the coprocessor blocks, then the first-order opcode
/// block.
pub open spec fn spec_lookup(j: u16) -> Opcode {
    match j {
        0 => Opcode::SLL,
        1 => Opcode::Invalid,
        2 => Opcode::SRL,
        3 => Opcode::SRA,
        4 => Opcode::SLLV,
        5 => Opcode::Invalid,
        6 => Opcode::SRLV,
        7 => Opcode::SRAV,
        8 => Opcode::JR,
        9 => Opcode::JALR,
        10 => Opcode::Invalid,
        11 => Opcode::Invalid,
        12 => Opcode::SYSCALL,
        13 => Opcode::BREAK,
        14 => Opcode::Invalid,
        15 => Opcode::SYNC,
        16 => Opcode::MFHI,
        17 => Opcode::MTHI,
        18 => Opcode::MFLO,
        19 => Opcode::MTLO,
        20 => Opcode::DSLLV,
        21 => Opcode::Invalid,
        22 => Opcode::DSRLV,
        23 => Opcode::DSRAV,
        24 => Opcode::MULT,
        25 => Opcode::MULTU,
        26 => Opcode::DIV,
        27 => Opcode::DIVU,
        28 => Opcode::DMULT,
        29 => Opcode::DMULTU,
        30 => Opcode::DDIV,
        31 => Opcode::DDIVU,
        32 => Opcode::ADD,
        33 => Opcode::ADDU,
        34 => Opcode::SUB,
        35 => Opcode::SUBU,
        36 => Opcode::AND,
        37 => Opcode::OR,
        38 => Opcode::XOR,
        39 => Opcode::NOR,
        40 => Opcode::Invalid,
        41 => Opcode::Invalid,
        42 => Opcode::SLT,
        43 => Opcode::SLTU,
        44 => Opcode::DADD,
        45 => Opcode::DADDU,
        46 => Opcode::DSUB,
        47 => Opcode::DSUBU,
        48 => Opcode::TGE,
        49 => Opcode::TGEU,
        50 => Opcode::TLT,
        51 => Opcode::TLTU,
        52 => Opcode::TEQ,
        53 => Opcode::Invalid,
        54 => Opcode::TNE,
        55 => Opcode::Invalid,
        56 => Opcode::DSLL,
        57 => Opcode::Invalid,
        58 => Opcode::DSRL,
        59 => Opcode::DSRA,
        60 => Opcode::DSLL32,
        61 => Opcode::Invalid,
        62 => Opcode::DSRL32,
        63 => Opcode::DSRA32,
        64 => Opcode::BLTZ,
        65 => Opcode::BGEZ,
        66 => Opcode::BLTZL,
        67 => Opcode::BGEZL,
        68 => Opcode::Invalid,
        69 => Opcode::Invalid,
        70 => Opcode::Invalid,
        71 => Opcode::Invalid,
        72 => Opcode::TGEI,
        73 => Opcode::TGEIU,
        74 => Opcode::TLTI,
        75 => Opcode::TLTIU,
        76 => Opcode::TEQI,
        77 => Opcode::Invalid,
        78 => Opcode::TNEI,
        79 => Opcode::Invalid,
        80 => Opcode::BLTZAL,
        81 => Opcode::BGEZAL,
        82 => Opcode::BLTZALL,
        83 => Opcode::BGEZALL,
        84 => Opcode::Invalid,
        85 => Opcode::Invalid,
        86 => Opcode::Invalid,
        87 => Opcode::Invalid,
        88 => Opcode::Invalid,
        89 => Opcode::Invalid,
        90 => Opcode::Invalid,
        91 => Opcode::Invalid,
        92 => Opcode::Invalid,
        93 => Opcode::Invalid,
        94 => Opcode::Invalid,
        95 => Opcode::Invalid,
        96 => Opcode::MFC0,
        97 => Opcode::DMFC0,
        98 => Opcode::Invalid,
        99 => Opcode::Invalid,
        100 => Opcode::MTC0,
        101 => Opcode::DMTC0,
        102 => Opcode::Invalid,
        103 => Opcode::Invalid,
        104 => Opcode::Invalid,
        105 => Opcode::TLBR,
        106 => Opcode::TLBWI,
        107 => Opcode::Invalid,
        108 => Opcode::Invalid,
        109 => Opcode::Invalid,
        110 => Opcode::TLBWR,
        111 => Opcode::Invalid,
        112 => Opcode::TLBP,
        113 => Opcode::Invalid,
        114 => Opcode::Invalid,
        115 => Opcode::Invalid,
        116 => Opcode::Invalid,
        117 => Opcode::Invalid,
        118 => Opcode::Invalid,
        119 => Opcode::Invalid,
        120 => Opcode::Invalid,
        121 => Opcode::Invalid,
        122 => Opcode::Invalid,
        123 => Opcode::Invalid,
        124 => Opcode::Invalid,
        125 => Opcode::Invalid,
        126 => Opcode::Invalid,
        127 => Opcode::Invalid,
        128 => Opcode::ERET,
        129 => Opcode::Invalid,
        130 => Opcode::Invalid,
        131 => Opcode::Invalid,
        132 => Opcode::Invalid,
        133 => Opcode::Invalid,
        134 => Opcode::Invalid,
        135 => Opcode::Invalid,
        136 => Opcode::Invalid,
        137 => Opcode::Invalid,
        138 => Opcode::Invalid,
        139 => Opcode::Invalid,
        140 => Opcode::Invalid,
        141 => Opcode::Invalid,
        142 => Opcode::Invalid,
        143 => Opcode::Invalid,
        144 => Opcode::Invalid,
        145 => Opcode::Invalid,
        146 => Opcode::Invalid,
        147 => Opcode::Invalid,
        148 => Opcode::Invalid,
        149 => Opcode::Invalid,
        150 => Opcode::Invalid,
        151 => Opcode::Invalid,
        152 => Opcode::Invalid,
        153 => Opcode::Invalid,
        154 => Opcode::Invalid,
        155 => Opcode::Invalid,
        156 => Opcode::Invalid,
        157 => Opcode::Invalid,
        158 => Opcode::Invalid,
        159 => Opcode::Invalid,
        160 => Opcode::Invalid,
        161 => Opcode::Invalid,
        162 => Opcode::Invalid,
        163 => Opcode::Invalid,
        164 => Opcode::Invalid,
        165 => Opcode::Invalid,
        166 => Opcode::Invalid,
        167 => Opcode::Invalid,
        168 => Opcode::BC0F,
        169 => Opcode::BC0T,
        170 => Opcode::BC0FL,
        171 => Opcode::BC0TL,
        172 => Opcode::MFC1,
        173 => Opcode::DMFC1,
        174 => Opcode::CFC1,
        175 => Opcode::Invalid,
        176 => Opcode::MTC1,
        177 => Opcode::DMTC1,
        178 => Opcode::CTC1,
        179 => Opcode::Invalid,
        180 => Opcode::ADD_S,
        181 => Opcode::SUB_S,
        182 => Opcode::MUL_S,
        183 => Opcode::DIV_S,
        184 => Opcode::SQRT_S,
        185 => Opcode::ABS_S,
        186 => Opcode::MOV_S,
        187 => Opcode::NEG_S,
        188 => Opcode::ROUND_L_S,
        189 => Opcode::TRUNC_L_S,
        190 => Opcode::CEIL_L_S,
        191 => Opcode::FLOOR_L_S,
        192 => Opcode::ROUND_W_S,
        193 => Opcode::TRUNC_W_S,
        194 => Opcode::CEIL_W_S,
        195 => Opcode::FLOOR_W_S,
        196 => Opcode::Invalid,
        197 => Opcode::Invalid,
        198 => Opcode::Invalid,
        199 => Opcode::Invalid,
        200 => Opcode::Invalid,
        201 => Opcode::Invalid,
        202 => Opcode::Invalid,
        203 => Opcode::Invalid,
        204 => Opcode::Invalid,
        205 => Opcode::Invalid,
        206 => Opcode::Invalid,
        207 => Opcode::Invalid,
        208 => Opcode::Invalid,
        209 => Opcode::Invalid,
        210 => Opcode::Invalid,
        211 => Opcode::Invalid,
        212 => Opcode::CVT_S_D,
        213 => Opcode::CVT_D_S,
        214 => Opcode::Invalid,
        215 => Opcode::Invalid,
        216 => Opcode::CVT_W_S,
        217 => Opcode::CVT_L_S,
        218 => Opcode::Invalid,
        219 => Opcode::Invalid,
        220 => Opcode::Invalid,
        221 => Opcode::Invalid,
        222 => Opcode::Invalid,
        223 => Opcode::Invalid,
        224 => Opcode::Invalid,
        225 => Opcode::Invalid,
        226 => Opcode::Invalid,
        227 => Opcode::Invalid,
        228 => Opcode::C_F_S,
        229 => Opcode::C_UN_S,
        230 => Opcode::C_EQ_S,
        231 => Opcode::C_UEQ_S,
        232 => Opcode::C_OLT_S,
        233 => Opcode::C_ULT_S,
        234 => Opcode::C_OLE_S,
        235 => Opcode::C_ULE_S,
        236 => Opcode::C_SF_S,
        237 => Opcode::C_NGLE_S,
        238 => Opcode::C_SEQ_S,
        239 => Opcode::C_NGL_S,
        240 => Opcode::C_LT_S,
        241 => Opcode::C_NGE_S,
        242 => Opcode::C_LE_S,
        243 => Opcode::C_NGT_S,
        244 => Opcode::BC1F,
        245 => Opcode::BC1T,
        246 => Opcode::BC1FL,
        247 => Opcode::BC1TL,
        248 => Opcode::Invalid,
        249 => Opcode::Invalid,
        250 => Opcode::J,
        251 => Opcode::JAL,
        252 => Opcode::BEQ,
        253 => Opcode::BNE,
        254 => Opcode::BLEZ,
        255 => Opcode::BGTZ,
        256 => Opcode::ADDI,
        257 => Opcode::ADDIU,
        258 => Opcode::SLTI,
        259 => Opcode::SLTIU,
        260 => Opcode::ANDI,
        261 => Opcode::ORI,
        262 => Opcode::XORI,
        263 => Opcode::LUI,
        264 => Opcode::Invalid,
        265 => Opcode::Invalid,
        266 => Opcode::Invalid,
        267 => Opcode::Invalid,
        268 => Opcode::BEQL,
        269 => Opcode::BNEL,
        270 => Opcode::BLEZL,
        271 => Opcode::BGTZL,
        272 => Opcode::DADDI,
        273 => Opcode::DADDIU,
        274 => Opcode::LDL,
        275 => Opcode::LDR,
        276 => Opcode::Invalid,
        277 => Opcode::Invalid,
        278 => Opcode::Invalid,
        279 => Opcode::Invalid,
        280 => Opcode::LB,
        281 => Opcode::LH,
        282 => Opcode::LWL,
        283 => Opcode::LW,
        284 => Opcode::LBU,
        285 => Opcode::LHU,
        286 => Opcode::LWR,
        287 => Opcode::LWU,
        288 => Opcode::SB,
        289 => Opcode::SH,
        290 => Opcode::SWL,
        291 => Opcode::SW,
        292 => Opcode::SDL,
        293 => Opcode::SDR,
        294 => Opcode::SWR,
        295 => Opcode::CACHE,
        296 => Opcode::LL,
        297 => Opcode::LWC1,
        298 => Opcode::Invalid,
        299 => Opcode::Invalid,
        300 => Opcode::LLD,
        301 => Opcode::LDC1,
        302 => Opcode::Invalid,
        303 => Opcode::LD,
        304 => Opcode::SC,
        305 => Opcode::SWC1,
        306 => Opcode::Invalid,
        307 => Opcode::Invalid,
        308 => Opcode::SCD,
        309 => Opcode::SDC1,
        310 => Opcode::Invalid,
        311 => Opcode::SD,
        _ => Opcode::Invalid,
    }
}

/// Reads one entry of the flat mnemonic lookup table.
pub fn lookup_instr(j: u16) -> (r: Opcode)
    requires
        j < LOOKUP_TABLE_LEN,
    ensures
        r == spec_lookup(j),
{
    match j {
        0 => Opcode::SLL,
        1 => Opcode::Invalid,
        2 => Opcode::SRL,
        3 => Opcode::SRA,
        4 => Opcode::SLLV,
        5 => Opcode::Invalid,
        6 => Opcode::SRLV,
        7 => Opcode::SRAV,
        8 => Opcode::JR,
        9 => Opcode::JALR,
        10 => Opcode::Invalid,
        11 => Opcode::Invalid,
        12 => Opcode::SYSCALL,
        13 => Opcode::BREAK,
        14 => Opcode::Invalid,
        15 => Opcode::SYNC,
        16 => Opcode::MFHI,
        17 => Opcode::MTHI,
        18 => Opcode::MFLO,
        19 => Opcode::MTLO,
        20 => Opcode::DSLLV,
        21 => Opcode::Invalid,
        22 => Opcode::DSRLV,
        23 => Opcode::DSRAV,
        24 => Opcode::MULT,
        25 => Opcode::MULTU,
        26 => Opcode::DIV,
        27 => Opcode::DIVU,
        28 => Opcode::DMULT,
        29 => Opcode::DMULTU,
        30 => Opcode::DDIV,
        31 => Opcode::DDIVU,
        32 => Opcode::ADD,
        33 => Opcode::ADDU,
        34 => Opcode::SUB,
        35 => Opcode::SUBU,
        36 => Opcode::AND,
        37 => Opcode::OR,
        38 => Opcode::XOR,
        39 => Opcode::NOR,
        40 => Opcode::Invalid,
        41 => Opcode::Invalid,
        42 => Opcode::SLT,
        43 => Opcode::SLTU,
        44 => Opcode::DADD,
        45 => Opcode::DADDU,
        46 => Opcode::DSUB,
        47 => Opcode::DSUBU,
        48 => Opcode::TGE,
        49 => Opcode::TGEU,
        50 => Opcode::TLT,
        51 => Opcode::TLTU,
        52 => Opcode::TEQ,
        53 => Opcode::Invalid,
        54 => Opcode::TNE,
        55 => Opcode::Invalid,
        56 => Opcode::DSLL,
        57 => Opcode::Invalid,
        58 => Opcode::DSRL,
        59 => Opcode::DSRA,
        60 => Opcode::DSLL32,
        61 => Opcode::Invalid,
        62 => Opcode::DSRL32,
        63 => Opcode::DSRA32,
        64 => Opcode::BLTZ,
        65 => Opcode::BGEZ,
        66 => Opcode::BLTZL,
        67 => Opcode::BGEZL,
        68 => Opcode::Invalid,
        69 => Opcode::Invalid,
        70 => Opcode::Invalid,
        71 => Opcode::Invalid,
        72 => Opcode::TGEI,
        73 => Opcode::TGEIU,
        74 => Opcode::TLTI,
        75 => Opcode::TLTIU,
        76 => Opcode::TEQI,
        77 => Opcode::Invalid,
        78 => Opcode::TNEI,
        79 => Opcode::Invalid,
        80 => Opcode::BLTZAL,
        81 => Opcode::BGEZAL,
        82 => Opcode::BLTZALL,
        83 => Opcode::BGEZALL,
        84 => Opcode::Invalid,
        85 => Opcode::Invalid,
        86 => Opcode::Invalid,
        87 => Opcode::Invalid,
        88 => Opcode::Invalid,
        89 => Opcode::Invalid,
        90 => Opcode::Invalid,
        91 => Opcode::Invalid,
        92 => Opcode::Invalid,
        93 => Opcode::Invalid,
        94 => Opcode::Invalid,
        95 => Opcode::Invalid,
        96 => Opcode::MFC0,
        97 => Opcode::DMFC0,
        98 => Opcode::Invalid,
        99 => Opcode::Invalid,
        100 => Opcode::MTC0,
        101 => Opcode::DMTC0,
        102 => Opcode::Invalid,
        103 => Opcode::Invalid,
        104 => Opcode::Invalid,
        105 => Opcode::TLBR,
        106 => Opcode::TLBWI,
        107 => Opcode::Invalid,
        108 => Opcode::Invalid,
        109 => Opcode::Invalid,
        110 => Opcode::TLBWR,
        111 => Opcode::Invalid,
        112 => Opcode::TLBP,
        113 => Opcode::Invalid,
        114 => Opcode::Invalid,
        115 => Opcode::Invalid,
        116 => Opcode::Invalid,
        117 => Opcode::Invalid,
        118 => Opcode::Invalid,
        119 => Opcode::Invalid,
        120 => Opcode::Invalid,
        121 => Opcode::Invalid,
        122 => Opcode::Invalid,
        123 => Opcode::Invalid,
        124 => Opcode::Invalid,
        125 => Opcode::Invalid,
        126 => Opcode::Invalid,
        127 => Opcode::Invalid,
        128 => Opcode::ERET,
        129 => Opcode::Invalid,
        130 => Opcode::Invalid,
        131 => Opcode::Invalid,
        132 => Opcode::Invalid,
        133 => Opcode::Invalid,
        134 => Opcode::Invalid,
        135 => Opcode::Invalid,
        136 => Opcode::Invalid,
        137 => Opcode::Invalid,
        138 => Opcode::Invalid,
        139 => Opcode::Invalid,
        140 => Opcode::Invalid,
        141 => Opcode::Invalid,
        142 => Opcode::Invalid,
        143 => Opcode::Invalid,
        144 => Opcode::Invalid,
        145 => Opcode::Invalid,
        146 => Opcode::Invalid,
        147 => Opcode::Invalid,
        148 => Opcode::Invalid,
        149 => Opcode::Invalid,
        150 => Opcode::Invalid,
        151 => Opcode::Invalid,
        152 => Opcode::Invalid,
        153 => Opcode::Invalid,
        154 => Opcode::Invalid,
        155 => Opcode::Invalid,
        156 => Opcode::Invalid,
        157 => Opcode::Invalid,
        158 => Opcode::Invalid,
        159 => Opcode::Invalid,
        160 => Opcode::Invalid,
        161 => Opcode::Invalid,
        162 => Opcode::Invalid,
        163 => Opcode::Invalid,
        164 => Opcode::Invalid,
        165 => Opcode::Invalid,
        166 => Opcode::Invalid,
        167 => Opcode::Invalid,
        168 => Opcode::BC0F,
        169 => Opcode::BC0T,
        170 => Opcode::BC0FL,
        171 => Opcode::BC0TL,
        172 => Opcode::MFC1,
        173 => Opcode::DMFC1,
        174 => Opcode::CFC1,
        175 => Opcode::Invalid,
        176 => Opcode::MTC1,
        177 => Opcode::DMTC1,
        178 => Opcode::CTC1,
        179 => Opcode::Invalid,
        180 => Opcode::ADD_S,
        181 => Opcode::SUB_S,
        182 => Opcode::MUL_S,
        183 => Opcode::DIV_S,
        184 => Opcode::SQRT_S,
        185 => Opcode::ABS_S,
        186 => Opcode::MOV_S,
        187 => Opcode::NEG_S,
        188 => Opcode::ROUND_L_S,
        189 => Opcode::TRUNC_L_S,
        190 => Opcode::CEIL_L_S,
        191 => Opcode::FLOOR_L_S,
        192 => Opcode::ROUND_W_S,
        193 => Opcode::TRUNC_W_S,
        194 => Opcode::CEIL_W_S,
        195 => Opcode::FLOOR_W_S,
        196 => Opcode::Invalid,
        197 => Opcode::Invalid,
        198 => Opcode::Invalid,
        199 => Opcode::Invalid,
        200 => Opcode::Invalid,
        201 => Opcode::Invalid,
        202 => Opcode::Invalid,
        203 => Opcode::Invalid,
        204 => Opcode::Invalid,
        205 => Opcode::Invalid,
        206 => Opcode::Invalid,
        207 => Opcode::Invalid,
        208 => Opcode::Invalid,
        209 => Opcode::Invalid,
        210 => Opcode::Invalid,
        211 => Opcode::Invalid,
        212 => Opcode::CVT_S_D,
        213 => Opcode::CVT_D_S,
        214 => Opcode::Invalid,
        215 => Opcode::Invalid,
        216 => Opcode::CVT_W_S,
        217 => Opcode::CVT_L_S,
        218 => Opcode::Invalid,
        219 => Opcode::Invalid,
        220 => Opcode::Invalid,
        221 => Opcode::Invalid,
        222 => Opcode::Invalid,
        223 => Opcode::Invalid,
        224 => Opcode::Invalid,
        225 => Opcode::Invalid,
        226 => Opcode::Invalid,
        227 => Opcode::Invalid,
        228 => Opcode::C_F_S,
        229 => Opcode::C_UN_S,
        230 => Opcode::C_EQ_S,
        231 => Opcode::C_UEQ_S,
        232 => Opcode::C_OLT_S,
        233 => Opcode::C_ULT_S,
        234 => Opcode::C_OLE_S,
        235 => Opcode::C_ULE_S,
        236 => Opcode::C_SF_S,
        237 => Opcode::C_NGLE_S,
        238 => Opcode::C_SEQ_S,
        239 => Opcode::C_NGL_S,
        240 => Opcode::C_LT_S,
        241 => Opcode::C_NGE_S,
        242 => Opcode::C_LE_S,
        243 => Opcode::C_NGT_S,
        244 => Opcode::BC1F,
        245 => Opcode::BC1T,
        246 => Opcode::BC1FL,
        247 => Opcode::BC1TL,
        248 => Opcode::Invalid,
        249 => Opcode::Invalid,
        250 => Opcode::J,
        251 => Opcode::JAL,
        252 => Opcode::BEQ,
        253 => Opcode::BNE,
        254 => Opcode::BLEZ,
        255 => Opcode::BGTZ,
        256 => Opcode::ADDI,
        257 => Opcode::ADDIU,
        258 => Opcode::SLTI,
        259 => Opcode::SLTIU,
        260 => Opcode::ANDI,
        261 => Opcode::ORI,
        262 => Opcode::XORI,
        263 => Opcode::LUI,
        264 => Opcode::Invalid,
        265 => Opcode::Invalid,
        266 => Opcode::Invalid,
        267 => Opcode::Invalid,
        268 => Opcode::BEQL,
        269 => Opcode::BNEL,
        270 => Opcode::BLEZL,
        271 => Opcode::BGTZL,
        272 => Opcode::DADDI,
        273 => Opcode::DADDIU,
        274 => Opcode::LDL,
        275 => Opcode::LDR,
        276 => Opcode::Invalid,
        277 => Opcode::Invalid,
        278 => Opcode::Invalid,
        279 => Opcode::Invalid,
        280 => Opcode::LB,
        281 => Opcode::LH,
        282 => Opcode::LWL,
        283 => Opcode::LW,
        284 => Opcode::LBU,
        285 => Opcode::LHU,
        286 => Opcode::LWR,
        287 => Opcode::LWU,
        288 => Opcode::SB,
        289 => Opcode::SH,
        290 => Opcode::SWL,
        291 => Opcode::SW,
        292 => Opcode::SDL,
        293 => Opcode::SDR,
        294 => Opcode::SWR,
        295 => Opcode::CACHE,
        296 => Opcode::LL,
        297 => Opcode::LWC1,
        298 => Opcode::Invalid,
        299 => Opcode::Invalid,
        300 => Opcode::LLD,
        301 => Opcode::LDC1,
        302 => Opcode::Invalid,
        303 => Opcode::LD,
        304 => Opcode::SC,
        305 => Opcode::SWC1,
        306 => Opcode::Invalid,
        307 => Opcode::Invalid,
        308 => Opcode::SCD,
        309 => Opcode::SDC1,
        310 => Opcode::Invalid,
        311 => Opcode::SD,
        _ => Opcode::Invalid,
    }
}

/// What the two-level walk produces for a word: the escape descriptor
/// chosen by the top byte, then the flat-table entry at
/// `offset + ((word >> shift) & mask)`; the `INVALID_OFFSET` sentinel
/// resolves to `Invalid` regardless of the index.
pub open spec fn spec_decode(iw: u32) -> Opcode {
    let e = spec_escape((iw >> 24) as u8);
    if e.offset == INVALID_OFFSET {
        Opcode::Invalid
    } else {
        spec_lookup((e.offset + ((iw >> (e.shift as u32)) & (e.mask as u32))) as u16)
    }
}

proof fn lemma_and_mask_u32(x: u32, m: u32)
    by (bit_vector)
    ensures
        x & m <= m,
{
}

proof fn lemma_top_byte(w: u32)
    by (bit_vector)
    ensures
        w >> 24 < 256,
        (w >> 24) / 4 == (w >> 26) & 0x3F,
        (w >> 24) % 4 == (w >> 24) & 0x3,
        w >> 0 == w,
{
}

/// Decodes a 32-bit instruction word. Total over every input:
/// unrecognized encodings return `Opcode::Invalid`, and the result is a
/// function of the word alone, so two calls on the same word agree.
pub fn decode_vr4300(iw: u32) -> (r: Opcode)
    ensures
        r == spec_decode(iw),
{
    let top: u8 = (iw >> 24) as u8;
    let escape = opcode_escape(top);
    if escape.offset == INVALID_OFFSET {
        Opcode::Invalid
    } else {
        proof {
            lemma_escape_wf(top);
            lemma_and_mask_u32(iw >> (escape.shift as u32), escape.mask as u32);
        }
        let index: u32 = (iw >> (escape.shift as u32)) & (escape.mask as u32);
        lookup_instr(escape.offset + (index as u16))
    }
}

/// The primary 6-bit opcode field, instruction bits 31:26.
pub open spec fn spec_op6(w: u32) -> u32 {
    (w >> 26) & 0x3F
}

/// Instruction bits 25:24, the high bits of `rs`; they pick the
/// sub-space within a coprocessor opcode.
pub open spec fn spec_top2(w: u32) -> u32 {
    (w >> 24) & 0x3
}

/// The 6-bit function code field, instruction bits 5:0.
pub open spec fn spec_funct(w: u32) -> u32 {
    (w >> 0) & 0x3F
}

/// The 5-bit `rt` field, instruction bits 20:16.
pub open spec fn spec_rt5(w: u32) -> u32 {
    (w >> 16) & 0x1F
}

/// The low 3 bits of the `rs` field, instruction bits 23:21.
pub open spec fn spec_rs3(w: u32) -> u32 {
    (w >> 21) & 0x7
}

/// The low 2 bits of the `rt` field, instruction bits 17:16.
pub open spec fn spec_rt2(w: u32) -> u32 {
    (w >> 16) & 0x3
}

/// The field-level description of which instruction words encode the
/// mnemonic held in slot `j` of the flat lookup table: the fixed
/// primary opcode and, per block, the fixed secondary field, with every
/// other bit of the word free.
pub open spec fn encoding_selects(j: u16, w: u32) -> bool {
    if j < 64 {
        spec_op6(w) == 0 && spec_funct(w) == j
    } else if j < 96 {
        spec_op6(w) == 1 && spec_rt5(w) == j - 64
    } else if j < 104 {
        spec_op6(w) == 16 && spec_top2(w) <= 1 && spec_rs3(w) == j - 96
    } else if j < 168 {
        spec_op6(w) == 16 && spec_top2(w) == 2 && spec_funct(w) == j - 104
    } else if j < 172 {
        spec_op6(w) == 16 && spec_top2(w) == 3 && spec_rt2(w) == j - 168
    } else if j < 180 {
        spec_op6(w) == 17 && spec_top2(w) <= 1 && spec_rs3(w) == j - 172
    } else if j < 244 {
        spec_op6(w) == 17 && spec_top2(w) == 2 && spec_funct(w) == j - 180
    } else if j < 248 {
        spec_op6(w) == 17 && spec_top2(w) == 3 && spec_rt2(w) == j - 244
    } else if j < 312 {
        spec_op6(w) == j - 248 && spec_direct_group((j - 248) as u8)
    } else {
        false
    }
}

/// The decoder agrees with the field-level encoding description: every
/// word whose fixed fields select slot `j` decodes to that slot's
/// mnemonic, whatever its remaining bits hold. Together with
/// `spec_decode`'s totality this is the equivalence between the
/// encoding metadata and the table-driven walk.
pub proof fn lemma_decode_matches_encoding(j: u16, w: u32)
    requires
        j < LOOKUP_TABLE_LEN,
        encoding_selects(j, w),
    ensures
        spec_decode(w) == spec_lookup(j),
{
    lemma_top_byte(w);
    let top = (w >> 24) as u8;
    assert(top == w >> 24);
    let g: u8 = top / 4;
    assert(g == spec_op6(w));
    assert(top % 4 == spec_top2(w));
    let e = spec_escape(top);
    if j < 64 {
        assert(e == OpcodeEscape { shift: FUNC_SHIFT, mask: FUNC_MASK, offset: SPEC_OFFSET });
        assert((w >> (e.shift as u32)) & (e.mask as u32) == spec_funct(w));
    } else if j < 96 {
        assert(e == OpcodeEscape { shift: RT_SHIFT, mask: RT_MASK, offset: REGIMM_OFFSET });
        assert((w >> (e.shift as u32)) & (e.mask as u32) == spec_rt5(w));
    } else if j < 104 {
        assert(e == OpcodeEscape { shift: RS_SHIFT, mask: RS_MASK_SHORT, offset: COP0_0_OFFSET });
        assert((w >> (e.shift as u32)) & (e.mask as u32) == spec_rs3(w));
    } else if j < 168 {
        assert(e == OpcodeEscape { shift: FUNC_SHIFT, mask: FUNC_MASK, offset: COP0_2_OFFSET });
        assert((w >> (e.shift as u32)) & (e.mask as u32) == spec_funct(w));
    } else if j < 172 {
        assert(e == OpcodeEscape { shift: RT_SHIFT, mask: RT_MASK_SHORT, offset: COP0_3_OFFSET });
        assert((w >> (e.shift as u32)) & (e.mask as u32) == spec_rt2(w));
    } else if j < 180 {
        assert(e == OpcodeEscape { shift: RS_SHIFT, mask: RS_MASK_SHORT, offset: COP1_0_OFFSET });
        assert((w >> (e.shift as u32)) & (e.mask as u32) == spec_rs3(w));
    } else if j < 244 {
        assert(e == OpcodeEscape { shift: FUNC_SHIFT, mask: FUNC_MASK, offset: COP1_2_OFFSET });
        assert((w >> (e.shift as u32)) & (e.mask as u32) == spec_funct(w));
    } else if j < 248 {
        assert(e == OpcodeEscape { shift: RT_SHIFT, mask: RT_MASK_SHORT, offset: COP1_3_OFFSET });
        assert((w >> (e.shift as u32)) & (e.mask as u32) == spec_rt2(w));
    } else {
        assert(spec_direct_group(g));
        assert(e == OpcodeEscape { shift: OPCODE_SHIFT, mask: OPCODE_MASK, offset: DEFAULT_OFFSET });
        assert((w >> (e.shift as u32)) & (e.mask as u32) == spec_op6(w));
    }
    assert((e.offset + ((w >> (e.shift as u32)) & (e.mask as u32))) as u16 == j);
}

/// A word whose primary opcode names no instruction group at all (it
/// is neither a direct opcode nor one of the four escapes) decodes to
/// `Invalid`: the unassigned opcode spaces resolve through the
/// `INVALID_OFFSET` sentinel, never through the lookup table.
pub proof fn lemma_unassigned_primary_decodes_invalid(w: u32)
    requires
        !spec_direct_group((spec_op6(w)) as u8),
        spec_op6(w) != 0,
        spec_op6(w) != 1,
        spec_op6(w) != 16,
        spec_op6(w) != 17,
    ensures
        spec_decode(w) == Opcode::Invalid,
{
    lemma_top_byte(w);
}

} // verus!
