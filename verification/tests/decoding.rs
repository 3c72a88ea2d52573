use magic::decoder::decode_vr4300;
use magic::Opcode;

#[test]
fn decode_special_block() {
    assert_eq!(decode_vr4300(0x0000_0000), Opcode::SLL);
    assert_eq!(decode_vr4300(0x0000_0002), Opcode::SRL);
    assert_eq!(decode_vr4300(0x0000_0021), Opcode::ADDU);
    assert_eq!(decode_vr4300(0x0000_003F), Opcode::DSRA32);
    assert_eq!(decode_vr4300(0x0000_0001), Opcode::Invalid);
    assert_eq!(decode_vr4300(0x03BF_F809), Opcode::JALR);
}

#[test]
fn decode_regimm_block() {
    assert_eq!(decode_vr4300(0x0400_0000), Opcode::BLTZ);
    assert_eq!(decode_vr4300(0x0401_0000), Opcode::BGEZ);
    assert_eq!(decode_vr4300(0x0410_0000), Opcode::BLTZAL);
    assert_eq!(decode_vr4300(0x0414_0000), Opcode::Invalid);
}

#[test]
fn decode_primary_block() {
    assert_eq!(decode_vr4300(0x0800_0000), Opcode::J);
    assert_eq!(decode_vr4300(0x0C00_0000), Opcode::JAL);
    assert_eq!(decode_vr4300(0x2400_0000), Opcode::ADDIU);
    assert_eq!(decode_vr4300(0x3C00_0000), Opcode::LUI);
    assert_eq!(decode_vr4300(0x8C00_0000), Opcode::LW);
    assert_eq!(decode_vr4300(0xAC00_0000), Opcode::SW);
    assert_eq!(decode_vr4300(0xFC00_0000), Opcode::SD);
    assert_eq!(decode_vr4300(0xBC00_0000), Opcode::CACHE);
}

#[test]
fn decode_cop0_blocks() {
    assert_eq!(decode_vr4300(0x4000_0000), Opcode::MFC0);
    assert_eq!(decode_vr4300(0x40A0_0000), Opcode::DMTC0);
    assert_eq!(decode_vr4300(0x4200_0001), Opcode::TLBR);
    assert_eq!(decode_vr4300(0x4200_0018), Opcode::ERET);
    assert_eq!(decode_vr4300(0x4300_0000), Opcode::BC0F);
    assert_eq!(decode_vr4300(0x4301_0000), Opcode::BC0T);
}

#[test]
fn decode_cop1_blocks() {
    assert_eq!(decode_vr4300(0x4400_0000), Opcode::MFC1);
    assert_eq!(decode_vr4300(0x4440_0000), Opcode::CFC1);
    assert_eq!(decode_vr4300(0x4600_0000), Opcode::ADD_S);
    assert_eq!(decode_vr4300(0x4600_0004), Opcode::SQRT_S);
    assert_eq!(decode_vr4300(0x4600_003F), Opcode::C_NGT_S);
    assert_eq!(decode_vr4300(0x4700_0000), Opcode::BC1F);
    assert_eq!(decode_vr4300(0x4702_0000), Opcode::BC1FL);
}

#[test]
fn decode_unassigned_spaces_are_invalid() {
    assert_eq!(decode_vr4300(0x4800_0000), Opcode::Invalid);
    assert_eq!(decode_vr4300(0x4C00_0000), Opcode::Invalid);
    assert_eq!(decode_vr4300(0x7000_0000), Opcode::Invalid);
    assert_eq!(decode_vr4300(0xC800_0000), Opcode::Invalid);
    assert_eq!(decode_vr4300(0xE800_0000), Opcode::Invalid);
    assert_eq!(decode_vr4300(0xD800_0000), Opcode::Invalid);
}

#[test]
fn decode_is_total_and_pure() {
    let mut word: u32 = 0;
    loop {
        let first = decode_vr4300(word);
        let second = decode_vr4300(word);
        assert_eq!(first, second);
        word = word.wrapping_add(0x0001_0411);
        if word == 0 {
            break;
        }
        if word < 0x0001_0411 {
            break;
        }
    }
    assert_eq!(decode_vr4300(u32::MAX), decode_vr4300(u32::MAX));
}
