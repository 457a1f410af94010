use sim86::decoder::decode;
use sim86::decoder::eac::EffectiveAddress;
use sim86::decoder::eac_mode::{EffectiveAddressMode, decode_eac_mode};
use sim86::decoder::instr::Instr;
use sim86::decoder::loc::{Location, Reg};
use sim86::decoder::mov::MoveInstr;

#[test]
fn eac_test_source_addr_calulation() {
    let listing = decode(vec![
        0b10001010, 0b0, 0b10001011, 0b11011, 0b10001011, 0b1010110, 0b0,
    ])
    .unwrap();

    assert_eq!(listing.len(), 3);

    assert_eq!(
        listing[0],
        Instr::Mov(MoveInstr {
            dest: Location::Reg(Reg::Al),
            src: Location::Eac(EffectiveAddress::Mode(EffectiveAddressMode::BxSi)),
        })
    );

    assert_eq!(
        listing[1],
        Instr::Mov(MoveInstr {
            dest: Location::Reg(Reg::Bx),
            src: Location::Eac(EffectiveAddress::Mode(EffectiveAddressMode::BpDi)),
        })
    );

    assert_eq!(
        listing[2],
        Instr::Mov(MoveInstr {
            dest: Location::Reg(Reg::Dx),
            src: Location::Eac(EffectiveAddress::Byte(EffectiveAddressMode::Bp, 0)),
        })
    );
}

#[test]
fn eac_test_source_addr_calulation_with_8bit_offset() {
    let listing = decode(vec![0b10001010, 0b1100000, 0b100]).unwrap();

    assert_eq!(listing.len(), 1);

    assert_eq!(
        listing[0],
        Instr::Mov(MoveInstr {
            dest: Location::Reg(Reg::Ah),
            src: Location::Eac(EffectiveAddress::Byte(EffectiveAddressMode::BxSi, 4)),
        })
    );
}

#[test]
fn eac_test_source_addr_calulation_with_16bit_offset() {
    let listing = decode(vec![0b10001010, 0b10000000, 0b10000111, 0b10011]).unwrap();

    assert_eq!(listing.len(), 1);

    assert_eq!(
        listing[0],
        Instr::Mov(MoveInstr {
            dest: Location::Reg(Reg::Al),
            src: Location::Eac(EffectiveAddress::Word(EffectiveAddressMode::BxSi, 4999)),
        })
    );
}

#[test]
fn eac_test_dest_add_calculation() {
    let listing = decode(vec![
        0b10001001, 0b1001, 0b10001000, 0b1010, 0b10001000, 0b1101110, 0b0,
    ])
    .unwrap();

    assert_eq!(listing.len(), 3);

    assert_eq!(
        listing[0],
        Instr::Mov(MoveInstr {
            dest: Location::Eac(EffectiveAddress::Mode(EffectiveAddressMode::BxDi)),
            src: Location::Reg(Reg::Cx),
        })
    );

    assert_eq!(
        listing[1],
        Instr::Mov(MoveInstr {
            dest: Location::Eac(EffectiveAddress::Mode(EffectiveAddressMode::BpSi)),
            src: Location::Reg(Reg::Cl),
        })
    );

    assert_eq!(
        listing[2],
        Instr::Mov(MoveInstr {
            dest: Location::Eac(EffectiveAddress::Byte(EffectiveAddressMode::Bp, 0)),
            src: Location::Reg(Reg::Ch),
        })
    );
}

#[test]
fn test_direct_access() {
    let listing = decode(vec![
        0b10001011, 0b101110, 0b101, 0b0, 0b10001011, 0b11110, 0b10000010, 0b1101,
    ])
    .unwrap();

    assert_eq!(listing.len(), 2);

    assert_eq!(
        listing[0],
        Instr::Mov(MoveInstr {
            dest: Location::Reg(Reg::Bp),
            src: Location::Mem(5),
        })
    );

    assert_eq!(
        listing[1],
        Instr::Mov(MoveInstr {
            dest: Location::Reg(Reg::Bx),
            src: Location::Mem(3458),
        })
    );
}

#[test]
fn test_eac_display_none() {
    let eac = EffectiveAddress::Mode(EffectiveAddressMode::Bx);
    assert_eq!(eac.text(), "bx");
}

#[test]
fn test_eac_display_byte() {
    let eac = EffectiveAddress::Byte(EffectiveAddressMode::Bp, 5);
    assert_eq!(eac.text(), "bp + 5");
}

#[test]
fn test_eac_display_word() {
    let eac = EffectiveAddress::Word(EffectiveAddressMode::Bp, 5);
    assert_eq!(eac.text(), "bp + 5");
}

#[test]
fn test_eac_display_negative() {
    let eac = EffectiveAddress::Byte(EffectiveAddressMode::Bp, -5);
    assert_eq!(eac.text(), "bp - 5");
}

#[test]
fn test_decode_eac_mode() {
    assert_eq!(decode_eac_mode(0b000), EffectiveAddressMode::BxSi);
    assert_eq!(decode_eac_mode(0b001), EffectiveAddressMode::BxDi);
    assert_eq!(decode_eac_mode(0b010), EffectiveAddressMode::BpSi);
    assert_eq!(decode_eac_mode(0b011), EffectiveAddressMode::BpDi);
    assert_eq!(decode_eac_mode(0b100), EffectiveAddressMode::Si);
    assert_eq!(decode_eac_mode(0b101), EffectiveAddressMode::Di);
    assert_eq!(decode_eac_mode(0b110), EffectiveAddressMode::Bp);
    assert_eq!(decode_eac_mode(0b111), EffectiveAddressMode::Bx);
}

#[test]
fn test_display_eac_mode() {
    assert_eq!(EffectiveAddressMode::BxSi.text(), "bx + si");
    assert_eq!(EffectiveAddressMode::BxDi.text(), "bx + di");
    assert_eq!(EffectiveAddressMode::BpSi.text(), "bp + si");
    assert_eq!(EffectiveAddressMode::BpDi.text(), "bp + di");
    assert_eq!(EffectiveAddressMode::Si.text(), "si");
    assert_eq!(EffectiveAddressMode::Di.text(), "di");
    assert_eq!(EffectiveAddressMode::Bp.text(), "bp");
    assert_eq!(EffectiveAddressMode::Bx.text(), "bx");
}

#[test]
fn test_location_display() {
    let reg = Location::Reg(Reg::Ax);
    let mem = Location::Mem(1234);
    let imm16 = Location::Immediate16(1234);
    let imm8 = Location::Immediate8(12);
    let eac = Location::Eac(EffectiveAddress::Byte(EffectiveAddressMode::BxSi, 12));

    assert_eq!(reg.text(), "ax");
    assert_eq!(mem.text(), "[1234]");
    assert_eq!(imm16.text(), "1234");
    assert_eq!(imm8.text(), "12");
    assert_eq!(eac.text(), "[bx + si + 12]");
}
