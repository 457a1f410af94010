use sim86::Error;
use sim86::decoder::decode;
use sim86::decoder::eac::EffectiveAddress;
use sim86::decoder::eac_mode::EffectiveAddressMode;
use sim86::decoder::instr::Instr;
use sim86::decoder::loc::{Location, Reg};
use sim86::decoder::op::{OpInstr, OpKind};

#[test]
fn test_op_rm_and_reg_to_either() {
    let listing = decode(vec![
        0b1, 0b11011000, 0b101001, 0b11011000, 0b111001, 0b11011000,
    ])
    .unwrap();

    assert_eq!(listing.len(), 3);

    assert_eq!(
        listing[0],
        Instr::Op(OpInstr {
            kind: OpKind::Add,
            dest: Location::Reg(Reg::Ax),
            src: Location::Reg(Reg::Bx),
        })
    );

    assert_eq!(
        listing[1],
        Instr::Op(OpInstr {
            kind: OpKind::Sub,
            dest: Location::Reg(Reg::Ax),
            src: Location::Reg(Reg::Bx),
        })
    );

    assert_eq!(
        listing[2],
        Instr::Op(OpInstr {
            kind: OpKind::Cmp,
            dest: Location::Reg(Reg::Ax),
            src: Location::Reg(Reg::Bx),
        })
    );
}

#[test]
fn test_op_imm_with_rm() {
    let listing = decode(vec![0b10000011, 0b11000001, 0b1100]).unwrap();

    assert_eq!(listing.len(), 1);

    assert_eq!(
        listing[0],
        Instr::Op(OpInstr {
            kind: OpKind::Add,
            dest: Location::Reg(Reg::Cx),
            src: Location::Immediate8(12),
        })
    );
}

#[test]
fn test_add_si_imm() {
    let listing = decode(vec![0b10000011, 0b11000110, 0b10]).unwrap();

    assert_eq!(listing.len(), 1);

    assert_eq!(
        listing[0],
        Instr::Op(OpInstr {
            kind: OpKind::Add,
            dest: Location::Reg(Reg::Si),
            src: Location::Immediate8(2),
        })
    );
}

#[test]
fn test_add_mem_to_reg() {
    let listing = decode(vec![0b11, 0b110110, 0b1010, 0b0]).unwrap();

    assert_eq!(listing.len(), 1);

    assert_eq!(
        listing[0],
        Instr::Op(OpInstr {
            kind: OpKind::Add,
            dest: Location::Reg(Reg::Si),
            src: Location::Mem(10),
        })
    );
}

#[test]
fn test_add_imm_to_mem() {
    let listing = decode(vec![0b10000001, 0b110, 0b1010, 0b0, 0b11101000, 0b11]).unwrap();

    assert_eq!(listing.len(), 1);

    assert_eq!(
        listing[0],
        Instr::Op(OpInstr {
            kind: OpKind::Add,
            dest: Location::Mem(10),
            src: Location::Immediate16(1000),
        })
    );
}

#[test]
fn test_add_acc_8bit() {
    let listing = decode(vec![0b100, 0b1100]).unwrap();

    assert_eq!(listing.len(), 1);

    assert_eq!(
        listing[0],
        Instr::Op(OpInstr {
            kind: OpKind::Add,
            dest: Location::Reg(Reg::Al),
            src: Location::Immediate8(12),
        })
    );
}

#[test]
fn test_display_op_kind() {
    assert_eq!(OpKind::Add.text(), "add");
    assert_eq!(OpKind::Sub.text(), "sub");
    assert_eq!(OpKind::Cmp.text(), "cmp");
}

#[test]
fn test_display_op_instr() {
    let instr = OpInstr {
        kind: OpKind::Add,
        dest: Location::Reg(Reg::Ax),
        src: Location::Reg(Reg::Bx),
    };

    assert_eq!(instr.text(), "add ax, bx");

    let instr = OpInstr {
        kind: OpKind::Add,
        dest: Location::Eac(EffectiveAddress::Mode(EffectiveAddressMode::Bx)),
        src: Location::Immediate8(12),
    };

    assert_eq!(instr.text(), "add [bx], byte 12");

    let instr = OpInstr {
        kind: OpKind::Add,
        dest: Location::Eac(EffectiveAddress::Mode(EffectiveAddressMode::Bx)),
        src: Location::Immediate16(12),
    };

    assert_eq!(instr.text(), "add [bx], word 12");
}

#[test]
fn test_sub_acc_8bit() {
    let listing = decode(vec![0x2C, 0x05]).unwrap();

    assert_eq!(listing.len(), 1);

    assert_eq!(
        listing[0],
        Instr::Op(OpInstr {
            kind: OpKind::Sub,
            dest: Location::Reg(Reg::Al),
            src: Location::Immediate8(5),
        })
    );
}

#[test]
fn test_cmp_acc_16bit() {
    let listing = decode(vec![0x3D, 0xE8, 0x03]).unwrap();

    assert_eq!(listing.len(), 1);

    assert_eq!(
        listing[0],
        Instr::Op(OpInstr {
            kind: OpKind::Cmp,
            dest: Location::Reg(Reg::Ax),
            src: Location::Immediate16(1000),
        })
    );
}

#[test]
fn test_unmodeled_acc_op() {
    // The accumulator-immediate byte for "or" carries an operation field
    // outside the modeled set.
    assert_eq!(decode(vec![0x0C, 0x0C]), Err(Error::UnknownOpcode(0b001)));
}
