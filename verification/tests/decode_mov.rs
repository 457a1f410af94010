use sim86::decoder::decode;
use sim86::decoder::eac::EffectiveAddress;
use sim86::decoder::eac_mode::EffectiveAddressMode;
use sim86::decoder::instr::Instr;
use sim86::decoder::loc::{Location, Reg};
use sim86::decoder::mov::MoveInstr;
use sim86::decoder::rm_to_reg::decode_rm_to_from_reg;
use sim86::decoder::state::DecoderState;
use sim86::sim::SimState;

#[test]
fn test_decode_8bit_imm_to_rm() {
    let listing = decode(vec![0b10110011, 0b1100100]).unwrap();

    assert_eq!(listing.len(), 1);
    assert_eq!(
        listing[0],
        Instr::Mov(MoveInstr {
            src: Location::Immediate8(0b1100100),
            dest: Location::Reg(Reg::Bl)
        })
    );
}

#[test]
fn test_decode_16bit_imm_to_rm() {
    let listing = decode(vec![0b10111011, 0b1100100, 0b0]).unwrap();

    assert_eq!(listing.len(), 1);
    assert_eq!(
        listing[0],
        Instr::Mov(MoveInstr {
            src: Location::Immediate16(0b1100100),
            dest: Location::Reg(Reg::Bx)
        })
    );
}

#[test]
fn test_decode_imm_to_mem_byte() {
    let listing = decode(vec![0b11000110, 0b110, 0b11, 0b0, 0b100]).unwrap();

    assert_eq!(listing.len(), 1);
    assert_eq!(
        listing[0],
        Instr::Mov(MoveInstr {
            src: Location::Immediate8(4),
            dest: Location::Mem(3)
        })
    );
}

#[test]
fn test_decode_imm_to_mem_word() {
    let listing = decode(vec![0b11000111, 0b110, 0b11, 0b0, 0b100, 0b0]).unwrap();

    assert_eq!(listing.len(), 1);
    assert_eq!(
        listing[0],
        Instr::Mov(MoveInstr {
            src: Location::Immediate16(4),
            dest: Location::Mem(3)
        })
    );
}

#[test]
fn mod_basic_test() {
    let mut state = DecoderState::new(vec![0b10001001, 0b11011001]);
    let (dest, src) = decode_rm_to_from_reg(&mut state).unwrap();
    assert_eq!(dest, Location::Reg(Reg::Cx));
    assert_eq!(src, Location::Reg(Reg::Bx));
}

#[test]
fn mov_basic_test() {
    let mut state = DecoderState::new(vec![0b10001001, 0b11011001]);
    let (dest, src) = decode_rm_to_from_reg(&mut state).unwrap();
    assert_eq!(dest, Location::Reg(Reg::Cx));
    assert_eq!(src, Location::Reg(Reg::Bx));
}

fn extended_program_check() {
    let listing = decode(vec![
        0b10001001, 0b11011001, 0b10001000, 0b11100101, 0b10001001, 0b11011010, 0b10001001,
        0b11011110, 0b10001001, 0b11111011, 0b10001000, 0b11001000, 0b10001000, 0b11101101,
        0b10001001, 0b11000011, 0b10001001, 0b11110011, 0b10001001, 0b11111100, 0b10001001,
        0b11000101,
    ])
    .unwrap();

    println!("{:?}", listing);
    assert_eq!(listing.len(), 11);

    assert_eq!(
        listing[0],
        Instr::Mov(MoveInstr {
            dest: Location::Reg(Reg::Cx),
            src: Location::Reg(Reg::Bx)
        })
    );
    assert_eq!(
        listing[1],
        Instr::Mov(MoveInstr {
            dest: Location::Reg(Reg::Ch),
            src: Location::Reg(Reg::Ah)
        })
    );
    assert_eq!(
        listing[2],
        Instr::Mov(MoveInstr {
            dest: Location::Reg(Reg::Dx),
            src: Location::Reg(Reg::Bx)
        })
    );
    assert_eq!(
        listing[3],
        Instr::Mov(MoveInstr {
            dest: Location::Reg(Reg::Si),
            src: Location::Reg(Reg::Bx)
        })
    );
    assert_eq!(
        listing[4],
        Instr::Mov(MoveInstr {
            dest: Location::Reg(Reg::Bx),
            src: Location::Reg(Reg::Di)
        })
    );
    assert_eq!(
        listing[5],
        Instr::Mov(MoveInstr {
            dest: Location::Reg(Reg::Al),
            src: Location::Reg(Reg::Cl)
        })
    );
    assert_eq!(
        listing[6],
        Instr::Mov(MoveInstr {
            dest: Location::Reg(Reg::Ch),
            src: Location::Reg(Reg::Ch)
        })
    );
    assert_eq!(
        listing[7],
        Instr::Mov(MoveInstr {
            dest: Location::Reg(Reg::Bx),
            src: Location::Reg(Reg::Ax)
        })
    );
    assert_eq!(
        listing[8],
        Instr::Mov(MoveInstr {
            dest: Location::Reg(Reg::Bx),
            src: Location::Reg(Reg::Si)
        })
    );
    assert_eq!(
        listing[9],
        Instr::Mov(MoveInstr {
            dest: Location::Reg(Reg::Sp),
            src: Location::Reg(Reg::Di)
        })
    );
    assert_eq!(
        listing[10],
        Instr::Mov(MoveInstr {
            dest: Location::Reg(Reg::Bp),
            src: Location::Reg(Reg::Ax)
        })
    );
}

#[test]
fn mod_extended_test() {
    extended_program_check();
}

#[test]
fn mov_extended_test() {
    extended_program_check();
}

#[test]
fn mov_test_8bit_immediate_to_reg() {
    let listing = decode(vec![0b10110001, 0b1100, 0b10110101, 0b11110100]).unwrap();

    assert_eq!(listing.len(), 2);
    assert_eq!(
        listing[0],
        Instr::Mov(MoveInstr {
            dest: Location::Reg(Reg::Cl),
            src: Location::Immediate8(12),
        })
    );
    assert_eq!(
        listing[1],
        Instr::Mov(MoveInstr {
            dest: Location::Reg(Reg::Ch),
            src: Location::Immediate8(244),
        })
    );
}

#[test]
fn immediate_test_8bit_immediate_to_reg() {
    let listing = decode(vec![0b10110001, 0b1100, 0b10110101, 0b11110100]).unwrap();

    assert_eq!(listing.len(), 2);
    assert_eq!(
        listing[0],
        Instr::Mov(MoveInstr {
            dest: Location::Reg(Reg::Cl),
            src: Location::Immediate8(12),
        })
    );
    assert_eq!(
        listing[1],
        Instr::Mov(MoveInstr {
            dest: Location::Reg(Reg::Ch),
            src: Location::Immediate8(244),
        })
    );
}

fn imm16_program_check() {
    let listing = decode(vec![
        0b10111001, 0b1100, 0b0, 0b10111001, 0b11110100, 0b11111111, 0b10111010, 0b1101100,
        0b1111, 0b10111010, 0b10010100, 0b11110000,
    ])
    .unwrap();

    assert_eq!(listing.len(), 4);

    assert_eq!(
        listing[0],
        Instr::Mov(MoveInstr {
            dest: Location::Reg(Reg::Cx),
            src: Location::Immediate16(12),
        })
    );

    assert_eq!(
        listing[1],
        Instr::Mov(MoveInstr {
            dest: Location::Reg(Reg::Cx),
            src: Location::Immediate16(65524),
        })
    );

    assert_eq!(
        listing[2],
        Instr::Mov(MoveInstr {
            dest: Location::Reg(Reg::Dx),
            src: Location::Immediate16(3948),
        })
    );

    assert_eq!(
        listing[3],
        Instr::Mov(MoveInstr {
            dest: Location::Reg(Reg::Dx),
            src: Location::Immediate16(61588),
        })
    );
}

#[test]
fn test_16bit_immediate_to_reg() {
    imm16_program_check();
}

#[test]
fn test_16_bit_immediate_to_reg() {
    imm16_program_check();
}

#[test]
fn test_memory_to_acc() {
    let listing = decode(vec![
        0b10100001, 0b11111011, 0b1001, 0b10100001, 0b10000, 0b0,
    ])
    .unwrap();

    assert_eq!(listing.len(), 2);

    assert_eq!(
        listing[0],
        Instr::Mov(MoveInstr {
            dest: Location::Reg(Reg::Ax),
            src: Location::Mem(2555),
        })
    );

    assert_eq!(
        listing[1],
        Instr::Mov(MoveInstr {
            dest: Location::Reg(Reg::Ax),
            src: Location::Mem(16),
        })
    );
}

#[test]
fn test_acc_to_memory() {
    let listing = decode(vec![
        0b10100011, 0b11111010, 0b1001, 0b10100011, 0b1111, 0b0,
    ])
    .unwrap();

    assert_eq!(listing.len(), 2);

    assert_eq!(
        listing[0],
        Instr::Mov(MoveInstr {
            dest: Location::Mem(2554),
            src: Location::Reg(Reg::Ax),
        })
    );

    assert_eq!(
        listing[1],
        Instr::Mov(MoveInstr {
            dest: Location::Mem(15),
            src: Location::Reg(Reg::Ax),
        })
    );
}

#[test]
fn test_display_mov_basic() {
    let mov = Instr::Mov(MoveInstr {
        dest: Location::Reg(Reg::Ax),
        src: Location::Reg(Reg::Bx),
    });

    assert_eq!(mov.text(), "mov ax, bx");
}

#[test]
fn test_display_mov_mem_word() {
    let mov = Instr::Mov(MoveInstr {
        dest: Location::Eac(EffectiveAddress::Mode(EffectiveAddressMode::BxSi)),
        src: Location::Immediate16(123),
    });

    assert_eq!(mov.text(), "mov [bx + si], word 123");
}

#[test]
fn test_display_mov_mem_byte() {
    let mov = Instr::Mov(MoveInstr {
        dest: Location::Eac(EffectiveAddress::Mode(EffectiveAddressMode::BxSi)),
        src: Location::Immediate8(123),
    });

    assert_eq!(mov.text(), "mov [bx + si], byte 123");
}

#[test]
fn test_mem_mov() {
    let mut state = SimState::new(vec![
        0b11000111, 0b110, 0b11101000, 0b11, 0b1, 0b0, 0b11000111, 0b110, 0b11101010, 0b11, 0b10,
        0b0, 0b11000111, 0b110, 0b11101100, 0b11, 0b11, 0b0, 0b11000111, 0b110, 0b11101110, 0b11,
        0b100, 0b0, 0b10111011, 0b11101000, 0b11, 0b11000111, 0b1000111, 0b100, 0b1010, 0b0,
        0b10001011, 0b11110, 0b11101000, 0b11, 0b10001011, 0b1110, 0b11101010, 0b11, 0b10001011,
        0b10110, 0b11101100, 0b11, 0b10001011, 0b101110, 0b11101110, 0b11,
    ]);

    state.run().unwrap();

    assert_eq!(state.get_register_16(Reg::Bx), 1);
    assert_eq!(state.get_register_16(Reg::Cx), 2);
    assert_eq!(state.get_register_16(Reg::Dx), 10);
    assert_eq!(state.get_register_16(Reg::Bp), 4);
    assert_eq!(state.ip, 48);
}
