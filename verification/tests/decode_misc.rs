use sim86::Error;
use sim86::decoder::decode;
use sim86::decoder::instr::{Instr, decode_instr};
use sim86::decoder::loc::{Location, Reg};
use sim86::decoder::mov::MoveInstr;
use sim86::decoder::op::{OpInstr, OpKind};
use sim86::decoder::state::{Decoder, DecoderState};

#[test]
fn test_mov_display() {
    let mov = Instr::Mov(MoveInstr {
        dest: Location::Reg(Reg::Ax),
        src: Location::Reg(Reg::Bx),
    });

    assert_eq!(mov.text(), "mov ax, bx");
}

#[test]
fn test_op_display() {
    let op = Instr::Op(OpInstr {
        kind: OpKind::Add,
        dest: Location::Reg(Reg::Ax),
        src: Location::Reg(Reg::Bx),
    });

    assert_eq!(op.text(), "add ax, bx");
}

#[test]
fn test_je_display() {
    let je = Instr::Je(0x12);

    assert_eq!(je.text(), "je 18");
}

#[test]
fn test_jne_display() {
    let jne = Instr::Jne(0x12);

    assert_eq!(jne.text(), "jne 18");
}

#[test]
fn test_jne_display_negative() {
    let jne = Instr::Jne(-8);

    assert_eq!(jne.text(), "jne -8");
}

#[test]
fn test_invalid_input() {
    let mut state = DecoderState::new(vec![0b11111111]);
    assert_eq!(decode_instr(&mut state), Err(Error::UnknownOpcode(0b11111111)));
}

#[test]
fn test_jump_eq_zero() {
    let listing = decode(vec![0b01110100, 0b00000111]).unwrap();

    assert_eq!(listing.len(), 1);
    assert_eq!(listing[0], Instr::Je(7));
}

#[test]
fn test_jump_not_eq_zero() {
    let listing = decode(vec![0b01110101, 0b00000111]).unwrap();

    assert_eq!(listing.len(), 1);
    assert_eq!(listing[0], Instr::Jne(7));
}

#[test]
fn decode_empty_program() {
    let listing = decode(vec![]).unwrap();
    assert_eq!(listing.len(), 0);
}

#[test]
fn decode_truncated_immediate() {
    // A word immediate-to-register move with its high byte missing.
    assert_eq!(decode(vec![0b10111001, 0b1100]), Err(Error::OutOfBounds));
}

#[test]
fn decode_unknown_op_field() {
    // Leading byte in the register/memory arithmetic family, but with an
    // operation field (001, "or") outside the modeled set.
    assert_eq!(decode(vec![0b1001, 0b11011000]), Err(Error::UnknownOpcode(0b001)));
}

// The decoder consumes exactly the bytes of each encoding: the pending
// length after one decode equals the number of opcode, mod/reg/rm,
// displacement and immediate bytes present.
#[test]
fn decode_lengths_per_family() {
    let cases: Vec<(Vec<u8>, usize)> = vec![
        (vec![0b10001001, 0b11011001], 2),                      // register to register
        (vec![0b10001011, 0b1110110, 0b100], 3),                // effective address, 8-bit displacement
        (vec![0b10001011, 0b10000111, 0b10, 0b0], 4),           // effective address, 16-bit displacement
        (vec![0b10001011, 0b110, 0b1, 0b0], 4),                 // direct address
        (vec![0b10110001, 0b1100], 2),                          // byte immediate to register
        (vec![0b10111001, 0b1100, 0b0], 3),                     // word immediate to register
        (vec![0b11000110, 0b110, 0b11, 0b0, 0b100], 5),         // byte immediate to memory
        (vec![0b11000111, 0b110, 0b11, 0b0, 0b100, 0b0], 6),    // word immediate to memory
        (vec![0b10100000, 0b10], 2),                            // memory to byte accumulator
        (vec![0b10100001, 0b10, 0b0], 3),                       // memory to word accumulator
        (vec![0b10100010, 0b10], 2),                            // byte accumulator to memory
        (vec![0b10100011, 0b10, 0b0], 3),                       // word accumulator to memory
        (vec![0b1, 0b11011000], 2),                             // word register add
        (vec![0b10000011, 0b11000001, 0b1100], 3),              // sign-extended immediate add
        (vec![0b10000001, 0b11000001, 0b1100, 0b0], 4),         // word immediate add
        (vec![0b100, 0b1100], 2),                               // immediate to byte accumulator
        (vec![0b101, 0b1100, 0b0], 3),                          // immediate to word accumulator
        (vec![0b01110100, 0b11], 2),                            // jump if equal
        (vec![0b01110101, 0b11], 2),                            // jump if not equal
    ];
    for (bytes, expected_len) in cases {
        let mut state = DecoderState::new(bytes);
        decode_instr(&mut state).unwrap();
        assert_eq!(state.get_instr_len(), expected_len);
    }
}

// Disassembling the same byte buffer twice yields identical text output.
#[test]
fn disassemble_twice_identical() {
    let bytes = vec![
        0b10111001, 0b11, 0b0, 0b10111011, 0b11101000, 0b11, 0b10000011, 0b11000011, 0b1010,
        0b10000011, 0b11101001, 0b1, 0b1110101, 0b11111000,
    ];
    let first: Vec<String> = decode(bytes.clone())
        .unwrap()
        .iter()
        .map(|i| i.text())
        .collect();
    let second: Vec<String> = decode(bytes).unwrap().iter().map(|i| i.text()).collect();
    assert_eq!(first, second);
    assert_eq!(first[0], "mov cx, 3");
    assert_eq!(first[4], "jne -8");
}
