use sim86::decoder::loc::Reg;
use sim86::decoder::op::OpKind;
use sim86::sim::SimState;

#[test]
fn add_to_pos_byte() {
    let mut state = SimState::default();
    state.set_register_8(Reg::Al, 0x1);
    state.set_register_8(Reg::Bl, 0x2);

    let result = OpKind::Add.execute_byte(&mut state, 0x1, 0x2);

    assert_eq!(result, 0x3);

    assert_eq!(state.get_register_8(Reg::Al), 0x1);
    assert_eq!(state.get_register_8(Reg::Bl), 0x2);
    assert_eq!(state.flags.zero, false);
    assert_eq!(state.flags.sign, false);
}

#[test]
fn add_to_neg_byte() {
    let mut state = SimState::default();
    state.set_register_8(Reg::Al, 0x0);
    state.set_register_8(Reg::Bl, 0xff);

    let result = OpKind::Add.execute_byte(&mut state, 0x0, 0xff);

    assert_eq!(result, 0xff);

    assert_eq!(state.get_register_8(Reg::Al), 0x0);
    assert_eq!(state.get_register_8(Reg::Bl), 0xff);
    assert_eq!(state.flags.zero, false);
    assert_eq!(state.flags.sign, true);
}

#[test]
fn add_to_zero_byte() {
    let mut state = SimState::default();
    state.set_register_8(Reg::Al, 0x0);
    state.set_register_8(Reg::Bl, 0x0);

    let result = OpKind::Add.execute_byte(&mut state, 0x0, 0x0);

    assert_eq!(result, 0x0);

    assert_eq!(state.get_register_8(Reg::Al), 0x0);
    assert_eq!(state.get_register_8(Reg::Bl), 0x0);
    assert_eq!(state.flags.zero, true);
    assert_eq!(state.flags.sign, false);
}

#[test]
fn sub_to_pos_byte() {
    let mut state = SimState::default();
    state.set_register_8(Reg::Al, 0x3);
    state.set_register_8(Reg::Bl, 0x2);

    let result = OpKind::Sub.execute_byte(&mut state, 0x3, 0x2);

    assert_eq!(result, 0x1);

    assert_eq!(state.get_register_8(Reg::Al), 0x3);
    assert_eq!(state.get_register_8(Reg::Bl), 0x2);
    assert_eq!(state.flags.zero, false);
    assert_eq!(state.flags.sign, false);
}

#[test]
fn sub_to_neg_byte() {
    let mut state = SimState::default();
    state.set_register_8(Reg::Al, 0x0);
    state.set_register_8(Reg::Bl, 0xff);

    let result = OpKind::Sub.execute_byte(&mut state, 0x0, 0xff);

    assert_eq!(result, 0x1);

    assert_eq!(state.get_register_8(Reg::Al), 0x0);
    assert_eq!(state.get_register_8(Reg::Bl), 0xff);
    assert_eq!(state.flags.zero, false);
    assert_eq!(state.flags.sign, false);
}

#[test]
fn sub_to_zero_byte() {
    let mut state = SimState::default();
    state.set_register_8(Reg::Al, 0x0);
    state.set_register_8(Reg::Bl, 0x0);

    let result = OpKind::Sub.execute_byte(&mut state, 0x0, 0x0);

    assert_eq!(result, 0x0);

    assert_eq!(state.get_register_8(Reg::Al), 0x0);
    assert_eq!(state.get_register_8(Reg::Bl), 0x0);
    assert_eq!(state.flags.zero, true);
    assert_eq!(state.flags.sign, false);
}

#[test]
fn cmp_to_pos_byte() {
    let mut state = SimState::default();
    state.set_register_8(Reg::Al, 0x3);
    state.set_register_8(Reg::Bl, 0x2);

    let result = OpKind::Cmp.execute_byte(&mut state, 0x3, 0x2);

    assert_eq!(result, 0x3);

    assert_eq!(state.get_register_8(Reg::Al), 0x3);
    assert_eq!(state.get_register_8(Reg::Bl), 0x2);
    assert_eq!(state.flags.zero, false);
    assert_eq!(state.flags.sign, false);
}

#[test]
fn cmp_to_neg_byte() {
    let mut state = SimState::default();
    state.set_register_8(Reg::Al, 0x0);
    state.set_register_8(Reg::Bl, 0xff);

    let result = OpKind::Cmp.execute_byte(&mut state, 0x0, 0xff);

    assert_eq!(result, 0x0);

    assert_eq!(state.get_register_8(Reg::Al), 0x0);
    assert_eq!(state.get_register_8(Reg::Bl), 0xff);
    assert_eq!(state.flags.zero, false);
    assert_eq!(state.flags.sign, false);
}

#[test]
fn cmp_to_zero_byte() {
    let mut state = SimState::default();
    state.set_register_8(Reg::Al, 0x0);
    state.set_register_8(Reg::Bl, 0x0);

    let result = OpKind::Cmp.execute_byte(&mut state, 0x0, 0x0);

    assert_eq!(result, 0x0);

    assert_eq!(state.get_register_8(Reg::Al), 0x0);
    assert_eq!(state.get_register_8(Reg::Bl), 0x0);
    assert_eq!(state.flags.zero, true);
    assert_eq!(state.flags.sign, false);
}

#[test]
fn add_to_pos_word() {
    let mut state = SimState::default();
    state.set_register_16(Reg::Ax, 0x1);
    state.set_register_16(Reg::Bx, 0x2);

    let result = OpKind::Add.execute_word(&mut state, 0x1, 0x2);

    assert_eq!(result, 0x3);

    assert_eq!(state.get_register_16(Reg::Ax), 0x1);
    assert_eq!(state.get_register_16(Reg::Bx), 0x2);
    assert_eq!(state.flags.zero, false);
    assert_eq!(state.flags.sign, false);
}

#[test]
fn add_to_neg_word() {
    let mut state = SimState::default();
    state.set_register_16(Reg::Ax, 0x0);
    state.set_register_16(Reg::Bx, 0xffff);

    let result = OpKind::Add.execute_word(&mut state, 0x0, 0xffff);

    assert_eq!(result, 0xffff);

    assert_eq!(state.get_register_16(Reg::Ax), 0x0);
    assert_eq!(state.get_register_16(Reg::Bx), 0xffff);
    assert_eq!(state.flags.zero, false);
    assert_eq!(state.flags.sign, true);
}

#[test]
fn add_to_zero_word() {
    let mut state = SimState::default();
    state.set_register_16(Reg::Ax, 0x0);
    state.set_register_16(Reg::Bx, 0x0);

    let result = OpKind::Add.execute_word(&mut state, 0x0, 0x0);

    assert_eq!(result, 0x0);

    assert_eq!(state.get_register_16(Reg::Ax), 0x0);
    assert_eq!(state.get_register_16(Reg::Bx), 0x0);
    assert_eq!(state.flags.zero, true);
    assert_eq!(state.flags.sign, false);
}

#[test]
fn sub_to_pos_word() {
    let mut state = SimState::default();
    state.set_register_16(Reg::Ax, 0x3);
    state.set_register_16(Reg::Bx, 0x2);

    let result = OpKind::Sub.execute_word(&mut state, 0x3, 0x2);

    assert_eq!(result, 0x1);

    assert_eq!(state.get_register_16(Reg::Ax), 0x3);
    assert_eq!(state.get_register_16(Reg::Bx), 0x2);
    assert_eq!(state.flags.zero, false);
    assert_eq!(state.flags.sign, false);
}

#[test]
fn sub_to_neg_word() {
    let mut state = SimState::default();
    state.set_register_16(Reg::Ax, 0x0);
    state.set_register_16(Reg::Bx, 0xffff);

    let result = OpKind::Sub.execute_word(&mut state, 0x0, 0xffff);

    assert_eq!(result, 0x1);

    assert_eq!(state.get_register_16(Reg::Ax), 0x0);
    assert_eq!(state.get_register_16(Reg::Bx), 0xffff);
    assert_eq!(state.flags.zero, false);
    assert_eq!(state.flags.sign, false);
}

#[test]
fn sub_to_zero_word() {
    let mut state = SimState::default();
    state.set_register_16(Reg::Ax, 0x0);
    state.set_register_16(Reg::Bx, 0x0);

    let result = OpKind::Sub.execute_word(&mut state, 0x0, 0x0);

    assert_eq!(result, 0x0);

    assert_eq!(state.get_register_16(Reg::Ax), 0x0);
    assert_eq!(state.get_register_16(Reg::Bx), 0x0);
    assert_eq!(state.flags.zero, true);
    assert_eq!(state.flags.sign, false);
}

#[test]
fn cmp_to_pos_word() {
    let mut state = SimState::default();
    state.set_register_16(Reg::Ax, 0x3);
    state.set_register_16(Reg::Bx, 0x2);

    let result = OpKind::Cmp.execute_word(&mut state, 0x3, 0x2);

    assert_eq!(result, 0x3);

    assert_eq!(state.get_register_16(Reg::Ax), 0x3);
    assert_eq!(state.get_register_16(Reg::Bx), 0x2);
    assert_eq!(state.flags.zero, false);
    assert_eq!(state.flags.sign, false);
}

#[test]
fn cmp_to_neg_word() {
    let mut state = SimState::default();
    state.set_register_16(Reg::Ax, 0x0);
    state.set_register_16(Reg::Bx, 0xffff);

    let result = OpKind::Cmp.execute_word(&mut state, 0x0, 0xffff);

    assert_eq!(result, 0x0);

    assert_eq!(state.get_register_16(Reg::Ax), 0x0);
    assert_eq!(state.get_register_16(Reg::Bx), 0xffff);
    assert_eq!(state.flags.zero, false);
    assert_eq!(state.flags.sign, false);
}

#[test]
fn cmp_to_zero_word() {
    let mut state = SimState::default();
    state.set_register_16(Reg::Ax, 0x0);
    state.set_register_16(Reg::Bx, 0x0);

    let result = OpKind::Cmp.execute_word(&mut state, 0x0, 0x0);

    assert_eq!(result, 0x0);

    assert_eq!(state.get_register_16(Reg::Ax), 0x0);
    assert_eq!(state.get_register_16(Reg::Bx), 0x0);
    assert_eq!(state.flags.zero, true);
    assert_eq!(state.flags.sign, false);
}
