use chip8::cpu::{Effect, Fault, Options, CPU};
use chip8::decode::{decode, operands, Instruction, Operands};
use chip8::ops;

const NO_KEYS: [bool; 16] = [false; 16];

fn with_options(shift_uses_vy: bool, jump_uses_v0: bool, increment_i_on_memory_ops: bool) -> CPU {
    CPU::new(Options { shift_uses_vy, jump_uses_v0, increment_i_on_memory_ops })
}

fn plain() -> CPU {
    with_options(false, false, false)
}

/// A plain machine with `data` loaded at 0x200 and `I` pointing at it.
fn with_data(data: &[u8]) -> CPU {
    let mut cpu = plain();
    cpu.load_rom(data.to_vec()).unwrap();
    exec(&mut cpu, 0xA200);
    cpu
}

fn exec(cpu: &mut CPU, word: u16) -> Effect {
    cpu.execute_instruction(word, &NO_KEYS, 0).unwrap()
}

fn set_v(cpu: &mut CPU, x: u16, value: u8) {
    exec(cpu, 0x6000 | (x << 8) | value as u16);
}

#[test]
fn operands_split_each_field() {
    assert_eq!(operands(0xABCD), Operands { nnn: 0xBCD, nn: 0xCD, n: 0xD, x: 0xB, y: 0xC });
    assert_eq!(operands(0x0000), Operands { nnn: 0, nn: 0, n: 0, x: 0, y: 0 });
}

#[test]
fn decode_recognises_each_family() {
    assert_eq!(decode(0x00E0), Instruction::ClearScreen);
    assert_eq!(decode(0x00EE), Instruction::Return);
    assert_eq!(decode(0x1ABC), Instruction::Jump { nnn: 0xABC });
    assert_eq!(decode(0x2ABC), Instruction::Call { nnn: 0xABC });
    assert_eq!(decode(0x8AB4), Instruction::Add { x: 0xA, y: 0xB });
    assert_eq!(decode(0x8ABE), Instruction::ShiftLeft { x: 0xA, y: 0xB });
    assert_eq!(decode(0xB123), Instruction::JumpWithOffset { x: 1, nnn: 0x123 });
    assert_eq!(decode(0xD125), Instruction::Draw { x: 1, y: 2, n: 5 });
    assert_eq!(decode(0xE29E), Instruction::SkipIfKey { x: 2 });
    assert_eq!(decode(0xF365), Instruction::Load { x: 3 });
    assert_eq!(decode(0x5AB1), Instruction::Unknown { opcode: 0x5AB1 });
    assert_eq!(decode(0x0000), Instruction::Unknown { opcode: 0x0000 });
}

#[test]
fn add_byte_wraps_and_keeps_flag() {
    let mut cpu = plain();
    set_v(&mut cpu, 3, 0xFF);
    set_v(&mut cpu, 15, 7);
    exec(&mut cpu, 0x7302);
    assert_eq!(cpu.v(3), 0x01);
    assert_eq!(cpu.v(15), 7);
}

#[test]
fn add_registers_sets_carry_from_true_sum() {
    let mut cpu = plain();
    for (a, b, sum, carry) in [(200, 100, 44, 1), (100, 100, 200, 0), (255, 1, 0, 1), (128, 127, 255, 0), (255, 255, 254, 1)] {
        set_v(&mut cpu, 1, a);
        set_v(&mut cpu, 2, b);
        exec(&mut cpu, 0x8124);
        assert_eq!(cpu.v(1), sum, "{} + {}", a, b);
        assert_eq!(cpu.v(15), carry, "{} + {}", a, b);
    }
}

#[test]
fn subtract_sets_no_borrow_flag() {
    let mut cpu = plain();
    for (a, b, diff, flag) in [(5, 3, 2, 1), (3, 5, 254, 0), (9, 9, 0, 1), (0, 255, 1, 0)] {
        set_v(&mut cpu, 1, a);
        set_v(&mut cpu, 2, b);
        exec(&mut cpu, 0x8125);
        assert_eq!(cpu.v(1), diff, "{} - {}", a, b);
        assert_eq!(cpu.v(15), flag, "{} - {}", a, b);
    }
}

#[test]
fn reversed_subtract_sets_no_borrow_flag() {
    let mut cpu = plain();
    set_v(&mut cpu, 1, 3);
    set_v(&mut cpu, 2, 5);
    exec(&mut cpu, 0x8127);
    assert_eq!(cpu.v(1), 2);
    assert_eq!(cpu.v(15), 1);

    set_v(&mut cpu, 1, 5);
    set_v(&mut cpu, 2, 3);
    exec(&mut cpu, 0x8127);
    assert_eq!(cpu.v(1), 254);
    assert_eq!(cpu.v(15), 0);
}

#[test]
fn flag_register_as_target_keeps_result() {
    let mut cpu = plain();
    set_v(&mut cpu, 15, 200);
    set_v(&mut cpu, 1, 100);
    exec(&mut cpu, 0x8F14);
    assert_eq!(cpu.v(15), 44);
}

#[test]
fn shift_right_without_quirk_ignores_vy() {
    let mut cpu = plain();
    set_v(&mut cpu, 1, 0xA5);
    set_v(&mut cpu, 2, 0x02);
    exec(&mut cpu, 0x8126);
    assert_eq!(cpu.v(1), 0x52);
    assert_eq!(cpu.v(15), 1);
    assert_eq!(cpu.v(2), 0x02);
}

#[test]
fn shift_right_with_quirk_copies_vy_first() {
    let mut cpu = with_options(true, false, false);
    set_v(&mut cpu, 1, 0x10);
    set_v(&mut cpu, 2, 0x03);
    exec(&mut cpu, 0x8126);
    assert_eq!(cpu.v(1), 0x01);
    assert_eq!(cpu.v(15), 1);
    assert_eq!(cpu.v(2), 0x03);
}

#[test]
fn shift_left_without_quirk_ignores_vy() {
    let mut cpu = plain();
    set_v(&mut cpu, 1, 0x81);
    set_v(&mut cpu, 2, 0x40);
    exec(&mut cpu, 0x812E);
    assert_eq!(cpu.v(1), 0x02);
    assert_eq!(cpu.v(15), 1);
}

#[test]
fn shift_left_with_quirk_copies_vy_first() {
    let mut cpu = with_options(true, false, false);
    set_v(&mut cpu, 1, 0x81);
    set_v(&mut cpu, 2, 0x40);
    exec(&mut cpu, 0x812E);
    assert_eq!(cpu.v(1), 0x80);
    assert_eq!(cpu.v(15), 0);
}

#[test]
fn bitwise_operations() {
    let mut cpu = plain();
    set_v(&mut cpu, 2, 0b1010);
    set_v(&mut cpu, 1, 0b1100);
    exec(&mut cpu, 0x8121);
    assert_eq!(cpu.v(1), 0b1110);
    set_v(&mut cpu, 1, 0b1100);
    exec(&mut cpu, 0x8122);
    assert_eq!(cpu.v(1), 0b1000);
    set_v(&mut cpu, 1, 0b1100);
    exec(&mut cpu, 0x8123);
    assert_eq!(cpu.v(1), 0b0110);
    exec(&mut cpu, 0x8120);
    assert_eq!(cpu.v(1), 0b1010);
}

#[test]
fn skips_advance_pc_by_two_only_when_condition_holds() {
    let mut cpu = plain();
    set_v(&mut cpu, 1, 0x42);
    set_v(&mut cpu, 2, 0x42);
    exec(&mut cpu, 0x3142);
    assert_eq!(cpu.pc(), 0x202);
    exec(&mut cpu, 0x3143);
    assert_eq!(cpu.pc(), 0x202);
    exec(&mut cpu, 0x4143);
    assert_eq!(cpu.pc(), 0x204);
    exec(&mut cpu, 0x4142);
    assert_eq!(cpu.pc(), 0x204);
    exec(&mut cpu, 0x5120);
    assert_eq!(cpu.pc(), 0x206);
    exec(&mut cpu, 0x9120);
    assert_eq!(cpu.pc(), 0x206);
    set_v(&mut cpu, 2, 0);
    exec(&mut cpu, 0x9120);
    assert_eq!(cpu.pc(), 0x208);
}

#[test]
fn key_skips_follow_the_held_keys() {
    let mut cpu = plain();
    set_v(&mut cpu, 1, 0xA);
    let mut keys = [false; 16];
    keys[0xA] = true;
    cpu.execute_instruction(0xE19E, &keys, 0).unwrap();
    assert_eq!(cpu.pc(), 0x202);
    cpu.execute_instruction(0xE1A1, &keys, 0).unwrap();
    assert_eq!(cpu.pc(), 0x202);
    cpu.execute_instruction(0xE1A1, &NO_KEYS, 0).unwrap();
    assert_eq!(cpu.pc(), 0x204);
    set_v(&mut cpu, 1, 0x20);
    cpu.execute_instruction(0xE19E, &[true; 16], 0).unwrap();
    assert_eq!(cpu.pc(), 0x204);
}

#[test]
fn jumps_and_index() {
    let mut cpu = plain();
    exec(&mut cpu, 0x1ABC);
    assert_eq!(cpu.pc(), 0xABC);
    exec(&mut cpu, 0xA123);
    assert_eq!(cpu.i(), 0x123);
}

#[test]
fn jump_with_offset_uses_v0_or_vx() {
    let mut cpu = with_options(false, true, false);
    set_v(&mut cpu, 0, 0x10);
    set_v(&mut cpu, 3, 0x20);
    exec(&mut cpu, 0xB300);
    assert_eq!(cpu.pc(), 0x310);

    let mut cpu = plain();
    set_v(&mut cpu, 0, 0x10);
    set_v(&mut cpu, 3, 0x20);
    exec(&mut cpu, 0xB300);
    assert_eq!(cpu.pc(), 0x320);

    let mut cpu = with_options(false, true, false);
    set_v(&mut cpu, 0, 0xFF);
    exec(&mut cpu, 0xBFFF);
    assert_eq!(cpu.pc(), 0x0FE);
}

#[test]
fn add_to_index_wraps_at_sixteen_bits() {
    let mut cpu = plain();
    exec(&mut cpu, 0xAFFF);
    set_v(&mut cpu, 1, 0xFF);
    for _ in 0..240 {
        exec(&mut cpu, 0xF11E);
    }
    assert_eq!(cpu.i(), 0xFFF + 240 * 0xFF);
    // 0xFF0F + 0xFF = 0x1000E, which wraps to 0x000E.
    exec(&mut cpu, 0xF11E);
    assert_eq!(cpu.i(), 0x000E);
}

#[test]
fn glyph_address_uses_low_nibble() {
    let mut cpu = plain();
    set_v(&mut cpu, 1, 0xA);
    exec(&mut cpu, 0xF129);
    assert_eq!(cpu.i(), 0x050 + 5 * 0xA);
    assert_eq!(cpu.memory()[cpu.i() as usize], 0xF0);
    set_v(&mut cpu, 1, 0x1B);
    exec(&mut cpu, 0xF129);
    assert_eq!(cpu.i(), 0x050 + 5 * 0xB);
}

#[test]
fn decimal_digits_stored_at_index() {
    let mut cpu = plain();
    set_v(&mut cpu, 4, 234);
    exec(&mut cpu, 0xA300);
    exec(&mut cpu, 0xF433);
    assert_eq!(&cpu.memory()[0x300..0x303], &[2, 3, 4]);
    set_v(&mut cpu, 4, 7);
    exec(&mut cpu, 0xAFFF);
    exec(&mut cpu, 0xF433);
    assert_eq!(cpu.memory()[0xFFF], 0);
    assert_eq!(cpu.memory()[0x000], 0);
    assert_eq!(cpu.memory()[0x001], 7);
}

#[test]
fn store_and_load_registers_without_increment() {
    let mut cpu = plain();
    for k in 0..16u16 {
        set_v(&mut cpu, k, k as u8 + 1);
    }
    exec(&mut cpu, 0xA300);
    exec(&mut cpu, 0xF255);
    assert_eq!(&cpu.memory()[0x300..0x304], &[1, 2, 3, 0]);
    assert_eq!(cpu.i(), 0x300);

    let mut cpu = with_data(&[9, 8]);
    set_v(&mut cpu, 2, 3);
    exec(&mut cpu, 0xF165);
    assert_eq!(cpu.v(0), 9);
    assert_eq!(cpu.v(1), 8);
    assert_eq!(cpu.v(2), 3);
    assert_eq!(cpu.i(), 0x200);
}

#[test]
fn store_and_load_registers_with_increment() {
    let mut cpu = with_options(false, false, true);
    set_v(&mut cpu, 0, 0x11);
    set_v(&mut cpu, 1, 0x22);
    exec(&mut cpu, 0xA300);
    exec(&mut cpu, 0xF155);
    assert_eq!(cpu.i(), 0x302);
    exec(&mut cpu, 0xA300);
    set_v(&mut cpu, 0, 0);
    set_v(&mut cpu, 1, 0);
    exec(&mut cpu, 0xF165);
    assert_eq!((cpu.v(0), cpu.v(1)), (0x11, 0x22));
    assert_eq!(cpu.i(), 0x302);
}

#[test]
fn store_wraps_at_end_of_memory() {
    let mut cpu = plain();
    set_v(&mut cpu, 0, 0xAA);
    set_v(&mut cpu, 1, 0xBB);
    exec(&mut cpu, 0xAFFF);
    exec(&mut cpu, 0xF155);
    assert_eq!(cpu.memory()[0xFFF], 0xAA);
    assert_eq!(cpu.memory()[0x000], 0xBB);
}

#[test]
fn draw_twice_restores_screen_and_reports_collision() {
    let mut cpu = with_data(&[0xF0, 0x99]);
    set_v(&mut cpu, 1, 10);
    set_v(&mut cpu, 2, 5);
    let before = *cpu.pixels();
    assert_eq!(exec(&mut cpu, 0xD122), Effect::SpriteDrawn);
    assert_eq!(cpu.v(15), 0);
    let p = cpu.pixels();
    assert!(p[5][10] && p[5][13] && !p[5][14]);
    assert!(p[6][10] && !p[6][11] && p[6][17]);
    exec(&mut cpu, 0xD122);
    assert_eq!(cpu.v(15), 1);
    assert_eq!(*cpu.pixels(), before);
}

#[test]
fn draw_clips_at_right_edge_without_wrapping() {
    let mut cpu = with_data(&[0xFF]);
    set_v(&mut cpu, 1, 60);
    set_v(&mut cpu, 2, 0);
    exec(&mut cpu, 0xD121);
    for c in 0..64 {
        assert_eq!(cpu.pixels()[0][c], c >= 60, "column {}", c);
    }
    assert!(cpu.pixels()[1].iter().all(|&p| !p));
    assert_eq!(cpu.v(15), 0);
}

#[test]
fn draw_clips_at_bottom_edge_without_wrapping() {
    let mut cpu = with_data(&[0x80, 0x80, 0x80, 0x80]);
    set_v(&mut cpu, 1, 0);
    set_v(&mut cpu, 2, 30);
    exec(&mut cpu, 0xD124);
    assert!(cpu.pixels()[30][0] && cpu.pixels()[31][0]);
    assert!(!cpu.pixels()[0][0] && !cpu.pixels()[1][0]);
}

#[test]
fn draw_coordinates_wrap_onto_screen() {
    let mut cpu = with_data(&[0x80]);
    set_v(&mut cpu, 1, 64 + 3);
    set_v(&mut cpu, 2, 32 + 2);
    exec(&mut cpu, 0xD121);
    assert!(cpu.pixels()[2][3]);
}

#[test]
fn draw_collision_only_when_lit_cell_turns_off() {
    // 0x200: one cell at the sprite's left edge; 0x201: the two leftmost.
    let mut cpu = with_data(&[0x80, 0xC0]);
    set_v(&mut cpu, 0, 1);
    exec(&mut cpu, 0xD031);
    assert_eq!(cpu.v(15), 0);
    assert!(cpu.pixels()[0][1]);
    set_v(&mut cpu, 0, 0);
    exec(&mut cpu, 0xD001);
    assert_eq!(cpu.v(15), 0);
    assert!(cpu.pixels()[0][0] && cpu.pixels()[0][1]);
    exec(&mut cpu, 0xD001);
    assert_eq!(cpu.v(15), 1);
    assert!(!cpu.pixels()[0][0] && cpu.pixels()[0][1]);
    exec(&mut cpu, 0xA201);
    exec(&mut cpu, 0xD001);
    assert_eq!(cpu.v(15), 1);
    assert!(cpu.pixels()[0][0] && !cpu.pixels()[0][1]);
}

#[test]
fn draw_of_zero_rows_changes_no_cell() {
    let mut cpu = with_data(&[0xFF]);
    set_v(&mut cpu, 15, 1);
    exec(&mut cpu, 0xD000);
    assert!(cpu.pixels().iter().all(|row| row.iter().all(|&p| !p)));
    assert_eq!(cpu.v(15), 0);
}

#[test]
fn clear_screen_turns_every_cell_off() {
    let mut cpu = with_data(&[0xFF, 0xFF, 0xFF]);
    exec(&mut cpu, 0xD003);
    assert!(cpu.pixels()[2][7]);
    assert_eq!(exec(&mut cpu, 0x00E0), Effect::ScreenCleared);
    assert!(cpu.pixels().iter().all(|row| row.iter().all(|&p| !p)));
}

#[test]
fn handlers_called_directly() {
    let mut cpu = plain();
    ops::set_vx_to_nn(&mut cpu, 2, 0x33);
    ops::add_nn_to_vx(&mut cpu, 2, 0x01);
    assert_eq!(cpu.v(2), 0x34);
    ops::set_vx_to_byte_and_nn(&mut cpu, 5, 0x3C, 0xFF);
    assert_eq!(cpu.v(5), 0x3C);
    ops::set_vx_to_random_number_and_nn(&mut cpu, 6, 0x00);
    assert_eq!(cpu.v(6), 0);
    ops::wait_for_keypress(&mut cpu, 7);
    assert_eq!(cpu.waiting_for_key(), Some(7));
    assert_eq!(ops::call_subroutine(&mut cpu, 0x400), Ok(()));
    assert_eq!(cpu.stack(), &vec![0x200]);
    assert_eq!(cpu.pc(), 0x400);
    assert_eq!(ops::return_from_subroutine(&mut cpu), Ok(()));
    assert_eq!(cpu.pc(), 0x200);
    assert_eq!(ops::return_from_subroutine(&mut cpu), Err(Fault::StackUnderflow));
    assert_eq!(ops::unknown_opcode(0x0FFF), Fault::UnknownOpcode(0x0FFF));
}
