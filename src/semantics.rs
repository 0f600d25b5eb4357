//! What each instruction does to a machine, stated over `Machine`. The
//! handlers in `ops` and the stepping in `cpu` are proved against these.
use vstd::prelude::*;
use crate::cpu::{Effect, Fault, Machine, MEMORY_SIZE, STACK_DEPTH};
use crate::decode::{instruction_of, Instruction};
use crate::font::glyph_address;
use crate::graphics::{blank_screen, HEIGHT, WIDTH};

verus! {

/// Address `a` taken modulo the memory size.
pub open spec fn wrap_address(a: int) -> int {
    a % (MEMORY_SIZE as int)
}

/// The address two bytes past `pc`, modulo the memory size.
pub open spec fn next_address(pc: u16) -> u16 {
    wrap_address(pc + 2) as u16
}

/// The big-endian instruction word at `pc`.
pub open spec fn word_at_pc(m: Machine) -> u16 {
    (m.memory[wrap_address(m.pc as int)] * 0x100 + m.memory[wrap_address(m.pc + 1)]) as u16
}

/// `m` with register `x` set to `value`.
pub open spec fn with_register(m: Machine, x: u8, value: u8) -> Machine {
    Machine { v: m.v.update(x as int, value), ..m }
}

/// `m` with `VF` set to `flag` and then register `x` set to `value`.
pub open spec fn with_flagged_register(m: Machine, x: u8, value: u8, flag: bool) -> Machine {
    Machine { v: m.v.update(15, if flag { 1u8 } else { 0u8 }).update(x as int, value), ..m }
}

/// `m` with the next instruction skipped when `cond` holds.
pub open spec fn skip_when(m: Machine, cond: bool) -> Machine {
    if cond {
        Machine { pc: next_address(m.pc), ..m }
    } else {
        m
    }
}

/// `00E0`.
pub open spec fn spec_clear_screen(m: Machine) -> Machine {
    Machine { pixels: blank_screen(), ..m }
}

/// `00EE`: pop the most recent return address into `pc`.
pub open spec fn spec_return_from_subroutine(m: Machine) -> (Machine, Result<(), Fault>) {
    if m.stack.len() == 0 {
        (m, Err(Fault::StackUnderflow))
    } else {
        (Machine { pc: m.stack.last(), stack: m.stack.drop_last(), ..m }, Ok(()))
    }
}

/// `1NNN`.
pub open spec fn spec_jump_to_address(m: Machine, nnn: u16) -> Machine {
    Machine { pc: wrap_address(nnn as int) as u16, ..m }
}

/// `2NNN`: push `pc`, then jump.
pub open spec fn spec_call_subroutine(m: Machine, nnn: u16) -> (Machine, Result<(), Fault>) {
    if m.stack.len() >= STACK_DEPTH {
        (m, Err(Fault::StackOverflow))
    } else {
        (Machine { stack: m.stack.push(m.pc), pc: wrap_address(nnn as int) as u16, ..m }, Ok(()))
    }
}

/// `3XNN`.
pub open spec fn spec_skip_next_if_vx_equals_nn(m: Machine, x: u8, nn: u8) -> Machine {
    skip_when(m, m.v[x as int] == nn)
}

/// `4XNN`.
pub open spec fn spec_skip_next_if_vx_not_equals_nn(m: Machine, x: u8, nn: u8) -> Machine {
    skip_when(m, m.v[x as int] != nn)
}

/// `5XY0`.
pub open spec fn spec_skip_next_if_vx_equals_vy(m: Machine, x: u8, y: u8) -> Machine {
    skip_when(m, m.v[x as int] == m.v[y as int])
}

/// `6XNN`.
pub open spec fn spec_set_vx_to_nn(m: Machine, x: u8, nn: u8) -> Machine {
    with_register(m, x, nn)
}

/// `7XNN`: the sum modulo 256; `VF` is not touched.
pub open spec fn spec_add_nn_to_vx(m: Machine, x: u8, nn: u8) -> Machine {
    with_register(m, x, ((m.v[x as int] + nn) % 256) as u8)
}

/// `8XY0`.
pub open spec fn spec_set_vx_to_vy(m: Machine, x: u8, y: u8) -> Machine {
    with_register(m, x, m.v[y as int])
}

/// `8XY1`.
pub open spec fn spec_set_vx_to_vx_or_vy(m: Machine, x: u8, y: u8) -> Machine {
    with_register(m, x, m.v[x as int] | m.v[y as int])
}

/// `8XY2`.
pub open spec fn spec_set_vx_to_vx_and_vy(m: Machine, x: u8, y: u8) -> Machine {
    with_register(m, x, m.v[x as int] & m.v[y as int])
}

/// `8XY3`.
pub open spec fn spec_set_vx_to_vx_xor_vy(m: Machine, x: u8, y: u8) -> Machine {
    with_register(m, x, m.v[x as int] ^ m.v[y as int])
}

/// `8XY4`: the sum modulo 256, with `VF` set when the true sum exceeds 255.
pub open spec fn spec_add_vy_to_vx(m: Machine, x: u8, y: u8) -> Machine {
    let sum = m.v[x as int] + m.v[y as int];
    with_flagged_register(m, x, (sum % 256) as u8, sum > 255)
}

/// `8XY5`: the difference modulo 256, with `VF` set when `VX >= VY`.
pub open spec fn spec_set_vx_to_vx_minus_vy(m: Machine, x: u8, y: u8) -> Machine {
    let (a, b) = (m.v[x as int], m.v[y as int]);
    with_flagged_register(m, x, ((a - b) % 256) as u8, a >= b)
}

/// `8XY7`: `VY - VX` modulo 256, with `VF` set when `VY >= VX`.
pub open spec fn spec_set_vx_to_vy_minus_vx(m: Machine, x: u8, y: u8) -> Machine {
    let (a, b) = (m.v[x as int], m.v[y as int]);
    with_flagged_register(m, x, ((b - a) % 256) as u8, b >= a)
}

/// The value a shift starts from: `VY` when the shift quirk is on (it is
/// first copied into `VX`), else `VX`.
pub open spec fn shift_source(m: Machine, x: u8, y: u8) -> u8 {
    if m.options.shift_uses_vy {
        m.v[y as int]
    } else {
        m.v[x as int]
    }
}

/// `8XY6`: `VF` gets the low bit of the source, `VX` the source halved.
pub open spec fn spec_shift_vx_right_by_one(m: Machine, x: u8, y: u8) -> Machine {
    let s = shift_source(m, x, y);
    with_flagged_register(m, x, s / 2, s % 2 == 1)
}

/// `8XYE`: `VF` gets the high bit of the source, `VX` the source doubled
/// modulo 256.
pub open spec fn spec_shift_vx_left_by_one(m: Machine, x: u8, y: u8) -> Machine {
    let s = shift_source(m, x, y);
    with_flagged_register(m, x, ((s * 2) % 256) as u8, s >= 128)
}

/// `9XY0`.
pub open spec fn spec_skip_next_if_vx_not_equals_vy(m: Machine, x: u8, y: u8) -> Machine {
    skip_when(m, m.v[x as int] != m.v[y as int])
}

/// `ANNN`.
pub open spec fn spec_set_i_to_nnn(m: Machine, nnn: u16) -> Machine {
    Machine { i: nnn, ..m }
}

/// `BNNN`: jump to `nnn` plus `V0` (jump quirk on) or `VX`, modulo the
/// memory size.
pub open spec fn spec_jump_to_address_plus_v0(m: Machine, x: u8, nnn: u16) -> Machine {
    let offset = if m.options.jump_uses_v0 {
        m.v[0]
    } else {
        m.v[x as int]
    };
    Machine { pc: wrap_address(nnn + offset) as u16, ..m }
}

/// `CXNN`, given the random byte drawn.
pub open spec fn spec_set_vx_to_random_number_and_nn(m: Machine, x: u8, nn: u8, random: u8) -> Machine {
    with_register(m, x, random & nn)
}

/// Bit `c` of `byte`, counting from the most significant (`c == 0`).
pub open spec fn sprite_bit(byte: u8, c: int) -> bool {
    (byte >> ((7 - c) as u8)) & 1u8 == 1u8
}

/// Whether the `DXYN` sprite has a set bit on cell `(r, c)`: the sprite's
/// rows start at `VY mod 32`, its columns at `VX mod 64`, row `k` is the
/// byte at `I + k`, and whatever falls beyond the last row or column is
/// clipped.
pub open spec fn sprite_covers(m: Machine, x: u8, y: u8, n: u8, r: int, c: int) -> bool {
    let row0 = (m.v[y as int] as int) % (HEIGHT as int);
    let col0 = (m.v[x as int] as int) % (WIDTH as int);
    &&& 0 <= r < HEIGHT
    &&& 0 <= c < WIDTH
    &&& row0 <= r < row0 + n
    &&& col0 <= c < col0 + 8
    &&& sprite_bit(m.memory[wrap_address(m.i + (r - row0))], c - col0)
}

/// Whether the `DXYN` sprite has a set bit on a lit cell.
pub open spec fn sprite_collides(m: Machine, x: u8, y: u8, n: u8) -> bool {
    exists|r: int, c: int| #[trigger] sprite_covers(m, x, y, n, r, c) && m.pixels[r][c]
}

/// `DXYN`: every covered cell is toggled, and `VF` records whether a lit
/// cell was turned off.
pub open spec fn spec_draw_sprite(m: Machine, x: u8, y: u8, n: u8) -> Machine {
    Machine {
        pixels: Seq::new(
            HEIGHT as nat,
            |r: int| Seq::new(WIDTH as nat, |c: int| m.pixels[r][c] != sprite_covers(m, x, y, n, r, c)),
        ),
        v: m.v.update(15, if sprite_collides(m, x, y, n) { 1u8 } else { 0u8 }),
        ..m
    }
}

/// Whether `keys` reports the key numbered `k` as held; there are keys
/// `0` to `15` only.
pub open spec fn key_held(keys: Seq<bool>, k: u8) -> bool {
    k < 16 && keys[k as int]
}

/// `EX9E`.
pub open spec fn spec_skip_next_if_key_is_pressed(m: Machine, x: u8, keys: Seq<bool>) -> Machine {
    skip_when(m, key_held(keys, m.v[x as int]))
}

/// `EXA1`.
pub open spec fn spec_skip_next_if_key_is_not_pressed(m: Machine, x: u8, keys: Seq<bool>) -> Machine {
    skip_when(m, !key_held(keys, m.v[x as int]))
}

/// `FX07`.
pub open spec fn spec_set_vx_to_delay_timer(m: Machine, x: u8) -> Machine {
    with_register(m, x, m.delay_timer)
}

/// `FX0A`: the machine stops stepping until a key press fills `VX`.
pub open spec fn spec_wait_for_keypress(m: Machine, x: u8) -> Machine {
    Machine { waiting_for_key: Some(x), ..m }
}

/// `FX15`.
pub open spec fn spec_set_delay_timer_to_vx(m: Machine, x: u8) -> Machine {
    Machine { delay_timer: m.v[x as int], ..m }
}

/// `FX18`.
pub open spec fn spec_set_sound_timer_to_vx(m: Machine, x: u8) -> Machine {
    Machine { sound_timer: m.v[x as int], ..m }
}

/// `FX1E`: the sum modulo 65536.
pub open spec fn spec_add_vx_to_i(m: Machine, x: u8) -> Machine {
    Machine { i: ((m.i + m.v[x as int]) % 0x10000) as u16, ..m }
}

/// `FX29`.
pub open spec fn spec_set_i_to_sprite_location(m: Machine, x: u8) -> Machine {
    Machine { i: glyph_address(m.v[x as int]), ..m }
}

/// `FX33`: hundreds, tens and ones of `VX` at `I`, `I + 1` and `I + 2`.
pub open spec fn spec_set_bcd_of_vx_at_i(m: Machine, x: u8) -> Machine {
    let value = m.v[x as int];
    Machine {
        memory: m.memory.update(wrap_address(m.i as int), value / 100).update(
            wrap_address(m.i + 1),
            (value / 10) % 10,
        ).update(wrap_address(m.i + 2), value % 10),
        ..m
    }
}

/// `I` after `FX55` or `FX65` moved `x + 1` bytes.
pub open spec fn index_after_transfer(m: Machine, x: u8) -> u16 {
    if m.options.increment_i_on_memory_ops {
        ((m.i + x + 1) % 0x10000) as u16
    } else {
        m.i
    }
}

/// `FX55`: `V0..=VX` into memory at `I..=I + X`.
pub open spec fn spec_store_registers_in_memory(m: Machine, x: u8) -> Machine {
    Machine {
        memory: Seq::new(
            m.memory.len(),
            |a: int|
                {
                    let k = wrap_address(a - m.i);
                    if k <= x {
                        m.v[k]
                    } else {
                        m.memory[a]
                    }
                },
        ),
        i: index_after_transfer(m, x),
        ..m
    }
}

/// `FX65`: memory at `I..=I + X` into `V0..=VX`.
pub open spec fn spec_load_registers_from_memory(m: Machine, x: u8) -> Machine {
    Machine {
        v: Seq::new(
            m.v.len(),
            |k: int|
                if k <= x {
                    m.memory[wrap_address(m.i + k)]
                } else {
                    m.v[k]
                },
        ),
        i: index_after_transfer(m, x),
        ..m
    }
}

/// `m` after an instruction that cannot fail, with `effect`.
pub open spec fn done(m: Machine, effect: Effect) -> (Machine, Result<Effect, Fault>) {
    (m, Ok(effect))
}

/// The outcome of a handler that may fail, as a step result.
pub open spec fn done_or_fault(r: (Machine, Result<(), Fault>)) -> (Machine, Result<Effect, Fault>) {
    match r.1 {
        Ok(_) => (r.0, Ok(Effect::Continue)),
        Err(f) => (r.0, Err(f)),
    }
}

/// Executes `ins` on `m`, with `keys` the held keys and `random` the byte
/// that `CXNN` draws. A fault leaves `m` as it was.
pub open spec fn spec_execute(m: Machine, ins: Instruction, keys: Seq<bool>, random: u8) -> (
    Machine,
    Result<Effect, Fault>,
) {
    let go = Effect::Continue;
    match ins {
        Instruction::ClearScreen => done(spec_clear_screen(m), Effect::ScreenCleared),
        Instruction::Return => done_or_fault(spec_return_from_subroutine(m)),
        Instruction::Jump { nnn } => done(spec_jump_to_address(m, nnn), go),
        Instruction::Call { nnn } => done_or_fault(spec_call_subroutine(m, nnn)),
        Instruction::SkipIfEqualByte { x, nn } => done(spec_skip_next_if_vx_equals_nn(m, x, nn), go),
        Instruction::SkipIfNotEqualByte { x, nn } => done(
            spec_skip_next_if_vx_not_equals_nn(m, x, nn),
            go,
        ),
        Instruction::SkipIfEqual { x, y } => done(spec_skip_next_if_vx_equals_vy(m, x, y), go),
        Instruction::SetByte { x, nn } => done(spec_set_vx_to_nn(m, x, nn), go),
        Instruction::AddByte { x, nn } => done(spec_add_nn_to_vx(m, x, nn), go),
        Instruction::Copy { x, y } => done(spec_set_vx_to_vy(m, x, y), go),
        Instruction::Or { x, y } => done(spec_set_vx_to_vx_or_vy(m, x, y), go),
        Instruction::And { x, y } => done(spec_set_vx_to_vx_and_vy(m, x, y), go),
        Instruction::Xor { x, y } => done(spec_set_vx_to_vx_xor_vy(m, x, y), go),
        Instruction::Add { x, y } => done(spec_add_vy_to_vx(m, x, y), go),
        Instruction::Sub { x, y } => done(spec_set_vx_to_vx_minus_vy(m, x, y), go),
        Instruction::ShiftRight { x, y } => done(spec_shift_vx_right_by_one(m, x, y), go),
        Instruction::SubReversed { x, y } => done(spec_set_vx_to_vy_minus_vx(m, x, y), go),
        Instruction::ShiftLeft { x, y } => done(spec_shift_vx_left_by_one(m, x, y), go),
        Instruction::SkipIfNotEqual { x, y } => done(spec_skip_next_if_vx_not_equals_vy(m, x, y), go),
        Instruction::SetIndex { nnn } => done(spec_set_i_to_nnn(m, nnn), go),
        Instruction::JumpWithOffset { x, nnn } => done(spec_jump_to_address_plus_v0(m, x, nnn), go),
        Instruction::Random { x, nn } => done(
            spec_set_vx_to_random_number_and_nn(m, x, nn, random),
            go,
        ),
        Instruction::Draw { x, y, n } => done(spec_draw_sprite(m, x, y, n), Effect::SpriteDrawn),
        Instruction::SkipIfKey { x } => done(spec_skip_next_if_key_is_pressed(m, x, keys), go),
        Instruction::SkipIfNotKey { x } => done(spec_skip_next_if_key_is_not_pressed(m, x, keys), go),
        Instruction::ReadDelay { x } => done(spec_set_vx_to_delay_timer(m, x), go),
        Instruction::WaitKey { x } => done(spec_wait_for_keypress(m, x), Effect::AwaitingKey),
        Instruction::SetDelay { x } => done(spec_set_delay_timer_to_vx(m, x), go),
        Instruction::SetSound { x } => done(spec_set_sound_timer_to_vx(m, x), go),
        Instruction::AddIndex { x } => done(spec_add_vx_to_i(m, x), go),
        Instruction::Glyph { x } => done(spec_set_i_to_sprite_location(m, x), go),
        Instruction::Decimal { x } => done(spec_set_bcd_of_vx_at_i(m, x), go),
        Instruction::Store { x } => done(spec_store_registers_in_memory(m, x), go),
        Instruction::Load { x } => done(spec_load_registers_from_memory(m, x), go),
        Instruction::Unknown { opcode } => (m, Err(Fault::UnknownOpcode(opcode))),
    }
}

/// One cycle: a machine waiting for a key stays as it is; any other fetches
/// the word at `pc`, moves `pc` past it, and executes it.
pub open spec fn spec_step(m: Machine, keys: Seq<bool>, random: u8) -> (Machine, Result<Effect, Fault>) {
    if m.waiting_for_key is Some {
        (m, Ok(Effect::AwaitingKey))
    } else {
        spec_execute(Machine { pc: next_address(m.pc), ..m }, instruction_of(word_at_pc(m)), keys, random)
    }
}

} // verus!
