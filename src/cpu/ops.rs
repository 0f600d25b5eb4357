//! The instruction handlers. Each changes the machine exactly as its
//! counterpart in `semantics` says. They live under `cpu` because they
//! write the machine's private fields.
use vstd::prelude::*;
use crate::cpu::{lemma_view_wf, Fault, Machine, CPU, MEMORY_SIZE, STACK_DEPTH};
use crate::font::{FONT_START, GLYPH_SIZE};
use crate::graphics::{blank_screen, HEIGHT, WIDTH};
use crate::semantics::{
    index_after_transfer,
    next_address,
    spec_add_nn_to_vx,
    spec_add_vx_to_i,
    spec_add_vy_to_vx,
    spec_call_subroutine,
    spec_clear_screen,
    spec_draw_sprite,
    spec_jump_to_address,
    spec_jump_to_address_plus_v0,
    spec_load_registers_from_memory,
    spec_return_from_subroutine,
    spec_set_bcd_of_vx_at_i,
    spec_set_delay_timer_to_vx,
    spec_set_i_to_nnn,
    spec_set_i_to_sprite_location,
    spec_set_sound_timer_to_vx,
    spec_set_vx_to_delay_timer,
    spec_set_vx_to_nn,
    spec_set_vx_to_random_number_and_nn,
    spec_set_vx_to_vx_and_vy,
    spec_set_vx_to_vx_minus_vy,
    spec_set_vx_to_vx_or_vy,
    spec_set_vx_to_vx_xor_vy,
    spec_set_vx_to_vy,
    spec_set_vx_to_vy_minus_vx,
    spec_shift_vx_left_by_one,
    spec_shift_vx_right_by_one,
    spec_skip_next_if_key_is_not_pressed,
    spec_skip_next_if_key_is_pressed,
    spec_skip_next_if_vx_equals_nn,
    spec_skip_next_if_vx_equals_vy,
    spec_skip_next_if_vx_not_equals_nn,
    spec_skip_next_if_vx_not_equals_vy,
    spec_store_registers_in_memory,
    spec_wait_for_keypress,
    sprite_collides,
    sprite_covers,
    wrap_address,
};

verus! {

/// Relies on `rand::random`, which draws a value from the thread-local
/// generator (`CXNN` and `CPU::step` draw a `u8`). Nothing is promised of
/// the value, so there is no postcondition.
pub assume_specification<T>[ rand::random::<T> ]() -> (r: T)
    where
        rand::distributions::Standard: rand::distributions::Distribution<T>,
;

/// `pc` moved past one instruction, modulo the memory size.
pub(crate) fn next_pc(pc: u16) -> (r: u16)
    ensures
        r == next_address(pc),
{
    ((pc as u32 + 2) % (MEMORY_SIZE as u32)) as u16
}

/// The fault for a word that matches no instruction.
pub fn unknown_opcode(opcode: u16) -> (f: Fault)
    ensures
        f == Fault::UnknownOpcode(opcode),
{
    Fault::UnknownOpcode(opcode)
}

/// 00E0 - CLS: every cell of the framebuffer is turned off.
pub fn clear_screen(cpu: &mut CPU)
    ensures
        final(cpu)@ == spec_clear_screen(old(cpu)@),
{
    cpu.pixels = [[false; 64]; 32];
    assert(cpu@.pixels =~~= blank_screen());
}

/// 00EE - RET: pops the most recent return address into `pc`.
pub fn return_from_subroutine(cpu: &mut CPU) -> (r: Result<(), Fault>)
    ensures
        (final(cpu)@, r) == spec_return_from_subroutine(old(cpu)@),
{
    match cpu.stack.pop() {
        Some(address) => {
            cpu.pc = address;
            Ok(())
        },
        None => Err(Fault::StackUnderflow),
    }
}

/// 1NNN - JP: `pc := nnn`.
pub fn jump_to_address(cpu: &mut CPU, address: u16)
    ensures
        final(cpu)@ == spec_jump_to_address(old(cpu)@, address),
{
    cpu.pc = address % (MEMORY_SIZE as u16);
}

/// 2NNN - CALL: pushes `pc`, then `pc := nnn`; fails on a full stack.
pub fn call_subroutine(cpu: &mut CPU, address: u16) -> (r: Result<(), Fault>)
    ensures
        (final(cpu)@, r) == spec_call_subroutine(old(cpu)@, address),
{
    if cpu.stack.len() >= STACK_DEPTH {
        return Err(Fault::StackOverflow);
    }
    cpu.stack.push(cpu.pc);
    cpu.pc = address % (MEMORY_SIZE as u16);
    Ok(())
}

/// 3XNN - SE: skips the next instruction if `VX == nn`.
pub fn skip_next_if_vx_equals_nn(cpu: &mut CPU, x: u8, nn: u8)
    requires
        x < 16,
    ensures
        final(cpu)@ == spec_skip_next_if_vx_equals_nn(old(cpu)@, x, nn),
{
    if cpu.v[x as usize] == nn {
        cpu.pc = next_pc(cpu.pc);
    }
}

/// 4XNN - SNE: skips the next instruction if `VX != nn`.
pub fn skip_next_if_vx_not_equals_nn(cpu: &mut CPU, x: u8, nn: u8)
    requires
        x < 16,
    ensures
        final(cpu)@ == spec_skip_next_if_vx_not_equals_nn(old(cpu)@, x, nn),
{
    if cpu.v[x as usize] != nn {
        cpu.pc = next_pc(cpu.pc);
    }
}

/// 5XY0 - SE: skips the next instruction if `VX == VY`.
pub fn skip_next_if_vx_equals_vy(cpu: &mut CPU, x: u8, y: u8)
    requires
        x < 16,
        y < 16,
    ensures
        final(cpu)@ == spec_skip_next_if_vx_equals_vy(old(cpu)@, x, y),
{
    if cpu.v[x as usize] == cpu.v[y as usize] {
        cpu.pc = next_pc(cpu.pc);
    }
}

/// 6XNN - LD: `VX := nn`.
pub fn set_vx_to_nn(cpu: &mut CPU, x: u8, nn: u8)
    requires
        x < 16,
    ensures
        final(cpu)@ == spec_set_vx_to_nn(old(cpu)@, x, nn),
{
    cpu.v[x as usize] = nn;
}

/// 7XNN - ADD: `VX := VX + nn` modulo 256; `VF` is not touched.
pub fn add_nn_to_vx(cpu: &mut CPU, x: u8, nn: u8)
    requires
        x < 16,
    ensures
        final(cpu)@ == spec_add_nn_to_vx(old(cpu)@, x, nn),
        final(cpu)@.v[x as int] == (old(cpu)@.v[x as int] + nn) % 256,
{
    cpu.v[x as usize] = cpu.v[x as usize].wrapping_add(nn);
}

/// 8XY0 - LD: `VX := VY`.
pub fn set_vx_to_vy(cpu: &mut CPU, x: u8, y: u8)
    requires
        x < 16,
        y < 16,
    ensures
        final(cpu)@ == spec_set_vx_to_vy(old(cpu)@, x, y),
{
    cpu.v[x as usize] = cpu.v[y as usize];
}

/// 8XY1 - OR: `VX := VX | VY`.
pub fn set_vx_to_vx_or_vy(cpu: &mut CPU, x: u8, y: u8)
    requires
        x < 16,
        y < 16,
    ensures
        final(cpu)@ == spec_set_vx_to_vx_or_vy(old(cpu)@, x, y),
{
    cpu.v[x as usize] = cpu.v[x as usize] | cpu.v[y as usize];
}

/// 8XY2 - AND: `VX := VX & VY`.
pub fn set_vx_to_vx_and_vy(cpu: &mut CPU, x: u8, y: u8)
    requires
        x < 16,
        y < 16,
    ensures
        final(cpu)@ == spec_set_vx_to_vx_and_vy(old(cpu)@, x, y),
{
    cpu.v[x as usize] = cpu.v[x as usize] & cpu.v[y as usize];
}

/// 8XY3 - XOR: `VX := VX ^ VY`.
pub fn set_vx_to_vx_xor_vy(cpu: &mut CPU, x: u8, y: u8)
    requires
        x < 16,
        y < 16,
    ensures
        final(cpu)@ == spec_set_vx_to_vx_xor_vy(old(cpu)@, x, y),
{
    cpu.v[x as usize] = cpu.v[x as usize] ^ cpu.v[y as usize];
}

/// 8XY4 - ADD: `VX := VX + VY` modulo 256; `VF := 1` when the true sum
/// exceeds 255, else `0`.
pub fn add_vy_to_vx(cpu: &mut CPU, x: u8, y: u8)
    requires
        x < 16,
        y < 16,
    ensures
        final(cpu)@ == spec_add_vy_to_vx(old(cpu)@, x, y),
{
    let sum: u16 = cpu.v[x as usize] as u16 + cpu.v[y as usize] as u16;
    cpu.v[15] = if sum > 255 { 1 } else { 0 };
    cpu.v[x as usize] = (sum % 256) as u8;
}

/// 8XY5 - SUB: `VX := VX - VY` modulo 256; `VF := 1` when `VX >= VY`
/// (no borrow), else `0`.
pub fn set_vx_to_vx_minus_vy(cpu: &mut CPU, x: u8, y: u8)
    requires
        x < 16,
        y < 16,
    ensures
        final(cpu)@ == spec_set_vx_to_vx_minus_vy(old(cpu)@, x, y),
{
    let (a, b) = (cpu.v[x as usize], cpu.v[y as usize]);
    cpu.v[15] = if a >= b { 1 } else { 0 };
    cpu.v[x as usize] = a.wrapping_sub(b);
}

/// 8XY6 - SHR: with the shift quirk on, `VX := VY` first; then `VF` gets
/// the low bit of `VX` and `VX` is shifted right by one.
pub fn shift_vx_right_by_one(cpu: &mut CPU, x: u8, y: u8)
    requires
        x < 16,
        y < 16,
    ensures
        final(cpu)@ == spec_shift_vx_right_by_one(old(cpu)@, x, y),
{
    if cpu.options.shift_uses_vy {
        cpu.v[x as usize] = cpu.v[y as usize];
    }
    let s = cpu.v[x as usize];
    cpu.v[15] = s & 1;
    cpu.v[x as usize] = s >> 1;
    proof {
        assert(s & 1 == if s % 2 == 1 { 1u8 } else { 0u8 }) by (bit_vector);
        assert(s >> 1 == s / 2) by (bit_vector);
        assert(cpu@.v =~= spec_shift_vx_right_by_one(old(cpu)@, x, y).v);
    }
}

/// 8XY7 - SUBN: `VX := VY - VX` modulo 256; `VF := 1` when `VY >= VX`
/// (no borrow), else `0`.
pub fn set_vx_to_vy_minus_vx(cpu: &mut CPU, x: u8, y: u8)
    requires
        x < 16,
        y < 16,
    ensures
        final(cpu)@ == spec_set_vx_to_vy_minus_vx(old(cpu)@, x, y),
{
    let (a, b) = (cpu.v[x as usize], cpu.v[y as usize]);
    cpu.v[15] = if b >= a { 1 } else { 0 };
    cpu.v[x as usize] = b.wrapping_sub(a);
}

/// 8XYE - SHL: with the shift quirk on, `VX := VY` first; then `VF` gets
/// the high bit of `VX` and `VX` is shifted left by one.
pub fn shift_vx_left_by_one(cpu: &mut CPU, x: u8, y: u8)
    requires
        x < 16,
        y < 16,
    ensures
        final(cpu)@ == spec_shift_vx_left_by_one(old(cpu)@, x, y),
{
    if cpu.options.shift_uses_vy {
        cpu.v[x as usize] = cpu.v[y as usize];
    }
    let s = cpu.v[x as usize];
    cpu.v[15] = s >> 7;
    cpu.v[x as usize] = s << 1;
    proof {
        assert(s >> 7 == if s >= 128 { 1u8 } else { 0u8 }) by (bit_vector);
        assert(s << 1 == ((s * 2) % 256) as u8) by (bit_vector);
        assert(cpu@.v =~= spec_shift_vx_left_by_one(old(cpu)@, x, y).v);
    }
}

/// 9XY0 - SNE: skips the next instruction if `VX != VY`.
pub fn skip_next_if_vx_not_equals_vy(cpu: &mut CPU, x: u8, y: u8)
    requires
        x < 16,
        y < 16,
    ensures
        final(cpu)@ == spec_skip_next_if_vx_not_equals_vy(old(cpu)@, x, y),
{
    if cpu.v[x as usize] != cpu.v[y as usize] {
        cpu.pc = next_pc(cpu.pc);
    }
}

/// ANNN - LD I: `I := nnn`.
pub fn set_i_to_nnn(cpu: &mut CPU, nnn: u16)
    ensures
        final(cpu)@ == spec_set_i_to_nnn(old(cpu)@, nnn),
{
    cpu.i = nnn;
}

/// BNNN - JP V0: `pc := nnn + V0` with the jump quirk on, else
/// `pc := nnn + VX`, modulo the memory size.
pub fn jump_to_address_plus_v0(cpu: &mut CPU, x: u8, address: u16)
    requires
        x < 16,
    ensures
        final(cpu)@ == spec_jump_to_address_plus_v0(old(cpu)@, x, address),
{
    let offset = if cpu.options.jump_uses_v0 {
        cpu.v[0]
    } else {
        cpu.v[x as usize]
    };
    cpu.pc = ((address as u32 + offset as u32) % (MEMORY_SIZE as u32)) as u16;
}

/// CXNN - RND, given the random byte: `VX := random & nn`.
pub fn set_vx_to_byte_and_nn(cpu: &mut CPU, x: u8, nn: u8, random: u8)
    requires
        x < 16,
    ensures
        final(cpu)@ == spec_set_vx_to_random_number_and_nn(old(cpu)@, x, nn, random),
{
    cpu.v[x as usize] = random & nn;
}

/// CXNN - RND: `VX := r & nn` for a byte `r` drawn at random.
pub fn set_vx_to_random_number_and_nn(cpu: &mut CPU, x: u8, nn: u8)
    requires
        x < 16,
    ensures
        exists|r: u8| final(cpu)@ == spec_set_vx_to_random_number_and_nn(old(cpu)@, x, nn, r),
{
    let r: u8 = rand::random::<u8>();
    set_vx_to_byte_and_nn(cpu, x, nn, r);
}

/// Cells of the `DXYN` sprite handled once `rows` whole rows, and then
/// `cols` columns of the next row, have been drawn.
spec fn drawn_before(m: Machine, y: u8, rows: int, cols: int, r: int, c: int) -> bool {
    let row0 = (m.v[y as int] as int) % (HEIGHT as int);
    r < row0 + rows || (r == row0 + rows && c < cols)
}

/// DXYN - DRW: XORs the `n`-row sprite at `I` onto the framebuffer with its
/// top-left corner at `(VX mod 64, VY mod 32)`. Cells past the last column
/// or row are clipped. `VF := 1` if a lit cell was turned off, else `0`.
pub fn draw_sprite(cpu: &mut CPU, x: u8, y: u8, n: u8)
    requires
        x < 16,
        y < 16,
    ensures
        final(cpu)@ == spec_draw_sprite(old(cpu)@, x, y, n),
{
    let ghost m = cpu@;
    proof {
        lemma_view_wf(cpu);
    }
    let col0: usize = cpu.v[x as usize] as usize % WIDTH;
    let row0: usize = cpu.v[y as usize] as usize % HEIGHT;
    let base = cpu.i as usize;
    let mut collision = false;
    let mut r: usize = 0;
    while r < n as usize && row0 + r < HEIGHT
        invariant
            x < 16,
            y < 16,
            m.wf(),
            col0 == (m.v[x as int] as int) % (WIDTH as int),
            row0 == (m.v[y as int] as int) % (HEIGHT as int),
            base == m.i,
            r <= n,
            cpu@ == (Machine { pixels: cpu@.pixels, ..m }),
            forall|rr: int, cc: int|
                0 <= rr < HEIGHT && 0 <= cc < WIDTH ==> #[trigger] cpu.pixels@[rr]@[cc] == (m.pixels[rr][cc]
                    != (sprite_covers(m, x, y, n, rr, cc) && drawn_before(m, y, r as int, 0, rr, cc))),
            collision == exists|rr: int, cc: int|
                #[trigger] sprite_covers(m, x, y, n, rr, cc) && drawn_before(m, y, r as int, 0, rr, cc)
                    && m.pixels[rr][cc],
        decreases n - r,
    {
        let row = row0 + r;
        let byte = cpu.memory[(base + r) % MEMORY_SIZE];
        let mut c: usize = 0;
        while c < 8 && col0 + c < WIDTH
            invariant
                x < 16,
                y < 16,
                m.wf(),
                col0 == (m.v[x as int] as int) % (WIDTH as int),
                row0 == (m.v[y as int] as int) % (HEIGHT as int),
                base == m.i,
                r < n,
                row == row0 + r,
                row < HEIGHT,
                byte == m.memory[wrap_address(m.i + r)],
                c <= 8,
                cpu@ == (Machine { pixels: cpu@.pixels, ..m }),
                forall|rr: int, cc: int|
                    0 <= rr < HEIGHT && 0 <= cc < WIDTH ==> #[trigger] cpu.pixels@[rr]@[cc] == (
                    m.pixels[rr][cc] != (sprite_covers(m, x, y, n, rr, cc) && drawn_before(
                        m,
                        y,
                        r as int,
                        col0 + c,
                        rr,
                        cc,
                    ))),
                collision == exists|rr: int, cc: int|
                    #[trigger] sprite_covers(m, x, y, n, rr, cc) && drawn_before(
                        m,
                        y,
                        r as int,
                        col0 + c,
                        rr,
                        cc,
                    ) && m.pixels[rr][cc],
            decreases 8 - c,
        {
            let col = col0 + c;
            let ghost before = collision;
            assert(sprite_covers(m, x, y, n, row as int, col as int) == ((byte >> (7 - c as u8)) & 1 == 1));
            if (byte >> (7 - c as u8)) & 1 == 1 {
                let lit = cpu.pixels[row][col];
                if lit {
                    collision = true;
                }
                cpu.pixels[row][col] = !lit;
            }
            proof {
                assert(collision == exists|rr: int, cc: int|
                    #[trigger] sprite_covers(m, x, y, n, rr, cc) && drawn_before(
                        m,
                        y,
                        r as int,
                        col0 + c + 1,
                        rr,
                        cc,
                    ) && m.pixels[rr][cc]) by {
                    if collision && !before {
                        assert(sprite_covers(m, x, y, n, row as int, col as int) && drawn_before(
                            m,
                            y,
                            r as int,
                            col0 + c + 1,
                            row as int,
                            col as int,
                        ) && m.pixels[row as int][col as int]);
                    }
                }
            }
            c += 1;
        }
        proof {
            assert forall|rr: int, cc: int|
                0 <= rr < HEIGHT && 0 <= cc < WIDTH implies #[trigger] cpu.pixels@[rr]@[cc] == (
                m.pixels[rr][cc] != (sprite_covers(m, x, y, n, rr, cc) && drawn_before(
                    m,
                    y,
                    r + 1,
                    0,
                    rr,
                    cc,
                ))) by {
                if sprite_covers(m, x, y, n, rr, cc) {
                    assert(drawn_before(m, y, r + 1, 0, rr, cc) == drawn_before(
                        m,
                        y,
                        r as int,
                        col0 + c,
                        rr,
                        cc,
                    ));
                }
            }
            assert(collision == exists|rr: int, cc: int|
                #[trigger] sprite_covers(m, x, y, n, rr, cc) && drawn_before(m, y, r + 1, 0, rr, cc)
                    && m.pixels[rr][cc]) by {
                assert forall|rr: int, cc: int| #[trigger]
                    sprite_covers(m, x, y, n, rr, cc) implies drawn_before(m, y, r + 1, 0, rr, cc)
                    == drawn_before(m, y, r as int, col0 + c, rr, cc) by {}
            }
        }
        r += 1;
    }
    cpu.v[15] = if collision { 1 } else { 0 };
    proof {
        let target = spec_draw_sprite(m, x, y, n);
        assert forall|rr: int, cc: int| #[trigger]
            sprite_covers(m, x, y, n, rr, cc) implies drawn_before(m, y, r as int, 0, rr, cc) by {}
        assert(collision == sprite_collides(m, x, y, n));
        assert(cpu@.pixels =~~= target.pixels);
        assert(cpu@.v =~= target.v);
    }
}

/// EX9E - SKP: skips the next instruction if `keys` holds the key `VX`.
pub fn skip_next_if_key_is_pressed(cpu: &mut CPU, x: u8, keys: &[bool; 16])
    requires
        x < 16,
    ensures
        final(cpu)@ == spec_skip_next_if_key_is_pressed(old(cpu)@, x, keys@),
{
    let k = cpu.v[x as usize];
    if k < 16 && keys[k as usize] {
        cpu.pc = next_pc(cpu.pc);
    }
}

/// EXA1 - SKNP: skips the next instruction unless `keys` holds the key
/// `VX`.
pub fn skip_next_if_key_is_not_pressed(cpu: &mut CPU, x: u8, keys: &[bool; 16])
    requires
        x < 16,
    ensures
        final(cpu)@ == spec_skip_next_if_key_is_not_pressed(old(cpu)@, x, keys@),
{
    let k = cpu.v[x as usize];
    if !(k < 16 && keys[k as usize]) {
        cpu.pc = next_pc(cpu.pc);
    }
}

/// FX07 - LD VX, DT: `VX := delay timer`.
pub fn set_vx_to_delay_timer(cpu: &mut CPU, x: u8)
    requires
        x < 16,
    ensures
        final(cpu)@ == spec_set_vx_to_delay_timer(old(cpu)@, x),
{
    cpu.v[x as usize] = cpu.delay_timer;
}

/// FX0A - LD VX, K: the machine stops stepping until a key press is
/// reported through `CPU::press_key`, which stores it in `VX`.
pub fn wait_for_keypress(cpu: &mut CPU, x: u8)
    requires
        x < 16,
    ensures
        final(cpu)@ == spec_wait_for_keypress(old(cpu)@, x),
{
    cpu.waiting_for_key = Some(x);
}

/// FX15 - LD DT, VX: `delay timer := VX`.
pub fn set_delay_timer_to_vx(cpu: &mut CPU, x: u8)
    requires
        x < 16,
    ensures
        final(cpu)@ == spec_set_delay_timer_to_vx(old(cpu)@, x),
{
    cpu.delay_timer = cpu.v[x as usize];
}

/// FX18 - LD ST, VX: `sound timer := VX`.
pub fn set_sound_timer_to_vx(cpu: &mut CPU, x: u8)
    requires
        x < 16,
    ensures
        final(cpu)@ == spec_set_sound_timer_to_vx(old(cpu)@, x),
{
    cpu.sound_timer = cpu.v[x as usize];
}

/// FX1E - ADD I, VX: `I := I + VX` modulo 65536.
pub fn add_vx_to_i(cpu: &mut CPU, x: u8)
    requires
        x < 16,
    ensures
        final(cpu)@ == spec_add_vx_to_i(old(cpu)@, x),
{
    cpu.i = cpu.i.wrapping_add(cpu.v[x as usize] as u16);
}

/// FX29 - LD F, VX: `I :=` the address of the glyph for the low nibble of
/// `VX`.
pub fn set_i_to_sprite_location(cpu: &mut CPU, x: u8)
    requires
        x < 16,
    ensures
        final(cpu)@ == spec_set_i_to_sprite_location(old(cpu)@, x),
{
    cpu.i = FONT_START + GLYPH_SIZE * (cpu.v[x as usize] % 16) as u16;
}

/// FX33 - LD B, VX: the hundreds, tens and ones digits of `VX` go to `I`,
/// `I + 1` and `I + 2`.
pub fn set_bcd_of_vx_at_i(cpu: &mut CPU, x: u8)
    requires
        x < 16,
    ensures
        final(cpu)@ == spec_set_bcd_of_vx_at_i(old(cpu)@, x),
{
    let value = cpu.v[x as usize];
    let i = cpu.i as usize;
    cpu.memory[i % MEMORY_SIZE] = value / 100;
    cpu.memory[(i + 1) % MEMORY_SIZE] = (value / 10) % 10;
    cpu.memory[(i + 2) % MEMORY_SIZE] = value % 10;
}

/// Offsets from `i` to the addresses that `FX55` writes: the address of
/// offset `k` is the one whose distance from `i`, modulo the memory size,
/// is `k`.
proof fn lemma_offset_address(i: int, k: int, a: int)
    requires
        0 <= i,
        0 <= k < MEMORY_SIZE,
        0 <= a < MEMORY_SIZE,
    ensures
        (a == wrap_address(i + k)) <==> (wrap_address(a - i) == k),
{
    assert((a == (i + k) % 0x1000) <==> ((a - i) % 0x1000 == k)) by (nonlinear_arith)
        requires
            0 <= i,
            0 <= k < 0x1000,
            0 <= a < 0x1000,
    ;
}

/// `I` after moving `x + 1` bytes: advanced past them with the quirk on.
fn advance_index(cpu: &mut CPU, x: u8)
    ensures
        final(cpu)@ == (Machine { i: index_after_transfer(old(cpu)@, x), ..old(cpu)@ }),
{
    if cpu.options.increment_i_on_memory_ops {
        cpu.i = cpu.i.wrapping_add(x as u16 + 1);
    }
}

/// FX55 - LD [I], VX: `V0..=VX` go to memory at `I..=I + X`; with the
/// memory quirk on, `I` then moves past them.
pub fn store_registers_in_memory(cpu: &mut CPU, x: u8)
    requires
        x < 16,
    ensures
        final(cpu)@ == spec_store_registers_in_memory(old(cpu)@, x),
{
    let ghost m = cpu@;
    proof {
        lemma_view_wf(cpu);
    }
    let base = cpu.i as usize;
    let mut k: usize = 0;
    while k <= x as usize
        invariant
            x < 16,
            k <= x + 1,
            base == m.i,
            m.wf(),
            cpu@ == (Machine { memory: cpu@.memory, ..m }),
            cpu@.memory.len() == MEMORY_SIZE,
            forall|a: int|
                0 <= a < MEMORY_SIZE ==> #[trigger] cpu@.memory[a] == if wrap_address(a - m.i)
                    < k {
                    m.v[wrap_address(a - m.i)]
                } else {
                    m.memory[a]
                },
        decreases x + 1 - k,
    {
        let address = (base + k) % MEMORY_SIZE;
        cpu.memory[address] = cpu.v[k];
        proof {
            assert forall|a: int| 0 <= a < MEMORY_SIZE implies #[trigger] cpu@.memory[a] == if wrap_address(
                a - m.i,
            ) < k + 1 {
                m.v[wrap_address(a - m.i)]
            } else {
                m.memory[a]
            } by {
                lemma_offset_address(m.i as int, k as int, a);
            }
        }
        k += 1;
    }
    assert(cpu@.memory =~= spec_store_registers_in_memory(m, x).memory);
    advance_index(cpu, x);
}

/// FX65 - LD VX, [I]: memory at `I..=I + X` goes to `V0..=VX`; with the
/// memory quirk on, `I` then moves past it.
pub fn load_registers_from_memory(cpu: &mut CPU, x: u8)
    requires
        x < 16,
    ensures
        final(cpu)@ == spec_load_registers_from_memory(old(cpu)@, x),
{
    let ghost m = cpu@;
    proof {
        lemma_view_wf(cpu);
    }
    let base = cpu.i as usize;
    let mut k: usize = 0;
    while k <= x as usize
        invariant
            x < 16,
            k <= x + 1,
            base == m.i,
            m.wf(),
            cpu@ == (Machine { v: cpu@.v, ..m }),
            cpu@.v.len() == 16,
            forall|j: int|
                0 <= j < 16 ==> #[trigger] cpu@.v[j] == if j < k {
                    m.memory[wrap_address(m.i + j)]
                } else {
                    m.v[j]
                },
        decreases x + 1 - k,
    {
        cpu.v[k] = cpu.memory[(base + k) % MEMORY_SIZE];
        k += 1;
    }
    assert(cpu@.v =~= spec_load_registers_from_memory(m, x).v);
    advance_index(cpu, x);
}

} // verus!
