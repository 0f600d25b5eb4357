//! Properties of the instruction semantics that relate several values or
//! several steps, proved over the model in `semantics`.
use vstd::prelude::*;
use crate::cpu::{Effect, Machine, STACK_DEPTH};
use crate::decode::instruction_of;
use crate::graphics::{HEIGHT, WIDTH};
use crate::semantics::{
    next_address,
    spec_add_nn_to_vx,
    spec_add_vy_to_vx,
    spec_draw_sprite,
    spec_set_vx_to_vx_minus_vy,
    spec_shift_vx_left_by_one,
    spec_shift_vx_right_by_one,
    spec_step,
    sprite_covers,
    with_register,
    word_at_pc,
};

verus! {

/// Addition wraps modulo 256. For `a = VX`: `7XNN` leaves `(a + NN) mod
/// 256` in `VX` and does not touch `VF`; `8XY4` with `b = VY` leaves
/// `(a + b) mod 256` in `VX` and, unless `VX` is `VF` itself, sets `VF`
/// to 1 exactly when the unwrapped sum `a + b` exceeds 255.
pub proof fn law_addition_wraps(m: Machine, x: u8, y: u8, nn: u8)
    requires
        m.wf(),
        x < 16,
        y < 16,
    ensures
        ({
            let a = m.v[x as int];
            let b = m.v[y as int];
            &&& spec_add_nn_to_vx(m, x, nn).v[x as int] == (a + nn) % 256
            &&& x != 15 ==> spec_add_nn_to_vx(m, x, nn).v[15] == m.v[15]
            &&& spec_add_vy_to_vx(m, x, y).v[x as int] == (a + b) % 256
            &&& x != 15 ==> (spec_add_vy_to_vx(m, x, y).v[15] == 1 <==> a + b > 255)
            &&& x != 15 ==> (spec_add_vy_to_vx(m, x, y).v[15] == 0 <==> a + b <= 255)
        }),
{
}

/// Subtraction: for `a = VX` and `b = VY`, `8XY5` leaves `(a - b) mod 256`
/// in `VX` and, unless `VX` is `VF` itself, sets `VF` to 1 exactly when
/// `a >= b` (and to 0 otherwise).
pub proof fn law_subtraction_borrow(m: Machine, x: u8, y: u8)
    requires
        m.wf(),
        x < 16,
        y < 16,
    ensures
        ({
            let a = m.v[x as int];
            let b = m.v[y as int];
            let after = spec_set_vx_to_vx_minus_vy(m, x, y);
            &&& after.v[x as int] == (a - b) % 256
            &&& x != 15 ==> (after.v[15] == 1 <==> a >= b)
            &&& x != 15 ==> (after.v[15] == 0 <==> a < b)
        }),
{
}

/// With the shift quirk off, `8XY6` and `8XYE` do not read `VY`: two
/// machines that differ at most in `VY` (another register than `VX`) get
/// the same `VX` and `VF` from either shift.
pub proof fn law_shift_ignores_vy_when_quirk_off(m1: Machine, m2: Machine, x: u8, y: u8)
    requires
        m1.wf(),
        x < 16,
        y < 16,
        x != y,
        !m1.options.shift_uses_vy,
        m2 == with_register(m1, y, m2.v[y as int]),
    ensures
        spec_shift_vx_right_by_one(m1, x, y).v[x as int] == spec_shift_vx_right_by_one(m2, x, y).v[x as int],
        spec_shift_vx_right_by_one(m1, x, y).v[15] == spec_shift_vx_right_by_one(m2, x, y).v[15],
        spec_shift_vx_left_by_one(m1, x, y).v[x as int] == spec_shift_vx_left_by_one(m2, x, y).v[x as int],
        spec_shift_vx_left_by_one(m1, x, y).v[15] == spec_shift_vx_left_by_one(m2, x, y).v[15],
{
    assert(m2.v[x as int] == m1.v[x as int]);
}

/// With the shift quirk on, `8XY6` and `8XYE` shift the value of `VY`:
/// `VX` ends as `VY` halved or doubled (modulo 256), and `VF` (when it is
/// not `VX`) holds the bit of `VY` shifted out.
pub proof fn law_shift_uses_vy_when_quirk_on(m: Machine, x: u8, y: u8)
    requires
        m.wf(),
        x < 16,
        y < 16,
        m.options.shift_uses_vy,
    ensures
        ({
            let b = m.v[y as int];
            &&& spec_shift_vx_right_by_one(m, x, y).v[x as int] == b / 2
            &&& x != 15 ==> spec_shift_vx_right_by_one(m, x, y).v[15] == b % 2
            &&& spec_shift_vx_left_by_one(m, x, y).v[x as int] == (b * 2) % 256
            &&& x != 15 ==> spec_shift_vx_left_by_one(m, x, y).v[15] == b / 128
        }),
{
}

/// A call followed by a return: stepping a `2NNN` at address `A` and then
/// the `00EE` it jumps to leaves `pc` at the instruction after `A` (`A + 2`
/// modulo the memory size) and the stack as it was.
pub proof fn law_call_then_return(m: Machine, keys: Seq<bool>, r1: u8, r2: u8)
    requires
        m.wf(),
        m.waiting_for_key is None,
        instruction_of(word_at_pc(m)) is Call,
        m.stack.len() < STACK_DEPTH,
        instruction_of(word_at_pc(spec_step(m, keys, r1).0)) is Return,
    ensures
        spec_step(spec_step(m, keys, r1).0, keys, r2).0 == (Machine { pc: next_address(m.pc), ..m }),
        spec_step(m, keys, r1).1 == Ok::<Effect, crate::cpu::Fault>(Effect::Continue),
        spec_step(spec_step(m, keys, r1).0, keys, r2).1 == Ok::<Effect, crate::cpu::Fault>(Effect::Continue),
{
    let m1 = spec_step(m, keys, r1).0;
    assert(m1.stack == m.stack.push(next_address(m.pc)));
    assert(m1.stack.drop_last() =~= m.stack);
}

/// Drawing a sprite twice at the same place restores the framebuffer, and
/// the second draw reports a collision exactly when the sprite covers a
/// cell that was unlit before the first draw (so that the first draw lit
/// it). The coordinates must not come from `VF`, which the first draw
/// changes.
pub proof fn law_draw_twice_restores(m: Machine, x: u8, y: u8, n: u8)
    requires
        m.wf(),
        x < 15,
        y < 15,
    ensures
        spec_draw_sprite(spec_draw_sprite(m, x, y, n), x, y, n).pixels == m.pixels,
        spec_draw_sprite(spec_draw_sprite(m, x, y, n), x, y, n).v[15] == (if exists|r: int, c: int|
            #[trigger] sprite_covers(m, x, y, n, r, c) && !m.pixels[r][c] {
            1u8
        } else {
            0u8
        }),
{
    let m1 = spec_draw_sprite(m, x, y, n);
    let m2 = spec_draw_sprite(m1, x, y, n);
    assert(m1.v[x as int] == m.v[x as int]);
    assert(m1.v[y as int] == m.v[y as int]);
    assert forall|r: int, c: int| #[trigger]
        sprite_covers(m1, x, y, n, r, c) == sprite_covers(m, x, y, n, r, c) by {}
    assert(m2.pixels =~~= m.pixels);
    if exists|r: int, c: int| #[trigger] sprite_covers(m, x, y, n, r, c) && !m.pixels[r][c] {
        let (r, c) = choose|r: int, c: int| #[trigger] sprite_covers(m, x, y, n, r, c) && !m.pixels[r][c];
        assert(sprite_covers(m1, x, y, n, r, c) && m1.pixels[r][c]);
    } else {
        assert forall|r: int, c: int| !(#[trigger] sprite_covers(m1, x, y, n, r, c) && m1.pixels[r][c]) by {
            if sprite_covers(m1, x, y, n, r, c) {
                assert(sprite_covers(m, x, y, n, r, c));
            }
        }
    }
}

/// A sprite never wraps around the screen: `DXYN` leaves every cell left of
/// its first column (`VX mod 64`), above its first row (`VY mod 32`), right
/// of its eighth column or below its last row as it was.
pub proof fn law_draw_clips(m: Machine, x: u8, y: u8, n: u8, r: int, c: int)
    requires
        m.wf(),
        0 <= r < HEIGHT,
        0 <= c < WIDTH,
        ({
            let row0 = (m.v[y as int] as int) % (HEIGHT as int);
            let col0 = (m.v[x as int] as int) % (WIDTH as int);
            c < col0 || c >= col0 + 8 || r < row0 || r >= row0 + n
        }),
    ensures
        spec_draw_sprite(m, x, y, n).pixels[r][c] == m.pixels[r][c],
{
}

} // verus!
