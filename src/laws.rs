//! Properties of the instruction set that relate several operations or hold
//! of every machine state, proved over the model.
use crate::isa::{Fault, lemma_nibble_bound, nibble, op_addr, op_kk};
use crate::machine::{
    add16, draw_rows, sprite_mask, sprite_mask_upto, sprite_pixel, sprite_row, Machine, DISPLAY_HEIGHT, FLAG, MEMORY_SIZE,
    STACK_DEPTH,
};
use vstd::prelude::*;

verus! {

/// `ADD Vx, Vy` (`8xy4`) with `Vx = a` and `Vy = b` leaves `(a + b) mod 256`
/// in `Vx` and sets `VF` to 1 exactly when `a + b > 255`, else to 0. (With
/// `x = F` the flag overwrites the sum.)
pub proof fn lemma_add_sets_carry(m: Machine, op: u16, rnd: u8)
    requires
        m.wf(),
        nibble(op, 3) == 0x8,
        nibble(op, 0) == 0x4,
        nibble(op, 2) != FLAG,
    ensures
        ({
            let a = m.v[nibble(op, 2) as int];
            let b = m.v[nibble(op, 1) as int];
            m.exec_op(op, rnd) matches Ok(m2) && m2.v[nibble(op, 2) as int] == (a + b) % 256 && (
            m2.v[FLAG as int] == 1 <==> a + b > 255) && (m2.v[FLAG as int] == 0 <==> a + b <= 255)
                && m2.pc == add16(m.pc, 2)
        }),
{
    lemma_nibble_bound(op, 2);
    lemma_nibble_bound(op, 1);
}

/// `SUB Vx, Vy` (`8xy5`) with `Vx = a` and `Vy = b` leaves `(a - b) mod 256`
/// in `Vx` and sets `VF` to 1 exactly when `a > b`, else to 0. (With
/// `x = F` the flag overwrites the difference.)
pub proof fn lemma_sub_sets_borrow(m: Machine, op: u16, rnd: u8)
    requires
        m.wf(),
        nibble(op, 3) == 0x8,
        nibble(op, 0) == 0x5,
        nibble(op, 2) != FLAG,
    ensures
        ({
            let a = m.v[nibble(op, 2) as int];
            let b = m.v[nibble(op, 1) as int];
            m.exec_op(op, rnd) matches Ok(m2) && m2.v[nibble(op, 2) as int] == (a - b) % 256 && (
            m2.v[FLAG as int] == 1 <==> a > b) && (m2.v[FLAG as int] == 0 <==> a <= b) && m2.pc
                == add16(m.pc, 2)
        }),
{
    lemma_nibble_bound(op, 2);
    lemma_nibble_bound(op, 1);
}

/// Drawing rows `0..k` of a sprite changes screen row `sprite_row(vy, t)`
/// by XOR with sprite row `t` for each `t < k` and leaves the others; a
/// collision is reported exactly when some such screen row shared a set bit
/// with its sprite row.
pub proof fn lemma_draw_rows_effect(d: Seq<u64>, mem: Seq<u8>, i: u16, vx: u8, vy: u8, k: nat)
    requires
        d.len() == DISPLAY_HEIGHT,
        k <= DISPLAY_HEIGHT,
    ensures
        ({
            let r = draw_rows(d, mem, i, vx, vy, k);
            &&& r.0.len() == DISPLAY_HEIGHT
            &&& forall|t: int|
                0 <= t < DISPLAY_HEIGHT ==> #[trigger] r.0[sprite_row(vy, t)] == if t < k {
                    d[sprite_row(vy, t)] ^ sprite_mask(mem[i + t], vx)
                } else {
                    d[sprite_row(vy, t)]
                }
            &&& r.1 <==> exists|t: int|
                0 <= t < k && #[trigger] (d[sprite_row(vy, t)] & sprite_mask(mem[i + t], vx)) != 0
        }),
    decreases k,
{
    if k > 0 {
        let j = k - 1;
        lemma_draw_rows_effect(d, mem, i, vx, vy, j as nat);
        let prev = draw_rows(d, mem, i, vx, vy, j as nat);
        assert forall|t: int| 0 <= t < DISPLAY_HEIGHT && t != j implies sprite_row(vy, t)
            != sprite_row(vy, j) by {}
        assert(prev.0[sprite_row(vy, j)] == d[sprite_row(vy, j)]);
        let r = draw_rows(d, mem, i, vx, vy, k);
        if r.1 && !prev.1 {
            assert((d[sprite_row(vy, j)] & sprite_mask(mem[i + j], vx)) != 0);
        }
    }
}

/// Drawing the same sprite twice at the same place (`Dxyn` executed twice,
/// with `x` and `y` other than `F`) restores the framebuffer, and the second
/// draw reports a collision exactly when some set sprite pixel fell on an
/// unlit screen pixel before the first (so always, on a blank screen, for a
/// sprite with a set bit).
pub proof fn lemma_draw_twice_restores(m: Machine, op: u16, rnd: u8)
    requires
        m.wf(),
        nibble(op, 3) == 0xd,
        nibble(op, 2) != FLAG,
        nibble(op, 1) != FLAG,
        m.i + nibble(op, 0) <= MEMORY_SIZE,
    ensures
        ({
            let vx = m.v[nibble(op, 2) as int];
            let vy = m.v[nibble(op, 1) as int];
            m.exec_op(op, rnd) matches Ok(m1) && (m1.exec_op(op, rnd) matches Ok(m2) && m2.display
                == m.display && m2.pc == add16(m1.pc, 2) && (m2.v[FLAG as int] == 1 <==> exists|
                t: int|
                0 <= t < nibble(op, 0) && #[trigger] (sprite_mask(m.memory[m.i + t], vx)
                    & !m.display[sprite_row(vy, t)]) != 0) && (m2.v[FLAG as int] == 0 <==> !exists|
                t: int|
                0 <= t < nibble(op, 0) && #[trigger] (sprite_mask(m.memory[m.i + t], vx)
                    & !m.display[sprite_row(vy, t)]) != 0))
        }),
{
    lemma_nibble_bound(op, 2);
    lemma_nibble_bound(op, 1);
    lemma_nibble_bound(op, 0);
    let x = nibble(op, 2);
    let y = nibble(op, 1);
    let n = nibble(op, 0);
    let vx = m.v[x as int];
    let vy = m.v[y as int];
    let m1 = m.exec_op(op, rnd)->Ok_0;
    let d1 = draw_rows(m.display, m.memory, m.i, vx, vy, n as nat);
    lemma_draw_rows_effect(m.display, m.memory, m.i, vx, vy, n as nat);
    assert(m1.v[x as int] == vx && m1.v[y as int] == vy);
    assert(m1.display == d1.0);
    let m2 = m1.exec_op(op, rnd)->Ok_0;
    let d2 = draw_rows(d1.0, m.memory, m.i, vx, vy, n as nat);
    lemma_draw_rows_effect(d1.0, m.memory, m.i, vx, vy, n as nat);
    assert(m2.display == d2.0);
    assert forall|r: int| 0 <= r < DISPLAY_HEIGHT implies d2.0[r] == m.display[r] by {
        let t = (r - vy) % 32;
        assert(sprite_row(vy, t) == r);
        let a = m.display[r];
        let b = sprite_mask(m.memory[m.i + t], vx);
        assert((a ^ b) ^ b == a) by (bit_vector);
    }
    assert(d2.0 =~= m.display);
    assert forall|t: int| 0 <= t < n implies (#[trigger] (d1.0[sprite_row(vy, t)]
        & sprite_mask(m.memory[m.i + t], vx)) != 0) == ((sprite_mask(m.memory[m.i + t], vx)
        & !m.display[sprite_row(vy, t)]) != 0) by {
        let a = m.display[sprite_row(vy, t)];
        let b = sprite_mask(m.memory[m.i + t], vx);
        assert((a ^ b) & b == b & !a) by (bit_vector);
        assert(d1.0[sprite_row(vy, t)] == a ^ b);
    }
    if d2.1 {
        let t = choose|t: int|
            0 <= t < n && #[trigger] (d1.0[sprite_row(vy, t)] & sprite_mask(m.memory[m.i + t], vx))
                != 0;
        assert((sprite_mask(m.memory[m.i + t], vx) & !m.display[sprite_row(vy, t)]) != 0);
    }
    if exists|t: int|
        0 <= t < n && #[trigger] (sprite_mask(m.memory[m.i + t], vx) & !m.display[sprite_row(
            vy,
            t,
        )]) != 0 {
        let t = choose|t: int|
            0 <= t < n && #[trigger] (sprite_mask(m.memory[m.i + t], vx) & !m.display[sprite_row(
                vy,
                t,
            )]) != 0;
        assert((d1.0[sprite_row(vy, t)] & sprite_mask(m.memory[m.i + t], vx)) != 0);
        assert(d2.1);
    }
}

/// The same law over two machine steps: where the opcode `Dxyn` at the
/// program counter is repeated right after it, the two steps leave the
/// framebuffer as it was, move on by two instructions, and the second
/// reports a collision exactly when some set sprite pixel fell on an unlit
/// screen pixel before the first.
pub proof fn lemma_step_draw_twice(m: Machine, r1: u8, r2: u8)
    requires
        m.wf(),
        !m.waiting,
        m.pc + 3 < MEMORY_SIZE,
        m.memory[m.pc + 2] == m.memory[m.pc as int],
        m.memory[m.pc + 3] == m.memory[m.pc + 1],
        nibble(m.fetch_op(), 3) == 0xd,
        nibble(m.fetch_op(), 2) != FLAG,
        nibble(m.fetch_op(), 1) != FLAG,
        m.i + nibble(m.fetch_op(), 0) <= MEMORY_SIZE,
    ensures
        ({
            let op = m.fetch_op();
            let vx = m.v[nibble(op, 2) as int];
            let vy = m.v[nibble(op, 1) as int];
            m.step(r1) matches Ok(m1) && (m1.step(r2) matches Ok(m2) && m2.display == m.display
                && m2.pc == m.pc + 4 && (m2.v[FLAG as int] == 1 <==> exists|t: int|
                0 <= t < nibble(op, 0) && #[trigger] (sprite_mask(m.memory[m.i + t], vx)
                    & !m.display[sprite_row(vy, t)]) != 0))
        }),
{
    let op = m.fetch_op();
    lemma_draw_twice_restores(m, op, r1);
    let m1 = m.exec_op(op, r1)->Ok_0;
    assert(m.step(r1) == Ok::<Machine, Fault>(m1));
    assert(m1.memory == m.memory && m1.pc == m.pc + 2 && !m1.waiting);
    assert(m1.fetch_op() == op);
    assert(m1.exec_op(op, r2) == m1.exec_op(op, r1));
}

/// `CALL addr` (`2nnn`) followed by `RET` (`00EE`) returns to the
/// instruction right after the call, with the stack pointer as before.
pub proof fn lemma_call_then_ret(m: Machine, op: u16, rnd: u8)
    requires
        m.wf(),
        nibble(op, 3) == 0x2,
        m.sp < STACK_DEPTH,
    ensures
        m.exec_op(op, rnd) matches Ok(m1) && m1.pc == op_addr(op) && (m1.exec_op(0x00ee, rnd) matches Ok(
            m2,
        ) && m2.pc == add16(m.pc, 2) && m2.sp == m.sp),
{
    let s: u16 = (4 * 3u8) as u16;
    assert((0x00eeu16 >> s) & 0x000f == 0) by (bit_vector)
        requires
            s == 12u16,
    ;
}

/// `LD Vx, K` (`Fx0A`) suspends the machine: every later step leaves the
/// whole state unchanged until a key `k` is pressed, which puts `k` in `Vx`
/// and lets stepping resume at the next instruction.
pub proof fn lemma_key_wait_suspends(m: Machine, op: u16, rnd: u8, k: u8)
    requires
        m.wf(),
        nibble(op, 3) == 0xf,
        op_kk(op) == 0x0a,
        k < 16,
    ensures
        m.exec_op(op, rnd) matches Ok(w) && w.waiting && w.pc == add16(m.pc, 2) && (forall|r: u8|
            #[trigger] w.step(r) == Ok::<Machine, Fault>(w)) && w.press_key(k).v[nibble(op, 2) as int]
            == k && !w.press_key(k).waiting && w.press_key(k).pc == w.pc,
{
    lemma_nibble_bound(op, 2);
}

/// The skip instructions `3xkk`, `4xkk`, `5xy0` and `9xy0` move the program
/// counter on by 4 when their condition holds and by 2 otherwise.
pub proof fn lemma_skip_advance(m: Machine, op: u16, rnd: u8)
    requires
        m.wf(),
        nibble(op, 3) == 0x3 || nibble(op, 3) == 0x4 || ((nibble(op, 3) == 0x5 || nibble(op, 3)
            == 0x9) && nibble(op, 0) == 0),
    ensures
        ({
            let vx = m.v[nibble(op, 2) as int];
            let vy = m.v[nibble(op, 1) as int];
            let kk = op_kk(op);
            let cond = if nibble(op, 3) == 0x3 {
                vx == kk
            } else if nibble(op, 3) == 0x4 {
                vx != kk
            } else if nibble(op, 3) == 0x5 {
                vx == vy
            } else {
                vx != vy
            };
            m.exec_op(op, rnd) matches Ok(m2) && m2.pc == add16(m.pc, if cond { 4 } else { 2 })
        }),
{
    lemma_nibble_bound(op, 2);
    lemma_nibble_bound(op, 1);
}

/// Sprite column `j` (0 = leftmost) of sprite row `b` drawn at `vx` lands on
/// screen column `(vx + j) mod 64`: that bit of the row word is bit `7 - j`
/// of `b`. Columns past the right edge wrap to the left edge.
pub proof fn lemma_sprite_columns_wrap(b: u8, vx: u8, j: u64)
    requires
        j < 8,
    ensures
        (sprite_mask(b, vx) >> (((vx as u64 + j) % 64) as u64)) & 1 == ((b as u64) >> ((7 - j) as u64))
            & 1,
{
    reveal_with_fuel(sprite_mask_upto, 9);
    assert(sprite_mask(b, vx) == 0u64 | sprite_pixel(b, vx, 0) | sprite_pixel(b, vx, 1) | sprite_pixel(
        b,
        vx,
        2,
    ) | sprite_pixel(b, vx, 3) | sprite_pixel(b, vx, 4) | sprite_pixel(b, vx, 5) | sprite_pixel(
        b,
        vx,
        6,
    ) | sprite_pixel(b, vx, 7));
    assert((0u64 | sprite_pixel(b, vx, 0) | sprite_pixel(b, vx, 1) | sprite_pixel(b, vx, 2) | sprite_pixel(
        b,
        vx,
        3,
    ) | sprite_pixel(b, vx, 4) | sprite_pixel(b, vx, 5) | sprite_pixel(b, vx, 6) | sprite_pixel(
        b,
        vx,
        7,
    )) >> (((vx as u64 + j) % 64) as u64) & 1 == ((b as u64) >> ((7 - j) as u64)) & 1)
        by (bit_vector)
        requires
            j < 8,
    ;
}

} // verus!
