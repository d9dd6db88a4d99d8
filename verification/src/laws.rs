//! Laws of the instruction set, proved of the abstract machine. They hold
//! of the executable processor too, because each instruction's contract
//! equates its effect with the function named here.
use crate::machine::Machine;
use crate::opcode::{decode, Opcode};
use vstd::prelude::*;

verus! {

proof fn lemma_xor_twice(pixel: u8, sprite: u8)
    by (bit_vector)
    requires
        sprite == 0 || sprite == 1,
    ensures
        (pixel ^ sprite) ^ sprite == pixel,
        (sprite & (pixel ^ sprite) == 1) == (sprite == 1 && pixel & 1 == 0),
{
}

proof fn lemma_low_bit(byte: u8, shift: u8)
    by (bit_vector)
    ensures
        (byte >> shift) & 1 == 0 || (byte >> shift) & 1 == 1,
{
}

proof fn lemma_xor_of_bits(pixel: u8, sprite: u8)
    by (bit_vector)
    requires
        pixel <= 1,
        sprite <= 1,
    ensures
        pixel ^ sprite <= 1,
{
}

/// A sprite pixel is 0 or 1.
pub proof fn lemma_sprite_pixel_is_bit(m: Machine, left: int, top: int, n: int, row: int, col: int)
    ensures
        m.sprite_pixel(left, top, n, row, col) == 0 || m.sprite_pixel(left, top, n, row, col) == 1,
{
    let line = (row - top) % 32;
    let bit = (col - left) % 64;
    if line < n && bit < 8 {
        lemma_low_bit(m.memory[m.index + line], (7 - bit) as u8);
    }
}

/// `8XY4`: `V[X]` holds the sum modulo 256. With a destination other than
/// the flag register, the flag is 1 exactly when the sum passed 255, and 0
/// otherwise. With the flag register as destination the sum is written
/// last, so the flag register holds the sum and the carry is lost.
pub proof fn law_add_carry(m: Machine, x: int, y: int)
    requires
        m.valid(),
        0 <= x < 16,
        0 <= y < 16,
    ensures
        m.add_carry(x, y).v[x] == (m.v[x] + m.v[y]) % 256,
        x != 15 ==> (m.add_carry(x, y).v[15] == 1 <==> m.v[x] + m.v[y] > 255),
        x != 15 ==> (m.add_carry(x, y).v[15] == 0 <==> m.v[x] + m.v[y] <= 255),
        forall|i: int| 0 <= i < 15 && i != x ==> m.add_carry(x, y).v[i] == m.v[i],
{
}

/// `8XY5`: `V[X]` holds the difference `V[X] - V[Y]` modulo 256 of the
/// values that the two registers came with, whichever registers they are.
/// With a destination other than the flag register, the flag is 1 exactly
/// when `V[X] >= V[Y]`, and 0 otherwise. With the flag register as
/// destination the difference is written last, so the flag register holds
/// the difference and the flag is lost.
pub proof fn law_sub_borrow(m: Machine, x: int, y: int)
    requires
        m.valid(),
        0 <= x < 16,
        0 <= y < 16,
    ensures
        m.sub_borrow(x, y).v[x] == (m.v[x] - m.v[y]) % 256,
        x != 15 ==> (m.sub_borrow(x, y).v[15] == 1 <==> m.v[x] >= m.v[y]),
        x != 15 ==> (m.sub_borrow(x, y).v[15] == 0 <==> m.v[x] < m.v[y]),
        forall|i: int| 0 <= i < 15 && i != x ==> m.sub_borrow(x, y).v[i] == m.v[i],
{
}

/// `8XY7`: `V[X]` holds the difference `V[Y] - V[X]` modulo 256 of the
/// values that the two registers came with, whichever registers they are.
/// With a destination other than the flag register, the flag is 1 exactly
/// when `V[Y] >= V[X]`, and 0 otherwise. With the flag register as
/// destination the difference is written last, so the flag register holds
/// the difference and the flag is lost.
pub proof fn law_sub_reverse(m: Machine, x: int, y: int)
    requires
        m.valid(),
        0 <= x < 16,
        0 <= y < 16,
    ensures
        m.sub_reverse(x, y).v[x] == (m.v[y] - m.v[x]) % 256,
        x != 15 ==> (m.sub_reverse(x, y).v[15] == 1 <==> m.v[y] >= m.v[x]),
        x != 15 ==> (m.sub_reverse(x, y).v[15] == 0 <==> m.v[y] < m.v[x]),
        forall|i: int| 0 <= i < 15 && i != x ==> m.sub_reverse(x, y).v[i] == m.v[i],
{
}

/// `8XY6` and `8XYE`: `V[X]` holds half, or twice modulo 256, of the
/// value it came with, whichever register it is. With a destination other
/// than the flag register, the flag is the bit that was shifted out.
pub proof fn law_shifts(m: Machine, x: int)
    requires
        m.valid(),
        0 <= x < 16,
    ensures
        m.shift_right(x).v[x] == m.v[x] / 2,
        x != 15 ==> m.shift_right(x).v[15] == m.v[x] % 2,
        m.shift_left(x).v[x] == (m.v[x] * 2) % 256,
        x != 15 ==> m.shift_left(x).v[15] == m.v[x] / 128,
        forall|i: int| 0 <= i < 15 && i != x ==> m.shift_right(x).v[i] == m.v[i],
        forall|i: int| 0 <= i < 15 && i != x ==> m.shift_left(x).v[i] == m.v[i],
{
}

/// Putting the same sprite at the same place twice gives the display back
/// as it was, pixel for pixel. The second flag is 1 exactly when the sprite
/// has a set bit on a pixel that was unlit at the start; so the two flags
/// agree exactly when the sprite covers a lit pixel if and only if it
/// covers an unlit one.
pub proof fn law_blit_twice(m: Machine, left: int, top: int, n: int)
    requires
        m.valid(),
    ensures
        m.blit(left, top, n).blit(left, top, n).display == m.display,
        m.blit(left, top, n).blit(left, top, n) == (Machine {
            v: m.blit(left, top, n).blit(left, top, n).v,
            ..m
        }),
        m.blit(left, top, n).v[15] == 1 <==> m.collides(left, top, n),
        m.blit(left, top, n).blit(left, top, n).v[15] == 1 <==> m.uncovers(left, top, n),
        m.blit(left, top, n).blit(left, top, n).v[15] == m.blit(left, top, n).v[15] <==> (
        m.collides(left, top, n) <==> m.uncovers(left, top, n)),
{
    let once = m.blit(left, top, n);
    let twice = once.blit(left, top, n);
    assert forall|row: int, col: int| 0 <= row < 32 && 0 <= col < 64 implies (
    #[trigger] twice.display[row][col]) == m.display[row][col] by {
        lemma_sprite_pixel_is_bit(m, left, top, n, row, col);
        lemma_xor_twice(m.display[row][col], m.sprite_pixel(left, top, n, row, col));
        assert(once.sprite_pixel(left, top, n, row, col) == m.sprite_pixel(
            left,
            top,
            n,
            row,
            col,
        ));
    }
    assert(twice.display =~~= m.display);
    if once.collides(left, top, n) {
        let (row, col) = choose|row: int, col: int|
            0 <= row < 32 && 0 <= col < 64 && (#[trigger] once.sprite_pixel(
                left,
                top,
                n,
                row,
                col,
            )) & once.display[row][col] == 1;
        lemma_sprite_pixel_is_bit(m, left, top, n, row, col);
        lemma_xor_twice(m.display[row][col], m.sprite_pixel(left, top, n, row, col));
        assert(m.sprite_pixel(left, top, n, row, col) == 1 && m.display[row][col] & 1 == 0);
    }
    if m.uncovers(left, top, n) {
        let (row, col) = choose|row: int, col: int|
            0 <= row < 32 && 0 <= col < 64 && (#[trigger] m.sprite_pixel(left, top, n, row, col))
                == 1 && m.display[row][col] & 1 == 0;
        lemma_xor_twice(m.display[row][col], m.sprite_pixel(left, top, n, row, col));
        assert(once.sprite_pixel(left, top, n, row, col) & once.display[row][col] == 1);
    }
    assert(once.collides(left, top, n) == m.uncovers(left, top, n));
}

/// `DXYN` executed twice in a row, with the position in registers other
/// than the flag register, leaves the display as it was; the flags relate
/// as in [`law_blit_twice`].
pub proof fn law_draw_twice(m: Machine, x: int, y: int, n: int)
    requires
        m.valid(),
        0 <= x < 15,
        0 <= y < 15,
    ensures
        m.draw(x, y, n).draw(x, y, n).display == m.display,
        m.draw(x, y, n).draw(x, y, n).v[15] == 1 <==> m.uncovers(
            m.v[x] as int,
            m.v[y] as int,
            n,
        ),
        m.draw(x, y, n).draw(x, y, n).v[15] == m.draw(x, y, n).v[15] <==> (m.collides(
            m.v[x] as int,
            m.v[y] as int,
            n,
        ) <==> m.uncovers(m.v[x] as int, m.v[y] as int, n)),
{
    law_blit_twice(m, m.v[x] as int, m.v[y] as int, n);
}

/// Wraparound is per pixel: bit `bit` (0 is the leftmost) of sprite line
/// `line` lands in column `(left + bit) mod 64` of row `(top + line) mod
/// 32`, and that pixel is XORed with the bit.
pub proof fn law_sprite_wraps(m: Machine, left: int, top: int, n: int, line: int, bit: int)
    requires
        m.valid(),
        0 <= line < n <= 32,
        0 <= bit < 8,
    ensures
        m.sprite_pixel(left, top, n, (top + line) % 32, (left + bit) % 64) == (m.memory[m.index
            + line] >> ((7 - bit) as u8)) & 1,
        m.blit(left, top, n).display[(top + line) % 32][(left + bit) % 64] == m.display[(top
            + line) % 32][(left + bit) % 64] ^ ((m.memory[m.index + line] >> ((7 - bit) as u8))
            & 1),
{
    let row = (top + line) % 32;
    let col = (left + bit) % 64;
    assert((row - top) % 32 == line);
    assert((col - left) % 64 == bit);
}

/// A call followed by a return changes nothing: the program counter is
/// back at the address behind the call instruction and the stack is as it
/// was.
pub proof fn law_call_return(m: Machine, address: int)
    requires
        m.valid(),
    ensures
        m.call(address).subroutine_return() == m,
{
    assert(m.stack.push(m.pc).drop_last() =~= m.stack);
}

/// The same law over whole cycles: where the next instruction is a call
/// and the instruction at its target is a return, two cycles leave the
/// program counter just behind the call instruction, and the stack as it
/// was.
pub proof fn law_call_return_cycles(m: Machine, first: u8, second: u8)
    requires
        m.valid(),
        decode(m.next_opcode()) == Some(Opcode::Call),
        decode(m.fetch().call(m.fetch().nnn()).next_opcode()) == Some(Opcode::Return),
    ensures
        m.step(first).step(second).pc == m.pc + 2,
        m.step(first).step(second).stack == m.stack,
{
    let called = m.step(first);
    assert(called == m.fetch().call(m.fetch().nnn()));
    assert(called.stack.drop_last() =~= m.stack);
}

/// The initial state is valid and its display is blank, with or without a
/// program loaded.
pub proof fn law_initial_state(rom: Seq<u8>)
    ensures
        Machine::initial().valid(),
        Machine::initial().monochrome(),
        Machine::loaded(rom).valid(),
        Machine::loaded(rom).monochrome(),
        Machine::loaded(Seq::empty()) == Machine::initial(),
{
    assert(Machine::loaded(Seq::empty()).memory =~= Machine::initial().memory);
}

/// A cycle that can be run leads from a valid state to a valid state.
pub proof fn law_step_keeps_valid(m: Machine, random: u8)
    requires
        m.valid(),
        m.fault() is None,
    ensures
        m.step(random).valid(),
{
    assert(m.fetch().valid());
}

/// Only `00E0` and `DXYN` change the display.
pub proof fn law_display_changes(m: Machine, random: u8)
    requires
        m.valid(),
        decode(m.next_opcode()) != Some(Opcode::ClearScreen),
        decode(m.next_opcode()) != Some(Opcode::Draw),
    ensures
        m.step(random).display == m.display,
{
}

/// Pixels stay 0 or 1: a cycle leads from a display of such pixels to a
/// display of such pixels.
pub proof fn law_step_keeps_monochrome(m: Machine, random: u8)
    requires
        m.valid(),
        m.monochrome(),
    ensures
        m.step(random).monochrome(),
{
    let fetched = m.fetch();
    let after = m.step(random);
    if decode(fetched.current_op) == Some(Opcode::Draw) {
        let left = fetched.v[fetched.x()] as int;
        let top = fetched.v[fetched.y()] as int;
        assert forall|r: int, c: int| 0 <= r < 32 && 0 <= c < 64 implies (
        #[trigger] after.display[r][c]) <= 1 by {
            lemma_sprite_pixel_is_bit(fetched, left, top, fetched.n(), r, c);
            lemma_xor_of_bits(
                fetched.display[r][c],
                fetched.sprite_pixel(left, top, fetched.n(), r, c),
            );
        }
    } else if decode(fetched.current_op) == Some(Opcode::ClearScreen) {
    } else {
        assert(after.display == m.display);
    }
}

} // verus!
