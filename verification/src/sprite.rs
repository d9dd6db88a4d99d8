//! Sprite drawing (`DXYN`).
use crate::cpu::Cpu;
use crate::machine::Machine;
use vstd::prelude::*;

verus! {

/// The pixel at (`row`, `col`) belongs to a sprite bit that comes before bit
/// `bit` of line `line` in drawing order (line by line, left to right).
spec fn drawn_before(left: int, top: int, line: int, bit: int, row: int, col: int) -> bool {
    let l = (row - top) % 32;
    let b = (col - left) % 64;
    b < 8 && (l < line || (l == line && b < bit))
}

/// A sprite bit drawn before (`line`, `bit`) is set and lies on a lit pixel.
spec fn hit_before(m: Machine, left: int, top: int, n: int, line: int, bit: int) -> bool {
    exists|row: int, col: int|
        0 <= row < 32 && 0 <= col < 64 && drawn_before(left, top, line, bit, row, col) && (
        #[trigger] m.sprite_pixel(left, top, n, row, col)) & m.display[row][col] == 1
}

/// The display of `now` is that of `before` with the sprite bits drawn
/// before (`line`, `bit`) XORed on, and its flag says whether one of them
/// hit a lit pixel; nothing else differs.
spec fn drawn_up_to(
    now: Machine,
    before: Machine,
    left: int,
    top: int,
    n: int,
    line: int,
    bit: int,
) -> bool {
    &&& now == (Machine { display: now.display, v: now.v, ..before })
    &&& now.v == before.v.update(
        15,
        if hit_before(before, left, top, n, line, bit) {
            1u8
        } else {
            0u8
        },
    )
    &&& forall|row: int, col: int|
        0 <= row < 32 && 0 <= col < 64 ==> #[trigger] now.display[row][col] == if drawn_before(
            left,
            top,
            line,
            bit,
            row,
            col,
        ) {
            before.display[row][col] ^ before.sprite_pixel(left, top, n, row, col)
        } else {
            before.display[row][col]
        }
}

proof fn lemma_pixel_bits(pixel: u8, byte: u8, shift: u8, flag: u8)
    by (bit_vector)
    ensures
        (byte >> shift) & 1 == 0 || (byte >> shift) & 1 == 1,
        pixel ^ 0 == pixel,
        0 & pixel == 0,
        1 & pixel == 0 || 1 & pixel == 1,
        flag | 0 == flag,
        0 | 1 == 1u8,
        1 | 1 == 1u8,
{
}

/// Drawing one more sprite bit keeps [`drawn_up_to`]: `now` is `mid` with
/// bit `bit` of line `line` XORed onto its pixel and ORed, where it hit a
/// lit pixel, into the flag.
proof fn lemma_draw_bit(
    before: Machine,
    mid: Machine,
    now: Machine,
    left: int,
    top: int,
    n: int,
    line: int,
    bit: int,
)
    requires
        before.valid(),
        0 <= line < n < 16,
        0 <= bit < 8,
        0 <= left < 256,
        0 <= top < 256,
        drawn_up_to(mid, before, left, top, n, line, bit),
        now == (Machine { display: now.display, v: now.v, ..mid }),
        now.display.len() == 32,
        forall|row: int| 0 <= row < 32 ==> (#[trigger] now.display[row]).len() == 64,
        forall|row: int, col: int|
            0 <= row < 32 && 0 <= col < 64 ==> #[trigger] now.display[row][col] == if row == (top
                + line) % 32 && col == (left + bit) % 64 {
                mid.display[row][col] ^ before.sprite_pixel(left, top, n, row, col)
            } else {
                mid.display[row][col]
            },
        now.v == mid.v.update(
            15,
            mid.v[15] | (before.sprite_pixel(
                left,
                top,
                n,
                (top + line) % 32,
                (left + bit) % 64,
            ) & mid.display[(top + line) % 32][(left + bit) % 64]),
        ),
    ensures
        drawn_up_to(now, before, left, top, n, line, bit + 1),
{
    let y = (top + line) % 32;
    let x = (left + bit) % 64;
    let set = before.sprite_pixel(left, top, n, y, x);
    let lit = before.display[y][x];
    assert((y - top) % 32 == line);
    assert((x - left) % 64 == bit);
    assert(!drawn_before(left, top, line, bit, y, x));
    assert(drawn_before(left, top, line, bit + 1, y, x));
    assert(mid.display[y][x] == lit);
    lemma_pixel_bits(lit, before.memory[before.index + line], (7 - bit) as u8, mid.v[15]);
    assert forall|row: int, col: int| 0 <= row < 32 && 0 <= col < 64 implies (
    #[trigger] now.display[row][col]) == if drawn_before(left, top, line, bit + 1, row, col) {
        before.display[row][col] ^ before.sprite_pixel(left, top, n, row, col)
    } else {
        before.display[row][col]
    } by {
        if row != y || col != x {
            assert(mid.display[row][col] == now.display[row][col]);
            assert(drawn_before(left, top, line, bit + 1, row, col) == drawn_before(
                left,
                top,
                line,
                bit,
                row,
                col,
            ));
        }
    }
    let hit = hit_before(before, left, top, n, line, bit);
    let hit_next = hit_before(before, left, top, n, line, bit + 1);
    if set & lit == 1 {
        assert(hit_next);
    } else if hit_next {
        let (row, col) = choose|row: int, col: int|
            0 <= row < 32 && 0 <= col < 64 && drawn_before(left, top, line, bit + 1, row, col) && (
            #[trigger] before.sprite_pixel(left, top, n, row, col)) & before.display[row][col]
                == 1;
        assert(row != y || col != x);
        assert(drawn_before(left, top, line, bit, row, col));
        assert(hit);
    }
    if hit {
        let (row, col) = choose|row: int, col: int|
            0 <= row < 32 && 0 <= col < 64 && drawn_before(left, top, line, bit, row, col) && (
            #[trigger] before.sprite_pixel(left, top, n, row, col)) & before.display[row][col]
                == 1;
        assert(drawn_before(left, top, line, bit + 1, row, col));
        assert(hit_next);
    }
    assert(now.v =~= before.v.update(
        15,
        if hit_next {
            1u8
        } else {
            0u8
        },
    ));
}

/// A sprite line has 8 bits: with them drawn, the next line begins.
proof fn lemma_line_drawn(now: Machine, before: Machine, left: int, top: int, n: int, line: int)
    requires
        drawn_up_to(now, before, left, top, n, line, 8),
    ensures
        drawn_up_to(now, before, left, top, n, line + 1, 0),
{
    assert forall|row: int, col: int|
        drawn_before(left, top, line, 8, row, col) == drawn_before(
            left,
            top,
            line + 1,
            0,
            row,
            col,
        ) by {
    }
    assert(hit_before(before, left, top, n, line, 8) == hit_before(
        before,
        left,
        top,
        n,
        line + 1,
        0,
    ));
}

/// With every line drawn, the sprite is blitted.
proof fn lemma_all_drawn(now: Machine, before: Machine, left: int, top: int, n: int)
    requires
        before.valid(),
        now.display.len() == 32,
        forall|row: int| 0 <= row < 32 ==> (#[trigger] now.display[row]).len() == 64,
        drawn_up_to(now, before, left, top, n, n, 0),
    ensures
        now == before.blit(left, top, n),
{
    let goal = before.blit(left, top, n);
    assert forall|row: int, col: int| 0 <= row < 32 && 0 <= col < 64 implies (
    #[trigger] now.display[row][col]) == goal.display[row][col] by {
        lemma_pixel_bits(before.display[row][col], 0, 0, 0);
    }
    assert(now.display =~~= goal.display);
    if before.collides(left, top, n) {
        let (row, col) = choose|row: int, col: int|
            0 <= row < 32 && 0 <= col < 64 && (#[trigger] before.sprite_pixel(
                left,
                top,
                n,
                row,
                col,
            )) & before.display[row][col] == 1;
        lemma_pixel_bits(before.display[row][col], 0, 0, 0);
        assert(drawn_before(left, top, n, 0, row, col));
    }
    assert(hit_before(before, left, top, n, n, 0) == before.collides(left, top, n));
}

impl Cpu {
    /// `DXYN`: draws the N-line sprite at the index register at
    /// (`V[X]`, `V[Y]`), both taken modulo the display's size, wrapping
    /// pixel by pixel. The flag becomes 1 where a lit pixel went dark, and 0
    /// otherwise.
    pub fn op_dxyn(&mut self)
        requires
            old(self).wf(),
            old(self)@.n() > 0 ==> old(self)@.index + old(self)@.n() <= 4096,
        ensures
            final(self)@ == old(self)@.draw(old(self)@.x(), old(self)@.y(), old(self)@.n()),
    {
        let x = self.current_op.1 as usize;
        let y = self.current_op.2 as usize;
        let n = self.current_op.3 as usize;
        let i = self.index as usize;
        let x_coord = self.v[x] as usize;
        let y_coord = self.v[y] as usize;
        let ghost before = self@;
        let ghost left = x_coord as int;
        let ghost top = y_coord as int;

        self.v[0xF] = 0;
        assert(drawn_up_to(self@, before, left, top, n as int, 0, 0));

        for line in 0..n
            invariant
                n < 16,
                n > 0 ==> i + n <= 4096,
                i == before.index,
                left == x_coord < 256,
                top == y_coord < 256,
                before.valid(),
                drawn_up_to(self@, before, left, top, n as int, line as int, 0),
        {
            for bit in 0..8usize
                invariant
                    line < n < 16,
                    i + n <= 4096,
                    i == before.index,
                    left == x_coord < 256,
                    top == y_coord < 256,
                    before.valid(),
                    drawn_up_to(self@, before, left, top, n as int, line as int, bit as int),
            {
                let ghost mid = self@;
                let x = (x_coord + bit) % Cpu::GFX_WIDTH;
                let y = (y_coord + line) % Cpu::GFX_HEIGHT;
                let set = (self.memory[i + line] >> (7 - bit)) & 0x1;
                proof {
                    assert((y - top) % 32 == line);
                    assert((x - left) % 64 == bit);
                    assert(set == before.sprite_pixel(left, top, n as int, y as int, x as int));
                }
                self.v[0xF] |= set & self.graphics[y][x];
                self.graphics[y][x] ^= set;
                proof {
                    lemma_draw_bit(before, mid, self@, left, top, n as int, line as int, bit as int);
                }
            }
            proof {
                lemma_line_drawn(self@, before, left, top, n as int, line as int);
            }
        }
        proof {
            lemma_all_drawn(self@, before, left, top, n as int);
        }
    }
}

} // verus!
