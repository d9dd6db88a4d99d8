//! The instructions, one function each. Every function executes the
//! instruction whose operands stand in `current_op`, whatever its first
//! nibble says; the dispatch is in the `cpu` module.
use crate::cpu::Cpu;
use crate::entropy::random_byte;
use crate::machine::Machine;
use vstd::prelude::*;

verus! {

proof fn lemma_pack_nibbles(a: u16, b: u16, c: u16, high: u8, low: u8)
    by (bit_vector)
    requires
        a < 16,
        b < 16,
        c < 16,
        high < 16,
        low < 16,
    ensures
        (a << 8u16 | b << 4u16 | c) == a * 256 + b * 16 + c,
        (high << 4u8 | low) == high * 16 + low,
{
}

proof fn lemma_low_byte(wide: u16)
    by (bit_vector)
    ensures
        wide as u8 == wide % 256,
{
}

proof fn lemma_shifts(value: u8)
    by (bit_vector)
    ensures
        value & 0x01 == value % 2,
        value >> 1u8 == value / 2,
        value >> 7u8 == value / 128,
{
}

proof fn lemma_double(value: u8)
    by (bit_vector)
    ensures
        value << 1u8 == (value * 2) % 256,
{
}

impl Cpu {
    /// The 12-bit address NNN of the current instruction.
    pub fn construct_address_from_op(&self) -> (addr: u16)
        requires
            self.wf(),
        ensures
            addr == self@.nnn(),
            addr <= 0xFFF,
    {
        let a: u16 = self.current_op.1 as u16;
        let b: u16 = self.current_op.2 as u16;
        let c: u16 = self.current_op.3 as u16;
        proof {
            lemma_pack_nibbles(a, b, c, 0, 0);
        }
        a << 8 | b << 4 | c
    }

    /// The 8-bit immediate NN of the current instruction.
    pub fn construct_byte_from_op(&self) -> (nn: u8)
        requires
            self.wf(),
        ensures
            nn == self@.nn(),
    {
        proof {
            lemma_pack_nibbles(0, 0, 0, self.current_op.2, self.current_op.3);
        }
        self.current_op.2 << 4 | self.current_op.3
    }

    /// `00E0`: every pixel goes dark.
    pub fn clear_screen(&mut self)
        ensures
            final(self)@ == old(self)@.clear_display(),
    {
        self.graphics = [[0;64];32];
        proof {
            assert(self@.display =~~= old(self)@.clear_display().display);
        }
    }

    /// `00EE`: returns to the address on top of the call stack. With an
    /// empty stack nothing changes and the result is `false`.
    pub fn op_00ee(&mut self) -> (returned: bool)
        ensures
            final(self)@ == old(self)@.subroutine_return(),
            returned == (old(self)@.stack.len() > 0),
    {
        match self.stack.pop() {
            Some(return_val) => {
                self.pc = return_val;
                proof {
                    assert(self@.stack =~= old(self)@.stack.drop_last());
                }
                true
            },
            None => false,
        }
    }

    /// `1NNN`
    pub fn op_1nnn(&mut self)
        requires
            old(self).wf(),
        ensures
            final(self)@ == old(self)@.jump(old(self)@.nnn()),
    {
        let addr = self.construct_address_from_op();
        self.pc = addr;
    }

    /// `2NNN`: the program counter, which already stands behind this
    /// instruction, is pushed as the return address.
    pub fn op_2nnn(&mut self)
        requires
            old(self).wf(),
        ensures
            final(self)@ == old(self)@.call(old(self)@.nnn()),
    {
        let addr = self.construct_address_from_op();
        self.stack.push(self.pc);
        self.pc = addr;
        proof {
            assert(self@.stack =~= old(self)@.stack.push(old(self)@.pc));
        }
    }

    /// `3XNN`
    pub fn op_3xnn(&mut self)
        requires
            old(self).wf(),
            old(self).pc + 2 <= u16::MAX,
        ensures
            final(self)@ == old(self)@.skip_if(old(self)@.v[old(self)@.x()] == old(self)@.nn()),
    {
        let x = self.current_op.1 as usize;
        let nn = self.construct_byte_from_op();
        if self.v[x] == nn {
            self.pc += 2;
        }
    }

    /// `4XNN`
    pub fn op_4xnn(&mut self)
        requires
            old(self).wf(),
            old(self).pc + 2 <= u16::MAX,
        ensures
            final(self)@ == old(self)@.skip_if(old(self)@.v[old(self)@.x()] != old(self)@.nn()),
    {
        let x = self.current_op.1 as usize;
        let nn = self.construct_byte_from_op();
        if self.v[x] != nn {
            self.pc += 2;
        }
    }

    /// `5XY0`
    pub fn op_5xy0(&mut self)
        requires
            old(self).wf(),
            old(self).pc + 2 <= u16::MAX,
        ensures
            final(self)@ == old(self)@.skip_if(
                old(self)@.v[old(self)@.x()] == old(self)@.v[old(self)@.y()],
            ),
    {
        let x = self.current_op.1 as usize;
        let y = self.current_op.2 as usize;
        if self.v[x] == self.v[y] {
            self.pc += 2;
        }
    }

    /// `6XNN`
    pub fn op_6xnn(&mut self)
        requires
            old(self).wf(),
        ensures
            final(self)@ == old(self)@.with_register(old(self)@.x(), old(self)@.nn()),
    {
        let x = self.current_op.1 as usize;
        let nn = self.construct_byte_from_op();
        self.v[x] = nn;
    }

    /// `7XNN`: adds modulo 256 and leaves the flag alone.
    pub fn op_7xnn(&mut self)
        requires
            old(self).wf(),
        ensures
            final(self)@ == old(self)@.add_byte(old(self)@.x(), old(self)@.nn()),
    {
        let x = self.current_op.1 as usize;
        let nn = self.construct_byte_from_op();
        let result: u16 = self.v[x] as u16 + nn as u16;
        proof {
            lemma_low_byte(result);
        }
        self.v[x] = #[verifier::truncate]
        (result as u8);
    }

    /// `8XY0`
    pub fn op_8xy0(&mut self)
        requires
            old(self).wf(),
        ensures
            final(self)@ == old(self)@.with_register(
                old(self)@.x(),
                old(self)@.v[old(self)@.y()],
            ),
    {
        let x = self.current_op.1 as usize;
        let y = self.current_op.2 as usize;
        self.v[x] = self.v[y];
    }

    /// `8XY1`
    pub fn op_8xy1(&mut self)
        requires
            old(self).wf(),
        ensures
            final(self)@ == old(self)@.with_register(
                old(self)@.x(),
                old(self)@.v[old(self)@.x()] | old(self)@.v[old(self)@.y()],
            ),
    {
        let x = self.current_op.1 as usize;
        let y = self.current_op.2 as usize;
        self.v[x] = self.v[x] | self.v[y];
    }

    /// `8XY2`
    pub fn op_8xy2(&mut self)
        requires
            old(self).wf(),
        ensures
            final(self)@ == old(self)@.with_register(
                old(self)@.x(),
                old(self)@.v[old(self)@.x()] & old(self)@.v[old(self)@.y()],
            ),
    {
        let x = self.current_op.1 as usize;
        let y = self.current_op.2 as usize;
        self.v[x] = self.v[x] & self.v[y];
    }

    /// `8XY3`
    pub fn op_8xy3(&mut self)
        requires
            old(self).wf(),
        ensures
            final(self)@ == old(self)@.with_register(
                old(self)@.x(),
                old(self)@.v[old(self)@.x()] ^ old(self)@.v[old(self)@.y()],
            ),
    {
        let x = self.current_op.1 as usize;
        let y = self.current_op.2 as usize;
        self.v[x] = self.v[x] ^ self.v[y];
    }

    /// `8XY4`: `V[X]` becomes the sum modulo 256 and the flag says whether
    /// the sum passed 255. With X = 15 the sum overwrites the flag.
    pub fn op_8xy4(&mut self)
        requires
            old(self).wf(),
        ensures
            final(self)@ == old(self)@.add_carry(old(self)@.x(), old(self)@.y()),
    {
        let x = self.current_op.1 as usize;
        let y = self.current_op.2 as usize;
        let result: u16 = self.v[x] as u16 + self.v[y] as u16;
        if result > 0xFF {
            self.v[0xF] = 1;
        } else {
            self.v[0xF] = 0;
        }
        proof {
            lemma_low_byte(result);
        }
        self.v[x] = #[verifier::truncate]
        (result as u8);
    }

    /// `8XY5`: the flag says that `V[X] >= V[Y]`, and `V[X]` becomes
    /// `V[X] - V[Y]` modulo 256. Both registers are read before the flag is
    /// written, so the difference is that of the values they came with,
    /// also where Y is the flag register. With X = 15 the difference
    /// overwrites the flag.
    pub fn op_8xy5(&mut self)
        requires
            old(self).wf(),
        ensures
            final(self)@ == old(self)@.sub_borrow(old(self)@.x(), old(self)@.y()),
    {
        let x = self.current_op.1 as usize;
        let y = self.current_op.2 as usize;
        let minuend = self.v[x];
        let subtrahend = self.v[y];
        if minuend < subtrahend {
            self.v[0xF] = 0;
        } else {
            self.v[0xF] = 1;
        }
        self.v[x] = minuend.wrapping_sub(subtrahend);
    }

    /// `8XY6`: the flag takes the lowest bit of `V[X]`, and `V[X]` is
    /// shifted right by one. The register is read before the flag is
    /// written; with X = 15 the shifted value overwrites the flag.
    pub fn op_8xy6(&mut self)
        requires
            old(self).wf(),
        ensures
            final(self)@ == old(self)@.shift_right(old(self)@.x()),
    {
        let x = self.current_op.1 as usize;
        let value = self.v[x];
        proof {
            lemma_shifts(value);
        }
        self.v[0xF] = value & 0x01;
        self.v[x] = value >> 1;
    }

    /// `8XY7`: the flag says that `V[Y] >= V[X]`, and `V[X]` becomes
    /// `V[Y] - V[X]` modulo 256. Both registers are read before the flag is
    /// written, so the difference is that of the values they came with,
    /// also where Y is the flag register. With X = 15 the difference
    /// overwrites the flag.
    pub fn op_8xy7(&mut self)
        requires
            old(self).wf(),
        ensures
            final(self)@ == old(self)@.sub_reverse(old(self)@.x(), old(self)@.y()),
    {
        let x = self.current_op.1 as usize;
        let y = self.current_op.2 as usize;
        let minuend = self.v[y];
        let subtrahend = self.v[x];
        if subtrahend <= minuend {
            self.v[0xF] = 1;
        } else {
            self.v[0xF] = 0;
        }
        self.v[x] = minuend.wrapping_sub(subtrahend);
    }

    /// `8XYE`: the flag takes the highest bit of `V[X]`, and `V[X]` is
    /// shifted left by one. The register is read before the flag is
    /// written; with X = 15 the shifted value overwrites the flag.
    pub fn op_8xye(&mut self)
        requires
            old(self).wf(),
        ensures
            final(self)@ == old(self)@.shift_left(old(self)@.x()),
    {
        let x = self.current_op.1 as usize;
        let value = self.v[x];
        proof {
            lemma_shifts(value);
            lemma_double(value);
        }
        self.v[0xF] = value >> 7;
        self.v[x] = value << 1;
    }

    /// `9XY0`
    pub fn op_9xy0(&mut self)
        requires
            old(self).wf(),
            old(self).pc + 2 <= u16::MAX,
        ensures
            final(self)@ == old(self)@.skip_if(
                old(self)@.v[old(self)@.x()] != old(self)@.v[old(self)@.y()],
            ),
    {
        let x = self.current_op.1 as usize;
        let y = self.current_op.2 as usize;
        if self.v[x] != self.v[y] {
            self.pc += 2;
        }
    }

    /// `ANNN`
    pub fn op_annn(&mut self)
        requires
            old(self).wf(),
        ensures
            final(self)@ == old(self)@.with_index(old(self)@.nnn()),
    {
        let nnn = self.construct_address_from_op();
        self.index = nnn;
    }

    /// `BNNN`
    pub fn op_bnnn(&mut self)
        requires
            old(self).wf(),
        ensures
            final(self)@ == old(self)@.jump_offset(old(self)@.nnn()),
    {
        let nnn = self.construct_address_from_op();
        self.pc = nnn + self.v[0] as u16;
    }

    /// `CXNN` for a given random byte: `V[X]` becomes `random AND NN`.
    pub fn op_cxnn_with(&mut self, random: u8)
        requires
            old(self).wf(),
        ensures
            final(self)@ == old(self)@.random_masked(old(self)@.x(), old(self)@.nn(), random),
    {
        let x = self.current_op.1 as usize;
        let nn = self.construct_byte_from_op();
        self.v[x] = random & nn;
    }

    /// `CXNN`: draws a byte from the random source and masks it with NN.
    /// Which byte is drawn is not known here, so the contract holds for
    /// some byte; [`Cpu::op_cxnn_with`] says what happens for each.
    pub fn op_cxnn(&mut self)
        requires
            old(self).wf(),
        ensures
            exists|random: u8|
                final(self)@ == #[trigger] old(self)@.random_masked(
                    old(self)@.x(),
                    old(self)@.nn(),
                    random,
                ),
    {
        let random = random_byte();
        self.op_cxnn_with(random);
    }

    /// `EX9E`
    pub fn op_ex9e(&mut self)
        requires
            old(self).wf(),
            old(self).pc + 2 <= u16::MAX,
            old(self)@.v[old(self)@.x()] < 16,
        ensures
            final(self)@ == old(self)@.skip_if(
                old(self)@.keys[old(self)@.v[old(self)@.x()] as int],
            ),
    {
        let x = self.current_op.1 as usize;
        let key = self.v[x] as usize;
        if self.key_pressed[key] {
            self.pc += 2;
        }
    }

    /// `EXA1`
    pub fn op_exa1(&mut self)
        requires
            old(self).wf(),
            old(self).pc + 2 <= u16::MAX,
            old(self)@.v[old(self)@.x()] < 16,
        ensures
            final(self)@ == old(self)@.skip_if(
                !old(self)@.keys[old(self)@.v[old(self)@.x()] as int],
            ),
    {
        let x = self.current_op.1 as usize;
        let key = self.v[x] as usize;
        if !self.key_pressed[key] {
            self.pc += 2;
        }
    }

    /// `FX07`
    pub fn op_fx07(&mut self)
        requires
            old(self).wf(),
        ensures
            final(self)@ == old(self)@.with_register(old(self)@.x(), old(self)@.delay_timer),
    {
        let x = self.current_op.1 as usize;
        self.v[x] = self.delay_timer;
    }

    /// `FX0A`: waits for a key without blocking. With one of the keys 0 to
    /// 14 down, the lowest of them goes to `V[X]`; with none, the program
    /// counter steps back by 2, so that the next cycle runs this
    /// instruction again.
    pub fn op_fx0a(&mut self)
        requires
            old(self).wf(),
            old(self).pc >= 2,
        ensures
            final(self)@ == old(self)@.wait_key(old(self)@.x()),
    {
        let x = self.current_op.1 as usize;
        let ghost before = self@;
        let mut key: usize = 0;
        while key < 15
            invariant
                key <= 15,
                x == before.x() < 16,
                self@ == before,
                before == old(self)@,
                self.pc >= 2,
                forall|j: int| 0 <= j < key ==> !#[trigger] before.keys[j],
            decreases 15 - key,
        {
            if self.key_pressed[key] {
                proof {
                    assert(before.is_lowest_pressed(key as int));
                    assert(before.lowest_pressed() == key);
                }
                self.v[x] = key as u8;
                return ;
            }
            key += 1;
        }
        self.pc -= 2;
    }

    /// `FX15`
    pub fn op_fx15(&mut self)
        requires
            old(self).wf(),
        ensures
            final(self)@ == old(self)@.with_delay(old(self)@.v[old(self)@.x()]),
    {
        let x = self.current_op.1 as usize;
        self.delay_timer = self.v[x];
    }

    /// `FX18`
    pub fn op_fx18(&mut self)
        requires
            old(self).wf(),
        ensures
            final(self)@ == old(self)@.with_sound(old(self)@.v[old(self)@.x()]),
    {
        let x = self.current_op.1 as usize;
        self.sound_timer = self.v[x];
    }

    /// `FX1E`: adds `V[X]` to the index register; the flag then says
    /// whether the sum lies above `0xFFF`.
    pub fn op_fx1e(&mut self)
        requires
            old(self).wf(),
            old(self)@.index + old(self)@.v[old(self)@.x()] <= u16::MAX,
        ensures
            final(self)@ == old(self)@.add_index(old(self)@.x()),
    {
        let x = self.current_op.1 as usize;
        self.index += self.v[x] as u16;
        if self.index > 0xFFF {
            self.v[0xF] = 1;
        } else {
            self.v[0xF] = 0;
        }
    }

    /// `FX29`: points the index register at the font sprite of digit `V[X]`.
    pub fn op_fx29(&mut self)
        requires
            old(self).wf(),
        ensures
            final(self)@ == old(self)@.font_address(old(self)@.x()),
    {
        let x = self.current_op.1 as usize;
        self.index = self.v[x] as u16 * 5;
    }

    /// `FX33`: stores the three decimal digits of `V[X]` at the index
    /// register: hundreds, tens, ones.
    pub fn op_fx33(&mut self)
        requires
            old(self).wf(),
            old(self)@.index + 2 < 4096,
        ensures
            final(self)@ == old(self)@.store_bcd(old(self)@.x()),
    {
        let x = self.current_op.1 as usize;
        let i = self.index as usize;
        self.memory[i] = self.v[x] / 100;
        self.memory[i + 1] = (self.v[x] / 10) % 10;
        self.memory[i + 2] = self.v[x] % 10;
    }

    /// `FX55`: stores `V[0]` to `V[X]` at the index register.
    pub fn op_fx55(&mut self)
        requires
            old(self).wf(),
            old(self)@.index + old(self)@.x() < 4096,
        ensures
            final(self)@ == old(self)@.store_registers(old(self)@.x()),
    {
        let x = self.current_op.1 as usize;
        let i = self.index as usize;
        let ghost before = self@;
        let mut reg: usize = 0;
        while reg <= x
            invariant
                reg <= x + 1 <= 16,
                i + x < 4096,
                i == before.index,
                self@ == (Machine { memory: self@.memory, ..before }),
                forall|a: int|
                    0 <= a < 4096 ==> #[trigger] self@.memory[a] == if i <= a < i + reg {
                        before.v[a - i]
                    } else {
                        before.memory[a]
                    },
            decreases x + 1 - reg,
        {
            self.memory[i + reg] = self.v[reg];
            reg += 1;
        }
        proof {
            assert(self@.memory =~= before.store_registers(x as int).memory);
        }
    }

    /// `FX65`: loads `V[0]` to `V[X]` from the index register.
    pub fn op_fx65(&mut self)
        requires
            old(self).wf(),
            old(self)@.index + old(self)@.x() < 4096,
        ensures
            final(self)@ == old(self)@.load_registers(old(self)@.x()),
    {
        let x = self.current_op.1 as usize;
        let i = self.index as usize;
        let ghost before = self@;
        let mut reg: usize = 0;
        while reg <= x
            invariant
                reg <= x + 1 <= 16,
                i + x < 4096,
                i == before.index,
                self@ == (Machine { v: self@.v, ..before }),
                forall|k: int|
                    0 <= k < 16 ==> #[trigger] self@.v[k] == if k < reg {
                        before.memory[i + k]
                    } else {
                        before.v[k]
                    },
            decreases x + 1 - reg,
        {
            self.v[reg] = self.memory[i + reg];
            reg += 1;
        }
        proof {
            assert(self@.v =~= before.load_registers(x as int).v);
        }
    }
}

} // verus!
