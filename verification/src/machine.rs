//! The abstract machine: the interpreter's whole state as mathematical
//! values, and the effect of every instruction as a function from state to
//! state. The executable processor is specified against these functions.
use crate::cpu::Cpu;
use crate::opcode::{decode, nibbles_valid, Nibbles, Opcode};
use vstd::prelude::*;

verus! {

/// What one executed cycle has to tell its caller.
#[derive(Debug, Clone, Copy, PartialEq, Eq, Structural)]
pub enum StepReport {
    /// The instruction ran to completion.
    Completed,
    /// A return was executed while the call stack was empty; the program
    /// counter was left where it stood.
    ReturnOnEmptyStack,
}

/// Why a cycle cannot be run from a given state.
#[derive(Debug, Clone, Copy, PartialEq, Eq, Structural)]
pub enum Fault {
    /// The two bytes of the next instruction do not both lie in memory.
    FetchOutOfBounds,
    /// The next instruction word is not in the instruction table.
    UnknownInstruction,
    /// The instruction would read or write memory past its last address.
    AddressOutOfBounds,
    /// The instruction names a key that does not exist.
    KeyOutOfRange,
    /// The index register would leave its 16 bits.
    IndexOverflow,
}

/// The state of the machine.
#[verifier::ext_equal]
pub struct Machine {
    /// 4096 bytes, addresses `0x000` to `0xFFF`.
    pub memory: Seq<u8>,
    /// 32 rows of 64 pixels, row first; 0 is off and 1 is on.
    pub display: Seq<Seq<u8>>,
    /// The 16 general-purpose registers; register 15 doubles as the flag.
    pub v: Seq<u8>,
    /// The index register.
    pub index: int,
    /// The address of the next instruction.
    pub pc: int,
    /// The return addresses, oldest first.
    pub stack: Seq<int>,
    pub sound_timer: u8,
    pub delay_timer: u8,
    /// The nibbles of the instruction being executed.
    pub current_op: Nibbles,
    /// One flag per key, `true` while the key is held down.
    pub keys: Seq<bool>,
}

impl Machine {
    /// The shape that every state of an executable processor has.
    pub open spec fn valid(self) -> bool {
        &&& self.memory.len() == 4096
        &&& self.display.len() == 32
        &&& forall|r: int| 0 <= r < 32 ==> (#[trigger] self.display[r]).len() == 64
        &&& self.v.len() == 16
        &&& 0 <= self.index <= 0xFFFF
        &&& 0 <= self.pc <= 0xFFFF
        &&& forall|i: int| 0 <= i < self.stack.len() ==> 0 <= #[trigger] self.stack[i] <= 0xFFFF
        &&& self.keys.len() == 16
        &&& nibbles_valid(self.current_op)
    }

    /// Every pixel is 0 (off) or 1 (on).
    pub open spec fn monochrome(self) -> bool {
        forall|r: int, c: int| 0 <= r < 32 && 0 <= c < 64 ==> #[trigger] self.display[r][c] <= 1
    }

    /// The state after power-on: the font at the bottom of memory, the
    /// program counter at `0x200`, everything else zero.
    pub open spec fn initial() -> Machine {
        Machine {
            memory: Seq::new(4096, |a: int| if 0 <= a < 80 { Cpu::FONT@[a] } else { 0u8 }),
            display: Seq::new(32, |r: int| Seq::new(64, |c: int| 0u8)),
            v: Seq::new(16, |i: int| 0u8),
            index: 0,
            pc: 0x200,
            stack: Seq::empty(),
            sound_timer: 0,
            delay_timer: 0,
            current_op: (0, 0, 0, 0),
            keys: Seq::new(16, |k: int| false),
        }
    }

    /// The initial state with `rom` copied to address `0x200` and upward.
    pub open spec fn loaded(rom: Seq<u8>) -> Machine {
        Machine {
            memory: Seq::new(
                4096,
                |a: int|
                    if 0x200 <= a < 0x200 + rom.len() {
                        rom[a - 0x200]
                    } else {
                        Machine::initial().memory[a]
                    },
            ),
            ..Machine::initial()
        }
    }

    // ----- operands of the current instruction -----
    /// The register index X.
    pub open spec fn x(self) -> int {
        self.current_op.1 as int
    }

    /// The register index Y.
    pub open spec fn y(self) -> int {
        self.current_op.2 as int
    }

    /// The 4-bit immediate N.
    pub open spec fn n(self) -> int {
        self.current_op.3 as int
    }

    /// The 8-bit immediate NN.
    pub open spec fn nn(self) -> u8 {
        (self.current_op.2 * 16 + self.current_op.3) as u8
    }

    /// The 12-bit address NNN.
    pub open spec fn nnn(self) -> int {
        self.current_op.1 * 256 + self.current_op.2 * 16 + self.current_op.3
    }

    // ----- frontend entry points -----
    pub open spec fn with_key(self, key: int, down: bool) -> Machine {
        Machine { keys: self.keys.update(key, down), ..self }
    }

    /// One timer tick: each timer moves one step toward zero.
    pub open spec fn tick(self) -> Machine {
        Machine {
            delay_timer: if self.delay_timer > 0 {
                (self.delay_timer - 1) as u8
            } else {
                0
            },
            sound_timer: if self.sound_timer > 0 {
                (self.sound_timer - 1) as u8
            } else {
                0
            },
            ..self
        }
    }

    // ----- fetch -----
    /// The nibbles of the big-endian word at the program counter.
    pub open spec fn next_opcode(self) -> Nibbles {
        let high = self.memory[self.pc];
        let low = self.memory[self.pc + 1];
        (high / 16, high % 16, low / 16, low % 16)
    }

    pub open spec fn with_pc(self, pc: int) -> Machine {
        Machine { pc, ..self }
    }

    /// The next instruction becomes the current one and the program counter
    /// moves past it.
    pub open spec fn fetch(self) -> Machine {
        Machine { current_op: self.next_opcode(), pc: self.pc + 2, ..self }
    }

    // ----- flow control -----
    pub open spec fn clear_display(self) -> Machine {
        Machine { display: Seq::new(32, |r: int| Seq::new(64, |c: int| 0u8)), ..self }
    }

    /// `00EE`: with an empty stack nothing changes.
    pub open spec fn subroutine_return(self) -> Machine {
        if self.stack.len() > 0 {
            Machine { pc: self.stack.last(), stack: self.stack.drop_last(), ..self }
        } else {
            self
        }
    }

    pub open spec fn jump(self, address: int) -> Machine {
        Machine { pc: address, ..self }
    }

    pub open spec fn call(self, address: int) -> Machine {
        Machine { pc: address, stack: self.stack.push(self.pc), ..self }
    }

    pub open spec fn skip_if(self, condition: bool) -> Machine {
        if condition {
            Machine { pc: self.pc + 2, ..self }
        } else {
            self
        }
    }

    pub open spec fn jump_offset(self, address: int) -> Machine {
        Machine { pc: address + self.v[0], ..self }
    }

    // ----- registers -----
    pub open spec fn with_register(self, x: int, value: u8) -> Machine {
        Machine { v: self.v.update(x, value), ..self }
    }

    /// `7XNN`: the flag register is not touched.
    pub open spec fn add_byte(self, x: int, byte: u8) -> Machine {
        self.with_register(x, ((self.v[x] + byte) % 256) as u8)
    }

    /// `8XY4`: the flag is written first, the sum last.
    pub open spec fn add_carry(self, x: int, y: int) -> Machine {
        let sum = self.v[x] + self.v[y];
        let carry = if sum > 255 {
            1u8
        } else {
            0u8
        };
        Machine { v: self.v.update(15, carry).update(x, (sum % 256) as u8), ..self }
    }

    /// `8XY5`: the flag says that there was no borrow, and `V[X]` holds
    /// the difference of the two registers as they stood before the
    /// instruction. The flag is written first, the difference last.
    pub open spec fn sub_borrow(self, x: int, y: int) -> Machine {
        let no_borrow = if self.v[x] >= self.v[y] {
            1u8
        } else {
            0u8
        };
        Machine {
            v: self.v.update(15, no_borrow).update(x, ((self.v[x] - self.v[y]) % 256) as u8),
            ..self
        }
    }

    /// `8XY7`: as `sub_borrow`, with the operands exchanged.
    pub open spec fn sub_reverse(self, x: int, y: int) -> Machine {
        let no_borrow = if self.v[y] >= self.v[x] {
            1u8
        } else {
            0u8
        };
        Machine {
            v: self.v.update(15, no_borrow).update(x, ((self.v[y] - self.v[x]) % 256) as u8),
            ..self
        }
    }

    /// `8XY6`: the flag takes the lowest bit of `V[X]`, and `V[X]` holds
    /// half of the value it came with. The flag is written first, the half
    /// last.
    pub open spec fn shift_right(self, x: int) -> Machine {
        Machine { v: self.v.update(15, self.v[x] % 2).update(x, self.v[x] / 2), ..self }
    }

    /// `8XYE`: the flag takes the highest bit of `V[X]`, and `V[X]` holds
    /// twice the value it came with, modulo 256. The flag is written first,
    /// the double last.
    pub open spec fn shift_left(self, x: int) -> Machine {
        Machine {
            v: self.v.update(15, self.v[x] / 128).update(x, ((self.v[x] * 2) % 256) as u8),
            ..self
        }
    }

    /// `CXNN`, for the byte that the random source gave.
    pub open spec fn random_masked(self, x: int, mask: u8, random: u8) -> Machine {
        self.with_register(x, random & mask)
    }

    // ----- index register and memory -----
    pub open spec fn with_index(self, index: int) -> Machine {
        Machine { index, ..self }
    }

    /// `FX1E`: the sum is stored first; the flag then says whether it left
    /// the 12-bit address space.
    pub open spec fn add_index(self, x: int) -> Machine {
        let sum = self.index + self.v[x];
        let flag = if sum > 0xFFF {
            1u8
        } else {
            0u8
        };
        Machine { index: sum, v: self.v.update(15, flag), ..self }
    }

    /// `FX29`: where the font sprite of digit `V[X]` starts.
    pub open spec fn font_address(self, x: int) -> Machine {
        Machine { index: self.v[x] * 5, ..self }
    }

    /// `FX33`: hundreds, tens, ones.
    pub open spec fn store_bcd(self, x: int) -> Machine {
        let value = self.v[x];
        Machine {
            memory: self.memory.update(self.index, value / 100).update(
                self.index + 1,
                (value / 10) % 10,
            ).update(self.index + 2, value % 10),
            ..self
        }
    }

    /// `FX55`: registers 0 to X inclusive go to memory at the index register.
    pub open spec fn store_registers(self, x: int) -> Machine {
        Machine {
            memory: Seq::new(
                self.memory.len(),
                |a: int|
                    if self.index <= a <= self.index + x {
                        self.v[a - self.index]
                    } else {
                        self.memory[a]
                    },
            ),
            ..self
        }
    }

    /// `FX65`: registers 0 to X inclusive are read from memory at the index
    /// register.
    pub open spec fn load_registers(self, x: int) -> Machine {
        Machine {
            v: Seq::new(
                self.v.len(),
                |i: int|
                    if 0 <= i <= x {
                        self.memory[self.index + i]
                    } else {
                        self.v[i]
                    },
            ),
            ..self
        }
    }

    // ----- keys and timers -----
    /// `k` is the lowest-numbered pressed key among keys 0 to 14.
    pub open spec fn is_lowest_pressed(self, k: int) -> bool {
        &&& 0 <= k < 15
        &&& self.keys[k]
        &&& forall|j: int| 0 <= j < k ==> !#[trigger] self.keys[j]
    }

    pub open spec fn any_key_pressed(self) -> bool {
        exists|k: int| 0 <= k < 15 && #[trigger] self.keys[k]
    }

    pub open spec fn lowest_pressed(self) -> int {
        choose|k: int| self.is_lowest_pressed(k)
    }

    /// `FX0A`: with a key among 0 to 14 down, the lowest such key goes to
    /// `V[X]`; with none, the program counter steps back onto this
    /// instruction, so that the next cycle runs it again.
    pub open spec fn wait_key(self, x: int) -> Machine {
        if self.any_key_pressed() {
            self.with_register(x, self.lowest_pressed() as u8)
        } else {
            Machine { pc: self.pc - 2, ..self }
        }
    }

    pub open spec fn with_delay(self, value: u8) -> Machine {
        Machine { delay_timer: value, ..self }
    }

    pub open spec fn with_sound(self, value: u8) -> Machine {
        Machine { sound_timer: value, ..self }
    }

    // ----- sprites -----
    /// The sprite's bit for the pixel at (`row`, `col`) when an `n`-line
    /// sprite is put with its top left corner at (`left`, `top`), both taken
    /// modulo the display's size: 1 where the sprite has a set bit there, 0
    /// where it has none or does not reach.
    pub open spec fn sprite_pixel(self, left: int, top: int, n: int, row: int, col: int) -> u8 {
        let line = (row - top) % 32;
        let bit = (col - left) % 64;
        if line < n && bit < 8 {
            (self.memory[self.index + line] >> ((7 - bit) as u8)) & 1
        } else {
            0
        }
    }

    /// The sprite has a set bit on a lit pixel.
    pub open spec fn collides(self, left: int, top: int, n: int) -> bool {
        exists|row: int, col: int|
            0 <= row < 32 && 0 <= col < 64 && (#[trigger] self.sprite_pixel(
                left,
                top,
                n,
                row,
                col,
            )) & self.display[row][col] == 1
    }

    /// The sprite has a set bit on an unlit pixel.
    pub open spec fn uncovers(self, left: int, top: int, n: int) -> bool {
        exists|row: int, col: int|
            0 <= row < 32 && 0 <= col < 64 && (#[trigger] self.sprite_pixel(
                left,
                top,
                n,
                row,
                col,
            )) == 1 && self.display[row][col] & 1 == 0
    }

    /// XORs the `n`-line sprite at the index register onto the display at
    /// (`left`, `top`), wrapping pixel by pixel; the flag says whether a lit
    /// pixel went dark.
    pub open spec fn blit(self, left: int, top: int, n: int) -> Machine {
        Machine {
            display: Seq::new(
                32,
                |r: int|
                    Seq::new(
                        64,
                        |c: int| self.display[r][c] ^ self.sprite_pixel(left, top, n, r, c),
                    ),
            ),
            v: self.v.update(
                15,
                if self.collides(left, top, n) {
                    1u8
                } else {
                    0u8
                },
            ),
            ..self
        }
    }

    /// `DXYN`: the position is read from the registers before the flag is
    /// written.
    pub open spec fn draw(self, x: int, y: int, n: int) -> Machine {
        self.blit(self.v[x] as int, self.v[y] as int, n)
    }

    // ----- one cycle -----
    /// The effect of the current instruction; `random` is the byte that the
    /// random source gives, which only `CXNN` reads.
    pub open spec fn execute(self, random: u8) -> Machine {
        let x = self.x();
        let y = self.y();
        match decode(self.current_op) {
            Some(Opcode::ClearScreen) => self.clear_display(),
            Some(Opcode::Return) => self.subroutine_return(),
            Some(Opcode::Jump) => self.jump(self.nnn()),
            Some(Opcode::Call) => self.call(self.nnn()),
            Some(Opcode::SkipEqualByte) => self.skip_if(self.v[x] == self.nn()),
            Some(Opcode::SkipNotEqualByte) => self.skip_if(self.v[x] != self.nn()),
            Some(Opcode::SkipEqual) => self.skip_if(self.v[x] == self.v[y]),
            Some(Opcode::LoadByte) => self.with_register(x, self.nn()),
            Some(Opcode::AddByte) => self.add_byte(x, self.nn()),
            Some(Opcode::Move) => self.with_register(x, self.v[y]),
            Some(Opcode::Or) => self.with_register(x, self.v[x] | self.v[y]),
            Some(Opcode::And) => self.with_register(x, self.v[x] & self.v[y]),
            Some(Opcode::Xor) => self.with_register(x, self.v[x] ^ self.v[y]),
            Some(Opcode::AddCarry) => self.add_carry(x, y),
            Some(Opcode::SubBorrow) => self.sub_borrow(x, y),
            Some(Opcode::ShiftRight) => self.shift_right(x),
            Some(Opcode::SubReverse) => self.sub_reverse(x, y),
            Some(Opcode::ShiftLeft) => self.shift_left(x),
            Some(Opcode::SkipNotEqual) => self.skip_if(self.v[x] != self.v[y]),
            Some(Opcode::LoadIndex) => self.with_index(self.nnn()),
            Some(Opcode::JumpOffset) => self.jump_offset(self.nnn()),
            Some(Opcode::Random) => self.random_masked(x, self.nn(), random),
            Some(Opcode::Draw) => self.draw(x, y, self.n()),
            Some(Opcode::SkipKey) => self.skip_if(self.keys[self.v[x] as int]),
            Some(Opcode::SkipNoKey) => self.skip_if(!self.keys[self.v[x] as int]),
            Some(Opcode::ReadDelay) => self.with_register(x, self.delay_timer),
            Some(Opcode::WaitKey) => self.wait_key(x),
            Some(Opcode::SetDelay) => self.with_delay(self.v[x]),
            Some(Opcode::SetSound) => self.with_sound(self.v[x]),
            Some(Opcode::AddIndex) => self.add_index(x),
            Some(Opcode::FontAddress) => self.font_address(x),
            Some(Opcode::StoreBcd) => self.store_bcd(x),
            Some(Opcode::StoreRegisters) => self.store_registers(x),
            Some(Opcode::LoadRegisters) => self.load_registers(x),
            None => self,
        }
    }

    /// What executing the current instruction reports.
    pub open spec fn execute_report(self) -> StepReport {
        if decode(self.current_op) == Some(Opcode::Return) && self.stack.len() == 0 {
            StepReport::ReturnOnEmptyStack
        } else {
            StepReport::Completed
        }
    }

    /// Why the current instruction cannot be executed, if it cannot.
    pub open spec fn execute_fault(self) -> Option<Fault> {
        let x = self.x();
        match decode(self.current_op) {
            None => Some(Fault::UnknownInstruction),
            Some(Opcode::Draw) => if self.n() > 0 && self.index + self.n() > 4096 {
                Some(Fault::AddressOutOfBounds)
            } else {
                None
            },
            Some(Opcode::SkipKey) | Some(Opcode::SkipNoKey) => if self.v[x] >= 16 {
                Some(Fault::KeyOutOfRange)
            } else {
                None
            },
            Some(Opcode::AddIndex) => if self.index + self.v[x] > 0xFFFF {
                Some(Fault::IndexOverflow)
            } else {
                None
            },
            Some(Opcode::StoreBcd) => if self.index + 2 >= 4096 {
                Some(Fault::AddressOutOfBounds)
            } else {
                None
            },
            Some(Opcode::StoreRegisters) | Some(Opcode::LoadRegisters) => if self.index + x
                >= 4096 {
                Some(Fault::AddressOutOfBounds)
            } else {
                None
            },
            Some(_) => None,
        }
    }

    /// Why a whole cycle cannot be run from this state, if it cannot.
    pub open spec fn fault(self) -> Option<Fault> {
        if self.pc + 1 >= 4096 {
            Some(Fault::FetchOutOfBounds)
        } else {
            self.fetch().execute_fault()
        }
    }

    /// One fetch-decode-execute cycle.
    pub open spec fn step(self, random: u8) -> Machine {
        self.fetch().execute(random)
    }

    pub open spec fn step_report(self) -> StepReport {
        self.fetch().execute_report()
    }
}

} // verus!
