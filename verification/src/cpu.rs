//! The executable processor.
use crate::machine::{Fault, Machine, StepReport};
use crate::opcode::{decode, decode_nibbles, nibbles_valid, Nibbles, Opcode};
use vstd::prelude::*;

verus! {

/// The processor: all of the interpreter's state. Its view is the abstract
/// [`Machine`] that the contracts speak of.
#[derive(Debug)]
pub struct Cpu {
    pub memory: [u8; 4096],
    /// Row first: `graphics[y][x]`.
    pub graphics: [[u8; 64]; 32],
    pub v: [u8; 16],
    pub index: u16,
    pub pc: u16,
    pub stack: Vec<u16>,
    pub sound_timer: u8,
    pub delay_timer: u8,
    pub current_op: Nibbles,
    pub key_pressed: [bool; 16],
}

impl View for Cpu {
    type V = Machine;

    open spec fn view(&self) -> Machine {
        Machine {
            memory: self.memory@,
            display: Seq::new(32, |r: int| self.graphics@[r]@),
            v: self.v@,
            index: self.index as int,
            pc: self.pc as int,
            stack: self.stack@.map_values(|a: u16| a as int),
            sound_timer: self.sound_timer,
            delay_timer: self.delay_timer,
            current_op: self.current_op,
            keys: self.key_pressed@,
        }
    }
}

proof fn lemma_split_word(high: u8, low: u8, command: u16)
    by (bit_vector)
    requires
        command == (high as u16) << 8u16 | (low as u16),
    ensures
        ((command >> 12u16) as u8) & 0xF == high / 16,
        ((command >> 8u16) as u8) & 0xF == high % 16,
        ((command >> 4u16) as u8) & 0xF == low / 16,
        (command as u8) & 0xF == low % 16,
{
}

impl Cpu {
    /// The built-in font: one 5-byte sprite for each hexadecimal digit.
    pub const FONT: [u8; 80] = [
        0xF0, 0x90, 0x90, 0x90, 0xF0,
        0x20, 0x60, 0x20, 0x20, 0x70,
        0xF0, 0x10, 0xF0, 0x80, 0xF0,
        0xF0, 0x10, 0xF0, 0x10, 0xF0,
        0x90, 0x90, 0xF0, 0x10, 0x10,
        0xF0, 0x80, 0xF0, 0x10, 0xF0,
        0xF0, 0x80, 0xF0, 0x90, 0xF0,
        0xF0, 0x10, 0x20, 0x40, 0x40,
        0xF0, 0x90, 0xF0, 0x90, 0xF0,
        0xF0, 0x90, 0xF0, 0x10, 0xF0,
        0xF0, 0x90, 0xF0, 0x90, 0x90,
        0xE0, 0x90, 0xE0, 0x90, 0xE0,
        0xF0, 0x80, 0x80, 0x80, 0xF0,
        0xE0, 0x90, 0x90, 0x90, 0xE0,
        0xF0, 0x80, 0xF0, 0x80, 0xF0,
        0xF0, 0x80, 0xF0, 0x80, 0x80,
    ];

    pub const GFX_HEIGHT: usize = 32;

    pub const GFX_WIDTH: usize = 64;

    /// The largest program that fits between `0x200` and `0xFFF`.
    pub const MAX_ROM_SIZE: usize = 3583;

    /// The nibbles of the current instruction are 4-bit values. Everything
    /// else that [`Machine::valid`] asks for holds of every `Cpu`.
    pub open spec fn wf(&self) -> bool {
        nibbles_valid(self.current_op)
    }

    /// A well-formed processor has a valid machine as its view.
    pub proof fn lemma_view_valid(&self)
        requires
            self.wf(),
        ensures
            self@.valid(),
    {
    }

    /// Memory as it is after power-on: the font, then zeroes.
    fn font_memory() -> (memory: [u8; 4096])
        ensures
            memory@ == Machine::initial().memory,
    {
        let mut memory = [0u8; 4096];
        let mut i: usize = 0;
        while i < 80
            invariant
                i <= 80,
                forall|a: int|
                    0 <= a < 4096 ==> memory@[a] == if a < i {
                        Cpu::FONT@[a]
                    } else {
                        0u8
                    },
            decreases 80 - i,
        {
            memory[i] = Cpu::FONT[i];
            i += 1;
        }
        memory
    }

    /// A processor in the initial state.
    pub fn new() -> (cpu: Cpu)
        ensures
            cpu@ == Machine::initial(),
            cpu.wf(),
    {
        let cpu = Cpu {
            memory: Cpu::font_memory(),
            graphics: [[0;64];32],
            v: [0;16],
            index: 0,
            pc: 0x200,
            stack: Vec::<u16>::new(),
            sound_timer: 0,
            delay_timer: 0,
            current_op: (0, 0, 0, 0),
            key_pressed: [false;16],
        };
        proof {
            assert(cpu@.display =~~= Machine::initial().display);
            assert(cpu@.stack =~= Machine::initial().stack);
        }
        cpu
    }

    /// Puts the processor back into the initial state.
    pub fn reset(&mut self)
        ensures
            final(self)@ == Machine::initial(),
            final(self).wf(),
    {
        self.memory = Cpu::font_memory();
        self.graphics = [[0;64];32];
        self.v = [0;16];
        self.index = 0;
        self.pc = 0x200;
        self.stack = Vec::<u16>::new();
        self.sound_timer = 0;
        self.delay_timer = 0;
        self.current_op = (0, 0, 0, 0);
        self.key_pressed = [false;16];
        proof {
            assert(self@.display =~~= Machine::initial().display);
            assert(self@.stack =~= Machine::initial().stack);
        }
    }

    /// One timer tick: each timer that is above zero goes down by one. The
    /// result says whether the sound timer is still above zero, that is,
    /// whether the tone is to sound.
    pub fn decrement_timers(&mut self) -> (tone: bool)
        ensures
            final(self)@ == old(self)@.tick(),
            tone == (final(self)@.sound_timer > 0),
    {
        if self.delay_timer > 0 {
            self.delay_timer -= 1;
        }
        if self.sound_timer > 0 {
            self.sound_timer -= 1;
        }
        self.sound_timer > 0
    }

    /// Resets the processor and copies `rom` to address `0x200` and upward.
    pub fn load_rom(&mut self, rom: &[u8])
        requires
            rom@.len() <= Cpu::MAX_ROM_SIZE,
        ensures
            final(self)@ == Machine::loaded(rom@),
            final(self).wf(),
    {
        self.reset();
        let len = rom.len();
        let mut i: usize = 0;
        while i < len
            invariant
                i <= len == rom@.len() <= Cpu::MAX_ROM_SIZE,
                self@ == (Machine { memory: self@.memory, ..Machine::initial() }),
                forall|a: int|
                    0 <= a < 4096 ==> #[trigger] self@.memory[a] == if 0x200 <= a < 0x200 + i {
                        rom@[a - 0x200]
                    } else {
                        Machine::initial().memory[a]
                    },
            decreases len - i,
        {
            self.memory[0x200 + i] = rom[i];
            i += 1;
        }
        proof {
            assert(self@.memory =~= Machine::loaded(rom@).memory);
        }
    }

    /// Marks `key` as held down.
    pub fn press_button(&mut self, key: usize)
        requires
            key < 16,
        ensures
            final(self)@ == old(self)@.with_key(key as int, true),
    {
        self.key_pressed[key] = true;
    }

    /// Marks `key` as released.
    pub fn release_button(&mut self, key: usize)
        requires
            key < 16,
        ensures
            final(self)@ == old(self)@.with_key(key as int, false),
    {
        self.key_pressed[key] = false;
    }

    /// The nibbles of the instruction at the program counter.
    pub fn peek_next_opcode(&self) -> (op: Nibbles)
        requires
            self.pc + 1 < 4096,
        ensures
            op == self@.next_opcode(),
            nibbles_valid(op),
    {
        let pc = self.pc as usize;
        let high = self.memory[pc];
        let low = self.memory[pc + 1];
        let command: u16 = ((high as u16) << 8) | (low as u16);
        proof {
            lemma_split_word(high, low, command);
        }
        (
            #[verifier::truncate]
            ((command >> 12) as u8) & 0xF,
            #[verifier::truncate]
            ((command >> 8) as u8) & 0xF,
            #[verifier::truncate]
            ((command >> 4) as u8) & 0xF,
            #[verifier::truncate]
            (command as u8) & 0xF,
        )
    }

    /// Fetch: reads the instruction at the program counter and moves the
    /// program counter past it.
    pub fn get_next_opcode(&mut self) -> (op: Nibbles)
        requires
            old(self).pc + 1 < 4096,
        ensures
            op == old(self)@.next_opcode(),
            nibbles_valid(op),
            final(self)@ == old(self)@.with_pc(old(self)@.pc + 2),
    {
        let op = self.peek_next_opcode();
        self.pc += 2;
        op
    }

    /// Says why [`Cpu::advance_state`] cannot be called in this state, or
    /// `None` when it can.
    pub fn step_fault(&self) -> (fault: Option<Fault>)
        ensures
            fault == self@.fault(),
    {
        if self.pc >= 4095 {
            return Some(Fault::FetchOutOfBounds);
        }
        let op = self.peek_next_opcode();
        let x = op.1 as usize;
        let n = op.3 as usize;
        let index = self.index as usize;
        match decode_nibbles(op) {
            None => Some(Fault::UnknownInstruction),
            Some(Opcode::Draw) => if n > 0 && index + n > 4096 {
                Some(Fault::AddressOutOfBounds)
            } else {
                None
            },
            Some(Opcode::SkipKey) | Some(Opcode::SkipNoKey) => if self.v[x] >= 16 {
                Some(Fault::KeyOutOfRange)
            } else {
                None
            },
            Some(Opcode::AddIndex) => if index + self.v[x] as usize > 0xFFFF {
                Some(Fault::IndexOverflow)
            } else {
                None
            },
            Some(Opcode::StoreBcd) => if index + 2 >= 4096 {
                Some(Fault::AddressOutOfBounds)
            } else {
                None
            },
            Some(Opcode::StoreRegisters) | Some(Opcode::LoadRegisters) => if index + x >= 4096 {
                Some(Fault::AddressOutOfBounds)
            } else {
                None
            },
            Some(_) => None,
        }
    }

    /// One fetch-decode-execute cycle. Only `CXNN` reads the random source,
    /// so for every other instruction the state afterwards is the same for
    /// each `random`.
    pub fn execute_next_op(&mut self) -> (report: StepReport)
        requires
            old(self)@.fault() is None,
        ensures
            exists|random: u8| final(self)@ == #[trigger] old(self)@.step(random),
            report == old(self)@.step_report(),
            final(self).wf(),
    {
        self.current_op = self.get_next_opcode();
        let ghost fetched = self@;
        assert(fetched == old(self)@.fetch());
        let mut report = StepReport::Completed;
        match decode_nibbles(self.current_op) {
            Some(Opcode::ClearScreen) => self.clear_screen(),
            Some(Opcode::Return) => {
                if !self.op_00ee() {
                    report = StepReport::ReturnOnEmptyStack;
                }
            },
            Some(Opcode::Jump) => self.op_1nnn(),
            Some(Opcode::Call) => self.op_2nnn(),
            Some(Opcode::SkipEqualByte) => self.op_3xnn(),
            Some(Opcode::SkipNotEqualByte) => self.op_4xnn(),
            Some(Opcode::SkipEqual) => self.op_5xy0(),
            Some(Opcode::LoadByte) => self.op_6xnn(),
            Some(Opcode::AddByte) => self.op_7xnn(),
            Some(Opcode::Move) => self.op_8xy0(),
            Some(Opcode::Or) => self.op_8xy1(),
            Some(Opcode::And) => self.op_8xy2(),
            Some(Opcode::Xor) => self.op_8xy3(),
            Some(Opcode::AddCarry) => self.op_8xy4(),
            Some(Opcode::SubBorrow) => self.op_8xy5(),
            Some(Opcode::ShiftRight) => self.op_8xy6(),
            Some(Opcode::SubReverse) => self.op_8xy7(),
            Some(Opcode::ShiftLeft) => self.op_8xye(),
            Some(Opcode::SkipNotEqual) => self.op_9xy0(),
            Some(Opcode::LoadIndex) => self.op_annn(),
            Some(Opcode::JumpOffset) => self.op_bnnn(),
            Some(Opcode::Random) => {
                self.op_cxnn();
                proof {
                    let random = choose|random: u8|
                        self@ == #[trigger] fetched.random_masked(
                            fetched.x(),
                            fetched.nn(),
                            random,
                        );
                    assert(self@ == old(self)@.step(random));
                }
            },
            Some(Opcode::Draw) => self.op_dxyn(),
            Some(Opcode::SkipKey) => self.op_ex9e(),
            Some(Opcode::SkipNoKey) => self.op_exa1(),
            Some(Opcode::ReadDelay) => self.op_fx07(),
            Some(Opcode::WaitKey) => self.op_fx0a(),
            Some(Opcode::SetDelay) => self.op_fx15(),
            Some(Opcode::SetSound) => self.op_fx18(),
            Some(Opcode::AddIndex) => self.op_fx1e(),
            Some(Opcode::FontAddress) => self.op_fx29(),
            Some(Opcode::StoreBcd) => self.op_fx33(),
            Some(Opcode::StoreRegisters) => self.op_fx55(),
            Some(Opcode::LoadRegisters) => self.op_fx65(),
            None => {
                // A state whose next instruction is not in the table has a
                // fault, which the precondition rules out.
                assert(false);
            },
        }
        proof {
            if decode(fetched.current_op) != Some(Opcode::Random) {
                assert(self@ == old(self)@.step(0));
            }
        }
        report
    }

    /// Runs one cycle: fetches the instruction at the program counter,
    /// decodes it and executes it. It can be called wherever
    /// [`Cpu::step_fault`] gives `None`.
    pub fn advance_state(&mut self) -> (report: StepReport)
        requires
            old(self)@.fault() is None,
        ensures
            exists|random: u8| final(self)@ == #[trigger] old(self)@.step(random),
            report == old(self)@.step_report(),
            final(self).wf(),
    {
        self.execute_next_op()
    }
}

} // verus!
