//! The machine state, its mathematical view, and the operations that drive
//! it: construction, program loading, stepping, the timer tick and key
//! presses.
use vstd::prelude::*;
use crate::font::{FONT, FONT_SIZE, FONT_START};
use crate::decode::{decode, instruction_of, Instruction};
use crate::graphics::{blank_screen, screen_shape, HEIGHT, WIDTH};
use crate::semantics::{spec_execute, spec_step, word_at_pc};

pub mod ops;

verus! {

/// Bytes of memory; every address is taken modulo this size.
pub const MEMORY_SIZE: usize = 0x1000;

/// Address at which programs are loaded and execution starts.
pub const PROGRAM_START: u16 = 0x200;

/// The largest program image: it fills memory from `PROGRAM_START` to the
/// last address.
pub const MAX_ROM_SIZE: usize = 0xE00;

/// Number of return addresses the call stack holds.
pub const STACK_DEPTH: usize = 16;

/// The toggles that choose between the historically divergent behaviours
/// of a few instructions. Fixed when the machine is built.
#[derive(Clone, Copy, Debug, PartialEq, Eq, Structural)]
pub struct Options {
    /// `8XY6` and `8XYE` first copy `VY` into `VX`.
    pub shift_uses_vy: bool,
    /// `BNNN` adds `V0` to `nnn` (otherwise `VX`, the high nibble of `nnn`).
    pub jump_uses_v0: bool,
    /// `FX55` and `FX65` leave `I` past the last byte they moved.
    pub increment_i_on_memory_ops: bool,
}

/// The state of one machine. Only the engine changes it: through
/// `step`, `tick_timers`, `press_key`, the loader and the instruction
/// handlers in `ops`. The accessors below read it.
pub struct CPU {
    /// 4 KiB of memory.
    memory: [u8; 0x1000],
    /// Address of the next instruction.
    pc: u16,
    /// Counts down at 60 Hz to zero.
    delay_timer: u8,
    /// Counts down at 60 Hz to zero; a tone sounds while it is nonzero.
    sound_timer: u8,
    /// Return addresses, the most recent last.
    stack: Vec<u16>,
    /// The index register.
    i: u16,
    /// The registers `V0` to `VF`; `VF` doubles as the flag register.
    v: [u8; 16],
    /// The framebuffer, by row then column; `true` is lit.
    pixels: [[bool; 64]; 32],
    /// The behaviour toggles, set at construction.
    options: Options,
    /// While an `FX0A` waits for a key: the register `X` that receives it.
    waiting_for_key: Option<u8>,
}

/// What the surrounding program has to do after a step.
#[derive(Clone, Copy, Debug, PartialEq, Eq, Structural)]
pub enum Effect {
    /// Nothing: step again.
    Continue,
    /// The framebuffer was cleared: blank the display and present it.
    ScreenCleared,
    /// A sprite was drawn: present the framebuffer.
    SpriteDrawn,
    /// The machine waits for a key press; see `CPU::press_key`.
    AwaitingKey,
}

/// A failure that ends the run.
#[derive(Clone, Copy, Debug, PartialEq, Eq, Structural)]
pub enum Fault {
    /// The word fetched matches no instruction.
    UnknownOpcode(u16),
    /// `00EE` with an empty call stack.
    StackUnderflow,
    /// `2NNN` with a full call stack.
    StackOverflow,
}

/// Why a program image was refused.
#[derive(Clone, Copy, Debug, PartialEq, Eq, Structural)]
pub enum LoadError {
    /// The image would run past the last address of memory.
    RomTooLarge { len: usize },
}

/// The mathematical view of a `CPU`.
#[verifier::ext_equal]
pub struct Machine {
    pub memory: Seq<u8>,
    pub pc: u16,
    pub delay_timer: u8,
    pub sound_timer: u8,
    pub stack: Seq<u16>,
    pub i: u16,
    pub v: Seq<u8>,
    /// Rows of cells.
    pub pixels: Seq<Seq<bool>>,
    pub options: Options,
    pub waiting_for_key: Option<u8>,
}

impl Machine {
    /// The sizes that the `CPU`'s fixed arrays give every machine.
    pub open spec fn wf(self) -> bool {
        &&& self.memory.len() == MEMORY_SIZE
        &&& self.v.len() == 16
        &&& screen_shape(self.pixels)
    }
}

impl View for CPU {
    type V = Machine;

    closed spec fn view(&self) -> Machine {
        Machine {
            memory: self.memory@,
            pc: self.pc,
            delay_timer: self.delay_timer,
            sound_timer: self.sound_timer,
            stack: self.stack@,
            i: self.i,
            v: self.v@,
            pixels: Seq::new(HEIGHT as nat, |r: int| self.pixels@[r]@),
            options: self.options,
            waiting_for_key: self.waiting_for_key,
        }
    }
}

/// Every `CPU` has a well-formed view.
pub proof fn lemma_view_wf(cpu: &CPU)
    ensures
        cpu@.wf(),
{
    assert forall|r: int| 0 <= r < HEIGHT implies (#[trigger] cpu@.pixels[r]).len() == WIDTH by {
        assert(cpu@.pixels[r] == cpu.pixels@[r]@);
    }
}

/// Memory right after construction: zero but for the font glyphs.
pub open spec fn initial_memory() -> Seq<u8> {
    Seq::new(
        MEMORY_SIZE as nat,
        |a: int|
            if FONT_START <= a < FONT_START + FONT_SIZE {
                FONT@[a - FONT_START]
            } else {
                0u8
            },
    )
}

/// A machine right after construction with `options`.
pub open spec fn initial_machine(options: Options) -> Machine {
    Machine {
        memory: initial_memory(),
        pc: PROGRAM_START,
        delay_timer: 0,
        sound_timer: 0,
        stack: Seq::empty(),
        i: 0,
        v: Seq::new(16, |k: int| 0u8),
        pixels: blank_screen(),
        options,
        waiting_for_key: None,
    }
}

/// `m` with `rom` copied into memory from `PROGRAM_START` on.
pub open spec fn with_program(m: Machine, rom: Seq<u8>) -> Machine {
    Machine {
        memory: Seq::new(
            m.memory.len(),
            |a: int|
                if PROGRAM_START <= a < PROGRAM_START + rom.len() {
                    rom[a - PROGRAM_START]
                } else {
                    m.memory[a]
                },
        ),
        ..m
    }
}

/// One tick of the 60 Hz clock: each timer drops by one, stopping at zero.
pub open spec fn ticked(m: Machine) -> Machine {
    Machine {
        delay_timer: if m.delay_timer > 0 { (m.delay_timer - 1) as u8 } else { 0 },
        sound_timer: if m.sound_timer > 0 { (m.sound_timer - 1) as u8 } else { 0 },
        ..m
    }
}

/// A press of `key`: a machine waiting on `FX0A` stores it in the waiting
/// register and resumes; any other machine ignores it.
pub open spec fn key_pressed(m: Machine, key: u8) -> Machine {
    match m.waiting_for_key {
        Some(x) => Machine {
            v: if x < 16 { m.v.update(x as int, key) } else { m.v },
            waiting_for_key: None,
            ..m
        },
        None => m,
    }
}

impl CPU {
    /// A machine with zeroed memory but for the font, `pc` at
    /// `PROGRAM_START`, and everything else zero, empty or unlit.
    pub fn new(options: Options) -> (cpu: CPU)
        ensures
            cpu@ == initial_machine(options),
    {
        let mut memory = [0u8; 0x1000];
        let mut k: usize = 0;
        while k < FONT_SIZE
            invariant
                k <= FONT_SIZE,
                memory@.len() == MEMORY_SIZE,
                forall|a: int|
                    0 <= a < MEMORY_SIZE ==> #[trigger] memory@[a] == if FONT_START <= a
                        < FONT_START + k {
                        FONT@[a - FONT_START]
                    } else {
                        0u8
                    },
            decreases FONT_SIZE - k,
        {
            memory[FONT_START as usize + k] = FONT[k];
            k += 1;
        }
        let cpu = CPU {
            memory,
            pc: PROGRAM_START,
            delay_timer: 0,
            sound_timer: 0,
            stack: Vec::new(),
            i: 0,
            v: [0u8; 16],
            pixels: [[false; 64]; 32],
            options,
            waiting_for_key: None,
        };
        assert(cpu@.memory =~= initial_memory());
        assert(cpu@.v =~= Seq::new(16, |k: int| 0u8));
        assert(cpu@.pixels =~~= blank_screen());
        cpu
    }

    /// Copies `rom` into memory from `PROGRAM_START` on, or refuses it,
    /// changing nothing, when it would run past the last address.
    pub fn load_rom(&mut self, rom: Vec<u8>) -> (r: Result<(), LoadError>)
        ensures
            rom.len() > MAX_ROM_SIZE ==> r == Err::<(), LoadError>(LoadError::RomTooLarge { len: rom.len() })
                && final(self)@ == old(self)@,
            rom.len() <= MAX_ROM_SIZE ==> r is Ok && final(self)@ == with_program(old(self)@, rom@),
    {
        let len = rom.len();
        if len > MAX_ROM_SIZE {
            return Err(LoadError::RomTooLarge { len });
        }
        let mut k: usize = 0;
        while k < len
            invariant
                k <= len,
                len == rom.len(),
                len <= MAX_ROM_SIZE,
                self.memory@.len() == MEMORY_SIZE,
                forall|a: int|
                    0 <= a < MEMORY_SIZE ==> #[trigger] self.memory@[a] == if PROGRAM_START <= a
                        < PROGRAM_START + k {
                        rom@[a - PROGRAM_START]
                    } else {
                        old(self).memory@[a]
                    },
                self.pc == old(self).pc,
                self.delay_timer == old(self).delay_timer,
                self.sound_timer == old(self).sound_timer,
                self.stack == old(self).stack,
                self.i == old(self).i,
                self.v == old(self).v,
                self.pixels == old(self).pixels,
                self.options == old(self).options,
                self.waiting_for_key == old(self).waiting_for_key,
            decreases len - k,
        {
            self.memory[PROGRAM_START as usize + k] = rom[k];
            k += 1;
        }
        assert(self@.memory =~= with_program(old(self)@, rom@).memory);
        Ok(())
    }

    /// The 60 Hz timer tick: both timers drop by one, stopping at zero.
    pub fn tick_timers(&mut self)
        ensures
            final(self)@ == ticked(old(self)@),
    {
        if self.delay_timer > 0 {
            self.delay_timer = self.delay_timer - 1;
        }
        if self.sound_timer > 0 {
            self.sound_timer = self.sound_timer - 1;
        }
    }

    /// Reports a press of `key` (`0`..=`F`). A machine waiting on `FX0A`
    /// stores it and resumes, and the result is `true`; otherwise nothing
    /// changes and the result is `false`.
    pub fn press_key(&mut self, key: u8) -> (resumed: bool)
        requires
            key < 16,
        ensures
            final(self)@ == key_pressed(old(self)@, key),
            resumed == old(self)@.waiting_for_key is Some,
    {
        match self.waiting_for_key {
            Some(x) => {
                if x < 16 {
                    self.v[x as usize] = key;
                }
                self.waiting_for_key = None;
                true
            },
            None => false,
        }
    }
    /// The big-endian instruction word at `pc`: the byte at `pc` is the
    /// high byte, the next one the low byte, addresses modulo the memory
    /// size.
    pub fn fetch(&self) -> (opcode: u16)
        ensures
            opcode == word_at_pc(self@),
    {
        let pc = self.pc as usize;
        let high = self.memory[pc % MEMORY_SIZE];
        let low = self.memory[(pc + 1) % MEMORY_SIZE];
        proof {
            assert((high as u16) << 8 | low as u16 == high * 0x100 + low) by (bit_vector);
        }
        (high as u16) << 8 | low as u16
    }

    /// Decodes `opcode` and executes it. `keys[k]` tells whether key `k`
    /// is held, and `random` is the byte that `CXNN` uses. A word that
    /// matches no instruction, a return with an empty stack and a call with
    /// a full one are faults, and leave the machine as it was.
    pub fn execute_instruction(&mut self, opcode: u16, keys: &[bool; 16], random: u8) -> (r: Result<
        Effect,
        Fault,
    >)
        ensures
            (final(self)@, r) == spec_execute(old(self)@, instruction_of(opcode), keys@, random),
    {
        let go = Ok(Effect::Continue);
        match decode(opcode) {
            Instruction::ClearScreen => {
                ops::clear_screen(self);
                Ok(Effect::ScreenCleared)
            },
            Instruction::Return => match ops::return_from_subroutine(self) {
                Ok(()) => go,
                Err(f) => Err(f),
            },
            Instruction::Jump { nnn } => {
                ops::jump_to_address(self, nnn);
                go
            },
            Instruction::Call { nnn } => match ops::call_subroutine(self, nnn) {
                Ok(()) => go,
                Err(f) => Err(f),
            },
            Instruction::SkipIfEqualByte { x, nn } => {
                ops::skip_next_if_vx_equals_nn(self, x, nn);
                go
            },
            Instruction::SkipIfNotEqualByte { x, nn } => {
                ops::skip_next_if_vx_not_equals_nn(self, x, nn);
                go
            },
            Instruction::SkipIfEqual { x, y } => {
                ops::skip_next_if_vx_equals_vy(self, x, y);
                go
            },
            Instruction::SetByte { x, nn } => {
                ops::set_vx_to_nn(self, x, nn);
                go
            },
            Instruction::AddByte { x, nn } => {
                ops::add_nn_to_vx(self, x, nn);
                go
            },
            Instruction::Copy { x, y } => {
                ops::set_vx_to_vy(self, x, y);
                go
            },
            Instruction::Or { x, y } => {
                ops::set_vx_to_vx_or_vy(self, x, y);
                go
            },
            Instruction::And { x, y } => {
                ops::set_vx_to_vx_and_vy(self, x, y);
                go
            },
            Instruction::Xor { x, y } => {
                ops::set_vx_to_vx_xor_vy(self, x, y);
                go
            },
            Instruction::Add { x, y } => {
                ops::add_vy_to_vx(self, x, y);
                go
            },
            Instruction::Sub { x, y } => {
                ops::set_vx_to_vx_minus_vy(self, x, y);
                go
            },
            Instruction::ShiftRight { x, y } => {
                ops::shift_vx_right_by_one(self, x, y);
                go
            },
            Instruction::SubReversed { x, y } => {
                ops::set_vx_to_vy_minus_vx(self, x, y);
                go
            },
            Instruction::ShiftLeft { x, y } => {
                ops::shift_vx_left_by_one(self, x, y);
                go
            },
            Instruction::SkipIfNotEqual { x, y } => {
                ops::skip_next_if_vx_not_equals_vy(self, x, y);
                go
            },
            Instruction::SetIndex { nnn } => {
                ops::set_i_to_nnn(self, nnn);
                go
            },
            Instruction::JumpWithOffset { x, nnn } => {
                ops::jump_to_address_plus_v0(self, x, nnn);
                go
            },
            Instruction::Random { x, nn } => {
                ops::set_vx_to_byte_and_nn(self, x, nn, random);
                go
            },
            Instruction::Draw { x, y, n } => {
                ops::draw_sprite(self, x, y, n);
                Ok(Effect::SpriteDrawn)
            },
            Instruction::SkipIfKey { x } => {
                ops::skip_next_if_key_is_pressed(self, x, keys);
                go
            },
            Instruction::SkipIfNotKey { x } => {
                ops::skip_next_if_key_is_not_pressed(self, x, keys);
                go
            },
            Instruction::ReadDelay { x } => {
                ops::set_vx_to_delay_timer(self, x);
                go
            },
            Instruction::WaitKey { x } => {
                ops::wait_for_keypress(self, x);
                Ok(Effect::AwaitingKey)
            },
            Instruction::SetDelay { x } => {
                ops::set_delay_timer_to_vx(self, x);
                go
            },
            Instruction::SetSound { x } => {
                ops::set_sound_timer_to_vx(self, x);
                go
            },
            Instruction::AddIndex { x } => {
                ops::add_vx_to_i(self, x);
                go
            },
            Instruction::Glyph { x } => {
                ops::set_i_to_sprite_location(self, x);
                go
            },
            Instruction::Decimal { x } => {
                ops::set_bcd_of_vx_at_i(self, x);
                go
            },
            Instruction::Store { x } => {
                ops::store_registers_in_memory(self, x);
                go
            },
            Instruction::Load { x } => {
                ops::load_registers_from_memory(self, x);
                go
            },
            Instruction::Unknown { opcode } => Err(ops::unknown_opcode(opcode)),
        }
    }

    /// One cycle with the given random byte: a machine waiting for a key
    /// stays as it is; any other fetches the word at `pc`, moves `pc` past
    /// it, and executes it.
    pub fn step_with_random(&mut self, keys: &[bool; 16], random: u8) -> (r: Result<Effect, Fault>)
        ensures
            (final(self)@, r) == spec_step(old(self)@, keys@, random),
    {
        if let Some(_) = self.waiting_for_key {
            return Ok(Effect::AwaitingKey);
        }
        let opcode = self.fetch();
        self.pc = ops::next_pc(self.pc);
        self.execute_instruction(opcode, keys, random)
    }

    /// One cycle, with a byte drawn at random for `CXNN`: the outcome is
    /// that of `step_with_random` for some byte.
    pub fn step(&mut self, keys: &[bool; 16]) -> (r: Result<Effect, Fault>)
        ensures
            exists|random: u8| (final(self)@, r) == spec_step(old(self)@, keys@, random),
    {
        let random: u8 = rand::random::<u8>();
        self.step_with_random(keys, random)
    }
    /// Address of the next instruction.
    pub fn pc(&self) -> (pc: u16)
        ensures
            pc == self@.pc,
    {
        self.pc
    }

    /// The index register `I`.
    pub fn i(&self) -> (i: u16)
        ensures
            i == self@.i,
    {
        self.i
    }

    /// Register `Vx`.
    pub fn v(&self, x: u8) -> (value: u8)
        requires
            x < 16,
        ensures
            value == self@.v[x as int],
    {
        self.v[x as usize]
    }

    /// The registers `V0` to `VF`.
    pub fn registers(&self) -> (v: [u8; 16])
        ensures
            v@ == self@.v,
    {
        self.v
    }

    /// The whole of memory.
    pub fn memory(&self) -> (memory: &[u8; 0x1000])
        ensures
            memory@ == self@.memory,
    {
        &self.memory
    }

    /// The framebuffer, by row then column.
    pub fn pixels(&self) -> (pixels: &[[bool; 64]; 32])
        ensures
            forall|r: int| 0 <= r < HEIGHT ==> (#[trigger] pixels@[r])@ == self@.pixels[r],
    {
        &self.pixels
    }

    /// The return addresses on the call stack, the most recent last.
    pub fn stack(&self) -> (stack: &Vec<u16>)
        ensures
            stack@ == self@.stack,
    {
        &self.stack
    }

    /// The delay timer.
    pub fn delay_timer(&self) -> (t: u8)
        ensures
            t == self@.delay_timer,
    {
        self.delay_timer
    }

    /// The sound timer.
    pub fn sound_timer(&self) -> (t: u8)
        ensures
            t == self@.sound_timer,
    {
        self.sound_timer
    }

    /// The behaviour toggles the machine was built with.
    pub fn options(&self) -> (options: Options)
        ensures
            options == self@.options,
    {
        self.options
    }

    /// While an `FX0A` waits for a key: the register that receives it.
    pub fn waiting_for_key(&self) -> (x: Option<u8>)
        ensures
            x == self@.waiting_for_key,
    {
        self.waiting_for_key
    }
}

} // verus!
