use vstd::prelude::*;

use crate::display::{draw_sprite, sprite_erases, Display, CELLS};
use crate::instruction::{decode_spec, lemma_decoded_operands_in_range, DecodeError, Instruction};
use crate::keyboard::{Key, Keyboard, KEY_COUNT};
use crate::memory::{
    initial_memory, Memory, DIGITS_OFFSET, DIGIT_AMOUNT, DIGIT_SPRITE_LENGTH, MEMORY_SIZE,
    PROGRAM_OFFSET,
};

verus! {

/// Why one step of the machine failed. A failed step changes nothing.
#[derive(Debug, Clone, Copy, PartialEq, Eq, Structural)]
pub enum StepError {
    /// The word at the program counter names no instruction.
    Decode(DecodeError),
    /// A return with no subroutine to return from.
    StackUnderflow,
    /// An access that would reach past the end of memory; carries the
    /// address it starts from.
    AddressOutOfRange(usize),
    /// A digit glyph asked for a register value above 15.
    InvalidDigit(u8),
    /// A key test on a register value above 15.
    InvalidKey(u8),
}

/// Everything the processor holds, as mathematical values.
pub struct EmulatorView {
    pub memory: Seq<u8>,
    pub registers: Seq<u8>,
    pub i: u16,
    pub delay_timer: u8,
    pub sound_timer: u8,
    pub program_counter: int,
    pub stack: Seq<usize>,
}

impl EmulatorView {
    /// The same state with the program counter at `pc`.
    pub open spec fn at(self, pc: int) -> EmulatorView {
        EmulatorView { program_counter: pc, ..self }
    }

    /// The same state, moved on to the next instruction.
    pub open spec fn advance(self) -> EmulatorView {
        self.at(self.program_counter + 2)
    }

    /// The same state, moved past the next instruction when `skip` holds and
    /// on to it otherwise.
    pub open spec fn skip_if(self, skip: bool) -> EmulatorView {
        self.at(self.program_counter + if skip { 4int } else { 2int })
    }

    /// The same state with register `x` holding `v`.
    pub open spec fn set_reg(self, x: int, v: u8) -> EmulatorView {
        EmulatorView { registers: self.registers.update(x, v), ..self }
    }

    /// The same state with the flag register VF holding `v`, and then
    /// register `x` holding `r` (so that `r` wins where `x` is VF).
    pub open spec fn set_flag_then(self, v: u8, x: int, r: u8) -> EmulatorView {
        self.set_reg(0xF, v).set_reg(x, r)
    }

    /// The word stored at the program counter, high byte first.
    pub open spec fn fetch(self) -> u16 {
        (self.memory[self.program_counter] * 0x100 + self.memory[self.program_counter + 1]) as u16
    }
}

/// Lowest code among the first `n` keys that is pressed in `keys`.
pub open spec fn lowest_pressed(keys: Seq<bool>, n: int) -> Option<int>
    decreases n,
{
    if n <= 0 {
        None
    } else {
        match lowest_pressed(keys, n - 1) {
            Some(k) => Some(k),
            None => if keys[n - 1] {
                Some(n - 1)
            } else {
                None
            },
        }
    }
}

/// A screen with every pixel off.
pub open spec fn blank_screen() -> Seq<bool> {
    Seq::new(CELLS as nat, |k: int| false)
}

/// Whether `len` bytes from address `start` lie inside memory.
pub open spec fn in_memory(start: int, len: int) -> bool {
    start + len <= MEMORY_SIZE
}

/// Hundreds, tens and ones digit of `v`.
pub open spec fn bcd_digit(v: u8, place: int) -> u8 {
    if place == 0 {
        (v / 100) as u8
    } else if place == 1 {
        (v / 10 % 10) as u8
    } else {
        (v % 10) as u8
    }
}

/// Effect of the instructions that touch neither the screen, the keypad nor
/// the random source. The others are given by `execute`.
pub open spec fn cpu_step(s: EmulatorView, ins: Instruction) -> Result<EmulatorView, StepError> {
    let r = s.registers;
    match ins {
        Instruction::Ret => if s.stack.len() == 0 {
            Err(StepError::StackUnderflow)
        } else {
            Ok(
                EmulatorView {
                    stack: s.stack.drop_last(),
                    program_counter: s.stack.last() + 2,
                    ..s
                },
            )
        },
        Instruction::Jp { addr } => Ok(s.at(addr as int)),
        Instruction::Call { addr } => Ok(
            EmulatorView {
                stack: s.stack.push(s.program_counter as usize),
                program_counter: addr as int,
                ..s
            },
        ),
        Instruction::SeV { vx, byte } => Ok(s.skip_if(r[vx as int] == byte)),
        Instruction::SneV { vx, byte } => Ok(s.skip_if(r[vx as int] != byte)),
        Instruction::SeVV { vx, vy } => Ok(s.skip_if(r[vx as int] == r[vy as int])),
        Instruction::SneVV { vx, vy } => Ok(s.skip_if(r[vx as int] != r[vy as int])),
        Instruction::LdV { vx, byte } => Ok(s.set_reg(vx as int, byte).advance()),
        Instruction::AddV { vx, byte } => Ok(
            s.set_reg(vx as int, ((r[vx as int] + byte) % 256) as u8).advance(),
        ),
        Instruction::LdVV { vx, vy } => Ok(s.set_reg(vx as int, r[vy as int]).advance()),
        Instruction::OrVV { vx, vy } => Ok(s.set_reg(vx as int, r[vx as int] | r[vy as int]).advance()),
        Instruction::AndVV { vx, vy } => Ok(
            s.set_reg(vx as int, r[vx as int] & r[vy as int]).advance(),
        ),
        Instruction::XorVV { vx, vy } => Ok(
            s.set_reg(vx as int, r[vx as int] ^ r[vy as int]).advance(),
        ),
        Instruction::AddVV { vx, vy } => {
            let sum = r[vx as int] + r[vy as int];
            Ok(
                s.set_flag_then(
                    if sum >= 256 {
                        1u8
                    } else {
                        0u8
                    },
                    vx as int,
                    (sum % 256) as u8,
                ).advance(),
            )
        },
        Instruction::SubVV { vx, vy } => {
            let (a, b) = (r[vx as int], r[vy as int]);
            Ok(
                s.set_flag_then(
                    if a >= b {
                        1u8
                    } else {
                        0u8
                    },
                    vx as int,
                    ((a - b + 256) % 256) as u8,
                ).advance(),
            )
        },
        Instruction::ShrVV { vx, .. } => {
            let a = r[vx as int];
            Ok(s.set_flag_then((a % 2) as u8, vx as int, (a / 2) as u8).advance())
        },
        Instruction::SubnVV { vx, vy } => {
            let (a, b) = (r[vx as int], r[vy as int]);
            Ok(
                s.set_flag_then(
                    if b >= a {
                        1u8
                    } else {
                        0u8
                    },
                    vx as int,
                    ((b - a + 256) % 256) as u8,
                ).advance(),
            )
        },
        Instruction::ShlVV { vx, .. } => {
            let a = r[vx as int];
            Ok(
                s.set_flag_then(
                    if a >= 0x80 {
                        1u8
                    } else {
                        0u8
                    },
                    vx as int,
                    (a * 2 % 256) as u8,
                ).advance(),
            )
        },
        Instruction::LdI { addr } => Ok(EmulatorView { i: addr as u16, ..s }.advance()),
        Instruction::JpV { addr } => Ok(s.at(addr + r[0])),
        Instruction::LdVDt { vx } => Ok(s.set_reg(vx as int, s.delay_timer).advance()),
        Instruction::LdDtV { vx } => Ok(EmulatorView { delay_timer: r[vx as int], ..s }.advance()),
        Instruction::LdStV { vx } => Ok(EmulatorView { sound_timer: r[vx as int], ..s }.advance()),
        Instruction::AddIV { vx } => Ok(
            EmulatorView { i: ((s.i + r[vx as int]) % 0x10000) as u16, ..s }.advance(),
        ),
        Instruction::LdFV { vx } => if r[vx as int] >= DIGIT_AMOUNT {
            Err(StepError::InvalidDigit(r[vx as int]))
        } else {
            Ok(
                EmulatorView {
                    i: (DIGITS_OFFSET + r[vx as int] * DIGIT_SPRITE_LENGTH) as u16,
                    ..s
                }.advance(),
            )
        },
        Instruction::LdBV { vx } => if !in_memory(s.i as int, 3) {
            Err(StepError::AddressOutOfRange(s.i as usize))
        } else {
            let v = r[vx as int];
            Ok(
                EmulatorView {
                    memory: s.memory.update(s.i as int, bcd_digit(v, 0)).update(
                        s.i + 1,
                        bcd_digit(v, 1),
                    ).update(s.i + 2, bcd_digit(v, 2)),
                    ..s
                }.advance(),
            )
        },
        Instruction::LdIV { vx } => if !in_memory(s.i as int, vx + 1) {
            Err(StepError::AddressOutOfRange(s.i as usize))
        } else {
            Ok(
                EmulatorView {
                    memory: Seq::new(
                        s.memory.len(),
                        |k: int|
                            if s.i <= k <= s.i + vx {
                                r[k - s.i]
                            } else {
                                s.memory[k]
                            },
                    ),
                    ..s
                }.advance(),
            )
        },
        Instruction::LdVI { vx } => if !in_memory(s.i as int, vx + 1) {
            Err(StepError::AddressOutOfRange(s.i as usize))
        } else {
            Ok(
                EmulatorView {
                    registers: Seq::new(
                        r.len(),
                        |k: int|
                            if k <= vx {
                                s.memory[s.i + k]
                            } else {
                                r[k]
                            },
                    ),
                    ..s
                }.advance(),
            )
        },
        _ => Ok(s),
    }
}

/// Effect of instruction `ins` on processor state `s` and screen `screen`,
/// with the keypad in state `keys` and `random` as the byte drawn for a
/// random instruction.
pub open spec fn execute(
    s: EmulatorView,
    screen: Seq<bool>,
    keys: Seq<bool>,
    random: u8,
    ins: Instruction,
) -> Result<(EmulatorView, Seq<bool>), StepError> {
    let r = s.registers;
    match ins {
        Instruction::Cls => Ok((s.advance(), blank_screen())),
        Instruction::RndV { vx, byte } => Ok((s.set_reg(vx as int, random & byte).advance(), screen)),
        Instruction::Drw { vx, vy, n } => if !in_memory(s.i as int, n as int) {
            Err(StepError::AddressOutOfRange(s.i as usize))
        } else {
            let sprite = s.memory.subrange(s.i as int, s.i + n);
            let (x, y) = (r[vx as int] as int, r[vy as int] as int);
            let erased = sprite_erases(screen, x, y, sprite);
            Ok(
                (
                    s.set_reg(
                        0xF,
                        if erased {
                            1u8
                        } else {
                            0u8
                        },
                    ).advance(),
                    draw_sprite(screen, x, y, sprite),
                ),
            )
        },
        Instruction::SkpV { vx } => if r[vx as int] >= KEY_COUNT {
            Err(StepError::InvalidKey(r[vx as int]))
        } else {
            Ok((s.skip_if(keys[r[vx as int] as int]), screen))
        },
        Instruction::SknpV { vx } => if r[vx as int] >= KEY_COUNT {
            Err(StepError::InvalidKey(r[vx as int]))
        } else {
            Ok((s.skip_if(!keys[r[vx as int] as int]), screen))
        },
        Instruction::LdVK { vx } => match lowest_pressed(keys, KEY_COUNT as int) {
            Some(k) => Ok((s.set_reg(vx as int, k as u8).advance(), screen)),
            None => Ok((s, screen)),
        },
        _ => match cpu_step(s, ins) {
            Ok(t) => Ok((t, screen)),
            Err(e) => Err(e),
        },
    }
}

/// One step: fetch the word at the program counter, decode it and execute
/// it.
pub open spec fn step_spec(
    s: EmulatorView,
    screen: Seq<bool>,
    keys: Seq<bool>,
    random: u8,
) -> Result<(EmulatorView, Seq<bool>), StepError> {
    if !(0 <= s.program_counter && in_memory(s.program_counter, 2)) {
        Err(StepError::AddressOutOfRange(s.program_counter as usize))
    } else {
        match decode_spec(s.fetch()) {
            None => Err(StepError::Decode(DecodeError { word: s.fetch() })),
            Some(ins) => execute(s, screen, keys, random, ins),
        }
    }
}

/// The processor: registers, timers, program counter, call stack and the
/// memory it runs from.
pub struct Emulator {
    pub memory: Memory,
    pub registers: [u8; 16],
    pub i: u16,
    pub delay_timer: u8,
    pub sound_timer: u8,
    pub program_counter: usize,
    pub stack: Vec<usize>,
}

impl View for Emulator {
    type V = EmulatorView;

    open spec fn view(&self) -> EmulatorView {
        EmulatorView {
            memory: self.memory@,
            registers: self.registers@,
            i: self.i,
            delay_timer: self.delay_timer,
            sound_timer: self.sound_timer,
            program_counter: self.program_counter as int,
            stack: self.stack@,
        }
    }
}

/// Whether a step from `before` on screen `screen_before`, with the keypad
/// in state `keys` and `random` drawn, ended in `after` and `screen_after`
/// with result `r`; a failed step changes nothing.
pub open spec fn steps_to(
    before: EmulatorView,
    screen_before: Seq<bool>,
    keys: Seq<bool>,
    random: u8,
    after: EmulatorView,
    screen_after: Seq<bool>,
    r: Result<(), StepError>,
) -> bool {
    match r {
        Ok(()) => step_spec(before, screen_before, keys, random) == Ok::<(EmulatorView, Seq<bool>), StepError>((after, screen_after)),
        Err(e) => step_spec(before, screen_before, keys, random) == Err::<(EmulatorView, Seq<bool>), StepError>(e) && after == before
            && screen_after == screen_before,
    }
}

/// Relies on rand::random: a byte drawn from the thread-local generator.
/// Nothing is known of its value.
#[verifier::external_body]
fn random_byte() -> u8 {
    rand::random::<u8>()
}

impl Emulator {
    /// Every return address saved on the call stack lies inside memory.
    pub open spec fn wf(&self) -> bool {
        forall|k: int| 0 <= k < self.stack@.len() ==> self.stack@[k] < MEMORY_SIZE
    }

    /// Loads `rom` into memory and sets up the processor to run it.
    pub fn new(rom: &[u8]) -> (r: Emulator)
        requires
            PROGRAM_OFFSET + rom@.len() <= MEMORY_SIZE,
        ensures
            r.wf(),
            r@ == (EmulatorView {
                memory: initial_memory(rom@),
                registers: Seq::new(16, |k: int| 0u8),
                i: 0,
                delay_timer: 0,
                sound_timer: 0,
                program_counter: PROGRAM_OFFSET as int,
                stack: Seq::empty(),
            }),
    {
        let memory = Memory::new(rom);
        let r = Emulator {
            memory,
            registers: [0u8; 16],
            i: 0,
            delay_timer: 0,
            sound_timer: 0,
            program_counter: PROGRAM_OFFSET,
            stack: Vec::new(),
        };
        assert(r.registers@ =~= Seq::new(16, |k: int| 0u8));
        r
    }

    /// Counts both timers down by one tick, stopping at zero.
    pub fn decrement_timers(&mut self)
        ensures
            final(self)@ == (EmulatorView {
                delay_timer: if old(self).delay_timer > 0 {
                    (old(self).delay_timer - 1) as u8
                } else {
                    0u8
                },
                sound_timer: if old(self).sound_timer > 0 {
                    (old(self).sound_timer - 1) as u8
                } else {
                    0u8
                },
                ..old(self)@
            }),
    {
        self.delay_timer = self.delay_timer.saturating_sub(1);
        self.sound_timer = self.sound_timer.saturating_sub(1);
    }

    /// Returns whether the buzzer sounds: while the sound timer is above zero.
    pub fn is_sound_playing(&self) -> (r: bool)
        ensures
            r == (self.sound_timer > 0),
    {
        0 < self.sound_timer
    }

    /// Runs one instruction, with `random` as the byte that a random
    /// instruction draws.
    pub fn step(&mut self, display: &mut Display, keyboard: &Keyboard, random: u8) -> (r: Result<
        (),
        StepError,
    >)
        requires
            old(self).wf(),
        ensures
            final(self).wf(),
            steps_to(
                old(self)@,
                old(display)@,
                keyboard@,
                random,
                final(self)@,
                final(display)@,
                r,
            ),
    {
        proof {
            self.memory.lemma_size();
            display.lemma_size();
            keyboard.lemma_size();
        }
        if self.program_counter >= MEMORY_SIZE - 1 {
            return Err(StepError::AddressOutOfRange(self.program_counter));
        }
        let word = self.memory.get_instruction(self.program_counter);
        assert(word == self@.fetch());
        let ins = match Instruction::decode(word) {
            Ok(ins) => ins,
            Err(e) => return Err(StepError::Decode(e)),
        };
        proof {
            lemma_decoded_operands_in_range(word);
        }
        let next = match ins {
            Instruction::Cls => self.cls(display),
            Instruction::Ret => match self.ret() {
                Ok(pc) => pc,
                Err(e) => return Err(e),
            },
            Instruction::Jp { addr } => self.jp(addr),
            Instruction::Call { addr } => self.call(addr),
            Instruction::SeV { vx, byte } => self.se_v(vx, byte),
            Instruction::SneV { vx, byte } => self.sne_v(vx, byte),
            Instruction::SeVV { vx, vy } => self.se_v_v(vx, vy),
            Instruction::LdV { vx, byte } => self.ld_v(vx, byte),
            Instruction::AddV { vx, byte } => self.add_v(vx, byte),
            Instruction::LdVV { vx, vy } => self.ld_v_v(vx, vy),
            Instruction::OrVV { vx, vy } => self.or_v_v(vx, vy),
            Instruction::AndVV { vx, vy } => self.and_v_v(vx, vy),
            Instruction::XorVV { vx, vy } => self.xor_v_v(vx, vy),
            Instruction::AddVV { vx, vy } => self.add_v_v(vx, vy),
            Instruction::SubVV { vx, vy } => self.sub_v_v(vx, vy),
            Instruction::ShrVV { vx, .. } => self.shr_v_v(vx),
            Instruction::SubnVV { vx, vy } => self.subn_v_v(vx, vy),
            Instruction::ShlVV { vx, .. } => self.shl_v_v(vx),
            Instruction::SneVV { vx, vy } => self.sne_v_v(vx, vy),
            Instruction::LdI { addr } => self.ld_i(addr),
            Instruction::JpV { addr } => self.jp_v(addr),
            Instruction::RndV { vx, byte } => self.rnd_v(vx, byte, random),
            Instruction::Drw { vx, vy, n } => match self.drw(vx, vy, n, display) {
                Ok(pc) => pc,
                Err(e) => return Err(e),
            },
            Instruction::SkpV { vx } => match self.skp_v(vx, keyboard) {
                Ok(pc) => pc,
                Err(e) => return Err(e),
            },
            Instruction::SknpV { vx } => match self.sknp_v(vx, keyboard) {
                Ok(pc) => pc,
                Err(e) => return Err(e),
            },
            Instruction::LdVDt { vx } => self.ld_v_dt(vx),
            Instruction::LdVK { vx } => self.ld_v_k(vx, keyboard),
            Instruction::LdDtV { vx } => self.ld_dt_v(vx),
            Instruction::LdStV { vx } => self.ld_st_v(vx),
            Instruction::AddIV { vx } => self.add_i_v(vx),
            Instruction::LdFV { vx } => match self.ld_f_v(vx) {
                Ok(pc) => pc,
                Err(e) => return Err(e),
            },
            Instruction::LdBV { vx } => match self.ld_b_v(vx) {
                Ok(pc) => pc,
                Err(e) => return Err(e),
            },
            Instruction::LdIV { vx } => match self.ld_i_v(vx) {
                Ok(pc) => pc,
                Err(e) => return Err(e),
            },
            Instruction::LdVI { vx } => match self.ld_v_i(vx) {
                Ok(pc) => pc,
                Err(e) => return Err(e),
            },
        };
        self.program_counter = next;
        Ok(())
    }

    /// Runs one instruction; a random instruction draws its byte from the
    /// thread-local generator.
    pub fn tick(&mut self, display: &mut Display, keyboard: &Keyboard) -> (r: Result<(), StepError>)
        requires
            old(self).wf(),
        ensures
            final(self).wf(),
            exists|random: u8|
                steps_to(
                    old(self)@,
                    old(display)@,
                    keyboard@,
                    random,
                    final(self)@,
                    final(display)@,
                    r,
                ),
    {
        let random = random_byte();
        self.step(display, keyboard, random)
    }
}

/// Once a pressed key is found among the first `m` keys, looking at more
/// keys finds the same one.
proof fn lemma_lowest_pressed_stays(keys: Seq<bool>, m: int, n: int)
    requires
        m <= n,
        lowest_pressed(keys, m) is Some,
    ensures
        lowest_pressed(keys, n) == lowest_pressed(keys, m),
    decreases n - m,
{
    if m < n {
        lemma_lowest_pressed_stays(keys, m, n - 1);
    }
}

impl Emulator {
    /// Clears the display (0x00E0).
    fn cls(&self, display: &mut Display) -> (r: usize)
        requires
            self.program_counter < MEMORY_SIZE,
        ensures
            final(display)@ == blank_screen(),
            r == self.program_counter + 2,
    {
        display.clear();
        assert(final(display)@ =~= blank_screen());
        self.program_counter + 2
    }

    /// Returns from a subroutine (0x00EE).
    fn ret(&mut self) -> (r: Result<usize, StepError>)
        requires
            old(self).program_counter < MEMORY_SIZE,
            old(self).wf(),
        ensures
            final(self).program_counter == old(self).program_counter,
            final(self).wf(),
            match r {
                Ok(pc) => cpu_step(old(self)@, Instruction::Ret) == Ok::<EmulatorView, StepError>(final(self)@.at(pc as int)),
                Err(e) => cpu_step(old(self)@, Instruction::Ret) == Err::<EmulatorView, StepError>(e) && final(self)@ == old(self)@,
            },
    {
        match self.stack.pop() {
            Some(addr) => {
                assert(self.stack@ =~= old(self).stack@.drop_last());
                Ok(addr + 2)
            },
            None => Err(StepError::StackUnderflow),
        }
    }

    /// Jumps to nnn (0x1nnn).
    fn jp(&self, addr: usize) -> (r: usize)
        requires
            self.program_counter < MEMORY_SIZE,
            addr < MEMORY_SIZE,
        ensures
            cpu_step(self@, Instruction::Jp { addr }) == Ok::<EmulatorView, StepError>(self@.at(r as int)),
    {
        addr
    }

    /// Calls the subroutine at nnn (0x2nnn).
    fn call(&mut self, addr: usize) -> (r: usize)
        requires
            old(self).program_counter < MEMORY_SIZE,
            old(self).wf(),
            addr < MEMORY_SIZE,
        ensures
            final(self).program_counter == old(self).program_counter,
            final(self).wf(),
            cpu_step(old(self)@, Instruction::Call { addr }) == Ok::<EmulatorView, StepError>(final(self)@.at(r as int)),
    {
        self.stack.push(self.program_counter);
        addr
    }

    /// Skips the next instruction if Vx == kk (0x3xkk).
    fn se_v(&self, vx: usize, byte: u8) -> (r: usize)
        requires
            self.program_counter < MEMORY_SIZE,
            vx < 16,
        ensures
            cpu_step(self@, Instruction::SeV { vx, byte }) == Ok::<EmulatorView, StepError>(self@.at(r as int)),
    {
        if self.registers[vx] == byte {
            self.program_counter + 4
        } else {
            self.program_counter + 2
        }
    }

    /// Skips the next instruction if Vx != kk (0x4xkk).
    fn sne_v(&self, vx: usize, byte: u8) -> (r: usize)
        requires
            self.program_counter < MEMORY_SIZE,
            vx < 16,
        ensures
            cpu_step(self@, Instruction::SneV { vx, byte }) == Ok::<EmulatorView, StepError>(self@.at(r as int)),
    {
        if self.registers[vx] != byte {
            self.program_counter + 4
        } else {
            self.program_counter + 2
        }
    }

    /// Skips the next instruction if Vx == Vy (0x5xy0).
    fn se_v_v(&self, vx: usize, vy: usize) -> (r: usize)
        requires
            self.program_counter < MEMORY_SIZE,
            vx < 16,
            vy < 16,
        ensures
            cpu_step(self@, Instruction::SeVV { vx, vy }) == Ok::<EmulatorView, StepError>(self@.at(r as int)),
    {
        if self.registers[vx] == self.registers[vy] {
            self.program_counter + 4
        } else {
            self.program_counter + 2
        }
    }

    /// Loads kk into Vx (0x6xkk).
    fn ld_v(&mut self, vx: usize, byte: u8) -> (r: usize)
        requires
            old(self).program_counter < MEMORY_SIZE,
            vx < 16,
        ensures
            final(self).program_counter == old(self).program_counter,
            cpu_step(old(self)@, Instruction::LdV { vx, byte }) == Ok::<EmulatorView, StepError>(final(self)@.at(r as int)),
    {
        self.registers[vx] = byte;
        self.program_counter + 2
    }

    /// Adds kk to Vx, wrapping (0x7xkk).
    fn add_v(&mut self, vx: usize, byte: u8) -> (r: usize)
        requires
            old(self).program_counter < MEMORY_SIZE,
            vx < 16,
        ensures
            final(self).program_counter == old(self).program_counter,
            cpu_step(old(self)@, Instruction::AddV { vx, byte }) == Ok::<EmulatorView, StepError>(final(self)@.at(r as int)),
    {
        self.registers[vx] = ((self.registers[vx] as u16 + byte as u16) % 256) as u8;
        self.program_counter + 2
    }

    /// Copies Vy into Vx (0x8xy0).
    fn ld_v_v(&mut self, vx: usize, vy: usize) -> (r: usize)
        requires
            old(self).program_counter < MEMORY_SIZE,
            vx < 16,
            vy < 16,
        ensures
            final(self).program_counter == old(self).program_counter,
            cpu_step(old(self)@, Instruction::LdVV { vx, vy }) == Ok::<EmulatorView, StepError>(final(self)@.at(r as int)),
    {
        self.registers[vx] = self.registers[vy];
        self.program_counter + 2
    }

    /// Stores Vx OR Vy in Vx (0x8xy1).
    fn or_v_v(&mut self, vx: usize, vy: usize) -> (r: usize)
        requires
            old(self).program_counter < MEMORY_SIZE,
            vx < 16,
            vy < 16,
        ensures
            final(self).program_counter == old(self).program_counter,
            cpu_step(old(self)@, Instruction::OrVV { vx, vy }) == Ok::<EmulatorView, StepError>(final(self)@.at(r as int)),
    {
        self.registers[vx] = self.registers[vx] | self.registers[vy];
        self.program_counter + 2
    }

    /// Stores Vx AND Vy in Vx (0x8xy2).
    fn and_v_v(&mut self, vx: usize, vy: usize) -> (r: usize)
        requires
            old(self).program_counter < MEMORY_SIZE,
            vx < 16,
            vy < 16,
        ensures
            final(self).program_counter == old(self).program_counter,
            cpu_step(old(self)@, Instruction::AndVV { vx, vy }) == Ok::<EmulatorView, StepError>(final(self)@.at(r as int)),
    {
        self.registers[vx] = self.registers[vx] & self.registers[vy];
        self.program_counter + 2
    }

    /// Stores Vx XOR Vy in Vx (0x8xy3).
    fn xor_v_v(&mut self, vx: usize, vy: usize) -> (r: usize)
        requires
            old(self).program_counter < MEMORY_SIZE,
            vx < 16,
            vy < 16,
        ensures
            final(self).program_counter == old(self).program_counter,
            cpu_step(old(self)@, Instruction::XorVV { vx, vy }) == Ok::<EmulatorView, StepError>(final(self)@.at(r as int)),
    {
        self.registers[vx] = self.registers[vx] ^ self.registers[vy];
        self.program_counter + 2
    }

    /// Adds Vy to Vx; VF tells whether the sum carried (0x8xy4).
    fn add_v_v(&mut self, vx: usize, vy: usize) -> (r: usize)
        requires
            old(self).program_counter < MEMORY_SIZE,
            vx < 16,
            vy < 16,
        ensures
            final(self).program_counter == old(self).program_counter,
            cpu_step(old(self)@, Instruction::AddVV { vx, vy }) == Ok::<EmulatorView, StepError>(final(self)@.at(r as int)),
    {
        let sum = self.registers[vx] as u16 + self.registers[vy] as u16;
        self.registers[0xF] = if sum >= 256 {
            1
        } else {
            0
        };
        self.registers[vx] = (sum % 256) as u8;
        self.program_counter + 2
    }

    /// Subtracts Vy from Vx; VF tells whether no borrow occurred (0x8xy5).
    fn sub_v_v(&mut self, vx: usize, vy: usize) -> (r: usize)
        requires
            old(self).program_counter < MEMORY_SIZE,
            vx < 16,
            vy < 16,
        ensures
            final(self).program_counter == old(self).program_counter,
            cpu_step(old(self)@, Instruction::SubVV { vx, vy }) == Ok::<EmulatorView, StepError>(final(self)@.at(r as int)),
    {
        let (a, b) = (self.registers[vx], self.registers[vy]);
        self.registers[0xF] = if a >= b {
            1
        } else {
            0
        };
        self.registers[vx] = ((a as u16 + 256 - b as u16) % 256) as u8;
        self.program_counter + 2
    }

    /// Shifts Vx right by one; VF takes the bit shifted out (0x8xy6).
    fn shr_v_v(&mut self, vx: usize) -> (r: usize)
        requires
            old(self).program_counter < MEMORY_SIZE,
            vx < 16,
        ensures
            final(self).program_counter == old(self).program_counter,
            cpu_step(old(self)@, Instruction::ShrVV { vx, vy: 0 }) == Ok::<EmulatorView, StepError>(final(self)@.at(r as int)),
    {
        let a = self.registers[vx];
        self.registers[0xF] = a % 2;
        self.registers[vx] = a / 2;
        self.program_counter + 2
    }

    /// Stores Vy minus Vx in Vx; VF tells whether no borrow occurred (0x8xy7).
    fn subn_v_v(&mut self, vx: usize, vy: usize) -> (r: usize)
        requires
            old(self).program_counter < MEMORY_SIZE,
            vx < 16,
            vy < 16,
        ensures
            final(self).program_counter == old(self).program_counter,
            cpu_step(old(self)@, Instruction::SubnVV { vx, vy }) == Ok::<EmulatorView, StepError>(final(self)@.at(r as int)),
    {
        let (a, b) = (self.registers[vx], self.registers[vy]);
        self.registers[0xF] = if b >= a {
            1
        } else {
            0
        };
        self.registers[vx] = ((b as u16 + 256 - a as u16) % 256) as u8;
        self.program_counter + 2
    }

    /// Shifts Vx left by one; VF takes the bit shifted out (0x8xyE).
    fn shl_v_v(&mut self, vx: usize) -> (r: usize)
        requires
            old(self).program_counter < MEMORY_SIZE,
            vx < 16,
        ensures
            final(self).program_counter == old(self).program_counter,
            cpu_step(old(self)@, Instruction::ShlVV { vx, vy: 0 }) == Ok::<EmulatorView, StepError>(final(self)@.at(r as int)),
    {
        let a = self.registers[vx];
        self.registers[0xF] = if a >= 0x80 {
            1
        } else {
            0
        };
        self.registers[vx] = (a as u16 * 2 % 256) as u8;
        self.program_counter + 2
    }

    /// Skips the next instruction if Vx != Vy (0x9xy0).
    fn sne_v_v(&self, vx: usize, vy: usize) -> (r: usize)
        requires
            self.program_counter < MEMORY_SIZE,
            vx < 16,
            vy < 16,
        ensures
            cpu_step(self@, Instruction::SneVV { vx, vy }) == Ok::<EmulatorView, StepError>(self@.at(r as int)),
    {
        if self.registers[vx] != self.registers[vy] {
            self.program_counter + 4
        } else {
            self.program_counter + 2
        }
    }

    /// Loads nnn into I (0xAnnn).
    fn ld_i(&mut self, addr: usize) -> (r: usize)
        requires
            old(self).program_counter < MEMORY_SIZE,
            addr < MEMORY_SIZE,
        ensures
            final(self).program_counter == old(self).program_counter,
            cpu_step(old(self)@, Instruction::LdI { addr }) == Ok::<EmulatorView, StepError>(final(self)@.at(r as int)),
    {
        self.i = addr as u16;
        self.program_counter + 2
    }

    /// Jumps to nnn plus V0 (0xBnnn). The target is not masked: one past
    /// the end of memory makes the next step fail with `AddressOutOfRange`.
    fn jp_v(&self, addr: usize) -> (r: usize)
        requires
            self.program_counter < MEMORY_SIZE,
            addr < MEMORY_SIZE,
        ensures
            cpu_step(self@, Instruction::JpV { addr }) == Ok::<EmulatorView, StepError>(self@.at(r as int)),
    {
        addr + self.registers[0] as usize
    }

    /// Stores `random` AND kk in Vx (0xCxkk).
    fn rnd_v(&mut self, vx: usize, byte: u8, random: u8) -> (r: usize)
        requires
            old(self).program_counter < MEMORY_SIZE,
            vx < 16,
        ensures
            final(self).program_counter == old(self).program_counter,
            final(self)@.at(r as int) == old(self)@.set_reg(vx as int, random & byte).advance(),
    {
        self.registers[vx] = random & byte;
        self.program_counter + 2
    }

    /// Draws the n-byte sprite stored at I at (Vx, Vy); VF tells whether a
    /// lit pixel was turned off (0xDxyn).
    fn drw(&mut self, vx: usize, vy: usize, n: usize, display: &mut Display) -> (r: Result<usize, StepError>)
        requires
            old(self).program_counter < MEMORY_SIZE,
            vx < 16,
            vy < 16,
            n < 16,
        ensures
            final(self).program_counter == old(self).program_counter,
            match r {
                Ok(pc) => execute(old(self)@, old(display)@, Seq::empty(), 0, Instruction::Drw { vx, vy, n })
                    == Ok::<(EmulatorView, Seq<bool>), StepError>((final(self)@.at(pc as int), final(display)@)),
                Err(e) => execute(old(self)@, old(display)@, Seq::empty(), 0, Instruction::Drw { vx, vy, n })
                    == Err::<(EmulatorView, Seq<bool>), StepError>(e) && final(self)@ == old(self)@ && final(display)@ == old(display)@,
            },
    {
        let offset = self.i as usize;
        if offset + n > MEMORY_SIZE {
            return Err(StepError::AddressOutOfRange(offset));
        }
        let x = self.registers[vx] as usize;
        let y = self.registers[vy] as usize;
        let sprite = self.memory.get_sprite(offset, n);
        let erased = display.xor_sprite(x, y, sprite);
        self.registers[0xF] = if erased {
            1
        } else {
            0
        };
        Ok(self.program_counter + 2)
    }

    /// Skips the next instruction if the key of code Vx is pressed (0xEx9E).
    fn skp_v(&self, vx: usize, keyboard: &Keyboard) -> (r: Result<usize, StepError>)
        requires
            self.program_counter < MEMORY_SIZE,
            vx < 16,
        ensures
            match r {
                Ok(pc) => execute(self@, Seq::empty(), keyboard@, 0, Instruction::SkpV { vx })
                    == Ok::<(EmulatorView, Seq<bool>), StepError>((self@.at(pc as int), Seq::<bool>::empty())),
                Err(e) => execute(self@, Seq::empty(), keyboard@, 0, Instruction::SkpV { vx }) == Err::<(EmulatorView, Seq<bool>), StepError>(e),
            },
    {
        let code = self.registers[vx];
        if code as usize >= KEY_COUNT {
            return Err(StepError::InvalidKey(code));
        }
        if keyboard.is_pressed(&Key::from(code)) {
            Ok(self.program_counter + 4)
        } else {
            Ok(self.program_counter + 2)
        }
    }

    /// Skips the next instruction if the key of code Vx is not pressed
    /// (0xExA1).
    fn sknp_v(&self, vx: usize, keyboard: &Keyboard) -> (r: Result<usize, StepError>)
        requires
            self.program_counter < MEMORY_SIZE,
            vx < 16,
        ensures
            match r {
                Ok(pc) => execute(self@, Seq::empty(), keyboard@, 0, Instruction::SknpV { vx })
                    == Ok::<(EmulatorView, Seq<bool>), StepError>((self@.at(pc as int), Seq::<bool>::empty())),
                Err(e) => execute(self@, Seq::empty(), keyboard@, 0, Instruction::SknpV { vx }) == Err::<(EmulatorView, Seq<bool>), StepError>(e),
            },
    {
        let code = self.registers[vx];
        if code as usize >= KEY_COUNT {
            return Err(StepError::InvalidKey(code));
        }
        if keyboard.is_pressed(&Key::from(code)) {
            Ok(self.program_counter + 2)
        } else {
            Ok(self.program_counter + 4)
        }
    }

    /// Loads the delay timer into Vx (0xFx07).
    fn ld_v_dt(&mut self, vx: usize) -> (r: usize)
        requires
            old(self).program_counter < MEMORY_SIZE,
            vx < 16,
        ensures
            final(self).program_counter == old(self).program_counter,
            cpu_step(old(self)@, Instruction::LdVDt { vx }) == Ok::<EmulatorView, StepError>(final(self)@.at(r as int)),
    {
        self.registers[vx] = self.delay_timer;
        self.program_counter + 2
    }

    /// Waits for a key: stores the lowest pressed key code in Vx and moves
    /// on, or stays on this instruction while no key is pressed (0xFx0A).
    fn ld_v_k(&mut self, vx: usize, keyboard: &Keyboard) -> (r: usize)
        requires
            old(self).program_counter < MEMORY_SIZE,
            vx < 16,
        ensures
            final(self).program_counter == old(self).program_counter,
            execute(old(self)@, Seq::empty(), keyboard@, 0, Instruction::LdVK { vx })
                == Ok::<(EmulatorView, Seq<bool>), StepError>((final(self)@.at(r as int), Seq::<bool>::empty())),
    {
        proof {
            keyboard.lemma_size();
        }
        let keys = Keyboard::keys();
        let mut index: usize = 0;
        while index < keys.len()
            invariant
                keys@.len() == KEY_COUNT,
                forall|k: int| 0 <= k < KEY_COUNT ==> keys@[k].spec_code() == k,
                keyboard@.len() == KEY_COUNT,
                0 <= index <= KEY_COUNT,
                lowest_pressed(keyboard@, index as int) is None,
                self@ == old(self)@,
                self.program_counter < MEMORY_SIZE,
                vx < 16,
            decreases KEY_COUNT - index,
        {
            let key = keys[index];
            if keyboard.is_pressed(&key) {
                assert(lowest_pressed(keyboard@, index + 1) == Some(index as int));
                assert(lowest_pressed(keyboard@, KEY_COUNT as int) == Some(index as int)) by {
                    lemma_lowest_pressed_stays(keyboard@, index + 1, KEY_COUNT as int);
                }
                self.registers[vx] = key.code();
                return self.program_counter + 2;
            }
            index += 1;
        }
        self.program_counter
    }

    /// Loads Vx into the delay timer (0xFx15).
    fn ld_dt_v(&mut self, vx: usize) -> (r: usize)
        requires
            old(self).program_counter < MEMORY_SIZE,
            vx < 16,
        ensures
            final(self).program_counter == old(self).program_counter,
            cpu_step(old(self)@, Instruction::LdDtV { vx }) == Ok::<EmulatorView, StepError>(final(self)@.at(r as int)),
    {
        self.delay_timer = self.registers[vx];
        self.program_counter + 2
    }

    /// Loads Vx into the sound timer (0xFx18).
    fn ld_st_v(&mut self, vx: usize) -> (r: usize)
        requires
            old(self).program_counter < MEMORY_SIZE,
            vx < 16,
        ensures
            final(self).program_counter == old(self).program_counter,
            cpu_step(old(self)@, Instruction::LdStV { vx }) == Ok::<EmulatorView, StepError>(final(self)@.at(r as int)),
    {
        self.sound_timer = self.registers[vx];
        self.program_counter + 2
    }

    /// Adds Vx to I, wrapping (0xFx1E).
    fn add_i_v(&mut self, vx: usize) -> (r: usize)
        requires
            old(self).program_counter < MEMORY_SIZE,
            vx < 16,
        ensures
            final(self).program_counter == old(self).program_counter,
            cpu_step(old(self)@, Instruction::AddIV { vx }) == Ok::<EmulatorView, StepError>(final(self)@.at(r as int)),
    {
        self.i = ((self.i as u32 + self.registers[vx] as u32) % 0x10000) as u16;
        self.program_counter + 2
    }

    /// Points I at the glyph of the digit in Vx (0xFx29); a value above 15
    /// has no glyph and fails the step with `InvalidDigit`.
    fn ld_f_v(&mut self, vx: usize) -> (r: Result<usize, StepError>)
        requires
            old(self).program_counter < MEMORY_SIZE,
            vx < 16,
        ensures
            final(self).program_counter == old(self).program_counter,
            match r {
                Ok(pc) => cpu_step(old(self)@, Instruction::LdFV { vx }) == Ok::<EmulatorView, StepError>(final(self)@.at(pc as int)),
                Err(e) => cpu_step(old(self)@, Instruction::LdFV { vx }) == Err::<EmulatorView, StepError>(e) && final(self)@ == old(self)@,
            },
    {
        let value = self.registers[vx];
        if value as usize >= DIGIT_AMOUNT {
            return Err(StepError::InvalidDigit(value));
        }
        self.i = Memory::calculate_digit_offset(value) as u16;
        Ok(self.program_counter + 2)
    }

    /// Stores the decimal digits of Vx at I, I + 1 and I + 2 (0xFx33).
    fn ld_b_v(&mut self, vx: usize) -> (r: Result<usize, StepError>)
        requires
            old(self).program_counter < MEMORY_SIZE,
            vx < 16,
        ensures
            final(self).program_counter == old(self).program_counter,
            match r {
                Ok(pc) => cpu_step(old(self)@, Instruction::LdBV { vx }) == Ok::<EmulatorView, StepError>(final(self)@.at(pc as int)),
                Err(e) => cpu_step(old(self)@, Instruction::LdBV { vx }) == Err::<EmulatorView, StepError>(e) && final(self)@ == old(self)@,
            },
    {
        let offset = self.i as usize;
        if offset + 3 > MEMORY_SIZE {
            return Err(StepError::AddressOutOfRange(offset));
        }
        let x = self.registers[vx];
        self.memory.set_byte(offset, x / 100);
        self.memory.set_byte(offset + 1, x / 10 % 10);
        self.memory.set_byte(offset + 2, x % 10);
        Ok(self.program_counter + 2)
    }

    /// Stores V0 to Vx in memory from I on (0xFx55).
    fn ld_i_v(&mut self, vx: usize) -> (r: Result<usize, StepError>)
        requires
            old(self).program_counter < MEMORY_SIZE,
            vx < 16,
        ensures
            final(self).program_counter == old(self).program_counter,
            match r {
                Ok(pc) => cpu_step(old(self)@, Instruction::LdIV { vx }) == Ok::<EmulatorView, StepError>(final(self)@.at(pc as int)),
                Err(e) => cpu_step(old(self)@, Instruction::LdIV { vx }) == Err::<EmulatorView, StepError>(e) && final(self)@ == old(self)@,
            },
    {
        let offset = self.i as usize;
        if offset + vx + 1 > MEMORY_SIZE {
            return Err(StepError::AddressOutOfRange(offset));
        }
        proof {
            self.memory.lemma_size();
        }
        let ghost before = self.memory@;
        let mut index: usize = 0;
        while index <= vx
            invariant
                vx < 16,
                offset == self.i,
                offset + vx + 1 <= MEMORY_SIZE,
                0 <= index <= vx + 1,
                before.len() == MEMORY_SIZE,
                self.memory@ == Seq::new(
                    MEMORY_SIZE as nat,
                    |k: int|
                        if offset <= k < offset + index {
                            self.registers@[k - offset]
                        } else {
                            before[k]
                        },
                ),
                self@ == (EmulatorView { memory: self.memory@, ..old(self)@ }),
            decreases vx + 1 - index,
        {
            self.memory.set_byte(offset + index, self.registers[index]);
            index += 1;
        }
        proof {
            let s = old(self)@;
            let expect = Seq::new(
                s.memory.len(),
                |k: int|
                    if s.i <= k <= s.i + vx {
                        s.registers[k - s.i]
                    } else {
                        s.memory[k]
                    },
            );
            assert(self.memory@ =~= expect);
        }
        Ok(self.program_counter + 2)
    }

    /// Loads V0 to Vx from memory from I on (0xFx65).
    fn ld_v_i(&mut self, vx: usize) -> (r: Result<usize, StepError>)
        requires
            old(self).program_counter < MEMORY_SIZE,
            vx < 16,
        ensures
            final(self).program_counter == old(self).program_counter,
            match r {
                Ok(pc) => cpu_step(old(self)@, Instruction::LdVI { vx }) == Ok::<EmulatorView, StepError>(final(self)@.at(pc as int)),
                Err(e) => cpu_step(old(self)@, Instruction::LdVI { vx }) == Err::<EmulatorView, StepError>(e) && final(self)@ == old(self)@,
            },
    {
        let offset = self.i as usize;
        if offset + vx + 1 > MEMORY_SIZE {
            return Err(StepError::AddressOutOfRange(offset));
        }
        proof {
            self.memory.lemma_size();
        }
        let ghost before = self.registers@;
        let mut index: usize = 0;
        while index <= vx
            invariant
                vx < 16,
                offset == self.i,
                offset + vx + 1 <= MEMORY_SIZE,
                self.memory@.len() == MEMORY_SIZE,
                0 <= index <= vx + 1,
                self.registers@ == Seq::new(
                    16,
                    |k: int|
                        if k < index {
                            self.memory@[offset + k]
                        } else {
                            before[k]
                        },
                ),
                self@ == (EmulatorView { registers: self.registers@, ..old(self)@ }),
            decreases vx + 1 - index,
        {
            self.registers[index] = self.memory.get_byte(offset + index);
            index += 1;
        }
        proof {
            let s = old(self)@;
            let expect = Seq::new(
                s.registers.len(),
                |k: int|
                    if k <= vx {
                        s.memory[s.i + k]
                    } else {
                        s.registers[k]
                    },
            );
            assert(self.registers@ =~= expect);
        }
        Ok(self.program_counter + 2)
    }
}

/// Loading a constant: after `LdV(x, k)` register `x` holds `k`, the other
/// registers keep their values and the program counter has moved on by
/// exactly 2.
pub proof fn lemma_ld_v(
    s: EmulatorView,
    screen: Seq<bool>,
    keys: Seq<bool>,
    random: u8,
    x: usize,
    k: u8,
)
    requires
        x < 16,
        s.registers.len() == 16,
    ensures
        execute(s, screen, keys, random, Instruction::LdV { vx: x, byte: k }) matches Ok((t, _))
            && t.registers[x as int] == k && t.program_counter == s.program_counter + 2
            && t.registers.len() == 16 && (forall|r: int|
            0 <= r < 16 && r != x ==> t.registers[r] == s.registers[r]),
{
}

/// Adding two registers: VF is 1 exactly when the unbounded sum of Vx and
/// Vy reaches 256, Vx becomes that sum modulo 256, the other registers keep
/// their values and the program counter moves on by 2. Where `x` is VF
/// itself the sum overwrites the flag, so that register is left out.
pub proof fn lemma_add_v_v(
    s: EmulatorView,
    screen: Seq<bool>,
    keys: Seq<bool>,
    random: u8,
    x: usize,
    y: usize,
)
    requires
        x < 0xF,
        y < 16,
        s.registers.len() == 16,
    ensures
        ({
            let (a, b) = (s.registers[x as int] as int, s.registers[y as int] as int);
            execute(s, screen, keys, random, Instruction::AddVV { vx: x, vy: y }) matches Ok((t, _))
                && (t.registers[0xF] == 1 <==> a + b >= 256) && t.registers[0xF] <= 1
                && t.registers[x as int] == (a + b) % 256 && t.program_counter == s.program_counter + 2
                && t.registers.len() == 16 && (forall|r: int|
                0 <= r < 16 && r != x && r != 0xF ==> t.registers[r] == s.registers[r])
        }),
{
}

/// Subtracting two registers: VF is 1 exactly when Vx is at least Vy, Vx
/// becomes their difference modulo 256, the other registers keep their
/// values and the program counter moves on by 2. Where `x` is VF itself the
/// difference overwrites the flag, so that register is left out.
pub proof fn lemma_sub_v_v(
    s: EmulatorView,
    screen: Seq<bool>,
    keys: Seq<bool>,
    random: u8,
    x: usize,
    y: usize,
)
    requires
        x < 0xF,
        y < 16,
        s.registers.len() == 16,
    ensures
        ({
            let (a, b) = (s.registers[x as int] as int, s.registers[y as int] as int);
            execute(s, screen, keys, random, Instruction::SubVV { vx: x, vy: y }) matches Ok((t, _))
                && (t.registers[0xF] == 1 <==> a >= b) && t.registers[0xF] <= 1
                && t.registers[x as int] == (a - b) % 256 && t.program_counter == s.program_counter + 2
                && t.registers.len() == 16 && (forall|r: int|
                0 <= r < 16 && r != x && r != 0xF ==> t.registers[r] == s.registers[r])
        }),
{
}

} // verus!
