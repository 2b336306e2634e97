//! The abstract machine: the state a CHIP-8 core holds, as mathematical
//! values, and what each instruction, each cycle and each timer tick does to it.
use vstd::prelude::*;
use crate::instr::{Instr, decode_spec};
use crate::memory::{MEMORY_SIZE, FONT_BASE, GLYPH_SIZE, PROGRAM_START, initial_memory};

verus! {

/// Framebuffer width in pixels.
pub const WIDTH: usize = 64;

/// Framebuffer height in pixels.
pub const HEIGHT: usize = 32;

/// Number of pixels of the framebuffer.
pub const SCREEN_SIZE: usize = 2048;

/// Number of general-purpose registers, and of keypad keys.
pub const NUM_REGS: usize = 16;

/// Index of the flag register VF.
pub const FLAG_REG: usize = 15;

/// Maximum depth of the call stack.
pub const STACK_DEPTH: usize = 16;

/// A fatal condition that stops the machine.
#[derive(Clone, Copy, Debug, PartialEq, Eq)]
pub enum Chip8Error {
    /// The instruction word at PC encodes no instruction.
    UnknownOpcode(u16),
    /// A return with an empty call stack.
    StackUnderflow,
    /// A call with the call stack already at its maximum depth.
    StackOverflow,
    /// A fetch or an access through I beyond the end of memory.
    AddressOutOfRange,
    /// A key instruction naming a key beyond 0xF.
    KeyOutOfRange(u8),
}

/// Everything a CHIP-8 core holds.
pub struct MachineState {
    pub opcode: u16,
    pub memory: Seq<u8>,
    pub v: Seq<u8>,
    pub i: u16,
    pub pc: usize,
    pub delay_timer: u8,
    pub sound_timer: u8,
    pub stack: Seq<usize>,
    pub key_pressed: Seq<bool>,
    pub gfx: Seq<bool>,
    pub draw_flag: bool,
    /// A key wait (FX0A) is in progress.
    pub awaiting_key: bool,
    /// The keypad as last seen by the key wait in progress.
    pub wait_keys: Seq<bool>,
}

impl MachineState {
    /// The fixed sizes of every component.
    pub open spec fn wf(self) -> bool {
        &&& self.memory.len() == MEMORY_SIZE
        &&& self.v.len() == NUM_REGS
        &&& self.stack.len() <= STACK_DEPTH
        &&& self.key_pressed.len() == NUM_REGS
        &&& self.wait_keys.len() == NUM_REGS
        &&& self.gfx.len() == SCREEN_SIZE
    }
}

/// The state at power-on.
pub open spec fn initial_state() -> MachineState {
    MachineState {
        opcode: 0,
        memory: initial_memory(),
        v: Seq::new(NUM_REGS as nat, |r: int| 0u8),
        i: 0,
        pc: PROGRAM_START,
        delay_timer: 0,
        sound_timer: 0,
        stack: Seq::empty(),
        key_pressed: Seq::new(NUM_REGS as nat, |k: int| false),
        gfx: Seq::new(SCREEN_SIZE as nat, |p: int| false),
        draw_flag: false,
        awaiting_key: false,
        wait_keys: Seq::new(NUM_REGS as nat, |k: int| false),
    }
}

/// PC moved past the current instruction.
pub open spec fn advance(s: MachineState) -> MachineState {
    MachineState { pc: (s.pc + 2) as usize, ..s }
}

/// PC moved past the next instruction when `cond` holds, else past the current one.
pub open spec fn skip_if(s: MachineState, cond: bool) -> MachineState {
    MachineState { pc: (s.pc + if cond { 4int } else { 2int }) as usize, ..s }
}

/// Register `x` set to `val`.
pub open spec fn with_reg(s: MachineState, x: usize, val: u8) -> MachineState {
    MachineState { v: s.v.update(x as int, val), ..s }
}

/// Register `x` set to `val`, then VF set to `flag`.
pub open spec fn with_reg_flag(s: MachineState, x: usize, val: u8, flag: u8) -> MachineState {
    MachineState { v: s.v.update(x as int, val).update(FLAG_REG as int, flag), ..s }
}

/// Column offset of pixel `p` from a sprite's left edge at `vx`, wrapping.
pub open spec fn sprite_dx(vx: u8, p: int) -> int {
    (p % 64 - vx as int % 64 + 64) % 64
}

/// Row offset of pixel `p` from a sprite's top edge at `vy`, wrapping.
pub open spec fn sprite_dy(vy: u8, p: int) -> int {
    (p / 64 - vy as int % 32 + 32) % 32
}

/// Bit `c` of a sprite row, counted from the most significant bit.
pub open spec fn row_bit(row: u8, c: int) -> bool {
    row & (0x80u8 >> (c as u8)) != 0
}

/// Pixel `p` is set in an `n`-row sprite read from `mem` at `i`, drawn at
/// (`vx`, `vy`) with each axis wrapping on its own.
pub open spec fn sprite_covers(mem: Seq<u8>, i: u16, vx: u8, vy: u8, n: int, p: int) -> bool {
    let dx = sprite_dx(vx, p);
    let dy = sprite_dy(vy, p);
    dx < 8 && dy < n && row_bit(mem[i as int + dy], dx)
}

/// Some pixel of the sprite lands on a pixel that is already set.
pub open spec fn sprite_collides(
    gfx: Seq<bool>,
    mem: Seq<u8>,
    i: u16,
    vx: u8,
    vy: u8,
    n: int,
) -> bool {
    exists|p: int| 0 <= p < SCREEN_SIZE && sprite_covers(mem, i, vx, vy, n, p) && gfx[p]
}

/// The framebuffer with an `n`-row sprite XOR-ed onto it.
pub open spec fn xor_sprite_spec(
    gfx: Seq<bool>,
    mem: Seq<u8>,
    i: u16,
    vx: u8,
    vy: u8,
    n: int,
) -> Seq<bool> {
    Seq::new(gfx.len(), |p: int| gfx[p] != sprite_covers(mem, i, vx, vy, n, p))
}

/// DXYN on a state whose sprite rows lie inside memory.
pub open spec fn draw_spec(s: MachineState, x: usize, y: usize, n: usize) -> MachineState {
    let vx = s.v[x as int];
    let vy = s.v[y as int];
    let hit = sprite_collides(s.gfx, s.memory, s.i, vx, vy, n as int);
    MachineState {
        gfx: xor_sprite_spec(s.gfx, s.memory, s.i, vx, vy, n as int),
        v: s.v.update(FLAG_REG as int, if hit { 1u8 } else { 0u8 }),
        draw_flag: true,
        pc: (s.pc + 2) as usize,
        ..s
    }
}

/// The lowest key from `k` on that is down in `keys` and was up in `prev`;
/// `NUM_REGS` when there is none.
pub open spec fn first_new_key(keys: Seq<bool>, prev: Seq<bool>, k: int) -> int
    decreases NUM_REGS - k,
{
    if k >= NUM_REGS {
        NUM_REGS as int
    } else if keys[k] && !prev[k] {
        k
    } else {
        first_new_key(keys, prev, k + 1)
    }
}

/// FX0A. The first execution starts the wait and records the keypad. Each
/// later one either finds a key that went down since it last looked, stores
/// it in VX and moves on, or records the keypad again and stays put.
pub open spec fn wait_key_spec(s: MachineState, x: usize) -> MachineState {
    if !s.awaiting_key {
        MachineState { awaiting_key: true, wait_keys: s.key_pressed, ..s }
    } else {
        let k = first_new_key(s.key_pressed, s.wait_keys, 0);
        if k < NUM_REGS {
            MachineState {
                v: s.v.update(x as int, k as u8),
                awaiting_key: false,
                pc: (s.pc + 2) as usize,
                ..s
            }
        } else {
            MachineState { wait_keys: s.key_pressed, ..s }
        }
    }
}

/// The decimal digits of `b`, most significant first.
pub open spec fn bcd_digits(b: u8) -> Seq<u8> {
    seq![(b / 100) as u8, ((b % 100) / 10) as u8, (b % 10) as u8]
}

/// `mem` with `bytes` written from address `at` on.
pub open spec fn write_block(mem: Seq<u8>, at: int, bytes: Seq<u8>) -> Seq<u8> {
    Seq::new(
        mem.len(),
        |a: int|
            if at <= a < at + bytes.len() {
                bytes[a - at]
            } else {
                mem[a]
            },
    )
}

/// Registers V0..=VX replaced by the bytes of `mem` from `at` on.
pub open spec fn read_block(v: Seq<u8>, mem: Seq<u8>, at: int, x: int) -> Seq<u8> {
    Seq::new(v.len(), |r: int| if r <= x { mem[at + r] } else { v[r] })
}

/// What executing `ins` does to `s`; `rnd` is the random byte CXNN uses.
pub open spec fn execute(s: MachineState, ins: Instr, rnd: u8) -> Result<MachineState, Chip8Error> {
    match ins {
        Instr::Clear => Ok(
            MachineState {
                gfx: Seq::new(SCREEN_SIZE as nat, |p: int| false),
                draw_flag: true,
                pc: (s.pc + 2) as usize,
                ..s
            },
        ),
        Instr::Return => if s.stack.len() == 0 {
            Err(Chip8Error::StackUnderflow)
        } else {
            Ok(MachineState { pc: s.stack.last(), stack: s.stack.drop_last(), ..s })
        },
        Instr::Jump { nnn } => Ok(MachineState { pc: nnn as usize, ..s }),
        Instr::Call { nnn } => if s.stack.len() >= STACK_DEPTH {
            Err(Chip8Error::StackOverflow)
        } else {
            Ok(MachineState { pc: nnn as usize, stack: s.stack.push((s.pc + 2) as usize), ..s })
        },
        Instr::SkipEqImm { x, nn } => Ok(skip_if(s, s.v[x as int] == nn)),
        Instr::SkipNeImm { x, nn } => Ok(skip_if(s, s.v[x as int] != nn)),
        Instr::SkipEqReg { x, y } => Ok(skip_if(s, s.v[x as int] == s.v[y as int])),
        Instr::SkipNeReg { x, y } => Ok(skip_if(s, s.v[x as int] != s.v[y as int])),
        Instr::SetImm { x, nn } => Ok(with_reg(advance(s), x, nn)),
        Instr::AddImm { x, nn } => Ok(
            with_reg(advance(s), x, ((s.v[x as int] + nn) % 256) as u8),
        ),
        Instr::Move { x, y } => Ok(with_reg(advance(s), x, s.v[y as int])),
        Instr::Or { x, y } => Ok(with_reg(advance(s), x, s.v[x as int] | s.v[y as int])),
        Instr::And { x, y } => Ok(with_reg(advance(s), x, s.v[x as int] & s.v[y as int])),
        Instr::Xor { x, y } => Ok(with_reg(advance(s), x, s.v[x as int] ^ s.v[y as int])),
        Instr::AddReg { x, y } => {
            let sum = s.v[x as int] + s.v[y as int];
            Ok(with_reg_flag(advance(s), x, (sum % 256) as u8, if sum > 255 { 1 } else { 0 }))
        },
        Instr::SubReg { x, y } => {
            let a = s.v[x as int];
            let b = s.v[y as int];
            Ok(with_reg_flag(advance(s), x, ((a - b + 256) % 256) as u8, if a >= b { 1 } else { 0 }))
        },
        Instr::SubReverse { x, y } => {
            let a = s.v[x as int];
            let b = s.v[y as int];
            Ok(with_reg_flag(advance(s), x, ((b - a + 256) % 256) as u8, if b >= a { 1 } else { 0 }))
        },
        Instr::ShiftRight { x, y } => {
            let a = s.v[x as int];
            Ok(with_reg_flag(advance(s), x, a / 2, a % 2))
        },
        Instr::ShiftLeft { x, y } => {
            let a = s.v[x as int];
            Ok(with_reg_flag(advance(s), x, ((a * 2) % 256) as u8, a / 128))
        },
        Instr::SetIndex { nnn } => Ok(MachineState { i: nnn, ..advance(s) }),
        Instr::JumpOffset { nnn } => Ok(MachineState { pc: (nnn + s.v[0]) as usize, ..s }),
        Instr::Random { x, nn } => Ok(with_reg(advance(s), x, nn & rnd)),
        Instr::Draw { x, y, n } => if s.i + n > MEMORY_SIZE {
            Err(Chip8Error::AddressOutOfRange)
        } else {
            Ok(draw_spec(s, x, y, n))
        },
        Instr::SkipKeyDown { x } => if s.v[x as int] >= NUM_REGS {
            Err(Chip8Error::KeyOutOfRange(s.v[x as int]))
        } else {
            Ok(skip_if(s, s.key_pressed[s.v[x as int] as int]))
        },
        Instr::SkipKeyUp { x } => if s.v[x as int] >= NUM_REGS {
            Err(Chip8Error::KeyOutOfRange(s.v[x as int]))
        } else {
            Ok(skip_if(s, !s.key_pressed[s.v[x as int] as int]))
        },
        Instr::GetDelay { x } => Ok(with_reg(advance(s), x, s.delay_timer)),
        Instr::WaitKey { x } => Ok(wait_key_spec(s, x)),
        Instr::SetDelay { x } => Ok(MachineState { delay_timer: s.v[x as int], ..advance(s) }),
        Instr::SetSound { x } => Ok(MachineState { sound_timer: s.v[x as int], ..advance(s) }),
        Instr::AddIndex { x } => Ok(
            MachineState { i: ((s.i + s.v[x as int]) % 0x10000) as u16, ..advance(s) },
        ),
        Instr::FontGlyph { x } => Ok(
            MachineState { i: (FONT_BASE + s.v[x as int] * GLYPH_SIZE) as u16, ..advance(s) },
        ),
        Instr::StoreBcd { x } => if s.i + 3 > MEMORY_SIZE {
            Err(Chip8Error::AddressOutOfRange)
        } else {
            Ok(
                MachineState {
                    memory: write_block(s.memory, s.i as int, bcd_digits(s.v[x as int])),
                    ..advance(s)
                },
            )
        },
        Instr::StoreRegs { x } => if s.i + x + 1 > MEMORY_SIZE {
            Err(Chip8Error::AddressOutOfRange)
        } else {
            Ok(
                MachineState {
                    memory: write_block(s.memory, s.i as int, s.v.subrange(0, x + 1)),
                    ..advance(s)
                },
            )
        },
        Instr::LoadRegs { x } => if s.i + x + 1 > MEMORY_SIZE {
            Err(Chip8Error::AddressOutOfRange)
        } else {
            Ok(MachineState { v: read_block(s.v, s.memory, s.i as int, x as int), ..advance(s) })
        },
    }
}

/// The instruction word at PC, big-endian.
pub open spec fn fetch_spec(s: MachineState) -> u16 {
    (s.memory[s.pc as int] * 256 + s.memory[s.pc + 1]) as u16
}

/// One fetch-decode-execute step (timers untouched).
pub open spec fn cycle_spec(s: MachineState, rnd: u8) -> Result<MachineState, Chip8Error> {
    if s.pc + 1 >= MEMORY_SIZE {
        Err(Chip8Error::AddressOutOfRange)
    } else {
        let w = fetch_spec(s);
        match decode_spec(w) {
            None => Err(Chip8Error::UnknownOpcode(w)),
            Some(ins) => execute(MachineState { opcode: w, ..s }, ins, rnd),
        }
    }
}

/// A timer one tick later: one less, but never below zero.
pub open spec fn tick(t: u8) -> u8 {
    if t > 0 { (t - 1) as u8 } else { 0 }
}

/// `r` and `after` are what a step expected to yield `expected` from `before`
/// reports: the new state on success, or the fault with the state unchanged.
pub open spec fn step_outcome(
    before: MachineState,
    after: MachineState,
    r: Result<(), Chip8Error>,
    expected: Result<MachineState, Chip8Error>,
) -> bool {
    match expected {
        Ok(t) => r == Ok::<(), Chip8Error>(()) && after == t,
        Err(e) => r == Err::<(), Chip8Error>(e) && after == before,
    }
}

/// Both timers one tick later.
pub open spec fn tick_spec(s: MachineState) -> MachineState {
    MachineState { delay_timer: tick(s.delay_timer), sound_timer: tick(s.sound_timer), ..s }
}

/// A tick makes the beep exactly when the sound timer goes from 1 to 0.
pub open spec fn beeps(s: MachineState) -> bool {
    s.sound_timer == 1
}

} // verus!
