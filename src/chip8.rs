//! The CHIP-8 core: registers, stack, timers, keypad latch and framebuffer,
//! advanced one instruction at a time.
use vstd::prelude::*;
use crate::instr::{Instr, decode, lemma_decoded_in_range, operands_in_range};
use crate::machine::{
    Chip8Error, MachineState, initial_state, tick_spec, beeps, cycle_spec, execute, fetch_spec,
    step_outcome, skip_if, with_reg, with_reg_flag, advance, sprite_covers, sprite_collides,
    sprite_dx, sprite_dy, xor_sprite_spec, first_new_key, write_block, read_block, bcd_digits,
    NUM_REGS, SCREEN_SIZE, FLAG_REG, STACK_DEPTH,
};
use crate::memory::{
    MEMORY_SIZE, FONT_BASE, GLYPH_SIZE, PROGRAM_START, LoadError, load_program, new_memory,
    with_program,
};

verus! {

/// Relies on rand::thread_rng and Rng::gen_range over the full range of a
/// byte: any byte may come back, so nothing is promised of it.
#[verifier::external_body]
fn random_byte() -> (r: u8) {
    rand::Rng::gen_range(&mut rand::thread_rng(), 0..=255u8)
}

/// A CHIP-8 machine.
pub struct Chip8 {
    /// The last instruction word fetched.
    pub opcode: u16,
    /// The 4 KiB address space.
    pub memory: Vec<u8>,
    /// Registers V0-VF.
    pub v: Vec<u8>,
    /// The index register.
    pub i: u16,
    /// The program counter.
    pub pc: usize,
    pub delay_timer: u8,
    pub sound_timer: u8,
    /// Return addresses, innermost call last.
    pub stack: Vec<usize>,
    /// The keypad latch, written by the host between cycles.
    pub key_pressed: Vec<bool>,
    /// The 64x32 framebuffer, row-major (index = x + y * 64).
    pub gfx: Vec<bool>,
    /// The framebuffer changed since it was last handed out.
    pub draw_flag: bool,
    /// A key wait (FX0A) is in progress.
    pub awaiting_key: bool,
    /// The keypad as last seen by the key wait in progress.
    pub wait_keys: Vec<bool>,
}

impl View for Chip8 {
    type V = MachineState;

    open spec fn view(&self) -> MachineState {
        MachineState {
            opcode: self.opcode,
            memory: self.memory@,
            v: self.v@,
            i: self.i,
            pc: self.pc,
            delay_timer: self.delay_timer,
            sound_timer: self.sound_timer,
            stack: self.stack@,
            key_pressed: self.key_pressed@,
            gfx: self.gfx@,
            draw_flag: self.draw_flag,
            awaiting_key: self.awaiting_key,
            wait_keys: self.wait_keys@,
        }
    }
}

/// A vector of `len` copies of `val`.
fn filled<T: Copy>(len: usize, val: T) -> (r: Vec<T>)
    ensures
        r@ == Seq::new(len as nat, |k: int| val),
{
    let mut r: Vec<T> = Vec::new();
    let mut k: usize = 0;
    while k < len
        invariant
            k <= len,
            r@ == Seq::new(k as nat, |j: int| val),
        decreases len - k,
    {
        r.push(val);
        k = k + 1;
        assert(r@ =~= Seq::new(k as nat, |j: int| val));
    }
    r
}

/// A copy of a vector of flags.
fn copy_flags(src: &Vec<bool>) -> (r: Vec<bool>)
    ensures
        r@ == src@,
{
    let mut r: Vec<bool> = Vec::new();
    let mut k: usize = 0;
    while k < src.len()
        invariant
            k <= src@.len(),
            r@ == src@.subrange(0, k as int),
        decreases src@.len() - k,
    {
        r.push(src[k]);
        k = k + 1;
        assert(r@ =~= src@.subrange(0, k as int));
    }
    assert(r@ =~= src@);
    r
}


/// A pixel index splits into its column and row.
proof fn lemma_split_index(q: int, col: int, row: int)
    requires
        0 <= col < 64,
        0 <= row,
        q == col + row * 64,
    ensures
        q % 64 == col,
        q / 64 == row,
{
}

/// Offset `d` from `base` on a wrapping axis of length `len` lands on
/// `(base + d) % len`, and on nothing else.
proof fn lemma_wrap_offset(base: int, d: int, len: int, at: int)
    requires
        len == 64 || len == 32,
        0 <= base < len,
        0 <= d < len,
        0 <= at < len,
    ensures
        ((base + d) % len - base + len) % len == d,
        (at - base + len) % len == d ==> at == (base + d) % len,
{
}

/// Sprite cell (`r`, `c`) lands on exactly one pixel, `q`, whose offsets
/// from the sprite's corner are (`c`, `r`).
#[verifier::spinoff_prover]
proof fn lemma_sprite_cell(vx: u8, vy: u8, r: int, c: int, q: int)
    requires
        0 <= r < 32,
        0 <= c < 8,
        q == (vx as int % 64 + c) % 64 + ((vy as int % 32 + r) % 32) * 64,
    ensures
        0 <= q < SCREEN_SIZE,
        sprite_dx(vx, q) == c,
        sprite_dy(vy, q) == r,
        forall|p: int|
            0 <= p < SCREEN_SIZE && #[trigger] sprite_dx(vx, p) == c && sprite_dy(vy, p) == r ==> p == q,
{
    let bx = vx as int % 64;
    let by = vy as int % 32;
    let px = (bx + c) % 64;
    let py = (by + r) % 32;
    lemma_split_index(q, px, py);
    lemma_wrap_offset(bx, c, 64, px);
    lemma_wrap_offset(by, r, 32, py);
    assert forall|p: int|
        0 <= p < SCREEN_SIZE && #[trigger] sprite_dx(vx, p) == c && sprite_dy(vy, p) == r implies p == q by {
        lemma_split_index(p, p % 64, p / 64);
        lemma_wrap_offset(bx, c, 64, p % 64);
        lemma_wrap_offset(by, r, 32, p / 64);
    }
}

/// Sprite cell at row offset `dy` and column offset `dx` comes before cell
/// (`r`, `c`) in row-major order.
spec fn drawn_before(r: int, c: int, dy: int, dx: int) -> bool {
    dy < r || (dy == r && dx < c)
}

/// XORs an `n`-row sprite read from `mem` at `i` onto `gfx` at (`vx`, `vy`),
/// each axis wrapping on its own. Returns whether a set pixel was cleared.
fn xor_sprite(gfx: &mut Vec<bool>, mem: &Vec<u8>, i: u16, vx: u8, vy: u8, n: usize) -> (hit: bool)
    requires
        old(gfx)@.len() == SCREEN_SIZE,
        mem@.len() == MEMORY_SIZE,
        n < 16,
        i + n <= MEMORY_SIZE,
    ensures
        final(gfx)@ == xor_sprite_spec(old(gfx)@, mem@, i, vx, vy, n as int),
        hit == sprite_collides(old(gfx)@, mem@, i, vx, vy, n as int),
{
    let ghost g0 = gfx@;
    let mut hit = false;
    let mut r: usize = 0;
    while r < n
        invariant
            r <= n < 16,
            i + n <= MEMORY_SIZE,
            mem@.len() == MEMORY_SIZE,
            gfx@.len() == SCREEN_SIZE,
            forall|p: int|
                0 <= p < SCREEN_SIZE ==> #[trigger] gfx@[p] == (g0[p] != (sprite_covers(mem@, i, vx, vy, n as int, p)
                    && drawn_before(r as int, 0, sprite_dy(vy, p), sprite_dx(vx, p)))),
            hit ==> exists|p: int|
                0 <= p < SCREEN_SIZE && #[trigger] sprite_covers(mem@, i, vx, vy, n as int, p)
                    && drawn_before(r as int, 0, sprite_dy(vy, p), sprite_dx(vx, p)) && g0[p],
            !hit ==> forall|p: int|
                0 <= p < SCREEN_SIZE && #[trigger] sprite_covers(mem@, i, vx, vy, n as int, p)
                    && drawn_before(r as int, 0, sprite_dy(vy, p), sprite_dx(vx, p)) ==> !g0[p],
        decreases n - r,
    {
        let row = mem[i as usize + r];
        let mut c: usize = 0;
        while c < 8
            invariant
                r < n < 16,
                c <= 8,
                i + n <= MEMORY_SIZE,
                mem@.len() == MEMORY_SIZE,
                row == mem@[i + r],
                gfx@.len() == SCREEN_SIZE,
                forall|p: int|
                    0 <= p < SCREEN_SIZE ==> #[trigger] gfx@[p] == (g0[p] != (sprite_covers(mem@, i, vx, vy, n as int, p)
                        && drawn_before(r as int, c as int, sprite_dy(vy, p), sprite_dx(vx, p)))),
                hit ==> exists|p: int|
                    0 <= p < SCREEN_SIZE && #[trigger] sprite_covers(mem@, i, vx, vy, n as int, p)
                        && drawn_before(r as int, c as int, sprite_dy(vy, p), sprite_dx(vx, p)) && g0[p],
                !hit ==> forall|p: int|
                    0 <= p < SCREEN_SIZE && #[trigger] sprite_covers(mem@, i, vx, vy, n as int, p)
                        && drawn_before(r as int, c as int, sprite_dy(vy, p), sprite_dx(vx, p)) ==> !g0[p],
            decreases 8 - c,
        {
            let q: usize = ((vx as usize) % 64 + c) % 64 + (((vy as usize) % 32 + r) % 32) * 64;
            proof {
                lemma_sprite_cell(vx, vy, r as int, c as int, q as int);
            }
            let ghost before = gfx@;
            let ghost was_hit = hit;
            let bit = row & (0x80u8 >> (c as u8)) != 0;
            assert(bit == sprite_covers(mem@, i, vx, vy, n as int, q as int));
            if bit {
                if gfx[q] {
                    hit = true;
                }
                let cur = gfx[q];
                gfx.set(q, !cur);
            }
            assert forall|p: int|
                0 <= p < SCREEN_SIZE && p != q implies drawn_before(r as int, c as int + 1, sprite_dy(vy, p), sprite_dx(vx, p))
                    == drawn_before(r as int, c as int, sprite_dy(vy, p), sprite_dx(vx, p)) by {
                if sprite_dx(vx, p) == c && sprite_dy(vy, p) == r {
                    assert(p == q);
                }
            }
            proof {
                if hit && !was_hit {
                    assert(sprite_covers(mem@, i, vx, vy, n as int, q as int) && drawn_before(r as int, c as int + 1,
                        sprite_dy(vy, q as int), sprite_dx(vx, q as int)) && g0[q as int]);
                }
            }
            c = c + 1;
        }
        assert forall|p: int|
            0 <= p < SCREEN_SIZE && sprite_covers(mem@, i, vx, vy, n as int, p) implies drawn_before(r as int, 8,
                sprite_dy(vy, p), sprite_dx(vx, p)) == drawn_before(r as int + 1, 0, sprite_dy(vy, p), sprite_dx(vx, p)) by {
        }
        r = r + 1;
    }
    assert(gfx@ =~= xor_sprite_spec(g0, mem@, i, vx, vy, n as int));
    hit
}

impl Chip8 {
    /// The sizes of memory, registers, keypad and framebuffer are fixed and
    /// the call stack is within its depth.
    pub open spec fn wf(&self) -> bool {
        self@.wf()
    }

    /// A machine at power-on: memory holds the font, everything else is zero,
    /// PC is at the program start.
    pub fn new() -> (r: Self)
        ensures
            r@ == initial_state(),
            r.wf(),
    {
        let r = Chip8 {
            opcode: 0,
            memory: new_memory(),
            v: filled(NUM_REGS, 0u8),
            i: 0,
            pc: PROGRAM_START,
            delay_timer: 0,
            sound_timer: 0,
            stack: Vec::new(),
            key_pressed: filled(NUM_REGS, false),
            gfx: filled(SCREEN_SIZE, false),
            draw_flag: false,
            awaiting_key: false,
            wait_keys: filled(NUM_REGS, false),
        };
        assert(r.stack@ =~= Seq::<usize>::empty());
        r
    }

    /// Copies a program image into memory at the program start. An image that
    /// does not fit is refused and nothing changes.
    pub fn load_game(&mut self, rom: &[u8]) -> (r: Result<(), LoadError>)
        requires
            old(self).wf(),
        ensures
            final(self).wf(),
            r is Ok <==> rom@.len() <= MEMORY_SIZE - PROGRAM_START,
            r is Ok ==> final(self)@ == (MachineState { memory: with_program(old(self)@.memory, rom@), ..old(self)@ }),
            r is Err ==> r == Err::<(), LoadError>(LoadError::ProgramTooLarge) && final(self)@ == old(self)@,
    {
        load_program(&mut self.memory, rom)
    }

    /// Hands out a snapshot of the framebuffer if it changed since the last
    /// call, and clears the change flag.
    pub fn draw(&mut self) -> (r: Option<Vec<bool>>)
        requires
            old(self).wf(),
        ensures
            final(self).wf(),
            final(self)@ == (MachineState { draw_flag: false, ..old(self)@ }),
            old(self).draw_flag ==> (r matches Some(g) && g@ == old(self).gfx@),
            !old(self).draw_flag ==> r is None,
    {
        let df = self.draw_flag;
        self.draw_flag = false;
        if df {
            Some(copy_flags(&self.gfx))
        } else {
            None
        }
    }

    /// Overwrites the keypad latch.
    pub fn set_keys(&mut self, keys: [bool; 16])
        requires
            old(self).wf(),
        ensures
            final(self).wf(),
            final(self)@ == (MachineState { key_pressed: keys@, ..old(self)@ }),
    {
        let mut k: usize = 0;
        while k < NUM_REGS
            invariant
                k <= NUM_REGS,
                self.wf(),
                self@ == (MachineState { key_pressed: self.key_pressed@, ..old(self)@ }),
                forall|j: int| 0 <= j < k ==> self.key_pressed@[j] == keys@[j],
            decreases NUM_REGS - k,
        {
            self.key_pressed.set(k, keys[k]);
            k = k + 1;
        }
        assert(self.key_pressed@ =~= keys@);
    }

    fn opcode_00e0(&mut self)
        requires
            old(self).wf(),
            old(self).pc + 1 < MEMORY_SIZE,
        ensures
            final(self).wf(),
            execute(old(self)@, Instr::Clear, 0) == Ok::<MachineState, Chip8Error>(final(self)@),
    {
        let mut p: usize = 0;
        while p < SCREEN_SIZE
            invariant
                p <= SCREEN_SIZE,
                self@ == (MachineState { gfx: self.gfx@, ..old(self)@ }),
                self.gfx@.len() == SCREEN_SIZE,
                forall|j: int| 0 <= j < p ==> !self.gfx@[j],
            decreases SCREEN_SIZE - p,
        {
            self.gfx.set(p, false);
            p = p + 1;
        }
        assert(self.gfx@ =~= Seq::new(SCREEN_SIZE as nat, |j: int| false));
        self.pc = self.pc + 2;
        self.draw_flag = true;
    }

    fn opcode_00ee(&mut self) -> (r: Result<(), Chip8Error>)
        requires
            old(self).wf(),
        ensures
            final(self).wf(),
            step_outcome(old(self)@, final(self)@, r, execute(old(self)@, Instr::Return, 0)),
    {
        match self.stack.pop() {
            Some(a) => {
                self.pc = a;
                Ok(())
            },
            None => Err(Chip8Error::StackUnderflow),
        }
    }

    fn opcode_1nnn(&mut self, nnn: u16)
        requires
            old(self).wf(),
        ensures
            final(self).wf(),
            execute(old(self)@, Instr::Jump { nnn }, 0) == Ok::<MachineState, Chip8Error>(final(self)@),
    {
        self.pc = nnn as usize;
    }

    fn opcode_2nnn(&mut self, nnn: u16) -> (r: Result<(), Chip8Error>)
        requires
            old(self).wf(),
            old(self).pc + 1 < MEMORY_SIZE,
        ensures
            final(self).wf(),
            step_outcome(old(self)@, final(self)@, r, execute(old(self)@, Instr::Call { nnn }, 0)),
    {
        if self.stack.len() >= STACK_DEPTH {
            return Err(Chip8Error::StackOverflow);
        }
        self.stack.push(self.pc + 2);
        self.pc = nnn as usize;
        Ok(())
    }

    /// Moves PC past the next instruction when `cond` holds, else past this one.
    fn skip_when(&mut self, cond: bool)
        requires
            old(self).wf(),
            old(self).pc + 1 < MEMORY_SIZE,
        ensures
            final(self).wf(),
            final(self)@ == skip_if(old(self)@, cond),
    {
        if cond {
            self.pc = self.pc + 4;
        } else {
            self.pc = self.pc + 2;
        }
    }

    fn opcode_3xnn(&mut self, x: usize, nn: u8)
        requires
            old(self).wf(),
            old(self).pc + 1 < MEMORY_SIZE,
            x < NUM_REGS,
        ensures
            final(self).wf(),
            execute(old(self)@, Instr::SkipEqImm { x, nn }, 0) == Ok::<MachineState, Chip8Error>(final(self)@),
    {
        let cond = self.v[x] == nn;
        self.skip_when(cond);
    }

    fn opcode_4xnn(&mut self, x: usize, nn: u8)
        requires
            old(self).wf(),
            old(self).pc + 1 < MEMORY_SIZE,
            x < NUM_REGS,
        ensures
            final(self).wf(),
            execute(old(self)@, Instr::SkipNeImm { x, nn }, 0) == Ok::<MachineState, Chip8Error>(final(self)@),
    {
        let cond = self.v[x] != nn;
        self.skip_when(cond);
    }

    fn opcode_5xy0(&mut self, x: usize, y: usize)
        requires
            old(self).wf(),
            old(self).pc + 1 < MEMORY_SIZE,
            x < NUM_REGS,
            y < NUM_REGS,
        ensures
            final(self).wf(),
            execute(old(self)@, Instr::SkipEqReg { x, y }, 0) == Ok::<MachineState, Chip8Error>(final(self)@),
    {
        let cond = self.v[x] == self.v[y];
        self.skip_when(cond);
    }

    fn opcode_9xy0(&mut self, x: usize, y: usize)
        requires
            old(self).wf(),
            old(self).pc + 1 < MEMORY_SIZE,
            x < NUM_REGS,
            y < NUM_REGS,
        ensures
            final(self).wf(),
            execute(old(self)@, Instr::SkipNeReg { x, y }, 0) == Ok::<MachineState, Chip8Error>(final(self)@),
    {
        let cond = self.v[x] != self.v[y];
        self.skip_when(cond);
    }

    /// Sets VX to `val` and moves PC past this instruction.
    fn set_reg_next(&mut self, x: usize, val: u8)
        requires
            old(self).wf(),
            old(self).pc + 1 < MEMORY_SIZE,
            x < NUM_REGS,
        ensures
            final(self).wf(),
            final(self)@ == with_reg(advance(old(self)@), x, val),
    {
        self.v.set(x, val);
        self.pc = self.pc + 2;
    }

    /// Sets VX to `val`, then VF to `flag`, and moves PC past this instruction.
    fn set_reg_flag_next(&mut self, x: usize, val: u8, flag: u8)
        requires
            old(self).wf(),
            old(self).pc + 1 < MEMORY_SIZE,
            x < NUM_REGS,
        ensures
            final(self).wf(),
            final(self)@ == with_reg_flag(advance(old(self)@), x, val, flag),
    {
        self.v.set(x, val);
        self.v.set(FLAG_REG, flag);
        self.pc = self.pc + 2;
    }

    fn opcode_6xnn(&mut self, x: usize, nn: u8)
        requires
            old(self).wf(),
            old(self).pc + 1 < MEMORY_SIZE,
            x < NUM_REGS,
        ensures
            final(self).wf(),
            execute(old(self)@, Instr::SetImm { x, nn }, 0) == Ok::<MachineState, Chip8Error>(final(self)@),
    {
        self.set_reg_next(x, nn);
    }

    fn opcode_7xnn(&mut self, x: usize, nn: u8)
        requires
            old(self).wf(),
            old(self).pc + 1 < MEMORY_SIZE,
            x < NUM_REGS,
        ensures
            final(self).wf(),
            execute(old(self)@, Instr::AddImm { x, nn }, 0) == Ok::<MachineState, Chip8Error>(final(self)@),
    {
        let val = ((self.v[x] as u16 + nn as u16) % 256) as u8;
        self.set_reg_next(x, val);
    }

    fn opcode_8xy0(&mut self, x: usize, y: usize)
        requires
            old(self).wf(),
            old(self).pc + 1 < MEMORY_SIZE,
            x < NUM_REGS,
            y < NUM_REGS,
        ensures
            final(self).wf(),
            execute(old(self)@, Instr::Move { x, y }, 0) == Ok::<MachineState, Chip8Error>(final(self)@),
    {
        let val = self.v[y];
        self.set_reg_next(x, val);
    }

    fn opcode_8xy1(&mut self, x: usize, y: usize)
        requires
            old(self).wf(),
            old(self).pc + 1 < MEMORY_SIZE,
            x < NUM_REGS,
            y < NUM_REGS,
        ensures
            final(self).wf(),
            execute(old(self)@, Instr::Or { x, y }, 0) == Ok::<MachineState, Chip8Error>(final(self)@),
    {
        let val = self.v[x] | self.v[y];
        self.set_reg_next(x, val);
    }

    fn opcode_8xy2(&mut self, x: usize, y: usize)
        requires
            old(self).wf(),
            old(self).pc + 1 < MEMORY_SIZE,
            x < NUM_REGS,
            y < NUM_REGS,
        ensures
            final(self).wf(),
            execute(old(self)@, Instr::And { x, y }, 0) == Ok::<MachineState, Chip8Error>(final(self)@),
    {
        let val = self.v[x] & self.v[y];
        self.set_reg_next(x, val);
    }

    fn opcode_8xy3(&mut self, x: usize, y: usize)
        requires
            old(self).wf(),
            old(self).pc + 1 < MEMORY_SIZE,
            x < NUM_REGS,
            y < NUM_REGS,
        ensures
            final(self).wf(),
            execute(old(self)@, Instr::Xor { x, y }, 0) == Ok::<MachineState, Chip8Error>(final(self)@),
    {
        let val = self.v[x] ^ self.v[y];
        self.set_reg_next(x, val);
    }

    fn opcode_8xy4(&mut self, x: usize, y: usize)
        requires
            old(self).wf(),
            old(self).pc + 1 < MEMORY_SIZE,
            x < NUM_REGS,
            y < NUM_REGS,
        ensures
            final(self).wf(),
            execute(old(self)@, Instr::AddReg { x, y }, 0) == Ok::<MachineState, Chip8Error>(final(self)@),
    {
        let sum = self.v[x] as u16 + self.v[y] as u16;
        let flag: u8 = if sum > 255 { 1 } else { 0 };
        self.set_reg_flag_next(x, (sum % 256) as u8, flag);
    }

    fn opcode_8xy5(&mut self, x: usize, y: usize)
        requires
            old(self).wf(),
            old(self).pc + 1 < MEMORY_SIZE,
            x < NUM_REGS,
            y < NUM_REGS,
        ensures
            final(self).wf(),
            execute(old(self)@, Instr::SubReg { x, y }, 0) == Ok::<MachineState, Chip8Error>(final(self)@),
    {
        let a = self.v[x];
        let b = self.v[y];
        let flag: u8 = if a >= b { 1 } else { 0 };
        self.set_reg_flag_next(x, ((a as u16 + 256 - b as u16) % 256) as u8, flag);
    }

    fn opcode_8xy6(&mut self, x: usize, y: usize)
        requires
            old(self).wf(),
            old(self).pc + 1 < MEMORY_SIZE,
            x < NUM_REGS,
            y < NUM_REGS,
        ensures
            final(self).wf(),
            execute(old(self)@, Instr::ShiftRight { x, y }, 0) == Ok::<MachineState, Chip8Error>(final(self)@),
    {
        let a = self.v[x];
        self.set_reg_flag_next(x, a / 2, a % 2);
    }

    fn opcode_8xy7(&mut self, x: usize, y: usize)
        requires
            old(self).wf(),
            old(self).pc + 1 < MEMORY_SIZE,
            x < NUM_REGS,
            y < NUM_REGS,
        ensures
            final(self).wf(),
            execute(old(self)@, Instr::SubReverse { x, y }, 0) == Ok::<MachineState, Chip8Error>(final(self)@),
    {
        let a = self.v[x];
        let b = self.v[y];
        let flag: u8 = if b >= a { 1 } else { 0 };
        self.set_reg_flag_next(x, ((b as u16 + 256 - a as u16) % 256) as u8, flag);
    }

    fn opcode_8xye(&mut self, x: usize, y: usize)
        requires
            old(self).wf(),
            old(self).pc + 1 < MEMORY_SIZE,
            x < NUM_REGS,
            y < NUM_REGS,
        ensures
            final(self).wf(),
            execute(old(self)@, Instr::ShiftLeft { x, y }, 0) == Ok::<MachineState, Chip8Error>(final(self)@),
    {
        let a = self.v[x];
        self.set_reg_flag_next(x, ((a as u16 * 2) % 256) as u8, a / 128);
    }

    fn opcode_annn(&mut self, nnn: u16)
        requires
            old(self).wf(),
            old(self).pc + 1 < MEMORY_SIZE,
        ensures
            final(self).wf(),
            execute(old(self)@, Instr::SetIndex { nnn }, 0) == Ok::<MachineState, Chip8Error>(final(self)@),
    {
        self.i = nnn;
        self.pc = self.pc + 2;
    }

    fn opcode_bnnn(&mut self, nnn: u16)
        requires
            old(self).wf(),
        ensures
            final(self).wf(),
            execute(old(self)@, Instr::JumpOffset { nnn }, 0) == Ok::<MachineState, Chip8Error>(final(self)@),
    {
        self.pc = nnn as usize + self.v[0] as usize;
    }

    /// CXNN, with the random byte supplied.
    fn opcode_cxnn(&mut self, x: usize, nn: u8, random: u8)
        requires
            old(self).wf(),
            old(self).pc + 1 < MEMORY_SIZE,
            x < NUM_REGS,
        ensures
            final(self).wf(),
            execute(old(self)@, Instr::Random { x, nn }, random) == Ok::<MachineState, Chip8Error>(final(self)@),
    {
        self.set_reg_next(x, nn & random);
    }

    fn opcode_dxyn(&mut self, x: usize, y: usize, n: usize) -> (r: Result<(), Chip8Error>)
        requires
            old(self).wf(),
            old(self).pc + 1 < MEMORY_SIZE,
            x < NUM_REGS,
            y < NUM_REGS,
            n < 16,
        ensures
            final(self).wf(),
            step_outcome(old(self)@, final(self)@, r, execute(old(self)@, Instr::Draw { x, y, n }, 0)),
    {
        if self.i as usize + n > MEMORY_SIZE {
            return Err(Chip8Error::AddressOutOfRange);
        }
        let vx = self.v[x];
        let vy = self.v[y];
        let hit = xor_sprite(&mut self.gfx, &self.memory, self.i, vx, vy, n);
        self.v.set(FLAG_REG, if hit { 1 } else { 0 });
        self.pc = self.pc + 2;
        self.draw_flag = true;
        Ok(())
    }

    fn opcode_ex9e(&mut self, x: usize) -> (r: Result<(), Chip8Error>)
        requires
            old(self).wf(),
            old(self).pc + 1 < MEMORY_SIZE,
            x < NUM_REGS,
        ensures
            final(self).wf(),
            step_outcome(old(self)@, final(self)@, r, execute(old(self)@, Instr::SkipKeyDown { x }, 0)),
    {
        let k = self.v[x];
        if k as usize >= NUM_REGS {
            return Err(Chip8Error::KeyOutOfRange(k));
        }
        let cond = self.key_pressed[k as usize];
        self.skip_when(cond);
        Ok(())
    }

    fn opcode_exa1(&mut self, x: usize) -> (r: Result<(), Chip8Error>)
        requires
            old(self).wf(),
            old(self).pc + 1 < MEMORY_SIZE,
            x < NUM_REGS,
        ensures
            final(self).wf(),
            step_outcome(old(self)@, final(self)@, r, execute(old(self)@, Instr::SkipKeyUp { x }, 0)),
    {
        let k = self.v[x];
        if k as usize >= NUM_REGS {
            return Err(Chip8Error::KeyOutOfRange(k));
        }
        let cond = !self.key_pressed[k as usize];
        self.skip_when(cond);
        Ok(())
    }

    fn opcode_fx07(&mut self, x: usize)
        requires
            old(self).wf(),
            old(self).pc + 1 < MEMORY_SIZE,
            x < NUM_REGS,
        ensures
            final(self).wf(),
            execute(old(self)@, Instr::GetDelay { x }, 0) == Ok::<MachineState, Chip8Error>(final(self)@),
    {
        let val = self.delay_timer;
        self.set_reg_next(x, val);
    }

    fn opcode_fx0a(&mut self, x: usize)
        requires
            old(self).wf(),
            old(self).pc + 1 < MEMORY_SIZE,
            x < NUM_REGS,
        ensures
            final(self).wf(),
            execute(old(self)@, Instr::WaitKey { x }, 0) == Ok::<MachineState, Chip8Error>(final(self)@),
    {
        if !self.awaiting_key {
            self.awaiting_key = true;
            self.wait_keys = copy_flags(&self.key_pressed);
            return;
        }
        let mut k: usize = 0;
        while k < NUM_REGS && !(self.key_pressed[k] && !self.wait_keys[k])
            invariant
                k <= NUM_REGS,
                self.wf(),
                self@ == old(self)@,
                first_new_key(self.key_pressed@, self.wait_keys@, 0) == first_new_key(
                    self.key_pressed@,
                    self.wait_keys@,
                    k as int,
                ),
            decreases NUM_REGS - k,
        {
            k = k + 1;
        }
        if k < NUM_REGS {
            self.v.set(x, k as u8);
            self.awaiting_key = false;
            self.pc = self.pc + 2;
        } else {
            self.wait_keys = copy_flags(&self.key_pressed);
        }
    }

    fn opcode_fx15(&mut self, x: usize)
        requires
            old(self).wf(),
            old(self).pc + 1 < MEMORY_SIZE,
            x < NUM_REGS,
        ensures
            final(self).wf(),
            execute(old(self)@, Instr::SetDelay { x }, 0) == Ok::<MachineState, Chip8Error>(final(self)@),
    {
        self.delay_timer = self.v[x];
        self.pc = self.pc + 2;
    }

    fn opcode_fx18(&mut self, x: usize)
        requires
            old(self).wf(),
            old(self).pc + 1 < MEMORY_SIZE,
            x < NUM_REGS,
        ensures
            final(self).wf(),
            execute(old(self)@, Instr::SetSound { x }, 0) == Ok::<MachineState, Chip8Error>(final(self)@),
    {
        self.sound_timer = self.v[x];
        self.pc = self.pc + 2;
    }

    fn opcode_fx1e(&mut self, x: usize)
        requires
            old(self).wf(),
            old(self).pc + 1 < MEMORY_SIZE,
            x < NUM_REGS,
        ensures
            final(self).wf(),
            execute(old(self)@, Instr::AddIndex { x }, 0) == Ok::<MachineState, Chip8Error>(final(self)@),
    {
        self.i = ((self.i as u32 + self.v[x] as u32) % 0x10000) as u16;
        self.pc = self.pc + 2;
    }

    fn opcode_fx29(&mut self, x: usize)
        requires
            old(self).wf(),
            old(self).pc + 1 < MEMORY_SIZE,
            x < NUM_REGS,
        ensures
            final(self).wf(),
            execute(old(self)@, Instr::FontGlyph { x }, 0) == Ok::<MachineState, Chip8Error>(final(self)@),
    {
        let offset: u16 = self.v[x] as u16 * GLYPH_SIZE as u16;
        self.i = FONT_BASE as u16 + offset;
        self.pc = self.pc + 2;
    }

    fn opcode_fx33(&mut self, x: usize) -> (r: Result<(), Chip8Error>)
        requires
            old(self).wf(),
            old(self).pc + 1 < MEMORY_SIZE,
            x < NUM_REGS,
        ensures
            final(self).wf(),
            step_outcome(old(self)@, final(self)@, r, execute(old(self)@, Instr::StoreBcd { x }, 0)),
    {
        if self.i as usize + 3 > MEMORY_SIZE {
            return Err(Chip8Error::AddressOutOfRange);
        }
        let a = self.i as usize;
        let b = self.v[x];
        self.memory.set(a, b / 100);
        self.memory.set(a + 1, (b % 100) / 10);
        self.memory.set(a + 2, b % 10);
        self.pc = self.pc + 2;
        assert(self.memory@ =~= write_block(old(self).memory@, a as int, bcd_digits(b)));
        Ok(())
    }

    fn opcode_fx55(&mut self, x: usize) -> (r: Result<(), Chip8Error>)
        requires
            old(self).wf(),
            old(self).pc + 1 < MEMORY_SIZE,
            x < NUM_REGS,
        ensures
            final(self).wf(),
            step_outcome(old(self)@, final(self)@, r, execute(old(self)@, Instr::StoreRegs { x }, 0)),
    {
        if self.i as usize + x + 1 > MEMORY_SIZE {
            return Err(Chip8Error::AddressOutOfRange);
        }
        let base = self.i as usize;
        let mut k: usize = 0;
        while k <= x
            invariant
                k <= x + 1,
                x < NUM_REGS,
                base == old(self).i,
                base + x + 1 <= MEMORY_SIZE,
                self.wf(),
                self@ == (MachineState { memory: self.memory@, ..old(self)@ }),
                self.memory@ == write_block(old(self).memory@, base as int, old(self).v@.subrange(0, k as int)),
            decreases x + 1 - k,
        {
            let val = self.v[k];
            self.memory.set(base + k, val);
            k = k + 1;
            assert(self.memory@ =~= write_block(old(self).memory@, base as int, old(self).v@.subrange(0, k as int)));
        }
        self.pc = self.pc + 2;
        Ok(())
    }

    fn opcode_fx65(&mut self, x: usize) -> (r: Result<(), Chip8Error>)
        requires
            old(self).wf(),
            old(self).pc + 1 < MEMORY_SIZE,
            x < NUM_REGS,
        ensures
            final(self).wf(),
            step_outcome(old(self)@, final(self)@, r, execute(old(self)@, Instr::LoadRegs { x }, 0)),
    {
        if self.i as usize + x + 1 > MEMORY_SIZE {
            return Err(Chip8Error::AddressOutOfRange);
        }
        let base = self.i as usize;
        let mut k: usize = 0;
        while k <= x
            invariant
                k <= x + 1,
                x < NUM_REGS,
                base == old(self).i,
                base + x + 1 <= MEMORY_SIZE,
                self.wf(),
                self@ == (MachineState { v: self.v@, ..old(self)@ }),
                self.v@ == read_block(old(self).v@, old(self).memory@, base as int, k as int - 1),
            decreases x + 1 - k,
        {
            let val = self.memory[base + k];
            self.v.set(k, val);
            k = k + 1;
            assert(self.v@ =~= read_block(old(self).v@, old(self).memory@, base as int, k as int - 1));
        }
        self.pc = self.pc + 2;
        Ok(())
    }

    /// Executes one decoded instruction; `random` is the byte CXNN uses.
    fn execute_instr(&mut self, ins: Instr, random: u8) -> (r: Result<(), Chip8Error>)
        requires
            old(self).wf(),
            old(self).pc + 1 < MEMORY_SIZE,
            operands_in_range(ins),
        ensures
            final(self).wf(),
            step_outcome(old(self)@, final(self)@, r, execute(old(self)@, ins, random)),
    {
        match ins {
            Instr::Clear => {
                self.opcode_00e0();
                Ok(())
            },
            Instr::Return => self.opcode_00ee(),
            Instr::Jump { nnn } => {
                self.opcode_1nnn(nnn);
                Ok(())
            },
            Instr::Call { nnn } => self.opcode_2nnn(nnn),
            Instr::SkipEqImm { x, nn } => {
                self.opcode_3xnn(x, nn);
                Ok(())
            },
            Instr::SkipNeImm { x, nn } => {
                self.opcode_4xnn(x, nn);
                Ok(())
            },
            Instr::SkipEqReg { x, y } => {
                self.opcode_5xy0(x, y);
                Ok(())
            },
            Instr::SetImm { x, nn } => {
                self.opcode_6xnn(x, nn);
                Ok(())
            },
            Instr::AddImm { x, nn } => {
                self.opcode_7xnn(x, nn);
                Ok(())
            },
            Instr::Move { x, y } => {
                self.opcode_8xy0(x, y);
                Ok(())
            },
            Instr::Or { x, y } => {
                self.opcode_8xy1(x, y);
                Ok(())
            },
            Instr::And { x, y } => {
                self.opcode_8xy2(x, y);
                Ok(())
            },
            Instr::Xor { x, y } => {
                self.opcode_8xy3(x, y);
                Ok(())
            },
            Instr::AddReg { x, y } => {
                self.opcode_8xy4(x, y);
                Ok(())
            },
            Instr::SubReg { x, y } => {
                self.opcode_8xy5(x, y);
                Ok(())
            },
            Instr::ShiftRight { x, y } => {
                self.opcode_8xy6(x, y);
                Ok(())
            },
            Instr::SubReverse { x, y } => {
                self.opcode_8xy7(x, y);
                Ok(())
            },
            Instr::ShiftLeft { x, y } => {
                self.opcode_8xye(x, y);
                Ok(())
            },
            Instr::SkipNeReg { x, y } => {
                self.opcode_9xy0(x, y);
                Ok(())
            },
            Instr::SetIndex { nnn } => {
                self.opcode_annn(nnn);
                Ok(())
            },
            Instr::JumpOffset { nnn } => {
                self.opcode_bnnn(nnn);
                Ok(())
            },
            Instr::Random { x, nn } => {
                self.opcode_cxnn(x, nn, random);
                Ok(())
            },
            Instr::Draw { x, y, n } => self.opcode_dxyn(x, y, n),
            Instr::SkipKeyDown { x } => self.opcode_ex9e(x),
            Instr::SkipKeyUp { x } => self.opcode_exa1(x),
            Instr::GetDelay { x } => {
                self.opcode_fx07(x);
                Ok(())
            },
            Instr::WaitKey { x } => {
                self.opcode_fx0a(x);
                Ok(())
            },
            Instr::SetDelay { x } => {
                self.opcode_fx15(x);
                Ok(())
            },
            Instr::SetSound { x } => {
                self.opcode_fx18(x);
                Ok(())
            },
            Instr::AddIndex { x } => {
                self.opcode_fx1e(x);
                Ok(())
            },
            Instr::FontGlyph { x } => {
                self.opcode_fx29(x);
                Ok(())
            },
            Instr::StoreBcd { x } => self.opcode_fx33(x),
            Instr::StoreRegs { x } => self.opcode_fx55(x),
            Instr::LoadRegs { x } => self.opcode_fx65(x),
        }
    }

    /// One fetch-decode-execute step, timers untouched; `random` is the byte
    /// CXNN uses. A fault leaves the machine as it was, so it reports the
    /// same fault again rather than run on.
    pub fn step(&mut self, random: u8) -> (r: Result<(), Chip8Error>)
        requires
            old(self).wf(),
        ensures
            final(self).wf(),
            step_outcome(old(self)@, final(self)@, r, cycle_spec(old(self)@, random)),
    {
        if self.pc >= MEMORY_SIZE - 1 {
            return Err(Chip8Error::AddressOutOfRange);
        }
        let w: u16 = (self.memory[self.pc] as u16) * 256 + (self.memory[self.pc + 1] as u16);
        assert(w == fetch_spec(self@));
        match decode(w) {
            None => Err(Chip8Error::UnknownOpcode(w)),
            Some(ins) => {
                proof {
                    lemma_decoded_in_range(w);
                }
                let prev = self.opcode;
                self.opcode = w;
                let r = self.execute_instr(ins, random);
                if r.is_err() {
                    self.opcode = prev;
                }
                r
            },
        }
    }

    /// One cycle: a step with a fresh random byte, then a timer tick when the
    /// step succeeded. Returns whether the beep fires.
    pub fn emulate_cycle(&mut self) -> (r: Result<bool, Chip8Error>)
        requires
            old(self).wf(),
        ensures
            final(self).wf(),
            exists|random: u8|
                match #[trigger] cycle_spec(old(self)@, random) {
                    Ok(t) => r == Ok::<bool, Chip8Error>(beeps(t)) && final(self)@ == tick_spec(t),
                    Err(e) => r == Err::<bool, Chip8Error>(e) && final(self)@ == old(self)@,
                },
    {
        let random = random_byte();
        match self.step(random) {
            Ok(()) => {
                let beep = self.update_timers();
                assert(cycle_spec(old(self)@, random) is Ok);
                Ok(beep)
            },
            Err(e) => Err(e),
        }
    }

    /// Moves both timers one step toward zero. Returns whether the beep
    /// fires: exactly when the sound timer goes from 1 to 0.
    pub fn update_timers(&mut self) -> (beep: bool)
        requires
            old(self).wf(),
        ensures
            final(self).wf(),
            final(self)@ == tick_spec(old(self)@),
            beep == beeps(old(self)@),
    {
        if self.delay_timer > 0 {
            self.delay_timer = self.delay_timer - 1;
        }
        let mut beep = false;
        if self.sound_timer > 0 {
            if self.sound_timer == 1 {
                beep = true;
            }
            self.sound_timer = self.sound_timer - 1;
        }
        beep
    }
}

} // verus!
