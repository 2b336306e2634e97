//! Properties of the instruction semantics that relate several steps.
use vstd::prelude::*;
use crate::instr::Instr;
use crate::machine::{
    MachineState, Chip8Error, execute, cycle_spec, sprite_covers, tick_spec, beeps, FLAG_REG, NUM_REGS,
    STACK_DEPTH, SCREEN_SIZE,
};
use crate::memory::MEMORY_SIZE;

verus! {

/// Setting a register to `nn` and then adding `mm` to it leaves
/// `(nn + mm) mod 256` in it.
pub proof fn law_set_then_add(s: MachineState, x: usize, nn: u8, mm: u8, rnd: u8)
    requires
        s.wf(),
        x < NUM_REGS,
    ensures
        execute(s, Instr::SetImm { x, nn }, rnd) matches Ok(t) && execute(t, Instr::AddImm { x, nn: mm }, rnd) matches Ok(u)
            && u.v[x as int] == (nn + mm) % 256,
{
}

/// In a program, `6XNN` directly followed by `7XMM` leaves `(NN + MM) mod 256`
/// in VX after two cycles, whatever random bytes the cycles are given.
pub proof fn law_set_then_add_program(s: MachineState, x: u8, nn: u8, mm: u8, r1: u8, r2: u8)
    requires
        s.wf(),
        x < NUM_REGS,
        s.pc + 3 < MEMORY_SIZE,
        s.memory[s.pc as int] == 0x60 + x,
        s.memory[s.pc + 1] == nn,
        s.memory[s.pc + 2] == 0x70 + x,
        s.memory[s.pc + 3] == mm,
    ensures
        cycle_spec(s, r1) matches Ok(t) && cycle_spec(t, r2) matches Ok(u)
            && u.v[x as int] == (nn + mm) % 256 && u.pc == s.pc + 4,
{
    let w1 = ((0x60 + x) * 256 + nn) as u16;
    let w2 = ((0x70 + x) * 256 + mm) as u16;
    assert(w1 / 4096 == 6 && (w1 / 256) % 16 == x && w1 % 256 == nn) by (nonlinear_arith)
        requires
            w1 == (0x60 + x) * 256 + nn,
            x < 16,
            nn < 256,
    ;
    assert(w2 / 4096 == 7 && (w2 / 256) % 16 == x && w2 % 256 == mm) by (nonlinear_arith)
        requires
            w2 == (0x70 + x) * 256 + mm,
            x < 16,
            mm < 256,
    ;
}

/// Clearing the screen unsets every pixel and marks the framebuffer changed.
pub proof fn law_clear_screen(s: MachineState, rnd: u8)
    requires
        s.wf(),
    ensures
        execute(s, Instr::Clear, rnd) matches Ok(t) && t.draw_flag && t.gfx.len() == SCREEN_SIZE
            && forall|p: int| 0 <= p < SCREEN_SIZE ==> !#[trigger] t.gfx[p],
{
}

/// Drawing the same sprite twice at the same place restores the
/// framebuffer, and the second draw reports a collision exactly when some
/// pixel of the sprite was set going into it. The sprite's coordinates must
/// not be held in VF, which the first draw overwrites.
pub proof fn law_draw_twice(s: MachineState, x: usize, y: usize, n: usize, rnd: u8)
    requires
        s.wf(),
        x < FLAG_REG,
        y < FLAG_REG,
        n < 16,
        s.i + n <= MEMORY_SIZE,
    ensures
        execute(s, Instr::Draw { x, y, n }, rnd) matches Ok(t) && execute(t, Instr::Draw { x, y, n }, rnd) matches Ok(u)
            && u.gfx == s.gfx
            && (u.v[FLAG_REG as int] == 0 <==> forall|p: int|
                0 <= p < SCREEN_SIZE && sprite_covers(t.memory, t.i, t.v[x as int], t.v[y as int], n as int, p)
                    ==> !#[trigger] t.gfx[p]),
{
    let t = execute(s, Instr::Draw { x, y, n }, rnd).get_Ok_0();
    let u = execute(t, Instr::Draw { x, y, n }, rnd).get_Ok_0();
    assert(t.v[x as int] == s.v[x as int] && t.v[y as int] == s.v[y as int]);
    assert(u.gfx =~= s.gfx);
}

/// A skip advances PC by 4 when its condition holds and by 2 otherwise,
/// and changes nothing else.
pub proof fn law_skip_distance(s: MachineState, x: usize, y: usize, nn: u8, rnd: u8)
    requires
        s.wf(),
        x < NUM_REGS,
        y < NUM_REGS,
        s.pc + 1 < MEMORY_SIZE,
    ensures
        execute(s, Instr::SkipEqImm { x, nn }, rnd) == Ok::<MachineState, Chip8Error>(
            MachineState { pc: (s.pc + if s.v[x as int] == nn { 4int } else { 2 }) as usize, ..s },
        ),
        execute(s, Instr::SkipNeImm { x, nn }, rnd) == Ok::<MachineState, Chip8Error>(
            MachineState { pc: (s.pc + if s.v[x as int] != nn { 4int } else { 2 }) as usize, ..s },
        ),
        execute(s, Instr::SkipEqReg { x, y }, rnd) == Ok::<MachineState, Chip8Error>(
            MachineState { pc: (s.pc + if s.v[x as int] == s.v[y as int] { 4int } else { 2 }) as usize, ..s },
        ),
        execute(s, Instr::SkipNeReg { x, y }, rnd) == Ok::<MachineState, Chip8Error>(
            MachineState { pc: (s.pc + if s.v[x as int] != s.v[y as int] { 4int } else { 2 }) as usize, ..s },
        ),
{
}

/// The beep fires on the tick that takes the sound timer from 1 to 0, then
/// not again until the timer is set anew; it never fires at 0 or above 1.
pub proof fn law_beep_once(s: MachineState)
    ensures
        beeps(s) <==> s.sound_timer == 1,
        beeps(s) ==> tick_spec(s).sound_timer == 0 && !beeps(tick_spec(s)),
        s.sound_timer == 0 ==> !beeps(tick_spec(s)),
{
}

/// The machine after a call to `target` made from address `site`; the
/// state unchanged if the call faults.
pub open spec fn call_from(s: MachineState, site: usize, target: u16) -> MachineState {
    match execute(MachineState { pc: site, ..s }, Instr::Call { nnn: target }, 0) {
        Ok(t) => t,
        Err(_) => s,
    }
}

/// The machine after the calls made from `sites[j]` to `targets[j]`, in order.
pub open spec fn after_calls(s: MachineState, sites: Seq<usize>, targets: Seq<u16>) -> MachineState
    decreases sites.len(),
{
    if sites.len() == 0 {
        s
    } else {
        call_from(after_calls(s, sites.drop_last(), targets.drop_last()), sites.last(), targets.last())
    }
}

/// The machine after `m` returns; stops at the first one that faults.
pub open spec fn after_returns(s: MachineState, m: nat) -> MachineState
    decreases m,
{
    if m == 0 {
        s
    } else {
        let prev = after_returns(s, (m - 1) as nat);
        match execute(prev, Instr::Return, 0) {
            Ok(t) => t,
            Err(_) => prev,
        }
    }
}

/// The return address a call made from each site pushes.
pub open spec fn return_sites(sites: Seq<usize>) -> Seq<usize> {
    sites.map_values(|a: usize| (a + 2) as usize)
}

proof fn lemma_calls_push(s: MachineState, sites: Seq<usize>, targets: Seq<u16>)
    requires
        s.wf(),
        sites.len() == targets.len(),
        s.stack.len() + sites.len() <= STACK_DEPTH,
    ensures
        after_calls(s, sites, targets).wf(),
        after_calls(s, sites, targets).stack == s.stack + return_sites(sites),
    decreases sites.len(),
{
    if sites.len() == 0 {
        assert(s.stack + return_sites(sites) =~= s.stack);
    } else {
        let init = sites.drop_last();
        lemma_calls_push(s, init, targets.drop_last());
        assert(return_sites(sites) =~= return_sites(init).push((sites.last() + 2) as usize));
        assert(s.stack + return_sites(sites) =~= (s.stack + return_sites(init)).push(
            (sites.last() + 2) as usize,
        ));
    }
}

proof fn lemma_returns_pop(c: MachineState, base: Seq<usize>, ret: Seq<usize>, m: nat)
    requires
        c.wf(),
        c.stack == base + ret,
        m <= ret.len(),
    ensures
        after_returns(c, m).wf(),
        after_returns(c, m).stack == base + ret.subrange(0, ret.len() - m),
        m > 0 ==> after_returns(c, m).pc == ret[ret.len() - m],
    decreases m,
{
    if m == 0 {
        assert(ret.subrange(0, ret.len() as int) =~= ret);
    } else {
        lemma_returns_pop(c, base, ret, (m - 1) as nat);
        let prev = after_returns(c, (m - 1) as nat);
        let k = ret.len() - (m - 1);
        assert(prev.stack.last() == ret[k - 1]);
        assert(prev.stack.drop_last() =~= base + ret.subrange(0, k - 1));
    }
}

/// Calls and returns follow a stack discipline: after a run of calls that
/// stays within the stack's depth, each return in turn lands just past the
/// latest call not yet returned from, and as many returns as calls leave the
/// stack as it was.
pub proof fn law_call_return(s: MachineState, sites: Seq<usize>, targets: Seq<u16>)
    requires
        s.wf(),
        sites.len() == targets.len(),
        s.stack.len() + sites.len() <= STACK_DEPTH,
        forall|j: int| 0 <= j < sites.len() ==> #[trigger] sites[j] + 1 < MEMORY_SIZE,
    ensures
        forall|m: nat|
            1 <= m <= sites.len() ==> #[trigger] after_returns(after_calls(s, sites, targets), m).pc == sites[sites.len() - m] + 2,
        after_returns(after_calls(s, sites, targets), sites.len()).stack == s.stack,
{
    let c = after_calls(s, sites, targets);
    lemma_calls_push(s, sites, targets);
    assert forall|m: nat| 1 <= m <= sites.len() implies #[trigger] after_returns(c, m).pc == sites[sites.len() - m]
        + 2 by {
        lemma_returns_pop(c, s.stack, return_sites(sites), m);
    }
    lemma_returns_pop(c, s.stack, return_sites(sites), sites.len());
    assert(s.stack + return_sites(sites).subrange(0, 0) =~= s.stack);
}

} // verus!
