//! Instruction words: field extraction and decoding into instruction forms.
use vstd::prelude::*;

verus! {

/// One decoded CHIP-8 instruction. Register operands `x`, `y` are indices
/// 0x0-0xF; `nn` is an immediate byte; `nnn` a 12-bit address; `n` a nibble.
#[derive(Clone, Copy, Debug, PartialEq, Eq)]
pub enum Instr {
    /// 00E0: clear the screen.
    Clear,
    /// 00EE: return from subroutine.
    Return,
    /// 1NNN: jump to NNN.
    Jump { nnn: u16 },
    /// 2NNN: call subroutine at NNN.
    Call { nnn: u16 },
    /// 3XNN: skip next if VX == NN.
    SkipEqImm { x: usize, nn: u8 },
    /// 4XNN: skip next if VX != NN.
    SkipNeImm { x: usize, nn: u8 },
    /// 5XY0: skip next if VX == VY.
    SkipEqReg { x: usize, y: usize },
    /// 6XNN: VX = NN.
    SetImm { x: usize, nn: u8 },
    /// 7XNN: VX += NN, wrapping, flag untouched.
    AddImm { x: usize, nn: u8 },
    /// 8XY0: VX = VY.
    Move { x: usize, y: usize },
    /// 8XY1: VX |= VY.
    Or { x: usize, y: usize },
    /// 8XY2: VX &= VY.
    And { x: usize, y: usize },
    /// 8XY3: VX ^= VY.
    Xor { x: usize, y: usize },
    /// 8XY4: VX += VY, VF = carry.
    AddReg { x: usize, y: usize },
    /// 8XY5: VX -= VY, VF = no borrow.
    SubReg { x: usize, y: usize },
    /// 8XY6: VX >>= 1, VF = bit shifted out.
    ShiftRight { x: usize, y: usize },
    /// 8XY7: VX = VY - VX, VF = no borrow.
    SubReverse { x: usize, y: usize },
    /// 8XYE: VX <<= 1, VF = bit shifted out.
    ShiftLeft { x: usize, y: usize },
    /// 9XY0: skip next if VX != VY.
    SkipNeReg { x: usize, y: usize },
    /// ANNN: I = NNN.
    SetIndex { nnn: u16 },
    /// BNNN: jump to NNN + V0.
    JumpOffset { nnn: u16 },
    /// CXNN: VX = NN & a random byte.
    Random { x: usize, nn: u8 },
    /// DXYN: draw an N-row sprite from memory at I at (VX, VY).
    Draw { x: usize, y: usize, n: usize },
    /// EX9E: skip next if key VX is down.
    SkipKeyDown { x: usize },
    /// EXA1: skip next if key VX is up.
    SkipKeyUp { x: usize },
    /// FX07: VX = delay timer.
    GetDelay { x: usize },
    /// FX0A: wait for a key press, store the key in VX.
    WaitKey { x: usize },
    /// FX15: delay timer = VX.
    SetDelay { x: usize },
    /// FX18: sound timer = VX.
    SetSound { x: usize },
    /// FX1E: I += VX, wrapping at 16 bits.
    AddIndex { x: usize },
    /// FX29: I = address of the font glyph for VX.
    FontGlyph { x: usize },
    /// FX33: store the decimal digits of VX at I, I+1, I+2.
    StoreBcd { x: usize },
    /// FX55: store V0..=VX at I.
    StoreRegs { x: usize },
    /// FX65: load V0..=VX from I.
    LoadRegs { x: usize },
}

/// The high nibble: the instruction family.
pub open spec fn family(w: u16) -> int {
    w as int / 4096
}

/// The second nibble: first register operand.
pub open spec fn field_x(w: u16) -> int {
    (w as int / 256) % 16
}

/// The third nibble: second register operand.
pub open spec fn field_y(w: u16) -> int {
    (w as int / 16) % 16
}

/// The low nibble.
pub open spec fn field_n(w: u16) -> int {
    w as int % 16
}

/// The low byte.
pub open spec fn field_nn(w: u16) -> int {
    w as int % 256
}

/// The low twelve bits.
pub open spec fn field_nnn(w: u16) -> int {
    w as int % 4096
}

/// The instruction an instruction word encodes, if any.
pub open spec fn decode_spec(w: u16) -> Option<Instr> {
    let x = field_x(w) as usize;
    let y = field_y(w) as usize;
    let n = field_n(w);
    let nn = field_nn(w) as u8;
    let nnn = field_nnn(w) as u16;
    let f = family(w);
    if f == 0x0 {
        if w == 0x00E0 {
            Some(Instr::Clear)
        } else if w == 0x00EE {
            Some(Instr::Return)
        } else {
            None
        }
    } else if f == 0x1 {
        Some(Instr::Jump { nnn })
    } else if f == 0x2 {
        Some(Instr::Call { nnn })
    } else if f == 0x3 {
        Some(Instr::SkipEqImm { x, nn })
    } else if f == 0x4 {
        Some(Instr::SkipNeImm { x, nn })
    } else if f == 0x5 {
        if n == 0 { Some(Instr::SkipEqReg { x, y }) } else { None }
    } else if f == 0x6 {
        Some(Instr::SetImm { x, nn })
    } else if f == 0x7 {
        Some(Instr::AddImm { x, nn })
    } else if f == 0x8 {
        if n == 0x0 {
            Some(Instr::Move { x, y })
        } else if n == 0x1 {
            Some(Instr::Or { x, y })
        } else if n == 0x2 {
            Some(Instr::And { x, y })
        } else if n == 0x3 {
            Some(Instr::Xor { x, y })
        } else if n == 0x4 {
            Some(Instr::AddReg { x, y })
        } else if n == 0x5 {
            Some(Instr::SubReg { x, y })
        } else if n == 0x6 {
            Some(Instr::ShiftRight { x, y })
        } else if n == 0x7 {
            Some(Instr::SubReverse { x, y })
        } else if n == 0xE {
            Some(Instr::ShiftLeft { x, y })
        } else {
            None
        }
    } else if f == 0x9 {
        if n == 0 { Some(Instr::SkipNeReg { x, y }) } else { None }
    } else if f == 0xA {
        Some(Instr::SetIndex { nnn })
    } else if f == 0xB {
        Some(Instr::JumpOffset { nnn })
    } else if f == 0xC {
        Some(Instr::Random { x, nn })
    } else if f == 0xD {
        Some(Instr::Draw { x, y, n: n as usize })
    } else if f == 0xE {
        if nn == 0x9E {
            Some(Instr::SkipKeyDown { x })
        } else if nn == 0xA1 {
            Some(Instr::SkipKeyUp { x })
        } else {
            None
        }
    } else {
        if nn == 0x07 {
            Some(Instr::GetDelay { x })
        } else if nn == 0x0A {
            Some(Instr::WaitKey { x })
        } else if nn == 0x15 {
            Some(Instr::SetDelay { x })
        } else if nn == 0x18 {
            Some(Instr::SetSound { x })
        } else if nn == 0x1E {
            Some(Instr::AddIndex { x })
        } else if nn == 0x29 {
            Some(Instr::FontGlyph { x })
        } else if nn == 0x33 {
            Some(Instr::StoreBcd { x })
        } else if nn == 0x55 {
            Some(Instr::StoreRegs { x })
        } else if nn == 0x65 {
            Some(Instr::LoadRegs { x })
        } else {
            None
        }
    }
}

/// Register operands, nibbles and addresses of an instruction are in range.
pub open spec fn operands_in_range(ins: Instr) -> bool {
    match ins {
        Instr::Jump { nnn } | Instr::Call { nnn } | Instr::SetIndex { nnn } | Instr::JumpOffset {
            nnn,
        } => nnn < 4096,
        Instr::SkipEqImm { x, .. } | Instr::SkipNeImm { x, .. } | Instr::SetImm { x, .. }
        | Instr::AddImm { x, .. } | Instr::Random { x, .. } => x < 16,
        Instr::SkipEqReg { x, y } | Instr::Move { x, y } | Instr::Or { x, y } | Instr::And { x, y }
        | Instr::Xor { x, y } | Instr::AddReg { x, y } | Instr::SubReg { x, y }
        | Instr::ShiftRight { x, y } | Instr::SubReverse { x, y } | Instr::ShiftLeft { x, y }
        | Instr::SkipNeReg { x, y } => x < 16 && y < 16,
        Instr::Draw { x, y, n } => x < 16 && y < 16 && n < 16,
        Instr::SkipKeyDown { x } | Instr::SkipKeyUp { x } | Instr::GetDelay { x }
        | Instr::WaitKey { x } | Instr::SetDelay { x } | Instr::SetSound { x }
        | Instr::AddIndex { x } | Instr::FontGlyph { x } | Instr::StoreBcd { x }
        | Instr::StoreRegs { x } | Instr::LoadRegs { x } => x < 16,
        Instr::Clear | Instr::Return => true,
    }
}

/// Every decoded instruction has its operands in range.
pub proof fn lemma_decoded_in_range(w: u16)
    ensures
        decode_spec(w) matches Some(ins) ==> operands_in_range(ins),
{
}

/// Decodes an instruction word; `None` for a word that encodes no instruction.
pub fn decode(w: u16) -> (r: Option<Instr>)
    ensures
        r == decode_spec(w),
{
    let f = w / 4096;
    let x = ((w / 256) % 16) as usize;
    let y = ((w / 16) % 16) as usize;
    let n = w % 16;
    let nn = (w % 256) as u8;
    let nnn = w % 4096;
    if f == 0x0 {
        if w == 0x00E0 {
            Some(Instr::Clear)
        } else if w == 0x00EE {
            Some(Instr::Return)
        } else {
            None
        }
    } else if f == 0x1 {
        Some(Instr::Jump { nnn })
    } else if f == 0x2 {
        Some(Instr::Call { nnn })
    } else if f == 0x3 {
        Some(Instr::SkipEqImm { x, nn })
    } else if f == 0x4 {
        Some(Instr::SkipNeImm { x, nn })
    } else if f == 0x5 {
        if n == 0 { Some(Instr::SkipEqReg { x, y }) } else { None }
    } else if f == 0x6 {
        Some(Instr::SetImm { x, nn })
    } else if f == 0x7 {
        Some(Instr::AddImm { x, nn })
    } else if f == 0x8 {
        if n == 0x0 {
            Some(Instr::Move { x, y })
        } else if n == 0x1 {
            Some(Instr::Or { x, y })
        } else if n == 0x2 {
            Some(Instr::And { x, y })
        } else if n == 0x3 {
            Some(Instr::Xor { x, y })
        } else if n == 0x4 {
            Some(Instr::AddReg { x, y })
        } else if n == 0x5 {
            Some(Instr::SubReg { x, y })
        } else if n == 0x6 {
            Some(Instr::ShiftRight { x, y })
        } else if n == 0x7 {
            Some(Instr::SubReverse { x, y })
        } else if n == 0xE {
            Some(Instr::ShiftLeft { x, y })
        } else {
            None
        }
    } else if f == 0x9 {
        if n == 0 { Some(Instr::SkipNeReg { x, y }) } else { None }
    } else if f == 0xA {
        Some(Instr::SetIndex { nnn })
    } else if f == 0xB {
        Some(Instr::JumpOffset { nnn })
    } else if f == 0xC {
        Some(Instr::Random { x, nn })
    } else if f == 0xD {
        Some(Instr::Draw { x, y, n: n as usize })
    } else if f == 0xE {
        if nn == 0x9E {
            Some(Instr::SkipKeyDown { x })
        } else if nn == 0xA1 {
            Some(Instr::SkipKeyUp { x })
        } else {
            None
        }
    } else {
        if nn == 0x07 {
            Some(Instr::GetDelay { x })
        } else if nn == 0x0A {
            Some(Instr::WaitKey { x })
        } else if nn == 0x15 {
            Some(Instr::SetDelay { x })
        } else if nn == 0x18 {
            Some(Instr::SetSound { x })
        } else if nn == 0x1E {
            Some(Instr::AddIndex { x })
        } else if nn == 0x29 {
            Some(Instr::FontGlyph { x })
        } else if nn == 0x33 {
            Some(Instr::StoreBcd { x })
        } else if nn == 0x55 {
            Some(Instr::StoreRegs { x })
        } else if nn == 0x65 {
            Some(Instr::LoadRegs { x })
        } else {
            None
        }
    }
}

} // verus!
