//! The machine's 4 KiB address space: the built-in font table and the
//! program loader.
use vstd::prelude::*;

verus! {

/// Size of the address space, in bytes.
pub const MEMORY_SIZE: usize = 4096;

/// Address of the first glyph of the built-in hexadecimal font.
pub const FONT_BASE: usize = 0x50;

/// Bytes per font glyph (one byte per row, five rows).
pub const GLYPH_SIZE: usize = 5;

/// Number of bytes of the font table (sixteen glyphs).
pub const FONT_SIZE: usize = 80;

/// Address at which programs are loaded and execution starts.
pub const PROGRAM_START: usize = 0x200;

/// The sixteen 4x5 glyphs of the hexadecimal digits 0-F, row by row.
pub open spec fn font_spec() -> Seq<u8> {
    seq![
        0xF0, 0x90, 0x90, 0x90, 0xF0, // 0
        0x20, 0x60, 0x20, 0x20, 0x70, // 1
        0xF0, 0x10, 0xF0, 0x80, 0xF0, // 2
        0xF0, 0x10, 0xF0, 0x10, 0xF0, // 3
        0x90, 0x90, 0xF0, 0x10, 0x10, // 4
        0xF0, 0x80, 0xF0, 0x10, 0xF0, // 5
        0xF0, 0x80, 0xF0, 0x90, 0xF0, // 6
        0xF0, 0x10, 0x20, 0x40, 0x40, // 7
        0xF0, 0x90, 0xF0, 0x90, 0xF0, // 8
        0xF0, 0x90, 0xF0, 0x10, 0xF0, // 9
        0xF0, 0x90, 0xF0, 0x90, 0x90, // A
        0xE0, 0x90, 0xE0, 0x90, 0xE0, // B
        0xF0, 0x80, 0x80, 0x80, 0xF0, // C
        0xE0, 0x90, 0x90, 0x90, 0xE0, // D
        0xF0, 0x80, 0xF0, 0x80, 0xF0, // E
        0xF0, 0x80, 0xF0, 0x80, 0x80, // F
    ]
}

/// The contents of memory at power-on: the font table at `FONT_BASE`,
/// zero everywhere else.
pub open spec fn initial_memory() -> Seq<u8> {
    Seq::new(
        MEMORY_SIZE as nat,
        |a: int|
            if FONT_BASE <= a < FONT_BASE + FONT_SIZE {
                font_spec()[a - FONT_BASE]
            } else {
                0u8
            },
    )
}

/// The font table as bytes.
pub fn font() -> (r: Vec<u8>)
    ensures
        r@ == font_spec(),
{
    let r: Vec<u8> = vec![
        0xF0, 0x90, 0x90, 0x90, 0xF0,
        0x20, 0x60, 0x20, 0x20, 0x70,
        0xF0, 0x10, 0xF0, 0x80, 0xF0,
        0xF0, 0x10, 0xF0, 0x10, 0xF0,
        0x90, 0x90, 0xF0, 0x10, 0x10,
        0xF0, 0x80, 0xF0, 0x10, 0xF0,
        0xF0, 0x80, 0xF0, 0x90, 0xF0,
        0xF0, 0x10, 0x20, 0x40, 0x40,
        0xF0, 0x90, 0xF0, 0x90, 0xF0,
        0xF0, 0x90, 0xF0, 0x10, 0xF0,
        0xF0, 0x90, 0xF0, 0x90, 0x90,
        0xE0, 0x90, 0xE0, 0x90, 0xE0,
        0xF0, 0x80, 0x80, 0x80, 0xF0,
        0xE0, 0x90, 0x90, 0x90, 0xE0,
        0xF0, 0x80, 0xF0, 0x80, 0xF0,
        0xF0, 0x80, 0xF0, 0x80, 0x80,
    ];
    assert(r@ =~= font_spec());
    r
}

/// A fresh address space: zeroed, with the font table preloaded.
pub fn new_memory() -> (r: Vec<u8>)
    ensures
        r@ == initial_memory(),
{
    let glyphs = font();
    let mut r: Vec<u8> = Vec::new();
    let mut a: usize = 0;
    while a < MEMORY_SIZE
        invariant
            a <= MEMORY_SIZE,
            glyphs@ == font_spec(),
            r@.len() == a,
            forall|j: int| 0 <= j < a ==> r@[j] == initial_memory()[j],
        decreases MEMORY_SIZE - a,
    {
        if FONT_BASE <= a && a < FONT_BASE + FONT_SIZE {
            r.push(glyphs[a - FONT_BASE]);
        } else {
            r.push(0);
        }
        a = a + 1;
    }
    assert(r@ =~= initial_memory());
    r
}

/// Why a program image could not be placed in memory.
#[derive(Clone, Copy, Debug, PartialEq, Eq)]
pub enum LoadError {
    /// The image does not fit between `PROGRAM_START` and the end of memory.
    ProgramTooLarge,
}

/// The number of bytes a program may occupy.
pub open spec fn program_capacity() -> int {
    MEMORY_SIZE - PROGRAM_START
}

/// `mem` with `rom` copied in from `PROGRAM_START` on.
pub open spec fn with_program(mem: Seq<u8>, rom: Seq<u8>) -> Seq<u8> {
    Seq::new(
        mem.len(),
        |a: int|
            if PROGRAM_START <= a < PROGRAM_START + rom.len() {
                rom[a - PROGRAM_START]
            } else {
                mem[a]
            },
    )
}

/// Copies a program image into memory from `PROGRAM_START` on, leaving every
/// other byte as it was. An image larger than the space left is refused and
/// memory is left untouched.
pub fn load_program(mem: &mut Vec<u8>, rom: &[u8]) -> (r: Result<(), LoadError>)
    requires
        old(mem)@.len() == MEMORY_SIZE,
    ensures
        rom@.len() <= program_capacity() <==> r is Ok,
        r is Ok ==> final(mem)@ == with_program(old(mem)@, rom@),
        r is Err ==> r == Err::<(), LoadError>(LoadError::ProgramTooLarge) && final(mem)@ == old(mem)@,
{
    if rom.len() > MEMORY_SIZE - PROGRAM_START {
        return Err(LoadError::ProgramTooLarge);
    }
    let mut k: usize = 0;
    while k < rom.len()
        invariant
            rom@.len() <= program_capacity(),
            k <= rom@.len(),
            mem@.len() == MEMORY_SIZE,
            forall|a: int|
                0 <= a < MEMORY_SIZE ==> mem@[a] == (if PROGRAM_START <= a < PROGRAM_START + k {
                    rom@[a - PROGRAM_START]
                } else {
                    old(mem)@[a]
                }),
        decreases rom@.len() - k,
    {
        mem.set(PROGRAM_START + k, rom[k]);
        k = k + 1;
    }
    assert(mem@ =~= with_program(old(mem)@, rom@));
    Ok(())
}

} // verus!
