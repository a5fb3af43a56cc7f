//! Decoding of 16-bit instruction words into a closed set of instructions.
use vstd::prelude::*;
use vstd::arithmetic::div_mod::lemma_fundamental_div_mod_converse;

verus! {

/// One decoded instruction. Register operands are indices 0..=15, `kk` is an
/// 8-bit immediate, `n` a 4-bit count and `addr` a 12-bit address.
#[derive(Clone, Copy, Debug, PartialEq, Eq, Structural)]
pub enum Instr {
    /// `00E0`: clear the framebuffer.
    Cls,
    /// `00EE`: return from a subroutine.
    Ret,
    /// `0nnn`: legacy machine-code call, not executed.
    Sys { addr: u16 },
    /// `1nnn`: jump.
    Jump { addr: u16 },
    /// `2nnn`: call a subroutine.
    Call { addr: u16 },
    /// `3xkk`: skip if `Vx == kk`.
    SkipEqImm { x: u8, kk: u8 },
    /// `4xkk`: skip if `Vx != kk`.
    SkipNeImm { x: u8, kk: u8 },
    /// `5xy0`: skip if `Vx == Vy`.
    SkipEqReg { x: u8, y: u8 },
    /// `6xkk`: `Vx := kk`.
    LoadImm { x: u8, kk: u8 },
    /// `7xkk`: `Vx := Vx + kk`, wrapping, flag untouched.
    AddImm { x: u8, kk: u8 },
    /// `8xy0`: `Vx := Vy`.
    Assign { x: u8, y: u8 },
    /// `8xy1`: `Vx := Vx | Vy`.
    Or { x: u8, y: u8 },
    /// `8xy2`: `Vx := Vx & Vy`.
    And { x: u8, y: u8 },
    /// `8xy3`: `Vx := Vx ^ Vy`.
    Xor { x: u8, y: u8 },
    /// `8xy4`: add with carry flag.
    AddReg { x: u8, y: u8 },
    /// `8xy5`: subtract with no-borrow flag.
    SubReg { x: u8, y: u8 },
    /// `8xy6`: `Vx := Vy >> 1`, flag is the bit shifted out.
    ShrReg { x: u8, y: u8 },
    /// `8xy7`: `Vx := Vy - Vx` with no-borrow flag.
    SubnReg { x: u8, y: u8 },
    /// `8xyE`: `Vx := Vy << 1`, flag is the bit shifted out.
    ShlReg { x: u8, y: u8 },
    /// `9xy0`: skip if `Vx != Vy`.
    SkipNeReg { x: u8, y: u8 },
    /// `Annn`: `I := nnn`.
    LoadIndex { addr: u16 },
    /// `Bnnn`: jump to `nnn + V0`.
    JumpV0 { addr: u16 },
    /// `Cxkk`: `Vx := random & kk`.
    Rand { x: u8, kk: u8 },
    /// `Dxyn`: XOR-draw an `n`-row sprite at `(Vx, Vy)`.
    Draw { x: u8, y: u8, n: u8 },
    /// `Ex9E`: skip if key `Vx` is pressed.
    SkipKey { x: u8 },
    /// `ExA1`: skip if key `Vx` is not pressed.
    SkipNoKey { x: u8 },
    /// `Fx07`: `Vx := delay timer`.
    LoadDelay { x: u8 },
    /// `Fx0A`: wait for a key press and store its index in `Vx`.
    WaitKey { x: u8 },
    /// `Fx15`: `delay timer := Vx`.
    SetDelay { x: u8 },
    /// `Fx18`: `sound timer := Vx`.
    SetSound { x: u8 },
    /// `Fx1E`: `I := I + Vx`, wrapping in 16 bits.
    AddIndex { x: u8 },
    /// `Fx29`: `I :=` address of the font sprite of digit `Vx`.
    LoadFont { x: u8 },
    /// `Fx33`: store the decimal digits of `Vx` at `I`, `I+1`, `I+2`.
    StoreBcd { x: u8 },
    /// `Fx55`: store `V0..=Vx` at `I`.
    StoreRegs { x: u8 },
    /// `Fx65`: load `V0..=Vx` from `I`.
    LoadRegs { x: u8 },
    /// Any word that no instruction is assigned to.
    Unknown,
}

/// The high nibble: selects the instruction family.
pub open spec fn family(w: u16) -> int {
    (w / 4096) as int
}

/// The second nibble, the `x` register operand.
pub open spec fn nib_x(w: u16) -> u8 {
    ((w / 256) % 16) as u8
}

/// The third nibble, the `y` register operand.
pub open spec fn nib_y(w: u16) -> u8 {
    ((w / 16) % 16) as u8
}

/// The lowest nibble.
pub open spec fn nib_n(w: u16) -> u8 {
    (w % 16) as u8
}

/// The low byte, an 8-bit immediate.
pub open spec fn imm8(w: u16) -> u8 {
    (w % 256) as u8
}

/// The low twelve bits, an address.
pub open spec fn addr12(w: u16) -> u16 {
    (w % 4096) as u16
}

/// The instruction that a word stands for.
pub open spec fn decode_spec(w: u16) -> Instr {
    let f = family(w);
    let x = nib_x(w);
    let y = nib_y(w);
    let n = nib_n(w);
    let kk = imm8(w);
    let addr = addr12(w);
    if f == 0 {
        if w == 0x00E0 {
            Instr::Cls
        } else if w == 0x00EE {
            Instr::Ret
        } else {
            Instr::Sys { addr }
        }
    } else if f == 1 {
        Instr::Jump { addr }
    } else if f == 2 {
        Instr::Call { addr }
    } else if f == 3 {
        Instr::SkipEqImm { x, kk }
    } else if f == 4 {
        Instr::SkipNeImm { x, kk }
    } else if f == 5 {
        if n == 0 { Instr::SkipEqReg { x, y } } else { Instr::Unknown }
    } else if f == 6 {
        Instr::LoadImm { x, kk }
    } else if f == 7 {
        Instr::AddImm { x, kk }
    } else if f == 8 {
        if n == 0 {
            Instr::Assign { x, y }
        } else if n == 1 {
            Instr::Or { x, y }
        } else if n == 2 {
            Instr::And { x, y }
        } else if n == 3 {
            Instr::Xor { x, y }
        } else if n == 4 {
            Instr::AddReg { x, y }
        } else if n == 5 {
            Instr::SubReg { x, y }
        } else if n == 6 {
            Instr::ShrReg { x, y }
        } else if n == 7 {
            Instr::SubnReg { x, y }
        } else if n == 0xE {
            Instr::ShlReg { x, y }
        } else {
            Instr::Unknown
        }
    } else if f == 9 {
        if n == 0 { Instr::SkipNeReg { x, y } } else { Instr::Unknown }
    } else if f == 0xA {
        Instr::LoadIndex { addr }
    } else if f == 0xB {
        Instr::JumpV0 { addr }
    } else if f == 0xC {
        Instr::Rand { x, kk }
    } else if f == 0xD {
        Instr::Draw { x, y, n }
    } else if f == 0xE {
        if kk == 0x9E {
            Instr::SkipKey { x }
        } else if kk == 0xA1 {
            Instr::SkipNoKey { x }
        } else {
            Instr::Unknown
        }
    } else if kk == 0x07 {
        Instr::LoadDelay { x }
    } else if kk == 0x0A {
        Instr::WaitKey { x }
    } else if kk == 0x15 {
        Instr::SetDelay { x }
    } else if kk == 0x18 {
        Instr::SetSound { x }
    } else if kk == 0x1E {
        Instr::AddIndex { x }
    } else if kk == 0x29 {
        Instr::LoadFont { x }
    } else if kk == 0x33 {
        Instr::StoreBcd { x }
    } else if kk == 0x55 {
        Instr::StoreRegs { x }
    } else if kk == 0x65 {
        Instr::LoadRegs { x }
    } else {
        Instr::Unknown
    }
}

impl Instr {
    /// Operands lie in their ranges: registers and counts below 16,
    /// addresses below 4096.
    pub open spec fn wf(self) -> bool {
        match self {
            Instr::Sys { addr } | Instr::Jump { addr } | Instr::Call { addr }
            | Instr::LoadIndex { addr } | Instr::JumpV0 { addr } => addr < 4096,
            Instr::SkipEqImm { x, .. } | Instr::SkipNeImm { x, .. } | Instr::LoadImm { x, .. }
            | Instr::AddImm { x, .. } | Instr::Rand { x, .. } | Instr::SkipKey { x }
            | Instr::SkipNoKey { x } | Instr::LoadDelay { x } | Instr::WaitKey { x }
            | Instr::SetDelay { x } | Instr::SetSound { x } | Instr::AddIndex { x }
            | Instr::LoadFont { x } | Instr::StoreBcd { x } | Instr::StoreRegs { x }
            | Instr::LoadRegs { x } => x < 16,
            Instr::SkipEqReg { x, y } | Instr::Assign { x, y } | Instr::Or { x, y }
            | Instr::And { x, y } | Instr::Xor { x, y } | Instr::AddReg { x, y }
            | Instr::SubReg { x, y } | Instr::ShrReg { x, y } | Instr::SubnReg { x, y }
            | Instr::ShlReg { x, y } | Instr::SkipNeReg { x, y } => x < 16 && y < 16,
            Instr::Draw { x, y, n } => x < 16 && y < 16 && n < 16,
            Instr::Cls | Instr::Ret | Instr::Unknown => true,
        }
    }
}

/// The word with nibbles `f`, `x`, `y`, `n` (high to low) decodes into
/// those nibbles.
pub proof fn lemma_word_fields(f: u8, x: u8, y: u8, n: u8)
    requires
        f < 16,
        x < 16,
        y < 16,
        n < 16,
    ensures
        ({
            let w = (f * 4096 + x * 256 + y * 16 + n) as u16;
            &&& family(w) == f
            &&& nib_x(w) == x
            &&& nib_y(w) == y
            &&& nib_n(w) == n
            &&& imm8(w) == y * 16 + n
            &&& addr12(w) == x * 256 + y * 16 + n
        }),
{
    let wi: int = f * 4096 + x * 256 + y * 16 + n;
    let w = wi as u16;
    assert(w as int == wi);
    lemma_fundamental_div_mod_converse(wi, 4096, f as int, x * 256 + y * 16 + n);
    lemma_fundamental_div_mod_converse(wi, 256, f * 16 + x, y * 16 + n);
    lemma_fundamental_div_mod_converse(f * 16 + x, 16, f as int, x as int);
    lemma_fundamental_div_mod_converse(wi, 16, f * 256 + x * 16 + y, n as int);
    lemma_fundamental_div_mod_converse(f * 256 + x * 16 + y, 16, f * 16 + x, y as int);
}

/// Decodes an instruction word. Words that no instruction is assigned to
/// decode to `Instr::Unknown`; decoding never fails.
pub fn decode(w: u16) -> (r: Instr)
    ensures
        r == decode_spec(w),
        r.wf(),
{
    let x: u8 = ((w / 256) % 16) as u8;
    let y: u8 = ((w / 16) % 16) as u8;
    let n: u8 = (w % 16) as u8;
    let kk: u8 = (w % 256) as u8;
    let addr: u16 = w % 4096;
    match w / 4096 {
        0 => {
            if w == 0x00E0 {
                Instr::Cls
            } else if w == 0x00EE {
                Instr::Ret
            } else {
                Instr::Sys { addr }
            }
        },
        1 => Instr::Jump { addr },
        2 => Instr::Call { addr },
        3 => Instr::SkipEqImm { x, kk },
        4 => Instr::SkipNeImm { x, kk },
        5 => if n == 0 {
            Instr::SkipEqReg { x, y }
        } else {
            Instr::Unknown
        },
        6 => Instr::LoadImm { x, kk },
        7 => Instr::AddImm { x, kk },
        8 => match n {
            0 => Instr::Assign { x, y },
            1 => Instr::Or { x, y },
            2 => Instr::And { x, y },
            3 => Instr::Xor { x, y },
            4 => Instr::AddReg { x, y },
            5 => Instr::SubReg { x, y },
            6 => Instr::ShrReg { x, y },
            7 => Instr::SubnReg { x, y },
            0xE => Instr::ShlReg { x, y },
            _ => Instr::Unknown,
        },
        9 => if n == 0 {
            Instr::SkipNeReg { x, y }
        } else {
            Instr::Unknown
        },
        0xA => Instr::LoadIndex { addr },
        0xB => Instr::JumpV0 { addr },
        0xC => Instr::Rand { x, kk },
        0xD => Instr::Draw { x, y, n },
        0xE => match kk {
            0x9E => Instr::SkipKey { x },
            0xA1 => Instr::SkipNoKey { x },
            _ => Instr::Unknown,
        },
        _ => match kk {
            0x07 => Instr::LoadDelay { x },
            0x0A => Instr::WaitKey { x },
            0x15 => Instr::SetDelay { x },
            0x18 => Instr::SetSound { x },
            0x1E => Instr::AddIndex { x },
            0x29 => Instr::LoadFont { x },
            0x33 => Instr::StoreBcd { x },
            0x55 => Instr::StoreRegs { x },
            0x65 => Instr::LoadRegs { x },
            _ => Instr::Unknown,
        },
    }
}

} // verus!
