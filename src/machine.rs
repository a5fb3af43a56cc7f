//! The mathematical model of the machine and the meaning of each instruction.
use vstd::prelude::*;
use crate::instruction::{Instr, decode_spec};

verus! {

/// Bytes of addressable memory, addresses `0x000..=0xFFF`.
pub const MEMORY_SIZE: usize = 0x1000;
/// Where programs are loaded and where execution starts.
pub const PROGRAM_START: usize = 0x200;
/// The largest program image that fits in memory.
pub const MAX_ROM_SIZE: usize = MEMORY_SIZE - PROGRAM_START;
/// Number of general-purpose registers.
pub const NUM_REGISTERS: usize = 16;
/// The register that reports carry, borrow and collision.
pub const FLAG_REGISTER: usize = 0xF;
/// Return addresses the call stack holds at most.
pub const STACK_DEPTH: usize = 16;
/// Number of keys on the keypad.
pub const NUM_KEYS: usize = 16;
/// Framebuffer width in pixels.
pub const DISPLAY_WIDTH: usize = 64;
/// Framebuffer height in pixels.
pub const DISPLAY_HEIGHT: usize = 32;
/// Where the built-in hexadecimal font starts in reserved memory.
pub const FONT_BASE: usize = 0x050;
/// Bytes of one font glyph.
pub const GLYPH_SIZE: usize = 5;
/// Bytes of the whole font: sixteen glyphs.
pub const FONT_SIZE: usize = 80;

/// The complete machine state as mathematical values.
pub struct CpuState {
    pub memory: Seq<u8>,
    pub v: Seq<u8>,
    pub i: u16,
    pub pc: u16,
    pub stack: Seq<u16>,
    pub dt: u8,
    pub st: u8,
    pub keypad: Seq<bool>,
    /// Rows of pixels, `display[y][x]`.
    pub display: Seq<Seq<bool>>,
    /// Set while a wait-for-key instruction stalls the machine.
    pub awaiting_key: bool,
    /// A key that went down while the machine was waiting for one.
    pub key_event: Option<u8>,
    pub rom_size: nat,
}

/// The sixteen glyphs `0`..`F`, five rows each, one byte per row.
pub open spec fn font_spec() -> Seq<u8> {
    seq![
        0xF0u8, 0x90, 0x90, 0x90, 0xF0, 0x20, 0x60, 0x20, 0x20, 0x70,
        0xF0, 0x10, 0xF0, 0x80, 0xF0, 0xF0, 0x10, 0xF0, 0x10, 0xF0,
        0x90, 0x90, 0xF0, 0x10, 0x10, 0xF0, 0x80, 0xF0, 0x10, 0xF0,
        0xF0, 0x80, 0xF0, 0x90, 0xF0, 0xF0, 0x10, 0x20, 0x40, 0x40,
        0xF0, 0x90, 0xF0, 0x90, 0xF0, 0xF0, 0x90, 0xF0, 0x10, 0xF0,
        0xF0, 0x90, 0xF0, 0x90, 0x90, 0xE0, 0x90, 0xE0, 0x90, 0xE0,
        0xF0, 0x80, 0x80, 0x80, 0xF0, 0xE0, 0x90, 0x90, 0x90, 0xE0,
        0xF0, 0x80, 0xF0, 0x80, 0xF0, 0xF0, 0x80, 0xF0, 0x80, 0x80,
    ]
}

/// A framebuffer with every pixel off.
pub open spec fn blank_display() -> Seq<Seq<bool>> {
    Seq::new(DISPLAY_HEIGHT as nat, |y: int| Seq::new(DISPLAY_WIDTH as nat, |x: int| false))
}

/// Memory at power-on: zero, but for the font in reserved memory.
pub open spec fn initial_memory() -> Seq<u8> {
    Seq::new(
        MEMORY_SIZE as nat,
        |a: int|
            if FONT_BASE <= a < FONT_BASE + FONT_SIZE {
                font_spec()[a - FONT_BASE]
            } else {
                0u8
            },
    )
}

/// The machine at power-on.
pub open spec fn initial_state() -> CpuState {
    CpuState {
        memory: initial_memory(),
        v: Seq::new(NUM_REGISTERS as nat, |k: int| 0u8),
        i: 0,
        pc: PROGRAM_START as u16,
        stack: Seq::empty(),
        dt: 0,
        st: 0,
        keypad: Seq::new(NUM_KEYS as nat, |k: int| false),
        display: blank_display(),
        awaiting_key: false,
        key_event: None,
        rom_size: 0,
    }
}

/// The address of the instruction after the one at `pc`.
pub open spec fn next_pc(pc: u16) -> u16 {
    ((pc + 2) % 0x1000) as u16
}

/// The address execution goes on at after an instruction at `pc` that skips
/// the next one when `cond` holds.
pub open spec fn skip_if(pc: u16, cond: bool) -> u16 {
    if cond {
        ((pc + 4) % 0x1000) as u16
    } else {
        next_pc(pc)
    }
}

/// `1` where `b` holds, else `0`.
pub open spec fn flag_of(b: bool) -> u8 {
    if b {
        1
    } else {
        0
    }
}

/// Bit `c` of a sprite row, counting from the most significant bit.
pub open spec fn sprite_bit(row: u8, c: int) -> bool {
    (row >> (7 - c) as u8) & 1 == 1
}

impl CpuState {
    /// Sizes and ranges that every reachable state has.
    pub open spec fn wf(self) -> bool {
        &&& self.memory.len() == MEMORY_SIZE
        &&& self.v.len() == NUM_REGISTERS
        &&& self.keypad.len() == NUM_KEYS
        &&& self.display.len() == DISPLAY_HEIGHT
        &&& forall|y: int| 0 <= y < DISPLAY_HEIGHT ==> #[trigger] self.display[y].len() == DISPLAY_WIDTH
        &&& self.pc < MEMORY_SIZE
        &&& self.stack.len() <= STACK_DEPTH
        &&& forall|k: int| 0 <= k < self.stack.len() ==> #[trigger] self.stack[k] < MEMORY_SIZE
        &&& (self.key_event matches Some(k) ==> k < NUM_KEYS)
        &&& self.rom_size <= MAX_ROM_SIZE
    }

    /// The instruction word at the program counter, big-endian.
    pub open spec fn fetch(self) -> u16 {
        (self.memory[self.pc as int] * 256 + self.memory[(self.pc + 1) % 0x1000]) as u16
    }

    pub open spec fn reg(self, x: u8) -> u8 {
        self.v[x as int]
    }

    /// Whether key `k` is down; there is no key beyond the sixteenth.
    pub open spec fn key_down(self, k: u8) -> bool {
        k < NUM_KEYS && self.keypad[k as int]
    }

    /// The state with the program counter moved to the next instruction.
    pub open spec fn advanced(self) -> CpuState {
        CpuState { pc: next_pc(self.pc), ..self }
    }

    /// `Vx := val`, then on to the next instruction.
    pub open spec fn with_reg(self, x: u8, val: u8) -> CpuState {
        CpuState { v: self.v.update(x as int, val), pc: next_pc(self.pc), ..self }
    }

    /// `Vx := val`, then the flag register, then on to the next instruction.
    pub open spec fn with_reg_flag(self, x: u8, val: u8, flag: bool) -> CpuState {
        CpuState {
            v: self.v.update(x as int, val).update(FLAG_REGISTER as int, flag_of(flag)),
            pc: next_pc(self.pc),
            ..self
        }
    }

    /// Whether the sprite of `Dxyn` lights pixel `(col, row)`. The sprite is
    /// placed at `(Vx mod 64, Vy mod 32)` and wraps around both edges; its row
    /// `r` is the byte at `I + r`.
    pub open spec fn sprite_covers(self, x: u8, y: u8, n: u8, row: int, col: int) -> bool {
        let r = (row - (self.reg(y) as int) % 32) % 32;
        let c = (col - (self.reg(x) as int) % 64) % 64;
        r < n && c < 8 && sprite_bit(self.memory[(self.i as int + r) % 0x1000], c)
    }

    /// The framebuffer after XOR-drawing the sprite of `Dxyn`.
    pub open spec fn drawn(self, x: u8, y: u8, n: u8) -> Seq<Seq<bool>> {
        Seq::new(
            DISPLAY_HEIGHT as nat,
            |row: int|
                Seq::new(
                    DISPLAY_WIDTH as nat,
                    |col: int| self.display[row][col] != self.sprite_covers(x, y, n, row, col),
                ),
        )
    }

    /// Whether drawing the sprite of `Dxyn` turns some lit pixel off.
    pub open spec fn collides(self, x: u8, y: u8, n: u8) -> bool {
        exists|row: int, col: int|
            0 <= row < DISPLAY_HEIGHT && 0 <= col < DISPLAY_WIDTH && #[trigger] self.sprite_covers(
                x,
                y,
                n,
                row,
                col,
            ) && self.display[row][col]
    }

    /// Memory after `Fx55`: `V0..=Vx` written from `I` on, addresses wrapping.
    pub open spec fn stored_regs(self, x: u8) -> Seq<u8> {
        Seq::new(
            MEMORY_SIZE as nat,
            |a: int|
                if (a - self.i) % 0x1000 <= x {
                    self.v[(a - self.i) % 0x1000]
                } else {
                    self.memory[a]
                },
        )
    }

    /// Registers after `Fx65`: `V0..=Vx` read from `I` on, addresses wrapping.
    pub open spec fn loaded_regs(self, x: u8) -> Seq<u8> {
        Seq::new(
            NUM_REGISTERS as nat,
            |k: int|
                if k <= x {
                    self.memory[(self.i + k) % 0x1000]
                } else {
                    self.v[k]
                },
        )
    }

    /// Memory after `Fx33`: hundreds, tens and ones of `Vx` at `I`, `I+1`, `I+2`.
    pub open spec fn stored_bcd(self, x: u8) -> Seq<u8> {
        let val = self.reg(x);
        let a = self.i as int;
        self.memory.update(a % 0x1000, val / 100).update((a + 1) % 0x1000, (val / 10) % 10).update(
            (a + 2) % 0x1000,
            val % 10,
        )
    }
}

/// The effect of one instruction. `rnd` is the random byte that `Cxkk` uses;
/// no other instruction reads it.
pub open spec fn exec_spec(s: CpuState, ins: Instr, rnd: u8) -> CpuState {
    match ins {
        Instr::Cls => CpuState { display: blank_display(), pc: next_pc(s.pc), ..s },
        Instr::Ret => if s.stack.len() == 0 {
            s
        } else {
            CpuState { pc: s.stack.last(), stack: s.stack.drop_last(), ..s }
        },
        Instr::Sys { .. } => s.advanced(),
        Instr::Jump { addr } => CpuState { pc: addr, ..s },
        Instr::Call { addr } => if s.stack.len() < STACK_DEPTH {
            CpuState { stack: s.stack.push(s.pc), pc: addr, ..s }
        } else {
            s
        },
        Instr::SkipEqImm { x, kk } => CpuState { pc: skip_if(s.pc, s.reg(x) == kk), ..s },
        Instr::SkipNeImm { x, kk } => CpuState { pc: skip_if(s.pc, s.reg(x) != kk), ..s },
        Instr::SkipEqReg { x, y } => CpuState { pc: skip_if(s.pc, s.reg(x) == s.reg(y)), ..s },
        Instr::LoadImm { x, kk } => s.with_reg(x, kk),
        Instr::AddImm { x, kk } => s.with_reg(x, ((s.reg(x) + kk) % 256) as u8),
        Instr::Assign { x, y } => s.with_reg(x, s.reg(y)),
        Instr::Or { x, y } => s.with_reg(x, s.reg(x) | s.reg(y)),
        Instr::And { x, y } => s.with_reg(x, s.reg(x) & s.reg(y)),
        Instr::Xor { x, y } => s.with_reg(x, s.reg(x) ^ s.reg(y)),
        Instr::AddReg { x, y } => s.with_reg_flag(
            x,
            ((s.reg(x) + s.reg(y)) % 256) as u8,
            s.reg(x) + s.reg(y) > 255,
        ),
        Instr::SubReg { x, y } => s.with_reg_flag(
            x,
            ((s.reg(x) - s.reg(y)) % 256) as u8,
            s.reg(x) >= s.reg(y),
        ),
        Instr::ShrReg { x, y } => s.with_reg_flag(x, s.reg(y) / 2, s.reg(y) % 2 == 1),
        Instr::SubnReg { x, y } => s.with_reg_flag(
            x,
            ((s.reg(y) - s.reg(x)) % 256) as u8,
            s.reg(y) >= s.reg(x),
        ),
        Instr::ShlReg { x, y } => s.with_reg_flag(
            x,
            ((s.reg(y) * 2) % 256) as u8,
            s.reg(y) >= 128,
        ),
        Instr::SkipNeReg { x, y } => CpuState { pc: skip_if(s.pc, s.reg(x) != s.reg(y)), ..s },
        Instr::LoadIndex { addr } => CpuState { i: addr, pc: next_pc(s.pc), ..s },
        Instr::JumpV0 { addr } => CpuState { pc: ((addr + s.reg(0)) % 0x1000) as u16, ..s },
        Instr::Rand { x, kk } => s.with_reg(x, rnd & kk),
        Instr::Draw { x, y, n } => CpuState {
            display: s.drawn(x, y, n),
            v: s.v.update(FLAG_REGISTER as int, flag_of(s.collides(x, y, n))),
            pc: next_pc(s.pc),
            ..s
        },
        Instr::SkipKey { x } => CpuState { pc: skip_if(s.pc, s.key_down(s.reg(x))), ..s },
        Instr::SkipNoKey { x } => CpuState { pc: skip_if(s.pc, !s.key_down(s.reg(x))), ..s },
        Instr::LoadDelay { x } => s.with_reg(x, s.dt),
        Instr::WaitKey { x } => match s.key_event {
            Some(k) => CpuState {
                v: s.v.update(x as int, k),
                key_event: None,
                awaiting_key: false,
                pc: next_pc(s.pc),
                ..s
            },
            None => CpuState { awaiting_key: true, ..s },
        },
        Instr::SetDelay { x } => CpuState { dt: s.reg(x), pc: next_pc(s.pc), ..s },
        Instr::SetSound { x } => CpuState { st: s.reg(x), pc: next_pc(s.pc), ..s },
        Instr::AddIndex { x } => CpuState {
            i: ((s.i + s.reg(x)) % 0x10000) as u16,
            pc: next_pc(s.pc),
            ..s
        },
        Instr::LoadFont { x } => CpuState {
            i: (FONT_BASE + (s.reg(x) % 16) * GLYPH_SIZE) as u16,
            pc: next_pc(s.pc),
            ..s
        },
        Instr::StoreBcd { x } => CpuState { memory: s.stored_bcd(x), pc: next_pc(s.pc), ..s },
        Instr::StoreRegs { x } => CpuState { memory: s.stored_regs(x), pc: next_pc(s.pc), ..s },
        Instr::LoadRegs { x } => CpuState { v: s.loaded_regs(x), pc: next_pc(s.pc), ..s },
        Instr::Unknown => s,
    }
}

/// The effect of executing instruction word `w`.
pub open spec fn step(s: CpuState, w: u16, rnd: u8) -> CpuState {
    exec_spec(s, decode_spec(w), rnd)
}

/// One tick of the 60 Hz timers: each counts down towards zero and stays there.
pub open spec fn tick_spec(s: CpuState) -> CpuState {
    CpuState {
        dt: if s.dt > 0 {
            (s.dt - 1) as u8
        } else {
            0
        },
        st: if s.st > 0 {
            (s.st - 1) as u8
        } else {
            0
        },
        ..s
    }
}

/// A key changes state. A key that goes down while the machine waits for
/// one, and no other key has yet, is recorded for the waiting instruction.
pub open spec fn set_key_spec(s: CpuState, k: int, pressed: bool) -> CpuState {
    if 0 <= k < NUM_KEYS {
        CpuState {
            keypad: s.keypad.update(k, pressed),
            key_event: if pressed && !s.keypad[k] && s.awaiting_key && s.key_event is None {
                Some(k as u8)
            } else {
                s.key_event
            },
            ..s
        }
    } else {
        s
    }
}

/// Memory after loading `rom` at the program start.
pub open spec fn loaded_memory(mem: Seq<u8>, rom: Seq<u8>) -> Seq<u8> {
    Seq::new(
        MEMORY_SIZE as nat,
        |a: int|
            if PROGRAM_START <= a < PROGRAM_START + rom.len() {
                rom[a - PROGRAM_START]
            } else {
                mem[a]
            },
    )
}

} // verus!
