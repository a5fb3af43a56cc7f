//! The executable machine: state, ROM loading, and single-step execution.
use vstd::prelude::*;
use rand::Rng;
use crate::instruction::{Instr, decode, decode_spec};
use crate::machine::{
    CpuState, DISPLAY_HEIGHT, DISPLAY_WIDTH, FONT_BASE, FONT_SIZE, MAX_ROM_SIZE, MEMORY_SIZE,
    NUM_KEYS, NUM_REGISTERS, PROGRAM_START, blank_display, font_spec, initial_memory,
    initial_state, loaded_memory, set_key_spec, tick_spec, FLAG_REGISTER, GLYPH_SIZE, STACK_DEPTH,
    exec_spec, flag_of, next_pc, skip_if, step,
};

verus! {

/// Declares `std::io::Error` so that the load errors can carry it; Verus
/// sees nothing inside it.
#[verifier::external_type_specification]
#[verifier::external_body]
pub struct ExIoError(std::io::Error);

/// Why a ROM could not be loaded.
#[derive(Debug)]
pub enum CpuError {
    /// The ROM's byte source could not be opened.
    RomOpenError { err: std::io::Error },
    /// The ROM's byte source could not be read to the end.
    RomReadError { err: std::io::Error },
    /// The ROM does not fit in program memory.
    RomSizeError { max: usize, actual: usize },
}

/// What a successful load reports.
#[derive(Debug, Clone, Copy, PartialEq, Eq, Structural)]
pub struct RomLoadResult {
    pub bytes_read: usize,
}

/// The machine: memory, registers, call stack, timers, keypad and framebuffer.
pub struct Cpu {
    memory: [u8; MEMORY_SIZE],
    rom_size: usize,
    v: [u8; NUM_REGISTERS],
    i: u16,
    pc: u16,
    stack: Vec<u16>,
    dt: u8,
    st: u8,
    keypad: [bool; NUM_KEYS],
    display: [[bool; DISPLAY_WIDTH]; DISPLAY_HEIGHT],
    awaiting_key: bool,
    key_event: Option<u8>,
}

impl View for Cpu {
    type V = CpuState;

    closed spec fn view(&self) -> CpuState {
        CpuState {
            memory: self.memory@,
            v: self.v@,
            i: self.i,
            pc: self.pc,
            stack: self.stack@,
            dt: self.dt,
            st: self.st,
            keypad: self.keypad@,
            display: Seq::new(DISPLAY_HEIGHT as nat, |y: int| self.display@[y]@),
            awaiting_key: self.awaiting_key,
            key_event: self.key_event,
            rom_size: self.rom_size as nat,
        }
    }
}

/// The built-in font, glyphs `0`..`F`.
fn font_bytes() -> (r: [u8; FONT_SIZE])
    ensures
        r@ == font_spec(),
{
    let r: [u8; FONT_SIZE] = [
        0xF0, 0x90, 0x90, 0x90, 0xF0, 0x20, 0x60, 0x20, 0x20, 0x70,
        0xF0, 0x10, 0xF0, 0x80, 0xF0, 0xF0, 0x10, 0xF0, 0x10, 0xF0,
        0x90, 0x90, 0xF0, 0x10, 0x10, 0xF0, 0x80, 0xF0, 0x10, 0xF0,
        0xF0, 0x80, 0xF0, 0x90, 0xF0, 0xF0, 0x10, 0x20, 0x40, 0x40,
        0xF0, 0x90, 0xF0, 0x90, 0xF0, 0xF0, 0x90, 0xF0, 0x10, 0xF0,
        0xF0, 0x90, 0xF0, 0x90, 0x90, 0xE0, 0x90, 0xE0, 0x90, 0xE0,
        0xF0, 0x80, 0x80, 0x80, 0xF0, 0xE0, 0x90, 0x90, 0x90, 0xE0,
        0xF0, 0x80, 0xF0, 0x80, 0xF0, 0xF0, 0x80, 0xF0, 0x80, 0x80,
    ];
    assert(r@ =~= font_spec());
    r
}

/// Relies on `rand::thread_rng` and `Rng::gen::<u8>` for a random byte;
/// nothing is assumed of its value.
#[verifier::external_body]
fn random_byte() -> (r: u8) {
    rand::thread_rng().gen::<u8>()
}

/// A difference of two bytes, taken modulo 256, is the difference plus 256
/// taken modulo 256.
proof fn lemma_wrap_byte(d: int)
    requires
        -256 < d < 256,
    ensures
        (d + 256) % 256 == d % 256,
        0 <= d % 256 < 256,
{
    if d < 0 {
        assert((d + 256) % 256 == d + 256);
        assert(d % 256 == d + 256);
    } else {
        assert(d % 256 == d);
        assert((d + 256) % 256 == d);
    }
}

impl Cpu {
    /// The state is one that the machine can be in.
    pub open spec fn wf(&self) -> bool {
        self@.wf()
    }

    /// A machine at power-on: memory zero but for the font, registers,
    /// timers, stack, keypad and framebuffer cleared, execution at `0x200`.
    pub fn new() -> (r: Cpu)
        ensures
            r@ == initial_state(),
            r.wf(),
    {
        let font = font_bytes();
        let mut memory = [0u8; MEMORY_SIZE];
        let mut k: usize = 0;
        while k < FONT_SIZE
            invariant
                k <= FONT_SIZE,
                font@ == font_spec(),
                forall|a: int|
                    0 <= a < MEMORY_SIZE ==> #[trigger] memory@[a] == if FONT_BASE <= a < FONT_BASE
                        + k {
                        font_spec()[a - FONT_BASE]
                    } else {
                        0u8
                    },
            decreases FONT_SIZE - k,
        {
            memory[FONT_BASE + k] = font[k];
            k += 1;
        }
        let cpu = Cpu {
            memory,
            rom_size: 0,
            v: [0u8; NUM_REGISTERS],
            i: 0,
            pc: PROGRAM_START as u16,
            stack: Vec::new(),
            dt: 0,
            st: 0,
            keypad: [false; NUM_KEYS],
            display: [[false; DISPLAY_WIDTH]; DISPLAY_HEIGHT],
            awaiting_key: false,
            key_event: None,
        };
        assert(cpu@.memory =~= initial_memory());
        assert(cpu@.v =~= initial_state().v);
        assert(cpu@.keypad =~= initial_state().keypad);
        assert forall|y: int| 0 <= y < DISPLAY_HEIGHT implies #[trigger] cpu@.display[y]
            =~= blank_display()[y] by {}
        assert(cpu@.display =~= blank_display());
        cpu
    }

    /// Copies `rom` into memory from `0x200` on. Nothing else changes but the
    /// recorded ROM size. A ROM longer than the program memory is refused and
    /// the machine is left as it was.
    pub fn load_rom(&mut self, rom: &[u8]) -> (r: Result<RomLoadResult, CpuError>)
        requires
            old(self).wf(),
        ensures
            final(self).wf(),
            rom@.len() <= MAX_ROM_SIZE ==> (r matches Ok(res) && res.bytes_read == rom@.len()),
            rom@.len() <= MAX_ROM_SIZE ==> final(self)@ == (CpuState {
                memory: loaded_memory(old(self)@.memory, rom@),
                rom_size: rom@.len(),
                ..old(self)@
            }),
            rom@.len() > MAX_ROM_SIZE ==> (r matches Err(CpuError::RomSizeError { max, actual })
                && max == MAX_ROM_SIZE && actual == rom@.len()),
            rom@.len() > MAX_ROM_SIZE ==> final(self)@ == old(self)@,
    {
        let len = rom.len();
        if len > MAX_ROM_SIZE {
            return Err(CpuError::RomSizeError { max: MAX_ROM_SIZE, actual: len });
        }
        let ghost before = self.memory@;
        let mut memory = self.memory;
        let mut k: usize = 0;
        while k < len
            invariant
                k <= len,
                len == rom@.len(),
                len <= MAX_ROM_SIZE,
                forall|a: int|
                    0 <= a < MEMORY_SIZE ==> #[trigger] memory@[a] == if PROGRAM_START <= a
                        < PROGRAM_START + k {
                        rom@[a - PROGRAM_START]
                    } else {
                        before[a]
                    },
            decreases len - k,
        {
            memory[PROGRAM_START + k] = rom[k];
            k += 1;
        }
        self.memory = memory;
        self.rom_size = len;
        assert(self@.memory =~= loaded_memory(before, rom@));
        Ok(RomLoadResult { bytes_read: len })
    }

    /// The instruction word at the program counter: the byte there is the
    /// high half, the next byte (wrapping at the top of memory) the low half.
    pub fn next_instr(&self) -> (r: u16)
        requires
            self.wf(),
        ensures
            r == self@.fetch(),
    {
        let b1: u8 = self.memory[self.pc as usize];
        let b2: u8 = self.memory[(self.pc as usize + 1) % MEMORY_SIZE];
        (b1 as u16) * 256 + b2 as u16
    }

    /// Moves the program counter to the next instruction.
    fn advance(&mut self)
        requires
            old(self).wf(),
        ensures
            final(self).wf(),
            final(self)@ == old(self)@.advanced(),
    {
        self.pc = (self.pc + 2) % 0x1000;
    }

    /// Moves the program counter past the next instruction when `cond` holds,
    /// else to it.
    fn skip_when(&mut self, cond: bool)
        requires
            old(self).wf(),
        ensures
            final(self).wf(),
            final(self)@ == (CpuState { pc: skip_if(old(self)@.pc, cond), ..old(self)@ }),
    {
        if cond {
            self.pc = (self.pc + 4) % 0x1000;
        } else {
            self.pc = (self.pc + 2) % 0x1000;
        }
    }

    /// `Vx := val`, then the flag register, then on to the next instruction.
    fn set_with_flag(&mut self, x: u8, val: u8, flag: bool)
        requires
            old(self).wf(),
            x < NUM_REGISTERS,
        ensures
            final(self).wf(),
            final(self)@ == old(self)@.with_reg_flag(x, val, flag),
    {
        self.v[x as usize] = val;
        self.v[FLAG_REGISTER] = if flag {
            1
        } else {
            0
        };
        self.advance();
    }

    /// `Dxyn`: XOR-draws the `n`-row sprite at `I` onto the framebuffer at
    /// `(Vx, Vy)`, wrapping at the edges, and sets the flag register on collision.
    fn draw(&mut self, x: u8, y: u8, n: u8)
        requires
            old(self).wf(),
            x < NUM_REGISTERS,
            y < NUM_REGISTERS,
            n < 16,
        ensures
            final(self).wf(),
            final(self)@ == (CpuState {
                display: old(self)@.drawn(x, y, n),
                v: old(self)@.v.update(FLAG_REGISTER as int, flag_of(old(self)@.collides(x, y, n))),
                pc: next_pc(old(self)@.pc),
                ..old(self)@
            }),
    {
        let ghost s = self@;
        let px: usize = (self.v[x as usize] % 64) as usize;
        let py: usize = (self.v[y as usize] % 32) as usize;
        let base: usize = self.i as usize;
        let mut display = self.display;
        let mut collision = false;
        let mut row: usize = 0;
        while row < DISPLAY_HEIGHT
            invariant
                s == self@,
                s.wf(),
                row <= DISPLAY_HEIGHT,
                px == s.reg(x) as int % 64,
                py == s.reg(y) as int % 32,
                base == s.i,
                n < 16,
                forall|r: int, c: int|
                    0 <= r < DISPLAY_HEIGHT && 0 <= c < DISPLAY_WIDTH ==> #[trigger] display@[r]@[c]
                        == if r < row {
                        s.display[r][c] != s.sprite_covers(x, y, n, r, c)
                    } else {
                        s.display[r][c]
                    },
                collision == exists|r: int, c: int|
                    0 <= r < row && 0 <= c < DISPLAY_WIDTH && #[trigger] s.sprite_covers(
                        x,
                        y,
                        n,
                        r,
                        c,
                    ) && s.display[r][c],
            decreases DISPLAY_HEIGHT - row,
        {
            let dr: usize = (row + 32 - py) % 32;
            assert(dr == (row - py) % 32);
            let mut line = display[row];
            let mut line_collision = false;
            let mut col: usize = 0;
            while col < DISPLAY_WIDTH
                invariant
                    s == self@,
                    s.wf(),
                    row < DISPLAY_HEIGHT,
                    col <= DISPLAY_WIDTH,
                    px == s.reg(x) as int % 64,
                    py == s.reg(y) as int % 32,
                    base == s.i,
                    dr == (row - py) % 32,
                    n < 16,
                    forall|c: int|
                        0 <= c < DISPLAY_WIDTH ==> #[trigger] line@[c] == if c < col {
                            s.display[row as int][c] != s.sprite_covers(x, y, n, row as int, c)
                        } else {
                            s.display[row as int][c]
                        },
                    line_collision == exists|c: int|
                        0 <= c < col && #[trigger] s.sprite_covers(x, y, n, row as int, c)
                            && s.display[row as int][c],
                decreases DISPLAY_WIDTH - col,
            {
                let dc: usize = (col + 64 - px) % 64;
                assert(dc == (col - px) % 64);
                let covered = if dr < n as usize && dc < 8 {
                    let byte = self.memory[(base + dr) % MEMORY_SIZE];
                    (byte >> (7 - dc as u8)) & 1 == 1
                } else {
                    false
                };
                assert(covered == s.sprite_covers(x, y, n, row as int, col as int));
                if covered {
                    if line[col] {
                        line_collision = true;
                    }
                    line[col] = !line[col];
                }
                col += 1;
            }
            display[row] = line;
            collision = collision || line_collision;
            row += 1;
        }
        self.display = display;
        self.v[FLAG_REGISTER] = if collision {
            1
        } else {
            0
        };
        self.advance();
        assert forall|r: int| 0 <= r < DISPLAY_HEIGHT implies #[trigger] self@.display[r]
            =~= s.drawn(x, y, n)[r] by {}
        assert(self@.display =~= s.drawn(x, y, n));
    }

    /// `Fx55`: writes `V0..=Vx` to memory from `I` on, addresses wrapping.
    fn store_regs(&mut self, x: u8)
        requires
            old(self).wf(),
            x < NUM_REGISTERS,
        ensures
            final(self).wf(),
            final(self)@ == (CpuState {
                memory: old(self)@.stored_regs(x),
                pc: next_pc(old(self)@.pc),
                ..old(self)@
            }),
    {
        let ghost s = self@;
        let base: usize = self.i as usize;
        let mut memory = self.memory;
        let mut k: usize = 0;
        while k <= x as usize
            invariant
                s == self@,
                s.wf(),
                x < NUM_REGISTERS,
                k <= x + 1,
                base == s.i,
                forall|a: int|
                    0 <= a < MEMORY_SIZE ==> #[trigger] memory@[a] == if (a - s.i) % 0x1000 < k {
                        s.v[(a - s.i) % 0x1000]
                    } else {
                        s.memory[a]
                    },
            decreases x + 1 - k,
        {
            let addr: usize = (base + k) % MEMORY_SIZE;
            memory[addr] = self.v[k];
            k += 1;
        }
        self.memory = memory;
        self.advance();
        assert(self@.memory =~= s.stored_regs(x));
    }

    /// `Fx65`: reads `V0..=Vx` from memory from `I` on, addresses wrapping.
    fn load_regs(&mut self, x: u8)
        requires
            old(self).wf(),
            x < NUM_REGISTERS,
        ensures
            final(self).wf(),
            final(self)@ == (CpuState {
                v: old(self)@.loaded_regs(x),
                pc: next_pc(old(self)@.pc),
                ..old(self)@
            }),
    {
        let ghost s = self@;
        let base: usize = self.i as usize;
        let mut v = self.v;
        let mut k: usize = 0;
        while k <= x as usize
            invariant
                s == self@,
                s.wf(),
                x < NUM_REGISTERS,
                k <= x + 1,
                base == s.i,
                forall|j: int|
                    0 <= j < NUM_REGISTERS ==> #[trigger] v@[j] == if j < k {
                        s.memory[(s.i + j) % 0x1000]
                    } else {
                        s.v[j]
                    },
            decreases x + 1 - k,
        {
            v[k] = self.memory[(base + k) % MEMORY_SIZE];
            k += 1;
        }
        self.v = v;
        self.advance();
        assert(self@.v =~= s.loaded_regs(x));
    }

    /// Clear, jumps, calls and returns.
    fn exec_control(&mut self, ins: Instr, rnd: u8)
        requires
            old(self).wf(),
            ins.wf(),
            ins is Cls
                || ins is Ret
                || ins is Sys
                || ins is Jump
                || ins is Call
                || ins is JumpV0,
        ensures
            final(self).wf(),
            final(self)@ == exec_spec(old(self)@, ins, rnd),
    {
        match ins {
            Instr::Cls => {
                self.display = [[false; DISPLAY_WIDTH]; DISPLAY_HEIGHT];
                self.advance();
                assert forall|y: int| 0 <= y < DISPLAY_HEIGHT implies #[trigger] self@.display[y]
                    =~= blank_display()[y] by {}
                assert(self@.display =~= blank_display());
            },
            Instr::Ret => {
                if let Some(addr) = self.stack.pop() {
                    self.pc = addr;
                }
            },
            Instr::Sys { .. } => self.advance(),
            Instr::Jump { addr } => self.pc = addr,
            Instr::Call { addr } => {
                if self.stack.len() < STACK_DEPTH {
                    self.stack.push(self.pc);
                    self.pc = addr;
                }
            },
            Instr::JumpV0 { addr } => {
                self.pc = (addr + self.v[0] as u16) % 0x1000;
            },
            _ => {},
        }
    }

    /// The conditional skips.
    fn exec_skip(&mut self, ins: Instr, rnd: u8)
        requires
            old(self).wf(),
            ins.wf(),
            ins is SkipEqImm
                || ins is SkipNeImm
                || ins is SkipEqReg
                || ins is SkipNeReg
                || ins is SkipKey
                || ins is SkipNoKey,
        ensures
            final(self).wf(),
            final(self)@ == exec_spec(old(self)@, ins, rnd),
    {
        match ins {
            Instr::SkipEqImm { x, kk } => {
                let c = self.v[x as usize] == kk;
                self.skip_when(c);
            },
            Instr::SkipNeImm { x, kk } => {
                let c = self.v[x as usize] != kk;
                self.skip_when(c);
            },
            Instr::SkipEqReg { x, y } => {
                let c = self.v[x as usize] == self.v[y as usize];
                self.skip_when(c);
            },
            Instr::SkipNeReg { x, y } => {
                let c = self.v[x as usize] != self.v[y as usize];
                self.skip_when(c);
            },
            Instr::SkipKey { x } => {
                let k = self.v[x as usize];
                let c = (k as usize) < NUM_KEYS && self.keypad[k as usize];
                self.skip_when(c);
            },
            Instr::SkipNoKey { x } => {
                let k = self.v[x as usize];
                let c = !((k as usize) < NUM_KEYS && self.keypad[k as usize]);
                self.skip_when(c);
            },
            _ => {},
        }
    }

    /// Register loads and bitwise operations.
    fn exec_load(&mut self, ins: Instr, rnd: u8)
        requires
            old(self).wf(),
            ins.wf(),
            ins is LoadImm
                || ins is AddImm
                || ins is Assign
                || ins is Or
                || ins is And
                || ins is Xor
                || ins is Rand,
        ensures
            final(self).wf(),
            final(self)@ == exec_spec(old(self)@, ins, rnd),
    {
        match ins {
            Instr::LoadImm { x, kk } => {
                self.v[x as usize] = kk;
                self.advance();
            },
            Instr::AddImm { x, kk } => {
                self.v[x as usize] = ((self.v[x as usize] as u16 + kk as u16) % 256) as u8;
                self.advance();
            },
            Instr::Assign { x, y } => {
                self.v[x as usize] = self.v[y as usize];
                self.advance();
            },
            Instr::Or { x, y } => {
                self.v[x as usize] = self.v[x as usize] | self.v[y as usize];
                self.advance();
            },
            Instr::And { x, y } => {
                self.v[x as usize] = self.v[x as usize] & self.v[y as usize];
                self.advance();
            },
            Instr::Xor { x, y } => {
                self.v[x as usize] = self.v[x as usize] ^ self.v[y as usize];
                self.advance();
            },
            Instr::Rand { x, kk } => {
                self.v[x as usize] = rnd & kk;
                self.advance();
            },
            _ => {},
        }
    }

    /// Arithmetic with a flag result.
    fn exec_arith(&mut self, ins: Instr, rnd: u8)
        requires
            old(self).wf(),
            ins.wf(),
            ins is AddReg
                || ins is SubReg
                || ins is ShrReg
                || ins is SubnReg
                || ins is ShlReg,
        ensures
            final(self).wf(),
            final(self)@ == exec_spec(old(self)@, ins, rnd),
    {
        match ins {
            Instr::AddReg { x, y } => {
                let sum: u16 = self.v[x as usize] as u16 + self.v[y as usize] as u16;
                self.set_with_flag(x, (sum % 256) as u8, sum > 255);
            },
            Instr::SubReg { x, y } => {
                let vx = self.v[x as usize];
                let vy = self.v[y as usize];
                let diff: u16 = (vx as u16 + 256 - vy as u16) % 256;
                proof {
                    lemma_wrap_byte(vx as int - vy as int);
                }
                self.set_with_flag(x, diff as u8, vx >= vy);
            },
            Instr::ShrReg { x, y } => {
                let vy = self.v[y as usize];
                self.set_with_flag(x, vy / 2, vy % 2 == 1);
            },
            Instr::SubnReg { x, y } => {
                let vx = self.v[x as usize];
                let vy = self.v[y as usize];
                let diff: u16 = (vy as u16 + 256 - vx as u16) % 256;
                proof {
                    lemma_wrap_byte(vy as int - vx as int);
                }
                self.set_with_flag(x, diff as u8, vy >= vx);
            },
            Instr::ShlReg { x, y } => {
                let vy = self.v[y as usize];
                self.set_with_flag(x, ((vy as u16 * 2) % 256) as u8, vy >= 128);
            },
            _ => {},
        }
    }

    /// The index register, drawing, timers, keys and memory transfers.
    fn exec_misc(&mut self, ins: Instr, rnd: u8)
        requires
            old(self).wf(),
            ins.wf(),
            ins is LoadIndex
                || ins is Draw
                || ins is LoadDelay
                || ins is WaitKey
                || ins is SetDelay
                || ins is SetSound
                || ins is AddIndex
                || ins is LoadFont
                || ins is StoreBcd
                || ins is StoreRegs
                || ins is LoadRegs,
        ensures
            final(self).wf(),
            final(self)@ == exec_spec(old(self)@, ins, rnd),
    {
        match ins {
            Instr::LoadIndex { addr } => {
                self.i = addr;
                self.advance();
            },
            Instr::Draw { x, y, n } => self.draw(x, y, n),
            Instr::LoadDelay { x } => {
                self.v[x as usize] = self.dt;
                self.advance();
            },
            Instr::WaitKey { x } => {
                match self.key_event {
                    Some(k) => {
                        self.v[x as usize] = k;
                        self.key_event = None;
                        self.awaiting_key = false;
                        self.advance();
                    },
                    None => {
                        self.awaiting_key = true;
                    },
                }
            },
            Instr::SetDelay { x } => {
                self.dt = self.v[x as usize];
                self.advance();
            },
            Instr::SetSound { x } => {
                self.st = self.v[x as usize];
                self.advance();
            },
            Instr::AddIndex { x } => {
                self.i = ((self.i as u32 + self.v[x as usize] as u32) % 0x10000) as u16;
                self.advance();
            },
            Instr::LoadFont { x } => {
                self.i = (FONT_BASE + (self.v[x as usize] % 16) as usize * GLYPH_SIZE) as u16;
                self.advance();
            },
            Instr::StoreBcd { x } => {
                let val = self.v[x as usize];
                let base: usize = self.i as usize;
                self.memory[base % MEMORY_SIZE] = val / 100;
                self.memory[(base + 1) % MEMORY_SIZE] = (val / 10) % 10;
                self.memory[(base + 2) % MEMORY_SIZE] = val % 10;
                self.advance();
            },
            Instr::StoreRegs { x } => self.store_regs(x),
            Instr::LoadRegs { x } => self.load_regs(x),
            _ => {},
        }
    }

    /// Executes one decoded instruction; `rnd` is the random byte that
    /// `Cxkk` masks.
    pub fn execute(&mut self, ins: Instr, rnd: u8)
        requires
            old(self).wf(),
            ins.wf(),
        ensures
            final(self).wf(),
            final(self)@ == exec_spec(old(self)@, ins, rnd),
    {
        match ins {
            Instr::Cls
            | Instr::Ret
            | Instr::Sys { .. }
            | Instr::Jump { .. }
            | Instr::Call { .. }
            | Instr::JumpV0 { .. } => {
                self.exec_control(ins, rnd)
            },
            Instr::SkipEqImm { .. }
            | Instr::SkipNeImm { .. }
            | Instr::SkipEqReg { .. }
            | Instr::SkipNeReg { .. }
            | Instr::SkipKey { .. }
            | Instr::SkipNoKey { .. } => {
                self.exec_skip(ins, rnd)
            },
            Instr::LoadImm { .. }
            | Instr::AddImm { .. }
            | Instr::Assign { .. }
            | Instr::Or { .. }
            | Instr::And { .. }
            | Instr::Xor { .. }
            | Instr::Rand { .. } => {
                self.exec_load(ins, rnd)
            },
            Instr::AddReg { .. }
            | Instr::SubReg { .. }
            | Instr::ShrReg { .. }
            | Instr::SubnReg { .. }
            | Instr::ShlReg { .. } => {
                self.exec_arith(ins, rnd)
            },
            Instr::LoadIndex { .. }
            | Instr::Draw { .. }
            | Instr::LoadDelay { .. }
            | Instr::WaitKey { .. }
            | Instr::SetDelay { .. }
            | Instr::SetSound { .. }
            | Instr::AddIndex { .. }
            | Instr::LoadFont { .. }
            | Instr::StoreBcd { .. }
            | Instr::StoreRegs { .. }
            | Instr::LoadRegs { .. } => {
                self.exec_misc(ins, rnd)
            },
            Instr::Unknown => {},
        }
    }

    /// Executes instruction word `w`; `rnd` is the random byte that `Cxkk`
    /// masks.
    pub fn exec_instr(&mut self, w: u16, rnd: u8)
        requires
            old(self).wf(),
        ensures
            final(self).wf(),
            final(self)@ == step(old(self)@, w, rnd),
    {
        let ins = decode(w);
        self.execute(ins, rnd);
    }

    /// Fetches the instruction at the program counter and executes it. A
    /// random-byte instruction draws its byte from the thread's generator;
    /// whatever byte came, the new state is the step of that instruction.
    pub fn cpu_exec(&mut self)
        requires
            old(self).wf(),
        ensures
            final(self).wf(),
            exists|rnd: u8| final(self)@ == step(old(self)@, old(self)@.fetch(), rnd),
            !(decode_spec(old(self)@.fetch()) is Rand) ==> final(self)@ == step(
                old(self)@,
                old(self)@.fetch(),
                0,
            ),
    {
        let w = self.next_instr();
        let ins = decode(w);
        let rnd: u8 = if matches!(ins, Instr::Rand { .. }) {
            random_byte()
        } else {
            0
        };
        self.execute(ins, rnd);
        assert(self@ == step(old(self)@, w, rnd));
    }

    /// Sets pixel `(x, y)` of the framebuffer.
    pub fn set_display(&mut self, x: usize, y: usize, value: bool)
        requires
            old(self).wf(),
            x < DISPLAY_WIDTH,
            y < DISPLAY_HEIGHT,
        ensures
            final(self).wf(),
            final(self)@ == (CpuState {
                display: old(self)@.display.update(
                    y as int,
                    old(self)@.display[y as int].update(x as int, value),
                ),
                ..old(self)@
            }),
    {
        self.display[y][x] = value;
        assert(self@.display =~= old(self)@.display.update(
            y as int,
            old(self)@.display[y as int].update(x as int, value),
        ));
    }

    /// A copy of the framebuffer, indexed `[y][x]`.
    pub fn get_display(&self) -> (r: [[bool; DISPLAY_WIDTH]; DISPLAY_HEIGHT])
        ensures
            forall|y: int, x: int|
                0 <= y < DISPLAY_HEIGHT && 0 <= x < DISPLAY_WIDTH ==> #[trigger] r@[y]@[x]
                    == self@.display[y][x],
    {
        self.display
    }

    /// One tick of the 60 Hz timers: each non-zero timer goes down by one.
    pub fn tick_timers(&mut self)
        requires
            old(self).wf(),
        ensures
            final(self).wf(),
            final(self)@ == tick_spec(old(self)@),
    {
        if self.dt > 0 {
            self.dt = self.dt - 1;
        }
        if self.st > 0 {
            self.st = self.st - 1;
        }
    }

    /// Sets the state of key `key`; indices past the keypad are ignored. A key
    /// that goes down while the machine waits for one is handed to the
    /// waiting instruction.
    pub fn set_key(&mut self, key: usize, pressed: bool)
        requires
            old(self).wf(),
        ensures
            final(self).wf(),
            final(self)@ == set_key_spec(old(self)@, key as int, pressed),
    {
        if key < NUM_KEYS {
            if pressed && !self.keypad[key] && self.awaiting_key && self.key_event.is_none() {
                self.key_event = Some(key as u8);
            }
            self.keypad[key] = pressed;
        }
    }

    /// Whether key `key` is down.
    pub fn key_pressed(&self, key: usize) -> (r: bool)
        requires
            key < NUM_KEYS,
        ensures
            r == self@.keypad[key as int],
    {
        self.keypad[key]
    }

    /// Register `Vx`.
    pub fn register(&self, x: usize) -> (r: u8)
        requires
            x < NUM_REGISTERS,
        ensures
            r == self@.v[x as int],
    {
        self.v[x]
    }

    /// The byte at address `addr`.
    pub fn memory_at(&self, addr: usize) -> (r: u8)
        requires
            addr < MEMORY_SIZE,
        ensures
            r == self@.memory[addr as int],
    {
        self.memory[addr]
    }

    /// The address register `I`.
    pub fn index(&self) -> (r: u16)
        ensures
            r == self@.i,
    {
        self.i
    }

    /// The program counter.
    pub fn pc(&self) -> (r: u16)
        ensures
            r == self@.pc,
    {
        self.pc
    }

    /// The stack pointer: how many return addresses the stack holds.
    pub fn stack_pointer(&self) -> (r: u8)
        requires
            self.wf(),
        ensures
            r == self@.stack.len(),
    {
        self.stack.len() as u8
    }

    /// The delay timer.
    pub fn delay_timer(&self) -> (r: u8)
        ensures
            r == self@.dt,
    {
        self.dt
    }

    /// The sound timer.
    pub fn sound_timer(&self) -> (r: u8)
        ensures
            r == self@.st,
    {
        self.st
    }

    /// Whether a wait-for-key instruction is stalling the machine.
    pub fn is_awaiting_key(&self) -> (r: bool)
        ensures
            r == self@.awaiting_key,
    {
        self.awaiting_key
    }

    /// The size of the ROM last loaded.
    pub fn rom_size(&self) -> (r: usize)
        ensures
            r == self@.rom_size,
    {
        self.rom_size
    }
}

} // verus!
