//! Properties of the machine that relate several steps or hold of every state.
use vstd::prelude::*;
use crate::instruction::{Instr, decode_spec, lemma_word_fields};
use crate::machine::{
    CpuState, DISPLAY_HEIGHT, DISPLAY_WIDTH, FLAG_REGISTER, MAX_ROM_SIZE, MEMORY_SIZE,
    PROGRAM_START, STACK_DEPTH, flag_of, loaded_memory, step,
};

verus! {

/// Loading a ROM that fits puts exactly its bytes at `0x200..0x200 + len`
/// and leaves every other byte of memory as it was.
pub proof fn lemma_load_places_rom(mem: Seq<u8>, rom: Seq<u8>)
    requires
        mem.len() == MEMORY_SIZE,
        rom.len() <= MAX_ROM_SIZE,
    ensures
        loaded_memory(mem, rom).len() == MEMORY_SIZE,
        loaded_memory(mem, rom).subrange(
            PROGRAM_START as int,
            PROGRAM_START + rom.len(),
        ) == rom,
        forall|a: int|
            0 <= a < MEMORY_SIZE && !(PROGRAM_START <= a < PROGRAM_START + rom.len())
                ==> #[trigger] loaded_memory(mem, rom)[a] == mem[a],
{
    assert(loaded_memory(mem, rom).subrange(PROGRAM_START as int, PROGRAM_START + rom.len())
        =~= rom);
}

/// `00E0` turns every pixel off, whatever the framebuffer held.
pub proof fn lemma_clear_blanks_display(s: CpuState, rnd: u8)
    requires
        s.wf(),
    ensures
        forall|y: int, x: int|
            0 <= y < DISPLAY_HEIGHT && 0 <= x < DISPLAY_WIDTH ==> !#[trigger] step(
                s,
                0x00E0,
                rnd,
            ).display[y][x],
{
    assert(decode_spec(0x00E0) == Instr::Cls);
}

/// `1ABC` sets the program counter to `0xABC` and changes nothing else.
pub proof fn lemma_jump_sets_pc(s: CpuState, rnd: u8)
    requires
        s.wf(),
    ensures
        step(s, 0x1ABC, rnd) == (CpuState { pc: 0x0ABC, ..s }),
{
    assert(decode_spec(0x1ABC) == Instr::Jump { addr: 0x0ABC });
}

/// `6A12` sets register 10 to `0x12` and moves the program counter on by two
/// (within the 12-bit address space); nothing else changes.
pub proof fn lemma_load_immediate(s: CpuState, rnd: u8)
    requires
        s.wf(),
    ensures
        step(s, 0x6A12, rnd).v[10] == 0x12,
        step(s, 0x6A12, rnd).pc == (s.pc + 2) % 0x1000,
        step(s, 0x6A12, rnd) == (CpuState {
            v: s.v.update(10, 0x12),
            pc: ((s.pc + 2) % 0x1000) as u16,
            ..s
        }),
{
    assert(decode_spec(0x6A12) == Instr::LoadImm { x: 10, kk: 0x12 });
}

/// `8xy4` with `Vx = 0xFF` and `Vy = 0x01` wraps `Vx` to zero and sets the
/// carry flag.
pub proof fn lemma_add_carry(s: CpuState, x: u8, y: u8, rnd: u8)
    requires
        s.wf(),
        x < 15,
        y < 16,
        s.v[x as int] == 0xFF,
        s.v[y as int] == 0x01,
    ensures
        step(s, (0x8004 + x * 256 + y * 16) as u16, rnd).v[x as int] == 0x00,
        step(s, (0x8004 + x * 256 + y * 16) as u16, rnd).v[FLAG_REGISTER as int] == 1,
{
    let w = (0x8004 + x * 256 + y * 16) as u16;
    lemma_word_fields(8, x, y, 4);
    assert(decode_spec(w) == Instr::AddReg { x, y });
}

/// `8xy5` with `Vx = 0x05` and `Vy = 0x0A` wraps `Vx` to `0xFB` and clears the
/// flag: a borrow occurred.
pub proof fn lemma_sub_borrow(s: CpuState, x: u8, y: u8, rnd: u8)
    requires
        s.wf(),
        x < 15,
        y < 16,
        s.v[x as int] == 0x05,
        s.v[y as int] == 0x0A,
    ensures
        step(s, (0x8005 + x * 256 + y * 16) as u16, rnd).v[x as int] == 0xFB,
        step(s, (0x8005 + x * 256 + y * 16) as u16, rnd).v[FLAG_REGISTER as int] == 0,
{
    let w = (0x8005 + x * 256 + y * 16) as u16;
    lemma_word_fields(8, x, y, 5);
    assert(decode_spec(w) == Instr::SubReg { x, y });
}

/// A return with an empty call stack changes nothing, the program counter
/// included.
pub proof fn lemma_return_empty_stack(s: CpuState, rnd: u8)
    requires
        s.wf(),
        s.stack.len() == 0,
    ensures
        step(s, 0x00EE, rnd) == s,
{
    assert(decode_spec(0x00EE) == Instr::Ret);
}

/// A call to `addr` followed by a return gives back the state before the
/// call, and so the program counter that was current before the call.
pub proof fn lemma_call_then_return(s: CpuState, addr: u16, r1: u8, r2: u8)
    requires
        s.wf(),
        s.stack.len() < STACK_DEPTH,
        addr < 0x1000,
    ensures
        step(step(s, (0x2000 + addr) as u16, r1), 0x00EE, r2).pc == s.pc,
        step(step(s, (0x2000 + addr) as u16, r1), 0x00EE, r2) == s,
{
    let w = (0x2000 + addr) as u16;
    assert(w / 4096 == 2 && w % 4096 == addr);
    assert(decode_spec(w) == Instr::Call { addr });
    assert(decode_spec(0x00EE) == Instr::Ret);
    let s1 = step(s, w, r1);
    assert(s1.stack.drop_last() =~= s.stack);
}

/// Drawing the same sprite twice at the same place gives back the framebuffer
/// as it was, and the second draw reports a collision exactly when the first
/// turned some pixel on.
pub proof fn lemma_draw_twice(s: CpuState, x: u8, y: u8, n: u8, r1: u8, r2: u8)
    requires
        s.wf(),
        x < 15,
        y < 15,
        n < 16,
    ensures
        ({
            let w = (0xD000 + x * 256 + y * 16 + n) as u16;
            let s1 = step(s, w, r1);
            let s2 = step(s1, w, r2);
            &&& s2.display == s.display
            &&& s2.v[FLAG_REGISTER as int] == flag_of(
                exists|row: int, col: int|
                    0 <= row < DISPLAY_HEIGHT && 0 <= col < DISPLAY_WIDTH && #[trigger] s1.display[row][col]
                        && !s.display[row][col],
            )
        }),
{
    let w = (0xD000 + x * 256 + y * 16 + n) as u16;
    lemma_word_fields(0xD, x, y, n);
    assert(decode_spec(w) == Instr::Draw { x, y, n });
    let s1 = step(s, w, r1);
    let s2 = step(s1, w, r2);
    assert(s1.reg(x) == s.reg(x) && s1.reg(y) == s.reg(y));
    assert forall|row: int, col: int|
        0 <= row < DISPLAY_HEIGHT && 0 <= col < DISPLAY_WIDTH implies #[trigger] s1.sprite_covers(
        x,
        y,
        n,
        row,
        col,
    ) == s.sprite_covers(x, y, n, row, col) by {}
    assert forall|row: int| 0 <= row < DISPLAY_HEIGHT implies #[trigger] s2.display[row]
        =~= s.display[row] by {}
    assert(s2.display =~= s.display);
    let set_some = exists|row: int, col: int|
        0 <= row < DISPLAY_HEIGHT && 0 <= col < DISPLAY_WIDTH && #[trigger] s1.display[row][col]
            && !s.display[row][col];
    if set_some {
        let (row, col) = choose|row: int, col: int|
            0 <= row < DISPLAY_HEIGHT && 0 <= col < DISPLAY_WIDTH && #[trigger] s1.display[row][col]
                && !s.display[row][col];
        assert(s1.sprite_covers(x, y, n, row, col));
        assert(s1.collides(x, y, n));
    }
    if s1.collides(x, y, n) {
        let (row, col) = choose|row: int, col: int|
            0 <= row < DISPLAY_HEIGHT && 0 <= col < DISPLAY_WIDTH && #[trigger] s1.sprite_covers(
                x,
                y,
                n,
                row,
                col,
            ) && s1.display[row][col];
        assert(s.sprite_covers(x, y, n, row, col));
        assert(s1.display[row][col] && !s.display[row][col]);
    }
}

} // verus!
