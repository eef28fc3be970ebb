use vstd::prelude::*;
use crate::decode::{Instruction, decode_spec, opcode_of};

verus! {

/// Bytes of addressable memory.
pub const MEMORY_SIZE: usize = 4096;
/// Where the program image is loaded and execution starts.
pub const PROGRAM_START: usize = 0x200;
/// Where the hexadecimal font glyphs live.
pub const FONT_START: usize = 0x50;
/// Bytes of the font table: sixteen glyphs of five rows each.
pub const FONT_SIZE: usize = 80;
/// Framebuffer width in pixels.
pub const VIDEO_WIDTH: usize = 64;
/// Framebuffer height in pixels.
pub const VIDEO_HEIGHT: usize = 32;
/// Pixels in the framebuffer.
pub const VIDEO_SIZE: usize = 2048;
/// Maximum depth of the call stack.
pub const STACK_DEPTH: usize = 16;
/// The register that receives carry, borrow, shift-out and collision flags.
pub const FLAG: usize = 15;

/// The fatal conditions of the engine.
#[derive(PartialEq, Eq, Structural, Clone, Copy, Debug)]
pub enum Chip8Error {
    /// The instruction word at the program counter is not part of the instruction set.
    InvalidOpcode(u16),
    /// A call was made with the call stack already full.
    StackOverflow,
    /// A return was made with the call stack empty.
    StackUnderflow,
    /// The program image does not fit between the load address and the end of memory.
    ProgramTooLarge,
}

/// The abstract state of the machine.
#[verifier::ext_equal]
pub struct MachineState {
    pub registers: Seq<u8>,
    pub memory: Seq<u8>,
    pub stack: Seq<u16>,
    pub sp: nat,
    pub keys: Seq<bool>,
    pub video: Seq<bool>,
    pub index: u16,
    pub pc: u16,
    pub delay: u8,
    pub sound: u8,
}

impl MachineState {
    /// Every component has its fixed size and the stack depth is in range.
    pub open spec fn wf(self) -> bool {
        &&& self.registers.len() == 16
        &&& self.memory.len() == MEMORY_SIZE
        &&& self.stack.len() == STACK_DEPTH
        &&& self.sp <= STACK_DEPTH
        &&& self.keys.len() == 16
        &&& self.video.len() == VIDEO_SIZE
    }
}

/// `a + b` modulo 2^16.
pub open spec fn add16(a: int, b: int) -> u16 {
    ((a + b) % 65536) as u16
}

/// `a + b` modulo 2^8.
pub open spec fn add8(a: int, b: int) -> u8 {
    ((a + b) % 256) as u8
}

/// `a - b` modulo 2^16.
pub open spec fn sub16(a: int, b: int) -> u16 {
    ((a - b) % 65536) as u16
}

/// `a - b` modulo 2^8.
pub open spec fn sub8(a: int, b: int) -> u8 {
    ((a - b) % 256) as u8
}

/// The memory address `base + offset`, taken modulo the memory size.
pub open spec fn addr(base: int, offset: int) -> int {
    (base + offset) % (MEMORY_SIZE as int)
}

/// Skips the next instruction when `cond` holds.
pub open spec fn skip_if(s: MachineState, cond: bool) -> MachineState {
    if cond {
        MachineState { pc: add16(s.pc as int, 2), ..s }
    } else {
        s
    }
}

/// Writes register `x`.
pub open spec fn set_reg(s: MachineState, x: int, v: u8) -> MachineState {
    MachineState { registers: s.registers.update(x, v), ..s }
}

/// Writes the flag register first and register `x` after it.
pub open spec fn set_flag_then_reg(s: MachineState, flag: u8, x: int, v: u8) -> MachineState {
    MachineState { registers: s.registers.update(FLAG as int, flag).update(x, v), ..s }
}

/// Whether keypad key `v` (taken modulo 16) is down.
pub open spec fn key_down(s: MachineState, v: u8) -> bool {
    s.keys[(v % 16) as int]
}

/// The lowest pressed key at or above `i`, or 16 when there is none.
pub open spec fn first_pressed_from(keys: Seq<bool>, i: int) -> int
    decreases 16 - i,
{
    if i >= 16 {
        16
    } else if keys[i] {
        i
    } else {
        first_pressed_from(keys, i + 1)
    }
}

/// The lowest pressed key, or 16 when no key is pressed.
pub open spec fn first_pressed(keys: Seq<bool>) -> int {
    first_pressed_from(keys, 0)
}

/// Bit `c` of a sprite row, counting from the most significant bit.
pub open spec fn sprite_bit(row: u8, c: u8) -> bool {
    (row >> (7 - c) as u8) & 1u8 == 1u8
}

/// The sprite row that framebuffer row `py` falls on, for a sprite placed at row `y0`.
pub open spec fn sprite_row(py: int, y0: int) -> int {
    (py - y0) % (VIDEO_HEIGHT as int)
}

/// The sprite column that framebuffer column `px` falls on, for a sprite placed at column `x0`.
pub open spec fn sprite_col(px: int, x0: int) -> int {
    (px - x0) % (VIDEO_WIDTH as int)
}

/// Whether a set bit of the `n`-row sprite at memory `i_reg`, placed at (`x0`, `y0`)
/// with per-pixel wraparound, falls on framebuffer cell `cell`.
pub open spec fn covers(memory: Seq<u8>, i_reg: u16, x0: int, y0: int, n: int, cell: int) -> bool {
    let r = sprite_row(cell / (VIDEO_WIDTH as int), y0);
    let c = sprite_col(cell % (VIDEO_WIDTH as int), x0);
    &&& c < 8
    &&& r < n
    &&& sprite_bit(memory[addr(i_reg as int, r)], c as u8)
}

/// The framebuffer after drawing a sprite: each covered cell is inverted.
pub open spec fn drawn_video(s: MachineState, x0: int, y0: int, n: int) -> Seq<bool> {
    Seq::new(VIDEO_SIZE as nat, |cell: int| s.video[cell] != covers(s.memory, s.index, x0, y0, n, cell))
}

/// Whether drawing a sprite turns some lit cell off.
pub open spec fn collides(s: MachineState, x0: int, y0: int, n: int) -> bool {
    exists|cell: int| 0 <= cell < VIDEO_SIZE && #[trigger] covers(s.memory, s.index, x0, y0, n, cell) && s.video[cell]
}

/// The draw instruction with the sprite placed at (`vx` mod 64, `vy` mod 32).
pub open spec fn draw_spec(s: MachineState, vx: u8, vy: u8, n: int) -> MachineState {
    let x0 = vx % 64;
    let y0 = vy % 32;
    let flag: u8 = if collides(s, x0 as int, y0 as int, n) { 1 } else { 0 };
    MachineState {
        video: drawn_video(s, x0 as int, y0 as int, n),
        registers: s.registers.update(FLAG as int, flag),
        ..s
    }
}

/// Memory after storing registers 0..=x from the index register on.
pub open spec fn stored_memory(s: MachineState, x: int) -> Seq<u8> {
    Seq::new(MEMORY_SIZE as nat, |a: int|
        if (a - s.index) % (MEMORY_SIZE as int) <= x {
            s.registers[(a - s.index) % (MEMORY_SIZE as int)]
        } else {
            s.memory[a]
        })
}

/// Registers after loading registers 0..=x from memory at the index register.
pub open spec fn loaded_registers(s: MachineState, x: int) -> Seq<u8> {
    Seq::new(16, |k: int| if k <= x { s.memory[addr(s.index as int, k)] } else { s.registers[k] })
}

/// Memory after writing the three decimal digits of `v` at the index register.
pub open spec fn bcd_memory(s: MachineState, v: u8) -> Seq<u8> {
    s.memory.update(addr(s.index as int, 0), (v / 100) as u8)
        .update(addr(s.index as int, 1), ((v / 10) % 10) as u8)
        .update(addr(s.index as int, 2), (v % 10) as u8)
}

/// The effect of one instruction on a state whose program counter has already
/// been advanced past it. `random` is the byte the random source yields.
pub open spec fn execute_spec(s: MachineState, ins: Instruction, random: u8) -> Result<MachineState, Chip8Error> {
    let r = s.registers;
    match ins {
        Instruction::Clear => Ok(MachineState { video: Seq::new(VIDEO_SIZE as nat, |i: int| false), ..s }),
        Instruction::Return => if s.sp == 0 {
            Err(Chip8Error::StackUnderflow)
        } else {
            Ok(MachineState { pc: s.stack[s.sp - 1], sp: (s.sp - 1) as nat, ..s })
        },
        Instruction::Jump { addr } => Ok(MachineState { pc: addr, ..s }),
        Instruction::Call { addr } => if s.sp >= STACK_DEPTH {
            Err(Chip8Error::StackOverflow)
        } else {
            Ok(MachineState { stack: s.stack.update(s.sp as int, s.pc), sp: s.sp + 1, pc: addr, ..s })
        },
        Instruction::SkipEqImm { x, nn } => Ok(skip_if(s, r[x as int] == nn)),
        Instruction::SkipNeImm { x, nn } => Ok(skip_if(s, r[x as int] != nn)),
        Instruction::SkipEqReg { x, y } => Ok(skip_if(s, r[x as int] == r[y as int])),
        Instruction::SkipNeReg { x, y } => Ok(skip_if(s, r[x as int] != r[y as int])),
        Instruction::LoadImm { x, nn } => Ok(set_reg(s, x as int, nn)),
        Instruction::AddImm { x, nn } => Ok(set_reg(s, x as int, add8(r[x as int] as int, nn as int))),
        Instruction::Copy { x, y } => Ok(set_reg(s, x as int, r[y as int])),
        Instruction::Or { x, y } => Ok(set_reg(s, x as int, r[x as int] | r[y as int])),
        Instruction::And { x, y } => Ok(set_reg(s, x as int, r[x as int] & r[y as int])),
        Instruction::Xor { x, y } => Ok(set_reg(s, x as int, r[x as int] ^ r[y as int])),
        Instruction::AddReg { x, y } => {
            let sum = r[x as int] + r[y as int];
            Ok(set_flag_then_reg(s, if sum >= 256 { 1 } else { 0 }, x as int, add8(r[x as int] as int, r[y as int] as int)))
        },
        Instruction::SubReg { x, y } => Ok(set_flag_then_reg(
            s,
            if r[x as int] >= r[y as int] { 1 } else { 0 },
            x as int,
            sub8(r[x as int] as int, r[y as int] as int),
        )),
        Instruction::SubRev { x, y } => Ok(set_flag_then_reg(
            s,
            if r[y as int] >= r[x as int] { 1 } else { 0 },
            x as int,
            sub8(r[y as int] as int, r[x as int] as int),
        )),
        Instruction::ShiftRight { x } => Ok(set_flag_then_reg(s, r[x as int] % 2, x as int, r[x as int] / 2)),
        Instruction::ShiftLeft { x } => Ok(set_flag_then_reg(s, r[x as int] / 128, x as int, ((r[x as int] * 2) % 256) as u8)),
        Instruction::SetIndex { addr } => Ok(MachineState { index: addr, ..s }),
        Instruction::JumpOffset { addr } => Ok(MachineState { pc: add16(r[0] as int, addr as int), ..s }),
        Instruction::Random { x, nn } => Ok(set_reg(s, x as int, nn & random)),
        Instruction::Draw { x, y, n } => Ok(draw_spec(s, r[x as int], r[y as int], n as int)),
        Instruction::SkipKeyPressed { x } => Ok(skip_if(s, key_down(s, r[x as int]))),
        Instruction::SkipKeyNotPressed { x } => Ok(skip_if(s, !key_down(s, r[x as int]))),
        Instruction::ReadDelay { x } => Ok(set_reg(s, x as int, s.delay)),
        Instruction::WaitKey { x } => {
            let k = first_pressed(s.keys);
            if k < 16 {
                Ok(set_reg(s, x as int, k as u8))
            } else {
                Ok(MachineState { pc: sub16(s.pc as int, 2), ..s })
            }
        },
        Instruction::SetDelay { x } => Ok(MachineState { delay: r[x as int], ..s }),
        Instruction::SetSound { x } => Ok(MachineState { sound: r[x as int], ..s }),
        Instruction::AddIndex { x } => Ok(MachineState { index: add16(s.index as int, r[x as int] as int), ..s }),
        Instruction::FontChar { x } => Ok(MachineState { index: (FONT_START + 5 * r[x as int]) as u16, ..s }),
        Instruction::Bcd { x } => Ok(MachineState { memory: bcd_memory(s, r[x as int]), ..s }),
        Instruction::StoreRegs { x } => Ok(MachineState { memory: stored_memory(s, x as int), ..s }),
        Instruction::LoadRegs { x } => Ok(MachineState { registers: loaded_registers(s, x as int), ..s }),
    }
}

/// Both timers count down by one unless already at zero.
pub open spec fn tick(s: MachineState) -> MachineState {
    MachineState {
        delay: if s.delay > 0 { (s.delay - 1) as u8 } else { 0 },
        sound: if s.sound > 0 { (s.sound - 1) as u8 } else { 0 },
        ..s
    }
}

/// The high byte of the instruction at the program counter.
pub open spec fn fetch_hi(s: MachineState) -> u8 {
    s.memory[addr(s.pc as int, 0)]
}

/// The low byte of the instruction at the program counter.
pub open spec fn fetch_lo(s: MachineState) -> u8 {
    s.memory[addr(s.pc as int, 1)]
}

/// The instruction at the program counter, if it decodes.
pub open spec fn current_instruction(s: MachineState) -> Option<Instruction> {
    decode_spec(fetch_hi(s), fetch_lo(s))
}

/// One fetch-decode-execute cycle followed by one timer tick. A cycle that
/// fails leaves the state as it was.
pub open spec fn step_spec(s: MachineState, random: u8) -> Result<MachineState, Chip8Error> {
    match current_instruction(s) {
        None => Err(Chip8Error::InvalidOpcode(opcode_of(fetch_hi(s), fetch_lo(s)))),
        Some(ins) => match execute_spec(MachineState { pc: add16(s.pc as int, 2), ..s }, ins, random) {
            Ok(t) => Ok(tick(t)),
            Err(e) => Err(e),
        },
    }
}

} // verus!
