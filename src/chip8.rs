use vstd::prelude::*;
use rand::rngs::ThreadRng;
use crate::decode::{Instruction, decode, operands_in_range};
use crate::model::{
    Chip8Error, MachineState, execute_spec, step_spec, covers, sprite_row, sprite_col,
    sprite_bit, first_pressed, first_pressed_from, addr, FLAG, FONT_SIZE, FONT_START,
    MEMORY_SIZE, PROGRAM_START, STACK_DEPTH, VIDEO_HEIGHT, VIDEO_SIZE, VIDEO_WIDTH,
};
use crate::random::{fresh_rng, random_byte};

verus! {

/// A CHIP-8 machine: registers, memory, call stack, keypad, framebuffer and
/// timers, plus the random source used by the masking instruction.
pub struct Chip8 {
    registers: [u8; 16],
    memory: [u8; 4096],
    stack: [u16; 16],
    keys: [bool; 16],
    video: [bool; 2048],
    index_register: u16,
    pc: u16,
    stack_pointer: u8,
    delay_timer: u8,
    sound_timer: u8,
    rng: ThreadRng,
}

/// The hexadecimal font: five rows per digit 0..=F, four pixels wide.
pub open spec fn font_spec() -> Seq<u8> {
    seq![
        0xF0u8, 0x90, 0x90, 0x90, 0xF0, 0x20, 0x60, 0x20, 0x20, 0x70,
        0xF0, 0x10, 0xF0, 0x80, 0xF0, 0xF0, 0x10, 0xF0, 0x10, 0xF0,
        0x90, 0x90, 0xF0, 0x10, 0x10, 0xF0, 0x80, 0xF0, 0x10, 0xF0,
        0xF0, 0x80, 0xF0, 0x90, 0xF0, 0xF0, 0x10, 0x20, 0x40, 0x40,
        0xF0, 0x90, 0xF0, 0x90, 0xF0, 0xF0, 0x90, 0xF0, 0x10, 0xF0,
        0xF0, 0x90, 0xF0, 0x90, 0x90, 0xE0, 0x90, 0xE0, 0x90, 0xE0,
        0xF0, 0x80, 0x80, 0x80, 0xF0, 0xE0, 0x90, 0x90, 0x90, 0xE0,
        0xF0, 0x80, 0xF0, 0x80, 0xF0, 0xF0, 0x80, 0xF0, 0x80, 0x80,
    ]
}

/// Memory of a machine freshly loaded with `program`: the font at its base,
/// the program at the load address, zero everywhere else.
pub open spec fn initial_memory(program: Seq<u8>) -> Seq<u8> {
    Seq::new(MEMORY_SIZE as nat, |a: int|
        if FONT_START <= a < FONT_START + FONT_SIZE {
            font_spec()[a - FONT_START]
        } else if PROGRAM_START <= a < PROGRAM_START + program.len() {
            program[a - PROGRAM_START]
        } else {
            0u8
        })
}

/// The state of a machine freshly loaded with `program`.
pub open spec fn initial_state(program: Seq<u8>) -> MachineState {
    MachineState {
        registers: Seq::new(16, |i: int| 0u8),
        memory: initial_memory(program),
        stack: Seq::new(16, |i: int| 0u16),
        sp: 0,
        keys: Seq::new(16, |i: int| false),
        video: Seq::new(VIDEO_SIZE as nat, |i: int| false),
        index: 0,
        pc: PROGRAM_START as u16,
        delay: 0,
        sound: 0,
    }
}

/// A fallible operation ended as `spec` says: on success in the state it
/// gives, on failure with its error and the state left as it was.
pub open spec fn outcome(
    pre: MachineState,
    post: MachineState,
    r: Result<(), Chip8Error>,
    spec: Result<MachineState, Chip8Error>,
) -> bool {
    match spec {
        Ok(t) => r == Ok::<(), Chip8Error>(()) && post == t,
        Err(e) => r == Err::<(), Chip8Error>(e) && post == pre,
    }
}

impl View for Chip8 {
    type V = MachineState;

    closed spec fn view(&self) -> MachineState {
        MachineState {
            registers: self.registers@,
            memory: self.memory@,
            stack: self.stack@,
            sp: self.stack_pointer as nat,
            keys: self.keys@,
            video: self.video@,
            index: self.index_register,
            pc: self.pc,
            delay: self.delay_timer,
            sound: self.sound_timer,
        }
    }
}


/// Framebuffer cell (`x0 + c`, `y0 + r`), both coordinates wrapping, lies on
/// sprite row `r` and column `c`, and it is the only cell that does.
proof fn lemma_cell_coords(x0: int, y0: int, r: int, c: int)
    requires
        0 <= x0 < 64,
        0 <= y0 < 32,
        0 <= r < 32,
        0 <= c < 64,
    ensures
        ({
            let cell = ((y0 + r) % 32) * 64 + (x0 + c) % 64;
            &&& 0 <= cell < VIDEO_SIZE
            &&& sprite_row(cell / 64, y0) == r
            &&& sprite_col(cell % 64, x0) == c
            &&& forall|other: int| 0 <= other < VIDEO_SIZE && other != cell ==>
                    sprite_row(#[trigger] (other / 64), y0) != r || sprite_col(other % 64, x0) != c
        }),
{
    let cell = ((y0 + r) % 32) * 64 + (x0 + c) % 64;
    let py = (y0 + r) % 32;
    let px = (x0 + c) % 64;
    assert(cell / 64 == py && cell % 64 == px) by (nonlinear_arith)
        requires cell == py * 64 + px, 0 <= px < 64, 0 <= py < 32;
    assert forall|other: int| 0 <= other < VIDEO_SIZE && other != cell implies
        sprite_row(#[trigger] (other / 64), y0) != r || sprite_col(other % 64, x0) != c by {
        let oy = other / 64;
        let ox = other % 64;
        assert(other == oy * 64 + ox && 0 <= ox < 64 && 0 <= oy < 32) by (nonlinear_arith)
            requires 0 <= other < 2048, oy == other / 64, ox == other % 64;
        if sprite_row(oy, y0) == r && sprite_col(ox, x0) == c {
            assert(oy == py);
            assert(ox == px);
        }
    }
}

/// The memory address `base + i` (mod 4096) is the one address whose offset
/// from `base` (mod 4096) is `i`.
proof fn lemma_offset_of(base: int, i: int)
    requires
        0 <= base,
        0 <= i < 4096,
    ensures
        ((base + i) % 4096 - base) % 4096 == i,
        forall|a: int| 0 <= a < 4096 && a != (base + i) % 4096 ==> #[trigger] ((a - base) % 4096) != i,
{
    let w = (base + i) % 4096;
    let q = (base + i) / 4096;
    assert(base + i == q * 4096 + w && 0 <= w < 4096) by (nonlinear_arith)
        requires w == (base + i) % 4096, q == (base + i) / 4096;
    assert((w - base) % 4096 == i) by (nonlinear_arith)
        requires w - base == i - q * 4096, 0 <= i < 4096;
    assert forall|a: int| 0 <= a < 4096 && a != w implies #[trigger] ((a - base) % 4096) != i by {
        if (a - base) % 4096 == i {
            let q2 = (a - base) / 4096;
            assert(a - base == q2 * 4096 + i) by (nonlinear_arith)
                requires (a - base) % 4096 == i, q2 == (a - base) / 4096;
            assert(a == (q2 + q) * 4096 + w) by (nonlinear_arith)
                requires a - base == q2 * 4096 + i, base + i == q * 4096 + w;
            assert(a == w) by (nonlinear_arith)
                requires a == (q2 + q) * 4096 + w, 0 <= a < 4096, 0 <= w < 4096;
        }
    }
}

impl Chip8 {
    /// The machine's state is well formed.
    pub open spec fn wf(&self) -> bool {
        self@.wf()
    }

    /// Builds a machine from a program image: memory zeroed, font and
    /// program copied in, execution starting at the load address. Fails
    /// when the image does not fit in memory above the load address.
    pub fn new(program: &Vec<u8>) -> (r: Result<Chip8, Chip8Error>)
        ensures
            r is Err <==> program.len() > MEMORY_SIZE - PROGRAM_START,
            r matches Err(e) ==> e == Chip8Error::ProgramTooLarge,
            r matches Ok(c) ==> c.wf() && c@ == initial_state(program@),
    {
        if program.len() > MEMORY_SIZE - PROGRAM_START {
            return Err(Chip8Error::ProgramTooLarge);
        }
        let font: [u8; 80] = [
            0xF0, 0x90, 0x90, 0x90, 0xF0, 0x20, 0x60, 0x20, 0x20, 0x70,
            0xF0, 0x10, 0xF0, 0x80, 0xF0, 0xF0, 0x10, 0xF0, 0x10, 0xF0,
            0x90, 0x90, 0xF0, 0x10, 0x10, 0xF0, 0x80, 0xF0, 0x10, 0xF0,
            0xF0, 0x80, 0xF0, 0x90, 0xF0, 0xF0, 0x10, 0x20, 0x40, 0x40,
            0xF0, 0x90, 0xF0, 0x90, 0xF0, 0xF0, 0x90, 0xF0, 0x10, 0xF0,
            0xF0, 0x90, 0xF0, 0x90, 0x90, 0xE0, 0x90, 0xE0, 0x90, 0xE0,
            0xF0, 0x80, 0x80, 0x80, 0xF0, 0xE0, 0x90, 0x90, 0x90, 0xE0,
            0xF0, 0x80, 0xF0, 0x80, 0xF0, 0xF0, 0x80, 0xF0, 0x80, 0x80,
        ];
        assert(font@ =~= font_spec());
        let mut memory: [u8; 4096] = [0u8; 4096];
        let mut i: usize = 0;
        while i < FONT_SIZE
            invariant
                i <= FONT_SIZE,
                font@ == font_spec(),
                forall|a: int| #![trigger memory@[a]] 0 <= a < MEMORY_SIZE ==> memory@[a] == (
                    if FONT_START <= a < FONT_START + i { font_spec()[a - FONT_START] } else { 0u8 }),
            decreases FONT_SIZE - i,
        {
            memory[FONT_START + i] = font[i];
            i += 1;
        }
        let mut j: usize = 0;
        while j < program.len()
            invariant
                j <= program.len(),
                program.len() <= MEMORY_SIZE - PROGRAM_START,
                forall|a: int| #![trigger memory@[a]] 0 <= a < MEMORY_SIZE ==> memory@[a] == (
                    if FONT_START <= a < FONT_START + FONT_SIZE {
                        font_spec()[a - FONT_START]
                    } else if PROGRAM_START <= a < PROGRAM_START + j {
                        program@[a - PROGRAM_START]
                    } else {
                        0u8
                    }),
            decreases program.len() - j,
        {
            memory[PROGRAM_START + j] = program[j];
            j += 1;
        }
        let chip = Chip8 {
            registers: [0u8; 16],
            memory,
            stack: [0u16; 16],
            keys: [false; 16],
            video: [false; 2048],
            index_register: 0,
            pc: PROGRAM_START as u16,
            stack_pointer: 0,
            delay_timer: 0,
            sound_timer: 0,
            rng: fresh_rng(),
        };
        assert(chip@.memory =~= initial_memory(program@));
        assert(chip@ =~= initial_state(program@));
        Ok(chip)
    }

    /// Runs one decoded instruction on a machine whose program counter has
    /// already moved past it; `random` is the byte the masking instruction uses.
    pub fn execute(&mut self, ins: Instruction, random: u8) -> (r: Result<(), Chip8Error>)
        requires
            old(self).wf(),
            operands_in_range(ins),
        ensures
            final(self).wf(),
            outcome(old(self)@, final(self)@, r, execute_spec(old(self)@, ins, random)),
    {
        match ins {
            Instruction::Clear => self.op_00E0(),
            Instruction::Return => return self.op_00EE(),
            Instruction::Jump { addr } => self.op_1NNN(addr),
            Instruction::Call { addr } => return self.op_2NNN(addr),
            Instruction::SkipEqImm { x, nn } => self.op_3XNN(x as usize, nn),
            Instruction::SkipNeImm { x, nn } => self.op_4XNN(x as usize, nn),
            Instruction::SkipEqReg { x, y } => self.op_5XY0(x as usize, y as usize),
            Instruction::LoadImm { x, nn } => self.op_6XNN(x as usize, nn),
            Instruction::AddImm { x, nn } => self.op_7XNN(x as usize, nn),
            Instruction::Copy { x, y } => self.op_8XY0(x as usize, y as usize),
            Instruction::Or { x, y } => self.op_8XY1(x as usize, y as usize),
            Instruction::And { x, y } => self.op_8XY2(x as usize, y as usize),
            Instruction::Xor { x, y } => self.op_8XY3(x as usize, y as usize),
            Instruction::AddReg { x, y } => self.op_8XY4(x as usize, y as usize),
            Instruction::SubReg { x, y } => self.op_8XY5(x as usize, y as usize),
            Instruction::ShiftRight { x } => self.op_8XY6(x as usize),
            Instruction::SubRev { x, y } => self.op_8XY7(x as usize, y as usize),
            Instruction::ShiftLeft { x } => self.op_8XYE(x as usize),
            Instruction::SkipNeReg { x, y } => self.op_9XY0(x as usize, y as usize),
            Instruction::SetIndex { addr } => self.op_ANNN(addr),
            Instruction::JumpOffset { addr } => self.op_BNNN(addr),
            Instruction::Random { x, nn } => self.set_masked(x as usize, nn, random),
            Instruction::Draw { x, y, n } => self.op_DXYN(x as usize, y as usize, n),
            Instruction::SkipKeyPressed { x } => self.op_EX9E(x as usize),
            Instruction::SkipKeyNotPressed { x } => self.op_EXA1(x as usize),
            Instruction::ReadDelay { x } => self.op_FX07(x as usize),
            Instruction::WaitKey { x } => self.op_FX0A(x as usize),
            Instruction::SetDelay { x } => self.op_FX15(x as usize),
            Instruction::SetSound { x } => self.op_FX18(x as usize),
            Instruction::AddIndex { x } => self.op_FX1E(x as usize),
            Instruction::FontChar { x } => self.op_FX29(x as usize),
            Instruction::Bcd { x } => self.op_FX33(x as usize),
            Instruction::StoreRegs { x } => self.op_FX55(x as usize),
            Instruction::LoadRegs { x } => self.op_FX65(x as usize),
        }
        Ok(())
    }

    /// One machine cycle with `random` as the random source's byte: fetch the
    /// instruction at the program counter, advance the counter by two, run the
    /// instruction, then count both timers down. A failing cycle returns its
    /// error and leaves the machine as it was.
    #[verifier::rlimit(50)]
    pub fn cycle_with_random(&mut self, random: u8) -> (r: Result<(), Chip8Error>)
        requires
            old(self).wf(),
        ensures
            final(self).wf(),
            outcome(old(self)@, final(self)@, r, step_spec(old(self)@, random)),
    {
        let hi = self.memory[self.pc as usize % MEMORY_SIZE];
        let lo = self.memory[(self.pc as usize + 1) % MEMORY_SIZE];
        let ins = match decode(hi, lo) {
            Some(ins) => ins,
            None => return Err(Chip8Error::InvalidOpcode((hi as u16) * 256 + lo as u16)),
        };
        let saved_pc = self.pc;
        self.pc = self.pc.wrapping_add(2);
        match self.execute(ins, random) {
            Ok(()) => {},
            Err(e) => {
                self.pc = saved_pc;
                return Err(e);
            },
        }
        if self.delay_timer > 0 {
            self.delay_timer -= 1;
        }
        if self.sound_timer > 0 {
            self.sound_timer -= 1;
        }
        Ok(())
    }

    /// One machine cycle, with the masking instruction drawing its byte from
    /// the random source. Whatever byte came, the cycle went as
    /// `cycle_with_random` goes with that byte.
    pub fn cycle(&mut self) -> (r: Result<(), Chip8Error>)
        requires
            old(self).wf(),
        ensures
            final(self).wf(),
            exists|b: u8| #[trigger] outcome(old(self)@, final(self)@, r, step_spec(old(self)@, b)),
    {
        let b = random_byte(&mut self.rng);
        let r = self.cycle_with_random(b);
        assert(outcome(old(self)@, self@, r, step_spec(old(self)@, b)));
        r
    }

    /// Turns every framebuffer cell off.
    pub fn op_00E0(&mut self)
        requires
            old(self).wf(),
        ensures
            final(self).wf(),
            execute_spec(old(self)@, Instruction::Clear, 0) == Ok::<MachineState, Chip8Error>(final(self)@),
    {
        self.video = [false; 2048];
        assert(self@ =~= MachineState { video: Seq::new(VIDEO_SIZE as nat, |i: int| false), ..old(self)@ });
    }

    /// Pops the top return address into the program counter; fails with
    /// `StackUnderflow` when the stack is empty.
    pub fn op_00EE(&mut self) -> (r: Result<(), Chip8Error>)
        requires
            old(self).wf(),
        ensures
            final(self).wf(),
            outcome(old(self)@, final(self)@, r, execute_spec(old(self)@, Instruction::Return, 0)),
    {
        if self.stack_pointer == 0 {
            return Err(Chip8Error::StackUnderflow);
        }
        self.stack_pointer -= 1;
        self.pc = self.stack[self.stack_pointer as usize];
        Ok(())
    }

    /// Jumps to `nnn`.
    pub fn op_1NNN(&mut self, nnn: u16)
        requires
            old(self).wf(),
        ensures
            final(self).wf(),
            execute_spec(old(self)@, Instruction::Jump { addr: nnn }, 0) == Ok::<MachineState, Chip8Error>(final(self)@),
    {
        self.pc = nnn;
    }

    /// Pushes the program counter and jumps to `nnn`; fails with
    /// `StackOverflow` when the stack already holds sixteen addresses.
    pub fn op_2NNN(&mut self, nnn: u16) -> (r: Result<(), Chip8Error>)
        requires
            old(self).wf(),
        ensures
            final(self).wf(),
            outcome(old(self)@, final(self)@, r, execute_spec(old(self)@, Instruction::Call { addr: nnn }, 0)),
    {
        if self.stack_pointer as usize >= STACK_DEPTH {
            return Err(Chip8Error::StackOverflow);
        }
        self.stack[self.stack_pointer as usize] = self.pc;
        self.stack_pointer += 1;
        self.pc = nnn;
        Ok(())
    }

    /// Skips the next instruction when VX equals `nn`.
    pub fn op_3XNN(&mut self, vx: usize, nn: u8)
        requires
            old(self).wf(),
            vx < 16,
        ensures
            final(self).wf(),
            execute_spec(old(self)@, Instruction::SkipEqImm { x: vx as u8, nn }, 0) == Ok::<MachineState, Chip8Error>(final(self)@),
    {
        if self.registers[vx] == nn {
            self.pc = self.pc.wrapping_add(2);
        }
    }

    /// Skips the next instruction when VX differs from `nn`.
    pub fn op_4XNN(&mut self, vx: usize, nn: u8)
        requires
            old(self).wf(),
            vx < 16,
        ensures
            final(self).wf(),
            execute_spec(old(self)@, Instruction::SkipNeImm { x: vx as u8, nn }, 0) == Ok::<MachineState, Chip8Error>(final(self)@),
    {
        if self.registers[vx] != nn {
            self.pc = self.pc.wrapping_add(2);
        }
    }

    /// Skips the next instruction when VX equals VY.
    pub fn op_5XY0(&mut self, vx: usize, vy: usize)
        requires
            old(self).wf(),
            vx < 16,
            vy < 16,
        ensures
            final(self).wf(),
            execute_spec(old(self)@, Instruction::SkipEqReg { x: vx as u8, y: vy as u8 }, 0) == Ok::<MachineState, Chip8Error>(final(self)@),
    {
        if self.registers[vx] == self.registers[vy] {
            self.pc = self.pc.wrapping_add(2);
        }
    }

    /// Sets VX to `nn`.
    pub fn op_6XNN(&mut self, vx: usize, nn: u8)
        requires
            old(self).wf(),
            vx < 16,
        ensures
            final(self).wf(),
            execute_spec(old(self)@, Instruction::LoadImm { x: vx as u8, nn }, 0) == Ok::<MachineState, Chip8Error>(final(self)@),
    {
        self.registers[vx] = nn;
    }

    /// Adds `nn` to VX modulo 256; VF is left alone.
    pub fn op_7XNN(&mut self, vx: usize, nn: u8)
        requires
            old(self).wf(),
            vx < 16,
        ensures
            final(self).wf(),
            execute_spec(old(self)@, Instruction::AddImm { x: vx as u8, nn }, 0) == Ok::<MachineState, Chip8Error>(final(self)@),
    {
        self.registers[vx] = self.registers[vx].wrapping_add(nn);
    }

    /// Sets VX to VY.
    pub fn op_8XY0(&mut self, vx: usize, vy: usize)
        requires
            old(self).wf(),
            vx < 16,
            vy < 16,
        ensures
            final(self).wf(),
            execute_spec(old(self)@, Instruction::Copy { x: vx as u8, y: vy as u8 }, 0) == Ok::<MachineState, Chip8Error>(final(self)@),
    {
        self.registers[vx] = self.registers[vy];
    }

    /// Sets VX to VX | VY.
    pub fn op_8XY1(&mut self, vx: usize, vy: usize)
        requires
            old(self).wf(),
            vx < 16,
            vy < 16,
        ensures
            final(self).wf(),
            execute_spec(old(self)@, Instruction::Or { x: vx as u8, y: vy as u8 }, 0) == Ok::<MachineState, Chip8Error>(final(self)@),
    {
        self.registers[vx] = self.registers[vx] | self.registers[vy];
    }

    /// Sets VX to VX & VY.
    pub fn op_8XY2(&mut self, vx: usize, vy: usize)
        requires
            old(self).wf(),
            vx < 16,
            vy < 16,
        ensures
            final(self).wf(),
            execute_spec(old(self)@, Instruction::And { x: vx as u8, y: vy as u8 }, 0) == Ok::<MachineState, Chip8Error>(final(self)@),
    {
        self.registers[vx] = self.registers[vx] & self.registers[vy];
    }

    /// Sets VX to VX ^ VY.
    pub fn op_8XY3(&mut self, vx: usize, vy: usize)
        requires
            old(self).wf(),
            vx < 16,
            vy < 16,
        ensures
            final(self).wf(),
            execute_spec(old(self)@, Instruction::Xor { x: vx as u8, y: vy as u8 }, 0) == Ok::<MachineState, Chip8Error>(final(self)@),
    {
        self.registers[vx] = self.registers[vx] ^ self.registers[vy];
    }

    /// Adds VY to VX modulo 256; VF becomes 1 when the sum reaches 256, else 0.
    pub fn op_8XY4(&mut self, vx: usize, vy: usize)
        requires
            old(self).wf(),
            vx < 16,
            vy < 16,
        ensures
            final(self).wf(),
            execute_spec(old(self)@, Instruction::AddReg { x: vx as u8, y: vy as u8 }, 0) == Ok::<MachineState, Chip8Error>(final(self)@),
    {
        let sum: u16 = self.registers[vx] as u16 + self.registers[vy] as u16;
        self.registers[FLAG] = if sum >= 0x100 { 1 } else { 0 };
        self.registers[vx] = (sum % 0x100) as u8;
    }

    /// Sets VX to VX - VY modulo 256; VF becomes 1 when VX >= VY (no borrow), else 0.
    pub fn op_8XY5(&mut self, vx: usize, vy: usize)
        requires
            old(self).wf(),
            vx < 16,
            vy < 16,
        ensures
            final(self).wf(),
            execute_spec(old(self)@, Instruction::SubReg { x: vx as u8, y: vy as u8 }, 0) == Ok::<MachineState, Chip8Error>(final(self)@),
    {
        let a = self.registers[vx];
        let b = self.registers[vy];
        self.registers[FLAG] = if a >= b { 1 } else { 0 };
        self.registers[vx] = a.wrapping_sub(b);
    }

    /// Shifts VX right by one; VF receives the bit shifted out.
    pub fn op_8XY6(&mut self, vx: usize)
        requires
            old(self).wf(),
            vx < 16,
        ensures
            final(self).wf(),
            execute_spec(old(self)@, Instruction::ShiftRight { x: vx as u8 }, 0) == Ok::<MachineState, Chip8Error>(final(self)@),
    {
        let v = self.registers[vx];
        assert(v & 1 == v % 2 && v >> 1 == v / 2) by (bit_vector);
        self.registers[FLAG] = v & 1;
        self.registers[vx] = v >> 1;
    }

    /// Sets VX to VY - VX modulo 256; VF becomes 1 when VY >= VX (no borrow), else 0.
    pub fn op_8XY7(&mut self, vx: usize, vy: usize)
        requires
            old(self).wf(),
            vx < 16,
            vy < 16,
        ensures
            final(self).wf(),
            execute_spec(old(self)@, Instruction::SubRev { x: vx as u8, y: vy as u8 }, 0) == Ok::<MachineState, Chip8Error>(final(self)@),
    {
        let a = self.registers[vx];
        let b = self.registers[vy];
        self.registers[FLAG] = if b >= a { 1 } else { 0 };
        self.registers[vx] = b.wrapping_sub(a);
    }

    /// Shifts VX left by one; VF receives the bit shifted out.
    pub fn op_8XYE(&mut self, vx: usize)
        requires
            old(self).wf(),
            vx < 16,
        ensures
            final(self).wf(),
            execute_spec(old(self)@, Instruction::ShiftLeft { x: vx as u8 }, 0) == Ok::<MachineState, Chip8Error>(final(self)@),
    {
        let v = self.registers[vx];
        assert(v >> 7 == v / 128 && v << 1 == (v * 2) % 256) by (bit_vector);
        self.registers[FLAG] = v >> 7;
        self.registers[vx] = v << 1;
    }

    /// Skips the next instruction when VX differs from VY.
    pub fn op_9XY0(&mut self, vx: usize, vy: usize)
        requires
            old(self).wf(),
            vx < 16,
            vy < 16,
        ensures
            final(self).wf(),
            execute_spec(old(self)@, Instruction::SkipNeReg { x: vx as u8, y: vy as u8 }, 0) == Ok::<MachineState, Chip8Error>(final(self)@),
    {
        if self.registers[vx] != self.registers[vy] {
            self.pc = self.pc.wrapping_add(2);
        }
    }

    /// Sets the index register to `nnn`.
    pub fn op_ANNN(&mut self, nnn: u16)
        requires
            old(self).wf(),
        ensures
            final(self).wf(),
            execute_spec(old(self)@, Instruction::SetIndex { addr: nnn }, 0) == Ok::<MachineState, Chip8Error>(final(self)@),
    {
        self.index_register = nnn;
    }

    /// Jumps to `nnn` plus V0, modulo 2^16.
    pub fn op_BNNN(&mut self, nnn: u16)
        requires
            old(self).wf(),
        ensures
            final(self).wf(),
            execute_spec(old(self)@, Instruction::JumpOffset { addr: nnn }, 0) == Ok::<MachineState, Chip8Error>(final(self)@),
    {
        self.pc = (self.registers[0] as u16).wrapping_add(nnn);
    }

    /// Sets VX to `nn` masked with the byte `random`.
    fn set_masked(&mut self, vx: usize, nn: u8, random: u8)
        requires
            old(self).wf(),
            vx < 16,
        ensures
            final(self).wf(),
            final(self).rng == old(self).rng,
            execute_spec(old(self)@, Instruction::Random { x: vx as u8, nn }, random) == Ok::<MachineState, Chip8Error>(final(self)@),
    {
        self.registers[vx] = nn & random;
    }

    /// Sets VX to `nn` masked with a byte drawn from the random source.
    pub fn op_CXNN(&mut self, vx: usize, nn: u8)
        requires
            old(self).wf(),
            vx < 16,
        ensures
            final(self).wf(),
            exists|b: u8| #[trigger] execute_spec(old(self)@, Instruction::Random { x: vx as u8, nn }, b) == Ok::<MachineState, Chip8Error>(final(self)@),
    {
        let b = random_byte(&mut self.rng);
        self.set_masked(vx, nn, b);
    }

    /// Skips the next instruction when the key numbered by VX (mod 16) is down.
    pub fn op_EX9E(&mut self, vx: usize)
        requires
            old(self).wf(),
            vx < 16,
        ensures
            final(self).wf(),
            execute_spec(old(self)@, Instruction::SkipKeyPressed { x: vx as u8 }, 0) == Ok::<MachineState, Chip8Error>(final(self)@),
    {
        if self.keys[(self.registers[vx] % 16) as usize] {
            self.pc = self.pc.wrapping_add(2);
        }
    }

    /// Skips the next instruction when the key numbered by VX (mod 16) is up.
    pub fn op_EXA1(&mut self, vx: usize)
        requires
            old(self).wf(),
            vx < 16,
        ensures
            final(self).wf(),
            execute_spec(old(self)@, Instruction::SkipKeyNotPressed { x: vx as u8 }, 0) == Ok::<MachineState, Chip8Error>(final(self)@),
    {
        if !self.keys[(self.registers[vx] % 16) as usize] {
            self.pc = self.pc.wrapping_add(2);
        }
    }

    /// Sets VX to the delay timer.
    pub fn op_FX07(&mut self, vx: usize)
        requires
            old(self).wf(),
            vx < 16,
        ensures
            final(self).wf(),
            execute_spec(old(self)@, Instruction::ReadDelay { x: vx as u8 }, 0) == Ok::<MachineState, Chip8Error>(final(self)@),
    {
        self.registers[vx] = self.delay_timer;
    }

    /// Waits for a key: stores the lowest pressed key in VX, or, when no key
    /// is down, steps the program counter back so the instruction runs again.
    pub fn op_FX0A(&mut self, vx: usize)
        requires
            old(self).wf(),
            vx < 16,
        ensures
            final(self).wf(),
            execute_spec(old(self)@, Instruction::WaitKey { x: vx as u8 }, 0) == Ok::<MachineState, Chip8Error>(final(self)@),
    {
        let mut k: usize = 0;
        while k < 16 && !self.keys[k]
            invariant
                self.wf(),
                k <= 16,
                first_pressed(self@.keys) == first_pressed_from(self@.keys, k as int),
            decreases 16 - k,
        {
            k += 1;
        }
        if k < 16 {
            self.registers[vx] = k as u8;
        } else {
            self.pc = self.pc.wrapping_sub(2);
        }
    }

    /// Sets the delay timer to VX.
    pub fn op_FX15(&mut self, vx: usize)
        requires
            old(self).wf(),
            vx < 16,
        ensures
            final(self).wf(),
            execute_spec(old(self)@, Instruction::SetDelay { x: vx as u8 }, 0) == Ok::<MachineState, Chip8Error>(final(self)@),
    {
        self.delay_timer = self.registers[vx];
    }

    /// Sets the sound timer to VX.
    pub fn op_FX18(&mut self, vx: usize)
        requires
            old(self).wf(),
            vx < 16,
        ensures
            final(self).wf(),
            execute_spec(old(self)@, Instruction::SetSound { x: vx as u8 }, 0) == Ok::<MachineState, Chip8Error>(final(self)@),
    {
        self.sound_timer = self.registers[vx];
    }

    /// Adds VX to the index register modulo 2^16; VF is left alone.
    pub fn op_FX1E(&mut self, vx: usize)
        requires
            old(self).wf(),
            vx < 16,
        ensures
            final(self).wf(),
            execute_spec(old(self)@, Instruction::AddIndex { x: vx as u8 }, 0) == Ok::<MachineState, Chip8Error>(final(self)@),
    {
        self.index_register = self.index_register.wrapping_add(self.registers[vx] as u16);
    }

    /// Points the index register at the font glyph for the digit in VX.
    pub fn op_FX29(&mut self, vx: usize)
        requires
            old(self).wf(),
            vx < 16,
        ensures
            final(self).wf(),
            execute_spec(old(self)@, Instruction::FontChar { x: vx as u8 }, 0) == Ok::<MachineState, Chip8Error>(final(self)@),
    {
        self.index_register = FONT_START as u16 + 5 * (self.registers[vx] as u16);
    }

    /// Writes the hundreds, tens and ones digits of VX at I, I+1 and I+2.
    pub fn op_FX33(&mut self, vx: usize)
        requires
            old(self).wf(),
            vx < 16,
        ensures
            final(self).wf(),
            execute_spec(old(self)@, Instruction::Bcd { x: vx as u8 }, 0) == Ok::<MachineState, Chip8Error>(final(self)@),
    {
        let v = self.registers[vx];
        let base = self.index_register as usize;
        self.memory[base % MEMORY_SIZE] = v / 100;
        self.memory[(base + 1) % MEMORY_SIZE] = (v / 10) % 10;
        self.memory[(base + 2) % MEMORY_SIZE] = v % 10;
    }

    /// Stores V0..=VX in memory from I on; I is left unchanged.
    pub fn op_FX55(&mut self, vx: usize)
        requires
            old(self).wf(),
            vx < 16,
        ensures
            final(self).wf(),
            execute_spec(old(self)@, Instruction::StoreRegs { x: vx as u8 }, 0) == Ok::<MachineState, Chip8Error>(final(self)@),
    {
        let ghost s0 = self@;
        let base = self.index_register as usize;
        let mut i: usize = 0;
        while i <= vx
            invariant
                self.wf(),
                s0.wf(),
                vx < 16,
                i <= vx + 1,
                base == s0.index,
                self@ == (MachineState { memory: self@.memory, ..s0 }),
                forall|a: int| #![trigger self@.memory[a]] 0 <= a < MEMORY_SIZE ==> self@.memory[a] == (
                    if (a - base) % (MEMORY_SIZE as int) < i { s0.registers[(a - base) % (MEMORY_SIZE as int)] } else { s0.memory[a] }),
            decreases vx + 1 - i,
        {
            let w: usize = (base + i) % MEMORY_SIZE;
            proof {
                lemma_offset_of(base as int, i as int);
            }
            self.memory[w] = self.registers[i];
            i += 1;
        }
        assert(self@.memory =~= crate::model::stored_memory(s0, vx as int));
    }

    /// Loads V0..=VX from memory from I on; I is left unchanged.
    pub fn op_FX65(&mut self, vx: usize)
        requires
            old(self).wf(),
            vx < 16,
        ensures
            final(self).wf(),
            execute_spec(old(self)@, Instruction::LoadRegs { x: vx as u8 }, 0) == Ok::<MachineState, Chip8Error>(final(self)@),
    {
        let ghost s0 = self@;
        let base = self.index_register as usize;
        let mut i: usize = 0;
        while i <= vx
            invariant
                self.wf(),
                s0.wf(),
                vx < 16,
                i <= vx + 1,
                base == s0.index,
                self@ == (MachineState { registers: self@.registers, ..s0 }),
                forall|k: int| #![trigger self@.registers[k]] 0 <= k < 16 ==> self@.registers[k] == (
                    if k < i { s0.memory[addr(base as int, k)] } else { s0.registers[k] }),
            decreases vx + 1 - i,
        {
            self.registers[i] = self.memory[(base + i) % MEMORY_SIZE];
            i += 1;
        }
        assert(self@.registers =~= crate::model::loaded_registers(s0, vx as int));
    }

    /// Draws the `n`-row sprite at memory[I] with its top-left corner at
    /// (VX mod 64, VY mod 32), inverting each cell under a set sprite bit;
    /// pixels past the right or bottom edge wrap round. VF becomes 1 when
    /// some lit cell went dark, 0 otherwise.
    pub fn op_DXYN(&mut self, vx: usize, vy: usize, n: u8)
        requires
            old(self).wf(),
            vx < 16,
            vy < 16,
            n < 16,
        ensures
            final(self).wf(),
            execute_spec(old(self)@, Instruction::Draw { x: vx as u8, y: vy as u8, n }, 0) == Ok::<MachineState, Chip8Error>(final(self)@),
    {
        let ghost s0 = self@;
        let x0: usize = (self.registers[vx] % 64) as usize;
        let y0: usize = (self.registers[vy] % 32) as usize;
        let ghost nn = n as int;
        let mut collided = false;
        let mut r: usize = 0;
        while r < n as usize
            invariant
                self.wf(),
                s0.wf(),
                nn == n as int,
                r <= n,
                n < 16,
                x0 == s0.registers[vx as int] % 64,
                y0 == s0.registers[vy as int] % 32,
                self@ == (MachineState { video: self@.video, ..s0 }),
                forall|cell: int| #![trigger self@.video[cell]] 0 <= cell < VIDEO_SIZE ==> self@.video[cell] == (s0.video[cell] != (
                    covers(s0.memory, s0.index, x0 as int, y0 as int, nn, cell) && sprite_row(cell / 64, y0 as int) < r)),
                collided ==> exists|cell: int| 0 <= cell < VIDEO_SIZE && #[trigger] covers(s0.memory, s0.index, x0 as int, y0 as int, nn, cell)
                    && sprite_row(cell / 64, y0 as int) < r && s0.video[cell],
                !collided ==> forall|cell: int| 0 <= cell < VIDEO_SIZE && #[trigger] covers(s0.memory, s0.index, x0 as int, y0 as int, nn, cell)
                    && sprite_row(cell / 64, y0 as int) < r ==> !s0.video[cell],
            decreases n - r,
        {
            let row: u8 = self.memory[(self.index_register as usize + r) % MEMORY_SIZE];
            assert(row == s0.memory[addr(s0.index as int, r as int)]);
            let mut c: usize = 0;
            while c < 8
                invariant
                    self.wf(),
                    s0.wf(),
                    nn == n as int,
                    r < n,
                    n < 16,
                    c <= 8,
                    x0 == s0.registers[vx as int] % 64,
                    y0 == s0.registers[vy as int] % 32,
                    row == s0.memory[addr(s0.index as int, r as int)],
                    self@ == (MachineState { video: self@.video, ..s0 }),
                    forall|cell: int| #![trigger self@.video[cell]] 0 <= cell < VIDEO_SIZE ==> self@.video[cell] == (s0.video[cell] != (
                        covers(s0.memory, s0.index, x0 as int, y0 as int, nn, cell) && (sprite_row(cell / 64, y0 as int) < r
                        || (sprite_row(cell / 64, y0 as int) == r && sprite_col(cell % 64, x0 as int) < c)))),
                    collided ==> exists|cell: int| 0 <= cell < VIDEO_SIZE && #[trigger] covers(s0.memory, s0.index, x0 as int, y0 as int, nn, cell)
                        && (sprite_row(cell / 64, y0 as int) < r
                        || (sprite_row(cell / 64, y0 as int) == r && sprite_col(cell % 64, x0 as int) < c)) && s0.video[cell],
                    !collided ==> forall|cell: int| 0 <= cell < VIDEO_SIZE && #[trigger] covers(s0.memory, s0.index, x0 as int, y0 as int, nn, cell)
                        && (sprite_row(cell / 64, y0 as int) < r
                        || (sprite_row(cell / 64, y0 as int) == r && sprite_col(cell % 64, x0 as int) < c)) ==> !s0.video[cell],
                decreases 8 - c,
            {
                let cell: usize = ((y0 + r) % VIDEO_HEIGHT) * VIDEO_WIDTH + (x0 + c) % VIDEO_WIDTH;
                proof {
                    lemma_cell_coords(x0 as int, y0 as int, r as int, c as int);
                }
                let ghost hit = covers(s0.memory, s0.index, x0 as int, y0 as int, nn, cell as int);
                if (row >> (7 - c as u8)) & 1 == 1 {
                    assert(sprite_bit(row, c as u8));
                    assert(hit);
                    if self.video[cell] {
                        collided = true;
                    }
                    self.video[cell] = !self.video[cell];
                } else {
                    assert(!hit);
                }
                c += 1;
            }
            r += 1;
        }
        self.registers[FLAG] = if collided { 1 } else { 0 };
        assert(self@.video =~= crate::model::drawn_video(s0, x0 as int, y0 as int, nn));
    }

    /// Sets whether keypad key `key` is held down.
    pub fn set_key(&mut self, key: u8, pressed: bool)
        requires
            old(self).wf(),
            key < 16,
        ensures
            final(self).wf(),
            final(self)@ == (MachineState { keys: old(self)@.keys.update(key as int, pressed), ..old(self)@ }),
    {
        self.keys[key as usize] = pressed;
    }

    /// The framebuffer cell at column `x`, row `y`: 1 when lit, 0 when dark.
    pub fn get_video(&self, x: usize, y: usize) -> (r: u32)
        requires
            self.wf(),
            x < VIDEO_WIDTH,
            y < VIDEO_HEIGHT,
        ensures
            r == (if self@.video[y * VIDEO_WIDTH + x] { 1u32 } else { 0u32 }),
    {
        if self.video[y * VIDEO_WIDTH + x] { 1 } else { 0 }
    }

    /// The value of general register `i`.
    pub fn register(&self, i: usize) -> (r: u8)
        requires
            self.wf(),
            i < 16,
        ensures
            r == self@.registers[i as int],
    {
        self.registers[i]
    }

    /// The byte at memory address `a`.
    pub fn memory_at(&self, a: usize) -> (r: u8)
        requires
            self.wf(),
            a < MEMORY_SIZE,
        ensures
            r == self@.memory[a as int],
    {
        self.memory[a]
    }

    /// The index register.
    pub fn index_register(&self) -> (r: u16)
        ensures
            r == self@.index,
    {
        self.index_register
    }

    /// The program counter.
    pub fn pc(&self) -> (r: u16)
        ensures
            r == self@.pc,
    {
        self.pc
    }

    /// The number of return addresses on the call stack.
    pub fn stack_depth(&self) -> (r: u8)
        ensures
            r == self@.sp,
    {
        self.stack_pointer
    }

    /// The delay timer.
    pub fn read_delay_timer(&self) -> (r: u8)
        ensures
            r == self@.delay,
    {
        self.delay_timer
    }

    /// The sound timer.
    pub fn read_sound_timer(&self) -> (r: u8)
        ensures
            r == self@.sound,
    {
        self.sound_timer
    }
}

} // verus!
