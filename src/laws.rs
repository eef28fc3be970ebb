use vstd::prelude::*;
use crate::decode::Instruction;
use crate::model::{
    Chip8Error, MachineState, add16, covers, current_instruction, execute_spec, first_pressed,
    first_pressed_from, key_down, step_spec, FLAG, VIDEO_SIZE,
};

verus! {

/// Whether the instruction sets the program counter itself: a return, a
/// jump, a call or a jump with offset.
pub open spec fn transfers_control(ins: Instruction) -> bool {
    match ins {
        Instruction::Return | Instruction::Jump { .. } | Instruction::Call { .. }
        | Instruction::JumpOffset { .. } => true,
        _ => false,
    }
}

/// Whether `ins` is a conditional skip whose condition holds in `s`.
pub open spec fn skip_taken(s: MachineState, ins: Instruction) -> bool {
    let r = s.registers;
    match ins {
        Instruction::SkipEqImm { x, nn } => r[x as int] == nn,
        Instruction::SkipNeImm { x, nn } => r[x as int] != nn,
        Instruction::SkipEqReg { x, y } => r[x as int] == r[y as int],
        Instruction::SkipNeReg { x, y } => r[x as int] != r[y as int],
        Instruction::SkipKeyPressed { x } => key_down(s, r[x as int]),
        Instruction::SkipKeyNotPressed { x } => !key_down(s, r[x as int]),
        _ => false,
    }
}

/// Whether `ins` is a key wait and no key is down in `s`.
pub open spec fn key_wait_misses(s: MachineState, ins: Instruction) -> bool {
    ins is WaitKey && first_pressed(s.keys) == 16
}

/// No key of the keypad is down.
pub open spec fn no_key_down(s: MachineState) -> bool {
    forall|k: int| 0 <= k < 16 ==> !#[trigger] s.keys[k]
}

/// `v - n`, stopping at zero.
pub open spec fn count_down(v: u8, n: nat) -> u8 {
    if v >= n { (v - n) as u8 } else { 0 }
}

/// `n` cycles in a row, each with `random` as the random byte; the first
/// failure ends the run.
pub open spec fn run_cycles(s: MachineState, n: nat, random: u8) -> Result<MachineState, Chip8Error>
    decreases n,
{
    if n == 0 {
        Ok(s)
    } else {
        match step_spec(s, random) {
            Ok(t) => run_cycles(t, (n - 1) as nat, random),
            Err(e) => Err(e),
        }
    }
}

/// Every instruction that neither transfers control, nor skips, nor waits
/// for a key that is not pressed advances the program counter by exactly two
/// in one cycle, and such a cycle never fails.
pub proof fn lemma_pc_advances_by_two(s: MachineState, random: u8)
    requires
        s.wf(),
        current_instruction(s) matches Some(ins) && !transfers_control(ins) && !skip_taken(s, ins)
            && !key_wait_misses(s, ins),
    ensures
        step_spec(s, random) matches Ok(t) && t.pc == add16(s.pc as int, 2),
{
    lemma_first_pressed_bound(s.keys, 0);
}

/// Drawing the same sprite twice at the same place on a dark framebuffer:
/// the first draw lights exactly the sprite's cells and reports no
/// collision; the second turns them all dark again and reports a collision
/// exactly when the sprite has a set pixel.
pub proof fn lemma_draw_twice(s: MachineState, x: u8, y: u8, n: u8)
    requires
        s.wf(),
        x < 16,
        y < 16,
        n < 16,
        x != FLAG,
        y != FLAG,
        forall|cell: int| 0 <= cell < VIDEO_SIZE ==> !#[trigger] s.video[cell],
    ensures
        ({
            let x0 = (s.registers[x as int] % 64) as int;
            let y0 = (s.registers[y as int] % 32) as int;
            let ins = Instruction::Draw { x, y, n };
            &&& execute_spec(s, ins, 0) matches Ok(t)
            &&& t.registers[FLAG as int] == 0
            &&& forall|cell: int| 0 <= cell < VIDEO_SIZE ==>
                    t.video[cell] == #[trigger] covers(s.memory, s.index, x0, y0, n as int, cell)
            &&& execute_spec(t, ins, 0) matches Ok(u)
            &&& u.video == s.video
            &&& (u.registers[FLAG as int] == 1 <==> exists|cell: int| 0 <= cell < VIDEO_SIZE
                    && #[trigger] covers(s.memory, s.index, x0, y0, n as int, cell))
        }),
{
    let x0 = (s.registers[x as int] % 64) as int;
    let y0 = (s.registers[y as int] % 32) as int;
    let ins = Instruction::Draw { x, y, n };
    let t = execute_spec(s, ins, 0).get_Ok_0();
    let u = execute_spec(t, ins, 0).get_Ok_0();
    assert(t.registers[x as int] == s.registers[x as int]);
    assert(t.registers[y as int] == s.registers[y as int]);
    assert(u.video =~= s.video);
    if exists|cell: int| 0 <= cell < VIDEO_SIZE && #[trigger] covers(s.memory, s.index, x0, y0, n as int, cell) {
        let cell = choose|cell: int| 0 <= cell < VIDEO_SIZE && #[trigger] covers(s.memory, s.index, x0, y0, n as int, cell);
        assert(t.video[cell]);
    }
}

/// A call pushes the address just after it and jumps; a later return, made
/// with the stack as the call left it, comes back to that address and
/// restores the stack depth.
pub proof fn lemma_call_then_return(s: MachineState, a: u16, random: u8, u: MachineState, random2: u8)
    requires
        s.wf(),
        current_instruction(s) == Some(Instruction::Call { addr: a }),
        s.sp < 16,
        u.wf(),
        u.sp == s.sp + 1,
        u.stack == s.stack.update(s.sp as int, add16(s.pc as int, 2)),
        current_instruction(u) == Some(Instruction::Return),
    ensures
        step_spec(s, random) matches Ok(t) && t.pc == a && t.sp == u.sp && t.stack == u.stack,
        step_spec(u, random2) matches Ok(v) && v.pc == add16(s.pc as int, 2) && v.sp == s.sp,
{
}

/// A call with sixteen return addresses already on the stack fails with
/// `StackOverflow`.
pub proof fn lemma_call_overflows(s: MachineState, a: u16, random: u8)
    requires
        s.wf(),
        current_instruction(s) == Some(Instruction::Call { addr: a }),
        s.sp == 16,
    ensures
        step_spec(s, random) == Err::<MachineState, Chip8Error>(Chip8Error::StackOverflow),
{
}

/// The key search ends at a key or at 16.
proof fn lemma_first_pressed_bound(keys: Seq<bool>, i: int)
    requires
        0 <= i,
    ensures
        i <= first_pressed_from(keys, i) <= 16 || i > 16,
    decreases 16 - i,
{
    if i < 16 {
        lemma_first_pressed_bound(keys, i + 1);
    }
}

/// With no key down, no key is found from any starting point.
proof fn lemma_none_pressed(keys: Seq<bool>, i: int)
    requires
        keys.len() == 16,
        0 <= i,
        forall|k: int| 0 <= k < 16 ==> !#[trigger] keys[k],
    ensures
        first_pressed_from(keys, i) == 16,
    decreases 16 - i,
{
    if i < 16 {
        lemma_none_pressed(keys, i + 1);
    }
}

/// While a key wait is pending and no key is down, any number of cycles
/// leaves everything as it was but the two timers, which count down towards
/// zero.
pub proof fn lemma_key_wait_spins(s: MachineState, n: nat, random: u8)
    requires
        s.wf(),
        current_instruction(s) matches Some(ins) && ins is WaitKey,
        no_key_down(s),
    ensures
        run_cycles(s, n, random) == Ok::<MachineState, Chip8Error>(
            MachineState { delay: count_down(s.delay, n), sound: count_down(s.sound, n), ..s },
        ),
    decreases n,
{
    lemma_none_pressed(s.keys, 0);
    if n > 0 {
        let t = MachineState { delay: count_down(s.delay, 1), sound: count_down(s.sound, 1), ..s };
        assert(step_spec(s, random) == Ok::<MachineState, Chip8Error>(t));
        lemma_key_wait_spins(t, (n - 1) as nat, random);
        assert(MachineState { delay: count_down(t.delay, (n - 1) as nat), sound: count_down(t.sound, (n - 1) as nat), ..t }
            == MachineState { delay: count_down(s.delay, n), sound: count_down(s.sound, n), ..s });
    }
}

} // verus!
