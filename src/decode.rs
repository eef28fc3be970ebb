use vstd::prelude::*;

verus! {

/// One decoded instruction word. Register operands are nibbles (0..16),
/// addresses are 12-bit immediates, `nn` is the 8-bit immediate and `n`
/// the 4-bit sprite height.
#[derive(PartialEq, Eq, Structural, Clone, Copy, Debug)]
pub enum Instruction {
    /// 00E0
    Clear,
    /// 00EE
    Return,
    /// 1NNN
    Jump { addr: u16 },
    /// 2NNN
    Call { addr: u16 },
    /// 3XNN
    SkipEqImm { x: u8, nn: u8 },
    /// 4XNN
    SkipNeImm { x: u8, nn: u8 },
    /// 5XY0
    SkipEqReg { x: u8, y: u8 },
    /// 6XNN
    LoadImm { x: u8, nn: u8 },
    /// 7XNN
    AddImm { x: u8, nn: u8 },
    /// 8XY0
    Copy { x: u8, y: u8 },
    /// 8XY1
    Or { x: u8, y: u8 },
    /// 8XY2
    And { x: u8, y: u8 },
    /// 8XY3
    Xor { x: u8, y: u8 },
    /// 8XY4
    AddReg { x: u8, y: u8 },
    /// 8XY5
    SubReg { x: u8, y: u8 },
    /// 8XY6
    ShiftRight { x: u8 },
    /// 8XY7
    SubRev { x: u8, y: u8 },
    /// 8XYE
    ShiftLeft { x: u8 },
    /// 9XY0
    SkipNeReg { x: u8, y: u8 },
    /// ANNN
    SetIndex { addr: u16 },
    /// BNNN
    JumpOffset { addr: u16 },
    /// CXNN
    Random { x: u8, nn: u8 },
    /// DXYN
    Draw { x: u8, y: u8, n: u8 },
    /// EX9E
    SkipKeyPressed { x: u8 },
    /// EXA1
    SkipKeyNotPressed { x: u8 },
    /// FX07
    ReadDelay { x: u8 },
    /// FX0A
    WaitKey { x: u8 },
    /// FX15
    SetDelay { x: u8 },
    /// FX18
    SetSound { x: u8 },
    /// FX1E
    AddIndex { x: u8 },
    /// FX29
    FontChar { x: u8 },
    /// FX33
    Bcd { x: u8 },
    /// FX55
    StoreRegs { x: u8 },
    /// FX65
    LoadRegs { x: u8 },
}

/// The instruction word formed by two consecutive memory bytes.
pub open spec fn opcode_of(hi: u8, lo: u8) -> u16 {
    (hi as int * 256 + lo as int) as u16
}

/// The decode table: the instruction named by the four nibbles of an
/// instruction word, or `None` for a nibble pattern outside the instruction set.
pub open spec fn decode_spec(hi: u8, lo: u8) -> Option<Instruction> {
    let n0 = hi / 16;
    let x = hi % 16;
    let y = lo / 16;
    let n3 = lo % 16;
    let addr = (x as int * 256 + lo as int) as u16;
    if n0 == 0 {
        if hi == 0x00 && lo == 0xE0 {
            Some(Instruction::Clear)
        } else if hi == 0x00 && lo == 0xEE {
            Some(Instruction::Return)
        } else {
            None
        }
    } else if n0 == 1 {
        Some(Instruction::Jump { addr })
    } else if n0 == 2 {
        Some(Instruction::Call { addr })
    } else if n0 == 3 {
        Some(Instruction::SkipEqImm { x, nn: lo })
    } else if n0 == 4 {
        Some(Instruction::SkipNeImm { x, nn: lo })
    } else if n0 == 5 {
        if n3 == 0 { Some(Instruction::SkipEqReg { x, y }) } else { None }
    } else if n0 == 6 {
        Some(Instruction::LoadImm { x, nn: lo })
    } else if n0 == 7 {
        Some(Instruction::AddImm { x, nn: lo })
    } else if n0 == 8 {
        if n3 == 0 {
            Some(Instruction::Copy { x, y })
        } else if n3 == 1 {
            Some(Instruction::Or { x, y })
        } else if n3 == 2 {
            Some(Instruction::And { x, y })
        } else if n3 == 3 {
            Some(Instruction::Xor { x, y })
        } else if n3 == 4 {
            Some(Instruction::AddReg { x, y })
        } else if n3 == 5 {
            Some(Instruction::SubReg { x, y })
        } else if n3 == 6 {
            Some(Instruction::ShiftRight { x })
        } else if n3 == 7 {
            Some(Instruction::SubRev { x, y })
        } else if n3 == 0xE {
            Some(Instruction::ShiftLeft { x })
        } else {
            None
        }
    } else if n0 == 9 {
        if n3 == 0 { Some(Instruction::SkipNeReg { x, y }) } else { None }
    } else if n0 == 0xA {
        Some(Instruction::SetIndex { addr })
    } else if n0 == 0xB {
        Some(Instruction::JumpOffset { addr })
    } else if n0 == 0xC {
        Some(Instruction::Random { x, nn: lo })
    } else if n0 == 0xD {
        Some(Instruction::Draw { x, y, n: n3 })
    } else if n0 == 0xE {
        if lo == 0x9E {
            Some(Instruction::SkipKeyPressed { x })
        } else if lo == 0xA1 {
            Some(Instruction::SkipKeyNotPressed { x })
        } else {
            None
        }
    } else {
        if lo == 0x07 {
            Some(Instruction::ReadDelay { x })
        } else if lo == 0x0A {
            Some(Instruction::WaitKey { x })
        } else if lo == 0x15 {
            Some(Instruction::SetDelay { x })
        } else if lo == 0x18 {
            Some(Instruction::SetSound { x })
        } else if lo == 0x1E {
            Some(Instruction::AddIndex { x })
        } else if lo == 0x29 {
            Some(Instruction::FontChar { x })
        } else if lo == 0x33 {
            Some(Instruction::Bcd { x })
        } else if lo == 0x55 {
            Some(Instruction::StoreRegs { x })
        } else if lo == 0x65 {
            Some(Instruction::LoadRegs { x })
        } else {
            None
        }
    }
}

/// Every operand of a decoded instruction is in range: registers are
/// nibbles, addresses 12 bits wide, sprite heights nibbles.
pub open spec fn operands_in_range(ins: Instruction) -> bool {
    match ins {
        Instruction::Jump { addr } | Instruction::Call { addr } | Instruction::SetIndex { addr }
        | Instruction::JumpOffset { addr } => addr < 4096,
        Instruction::SkipEqImm { x, .. } | Instruction::SkipNeImm { x, .. }
        | Instruction::LoadImm { x, .. } | Instruction::AddImm { x, .. }
        | Instruction::Random { x, .. } | Instruction::ShiftRight { x }
        | Instruction::ShiftLeft { x } | Instruction::SkipKeyPressed { x }
        | Instruction::SkipKeyNotPressed { x } | Instruction::ReadDelay { x }
        | Instruction::WaitKey { x } | Instruction::SetDelay { x } | Instruction::SetSound { x }
        | Instruction::AddIndex { x } | Instruction::FontChar { x } | Instruction::Bcd { x }
        | Instruction::StoreRegs { x } | Instruction::LoadRegs { x } => x < 16,
        Instruction::SkipEqReg { x, y } | Instruction::SkipNeReg { x, y }
        | Instruction::Copy { x, y } | Instruction::Or { x, y } | Instruction::And { x, y }
        | Instruction::Xor { x, y } | Instruction::AddReg { x, y } | Instruction::SubReg { x, y }
        | Instruction::SubRev { x, y } => x < 16 && y < 16,
        Instruction::Draw { x, y, n } => x < 16 && y < 16 && n < 16,
        Instruction::Clear | Instruction::Return => true,
    }
}

/// Decodes the instruction word whose high byte is `hi` and low byte `lo`.
pub fn decode(hi: u8, lo: u8) -> (r: Option<Instruction>)
    ensures
        r == decode_spec(hi, lo),
        r matches Some(ins) ==> operands_in_range(ins),
{
    let n0: u8 = hi / 16;
    let x: u8 = hi % 16;
    let y: u8 = lo / 16;
    let n3: u8 = lo % 16;
    let addr: u16 = (x as u16) * 256 + lo as u16;
    match n0 {
        0 => {
            if hi == 0x00 && lo == 0xE0 {
                Some(Instruction::Clear)
            } else if hi == 0x00 && lo == 0xEE {
                Some(Instruction::Return)
            } else {
                None
            }
        },
        1 => Some(Instruction::Jump { addr }),
        2 => Some(Instruction::Call { addr }),
        3 => Some(Instruction::SkipEqImm { x, nn: lo }),
        4 => Some(Instruction::SkipNeImm { x, nn: lo }),
        5 => if n3 == 0 { Some(Instruction::SkipEqReg { x, y }) } else { None },
        6 => Some(Instruction::LoadImm { x, nn: lo }),
        7 => Some(Instruction::AddImm { x, nn: lo }),
        8 => match n3 {
            0 => Some(Instruction::Copy { x, y }),
            1 => Some(Instruction::Or { x, y }),
            2 => Some(Instruction::And { x, y }),
            3 => Some(Instruction::Xor { x, y }),
            4 => Some(Instruction::AddReg { x, y }),
            5 => Some(Instruction::SubReg { x, y }),
            6 => Some(Instruction::ShiftRight { x }),
            7 => Some(Instruction::SubRev { x, y }),
            0xE => Some(Instruction::ShiftLeft { x }),
            _ => None,
        },
        9 => if n3 == 0 { Some(Instruction::SkipNeReg { x, y }) } else { None },
        0xA => Some(Instruction::SetIndex { addr }),
        0xB => Some(Instruction::JumpOffset { addr }),
        0xC => Some(Instruction::Random { x, nn: lo }),
        0xD => Some(Instruction::Draw { x, y, n: n3 }),
        0xE => match lo {
            0x9E => Some(Instruction::SkipKeyPressed { x }),
            0xA1 => Some(Instruction::SkipKeyNotPressed { x }),
            _ => None,
        },
        _ => match lo {
            0x07 => Some(Instruction::ReadDelay { x }),
            0x0A => Some(Instruction::WaitKey { x }),
            0x15 => Some(Instruction::SetDelay { x }),
            0x18 => Some(Instruction::SetSound { x }),
            0x1E => Some(Instruction::AddIndex { x }),
            0x29 => Some(Instruction::FontChar { x }),
            0x33 => Some(Instruction::Bcd { x }),
            0x55 => Some(Instruction::StoreRegs { x }),
            0x65 => Some(Instruction::LoadRegs { x }),
            _ => None,
        },
    }
}

} // verus!
