use vstd::prelude::*;
use crate::error::VmError;

verus! {

/// The closed, exhaustive set of instruction variants, with operand fields
/// extracted from the opcode by fixed rules: `x` and `y` are register
/// indices drawn from the second and third nibble, `nn` the low byte, `nnn`
/// the low 12 bits and `n` the low nibble.
#[derive(Clone, Copy, Debug, PartialEq, Eq, Structural)]
pub enum Instruction {
    /// 00E0: clear the display.
    Cls,
    /// 00EE: return from a call.
    Ret,
    /// 1NNN: jump to NNN.
    Jump(u16),
    /// 2NNN: call the routine at NNN.
    Call(u16),
    /// 3XNN: skip the next instruction if VX equals NN.
    SkipEqImm(u8, u8),
    /// 4XNN: skip the next instruction if VX differs from NN.
    SkipNeImm(u8, u8),
    /// 5XY0: skip the next instruction if VX equals VY.
    SkipEqReg(u8, u8),
    /// 6XNN: load NN into VX.
    LoadImm(u8, u8),
    /// 7XNN: add NN to VX without touching the flag register.
    AddImm(u8, u8),
    /// 8XY0: copy VY into VX.
    Move(u8, u8),
    /// 8XY1: VX |= VY.
    Or(u8, u8),
    /// 8XY2: VX &= VY.
    And(u8, u8),
    /// 8XY3: VX ^= VY.
    Xor(u8, u8),
    /// 8XY4: VX += VY, VF becomes the carry.
    AddReg(u8, u8),
    /// 8XY5: VX -= VY, VF becomes the no-borrow flag.
    SubReg(u8, u8),
    /// 8XY6: shift right by one; the source is VY, or VX itself under the
    /// shift quirk; VF becomes the bit shifted out.
    Shr(u8, u8),
    /// 8XY7: VX = VY - VX, VF becomes the no-borrow flag.
    SubN(u8, u8),
    /// 8XYE: shift left by one; the source is VY, or VX itself under the
    /// shift quirk; VF becomes the bit shifted out.
    Shl(u8, u8),
    /// 9XY0: skip the next instruction if VX differs from VY.
    SkipNeReg(u8, u8),
    /// ANNN: load NNN into the index register.
    LoadI(u16),
    /// BNNN: jump to NNN plus V0.
    JumpV0(u16),
    /// CXNN: load a pseudo-random byte masked by NN into VX.
    Rand(u8, u8),
    /// DXYN: draw the N-row sprite at the index register at (VX, VY).
    Draw(u8, u8, u8),
    /// EX9E: skip the next instruction if the key named by VX is pressed.
    SkipKey(u8),
    /// EXA1: skip the next instruction if the key named by VX is released.
    SkipNoKey(u8),
    /// FX07: load the delay timer into VX.
    LoadDelay(u8),
    /// FX0A: halt until a key press arrives, then store its value in VX.
    WaitKey(u8),
    /// FX15: load VX into the delay timer.
    SetDelay(u8),
    /// FX18: load VX into the sound timer.
    SetSound(u8),
    /// FX1E: add VX to the index register.
    AddI(u8),
    /// FX29: point the index register at the font glyph for VX.
    LoadFont(u8),
    /// FX33: store the decimal digits of VX at the index register.
    StoreBcd(u8),
    /// FX55: store V0 through VX at the index register.
    StoreRegs(u8),
    /// FX65: load V0 through VX from the index register.
    LoadRegs(u8),
}

/// Operand fields lie within their documented ranges: register indices
/// below 16, addresses below 4096, nibbles below 16. Decoding only produces
/// such variants.
pub open spec fn instr_wf(i: Instruction) -> bool {
    match i {
        Instruction::Cls => true,
        Instruction::Ret => true,
        Instruction::Jump(nnn) => nnn < 4096,
        Instruction::Call(nnn) => nnn < 4096,
        Instruction::SkipEqImm(x, _nn) => x < 16,
        Instruction::SkipNeImm(x, _nn) => x < 16,
        Instruction::SkipEqReg(x, y) => x < 16 && y < 16,
        Instruction::LoadImm(x, _nn) => x < 16,
        Instruction::AddImm(x, _nn) => x < 16,
        Instruction::Move(x, y) => x < 16 && y < 16,
        Instruction::Or(x, y) => x < 16 && y < 16,
        Instruction::And(x, y) => x < 16 && y < 16,
        Instruction::Xor(x, y) => x < 16 && y < 16,
        Instruction::AddReg(x, y) => x < 16 && y < 16,
        Instruction::SubReg(x, y) => x < 16 && y < 16,
        Instruction::Shr(x, y) => x < 16 && y < 16,
        Instruction::SubN(x, y) => x < 16 && y < 16,
        Instruction::Shl(x, y) => x < 16 && y < 16,
        Instruction::SkipNeReg(x, y) => x < 16 && y < 16,
        Instruction::LoadI(nnn) => nnn < 4096,
        Instruction::JumpV0(nnn) => nnn < 4096,
        Instruction::Rand(x, _nn) => x < 16,
        Instruction::Draw(x, y, n) => x < 16 && y < 16 && n < 16,
        Instruction::SkipKey(x) => x < 16,
        Instruction::SkipNoKey(x) => x < 16,
        Instruction::LoadDelay(x) => x < 16,
        Instruction::WaitKey(x) => x < 16,
        Instruction::SetDelay(x) => x < 16,
        Instruction::SetSound(x) => x < 16,
        Instruction::AddI(x) => x < 16,
        Instruction::LoadFont(x) => x < 16,
        Instruction::StoreBcd(x) => x < 16,
        Instruction::StoreRegs(x) => x < 16,
        Instruction::LoadRegs(x) => x < 16,
    }
}

/// The instruction variant an opcode stands for, or nothing when the bit
/// pattern matches no known instruction. The leading nibble selects the
/// group; where that is ambiguous the trailing nibble or byte decides.
pub open spec fn spec_decode(op: u16) -> Option<Instruction> {
    let x = ((op / 0x100) % 0x10) as u8;
    let y = ((op / 0x10) % 0x10) as u8;
    let n = (op % 0x10) as u8;
    let nn = (op % 0x100) as u8;
    let nnn = op % 0x1000;
    if op == 0x00E0 {
        Some(Instruction::Cls)
    } else if op == 0x00EE {
        Some(Instruction::Ret)
    } else {
        match op / 0x1000 {
            0x1 => Some(Instruction::Jump(nnn)),
            0x2 => Some(Instruction::Call(nnn)),
            0x3 => Some(Instruction::SkipEqImm(x, nn)),
            0x4 => Some(Instruction::SkipNeImm(x, nn)),
            0x5 => if n == 0 { Some(Instruction::SkipEqReg(x, y)) } else { None },
            0x6 => Some(Instruction::LoadImm(x, nn)),
            0x7 => Some(Instruction::AddImm(x, nn)),
            0x8 => match n {
                0x0 => Some(Instruction::Move(x, y)),
                0x1 => Some(Instruction::Or(x, y)),
                0x2 => Some(Instruction::And(x, y)),
                0x3 => Some(Instruction::Xor(x, y)),
                0x4 => Some(Instruction::AddReg(x, y)),
                0x5 => Some(Instruction::SubReg(x, y)),
                0x6 => Some(Instruction::Shr(x, y)),
                0x7 => Some(Instruction::SubN(x, y)),
                0xE => Some(Instruction::Shl(x, y)),
                _ => None,
            },
            0x9 => if n == 0 { Some(Instruction::SkipNeReg(x, y)) } else { None },
            0xA => Some(Instruction::LoadI(nnn)),
            0xB => Some(Instruction::JumpV0(nnn)),
            0xC => Some(Instruction::Rand(x, nn)),
            0xD => Some(Instruction::Draw(x, y, n)),
            0xE => match nn {
                0x9E => Some(Instruction::SkipKey(x)),
                0xA1 => Some(Instruction::SkipNoKey(x)),
                _ => None,
            },
            0xF => match nn {
                0x07 => Some(Instruction::LoadDelay(x)),
                0x0A => Some(Instruction::WaitKey(x)),
                0x15 => Some(Instruction::SetDelay(x)),
                0x18 => Some(Instruction::SetSound(x)),
                0x1E => Some(Instruction::AddI(x)),
                0x29 => Some(Instruction::LoadFont(x)),
                0x33 => Some(Instruction::StoreBcd(x)),
                0x55 => Some(Instruction::StoreRegs(x)),
                0x65 => Some(Instruction::LoadRegs(x)),
                _ => None,
            },
            _ => None,
        }
    }
}

/// Map a 16-bit opcode to its instruction variant; an opcode that matches
/// no known pattern is a hard failure.
pub fn decode(op: u16) -> (r: Result<Instruction, VmError>)
    ensures
        r matches Ok(i) ==> spec_decode(op) == Some(i) && instr_wf(i),
        r matches Err(e) ==> spec_decode(op) is None && e == VmError::UnknownOpcode(op),
{
    let x = ((op / 0x100) % 0x10) as u8;
    let y = ((op / 0x10) % 0x10) as u8;
    let n = (op % 0x10) as u8;
    let nn = (op % 0x100) as u8;
    let nnn = op % 0x1000;
    if op == 0x00E0 {
        return Ok(Instruction::Cls);
    }
    if op == 0x00EE {
        return Ok(Instruction::Ret);
    }
    let decoded = match op / 0x1000 {
        0x1 => Some(Instruction::Jump(nnn)),
        0x2 => Some(Instruction::Call(nnn)),
        0x3 => Some(Instruction::SkipEqImm(x, nn)),
        0x4 => Some(Instruction::SkipNeImm(x, nn)),
        0x5 => if n == 0 { Some(Instruction::SkipEqReg(x, y)) } else { None },
        0x6 => Some(Instruction::LoadImm(x, nn)),
        0x7 => Some(Instruction::AddImm(x, nn)),
        0x8 => match n {
            0x0 => Some(Instruction::Move(x, y)),
            0x1 => Some(Instruction::Or(x, y)),
            0x2 => Some(Instruction::And(x, y)),
            0x3 => Some(Instruction::Xor(x, y)),
            0x4 => Some(Instruction::AddReg(x, y)),
            0x5 => Some(Instruction::SubReg(x, y)),
            0x6 => Some(Instruction::Shr(x, y)),
            0x7 => Some(Instruction::SubN(x, y)),
            0xE => Some(Instruction::Shl(x, y)),
            _ => None,
        },
        0x9 => if n == 0 { Some(Instruction::SkipNeReg(x, y)) } else { None },
        0xA => Some(Instruction::LoadI(nnn)),
        0xB => Some(Instruction::JumpV0(nnn)),
        0xC => Some(Instruction::Rand(x, nn)),
        0xD => Some(Instruction::Draw(x, y, n)),
        0xE => match nn {
            0x9E => Some(Instruction::SkipKey(x)),
            0xA1 => Some(Instruction::SkipNoKey(x)),
            _ => None,
        },
        0xF => match nn {
            0x07 => Some(Instruction::LoadDelay(x)),
            0x0A => Some(Instruction::WaitKey(x)),
            0x15 => Some(Instruction::SetDelay(x)),
            0x18 => Some(Instruction::SetSound(x)),
            0x1E => Some(Instruction::AddI(x)),
            0x29 => Some(Instruction::LoadFont(x)),
            0x33 => Some(Instruction::StoreBcd(x)),
            0x55 => Some(Instruction::StoreRegs(x)),
            0x65 => Some(Instruction::LoadRegs(x)),
            _ => None,
        },
        _ => None,
    };
    match decoded {
        Some(i) => Ok(i),
        None => Err(VmError::UnknownOpcode(op)),
    }
}

} // verus!
