use vstd::prelude::*;
use crate::globals::{AddressMode, JmpCondition, OneOpcode, TwoOpcode, SR, ZR};

verus! {

/// The jump condition that a 3-bit condition code stands for.
pub open spec fn jump_condition_of(code: u8) -> JmpCondition {
    if code == 0 {
        JmpCondition::JNE
    } else if code == 1 {
        JmpCondition::JEQ
    } else if code == 2 {
        JmpCondition::JLO
    } else if code == 3 {
        JmpCondition::JHS
    } else if code == 4 {
        JmpCondition::JN
    } else if code == 5 {
        JmpCondition::JGE
    } else if code == 6 {
        JmpCondition::JL
    } else {
        JmpCondition::JMP
    }
}

/// The single-operand opcode that a 3-bit code stands for, if any.
pub open spec fn one_opcode_of(code: u8) -> Option<OneOpcode> {
    if code == 0 {
        Some(OneOpcode::RRC)
    } else if code == 1 {
        Some(OneOpcode::SWPB)
    } else if code == 2 {
        Some(OneOpcode::RRA)
    } else if code == 3 {
        Some(OneOpcode::SXT)
    } else if code == 4 {
        Some(OneOpcode::PUSH)
    } else if code == 5 {
        Some(OneOpcode::CALL)
    } else if code == 6 {
        Some(OneOpcode::RETI)
    } else {
        None
    }
}

/// The double-operand opcode that a 4-bit code stands for, if any.
pub open spec fn two_opcode_of(code: u8) -> Option<TwoOpcode> {
    if code == 4 {
        Some(TwoOpcode::MOV)
    } else if code == 5 {
        Some(TwoOpcode::ADD)
    } else if code == 6 {
        Some(TwoOpcode::ADDC)
    } else if code == 7 {
        Some(TwoOpcode::SUBC)
    } else if code == 8 {
        Some(TwoOpcode::SUB)
    } else if code == 9 {
        Some(TwoOpcode::CMP)
    } else if code == 10 {
        Some(TwoOpcode::DADD)
    } else if code == 11 {
        Some(TwoOpcode::BIT)
    } else if code == 12 {
        Some(TwoOpcode::BIC)
    } else if code == 13 {
        Some(TwoOpcode::BIS)
    } else if code == 14 {
        Some(TwoOpcode::XOR)
    } else if code == 15 {
        Some(TwoOpcode::AND)
    } else {
        None
    }
}

/// The addressing mode that a 2-bit mode code means on register `reg`: the
/// status register and the zero register each read the code in an alphabet of
/// their own, every other register in the general one.
pub open spec fn address_mode_of(reg: u8, code: u8) -> AddressMode {
    if reg == SR {
        if code == 0 {
            AddressMode::Direct
        } else if code == 1 {
            AddressMode::AbsoluteAddressing
        } else if code == 2 {
            AddressMode::Const4
        } else {
            AddressMode::Const8
        }
    } else if reg == ZR {
        if code == 0 {
            AddressMode::Const0
        } else if code == 1 {
            AddressMode::Const1
        } else if code == 2 {
            AddressMode::Const2
        } else {
            AddressMode::ConstNeg1
        }
    } else {
        if code == 0 {
            AddressMode::Direct
        } else if code == 1 {
            AddressMode::Indexed
        } else if code == 2 {
            AddressMode::Indirect
        } else {
            AddressMode::IndirectIncrement
        }
    }
}

/// The code of a single-operand opcode.
pub open spec fn one_opcode_code(op: OneOpcode) -> u8 {
    match op {
        OneOpcode::RRC => 0,
        OneOpcode::SWPB => 1,
        OneOpcode::RRA => 2,
        OneOpcode::SXT => 3,
        OneOpcode::PUSH => 4,
        OneOpcode::CALL => 5,
        OneOpcode::RETI => 6,
    }
}

/// The code of a double-operand opcode.
pub open spec fn two_opcode_code(op: TwoOpcode) -> u8 {
    match op {
        TwoOpcode::MOV => 4,
        TwoOpcode::ADD => 5,
        TwoOpcode::ADDC => 6,
        TwoOpcode::SUBC => 7,
        TwoOpcode::SUB => 8,
        TwoOpcode::CMP => 9,
        TwoOpcode::DADD => 10,
        TwoOpcode::BIT => 11,
        TwoOpcode::BIC => 12,
        TwoOpcode::BIS => 13,
        TwoOpcode::XOR => 14,
        TwoOpcode::AND => 15,
    }
}

/// The code of a jump condition.
pub open spec fn jump_condition_code(c: JmpCondition) -> u8 {
    match c {
        JmpCondition::JNE => 0,
        JmpCondition::JEQ => 1,
        JmpCondition::JLO => 2,
        JmpCondition::JHS => 3,
        JmpCondition::JN => 4,
        JmpCondition::JGE => 5,
        JmpCondition::JL => 6,
        JmpCondition::JMP => 7,
    }
}

/// Looks up the jump condition of a 3-bit condition code.
pub fn jump_condition(code: u8) -> (r: JmpCondition)
    requires
        code < 8,
    ensures
        r == jump_condition_of(code),
{
    match code {
        0 => JmpCondition::JNE,
        1 => JmpCondition::JEQ,
        2 => JmpCondition::JLO,
        3 => JmpCondition::JHS,
        4 => JmpCondition::JN,
        5 => JmpCondition::JGE,
        6 => JmpCondition::JL,
        _ => JmpCondition::JMP,
    }
}

/// Looks up the single-operand opcode of a 3-bit code.
pub fn one_opcode(code: u8) -> (r: Option<OneOpcode>)
    ensures
        r == one_opcode_of(code),
{
    match code {
        0 => Some(OneOpcode::RRC),
        1 => Some(OneOpcode::SWPB),
        2 => Some(OneOpcode::RRA),
        3 => Some(OneOpcode::SXT),
        4 => Some(OneOpcode::PUSH),
        5 => Some(OneOpcode::CALL),
        6 => Some(OneOpcode::RETI),
        _ => None,
    }
}

/// Looks up the double-operand opcode of a 4-bit code.
pub fn two_opcode(code: u8) -> (r: Option<TwoOpcode>)
    ensures
        r == two_opcode_of(code),
{
    match code {
        4 => Some(TwoOpcode::MOV),
        5 => Some(TwoOpcode::ADD),
        6 => Some(TwoOpcode::ADDC),
        7 => Some(TwoOpcode::SUBC),
        8 => Some(TwoOpcode::SUB),
        9 => Some(TwoOpcode::CMP),
        10 => Some(TwoOpcode::DADD),
        11 => Some(TwoOpcode::BIT),
        12 => Some(TwoOpcode::BIC),
        13 => Some(TwoOpcode::BIS),
        14 => Some(TwoOpcode::XOR),
        15 => Some(TwoOpcode::AND),
        _ => None,
    }
}

/// Reads a 2-bit mode code in the alphabet of register `reg`.
pub fn address_mode(reg: u8, code: u8) -> (r: AddressMode)
    requires
        code < 4,
    ensures
        r == address_mode_of(reg, code),
{
    if reg == SR {
        match code {
            0 => AddressMode::Direct,
            1 => AddressMode::AbsoluteAddressing,
            2 => AddressMode::Const4,
            _ => AddressMode::Const8,
        }
    } else if reg == ZR {
        match code {
            0 => AddressMode::Const0,
            1 => AddressMode::Const1,
            2 => AddressMode::Const2,
            _ => AddressMode::ConstNeg1,
        }
    } else {
        match code {
            0 => AddressMode::Direct,
            1 => AddressMode::Indexed,
            2 => AddressMode::Indirect,
            _ => AddressMode::IndirectIncrement,
        }
    }
}

/// The zero register reads every mode code as a constant (`Const0`, `Const1`,
/// `Const2` or `ConstNeg1`), and the status register as `Direct`,
/// `AbsoluteAddressing`, `Const4` or `Const8`, whatever the code.
pub proof fn lemma_constant_generator_alphabets(reg: u8, code: u8)
    ensures
        reg == ZR ==> (address_mode_of(reg, code) == AddressMode::Const0
            || address_mode_of(reg, code) == AddressMode::Const1
            || address_mode_of(reg, code) == AddressMode::Const2
            || address_mode_of(reg, code) == AddressMode::ConstNeg1),
        reg == SR ==> (address_mode_of(reg, code) == AddressMode::Direct
            || address_mode_of(reg, code) == AddressMode::AbsoluteAddressing
            || address_mode_of(reg, code) == AddressMode::Const4
            || address_mode_of(reg, code) == AddressMode::Const8),
{
}

} // verus!
