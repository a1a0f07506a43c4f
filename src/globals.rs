use vstd::prelude::*;

verus! {

/// Register number of the Program Counter.
pub const PC: u8 = 0;

/// Register number of the Stack Pointer.
pub const SP: u8 = 1;

/// Register number of the Status Register.
pub const SR: u8 = 2;

/// Register number of the always-zero register.
pub const ZR: u8 = 3;

/// A 16-bit machine word, tagged with the interpretation it was produced under.
#[derive(Clone, Copy, Debug, PartialEq, Eq, Structural)]
pub enum Word {
    Signed(i16),
    Unigned(u16),
}

impl Word {
    /// The word's bits read as an unsigned number.
    pub open spec fn unsigned(self) -> u16 {
        match self {
            Word::Signed(n) => n as u16,
            Word::Unigned(n) => n,
        }
    }

    /// The word's bits read as a two's-complement number.
    pub open spec fn signed(self) -> i16 {
        match self {
            Word::Signed(n) => n,
            Word::Unigned(n) => n as i16,
        }
    }

    pub fn get_unsigned(&self) -> (r: u16)
        ensures
            r == self.unsigned(),
    {
        match *self {
            Word::Signed(n) => n as u16,
            Word::Unigned(n) => n,
        }
    }

    pub fn get_signed(&self) -> (r: i16)
        ensures
            r == self.signed(),
    {
        match *self {
            Word::Signed(n) => n,
            Word::Unigned(n) => n as i16,
        }
    }
}

/// A memory address.
#[derive(Clone, Copy, Debug, PartialEq, Eq, Structural)]
pub struct Address(pub u64);

/// The eight branch conditions of a jump instruction.
#[derive(Clone, Copy, Debug, PartialEq, Eq, Structural)]
pub enum JmpCondition {
    JNE,
    JEQ,
    JLO,
    JHS,
    JN,
    JGE,
    JL,
    JMP,
}

/// Opcodes of the single-operand format.
#[derive(Clone, Copy, Debug, PartialEq, Eq, Structural)]
pub enum OneOpcode {
    RRC,
    SWPB,
    RRA,
    SXT,
    PUSH,
    CALL,
    RETI,
}

/// Opcodes of the double-operand format.
#[derive(Clone, Copy, Debug, PartialEq, Eq, Structural)]
pub enum TwoOpcode {
    MOV,
    ADD,
    ADDC,
    SUBC,
    SUB,
    CMP,
    DADD,
    BIT,
    BIC,
    BIS,
    XOR,
    AND,
}

/// Addressing modes. The first four belong to general registers, the next three
/// (with `Direct`) to the status register, the last four to the zero register.
#[derive(Clone, Copy, Debug, PartialEq, Eq, Structural)]
pub enum AddressMode {
    Direct,
    Indirect,
    IndirectIncrement,
    Indexed,
    AbsoluteAddressing,
    Const4,
    Const8,
    Const0,
    Const1,
    Const2,
    ConstNeg1,
}

/// An index register number.
#[derive(Clone, Copy, Debug, PartialEq, Eq, Structural)]
pub struct Indexing(pub u8);

/// A general-purpose register: its number and its stored value.
#[derive(Clone, Copy, Debug, PartialEq, Eq, Structural)]
pub struct Register {
    pub value: u64,
    pub reg_num: u8,
}

/// An operand of an instruction: a register number, the addressing mode it was
/// decoded with, and a scratch value slot.
#[derive(Clone, Copy, Debug, PartialEq, Eq, Structural)]
pub struct RegisterArg {
    pub reg_num: u8,
    pub am: AddressMode,
    pub value: u64,
}

/// The byte/word flag: set for an 8-bit operation.
#[derive(Clone, Copy, Debug, PartialEq, Eq, Structural)]
pub struct Bbit(pub bool);

/// A signed displacement.
#[derive(Clone, Copy, Debug, PartialEq, Eq, Structural)]
pub struct Offset(pub i16);

/// A decoded instruction.
#[allow(inconsistent_fields)]
#[derive(Clone, Copy, Debug, PartialEq, Eq)]
pub enum Instruction {
    Invalid,
    JMP { condition: JmpCondition, offset: Offset },
    ONE { opcode: OneOpcode, b: Bbit, dest: RegisterArg },
    TWO { opcode: TwoOpcode, src: RegisterArg, b: Bbit, dest: RegisterArg },
    PSEUDO { opcode: PsuedoOpcode, b: Bbit, dest: Option<RegisterArg> },
}

/// Shorthand forms that the execution layer expands into real instructions.
#[derive(Clone, Copy, Debug, PartialEq, Eq, Structural)]
pub enum PsuedoOpcode {
    NOP,
    POP,
    BR,
    RET,
    CLRC,
    SETC,
    CLRZ,
    SETZ,
    CLRN,
    SETN,
    DINT,
    EINT,
    RLA,
    RLC,
    INV,
    CLR,
    TST,
    DEC,
    DECD,
    INC,
    INCD,
    ADC,
    DADC,
    SBC,
}

/// A word read as a two's-complement number.
#[derive(Clone, Copy, Debug, PartialEq, Eq, Structural)]
pub struct SignedWord(i16);

/// The three instruction shapes.
#[derive(Clone, Copy, Debug, PartialEq, Eq, Structural)]
pub enum InstructionFlavor {
    JMP,
    ONE,
    TWO,
}

/// What a resolved destination names: a memory address or a register number.
#[derive(Clone, Copy, Debug, PartialEq, Eq, Structural)]
pub enum RegisterFlavor {
    Address,
    RegisterNumber,
}

/// Why a decode or an operand resolution failed.
#[derive(Clone, Copy, Debug, PartialEq, Eq, Structural)]
pub enum CoreError {
    /// An opcode field holds a code that no opcode is assigned to.
    UnknownOpcode,
    /// A source-only addressing mode was used as a destination.
    InvalidDestinationMode,
}

} // verus!
