use vstd::prelude::*;
use vstd::arithmetic::power2::lemma2_to64;
use crate::bits::{field_of, load_field, load_signed_field, signed_of};
use crate::globals::{
    AddressMode, Bbit, CoreError, Instruction, InstructionFlavor, JmpCondition, OneOpcode,
    Offset, RegisterArg, TwoOpcode, Word,
};
use crate::maps::{
    address_mode, address_mode_of, jump_condition, jump_condition_code, jump_condition_of,
    one_opcode, one_opcode_code, one_opcode_of, two_opcode, two_opcode_code, two_opcode_of,
};

verus! {

/// The shape of instruction word `w`: bits 10..=15 equal to `000100` (lowest
/// bit first) make a single-operand instruction; otherwise bits 13..=15 equal
/// to `100` make a jump; every other word is a double-operand instruction.
pub open spec fn flavor_of(w: u16) -> InstructionFlavor {
    if field_of(w, 10, 15) == 4 {
        InstructionFlavor::ONE
    } else if field_of(w, 13, 15) == 1 {
        InstructionFlavor::JMP
    } else {
        InstructionFlavor::TWO
    }
}

/// The operand named by register number `reg` and mode code `code`.
pub open spec fn operand_of(reg: u16, code: u16) -> RegisterArg {
    RegisterArg { reg_num: reg as u8, am: address_mode_of(reg as u8, code as u8), value: 0 }
}

/// The instruction that word `w` encodes, or the reason it encodes none.
pub open spec fn decoded(w: u16) -> Result<Instruction, CoreError> {
    match flavor_of(w) {
        InstructionFlavor::ONE => match one_opcode_of(field_of(w, 7, 9) as u8) {
            Some(opcode) => Ok(
                Instruction::ONE {
                    opcode,
                    b: Bbit(field_of(w, 6, 6) == 1),
                    dest: operand_of(field_of(w, 0, 3), field_of(w, 4, 5)),
                },
            ),
            None => Err(CoreError::UnknownOpcode),
        },
        InstructionFlavor::JMP => Ok(
            Instruction::JMP {
                condition: jump_condition_of(field_of(w, 10, 12) as u8),
                offset: Offset(signed_of(field_of(w, 0, 9), 10) as i16),
            },
        ),
        InstructionFlavor::TWO => match two_opcode_of(field_of(w, 12, 15) as u8) {
            Some(opcode) => Ok(
                Instruction::TWO {
                    opcode,
                    src: operand_of(field_of(w, 8, 11), field_of(w, 4, 5)),
                    b: Bbit(field_of(w, 6, 6) == 1),
                    dest: operand_of(field_of(w, 0, 3), field_of(w, 7, 7)),
                },
            ),
            None => Err(CoreError::UnknownOpcode),
        },
    }
}

proof fn lemma_field_bounds(w: u16)
    ensures
        field_of(w, 0, 3) < 16,
        field_of(w, 4, 5) < 4,
        field_of(w, 6, 6) < 2,
        field_of(w, 7, 7) < 2,
        field_of(w, 7, 9) < 8,
        field_of(w, 8, 11) < 16,
        field_of(w, 10, 12) < 8,
        field_of(w, 12, 15) < 16,
        field_of(w, 0, 9) < 1024,
{
    assert((w >> 0u16) & (0xffffu16 >> 12u16) < 16) by (bit_vector);
    assert((w >> 4u16) & (0xffffu16 >> 14u16) < 4) by (bit_vector);
    assert((w >> 6u16) & (0xffffu16 >> 15u16) < 2) by (bit_vector);
    assert((w >> 7u16) & (0xffffu16 >> 15u16) < 2) by (bit_vector);
    assert((w >> 7u16) & (0xffffu16 >> 13u16) < 8) by (bit_vector);
    assert((w >> 8u16) & (0xffffu16 >> 12u16) < 16) by (bit_vector);
    assert((w >> 10u16) & (0xffffu16 >> 13u16) < 8) by (bit_vector);
    assert((w >> 12u16) & (0xffffu16 >> 12u16) < 16) by (bit_vector);
    assert((w >> 0u16) & (0xffffu16 >> 6u16) < 1024) by (bit_vector);
}

/// Classifies a word into one of the three instruction shapes.
pub fn get_flavor(word: Word) -> (r: InstructionFlavor)
    ensures
        r == flavor_of(word.unsigned()),
{
    let w = word.get_unsigned();
    if load_field(w, 10, 15) == 4 {
        InstructionFlavor::ONE
    } else if load_field(w, 13, 15) == 1 {
        InstructionFlavor::JMP
    } else {
        InstructionFlavor::TWO
    }
}

/// Decodes one instruction word.
pub fn decode_instruction(word: Word) -> (r: Result<Instruction, CoreError>)
    ensures
        r == decoded(word.unsigned()),
{
    let flavor = get_flavor(word);
    let w = word.get_unsigned();
    proof {
        lemma_field_bounds(w);
    }
    match flavor {
        InstructionFlavor::ONE => {
            let opcode = match one_opcode(load_field(w, 7, 9) as u8) {
                Some(op) => op,
                None => return Err(CoreError::UnknownOpcode),
            };
            let b = Bbit(load_field(w, 6, 6) == 1);
            let dest = load_field(w, 0, 3) as u8;
            let dam = address_mode(dest, load_field(w, 4, 5) as u8);
            Ok(Instruction::new_one(opcode, b, dam, dest))
        },
        InstructionFlavor::TWO => {
            let opcode = match two_opcode(load_field(w, 12, 15) as u8) {
                Some(op) => op,
                None => return Err(CoreError::UnknownOpcode),
            };
            let src = load_field(w, 8, 11) as u8;
            let b = Bbit(load_field(w, 6, 6) == 1);
            let dest = load_field(w, 0, 3) as u8;
            let sam = address_mode(src, load_field(w, 4, 5) as u8);
            let dam = address_mode(dest, load_field(w, 7, 7) as u8);
            Ok(Instruction::new_two(opcode, b, sam, src, dam, dest))
        },
        InstructionFlavor::JMP => {
            let condition = jump_condition(load_field(w, 10, 12) as u8);
            let offset = Offset(load_signed_field(w, 0, 9));
            Ok(Instruction::JMP { condition, offset })
        },
    }
}

impl Instruction {
    /// A single-operand instruction whose destination has a zeroed scratch slot.
    pub fn new_one(opcode: OneOpcode, b: Bbit, dam: AddressMode, dest_num: u8) -> (r: Instruction)
        ensures
            r == (Instruction::ONE {
                opcode,
                b,
                dest: RegisterArg { reg_num: dest_num, am: dam, value: 0 },
            }),
    {
        Instruction::ONE { opcode, b, dest: RegisterArg { reg_num: dest_num, am: dam, value: 0 } }
    }

    /// A double-operand instruction whose operands have zeroed scratch slots.
    pub fn new_two(
        opcode: TwoOpcode,
        b: Bbit,
        sam: AddressMode,
        src_num: u8,
        dam: AddressMode,
        dest_num: u8,
    ) -> (r: Instruction)
        ensures
            r == (Instruction::TWO {
                opcode,
                src: RegisterArg { reg_num: src_num, am: sam, value: 0 },
                b,
                dest: RegisterArg { reg_num: dest_num, am: dam, value: 0 },
            }),
    {
        Instruction::TWO {
            opcode,
            src: RegisterArg { reg_num: src_num, am: sam, value: 0 },
            b,
            dest: RegisterArg { reg_num: dest_num, am: dam, value: 0 },
        }
    }
}

/// The word that encodes a single-operand instruction: opcode code, width flag,
/// mode code and register number.
pub open spec fn encode_one(opcode: OneOpcode, b: bool, code: u16, reg: u16) -> u16 {
    0x1000u16 | ((one_opcode_code(opcode) as u16) << 7u16) | ((if b { 1u16 } else { 0u16 })
        << 6u16) | (code << 4u16) | reg
}

/// The word that encodes a jump instruction with a displacement that fits in 10 bits.
pub open spec fn encode_jump(condition: JmpCondition, offset: i16) -> u16 {
    0x2000u16 | ((jump_condition_code(condition) as u16) << 10u16) | ((offset as u16) & 0x3ffu16)
}

/// The word that encodes a double-operand instruction.
pub open spec fn encode_two(
    opcode: TwoOpcode,
    src: u16,
    src_code: u16,
    b: bool,
    dest_code: u16,
    dest: u16,
) -> u16 {
    ((two_opcode_code(opcode) as u16) << 12u16) | (src << 8u16) | (dest_code << 7u16) | ((if b {
        1u16
    } else {
        0u16
    }) << 6u16) | (src_code << 4u16) | dest
}

/// Every word falls in exactly one of the three shapes: single-operand when
/// bits 10..=15 are `000100`, jump when bits 13..=15 are `100` and the first
/// pattern does not hold, double-operand otherwise. The two patterns never
/// hold together.
pub proof fn lemma_flavor_partition(w: u16)
    ensures
        (flavor_of(w) == InstructionFlavor::ONE) == (field_of(w, 10, 15) == 4),
        (flavor_of(w) == InstructionFlavor::JMP) == (field_of(w, 10, 15) != 4 && field_of(
            w,
            13,
            15,
        ) == 1),
        (flavor_of(w) == InstructionFlavor::TWO) == (field_of(w, 10, 15) != 4 && field_of(
            w,
            13,
            15,
        ) != 1),
        field_of(w, 10, 15) == 4 ==> field_of(w, 13, 15) != 1,
{
    assert((w >> 10u16) & (0xffffu16 >> 10u16) == 4u16 ==> (w >> 13u16) & (0xffffu16 >> 13u16)
        != 1u16) by (bit_vector);
}

/// Decoding the encoding of a single-operand instruction gives back its opcode,
/// width flag, register and the mode that the code means on that register.
pub proof fn lemma_round_trip_one(opcode: OneOpcode, b: bool, code: u16, reg: u16)
    requires
        code < 4,
        reg < 16,
    ensures
        decoded(encode_one(opcode, b, code, reg)) == Ok::<Instruction, CoreError>(
            Instruction::ONE { opcode, b: Bbit(b), dest: operand_of(reg, code) },
        ),
{
    let w = encode_one(opcode, b, code, reg);
    let op = one_opcode_code(opcode) as u16;
    let bb: u16 = if b { 1u16 } else { 0u16 };
    assert(op < 7);
    assert(bb < 2);
    assert(w == 0x1000u16 | (op << 7u16) | (bb << 6u16) | (code << 4u16) | reg);
    assert(field_of(w, 10, 15) == 4 && field_of(w, 7, 9) == op && field_of(w, 6, 6) == bb
        && field_of(w, 4, 5) == code && field_of(w, 0, 3) == reg) by (bit_vector)
        requires
            w == 0x1000u16 | (op << 7u16) | (bb << 6u16) | (code << 4u16) | reg,
            op < 7,
            bb < 2,
            code < 4,
            reg < 16,
    ;
}

/// Decoding the encoding of a jump gives back its condition and displacement.
pub proof fn lemma_round_trip_jump(condition: JmpCondition, offset: i16)
    requires
        -512 <= offset < 512,
    ensures
        decoded(encode_jump(condition, offset)) == Ok::<Instruction, CoreError>(
            Instruction::JMP { condition, offset: Offset(offset) },
        ),
{
    let w = encode_jump(condition, offset);
    let c = jump_condition_code(condition) as u16;
    assert(c < 8);
    let f = field_of(w, 0, 9);
    assert(field_of(w, 10, 15) != 4 && field_of(w, 13, 15) == 1 && field_of(w, 10, 12) == c
        && f == (offset as u16) & 0x3ffu16) by (bit_vector)
        requires
            w == 0x2000u16 | (c << 10u16) | ((offset as u16) & 0x3ffu16),
            c < 8,
            f == field_of(w, 0, 9),
    ;
    lemma2_to64();
    assert(offset >= 0 ==> (offset as u16) & 0x3ffu16 == offset as u16) by (bit_vector)
        requires
            -512 <= offset < 512,
    ;
    assert(offset < 0 ==> (offset as u16) & 0x3ffu16 == (offset + 1024) as u16) by (bit_vector)
        requires
            -512 <= offset < 512,
    ;
}

/// Decoding the encoding of a double-operand instruction gives back its opcode,
/// width flag, both registers and the modes that their codes mean on them.
pub proof fn lemma_round_trip_two(
    opcode: TwoOpcode,
    src: u16,
    src_code: u16,
    b: bool,
    dest_code: u16,
    dest: u16,
)
    requires
        src < 16,
        src_code < 4,
        dest_code < 2,
        dest < 16,
    ensures
        decoded(encode_two(opcode, src, src_code, b, dest_code, dest)) == Ok::<
            Instruction,
            CoreError,
        >(
            Instruction::TWO {
                opcode,
                src: operand_of(src, src_code),
                b: Bbit(b),
                dest: operand_of(dest, dest_code),
            },
        ),
{
    let w = encode_two(opcode, src, src_code, b, dest_code, dest);
    let op = two_opcode_code(opcode) as u16;
    let bb: u16 = if b { 1u16 } else { 0u16 };
    assert(4 <= op < 16);
    assert(bb < 2);
    assert(field_of(w, 10, 15) != 4 && field_of(w, 13, 15) != 1 && field_of(w, 12, 15) == op
        && field_of(w, 8, 11) == src && field_of(w, 7, 7) == dest_code && field_of(w, 6, 6) == bb
        && field_of(w, 4, 5) == src_code && field_of(w, 0, 3) == dest) by (bit_vector)
        requires
            w == (op << 12u16) | (src << 8u16) | (dest_code << 7u16) | (bb << 6u16) | (src_code
                << 4u16) | dest,
            4 <= op < 16,
            bb < 2,
            src < 16,
            src_code < 4,
            dest_code < 2,
            dest < 16,
    ;
}

/// A decoded operand on the zero register always carries one of its constant
/// modes, and one on the status register one of the status-register modes,
/// whatever the raw mode code.
pub proof fn lemma_decoded_constant_generators(w: u16)
    ensures
        match decoded(w) {
            Ok(Instruction::ONE { dest, .. }) => mode_in_alphabet(dest),
            Ok(Instruction::TWO { src, dest, .. }) => mode_in_alphabet(src) && mode_in_alphabet(
                dest,
            ),
            _ => true,
        },
{
}

/// The mode of an operand on the zero register is a constant mode, and that of
/// an operand on the status register is one of its own four.
pub open spec fn mode_in_alphabet(arg: RegisterArg) -> bool {
    &&& arg.reg_num == crate::globals::ZR ==> (arg.am == AddressMode::Const0 || arg.am
        == AddressMode::Const1 || arg.am == AddressMode::Const2 || arg.am
        == AddressMode::ConstNeg1)
    &&& arg.reg_num == crate::globals::SR ==> (arg.am == AddressMode::Direct || arg.am
        == AddressMode::AbsoluteAddressing || arg.am == AddressMode::Const4 || arg.am
        == AddressMode::Const8)
}

} // verus!
