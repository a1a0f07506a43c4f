use msp_core::decoder::{decode_instruction, get_flavor};
use msp_core::globals::{
    AddressMode, Bbit, CoreError, Instruction, InstructionFlavor, JmpCondition, Offset,
    OneOpcode, RegisterArg, TwoOpcode, Word, SR, ZR,
};
use msp_core::maps::{address_mode, jump_condition, one_opcode, two_opcode};

fn arg(reg_num: u8, am: AddressMode) -> RegisterArg {
    RegisterArg { reg_num, am, value: 0 }
}

#[test]
fn classify_single_operand_pattern() {
    assert_eq!(get_flavor(Word::Unigned(0x1000)), InstructionFlavor::ONE);
    assert_eq!(get_flavor(Word::Unigned(0x13ff)), InstructionFlavor::ONE);
    assert_eq!(get_flavor(Word::Unigned(0x1234)), InstructionFlavor::ONE);
}

#[test]
fn classify_jump_pattern() {
    assert_eq!(get_flavor(Word::Unigned(0x2000)), InstructionFlavor::JMP);
    assert_eq!(get_flavor(Word::Unigned(0x3fff)), InstructionFlavor::JMP);
    assert_eq!(get_flavor(Word::Unigned(0x2434)), InstructionFlavor::JMP);
}

#[test]
fn classify_double_operand_default() {
    assert_eq!(get_flavor(Word::Unigned(0x4000)), InstructionFlavor::TWO);
    assert_eq!(get_flavor(Word::Unigned(0xffff)), InstructionFlavor::TWO);
    assert_eq!(get_flavor(Word::Unigned(0x0000)), InstructionFlavor::TWO);
    assert_eq!(get_flavor(Word::Unigned(0x1400)), InstructionFlavor::TWO);
    assert_eq!(get_flavor(Word::Unigned(0b0000010000110100)), InstructionFlavor::TWO);
}

#[test]
fn classify_partitions_every_word() {
    for w in 0..=u16::MAX {
        let one = (w >> 10) == 0b000100;
        let jmp = !one && (w >> 13) == 0b001;
        let expected = if one {
            InstructionFlavor::ONE
        } else if jmp {
            InstructionFlavor::JMP
        } else {
            InstructionFlavor::TWO
        };
        assert_eq!(get_flavor(Word::Unigned(w)), expected);
        assert_eq!(get_flavor(Word::Signed(w as i16)), expected);
    }
}

#[test]
fn decode_jump_equal_forward() {
    let r = decode_instruction(Word::Unigned(0b0010010000110100));
    assert_eq!(r, Ok(Instruction::JMP { condition: JmpCondition::JEQ, offset: Offset(52) }));
}

#[test]
fn decode_jump_negative_offset() {
    let r = decode_instruction(Word::Unigned(0x23ff));
    assert_eq!(r, Ok(Instruction::JMP { condition: JmpCondition::JNE, offset: Offset(-1) }));
    let r = decode_instruction(Word::Unigned(0x3e00));
    assert_eq!(r, Ok(Instruction::JMP { condition: JmpCondition::JMP, offset: Offset(-512) }));
    let r = decode_instruction(Word::Unigned(0x35ff));
    assert_eq!(r, Ok(Instruction::JMP { condition: JmpCondition::JGE, offset: Offset(511) }));
}

#[test]
fn decode_single_operand_fields() {
    // RRA.B @r7+ : opcode 010, width bit 6, mode 11, register 7
    let r = decode_instruction(Word::Unigned(0x1000 | (2 << 7) | (1 << 6) | (3 << 4) | 7));
    assert_eq!(
        r,
        Ok(Instruction::ONE {
            opcode: OneOpcode::RRA,
            b: Bbit(true),
            dest: arg(7, AddressMode::IndirectIncrement),
        })
    );
    let r = decode_instruction(Word::Unigned(0x1000 | (5 << 7) | (1 << 4) | 2));
    assert_eq!(
        r,
        Ok(Instruction::ONE {
            opcode: OneOpcode::CALL,
            b: Bbit(false),
            dest: arg(SR, AddressMode::AbsoluteAddressing),
        })
    );
}

#[test]
fn decode_single_operand_unknown_opcode() {
    assert_eq!(decode_instruction(Word::Unigned(0x1380)), Err(CoreError::UnknownOpcode));
}

#[test]
fn decode_double_operand_fields() {
    // MOV r5, r6
    let r = decode_instruction(Word::Unigned(0x4506));
    assert_eq!(
        r,
        Ok(Instruction::TWO {
            opcode: TwoOpcode::MOV,
            src: arg(5, AddressMode::Direct),
            b: Bbit(false),
            dest: arg(6, AddressMode::Direct),
        })
    );
    // ADD.B #-1 (zero register, code 11), 2(r9) (indexed)
    let r = decode_instruction(Word::Unigned(0x5000 | (3 << 8) | (1 << 7) | (1 << 6) | (3 << 4) | 9));
    assert_eq!(
        r,
        Ok(Instruction::TWO {
            opcode: TwoOpcode::ADD,
            src: arg(ZR, AddressMode::ConstNeg1),
            b: Bbit(true),
            dest: arg(9, AddressMode::Indexed),
        })
    );
}

#[test]
fn decode_double_operand_unknown_opcode() {
    assert_eq!(decode_instruction(Word::Unigned(0x0434)), Err(CoreError::UnknownOpcode));
    assert_eq!(decode_instruction(Word::Unigned(0x0000)), Err(CoreError::UnknownOpcode));
    assert_eq!(decode_instruction(Word::Unigned(0x1400)), Err(CoreError::UnknownOpcode));
}

#[test]
fn decode_signed_word_same_as_unsigned() {
    assert_eq!(
        decode_instruction(Word::Signed(-1)),
        decode_instruction(Word::Unigned(0xffff))
    );
}

fn one_code(op: OneOpcode) -> u16 {
    match op {
        OneOpcode::RRC => 0,
        OneOpcode::SWPB => 1,
        OneOpcode::RRA => 2,
        OneOpcode::SXT => 3,
        OneOpcode::PUSH => 4,
        OneOpcode::CALL => 5,
        OneOpcode::RETI => 6,
    }
}

#[test]
fn round_trip_single_operand() {
    for code in 0..7u8 {
        let op = one_opcode(code).unwrap();
        for b in [false, true] {
            for mode in 0..4u16 {
                for reg in 0..16u16 {
                    let w = 0x1000 | (one_code(op) << 7) | ((b as u16) << 6) | (mode << 4) | reg;
                    let expected = Instruction::ONE {
                        opcode: op,
                        b: Bbit(b),
                        dest: arg(reg as u8, address_mode(reg as u8, mode as u8)),
                    };
                    assert_eq!(decode_instruction(Word::Unigned(w)), Ok(expected));
                }
            }
        }
    }
}

#[test]
fn round_trip_double_operand() {
    for code in 4..16u8 {
        let op = two_opcode(code).unwrap();
        for src in 0..16u16 {
            for sm in 0..4u16 {
                for b in [false, true] {
                    for dm in 0..2u16 {
                        let dest = (src + 3) % 16;
                        let w = ((code as u16) << 12) | (src << 8) | (dm << 7)
                            | ((b as u16) << 6) | (sm << 4) | dest;
                        let expected = Instruction::TWO {
                            opcode: op,
                            src: arg(src as u8, address_mode(src as u8, sm as u8)),
                            b: Bbit(b),
                            dest: arg(dest as u8, address_mode(dest as u8, dm as u8)),
                        };
                        assert_eq!(decode_instruction(Word::Unigned(w)), Ok(expected));
                    }
                }
            }
        }
    }
}

#[test]
fn round_trip_jump() {
    for c in 0..8u16 {
        for off in -512i16..512 {
            let w = 0x2000 | (c << 10) | ((off as u16) & 0x3ff);
            let expected = Instruction::JMP { condition: jump_condition(c as u8), offset: Offset(off) };
            assert_eq!(decode_instruction(Word::Unigned(w)), Ok(expected));
        }
    }
}

#[test]
fn constant_generator_alphabets() {
    for code in 0..4u8 {
        let z = address_mode(ZR, code);
        assert!(matches!(
            z,
            AddressMode::Const0 | AddressMode::Const1 | AddressMode::Const2 | AddressMode::ConstNeg1
        ));
        let s = address_mode(SR, code);
        assert!(matches!(
            s,
            AddressMode::Direct | AddressMode::AbsoluteAddressing | AddressMode::Const4 | AddressMode::Const8
        ));
    }
    assert_eq!(address_mode(ZR, 0), AddressMode::Const0);
    assert_eq!(address_mode(ZR, 3), AddressMode::ConstNeg1);
    assert_eq!(address_mode(SR, 2), AddressMode::Const4);
    assert_eq!(address_mode(SR, 3), AddressMode::Const8);
    assert_eq!(address_mode(9, 1), AddressMode::Indexed);
    assert_eq!(address_mode(0, 2), AddressMode::Indirect);
}

#[test]
fn opcode_tables() {
    assert_eq!(one_opcode(4), Some(OneOpcode::PUSH));
    assert_eq!(one_opcode(7), None);
    assert_eq!(two_opcode(3), None);
    assert_eq!(two_opcode(15), Some(TwoOpcode::AND));
    assert_eq!(jump_condition(6), JmpCondition::JL);
}

#[test]
fn instruction_constructors() {
    let one = Instruction::new_one(OneOpcode::SXT, Bbit(false), AddressMode::Direct, 4);
    assert_eq!(
        one,
        Instruction::ONE { opcode: OneOpcode::SXT, b: Bbit(false), dest: arg(4, AddressMode::Direct) }
    );
    let two = Instruction::new_two(
        TwoOpcode::XOR,
        Bbit(true),
        AddressMode::Const8,
        SR,
        AddressMode::Indexed,
        12,
    );
    assert_eq!(
        two,
        Instruction::TWO {
            opcode: TwoOpcode::XOR,
            src: arg(SR, AddressMode::Const8),
            b: Bbit(true),
            dest: arg(12, AddressMode::Indexed),
        }
    );
}

#[test]
fn word_conversions() {
    assert_eq!(Word::Signed(-1).get_unsigned(), 0xffff);
    assert_eq!(Word::Unigned(0x8000).get_signed(), i16::MIN);
    assert_eq!(Word::Unigned(52).get_signed(), 52);
    assert_eq!(Word::Signed(-3).get_signed(), -3);
}
