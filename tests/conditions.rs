use msp_core::emu_logic::{
    do_jump_instruction, Ctx, StatusRegister, Statuses, STATUS_C, STATUS_N, STATUS_V, STATUS_Z,
};
use msp_core::globals::{Instruction, JmpCondition, Offset, Register, PC, SR};

fn ctx_with_status(sr: u64) -> Ctx {
    let mut ctx = Ctx::new();
    ctx.set_register(SR, sr);
    ctx
}

#[test]
fn flag_offsets() {
    assert_eq!(Statuses::C.get_offset(), 0);
    assert_eq!(Statuses::Z.get_offset(), 1);
    assert_eq!(Statuses::N.get_offset(), 2);
    assert_eq!(Statuses::GIE.get_offset(), 3);
    assert_eq!(Statuses::CPUOFF.get_offset(), 4);
    assert_eq!(Statuses::OSOFF.get_offset(), 5);
    assert_eq!(Statuses::SCGO.get_offset(), 6);
    assert_eq!(Statuses::SCGI.get_offset(), 7);
    assert_eq!(Statuses::V.get_offset(), 8);
}

#[test]
fn status_check_reads_one_bit() {
    let sr = StatusRegister(1 << STATUS_V | 1 << STATUS_Z);
    assert!(sr.check(Statuses::V));
    assert!(sr.check(Statuses::Z));
    assert!(!sr.check(Statuses::C));
    assert!(!sr.check(Statuses::N));
    assert!(StatusRegister(1 << 7).check(Statuses::SCGI));
}

#[test]
fn conditions_follow_flags() {
    for sr in 0..512u64 {
        let c = sr >> STATUS_C & 1 == 1;
        let z = sr >> STATUS_Z & 1 == 1;
        let n = sr >> STATUS_N & 1 == 1;
        let v = sr >> STATUS_V & 1 == 1;
        let mut ctx = ctx_with_status(sr);
        assert_eq!(JmpCondition::JEQ.is_true(&mut ctx), z);
        assert_eq!(JmpCondition::JNE.is_true(&mut ctx), !z);
        assert_eq!(JmpCondition::JHS.is_true(&mut ctx), c);
        assert_eq!(JmpCondition::JLO.is_true(&mut ctx), !c);
        assert_eq!(JmpCondition::JN.is_true(&mut ctx), n);
        assert_eq!(JmpCondition::JGE.is_true(&mut ctx), v == n);
        assert_eq!(JmpCondition::JL.is_true(&mut ctx), v != n);
        assert!(JmpCondition::JMP.is_true(&mut ctx));
        assert_eq!(ctx.get_register(SR), sr);
    }
}

#[test]
fn greater_or_equal_and_less_are_complements() {
    for (v, n) in [(false, false), (false, true), (true, false), (true, true)] {
        let sr = (v as u64) << STATUS_V | (n as u64) << STATUS_N;
        let mut ctx = ctx_with_status(sr);
        let ge = JmpCondition::JGE.is_true(&mut ctx);
        let lt = JmpCondition::JL.is_true(&mut ctx);
        assert_eq!(ge, v == n);
        assert_ne!(ge, lt);
        assert_eq!(ctx.check_ge(), ge);
        assert_eq!(ctx.check_l(), lt);
    }
}

#[test]
fn check_helpers() {
    let ctx = ctx_with_status(1 << STATUS_C | 1 << STATUS_N);
    assert!(ctx.check_hs());
    assert!(!ctx.check_lo());
    assert!(ctx.check_n());
    assert!(!ctx.check_eq());
    assert!(ctx.check_ne());
    assert!(!ctx.check_ge());
    assert!(ctx.check_l());
}

#[test]
fn jump_taken_moves_program_counter() {
    let mut ctx = ctx_with_status(1 << STATUS_Z);
    ctx.set_register(PC, 100);
    do_jump_instruction(&mut ctx, Instruction::JMP { condition: JmpCondition::JEQ, offset: Offset(52) });
    assert_eq!(ctx.get_register(PC), 152);
    do_jump_instruction(&mut ctx, Instruction::JMP { condition: JmpCondition::JMP, offset: Offset(-2) });
    assert_eq!(ctx.get_register(PC), 150);
}

#[test]
fn jump_not_taken_leaves_program_counter() {
    let mut ctx = ctx_with_status(0);
    ctx.set_register(PC, 100);
    do_jump_instruction(&mut ctx, Instruction::JMP { condition: JmpCondition::JEQ, offset: Offset(52) });
    assert_eq!(ctx.get_register(PC), 100);
}

#[test]
fn register_steps() {
    let mut r = Register::new(4);
    assert_eq!(r, Register { value: 0, reg_num: 4 });
    r.increment();
    assert_eq!(r.value, 1);
    let mut s = StatusRegister(5);
    s.increment();
    assert_eq!(s.0, 6);
    let mut ctx = Ctx::new();
    ctx.pc.increment();
    ctx.sp.increment();
    assert_eq!(ctx.pc.0, 2);
    assert_eq!(ctx.sp.0, 2);
}
