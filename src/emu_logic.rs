use vstd::prelude::*;
use crate::bits::{bit_at, bit_of};
use crate::globals::{Address, Instruction, JmpCondition, Offset, Register, Word, PC, SP, SR, ZR};

verus! {

/// Bit offset of the Carry flag in the status register.
pub const STATUS_C: usize = 0;

/// Bit offset of the Zero flag.
pub const STATUS_Z: usize = 1;

/// Bit offset of the Negative flag.
pub const STATUS_N: usize = 2;

/// Bit offset of the general-interrupt-enable flag.
pub const STATUS_GIE: usize = 3;

/// Bit offset of the CPU-off flag.
pub const STATUS_CPUOFF: usize = 4;

/// Bit offset of the oscillator-off flag.
pub const STATUS_OSOFF: usize = 5;

/// Bit offset of the first system-clock-generator control.
pub const STATUS_SCGO: usize = 6;

/// Bit offset of the second system-clock-generator control.
pub const STATUS_SCGI: usize = 7;

/// Bit offset of the Overflow flag.
pub const STATUS_V: usize = 8;

#[derive(Clone, Copy)]
pub struct ProgramCounter(pub u64);

#[derive(Clone, Copy)]
pub struct StackPointer(pub u64);

#[derive(Clone, Copy)]
pub struct StatusRegister(pub u64);

/// The always-zero register; its value stays 0 in a well-formed context.
#[derive(Clone, Copy)]
pub struct ZeroRegister(pub u8);

/// The register file of the processor.
pub struct Ctx {
    pub pc: ProgramCounter,
    pub sp: StackPointer,
    pub sr: StatusRegister,
    pub zr: ZeroRegister,
    pub r4: Register,
    pub r5: Register,
    pub r6: Register,
    pub r7: Register,
    pub r8: Register,
    pub r9: Register,
    pub r10: Register,
    pub r11: Register,
    pub r12: Register,
    pub r13: Register,
    pub r14: Register,
    pub r15: Register,
}

/// The status flags, each at a fixed bit of the status register.
#[derive(Clone, Copy, Debug, PartialEq, Eq, Structural)]
pub enum Statuses {
    C,
    Z,
    N,
    GIE,
    CPUOFF,
    OSOFF,
    SCGO,
    SCGI,
    V,
}

impl Statuses {
    /// The bit of the status register that holds this flag.
    pub open spec fn offset(self) -> usize {
        match self {
            Statuses::C => STATUS_C,
            Statuses::Z => STATUS_Z,
            Statuses::N => STATUS_N,
            Statuses::GIE => STATUS_GIE,
            Statuses::CPUOFF => STATUS_CPUOFF,
            Statuses::OSOFF => STATUS_OSOFF,
            Statuses::SCGO => STATUS_SCGO,
            Statuses::SCGI => STATUS_SCGI,
            Statuses::V => STATUS_V,
        }
    }

    pub fn get_offset(&self) -> (r: usize)
        ensures
            r == self.offset(),
            r < 9,
    {
        match self {
            Statuses::C => STATUS_C,
            Statuses::Z => STATUS_Z,
            Statuses::N => STATUS_N,
            Statuses::GIE => STATUS_GIE,
            Statuses::CPUOFF => STATUS_CPUOFF,
            Statuses::OSOFF => STATUS_OSOFF,
            Statuses::SCGO => STATUS_SCGO,
            Statuses::SCGI => STATUS_SCGI,
            Statuses::V => STATUS_V,
        }
    }
}

/// Whether `flag` is set in status word `sr`.
pub open spec fn flag_set(sr: u64, flag: Statuses) -> bool {
    bit_of(sr, flag.offset() as u64)
}

/// Whether a jump under `condition` is taken with status word `sr`.
pub open spec fn condition_holds(condition: JmpCondition, sr: u64) -> bool {
    match condition {
        JmpCondition::JEQ => flag_set(sr, Statuses::Z),
        JmpCondition::JNE => !flag_set(sr, Statuses::Z),
        JmpCondition::JHS => flag_set(sr, Statuses::C),
        JmpCondition::JLO => !flag_set(sr, Statuses::C),
        JmpCondition::JN => flag_set(sr, Statuses::N),
        JmpCondition::JGE => flag_set(sr, Statuses::V) == flag_set(sr, Statuses::N),
        JmpCondition::JL => flag_set(sr, Statuses::V) != flag_set(sr, Statuses::N),
        JmpCondition::JMP => true,
    }
}

/// "Greater or equal" holds exactly when Overflow equals Negative, "less than"
/// exactly when they differ, so each is the negation of the other.
pub proof fn lemma_ge_lt_complement(sr: u64)
    ensures
        condition_holds(JmpCondition::JGE, sr) == (flag_set(sr, Statuses::V) == flag_set(
            sr,
            Statuses::N,
        )),
        condition_holds(JmpCondition::JL, sr) == (flag_set(sr, Statuses::V) != flag_set(
            sr,
            Statuses::N,
        )),
        condition_holds(JmpCondition::JL, sr) == !condition_holds(JmpCondition::JGE, sr),
{
}

impl StatusRegister {
    /// Reads one flag.
    pub fn check(&self, status: Statuses) -> (r: bool)
        ensures
            r == flag_set(self.0, status),
    {
        bit_at(self.0, status.get_offset())
    }

    /// Adds one to the status word.
    pub fn increment(&mut self)
        requires
            old(self).0 < u64::MAX,
        ensures
            final(self).0 == old(self).0 + 1,
    {
        self.0 = self.0 + 1;
    }
}

impl ProgramCounter {
    /// Steps the program counter by one word (two bytes).
    pub fn increment(&mut self)
        requires
            old(self).0 <= u64::MAX - 2,
        ensures
            final(self).0 == old(self).0 + 2,
    {
        self.0 = self.0 + 2;
    }
}

impl StackPointer {
    /// Steps the stack pointer by one word (two bytes).
    pub fn increment(&mut self)
        requires
            old(self).0 <= u64::MAX - 2,
        ensures
            final(self).0 == old(self).0 + 2,
    {
        self.0 = self.0 + 2;
    }
}

impl Register {
    /// A register with the given number and value 0.
    pub fn new(num: u8) -> (r: Register)
        ensures
            r == (Register { value: 0, reg_num: num }),
    {
        Register { value: 0, reg_num: num }
    }

    /// Adds one to the register's value.
    pub fn increment(&mut self)
        requires
            old(self).value < u64::MAX,
        ensures
            final(self).value == old(self).value + 1,
            final(self).reg_num == old(self).reg_num,
    {
        self.value = self.value + 1;
    }
}

impl Ctx {
    /// The general registers carry their own numbers, and the zero register holds 0.
    pub open spec fn wf(&self) -> bool {
        &&& self.zr.0 == 0
        &&& self.r4.reg_num == 4
        &&& self.r5.reg_num == 5
        &&& self.r6.reg_num == 6
        &&& self.r7.reg_num == 7
        &&& self.r8.reg_num == 8
        &&& self.r9.reg_num == 9
        &&& self.r10.reg_num == 10
        &&& self.r11.reg_num == 11
        &&& self.r12.reg_num == 12
        &&& self.r13.reg_num == 13
        &&& self.r14.reg_num == 14
        &&& self.r15.reg_num == 15
    }

    /// The value stored in register `n`.
    pub open spec fn reg(&self, n: u8) -> u64 {
        if n == PC {
            self.pc.0
        } else if n == SP {
            self.sp.0
        } else if n == SR {
            self.sr.0
        } else if n == ZR {
            self.zr.0 as u64
        } else if n == 4 {
            self.r4.value
        } else if n == 5 {
            self.r5.value
        } else if n == 6 {
            self.r6.value
        } else if n == 7 {
            self.r7.value
        } else if n == 8 {
            self.r8.value
        } else if n == 9 {
            self.r9.value
        } else if n == 10 {
            self.r10.value
        } else if n == 11 {
            self.r11.value
        } else if n == 12 {
            self.r12.value
        } else if n == 13 {
            self.r13.value
        } else if n == 14 {
            self.r14.value
        } else {
            self.r15.value
        }
    }

    /// The values of the sixteen registers, by number.
    pub open spec fn regs(&self) -> Seq<u64> {
        Seq::new(16, |i: int| self.reg(i as u8))
    }

    /// A context with every register at 0.
    pub fn new() -> (r: Ctx)
        ensures
            r.wf(),
            r.regs() == Seq::new(16, |i: int| 0u64),
    {
        let r = Ctx {
            pc: ProgramCounter(0),
            sp: StackPointer(0),
            sr: StatusRegister(0),
            zr: ZeroRegister(0),
            r4: Register::new(4),
            r5: Register::new(5),
            r6: Register::new(6),
            r7: Register::new(7),
            r8: Register::new(8),
            r9: Register::new(9),
            r10: Register::new(10),
            r11: Register::new(11),
            r12: Register::new(12),
            r13: Register::new(13),
            r14: Register::new(14),
            r15: Register::new(15),
        };
        assert(r.regs() =~= Seq::new(16, |i: int| 0u64));
        r
    }

    /// The value stored in register `num`.
    pub fn get_register(&self, num: u8) -> (r: u64)
        requires
            num < 16,
        ensures
            r == self.regs()[num as int],
    {
        match num {
            0 => self.pc.0,
            1 => self.sp.0,
            2 => self.sr.0,
            3 => self.zr.0 as u64,
            4 => self.r4.value,
            5 => self.r5.value,
            6 => self.r6.value,
            7 => self.r7.value,
            8 => self.r8.value,
            9 => self.r9.value,
            10 => self.r10.value,
            11 => self.r11.value,
            12 => self.r12.value,
            13 => self.r13.value,
            14 => self.r14.value,
            _ => self.r15.value,
        }
    }

    /// Stores `value` in register `num`; a write to the zero register is discarded.
    pub fn set_register(&mut self, num: u8, value: u64)
        requires
            old(self).wf(),
            num < 16,
        ensures
            final(self).wf(),
            final(self).regs() == if num == ZR {
                old(self).regs()
            } else {
                old(self).regs().update(num as int, value)
            },
    {
        match num {
            0 => self.pc.0 = value,
            1 => self.sp.0 = value,
            2 => self.sr.0 = value,
            3 => {},
            4 => self.r4.value = value,
            5 => self.r5.value = value,
            6 => self.r6.value = value,
            7 => self.r7.value = value,
            8 => self.r8.value = value,
            9 => self.r9.value = value,
            10 => self.r10.value = value,
            11 => self.r11.value = value,
            12 => self.r12.value = value,
            13 => self.r13.value = value,
            14 => self.r14.value = value,
            _ => self.r15.value = value,
        }
        if num == ZR {
            assert(self.regs() =~= old(self).regs());
        } else {
            assert(self.regs() =~= old(self).regs().update(num as int, value));
        }
    }

    /// Whether the Zero flag is set.
    pub fn check_eq(&self) -> (r: bool)
        ensures
            r == flag_set(self.sr.0, Statuses::Z),
    {
        self.sr.check(Statuses::Z)
    }

    /// Whether Overflow equals Negative.
    pub fn check_ge(&self) -> (r: bool)
        ensures
            r == (flag_set(self.sr.0, Statuses::V) == flag_set(self.sr.0, Statuses::N)),
    {
        self.sr.check(Statuses::V) == self.sr.check(Statuses::N)
    }

    /// Whether the Carry flag is set.
    pub fn check_hs(&self) -> (r: bool)
        ensures
            r == flag_set(self.sr.0, Statuses::C),
    {
        self.sr.check(Statuses::C)
    }

    /// Whether Negative differs from Overflow.
    pub fn check_l(&self) -> (r: bool)
        ensures
            r == (flag_set(self.sr.0, Statuses::N) != flag_set(self.sr.0, Statuses::V)),
    {
        self.sr.check(Statuses::N) != self.sr.check(Statuses::V)
    }

    /// Whether the Carry flag is clear.
    pub fn check_lo(&self) -> (r: bool)
        ensures
            r == !flag_set(self.sr.0, Statuses::C),
    {
        !self.sr.check(Statuses::C)
    }

    /// Whether the Negative flag is set.
    pub fn check_n(&self) -> (r: bool)
        ensures
            r == flag_set(self.sr.0, Statuses::N),
    {
        self.sr.check(Statuses::N)
    }

    /// Whether the Zero flag is clear.
    pub fn check_ne(&self) -> (r: bool)
        ensures
            r == !flag_set(self.sr.0, Statuses::Z),
    {
        !self.sr.check(Statuses::Z)
    }
}

impl JmpCondition {
    /// Evaluates the condition against the status register; the context is left as it was.
    pub fn is_true(&self, ctx: &mut Ctx) -> (r: bool)
        ensures
            *final(ctx) == *old(ctx),
            r == condition_holds(*self, old(ctx).regs()[SR as int]),
    {
        match *self {
            JmpCondition::JEQ => ctx.check_eq(),
            JmpCondition::JGE => ctx.check_ge(),
            JmpCondition::JHS => ctx.check_hs(),
            JmpCondition::JL => ctx.check_l(),
            JmpCondition::JLO => ctx.check_lo(),
            JmpCondition::JMP => true,
            JmpCondition::JN => ctx.check_n(),
            JmpCondition::JNE => ctx.check_ne(),
        }
    }
}

/// The program counter moved by a signed displacement.
pub open spec fn jump_target(pc: u64, offset: Offset) -> int {
    pc as int + offset.0 as int
}

fn relative_jump(ctx: &mut Ctx, offset: Offset)
    requires
        old(ctx).wf(),
        0 <= jump_target(old(ctx).regs()[PC as int], offset) <= u64::MAX,
    ensures
        final(ctx).wf(),
        final(ctx).regs() == old(ctx).regs().update(
            PC as int,
            jump_target(old(ctx).regs()[PC as int], offset) as u64,
        ),
{
    let target: u64 = if offset.0 >= 0 {
        ctx.pc.0 + offset.0 as u64
    } else {
        ctx.pc.0 - (-(offset.0 as i64)) as u64
    };
    ctx.set_register(PC, target);
}

/// Carries out a jump instruction: when its condition holds, the program counter
/// moves by the instruction's displacement; otherwise nothing changes.
pub fn do_jump_instruction(ctx: &mut Ctx, instruction: Instruction)
    requires
        old(ctx).wf(),
        instruction is JMP,
        condition_holds(instruction->condition, old(ctx).regs()[SR as int]) ==> 0 <= jump_target(
            old(ctx).regs()[PC as int],
            instruction->offset,
        ) <= u64::MAX,
    ensures
        final(ctx).wf(),
        final(ctx).regs() == if condition_holds(instruction->condition, old(ctx).regs()[SR as int]) {
            old(ctx).regs().update(
                PC as int,
                jump_target(old(ctx).regs()[PC as int], instruction->offset) as u64,
            )
        } else {
            old(ctx).regs()
        },
{
    match instruction {
        Instruction::JMP { condition, offset } => {
            if condition.is_true(ctx) {
                relative_jump(ctx, offset);
            }
        },
        _ => {},
    }
}

/// Fetches the word at the program counter through `fetch` and steps the
/// program counter past it.
pub fn get_next_word<F: Fn(u64) -> u16>(ctx: &mut Ctx, fetch: &F) -> (w: Word)
    requires
        old(ctx).wf(),
        old(ctx).regs()[PC as int] <= u64::MAX - 2,
        fetch.requires((old(ctx).regs()[PC as int],)),
    ensures
        final(ctx).wf(),
        final(ctx).regs() == old(ctx).regs().update(PC as int, (old(ctx).regs()[PC as int] + 2) as u64),
        w == Word::Unigned(w.unsigned()),
        fetch.ensures((old(ctx).regs()[PC as int],), w.unsigned()),
{
    let w = fetch(ctx.pc.0);
    let next = ctx.pc.0 + 2;
    ctx.set_register(PC, next);
    Word::Unigned(w)
}

/// Reads the word at `address` through `read`.
pub fn get_word_at<G: Fn(u64) -> u16>(address: Address, read: &G) -> (w: Word)
    requires
        read.requires((address.0,)),
    ensures
        w == Word::Unigned(w.unsigned()),
        read.ensures((address.0,), w.unsigned()),
{
    Word::Unigned(read(address.0))
}

} // verus!
