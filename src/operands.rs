use vstd::prelude::*;
use crate::emu_logic::{get_next_word, get_word_at, Ctx};
use crate::globals::{Address, AddressMode, CoreError, RegisterArg, RegisterFlavor, PC, SP, ZR};

verus! {

/// What a register advances by under auto-increment: a word (two bytes) for the
/// program counter and the stack pointer, nothing for the zero register, one
/// for every other register.
pub open spec fn increment_step(n: u8) -> u64 {
    if n == PC || n == SP {
        2
    } else if n == ZR {
        0
    } else {
        1
    }
}

/// The literal that a constant-generator mode stands for.
pub open spec fn constant_value(am: AddressMode) -> Option<i64> {
    match am {
        AddressMode::Const0 => Some(0i64),
        AddressMode::Const1 => Some(1),
        AddressMode::Const2 => Some(2),
        AddressMode::Const4 => Some(4),
        AddressMode::Const8 => Some(8),
        AddressMode::ConstNeg1 => Some(-1i64),
        _ => None,
    }
}

/// Whether resolving a source with mode `am` on register `n` takes a word from
/// the instruction stream.
pub open spec fn source_fetches(am: AddressMode, n: u8) -> bool {
    ||| am == AddressMode::Indexed
    ||| am == AddressMode::AbsoluteAddressing
    ||| ((am == AddressMode::Indirect || am == AddressMode::IndirectIncrement) && n == PC)
}

/// Whether resolving a source with mode `am` on register `n` reads memory.
pub open spec fn source_reads(am: AddressMode, n: u8) -> bool {
    ||| am == AddressMode::Indexed
    ||| am == AddressMode::AbsoluteAddressing
    ||| ((am == AddressMode::Indirect || am == AddressMode::IndirectIncrement) && n != PC)
}

/// Whether resolving a destination with mode `am` takes a word from the instruction stream.
pub open spec fn dest_fetches(am: AddressMode) -> bool {
    am == AddressMode::Indexed || am == AddressMode::AbsoluteAddressing
}

/// The address `base + offset`, in the 64-bit address space.
pub open spec fn index_address_of(base: u64, offset: i16) -> u64 {
    ((base as int + offset as int) % 0x1_0000_0000_0000_0000) as u64
}

/// Whether `r` is a 16-bit word read as an unsigned number.
pub open spec fn is_word(r: i64) -> bool {
    0 <= r <= 0xffff
}

/// The registers after the stream fetch that resolves a `@PC`-style operand.
pub open spec fn after_fetch(c0: Ctx) -> Seq<u64> {
    c0.regs().update(PC as int, (c0.regs()[PC as int] + 2) as u64)
}

/// The word that an indirect source reads: the next stream word when the
/// register is the program counter, else memory at the register's value. `regs`
/// are the registers after that read.
pub open spec fn indirect_read<F: Fn(u64) -> u16, G: Fn(u64) -> u16>(
    c0: Ctx,
    n: u8,
    fetch: F,
    read: G,
    regs: Seq<u64>,
    r: i64,
) -> bool {
    &&& is_word(r)
    &&& if n == PC {
        fetch.ensures((c0.regs()[PC as int],), r as u16) && regs == after_fetch(c0)
    } else {
        read.ensures((c0.regs()[n as int],), r as u16) && regs == c0.regs()
    }
}

/// What resolving source operand `arg` in context `c0` may yield: the value
/// `r` and the context `c1` after it, given what `fetch` returned for the
/// stream word at the program counter and `read` for memory words.
pub open spec fn source_outcome<F: Fn(u64) -> u16, G: Fn(u64) -> u16>(
    c0: Ctx,
    arg: RegisterArg,
    fetch: F,
    read: G,
    c1: Ctx,
    r: i64,
) -> bool {
    let n = arg.reg_num;
    &&& c1.wf()
    &&& match arg.am {
        AddressMode::Direct => r == c0.regs()[n as int] as i64 && c1.regs() == c0.regs(),
        AddressMode::Indirect => indirect_read(c0, n, fetch, read, c1.regs(), r),
        AddressMode::IndirectIncrement => exists|mid: Seq<u64>|
            #![trigger indirect_read(c0, n, fetch, read, mid, r)]
            indirect_read(c0, n, fetch, read, mid, r) && c1.regs() == mid.update(
                n as int,
                (mid[n as int] + increment_step(n)) as u64,
            ),
        AddressMode::Indexed => exists|d: u16|
            #![trigger fetch.ensures((c0.regs()[PC as int],), d)]
            fetch.ensures((c0.regs()[PC as int],), d) && is_word(r) && read.ensures(
                (index_address_of(c0.regs()[n as int], d as i16),),
                r as u16,
            ) && c1.regs() == after_fetch(c0),
        AddressMode::AbsoluteAddressing => exists|a: u16|
            #![trigger fetch.ensures((c0.regs()[PC as int],), a)]
            fetch.ensures((c0.regs()[PC as int],), a) && is_word(r) && read.ensures((a as u64,), r as u16)
                && c1.regs() == after_fetch(c0),
        _ => r == constant_value(arg.am)->Some_0 && c1.regs() == c0.regs(),
    }
}

/// What resolving destination operand `arg` in context `c0` may yield.
pub open spec fn dest_outcome<F: Fn(u64) -> u16>(
    c0: Ctx,
    arg: RegisterArg,
    fetch: F,
    c1: Ctx,
    r: Result<(RegisterFlavor, u64), CoreError>,
) -> bool {
    let n = arg.reg_num;
    &&& c1.wf()
    &&& match arg.am {
        AddressMode::Const0 => r == Ok::<(RegisterFlavor, u64), CoreError>(
            (RegisterFlavor::RegisterNumber, ZR as u64),
        ) && c1.regs() == c0.regs(),
        AddressMode::Direct => r == Ok::<(RegisterFlavor, u64), CoreError>(
            (RegisterFlavor::RegisterNumber, n as u64),
        ) && c1.regs() == c0.regs(),
        AddressMode::Indexed => exists|d: u16|
            #![trigger fetch.ensures((c0.regs()[PC as int],), d)]
            fetch.ensures((c0.regs()[PC as int],), d) && r == Ok::<(RegisterFlavor, u64), CoreError>(
                (RegisterFlavor::Address, index_address_of(c0.regs()[n as int], d as i16)),
            ) && c1.regs() == after_fetch(c0),
        AddressMode::AbsoluteAddressing => exists|a: u16|
            #![trigger fetch.ensures((c0.regs()[PC as int],), a)]
            fetch.ensures((c0.regs()[PC as int],), a) && r == Ok::<(RegisterFlavor, u64), CoreError>(
                (RegisterFlavor::Address, a as u64),
            ) && c1.regs() == after_fetch(c0),
        _ => r == Err::<(RegisterFlavor, u64), CoreError>(CoreError::InvalidDestinationMode)
            && c1.regs() == c0.regs(),
    }
}

/// Whether resolving source `arg` in `c0` stays within the 64-bit register range.
pub open spec fn source_room(c0: Ctx, arg: RegisterArg) -> bool {
    &&& source_fetches(arg.am, arg.reg_num) ==> c0.regs()[PC as int] <= u64::MAX - 2
    &&& arg.am == AddressMode::IndirectIncrement ==> if arg.reg_num == PC {
        c0.regs()[PC as int] <= u64::MAX - 4
    } else {
        c0.regs()[arg.reg_num as int] + increment_step(arg.reg_num) <= u64::MAX
    }
}

/// `base + offset` in the 64-bit address space.
pub fn index_address(base: u64, offset: i16) -> (r: u64)
    ensures
        r == index_address_of(base, offset),
{
    base.wrapping_add_signed(offset as i64)
}

impl RegisterArg {
    /// The value of this operand used as a source. Constant modes give their
    /// literal; `Direct` the register's value; the indirect modes a word read at
    /// the register's value, or the next stream word for the program counter,
    /// `IndirectIncrement` then advancing the register; `Indexed` and
    /// `AbsoluteAddressing` take a stream word as displacement or address and
    /// read memory there.
    pub fn get_real_src<F: Fn(u64) -> u16, G: Fn(u64) -> u16>(
        &mut self,
        ctx: &mut Ctx,
        fetch: &F,
        read: &G,
    ) -> (r: i64)
        requires
            old(ctx).wf(),
            old(self).reg_num < 16,
            source_room(*old(ctx), *old(self)),
            source_fetches(old(self).am, old(self).reg_num) ==> fetch.requires(
                (old(ctx).regs()[PC as int],),
            ),
            source_reads(old(self).am, old(self).reg_num) ==> forall|a: u64|
                read.requires((a,)),
        ensures
            *final(self) == *old(self),
            source_outcome(*old(ctx), *old(self), *fetch, *read, *final(ctx), r),
    {
        let n = self.reg_num;
        match self.am {
            AddressMode::Indexed => {
                let base = ctx.get_register(n);
                let offset = get_next_word(ctx, fetch).get_signed();
                get_word_at(Address(index_address(base, offset)), read).get_unsigned() as i64
            },
            AddressMode::Direct => #[verifier::truncate] (ctx.get_register(n) as i64),
            AddressMode::Indirect => {
                if n == PC {
                    get_next_word(ctx, fetch).get_unsigned() as i64
                } else {
                    get_word_at(Address(ctx.get_register(n)), read).get_unsigned() as i64
                }
            },
            AddressMode::AbsoluteAddressing => {
                let a = get_next_word(ctx, fetch).get_unsigned();
                get_word_at(Address(a as u64), read).get_unsigned() as i64
            },
            AddressMode::Const0 => 0,
            AddressMode::Const1 => 1,
            AddressMode::Const2 => 2,
            AddressMode::Const4 => 4,
            AddressMode::Const8 => 8,
            AddressMode::ConstNeg1 => -1,
            AddressMode::IndirectIncrement => {
                let num = if n == PC {
                    get_next_word(ctx, fetch).get_unsigned() as i64
                } else {
                    get_word_at(Address(ctx.get_register(n)), read).get_unsigned() as i64
                };
                let ghost mid = ctx.regs();
                self.increment_real(ctx);
                assert(indirect_read(*old(ctx), n, *fetch, *read, mid, num));
                num
            },
        }
    }

    /// The location this operand names as a destination: a register number for
    /// `Direct` and `Const0` (the zero register, where writes vanish), a memory
    /// address for `Indexed` and `AbsoluteAddressing`, which take a stream word.
    /// Every other mode is source-only and fails.
    pub fn get_real_dest<F: Fn(u64) -> u16>(&mut self, ctx: &mut Ctx, fetch: &F) -> (r: Result<
        (RegisterFlavor, u64),
        CoreError,
    >)
        requires
            old(ctx).wf(),
            old(self).reg_num < 16,
            dest_fetches(old(self).am) ==> old(ctx).regs()[PC as int] <= u64::MAX - 2 && fetch.requires(
                (old(ctx).regs()[PC as int],),
            ),
        ensures
            *final(self) == *old(self),
            dest_outcome(*old(ctx), *old(self), *fetch, *final(ctx), r),
    {
        match self.am {
            AddressMode::Const0 => Ok((RegisterFlavor::RegisterNumber, ZR as u64)),
            AddressMode::Indexed => {
                let base = ctx.get_register(self.reg_num);
                let offset = get_next_word(ctx, fetch).get_signed();
                Ok((RegisterFlavor::Address, index_address(base, offset)))
            },
            AddressMode::AbsoluteAddressing => {
                let a = get_next_word(ctx, fetch).get_unsigned();
                Ok((RegisterFlavor::Address, a as u64))
            },
            AddressMode::Direct => Ok((RegisterFlavor::RegisterNumber, self.reg_num as u64)),
            _ => Err(CoreError::InvalidDestinationMode),
        }
    }

    /// Advances this operand's register by its increment step.
    pub fn increment_real(&self, ctx: &mut Ctx)
        requires
            old(ctx).wf(),
            self.reg_num < 16,
            old(ctx).regs()[self.reg_num as int] + increment_step(self.reg_num) <= u64::MAX,
        ensures
            final(ctx).wf(),
            final(ctx).regs() == old(ctx).regs().update(
                self.reg_num as int,
                (old(ctx).regs()[self.reg_num as int] + increment_step(self.reg_num)) as u64,
            ),
    {
        match self.reg_num {
            0 => ctx.pc.increment(),
            1 => ctx.sp.increment(),
            2 => ctx.sr.increment(),
            3 => {},
            4 => ctx.r4.increment(),
            5 => ctx.r5.increment(),
            6 => ctx.r6.increment(),
            7 => ctx.r7.increment(),
            8 => ctx.r8.increment(),
            9 => ctx.r9.increment(),
            10 => ctx.r10.increment(),
            11 => ctx.r11.increment(),
            12 => ctx.r12.increment(),
            13 => ctx.r13.increment(),
            14 => ctx.r14.increment(),
            _ => ctx.r15.increment(),
        }
        assert(ctx.regs() =~= old(ctx).regs().update(
            self.reg_num as int,
            (old(ctx).regs()[self.reg_num as int] + increment_step(self.reg_num)) as u64,
        ));
    }
}

/// A constant-generator source yields its literal and leaves every register as
/// it was: it takes no stream word and reads no memory, so `get_real_src`
/// asks nothing of `fetch` or `read` for it.
pub proof fn lemma_constant_source<F: Fn(u64) -> u16, G: Fn(u64) -> u16>(
    c0: Ctx,
    arg: RegisterArg,
    fetch: F,
    read: G,
    c1: Ctx,
    r: i64,
)
    requires
        source_outcome(c0, arg, fetch, read, c1, r),
        constant_value(arg.am) is Some,
    ensures
        r == constant_value(arg.am)->Some_0,
        c1.regs() == c0.regs(),
        !source_fetches(arg.am, arg.reg_num),
        !source_reads(arg.am, arg.reg_num),
{
}

/// An auto-increment source on a register other than the program counter
/// yields the word in memory at the register's value from before the
/// increment, and then the register, and it alone, has advanced by its
/// increment step: exactly 1 for the status register and the general registers.
pub proof fn lemma_indirect_increment_source<F: Fn(u64) -> u16, G: Fn(u64) -> u16>(
    c0: Ctx,
    arg: RegisterArg,
    fetch: F,
    read: G,
    c1: Ctx,
    r: i64,
)
    requires
        c0.wf(),
        arg.reg_num < 16,
        arg.reg_num != PC,
        arg.am == AddressMode::IndirectIncrement,
        source_room(c0, arg),
        source_outcome(c0, arg, fetch, read, c1, r),
    ensures
        is_word(r),
        read.ensures((c0.regs()[arg.reg_num as int],), r as u16),
        c1.regs() == c0.regs().update(
            arg.reg_num as int,
            (c0.regs()[arg.reg_num as int] + increment_step(arg.reg_num)) as u64,
        ),
        arg.reg_num != SP && arg.reg_num != ZR ==> c1.regs()[arg.reg_num as int] == c0.regs()[arg.reg_num as int] + 1,
{
    let n = arg.reg_num;
    let mid = choose|mid: Seq<u64>|
        #![trigger indirect_read(c0, n, fetch, read, mid, r)]
        indirect_read(c0, n, fetch, read, mid, r) && c1.regs() == mid.update(
            n as int,
            (mid[n as int] + increment_step(n)) as u64,
        );
}

/// A `@PC` source (the program counter in `Indirect` mode) takes exactly one
/// stream word, yields it as an unsigned number, steps the program counter past
/// it, and reads no memory.
pub proof fn lemma_immediate_source<F: Fn(u64) -> u16, G: Fn(u64) -> u16>(
    c0: Ctx,
    arg: RegisterArg,
    fetch: F,
    read: G,
    c1: Ctx,
    r: i64,
)
    requires
        arg.reg_num == PC,
        arg.am == AddressMode::Indirect,
        source_outcome(c0, arg, fetch, read, c1, r),
    ensures
        is_word(r),
        fetch.ensures((c0.regs()[PC as int],), r as u16),
        c1.regs() == c0.regs().update(PC as int, (c0.regs()[PC as int] + 2) as u64),
        !source_reads(arg.am, arg.reg_num),
{
}

} // verus!
