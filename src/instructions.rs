use vstd::prelude::*;
use crate::emu_logic::Ctx;
use crate::globals::{AddressMode, Bbit, CoreError, RegisterArg, RegisterFlavor, PC};
use crate::operands::{dest_outcome, source_outcome, source_reads, source_room};

verus! {

/// Whether `am` can name a destination.
pub open spec fn dest_mode_ok(am: AddressMode) -> bool {
    ||| am == AddressMode::Direct
    ||| am == AddressMode::Indexed
    ||| am == AddressMode::AbsoluteAddressing
    ||| am == AddressMode::Const0
}

/// Resolves the operands of a move: the source's value, then the destination's
/// location. A destination in a source-only mode fails before anything is
/// touched, so a failed move leaves the context as it was.
pub fn mov<F: Fn(u64) -> u16, G: Fn(u64) -> u16>(
    ctx: &mut Ctx,
    _b: Bbit,
    src: RegisterArg,
    dest: RegisterArg,
    fetch: &F,
    read: &G,
) -> (r: Result<(i64, (RegisterFlavor, u64)), CoreError>)
    requires
        old(ctx).wf(),
        src.reg_num < 16,
        dest.reg_num < 16,
        source_room(*old(ctx), src),
        old(ctx).regs()[PC as int] <= u64::MAX - 6,
        forall|a: u64| fetch.requires((a,)),
        source_reads(src.am, src.reg_num) ==> forall|a: u64| read.requires((a,)),
    ensures
        !dest_mode_ok(dest.am) ==> r == Err::<(i64, (RegisterFlavor, u64)), CoreError>(
            CoreError::InvalidDestinationMode,
        ) && *final(ctx) == *old(ctx),
        dest_mode_ok(dest.am) ==> r is Ok && exists|mid: Ctx, v: i64|
            #![trigger source_outcome(*old(ctx), src, *fetch, *read, mid, v)]
            source_outcome(*old(ctx), src, *fetch, *read, mid, v) && r->Ok_0.0 == v
                && dest_outcome(
                mid,
                dest,
                *fetch,
                *final(ctx),
                Ok::<(RegisterFlavor, u64), CoreError>(r->Ok_0.1),
            ),
{
    match dest.am {
        AddressMode::Direct | AddressMode::Indexed | AddressMode::AbsoluteAddressing
        | AddressMode::Const0 => {},
        _ => return Err(CoreError::InvalidDestinationMode),
    }
    let mut src = src;
    let mut dest = dest;
    let value = src.get_real_src(ctx, fetch, read);
    let location = dest.get_real_dest(ctx, fetch);
    match location {
        Ok(loc) => Ok((value, loc)),
        Err(e) => Err(e),
    }
}

} // verus!
