use vstd::prelude::*;
use vstd::arithmetic::power2::pow2;
use bitvec::field::BitField;
use bitvec::order::Lsb0;
use bitvec::view::BitView;

verus! {

/// Bits `lo..=hi` of `w`, counted from the least significant bit, as an unsigned number.
pub open spec fn field_of(w: u16, lo: u16, hi: u16) -> u16 {
    (w >> lo) & (0xffffu16 >> ((15 - (hi - lo)) as u16))
}

/// Bit `i` of `w`, counted from the least significant bit.
pub open spec fn bit_of(w: u64, i: u64) -> bool {
    (w >> i) & 1u64 == 1u64
}

/// Relies on bitvec's `BitField::load::<u16>` over an `Lsb0` view of a `u16`:
/// the bits `lo..=hi` read back as an unsigned number, lowest bit first.
#[verifier::external_body]
pub(crate) fn load_field(w: u16, lo: usize, hi: usize) -> (r: u16)
    requires
        lo <= hi < 16,
    ensures
        r == field_of(w, lo as u16, hi as u16),
{
    w.view_bits::<Lsb0>()[lo..=hi].load::<u16>()
}

/// Relies on bitvec's indexing of an `Lsb0` view of a `u64`: bit `i` of the word.
#[verifier::external_body]
pub(crate) fn bit_at(w: u64, i: usize) -> (r: bool)
    requires
        i < 64,
    ensures
        r == bit_of(w, i as u64),
{
    w.view_bits::<Lsb0>()[i]
}

/// A `width`-bit field read as a two's-complement number.
pub open spec fn signed_of(f: u16, width: nat) -> int {
    if f as int >= pow2((width - 1) as nat) {
        f as int - pow2(width)
    } else {
        f as int
    }
}

/// Relies on bitvec's `BitField::load::<i16>` over an `Lsb0` view of a `u16`:
/// the bits `lo..=hi` read back lowest bit first, then sign-extended from bit `hi`.
#[verifier::external_body]
pub(crate) fn load_signed_field(w: u16, lo: usize, hi: usize) -> (r: i16)
    requires
        lo <= hi < 16,
    ensures
        r as int == signed_of(field_of(w, lo as u16, hi as u16), (hi - lo + 1) as nat),
{
    w.view_bits::<Lsb0>()[lo..=hi].load::<i16>()
}

} // verus!
