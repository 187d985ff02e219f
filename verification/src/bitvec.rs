//! Trusted interface to `bit_vec::BitVec`, the bitmap that marks the
//! occupied slots of a pool.

use vstd::prelude::*;
use bit_vec::BitVec;

verus! {

/// `bit_vec::BitVec` is opaque to the verifier; its contents are modelled by
/// `bitvec_bits`.
#[verifier::external_type_specification]
#[verifier::external_body]
#[verifier::reject_recursive_types(B)]
pub struct ExBitVec<B>(BitVec<B>);

/// The sequence of bits held by a bit vector, bit `i` at position `i`.
pub uninterp spec fn bitvec_bits(b: BitVec) -> Seq<bool>;

/// Calls `BitVec::from_elem`, which builds a vector of `nbits` bits, each
/// equal to `bit`.
#[verifier::external_body]
pub(crate) fn bitvec_from_elem(nbits: usize, bit: bool) -> (b: BitVec)
    ensures
        bitvec_bits(b) == Seq::new(nbits as nat, |_i: int| bit),
{
    BitVec::from_elem(nbits, bit)
}

/// Calls `BitVec::get`, which returns the bit at `i`, or `None` when `i` is
/// not below the length.
#[verifier::external_body]
pub(crate) fn bitvec_get(b: &BitVec, i: usize) -> (r: Option<bool>)
    ensures
        r == (if i < bitvec_bits(*b).len() {
            Some(bitvec_bits(*b)[i as int])
        } else {
            None::<bool>
        }),
{
    b.get(i)
}

/// Calls `BitVec::set`, which overwrites bit `i` with `x` and panics when `i`
/// is not below the length.
#[verifier::external_body]
pub(crate) fn bitvec_set(b: &mut BitVec, i: usize, x: bool)
    requires
        i < bitvec_bits(*old(b)).len(),
    ensures
        bitvec_bits(*final(b)) == bitvec_bits(*old(b)).update(i as int, x),
{
    b.set(i, x)
}

/// Calls `BitVec::grow`, which appends `n` copies of `value` and panics when
/// the new length overflows a `usize`.
#[verifier::external_body]
pub(crate) fn bitvec_grow(b: &mut BitVec, n: usize, value: bool)
    requires
        bitvec_bits(*old(b)).len() + n <= usize::MAX,
    ensures
        bitvec_bits(*final(b)) == bitvec_bits(*old(b)) + Seq::new(n as nat, |_i: int| value),
{
    b.grow(n, value)
}

} // verus!
