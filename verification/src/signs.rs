//! Sign extension of immediates, done by the `quark` crate's `Signs` trait.
use quark::Signs;
use vstd::prelude::*;

verus! {

/// The value of `v` after its upper `bits` bits have been filled with the bit just below them,
/// for `bits < 64`; zero otherwise.
pub open spec fn sext_u64(v: u64, bits: usize) -> u64 {
    if bits >= 64 {
        0
    } else {
        (((v << bits) as i64) >> bits) as u64
    }
}

/// Signed counterpart of `sext_u64`.
pub open spec fn sext_i64(v: i64, bits: usize) -> i64 {
    if bits >= 64 {
        0
    } else {
        (v << bits) >> bits
    }
}

/// Calls `<u64 as quark::Signs>::sign_extend`. Its source returns `0` when `bits` reaches the
/// width of the type and otherwise `((v << bits) as i64 >> bits) as u64`; the contract states
/// exactly that.
#[verifier::external_body]
pub(crate) fn sign_extend_u64(v: u64, bits: usize) -> (r: u64)
    ensures
        r == sext_u64(v, bits),
{
    v.sign_extend(bits)
}

/// Calls `<i64 as quark::Signs>::sign_extend`. Its source returns `0` when `bits` reaches the
/// width of the type and otherwise `v << bits >> bits`; the contract states exactly that.
#[verifier::external_body]
pub(crate) fn sign_extend_i64(v: i64, bits: usize) -> (r: i64)
    ensures
        r == sext_i64(v, bits),
{
    v.sign_extend(bits)
}

} // verus!
