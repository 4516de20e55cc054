//! The public-key curve-validity test.
//!
//! On this platform an externally-owned key is, by construction, a valid
//! point of the ed25519 curve, while a program-derived address fails the
//! validity test; the authorization algorithm uses the test to tell the two
//! apart without a registry.

use vstd::prelude::*;

verus! {

/// Whether 32 bytes decompress to a valid point of the ed25519 curve. The
/// answer is a fixed function of the bytes alone.
pub uninterp spec fn is_valid_curve_point(key: Seq<u8>) -> bool;

/// Relies on `solana_curve25519::edwards::validate_edwards`: whether the
/// 32 bytes decompress to an Edwards curve point depends on the bytes
/// alone.
#[verifier::external_body]
pub(crate) fn validate_edwards_key(key: &Vec<u8>) -> (r: bool)
    requires
        key@.len() == 32,
    ensures
        r == is_valid_curve_point(key@),
{
    let mut bytes = [0u8; 32];
    bytes.copy_from_slice(key.as_slice());
    solana_curve25519::edwards::validate_edwards(
        &solana_curve25519::edwards::PodEdwardsPoint(bytes),
    )
}

} // verus!
