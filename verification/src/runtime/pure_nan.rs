//! The one NaN that boxed values are allowed to carry.
//!
//! Numbers are handled as IEEE-754 binary64 bit patterns. A NaN whose
//! pattern reaches into the range reserved for tags is impure: boxing it
//! would yield a word that reads as something other than a number.

use vstd::prelude::*;
use crate::runtime::double::spec_is_nan;
use crate::runtime::double::is_nan;

verus! {

/// The pattern of the canonical quiet NaN.
pub const PURE_NAN: u64 = 0x7ff8_0000_0000_0000;

/// The lowest pattern that cannot be boxed as a number.
pub const IMPURE_NAN_START: u64 = 0xfffc_0000_0000_0000;

pub open spec fn spec_is_impure_nan(number: u64) -> bool {
    number >= IMPURE_NAN_START
}

/// The canonical quiet NaN.
pub fn pure_nan() -> (r: u64)
    ensures
        r == PURE_NAN,
        spec_is_nan(r),
        !spec_is_impure_nan(r),
{
    proof {
        lemma_pure_nan_is_nan();
    }
    PURE_NAN
}

/// Whether boxing `number` would collide with the tag space.
#[verifier::when_used_as_spec(spec_is_impure_nan)]
pub fn is_impure_nan(number: u64) -> (b: bool)
    ensures
        b == spec_is_impure_nan(number),
{
    number >= IMPURE_NAN_START
}

pub open spec fn spec_purify_nan(number: u64) -> u64 {
    if spec_is_nan(number) {
        PURE_NAN
    } else {
        number
    }
}

/// `number` with every NaN replaced by the canonical one, so that the result
/// can always be boxed.
pub fn purify_nan(number: u64) -> (r: u64)
    ensures
        r == spec_purify_nan(number),
        !spec_is_impure_nan(r),
{
    proof {
        lemma_impure_is_nan(number);
    }
    if is_nan(number) {
        PURE_NAN
    } else {
        number
    }
}

/// The canonical NaN is a NaN.
pub proof fn lemma_pure_nan_is_nan()
    ensures
        spec_is_nan(PURE_NAN),
{
}

/// Every impure pattern is a NaN: no number other than a NaN is lost by
/// refusing them.
pub proof fn lemma_impure_is_nan(number: u64)
    ensures
        spec_is_impure_nan(number) ==> spec_is_nan(number),
{
}

} // verus!
