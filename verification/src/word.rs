//! The packed version word.
//!
//! Bit 0 of the word is the closed flag: it is set once, when the producer
//! goes away, and never cleared.  The remaining bits are the version
//! counter, advanced by 2 on every publish so that the increment never
//! touches the closed flag.  A fresh channel starts at 0: not closed,
//! version 0.

use vstd::prelude::*;

verus! {

/// The least significant bit of the packed word marks a closed channel.
pub const CLOSED_BIT: u64 = 1;

/// Every publish advances the packed word by this step, leaving bit 0 alone.
pub const VERSION_STEP: u64 = 2;

/// Whether the closed flag (bit 0) is set in the packed word.
pub open spec fn spec_closed(word: u64) -> bool {
    word & 1 == 1
}

/// The version component of the packed word: the word with bit 0 cleared.
pub open spec fn spec_version(word: u64) -> u64 {
    word & !1u64
}

/// The version component is even, never exceeds the word, and differs from
/// it exactly by the closed flag.
pub proof fn lemma_version_shape(word: u64)
    ensures
        spec_version(word) % 2 == 0,
        spec_version(word) <= word,
        word == spec_version(word) + (if spec_closed(word) { 1u64 } else { 0u64 }),
{
    assert((word & !1u64) % 2 == 0 && word & !1u64 <= word && word == (word & !1u64) + (
    if word & 1 == 1 {
        1u64
    } else {
        0u64
    })) by (bit_vector);
}

/// Reads the closed flag out of a packed word.
pub fn is_closed(word: u64) -> (r: bool)
    ensures
        r == spec_closed(word),
{
    word & CLOSED_BIT == CLOSED_BIT
}

/// Clears the closed flag, leaving the version component.
pub fn mask_version(word: u64) -> (r: u64)
    ensures
        r == spec_version(word),
{
    word & !CLOSED_BIT
}

/// Advances the version component of a packed word by one step, leaving the
/// closed flag exactly as it was.
pub fn bump_version(word: u64) -> (r: u64)
    requires
        word + VERSION_STEP <= u64::MAX,
    ensures
        r == word + VERSION_STEP,
        spec_version(r) == spec_version(word) + VERSION_STEP,
        spec_closed(r) == spec_closed(word),
{
    proof {
        assert(word <= 0xFFFF_FFFF_FFFF_FFFDu64 ==> (((word + 2) as u64) & !1u64) == (word
            & !1u64) + 2 && ((((word + 2) as u64) & 1) == 1) == (word & 1 == 1)) by (bit_vector);
    }
    word + VERSION_STEP
}

/// Sets the closed flag, leaving the version component exactly as it was.
/// Setting it again changes nothing: the flag is permanent.
pub fn set_closed(word: u64) -> (r: u64)
    ensures
        r == (word | 1u64),
        spec_closed(r),
        spec_version(r) == spec_version(word),
{
    proof {
        assert((word | 1u64) & 1 == 1 && ((word | 1u64) & !1u64) == (word & !1u64))
            by (bit_vector);
    }
    word | CLOSED_BIT
}

} // verus!
