//! Composition operators: checks across levels, inside one level, and from an
//! invariant to an outside normative framework.

use vstd::prelude::*;
use crate::fus::FusLevel;
use crate::text::same_text;

verus! {

/// The balance threshold, three tenths, as the bit pattern of an IEEE 754
/// single-precision number.
pub const BALANCE_THRESHOLD_BITS: u32 = 0x3E99_999A;

/// The bit pattern of positive infinity. Every larger pattern with a clear
/// sign bit is not a number; every pattern with the sign bit set is larger
/// still and stands for a negative number, a negative zero or not a number.
pub const POSITIVE_INFINITY_BITS: u32 = 0x7F80_0000;

/// A factor, given by the bit pattern of a single-precision number, is
/// strictly greater than the threshold. Among the patterns of numbers that are
/// not negative, the order of the patterns is the order of the numbers.
pub open spec fn exceeds_threshold(bits: u32) -> bool {
    BALANCE_THRESHOLD_BITS < bits <= POSITIVE_INFINITY_BITS
}

/// The balance condition of a level: at the psychic level both factors must
/// exceed the threshold; every other level is balanced whatever the factors.
pub open spec fn balanced(level: FusLevel, bits_a: u32, bits_b: u32) -> bool {
    level == FusLevel::Psychic ==> exceeds_threshold(bits_a) && exceeds_threshold(bits_b)
}

/// The outside framework reference that an invariant id maps to, if any.
pub open spec fn framework_of(invariant_id: Seq<char>) -> Option<Seq<char>> {
    if invariant_id == "fus:ObserverPosition"@ {
        Some("gdpr:RightToExplanation"@)
    } else if invariant_id == "fus:FreedomInDeterminism"@ {
        Some("un:HumanRightsDeclaration_Art19"@)
    } else {
        None
    }
}

/// Vertical agreement: stability passes from `from` to `to` exactly when `to`
/// lies strictly deeper.
pub fn vertical_agreement(from: &FusLevel, to: &FusLevel) -> (r: bool)
    ensures
        r == (from.spec_depth() < to.spec_depth()),
{
    from.depth() < to.depth()
}

/// Horizontal balance inside one level. The two factors are handed over as
/// the bit patterns of single-precision numbers.
pub fn horizontal_balance(level: &FusLevel, factor_a: u32, factor_b: u32) -> (r: bool)
    ensures
        r == balanced(*level, factor_a, factor_b),
{
    match level {
        FusLevel::Psychic => {
            BALANCE_THRESHOLD_BITS < factor_a && factor_a <= POSITIVE_INFINITY_BITS
                && BALANCE_THRESHOLD_BITS < factor_b && factor_b <= POSITIVE_INFINITY_BITS
        },
        _ => true,
    }
}

/// Diagonal mapping from an invariant id to an outside normative framework;
/// `None` where the table has no entry.
pub fn manifests_in_structure(invariant_id: &str) -> (r: Option<&'static str>)
    ensures
        match r {
            Some(reference) => framework_of(invariant_id@) == Some(reference@),
            None => framework_of(invariant_id@) is None,
        },
{
    if same_text(invariant_id, "fus:ObserverPosition") {
        Some("gdpr:RightToExplanation")
    } else if same_text(invariant_id, "fus:FreedomInDeterminism") {
        Some("un:HumanRightsDeclaration_Art19")
    } else {
        None
    }
}

/// No level agrees vertically with itself, and of two different levels
/// exactly one direction agrees.
pub proof fn lemma_vertical_agreement_is_strict(a: FusLevel, b: FusLevel)
    ensures
        !(a.spec_depth() < a.spec_depth()),
        a != b ==> ((a.spec_depth() < b.spec_depth()) != (b.spec_depth() < a.spec_depth())),
        a == b ==> !(a.spec_depth() < b.spec_depth()),
{
}

} // verus!
