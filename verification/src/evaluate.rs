//! Deciding pass or fail for one test case from the program's output.

use vstd::prelude::*;

use crate::text::{contains_seq, contains_str, trim_str, trimmed};

verus! {

/// The pass condition: the trimmed actual output must contain the trimmed
/// expected text as a contiguous substring.  Deliberately containment, not
/// equality — extra surrounding output does not fail a case, and an empty
/// expected text is contained in anything.  Changing this to equality would
/// change grading outcomes, so the looseness is kept as specified.
pub open spec fn output_passes(actual: Seq<char>, expected: Seq<char>) -> bool {
    contains_seq(trimmed(actual), trimmed(expected))
}

/// Decides one test case: both texts are trimmed of leading and trailing
/// whitespace, then the expected text must occur inside the actual output.
pub fn evaluate(actual: &str, expected: &str) -> (b: bool)
    ensures
        b == output_passes(actual@, expected@),
{
    contains_str(trim_str(actual), trim_str(expected))
}

} // verus!
