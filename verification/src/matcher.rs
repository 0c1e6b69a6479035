//! Regular-expression matching, done by the `regex` crate.

use crate::updater::{ADDRESS_PATTERN, RULE_NAME_PATTERN};
use vstd::prelude::*;

verus! {

/// What matching `text` against `pattern` gives: `None` when `pattern` is not
/// an expression the `regex` crate compiles, otherwise whether the compiled
/// expression matches somewhere in `text`.
pub uninterp spec fn regex_match(pattern: Seq<char>, text: Seq<char>) -> Option<bool>;

/// Compiles `pattern` with `regex::Regex::new` and asks `Regex::is_match`
/// whether it matches in `text`. Not proved: that the answer depends on the
/// two strings alone, which is what naming it `regex_match` claims; the claim
/// is made for the two patterns of this crate only. A pattern that does not
/// compile gives `None`.
#[verifier::external_body]
pub(crate) fn match_pattern(pattern: &str, text: &str) -> (found: Option<bool>)
    requires
        pattern@ == RULE_NAME_PATTERN@ || pattern@ == ADDRESS_PATTERN@,
    ensures
        found == regex_match(pattern@, text@),
{
    match regex::Regex::new(pattern) {
        Ok(expression) => Some(expression.is_match(text)),
        Err(_) => None,
    }
}

} // verus!
