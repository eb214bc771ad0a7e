//! Helpers for optional text, shared by the data types that carry names.

use vstd::prelude::*;

verus! {

/// The view of an optional text: the characters it holds, if any.
pub open spec fn opt_text_view(t: Option<String>) -> Option<Seq<char>> {
    match t {
        Some(s) => Some(s@),
        None => None,
    }
}

/// Copies an optional text.
pub fn clone_opt_text(t: &Option<String>) -> (r: Option<String>)
    ensures
        opt_text_view(r) == opt_text_view(*t),
{
    match t {
        Some(s) => Some(s.clone()),
        None => None,
    }
}

/// Whether two optional texts hold the same characters.
pub fn same_opt_text(a: &Option<String>, b: &Option<String>) -> (r: bool)
    ensures
        r == (opt_text_view(*a) == opt_text_view(*b)),
{
    match (a, b) {
        (Some(x), Some(y)) => *x == *y,
        (None, None) => true,
        _ => false,
    }
}

/// Builds an owned text from a literal.
pub fn text(s: &str) -> (r: String)
    ensures
        r@ == s@,
{
    String::from_str(s)
}

} // verus!
