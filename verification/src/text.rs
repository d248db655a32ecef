//! Comparison of texts, character by character.

use vstd::prelude::*;
use vstd::std_specs::iter::IteratorSpec;

verus! {

/// Whether `a` and `b` hold the same characters.
pub fn same_text(a: &str, b: &str) -> (r: bool)
    ensures
        r == (a@ == b@),
{
    let mut left = a.chars();
    let mut right = b.chars();
    let ghost mut at: int = 0;
    loop
        invariant
            0 <= at <= a@.len(),
            at <= b@.len(),
            left.remaining() == a@.subrange(at, a@.len() as int),
            right.remaining() == b@.subrange(at, b@.len() as int),
            a@.subrange(0, at) == b@.subrange(0, at),
        decreases a@.len() - at,
    {
        let x = left.next();
        let y = right.next();
        match (x, y) {
            (None, None) => {
                assert(a@ =~= a@.subrange(0, at));
                assert(b@ =~= b@.subrange(0, at));
                return true;
            },
            (Some(c), Some(d)) => {
                if c != d {
                    return false;
                }
                proof {
                    at = at + 1;
                }
            },
            _ => {
                return false;
            },
        }
    }
}

} // verus!
