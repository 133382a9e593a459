//! Small operations on text that the rest of the crate shares.

use vstd::prelude::*;
use vstd::string::StrSliceExecFns;
use vstd::string::StringExecFns;

verus! {

/// Whether two texts hold the same characters.
pub fn same_text(a: &str, b: &str) -> (same: bool)
    ensures
        same == (a@ == b@),
{
    let left = String::from_str(a);
    let right = String::from_str(b);
    left == right
}

/// The position of the last `mark` in `text`, if it occurs at all.
pub fn last_position(text: &str, mark: char) -> (found: Option<usize>)
    ensures
        match found {
            Some(at) => at < text@.len() && text@[at as int] == mark && forall|j: int|
                at < j < text@.len() ==> text@[j] != mark,
            None => !text@.contains(mark),
        },
{
    let len = text.unicode_len();
    let mut at: usize = len;
    while at > 0
        invariant
            at <= len,
            len == text@.len(),
            forall|j: int| at <= j < len ==> text@[j] != mark,
        decreases at,
    {
        at = at - 1;
        if text.get_char(at) == mark {
            return Some(at);
        }
    }
    None
}

} // verus!
