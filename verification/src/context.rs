//! The text before the cursor, as handed to the cleanup model.
use crate::text::{chars_of, string_from_range, trim, trimmed};
use vstd::prelude::*;

verus! {

/// `s` cut to its last `max` characters when it is longer.
pub open spec fn last_chars(s: Seq<char>, max: nat) -> Seq<char> {
    if s.len() > max {
        s.subrange(s.len() - max, s.len() as int)
    } else {
        s
    }
}

/// The context read from the focused field: the script's output trimmed,
/// and cut to its last `max_chars` characters when longer. It never holds
/// more than `max_chars` characters, always ends the trimmed output, and is
/// all of it when that is short enough.
pub fn context_tail(output: &str, max_chars: usize) -> (r: String)
    ensures
        r@ == last_chars(trimmed(output@), max_chars as nat),
        r@.len() <= max_chars,
        r@.is_suffix_of(trimmed(output@)),
        trimmed(output@).len() <= max_chars ==> r@ == trimmed(output@),
{
    let t = trim(output);
    let v = chars_of(t.as_str());
    let n = v.len();
    let r = if n > max_chars {
        string_from_range(&v, n - max_chars, n)
    } else {
        string_from_range(&v, 0, n)
    };
    assert(v@.subrange(0, n as int) =~= v@);
    proof {
        let s = trimmed(output@);
        assert(s.subrange(s.len() - r@.len(), s.len() as int) =~= r@);
    }
    r
}

} // verus!
