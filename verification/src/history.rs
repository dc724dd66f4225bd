//! The rules of the transcription history that the store applies.
use crate::text::{chars_of, push_str, string_from_chars, string_from_range};
use vstd::prelude::*;

verus! {

/// The `LIKE` pattern a search runs with: the query anywhere in the text.
pub fn search_pattern(query: &str) -> (r: String)
    ensures
        r@ == seq!['%'] + query@ + seq!['%'],
{
    let mut out: Vec<char> = vec!['%'];
    push_str(&mut out, query);
    out.push('%');
    string_from_chars(&out)
}

/// Where the first `c` at or after `from` stands in `s` (`s.len()` when
/// there is none).
pub open spec fn find_from(s: Seq<char>, c: char, from: int) -> int
    decreases s.len() - from,
{
    if from >= s.len() {
        s.len() as int
    } else if s[from] == c {
        from
    } else {
        find_from(s, c, from + 1)
    }
}

proof fn lemma_find_from_bounds(s: Seq<char>, c: char, from: int)
    requires
        0 <= from <= s.len(),
    ensures
        from <= find_from(s, c, from) <= s.len(),
    decreases s.len() - from,
{
    if from < s.len() && s[from] != c {
        lemma_find_from_bounds(s, c, from + 1);
    }
}

fn find_char(v: &Vec<char>, c: char, from: usize) -> (r: usize)
    requires
        from <= v.len(),
    ensures
        r == find_from(v@, c, from as int),
        from <= r <= v.len(),
{
    let mut i = from;
    proof {
        lemma_find_from_bounds(v@, c, from as int);
    }
    while i < v.len() && v[i] != c
        invariant
            from <= i <= v.len(),
            find_from(v@, c, i as int) == find_from(v@, c, from as int),
        decreases v.len() - i,
    {
        i += 1;
    }
    i
}

/// The date of an RFC 3339 timestamp: everything before its first `T`.
pub open spec fn date_part(ts: Seq<char>) -> Seq<char> {
    ts.take(find_from(ts, 'T', 0))
}

/// The time of an RFC 3339 timestamp: what follows its first `T` (up to a
/// second `T`), cut before the first `.` and then before the first `+`;
/// empty when there is no `T`.
pub open spec fn time_part(ts: Seq<char>) -> Seq<char> {
    let t = find_from(ts, 'T', 0);
    if t >= ts.len() {
        seq![]
    } else {
        let field = ts.subrange(t + 1, find_from(ts, 'T', t + 1));
        let whole = field.take(find_from(field, '.', 0));
        whole.take(find_from(whole, '+', 0))
    }
}

/// The date and the time of day that the history listing shows for an
/// entry's timestamp.
pub fn entry_date_time(timestamp: &str) -> (r: (String, String))
    ensures
        r.0@ == date_part(timestamp@),
        r.1@ == time_part(timestamp@),
{
    let v = chars_of(timestamp);
    let t = find_char(&v, 'T', 0);
    let date = string_from_range(&v, 0, t);
    if t >= v.len() {
        return (date, String::new());
    }
    let end = find_char(&v, 'T', t + 1);
    let field = chars_of(string_from_range(&v, t + 1, end).as_str());
    let dot = find_char(&field, '.', 0);
    let whole = chars_of(string_from_range(&field, 0, dot).as_str());
    let plus = find_char(&whole, '+', 0);
    let time = string_from_range(&whole, 0, plus);
    (date, time)
}

} // verus!
