//! Character-sequence utilities with exact specifications: the
//! whitespace, trimming, splitting and replacing behaviour that the rest of
//! the library relies on.
use vstd::prelude::*;

verus! {

/// `char::is_whitespace`: the Unicode `White_Space` property.
pub open spec fn is_ws(c: char) -> bool {
    ||| ('\u{9}' <= c && c <= '\u{d}')
    ||| c == ' '
    ||| c == '\u{85}'
    ||| c == '\u{a0}'
    ||| c == '\u{1680}'
    ||| ('\u{2000}' <= c && c <= '\u{200a}')
    ||| c == '\u{2028}'
    ||| c == '\u{2029}'
    ||| c == '\u{202f}'
    ||| c == '\u{205f}'
    ||| c == '\u{3000}'
}

pub fn is_whitespace_char(c: char) -> (r: bool)
    ensures
        r == is_ws(c),
{
    ('\u{9}' <= c && c <= '\u{d}') || c == ' ' || c == '\u{85}' || c == '\u{a0}' || c
        == '\u{1680}' || ('\u{2000}' <= c && c <= '\u{200a}') || c == '\u{2028}' || c
        == '\u{2029}' || c == '\u{202f}' || c == '\u{205f}' || c == '\u{3000}'
}

/// Appends one character to a `String` (`String::push`).
#[verifier::external_body]
fn push_char(s: &mut String, c: char)
    ensures
        final(s)@ == old(s)@.push(c),
{
    s.push(c);
}

/// The characters of `s`, in order.
pub fn chars_of(s: &str) -> (v: Vec<char>)
    ensures
        v@ == s@,
{
    let mut v: Vec<char> = Vec::new();
    for c in it: s.chars()
        invariant
            v@ == it.seq().take(it.index() as int),
    {
        v.push(c);
    }
    v
}

/// Appends the characters of `s` to `out`.
pub fn push_str(out: &mut Vec<char>, s: &str)
    ensures
        final(out)@ == old(out)@ + s@,
{
    let v = chars_of(s);
    let ghost head = out@;
    let mut k: usize = 0;
    while k < v.len()
        invariant
            k <= v.len(),
            out@ == head + v@.take(k as int),
        decreases v.len() - k,
    {
        out.push(v[k]);
        k += 1;
    }
}

/// `prefix` followed by `detail`.
pub fn prefixed(prefix: &str, detail: &str) -> (r: String)
    ensures
        r@ == prefix@ + detail@,
{
    let mut out: Vec<char> = Vec::new();
    push_str(&mut out, prefix);
    push_str(&mut out, detail);
    string_from_chars(&out)
}

/// A `String` holding exactly the characters of `v`.
pub fn string_from_chars(v: &Vec<char>) -> (s: String)
    ensures
        s@ == v@,
{
    let mut s = String::new();
    let mut i: usize = 0;
    while i < v.len()
        invariant
            i <= v.len(),
            s@ == v@.take(i as int),
        decreases v.len() - i,
    {
        push_char(&mut s, v[i]);
        i += 1;
    }
    s
}


/// Characters of `s` after dropping leading whitespace.
pub open spec fn trim_left(s: Seq<char>) -> Seq<char>
    decreases s.len(),
{
    if s.len() > 0 && is_ws(s[0]) {
        trim_left(s.drop_first())
    } else {
        s
    }
}

/// Characters of `s` after dropping trailing whitespace.
pub open spec fn trim_right(s: Seq<char>) -> Seq<char>
    decreases s.len(),
{
    if s.len() > 0 && is_ws(s.last()) {
        trim_right(s.drop_last())
    } else {
        s
    }
}

/// `str::trim`: leading and trailing whitespace removed.
pub open spec fn trimmed(s: Seq<char>) -> Seq<char> {
    trim_right(trim_left(s))
}

proof fn lemma_trim_left_skip(s: Seq<char>, i: int)
    requires
        0 <= i < s.len(),
        is_ws(s[i]),
    ensures
        trim_left(s.skip(i)) == trim_left(s.skip(i + 1)),
{
    assert(s.skip(i).drop_first() =~= s.skip(i + 1));
}

proof fn lemma_trim_right_take(s: Seq<char>, j: int)
    requires
        0 < j <= s.len(),
        is_ws(s[j - 1]),
    ensures
        trim_right(s.take(j)) == trim_right(s.take(j - 1)),
{
    assert(s.take(j).drop_last() =~= s.take(j - 1));
}

/// A `String` holding `v[from..to]`.
pub fn string_from_range(v: &Vec<char>, from: usize, to: usize) -> (s: String)
    requires
        from <= to <= v.len(),
    ensures
        s@ == v@.subrange(from as int, to as int),
{
    let mut s = String::new();
    let mut i: usize = from;
    while i < to
        invariant
            from <= i <= to <= v.len(),
            s@ == v@.subrange(from as int, i as int),
        decreases to - i,
    {
        push_char(&mut s, v[i]);
        assert(v@.subrange(from as int, i as int).push(v@[i as int]) =~= v@.subrange(
            from as int,
            i + 1,
        ));
        i += 1;
    }
    s
}

/// Bounds `(a, b)` such that `v[a..b]` is `v` with leading and trailing
/// whitespace removed.
pub fn trim_bounds(v: &Vec<char>) -> (r: (usize, usize))
    ensures
        r.0 <= r.1 <= v.len(),
        v@.subrange(r.0 as int, r.1 as int) == trimmed(v@),
{
    let ghost s = v@;
    let mut i: usize = 0;
    assert(s.skip(0) =~= s);
    while i < v.len() && is_whitespace_char(v[i])
        invariant
            i <= v.len(),
            s == v@,
            trim_left(s) == trim_left(s.skip(i as int)),
        decreases v.len() - i,
    {
        proof {
            lemma_trim_left_skip(s, i as int);
        }
        i += 1;
    }
    let ghost t = s.skip(i as int);
    let mut j: usize = v.len();
    assert(t.take(t.len() as int) =~= t);
    while j > i && is_whitespace_char(v[j - 1])
        invariant
            i <= j <= v.len(),
            s == v@,
            t == s.skip(i as int),
            trim_right(t) == trim_right(t.take(j - i)),
        decreases j,
    {
        proof {
            lemma_trim_right_take(t, j - i);
        }
        j -= 1;
    }
    (i, j)
}

/// `str::trim`.
pub fn trim(s: &str) -> (r: String)
    ensures
        r@ == trimmed(s@),
{
    let v = chars_of(s);
    let (a, b) = trim_bounds(&v);
    string_from_range(&v, a, b)
}


/// `str::replace` with a non-empty pattern: every non-overlapping occurrence
/// of `from`, scanning left to right, replaced by `to`.
pub open spec fn replaced(s: Seq<char>, from: Seq<char>, to: Seq<char>) -> Seq<char>
    decreases s.len(),
{
    if from.len() == 0 || s.len() < from.len() {
        s
    } else if s.take(from.len() as int) == from {
        to + replaced(s.skip(from.len() as int), from, to)
    } else {
        seq![s[0]] + replaced(s.drop_first(), from, to)
    }
}

/// `s` holds `n` as a contiguous block (`str::contains`).
pub open spec fn seq_contains(s: Seq<char>, n: Seq<char>) -> bool {
    exists|i: int| 0 <= i <= s.len() - n.len() && #[trigger] s.subrange(i, i + n.len()) == n
}

/// Whether `a` and `b` hold the same text.
pub fn same_text(a: &str, b: &str) -> (r: bool)
    ensures
        r == (a@ == b@),
{
    let x = chars_of(a);
    let y = chars_of(b);
    if x.len() != y.len() {
        return false;
    }
    let r = starts_at(&x, 0, &y);
    assert(x@.subrange(0, y.len() as int) =~= x@);
    r
}

/// Whether `v[i..]` starts with `f`.
pub fn starts_at(v: &Vec<char>, i: usize, f: &Vec<char>) -> (r: bool)
    requires
        i <= v.len(),
    ensures
        r == (i + f.len() <= v.len() && v@.subrange(i as int, i + f.len()) == f@),
{
    if f.len() > v.len() - i {
        return false;
    }
    let mut k: usize = 0;
    while k < f.len()
        invariant
            i + f.len() <= v.len(),
            k <= f.len(),
            forall|m: int| 0 <= m < k ==> v@[i + m] == f@[m],
        decreases f.len() - k,
    {
        if v[i + k] != f[k] {
            return false;
        }
        k += 1;
    }
    assert(v@.subrange(i as int, i + f.len()) =~= f@);
    true
}

/// `str::contains`.
pub fn contains(s: &str, n: &str) -> (r: bool)
    ensures
        r == seq_contains(s@, n@),
{
    let v = chars_of(s);
    let f = chars_of(n);
    if f.len() > v.len() {
        return false;
    }
    if f.len() == 0 {
        assert(s@.subrange(0, 0 + n@.len() as int) =~= n@);
        return true;
    }
    let mut i: usize = 0;
    while i <= v.len() - f.len()
        invariant
            0 < f.len() <= v.len(),
            i <= v.len() - f.len() + 1,
            v@ == s@,
            f@ == n@,
            forall|j: int| 0 <= j < i ==> #[trigger] v@.subrange(j, j + f.len()) != f@,
        decreases v.len() - f.len() + 1 - i,
    {
        if starts_at(&v, i, &f) {
            return true;
        }
        i += 1;
    }
    false
}

proof fn lemma_replaced_step_match(s: Seq<char>, from: Seq<char>, to: Seq<char>, i: int)
    requires
        from.len() > 0,
        0 <= i,
        i + from.len() <= s.len(),
        s.subrange(i, i + from.len()) == from,
    ensures
        replaced(s.skip(i), from, to) == to + replaced(s.skip(i + from.len()), from, to),
{
    assert(s.skip(i).take(from.len() as int) =~= s.subrange(i, i + from.len()));
    assert(s.skip(i).skip(from.len() as int) =~= s.skip(i + from.len()));
}

proof fn lemma_replaced_step_other(s: Seq<char>, from: Seq<char>, to: Seq<char>, i: int)
    requires
        from.len() > 0,
        0 <= i < s.len(),
        !(i + from.len() <= s.len() && s.subrange(i, i + from.len()) == from),
    ensures
        replaced(s.skip(i), from, to) == seq![s[i]] + replaced(s.skip(i + 1), from, to),
{
    assert(s.skip(i).drop_first() =~= s.skip(i + 1));
    if s.len() - i >= from.len() {
        assert(s.skip(i).take(from.len() as int) =~= s.subrange(i, i + from.len()));
    } else {
    }
}

/// `str::replace` with a non-empty pattern.
pub fn replace_all(s: &str, from: &str, to: &str) -> (r: String)
    requires
        from@.len() > 0,
    ensures
        r@ == replaced(s@, from@, to@),
{
    let v = chars_of(s);
    let f = chars_of(from);
    let t = chars_of(to);
    let mut out: Vec<char> = Vec::new();
    let mut i: usize = 0;
    assert(v@.skip(0) =~= v@);
    while i < v.len()
        invariant
            i <= v.len(),
            v@ == s@,
            f@ == from@,
            t@ == to@,
            f@.len() > 0,
            out@ + replaced(v@.skip(i as int), f@, t@) == replaced(v@, f@, t@),
        decreases v.len() - i,
    {
        if starts_at(&v, i, &f) {
            proof {
                lemma_replaced_step_match(v@, f@, t@, i as int);
            }
            let ghost before = out@;
            let mut k: usize = 0;
            while k < t.len()
                invariant
                    k <= t.len(),
                    out@ == before + t@.take(k as int),
                decreases t.len() - k,
            {
                out.push(t[k]);
                k += 1;
            }
            assert(before + (t@ + replaced(v@.skip(i + f.len()), f@, t@)) =~= (before + t@)
                + replaced(v@.skip(i + f.len()), f@, t@));
            i += f.len();
        } else {
            proof {
                lemma_replaced_step_other(v@, f@, t@, i as int);
            }
            let ghost before = out@;
            out.push(v[i]);
            assert(before + (seq![v@[i as int]] + replaced(v@.skip(i + 1), f@, t@)) =~= before.push(
                v@[i as int],
            ) + replaced(v@.skip(i + 1), f@, t@));
            i += 1;
        }
    }
    string_from_chars(&out)
}


/// The maximal runs of non-whitespace characters of `s`, in order
/// (`str::split_whitespace`).
pub open spec fn words(s: Seq<char>) -> Seq<Seq<char>>
    decreases s.len(),
{
    if s.len() == 0 {
        seq![]
    } else {
        let w = words(s.drop_last());
        let c = s.last();
        if is_ws(c) {
            w
        } else if s.len() >= 2 && !is_ws(s[s.len() - 2]) && w.len() > 0 {
            w.update(w.len() - 1, w.last().push(c))
        } else {
            w.push(seq![c])
        }
    }
}

/// The parts of `s` between occurrences of `sep` (`str::split`).
pub open spec fn split_on(s: Seq<char>, sep: char) -> Seq<Seq<char>>
    decreases s.len(),
{
    if s.len() == 0 {
        seq![seq![]]
    } else {
        let w = split_on(s.drop_last(), sep);
        if s.last() == sep {
            w.push(seq![])
        } else {
            w.update(w.len() - 1, w.last().push(s.last()))
        }
    }
}

/// `parts` joined with `sep` between consecutive parts (`[T]::join`).
pub open spec fn join(parts: Seq<Seq<char>>, sep: Seq<char>) -> Seq<char>
    decreases parts.len(),
{
    if parts.len() == 0 {
        seq![]
    } else if parts.len() == 1 {
        parts[0]
    } else {
        join(parts.drop_last(), sep) + sep + parts.last()
    }
}

/// The words of `s` separated by single spaces.
pub open spec fn squeezed(s: Seq<char>) -> Seq<char> {
    join(words(s), seq![' '])
}

/// Every line of `s` squeezed, lines rejoined with `'\n'`, and the result
/// trimmed.
pub open spec fn tidy_lines(s: Seq<char>) -> Seq<char> {
    trimmed(join(split_on(s, '\n').map_values(|l: Seq<char>| squeezed(l)), seq!['\n']))
}

pub proof fn lemma_words_nonempty(s: Seq<char>)
    ensures
        forall|k: int| 0 <= k < words(s).len() ==> #[trigger] words(s)[k].len() > 0,
        s.len() > 0 && !is_ws(s.last()) ==> words(s).len() > 0,
    decreases s.len(),
{
    if s.len() > 0 {
        lemma_words_nonempty(s.drop_last());
        let w = words(s.drop_last());
        let c = s.last();
        if !is_ws(c) {
            if s.len() >= 2 && !is_ws(s[s.len() - 2]) && w.len() > 0 {
                let u = w.update(w.len() - 1, w.last().push(c));
                assert forall|k: int| 0 <= k < u.len() implies #[trigger] u[k].len() > 0 by {
                }
            } else {
                let u = w.push(seq![c]);
                assert forall|k: int| 0 <= k < u.len() implies #[trigger] u[k].len() > 0 by {
                }
            }
        }
    }
}

pub proof fn lemma_split_on_nonempty(s: Seq<char>, sep: char)
    ensures
        split_on(s, sep).len() > 0,
    decreases s.len(),
{
    if s.len() > 0 {
        lemma_split_on_nonempty(s.drop_last(), sep);
    }
}

proof fn lemma_join_push(parts: Seq<Seq<char>>, sep: Seq<char>, x: Seq<char>)
    ensures
        join(parts.push(x), sep) == if parts.len() == 0 {
            x
        } else {
            join(parts, sep) + sep + x
        },
{
    assert(parts.push(x).drop_last() =~= parts);
}

proof fn lemma_join_extend_last(parts: Seq<Seq<char>>, sep: Seq<char>, c: char)
    requires
        parts.len() > 0,
    ensures
        join(parts.update(parts.len() - 1, parts.last().push(c)), sep) == join(parts, sep).push(c),
{
    let q = parts.update(parts.len() - 1, parts.last().push(c));
    if parts.len() > 1 {
        assert(q.drop_last() =~= parts.drop_last());
        assert(join(parts.drop_last(), sep) + sep + parts.last().push(c) =~= (join(
            parts.drop_last(),
            sep,
        ) + sep + parts.last()).push(c));
    }
}

proof fn lemma_join_empty(parts: Seq<Seq<char>>, sep: Seq<char>)
    requires
        forall|k: int| 0 <= k < parts.len() ==> #[trigger] parts[k].len() > 0,
    ensures
        (join(parts, sep).len() == 0) == (parts.len() == 0),
    decreases parts.len(),
{
}

/// The characters of `v` with whitespace runs collapsed: words separated by
/// one space, no leading or trailing whitespace.
pub fn squeeze(v: &Vec<char>) -> (r: Vec<char>)
    ensures
        r@ == squeezed(v@),
{
    let mut out: Vec<char> = Vec::new();
    let mut in_word = false;
    let mut i: usize = 0;
    while i < v.len()
        invariant
            i <= v.len(),
            out@ == squeezed(v@.take(i as int)),
            in_word == (i > 0 && !is_ws(v@[i - 1])),
        decreases v.len() - i,
    {
        let c = v[i];
        let ghost p = v@.take(i as int);
        let ghost q = v@.take(i + 1);
        assert(q.drop_last() =~= p);
        proof {
            lemma_words_nonempty(p);
        }
        if is_whitespace_char(c) {
            in_word = false;
        } else {
            if in_word {
                proof {
                    lemma_join_extend_last(words(p), seq![' '], c);
                }
                out.push(c);
            } else {
                proof {
                    lemma_join_push(words(p), seq![' '], seq![c]);
                    lemma_join_empty(words(p), seq![' ']);
                }
                if out.len() > 0 {
                    out.push(' ');
                }
                out.push(c);
            }
            in_word = true;
        }
        i += 1;
    }
    assert(v@.take(v.len() as int) =~= v@);
    out
}


/// The character sequences held by a vector of character vectors.
pub open spec fn views(v: Seq<Vec<char>>) -> Seq<Seq<char>> {
    v.map_values(|x: Vec<char>| x@)
}

/// The parts of `v` between occurrences of `sep`.
pub fn split_chars(v: &Vec<char>, sep: char) -> (r: Vec<Vec<char>>)
    ensures
        views(r@) == split_on(v@, sep),
{
    let mut done: Vec<Vec<char>> = Vec::new();
    let mut cur: Vec<char> = Vec::new();
    let mut i: usize = 0;
    while i < v.len()
        invariant
            i <= v.len(),
            split_on(v@.take(i as int), sep) == views(done@).push(cur@),
        decreases v.len() - i,
    {
        let ghost p = v@.take(i as int);
        let ghost q = v@.take(i + 1);
        assert(q.drop_last() =~= p);
        let c = v[i];
        if c == sep {
            let ghost old_done = done@;
            let finished = cur;
            done.push(finished);
            cur = Vec::new();
        } else {
            cur.push(c);
        }
        i += 1;
    }
    assert(v@.take(v.len() as int) =~= v@);
    done.push(cur);
    done
}

/// The parts joined with `sep` between consecutive parts.
pub fn join_chars(parts: &Vec<Vec<char>>, sep: char) -> (r: Vec<char>)
    ensures
        r@ == join(views(parts@), seq![sep]),
{
    let mut out: Vec<char> = Vec::new();
    let mut i: usize = 0;
    while i < parts.len()
        invariant
            i <= parts.len(),
            out@ == join(views(parts@).take(i as int), seq![sep]),
        decreases parts.len() - i,
    {
        let ghost xs = views(parts@);
        proof {
            assert(xs.take(i + 1) =~= xs.take(i as int).push(parts@[i as int]@));
            lemma_join_push(xs.take(i as int), seq![sep], parts@[i as int]@);
        }
        if i > 0 {
            out.push(sep);
        }
        let part = &parts[i];
        let mut k: usize = 0;
        let ghost mid = out@;
        while k < part.len()
            invariant
                k <= part.len(),
                out@ == mid + part@.take(k as int),
            decreases part.len() - k,
        {
            out.push(part[k]);
            k += 1;
        }
        i += 1;
    }
    assert(views(parts@).take(parts.len() as int) =~= views(parts@));
    out
}

/// Every line squeezed, lines rejoined with `'\n'`, the result trimmed
/// (`s.lines().map(|l| l.split_whitespace().collect::<Vec<_>>().join(" "))
/// .collect::<Vec<_>>().join("\n").trim()`).
pub fn tidy(s: &str) -> (r: String)
    ensures
        r@ == tidy_lines(s@),
{
    let v = chars_of(s);
    let lines = split_chars(&v, '\n');
    let ghost ls = views(lines@);
    let mut sq: Vec<Vec<char>> = Vec::new();
    let mut i: usize = 0;
    while i < lines.len()
        invariant
            i <= lines.len(),
            ls == views(lines@),
            views(sq@) == ls.take(i as int).map_values(|l: Seq<char>| squeezed(l)),
        decreases lines.len() - i,
    {
        let line = squeeze(&lines[i]);
        sq.push(line);
        assert(ls.take(i + 1).map_values(|l: Seq<char>| squeezed(l)) =~= ls.take(
            i as int,
        ).map_values(|l: Seq<char>| squeezed(l)).push(squeezed(ls[i as int])));
        i += 1;
    }
    assert(ls.take(lines.len() as int) =~= ls);
    let joined = join_chars(&sq, '\n');
    let (a, b) = trim_bounds(&joined);
    string_from_range(&joined, a, b)
}


/// Trimming changes nothing when `s` neither starts nor ends with
/// whitespace.
pub proof fn lemma_trimmed_unchanged(s: Seq<char>)
    requires
        s.len() > 0 ==> !is_ws(s[0]) && !is_ws(s[s.len() - 1]),
    ensures
        trimmed(s) == s,
{
}

/// No whitespace character in `s`.
pub open spec fn free_of_ws(s: Seq<char>) -> bool {
    forall|i: int| 0 <= i < s.len() ==> !is_ws(#[trigger] s[i])
}

/// Whitespace is single spaces between non-space characters.
pub open spec fn single_spaced(s: Seq<char>) -> bool {
    &&& forall|i: int| 0 <= i < s.len() && is_ws(#[trigger] s[i]) ==> s[i] == ' '
    &&& forall|i: int| 0 <= i < s.len() - 1 && #[trigger] s[i] == ' ' ==> s[i + 1] != ' '
    &&& s.len() > 0 ==> s[0] != ' ' && s[s.len() - 1] != ' '
}

/// The shape of normalised text: no leading or trailing whitespace, the
/// only whitespace characters are `' '` and `'\n'`, a space is never next
/// to another space or to a line break.
pub open spec fn well_spaced(s: Seq<char>) -> bool {
    &&& s.len() > 0 ==> !is_ws(s[0]) && !is_ws(s[s.len() - 1])
    &&& forall|i: int| 0 <= i < s.len() && is_ws(#[trigger] s[i]) ==> s[i] == ' ' || s[i] == '\n'
    &&& forall|i: int|
        0 <= i < s.len() - 1 && #[trigger] s[i] == ' ' ==> s[i + 1] != ' ' && s[i + 1] != '\n'
    &&& forall|i: int| 0 <= i < s.len() - 1 && #[trigger] s[i] == '\n' ==> s[i + 1] != ' '
}

/// Whitespace is `' '` and `'\n'` only, a space never touches a space or a
/// line break, and the text neither starts nor ends with a space.
spec fn lines_spaced(s: Seq<char>) -> bool {
    &&& forall|i: int| 0 <= i < s.len() && is_ws(#[trigger] s[i]) ==> s[i] == ' ' || s[i] == '\n'
    &&& forall|i: int|
        0 <= i < s.len() - 1 && #[trigger] s[i] == ' ' ==> s[i + 1] != ' ' && s[i + 1] != '\n'
    &&& forall|i: int| 0 <= i < s.len() - 1 && #[trigger] s[i] == '\n' ==> s[i + 1] != ' '
    &&& s.len() > 0 ==> s[0] != ' ' && s[s.len() - 1] != ' '
}

proof fn lemma_words_free_of_ws(s: Seq<char>)
    ensures
        forall|k: int| 0 <= k < words(s).len() ==> free_of_ws(#[trigger] words(s)[k]),
    decreases s.len(),
{
    if s.len() > 0 {
        lemma_words_free_of_ws(s.drop_last());
        let w = words(s.drop_last());
        let c = s.last();
        if !is_ws(c) {
            if s.len() >= 2 && !is_ws(s[s.len() - 2]) && w.len() > 0 {
                let u = w.update(w.len() - 1, w.last().push(c));
                assert forall|k: int| 0 <= k < u.len() implies free_of_ws(#[trigger] u[k]) by {
                    if k < w.len() - 1 {
                    } else {
                        assert forall|i: int| 0 <= i < u[k].len() implies !is_ws(
                            #[trigger] u[k][i],
                        ) by {
                        }
                    }
                }
            } else {
                let u = w.push(seq![c]);
                assert forall|k: int| 0 <= k < u.len() implies free_of_ws(#[trigger] u[k]) by {
                }
            }
        }
    }
}

proof fn lemma_join_single_spaced(parts: Seq<Seq<char>>)
    requires
        forall|k: int| 0 <= k < parts.len() ==> #[trigger] parts[k].len() > 0,
        forall|k: int| 0 <= k < parts.len() ==> free_of_ws(#[trigger] parts[k]),
    ensures
        single_spaced(join(parts, seq![' '])),
    decreases parts.len(),
{
    if parts.len() == 1 {
    } else if parts.len() > 1 {
        let init = parts.drop_last();
        assert forall|k: int| 0 <= k < init.len() implies #[trigger] init[k].len() > 0 by {
        }
        assert forall|k: int| 0 <= k < init.len() implies free_of_ws(#[trigger] init[k]) by {
        }
        lemma_join_single_spaced(init);
        lemma_join_empty(init, seq![' ']);
        let a = join(init, seq![' ']);
        let b = parts.last();
        let j = a + seq![' '] + b;
        assert forall|i: int| 0 <= i < j.len() && is_ws(#[trigger] j[i]) implies j[i] == ' ' by {
        }
        assert forall|i: int| 0 <= i < j.len() - 1 && #[trigger] j[i] == ' ' implies j[i + 1]
            != ' ' by {
        }
    }
}

/// A squeezed line is single-spaced.
proof fn lemma_squeezed_single_spaced(s: Seq<char>)
    ensures
        single_spaced(squeezed(s)),
{
    lemma_words_nonempty(s);
    lemma_words_free_of_ws(s);
    lemma_join_single_spaced(words(s));
}

proof fn lemma_join_lines_spaced(parts: Seq<Seq<char>>)
    requires
        forall|k: int| 0 <= k < parts.len() ==> single_spaced(#[trigger] parts[k]),
    ensures
        lines_spaced(join(parts, seq!['\n'])),
    decreases parts.len(),
{
    if parts.len() == 1 {
    } else if parts.len() > 1 {
        let init = parts.drop_last();
        assert forall|k: int| 0 <= k < init.len() implies single_spaced(#[trigger] init[k]) by {
        }
        lemma_join_lines_spaced(init);
        let a = join(init, seq!['\n']);
        let b = parts.last();
        let j = a + seq!['\n'] + b;
        assert forall|i: int| 0 <= i < j.len() && is_ws(#[trigger] j[i]) implies j[i] == ' '
            || j[i] == '\n' by {
        }
        assert forall|i: int| 0 <= i < j.len() - 1 && #[trigger] j[i] == ' ' implies j[i + 1]
            != ' ' && j[i + 1] != '\n' by {
        }
        assert forall|i: int| 0 <= i < j.len() - 1 && #[trigger] j[i] == '\n' implies j[i + 1]
            != ' ' by {
        }
    }
}

proof fn lemma_trim_left_shape(s: Seq<char>)
    ensures
        exists|k: int|
            0 <= k <= s.len() && trim_left(s) == s.skip(k) && (k < s.len() ==> !is_ws(s[k])),
    decreases s.len(),
{
    if s.len() > 0 && is_ws(s[0]) {
        lemma_trim_left_shape(s.drop_first());
        let k = choose|k: int|
            0 <= k <= s.drop_first().len() && trim_left(s.drop_first()) == s.drop_first().skip(k)
                && (k < s.drop_first().len() ==> !is_ws(s.drop_first()[k]));
        assert(s.drop_first().skip(k) =~= s.skip(k + 1));
    } else {
        assert(s.skip(0) =~= s);
    }
}

proof fn lemma_trim_right_shape(s: Seq<char>)
    ensures
        exists|k: int|
            0 <= k <= s.len() && trim_right(s) == s.take(k) && (k > 0 ==> !is_ws(s[k - 1])),
    decreases s.len(),
{
    if s.len() > 0 && is_ws(s.last()) {
        lemma_trim_right_shape(s.drop_last());
        let k = choose|k: int|
            0 <= k <= s.drop_last().len() && trim_right(s.drop_last()) == s.drop_last().take(k)
                && (k > 0 ==> !is_ws(s.drop_last()[k - 1]));
        assert(s.drop_last().take(k) =~= s.take(k));
    } else {
        assert(s.take(s.len() as int) =~= s);
    }
}

/// Normalised lines are well spaced: whatever the input, `tidy_lines`
/// yields text without leading or trailing whitespace, whose only
/// whitespace is single spaces between words and line breaks.
pub proof fn lemma_tidy_lines_well_spaced(s: Seq<char>)
    ensures
        well_spaced(tidy_lines(s)),
{
    let parts = split_on(s, '\n').map_values(|l: Seq<char>| squeezed(l));
    assert forall|k: int| 0 <= k < parts.len() implies single_spaced(#[trigger] parts[k]) by {
        lemma_squeezed_single_spaced(split_on(s, '\n')[k]);
    }
    lemma_join_lines_spaced(parts);
    let j = join(parts, seq!['\n']);
    lemma_trim_left_shape(j);
    let a = choose|k: int|
        0 <= k <= j.len() && trim_left(j) == j.skip(k) && (k < j.len() ==> !is_ws(j[k]));
    let l = j.skip(a);
    lemma_trim_right_shape(l);
    let b = choose|k: int|
        0 <= k <= l.len() && trim_right(l) == l.take(k) && (k > 0 ==> !is_ws(l[k - 1]));
    let t = l.take(b);
    assert forall|i: int| 0 <= i < t.len() implies #[trigger] t[i] == j[a + i] by {}
    assert forall|i: int| 0 <= i < t.len() && is_ws(#[trigger] t[i]) implies t[i] == ' ' || t[i]
        == '\n' by {
    }
    assert forall|i: int| 0 <= i < t.len() - 1 && #[trigger] t[i] == ' ' implies t[i + 1] != ' '
        && t[i + 1] != '\n' by {
    }
    assert forall|i: int| 0 <= i < t.len() - 1 && #[trigger] t[i] == '\n' implies t[i + 1]
        != ' ' by {
    }
}

} // verus!
