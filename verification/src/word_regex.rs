//! Whole-word, ASCII-case-insensitive search and replace, performed by
//! `regex_lite` on patterns of the form `(?i)\b<escaped word>\b`.
use crate::text::{chars_of, string_from_chars};
use regex_lite::Regex;
use vstd::prelude::*;

verus! {

#[verifier::external_type_specification]
#[verifier::external_body]
pub struct ExRegex(Regex);

/// An ASCII word character, `[0-9A-Za-z_]` (`\w` in `regex_lite`).
pub open spec fn is_word_char(c: char) -> bool {
    ('0' <= c && c <= '9') || ('a' <= c && c <= 'z') || ('A' <= c && c <= 'Z') || c == '_'
}

/// ASCII upper-case letters mapped to lower case; every other character
/// unchanged.
pub open spec fn ascii_fold(c: char) -> char {
    if 'A' <= c && c <= 'Z' {
        ((c as u32) + 32) as char
    } else {
        c
    }
}

/// `\b` at position `p` of `t`: a word character on exactly one side.
pub open spec fn at_word_boundary(t: Seq<char>, p: int) -> bool {
    (p > 0 && is_word_char(t[p - 1])) != (p < t.len() && is_word_char(t[p]))
}

/// `(?i)\b<w>\b` matches `t` at position `i`: `w` stands there up to ASCII
/// case, with word boundaries on both sides.
pub open spec fn word_match_at(t: Seq<char>, w: Seq<char>, i: int) -> bool {
    &&& 0 <= i
    &&& i + w.len() <= t.len()
    &&& forall|k: int| 0 <= k < w.len() ==> ascii_fold(#[trigger] t[i + k]) == ascii_fold(w[k])
    &&& at_word_boundary(t, i)
    &&& at_word_boundary(t, i + w.len())
}

/// `w` occurs somewhere in `t` as a whole word, up to ASCII case.
pub open spec fn has_word(t: Seq<char>, w: Seq<char>) -> bool {
    exists|i: int| word_match_at(t, w, i)
}

/// `t[p..]` with the leftmost-first, non-overlapping whole-word matches of
/// `w` (searched in all of `t`) replaced by `r`.
pub open spec fn word_replaced_from(t: Seq<char>, w: Seq<char>, r: Seq<char>, p: int) -> Seq<
    char,
>
    decreases t.len() - p,
{
    if w.len() == 0 || p < 0 || p + w.len() > t.len() {
        t.subrange(p, t.len() as int)
    } else if word_match_at(t, w, p) {
        r + word_replaced_from(t, w, r, p + w.len())
    } else {
        seq![t[p]] + word_replaced_from(t, w, r, p + 1)
    }
}

/// `t` with every whole-word match of `w` replaced by `r`
/// (`Regex::replace_all`).
pub open spec fn word_replaced(t: Seq<char>, w: Seq<char>, r: Seq<char>) -> Seq<char> {
    word_replaced_from(t, w, r, 0)
}

/// A character that `regex_lite::escape` prefixes with a backslash.
pub open spec fn is_regex_meta(c: char) -> bool {
    c == '\\' || c == '.' || c == '+' || c == '*' || c == '?' || c == '(' || c == ')' || c
        == '|' || c == '[' || c == ']' || c == '{' || c == '}' || c == '^' || c == '$' || c
        == '#' || c == '&' || c == '-' || c == '~'
}

/// `regex_lite::escape`: every meta character preceded by a backslash.
pub open spec fn escaped(s: Seq<char>) -> Seq<char>
    decreases s.len(),
{
    if s.len() == 0 {
        seq![]
    } else if is_regex_meta(s.last()) {
        escaped(s.drop_last()) + seq!['\\', s.last()]
    } else {
        escaped(s.drop_last()).push(s.last())
    }
}

/// The pattern text `(?i)\b<escaped w>\b`.
pub open spec fn word_pattern_source(w: Seq<char>) -> Seq<char> {
    seq!['(', '?', 'i', ')', '\\', 'b'] + escaped(w) + seq!['\\', 'b']
}

/// A replacement text that `regex_lite` inserts literally (no `$`).
pub open spec fn is_literal_replacement(r: Seq<char>) -> bool {
    forall|k: int| 0 <= k < r.len() ==> r[k] != '$'
}

/// A compiled whole-word pattern together with the word it was built from.
pub struct WordPattern {
    re: Regex,
    word: String,
}

impl WordPattern {
    /// The word this pattern looks for.
    pub closed spec fn word(&self) -> Seq<char> {
        self.word@
    }
}

/// `regex_lite::escape`: the contract restates its documented behaviour,
/// each regex meta character preceded by a backslash.
#[verifier::external_body]
fn regex_escape(s: &str) -> (r: String)
    ensures
        r@ == escaped(s@),
{
    regex_lite::escape(s)
}

/// `regex_lite::Regex::new` on a pattern `(?i)\b<escaped word>\b`. Such a
/// pattern always compiles for a short word, so the unwrap never fails; the
/// word is kept beside the compiled regex.
#[verifier::external_body]
fn regex_compile(source: &str, word: &str) -> (p: WordPattern)
    requires
        source@ == word_pattern_source(word@),
        0 < word@.len() <= 64,
    ensures
        p.word() == word@,
{
    WordPattern { re: Regex::new(source).unwrap(), word: word.to_owned() }
}

/// `Regex::is_match`: whether the word occurs as a whole word, ASCII case
/// ignored (as the crate documents `\b` and `(?i)`).
#[verifier::external_body]
pub(crate) fn regex_is_match(p: &WordPattern, text: &str) -> (r: bool)
    ensures
        r == has_word(text@, p.word()),
{
    p.re.is_match(text)
}

/// `Regex::replace_all` with a replacement free of `$`: every
/// non-overlapping leftmost-first match replaced literally.
#[verifier::external_body]
pub(crate) fn regex_replace_all(p: &WordPattern, text: &str, rep: &str) -> (r: String)
    requires
        is_literal_replacement(rep@),
    ensures
        r@ == word_replaced(text@, p.word(), rep@),
{
    p.re.replace_all(text, rep).into_owned()
}

/// The pattern that finds `word` as a whole word, ignoring ASCII case.
pub fn word_pattern(word: &str) -> (p: WordPattern)
    requires
        0 < word@.len() <= 64,
    ensures
        p.word() == word@,
{
    let esc = chars_of(regex_escape(word).as_str());
    let mut src: Vec<char> = vec!['(', '?', 'i', ')', '\\', 'b'];
    let ghost head = src@;
    let mut k: usize = 0;
    while k < esc.len()
        invariant
            k <= esc.len(),
            src@ == head + esc@.take(k as int),
        decreases esc.len() - k,
    {
        src.push(esc[k]);
        k += 1;
    }
    src.push('\\');
    src.push('b');
    assert(src@ =~= word_pattern_source(word@));
    let source = string_from_chars(&src);
    regex_compile(source.as_str(), word)
}

/// Whether `word` occurs in `text` as a whole word, ignoring ASCII case.
pub fn has_whole_word(text: &str, word: &str) -> (r: bool)
    requires
        0 < word@.len() <= 64,
    ensures
        r == has_word(text@, word@),
{
    let p = word_pattern(word);
    regex_is_match(&p, text)
}

} // verus!
