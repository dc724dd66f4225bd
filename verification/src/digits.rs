//! Decimal text of integers: formatting (`Display`) and parsing
//! (`i32::from_str`).
use crate::text::{chars_of, string_from_chars};
use vstd::prelude::*;

verus! {

/// The character of decimal digit `d`.
pub open spec fn digit_char(d: nat) -> char {
    (d + 48) as char
}

/// `n` in decimal, without sign or leading zeros.
pub open spec fn decimal(n: nat) -> Seq<char>
    decreases n,
{
    if n < 10 {
        seq![digit_char(n)]
    } else {
        decimal(n / 10).push(digit_char(n % 10))
    }
}

/// An ASCII decimal digit.
pub open spec fn is_digit(c: char) -> bool {
    '0' <= c && c <= '9'
}

/// Every character of `s` is a decimal digit.
pub open spec fn all_digits(s: Seq<char>) -> bool {
    forall|i: int| 0 <= i < s.len() ==> is_digit(#[trigger] s[i])
}

/// The number the digits `s` stand for.
pub open spec fn digits_value(s: Seq<char>) -> nat
    decreases s.len(),
{
    if s.len() == 0 {
        0
    } else {
        digits_value(s.drop_last()) * 10 + ((s.last() as int) - 48) as nat
    }
}

/// `s` without its sign character, if it starts with `+` or `-`.
pub open spec fn unsigned_part(s: Seq<char>) -> Seq<char> {
    if s.len() > 0 && (s[0] == '+' || s[0] == '-') {
        s.drop_first()
    } else {
        s
    }
}

/// `i32::from_str`: an optional `+` or `-`, then one or more decimal
/// digits, whose value fits an `i32`.
pub open spec fn parsed_i32(s: Seq<char>) -> Option<i32> {
    let body = unsigned_part(s);
    let v = digits_value(body);
    if body.len() == 0 || !all_digits(body) {
        None
    } else if s[0] == '-' {
        if v <= 2147483648 {
            Some((0 - v) as i32)
        } else {
            None
        }
    } else if v <= 2147483647 {
        Some(v as i32)
    } else {
        None
    }
}

fn digit_to_char(d: u64) -> (c: char)
    requires
        d < 10,
    ensures
        c == digit_char(d as nat),
{
    match d {
        0 => '0',
        1 => '1',
        2 => '2',
        3 => '3',
        4 => '4',
        5 => '5',
        6 => '6',
        7 => '7',
        8 => '8',
        _ => '9',
    }
}

/// `n.to_string()` for an unsigned integer.
pub fn decimal_string(n: u64) -> (r: String)
    ensures
        r@ == decimal(n as nat),
{
    let mut out: Vec<char> = Vec::new();
    let mut m: u64 = n;
    while m >= 10
        invariant
            decimal(n as nat) == decimal(m as nat) + out@,
        decreases m,
    {
        let c = digit_to_char(m % 10);
        let ghost old_out = out@;
        out.insert(0, c);
        assert(decimal((m / 10) as nat).push(digit_char((m % 10) as nat)) + old_out =~= decimal(
            (m / 10) as nat,
        ) + out@);
        m = m / 10;
    }
    let c = digit_to_char(m);
    out.insert(0, c);
    string_from_chars(&out)
}

/// `n` in decimal, with a leading `-` when negative (`i32` `Display`).
pub open spec fn decimal_i32(n: i32) -> Seq<char> {
    if n < 0 {
        seq!['-'] + decimal((0 - n) as nat)
    } else {
        decimal(n as nat)
    }
}

/// `n.to_string()` for an `i32`.
pub fn signed_decimal_string(n: i32) -> (r: String)
    ensures
        r@ == decimal_i32(n),
{
    if n < 0 {
        let magnitude = (0 - (n as i64)) as u64;
        let digits = chars_of(decimal_string(magnitude).as_str());
        let mut out: Vec<char> = vec!['-'];
        let mut k: usize = 0;
        while k < digits.len()
            invariant
                k <= digits.len(),
                out@ == seq!['-'] + digits@.take(k as int),
            decreases digits.len() - k,
        {
            out.push(digits[k]);
            k += 1;
        }
        string_from_chars(&out)
    } else {
        decimal_string(n as u64)
    }
}

proof fn lemma_digits_value_grows(s: Seq<char>, c: char)
    requires
        is_digit(c),
    ensures
        digits_value(s.push(c)) == digits_value(s) * 10 + ((c as int) - 48),
        digits_value(s.push(c)) >= digits_value(s),
{
    assert(s.push(c).drop_last() =~= s);
}

/// `s.parse::<i32>()`, with `None` for every error.
pub fn parse_i32(s: &str) -> (r: Option<i32>)
    ensures
        r == parsed_i32(s@),
{
    let v = chars_of(s);
    if v.len() == 0 {
        return None;
    }
    let negative = v[0] == '-';
    let start: usize = if v[0] == '+' || v[0] == '-' {
        1
    } else {
        0
    };
    let ghost body = unsigned_part(v@);
    if start == v.len() {
        return None;
    }
    let mut acc: u64 = 0;
    let mut over = false;
    let mut i: usize = start;
    while i < v.len()
        invariant
            start <= i <= v.len(),
            v@ == s@,
            start == 0 || start == 1,
            start == 1 <==> (v@[0] == '+' || v@[0] == '-'),
            negative == (v@[0] == '-'),
            v.len() > 0,
            body == v@.skip(start as int),
            body == unsigned_part(s@),
            all_digits(v@.subrange(start as int, i as int)),
            !over ==> acc == digits_value(v@.subrange(start as int, i as int)) && acc
                <= 2147483648,
            over ==> digits_value(v@.subrange(start as int, i as int)) > 2147483648,
        decreases v.len() - i,
    {
        let c = v[i];
        let ghost p = v@.subrange(start as int, i as int);
        assert(v@.subrange(start as int, i + 1) =~= p.push(c));
        if !('0' <= c && c <= '9') {
            assert(body[i - start] == c);
            return None;
        }
        proof {
            lemma_digits_value_grows(p, c);
        }
        if !over {
            acc = acc * 10 + ((c as u32) - 48) as u64;
            if acc > 2147483648 {
                over = true;
            }
        }
        i += 1;
    }
    if over {
        return None;
    }
    if negative {
        Some((0 - (acc as i64)) as i32)
    } else if acc <= 2147483647 {
        Some(acc as i32)
    } else {
        None
    }
}

/// The decimal text of `n` is non-empty, unsigned, all digits, and stands for `n`.
pub proof fn lemma_decimal_digits(n: nat)
    ensures
        decimal(n).len() > 0,
        all_digits(decimal(n)),
        digits_value(decimal(n)) == n,
        decimal(n)[0] != '+' && decimal(n)[0] != '-',
    decreases n,
{
    if n >= 10 {
        lemma_decimal_digits(n / 10);
        let d = decimal(n / 10);
        assert(decimal(n).drop_last() =~= d);
        assert forall|i: int| 0 <= i < decimal(n).len() implies is_digit(
            #[trigger] decimal(n)[i],
        ) by {
        }
        let k = n % 10;
    } else {
        assert(decimal(n).drop_last() =~= Seq::<char>::empty());
        assert(digits_value(Seq::<char>::empty()) == 0);
    }
}

/// Parsing the decimal text of a number that fits an `i32` gives the
/// number back.
pub proof fn lemma_parse_decimal_roundtrip(n: nat)
    requires
        n <= 2147483647,
    ensures
        parsed_i32(decimal(n)) == Some(n as i32),
{
    lemma_decimal_digits(n);
}

} // verus!
