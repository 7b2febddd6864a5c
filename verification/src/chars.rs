//! Conversions between strings and character vectors, and decimal numerals.

use vstd::prelude::*;

verus! {

/// `String::push` appends one character to the string.
pub assume_specification[ String::push ](s: &mut String, ch: char)
    ensures
        final(s)@ == old(s)@.push(ch),
;

/// The characters of a string, in order.
pub fn to_chars(s: &str) -> (out: Vec<char>)
    ensures
        out@ == s@,
{
    let mut out: Vec<char> = Vec::new();
    for c in it: s.chars()
        invariant
            out@ == it.seq().take(it.index()),
    {
        out.push(c);
    }
    out
}

/// The string made of the given characters, in order.
pub fn from_chars(chars: &Vec<char>) -> (out: String)
    ensures
        out@ == chars@,
{
    let mut out = String::new();
    let mut i: usize = 0;
    while i < chars.len()
        invariant
            i <= chars.len(),
            out@ == chars@.take(i as int),
        decreases chars.len() - i,
    {
        out.push(chars[i]);
        i += 1;
    }
    out
}

/// Whether `c` is one of the ASCII digits `0` to `9`.
pub open spec fn is_digit(c: char) -> bool {
    '0' <= c <= '9'
}

/// The value of an ASCII digit.
pub open spec fn digit_value(c: char) -> nat
    recommends
        is_digit(c),
{
    (c as u32 - '0' as u32) as nat
}

/// The ASCII digit that stands for `d`.
pub open spec fn digit_char(d: nat) -> char
    recommends
        d < 10,
{
    ('0' as u8 + d as u8) as char
}

/// The decimal numeral of `n`, without leading zeros.
pub open spec fn decimal(n: nat) -> Seq<char>
    decreases n,
{
    if n < 10 {
        seq![digit_char(n)]
    } else {
        decimal(n / 10).push(digit_char(n % 10))
    }
}

/// Tells whether `c` is an ASCII digit.
pub fn char_is_digit(c: char) -> (r: bool)
    ensures
        r == is_digit(c),
{
    '0' <= c && c <= '9'
}

/// The value of the ASCII digit `c`.
pub fn char_digit_value(c: char) -> (r: usize)
    requires
        is_digit(c),
    ensures
        r == digit_value(c),
        r < 10,
{
    (c as u32 - '0' as u32) as usize
}

/// Appends the ASCII digit that stands for `d` to `out`.
pub fn push_digit(out: &mut Vec<char>, d: u8)
    requires
        d < 10,
    ensures
        final(out)@ == old(out)@.push(digit_char(d as nat)),
{
    proof {
        assert('0' as u8 == 48u8);
    }
    out.push((48u8 + d) as char);
}

/// Appends the decimal numeral of `n` to `out`.
pub fn push_decimal(out: &mut Vec<char>, n: u64)
    ensures
        final(out)@ == old(out)@ + decimal(n as nat),
    decreases n,
{
    if n >= 10 {
        push_decimal(out, n / 10);
    }
    push_digit(out, (n % 10) as u8);
    proof {
        assert(out@ =~= old(out)@ + decimal(n as nat));
    }
}

/// The character sequences that a list of strings holds.
pub open spec fn views(strings: Seq<String>) -> Seq<Seq<char>> {
    Seq::new(strings.len(), |i: int| strings[i]@)
}

/// A copy of the strings.
pub fn clone_strings(strings: &Vec<String>) -> (copy: Vec<String>)
    ensures
        copy@ == strings@,
{
    let mut copy: Vec<String> = Vec::new();
    let mut i: usize = 0;
    while i < strings.len()
        invariant
            i <= strings.len(),
            copy@ == strings@.take(i as int),
        decreases strings.len() - i,
    {
        copy.push(strings[i].clone());
        proof {
            assert(copy@ =~= strings@.take(i as int + 1));
        }
        i += 1;
    }
    proof {
        assert(strings@.take(strings@.len() as int) =~= strings@);
    }
    copy
}

/// The decimal numeral of a whole number: that of its magnitude, after a
/// minus sign where it is negative.
pub open spec fn signed_decimal(n: int) -> Seq<char> {
    if n < 0 {
        seq!['-'] + decimal((-n) as nat)
    } else {
        decimal(n as nat)
    }
}

/// Appends the decimal numeral of `n` to `out`.
pub fn push_signed(out: &mut Vec<char>, n: i64)
    ensures
        final(out)@ == old(out)@ + signed_decimal(n as int),
{
    if n < 0 {
        out.push('-');
        let magnitude: u64 = if n == i64::MIN {
            9223372036854775808u64
        } else {
            (-n) as u64
        };
        push_decimal(out, magnitude);
        proof {
            assert(out@ =~= old(out)@ + signed_decimal(n as int));
        }
    } else {
        push_decimal(out, n as u64);
    }
}

/// Appends the characters of `s` to `out`.
pub fn push_str(out: &mut Vec<char>, s: &str)
    ensures
        final(out)@ == old(out)@ + s@,
{
    let mut chars = to_chars(s);
    out.append(&mut chars);
}

/// `count` spaces.
pub open spec fn spaces(count: nat) -> Seq<char> {
    Seq::new(count, |i: int| ' ')
}

/// Appends `count` spaces to `out`.
pub fn push_spaces(out: &mut Vec<char>, count: usize)
    ensures
        final(out)@ == old(out)@ + spaces(count as nat),
{
    let mut k: usize = 0;
    while k < count
        invariant
            k <= count,
            out@ == old(out)@ + spaces(k as nat),
        decreases count - k,
    {
        out.push(' ');
        proof {
            assert(out@ =~= old(out)@ + spaces((k + 1) as nat));
        }
        k += 1;
    }
    proof {
        assert(out@ =~= old(out)@ + spaces(count as nat));
    }
}

/// A decimal numeral is not empty and holds digits only.
pub proof fn lemma_decimal_digits(n: nat)
    ensures
        decimal(n).len() >= 1,
        forall|i: int| 0 <= i < decimal(n).len() ==> is_digit(#[trigger] decimal(n)[i]),
    decreases n,
{
    if n >= 10 {
        lemma_decimal_digits(n / 10);
    }
}

/// The digit that stands for a value below ten has that value.
pub proof fn lemma_digit_value(d: nat)
    requires
        d < 10,
    ensures
        is_digit(digit_char(d)),
        digit_value(digit_char(d)) == d,
{
}

} // verus!
