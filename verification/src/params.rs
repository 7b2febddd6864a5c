//! The numeric parameters of a control sequence: decimal fields divided by
//! separators.

use vstd::prelude::*;
use crate::chars::{
    char_digit_value, char_is_digit, decimal, digit_char, digit_value, is_digit,
    lemma_digit_value,
};

verus! {

/// Whether `c` divides two parameters. A semicolon always does; a colon does
/// where `colon` is set.
pub open spec fn is_separator(c: char, colon: bool) -> bool {
    c == ';' || (colon && c == ':')
}

/// Whether `c` belongs to the parameter part of a sequence.
pub open spec fn is_param_char(c: char, colon: bool) -> bool {
    is_digit(c) || is_separator(c, colon)
}

/// A parameter value with one more decimal digit appended. Values that no
/// longer fit stay at `usize::MAX`.
pub open spec fn append_digit(value: usize, digit: nat) -> usize {
    if value * 10 + digit > usize::MAX {
        usize::MAX
    } else {
        (value * 10 + digit) as usize
    }
}

/// The parameter list spelled by a run of digits and separators. The run is
/// cut into fields at its separators, and a field without digits counts as 0;
/// the empty run has no parameters.
pub open spec fn params_of(run: Seq<char>) -> Seq<usize>
    decreases run.len(),
{
    if run.len() == 0 {
        Seq::empty()
    } else {
        let before = params_of(run.drop_last());
        let opened = if before.len() == 0 {
            seq![0usize]
        } else {
            before
        };
        if is_digit(run.last()) {
            opened.update(
                opened.len() - 1,
                append_digit(opened.last(), digit_value(run.last())),
            )
        } else {
            opened.push(0usize)
        }
    }
}

/// The end of the parameter part that starts at `from`: the position of the
/// first character there that is neither a digit nor a separator, or the
/// length of `s` where there is none.
pub open spec fn params_end(s: Seq<char>, from: int, colon: bool) -> int
    decreases s.len() - from,
{
    if from < 0 || from >= s.len() || !is_param_char(s[from], colon) {
        from
    } else {
        params_end(s, from + 1, colon)
    }
}

/// The end of a parameter part lies at or after its start.
pub proof fn lemma_params_end_bounds(s: Seq<char>, from: int, colon: bool)
    requires
        0 <= from <= s.len(),
    ensures
        from <= params_end(s, from, colon) <= s.len(),
    decreases s.len() - from,
{
    if from < s.len() && is_param_char(s[from], colon) {
        lemma_params_end_bounds(s, from + 1, colon);
    }
}

/// Tells whether `c` divides two parameters.
pub fn char_is_separator(c: char, colon: bool) -> (r: bool)
    ensures
        r == is_separator(c, colon),
{
    c == ';' || (colon && c == ':')
}

/// Reads the parameter part of `s` that starts at `from`. Returns the
/// parameters and the position where the part ends.
pub fn scan_params(s: &Vec<char>, from: usize, colon: bool) -> (r: (Vec<usize>, usize))
    requires
        from <= s.len(),
    ensures
        r.1 == params_end(s@, from as int, colon),
        from <= r.1 <= s.len(),
        r.0@ == params_of(s@.subrange(from as int, r.1 as int)),
{
    let mut numbers: Vec<usize> = Vec::new();
    let mut i: usize = from;
    proof {
        assert(s@.subrange(from as int, from as int) =~= Seq::<char>::empty());
    }
    while i < s.len() && (char_is_digit(s[i]) || char_is_separator(s[i], colon))
        invariant
            from <= i <= s.len(),
            params_end(s@, from as int, colon) == params_end(s@, i as int, colon),
            numbers@ == params_of(s@.subrange(from as int, i as int)),
        decreases s.len() - i,
    {
        let c = s[i];
        proof {
            let run = s@.subrange(from as int, i as int + 1);
            assert(run.drop_last() =~= s@.subrange(from as int, i as int));
            assert(run.last() == c);
        }
        if numbers.len() == 0 {
            numbers.push(0);
        }
        if char_is_digit(c) {
            let last = numbers.len() - 1;
            let d = char_digit_value(c);
            let value = numbers[last];
            let next = if value > (usize::MAX - d) / 10 {
                usize::MAX
            } else {
                value * 10 + d
            };
            proof {
                assert(next == append_digit(value, d as nat)) by (nonlinear_arith)
                    requires
                        d < 10,
                        next == if value > (usize::MAX - d) / 10 {
                            usize::MAX
                        } else {
                            (value * 10 + d) as usize
                        },
                ;
            }
            numbers.set(last, next);
        } else {
            numbers.push(0);
        }
        i += 1;
    }
    (numbers, i)
}

/// The parameters of a run that a separator follows: those of the run, and
/// a new one that is 0.
pub proof fn lemma_params_after_separator(run: Seq<char>, separator: char)
    requires
        !is_digit(separator),
    ensures
        params_of(run.push(separator)) == (if params_of(run).len() == 0 {
            seq![0usize, 0usize]
        } else {
            params_of(run).push(0usize)
        }),
{
    assert(run.push(separator).drop_last() =~= run);
    assert(seq![0usize].push(0usize) =~= seq![0usize, 0usize]);
}

/// The parameters of a run that a decimal numeral follows, where the run
/// is empty or has just opened a parameter: the numeral gives the value of
/// the last parameter.
pub proof fn lemma_params_after_decimal(run: Seq<char>, n: nat)
    requires
        n <= usize::MAX,
        params_of(run).len() == 0 || params_of(run).last() == 0,
    ensures
        params_of(run + decimal(n)) == (if params_of(run).len() == 0 {
            seq![n as usize]
        } else {
            params_of(run).drop_last().push(n as usize)
        }),
    decreases n,
{
    let before = params_of(run);
    if n < 10 {
        lemma_digit_value(n);
        assert(run + decimal(n) =~= run.push(digit_char(n)));
        assert(run.push(digit_char(n)).drop_last() =~= run);
        if before.len() == 0 {
            assert(seq![0usize].update(0, n as usize) =~= seq![n as usize]);
        } else {
            assert(before.update(before.len() - 1, n as usize) =~= before.drop_last().push(
                n as usize,
            ));
        }
    } else {
        lemma_params_after_decimal(run, n / 10);
        lemma_digit_value(n % 10);
        let shorter = run + decimal(n / 10);
        let digit = digit_char(n % 10);
        assert(run + decimal(n) =~= shorter.push(digit));
        assert(shorter.push(digit).drop_last() =~= shorter);
        let mid = params_of(shorter);
        assert(mid.last() == (n / 10) as usize);
        assert(append_digit((n / 10) as usize, n % 10) == n as usize);
        if before.len() == 0 {
            assert(mid.update(mid.len() - 1, n as usize) =~= seq![n as usize]);
        } else {
            assert(mid.update(mid.len() - 1, n as usize) =~= before.drop_last().push(n as usize));
        }
    }
}

/// The parameter part that starts at `from` ends at `to`, where all that
/// stands between them belongs to it and what stands at `to` does not.
pub proof fn lemma_params_end_at(s: Seq<char>, from: int, to: int, colon: bool)
    requires
        0 <= from <= to <= s.len(),
        forall|i: int| from <= i < to ==> is_param_char(#[trigger] s[i], colon),
        to == s.len() || !is_param_char(s[to], colon),
    ensures
        params_end(s, from, colon) == to,
    decreases to - from,
{
    if from < to {
        lemma_params_end_at(s, from + 1, to, colon);
    }
}

} // verus!
