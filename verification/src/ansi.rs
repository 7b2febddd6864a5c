//! The decoder for control sequences: from a run of characters that starts
//! with the escape marker to the commands it spells.

use vstd::prelude::*;
use crate::chars::to_chars;
use crate::color::{sgr_tokens, AnsiColor, ColorType, ESC};
use crate::params::{lemma_params_end_bounds, params_end, params_of, scan_params};

verus! {

/// One decoded command.
#[derive(Clone, Copy, Debug, PartialEq, Eq, Structural)]
pub enum AnsiCode {
    /// The character that followed the marker where it was not `[`.
    Char(char),
    CursorUp(usize),
    CursorDown(usize),
    CursorLeft(usize),
    CursorRight(usize),
    CursorColumn(usize),
    CursorRow(usize),
    ClearToEndOfLine,
    ClearToStartOfLine,
    ClearLine,
    ClearScrollback,
    ScrollUp(usize),
    ScrollDown(usize),
    Color(ColorType),
}

/// The commands of a decoded run and the number of characters they took.
pub struct AnsiWrap {
    pub codes: Vec<AnsiCode>,
    pub char_count: usize,
}

/// The decoder. It holds no state between calls.
pub struct Ansi {}

/// The first parameter, or `default` where there is none.
pub open spec fn first_param(p: Seq<usize>, default: usize) -> usize {
    if p.len() > 0 {
        p[0]
    } else {
        default
    }
}

/// The commands of an erase sequence. Without a parameter or with 0 the line
/// is cleared to its end, with 1 to its start, with 2 entirely; 3 clears the
/// scrollback where `scrollback` allows it. Any other parameter gives nothing.
pub open spec fn erase_commands(p: Seq<usize>, scrollback: bool) -> Seq<AnsiCode> {
    if p.len() == 0 || p[0] == 0 {
        seq![AnsiCode::ClearToEndOfLine]
    } else if p[0] == 1 {
        seq![AnsiCode::ClearToStartOfLine]
    } else if p[0] == 2 {
        seq![AnsiCode::ClearLine]
    } else if p[0] == 3 && scrollback {
        seq![AnsiCode::ClearScrollback]
    } else {
        Seq::empty()
    }
}

/// The colour operations as commands.
pub open spec fn color_commands(tokens: Seq<ColorType>) -> Seq<AnsiCode> {
    Seq::new(tokens.len(), |i: int| AnsiCode::Color(tokens[i]))
}

/// The commands of one sequence, given its final character and its
/// parameters. A final character outside the table gives no command.
pub open spec fn sequence_commands(final_byte: char, p: Seq<usize>) -> Seq<AnsiCode> {
    if final_byte == 'A' {
        seq![AnsiCode::CursorUp(first_param(p, 1))]
    } else if final_byte == 'B' || final_byte == 'E' {
        seq![AnsiCode::CursorDown(first_param(p, 1))]
    } else if final_byte == 'C' {
        seq![AnsiCode::CursorRight(first_param(p, 1))]
    } else if final_byte == 'D' || final_byte == 'F' {
        seq![AnsiCode::CursorLeft(first_param(p, 1))]
    } else if final_byte == 'G' {
        seq![AnsiCode::CursorColumn(first_param(p, 1))]
    } else if final_byte == 'H' {
        seq![AnsiCode::CursorRow(first_param(p, 1))]
    } else if final_byte == 'J' {
        erase_commands(p, true)
    } else if final_byte == 'K' {
        erase_commands(p, false)
    } else if final_byte == 'S' {
        seq![AnsiCode::ScrollUp(first_param(p, 1))]
    } else if final_byte == 'T' {
        seq![AnsiCode::ScrollDown(first_param(p, 1))]
    } else if final_byte == 'm' {
        if p.len() == 0 {
            seq![AnsiCode::Color(ColorType::Reset)]
        } else {
            color_commands(sgr_tokens(p, 0))
        }
    } else {
        Seq::empty()
    }
}

/// What decoding `s` from position `from` gives: the position where decoding
/// stops and the commands read up to there.
///
/// Decoding stops at once, with no command, where the character at `from` is
/// not the escape marker. After the marker, a character other than `[` is
/// handed back as a literal and ends decoding. After `[` come the parameters
/// and one final character, which together give the commands of the
/// sequence; decoding then goes on behind the final character. A sequence
/// that the text cuts short is taken to the end of the text and gives no
/// command.
pub open spec fn decode_at(s: Seq<char>, from: int) -> (int, Seq<AnsiCode>)
    decreases s.len() - from,
    via decode_at_decreases
{
    if from < 0 || from >= s.len() || s[from] != '\x1b' {
        (from, Seq::empty())
    } else if from + 1 >= s.len() {
        (from + 1, Seq::empty())
    } else if s[from + 1] != '[' {
        (from + 2, seq![AnsiCode::Char(s[from + 1])])
    } else {
        let end = params_end(s, from + 2, true);
        if end >= s.len() {
            (s.len() as int, Seq::empty())
        } else {
            let rest = decode_at(s, end + 1);
            (rest.0, sequence_commands(s[end], params_of(s.subrange(from + 2, end))) + rest.1)
        }
    }
}

#[via_fn]
proof fn decode_at_decreases(s: Seq<char>, from: int) {
    if 0 <= from && from + 1 < s.len() {
        lemma_params_end_bounds(s, from + 2, true);
    }
}

/// Decoding never goes beyond the text, and takes at least the escape
/// marker where it starts on one.
pub proof fn lemma_decode_end_bounds(s: Seq<char>, from: int)
    requires
        0 <= from <= s.len(),
    ensures
        from <= decode_at(s, from).0 <= s.len(),
        from < s.len() && s[from] == '\x1b' ==> decode_at(s, from).0 > from,
    decreases s.len() - from,
{
    if from < s.len() && s[from] == '\x1b' && from + 1 < s.len() && s[from + 1] == '[' {
        lemma_params_end_bounds(s, from + 2, true);
        let end = params_end(s, from + 2, true);
        if end < s.len() {
            lemma_decode_end_bounds(s, end + 1);
        }
    }
}

/// The first parameter, or `default` where there is none.
fn first_or(params: &Vec<usize>, default: usize) -> (value: usize)
    ensures
        value == first_param(params@, default),
{
    if params.len() > 0 {
        params[0]
    } else {
        default
    }
}

/// Appends the literal that stands for a character after the marker.
fn push_literal(codes: &mut Vec<AnsiCode>, c: char)
    ensures
        final(codes)@ == old(codes)@ + seq![AnsiCode::Char(c)],
{
    codes.push(AnsiCode::Char(c));
    proof {
        assert(codes@ =~= old(codes)@ + seq![AnsiCode::Char(c)]);
    }
}

/// Appends the commands of an erase sequence.
fn push_erase(codes: &mut Vec<AnsiCode>, params: &Vec<usize>, scrollback: bool)
    ensures
        final(codes)@ == old(codes)@ + erase_commands(params@, scrollback),
{
    if params.len() == 0 || params[0] == 0 {
        codes.push(AnsiCode::ClearToEndOfLine);
    } else if params[0] == 1 {
        codes.push(AnsiCode::ClearToStartOfLine);
    } else if params[0] == 2 {
        codes.push(AnsiCode::ClearLine);
    } else if params[0] == 3 && scrollback {
        codes.push(AnsiCode::ClearScrollback);
    }
    proof {
        assert(codes@ =~= old(codes)@ + erase_commands(params@, scrollback));
    }
}

/// Appends the colour operations as commands.
fn push_colors(codes: &mut Vec<AnsiCode>, tokens: &Vec<ColorType>)
    ensures
        final(codes)@ == old(codes)@ + color_commands(tokens@),
{
    let mut k: usize = 0;
    while k < tokens.len()
        invariant
            k <= tokens.len(),
            codes@ == old(codes)@ + color_commands(tokens@.take(k as int)),
        decreases tokens.len() - k,
    {
        codes.push(AnsiCode::Color(tokens[k]));
        proof {
            assert(codes@ =~= old(codes)@ + color_commands(tokens@.take(k as int + 1)));
        }
        k += 1;
    }
    proof {
        assert(tokens@.take(tokens.len() as int) =~= tokens@);
        assert(codes@ =~= old(codes)@ + color_commands(tokens@));
    }
}

/// Appends the commands of one sequence.
fn push_sequence(
    colors: &AnsiColor,
    codes: &mut Vec<AnsiCode>,
    final_byte: char,
    params: &Vec<usize>,
)
    ensures
        final(codes)@ == old(codes)@ + sequence_commands(final_byte, params@),
{
    if final_byte == 'A' {
        codes.push(AnsiCode::CursorUp(first_or(params, 1)));
    } else if final_byte == 'B' || final_byte == 'E' {
        codes.push(AnsiCode::CursorDown(first_or(params, 1)));
    } else if final_byte == 'C' {
        codes.push(AnsiCode::CursorRight(first_or(params, 1)));
    } else if final_byte == 'D' || final_byte == 'F' {
        codes.push(AnsiCode::CursorLeft(first_or(params, 1)));
    } else if final_byte == 'G' {
        codes.push(AnsiCode::CursorColumn(first_or(params, 1)));
    } else if final_byte == 'H' {
        codes.push(AnsiCode::CursorRow(first_or(params, 1)));
    } else if final_byte == 'J' {
        push_erase(codes, params, true);
    } else if final_byte == 'K' {
        push_erase(codes, params, false);
    } else if final_byte == 'S' {
        codes.push(AnsiCode::ScrollUp(first_or(params, 1)));
    } else if final_byte == 'T' {
        codes.push(AnsiCode::ScrollDown(first_or(params, 1)));
    } else if final_byte == 'm' {
        if params.len() == 0 {
            codes.push(AnsiCode::Color(ColorType::Reset));
        } else {
            let tokens = colors.tokens(params);
            push_colors(codes, &tokens);
        }
    }
    proof {
        assert(codes@ =~= old(codes)@ + sequence_commands(final_byte, params@));
    }
}

impl Ansi {
    /// Decodes the control sequences of `chars` that start at position
    /// `from`. Returns the commands and the number of characters decoded.
    pub fn parse_at(colors: &AnsiColor, chars: &Vec<char>, from: usize) -> (wrap: AnsiWrap)
        requires
            from <= chars.len(),
        ensures
            wrap.char_count == decode_at(chars@, from as int).0 - from,
            wrap.codes@ == decode_at(chars@, from as int).1,
            from + wrap.char_count <= chars.len(),
            from < chars.len() && chars@[from as int] == ESC ==> wrap.char_count >= 1,
            from == chars.len() || chars@[from as int] != ESC ==> wrap.char_count == 0
                && wrap.codes@.len() == 0,
    {
        let mut codes: Vec<AnsiCode> = Vec::new();
        let mut pos: usize = from;
        let len = chars.len();
        loop
            invariant_except_break
                from <= pos <= len,
                len == chars.len(),
                decode_at(chars@, from as int) == (
                    decode_at(chars@, pos as int).0,
                    codes@ + decode_at(chars@, pos as int).1,
                ),
                pos == from ==> codes@.len() == 0,
                pos > from ==> chars@[from as int] == ESC,
            ensures
                from <= pos <= len,
                decode_at(chars@, from as int) == (pos as int, codes@),
                pos == from ==> codes@.len() == 0 && (from == len || chars@[from as int] != ESC),
                pos > from ==> chars@[from as int] == ESC,
            decreases len - pos,
        {
            if pos >= len || chars[pos] != ESC {
                proof {
                    assert(codes@ + Seq::<AnsiCode>::empty() =~= codes@);
                }
                break ;
            }
            if len - pos < 2 {
                proof {
                    assert(codes@ + Seq::<AnsiCode>::empty() =~= codes@);
                }
                pos += 1;
                break ;
            }
            let introducer = chars[pos + 1];
            if introducer != '[' {
                push_literal(&mut codes, introducer);
                pos += 2;
                break ;
            }
            let (params, end) = scan_params(chars, pos + 2, true);
            if end >= len {
                proof {
                    assert(codes@ + Seq::<AnsiCode>::empty() =~= codes@);
                }
                pos = len;
                break ;
            }
            let ghost before = codes@;
            push_sequence(colors, &mut codes, chars[end], &params);
            proof {
                let here = sequence_commands(chars@[end as int], params@);
                let rest = decode_at(chars@, end as int + 1);
                assert(before + (here + rest.1) =~= (before + here) + rest.1);
            }
            pos = end + 1;
        }
        AnsiWrap { codes, char_count: pos - from }
    }

    /// Decodes the control sequences at the start of `text`. Returns the
    /// commands and the number of characters decoded; both are empty where
    /// `text` does not start with the escape marker.
    pub fn parse(text: &str) -> (wrap: AnsiWrap)
        ensures
            wrap.char_count == decode_at(text@, 0).0,
            wrap.codes@ == decode_at(text@, 0).1,
            wrap.char_count <= text@.len(),
            text@.len() == 0 || text@[0] != ESC ==> wrap.char_count == 0 && wrap.codes@.len() == 0,
    {
        let colors = AnsiColor::new();
        let chars = to_chars(text);
        Self::parse_at(&colors, &chars, 0)
    }
}

/// Decoding a text that does not start with the escape marker takes no
/// character and gives no command.
pub proof fn lemma_decode_without_marker(s: Seq<char>)
    requires
        s.len() == 0 || s[0] != '\x1b',
    ensures
        decode_at(s, 0) == (0int, Seq::<AnsiCode>::empty()),
{
}

/// Decoding from any position at which the escape marker does not stand
/// stops there and gives no command.
pub proof fn lemma_decode_stops_without_marker(s: Seq<char>, from: int)
    requires
        0 <= from <= s.len(),
        from == s.len() || s[from] != '\x1b',
    ensures
        decode_at(s, from) == (from, Seq::<AnsiCode>::empty()),
{
}

} // verus!
