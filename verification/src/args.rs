//! Command lines: cutting one into arguments, and writing arguments back as
//! one line.

use vstd::prelude::*;
use crate::chars::{from_chars, to_chars, views};

verus! {

/// The arguments of a command line.
pub struct Args {
    pub args: Vec<String>,
}

/// Where the cutting of a command line stands after some of its characters:
/// the arguments that are complete, the argument being read, whether a
/// quotation is open, and whether the last character was an unescaped
/// backslash.
pub ghost struct Cutting {
    pub args: Seq<Seq<char>>,
    pub arg: Seq<char>,
    pub in_quote: bool,
    pub escaped: bool,
}

/// The state after one more character. After a backslash the character is
/// taken as it is. Otherwise a backslash escapes the next character, a
/// double quote opens or closes a quotation, a space outside a quotation
/// ends the argument being read if it is not empty, and any other character
/// is added to the argument.
pub open spec fn cut_step(state: Cutting, c: char) -> Cutting {
    if state.escaped {
        Cutting { arg: state.arg.push(c), escaped: false, ..state }
    } else if c == '\\' {
        Cutting { escaped: true, ..state }
    } else if c == '"' {
        Cutting { in_quote: !state.in_quote, ..state }
    } else if c == ' ' && !state.in_quote {
        if state.arg.len() > 0 {
            Cutting { args: state.args.push(state.arg), arg: Seq::empty(), ..state }
        } else {
            state
        }
    } else {
        Cutting { arg: state.arg.push(c), ..state }
    }
}

/// The state after the first `n` characters of `s`.
pub open spec fn cut_prefix(s: Seq<char>, n: int) -> Cutting
    decreases n,
{
    if n <= 0 {
        Cutting { args: Seq::empty(), arg: Seq::empty(), in_quote: false, escaped: false }
    } else {
        cut_step(cut_prefix(s, n - 1), s[n - 1])
    }
}

/// The arguments of the command line `s`: those complete at its end, and
/// the one being read there if it is not empty.
pub open spec fn cut_args(s: Seq<char>) -> Seq<Seq<char>> {
    let state = cut_prefix(s, s.len() as int);
    if state.arg.len() > 0 {
        state.args.push(state.arg)
    } else {
        state.args
    }
}

/// The arguments of the command line `s`, with an empty argument at the end
/// where `s` ends in a space.
pub open spec fn cut_args_notrim(s: Seq<char>) -> Seq<Seq<char>> {
    if s.len() > 0 && s.last() == ' ' {
        cut_args(s).push(Seq::empty())
    } else {
        cut_args(s)
    }
}

/// The argument with a backslash before each double quote.
pub open spec fn quote_escaped(arg: Seq<char>) -> Seq<char>
    decreases arg.len(),
{
    if arg.len() == 0 {
        Seq::empty()
    } else if arg.last() == '"' {
        quote_escaped(arg.drop_last()) + seq!['\\', '"']
    } else {
        quote_escaped(arg.drop_last()).push(arg.last())
    }
}

/// The argument as it is written in a command line: its double quotes
/// escaped, and the whole in double quotes where it holds a space.
pub open spec fn printable_arg(arg: Seq<char>) -> Seq<char> {
    if arg.contains(' ') {
        seq!['"'] + quote_escaped(arg) + seq!['"']
    } else {
        quote_escaped(arg)
    }
}

/// The first `n` arguments as written, each followed by a space.
pub open spec fn printable_prefix(args: Seq<Seq<char>>, n: int) -> Seq<char>
    decreases n,
{
    if n <= 0 {
        Seq::empty()
    } else {
        printable_prefix(args, n - 1) + printable_arg(args[n - 1]) + seq![' ']
    }
}

/// The arguments as one command line: each as written, with one space
/// between two of them.
pub open spec fn printable_line(args: Seq<Seq<char>>) -> Seq<char> {
    if args.len() == 0 {
        Seq::empty()
    } else {
        printable_prefix(args, args.len() as int).drop_last()
    }
}

impl Args {
    /// The arguments as character sequences.
    pub open spec fn words(&self) -> Seq<Seq<char>> {
        views(self.args@)
    }

    /// Cuts the command line `s` into its arguments.
    pub fn new(s: &str) -> (r: Args)
        ensures
            r.words() == cut_args(s@),
    {
        let chars = to_chars(s);
        let mut args: Vec<String> = Vec::new();
        let mut arg: Vec<char> = Vec::new();
        let mut in_quote = false;
        let mut escaped = false;
        let mut i: usize = 0;
        while i < chars.len()
            invariant
                i <= chars.len(),
                chars@ == s@,
                cut_prefix(s@, i as int).args =~= views(args@),
                cut_prefix(s@, i as int).arg =~= arg@,
                cut_prefix(s@, i as int).in_quote == in_quote,
                cut_prefix(s@, i as int).escaped == escaped,
            decreases chars.len() - i,
        {
            let c = chars[i];
            if escaped {
                arg.push(c);
                escaped = false;
            } else if c == '\\' {
                escaped = true;
            } else if c == '"' {
                in_quote = !in_quote;
            } else if c == ' ' && !in_quote {
                if arg.len() > 0 {
                    let ghost before = views(args@);
                    args.push(from_chars(&arg));
                    proof {
                        assert(views(args@) =~= before.push(arg@));
                    }
                    arg = Vec::new();
                }
            } else {
                arg.push(c);
            }
            i += 1;
        }
        if arg.len() > 0 {
            let ghost before = views(args@);
            args.push(from_chars(&arg));
            proof {
                assert(views(args@) =~= before.push(arg@));
            }
        }
        Args { args }
    }

    /// Cuts the command line `s` into its arguments, and adds an empty one
    /// where `s` ends in a space.
    pub fn new_notrim(s: &str) -> (r: Args)
        ensures
            r.words() == cut_args_notrim(s@),
    {
        let mut args = Args::new(s);
        let chars = to_chars(s);
        if chars.len() > 0 && chars[chars.len() - 1] == ' ' {
            let ghost before = views(args.args@);
            args.args.push(String::new());
            proof {
                assert(views(args.args@) =~= before.push(Seq::<char>::empty()));
            }
        }
        args
    }

    /// The arguments given.
    pub fn from_vec(args: Vec<String>) -> (r: Args)
        ensures
            r.args == args,
    {
        Args { args }
    }

    /// The arguments as one command line.
    pub fn printable(&self) -> (line: String)
        ensures
            line@ == printable_line(self.words()),
    {
        let mut out: Vec<char> = Vec::new();
        let mut i: usize = 0;
        while i < self.args.len()
            invariant
                i <= self.args.len(),
                out@ == printable_prefix(self.words(), i as int),
            decreases self.args.len() - i,
        {
            let arg = to_chars(self.args[i].as_str());
            let mut escaped: Vec<char> = Vec::new();
            let mut has_space = false;
            let mut k: usize = 0;
            while k < arg.len()
                invariant
                    k <= arg.len(),
                    escaped@ == quote_escaped(arg@.take(k as int)),
                    has_space == arg@.take(k as int).contains(' '),
                decreases arg.len() - k,
            {
                let c = arg[k];
                proof {
                    let longer = arg@.take(k as int + 1);
                    assert(longer.drop_last() =~= arg@.take(k as int));
                    assert(longer.last() == c);
                    if arg@.take(k as int).contains(' ') {
                        let j = choose|j: int|
                            0 <= j < k && arg@.take(k as int)[j] == ' ';
                        assert(longer[j] == ' ');
                    }
                    if longer.contains(' ') && c != ' ' {
                        let j = choose|j: int| 0 <= j < k + 1 && longer[j] == ' ';
                        assert(arg@.take(k as int)[j] == ' ');
                    }
                    if c == ' ' {
                        assert(longer[k as int] == ' ');
                    }
                }
                if c == '"' {
                    escaped.push('\\');
                }
                escaped.push(c);
                if c == ' ' {
                    has_space = true;
                }
                proof {
                    assert(escaped@ =~= quote_escaped(arg@.take(k as int + 1)));
                }
                k += 1;
            }
            proof {
                assert(arg@.take(arg@.len() as int) =~= arg@);
            }
            let ghost before = out@;
            if has_space {
                out.push('"');
                out.append(&mut escaped);
                out.push('"');
            } else {
                out.append(&mut escaped);
            }
            out.push(' ');
            proof {
                assert(self.words()[i as int] == arg@);
                assert(out@ =~= before + printable_arg(arg@) + seq![' ']);
            }
            i += 1;
        }
        if out.len() > 0 {
            out.pop();
        }
        proof {
            if self.args.len() == 0 {
                assert(self.words().len() == 0);
            } else {
                assert(printable_prefix(self.words(), self.args.len() as int).len() > 0);
                assert(out@ =~= printable_prefix(
                    self.words(),
                    self.args.len() as int,
                ).drop_last());
            }
        }
        from_chars(&out)
    }
}

} // verus!
