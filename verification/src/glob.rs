//! File-name patterns with `?` and `*`, matched against a list of names.

use vstd::prelude::*;
use crate::chars::{from_chars, to_chars, views};

verus! {

/// A list of names to match patterns against, and the directory they are
/// in.
pub struct Glob {
    pub source: Vec<String>,
    pub parent: String,
}

/// Whether the pattern `p` from position `pi` on matches the name `s` from
/// position `si` on.
///
/// A `?` stands for any one character, and every other character but `*`
/// for itself. A `*` at the end of the pattern matches whatever is left of
/// the name. A `*` before something else needs a character left in the name;
/// it matches where what follows it in the pattern matches the name from
/// here on, or where the `*` matches the name from the next character on.
pub open spec fn matches_at(p: Seq<char>, pi: int, s: Seq<char>, si: int) -> bool
    decreases p.len() - pi, s.len() - si,
{
    if pi < 0 || si < 0 || pi > p.len() || si > s.len() {
        false
    } else if pi == p.len() {
        si == s.len()
    } else if p[pi] == '?' && si < s.len() {
        matches_at(p, pi + 1, s, si + 1)
    } else if p[pi] == '*' {
        pi + 1 == p.len() || (si < s.len() && (matches_at(p, pi + 1, s, si) || matches_at(
            p,
            pi,
            s,
            si + 1,
        )))
    } else {
        si < s.len() && p[pi] == s[si] && matches_at(p, pi + 1, s, si + 1)
    }
}

/// Whether the pattern matches the whole name.
pub open spec fn pattern_matches(pattern: Seq<char>, name: Seq<char>) -> bool {
    matches_at(pattern, 0, name, 0)
}

/// Those of the first `n` names that the pattern matches, in their order.
pub open spec fn matching(names: Seq<Seq<char>>, pattern: Seq<char>, n: int) -> Seq<Seq<char>>
    decreases n,
{
    if n <= 0 {
        Seq::empty()
    } else if pattern_matches(pattern, names[n - 1]) {
        matching(names, pattern, n - 1).push(names[n - 1])
    } else {
        matching(names, pattern, n - 1)
    }
}

/// Tells whether the pattern from `pi` on matches the name from `si` on.
fn chars_match_at(p: &Vec<char>, pi: usize, s: &Vec<char>, si: usize) -> (r: bool)
    requires
        pi <= p.len(),
        si <= s.len(),
    ensures
        r == matches_at(p@, pi as int, s@, si as int),
    decreases p.len() - pi, s.len() - si,
{
    if pi == p.len() {
        si == s.len()
    } else if p[pi] == '?' && si < s.len() {
        chars_match_at(p, pi + 1, s, si + 1)
    } else if p[pi] == '*' {
        if pi + 1 == p.len() {
            return true;
        }
        let mut k: usize = si;
        while k < s.len()
            invariant
                si <= k <= s.len(),
                pi + 1 < p.len(),
                p@[pi as int] == '*',
                matches_at(p@, pi as int, s@, si as int) == matches_at(
                    p@,
                    pi as int,
                    s@,
                    k as int,
                ),
            decreases s.len() - k,
        {
            if chars_match_at(p, pi + 1, s, k) {
                return true;
            }
            k += 1;
        }
        false
    } else {
        si < s.len() && p[pi] == s[si] && chars_match_at(p, pi + 1, s, si + 1)
    }
}

impl Glob {
    /// The names as character sequences.
    pub open spec fn names(&self) -> Seq<Seq<char>> {
        views(self.source@)
    }

    /// The list of the names given, in the directory `parent`.
    pub fn from_vec_string(source: Vec<String>, parent: &str) -> (glob: Glob)
        ensures
            glob.source == source,
            glob.parent@ == parent@,
    {
        Glob { source, parent: parent.to_owned() }
    }

    /// Tells whether the pattern matches the whole of `to_match`.
    pub fn matches(pattern: &str, to_match: &str) -> (r: bool)
        ensures
            r == pattern_matches(pattern@, to_match@),
    {
        let p = to_chars(pattern);
        let s = to_chars(to_match);
        chars_match_at(&p, 0, &s, 0)
    }

    /// The names that the pattern matches, in their order.
    pub fn match_path_single(&self, pattern: &str) -> (result: Vec<String>)
        ensures
            views(result@) == matching(self.names(), pattern@, self.source@.len() as int),
    {
        let p = to_chars(pattern);
        let mut result: Vec<String> = Vec::new();
        let mut i: usize = 0;
        while i < self.source.len()
            invariant
                i <= self.source.len(),
                p@ == pattern@,
                views(result@) =~= matching(self.names(), pattern@, i as int),
            decreases self.source.len() - i,
        {
            let s = to_chars(self.source[i].as_str());
            if chars_match_at(&p, 0, &s, 0) {
                let ghost before = views(result@);
                result.push(self.source[i].clone());
                proof {
                    assert(views(result@) =~= before.push(self.names()[i as int]));
                }
            }
            i += 1;
        }
        result
    }
}

/// The position of the first `/` in `s` at or after `from`, or the length
/// of `s` where there is none.
pub open spec fn slash_at(s: Seq<char>, from: int) -> int
    decreases s.len() - from,
{
    if from < 0 || from >= s.len() || s[from] == '/' {
        from
    } else {
        slash_at(s, from + 1)
    }
}

/// The part of a pattern for the directory at hand: what stands before its
/// first `/`, or all of it.
pub open spec fn pattern_here(pattern: Seq<char>) -> Seq<char> {
    pattern.take(slash_at(pattern, 0))
}

/// The part of a pattern for what lies deeper: what stands after its first
/// `/`, where it has one.
pub open spec fn pattern_below(pattern: Seq<char>) -> Option<Seq<char>> {
    if slash_at(pattern, 0) < pattern.len() {
        Some(pattern.skip(slash_at(pattern, 0) + 1))
    } else {
        None
    }
}

/// The path of `name` in the directory `parent`: the name alone in `.`, the
/// name after `/` in the root, and else the two with `/` between them.
pub open spec fn joined_path(parent: Seq<char>, name: Seq<char>) -> Seq<char> {
    if parent == seq!['.'] {
        name
    } else if parent == seq!['/'] {
        seq!['/'] + name
    } else {
        parent + seq!['/'] + name
    }
}

/// The paths of the names in the directory `parent`.
pub open spec fn joined_paths(parent: Seq<char>, names: Seq<Seq<char>>) -> Seq<Seq<char>> {
    Seq::new(names.len(), |i: int| joined_path(parent, names[i]))
}

impl Glob {
    /// Cuts a pattern at its first `/` into the part for the directory at
    /// hand and the part for what lies deeper.
    pub fn split_pattern(pattern: &str) -> (parts: (String, Option<String>))
        ensures
            parts.0@ == pattern_here(pattern@),
            match parts.1 {
                Some(below) => pattern_below(pattern@) == Some(below@),
                None => pattern_below(pattern@) is None,
            },
    {
        let chars = to_chars(pattern);
        let mut cut: usize = 0;
        while cut < chars.len() && chars[cut] != '/'
            invariant
                cut <= chars.len(),
                slash_at(chars@, 0) == slash_at(chars@, cut as int),
            decreases chars.len() - cut,
        {
            cut += 1;
        }
        let mut here = chars;
        let mut rest = here.split_off(cut);
        proof {
            assert(here@ =~= pattern@.take(cut as int));
        }
        if rest.len() > 0 {
            rest.remove(0);
            proof {
                assert(rest@ =~= pattern@.skip(cut as int + 1));
            }
            (from_chars(&here), Some(from_chars(&rest)))
        } else {
            (from_chars(&here), None)
        }
    }

    /// The path of `name` in the directory `parent`.
    pub fn path_join(parent: &str, name: &str) -> (path: String)
        ensures
            path@ == joined_path(parent@, name@),
    {
        let mut head = to_chars(parent);
        let mut tail = to_chars(name);
        if head.len() == 1 && head[0] == '.' {
            proof {
                assert(head@ =~= seq!['.']);
            }
            from_chars(&tail)
        } else if head.len() == 1 && head[0] == '/' {
            proof {
                assert(head@ =~= seq!['/']);
            }
            head.append(&mut tail);
            from_chars(&head)
        } else {
            proof {
                assert(parent@ != seq!['.']) by {
                    if parent@ == seq!['.'] {
                        assert(parent@.len() == 1 && parent@[0] == '.');
                    }
                }
                assert(parent@ != seq!['/']) by {
                    if parent@ == seq!['/'] {
                        assert(parent@.len() == 1 && parent@[0] == '/');
                    }
                }
            }
            head.push('/');
            head.append(&mut tail);
            from_chars(&head)
        }
    }

    /// The paths of the names that the pattern matches, in the directory of
    /// this list.
    pub fn match_paths(&self, pattern: &str) -> (paths: Vec<String>)
        ensures
            views(paths@) == joined_paths(
                self.parent@,
                matching(self.names(), pattern@, self.source@.len() as int),
            ),
    {
        let matched = self.match_path_single(pattern);
        let mut paths: Vec<String> = Vec::new();
        let mut i: usize = 0;
        while i < matched.len()
            invariant
                i <= matched.len(),
                paths@.len() == i,
                forall|k: int|
                    0 <= k < i ==> (#[trigger] paths@[k])@ == joined_path(
                        self.parent@,
                        matched@[k]@,
                    ),
            decreases matched.len() - i,
        {
            paths.push(Self::path_join(self.parent.as_str(), matched[i].as_str()));
            i += 1;
        }
        proof {
            assert(views(paths@) =~= joined_paths(self.parent@, views(matched@)));
        }
        paths
    }
}

} // verus!
