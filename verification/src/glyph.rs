//! Glyphs as grids of grey values, and their form as text.

use vstd::prelude::*;
use crate::chars::{from_chars, to_chars};
use crate::text::Vector2i;

verus! {

/// A glyph: rows of pixels, each a grey value.
#[derive(Clone)]
pub struct Char {
    pub pixels: Vec<Vec<u8>>,
}

/// The grey value that a character of the text form stands for.
pub open spec fn pixel_of(c: char) -> u8 {
    if c == '\u{b7}' {
        85
    } else if c == '+' {
        170
    } else if c == '*' {
        255
    } else {
        0
    }
}

/// The character that stands for a grey value in the text form: one for
/// each quarter of the range.
pub open spec fn char_of(value: u8) -> char {
    if value <= 63 {
        ' '
    } else if value <= 127 {
        '\u{b7}'
    } else if value <= 191 {
        '+'
    } else {
        '*'
    }
}

/// The line without the carriage return at its end, if it has one.
pub open spec fn strip_cr(line: Seq<char>) -> Seq<char> {
    if line.len() > 0 && line.last() == '\r' {
        line.drop_last()
    } else {
        line
    }
}

/// The lines that the first `n` characters of `s` complete, and the
/// beginning of the line that follows them. A line feed completes a line; a
/// carriage return right before it is not part of the line.
pub open spec fn split_prefix(s: Seq<char>, n: int) -> (Seq<Seq<char>>, Seq<char>)
    decreases n,
{
    if n <= 0 {
        (Seq::empty(), Seq::empty())
    } else {
        let (rows, current) = split_prefix(s, n - 1);
        if s[n - 1] == '\n' {
            (rows.push(strip_cr(current)), Seq::empty())
        } else {
            (rows, current.push(s[n - 1]))
        }
    }
}

/// The lines of `s`: those that a line feed completes, and what follows the
/// last line feed if it is not empty.
pub open spec fn text_lines(s: Seq<char>) -> Seq<Seq<char>> {
    let (rows, current) = split_prefix(s, s.len() as int);
    if current.len() > 0 {
        rows.push(current)
    } else {
        rows
    }
}

/// The grey values of a line of the text form.
pub open spec fn pixel_row(line: Seq<char>) -> Seq<u8> {
    Seq::new(line.len(), |i: int| pixel_of(line[i]))
}

/// The grey values of the lines of the text form.
pub open spec fn pixel_rows(lines: Seq<Seq<char>>) -> Seq<Seq<u8>> {
    Seq::new(lines.len(), |i: int| pixel_row(lines[i]))
}

/// A row of pixels in the text form.
pub open spec fn char_row(row: Seq<u8>) -> Seq<char> {
    Seq::new(row.len(), |i: int| char_of(row[i]))
}

/// The first `n` rows in the text form, each closed by a line feed.
pub open spec fn rendered(rows: Seq<Seq<u8>>, n: int) -> Seq<char>
    decreases n,
{
    if n <= 0 {
        Seq::empty()
    } else {
        rendered(rows, n - 1) + char_row(rows[n - 1]) + seq!['\n']
    }
}

/// `height` rows of `width` pixels, all 0.
pub open spec fn blank_rows(width: nat, height: nat) -> Seq<Seq<u8>> {
    Seq::new(height, |i: int| Seq::new(width, |j: int| 0u8))
}

impl Char {
    /// The rows of pixels.
    pub open spec fn grid(&self) -> Seq<Seq<u8>> {
        Seq::new(self.pixels@.len(), |i: int| self.pixels@[i]@)
    }

    /// A glyph without rows.
    pub fn new_empty() -> (glyph: Char)
        ensures
            glyph.grid() == Seq::<Seq<u8>>::empty(),
    {
        let glyph = Char { pixels: Vec::new() };
        proof {
            assert(glyph.grid() =~= Seq::<Seq<u8>>::empty());
        }
        glyph
    }

    /// A glyph of the given size, all pixels 0.
    pub fn new_filled(size: Vector2i) -> (glyph: Char)
        requires
            size.x >= 0,
            size.y >= 0,
        ensures
            glyph.grid() == blank_rows(size.x as nat, size.y as nat),
    {
        let mut pixels: Vec<Vec<u8>> = Vec::new();
        let mut y: i32 = 0;
        while y < size.y
            invariant
                0 <= y <= size.y,
                size.x >= 0,
                pixels@.len() == y,
                forall|i: int|
                    0 <= i < y ==> (#[trigger] pixels@[i])@ == Seq::new(
                        size.x as nat,
                        |j: int| 0u8,
                    ),
            decreases size.y - y,
        {
            let mut row: Vec<u8> = Vec::new();
            let mut x: i32 = 0;
            while x < size.x
                invariant
                    0 <= x <= size.x,
                    row@ == Seq::new(x as nat, |j: int| 0u8),
                decreases size.x - x,
            {
                row.push(0);
                proof {
                    assert(row@ =~= Seq::new((x + 1) as nat, |j: int| 0u8));
                }
                x += 1;
            }
            pixels.push(row);
            y += 1;
        }
        let glyph = Char { pixels };
        proof {
            assert(glyph.grid() =~= blank_rows(size.x as nat, size.y as nat));
        }
        glyph
    }

    /// Sets the pixel in column `x` of row `y`, where the glyph has one.
    pub fn set_pixel(&mut self, x: usize, y: usize, value: u8)
        ensures
            final(self).grid() == if y < old(self).grid().len() && x < old(self).grid()[y as int].len() {
                old(self).grid().update(y as int, old(self).grid()[y as int].update(x as int, value))
            } else {
                old(self).grid()
            },
    {
        if y < self.pixels.len() && x < self.pixels[y].len() {
            self.pixels[y][x] = value;
            proof {
                assert(self.grid() =~= old(self).grid().update(
                    y as int,
                    old(self).grid()[y as int].update(x as int, value),
                ));
            }
        } else {
            proof {
                assert(self.grid() =~= old(self).grid());
            }
        }
    }
}

/// The grey value that `c` stands for.
fn char_pixel(c: char) -> (value: u8)
    ensures
        value == pixel_of(c),
{
    if c == '\u{b7}' {
        85
    } else if c == '+' {
        170
    } else if c == '*' {
        255
    } else {
        0
    }
}

/// The character that stands for the grey value.
fn pixel_char(value: u8) -> (c: char)
    ensures
        c == char_of(value),
{
    if value <= 63 {
        ' '
    } else if value <= 127 {
        '\u{b7}'
    } else if value <= 191 {
        '+'
    } else {
        '*'
    }
}

/// The grey values of the characters.
fn row_of(line: &Vec<char>, len: usize) -> (row: Vec<u8>)
    requires
        len <= line.len(),
    ensures
        row@ == pixel_row(line@.take(len as int)),
{
    let mut row: Vec<u8> = Vec::new();
    let mut k: usize = 0;
    while k < len
        invariant
            k <= len <= line.len(),
            row@ == pixel_row(line@.take(k as int)),
        decreases len - k,
    {
        row.push(char_pixel(line[k]));
        proof {
            assert(row@ =~= pixel_row(line@.take(k as int + 1)));
        }
        k += 1;
    }
    row
}

impl Char {
    /// The glyph that the text form `s` describes: one row for each line,
    /// one pixel for each character.
    pub fn from_ascii(s: &str) -> (glyph: Char)
        ensures
            glyph.grid() == pixel_rows(text_lines(s@)),
    {
        let chars = to_chars(s);
        let mut pixels: Vec<Vec<u8>> = Vec::new();
        let mut current: Vec<char> = Vec::new();
        let ghost mut lines: Seq<Seq<char>> = Seq::empty();
        let mut i: usize = 0;
        while i < chars.len()
            invariant
                i <= chars.len(),
                chars@ == s@,
                split_prefix(s@, i as int).0 =~= lines,
                split_prefix(s@, i as int).1 =~= current@,
                pixels@.len() == lines.len(),
                forall|j: int| 0 <= j < lines.len() ==> (#[trigger] pixels@[j])@ == pixel_row(lines[j]),
            decreases chars.len() - i,
        {
            let c = chars[i];
            if c == '\n' {
                let len = current.len();
                let kept = if len > 0 && current[len - 1] == '\r' {
                    len - 1
                } else {
                    len
                };
                proof {
                    assert(current@.take(kept as int) =~= strip_cr(current@));
                    lines = lines.push(strip_cr(current@));
                }
                pixels.push(row_of(&current, kept));
                current = Vec::new();
            } else {
                current.push(c);
            }
            i += 1;
        }
        if current.len() > 0 {
            proof {
                assert(current@.take(current@.len() as int) =~= current@);
                lines = lines.push(current@);
            }
            pixels.push(row_of(&current, current.len()));
        }
        let glyph = Char { pixels };
        proof {
            assert(lines =~= text_lines(s@));
            assert(glyph.grid() =~= pixel_rows(text_lines(s@)));
        }
        glyph
    }

    /// The text form of the glyph: one line for each row, one character for
    /// each pixel.
    pub fn to_string(&self) -> (out: String)
        ensures
            out@ == rendered(self.grid(), self.pixels@.len() as int),
    {
        let mut out: Vec<char> = Vec::new();
        let mut y: usize = 0;
        while y < self.pixels.len()
            invariant
                y <= self.pixels.len(),
                out@ == rendered(self.grid(), y as int),
            decreases self.pixels.len() - y,
        {
            let ghost before = out@;
            let mut x: usize = 0;
            while x < self.pixels[y].len()
                invariant
                    y < self.pixels.len(),
                    x <= self.pixels@[y as int]@.len(),
                    out@ == before + char_row(self.pixels@[y as int]@.take(x as int)),
                decreases self.pixels@[y as int]@.len() - x,
            {
                out.push(pixel_char(self.pixels[y][x]));
                proof {
                    assert(out@ =~= before + char_row(self.pixels@[y as int]@.take(x as int + 1)));
                }
                x += 1;
            }
            out.push('\n');
            proof {
                let row = self.pixels@[y as int]@;
                assert(row.take(row.len() as int) =~= row);
                assert(self.grid()[y as int] == row);
                assert(out@ =~= before + char_row(row) + seq!['\n']);
            }
            y += 1;
        }
        from_chars(&out)
    }
}

} // verus!
