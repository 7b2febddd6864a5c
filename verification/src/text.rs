//! The text buffer: a grid of lines with a cursor, written to character by
//! character, and the window of it that a viewport shows.

use vstd::prelude::*;
use vstd::string::StrSliceExecFns;
use crate::ansi::{decode_at, lemma_decode_end_bounds, Ansi, AnsiCode};
use crate::chars::{clone_strings, from_chars, spaces, to_chars, views};
use crate::color::{token_escape, AnsiColor, Rgb, ESC};
use crate::num::{min_int, min_nat};

verus! {

/// How the cursor is drawn.
#[derive(Clone, Copy, Debug, PartialEq, Eq, Structural)]
pub enum CursorState {
    Hidden,
    NormalActive,
    NormalInactive,
    InsertActive,
    InsertInactive,
}

/// Where the lines stand in a viewport that they do not fill, or overflow.
#[derive(Clone, Copy, Debug, PartialEq, Eq, Structural)]
pub enum VerticalAlignment {
    AlwaysTop,
    AlwaysBottom,
    BottomOnOverflow,
}

/// Whether a written character replaces the one under the cursor or moves
/// the rest of the line to the right.
#[derive(Clone, Copy, Debug, PartialEq, Eq, Structural)]
pub enum InsertMode {
    Overwrite,
    Insert,
}

/// A cursor position: column `x` in line `y`.
#[derive(Clone, Copy, Debug, PartialEq, Eq, Structural)]
pub struct CursorPosition {
    pub x: usize,
    pub y: usize,
}

/// A point or an extent in pixels.
#[derive(Clone, Copy, Debug, PartialEq, Eq, Structural)]
pub struct Vector2i {
    pub x: i32,
    pub y: i32,
}

/// The lines of a buffer and its cursor, as mathematical values.
pub ghost struct Grid {
    pub lines: Seq<Seq<char>>,
    pub x: nat,
    pub y: nat,
}

/// `count` empty lines.
pub open spec fn empty_lines(count: nat) -> Seq<Seq<char>> {
    Seq::new(count, |i: int| Seq::<char>::empty())
}

/// The lines, with empty lines added at the end until line `y` exists.
pub open spec fn grow(lines: Seq<Seq<char>>, y: nat) -> Seq<Seq<char>> {
    if lines.len() > y {
        lines
    } else {
        lines + empty_lines((y + 1 - lines.len()) as nat)
    }
}

/// The line, with spaces added at the end until it has `x` characters.
pub open spec fn pad(line: Seq<char>, x: nat) -> Seq<char> {
    if line.len() >= x {
        line
    } else {
        line + spaces((x - line.len()) as nat)
    }
}

/// The line after `c` is written at column `x`. The line is first padded
/// with spaces up to `x`. In overwrite mode `c` then replaces the character
/// at `x`, or is appended where there is none; in insert mode `c` is inserted
/// before the character at `x`.
pub open spec fn put_char(line: Seq<char>, x: nat, c: char, mode: InsertMode) -> Seq<char> {
    match mode {
        InsertMode::Overwrite => if x < line.len() {
            line.update(x as int, c)
        } else {
            pad(line, x).push(c)
        },
        InsertMode::Insert => pad(line, x).insert(x as int, c),
    }
}

/// The grid after `c` is written at the cursor, which moves one column on.
pub open spec fn put(g: Grid, c: char, mode: InsertMode) -> Grid
    recommends
        g.y < g.lines.len(),
{
    Grid { lines: g.lines.update(g.y as int, put_char(g.lines[g.y as int], g.x, c, mode)), x: g.x + 1, y: g.y }
}

/// The grid after the characters of `s` from position `i` on are written at
/// the cursor one after the other, each as by `put`.
pub open spec fn put_all(g: Grid, s: Seq<char>, i: int, mode: InsertMode) -> Grid
    decreases s.len() - i,
{
    if i < 0 || i >= s.len() {
        g
    } else {
        put_all(put(g, s[i], mode), s, i + 1, mode)
    }
}

/// The grid after a line feed. In overwrite mode the cursor goes to the
/// start of the next line, which is added where it does not exist. In insert
/// mode the line is cut at the cursor (at its end, where the cursor stands
/// beyond it): what stands before the cursor stays, what stands after it
/// becomes a new line right below, and the cursor goes to the start of that
/// line.
pub open spec fn line_feed(g: Grid, mode: InsertMode) -> Grid
    recommends
        g.y < g.lines.len(),
{
    match mode {
        InsertMode::Overwrite => Grid { lines: grow(g.lines, g.y + 1), x: 0, y: g.y + 1 },
        InsertMode::Insert => {
            let line = g.lines[g.y as int];
            let cut = min_nat(g.x, line.len()) as int;
            Grid {
                lines: g.lines.update(g.y as int, line.take(cut)).insert(
                    g.y as int + 1,
                    line.skip(cut),
                ),
                x: 0,
                y: g.y + 1,
            }
        },
    }
}

/// The grid after the cursor moves up by `n` lines, stopping at the first.
pub open spec fn cursor_up(g: Grid, n: nat) -> Grid {
    Grid { y: if n >= g.y { 0 } else { (g.y - n) as nat }, ..g }
}

/// The grid after the cursor moves down by `n` lines, stopping at the last.
pub open spec fn cursor_down(g: Grid, n: nat) -> Grid
    recommends
        g.lines.len() > 0,
{
    Grid { y: if g.y + n >= g.lines.len() { (g.lines.len() - 1) as nat } else { g.y + n }, ..g }
}

/// The grid after one decoded command. Moving the cursor up or down takes
/// effect at once. A colour or style operation is written into the line as
/// its canonical escape sequence, and a literal as the character itself,
/// each like ordinary characters. Every other command leaves the grid as it
/// is.
pub open spec fn apply_code(g: Grid, code: AnsiCode, mode: InsertMode) -> Grid {
    match code {
        AnsiCode::CursorUp(n) => cursor_up(g, n as nat),
        AnsiCode::CursorDown(n) => cursor_down(g, n as nat),
        AnsiCode::Color(token) => put_all(g, token_escape(token), 0, mode),
        AnsiCode::Char(c) => put(g, c, mode),
        _ => g,
    }
}

/// The grid after the commands from position `i` on, one after the other.
pub open spec fn apply_codes(g: Grid, codes: Seq<AnsiCode>, i: int, mode: InsertMode) -> Grid
    decreases codes.len() - i,
{
    if i < 0 || i >= codes.len() {
        g
    } else {
        apply_codes(apply_code(g, codes[i], mode), codes, i + 1, mode)
    }
}

/// The grid after the characters of `s` from position `i` on are written.
///
/// At the escape marker the control sequences there are decoded and their
/// commands applied, and writing goes on behind them. A carriage return
/// takes the cursor to the start of its line, a line feed acts as
/// `line_feed` says, and any other character is written at the cursor.
pub open spec fn write_from(g: Grid, s: Seq<char>, i: int, mode: InsertMode) -> Grid
    decreases s.len() - i,
    via write_from_decreases
{
    if i < 0 || i >= s.len() {
        g
    } else if s[i] == '\x1b' {
        let decoded = decode_at(s, i);
        write_from(apply_codes(g, decoded.1, 0, mode), s, decoded.0, mode)
    } else if s[i] == '\r' {
        write_from(Grid { x: 0, ..g }, s, i + 1, mode)
    } else if s[i] == '\n' {
        write_from(line_feed(g, mode), s, i + 1, mode)
    } else {
        write_from(put(g, s[i], mode), s, i + 1, mode)
    }
}

#[via_fn]
proof fn write_from_decreases(g: Grid, s: Seq<char>, i: int, mode: InsertMode) {
    if 0 <= i < s.len() {
        lemma_decode_end_bounds(s, i);
    }
}

/// The grid after `input` is written to it: the lines are first extended so
/// that the line of the cursor exists.
pub open spec fn write_grid(g: Grid, input: Seq<char>, mode: InsertMode) -> Grid {
    write_from(Grid { lines: grow(g.lines, g.y), ..g }, input, 0, mode)
}

/// A buffer of text lines with a cursor, and what a renderer needs to show
/// it.
pub struct Text {
    pub text: Vec<String>,
    pub position: Vector2i,
    pub size: Vector2i,
    pub vertical_alignment: VerticalAlignment,
    pub font_scale: i32,
    pub ansi_colors: AnsiColor,
    pub fg_color: Rgb,
    pub bg_color: Rgb,
    pub cursor_insert_color: Rgb,
    pub cursor_normal_color: Rgb,
    pub bold: bool,
    pub redraw: bool,
    pub cursor_state: CursorState,
    pub cursor_position: CursorPosition,
    pub scroll_pos_y: i32,
    pub insert_mode: InsertMode,
}

/// Writes `c` at column `x` of the line.
fn line_set(line: &mut Vec<char>, x: usize, c: char, mode: InsertMode)
    ensures
        final(line)@ == put_char(old(line)@, x as nat, c, mode),
        x < final(line)@.len(),
{
    if mode == InsertMode::Overwrite && x < line.len() {
        line.set(x, c);
    } else {
        while line.len() < x
            invariant
                old(line)@.len() <= line@.len(),
                line@.len() <= x || line@ == old(line)@,
                line@ == old(line)@ + spaces((line@.len() - old(line)@.len()) as nat),
            decreases x - line.len(),
        {
            let ghost before = line@;
            line.push(' ');
            proof {
                assert(line@ =~= old(line)@ + spaces((line@.len() - old(line)@.len()) as nat));
            }
        }
        proof {
            assert(line@ =~= pad(old(line)@, x as nat));
        }
        if mode == InsertMode::Overwrite {
            line.push(c);
        } else {
            line.insert(x, c);
        }
    }
}

impl Text {
    /// The lines of the buffer.
    pub open spec fn lines(&self) -> Seq<Seq<char>> {
        Seq::new(self.text@.len(), |i: int| self.text@[i]@)
    }

    /// The lines and the cursor.
    pub open spec fn grid(&self) -> Grid {
        Grid {
            lines: self.lines(),
            x: self.cursor_position.x as nat,
            y: self.cursor_position.y as nat,
        }
    }

    /// The buffer holds at least one line, and the cursor stands in one of
    /// its lines.
    pub open spec fn wf(&self) -> bool {
        &&& self.text@.len() >= 1
        &&& self.cursor_position.y < self.text@.len()
    }

    /// Whether everything but the lines, the cursor and the redraw mark is
    /// as in `other`.
    pub open spec fn same_settings(&self, other: Text) -> bool {
        *self == (Text {
            text: self.text,
            cursor_position: self.cursor_position,
            redraw: self.redraw,
            ..other
        })
    }

    /// The grid while the line of the cursor is held apart as `line`.
    pub open spec fn working(&self, line: Seq<char>) -> Grid {
        Grid {
            lines: self.lines().update(self.cursor_position.y as int, line),
            x: self.cursor_position.x as nat,
            y: self.cursor_position.y as nat,
        }
    }

    /// Extends the buffer so that the line of the cursor exists, and hands
    /// out that line.
    fn load_line(&mut self) -> (line: Vec<char>)
        ensures
            final(self).lines() == grow(old(self).lines(), old(self).cursor_position.y as nat),
            final(self).cursor_position.y < final(self).text@.len(),
            line@ == final(self).lines()[old(self).cursor_position.y as int],
            final(self).same_settings(*old(self)),
            final(self).cursor_position == old(self).cursor_position,
            final(self).redraw == old(self).redraw,
    {
        let y = self.cursor_position.y;
        while self.text.len() <= y
            invariant
                self.same_settings(*old(self)),
                self.cursor_position == old(self).cursor_position,
                self.redraw == old(self).redraw,
                y == self.cursor_position.y,
                old(self).text@.len() <= self.text@.len(),
                self.text@.len() == old(self).text@.len() || self.text@.len() <= y + 1,
                forall|i: int|
                    0 <= i < old(self).text@.len() ==> self.text@[i] == old(self).text@[i],
                forall|i: int|
                    old(self).text@.len() <= i < self.text@.len() ==> (#[trigger] self.text@[i])@
                        == Seq::<char>::empty(),
            decreases y + 1 - self.text.len(),
        {
            self.text.push(String::new());
        }
        proof {
            assert(self.lines() =~= grow(old(self).lines(), y as nat));
        }
        to_chars(self.text[y].as_str())
    }

    /// Puts `line` back as the line of the cursor.
    fn store_line(&mut self, line: &Vec<char>)
        requires
            old(self).cursor_position.y < old(self).text@.len(),
        ensures
            final(self).lines() == old(self).lines().update(
                old(self).cursor_position.y as int,
                line@,
            ),
            final(self).text@.len() == old(self).text@.len(),
            final(self).same_settings(*old(self)),
            final(self).cursor_position == old(self).cursor_position,
            final(self).redraw == old(self).redraw,
    {
        let y = self.cursor_position.y;
        self.text.set(y, from_chars(line));
        proof {
            assert(self.lines() =~= old(self).lines().update(y as int, line@));
        }
    }
}

impl Text {
    /// Writes `c` at the cursor, into the line held apart.
    fn put_here(&mut self, line: &mut Vec<char>, c: char)
        requires
            old(self).cursor_position.y < old(self).text@.len(),
        ensures
            final(self).working(final(line)@) == put(
                old(self).working(old(line)@),
                c,
                old(self).insert_mode,
            ),
            final(self).text == old(self).text,
            final(self).cursor_position.y == old(self).cursor_position.y,
            final(self).same_settings(*old(self)),
            final(self).redraw == old(self).redraw,
    {
        line_set(line, self.cursor_position.x, c, self.insert_mode);
        let length = line.len();
        assert(self.cursor_position.x < length);
        self.cursor_position.x += 1;
        proof {
            assert(self.working(line@).lines =~= put(
                old(self).working(old(line)@),
                c,
                old(self).insert_mode,
            ).lines);
        }
    }

    /// Writes the characters at the cursor, into the line held apart.
    fn put_all_here(&mut self, line: &mut Vec<char>, chars: &Vec<char>)
        requires
            old(self).cursor_position.y < old(self).text@.len(),
        ensures
            final(self).working(final(line)@) == put_all(
                old(self).working(old(line)@),
                chars@,
                0,
                old(self).insert_mode,
            ),
            final(self).text == old(self).text,
            final(self).cursor_position.y == old(self).cursor_position.y,
            final(self).same_settings(*old(self)),
            final(self).redraw == old(self).redraw,
    {
        let mut k: usize = 0;
        while k < chars.len()
            invariant
                k <= chars.len(),
                self.text == old(self).text,
                self.cursor_position.y == old(self).cursor_position.y,
                self.cursor_position.y < self.text@.len(),
                self.same_settings(*old(self)),
                self.redraw == old(self).redraw,
                put_all(old(self).working(old(line)@), chars@, 0, old(self).insert_mode)
                    == put_all(self.working(line@), chars@, k as int, old(self).insert_mode),
            decreases chars.len() - k,
        {
            self.put_here(line, chars[k]);
            k += 1;
        }
    }

    /// Moves the cursor to line `y`, which exists, and holds that line apart.
    fn go_to_line(&mut self, line: &mut Vec<char>, y: usize)
        requires
            old(self).cursor_position.y < old(self).text@.len(),
            y < old(self).text@.len(),
        ensures
            final(self).working(final(line)@) == (Grid {
                y: y as nat,
                ..old(self).working(old(line)@)
            }),
            final(self).cursor_position.y < final(self).text@.len(),
            final(self).same_settings(*old(self)),
            final(self).redraw == old(self).redraw,
    {
        self.store_line(line);
        self.cursor_position.y = y;
        *line = self.load_line();
        proof {
            assert(self.working(line@).lines =~= old(self).working(old(line)@).lines);
        }
    }

    /// Applies a line feed to the buffer and the line held apart.
    fn feed_line(&mut self, line: &mut Vec<char>)
        requires
            old(self).cursor_position.y < old(self).text@.len(),
        ensures
            final(self).working(final(line)@) == line_feed(
                old(self).working(old(line)@),
                old(self).insert_mode,
            ),
            final(self).cursor_position.y < final(self).text@.len(),
            final(self).same_settings(*old(self)),
            final(self).redraw == old(self).redraw,
    {
        let y = self.cursor_position.y;
        let rows = self.text.len();
        assert(y < rows);
        if self.insert_mode == InsertMode::Overwrite {
            self.store_line(line);
            self.cursor_position.x = 0;
            self.cursor_position.y = y + 1;
            *line = self.load_line();
            proof {
                assert(self.working(line@).lines =~= line_feed(
                    old(self).working(old(line)@),
                    old(self).insert_mode,
                ).lines);
            }
        } else {
            let cut = if self.cursor_position.x < line.len() {
                self.cursor_position.x
            } else {
                line.len()
            };
            let right = line.split_off(cut);
            self.store_line(line);
            let ghost stored = self.lines();
            self.text.insert(y + 1, String::new());
            proof {
                assert(self.lines() =~= stored.insert(y as int + 1, Seq::<char>::empty()));
            }
            self.cursor_position.x = 0;
            self.cursor_position.y = y + 1;
            *line = right;
            proof {
                let before = old(self).working(old(line)@);
                let whole = old(line)@;
                assert(before.lines[y as int] == whole);
                assert(whole.take(cut as int) =~= whole.subrange(0, cut as int));
                assert(whole.skip(cut as int) =~= whole.subrange(cut as int, whole.len() as int));
                assert(stored =~= before.lines.update(y as int, whole.take(cut as int)));
                assert(self.working(line@).lines =~= stored.insert(
                    y as int + 1,
                    whole.skip(cut as int),
                ));
            }
        }
    }

    /// Applies one decoded command to the buffer and the line held apart.
    fn apply(&mut self, line: &mut Vec<char>, code: AnsiCode)
        requires
            old(self).cursor_position.y < old(self).text@.len(),
        ensures
            final(self).working(final(line)@) == apply_code(
                old(self).working(old(line)@),
                code,
                old(self).insert_mode,
            ),
            final(self).cursor_position.y < final(self).text@.len(),
            final(self).same_settings(*old(self)),
            final(self).redraw == old(self).redraw,
    {
        let y = self.cursor_position.y;
        match code {
            AnsiCode::CursorUp(n) => {
                let target = if n >= y {
                    0
                } else {
                    y - n
                };
                self.go_to_line(line, target);
            },
            AnsiCode::CursorDown(n) => {
                let last = self.text.len() - 1;
                let target = if n >= last - y {
                    last
                } else {
                    y + n
                };
                self.go_to_line(line, target);
            },
            AnsiCode::Color(token) => {
                let sequence = token.escape();
                self.put_all_here(line, &sequence);
            },
            AnsiCode::Char(c) => {
                self.put_here(line, c);
            },
            _ => {},
        }
    }

    /// Writes `input` to the buffer at the cursor.
    ///
    /// Control sequences in `input` are decoded. Those that move the cursor
    /// up or down take effect at once; colour and style operations are kept
    /// in the line as escape sequences. Carriage return, line feed and every
    /// other character act as `write_from` says.
    pub fn write(&mut self, input: &str)
        ensures
            final(self).grid() == write_grid(old(self).grid(), input@, old(self).insert_mode),
            final(self).wf(),
            final(self).redraw,
            final(self).same_settings(*old(self)),
    {
        let chars = to_chars(input);
        let mut line = self.load_line();
        let mut idx: usize = 0;
        proof {
            assert(self.working(line@).lines =~= grow(
                old(self).lines(),
                old(self).cursor_position.y as nat,
            ));
        }
        while idx < chars.len()
            invariant
                idx <= chars.len(),
                chars@ == input@,
                self.cursor_position.y < self.text@.len(),
                self.same_settings(*old(self)),
                write_grid(old(self).grid(), input@, old(self).insert_mode) == write_from(
                    self.working(line@),
                    input@,
                    idx as int,
                    old(self).insert_mode,
                ),
            decreases chars.len() - idx,
        {
            let c = chars[idx];
            if c == ESC {
                let wrap = Ansi::parse_at(&self.ansi_colors, &chars, idx);
                let ghost start = self.working(line@);
                let mut k: usize = 0;
                while k < wrap.codes.len()
                    invariant
                        k <= wrap.codes.len(),
                        self.cursor_position.y < self.text@.len(),
                        self.same_settings(*old(self)),
                        apply_codes(start, wrap.codes@, 0, old(self).insert_mode) == apply_codes(
                            self.working(line@),
                            wrap.codes@,
                            k as int,
                            old(self).insert_mode,
                        ),
                    decreases wrap.codes.len() - k,
                {
                    self.apply(&mut line, wrap.codes[k]);
                    k += 1;
                }
                idx += wrap.char_count;
            } else if c == '\r' {
                self.cursor_position.x = 0;
                idx += 1;
            } else if c == '\n' {
                self.feed_line(&mut line);
                idx += 1;
            } else {
                self.put_here(&mut line, c);
                idx += 1;
            }
        }
        let ghost written = self.working(line@);
        self.store_line(&line);
        self.redraw = true;
        proof {
            assert(self.grid().lines =~= written.lines);
        }
    }
}

/// The lines of a buffer after its content is replaced: the new lines, or
/// one empty line where there are none.
pub open spec fn replacement(lines: Seq<Seq<char>>) -> Seq<Seq<char>> {
    if lines.len() == 0 {
        seq![Seq::<char>::empty()]
    } else {
        lines
    }
}

impl Text {
    /// A copy of the lines of the buffer.
    pub fn get_text(&self) -> (lines: Vec<String>)
        ensures
            lines@ == self.text@,
    {
        clone_strings(&self.text)
    }

    /// Replaces the whole content by `text`, or by one empty line where
    /// `text` is empty, and puts the cursor at the end of the last line.
    /// Returns the content that was replaced.
    pub fn replace(&mut self, text: Vec<String>) -> (previous: Vec<String>)
        ensures
            previous == old(self).text,
            final(self).lines() == replacement(views(text@)),
            final(self).cursor_position.y == final(self).lines().len() - 1,
            final(self).cursor_position.x == final(self).lines().last().len(),
            final(self).wf(),
            final(self).redraw,
            final(self).same_settings(*old(self)),
    {
        let mut previous = text;
        core::mem::swap(&mut self.text, &mut previous);
        if self.text.len() == 0 {
            self.text.push(String::new());
        }
        let last = self.text.len() - 1;
        self.cursor_position.y = last;
        self.cursor_position.x = self.text[last].as_str().unicode_len();
        self.redraw = true;
        proof {
            assert(self.lines() =~= replacement(views(text@)));
        }
        previous
    }

    /// Empties the buffer: one empty line, the cursor at its start.
    pub fn clear(&mut self)
        ensures
            final(self).lines() == seq![Seq::<char>::empty()],
            final(self).cursor_position == (CursorPosition { x: 0, y: 0 }),
            final(self).wf(),
            final(self).redraw,
            final(self).same_settings(*old(self)),
    {
        let mut text: Vec<String> = Vec::new();
        text.push(String::new());
        self.text = text;
        self.cursor_position = CursorPosition { x: 0, y: 0 };
        self.redraw = true;
        proof {
            assert(self.lines() =~= seq![Seq::<char>::empty()]);
        }
    }

    /// The column that the cursor moves to: one to the left for -1, one to
    /// the right for 1, the start of the line for -2, its end for 2.
    pub open spec fn moved_column(&self, dir: i32) -> int {
        if dir == -1 {
            self.cursor_position.x - 1
        } else if dir == 1 {
            self.cursor_position.x + 1
        } else if dir == -2 {
            0
        } else {
            self.lines()[self.cursor_position.y as int].len() as int
        }
    }

    /// Moves the cursor within its line, as `moved_column` says. The column
    /// is not held to the length of the line.
    pub fn move_cursor_horz(&mut self, dir: i32)
        requires
            dir == -2 || dir == -1 || dir == 1 || dir == 2,
            old(self).wf(),
            dir == -1 ==> old(self).cursor_position.x > 0,
            dir == 1 ==> old(self).cursor_position.x < usize::MAX,
        ensures
            final(self).cursor_position.x == old(self).moved_column(dir),
            final(self).wf(),
            final(self).cursor_position.y == old(self).cursor_position.y,
            final(self).text == old(self).text,
            final(self).redraw,
            final(self).same_settings(*old(self)),
    {
        if dir == -1 {
            self.cursor_position.x -= 1;
        } else if dir == 1 {
            self.cursor_position.x += 1;
        } else if dir == -2 {
            self.cursor_position.x = 0;
        } else {
            self.cursor_position.x = self.text[self.cursor_position.y].as_str().unicode_len();
        }
        self.redraw = true;
    }

    /// Removes what stands before the cursor in its line, and puts the
    /// cursor at the start of the line.
    pub fn clear_to_here(&mut self)
        requires
            old(self).wf(),
        ensures
            final(self).lines() == old(self).lines().update(
                old(self).cursor_position.y as int,
                old(self).lines()[old(self).cursor_position.y as int].skip(
                    min_nat(
                        old(self).cursor_position.x as nat,
                        old(self).lines()[old(self).cursor_position.y as int].len(),
                    ) as int,
                ),
            ),
            final(self).cursor_position == (CursorPosition {
                x: 0,
                y: old(self).cursor_position.y,
            }),
            final(self).wf(),
            final(self).redraw,
            final(self).same_settings(*old(self)),
    {
        let y = self.cursor_position.y;
        let len = self.text[y].as_str().unicode_len();
        let cut = if self.cursor_position.x < len {
            self.cursor_position.x
        } else {
            len
        };
        let rest = self.text[y].as_str().substring_char(cut, len).to_owned();
        self.text.set(y, rest);
        self.cursor_position.x = 0;
        self.redraw = true;
        proof {
            let line = old(self).lines()[y as int];
            assert(line.skip(cut as int) =~= line.subrange(cut as int, len as int));
            assert(self.lines() =~= old(self).lines().update(y as int, line.skip(cut as int)));
        }
    }

    /// Removes what stands at and after the cursor in its line.
    pub fn clear_from_here(&mut self)
        requires
            old(self).wf(),
        ensures
            final(self).lines() == old(self).lines().update(
                old(self).cursor_position.y as int,
                old(self).lines()[old(self).cursor_position.y as int].take(
                    min_nat(
                        old(self).cursor_position.x as nat,
                        old(self).lines()[old(self).cursor_position.y as int].len(),
                    ) as int,
                ),
            ),
            final(self).cursor_position == old(self).cursor_position,
            final(self).wf(),
            final(self).redraw,
            final(self).same_settings(*old(self)),
    {
        let y = self.cursor_position.y;
        let len = self.text[y].as_str().unicode_len();
        let cut = if self.cursor_position.x < len {
            self.cursor_position.x
        } else {
            len
        };
        let kept = self.text[y].as_str().substring_char(0, cut).to_owned();
        self.text.set(y, kept);
        self.redraw = true;
        proof {
            let line = old(self).lines()[y as int];
            assert(line.take(cut as int) =~= line.subrange(0, cut as int));
            assert(self.lines() =~= old(self).lines().update(y as int, line.take(cut as int)));
        }
    }

    /// Whether the buffer has changed since it was last drawn.
    pub fn must_draw(&self) -> (r: bool)
        ensures
            r == self.redraw,
    {
        self.redraw
    }
}

/// The number of lines that a scroll offset hides at the bottom: none for an
/// offset of zero or more.
pub open spec fn scrolled_lines(scroll_offset: int) -> int {
    if scroll_offset < 0 {
        -scroll_offset
    } else {
        0
    }
}

/// The window that a viewport shows of `total` lines: the index of the first
/// line shown, and the vertical offset in pixels at which that line is drawn.
///
/// The lines hidden by the scroll offset are left out at the bottom. Of the
/// `n` lines that remain, as many are shown as fit into the viewport wholly
/// or in part, counted from the last. Where they do not all fit wholly, the
/// first line shown starts above the viewport by what is missing, so that
/// the last one ends at the bottom.
///
/// With the lines always at the top, the window starts at the first line
/// without an offset. With the lines always at the bottom, lines that are
/// not higher than the viewport stand at its bottom, and lines that
/// overflow it are shown as said above. With the bottom on overflow, lines
/// that overflow are shown as said above, and the others from the top.
pub open spec fn window(
    total: int,
    line_height: int,
    viewport: int,
    policy: VerticalAlignment,
    scroll_offset: int,
) -> (int, int)
    recommends
        line_height > 0,
{
    let n = total - scrolled_lines(scroll_offset);
    let fully_visible = viewport / line_height;
    let partially_visible = (viewport + line_height - 1) / line_height;
    let shown = min_int(partially_visible, n);
    let skipped = n - shown;
    let start_y = if n - min_int(fully_visible, n) > 0 {
        viewport - shown * line_height
    } else {
        0
    };
    match policy {
        VerticalAlignment::AlwaysTop => (0, 0),
        VerticalAlignment::AlwaysBottom => if n * line_height > viewport {
            (skipped, start_y)
        } else {
            (0, viewport - n * line_height)
        },
        VerticalAlignment::BottomOnOverflow => if n - min_int(fully_visible, n) > 0 {
            (skipped, start_y)
        } else {
            (0, 0)
        },
    }
}

/// Facts on the whole and the rounded-up quotient of a viewport height by a
/// line height.
pub proof fn lemma_visible_counts(line_height: int, viewport: int)
    requires
        line_height > 0,
        viewport >= 0,
    ensures
        0 <= viewport / line_height <= viewport,
        (viewport / line_height) * line_height <= viewport,
        viewport < (viewport / line_height + 1) * line_height,
        viewport / line_height <= (viewport + line_height - 1) / line_height <= viewport
            / line_height + 1,
        ((viewport + line_height - 1) / line_height) * line_height < viewport + line_height,
        ((viewport + line_height - 1) / line_height) * line_height >= viewport,
{
    let q = viewport / line_height;
    let p = (viewport + line_height - 1) / line_height;
    assert(viewport == q * line_height + viewport % line_height && 0 <= viewport % line_height
        < line_height && 0 <= q <= viewport) by (nonlinear_arith)
        requires
            line_height > 0,
            viewport >= 0,
            q == viewport / line_height,
    ;
    assert(viewport + line_height - 1 == p * line_height + (viewport + line_height - 1)
        % line_height && 0 <= (viewport + line_height - 1) % line_height < line_height)
        by (nonlinear_arith)
        requires
            line_height > 0,
            viewport >= 0,
            p == (viewport + line_height - 1) / line_height,
    ;
    assert(q <= p <= q + 1 && (q + 1) * line_height == q * line_height + line_height)
        by (nonlinear_arith)
        requires
            line_height > 0,
            viewport >= 0,
            viewport == q * line_height + viewport % line_height,
            0 <= viewport % line_height < line_height,
            viewport + line_height - 1 == p * line_height + (viewport + line_height - 1)
                % line_height,
            0 <= (viewport + line_height - 1) % line_height < line_height,
    ;
}

/// A product of two factors, each between zero and a bound of its own, lies
/// between zero and the product of the bounds.
pub proof fn lemma_product_bounds(a: int, b: int, a_max: int, b_max: int)
    requires
        0 <= a <= a_max,
        0 <= b <= b_max,
    ensures
        0 <= a * b <= a_max * b_max,
        a * b <= a_max * b,
{
    assert(0 <= a * b <= a_max * b_max && a * b <= a_max * b) by (nonlinear_arith)
        requires
            0 <= a <= a_max,
            0 <= b <= b_max,
    ;
}

impl Text {
    /// The window that a viewport of the given height shows of the lines of
    /// the buffer, for lines of the given height: the index of the first
    /// line shown and the vertical offset at which it is drawn.
    pub fn visible_window(
        &self,
        line_height_px: i32,
        viewport_height_px: i32,
        policy: VerticalAlignment,
        scroll_offset: i32,
    ) -> (r: (usize, i32))
        requires
            line_height_px > 0,
            viewport_height_px >= 0,
            scrolled_lines(scroll_offset as int) <= self.text@.len(),
        ensures
            (r.0 as int, r.1 as int) == window(
                self.text@.len() as int,
                line_height_px as int,
                viewport_height_px as int,
                policy,
                scroll_offset as int,
            ),
            r.0 <= self.text@.len(),
            -line_height_px < r.1 <= viewport_height_px,
    {
        let scroll_up: usize = if scroll_offset < 0 {
            if scroll_offset == i32::MIN {
                2147483648usize
            } else {
                (-scroll_offset) as usize
            }
        } else {
            0
        };
        let n: usize = self.text.len() - scroll_up;
        let fully_visible: usize = (viewport_height_px / line_height_px) as usize;
        let partially_visible: usize = ((viewport_height_px as i64 + line_height_px as i64 - 1)
            / (line_height_px as i64)) as usize;
        proof {
            lemma_visible_counts(line_height_px as int, viewport_height_px as int);
        }
        let shown: usize = if partially_visible < n {
            partially_visible
        } else {
            n
        };
        let skipped: usize = n - shown;
        proof {
            lemma_product_bounds(
                shown as int,
                line_height_px as int,
                partially_visible as int,
                line_height_px as int,
            );
            if n <= fully_visible {
                lemma_product_bounds(
                    n as int,
                    line_height_px as int,
                    fully_visible as int,
                    line_height_px as int,
                );
            } else {
                lemma_product_bounds(
                    fully_visible as int + 1,
                    line_height_px as int,
                    n as int,
                    line_height_px as int,
                );
            }
        }
        let start_y: i32 = if n > fully_visible {
            (viewport_height_px as i64 - (shown as i64) * (line_height_px as i64)) as i32
        } else {
            0
        };
        match policy {
            VerticalAlignment::AlwaysTop => (0, 0),
            VerticalAlignment::AlwaysBottom => {
                if n > fully_visible {
                    (skipped, start_y)
                } else {
                    (0, (viewport_height_px as i64 - (n as i64) * (line_height_px as i64)) as i32)
                }
            },
            VerticalAlignment::BottomOnOverflow => {
                if n > fully_visible {
                    (skipped, start_y)
                } else {
                    (0, 0)
                }
            },
        }
    }
}

/// The value of an option, or `default` where it has none.
pub open spec fn value_or<T>(option: Option<T>, default: T) -> T {
    match option {
        Some(value) => value,
        None => default,
    }
}

/// The value of an option, or `default` where it has none.
fn get_or<T>(option: Option<T>, default: T) -> (value: T)
    ensures
        value == value_or(option, default),
{
    match option {
        Some(value) => value,
        None => default,
    }
}

/// Black.
pub open spec fn black() -> Rgb {
    Rgb { r: 0, g: 0, b: 0 }
}

/// White.
pub open spec fn white() -> Rgb {
    Rgb { r: 255, g: 255, b: 255 }
}

/// Collects the settings of a buffer before it is made.
pub struct TextBuilder {
    pub position: Option<Vector2i>,
    pub size: Option<Vector2i>,
    pub vertical_alignment: Option<VerticalAlignment>,
    pub font_scale: Option<i32>,
    pub fg_color: Option<Rgb>,
    pub bg_color: Option<Rgb>,
    pub cursor_insert_color: Option<Rgb>,
    pub cursor_normal_color: Option<Rgb>,
    pub bold: Option<bool>,
    pub cursor_state: Option<CursorState>,
    pub insert_mode: Option<InsertMode>,
}

impl TextBuilder {
    /// A builder with nothing set.
    pub fn new() -> (builder: TextBuilder)
        ensures
            builder == (TextBuilder {
                position: None,
                size: None,
                vertical_alignment: None,
                font_scale: None,
                fg_color: None,
                bg_color: None,
                cursor_insert_color: None,
                cursor_normal_color: None,
                bold: None,
                cursor_state: None,
                insert_mode: None,
            }),
    {
        TextBuilder {
            position: None,
            size: None,
            vertical_alignment: None,
            font_scale: None,
            fg_color: None,
            bg_color: None,
            cursor_insert_color: None,
            cursor_normal_color: None,
            bold: None,
            cursor_state: None,
            insert_mode: None,
        }
    }

    /// Sets the edit mode.
    pub fn insert_mode(self, insert_mode: InsertMode) -> (builder: TextBuilder)
        ensures
            builder == (TextBuilder { insert_mode: Some(insert_mode), ..self }),
    {
        TextBuilder { insert_mode: Some(insert_mode), ..self }
    }

    /// Sets the position.
    pub fn position(self, position: Vector2i) -> (builder: TextBuilder)
        ensures
            builder == (TextBuilder { position: Some(position), ..self }),
    {
        TextBuilder { position: Some(position), ..self }
    }

    /// Sets the size.
    pub fn size(self, size: Vector2i) -> (builder: TextBuilder)
        ensures
            builder == (TextBuilder { size: Some(size), ..self }),
    {
        TextBuilder { size: Some(size), ..self }
    }

    /// Sets the alignment of the lines in the viewport.
    pub fn vertical_alignment(self, vertical_alignment: VerticalAlignment) -> (builder:
        TextBuilder)
        ensures
            builder == (TextBuilder { vertical_alignment: Some(vertical_alignment), ..self }),
    {
        TextBuilder { vertical_alignment: Some(vertical_alignment), ..self }
    }

    /// Sets the scale of the font.
    pub fn font_scale(self, font_scale: i32) -> (builder: TextBuilder)
        ensures
            builder == (TextBuilder { font_scale: Some(font_scale), ..self }),
    {
        TextBuilder { font_scale: Some(font_scale), ..self }
    }

    /// Sets the foreground colour.
    pub fn fg_color(self, fg_color: Rgb) -> (builder: TextBuilder)
        ensures
            builder == (TextBuilder { fg_color: Some(fg_color), ..self }),
    {
        TextBuilder { fg_color: Some(fg_color), ..self }
    }

    /// Sets the background colour.
    pub fn bg_color(self, bg_color: Rgb) -> (builder: TextBuilder)
        ensures
            builder == (TextBuilder { bg_color: Some(bg_color), ..self }),
    {
        TextBuilder { bg_color: Some(bg_color), ..self }
    }

    /// Sets the colour of the cursor in insert mode.
    pub fn cursor_insert_color(self, cursor_insert_color: Rgb) -> (builder: TextBuilder)
        ensures
            builder == (TextBuilder { cursor_insert_color: Some(cursor_insert_color), ..self }),
    {
        TextBuilder { cursor_insert_color: Some(cursor_insert_color), ..self }
    }

    /// Sets the colour of the cursor in normal mode.
    pub fn cursor_normal_color(self, cursor_normal_color: Rgb) -> (builder: TextBuilder)
        ensures
            builder == (TextBuilder { cursor_normal_color: Some(cursor_normal_color), ..self }),
    {
        TextBuilder { cursor_normal_color: Some(cursor_normal_color), ..self }
    }

    /// Sets whether the text is bold.
    pub fn bold(self, bold: bool) -> (builder: TextBuilder)
        ensures
            builder == (TextBuilder { bold: Some(bold), ..self }),
    {
        TextBuilder { bold: Some(bold), ..self }
    }

    /// Sets how the cursor is drawn.
    pub fn cursor_state(self, cursor_state: CursorState) -> (builder: TextBuilder)
        ensures
            builder == (TextBuilder { cursor_state: Some(cursor_state), ..self }),
    {
        TextBuilder { cursor_state: Some(cursor_state), ..self }
    }

    /// The buffer with the settings collected: one empty line, the cursor at
    /// its start, and for each setting its value or its default.
    pub fn build(self) -> (text: Text)
        ensures
            text.lines() == seq![Seq::<char>::empty()],
            text.text@.len() == 1,
            text.cursor_position == (CursorPosition { x: 0, y: 0 }),
            text.wf(),
            text.redraw,
            text.scroll_pos_y == 0,
            text.position == value_or(self.position, Vector2i { x: 0, y: 0 }),
            text.size == value_or(self.size, Vector2i { x: 1, y: 1 }),
            text.vertical_alignment == value_or(
                self.vertical_alignment,
                VerticalAlignment::AlwaysTop,
            ),
            text.font_scale == value_or(self.font_scale, 1),
            text.fg_color == value_or(self.fg_color, black()),
            text.bg_color == value_or(self.bg_color, white()),
            text.cursor_insert_color == value_or(self.cursor_insert_color, text.fg_color),
            text.cursor_normal_color == value_or(self.cursor_normal_color, black()),
            text.bold == value_or(self.bold, false),
            text.cursor_state == value_or(self.cursor_state, CursorState::Hidden),
            text.insert_mode == value_or(self.insert_mode, InsertMode::Overwrite),
    {
        let fg_color = get_or(self.fg_color, Rgb { r: 0, g: 0, b: 0 });
        let mut lines: Vec<String> = Vec::new();
        lines.push(String::new());
        let text = Text {
            text: lines,
            position: get_or(self.position, Vector2i { x: 0, y: 0 }),
            size: get_or(self.size, Vector2i { x: 1, y: 1 }),
            vertical_alignment: get_or(self.vertical_alignment, VerticalAlignment::AlwaysTop),
            font_scale: get_or(self.font_scale, 1),
            ansi_colors: AnsiColor::new(),
            fg_color,
            bg_color: get_or(self.bg_color, Rgb { r: 255, g: 255, b: 255 }),
            cursor_insert_color: get_or(self.cursor_insert_color, fg_color),
            cursor_normal_color: get_or(self.cursor_normal_color, Rgb { r: 0, g: 0, b: 0 }),
            bold: get_or(self.bold, false),
            redraw: true,
            cursor_state: get_or(self.cursor_state, CursorState::Hidden),
            cursor_position: CursorPosition { x: 0, y: 0 },
            scroll_pos_y: 0,
            insert_mode: get_or(self.insert_mode, InsertMode::Overwrite),
        };
        proof {
            assert(text.lines() =~= seq![Seq::<char>::empty()]);
        }
        text
    }
}

impl Default for TextBuilder {
    fn default() -> (builder: TextBuilder)
        ensures
            builder == (TextBuilder {
                position: None,
                size: None,
                vertical_alignment: None,
                font_scale: None,
                fg_color: None,
                bg_color: None,
                cursor_insert_color: None,
                cursor_normal_color: None,
                bold: None,
                cursor_state: None,
                insert_mode: None,
            }),
    {
        TextBuilder::new()
    }
}

impl Text {
    /// Sets how the cursor is drawn, and hands the buffer on.
    pub fn cursor_state(&mut self, cursor_state: CursorState) -> (text: &mut Text)
        ensures
            *text == (Text { cursor_state, ..*old(self) }),
            *final(self) == *final(text),
    {
        self.cursor_state = cursor_state;
        self
    }

    /// Sets how the cursor is drawn, and marks the buffer for redrawing.
    pub fn set_cursor_state(&mut self, cursor_state: CursorState)
        ensures
            *final(self) == (Text { cursor_state, redraw: true, ..*old(self) }),
    {
        self.cursor_state(cursor_state);
        self.redraw = true;
    }
}

/// The size, with each extent raised to at least 1.
pub open spec fn at_least_one(size: Vector2i) -> Vector2i {
    Vector2i { x: if size.x < 1 { 1 } else { size.x }, y: if size.y < 1 { 1 } else { size.y } }
}

impl Text {
    /// Whether the buffer is empty and has the default settings: one empty
    /// line with the cursor at its start, marked for redrawing and not
    /// scrolled; at the origin with a size of one pixel; aligned to the top,
    /// in overwrite mode, the cursor hidden; the font not scaled; black on
    /// white and not bold, both cursor colours black.
    pub open spec fn is_fresh(&self) -> bool {
        &&& self.lines() == seq![Seq::<char>::empty()]
        &&& self.text@.len() == 1
        &&& self.cursor_position == (CursorPosition { x: 0, y: 0 })
        &&& self.wf()
        &&& self.redraw
        &&& self.scroll_pos_y == 0
        &&& self.position == (Vector2i { x: 0, y: 0 })
        &&& self.size == (Vector2i { x: 1, y: 1 })
        &&& self.vertical_alignment == VerticalAlignment::AlwaysTop
        &&& self.insert_mode == InsertMode::Overwrite
        &&& self.cursor_state == CursorState::Hidden
        &&& self.font_scale == 1
        &&& self.fg_color == black()
        &&& self.bg_color == white()
        &&& self.cursor_insert_color == black()
        &&& self.cursor_normal_color == black()
        &&& !self.bold
    }

    /// An empty buffer with the default settings.
    pub fn new() -> (text: Text)
        ensures
            text.is_fresh(),
    {
        TextBuilder::new().build()
    }

    /// Sets the position and the size, each extent of the size at least 1,
    /// and hands the buffer on.
    pub fn position_size(&mut self, position: Vector2i, size: Vector2i) -> (text: &mut Text)
        ensures
            *text == (Text { position, size: at_least_one(size), ..*old(self) }),
            *final(self) == *final(text),
    {
        let size_x = if size.x < 1 {
            1
        } else {
            size.x
        };
        let size_y = if size.y < 1 {
            1
        } else {
            size.y
        };
        self.position = position;
        self.size = Vector2i { x: size_x, y: size_y };
        self
    }

    /// Sets the position and the size, and marks the buffer for redrawing.
    pub fn set_position_size(&mut self, position: Vector2i, size: Vector2i)
        ensures
            *final(self) == (Text {
                position,
                size: at_least_one(size),
                redraw: true,
                ..*old(self)
            }),
    {
        self.position_size(position, size);
        self.redraw = true;
    }

    /// Sets the colours of the cursor, and hands the buffer on.
    pub fn cursor_colors(&mut self, insert: Rgb, normal: Rgb) -> (text: &mut Text)
        ensures
            *text == (Text {
                cursor_insert_color: insert,
                cursor_normal_color: normal,
                ..*old(self)
            }),
            *final(self) == *final(text),
    {
        self.cursor_insert_color = insert;
        self.cursor_normal_color = normal;
        self
    }

    /// Sets the colours of the cursor, and marks the buffer for redrawing.
    pub fn set_cursor_colors(&mut self, insert: Rgb, normal: Rgb)
        ensures
            *final(self) == (Text {
                cursor_insert_color: insert,
                cursor_normal_color: normal,
                redraw: true,
                ..*old(self)
            }),
    {
        self.cursor_colors(insert, normal);
        self.redraw = true;
    }

    /// Sets the alignment of the lines in the viewport, and hands the buffer
    /// on.
    pub fn vertical_alignment(&mut self, vertical_alignment: VerticalAlignment) -> (text:
        &mut Text)
        ensures
            *text == (Text { vertical_alignment, ..*old(self) }),
            *final(self) == *final(text),
    {
        self.vertical_alignment = vertical_alignment;
        self
    }

    /// Sets the foreground colour, and hands the buffer on.
    pub fn foreground_color(&mut self, color: Rgb) -> (text: &mut Text)
        ensures
            *text == (Text { fg_color: color, ..*old(self) }),
            *final(self) == *final(text),
    {
        self.fg_color = color;
        self
    }

    /// Sets the background colour, and hands the buffer on.
    pub fn background_color(&mut self, color: Rgb) -> (text: &mut Text)
        ensures
            *text == (Text { bg_color: color, ..*old(self) }),
            *final(self) == *final(text),
    {
        self.bg_color = color;
        self
    }

    /// Sets the background colour, and marks the buffer for redrawing.
    pub fn set_background_color(&mut self, color: Rgb)
        ensures
            *final(self) == (Text { bg_color: color, redraw: true, ..*old(self) }),
    {
        self.background_color(color);
        self.redraw = true;
    }

    /// How the cursor is drawn.
    pub fn get_cursor_state(&self) -> (state: CursorState)
        ensures
            state == self.cursor_state,
    {
        self.cursor_state
    }

    /// The size of the viewport.
    pub fn get_size(&self) -> (size: Vector2i)
        ensures
            size == self.size,
    {
        self.size
    }

    /// The window that the viewport of the buffer shows with its own
    /// settings, for a font whose characters are `char_height` pixels high
    /// before scaling: the number of lines above the scroll position, and
    /// the window of them as `window` gives it.
    pub open spec fn scroll_position(&self, char_height: int) -> (int, int, int) {
        let shown = window(
            self.text@.len() as int,
            char_height * self.font_scale,
            self.size.y as int,
            self.vertical_alignment,
            self.scroll_pos_y as int,
        );
        (self.text@.len() - scrolled_lines(self.scroll_pos_y as int), shown.0, shown.1)
    }

    /// The window that the viewport of the buffer shows, for a font whose
    /// characters are `char_height` pixels high before scaling: the number
    /// of lines above the scroll position, the index of the first line
    /// shown, and the vertical offset at which it is drawn.
    pub fn calculate_scroll_position(&self, char_height: i32) -> (r: (usize, usize, i32))
        requires
            0 < char_height * self.font_scale <= i32::MAX,
            self.size.y >= 0,
            scrolled_lines(self.scroll_pos_y as int) <= self.text@.len(),
        ensures
            (r.0 as int, r.1 as int, r.2 as int) == self.scroll_position(char_height as int),
    {
        let font_height = char_height * self.font_scale;
        let scroll_up: usize = if self.scroll_pos_y < 0 {
            if self.scroll_pos_y == i32::MIN {
                2147483648usize
            } else {
                (-self.scroll_pos_y) as usize
            }
        } else {
            0
        };
        let (skipped, start_y) = self.visible_window(
            font_height,
            self.size.y,
            self.vertical_alignment,
            self.scroll_pos_y,
        );
        (self.text.len() - scroll_up, skipped, start_y)
    }
}

impl Default for Text {
    fn default() -> (text: Text)
        ensures
            text.is_fresh(),
    {
        Text::new()
    }
}

/// Two results of `visible_window` for the same number of lines and the
/// same arguments are the same pair: asking twice of an unchanged buffer
/// gives the same window.
pub proof fn lemma_visible_window_repeats(
    a: Text,
    b: Text,
    line_height_px: i32,
    viewport_height_px: i32,
    policy: VerticalAlignment,
    scroll_offset: i32,
    first: (usize, i32),
    second: (usize, i32),
)
    requires
        a.text@.len() == b.text@.len(),
        (first.0 as int, first.1 as int) == window(
            a.text@.len() as int,
            line_height_px as int,
            viewport_height_px as int,
            policy,
            scroll_offset as int,
        ),
        (second.0 as int, second.1 as int) == window(
            b.text@.len() as int,
            line_height_px as int,
            viewport_height_px as int,
            policy,
            scroll_offset as int,
        ),
    ensures
        first == second,
{
}

/// With the lines always at the top, the window starts at the first line
/// with no offset.
pub proof fn lemma_window_always_top(total: int, line_height: int, viewport: int, scroll: int)
    ensures
        window(total, line_height, viewport, VerticalAlignment::AlwaysTop, scroll) == (0int, 0int),
{
}

/// The window leaves out no more lines than stand above the scroll
/// position, and draws the first line shown less than one line height above
/// the viewport.
pub proof fn lemma_window_bounds(
    total: int,
    line_height: int,
    viewport: int,
    policy: VerticalAlignment,
    scroll: int,
)
    requires
        line_height > 0,
        viewport >= 0,
        0 <= scrolled_lines(scroll) <= total,
    ensures
        0 <= window(total, line_height, viewport, policy, scroll).0 <= total - scrolled_lines(
            scroll,
        ),
        -line_height < window(total, line_height, viewport, policy, scroll).1 <= viewport,
{
    let n = total - scrolled_lines(scroll);
    let partially_visible = (viewport + line_height - 1) / line_height;
    let shown = min_int(partially_visible, n);
    lemma_visible_counts(line_height, viewport);
    lemma_product_bounds(shown, line_height, partially_visible, line_height);
    lemma_product_bounds(n, line_height, n, line_height);
}

/// Whether the text holds no escape marker, carriage return or line feed.
pub open spec fn is_plain(s: Seq<char>) -> bool {
    forall|i: int|
        0 <= i < s.len() ==> (#[trigger] s[i]) != '\x1b' && s[i] != '\r' && s[i] != '\n'
}

/// Writing plain text writes its characters at the cursor, one after the
/// other.
pub proof fn lemma_write_plain(g: Grid, s: Seq<char>, i: int, mode: InsertMode)
    requires
        is_plain(s),
        0 <= i <= s.len(),
    ensures
        write_from(g, s, i, mode) == put_all(g, s, i, mode),
    decreases s.len() - i,
{
    if i < s.len() {
        assert(s[i] != '\x1b' && s[i] != '\r' && s[i] != '\n');
        lemma_write_plain(put(g, s[i], mode), s, i + 1, mode);
    }
}

/// In insert mode, characters written at a cursor within its line stand
/// between what stood before the cursor and what stood after it, and the
/// cursor stands behind them. No other line changes.
pub proof fn lemma_put_all_insert(g: Grid, s: Seq<char>, i: int)
    requires
        g.y < g.lines.len(),
        g.x <= g.lines[g.y as int].len(),
        0 <= i <= s.len(),
    ensures
        put_all(g, s, i, InsertMode::Insert) == (Grid {
            lines: g.lines.update(
                g.y as int,
                g.lines[g.y as int].take(g.x as int) + s.skip(i) + g.lines[g.y as int].skip(
                    g.x as int,
                ),
            ),
            x: (g.x + s.len() - i) as nat,
            y: g.y,
        }),
    decreases s.len() - i,
{
    let line = g.lines[g.y as int];
    if i < s.len() {
        let next = put(g, s[i], InsertMode::Insert);
        let grown = line.insert(g.x as int, s[i]);
        assert(next.lines[g.y as int] == grown);
        lemma_put_all_insert(next, s, i + 1);
        assert(grown.take(g.x as int + 1) + s.skip(i + 1) + grown.skip(g.x as int + 1) =~= line.take(
            g.x as int,
        ) + s.skip(i) + line.skip(g.x as int));
        assert(next.lines.update(
            g.y as int,
            grown.take(g.x as int + 1) + s.skip(i + 1) + grown.skip(g.x as int + 1),
        ) =~= g.lines.update(
            g.y as int,
            line.take(g.x as int) + s.skip(i) + line.skip(g.x as int),
        ));
    } else {
        assert(line.take(g.x as int) + s.skip(i) + line.skip(g.x as int) =~= line);
        assert(g.lines.update(g.y as int, line) =~= g.lines);
    }
}

/// In overwrite mode, characters written at a cursor within its line take
/// the place of as many characters from the cursor on, or are added where
/// the line ends before that, and the cursor stands behind them. No other
/// line changes.
pub proof fn lemma_put_all_overwrite(g: Grid, s: Seq<char>, i: int)
    requires
        g.y < g.lines.len(),
        g.x <= g.lines[g.y as int].len(),
        0 <= i <= s.len(),
    ensures
        put_all(g, s, i, InsertMode::Overwrite) == (Grid {
            lines: g.lines.update(
                g.y as int,
                g.lines[g.y as int].take(g.x as int) + s.skip(i) + g.lines[g.y as int].skip(
                    min_int(g.x + s.len() - i, g.lines[g.y as int].len() as int),
                ),
            ),
            x: (g.x + s.len() - i) as nat,
            y: g.y,
        }),
    decreases s.len() - i,
{
    let line = g.lines[g.y as int];
    let end = min_int(g.x + s.len() - i, line.len() as int);
    if i < s.len() {
        let next = put(g, s[i], InsertMode::Overwrite);
        let changed = put_char(line, g.x, s[i], InsertMode::Overwrite);
        assert(next.lines[g.y as int] == changed);
        assert(pad(line, g.x) == line);
        lemma_put_all_overwrite(next, s, i + 1);
        let next_end = min_int(g.x + 1 + s.len() - (i + 1), changed.len() as int);
        assert(changed.take(g.x as int + 1) + s.skip(i + 1) + changed.skip(next_end) =~= line.take(
            g.x as int,
        ) + s.skip(i) + line.skip(end));
        assert(next.lines.update(
            g.y as int,
            changed.take(g.x as int + 1) + s.skip(i + 1) + changed.skip(next_end),
        ) =~= g.lines.update(g.y as int, line.take(g.x as int) + s.skip(i) + line.skip(end)));
    } else {
        assert(line.take(g.x as int) + s.skip(i) + line.skip(end) =~= line);
        assert(g.lines.update(g.y as int, line) =~= g.lines);
    }
}

/// Plain text written to an empty buffer is its one line, and the cursor
/// stands at the end of it.
pub proof fn lemma_write_to_empty(s: Seq<char>, mode: InsertMode)
    requires
        is_plain(s),
    ensures
        write_grid(Grid { lines: seq![Seq::<char>::empty()], x: 0, y: 0 }, s, mode) == (Grid {
            lines: seq![s],
            x: s.len(),
            y: 0,
        }),
{
    let empty = Seq::<char>::empty();
    let g = Grid { lines: seq![empty], x: 0, y: 0 };
    assert(grow(g.lines, 0) == g.lines);
    lemma_write_plain(g, s, 0, mode);
    match mode {
        InsertMode::Insert => lemma_put_all_insert(g, s, 0),
        InsertMode::Overwrite => lemma_put_all_overwrite(g, s, 0),
    }
    assert(s.skip(0) =~= s);
    assert(empty.take(0) + s + empty.skip(0) =~= s);
    assert(g.lines.update(0, s) =~= seq![s]);
}

/// Two results of `calculate_scroll_position` for buffers with the same
/// number of lines, the same scroll position, alignment, viewport height
/// and font scale, and for the same font, are the same triple: asking twice
/// of an unchanged buffer gives the same answer.
pub proof fn lemma_scroll_position_repeats(
    a: Text,
    b: Text,
    char_height: i32,
    first: (usize, usize, i32),
    second: (usize, usize, i32),
)
    requires
        a.text@.len() == b.text@.len(),
        a.scroll_pos_y == b.scroll_pos_y,
        a.vertical_alignment == b.vertical_alignment,
        a.size.y == b.size.y,
        a.font_scale == b.font_scale,
        (first.0 as int, first.1 as int, first.2 as int) == a.scroll_position(char_height as int),
        (second.0 as int, second.1 as int, second.2 as int) == b.scroll_position(
            char_height as int,
        ),
    ensures
        first == second,
{
}

/// Where the lines go to the bottom on overflow, they stand as with the
/// lines always at the bottom where they are higher than the viewport, and
/// at the top else.
pub proof fn lemma_bottom_on_overflow(total: int, line_height: int, viewport: int, scroll: int)
    requires
        line_height > 0,
        viewport >= 0,
        0 <= scrolled_lines(scroll) <= total,
    ensures
        window(total, line_height, viewport, VerticalAlignment::BottomOnOverflow, scroll) == (if (
        total - scrolled_lines(scroll)) * line_height > viewport {
            window(total, line_height, viewport, VerticalAlignment::AlwaysBottom, scroll)
        } else {
            (0int, 0int)
        }),
{
    let n = total - scrolled_lines(scroll);
    let fully_visible = viewport / line_height;
    lemma_visible_counts(line_height, viewport);
    if n <= fully_visible {
        lemma_product_bounds(n, line_height, fully_visible, line_height);
    } else {
        lemma_product_bounds(fully_visible + 1, line_height, n, line_height);
    }
}

} // verus!
