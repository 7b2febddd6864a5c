//! What a renderer draws of a buffer: the glyphs of its lines with their
//! colours, and the cursor.

use vstd::prelude::*;
use vstd::string::StrSliceExecFns;
use crate::chars::to_chars;
use crate::color::{
    color_code_at, lemma_color_code_bounds, resolve_code, AnsiColor, ColorType, Rgb, ESC,
};
use crate::text::{CursorState, Text};

verus! {

/// The colours and the weight that glyphs are drawn with.
#[derive(Clone, Copy, Debug, PartialEq, Eq, Structural)]
pub struct Style {
    pub fg: Rgb,
    pub bg: Rgb,
    pub bold: bool,
}

/// One glyph to draw: the character, its column among the glyphs of its
/// line, the row of the line among the lines drawn, and its style.
#[derive(Clone, Copy, Debug, PartialEq, Eq, Structural)]
pub struct Cell {
    pub column: usize,
    pub row: usize,
    pub ch: char,
    pub style: Style,
}

/// How the cursor is painted.
#[derive(Clone, Copy, Debug, PartialEq, Eq, Structural)]
pub enum CursorPaint {
    /// In this colour.
    Solid(Rgb),
    /// In the colour halfway between the two.
    Mixed(Rgb, Rgb),
}

/// The colour of a code, or `fallback` where it has none.
pub open spec fn color_or(code: usize, fallback: Rgb) -> Rgb {
    match resolve_code(code as int) {
        Some(color) => color,
        None => fallback,
    }
}

/// The style after one colour or style operation. A palette colour that its
/// code does not name leaves the colour as it is; italic has no effect.
pub open spec fn styled(style: Style, defaults: Style, token: ColorType) -> Style {
    match token {
        ColorType::Regular(code) => Style { fg: color_or(code, style.fg), ..style },
        ColorType::HighIntensity(code) => Style { fg: color_or(code, style.fg), ..style },
        ColorType::Background(code) => Style { bg: color_or(code, style.bg), ..style },
        ColorType::BackgroundHighIntensity(code) => Style {
            bg: color_or(code, style.bg),
            ..style
        },
        ColorType::TrueColorFg(r, g, b) => Style { fg: Rgb { r, g, b }, ..style },
        ColorType::TrueColorBg(r, g, b) => Style { bg: Rgb { r, g, b }, ..style },
        ColorType::ResetFg => Style { fg: defaults.fg, ..style },
        ColorType::ResetBg => Style { bg: defaults.bg, ..style },
        ColorType::Reset => Style { fg: defaults.fg, bg: defaults.bg, bold: false },
        ColorType::Bold => Style { bold: true, ..style },
        ColorType::Italic => style,
    }
}

/// The style after the operations from position `i` on, one after the
/// other.
pub open spec fn styled_all(style: Style, defaults: Style, tokens: Seq<ColorType>, i: int) -> Style
    decreases tokens.len() - i,
{
    if i < 0 || i >= tokens.len() {
        style
    } else {
        styled_all(styled(style, defaults, tokens[i]), defaults, tokens, i + 1)
    }
}

/// The number of characters that the escape marker at position `i` takes
/// out of the glyphs: those of the SGR sequence that starts there, or the
/// marker alone where none does.
pub open spec fn hidden_at(line: Seq<char>, i: int) -> int {
    let count = color_code_at(line, i).0;
    if count >= 1 {
        count
    } else {
        1
    }
}

/// The glyph in the column and row given.
pub open spec fn cell_at(column: int, row: usize, ch: char, style: Style) -> Cell {
    Cell { column: #[verifier::truncate] (column as usize), row, ch, style }
}

/// The glyphs of a line from position `i` on, where `column` glyphs stand
/// before it, and the style that holds at the end of the line.
///
/// An escape marker and the SGR sequence that it starts are no glyphs; the
/// operations of the sequence change the style of what follows. Every other
/// character is a glyph in the next column.
pub open spec fn line_cells(
    line: Seq<char>,
    i: int,
    column: int,
    row: usize,
    style: Style,
    defaults: Style,
) -> (Seq<Cell>, Style)
    decreases line.len() - i,
    via line_cells_decreases
{
    if i < 0 || i >= line.len() {
        (Seq::empty(), style)
    } else if line[i] == '\x1b' {
        line_cells(
            line,
            i + hidden_at(line, i),
            column,
            row,
            styled_all(style, defaults, color_code_at(line, i).1, 0),
            defaults,
        )
    } else {
        let rest = line_cells(line, i + 1, column + 1, row, style, defaults);
        (seq![cell_at(column, row, line[i], style)] + rest.0, rest.1)
    }
}

#[via_fn]
proof fn line_cells_decreases(
    line: Seq<char>,
    i: int,
    column: int,
    row: usize,
    style: Style,
    defaults: Style,
) {
    if 0 <= i < line.len() {
        lemma_color_code_bounds(line, i);
    }
}

/// The glyphs of the lines from `from` up to `to`, row by row, where the
/// style at the end of one line holds at the start of the next.
pub open spec fn text_cells(
    lines: Seq<Seq<char>>,
    from: int,
    to: int,
    row: int,
    style: Style,
    defaults: Style,
) -> Seq<Cell>
    decreases to - from,
{
    if from < 0 || from >= to || to > lines.len() {
        Seq::empty()
    } else {
        let here = line_cells(lines[from], 0, 0, row as usize, style, defaults);
        here.0 + text_cells(lines, from + 1, to, row + 1, here.1, defaults)
    }
}

/// How a cursor in the state is painted with the colours given; a hidden
/// cursor is not painted.
pub open spec fn cursor_paint_of(
    state: CursorState,
    normal: Rgb,
    insert: Rgb,
    fg: Rgb,
    bg: Rgb,
) -> Option<CursorPaint> {
    match state {
        CursorState::NormalActive => Some(CursorPaint::Solid(normal)),
        CursorState::NormalInactive => Some(CursorPaint::Mixed(normal, bg)),
        CursorState::InsertActive => Some(CursorPaint::Solid(insert)),
        CursorState::InsertInactive => Some(CursorPaint::Mixed(fg, bg)),
        CursorState::Hidden => None,
    }
}

/// The style after one colour or style operation.
fn apply_token(colors: &AnsiColor, style: Style, defaults: Style, token: ColorType) -> (next: Style)
    ensures
        next == styled(style, defaults, token),
{
    match token {
        ColorType::Regular(code) => match colors.get_color_from_ansi(code) {
            Some(color) => Style { fg: color, ..style },
            None => style,
        },
        ColorType::HighIntensity(code) => match colors.get_color_from_ansi(code) {
            Some(color) => Style { fg: color, ..style },
            None => style,
        },
        ColorType::Background(code) => match colors.get_color_from_ansi(code) {
            Some(color) => Style { bg: color, ..style },
            None => style,
        },
        ColorType::BackgroundHighIntensity(code) => match colors.get_color_from_ansi(code) {
            Some(color) => Style { bg: color, ..style },
            None => style,
        },
        ColorType::TrueColorFg(r, g, b) => Style { fg: Rgb { r, g, b }, ..style },
        ColorType::TrueColorBg(r, g, b) => Style { bg: Rgb { r, g, b }, ..style },
        ColorType::ResetFg => Style { fg: defaults.fg, ..style },
        ColorType::ResetBg => Style { bg: defaults.bg, ..style },
        ColorType::Reset => Style { fg: defaults.fg, bg: defaults.bg, bold: false },
        ColorType::Bold => Style { bold: true, ..style },
        ColorType::Italic => style,
    }
}

/// Appends one glyph to `cells`.
fn push_cell(cells: &mut Vec<Cell>, column: usize, row: usize, ch: char, style: Style)
    ensures
        final(cells)@ == old(cells)@ + seq![cell_at(column as int, row, ch, style)],
{
    cells.push(Cell { column, row, ch, style });
    proof {
        assert(cells@ =~= old(cells)@ + seq![cell_at(column as int, row, ch, style)]);
    }
}

/// Appends the glyphs of a line to `cells`, and returns the style that
/// holds at its end.
fn push_line_cells(
    colors: &AnsiColor,
    cells: &mut Vec<Cell>,
    line: &Vec<char>,
    row: usize,
    style: Style,
    defaults: Style,
) -> (end: Style)
    ensures
        final(cells)@ == old(cells)@ + line_cells(line@, 0, 0, row, style, defaults).0,
        end == line_cells(line@, 0, 0, row, style, defaults).1,
{
    let mut i: usize = 0;
    let mut column: usize = 0;
    let mut current = style;
    proof {
        assert(cells@ + line_cells(line@, 0, 0, row, style, defaults).0 =~= old(cells)@
            + line_cells(line@, 0, 0, row, style, defaults).0);
    }
    while i < line.len()
        invariant
            i <= line.len(),
            column <= i,
            old(cells)@ + line_cells(line@, 0, 0, row, style, defaults).0 == cells@ + line_cells(
                line@,
                i as int,
                column as int,
                row,
                current,
                defaults,
            ).0,
            line_cells(line@, 0, 0, row, style, defaults).1 == line_cells(
                line@,
                i as int,
                column as int,
                row,
                current,
                defaults,
            ).1,
        decreases line.len() - i,
    {
        let c = line[i];
        if c == ESC {
            let (count, tokens) = colors.parse_color_code_at(line, i);
            let ghost start = current;
            let mut k: usize = 0;
            while k < tokens.len()
                invariant
                    k <= tokens.len(),
                    styled_all(start, defaults, tokens@, 0) == styled_all(
                        current,
                        defaults,
                        tokens@,
                        k as int,
                    ),
                decreases tokens.len() - k,
            {
                current = apply_token(colors, current, defaults, tokens[k]);
                k += 1;
            }
            i += if count >= 1 {
                count
            } else {
                1
            };
        } else {
            let ghost before = cells@;
            push_cell(cells, column, row, c, current);
            proof {
                let rest = line_cells(
                    line@,
                    i as int + 1,
                    column as int + 1,
                    row,
                    current,
                    defaults,
                );
                assert(cells@ + rest.0 =~= before + (seq![
                    cell_at(column as int, row, c, current),
                ] + rest.0));
            }
            i += 1;
            column += 1;
        }
    }
    proof {
        assert(cells@ + Seq::<Cell>::empty() =~= cells@);
    }
    current
}

impl Text {
    /// The colours and the weight that the buffer is drawn with where its
    /// text says nothing else.
    pub open spec fn default_style(&self) -> Style {
        Style { fg: self.fg_color, bg: self.bg_color, bold: self.bold }
    }

    /// The glyphs of the lines from `first` up to `end`, for a renderer to
    /// draw: for each its column and row among what is drawn, and its style.
    pub fn cells(&self, first: usize, end: usize) -> (cells: Vec<Cell>)
        requires
            first <= end <= self.text@.len(),
        ensures
            cells@ == text_cells(
                self.lines(),
                first as int,
                end as int,
                0,
                self.default_style(),
                self.default_style(),
            ),
    {
        let defaults = Style { fg: self.fg_color, bg: self.bg_color, bold: self.bold };
        let mut cells: Vec<Cell> = Vec::new();
        let mut style = defaults;
        let mut y: usize = first;
        proof {
            assert(cells@ + text_cells(
                self.lines(),
                first as int,
                end as int,
                0,
                defaults,
                defaults,
            ) =~= text_cells(self.lines(), first as int, end as int, 0, defaults, defaults));
        }
        while y < end
            invariant
                first <= y <= end <= self.text@.len(),
                defaults == self.default_style(),
                text_cells(self.lines(), first as int, end as int, 0, defaults, defaults) == cells@
                    + text_cells(
                    self.lines(),
                    y as int,
                    end as int,
                    (y - first) as int,
                    style,
                    defaults,
                ),
            decreases end - y,
        {
            let line = to_chars(self.text[y].as_str());
            let ghost before = cells@;
            let ghost here = line_cells(line@, 0, 0, (y - first) as usize, style, defaults);
            let ghost rest = text_cells(
                self.lines(),
                y as int + 1,
                end as int,
                (y - first) as int + 1,
                here.1,
                defaults,
            );
            let next = push_line_cells(&self.ansi_colors, &mut cells, &line, y - first, style, defaults);
            proof {
                assert(self.lines()[y as int] == line@);
                assert(cells@ + rest =~= before + (here.0 + rest));
            }
            style = next;
            y += 1;
        }
        proof {
            assert(cells@ + Seq::<Cell>::empty() =~= cells@);
        }
        cells
    }

    /// How the cursor is painted; nothing where it is hidden.
    pub fn cursor_paint(&self) -> (paint: Option<CursorPaint>)
        ensures
            paint == cursor_paint_of(
                self.cursor_state,
                self.cursor_normal_color,
                self.cursor_insert_color,
                self.fg_color,
                self.bg_color,
            ),
    {
        match self.cursor_state {
            CursorState::NormalActive => Some(CursorPaint::Solid(self.cursor_normal_color)),
            CursorState::NormalInactive => Some(
                CursorPaint::Mixed(self.cursor_normal_color, self.bg_color),
            ),
            CursorState::InsertActive => Some(CursorPaint::Solid(self.cursor_insert_color)),
            CursorState::InsertInactive => Some(CursorPaint::Mixed(self.fg_color, self.bg_color)),
            CursorState::Hidden => None,
        }
    }

    /// The character under the cursor; a space where the cursor stands
    /// beyond the end of its line.
    pub fn cursor_char(&self) -> (c: char)
        requires
            self.wf(),
        ensures
            c == if self.cursor_position.x < self.lines()[self.cursor_position.y as int].len() {
                self.lines()[self.cursor_position.y as int][self.cursor_position.x as int]
            } else {
                ' '
            },
    {
        let line = self.text[self.cursor_position.y].as_str();
        if self.cursor_position.x < line.unicode_len() {
            line.get_char(self.cursor_position.x)
        } else {
            ' '
        }
    }
}

} // verus!
