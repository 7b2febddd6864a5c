//! The decisions of the font editor: where its parts stand in the window,
//! what a key does, and which pixel or glyph the mouse points at.

use vstd::prelude::*;
use crate::font::{NUM_CHARS, NUM_CHARS_IGNORED, NUM_COLS, NUM_ROWS, NUM_ROWS_IGNORED};
use crate::num::{divide, max_int, quotient};
use crate::text::Vector2i;

verus! {

pub const KEY_B: usize = 1;

pub const KEY_C: usize = 2;

pub const KEY_H: usize = 7;

pub const KEY_N: usize = 13;

pub const KEY_P: usize = 15;

pub const KEY_V: usize = 21;

pub const KEY_ESCAPE: usize = 36;

pub const KEY_LEFT: usize = 71;

pub const KEY_RIGHT: usize = 72;

pub const KEY_UP: usize = 73;

pub const KEY_DOWN: usize = 74;

/// A button of the mouse.
#[derive(Clone, Copy, Debug, PartialEq, Eq, Structural)]
pub enum MouseButton {
    Left,
    Right,
    Middle,
    Other,
}

/// What a key does in the font editor.
#[derive(Clone, Copy, Debug, PartialEq, Eq, Structural)]
pub enum EditorAction {
    /// Closes the window.
    Close,
    /// Shows the glyph in this cell for editing.
    Show(i32),
    /// Copies the glyph under the mouse into the cell shown.
    CopyChar,
    FlipHorizontal,
    FlipVertical,
    MakeAllBold,
    /// Shifts the glyph shown by so many columns and rows.
    Shift(i32, i32),
    Nothing,
}

/// The sizes and the places of the parts of the editor window.
#[derive(Clone, Copy, Debug, PartialEq, Eq, Structural)]
pub struct EditorLayout {
    pub font_size: Vector2i,
    pub edit_char_scale: i32,
    pub font_scale: i32,
    pub sample_text_scale: i32,
    pub edit_char_offset: Vector2i,
    pub font_table_offset: Vector2i,
    pub sample_text_offset: Vector2i,
}

/// Whether a window with these sizes can be laid out: the sizes are
/// positive, and the parts end within the range of pixel coordinates.
pub open spec fn fits_window(font_size: Vector2i, edit_char_scale: i32, font_scale: i32) -> bool {
    &&& 1 <= font_size.x
    &&& 1 <= font_size.y
    &&& 1 <= edit_char_scale
    &&& 1 <= font_scale
    &&& 18 * (font_size.x * font_scale) + 16 <= i32::MAX
    &&& 2 * (font_size.x * font_scale) + font_size.x * edit_char_scale <= i32::MAX
    &&& 19 * (font_size.y * font_scale) + font_size.y * edit_char_scale <= i32::MAX
}

/// The layout for the sizes given. The glyph being edited stands one glyph
/// from the left and from the top; the table of glyphs below it, one line
/// further down; the sample text to the right of both.
pub open spec fn layout_of(
    font_size: Vector2i,
    edit_char_scale: i32,
    font_scale: i32,
    sample_text_scale: i32,
) -> EditorLayout {
    let font_width = font_size.x * font_scale;
    let font_height = font_size.y * font_scale;
    let table_right = font_width + (font_width + 1) * 16;
    let edit_right = font_width + font_size.x * edit_char_scale;
    EditorLayout {
        font_size,
        edit_char_scale,
        font_scale,
        sample_text_scale,
        edit_char_offset: Vector2i { x: font_width as i32, y: font_height as i32 },
        font_table_offset: Vector2i {
            x: font_width as i32,
            y: (font_height + font_size.y * edit_char_scale + font_height) as i32,
        },
        sample_text_offset: Vector2i {
            x: (max_int(table_right, edit_right) + font_width) as i32,
            y: font_height as i32,
        },
    }
}

/// The shade of grey that a button of the mouse paints: white for the
/// left, grey for the middle and black for the right one.
pub open spec fn button_color(button: MouseButton) -> Option<u8> {
    match button {
        MouseButton::Left => Some(0xffu8),
        MouseButton::Middle => Some(0x80u8),
        MouseButton::Right => Some(0x00u8),
        MouseButton::Other => None,
    }
}

/// What the key with the number given does while the cell `shown` is
/// edited.
pub open spec fn action_of_key(code: usize, shown: i32) -> EditorAction {
    if code == KEY_ESCAPE {
        EditorAction::Close
    } else if code == KEY_N {
        EditorAction::Show(((shown + 1) % 256) as i32)
    } else if code == KEY_P {
        EditorAction::Show(((shown + 255) % 256) as i32)
    } else if code == KEY_C {
        EditorAction::CopyChar
    } else if code == KEY_H {
        EditorAction::FlipHorizontal
    } else if code == KEY_V {
        EditorAction::FlipVertical
    } else if code == KEY_B {
        EditorAction::MakeAllBold
    } else if code == KEY_LEFT {
        EditorAction::Shift(-1i32, 0)
    } else if code == KEY_RIGHT {
        EditorAction::Shift(1, 0)
    } else if code == KEY_UP {
        EditorAction::Shift(0, -1i32)
    } else if code == KEY_DOWN {
        EditorAction::Shift(0, 1)
    } else {
        EditorAction::Nothing
    }
}

impl EditorLayout {
    /// The layout is that for its sizes, and these fit a window.
    pub open spec fn wf(&self) -> bool {
        &&& fits_window(self.font_size, self.edit_char_scale, self.font_scale)
        &&& *self == layout_of(
            self.font_size,
            self.edit_char_scale,
            self.font_scale,
            self.sample_text_scale,
        )
    }

    /// The pixel of the glyph being edited that the point of the window
    /// lies in, by its column and row.
    pub open spec fn pixel_of(&self, x: int, y: int) -> Option<(int, int)> {
        let column = quotient(x - self.edit_char_offset.x, self.edit_char_scale as int);
        let row = quotient(y - self.edit_char_offset.y, self.edit_char_scale as int);
        if 0 <= column < self.font_size.x && 0 <= row < self.font_size.y {
            Some((column, row))
        } else {
            None
        }
    }

    /// The cell of the table of glyphs that the point of the window lies
    /// in. The table shows the rows of the atlas from the first with glyphs
    /// on, one glyph to the right of and two below its corner.
    pub open spec fn cell_at(&self, x: int, y: int) -> Option<int> {
        let column = quotient(
            quotient(x - self.font_table_offset.x, self.font_size.x as int),
            self.font_scale as int,
        ) - 1;
        let row = quotient(
            quotient(y - self.font_table_offset.y, self.font_size.y as int),
            self.font_scale as int,
        ) - 2;
        if 0 <= column < 16 && 0 <= row < 16 {
            Some((row + 2) * 16 + column)
        } else {
            None
        }
    }

    /// Where the glyph of a cell stands in the window; nowhere for the
    /// cells that hold no glyph.
    pub open spec fn place_of(&self, cell: int) -> Option<Vector2i> {
        if cell < 32 {
            None
        } else {
            Some(
                Vector2i {
                    x: (((cell - 32) % 16 + 1) * (self.font_size.x * self.font_scale)
                        + self.font_table_offset.x) as i32,
                    y: (((cell - 32) / 16 + 2) * (self.font_size.y * self.font_scale)
                        + self.font_table_offset.y) as i32,
                },
            )
        }
    }

    /// The layout of the editor window for the sizes given.
    pub fn new(
        font_size: Vector2i,
        edit_char_scale: i32,
        font_scale: i32,
        sample_text_scale: i32,
    ) -> (layout: EditorLayout)
        requires
            fits_window(font_size, edit_char_scale, font_scale),
        ensures
            layout == layout_of(font_size, edit_char_scale, font_scale, sample_text_scale),
            layout.wf(),
    {
        let font_width = font_size.x * font_scale;
        let font_height = font_size.y * font_scale;
        let edit_width = font_size.x * edit_char_scale;
        let edit_height = font_size.y * edit_char_scale;
        let table_right = font_width + (font_width + 1) * NUM_COLS;
        let edit_right = font_width + edit_width;
        let right = if table_right >= edit_right {
            table_right
        } else {
            edit_right
        };
        EditorLayout {
            font_size,
            edit_char_scale,
            font_scale,
            sample_text_scale,
            edit_char_offset: Vector2i { x: font_width, y: font_height },
            font_table_offset: Vector2i { x: font_width, y: font_height + edit_height + font_height },
            sample_text_offset: Vector2i { x: right + font_width, y: font_height },
        }
    }

    /// The pixel of the glyph being edited that the mouse points at.
    pub fn set_pixel(&self, x: i32, y: i32) -> (pixel: Option<(i32, i32)>)
        requires
            self.wf(),
        ensures
            match pixel {
                Some((column, row)) => self.pixel_of(x as int, y as int) == Some(
                    (column as int, row as int),
                ),
                None => self.pixel_of(x as int, y as int) is None,
            },
    {
        let column = divide(x as i64 - self.edit_char_offset.x as i64, self.edit_char_scale as i64);
        let row = divide(y as i64 - self.edit_char_offset.y as i64, self.edit_char_scale as i64);
        if 0 <= column && column < self.font_size.x as i64 && 0 <= row && row
            < self.font_size.y as i64 {
            Some((column as i32, row as i32))
        } else {
            None
        }
    }

    /// The cell of the table of glyphs that the mouse points at.
    pub fn pick_char(&self, x: i32, y: i32) -> (cell: Option<i32>)
        requires
            self.wf(),
        ensures
            match cell {
                Some(index) => self.cell_at(x as int, y as int) == Some(index as int),
                None => self.cell_at(x as int, y as int) is None,
            },
    {
        let column = divide(
            divide(x as i64 - self.font_table_offset.x as i64, self.font_size.x as i64),
            self.font_scale as i64,
        ) - 1;
        let row = divide(
            divide(y as i64 - self.font_table_offset.y as i64, self.font_size.y as i64),
            self.font_scale as i64,
        ) - 2;
        if 0 <= column && column < NUM_COLS as i64 && 0 <= row && row < NUM_ROWS as i64 {
            Some(((row + NUM_ROWS_IGNORED as i64) * (NUM_COLS as i64) + column) as i32)
        } else {
            None
        }
    }

    /// Where the glyph of a cell stands in the window.
    pub fn font_char_pos(&self, cell: i32) -> (place: Option<Vector2i>)
        requires
            self.wf(),
            cell < NUM_CHARS,
        ensures
            place == self.place_of(cell as int),
    {
        if cell < NUM_CHARS_IGNORED {
            None
        } else {
            let index = cell - NUM_CHARS_IGNORED;
            let column = index % NUM_COLS + 1;
            let row = index / NUM_COLS + 2;
            let font_width = self.font_size.x * self.font_scale;
            let font_height = self.font_size.y * self.font_scale;
            proof {
                assert(0 <= column * font_width <= 17 * font_width) by (nonlinear_arith)
                    requires
                        1 <= column <= 16,
                        0 <= font_width,
                ;
                assert(0 <= row * font_height <= 17 * font_height) by (nonlinear_arith)
                    requires
                        2 <= row <= 15,
                        0 <= font_height,
                ;
            }
            Some(
                Vector2i {
                    x: column * font_width + self.font_table_offset.x,
                    y: row * font_height + self.font_table_offset.y,
                },
            )
        }
    }
}

/// The shade of grey that a button of the mouse paints.
pub fn mouse_pressed(button: MouseButton) -> (color: Option<u8>)
    ensures
        color == button_color(button),
{
    match button {
        MouseButton::Left => Some(0xff),
        MouseButton::Middle => Some(0x80),
        MouseButton::Right => Some(0x00),
        MouseButton::Other => None,
    }
}

/// The shade of grey that the mouse paints while it moves: that of the
/// first button held down among the left, the middle and the right one.
pub fn mouse_moved(left: bool, middle: bool, right: bool) -> (color: Option<u8>)
    ensures
        color == if left {
            button_color(MouseButton::Left)
        } else if middle {
            button_color(MouseButton::Middle)
        } else if right {
            button_color(MouseButton::Right)
        } else {
            None
        },
{
    if left {
        Some(0xff)
    } else if middle {
        Some(0x80)
    } else if right {
        Some(0x00)
    } else {
        None
    }
}

/// What the key with the number given does while the cell `shown` is
/// edited.
pub fn key_pressed(code: usize, shown: i32) -> (action: EditorAction)
    requires
        0 <= shown <= i32::MAX - 256,
    ensures
        action == action_of_key(code, shown),
{
    if code == KEY_ESCAPE {
        EditorAction::Close
    } else if code == KEY_N {
        EditorAction::Show((shown + 1) % NUM_CHARS)
    } else if code == KEY_P {
        EditorAction::Show((shown + NUM_CHARS - 1) % NUM_CHARS)
    } else if code == KEY_C {
        EditorAction::CopyChar
    } else if code == KEY_H {
        EditorAction::FlipHorizontal
    } else if code == KEY_V {
        EditorAction::FlipVertical
    } else if code == KEY_B {
        EditorAction::MakeAllBold
    } else if code == KEY_LEFT {
        EditorAction::Shift(-1, 0)
    } else if code == KEY_RIGHT {
        EditorAction::Shift(1, 0)
    } else if code == KEY_UP {
        EditorAction::Shift(0, -1)
    } else if code == KEY_DOWN {
        EditorAction::Shift(0, 1)
    } else {
        EditorAction::Nothing
    }
}

} // verus!
