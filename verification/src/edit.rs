//! A line editor on top of a text buffer: two modes, and the keys that edit
//! the line.

use vstd::prelude::*;
use vstd::string::StrSliceExecFns;
use crate::chars::{from_chars, to_chars};
use crate::color::Rgb;
use crate::text::{write_grid, CursorPosition, CursorState, Grid, InsertMode, Text, Vector2i};

verus! {

/// The mode of the editor: in normal mode keys are commands, in insert mode
/// they are text.
#[derive(Clone, Copy, Debug, PartialEq, Eq, Structural)]
pub enum Mode {
    Normal,
    Insert,
}

/// Collects the settings of an editor before it is made.
pub struct EditBuilder {
    pub cursor_colors: Option<(Rgb, Rgb)>,
    pub cursor_state: Option<CursorState>,
}

/// A text buffer that is edited by keys.
pub struct Edit {
    pub text: Text,
    pub shift: bool,
    pub control: bool,
    pub mode: Mode,
}

/// Whether `c` is white space: one of the characters with the Unicode
/// property `White_Space`.
pub open spec fn is_whitespace(c: char) -> bool {
    let code = c as u32;
    ||| 0x09 <= code <= 0x0D
    ||| code == 0x20
    ||| code == 0x85
    ||| code == 0xA0
    ||| code == 0x1680
    ||| 0x2000 <= code <= 0x200A
    ||| code == 0x2028
    ||| code == 0x2029
    ||| code == 0x202F
    ||| code == 0x205F
    ||| code == 0x3000
}

/// Tells whether `c` is white space.
pub fn char_is_whitespace(c: char) -> (r: bool)
    ensures
        r == is_whitespace(c),
{
    let code = c as u32;
    (0x09 <= code && code <= 0x0D) || code == 0x20 || code == 0x85 || code == 0xA0 || code
        == 0x1680 || (0x2000 <= code && code <= 0x200A) || code == 0x2028 || code == 0x2029
        || code == 0x202F || code == 0x205F || code == 0x3000
}

/// The position at or before `x` before which no white space stands
/// directly: `x` moved left over the white space before it.
pub open spec fn before_spaces(line: Seq<char>, x: int) -> int
    decreases x,
{
    if x <= 0 || x > line.len() || !is_whitespace(line[x - 1]) {
        x
    } else {
        before_spaces(line, x - 1)
    }
}

/// The position at or before `x` before which white space or nothing
/// stands: `x` moved left over what is no white space.
pub open spec fn before_word(line: Seq<char>, x: int) -> int
    decreases x,
{
    if x <= 0 || x > line.len() || is_whitespace(line[x - 1]) {
        x
    } else {
        before_word(line, x - 1)
    }
}

/// Where the word before column `x` starts: `x` moved left over white
/// space, and then over the word before it.
pub open spec fn word_start(line: Seq<char>, x: int) -> int {
    before_word(line, before_spaces(line, x))
}

/// The column `x`, or the length of the line where `x` lies beyond it.
pub open spec fn within(line: Seq<char>, x: nat) -> int {
    if x <= line.len() {
        x as int
    } else {
        line.len() as int
    }
}

/// The grid after the word before the cursor is deleted, together with the
/// white space between it and the cursor. A cursor beyond the end of its
/// line counts as standing at the end.
pub open spec fn delete_word_grid(g: Grid) -> Grid
    recommends
        g.y < g.lines.len(),
{
    let line = g.lines[g.y as int];
    let end = within(line, g.x);
    let start = word_start(line, end);
    Grid {
        lines: g.lines.update(g.y as int, line.take(start) + line.skip(end)),
        x: start as nat,
        y: g.y,
    }
}

/// The grid after the character before the cursor is deleted. At the start
/// of a line that is not the first, the line is joined to the one above,
/// and the cursor stands where the two meet. A cursor beyond the end of its
/// line moves left and deletes nothing.
pub open spec fn backspace_grid(g: Grid) -> Grid
    recommends
        g.y < g.lines.len(),
{
    let line = g.lines[g.y as int];
    if g.x > 0 {
        Grid {
            lines: if g.x <= line.len() {
                g.lines.update(g.y as int, line.remove(g.x - 1))
            } else {
                g.lines
            },
            x: (g.x - 1) as nat,
            y: g.y,
        }
    } else if g.y > 0 {
        let above = g.lines[g.y - 1];
        Grid {
            lines: g.lines.update(g.y - 1, above + line).remove(g.y as int),
            x: above.len(),
            y: (g.y - 1) as nat,
        }
    } else {
        g
    }
}

/// The cursor state that goes with the mode: an insert cursor becomes a
/// normal one and the reverse, active or inactive as it was; a hidden
/// cursor stays hidden.
pub open spec fn cursor_state_for(state: CursorState, mode: Mode) -> CursorState {
    match (state, mode) {
        (CursorState::InsertActive, Mode::Normal) => CursorState::NormalActive,
        (CursorState::InsertInactive, Mode::Normal) => CursorState::NormalInactive,
        (CursorState::NormalActive, Mode::Insert) => CursorState::InsertActive,
        (CursorState::NormalInactive, Mode::Insert) => CursorState::InsertInactive,
        _ => state,
    }
}

impl Edit {
    /// Sets the mode, and the cursor state that goes with it.
    pub fn set_mode(&mut self, mode: Mode)
        ensures
            final(self).mode == mode,
            final(self).shift == old(self).shift,
            final(self).control == old(self).control,
            final(self).text == (Text {
                cursor_state: cursor_state_for(old(self).text.cursor_state, mode),
                redraw: true,
                ..old(self).text
            }),
    {
        self.mode = mode;
        let old_state = self.text.get_cursor_state();
        let new_state = match (old_state, mode) {
            (CursorState::InsertActive, Mode::Normal) => CursorState::NormalActive,
            (CursorState::InsertInactive, Mode::Normal) => CursorState::NormalInactive,
            (CursorState::NormalActive, Mode::Insert) => CursorState::InsertActive,
            (CursorState::NormalInactive, Mode::Insert) => CursorState::InsertInactive,
            _ => old_state,
        };
        self.text.set_cursor_state(new_state);
    }

    /// Deletes the word before the cursor.
    pub fn delete_word(&mut self)
        requires
            old(self).text.wf(),
        ensures
            final(self).text.grid() == delete_word_grid(old(self).text.grid()),
            final(self).text.wf(),
            final(self).text.redraw,
            final(self).text.same_settings(old(self).text),
            final(self).mode == old(self).mode,
            final(self).shift == old(self).shift,
            final(self).control == old(self).control,
    {
        let y = self.text.cursor_position.y;
        let mut line = to_chars(self.text.text[y].as_str());
        let idx = if self.text.cursor_position.x <= line.len() {
            self.text.cursor_position.x
        } else {
            line.len()
        };
        let mut i = idx;
        while i > 0 && char_is_whitespace(line[i - 1])
            invariant
                i <= idx <= line.len(),
                before_spaces(line@, idx as int) == before_spaces(line@, i as int),
            decreases i,
        {
            i -= 1;
        }
        let ghost gap = i;
        while i > 0 && !char_is_whitespace(line[i - 1])
            invariant
                i <= gap <= line.len(),
                before_word(line@, gap as int) == before_word(line@, i as int),
            decreases i,
        {
            i -= 1;
        }
        let mut rest = line.split_off(idx);
        line.truncate(i);
        line.append(&mut rest);
        self.text.text.set(y, from_chars(&line));
        self.text.cursor_position.x = i;
        self.text.redraw = true;
        proof {
            let before = old(self).text.grid().lines[y as int];
            assert(line@ =~= before.take(i as int) + before.skip(idx as int));
            assert(self.text.grid().lines =~= delete_word_grid(old(self).text.grid()).lines);
        }
    }

    /// Deletes the character before the cursor, or joins the line to the
    /// one above.
    pub fn backspace(&mut self)
        requires
            old(self).text.wf(),
        ensures
            final(self).text.grid() == backspace_grid(old(self).text.grid()),
            final(self).text.wf(),
            final(self).text.redraw,
            final(self).text.same_settings(old(self).text),
            final(self).mode == old(self).mode,
            final(self).shift == old(self).shift,
            final(self).control == old(self).control,
    {
        self.text.redraw = true;
        let x = self.text.cursor_position.x;
        let y = self.text.cursor_position.y;
        if x > 0 {
            let mut line = to_chars(self.text.text[y].as_str());
            if x <= line.len() {
                line.remove(x - 1);
                self.text.text.set(y, from_chars(&line));
            }
            self.text.cursor_position.x = x - 1;
            proof {
                assert(self.text.grid().lines =~= backspace_grid(old(self).text.grid()).lines);
            }
        } else if y > 0 {
            let line = self.text.text.remove(y);
            let mut above = to_chars(self.text.text[y - 1].as_str());
            let mut tail = to_chars(line.as_str());
            let joint = above.len();
            above.append(&mut tail);
            self.text.text.set(y - 1, from_chars(&above));
            self.text.cursor_position.y = y - 1;
            self.text.cursor_position.x = joint;
            proof {
                assert(self.text.grid().lines =~= backspace_grid(old(self).text.grid()).lines);
            }
        } else {
            proof {
                assert(self.text.grid().lines =~= old(self).text.grid().lines);
            }
        }
    }
}

/// The number of the key `A`. The keys are numbered as the window system
/// numbers them: the letters from 0, then the digits, then the others.
pub const KEY_A: usize = 0;

pub const KEY_B: usize = 1;

pub const KEY_E: usize = 4;

pub const KEY_F: usize = 5;

pub const KEY_H: usize = 7;

pub const KEY_I: usize = 8;

pub const KEY_J: usize = 9;

pub const KEY_U: usize = 20;

pub const KEY_W: usize = 22;

pub const KEY_NUM9: usize = 35;

pub const KEY_ESCAPE: usize = 36;

pub const KEY_LCONTROL: usize = 37;

pub const KEY_LSHIFT: usize = 38;

pub const KEY_RCONTROL: usize = 41;

pub const KEY_RSHIFT: usize = 42;

pub const KEY_LBRACKET: usize = 46;

pub const KEY_SPACE: usize = 57;

pub const KEY_BACKSPACE: usize = 59;

/// The character of each key from `A` to `Space` without shift, by the
/// number of the key. The keys between the digits and `[` have none.
pub open spec fn keymap_noshift() -> Seq<char> {
    "abcdefghijklmnopqrstuvwxyz01234567890.........[];,.'/\\`=- "@
}

/// The character of each key from `A` to `Space` with shift.
pub open spec fn keymap_shift() -> Seq<char> {
    "ABCDEFGHIJKLMNOPQRSTUVWXYZ)!@#$%^&*(..........{}:<>\"?|~+_ "@
}

/// Whether the key has a character: a letter, a digit, or one of the keys
/// from `[` to `Space`.
pub open spec fn is_text_key(code: usize) -> bool {
    code <= KEY_NUM9 || (KEY_LBRACKET <= code <= KEY_SPACE)
}

/// What a key does to the editor.
#[derive(Clone, Copy, Debug, PartialEq, Eq, Structural)]
pub enum KeyAction {
    /// Writes the character at the cursor.
    Write(char),
    /// Deletes the character before the cursor.
    Backspace,
    /// Deletes the word before the cursor.
    DeleteWord,
    /// Empties the buffer.
    Clear,
    /// Moves the cursor in its line, as `Text::move_cursor_horz` does for
    /// this direction; one column to the left or right only where there is
    /// one.
    MoveCursor(i32),
    /// Changes the mode.
    EnterMode(Mode),
    /// Notes that a shift key is down or up.
    Shift(bool),
    /// Notes that a control key is down or up.
    Control(bool),
    /// Nothing.
    Nothing,
}

/// What a key with control does, in either mode.
pub open spec fn control_action(code: usize) -> KeyAction {
    if code == KEY_H {
        KeyAction::Backspace
    } else if code == KEY_W {
        KeyAction::DeleteWord
    } else if code == KEY_U {
        KeyAction::Clear
    } else if code == KEY_A {
        KeyAction::MoveCursor(-2i32)
    } else if code == KEY_B {
        KeyAction::MoveCursor(-1i32)
    } else if code == KEY_E {
        KeyAction::MoveCursor(2i32)
    } else if code == KEY_F {
        KeyAction::MoveCursor(1i32)
    } else {
        KeyAction::Nothing
    }
}

/// What pressing the key does, and whether the editor goes to insert mode
/// after it.
///
/// In insert mode a key with a character writes it; with control the keys
/// `H`, `W`, `U`, `A`, `B`, `E` and `F` edit the line, and `[` and `J` lead
/// to normal mode. In normal mode `I` and `A` lead to insert mode, and the
/// editing keys with control edit the line and lead to insert mode. Shift
/// and control together do nothing. Of the other keys, shift and control
/// are noted, backspace deletes, and escape leads to normal mode.
pub open spec fn key_action(mode: Mode, shift: bool, control: bool, code: usize) -> (
    KeyAction,
    bool,
) {
    if is_text_key(code) {
        if shift && control {
            (KeyAction::Nothing, false)
        } else if mode == Mode::Insert {
            if control {
                if code == KEY_LBRACKET || code == KEY_J {
                    (KeyAction::EnterMode(Mode::Normal), false)
                } else {
                    (control_action(code), false)
                }
            } else if shift {
                (KeyAction::Write(keymap_shift()[code as int]), false)
            } else {
                (KeyAction::Write(keymap_noshift()[code as int]), false)
            }
        } else {
            if control {
                (control_action(code), control_action(code) != KeyAction::Nothing)
            } else if !shift && (code == KEY_I || code == KEY_A) {
                (KeyAction::EnterMode(Mode::Insert), false)
            } else {
                (KeyAction::Nothing, false)
            }
        }
    } else if code == KEY_LSHIFT || code == KEY_RSHIFT {
        (KeyAction::Shift(true), false)
    } else if code == KEY_LCONTROL || code == KEY_RCONTROL {
        (KeyAction::Control(true), false)
    } else if code == KEY_BACKSPACE {
        (KeyAction::Backspace, false)
    } else if code == KEY_ESCAPE {
        (KeyAction::EnterMode(Mode::Normal), false)
    } else {
        (KeyAction::Nothing, false)
    }
}

/// What releasing the key does: shift and control are noted as up.
pub open spec fn release_action(code: usize) -> KeyAction {
    if code == KEY_LSHIFT || code == KEY_RSHIFT {
        KeyAction::Shift(false)
    } else if code == KEY_LCONTROL || code == KEY_RCONTROL {
        KeyAction::Control(false)
    } else {
        KeyAction::Nothing
    }
}

/// The grid after the cursor moves in its line.
pub open spec fn move_grid(g: Grid, dir: i32) -> Grid
    recommends
        g.y < g.lines.len(),
{
    if dir == -1 {
        Grid { x: if g.x > 0 { (g.x - 1) as nat } else { g.x }, ..g }
    } else if dir == 1 {
        Grid { x: if g.x < usize::MAX { g.x + 1 } else { g.x }, ..g }
    } else if dir == -2 {
        Grid { x: 0, ..g }
    } else if dir == 2 {
        Grid { x: g.lines[g.y as int].len(), ..g }
    } else {
        g
    }
}

/// The grid after the action.
pub open spec fn action_grid(g: Grid, action: KeyAction, insert_mode: InsertMode) -> Grid
    recommends
        g.y < g.lines.len(),
{
    match action {
        KeyAction::Write(c) => write_grid(g, seq![c], insert_mode),
        KeyAction::Backspace => backspace_grid(g),
        KeyAction::DeleteWord => delete_word_grid(g),
        KeyAction::Clear => Grid { lines: seq![Seq::<char>::empty()], x: 0, y: 0 },
        KeyAction::MoveCursor(dir) => move_grid(g, dir),
        _ => g,
    }
}

/// Whether the action touches the buffer.
pub open spec fn edits(action: KeyAction) -> bool {
    match action {
        KeyAction::Shift(_) => false,
        KeyAction::Control(_) => false,
        KeyAction::Nothing => false,
        _ => true,
    }
}

/// The mode after the action.
pub open spec fn action_mode(mode: Mode, action: KeyAction) -> Mode {
    match action {
        KeyAction::EnterMode(next) => next,
        _ => mode,
    }
}

/// The cursor state after the action.
pub open spec fn action_cursor_state(state: CursorState, action: KeyAction) -> CursorState {
    match action {
        KeyAction::EnterMode(next) => cursor_state_for(state, next),
        _ => state,
    }
}

impl Edit {
    /// Whether the editor is as after `action` on `before`.
    pub open spec fn is_after(&self, before: Edit, action: KeyAction) -> bool {
        &&& self.text.grid() == action_grid(before.text.grid(), action, before.text.insert_mode)
        &&& self.text.wf()
        &&& self.text.same_settings(
            Text {
                cursor_state: action_cursor_state(before.text.cursor_state, action),
                ..before.text
            },
        )
        &&& edits(action) ==> self.text.redraw
        &&& !edits(action) ==> self.text == before.text
        &&& self.mode == action_mode(before.mode, action)
        &&& self.shift == (match action {
            KeyAction::Shift(down) => down,
            _ => before.shift,
        })
        &&& self.control == (match action {
            KeyAction::Control(down) => down,
            _ => before.control,
        })
    }

    /// Tells what a key with control does.
    fn control_key(code: usize) -> (action: KeyAction)
        ensures
            action == control_action(code),
    {
        if code == KEY_H {
            KeyAction::Backspace
        } else if code == KEY_W {
            KeyAction::DeleteWord
        } else if code == KEY_U {
            KeyAction::Clear
        } else if code == KEY_A {
            KeyAction::MoveCursor(-2)
        } else if code == KEY_B {
            KeyAction::MoveCursor(-1)
        } else if code == KEY_E {
            KeyAction::MoveCursor(2)
        } else if code == KEY_F {
            KeyAction::MoveCursor(1)
        } else {
            KeyAction::Nothing
        }
    }

    /// Tells what pressing the key does in the present mode, and whether
    /// the editor goes to insert mode after it.
    pub fn key_action(&self, code: usize) -> (r: (KeyAction, bool))
        ensures
            r == key_action(self.mode, self.shift, self.control, code),
    {
        if code <= KEY_NUM9 || (KEY_LBRACKET <= code && code <= KEY_SPACE) {
            if self.shift && self.control {
                (KeyAction::Nothing, false)
            } else if self.mode == Mode::Insert {
                if self.control {
                    if code == KEY_LBRACKET || code == KEY_J {
                        (KeyAction::EnterMode(Mode::Normal), false)
                    } else {
                        (Self::control_key(code), false)
                    }
                } else if self.shift {
                    proof {
                        reveal_strlit("ABCDEFGHIJKLMNOPQRSTUVWXYZ)!@#$%^&*(..........{}:<>\"?|~+_ ");
                    }
                    let keymap = "ABCDEFGHIJKLMNOPQRSTUVWXYZ)!@#$%^&*(..........{}:<>\"?|~+_ ";
                    (KeyAction::Write(keymap.get_char(code)), false)
                } else {
                    proof {
                        reveal_strlit("abcdefghijklmnopqrstuvwxyz01234567890.........[];,.'/\\`=- ");
                    }
                    let keymap = "abcdefghijklmnopqrstuvwxyz01234567890.........[];,.'/\\`=- ";
                    (KeyAction::Write(keymap.get_char(code)), false)
                }
            } else {
                if self.control {
                    let action = Self::control_key(code);
                    (action, action != KeyAction::Nothing)
                } else if !self.shift && (code == KEY_I || code == KEY_A) {
                    (KeyAction::EnterMode(Mode::Insert), false)
                } else {
                    (KeyAction::Nothing, false)
                }
            }
        } else if code == KEY_LSHIFT || code == KEY_RSHIFT {
            (KeyAction::Shift(true), false)
        } else if code == KEY_LCONTROL || code == KEY_RCONTROL {
            (KeyAction::Control(true), false)
        } else if code == KEY_BACKSPACE {
            (KeyAction::Backspace, false)
        } else if code == KEY_ESCAPE {
            (KeyAction::EnterMode(Mode::Normal), false)
        } else {
            (KeyAction::Nothing, false)
        }
    }

    /// Carries out the action.
    pub fn perform(&mut self, action: KeyAction)
        requires
            old(self).text.wf(),
        ensures
            final(self).is_after(*old(self), action),
    {
        match action {
            KeyAction::Write(c) => {
                let mut chars: Vec<char> = Vec::new();
                chars.push(c);
                let text = from_chars(&chars);
                proof {
                    assert(text@ =~= seq![c]);
                }
                self.text.write(text.as_str());
            },
            KeyAction::Backspace => {
                self.backspace();
            },
            KeyAction::DeleteWord => {
                self.delete_word();
            },
            KeyAction::Clear => {
                self.text.clear();
            },
            KeyAction::MoveCursor(dir) => {
                let x = self.text.cursor_position.x;
                if dir == -2 || dir == 2 || (dir == -1 && x > 0) || (dir == 1 && x < usize::MAX) {
                    self.text.move_cursor_horz(dir);
                } else {
                    self.text.redraw = true;
                }
            },
            KeyAction::EnterMode(mode) => {
                self.set_mode(mode);
            },
            KeyAction::Shift(down) => {
                self.shift_pressed(down);
            },
            KeyAction::Control(down) => {
                self.control_pressed(down);
            },
            KeyAction::Nothing => {},
        }
    }

    /// Handles a key that was pressed: carries out what `key_action` says
    /// of it, and then goes to insert mode where that says so.
    pub fn key_pressed(&mut self, code: usize)
        requires
            old(self).text.wf(),
        ensures
            final(self).text.wf(),
            !key_action(old(self).mode, old(self).shift, old(self).control, code).1
                ==> final(self).is_after(
                *old(self),
                key_action(old(self).mode, old(self).shift, old(self).control, code).0,
            ),
            key_action(old(self).mode, old(self).shift, old(self).control, code).1 ==> exists|
                between: Edit,
            |
                #![trigger between.is_after(*old(self), key_action(old(self).mode, old(self).shift, old(self).control, code).0)]
                between.is_after(
                    *old(self),
                    key_action(old(self).mode, old(self).shift, old(self).control, code).0,
                ) && final(self).is_after(between, KeyAction::EnterMode(Mode::Insert)),
    {
        let (action, then_insert) = self.key_action(code);
        self.perform(action);
        if then_insert {
            let ghost between = *self;
            self.perform(KeyAction::EnterMode(Mode::Insert));
            proof {
                assert(between.is_after(*old(self), action) && self.is_after(
                    between,
                    KeyAction::EnterMode(Mode::Insert),
                ));
            }
        }
    }

    /// Handles a key that was released.
    pub fn key_released(&mut self, code: usize)
        ensures
            final(self).text == old(self).text,
            final(self).mode == old(self).mode,
            final(self).shift == (match release_action(code) {
                KeyAction::Shift(down) => down,
                _ => old(self).shift,
            }),
            final(self).control == (match release_action(code) {
                KeyAction::Control(down) => down,
                _ => old(self).control,
            }),
    {
        if code == KEY_LSHIFT || code == KEY_RSHIFT {
            self.shift_pressed(false);
        } else if code == KEY_LCONTROL || code == KEY_RCONTROL {
            self.control_pressed(false);
        }
    }

    /// Notes whether a shift key is down.
    fn shift_pressed(&mut self, is_down: bool)
        ensures
            *final(self) == (Edit { shift: is_down, ..*old(self) }),
    {
        self.shift = is_down;
    }

    /// Notes whether a control key is down.
    fn control_pressed(&mut self, is_down: bool)
        ensures
            *final(self) == (Edit { control: is_down, ..*old(self) }),
    {
        self.control = is_down;
    }
}

impl EditBuilder {
    /// A builder with nothing set.
    pub fn new() -> (builder: EditBuilder)
        ensures
            builder.cursor_colors is None,
            builder.cursor_state is None,
    {
        EditBuilder { cursor_colors: None, cursor_state: None }
    }

    /// Sets the colours of the cursor in insert and in normal mode.
    pub fn cursor_colors(self, insert: Rgb, normal: Rgb) -> (builder: EditBuilder)
        ensures
            builder == (EditBuilder { cursor_colors: Some((insert, normal)), ..self }),
    {
        EditBuilder { cursor_colors: Some((insert, normal)), ..self }
    }

    /// Sets how the cursor is drawn.
    pub fn cursor_state(self, cursor_state: CursorState) -> (builder: EditBuilder)
        ensures
            builder == (EditBuilder { cursor_state: Some(cursor_state), ..self }),
    {
        EditBuilder { cursor_state: Some(cursor_state), ..self }
    }

    /// The editor with the settings collected: an empty buffer in insert
    /// mode, no key down, the cursor drawn as set or else as an active
    /// insert cursor.
    pub fn build(&self) -> (edit: Edit)
        ensures
            edit.mode == Mode::Insert,
            !edit.shift,
            !edit.control,
            edit.text.lines() == seq![Seq::<char>::empty()],
            edit.text.cursor_position == (CursorPosition { x: 0, y: 0 }),
            edit.text.wf(),
            edit.text.insert_mode == InsertMode::Overwrite,
            edit.text.cursor_state == (match self.cursor_state {
                Some(state) => state,
                None => CursorState::InsertActive,
            }),
            match self.cursor_colors {
                Some((insert, normal)) => edit.text.cursor_insert_color == insert
                    && edit.text.cursor_normal_color == normal,
                None => true,
            },
    {
        let mut edit = Edit { text: Text::new(), shift: false, control: false, mode: Mode::Insert };
        match self.cursor_colors {
            Some((insert, normal)) => {
                edit.set_cursor_colors(insert, normal);
            },
            None => {},
        }
        match self.cursor_state {
            Some(cursor_state) => {
                edit.set_cursor_state(cursor_state);
            },
            None => {
                edit.set_cursor_state(CursorState::InsertActive);
            },
        }
        edit
    }
}

impl Default for EditBuilder {
    fn default() -> (builder: EditBuilder)
        ensures
            builder.cursor_colors is None,
            builder.cursor_state is None,
    {
        EditBuilder::new()
    }
}

impl Edit {
    /// Sets how the cursor is drawn, and hands the editor on.
    pub fn cursor_state(&mut self, cursor_state: CursorState) -> (edit: &mut Edit)
        ensures
            *edit == (Edit {
                text: Text { cursor_state, redraw: true, ..old(self).text },
                ..*old(self)
            }),
            *final(self) == *final(edit),
    {
        self.text.set_cursor_state(cursor_state);
        self
    }

    /// Sets how the cursor is drawn.
    pub fn set_cursor_state(&mut self, cursor_state: CursorState)
        ensures
            *final(self) == (Edit {
                text: Text { cursor_state, redraw: true, ..old(self).text },
                ..*old(self)
            }),
    {
        self.text.set_cursor_state(cursor_state);
    }

    /// How the cursor is drawn.
    pub fn get_cursor_state(&self) -> (state: CursorState)
        ensures
            state == self.text.cursor_state,
    {
        self.text.get_cursor_state()
    }

    /// Sets the colours of the cursor, and hands the editor on.
    pub fn cursor_colors(&mut self, insert: Rgb, normal: Rgb) -> (edit: &mut Edit)
        ensures
            *edit == (Edit {
                text: Text {
                    cursor_insert_color: insert,
                    cursor_normal_color: normal,
                    redraw: true,
                    ..old(self).text
                },
                ..*old(self)
            }),
            *final(self) == *final(edit),
    {
        self.text.set_cursor_colors(insert, normal);
        self
    }

    /// Sets the colours of the cursor.
    pub fn set_cursor_colors(&mut self, insert: Rgb, normal: Rgb)
        ensures
            *final(self) == (Edit {
                text: Text {
                    cursor_insert_color: insert,
                    cursor_normal_color: normal,
                    redraw: true,
                    ..old(self).text
                },
                ..*old(self)
            }),
    {
        self.text.set_cursor_colors(insert, normal);
    }

    /// Sets the background colour.
    pub fn set_background_color(&mut self, color: Rgb)
        ensures
            *final(self) == (Edit {
                text: Text { bg_color: color, redraw: true, ..old(self).text },
                ..*old(self)
            }),
    {
        self.text.set_background_color(color);
    }

    /// Sets the position and the size of the buffer.
    pub fn set_position_size(&mut self, position: Vector2i, size: Vector2i)
        ensures
            *final(self) == (Edit {
                text: Text {
                    position,
                    size: crate::text::at_least_one(size),
                    redraw: true,
                    ..old(self).text
                },
                ..*old(self)
            }),
    {
        self.text.set_position_size(position, size);
    }

    /// Writes `text` to the buffer at the cursor.
    pub fn write(&mut self, text: &str)
        ensures
            final(self).text.grid() == write_grid(
                old(self).text.grid(),
                text@,
                old(self).text.insert_mode,
            ),
            final(self).text.wf(),
            final(self).text.redraw,
            final(self).text.same_settings(old(self).text),
            final(self).mode == old(self).mode,
            final(self).shift == old(self).shift,
            final(self).control == old(self).control,
    {
        self.text.write(text);
    }

    /// Replaces the content of the buffer, and returns what it held.
    pub fn replace(&mut self, text: Vec<String>) -> (previous: Vec<String>)
        ensures
            previous == old(self).text.text,
            final(self).text.lines() == crate::text::replacement(crate::chars::views(text@)),
            final(self).text.cursor_position.y == final(self).text.lines().len() - 1,
            final(self).text.cursor_position.x == final(self).text.lines().last().len(),
            final(self).text.wf(),
            final(self).text.redraw,
            final(self).text.same_settings(old(self).text),
            final(self).mode == old(self).mode,
            final(self).shift == old(self).shift,
            final(self).control == old(self).control,
    {
        self.text.replace(text)
    }

    /// A copy of the lines of the buffer.
    pub fn get_text(&self) -> (lines: Vec<String>)
        ensures
            lines@ == self.text.text@,
    {
        self.text.get_text()
    }
}

} // verus!
