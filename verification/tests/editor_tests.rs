use termbuf::editor::{
    key_pressed, mouse_moved, mouse_pressed, EditorAction, EditorLayout, MouseButton, KEY_B,
    KEY_C, KEY_DOWN, KEY_ESCAPE, KEY_H, KEY_LEFT, KEY_N, KEY_P, KEY_RIGHT, KEY_UP, KEY_V,
};
use termbuf::num::{clamp_i32, divide};
use termbuf::shell::{self, ScrollType, ShellAction};
use termbuf::text::Vector2i;

fn point(x: i32, y: i32) -> Vector2i {
    Vector2i { x, y }
}

fn layout() -> EditorLayout {
    // glyphs of 20 by 40, edited at 40 times, shown at twice their size
    EditorLayout::new(point(20, 40), 40, 2, 1)
}

#[test]
fn layout_places() {
    let l = layout();
    assert_eq!(l.font_size, point(20, 40));
    assert_eq!(l.edit_char_scale, 40);
    assert_eq!(l.font_scale, 2);
    assert_eq!(l.sample_text_scale, 1);
    assert_eq!(l.edit_char_offset, point(40, 80));
    assert_eq!(l.font_table_offset, point(40, 80 + 1600 + 80));
    // the glyph being edited ends at 840, the table at 40 + 41 * 16 = 696
    assert_eq!(l.sample_text_offset, point(840 + 40, 80));
    let wide_table = EditorLayout::new(point(10, 16), 3, 3, 2);
    assert_eq!(wide_table.edit_char_offset, point(30, 48));
    assert_eq!(wide_table.font_table_offset, point(30, 48 + 48 + 48));
    assert_eq!(wide_table.sample_text_offset, point(30 + 31 * 16 + 30, 48));
}

#[test]
fn pixel_under_the_mouse() {
    let l = layout();
    assert_eq!(l.set_pixel(40, 80), Some((0, 0)));
    assert_eq!(l.set_pixel(79, 119), Some((0, 0)));
    assert_eq!(l.set_pixel(80, 120), Some((1, 1)));
    assert_eq!(l.set_pixel(40 + 19 * 40, 80 + 39 * 40), Some((19, 39)));
    assert_eq!(l.set_pixel(40 + 20 * 40, 80), None);
    assert_eq!(l.set_pixel(40, 80 + 40 * 40), None);
    // just left of the glyph the quotient rounds to its first column
    assert_eq!(l.set_pixel(1, 80), Some((0, 0)));
    assert_eq!(l.set_pixel(0, 80), None);
    assert_eq!(l.set_pixel(-1, -1), None);
    assert_eq!(l.set_pixel(i32::MIN, i32::MAX), None);
}

#[test]
fn cell_under_the_mouse() {
    let l = layout();
    // the table starts one glyph to the right of and two below (40, 1760)
    assert_eq!(l.pick_char(80, 1920), Some(32));
    assert_eq!(l.pick_char(119, 1999), Some(32));
    assert_eq!(l.pick_char(120, 1920), Some(33));
    assert_eq!(l.pick_char(80, 2000), Some(48));
    assert_eq!(l.pick_char(80 + 15 * 40, 1920 + 13 * 80), Some(255));
    assert_eq!(l.pick_char(80 + 16 * 40, 1920), None);
    assert_eq!(l.pick_char(79, 1920), None);
    assert_eq!(l.pick_char(80, 1919), None);
    assert_eq!(l.pick_char(0, 0), None);
    assert_eq!(l.pick_char(i32::MIN, i32::MIN), None);
    assert_eq!(l.pick_char(i32::MAX, i32::MAX), None);
    // the rows below the atlas still count as cells
    assert_eq!(l.pick_char(80, 1920 + 14 * 80), Some(256));
    assert_eq!(l.pick_char(80 + 15 * 40, 1920 + 15 * 80), Some(287));
    assert_eq!(l.pick_char(80, 1920 + 16 * 80), None);
}

#[test]
fn place_of_a_cell() {
    let l = layout();
    assert_eq!(l.font_char_pos(0), None);
    assert_eq!(l.font_char_pos(31), None);
    assert_eq!(l.font_char_pos(-7), None);
    assert_eq!(l.font_char_pos(32), Some(point(80, 1920)));
    assert_eq!(l.font_char_pos(33), Some(point(120, 1920)));
    assert_eq!(l.font_char_pos(48), Some(point(80, 2000)));
    assert_eq!(l.font_char_pos(255), Some(point(80 + 15 * 40, 1920 + 13 * 80)));
    for cell in 32..256 {
        let place = l.font_char_pos(cell).unwrap();
        assert_eq!(l.pick_char(place.x, place.y), Some(cell));
        assert_eq!(l.pick_char(place.x + 39, place.y + 79), Some(cell));
    }
}

#[test]
fn editor_keys() {
    assert_eq!(key_pressed(KEY_ESCAPE, 97), EditorAction::Close);
    assert_eq!(key_pressed(KEY_N, 97), EditorAction::Show(98));
    assert_eq!(key_pressed(KEY_N, 255), EditorAction::Show(0));
    assert_eq!(key_pressed(KEY_P, 97), EditorAction::Show(96));
    assert_eq!(key_pressed(KEY_P, 0), EditorAction::Show(255));
    assert_eq!(key_pressed(KEY_N, 287), EditorAction::Show(32));
    assert_eq!(key_pressed(KEY_C, 0), EditorAction::CopyChar);
    assert_eq!(key_pressed(KEY_H, 0), EditorAction::FlipHorizontal);
    assert_eq!(key_pressed(KEY_V, 0), EditorAction::FlipVertical);
    assert_eq!(key_pressed(KEY_B, 0), EditorAction::MakeAllBold);
    assert_eq!(key_pressed(KEY_LEFT, 0), EditorAction::Shift(-1, 0));
    assert_eq!(key_pressed(KEY_RIGHT, 0), EditorAction::Shift(1, 0));
    assert_eq!(key_pressed(KEY_UP, 0), EditorAction::Shift(0, -1));
    assert_eq!(key_pressed(KEY_DOWN, 0), EditorAction::Shift(0, 1));
    assert_eq!(key_pressed(0, 0), EditorAction::Nothing);
    assert_eq!(key_pressed(usize::MAX, 0), EditorAction::Nothing);
}

#[test]
fn mouse_colors() {
    assert_eq!(mouse_pressed(MouseButton::Left), Some(0xff));
    assert_eq!(mouse_pressed(MouseButton::Middle), Some(0x80));
    assert_eq!(mouse_pressed(MouseButton::Right), Some(0x00));
    assert_eq!(mouse_pressed(MouseButton::Other), None);
    assert_eq!(mouse_moved(true, true, true), Some(0xff));
    assert_eq!(mouse_moved(false, true, true), Some(0x80));
    assert_eq!(mouse_moved(false, false, true), Some(0x00));
    assert_eq!(mouse_moved(false, false, false), None);
}

#[test]
fn quotients_round_towards_zero() {
    for (n, d) in [(7, 2), (-7, 2), (0, 5), (-1, 5), (1, 5), (i64::MIN, 1), (i64::MAX, 3), (i64::MIN, i64::MAX)] {
        assert_eq!(divide(n, d), n / d);
    }
    assert_eq!(divide(-7, 2), -3);
    assert_eq!(clamp_i32(5), 5);
    assert_eq!(clamp_i32(i64::MAX), i32::MAX);
    assert_eq!(clamp_i32(i64::MIN), i32::MIN);
    assert_eq!(clamp_i32(i32::MIN as i64), i32::MIN);
    assert_eq!(clamp_i32(i32::MAX as i64 + 1), i32::MAX);
}

#[test]
fn shell_keys() {
    let insert = |code, control, shift| shell::key_pressed(code, false, control, shift);
    assert_eq!(insert(shell::KEY_C, true, false), ShellAction::KillJob);
    assert_eq!(insert(shell::KEY_D, true, false), ShellAction::SendEof);
    assert_eq!(insert(shell::KEY_N, true, false), ShellAction::ChangeSelection(1));
    assert_eq!(insert(shell::KEY_P, true, true), ShellAction::ChangeSelection(-1));
    assert_eq!(insert(shell::KEY_TAB, true, false), ShellAction::Edit);
    assert_eq!(insert(shell::KEY_ENTER, true, false), ShellAction::Edit);
    assert_eq!(insert(shell::KEY_C, false, false), ShellAction::Edit);
    assert_eq!(insert(shell::KEY_TAB, false, false), ShellAction::ChangeSelection(1));
    assert_eq!(insert(shell::KEY_TAB, false, true), ShellAction::ChangeSelection(-1));
    assert_eq!(insert(shell::KEY_ENTER, false, false), ShellAction::Enter);
    assert_eq!(insert(shell::KEY_UP, false, false), ShellAction::Scroll(ScrollType::CursorUp));
    assert_eq!(insert(shell::KEY_DOWN, false, true), ShellAction::Scroll(ScrollType::CursorDown));
    assert_eq!(insert(shell::KEY_PAGE_UP, false, false), ShellAction::Scroll(ScrollType::PageUp));
    assert_eq!(
        insert(shell::KEY_PAGE_DOWN, false, false),
        ShellAction::Scroll(ScrollType::PageDown)
    );
    assert_eq!(insert(shell::KEY_ESCAPE, false, false), ShellAction::Edit);

    let normal = |code| shell::key_pressed(code, true, true, true);
    assert_eq!(normal(shell::KEY_ENTER), ShellAction::RunCommand);
    assert_eq!(normal(shell::KEY_ESCAPE), ShellAction::Close);
    assert_eq!(normal(shell::KEY_K), ShellAction::History(-1));
    assert_eq!(normal(shell::KEY_J), ShellAction::History(1));
    assert_eq!(normal(shell::KEY_TAB), ShellAction::Edit);
    assert_eq!(normal(shell::KEY_C), ShellAction::Edit);

    assert_eq!(shell::wheel_scroll(true), ScrollType::MouseWheelUp);
    assert_eq!(shell::wheel_scroll(false), ScrollType::MouseWheelDown);
}
