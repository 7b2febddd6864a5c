use termbuf::text::{
    CursorPosition, CursorState, InsertMode, Text, TextBuilder, Vector2i, VerticalAlignment,
};

fn at(x: usize, y: usize) -> CursorPosition {
    CursorPosition { x, y }
}

fn lines(items: &[&str]) -> Vec<String> {
    items.iter().map(|s| s.to_string()).collect()
}

#[test]
fn test_write() {
    let mut text = Text::default();
    text.write("Hello World");
    assert_eq!(text.text, vec!["Hello World"]);
}

#[test]
fn test_insert1() {
    let mut text = TextBuilder::new().insert_mode(InsertMode::Insert).build();
    text.write("World");
    text.move_cursor_horz(-2);
    text.write("Hello ");
    assert_eq!(text.text, vec!["Hello World"]);
    assert_eq!(text.cursor_position, at(6, 0));
}

#[test]
fn test_insert2() {
    let mut text = Text::default();
    text.write("Hello\nWorld\n");
    assert_eq!(text.text, vec!["Hello", "World", ""]);
}

#[test]
fn test_insert3() {
    let mut text = TextBuilder::new().insert_mode(InsertMode::Insert).build();
    text.write("Line 1\nLine 2\nLine 3");
    text.cursor_position = at(0, 1);
    text.write("Line 2.5\n");
    assert_eq!(text.text, vec!["Line 1", "Line 2.5", "Line 2", "Line 3"]);
    assert_eq!(text.cursor_position, at(0, 2));
}

#[test]
fn test_insert4() {
    let mut text = TextBuilder::new().insert_mode(InsertMode::Insert).build();
    text.write("Line 1\nLin2\nLine 3\n");
    text.cursor_position = at(3, 1);
    text.write("e ");
    text.cursor_position = at(0, 3);
    text.write("Line 4\n");
    assert_eq!(text.text, vec!["Line 1", "Line 2", "Line 3", "Line 4", ""],);
    assert_eq!(text.cursor_position, at(0, 4));
}

#[test]
fn test_overwrite() {
    let mut text = TextBuilder::new()
        .insert_mode(InsertMode::Overwrite)
        .build();
    text.write("LINE 1\nLine\nLine x");
    text.cursor_position = at(1, 0);
    text.write("ine");
    text.cursor_position = at(5, 1);
    text.write("2\nLine 3\nLine 4\n");
    assert_eq!(text.text, vec!["Line 1", "Line 2", "Line 3", "Line 4", ""],);
    assert_eq!(text.cursor_position, at(0, 4));
}

#[test]
fn test_cursor_up_down() {
    let mut text = Text::default();
    text.write("Lines 1-4 must be in order without gaps.\n");
    text.write("Line 1\n");
    text.write("\n");
    text.write("Line 3\n");
    text.write("\x1b[2ALine 2\n");
    text.write("\x1b[2BLine 4\n");
    assert_eq!(
        text.text,
        vec![
            "Lines 1-4 must be in order without gaps.",
            "Line 1",
            "Line 2",
            "Line 3",
            "Line 4",
            ""
        ]
    );
    assert_eq!(text.cursor_position, at(0, 5));
}

#[test]
fn write_on_empty_buffer() {
    let mut text = Text::new();
    assert_eq!(text.get_text(), vec![""]);
    assert_eq!(text.cursor_position, at(0, 0));
    text.write("Hello World");
    assert_eq!(text.get_text(), vec!["Hello World"]);
    assert_eq!(text.cursor_position, at(11, 0));
    assert!(text.must_draw());
}

#[test]
fn write_relocates_without_gaps() {
    let mut text = Text::new();
    text.write("A\n\nB\n");
    text.write("\x1b[2AX\n");
    text.write("\x1b[2BY\n");
    assert_eq!(text.get_text(), vec!["A", "X", "B", "Y", ""]);
    assert_eq!(text.cursor_position, at(0, 4));
}

#[test]
fn write_carriage_return() {
    let mut text = Text::new();
    text.write("abcdef\rXY");
    assert_eq!(text.get_text(), vec!["XYcdef"]);
    assert_eq!(text.cursor_position, at(2, 0));

    let mut text = TextBuilder::new().insert_mode(InsertMode::Insert).build();
    text.write("abc\rXY");
    assert_eq!(text.get_text(), vec!["XYabc"]);
    assert_eq!(text.cursor_position, at(2, 0));
}

#[test]
fn write_pads_with_spaces() {
    let mut text = Text::new();
    text.write("ab");
    text.cursor_position = at(5, 0);
    text.write("c");
    assert_eq!(text.get_text(), vec!["ab   c"]);
    assert_eq!(text.cursor_position, at(6, 0));

    let mut text = TextBuilder::new().insert_mode(InsertMode::Insert).build();
    text.write("ab");
    text.cursor_position = at(4, 0);
    text.write("c");
    assert_eq!(text.get_text(), vec!["ab  c"]);
    assert_eq!(text.cursor_position, at(5, 0));
}

#[test]
fn write_grows_to_the_cursor_line() {
    let mut text = Text::new();
    text.cursor_position = at(1, 3);
    text.write("x");
    assert_eq!(text.get_text(), vec!["", "", "", " x"]);
    assert_eq!(text.cursor_position, at(2, 3));

    let mut text = Text::new();
    text.text = Vec::new();
    text.write("");
    assert_eq!(text.get_text(), vec![""]);
}

#[test]
fn write_insert_mode_splits_the_line() {
    let mut text = TextBuilder::new().insert_mode(InsertMode::Insert).build();
    text.write("HelloWorld");
    text.cursor_position = at(5, 0);
    text.write("\n");
    assert_eq!(text.get_text(), vec!["Hello", "World"]);
    assert_eq!(text.cursor_position, at(0, 1));
    text.write(">");
    assert_eq!(text.get_text(), vec!["Hello", ">World"]);

    // a cursor beyond the end of the line cuts at the end
    let mut text = TextBuilder::new().insert_mode(InsertMode::Insert).build();
    text.write("ab\ncd");
    text.cursor_position = at(9, 0);
    text.write("\n");
    assert_eq!(text.get_text(), vec!["ab", "", "cd"]);
    assert_eq!(text.cursor_position, at(0, 1));
}

#[test]
fn write_overwrite_line_feed_keeps_the_next_line() {
    let mut text = Text::new();
    text.write("one\ntwo\nthree");
    text.cursor_position = at(1, 0);
    text.write("\nT");
    assert_eq!(text.get_text(), vec!["one", "Two", "three"]);
    assert_eq!(text.cursor_position, at(1, 1));
}

#[test]
fn write_cursor_moves_are_clamped() {
    let mut text = Text::new();
    text.write("a\nb\nc");
    text.write("\x1b[9A");
    assert_eq!(text.cursor_position, at(1, 0));
    text.write("\x1b[9B");
    assert_eq!(text.cursor_position, at(1, 2));
    text.write("\x1b[A");
    assert_eq!(text.cursor_position, at(1, 1));
    text.write("\x1b[0B");
    assert_eq!(text.cursor_position, at(1, 1));
    let huge = format!("\x1b[{}B\x1b[{}A", "9".repeat(30), "9".repeat(30));
    text.write(&huge);
    assert_eq!(text.cursor_position, at(1, 0));
    assert_eq!(text.get_text(), vec!["a", "b", "c"]);
}

#[test]
fn write_keeps_styles_as_escape_sequences() {
    let mut text = Text::new();
    text.write("\x1b[1;31mHi\x1b[0m");
    assert_eq!(text.get_text(), vec!["\x1b[1m\x1b[31mHi\x1b[0m"]);
    assert_eq!(text.cursor_position, at(15, 0));

    let mut text = Text::new();
    text.write("\x1b[38;5;196mX\x1b[48;2;1;2;3m\x1b[m");
    assert_eq!(
        text.get_text(),
        vec!["\x1b[38;2;255;0;0mX\x1b[48;2;1;2;3m\x1b[0m"]
    );

    let mut text = Text::new();
    text.write("\x1b[3;39;49;22mZ");
    assert_eq!(text.get_text(), vec!["\x1b[3m\x1b[39m\x1b[49m\x1b[0mZ"]);
}

#[test]
fn write_passes_over_other_commands() {
    let mut text = Text::new();
    text.write("ab\x1b[2Kcd\x1b[5C\x1b[3De\x1b[2J\x1b[4G\x1b[2H\x1b[S\x1b[Tf\x1b[9z!");
    assert_eq!(text.get_text(), vec!["abcdef!"]);
    assert_eq!(text.cursor_position, at(7, 0));
}

#[test]
fn write_literal_after_marker() {
    let mut text = Text::new();
    text.write("a\x1bcb");
    assert_eq!(text.get_text(), vec!["acb"]);
    assert_eq!(text.cursor_position, at(3, 0));
}

#[test]
fn write_cut_short_sequence_is_dropped() {
    let mut text = Text::new();
    text.write("ab\x1b[12");
    assert_eq!(text.get_text(), vec!["ab"]);
    assert_eq!(text.cursor_position, at(2, 0));
}

#[test]
fn write_wide_characters_by_character() {
    let mut text = Text::new();
    text.write("\u{e9}t\u{e9}\x1b[1mx");
    assert_eq!(text.get_text(), vec!["\u{e9}t\u{e9}\x1b[1mx"]);
    assert_eq!(text.cursor_position, at(8, 0));
}

#[test]
fn write_keeps_settings() {
    let mut text = TextBuilder::new()
        .insert_mode(InsertMode::Insert)
        .vertical_alignment(VerticalAlignment::AlwaysBottom)
        .cursor_state(CursorState::InsertActive)
        .font_scale(2)
        .bold(true)
        .build();
    text.redraw = false;
    text.scroll_pos_y = -3;
    text.write("x\ny");
    assert!(text.redraw);
    assert_eq!(text.insert_mode, InsertMode::Insert);
    assert_eq!(text.vertical_alignment, VerticalAlignment::AlwaysBottom);
    assert_eq!(text.cursor_state, CursorState::InsertActive);
    assert_eq!(text.font_scale, 2);
    assert!(text.bold);
    assert_eq!(text.scroll_pos_y, -3);
}

#[test]
fn replace_swaps_the_content() {
    let mut text = Text::new();
    text.write("old 1\nold 2");
    let previous = text.replace(lines(&["new 1", "new 22"]));
    assert_eq!(previous, vec!["old 1", "old 2"]);
    assert_eq!(text.get_text(), vec!["new 1", "new 22"]);
    assert_eq!(text.cursor_position, at(6, 1));
    assert!(text.must_draw());

    let previous = text.replace(Vec::new());
    assert_eq!(previous, vec!["new 1", "new 22"]);
    assert_eq!(text.get_text(), vec![""]);
    assert_eq!(text.cursor_position, at(0, 0));

    let previous = text.replace(lines(&["\u{e9}\u{e9}"]));
    assert_eq!(previous, vec![""]);
    assert_eq!(text.cursor_position, at(2, 0));
}

#[test]
fn clear_resets() {
    let mut text = Text::new();
    text.write("a\nb\nc");
    text.redraw = false;
    text.clear();
    assert_eq!(text.get_text(), vec![""]);
    assert_eq!(text.cursor_position, at(0, 0));
    assert!(text.redraw);
}

#[test]
fn move_cursor_horz_steps() {
    let mut text = Text::new();
    text.write("Hello");
    text.move_cursor_horz(-1);
    assert_eq!(text.cursor_position, at(4, 0));
    text.move_cursor_horz(-2);
    assert_eq!(text.cursor_position, at(0, 0));
    text.move_cursor_horz(1);
    assert_eq!(text.cursor_position, at(1, 0));
    text.move_cursor_horz(2);
    assert_eq!(text.cursor_position, at(5, 0));
    // the column is not held to the line
    text.move_cursor_horz(1);
    assert_eq!(text.cursor_position, at(6, 0));
    assert_eq!(text.get_text(), vec!["Hello"]);
}

#[test]
fn clear_around_the_cursor() {
    let mut text = Text::new();
    text.write("Hello World");
    text.cursor_position = at(6, 0);
    text.clear_to_here();
    assert_eq!(text.get_text(), vec!["World"]);
    assert_eq!(text.cursor_position, at(0, 0));

    text.cursor_position = at(3, 0);
    text.clear_from_here();
    assert_eq!(text.get_text(), vec!["Wor"]);
    assert_eq!(text.cursor_position, at(3, 0));

    text.cursor_position = at(9, 0);
    text.clear_from_here();
    assert_eq!(text.get_text(), vec!["Wor"]);
    text.clear_to_here();
    assert_eq!(text.get_text(), vec![""]);
    assert_eq!(text.cursor_position, at(0, 0));
}

fn buffer_of(count: usize) -> Text {
    let mut text = Text::new();
    let content: Vec<String> = (0..count).map(|i| format!("line {}", i)).collect();
    text.replace(content);
    text
}

#[test]
fn visible_window_always_top() {
    let text = buffer_of(30);
    assert_eq!(
        text.visible_window(10, 95, VerticalAlignment::AlwaysTop, 0),
        (0, 0)
    );
    assert_eq!(
        text.visible_window(10, 95, VerticalAlignment::AlwaysTop, -5),
        (0, 0)
    );
}

#[test]
fn visible_window_always_bottom() {
    // 95 pixels hold 9 whole lines and part of a tenth
    let text = buffer_of(30);
    assert_eq!(
        text.visible_window(10, 95, VerticalAlignment::AlwaysBottom, 0),
        (20, -5)
    );
    assert_eq!(
        text.visible_window(10, 95, VerticalAlignment::AlwaysBottom, -4),
        (16, -5)
    );
    assert_eq!(
        text.visible_window(10, 100, VerticalAlignment::AlwaysBottom, 0),
        (20, 0)
    );
    // short content stands at the bottom
    let text = buffer_of(3);
    assert_eq!(
        text.visible_window(10, 95, VerticalAlignment::AlwaysBottom, 0),
        (0, 65)
    );
    let text = buffer_of(9);
    assert_eq!(
        text.visible_window(10, 95, VerticalAlignment::AlwaysBottom, 0),
        (0, 5)
    );
    // ten lines overflow the nine whole ones, and none is left out
    let text = buffer_of(10);
    assert_eq!(
        text.visible_window(10, 95, VerticalAlignment::AlwaysBottom, 0),
        (0, -5)
    );
}

#[test]
fn visible_window_bottom_on_overflow() {
    let text = buffer_of(30);
    assert_eq!(
        text.visible_window(10, 95, VerticalAlignment::BottomOnOverflow, 0),
        (20, -5)
    );
    let text = buffer_of(3);
    assert_eq!(
        text.visible_window(10, 95, VerticalAlignment::BottomOnOverflow, 0),
        (0, 0)
    );
    let text = buffer_of(9);
    assert_eq!(
        text.visible_window(10, 95, VerticalAlignment::BottomOnOverflow, 0),
        (0, 0)
    );
    // ten lines overflow the nine whole ones: none is left out, and the
    // first starts above the viewport
    let text = buffer_of(10);
    assert_eq!(
        text.visible_window(10, 95, VerticalAlignment::BottomOnOverflow, 0),
        (0, -5)
    );
    let text = buffer_of(4);
    assert_eq!(
        text.visible_window(10, 35, VerticalAlignment::BottomOnOverflow, 0),
        (0, -5)
    );
    assert_eq!(
        text.visible_window(10, 40, VerticalAlignment::BottomOnOverflow, 0),
        (0, 0)
    );
    let text = buffer_of(11);
    assert_eq!(
        text.visible_window(10, 95, VerticalAlignment::BottomOnOverflow, 0),
        (1, -5)
    );
}

#[test]
fn visible_window_edges() {
    let text = buffer_of(5);
    assert_eq!(
        text.visible_window(10, 0, VerticalAlignment::AlwaysBottom, 0),
        (5, 0)
    );
    assert_eq!(
        text.visible_window(10, 95, VerticalAlignment::AlwaysBottom, -5),
        (0, 95)
    );
    assert_eq!(
        text.visible_window(10, 95, VerticalAlignment::AlwaysBottom, 7),
        (0, 45)
    );
    assert_eq!(
        text.visible_window(i32::MAX, i32::MAX, VerticalAlignment::AlwaysBottom, 0),
        (4, 0)
    );
    assert_eq!(
        text.visible_window(1, i32::MAX, VerticalAlignment::BottomOnOverflow, 0),
        (0, 0)
    );
}

#[test]
fn visible_window_twice() {
    let text = buffer_of(30);
    for policy in [
        VerticalAlignment::AlwaysTop,
        VerticalAlignment::AlwaysBottom,
        VerticalAlignment::BottomOnOverflow,
    ] {
        for scroll in [0, -1, -7, -30] {
            let first = text.visible_window(12, 100, policy, scroll);
            let second = text.visible_window(12, 100, policy, scroll);
            assert_eq!(first, second);
        }
    }
}

#[test]
fn calculate_scroll_position_uses_the_settings() {
    let mut text = TextBuilder::new()
        .size(Vector2i { x: 200, y: 95 })
        .font_scale(2)
        .vertical_alignment(VerticalAlignment::AlwaysBottom)
        .build();
    let content: Vec<String> = (0..30).map(|i| format!("line {}", i)).collect();
    text.replace(content);
    assert_eq!(text.calculate_scroll_position(5), (30, 20, -5));
    text.scroll_pos_y = -4;
    assert_eq!(text.calculate_scroll_position(5), (26, 16, -5));
}

#[test]
fn builder_defaults() {
    let text = TextBuilder::new().build();
    assert_eq!(text.get_text(), vec![""]);
    assert_eq!(text.cursor_position, at(0, 0));
    assert_eq!(text.position, Vector2i { x: 0, y: 0 });
    assert_eq!(text.get_size(), Vector2i { x: 1, y: 1 });
    assert_eq!(text.vertical_alignment, VerticalAlignment::AlwaysTop);
    assert_eq!(text.font_scale, 1);
    assert_eq!(text.get_cursor_state(), CursorState::Hidden);
    assert_eq!(text.insert_mode, InsertMode::Overwrite);
    assert_eq!(text.scroll_pos_y, 0);
    assert!(!text.bold);
    assert!(text.must_draw());
}

#[test]
fn setters() {
    let mut text = Text::new();
    text.redraw = false;
    text.cursor_state(CursorState::NormalActive)
        .vertical_alignment(VerticalAlignment::BottomOnOverflow);
    assert_eq!(text.get_cursor_state(), CursorState::NormalActive);
    assert_eq!(text.vertical_alignment, VerticalAlignment::BottomOnOverflow);
    assert!(!text.redraw);
    text.set_cursor_state(CursorState::InsertInactive);
    assert_eq!(text.get_cursor_state(), CursorState::InsertInactive);
    assert!(text.redraw);

    text.redraw = false;
    text.position_size(Vector2i { x: 3, y: 4 }, Vector2i { x: 0, y: -7 });
    assert_eq!(text.position, Vector2i { x: 3, y: 4 });
    assert_eq!(text.get_size(), Vector2i { x: 1, y: 1 });
    assert!(!text.redraw);
    text.set_position_size(Vector2i { x: 5, y: 6 }, Vector2i { x: 70, y: 80 });
    assert_eq!(text.position, Vector2i { x: 5, y: 6 });
    assert_eq!(text.get_size(), Vector2i { x: 70, y: 80 });
    assert!(text.redraw);
}

#[test]
fn calculate_scroll_position_on_overflow() {
    let mut text = TextBuilder::new()
        .size(Vector2i { x: 100, y: 35 })
        .vertical_alignment(VerticalAlignment::BottomOnOverflow)
        .build();
    text.replace(lines(&["1", "2", "3", "4"]));
    assert_eq!(text.calculate_scroll_position(10), (4, 0, -5));
    assert_eq!(text.calculate_scroll_position(10), (4, 0, -5));
    text.replace(lines(&["1", "2", "3"]));
    assert_eq!(text.calculate_scroll_position(10), (3, 0, 0));
    text.replace(lines(&["1", "2", "3", "4", "5"]));
    assert_eq!(text.calculate_scroll_position(10), (5, 1, -5));
}

#[test]
fn calculate_scroll_position_twice() {
    let mut text = TextBuilder::new()
        .size(Vector2i { x: 100, y: 95 })
        .font_scale(3)
        .build();
    let content: Vec<String> = (0..40).map(|i| format!("line {}", i)).collect();
    text.replace(content);
    for policy in [
        VerticalAlignment::AlwaysTop,
        VerticalAlignment::AlwaysBottom,
        VerticalAlignment::BottomOnOverflow,
    ] {
        for scroll in [0, -1, -13, -40] {
            text.vertical_alignment = policy;
            text.scroll_pos_y = scroll;
            let before = text.get_text();
            let first = text.calculate_scroll_position(4);
            let second = text.calculate_scroll_position(4);
            assert_eq!(first, second);
            assert_eq!(text.get_text(), before);
            assert_eq!(text.scroll_pos_y, scroll);
        }
    }
}

#[test]
fn new_buffer_has_the_default_settings() {
    for text in [Text::new(), Text::default()] {
        assert_eq!(text.get_text(), vec![""]);
        assert_eq!(text.cursor_position, at(0, 0));
        assert_eq!(text.position, Vector2i { x: 0, y: 0 });
        assert_eq!(text.size, Vector2i { x: 1, y: 1 });
        assert_eq!(text.font_scale, 1);
        assert_eq!(text.scroll_pos_y, 0);
        assert!(!text.bold);
        assert!(text.redraw);
        assert_eq!(text.calculate_scroll_position(16), (1, 0, 0));
    }
}
