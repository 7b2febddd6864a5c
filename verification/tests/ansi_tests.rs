use termbuf::ansi::{Ansi, AnsiCode};
use termbuf::color::{AnsiColor, ColorType, Rgb};

fn decode(text: &str) -> (usize, Vec<AnsiCode>) {
    let wrap = Ansi::parse(text);
    (wrap.char_count, wrap.codes)
}

#[test]
fn test_ansi() {
    let text = "\x1b[1;31mHello\x1b[0m";
    let color_codes = AnsiColor::new();
    let red = color_codes.get_color_from_ansi(31).unwrap();
    assert_eq!(red, Rgb { r: 0xB2, g: 0x22, b: 0x22 });
    let codes = Ansi::parse(text);
    assert_eq!(codes.codes.len(), 2);
    assert_eq!(codes.codes[0], AnsiCode::Color(ColorType::Bold));
    assert_eq!(codes.codes[1], AnsiCode::Color(ColorType::Regular(31)));
    assert_eq!(codes.char_count, 7);
}

#[test]
fn test_ansi2() {
    let text = "Hello\x1b[0m";
    let codes = Ansi::parse(text);
    assert_eq!(codes.codes.len(), 0);
    assert_eq!(codes.char_count, 0);
}

#[test]
fn decode_bold_red() {
    assert_eq!(
        decode("\x1b[1;31m"),
        (
            7,
            vec![
                AnsiCode::Color(ColorType::Bold),
                AnsiCode::Color(ColorType::Regular(31))
            ]
        )
    );
}

#[test]
fn decode_without_marker() {
    for text in ["", "a", "[1m", "Hello", " \x1b[1m", "\n", "m"] {
        assert_eq!(decode(text), (0, vec![]));
    }
}

#[test]
fn decode_cursor_moves() {
    assert_eq!(decode("\x1b[A"), (3, vec![AnsiCode::CursorUp(1)]));
    assert_eq!(decode("\x1b[2A"), (4, vec![AnsiCode::CursorUp(2)]));
    assert_eq!(decode("\x1b[0A"), (4, vec![AnsiCode::CursorUp(0)]));
    assert_eq!(decode("\x1b[12B"), (5, vec![AnsiCode::CursorDown(12)]));
    assert_eq!(decode("\x1b[3E"), (4, vec![AnsiCode::CursorDown(3)]));
    assert_eq!(decode("\x1b[C"), (3, vec![AnsiCode::CursorRight(1)]));
    assert_eq!(decode("\x1b[7C"), (4, vec![AnsiCode::CursorRight(7)]));
    assert_eq!(decode("\x1b[D"), (3, vec![AnsiCode::CursorLeft(1)]));
    assert_eq!(decode("\x1b[4F"), (4, vec![AnsiCode::CursorLeft(4)]));
    assert_eq!(decode("\x1b[G"), (3, vec![AnsiCode::CursorColumn(1)]));
    assert_eq!(decode("\x1b[9G"), (4, vec![AnsiCode::CursorColumn(9)]));
    assert_eq!(decode("\x1b[H"), (3, vec![AnsiCode::CursorRow(1)]));
    assert_eq!(decode("\x1b[5;9H"), (6, vec![AnsiCode::CursorRow(5)]));
    assert_eq!(decode("\x1b[S"), (3, vec![AnsiCode::ScrollUp(1)]));
    assert_eq!(decode("\x1b[3S"), (4, vec![AnsiCode::ScrollUp(3)]));
    assert_eq!(decode("\x1b[T"), (3, vec![AnsiCode::ScrollDown(1)]));
    assert_eq!(decode("\x1b[8T"), (4, vec![AnsiCode::ScrollDown(8)]));
}

#[test]
fn decode_erase() {
    assert_eq!(decode("\x1b[J"), (3, vec![AnsiCode::ClearToEndOfLine]));
    assert_eq!(decode("\x1b[0J"), (4, vec![AnsiCode::ClearToEndOfLine]));
    assert_eq!(decode("\x1b[1J"), (4, vec![AnsiCode::ClearToStartOfLine]));
    assert_eq!(decode("\x1b[2J"), (4, vec![AnsiCode::ClearLine]));
    assert_eq!(decode("\x1b[3J"), (4, vec![AnsiCode::ClearScrollback]));
    assert_eq!(decode("\x1b[4J"), (4, vec![]));
    assert_eq!(decode("\x1b[K"), (3, vec![AnsiCode::ClearToEndOfLine]));
    assert_eq!(decode("\x1b[0K"), (4, vec![AnsiCode::ClearToEndOfLine]));
    assert_eq!(decode("\x1b[1K"), (4, vec![AnsiCode::ClearToStartOfLine]));
    assert_eq!(decode("\x1b[2K"), (4, vec![AnsiCode::ClearLine]));
    assert_eq!(decode("\x1b[3K"), (4, vec![]));
}

#[test]
fn decode_styles() {
    let color = |t: ColorType| AnsiCode::Color(t);
    assert_eq!(decode("\x1b[m"), (3, vec![color(ColorType::Reset)]));
    assert_eq!(decode("\x1b[0m"), (4, vec![color(ColorType::Reset)]));
    assert_eq!(decode("\x1b[1m"), (4, vec![color(ColorType::Bold)]));
    assert_eq!(decode("\x1b[3m"), (4, vec![color(ColorType::Italic)]));
    for off in ["22", "23", "24", "27"] {
        assert_eq!(
            decode(&format!("\x1b[{}m", off)),
            (5, vec![color(ColorType::Reset)])
        );
    }
    assert_eq!(decode("\x1b[37m"), (5, vec![color(ColorType::Regular(37))]));
    assert_eq!(decode("\x1b[40m"), (5, vec![color(ColorType::Background(40))]));
    assert_eq!(
        decode("\x1b[97m"),
        (5, vec![color(ColorType::HighIntensity(97))])
    );
    assert_eq!(
        decode("\x1b[100m"),
        (6, vec![color(ColorType::BackgroundHighIntensity(100))])
    );
    assert_eq!(decode("\x1b[39m"), (5, vec![color(ColorType::ResetFg)]));
    assert_eq!(decode("\x1b[49m"), (5, vec![color(ColorType::ResetBg)]));
}

#[test]
fn decode_extended_colors() {
    let color = |t: ColorType| AnsiCode::Color(t);
    assert_eq!(
        decode("\x1b[38;5;196m"),
        (11, vec![color(ColorType::TrueColorFg(255, 0, 0))])
    );
    assert_eq!(
        decode("\x1b[48;5;1m"),
        (9, vec![color(ColorType::TrueColorBg(0xB2, 0x22, 0x22))])
    );
    assert_eq!(
        decode("\x1b[38;2;10;20;30m"),
        (16, vec![color(ColorType::TrueColorFg(10, 20, 30))])
    );
    assert_eq!(
        decode("\x1b[48:2:10:20:30;1m"),
        (18, vec![color(ColorType::TrueColorBg(10, 20, 30)), color(ColorType::Bold)])
    );
    // an incomplete or out-of-range form selects nothing; what follows is
    // read parameter by parameter
    assert_eq!(decode("\x1b[38m"), (5, vec![]));
    assert_eq!(decode("\x1b[38;5m"), (7, vec![]));
    assert_eq!(decode("\x1b[38;5;256m"), (11, vec![]));
    assert_eq!(
        decode("\x1b[38;2;300;1;31m"),
        (16, vec![color(ColorType::Bold), color(ColorType::Regular(31))])
    );
}

#[test]
fn decode_unknown_parameters_are_passed_over() {
    let color = |t: ColorType| AnsiCode::Color(t);
    assert_eq!(decode("\x1b[5m"), (4, vec![]));
    assert_eq!(decode("\x1b[186m"), (6, vec![]));
    assert_eq!(
        decode("\x1b[4;1;7;31m"),
        (11, vec![color(ColorType::Bold), color(ColorType::Regular(31))])
    );
}

#[test]
fn decode_parameter_fields() {
    let color = |t: ColorType| AnsiCode::Color(t);
    assert_eq!(
        decode("\x1b[;1m"),
        (5, vec![color(ColorType::Reset), color(ColorType::Bold)])
    );
    assert_eq!(
        decode("\x1b[1;m"),
        (5, vec![color(ColorType::Bold), color(ColorType::Reset)])
    );
    assert_eq!(
        decode("\x1b[;m"),
        (4, vec![color(ColorType::Reset), color(ColorType::Reset)])
    );
    assert_eq!(decode("\x1b[007A"), (6, vec![AnsiCode::CursorUp(7)]));
    assert_eq!(decode("\x1b[;4A"), (5, vec![AnsiCode::CursorUp(0)]));
    let huge = format!("\x1b[{}A", "9".repeat(40));
    assert_eq!(decode(&huge), (43, vec![AnsiCode::CursorUp(usize::MAX)]));
}

#[test]
fn decode_unknown_final_byte() {
    assert_eq!(decode("\x1b[2Z"), (4, vec![]));
    assert_eq!(decode("\x1b[q"), (3, vec![]));
    assert_eq!(decode("\x1b[2Zrest"), (4, vec![]));
    assert_eq!(
        decode("\x1b[2Z\x1b[1m"),
        (8, vec![AnsiCode::Color(ColorType::Bold)])
    );
}

#[test]
fn decode_literal_fallback() {
    assert_eq!(decode("\x1bc"), (2, vec![AnsiCode::Char('c')]));
    assert_eq!(decode("\x1bcde"), (2, vec![AnsiCode::Char('c')]));
    assert_eq!(decode("\x1b\x1b[1m"), (2, vec![AnsiCode::Char('\x1b')]));
    assert_eq!(decode("\x1bc\x1b[1m"), (2, vec![AnsiCode::Char('c')]));
}

#[test]
fn decode_runs_on_over_adjacent_sequences() {
    assert_eq!(
        decode("\x1b[1m\x1b[2A\x1b[KX\x1b[0m"),
        (
            11,
            vec![
                AnsiCode::Color(ColorType::Bold),
                AnsiCode::CursorUp(2),
                AnsiCode::ClearToEndOfLine
            ]
        )
    );
}

#[test]
fn decode_cut_short() {
    assert_eq!(decode("\x1b"), (1, vec![]));
    assert_eq!(decode("\x1b["), (2, vec![]));
    assert_eq!(decode("\x1b[12"), (4, vec![]));
    assert_eq!(decode("\x1b[1;"), (4, vec![]));
    assert_eq!(
        decode("\x1b[1m\x1b[3"),
        (7, vec![AnsiCode::Color(ColorType::Bold)])
    );
}

#[test]
fn decode_counts_characters_not_bytes() {
    let colors = AnsiColor::new();
    let chars: Vec<char> = "\u{e9}\u{e9}\x1b[2Bz".chars().collect();
    let wrap = Ansi::parse_at(&colors, &chars, 2);
    assert_eq!(wrap.char_count, 4);
    assert_eq!(wrap.codes, vec![AnsiCode::CursorDown(2)]);
    let none = Ansi::parse_at(&colors, &chars, 0);
    assert_eq!(none.char_count, 0);
    assert!(none.codes.is_empty());
    let end = Ansi::parse_at(&colors, &chars, chars.len());
    assert_eq!(end.char_count, 0);
    assert!(end.codes.is_empty());
}
