use termbuf::color::{AnsiColor, ColorType, Rgb};

fn rgb(r: u8, g: u8, b: u8) -> Rgb {
    Rgb { r, g, b }
}

#[test]
fn test_color_init() {
    let color = AnsiColor::new();

    assert_eq!(color.regular_colors().len(), 8);
    assert_eq!(color.high_intensity_colors().len(), 8);
    assert_eq!(color.regular_color_names().len(), 8);
    assert_eq!(color.high_intensity_color_names().len(), 8);
    assert_eq!(color.all_colors().len(), 108);
}

#[test]
fn test_get_ansi() {
    let color = AnsiColor::new();

    assert_eq!(color.get_ansi("Black"), Some(30));
    assert_eq!(color.get_ansi("Red"), Some(31));
    assert_eq!(color.get_ansi("Green"), Some(32));
    assert_eq!(color.get_ansi("Yellow"), Some(33));
    assert_eq!(color.get_ansi("Blue"), Some(34));
    assert_eq!(color.get_ansi("Purple"), Some(35));
    assert_eq!(color.get_ansi("Cyan"), Some(36));
    assert_eq!(color.get_ansi("White"), Some(37));

    assert_eq!(color.get_ansi_background("Black"), Some(40));
    assert_eq!(color.get_ansi_background("Red"), Some(41));
    assert_eq!(color.get_ansi_background("Green"), Some(42));
    assert_eq!(color.get_ansi_background("Yellow"), Some(43));
    assert_eq!(color.get_ansi_background("Blue"), Some(44));
    assert_eq!(color.get_ansi_background("Purple"), Some(45));
    assert_eq!(color.get_ansi_background("Cyan"), Some(46));
    assert_eq!(color.get_ansi_background("White"), Some(47));

    assert_eq!(color.get_ansi("Light Black"), Some(90));
}

#[test]
fn test_get_color() {
    let color = AnsiColor::new();

    assert_eq!(color.get_color("Black"), Some(rgb(0x00, 0x00, 0x00)));
    assert_eq!(color.get_color("Red"), Some(rgb(0xB2, 0x22, 0x22)));
    assert_eq!(color.get_color("White"), Some(rgb(0xFF, 0xFF, 0xFF)));

    assert_eq!(color.get_color("Light Black"), Some(rgb(0x69, 0x69, 0x69)));
    assert_eq!(color.get_color("Light Red"), Some(rgb(0xFF, 0x45, 0x00)));

    assert_eq!(color.get_color_background("Red"), Some(rgb(0xB2, 0x22, 0x22)));
    assert_eq!(
        color.get_color_background("Light Red"),
        Some(rgb(0xFF, 0x45, 0x00))
    );
}

#[test]
fn test_parse_ansi_color_code() {
    let color = AnsiColor::new();

    assert_eq!(
        color.parse_ansi_color_code("\x1b[0m"),
        (4, vec![ColorType::Reset])
    );
    assert_eq!(
        color.parse_ansi_color_code("\x1b[30m"),
        (5, vec![ColorType::Regular(30)])
    );
    assert_eq!(color.parse_ansi_color_code("\x1b[38m"), (0, vec![]));
    assert_eq!(
        color.parse_ansi_color_code("\x1b[90m"),
        (5, vec![ColorType::HighIntensity(90)])
    );
    assert_eq!(
        color.parse_ansi_color_code("\x1b[40m"),
        (5, vec![ColorType::Background(40)])
    );
    assert_eq!(
        color.parse_ansi_color_code("\x1b[100m"),
        (6, vec![ColorType::BackgroundHighIntensity(100)])
    );
    assert_eq!(
        color.parse_ansi_color_code("\x1b[1;32m"),
        (7, vec![ColorType::Bold, ColorType::Regular(32)])
    );
    assert_eq!(color.parse_ansi_color_code("\x1b[186m"), (0, vec![]));
}

#[test]
fn resolve_palette_codes() {
    let color = AnsiColor::new();
    assert_eq!(color.get_color_from_ansi(31), Some(rgb(0xB2, 0x22, 0x22)));
    assert_eq!(color.get_color_from_ansi(91), Some(rgb(0xFF, 0x45, 0x00)));
    assert_eq!(color.get_color_from_ansi(30), Some(rgb(0, 0, 0)));
    assert_eq!(color.get_color_from_ansi(37), Some(rgb(255, 255, 255)));
    assert_eq!(color.get_color_from_ansi(97), Some(rgb(0xF8, 0xF8, 0xFF)));
    assert_eq!(color.get_color_from_ansi(107), Some(rgb(0xF8, 0xF8, 0xFF)));
}

#[test]
fn resolve_background_like_foreground() {
    let color = AnsiColor::new();
    for code in (30..=37).chain(90..=97) {
        let fg = color.get_color_from_ansi(code);
        assert!(fg.is_some());
        assert_eq!(color.get_color_from_ansi(code + 10), fg);
    }
}

#[test]
fn resolve_rejects_other_codes() {
    let color = AnsiColor::new();
    for code in [0usize, 1, 29, 38, 39, 48, 49, 50, 89, 98, 99, 108, 109, 255, 1000] {
        assert_eq!(color.get_color_from_ansi(code), None);
    }
    assert_eq!(color.get_color_from_ansi(usize::MAX), None);
}

#[test]
fn resolve_256_palettes() {
    let color = AnsiColor::new();
    assert_eq!(color.decode_8_bit(0), Some(rgb(0, 0, 0)));
    assert_eq!(color.decode_8_bit(1), Some(rgb(0xB2, 0x22, 0x22)));
    assert_eq!(color.decode_8_bit(7), Some(rgb(255, 255, 255)));
    assert_eq!(color.decode_8_bit(8), Some(rgb(0x69, 0x69, 0x69)));
    assert_eq!(color.decode_8_bit(9), Some(rgb(0xFF, 0x45, 0x00)));
    assert_eq!(color.decode_8_bit(15), Some(rgb(0xF8, 0xF8, 0xFF)));
}

#[test]
fn resolve_256_cube() {
    let color = AnsiColor::new();
    assert_eq!(color.decode_8_bit(16), Some(rgb(0, 0, 0)));
    assert_eq!(color.decode_8_bit(196), Some(rgb(255, 0, 0)));
    assert_eq!(color.decode_8_bit(46), Some(rgb(0, 255, 0)));
    assert_eq!(color.decode_8_bit(21), Some(rgb(0, 0, 255)));
    assert_eq!(color.decode_8_bit(231), Some(rgb(255, 255, 255)));
    // 16 + 36 * 1 + 6 * 2 + 3
    assert_eq!(color.decode_8_bit(67), Some(rgb(51, 102, 153)));
}

#[test]
fn resolve_256_grays() {
    let color = AnsiColor::new();
    assert_eq!(color.decode_8_bit(232), Some(rgb(0, 0, 0)));
    assert_eq!(color.decode_8_bit(233), Some(rgb(11, 11, 11)));
    assert_eq!(color.decode_8_bit(255), Some(rgb(253, 253, 253)));
    assert_eq!(color.decode_8_bit(256), None);
}

#[test]
fn resolve_truecolor_bounds() {
    let color = AnsiColor::new();
    assert_eq!(color.decode_24_bit(1, 2, 3), Some(rgb(1, 2, 3)));
    assert_eq!(color.decode_24_bit(255, 255, 255), Some(rgb(255, 255, 255)));
    assert_eq!(color.decode_24_bit(256, 0, 0), None);
    assert_eq!(color.decode_24_bit(0, 256, 0), None);
    assert_eq!(color.decode_24_bit(0, 0, 256), None);
}

#[test]
fn unknown_names() {
    let color = AnsiColor::new();
    assert_eq!(color.get_ansi("black"), None);
    assert_eq!(color.get_ansi(""), None);
    assert_eq!(color.get_ansi("Light"), None);
    assert_eq!(color.get_ansi_background("Orange"), None);
    assert_eq!(color.get_color("Orange"), None);
    assert_eq!(color.get_ansi("Light White"), Some(97));
    assert_eq!(color.get_ansi_background("Light White"), Some(107));
}

#[test]
fn escape_strings() {
    let color = AnsiColor::new();
    assert_eq!(color.fg("Red"), "\x1b[31m");
    assert_eq!(color.bg("Red"), "\x1b[41m");
    assert_eq!(color.fg("Light Blue"), "\x1b[94m");
    assert_eq!(color.bg("Light Blue"), "\x1b[104m");
    assert_eq!(color.fg("Nothing"), "\x1b[0m");
    assert_eq!(color.bg("Nothing"), "\x1b[0m");
    assert_eq!(color.reset(), "\x1b[0m");
}

#[test]
fn token_escapes() {
    let text = |t: ColorType| t.escape().into_iter().collect::<String>();
    assert_eq!(text(ColorType::Regular(31)), "\x1b[31m");
    assert_eq!(text(ColorType::BackgroundHighIntensity(107)), "\x1b[107m");
    assert_eq!(text(ColorType::TrueColorFg(1, 20, 255)), "\x1b[38;2;1;20;255m");
    assert_eq!(text(ColorType::TrueColorBg(0, 0, 0)), "\x1b[48;2;0;0;0m");
    assert_eq!(text(ColorType::ResetFg), "\x1b[39m");
    assert_eq!(text(ColorType::ResetBg), "\x1b[49m");
    assert_eq!(text(ColorType::Reset), "\x1b[0m");
    assert_eq!(text(ColorType::Bold), "\x1b[1m");
    assert_eq!(text(ColorType::Italic), "\x1b[3m");
}

#[test]
fn token_escapes_parse_back() {
    let color = AnsiColor::new();
    let tokens = [
        ColorType::Regular(30),
        ColorType::Background(47),
        ColorType::HighIntensity(95),
        ColorType::BackgroundHighIntensity(100),
        ColorType::TrueColorFg(12, 0, 255),
        ColorType::TrueColorBg(255, 255, 255),
        ColorType::ResetFg,
        ColorType::ResetBg,
        ColorType::Reset,
        ColorType::Bold,
        ColorType::Italic,
    ];
    for token in tokens {
        let chars = token.escape();
        let (count, parsed) = color.parse_color_code_at(&chars, 0);
        assert_eq!(count, chars.len());
        assert_eq!(parsed, vec![token]);
    }
}

#[test]
fn strict_parse_extended_colors() {
    let color = AnsiColor::new();
    assert_eq!(
        color.parse_ansi_color_code("\x1b[38;5;196m"),
        (11, vec![ColorType::TrueColorFg(255, 0, 0)])
    );
    assert_eq!(
        color.parse_ansi_color_code("\x1b[48;5;9mrest"),
        (9, vec![ColorType::TrueColorBg(0xFF, 0x45, 0x00)])
    );
    assert_eq!(
        color.parse_ansi_color_code("\x1b[38;2;1;2;3;1m"),
        (15, vec![ColorType::TrueColorFg(1, 2, 3), ColorType::Bold])
    );
    assert_eq!(color.parse_ansi_color_code("\x1b[38;5;256m"), (0, vec![]));
    assert_eq!(color.parse_ansi_color_code("\x1b[38;2;1;2m"), (0, vec![]));
    assert_eq!(color.parse_ansi_color_code("\x1b[38;2;1;2;300m"), (0, vec![]));
}

#[test]
fn strict_parse_edges() {
    let color = AnsiColor::new();
    assert_eq!(color.parse_ansi_color_code(""), (0, vec![]));
    assert_eq!(color.parse_ansi_color_code("x\x1b[0m"), (0, vec![]));
    assert_eq!(color.parse_ansi_color_code("\x1b"), (0, vec![]));
    assert_eq!(color.parse_ansi_color_code("\x1b[1"), (0, vec![]));
    assert_eq!(color.parse_ansi_color_code("\x1b[1:31m"), (0, vec![]));
    assert_eq!(color.parse_ansi_color_code("\x1b[2A"), (0, vec![]));
    assert_eq!(color.parse_ansi_color_code("\x1b[m"), (3, vec![ColorType::Reset]));
    assert_eq!(
        color.parse_ansi_color_code("\x1b[;1m"),
        (5, vec![ColorType::Reset, ColorType::Bold])
    );
    // styles that are known and have no effect are passed over
    assert_eq!(
        color.parse_ansi_color_code("\x1b[2;4;9;21;22;23;24;25;3m"),
        (25, vec![ColorType::Italic])
    );
    assert_eq!(
        color.parse_ansi_color_code("\x1b[39;49m"),
        (8, vec![ColorType::ResetFg, ColorType::ResetBg])
    );
    assert_eq!(
        color.parse_ansi_color_code("\x1b[1;2;3;4;30;31;32;33;34m"),
        (
            25,
            vec![
                ColorType::Bold,
                ColorType::Italic,
                ColorType::Regular(30),
                ColorType::Regular(31),
                ColorType::Regular(32),
                ColorType::Regular(33),
                ColorType::Regular(34),
            ]
        )
    );
    assert_eq!(
        color.parse_ansi_color_code("\x1b[99999999999999999999999999m"),
        (0, vec![])
    );
}
