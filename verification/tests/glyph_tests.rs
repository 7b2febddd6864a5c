use termbuf::glyph::Char;
use termbuf::text::Vector2i;

#[test]
fn test_char_display() {
    let x = r#" +++
+   +
+   +
+++++
+   +
+   +
+   +
"#;
    let ch = Char::from_ascii(x);
    assert_eq!(ch.to_string(), x);
}

#[test]
fn from_ascii_values() {
    let ch = Char::from_ascii(" \u{b7}+*x\n*");
    assert_eq!(ch.pixels, vec![vec![0, 85, 170, 255, 0], vec![255]]);
}

#[test]
fn from_ascii_line_ends() {
    assert_eq!(Char::from_ascii("").pixels, Vec::<Vec<u8>>::new());
    assert_eq!(Char::from_ascii("\n").pixels, vec![Vec::<u8>::new()]);
    assert_eq!(Char::from_ascii("+\n").pixels, vec![vec![170]]);
    assert_eq!(Char::from_ascii("+\n\n*").pixels, vec![vec![170], vec![], vec![255]]);
    assert_eq!(Char::from_ascii("+\r\n*\r\n").pixels, vec![vec![170], vec![255]]);
    // a carriage return that ends the text stays part of the line
    assert_eq!(Char::from_ascii("+\r").pixels, vec![vec![170, 0]]);
    for text in ["", "\n", "a\nb", "a\r\nb\r\n", "\r", "a\r", "\n\n", "\r\n\r"] {
        let rows: Vec<usize> = text.lines().map(|l| l.chars().count()).collect();
        let got: Vec<usize> = Char::from_ascii(text).pixels.iter().map(|r| r.len()).collect();
        assert_eq!(got, rows);
    }
}

#[test]
fn to_string_quarters() {
    let ch = Char {
        pixels: vec![vec![0, 63, 64, 127, 128, 191, 192, 255], vec![]],
    };
    assert_eq!(ch.to_string(), "  \u{b7}\u{b7}++**\n\n");
    assert_eq!(Char::new_empty().to_string(), "");
}

#[test]
fn set_pixel_in_and_out_of_range() {
    let mut ch = Char::new_filled(Vector2i { x: 3, y: 2 });
    assert_eq!(ch.pixels, vec![vec![0, 0, 0], vec![0, 0, 0]]);
    ch.set_pixel(2, 1, 200);
    ch.set_pixel(0, 0, 7);
    assert_eq!(ch.pixels, vec![vec![7, 0, 0], vec![0, 0, 200]]);
    ch.set_pixel(3, 0, 9);
    ch.set_pixel(0, 2, 9);
    assert_eq!(ch.pixels, vec![vec![7, 0, 0], vec![0, 0, 200]]);
    let mut empty = Char::new_empty();
    empty.set_pixel(0, 0, 1);
    assert!(empty.pixels.is_empty());
    assert!(Char::new_filled(Vector2i { x: 0, y: 0 }).pixels.is_empty());
}
