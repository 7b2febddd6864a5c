use termbuf::color::Rgb;
use termbuf::font::{Bitmap, CellOp, Font, IntRect, Shift, MAX_CHAR, NUM_CHARS};
use termbuf::text::Vector2i;

fn size(x: i32, y: i32) -> Vector2i {
    Vector2i { x, y }
}

fn gray(v: u8) -> Rgb {
    Rgb { r: v, g: v, b: v }
}

fn rect(left: i32, top: i32, width: i32, height: i32) -> IntRect {
    IntRect { left, top, width, height }
}

/// An image whose pixels are numbered by their place, so that each differs
/// from its neighbours.
fn numbered(width: usize, height: usize) -> Bitmap {
    let mut image = Bitmap::new(width, height);
    for y in 0..height {
        for x in 0..width {
            image.pixels[y][x] = Rgb { r: (x + 1) as u8, g: y as u8, b: 7 };
        }
    }
    image
}

#[test]
fn tables() {
    let font = Font::new("font_bold", size(20, 40));
    assert_eq!(font.name, "font_bold");
    assert_eq!(font.char_size, size(20, 40));
    assert_eq!(font.max_char, MAX_CHAR);
    assert_eq!(font.max_char, '\u{3009}' as i32);
    assert_eq!(font.char2idx.len(), 0x3009 + 1);
    assert_eq!(font.idx2char.len(), 141);
    for code in 0..128 {
        assert_eq!(font.char2idx[code as usize], code);
        assert_eq!(font.idx2char[code as usize], code);
    }
    let extended = "\u{e4}\u{f6}\u{fc}\u{c4}\u{d6}\u{dc}\u{df}\u{2018}\u{2022}\u{3008}\u{3009}\u{27e8}\u{27e9}";
    for (i, ch) in extended.chars().enumerate() {
        assert_eq!(font.char2idx[ch as usize], 128 + i as i32);
        assert_eq!(font.idx2char[128 + i], ch as i32);
    }
    let with_cell = font.char2idx.iter().filter(|cell| **cell != 0).count();
    assert_eq!(with_cell, 127 + 13);
}

#[test]
fn glyph_cells() {
    let font = Font::new("f", size(10, 16));
    assert_eq!(font.glyph('A' as i32), 65);
    assert_eq!(font.glyph(' ' as i32), 32);
    assert_eq!(font.glyph(127), 127);
    assert_eq!(font.glyph('\u{e4}' as i32), 128);
    assert_eq!(font.glyph('\u{df}' as i32), 134);
    assert_eq!(font.glyph('\u{3009}' as i32), 138);
    assert_eq!(font.glyph('\u{27e9}' as i32), 140);
    // characters without a cell are drawn as a question mark
    assert_eq!(font.glyph(0), 63);
    assert_eq!(font.glyph(128), 63);
    assert_eq!(font.glyph('\u{e9}' as i32), 63);
    assert_eq!(font.glyph(0x300a), 63);
    assert_eq!(font.glyph(0x10FFFF), 63);
    assert_eq!(font.glyph(-1), 63);
    assert_eq!(font.glyph(i32::MIN), 63);
    assert_eq!(font.glyph(i32::MAX), 63);
}

#[test]
fn sprite_rectangles() {
    let font = Font::new("f", size(10, 16));
    assert_eq!(font.rect_of_cell(0), rect(0, 0, 10, 16));
    assert_eq!(font.rect_of_cell(15), rect(150, 0, 10, 16));
    assert_eq!(font.rect_of_cell(16), rect(0, 16, 10, 16));
    assert_eq!(font.rect_of_cell(255), rect(150, 240, 10, 16));
    assert_eq!(font.get_sprite('A' as i32), rect(10, 64, 10, 16));
    assert_eq!(font.get_sprite('\u{e4}' as i32), rect(0, 128, 10, 16));
    assert_eq!(font.get_sprite(-5), rect(150, 48, 10, 16));
    assert_eq!(font.get_sprite_full(size(160, 256)), rect(0, 32, 160, 256));
    let widest = Font::new("f", size(i32::MAX / 16, i32::MAX / 16));
    assert_eq!(
        widest.rect_of_cell(255),
        rect(15 * (i32::MAX / 16), 15 * (i32::MAX / 16), i32::MAX / 16, i32::MAX / 16)
    );
}

#[test]
fn file_names() {
    assert_eq!(Font::filename("font", size(10, 16)), "font_10x16.png");
    assert_eq!(Font::filename("font_bold", size(20, 40)), "font_bold_20x40.png");
    assert_eq!(Font::filename("", size(0, 0)), "_0x0.png");
}

#[test]
fn new_bitmap_is_black() {
    let image = Bitmap::new(3, 2);
    assert_eq!(image.pixels, vec![vec![gray(0); 3]; 2]);
    assert!(Bitmap::new(0, 0).pixels.is_empty());
    assert_eq!(Bitmap::new(0, 2).pixels, vec![Vec::<Rgb>::new(), Vec::new()]);
}

#[test]
fn set_pixel_in_a_cell() {
    let font = Font::new("f", size(2, 3));
    let mut image = Bitmap::new(32, 48);
    font.set_pixel(&mut image, 17, 1, 2, 200);
    // cell 17 is column 1 of row 1
    for y in 0..48 {
        for x in 0..32 {
            let expected = if (x, y) == (3, 5) { gray(200) } else { gray(0) };
            assert_eq!(image.pixels[y][x], expected);
        }
    }
    image.set_gray(0, 0, 9);
    assert_eq!(image.pixels[0][0], gray(9));
}

#[test]
fn flips_stay_in_the_cell() {
    let font = Font::new("f", size(3, 2));
    let before = numbered(48, 32);
    let cell = 18; // column 2 of row 1: pixels 6..9 by 2..4

    let mut image = numbered(48, 32);
    font.flip_char_horizontal(&mut image, cell);
    for y in 0..32 {
        for x in 0..48 {
            let expected = if (6..9).contains(&x) && (2..4).contains(&y) {
                before.pixels[y][6 + (8 - x)]
            } else {
                before.pixels[y][x]
            };
            assert_eq!(image.pixels[y][x], expected);
        }
    }
    font.flip_char_horizontal(&mut image, cell);
    assert_eq!(image.pixels, before.pixels);

    font.flip_char_vertical(&mut image, cell);
    for y in 0..32 {
        for x in 0..48 {
            let expected = if (6..9).contains(&x) && (2..4).contains(&y) {
                before.pixels[2 + (3 - y)][x]
            } else {
                before.pixels[y][x]
            };
            assert_eq!(image.pixels[y][x], expected);
        }
    }
    font.flip_char_vertical(&mut image, cell);
    assert_eq!(image.pixels, before.pixels);
}

#[test]
fn bold_copies_lit_pixels_to_the_left() {
    let font = Font::new("f", size(4, 1));
    let mut image = Bitmap::new(64, 16);
    // cell 1 holds the columns 4..8 of row 0
    image.pixels[0][4] = gray(0);
    image.pixels[0][5] = gray(9);
    image.pixels[0][6] = gray(0);
    image.pixels[0][7] = gray(200);
    image.pixels[0][8] = gray(50);
    font.make_bold(&mut image, 1);
    assert_eq!(
        image.pixels[0][3..10],
        [gray(0), gray(9), gray(9), gray(200), gray(200), gray(50), gray(0)]
    );
    // only the red channel tells whether a pixel is lit
    let mut image = Bitmap::new(64, 16);
    image.pixels[0][1] = Rgb { r: 0, g: 255, b: 255 };
    image.pixels[0][3] = Rgb { r: 1, g: 2, b: 3 };
    font.make_bold(&mut image, 0);
    assert_eq!(
        image.pixels[0][0..4],
        [gray(0), Rgb { r: 0, g: 255, b: 255 }, Rgb { r: 1, g: 2, b: 3 }, Rgb { r: 1, g: 2, b: 3 }]
    );
}

#[test]
fn bold_everywhere() {
    let font = Font::new("f", size(2, 1));
    let mut image = Bitmap::new(32, 16);
    for y in 0..16 {
        for x in 0..32 {
            image.pixels[y][x] = gray(if x % 2 == 1 { (x + y) as u8 + 1 } else { 0 });
        }
    }
    let before = image.pixels.clone();
    font.make_all_bold(&mut image);
    for y in 0..16 {
        for x in 0..32 {
            assert_eq!(image.pixels[y][x], before[y][x | 1]);
        }
    }
    assert_eq!(NUM_CHARS, 256);
}

#[test]
fn change_cell_anywhere() {
    let mut image = numbered(5, 4);
    let before = numbered(5, 4);
    image.change_cell(rect(1, 1, 3, 2), CellOp::FlipHorizontal);
    assert_eq!(image.pixels[0], before.pixels[0]);
    assert_eq!(image.pixels[3], before.pixels[3]);
    for y in 1..3 {
        assert_eq!(image.pixels[y][0], before.pixels[y][0]);
        assert_eq!(image.pixels[y][1], before.pixels[y][3]);
        assert_eq!(image.pixels[y][2], before.pixels[y][2]);
        assert_eq!(image.pixels[y][3], before.pixels[y][1]);
        assert_eq!(image.pixels[y][4], before.pixels[y][4]);
    }
    let mut image = numbered(5, 4);
    image.change_cell(rect(0, 0, 0, 0), CellOp::FlipVertical);
    assert_eq!(image.pixels, before.pixels);
    image.change_cell(rect(0, 0, 5, 4), CellOp::FlipVertical);
    for y in 0..4 {
        assert_eq!(image.pixels[y], before.pixels[3 - y]);
    }
}

#[test]
fn shifts() {
    let font = Font::new("f", size(10, 16));
    // cell 17 starts at (10, 16)
    assert_eq!(
        font.shift_char(17, -1, 0),
        Shift { source: rect(11, 16, 9, 16), dest_x: 10, dest_y: 16 }
    );
    assert_eq!(
        font.shift_char(17, 1, 0),
        Shift { source: rect(9, 16, 9, 16), dest_x: 10, dest_y: 16 }
    );
    assert_eq!(
        font.shift_char(17, 0, -1),
        Shift { source: rect(10, 17, 10, 15), dest_x: 10, dest_y: 16 }
    );
    assert_eq!(
        font.shift_char(17, 0, 1),
        Shift { source: rect(10, 15, 10, 15), dest_x: 10, dest_y: 16 }
    );
    assert_eq!(
        font.shift_char(17, 0, 0),
        Shift { source: rect(10, 16, 10, 16), dest_x: 10, dest_y: 16 }
    );
    // in the first column a shift to the right starts at the edge
    assert_eq!(
        font.shift_char(16, 2, 0),
        Shift { source: rect(0, 16, 8, 16), dest_x: 2, dest_y: 16 }
    );
    assert_eq!(
        font.shift_char(0, 10, 16),
        Shift { source: rect(0, -16, 0, 0), dest_x: 10, dest_y: 0 }
    );
}
