//! Bitmap fonts: the table from characters to the cells of a glyph atlas,
//! and the changes that a font editor makes to the pixels of a cell.

use vstd::prelude::*;
use vstd::string::StringExecFns;
use crate::chars::{decimal, from_chars, push_decimal, to_chars};
use crate::color::Rgb;
use crate::text::Vector2i;

verus! {

/// The number of cells of a glyph atlas.
pub const NUM_CHARS: i32 = 256;

/// The number of cells in a row of the atlas.
pub const NUM_COLS: i32 = 16;

/// The number of rows of the atlas.
pub const NUM_ROWS: i32 = 16;

/// The number of cells at the start of the atlas that hold no glyph: the
/// control characters.
pub const NUM_CHARS_IGNORED: i32 = 32;

/// The number of rows of the atlas that hold no glyph.
pub const NUM_ROWS_IGNORED: i32 = 2;

/// The code of the last character that has a cell.
pub const MAX_CHAR: i32 = 0x3009;

/// The cell of the question mark, which stands for every character without
/// a cell.
pub const FALLBACK_CELL: i32 = 63;

/// A rectangle of pixels.
#[derive(Clone, Copy, Debug, PartialEq, Eq, Structural)]
pub struct IntRect {
    pub left: i32,
    pub top: i32,
    pub width: i32,
    pub height: i32,
}

/// The characters beyond ASCII that have a cell, in the order of their
/// cells from 128 on.
pub open spec fn extended() -> Seq<char> {
    seq![
        '\u{e4}',
        '\u{f6}',
        '\u{fc}',
        '\u{c4}',
        '\u{d6}',
        '\u{dc}',
        '\u{df}',
        '\u{2018}',
        '\u{2022}',
        '\u{3008}',
        '\u{3009}',
        '\u{27e8}',
        '\u{27e9}',
    ]
}

/// The last position below `n` at which the character with the code stands
/// among the extended characters.
pub open spec fn extended_position(code: int, n: int) -> Option<int>
    decreases n,
{
    if n <= 0 {
        None
    } else if extended()[n - 1] as int == code {
        Some(n - 1)
    } else {
        extended_position(code, n - 1)
    }
}

/// The cell of the character with the code: its code for ASCII, a cell from
/// 128 on for an extended character, and 0 for a character without a cell.
pub open spec fn cell_of(code: int) -> int {
    if 0 <= code < 128 {
        code
    } else {
        match extended_position(code, 13) {
            Some(i) => 128 + i,
            None => 0,
        }
    }
}

/// The cell that is drawn for the character with the code: its own, or that
/// of the question mark where it has none.
pub open spec fn drawn_cell(code: int) -> int {
    if 0 <= code <= MAX_CHAR && cell_of(code) != 0 {
        cell_of(code)
    } else {
        FALLBACK_CELL as int
    }
}

/// The name of the file of a font: its name, `_`, the width and the height
/// of its glyphs with `x` between them, and `.png`.
pub open spec fn file_name(name: Seq<char>, width: nat, height: nat) -> Seq<char> {
    name + seq!['_'] + decimal(width) + seq!['x'] + decimal(height) + ".png"@
}

/// A font: its name, the size of its glyphs, and the tables between
/// characters and cells.
pub struct Font {
    pub name: String,
    pub char_size: Vector2i,
    pub char2idx: Vec<i32>,
    pub idx2char: Vec<i32>,
    pub max_char: i32,
}

impl Font {
    /// The tables are whole: each character leads to its cell, and each
    /// cell back to its character. The atlas of the glyphs fits the range
    /// of pixel coordinates.
    pub open spec fn wf(&self) -> bool {
        &&& self.max_char == MAX_CHAR
        &&& self.char2idx@.len() == MAX_CHAR + 1
        &&& forall|code: int| 0 <= code <= MAX_CHAR ==> self.char2idx@[code] == cell_of(code)
        &&& self.idx2char@.len() == 141
        &&& forall|i: int| 0 <= i < 128 ==> self.idx2char@[i] == i
        &&& forall|i: int| 0 <= i < 13 ==> self.idx2char@[128 + i] == extended()[i] as i32
        &&& 0 <= self.char_size.x
        &&& 0 <= self.char_size.y
        &&& self.char_size.x * NUM_COLS <= i32::MAX
        &&& self.char_size.y * NUM_ROWS <= i32::MAX
    }

    /// The size of the atlas in pixels.
    pub open spec fn atlas_size(&self) -> (int, int) {
        (self.char_size.x * NUM_COLS, self.char_size.y * NUM_ROWS)
    }

    /// The rectangle of a cell in the atlas.
    pub open spec fn cell_rect(&self, cell: int) -> IntRect {
        IntRect {
            left: ((cell % 16) * self.char_size.x) as i32,
            top: ((cell / 16) * self.char_size.y) as i32,
            width: self.char_size.x,
            height: self.char_size.y,
        }
    }

    /// A font with the name and the glyph size given.
    pub fn new(name: &str, char_size: Vector2i) -> (font: Font)
        requires
            0 <= char_size.x,
            0 <= char_size.y,
            char_size.x * NUM_COLS <= i32::MAX,
            char_size.y * NUM_ROWS <= i32::MAX,
        ensures
            font.wf(),
            font.name@ == name@,
            font.char_size == char_size,
    {
        let mut extended_chars: Vec<char> = Vec::new();
        extended_chars.push('\u{e4}');
        extended_chars.push('\u{f6}');
        extended_chars.push('\u{fc}');
        extended_chars.push('\u{c4}');
        extended_chars.push('\u{d6}');
        extended_chars.push('\u{dc}');
        extended_chars.push('\u{df}');
        extended_chars.push('\u{2018}');
        extended_chars.push('\u{2022}');
        extended_chars.push('\u{3008}');
        extended_chars.push('\u{3009}');
        extended_chars.push('\u{27e8}');
        extended_chars.push('\u{27e9}');
        proof {
            assert(extended_chars@ =~= extended());
        }
        let mut char2idx: Vec<i32> = Vec::new();
        let mut idx2char: Vec<i32> = Vec::new();
        let mut code: i32 = 0;
        while code <= MAX_CHAR
            invariant
                0 <= code <= MAX_CHAR + 1,
                char2idx@.len() == code,
                idx2char@.len() == (if code < 128 { code as int } else { 128 }),
                forall|c: int| 0 <= c < code ==> char2idx@[c] == (if c < 128 { c } else { 0 }),
                forall|i: int| 0 <= i < idx2char@.len() ==> idx2char@[i] == i,
            decreases MAX_CHAR + 1 - code,
        {
            if code < 128 {
                char2idx.push(code);
                idx2char.push(code);
            } else {
                char2idx.push(0);
            }
            code += 1;
        }
        let mut i: usize = 0;
        while i < extended_chars.len()
            invariant
                i <= 13,
                extended_chars@ == extended(),
                char2idx@.len() == MAX_CHAR + 1,
                idx2char@.len() == 128 + i,
                forall|c: int|
                    0 <= c <= MAX_CHAR ==> char2idx@[c] == (if c < 128 {
                        c
                    } else {
                        match extended_position(c, i as int) {
                            Some(k) => 128 + k,
                            None => 0,
                        }
                    }),
                forall|k: int| 0 <= k < 128 ==> idx2char@[k] == k,
                forall|k: int| 0 <= k < i ==> idx2char@[128 + k] == extended()[k] as i32,
            decreases 13 - i,
        {
            let ch = extended_chars[i];
            let cell = i as i32 + 128;
            char2idx.set(ch as usize, cell);
            idx2char.push(ch as i32);
            i += 1;
        }
        Font { name: String::from_str(name), char_size, char2idx, idx2char, max_char: MAX_CHAR }
    }

    /// The name of the file that holds the glyphs of a font.
    pub fn filename(name: &str, char_size: Vector2i) -> (file: String)
        requires
            0 <= char_size.x,
            0 <= char_size.y,
        ensures
            file@ == file_name(name@, char_size.x as nat, char_size.y as nat),
    {
        let mut out = to_chars(name);
        out.push('_');
        push_decimal(&mut out, char_size.x as u64);
        out.push('x');
        push_decimal(&mut out, char_size.y as u64);
        let mut ending = to_chars(".png");
        out.append(&mut ending);
        proof {
            assert(out@ =~= file_name(name@, char_size.x as nat, char_size.y as nat));
        }
        from_chars(&out)
    }

    /// The cell that is drawn for the character with the code `ch`.
    pub fn glyph(&self, ch: i32) -> (cell: i32)
        requires
            self.wf(),
        ensures
            cell == drawn_cell(ch as int),
            0 <= cell < 141,
    {
        proof {
            lemma_extended_position(ch as int, 13);
            if 0 <= ch <= MAX_CHAR {
                assert(self.char2idx@[ch as int] == cell_of(ch as int));
            }
        }
        if ch < 0 || ch > self.max_char || self.char2idx[ch as usize] == 0 {
            FALLBACK_CELL
        } else {
            self.char2idx[ch as usize]
        }
    }

    /// The rectangle in the atlas of the cell given.
    pub fn rect_of_cell(&self, cell: i32) -> (rect: IntRect)
        requires
            self.wf(),
            0 <= cell < NUM_CHARS,
        ensures
            rect == self.cell_rect(cell as int),
            rect.left == (cell % 16) * self.char_size.x,
            rect.top == (cell / 16) * self.char_size.y,
            0 <= rect.left,
            0 <= rect.top,
            rect.left + rect.width <= self.atlas_size().0,
            rect.top + rect.height <= self.atlas_size().1,
    {
        let column = cell % NUM_COLS;
        let row = cell / NUM_COLS;
        proof {
            let w = self.char_size.x as int;
            let h = self.char_size.y as int;
            assert(0 <= column * w && column * w + w <= 16 * w) by (nonlinear_arith)
                requires
                    0 <= column < 16,
                    0 <= w,
            ;
            assert(0 <= row * h && row * h + h <= 16 * h) by (nonlinear_arith)
                requires
                    0 <= row < 16,
                    0 <= h,
            ;
        }
        IntRect {
            left: column * self.char_size.x,
            top: row * self.char_size.y,
            width: self.char_size.x,
            height: self.char_size.y,
        }
    }

    /// The rectangle in the atlas of the glyph that is drawn for the
    /// character with the code `ch`.
    pub fn get_sprite(&self, ch: i32) -> (rect: IntRect)
        requires
            self.wf(),
        ensures
            rect == self.cell_rect(drawn_cell(ch as int)),
    {
        let cell = self.glyph(ch);
        self.rect_of_cell(cell)
    }

    /// The rectangle in an atlas of the size given of the glyphs that are
    /// shown as the whole font: the atlas from the first row with glyphs on.
    pub fn get_sprite_full(&self, image_size: Vector2i) -> (rect: IntRect)
        requires
            self.wf(),
        ensures
            rect == (IntRect {
                left: 0,
                top: (NUM_ROWS_IGNORED * self.char_size.y) as i32,
                width: image_size.x,
                height: image_size.y,
            }),
    {
        proof {
            let h = self.char_size.y as int;
            assert(0 <= 2 * h <= 16 * h) by (nonlinear_arith)
                requires
                    0 <= h,
            ;
        }
        IntRect {
            left: 0,
            top: NUM_ROWS_IGNORED * self.char_size.y,
            width: image_size.x,
            height: image_size.y,
        }
    }
}

/// A position among the extended characters lies below the bound that it
/// was looked for under, and the character with the code stands there.
pub proof fn lemma_extended_position(code: int, n: int)
    requires
        0 <= n <= 13,
    ensures
        match extended_position(code, n) {
            Some(i) => 0 <= i < n && extended()[i] as int == code,
            None => true,
        },
    decreases n,
{
    if n > 0 && extended()[n - 1] as int != code {
        lemma_extended_position(code, n - 1);
    }
}

/// The pixels of an image, row by row.
pub struct Bitmap {
    pub pixels: Vec<Vec<Rgb>>,
}

/// A change to the pixels of a cell.
#[derive(Clone, Copy, Debug, PartialEq, Eq, Structural)]
pub enum CellOp {
    /// Each pixel that is lit to the right of a pixel is copied onto it.
    Bold,
    /// The columns are reversed.
    FlipHorizontal,
    /// The rows are reversed.
    FlipVertical,
}

/// Whether the pixel at column `x` of row `y` lies in the rectangle.
pub open spec fn in_rect(rect: IntRect, x: int, y: int) -> bool {
    rect.left <= x < rect.left + rect.width && rect.top <= y < rect.top + rect.height
}

/// The pixel at column `x` of row `y` after the change to the cell `rect`.
/// Outside the cell nothing changes.
pub open spec fn changed_pixel(old: Seq<Seq<Rgb>>, rect: IntRect, op: CellOp, x: int, y: int) -> Rgb
    recommends
        0 <= y < old.len(),
        0 <= x < old[y].len(),
{
    if !in_rect(rect, x, y) {
        old[y][x]
    } else {
        match op {
            CellOp::Bold => if x + 1 < rect.left + rect.width && old[y][x + 1].r > 0 {
                old[y][x + 1]
            } else {
                old[y][x]
            },
            CellOp::FlipHorizontal => old[y][rect.left + rect.width - 1 - (x - rect.left)],
            CellOp::FlipVertical => old[rect.top + rect.height - 1 - (y - rect.top)][x],
        }
    }
}

/// The shade of grey with the value given.
pub open spec fn gray(value: u8) -> Rgb {
    Rgb { r: value, g: value, b: value }
}

impl Bitmap {
    /// The rows of pixels.
    pub open spec fn rows(&self) -> Seq<Seq<Rgb>> {
        Seq::new(self.pixels@.len(), |i: int| self.pixels@[i]@)
    }

    /// Whether the image has the width and the height given: `height` rows
    /// of `width` pixels.
    pub open spec fn has_size(&self, width: int, height: int) -> bool {
        &&& self.pixels@.len() == height
        &&& forall|y: int| 0 <= y < height ==> (#[trigger] self.pixels@[y])@.len() == width
    }

    /// Whether this image is `old` after the change to the cell `rect`.
    pub open spec fn is_changed(&self, old: Bitmap, rect: IntRect, op: CellOp) -> bool {
        &&& self.pixels@.len() == old.pixels@.len()
        &&& forall|y: int|
            0 <= y < old.pixels@.len() ==> (#[trigger] self.pixels@[y])@.len()
                == old.pixels@[y]@.len()
        &&& forall|x: int, y: int|
            0 <= y < old.pixels@.len() && 0 <= x < old.pixels@[y]@.len() ==> (
            #[trigger] self.pixels@[y]@[x]) == changed_pixel(old.rows(), rect, op, x, y)
    }

    /// A black image of the size given.
    pub fn new(width: usize, height: usize) -> (image: Bitmap)
        ensures
            image.has_size(width as int, height as int),
            forall|x: int, y: int|
                0 <= y < height && 0 <= x < width ==> (#[trigger] image.pixels@[y]@[x]) == gray(0),
    {
        let mut pixels: Vec<Vec<Rgb>> = Vec::new();
        let mut y: usize = 0;
        while y < height
            invariant
                y <= height,
                pixels@.len() == y,
                forall|j: int| 0 <= j < y ==> (#[trigger] pixels@[j])@.len() == width,
                forall|i: int, j: int|
                    0 <= j < y && 0 <= i < width ==> (#[trigger] pixels@[j]@[i]) == gray(0),
            decreases height - y,
        {
            let mut row: Vec<Rgb> = Vec::new();
            let mut x: usize = 0;
            while x < width
                invariant
                    x <= width,
                    row@.len() == x,
                    forall|i: int| 0 <= i < x ==> row@[i] == gray(0),
                decreases width - x,
            {
                row.push(Rgb { r: 0, g: 0, b: 0 });
                x += 1;
            }
            pixels.push(row);
            y += 1;
        }
        Bitmap { pixels }
    }

    /// The pixel at column `x` of row `y` after the change to the cell.
    fn pixel_after(&self, rect: IntRect, op: CellOp, x: usize, y: usize) -> (pixel: Rgb)
        requires
            y < self.pixels@.len(),
            x < self.pixels@[y as int]@.len(),
            0 <= rect.left,
            0 <= rect.top,
            0 <= rect.width,
            0 <= rect.height,
            rect.top + rect.height <= self.pixels@.len(),
            forall|j: int|
                rect.top <= j < rect.top + rect.height ==> rect.left + rect.width <= (
                #[trigger] self.pixels@[j])@.len(),
        ensures
            pixel == changed_pixel(self.rows(), rect, op, x as int, y as int),
    {
        let left = rect.left as usize;
        let top = rect.top as usize;
        let width = rect.width as usize;
        let height = rect.height as usize;
        if x < left || x - left >= width || y < top || y - top >= height {
            self.pixels[y][x]
        } else {
            match op {
                CellOp::Bold => {
                    if x - left + 1 < width && self.pixels[y][x + 1].r > 0 {
                        self.pixels[y][x + 1]
                    } else {
                        self.pixels[y][x]
                    }
                },
                CellOp::FlipHorizontal => self.pixels[y][left + (width - 1 - (x - left))],
                CellOp::FlipVertical => {
                    proof {
                        assert(self.pixels@[top + (height - 1 - (y - top))]@.len() >= rect.left
                            + rect.width);
                    }
                    self.pixels[top + (height - 1 - (y - top))][x]
                },
            }
        }
    }

    /// Changes the pixels of the cell `rect`, which lies in the image.
    pub fn change_cell(&mut self, rect: IntRect, op: CellOp)
        requires
            0 <= rect.left,
            0 <= rect.top,
            0 <= rect.width,
            0 <= rect.height,
            rect.top + rect.height <= old(self).pixels@.len(),
            forall|j: int|
                rect.top <= j < rect.top + rect.height ==> rect.left + rect.width <= (
                #[trigger] old(self).pixels@[j])@.len(),
        ensures
            final(self).is_changed(*old(self), rect, op),
    {
        let mut pixels: Vec<Vec<Rgb>> = Vec::new();
        let mut y: usize = 0;
        while y < self.pixels.len()
            invariant
                *self == *old(self),
                y <= self.pixels@.len(),
                pixels@.len() == y,
                0 <= rect.left,
                0 <= rect.top,
                0 <= rect.width,
                0 <= rect.height,
                rect.top + rect.height <= self.pixels@.len(),
                forall|j: int|
                    rect.top <= j < rect.top + rect.height ==> rect.left + rect.width <= (
                    #[trigger] self.pixels@[j])@.len(),
                forall|j: int|
                    0 <= j < y ==> (#[trigger] pixels@[j])@.len() == self.pixels@[j]@.len(),
                forall|i: int, j: int|
                    0 <= j < y && 0 <= i < self.pixels@[j]@.len() ==> (#[trigger] pixels@[j]@[i])
                        == changed_pixel(self.rows(), rect, op, i, j),
            decreases self.pixels@.len() - y,
        {
            let mut row: Vec<Rgb> = Vec::new();
            let mut x: usize = 0;
            while x < self.pixels[y].len()
                invariant
                    *self == *old(self),
                    y < self.pixels@.len(),
                    x <= self.pixels@[y as int]@.len(),
                    row@.len() == x,
                    0 <= rect.left,
                    0 <= rect.top,
                    0 <= rect.width,
                    0 <= rect.height,
                    rect.top + rect.height <= self.pixels@.len(),
                    forall|j: int|
                        rect.top <= j < rect.top + rect.height ==> rect.left + rect.width <= (
                        #[trigger] self.pixels@[j])@.len(),
                    forall|i: int|
                        0 <= i < x ==> row@[i] == changed_pixel(self.rows(), rect, op, i, y as int),
                decreases self.pixels@[y as int]@.len() - x,
            {
                row.push(self.pixel_after(rect, op, x, y));
                x += 1;
            }
            pixels.push(row);
            y += 1;
        }
        self.pixels = pixels;
    }

    /// Sets the pixel at column `x` of row `y`, which lies in the image, to
    /// the shade of grey given.
    pub fn set_gray(&mut self, x: usize, y: usize, value: u8)
        requires
            y < old(self).pixels@.len(),
            x < old(self).pixels@[y as int]@.len(),
        ensures
            final(self).rows() == old(self).rows().update(
                y as int,
                old(self).rows()[y as int].update(x as int, gray(value)),
            ),
    {
        self.pixels[y][x] = Rgb { r: value, g: value, b: value };
        proof {
            assert(self.rows() =~= old(self).rows().update(
                y as int,
                old(self).rows()[y as int].update(x as int, gray(value)),
            ));
        }
    }
}

/// The part of the atlas that moves when a cell is shifted, and where it
/// lands.
#[derive(Clone, Copy, Debug, PartialEq, Eq, Structural)]
pub struct Shift {
    pub source: IntRect,
    pub dest_x: i32,
    pub dest_y: i32,
}

/// The distance of `d` from zero.
pub open spec fn magnitude(d: int) -> int {
    if d < 0 {
        -d
    } else {
        d
    }
}

/// The move that shifts the glyph in the cell `rect` by `dx` columns and
/// `dy` rows: the source is the cell moved against the shift and made
/// smaller by it, and it lands at the corner of the cell. A source that
/// would start left of the atlas starts at its edge, and lands further
/// right by what was cut.
pub open spec fn shift_of(rect: IntRect, dx: int, dy: int) -> Shift {
    let left = rect.left - dx;
    Shift {
        source: IntRect {
            left: (if left < 0 { 0 } else { left }) as i32,
            top: (rect.top - dy) as i32,
            width: (rect.width - magnitude(dx)) as i32,
            height: (rect.height - magnitude(dy)) as i32,
        },
        dest_x: (if left < 0 { rect.left - left } else { rect.left as int }) as i32,
        dest_y: rect.top,
    }
}

impl Font {
    /// Whether the image is an atlas of this font.
    pub open spec fn fits(&self, image: Bitmap) -> bool {
        image.has_size(self.atlas_size().0, self.atlas_size().1)
    }

    /// Sets a pixel of the cell to a shade of grey. The pixel is given by
    /// its column and row in the cell.
    pub fn set_pixel(&self, image: &mut Bitmap, cell: i32, x: i32, y: i32, color: u8)
        requires
            self.wf(),
            self.fits(*old(image)),
            0 <= cell < NUM_CHARS,
            0 <= x < self.char_size.x,
            0 <= y < self.char_size.y,
        ensures
            final(image).rows() == old(image).rows().update(
                self.cell_rect(cell as int).top + y,
                old(image).rows()[self.cell_rect(cell as int).top + y].update(
                    self.cell_rect(cell as int).left + x,
                    gray(color),
                ),
            ),
    {
        let rect = self.rect_of_cell(cell);
        image.set_gray((rect.left + x) as usize, (rect.top + y) as usize, color);
    }

    /// Makes the glyph in the cell bold.
    pub fn make_bold(&self, image: &mut Bitmap, cell: i32)
        requires
            self.wf(),
            self.fits(*old(image)),
            0 <= cell < NUM_CHARS,
        ensures
            final(image).is_changed(*old(image), self.cell_rect(cell as int), CellOp::Bold),
            self.fits(*final(image)),
    {
        let rect = self.rect_of_cell(cell);
        image.change_cell(rect, CellOp::Bold);
    }

    /// Makes the glyphs in all cells bold.
    pub fn make_all_bold(&self, image: &mut Bitmap)
        requires
            self.wf(),
            self.fits(*old(image)),
        ensures
            self.fits(*final(image)),
            forall|x: int, y: int|
                0 <= y < self.atlas_size().1 && 0 <= x < self.atlas_size().0 ==> (
                #[trigger] final(image).pixels@[y]@[x]) == bold_pixel(
                    old(image).rows(),
                    self.char_size.x as int,
                    x,
                    y,
                ),
    {
        let mut cell: i32 = 0;
        while cell < NUM_CHARS
            invariant
                0 <= cell <= NUM_CHARS,
                self.wf(),
                self.fits(*image),
                self.fits(*old(image)),
                forall|x: int, y: int|
                    0 <= y < self.atlas_size().1 && 0 <= x < self.atlas_size().0 ==> (
                    #[trigger] image.pixels@[y]@[x]) == (if cell_index(
                        self.char_size.x as int,
                        self.char_size.y as int,
                        x,
                        y,
                    ) < cell {
                        bold_pixel(old(image).rows(), self.char_size.x as int, x, y)
                    } else {
                        old(image).pixels@[y]@[x]
                    }),
            decreases NUM_CHARS - cell,
        {
            let ghost before = *image;
            let rect = self.rect_of_cell(cell);
            self.make_bold(image, cell);
            proof {
                let w = self.char_size.x as int;
                let h = self.char_size.y as int;
                assert forall|x: int, y: int|
                    0 <= y < self.atlas_size().1 && 0 <= x < self.atlas_size().0 implies (
                #[trigger] image.pixels@[y]@[x]) == (if cell_index(w, h, x, y) < cell + 1 {
                    bold_pixel(old(image).rows(), w, x, y)
                } else {
                    old(image).pixels@[y]@[x]
                }) by {
                    lemma_cell_index(w, h, x, y, cell as int);
                    assert(image.pixels@[y]@[x] == changed_pixel(
                        before.rows(),
                        rect,
                        CellOp::Bold,
                        x,
                        y,
                    ));
                    assert(before.rows()[y] == before.pixels@[y]@);
                    assert(old(image).rows()[y] == old(image).pixels@[y]@);
                    assert(before.pixels@[y]@[x] == (if cell_index(w, h, x, y) < cell {
                        bold_pixel(old(image).rows(), w, x, y)
                    } else {
                        old(image).pixels@[y]@[x]
                    }));
                    if in_rect(rect, x, y) && x + 1 < rect.left + rect.width {
                        lemma_cell_index(w, h, x + 1, y, cell as int);
                        assert(before.pixels@[y]@[x + 1] == old(image).pixels@[y]@[x + 1]);
                    }
                }
            }
            cell += 1;
        }
        proof {
            assert forall|x: int, y: int|
                0 <= y < self.atlas_size().1 && 0 <= x < self.atlas_size().0 implies cell_index(
                self.char_size.x as int,
                self.char_size.y as int,
                x,
                y,
            ) < 256 by {
                lemma_cell_index(self.char_size.x as int, self.char_size.y as int, x, y, 0);
            }
        }
    }

    /// Mirrors the glyph in the cell from left to right.
    pub fn flip_char_horizontal(&self, image: &mut Bitmap, cell: i32)
        requires
            self.wf(),
            self.fits(*old(image)),
            0 <= cell < NUM_CHARS,
        ensures
            final(image).is_changed(
                *old(image),
                self.cell_rect(cell as int),
                CellOp::FlipHorizontal,
            ),
            self.fits(*final(image)),
    {
        let rect = self.rect_of_cell(cell);
        image.change_cell(rect, CellOp::FlipHorizontal);
    }

    /// Mirrors the glyph in the cell from top to bottom.
    pub fn flip_char_vertical(&self, image: &mut Bitmap, cell: i32)
        requires
            self.wf(),
            self.fits(*old(image)),
            0 <= cell < NUM_CHARS,
        ensures
            final(image).is_changed(*old(image), self.cell_rect(cell as int), CellOp::FlipVertical),
            self.fits(*final(image)),
    {
        let rect = self.rect_of_cell(cell);
        image.change_cell(rect, CellOp::FlipVertical);
    }

    /// The move that shifts the glyph in the cell by `dx` columns and `dy`
    /// rows.
    pub fn shift_char(&self, cell: i32, dx: i32, dy: i32) -> (shift: Shift)
        requires
            self.wf(),
            0 <= cell < NUM_CHARS,
            -self.char_size.x <= dx <= self.char_size.x,
            -self.char_size.y <= dy <= self.char_size.y,
        ensures
            shift == shift_of(self.cell_rect(cell as int), dx as int, dy as int),
    {
        let rect = self.rect_of_cell(cell);
        let left = rect.left - dx;
        let width = rect.width - (if dx < 0 {
            -dx
        } else {
            dx
        });
        let height = rect.height - (if dy < 0 {
            -dy
        } else {
            dy
        });
        if left < 0 {
            Shift {
                source: IntRect { left: 0, top: rect.top - dy, width, height },
                dest_x: rect.left - left,
                dest_y: rect.top,
            }
        } else {
            Shift {
                source: IntRect { left, top: rect.top - dy, width, height },
                dest_x: rect.left,
                dest_y: rect.top,
            }
        }
    }
}

/// The cell of an atlas with glyphs of the size given that the pixel at
/// column `x` of row `y` lies in.
pub open spec fn cell_index(width: int, height: int, x: int, y: int) -> int
    recommends
        width > 0,
        height > 0,
{
    (y / height) * 16 + x / width
}

/// The pixel at column `x` of row `y` after the glyphs in all cells are
/// made bold: the pixel to its right where that one is lit and lies in the
/// same cell.
pub open spec fn bold_pixel(old: Seq<Seq<Rgb>>, width: int, x: int, y: int) -> Rgb
    recommends
        width > 0,
{
    if x % width + 1 < width && old[y][x + 1].r > 0 {
        old[y][x + 1]
    } else {
        old[y][x]
    }
}

/// A pixel of the atlas lies in the rectangle of a cell where that cell is
/// its own, and its place in the cell is the remainder of its column.
pub proof fn lemma_cell_index(width: int, height: int, x: int, y: int, cell: int)
    requires
        0 <= x < width * 16,
        0 <= y < height * 16,
        0 <= cell < 256,
    ensures
        0 <= cell_index(width, height, x, y) < 256,
        ((cell % 16) * width <= x < (cell % 16) * width + width && (cell / 16) * height <= y < (
        cell / 16) * height + height) <==> cell_index(width, height, x, y) == cell,
        cell_index(width, height, x, y) == cell ==> x % width == x - (cell % 16) * width,
{
    let column = x / width;
    let row = y / height;
    assert(width > 0 && height > 0) by (nonlinear_arith)
        requires
            0 <= x < width * 16,
            0 <= y < height * 16,
    ;
    assert(x == column * width + x % width && 0 <= x % width < width && 0 <= column < 16)
        by (nonlinear_arith)
        requires
            width > 0,
            0 <= x < width * 16,
            column == x / width,
    ;
    assert(y == row * height + y % height && 0 <= y % height < height && 0 <= row < 16)
        by (nonlinear_arith)
        requires
            height > 0,
            0 <= y < height * 16,
            row == y / height,
    ;
    let k = cell % 16;
    let j = cell / 16;
    assert((k * width <= x < k * width + width) <==> column == k) by (nonlinear_arith)
        requires
            width > 0,
            x == column * width + x % width,
            0 <= x % width < width,
            0 <= k,
            0 <= column,
    ;
    assert((j * height <= y < j * height + height) <==> row == j) by (nonlinear_arith)
        requires
            height > 0,
            y == row * height + y % height,
            0 <= y % height < height,
            0 <= j,
            0 <= row,
    ;
    if column == k {
        assert(x % width == x - k * width) by (nonlinear_arith)
            requires
                x == column * width + x % width,
                column == k,
        ;
    }
}

} // verus!
