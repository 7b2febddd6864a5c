//! Numeric ANSI colour codes and the RGB values they stand for.

use vstd::prelude::*;
use vstd::string::StringExecFns;
use crate::chars::{decimal, from_chars, lemma_decimal_digits, push_decimal, to_chars};
use crate::params::{
    is_param_char, lemma_params_after_decimal, lemma_params_after_separator,
    lemma_params_end_at, lemma_params_end_bounds, params_end, params_of, scan_params,
};

verus! {

/// A colour as three 8-bit channels.
#[derive(Clone, Copy, Debug, PartialEq, Eq, Structural)]
pub struct Rgb {
    pub r: u8,
    pub g: u8,
    pub b: u8,
}

/// One style or colour operation, as selected by one SGR parameter run.
#[derive(Clone, Copy, Debug, PartialEq, Eq, Structural)]
pub enum ColorType {
    Regular(usize),
    Background(usize),
    HighIntensity(usize),
    BackgroundHighIntensity(usize),
    TrueColorFg(u8, u8, u8),
    TrueColorBg(u8, u8, u8),
    ResetFg,
    ResetBg,
    Reset,
    Bold,
    Italic,
}

/// First code of the eight regular foreground colours.
pub const REGULAR_START: usize = 30;

/// First code of the eight regular background colours.
pub const BACKGROUND_START: usize = 40;

/// First code of the eight high-intensity foreground colours.
pub const HIGH_INTENSITY_START: usize = 90;

/// First code of the eight high-intensity background colours.
pub const BACKGROUND_HIGH_INTENSITY_START: usize = 100;

/// Number of colours in each of the two palettes.
pub const PALETTE_LEN: usize = 8;

/// The regular palette, by position 0 to 7.
pub open spec fn regular_rgb(i: int) -> Rgb {
    if i == 0 {
        Rgb { r: 0x00, g: 0x00, b: 0x00 }
    } else if i == 1 {
        Rgb { r: 0xB2, g: 0x22, b: 0x22 }
    } else if i == 2 {
        Rgb { r: 0x22, g: 0x8B, b: 0x22 }
    } else if i == 3 {
        Rgb { r: 0xF0, g: 0xC7, b: 0x00 }
    } else if i == 4 {
        Rgb { r: 0x00, g: 0x00, b: 0xCD }
    } else if i == 5 {
        Rgb { r: 0x80, g: 0x00, b: 0x80 }
    } else if i == 6 {
        Rgb { r: 0x00, g: 0xFF, b: 0xFF }
    } else {
        Rgb { r: 0xFF, g: 0xFF, b: 0xFF }
    }
}

/// The high-intensity palette, by position 0 to 7.
pub open spec fn high_intensity_rgb(i: int) -> Rgb {
    if i == 0 {
        Rgb { r: 0x69, g: 0x69, b: 0x69 }
    } else if i == 1 {
        Rgb { r: 0xFF, g: 0x45, b: 0x00 }
    } else if i == 2 {
        Rgb { r: 0x32, g: 0xCD, b: 0x32 }
    } else if i == 3 {
        Rgb { r: 0xFF, g: 0xFF, b: 0x00 }
    } else if i == 4 {
        Rgb { r: 0x1E, g: 0x90, b: 0xFF }
    } else if i == 5 {
        Rgb { r: 0x99, g: 0x32, b: 0xCC }
    } else if i == 6 {
        Rgb { r: 0x00, g: 0xCE, b: 0xD1 }
    } else {
        Rgb { r: 0xF8, g: 0xF8, b: 0xFF }
    }
}

/// The colour of an ANSI code: the regular palette for 30 to 37 and 40 to 47,
/// the high-intensity palette for 90 to 97 and 100 to 107, nothing for any
/// other code.
pub open spec fn resolve_code(code: int) -> Option<Rgb> {
    if 30 <= code <= 37 {
        Some(regular_rgb(code - 30))
    } else if 40 <= code <= 47 {
        Some(regular_rgb(code - 40))
    } else if 90 <= code <= 97 {
        Some(high_intensity_rgb(code - 90))
    } else if 100 <= code <= 107 {
        Some(high_intensity_rgb(code - 100))
    } else {
        None
    }
}

/// One channel of the 6x6x6 colour cube: level 0 to 5 spread evenly over 0 to 255.
pub open spec fn cube_channel(level: int) -> int {
    level * 51
}

/// The colour of a code of the 256-colour palette: the two 8-colour palettes,
/// then the 6x6x6 cube, then a ramp of 24 greys.
pub open spec fn resolve_256_code(code: int) -> Rgb
    recommends
        0 <= code <= 255,
{
    if code <= 7 {
        regular_rgb(code)
    } else if code <= 15 {
        high_intensity_rgb(code - 8)
    } else if code <= 231 {
        Rgb {
            r: cube_channel(((code - 16) / 36) % 6) as u8,
            g: cube_channel(((code - 16) / 6) % 6) as u8,
            b: cube_channel((code - 16) % 6) as u8,
        }
    } else {
        Rgb {
            r: ((code - 232) * 10 + (code - 232)) as u8,
            g: ((code - 232) * 10 + (code - 232)) as u8,
            b: ((code - 232) * 10 + (code - 232)) as u8,
        }
    }
}

/// The name of a colour of the regular palette, by position 0 to 7.
pub open spec fn regular_name(i: int) -> Seq<char> {
    if i == 0 {
        "Black"@
    } else if i == 1 {
        "Red"@
    } else if i == 2 {
        "Green"@
    } else if i == 3 {
        "Yellow"@
    } else if i == 4 {
        "Blue"@
    } else if i == 5 {
        "Purple"@
    } else if i == 6 {
        "Cyan"@
    } else {
        "White"@
    }
}

/// The name of a colour of the high-intensity palette: that of the regular
/// colour at the same position, after `Light `.
pub open spec fn high_intensity_name(i: int) -> Seq<char> {
    "Light "@ + regular_name(i)
}

/// The first position below `limit` whose regular name is `name`.
pub open spec fn regular_position(name: Seq<char>, limit: int) -> Option<int>
    decreases limit,
{
    if limit <= 0 {
        None
    } else {
        match regular_position(name, limit - 1) {
            Some(i) => Some(i),
            None => if regular_name(limit - 1) == name {
                Some(limit - 1)
            } else {
                None
            },
        }
    }
}

/// The first position below `limit` whose high-intensity name is `name`.
pub open spec fn high_intensity_position(name: Seq<char>, limit: int) -> Option<int>
    decreases limit,
{
    if limit <= 0 {
        None
    } else {
        match high_intensity_position(name, limit - 1) {
            Some(i) => Some(i),
            None => if high_intensity_name(limit - 1) == name {
                Some(limit - 1)
            } else {
                None
            },
        }
    }
}

/// The foreground code of a colour name: 30 and up for the regular names, 90
/// and up for the high-intensity names, nothing for any other text.
pub open spec fn name_code(name: Seq<char>) -> Option<usize> {
    match regular_position(name, 8) {
        Some(i) => Some((30 + i) as usize),
        None => match high_intensity_position(name, 8) {
            Some(i) => Some((90 + i) as usize),
            None => None,
        },
    }
}

/// The background code of a colour name: its foreground code plus 10.
pub open spec fn name_background_code(name: Seq<char>) -> Option<usize> {
    match name_code(name) {
        Some(code) => Some((code + 10) as usize),
        None => None,
    }
}

/// The three channels, where each is at most 255.
pub open spec fn resolve_truecolor_code(r: int, g: int, b: int) -> Option<Rgb> {
    if 0 <= r <= 255 && 0 <= g <= 255 && 0 <= b <= 255 {
        Some(Rgb { r: r as u8, g: g as u8, b: b as u8 })
    } else {
        None
    }
}

/// The escape marker that starts every control sequence.
pub const ESC: char = '\x1b';

/// The sequence that selects a numeric SGR code: the marker, `[`, the code
/// in decimal and `m`.
pub open spec fn code_escape(code: nat) -> Seq<char> {
    seq!['\x1b', '['] + decimal(code) + seq!['m']
}

/// The sequence that selects a 24-bit colour: the marker, `[`, the selector
/// (38 for foreground, 48 for background), `;2;`, and the three channels in
/// decimal, divided by `;` and closed by `m`.
pub open spec fn truecolor_escape(selector: nat, r: u8, g: u8, b: u8) -> Seq<char> {
    seq!['\x1b', '['] + decimal(selector) + seq![';', '2', ';'] + decimal(r as nat) + seq![';']
        + decimal(g as nat) + seq![';'] + decimal(b as nat) + seq!['m']
}

/// The sequence that selects the named colour as foreground: that of its
/// code, or of code 0 where the name is unknown.
pub open spec fn fg_escape(name: Seq<char>) -> Seq<char> {
    code_escape(
        match name_code(name) {
            Some(code) => code as nat,
            None => 0,
        },
    )
}

/// The sequence that selects the named colour as background: that of its
/// background code, or of code 0 where the name is unknown.
pub open spec fn bg_escape(name: Seq<char>) -> Seq<char> {
    code_escape(
        match name_background_code(name) {
            Some(code) => code as nat,
            None => 0,
        },
    )
}

/// The canonical escape sequence of a colour or style operation.
pub open spec fn token_escape(token: ColorType) -> Seq<char> {
    match token {
        ColorType::Regular(code) => code_escape(code as nat),
        ColorType::Background(code) => code_escape(code as nat),
        ColorType::HighIntensity(code) => code_escape(code as nat),
        ColorType::BackgroundHighIntensity(code) => code_escape(code as nat),
        ColorType::TrueColorFg(r, g, b) => truecolor_escape(38, r, g, b),
        ColorType::TrueColorBg(r, g, b) => truecolor_escape(48, r, g, b),
        ColorType::ResetFg => code_escape(39),
        ColorType::ResetBg => code_escape(49),
        ColorType::Reset => code_escape(0),
        ColorType::Bold => code_escape(1),
        ColorType::Italic => code_escape(3),
    }
}

/// The 24-bit colour operation for the selector: foreground for 38,
/// background otherwise.
pub open spec fn truecolor_token(selector: usize, color: Rgb) -> ColorType {
    if selector == 38 {
        ColorType::TrueColorFg(color.r, color.g, color.b)
    } else {
        ColorType::TrueColorBg(color.r, color.g, color.b)
    }
}

/// The operation that the parameter at position `i` selects, with the number
/// of parameters that it takes up: one for a plain code, three for
/// `38;5;n` and `48;5;n`, five for `38;2;r;g;b` and `48;2;r;g;b`. `None`
/// where the parameter selects no colour, bold, italic or reset.
pub open spec fn sgr_select(p: Seq<usize>, i: int) -> Option<(ColorType, int)>
    recommends
        0 <= i < p.len(),
{
    let code = p[i];
    if code == 0 {
        Some((ColorType::Reset, 1))
    } else if code == 1 {
        Some((ColorType::Bold, 1))
    } else if code == 3 {
        Some((ColorType::Italic, 1))
    } else if 30 <= code <= 37 {
        Some((ColorType::Regular(code), 1))
    } else if 40 <= code <= 47 {
        Some((ColorType::Background(code), 1))
    } else if 90 <= code <= 97 {
        Some((ColorType::HighIntensity(code), 1))
    } else if 100 <= code <= 107 {
        Some((ColorType::BackgroundHighIntensity(code), 1))
    } else if code == 39 {
        Some((ColorType::ResetFg, 1))
    } else if code == 49 {
        Some((ColorType::ResetBg, 1))
    } else if code == 38 || code == 48 {
        if i + 2 < p.len() && p[i + 1] == 5 && p[i + 2] <= 255 {
            Some((truecolor_token(code, resolve_256_code(p[i + 2] as int)), 3))
        } else if i + 4 < p.len() && p[i + 1] == 2 && p[i + 2] <= 255 && p[i + 3] <= 255 && p[i
            + 4] <= 255 {
            Some(
                (
                    truecolor_token(
                        code,
                        Rgb { r: p[i + 2] as u8, g: p[i + 3] as u8, b: p[i + 4] as u8 },
                    ),
                    5,
                ),
            )
        } else {
            None
        }
    } else {
        None
    }
}

/// The number of parameters that the operation at position `i` takes up; one
/// where there is none.
pub open spec fn sgr_width(p: Seq<usize>, i: int) -> int {
    match sgr_select(p, i) {
        Some((_, n)) => n,
        None => 1,
    }
}

/// The codes that switch one style off; each resets every attribute.
pub open spec fn is_style_off(code: usize) -> bool {
    code == 22 || code == 23 || code == 24 || code == 27
}

/// The operations of a parameter list from position `i` on, read from left to
/// right. A style-off code gives a reset; any other parameter that selects
/// nothing is passed over.
pub open spec fn sgr_tokens(p: Seq<usize>, i: int) -> Seq<ColorType>
    decreases p.len() - i,
{
    if i < 0 || i >= p.len() {
        Seq::empty()
    } else {
        let rest = sgr_tokens(p, i + sgr_width(p, i));
        match sgr_select(p, i) {
            Some((token, _)) => seq![token] + rest,
            None => if is_style_off(p[i]) {
                seq![ColorType::Reset] + rest
            } else {
                rest
            },
        }
    }
}

/// The codes of styles that are known but have no effect here: faint,
/// underline, strikethrough, and the codes 21 to 25 that switch styles off.
pub open spec fn is_inert_style(code: usize) -> bool {
    code == 2 || code == 4 || code == 9 || 21 <= code <= 25
}

/// The operations of a parameter list from position `i` on, where every
/// parameter must be known: `None` as soon as one selects nothing and is no
/// inert style either.
pub open spec fn sgr_tokens_strict(p: Seq<usize>, i: int) -> Option<Seq<ColorType>>
    decreases p.len() - i,
{
    if i < 0 || i >= p.len() {
        Some(Seq::empty())
    } else {
        match sgr_tokens_strict(p, i + sgr_width(p, i)) {
            None => None,
            Some(rest) => match sgr_select(p, i) {
                Some((token, _)) => Some(seq![token] + rest),
                None => if is_inert_style(p[i]) {
                    Some(rest)
                } else {
                    None
                },
            },
        }
    }
}

/// The parameter list of an SGR sequence as the strict reading takes it: a
/// sequence without parameters stands for the single parameter 0.
pub open spec fn strict_params(run: Seq<usize>) -> Seq<usize> {
    if run.len() == 0 {
        seq![0usize]
    } else {
        run
    }
}

/// What a strict reading of the SGR sequence at position `from` of `s`
/// gives: the number of characters of the sequence and its operations. The
/// sequence is the marker, `[`, decimal parameters divided by `;`, and `m`.
/// Where `s` holds no such sequence there, or one with an unknown parameter,
/// the result is zero and no operation.
pub open spec fn color_code_at(s: Seq<char>, from: int) -> (int, Seq<ColorType>) {
    let end = params_end(s, from + 2, false);
    if 0 <= from && from + 2 <= s.len() && s[from] == '\x1b' && s[from + 1] == '[' && end < s.len()
        && s[end] == 'm' {
        match sgr_tokens_strict(strict_params(params_of(s.subrange(from + 2, end))), 0) {
            Some(tokens) => (end + 1 - from, tokens),
            None => (0int, Seq::empty()),
        }
    } else {
        (0int, Seq::empty())
    }
}

/// The table of ANSI colours: two palettes of eight colours with their names,
/// and the colour of every code below 108.
pub struct AnsiColor {
    regular_colors: Vec<Rgb>,
    high_intensity_colors: Vec<Rgb>,
    regular_color_names: Vec<String>,
    high_intensity_color_names: Vec<String>,
    all_colors: Vec<Option<Rgb>>,
}

impl AnsiColor {
    #[verifier::type_invariant]
    pub closed spec fn wf(&self) -> bool {
        &&& self.regular_colors@.len() == 8
        &&& self.high_intensity_colors@.len() == 8
        &&& self.regular_color_names@.len() == 8
        &&& self.high_intensity_color_names@.len() == 8
        &&& self.all_colors@.len() == 108
        &&& forall|i: int| 0 <= i < 8 ==> self.regular_colors@[i] == regular_rgb(i)
        &&& forall|i: int| 0 <= i < 8 ==> self.high_intensity_colors@[i] == high_intensity_rgb(i)
        &&& forall|i: int| 0 <= i < 8 ==> (#[trigger] self.regular_color_names@[i])@ == regular_name(i)
        &&& forall|i: int|
            0 <= i < 8 ==> (#[trigger] self.high_intensity_color_names@[i])@ == high_intensity_name(i)
        &&& forall|c: int| 0 <= c < 108 ==> self.all_colors@[c] == resolve_code(c)
    }

    /// The table with the fixed palettes.
    pub fn new() -> (table: AnsiColor)
        ensures
            table.wf(),
    {
        let mut regular_colors: Vec<Rgb> = Vec::new();
        regular_colors.push(Rgb { r: 0x00, g: 0x00, b: 0x00 });
        regular_colors.push(Rgb { r: 0xB2, g: 0x22, b: 0x22 });
        regular_colors.push(Rgb { r: 0x22, g: 0x8B, b: 0x22 });
        regular_colors.push(Rgb { r: 0xF0, g: 0xC7, b: 0x00 });
        regular_colors.push(Rgb { r: 0x00, g: 0x00, b: 0xCD });
        regular_colors.push(Rgb { r: 0x80, g: 0x00, b: 0x80 });
        regular_colors.push(Rgb { r: 0x00, g: 0xFF, b: 0xFF });
        regular_colors.push(Rgb { r: 0xFF, g: 0xFF, b: 0xFF });

        let mut high_intensity_colors: Vec<Rgb> = Vec::new();
        high_intensity_colors.push(Rgb { r: 0x69, g: 0x69, b: 0x69 });
        high_intensity_colors.push(Rgb { r: 0xFF, g: 0x45, b: 0x00 });
        high_intensity_colors.push(Rgb { r: 0x32, g: 0xCD, b: 0x32 });
        high_intensity_colors.push(Rgb { r: 0xFF, g: 0xFF, b: 0x00 });
        high_intensity_colors.push(Rgb { r: 0x1E, g: 0x90, b: 0xFF });
        high_intensity_colors.push(Rgb { r: 0x99, g: 0x32, b: 0xCC });
        high_intensity_colors.push(Rgb { r: 0x00, g: 0xCE, b: 0xD1 });
        high_intensity_colors.push(Rgb { r: 0xF8, g: 0xF8, b: 0xFF });

        let mut all_colors: Vec<Option<Rgb>> = Vec::new();
        let mut code: usize = 0;
        while code < BACKGROUND_HIGH_INTENSITY_START + PALETTE_LEN
            invariant
                code <= 108,
                all_colors@.len() == code,
                regular_colors@.len() == 8,
                high_intensity_colors@.len() == 8,
                forall|i: int| 0 <= i < 8 ==> regular_colors@[i] == regular_rgb(i),
                forall|i: int| 0 <= i < 8 ==> high_intensity_colors@[i] == high_intensity_rgb(i),
                forall|c: int| 0 <= c < code ==> all_colors@[c] == resolve_code(c),
            decreases 108 - code,
        {
            let entry = if REGULAR_START <= code && code < REGULAR_START + PALETTE_LEN {
                Some(regular_colors[code - REGULAR_START])
            } else if BACKGROUND_START <= code && code < BACKGROUND_START + PALETTE_LEN {
                Some(regular_colors[code - BACKGROUND_START])
            } else if HIGH_INTENSITY_START <= code && code < HIGH_INTENSITY_START + PALETTE_LEN {
                Some(high_intensity_colors[code - HIGH_INTENSITY_START])
            } else if BACKGROUND_HIGH_INTENSITY_START <= code {
                Some(high_intensity_colors[code - BACKGROUND_HIGH_INTENSITY_START])
            } else {
                None
            };
            all_colors.push(entry);
            code += 1;
        }

        let mut regular_color_names: Vec<String> = Vec::new();
        regular_color_names.push(String::from_str("Black"));
        regular_color_names.push(String::from_str("Red"));
        regular_color_names.push(String::from_str("Green"));
        regular_color_names.push(String::from_str("Yellow"));
        regular_color_names.push(String::from_str("Blue"));
        regular_color_names.push(String::from_str("Purple"));
        regular_color_names.push(String::from_str("Cyan"));
        regular_color_names.push(String::from_str("White"));

        let mut high_intensity_color_names: Vec<String> = Vec::new();
        let mut i: usize = 0;
        while i < PALETTE_LEN
            invariant
                i <= 8,
                regular_color_names@.len() == 8,
                high_intensity_color_names@.len() == i,
                forall|j: int| 0 <= j < 8 ==> (#[trigger] regular_color_names@[j])@ == regular_name(j),
                forall|j: int|
                    0 <= j < i ==> (#[trigger] high_intensity_color_names@[j])@
                        == high_intensity_name(j),
            decreases 8 - i,
        {
            let name = String::from_str("Light ").concat(regular_color_names[i].as_str());
            high_intensity_color_names.push(name);
            i += 1;
        }

        AnsiColor {
            regular_colors,
            high_intensity_colors,
            regular_color_names,
            high_intensity_color_names,
            all_colors,
        }
    }

    /// The colours of the regular palette.
    pub fn regular_colors(&self) -> (colors: &Vec<Rgb>)
        ensures
            colors@.len() == 8,
            forall|i: int| 0 <= i < 8 ==> colors@[i] == regular_rgb(i),
    {
        proof {
            use_type_invariant(self);
        }
        &self.regular_colors
    }

    /// The colours of the high-intensity palette.
    pub fn high_intensity_colors(&self) -> (colors: &Vec<Rgb>)
        ensures
            colors@.len() == 8,
            forall|i: int| 0 <= i < 8 ==> colors@[i] == high_intensity_rgb(i),
    {
        proof {
            use_type_invariant(self);
        }
        &self.high_intensity_colors
    }

    /// The names of the regular palette.
    pub fn regular_color_names(&self) -> (names: &Vec<String>)
        ensures
            names@.len() == 8,
            forall|i: int| 0 <= i < 8 ==> (#[trigger] names@[i])@ == regular_name(i),
    {
        proof {
            use_type_invariant(self);
        }
        &self.regular_color_names
    }

    /// The names of the high-intensity palette.
    pub fn high_intensity_color_names(&self) -> (names: &Vec<String>)
        ensures
            names@.len() == 8,
            forall|i: int| 0 <= i < 8 ==> (#[trigger] names@[i])@ == high_intensity_name(i),
    {
        proof {
            use_type_invariant(self);
        }
        &self.high_intensity_color_names
    }

    /// The colour of every code below 108, where it has one.
    pub fn all_colors(&self) -> (colors: &Vec<Option<Rgb>>)
        ensures
            colors@.len() == 108,
            forall|c: int| 0 <= c < 108 ==> colors@[c] == resolve_code(c),
    {
        proof {
            use_type_invariant(self);
        }
        &self.all_colors
    }

    /// The colour of an ANSI colour code, for the codes that have one.
    pub fn get_color_from_ansi(&self, code: usize) -> (color: Option<Rgb>)
        ensures
            color == resolve_code(code as int),
    {
        proof {
            use_type_invariant(self);
        }
        if code >= self.all_colors.len() {
            None
        } else {
            self.all_colors[code]
        }
    }
}

impl ColorType {
    /// The canonical escape sequence of this operation, as characters.
    pub fn escape(&self) -> (out: Vec<char>)
        ensures
            out@ == token_escape(*self),
    {
        let mut out: Vec<char> = Vec::new();
        out.push(ESC);
        out.push('[');
        match *self {
            ColorType::Regular(code) => push_decimal(&mut out, code as u64),
            ColorType::Background(code) => push_decimal(&mut out, code as u64),
            ColorType::HighIntensity(code) => push_decimal(&mut out, code as u64),
            ColorType::BackgroundHighIntensity(code) => push_decimal(&mut out, code as u64),
            ColorType::TrueColorFg(r, g, b) => push_truecolor(&mut out, 38, r, g, b),
            ColorType::TrueColorBg(r, g, b) => push_truecolor(&mut out, 48, r, g, b),
            ColorType::ResetFg => push_decimal(&mut out, 39),
            ColorType::ResetBg => push_decimal(&mut out, 49),
            ColorType::Reset => push_decimal(&mut out, 0),
            ColorType::Bold => push_decimal(&mut out, 1),
            ColorType::Italic => push_decimal(&mut out, 3),
        }
        out.push('m');
        proof {
            assert(out@ =~= token_escape(*self));
        }
        out
    }
}

/// Appends the parameters of a 24-bit colour: the selector, `;2;` and the
/// three channels divided by `;`.
fn push_truecolor(out: &mut Vec<char>, selector: u64, r: u8, g: u8, b: u8)
    ensures
        final(out)@ == old(out)@ + decimal(selector as nat) + seq![';', '2', ';'] + decimal(
            r as nat,
        ) + seq![';'] + decimal(g as nat) + seq![';'] + decimal(b as nat),
{
    push_decimal(out, selector);
    out.push(';');
    out.push('2');
    out.push(';');
    push_decimal(out, r as u64);
    out.push(';');
    push_decimal(out, g as u64);
    out.push(';');
    push_decimal(out, b as u64);
    proof {
        assert(out@ =~= old(out)@ + decimal(selector as nat) + seq![';', '2', ';'] + decimal(
            r as nat,
        ) + seq![';'] + decimal(g as nat) + seq![';'] + decimal(b as nat));
    }
}

/// The escape sequence that selects the numeric code, as a string.
fn code_escape_string(code: usize) -> (out: String)
    ensures
        out@ == code_escape(code as nat),
{
    let mut chars: Vec<char> = Vec::new();
    chars.push(ESC);
    chars.push('[');
    push_decimal(&mut chars, code as u64);
    chars.push('m');
    proof {
        assert(chars@ =~= code_escape(code as nat));
    }
    from_chars(&chars)
}

impl AnsiColor {
    /// The foreground code of a colour name.
    pub fn get_ansi(&self, name: &str) -> (code: Option<usize>)
        ensures
            code == name_code(name@),
    {
        proof {
            use_type_invariant(self);
        }
        let wanted = name.to_owned();
        let mut i: usize = 0;
        while i < PALETTE_LEN
            invariant
                i <= 8,
                self.wf(),
                wanted@ == name@,
                regular_position(name@, i as int) is None,
            decreases 8 - i,
        {
            if self.regular_color_names[i] == wanted {
                proof {
                    reveal_with_fuel(regular_position, 10);
                }
                return Some(i + REGULAR_START);
            }
            i += 1;
        }
        let mut j: usize = 0;
        while j < PALETTE_LEN
            invariant
                j <= 8,
                self.wf(),
                wanted@ == name@,
                regular_position(name@, 8) is None,
                high_intensity_position(name@, j as int) is None,
            decreases 8 - j,
        {
            if self.high_intensity_color_names[j] == wanted {
                proof {
                    reveal_with_fuel(high_intensity_position, 10);
                }
                return Some(j + HIGH_INTENSITY_START);
            }
            j += 1;
        }
        None
    }

    /// The background code of a colour name.
    pub fn get_ansi_background(&self, name: &str) -> (code: Option<usize>)
        ensures
            code == name_background_code(name@),
    {
        proof {
            lemma_name_code_range(name@);
        }
        match self.get_ansi(name) {
            Some(code) => Some(code - REGULAR_START + BACKGROUND_START),
            None => None,
        }
    }

    /// The colour of a colour name.
    pub fn get_color(&self, name: &str) -> (color: Option<Rgb>)
        ensures
            color == match name_code(name@) {
                Some(code) => resolve_code(code as int),
                None => None,
            },
    {
        match self.get_ansi(name) {
            Some(code) => self.get_color_from_ansi(code),
            None => None,
        }
    }

    /// The colour of a colour name, looked up by its background code.
    pub fn get_color_background(&self, name: &str) -> (color: Option<Rgb>)
        ensures
            color == match name_background_code(name@) {
                Some(code) => resolve_code(code as int),
                None => None,
            },
    {
        match self.get_ansi_background(name) {
            Some(code) => self.get_color_from_ansi(code),
            None => None,
        }
    }

    /// The escape sequence that selects the named colour as foreground; code
    /// 0 where the name is unknown.
    pub fn fg(&self, name: &str) -> (out: String)
        ensures
            out@ == fg_escape(name@),
    {
        let code = match self.get_ansi(name) {
            Some(code) => code,
            None => 0,
        };
        code_escape_string(code)
    }

    /// The escape sequence that selects the named colour as background; code
    /// 0 where the name is unknown.
    pub fn bg(&self, name: &str) -> (out: String)
        ensures
            out@ == bg_escape(name@),
    {
        let code = match self.get_ansi_background(name) {
            Some(code) => code,
            None => 0,
        };
        code_escape_string(code)
    }

    /// The escape sequence that resets every attribute.
    pub fn reset(&self) -> (out: String)
        ensures
            out@ == code_escape(0),
    {
        code_escape_string(0)
    }

    /// The colour of a code of the 256-colour palette; nothing above 255.
    pub fn decode_8_bit(&self, code: usize) -> (color: Option<Rgb>)
        ensures
            color == if code <= 255 {
                Some(resolve_256_code(code as int))
            } else {
                None
            },
    {
        proof {
            use_type_invariant(self);
        }
        if code > 255 {
            None
        } else if code <= 7 {
            Some(self.regular_colors[code])
        } else if code <= 15 {
            Some(self.high_intensity_colors[code - 8])
        } else if code < 232 {
            let cell = code - 16;
            let b = cell % 6;
            let g = (cell / 6) % 6;
            let r = (cell / 36) % 6;
            Some(Rgb { r: (r * 51) as u8, g: (g * 51) as u8, b: (b * 51) as u8 })
        } else {
            let level = code - 232;
            let gray = (level * 10 + level) as u8;
            Some(Rgb { r: gray, g: gray, b: gray })
        }
    }

    /// The colour with the three channels, where each is at most 255.
    pub fn decode_24_bit(&self, r: usize, g: usize, b: usize) -> (color: Option<Rgb>)
        ensures
            color == resolve_truecolor_code(r as int, g as int, b as int),
    {
        if r > 255 || g > 255 || b > 255 {
            None
        } else {
            Some(Rgb { r: r as u8, g: g as u8, b: b as u8 })
        }
    }
}

/// A foreground code of a name lies in 30 to 37 or in 90 to 97.
pub proof fn lemma_name_code_range(name: Seq<char>)
    ensures
        match name_code(name) {
            Some(code) => 30 <= code <= 37 || 90 <= code <= 97,
            None => true,
        },
{
    reveal_with_fuel(regular_position, 10);
    reveal_with_fuel(high_intensity_position, 10);
}

impl AnsiColor {
    /// The operation that the parameter at position `i` selects, with the
    /// number of parameters that it takes up.
    pub fn select(&self, params: &Vec<usize>, i: usize) -> (r: Option<(ColorType, usize)>)
        requires
            i < params.len(),
        ensures
            match r {
                Some((token, width)) => sgr_select(params@, i as int) == Some((token, width as int)),
                None => sgr_select(params@, i as int) is None,
            },
    {
        let code = params[i];
        let len = params.len();
        if code == 0 {
            Some((ColorType::Reset, 1))
        } else if code == 1 {
            Some((ColorType::Bold, 1))
        } else if code == 3 {
            Some((ColorType::Italic, 1))
        } else if 30 <= code && code <= 37 {
            Some((ColorType::Regular(code), 1))
        } else if 40 <= code && code <= 47 {
            Some((ColorType::Background(code), 1))
        } else if 90 <= code && code <= 97 {
            Some((ColorType::HighIntensity(code), 1))
        } else if 100 <= code && code <= 107 {
            Some((ColorType::BackgroundHighIntensity(code), 1))
        } else if code == 39 {
            Some((ColorType::ResetFg, 1))
        } else if code == 49 {
            Some((ColorType::ResetBg, 1))
        } else if code == 38 || code == 48 {
            if len - i > 2 && params[i + 1] == 5 {
                match self.decode_8_bit(params[i + 2]) {
                    Some(color) => Some((Self::truecolor(code, color), 3)),
                    None => None,
                }
            } else if len - i > 4 && params[i + 1] == 2 {
                match self.decode_24_bit(params[i + 2], params[i + 3], params[i + 4]) {
                    Some(color) => Some((Self::truecolor(code, color), 5)),
                    None => None,
                }
            } else {
                None
            }
        } else {
            None
        }
    }

    /// The 24-bit colour operation for the selector.
    fn truecolor(selector: usize, color: Rgb) -> (token: ColorType)
        ensures
            token == truecolor_token(selector, color),
    {
        if selector == 38 {
            ColorType::TrueColorFg(color.r, color.g, color.b)
        } else {
            ColorType::TrueColorBg(color.r, color.g, color.b)
        }
    }

    /// The operations of a parameter list, passing over what is unknown.
    pub fn tokens(&self, params: &Vec<usize>) -> (out: Vec<ColorType>)
        ensures
            out@ == sgr_tokens(params@, 0),
    {
        let mut out: Vec<ColorType> = Vec::new();
        let mut i: usize = 0;
        while i < params.len()
            invariant
                i <= params.len(),
                sgr_tokens(params@, 0) == out@ + sgr_tokens(params@, i as int),
            decreases params.len() - i,
        {
            let ghost before = out@;
            let code = params[i];
            match self.select(params, i) {
                Some((token, width)) => {
                    out.push(token);
                    proof {
                        assert(out@ + sgr_tokens(params@, i + width) =~= before + (seq![token]
                            + sgr_tokens(params@, i + width)));
                    }
                    i += width;
                },
                None => {
                    if code == 22 || code == 23 || code == 24 || code == 27 {
                        out.push(ColorType::Reset);
                        proof {
                            assert(out@ + sgr_tokens(params@, i + 1) =~= before + (
                            seq![ColorType::Reset] + sgr_tokens(params@, i + 1)));
                        }
                    }
                    i += 1;
                },
            }
        }
        proof {
            assert(out@ + Seq::<ColorType>::empty() =~= out@);
        }
        out
    }

    /// The operations of a parameter list in which every parameter is known.
    pub fn tokens_strict(&self, params: &Vec<usize>) -> (out: Option<Vec<ColorType>>)
        ensures
            match out {
                Some(tokens) => sgr_tokens_strict(params@, 0) == Some(tokens@),
                None => sgr_tokens_strict(params@, 0) is None,
            },
    {
        let mut out: Vec<ColorType> = Vec::new();
        let mut i: usize = 0;
        while i < params.len()
            invariant
                i <= params.len(),
                sgr_tokens_strict(params@, 0) == match sgr_tokens_strict(params@, i as int) {
                    Some(rest) => Some(out@ + rest),
                    None => None,
                },
            decreases params.len() - i,
        {
            let ghost before = out@;
            let code = params[i];
            match self.select(params, i) {
                Some((token, width)) => {
                    out.push(token);
                    proof {
                        if let Some(rest) = sgr_tokens_strict(params@, i + width) {
                            assert(out@ + rest =~= before + (seq![token] + rest));
                        }
                    }
                    i += width;
                },
                None => {
                    if code == 2 || code == 4 || code == 9 || (21 <= code && code <= 25) {
                        i += 1;
                    } else {
                        return None;
                    }
                },
            }
        }
        proof {
            assert(out@ + Seq::<ColorType>::empty() =~= out@);
        }
        Some(out)
    }

    /// Reads the SGR sequence at position `from` of `chars` strictly. Returns
    /// the number of characters of the sequence and its operations, or zero
    /// and none where there is no such sequence or a parameter is unknown.
    pub fn parse_color_code_at(&self, chars: &Vec<char>, from: usize) -> (r: (usize, Vec<ColorType>))
        requires
            from <= chars.len(),
        ensures
            r.0 == color_code_at(chars@, from as int).0,
            r.1@ == color_code_at(chars@, from as int).1,
            from + r.0 <= chars.len(),
    {
        if chars.len() - from < 2 || chars[from] != ESC || chars[from + 1] != '[' {
            return (0, Vec::new());
        }
        let (mut params, end) = scan_params(chars, from + 2, false);
        if end >= chars.len() || chars[end] != 'm' {
            return (0, Vec::new());
        }
        if params.len() == 0 {
            params.push(0);
        }
        proof {
            assert(params@ =~= strict_params(
                params_of(chars@.subrange(from as int + 2, end as int)),
            ));
        }
        match self.tokens_strict(&params) {
            Some(tokens) => (end + 1 - from, tokens),
            None => (0, Vec::new()),
        }
    }

    /// Reads the SGR sequence at the start of `text` strictly. Returns the
    /// number of characters of the sequence and its operations, or zero and
    /// none where `text` starts with no such sequence or a parameter is
    /// unknown.
    pub fn parse_ansi_color_code(&self, text: &str) -> (r: (usize, Vec<ColorType>))
        ensures
            r.0 == color_code_at(text@, 0).0,
            r.1@ == color_code_at(text@, 0).1,
            r.0 <= text@.len(),
    {
        let chars = to_chars(text);
        self.parse_color_code_at(&chars, 0)
    }
}

/// A background code, which is the foreground code plus 10, has the colour
/// of the foreground code.
pub proof fn lemma_background_resolves_like_foreground(code: int)
    requires
        30 <= code <= 37 || 90 <= code <= 97,
    ensures
        resolve_code(code) is Some,
        resolve_code(code + 10) == resolve_code(code),
{
}

/// The background code of a name has the colour of its foreground code.
pub proof fn lemma_name_background_color(name: Seq<char>)
    requires
        name_code(name) is Some,
    ensures
        name_background_code(name) is Some,
        resolve_code(name_background_code(name)->0 as int) == resolve_code(
            name_code(name)->0 as int,
        ),
        resolve_code(name_code(name)->0 as int) is Some,
{
    lemma_name_code_range(name);
}

/// The code of the 256-colour palette for the cell of the colour cube with
/// the levels `r`, `g` and `b` has each channel at 51 times its level.
pub proof fn lemma_cube_color(r: int, g: int, b: int)
    requires
        0 <= r < 6,
        0 <= g < 6,
        0 <= b < 6,
    ensures
        16 <= 16 + 36 * r + 6 * g + b <= 231,
        resolve_256_code(16 + 36 * r + 6 * g + b) == (Rgb {
            r: (51 * r) as u8,
            g: (51 * g) as u8,
            b: (51 * b) as u8,
        }),
{
    let cell = 36 * r + 6 * g + b;
    assert(cell / 36 == r && (cell / 6) % 6 == g && cell % 6 == b) by (nonlinear_arith)
        requires
            cell == 36 * r + 6 * g + b,
            0 <= r < 6,
            0 <= g < 6,
            0 <= b < 6,
    ;
}

/// The codes 232 to 255 are greys: the three channels are equal, at 11
/// times the step above 232.
pub proof fn lemma_gray_ramp(code: int)
    requires
        232 <= code <= 255,
    ensures
        resolve_256_code(code) == (Rgb {
            r: (11 * (code - 232)) as u8,
            g: (11 * (code - 232)) as u8,
            b: (11 * (code - 232)) as u8,
        }),
{
}

/// A strict reading takes no more characters than the text holds from the
/// position on.
pub proof fn lemma_color_code_bounds(s: Seq<char>, from: int)
    requires
        0 <= from <= s.len(),
    ensures
        from + color_code_at(s, from).0 <= s.len(),
        color_code_at(s, from).0 == 0 || color_code_at(s, from).0 >= 3,
{
    if from + 2 <= s.len() {
        lemma_params_end_bounds(s, from + 2, false);
    }
}

/// Whether the operation is one that a buffer keeps in its lines: a palette
/// colour of the kind that its code belongs to, a 24-bit colour, a reset,
/// bold or italic.
pub open spec fn is_kept(token: ColorType) -> bool {
    match token {
        ColorType::Regular(code) => 30 <= code <= 37,
        ColorType::Background(code) => 40 <= code <= 47,
        ColorType::HighIntensity(code) => 90 <= code <= 97,
        ColorType::BackgroundHighIntensity(code) => 100 <= code <= 107,
        _ => true,
    }
}

/// Whether the run holds digits and semicolons only.
pub open spec fn is_param_run(run: Seq<char>) -> bool {
    forall|i: int| 0 <= i < run.len() ==> is_param_char(#[trigger] run[i], false)
}

/// A strict reading of a sequence made of the marker, `[`, a run of
/// parameters and `m` takes the whole sequence and reads the parameters of
/// the run, whatever follows the sequence.
pub proof fn lemma_color_code_of_run(run: Seq<char>, rest: Seq<char>)
    requires
        is_param_run(run),
    ensures
        color_code_at(seq!['\x1b', '['] + run + seq!['m'] + rest, 0) == (match sgr_tokens_strict(
            strict_params(params_of(run)),
            0,
        ) {
            Some(tokens) => (run.len() as int + 3, tokens),
            None => (0int, Seq::<ColorType>::empty()),
        }),
{
    let s = seq!['\x1b', '['] + run + seq!['m'] + rest;
    let end = run.len() as int + 2;
    assert forall|i: int| 2 <= i < end implies is_param_char(#[trigger] s[i], false) by {
        assert(s[i] == run[i - 2]);
    }
    assert(s[end] == 'm');
    lemma_params_end_at(s, 2, end, false);
    assert(s.subrange(2, end) =~= run);
}

/// The escape sequence of an operation that a buffer keeps reads back as
/// that one operation, whatever follows it in the line.
pub proof fn lemma_escape_parses_back(token: ColorType, rest: Seq<char>)
    requires
        is_kept(token),
    ensures
        color_code_at(token_escape(token) + rest, 0) == (
            token_escape(token).len() as int,
            seq![token],
        ),
{
    let none = Seq::<char>::empty();
    assert(params_of(none).len() == 0);
    match token {
        ColorType::TrueColorFg(r, g, b) => {
            lemma_truecolor_parses_back(38, r, g, b, rest);
        },
        ColorType::TrueColorBg(r, g, b) => {
            lemma_truecolor_parses_back(48, r, g, b, rest);
        },
        _ => {
            let code: nat = match token {
                ColorType::Regular(code) => code as nat,
                ColorType::Background(code) => code as nat,
                ColorType::HighIntensity(code) => code as nat,
                ColorType::BackgroundHighIntensity(code) => code as nat,
                ColorType::ResetFg => 39,
                ColorType::ResetBg => 49,
                ColorType::Reset => 0,
                ColorType::Bold => 1,
                _ => 3,
            };
            let run = decimal(code);
            lemma_decimal_digits(code);
            lemma_params_after_decimal(none, code);
            assert(none + run =~= run);
            assert(is_param_run(run));
            lemma_color_code_of_run(run, rest);
            let p = seq![code as usize];
            assert(strict_params(params_of(run)) =~= p);
            assert(sgr_tokens_strict(p, 1) == Some(Seq::<ColorType>::empty()));
            assert(sgr_select(p, 0) == Some((token, 1int)));
            assert(seq![token] + Seq::<ColorType>::empty() =~= seq![token]);
            assert(token_escape(token) + rest =~= seq!['\x1b', '['] + run + seq!['m'] + rest);
            assert(token_escape(token).len() == run.len() + 3);
        },
    }
}

/// A run of parameters stays one, and gains the parameter `n`, where a
/// semicolon and the decimal numeral of `n` are added to it.
proof fn lemma_field_added(run: Seq<char>, n: nat)
    requires
        is_param_run(run),
        params_of(run).len() > 0,
        n <= usize::MAX,
    ensures
        is_param_run(run.push(';') + decimal(n)),
        params_of(run.push(';') + decimal(n)) == params_of(run).push(n as usize),
{
    let opened = run.push(';');
    lemma_params_after_separator(run, ';');
    lemma_params_after_decimal(opened, n);
    lemma_decimal_digits(n);
    assert(params_of(opened).drop_last() =~= params_of(run));
    assert forall|i: int| 0 <= i < (opened + decimal(n)).len() implies is_param_char(
        #[trigger] (opened + decimal(n))[i],
        false,
    ) by {
        if i < run.len() {
            assert((opened + decimal(n))[i] == run[i]);
        } else if i == run.len() {
            assert((opened + decimal(n))[i] == ';');
        } else {
            assert((opened + decimal(n))[i] == decimal(n)[i - opened.len()]);
        }
    }
}

/// The parameters of a 24-bit colour as a run: the selector, 2 and the
/// three channels, divided by semicolons.
pub open spec fn truecolor_run(selector: nat, r: u8, g: u8, b: u8) -> Seq<char> {
    (((decimal(selector).push(';') + decimal(2)).push(';') + decimal(r as nat)).push(';')
        + decimal(g as nat)).push(';') + decimal(b as nat)
}

/// The run of a 24-bit colour is a run of parameters, and spells the
/// selector, 2 and the three channels.
proof fn lemma_truecolor_run(selector: usize, r: u8, g: u8, b: u8)
    ensures
        is_param_run(truecolor_run(selector as nat, r, g, b)),
        params_of(truecolor_run(selector as nat, r, g, b)) == seq![
            selector,
            2usize,
            r as usize,
            g as usize,
            b as usize,
        ],
{
    let none = Seq::<char>::empty();
    let run1 = decimal(selector as nat);
    lemma_decimal_digits(selector as nat);
    assert(params_of(none).len() == 0);
    lemma_params_after_decimal(none, selector as nat);
    assert(none + run1 =~= run1);
    assert(is_param_run(run1));
    lemma_field_added(run1, 2);
    let run2 = run1.push(';') + decimal(2);
    lemma_field_added(run2, r as nat);
    let run3 = run2.push(';') + decimal(r as nat);
    lemma_field_added(run3, g as nat);
    let run4 = run3.push(';') + decimal(g as nat);
    lemma_field_added(run4, b as nat);
    assert(seq![selector].push(2usize).push(r as usize).push(g as usize).push(b as usize) =~= seq![
        selector,
        2usize,
        r as usize,
        g as usize,
        b as usize,
    ]);
}

/// The escape sequence of a 24-bit colour is its run between the marker
/// with `[` and `m`.
proof fn lemma_truecolor_escape_form(selector: nat, r: u8, g: u8, b: u8)
    ensures
        truecolor_escape(selector, r, g, b) == seq!['\x1b', '['] + truecolor_run(selector, r, g, b)
            + seq!['m'],
{
    assert(decimal(2) =~= seq!['2']);
    assert(truecolor_escape(selector, r, g, b) =~= seq!['\x1b', '['] + truecolor_run(
        selector,
        r,
        g,
        b,
    ) + seq!['m']);
}

/// The escape sequence of a 24-bit colour reads back as that colour.
proof fn lemma_truecolor_parses_back(selector: usize, r: u8, g: u8, b: u8, rest: Seq<char>)
    requires
        selector == 38 || selector == 48,
    ensures
        color_code_at(truecolor_escape(selector as nat, r, g, b) + rest, 0) == (
            truecolor_escape(selector as nat, r, g, b).len() as int,
            seq![truecolor_token(selector, Rgb { r, g, b })],
        ),
{
    let run = truecolor_run(selector as nat, r, g, b);
    lemma_truecolor_run(selector, r, g, b);
    lemma_truecolor_escape_form(selector as nat, r, g, b);
    lemma_color_code_of_run(run, rest);
    let p = seq![selector, 2usize, r as usize, g as usize, b as usize];
    let token = truecolor_token(selector, Rgb { r, g, b });
    assert(strict_params(p) == p);
    assert(sgr_select(p, 0) == Some((token, 5int)));
    assert(sgr_tokens_strict(p, 5) == Some(Seq::<ColorType>::empty()));
    assert(seq![token] + Seq::<ColorType>::empty() =~= seq![token]);
}

} // verus!
