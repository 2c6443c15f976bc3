//! The One Half Dark color theme: the colors of the window and the sixteen
//! ANSI colors of the terminal.
use crate::settings::Theme;
use vstd::prelude::*;

verus! {

/// An opaque color by its red, green and blue channels.
#[derive(Clone, Copy, Debug, PartialEq, Eq, Structural)]
pub struct Rgb(pub u8, pub u8, pub u8);

/// The colors of the window.
#[derive(Clone, Copy, Debug, PartialEq, Eq, Structural)]
pub enum ThemeColor {
    Background,
    Foreground,
    HeaderBackground,
    TabHover,
    HeaderButtonHover,
    TabCloseHover,
    TabDropTarget,
    Cursor,
    Selection,
}

pub open spec fn color_spec(c: ThemeColor) -> Rgb {
    match c {
        ThemeColor::Background => Rgb(0x28, 0x2c, 0x34),
        ThemeColor::Foreground => Rgb(0xdc, 0xdf, 0xe4),
        ThemeColor::HeaderBackground => Rgb(0x30, 0x36, 0x43),
        ThemeColor::TabHover => Rgb(0x35, 0x3b, 0x48),
        ThemeColor::HeaderButtonHover => Rgb(0x44, 0x4a, 0x55),
        ThemeColor::TabCloseHover => Rgb(0x5c, 0x63, 0x70),
        ThemeColor::TabDropTarget => Rgb(0xff, 0xff, 0xff),
        ThemeColor::Cursor => Rgb(0x61, 0xaf, 0xef),
        ThemeColor::Selection => Rgb(0x3e, 0x44, 0x51),
    }
}

/// The value of a window color.
pub fn color(c: ThemeColor) -> (rgb: Rgb)
    ensures
        rgb == color_spec(c),
{
    match c {
        ThemeColor::Background => Rgb(0x28, 0x2c, 0x34),
        ThemeColor::Foreground => Rgb(0xdc, 0xdf, 0xe4),
        ThemeColor::HeaderBackground => Rgb(0x30, 0x36, 0x43),
        ThemeColor::TabHover => Rgb(0x35, 0x3b, 0x48),
        ThemeColor::HeaderButtonHover => Rgb(0x44, 0x4a, 0x55),
        ThemeColor::TabCloseHover => Rgb(0x5c, 0x63, 0x70),
        ThemeColor::TabDropTarget => Rgb(0xff, 0xff, 0xff),
        ThemeColor::Cursor => Rgb(0x61, 0xaf, 0xef),
        ThemeColor::Selection => Rgb(0x3e, 0x44, 0x51),
    }
}

/// The style class that makes the terminal draw no background of its own.
pub const TRANSPARENT_BACKGROUND_CLASS: &'static str = "zter-transparent-background";

/// The sixteen ANSI colors: black, red, green, yellow, blue, magenta, cyan,
/// white, then their bright forms. Red is kept for errors only.
pub open spec fn ansi_palette_spec() -> Seq<Rgb> {
    seq![
        Rgb(0x28, 0x2c, 0x34),
        Rgb(0xe0, 0x6c, 0x75),
        Rgb(0x98, 0xc3, 0x79),
        Rgb(0xe5, 0xc0, 0x7b),
        Rgb(0x61, 0xaf, 0xef),
        Rgb(0xc6, 0x78, 0xdd),
        Rgb(0x56, 0xb6, 0xc2),
        Rgb(0xdc, 0xdf, 0xe4),
        Rgb(0x5c, 0x63, 0x70),
        Rgb(0xe0, 0x6c, 0x75),
        Rgb(0x98, 0xc3, 0x79),
        Rgb(0xe5, 0xc0, 0x7b),
        Rgb(0x61, 0xaf, 0xef),
        Rgb(0xc6, 0x78, 0xdd),
        Rgb(0x56, 0xb6, 0xc2),
        Rgb(0xff, 0xff, 0xff),
    ]
}

/// The terminal's ANSI palette.
pub fn ansi_palette() -> (palette: Vec<Rgb>)
    ensures
        palette@ == ansi_palette_spec(),
{
    let palette = vec![
        Rgb(0x28, 0x2c, 0x34),
        Rgb(0xe0, 0x6c, 0x75),
        Rgb(0x98, 0xc3, 0x79),
        Rgb(0xe5, 0xc0, 0x7b),
        Rgb(0x61, 0xaf, 0xef),
        Rgb(0xc6, 0x78, 0xdd),
        Rgb(0x56, 0xb6, 0xc2),
        Rgb(0xdc, 0xdf, 0xe4),
        Rgb(0x5c, 0x63, 0x70),
        Rgb(0xe0, 0x6c, 0x75),
        Rgb(0x98, 0xc3, 0x79),
        Rgb(0xe5, 0xc0, 0x7b),
        Rgb(0x61, 0xaf, 0xef),
        Rgb(0xc6, 0x78, 0xdd),
        Rgb(0x56, 0xb6, 0xc2),
        Rgb(0xff, 0xff, 0xff),
    ];
    proof {
        assert(palette@ =~= ansi_palette_spec());
    }
    palette
}

/// Red appears in the palette only as normal and bright red.
pub proof fn law_red_is_only_ansi_red()
    ensures
        forall|i: int|
            0 <= i < 16 && #[trigger] ansi_palette_spec()[i] == Rgb(0xe0, 0x6c, 0x75) ==> i == 1
                || i == 9,
        ansi_palette_spec().len() == 16,
{
}

/// The ANSI colors come in the standard order, each with the hue of its
/// name: black is darker than white; red has the strongest red channel,
/// green the strongest green, blue the strongest blue; yellow has red and
/// green above blue, red at least as strong as green; magenta has red and
/// blue above green; cyan has green and blue above red. Green is One Half
/// Dark's `#98C379` and yellow its `#E5C07B`. Each bright color from red to
/// cyan is its normal color, and bright black and bright white lie between
/// black and white.
pub proof fn law_ansi_colors_have_their_hues()
    ensures
        ({
            let p = ansi_palette_spec();
            let brightness = |c: Rgb| c.0 as int + c.1 as int + c.2 as int;
            &&& p.len() == 16
            &&& brightness(p[0]) < brightness(p[8]) < brightness(p[7]) < brightness(p[15])
            &&& p[1].0 > p[1].1 && p[1].0 > p[1].2
            &&& p[2].1 > p[2].0 && p[2].1 > p[2].2
            &&& p[3].0 > p[3].2 && p[3].1 > p[3].2 && p[3].0 >= p[3].1
            &&& p[4].2 > p[4].0 && p[4].2 > p[4].1
            &&& p[5].0 > p[5].1 && p[5].2 > p[5].1
            &&& p[6].1 > p[6].0 && p[6].2 > p[6].0
            &&& p[2] == Rgb(0x98, 0xc3, 0x79)
            &&& p[3] == Rgb(0xe5, 0xc0, 0x7b)
            &&& forall|i: int| 1 <= i <= 6 ==> #[trigger] p[i + 8] == p[i]
        }),
{
}

/// The color that the terminal's background takes for `theme`.
pub fn background_color(theme: Theme) -> (background: Rgb)
    ensures
        background == color_spec(ThemeColor::Background),
{
    match theme {
        Theme::OneHalfDark => color(ThemeColor::Background),
    }
}

/// The upper-case hexadecimal digit of `n`.
pub open spec fn hex_digit(n: int) -> char {
    if n < 10 {
        (('0' as int) + n) as char
    } else {
        (('A' as int) + n - 10) as char
    }
}

/// The CSS notation `#RRGGBB` of a color.
pub open spec fn css_spec(color: Rgb) -> Seq<char> {
    seq![
        '#',
        hex_digit((color.0 / 16) as int),
        hex_digit((color.0 % 16) as int),
        hex_digit((color.1 / 16) as int),
        hex_digit((color.1 % 16) as int),
        hex_digit((color.2 / 16) as int),
        hex_digit((color.2 % 16) as int),
    ]
}

fn hex(n: u8) -> (c: char)
    requires
        n < 16,
    ensures
        c == hex_digit(n as int),
{
    if n < 10 {
        ((0x30u8 + n) as char)
    } else {
        ((0x41u8 + n - 10) as char)
    }
}

impl Rgb {
    /// The CSS notation `#RRGGBB`, with upper-case digits.
    pub fn css(self) -> (text: String)
        ensures
            text@ == css_spec(self),
    {
        let mut text = String::new();
        crate::text::push_char(&mut text, '#');
        crate::text::push_char(&mut text, hex(self.0 / 16));
        crate::text::push_char(&mut text, hex(self.0 % 16));
        crate::text::push_char(&mut text, hex(self.1 / 16));
        crate::text::push_char(&mut text, hex(self.1 % 16));
        crate::text::push_char(&mut text, hex(self.2 / 16));
        crate::text::push_char(&mut text, hex(self.2 % 16));
        proof {
            assert(text@ =~= css_spec(self));
        }
        text
    }
}


/// The decimal notation of `n`.
pub open spec fn decimal_spec(n: nat) -> Seq<char>
    decreases n,
{
    if n < 10 {
        seq![hex_digit(n as int)]
    } else {
        decimal_spec(n / 10) + seq![hex_digit((n % 10) as int)]
    }
}

/// The decimal notation of `n`.
pub fn decimal(n: u32) -> (text: String)
    ensures
        text@ == decimal_spec(n as nat),
    decreases n,
{
    if n < 10 {
        let mut text = String::new();
        crate::text::push_char(&mut text, hex(n as u8));
        proof {
            assert(text@ =~= decimal_spec(n as nat));
        }
        text
    } else {
        let mut text = decimal(n / 10);
        crate::text::push_char(&mut text, hex((n % 10) as u8));
        text
    }
}

} // verus!
