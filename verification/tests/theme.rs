use zter::settings::Theme;
use zter::theme::{ansi_palette, background_color, color, Rgb, ThemeColor};

#[test]
fn one_half_dark_palette_has_sixteen_ansi_colors() {
    assert_eq!(ansi_palette().len(), 16);
}

#[test]
fn red_is_limited_to_normal_and_bright_ansi_red() {
    let red = Rgb(0xe0, 0x6c, 0x75);
    let red_indexes: Vec<usize> = ansi_palette()
        .iter()
        .enumerate()
        .filter_map(|(index, color)| (*color == red).then_some(index))
        .collect();

    assert_eq!(red_indexes, [1, 9]);
}

#[test]
fn colors_use_upper_case_css_notation() {
    assert_eq!(color(ThemeColor::Selection).css(), "#3E4451");
    assert_eq!(color(ThemeColor::TabDropTarget).css(), "#FFFFFF");
    assert_eq!(Rgb(0x0a, 0x00, 0xf1).css(), "#0A00F1");
    assert_eq!(background_color(Theme::OneHalfDark), Rgb(0x28, 0x2c, 0x34));
}
