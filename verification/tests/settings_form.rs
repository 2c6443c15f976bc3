use zter::binary64::Binary64;
use zter::config::DEFAULT_BACKGROUND_IMAGE_SETTING;
use zter::settings::TerminalPadding;
use zter::settings_form::{
    background_image_controls, background_image_mode_setting, custom_background_image_text,
    optional_text, selected_background_image, selected_background_image_mode, selected_opacity,
    SettingsFormValues, BACKGROUND_IMAGE_MODE_CUSTOM, BACKGROUND_IMAGE_MODE_DEFAULT, BACKGROUND_IMAGE_MODE_NONE,
    OPACITY_CONTROLS_ENABLED_BY_DEFAULT,
};

fn float(value: f64) -> Binary64 {
    Binary64::from_bits(value.to_bits())
}

#[test]
fn settings_background_image_mode_distinguishes_each_source() {
    assert_eq!(background_image_mode_setting(None), BACKGROUND_IMAGE_MODE_NONE);
    assert_eq!(
        background_image_mode_setting(Some(DEFAULT_BACKGROUND_IMAGE_SETTING)),
        BACKGROUND_IMAGE_MODE_DEFAULT
    );
    assert_eq!(
        background_image_mode_setting(Some("/tmp/custom.png")),
        BACKGROUND_IMAGE_MODE_CUSTOM
    );
    assert_eq!(custom_background_image_text(None), "");
    assert_eq!(
        custom_background_image_text(Some(DEFAULT_BACKGROUND_IMAGE_SETTING)),
        ""
    );
    assert_eq!(
        custom_background_image_text(Some("/tmp/custom.png")),
        "/tmp/custom.png"
    );
}

#[test]
fn opacity_checkbox_selects_between_default_and_input_value() {
    assert_eq!(selected_opacity(false, float(0.42), float(0.1)), float(0.1));
    assert_eq!(selected_opacity(true, float(0.42), float(0.1)), float(0.42));
}

#[test]
fn opacity_controls_start_enabled() {
    assert!(OPACITY_CONTROLS_ENABLED_BY_DEFAULT);
}

#[test]
fn selected_mode_picks_the_image_to_save() {
    assert_eq!(selected_background_image(BACKGROUND_IMAGE_MODE_DEFAULT, "/x.png"), Some("builtin".to_owned()));
    assert_eq!(selected_background_image(BACKGROUND_IMAGE_MODE_CUSTOM, "  /x.png "), Some("/x.png".to_owned()));
    assert_eq!(selected_background_image(BACKGROUND_IMAGE_MODE_CUSTOM, "  "), None);
    assert_eq!(selected_background_image(BACKGROUND_IMAGE_MODE_NONE, "/x.png"), None);
    assert_eq!(selected_background_image(7, "/x.png"), None);
    assert_eq!(selected_background_image_mode([false, true, true]), BACKGROUND_IMAGE_MODE_CUSTOM);
    assert_eq!(selected_background_image_mode([false, false, false]), BACKGROUND_IMAGE_MODE_NONE);
    let controls = background_image_controls(BACKGROUND_IMAGE_MODE_CUSTOM, false);
    assert!(controls.path && controls.opacity_checkbox && !controls.opacity);
    let none = background_image_controls(BACKGROUND_IMAGE_MODE_NONE, true);
    assert!(!none.path && !none.opacity_checkbox && !none.opacity);
}

#[test]
fn optional_fields_are_trimmed_and_blank_means_none() {
    assert_eq!(optional_text("  /bin/zsh\t"), Some("/bin/zsh".to_owned()));
    assert_eq!(optional_text(" \n "), None);
    assert_eq!(optional_text(""), None);
}

#[test]
fn form_values_become_the_settings_update() {
    let form = SettingsFormValues {
        shell: "   ".to_owned(),
        background_image_mode: BACKGROUND_IMAGE_MODE_CUSTOM,
        background_image_path: " /tmp/sea.png ".to_owned(),
        font_family: " Fira Code ".to_owned(),
        font_size: float(13.5),
        terminal_padding: TerminalPadding::new(1, 2, 3, 4),
        scrollback_lines: 5000,
        background_image_opacity_enabled: false,
        background_image_opacity: float(0.42),
        background_image_opacity_default: float(0.1),
        window_opacity_enabled: true,
        window_opacity: float(0.8),
        window_opacity_default: float(1.0),
    };
    let update = form.update();
    assert_eq!(update.shell, None);
    assert_eq!(update.background_image, Some("/tmp/sea.png".to_owned()));
    assert_eq!(update.font_family, " Fira Code ");
    assert_eq!(update.font_size, float(13.5));
    assert_eq!(update.terminal_padding, TerminalPadding::new(1, 2, 3, 4));
    assert_eq!(update.scrollback_lines, 5000);
    assert_eq!(update.background_image_opacity, float(0.1));
    assert_eq!(update.window_opacity, float(0.8));
}
