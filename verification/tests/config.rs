use zter::settings::HeaderMode;
use zter::binary64::Binary64;
use zter::config::{
    background_image_candidate, background_image_needs_file, parse_background_image, parse_shell,
    path_to_string, AppConfig, BackgroundImageSource, ConfigError, OsText,
    DEFAULT_BACKGROUND_IMAGE_SETTING,
};
use zter::json::{JsonNumber, JsonObject, JsonValue};
use zter::settings::{settings_from_object, Settings, TerminalPadding, Theme};

fn float(value: f64) -> Binary64 {
    Binary64::from_bits(value.to_bits())
}

fn text(s: &str) -> OsText {
    OsText::Unicode(s.to_owned())
}

/// The configuration from the default settings; the background image path
/// that applies, when one must be checked, names no file.
fn config(
    environment_shell: Option<OsText>,
    background_image_override: Option<OsText>,
) -> Result<AppConfig, ConfigError> {
    AppConfig::from_values(
        &Settings::defaults(),
        environment_shell,
        text("/tmp"),
        background_image_override,
        false,
    )
}

fn customized_settings(shell: JsonValue, background_image: JsonValue) -> Settings {
    let mut object = JsonObject::new();
    let entries = [
        ("schema_version", JsonValue::Number(JsonNumber::Unsigned(3))),
        ("shell", shell),
        ("background_image", background_image),
        ("theme", JsonValue::text("one-half-dark")),
        ("font_family", JsonValue::text("Monospace")),
        ("font_size", JsonValue::Number(JsonNumber::Float(float(12.0)))),
        ("padding_top", JsonValue::Number(JsonNumber::Unsigned(0))),
        ("padding_right", JsonValue::Number(JsonNumber::Unsigned(0))),
        ("padding_bottom", JsonValue::Number(JsonNumber::Unsigned(0))),
        ("padding_left", JsonValue::Number(JsonNumber::Unsigned(0))),
        ("scrollback_lines", JsonValue::Number(JsonNumber::Unsigned(10000))),
        ("background_image_opacity", JsonValue::Number(JsonNumber::Float(float(0.1)))),
        ("window_opacity", JsonValue::Number(JsonNumber::Float(float(1.0)))),
    ];
    for (key, value) in entries {
        object.insert(key.to_owned(), value);
    }
    settings_from_object(&object, "test").unwrap()
}

#[test]
fn missing_shell_uses_posix_fallback() {
    let config = config(None, None).unwrap();

    assert_eq!(config.shell(), "/bin/sh");
}

#[test]
fn environment_shell_is_used_when_settings_use_null() {
    let config = config(Some(text("/bin/fish")), None).unwrap();

    assert_eq!(config.shell(), "/bin/fish");
}

#[test]
fn configured_shell_takes_precedence_over_the_environment() {
    let settings = customized_settings(JsonValue::text("/bin/zsh"), JsonValue::Null);
    let config =
        AppConfig::from_values(&settings, Some(text("/bin/fish")), text("/tmp"), None, false)
            .unwrap();

    assert_eq!(config.shell(), "/bin/zsh");
}

#[test]
fn empty_background_image_override_disables_background_image() {
    let config = config(None, Some(text(""))).unwrap();

    assert_eq!(config.background_image(), None);
}

#[test]
fn project_settings_use_the_default_background_image() {
    let config = config(None, None).unwrap();

    assert_eq!(
        config.background_image(),
        Some(&BackgroundImageSource::Default)
    );
}

#[test]
fn default_background_image_override_is_supported() {
    let config = config(None, Some(text(DEFAULT_BACKGROUND_IMAGE_SETTING))).unwrap();

    assert_eq!(
        config.background_image(),
        Some(&BackgroundImageSource::Default)
    );
}

#[test]
fn null_background_image_setting_disables_background_image() {
    let settings = customized_settings(JsonValue::Null, JsonValue::Null);
    let config = AppConfig::from_values(&settings, None, text("/tmp"), None, false).unwrap();

    assert_eq!(config.background_image(), None);
}

#[test]
fn missing_background_image_falls_back_to_the_default_background_image() {
    let missing = text("/zter-test/missing-background-image.png");

    let config = config(None, Some(missing)).unwrap();

    assert_eq!(
        config.background_image(),
        Some(&BackgroundImageSource::Default)
    );
}

#[test]
fn terminal_defaults_are_exposed_to_the_ui() {
    let config = config(None, None).unwrap();

    assert_eq!(config.theme(), Theme::OneHalfDark);
    assert_eq!(config.font_family(), "Monospace");
    assert_eq!(f64::from_bits(config.font_size().to_bits()), 12.0);
    assert_eq!(config.scrollback_lines(), 10_000);
    assert_eq!(f64::from_bits(config.background_image_opacity().to_bits()), 0.1);
    assert_eq!(f64::from_bits(config.window_opacity().to_bits()), 1.0);
}

#[test]
fn terminal_padding_is_exposed_to_the_ui() {
    let config = config(None, None).unwrap();

    assert_eq!(
        config.terminal_padding(),
        TerminalPadding::new(16, 16, 16, 16)
    );
}

#[test]
fn existing_background_image_file_is_used() {
    let config = AppConfig::from_values(
        &Settings::defaults(),
        None,
        text("/tmp"),
        Some(text("/tmp/bg.png")),
        true,
    )
    .unwrap();

    assert_eq!(
        config.background_image(),
        Some(&BackgroundImageSource::File(text("/tmp/bg.png")))
    );
}

#[test]
fn non_unicode_shell_and_working_directory_are_rejected() {
    assert_eq!(
        parse_shell(None, Some(OsText::NonUnicode(vec![0x2f, 0xff]))),
        Err(ConfigError::NonUnicodeShell)
    );
    assert_eq!(
        parse_shell(Some("/bin/zsh"), Some(OsText::NonUnicode(vec![0xff]))),
        Ok("/bin/zsh".to_owned())
    );
    assert_eq!(parse_shell(None, Some(text(""))), Ok("/bin/sh".to_owned()));
    assert_eq!(
        path_to_string(OsText::NonUnicode(vec![0x2f, 0xfe])),
        Err(ConfigError::NonUnicodePath(vec![0x2f, 0xfe]))
    );
    assert_eq!(path_to_string(text("/home")), Ok("/home".to_owned()));
    let error = AppConfig::from_values(
        &Settings::defaults(),
        None,
        OsText::NonUnicode(vec![0xff]),
        None,
        false,
    );
    assert_eq!(error, Err(ConfigError::NonUnicodePath(vec![0xff])));
}

#[test]
fn builtin_is_compared_as_a_path() {
    for same in ["builtin", "builtin/", "builtin/.", "builtin//./"] {
        assert_eq!(
            parse_background_image(None, Some(text(same)), false),
            Some(BackgroundImageSource::Default)
        );
        assert!(!background_image_needs_file(&Some(text(same))));
    }
    for other in ["./builtin", "builtin/..", "builtins", "builtin/.x"] {
        assert!(background_image_needs_file(&Some(text(other))));
        assert_eq!(
            parse_background_image(None, Some(text(other)), true),
            Some(BackgroundImageSource::File(text(other)))
        );
    }
    assert_eq!(background_image_candidate(Some("builtin"), None), Some(text("builtin")));
    assert_eq!(background_image_candidate(Some("/a.png"), Some(text(""))), None);
}

#[test]
fn configuration_shows_the_selected_header_mode_or_the_full_header() {
    assert_eq!(config(None, None).unwrap().header_mode(), HeaderMode::Full);
    let mut settings = Settings::defaults();
    settings.set_header_mode(HeaderMode::Hidden);
    let config = AppConfig::from_values(&settings, None, text("/tmp"), None, false).unwrap();
    assert_eq!(config.header_mode(), HeaderMode::Hidden);
}
