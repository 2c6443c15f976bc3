use zter::settings::{HeaderMode, InvalidSetting};
use zter::binary64::Binary64;
use zter::json::{JsonNumber, JsonObject, JsonValue};
use zter::resolution::{
    header_mode_update, legacy_shade, parse_settings_text, plan_settings_load, resolve_user_settings,
    settings_source_of_text, LoadWarning, SettingsDocument, SettingsFallback, SettingsSource,
};
use zter::settings::{
    backup_path_for, default_padding, nonempty_or, normalize_setting, padding_or_default, project_settings_object,
    project_settings_path, ranged_or, settings_from_object, settings_path, ApplyOutcome,
    ParseProblem, Settings, SettingsError, SettingsUpdate, TerminalPadding, MAX_PADDING,
    MAX_SCROLLBACK_LINES,
};

fn float(value: f64) -> Binary64 {
    Binary64::from_bits(value.to_bits())
}

fn value_of(b: Binary64) -> f64 {
    f64::from_bits(b.to_bits())
}

fn unsigned(n: u64) -> JsonValue {
    JsonValue::Number(JsonNumber::Unsigned(n))
}

fn number(value: f64) -> JsonValue {
    JsonValue::Number(JsonNumber::Float(float(value)))
}

fn project_settings_value() -> JsonObject {
    project_settings_object()
}

fn object(entries: Vec<(&str, JsonValue)>) -> JsonObject {
    let mut object = JsonObject::new();
    for (key, value) in entries {
        object.insert(key.to_owned(), value);
    }
    object
}

fn keys(object: &JsonObject) -> Vec<String> {
    (0..object.len()).map(|i| object.entry(i).0.clone()).collect()
}

/// Loads settings from a file that held `object`, as the program does; the
/// legacy shade converts as the program converts it.
fn load(object: JsonObject) -> (Settings, bool, Option<LoadWarning>) {
    let shade_opacity = legacy_shade(&object).map(|shade| {
        let shade = value_of(shade);
        float((((1.0 - shade) * 100.0).round() / 100.0).min(0.6))
    });
    let source = SettingsSource::Document(SettingsDocument::Object(object));
    let plan = plan_settings_load(&source, shade_opacity, "settings.json");
    (plan.settings, plan.write, plan.warning)
}

/// Loads settings from a file that held `text`, as the program does.
fn load_text(text: &str) -> (Settings, bool, Option<LoadWarning>) {
    match settings_source_of_text(text) {
        SettingsSource::Document(SettingsDocument::Object(object)) => load(object),
        source => {
            let plan = plan_settings_load(&source, None, "settings.json");
            (plan.settings, plan.write, plan.warning)
        }
    }
}

#[test]
fn embedded_defaults_contain_every_supported_key() {
    let value = project_settings_value();

    assert_eq!(
        keys(&value),
        [
            "background_image",
            "background_image_opacity",
            "font_family",
            "font_size",
            "padding_bottom",
            "padding_left",
            "padding_right",
            "padding_top",
            "schema_version",
            "scrollback_lines",
            "shell",
            "theme",
            "window_opacity",
        ]
    );
}

#[test]
fn first_load_creates_a_complete_settings_file() {
    let plan = plan_settings_load(&SettingsSource::Missing, None, "zter/settings.json");

    assert_eq!(plan.settings, Settings::defaults());
    assert!(plan.write);
    assert_eq!(plan.warning, None);
    assert_eq!(plan.settings.to_object(), project_settings_value());
}

#[test]
fn missing_keys_are_added_without_discarding_user_values() {
    let user = object(vec![("schema_version", unsigned(1)), ("font_size", number(16.0))]);

    let (settings, write, _) = load(user);
    let saved = settings.to_object();

    assert_eq!(value_of(settings.font_size()), 16.0);
    assert!(write);
    assert_eq!(saved.get("font_size"), Some(&number(16.0)));
    assert_eq!(saved.len(), 13);
}

#[test]
fn padding_accepts_each_supported_boundary() {
    let mut value = project_settings_value();
    value.insert("padding_top".to_owned(), unsigned(0));
    value.insert("padding_right".to_owned(), unsigned(MAX_PADDING as u64));
    value.insert("padding_bottom".to_owned(), unsigned(24));
    value.insert("padding_left".to_owned(), unsigned(8));

    let settings = settings_from_object(&value, project_settings_path()).unwrap();

    assert_eq!(
        settings.terminal_padding(),
        TerminalPadding::new(0, MAX_PADDING, 24, 8)
    );
}

#[test]
fn invalid_padding_fields_fall_back_independently() {
    let mut value = project_settings_value();
    value.insert("padding_top".to_owned(), unsigned(12));
    value.insert("padding_right".to_owned(), unsigned(129));
    value.insert("padding_bottom".to_owned(), JsonValue::text("8"));
    value.insert("padding_left".to_owned(), number(4.5));

    let settings = settings_from_object(&value, project_settings_path()).unwrap();

    assert_eq!(
        settings.terminal_padding(),
        TerminalPadding::new(12, 0, 0, 0)
    );
}

#[test]
fn invalid_padding_does_not_prevent_loading_or_overwrite_the_file() {
    let mut value = project_settings_value();
    value.insert("padding_top".to_owned(), JsonValue::Number(JsonNumber::Negative(-1)));
    value.insert("padding_right".to_owned(), JsonValue::Null);

    let (settings, write, _) = load(value);

    assert_eq!(
        settings.terminal_padding(),
        Settings::defaults().terminal_padding()
    );
    assert!(!write);
}

#[test]
fn null_and_empty_values_fall_back_without_discarding_other_keys() {
    let mut value = project_settings_value();
    value.insert("shell".to_owned(), JsonValue::text(""));
    value.insert("background_image".to_owned(), JsonValue::text(""));
    value.insert("theme".to_owned(), JsonValue::Null);
    value.insert("font_family".to_owned(), JsonValue::text(""));
    value.insert("font_size".to_owned(), JsonValue::text(""));
    value.insert("padding_top".to_owned(), JsonValue::Null);
    value.insert("padding_right".to_owned(), JsonValue::text(""));
    value.insert("padding_bottom".to_owned(), unsigned(999));
    value.insert("padding_left".to_owned(), number(4.5));
    value.insert("scrollback_lines".to_owned(), JsonValue::text(""));
    value.insert("background_image_opacity".to_owned(), JsonValue::Null);
    value.insert("window_opacity".to_owned(), JsonValue::Null);

    let (settings, write, _) = load(value);
    let defaults = Settings::defaults();

    assert_eq!(settings.shell(), None);
    assert_eq!(settings.background_image(), None);
    assert_eq!(settings.theme(), defaults.theme());
    assert_eq!(settings.font_family(), defaults.font_family());
    assert_eq!(settings.font_size(), defaults.font_size());
    assert_eq!(settings.terminal_padding(), defaults.terminal_padding());
    assert_eq!(settings.scrollback_lines(), defaults.scrollback_lines());
    assert_eq!(
        settings.background_image_opacity(),
        defaults.background_image_opacity()
    );
    assert_eq!(settings.window_opacity(), defaults.window_opacity());
    assert!(!write);
}

#[test]
fn schema_one_shade_migrates_to_equivalent_background_image_opacity() {
    let (settings, write, _) =
        load_text("{\"schema_version\":1,\"font_size\":16.0,\"wallpaper_shade\":0.8}");
    let saved = settings.to_object();

    assert!(write);
    assert_eq!(value_of(settings.background_image_opacity()), 0.2);
    assert_eq!(saved.get("schema_version"), Some(&unsigned(3)));
    assert!(saved.get("wallpaper_shade").is_none());
    assert!(saved.get("wallpaper_opacity").is_none());
    assert_eq!(saved.get("background_image_opacity"), Some(&number(0.2)));
    assert_eq!(saved.get("window_opacity"), Some(&number(1.0)));
}

#[test]
fn schema_two_wallpaper_keys_migrate_to_background_image_keys() {
    let (settings, write, _) = load_text(
        "{\"schema_version\":2,\"wallpaper\":\"/tmp/bg.png\",\"wallpaper_opacity\":0.25}",
    );
    let saved = settings.to_object();

    assert!(write);
    assert_eq!(settings.background_image(), Some("/tmp/bg.png"));
    assert_eq!(value_of(settings.background_image_opacity()), 0.25);
    assert_eq!(value_of(settings.window_opacity()), 1.0);
    assert_eq!(saved.get("schema_version"), Some(&unsigned(3)));
    assert!(saved.get("wallpaper").is_none());
    assert!(saved.get("wallpaper_opacity").is_none());
    assert_eq!(saved.get("background_image"), Some(&JsonValue::text("/tmp/bg.png")));
    assert_eq!(saved.get("background_image_opacity"), Some(&number(0.25)));
}

#[test]
fn malformed_file_is_not_overwritten() {
    let malformed = "{ this is not JSON";
    assert_eq!(settings_source_of_text(malformed), SettingsSource::Malformed);
    let (settings, write, warning) = load_text(malformed);

    assert_eq!(settings, Settings::defaults());
    assert!(!write);
    assert_eq!(warning, Some(LoadWarning::Malformed));
}

#[test]
fn non_utf8_file_uses_defaults_without_overwriting_the_file() {
    let plan = plan_settings_load(&SettingsSource::Unreadable, None, "settings.json");

    assert_eq!(plan.settings, Settings::defaults());
    assert!(!plan.write);
    assert_eq!(plan.warning, Some(LoadWarning::Unreadable));
}

#[test]
fn invalid_value_uses_its_default_without_discarding_valid_values() {
    let mut value = project_settings_value();
    value.insert("shell".to_owned(), JsonValue::text("/bin/zsh"));
    value.insert("font_size".to_owned(), number(100.0));

    let (settings, write, _) = load(value);

    assert_eq!(settings.shell(), Some("/bin/zsh"));
    assert_eq!(settings.font_size(), Settings::defaults().font_size());
    assert!(!write);
}

#[test]
fn background_image_opacity_above_the_supported_maximum_uses_its_default() {
    let mut value = project_settings_value();
    value.insert("background_image_opacity".to_owned(), number(0.7));

    let (settings, write, _) = load(value);

    assert_eq!(
        settings.background_image_opacity(),
        Settings::defaults().background_image_opacity()
    );
    assert!(!write);
}

#[test]
fn window_opacity_outside_supported_range_uses_its_default() {
    let mut value = project_settings_value();
    value.insert("window_opacity".to_owned(), number(0.5));

    let (settings, write, _) = load(value);

    assert_eq!(
        settings.window_opacity(),
        Settings::defaults().window_opacity()
    );
    assert!(!write);
}

#[test]
fn unsupported_schema_uses_defaults_without_overwriting_the_file() {
    let mut value = project_settings_value();
    value.insert("schema_version".to_owned(), unsigned(99));

    let (settings, write, warning) = load(value);

    assert_eq!(settings, Settings::defaults());
    assert!(!write);
    assert_eq!(warning, Some(LoadWarning::UnsupportedSchema));
}

#[test]
fn unknown_keys_are_ignored_without_discarding_known_values() {
    let mut value = project_settings_value();
    value.insert("font_size".to_owned(), number(18.0));
    value.insert("future_setting".to_owned(), JsonValue::Bool(true));

    let (settings, write, _) = load(value);

    assert_eq!(value_of(settings.font_size()), 18.0);
    assert!(!write);
}

#[test]
fn settings_update_saves_and_reloads_every_editable_value() {
    let mut settings = Settings::defaults();
    settings.apply_update(SettingsUpdate {
        shell: Some(" /bin/fish ".to_owned()),
        background_image: Some("/tmp/wallpaper.png".to_owned()),
        font_family: "JetBrains Mono".to_owned(),
        font_size: float(16.0),
        terminal_padding: TerminalPadding::new(1, 2, 3, 4),
        scrollback_lines: 25_000,
        background_image_opacity: float(0.25),
        window_opacity: float(0.85),
    });

    let (reloaded, write, _) = load(settings.to_object());

    assert!(!write);
    assert_eq!(reloaded.shell(), Some("/bin/fish"));
    assert_eq!(reloaded.background_image(), Some("/tmp/wallpaper.png"));
    assert_eq!(reloaded.font_family(), "JetBrains Mono");
    assert_eq!(value_of(reloaded.font_size()), 16.0);
    assert_eq!(
        reloaded.terminal_padding(),
        TerminalPadding::new(1, 2, 3, 4)
    );
    assert_eq!(reloaded.scrollback_lines(), 25_000);
    assert_eq!(value_of(reloaded.background_image_opacity()), 0.25);
    assert_eq!(value_of(reloaded.window_opacity()), 0.85);
}

#[test]
fn invalid_settings_update_values_use_embedded_defaults() {
    let defaults = Settings::defaults();
    let mut settings = defaults.clone();
    settings.apply_update(SettingsUpdate {
        shell: Some("  ".to_owned()),
        background_image: Some(String::new()),
        font_family: "  ".to_owned(),
        font_size: float(f64::NAN),
        terminal_padding: TerminalPadding::new(MAX_PADDING + 1, 2, 3, 4),
        scrollback_lines: MAX_SCROLLBACK_LINES + 1,
        background_image_opacity: float(0.6 + 0.01),
        window_opacity: float(0.6 - 0.01),
    });

    assert_eq!(settings.shell(), None);
    assert_eq!(settings.background_image(), None);
    assert_eq!(settings.font_family(), defaults.font_family());
    assert_eq!(settings.font_size(), defaults.font_size());
    assert_eq!(
        settings.terminal_padding().top(),
        defaults.terminal_padding().top()
    );
    assert_eq!(settings.terminal_padding().right(), 2);
    assert_eq!(settings.scrollback_lines(), defaults.scrollback_lines());
    assert_eq!(
        settings.background_image_opacity(),
        defaults.background_image_opacity()
    );
    assert_eq!(settings.window_opacity(), defaults.window_opacity());
}

#[test]
fn apply_project_backs_up_and_replaces_existing_settings() {
    let path = b"/tmp/apply-existing/settings.json".to_vec();
    let backup_path = backup_path_for(&path);
    let outcome = ApplyOutcome::new(path.clone(), Some(backup_path.clone()));

    assert_eq!(backup_path, b"/tmp/apply-existing/settings.json.bak".to_vec());
    assert_eq!(outcome.settings_path(), path.as_slice());
    assert_eq!(outcome.backup_path(), Some(backup_path.as_slice()));
    assert_eq!(Settings::defaults().to_object(), project_settings_value());
}

#[test]
fn apply_project_without_existing_settings_does_not_create_a_backup() {
    let path = b"/tmp/apply-new/zter/settings.json".to_vec();
    let outcome = ApplyOutcome::new(path.clone(), None);

    assert_eq!(outcome.settings_path(), path.as_slice());
    assert_eq!(outcome.backup_path(), None);
}

#[test]
fn settings_path_prefers_the_config_home_and_falls_back_to_home() {
    assert_eq!(
        settings_path(Some(b"/xdg".to_vec()), Some(b"/home/u".to_vec()), b"zter"),
        Ok(b"/xdg/zter/settings.json".to_vec())
    );
    assert_eq!(
        settings_path(Some(b"/xdg/".to_vec()), None, b"zter-devel"),
        Ok(b"/xdg/zter-devel/settings.json".to_vec())
    );
    assert_eq!(
        settings_path(Some(Vec::new()), Some(b"/home/u".to_vec()), b"zter"),
        Ok(b"/home/u/.config/zter/settings.json".to_vec())
    );
    assert_eq!(
        settings_path(None, Some(Vec::new()), b"zter"),
        Err(SettingsError::ConfigDirectoryUnavailable)
    );
    assert_eq!(
        settings_path(None, None, b"zter"),
        Err(SettingsError::ConfigDirectoryUnavailable)
    );
}

#[test]
fn reading_an_object_reports_the_first_fault() {
    let mut unknown = project_settings_value();
    unknown.insert("future_setting".to_owned(), JsonValue::Bool(true));
    assert_eq!(
        settings_from_object(&unknown, "f"),
        Err(SettingsError::Parse {
            path: "f".to_owned(),
            problem: ParseProblem::UnknownField("future_setting".to_owned()),
        })
    );
    let mut missing = project_settings_value();
    missing.remove("font_family");
    assert!(matches!(
        settings_from_object(&missing, "f"),
        Err(SettingsError::Parse { problem: ParseProblem::MissingField(_), .. })
    ));
    let mut invalid = project_settings_value();
    invalid.insert("font_size".to_owned(), number(100.0));
    assert!(matches!(
        settings_from_object(&invalid, "f"),
        Err(SettingsError::Invalid { .. })
    ));
}

#[test]
fn documents_that_are_set_aside_are_never_rewritten() {
    let not_object = resolve_user_settings(&SettingsDocument::NotAnObject, None, "f").unwrap();
    assert_eq!(not_object.settings, Settings::defaults());
    assert!(!not_object.write_back);
    assert_eq!(not_object.fallback, Some(SettingsFallback::NotAnObject));

    let mut text_schema = project_settings_value();
    text_schema.insert("schema_version".to_owned(), JsonValue::text("3"));
    let resolution =
        resolve_user_settings(&SettingsDocument::Object(text_schema), None, "f").unwrap();
    assert_eq!(resolution.fallback, Some(SettingsFallback::UnsupportedSchema));
    assert!(!resolution.write_back);
}

#[test]
fn resolving_written_settings_gives_them_back() {
    let mut settings = Settings::defaults();
    settings.apply_update(SettingsUpdate {
        shell: Some("/bin/zsh".to_owned()),
        background_image: None,
        font_family: " Fira Code ".to_owned(),
        font_size: float(13.5),
        terminal_padding: TerminalPadding::new(0, 128, 7, 9),
        scrollback_lines: 0,
        background_image_opacity: float(0.0),
        window_opacity: float(0.6),
    });

    let (reloaded, write, warning) = load(settings.to_object());

    assert_eq!(reloaded, settings);
    assert!(!write);
    assert_eq!(warning, None);
}

#[test]
fn legacy_shade_outside_its_range_is_invalid_and_blocks_the_rewrite() {
    let user = object(vec![
        ("schema_version", unsigned(1)),
        ("wallpaper_shade", number(1.5)),
    ]);
    assert_eq!(legacy_shade(&user), None);

    let (settings, write, _) = load(user);

    assert_eq!(
        settings.background_image_opacity(),
        Settings::defaults().background_image_opacity()
    );
    assert!(!write);
}

#[test]
fn small_helpers_follow_their_rules() {
    assert_eq!(nonempty_or("  Mono  ".to_owned(), "Monospace".to_owned()), "Mono");
    assert_eq!(nonempty_or(" \t".to_owned(), "Monospace".to_owned()), "Monospace");
    assert_eq!(padding_or_default(128, 16), 128);
    assert_eq!(padding_or_default(129, 16), 16);
    assert_eq!(default_padding(), 0);
    assert_eq!(value_of(ranged_or(float(7.0), float(6.0), float(72.0), float(12.0))), 7.0);
    assert_eq!(value_of(ranged_or(float(f64::INFINITY), float(6.0), float(72.0), float(12.0))), 12.0);
    assert_eq!(value_of(ranged_or(float(5.9), float(6.0), float(72.0), float(12.0))), 12.0);
    assert_eq!(project_settings_path(), "config/settings.json");
}

#[test]
fn each_key_normalizes_its_own_values() {
    assert_eq!(normalize_setting("shell", &JsonValue::text("  ")), Some(JsonValue::Null));
    assert_eq!(
        normalize_setting("shell", &JsonValue::text("/bin/zsh")),
        Some(JsonValue::text("/bin/zsh"))
    );
    assert_eq!(normalize_setting("shell", &unsigned(1)), None);
    assert_eq!(normalize_setting("schema_version", &unsigned(3)), Some(unsigned(3)));
    assert_eq!(normalize_setting("schema_version", &number(3.0)), None);
    assert_eq!(
        normalize_setting("scrollback_lines", &unsigned(1_000_000)),
        Some(unsigned(1_000_000))
    );
    assert_eq!(normalize_setting("scrollback_lines", &unsigned(1_000_001)), None);
    assert_eq!(
        normalize_setting("scrollback_lines", &JsonValue::Number(JsonNumber::Negative(-1))),
        None
    );
    assert_eq!(normalize_setting("font_size", &unsigned(72)), Some(unsigned(72)));
    assert_eq!(normalize_setting("font_size", &number(72.5)), None);
    assert_eq!(normalize_setting("window_opacity", &number(0.6)), Some(number(0.6)));
    assert_eq!(normalize_setting("window_opacity", &number(0.59)), None);
    assert_eq!(
        normalize_setting("theme", &JsonValue::Object(Some("one-half-dark".to_owned()))),
        Some(JsonValue::Object(Some("one-half-dark".to_owned())))
    );
    assert_eq!(normalize_setting("theme", &JsonValue::text("solarized")), None);
    assert_eq!(normalize_setting("padding_top", &unsigned(129)), None);
    assert_eq!(normalize_setting("wallpaper", &unsigned(1)), None);
}

#[test]
fn backup_replaces_the_file_name_beside_the_settings_file() {
    let cases: [(&[u8], &[u8]); 9] = [
        (b"d/a.j", b"d/settings.json.bak"),
        (b"a.j", b"settings.json.bak"),
        (b"d/a.j/", b"d/settings.json.bak"),
        (b"d//a.j", b"d/settings.json.bak"),
        (b"d/a.j/.", b"d/settings.json.bak"),
        (b"./a", b"./settings.json.bak"),
        (b"/a", b"/settings.json.bak"),
        (b"d/..", b"d/../settings.json.bak"),
        (b"/", b"/settings.json.bak"),
    ];
    for (path, backup) in cases {
        assert_eq!(backup_path_for(path), backup.to_vec());
    }
    assert_eq!(backup_path_for(b""), b"settings.json.bak".to_vec());
}

#[test]
fn settings_text_is_read_as_the_document_it_holds() {
    assert_eq!(parse_settings_text("[1, 2]"), Some(SettingsDocument::NotAnObject));
    assert_eq!(parse_settings_text("\"text\""), Some(SettingsDocument::NotAnObject));
    assert_eq!(parse_settings_text(""), None);
    let document = parse_settings_text(
        "{\"shell\": null, \"font_size\": 12.5, \"scrollback_lines\": -3, \"padding_top\": 7, \"theme\": {\"one-half-dark\": null}, \"x\": [1], \"y\": {\"a\": 1}, \"z\": true}",
    );
    let expected = object(vec![
        ("font_size", number(12.5)),
        ("padding_top", unsigned(7)),
        ("scrollback_lines", JsonValue::Number(JsonNumber::Negative(-3))),
        ("shell", JsonValue::Null),
        ("theme", JsonValue::Object(Some("one-half-dark".to_owned()))),
        ("x", JsonValue::Array),
        ("y", JsonValue::Object(None)),
        ("z", JsonValue::Bool(true)),
    ]);
    assert_eq!(document, Some(SettingsDocument::Object(expected)));
}

#[test]
fn settings_text_with_an_unsupported_top_level_value_uses_defaults() {
    let (settings, write, warning) = load_text("[]");
    assert_eq!(settings, Settings::defaults());
    assert!(!write);
    assert_eq!(warning, Some(LoadWarning::NotAnObject));
}

#[test]
fn header_mode_is_optional_and_written_once_selected() {
    let mut settings = Settings::defaults();
    assert_eq!(settings.header_mode(), None);
    assert!(settings.to_object().get("header_mode").is_none());

    settings.set_header_mode(HeaderMode::Mini);
    assert_eq!(settings.header_mode(), Some(HeaderMode::Mini));
    let written = settings.to_object();
    assert_eq!(written.get("header_mode"), Some(&JsonValue::text("mini")));
    assert_eq!(written.len(), 14);
    let read = settings_from_object(&written, "settings.json").unwrap();
    assert_eq!(read, settings);
    let (loaded, write, _) = load(settings.to_object());
    assert_eq!(loaded, settings);
    assert!(!write);
}

#[test]
fn header_mode_values_normalize_to_their_names() {
    assert_eq!(
        normalize_setting("header_mode", &JsonValue::text("show")),
        Some(JsonValue::text("full"))
    );
    assert_eq!(
        normalize_setting("header_mode", &JsonValue::text("hide")),
        Some(JsonValue::text("hidden"))
    );
    assert_eq!(
        normalize_setting("header_mode", &JsonValue::text("mini")),
        Some(JsonValue::text("mini"))
    );
    assert_eq!(normalize_setting("header_mode", &JsonValue::Null), Some(JsonValue::Null));
    assert_eq!(normalize_setting("header_mode", &JsonValue::text("tiny")), None);
    assert_eq!(normalize_setting("header_mode", &JsonValue::Bool(true)), None);
}

#[test]
fn schema_three_header_visibility_becomes_a_header_mode() {
    let mut visible = project_settings_value();
    visible.insert("header_visible".to_owned(), JsonValue::Bool(true));
    let (settings, write, _) = load(visible);
    assert_eq!(settings.header_mode(), Some(HeaderMode::Full));
    assert!(write);

    let mut hidden = project_settings_value();
    hidden.insert("header_visible".to_owned(), JsonValue::Bool(false));
    hidden.insert("font_size".to_owned(), number(14.0));
    let (settings, write, _) = load(hidden);
    assert_eq!(settings.header_mode(), Some(HeaderMode::Hidden));
    assert_eq!(value_of(settings.font_size()), 14.0);
    assert!(write);

    let mut both = project_settings_value();
    both.insert("header_visible".to_owned(), JsonValue::Bool(false));
    both.insert("header_mode".to_owned(), JsonValue::text("mini"));
    let (settings, _, _) = load(both);
    assert_eq!(settings.header_mode(), Some(HeaderMode::Mini));

    let mut odd = project_settings_value();
    odd.insert("header_visible".to_owned(), unsigned(1));
    let (settings, write, _) = load(odd);
    assert_eq!(settings.header_mode(), None);
    assert!(!write);
}

#[test]
fn validation_reports_the_first_failed_check() {
    let settings = Settings::defaults();
    assert_eq!(settings.validate("settings.json"), Ok(()));
    let mut update_target = Settings::defaults();
    update_target.apply_update(SettingsUpdate {
        shell: None,
        background_image: None,
        font_family: "Mono".to_owned(),
        font_size: float(12.0),
        terminal_padding: TerminalPadding::new(1, 1, 1, 1),
        scrollback_lines: 5,
        background_image_opacity: float(0.2),
        window_opacity: float(0.9),
    });
    assert_eq!(update_target.validate("x.json"), Ok(()));
    let error = SettingsError::Invalid {
        path: "x.json".to_owned(),
        reason: InvalidSetting::FontSize,
    };
    assert_eq!(error.message(), "invalid settings in x.json: font_size must be between 6 and 72");
}

#[test]
fn header_command_changes_only_the_header_mode() {
    let user = object(vec![
        ("font_size", number(16.0)),
        ("colour", JsonValue::text("red")),
    ]);
    let source = SettingsSource::Document(SettingsDocument::Object(user));
    let updated = header_mode_update(&source, HeaderMode::Hidden).unwrap();
    assert_eq!(
        updated,
        object(vec![
            ("font_size", number(16.0)),
            ("colour", JsonValue::text("red")),
            ("header_mode", JsonValue::text("hidden")),
        ])
    );

    let mut expected = Settings::defaults();
    expected.set_header_mode(HeaderMode::Mini);
    assert_eq!(
        header_mode_update(&SettingsSource::Missing, HeaderMode::Mini),
        Some(expected.to_object())
    );
    assert_eq!(header_mode_update(&SettingsSource::Malformed, HeaderMode::Full), None);
    assert_eq!(header_mode_update(&SettingsSource::Unreadable, HeaderMode::Full), None);
    assert_eq!(
        header_mode_update(
            &SettingsSource::Document(SettingsDocument::NotAnObject),
            HeaderMode::Full
        ),
        None
    );
}
