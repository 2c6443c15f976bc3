use zter::messages::{apply_error_message, save_error_message};
use zter::config::ConfigError;
use zter::settings::{InvalidSetting, ParseProblem, SettingKey, SettingsError};

#[test]
fn invalid_schema_version_names_the_version_found() {
    assert_eq!(
        InvalidSetting::SchemaVersion(2).reason(),
        "schema_version must be 3, got 2"
    );
    assert_eq!(
        InvalidSetting::SchemaVersion(4294967295).reason(),
        "schema_version must be 3, got 4294967295"
    );
}

#[test]
fn invalid_settings_message_names_the_file_and_the_limit() {
    let error = SettingsError::Invalid {
        path: "/home/me/.config/zter/settings.json".to_owned(),
        reason: InvalidSetting::WindowOpacity,
    };
    assert_eq!(
        error.message(),
        "invalid settings in /home/me/.config/zter/settings.json: window_opacity must be between 0.6 and 1.0"
    );
}

#[test]
fn each_limit_has_its_own_reason() {
    assert_eq!(
        InvalidSetting::Shell.reason(),
        "shell must be null or a non-empty string"
    );
    assert_eq!(InvalidSetting::FontFamily.reason(), "font_family must not be empty");
    assert_eq!(InvalidSetting::FontSize.reason(), "font_size must be between 6 and 72");
    assert_eq!(
        InvalidSetting::ScrollbackLines.reason(),
        "scrollback_lines must be between 0 and 1000000"
    );
    assert_eq!(
        InvalidSetting::BackgroundImageOpacity.reason(),
        "background_image_opacity must be between 0 and 0.6"
    );
}

#[test]
fn parse_problems_name_the_key() {
    assert_eq!(
        ParseProblem::UnknownField("colour".to_owned()).description(),
        "unknown field `colour`, expected one of `schema_version`, `shell`, `background_image`, `theme`, `font_family`, `font_size`, `padding_top`, `padding_right`, `padding_bottom`, `padding_left`, `scrollback_lines`, `background_image_opacity`, `window_opacity`, `header_mode`"
    );
    assert_eq!(
        ParseProblem::InvalidValue("font_size".to_owned()).description(),
        "invalid value for `font_size`"
    );
    assert_eq!(
        ParseProblem::MissingField(SettingKey::FontFamily).description(),
        "missing field `font_family`"
    );
    let error = SettingsError::Parse {
        path: "settings.json".to_owned(),
        problem: ParseProblem::MissingField(SettingKey::Theme),
    };
    assert_eq!(error.message(), "cannot parse settings.json: missing field `theme`");
}

#[test]
fn system_errors_keep_the_system_message() {
    let read = SettingsError::Read {
        path: "a.json".to_owned(),
        reason: "Permission denied (os error 13)".to_owned(),
    };
    assert_eq!(read.message(), "cannot read a.json: Permission denied (os error 13)");
    let directory = SettingsError::CreateDirectory {
        path: "/x".to_owned(),
        reason: "Read-only file system".to_owned(),
    };
    assert_eq!(
        directory.message(),
        "cannot create settings directory /x: Read-only file system"
    );
    let write = SettingsError::Write {
        path: "b.json".to_owned(),
        reason: "No space left on device".to_owned(),
    };
    assert_eq!(write.message(), "cannot write b.json: No space left on device");
    let serialize = SettingsError::Serialize("key must be a string".to_owned());
    assert_eq!(serialize.message(), "cannot serialize settings: key must be a string");
    assert_eq!(
        SettingsError::ConfigDirectoryUnavailable.message(),
        "cannot locate the config directory because XDG_CONFIG_HOME and HOME are unavailable"
    );
}

#[test]
fn configuration_errors_have_their_messages() {
    assert_eq!(ConfigError::NonUnicodeShell.message(), "SHELL is not valid UTF-8");
    assert_eq!(
        ConfigError::CurrentDirectory("No such file or directory (os error 2)".to_owned())
            .message(),
        "cannot read the current directory: No such file or directory (os error 2)"
    );
    assert_eq!(
        ConfigError::NonUnicodePath(vec![b'/', b't', 0xFF]).message(),
        "the working directory is not valid UTF-8: /t\u{FFFD}"
    );
    assert_eq!(
        ConfigError::Settings(SettingsError::ConfigDirectoryUnavailable).message(),
        SettingsError::ConfigDirectoryUnavailable.message()
    );
}

#[test]
fn settings_window_messages_name_the_step_that_failed() {
    assert_eq!(
        save_error_message(&SettingsError::ConfigDirectoryUnavailable),
        "Could not save settings: cannot locate the config directory because XDG_CONFIG_HOME and HOME are unavailable"
    );
    assert_eq!(
        apply_error_message(&ConfigError::NonUnicodeShell),
        "Settings saved but could not be applied: SHELL is not valid UTF-8"
    );
}
