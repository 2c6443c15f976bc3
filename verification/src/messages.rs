//! The messages that settings, configuration and key binding errors are
//! reported with.
use crate::config::ConfigError;
use crate::key_bindings::{action_name, KeyBindingError, KeyBindingFault, ReservedShortcut};
use crate::settings::{key_name, InvalidSetting, ParseProblem, SettingsError};
use crate::theme::{decimal, decimal_spec};
use vstd::prelude::*;

verus! {

broadcast use vstd::string::group_string_axioms;

/// Why a value is outside the schema's limits, as the message says it.
pub open spec fn invalid_reason_spec(reason: InvalidSetting) -> Seq<char> {
    match reason {
        InvalidSetting::SchemaVersion(found) => "schema_version must be 3, got "@ + decimal_spec(
            found as nat,
        ),
        InvalidSetting::Shell => "shell must be null or a non-empty string"@,
        InvalidSetting::FontFamily => "font_family must not be empty"@,
        InvalidSetting::FontSize => "font_size must be between 6 and 72"@,
        InvalidSetting::ScrollbackLines => "scrollback_lines must be between 0 and 1000000"@,
        InvalidSetting::BackgroundImageOpacity => "background_image_opacity must be between 0 and 0.6"@,
        InvalidSetting::WindowOpacity => "window_opacity must be between 0.6 and 1.0"@,
    }
}

/// The fields of the settings, in declaration order, as a message lists
/// them.
pub open spec fn expected_fields() -> Seq<char> {
    "one of `schema_version`, `shell`, `background_image`, `theme`, `font_family`, `font_size`, `padding_top`, `padding_right`, `padding_bottom`, `padding_left`, `scrollback_lines`, `background_image_opacity`, `window_opacity`, `header_mode`"@
}

/// What is wrong with a settings document, as the message says it: an
/// unknown or missing field in the words of `serde`'s errors, and a value
/// that cannot be read by the key it stands under.
pub open spec fn parse_problem_spec(problem: ParseProblem) -> Seq<char> {
    match problem {
        ParseProblem::UnknownField(key) => "unknown field `"@ + key@ + "`, expected "@
            + expected_fields(),
        ParseProblem::InvalidValue(key) => "invalid value for `"@ + key@ + "`"@,
        ParseProblem::MissingField(key) => "missing field `"@ + key_name(key) + "`"@,
    }
}

/// The message of a settings error.
pub open spec fn settings_message_spec(error: SettingsError) -> Seq<char> {
    match error {
        SettingsError::ConfigDirectoryUnavailable => "cannot locate the config directory because XDG_CONFIG_HOME and HOME are unavailable"@,
        SettingsError::Read { path, reason } => "cannot read "@ + path@ + ": "@ + reason@,
        SettingsError::Parse { path, problem } => "cannot parse "@ + path@ + ": "@
            + parse_problem_spec(problem),
        SettingsError::Invalid { path, reason } => "invalid settings in "@ + path@ + ": "@
            + invalid_reason_spec(reason),
        SettingsError::CreateDirectory { path, reason } => "cannot create settings directory "@
            + path@ + ": "@ + reason@,
        SettingsError::Write { path, reason } => "cannot write "@ + path@ + ": "@ + reason@,
        SettingsError::Serialize(reason) => "cannot serialize settings: "@ + reason@,
    }
}

/// The text that `String::from_utf8_lossy` makes of `bytes`.
pub uninterp spec fn utf8_lossy(bytes: Seq<u8>) -> Seq<char>;

/// Decodes `bytes` with `String::from_utf8_lossy`, which puts U+FFFD in place
/// of each invalid sequence; the contract names the result and claims nothing
/// more of it.
#[verifier::external_body]
fn lossy_text(bytes: &[u8]) -> (text: String)
    ensures
        text@ == utf8_lossy(bytes@),
{
    String::from_utf8_lossy(bytes).into_owned()
}

/// The message of a configuration error.
pub open spec fn config_message_spec(error: ConfigError) -> Seq<char> {
    match error {
        ConfigError::Settings(error) => settings_message_spec(error),
        ConfigError::CurrentDirectory(reason) => "cannot read the current directory: "@ + reason@,
        ConfigError::NonUnicodePath(path) => "the working directory is not valid UTF-8: "@
            + utf8_lossy(path@),
        ConfigError::NonUnicodeShell => "SHELL is not valid UTF-8"@,
    }
}

impl InvalidSetting {
    /// Why the value is outside the schema's limits.
    pub fn reason(&self) -> (text: String)
        ensures
            text@ == invalid_reason_spec(*self),
    {
        let mut text = String::new();
        match self {
            InvalidSetting::SchemaVersion(found) => {
                text.append("schema_version must be 3, got ");
                text.append(decimal(*found).as_str());
            },
            InvalidSetting::Shell => text.append("shell must be null or a non-empty string"),
            InvalidSetting::FontFamily => text.append("font_family must not be empty"),
            InvalidSetting::FontSize => text.append("font_size must be between 6 and 72"),
            InvalidSetting::ScrollbackLines => text.append(
                "scrollback_lines must be between 0 and 1000000",
            ),
            InvalidSetting::BackgroundImageOpacity => text.append(
                "background_image_opacity must be between 0 and 0.6",
            ),
            InvalidSetting::WindowOpacity => text.append(
                "window_opacity must be between 0.6 and 1.0",
            ),
        }
        text
    }
}

impl ParseProblem {
    /// What is wrong with the document.
    pub fn description(&self) -> (text: String)
        ensures
            text@ == parse_problem_spec(*self),
    {
        let mut text = String::new();
        match self {
            ParseProblem::UnknownField(key) => {
                text.append("unknown field `");
                text.append(key.as_str());
                text.append("`, expected ");
                text.append("one of `schema_version`, `shell`, `background_image`, `theme`, `font_family`, `font_size`, `padding_top`, `padding_right`, `padding_bottom`, `padding_left`, `scrollback_lines`, `background_image_opacity`, `window_opacity`, `header_mode`");
                return text;
            },
            ParseProblem::InvalidValue(key) => {
                text.append("invalid value for `");
                text.append(key.as_str());
            },
            ParseProblem::MissingField(key) => {
                text.append("missing field `");
                text.append(key.name());
            },
        }
        text.append("`");
        text
    }
}

impl SettingsError {
    /// The message that the error is reported with.
    pub fn message(&self) -> (text: String)
        ensures
            text@ == settings_message_spec(*self),
    {
        let mut text = String::new();
        match self {
            SettingsError::ConfigDirectoryUnavailable => {
                text.append(
                    "cannot locate the config directory because XDG_CONFIG_HOME and HOME are unavailable",
                );
            },
            SettingsError::Read { path, reason } => {
                text.append("cannot read ");
                text.append(path.as_str());
                text.append(": ");
                text.append(reason.as_str());
            },
            SettingsError::Parse { path, problem } => {
                text.append("cannot parse ");
                text.append(path.as_str());
                text.append(": ");
                text.append(problem.description().as_str());
            },
            SettingsError::Invalid { path, reason } => {
                text.append("invalid settings in ");
                text.append(path.as_str());
                text.append(": ");
                text.append(reason.reason().as_str());
            },
            SettingsError::CreateDirectory { path, reason } => {
                text.append("cannot create settings directory ");
                text.append(path.as_str());
                text.append(": ");
                text.append(reason.as_str());
            },
            SettingsError::Write { path, reason } => {
                text.append("cannot write ");
                text.append(path.as_str());
                text.append(": ");
                text.append(reason.as_str());
            },
            SettingsError::Serialize(reason) => {
                text.append("cannot serialize settings: ");
                text.append(reason.as_str());
            },
        }
        text
    }
}

impl ConfigError {
    /// The message that the error is reported with.
    pub fn message(&self) -> (text: String)
        ensures
            text@ == config_message_spec(*self),
    {
        match self {
            ConfigError::Settings(error) => error.message(),
            ConfigError::CurrentDirectory(reason) => {
                let mut text = String::new();
                text.append("cannot read the current directory: ");
                text.append(reason.as_str());
                text
            },
            ConfigError::NonUnicodePath(path) => {
                let mut text = String::new();
                text.append("the working directory is not valid UTF-8: ");
                text.append(lossy_text(path.as_slice()).as_str());
                text
            },
            ConfigError::NonUnicodeShell => {
                let mut text = String::new();
                text.append("SHELL is not valid UTF-8");
                text
            },
        }
    }
}

/// What the settings window shows when the settings could not be saved.
pub fn save_error_message(error: &SettingsError) -> (text: String)
    ensures
        text@ == "Could not save settings: "@ + settings_message_spec(*error),
{
    let mut text = String::new();
    text.append("Could not save settings: ");
    text.append(error.message().as_str());
    text
}

/// What the settings window shows when the saved settings could not be
/// applied to the open windows.
pub fn apply_error_message(error: &ConfigError) -> (text: String)
    ensures
        text@ == "Settings saved but could not be applied: "@ + config_message_spec(*error),
{
    let mut text = String::new();
    text.append("Settings saved but could not be applied: ");
    text.append(error.message().as_str());
    text
}

/// What `format!("{:?}", text)` gives: the text quoted, with its special
/// characters escaped.
pub uninterp spec fn debug_quoted(text: Seq<char>) -> Seq<char>;

/// Writes `text` with the `Debug` formatting of `str`, which quotes it and
/// escapes quotes, backslashes and other special characters; the contract
/// names the result and claims nothing more.
#[verifier::external_body]
fn debug_text(text: &str) -> (quoted: String)
    ensures
        quoted@ == debug_quoted(text@),
{
    format!("{:?}", text)
}

/// Why a terminal shortcut cannot be bound, as the message says it.
pub open spec fn reserved_reason_spec(r: ReservedShortcut) -> Seq<char> {
    match r {
        ReservedShortcut::EndOfInput => "Ctrl+D is reserved for terminal end-of-input handling"@,
        ReservedShortcut::Suspend => "Ctrl+Z and Ctrl+Shift+Z are reserved for terminal suspend handling"@,
        ReservedShortcut::Interrupt => "Ctrl+C is reserved for copy and terminal interrupt handling"@,
    }
}

/// The message of a key binding fault.
pub open spec fn key_binding_message_spec(fault: KeyBindingFault) -> Seq<char> {
    match fault {
        KeyBindingFault::UnknownKey(key) => "unknown key name "@ + debug_quoted(key),
        KeyBindingFault::DuplicateModifier(key) => "duplicate modifier in key binding for "@
            + debug_quoted(key),
        KeyBindingFault::Reserved(r) => reserved_reason_spec(r),
        KeyBindingFault::Conflict(action, previous) => "key binding "@ + action_name(action)
            + " conflicts with "@ + action_name(previous),
    }
}

impl KeyBindingError {
    /// The message that the fault is reported with.
    pub fn message(&self) -> (text: String)
        ensures
            text@ == key_binding_message_spec(self@),
    {
        let mut text = String::new();
        match self {
            KeyBindingError::UnknownKey(key) => {
                text.append("unknown key name ");
                text.append(debug_text(key.as_str()).as_str());
            },
            KeyBindingError::DuplicateModifier(key) => {
                text.append("duplicate modifier in key binding for ");
                text.append(debug_text(key.as_str()).as_str());
            },
            KeyBindingError::Reserved(r) => match r {
                ReservedShortcut::EndOfInput => text.append(
                    "Ctrl+D is reserved for terminal end-of-input handling",
                ),
                ReservedShortcut::Suspend => text.append(
                    "Ctrl+Z and Ctrl+Shift+Z are reserved for terminal suspend handling",
                ),
                ReservedShortcut::Interrupt => text.append(
                    "Ctrl+C is reserved for copy and terminal interrupt handling",
                ),
            },
            KeyBindingError::Conflict { action, previous } => {
                text.append("key binding ");
                text.append(action.name());
                text.append(" conflicts with ");
                text.append(previous.name());
            },
        }
        text
    }
}

} // verus!
