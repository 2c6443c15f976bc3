//! The decisions of the settings window: which background image a choice of
//! controls selects, and which controls are active.
use crate::binary64::Binary64;
use crate::config::{is_builtin_path, is_default_image_path, OsText};
use crate::settings::{opt_view, SettingsUpdate, TerminalPadding};
use crate::text::{copy_str, is_blank_spec, trim, trim_spec};
use vstd::prelude::*;

verus! {

broadcast use vstd::string::group_string_axioms;

/// The bundled background image is selected.
pub const BACKGROUND_IMAGE_MODE_DEFAULT: u32 = 0;

/// A background image file is selected.
pub const BACKGROUND_IMAGE_MODE_CUSTOM: u32 = 1;

/// No background image is selected.
pub const BACKGROUND_IMAGE_MODE_NONE: u32 = 2;

/// Whether the opacity checkboxes start checked.
pub const OPACITY_CONTROLS_ENABLED_BY_DEFAULT: bool = true;

/// The background image that a mode selects: `builtin` for the bundled
/// image, the trimmed path text for a file unless it is blank, and none
/// otherwise.
pub open spec fn selected_background_image_spec(selected: u32, text: Seq<char>) -> Option<Seq<char>> {
    if selected == BACKGROUND_IMAGE_MODE_DEFAULT {
        Some("builtin"@)
    } else if selected == BACKGROUND_IMAGE_MODE_CUSTOM {
        if is_blank_spec(text) {
            None
        } else {
            Some(trim_spec(text))
        }
    } else {
        None
    }
}

/// The background image that the mode `selected` and the path text select.
pub fn selected_background_image(selected: u32, text: &str) -> (image: Option<String>)
    ensures
        match image {
            Some(p) => selected_background_image_spec(selected, text@) == Some(p@),
            None => selected_background_image_spec(selected, text@) is None,
        },
{
    if selected == BACKGROUND_IMAGE_MODE_DEFAULT {
        Some(copy_str("builtin"))
    } else if selected == BACKGROUND_IMAGE_MODE_CUSTOM {
        let value = trim(text);
        if value.as_str().is_empty() {
            None
        } else {
            Some(value)
        }
    } else {
        None
    }
}

/// The mode of the first checked radio button, or none when none is
/// checked.
pub fn selected_background_image_mode(active: [bool; 3]) -> (mode: u32)
    ensures
        mode == if active[0] {
            0
        } else if active[1] {
            1
        } else {
            BACKGROUND_IMAGE_MODE_NONE
        },
{
    if active[0] {
        0
    } else if active[1] {
        1
    } else if active[2] {
        2
    } else {
        BACKGROUND_IMAGE_MODE_NONE
    }
}

/// The mode that shows a background image setting: `builtin` as a path is
/// the bundled image.
pub fn background_image_mode_setting(background_image: Option<&str>) -> (mode: u32)
    ensures
        mode == match background_image {
            Some(p) => if is_builtin_path(p@) {
                BACKGROUND_IMAGE_MODE_DEFAULT
            } else {
                BACKGROUND_IMAGE_MODE_CUSTOM
            },
            None => BACKGROUND_IMAGE_MODE_NONE,
        },
{
    match background_image {
        Some(p) => if is_default_image_path(&OsText::Unicode(copy_str(p))) {
            BACKGROUND_IMAGE_MODE_DEFAULT
        } else {
            BACKGROUND_IMAGE_MODE_CUSTOM
        },
        None => BACKGROUND_IMAGE_MODE_NONE,
    }
}

/// The text of the path field: a background image file's path, and nothing
/// for the bundled image or no image.
pub fn custom_background_image_text(background_image: Option<&str>) -> (text: String)
    ensures
        text@ == match background_image {
            Some(p) => if is_builtin_path(p@) {
                Seq::<char>::empty()
            } else {
                p@
            },
            None => Seq::<char>::empty(),
        },
{
    match background_image {
        Some(p) => if is_default_image_path(&OsText::Unicode(copy_str(p))) {
            String::new()
        } else {
            copy_str(p)
        },
        None => String::new(),
    }
}

/// The opacity to save: the control's value when its checkbox is checked,
/// else the default.
pub fn selected_opacity(enabled: bool, value: Binary64, default: Binary64) -> (opacity: Binary64)
    ensures
        opacity == if enabled {
            value
        } else {
            default
        },
{
    if enabled {
        value
    } else {
        default
    }
}

/// Which background image controls accept input.
#[derive(Clone, Copy, Debug, PartialEq, Eq, Structural)]
pub struct BackgroundImageControls {
    /// The path field and its file button.
    pub path: bool,
    /// The opacity checkbox.
    pub opacity_checkbox: bool,
    /// The opacity slider.
    pub opacity: bool,
}

/// The path field accepts input for a file; the opacity controls for any
/// image, the slider only while its checkbox is checked.
pub fn background_image_controls(selected: u32, opacity_checked: bool) -> (controls:
    BackgroundImageControls)
    ensures
        controls.path == (selected == BACKGROUND_IMAGE_MODE_CUSTOM),
        controls.opacity_checkbox == (selected != BACKGROUND_IMAGE_MODE_NONE),
        controls.opacity == (selected != BACKGROUND_IMAGE_MODE_NONE && opacity_checked),
{
    let has_image = selected != BACKGROUND_IMAGE_MODE_NONE;
    BackgroundImageControls {
        path: selected == BACKGROUND_IMAGE_MODE_CUSTOM,
        opacity_checkbox: has_image,
        opacity: has_image && opacity_checked,
    }
}

/// The trimmed text of an optional field, or none when it is blank.
pub open spec fn optional_text_spec(value: Seq<char>) -> Option<Seq<char>> {
    if is_blank_spec(value) {
        None
    } else {
        Some(trim_spec(value))
    }
}

/// The trimmed text of an optional field, or none when it is blank.
pub fn optional_text(value: &str) -> (text: Option<String>)
    ensures
        match text {
            Some(t) => optional_text_spec(value@) == Some(t@),
            None => optional_text_spec(value@) is None,
        },
{
    let trimmed = trim(value);
    if trimmed.as_str().is_empty() {
        None
    } else {
        Some(trimmed)
    }
}

/// What the settings window's controls hold when the settings are saved.
pub struct SettingsFormValues {
    /// The text of the shell field.
    pub shell: String,
    /// The selected background image mode.
    pub background_image_mode: u32,
    /// The text of the background image path field.
    pub background_image_path: String,
    /// The text of the font family field.
    pub font_family: String,
    pub font_size: Binary64,
    pub terminal_padding: TerminalPadding,
    pub scrollback_lines: i64,
    /// Whether the background image opacity checkbox is checked.
    pub background_image_opacity_enabled: bool,
    /// The background image opacity slider's value.
    pub background_image_opacity: Binary64,
    /// The background image opacity saved while the checkbox is unchecked.
    pub background_image_opacity_default: Binary64,
    /// Whether the window opacity checkbox is checked.
    pub window_opacity_enabled: bool,
    /// The window opacity slider's value.
    pub window_opacity: Binary64,
    /// The window opacity saved while the checkbox is unchecked.
    pub window_opacity_default: Binary64,
}

impl SettingsFormValues {
    /// The settings update that the controls describe: a blank shell field
    /// means the environment's shell, the background image follows the
    /// selected mode, and an unchecked opacity saves its default.
    pub fn update(&self) -> (update: SettingsUpdate)
        ensures
            opt_view(update.shell) == optional_text_spec(self.shell@),
            opt_view(update.background_image) == selected_background_image_spec(
                self.background_image_mode,
                self.background_image_path@,
            ),
            update.font_family@ == self.font_family@,
            update.font_size == self.font_size,
            update.terminal_padding == self.terminal_padding,
            update.scrollback_lines == self.scrollback_lines,
            update.background_image_opacity == if self.background_image_opacity_enabled {
                self.background_image_opacity
            } else {
                self.background_image_opacity_default
            },
            update.window_opacity == if self.window_opacity_enabled {
                self.window_opacity
            } else {
                self.window_opacity_default
            },
    {
        SettingsUpdate {
            shell: optional_text(self.shell.as_str()),
            background_image: selected_background_image(
                self.background_image_mode,
                self.background_image_path.as_str(),
            ),
            font_family: copy_str(self.font_family.as_str()),
            font_size: self.font_size,
            terminal_padding: self.terminal_padding,
            scrollback_lines: self.scrollback_lines,
            background_image_opacity: selected_opacity(
                self.background_image_opacity_enabled,
                self.background_image_opacity,
                self.background_image_opacity_default,
            ),
            window_opacity: selected_opacity(
                self.window_opacity_enabled,
                self.window_opacity,
                self.window_opacity_default,
            ),
        }
    }
}

} // verus!
