//! The settings schema: defaults, per-key resolution of a user's settings
//! file, migration of older schema versions, validation and editing.
//!
//! A settings document is read as a `JsonValue`; reading and writing files and
//! the JSON text itself happen at the edge of the program.
use crate::binary64::{exact_integer, lemma_moderate, lemma_nonnegative_order, Binary64};
use crate::json::{
    has_key, lemma_lookup_absent, lemma_lookup_at, lemma_lookup_found, lemma_remove_entry,
    lemma_set_entry, lookup, remove_entry, set_entry, Entries, JsonData, JsonNumber, JsonObject,
    JsonValue,
};
use crate::path::{file_name_base, file_name_base_of};
use crate::text::{copy_str, is_blank, is_blank_spec, str_eq, trim, trim_spec};
use vstd::prelude::*;

verus! {

broadcast use vstd::string::group_string_axioms;

/// The settings file's name inside the profile's configuration directory.
pub const SETTINGS_FILE: &'static str = "settings.json";

/// The schema version this library reads and writes.
pub const CURRENT_SCHEMA_VERSION: u32 = 3;

/// The padding that a malformed padding value takes when a settings object is
/// read directly.
pub const DEFAULT_PADDING: u16 = 0;

pub const MAX_PADDING: u16 = 128;

pub const MAX_SCROLLBACK_LINES: i64 = 1_000_000;

/// 6.0 as a binary64 encoding.
pub const MIN_FONT_SIZE_BITS: u64 = 0x4018_0000_0000_0000;

/// 72.0 as a binary64 encoding.
pub const MAX_FONT_SIZE_BITS: u64 = 0x4052_0000_0000_0000;

/// 0.0 as a binary64 encoding.
pub const ZERO_BITS: u64 = 0;

/// 0.6 as a binary64 encoding.
pub const MAX_BACKGROUND_IMAGE_OPACITY_BITS: u64 = 0x3FE3_3333_3333_3333;

/// 0.6 as a binary64 encoding.
pub const MIN_WINDOW_OPACITY_BITS: u64 = 0x3FE3_3333_3333_3333;

/// 1.0 as a binary64 encoding.
pub const MAX_WINDOW_OPACITY_BITS: u64 = 0x3FF0_0000_0000_0000;

/// 12.0 as a binary64 encoding: the embedded default font size.
pub const DEFAULT_FONT_SIZE_BITS: u64 = 0x4028_0000_0000_0000;

/// 0.1 as a binary64 encoding: the embedded default background image opacity.
pub const DEFAULT_BACKGROUND_IMAGE_OPACITY_BITS: u64 = 0x3FB9_9999_9999_999A;

/// 1.0 as a binary64 encoding: the embedded default window opacity.
pub const DEFAULT_WINDOW_OPACITY_BITS: u64 = 0x3FF0_0000_0000_0000;

/// The embedded default padding on every side.
pub const DEFAULT_SIDE_PADDING: u16 = 16;

/// The embedded default scrollback length.
pub const DEFAULT_SCROLLBACK_LINES: i64 = 10_000;

/// A number given by its binary64 encoding.
pub open spec fn float(bits: u64) -> Binary64 {
    Binary64 { bits }
}

/// Every bound that settings use is finite and below 2^53 in magnitude.
pub proof fn lemma_bounds_moderate()
    ensures
        float(MIN_FONT_SIZE_BITS).spec_moderate(),
        float(MAX_FONT_SIZE_BITS).spec_moderate(),
        float(ZERO_BITS).spec_moderate(),
        float(MAX_BACKGROUND_IMAGE_OPACITY_BITS).spec_moderate(),
        float(MIN_WINDOW_OPACITY_BITS).spec_moderate(),
        float(MAX_WINDOW_OPACITY_BITS).spec_moderate(),
{
    lemma_moderate(float(MIN_FONT_SIZE_BITS));
    lemma_moderate(float(MAX_FONT_SIZE_BITS));
    lemma_moderate(float(ZERO_BITS));
    lemma_moderate(float(MAX_BACKGROUND_IMAGE_OPACITY_BITS));
    lemma_moderate(float(MIN_WINDOW_OPACITY_BITS));
    lemma_moderate(float(MAX_WINDOW_OPACITY_BITS));
}

/// The terminal color theme.
#[derive(Clone, Copy, Debug, PartialEq, Eq, Structural)]
pub enum Theme {
    OneHalfDark,
}

/// How the terminal header is shown.
#[derive(Clone, Copy, Debug, PartialEq, Eq, Structural)]
pub enum HeaderMode {
    /// The full header with its tabs and controls.
    Full,
    /// A compact header.
    Mini,
    /// No header.
    Hidden,
}

/// The name of a theme in settings files.
pub open spec fn theme_name() -> Seq<char> {
    "one-half-dark"@
}

/// Inner terminal padding in pixels.
#[derive(Clone, Copy, Debug, Default, PartialEq, Eq, Structural)]
pub struct TerminalPadding {
    top: u16,
    right: u16,
    bottom: u16,
    left: u16,
}

impl TerminalPadding {
    pub closed spec fn spec_top(self) -> u16 {
        self.top
    }

    pub closed spec fn spec_right(self) -> u16 {
        self.right
    }

    pub closed spec fn spec_bottom(self) -> u16 {
        self.bottom
    }

    pub closed spec fn spec_left(self) -> u16 {
        self.left
    }

    pub fn new(top: u16, right: u16, bottom: u16, left: u16) -> (padding: TerminalPadding)
        ensures
            padding.spec_top() == top,
            padding.spec_right() == right,
            padding.spec_bottom() == bottom,
            padding.spec_left() == left,
    {
        TerminalPadding { top, right, bottom, left }
    }

    pub fn top(self) -> (top: u16)
        ensures
            top == self.spec_top(),
    {
        self.top
    }

    pub fn right(self) -> (right: u16)
        ensures
            right == self.spec_right(),
    {
        self.right
    }

    pub fn bottom(self) -> (bottom: u16)
        ensures
            bottom == self.spec_bottom(),
    {
        self.bottom
    }

    pub fn left(self) -> (left: u16)
        ensures
            left == self.spec_left(),
    {
        self.left
    }
}

/// The padding that a padding key takes when a settings object is read
/// directly and the key is absent or malformed.
pub fn default_padding() -> (padding: u16)
    ensures
        padding == DEFAULT_PADDING,
{
    DEFAULT_PADDING
}

/// `value` when it is at most `MAX_PADDING`, else `default`.
pub fn padding_or_default(value: u16, default: u16) -> (padding: u16)
    ensures
        padding == if value <= MAX_PADDING {
            value
        } else {
            default
        },
{
    if value <= MAX_PADDING {
        value
    } else {
        default
    }
}

/// A key of the settings schema: the keys that every settings file holds,
/// in the order of their names, then the optional `header_mode`.
#[derive(Clone, Copy, Debug, PartialEq, Eq, Structural)]
pub enum SettingKey {
    BackgroundImage,
    BackgroundImageOpacity,
    FontFamily,
    FontSize,
    PaddingBottom,
    PaddingLeft,
    PaddingRight,
    PaddingTop,
    SchemaVersion,
    ScrollbackLines,
    Shell,
    Theme,
    WindowOpacity,
    HeaderMode,
}

/// The number of keys in the schema.
pub const SETTING_KEY_COUNT: usize = 14;

/// The number of keys that every settings file holds: all but
/// `header_mode`.
pub const WRITTEN_KEY_COUNT: usize = 13;

/// The key at position `i`.
pub open spec fn key_at(i: int) -> SettingKey {
    if i == 0 {
        SettingKey::BackgroundImage
    } else if i == 1 {
        SettingKey::BackgroundImageOpacity
    } else if i == 2 {
        SettingKey::FontFamily
    } else if i == 3 {
        SettingKey::FontSize
    } else if i == 4 {
        SettingKey::PaddingBottom
    } else if i == 5 {
        SettingKey::PaddingLeft
    } else if i == 6 {
        SettingKey::PaddingRight
    } else if i == 7 {
        SettingKey::PaddingTop
    } else if i == 8 {
        SettingKey::SchemaVersion
    } else if i == 9 {
        SettingKey::ScrollbackLines
    } else if i == 10 {
        SettingKey::Shell
    } else if i == 11 {
        SettingKey::Theme
    } else if i == 12 {
        SettingKey::WindowOpacity
    } else {
        SettingKey::HeaderMode
    }
}

/// The position of `k`.
pub open spec fn key_index(k: SettingKey) -> int {
    match k {
        SettingKey::BackgroundImage => 0,
        SettingKey::BackgroundImageOpacity => 1,
        SettingKey::FontFamily => 2,
        SettingKey::FontSize => 3,
        SettingKey::PaddingBottom => 4,
        SettingKey::PaddingLeft => 5,
        SettingKey::PaddingRight => 6,
        SettingKey::PaddingTop => 7,
        SettingKey::SchemaVersion => 8,
        SettingKey::ScrollbackLines => 9,
        SettingKey::Shell => 10,
        SettingKey::Theme => 11,
        SettingKey::WindowOpacity => 12,
        SettingKey::HeaderMode => 13,
    }
}

pub open spec fn key_name(k: SettingKey) -> Seq<char> {
    match k {
        SettingKey::BackgroundImage => "background_image"@,
        SettingKey::BackgroundImageOpacity => "background_image_opacity"@,
        SettingKey::FontFamily => "font_family"@,
        SettingKey::FontSize => "font_size"@,
        SettingKey::HeaderMode => "header_mode"@,
        SettingKey::PaddingBottom => "padding_bottom"@,
        SettingKey::PaddingLeft => "padding_left"@,
        SettingKey::PaddingRight => "padding_right"@,
        SettingKey::PaddingTop => "padding_top"@,
        SettingKey::SchemaVersion => "schema_version"@,
        SettingKey::ScrollbackLines => "scrollback_lines"@,
        SettingKey::Shell => "shell"@,
        SettingKey::Theme => "theme"@,
        SettingKey::WindowOpacity => "window_opacity"@,
    }
}

/// The key named `name`, if the schema has one.
pub open spec fn key_named(name: Seq<char>) -> Option<SettingKey> {
    if name == key_name(SettingKey::BackgroundImage) {
        Some(SettingKey::BackgroundImage)
    } else if name == key_name(SettingKey::BackgroundImageOpacity) {
        Some(SettingKey::BackgroundImageOpacity)
    } else if name == key_name(SettingKey::FontFamily) {
        Some(SettingKey::FontFamily)
    } else if name == key_name(SettingKey::FontSize) {
        Some(SettingKey::FontSize)
    } else if name == key_name(SettingKey::HeaderMode) {
        Some(SettingKey::HeaderMode)
    } else if name == key_name(SettingKey::PaddingBottom) {
        Some(SettingKey::PaddingBottom)
    } else if name == key_name(SettingKey::PaddingLeft) {
        Some(SettingKey::PaddingLeft)
    } else if name == key_name(SettingKey::PaddingRight) {
        Some(SettingKey::PaddingRight)
    } else if name == key_name(SettingKey::PaddingTop) {
        Some(SettingKey::PaddingTop)
    } else if name == key_name(SettingKey::SchemaVersion) {
        Some(SettingKey::SchemaVersion)
    } else if name == key_name(SettingKey::ScrollbackLines) {
        Some(SettingKey::ScrollbackLines)
    } else if name == key_name(SettingKey::Shell) {
        Some(SettingKey::Shell)
    } else if name == key_name(SettingKey::Theme) {
        Some(SettingKey::Theme)
    } else if name == key_name(SettingKey::WindowOpacity) {
        Some(SettingKey::WindowOpacity)
    } else {
        None
    }
}

/// Names and positions of the keys agree.
pub proof fn lemma_key_names()
    ensures
        forall|k: SettingKey| #[trigger] key_named(key_name(k)) == Some(k),
        forall|k: SettingKey| key_at(#[trigger] key_index(k)) == k,
        forall|k: SettingKey| 0 <= #[trigger] key_index(k) < 14,
        forall|i: int| 0 <= i < 14 ==> key_index(#[trigger] key_at(i)) == i,
        forall|k1: SettingKey, k2: SettingKey|
            k1 != k2 ==> #[trigger] key_name(k1) != #[trigger] key_name(k2),
{
    reveal_strlit("background_image");
    reveal_strlit("background_image_opacity");
    reveal_strlit("font_family");
    reveal_strlit("font_size");
    reveal_strlit("header_mode");
    reveal_strlit("padding_bottom");
    reveal_strlit("padding_left");
    reveal_strlit("padding_right");
    reveal_strlit("padding_top");
    reveal_strlit("schema_version");
    reveal_strlit("scrollback_lines");
    reveal_strlit("shell");
    reveal_strlit("theme");
    reveal_strlit("window_opacity");
    assert forall|k: SettingKey| #[trigger] key_named(key_name(k)) == Some(k) by {
        match k {
            SettingKey::BackgroundImage => {},
            SettingKey::BackgroundImageOpacity => {
                assert(key_name(k).len() != key_name(SettingKey::BackgroundImage).len());
            },
            SettingKey::FontFamily => {
                assert(key_name(k)[0] != key_name(SettingKey::BackgroundImage)[0]);
                assert(key_name(k)[0] != key_name(SettingKey::BackgroundImageOpacity)[0]);
            },
            SettingKey::FontSize => {
                assert(key_name(k)[0] != key_name(SettingKey::BackgroundImage)[0]);
                assert(key_name(k)[0] != key_name(SettingKey::BackgroundImageOpacity)[0]);
                assert(key_name(k)[5] != key_name(SettingKey::FontFamily)[5]);
            },
            _ => {
                assert(key_name(k).len() != key_name(SettingKey::BackgroundImage).len()
                    || key_name(k)[0] != key_name(SettingKey::BackgroundImage)[0]);
                assert(key_name(k).len() != key_name(SettingKey::BackgroundImageOpacity).len()
                    || key_name(k)[0] != key_name(SettingKey::BackgroundImageOpacity)[0]);
                assert(key_name(k)[0] != key_name(SettingKey::FontFamily)[0]);
                assert(key_name(k)[0] != key_name(SettingKey::FontSize)[0]);
                if k != SettingKey::HeaderMode {
                    assert(key_name(k)[0] != key_name(SettingKey::HeaderMode)[0]);
                }
                if k != SettingKey::PaddingBottom {
                    assert(key_name(k).len() != key_name(SettingKey::PaddingBottom).len()
                        || key_name(k)[0] != key_name(SettingKey::PaddingBottom)[0]);
                }
                if k != SettingKey::PaddingLeft && k != SettingKey::PaddingBottom {
                    assert(key_name(k).len() != key_name(SettingKey::PaddingLeft).len()
                        || key_name(k)[0] != key_name(SettingKey::PaddingLeft)[0]);
                }
                if k != SettingKey::PaddingRight && k != SettingKey::PaddingBottom && k
                    != SettingKey::PaddingLeft {
                    assert(key_name(k).len() != key_name(SettingKey::PaddingRight).len()
                        || key_name(k)[0] != key_name(SettingKey::PaddingRight)[0]);
                }
                if k != SettingKey::PaddingTop && k != SettingKey::PaddingBottom && k
                    != SettingKey::PaddingLeft && k != SettingKey::PaddingRight {
                    assert(key_name(k).len() != key_name(SettingKey::PaddingTop).len()
                        || key_name(k)[0] != key_name(SettingKey::PaddingTop)[0]);
                }
                if k == SettingKey::ScrollbackLines {
                    assert(key_name(k)[2] != key_name(SettingKey::SchemaVersion)[2]);
                }
                if k == SettingKey::Shell {
                    assert(key_name(k)[1] != key_name(SettingKey::SchemaVersion)[1]);
                }
                if k == SettingKey::Shell {
                    assert(key_name(k)[1] != key_name(SettingKey::ScrollbackLines)[1]);
                }
                if k == SettingKey::WindowOpacity {
                    assert(key_name(k)[0] != key_name(SettingKey::Theme)[0]);
                }
                if k == SettingKey::Theme || k == SettingKey::WindowOpacity {
                    assert(key_name(k)[0] != key_name(SettingKey::Shell)[0]);
                    assert(key_name(k)[0] != key_name(SettingKey::SchemaVersion)[0]);
                    assert(key_name(k)[0] != key_name(SettingKey::ScrollbackLines)[0]);
                }
            },
        }
    }
    assert forall|k1: SettingKey, k2: SettingKey|
        k1 != k2 implies #[trigger] key_name(k1) != #[trigger] key_name(k2) by {
        assert(key_named(key_name(k1)) == Some(k1));
        assert(key_named(key_name(k2)) == Some(k2));
    }
}

impl SettingKey {
    pub fn name(self) -> (name: &'static str)
        ensures
            name@ == key_name(self),
    {
        match self {
            SettingKey::BackgroundImage => "background_image",
            SettingKey::BackgroundImageOpacity => "background_image_opacity",
            SettingKey::FontFamily => "font_family",
            SettingKey::FontSize => "font_size",
            SettingKey::HeaderMode => "header_mode",
            SettingKey::PaddingBottom => "padding_bottom",
            SettingKey::PaddingLeft => "padding_left",
            SettingKey::PaddingRight => "padding_right",
            SettingKey::PaddingTop => "padding_top",
            SettingKey::SchemaVersion => "schema_version",
            SettingKey::ScrollbackLines => "scrollback_lines",
            SettingKey::Shell => "shell",
            SettingKey::Theme => "theme",
            SettingKey::WindowOpacity => "window_opacity",
        }
    }

    /// The key at position `i`.
    pub fn at(i: usize) -> (key: SettingKey)
        requires
            i < SETTING_KEY_COUNT,
        ensures
            key == key_at(i as int),
    {
        if i == 0 {
            SettingKey::BackgroundImage
        } else if i == 1 {
            SettingKey::BackgroundImageOpacity
        } else if i == 2 {
            SettingKey::FontFamily
        } else if i == 3 {
            SettingKey::FontSize
        } else if i == 4 {
            SettingKey::PaddingBottom
        } else if i == 5 {
            SettingKey::PaddingLeft
        } else if i == 6 {
            SettingKey::PaddingRight
        } else if i == 7 {
            SettingKey::PaddingTop
        } else if i == 8 {
            SettingKey::SchemaVersion
        } else if i == 9 {
            SettingKey::ScrollbackLines
        } else if i == 10 {
            SettingKey::Shell
        } else if i == 11 {
            SettingKey::Theme
        } else if i == 12 {
            SettingKey::WindowOpacity
        } else {
            SettingKey::HeaderMode
        }
    }

    pub fn index(self) -> (i: usize)
        ensures
            i as int == key_index(self),
    {
        match self {
            SettingKey::BackgroundImage => 0,
            SettingKey::BackgroundImageOpacity => 1,
            SettingKey::FontFamily => 2,
            SettingKey::FontSize => 3,
            SettingKey::PaddingBottom => 4,
            SettingKey::PaddingLeft => 5,
            SettingKey::PaddingRight => 6,
            SettingKey::PaddingTop => 7,
            SettingKey::SchemaVersion => 8,
            SettingKey::ScrollbackLines => 9,
            SettingKey::Shell => 10,
            SettingKey::Theme => 11,
            SettingKey::WindowOpacity => 12,
            SettingKey::HeaderMode => 13,
        }
    }

    /// The key named `name`, if the schema has one.
    pub fn named(name: &str) -> (key: Option<SettingKey>)
        ensures
            key == key_named(name@),
    {
        let mut i: usize = 0;
        while i < SETTING_KEY_COUNT
            invariant
                i <= 14,
                forall|j: int| 0 <= j < i ==> name@ != key_name(#[trigger] key_at(j)),
            decreases 14 - i,
        {
            let k = SettingKey::at(i);
            if str_eq(name, k.name()) {
                proof {
                    lemma_key_names();
                }
                return Some(k);
            }
            i = i + 1;
        }
        proof {
            lemma_key_names();
            assert(name@ != key_name(key_at(0)));
            assert(name@ != key_name(key_at(1)));
            assert(name@ != key_name(key_at(2)));
            assert(name@ != key_name(key_at(3)));
            assert(name@ != key_name(key_at(4)));
            assert(name@ != key_name(key_at(5)));
            assert(name@ != key_name(key_at(6)));
            assert(name@ != key_name(key_at(7)));
            assert(name@ != key_name(key_at(8)));
            assert(name@ != key_name(key_at(9)));
            assert(name@ != key_name(key_at(10)));
            assert(name@ != key_name(key_at(11)));
            assert(name@ != key_name(key_at(12)));
            assert(name@ != key_name(key_at(13)));
        }
        None
    }
}

/// A value that names the theme: its name as text, or an object whose only
/// entry is the name with the value `null`.
pub open spec fn is_theme_value(v: JsonData) -> bool {
    match v {
        JsonData::Text(s) => s == theme_name(),
        JsonData::Object(Some(k)) => k == theme_name(),
        _ => false,
    }
}

/// The name of a header mode in settings files.
pub open spec fn header_mode_name(m: HeaderMode) -> Seq<char> {
    match m {
        HeaderMode::Full => "full"@,
        HeaderMode::Mini => "mini"@,
        HeaderMode::Hidden => "hidden"@,
    }
}

/// The header mode that a name selects: its own name, or `show` for the
/// full header and `hide` for none.
pub open spec fn header_mode_named(name: Seq<char>) -> Option<HeaderMode> {
    if name == "full"@ || name == "show"@ {
        Some(HeaderMode::Full)
    } else if name == "mini"@ {
        Some(HeaderMode::Mini)
    } else if name == "hidden"@ || name == "hide"@ {
        Some(HeaderMode::Hidden)
    } else {
        None
    }
}

/// The header mode that a value names: a name as text, or an object whose
/// only entry is the name with the value `null`.
pub open spec fn header_mode_of(v: JsonData) -> Option<HeaderMode> {
    match v {
        JsonData::Text(s) => header_mode_named(s),
        JsonData::Object(Some(k)) => header_mode_named(k),
        _ => None,
    }
}

/// The header mode that a key's value selects; none when the key is
/// absent or `null`.
pub open spec fn selected_header_mode(v: Option<JsonData>) -> Option<HeaderMode> {
    match v {
        Some(v) => header_mode_of(v),
        None => None,
    }
}

/// Header mode names are read back as the mode they name.
pub proof fn lemma_header_mode_names()
    ensures
        forall|m: HeaderMode| #[trigger] header_mode_named(header_mode_name(m)) == Some(m),
{
    reveal_strlit("full");
    reveal_strlit("show");
    reveal_strlit("mini");
    reveal_strlit("hidden");
    reveal_strlit("hide");
    assert("mini"@[0] != "full"@[0] && "mini"@[0] != "show"@[0]);
    assert("hidden"@[0] != "full"@[0] && "hidden"@[0] != "show"@[0] && "hidden"@[0] != "mini"@[0]);
}

impl HeaderMode {
    /// The mode's name in settings files.
    pub fn name(self) -> (name: &'static str)
        ensures
            name@ == header_mode_name(self),
    {
        match self {
            HeaderMode::Full => "full",
            HeaderMode::Mini => "mini",
            HeaderMode::Hidden => "hidden",
        }
    }

    /// The mode that `name` selects.
    pub fn named(name: &str) -> (mode: Option<HeaderMode>)
        ensures
            mode == header_mode_named(name@),
    {
        if str_eq(name, "full") || str_eq(name, "show") {
            Some(HeaderMode::Full)
        } else if str_eq(name, "mini") {
            Some(HeaderMode::Mini)
        } else if str_eq(name, "hidden") || str_eq(name, "hide") {
            Some(HeaderMode::Hidden)
        } else {
            None
        }
    }
}

fn header_mode_value(value: &JsonValue) -> (mode: Option<HeaderMode>)
    ensures
        mode == header_mode_of(value@),
{
    match value {
        JsonValue::Text(s) => HeaderMode::named(s.as_str()),
        JsonValue::Object(Some(k)) => HeaderMode::named(k.as_str()),
        _ => None,
    }
}

/// Whether a JSON number, read as a binary64 value, lies in `[lo, hi]`.
pub open spec fn number_in(v: JsonData, lo: u64, hi: u64) -> bool {
    match v {
        JsonData::Number(n) => n.spec_in_range(float(lo), float(hi)),
        _ => false,
    }
}

/// What the value `v` of key `k` in a user's settings file resolves to, or
/// `None` when `v` is not valid for `k`.
pub open spec fn normalized(k: SettingKey, v: JsonData) -> Option<JsonData> {
    match k {
        SettingKey::SchemaVersion => match v {
            JsonData::Number(n) => if n.spec_as_u64() == Some(3u64) {
                Some(JsonData::Number(JsonNumber::Unsigned(3)))
            } else {
                None
            },
            _ => None,
        },
        SettingKey::Shell | SettingKey::BackgroundImage => match v {
            JsonData::Null => Some(JsonData::Null),
            JsonData::Text(s) => if is_blank_spec(s) {
                Some(JsonData::Null)
            } else {
                Some(v)
            },
            _ => None,
        },
        SettingKey::Theme => if is_theme_value(v) {
            Some(v)
        } else {
            None
        },
        SettingKey::HeaderMode => if v is Null {
            Some(JsonData::Null)
        } else {
            match header_mode_of(v) {
                Some(m) => Some(JsonData::Text(header_mode_name(m))),
                None => None,
            }
        },
        SettingKey::FontFamily => match v {
            JsonData::Text(s) => if is_blank_spec(s) {
                None
            } else {
                Some(v)
            },
            _ => None,
        },
        SettingKey::FontSize => if number_in(v, MIN_FONT_SIZE_BITS, MAX_FONT_SIZE_BITS) {
            Some(v)
        } else {
            None
        },
        SettingKey::PaddingTop | SettingKey::PaddingRight | SettingKey::PaddingBottom
        | SettingKey::PaddingLeft => match v {
            JsonData::Number(JsonNumber::Unsigned(u)) => if u <= MAX_PADDING {
                Some(v)
            } else {
                None
            },
            _ => None,
        },
        SettingKey::ScrollbackLines => match v {
            JsonData::Number(n) => match n.spec_as_i64() {
                Some(i) => if 0 <= i <= MAX_SCROLLBACK_LINES {
                    Some(JsonData::Number(JsonNumber::Unsigned(i as u64)))
                } else {
                    None
                },
                None => None,
            },
            _ => None,
        },
        SettingKey::BackgroundImageOpacity => if number_in(
            v,
            ZERO_BITS,
            MAX_BACKGROUND_IMAGE_OPACITY_BITS,
        ) {
            Some(v)
        } else {
            None
        },
        SettingKey::WindowOpacity => if number_in(
            v,
            MIN_WINDOW_OPACITY_BITS,
            MAX_WINDOW_OPACITY_BITS,
        ) {
            Some(v)
        } else {
            None
        },
    }
}

fn number_in_range(value: &JsonValue, lo: u64, hi: u64) -> (result: bool)
    requires
        float(lo).spec_moderate(),
        float(hi).spec_moderate(),
    ensures
        result == number_in(value@, lo, hi),
{
    match value {
        JsonValue::Number(n) => n.in_range(Binary64::from_bits(lo), Binary64::from_bits(hi)),
        _ => false,
    }
}

fn is_theme(value: &JsonValue) -> (result: bool)
    ensures
        result == is_theme_value(value@),
{
    match value {
        JsonValue::Text(s) => str_eq(s.as_str(), "one-half-dark"),
        JsonValue::Object(Some(k)) => str_eq(k.as_str(), "one-half-dark"),
        _ => false,
    }
}

/// The value that `value` of key `key` resolves to, or `None` when the key is
/// not in the schema or the value is not valid for it.
pub fn normalize_setting(key: &str, value: &JsonValue) -> (result: Option<JsonValue>)
    ensures
        match key_named(key@) {
            Some(k) => match result {
                Some(r) => normalized(k, value@) == Some(r@),
                None => normalized(k, value@) is None,
            },
            None => result is None,
        },
{
    match SettingKey::named(key) {
        Some(k) => normalize_value(k, value),
        None => None,
    }
}

/// The value that `value` of key `k` resolves to, or `None` when it is not
/// valid for `k`.
pub fn normalize_value(k: SettingKey, value: &JsonValue) -> (result: Option<JsonValue>)
    ensures
        match result {
            Some(r) => normalized(k, value@) == Some(r@),
            None => normalized(k, value@) is None,
        },
{
    proof {
        lemma_bounds_moderate();
    }
    match k {
        SettingKey::SchemaVersion => match value {
            JsonValue::Number(n) => if n.as_u64() == Some(3u64) {
                Some(JsonValue::Number(JsonNumber::Unsigned(3)))
            } else {
                None
            },
            _ => None,
        },
        SettingKey::Shell | SettingKey::BackgroundImage => match value {
            JsonValue::Null => Some(JsonValue::Null),
            JsonValue::Text(s) => if is_blank(s.as_str()) {
                Some(JsonValue::Null)
            } else {
                Some(value.duplicate())
            },
            _ => None,
        },
        SettingKey::Theme => if is_theme(value) {
            Some(value.duplicate())
        } else {
            None
        },
        SettingKey::HeaderMode => match value {
            JsonValue::Null => Some(JsonValue::Null),
            _ => match header_mode_value(value) {
                Some(m) => Some(JsonValue::text(m.name())),
                None => None,
            },
        },
        SettingKey::FontFamily => match value {
            JsonValue::Text(s) => if is_blank(s.as_str()) {
                None
            } else {
                Some(value.duplicate())
            },
            _ => None,
        },
        SettingKey::FontSize => if number_in_range(value, MIN_FONT_SIZE_BITS, MAX_FONT_SIZE_BITS) {
            Some(value.duplicate())
        } else {
            None
        },
        SettingKey::PaddingTop | SettingKey::PaddingRight | SettingKey::PaddingBottom
        | SettingKey::PaddingLeft => match value {
            JsonValue::Number(JsonNumber::Unsigned(u)) => if *u <= MAX_PADDING as u64 {
                Some(value.duplicate())
            } else {
                None
            },
            _ => None,
        },
        SettingKey::ScrollbackLines => match value {
            JsonValue::Number(n) => match n.as_i64() {
                Some(i) => if 0 <= i && i <= MAX_SCROLLBACK_LINES {
                    Some(JsonValue::Number(JsonNumber::Unsigned(i as u64)))
                } else {
                    None
                },
                None => None,
            },
            _ => None,
        },
        SettingKey::BackgroundImageOpacity => if number_in_range(
            value,
            ZERO_BITS,
            MAX_BACKGROUND_IMAGE_OPACITY_BITS,
        ) {
            Some(value.duplicate())
        } else {
            None
        },
        SettingKey::WindowOpacity => if number_in_range(
            value,
            MIN_WINDOW_OPACITY_BITS,
            MAX_WINDOW_OPACITY_BITS,
        ) {
            Some(value.duplicate())
        } else {
            None
        },
    }
}

/// What is wrong with a settings document that cannot be read as settings.
#[derive(Clone, Debug, PartialEq)]
pub enum ParseProblem {
    /// A key that the schema does not have.
    UnknownField(String),
    /// A key whose value has the wrong type or an unsupported value.
    InvalidValue(String),
    /// A required key that is absent.
    MissingField(SettingKey),
}

/// `ParseProblem` in specifications.
pub enum ParseFault {
    UnknownField(Seq<char>),
    InvalidValue(Seq<char>),
    MissingField(SettingKey),
}

impl View for ParseProblem {
    type V = ParseFault;

    open spec fn view(&self) -> ParseFault {
        match self {
            ParseProblem::UnknownField(k) => ParseFault::UnknownField(k@),
            ParseProblem::InvalidValue(k) => ParseFault::InvalidValue(k@),
            ParseProblem::MissingField(k) => ParseFault::MissingField(*k),
        }
    }
}

/// A value outside the schema's limits, in the order settings are checked.
#[derive(Clone, Copy, Debug, PartialEq, Eq, Structural)]
pub enum InvalidSetting {
    /// The schema version that was found.
    SchemaVersion(u32),
    Shell,
    FontFamily,
    FontSize,
    ScrollbackLines,
    BackgroundImageOpacity,
    WindowOpacity,
}

/// Why settings could not be located, read, parsed, validated or written.
/// `path` is the displayed path of the file concerned; `reason` is the
/// message of the system error.
#[derive(Clone, Debug, PartialEq)]
#[allow(inconsistent_fields)]
pub enum SettingsError {
    ConfigDirectoryUnavailable,
    Read { path: String, reason: String },
    Parse { path: String, problem: ParseProblem },
    Invalid { path: String, reason: InvalidSetting },
    CreateDirectory { path: String, reason: String },
    Write { path: String, reason: String },
    Serialize(String),
}

/// Whether value `v` of key `k` can be read into its field.
pub open spec fn readable(k: SettingKey, v: JsonData) -> bool {
    match k {
        SettingKey::SchemaVersion => match v {
            JsonData::Number(JsonNumber::Unsigned(u)) => u <= u32::MAX,
            _ => false,
        },
        SettingKey::Shell | SettingKey::BackgroundImage => v is Null || v is Text,
        SettingKey::Theme => is_theme_value(v),
        SettingKey::HeaderMode => v is Null || header_mode_of(v) is Some,
        SettingKey::FontFamily => v is Text,
        SettingKey::FontSize | SettingKey::BackgroundImageOpacity | SettingKey::WindowOpacity => v is Number,
        SettingKey::ScrollbackLines => match v {
            JsonData::Number(n) => n.spec_as_i64() is Some,
            _ => false,
        },
        SettingKey::PaddingTop | SettingKey::PaddingRight | SettingKey::PaddingBottom
        | SettingKey::PaddingLeft => true,
    }
}

/// Whether the settings need a value for `k`.
pub open spec fn required(k: SettingKey) -> bool {
    match k {
        SettingKey::SchemaVersion | SettingKey::Theme | SettingKey::FontFamily
        | SettingKey::FontSize | SettingKey::ScrollbackLines | SettingKey::BackgroundImageOpacity
        | SettingKey::WindowOpacity => true,
        _ => false,
    }
}

/// The required keys, in the order the settings declare their fields.
pub open spec fn required_order() -> Seq<SettingKey> {
    seq![
        SettingKey::SchemaVersion,
        SettingKey::Theme,
        SettingKey::FontFamily,
        SettingKey::FontSize,
        SettingKey::ScrollbackLines,
        SettingKey::BackgroundImageOpacity,
        SettingKey::WindowOpacity,
    ]
}

/// The value of each key, `None` where the key is absent.
pub type Lookup = spec_fn(SettingKey) -> Option<JsonData>;

/// The first required key, in declaration order, that has no value.
pub open spec fn first_missing(look: Lookup, from: int) -> Option<SettingKey>
    decreases 7 - from,
{
    if from < 0 || from >= 7 {
        None
    } else if look(required_order()[from]) is None {
        Some(required_order()[from])
    } else {
        first_missing(look, from + 1)
    }
}

pub open spec fn text_of(v: Option<JsonData>) -> Option<Seq<char>> {
    match v {
        Some(JsonData::Text(s)) => Some(s),
        _ => None,
    }
}

pub open spec fn number_of(v: Option<JsonData>) -> JsonNumber {
    match v {
        Some(JsonData::Number(n)) => n,
        _ => JsonNumber::Unsigned(0),
    }
}

/// The binary64 number that a JSON number reads as, for numbers of magnitude
/// below 2^53.
pub open spec fn binary64_of(n: JsonNumber) -> Binary64 {
    match n {
        JsonNumber::Unsigned(u) => exact_integer(u as int),
        JsonNumber::Negative(i) => exact_integer(i as int),
        JsonNumber::Float(f) => f,
    }
}

/// How a padding value reads: a non-negative integer up to `MAX_PADDING`,
/// else `DEFAULT_PADDING`.
pub open spec fn padding_of(v: Option<JsonData>) -> u16 {
    match v {
        Some(JsonData::Number(JsonNumber::Unsigned(u))) => if u <= MAX_PADDING {
            u as u16
        } else {
            DEFAULT_PADDING
        },
        _ => DEFAULT_PADDING,
    }
}

pub open spec fn schema_of(v: Option<JsonData>) -> u32 {
    match v {
        Some(JsonData::Number(JsonNumber::Unsigned(u))) => u as u32,
        _ => 0,
    }
}

pub open spec fn integer_of(v: Option<JsonData>) -> i64 {
    match v {
        Some(JsonData::Number(n)) => match n.spec_as_i64() {
            Some(i) => i,
            None => 0,
        },
        _ => 0,
    }
}

/// The first value outside the schema's limits, in the order they are
/// checked.
pub open spec fn first_invalid(look: Lookup) -> Option<InvalidSetting> {
    let font_family = match text_of(look(SettingKey::FontFamily)) {
        Some(s) => s,
        None => Seq::empty(),
    };
    if schema_of(look(SettingKey::SchemaVersion)) != CURRENT_SCHEMA_VERSION {
        Some(InvalidSetting::SchemaVersion(schema_of(look(SettingKey::SchemaVersion))))
    } else if text_of(look(SettingKey::Shell)) matches Some(s) && is_blank_spec(s) {
        Some(InvalidSetting::Shell)
    } else if is_blank_spec(font_family) {
        Some(InvalidSetting::FontFamily)
    } else if !number_of(look(SettingKey::FontSize)).spec_in_range(
        float(MIN_FONT_SIZE_BITS),
        float(MAX_FONT_SIZE_BITS),
    ) {
        Some(InvalidSetting::FontSize)
    } else if !(0 <= integer_of(look(SettingKey::ScrollbackLines)) <= MAX_SCROLLBACK_LINES) {
        Some(InvalidSetting::ScrollbackLines)
    } else if !number_of(look(SettingKey::BackgroundImageOpacity)).spec_in_range(
        float(ZERO_BITS),
        float(MAX_BACKGROUND_IMAGE_OPACITY_BITS),
    ) {
        Some(InvalidSetting::BackgroundImageOpacity)
    } else if !number_of(look(SettingKey::WindowOpacity)).spec_in_range(
        float(MIN_WINDOW_OPACITY_BITS),
        float(MAX_WINDOW_OPACITY_BITS),
    ) {
        Some(InvalidSetting::WindowOpacity)
    } else {
        None
    }
}

/// The settings in specifications.
pub struct SettingsView {
    pub schema_version: u32,
    pub shell: Option<Seq<char>>,
    pub background_image: Option<Seq<char>>,
    pub theme: Theme,
    /// The header mode, when one is selected; the full header otherwise.
    pub header_mode: Option<HeaderMode>,
    pub font_family: Seq<char>,
    pub font_size: Binary64,
    pub padding_top: u16,
    pub padding_right: u16,
    pub padding_bottom: u16,
    pub padding_left: u16,
    pub scrollback_lines: i64,
    pub background_image_opacity: Binary64,
    pub window_opacity: Binary64,
}

impl SettingsView {
    /// The checks that settings must pass.
    pub open spec fn valid(self) -> bool {
        &&& self.schema_version == CURRENT_SCHEMA_VERSION
        &&& (self.shell matches Some(s) ==> !is_blank_spec(s))
        &&& !is_blank_spec(self.font_family)
        &&& self.font_size.spec_in_range(float(MIN_FONT_SIZE_BITS), float(MAX_FONT_SIZE_BITS))
        &&& 0 <= self.scrollback_lines <= MAX_SCROLLBACK_LINES
        &&& self.background_image_opacity.spec_in_range(
            float(ZERO_BITS),
            float(MAX_BACKGROUND_IMAGE_OPACITY_BITS),
        )
        &&& self.window_opacity.spec_in_range(
            float(MIN_WINDOW_OPACITY_BITS),
            float(MAX_WINDOW_OPACITY_BITS),
        )
        &&& self.padding_top <= MAX_PADDING
        &&& self.padding_right <= MAX_PADDING
        &&& self.padding_bottom <= MAX_PADDING
        &&& self.padding_left <= MAX_PADDING
    }
}

/// The settings that the values `look` read as.
pub open spec fn settings_of(look: Lookup) -> SettingsView {
    SettingsView {
        schema_version: schema_of(look(SettingKey::SchemaVersion)),
        shell: text_of(look(SettingKey::Shell)),
        background_image: text_of(look(SettingKey::BackgroundImage)),
        theme: Theme::OneHalfDark,
        header_mode: selected_header_mode(look(SettingKey::HeaderMode)),
        font_family: match text_of(look(SettingKey::FontFamily)) {
            Some(s) => s,
            None => Seq::empty(),
        },
        font_size: binary64_of(number_of(look(SettingKey::FontSize))),
        padding_top: padding_of(look(SettingKey::PaddingTop)),
        padding_right: padding_of(look(SettingKey::PaddingRight)),
        padding_bottom: padding_of(look(SettingKey::PaddingBottom)),
        padding_left: padding_of(look(SettingKey::PaddingLeft)),
        scrollback_lines: integer_of(look(SettingKey::ScrollbackLines)),
        background_image_opacity: binary64_of(number_of(look(SettingKey::BackgroundImageOpacity))),
        window_opacity: binary64_of(number_of(look(SettingKey::WindowOpacity))),
    }
}

/// The user's terminal settings.
#[derive(Clone, Debug, PartialEq)]
pub struct Settings {
    schema_version: u32,
    shell: Option<String>,
    background_image: Option<String>,
    theme: Theme,
    header_mode: Option<HeaderMode>,
    font_family: String,
    font_size: Binary64,
    padding_top: u16,
    padding_right: u16,
    padding_bottom: u16,
    padding_left: u16,
    scrollback_lines: i64,
    background_image_opacity: Binary64,
    window_opacity: Binary64,
}

pub open spec fn opt_view(s: Option<String>) -> Option<Seq<char>> {
    match s {
        Some(s) => Some(s@),
        None => None,
    }
}

impl View for Settings {
    type V = SettingsView;

    closed spec fn view(&self) -> SettingsView {
        SettingsView {
            schema_version: self.schema_version,
            shell: opt_view(self.shell),
            background_image: opt_view(self.background_image),
            theme: self.theme,
            header_mode: self.header_mode,
            font_family: self.font_family@,
            font_size: self.font_size,
            padding_top: self.padding_top,
            padding_right: self.padding_right,
            padding_bottom: self.padding_bottom,
            padding_left: self.padding_left,
            scrollback_lines: self.scrollback_lines,
            background_image_opacity: self.background_image_opacity,
            window_opacity: self.window_opacity,
        }
    }
}

/// The values found for each key of a settings document.
struct SettingValues {
    values: Vec<Option<JsonValue>>,
}

impl SettingValues {
    spec fn look(&self) -> Lookup {
        |k: SettingKey|
            match self.values@[key_index(k)] {
                Some(v) => Some(v@),
                None => None,
            }
    }

    spec fn well_formed(&self) -> bool {
        self.values@.len() == 14
    }

    fn get(&self, k: SettingKey) -> (value: Option<&JsonValue>)
        requires
            self.well_formed(),
        ensures
            match value {
                Some(v) => (self.look())(k) == Some(v@),
                None => (self.look())(k) is None,
            },
    {
        proof {
            lemma_key_names();
        }
        match &self.values[k.index()] {
            Some(v) => Some(v),
            None => None,
        }
    }
}

fn text_value(value: Option<&JsonValue>) -> (text: Option<String>)
    ensures
        opt_view(text) == text_of(
            match value {
                Some(v) => Some(v@),
                None => None,
            },
        ),
{
    match value {
        Some(JsonValue::Text(s)) => Some(copy_str(s.as_str())),
        _ => None,
    }
}

fn padding_value(value: Option<&JsonValue>) -> (padding: u16)
    ensures
        padding == padding_of(
            match value {
                Some(v) => Some(v@),
                None => None,
            },
        ),
{
    match value {
        Some(JsonValue::Number(JsonNumber::Unsigned(u))) => if *u <= MAX_PADDING as u64 {
            *u as u16
        } else {
            DEFAULT_PADDING
        },
        _ => DEFAULT_PADDING,
    }
}

fn number_value(value: Option<&JsonValue>) -> (n: JsonNumber)
    ensures
        n == number_of(
            match value {
                Some(v) => Some(v@),
                None => None,
            },
        ),
{
    match value {
        Some(JsonValue::Number(n)) => *n,
        _ => JsonNumber::Unsigned(0),
    }
}

/// The binary64 number that `n` reads as; `n` lies in a settings range.
pub fn number_to_binary64(n: JsonNumber) -> (b: Binary64)
    requires
        n.spec_moderate(),
    ensures
        b == binary64_of(n),
        b.spec_finite(),
        b.spec_scaled() == n.spec_scaled(),
{
    proof {
        vstd::arithmetic::power2::lemma2_to64_rest();
        vstd::arithmetic::power2::lemma_pow2_pos(1074);
    }
    match n {
        JsonNumber::Unsigned(u) => {
            proof {
                vstd::arithmetic::mul::lemma_mul_strict_inequality_converse(
                    u as int,
                    0x0020_0000_0000_0000,
                    crate::binary64::value_scale(),
                );
            }
            Binary64::from_integer(false, u)
        },
        JsonNumber::Negative(i) => {
            proof {
                vstd::arithmetic::mul::lemma_mul_unary_negation(
                    0x0020_0000_0000_0000,
                    crate::binary64::value_scale(),
                );
                vstd::arithmetic::mul::lemma_mul_strict_inequality_converse(
                    -0x0020_0000_0000_0000,
                    i as int,
                    crate::binary64::value_scale(),
                );
                vstd::arithmetic::mul::lemma_mul_strict_inequality_converse(
                    i as int,
                    0x0020_0000_0000_0000,
                    crate::binary64::value_scale(),
                );
            }
            if i >= 0 {
                Binary64::from_integer(false, i as u64)
            } else {
                Binary64::from_integer(true, (0 - i) as u64)
            }
        },
        JsonNumber::Float(f) => f,
    }
}

/// A value of `value`'s key that is in range reads as a moderate number.
pub proof fn lemma_in_range_moderate(n: JsonNumber, lo: u64, hi: u64)
    requires
        float(lo).spec_moderate(),
        float(hi).spec_moderate(),
        n.spec_in_range(float(lo), float(hi)),
    ensures
        n.spec_moderate(),
{
}

/// A number of magnitude below 2^53 reads as the binary64 number with its
/// exact value.
pub proof fn lemma_number_binary64(n: JsonNumber)
    requires
        n.spec_moderate(),
    ensures
        binary64_of(n).spec_finite(),
        binary64_of(n).spec_scaled() == n.spec_scaled(),
{
    vstd::arithmetic::power2::lemma2_to64_rest();
    vstd::arithmetic::power2::lemma_pow2_pos(1074);
    match n {
        JsonNumber::Unsigned(u) => {
            vstd::arithmetic::mul::lemma_mul_strict_inequality_converse(
                u as int,
                0x0020_0000_0000_0000,
                crate::binary64::value_scale(),
            );
            crate::binary64::lemma_exact_integer(u as int);
        },
        JsonNumber::Negative(i) => {
            vstd::arithmetic::mul::lemma_mul_unary_negation(
                0x0020_0000_0000_0000,
                crate::binary64::value_scale(),
            );
            vstd::arithmetic::mul::lemma_mul_strict_inequality_converse(
                -0x0020_0000_0000_0000,
                i as int,
                crate::binary64::value_scale(),
            );
            vstd::arithmetic::mul::lemma_mul_strict_inequality_converse(
                i as int,
                0x0020_0000_0000_0000,
                crate::binary64::value_scale(),
            );
            crate::binary64::lemma_exact_integer(i as int);
        },
        JsonNumber::Float(f) => {},
    }
}

/// Values that pass the schema's checks read as valid settings.
pub proof fn lemma_checked_settings_valid(look: Lookup)
    requires
        first_invalid(look) is None,
    ensures
        settings_of(look).valid(),
{
    lemma_bounds_moderate();
    let font_size = number_of(look(SettingKey::FontSize));
    let background_image_opacity = number_of(look(SettingKey::BackgroundImageOpacity));
    let window_opacity = number_of(look(SettingKey::WindowOpacity));
    lemma_in_range_moderate(font_size, MIN_FONT_SIZE_BITS, MAX_FONT_SIZE_BITS);
    lemma_in_range_moderate(background_image_opacity, ZERO_BITS, MAX_BACKGROUND_IMAGE_OPACITY_BITS);
    lemma_in_range_moderate(window_opacity, MIN_WINDOW_OPACITY_BITS, MAX_WINDOW_OPACITY_BITS);
    lemma_number_binary64(font_size);
    lemma_number_binary64(background_image_opacity);
    lemma_number_binary64(window_opacity);
}

fn invalid_error(path: &str, reason: InvalidSetting) -> (error: SettingsError)
    ensures
        error matches SettingsError::Invalid { path: p, reason: r } && p@ == path@ && r == reason,
{
    SettingsError::Invalid { path: copy_str(path), reason }
}

fn parse_error(path: &str, problem: ParseProblem) -> (error: SettingsError)
    ensures
        error matches SettingsError::Parse { path: p, problem: q } && p@ == path@ && q@
            == problem@,
{
    SettingsError::Parse { path: copy_str(path), problem }
}

/// Reads settings from the values found for each key, then checks them.
fn settings_from_values(values: &SettingValues, path: &str) -> (result: Result<
    Settings,
    SettingsError,
>)
    requires
        values.well_formed(),
        forall|k: SettingKey|
            #[trigger] (values.look())(k) is Some ==> readable(k, (values.look())(k).unwrap()),
        first_missing(values.look(), 0) is None,
    ensures
        match result {
            Ok(s) => first_invalid(values.look()) is None && s@ == settings_of(values.look())
                && s@.valid(),
            Err(SettingsError::Invalid { path: p, reason }) => p@ == path@ && first_invalid(
                values.look(),
            ) == Some(reason),
            Err(_) => false,
        },
{
    proof {
        lemma_bounds_moderate();
        reveal_with_fuel(first_missing, 8);
    }
    let look = Ghost(values.look());
    let schema_version: u32 = match values.get(SettingKey::SchemaVersion) {
        Some(JsonValue::Number(JsonNumber::Unsigned(u))) => *u as u32,
        _ => 0,
    };
    let shell = text_value(values.get(SettingKey::Shell));
    let background_image = text_value(values.get(SettingKey::BackgroundImage));
    let font_family = match text_value(values.get(SettingKey::FontFamily)) {
        Some(s) => s,
        None => String::new(),
    };
    let font_size = number_value(values.get(SettingKey::FontSize));
    let scrollback_lines: i64 = match values.get(SettingKey::ScrollbackLines) {
        Some(JsonValue::Number(n)) => match n.as_i64() {
            Some(i) => i,
            None => 0,
        },
        _ => 0,
    };
    let background_image_opacity = number_value(values.get(SettingKey::BackgroundImageOpacity));
    let window_opacity = number_value(values.get(SettingKey::WindowOpacity));
    let padding_top = padding_value(values.get(SettingKey::PaddingTop));
    let padding_right = padding_value(values.get(SettingKey::PaddingRight));
    let padding_bottom = padding_value(values.get(SettingKey::PaddingBottom));
    let padding_left = padding_value(values.get(SettingKey::PaddingLeft));
    let header_mode = match values.get(SettingKey::HeaderMode) {
        Some(v) => header_mode_value(v),
        None => None,
    };
    assert(font_family@ == settings_of(look@).font_family);

    if schema_version != CURRENT_SCHEMA_VERSION {
        return Err(invalid_error(path, InvalidSetting::SchemaVersion(schema_version)));
    }
    if let Some(shell) = &shell {
        if is_blank(shell.as_str()) {
            return Err(invalid_error(path, InvalidSetting::Shell));
        }
    }
    if is_blank(font_family.as_str()) {
        return Err(invalid_error(path, InvalidSetting::FontFamily));
    }
    if !font_size.in_range(
        Binary64::from_bits(MIN_FONT_SIZE_BITS),
        Binary64::from_bits(MAX_FONT_SIZE_BITS),
    ) {
        return Err(invalid_error(path, InvalidSetting::FontSize));
    }
    if !(0 <= scrollback_lines && scrollback_lines <= MAX_SCROLLBACK_LINES) {
        return Err(invalid_error(path, InvalidSetting::ScrollbackLines));
    }
    if !background_image_opacity.in_range(
        Binary64::from_bits(ZERO_BITS),
        Binary64::from_bits(MAX_BACKGROUND_IMAGE_OPACITY_BITS),
    ) {
        return Err(invalid_error(path, InvalidSetting::BackgroundImageOpacity));
    }
    if !window_opacity.in_range(
        Binary64::from_bits(MIN_WINDOW_OPACITY_BITS),
        Binary64::from_bits(MAX_WINDOW_OPACITY_BITS),
    ) {
        return Err(invalid_error(path, InvalidSetting::WindowOpacity));
    }
    proof {
        lemma_in_range_moderate(font_size, MIN_FONT_SIZE_BITS, MAX_FONT_SIZE_BITS);
        lemma_in_range_moderate(background_image_opacity, ZERO_BITS, MAX_BACKGROUND_IMAGE_OPACITY_BITS);
        lemma_in_range_moderate(window_opacity, MIN_WINDOW_OPACITY_BITS, MAX_WINDOW_OPACITY_BITS);
    }
    let settings = Settings {
        schema_version,
        shell,
        background_image,
        theme: Theme::OneHalfDark,
        header_mode,
        font_family,
        font_size: number_to_binary64(font_size),
        padding_top,
        padding_right,
        padding_bottom,
        padding_left,
        scrollback_lines,
        background_image_opacity: number_to_binary64(background_image_opacity),
        window_opacity: number_to_binary64(window_opacity),
    };
    Ok(settings)
}

/// The value of each key of the schema in `entries`.
pub open spec fn lookup_of(entries: Entries) -> Lookup {
    |k: SettingKey| lookup(entries, key_name(k))
}

/// The first entry, in order, whose key the schema does not have or whose
/// value cannot be read into its field.
pub open spec fn first_entry_fault(entries: Entries) -> Option<ParseFault>
    decreases entries.len(),
{
    if entries.len() == 0 {
        None
    } else {
        match key_named(entries[0].0) {
            None => Some(ParseFault::UnknownField(entries[0].0)),
            Some(k) => if !readable(k, entries[0].1) {
                Some(ParseFault::InvalidValue(entries[0].0))
            } else {
                first_entry_fault(entries.drop_first())
            },
        }
    }
}

/// Why `entries` cannot be read as settings, if it cannot.
pub open spec fn object_fault(entries: Entries) -> Option<ParseFault> {
    match first_entry_fault(entries) {
        Some(f) => Some(f),
        None => match first_missing(lookup_of(entries), 0) {
            Some(k) => Some(ParseFault::MissingField(k)),
            None => None,
        },
    }
}

proof fn lemma_no_entry_fault(entries: Entries)
    requires
        first_entry_fault(entries) is None,
    ensures
        forall|i: int|
            0 <= i < entries.len() ==> (key_named(#[trigger] entries[i].0) matches Some(k)
                && readable(k, entries[i].1)),
    decreases entries.len(),
{
    if entries.len() > 0 {
        lemma_no_entry_fault(entries.drop_first());
        assert forall|i: int| 0 <= i < entries.len() implies (key_named(
            #[trigger] entries[i].0,
        ) matches Some(k) && readable(k, entries[i].1)) by {
            if i > 0 {
                assert(entries[i] == entries.drop_first()[i - 1]);
            }
        }
    }
}

/// Reads a settings object the way the settings file is read: every key
/// must belong to the schema with a value of the right type, every required
/// key must be present, and the values must pass the schema's checks.
/// A malformed padding value reads as `DEFAULT_PADDING`.
pub fn settings_from_object(object: &JsonObject, path: &str) -> (result: Result<
    Settings,
    SettingsError,
>)
    ensures
        match result {
            Ok(s) => object_fault(object@) is None && first_invalid(lookup_of(object@)) is None
                && s@ == settings_of(lookup_of(object@)) && s@.valid(),
            Err(SettingsError::Parse { path: p, problem }) => p@ == path@ && object_fault(object@)
                == Some(problem@),
            Err(SettingsError::Invalid { path: p, reason }) => p@ == path@ && object_fault(
                object@,
            ) is None && first_invalid(lookup_of(object@)) == Some(reason),
            Err(_) => false,
        },
{
    let ghost entries = object@;
    let n = object.len();
    let mut i: usize = 0;
    proof {
        assert(entries.subrange(0, n as int) =~= entries);
    }
    while i < n
        invariant
            n == entries.len(),
            entries == object@,
            i <= n,
            first_entry_fault(entries) == first_entry_fault(entries.subrange(i as int, n as int)),
        decreases n - i,
    {
        let (name, value) = object.entry(i);
        proof {
            assert(entries.subrange(i as int, n as int)[0] == entries[i as int]);
            assert(entries.subrange(i as int, n as int).drop_first() =~= entries.subrange(
                i + 1,
                n as int,
            ));
        }
        match SettingKey::named(name.as_str()) {
            None => {
                return Err(parse_error(path, ParseProblem::UnknownField(copy_str(name.as_str()))));
            },
            Some(k) => {
                if !readable_value(k, value) {
                    return Err(
                        parse_error(path, ParseProblem::InvalidValue(copy_str(name.as_str()))),
                    );
                }
            },
        }
        i = i + 1;
    }
    proof {
        assert(entries.subrange(n as int, n as int).len() == 0);
        lemma_no_entry_fault(entries);
        lemma_key_names();
    }
    let mut values: Vec<Option<JsonValue>> = Vec::new();
    let mut j: usize = 0;
    while j < SETTING_KEY_COUNT
        invariant
            j <= 14,
            entries == object@,
            values@.len() == j,
            forall|m: int|
                0 <= m < j ==> match #[trigger] values@[m] {
                    Some(v) => lookup(entries, key_name(key_at(m))) == Some(v@),
                    None => lookup(entries, key_name(key_at(m))) is None,
                },
        decreases 14 - j,
    {
        let k = SettingKey::at(j);
        let value = match object.get(k.name()) {
            Some(v) => Some(v.duplicate()),
            None => None,
        };
        values.push(value);
        j = j + 1;
    }
    let values = SettingValues { values };
    proof {
        assert forall|k: SettingKey| #[trigger] (values.look())(k) == lookup_of(entries)(k) by {
            assert(key_at(key_index(k)) == k);
        }
        assert(values.look() =~= lookup_of(entries));
        assert forall|k: SettingKey| #[trigger] (values.look())(k) is Some implies readable(
            k,
            (values.look())(k).unwrap(),
        ) by {
            lemma_lookup_found(entries, key_name(k));
            let m = choose|m: int|
                0 <= m < entries.len() && entries[m].0 == key_name(k) && lookup(
                    entries,
                    key_name(k),
                ) == Some(entries[m].1);
            assert(key_named(entries[m].0) == Some(k));
        }
        reveal_with_fuel(first_missing, 8);
    }
    if values.get(SettingKey::SchemaVersion).is_none() {
        return Err(parse_error(path, ParseProblem::MissingField(SettingKey::SchemaVersion)));
    }
    if values.get(SettingKey::Theme).is_none() {
        return Err(parse_error(path, ParseProblem::MissingField(SettingKey::Theme)));
    }
    if values.get(SettingKey::FontFamily).is_none() {
        return Err(parse_error(path, ParseProblem::MissingField(SettingKey::FontFamily)));
    }
    if values.get(SettingKey::FontSize).is_none() {
        return Err(parse_error(path, ParseProblem::MissingField(SettingKey::FontSize)));
    }
    if values.get(SettingKey::ScrollbackLines).is_none() {
        return Err(parse_error(path, ParseProblem::MissingField(SettingKey::ScrollbackLines)));
    }
    if values.get(SettingKey::BackgroundImageOpacity).is_none() {
        return Err(
            parse_error(path, ParseProblem::MissingField(SettingKey::BackgroundImageOpacity)),
        );
    }
    if values.get(SettingKey::WindowOpacity).is_none() {
        return Err(parse_error(path, ParseProblem::MissingField(SettingKey::WindowOpacity)));
    }
    settings_from_values(&values, path)
}

/// Whether `value` can be read into the field of key `k`.
fn readable_value(k: SettingKey, value: &JsonValue) -> (result: bool)
    ensures
        result == readable(k, value@),
{
    match k {
        SettingKey::SchemaVersion => match value {
            JsonValue::Number(JsonNumber::Unsigned(u)) => *u <= 0xffff_ffff,
            _ => false,
        },
        SettingKey::Shell | SettingKey::BackgroundImage => match value {
            JsonValue::Null | JsonValue::Text(_) => true,
            _ => false,
        },
        SettingKey::Theme => is_theme(value),
        SettingKey::HeaderMode => match value {
            JsonValue::Null => true,
            _ => header_mode_value(value).is_some(),
        },
        SettingKey::FontFamily => match value {
            JsonValue::Text(_) => true,
            _ => false,
        },
        SettingKey::FontSize | SettingKey::BackgroundImageOpacity | SettingKey::WindowOpacity => match value {
            JsonValue::Number(_) => true,
            _ => false,
        },
        SettingKey::ScrollbackLines => match value {
            JsonValue::Number(n) => n.as_i64().is_some(),
            _ => false,
        },
        SettingKey::PaddingTop | SettingKey::PaddingRight | SettingKey::PaddingBottom
        | SettingKey::PaddingLeft => true,
    }
}

/// The value of key `k` in the embedded defaults.
pub open spec fn default_data(k: SettingKey) -> JsonData {
    match k {
        SettingKey::BackgroundImage => JsonData::Text("builtin"@),
        SettingKey::BackgroundImageOpacity => JsonData::Number(
            JsonNumber::Float(float(DEFAULT_BACKGROUND_IMAGE_OPACITY_BITS)),
        ),
        SettingKey::FontFamily => JsonData::Text("Monospace"@),
        SettingKey::FontSize => JsonData::Number(JsonNumber::Float(float(DEFAULT_FONT_SIZE_BITS))),
        SettingKey::HeaderMode => JsonData::Null,
        SettingKey::PaddingBottom | SettingKey::PaddingLeft | SettingKey::PaddingRight
        | SettingKey::PaddingTop => JsonData::Number(JsonNumber::Unsigned(16)),
        SettingKey::SchemaVersion => JsonData::Number(JsonNumber::Unsigned(3)),
        SettingKey::ScrollbackLines => JsonData::Number(JsonNumber::Unsigned(10000)),
        SettingKey::Shell => JsonData::Null,
        SettingKey::Theme => JsonData::Text(theme_name()),
        SettingKey::WindowOpacity => JsonData::Number(
            JsonNumber::Float(float(DEFAULT_WINDOW_OPACITY_BITS)),
        ),
    }
}

/// The embedded default settings.
pub open spec fn defaults_view() -> SettingsView {
    SettingsView {
        schema_version: CURRENT_SCHEMA_VERSION,
        shell: None,
        background_image: Some("builtin"@),
        theme: Theme::OneHalfDark,
        header_mode: None,
        font_family: "Monospace"@,
        font_size: float(DEFAULT_FONT_SIZE_BITS),
        padding_top: DEFAULT_SIDE_PADDING,
        padding_right: DEFAULT_SIDE_PADDING,
        padding_bottom: DEFAULT_SIDE_PADDING,
        padding_left: DEFAULT_SIDE_PADDING,
        scrollback_lines: DEFAULT_SCROLLBACK_LINES,
        background_image_opacity: float(DEFAULT_BACKGROUND_IMAGE_OPACITY_BITS),
        window_opacity: float(DEFAULT_WINDOW_OPACITY_BITS),
    }
}

/// The embedded defaults pass the schema's checks, and every default value
/// resolves to itself.
pub proof fn lemma_defaults_valid()
    ensures
        defaults_view().valid(),
        forall|k: SettingKey| #[trigger] normalized(k, default_data(k)) == Some(default_data(k)),
        settings_of(|k: SettingKey| Some(default_data(k))) == defaults_view(),
{
    reveal_strlit("Monospace");
    reveal_strlit("builtin");
    assert(!crate::text::is_whitespace_spec("Monospace"@[0]));
    assert(!crate::text::is_whitespace_spec("builtin"@[0]));
    let six = float(MIN_FONT_SIZE_BITS);
    let twelve = float(DEFAULT_FONT_SIZE_BITS);
    let seventy_two = float(MAX_FONT_SIZE_BITS);
    let zero = float(ZERO_BITS);
    let tenth = float(DEFAULT_BACKGROUND_IMAGE_OPACITY_BITS);
    let six_tenths = float(MAX_BACKGROUND_IMAGE_OPACITY_BITS);
    let one = float(MAX_WINDOW_OPACITY_BITS);
    lemma_nonnegative_order(six, twelve);
    lemma_nonnegative_order(twelve, seventy_two);
    lemma_nonnegative_order(zero, tenth);
    lemma_nonnegative_order(tenth, six_tenths);
    lemma_nonnegative_order(six_tenths, one);
    lemma_nonnegative_order(one, one);
    lemma_bounds_moderate();
    assert forall|k: SettingKey| #[trigger] normalized(k, default_data(k)) == Some(
        default_data(k),
    ) by {}
    let look = |k: SettingKey| Some(default_data(k));
    assert(settings_of(look).font_family == "Monospace"@);
    assert(settings_of(look) == defaults_view());
}

/// How the value of key `k` is written out.
pub open spec fn serialized(s: SettingsView, k: SettingKey) -> JsonData {
    match k {
        SettingKey::BackgroundImage => match s.background_image {
            Some(p) => JsonData::Text(p),
            None => JsonData::Null,
        },
        SettingKey::BackgroundImageOpacity => JsonData::Number(
            JsonNumber::Float(s.background_image_opacity),
        ),
        SettingKey::FontFamily => JsonData::Text(s.font_family),
        SettingKey::FontSize => JsonData::Number(JsonNumber::Float(s.font_size)),
        SettingKey::HeaderMode => match s.header_mode {
            Some(m) => JsonData::Text(header_mode_name(m)),
            None => JsonData::Null,
        },
        SettingKey::PaddingBottom => JsonData::Number(JsonNumber::Unsigned(s.padding_bottom as u64)),
        SettingKey::PaddingLeft => JsonData::Number(JsonNumber::Unsigned(s.padding_left as u64)),
        SettingKey::PaddingRight => JsonData::Number(JsonNumber::Unsigned(s.padding_right as u64)),
        SettingKey::PaddingTop => JsonData::Number(JsonNumber::Unsigned(s.padding_top as u64)),
        SettingKey::SchemaVersion => JsonData::Number(JsonNumber::Unsigned(s.schema_version as u64)),
        SettingKey::ScrollbackLines => JsonData::Number(
            if s.scrollback_lines >= 0 {
                JsonNumber::Unsigned(s.scrollback_lines as u64)
            } else {
                JsonNumber::Negative(s.scrollback_lines)
            },
        ),
        SettingKey::Shell => match s.shell {
            Some(p) => JsonData::Text(p),
            None => JsonData::Null,
        },
        SettingKey::Theme => JsonData::Text(theme_name()),
        SettingKey::WindowOpacity => JsonData::Number(JsonNumber::Float(s.window_opacity)),
    }
}

/// The object that settings are written as: every key in order, the header
/// mode only when one is selected.
pub open spec fn entries_of(s: SettingsView) -> Entries {
    let all = Seq::new(14, |i: int| (key_name(key_at(i)), serialized(s, key_at(i))));
    if s.header_mode is Some {
        all
    } else {
        all.take(13)
    }
}

/// The object in which every key has a value, in name order.
pub open spec fn complete_entries(values: spec_fn(SettingKey) -> JsonData) -> Entries {
    Seq::new(14, |i: int| (key_name(key_at(i)), values(key_at(i))))
}

/// Each key of a complete object is found with its value.
pub proof fn lemma_complete_lookup(values: spec_fn(SettingKey) -> JsonData)
    ensures
        forall|k: SettingKey|
            #[trigger] lookup(complete_entries(values), key_name(k)) == Some(values(k)),
        crate::json::distinct_keys(complete_entries(values)),
{
    lemma_key_names();
    let es = complete_entries(values);
    assert forall|k: SettingKey|
        #[trigger] lookup(complete_entries(values), key_name(k)) == Some(values(k)) by {
        let i = key_index(k);
        assert forall|j: int| 0 <= j < i implies es[j].0 != key_name(k) by {
            assert(key_at(j) != k);
        }
        lemma_lookup_at(es, key_name(k), i);
    }
    assert forall|i: int, j: int| 0 <= i < es.len() && 0 <= j < es.len() && i != j implies es[i].0
        != es[j].0 by {
        assert(key_at(i) != key_at(j));
    }
}

/// An object with known keys and readable values has no entry fault.
proof fn lemma_entries_readable(entries: Entries)
    requires
        forall|i: int|
            0 <= i < entries.len() ==> (key_named(#[trigger] entries[i].0) matches Some(k)
                && readable(k, entries[i].1)),
    ensures
        first_entry_fault(entries) is None,
    decreases entries.len(),
{
    if entries.len() > 0 {
        let t = entries.drop_first();
        assert forall|i: int| 0 <= i < t.len() implies (key_named(#[trigger] t[i].0) matches Some(
            k,
        ) && readable(k, t[i].1)) by {
            assert(t[i] == entries[i + 1]);
        }
        lemma_entries_readable(t);
        assert(key_named(entries[0].0) matches Some(k) && readable(k, entries[0].1));
    }
}

/// A complete object of readable values has no parse fault.
pub proof fn lemma_complete_object(values: spec_fn(SettingKey) -> JsonData)
    requires
        forall|k: SettingKey| #[trigger] readable(k, values(k)),
    ensures
        object_fault(complete_entries(values)) is None,
        lookup_of(complete_entries(values)) == (|k: SettingKey| Some(values(k))),
{
    lemma_key_names();
    lemma_complete_lookup(values);
    let es = complete_entries(values);
    assert forall|i: int| 0 <= i < es.len() implies (key_named(#[trigger] es[i].0) matches Some(k)
        && readable(k, es[i].1)) by {
        assert(key_named(key_name(key_at(i))) == Some(key_at(i)));
    }
    lemma_entries_readable(es);
    assert(lookup_of(es) =~= (|k: SettingKey| Some(values(k))));
    reveal_with_fuel(first_missing, 8);
}

/// What the keys of an object without `header_mode`, every other key with
/// its value, read as.
pub open spec fn without_header_mode(values: spec_fn(SettingKey) -> JsonData) -> Lookup {
    |k: SettingKey|
        if k == SettingKey::HeaderMode {
            None
        } else {
            Some(values(k))
        }
}

/// An object of readable values for every key but `header_mode` has no
/// parse fault.
pub proof fn lemma_written_object(values: spec_fn(SettingKey) -> JsonData)
    requires
        forall|k: SettingKey| #[trigger] readable(k, values(k)),
    ensures
        object_fault(complete_entries(values).take(13)) is None,
        lookup_of(complete_entries(values).take(13)) == without_header_mode(values),
{
    lemma_key_names();
    let all = complete_entries(values);
    let es = all.take(13);
    assert forall|k: SettingKey| #[trigger] lookup(es, key_name(k)) == without_header_mode(values)(
        k,
    ) by {
        if k == SettingKey::HeaderMode {
            assert forall|j: int| 0 <= j < es.len() implies es[j].0 != key_name(k) by {
                assert(es[j].0 == key_name(key_at(j)));
                assert(key_at(j) != k);
            }
            lemma_lookup_absent(es, key_name(k));
        } else {
            let i = key_index(k);
            assert forall|j: int| 0 <= j < i implies es[j].0 != key_name(k) by {
                assert(key_at(j) != k);
            }
            lemma_lookup_at(es, key_name(k), i);
        }
    }
    assert forall|i: int| 0 <= i < es.len() implies (key_named(#[trigger] es[i].0) matches Some(k)
        && readable(k, es[i].1)) by {
        assert(key_named(key_name(key_at(i))) == Some(key_at(i)));
    }
    lemma_entries_readable(es);
    assert(lookup_of(es) =~= without_header_mode(values));
    reveal_with_fuel(first_missing, 8);
}

/// Valid settings, written out and read back, are the same settings.
pub proof fn law_written_settings_read_back(s: SettingsView)
    requires
        s.valid(),
    ensures
        object_fault(entries_of(s)) is None,
        first_invalid(lookup_of(entries_of(s))) is None,
        settings_of(lookup_of(entries_of(s))) == s,
{
    let values = |k: SettingKey| serialized(s, k);
    lemma_header_mode_names();
    assert forall|k: SettingKey| #[trigger] readable(k, values(k)) by {
        reveal_strlit("one-half-dark");
    }
    lemma_complete_object(values);
    let all = |k: SettingKey| Some(values(k));
    assert(settings_of(all).shell == s.shell);
    assert(settings_of(all) == s);
    if s.header_mode is Some {
        assert(entries_of(s) =~= complete_entries(values));
    } else {
        assert(entries_of(s) =~= complete_entries(values).take(13));
        lemma_written_object(values);
        let look = without_header_mode(values);
        assert(selected_header_mode(look(SettingKey::HeaderMode)) == selected_header_mode(
            all(SettingKey::HeaderMode),
        ));
        assert(settings_of(look) == settings_of(all));
    }
}

/// The first of the schema's checks that settings fail, in the order the
/// checks are made, or `None` when they pass every check.
pub open spec fn first_failed_check(s: SettingsView) -> Option<InvalidSetting> {
    if s.schema_version != CURRENT_SCHEMA_VERSION {
        Some(InvalidSetting::SchemaVersion(s.schema_version))
    } else if s.shell matches Some(shell) && is_blank_spec(shell) {
        Some(InvalidSetting::Shell)
    } else if is_blank_spec(s.font_family) {
        Some(InvalidSetting::FontFamily)
    } else if !s.font_size.spec_in_range(float(MIN_FONT_SIZE_BITS), float(MAX_FONT_SIZE_BITS)) {
        Some(InvalidSetting::FontSize)
    } else if !(0 <= s.scrollback_lines <= MAX_SCROLLBACK_LINES) {
        Some(InvalidSetting::ScrollbackLines)
    } else if !s.background_image_opacity.spec_in_range(
        float(ZERO_BITS),
        float(MAX_BACKGROUND_IMAGE_OPACITY_BITS),
    ) {
        Some(InvalidSetting::BackgroundImageOpacity)
    } else if !s.window_opacity.spec_in_range(
        float(MIN_WINDOW_OPACITY_BITS),
        float(MAX_WINDOW_OPACITY_BITS),
    ) {
        Some(InvalidSetting::WindowOpacity)
    } else {
        None
    }
}

/// Valid settings pass every check of the schema.
pub proof fn law_valid_settings_pass_the_checks(s: SettingsView)
    requires
        s.valid(),
    ensures
        first_failed_check(s) is None,
{
}

impl Settings {
    /// Checks the settings against the schema's limits: the first check that
    /// fails gives an `Invalid` error for `path`.
    pub fn validate(&self, path: &str) -> (result: Result<(), SettingsError>)
        ensures
            match result {
                Ok(()) => first_failed_check(self@) is None,
                Err(e) => e matches SettingsError::Invalid { path: p, reason } && p@ == path@
                    && first_failed_check(self@) == Some(reason),
            },
    {
        proof {
            lemma_bounds_moderate();
        }
        if self.schema_version != CURRENT_SCHEMA_VERSION {
            return Err(invalid_error(path, InvalidSetting::SchemaVersion(self.schema_version)));
        }
        if let Some(shell) = &self.shell {
            if is_blank(shell.as_str()) {
                return Err(invalid_error(path, InvalidSetting::Shell));
            }
        }
        if is_blank(self.font_family.as_str()) {
            return Err(invalid_error(path, InvalidSetting::FontFamily));
        }
        if !self.font_size.in_range(
            Binary64::from_bits(MIN_FONT_SIZE_BITS),
            Binary64::from_bits(MAX_FONT_SIZE_BITS),
        ) {
            return Err(invalid_error(path, InvalidSetting::FontSize));
        }
        if !(0 <= self.scrollback_lines && self.scrollback_lines <= MAX_SCROLLBACK_LINES) {
            return Err(invalid_error(path, InvalidSetting::ScrollbackLines));
        }
        if !self.background_image_opacity.in_range(
            Binary64::from_bits(ZERO_BITS),
            Binary64::from_bits(MAX_BACKGROUND_IMAGE_OPACITY_BITS),
        ) {
            return Err(invalid_error(path, InvalidSetting::BackgroundImageOpacity));
        }
        if !self.window_opacity.in_range(
            Binary64::from_bits(MIN_WINDOW_OPACITY_BITS),
            Binary64::from_bits(MAX_WINDOW_OPACITY_BITS),
        ) {
            return Err(invalid_error(path, InvalidSetting::WindowOpacity));
        }
        Ok(())
    }

    /// The embedded default settings.
    pub fn defaults() -> (settings: Settings)
        ensures
            settings@ == defaults_view(),
            settings@.valid(),
    {
        proof {
            lemma_defaults_valid();
        }
        Settings {
            schema_version: CURRENT_SCHEMA_VERSION,
            shell: None,
            background_image: Some(copy_str("builtin")),
            theme: Theme::OneHalfDark,
            header_mode: None,
            font_family: copy_str("Monospace"),
            font_size: Binary64::from_bits(DEFAULT_FONT_SIZE_BITS),
            padding_top: DEFAULT_SIDE_PADDING,
            padding_right: DEFAULT_SIDE_PADDING,
            padding_bottom: DEFAULT_SIDE_PADDING,
            padding_left: DEFAULT_SIDE_PADDING,
            scrollback_lines: DEFAULT_SCROLLBACK_LINES,
            background_image_opacity: Binary64::from_bits(DEFAULT_BACKGROUND_IMAGE_OPACITY_BITS),
            window_opacity: Binary64::from_bits(DEFAULT_WINDOW_OPACITY_BITS),
        }
    }

    pub fn schema_version(&self) -> (version: u32)
        ensures
            version == self@.schema_version,
    {
        self.schema_version
    }

    pub fn shell(&self) -> (shell: Option<&str>)
        ensures
            match shell {
                Some(s) => self@.shell == Some(s@),
                None => self@.shell is None,
            },
    {
        match &self.shell {
            Some(s) => Some(s.as_str()),
            None => None,
        }
    }

    pub fn background_image(&self) -> (background_image: Option<&str>)
        ensures
            match background_image {
                Some(s) => self@.background_image == Some(s@),
                None => self@.background_image is None,
            },
    {
        match &self.background_image {
            Some(s) => Some(s.as_str()),
            None => None,
        }
    }

    pub fn theme(&self) -> (theme: Theme)
        ensures
            theme == self@.theme,
    {
        self.theme
    }

    /// The selected header mode, if one is selected.
    pub fn header_mode(&self) -> (mode: Option<HeaderMode>)
        ensures
            mode == self@.header_mode,
    {
        self.header_mode
    }

    /// Selects the header mode and keeps every other setting.
    pub fn set_header_mode(&mut self, mode: HeaderMode)
        ensures
            final(self)@ == (SettingsView { header_mode: Some(mode), ..old(self)@ }),
    {
        self.header_mode = Some(mode);
    }

    pub fn font_family(&self) -> (font_family: &str)
        ensures
            font_family@ == self@.font_family,
    {
        self.font_family.as_str()
    }

    pub fn font_size(&self) -> (font_size: Binary64)
        ensures
            font_size == self@.font_size,
    {
        self.font_size
    }

    pub fn terminal_padding(&self) -> (padding: TerminalPadding)
        ensures
            padding.spec_top() == self@.padding_top,
            padding.spec_right() == self@.padding_right,
            padding.spec_bottom() == self@.padding_bottom,
            padding.spec_left() == self@.padding_left,
    {
        TerminalPadding::new(
            self.padding_top,
            self.padding_right,
            self.padding_bottom,
            self.padding_left,
        )
    }

    pub fn scrollback_lines(&self) -> (lines: i64)
        ensures
            lines == self@.scrollback_lines,
    {
        self.scrollback_lines
    }

    pub fn background_image_opacity(&self) -> (opacity: Binary64)
        ensures
            opacity == self@.background_image_opacity,
    {
        self.background_image_opacity
    }

    pub fn window_opacity(&self) -> (opacity: Binary64)
        ensures
            opacity == self@.window_opacity,
    {
        self.window_opacity
    }

    /// The settings as the object they are written as.
    pub fn to_object(&self) -> (object: JsonObject)
        ensures
            object@ == entries_of(self@),
    {
        let mut object = JsonObject::new();
        let count: usize = if self.header_mode.is_some() {
            SETTING_KEY_COUNT
        } else {
            WRITTEN_KEY_COUNT
        };
        let mut i: usize = 0;
        proof {
            lemma_key_names();
            assert(object@ =~= entries_of(self@).take(0));
        }
        while i < count
            invariant
                count == entries_of(self@).len(),
                i <= count <= 14,
                object@ == entries_of(self@).take(i as int),
            decreases count - i,
        {
            let k = SettingKey::at(i);
            let value = self.serialize_value(k);
            proof {
                lemma_key_names();
                assert forall|j: int| 0 <= j < object@.len() implies object@[j].0 != key_name(k) by {
                    assert(object@[j] == entries_of(self@)[j]);
                    assert(key_index(key_at(j)) == j);
                    assert(key_index(k) == i);
                    assert(key_at(j) != k);
                }
                lemma_lookup_absent(object@, key_name(k));
                use_type_invariant(&object);
                lemma_set_entry(object@, key_name(k), value@);
            }
            object.insert(copy_str(k.name()), value);
            proof {
                assert(object@ =~= entries_of(self@).take(i + 1));
            }
            i = i + 1;
        }
        proof {
            assert(entries_of(self@).take(count as int) =~= entries_of(self@));
        }
        object
    }

    fn serialize_value(&self, k: SettingKey) -> (value: JsonValue)
        ensures
            value@ == serialized(self@, k),
    {
        match k {
            SettingKey::BackgroundImage => match &self.background_image {
                Some(p) => JsonValue::text(p.as_str()),
                None => JsonValue::Null,
            },
            SettingKey::BackgroundImageOpacity => JsonValue::Number(
                JsonNumber::Float(self.background_image_opacity),
            ),
            SettingKey::FontFamily => JsonValue::text(self.font_family.as_str()),
            SettingKey::FontSize => JsonValue::Number(JsonNumber::Float(self.font_size)),
            SettingKey::HeaderMode => match self.header_mode {
                Some(m) => JsonValue::text(m.name()),
                None => JsonValue::Null,
            },
            SettingKey::PaddingBottom => JsonValue::Number(
                JsonNumber::Unsigned(self.padding_bottom as u64),
            ),
            SettingKey::PaddingLeft => JsonValue::Number(
                JsonNumber::Unsigned(self.padding_left as u64),
            ),
            SettingKey::PaddingRight => JsonValue::Number(
                JsonNumber::Unsigned(self.padding_right as u64),
            ),
            SettingKey::PaddingTop => JsonValue::Number(JsonNumber::Unsigned(self.padding_top as u64)),
            SettingKey::SchemaVersion => JsonValue::Number(
                JsonNumber::Unsigned(self.schema_version as u64),
            ),
            SettingKey::ScrollbackLines => JsonValue::Number(
                if self.scrollback_lines >= 0 {
                    JsonNumber::Unsigned(self.scrollback_lines as u64)
                } else {
                    JsonNumber::Negative(self.scrollback_lines)
                },
            ),
            SettingKey::Shell => match &self.shell {
                Some(p) => JsonValue::text(p.as_str()),
                None => JsonValue::Null,
            },
            SettingKey::Theme => JsonValue::text("one-half-dark"),
            SettingKey::WindowOpacity => JsonValue::Number(JsonNumber::Float(self.window_opacity)),
        }
    }
}

/// The values that the settings window submits.
#[derive(Clone, Debug, PartialEq)]
pub struct SettingsUpdate {
    pub shell: Option<String>,
    pub background_image: Option<String>,
    pub font_family: String,
    pub font_size: Binary64,
    pub terminal_padding: TerminalPadding,
    pub scrollback_lines: i64,
    pub background_image_opacity: Binary64,
    pub window_opacity: Binary64,
}

/// The trimmed `value`, or `default` when `value` is blank.
pub open spec fn nonempty_or_spec(value: Seq<char>, default: Seq<char>) -> Seq<char> {
    if is_blank_spec(value) {
        default
    } else {
        trim_spec(value)
    }
}

/// `value` when it is finite and lies in `[minimum, maximum]`, else `default`.
pub open spec fn ranged_or_spec(
    value: Binary64,
    minimum: Binary64,
    maximum: Binary64,
    default: Binary64,
) -> Binary64 {
    if value.spec_in_range(minimum, maximum) {
        value
    } else {
        default
    }
}

/// The trimmed `value`, or `default` when `value` is blank.
pub fn nonempty_or(value: String, default: String) -> (result: String)
    ensures
        result@ == nonempty_or_spec(value@, default@),
{
    let trimmed = trim(value.as_str());
    if trimmed.as_str().is_empty() {
        default
    } else {
        trimmed
    }
}

/// `value` when it is finite and lies in `[minimum, maximum]`, else `default`.
pub fn ranged_or(value: Binary64, minimum: Binary64, maximum: Binary64, default: Binary64) -> (result:
    Binary64)
    requires
        minimum.spec_moderate(),
        maximum.spec_moderate(),
    ensures
        result == ranged_or_spec(value, minimum, maximum, default),
{
    if value.in_range(minimum, maximum) {
        value
    } else {
        default
    }
}

/// The settings after the settings window submitted `update`: every value
/// outside its range, and every blank font family, takes the embedded
/// default; shell text is trimmed and blank shell text means no shell; an
/// empty background image path means no background image.
pub open spec fn updated(s: SettingsView, update: SettingsUpdate) -> SettingsView {
    let d = defaults_view();
    SettingsView {
        schema_version: s.schema_version,
        shell: match update.shell {
            Some(shell) => if is_blank_spec(shell@) {
                None
            } else {
                Some(trim_spec(shell@))
            },
            None => None,
        },
        background_image: match update.background_image {
            Some(p) => if p@.len() == 0 {
                None
            } else {
                Some(p@)
            },
            None => None,
        },
        theme: s.theme,
        header_mode: s.header_mode,
        font_family: nonempty_or_spec(update.font_family@, d.font_family),
        font_size: ranged_or_spec(
            update.font_size,
            float(MIN_FONT_SIZE_BITS),
            float(MAX_FONT_SIZE_BITS),
            d.font_size,
        ),
        padding_top: if update.terminal_padding.spec_top() <= MAX_PADDING {
            update.terminal_padding.spec_top()
        } else {
            d.padding_top
        },
        padding_right: if update.terminal_padding.spec_right() <= MAX_PADDING {
            update.terminal_padding.spec_right()
        } else {
            d.padding_right
        },
        padding_bottom: if update.terminal_padding.spec_bottom() <= MAX_PADDING {
            update.terminal_padding.spec_bottom()
        } else {
            d.padding_bottom
        },
        padding_left: if update.terminal_padding.spec_left() <= MAX_PADDING {
            update.terminal_padding.spec_left()
        } else {
            d.padding_left
        },
        scrollback_lines: if 0 <= update.scrollback_lines <= MAX_SCROLLBACK_LINES {
            update.scrollback_lines
        } else {
            d.scrollback_lines
        },
        background_image_opacity: ranged_or_spec(
            update.background_image_opacity,
            float(ZERO_BITS),
            float(MAX_BACKGROUND_IMAGE_OPACITY_BITS),
            d.background_image_opacity,
        ),
        window_opacity: ranged_or_spec(
            update.window_opacity,
            float(MIN_WINDOW_OPACITY_BITS),
            float(MAX_WINDOW_OPACITY_BITS),
            d.window_opacity,
        ),
    }
}

/// An update keeps valid settings valid.
pub proof fn law_update_keeps_settings_valid(s: SettingsView, update: SettingsUpdate)
    requires
        s.valid(),
    ensures
        updated(s, update).valid(),
{
    lemma_defaults_valid();
    crate::text::lemma_trim_not_blank(update.font_family@);
    match update.shell {
        Some(shell) => crate::text::lemma_trim_not_blank(shell@),
        None => {},
    }
}

impl Settings {
    /// Applies the values submitted by the settings window.
    pub fn apply_update(&mut self, update: SettingsUpdate)
        ensures
            final(self)@ == updated(old(self)@, update),
    {
        proof {
            lemma_bounds_moderate();
        }
        let defaults = Settings::defaults();
        let ghost submitted = update;
        self.shell = match update.shell {
            Some(shell) => {
                let trimmed = trim(shell.as_str());
                if trimmed.as_str().is_empty() {
                    None
                } else {
                    Some(trimmed)
                }
            },
            None => None,
        };
        self.background_image = match update.background_image {
            Some(p) => if p.as_str().is_empty() {
                None
            } else {
                Some(p)
            },
            None => None,
        };
        self.font_family = nonempty_or(update.font_family, defaults.font_family);
        self.font_size = ranged_or(
            update.font_size,
            Binary64::from_bits(MIN_FONT_SIZE_BITS),
            Binary64::from_bits(MAX_FONT_SIZE_BITS),
            defaults.font_size,
        );
        self.padding_top = padding_or_default(update.terminal_padding.top(), defaults.padding_top);
        self.padding_right = padding_or_default(
            update.terminal_padding.right(),
            defaults.padding_right,
        );
        self.padding_bottom = padding_or_default(
            update.terminal_padding.bottom(),
            defaults.padding_bottom,
        );
        self.padding_left = padding_or_default(
            update.terminal_padding.left(),
            defaults.padding_left,
        );
        self.scrollback_lines = if 0 <= update.scrollback_lines && update.scrollback_lines
            <= MAX_SCROLLBACK_LINES {
            update.scrollback_lines
        } else {
            defaults.scrollback_lines
        };
        self.background_image_opacity = ranged_or(
            update.background_image_opacity,
            Binary64::from_bits(ZERO_BITS),
            Binary64::from_bits(MAX_BACKGROUND_IMAGE_OPACITY_BITS),
            defaults.background_image_opacity,
        );
        self.window_opacity = ranged_or(
            update.window_opacity,
            Binary64::from_bits(MIN_WINDOW_OPACITY_BITS),
            Binary64::from_bits(MAX_WINDOW_OPACITY_BITS),
            defaults.window_opacity,
        );
        proof {
            assert(self@.shell == updated(old(self)@, submitted).shell);
            assert(self@.background_image == updated(old(self)@, submitted).background_image);
        }
    }
}

/// `part` appended to the path `base` as `PathBuf::push` appends a relative
/// path: with a separator between them unless `base` is empty or already
/// ends with one.
pub open spec fn join_path(base: Seq<u8>, part: Seq<u8>) -> Seq<u8> {
    if base.len() > 0 && base.last() != 0x2fu8 {
        base.push(0x2fu8) + part
    } else {
        base + part
    }
}

/// The bytes of ASCII text.
pub open spec fn ascii_bytes(s: Seq<char>) -> Seq<u8> {
    Seq::new(s.len(), |i: int| s[i] as u8)
}

/// Where the settings file lives: under `XDG_CONFIG_HOME` when it is set and
/// not empty, else under `$HOME/.config`; `None` when neither is usable.
pub open spec fn settings_path_spec(
    config_home: Option<Seq<u8>>,
    home: Option<Seq<u8>>,
    directory: Seq<u8>,
) -> Option<Seq<u8>> {
    let file = ascii_bytes("settings.json"@);
    match config_home {
        Some(c) if c.len() > 0 => Some(join_path(join_path(c, directory), file)),
        _ => match home {
            Some(h) if h.len() > 0 => Some(
                join_path(join_path(join_path(h, ascii_bytes(".config"@)), directory), file),
            ),
            _ => None,
        },
    }
}

fn push_bytes(buffer: &mut Vec<u8>, part: &[u8])
    ensures
        final(buffer)@ == old(buffer)@ + part@,
{
    let mut i: usize = 0;
    let ghost start = buffer@;
    while i < part.len()
        invariant
            i <= part@.len(),
            buffer@ == start + part@.subrange(0, i as int),
        decreases part.len() - i,
    {
        buffer.push(part[i]);
        proof {
            assert(start + part@.subrange(0, i + 1) =~= (start + part@.subrange(0, i as int)).push(
                part@[i as int],
            ));
        }
        i = i + 1;
    }
    proof {
        assert(part@.subrange(0, part@.len() as int) =~= part@);
    }
}

/// Appends the relative path `part` to `base` (`PathBuf::push`).
pub fn join_path_bytes(base: &mut Vec<u8>, part: &[u8])
    ensures
        final(base)@ == join_path(old(base)@, part@),
{
    if base.len() > 0 && base[base.len() - 1] != 0x2f {
        base.push(0x2f);
    }
    push_bytes(base, part);
}

fn ascii_to_bytes(s: &str) -> (bytes: Vec<u8>)
    requires
        forall|i: int| 0 <= i < s@.len() ==> (#[trigger] s@[i] as u32) < 128,
    ensures
        bytes@ == ascii_bytes(s@),
{
    let chars = crate::text::chars_of(s);
    let mut bytes: Vec<u8> = Vec::new();
    let mut i: usize = 0;
    while i < chars.len()
        invariant
            chars@ == s@,
            i <= chars@.len(),
            forall|j: int| 0 <= j < s@.len() ==> (#[trigger] s@[j] as u32) < 128,
            bytes@ == ascii_bytes(s@).subrange(0, i as int),
        decreases chars.len() - i,
    {
        let c = chars[i];
        bytes.push(c as u8);
        proof {
            assert(bytes@ =~= ascii_bytes(s@).subrange(0, i + 1));
        }
        i = i + 1;
    }
    proof {
        assert(ascii_bytes(s@).subrange(0, s@.len() as int) =~= ascii_bytes(s@));
    }
    bytes
}

/// The path of the settings file, from the values of `XDG_CONFIG_HOME` and
/// `HOME` and the profile's settings directory name.
pub fn settings_path(config_home: Option<Vec<u8>>, home: Option<Vec<u8>>, directory: &[u8]) -> (result:
    Result<Vec<u8>, SettingsError>)
    ensures
        match result {
            Ok(p) => settings_path_spec(
                match config_home {
                    Some(c) => Some(c@),
                    None => None,
                },
                match home {
                    Some(h) => Some(h@),
                    None => None,
                },
                directory@,
            ) == Some(p@),
            Err(e) => e == SettingsError::ConfigDirectoryUnavailable && settings_path_spec(
                match config_home {
                    Some(c) => Some(c@),
                    None => None,
                },
                match home {
                    Some(h) => Some(h@),
                    None => None,
                },
                directory@,
            ) is None,
        },
{
    proof {
        reveal_strlit("settings.json");
        reveal_strlit(".config");
    }
    let file = ascii_to_bytes("settings.json");
    match config_home {
        Some(mut c) => if c.len() > 0 {
            join_path_bytes(&mut c, directory);
            join_path_bytes(&mut c, file.as_slice());
            return Ok(c);
        },
        None => {},
    }
    match home {
        Some(mut h) => if h.len() > 0 {
            let config = ascii_to_bytes(".config");
            join_path_bytes(&mut h, config.as_slice());
            join_path_bytes(&mut h, directory);
            join_path_bytes(&mut h, file.as_slice());
            Ok(h)
        } else {
            Err(SettingsError::ConfigDirectoryUnavailable)
        },
        None => Err(SettingsError::ConfigDirectoryUnavailable),
    }
}

/// The name of the backup of the settings file.
pub open spec fn backup_file_name() -> Seq<u8> {
    ascii_bytes("settings.json.bak"@)
}

/// The backup beside a settings file: the path with its file name replaced
/// by `settings.json.bak`, as `Path::with_file_name` replaces it.
pub fn backup_path_for(settings_path: &[u8]) -> (backup: Vec<u8>)
    ensures
        backup@ == join_path(file_name_base(settings_path@, 0x2fu8, 0x2eu8), backup_file_name()),
{
    proof {
        reveal_strlit("settings.json.bak");
    }
    let mut backup = file_name_base_of(settings_path);
    let name = ascii_to_bytes("settings.json.bak");
    join_path_bytes(&mut backup, name.as_slice());
    backup
}

/// Where the project settings were applied, and where the previous settings
/// were saved.
#[derive(Debug, PartialEq, Eq)]
pub struct ApplyOutcome {
    settings_path: Vec<u8>,
    backup_path: Option<Vec<u8>>,
}

impl ApplyOutcome {
    pub closed spec fn spec_settings_path(&self) -> Seq<u8> {
        self.settings_path@
    }

    pub closed spec fn spec_backup_path(&self) -> Option<Seq<u8>> {
        match self.backup_path {
            Some(p) => Some(p@),
            None => None,
        }
    }

    pub fn new(settings_path: Vec<u8>, backup_path: Option<Vec<u8>>) -> (outcome: ApplyOutcome)
        ensures
            outcome.spec_settings_path() == settings_path@,
            outcome.spec_backup_path() == match backup_path {
                Some(p) => Some(p@),
                None => None,
            },
    {
        ApplyOutcome { settings_path, backup_path }
    }

    pub fn settings_path(&self) -> (path: &[u8])
        ensures
            path@ == self.spec_settings_path(),
    {
        self.settings_path.as_slice()
    }

    pub fn backup_path(&self) -> (path: Option<&[u8]>)
        ensures
            match path {
                Some(p) => self.spec_backup_path() == Some(p@),
                None => self.spec_backup_path() is None,
            },
    {
        match &self.backup_path {
            Some(p) => Some(p.as_slice()),
            None => None,
        }
    }
}

/// The embedded project settings, as written to a new settings file.
pub fn project_settings_object() -> (object: JsonObject)
    ensures
        object@ == entries_of(defaults_view()),
{
    Settings::defaults().to_object()
}

/// The displayed path of the embedded project settings.
pub fn project_settings_path() -> (path: &'static str)
    ensures
        path@ == "config/settings.json"@,
{
    "config/settings.json"
}

} // verus!
