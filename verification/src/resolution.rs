//! Resolution of a user's settings document against the embedded defaults:
//! migration of schema versions 1 and 2, per-key fallback to the default
//! value, and the decision whether the file is rewritten.
use crate::binary64::Binary64;
use crate::json::{
    has_key, lemma_lookup_absent, lookup, remove_entry, set_entry, Entries, JsonData, JsonNumber,
    JsonObject, JsonValue, parsed_json, tree_object, tree_to_object,
};
use crate::settings::{
    complete_entries, default_data, defaults_view, float, key_at, key_index, key_name, key_named,
    header_mode_name, lemma_complete_object, lemma_defaults_valid, readable, lemma_key_names, normalize_value, normalized,
    object_fault, first_invalid, lookup_of, settings_from_object, settings_of, HeaderMode, SettingKey,
    Settings, SettingsError, SettingsView, CURRENT_SCHEMA_VERSION, MAX_SCROLLBACK_LINES,
    MAX_WINDOW_OPACITY_BITS, SETTING_KEY_COUNT, WRITTEN_KEY_COUNT, ZERO_BITS, DEFAULT_BACKGROUND_IMAGE_OPACITY_BITS,
    DEFAULT_FONT_SIZE_BITS, DEFAULT_WINDOW_OPACITY_BITS,
};
use crate::text::{copy_str, is_blank, is_blank_spec};
use vstd::prelude::*;

verus! {

broadcast use vstd::string::group_string_axioms;

/// The key that schema versions 1 and 2 used for the background image.
pub open spec fn wallpaper_name() -> Seq<char> {
    "wallpaper"@
}

/// The key that schema version 2 used for the background image opacity.
pub open spec fn wallpaper_opacity_name() -> Seq<char> {
    "wallpaper_opacity"@
}

/// The key that schema version 1 used for the darkening of the background
/// image.
pub open spec fn wallpaper_shade_name() -> Seq<char> {
    "wallpaper_shade"@
}

/// The key with which schema version 3 showed or hid the header.
pub open spec fn header_visible_name() -> Seq<char> {
    "header_visible"@
}

/// Whether the entries show or hide the header with a `header_visible`
/// flag.
pub open spec fn has_header_flag(entries: Entries) -> bool {
    lookup(entries, header_visible_name()) matches Some(JsonData::Bool(_))
}

/// The entries with a `header_visible` flag replaced by the header mode it
/// selects: `full` for `true` and `hidden` for `false`, unless a header mode
/// is given already.
pub open spec fn with_header_mode(entries: Entries) -> Entries {
    match lookup(entries, header_visible_name()) {
        Some(JsonData::Bool(visible)) => {
            let e = remove_entry(entries, header_visible_name());
            if has_key(e, key_name(SettingKey::HeaderMode)) {
                e
            } else {
                set_entry(
                    e,
                    key_name(SettingKey::HeaderMode),
                    JsonData::Text(
                        if visible {
                            "full"@
                        } else {
                            "hidden"@
                        },
                    ),
                )
            }
        },
        _ => entries,
    }
}

/// How the `schema_version` entry of a user's settings is treated.
#[derive(Clone, Copy, Debug, PartialEq, Eq, Structural)]
pub enum SchemaClass {
    /// Version 1 or 2: migrated to the current version.
    Legacy,
    /// The current version.
    Current,
    /// No `schema_version` entry.
    Missing,
    /// `null` or blank text: an invalid value.
    Blank,
    /// Anything else: the file is not used.
    Unsupported,
}

pub open spec fn schema_class_of(entries: Entries) -> SchemaClass {
    match lookup(entries, key_name(SettingKey::SchemaVersion)) {
        None => SchemaClass::Missing,
        Some(JsonData::Number(n)) => match n.spec_as_u64() {
            Some(v) => if v == 1 || v == 2 {
                SchemaClass::Legacy
            } else if v == 3 {
                SchemaClass::Current
            } else {
                SchemaClass::Unsupported
            },
            None => SchemaClass::Unsupported,
        },
        Some(JsonData::Null) => SchemaClass::Blank,
        Some(JsonData::Text(s)) => if is_blank_spec(s) {
            SchemaClass::Blank
        } else {
            SchemaClass::Unsupported
        },
        Some(_) => SchemaClass::Unsupported,
    }
}

/// A legacy shade that converts: a number in `[0, 1]`.
pub open spec fn shade_convertible(v: JsonData) -> bool {
    match v {
        JsonData::Number(n) => n.spec_in_range(float(ZERO_BITS), float(MAX_WINDOW_OPACITY_BITS)),
        _ => false,
    }
}

/// The first step of migration: an old `wallpaper` entry names the
/// background image unless one is named already.
pub open spec fn with_background_image(entries: Entries) -> Entries {
    let name = key_name(SettingKey::BackgroundImage);
    if !has_key(entries, name) && has_key(entries, wallpaper_name()) {
        set_entry(entries, name, lookup(entries, wallpaper_name()).unwrap())
    } else {
        entries
    }
}

/// The second step of migration: the background image opacity comes from
/// `wallpaper_opacity`, or else from the opacity that `wallpaper_shade`
/// converts to, unless it is given already. The flag tells whether a shade
/// was found that does not convert.
pub open spec fn with_opacity(entries: Entries, shade_opacity: Option<Binary64>) -> (
    Entries,
    bool,
) {
    let name = key_name(SettingKey::BackgroundImageOpacity);
    if has_key(entries, name) {
        (entries, false)
    } else if has_key(entries, wallpaper_opacity_name()) {
        (set_entry(entries, name, lookup(entries, wallpaper_opacity_name()).unwrap()), false)
    } else if has_key(entries, wallpaper_shade_name()) {
        if shade_convertible(lookup(entries, wallpaper_shade_name()).unwrap()) {
            match shade_opacity {
                Some(o) => (set_entry(entries, name, JsonData::Number(JsonNumber::Float(o))), false),
                None => (entries, true),
            }
        } else {
            (entries, true)
        }
    } else {
        (entries, false)
    }
}

/// The entries after migration to the current schema: the old keys are gone
/// and `schema_version` is the current one.
pub open spec fn migrated(entries: Entries, shade_opacity: Option<Binary64>) -> Entries {
    let e = with_opacity(with_background_image(entries), shade_opacity).0;
    set_entry(
        remove_entry(
            remove_entry(remove_entry(e, wallpaper_name()), wallpaper_opacity_name()),
            wallpaper_shade_name(),
        ),
        key_name(SettingKey::SchemaVersion),
        JsonData::Number(JsonNumber::Unsigned(3)),
    )
}

/// Whether migration met a shade that does not convert.
pub open spec fn migration_invalid(entries: Entries, shade_opacity: Option<Binary64>) -> bool {
    with_opacity(with_background_image(entries), shade_opacity).1
}

/// The legacy shade that resolving `entries` converts to an opacity, if any.
pub open spec fn shade_to_convert(entries: Entries) -> Option<JsonNumber> {
    let e = with_background_image(entries);
    if schema_class_of(entries) == SchemaClass::Legacy && !has_key(
        e,
        key_name(SettingKey::BackgroundImageOpacity),
    ) && !has_key(e, wallpaper_opacity_name()) && has_key(e, wallpaper_shade_name())
        && shade_convertible(lookup(e, wallpaper_shade_name()).unwrap()) {
        match lookup(e, wallpaper_shade_name()).unwrap() {
            JsonData::Number(n) => Some(n),
            _ => None,
        }
    } else {
        None
    }
}

/// The user's entries that are resolved: migrated when the schema is legacy.
pub open spec fn user_entries(entries: Entries, shade_opacity: Option<Binary64>) -> Entries {
    with_header_mode(schema_entries(entries, shade_opacity))
}

/// The user's entries at the current schema version: migrated when the
/// schema is legacy.
pub open spec fn schema_entries(entries: Entries, shade_opacity: Option<Binary64>) -> Entries {
    if schema_class_of(entries) == SchemaClass::Legacy {
        migrated(entries, shade_opacity)
    } else {
        entries
    }
}

/// The value that key `k` resolves to: the user's value, normalized, when it
/// is valid, and the default value otherwise.
pub open spec fn resolved_data(user: Entries, k: SettingKey) -> JsonData {
    match lookup(user, key_name(k)) {
        Some(v) => match normalized(k, v) {
            Some(n) => n,
            None => default_data(k),
        },
        None => default_data(k),
    }
}

/// The settings that the user's entries resolve to.
pub open spec fn resolved_view(user: Entries) -> SettingsView {
    settings_of(|k: SettingKey| Some(resolved_data(user, k)))
}

/// Some key of the schema has a value that is not valid for it.
pub open spec fn has_invalid_value(user: Entries) -> bool {
    exists|j: int|
        0 <= j < 14 && #[trigger] lookup(user, key_name(key_at(j))) is Some && normalized(
            key_at(j),
            lookup(user, key_name(key_at(j))).unwrap(),
        ) is None
}

/// Some key that every settings file holds has no value.
pub open spec fn has_missing_key(user: Entries) -> bool {
    exists|j: int| 0 <= j < 13 && #[trigger] lookup(user, key_name(key_at(j))) is None
}

/// Some entry's key is not in the schema.
pub open spec fn has_unknown_key(user: Entries) -> bool {
    exists|i: int| 0 <= i < user.len() && #[trigger] key_named(user[i].0) is None
}

/// Resolution met something it could not use.
pub open spec fn resolution_invalid(entries: Entries, shade_opacity: Option<Binary64>) -> bool {
    let user = user_entries(entries, shade_opacity);
    ||| schema_class_of(entries) == SchemaClass::Legacy && migration_invalid(entries, shade_opacity)
    ||| schema_class_of(entries) == SchemaClass::Blank
    ||| has_invalid_value(user)
    ||| has_unknown_key(user)
}

/// Resolution changed what the file says.
pub open spec fn resolution_changed(entries: Entries, shade_opacity: Option<Binary64>) -> bool {
    ||| schema_class_of(entries) == SchemaClass::Legacy
    ||| schema_class_of(entries) == SchemaClass::Missing
    ||| has_header_flag(schema_entries(entries, shade_opacity))
    ||| has_missing_key(user_entries(entries, shade_opacity))
}

/// A parsed settings document.
#[derive(Debug, PartialEq)]
pub enum SettingsDocument {
    Object(JsonObject),
    /// A JSON value that is not an object.
    NotAnObject,
}

/// Why the whole settings file was set aside for the defaults.
#[derive(Clone, Copy, Debug, PartialEq, Eq, Structural)]
pub enum SettingsFallback {
    /// The top-level value is not a JSON object.
    NotAnObject,
    /// The schema version is not one that can be read.
    UnsupportedSchema,
}

/// The outcome of resolving a user's settings document.
#[derive(Debug)]
pub struct Resolution {
    /// The settings to use.
    pub settings: Settings,
    /// Whether the settings should be written back to the file: keys were
    /// added or migrated and nothing invalid was met.
    pub write_back: bool,
    /// Set when the document was set aside for the defaults.
    pub fallback: Option<SettingsFallback>,
}

/// The settings that resolving `document` gives.
pub open spec fn resolved_settings(document: SettingsDocument, shade_opacity: Option<Binary64>) -> SettingsView {
    match document {
        SettingsDocument::NotAnObject => defaults_view(),
        SettingsDocument::Object(o) => if schema_class_of(o@) == SchemaClass::Unsupported {
            defaults_view()
        } else {
            resolved_view(user_entries(o@, shade_opacity))
        },
    }
}

/// Whether resolving `document` asks for the file to be rewritten.
pub open spec fn resolved_write_back(document: SettingsDocument, shade_opacity: Option<Binary64>) -> bool {
    match document {
        SettingsDocument::NotAnObject => false,
        SettingsDocument::Object(o) => schema_class_of(o@) != SchemaClass::Unsupported
            && resolution_changed(o@, shade_opacity) && !resolution_invalid(o@, shade_opacity),
    }
}

/// Why resolving `document` sets it aside, if it does.
pub open spec fn resolved_fallback(document: SettingsDocument) -> Option<SettingsFallback> {
    match document {
        SettingsDocument::NotAnObject => Some(SettingsFallback::NotAnObject),
        SettingsDocument::Object(o) => if schema_class_of(o@) == SchemaClass::Unsupported {
            Some(SettingsFallback::UnsupportedSchema)
        } else {
            None
        },
    }
}

/// A document that is set aside is never written over.
pub proof fn law_set_aside_document_is_not_rewritten(
    document: SettingsDocument,
    shade_opacity: Option<Binary64>,
)
    requires
        resolved_fallback(document) is Some,
    ensures
        !resolved_write_back(document, shade_opacity),
        resolved_settings(document, shade_opacity) == defaults_view(),
{
}

/// The value of key `k` in the embedded defaults.
pub fn default_value(k: SettingKey) -> (value: JsonValue)
    ensures
        value@ == default_data(k),
{
    match k {
        SettingKey::BackgroundImage => JsonValue::text("builtin"),
        SettingKey::BackgroundImageOpacity => JsonValue::Number(
            JsonNumber::Float(Binary64::from_bits(DEFAULT_BACKGROUND_IMAGE_OPACITY_BITS)),
        ),
        SettingKey::FontFamily => JsonValue::text("Monospace"),
        SettingKey::FontSize => JsonValue::Number(
            JsonNumber::Float(Binary64::from_bits(DEFAULT_FONT_SIZE_BITS)),
        ),
        SettingKey::PaddingBottom | SettingKey::PaddingLeft | SettingKey::PaddingRight
        | SettingKey::PaddingTop => JsonValue::Number(JsonNumber::Unsigned(16)),
        SettingKey::SchemaVersion => JsonValue::Number(JsonNumber::Unsigned(3)),
        SettingKey::ScrollbackLines => JsonValue::Number(JsonNumber::Unsigned(10000)),
        SettingKey::Shell => JsonValue::Null,
        SettingKey::Theme => JsonValue::text("one-half-dark"),
        SettingKey::WindowOpacity => JsonValue::Number(
            JsonNumber::Float(Binary64::from_bits(DEFAULT_WINDOW_OPACITY_BITS)),
        ),
        SettingKey::HeaderMode => JsonValue::Null,
    }
}

/// How the `schema_version` entry of `object` is treated.
pub fn schema_class(object: &JsonObject) -> (class: SchemaClass)
    ensures
        class == schema_class_of(object@),
{
    match object.get(SettingKey::SchemaVersion.name()) {
        None => SchemaClass::Missing,
        Some(JsonValue::Number(n)) => match n.as_u64() {
            Some(v) => if v == 1 || v == 2 {
                SchemaClass::Legacy
            } else if v == 3 {
                SchemaClass::Current
            } else {
                SchemaClass::Unsupported
            },
            None => SchemaClass::Unsupported,
        },
        Some(JsonValue::Null) => SchemaClass::Blank,
        Some(JsonValue::Text(s)) => if is_blank(s.as_str()) {
            SchemaClass::Blank
        } else {
            SchemaClass::Unsupported
        },
        Some(_) => SchemaClass::Unsupported,
    }
}

fn is_convertible_shade(value: &JsonValue) -> (result: bool)
    ensures
        result == shade_convertible(value@),
{
    proof {
        crate::binary64::lemma_moderate(float(ZERO_BITS));
        crate::binary64::lemma_moderate(float(MAX_WINDOW_OPACITY_BITS));
    }
    match value {
        JsonValue::Number(n) => n.in_range(
            Binary64::from_bits(ZERO_BITS),
            Binary64::from_bits(MAX_WINDOW_OPACITY_BITS),
        ),
        _ => false,
    }
}

/// Moves the keys of schema versions 1 and 2 to their current names and sets
/// the current schema version. `shade_opacity` is the opacity that the
/// legacy shade (see `legacy_shade`) converts to. Returns whether a shade was
/// met that does not convert.
pub fn migrate_legacy_settings(settings: &mut JsonObject, shade_opacity: Option<Binary64>) -> (invalid: bool)
    ensures
        final(settings)@ == migrated(old(settings)@, shade_opacity),
        invalid == migration_invalid(old(settings)@, shade_opacity),
{
    let background_image = SettingKey::BackgroundImage.name();
    if !settings.contains_key(background_image) {
        let wallpaper = match settings.get("wallpaper") {
            Some(w) => Some(w.duplicate()),
            None => None,
        };
        match wallpaper {
            Some(w) => settings.insert(copy_str(background_image), w),
            None => {},
        }
    }
    let ghost e1 = settings@;
    assert(e1 == with_background_image(old(settings)@));
    let opacity = SettingKey::BackgroundImageOpacity.name();
    let mut invalid = false;
    if !settings.contains_key(opacity) {
        let from_opacity = match settings.get("wallpaper_opacity") {
            Some(o) => Some(o.duplicate()),
            None => None,
        };
        match from_opacity {
            Some(o) => settings.insert(copy_str(opacity), o),
            None => {
                let convertible = match settings.get("wallpaper_shade") {
                    Some(shade) => Some(is_convertible_shade(shade)),
                    None => None,
                };
                match convertible {
                    Some(true) => match shade_opacity {
                        Some(o) => settings.insert(
                            copy_str(opacity),
                            JsonValue::Number(JsonNumber::Float(o)),
                        ),
                        None => {
                            invalid = true;
                        },
                    },
                    Some(false) => {
                        invalid = true;
                    },
                    None => {},
                }
            },
        }
    }
    assert(settings@ == with_opacity(e1, shade_opacity).0);
    settings.remove("wallpaper");
    settings.remove("wallpaper_opacity");
    settings.remove("wallpaper_shade");
    settings.insert(
        copy_str(SettingKey::SchemaVersion.name()),
        JsonValue::Number(JsonNumber::Unsigned(3)),
    );
    invalid
}

/// Replaces a `header_visible` flag by the header mode it selects (see
/// `with_header_mode`). Returns whether there was such a flag.
pub fn migrate_header_visibility(settings: &mut JsonObject) -> (found: bool)
    ensures
        final(settings)@ == with_header_mode(old(settings)@),
        found == has_header_flag(old(settings)@),
{
    let flag = match settings.get("header_visible") {
        Some(JsonValue::Bool(visible)) => Some(*visible),
        _ => None,
    };
    match flag {
        Some(visible) => {
            settings.remove("header_visible");
            if !settings.contains_key(SettingKey::HeaderMode.name()) {
                let mode = if visible {
                    "full"
                } else {
                    "hidden"
                };
                settings.insert(copy_str(SettingKey::HeaderMode.name()), JsonValue::text(mode));
            }
            true
        },
        None => false,
    }
}

/// The legacy shade in `object` that resolution converts to a background
/// image opacity, as a binary64 number. The conversion itself is floating
/// point arithmetic done by the caller; its result is handed to
/// `resolve_user_settings`.
pub fn legacy_shade(object: &JsonObject) -> (shade: Option<Binary64>)
    ensures
        shade == match shade_to_convert(object@) {
            Some(n) => Some(crate::settings::binary64_of(n)),
            None => None,
        },
{
    if schema_class(object) != SchemaClass::Legacy {
        return None;
    }
    let background_image = SettingKey::BackgroundImage.name();
    let mut probe = object.duplicate();
    if !probe.contains_key(background_image) {
        let wallpaper = match probe.get("wallpaper") {
            Some(w) => Some(w.duplicate()),
            None => None,
        };
        match wallpaper {
            Some(w) => probe.insert(copy_str(background_image), w),
            None => {},
        }
    }
    assert(probe@ == with_background_image(object@));
    if probe.contains_key(SettingKey::BackgroundImageOpacity.name()) || probe.contains_key(
        "wallpaper_opacity",
    ) {
        return None;
    }
    match probe.get("wallpaper_shade") {
        Some(JsonValue::Number(n)) => {
            proof {
                crate::binary64::lemma_moderate(float(ZERO_BITS));
                crate::binary64::lemma_moderate(float(MAX_WINDOW_OPACITY_BITS));
            }
            if n.in_range(
                Binary64::from_bits(ZERO_BITS),
                Binary64::from_bits(MAX_WINDOW_OPACITY_BITS),
            ) {
                {
                    proof {
                        crate::settings::lemma_in_range_moderate(*n, ZERO_BITS, MAX_WINDOW_OPACITY_BITS);
                    }
                    Some(crate::settings::number_to_binary64(*n))
                }
            } else {
                None
            }
        },
        _ => None,
    }
}


/// A value that `normalized` returns is returned again for itself.
pub proof fn lemma_normalized_fixed(k: SettingKey, v: JsonData)
    requires
        normalized(k, v) is Some,
    ensures
        normalized(k, normalized(k, v).unwrap()) == normalized(k, v),
{
    crate::settings::lemma_header_mode_names();
}

/// An object holding a fixed point of `normalized` under every key reads
/// without fault, and its values pass the schema's checks.
proof fn lemma_fixed_complete(values: spec_fn(SettingKey) -> JsonData)
    requires
        forall|k: SettingKey| #[trigger] normalized(k, values(k)) == Some(values(k)),
    ensures
        object_fault(complete_entries(values)) is None,
        lookup_of(complete_entries(values)) == (|k: SettingKey| Some(values(k))),
        first_invalid(lookup_of(complete_entries(values))) is None,
{
    assert forall|k: SettingKey| #[trigger] readable(k, values(k)) by {
        assert(normalized(k, values(k)) == Some(values(k)));
    }
    lemma_complete_object(values);
    let look = |k: SettingKey| Some(values(k));
    assert(normalized(SettingKey::SchemaVersion, values(SettingKey::SchemaVersion)) == Some(
        values(SettingKey::SchemaVersion),
    ));
    assert(normalized(SettingKey::Shell, values(SettingKey::Shell)) == Some(
        values(SettingKey::Shell),
    ));
    assert(normalized(SettingKey::FontFamily, values(SettingKey::FontFamily)) == Some(
        values(SettingKey::FontFamily),
    ));
    assert(normalized(SettingKey::FontSize, values(SettingKey::FontSize)) == Some(
        values(SettingKey::FontSize),
    ));
    assert(normalized(SettingKey::ScrollbackLines, values(SettingKey::ScrollbackLines)) == Some(
        values(SettingKey::ScrollbackLines),
    ));
    assert(normalized(
        SettingKey::BackgroundImageOpacity,
        values(SettingKey::BackgroundImageOpacity),
    ) == Some(values(SettingKey::BackgroundImageOpacity)));
    assert(normalized(SettingKey::WindowOpacity, values(SettingKey::WindowOpacity)) == Some(
        values(SettingKey::WindowOpacity),
    ));
    assert(first_invalid(look) is None);
}

/// Every resolved value is a fixed point of `normalized`.
proof fn lemma_resolved_fixed(user: Entries)
    ensures
        forall|k: SettingKey| #[trigger]
            normalized(k, resolved_data(user, k)) == Some(resolved_data(user, k)),
{
    lemma_defaults_valid();
    assert forall|k: SettingKey| #[trigger]
        normalized(k, resolved_data(user, k)) == Some(resolved_data(user, k)) by {
        match lookup(user, key_name(k)) {
            Some(v) => {
                if normalized(k, v) is Some {
                    lemma_normalized_fixed(k, v);
                }
            },
            None => {},
        }
    }
}

/// Resolves a user's settings document against the embedded defaults.
///
/// A document that is not an object, or whose schema version is unsupported,
/// gives the defaults. Otherwise a legacy document is migrated first; then
/// every key takes the user's value, normalized, when it is valid, and its
/// default value otherwise. `shade_opacity` is the opacity that the legacy
/// shade of the document converts to (see `legacy_shade`).
pub fn resolve_user_settings(
    document: &SettingsDocument,
    shade_opacity: Option<Binary64>,
    path: &str,
) -> (result: Result<Resolution, SettingsError>)
    ensures
        match result {
            Ok(r) => {
                &&& r.settings@.valid()
                &&& r.settings@ == resolved_settings(*document, shade_opacity)
                &&& r.write_back == resolved_write_back(*document, shade_opacity)
                &&& r.fallback == resolved_fallback(*document)
            },
            Err(_) => false,
        },
{
    let object = match document {
        SettingsDocument::NotAnObject => {
            return Ok(
                Resolution {
                    settings: Settings::defaults(),
                    write_back: false,
                    fallback: Some(SettingsFallback::NotAnObject),
                },
            );
        },
        SettingsDocument::Object(o) => o,
    };
    let class = schema_class(object);
    if class == SchemaClass::Unsupported {
        return Ok(
            Resolution {
                settings: Settings::defaults(),
                write_back: false,
                fallback: Some(SettingsFallback::UnsupportedSchema),
            },
        );
    }
    let mut user = object.duplicate();
    let mut invalid = false;
    let mut changed = false;
    if class == SchemaClass::Legacy {
        invalid = migrate_legacy_settings(&mut user, shade_opacity);
        changed = true;
    } else if class == SchemaClass::Missing {
        changed = true;
    } else if class == SchemaClass::Blank {
        invalid = true;
    }
    if migrate_header_visibility(&mut user) {
        changed = true;
    }
    let ghost u = user@;
    assert(u == user_entries(object@, shade_opacity));
    let ghost values = |k: SettingKey| resolved_data(u, k);
    let mut resolved = JsonObject::new();
    let mut missing = false;
    let mut bad_value = false;
    let mut i: usize = 0;
    proof {
        lemma_key_names();
        assert(resolved@ =~= complete_entries(values).take(0));
    }
    while i < SETTING_KEY_COUNT
        invariant
            i <= 14,
            user@ == u,
            values == (|k: SettingKey| resolved_data(u, k)),
            resolved@ == complete_entries(values).take(i as int),
            missing == exists|j: int|
                0 <= j < i && j < 13 && #[trigger] lookup(u, key_name(key_at(j))) is None,
            bad_value == exists|j: int|
                0 <= j < i && #[trigger] lookup(u, key_name(key_at(j))) is Some && normalized(
                    key_at(j),
                    lookup(u, key_name(key_at(j))).unwrap(),
                ) is None,
        decreases 14 - i,
    {
        let k = SettingKey::at(i);
        let ghost found = lookup(u, key_name(k));
        let value = match user.get(k.name()) {
            Some(v) => match normalize_value(k, v) {
                Some(n) => n,
                None => {
                    bad_value = true;
                    default_value(k)
                },
            },
            None => {
                if i < WRITTEN_KEY_COUNT {
                    missing = true;
                }
                default_value(k)
            },
        };
        proof {
            lemma_key_names();
            assert(value@ == values(k));
            assert(found == lookup(u, key_name(key_at(i as int))));
            assert forall|j: int| 0 <= j < resolved@.len() implies resolved@[j].0 != key_name(k) by {
                assert(resolved@[j] == complete_entries(values)[j]);
                assert(key_index(key_at(j)) == j);
                assert(key_at(j) != k);
            }
            lemma_lookup_absent(resolved@, key_name(k));
            use_type_invariant(&resolved);
            crate::json::lemma_set_entry(resolved@, key_name(k), value@);
        }
        resolved.insert(copy_str(k.name()), value);
        proof {
            assert(resolved@ =~= complete_entries(values).take(i + 1));
        }
        i = i + 1;
    }
    let mut unknown = false;
    let n = user.len();
    let mut j: usize = 0;
    while j < n
        invariant
            n == u.len(),
            user@ == u,
            j <= n,
            unknown == exists|m: int| 0 <= m < j && #[trigger] key_named(u[m].0) is None,
        decreases n - j,
    {
        let (name, _) = user.entry(j);
        if SettingKey::named(name.as_str()).is_none() {
            unknown = true;
        }
        j = j + 1;
    }
    proof {
        assert(complete_entries(values).take(14) =~= complete_entries(values));
        lemma_resolved_fixed(u);
        assert forall|k: SettingKey| #[trigger] normalized(k, values(k)) == Some(values(k)) by {
            assert(values(k) == resolved_data(u, k));
        }
        lemma_fixed_complete(values);
        assert(lookup_of(resolved@) == (|k: SettingKey| Some(resolved_data(u, k))));
    }
    let settings = match settings_from_object(&resolved, path) {
        Ok(s) => s,
        Err(e) => {
            return Err(e);
        },
    };
    Ok(
        Resolution {
            settings,
            write_back: (changed || missing) && !(invalid || bad_value || unknown),
            fallback: None,
        },
    )
}


/// A resolved background image is never blank text: blank text resolves to
/// no background image.
pub proof fn law_resolved_background_image_is_not_blank(user: Entries)
    ensures
        resolved_view(user).background_image matches Some(p) ==> !is_blank_spec(p),
{
    reveal_strlit("builtin");
    assert(!crate::text::is_whitespace_spec("builtin"@[0]));
}

/// Valid settings whose background image is not blank text, written out and
/// resolved as a user's file, resolve to the same settings and are not
/// written back.
pub proof fn law_written_settings_resolve_unchanged(s: SettingsView, shade_opacity: Option<Binary64>)
    requires
        s.valid(),
        s.background_image matches Some(p) ==> !is_blank_spec(p),
    ensures
        schema_class_of(crate::settings::entries_of(s)) == SchemaClass::Current,
        user_entries(crate::settings::entries_of(s), shade_opacity) == crate::settings::entries_of(
            s,
        ),
        resolved_view(crate::settings::entries_of(s)) == s,
        !resolution_changed(crate::settings::entries_of(s), shade_opacity),
        !resolution_invalid(crate::settings::entries_of(s), shade_opacity),
{
    let written = crate::settings::entries_of(s);
    let values = |k: SettingKey| crate::settings::serialized(s, k);
    crate::settings::lemma_complete_lookup(values);
    crate::settings::law_written_settings_read_back(s);
    crate::settings::lemma_header_mode_names();
    assert forall|k: SettingKey| #[trigger] readable(k, values(k)) by {
        reveal_strlit("one-half-dark");
    }
    if s.header_mode is Some {
        assert(written =~= complete_entries(values));
    } else {
        assert(written =~= complete_entries(values).take(13));
        crate::settings::lemma_written_object(values);
        assert forall|k: SettingKey| k != SettingKey::HeaderMode implies #[trigger] lookup(
            written,
            key_name(k),
        ) == Some(values(k)) by {
            assert(lookup_of(written)(k) == crate::settings::without_header_mode(values)(k));
        }
        assert(lookup_of(written)(SettingKey::HeaderMode) == crate::settings::without_header_mode(
            values,
        )(SettingKey::HeaderMode));
    }
    lemma_header_visible_name();
    assert forall|j: int| 0 <= j < written.len() implies written[j].0 != header_visible_name() by {
        assert(written[j].0 == key_name(key_at(j)));
    }
    lemma_lookup_absent(written, header_visible_name());
    lemma_key_names();
    reveal_strlit("one-half-dark");
    assert forall|k: SettingKey| k != SettingKey::HeaderMode implies #[trigger] lookup(
        written,
        key_name(k),
    ) == Some(values(k)) by {}
    assert(lookup(written, key_name(SettingKey::HeaderMode)) == if s.header_mode is Some {
        Some(values(SettingKey::HeaderMode))
    } else {
        None
    });
    assert forall|k: SettingKey| #[trigger] normalized(k, values(k)) == Some(values(k)) by {}
    assert forall|k: SettingKey| #[trigger] resolved_data(written, k) == values(k) by {
        if k != SettingKey::HeaderMode {
            assert(lookup(written, key_name(k)) == Some(values(k)));
        }
    }
    let all = |k: SettingKey| Some(values(k));
    assert(settings_of(all).shell == s.shell);
    assert(settings_of(all) == s);
    assert((|k: SettingKey| Some(resolved_data(written, k))) =~= all);
    assert(schema_class_of(written) == SchemaClass::Current) by {
        assert(lookup(written, key_name(SettingKey::SchemaVersion)) == Some(
            values(SettingKey::SchemaVersion),
        ));
    }
    assert(!has_missing_key(written)) by {
        assert forall|j: int| 0 <= j < 13 implies #[trigger] lookup(written, key_name(key_at(j)))
            is Some by {
            assert(lookup(written, key_name(key_at(j))) == Some(values(key_at(j))));
        }
    }
    assert(!has_invalid_value(written)) by {
        assert forall|j: int| 0 <= j < 14 && #[trigger] lookup(written, key_name(key_at(j)))
            is Some implies normalized(key_at(j), lookup(written, key_name(key_at(j))).unwrap())
            is Some by {
            assert(normalized(key_at(j), values(key_at(j))) is Some);
        }
    }
    assert(!has_unknown_key(written)) by {
        assert forall|i: int| 0 <= i < written.len() implies #[trigger] key_named(written[i].0)
            is Some by {
            assert(written[i].0 == key_name(key_at(i)));
        }
    }
}


/// The settings that resolving a document gives are valid, and written out
/// and read again they resolve to themselves and are not written back.
pub proof fn law_resolution_is_stable(
    document: SettingsDocument,
    shade_opacity: Option<Binary64>,
    again: Option<Binary64>,
)
    ensures
        resolved_settings(document, shade_opacity).valid(),
        ({
            let r = resolved_settings(document, shade_opacity);
            let written = crate::settings::entries_of(r);
            &&& schema_class_of(written) == SchemaClass::Current
            &&& resolved_view(user_entries(written, again)) == r
            &&& !resolution_changed(written, again)
            &&& !resolution_invalid(written, again)
        }),
{
    let r = resolved_settings(document, shade_opacity);
    lemma_defaults_valid();
    reveal_strlit("builtin");
    assert(!crate::text::is_whitespace_spec("builtin"@[0]));
    match document {
        SettingsDocument::Object(o) => {
            if schema_class_of(o@) != SchemaClass::Unsupported {
                let u = user_entries(o@, shade_opacity);
                let values = |k: SettingKey| resolved_data(u, k);
                lemma_resolved_fixed(u);
                assert forall|k: SettingKey| #[trigger] normalized(k, values(k)) == Some(
                    values(k),
                ) by {
                    assert(values(k) == resolved_data(u, k));
                }
                lemma_fixed_complete(values);
                assert(lookup_of(complete_entries(values)) == (|k: SettingKey|
                    Some(resolved_data(u, k))));
                crate::settings::lemma_checked_settings_valid(
                    |k: SettingKey| Some(resolved_data(u, k)),
                );
                law_resolved_background_image_is_not_blank(u);
            }
        },
        SettingsDocument::NotAnObject => {},
    }
    law_written_settings_resolve_unchanged(r, again);
}

/// Settings edited in the settings window, saved and loaded again, are the
/// edited settings and are not written back; a background image path that
/// is whitespace only is the exception, as it loads as no background image.
pub proof fn law_saved_update_reloads(
    s: SettingsView,
    update: crate::settings::SettingsUpdate,
    shade_opacity: Option<Binary64>,
)
    requires
        s.valid(),
        update.background_image matches Some(p) ==> (p@.len() == 0 || !is_blank_spec(p@)),
    ensures
        ({
            let edited = crate::settings::updated(s, update);
            let written = crate::settings::entries_of(edited);
            &&& resolved_view(user_entries(written, shade_opacity)) == edited
            &&& !resolution_changed(written, shade_opacity)
            &&& !resolution_invalid(written, shade_opacity)
        }),
{
    crate::settings::law_update_keeps_settings_valid(s, update);
    law_written_settings_resolve_unchanged(crate::settings::updated(s, update), shade_opacity);
}

/// A schema 3 file that shows or hides the header with `header_visible`
/// and names no header mode loads with the full header for `true` and no
/// header for `false`.
pub proof fn law_header_visibility_selects_a_header_mode(
    entries: Entries,
    shade_opacity: Option<Binary64>,
    visible: bool,
)
    requires
        crate::json::distinct_keys(entries),
        schema_class_of(entries) == SchemaClass::Current,
        lookup(entries, header_visible_name()) == Some(JsonData::Bool(visible)),
        !has_key(entries, key_name(SettingKey::HeaderMode)),
    ensures
        resolved_view(user_entries(entries, shade_opacity)).header_mode == Some(
            if visible {
                HeaderMode::Full
            } else {
                HeaderMode::Hidden
            },
        ),
        resolution_changed(entries, shade_opacity),
{
    let name = key_name(SettingKey::HeaderMode);
    let removed = remove_entry(entries, header_visible_name());
    crate::json::lemma_remove_entry(entries, header_visible_name());
    lemma_header_visible_name();
    assert(lookup(removed, name) == lookup(entries, name));
    let text = if visible {
        "full"@
    } else {
        "hidden"@
    };
    crate::json::lemma_set_entry(removed, name, JsonData::Text(text));
    let user = user_entries(entries, shade_opacity);
    assert(user == set_entry(removed, name, JsonData::Text(text)));
    assert(lookup(user, name) == Some(JsonData::Text(text)));
    crate::settings::lemma_header_mode_names();
    reveal_strlit("full");
    reveal_strlit("hidden");
    assert(text == header_mode_name(
        if visible {
            HeaderMode::Full
        } else {
            HeaderMode::Hidden
        },
    ));
}

/// A file whose entries, once migrated, hold a key that is not in the
/// settings schema is never written back, so the key is never lost.
pub proof fn law_unknown_keys_block_the_write_back(
    document: SettingsDocument,
    shade_opacity: Option<Binary64>,
    i: int,
)
    requires
        document matches SettingsDocument::Object(o) && 0 <= i < user_entries(
            o@,
            shade_opacity,
        ).len() && forall|k: SettingKey| #[trigger] key_name(k) != user_entries(o@, shade_opacity)[i].0,
    ensures
        !resolved_write_back(document, shade_opacity),
{
    match document {
        SettingsDocument::Object(o) => {
            let user = user_entries(o@, shade_opacity);
            assert(key_named(user[i].0) is None) by {
                if key_named(user[i].0) is Some {
                    let k = key_named(user[i].0).unwrap();
                    assert(key_name(k) != user[i].0);
                }
            }
            assert(has_unknown_key(user));
        },
        SettingsDocument::NotAnObject => {},
    }
}

/// A settings object whose own entries hold a key that is neither in the
/// settings schema nor one that migration renames or replaces is never
/// written back, so the key survives.
pub proof fn law_unknown_file_keys_are_never_rewritten(
    document: SettingsDocument,
    shade_opacity: Option<Binary64>,
    i: int,
)
    requires
        document matches SettingsDocument::Object(o) && crate::json::distinct_keys(o@) && 0 <= i
            < o@.len() && (forall|k: SettingKey| #[trigger] key_name(k) != o@[i].0) && o@[i].0
            != wallpaper_name() && o@[i].0 != wallpaper_opacity_name() && o@[i].0
            != wallpaper_shade_name() && o@[i].0 != header_visible_name(),
    ensures
        !resolved_write_back(document, shade_opacity),
{
    match document {
        SettingsDocument::Object(o) => {
            let e = o@;
            let name = e[i].0;
            assert forall|j: int| 0 <= j < i implies e[j].0 != name by {}
            crate::json::lemma_lookup_at(e, name, i);
            lemma_legacy_names();
            lemma_key_names();
            let step1 = with_background_image(e);
            if !has_key(e, key_name(SettingKey::BackgroundImage)) && has_key(e, wallpaper_name()) {
                crate::json::lemma_set_entry(
                    e,
                    key_name(SettingKey::BackgroundImage),
                    lookup(e, wallpaper_name()).unwrap(),
                );
            }
            assert(crate::json::distinct_keys(step1) && lookup(step1, name) is Some);
            let step2 = with_opacity(step1, shade_opacity).0;
            let opacity = key_name(SettingKey::BackgroundImageOpacity);
            if !has_key(step1, opacity) {
                if has_key(step1, wallpaper_opacity_name()) {
                    crate::json::lemma_set_entry(
                        step1,
                        opacity,
                        lookup(step1, wallpaper_opacity_name()).unwrap(),
                    );
                } else if has_key(step1, wallpaper_shade_name()) && shade_convertible(
                    lookup(step1, wallpaper_shade_name()).unwrap(),
                ) && shade_opacity is Some {
                    crate::json::lemma_set_entry(
                        step1,
                        opacity,
                        JsonData::Number(JsonNumber::Float(shade_opacity.unwrap())),
                    );
                }
            }
            assert(crate::json::distinct_keys(step2) && lookup(step2, name) is Some);
            let r1 = remove_entry(step2, wallpaper_name());
            crate::json::lemma_remove_entry(step2, wallpaper_name());
            let r2 = remove_entry(r1, wallpaper_opacity_name());
            crate::json::lemma_remove_entry(r1, wallpaper_opacity_name());
            let r3 = remove_entry(r2, wallpaper_shade_name());
            crate::json::lemma_remove_entry(r2, wallpaper_shade_name());
            crate::json::lemma_set_entry(
                r3,
                key_name(SettingKey::SchemaVersion),
                JsonData::Number(JsonNumber::Unsigned(3)),
            );
            let base = schema_entries(e, shade_opacity);
            assert(crate::json::distinct_keys(base) && lookup(base, name) is Some);
            let user = user_entries(e, shade_opacity);
            lemma_header_visible_name();
            match lookup(base, header_visible_name()) {
                Some(JsonData::Bool(visible)) => {
                    let removed = remove_entry(base, header_visible_name());
                    crate::json::lemma_remove_entry(base, header_visible_name());
                    if !has_key(removed, key_name(SettingKey::HeaderMode)) {
                        crate::json::lemma_set_entry(
                            removed,
                            key_name(SettingKey::HeaderMode),
                            JsonData::Text(
                                if visible {
                                    "full"@
                                } else {
                                    "hidden"@
                                },
                            ),
                        );
                    }
                },
                _ => {},
            }
            assert(lookup(user, name) is Some);
            crate::json::lemma_lookup_found(user, name);
            let j = choose|j: int| 0 <= j < user.len() && user[j].0 == name && lookup(user, name)
                == Some(user[j].1);
            law_unknown_keys_block_the_write_back(document, shade_opacity, j);
        },
        SettingsDocument::NotAnObject => {},
    }
}

/// The `header_visible` key is not a key of the schema.
proof fn lemma_header_visible_name()
    ensures
        forall|k: SettingKey| #[trigger] key_name(k) != header_visible_name(),
{
    reveal_strlit("header_visible");
    lemma_key_names();
    reveal_strlit("background_image");
    reveal_strlit("background_image_opacity");
    reveal_strlit("font_family");
    reveal_strlit("font_size");
    reveal_strlit("header_mode");
    reveal_strlit("padding_bottom");
    reveal_strlit("padding_left");
    reveal_strlit("padding_right");
    reveal_strlit("padding_top");
    reveal_strlit("schema_version");
    reveal_strlit("scrollback_lines");
    reveal_strlit("shell");
    reveal_strlit("theme");
    reveal_strlit("window_opacity");
    assert forall|k: SettingKey| #[trigger] key_name(k) != header_visible_name() by {
        if k == SettingKey::HeaderMode {
            assert(key_name(k)[7] != header_visible_name()[7]);
        } else {
            assert(key_name(k)[0] != header_visible_name()[0]);
        }
    }
}

/// The keys of schema versions 1 and 2 are distinct from each other and
/// from every key of the schema.
proof fn lemma_legacy_names()
    ensures
        forall|k: SettingKey| #[trigger] key_name(k) != wallpaper_name(),
        forall|k: SettingKey| #[trigger] key_name(k) != wallpaper_opacity_name(),
        forall|k: SettingKey| #[trigger] key_name(k) != wallpaper_shade_name(),
        wallpaper_name() != wallpaper_opacity_name(),
        wallpaper_name() != wallpaper_shade_name(),
        wallpaper_opacity_name() != wallpaper_shade_name(),
{
    reveal_strlit("wallpaper");
    reveal_strlit("wallpaper_opacity");
    reveal_strlit("wallpaper_shade");
    lemma_key_names();
    reveal_strlit("background_image");
    reveal_strlit("background_image_opacity");
    reveal_strlit("font_family");
    reveal_strlit("font_size");
    reveal_strlit("header_mode");
    reveal_strlit("padding_bottom");
    reveal_strlit("padding_left");
    reveal_strlit("padding_right");
    reveal_strlit("padding_top");
    reveal_strlit("schema_version");
    reveal_strlit("scrollback_lines");
    reveal_strlit("shell");
    reveal_strlit("theme");
    reveal_strlit("window_opacity");
    assert forall|k: SettingKey| #[trigger] key_name(k) != wallpaper_name() by {
        if k == SettingKey::WindowOpacity {
            assert(key_name(k)[1] != wallpaper_name()[1]);
        } else {
            assert(key_name(k)[0] != wallpaper_name()[0]);
        }
    }
    assert forall|k: SettingKey| #[trigger] key_name(k) != wallpaper_opacity_name() by {
        if k == SettingKey::WindowOpacity {
            assert(key_name(k)[1] != wallpaper_opacity_name()[1]);
        } else {
            assert(key_name(k)[0] != wallpaper_opacity_name()[0]);
        }
    }
    assert forall|k: SettingKey| #[trigger] key_name(k) != wallpaper_shade_name() by {
        if k == SettingKey::WindowOpacity {
            assert(key_name(k)[1] != wallpaper_shade_name()[1]);
        } else {
            assert(key_name(k)[0] != wallpaper_shade_name()[0]);
        }
    }
    assert(wallpaper_name().len() != wallpaper_opacity_name().len());
    assert(wallpaper_name().len() != wallpaper_shade_name().len());
    assert(wallpaper_opacity_name()[10] != wallpaper_shade_name()[10]);
}

/// Migration names the background image by `wallpaper` and its opacity by
/// `wallpaper_opacity` or the converted `wallpaper_shade`, unless they are
/// named already; removes the old keys; sets the current schema version;
/// and keeps every other entry.
pub proof fn law_migration_renames_legacy_keys(entries: Entries, shade_opacity: Option<Binary64>)
    requires
        crate::json::distinct_keys(entries),
    ensures
        ({
            let m = migrated(entries, shade_opacity);
            let image = key_name(SettingKey::BackgroundImage);
            let opacity = key_name(SettingKey::BackgroundImageOpacity);
            let schema = key_name(SettingKey::SchemaVersion);
            &&& lookup(m, schema) == Some(JsonData::Number(JsonNumber::Unsigned(3)))
            &&& !has_key(m, wallpaper_name())
            &&& !has_key(m, wallpaper_opacity_name())
            &&& !has_key(m, wallpaper_shade_name())
            &&& lookup(m, image) == if has_key(entries, image) {
                lookup(entries, image)
            } else {
                lookup(entries, wallpaper_name())
            }
            &&& lookup(m, opacity) == if has_key(entries, opacity) {
                lookup(entries, opacity)
            } else if has_key(entries, wallpaper_opacity_name()) {
                lookup(entries, wallpaper_opacity_name())
            } else if has_key(entries, wallpaper_shade_name()) && shade_convertible(
                lookup(entries, wallpaper_shade_name()).unwrap(),
            ) && shade_opacity is Some {
                Some(JsonData::Number(JsonNumber::Float(shade_opacity.unwrap())))
            } else {
                None
            }
            &&& forall|k: Seq<char>|
                k != image && k != opacity && k != schema && k != wallpaper_name() && k
                    != wallpaper_opacity_name() && k != wallpaper_shade_name() ==> #[trigger] lookup(
                    m,
                    k,
                ) == lookup(entries, k)
        }),
{
    lemma_legacy_names();
    lemma_key_names();
    let image = key_name(SettingKey::BackgroundImage);
    let opacity = key_name(SettingKey::BackgroundImageOpacity);
    let schema = key_name(SettingKey::SchemaVersion);
    let e1 = with_background_image(entries);
    if !has_key(entries, image) && has_key(entries, wallpaper_name()) {
        crate::json::lemma_set_entry(entries, image, lookup(entries, wallpaper_name()).unwrap());
    }
    let e2 = with_opacity(e1, shade_opacity).0;
    if !has_key(e1, opacity) && has_key(e1, wallpaper_opacity_name()) {
        crate::json::lemma_set_entry(e1, opacity, lookup(e1, wallpaper_opacity_name()).unwrap());
    } else if !has_key(e1, opacity) && has_key(e1, wallpaper_shade_name()) && shade_convertible(
        lookup(e1, wallpaper_shade_name()).unwrap(),
    ) && shade_opacity is Some {
        crate::json::lemma_set_entry(
            e1,
            opacity,
            JsonData::Number(JsonNumber::Float(shade_opacity.unwrap())),
        );
    }
    let e3 = remove_entry(e2, wallpaper_name());
    crate::json::lemma_remove_entry(e2, wallpaper_name());
    let e4 = remove_entry(e3, wallpaper_opacity_name());
    crate::json::lemma_remove_entry(e3, wallpaper_opacity_name());
    let e5 = remove_entry(e4, wallpaper_shade_name());
    crate::json::lemma_remove_entry(e4, wallpaper_shade_name());
    crate::json::lemma_set_entry(e5, schema, JsonData::Number(JsonNumber::Unsigned(3)));
}

/// What reading the settings file gave.
#[derive(Debug, PartialEq)]
pub enum SettingsSource {
    /// The file does not exist.
    Missing,
    /// The file exists but could not be read as text.
    Unreadable,
    /// The text is not JSON.
    Malformed,
    Document(SettingsDocument),
}

/// Why settings from the defaults, or only some of the file's values, are
/// used.
#[derive(Clone, Copy, Debug, PartialEq, Eq, Structural)]
pub enum LoadWarning {
    Unreadable,
    Malformed,
    NotAnObject,
    UnsupportedSchema,
}

/// The settings to use at startup, and whether to write them to the file.
#[derive(Debug)]
pub struct LoadPlan {
    pub settings: Settings,
    /// Write the settings to the file: it is missing, or resolution asks for
    /// it to be rewritten.
    pub write: bool,
    pub warning: Option<LoadWarning>,
}

/// Decides the settings to use after reading the settings file: the
/// defaults, created in a missing file, or left beside a file that cannot be
/// read or parsed; else the resolution of the document.
pub fn plan_settings_load(
    source: &SettingsSource,
    shade_opacity: Option<Binary64>,
    path: &str,
) -> (plan: LoadPlan)
    ensures
        plan.settings@.valid(),
        match source {
            SettingsSource::Missing => plan.settings@ == defaults_view() && plan.write
                && plan.warning is None,
            SettingsSource::Unreadable => plan.settings@ == defaults_view() && !plan.write
                && plan.warning == Some(LoadWarning::Unreadable),
            SettingsSource::Malformed => plan.settings@ == defaults_view() && !plan.write
                && plan.warning == Some(LoadWarning::Malformed),
            SettingsSource::Document(d) => {
                &&& plan.settings@ == resolved_settings(*d, shade_opacity)
                &&& plan.write == resolved_write_back(*d, shade_opacity)
                &&& plan.warning == match resolved_fallback(*d) {
                    Some(SettingsFallback::NotAnObject) => Some(LoadWarning::NotAnObject),
                    Some(SettingsFallback::UnsupportedSchema) => Some(
                        LoadWarning::UnsupportedSchema,
                    ),
                    None => None,
                }
            },
        },
{
    match source {
        SettingsSource::Missing => LoadPlan { settings: Settings::defaults(), write: true, warning: None },
        SettingsSource::Unreadable => LoadPlan {
            settings: Settings::defaults(),
            write: false,
            warning: Some(LoadWarning::Unreadable),
        },
        SettingsSource::Malformed => LoadPlan {
            settings: Settings::defaults(),
            write: false,
            warning: Some(LoadWarning::Malformed),
        },
        SettingsSource::Document(d) => match resolve_user_settings(d, shade_opacity, path) {
            Ok(r) => LoadPlan {
                settings: r.settings,
                write: r.write_back,
                warning: match r.fallback {
                    Some(SettingsFallback::NotAnObject) => Some(LoadWarning::NotAnObject),
                    Some(SettingsFallback::UnsupportedSchema) => Some(
                        LoadWarning::UnsupportedSchema,
                    ),
                    None => None,
                },
            },
            Err(_) => LoadPlan {
                settings: Settings::defaults(),
                write: false,
                warning: None,
            },
        },
    }
}

/// The document that settings text is read as: `None` when it is not JSON,
/// else the object it holds, or `NotAnObject`.
pub fn parse_settings_text(text: &str) -> (document: Option<SettingsDocument>)
    ensures
        match document {
            None => parsed_json(text@) is None,
            Some(SettingsDocument::NotAnObject) => parsed_json(text@) is Some && tree_object(
                parsed_json(text@).unwrap(),
            ) is None,
            Some(SettingsDocument::Object(o)) => parsed_json(text@) is Some && tree_object(
                parsed_json(text@).unwrap(),
            ) == Some(o@),
        },
{
    match crate::json::parse_json_text(text) {
        None => None,
        Some(tree) => match tree_to_object(&tree) {
            Some(object) => Some(SettingsDocument::Object(object)),
            None => Some(SettingsDocument::NotAnObject),
        },
    }
}

/// What the text of a settings file gives to `plan_settings_load`: text
/// that is not JSON is malformed; otherwise its document.
pub fn settings_source_of_text(text: &str) -> (source: SettingsSource)
    ensures
        match source {
            SettingsSource::Malformed => parsed_json(text@) is None,
            SettingsSource::Document(SettingsDocument::NotAnObject) => parsed_json(text@) is Some
                && tree_object(parsed_json(text@).unwrap()) is None,
            SettingsSource::Document(SettingsDocument::Object(o)) => parsed_json(text@) is Some
                && tree_object(parsed_json(text@).unwrap()) == Some(o@),
            _ => false,
        },
{
    match parse_settings_text(text) {
        None => SettingsSource::Malformed,
        Some(document) => SettingsSource::Document(document),
    }
}

/// The settings object that selecting the header mode `mode` writes, given
/// what the settings file held: the file's object with `header_mode` set and
/// every other entry kept; the defaults with that mode where there is no
/// file; and nothing where the file cannot be read as an object, which is
/// left as it is.
pub fn header_mode_update(source: &SettingsSource, mode: HeaderMode) -> (object: Option<JsonObject>)
    ensures
        match source {
            SettingsSource::Missing => object matches Some(o) && o@ == crate::settings::entries_of(
                SettingsView { header_mode: Some(mode), ..defaults_view() },
            ),
            SettingsSource::Document(SettingsDocument::Object(d)) => object matches Some(o) && o@
                == set_entry(d@, key_name(SettingKey::HeaderMode), JsonData::Text(header_mode_name(mode))),
            _ => object is None,
        },
{
    match source {
        SettingsSource::Missing => {
            let mut settings = Settings::defaults();
            settings.set_header_mode(mode);
            Some(settings.to_object())
        },
        SettingsSource::Document(SettingsDocument::Object(d)) => {
            let mut object = d.duplicate();
            object.insert(copy_str(SettingKey::HeaderMode.name()), JsonValue::text(mode.name()));
            Some(object)
        },
        _ => None,
    }
}

} // verus!
