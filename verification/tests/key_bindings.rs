use zter::key_bindings::{
    display_key_name, runtime_binding, KeyAction, KeyBinding, KeyBindingError, KeyBindings,
    KeyMatchMode, KeyModifier, ReservedShortcut, RuntimeKeyBindings,
};
use zter::keys::Modifiers;

const KEY_LOWER_C: u32 = 0x063;
const KEY_LOWER_D: u32 = 0x064;
const KEY_LOWER_N: u32 = 0x06e;
const KEY_LOWER_T: u32 = 0x074;
const KEY_LOWER_Z: u32 = 0x07a;
const KEY_THAI_SARAAE: u32 = 0xde3;

fn binding(key: &str, key_value: Option<u32>, modifiers: &[KeyModifier]) -> KeyBinding {
    KeyBinding {
        key: key.to_owned(),
        key_value,
        modifiers: modifiers.to_vec(),
        match_mode: KeyMatchMode::Logical,
    }
}

fn empty_bindings() -> KeyBindings {
    KeyBindings {
        new_tab: Vec::new(),
        previous_tab: Vec::new(),
        next_tab: Vec::new(),
        copy: Vec::new(),
        paste: Vec::new(),
        zoom_in: Vec::new(),
        zoom_out: Vec::new(),
        zoom_reset: Vec::new(),
    }
}

fn control() -> Modifiers {
    Modifiers {
        control: true,
        ..Modifiers::default()
    }
}

/// The runtime bindings, where only the key `c` has a key code (54).
fn runtime(bindings: &KeyBindings) -> RuntimeKeyBindings {
    let resolved = bindings.resolved_bindings();
    RuntimeKeyBindings {
        bindings: resolved
            .into_iter()
            .map(|r| {
                let codes = if r.key == KEY_LOWER_C { vec![54] } else { Vec::new() };
                runtime_binding(r, codes)
            })
            .collect(),
    }
}

#[test]
fn logical_and_physical_bindings_match_their_requested_inputs() {
    let mut bindings = empty_bindings();
    bindings.new_tab = vec![
        binding("t", Some(KEY_LOWER_T), &[KeyModifier::Control]),
        binding("n", Some(KEY_LOWER_N), &[KeyModifier::Control, KeyModifier::Shift]),
    ];
    let mut copy = binding("c", Some(KEY_LOWER_C), &[KeyModifier::Control]);
    copy.match_mode = KeyMatchMode::Physical;
    bindings.copy = vec![copy];
    assert_eq!(bindings.validate(), Ok(()));
    let runtime = runtime(&bindings);
    let control_shift = Modifiers {
        shift: true,
        ..control()
    };
    let control_alt = Modifiers {
        alt: true,
        ..control()
    };

    assert_eq!(runtime.action_for_event(KEY_LOWER_T, 28, control()), Some(KeyAction::NewTab));
    assert_eq!(runtime.action_for_event(KEY_LOWER_T, 28, control_shift), None);
    assert_eq!(runtime.action_for_event(KEY_LOWER_T, 28, control_alt), None);
    assert_eq!(runtime.action_for_event(KEY_LOWER_N, 57, control_shift), Some(KeyAction::NewTab));
    assert_eq!(runtime.action_for_event(KEY_THAI_SARAAE, 54, control()), Some(KeyAction::Copy));
    assert_eq!(runtime.action_for_event(KEY_THAI_SARAAE, 54, control_shift), None);
    assert_eq!(runtime.action_for_event(KEY_LOWER_C, 55, control()), None);
}

#[test]
fn empty_binding_list_disables_an_action() {
    let bindings = empty_bindings();
    let runtime = runtime(&bindings);

    assert_eq!(runtime.action_for_event(KEY_LOWER_T, 28, control()), None);
}

#[test]
fn conflicting_bindings_are_rejected() {
    let mut bindings = empty_bindings();
    bindings.new_tab = vec![binding("t", Some(KEY_LOWER_T), &[KeyModifier::Control])];
    bindings.next_tab = vec![binding("T", Some(KEY_LOWER_T), &[KeyModifier::Control])];

    let error = bindings.validate().unwrap_err();

    assert_eq!(
        error,
        KeyBindingError::Conflict {
            action: KeyAction::NextTab,
            previous: KeyAction::NewTab
        }
    );
    assert!(error.message().contains("next_tab conflicts with new_tab"));
}

#[test]
fn terminal_control_bindings_are_reserved() {
    let mut bindings = empty_bindings();
    bindings.new_tab = vec![binding("d", Some(KEY_LOWER_D), &[KeyModifier::Control])];

    assert!(bindings.validate().is_err());
}

#[test]
fn labels_use_compact_modifier_and_key_names() {
    let page_up = binding("Page_Up", Some(0xff55), &[KeyModifier::Control, KeyModifier::Shift]);
    assert_eq!(page_up.label(), "Ctrl+Shift+PageUp");

    let copy = binding("c", Some(KEY_LOWER_C), &[KeyModifier::Control]);
    assert_eq!(copy.label(), "Ctrl+C");
}

#[test]
fn each_binding_fault_is_reported_with_its_message() {
    let mut unknown = empty_bindings();
    unknown.paste = vec![binding("nokey", None, &[KeyModifier::Control])];
    let error = unknown.validate().unwrap_err();
    assert_eq!(error, KeyBindingError::UnknownKey("nokey".to_owned()));
    assert_eq!(error.message(), "unknown key name \"nokey\"");

    let mut twice = empty_bindings();
    twice.zoom_in = vec![binding(
        "equal",
        Some(0x03d),
        &[KeyModifier::Control, KeyModifier::Control],
    )];
    let error = twice.validate().unwrap_err();
    assert_eq!(error, KeyBindingError::DuplicateModifier("equal".to_owned()));
    assert_eq!(error.message(), "duplicate modifier in key binding for \"equal\"");

    let mut suspend = empty_bindings();
    suspend.zoom_out = vec![binding(
        "z",
        Some(KEY_LOWER_Z),
        &[KeyModifier::Shift, KeyModifier::Control],
    )];
    let error = suspend.validate().unwrap_err();
    assert_eq!(error, KeyBindingError::Reserved(ReservedShortcut::Suspend));
    assert_eq!(
        error.message(),
        "Ctrl+Z and Ctrl+Shift+Z are reserved for terminal suspend handling"
    );

    let mut interrupt = empty_bindings();
    interrupt.paste = vec![binding("c", Some(KEY_LOWER_C), &[KeyModifier::Control])];
    assert_eq!(
        interrupt.validate(),
        Err(KeyBindingError::Reserved(ReservedShortcut::Interrupt))
    );
    let mut copy = empty_bindings();
    copy.copy = vec![binding("c", Some(KEY_LOWER_C), &[KeyModifier::Control])];
    assert_eq!(copy.validate(), Ok(()));
}

#[test]
fn primary_label_shows_the_first_binding_of_an_action() {
    let mut bindings = empty_bindings();
    bindings.zoom_reset = vec![
        binding("0", Some(0x030), &[KeyModifier::Control]),
        binding("minus", Some(0x02d), &[KeyModifier::Alt]),
    ];
    assert_eq!(bindings.primary_label(KeyAction::ZoomReset), Some("Ctrl+0".to_owned()));
    assert_eq!(bindings.primary_label(KeyAction::Copy), None);
    assert_eq!(display_key_name("minus"), "-");
    assert_eq!(display_key_name("equal"), "=");
    assert_eq!(display_key_name("Page_Down"), "PageDown");
    assert_eq!(display_key_name("ä"), "Ä");
    assert_eq!(display_key_name("Return"), "Return");
}
