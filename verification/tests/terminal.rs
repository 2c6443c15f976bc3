use zter::binary64::Binary64;
use zter::config::OsText;
use zter::keys::{
    clipboard_copy_route, clipboard_paste_route, clipboard_shortcut, distinct_keycodes,
    foreground_process_shortcut, is_control_hyperlink_click, tab_shortcut, terminal_zoom_scroll,
    terminal_zoom_shortcut, ClipboardCopyRoute, ClipboardPasteRoute, ClipboardShortcut,
    ClipboardShortcutKeycodes, ForegroundProcessShortcut, Modifiers, TabShortcut, TerminalZoom,
    KEY_0, KEY_C, KEY_D, KEY_EQUAL, KEY_MINUS, KEY_PAGE_DOWN, KEY_PAGE_UP, KEY_T, KEY_V, KEY_Z,
};
use zter::settings::TerminalPadding;
use zter::terminal::{
    process_groups_have_running_foreground_process, tab_close_decision, terminal_grid_size,
    window_close_decision, working_directory_or_fallback, CloseDecision, DeferredTerminalResize,
    ReloadGeneration, TerminalResizeAction,
};

const KEY_W: u32 = 0x077;
const KEY_KP_ADD: u32 = 0xffab;
const KEY_KP_SUBTRACT: u32 = 0xffad;
const KEY_THAI_SARAAE: u32 = 0xde0;
const KEY_THAI_OANG: u32 = 0xdcd;

fn control() -> Modifiers {
    Modifiers { control: true, ..Modifiers::default() }
}

fn control_shift() -> Modifiers {
    Modifiers { control: true, shift: true, ..Modifiers::default() }
}

fn control_alt() -> Modifiers {
    Modifiers { control: true, alt: true, ..Modifiers::default() }
}

fn float(value: f64) -> Binary64 {
    Binary64::from_bits(value.to_bits())
}

#[test]
fn terminal_resize_applies_initial_size_and_defers_until_latest_size_settles() {
    let mut resize = DeferredTerminalResize::default();
    let initial = (960, 600);
    let latest = (840, 560);

    assert_eq!(
        resize.observe(initial),
        TerminalResizeAction::ApplyInitial(initial)
    );
    assert_eq!(resize.observe(initial), TerminalResizeAction::Ignore);
    assert_eq!(resize.observe((900, 580)), TerminalResizeAction::Defer);
    assert_eq!(resize.observe(latest), TerminalResizeAction::Defer);
    assert_eq!(resize.settle(), Some(latest));
    assert_eq!(resize.observe((1_020, 640)), TerminalResizeAction::Defer);
    assert_eq!(resize.settle(), Some((1_020, 640)));
    assert_eq!(resize.settle(), None);
}

#[test]
fn terminal_resize_ignores_an_unchanged_viewport_after_font_zoom() {
    let mut resize = DeferredTerminalResize::default();
    let viewport_size = (960, 600);

    assert_eq!(
        resize.observe(viewport_size),
        TerminalResizeAction::ApplyInitial(viewport_size)
    );
    assert_eq!(resize.observe(viewport_size), TerminalResizeAction::Ignore);
    assert_eq!(resize.settle(), None);
}

#[test]
fn terminal_resize_waits_for_a_positive_initial_allocation() {
    let mut resize = DeferredTerminalResize::new();
    let initial = (960, 600);

    assert_eq!(resize.observe((0, 0)), TerminalResizeAction::Ignore);
    assert_eq!(resize.observe((960, 0)), TerminalResizeAction::Ignore);
    assert_eq!(
        resize.observe(initial),
        TerminalResizeAction::ApplyInitial(initial)
    );
}

#[test]
fn terminal_grid_excludes_padding_and_the_content_divider() {
    let padding = TerminalPadding::new(10, 20, 30, 40);

    assert_eq!(terminal_grid_size((860, 541), padding, (10, 20)), (80, 25));
}

#[test]
fn terminal_grid_uses_zoomed_cell_metrics_for_the_same_viewport() {
    let padding = TerminalPadding::new(16, 16, 16, 16);

    assert_eq!(terminal_grid_size((960, 600), padding, (8, 16)), (116, 35));
    assert_eq!(terminal_grid_size((960, 600), padding, (10, 20)), (92, 28));
}

#[test]
fn terminal_grid_keeps_one_cell_for_tiny_or_unknown_metrics() {
    let padding = TerminalPadding::new(16, 16, 16, 16);

    assert_eq!(terminal_grid_size((10, 10), padding, (8, 16)), (1, 1));
    assert_eq!(terminal_grid_size((132, 133), padding, (0, -5)), (100, 100));
}

#[test]
fn tab_shortcuts_cover_creation_and_navigation() {
    assert_eq!(tab_shortcut(KEY_T, control()), Some(TabShortcut::New));
    assert_eq!(tab_shortcut(KEY_T, control_shift()), None);
    assert_eq!(tab_shortcut(KEY_T, control_alt()), None);
    assert_eq!(tab_shortcut(KEY_W, control_shift()), None);
    assert_eq!(tab_shortcut(KEY_PAGE_UP, control()), Some(TabShortcut::Previous));
    assert_eq!(tab_shortcut(KEY_PAGE_DOWN, control()), Some(TabShortcut::Next));
    assert_eq!(tab_shortcut(KEY_PAGE_UP, control_shift()), None);
    assert_eq!(tab_shortcut(KEY_PAGE_UP, control_alt()), Some(TabShortcut::Previous));
}

#[test]
fn terminal_zoom_shortcuts_cover_plain_equal_minus_and_reset() {
    assert_eq!(terminal_zoom_shortcut(KEY_EQUAL, control()), Some(TerminalZoom::In));
    assert_eq!(terminal_zoom_shortcut(KEY_MINUS, control()), Some(TerminalZoom::Out));
    assert_eq!(terminal_zoom_shortcut(KEY_0, control()), Some(TerminalZoom::Reset));
    assert_eq!(terminal_zoom_shortcut(KEY_KP_ADD, control()), None);
    assert_eq!(terminal_zoom_shortcut(KEY_KP_SUBTRACT, control()), None);
    assert_eq!(terminal_zoom_shortcut(KEY_EQUAL, control_alt()), None);
    assert_eq!(terminal_zoom_shortcut(KEY_EQUAL, Modifiers::default()), None);
    assert_eq!(terminal_zoom_shortcut(KEY_EQUAL, control_shift()), None);
    assert_eq!(terminal_zoom_shortcut(KEY_MINUS, control_shift()), None);
    assert_eq!(terminal_zoom_shortcut(KEY_0, control_alt()), None);
}

#[test]
fn terminal_zoom_scroll_requires_plain_control_and_vertical_motion() {
    assert_eq!(terminal_zoom_scroll(control(), float(-1.0)), Some(TerminalZoom::In));
    assert_eq!(terminal_zoom_scroll(control(), float(1.0)), Some(TerminalZoom::Out));
    assert_eq!(terminal_zoom_scroll(control(), float(0.0)), None);
    assert_eq!(terminal_zoom_scroll(Modifiers::default(), float(-1.0)), None);
    assert_eq!(terminal_zoom_scroll(control_shift(), float(-1.0)), None);
}

#[test]
fn terminal_zoom_scroll_compares_as_floating_point_does() {
    assert_eq!(terminal_zoom_scroll(control(), float(-0.0)), None);
    assert_eq!(terminal_zoom_scroll(control(), float(f64::NAN)), None);
    assert_eq!(terminal_zoom_scroll(control(), float(-f64::NAN)), None);
    assert_eq!(terminal_zoom_scroll(control(), float(f64::NEG_INFINITY)), Some(TerminalZoom::In));
    assert_eq!(terminal_zoom_scroll(control(), float(f64::INFINITY)), Some(TerminalZoom::Out));
    assert_eq!(terminal_zoom_scroll(control(), float(-1e-320)), Some(TerminalZoom::In));
}

#[test]
fn clipboard_shortcuts_use_control_without_shift() {
    let keycodes = ClipboardShortcutKeycodes {
        copy: vec![54],
        paste: vec![55],
    };

    assert_eq!(
        clipboard_shortcut(KEY_C, 0, control(), &keycodes),
        Some(ClipboardShortcut::Copy)
    );
    assert_eq!(
        clipboard_shortcut(KEY_V, 0, control(), &keycodes),
        Some(ClipboardShortcut::Paste)
    );
    assert_eq!(clipboard_shortcut(KEY_C, 54, control_shift(), &keycodes), None);
    assert_eq!(clipboard_shortcut(KEY_V, 55, control_shift(), &keycodes), None);
    assert_eq!(clipboard_shortcut(KEY_C, 54, Modifiers::default(), &keycodes), None);
}

#[test]
fn clipboard_shortcuts_match_physical_keys_across_layouts() {
    let keycodes = ClipboardShortcutKeycodes {
        copy: vec![54],
        paste: vec![55],
    };

    assert_eq!(
        clipboard_shortcut(KEY_THAI_SARAAE, 54, control(), &keycodes),
        Some(ClipboardShortcut::Copy)
    );
    assert_eq!(
        clipboard_shortcut(KEY_THAI_OANG, 55, control(), &keycodes),
        Some(ClipboardShortcut::Paste)
    );
    assert_eq!(
        clipboard_shortcut(KEY_THAI_SARAAE, 55, control(), &keycodes),
        Some(ClipboardShortcut::Paste)
    );
    assert_eq!(clipboard_shortcut(KEY_THAI_OANG, 56, control(), &keycodes), None);
}

#[test]
fn keycodes_are_sorted_once_each() {
    assert_eq!(distinct_keycodes(vec![55, 54, 55, 9, 54]), vec![9, 54, 55]);
    assert_eq!(distinct_keycodes(Vec::new()), Vec::<u32>::new());
}

#[test]
fn hyperlink_activation_requires_plain_control() {
    assert!(is_control_hyperlink_click(control()));
    assert!(!is_control_hyperlink_click(control_shift()));
    assert!(!is_control_hyperlink_click(control_alt()));
    assert!(!is_control_hyperlink_click(Modifiers::default()));
}

#[test]
fn clipboard_copy_route_confirms_only_foreground_interrupts_without_selection() {
    assert_eq!(clipboard_copy_route(true, true), ClipboardCopyRoute::CopySelection);
    assert_eq!(clipboard_copy_route(true, false), ClipboardCopyRoute::CopySelection);
    assert_eq!(clipboard_copy_route(false, true), ClipboardCopyRoute::ConfirmInterrupt);
    assert_eq!(clipboard_copy_route(false, false), ClipboardCopyRoute::PassThrough);
}

#[test]
fn foreground_process_shortcuts_route_control_d_and_control_z() {
    assert_eq!(
        foreground_process_shortcut(KEY_D, control()),
        Some(ForegroundProcessShortcut::ConfirmEndOfInput)
    );
    assert_eq!(foreground_process_shortcut(KEY_D, control_shift()), None);
    assert_eq!(
        foreground_process_shortcut(KEY_Z, control()),
        Some(ForegroundProcessShortcut::ConfirmSuspend)
    );
    assert_eq!(
        foreground_process_shortcut(KEY_Z, control_shift()),
        Some(ForegroundProcessShortcut::Suppress)
    );
    assert_eq!(foreground_process_shortcut(KEY_Z, control_alt()), None);
    assert_eq!(foreground_process_shortcut(KEY_D, Modifiers::default()), None);
    assert_eq!(foreground_process_shortcut(KEY_C, control()), None);
}

#[test]
fn clipboard_paste_routes_text_to_vte_and_passes_non_text_through() {
    assert_eq!(clipboard_paste_route(true), ClipboardPasteRoute::PasteText);
    assert_eq!(clipboard_paste_route(false), ClipboardPasteRoute::PassThrough);
}

#[test]
fn close_protection_allows_an_idle_shell_to_close_immediately() {
    assert!(!process_groups_have_running_foreground_process(42, 42));
}

#[test]
fn close_protection_detects_a_foreground_process_started_by_the_shell() {
    assert!(process_groups_have_running_foreground_process(42, 84));
}

#[test]
fn close_protection_does_not_block_when_process_groups_are_unavailable() {
    assert!(!process_groups_have_running_foreground_process(-1, 84));
    assert!(!process_groups_have_running_foreground_process(42, -1));
}

#[test]
fn new_tab_directory_falls_back_to_the_window_startup_directory() {
    assert_eq!(
        working_directory_or_fallback(None, false, "/window/startup"),
        "/window/startup"
    );
    assert_eq!(
        working_directory_or_fallback(
            Some(OsText::Unicode("/directory/that/does/not/exist".to_owned())),
            false,
            "/window/startup"
        ),
        "/window/startup"
    );
    assert_eq!(
        working_directory_or_fallback(
            Some(OsText::Unicode("/home/user/project".to_owned())),
            true,
            "/window/startup"
        ),
        "/home/user/project"
    );
    assert_eq!(
        working_directory_or_fallback(
            Some(OsText::NonUnicode(vec![0x2f, 0xff])),
            true,
            "/window/startup"
        ),
        "/window/startup"
    );
}

#[test]
fn running_programs_ask_before_their_window_or_tab_closes() {
    assert_eq!(window_close_decision(false, true, true, false), CloseDecision::Confirm);
    assert_eq!(window_close_decision(false, true, true, true), CloseDecision::Keep);
    assert_eq!(window_close_decision(true, true, true, false), CloseDecision::Close);
    assert_eq!(window_close_decision(false, false, true, false), CloseDecision::Close);
    assert_eq!(window_close_decision(false, true, false, true), CloseDecision::Close);
    assert_eq!(tab_close_decision(false, true), CloseDecision::Close);
    assert_eq!(tab_close_decision(true, false), CloseDecision::Confirm);
    assert_eq!(tab_close_decision(true, true), CloseDecision::Keep);
}

fn assert_send<T: Send>() {}

#[test]
fn wallpaper_reload_uses_sendable_worker_data_and_latest_generation() {
    assert_send::<zter::config::BackgroundImageSource>();
    assert_send::<Binary64>();
    assert_send::<ReloadGeneration>();

    let mut reloads = ReloadGeneration::default();
    let first = reloads.begin();
    let second = reloads.begin();

    assert!(!reloads.is_current(first));
    assert!(reloads.is_current(second));

    let mut wrapping = ReloadGeneration { current: u64::MAX };
    assert_eq!(wrapping.begin(), 0);
}
