use zter::tabs::{
    default_tab_title, display_title, recognized_terminal_status,
    should_highlight_header_drop_target, should_highlight_tab_drop_target, tab_drag_end_action,
    tab_insertion_position, tab_title_for_shell, terminal_status_glyphs, DragCancelReason,
    FailedTabDragAction, TabDropSide, TabTitleState, TerminalTitleStatus,
};

fn status(title: &str) -> Option<(TerminalTitleStatus, String)> {
    recognized_terminal_status(title)
}

#[test]
fn tab_drop_highlight_requires_another_tab_under_the_pointer() {
    assert!(should_highlight_tab_drop_target(
        Some("zter-tab-1"),
        "zter-tab-2",
        true
    ));
    assert!(!should_highlight_tab_drop_target(
        Some("zter-tab-1"),
        "zter-tab-1",
        true
    ));
    assert!(!should_highlight_tab_drop_target(
        Some("external-item"),
        "zter-tab-2",
        true
    ));
    assert!(!should_highlight_tab_drop_target(
        Some("zter-tab-1"),
        "zter-tab-2",
        false
    ));
    assert!(!should_highlight_tab_drop_target(None, "zter-tab-2", true));
}

#[test]
fn header_drop_highlight_requires_a_dragged_zter_tab() {
    assert!(should_highlight_header_drop_target(Some("zter-tab-1"), true));
    assert!(!should_highlight_header_drop_target(Some("external-item"), true));
    assert!(!should_highlight_header_drop_target(Some("zter-tab-1"), false));
    assert!(!should_highlight_header_drop_target(None, true));
}

#[test]
fn same_window_tab_insertion_accounts_for_the_removed_source() {
    assert_eq!(
        tab_insertion_position(0, Some((1, TabDropSide::After)), 3, true),
        1
    );
    assert_eq!(
        tab_insertion_position(2, Some((1, TabDropSide::Before)), 3, true),
        1
    );
    assert_eq!(tab_insertion_position(0, None, 3, true), 2);
    assert_eq!(tab_insertion_position(0, None, 1, true), 0);
}

#[test]
fn cross_window_tab_insertion_uses_the_target_positions_directly() {
    assert_eq!(
        tab_insertion_position(4, Some((0, TabDropSide::Before)), 2, false),
        0
    );
    assert_eq!(
        tab_insertion_position(4, Some((0, TabDropSide::After)), 2, false),
        1
    );
    assert_eq!(tab_insertion_position(4, None, 2, false), 2);
}

#[test]
fn insertion_never_passes_the_last_place() {
    assert_eq!(tab_insertion_position(0, Some((9, TabDropSide::After)), 3, true), 2);
    assert_eq!(tab_insertion_position(0, Some((9, TabDropSide::After)), 3, false), 3);
    assert_eq!(tab_insertion_position(0, None, 0, true), 0);
}

#[test]
fn unfinished_drag_detaches_only_when_no_zter_window_contains_the_pointer() {
    assert_eq!(
        tab_drag_end_action(false, Some(DragCancelReason::NoTarget), false),
        FailedTabDragAction::Detach
    );
    assert_eq!(
        tab_drag_end_action(false, Some(DragCancelReason::NoTarget), true),
        FailedTabDragAction::Cancel
    );
    assert_eq!(
        tab_drag_end_action(false, None, false),
        FailedTabDragAction::Detach
    );
    assert_eq!(
        tab_drag_end_action(false, None, true),
        FailedTabDragAction::Cancel
    );
}

#[test]
fn explicit_user_drag_cancellation_never_detaches_the_tab() {
    assert_eq!(
        tab_drag_end_action(false, Some(DragCancelReason::UserCancelled), false),
        FailedTabDragAction::Cancel
    );
}

#[test]
fn rejected_cross_process_drop_detaches_outside_source_process_windows() {
    assert_eq!(
        tab_drag_end_action(false, Some(DragCancelReason::Error), false),
        FailedTabDragAction::Detach
    );
}

#[test]
fn completed_internal_transfer_never_detaches_the_tab_again() {
    assert_eq!(
        tab_drag_end_action(true, None, false),
        FailedTabDragAction::Cancel
    );
    assert_eq!(
        tab_drag_end_action(true, Some(DragCancelReason::NoTarget), false),
        FailedTabDragAction::Cancel
    );
}

#[test]
fn default_tab_title_uses_the_shell_executable_name() {
    assert_eq!(default_tab_title("/bin/bash"), "bash in zter");
    assert_eq!(default_tab_title("fish"), "fish in zter");
}

#[test]
fn tab_title_without_a_file_name_uses_the_whole_shell_text() {
    assert_eq!(default_tab_title("/"), "/ in zter");
    assert_eq!(default_tab_title("/usr/.."), "/usr/.. in zter");
    assert_eq!(tab_title_for_shell("/bin/zsh", Some("zsh")), "zsh in zter");
    assert_eq!(tab_title_for_shell("/bin/zsh", Some("")), "/bin/zsh in zter");
    assert_eq!(tab_title_for_shell("/bin/zsh", None), "/bin/zsh in zter");
}

#[test]
fn terminal_title_is_plain_single_line_text_with_a_fallback() {
    assert_eq!(
        display_title(Some("  codex\ncli  "), "bash in zter"),
        "codex cli"
    );
    assert_eq!(display_title(Some("\n\t"), "bash in zter"), "bash in zter");
    assert_eq!(display_title(None, "bash in zter"), "bash in zter");
}

#[test]
fn manual_tab_title_survives_automatic_title_updates() {
    let mut state = TabTitleState::new("bash in zter".to_owned());

    state.save_manual("  project\nserver  ");
    state.update_automatic("vim main.rs".to_owned());

    assert_eq!(state.displayed(), "project server");
}

#[test]
fn recognized_status_glyphs_are_kept_before_a_manual_title() {
    for glyph in terminal_status_glyphs() {
        let automatic = format!("{glyph} agent is working");
        assert_eq!(
            status(&automatic),
            Some((TerminalTitleStatus::Glyph(glyph), "agent is working".to_owned()))
        );

        let mut state = TabTitleState::new(automatic);
        state.save_manual("งานหลัก");
        assert_eq!(state.displayed(), format!("{glyph} งานหลัก"));
        assert_eq!(state.editable(), "งานหลัก");
    }
}

#[test]
fn status_glyph_requires_a_leading_position_and_whitespace_boundary() {
    assert_eq!(
        status("◐"),
        Some((TerminalTitleStatus::Glyph('◐'), String::new()))
    );
    assert_eq!(status("◐working"), None);
    assert_eq!(status("agent ◐ working"), None);
    assert_eq!(status("⠁ working"), None);
    assert_eq!(status("🦀 working"), None);
}

#[test]
fn exact_action_required_status_is_kept_before_a_manual_title() {
    assert_eq!(
        status("[ ! ] Action Required"),
        Some((TerminalTitleStatus::ActionRequired, String::new()))
    );
    assert_eq!(
        status("[ ! ] Action Required | Review changes"),
        Some((TerminalTitleStatus::ActionRequired, "Review changes".to_owned()))
    );

    let mut state = TabTitleState::new("[ ! ] Action Required | Review changes".to_owned());
    state.save_manual("project");
    assert_eq!(state.displayed(), "[ ! ] Action Required | project");
    assert_eq!(state.editable(), "project");
}

#[test]
fn malformed_action_required_status_is_not_recognized() {
    assert_eq!(status("[!] Action Required | Review changes"), None);
    assert_eq!(status("[ ! ] Action Required Review changes"), None);
    assert_eq!(status("[ ! ] Action Required later | Review changes"), None);
}

#[test]
fn manual_title_tracks_status_changes_and_removal() {
    let mut state = TabTitleState::new("⠋ working".to_owned());
    state.save_manual("project");
    assert_eq!(state.displayed(), "⠋ project");

    state.update_automatic("⠙ working".to_owned());
    assert_eq!(state.displayed(), "⠙ project");

    state.update_automatic("unknown automatic title".to_owned());
    assert_eq!(state.displayed(), "project");

    state.update_automatic("bash in zter".to_owned());
    assert_eq!(state.displayed(), "project");
}

#[test]
fn editor_omits_status_when_no_manual_title_exists() {
    let glyph = TabTitleState::new("✦ กำลังทำงาน".to_owned());
    assert_eq!(glyph.displayed(), "✦ กำลังทำงาน");
    assert_eq!(glyph.editable(), "กำลังทำงาน");

    let action = TabTitleState::new("[ ! ] Action Required | ตรวจสอบการเปลี่ยนแปลง".to_owned());
    assert_eq!(action.editable(), "ตรวจสอบการเปลี่ยนแปลง");

    let ordinary = TabTitleState::new("日本語の端末".to_owned());
    assert_eq!(ordinary.editable(), "日本語の端末");
}

#[test]
fn empty_manual_tab_title_returns_to_latest_automatic_title() {
    let mut state = TabTitleState::new("bash in zter".to_owned());
    state.save_manual("project");
    state.update_automatic("codex".to_owned());

    state.save_manual(" \n\t ");

    assert_eq!(state.displayed(), "codex");
    assert_eq!(state.manual_title(), None);
}

#[test]
fn action_required_status_accepts_whitespace_around_the_bar() {
    assert_eq!(
        status("[ ! ] Action Required|x"),
        Some((TerminalTitleStatus::ActionRequired, "x".to_owned()))
    );
    assert_eq!(
        status("[ ! ] Action Required \t|  x y"),
        Some((TerminalTitleStatus::ActionRequired, "x y".to_owned()))
    );
    assert_eq!(
        status("◑ \t done"),
        Some((TerminalTitleStatus::Glyph('◑'), "done".to_owned()))
    );
}

#[test]
fn tab_title_skips_trailing_separators_and_dot_components() {
    assert_eq!(default_tab_title("/usr/bin/fish/"), "fish in zter");
    assert_eq!(default_tab_title("/usr/bin/zsh/."), "zsh in zter");
    assert_eq!(default_tab_title("./nu"), "nu in zter");
    assert_eq!(default_tab_title("."), ". in zter");
}
