use zter::settings::HeaderMode;
use zter::cli::{command_from_arguments, Command, USAGE};
use zter::config::OsText;

fn text(s: &str) -> OsText {
    OsText::Unicode(s.to_owned())
}

#[test]
fn no_arguments_runs_the_terminal() {
    assert_eq!(
        command_from_arguments(&[]),
        Ok(Command::Run { standalone: false })
    );
}

#[test]
fn long_standalone_option_runs_a_separate_instance() {
    let arguments = [text("--standalone")];

    assert_eq!(
        command_from_arguments(&arguments),
        Ok(Command::Run { standalone: true })
    );
}

#[test]
fn short_standalone_option_runs_a_separate_instance() {
    let arguments = [text("-s")];

    assert_eq!(
        command_from_arguments(&arguments),
        Ok(Command::Run { standalone: true })
    );
}

#[test]
fn long_version_option_selects_the_version_command() {
    let arguments = [text("--version")];
    assert_eq!(command_from_arguments(&arguments), Ok(Command::Version));
}

#[test]
fn short_version_option_selects_the_version_command() {
    let arguments = [text("-v")];
    assert_eq!(command_from_arguments(&arguments), Ok(Command::Version));
}

#[test]
fn settings_apply_selects_the_apply_command() {
    let arguments = [text("settings"), text("apply")];

    assert_eq!(
        command_from_arguments(&arguments),
        Ok(Command::SettingsApply)
    );
}

#[test]
fn settings_reload_selects_the_reload_command() {
    let arguments = [text("settings"), text("reload")];

    assert_eq!(
        command_from_arguments(&arguments),
        Ok(Command::SettingsReload)
    );
}

#[test]
fn unknown_arguments_are_rejected() {
    let arguments = [text("settings"), text("unknown")];
    assert_eq!(command_from_arguments(&arguments), Err("unknown command"));
}

#[test]
fn help_options_select_the_help_command() {
    assert_eq!(command_from_arguments(&[text("--help")]), Ok(Command::Help));
    assert_eq!(command_from_arguments(&[text("-h")]), Ok(Command::Help));
    assert!(USAGE.starts_with("usage: zter"));
}

#[test]
fn non_unicode_and_extra_arguments_are_rejected() {
    assert_eq!(
        command_from_arguments(&[OsText::NonUnicode(vec![0x2d, 0xff])]),
        Err("unknown command")
    );
    assert_eq!(
        command_from_arguments(&[text("settings"), text("apply"), text("now")]),
        Err("unknown command")
    );
    assert_eq!(
        command_from_arguments(&[text("apply"), text("settings")]),
        Err("unknown command")
    );
    assert_eq!(command_from_arguments(&[text("settings")]), Err("unknown command"));
}

#[test]
fn header_commands_select_a_header_mode() {
    let cases = [
        ("full", HeaderMode::Full),
        ("show", HeaderMode::Full),
        ("mini", HeaderMode::Mini),
        ("hide", HeaderMode::Hidden),
    ];
    for (word, mode) in cases {
        let arguments = [text("header"), text(word)];
        assert_eq!(command_from_arguments(&arguments), Ok(Command::Header(mode)));
    }
    assert_eq!(
        command_from_arguments(&[text("header"), text("hidden")]),
        Err("unknown command")
    );
    assert_eq!(command_from_arguments(&[text("header")]), Err("unknown command"));
    assert!(USAGE.contains("zter header <full|mini|hide|show>"));
}
