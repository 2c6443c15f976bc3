//! The stylesheets of the application window and the settings window.
use crate::settings::TerminalPadding;
use crate::theme::{color, color_spec, css_spec, decimal, decimal_spec, Rgb, ThemeColor};
use vstd::prelude::*;

verus! {

broadcast use vstd::string::group_string_axioms;

/// The application's stylesheet: the rules of the window, the header, the
/// tabs and the terminal, with the theme's colors and the terminal padding,
/// followed by the settings window's stylesheet.
pub open spec fn application_css_spec(padding: TerminalPadding) -> Seq<char> {
    "window.zter-window {
            background-color: transparent;
            background-image: none;
            color: "@
        + css_spec(color_spec(ThemeColor::Foreground))
        + ";
            box-shadow: none;
            border: 1px solid "@
        + css_spec(color_spec(ThemeColor::Selection))
        + ";
            border-radius: 12px;
        }
        window.zter-window .zter-header {
            background-color: "@
        + css_spec(color_spec(ThemeColor::HeaderBackground))
        + ";
            background-image: none;
            border-bottom-width: 0;
            color: "@
        + css_spec(color_spec(ThemeColor::Foreground))
        + ";
            min-height: 36px;
            padding: 0;
            box-shadow: none;
        }
        window.zter-window .zter-header windowcontrols button {
            background-color: transparent;
            background-image: none;
            border-width: 0;
            border-radius: 999px;
            box-shadow: none;
            min-height: 28px;
            min-width: 28px;
            margin: 0 2px;
            padding: 0;
            transition: all 180ms ease-out;
        }
        window.zter-settings-window .zter-settings-header windowcontrols button {
            background-color: transparent;
            background-image: none;
            border-width: 0;
            border-radius: 999px;
            box-shadow: none;
            min-height: 28px;
            min-width: 28px;
            margin: 0 2px;
            padding: 0;
        }
        window.zter-window .zter-header windowcontrols button:hover,
        window.zter-settings-window .zter-settings-header windowcontrols button:hover {
            background-color: transparent;
        }
        notebook.zter-tabs,
        notebook.zter-tabs > stack {
            background-color: transparent;
            background-image: none;
            border-width: 0;
            box-shadow: none;
        }
        .zter-tab-scroller,
        .zter-tab-strip {
            background-color: transparent;
            background-image: none;
            border-width: 0;
            box-shadow: none;
        }
        .zter-drag-space {
            min-width: 40px;
            outline-width: 0;
        }
        .zter-drag-space.zter-header-drop-target {
            outline: 1px solid "@
        + css_spec(color_spec(ThemeColor::TabDropTarget))
        + ";
            outline-offset: -1px;
        }
        .zter-header-tab,
        button.zter-tab-close,
        button.zter-new-tab {
            transition: background-color 180ms ease-out;
        }
        .zter-header-tab {
            background-color: "@
        + css_spec(color_spec(ThemeColor::HeaderBackground))
        + ";
            background-image: none;
            border-width: 0;
            min-height: 36px;
            min-width: 220px;
            outline-width: 0;
            box-shadow: none;
        }
        .zter-header-tab:hover {
            background-color: "@
        + css_spec(color_spec(ThemeColor::TabHover))
        + ";
        }
        .zter-header-tab.zter-tab-active {
            background-color: "@
        + css_spec(color_spec(ThemeColor::Selection))
        + ";
            border-width: 0;
            box-shadow: none;
        }
        .zter-header-tab.zter-tab-drop-target {
            border-width: 0;
            outline: 1px solid "@
        + css_spec(color_spec(ThemeColor::TabDropTarget))
        + ";
            outline-offset: -1px;
            box-shadow: none;
        }
        .zter-header-tab.zter-tab-drop-target.zter-tab-drop-before {
            background-image: linear-gradient(to right, transparent 24.5%, "@
        + css_spec(color_spec(ThemeColor::TabDropTarget))
        + " 24.5%, "@
        + css_spec(color_spec(ThemeColor::TabDropTarget))
        + " 25.5%, transparent 25.5%);
        }
        .zter-header-tab.zter-tab-drop-target.zter-tab-drop-after {
            background-image: linear-gradient(to right, transparent 74.5%, "@
        + css_spec(color_spec(ThemeColor::TabDropTarget))
        + " 74.5%, "@
        + css_spec(color_spec(ThemeColor::TabDropTarget))
        + " 75.5%, transparent 75.5%);
        }
        button.zter-tab-select {
            background-color: transparent;
            background-image: none;
            border-width: 0;
            border-radius: 0;
            min-height: 36px;
            padding: 0 8px;
            box-shadow: none;
        }
        button.zter-tab-select:hover {
            background-color: transparent;
        }
        entry.zter-tab-title-entry {
            background-color: "@
        + css_spec(color_spec(ThemeColor::Background))
        + ";
            background-image: none;
            border-width: 0;
            border-radius: 0;
            min-height: 28px;
            margin: 4px 8px;
            padding: 0 6px;
            outline-width: 0;
            box-shadow: none;
        }
        button.zter-tab-close {
            background-color: transparent;
            background-image: none;
            border-width: 0;
            border-radius: 999px;
            box-shadow: none;
            min-height: 20px;
            min-width: 20px;
            margin-right: 8px;
            padding: 2px;
        }
        button.zter-new-tab {
            background-color: transparent;
            background-image: none;
            border-width: 0;
            border-radius: 999px;
            box-shadow: none;
            min-height: 28px;
            min-width: 28px;
            margin: 0 0 0 4px;
            padding: 0;
        }
        button.zter-tab-close:hover {
            background-color: "@
        + css_spec(color_spec(ThemeColor::TabCloseHover))
        + ";
        }
        button.zter-new-tab:hover {
            background-color: "@
        + css_spec(color_spec(ThemeColor::HeaderButtonHover))
        + ";
        }
        popover.zter-clipboard-menu {
            background-color: transparent;
            background-image: none;
            box-shadow: none;
            padding: 0;
        }
        popover.zter-clipboard-menu > contents {
            background-color: "@
        + css_spec(color_spec(ThemeColor::HeaderBackground))
        + ";
            background-image: none;
            border: 1px solid "@
        + css_spec(color_spec(ThemeColor::Selection))
        + ";
            border-radius: 8px;
            box-shadow: none;
            padding: 4px;
        }
        popover.zter-clipboard-menu button.zter-clipboard-menu-item {
            background-color: transparent;
            background-image: none;
            border-width: 0;
            border-radius: 4px;
            box-shadow: none;
            color: "@
        + css_spec(color_spec(ThemeColor::Foreground))
        + ";
            min-height: 30px;
            min-width: 168px;
            padding: 0 10px;
        }
        popover.zter-clipboard-menu button.zter-clipboard-menu-item:hover {
            background-color: "@
        + css_spec(color_spec(ThemeColor::Selection))
        + ";
        }
        popover.zter-clipboard-menu button.zter-clipboard-menu-item:disabled {
            opacity: 0.45;
        }
        popover.zter-clipboard-menu .zter-clipboard-shortcut {
            color: "@
        + css_spec(Rgb(0x9d, 0xa5, 0xb4))
        + ";
        }
        window.zter-close-dialog {
            background-color: transparent;
            background-image: none;
            border-radius: 12px;
            box-shadow: none;
        }
        window.zter-close-dialog .zter-close-dialog-surface {
            background-color: "@
        + css_spec(color_spec(ThemeColor::HeaderBackground))
        + ";
            background-image: none;
            border: 1px solid "@
        + css_spec(color_spec(ThemeColor::Selection))
        + ";
            border-radius: 12px;
            box-shadow: none;
            min-width: 320px;
        }
        window.zter-close-dialog .zter-close-dialog-message {
            color: "@
        + css_spec(color_spec(ThemeColor::Foreground))
        + ";
            min-height: 58px;
            padding: 0 20px;
        }
        window.zter-close-dialog .zter-close-dialog-actions {
            border-top: 1px solid "@
        + css_spec(color_spec(ThemeColor::Background))
        + ";
        }
        window.zter-close-dialog button {
            background-color: "@
        + css_spec(color_spec(ThemeColor::Selection))
        + ";
            background-image: none;
            border-width: 0;
            border-radius: 0;
            box-shadow: none;
            color: "@
        + css_spec(color_spec(ThemeColor::Foreground))
        + ";
            min-height: 44px;
            padding: 0 18px;
            transition: background-color 140ms ease-out;
        }
        window.zter-close-dialog button:hover {
            background-color: "@
        + css_spec(color_spec(ThemeColor::TabHover))
        + ";
        }
        window.zter-close-dialog button.zter-close-dialog-confirm {
            background-color: rgba(224, 108, 117, 0.14);
            border-left: 1px solid "@
        + css_spec(color_spec(ThemeColor::Background))
        + ";
            color: "@
        + css_spec(Rgb(0xe0, 0x6c, 0x75))
        + ";
        }
        window.zter-close-dialog button.zter-close-dialog-confirm:hover {
            background-color: rgba(224, 108, 117, 0.23);
        }
        .zter-terminal {
            border-top: 1px solid "@
        + css_spec(color_spec(ThemeColor::Selection))
        + ";
            box-shadow: none;
            padding: "@
        + decimal_spec(padding.spec_top() as nat)
        + "px "@
        + decimal_spec(padding.spec_right() as nat)
        + "px "@
        + decimal_spec(padding.spec_bottom() as nat)
        + "px "@
        + decimal_spec(padding.spec_left() as nat)
        + "px;
        }
        .zter-terminal.zter-transparent-background {
            background-color: transparent;
            background-image: none;
        }
        scrollbar.zter-terminal-scrollbar {
            background-color: transparent;
            background-image: none;
            border-width: 0;
            box-shadow: none;
            margin: 6px 4px 6px 0;
            min-width: 8px;
            opacity: 0.72;
            transition: opacity 140ms ease-out;
        }
        scrollbar.zter-terminal-scrollbar:hover {
            opacity: 1;
        }
        scrollbar.zter-terminal-scrollbar.zter-terminal-scrollbar-hidden {
            opacity: 0;
        }
        scrollbar.zter-terminal-scrollbar trough {
            background-color: transparent;
            background-image: none;
            border-width: 0;
            box-shadow: none;
            min-width: 8px;
        }
        scrollbar.zter-terminal-scrollbar slider {
            background-color: "@
        + css_spec(Rgb(0x5c, 0x63, 0x70))
        + ";
            background-image: none;
            border-width: 0;
            border-radius: 4px;
            box-shadow: none;
            min-height: 24px;
            min-width: 8px;
        }
        .zter-content {
            background-color: transparent;
            border-radius: 0 0 12px 12px;
        }
        picture.zter-background {
            background-color: transparent;
            background-image: none;
            border-radius: 0 0 12px 12px;
        }
        window.zter-window .zter-header.zter-header-mini,
        window.zter-window .zter-header.zter-header-mini .zter-header-tab {
            min-height: 24px;
        }"@
        + settings_window_css_spec()
}

/// The application's stylesheet: the rules of the window, the header, the
/// tabs and the terminal, with the theme's colors and the terminal padding,
/// followed by the settings window's stylesheet.
pub fn application_css(padding: TerminalPadding) -> (css: String)
    ensures
        css@ == application_css_spec(padding),
{
    let mut css = String::new();
    css.append("window.zter-window {
            background-color: transparent;
            background-image: none;
            color: ");
    css.append(color(ThemeColor::Foreground).css().as_str());
    css.append(";
            box-shadow: none;
            border: 1px solid ");
    css.append(color(ThemeColor::Selection).css().as_str());
    css.append(";
            border-radius: 12px;
        }
        window.zter-window .zter-header {
            background-color: ");
    css.append(color(ThemeColor::HeaderBackground).css().as_str());
    css.append(";
            background-image: none;
            border-bottom-width: 0;
            color: ");
    css.append(color(ThemeColor::Foreground).css().as_str());
    css.append(";
            min-height: 36px;
            padding: 0;
            box-shadow: none;
        }
        window.zter-window .zter-header windowcontrols button {
            background-color: transparent;
            background-image: none;
            border-width: 0;
            border-radius: 999px;
            box-shadow: none;
            min-height: 28px;
            min-width: 28px;
            margin: 0 2px;
            padding: 0;
            transition: all 180ms ease-out;
        }
        window.zter-settings-window .zter-settings-header windowcontrols button {
            background-color: transparent;
            background-image: none;
            border-width: 0;
            border-radius: 999px;
            box-shadow: none;
            min-height: 28px;
            min-width: 28px;
            margin: 0 2px;
            padding: 0;
        }
        window.zter-window .zter-header windowcontrols button:hover,
        window.zter-settings-window .zter-settings-header windowcontrols button:hover {
            background-color: transparent;
        }
        notebook.zter-tabs,
        notebook.zter-tabs > stack {
            background-color: transparent;
            background-image: none;
            border-width: 0;
            box-shadow: none;
        }
        .zter-tab-scroller,
        .zter-tab-strip {
            background-color: transparent;
            background-image: none;
            border-width: 0;
            box-shadow: none;
        }
        .zter-drag-space {
            min-width: 40px;
            outline-width: 0;
        }
        .zter-drag-space.zter-header-drop-target {
            outline: 1px solid ");
    css.append(color(ThemeColor::TabDropTarget).css().as_str());
    css.append(";
            outline-offset: -1px;
        }
        .zter-header-tab,
        button.zter-tab-close,
        button.zter-new-tab {
            transition: background-color 180ms ease-out;
        }
        .zter-header-tab {
            background-color: ");
    css.append(color(ThemeColor::HeaderBackground).css().as_str());
    css.append(";
            background-image: none;
            border-width: 0;
            min-height: 36px;
            min-width: 220px;
            outline-width: 0;
            box-shadow: none;
        }
        .zter-header-tab:hover {
            background-color: ");
    css.append(color(ThemeColor::TabHover).css().as_str());
    css.append(";
        }
        .zter-header-tab.zter-tab-active {
            background-color: ");
    css.append(color(ThemeColor::Selection).css().as_str());
    css.append(";
            border-width: 0;
            box-shadow: none;
        }
        .zter-header-tab.zter-tab-drop-target {
            border-width: 0;
            outline: 1px solid ");
    css.append(color(ThemeColor::TabDropTarget).css().as_str());
    css.append(";
            outline-offset: -1px;
            box-shadow: none;
        }
        .zter-header-tab.zter-tab-drop-target.zter-tab-drop-before {
            background-image: linear-gradient(to right, transparent 24.5%, ");
    css.append(color(ThemeColor::TabDropTarget).css().as_str());
    css.append(" 24.5%, ");
    css.append(color(ThemeColor::TabDropTarget).css().as_str());
    css.append(" 25.5%, transparent 25.5%);
        }
        .zter-header-tab.zter-tab-drop-target.zter-tab-drop-after {
            background-image: linear-gradient(to right, transparent 74.5%, ");
    css.append(color(ThemeColor::TabDropTarget).css().as_str());
    css.append(" 74.5%, ");
    css.append(color(ThemeColor::TabDropTarget).css().as_str());
    css.append(" 75.5%, transparent 75.5%);
        }
        button.zter-tab-select {
            background-color: transparent;
            background-image: none;
            border-width: 0;
            border-radius: 0;
            min-height: 36px;
            padding: 0 8px;
            box-shadow: none;
        }
        button.zter-tab-select:hover {
            background-color: transparent;
        }
        entry.zter-tab-title-entry {
            background-color: ");
    css.append(color(ThemeColor::Background).css().as_str());
    css.append(";
            background-image: none;
            border-width: 0;
            border-radius: 0;
            min-height: 28px;
            margin: 4px 8px;
            padding: 0 6px;
            outline-width: 0;
            box-shadow: none;
        }
        button.zter-tab-close {
            background-color: transparent;
            background-image: none;
            border-width: 0;
            border-radius: 999px;
            box-shadow: none;
            min-height: 20px;
            min-width: 20px;
            margin-right: 8px;
            padding: 2px;
        }
        button.zter-new-tab {
            background-color: transparent;
            background-image: none;
            border-width: 0;
            border-radius: 999px;
            box-shadow: none;
            min-height: 28px;
            min-width: 28px;
            margin: 0 0 0 4px;
            padding: 0;
        }
        button.zter-tab-close:hover {
            background-color: ");
    css.append(color(ThemeColor::TabCloseHover).css().as_str());
    css.append(";
        }
        button.zter-new-tab:hover {
            background-color: ");
    css.append(color(ThemeColor::HeaderButtonHover).css().as_str());
    css.append(";
        }
        popover.zter-clipboard-menu {
            background-color: transparent;
            background-image: none;
            box-shadow: none;
            padding: 0;
        }
        popover.zter-clipboard-menu > contents {
            background-color: ");
    css.append(color(ThemeColor::HeaderBackground).css().as_str());
    css.append(";
            background-image: none;
            border: 1px solid ");
    css.append(color(ThemeColor::Selection).css().as_str());
    css.append(";
            border-radius: 8px;
            box-shadow: none;
            padding: 4px;
        }
        popover.zter-clipboard-menu button.zter-clipboard-menu-item {
            background-color: transparent;
            background-image: none;
            border-width: 0;
            border-radius: 4px;
            box-shadow: none;
            color: ");
    css.append(color(ThemeColor::Foreground).css().as_str());
    css.append(";
            min-height: 30px;
            min-width: 168px;
            padding: 0 10px;
        }
        popover.zter-clipboard-menu button.zter-clipboard-menu-item:hover {
            background-color: ");
    css.append(color(ThemeColor::Selection).css().as_str());
    css.append(";
        }
        popover.zter-clipboard-menu button.zter-clipboard-menu-item:disabled {
            opacity: 0.45;
        }
        popover.zter-clipboard-menu .zter-clipboard-shortcut {
            color: ");
    css.append(Rgb(0x9d, 0xa5, 0xb4).css().as_str());
    css.append(";
        }
        window.zter-close-dialog {
            background-color: transparent;
            background-image: none;
            border-radius: 12px;
            box-shadow: none;
        }
        window.zter-close-dialog .zter-close-dialog-surface {
            background-color: ");
    css.append(color(ThemeColor::HeaderBackground).css().as_str());
    css.append(";
            background-image: none;
            border: 1px solid ");
    css.append(color(ThemeColor::Selection).css().as_str());
    css.append(";
            border-radius: 12px;
            box-shadow: none;
            min-width: 320px;
        }
        window.zter-close-dialog .zter-close-dialog-message {
            color: ");
    css.append(color(ThemeColor::Foreground).css().as_str());
    css.append(";
            min-height: 58px;
            padding: 0 20px;
        }
        window.zter-close-dialog .zter-close-dialog-actions {
            border-top: 1px solid ");
    css.append(color(ThemeColor::Background).css().as_str());
    css.append(";
        }
        window.zter-close-dialog button {
            background-color: ");
    css.append(color(ThemeColor::Selection).css().as_str());
    css.append(";
            background-image: none;
            border-width: 0;
            border-radius: 0;
            box-shadow: none;
            color: ");
    css.append(color(ThemeColor::Foreground).css().as_str());
    css.append(";
            min-height: 44px;
            padding: 0 18px;
            transition: background-color 140ms ease-out;
        }
        window.zter-close-dialog button:hover {
            background-color: ");
    css.append(color(ThemeColor::TabHover).css().as_str());
    css.append(";
        }
        window.zter-close-dialog button.zter-close-dialog-confirm {
            background-color: rgba(224, 108, 117, 0.14);
            border-left: 1px solid ");
    css.append(color(ThemeColor::Background).css().as_str());
    css.append(";
            color: ");
    css.append(Rgb(0xe0, 0x6c, 0x75).css().as_str());
    css.append(";
        }
        window.zter-close-dialog button.zter-close-dialog-confirm:hover {
            background-color: rgba(224, 108, 117, 0.23);
        }
        .zter-terminal {
            border-top: 1px solid ");
    css.append(color(ThemeColor::Selection).css().as_str());
    css.append(";
            box-shadow: none;
            padding: ");
    css.append(decimal(padding.top() as u32).as_str());
    css.append("px ");
    css.append(decimal(padding.right() as u32).as_str());
    css.append("px ");
    css.append(decimal(padding.bottom() as u32).as_str());
    css.append("px ");
    css.append(decimal(padding.left() as u32).as_str());
    css.append("px;
        }
        .zter-terminal.zter-transparent-background {
            background-color: transparent;
            background-image: none;
        }
        scrollbar.zter-terminal-scrollbar {
            background-color: transparent;
            background-image: none;
            border-width: 0;
            box-shadow: none;
            margin: 6px 4px 6px 0;
            min-width: 8px;
            opacity: 0.72;
            transition: opacity 140ms ease-out;
        }
        scrollbar.zter-terminal-scrollbar:hover {
            opacity: 1;
        }
        scrollbar.zter-terminal-scrollbar.zter-terminal-scrollbar-hidden {
            opacity: 0;
        }
        scrollbar.zter-terminal-scrollbar trough {
            background-color: transparent;
            background-image: none;
            border-width: 0;
            box-shadow: none;
            min-width: 8px;
        }
        scrollbar.zter-terminal-scrollbar slider {
            background-color: ");
    css.append(Rgb(0x5c, 0x63, 0x70).css().as_str());
    css.append(";
            background-image: none;
            border-width: 0;
            border-radius: 4px;
            box-shadow: none;
            min-height: 24px;
            min-width: 8px;
        }
        .zter-content {
            background-color: transparent;
            border-radius: 0 0 12px 12px;
        }
        picture.zter-background {
            background-color: transparent;
            background-image: none;
            border-radius: 0 0 12px 12px;
        }
        window.zter-window .zter-header.zter-header-mini,
        window.zter-window .zter-header.zter-header-mini .zter-header-tab {
            min-height: 24px;
        }");
    css.append(settings_window_css().as_str());
    css
}

/// The settings window's stylesheet, with the theme's colors.
pub open spec fn settings_window_css_spec() -> Seq<char> {
    "window.zter-settings-window {
            background-color: transparent;
            background-image: none;
            border-radius: 12px;
            box-shadow: none;
        }
        window.zter-settings-window .zter-settings-surface {
            background-color: "@
        + css_spec(color_spec(ThemeColor::Background))
        + ";
            background-image: none;
            border: 1px solid "@
        + css_spec(color_spec(ThemeColor::Selection))
        + ";
            border-radius: 12px;
            box-shadow: none;
        }
        window.zter-settings-window .zter-settings-header {
            background-color: "@
        + css_spec(color_spec(ThemeColor::HeaderBackground))
        + ";
            background-image: none;
            border-bottom: 1px solid "@
        + css_spec(color_spec(ThemeColor::Selection))
        + ";
            box-shadow: none;
            min-height: 36px;
        }
        window.zter-settings-window .zter-settings-title {
            color: "@
        + css_spec(color_spec(ThemeColor::Foreground))
        + ";
            font-weight: 600;
            padding-left: 16px;
        }
        window.zter-settings-window .zter-settings-form {
            padding: 16px;
        }
        window.zter-settings-window frame.zter-settings-group {
            background-color: transparent;
            background-image: none;
            border: 1px solid "@
        + css_spec(color_spec(ThemeColor::Selection))
        + ";
            border-radius: 7px;
            box-shadow: none;
            padding: 2px 12px 12px;
        }
        window.zter-settings-window frame.zter-settings-group > label {
            background-color: "@
        + css_spec(color_spec(ThemeColor::Background))
        + ";
            color: "@
        + css_spec(Rgb(0x9d, 0xa5, 0xb4))
        + ";
            margin-left: 0;
            padding: 0 4px 0 0;
        }
        window.zter-settings-window .zter-settings-padding {
            margin-top: 6px;
        }
        window.zter-settings-window .zter-settings-field {
            background-color: transparent;
            background-image: none;
            border-width: 0;
            box-shadow: none;
            padding: 0;
        }
        window.zter-settings-window .zter-settings-field-title {
            color: "@
        + css_spec(Rgb(0x9d, 0xa5, 0xb4))
        + ";
            font-size: 12px;
            min-height: 18px;
            padding-left: 2px;
        }
        window.zter-settings-window checkbutton.zter-settings-checkbox {
            background-color: transparent;
            background-image: none;
            box-shadow: none;
            color: "@
        + css_spec(Rgb(0x9d, 0xa5, 0xb4))
        + ";
            margin: 0;
            min-height: 18px;
            padding: 0;
        }
        window.zter-settings-window checkbutton.zter-settings-checkbox label {
            font-size: 12px;
            min-height: 18px;
        }
        window.zter-settings-window checkbutton.zter-settings-checkbox check {
            background-color: "@
        + css_spec(color_spec(ThemeColor::Background))
        + ";
            background-image: none;
            border: 1px solid "@
        + css_spec(color_spec(ThemeColor::Selection))
        + ";
            border-radius: 4px;
            box-shadow: none;
            color: "@
        + css_spec(color_spec(ThemeColor::Foreground))
        + ";
            min-height: 14px;
            min-width: 14px;
        }
        window.zter-settings-window checkbutton.zter-settings-checkbox:hover check {
            border-color: #9DA5B4;
        }
        window.zter-settings-window checkbutton.zter-settings-checkbox:checked check {
            background-color: "@
        + css_spec(Rgb(0x9d, 0xa5, 0xb4))
        + ";
            border-color: #9DA5B4;
            color: #282C34;
        }
        window.zter-settings-window checkbutton.zter-settings-checkbox:focus check {
            border-color: #DCDFE4;
        }
        window.zter-settings-window checkbutton.zter-settings-radio {
            background-color: transparent;
            background-image: none;
            box-shadow: none;
            color: #DCDFE4;
            margin: 0;
            padding: 0;
        }
        window.zter-settings-window checkbutton.zter-settings-radio radio {
            background-color: #282C34;
            background-image: none;
            border: 1px solid #3E4451;
            box-shadow: none;
            color: #DCDFE4;
            min-height: 14px;
            min-width: 14px;
        }
        window.zter-settings-window checkbutton.zter-settings-radio:hover radio {
            border-color: #9DA5B4;
        }
        window.zter-settings-window checkbutton.zter-settings-radio:checked radio {
            background-color: #9DA5B4;
            background-image: none;
            border-color: #9DA5B4;
            color: #282C34;
        }
        window.zter-settings-window checkbutton.zter-settings-radio:focus radio {
            border-color: #DCDFE4;
        }
        window.zter-settings-window .zter-settings-field > entry,
        window.zter-settings-window .zter-settings-field > spinbutton,
        window.zter-settings-window .zter-settings-field > .zter-settings-value {
            background-color: "@
        + css_spec(color_spec(ThemeColor::Background))
        + ";
            background-image: none;
            border: 1px solid "@
        + css_spec(color_spec(ThemeColor::Selection))
        + ";
            border-radius: 7px;
            box-shadow: none;
            color: "@
        + css_spec(color_spec(ThemeColor::Foreground))
        + ";
            min-height: 36px;
            outline-width: 0;
            padding: 0 10px;
        }
        window.zter-settings-window scale.zter-settings-opacity-scale trough {
            background-color: #303643;
            background-image: none;
            border-width: 0;
            border-radius: 999px;
            box-shadow: none;
            min-height: 6px;
        }
        window.zter-settings-window scale.zter-settings-opacity-scale highlight {
            background-color: #9DA5B4;
            background-image: none;
            border-radius: 999px;
            box-shadow: none;
        }
        window.zter-settings-window scale.zter-settings-opacity-scale:disabled trough,
        window.zter-settings-window scale.zter-settings-opacity-scale:disabled highlight {
            background-color: #5C6370;
        }
        window.zter-settings-window scale.zter-settings-opacity-scale slider {
            background-color: #9DA5B4;
            background-image: none;
            border: 1px solid #5C6370;
            border-radius: 999px;
            box-shadow: none;
            min-height: 14px;
            min-width: 14px;
        }
        window.zter-settings-window scale.zter-settings-opacity-scale:hover slider,
        window.zter-settings-window scale.zter-settings-opacity-scale:focus slider {
            background-color: #DCDFE4;
        }
        window.zter-settings-window scale.zter-settings-opacity-scale:focus slider {
            border-color: #DCDFE4;
        }
        window.zter-settings-window scale.zter-settings-opacity-scale:disabled slider {
            background-color: #5C6370;
        }
        window.zter-settings-window scale.zter-settings-opacity-scale value {
            color: #DCDFE4;
            min-width: 34px;
        }
        window.zter-settings-window scale.zter-settings-opacity-scale:disabled value {
            color: #9DA5B4;
        }
        window.zter-settings-window .zter-settings-field > entry:disabled,
        window.zter-settings-window .zter-settings-field > spinbutton:disabled,
        window.zter-settings-window .zter-settings-field > .zter-settings-value:disabled,
        window.zter-settings-window checkbutton.zter-settings-checkbox:disabled,
        window.zter-settings-window .zter-settings-actions button:disabled {
            opacity: 0.3;
        }
        window.zter-settings-window .zter-settings-field spinbutton entry {
            background-color: transparent;
            background-image: none;
            border-width: 0;
            border-radius: 0;
            box-shadow: none;
            color: "@
        + css_spec(color_spec(ThemeColor::Foreground))
        + ";
            min-height: 32px;
            outline-width: 0;
            padding: 0;
        }
        window.zter-settings-window .zter-settings-field > entry:focus,
        window.zter-settings-window .zter-settings-field > spinbutton:focus,
        window.zter-settings-window .zter-settings-field spinbutton entry:focus {
            border-color: "@
        + css_spec(color_spec(ThemeColor::Selection))
        + ";
            box-shadow: none;
            outline-width: 0;
        }
        window.zter-settings-window .zter-settings-field spinbutton button {
            background-color: transparent;
            background-image: none;
            border-width: 0;
            border-radius: 999px;
            box-shadow: none;
            color: "@
        + css_spec(color_spec(ThemeColor::Foreground))
        + ";
            min-height: 28px;
            min-width: 28px;
            margin: 4px 2px;
            padding: 0;
        }
        window.zter-settings-window .zter-settings-field spinbutton button:hover {
            background-color: "@
        + css_spec(color_spec(ThemeColor::HeaderButtonHover))
        + ";
        }
        window.zter-settings-window .zter-settings-actions {
            border-top: 1px solid "@
        + css_spec(color_spec(ThemeColor::Selection))
        + ";
            padding: 12px 16px;
        }
        window.zter-settings-window .zter-settings-status {
            color: "@
        + css_spec(Rgb(0xe0, 0x6c, 0x75))
        + ";
            margin-right: 8px;
        }
        window.zter-settings-window .zter-settings-actions button {
            background-color: "@
        + css_spec(color_spec(ThemeColor::HeaderBackground))
        + ";
            background-image: none;
            border: 1px solid "@
        + css_spec(color_spec(ThemeColor::Selection))
        + ";
            border-radius: 7px;
            box-shadow: none;
            color: "@
        + css_spec(color_spec(ThemeColor::Foreground))
        + ";
            min-height: 32px;
            min-width: 76px;
            outline-width: 0;
            padding: 0 14px;
        }
        window.zter-settings-window .zter-settings-actions button:hover {
            background-color: "@
        + css_spec(color_spec(ThemeColor::TabHover))
        + ";
        }
        window.zter-settings-window .zter-settings-actions button:focus {
            box-shadow: none;
            outline-width: 0;
        }
        window.zter-window .zter-header button.zter-settings-button {
            background-color: transparent;
            background-image: none;
            border-width: 0;
            border-radius: 999px;
            box-shadow: none;
            min-height: 28px;
            min-width: 28px;
            margin: 0 2px;
            padding: 0;
            transition: background-color 180ms ease-out;
        }
        window.zter-window .zter-header button.zter-settings-button:hover {
            background-color: "@
        + css_spec(color_spec(ThemeColor::HeaderButtonHover))
        + ";
        }"@
}

/// The settings window's stylesheet, with the theme's colors.
pub fn settings_window_css() -> (css: String)
    ensures
        css@ == settings_window_css_spec(),
{
    let mut css = String::new();
    css.append("window.zter-settings-window {
            background-color: transparent;
            background-image: none;
            border-radius: 12px;
            box-shadow: none;
        }
        window.zter-settings-window .zter-settings-surface {
            background-color: ");
    css.append(color(ThemeColor::Background).css().as_str());
    css.append(";
            background-image: none;
            border: 1px solid ");
    css.append(color(ThemeColor::Selection).css().as_str());
    css.append(";
            border-radius: 12px;
            box-shadow: none;
        }
        window.zter-settings-window .zter-settings-header {
            background-color: ");
    css.append(color(ThemeColor::HeaderBackground).css().as_str());
    css.append(";
            background-image: none;
            border-bottom: 1px solid ");
    css.append(color(ThemeColor::Selection).css().as_str());
    css.append(";
            box-shadow: none;
            min-height: 36px;
        }
        window.zter-settings-window .zter-settings-title {
            color: ");
    css.append(color(ThemeColor::Foreground).css().as_str());
    css.append(";
            font-weight: 600;
            padding-left: 16px;
        }
        window.zter-settings-window .zter-settings-form {
            padding: 16px;
        }
        window.zter-settings-window frame.zter-settings-group {
            background-color: transparent;
            background-image: none;
            border: 1px solid ");
    css.append(color(ThemeColor::Selection).css().as_str());
    css.append(";
            border-radius: 7px;
            box-shadow: none;
            padding: 2px 12px 12px;
        }
        window.zter-settings-window frame.zter-settings-group > label {
            background-color: ");
    css.append(color(ThemeColor::Background).css().as_str());
    css.append(";
            color: ");
    css.append(Rgb(0x9d, 0xa5, 0xb4).css().as_str());
    css.append(";
            margin-left: 0;
            padding: 0 4px 0 0;
        }
        window.zter-settings-window .zter-settings-padding {
            margin-top: 6px;
        }
        window.zter-settings-window .zter-settings-field {
            background-color: transparent;
            background-image: none;
            border-width: 0;
            box-shadow: none;
            padding: 0;
        }
        window.zter-settings-window .zter-settings-field-title {
            color: ");
    css.append(Rgb(0x9d, 0xa5, 0xb4).css().as_str());
    css.append(";
            font-size: 12px;
            min-height: 18px;
            padding-left: 2px;
        }
        window.zter-settings-window checkbutton.zter-settings-checkbox {
            background-color: transparent;
            background-image: none;
            box-shadow: none;
            color: ");
    css.append(Rgb(0x9d, 0xa5, 0xb4).css().as_str());
    css.append(";
            margin: 0;
            min-height: 18px;
            padding: 0;
        }
        window.zter-settings-window checkbutton.zter-settings-checkbox label {
            font-size: 12px;
            min-height: 18px;
        }
        window.zter-settings-window checkbutton.zter-settings-checkbox check {
            background-color: ");
    css.append(color(ThemeColor::Background).css().as_str());
    css.append(";
            background-image: none;
            border: 1px solid ");
    css.append(color(ThemeColor::Selection).css().as_str());
    css.append(";
            border-radius: 4px;
            box-shadow: none;
            color: ");
    css.append(color(ThemeColor::Foreground).css().as_str());
    css.append(";
            min-height: 14px;
            min-width: 14px;
        }
        window.zter-settings-window checkbutton.zter-settings-checkbox:hover check {
            border-color: #9DA5B4;
        }
        window.zter-settings-window checkbutton.zter-settings-checkbox:checked check {
            background-color: ");
    css.append(Rgb(0x9d, 0xa5, 0xb4).css().as_str());
    css.append(";
            border-color: #9DA5B4;
            color: #282C34;
        }
        window.zter-settings-window checkbutton.zter-settings-checkbox:focus check {
            border-color: #DCDFE4;
        }
        window.zter-settings-window checkbutton.zter-settings-radio {
            background-color: transparent;
            background-image: none;
            box-shadow: none;
            color: #DCDFE4;
            margin: 0;
            padding: 0;
        }
        window.zter-settings-window checkbutton.zter-settings-radio radio {
            background-color: #282C34;
            background-image: none;
            border: 1px solid #3E4451;
            box-shadow: none;
            color: #DCDFE4;
            min-height: 14px;
            min-width: 14px;
        }
        window.zter-settings-window checkbutton.zter-settings-radio:hover radio {
            border-color: #9DA5B4;
        }
        window.zter-settings-window checkbutton.zter-settings-radio:checked radio {
            background-color: #9DA5B4;
            background-image: none;
            border-color: #9DA5B4;
            color: #282C34;
        }
        window.zter-settings-window checkbutton.zter-settings-radio:focus radio {
            border-color: #DCDFE4;
        }
        window.zter-settings-window .zter-settings-field > entry,
        window.zter-settings-window .zter-settings-field > spinbutton,
        window.zter-settings-window .zter-settings-field > .zter-settings-value {
            background-color: ");
    css.append(color(ThemeColor::Background).css().as_str());
    css.append(";
            background-image: none;
            border: 1px solid ");
    css.append(color(ThemeColor::Selection).css().as_str());
    css.append(";
            border-radius: 7px;
            box-shadow: none;
            color: ");
    css.append(color(ThemeColor::Foreground).css().as_str());
    css.append(";
            min-height: 36px;
            outline-width: 0;
            padding: 0 10px;
        }
        window.zter-settings-window scale.zter-settings-opacity-scale trough {
            background-color: #303643;
            background-image: none;
            border-width: 0;
            border-radius: 999px;
            box-shadow: none;
            min-height: 6px;
        }
        window.zter-settings-window scale.zter-settings-opacity-scale highlight {
            background-color: #9DA5B4;
            background-image: none;
            border-radius: 999px;
            box-shadow: none;
        }
        window.zter-settings-window scale.zter-settings-opacity-scale:disabled trough,
        window.zter-settings-window scale.zter-settings-opacity-scale:disabled highlight {
            background-color: #5C6370;
        }
        window.zter-settings-window scale.zter-settings-opacity-scale slider {
            background-color: #9DA5B4;
            background-image: none;
            border: 1px solid #5C6370;
            border-radius: 999px;
            box-shadow: none;
            min-height: 14px;
            min-width: 14px;
        }
        window.zter-settings-window scale.zter-settings-opacity-scale:hover slider,
        window.zter-settings-window scale.zter-settings-opacity-scale:focus slider {
            background-color: #DCDFE4;
        }
        window.zter-settings-window scale.zter-settings-opacity-scale:focus slider {
            border-color: #DCDFE4;
        }
        window.zter-settings-window scale.zter-settings-opacity-scale:disabled slider {
            background-color: #5C6370;
        }
        window.zter-settings-window scale.zter-settings-opacity-scale value {
            color: #DCDFE4;
            min-width: 34px;
        }
        window.zter-settings-window scale.zter-settings-opacity-scale:disabled value {
            color: #9DA5B4;
        }
        window.zter-settings-window .zter-settings-field > entry:disabled,
        window.zter-settings-window .zter-settings-field > spinbutton:disabled,
        window.zter-settings-window .zter-settings-field > .zter-settings-value:disabled,
        window.zter-settings-window checkbutton.zter-settings-checkbox:disabled,
        window.zter-settings-window .zter-settings-actions button:disabled {
            opacity: 0.3;
        }
        window.zter-settings-window .zter-settings-field spinbutton entry {
            background-color: transparent;
            background-image: none;
            border-width: 0;
            border-radius: 0;
            box-shadow: none;
            color: ");
    css.append(color(ThemeColor::Foreground).css().as_str());
    css.append(";
            min-height: 32px;
            outline-width: 0;
            padding: 0;
        }
        window.zter-settings-window .zter-settings-field > entry:focus,
        window.zter-settings-window .zter-settings-field > spinbutton:focus,
        window.zter-settings-window .zter-settings-field spinbutton entry:focus {
            border-color: ");
    css.append(color(ThemeColor::Selection).css().as_str());
    css.append(";
            box-shadow: none;
            outline-width: 0;
        }
        window.zter-settings-window .zter-settings-field spinbutton button {
            background-color: transparent;
            background-image: none;
            border-width: 0;
            border-radius: 999px;
            box-shadow: none;
            color: ");
    css.append(color(ThemeColor::Foreground).css().as_str());
    css.append(";
            min-height: 28px;
            min-width: 28px;
            margin: 4px 2px;
            padding: 0;
        }
        window.zter-settings-window .zter-settings-field spinbutton button:hover {
            background-color: ");
    css.append(color(ThemeColor::HeaderButtonHover).css().as_str());
    css.append(";
        }
        window.zter-settings-window .zter-settings-actions {
            border-top: 1px solid ");
    css.append(color(ThemeColor::Selection).css().as_str());
    css.append(";
            padding: 12px 16px;
        }
        window.zter-settings-window .zter-settings-status {
            color: ");
    css.append(Rgb(0xe0, 0x6c, 0x75).css().as_str());
    css.append(";
            margin-right: 8px;
        }
        window.zter-settings-window .zter-settings-actions button {
            background-color: ");
    css.append(color(ThemeColor::HeaderBackground).css().as_str());
    css.append(";
            background-image: none;
            border: 1px solid ");
    css.append(color(ThemeColor::Selection).css().as_str());
    css.append(";
            border-radius: 7px;
            box-shadow: none;
            color: ");
    css.append(color(ThemeColor::Foreground).css().as_str());
    css.append(";
            min-height: 32px;
            min-width: 76px;
            outline-width: 0;
            padding: 0 14px;
        }
        window.zter-settings-window .zter-settings-actions button:hover {
            background-color: ");
    css.append(color(ThemeColor::TabHover).css().as_str());
    css.append(";
        }
        window.zter-settings-window .zter-settings-actions button:focus {
            box-shadow: none;
            outline-width: 0;
        }
        window.zter-window .zter-header button.zter-settings-button {
            background-color: transparent;
            background-image: none;
            border-width: 0;
            border-radius: 999px;
            box-shadow: none;
            min-height: 28px;
            min-width: 28px;
            margin: 0 2px;
            padding: 0;
            transition: background-color 180ms ease-out;
        }
        window.zter-window .zter-header button.zter-settings-button:hover {
            background-color: ");
    css.append(color(ThemeColor::HeaderButtonHover).css().as_str());
    css.append(";
        }");
    css
}

} // verus!
