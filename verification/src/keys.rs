//! Keyboard and pointer shortcuts of the terminal window.
//!
//! Keys are GDK key values; shortcuts that are case-insensitive are given the
//! key value already lowered by GDK. Modifier state is read into `Modifiers`.
use crate::binary64::Binary64;
use vstd::prelude::*;

verus! {

pub const KEY_0: u32 = 0x030;
pub const KEY_EQUAL: u32 = 0x03d;
pub const KEY_MINUS: u32 = 0x02d;
pub const KEY_C: u32 = 0x063;
pub const KEY_D: u32 = 0x064;
pub const KEY_T: u32 = 0x074;
pub const KEY_V: u32 = 0x076;
pub const KEY_Z: u32 = 0x07a;
pub const KEY_PAGE_UP: u32 = 0xff55;
pub const KEY_PAGE_DOWN: u32 = 0xff56;

/// The modifier keys held during an event.
#[derive(Clone, Copy, Debug, Default, PartialEq, Eq, Structural)]
pub struct Modifiers {
    pub control: bool,
    pub shift: bool,
    pub alt: bool,
    pub super_key: bool,
    pub hyper: bool,
    pub meta: bool,
}

impl Modifiers {
    /// Alt, Super, Hyper or Meta: modifiers that belong to the desktop.
    pub open spec fn spec_system(self) -> bool {
        self.alt || self.super_key || self.hyper || self.meta
    }

    pub fn system(self) -> (result: bool)
        ensures
            result == self.spec_system(),
    {
        self.alt || self.super_key || self.hyper || self.meta
    }
}

/// A shortcut that works on the window's tabs.
#[derive(Clone, Copy, Debug, PartialEq, Eq, Structural)]
pub enum TabShortcut {
    New,
    Previous,
    Next,
}

/// Control+T opens a tab (without a system modifier); Control+Page Up and
/// Control+Page Down move between tabs. Shift disables them all.
pub open spec fn tab_shortcut_spec(key: u32, modifiers: Modifiers) -> Option<TabShortcut> {
    if !modifiers.control || modifiers.shift {
        None
    } else if key == KEY_T && !modifiers.spec_system() {
        Some(TabShortcut::New)
    } else if key == KEY_PAGE_UP {
        Some(TabShortcut::Previous)
    } else if key == KEY_PAGE_DOWN {
        Some(TabShortcut::Next)
    } else {
        None
    }
}

/// The tab shortcut of the lowered key `key`, if any.
pub fn tab_shortcut(key: u32, modifiers: Modifiers) -> (shortcut: Option<TabShortcut>)
    ensures
        shortcut == tab_shortcut_spec(key, modifiers),
{
    if !modifiers.control || modifiers.shift {
        return None;
    }
    if key == KEY_T && !modifiers.system() {
        Some(TabShortcut::New)
    } else if key == KEY_PAGE_UP {
        Some(TabShortcut::Previous)
    } else if key == KEY_PAGE_DOWN {
        Some(TabShortcut::Next)
    } else {
        None
    }
}

#[derive(Clone, Copy, Debug, PartialEq, Eq, Structural)]
pub enum ClipboardShortcut {
    Copy,
    Paste,
}

/// Whether `keycodes` holds `keycode`.
fn holds(keycodes: &Vec<u32>, keycode: u32) -> (result: bool)
    ensures
        result == keycodes@.contains(keycode),
{
    let mut i: usize = 0;
    while i < keycodes.len()
        invariant
            i <= keycodes@.len(),
            forall|j: int| 0 <= j < i ==> keycodes@[j] != keycode,
        decreases keycodes.len() - i,
    {
        if keycodes[i] == keycode {
            return true;
        }
        i = i + 1;
    }
    false
}

/// The hardware keys that produce C and V on the keyboard's layouts, so that
/// the clipboard shortcuts follow the physical keys on layouts without Latin
/// letters.
#[derive(Clone, Debug, PartialEq, Eq)]
pub struct ClipboardShortcutKeycodes {
    pub copy: Vec<u32>,
    pub paste: Vec<u32>,
}

impl ClipboardShortcutKeycodes {
    pub open spec fn spec_shortcut_for_keycode(&self, keycode: u32) -> Option<ClipboardShortcut> {
        if self.copy@.contains(keycode) {
            Some(ClipboardShortcut::Copy)
        } else if self.paste@.contains(keycode) {
            Some(ClipboardShortcut::Paste)
        } else {
            None
        }
    }

    /// The clipboard shortcut of a hardware key; copy wins when a key
    /// produces both letters.
    pub fn shortcut_for_keycode(&self, keycode: u32) -> (shortcut: Option<ClipboardShortcut>)
        ensures
            shortcut == self.spec_shortcut_for_keycode(keycode),
    {
        if holds(&self.copy, keycode) {
            Some(ClipboardShortcut::Copy)
        } else if holds(&self.paste, keycode) {
            Some(ClipboardShortcut::Paste)
        } else {
            None
        }
    }
}

/// Whether `s` is in strictly increasing order.
pub open spec fn strictly_increasing(s: Seq<u32>) -> bool {
    forall|i: int, j: int| 0 <= i < j < s.len() ==> s[i] < s[j]
}

/// The keycodes in increasing order, each once.
pub fn distinct_keycodes(keycodes: Vec<u32>) -> (result: Vec<u32>)
    ensures
        strictly_increasing(result@),
        forall|k: u32| result@.contains(k) <==> keycodes@.contains(k),
{
    let mut result: Vec<u32> = Vec::new();
    let mut i: usize = 0;
    while i < keycodes.len()
        invariant
            i <= keycodes@.len(),
            strictly_increasing(result@),
            forall|j: int| 0 <= j < i ==> result@.contains(#[trigger] keycodes@[j]),
            forall|m: int|
                0 <= m < result@.len() ==> exists|j: int|
                    0 <= j < i && #[trigger] keycodes@[j] == #[trigger] result@[m],
        decreases keycodes.len() - i,
    {
        let k = keycodes[i];
        let mut p: usize = 0;
        while p < result.len() && result[p] < k
            invariant
                p <= result@.len(),
                forall|j: int| 0 <= j < p ==> result@[j] < k,
            decreases result.len() - p,
        {
            p = p + 1;
        }
        let ghost before = result@;
        if p == result.len() || result[p] != k {
            result.insert(p, k);
            proof {
                assert forall|a: int, b: int| 0 <= a < b < result@.len() implies result@[a]
                    < result@[b] by {
                    if a < p as int && b > p as int {
                        assert(result@[b] == before[b - 1]);
                        if p < before.len() {
                            assert(before[p as int] > k);
                            assert(before[p as int] <= before[b - 1]);
                        }
                    } else if a == p as int {
                        assert(result@[b] == before[b - 1]);
                        assert(before[p as int] >= k);
                        assert(before[p as int] != k);
                        assert(before[p as int] <= before[b - 1]);
                    } else if b == p as int {
                        assert(result@[a] == before[a]);
                    } else if a > p as int {
                        assert(result@[a] == before[a - 1]);
                        assert(result@[b] == before[b - 1]);
                    }
                }
                assert forall|j: int| 0 <= j < i + 1 implies result@.contains(
                    #[trigger] keycodes@[j],
                ) by {
                    if j == i {
                        assert(result@[p as int] == k);
                    } else {
                        let m = choose|m: int| 0 <= m < before.len() && before[m] == keycodes@[j];
                        if m < p {
                            assert(result@[m] == keycodes@[j]);
                        } else {
                            assert(result@[m + 1] == keycodes@[j]);
                        }
                    }
                }
                assert forall|m: int| 0 <= m < result@.len() implies exists|j: int|
                    0 <= j < i + 1 && #[trigger] keycodes@[j] == #[trigger] result@[m] by {
                    if m == p as int {
                        assert(keycodes@[i as int] == result@[m]);
                    } else if m < p as int {
                        assert(result@[m] == before[m]);
                    } else {
                        assert(result@[m] == before[m - 1]);
                    }
                }
            }
        } else {
            proof {
                assert(result@[p as int] == k);
                assert forall|j: int| 0 <= j < i + 1 implies result@.contains(
                    #[trigger] keycodes@[j],
                ) by {
                    if j == i {
                        assert(result@[p as int] == keycodes@[j]);
                    }
                }
            }
        }
        i = i + 1;
    }
    proof {
        assert forall|x: u32| result@.contains(x) <==> keycodes@.contains(x) by {
            if result@.contains(x) {
                let m = choose|m: int| 0 <= m < result@.len() && result@[m] == x;
                let j = choose|j: int| 0 <= j < keycodes@.len() && #[trigger] keycodes@[j]
                    == result@[m];
                assert(keycodes@[j] == x);
            }
            if keycodes@.contains(x) {
                let j = choose|j: int| 0 <= j < keycodes@.len() && keycodes@[j] == x;
                assert(result@.contains(keycodes@[j]));
            }
        }
    }
    result
}

/// Control+C copies and Control+V pastes, also on the hardware keys of C
/// and V; Shift disables both.
pub open spec fn clipboard_shortcut_spec(
    key: u32,
    keycode: u32,
    modifiers: Modifiers,
    keycodes: ClipboardShortcutKeycodes,
) -> Option<ClipboardShortcut> {
    if !modifiers.control || modifiers.shift {
        None
    } else if key == KEY_C {
        Some(ClipboardShortcut::Copy)
    } else if key == KEY_V {
        Some(ClipboardShortcut::Paste)
    } else {
        keycodes.spec_shortcut_for_keycode(keycode)
    }
}

/// The clipboard shortcut of the lowered key `key` on the hardware key
/// `keycode`, if any.
pub fn clipboard_shortcut(
    key: u32,
    keycode: u32,
    modifiers: Modifiers,
    keycodes: &ClipboardShortcutKeycodes,
) -> (shortcut: Option<ClipboardShortcut>)
    ensures
        shortcut == clipboard_shortcut_spec(key, keycode, modifiers, *keycodes),
{
    if !modifiers.control || modifiers.shift {
        return None;
    }
    if key == KEY_C {
        Some(ClipboardShortcut::Copy)
    } else if key == KEY_V {
        Some(ClipboardShortcut::Paste)
    } else {
        keycodes.shortcut_for_keycode(keycode)
    }
}

/// What the copy shortcut does.
#[derive(Clone, Copy, Debug, PartialEq, Eq, Structural)]
pub enum ClipboardCopyRoute {
    CopySelection,
    /// Ask before sending an interrupt to the running program.
    ConfirmInterrupt,
    /// Let the terminal receive the key.
    PassThrough,
}

/// The copy shortcut copies a selection; without one it interrupts a
/// running foreground program after confirmation, and otherwise reaches the
/// terminal.
pub fn clipboard_copy_route(has_selection: bool, has_foreground_process: bool) -> (route:
    ClipboardCopyRoute)
    ensures
        route == if has_selection {
            ClipboardCopyRoute::CopySelection
        } else if has_foreground_process {
            ClipboardCopyRoute::ConfirmInterrupt
        } else {
            ClipboardCopyRoute::PassThrough
        },
{
    if has_selection {
        ClipboardCopyRoute::CopySelection
    } else if has_foreground_process {
        ClipboardCopyRoute::ConfirmInterrupt
    } else {
        ClipboardCopyRoute::PassThrough
    }
}

/// What the paste shortcut does.
#[derive(Clone, Copy, Debug, PartialEq, Eq, Structural)]
pub enum ClipboardPasteRoute {
    PasteText,
    PassThrough,
}

/// The paste shortcut pastes text; other clipboard contents let the key
/// reach the terminal.
pub fn clipboard_paste_route(clipboard_contains_text: bool) -> (route: ClipboardPasteRoute)
    ensures
        route == if clipboard_contains_text {
            ClipboardPasteRoute::PasteText
        } else {
            ClipboardPasteRoute::PassThrough
        },
{
    if clipboard_contains_text {
        ClipboardPasteRoute::PasteText
    } else {
        ClipboardPasteRoute::PassThrough
    }
}

/// What a job-control key does while a foreground program runs.
#[derive(Clone, Copy, Debug, PartialEq, Eq, Structural)]
pub enum ForegroundProcessShortcut {
    ConfirmEndOfInput,
    ConfirmSuspend,
    Suppress,
}

/// Control+D asks before sending end of input, Control+Z asks before
/// suspending, and Control+Shift+Z is swallowed; system modifiers disable
/// them.
pub open spec fn foreground_process_shortcut_spec(key: u32, modifiers: Modifiers) -> Option<
    ForegroundProcessShortcut,
> {
    if !modifiers.control || modifiers.spec_system() {
        None
    } else if key == KEY_D && !modifiers.shift {
        Some(ForegroundProcessShortcut::ConfirmEndOfInput)
    } else if key == KEY_Z && modifiers.shift {
        Some(ForegroundProcessShortcut::Suppress)
    } else if key == KEY_Z {
        Some(ForegroundProcessShortcut::ConfirmSuspend)
    } else {
        None
    }
}

/// The job-control shortcut of the lowered key `key`, if any.
pub fn foreground_process_shortcut(key: u32, modifiers: Modifiers) -> (shortcut: Option<
    ForegroundProcessShortcut,
>)
    ensures
        shortcut == foreground_process_shortcut_spec(key, modifiers),
{
    if !modifiers.control || modifiers.system() {
        return None;
    }
    if key == KEY_D && !modifiers.shift {
        Some(ForegroundProcessShortcut::ConfirmEndOfInput)
    } else if key == KEY_Z && modifiers.shift {
        Some(ForegroundProcessShortcut::Suppress)
    } else if key == KEY_Z {
        Some(ForegroundProcessShortcut::ConfirmSuspend)
    } else {
        None
    }
}

/// A click opens a hyperlink only with Control alone.
pub fn is_control_hyperlink_click(modifiers: Modifiers) -> (result: bool)
    ensures
        result == (modifiers.control && !modifiers.shift && !modifiers.spec_system()),
{
    modifiers.control && !modifiers.shift && !modifiers.system()
}

/// A change of the terminal's font size.
#[derive(Clone, Copy, Debug, PartialEq, Eq, Structural)]
pub enum TerminalZoom {
    In,
    Out,
    Reset,
}

/// Control with `=`, `-` and `0` zooms in, out and back; any other modifier
/// disables them.
pub open spec fn terminal_zoom_shortcut_spec(key: u32, modifiers: Modifiers) -> Option<
    TerminalZoom,
> {
    if !modifiers.control || modifiers.shift || modifiers.spec_system() {
        None
    } else if key == KEY_EQUAL {
        Some(TerminalZoom::In)
    } else if key == KEY_MINUS {
        Some(TerminalZoom::Out)
    } else if key == KEY_0 {
        Some(TerminalZoom::Reset)
    } else {
        None
    }
}

/// The zoom shortcut of the key `key` as typed, if any.
pub fn terminal_zoom_shortcut(key: u32, modifiers: Modifiers) -> (zoom: Option<TerminalZoom>)
    ensures
        zoom == terminal_zoom_shortcut_spec(key, modifiers),
{
    if !modifiers.control || modifiers.shift || modifiers.system() {
        return None;
    }
    if key == KEY_EQUAL {
        Some(TerminalZoom::In)
    } else if key == KEY_MINUS {
        Some(TerminalZoom::Out)
    } else if key == KEY_0 {
        Some(TerminalZoom::Reset)
    } else {
        None
    }
}

/// Control alone with a vertical scroll zooms: up zooms in, down zooms out.
pub fn terminal_zoom_scroll(modifiers: Modifiers, dy: Binary64) -> (zoom: Option<TerminalZoom>)
    ensures
        zoom == if !modifiers.control || modifiers.shift || modifiers.spec_system() {
            None
        } else if dy.spec_below_zero() {
            Some(TerminalZoom::In)
        } else if dy.spec_above_zero() {
            Some(TerminalZoom::Out)
        } else {
            None
        },
{
    if !modifiers.control || modifiers.shift || modifiers.system() {
        return None;
    }
    if dy.below_zero() {
        Some(TerminalZoom::In)
    } else if dy.above_zero() {
        Some(TerminalZoom::Out)
    } else {
        None
    }
}

} // verus!
