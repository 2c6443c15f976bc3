//! Tab titles and the decisions of tab drag and drop.
//!
//! A tab shows the terminal's title until the user names the tab. A named
//! tab keeps its name, and still shows the status marker that an agent
//! running in the terminal puts in front of its title.
use crate::path::path_file_name;
use crate::text::{
    chars_of, copy_str, is_whitespace, is_whitespace_spec, sanitize_title, skip_whitespace,
    starts_with, string_from_range, trim_spec, controls_to_spaces_spec, trim_start_spec,
};
use vstd::prelude::*;

verus! {

broadcast use vstd::string::group_string_axioms;

/// The status that a coding agent puts in front of its title when it waits
/// for the user.
pub const ACTION_REQUIRED_STATUS: &'static str = "[ ! ] Action Required";

/// The glyphs that mark a working or waiting agent at the start of a title.
pub open spec fn status_glyphs() -> Seq<char> {
    seq!['⠋', '⠙', '⠹', '⠸', '⠼', '⠴', '⠦', '⠧', '⠇', '⠏', '◐', '◑', '✦', '✋', '✳', '◇']
}

/// The status glyphs, in order.
pub fn terminal_status_glyphs() -> (glyphs: [char; 16])
    ensures
        glyphs@ == status_glyphs(),
{
    let glyphs: [char; 16] = [
        '⠋', '⠙', '⠹', '⠸', '⠼', '⠴', '⠦', '⠧', '⠇', '⠏', '◐', '◑', '✦', '✋', '✳', '◇',
    ];
    proof {
        assert(glyphs@ =~= status_glyphs());
    }
    glyphs
}

pub fn is_status_glyph(c: char) -> (result: bool)
    ensures
        result == status_glyphs().contains(c),
{
    let glyphs = terminal_status_glyphs();
    let mut i: usize = 0;
    while i < 16
        invariant
            i <= 16,
            glyphs@ == status_glyphs(),
            forall|j: int| 0 <= j < i ==> status_glyphs()[j] != c,
        decreases 16 - i,
    {
        if glyphs[i] == c {
            proof {
                assert(status_glyphs()[i as int] == c);
            }
            return true;
        }
        i = i + 1;
    }
    false
}

/// The status marker at the start of a terminal title.
#[derive(Clone, Copy, Debug, PartialEq, Eq, Structural)]
pub enum TerminalTitleStatus {
    Glyph(char),
    ActionRequired,
}

/// The status at the start of `title` and the title after it.
///
/// `[ ! ] Action Required` is a status when it is the whole title or is
/// followed by `|`, with optional whitespace around the bar. A status glyph
/// is a status when it is the whole title or is followed by whitespace.
pub open spec fn status_of(title: Seq<char>) -> Option<(TerminalTitleStatus, Seq<char>)> {
    let prefix = "[ ! ] Action Required"@;
    if title.len() >= prefix.len() && title.subrange(0, prefix.len() as int) == prefix {
        let rest = title.subrange(prefix.len() as int, title.len() as int);
        if rest.len() == 0 {
            Some((TerminalTitleStatus::ActionRequired, rest))
        } else {
            let after = trim_start_spec(rest);
            if after.len() > 0 && after[0] == '|' {
                Some((TerminalTitleStatus::ActionRequired, trim_start_spec(after.drop_first())))
            } else {
                None
            }
        }
    } else if title.len() > 0 && status_glyphs().contains(title[0]) {
        let rest = title.drop_first();
        if rest.len() == 0 {
            Some((TerminalTitleStatus::Glyph(title[0]), rest))
        } else if !is_whitespace_spec(rest[0]) {
            None
        } else {
            Some((TerminalTitleStatus::Glyph(title[0]), trim_start_spec(rest)))
        }
    } else {
        None
    }
}

/// Each glyph that the documentation lists, followed by whitespace at the
/// start of a title, is a status, and the title after it loses its leading
/// whitespace.
pub proof fn law_documented_glyphs_are_statuses(g: char, t: Seq<char>)
    requires
        seq!['⠋', '⠙', '⠹', '⠸', '⠼', '⠴', '⠦', '⠧', '⠇', '⠏', '◐', '◑', '✦', '✋', '✳', '◇'].contains(
            g,
        ),
    ensures
        status_of(seq![g, ' '] + t) == Some((TerminalTitleStatus::Glyph(g), trim_start_spec(t))),
        status_of(seq![g]) == Some((TerminalTitleStatus::Glyph(g), Seq::<char>::empty())),
{
    reveal_strlit("[ ! ] Action Required");
    let listed = seq!['⠋', '⠙', '⠹', '⠸', '⠼', '⠴', '⠦', '⠧', '⠇', '⠏', '◐', '◑', '✦', '✋', '✳', '◇'];
    let k = choose|k: int| 0 <= k < listed.len() && listed[k] == g;
    assert(status_glyphs()[k] == g);
    assert(status_glyphs().contains(g));
    let title = seq![g, ' '] + t;
    assert(title[0] == g);
    assert(g != '[');
    assert(title.len() >= 21 ==> title.subrange(0, 21)[0] != "[ ! ] Action Required"@[0]);
    assert(title.drop_first() =~= seq![' '] + t);
    assert((seq![' '] + t)[0] == ' ');
    assert((seq![' '] + t).drop_first() =~= t);
    assert(seq![g].drop_first() =~= Seq::<char>::empty());
}

/// The status at the start of `title` and the title after it (see
/// `status_of`).
pub fn recognized_terminal_status(title: &str) -> (status: Option<(TerminalTitleStatus, String)>)
    ensures
        match status {
            Some((s, rest)) => status_of(title@) == Some((s, rest@)),
            None => status_of(title@) is None,
        },
{
    let chars = chars_of(title);
    let n = chars.len();
    proof {
        reveal_strlit("[ ! ] Action Required");
    }
    if starts_with(title, ACTION_REQUIRED_STATUS) {
        let p: usize = 21;
        assert(chars@.subrange(p as int, n as int) =~= title@.subrange(21, title@.len() as int));
        if n == p {
            return Some((TerminalTitleStatus::ActionRequired, String::new()));
        }
        let bar = skip_whitespace(&chars, p);
        if bar < n && chars[bar] == '|' {
            let start = skip_whitespace(&chars, bar + 1);
            proof {
                let after = chars@.subrange(bar as int, n as int);
                assert(after[0] == '|');
                assert(after.drop_first() =~= chars@.subrange(bar + 1, n as int));
            }
            return Some((TerminalTitleStatus::ActionRequired, string_from_range(&chars, start, n)));
        }
        proof {
            if bar < n {
                assert(chars@.subrange(bar as int, n as int)[0] == chars@[bar as int]);
            }
        }
        return None;
    }
    if n == 0 {
        return None;
    }
    let glyph = chars[0];
    if !is_status_glyph(glyph) {
        return None;
    }
    proof {
        assert(title@.drop_first() =~= chars@.subrange(1, n as int));
    }
    if n == 1 {
        return Some((TerminalTitleStatus::Glyph(glyph), String::new()));
    }
    if !is_whitespace(chars[1]) {
        return None;
    }
    let start = skip_whitespace(&chars, 1);
    Some((TerminalTitleStatus::Glyph(glyph), string_from_range(&chars, start, n)))
}

/// The title that a tab shows: the terminal's title, or the user's name for
/// the tab behind the terminal's status marker.
pub open spec fn displayed_title(automatic: Seq<char>, manual: Option<Seq<char>>) -> Seq<char> {
    match manual {
        None => automatic,
        Some(m) => match status_of(automatic) {
            Some((TerminalTitleStatus::Glyph(g), _)) => seq![g, ' '] + m,
            Some((TerminalTitleStatus::ActionRequired, _)) => "[ ! ] Action Required | "@ + m,
            None => m,
        },
    }
}

/// The text that the title editor starts with: the user's name for the tab,
/// or the terminal's title without its status marker.
pub open spec fn editable_title(automatic: Seq<char>, manual: Option<Seq<char>>) -> Seq<char> {
    match manual {
        Some(m) => m,
        None => match status_of(automatic) {
            Some((_, t)) => t,
            None => automatic,
        },
    }
}

/// `title` as single-line text without surrounding whitespace.
pub open spec fn sanitized(title: Seq<char>) -> Seq<char> {
    trim_spec(controls_to_spaces_spec(title))
}

/// The title of a tab: the terminal's latest title and the user's name for
/// the tab, if any.
#[derive(Debug, PartialEq, Eq)]
pub struct TabTitleState {
    automatic: String,
    manual: Option<String>,
}

/// `TabTitleState` in specifications.
pub struct TabTitleView {
    pub automatic: Seq<char>,
    pub manual: Option<Seq<char>>,
}

impl View for TabTitleState {
    type V = TabTitleView;

    closed spec fn view(&self) -> TabTitleView {
        TabTitleView {
            automatic: self.automatic@,
            manual: match self.manual {
                Some(m) => Some(m@),
                None => None,
            },
        }
    }
}

impl TabTitleState {
    pub fn new(automatic: String) -> (state: TabTitleState)
        ensures
            state@.automatic == automatic@,
            state@.manual is None,
    {
        TabTitleState { automatic, manual: None }
    }

    pub fn displayed(&self) -> (title: String)
        ensures
            title@ == displayed_title(self@.automatic, self@.manual),
    {
        match &self.manual {
            None => copy_str(self.automatic.as_str()),
            Some(manual) => match recognized_terminal_status(self.automatic.as_str()) {
                Some((TerminalTitleStatus::Glyph(glyph), _)) => {
                    let mut title = String::new();
                    crate::text::push_char(&mut title, glyph);
                    crate::text::push_char(&mut title, ' ');
                    title.append(manual.as_str());
                    proof {
                        assert(title@ =~= seq![glyph, ' '] + manual@);
                    }
                    title
                },
                Some((TerminalTitleStatus::ActionRequired, _)) => {
                    let mut title = copy_str(ACTION_REQUIRED_STATUS);
                    title.append(" | ");
                    title.append(manual.as_str());
                    proof {
                        reveal_strlit("[ ! ] Action Required");
                        reveal_strlit(" | ");
                        reveal_strlit("[ ! ] Action Required | ");
                        assert(title@ =~= "[ ! ] Action Required | "@ + manual@);
                    }
                    title
                },
                None => copy_str(manual.as_str()),
            },
        }
    }

    /// The user's name for the tab, if any.
    pub fn manual_title(&self) -> (title: Option<&str>)
        ensures
            match title {
                Some(t) => self@.manual == Some(t@),
                None => self@.manual is None,
            },
    {
        match &self.manual {
            Some(m) => Some(m.as_str()),
            None => None,
        }
    }

    pub fn editable(&self) -> (title: String)
        ensures
            title@ == editable_title(self@.automatic, self@.manual),
    {
        match &self.manual {
            Some(manual) => copy_str(manual.as_str()),
            None => match recognized_terminal_status(self.automatic.as_str()) {
                Some((_, rest)) => rest,
                None => copy_str(self.automatic.as_str()),
            },
        }
    }

    /// Records the terminal's new title; the user's name for the tab stays.
    pub fn update_automatic(&mut self, title: String)
        ensures
            final(self)@.automatic == title@,
            final(self)@.manual == old(self)@.manual,
    {
        self.automatic = title;
    }

    /// Names the tab with the sanitized `title`; a title that sanitizes to
    /// nothing removes the name.
    pub fn save_manual(&mut self, title: &str)
        ensures
            final(self)@.automatic == old(self)@.automatic,
            final(self)@.manual == if sanitized(title@).len() == 0 {
                None
            } else {
                Some(sanitized(title@))
            },
    {
        let title = sanitize_title(title);
        self.manual = if title.as_str().is_empty() {
            None
        } else {
            Some(title)
        };
    }
}

/// A named tab keeps its name through every title that the terminal
/// reports, behind the status marker of the latest title.
pub proof fn law_manual_title_survives_automatic_updates(
    manual: Seq<char>,
    automatic: Seq<char>,
)
    ensures
        displayed_title(automatic, Some(manual)) == match status_of(automatic) {
            Some((TerminalTitleStatus::Glyph(g), _)) => seq![g, ' '] + manual,
            Some((TerminalTitleStatus::ActionRequired, _)) => "[ ! ] Action Required | "@ + manual,
            None => manual,
        },
        displayed_title(automatic, Some(manual)).len() >= manual.len(),
        displayed_title(automatic, Some(manual)).subrange(
            displayed_title(automatic, Some(manual)).len() - manual.len(),
            displayed_title(automatic, Some(manual)).len() as int,
        ) == manual,
{
    let shown = displayed_title(automatic, Some(manual));
    assert(shown.subrange(shown.len() - manual.len(), shown.len() as int) =~= manual);
}

/// A tab without a name shows the terminal's latest title.
pub proof fn law_unnamed_tab_shows_terminal_title(automatic: Seq<char>)
    ensures
        displayed_title(automatic, None) == automatic,
{
}

/// The default title of a new tab, before the terminal reports one: the name
/// of the shell's executable (`file_name` of the shell's path), or the whole
/// shell text when it has none, followed by ` in zter`.
pub open spec fn tab_title_for_shell_spec(shell: Seq<char>, file_name: Option<Seq<char>>) -> Seq<
    char,
> {
    let name = match file_name {
        Some(n) => if n.len() > 0 {
            n
        } else {
            shell
        },
        None => shell,
    };
    name + " in zter"@
}

/// The default title of a new tab, given the file name of the shell's path.
pub fn tab_title_for_shell(shell: &str, file_name: Option<&str>) -> (title: String)
    ensures
        title@ == tab_title_for_shell_spec(
            shell@,
            match file_name {
                Some(n) => Some(n@),
                None => None,
            },
        ),
{
    let mut title = match file_name {
        Some(n) => if n.is_empty() {
            copy_str(shell)
        } else {
            copy_str(n)
        },
        None => copy_str(shell),
    };
    title.append(" in zter");
    title
}

/// Calls `std::path::Path::file_name` on `path`. Its documentation gives
/// the final component of the path, and `None` where the path ends in `..`
/// or has no component (the root, or nothing); the contract states that
/// through `path_file_name`. The component of a path given as text is
/// itself text, so the lossy conversion keeps it whole.
#[verifier::external_body]
fn file_name_of(path: &str) -> (name: Option<String>)
    ensures
        match name {
            Some(n) => path_file_name(path@) == Some(n@),
            None => path_file_name(path@) is None,
        },
{
    std::path::Path::new(path).file_name().map(|name| name.to_string_lossy().into_owned())
}

/// The default title of a new tab running `shell`.
pub fn default_tab_title(shell: &str) -> (title: String)
    ensures
        title@ == tab_title_for_shell_spec(shell@, path_file_name(shell@)),
{
    let name = file_name_of(shell);
    match name {
        Some(n) => tab_title_for_shell(shell, Some(n.as_str())),
        None => tab_title_for_shell(shell, None),
    }
}

/// The title to show for a terminal: its title as single-line text, or
/// `fallback` when it has none or it is blank.
pub fn display_title(title: Option<&str>, fallback: &str) -> (shown: String)
    ensures
        shown@ == match title {
            Some(t) => if sanitized(t@).len() == 0 {
                fallback@
            } else {
                sanitized(t@)
            },
            None => fallback@,
        },
{
    match title {
        None => copy_str(fallback),
        Some(t) => {
            let s = sanitize_title(t);
            if s.as_str().is_empty() {
                copy_str(fallback)
            } else {
                s
            }
        },
    }
}

/// The prefix of the names that identify the program's tabs in drags.
pub const TAB_ID_PREFIX: &'static str = "zter-tab-";

pub open spec fn is_tab_id(id: Seq<char>) -> bool {
    id.len() >= "zter-tab-"@.len() && id.subrange(0, "zter-tab-"@.len() as int) == "zter-tab-"@
}

/// A tab under the pointer is highlighted as a drop target while another
/// tab of the program is dragged over it.
pub fn should_highlight_tab_drop_target(source_id: Option<&str>, target_id: &str, hovering: bool) -> (result: bool)
    ensures
        result == (hovering && (source_id matches Some(s) && is_tab_id(s@) && s@ != target_id@)),
{
    match source_id {
        Some(s) => hovering && starts_with(s, TAB_ID_PREFIX) && !crate::text::str_eq(s, target_id),
        None => false,
    }
}

/// The header is highlighted while a tab of the program is dragged over it.
pub fn should_highlight_header_drop_target(source_id: Option<&str>, hovering: bool) -> (result: bool)
    ensures
        result == (hovering && (source_id matches Some(s) && is_tab_id(s@))),
{
    match source_id {
        Some(s) => hovering && starts_with(s, TAB_ID_PREFIX),
        None => false,
    }
}

/// The half of a tab that the pointer is over.
#[derive(Clone, Copy, Debug, PartialEq, Eq, Structural)]
pub enum TabDropSide {
    Before,
    After,
}

/// Where a dropped tab is inserted: before or after the target tab, or last
/// when dropped on the header. Within one window the dragged tab leaves its
/// old place first, which shifts the places after it.
pub open spec fn insertion_position(
    source_position: u32,
    target_position: Option<(u32, TabDropSide)>,
    target_page_count: u32,
    same_window: bool,
) -> int {
    let position: int = match target_position {
        Some((p, TabDropSide::Before)) => p as int,
        Some((p, TabDropSide::After)) => p + 1,
        None => target_page_count as int,
    };
    let shifted = if same_window && source_position < position {
        position - 1
    } else {
        position
    };
    let last: int = if same_window {
        if target_page_count == 0 {
            0
        } else {
            target_page_count - 1
        }
    } else {
        target_page_count as int
    };
    if shifted < last {
        shifted
    } else {
        last
    }
}

/// Where a dropped tab is inserted (see `insertion_position`).
pub fn tab_insertion_position(
    source_position: u32,
    target_position: Option<(u32, TabDropSide)>,
    target_page_count: u32,
    same_window: bool,
) -> (position: u32)
    requires
        target_position matches Some((p, side)) ==> (side == TabDropSide::After ==> p < u32::MAX),
    ensures
        position == insertion_position(
            source_position,
            target_position,
            target_page_count,
            same_window,
        ),
{
    let mut position: u32 = match target_position {
        Some((p, TabDropSide::Before)) => p,
        Some((p, TabDropSide::After)) => p + 1,
        None => target_page_count,
    };
    if same_window && source_position < position {
        position = position - 1;
    }
    let last: u32 = if same_window {
        target_page_count.saturating_sub(1)
    } else {
        target_page_count
    };
    if position < last {
        position
    } else {
        last
    }
}

/// A dropped tab lands at a place that exists: at most the number of tabs
/// that stay in the target window.
pub proof fn law_insertion_position_is_in_range(
    source_position: u32,
    target_position: Option<(u32, TabDropSide)>,
    target_page_count: u32,
    same_window: bool,
)
    ensures
        0 <= insertion_position(source_position, target_position, target_page_count, same_window),
        insertion_position(source_position, target_position, target_page_count, same_window) <= (
        if same_window && target_page_count > 0 {
            target_page_count - 1
        } else {
            target_page_count as int
        }),
{
}

/// Within one window, a tab dropped on either half of itself, on the right
/// half of the tab just before it, or on the left half of the tab just after
/// it stays where it is.
pub proof fn law_drop_beside_itself_keeps_the_place(source: u32, count: u32)
    requires
        source < count,
    ensures
        insertion_position(source, Some((source, TabDropSide::Before)), count, true) == source,
        insertion_position(source, Some((source, TabDropSide::After)), count, true) == source,
        source > 0 ==> insertion_position(
            source,
            Some(((source - 1) as u32, TabDropSide::After)),
            count,
            true,
        ) == source,
        source + 1 < count ==> insertion_position(
            source,
            Some(((source + 1) as u32, TabDropSide::Before)),
            count,
            true,
        ) == source,
{
}

/// Within one window, a tab dropped on another tab lands next to it: moved
/// to the left, it takes the target's place (before it) or the place after
/// it; moved to the right, the tabs between close up, so it lands one place
/// lower than the target's side names. Between windows it lands at the
/// place the side names.
pub proof fn law_dropped_tab_lands_beside_its_target(
    source: u32,
    target: u32,
    count: u32,
    same_window: bool,
)
    requires
        target < count,
        same_window ==> source < count,
    ensures
        same_window && target < source ==> insertion_position(
            source,
            Some((target, TabDropSide::Before)),
            count,
            true,
        ) == target && insertion_position(source, Some((target, TabDropSide::After)), count, true)
            == target + 1,
        same_window && source < target ==> insertion_position(
            source,
            Some((target, TabDropSide::Before)),
            count,
            true,
        ) == target - 1 && insertion_position(source, Some((target, TabDropSide::After)), count, true)
            == target,
        !same_window ==> insertion_position(source, Some((target, TabDropSide::Before)), count, false)
            == target && insertion_position(source, Some((target, TabDropSide::After)), count, false)
            == target + 1,
        !same_window ==> insertion_position(source, None, count, false) == count,
{
}

/// Why a drag ended without a drop.
#[derive(Clone, Copy, Debug, PartialEq, Eq, Structural)]
pub enum DragCancelReason {
    NoTarget,
    UserCancelled,
    Error,
}

/// What happens to a tab whose drag ended without a drop.
#[derive(Clone, Copy, Debug, PartialEq, Eq, Structural)]
pub enum FailedTabDragAction {
    /// The tab stays where it is.
    Cancel,
    /// The tab moves to a new window.
    Detach,
}

/// A tab whose drag ended outside every window of the program moves to a
/// new window, unless the drag already moved it or the user cancelled it.
pub fn tab_drag_end_action(
    internal_transfer_completed: bool,
    cancel_reason: Option<DragCancelReason>,
    pointer_inside_zter: bool,
) -> (action: FailedTabDragAction)
    ensures
        action == if internal_transfer_completed || pointer_inside_zter || cancel_reason == Some(
            DragCancelReason::UserCancelled,
        ) {
            FailedTabDragAction::Cancel
        } else {
            FailedTabDragAction::Detach
        },
{
    let user_cancelled = match cancel_reason {
        Some(DragCancelReason::UserCancelled) => true,
        _ => false,
    };
    if internal_transfer_completed || pointer_inside_zter || user_cancelled {
        FailedTabDragAction::Cancel
    } else {
        FailedTabDragAction::Detach
    }
}

} // verus!
