//! Decisions about the terminal widget: when a new size is applied, how
//! many cells fit, whether a program runs in the foreground, and where a new
//! tab starts.
use crate::config::{OsText, OsTextView};
use crate::settings::TerminalPadding;
use crate::text::copy_str;
use vstd::prelude::*;

verus! {

/// The divider above the terminal content, in pixels.
pub const TERMINAL_TOP_BORDER: i32 = 1;

/// What to do with a size that the terminal's viewport reports.
#[derive(Clone, Copy, Debug, PartialEq, Eq)]
pub enum TerminalResizeAction {
    /// Nothing: the size is not positive, or did not change.
    Ignore,
    /// Apply the first size at once.
    ApplyInitial((i32, i32)),
    /// Wait until the size settles.
    Defer,
}

/// Applies the terminal's first size at once and later sizes only once they
/// settle, so that dragging a window edge does not reflow the terminal on
/// every step.
#[derive(Clone, Copy, Debug, Default, PartialEq, Eq)]
pub struct DeferredTerminalResize {
    pub observed: Option<(i32, i32)>,
    pub applied: Option<(i32, i32)>,
}

impl DeferredTerminalResize {
    pub fn new() -> (resize: DeferredTerminalResize)
        ensures
            resize.observed is None,
            resize.applied is None,
    {
        DeferredTerminalResize { observed: None, applied: None }
    }

    /// Records a size that the viewport reports.
    pub fn observe(&mut self, size: (i32, i32)) -> (action: TerminalResizeAction)
        ensures
            if size.0 <= 0 || size.1 <= 0 || old(self).observed == Some(size) {
                action == TerminalResizeAction::Ignore && *final(self) == *old(self)
            } else if old(self).applied is None {
                action == TerminalResizeAction::ApplyInitial(size) && final(self).observed == Some(
                    size,
                ) && final(self).applied == Some(size)
            } else {
                action == TerminalResizeAction::Defer && final(self).observed == Some(size)
                    && final(self).applied == old(self).applied
            },
    {
        let unchanged = match self.observed {
            Some(o) => o.0 == size.0 && o.1 == size.1,
            None => false,
        };
        if size.0 <= 0 || size.1 <= 0 || unchanged {
            return TerminalResizeAction::Ignore;
        }
        self.observed = Some(size);
        if self.applied.is_none() {
            self.applied = Some(size);
            TerminalResizeAction::ApplyInitial(size)
        } else {
            TerminalResizeAction::Defer
        }
    }

    /// The latest size, once it has settled, when it differs from the size
    /// applied last.
    pub fn settle(&mut self) -> (size: Option<(i32, i32)>)
        ensures
            final(self).observed == old(self).observed,
            final(self).applied == old(self).observed,
            size == if old(self).observed == old(self).applied {
                None
            } else {
                old(self).observed
            },
    {
        let unchanged = match (self.observed, self.applied) {
            (Some(o), Some(a)) => o.0 == a.0 && o.1 == a.1,
            (None, None) => true,
            _ => false,
        };
        if unchanged {
            return None;
        }
        self.applied = self.observed;
        self.applied
    }
}

/// The number of columns and rows that fit the viewport `size`: the
/// viewport less the padding (and, vertically, the divider) divided by the
/// cell size; at least one of each.
pub open spec fn grid_size(size: (i32, i32), padding: (u16, u16, u16, u16), cell: (i64, i64)) -> (
    int,
    int,
) {
    let (top, right, bottom, left) = padding;
    let width = size.0 - (left + right);
    let height = size.1 - (top + bottom + 1);
    let content_width: int = if width < 1 {
        1
    } else {
        width
    };
    let content_height: int = if height < 1 {
        1
    } else {
        height
    };
    let cell_width: int = if cell.0 < 1 {
        1
    } else {
        cell.0 as int
    };
    let cell_height: int = if cell.1 < 1 {
        1
    } else {
        cell.1 as int
    };
    let columns = content_width / cell_width;
    let rows = content_height / cell_height;
    (if columns < 1 {
        1
    } else {
        columns
    }, if rows < 1 {
        1
    } else {
        rows
    })
}

/// The number of columns and rows that fit the viewport (see `grid_size`).
/// The viewport less the padding must not fall below `i32::MIN`.
pub fn terminal_grid_size(size: (i32, i32), padding: TerminalPadding, cell: (i64, i64)) -> (grid: (
    i64,
    i64,
))
    requires
        size.0 - (padding.spec_left() + padding.spec_right()) >= i32::MIN,
        size.1 - (padding.spec_top() + padding.spec_bottom() + 1) >= i32::MIN,
    ensures
        (grid.0 as int, grid.1 as int) == grid_size(
            size,
            (padding.spec_top(), padding.spec_right(), padding.spec_bottom(), padding.spec_left()),
            cell,
        ),
{
    let horizontal_padding: i32 = padding.left() as i32 + padding.right() as i32;
    let vertical_padding: i32 = padding.top() as i32 + padding.bottom() as i32 + TERMINAL_TOP_BORDER;
    let width: i32 = size.0 - horizontal_padding;
    let height: i32 = size.1 - vertical_padding;
    let content_width: i64 = if width < 1 {
        1
    } else {
        width as i64
    };
    let content_height: i64 = if height < 1 {
        1
    } else {
        height as i64
    };
    let cell_width: i64 = if cell.0 < 1 {
        1
    } else {
        cell.0
    };
    let cell_height: i64 = if cell.1 < 1 {
        1
    } else {
        cell.1
    };
    let columns: i64 = content_width / cell_width;
    let rows: i64 = content_height / cell_height;
    (if columns < 1 {
        1
    } else {
        columns
    }, if rows < 1 {
        1
    } else {
        rows
    })
}

/// A program other than the shell runs in the foreground: both process
/// groups are known and they differ.
pub fn process_groups_have_running_foreground_process(
    shell_process_group: i32,
    foreground_process_group: i32,
) -> (result: bool)
    ensures
        result == (shell_process_group > 0 && foreground_process_group > 0 && shell_process_group
            != foreground_process_group),
{
    shell_process_group > 0 && foreground_process_group > 0 && shell_process_group
        != foreground_process_group
}

/// The directory where a new tab starts: the current tab's directory when it
/// is a directory with a Unicode path, else `fallback`. `is_dir` tells
/// whether `directory` names a directory.
pub fn working_directory_or_fallback(directory: Option<OsText>, is_dir: bool, fallback: &str) -> (chosen:
    String)
    ensures
        chosen@ == match directory {
            Some(d) => match d.spec_view() {
                OsTextView::Unicode(s) => if is_dir {
                    s
                } else {
                    fallback@
                },
                OsTextView::NonUnicode(_) => fallback@,
            },
            None => fallback@,
        },
{
    match directory {
        Some(OsText::Unicode(s)) => if is_dir {
            s
        } else {
            copy_str(fallback)
        },
        _ => copy_str(fallback),
    }
}


/// What a request to close a window or a tab leads to.
#[derive(Clone, Copy, Debug, PartialEq, Eq, Structural)]
pub enum CloseDecision {
    /// Close now.
    Close,
    /// Keep it open and do nothing more: a confirmation is already shown.
    Keep,
    /// Keep it open and ask the user to confirm.
    Confirm,
}

/// A window closes at once after a confirmation, when its tabs are gone, or
/// when no tab runs a foreground program; otherwise the user is asked,
/// unless a confirmation is already shown.
pub open spec fn window_close_spec(
    confirmed: bool,
    tabs_present: bool,
    has_foreground_process: bool,
    prompt_open: bool,
) -> CloseDecision {
    if confirmed || !tabs_present || !has_foreground_process {
        CloseDecision::Close
    } else if prompt_open {
        CloseDecision::Keep
    } else {
        CloseDecision::Confirm
    }
}

/// A tab closes at once when it runs no foreground program; otherwise the
/// user is asked, unless a confirmation is already shown.
pub open spec fn tab_close_spec(has_foreground_process: bool, prompt_open: bool) -> CloseDecision {
    if !has_foreground_process {
        CloseDecision::Close
    } else if prompt_open {
        CloseDecision::Keep
    } else {
        CloseDecision::Confirm
    }
}

/// What a request to close a window leads to (see `window_close_spec`).
pub fn window_close_decision(
    confirmed: bool,
    tabs_present: bool,
    has_foreground_process: bool,
    prompt_open: bool,
) -> (decision: CloseDecision)
    ensures
        decision == window_close_spec(confirmed, tabs_present, has_foreground_process, prompt_open),
{
    if confirmed || !tabs_present || !has_foreground_process {
        CloseDecision::Close
    } else if prompt_open {
        CloseDecision::Keep
    } else {
        CloseDecision::Confirm
    }
}

/// What a request to close a tab leads to (see `tab_close_spec`).
pub fn tab_close_decision(has_foreground_process: bool, prompt_open: bool) -> (decision:
    CloseDecision)
    ensures
        decision == tab_close_spec(has_foreground_process, prompt_open),
{
    if !has_foreground_process {
        CloseDecision::Close
    } else if prompt_open {
        CloseDecision::Keep
    } else {
        CloseDecision::Confirm
    }
}

/// A window or tab that runs a foreground program is never closed without
/// the user's confirmation, and no second confirmation opens while one is
/// shown.
pub proof fn law_running_programs_are_not_closed_unasked(
    confirmed: bool,
    tabs_present: bool,
    has_foreground_process: bool,
    prompt_open: bool,
)
    ensures
        tabs_present && has_foreground_process && !confirmed ==> window_close_spec(
            confirmed,
            tabs_present,
            has_foreground_process,
            prompt_open,
        ) != CloseDecision::Close,
        prompt_open ==> window_close_spec(confirmed, tabs_present, has_foreground_process, true)
            != CloseDecision::Confirm,
        has_foreground_process ==> tab_close_spec(has_foreground_process, prompt_open)
            != CloseDecision::Close,
        tab_close_spec(has_foreground_process, true) != CloseDecision::Confirm,
{
}


/// Numbers the reloads of a background so that only the result of the
/// latest one is used.
#[derive(Clone, Copy, Debug, Default, PartialEq, Eq)]
pub struct ReloadGeneration {
    pub current: u64,
}

impl ReloadGeneration {
    /// Starts a reload and gives its number, the next one after the current
    /// number (wrapping).
    pub fn begin(&mut self) -> (generation: u64)
        ensures
            generation == (if old(self).current == u64::MAX {
                0
            } else {
                old(self).current + 1
            }),
            final(self).current == generation,
    {
        self.current = self.current.wrapping_add(1);
        self.current
    }

    /// Whether `generation` is the latest reload.
    pub fn is_current(&self, generation: u64) -> (current: bool)
        ensures
            current == (generation == self.current),
    {
        self.current == generation
    }
}

} // verus!
