//! The decisions the user interface makes from the shared state: the tray's
//! title, what a frame does with the tray's signals, how figures and history
//! entries are classed for colouring, and how the processor cores are grouped.
use vstd::prelude::*;
use vstd::string::*;
use crate::state::AiState;
use crate::text::{contains_seq, contains_str};

verus! {

/// The tray's title while the assistant is working.
pub const TITLE_BUSY: &'static str = "PerfMax — optimizing…";

/// The tray's title otherwise.
pub const TITLE_IDLE: &'static str = "PerfMax";

/// How many characters of the active window's title the status bar shows.
pub const STATUS_WINDOW_CHARS: usize = 60;

/// How many processor cores a row of the dashboard's grid holds.
pub const CORES_PER_ROW: usize = 4;

/// The tray's title: it says so while the assistant is optimizing.
pub fn tray_title(thinking: bool) -> (t: String)
    ensures
        thinking ==> t@ == TITLE_BUSY@,
        !thinking ==> t@ == TITLE_IDLE@,
{
    if thinking {
        String::from_str(TITLE_BUSY)
    } else {
        String::from_str(TITLE_IDLE)
    }
}

/// How urgent a figure looks.
#[derive(PartialEq, Eq, Structural, Clone, Copy, Debug)]
pub enum Level {
    Normal,
    Warning,
    Critical,
}

/// The class of a temperature in °C: critical above 85, warning above 70.
pub fn temperature_level(t: u32) -> (l: Level)
    ensures
        t > 85 ==> l == Level::Critical,
        70 < t <= 85 ==> l == Level::Warning,
        t <= 70 ==> l == Level::Normal,
{
    if t > 85 {
        Level::Critical
    } else if t > 70 {
        Level::Warning
    } else {
        Level::Normal
    }
}

/// The class of a utilization percentage: critical above 80, warning above 50.
pub fn utilization_level(pct: u32) -> (l: Level)
    ensures
        pct > 80 ==> l == Level::Critical,
        50 < pct <= 80 ==> l == Level::Warning,
        pct <= 50 ==> l == Level::Normal,
{
    if pct > 80 {
        Level::Critical
    } else if pct > 50 {
        Level::Warning
    } else {
        Level::Normal
    }
}

/// How a history entry is coloured.
#[derive(PartialEq, Eq, Structural, Clone, Copy, Debug)]
pub enum EntryKind {
    Succeeded,
    Failed,
    DryRun,
    Other,
}

/// The class of a history entry by the tag it holds: `[OK]` first, then
/// `[ERR]` or `[FAIL]`, then `[DRY]`.
pub open spec fn entry_kind_of(e: Seq<char>) -> EntryKind {
    if contains_seq(e, "[OK]"@) {
        EntryKind::Succeeded
    } else if contains_seq(e, "[ERR]"@) || contains_seq(e, "[FAIL]"@) {
        EntryKind::Failed
    } else if contains_seq(e, "[DRY]"@) {
        EntryKind::DryRun
    } else {
        EntryKind::Other
    }
}

/// The class of a history entry.
pub fn history_entry_kind(entry: &str) -> (k: EntryKind)
    ensures
        k == entry_kind_of(entry@),
{
    if contains_str(entry, "[OK]") {
        EntryKind::Succeeded
    } else if contains_str(entry, "[ERR]") || contains_str(entry, "[FAIL]") {
        EntryKind::Failed
    } else if contains_str(entry, "[DRY]") {
        EntryKind::DryRun
    } else {
        EntryKind::Other
    }
}

/// What the assistant panel's status row shows.
#[derive(PartialEq, Eq, Structural, Clone, Copy, Debug)]
pub enum AiStatus {
    Thinking,
    Error,
    Updated,
    Waiting,
}

/// The assistant panel's status: busy first, then the last error, then the
/// time of the last update, else still waiting for the first cycle.
pub fn ai_status(ai: &AiState) -> (s: AiStatus)
    ensures
        ai.thinking ==> s == AiStatus::Thinking,
        !ai.thinking && ai.error is Some ==> s == AiStatus::Error,
        !ai.thinking && ai.error is None && ai.last_updated is Some ==> s == AiStatus::Updated,
        !ai.thinking && ai.error is None && ai.last_updated is None ==> s == AiStatus::Waiting,
{
    if ai.thinking {
        AiStatus::Thinking
    } else if ai.error.is_some() {
        AiStatus::Error
    } else if ai.last_updated.is_some() {
        AiStatus::Updated
    } else {
        AiStatus::Waiting
    }
}

/// Whether core `i` of `n` belongs to the first chiplet, the lower half of the cores.
pub fn in_first_ccd(i: usize, n: usize) -> (b: bool)
    ensures
        b == (i < n / 2),
{
    i < n / 2
}

/// Whether core `i` closes a row of the dashboard's grid.
pub fn ends_grid_row(i: usize) -> (b: bool)
    ensures
        b == ((i + 1) % (CORES_PER_ROW as int) == 0),
{
    i % CORES_PER_ROW == CORES_PER_ROW - 1
}

/// What a frame of the window does with the tray's signals.
pub struct FrameActions {
    /// Close the application.
    pub close: bool,
    /// Ask for an optimization cycle.
    pub trigger_optimization: bool,
    /// Cancel the window's close request and hide it instead.
    pub hide_instead_of_close: bool,
    /// Whether the window is visible after this frame.
    pub visible: bool,
    /// Whether the panels are drawn.
    pub draw: bool,
}

/// A frame's decisions: quitting wins over everything; otherwise a pending
/// optimize request is passed on, a close request hides the window to the
/// tray, and the panels are drawn only while the window is visible.
pub fn frame_actions(quit: bool, optimize_now: bool, close_requested: bool, visible: bool) -> (a: FrameActions)
    ensures
        quit ==> a.close && !a.trigger_optimization && !a.hide_instead_of_close && !a.draw
            && a.visible == visible,
        !quit ==> !a.close && a.trigger_optimization == optimize_now && a.hide_instead_of_close
            == close_requested && a.visible == (visible && !close_requested) && a.draw == a.visible,
{
    if quit {
        return FrameActions {
            close: true,
            trigger_optimization: false,
            hide_instead_of_close: false,
            visible,
            draw: false,
        };
    }
    let now_visible = visible && !close_requested;
    FrameActions {
        close: false,
        trigger_optimization: optimize_now,
        hide_instead_of_close: close_requested,
        visible: now_visible,
        draw: now_visible,
    }
}

} // verus!
