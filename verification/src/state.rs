//! The state shared by the background tasks and the user interface: the
//! assistant's last answer, the queue of commands waiting to run, the history
//! of what ran, the model download's progress and the local server's health.
use std::collections::VecDeque;
use std::time::Instant;
use vstd::prelude::*;
use crate::commands::{commands_of, has_allowed_prefix, law_commands_are_allowed_and_clean, parse_commands, views};
use crate::model_manager::MODEL_FILE;
use vstd::string::*;

verus! {

/// A point in time, as the clock handed it out; it is only carried, never read.
#[verifier::external_type_specification]
#[verifier::external_body]
pub struct ExInstant(Instant);

/// Most entries that the command history keeps.
pub const HISTORY_CAPACITY: usize = 200;

/// What the assistant last said and whether it is busy.
pub struct AiState {
    pub last_recommendation: String,
    pub last_commands: Vec<String>,
    pub thinking: bool,
    pub last_updated: Option<Instant>,
    pub error: Option<String>,
}

impl Default for AiState {
    fn default() -> (s: Self)
        ensures
            s.last_recommendation@ == Seq::<char>::empty(),
            s.last_commands@ == Seq::<String>::empty(),
            !s.thinking,
            s.last_updated is None,
            s.error is None,
    {
        AiState {
            last_recommendation: String::new(),
            last_commands: Vec::new(),
            thinking: false,
            last_updated: None,
            error: None,
        }
    }
}

/// Progress of the model file's download.
pub struct DownloadState {
    pub file: String,
    pub bytes_done: u64,
    pub bytes_total: u64,
    pub done: bool,
    pub error: Option<String>,
}

/// The state that the tasks share.
pub struct AppState {
    pub active_window: String,
    pub ai: AiState,
    pub pending_commands: Vec<String>,
    pub command_history: VecDeque<String>,
    pub optimize_trigger: bool,
    pub model_download: Option<DownloadState>,
    pub local_server_online: bool,
}

/// The history once `entry` is recorded: newest first, the oldest entry
/// dropped when the history would grow past its capacity.
pub open spec fn history_after(h: Seq<String>, entry: String) -> Seq<String> {
    let n = seq![entry] + h;
    if n.len() > HISTORY_CAPACITY {
        n.drop_last()
    } else {
        n
    }
}

/// Law: the command history is newest first and bounded. Recording an entry
/// into a history within capacity puts the entry first, keeps the older
/// entries after it in their order (the oldest one dropped when full), and
/// stays within capacity.
pub proof fn law_history_newest_first_bounded(h: Seq<String>, entry: String)
    requires
        h.len() <= HISTORY_CAPACITY,
    ensures
        history_after(h, entry).len() <= HISTORY_CAPACITY,
        history_after(h, entry).len() == (if h.len() < HISTORY_CAPACITY { h.len() + 1 } else { h.len() + 0 }),
        history_after(h, entry)[0] == entry,
        forall|k: int| 0 <= k < history_after(h, entry).len() - 1 ==> #[trigger] history_after(h, entry)[k + 1] == h[k],
{
}

/// The history after recording `entries`, in order, into an empty history:
/// what `AppState::default` followed by one `push_history` per entry holds.
pub open spec fn history_of(entries: Seq<String>) -> Seq<String>
    decreases entries.len(),
{
    if entries.len() == 0 {
        Seq::<String>::empty()
    } else {
        history_after(history_of(entries.drop_last()), entries.last())
    }
}

/// Law: after any number of recordings into an empty history, it holds the
/// most recent entries, as many as its capacity allows, newest first.
pub proof fn law_history_keeps_newest(entries: Seq<String>)
    ensures
        history_of(entries).len() == (if entries.len() < HISTORY_CAPACITY { entries.len() } else { HISTORY_CAPACITY as nat }),
        forall|j: int|
            0 <= j < history_of(entries).len() ==> #[trigger] history_of(entries)[j] == entries[entries.len() - 1 - j],
    decreases entries.len(),
{
    if entries.len() > 0 {
        let init = entries.drop_last();
        law_history_keeps_newest(init);
        let h = history_of(init);
        law_history_newest_first_bounded(h, entries.last());
        assert forall|j: int|
            0 <= j < history_of(entries).len() implies #[trigger] history_of(entries)[j] == entries[entries.len() - 1 - j] by {
            if j > 0 {
                assert(history_of(entries)[(j - 1) + 1] == h[j - 1]);
                assert(init[init.len() - 1 - (j - 1)] == entries[entries.len() - 1 - j]);
            }
        }
    }
}

/// Copies of the strings in `v`, in order.
fn copy_strings(v: &Vec<String>) -> (r: Vec<String>)
    ensures
        r@ == v@,
{
    let mut r: Vec<String> = Vec::new();
    for i in 0..v.len()
        invariant
            r@ == v@.subrange(0, i as int),
    {
        r.push(v[i].clone());
        assert(r@ =~= v@.subrange(0, i + 1));
    }
    assert(r@ =~= v@);
    r
}

impl Default for AppState {
    fn default() -> (s: Self)
        ensures
            s.active_window@ == Seq::<char>::empty(),
            s.ai.last_recommendation@ == Seq::<char>::empty(),
            s.ai.last_commands@ == Seq::<String>::empty(),
            !s.ai.thinking,
            s.ai.last_updated is None,
            s.ai.error is None,
            s.pending_commands@ == Seq::<String>::empty(),
            s.command_history@ == Seq::<String>::empty(),
            !s.optimize_trigger,
            s.model_download is None,
            !s.local_server_online,
            s.wf(),
    {
        AppState {
            active_window: String::new(),
            ai: AiState::default(),
            pending_commands: Vec::new(),
            command_history: VecDeque::new(),
            optimize_trigger: false,
            model_download: None,
            local_server_online: false,
        }
    }
}

impl AppState {
    /// The history holds at most its capacity.
    pub open spec fn history_bounded(&self) -> bool {
        self.command_history@.len() <= HISTORY_CAPACITY
    }

    /// Every queued command begins with an allowed command name.
    pub open spec fn pending_allowed(&self) -> bool {
        forall|k: int|
            0 <= k < self.pending_commands@.len() ==> has_allowed_prefix(
                #[trigger] self.pending_commands@[k]@,
            )
    }

    /// The state's invariant: a bounded history and a queue of allowed commands only.
    pub open spec fn wf(&self) -> bool {
        self.history_bounded() && self.pending_allowed()
    }

    /// Records `entry` as the newest line of the command history.
    pub fn push_history(&mut self, entry: String)
        ensures
            final(self).command_history@ == history_after(old(self).command_history@, entry),
            final(self).pending_commands == old(self).pending_commands,
            final(self).ai == old(self).ai,
            final(self).optimize_trigger == old(self).optimize_trigger,
            final(self).model_download == old(self).model_download,
            final(self).active_window == old(self).active_window,
            final(self).local_server_online == old(self).local_server_online,
            old(self).wf() ==> final(self).wf(),
    {
        self.command_history.push_front(entry);
        if self.command_history.len() > HISTORY_CAPACITY {
            self.command_history.pop_back();
        }
        assert(self.command_history@ =~= history_after(old(self).command_history@, entry));
    }

    /// Hands out the queued commands and leaves the queue empty.
    pub fn take_pending_commands(&mut self) -> (cmds: Vec<String>)
        ensures
            cmds@ == old(self).pending_commands@,
            final(self).pending_commands@ == Seq::<String>::empty(),
            final(self).command_history == old(self).command_history,
            final(self).ai == old(self).ai,
            final(self).optimize_trigger == old(self).optimize_trigger,
            final(self).model_download == old(self).model_download,
            final(self).active_window == old(self).active_window,
            final(self).local_server_online == old(self).local_server_online,
            old(self).wf() ==> final(self).wf(),
            old(self).pending_allowed() ==> forall|k: int|
                0 <= k < cmds@.len() ==> has_allowed_prefix(#[trigger] cmds@[k]@),
    {
        let mut cmds: Vec<String> = Vec::new();
        std::mem::swap(&mut cmds, &mut self.pending_commands);
        cmds
    }

    /// Whether an optimization was asked for since the last look; the request
    /// is cleared once seen.
    pub fn take_optimize_trigger(&mut self) -> (triggered: bool)
        ensures
            triggered == old(self).optimize_trigger,
            !final(self).optimize_trigger,
            final(self).command_history == old(self).command_history,
            final(self).pending_commands == old(self).pending_commands,
            final(self).ai == old(self).ai,
            final(self).model_download == old(self).model_download,
            final(self).active_window == old(self).active_window,
            final(self).local_server_online == old(self).local_server_online,
            old(self).wf() ==> final(self).wf(),
    {
        if self.optimize_trigger {
            self.optimize_trigger = false;
            true
        } else {
            false
        }
    }

    /// Asks for an optimization cycle as soon as the assistant's task looks.
    pub fn request_optimization(&mut self)
        ensures
            final(self).optimize_trigger,
            final(self).command_history == old(self).command_history,
            final(self).pending_commands == old(self).pending_commands,
            final(self).ai == old(self).ai,
            final(self).model_download == old(self).model_download,
            final(self).active_window == old(self).active_window,
            final(self).local_server_online == old(self).local_server_online,
            old(self).wf() ==> final(self).wf(),
    {
        self.optimize_trigger = true;
    }

    /// Marks the assistant as busy with a query and clears its last error.
    pub fn begin_ai_query(&mut self)
        ensures
            final(self).ai.thinking,
            final(self).ai.error is None,
            final(self).ai.last_recommendation == old(self).ai.last_recommendation,
            final(self).ai.last_commands == old(self).ai.last_commands,
            final(self).ai.last_updated == old(self).ai.last_updated,
            final(self).command_history == old(self).command_history,
            final(self).pending_commands == old(self).pending_commands,
            final(self).optimize_trigger == old(self).optimize_trigger,
            final(self).model_download == old(self).model_download,
            final(self).active_window == old(self).active_window,
            final(self).local_server_online == old(self).local_server_online,
            old(self).wf() ==> final(self).wf(),
    {
        self.ai.thinking = true;
        self.ai.error = None;
    }

    /// Records the assistant's reply received at `now`: the reply is kept as
    /// the last recommendation, the commands parsed from it as the last
    /// commands, and, when the optimizer is enabled, they join the queue.
    pub fn record_ai_reply(&mut self, response: String, now: Instant, optimizer_enabled: bool)
        ensures
            !final(self).ai.thinking,
            final(self).ai.last_recommendation == response,
            views(final(self).ai.last_commands@) == commands_of(response@),
            final(self).ai.last_updated == Some(now),
            final(self).ai.error == old(self).ai.error,
            optimizer_enabled ==> final(self).pending_commands@ == old(self).pending_commands@
                + final(self).ai.last_commands@,
            !optimizer_enabled ==> final(self).pending_commands == old(self).pending_commands,
            final(self).command_history == old(self).command_history,
            final(self).optimize_trigger == old(self).optimize_trigger,
            final(self).model_download == old(self).model_download,
            final(self).active_window == old(self).active_window,
            final(self).local_server_online == old(self).local_server_online,
            old(self).wf() ==> final(self).wf(),
    {
        let commands = parse_commands(response.as_str());
        proof {
            law_commands_are_allowed_and_clean(response@);
        }
        self.ai.thinking = false;
        self.ai.last_recommendation = response;
        self.ai.last_updated = Some(now);
        if optimizer_enabled {
            let mut queued = copy_strings(&commands);
            self.pending_commands.append(&mut queued);
            proof {
                assert forall|k: int|
                    0 <= k < commands@.len() implies has_allowed_prefix(
                    #[trigger] commands@[k]@,
                ) by {
                    assert(views(commands@)[k] == commands@[k]@);
                }
                if old(self).wf() {
                    assert forall|k: int|
                        0 <= k < self.pending_commands@.len() implies has_allowed_prefix(
                        #[trigger] self.pending_commands@[k]@,
                    ) by {
                        if k >= old(self).pending_commands@.len() {
                            assert(self.pending_commands@[k] == commands@[k
                                - old(self).pending_commands@.len()]);
                        }
                    }
                }
            }
        }
        self.ai.last_commands = commands;
    }

    /// Starts tracking a download of the model file: nothing received yet,
    /// size unknown, not done, no error.
    pub fn start_download(&mut self)
        ensures
            final(self).model_download matches Some(d) && d.file@ == MODEL_FILE@ && d.bytes_done
                == 0 && d.bytes_total == 0 && !d.done && d.error is None,
            final(self).command_history == old(self).command_history,
            final(self).pending_commands == old(self).pending_commands,
            final(self).ai == old(self).ai,
            final(self).optimize_trigger == old(self).optimize_trigger,
            final(self).active_window == old(self).active_window,
            final(self).local_server_online == old(self).local_server_online,
            old(self).wf() ==> final(self).wf(),
    {
        self.model_download = Some(
            DownloadState {
                file: String::from_str(MODEL_FILE),
                bytes_done: 0,
                bytes_total: 0,
                done: false,
                error: None,
            },
        );
    }

    /// Records the download's announced size, when a download is tracked.
    pub fn set_download_total(&mut self, total: u64)
        ensures
            final(self).model_download == (match old(self).model_download {
                Some(d) => Some(DownloadState { bytes_total: total, ..d }),
                None => None,
            }),
            final(self).command_history == old(self).command_history,
            final(self).pending_commands == old(self).pending_commands,
            final(self).ai == old(self).ai,
            final(self).optimize_trigger == old(self).optimize_trigger,
            final(self).active_window == old(self).active_window,
            final(self).local_server_online == old(self).local_server_online,
            old(self).wf() ==> final(self).wf(),
    {
        if let Some(dl) = &mut self.model_download {
            dl.bytes_total = total;
        }
    }

    /// Adds a received chunk of `chunk_len` bytes to the `done` bytes already
    /// received, records the new count when a download is tracked, and
    /// returns it.
    pub fn record_download_chunk(&mut self, done: u64, chunk_len: u64) -> (now_done: u64)
        requires
            done + chunk_len <= u64::MAX,
        ensures
            now_done == done + chunk_len,
            final(self).model_download == (match old(self).model_download {
                Some(d) => Some(DownloadState { bytes_done: now_done, ..d }),
                None => None,
            }),
            final(self).command_history == old(self).command_history,
            final(self).pending_commands == old(self).pending_commands,
            final(self).ai == old(self).ai,
            final(self).optimize_trigger == old(self).optimize_trigger,
            final(self).active_window == old(self).active_window,
            final(self).local_server_online == old(self).local_server_online,
            old(self).wf() ==> final(self).wf(),
    {
        let now_done = done + chunk_len;
        if let Some(dl) = &mut self.model_download {
            dl.bytes_done = now_done;
        }
        now_done
    }

    /// Marks the tracked download, if any, as complete.
    pub fn finish_download(&mut self)
        ensures
            final(self).model_download == (match old(self).model_download {
                Some(d) => Some(DownloadState { done: true, ..d }),
                None => None,
            }),
            final(self).command_history == old(self).command_history,
            final(self).pending_commands == old(self).pending_commands,
            final(self).ai == old(self).ai,
            final(self).optimize_trigger == old(self).optimize_trigger,
            final(self).active_window == old(self).active_window,
            final(self).local_server_online == old(self).local_server_online,
            old(self).wf() ==> final(self).wf(),
    {
        if let Some(dl) = &mut self.model_download {
            dl.done = true;
        }
    }

    /// Records that the assistant's query failed with `message`.
    pub fn record_ai_error(&mut self, message: String)
        ensures
            !final(self).ai.thinking,
            final(self).ai.error == Some(message),
            final(self).ai.last_recommendation == old(self).ai.last_recommendation,
            final(self).ai.last_commands == old(self).ai.last_commands,
            final(self).ai.last_updated == old(self).ai.last_updated,
            final(self).command_history == old(self).command_history,
            final(self).pending_commands == old(self).pending_commands,
            final(self).optimize_trigger == old(self).optimize_trigger,
            final(self).model_download == old(self).model_download,
            final(self).active_window == old(self).active_window,
            final(self).local_server_online == old(self).local_server_online,
            old(self).wf() ==> final(self).wf(),
    {
        self.ai.thinking = false;
        self.ai.error = Some(message);
    }
}

} // verus!
