//! What the optimizer does with one queued command: log it in dry-run mode,
//! skip it when blank, or run it under `sudo` (through `sh -c` when it
//! redirects output), and how each outcome is written to the history.
use vstd::prelude::*;
use vstd::string::*;
use crate::text::{chars_of, copy_range, is_whitespace, is_ws, string_from_chars, string_views, trim, trim_range};

verus! {

/// The program every command runs under.
pub const RUNNER: &'static str = "sudo";

/// The history prefix of a command that was only logged.
pub const DRY_TAG: &'static str = "[DRY] ";

/// The history prefix of a command that ran and succeeded.
pub const OK_TAG: &'static str = "[OK] ";

/// The history prefix of a command that ran and failed.
pub const FAIL_TAG: &'static str = "[FAIL] ";

/// The history prefix of a command that could not be started.
pub const ERR_TAG: &'static str = "[ERR] ";

/// Separates a command from the reason it failed.
pub const REASON_SEP: &'static str = " — ";

/// What to do with a queued command.
pub enum ExecutionPlan {
    /// Do not run it; record this history entry instead.
    Record(String),
    /// The command is blank: do nothing, record nothing.
    Nothing,
    /// Run the runner program with these arguments.
    Run(Vec<String>),
}

/// How running a command ended.
pub enum RunOutcome {
    /// It ran and exited successfully.
    Succeeded,
    /// It ran and failed; this is what it wrote to its error output.
    Failed(String),
    /// It could not be started; this is the reason.
    NotStarted(String),
}

/// The whitespace-separated words of `s`, as `str::split_whitespace` yields them.
pub open spec fn words(s: Seq<char>) -> Seq<Seq<char>>
    decreases s.len(),
{
    if s.len() == 0 {
        Seq::<Seq<char>>::empty()
    } else {
        let w = words(s.drop_last());
        let c = s.last();
        if is_ws(c) {
            w
        } else if s.len() >= 2 && !is_ws(s[s.len() - 2]) {
            w.update(w.len() - 1, w.last().push(c))
        } else {
            w.push(seq![c])
        }
    }
}

/// `s` holds the character `c`.
pub open spec fn has_char(s: Seq<char>, c: char) -> bool {
    exists|i: int| 0 <= i < s.len() && s[i] == c
}

/// The arguments given to the runner for `cmd`: through `sh -c` when the
/// command redirects output, its words otherwise.
pub open spec fn run_args(cmd: Seq<char>) -> Seq<Seq<char>> {
    if has_char(cmd, '>') {
        seq!["sh"@, "-c"@, cmd]
    } else {
        words(cmd)
    }
}

/// The words of `s`, in order.
pub fn split_words(s: &str) -> (ws: Vec<String>)
    ensures
        string_views(ws@) == words(s@),
{
    let t = chars_of(s);
    let mut ws: Vec<String> = Vec::new();
    let mut in_word = false;
    let mut start: usize = 0;
    for i in 0..t.len()
        invariant
            t@ == s@,
            in_word ==> start < i,
            in_word <==> (i > 0 && !is_ws(t@[i - 1])),
            in_word ==> words(t@.take(i as int)) == string_views(ws@).push(
                t@.subrange(start as int, i as int),
            ),
            !in_word ==> words(t@.take(i as int)) == string_views(ws@),
            in_word ==> forall|k: int| start <= k < i ==> !is_ws(#[trigger] t@[k]),
            in_word ==> (start == 0 || is_ws(t@[start - 1])),
    {
        let ghost pre = t@.take(i + 1);
        assert(pre.drop_last() =~= t@.take(i as int));
        assert(pre.last() == t@[i as int]);
        if is_whitespace(t[i]) {
            if in_word {
                let w = string_from_chars(&copy_range(&t, start, i));
                let ghost before = ws@;
                ws.push(w);
                assert(string_views(ws@) =~= string_views(before).push(
                    t@.subrange(start as int, i as int),
                ));
            }
            in_word = false;
        } else {
            if in_word {
                assert(t@.subrange(start as int, i as int).push(t@[i as int]) =~= t@.subrange(
                    start as int,
                    i + 1,
                ));
                assert(pre[pre.len() - 2] == t@[i - 1]);
            } else {
                start = i;
                if i > 0 {
                    assert(pre[pre.len() - 2] == t@[i - 1]);
                }
                assert(t@.subrange(i as int, i + 1) =~= seq![t@[i as int]]);
            }
            in_word = true;
        }
    }
    assert(t@.take(t.len() as int) =~= t@);
    if in_word {
        let w = string_from_chars(&copy_range(&t, start, t.len()));
        let ghost before = ws@;
        ws.push(w);
        assert(string_views(ws@) =~= string_views(before).push(
            t@.subrange(start as int, t.len() as int),
        ));
    }
    ws
}

/// Whether `s` holds the character `c`.
pub fn contains_char(s: &str, c: char) -> (b: bool)
    ensures
        b == has_char(s@, c),
{
    let t = chars_of(s);
    for i in 0..t.len()
        invariant
            t@ == s@,
            forall|j: int| 0 <= j < i ==> t@[j] != c,
    {
        if t[i] == c {
            return true;
        }
    }
    false
}

/// The plan for a queued command `cmd`: in dry-run mode it is only recorded
/// as `[DRY] cmd`; a command without words is skipped; any other runs under
/// the runner, through `sh -c` when it holds a `>` and as its words otherwise.
pub fn plan_execution(cmd: &str, dry_run: bool) -> (plan: ExecutionPlan)
    ensures
        dry_run ==> (plan matches ExecutionPlan::Record(e) && e@ == DRY_TAG@ + cmd@),
        !dry_run && words(cmd@).len() == 0 ==> plan is Nothing,
        !dry_run && words(cmd@).len() > 0 ==> (plan matches ExecutionPlan::Run(args)
            && string_views(args@) == run_args(cmd@)),
{
    if dry_run {
        let mut e = String::from_str(DRY_TAG);
        e.append(cmd);
        return ExecutionPlan::Record(e);
    }
    let parts = split_words(cmd);
    if parts.len() == 0 {
        return ExecutionPlan::Nothing;
    }
    if contains_char(cmd, '>') {
        let mut args: Vec<String> = Vec::new();
        args.push(String::from_str("sh"));
        args.push(String::from_str("-c"));
        args.push(String::from_str(cmd));
        assert(string_views(args@) =~= seq!["sh"@, "-c"@, cmd@]);
        ExecutionPlan::Run(args)
    } else {
        ExecutionPlan::Run(parts)
    }
}

/// The history entry for a command that ran, or failed to start.
pub open spec fn outcome_text(cmd: Seq<char>, outcome: RunOutcome) -> Seq<char> {
    match outcome {
        RunOutcome::Succeeded => OK_TAG@ + cmd,
        RunOutcome::Failed(stderr) => FAIL_TAG@ + cmd + REASON_SEP@ + trim(stderr@),
        RunOutcome::NotStarted(reason) => ERR_TAG@ + cmd + REASON_SEP@ + reason@,
    }
}

/// The history entry for `cmd` once it ran: `[OK] cmd` on success,
/// `[FAIL] cmd — reason` with the trimmed error output on failure,
/// `[ERR] cmd — reason` when it could not be started.
pub fn outcome_entry(cmd: &str, outcome: RunOutcome) -> (e: String)
    ensures
        e@ == outcome_text(cmd@, outcome),
{
    match outcome {
        RunOutcome::Succeeded => {
            let mut e = String::from_str(OK_TAG);
            e.append(cmd);
            e
        },
        RunOutcome::Failed(stderr) => {
            let mut e = String::from_str(FAIL_TAG);
            e.append(cmd);
            e.append(REASON_SEP);
            let t = chars_of(stderr.as_str());
            let (a, b) = trim_range(&t, 0, t.len());
            assert(t@.subrange(0, t.len() as int) =~= stderr@);
            let r = string_from_chars(&copy_range(&t, a, b));
            e.append(r.as_str());
            e
        },
        RunOutcome::NotStarted(reason) => {
            let mut e = String::from_str(ERR_TAG);
            e.append(cmd);
            e.append(REASON_SEP);
            e.append(reason.as_str());
            e
        },
    }
}

} // verus!
