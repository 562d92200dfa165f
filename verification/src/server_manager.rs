//! Supervision of the local `llama-server`: where its binary is looked for,
//! how it is started, and when it is restarted. Spawning and watching the
//! process is done by the application around this library.
use vstd::prelude::*;
use vstd::string::*;
use crate::paths::path_exists;
use crate::paths::opt_view;
use crate::text::{decimal, decimal_string, string_views};

verus! {

/// The port the local server listens on.
pub const SERVER_PORT: u16 = 8081;

/// Number of places the server binary is looked for.
pub const SERVER_CANDIDATE_COUNT: usize = 5;

/// The message when no server binary is found.
pub const SERVER_NOT_FOUND: &'static str = "llama-server not found — install with: sudo pacman -S llama.cpp";

/// The start of the message when the model file is missing.
pub const MODEL_NOT_FOUND: &'static str = "Model not found at ";

/// The error that `which` reports when a binary is not found.
#[verifier::external_type_specification]
#[verifier::external_body]
pub struct ExWhichError(which::Error);

/// Looks `name` up with the `which` crate's `which`: on the search path, or
/// as given when it is a path. Whether and where it is found depends on the
/// environment and the disk, and the path it returns may differ from `name`
/// in its directory, its letter case and its extension, so nothing is stated
/// of it. A path that is not valid UTF-8 is converted lossily.
#[verifier::external_body]
fn which_binary(name: &str) -> (r: Result<String, which::Error>) {
    match which::which(name) {
        Ok(p) => Ok(p.to_string_lossy().into_owned()),
        Err(e) => Err(e),
    }
}

/// The places the server binary is looked for, in order.
pub open spec fn server_candidates() -> Seq<Seq<char>> {
    seq![
        "llama-server"@,
        "llama.cpp/llama-server"@,
        "/usr/bin/llama-server"@,
        "/usr/local/bin/llama-server"@,
        "/opt/llama.cpp/llama-server"@,
    ]
}

/// The `i`-th place the server binary is looked for.
pub fn server_candidate(i: usize) -> (c: &'static str)
    requires
        i < SERVER_CANDIDATE_COUNT,
    ensures
        c@ == server_candidates()[i as int],
{
    match i {
        0 => "llama-server",
        1 => "llama.cpp/llama-server",
        2 => "/usr/bin/llama-server",
        3 => "/usr/local/bin/llama-server",
        _ => "/opt/llama.cpp/llama-server",
    }
}

/// What looking one candidate up gave: the path the search found for it, if
/// any, and whether something exists at the candidate itself.
pub type Lookup = (Option<String>, bool);

/// The view of a lookup.
pub open spec fn lookup_view(l: Lookup) -> (Option<Seq<char>>, bool) {
    (opt_view(l.0), l.1)
}

/// The views of a list of lookups.
pub open spec fn lookup_views(ls: Seq<Lookup>) -> Seq<(Option<Seq<char>>, bool)> {
    ls.map_values(|l: Lookup| lookup_view(l))
}

/// The server binary chosen from the lookups of `cands`, taken in order: the
/// first candidate that the search finds or that exists decides; the search's
/// path is preferred to the bare candidate; nothing when no candidate is found.
pub open spec fn first_hit(cands: Seq<Seq<char>>, outs: Seq<(Option<Seq<char>>, bool)>) -> Option<Seq<char>>
    decreases cands.len(),
{
    if cands.len() == 0 || outs.len() == 0 {
        None
    } else {
        match outs[0].0 {
            Some(p) => Some(p),
            None => if outs[0].1 {
                Some(cands[0])
            } else {
                first_hit(cands.drop_first(), outs.drop_first())
            },
        }
    }
}

/// What one candidate yields: the path the search found for it, else the
/// candidate itself when something exists there, else nothing.
pub fn resolve_candidate(candidate: &str, found: Option<String>, exists: bool) -> (r: Option<String>)
    ensures
        found is Some ==> r == found,
        found is None && exists ==> (r matches Some(p) && p@ == candidate@),
        found is None && !exists ==> r is None,
{
    match found {
        Some(p) => Some(p),
        None => {
            if exists {
                Some(String::from_str(candidate))
            } else {
                None
            }
        },
    }
}

/// The server binary chosen from the lookups of the five candidates, in
/// order: the first candidate the search finds, or that exists, decides.
pub fn first_found(outcomes: &Vec<Lookup>) -> (r: Option<String>)
    requires
        outcomes.len() == SERVER_CANDIDATE_COUNT,
    ensures
        opt_view(r) == first_hit(server_candidates(), lookup_views(outcomes@)),
{
    let mut i: usize = 0;
    assert(server_candidates().skip(0) =~= server_candidates());
    assert(lookup_views(outcomes@).skip(0) =~= lookup_views(outcomes@));
    while i < SERVER_CANDIDATE_COUNT
        invariant
            i <= SERVER_CANDIDATE_COUNT,
            outcomes.len() == SERVER_CANDIDATE_COUNT,
            first_hit(server_candidates(), lookup_views(outcomes@)) == first_hit(
                server_candidates().skip(i as int),
                lookup_views(outcomes@).skip(i as int),
            ),
        decreases SERVER_CANDIDATE_COUNT - i,
    {
        let ghost cs = server_candidates().skip(i as int);
        let ghost os = lookup_views(outcomes@).skip(i as int);
        assert(os[0] == lookup_view(outcomes@[i as int]));
        let c = server_candidate(i);
        assert(cs[0] == c@);
        let hit = resolve_candidate(c, outcomes[i].0.clone(), outcomes[i].1);
        if hit.is_some() {
            return hit;
        }
        assert(cs.drop_first() =~= server_candidates().skip(i + 1));
        assert(os.drop_first() =~= lookup_views(outcomes@).skip(i + 1));
        i = i + 1;
    }
    None
}

/// Finds the server binary: the candidates are looked up in order, each first
/// on the search path and then, when the search finds nothing, as a path that
/// may exist; the first candidate found decides and the later ones are not
/// looked up. The result is what `first_found` chooses from these lookups,
/// whose outcomes depend on the machine.
pub fn find_llama_server() -> (r: Option<String>)
    ensures
        exists|outs: Seq<(Option<Seq<char>>, bool)>|
            outs.len() == SERVER_CANDIDATE_COUNT && opt_view(r) == #[trigger] first_hit(
                server_candidates(),
                outs,
            ),
{
    let mut outcomes: Vec<Lookup> = Vec::new();
    let mut i: usize = 0;
    while i < SERVER_CANDIDATE_COUNT
        invariant_except_break
            i <= SERVER_CANDIDATE_COUNT,
            outcomes.len() == i,
            forall|j: int| 0 <= j < i ==> (#[trigger] outcomes@[j]).0 is None && !outcomes@[j].1,
        ensures
            outcomes.len() <= SERVER_CANDIDATE_COUNT,
        decreases SERVER_CANDIDATE_COUNT - i,
    {
        let c = server_candidate(i);
        let found = match which_binary(c) {
            Ok(p) => Some(p),
            Err(_) => None,
        };
        let hit = found.is_some();
        let exists = if hit {
            false
        } else {
            path_exists(c)
        };
        outcomes.push((found, exists));
        if hit || exists {
            break;
        }
        i = i + 1;
    }
    while outcomes.len() < SERVER_CANDIDATE_COUNT
        invariant
            outcomes.len() <= SERVER_CANDIDATE_COUNT,
        decreases SERVER_CANDIDATE_COUNT - outcomes.len(),
    {
        outcomes.push((None, false));
    }
    let r = first_found(&outcomes);
    proof {
        let outs = lookup_views(outcomes@);
        assert(outs.len() == SERVER_CANDIDATE_COUNT);
        assert(opt_view(r) == first_hit(server_candidates(), outs));
    }
    r
}

/// The arguments the server is started with for the model at `model`.
pub open spec fn server_args_spec(model: Seq<char>) -> Seq<Seq<char>> {
    seq![
        "--model"@,
        model,
        "--port"@,
        decimal(SERVER_PORT as nat),
        "--n-gpu-layers"@,
        "999"@,
        "--ctx-size"@,
        "8192"@,
        "--host"@,
        "127.0.0.1"@,
    ]
}

/// The server's arguments: the model, the port, all layers on the GPU, an
/// 8192-token context, listening on the loopback address only.
pub fn server_args(model: &str) -> (args: Vec<String>)
    ensures
        string_views(args@) == server_args_spec(model@),
{
    let mut args: Vec<String> = Vec::new();
    args.push(String::from_str("--model"));
    args.push(String::from_str(model));
    args.push(String::from_str("--port"));
    args.push(decimal_string(SERVER_PORT as u64));
    args.push(String::from_str("--n-gpu-layers"));
    args.push(String::from_str("999"));
    args.push(String::from_str("--ctx-size"));
    args.push(String::from_str("8192"));
    args.push(String::from_str("--host"));
    args.push(String::from_str("127.0.0.1"));
    assert(string_views(args@) =~= server_args_spec(model@));
    args
}

/// Why the server cannot be started.
pub enum StartError {
    /// No server binary was found.
    ServerNotFound,
    /// The model file is missing at this path.
    ModelMissing(String),
}

/// The message shown for a start error.
pub open spec fn start_error_text(e: StartError) -> Seq<char> {
    match e {
        StartError::ServerNotFound => SERVER_NOT_FOUND@,
        StartError::ModelMissing(p) => MODEL_NOT_FOUND@ + p@,
    }
}

/// The message shown for a start error.
pub fn start_error_message(e: &StartError) -> (m: String)
    ensures
        m@ == start_error_text(*e),
{
    match e {
        StartError::ServerNotFound => String::from_str(SERVER_NOT_FOUND),
        StartError::ModelMissing(p) => {
            let mut m = String::from_str(MODEL_NOT_FOUND);
            m.append(p.as_str());
            m
        },
    }
}

/// How to start the server, given the binary found (if any), whether the
/// model file is present, and its path: the binary and its arguments, or why
/// it cannot start. A missing binary is reported before a missing model.
pub fn start_plan(binary: Option<String>, model_present: bool, model: String) -> (r: Result<(String, Vec<String>), StartError>)
    ensures
        binary is None ==> r matches Err(StartError::ServerNotFound),
        binary is Some && !model_present ==> (r matches Err(StartError::ModelMissing(p)) && p == model),
        binary is Some && model_present ==> (r matches Ok((prog, args)) && Some(prog) == binary
            && string_views(args@) == server_args_spec(model@)),
{
    match binary {
        None => Err(StartError::ServerNotFound),
        Some(b) => {
            if !model_present {
                Err(StartError::ModelMissing(model))
            } else {
                let args = server_args(model.as_str());
                Ok((b, args))
            }
        },
    }
}

/// The address of the server's health check.
pub open spec fn health_url_spec() -> Seq<char> {
    "http://127.0.0.1:"@ + decimal(SERVER_PORT as nat) + "/health"@
}

/// The address of the server's health check.
pub fn health_url() -> (u: String)
    ensures
        u@ == health_url_spec(),
{
    let mut u = String::from_str("http://127.0.0.1:");
    let p = decimal_string(SERVER_PORT as u64);
    u.append(p.as_str());
    u.append("/health");
    u
}

/// Whether the supervisor restarts the server: it does not answer its health
/// check, no started process is still running, the model file is present and
/// a server binary can be found.
pub fn should_restart(online: bool, running: bool, model_present: bool, server_found: bool) -> (r: bool)
    ensures
        r == (!online && !running && model_present && server_found),
{
    !online && !running && model_present && server_found
}

} // verus!
