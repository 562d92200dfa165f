//! File-system paths, held as strings, and the calls that look at the machine
//! for them.
use vstd::prelude::*;
use vstd::string::*;

verus! {

/// `base` with the relative component `comp` appended, as `PathBuf::join`
/// does on Unix: an absolute `comp` replaces `base`; otherwise a `/` separates
/// the two unless `base` is empty or already ends with one.
pub open spec fn path_join(base: Seq<char>, comp: Seq<char>) -> Seq<char> {
    if comp.len() > 0 && comp[0] == '/' {
        comp
    } else if base.len() == 0 || base.last() == '/' {
        base + comp
    } else {
        base + seq!['/'] + comp
    }
}

/// Joins `comp` onto `base` as `PathBuf::join` does on Unix.
pub fn join_path(base: &str, comp: &str) -> (p: String)
    ensures
        p@ == path_join(base@, comp@),
{
    let cn = comp.unicode_len();
    if cn > 0 && comp.get_char(0) == '/' {
        return String::from_str(comp);
    }
    let bn = base.unicode_len();
    let mut p = String::from_str(base);
    if bn > 0 && base.get_char(bn - 1) != '/' {
        p.append("/");
        proof {
            reveal_strlit("/");
        }
    }
    p.append(comp);
    p
}

/// The user's local data directory, from the `dirs` crate's
/// `data_local_dir`; it depends on the platform and the environment, so
/// nothing is stated of it. A path that is not valid UTF-8 is converted lossily.
#[verifier::external_body]
pub fn data_local_dir() -> (d: Option<String>) {
    match dirs::data_local_dir() {
        Some(p) => Some(p.to_string_lossy().into_owned()),
        None => None,
    }
}

/// The user's configuration directory, from the `dirs` crate's `config_dir`;
/// it depends on the platform and the environment, so nothing is stated of it.
/// A path that is not valid UTF-8 is converted lossily.
#[verifier::external_body]
pub fn config_dir() -> (d: Option<String>) {
    match dirs::config_dir() {
        Some(p) => Some(p.to_string_lossy().into_owned()),
        None => None,
    }
}

/// Whether something exists at `path`, from std's `Path::exists`; the answer
/// depends on the disk, so nothing is stated of it.
#[verifier::external_body]
pub fn path_exists(path: &str) -> (b: bool) {
    std::path::Path::new(path).exists()
}

/// The directory under `base`, or under `.` when there is no base.
pub open spec fn base_or_current(base: Option<Seq<char>>) -> Seq<char> {
    match base {
        Some(b) => b,
        None => seq!['.'],
    }
}

/// The views of an optional string.
pub open spec fn opt_view(s: Option<String>) -> Option<Seq<char>> {
    match s {
        Some(x) => Some(x@),
        None => None,
    }
}

/// `base`, or `.` when there is no base.
pub fn base_or_current_dir(base: Option<String>) -> (d: String)
    ensures
        d@ == base_or_current(opt_view(base)),
{
    match base {
        Some(b) => b,
        None => {
            let d = String::from_str(".");
            proof {
                reveal_strlit(".");
            }
            d
        },
    }
}

} // verus!
