//! Where the model file lives and where it is fetched from.
use vstd::prelude::*;
use vstd::string::*;
use crate::paths::{
    base_or_current, base_or_current_dir, data_local_dir, join_path, opt_view, path_exists,
    path_join,
};

verus! {

/// The repository on the model hub that holds the model.
pub const MODEL_REPO: &'static str = "jedisct1/MiMo-7B-RL-GGUF";

/// The model's file name.
pub const MODEL_FILE: &'static str = "MiMo-7B-RL-Q8_0.gguf";

/// The file name a download is written to before it is complete.
pub const PARTIAL_MODEL_FILE: &'static str = "MiMo-7B-RL-Q8_0.gguf.part";

/// The model hub's address.
pub const HF_BASE: &'static str = "https://huggingface.co";

/// The models directory under the local data directory `base`.
pub open spec fn models_dir_in(base: Option<Seq<char>>) -> Seq<char> {
    path_join(path_join(base_or_current(base), "perfmax"@), "models"@)
}

/// The model file's path under the local data directory `base`.
pub open spec fn model_path_in(base: Option<Seq<char>>) -> Seq<char> {
    path_join(models_dir_in(base), MODEL_FILE@)
}

/// The models directory under the local data directory `base` (`.` when there is none).
pub fn models_dir_under(base: Option<String>) -> (d: String)
    ensures
        d@ == models_dir_in(opt_view(base)),
{
    let b = base_or_current_dir(base);
    let p = join_path(b.as_str(), "perfmax");
    join_path(p.as_str(), "models")
}

/// The directory that holds downloaded models: `perfmax/models` under the
/// user's local data directory, or under `.` when the platform has none.
pub fn models_dir() -> (d: String)
    ensures
        exists|base: Option<Seq<char>>| d@ == models_dir_in(base),
{
    let base = data_local_dir();
    let d = models_dir_under(base);
    proof {
        assert(d@ == models_dir_in(opt_view(base)));
    }
    d
}

/// The model file's path under the local data directory `base`.
pub fn model_path_under(base: Option<String>) -> (p: String)
    ensures
        p@ == model_path_in(opt_view(base)),
{
    let d = models_dir_under(base);
    join_path(d.as_str(), MODEL_FILE)
}

/// Where the model file is kept: the model's file name in the models directory.
pub fn default_model_path() -> (p: String)
    ensures
        exists|base: Option<Seq<char>>| p@ == model_path_in(base),
{
    let base = data_local_dir();
    let p = model_path_under(base);
    proof {
        assert(p@ == model_path_in(opt_view(base)));
    }
    p
}

/// Whether the model file is present at its default path. The answer comes
/// from the disk, so the contract cannot state it.
pub fn model_exists() -> (b: bool) {
    let p = default_model_path();
    path_exists(p.as_str())
}

/// The path a download is written to in the models directory `dir` before
/// it is renamed to the model file: the model file with extension `gguf.part`.
pub fn partial_model_path(dir: &str) -> (p: String)
    ensures
        p@ == path_join(dir@, PARTIAL_MODEL_FILE@),
{
    join_path(dir, PARTIAL_MODEL_FILE)
}

/// The address the model file is downloaded from.
pub open spec fn model_url_spec() -> Seq<char> {
    HF_BASE@ + "/"@ + MODEL_REPO@ + "/resolve/main/"@ + MODEL_FILE@
}

/// The address the model file is downloaded from: the hub, the repository,
/// the main revision, the file.
pub fn model_url() -> (u: String)
    ensures
        u@ == model_url_spec(),
{
    let mut u = String::from_str(HF_BASE);
    u.append("/");
    u.append(MODEL_REPO);
    u.append("/resolve/main/");
    u.append(MODEL_FILE);
    u
}

} // verus!
