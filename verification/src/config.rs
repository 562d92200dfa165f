//! The user's settings: the assistant's endpoint and cadence, the optimizer's
//! switches and the metrics interval. Reading and writing the settings file
//! is done by the application around this library.
use vstd::prelude::*;
use vstd::string::*;
use crate::paths::{base_or_current, base_or_current_dir, config_dir, join_path, opt_view, path_join};

verus! {

/// All settings.
#[derive(Clone)]
pub struct Config {
    pub ai: AiConfig,
    pub optimizer: OptimizerConfig,
    pub metrics: MetricsConfig,
}

/// Where the assistant is reached and how often it is asked.
#[derive(Clone)]
pub struct AiConfig {
    pub endpoint: String,
    pub model: String,
    pub interval_secs: u64,
    pub max_tokens: u32,
}

/// Whether and how tuning commands are run.
#[derive(Clone)]
pub struct OptimizerConfig {
    pub enabled: bool,
    pub ryzenadj_path: String,
    pub dry_run: bool,
}

/// How often the machine's metrics are sampled.
#[derive(Clone)]
pub struct MetricsConfig {
    pub interval_ms: u64,
}

impl Default for Config {
    /// The settings used when none are saved yet: a local assistant on port
    /// 8081 queried every 30 s for at most 512 tokens, the optimizer enabled
    /// and executing, metrics every second.
    fn default() -> (c: Self)
        ensures
            c.ai.endpoint@ == "http://127.0.0.1:8081/v1"@,
            c.ai.model@ == "mimo-7b"@,
            c.ai.interval_secs == 30,
            c.ai.max_tokens == 512,
            c.optimizer.enabled,
            c.optimizer.ryzenadj_path@ == "/usr/local/bin/ryzenadj"@,
            !c.optimizer.dry_run,
            c.metrics.interval_ms == 1000,
    {
        Config {
            ai: AiConfig {
                endpoint: String::from_str("http://127.0.0.1:8081/v1"),
                model: String::from_str("mimo-7b"),
                interval_secs: 30,
                max_tokens: 512,
            },
            optimizer: OptimizerConfig {
                enabled: true,
                ryzenadj_path: String::from_str("/usr/local/bin/ryzenadj"),
                dry_run: false,
            },
            metrics: MetricsConfig { interval_ms: 1000 },
        }
    }
}

/// The settings file under the configuration directory `base`.
pub open spec fn config_path_in(base: Option<Seq<char>>) -> Seq<char> {
    path_join(path_join(base_or_current(base), "perfmax"@), "config.toml"@)
}

/// The settings file under the configuration directory `base` (`.` when there is none).
pub fn config_path_under(base: Option<String>) -> (p: String)
    ensures
        p@ == config_path_in(opt_view(base)),
{
    let b = base_or_current_dir(base);
    let d = join_path(b.as_str(), "perfmax");
    join_path(d.as_str(), "config.toml")
}

/// The settings file: `perfmax/config.toml` under the user's configuration
/// directory, or under `.` when the platform has none.
pub fn config_path() -> (p: String)
    ensures
        exists|base: Option<Seq<char>>| p@ == config_path_in(base),
{
    let base = config_dir();
    let p = config_path_under(base);
    proof {
        assert(p@ == config_path_in(opt_view(base)));
    }
    p
}

} // verus!
