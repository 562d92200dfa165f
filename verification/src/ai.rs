//! The assistant's side of the optimization cycle: when to ask, what to ask
//! (a snapshot of the machine), where to send it, and what to take from the answer.
use vstd::prelude::*;
use vstd::string::*;
use crate::text::{decimal, decimal_string, join_strings, join_with, string_views};

pub use crate::commands::parse_commands;

verus! {

/// The standing instruction sent ahead of every snapshot.
pub const SYSTEM_PROMPT: &'static str = "You are a Linux system performance optimizer for a high-end workstation.Output ONLY shell commands, one per line. No markdown, no explanation, no backticks.Only use the allowed commands listed in the user message.";

/// The first line of every snapshot: the machine being tuned.
pub const SNAPSHOT_HARDWARE: &'static str = "Hardware: Ryzen 9 9950X3D (16c/32t, CCD0=8c X3D-VCache gaming CCD, CCD1=8c standard), RTX 5090 32GB Blackwell, 64GB DDR5, CachyOS linux-tkg BORE/EEVDF 1000Hz.\n";

/// The end of every snapshot: the commands the assistant may use.
pub const SNAPSHOT_ALLOWED: &'static str = "\n\nAllowed commands ONLY:\n  ryzenadj --stapm-limit=<mW> --fast-limit=<mW> --slow-limit=<mW>\n  nvidia-smi -pl <watts>\n  nvidia-smi -lgc <min_mhz>,<max_mhz>\n  nvidia-smi -pm 0|1\n  cpupower frequency-set -g performance|schedutil|powersave\n  echo 0|1 > /sys/devices/system/cpu/cpu<N>/online\n  sysctl -w vm.swappiness=<N>\n  sysctl -w vm.nr_hugepages=<N>\n  sysctl -w kernel.sched_latency_ns=<N>\n  taskset -cp <cpu_list> <pid>\n  renice -n <-20..19> -p <pid>\n  ionice -c 1 -p <pid>\n  echo mq-deadline|none|kyber > /sys/block/<dev>/queue/scheduler\n\nOutput ONLY the commands. One per line. No explanation.";

/// How many processes a snapshot lists.
pub const SNAPSHOT_PROCESSES: usize = 10;

/// Length of one wait step between looks at the trigger, in milliseconds.
pub const WAIT_TICK_MS: u64 = 500;

/// The processor's figures as a snapshot shows them. The usage figures are
/// already rendered as text (total with one decimal, per core with none).
pub struct CpuSnapshot {
    pub total_usage_text: String,
    pub frequency_mhz: Vec<u64>,
    pub core_usage_texts: Vec<String>,
}

/// The graphics card's figures as a snapshot shows them. The power figures
/// are already rendered as text, without decimals.
pub struct GpuSnapshot {
    pub utilization_pct: u32,
    pub memory_used_mb: u64,
    pub memory_total_mb: u64,
    pub power_draw_text: String,
    pub power_limit_text: String,
    pub temperature: u32,
    pub clock_sm_mhz: u32,
    pub clock_mem_mhz: u32,
}

/// One busy process as a snapshot shows it; its usage is already rendered
/// as text with one decimal.
pub struct ProcessSnapshot {
    pub name: String,
    pub pid: u32,
    pub cpu_text: String,
}

/// The sum of the numbers in `s`.
pub open spec fn seq_sum(s: Seq<u64>) -> int
    decreases s.len(),
{
    if s.len() == 0 {
        0
    } else {
        seq_sum(s.drop_last()) + s.last()
    }
}

/// The mean of the frequencies, rounded down; zero when there are none.
pub open spec fn mean_frequency(s: Seq<u64>) -> int {
    if s.len() == 0 {
        0
    } else {
        seq_sum(s) / (s.len() as int)
    }
}

/// Whether the frequencies sum to a value that fits in a `u64`.
pub fn frequency_sum_fits(freqs: &Vec<u64>) -> (b: bool)
    ensures
        b == (seq_sum(freqs@) <= u64::MAX),
{
    let mut sum: u64 = 0;
    for i in 0..freqs.len()
        invariant
            sum == seq_sum(freqs@.take(i as int)),
    {
        assert(freqs@.take(i + 1).drop_last() =~= freqs@.take(i as int));
        proof {
            lemma_seq_sum_prefix_le(freqs@, i + 1);
        }
        if freqs[i] > u64::MAX - sum {
            assert(seq_sum(freqs@.take(i + 1)) > u64::MAX);
            return false;
        }
        sum = sum + freqs[i];
    }
    assert(freqs@.take(freqs.len() as int) =~= freqs@);
    true
}

/// A prefix of a list of numbers sums to no more than the list.
proof fn lemma_seq_sum_prefix_le(s: Seq<u64>, k: int)
    requires
        0 <= k <= s.len(),
    ensures
        seq_sum(s.take(k)) <= seq_sum(s),
    decreases s.len() - k,
{
    if k < s.len() {
        lemma_seq_sum_prefix_le(s, k + 1);
        assert(s.take(k + 1).drop_last() =~= s.take(k));
    } else {
        assert(s.take(k) =~= s);
    }
}

/// The mean clock frequency in MHz, rounded down, or zero without cores.
pub fn average_frequency(freqs: &Vec<u64>) -> (avg: u64)
    requires
        seq_sum(freqs@) <= u64::MAX,
    ensures
        avg == mean_frequency(freqs@),
{
    let mut sum: u64 = 0;
    for i in 0..freqs.len()
        invariant
            sum == seq_sum(freqs@.take(i as int)),
            seq_sum(freqs@) <= u64::MAX,
    {
        assert(freqs@.take(i + 1).drop_last() =~= freqs@.take(i as int));
        proof {
            lemma_seq_sum_prefix_le(freqs@, i + 1);
        }
        sum = sum + freqs[i];
    }
    assert(freqs@.take(freqs.len() as int) =~= freqs@);
    if freqs.len() == 0 {
        0
    } else {
        sum / (freqs.len() as u64)
    }
}

/// The snapshot's processor line.
pub open spec fn cpu_line(total: Seq<char>, freqs: Seq<u64>, cores: Seq<Seq<char>>) -> Seq<char> {
    "CPU total="@ + total + "% avg_freq="@ + decimal(mean_frequency(freqs) as nat)
        + "MHz cores=["@ + join_with(cores, ","@) + "]"@
}

/// The snapshot's processor line, or the note that there is no data.
pub open spec fn cpu_text(cpu: Option<&CpuSnapshot>) -> Seq<char> {
    match cpu {
        Some(c) => cpu_line(
            c.total_usage_text@,
            c.frequency_mhz@,
            string_views(c.core_usage_texts@),
        ),
        None => "CPU: no data"@,
    }
}

/// The snapshot's graphics line.
pub open spec fn gpu_line(g: &GpuSnapshot) -> Seq<char> {
    "GPU util="@ + decimal(g.utilization_pct as nat) + "% VRAM="@ + decimal(
        g.memory_used_mb as nat,
    ) + "/"@ + decimal(g.memory_total_mb as nat) + "MB power="@ + g.power_draw_text@ + "/"@
        + g.power_limit_text@ + "W temp="@ + decimal(g.temperature as nat) + "C sm="@ + decimal(
        g.clock_sm_mhz as nat,
    ) + "MHz mem="@ + decimal(g.clock_mem_mhz as nat) + "MHz"@
}

/// The snapshot's graphics line, or the note that there is no data.
pub open spec fn gpu_text(gpu: Option<&GpuSnapshot>) -> Seq<char> {
    match gpu {
        Some(g) => gpu_line(g),
        None => "GPU: no data"@,
    }
}

/// The snapshot's line for one process.
pub open spec fn process_line(p: ProcessSnapshot) -> Seq<char> {
    "  "@ + p.name@ + "("@ + decimal(p.pid as nat) + "): "@ + p.cpu_text@ + "%cpu"@
}

/// The first `n` entries of `s`, or all of them when there are fewer.
pub open spec fn first_n<T>(s: Seq<T>, n: nat) -> Seq<T> {
    if s.len() <= n {
        s
    } else {
        s.take(n as int)
    }
}

/// The snapshot's process list: the first ten processes, one per line.
pub open spec fn processes_text(procs: Seq<ProcessSnapshot>) -> Seq<char> {
    join_with(
        first_n(procs, SNAPSHOT_PROCESSES as nat).map_values(|p: ProcessSnapshot| process_line(p)),
        "\n"@,
    )
}

/// The whole snapshot sent to the assistant.
pub open spec fn snapshot_text(
    cpu: Option<&CpuSnapshot>,
    gpu: Option<&GpuSnapshot>,
    procs: Seq<ProcessSnapshot>,
    window: Seq<char>,
) -> Seq<char> {
    SNAPSHOT_HARDWARE@ + cpu_text(cpu) + "\n"@ + gpu_text(gpu) + "\nActive window: "@ + window
        + "\nTop processes by CPU:\n"@ + processes_text(procs) + SNAPSHOT_ALLOWED@
}

/// Renders the processor line.
fn render_cpu(c: &CpuSnapshot) -> (s: String)
    requires
        seq_sum(c.frequency_mhz@) <= u64::MAX,
    ensures
        s@ == cpu_text(Some(c)),
{
    let avg = average_frequency(&c.frequency_mhz);
    let mut s = String::from_str("CPU total=");
    s.append(c.total_usage_text.as_str());
    s.append("% avg_freq=");
    let a = decimal_string(avg);
    s.append(a.as_str());
    s.append("MHz cores=[");
    let cores = join_strings(&c.core_usage_texts, ",");
    s.append(cores.as_str());
    s.append("]");
    s
}

/// Renders the graphics line.
fn render_gpu(g: &GpuSnapshot) -> (s: String)
    ensures
        s@ == gpu_text(Some(g)),
{
    let mut s = String::from_str("GPU util=");
    let t = decimal_string(g.utilization_pct as u64);
    s.append(t.as_str());
    s.append("% VRAM=");
    let t = decimal_string(g.memory_used_mb);
    s.append(t.as_str());
    s.append("/");
    let t = decimal_string(g.memory_total_mb);
    s.append(t.as_str());
    s.append("MB power=");
    s.append(g.power_draw_text.as_str());
    s.append("/");
    s.append(g.power_limit_text.as_str());
    s.append("W temp=");
    let t = decimal_string(g.temperature as u64);
    s.append(t.as_str());
    s.append("C sm=");
    let t = decimal_string(g.clock_sm_mhz as u64);
    s.append(t.as_str());
    s.append("MHz mem=");
    let t = decimal_string(g.clock_mem_mhz as u64);
    s.append(t.as_str());
    s.append("MHz");
    s
}

/// Renders the line for one process.
fn render_process(p: &ProcessSnapshot) -> (s: String)
    ensures
        s@ == process_line(*p),
{
    let mut s = String::from_str("  ");
    s.append(p.name.as_str());
    s.append("(");
    let t = decimal_string(p.pid as u64);
    s.append(t.as_str());
    s.append("): ");
    s.append(p.cpu_text.as_str());
    s.append("%cpu");
    s
}

/// Renders the process list.
fn render_processes(procs: &Vec<ProcessSnapshot>) -> (s: String)
    ensures
        s@ == processes_text(procs@),
{
    let n = if procs.len() <= SNAPSHOT_PROCESSES { procs.len() } else { SNAPSHOT_PROCESSES };
    let ghost shown = first_n(procs@, SNAPSHOT_PROCESSES as nat);
    let mut lines: Vec<String> = Vec::new();
    for i in 0..n
        invariant
            n <= procs.len(),
            shown.len() == n,
            shown == first_n(procs@, SNAPSHOT_PROCESSES as nat),
            string_views(lines@) == shown.take(i as int).map_values(
                |p: ProcessSnapshot| process_line(p),
            ),
    {
        let line = render_process(&procs[i]);
        assert(shown[i as int] == procs@[i as int]);
        let ghost before = lines@;
        lines.push(line);
        assert(string_views(lines@) =~= string_views(before).push(line@));
        assert(shown.take(i + 1).map_values(|p: ProcessSnapshot| process_line(p)) =~= shown.take(
            i as int,
        ).map_values(|p: ProcessSnapshot| process_line(p)).push(process_line(shown[i as int])));
        assert(string_views(lines@) =~= shown.take(i + 1).map_values(
            |p: ProcessSnapshot| process_line(p),
        ));
    }
    assert(shown.take(n as int) =~= shown);
    join_strings(&lines, "\n")
}

/// The snapshot of the machine that the assistant is asked about: the
/// hardware, the processor and graphics figures (or a note that they are
/// missing), the active window, the ten busiest processes, and the list of
/// commands the assistant may answer with.
pub fn build_snapshot(
    cpu: Option<&CpuSnapshot>,
    gpu: Option<&GpuSnapshot>,
    procs: &Vec<ProcessSnapshot>,
    active_window: &str,
) -> (s: String)
    requires
        cpu matches Some(c) ==> seq_sum(c.frequency_mhz@) <= u64::MAX,
    ensures
        s@ == snapshot_text(cpu, gpu, procs@, active_window@),
{
    let cpu_str = match cpu {
        Some(c) => render_cpu(c),
        None => String::from_str("CPU: no data"),
    };
    let gpu_str = match gpu {
        Some(g) => render_gpu(g),
        None => String::from_str("GPU: no data"),
    };
    let procs_str = render_processes(procs);
    let mut s = String::from_str(SNAPSHOT_HARDWARE);
    s.append(cpu_str.as_str());
    s.append("\n");
    s.append(gpu_str.as_str());
    s.append("\nActive window: ");
    s.append(active_window);
    s.append("\nTop processes by CPU:\n");
    s.append(procs_str.as_str());
    s.append(SNAPSHOT_ALLOWED);
    s
}

/// The address of the chat completion service under `endpoint`.
pub fn chat_completions_url(endpoint: &str) -> (u: String)
    ensures
        u@ == endpoint@ + "/chat/completions"@,
{
    let mut u = String::from_str(endpoint);
    u.append("/chat/completions");
    u
}

/// The text of the assistant's answer: the content of the first choice, or
/// nothing when the service returned no choice.
pub fn first_choice_content(contents: Vec<String>) -> (text: String)
    ensures
        contents@.len() > 0 ==> text == contents@[0],
        contents@.len() == 0 ==> text@ == Seq::<char>::empty(),
{
    let mut contents = contents;
    if contents.len() == 0 {
        String::new()
    } else {
        contents.swap_remove(0)
    }
}

/// Whether the wait before the next query is over: the user asked for an
/// optimization, or `ticks` steps of half a second have reached the interval.
pub open spec fn query_is_due(triggered: bool, ticks: nat, interval_secs: nat) -> bool {
    triggered || ticks * (WAIT_TICK_MS as nat) >= interval_secs * 1000
}

/// Whether to stop waiting and query the assistant now.
pub fn query_due(triggered: bool, ticks: u64, interval_secs: u64) -> (due: bool)
    ensures
        due == query_is_due(triggered, ticks as nat, interval_secs as nat),
{
    if triggered {
        return true;
    }
    let waited_ms = (ticks as u128) * 500;
    let interval_ms = (interval_secs as u128) * 1000;
    waited_ms >= interval_ms
}

} // verus!
