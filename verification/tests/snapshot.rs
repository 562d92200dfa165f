use perfmax::ai::{
    average_frequency, build_snapshot, chat_completions_url, first_choice_content, frequency_sum_fits,
    query_due, CpuSnapshot, GpuSnapshot, ProcessSnapshot, SNAPSHOT_ALLOWED, SNAPSHOT_HARDWARE,
};

fn proc(name: &str, pid: u32, cpu: &str) -> ProcessSnapshot {
    ProcessSnapshot { name: name.to_string(), pid, cpu_text: cpu.to_string() }
}

#[test]
fn snapshot_without_metrics() {
    let s = build_snapshot(None, None, &vec![], "Terminal");
    let expected = format!("{SNAPSHOT_HARDWARE}CPU: no data\nGPU: no data\nActive window: Terminal\nTop processes by CPU:\n{SNAPSHOT_ALLOWED}");
    assert_eq!(s, expected);
    assert!(s.ends_with("Output ONLY the commands. One per line. No explanation."));
}

#[test]
fn snapshot_with_metrics() {
    let cpu = CpuSnapshot {
        total_usage_text: "12.5".to_string(),
        frequency_mhz: vec![3000, 4000, 5001],
        core_usage_texts: vec!["10".to_string(), "15".to_string()],
    };
    let gpu = GpuSnapshot {
        utilization_pct: 87,
        memory_used_mb: 1024,
        memory_total_mb: 32607,
        power_draw_text: "312".to_string(),
        power_limit_text: "575".to_string(),
        temperature: 64,
        clock_sm_mhz: 2407,
        clock_mem_mhz: 14001,
    };
    let procs = vec![proc("game", 4242, "93.1"), proc("kwin", 7, "4.0")];
    let s = build_snapshot(Some(&cpu), Some(&gpu), &procs, "Game");
    let expected = format!(
        "{SNAPSHOT_HARDWARE}CPU total=12.5% avg_freq=4000MHz cores=[10,15]\nGPU util=87% VRAM=1024/32607MB power=312/575W temp=64C sm=2407MHz mem=14001MHz\nActive window: Game\nTop processes by CPU:\n  game(4242): 93.1%cpu\n  kwin(7): 4.0%cpu{SNAPSHOT_ALLOWED}"
    );
    assert_eq!(s, expected);
}

#[test]
fn snapshot_lists_ten_processes_at_most() {
    let procs: Vec<ProcessSnapshot> = (0..15).map(|i| proc(&format!("p{i}"), i, "1.0")).collect();
    let s = build_snapshot(None, None, &procs, "");
    assert!(s.contains("  p9(9): 1.0%cpu"));
    assert!(!s.contains("p10("));
}

#[test]
fn average_frequency_rounds_down() {
    assert_eq!(average_frequency(&vec![3000, 4000, 5001]), 4000);
    assert_eq!(average_frequency(&vec![1, 2]), 1);
    assert_eq!(average_frequency(&vec![]), 0);
}

#[test]
fn frequency_sum_overflow_is_detected() {
    assert!(frequency_sum_fits(&vec![u64::MAX]));
    assert!(!frequency_sum_fits(&vec![u64::MAX, 1]));
    assert!(frequency_sum_fits(&vec![]));
}

#[test]
fn chat_url_and_first_choice() {
    assert_eq!(chat_completions_url("http://127.0.0.1:8081/v1"), "http://127.0.0.1:8081/v1/chat/completions");
    assert_eq!(first_choice_content(vec!["a".to_string(), "b".to_string()]), "a");
    assert_eq!(first_choice_content(vec![]), "");
}

#[test]
fn query_due_after_interval_or_trigger() {
    assert!(query_due(true, 0, 30));
    assert!(!query_due(false, 59, 30));
    assert!(query_due(false, 60, 30));
    assert!(query_due(false, 0, 0));
    assert!(!query_due(false, u64::MAX / 1000, u64::MAX));
}
