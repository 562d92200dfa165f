use perfmax::state::{AppState, HISTORY_CAPACITY};
use perfmax::model_manager::MODEL_FILE;
use std::time::Instant;

#[test]
fn default_state_is_empty() {
    let s = AppState::default();
    assert!(s.active_window.is_empty());
    assert!(s.pending_commands.is_empty());
    assert!(s.command_history.is_empty());
    assert!(!s.optimize_trigger);
    assert!(s.model_download.is_none());
    assert!(!s.local_server_online);
    assert!(!s.ai.thinking);
    assert!(s.ai.error.is_none());
    assert!(s.ai.last_updated.is_none());
}

#[test]
fn history_is_newest_first_and_bounded() {
    let mut s = AppState::default();
    for i in 0..(HISTORY_CAPACITY + 5) {
        s.push_history(format!("entry {i}"));
    }
    assert_eq!(s.command_history.len(), HISTORY_CAPACITY);
    assert_eq!(s.command_history[0], format!("entry {}", HISTORY_CAPACITY + 4));
    assert_eq!(s.command_history[HISTORY_CAPACITY - 1], "entry 5");
}

#[test]
fn history_below_capacity_keeps_everything() {
    let mut s = AppState::default();
    s.push_history("a".to_string());
    s.push_history("b".to_string());
    assert_eq!(s.command_history.iter().cloned().collect::<Vec<_>>(), vec!["b".to_string(), "a".to_string()]);
}

#[test]
fn taking_pending_commands_empties_the_queue() {
    let mut s = AppState::default();
    s.record_ai_reply("nvidia-smi -pm 1\nhello".to_string(), Instant::now(), true);
    let cmds = s.take_pending_commands();
    assert_eq!(cmds, vec!["nvidia-smi -pm 1".to_string()]);
    assert!(s.pending_commands.is_empty());
    assert!(s.take_pending_commands().is_empty());
}

#[test]
fn optimize_trigger_is_seen_once() {
    let mut s = AppState::default();
    assert!(!s.take_optimize_trigger());
    s.request_optimization();
    assert!(s.take_optimize_trigger());
    assert!(!s.take_optimize_trigger());
}

#[test]
fn reply_is_recorded_and_queued_when_enabled() {
    let mut s = AppState::default();
    s.begin_ai_query();
    assert!(s.ai.thinking);
    let reply = "sysctl -w vm.swappiness=5\nbogus\n$ renice -n -5 -p 10".to_string();
    s.record_ai_reply(reply.clone(), Instant::now(), true);
    assert!(!s.ai.thinking);
    assert_eq!(s.ai.last_recommendation, reply);
    assert_eq!(s.ai.last_commands, vec!["sysctl -w vm.swappiness=5".to_string(), "renice -n -5 -p 10".to_string()]);
    assert_eq!(s.pending_commands, s.ai.last_commands);
    assert!(s.ai.last_updated.is_some());
    s.record_ai_reply("echo 1 > /x".to_string(), Instant::now(), true);
    assert_eq!(s.pending_commands.len(), 3);
}

#[test]
fn reply_is_not_queued_when_disabled() {
    let mut s = AppState::default();
    s.record_ai_reply("cpupower frequency-set -g powersave".to_string(), Instant::now(), false);
    assert_eq!(s.ai.last_commands, vec!["cpupower frequency-set -g powersave".to_string()]);
    assert!(s.pending_commands.is_empty());
}

#[test]
fn query_error_is_recorded_and_cleared_on_next_query() {
    let mut s = AppState::default();
    s.begin_ai_query();
    s.record_ai_error("connection refused".to_string());
    assert!(!s.ai.thinking);
    assert_eq!(s.ai.error.as_deref(), Some("connection refused"));
    s.begin_ai_query();
    assert!(s.ai.error.is_none());
}

#[test]
fn download_progress_is_tracked() {
    let mut s = AppState::default();
    s.set_download_total(10);
    assert!(s.model_download.is_none());
    s.start_download();
    let d = s.model_download.as_ref().unwrap();
    assert_eq!(d.file, MODEL_FILE);
    assert_eq!((d.bytes_done, d.bytes_total, d.done), (0, 0, false));
    s.set_download_total(2048);
    let done = s.record_download_chunk(0, 1000);
    let done = s.record_download_chunk(done, 1048);
    assert_eq!(done, 2048);
    s.finish_download();
    let d = s.model_download.as_ref().unwrap();
    assert_eq!((d.bytes_done, d.bytes_total, d.done), (2048, 2048, true));
    assert!(d.error.is_none());
}

#[test]
fn history_after_many_recordings_keeps_the_newest() {
    for k in [0usize, 1, 199, 200, 201, 450] {
        let mut s = AppState::default();
        for i in 0..k {
            s.push_history(format!("e{i}"));
        }
        assert_eq!(s.command_history.len(), k.min(HISTORY_CAPACITY));
        for (j, e) in s.command_history.iter().enumerate() {
            assert_eq!(*e, format!("e{}", k - 1 - j));
        }
    }
}
