use perfmax::state::AiState;
use perfmax::text::{contains_str, decimal_string, trim_whitespace, truncate_chars};
use perfmax::ui::{
    ai_status, ends_grid_row, frame_actions, history_entry_kind, in_first_ccd, temperature_level,
    tray_title, utilization_level, AiStatus, EntryKind, Level,
};
use std::time::Instant;

#[test]
fn tray_titles() {
    assert_eq!(tray_title(true), "PerfMax — optimizing…");
    assert_eq!(tray_title(false), "PerfMax");
}

#[test]
fn figure_levels() {
    assert_eq!(temperature_level(86), Level::Critical);
    assert_eq!(temperature_level(85), Level::Warning);
    assert_eq!(temperature_level(71), Level::Warning);
    assert_eq!(temperature_level(70), Level::Normal);
    assert_eq!(utilization_level(81), Level::Critical);
    assert_eq!(utilization_level(80), Level::Warning);
    assert_eq!(utilization_level(51), Level::Warning);
    assert_eq!(utilization_level(50), Level::Normal);
}

#[test]
fn history_entry_kinds() {
    assert_eq!(history_entry_kind("[OK] nvidia-smi -pm 1"), EntryKind::Succeeded);
    assert_eq!(history_entry_kind("[FAIL] x — y"), EntryKind::Failed);
    assert_eq!(history_entry_kind("[ERR] x — y"), EntryKind::Failed);
    assert_eq!(history_entry_kind("[DRY] x"), EntryKind::DryRun);
    assert_eq!(history_entry_kind("[DRY] echo [OK]"), EntryKind::Succeeded);
    assert_eq!(history_entry_kind("plain"), EntryKind::Other);
}

#[test]
fn assistant_status() {
    let mut ai = AiState::default();
    assert_eq!(ai_status(&ai), AiStatus::Waiting);
    ai.last_updated = Some(Instant::now());
    assert_eq!(ai_status(&ai), AiStatus::Updated);
    ai.error = Some("e".to_string());
    assert_eq!(ai_status(&ai), AiStatus::Error);
    ai.thinking = true;
    assert_eq!(ai_status(&ai), AiStatus::Thinking);
}

#[test]
fn core_grid() {
    assert!(in_first_ccd(7, 16));
    assert!(!in_first_ccd(8, 16));
    assert!(!in_first_ccd(0, 1));
    assert!(ends_grid_row(3));
    assert!(!ends_grid_row(4));
    assert!(ends_grid_row(usize::MAX));
}

#[test]
fn frame_decisions() {
    let a = frame_actions(true, true, true, true);
    assert!(a.close && !a.draw && !a.trigger_optimization);
    let a = frame_actions(false, true, false, true);
    assert!(!a.close && a.trigger_optimization && a.visible && a.draw && !a.hide_instead_of_close);
    let a = frame_actions(false, false, true, true);
    assert!(a.hide_instead_of_close && !a.visible && !a.draw);
    let a = frame_actions(false, false, false, false);
    assert!(!a.visible && !a.draw);
}

#[test]
fn text_helpers() {
    assert_eq!(decimal_string(0), "0");
    assert_eq!(decimal_string(1234567890), "1234567890");
    assert_eq!(decimal_string(u64::MAX), u64::MAX.to_string());
    assert_eq!(truncate_chars("héllo", 3), "hél");
    assert_eq!(truncate_chars("hi", 60), "hi");
    assert_eq!(trim_whitespace("  Firefox — Page \n"), "Firefox — Page");
    assert!(contains_str("abc", ""));
    assert!(contains_str("a[OK]b", "[OK]"));
    assert!(!contains_str("[O", "[OK]"));
}
