use perfmax::optimizer::{outcome_entry, plan_execution, split_words, ExecutionPlan, RunOutcome};

fn args(plan: ExecutionPlan) -> Vec<String> {
    match plan {
        ExecutionPlan::Run(a) => a,
        _ => panic!("expected a run"),
    }
}

#[test]
fn dry_run_only_records() {
    match plan_execution("nvidia-smi -pl 300", true) {
        ExecutionPlan::Record(e) => assert_eq!(e, "[DRY] nvidia-smi -pl 300"),
        _ => panic!("expected a record"),
    }
    match plan_execution("", true) {
        ExecutionPlan::Record(e) => assert_eq!(e, "[DRY] "),
        _ => panic!("expected a record"),
    }
}

#[test]
fn blank_command_does_nothing() {
    assert!(matches!(plan_execution(" \t ", false), ExecutionPlan::Nothing));
    assert!(matches!(plan_execution("", false), ExecutionPlan::Nothing));
}

#[test]
fn redirect_goes_through_shell() {
    let cmd = "echo 0 > /sys/devices/system/cpu/cpu31/online";
    assert_eq!(args(plan_execution(cmd, false)), vec!["sh".to_string(), "-c".to_string(), cmd.to_string()]);
}

#[test]
fn plain_command_runs_as_words() {
    assert_eq!(
        args(plan_execution("  nvidia-smi   -pl\t300 ", false)),
        vec!["nvidia-smi".to_string(), "-pl".to_string(), "300".to_string()]
    );
}

#[test]
fn words_split_like_split_whitespace() {
    let text = " a  bc\u{2003}d\n";
    let expected: Vec<String> = text.split_whitespace().map(|s| s.to_string()).collect();
    assert_eq!(split_words(text), expected);
    assert!(split_words("").is_empty());
}

#[test]
fn outcome_entries() {
    assert_eq!(outcome_entry("renice -n 1 -p 2", RunOutcome::Succeeded), "[OK] renice -n 1 -p 2");
    assert_eq!(
        outcome_entry("renice -n 1 -p 2", RunOutcome::Failed("  no such process\n".to_string())),
        "[FAIL] renice -n 1 -p 2 — no such process"
    );
    assert_eq!(
        outcome_entry("renice -n 1 -p 2", RunOutcome::NotStarted("sudo: not found".to_string())),
        "[ERR] renice -n 1 -p 2 — sudo: not found"
    );
}
