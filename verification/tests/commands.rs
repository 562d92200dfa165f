use perfmax::ai::parse_commands;
use perfmax::commands::allowed_prefix;

fn parse(text: &str) -> Vec<String> {
    parse_commands(text)
}

#[test]
fn keeps_allowed_commands_in_order() {
    let reply = "ryzenadj --stapm-limit=120000\n# tune the gpu\n```bash\n$ nvidia-smi -pl 400\nrm -rf /\n  cpupower frequency-set -g performance  \n```";
    assert_eq!(
        parse(reply),
        vec![
            "ryzenadj --stapm-limit=120000".to_string(),
            "nvidia-smi -pl 400".to_string(),
            "cpupower frequency-set -g performance".to_string(),
        ]
    );
}

#[test]
fn empty_reply_gives_no_commands() {
    assert!(parse("").is_empty());
    assert!(parse("\n\n   \n").is_empty());
}

#[test]
fn strips_prompt_dollars_and_whitespace() {
    assert_eq!(parse("$$ echo 1 > /sys/devices/system/cpu/cpu3/online"), vec!["echo 1 > /sys/devices/system/cpu/cpu3/online".to_string()]);
    assert_eq!(parse("  $  sysctl -w vm.swappiness=10\t"), vec!["sysctl -w vm.swappiness=10".to_string()]);
}

#[test]
fn handles_crlf_line_ends() {
    assert_eq!(
        parse("sysctl -w vm.swappiness=10\r\ntaskset -cp 0-7 1234\r\n"),
        vec!["sysctl -w vm.swappiness=10".to_string(), "taskset -cp 0-7 1234".to_string()]
    );
}

#[test]
fn unicode_whitespace_is_trimmed() {
    assert_eq!(parse("\u{3000}renice -n 5 -p 42\u{00A0}"), vec!["renice -n 5 -p 42".to_string()]);
}

#[test]
fn rejects_unlisted_and_commented_lines() {
    assert!(parse("sudo reboot\n# ionice -c 1 -p 1\n`ionice -c 1 -p 1`\nls -la").is_empty());
}

#[test]
fn prefix_match_is_by_characters() {
    assert_eq!(parse("echoes"), vec!["echoes".to_string()]);
    assert!(parse("Echo hi").is_empty());
}

#[test]
fn dollar_after_whitespace_is_kept_by_rule() {
    assert!(parse("$ $ionice -c 1 -p 7").is_empty());
}

#[test]
fn every_allowed_name_is_accepted() {
    for i in 0..8 {
        let name = allowed_prefix(i);
        assert_eq!(parse(&format!("{name} x")), vec![format!("{name} x")]);
    }
}

#[test]
fn reparsing_the_commands_gives_them_back() {
    let reply = "Here you go:\n$ ryzenadj --fast-limit=90000\n\n  nvidia-smi -lgc 300,2100 \n```\ntaskset -cp 0-7 99\n";
    let first = parse(reply);
    let again = parse(&first.join("\n"));
    assert_eq!(first, again);
    assert_eq!(first.len(), 3);
}

#[test]
fn commands_are_trimmed_single_lines_with_allowed_names() {
    let reply = "\t echo mq-deadline > /sys/block/nvme0n1/queue/scheduler \r\n nothing\nionice -c 1 -p 5";
    for c in parse(reply) {
        assert_eq!(c.trim(), c);
        assert!(!c.contains('\n'));
        assert!((0..8).any(|i| c.starts_with(allowed_prefix(i))));
    }
}

#[test]
fn parsing_joined_replies_joins_the_commands() {
    let a = "$ echo 1 > /x\nnope\nsysctl -w a=1";
    let b = "```\nrenice -n 2 -p 3\n";
    let mut expected = parse(a);
    expected.extend(parse(b));
    assert_eq!(parse(&format!("{a}\n{b}")), expected);
}
