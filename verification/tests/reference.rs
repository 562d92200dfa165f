use perfmax::ai::parse_commands;
use perfmax::text::{is_whitespace, trim_whitespace};

fn reference_parse(text: &str) -> Vec<String> {
    let allowed_prefixes = ["ryzenadj", "nvidia-smi", "cpupower", "echo", "sysctl", "taskset", "renice", "ionice"];
    text.lines()
        .map(|l| l.trim().trim_start_matches('$').trim().to_string())
        .filter(|l| !l.is_empty() && !l.starts_with('#') && !l.starts_with("```"))
        .filter(|l| allowed_prefixes.iter().any(|p| l.starts_with(p)))
        .collect()
}

#[test]
fn whitespace_matches_std() {
    for u in 0..=0x10FFFFu32 {
        if let Some(c) = char::from_u32(u) {
            assert_eq!(is_whitespace(c), c.is_whitespace(), "U+{u:04X}");
        }
    }
}

#[test]
fn trim_matches_std() {
    for s in ["", " ", "a", " a ", "\u{2028}x y\u{205F}", "\r\n\tz\r", "\u{85}é\u{a0}"] {
        assert_eq!(trim_whitespace(s), s.trim());
    }
}

#[test]
fn parse_matches_line_by_line_reading() {
    let cases = [
        "",
        "\n",
        "\r\n",
        "echo 1\r",
        "echo 1\r\r\n",
        "$\r\n$$$\n$ $ sysctl -w a=1",
        "```\n```bash\nrenice -n 1 -p 2\n```",
        "# echo\n#echo\n  #nvidia-smi",
        "x\nionice -c 1 -p 3\n\n\ntaskset -cp 1 2\n",
        "\u{3000}$\u{3000}cpupower frequency-set -g schedutil\u{3000}",
        "nvidia-smi -pm 1\nnvidia-smi -pm 1",
        "ryzenadj\ttab\nsysctl\n",
    ];
    for text in cases {
        assert_eq!(parse_commands(text), reference_parse(text), "{text:?}");
    }
}
