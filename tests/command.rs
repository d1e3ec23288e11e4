use rate_follower::command::{decimal_chars, is_space_char, parse_cmd, split_words, substitute_chars, CmdCfg};

fn chars(s: &str) -> Vec<char> {
    s.chars().collect()
}

#[test]
fn parse_default_playback_command() {
    let (program, args) = parse_cmd(
        "alsaloop -vv -r {R} --latency=1000 -f S32_LE -S playshift -C hw:Loopback,1 -P hw:UAC2Gadget".to_string(),
        "Playback",
    );
    assert_eq!(program, "alsaloop");
    assert_eq!(
        args,
        vec!["-vv", "-r", "{R}", "--latency=1000", "-f", "S32_LE", "-S", "playshift", "-C", "hw:Loopback,1", "-P", "hw:UAC2Gadget"]
    );
}

#[test]
fn parse_command_without_args() {
    let (program, args) = parse_cmd("  /usr/bin/worker \t".to_string(), "Capture");
    assert_eq!(program, "/usr/bin/worker");
    assert!(args.is_empty());
}

#[test]
fn split_on_any_white_space() {
    assert_eq!(split_words(" a\tbb \n ccc\u{3000}d  "), vec!["a", "bb", "ccc", "d"]);
    assert!(split_words("").is_empty());
    assert!(split_words(" \t\n ").is_empty());
    assert_eq!(split_words("x"), vec!["x"]);
}

#[test]
fn white_space_as_std_decides() {
    for c in [' ', '\t', '\n', '\r', '\u{b}', '\u{c}', '\u{85}', '\u{a0}', '\u{2003}', '\u{3000}', 'a', '0', '{', '\u{200b}', '\u{feff}'] {
        assert_eq!(is_space_char(c), c.is_whitespace());
    }
}

#[test]
fn decimal_notation() {
    assert_eq!(decimal_chars(0), chars("0"));
    assert_eq!(decimal_chars(7), chars("7"));
    assert_eq!(decimal_chars(10), chars("10"));
    assert_eq!(decimal_chars(48000), chars("48000"));
    assert_eq!(decimal_chars(usize::MAX), chars(&usize::MAX.to_string()));
}

#[test]
fn placeholder_substitution() {
    let by = chars("48000");
    assert_eq!(substitute_chars(&chars("-r{R}"), &by), chars("-r48000"));
    assert_eq!(substitute_chars(&chars("{R}:{R}"), &by), chars("48000:48000"));
    assert_eq!(substitute_chars(&chars("{{R}}"), &by), chars("{48000}"));
    assert_eq!(substitute_chars(&chars("{R"), &by), chars("{R"));
    assert_eq!(substitute_chars(&chars("plain"), &by), chars("plain"));
    assert_eq!(substitute_chars(&chars(""), &by), chars(""));
}

#[test]
fn args_with_rate_put_in() {
    let cfg = CmdCfg::new("alsaloop".to_string(), vec!["-r".to_string(), "{R}".to_string(), "--x={R}Hz".to_string()]);
    assert_eq!(cfg.program(), "alsaloop");
    assert_eq!(cfg.args_for_rate(48000), vec!["-r", "48000", "--x=48000Hz"]);
    assert_eq!(cfg.args_for_rate(96000), vec!["-r", "96000", "--x=96000Hz"]);
}
