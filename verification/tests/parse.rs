use toby::{parse_command, Command};

fn kv_lookup(cmd: &Command, key: &str) -> Option<String> {
    cmd.kv.iter().find(|p| p.0 == key).map(|p| p.1.clone())
}

fn args(cmd: &Command) -> Vec<&str> {
    cmd.short_args.iter().map(|a| a.as_str()).collect()
}

#[test]
fn whitespace_tolerance() {
    let cmd = parse_command("  /go a b\n- x: 1\r\n").unwrap();
    assert_eq!(cmd.name, "go");
    assert_eq!(args(&cmd), vec!["a", "b"]);
    assert_eq!(cmd.kv.len(), 1);
    assert_eq!(kv_lookup(&cmd, "x"), Some("1".to_string()));
}

#[test]
fn malformed_body_line_is_dropped() {
    let cmd = parse_command("/go\n- novalue\n- y: 2\n").unwrap();
    assert_eq!(cmd.name, "go");
    assert!(cmd.short_args.is_empty());
    assert_eq!(cmd.kv.len(), 1);
    assert_eq!(kv_lookup(&cmd, "y"), Some("2".to_string()));
    assert_eq!(kv_lookup(&cmd, "novalue"), None);
}

#[test]
fn empty_value_is_kept() {
    let cmd = parse_command("/go\n- k:\n").unwrap();
    assert_eq!(cmd.kv.len(), 1);
    assert_eq!(kv_lookup(&cmd, "k"), Some("".to_string()));
}

#[test]
fn non_command_text_is_none() {
    assert!(parse_command("hello world").is_none());
}

#[test]
fn two_commands_are_none() {
    assert!(parse_command("/a\n/b\n").is_none());
}

#[test]
fn two_commands_with_bodies_are_none() {
    assert!(parse_command("/a\n- k: v\n/b\n- j: w\n").is_none());
}

#[test]
fn last_write_wins() {
    let cmd = parse_command("/go\n- k: v1\n- k: v2\n").unwrap();
    assert_eq!(cmd.kv.len(), 1);
    assert_eq!(kv_lookup(&cmd, "k"), Some("v2".to_string()));
}

#[test]
fn short_args_round_trip() {
    let cmd = parse_command("/n a b c\n").unwrap();
    assert_eq!(cmd.name, "n");
    assert_eq!(args(&cmd), vec!["a", "b", "c"]);
    assert!(cmd.kv.is_empty());
}

#[test]
fn reparse_is_equal() {
    let input = "  /go a b\n- x: 1\n- novalue\n";
    let one = parse_command(input).unwrap();
    let two = parse_command(input).unwrap();
    assert_eq!(one.name, two.name);
    assert_eq!(one.short_args, two.short_args);
    assert_eq!(one.kv, two.kv);
}

#[test]
fn empty_and_blank_inputs_are_none() {
    assert!(parse_command("").is_none());
    assert!(parse_command("   \n\t\n").is_none());
}

#[test]
fn unterminated_command_line_is_none() {
    assert!(parse_command("/go").is_none());
    assert!(parse_command("/go a b").is_none());
}

#[test]
fn leading_indentation_is_tolerated() {
    let cmd = parse_command("\t  /go\n").unwrap();
    assert_eq!(cmd.name, "go");
    assert!(cmd.short_args.is_empty());
    assert!(cmd.kv.is_empty());
}

#[test]
fn extra_dashes_are_stripped() {
    let cmd = parse_command("/go\n-- k: v\n").unwrap();
    assert_eq!(kv_lookup(&cmd, "k"), Some("v".to_string()));
    let cmd = parse_command("/go\n---key:value\n").unwrap();
    assert_eq!(kv_lookup(&cmd, "key"), Some("value".to_string()));
}

#[test]
fn dash_without_space_still_reads() {
    let cmd = parse_command("/go\n-k: v\n").unwrap();
    assert_eq!(kv_lookup(&cmd, "k"), Some("v".to_string()));
}

#[test]
fn bare_dash_line_is_dropped_but_keeps_the_block_going() {
    let cmd = parse_command("/go\n- a: 1\n-\n- b: 2\n").unwrap();
    assert_eq!(cmd.kv.len(), 2);
    assert_eq!(kv_lookup(&cmd, "a"), Some("1".to_string()));
    assert_eq!(kv_lookup(&cmd, "b"), Some("2".to_string()));
}

#[test]
fn unicode_whitespace_separates_short_args() {
    let cmd = parse_command("/go\u{a0}x\u{3000}y\n").unwrap();
    assert_eq!(cmd.name, "go");
    assert_eq!(args(&cmd), vec!["x", "y"]);
}

#[test]
fn key_and_value_are_trimmed() {
    let cmd = parse_command("/go\n-   k :  v \n").unwrap();
    assert_eq!(cmd.kv.len(), 1);
    assert_eq!(kv_lookup(&cmd, "k"), Some("v".to_string()));
}

#[test]
fn body_block_stops_at_first_non_body_line() {
    let cmd = parse_command("/go\n- a: 1\nplain\n- b: 2\n").unwrap();
    assert_eq!(cmd.kv.len(), 1);
    assert_eq!(kv_lookup(&cmd, "a"), Some("1".to_string()));
    assert_eq!(kv_lookup(&cmd, "b"), None);
}

#[test]
fn blank_line_ends_the_body_block() {
    let cmd = parse_command("/go\n\n- k: v\n").unwrap();
    assert!(cmd.kv.is_empty());
}

#[test]
fn name_keeps_case_digits_hyphens_and_underscores() {
    let cmd = parse_command("/Go-x_1 T\n").unwrap();
    assert_eq!(cmd.name, "Go-x_1");
    assert_eq!(args(&cmd), vec!["T"]);
}

#[test]
fn name_may_continue_with_unicode_word_characters() {
    let cmd = parse_command("/gö x y z\n").unwrap();
    assert_eq!(cmd.name, "gö");
    assert_eq!(args(&cmd), vec!["x", "y", "z"]);
    let cmd = parse_command("/cafe\u{301} 1\n").unwrap();
    assert_eq!(cmd.name, "cafe\u{301}");
    assert_eq!(args(&cmd), vec!["1"]);
}

#[test]
fn slash_not_at_line_start_is_no_command() {
    assert!(parse_command("say /go\n").is_none());
    let cmd = parse_command("/a x\nfoo /b\n").unwrap();
    assert_eq!(cmd.name, "a");
}

#[test]
fn command_line_may_sit_between_plain_text() {
    let cmd = parse_command("hello\n/go x\nworld\n").unwrap();
    assert_eq!(cmd.name, "go");
    assert_eq!(args(&cmd), vec!["x"]);
    assert!(cmd.kv.is_empty());
}

#[test]
fn crlf_is_tolerated_everywhere() {
    let cmd = parse_command("/go a\r\n- k: v\r\n").unwrap();
    assert_eq!(cmd.name, "go");
    assert_eq!(args(&cmd), vec!["a"]);
    assert_eq!(kv_lookup(&cmd, "k"), Some("v".to_string()));
}

#[test]
fn empty_key_is_dropped() {
    let cmd = parse_command("/go\n- : v\n").unwrap();
    assert!(cmd.kv.is_empty());
}

#[test]
fn value_keeps_later_colons() {
    let cmd = parse_command("/go\n- k: a:b\n").unwrap();
    assert_eq!(kv_lookup(&cmd, "k"), Some("a:b".to_string()));
}

#[test]
fn kv_get_finds_present_keys_only() {
    let cmd = parse_command("/go\n- a: 1\n- b: 2\n").unwrap();
    assert_eq!(cmd.kv_get(&"a".to_string()), Some(&"1".to_string()));
    assert_eq!(cmd.kv_get(&"b".to_string()), Some(&"2".to_string()));
    assert_eq!(cmd.kv_get(&"c".to_string()), None);
}

#[test]
fn whitespace_only_short_args_segment_is_empty() {
    let cmd = parse_command("/go   \t \n").unwrap();
    assert_eq!(cmd.name, "go");
    assert!(cmd.short_args.is_empty());
}
