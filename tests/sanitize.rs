use claw_pen::sanitize::sanitize_error_message;

#[test]
fn test_sanitize_error_message() {
    let error = "Failed to read /data/claw-pen/secrets/api.key: permission denied";
    let sanitized = sanitize_error_message(error);
    assert!(!sanitized.contains("/data/claw-pen/secrets"));
    assert!(sanitized.contains("[PATH]"));
}

#[test]
fn paths_stop_at_whitespace_and_quotes() {
    assert_eq!(
        sanitize_error_message("open '/etc/passwd' failed"),
        "open '[PATH]' failed"
    );
    assert_eq!(sanitize_error_message("at /home/u/x\tand /usr/bin"), "at [PATH]\tand [PATH]");
    assert_eq!(sanitize_error_message("no paths here"), "no paths here");
    assert_eq!(sanitize_error_message("drive C:\\Users\\me ok"), "drive [PATH] ok");
}

#[test]
fn ids_and_addresses_are_masked() {
    let id = "a".repeat(64);
    assert_eq!(
        sanitize_error_message(&format!("container {} at 10.0.0.12 down", id)),
        "container [ID] at [IP] down"
    );
    let short = "abc123";
    assert_eq!(sanitize_error_message(short), short);
}

#[test]
fn long_messages_are_cut() {
    let long = "x".repeat(600);
    let s = sanitize_error_message(&long);
    assert_eq!(s.len(), 503);
    assert!(s.ends_with("..."));
    let exact = "y".repeat(500);
    assert_eq!(sanitize_error_message(&exact), exact);
    let wide = format!("{}{}", "z".repeat(499), "é".repeat(10));
    let cut = sanitize_error_message(&wide);
    assert_eq!(cut, format!("{}...", "z".repeat(499)));
}

#[test]
fn unicode_whitespace_ends_a_path() {
    assert_eq!(sanitize_error_message("at /opt/x\u{3000}then"), "at [PATH]\u{3000}then");
    assert_eq!(sanitize_error_message("at /opt/x\u{a0}then"), "at [PATH]\u{a0}then");
}

#[test]
fn only_the_leftmost_id_run_is_masked() {
    let run = format!("{}b", "a".repeat(64));
    assert_eq!(sanitize_error_message(&format!("x{}y", run)), "x[ID]by");
    let two = format!("{} {}", "c".repeat(64), "d".repeat(64));
    assert_eq!(sanitize_error_message(&two), format!("[ID] {}", "d".repeat(64)));
    assert_eq!(sanitize_error_message(&"A".repeat(64)), "A".repeat(64));
}
