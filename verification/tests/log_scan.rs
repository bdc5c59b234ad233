use agy_acp::log_run::{log_tail_start, LogScan, ScanReport};
use agy_acp::log_scan::{
    decide_turn_error, extract_agy_error_message, is_agy_cli_log, log_candidates, output_text,
    has_grown, should_scan_logs, snapshot_agy_logs, truncate_to_byte_boundary, LogFile, LogTime,
    MAX_LOG_SCAN_BYTES,
};
use agy_acp::table::Table;

const QUOTA_LOG: &str = "\
I0707 08:34:18.847769  84 http_helpers.go:208] URL: .../streamGenerateContent?alt=sse\n\
I0707 08:34:20.615268  84 log.go:398] RESOURCE_EXHAUSTED (code 429): Individual quota reached. Please upgrade your subscription to increase your limits. Resets in 40h52m50s.: RESOURCE_EXHAUSTED (code 429): Individual quota reached. Please upgrade your subscription to increase your limits. Resets in 40h52m50s.\n\
E0707 08:34:23.910604  84 log.go:398] agent executor error: model unreachable: RESOURCE_EXHAUSTED (code 429): Individual quota reached. Please upgrade your subscription to increase your limits. Resets in 40h52m46s.: RESOURCE_EXHAUSTED (code 429): Individual quota reached. Please upgrade your subscription to increase your limits. Resets in 40h52m46s.\n";

/// A log in memory: its name, when it was last written to, and its content.
struct Log {
    name: &'static str,
    modified: LogTime,
    content: String,
}

fn at(secs: i64, millis: u32) -> LogTime {
    LogTime { secs, nanos: millis * 1_000_000 }
}

fn log(name: &'static str, modified: LogTime, content: &str) -> Log {
    Log { name, modified, content: content.to_string() }
}

fn files(logs: &[Log]) -> Vec<LogFile> {
    logs.iter()
        .map(|l| LogFile {
            name: l.name.to_string(),
            len: l.content.len() as u64,
            modified: Some(l.modified),
        })
        .collect()
}

/// The bytes of `content` that a read of at most `limit` bytes from `start` gives.
fn read(content: &str, start: u64, limit: u64) -> Vec<u8> {
    let bytes = content.as_bytes();
    let from = (start as usize).min(bytes.len());
    let to = (from + limit as usize).min(bytes.len());
    bytes[from..to].to_vec()
}

fn detect(logs: &[Log], before: &Table<u64>, spawn_time: LogTime) -> Option<String> {
    let mut scan = LogScan::new(log_candidates(&files(logs), before, spawn_time));
    while let Some(due) = scan.next_read() {
        let l = logs.iter().find(|l| l.name == due.name).unwrap();
        scan.record(Some(&read(&l.content, due.start, due.limit)));
    }
    scan.found()
}

#[test]
fn test_extract_agy_error_message_dewraps_quota_error() {
    let msg = extract_agy_error_message(QUOTA_LOG).expect("should detect quota error");
    assert!(msg.starts_with("agent executor error:"), "got: {msg}");
    assert!(msg.contains("Individual quota reached"), "got: {msg}");
    assert!(msg.contains("Resets in 40h52m46s"), "got: {msg}");
    assert!(!msg.contains(".: "), "duplicate tail not stripped: {msg}");
}

#[test]
fn extract_gives_the_exact_quota_error() {
    assert_eq!(
        extract_agy_error_message(QUOTA_LOG).as_deref(),
        Some(
            "agent executor error: model unreachable: RESOURCE_EXHAUSTED (code 429): Individual \
             quota reached. Please upgrade your subscription to increase your limits. Resets in \
             40h52m46s."
        )
    );
}

#[test]
fn test_extract_agy_error_message_none_for_clean_log() {
    let clean = "I0707 08:34:15.727406  84 printmode.go:225] Print mode: silent auth succeeded\n\
                     I0707 08:34:15.871543  84 server.go:825] Created conversation abc\n";
    assert_eq!(extract_agy_error_message(clean), None);
}

#[test]
fn test_extract_agy_error_message_truncates_on_char_boundary() {
    let line = format!(
        "E0707 08:34:23.910604  84 log.go:398] RESOURCE_EXHAUSTED {}",
        "é".repeat(400)
    );
    let msg = extract_agy_error_message(&line).expect("should detect anchored error");
    assert!(msg.starts_with("RESOURCE_EXHAUSTED"), "got: {msg}");
    assert!(msg.len() <= 500, "not capped: {} bytes", msg.len());
    assert!(std::str::from_utf8(msg.as_bytes()).is_ok());
}

#[test]
fn the_cap_falls_back_to_the_character_before_it() {
    let line = format!("RESOURCE_EXHAUSTED {}", "é".repeat(400));
    let msg = extract_agy_error_message(&line).unwrap();
    // 19 bytes of ASCII leave room for 240 characters of two bytes each.
    assert_eq!(msg, format!("RESOURCE_EXHAUSTED {}", "é".repeat(240)));
    assert_eq!(msg.len(), 499);
}

#[test]
fn the_most_specific_anchor_wins_over_a_later_line() {
    let content = "E1 agent executor error: first\nE2 model unreachable: second\n";
    assert_eq!(
        extract_agy_error_message(content).as_deref(),
        Some("agent executor error: first")
    );
}

#[test]
fn the_last_line_of_an_anchor_wins() {
    let content = "E1 model unreachable: try 1\r\nE2 model unreachable: try 2  \r\nI3 done\r\n";
    assert_eq!(
        extract_agy_error_message(content).as_deref(),
        Some("model unreachable: try 2")
    );
}

#[test]
fn an_error_without_a_wrapped_tail_is_left_alone() {
    assert_eq!(
        extract_agy_error_message("x RESOURCE_EXHAUSTED: a. b: c.:d").as_deref(),
        Some("RESOURCE_EXHAUSTED: a. b: c.:d")
    );
    assert_eq!(extract_agy_error_message(""), None);
}

#[test]
fn truncation_keeps_what_fits() {
    let cases = [
        ("abc", 3, "abc"),
        ("abc", 2, "ab"),
        ("aé", 2, "a"),
        ("aé", 3, "aé"),
        ("日本", 5, "日"),
        ("😀", 3, ""),
        ("", 0, ""),
    ];
    for (text, max, expected) in cases {
        let mut s = text.to_string();
        truncate_to_byte_boundary(&mut s, max);
        assert_eq!(s, expected);
    }
}

#[test]
fn test_detect_swallowed_agy_error_reads_new_turn_log() {
    let spawn_time = at(100, 0);
    let logs = [log("cli-20260707_083407.log", at(100, 5), QUOTA_LOG)];
    let empty = Table::new();
    let detected = detect(&logs, &empty, spawn_time);
    assert!(detected.is_some(), "should detect error in fresh log");
    assert!(detected.unwrap().contains("Individual quota reached"));
}

#[test]
fn test_detect_swallowed_agy_error_none_when_no_logs() {
    let empty = Table::new();
    assert_eq!(detect(&[], &empty, at(100, 0)), None);
}

#[test]
fn test_detect_swallowed_agy_error_ignores_pre_existing_error() {
    let mut logs = [log("cli-20260707_083407.log", at(100, 0), QUOTA_LOG)];
    let snapshot = snapshot_agy_logs(&files(&logs));
    let spawn_time = at(100, 10);
    logs[0].content.push_str("I0707 09:00:00.000000  84 server.go:825] turn ok\n");
    logs[0].modified = at(100, 20);
    assert_eq!(
        detect(&logs, &snapshot, spawn_time),
        None,
        "pre-existing error before the snapshot offset must not be surfaced"
    );
}

#[test]
fn test_detect_swallowed_agy_error_reads_only_appended_bytes() {
    let mut logs = [log(
        "cli-20260707_083407.log",
        at(100, 0),
        "I0707 08:00:00.000000  84 server.go:825] Created conversation abc\n",
    )];
    let snapshot = snapshot_agy_logs(&files(&logs));
    let spawn_time = at(100, 10);
    logs[0].content.push_str(QUOTA_LOG);
    logs[0].modified = at(100, 20);
    let detected = detect(&logs, &snapshot, spawn_time);
    assert!(detected.is_some(), "should detect error appended this turn");
    assert!(detected.unwrap().contains("Individual quota reached"));
}

#[test]
fn test_detect_swallowed_agy_error_excludes_log_grown_before_spawn_time() {
    let empty_snapshot = snapshot_agy_logs(&files(&[]));
    let logs = [
        log("cli-20260707_083000.log", at(100, 0), QUOTA_LOG),
        log(
            "cli-20260707_083500.log",
            at(102, 200),
            "I0707 08:35:00.000000  84 server.go:825] turn ok\n",
        ),
    ];
    let detected = detect(&logs, &empty_snapshot, at(101, 100));
    assert_eq!(
        detected, None,
        "a log that finished growing before this turn's spawn_time must not be surfaced"
    );
}

#[test]
fn test_detect_swallowed_agy_error_tolerates_mtime_just_before_spawn_time() {
    let empty = Table::new();
    let logs = [log("cli-20260707_083407.log", at(100, 0), QUOTA_LOG)];
    let detected = detect(&logs, &empty, at(100, 300));
    assert!(
        detected.is_some(),
        "a log within the 1s tolerance window must still be surfaced, not excluded as stale"
    );
}

#[test]
fn test_detect_swallowed_agy_error_scans_all_grown_candidates_regardless_of_position() {
    let empty = Table::new();
    let spawn_time = at(100, 0);
    let logs = [
        log("cli-a-oldest.log", at(100, 0), QUOTA_LOG),
        log("cli-b.log", at(101, 100), "I0707 08:30:00.000000  84 server.go:825] turn ok\n"),
        log("cli-c.log", at(102, 200), "I0707 08:31:00.000000  84 server.go:825] turn ok\n"),
        log("cli-d-newest.log", at(103, 300), "I0707 08:32:00.000000  84 server.go:825] turn ok\n"),
    ];
    let detected = detect(&logs, &empty, spawn_time);
    assert!(
        detected.is_some(),
        "error in the oldest of 4 grown logs must still be found; there is no cap on candidates scanned"
    );
}

#[test]
fn test_read_log_tail_starts_at_offset_when_offset_is_more_restrictive() {
    let earlier_turn_prefix = "I0707 08:00:00.000000  84 server.go:825] earlier turn content\n";
    let content = format!("{earlier_turn_prefix}{QUOTA_LOG}");
    let len = content.len() as u64;
    let offset = earlier_turn_prefix.len() as u64;
    assert!(len < MAX_LOG_SCAN_BYTES, "fixture must stay under the cap");
    let tail = output_text(&read(&content, log_tail_start(offset, len), MAX_LOG_SCAN_BYTES));
    assert!(
        !tail.contains("earlier turn content"),
        "must not include bytes before offset: {tail}"
    );
    assert!(
        tail.starts_with("I0707 08:34"),
        "must start exactly at offset, got: {tail}"
    );
}

#[test]
fn test_read_log_tail_caps_read_when_offset_is_less_restrictive() {
    let prefix = "x".repeat((MAX_LOG_SCAN_BYTES as usize) + 1000);
    let content = format!("{prefix}{QUOTA_LOG}");
    let len = content.len() as u64;
    let tail = output_text(&read(&content, log_tail_start(0, len), MAX_LOG_SCAN_BYTES));
    assert!(
        tail.contains("Individual quota reached"),
        "should reach the error past the filler prefix"
    );
    assert!(
        tail.len() as u64 <= MAX_LOG_SCAN_BYTES,
        "must not exceed the cap"
    );
}

#[test]
fn the_tail_starts_where_both_bounds_allow() {
    assert_eq!(MAX_LOG_SCAN_BYTES, 262_144);
    assert_eq!(log_tail_start(0, 262_144), 0);
    assert_eq!(log_tail_start(0, 262_145), 1);
    assert_eq!(log_tail_start(7, 262_145), 7);
    assert_eq!(log_tail_start(0, 10), 0);
}

#[test]
fn test_decide_turn_error_cancelled_never_surfaces() {
    assert_eq!(
        decide_turn_error(true, false, false, "exit 1", "boom", Some("swallowed")),
        None
    );
}

#[test]
fn test_decide_turn_error_had_updates_never_surfaces() {
    assert_eq!(
        decide_turn_error(false, false, true, "exit 1", "boom", Some("swallowed")),
        None
    );
}

#[test]
fn test_decide_turn_error_nonzero_exit_uses_stderr() {
    let (code, msg) =
        decide_turn_error(false, false, false, "exit status: 1", "boom", None).unwrap();
    assert_eq!(code, -32000);
    assert!(msg.contains("boom"));
}

#[test]
fn test_decide_turn_error_nonzero_exit_falls_back_to_status_when_stderr_empty() {
    let (code, msg) = decide_turn_error(false, false, false, "exit status: 1", "", None).unwrap();
    assert_eq!(code, -32000);
    assert!(msg.contains("exit status: 1"));
}

#[test]
fn test_decide_turn_error_success_with_swallowed_error_surfaces_32603() {
    let (code, msg) = decide_turn_error(
        false,
        true,
        false,
        "exit status: 0",
        "",
        Some("quota exhausted"),
    )
    .unwrap();
    assert_eq!(code, -32603);
    assert_eq!(msg, "quota exhausted");
}

#[test]
fn test_decide_turn_error_success_no_swallowed_error_falls_through() {
    assert_eq!(
        decide_turn_error(false, true, false, "exit status: 0", "", None),
        None
    );
}

#[test]
fn the_messages_of_a_failed_turn_are_exact() {
    assert_eq!(
        decide_turn_error(false, false, false, "exit status: 1", "boom \n\n", Some("x")),
        Some((-32000, "agy failed: boom".to_string()))
    );
    assert_eq!(
        decide_turn_error(false, false, false, "exit status: 1", "", Some("x")),
        Some((-32000, "agy exited with status: exit status: 1".to_string()))
    );
    // White space counts as something that was said.
    assert_eq!(
        decide_turn_error(false, false, false, "exit status: 1", " \n", None),
        Some((-32000, "agy failed: ".to_string()))
    );
}

#[test]
fn logs_are_scanned_only_after_an_empty_success() {
    assert!(should_scan_logs(false, true, false));
    assert!(!should_scan_logs(true, true, false));
    assert!(!should_scan_logs(false, false, false));
    assert!(!should_scan_logs(false, true, true));
}

#[test]
fn only_command_line_logs_count() {
    assert!(is_agy_cli_log("cli-20260707_083407.log"));
    assert!(is_agy_cli_log("cli-.log"));
    assert!(!is_agy_cli_log("cli-.log.gz"));
    assert!(!is_agy_cli_log("xcli-1.log"));
    assert!(!is_agy_cli_log("cli.log"));

    let sizes = snapshot_agy_logs(&vec![
        LogFile { name: "cli-1.log".to_string(), len: 7, modified: None },
        LogFile { name: "server.log".to_string(), len: 9, modified: None },
    ]);
    assert_eq!(sizes.len(), 1);
    assert_eq!(sizes.get("cli-1.log"), Some(&7));
    assert_eq!(sizes.get("server.log"), None);
}

#[test]
fn candidates_come_newest_first_and_keep_their_order_at_one_time() {
    let mut grown = files(&[
        log("cli-1.log", at(101, 0), "a"),
        log("cli-2.log", at(103, 0), "b"),
        log("cli-3.log", at(101, 0), "c"),
        log("cli-4.log", at(102, 0), "d"),
        log("other.log", at(104, 0), "e"),
    ]);
    // Without a time a log is no candidate.
    grown.push(LogFile { name: "cli-5.log".to_string(), len: 5, modified: None });
    let names: Vec<String> = log_candidates(&grown, &Table::new(), at(100, 0))
        .into_iter()
        .map(|c| c.name)
        .collect();
    assert_eq!(names, ["cli-2.log", "cli-4.log", "cli-1.log", "cli-3.log"]);
}

#[test]
fn the_tolerance_is_one_second_to_the_nanosecond() {
    let spawn_time = LogTime { secs: 100, nanos: 1 };
    let logs = [
        log("cli-kept.log", at(99, 0), QUOTA_LOG),
        log("cli-stale.log", at(98, 999), QUOTA_LOG),
    ];
    let candidates = log_candidates(&files(&logs), &Table::new(), LogTime { secs: 100, nanos: 0 });
    assert_eq!(candidates.len(), 1);
    assert_eq!(candidates[0].name, "cli-kept.log");
    assert!(log_candidates(&files(&logs), &Table::new(), spawn_time).is_empty());
}

#[test]
fn a_log_that_has_not_grown_is_no_candidate() {
    let logs = [log("cli-1.log", at(100, 0), "abc")];
    let mut sizes: Table<u64> = Table::new();
    sizes.insert("cli-1.log".to_string(), 3);
    assert!(log_candidates(&files(&logs), &sizes, at(100, 0)).is_empty());
    sizes.insert("cli-1.log".to_string(), 2);
    let grown = log_candidates(&files(&logs), &sizes, at(100, 0));
    assert_eq!((grown[0].offset, grown[0].len), (2, 3));
    let file = |name: &str, len| LogFile { name: name.to_string(), len, modified: None };
    assert!(has_grown(&file("cli-1.log", 3), &sizes));
    assert!(!has_grown(&file("cli-1.log", 2), &sizes));
    assert!(has_grown(&file("cli-2.log", 1), &sizes));
    assert!(!has_grown(&file("cli-2.log", 0), &sizes));
    assert!(!has_grown(&file("server.log", 9), &sizes));
}

#[test]
fn the_scan_goes_on_after_a_failed_read_and_stops_at_the_first_error() {
    let logs = [
        log("cli-1.log", at(103, 0), "x"),
        log("cli-2.log", at(102, 0), "x"),
        log("cli-3.log", at(101, 0), "x"),
    ];
    let mut scan = LogScan::new(log_candidates(&files(&logs), &Table::new(), at(100, 0)));
    assert_eq!(scan.next_read().unwrap().name, "cli-1.log");
    scan.record(None);
    assert_eq!(scan.next_read().unwrap().name, "cli-2.log");
    scan.record_text(Some("E model unreachable: gone"));
    assert!(scan.next_read().is_none());
    assert_eq!(scan.found().as_deref(), Some("model unreachable: gone"));
    assert_eq!(scan.report(), ScanReport::Quiet);
}

#[test]
fn a_scan_without_a_find_says_why() {
    let logs = [log("cli-1.log", at(100, 0), "x"), log("cli-2.log", at(100, 0), "x")];
    let mut scan = LogScan::new(log_candidates(&files(&logs), &Table::new(), at(100, 0)));
    scan.record(Some(b"turn ok\n"));
    scan.record(Some(b"turn ok\n"));
    assert_eq!(scan.report(), ScanReport::NoAnchor { scanned: 2 });

    let mut scan = LogScan::new(log_candidates(&files(&logs), &Table::new(), at(100, 0)));
    scan.record(Some(b"turn ok\n"));
    scan.record(None);
    assert_eq!(scan.report(), ScanReport::Unreadable { failures: 1, scanned: 2 });

    assert_eq!(LogScan::new(Vec::new()).report(), ScanReport::Quiet);
}

#[test]
fn bytes_that_are_no_utf8_are_replaced() {
    assert_eq!(output_text("é".as_bytes()), "é");
    assert_eq!(output_text(&[b'a', 0xff, b'b']), "a\u{fffd}b");
    let logs = [log("cli-1.log", at(100, 0), "x")];
    let mut scan = LogScan::new(log_candidates(&files(&logs), &Table::new(), at(100, 0)));
    scan.record(Some(b"\xffE RESOURCE_EXHAUSTED \xff end"));
    assert_eq!(scan.found().as_deref(), Some("RESOURCE_EXHAUSTED \u{fffd} end"));
}
