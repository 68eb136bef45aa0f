use mirror_watch::diff::diff_outcome;
use mirror_watch::diff::has_prefix;
use mirror_watch::diff::only_in_prefix;
use mirror_watch::diff::split_lines;
use mirror_watch::diff::DiffLog;
use mirror_watch::diff::DiffReport;

#[test]
fn split_keeps_every_field() {
    assert_eq!(split_lines(""), vec![String::new()]);
    assert_eq!(split_lines("one"), vec![String::from("one")]);
    assert_eq!(
        split_lines("one\ntwo"),
        vec![String::from("one"), String::from("two")]
    );
    assert_eq!(
        split_lines("one\ntwo\n"),
        vec![String::from("one"), String::from("two"), String::new()]
    );
    assert_eq!(
        split_lines("\n\n"),
        vec![String::new(), String::new(), String::new()]
    );
}

#[test]
fn prefix_check_is_exact() {
    assert!(has_prefix("Only in source: a.txt", "Only in source"));
    assert!(has_prefix("abc", ""));
    assert!(has_prefix("abc", "abc"));
    assert!(!has_prefix("ab", "abc"));
    assert!(!has_prefix("Only on source", "Only in"));
    assert!(!has_prefix("xOnly in source", "Only in"));
}

#[test]
fn marker_names_the_source_tree() {
    assert_eq!(only_in_prefix("source"), "Only in source");
}

#[test]
fn report_keeps_only_source_side_lines() {
    // Before a sync, source holds a.txt and target holds b.txt: the
    // comparison reports one path on each side, and only the source-side
    // line belongs in the report.
    let output = "Only in source: a.txt\nOnly in target: b.txt\n";
    let report = DiffReport::from_diff_output("source", output);
    assert_eq!(report.lines, vec![String::from("Only in source: a.txt")]);
}

#[test]
fn report_after_successful_sync_is_empty() {
    // After a successful forward pass both trees agree, the comparison
    // prints nothing, and the report is empty.
    let report = DiffReport::from_diff_output("source", "");
    assert!(report.lines.is_empty());
    assert_eq!(report.render(), "");
}

#[test]
fn report_orders_paths_as_reported() {
    let output = "Only in source: a.txt\nFiles source/c.txt and target/c.txt differ\nOnly in source/sub: b.txt\n";
    let report = DiffReport::from_diff_output("source", output);
    assert_eq!(
        report.lines,
        vec![
            String::from("Only in source: a.txt"),
            String::from("Only in source/sub: b.txt"),
        ]
    );
    assert_eq!(
        report.render(),
        "Only in source: a.txt\nOnly in source/sub: b.txt\n"
    );
}

#[test]
fn log_holds_only_the_second_report() {
    // The log is recomputed, not appended: after two writes only the
    // second report's paths remain.
    let first = DiffReport::from_diff_output("source", "Only in source: a.txt\n");
    let second = DiffReport::from_diff_output("source", "Only in source: z.txt\n");
    let mut log = DiffLog::new();
    log.write_report(&first);
    assert_eq!(log.contents(), "Only in source: a.txt\n");
    log.write_report(&second);
    assert_eq!(log.contents(), "Only in source: z.txt\n");
    assert!(!log.contents().contains("a.txt"));
}

#[test]
fn empty_report_clears_the_log() {
    let first = DiffReport::from_diff_output("source", "Only in source: a.txt\n");
    let empty = DiffReport::from_diff_output("source", "");
    let mut log = DiffLog::new();
    log.write_report(&first);
    log.write_report(&empty);
    assert_eq!(log.contents(), "");
}

#[test]
fn comparison_exit_statuses() {
    assert!(diff_outcome(0, "").is_ok());
    assert!(diff_outcome(1, "").is_ok());
    let error = diff_outcome(2, "diff: no such directory").expect_err("trouble status");
    assert_eq!(error.exit_status, 2);
    assert_eq!(error.stderr, "diff: no such directory");
}
