use ai_mergetool::MergeLogger;
use ai_mergetool::event_log_filename;
use ai_mergetool::fresh_event_log_filename;
use ai_mergetool::sanitize_filepath;

#[test]
fn sanitize_basic() {
    assert_eq!(sanitize_filepath("src/lib.rs"), "src_lib.rs");
}

#[test]
fn sanitize_backslash_and_spaces() {
    assert_eq!(
        sanitize_filepath("path\\to my\\file.rs"),
        "path_to_my_file.rs"
    );
}

#[test]
fn sanitize_already_clean() {
    assert_eq!(sanitize_filepath("README.md"), "README.md");
}

#[test]
fn sanitize_empty() {
    assert_eq!(sanitize_filepath(""), "");
}

#[test]
fn event_log_filename_with_label() {
    assert_eq!(
        event_log_filename("2024-01-01T00-00-00", Some("src/lib.rs")),
        "2024-01-01T00-00-00_src_lib.rs.jsonl"
    );
}

#[test]
fn event_log_filename_without_label() {
    assert_eq!(
        event_log_filename("2024-01-01T00-00-00", None),
        "2024-01-01T00-00-00_unknown.jsonl"
    );
}

#[test]
fn fresh_filename_has_timestamp_and_extension() {
    let name = fresh_event_log_filename(Some("a/b.rs"));
    assert!(name.ends_with("_a_b.rs.jsonl"));
    // The timestamp part is non-empty.
    assert!(name.len() > "_a_b.rs.jsonl".len());
}

#[test]
fn logger_fully_disabled_without_directory() {
    // A run whose log directory cannot be created starts with both sinks
    // disabled; logging is then a no-op and never errors.
    let mut logger = MergeLogger::new(false, false);
    assert!(!logger.event_sink_open);
    assert!(!logger.summary_sink_enabled);
    assert!(!logger.log_event(true));
    assert!(!logger.log_summary(true));
    assert!(!logger.event_sink_open);
    assert!(!logger.summary_sink_enabled);
}

#[test]
fn logger_event_sink_disables_on_failure() {
    let mut logger = MergeLogger::new(true, true);
    assert!(logger.log_event(true));
    assert!(logger.event_sink_open);
    // One failed write disables the event sink for the rest of the run.
    assert!(logger.log_event(false));
    assert!(!logger.event_sink_open);
    assert!(!logger.log_event(true));
    // The summary sink is unaffected.
    assert!(logger.summary_sink_enabled);
}

#[test]
fn logger_summary_sink_retries_after_failure() {
    let mut logger = MergeLogger::new(true, false);
    // The event file failed to open, the summary path is still usable.
    assert!(!logger.event_sink_open);
    assert!(logger.log_summary(false));
    // A summary failure does not disable future attempts.
    assert!(logger.log_summary(true));
    assert!(logger.summary_sink_enabled);
}

#[test]
fn disabled_event_sink_is_noop() {
    let mut logger = MergeLogger::new(true, false);
    let before_event = logger.event_sink_open;
    let before_summary = logger.summary_sink_enabled;
    assert!(!logger.log_event(false));
    assert_eq!(logger.event_sink_open, before_event);
    assert_eq!(logger.summary_sink_enabled, before_summary);
}
