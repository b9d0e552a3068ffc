use ai_mergetool::AssistantMessage;
use ai_mergetool::Event;
use ai_mergetool::EventWriter;
use ai_mergetool::ModelUsage;
use ai_mergetool::SuccessPayload;
use ai_mergetool::Usage;
use ai_mergetool::ContentBlock;
use ai_mergetool::ToolInput;
use ai_mergetool::annualized_rate;
use ai_mergetool::format_dollars;
use ai_mergetool::format_elapsed;
use ai_mergetool::format_tokens;
use ai_mergetool::redact;
use ai_mergetool::replace_all;
use ai_mergetool::strip_leading_newlines;

#[test]
fn tokens_boundaries() {
    assert_eq!(format_tokens(0), "0");
    assert_eq!(format_tokens(999), "999");
    assert_eq!(format_tokens(1000), "1.0k");
    assert_eq!(format_tokens(1500), "1.5k");
    assert_eq!(format_tokens(999999), "1000.0k");
    assert_eq!(format_tokens(1000000), "1.000m");
    assert_eq!(format_tokens(2345678), "2.346m");
}

#[test]
fn dollars_forms() {
    // Amounts are in ten-thousandths of a dollar.
    assert_eq!(format_dollars(100), "$0.0100");
    assert_eq!(format_dollars(12345), "$1.2345");
    assert_eq!(format_dollars(9999999), "$999.9999");
    assert_eq!(format_dollars(10000000), "$1.0k");
    assert_eq!(format_dollars(12345000), "$1.2k");
    assert_eq!(format_dollars(7200000000), "$720.0k");
}

#[test]
fn elapsed_forms() {
    assert_eq!(format_elapsed(0), "0ms");
    assert_eq!(format_elapsed(100), "100ms");
    assert_eq!(format_elapsed(999), "999ms");
    assert_eq!(format_elapsed(1234), "1.23s");
    assert_eq!(format_elapsed(59999), "60.00s");
    assert_eq!(format_elapsed(90500), "1m 30s 500ms");
}

#[test]
fn annualized_rate_formula() {
    // 0.01 dollars over 100 ms projects to 720,000 dollars per year.
    assert_eq!(annualized_rate(100, 100), 7200000000);
    // A zero duration yields a zero rate rather than a panic.
    assert_eq!(annualized_rate(100, 0), 0);
}

#[test]
fn replace_all_basic() {
    assert_eq!(replace_all("a/tmp/b/tmp", "/tmp", "$TMPDIR"), "a$TMPDIR/b$TMPDIR");
    assert_eq!(replace_all("abc", "x", "y"), "abc");
    assert_eq!(replace_all("abc", "", "y"), "abc");
}

#[test]
fn longest_prefix_collapses_once() {
    // With both a longer and a shorter prefix configured, longest first,
    // a path under the longer one reduces to the placeholder exactly
    // once, leaving no shorter-prefix remnant.
    let dirs = vec!["/tmp/sub".to_string(), "/tmp".to_string()];
    assert_eq!(redact("/tmp/sub/file", &dirs, "$TMPDIR"), "$TMPDIR/file");
    assert_eq!(redact("/tmp/other", &dirs, "$TMPDIR"), "$TMPDIR/other");
}

#[test]
fn strip_leading_newlines_exact() {
    assert_eq!(strip_leading_newlines("\n\nabc"), "abc");
    assert_eq!(strip_leading_newlines("abc"), "abc");
    assert_eq!(strip_leading_newlines("\n\n"), "");
    // Only newlines are stripped, not other whitespace.
    assert_eq!(strip_leading_newlines("\n  abc"), "  abc");
}

fn text_block(s: &str) -> ContentBlock {
    ContentBlock::Text {
        text: s.to_string(),
    }
}

#[test]
fn assistant_text_blocks_strip_only_before_first_output() {
    let mut writer = EventWriter::new("/nonexistent-tmpdir".to_string(), None);
    assert!(!writer.has_output);
    let event = Event::Assistant {
        message: AssistantMessage {
            content: vec![text_block("\n\nHello **world**"), text_block("\nmore")],
        },
    };
    let out = writer.display(&event);
    // The first block loses exactly its two leading newlines; the second
    // is rendered unmodified because output has occurred by then.
    let expected = format!(
        "{}{}",
        termimad::term_text("Hello **world**"),
        termimad::term_text("\nmore")
    );
    assert_eq!(out, expected);
    assert!(writer.has_output);
}

#[test]
fn assistant_empty_text_leaves_state_unchanged() {
    let mut writer = EventWriter::new("/nonexistent-tmpdir".to_string(), None);
    let event = Event::Assistant {
        message: AssistantMessage {
            content: vec![text_block("\n\n"), ContentBlock::Unknown],
        },
    };
    let out = writer.display(&event);
    assert_eq!(out, "");
    assert!(!writer.has_output);
}

#[test]
fn tool_use_read_renders_dimmed_redacted_line() {
    let mut writer = EventWriter::new("/tmp/abc".to_string(), None);
    let event = Event::Assistant {
        message: AssistantMessage {
            content: vec![ContentBlock::ToolUse {
                name: "Read".to_string(),
                input: ToolInput {
                    file_path: Some("/tmp/abc/left.txt".to_string()),
                },
            }],
        },
    };
    let out = writer.display(&event);
    assert_eq!(out, "\u{1b}[2m> Read $TMPDIR/left.txt\u{1b}[0m\n");
    assert!(writer.has_output);
}

#[test]
fn tool_use_other_renders_name_only() {
    let mut writer = EventWriter::new("/nonexistent-tmpdir".to_string(), None);
    let event = Event::Assistant {
        message: AssistantMessage {
            content: vec![ContentBlock::ToolUse {
                name: "Bash".to_string(),
                input: ToolInput { file_path: None },
            }],
        },
    };
    let out = writer.display(&event);
    assert_eq!(out, "\u{1b}[2m> Bash\u{1b}[0m\n");
}

#[test]
fn tool_use_missing_path_uses_placeholder() {
    let mut writer = EventWriter::new("/nonexistent-tmpdir".to_string(), None);
    let event = Event::Assistant {
        message: AssistantMessage {
            content: vec![ContentBlock::ToolUse {
                name: "Edit".to_string(),
                input: ToolInput { file_path: None },
            }],
        },
    };
    let out = writer.display(&event);
    assert_eq!(out, "\u{1b}[2m> Edit ?\u{1b}[0m\n");
}

fn success_payload() -> SuccessPayload {
    SuccessPayload {
        is_error: false,
        duration_ms: 100,
        api_duration_ms: 90,
        num_turns: 1,
        result: "ok".to_string(),
        total_cost_usd: 100,
        usage: Usage {
            input_tokens: 1,
            cache_creation_input_tokens: 0,
            cache_read_input_tokens: 0,
            output_tokens: 1,
        },
        model_usage: vec![],
    }
}

#[test]
fn result_renders_summary_line() {
    let mut writer = EventWriter::new("/nonexistent-tmpdir".to_string(), None);
    let event = Event::Result {
        result: success_payload(),
    };
    let out = writer.display(&event);
    assert_eq!(
        out,
        "\u{1b}[1m\u{1b}[32mFinished in 100ms (90ms API time). \
         Total cost: $0.0100 (Salary: $720.0k/yr)\u{1b}[39m\u{1b}[0m\n"
    );
    assert!(writer.has_output);
}

#[test]
fn result_renders_model_usage_lines() {
    let mut writer = EventWriter::new("/nonexistent-tmpdir".to_string(), None);
    let mut payload = success_payload();
    payload.model_usage = vec![(
        "model-x".to_string(),
        ModelUsage {
            input_tokens: 1500,
            output_tokens: 999,
            cache_read_input_tokens: 1000000,
            cache_creation_input_tokens: 0,
            web_search_requests: 0,
            cost_usd: 12345,
            context_window: 200000,
            max_output_tokens: 32000,
        },
    )];
    let event = Event::Result { result: payload };
    let out = writer.display(&event);
    let expected = format!(
        "{}{}{}\n",
        "\u{1b}[1m\u{1b}[32mFinished in 100ms (90ms API time). \
         Total cost: $0.0100 (Salary: $720.0k/yr)\u{1b}[39m\u{1b}[0m",
        "\u{1b}[2m\nUsage by model:\u{1b}[0m",
        "\u{1b}[2m\n    model-x: 1.5k input, 999 output, 1.000m cache read, \
         0 cache write ($1.2345)\u{1b}[0m"
    );
    assert_eq!(out, expected);
}

#[test]
fn unknown_event_renders_nothing() {
    let mut writer = EventWriter::new("/nonexistent-tmpdir".to_string(), None);
    let out = writer.display(&Event::Unknown);
    assert_eq!(out, "");
    assert!(!writer.has_output);
}

#[test]
fn writer_orders_prefixes_longest_first() {
    let writer = EventWriter::new(
        "/tmp".to_string(),
        Some("/private/tmp".to_string()),
    );
    assert_eq!(
        writer.temp_dirs,
        vec!["/private/tmp".to_string(), "/tmp".to_string()]
    );
    let writer = EventWriter::new("/tmp".to_string(), Some("/tmp".to_string()));
    assert_eq!(writer.temp_dirs, vec!["/tmp".to_string()]);
}
