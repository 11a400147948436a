use codex_mcp_rs::aggregate::Aggregator;
use codex_mcp_rs::args::build_codex_args;
use codex_mcp_rs::config::{normalize_timeout, EnvValue};
use codex_mcp_rs::options::Options;
use codex_mcp_rs::output::build_codex_output;
use codex_mcp_rs::policy::SandboxPolicy;
use codex_mcp_rs::reader::read_line_slice;
use codex_mcp_rs::stderr::StderrAccumulator;
use codex_mcp_rs::supervisor::{
    compose_prompt, prepend_warning, reconcile_exit, resolve_run_timeout, timeout_result,
};
use codex_mcp_rs::validate::{enforce_required_fields, ValidationMode};

#[test]
fn reader_truncates_long_line_and_keeps_alignment() {
    let mut data: Vec<u8> = Vec::new();
    for _ in 0..11 {
        data.push(b'a');
    }
    data.push(b'\n');
    data.extend_from_slice(b"rest\n");

    let mut buf: Vec<u8> = Vec::new();
    let (outcome, pos) = read_line_slice(&data, 0, &mut buf, 8);
    assert!(outcome.truncated);
    assert_eq!(outcome.bytes_read, 8);
    assert_eq!(buf, b"aaaaaaaa".to_vec());
    assert_eq!(pos, 12);

    let mut buf2: Vec<u8> = Vec::new();
    let (outcome2, pos2) = read_line_slice(&data, pos, &mut buf2, 8);
    assert!(!outcome2.truncated);
    assert_eq!(outcome2.bytes_read, 5);
    assert_eq!(buf2, b"rest\n".to_vec());
    assert_eq!(pos2, data.len());

    let mut buf3: Vec<u8> = Vec::new();
    let (outcome3, _) = read_line_slice(&data, pos2, &mut buf3, 8);
    assert_eq!(outcome3.bytes_read, 0);
}

#[test]
fn reader_line_exactly_at_cap_plus_terminator_is_truncated() {
    let mut data: Vec<u8> = Vec::new();
    for _ in 0..8 {
        data.push(b'x');
    }
    data.push(b'\n');
    let mut buf: Vec<u8> = Vec::new();
    let (outcome, _) = read_line_slice(&data, 0, &mut buf, 8);
    assert!(outcome.truncated);
    assert_eq!(outcome.bytes_read, 8);
}

#[test]
fn session_id_reflects_last_thread_id() {
    let mut agg = Aggregator::new(false, None);
    agg.consume_stream(b"{\"thread_id\":\"A\"}\n{\"thread_id\":\"B\"}\n");
    assert_eq!(agg.result.session_id, "B");
    assert!(agg.result.success);
}

#[test]
fn turn_failed_event_records_codex_error() {
    let mut agg = Aggregator::new(false, None);
    agg.consume_stream(
        b"{\"thread_id\":\"A\"}\n{\"type\":\"turn.failed\",\"error\":{\"message\":\"boom\"}}\n",
    );
    assert!(!agg.result.success);
    assert!(agg.result.error.as_ref().unwrap().contains("codex error: boom"));
    assert_eq!(agg.result.session_id, "A");
}

#[test]
fn failure_event_falls_back_to_top_level_message() {
    let mut agg = Aggregator::new(false, None);
    agg.consume_stream(b"{\"type\":\"stream_error\",\"message\":\"broken pipe\"}\n");
    assert!(!agg.result.success);
    assert_eq!(
        agg.result.error.as_deref(),
        Some("codex error: broken pipe")
    );
}

#[test]
fn agent_messages_join_with_single_newline() {
    let mut agg = Aggregator::new(false, None);
    agg.consume_stream(
        b"{\"item\":{\"type\":\"agent_message\",\"text\":\"hello\"}}\n{\"item\":{\"type\":\"agent_message\",\"text\":\"world\"}}\n",
    );
    assert_eq!(agg.result.agent_messages, "hello\nworld");
    assert!(!agg.result.agent_messages_truncated);
}

#[test]
fn agent_messages_cap_appends_marker_once_and_stops() {
    let mut agg = Aggregator::new(false, None);
    let chunk = "y".repeat(900_000);
    let mut stream = String::new();
    for _ in 0..13 {
        stream.push_str(&format!(
            "{{\"item\":{{\"type\":\"agent_message\",\"text\":\"{}\"}}}}\n",
            chunk
        ));
    }
    agg.consume_stream(stream.as_bytes());
    assert!(agg.result.agent_messages_truncated);
    assert!(agg
        .result
        .agent_messages
        .ends_with("\n[... Agent messages truncated due to size limit ...]"));

    let len_after_marker = agg.result.agent_messages.len();
    agg.consume_stream(b"{\"item\":{\"type\":\"agent_message\",\"text\":\"more\"}}\n");
    assert_eq!(agg.result.agent_messages.len(), len_after_marker);
    assert!(agg.result.agent_messages_truncated);
}

#[test]
fn parse_error_switches_to_drain_only_mode() {
    let mut agg = Aggregator::new(false, None);
    let buf: Vec<u8> = b"not-json\n".to_vec();
    let kill = agg.process_line(&buf, false);
    assert!(kill);
    assert!(!agg.result.success);
    assert!(agg.result.error.as_ref().unwrap().contains("JSON parse error"));
    assert!(agg.result.error.as_ref().unwrap().contains("not-json"));

    // Later well-formed lines are drained, not interpreted.
    let kill2 = agg.process_line(b"{\"thread_id\":\"A\"}\n", false);
    assert!(!kill2);
    assert_eq!(agg.result.session_id, "");
}

#[test]
fn overlong_line_records_overflow_error() {
    let mut agg = Aggregator::new(false, None);
    let kill = agg.process_line(b"partial", true);
    assert!(kill);
    assert!(!agg.result.success);
    assert_eq!(
        agg.result.error.as_deref(),
        Some("Output line exceeded 1048576 byte limit and was truncated, cannot parse JSON.")
    );
}

#[test]
fn parse_error_appends_to_existing_error() {
    let mut agg = Aggregator::new(false, None);
    agg.consume_stream(b"{\"type\":\"turn.failed\",\"message\":\"boom\"}\nnot-json\n");
    let error = agg.result.error.unwrap();
    assert!(error.contains("codex error: boom"));
    assert!(error.contains("JSON parse error"));
    assert!(error.contains('\n'));
}

#[test]
fn all_messages_capped_at_hard_limit() {
    let mut agg = Aggregator::new(true, Some(50001));
    let mut stream = String::new();
    for i in 0..50001 {
        stream.push_str(&format!("{{\"id\":{}}}\n", i));
    }
    agg.consume_stream(stream.as_bytes());
    assert_eq!(agg.result.all_messages.len(), 50000);
    assert!(agg.result.all_messages_truncated);
    assert!(agg.result.success);
}

#[test]
fn all_messages_default_limit_applies() {
    let mut agg = Aggregator::new(true, None);
    let mut stream = String::new();
    for i in 0..10002 {
        stream.push_str(&format!("{{\"id\":{}}}\n", i));
    }
    agg.consume_stream(stream.as_bytes());
    assert_eq!(agg.result.all_messages.len(), 10000);
    assert!(agg.result.all_messages_truncated);
    assert_eq!(agg.result.all_messages[0], "{\"id\":0}");
}

#[test]
fn full_list_marks_truncated_for_any_further_line() {
    let mut agg = Aggregator::new(true, Some(1));
    agg.consume_stream(b"{\"id\":1}\n42\n");
    assert_eq!(agg.result.all_messages.len(), 1);
    assert!(agg.result.all_messages_truncated);

    // Once truncated, the capture is over: no later record is appended.
    agg.consume_stream(b"{\"id\":2}\n");
    assert_eq!(agg.result.all_messages.len(), 1);
}

#[test]
fn all_messages_size_budget_freezes_list() {
    let mut agg = Aggregator::new(true, None);
    let big = "x".repeat(1_000_000);
    let line = format!("{{\"k\":\"{}\"}}\n", big);
    let mut stream = String::new();
    for _ in 0..53 {
        stream.push_str(&line);
    }
    // A small record that would fit the remaining budget arrives after the
    // budget was first exceeded: the list stays frozen.
    stream.push_str("{\"id\":1}\n");
    agg.consume_stream(stream.as_bytes());
    assert_eq!(agg.result.all_messages.len(), 52);
    assert!(agg.result.all_messages_truncated);
}

#[test]
fn drain_mode_ignores_overlong_lines() {
    let mut agg = Aggregator::new(false, None);
    let _ = agg.process_line(b"not-json\n", false);
    let err = agg.result.error.clone();
    assert!(err.is_some());

    let kill = agg.process_line(b"partial", true);
    assert!(!kill);
    assert_eq!(agg.result.error, err);
    assert!(agg.result.error.unwrap().contains("JSON parse error"));
}

#[test]
fn failure_event_with_non_object_error_uses_top_level_message() {
    let mut agg = Aggregator::new(false, None);
    agg.consume_stream(b"{\"type\":\"x.error\",\"error\":\"oops\",\"message\":\"top\"}\n");
    assert!(!agg.result.success);
    assert_eq!(agg.result.error.as_deref(), Some("codex error: top"));
}

#[test]
fn failure_event_with_error_object_never_falls_back() {
    let mut agg = Aggregator::new(false, None);
    agg.consume_stream(b"{\"type\":\"fail\",\"error\":{},\"message\":\"top\"}\n");
    assert!(!agg.result.success);
    assert!(agg.result.error.is_none());
}

#[test]
fn non_object_lines_are_not_collected() {
    let mut agg = Aggregator::new(true, None);
    agg.consume_stream(b"42\n{\"id\":1}\n");
    assert_eq!(agg.result.all_messages.len(), 1);
    assert!(!agg.result.all_messages_truncated);
}

#[test]
fn empty_stream_with_clean_exit_fails_session_check() {
    let mut agg = Aggregator::new(false, None);
    agg.consume_stream(b"");
    let mut result = agg.result;
    reconcile_exit(&mut result, true, Some(0), &String::new());
    assert!(result.success);

    let validated = enforce_required_fields(result, ValidationMode::Full);
    assert!(!validated.success);
    assert!(validated.error.as_ref().unwrap().contains("Failed to get SESSION_ID"));
    assert!(validated.warnings.as_ref().unwrap().contains("No agent_messages"));
}

#[test]
fn timeout_result_has_fixed_shape() {
    let result = timeout_result(1, None);
    let validated = enforce_required_fields(result, ValidationMode::Skip);
    assert!(!validated.success);
    let error = validated.error.unwrap();
    assert!(error.contains("timed out"));
    assert_eq!(error, "Codex execution timed out after 1 seconds");
    assert!(validated.session_id.is_empty());
    assert!(validated.warnings.is_none());
}

#[test]
fn nonzero_exit_attaches_stderr_context() {
    let mut agg = Aggregator::new(false, None);
    agg.consume_stream(b"{\"thread_id\":\"A\"}\n");
    let mut result = agg.result;
    reconcile_exit(
        &mut result,
        false,
        Some(1),
        &"Warning: Something went wrong".to_string(),
    );
    assert!(!result.success);
    let error = result.error.unwrap();
    assert_eq!(
        error,
        "codex command failed with exit code: Some(1)\nStderr: Warning: Something went wrong"
    );
}

#[test]
fn clean_exit_files_stderr_as_warning() {
    let mut agg = Aggregator::new(false, None);
    agg.consume_stream(b"{\"thread_id\":\"A\"}\n");
    let mut result = agg.result;
    reconcile_exit(&mut result, true, Some(0), &"note".to_string());
    assert!(result.success);
    assert_eq!(result.warnings.as_deref(), Some("note"));

    prepend_warning(&mut result, Some("earlier".to_string()));
    assert_eq!(result.warnings.as_deref(), Some("earlier\nnote"));
}

#[test]
fn stderr_accumulator_joins_and_truncates() {
    let mut acc = StderrAccumulator::new();
    acc.push_line(b"first line\r\n");
    acc.push_line(b"second line\n");
    assert_eq!(acc.text, "first line\nsecond line");
    assert!(!acc.truncated);

    let long = vec![b'z'; 1000];
    let mut line: Vec<u8> = long.clone();
    line.push(b'\n');
    for _ in 0..1100 {
        acc.push_line(&line);
    }
    assert!(acc.truncated);
    assert!(acc.text.ends_with("[... stderr truncated due to size limit ...]"));
    assert!(acc.text.len() <= 1024 * 1024 + 64);
}

#[test]
fn build_codex_args_covers_every_flag() {
    let opts = Options {
        prompt: "do it".to_string(),
        working_dir: "/work".to_string(),
        sandbox: SandboxPolicy::WorkspaceWrite,
        session_id: Some("sess-9".to_string()),
        skip_git_repo_check: true,
        return_all_messages: true,
        return_all_messages_limit: Some(123),
        image_paths: vec!["a.png".to_string(), "b.png".to_string()],
        model: Some("m1".to_string()),
        yolo: true,
        profile: Some("p1".to_string()),
        timeout_secs: Some(30),
    };
    let args = build_codex_args(&opts);
    let expected: Vec<String> = vec![
        "exec",
        "--sandbox",
        "workspace-write",
        "--cd",
        "/work",
        "--json",
        "--image",
        "a.png",
        "--image",
        "b.png",
        "--model",
        "m1",
        "--profile",
        "p1",
        "--yolo",
        "--skip-git-repo-check",
        "--return-all-messages",
        "--return-all-messages-limit",
        "123",
        "resume",
        "sess-9",
        "--",
        "do it",
    ]
    .into_iter()
    .map(|s| s.to_string())
    .collect();
    assert_eq!(args, expected);
}

#[test]
fn build_codex_args_minimal_request() {
    let opts = Options {
        prompt: "hi".to_string(),
        working_dir: "/w".to_string(),
        sandbox: SandboxPolicy::ReadOnly,
        session_id: None,
        skip_git_repo_check: false,
        return_all_messages: false,
        return_all_messages_limit: None,
        image_paths: vec![],
        model: None,
        yolo: false,
        profile: None,
        timeout_secs: None,
    };
    let args = build_codex_args(&opts);
    let expected: Vec<String> = vec!["exec", "--sandbox", "read-only", "--cd", "/w", "--json", "--", "hi"]
        .into_iter()
        .map(|s| s.to_string())
        .collect();
    assert_eq!(args, expected);
}

#[test]
fn normalize_timeout_bounds_and_defaults() {
    let mut warnings = Vec::new();
    assert_eq!(normalize_timeout(None, &EnvValue::Missing, &mut warnings), 600);
    assert!(warnings.is_empty());

    assert_eq!(normalize_timeout(Some(0), &EnvValue::Missing, &mut warnings), 600);
    assert_eq!(warnings.len(), 1);
    assert!(warnings[0].contains("Timeout of 0 seconds is invalid"));

    warnings.clear();
    assert_eq!(normalize_timeout(Some(5000), &EnvValue::Missing, &mut warnings), 3600);
    assert!(warnings[0].contains("exceeds maximum"));

    warnings.clear();
    assert_eq!(normalize_timeout(Some(42), &EnvValue::Missing, &mut warnings), 42);
    assert!(warnings.is_empty());

    warnings.clear();
    let env = EnvValue::Present("1200".to_string());
    assert_eq!(normalize_timeout(None, &env, &mut warnings), 1200);
    assert!(warnings.is_empty());
}

#[test]
fn run_timeout_defaults_to_ten_minutes() {
    assert_eq!(resolve_run_timeout(None), 600);
    assert_eq!(resolve_run_timeout(Some(7)), 7);
}

#[test]
fn compose_prompt_frames_context() {
    let composed = compose_prompt(&Some("rules".to_string()), "task");
    assert_eq!(composed, "<system_prompt>\nrules\n</system_prompt>\n\ntask");
    assert_eq!(compose_prompt(&None, "task"), "task");
}

#[test]
fn output_shape_hides_unset_fields() {
    let mut agg = Aggregator::new(false, None);
    agg.consume_stream(b"{\"thread_id\":\"S\",\"item\":{\"type\":\"agent_message\",\"text\":\"ok\"}}\n");
    let output = build_codex_output(&agg.result, false, Some("w".to_string()));
    assert!(output.success);
    assert_eq!(output.session_id, "S");
    assert_eq!(output.agent_messages, "ok");
    assert!(output.agent_messages_truncated.is_none());
    assert!(output.all_messages.is_none());
    assert!(output.all_messages_truncated.is_none());
    assert!(output.error.is_none());
    assert_eq!(output.warnings.as_deref(), Some("w"));
}
