use codex_mcp_rs::aggregate::record_parse_error;
use codex_mcp_rs::options::Options;
use codex_mcp_rs::policy::SandboxPolicy;
use codex_mcp_rs::result::CodexResult;
use codex_mcp_rs::validate::{enforce_required_fields, push_warning, ValidationMode};

#[test]
fn test_options_creation() {
    let opts = Options {
        prompt: "test prompt".to_string(),
        working_dir: "/tmp".to_string(),
        sandbox: SandboxPolicy::ReadOnly,
        session_id: None,
        skip_git_repo_check: true,
        return_all_messages: false,
        return_all_messages_limit: None,
        image_paths: vec![],
        model: None,
        yolo: false,
        profile: None,
        timeout_secs: None,
    };

    assert_eq!(opts.prompt, "test prompt");
    assert_eq!(opts.working_dir, "/tmp".to_string());
    assert_eq!(opts.sandbox, SandboxPolicy::ReadOnly);
    assert!(opts.skip_git_repo_check);
}

#[test]
fn test_options_with_session() {
    let opts = Options {
        prompt: "resume task".to_string(),
        working_dir: "/tmp".to_string(),
        sandbox: SandboxPolicy::WorkspaceWrite,
        session_id: Some("test-session-123".to_string()),
        skip_git_repo_check: false,
        return_all_messages: true,
        return_all_messages_limit: Some(5000),
        image_paths: vec!["/path/to/image.png".to_string()],
        model: Some("test-model".to_string()),
        yolo: false,
        profile: Some("default".to_string()),
        timeout_secs: Some(600),
    };

    assert_eq!(opts.session_id, Some("test-session-123".to_string()));
    assert_eq!(opts.model, Some("test-model".to_string()));
    assert!(opts.return_all_messages);
    assert!(!opts.skip_git_repo_check);
    assert_eq!(opts.sandbox, SandboxPolicy::WorkspaceWrite);
    assert_eq!(opts.timeout_secs, Some(600));
}

#[test]
fn test_sandbox_policy_as_str() {
    assert_eq!(SandboxPolicy::ReadOnly.as_str(), "read-only");
    assert_eq!(SandboxPolicy::WorkspaceWrite.as_str(), "workspace-write");
    assert_eq!(SandboxPolicy::DangerFullAccess.as_str(), "danger-full-access");
}

#[test]
fn test_sandbox_policy_default() {
    assert_eq!(SandboxPolicy::default(), SandboxPolicy::ReadOnly);
}

#[test]
fn test_record_parse_error_sets_failure_and_appends_message() {
    let mut result = CodexResult {
        success: true,
        session_id: "session".to_string(),
        agent_messages: "ok".to_string(),
        agent_messages_truncated: false,
        all_messages: Vec::new(),
        all_messages_truncated: false,
        error: Some("existing".to_string()),
        warnings: None,
    };

    let err = serde_json::from_str::<serde_json::Value>("not-json").unwrap_err();
    record_parse_error(&mut result, &err.to_string(), "not-json");

    assert!(!result.success);
    assert!(result.error.as_ref().unwrap().contains("JSON parse error"));
    assert!(result.error.as_ref().unwrap().contains("existing"));
}

#[test]
fn test_enforce_required_fields_warns_on_missing_agent_messages() {
    let result = CodexResult {
        success: true,
        session_id: "session".to_string(),
        agent_messages: String::new(),
        agent_messages_truncated: false,
        all_messages: vec![String::new()],
        all_messages_truncated: false,
        error: None,
        warnings: None,
    };

    let updated = enforce_required_fields(result, ValidationMode::Full);

    assert!(updated.success);
    assert!(updated.warnings.as_ref().unwrap().contains("No agent_messages"));
}

#[test]
fn test_enforce_required_fields_requires_session_id() {
    let result = CodexResult {
        success: true,
        session_id: String::new(),
        agent_messages: "msg".to_string(),
        agent_messages_truncated: false,
        all_messages: Vec::new(),
        all_messages_truncated: false,
        error: None,
        warnings: None,
    };

    let updated = enforce_required_fields(result, ValidationMode::Full);

    assert!(!updated.success);
    assert!(updated.error.as_ref().unwrap().contains("Failed to get SESSION_ID"));
}

#[test]
fn test_push_warning_appends_with_newline() {
    let combined = push_warning(Some("first".to_string()), "second").unwrap();
    assert!(combined.contains("first"));
    assert!(combined.contains("second"));
    assert!(combined.contains('\n'));
}

#[test]
fn test_enforce_required_fields_skips_validation_when_requested() {
    let result = CodexResult {
        success: false,
        session_id: String::new(),
        agent_messages: String::new(),
        agent_messages_truncated: false,
        all_messages: Vec::new(),
        all_messages_truncated: false,
        error: Some("Codex execution timed out after 10 seconds".to_string()),
        warnings: None,
    };

    let updated = enforce_required_fields(result, ValidationMode::Skip);

    assert!(!updated.success);
    assert_eq!(updated.error.unwrap(), "Codex execution timed out after 10 seconds");
    assert!(updated.warnings.is_none());
    assert!(updated.session_id.is_empty());
}

#[test]
fn test_enforce_required_fields_skips_session_id_when_error_exists() {
    let result = CodexResult {
        success: false,
        session_id: String::new(),
        agent_messages: String::new(),
        agent_messages_truncated: false,
        all_messages: Vec::new(),
        all_messages_truncated: false,
        error: Some(
            "Output line exceeded 1048576 byte limit and was truncated, cannot parse JSON."
                .to_string(),
        ),
        warnings: None,
    };

    let updated = enforce_required_fields(result, ValidationMode::Full);

    assert!(!updated.success);
    let error = updated.error.unwrap();
    assert!(error.contains("truncated"));
    assert!(
        !error.contains("SESSION_ID"),
        "Should not add session_id error when truncation error exists"
    );
    assert!(updated.warnings.is_some());
    assert!(updated.warnings.unwrap().contains("No agent_messages"));
}
