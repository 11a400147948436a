use codex_mcp_rs::config::SecurityConfig;
use codex_mcp_rs::options::{apply_security_restrictions, CodexArgs, Options};
use codex_mcp_rs::policy::SandboxPolicy;
use codex_mcp_rs::result::CodexResult;

#[test]
fn test_agent_messages_size_limit() {
    let large_message = "x".repeat(11 * 1024 * 1024);
    let result = CodexResult {
        success: true,
        session_id: "test-session".to_string(),
        agent_messages: large_message,
        agent_messages_truncated: false,
        all_messages: Vec::new(),
        all_messages_truncated: false,
        error: None,
        warnings: None,
    };

    assert!(result.agent_messages.len() > 10 * 1024 * 1024);
    assert!(!result.agent_messages_truncated);
}

#[test]
fn test_agent_messages_truncation_flag() {
    let result = CodexResult {
        success: true,
        session_id: "test-session".to_string(),
        agent_messages: "[... Agent messages truncated due to size limit ...]".to_string(),
        agent_messages_truncated: true,
        all_messages: Vec::new(),
        all_messages_truncated: false,
        error: None,
        warnings: None,
    };

    assert!(result.agent_messages_truncated);
    assert!(result.agent_messages.contains("truncated"));
}

#[test]
fn test_all_messages_limit() {
    let mut result = CodexResult {
        success: true,
        session_id: "test-session".to_string(),
        agent_messages: "test messages".to_string(),
        agent_messages_truncated: false,
        all_messages: Vec::new(),
        all_messages_truncated: false,
        error: None,
        warnings: None,
    };

    for i in 0..50001 {
        if result.all_messages.len() < 50000 {
            result
                .all_messages
                .push(format!("{{\"id\":\"msg_{}\",\"type\":\"test\"}}", i));
        } else {
            result.all_messages_truncated = true;
            break;
        }
    }

    assert_eq!(result.all_messages.len(), 50000);
    assert!(result.all_messages_truncated);
}

#[test]
fn test_error_and_warning_handling() {
    let result = CodexResult {
        success: false,
        session_id: "".to_string(),
        agent_messages: "".to_string(),
        agent_messages_truncated: false,
        all_messages: Vec::new(),
        all_messages_truncated: false,
        error: Some("Test error message".to_string()),
        warnings: Some("Test warning message".to_string()),
    };

    assert!(!result.success);
    assert!(result.error.is_some());
    assert!(result.warnings.is_some());
    assert_eq!(result.error.unwrap(), "Test error message");
    assert_eq!(result.warnings.unwrap(), "Test warning message");
}

#[test]
fn test_path_handling_with_non_utf8() {
    let non_utf8_path = "/path/with/invalid/utf8/ï¿½sequence".to_string();
    let opts = Options {
        prompt: "test".to_string(),
        working_dir: non_utf8_path.clone(),
        sandbox: SandboxPolicy::ReadOnly,
        session_id: None,
        skip_git_repo_check: true,
        return_all_messages: false,
        return_all_messages_limit: None,
        image_paths: vec![non_utf8_path.clone()],
        model: None,
        yolo: false,
        profile: None,
        timeout_secs: None,
    };

    assert_eq!(opts.working_dir, non_utf8_path);
    assert_eq!(opts.image_paths.len(), 1);
    assert_eq!(opts.image_paths[0], non_utf8_path);
}

#[test]
fn test_escape_prompt_with_special_chars() {
    let input = "Test with \"quotes\" and \n newlines and \t tabs";

    assert!(input.contains('"'));
    assert!(input.contains('\n'));
    assert!(input.contains('\t'));
}

#[test]
fn test_stderr_error_context() {
    let error_with_stderr = "Command failed\nStderr: Warning: Something went wrong".to_string();

    assert!(error_with_stderr.contains("Stderr:"));
    assert!(error_with_stderr.contains("Warning: Something went wrong"));
}

#[test]
fn test_server_security_restrictions() {
    let args = CodexArgs {
        prompt: "test".to_string(),
        cd: "/tmp".to_string(),
        sandbox: SandboxPolicy::DangerFullAccess,
        session_id: None,
        skip_git_repo_check: true,
        return_all_messages: false,
        return_all_messages_limit: None,
        image: vec![],
        model: None,
        yolo: true,
        profile: None,
        timeout_secs: None,
    };

    let security = SecurityConfig {
        allow_danger_full_access: false,
        allow_yolo: false,
        allow_skip_git_check: false,
    };

    let (restricted_args, warnings) = apply_security_restrictions(args, &security);

    assert_eq!(restricted_args.sandbox, SandboxPolicy::ReadOnly);
    assert!(!restricted_args.yolo);
    assert!(!restricted_args.skip_git_repo_check);
    assert!(!warnings.is_empty());
}
