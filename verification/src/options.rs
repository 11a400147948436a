//! The request types: what a caller asks for, and the server-side
//! restrictions applied to it before anything runs.

use vstd::prelude::*;
use vstd::string::StringExecFns;
use crate::config::SecurityConfig;
use crate::policy::SandboxPolicy;

verus! {

/// One normalized execution request, immutable once built.
#[derive(Debug, Clone)]
pub struct Options {
    pub prompt: String,
    pub working_dir: String,
    pub sandbox: SandboxPolicy,
    pub session_id: Option<String>,
    pub skip_git_repo_check: bool,
    pub return_all_messages: bool,
    pub return_all_messages_limit: Option<usize>,
    pub image_paths: Vec<String>,
    pub model: Option<String>,
    pub yolo: bool,
    pub profile: Option<String>,
    /// Timeout in seconds for the execution; when unset the run applies the
    /// built-in default so no execution is ever unbounded.
    pub timeout_secs: Option<u64>,
}

/// The raw tool-call arguments, before security restrictions and timeout
/// normalization.
#[derive(Debug)]
pub struct CodexArgs {
    /// Instruction for the task.
    pub prompt: String,
    /// Workspace root for the task.
    pub cd: String,
    /// Sandbox policy for model-generated commands.
    pub sandbox: SandboxPolicy,
    /// Session to resume, if any.
    pub session_id: Option<String>,
    /// Allow running outside a git repository.
    pub skip_git_repo_check: bool,
    /// Return every raw message of the session.
    pub return_all_messages: bool,
    /// Cap on the raw messages kept when they are returned.
    pub return_all_messages_limit: Option<usize>,
    /// Image files attached to the prompt.
    pub image: Vec<String>,
    /// Model override.
    pub model: Option<String>,
    /// Run without approvals or sandboxing.
    pub yolo: bool,
    /// Configuration profile to load.
    pub profile: Option<String>,
    /// Timeout in seconds.
    pub timeout_secs: Option<u64>,
}

/// The warnings that applying the security restrictions raises, in order:
/// one for each requested capability that the configuration does not allow.
pub open spec fn spec_security_warnings(
    sandbox: SandboxPolicy,
    yolo: bool,
    skip_git_repo_check: bool,
    security: &SecurityConfig,
) -> Seq<Seq<char>> {
    let a = if !security.allow_danger_full_access && sandbox == SandboxPolicy::DangerFullAccess {
        seq![spec_danger_downgrade_msg()]
    } else {
        Seq::<Seq<char>>::empty()
    };
    let b = if !security.allow_yolo && yolo {
        seq![spec_yolo_disabled_msg()]
    } else {
        Seq::<Seq<char>>::empty()
    };
    let c = if !security.allow_skip_git_check && skip_git_repo_check {
        seq![spec_skip_git_disabled_msg()]
    } else {
        Seq::<Seq<char>>::empty()
    };
    a + b + c
}

/// The warning raised when the dangerous sandbox mode is downgraded.
pub open spec fn spec_danger_downgrade_msg() -> Seq<char> {
    "Security warning: danger-full-access sandbox mode was downgraded to read-only. Set CODEX_ALLOW_DANGEROUS=true to enable."@
}

/// The warning raised when yolo mode is disabled.
pub open spec fn spec_yolo_disabled_msg() -> Seq<char> {
    "Security warning: yolo mode was disabled. Set CODEX_ALLOW_YOLO=true to enable."@
}

/// The warning raised when the git-repository check is reinstated.
pub open spec fn spec_skip_git_disabled_msg() -> Seq<char> {
    "Security warning: skip_git_repo_check was disabled. Set CODEX_ALLOW_SKIP_GIT_CHECK=true to enable."@
}

/// Applies the server-side security restrictions to a request: a capability
/// the configuration does not allow is downgraded to its safe value, and
/// each downgrade is reported as a warning.  Everything else in the request
/// is kept as it was.
pub fn apply_security_restrictions(args: CodexArgs, security: &SecurityConfig) -> (r: (
    CodexArgs,
    Vec<String>,
))
    ensures
        r.0.sandbox == (if !security.allow_danger_full_access && args.sandbox
            == SandboxPolicy::DangerFullAccess {
            SandboxPolicy::ReadOnly
        } else {
            args.sandbox
        }),
        r.0.yolo == (security.allow_yolo && args.yolo),
        r.0.skip_git_repo_check == (security.allow_skip_git_check && args.skip_git_repo_check),
        r.0.prompt == args.prompt,
        r.0.cd == args.cd,
        r.0.session_id == args.session_id,
        r.0.return_all_messages == args.return_all_messages,
        r.0.return_all_messages_limit == args.return_all_messages_limit,
        r.0.image == args.image,
        r.0.model == args.model,
        r.0.profile == args.profile,
        r.0.timeout_secs == args.timeout_secs,
        r.1.deep_view() == spec_security_warnings(
            args.sandbox,
            args.yolo,
            args.skip_git_repo_check,
            security,
        ),
{
    let mut args = args;
    let ghost s0 = args.sandbox;
    let ghost y0 = args.yolo;
    let ghost g0 = args.skip_git_repo_check;
    let mut warnings: Vec<String> = Vec::new();
    if !security.allow_danger_full_access && args.sandbox == SandboxPolicy::DangerFullAccess {
        warnings.push(
            String::from_str(
                "Security warning: danger-full-access sandbox mode was downgraded to read-only. Set CODEX_ALLOW_DANGEROUS=true to enable.",
            ),
        );
        args.sandbox = SandboxPolicy::ReadOnly;
    }
    if !security.allow_yolo && args.yolo {
        warnings.push(
            String::from_str(
                "Security warning: yolo mode was disabled. Set CODEX_ALLOW_YOLO=true to enable.",
            ),
        );
        args.yolo = false;
    }
    if !security.allow_skip_git_check && args.skip_git_repo_check {
        warnings.push(
            String::from_str(
                "Security warning: skip_git_repo_check was disabled. Set CODEX_ALLOW_SKIP_GIT_CHECK=true to enable.",
            ),
        );
        args.skip_git_repo_check = false;
    }
    proof {
        assert(warnings.deep_view() =~= spec_security_warnings(s0, y0, g0, security));
    }
    (args, warnings)
}

} // verus!
