//! Invocation-level decisions: the prompt composition, the run-level
//! timeout default, the fixed shape of a timed-out result, and the
//! reconciliation of the child's exit status with what the streams
//! collected.

use vstd::prelude::*;
use vstd::string::StringExecFns;
use crate::config::DEFAULT_TIMEOUT_SECS;
use crate::result::{CodexResult, ResultView};
use crate::text::{spec_dec, u64_to_string};

verus! {

/// The prompt actually sent: supplementary context, when there is any, is
/// framed as a system prompt ahead of the caller's text.
pub open spec fn spec_compose_prompt(context: Option<Seq<char>>, prompt: Seq<char>) -> Seq<char> {
    match context {
        Some(c) => "<system_prompt>\n"@ + c + "\n</system_prompt>\n\n"@ + prompt,
        None => prompt,
    }
}

/// Frames supplementary context ahead of the prompt.
pub fn compose_prompt(context: &Option<String>, prompt: &str) -> (r: String)
    ensures
        r@ == spec_compose_prompt(context.deep_view(), prompt@),
{
    match context {
        Some(c) => {
            let mut r = String::from_str("<system_prompt>\n");
            r.append(c.as_str());
            r.append("\n</system_prompt>\n\n");
            r.append(prompt);
            r
        },
        None => String::from_str(prompt),
    }
}

/// The timeout a run uses: what was requested, or the built-in default.
pub fn resolve_run_timeout(timeout_secs: Option<u64>) -> (r: u64)
    ensures
        r == match timeout_secs {
            Some(t) => t,
            None => DEFAULT_TIMEOUT_SECS,
        },
{
    match timeout_secs {
        Some(t) => t,
        None => DEFAULT_TIMEOUT_SECS,
    }
}

/// The error text of a timed-out invocation.
pub open spec fn spec_timeout_msg(timeout_secs: u64) -> Seq<char> {
    "Codex execution timed out after "@ + spec_dec(timeout_secs as nat) + " seconds"@
}

/// The fixed shape of a timed-out result: unsuccessful, empty session id and
/// texts, the timeout error, and only the warnings collected before the
/// child ran.
pub open spec fn spec_timeout_result(timeout_secs: u64, warnings: Option<Seq<char>>)
    -> ResultView {
    ResultView {
        success: false,
        session_id: Seq::<char>::empty(),
        agent_messages: Seq::<char>::empty(),
        agent_messages_truncated: false,
        all_messages: Seq::<Seq<char>>::empty(),
        all_messages_truncated: false,
        error: Some(spec_timeout_msg(timeout_secs)),
        warnings,
    }
}

/// Builds the fixed result of a timed-out invocation.
pub fn timeout_result(timeout_secs: u64, warnings: Option<String>) -> (r: CodexResult)
    ensures
        r@ == spec_timeout_result(timeout_secs, warnings.deep_view()),
{
    let mut msg = String::from_str("Codex execution timed out after ");
    msg.append(u64_to_string(timeout_secs).as_str());
    msg.append(" seconds");
    let r = CodexResult {
        success: false,
        session_id: String::new(),
        agent_messages: String::new(),
        agent_messages_truncated: false,
        all_messages: Vec::new(),
        all_messages_truncated: false,
        error: Some(msg),
        warnings,
    };
    proof {
        assert(r@ =~~= spec_timeout_result(timeout_secs, warnings.deep_view()));
    }
    r
}

/// The decimal rendering of a signed number.
pub open spec fn spec_dec_signed(n: int) -> Seq<char> {
    if n < 0 {
        "-"@ + spec_dec((-n) as nat)
    } else {
        spec_dec(n as nat)
    }
}

/// How an optional exit code is written in the exit-status message.
pub open spec fn spec_exit_code_text(code: Option<i32>) -> Seq<char> {
    match code {
        Some(c) => "Some("@ + spec_dec_signed(c as int) + ")"@,
        None => "None"@,
    }
}

fn exit_code_text(code: Option<i32>) -> (r: String)
    ensures
        r@ == spec_exit_code_text(code),
{
    match code {
        Some(c) => {
            let mut r = String::from_str("Some(");
            if c < 0 {
                r.append("-");
                let mag: u64 = (-(c as i64)) as u64;
                r.append(u64_to_string(mag).as_str());
            } else {
                r.append(u64_to_string(c as u64).as_str());
            }
            r.append(")");
            proof {
                assert(r@ =~= spec_exit_code_text(code));
            }
            r
        },
        None => String::from_str("None"),
    }
}

/// What the child's exit status makes of the collected result: a non-zero
/// exit marks it unsuccessful, keeping a more specific error when one is
/// already recorded and appending the collected diagnostics; a clean exit
/// files non-empty diagnostics as a warning.
pub open spec fn spec_reconcile_exit(
    r: ResultView,
    exit_success: bool,
    exit_code: Option<i32>,
    stderr_output: Seq<char>,
) -> ResultView {
    if !exit_success {
        let base = match r.error {
            Some(e) => e,
            None => "codex command failed with exit code: "@ + spec_exit_code_text(exit_code),
        };
        let err = if stderr_output.len() > 0 {
            base + "\nStderr: "@ + stderr_output
        } else {
            base
        };
        ResultView { success: false, error: Some(err), ..r }
    } else if stderr_output.len() > 0 {
        ResultView { warnings: Some(stderr_output), ..r }
    } else {
        r
    }
}

/// Reconciles the child's exit status with the collected result.
pub fn reconcile_exit(
    result: &mut CodexResult,
    exit_success: bool,
    exit_code: Option<i32>,
    stderr_output: &String,
)
    ensures
        final(result)@ == spec_reconcile_exit(old(result)@, exit_success, exit_code, stderr_output@),
{
    if !exit_success {
        result.success = false;
        let taken = result.error.take();
        let base = match taken {
            Some(e) => e,
            None => {
                let mut m = String::from_str("codex command failed with exit code: ");
                m.append(exit_code_text(exit_code).as_str());
                m
            },
        };
        if !stderr_output.as_str().is_empty() {
            let mut err = base;
            err.append("\nStderr: ");
            err.append(stderr_output.as_str());
            result.error = Some(err);
        } else {
            result.error = Some(base);
        }
    } else if !stderr_output.as_str().is_empty() {
        result.warnings = Some(stderr_output.clone());
    }
    proof {
        assert(result@ =~~= spec_reconcile_exit(
            old(result)@,
            exit_success,
            exit_code,
            stderr_output@,
        ));
    }
}

/// Puts an earlier warning — context gathered before the child ran — ahead
/// of whatever the run collected, separated by one newline.
pub open spec fn spec_prepend_warning(
    warnings: Option<Seq<char>>,
    extra: Option<Seq<char>>,
) -> Option<Seq<char>> {
    match extra {
        Some(w) => match warnings {
            Some(existing) => Some(w + "\n"@ + existing),
            None => Some(w),
        },
        None => warnings,
    }
}

/// Prepends an earlier warning to the result's warning text.
pub fn prepend_warning(result: &mut CodexResult, extra: Option<String>)
    ensures
        final(result)@ == (ResultView {
            warnings: spec_prepend_warning(old(result)@.warnings, extra.deep_view()),
            ..old(result)@
        }),
{
    let ghost ex = extra.deep_view();
    match extra {
        Some(w) => {
            let taken_w = result.warnings.take();
            result.warnings = match taken_w {
                Some(existing) => {
                    let mut m = w;
                    m.append("\n");
                    m.append(existing.as_str());
                    Some(m)
                },
                None => Some(w),
            };
        },
        None => {},
    }
    proof {
        assert(result@ =~~= (ResultView {
            warnings: spec_prepend_warning(old(result)@.warnings, ex),
            ..old(result)@
        }));
    }
}

} // verus!
