//! Post-hoc validation of a finished result, and warning accumulation.

use vstd::prelude::*;
use vstd::string::StringExecFns;
use crate::result::{CodexResult, ResultView};

verus! {

/// Whether the finished result gets the extra required-field checks, or is
/// already a fully explained terminal state (a timeout, a truncation).
#[derive(Debug, Clone, Copy, PartialEq, Eq, Structural)]
pub enum ValidationMode {
    /// Check that a session id arrived and that agent text is not empty.
    Full,
    /// Skip validation; the result already carries a well-defined error.
    Skip,
}

/// A warning appended to already collected warning text, separated by one
/// newline when the collected text is non-empty.
pub open spec fn spec_push_warning(existing: Option<Seq<char>>, warning: Seq<char>) -> Option<
    Seq<char>,
> {
    match existing {
        Some(current) => if current.len() > 0 {
            Some(current + "\n"@ + warning)
        } else {
            Some(current + warning)
        },
        None => Some(warning),
    }
}

/// Appends a warning to the collected warning text, separated by one newline
/// when text is already there.
pub fn push_warning(existing: Option<String>, warning: &str) -> (r: Option<String>)
    ensures
        r.deep_view() == spec_push_warning(existing.deep_view(), warning@),
{
    match existing {
        Some(mut current) => {
            if !current.as_str().is_empty() {
                current.append("\n");
            }
            current.append(warning);
            Some(current)
        },
        None => Some(String::from_str(warning)),
    }
}

/// The error recorded when the stream named no session.
pub open spec fn spec_missing_session_msg() -> Seq<char> {
    "Failed to get SESSION_ID from the codex session."@
}

/// The warning recorded when no agent text was aggregated.
pub open spec fn spec_no_agent_messages_msg() -> Seq<char> {
    "No agent_messages returned; enable return_all_messages or check codex output for details."@
}

/// What validation makes of a finished result.  Skipping changes nothing.
/// Otherwise: a result with an empty session id and no recorded error
/// becomes unsuccessful with a missing-session error — suppressed whenever
/// any error already exists, so the root cause is never masked; and a result
/// with empty agent text gets a warning appended, never a failure.
pub open spec fn spec_enforce(v: ResultView, mode: ValidationMode) -> ResultView {
    if mode == ValidationMode::Skip {
        v
    } else {
        let v1 = if v.session_id.len() == 0 && v.error is None {
            ResultView { success: false, error: Some(spec_missing_session_msg()), ..v }
        } else {
            v
        };
        if v1.agent_messages.len() == 0 {
            ResultView {
                warnings: spec_push_warning(v1.warnings, spec_no_agent_messages_msg()),
                ..v1
            }
        } else {
            v1
        }
    }
}

/// Runs the required-field checks on a finished result.
pub fn enforce_required_fields(result: CodexResult, mode: ValidationMode) -> (r: CodexResult)
    ensures
        r@ == spec_enforce(result@, mode),
{
    let ghost v0 = result@;
    let mut result = result;
    if mode == ValidationMode::Skip {
        return result;
    }
    if result.session_id.as_str().is_empty() && result.error.is_none() {
        result.success = false;
        result.error = Some(
            String::from_str("Failed to get SESSION_ID from the codex session."),
        );
    }
    if result.agent_messages.as_str().is_empty() {
        let taken = result.warnings.take();
        result.warnings = push_warning(
            taken,
            "No agent_messages returned; enable return_all_messages or check codex output for details.",
        );
    }
    proof {
        assert(result@ =~= spec_enforce(v0, mode));
    }
    result
}

/// A successful validated result always names a session, provided every
/// recorded error had marked the result unsuccessful — which holds of every
/// error path of the stream consumer.
pub proof fn lemma_success_has_session(v: ResultView)
    requires
        v.error is Some ==> !v.success,
    ensures
        spec_enforce(v, ValidationMode::Full).success ==> spec_enforce(
            v,
            ValidationMode::Full,
        ).session_id.len() > 0,
{
}

/// A list of warnings joined by single newlines.
pub open spec fn spec_join_nl(ws: Seq<Seq<char>>) -> Seq<char>
    decreases ws.len(),
{
    if ws.len() == 0 {
        Seq::<char>::empty()
    } else if ws.len() == 1 {
        ws[0]
    } else {
        spec_join_nl(ws.drop_last()) + "\n"@ + ws.last()
    }
}

/// The warning list a merge works on: the collected warnings, extended by
/// the result's warning text when there is one.
pub open spec fn spec_merged_list(
    security_warnings: Seq<Seq<char>>,
    result_warnings: Option<Seq<char>>,
) -> Seq<Seq<char>> {
    match result_warnings {
        Some(w) => security_warnings.push(w),
        None => security_warnings,
    }
}

/// Merges the collected warnings with the result's warning text: nothing
/// when there is nothing, otherwise all of them joined by newlines.
pub fn merge_warnings(security_warnings: Vec<String>, result_warnings: Option<String>) -> (r:
    Option<String>)
    ensures
        ({
            let all = spec_merged_list(security_warnings.deep_view(), result_warnings.deep_view());
            r.deep_view() == if all.len() == 0 {
                None::<Seq<char>>
            } else {
                Some(spec_join_nl(all))
            }
        }),
{
    let ghost all = spec_merged_list(security_warnings.deep_view(), result_warnings.deep_view());
    let mut list = security_warnings;
    match result_warnings {
        Some(w) => {
            list.push(w);
        },
        None => {},
    }
    proof {
        assert(list.deep_view() =~~= all);
    }
    if list.is_empty() {
        return None;
    }
    let mut acc = String::new();
    let mut i: usize = 0;
    let n: usize = list.len();
    while i < n
        invariant
            n == list@.len(),
            list.deep_view() == all,
            0 < n == all.len(),
            0 <= i <= n,
            acc@ == if i == 0 {
                Seq::<char>::empty()
            } else {
                spec_join_nl(all.take(i as int))
            },
        decreases n - i,
    {
        if i > 0 {
            acc.append("\n");
        }
        acc.append(list[i].as_str());
        proof {
            assert(all.take(i + 1).drop_last() =~= all.take(i as int));
            assert(all.take(i + 1).last() == all[i as int]);
            assert(list@[i as int]@ == all[i as int]);
        }
        i = i + 1;
    }
    proof {
        assert(all.take(n as int) =~= all);
    }
    Some(acc)
}

/// An error message with the warning text attached, when there is any.
pub open spec fn spec_attach_warnings(error_msg: Seq<char>, warnings: Option<Seq<char>>) -> Seq<
    char,
> {
    match warnings {
        Some(w) => if w.len() > 0 {
            error_msg + "\nWarnings: "@ + w
        } else {
            error_msg
        },
        None => error_msg,
    }
}

/// Attaches the warning text to an error message.
pub fn attach_warnings(error_msg: String, warnings: Option<String>) -> (r: String)
    ensures
        r@ == spec_attach_warnings(error_msg@, warnings.deep_view()),
{
    let mut error_msg = error_msg;
    match warnings {
        Some(w) => {
            if !w.as_str().is_empty() {
                error_msg.append("\nWarnings: ");
                error_msg.append(w.as_str());
            }
        },
        None => {},
    }
    error_msg
}

} // verus!
