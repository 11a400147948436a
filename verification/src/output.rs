//! The outward response shape built from a finished result: optional fields
//! are present only when they carry information.

use vstd::prelude::*;
use crate::result::CodexResult;

verus! {

/// The response handed back to the caller: truncation flags and the raw
/// event list appear only when set or requested.
#[derive(Debug)]
pub struct CodexOutput {
    pub success: bool,
    pub session_id: String,
    pub agent_messages: String,
    pub agent_messages_truncated: Option<bool>,
    pub all_messages: Option<Vec<String>>,
    pub all_messages_truncated: Option<bool>,
    pub error: Option<String>,
    pub warnings: Option<String>,
}

/// Builds the response from a finished result: the raw event list is
/// included only when it was requested, each truncation flag only when it is
/// set (and, for the list, requested), and the merged warnings are attached
/// as given.
pub fn build_codex_output(
    result: &CodexResult,
    return_all_messages: bool,
    warnings: Option<String>,
) -> (r: CodexOutput)
    ensures
        r.success == result@.success,
        r.session_id@ == result@.session_id,
        r.agent_messages@ == result@.agent_messages,
        r.agent_messages_truncated == (if result@.agent_messages_truncated {
            Some(true)
        } else {
            None::<bool>
        }),
        r.all_messages.deep_view() == (if return_all_messages {
            Some(result@.all_messages)
        } else {
            None::<Seq<Seq<char>>>
        }),
        r.all_messages_truncated == (if return_all_messages && result@.all_messages_truncated {
            Some(true)
        } else {
            None::<bool>
        }),
        r.error.deep_view() == result@.error,
        r.warnings == warnings,
{
    let all_messages: Option<Vec<String>> = if return_all_messages {
        Some(clone_string_vec(&result.all_messages))
    } else {
        None
    };
    let error: Option<String> = match &result.error {
        Some(e) => Some(e.clone()),
        None => None,
    };
    let r = CodexOutput {
        success: result.success,
        session_id: result.session_id.clone(),
        agent_messages: result.agent_messages.clone(),
        agent_messages_truncated: if result.agent_messages_truncated {
            Some(true)
        } else {
            None
        },
        all_messages,
        all_messages_truncated: if return_all_messages && result.all_messages_truncated {
            Some(true)
        } else {
            None
        },
        error,
        warnings,
    };
    r
}

/// Copies a list of texts.
fn clone_string_vec(v: &Vec<String>) -> (r: Vec<String>)
    ensures
        r.deep_view() == v.deep_view(),
{
    let mut r: Vec<String> = Vec::new();
    let n: usize = v.len();
    let mut i: usize = 0;
    while i < n
        invariant
            n == v@.len(),
            0 <= i <= n,
            r.deep_view() == v.deep_view().take(i as int),
        decreases n - i,
    {
        r.push(v[i].clone());
        proof {
            let dv = v.deep_view();
            assert(r.deep_view() =~~= dv.take(i as int).push(dv[i as int]));
            assert(dv.take(i + 1) =~~= dv.take(i as int).push(dv[i as int]));
        }
        i = i + 1;
    }
    proof {
        assert(v.deep_view().take(n as int) =~= v.deep_view());
    }
    r
}

} // verus!
