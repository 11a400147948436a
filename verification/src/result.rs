//! The execution result built up while the child's output is consumed.

use vstd::prelude::*;

verus! {

/// Outcome of one invocation: success flag, session id, aggregated agent
/// text with its truncation flag, ordered raw event records with their
/// truncation flag, and optional error and warning text.  Built
/// incrementally while the stream is consumed, finalized once.
#[derive(Debug)]
pub struct CodexResult {
    pub success: bool,
    pub session_id: String,
    pub agent_messages: String,
    pub agent_messages_truncated: bool,
    pub all_messages: Vec<String>,
    pub all_messages_truncated: bool,
    pub error: Option<String>,
    pub warnings: Option<String>,
}

/// The mathematical value of a `CodexResult`: every text as a character
/// sequence, every record as the character sequence of its serialization.
#[verifier::ext_equal]
pub ghost struct ResultView {
    pub success: bool,
    pub session_id: Seq<char>,
    pub agent_messages: Seq<char>,
    pub agent_messages_truncated: bool,
    pub all_messages: Seq<Seq<char>>,
    pub all_messages_truncated: bool,
    pub error: Option<Seq<char>>,
    pub warnings: Option<Seq<char>>,
}

impl View for CodexResult {
    type V = ResultView;

    open spec fn view(&self) -> ResultView {
        ResultView {
            success: self.success,
            session_id: self.session_id@,
            agent_messages: self.agent_messages@,
            agent_messages_truncated: self.agent_messages_truncated,
            all_messages: self.all_messages.deep_view(),
            all_messages_truncated: self.all_messages_truncated,
            error: self.error.deep_view(),
            warnings: self.warnings.deep_view(),
        }
    }
}

/// The state every invocation starts from: success with everything empty.
pub open spec fn spec_initial_result() -> ResultView {
    ResultView {
        success: true,
        session_id: Seq::<char>::empty(),
        agent_messages: Seq::<char>::empty(),
        agent_messages_truncated: false,
        all_messages: Seq::<Seq<char>>::empty(),
        all_messages_truncated: false,
        error: None,
        warnings: None,
    }
}

impl CodexResult {
    /// A fresh result, before any output has been seen.
    pub fn new() -> (r: CodexResult)
        ensures
            r@ == spec_initial_result(),
    {
        let r = CodexResult {
            success: true,
            session_id: String::new(),
            agent_messages: String::new(),
            agent_messages_truncated: false,
            all_messages: Vec::new(),
            all_messages_truncated: false,
            error: None,
            warnings: None,
        };
        proof {
            assert(r@ =~= spec_initial_result());
        }
        r
    }
}

} // verus!
