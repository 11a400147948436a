//! The stream consumer: reads the child's standard output line by line and
//! aggregates the recognized fields into the evolving result, each under its
//! own size or count cap.
//!
//! An unrecoverable condition on the stream — an over-long line, a line that
//! is not one JSON value — marks the result unsuccessful, asks the caller to
//! kill the child (so a full pipe cannot deadlock it), and switches the
//! consumer to drain-only mode: later lines are still consumed but no longer
//! interpreted.

use vstd::prelude::*;
use vstd::string::StringExecFns;
use vstd::utf8::encode_utf8;
use crate::event::{extract_event, spec_extract, spec_lossy, utf8_lossy, Event};
use crate::reader::{lemma_find_newline, read_line_slice, spec_line_copied, spec_line_len, spec_line_truncated};
use crate::result::{spec_initial_result, CodexResult, ResultView};
use crate::text::{contains_bytes, spec_contains, spec_trim_eol, trim_eol};

verus! {

/// Per-line cap on what is read from either stream.
pub const MAX_LINE_LENGTH: usize = 1024 * 1024;

/// Byte cap on the aggregated agent-message text.
pub const MAX_AGENT_MESSAGES_SIZE: usize = 10 * 1024 * 1024;

/// Byte cap on the summed serialized size of the raw event list.
pub const MAX_ALL_MESSAGES_SIZE: usize = 50 * 1024 * 1024;

/// Hard ceiling on the raw event list's length.
pub const MAX_MESSAGE_LIMIT: usize = 50000;

/// Raw event list length used when no limit is requested.
pub const DEFAULT_MESSAGE_LIMIT: usize = 10000;

/// The byte length of a text: the length of its UTF-8 encoding.
pub open spec fn byte_len(s: Seq<char>) -> int {
    encode_utf8(s).len() as int
}

/// Summed byte length of a list of texts.
pub open spec fn spec_total_bytes(ms: Seq<Seq<char>>) -> int
    decreases ms.len(),
{
    if ms.len() == 0 {
        0
    } else {
        spec_total_bytes(ms.drop_last()) + byte_len(ms.last())
    }
}

/// The stream consumer's state: the result under construction, whether the
/// consumer is in drain-only mode, the running serialized-size total of the
/// raw event list, and the capture mode and limit fixed at construction.
pub struct Aggregator {
    pub result: CodexResult,
    pub drain: bool,
    pub all_messages_size: usize,
    pub collect_all: bool,
    pub message_limit: usize,
}

/// The mathematical value of an `Aggregator`.
#[verifier::ext_equal]
pub ghost struct AggView {
    pub result: ResultView,
    pub drain: bool,
    pub all_messages_size: int,
    pub collect_all: bool,
    pub message_limit: int,
}

impl View for Aggregator {
    type V = AggView;

    open spec fn view(&self) -> AggView {
        AggView {
            result: self.result@,
            drain: self.drain,
            all_messages_size: self.all_messages_size as int,
            collect_all: self.collect_all,
            message_limit: self.message_limit as int,
        }
    }
}

impl AggView {
    /// Internal consistency: the running size total is what the list sums
    /// to, stays under its cap, the list stays under its limit, and the
    /// agent text stays within one separator of its cap until it is marked
    /// truncated.
    pub open spec fn wf(self) -> bool {
        &&& self.all_messages_size == spec_total_bytes(self.result.all_messages)
        &&& self.all_messages_size <= MAX_ALL_MESSAGES_SIZE
        &&& self.result.all_messages.len() <= self.message_limit
        &&& self.message_limit <= MAX_MESSAGE_LIMIT
        &&& !self.result.agent_messages_truncated ==> byte_len(self.result.agent_messages)
            <= MAX_AGENT_MESSAGES_SIZE + 1
    }
}

/// The raw event list length a requested limit resolves to.
pub open spec fn spec_message_limit(requested: Option<usize>) -> int {
    match requested {
        Some(l) => if l < MAX_MESSAGE_LIMIT {
            l as int
        } else {
            MAX_MESSAGE_LIMIT as int
        },
        None => DEFAULT_MESSAGE_LIMIT as int,
    }
}

/// Raw event capture: when enabled and the line is an object, the record is
/// appended while both the count limit and the size budget allow it;
/// exceeding either bound sets the list's truncation flag, and from then on
/// the capture is over: nothing is ever appended again.
pub open spec fn spec_collect_step(v: AggView, ev: Event) -> AggView {
    if v.collect_all && !v.result.all_messages_truncated {
        if v.result.all_messages.len() < v.message_limit {
            match ev.object_json {
                Some(j) => if v.all_messages_size + byte_len(j@) <= MAX_ALL_MESSAGES_SIZE {
                    AggView {
                        result: ResultView {
                            all_messages: v.result.all_messages.push(j@),
                            ..v.result
                        },
                        all_messages_size: v.all_messages_size + byte_len(j@),
                        ..v
                    }
                } else {
                    AggView {
                        result: ResultView { all_messages_truncated: true, ..v.result },
                        ..v
                    }
                },
                None => v,
            }
        } else {
            AggView { result: ResultView { all_messages_truncated: true, ..v.result }, ..v }
        }
    } else {
        v
    }
}

/// Session capture: a non-empty `thread_id` overwrites the session id, so
/// the last one seen on the stream wins.
pub open spec fn spec_session_step(v: AggView, ev: Event) -> AggView {
    match ev.thread_id {
        Some(t) => if t@.len() > 0 {
            AggView { result: ResultView { session_id: t@, ..v.result }, ..v }
        } else {
            v
        },
        None => v,
    }
}

/// The marker appended once when the agent-message cap is exceeded.
pub open spec fn spec_agent_trunc_marker() -> Seq<char> {
    "\n[... Agent messages truncated due to size limit ...]"@
}

/// Agent text accumulation: new text is appended, separated from existing
/// text by one newline when both sides are non-empty; when the byte cap
/// would be exceeded the marker is appended once and the truncation flag set
/// instead, and afterwards nothing is ever appended again.
pub open spec fn spec_agent_append(r: ResultView, text: Seq<char>) -> ResultView {
    if byte_len(r.agent_messages) + byte_len(text) > MAX_AGENT_MESSAGES_SIZE {
        if !r.agent_messages_truncated {
            ResultView {
                agent_messages: r.agent_messages + spec_agent_trunc_marker(),
                agent_messages_truncated: true,
                ..r
            }
        } else {
            r
        }
    } else if !r.agent_messages_truncated {
        if r.agent_messages.len() > 0 && text.len() > 0 {
            ResultView { agent_messages: r.agent_messages + "\n"@ + text, ..r }
        } else {
            ResultView { agent_messages: r.agent_messages + text, ..r }
        }
    } else {
        r
    }
}

/// Agent text capture: only items of type `agent_message` with a text field
/// contribute.
pub open spec fn spec_agent_step(v: AggView, ev: Event) -> AggView {
    match ev.item_type {
        Some(it) => if it@ == "agent_message"@ {
            match ev.item_text {
                Some(text) => AggView { result: spec_agent_append(v.result, text@), ..v },
                None => v,
            }
        } else {
            v
        },
        None => v,
    }
}

/// Whether an event's `type` marks a failure: it contains the substring
/// `fail` or the substring `error` (a deliberately coarse, compatible
/// heuristic).
pub open spec fn spec_marks_failure(ty: Seq<char>) -> bool {
    spec_contains(encode_utf8(ty), encode_utf8("fail"@)) || spec_contains(
        encode_utf8(ty),
        encode_utf8("error"@),
    )
}

/// Failure capture: a failure-marked event makes the result unsuccessful;
/// its message — `error.message` when an `error` object exists, the
/// top-level `message` otherwise — overwrites any earlier error captured
/// this way, so the last one wins.
pub open spec fn spec_failure_step(v: AggView, ev: Event) -> AggView {
    match ev.event_type {
        Some(ty) => if spec_marks_failure(ty@) {
            let error = if ev.has_error_object {
                match ev.error_message {
                    Some(m) => Some("codex error: "@ + m@),
                    None => v.result.error,
                }
            } else {
                match ev.message {
                    Some(m) => Some("codex error: "@ + m@),
                    None => v.result.error,
                }
            };
            AggView { result: ResultView { success: false, error, ..v.result }, ..v }
        } else {
            v
        },
        None => v,
    }
}

/// Everything one well-formed event does to the state: raw capture, session
/// capture, agent text capture and failure capture, applied independently
/// in that order.
pub open spec fn spec_apply_event(v: AggView, ev: Event) -> AggView {
    spec_failure_step(spec_agent_step(spec_session_step(spec_collect_step(v, ev), ev), ev), ev)
}

/// The error recorded when a line exceeded the per-line cap.
pub open spec fn spec_line_overflow_msg() -> Seq<char> {
    "Output line exceeded 1048576 byte limit and was truncated, cannot parse JSON."@
}

/// The message recorded for a line that did not parse.
pub open spec fn spec_parse_error_msg(error: Seq<char>, line: Seq<char>) -> Seq<char> {
    "JSON parse error: "@ + error + ". Line: "@ + line
}

/// A parse error marks the result unsuccessful and appends its message to
/// any non-empty error already recorded, never replacing it.
pub open spec fn spec_record_parse_error(r: ResultView, error: Seq<char>, line: Seq<char>)
    -> ResultView {
    let msg = spec_parse_error_msg(error, line);
    let combined = match r.error {
        Some(existing) => if existing.len() > 0 {
            existing + "\n"@ + msg
        } else {
            msg
        },
        None => msg,
    };
    ResultView { success: false, error: Some(combined), ..r }
}

/// What one raw line does to the state.  In drain-only mode every line,
/// over-long or not, is ignored: errors accumulate and are never silently
/// replaced.  Otherwise an over-long line records the overflow error and
/// enters drain-only mode; a normal line is stripped of its terminators and,
/// unless empty, parsed: a line that does not parse records a parse error
/// and enters drain-only mode, and a parsed event is applied.
pub open spec fn spec_step(v: AggView, line: Seq<u8>, truncated: bool) -> AggView {
    if truncated {
        if v.drain {
            v
        } else {
            AggView {
                result: ResultView {
                    success: false,
                    error: Some(spec_line_overflow_msg()),
                    ..v.result
                },
                drain: true,
                ..v
            }
        }
    } else {
        let t = spec_trim_eol(line);
        if t.len() == 0 {
            v
        } else if v.drain {
            v
        } else {
            let s = spec_lossy(t);
            match spec_extract(s) {
                Ok(ev) => spec_apply_event(v, ev),
                Err(e) => AggView {
                    result: spec_record_parse_error(v.result, e@, s),
                    drain: true,
                    ..v
                },
            }
        }
    }
}

/// Whether processing the line asks for the child to be killed: exactly
/// when it makes the consumer enter drain-only mode.
pub open spec fn spec_step_kills(v: AggView, line: Seq<u8>, truncated: bool) -> bool {
    if truncated {
        !v.drain
    } else {
        let t = spec_trim_eol(line);
        t.len() > 0 && !v.drain && spec_extract(spec_lossy(t)) is Err
    }
}

/// The UTF-8 encoding of a concatenation is the concatenation of the
/// encodings.
pub proof fn lemma_encode_concat(a: Seq<char>, b: Seq<char>)
    ensures
        encode_utf8(a + b) == encode_utf8(a) + encode_utf8(b),
    decreases a.len(),
{
    if a.len() == 0 {
        assert(a + b =~= b);
        assert(encode_utf8(a) + encode_utf8(b) =~= encode_utf8(b));
    } else {
        assert((a + b).drop_first() =~= a.drop_first() + b);
        assert((a + b)[0] == a[0]);
        lemma_encode_concat(a.drop_first(), b);
        assert(encode_utf8(a + b) =~= encode_utf8(a) + encode_utf8(b));
    }
}

/// A text list extended by one entry sums to its old total plus the entry.
proof fn lemma_total_bytes_push(ms: Seq<Seq<char>>, j: Seq<char>)
    ensures
        spec_total_bytes(ms.push(j)) == spec_total_bytes(ms) + byte_len(j),
{
    assert(ms.push(j).drop_last() =~= ms);
    assert(ms.push(j).last() == j);
}

/// Records a parse error on the result: unsuccessful, with a structured
/// message appended to any error already present.
pub fn record_parse_error(result: &mut CodexResult, error: &str, line: &str)
    ensures
        final(result)@ == spec_record_parse_error(old(result)@, error@, line@),
{
    let mut msg = String::from_str("JSON parse error: ");
    msg.append(error);
    msg.append(". Line: ");
    msg.append(line);
    result.success = false;
    let taken = result.error.take();
    result.error = match taken {
        Some(existing) => {
            if !existing.as_str().is_empty() {
                let mut combined = existing;
                combined.append("\n");
                combined.append(msg.as_str());
                Some(combined)
            } else {
                Some(msg)
            }
        },
        None => Some(msg),
    };
    proof {
        assert(result@ =~~= spec_record_parse_error(old(result)@, error@, line@));
    }
}

impl Aggregator {
    /// A fresh consumer over an initial result, with capture mode and limit
    /// fixed: the requested limit is capped at the hard ceiling, and its
    /// absence means the default.
    pub fn new(collect_all: bool, requested_limit: Option<usize>) -> (r: Aggregator)
        ensures
            r@.result == spec_initial_result(),
            !r@.drain,
            r@.collect_all == collect_all,
            r@.message_limit == spec_message_limit(requested_limit),
            r@.wf(),
    {
        let message_limit: usize = match requested_limit {
            Some(l) => if l < MAX_MESSAGE_LIMIT {
                l
            } else {
                MAX_MESSAGE_LIMIT
            },
            None => DEFAULT_MESSAGE_LIMIT,
        };
        let r = Aggregator {
            result: CodexResult::new(),
            drain: false,
            all_messages_size: 0,
            collect_all,
            message_limit,
        };
        r
    }

    /// Raw event capture: appends the record while the count limit and the
    /// size budget allow it; exceeding either bound sets the truncation flag
    /// and ends the capture for good.
    fn collect_event(&mut self, ev: &Event)
        requires
            old(self)@.wf(),
        ensures
            final(self)@ == spec_collect_step(old(self)@, *ev),
            final(self)@.wf(),
    {
        if self.collect_all && !self.result.all_messages_truncated {
            if self.result.all_messages.len() < self.message_limit {
                match &ev.object_json {
                    Some(j) => {
                        let j_len: usize = j.as_str().as_bytes().len();
                        let fits = match self.all_messages_size.checked_add(j_len) {
                            Some(total) => total <= MAX_ALL_MESSAGES_SIZE,
                            None => false,
                        };
                        if fits {
                            self.all_messages_size = self.all_messages_size + j_len;
                            self.result.all_messages.push(j.clone());
                            proof {
                                lemma_total_bytes_push(old(self)@.result.all_messages, j@);
                                assert(self.result.all_messages.deep_view() =~= old(
                                    self,
                                )@.result.all_messages.push(j@));
                            }
                        } else {
                            self.result.all_messages_truncated = true;
                        }
                    },
                    None => {},
                }
            } else {
                self.result.all_messages_truncated = true;
            }
        }
        proof {
            assert(self@ =~~= spec_collect_step(old(self)@, *ev));
        }
    }

    /// Session capture: the last non-empty `thread_id` wins.
    fn session_event(&mut self, ev: &Event)
        requires
            old(self)@.wf(),
        ensures
            final(self)@ == spec_session_step(old(self)@, *ev),
            final(self)@.wf(),
    {
        match &ev.thread_id {
            Some(t) => {
                if !t.as_str().is_empty() {
                    self.result.session_id = t.clone();
                }
            },
            None => {},
        }
        proof {
            assert(self@ =~~= spec_session_step(old(self)@, *ev));
        }
    }

    /// Agent text capture: only items of type `agent_message` with a text
    /// field contribute.
    fn agent_event(&mut self, ev: &Event)
        requires
            old(self)@.wf(),
        ensures
            final(self)@ == spec_agent_step(old(self)@, *ev),
            final(self)@.wf(),
    {
        match &ev.item_type {
            Some(it) => {
                let tag = String::from_str("agent_message");
                if it.eq(&tag) {
                    match &ev.item_text {
                        Some(text) => {
                            self.append_agent_text(text);
                        },
                        None => {},
                    }
                }
            },
            None => {},
        }
        proof {
            assert(self@ =~~= spec_agent_step(old(self)@, *ev));
        }
    }

    /// Failure capture: a failure-marked event type makes the result
    /// unsuccessful, and the last extracted message wins.
    fn failure_event(&mut self, ev: &Event)
        requires
            old(self)@.wf(),
        ensures
            final(self)@ == spec_failure_step(old(self)@, *ev),
            final(self)@.wf(),
    {
        match &ev.event_type {
            Some(ty) => {
                if contains_bytes(ty.as_str().as_bytes(), "fail".as_bytes()) || contains_bytes(
                    ty.as_str().as_bytes(),
                    "error".as_bytes(),
                ) {
                    self.result.success = false;
                    let msg_field = if ev.has_error_object {
                        &ev.error_message
                    } else {
                        &ev.message
                    };
                    match msg_field {
                        Some(m) => {
                            let mut err = String::from_str("codex error: ");
                            err.append(m.as_str());
                            self.result.error = Some(err);
                        },
                        None => {},
                    }
                }
            },
            None => {},
        }
        proof {
            assert(self@ =~~= spec_failure_step(old(self)@, *ev));
        }
    }

    /// Applies one well-formed event to the state: raw capture, session
    /// capture, agent text capture and failure capture, independently.
    pub fn apply_event(&mut self, ev: &Event)
        requires
            old(self)@.wf(),
        ensures
            final(self)@ == spec_apply_event(old(self)@, *ev),
            final(self)@.wf(),
    {
        self.collect_event(ev);
        self.session_event(ev);
        self.agent_event(ev);
        self.failure_event(ev);
    }

    /// Appends one piece of agent text under the byte cap: separated by one
    /// newline when both sides are non-empty; on first exceedance the marker
    /// is appended and the truncation flag set; afterwards nothing changes.
    fn append_agent_text(&mut self, text: &String)
        requires
            old(self)@.wf(),
        ensures
            final(self)@ == (AggView {
                result: spec_agent_append(old(self)@.result, text@),
                ..old(self)@
            }),
            final(self)@.wf(),
    {
        let a_len: usize = self.result.agent_messages.as_str().as_bytes().len();
        let t_len: usize = text.as_str().as_bytes().len();
        let exceeds = match a_len.checked_add(t_len) {
            Some(total) => total > MAX_AGENT_MESSAGES_SIZE,
            None => true,
        };
        if exceeds {
            if !self.result.agent_messages_truncated {
                self.result.agent_messages.append(
                    "\n[... Agent messages truncated due to size limit ...]",
                );
                self.result.agent_messages_truncated = true;
                proof {
                    assert(self@.result =~~= spec_agent_append(old(self)@.result, text@));
                }
            }
        } else if !self.result.agent_messages_truncated {
            proof {
                lemma_encode_concat(old(self)@.result.agent_messages, "\n"@);
                lemma_encode_concat(old(self)@.result.agent_messages + "\n"@, text@);
                lemma_encode_concat(old(self)@.result.agent_messages, text@);
                reveal_strlit("\n");
                assert(encode_utf8("\n"@) =~= seq![10u8]) by {
                    vstd::utf8::is_ascii_chars_encode_utf8("\n"@);
                }
            }
            if !self.result.agent_messages.as_str().is_empty() && !text.as_str().is_empty() {
                self.result.agent_messages.append("\n");
            }
            self.result.agent_messages.append(text.as_str());
            proof {
                assert(self@.result =~~= spec_agent_append(old(self)@.result, text@));
            }
        }
        proof {
            assert(self@ =~~= (AggView {
                result: spec_agent_append(old(self)@.result, text@),
                ..old(self)@
            }));
        }
    }

    /// Consumes one raw line as the bounded reader produced it: `line` holds
    /// the bytes that were copied and `truncated` says whether more existed.
    /// In drain-only mode the line is discarded whatever it holds.
    /// Returns whether the caller must issue a non-blocking kill to the
    /// child — exactly when this line switched the consumer to drain-only
    /// mode.
    pub fn process_line(&mut self, line: &[u8], truncated: bool) -> (kill: bool)
        requires
            old(self)@.wf(),
        ensures
            final(self)@ == spec_step(old(self)@, line@, truncated),
            final(self)@.wf(),
            kill == spec_step_kills(old(self)@, line@, truncated),
    {
        if truncated {
            if self.drain {
                return false;
            }
            self.result.success = false;
            self.result.error = Some(
                String::from_str(
                    "Output line exceeded 1048576 byte limit and was truncated, cannot parse JSON.",
                ),
            );
            let kill = !self.drain;
            self.drain = true;
            proof {
                assert(self@ =~~= spec_step(old(self)@, line@, truncated));
            }
            return kill;
        }
        let t = trim_eol(line);
        if t.len() == 0 {
            return false;
        }
        if self.drain {
            return false;
        }
        let s = utf8_lossy(t);
        match extract_event(s.as_str()) {
            Ok(ev) => {
                self.apply_event(&ev);
                false
            },
            Err(e) => {
                record_parse_error(&mut self.result, e.as_str(), s.as_str());
                self.drain = true;
                proof {
                    assert(self@ =~~= spec_step(old(self)@, line@, truncated));
                }
                true
            },
        }
    }
}

/// The state after the whole stream image has been consumed line by line
/// under the per-line cap.
pub open spec fn spec_consume(v: AggView, bytes: Seq<u8>) -> AggView
    decreases bytes.len(),
    via spec_consume_decreases
{
    if bytes.len() == 0 {
        v
    } else {
        spec_consume(
            spec_step(
                v,
                bytes.take(spec_line_copied(bytes, MAX_LINE_LENGTH as int)),
                spec_line_truncated(bytes, MAX_LINE_LENGTH as int),
            ),
            bytes.skip(spec_line_len(bytes)),
        )
    }
}

#[via_fn]
proof fn spec_consume_decreases(v: AggView, bytes: Seq<u8>) {
    lemma_find_newline(bytes);
}

impl Aggregator {
    /// Consumes a whole stream image: reads one bounded line at a time and
    /// processes each in order, to end of stream.
    pub fn consume_stream(&mut self, data: &[u8])
        requires
            old(self)@.wf(),
        ensures
            final(self)@ == spec_consume(old(self)@, data@),
            final(self)@.wf(),
    {
        let mut pos: usize = 0;
        let mut buf: Vec<u8> = Vec::new();
        proof {
            assert(data@.skip(0) =~= data@);
        }
        while pos < data.len()
            invariant
                pos <= data@.len(),
                self@.wf(),
                spec_consume(old(self)@, data@) == spec_consume(self@, data@.skip(pos as int)),
            decreases data@.len() - pos,
        {
            buf.clear();
            let ghost rest = data@.skip(pos as int);
            let ghost pre = self@;
            let (res, next) = read_line_slice(data, pos, &mut buf, MAX_LINE_LENGTH);
            let _kill = self.process_line(buf.as_slice(), res.truncated);
            proof {
                lemma_find_newline(rest);
                assert(buf@ =~= rest.take(spec_line_copied(rest, MAX_LINE_LENGTH as int)));
                assert(data@.skip(next as int) =~= rest.skip(spec_line_len(rest)));
                assert(spec_consume(pre, rest) == spec_consume(
                    self@,
                    rest.skip(spec_line_len(rest)),
                ));
            }
            pos = next;
        }
        proof {
            assert(data@.skip(pos as int).len() == 0);
        }
    }
}

/// Truncation flags are monotonic: no line ever clears one, and once a flag
/// is set no line ever changes the field it guards again.
pub proof fn lemma_truncation_monotonic(v: AggView, line: Seq<u8>, truncated: bool)
    ensures
        v.result.agent_messages_truncated ==> spec_step(
            v,
            line,
            truncated,
        ).result.agent_messages_truncated && spec_step(v, line, truncated).result.agent_messages
            == v.result.agent_messages,
        v.result.all_messages_truncated ==> spec_step(
            v,
            line,
            truncated,
        ).result.all_messages_truncated && spec_step(v, line, truncated).result.all_messages
            == v.result.all_messages,
{
}

/// Truncation is permanent across any further input: once a field is marked
/// truncated, consuming any continuation of the stream leaves that field
/// unchanged with its flag still set.
pub proof fn lemma_truncation_monotonic_stream(v: AggView, bytes: Seq<u8>)
    ensures
        v.result.agent_messages_truncated ==> spec_consume(
            v,
            bytes,
        ).result.agent_messages_truncated && spec_consume(v, bytes).result.agent_messages
            == v.result.agent_messages,
        v.result.all_messages_truncated ==> spec_consume(
            v,
            bytes,
        ).result.all_messages_truncated && spec_consume(v, bytes).result.all_messages
            == v.result.all_messages,
    decreases bytes.len(),
{
    if bytes.len() > 0 {
        lemma_find_newline(bytes);
        let line = bytes.take(spec_line_copied(bytes, MAX_LINE_LENGTH as int));
        let truncated = spec_line_truncated(bytes, MAX_LINE_LENGTH as int);
        lemma_truncation_monotonic(v, line, truncated);
        lemma_truncation_monotonic_stream(
            spec_step(v, line, truncated),
            bytes.skip(spec_line_len(bytes)),
        );
    }
}

/// Two consecutive agent messages with non-empty text are joined by exactly
/// one newline: the aggregate then ends with the first text, one newline,
/// and the second text.
pub proof fn lemma_agent_join(r: ResultView, t1: Seq<char>, t2: Seq<char>)
    requires
        !r.agent_messages_truncated,
        t1.len() > 0,
        t2.len() > 0,
        byte_len(r.agent_messages) + byte_len(t1) <= MAX_AGENT_MESSAGES_SIZE,
        byte_len(spec_agent_append(r, t1).agent_messages) + byte_len(t2)
            <= MAX_AGENT_MESSAGES_SIZE,
    ensures
        spec_agent_append(r, t1).agent_messages.len() > 0,
        spec_agent_append(spec_agent_append(r, t1), t2).agent_messages == spec_agent_append(
            r,
            t1,
        ).agent_messages + "\n"@ + t2,
{
}

/// The session id reflects the last `thread_id` seen on the stream: an
/// event carrying a non-empty `thread_id` overwrites whatever was recorded
/// before it.
pub proof fn lemma_session_last_write(v: AggView, ev: Event, t: String)
    requires
        ev.thread_id == Some(t),
        t@.len() > 0,
    ensures
        spec_apply_event(v, ev).result.session_id == t@,
{
}

} // verus!
