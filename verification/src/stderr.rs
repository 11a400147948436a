//! Accumulation of the child's diagnostic stream.
//!
//! The drainer runs for the whole invocation so the child can never block on
//! a full stderr pipe: lines are read under the per-line cap, stripped of
//! their terminators and joined by single newlines under a total byte cap;
//! once the cap is exceeded a fixed marker is appended once and everything
//! further is read and discarded.

use vstd::prelude::*;
use vstd::string::StringExecFns;
use vstd::utf8::encode_utf8;
use crate::aggregate::{byte_len, lemma_encode_concat};
use crate::event::{spec_lossy, utf8_lossy};
use crate::text::{spec_trim_eol, trim_eol};

verus! {

/// Byte cap on the accumulated diagnostic text.
pub const MAX_STDERR_SIZE: usize = 1024 * 1024;

/// The marker appended once when the diagnostic text cap is exceeded.
pub open spec fn spec_stderr_trunc_marker() -> Seq<char> {
    "[... stderr truncated due to size limit ...]"@
}

/// The collected diagnostic text and whether its cap was exceeded.
pub struct StderrAccumulator {
    pub text: String,
    pub truncated: bool,
}

/// The accumulated text after one stripped line arrives.  A full
/// accumulator ignores the line; a line that would push the total (text,
/// separator and line) past the cap makes the marker the last entry; an
/// accepted line is joined to non-empty text by one newline.
pub open spec fn spec_stderr_text_after(
    text: Seq<char>,
    truncated: bool,
    line: Seq<char>,
) -> Seq<char> {
    if truncated {
        text
    } else if byte_len(text) + byte_len(line) + 1 > MAX_STDERR_SIZE {
        if text.len() > 0 {
            text + "\n"@ + spec_stderr_trunc_marker()
        } else {
            text + spec_stderr_trunc_marker()
        }
    } else {
        if text.len() > 0 {
            text + "\n"@ + line
        } else {
            text + line
        }
    }
}

/// The truncation flag after one stripped line arrives: monotonic, set
/// exactly when a line pushes the total past the cap.
pub open spec fn spec_stderr_truncated_after(
    text: Seq<char>,
    truncated: bool,
    line: Seq<char>,
) -> bool {
    truncated || byte_len(text) + byte_len(line) + 1 > MAX_STDERR_SIZE
}

impl StderrAccumulator {
    /// Internal consistency: the text stays under the cap until the marker
    /// is appended.
    pub open spec fn wf(&self) -> bool {
        !self.truncated ==> byte_len(self.text@) <= MAX_STDERR_SIZE
    }

    /// An empty accumulator.
    pub fn new() -> (r: StderrAccumulator)
        ensures
            r.text@ == Seq::<char>::empty(),
            !r.truncated,
            r.wf(),
    {
        StderrAccumulator { text: String::new(), truncated: false }
    }

    /// Accumulates one raw diagnostic line as the bounded reader produced
    /// it: terminators stripped, decoded, and joined under the byte cap.
    pub fn push_line(&mut self, line: &[u8])
        requires
            old(self).wf(),
        ensures
            final(self).text@ == spec_stderr_text_after(
                old(self).text@,
                old(self).truncated,
                spec_lossy(spec_trim_eol(line@)),
            ),
            final(self).truncated == spec_stderr_truncated_after(
                old(self).text@,
                old(self).truncated,
                spec_lossy(spec_trim_eol(line@)),
            ),
            final(self).wf(),
    {
        if self.truncated {
            return;
        }
        let t = trim_eol(line);
        let s = utf8_lossy(t);
        let s_len: usize = s.as_str().as_bytes().len();
        let text_len: usize = self.text.as_str().as_bytes().len();
        let exceeds = match text_len.checked_add(s_len) {
            Some(n) => n >= MAX_STDERR_SIZE,
            None => true,
        };
        proof {
            lemma_encode_concat(old(self).text@, "\n"@);
            lemma_encode_concat(old(self).text@ + "\n"@, s@);
            lemma_encode_concat(old(self).text@ + "\n"@, spec_stderr_trunc_marker());
            lemma_encode_concat(old(self).text@, s@);
            reveal_strlit("\n");
            assert(encode_utf8("\n"@) =~= seq![10u8]) by {
                vstd::utf8::is_ascii_chars_encode_utf8("\n"@);
            }
        }
        if exceeds {
            if !self.text.as_str().is_empty() {
                self.text.append("\n");
            }
            self.text.append("[... stderr truncated due to size limit ...]");
            self.truncated = true;
        } else {
            if !self.text.as_str().is_empty() {
                self.text.append("\n");
            }
            self.text.append(s.as_str());
        }
    }
}

} // verus!
