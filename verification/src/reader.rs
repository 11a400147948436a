//! Bounded line reading.
//!
//! A line is read from a byte stream into a caller buffer that is capped at a
//! maximum length: bytes past the cap are consumed but never stored, so a
//! pathological multi-gigabyte line costs only the cap in memory and the
//! stream stays aligned on line boundaries for the next read.

use vstd::prelude::*;

verus! {

/// Result of reading one line under a length cap: how many bytes were copied
/// into the caller buffer (0 signals end of stream), and whether bytes beyond
/// the cap existed on the line.
#[derive(Debug, Clone, Copy, PartialEq, Eq, Structural)]
pub struct ReadLineResult {
    pub bytes_read: usize,
    pub truncated: bool,
}

/// Outcome of scanning one chunk of the stream: how many chunk bytes were
/// consumed, whether a line terminator was found among them, how many bytes
/// were copied into the buffer, and the updated truncation flag.
#[derive(Debug, Clone, Copy, PartialEq, Eq, Structural)]
pub struct ChunkScan {
    pub consumed: usize,
    pub found_newline: bool,
    pub copied: usize,
    pub truncated: bool,
}

/// Index of the first line-terminator byte, or `bytes.len()` if there is none.
pub open spec fn spec_find_newline(bytes: Seq<u8>) -> int
    decreases bytes.len(),
{
    if bytes.len() == 0 {
        0
    } else if bytes[0] == 10u8 {
        0
    } else {
        1 + spec_find_newline(bytes.drop_first())
    }
}

pub proof fn lemma_find_newline(bytes: Seq<u8>)
    ensures
        0 <= spec_find_newline(bytes) <= bytes.len(),
        spec_find_newline(bytes) < bytes.len() ==> bytes[spec_find_newline(bytes)] == 10u8,
        forall|i: int| 0 <= i < spec_find_newline(bytes) ==> bytes[i] != 10u8,
    decreases bytes.len(),
{
    if bytes.len() > 0 && bytes[0] != 10u8 {
        let rest = bytes.drop_first();
        lemma_find_newline(rest);
        let f = spec_find_newline(bytes);
        if f < bytes.len() {
            assert(bytes[f] == rest[f - 1]);
        }
        assert forall|i: int| 0 <= i < f implies bytes[i] != 10u8 by {
            if i > 0 {
                assert(rest[i - 1] != 10u8);
            }
        }
    }
}

/// Number of raw bytes the line occupies in the stream, terminator included
/// (every byte up to end of stream when no terminator follows).
pub open spec fn spec_line_len(bytes: Seq<u8>) -> int {
    if spec_find_newline(bytes) < bytes.len() {
        spec_find_newline(bytes) + 1
    } else {
        bytes.len() as int
    }
}

/// The raw bytes of the first line of the stream, terminator included.
pub open spec fn spec_line(bytes: Seq<u8>) -> Seq<u8> {
    bytes.take(spec_line_len(bytes))
}

/// How many bytes of the first line fit a buffer with `room` bytes left.
pub open spec fn spec_line_copied(bytes: Seq<u8>, room: int) -> int {
    if spec_line_len(bytes) <= room {
        spec_line_len(bytes)
    } else if room >= 0 {
        room
    } else {
        0
    }
}

/// Whether the first line holds bytes beyond a buffer with `room` bytes left.
pub open spec fn spec_line_truncated(bytes: Seq<u8>, room: int) -> bool {
    spec_line_len(bytes) > room
}

/// Scans one chunk of the stream, copying bytes into `buf` while it is below
/// `max_len` and the line is not already marked truncated, and stopping right
/// after the first line terminator.  The caller consumes `consumed` bytes
/// from the stream and, when no terminator was found and the stream has more
/// bytes, calls again with the next chunk.
pub fn scan_chunk(buf: &mut Vec<u8>, chunk: &[u8], max_len: usize, truncated: bool) -> (r:
    ChunkScan)
    ensures
        ({
            let room = if truncated {
                0int
            } else if old(buf)@.len() >= max_len {
                0int
            } else {
                max_len - old(buf)@.len()
            };
            &&& r.consumed == spec_line_len(chunk@)
            &&& r.found_newline == (spec_find_newline(chunk@) < chunk@.len())
            &&& r.copied == spec_line_copied(chunk@, room)
            &&& r.truncated == (truncated || spec_line_len(chunk@) > room)
            &&& final(buf)@ == old(buf)@ + chunk@.take(r.copied as int)
        }),
{
    proof {
        lemma_find_newline(chunk@);
    }
    let ghost room: int = if truncated {
        0int
    } else if buf@.len() >= max_len {
        0int
    } else {
        max_len - buf@.len()
    };
    let mut i: usize = 0;
    let mut copied: usize = 0;
    let mut trunc = truncated;
    let n: usize = chunk.len();
    while i < n
        invariant
            n == chunk@.len(),
            0 <= i <= n,
            forall|k: int| 0 <= k < i ==> chunk@[k] != 10u8,
            room == if truncated {
                0int
            } else if old(buf)@.len() >= max_len {
                0int
            } else {
                max_len - old(buf)@.len()
            },
            copied == if i <= room {
                i as int
            } else {
                room
            },
            trunc == (truncated || i > room),
            buf@ == old(buf)@ + chunk@.take(copied as int),
            buf@.len() == old(buf)@.len() + copied,
        decreases n - i,
    {
        let b: u8 = chunk[i];
        if !trunc && buf.len() < max_len {
            buf.push(b);
            copied = copied + 1;
            proof {
                assert(chunk@.take(copied as int) =~= chunk@.take(copied as int - 1).push(b));
            }
        } else if !trunc {
            trunc = true;
        }
        i = i + 1;
        if b == 10u8 {
            proof {
                lemma_find_newline(chunk@);
                let f = spec_find_newline(chunk@);
                assert(chunk@[i - 1] == 10u8);
                if f < i - 1 {
                    assert(chunk@[f] != 10u8);
                }
                if f > i - 1 {
                    assert(chunk@[i - 1] != 10u8);
                }
                assert(f == i - 1);
            }
            return ChunkScan { consumed: i, found_newline: true, copied, truncated: trunc };
        }
    }
    proof {
        assert(spec_find_newline(chunk@) == chunk@.len());
        assert(chunk@.take(chunk@.len() as int) == chunk@);
    }
    ChunkScan { consumed: n, found_newline: false, copied, truncated: trunc }
}

/// Reads one line out of an in-memory stream image starting at `pos` into an
/// empty buffer capped at `max_len`, returning the read outcome and the
/// position where the next line starts.
pub fn read_line_slice(data: &[u8], pos: usize, buf: &mut Vec<u8>, max_len: usize) -> (r: (
    ReadLineResult,
    usize,
))
    requires
        pos <= data@.len(),
        old(buf)@.len() == 0,
    ensures
        ({
            let rest = data@.skip(pos as int);
            &&& r.0.bytes_read == spec_line_copied(rest, max_len as int)
            &&& r.0.truncated == spec_line_truncated(rest, max_len as int)
            &&& r.1 == pos + spec_line_len(rest)
            &&& final(buf)@ == spec_line(rest).take(r.0.bytes_read as int)
            &&& r.0.bytes_read == final(buf)@.len()
        }),
{
    let chunk: &[u8] = &data[pos..data.len()];
    let scan = scan_chunk(buf, chunk, max_len, false);
    proof {
        lemma_find_newline(chunk@);
        assert(chunk@ =~= data@.skip(pos as int));
        assert(chunk@.take(scan.copied as int) =~= spec_line(chunk@).take(scan.copied as int));
        assert(old(buf)@ + chunk@.take(scan.copied as int) =~= chunk@.take(scan.copied as int));
    }
    (ReadLineResult { bytes_read: scan.copied, truncated: scan.truncated }, pos + scan.consumed)
}

/// A line of exactly `max_len + k` non-terminator bytes followed by one
/// terminator is always reported truncated, and at most `max_len` of its
/// bytes are ever copied into the buffer.
pub proof fn lemma_long_line_truncated(bytes: Seq<u8>, max_len: nat, k: nat)
    requires
        max_len + k < bytes.len(),
        forall|i: int| 0 <= i < max_len + k ==> bytes[i] != 10u8,
        bytes[max_len + k as int] == 10u8,
    ensures
        spec_line_truncated(bytes, max_len as int),
        spec_line_copied(bytes, max_len as int) <= max_len,
{
    lemma_find_newline(bytes);
    assert(spec_find_newline(bytes) == max_len + k);
}

} // verus!
