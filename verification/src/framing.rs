//! Newline-delimited framing of the MCP stdio transport.
//!
//! Each JSON-RPC message travels as one line terminated by `\n`; blank lines
//! between messages are tolerated, and no frame is buffered beyond a cap. The
//! transport reads with a bounded `read_until`: [`FrameReader`] makes every
//! decision between such reads, and [`read_protocol_message`] runs the same
//! reader over a byte buffer.

use vstd::prelude::*;

verus! {

/// Default cap on the size of a single newline-delimited MCP stdio frame.
///
/// The stdio transport has no length prefix, so a peer that never emits a
/// newline would otherwise force the server to buffer without bound. Frames
/// larger than this are answered with a JSON-RPC parse error instead of being
/// accumulated in memory.
pub const DEFAULT_MAX_FRAME_BYTES: usize = 16 * 1024 * 1024;

/// Chunk size used to drain the remainder of an oversized frame.
pub const OVERSIZED_DRAIN_CHUNK_BYTES: u64 = 64 * 1024;

/// The byte that ends a frame.
pub open spec fn newline() -> u8 {
    10
}

/// The byte that may precede the newline of a frame.
pub open spec fn carriage_return() -> u8 {
    13
}

/// A frame with a single `\n` terminator removed, and with it a `\r` that
/// stood just before that `\n`; a frame that does not end in `\n` is kept.
pub open spec fn trim_terminator(frame: Seq<u8>) -> Seq<u8> {
    if frame.len() > 0 && frame.last() == newline() {
        let a = frame.drop_last();
        if a.len() > 0 && a.last() == carriage_return() {
            a.drop_last()
        } else {
            a
        }
    } else {
        frame
    }
}

/// Trim a single `\n` terminator and any preceding `\r` from a raw frame.
pub fn trim_frame_terminator(frame: &[u8]) -> (r: &[u8])
    ensures
        r@ == trim_terminator(frame@),
{
    let n = frame.len();
    if n > 0 && frame[n - 1] == 10u8 {
        let mut m = n - 1;
        if m > 0 && frame[m - 1] == 13u8 {
            m = m - 1;
        }
        let r = vstd::slice::slice_subrange(frame, 0, m);
        proof {
            let a = frame@.drop_last();
            if a.len() > 0 && a.last() == carriage_return() {
                assert(a.drop_last() =~= frame@.subrange(0, m as int));
            } else {
                assert(a =~= frame@.subrange(0, m as int));
            }
        }
        r
    } else {
        frame
    }
}

/// The position just past the first newline at or after `pos`, or the end of
/// the input when no newline follows.
pub open spec fn line_stop(input: Seq<u8>, pos: int) -> int
    decreases input.len() - pos,
{
    if pos >= input.len() {
        input.len() as int
    } else if input[pos] == newline() {
        pos + 1
    } else {
        line_stop(input, pos + 1)
    }
}

/// Where a read from `pos` bounded by `limit` bytes stops: past the next
/// newline, at the end of the input, or after `limit` bytes, whichever comes
/// first.
pub open spec fn chunk_stop(input: Seq<u8>, pos: int, limit: int) -> int {
    if line_stop(input, pos) <= pos + limit {
        line_stop(input, pos)
    } else {
        pos + limit
    }
}

/// How many bytes one read of a frame may take: one more than the cap, so that a
/// frame of exactly the cap is read together with its terminator.
pub open spec fn frame_read_limit(max_frame_bytes: usize) -> int {
    if max_frame_bytes + 1 > u64::MAX {
        u64::MAX as int
    } else {
        max_frame_bytes + 1
    }
}

pub proof fn lemma_line_stop(input: Seq<u8>, pos: int)
    requires
        0 <= pos <= input.len(),
    ensures
        pos <= line_stop(input, pos) <= input.len(),
        pos < input.len() ==> pos < line_stop(input, pos),
        forall|k: int| pos <= k < line_stop(input, pos) - 1 ==> input[k] != newline(),
        line_stop(input, pos) < input.len() ==> input[line_stop(input, pos) - 1] == newline(),
        line_stop(input, pos) == input.len() && pos < input.len() ==> (input[input.len() - 1]
            == newline() || forall|k: int| pos <= k < input.len() ==> input[k] != newline()),
    decreases input.len() - pos,
{
    if pos < input.len() && input[pos] != newline() {
        lemma_line_stop(input, pos + 1);
    }
}

/// A run of bytes without a newline does not move where the line stops.
pub proof fn lemma_line_stop_skip(input: Seq<u8>, pos: int, mid: int)
    requires
        0 <= pos <= mid <= input.len(),
        forall|k: int| pos <= k < mid ==> input[k] != newline(),
    ensures
        line_stop(input, pos) == line_stop(input, mid),
    decreases mid - pos,
{
    if pos < mid {
        lemma_line_stop_skip(input, pos + 1, mid);
    }
}

/// The mathematical value of a frame.
pub enum FrameView {
    Message(Seq<u8>),
    Oversized(nat),
    Eof,
}

/// One framing outcome from the MCP stdio transport.
#[derive(Debug, PartialEq, Eq)]
pub enum ProtocolFrame {
    /// A complete frame, with its newline terminator trimmed.
    Message(Vec<u8>),
    /// A frame that exceeded the size cap. The payload is discarded up to the
    /// next frame boundary; the value is the number of bytes dropped.
    Oversized(usize),
    /// Clean end of stream.
    Eof,
}

impl View for ProtocolFrame {
    type V = FrameView;

    open spec fn view(&self) -> FrameView {
        match self {
            ProtocolFrame::Message(m) => FrameView::Message(m@),
            ProtocolFrame::Oversized(n) => FrameView::Oversized(*n as nat),
            ProtocolFrame::Eof => FrameView::Eof,
        }
    }
}

/// The frame that starts at `pos` of a byte stream whose whole content is
/// `input`, and the position after it.
///
/// At the end of the input the stream is over. A read takes one more byte than
/// the cap; when it stops at the limit without a newline the frame is oversized
/// and is discarded through the next newline (or to the end). Otherwise the
/// bytes read, with their terminator trimmed, are the frame, unless nothing is
/// left: then the blank line is skipped.
pub open spec fn frame_at(input: Seq<u8>, pos: int, max_frame_bytes: usize) -> (FrameView, int)
    decreases input.len() - pos,
{
    if pos < 0 || pos >= input.len() {
        (FrameView::Eof, pos)
    } else {
        let limit = frame_read_limit(max_frame_bytes);
        let stop = chunk_stop(input, pos, limit);
        let chunk = input.subrange(pos, stop);
        if chunk.last() != newline() && chunk.len() == limit {
            let end = line_stop(input, stop);
            (FrameView::Oversized((end - pos) as nat), end)
        } else if trim_terminator(chunk).len() == 0 {
            proof {
                lemma_line_stop(input, pos);
            }
            frame_at(input, stop, max_frame_bytes)
        } else {
            (FrameView::Message(trim_terminator(chunk)), stop)
        }
    }
}

/// The state of a frame reader between two reads: reading a frame, or
/// discarding the rest of an oversized one after `discarded` bytes.
pub enum FrameReaderState {
    Reading,
    Draining(usize),
}

/// The decisions of the stdio transport between two bounded reads.
///
/// The transport asks [`FrameReader::read_limit`] how many bytes the next
/// `read_until(b'\n')` may take, hands what it read to
/// [`FrameReader::on_chunk`], and repeats until a frame comes out.
pub struct FrameReader {
    max_frame_bytes: usize,
    state: FrameReaderState,
}

impl FrameReader {
    /// The cap of this reader.
    pub closed spec fn spec_max_frame_bytes(&self) -> usize {
        self.max_frame_bytes
    }

    /// The state of this reader.
    pub closed spec fn spec_state(&self) -> FrameReaderState {
        self.state
    }

    /// A reader, about to read a frame, for frames of at most
    /// `max_frame_bytes` bytes.
    pub fn new(max_frame_bytes: usize) -> (r: Self)
        ensures
            r.spec_max_frame_bytes() == max_frame_bytes,
            r.spec_state() is Reading,
    {
        FrameReader { max_frame_bytes, state: FrameReaderState::Reading }
    }

    /// How many bytes the next read may take: one more than the cap while
    /// reading a frame, a drain chunk while discarding one.
    pub fn read_limit(&self) -> (r: u64)
        ensures
            r >= 1,
            self.spec_state() is Reading ==> r == frame_read_limit(self.spec_max_frame_bytes()),
            self.spec_state() is Draining ==> r == OVERSIZED_DRAIN_CHUNK_BYTES,
    {
        match self.state {
            FrameReaderState::Reading => (self.max_frame_bytes as u64).saturating_add(1),
            FrameReaderState::Draining(_) => OVERSIZED_DRAIN_CHUNK_BYTES,
        }
    }

    /// Take the bytes of one bounded read (empty at the end of the stream) and
    /// say which frame, if any, is complete.
    pub fn on_chunk(&mut self, chunk: Vec<u8>) -> (r: Option<ProtocolFrame>)
        ensures
            final(self).spec_max_frame_bytes() == old(self).spec_max_frame_bytes(),
            match old(self).spec_state() {
                FrameReaderState::Reading => if chunk@.len() == 0 {
                    r == Some(ProtocolFrame::Eof) && final(self).spec_state() is Reading
                } else if chunk@.last() != newline() && chunk@.len() == frame_read_limit(
                    old(self).spec_max_frame_bytes(),
                ) {
                    r is None && final(self).spec_state() == FrameReaderState::Draining(
                        chunk@.len() as usize,
                    )
                } else if trim_terminator(chunk@).len() == 0 {
                    r is None && final(self).spec_state() is Reading
                } else {
                    r matches Some(f) && f@ == FrameView::Message(trim_terminator(chunk@))
                        && final(self).spec_state() is Reading
                },
                FrameReaderState::Draining(d) => {
                    let total = if d + chunk@.len() > usize::MAX {
                        usize::MAX as int
                    } else {
                        d + chunk@.len()
                    };
                    if chunk@.len() == 0 || chunk@.last() == newline() {
                        r matches Some(f) && f@ == FrameView::Oversized(total as nat)
                            && final(self).spec_state() is Reading
                    } else {
                        r is None && final(self).spec_state() == FrameReaderState::Draining(
                            total as usize,
                        )
                    }
                },
            },
    {
        match self.state {
            FrameReaderState::Reading => {
                if chunk.len() == 0 {
                    return Some(ProtocolFrame::Eof);
                }
                let last = chunk[chunk.len() - 1];
                if last != 10u8 && (chunk.len() as u64) == (self.max_frame_bytes as u64).saturating_add(1) {
                    self.state = FrameReaderState::Draining(chunk.len());
                    return None;
                }
                let trimmed = trim_frame_terminator(chunk.as_slice());
                if trimmed.len() == 0 {
                    None
                } else {
                    Some(ProtocolFrame::Message(vstd::slice::slice_to_vec(trimmed)))
                }
            },
            FrameReaderState::Draining(discarded) => {
                let total = discarded.saturating_add(chunk.len());
                if chunk.len() == 0 || chunk[chunk.len() - 1] == 10u8 {
                    self.state = FrameReaderState::Reading;
                    Some(ProtocolFrame::Oversized(total))
                } else {
                    self.state = FrameReaderState::Draining(total);
                    None
                }
            },
        }
    }
}

/// What a bounded `read_until(b'\n')` takes from `input` at `pos`: the bytes up
/// to and including the next newline, at most `limit` of them.
fn read_until_limited(input: &[u8], pos: usize, limit: u64) -> (r: Vec<u8>)
    requires
        pos <= input@.len(),
        limit >= 1,
    ensures
        r@ == input@.subrange(pos as int, chunk_stop(input@, pos as int, limit as int)),
{
    let mut r: Vec<u8> = Vec::new();
    let mut i = pos;
    proof {
        lemma_line_stop(input@, pos as int);
    }
    while i < input.len() && ((i - pos) as u64) < limit
        invariant
            pos <= i <= input@.len(),
            i - pos <= limit,
            r@ == input@.subrange(pos as int, i as int),
            forall|k: int| pos <= k < i ==> input@[k] != newline(),
        decreases input@.len() - i,
    {
        let b = input[i];
        r.push(b);
        i = i + 1;
        assert(r@ =~= input@.subrange(pos as int, i as int));
        if b == 10u8 {
            proof {
                lemma_line_stop_skip(input@, pos as int, (i - 1) as int);
            }
            return r;
        }
    }
    proof {
        lemma_line_stop_skip(input@, pos as int, i as int);
        lemma_line_stop(input@, i as int);
    }
    r
}

/// Read the frame at the start of `input`, as the stdio transport reads it from
/// a stream whose whole content is `input`: the frame and the number of bytes
/// it takes, blank lines and a discarded frame's rest included.
pub fn read_protocol_message(input: &[u8], max_frame_bytes: usize) -> (r: (ProtocolFrame, usize))
    ensures
        (r.0@, r.1 as int) == frame_at(input@, 0, max_frame_bytes),
{
    let mut reader = FrameReader::new(max_frame_bytes);
    let mut pos: usize = 0;
    let len = input.len();
    loop
        invariant
            len == input@.len(),
            pos <= input@.len(),
            reader.spec_max_frame_bytes() == max_frame_bytes,
            match reader.spec_state() {
                FrameReaderState::Reading => frame_at(input@, 0, max_frame_bytes) == frame_at(
                    input@,
                    pos as int,
                    max_frame_bytes,
                ),
                FrameReaderState::Draining(d) => d <= pos && frame_at(
                    input@,
                    0,
                    max_frame_bytes,
                ) == (
                    FrameView::Oversized((line_stop(input@, pos as int) - pos + d) as nat),
                    line_stop(input@, pos as int),
                ),
            },
        decreases input@.len() - pos,
    {
        let limit = reader.read_limit();
        let chunk = read_until_limited(input, pos, limit);
        let ghost start = pos as int;
        let ghost state = reader.spec_state();
        proof {
            lemma_line_stop(input@, start);
            assert(chunk_stop(input@, start, limit as int) <= input@.len());
            assert(chunk@.len() == chunk_stop(input@, start, limit as int) - start);
        }
        let n = chunk.len();
        let ghost chunk_view = chunk@;
        let out = reader.on_chunk(chunk);
        pos = pos + n;
        proof {
            let stop = chunk_stop(input@, start, limit as int);
            assert(stop == pos);
            match state {
                FrameReaderState::Reading => {
                    if start < input@.len() {
                        assert(chunk_view.len() > 0);
                        if chunk_view.last() != newline() && chunk_view.len() == frame_read_limit(
                            max_frame_bytes,
                        ) {
                            lemma_line_stop_skip(input@, start, pos as int);
                            lemma_line_stop(input@, pos as int);
                        }
                    }
                },
                FrameReaderState::Draining(d) => {
                    if chunk_view.len() > 0 && chunk_view.last() != newline() {
                        assert(forall|k: int| start <= k < pos ==> input@[k] != newline()) by {
                            assert forall|k: int| start <= k < pos implies input@[k] != newline() by {
                                assert(chunk_view[k - start] == input@[k]);
                                if k < pos - 1 {
                                } else {
                                    assert(chunk_view.last() == input@[k]);
                                }
                            }
                        }
                        lemma_line_stop_skip(input@, start, pos as int);
                    } else if chunk_view.len() > 0 {
                        assert(input@[pos - 1] == newline());
                    }
                },
            }
        }
        if let Some(frame) = out {
            return (frame, pos);
        }
    }
}

} // verus!
