//! Server-sent-event framing.
//!
//! A body is a run of lines, each ended by LF, CR or CR LF. A line names a
//! field and gives it a value; a blank line ends a frame. Only the `event` and
//! `data` fields matter here: a frame that saw at least one `data` line is
//! handed out, every other frame is dropped. Bytes after the last line end are
//! kept until more bytes arrive, so a body may be fed in pieces of any size.
use vstd::prelude::*;
use vstd::string::{is_ascii_spec_bytes, StringSliceAdditionalSpecFns};
use vstd::utf8::encode_utf8;

verus! {

/// Line feed.
pub const LF: u8 = 10;

/// Carriage return.
pub const CR: u8 = 13;

/// The colon that parts the name of a field from its value.
pub const COLON: u8 = 58;

/// The blank that may follow the colon.
pub const SPACE: u8 = 32;

/// The first index at or after `from` that holds `a` or `b`; the length of
/// `s` where there is none.
pub open spec fn first_of(s: Seq<u8>, from: int, a: u8, b: u8) -> int
    decreases s.len() - from,
{
    if from < 0 || from >= s.len() {
        s.len() as int
    } else if s[from] == a || s[from] == b {
        from
    } else {
        first_of(s, from + 1, a, b)
    }
}

/// `first_of` is the least matching index.
pub proof fn lemma_first_of_is_least(s: Seq<u8>, from: int, a: u8, b: u8)
    requires
        0 <= from <= s.len(),
    ensures
        from <= first_of(s, from, a, b) <= s.len(),
        first_of(s, from, a, b) < s.len() ==> s[first_of(s, from, a, b)] == a || s[first_of(
            s,
            from,
            a,
            b,
        )] == b,
        forall|k: int| from <= k < first_of(s, from, a, b) ==> s[k] != a && s[k] != b,
    decreases s.len() - from,
{
    if from < s.len() && !(s[from] == a || s[from] == b) {
        lemma_first_of_is_least(s, from + 1, a, b);
    }
}

/// An index with no match before it, and a match or the end at it, is
/// `first_of`.
pub proof fn lemma_first_of_found(s: Seq<u8>, from: int, a: u8, b: u8, at: int)
    requires
        0 <= from <= at <= s.len(),
        forall|k: int| from <= k < at ==> s[k] != a && s[k] != b,
        at < s.len() ==> s[at] == a || s[at] == b,
    ensures
        first_of(s, from, a, b) == at,
    decreases at - from,
{
    if from < at {
        lemma_first_of_found(s, from + 1, a, b, at);
    }
}

/// The first whole line of `s`: the length of its content and the number of
/// bytes it takes up with its line end. `None` while the line end is missing,
/// or is a CR at the very end, which a following LF would still belong to.
pub open spec fn next_line(s: Seq<u8>) -> Option<(int, int)> {
    let n = first_of(s, 0, LF, CR);
    if n >= s.len() {
        None
    } else if s[n] == LF {
        Some((n, n + 1))
    } else if n + 1 >= s.len() {
        None
    } else if s[n + 1] == LF {
        Some((n, n + 2))
    } else {
        Some((n, n + 1))
    }
}

/// The field name of a line: what stands before its first colon.
pub open spec fn field_name(line: Seq<u8>) -> Seq<u8> {
    line.take(first_of(line, 0, COLON, COLON))
}

/// The field value of a line: what follows its first colon, without one
/// leading space; empty where the line has no colon.
pub open spec fn field_value(line: Seq<u8>) -> Seq<u8> {
    let c = first_of(line, 0, COLON, COLON);
    if c >= line.len() {
        Seq::empty()
    } else if c + 1 < line.len() && line[c + 1] == SPACE {
        line.skip(c + 2)
    } else {
        line.skip(c + 1)
    }
}

/// The bytes of the field name `data`.
pub open spec fn data_name() -> Seq<u8> {
    encode_utf8("data"@)
}

/// The bytes of the field name `event`.
pub open spec fn event_name() -> Seq<u8> {
    encode_utf8("event"@)
}

/// The bytes of `message`, the type of a frame that names none.
pub open spec fn default_event() -> Seq<u8> {
    encode_utf8("message"@)
}

/// The three names, byte by byte.
pub proof fn lemma_names()
    ensures
        data_name() == seq![100u8, 97u8, 116u8, 97u8],
        event_name() == seq![101u8, 118u8, 101u8, 110u8, 116u8],
        default_event() == seq![109u8, 101u8, 115u8, 115u8, 97u8, 103u8, 101u8],
{
    reveal_strlit("data");
    reveal_strlit("event");
    reveal_strlit("message");
    is_ascii_spec_bytes("data");
    is_ascii_spec_bytes("event");
    is_ascii_spec_bytes("message");
    assert(data_name() =~= seq![100u8, 97u8, 116u8, 97u8]);
    assert(event_name() =~= seq![101u8, 118u8, 101u8, 110u8, 116u8]);
    assert(default_event() =~= seq![109u8, 101u8, 115u8, 115u8, 97u8, 103u8, 101u8]);
}

/// One frame as it is handed out.
pub struct Frame {
    /// The event type; `message` where the frame named none.
    pub event: Seq<u8>,
    /// The payload: the values of the frame's `data` lines, joined by LF.
    pub data: Seq<u8>,
}

/// The frame under construction.
pub struct FrameState {
    /// The value of the last `event` line of this frame; empty before one.
    pub event: Seq<u8>,
    /// The value of every `data` line of this frame so far, each followed by
    /// LF; empty before the first.
    pub data: Seq<u8>,
}

/// The state before the first line of a frame.
pub open spec fn fresh_frame() -> FrameState {
    FrameState { event: Seq::empty(), data: Seq::empty() }
}

/// What one line does to the frame under construction, and the frame that it
/// completes, if it completes one.
pub open spec fn apply_line(st: FrameState, line: Seq<u8>) -> (FrameState, Option<Frame>) {
    if line.len() == 0 {
        if st.data.len() == 0 {
            (fresh_frame(), None)
        } else {
            (
                fresh_frame(),
                Some(
                    Frame {
                        event: if st.event.len() == 0 {
                            default_event()
                        } else {
                            st.event
                        },
                        data: st.data.drop_last(),
                    },
                ),
            )
        }
    } else if field_name(line) == data_name() {
        (FrameState { event: st.event, data: st.data + field_value(line) + seq![LF] }, None)
    } else if field_name(line) == event_name() {
        (FrameState { event: field_value(line), data: st.data }, None)
    } else {
        (st, None)
    }
}

/// Where a run over some bytes ends.
pub struct RunResult {
    /// The frame under construction after the last whole line.
    pub state: FrameState,
    /// The bytes after the last whole line.
    pub rest: Seq<u8>,
    /// The frames completed, in the order of their blank lines.
    pub frames: Seq<Frame>,
}

/// `frames` with `first` in front, if there is one.
pub open spec fn with_first(first: Option<Frame>, frames: Seq<Frame>) -> Seq<Frame> {
    match first {
        Some(f) => seq![f] + frames,
        None => frames,
    }
}

/// Reads every whole line of `buf`, starting with the frame state `st`.
pub open spec fn run(st: FrameState, buf: Seq<u8>) -> RunResult
    decreases buf.len(),
    via run_ends
{
    match next_line(buf) {
        None => RunResult { state: st, rest: buf, frames: Seq::empty() },
        Some((n, c)) => {
            let step = apply_line(st, buf.take(n));
            let tail = run(step.0, buf.skip(c));
            RunResult { state: tail.state, rest: tail.rest, frames: with_first(step.1, tail.frames) }
        },
    }
}

#[via_fn]
proof fn run_ends(st: FrameState, buf: Seq<u8>) {
    lemma_next_line_bounds(buf);
}

/// A whole line takes up at least its line end and lies inside the buffer.
pub proof fn lemma_next_line_bounds(s: Seq<u8>)
    ensures
        next_line(s) matches Some((n, c)) ==> 0 <= n < c <= s.len() && c <= n + 2,
{
    lemma_first_of_is_least(s, 0, LF, CR);
}

/// A line that is whole stays the same line when more bytes follow.
pub proof fn lemma_next_line_stable(s: Seq<u8>, more: Seq<u8>)
    requires
        next_line(s) is Some,
    ensures
        next_line(s + more) == next_line(s),
{
    lemma_first_of_is_least(s, 0, LF, CR);
    let n = first_of(s, 0, LF, CR);
    let t = s + more;
    assert forall|k: int| 0 <= k < n implies t[k] != LF && t[k] != CR by {
        assert(t[k] == s[k]);
    }
    assert(t[n] == s[n]);
    lemma_first_of_found(t, 0, LF, CR, n);
    if s[n] != LF {
        assert(t[n + 1] == s[n + 1]);
    }
}

/// What is left of a run goes on where it stopped once more bytes arrive.
pub open spec fn resume(r: RunResult, more: Seq<u8>) -> RunResult {
    let next = run(r.state, r.rest + more);
    RunResult { state: next.state, rest: next.rest, frames: r.frames + next.frames }
}

/// Cutting a body in two changes nothing: reading `a`, then `b` from where
/// `a` stopped, gives the frames, the state and the rest of reading `a + b`.
pub proof fn lemma_run_split(st: FrameState, a: Seq<u8>, b: Seq<u8>)
    ensures
        run(st, a + b) == resume(run(st, a), b),
    decreases a.len(),
{
    match next_line(a) {
        None => {
            assert(run(st, a).frames + run(st, a + b).frames =~= run(st, a + b).frames);
        },
        Some((n, c)) => {
            lemma_next_line_bounds(a);
            lemma_next_line_stable(a, b);
            assert((a + b).take(n) =~= a.take(n));
            assert((a + b).skip(c) =~= a.skip(c) + b);
            let step = apply_line(st, a.take(n));
            lemma_run_split(step.0, a.skip(c), b);
            let tail = run(step.0, a.skip(c));
            let next = run(tail.state, tail.rest + b);
            assert(with_first(step.1, tail.frames + next.frames) =~= with_first(
                step.1,
                tail.frames,
            ) + next.frames);
        },
    }
}

/// The byte-order mark that may open a body.
pub open spec fn bom() -> Seq<u8> {
    seq![0xEFu8, 0xBBu8, 0xBFu8]
}

/// `s` is too short to tell whether it opens with the byte-order mark, and
/// agrees with the mark so far.
pub open spec fn is_bom_start(s: Seq<u8>) -> bool {
    s.len() < 3 && s == bom().take(s.len() as int)
}

/// `s` opens with the byte-order mark.
pub open spec fn has_bom(s: Seq<u8>) -> bool {
    s.len() >= 3 && s.take(3) == bom()
}

/// What a decoder holds between two chunks.
pub struct DecoderState {
    /// Whether the opening of the body has been looked at.
    pub started: bool,
    /// The bytes received after the last whole line.
    pub pending: Seq<u8>,
    /// The frame under construction.
    pub frame: FrameState,
}

/// The state of a decoder that has received nothing.
pub open spec fn initial_state() -> DecoderState {
    DecoderState { started: false, pending: Seq::empty(), frame: fresh_frame() }
}

/// Where the first line begins in the bytes `buf` that a decoder holds:
/// behind the byte-order mark if the body opens with one. `None` while `buf`
/// is too short to tell.
pub open spec fn opening(started: bool, buf: Seq<u8>) -> Option<int> {
    if started {
        Some(0)
    } else if is_bom_start(buf) {
        None
    } else if has_bom(buf) {
        Some(3)
    } else {
        Some(0)
    }
}

/// What a chunk does to a decoder: the state after it, and the frames that it
/// completes.
pub open spec fn decode_step(s: DecoderState, chunk: Seq<u8>) -> (DecoderState, Seq<Frame>) {
    let buf = s.pending + chunk;
    match opening(s.started, buf) {
        None => (DecoderState { started: false, pending: buf, frame: s.frame }, Seq::empty()),
        Some(at) => {
            let r = run(s.frame, buf.skip(at));
            (DecoderState { started: true, pending: r.rest, frame: r.state }, r.frames)
        },
    }
}

/// The frames of a whole body.
pub open spec fn frames_of(body: Seq<u8>) -> Seq<Frame> {
    decode_step(initial_state(), body).1
}

/// What a run of chunks does to a decoder, one `decode_step` after another.
pub open spec fn decode_chunks(s: DecoderState, chunks: Seq<Seq<u8>>) -> (DecoderState, Seq<Frame>)
    decreases chunks.len(),
{
    if chunks.len() == 0 {
        (s, Seq::empty())
    } else {
        let head = decode_chunks(s, chunks.drop_last());
        let last = decode_step(head.0, chunks.last());
        (last.0, head.1 + last.1)
    }
}

/// The bytes of a run of chunks, end to end.
pub open spec fn joined(chunks: Seq<Seq<u8>>) -> Seq<u8>
    decreases chunks.len(),
{
    if chunks.len() == 0 {
        Seq::empty()
    } else {
        joined(chunks.drop_last()) + chunks.last()
    }
}

/// A chunk may be cut anywhere: feeding `a` and then `b` leaves the decoder
/// in the state, and hands out the frames, of feeding `a + b` at once.
pub proof fn lemma_step_split(s: DecoderState, a: Seq<u8>, b: Seq<u8>)
    ensures
        decode_step(s, a + b).0 == decode_step(decode_step(s, a).0, b).0,
        decode_step(s, a + b).1 == decode_step(s, a).1 + decode_step(decode_step(s, a).0, b).1,
{
    let buf_a = s.pending + a;
    let buf_ab = s.pending + (a + b);
    assert(buf_ab =~= buf_a + b);
    match opening(s.started, buf_a) {
        None => {
            let s1 = decode_step(s, a).0;
            assert(s1.pending + b =~= buf_ab);
            assert(decode_step(s, a).1 + decode_step(s1, b).1 =~= decode_step(s1, b).1);
        },
        Some(at) => {
            if !s.started {
                if buf_a.len() >= 3 {
                    assert(buf_ab.take(3) =~= buf_a.take(3));
                } else {
                    assert(!(buf_a =~= bom().take(buf_a.len() as int)));
                    let k = choose|k: int|
                        0 <= k < buf_a.len() && buf_a[k] != bom().take(buf_a.len() as int)[k];
                    assert(buf_ab[k] == buf_a[k]);
                    if buf_ab.len() < 3 {
                        assert(bom().take(buf_ab.len() as int)[k] == bom()[k]);
                    } else {
                        assert(buf_ab.take(3)[k] == buf_ab[k]);
                    }
                }
            }
            assert(opening(s.started, buf_ab) == Some(at));
            assert(buf_ab.skip(at) =~= buf_a.skip(at) + b);
            assert(buf_a.skip(0) =~= buf_a);
            lemma_run_split(s.frame, buf_a.skip(at), b);
            let s1 = decode_step(s, a).0;
            assert((s1.pending + b).skip(0) =~= s1.pending + b);
        },
    }
}

/// However a body is cut into chunks, a decoder at rest, a fresh one above
/// all, ends in the state and hands out the frames of the whole body, in the
/// same order.
pub proof fn lemma_chunking_is_invisible(s: DecoderState, chunks: Seq<Seq<u8>>)
    requires
        at_rest(s),
    ensures
        decode_chunks(s, chunks) == decode_step(s, joined(chunks)),
    decreases chunks.len(),
{
    if chunks.len() == 0 {
        assert(s.pending + joined(chunks) =~= s.pending);
        lemma_step_empty(s);
    } else {
        lemma_chunking_is_invisible(s, chunks.drop_last());
        lemma_step_split(s, joined(chunks.drop_last()), chunks.last());
    }
}

/// A decoder at rest holds no whole line: every one was read when it arrived.
pub open spec fn at_rest(s: DecoderState) -> bool {
    if s.started {
        next_line(s.pending) is None
    } else {
        is_bom_start(s.pending)
    }
}

/// An empty chunk changes nothing in a decoder at rest.
pub proof fn lemma_step_empty(s: DecoderState)
    requires
        at_rest(s),
    ensures
        decode_step(s, Seq::empty()) == (s, Seq::<Frame>::empty()),
{
    assert(s.pending + Seq::<u8>::empty() =~= s.pending);
    assert(s.pending.skip(0) =~= s.pending);
}

/// A run leaves no whole line behind.
pub proof fn lemma_run_rest(st: FrameState, buf: Seq<u8>)
    ensures
        next_line(run(st, buf).rest) is None,
    decreases buf.len(),
{
    match next_line(buf) {
        None => {},
        Some((n, c)) => {
            lemma_next_line_bounds(buf);
            lemma_run_rest(apply_line(st, buf.take(n)).0, buf.skip(c));
        },
    }
}

/// A chunk leaves a decoder at rest, whatever state it was in.
pub proof fn lemma_step_at_rest(s: DecoderState, chunk: Seq<u8>)
    ensures
        at_rest(decode_step(s, chunk).0),
{
    let buf = s.pending + chunk;
    if let Some(at) = opening(s.started, buf) {
        lemma_run_rest(s.frame, buf.skip(at));
    }
}

/// A frame of a server-sent-event body.
#[derive(Debug, PartialEq, Eq)]
pub struct SseFrame {
    /// The event type; `message` where the frame named none.
    pub event: Vec<u8>,
    /// The payload: the values of the frame's `data` lines, joined by LF.
    pub data: Vec<u8>,
}

impl View for SseFrame {
    type V = Frame;

    open spec fn view(&self) -> Frame {
        Frame { event: self.event@, data: self.data@ }
    }
}

/// The frames that a vector of frames stands for.
pub open spec fn frames_view(frames: Seq<SseFrame>) -> Seq<Frame> {
    frames.map_values(|f: SseFrame| f@)
}

/// Appends `src[from..to]` to `dst`.
pub fn append_bytes(dst: &mut Vec<u8>, src: &[u8], from: usize, to: usize)
    requires
        from <= to <= src@.len(),
    ensures
        final(dst)@ == old(dst)@ + src@.subrange(from as int, to as int),
{
    let mut i: usize = from;
    while i < to
        invariant
            from <= i <= to <= src@.len(),
            dst@ == old(dst)@ + src@.subrange(from as int, i as int),
        decreases to - i,
    {
        dst.push(src[i]);
        i = i + 1;
        assert(dst@ =~= old(dst)@ + src@.subrange(from as int, i as int));
    }
}

/// An incremental decoder of server-sent-event frames.
///
/// Bytes go in by `feed`, in chunks of any size; each call hands out the
/// frames that its chunk completed.
pub struct SseDecoder {
    started: bool,
    pending: Vec<u8>,
    event: Vec<u8>,
    data: Vec<u8>,
}

impl View for SseDecoder {
    type V = DecoderState;

    closed spec fn view(&self) -> DecoderState {
        DecoderState {
            started: self.started,
            pending: self.pending@,
            frame: FrameState { event: self.event@, data: self.data@ },
        }
    }
}

impl SseDecoder {
    /// A decoder that has received nothing.
    pub fn new() -> (r: Self)
        ensures
            r@ == initial_state(),
    {
        SseDecoder { started: false, pending: Vec::new(), event: Vec::new(), data: Vec::new() }
    }

    /// Whether `pending[from..to]` is the field name `data`.
    fn is_data_name(&self, from: usize, to: usize) -> (r: bool)
        requires
            from <= to <= self.pending@.len(),
        ensures
            r == (self.pending@.subrange(from as int, to as int) == data_name()),
    {
        let ghost name = self.pending@.subrange(from as int, to as int);
        proof {
            lemma_names();
        }
        assert(data_name().len() == 4);
        if to - from != 4 {
            assert(name.len() != 4);
            return false;
        }
        let r = self.pending[from] == 100 && self.pending[from + 1] == 97 && self.pending[from + 2]
            == 116 && self.pending[from + 3] == 97;
        proof {
            if r {
                assert(name =~= data_name());
            } else {
                assert(name[0] == self.pending@[from as int]);
                assert(name[1] == self.pending@[from + 1]);
                assert(name[2] == self.pending@[from + 2]);
                assert(name[3] == self.pending@[from + 3]);
            }
        }
        r
    }

    /// Whether `pending[from..to]` is the field name `event`.
    fn is_event_name(&self, from: usize, to: usize) -> (r: bool)
        requires
            from <= to <= self.pending@.len(),
        ensures
            r == (self.pending@.subrange(from as int, to as int) == event_name()),
    {
        let ghost name = self.pending@.subrange(from as int, to as int);
        proof {
            lemma_names();
        }
        assert(event_name().len() == 5);
        if to - from != 5 {
            assert(name.len() != 5);
            return false;
        }
        let r = self.pending[from] == 101 && self.pending[from + 1] == 118 && self.pending[from
            + 2] == 101 && self.pending[from + 3] == 110 && self.pending[from + 4] == 116;
        proof {
            if r {
                assert(name =~= event_name());
            } else {
                assert(name[0] == self.pending@[from as int]);
                assert(name[1] == self.pending@[from + 1]);
                assert(name[2] == self.pending@[from + 2]);
                assert(name[3] == self.pending@[from + 3]);
                assert(name[4] == self.pending@[from + 4]);
            }
        }
        r
    }

    /// Hands out the frame under construction if it saw a `data` line, and
    /// starts a fresh one.
    fn dispatch(&mut self, out: &mut Vec<SseFrame>)
        ensures
            final(self).started == old(self).started,
            final(self).pending == old(self).pending,
            final(self)@.frame == apply_line(old(self)@.frame, Seq::empty()).0,
            frames_view(final(out)@) == frames_view(old(out)@) + with_first(
                apply_line(old(self)@.frame, Seq::empty()).1,
                Seq::empty(),
            ),
    {
        let mut event: Vec<u8> = Vec::new();
        let mut data: Vec<u8> = Vec::new();
        core::mem::swap(&mut event, &mut self.event);
        core::mem::swap(&mut data, &mut self.data);
        if data.len() == 0 {
            assert(frames_view(out@) =~= frames_view(old(out)@) + Seq::<Frame>::empty());
        } else {
            data.pop();
            if event.len() == 0 {
                event.push(109);
                event.push(101);
                event.push(115);
                event.push(115);
                event.push(97);
                event.push(103);
                event.push(101);
                proof {
                    lemma_names();
                }
                assert(event@ =~= default_event());
            }
            let frame = SseFrame { event, data };
            let ghost shown = frame@;
            out.push(frame);
            assert(frames_view(out@) =~= frames_view(old(out)@) + seq![shown]);
            assert(seq![shown] + Seq::<Frame>::empty() =~= seq![shown]);
        }
    }

    /// Takes in the line `pending[from..to]`.
    fn accept_line(&mut self, from: usize, to: usize, out: &mut Vec<SseFrame>)
        requires
            from <= to <= old(self).pending@.len(),
        ensures
            final(self).started == old(self).started,
            final(self).pending == old(self).pending,
            final(self)@.frame == apply_line(
                old(self)@.frame,
                old(self).pending@.subrange(from as int, to as int),
            ).0,
            frames_view(final(out)@) == frames_view(old(out)@) + with_first(
                apply_line(
                    old(self)@.frame,
                    old(self).pending@.subrange(from as int, to as int),
                ).1,
                Seq::empty(),
            ),
    {
        let ghost line = self.pending@.subrange(from as int, to as int);
        if from == to {
            self.dispatch(out);
            return ;
        }
        let mut colon: usize = from;
        while colon < to && self.pending[colon] != COLON
            invariant
                from <= colon <= to <= self.pending@.len(),
                line == self.pending@.subrange(from as int, to as int),
                forall|k: int| 0 <= k < colon - from ==> line[k] != COLON,
            decreases to - colon,
        {
            colon = colon + 1;
        }
        proof {
            lemma_first_of_found(line, 0, COLON, COLON, colon - from);
            assert(line.take(colon - from) =~= self.pending@.subrange(from as int, colon as int));
        }
        let value: usize = if colon >= to {
            to
        } else if colon + 1 < to && self.pending[colon + 1] == SPACE {
            colon + 2
        } else {
            colon + 1
        };
        proof {
            assert(field_value(line) =~= self.pending@.subrange(value as int, to as int));
            assert(frames_view(out@) + Seq::<Frame>::empty() =~= frames_view(out@));
        }
        assert(line.len() > 0);
        assert(field_name(line) == self.pending@.subrange(from as int, colon as int));
        if self.is_data_name(from, colon) {
            append_bytes(&mut self.data, self.pending.as_slice(), value, to);
            self.data.push(LF);
            assert(self.data@ =~= old(self).data@ + field_value(line) + seq![LF]);
        } else if self.is_event_name(from, colon) {
            let mut event: Vec<u8> = Vec::new();
            append_bytes(&mut event, self.pending.as_slice(), value, to);
            assert(event@ =~= field_value(line));
            self.event = event;
        }
    }

    /// Finds the first whole line at or after `pos`: where its content ends,
    /// and where the next line begins.
    fn scan_line(&self, pos: usize) -> (r: Option<(usize, usize)>)
        requires
            pos <= self.pending@.len(),
        ensures
            match r {
                Some((end, next)) => pos <= end < next <= self.pending@.len() && next_line(
                    self.pending@.skip(pos as int),
                ) == Some((end - pos, next - pos)),
                None => next_line(self.pending@.skip(pos as int)) is None,
            },
    {
        let ghost left = self.pending@.skip(pos as int);
        let len = self.pending.len();
        let mut end: usize = pos;
        while end < len && self.pending[end] != LF && self.pending[end] != CR
            invariant
                pos <= end <= len == self.pending@.len(),
                left == self.pending@.skip(pos as int),
                forall|k: int| 0 <= k < end - pos ==> left[k] != LF && left[k] != CR,
            decreases len - end,
        {
            end = end + 1;
        }
        proof {
            lemma_first_of_found(left, 0, LF, CR, end - pos);
        }
        if end >= len {
            None
        } else if self.pending[end] == LF {
            Some((end, end + 1))
        } else if end + 1 >= len {
            None
        } else if self.pending[end + 1] == LF {
            Some((end, end + 2))
        } else {
            Some((end, end + 1))
        }
    }

    /// Looks at the opening of the body. Returns where the first line
    /// begins, or `None` while too few bytes are there to tell.
    fn open_body(&mut self) -> (r: Option<usize>)
        ensures
            final(self).pending == old(self).pending,
            final(self).event == old(self).event,
            final(self).data == old(self).data,
            final(self).started == r is Some,
            match r {
                None => opening(old(self).started, old(self).pending@) is None,
                Some(at) => at <= old(self).pending@.len() && opening(
                    old(self).started,
                    old(self).pending@,
                ) == Some(at as int),
            },
    {
        let ghost buf = self.pending@;
        assert(buf.skip(0) =~= buf);
        if self.started {
            return Some(0);
        }
        let len = self.pending.len();
        if len == 0 || (len == 1 && self.pending[0] == 0xEF) || (len == 2 && self.pending[0]
            == 0xEF && self.pending[1] == 0xBB) {
            assert(buf =~= bom().take(len as int));
            return None;
        }
        self.started = true;
        if len >= 3 && self.pending[0] == 0xEF && self.pending[1] == 0xBB && self.pending[2]
            == 0xBF {
            assert(buf.take(3) =~= bom());
            Some(3)
        } else {
            proof {
                if len < 3 {
                    assert(bom().take(len as int)[0] == 0xEFu8);
                    if len == 2 {
                        assert(bom().take(len as int)[1] == 0xBBu8);
                    }
                } else {
                    assert(buf.take(3)[0] == buf[0]);
                    assert(buf.take(3)[1] == buf[1]);
                    assert(buf.take(3)[2] == buf[2]);
                }
            }
            Some(0)
        }
    }

    /// Takes in the next chunk of the body and hands out the frames that it
    /// completes, in the order of their blank lines.
    pub fn feed(&mut self, chunk: &[u8]) -> (out: Vec<SseFrame>)
        ensures
            final(self)@ == decode_step(old(self)@, chunk@).0,
            frames_view(out@) == decode_step(old(self)@, chunk@).1,
    {
        let mut out: Vec<SseFrame> = Vec::new();
        assert(frames_view(out@) =~= Seq::<Frame>::empty());
        append_bytes(&mut self.pending, chunk, 0, chunk.len());
        assert(chunk@.subrange(0, chunk@.len() as int) =~= chunk@);
        let ghost buf = self.pending@;
        let ghost first = self@.frame;
        let mut pos: usize = match self.open_body() {
            None => {
                return out;
            },
            Some(pos) => pos,
        };
        let ghost body = buf.skip(pos as int);
        assert(old(self)@.pending + chunk@ == buf);
        assert(frames_view(out@) + run(first, body).frames =~= run(first, body).frames);
        loop
            invariant
                pos <= self.pending@.len(),
                self.pending@ == buf,
                self.started,
                run(first, body).state == run(self@.frame, buf.skip(pos as int)).state,
                run(first, body).rest == run(self@.frame, buf.skip(pos as int)).rest,
                run(first, body).frames == frames_view(out@) + run(
                    self@.frame,
                    buf.skip(pos as int),
                ).frames,
            ensures
                pos <= self.pending@.len(),
                self.pending@ == buf,
                self.started,
                run(first, body).state == self@.frame,
                run(first, body).rest == buf.skip(pos as int),
                run(first, body).frames == frames_view(out@),
            decreases self.pending@.len() - pos,
        {
            let ghost left = buf.skip(pos as int);
            let ghost before = self@.frame;
            let ghost shown = frames_view(out@);
            match self.scan_line(pos) {
                None => {
                    assert(shown + Seq::<Frame>::empty() =~= shown);
                    break ;
                },
                Some((end, next)) => {
                    proof {
                        assert(left.take(end - pos) =~= buf.subrange(pos as int, end as int));
                        assert(left.skip(next - pos) =~= buf.skip(next as int));
                    }
                    self.accept_line(pos, end, &mut out);
                    proof {
                        let step = apply_line(before, left.take(end - pos));
                        let tail = run(step.0, buf.skip(next as int));
                        assert(run(before, left).frames == with_first(step.1, tail.frames));
                        assert(shown + with_first(step.1, tail.frames) =~= (shown + with_first(
                            step.1,
                            Seq::empty(),
                        )) + tail.frames);
                    }
                    pos = next;
                },
            }
        }
        let rest = self.pending.split_off(pos);
        self.pending = rest;
        assert(self.pending@ =~= buf.skip(pos as int));
        out
    }
}

/// The frames of a whole body, in the order of their blank lines.
pub fn decode_body(body: &[u8]) -> (out: Vec<SseFrame>)
    ensures
        frames_view(out@) == frames_of(body@),
{
    let mut decoder = SseDecoder::new();
    decoder.feed(body)
}

} // verus!
