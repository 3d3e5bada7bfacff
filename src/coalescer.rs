use vstd::prelude::*;

verus! {

/// A buffer of this many bytes is flushed at once.
pub const FLUSH_THRESHOLD_BYTES: usize = 2048;

/// A non-empty buffer is flushed on a timer tick once this many milliseconds
/// have passed since the previous flush.
pub const FLUSH_INTERVAL_MS: u64 = 40;

/// Why a chunk left the coalescer.
#[derive(PartialEq, Eq, Structural, Debug, Clone, Copy)]
pub enum FlushTrigger {
    /// The buffer reached `FLUSH_THRESHOLD_BYTES`.
    Size,
    /// A timer tick found the buffer non-empty and the interval elapsed.
    Timer,
    /// The upstream channel closed; what remained was sent.
    Close,
}

/// One coalesced audio chunk sent downstream.
pub struct Flush {
    pub bytes: Vec<u8>,
    pub trigger: FlushTrigger,
}

/// What the coalescer reacts to.
pub enum CoalescerEvent {
    /// Decoded audio arrived at the given time (milliseconds).
    Chunk(Vec<u8>, u64),
    /// The periodic timer fired at the given time (milliseconds).
    Tick(u64),
    /// The upstream channel was closed.
    Closed,
}

/// The abstract state of a coalescer.
pub struct CoalescerModel {
    pub buffer: Seq<u8>,
    pub last_flush_ms: u64,
    pub closed: bool,
}

/// The abstract form of an event.
pub enum AudioInput {
    Chunk(Seq<u8>, u64),
    Tick(u64),
    Closed,
}

impl View for CoalescerEvent {
    type V = AudioInput;

    open spec fn view(&self) -> AudioInput {
        match self {
            CoalescerEvent::Chunk(b, t) => AudioInput::Chunk(b@, *t),
            CoalescerEvent::Tick(t) => AudioInput::Tick(*t),
            CoalescerEvent::Closed => AudioInput::Closed,
        }
    }
}

pub open spec fn flush_view(f: Option<Flush>) -> Option<(Seq<u8>, FlushTrigger)> {
    match f {
        Some(x) => Some((x.bytes@, x.trigger)),
        None => None,
    }
}

/// Milliseconds from `since` to `now`; zero when the clock seems to run backwards.
pub open spec fn elapsed_spec(since: u64, now: u64) -> int {
    if now >= since {
        now - since
    } else {
        0
    }
}

/// The coalescer's reaction to one event: its next state and what it flushes.
pub open spec fn step_spec(m: CoalescerModel, input: AudioInput) -> (
    CoalescerModel,
    Option<(Seq<u8>, FlushTrigger)>,
) {
    if m.closed {
        (m, None)
    } else {
        match input {
            AudioInput::Chunk(bytes, now) => {
                let buffer = m.buffer + bytes;
                if buffer.len() >= FLUSH_THRESHOLD_BYTES {
                    (
                        CoalescerModel { buffer: Seq::empty(), last_flush_ms: now, closed: false },
                        Some((buffer, FlushTrigger::Size)),
                    )
                } else {
                    (CoalescerModel { buffer, ..m }, None)
                }
            },
            AudioInput::Tick(now) => {
                if m.buffer.len() > 0 && elapsed_spec(m.last_flush_ms, now) >= FLUSH_INTERVAL_MS {
                    (
                        CoalescerModel { buffer: Seq::empty(), last_flush_ms: now, closed: false },
                        Some((m.buffer, FlushTrigger::Timer)),
                    )
                } else {
                    (m, None)
                }
            },
            AudioInput::Closed => {
                (
                    CoalescerModel { buffer: Seq::empty(), closed: true, ..m },
                    if m.buffer.len() > 0 {
                        Some((m.buffer, FlushTrigger::Close))
                    } else {
                        None
                    },
                )
            },
        }
    }
}

/// Accumulates small audio frames into larger chunks, flushed by size or by time.
pub struct Coalescer {
    buffer: Vec<u8>,
    last_flush_ms: u64,
    closed: bool,
}

impl View for Coalescer {
    type V = CoalescerModel;

    closed spec fn view(&self) -> CoalescerModel {
        CoalescerModel { buffer: self.buffer@, last_flush_ms: self.last_flush_ms, closed: self.closed }
    }
}

impl Coalescer {
    /// A coalescer with an empty buffer, started at `now_ms`.
    pub fn new(now_ms: u64) -> (r: Coalescer)
        ensures
            r@ == (CoalescerModel { buffer: Seq::empty(), last_flush_ms: now_ms, closed: false }),
    {
        Coalescer { buffer: Vec::new(), last_flush_ms: now_ms, closed: false }
    }

    /// Bytes held and not yet flushed.
    pub fn pending_len(&self) -> (r: usize)
        ensures
            r == self@.buffer.len(),
    {
        self.buffer.len()
    }

    /// Whether the upstream channel has closed.
    pub fn is_closed(&self) -> (r: bool)
        ensures
            r == self@.closed,
    {
        self.closed
    }

    /// Takes the buffer out, leaving it empty.
    fn take_buffer(&mut self) -> (r: Vec<u8>)
        ensures
            r@ == old(self)@.buffer,
            final(self)@ == (CoalescerModel { buffer: Seq::empty(), ..old(self)@ }),
    {
        let mut out: Vec<u8> = Vec::new();
        std::mem::swap(&mut out, &mut self.buffer);
        out
    }

    /// Reacts to one event; a flush, if any, is returned for sending downstream.
    pub fn handle(&mut self, event: CoalescerEvent) -> (r: Option<Flush>)
        ensures
            (final(self)@, flush_view(r)) == step_spec(old(self)@, event@),
    {
        if self.closed {
            return None;
        }
        match event {
            CoalescerEvent::Chunk(bytes, now) => {
                let mut bytes = bytes;
                self.buffer.append(&mut bytes);
                if self.buffer.len() >= FLUSH_THRESHOLD_BYTES {
                    let out = self.take_buffer();
                    self.last_flush_ms = now;
                    Some(Flush { bytes: out, trigger: FlushTrigger::Size })
                } else {
                    None
                }
            },
            CoalescerEvent::Tick(now) => {
                let elapsed: u64 = if now >= self.last_flush_ms {
                    now - self.last_flush_ms
                } else {
                    0
                };
                if self.buffer.len() > 0 && elapsed >= FLUSH_INTERVAL_MS {
                    let out = self.take_buffer();
                    self.last_flush_ms = now;
                    Some(Flush { bytes: out, trigger: FlushTrigger::Timer })
                } else {
                    None
                }
            },
            CoalescerEvent::Closed => {
                self.closed = true;
                let out = self.take_buffer();
                if out.len() > 0 {
                    Some(Flush { bytes: out, trigger: FlushTrigger::Close })
                } else {
                    None
                }
            },
        }
    }
}

/// Every flush meets the condition of its trigger: a size flush follows a
/// chunk and holds at least the threshold; a timer flush follows a tick at
/// least one interval after the previous flush and holds buffered bytes; a
/// close flush follows the closing of the upstream channel.
pub proof fn lemma_flush_triggers(m: CoalescerModel, input: AudioInput)
    ensures
        step_spec(m, input).1 matches Some(f) ==> {
            &&& f.0.len() > 0
            &&& f.1 == FlushTrigger::Size ==> input is Chunk && f.0.len() >= FLUSH_THRESHOLD_BYTES
                && f.0 == m.buffer + input->Chunk_0
            &&& f.1 == FlushTrigger::Timer ==> input is Tick && elapsed_spec(
                m.last_flush_ms,
                input->Tick_0,
            ) >= FLUSH_INTERVAL_MS && f.0 == m.buffer
            &&& f.1 == FlushTrigger::Close ==> input is Closed && f.0 == m.buffer
            &&& !m.closed
        },
{
}

/// The state reached and the flushes made, in order, when a fresh coalescer
/// started at `start_ms` meets `inputs`.
pub open spec fn run_spec(start_ms: u64, inputs: Seq<AudioInput>) -> (
    CoalescerModel,
    Seq<(Seq<u8>, FlushTrigger)>,
)
    decreases inputs.len(),
{
    if inputs.len() == 0 {
        (CoalescerModel { buffer: Seq::empty(), last_flush_ms: start_ms, closed: false }, Seq::empty())
    } else {
        let (m, outs) = run_spec(start_ms, inputs.drop_last());
        let (m2, o) = step_spec(m, inputs.last());
        (
            m2,
            match o {
                Some(f) => outs.push(f),
                None => outs,
            },
        )
    }
}

/// Whether `inputs` holds the closing of the upstream channel.
pub open spec fn saw_close(inputs: Seq<AudioInput>) -> bool
    decreases inputs.len(),
{
    inputs.len() > 0 && (saw_close(inputs.drop_last()) || inputs.last() is Closed)
}

/// The audio delivered before the upstream channel closed, concatenated.
pub open spec fn delivered_bytes(inputs: Seq<AudioInput>) -> Seq<u8>
    decreases inputs.len(),
{
    if inputs.len() == 0 {
        Seq::empty()
    } else {
        let p = inputs.drop_last();
        match inputs.last() {
            AudioInput::Chunk(bytes, _) => if saw_close(p) {
                delivered_bytes(p)
            } else {
                delivered_bytes(p) + bytes
            },
            _ => delivered_bytes(p),
        }
    }
}

/// The flushed chunks, concatenated.
pub open spec fn flushed_bytes(outs: Seq<(Seq<u8>, FlushTrigger)>) -> Seq<u8>
    decreases outs.len(),
{
    if outs.len() == 0 {
        Seq::empty()
    } else {
        flushed_bytes(outs.drop_last()) + outs.last().0
    }
}

/// No byte is lost or reordered: what was flushed, followed by what is still
/// buffered, is exactly the audio delivered; once the upstream channel has
/// closed, nothing is buffered, so the flushes alone are the delivered audio.
/// Every flush is non-empty, a size flush holds at least the threshold, and
/// every flush but the last was made by the size or the time trigger.
pub proof fn lemma_coalescer_keeps_audio(start_ms: u64, inputs: Seq<AudioInput>)
    ensures
        ({
            let (m, outs) = run_spec(start_ms, inputs);
            &&& flushed_bytes(outs) + m.buffer == delivered_bytes(inputs)
            &&& m.closed == saw_close(inputs)
            &&& m.closed ==> m.buffer.len() == 0
            &&& m.buffer.len() < FLUSH_THRESHOLD_BYTES
            &&& saw_close(inputs) ==> flushed_bytes(outs) == delivered_bytes(inputs)
            &&& forall|i: int| 0 <= i < outs.len() ==> #[trigger] outs[i].0.len() > 0
            &&& forall|i: int|
                0 <= i < outs.len() && #[trigger] outs[i].1 == FlushTrigger::Size ==> outs[i].0.len()
                    >= FLUSH_THRESHOLD_BYTES
            &&& forall|i: int| 0 <= i < outs.len() - 1 ==> #[trigger] outs[i].1 != FlushTrigger::Close
            &&& forall|i: int| 0 <= i < outs.len() && #[trigger] outs[i].1 == FlushTrigger::Close ==> m.closed
        }),
    decreases inputs.len(),
{
    if inputs.len() == 0 {
        let (m, outs) = run_spec(start_ms, inputs);
        assert(flushed_bytes(outs) + m.buffer == delivered_bytes(inputs));
    } else {
        let p = inputs.drop_last();
        lemma_coalescer_keeps_audio(start_ms, p);
        let (m, outs) = run_spec(start_ms, p);
        let (m2, o) = step_spec(m, inputs.last());
        let outs2 = match o {
            Some(f) => outs.push(f),
            None => outs,
        };
        assert(run_spec(start_ms, inputs) == (m2, outs2));
        match o {
            Some(f) => {
                assert(outs2.drop_last() == outs);
                assert(flushed_bytes(outs2) == flushed_bytes(outs) + f.0);
            },
            None => {},
        }
        match inputs.last() {
            AudioInput::Chunk(bytes, _) => {
                if !m.closed {
                    assert(flushed_bytes(outs) + (m.buffer + bytes) == (flushed_bytes(outs)
                        + m.buffer) + bytes);
                }
            },
            _ => {},
        }
        assert(flushed_bytes(outs2) + m2.buffer == delivered_bytes(inputs));
        assert forall|i: int| 0 <= i < outs2.len() - 1 implies #[trigger] outs2[i].1
            != FlushTrigger::Close by {
            if o is Some {
                assert(outs2[i] == outs[i]);
                if outs.len() > 0 && i == outs.len() - 1 {
                    assert(m.closed == false);
                }
            }
        }
    }
}

/// The index of the input that caused each flush, in order.
pub open spec fn flush_points(start_ms: u64, inputs: Seq<AudioInput>) -> Seq<int>
    decreases inputs.len(),
{
    if inputs.len() == 0 {
        Seq::empty()
    } else {
        let p = inputs.drop_last();
        let pts = flush_points(start_ms, p);
        if step_spec(run_spec(start_ms, p).0, inputs.last()).1 is Some {
            pts.push(p.len() as int)
        } else {
            pts
        }
    }
}

/// Flushes cut the audio only between whole input chunks. The `i`-th flush
/// was caused by input `flush_points(..)[i]`; those indices increase, and the
/// flushes up to the `i`-th, concatenated, are exactly the audio delivered by
/// the inputs up to that index, so each flush is a run of consecutive whole
/// chunks. A size flush follows a chunk and, without that last chunk, holds
/// fewer bytes than the threshold; a timer flush follows a tick at least one
/// interval after the previous flush (the `last_flush_ms` of the state just
/// before the tick); a close flush follows the closing of the upstream channel.
pub proof fn lemma_flushes_are_whole_chunks(start_ms: u64, inputs: Seq<AudioInput>)
    ensures
        ({
            let (m, outs) = run_spec(start_ms, inputs);
            let pts = flush_points(start_ms, inputs);
            &&& pts.len() == outs.len()
            &&& forall|i: int| 0 <= i < pts.len() ==> 0 <= #[trigger] pts[i] < inputs.len()
            &&& forall|i: int, j: int| 0 <= i < j < pts.len() ==> #[trigger] pts[i] < #[trigger] pts[j]
            &&& forall|i: int|
                0 <= i < outs.len() ==> flushed_bytes(#[trigger] outs.take(i + 1)) == delivered_bytes(
                    inputs.take(pts[i] + 1),
                )
            &&& forall|i: int|
                0 <= i < outs.len() && #[trigger] outs[i].1 == FlushTrigger::Size ==> {
                    &&& inputs[pts[i]] is Chunk
                    &&& outs[i].0.len() - inputs[pts[i]]->Chunk_0.len() < FLUSH_THRESHOLD_BYTES
                }
            &&& forall|i: int|
                0 <= i < outs.len() && #[trigger] outs[i].1 == FlushTrigger::Timer ==> {
                    &&& inputs[pts[i]] is Tick
                    &&& elapsed_spec(
                        run_spec(start_ms, inputs.take(pts[i])).0.last_flush_ms,
                        inputs[pts[i]]->Tick_0,
                    ) >= FLUSH_INTERVAL_MS
                }
            &&& forall|i: int|
                0 <= i < outs.len() && #[trigger] outs[i].1 == FlushTrigger::Close ==> inputs[pts[i]] is Closed
        }),
    decreases inputs.len(),
{
    if inputs.len() > 0 {
        let p = inputs.drop_last();
        lemma_flushes_are_whole_chunks(start_ms, p);
        lemma_coalescer_keeps_audio(start_ms, p);
        lemma_coalescer_keeps_audio(start_ms, inputs);
        let (m, outs) = run_spec(start_ms, p);
        let pts = flush_points(start_ms, p);
        let (m2, o) = step_spec(m, inputs.last());
        let outs2 = match o {
            Some(f) => outs.push(f),
            None => outs,
        };
        assert(run_spec(start_ms, inputs) == (m2, outs2));
        let pts2 = flush_points(start_ms, inputs);
        assert forall|i: int| 0 <= i < pts.len() implies inputs.take(#[trigger] pts[i] + 1) == p.take(
            pts[i] + 1,
        ) && inputs[pts[i]] == p[pts[i]] && inputs.take(pts[i]) == p.take(pts[i]) by {}
        assert(inputs.take(p.len() as int) == p);
        if o is Some {
            let f = o->0;
            assert(pts2 == pts.push(p.len() as int));
            assert forall|i: int| 0 <= i < outs.len() implies #[trigger] outs2.take(i + 1)
                == outs.take(i + 1) && outs2[i] == outs[i] by {}
            assert(outs2.take(outs.len() as int + 1) == outs2);
            assert(inputs.take(p.len() as int + 1) == inputs);
            assert(m2.buffer.len() == 0);
            assert(flushed_bytes(outs2) + m2.buffer == delivered_bytes(inputs));
            assert(flushed_bytes(outs2) + m2.buffer == flushed_bytes(outs2));
            assert(inputs[p.len() as int] == inputs.last());
            assert forall|i: int|
                0 <= i < outs2.len() implies flushed_bytes(#[trigger] outs2.take(i + 1))
                == delivered_bytes(inputs.take(pts2[i] + 1)) by {
                if i < outs.len() {
                    assert(pts2[i] == pts[i]);
                }
            }
            assert forall|i: int|
                0 <= i < outs2.len() && #[trigger] outs2[i].1 == FlushTrigger::Size implies {
                    &&& inputs[pts2[i]] is Chunk
                    &&& outs2[i].0.len() - inputs[pts2[i]]->Chunk_0.len() < FLUSH_THRESHOLD_BYTES
                } by {
                if i < outs.len() {
                    assert(pts2[i] == pts[i]);
                }
            }
            assert forall|i: int|
                0 <= i < outs2.len() && #[trigger] outs2[i].1 == FlushTrigger::Timer implies {
                    &&& inputs[pts2[i]] is Tick
                    &&& elapsed_spec(
                        run_spec(start_ms, inputs.take(pts2[i])).0.last_flush_ms,
                        inputs[pts2[i]]->Tick_0,
                    ) >= FLUSH_INTERVAL_MS
                } by {
                if i < outs.len() {
                    assert(pts2[i] == pts[i]);
                }
            }
            assert forall|i: int|
                0 <= i < outs2.len() && #[trigger] outs2[i].1 == FlushTrigger::Close implies inputs[pts2[i]] is Closed by {
                if i < outs.len() {
                    assert(pts2[i] == pts[i]);
                }
            }
            assert forall|i: int, j: int| 0 <= i < j < pts2.len() implies #[trigger] pts2[i] < #[trigger] pts2[j] by {
                if j < pts.len() {
                    assert(pts2[i] == pts[i] && pts2[j] == pts[j]);
                } else {
                    assert(pts2[i] == pts[i]);
                }
            }
        } else {
            assert(pts2 == pts);
        }
    }
}

} // verus!
