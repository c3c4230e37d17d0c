//! The replay schedule: how long to wait before each event, and whether to
//! send it once the wait is over.
use vstd::prelude::*;
use crate::phrase::{copy_bytes, Phrase};

verus! {

/// Microseconds to wait between the last emitted timestamp and the next
/// one; zero where the next timestamp lies before the last.
pub open spec fn gap(last: u64, next: u64) -> u64 {
    if next >= last {
        (next - last) as u64
    } else {
        0
    }
}

/// The timestamp emitted before event `i`: zero before the first.
pub open spec fn emitted_before(s: Seq<(u64, Seq<u8>)>, i: int) -> u64 {
    if i <= 0 {
        0
    } else {
        s[i - 1].0
    }
}

/// The wait before event `i` of a stream.
pub open spec fn delay_before(s: Seq<(u64, Seq<u8>)>, i: int) -> u64 {
    gap(emitted_before(s, i), s[i].0)
}

/// The wait between two emitted timestamps.
pub fn gap_micros(last: u64, next: u64) -> (r: u64)
    ensures
        r == gap(last, next),
        next >= last ==> r == next - last,
        next <= last ==> r == 0,
{
    if next >= last {
        next - last
    } else {
        0
    }
}

/// The wait before each event of a stream, in order.
pub fn replay_delays(p: &Phrase) -> (r: Vec<u64>)
    ensures
        r@.len() == p@.len(),
        forall|i: int| 0 <= i < p@.len() ==> #[trigger] r@[i] == delay_before(p@, i),
{
    let mut r: Vec<u64> = Vec::with_capacity(p.events.len());
    let mut last: u64 = 0;
    let mut i: usize = 0;
    while i < p.events.len()
        invariant
            i <= p@.len(),
            p@.len() == p.events@.len(),
            r@.len() == i,
            last == emitted_before(p@, i as int),
            forall|k: int| 0 <= k < i ==> #[trigger] r@[k] == delay_before(p@, k),
        decreases p@.len() - i,
    {
        let ts = p.events[i].timestamp;
        assert(ts == p@[i as int].0);
        r.push(gap_micros(last, ts));
        last = ts;
        i = i + 1;
    }
    r
}

/// What a replay has reached: the stream, the index of the next event, and
/// whether it was cancelled.
pub struct ReplayView {
    pub events: Seq<(u64, Seq<u8>)>,
    pub pos: nat,
    pub stopped: bool,
}

impl ReplayView {
    /// The replay of a stream before any event was sent.
    pub open spec fn start(events: Seq<(u64, Seq<u8>)>) -> ReplayView {
        ReplayView { events, pos: 0, stopped: false }
    }

    /// Nothing is left to send: the replay was cancelled or the stream is
    /// exhausted.
    pub open spec fn done(self) -> bool {
        self.stopped || self.pos >= self.events.len()
    }

    /// The wait before the next event, if one is left.
    pub open spec fn next_delay(self) -> Option<u64> {
        if self.done() {
            None
        } else {
            Some(delay_before(self.events, self.pos as int))
        }
    }

    /// Waking after the wait: a cancelled replay stops without sending;
    /// otherwise the next payload is sent and the replay moves past it.
    pub open spec fn wake(self, cancelled: bool) -> (ReplayView, Option<Seq<u8>>) {
        if cancelled {
            (ReplayView { stopped: true, ..self }, None)
        } else {
            (ReplayView { pos: self.pos + 1, ..self }, Some(self.events[self.pos as int].1))
        }
    }
}

/// The payloads sent by a replay that reads the cancellation flag as
/// `flags` on each wake, in turn.
pub open spec fn sent(v: ReplayView, flags: Seq<bool>) -> Seq<Seq<u8>>
    decreases flags.len(),
{
    if flags.len() == 0 || v.done() {
        Seq::empty()
    } else {
        let (n, out) = v.wake(flags[0]);
        let head = match out {
            Some(d) => seq![d],
            None => Seq::empty(),
        };
        head + sent(n, flags.drop_first())
    }
}

/// The payloads of a stream from event `from` on, in order.
pub open spec fn payloads_from(events: Seq<(u64, Seq<u8>)>, from: int) -> Seq<Seq<u8>> {
    events.subrange(from, events.len() as int).map_values(|e: (u64, Seq<u8>)| e.1)
}

/// Once the cancellation flag is read as set, nothing more is sent: the
/// readings that follow change nothing, and at most as many payloads go
/// out as there were wakes before it.
pub proof fn lemma_cancel_stops_sending(v: ReplayView, flags: Seq<bool>, k: int)
    requires
        0 <= k < flags.len(),
        flags[k],
    ensures
        sent(v, flags) == sent(v, flags.take(k)),
        sent(v, flags).len() <= k,
    decreases k,
{
    if v.done() {
        assert(sent(v, flags) == Seq::<Seq<u8>>::empty());
        assert(sent(v, flags.take(k)) == Seq::<Seq<u8>>::empty());
    } else if k == 0 {
        let (n, out) = v.wake(flags[0]);
        assert(n.done());
        assert(sent(n, flags.drop_first()) == Seq::<Seq<u8>>::empty());
        assert(sent(v, flags) =~= Seq::<Seq<u8>>::empty());
        assert(flags.take(0).len() == 0);
    } else {
        let (n, out) = v.wake(flags[0]);
        let rest = flags.drop_first();
        lemma_cancel_stops_sending(n, rest, k - 1);
        assert(rest.take(k - 1) =~= flags.take(k).drop_first());
        assert(flags.take(k)[0] == flags[0]);
    }
}

/// A replay whose cancellation flag stays clear sends each remaining
/// payload of its stream, in order.
pub proof fn lemma_uncancelled_sends_rest(v: ReplayView, flags: Seq<bool>)
    requires
        !v.stopped,
        v.pos <= v.events.len(),
        flags.len() >= v.events.len() - v.pos,
        forall|i: int| 0 <= i < flags.len() ==> !flags[i],
    ensures
        sent(v, flags) == payloads_from(v.events, v.pos as int),
    decreases v.events.len() - v.pos,
{
    if v.pos == v.events.len() {
        assert(payloads_from(v.events, v.pos as int) =~= Seq::<Seq<u8>>::empty());
    } else {
        let (n, out) = v.wake(flags[0]);
        let rest = flags.drop_first();
        lemma_uncancelled_sends_rest(n, rest);
        assert(payloads_from(v.events, v.pos as int) =~= seq![v.events[v.pos as int].1]
            + payloads_from(v.events, v.pos + 1 as int));
    }
}

/// Without cancellation, replaying a stream sends exactly its payloads, in
/// the order they were recorded.
pub proof fn lemma_replay_round_trip(events: Seq<(u64, Seq<u8>)>, flags: Seq<bool>)
    requires
        flags.len() >= events.len(),
        forall|i: int| 0 <= i < flags.len() ==> !flags[i],
    ensures
        sent(ReplayView::start(events), flags) == events.map_values(|e: (u64, Seq<u8>)| e.1),
{
    lemma_uncancelled_sends_rest(ReplayView::start(events), flags);
    assert(events.subrange(0, events.len() as int) =~= events);
}

/// The bytes of an optional payload.
pub open spec fn payload_view(r: Option<Vec<u8>>) -> Option<Seq<u8>> {
    match r {
        Some(d) => Some(d@),
        None => None,
    }
}

/// The replay of one stream on a background task.
pub struct Replay {
    phrase: Phrase,
    pos: usize,
    last: u64,
    stopped: bool,
}

impl View for Replay {
    type V = ReplayView;

    closed spec fn view(&self) -> ReplayView {
        ReplayView { events: self.phrase@, pos: self.pos as nat, stopped: self.stopped }
    }
}

impl Replay {
    pub closed spec fn wf(&self) -> bool {
        &&& self.pos <= self.phrase@.len()
        &&& self.last == emitted_before(self.phrase@, self.pos as int)
    }

    /// A replay of `phrase` from its first event.
    pub fn new(phrase: Phrase) -> (r: Replay)
        ensures
            r.wf(),
            r@ == ReplayView::start(phrase@),
    {
        Replay { phrase, pos: 0, last: 0, stopped: false }
    }

    /// Whether nothing is left to send.
    pub fn is_done(&self) -> (r: bool)
        requires
            self.wf(),
        ensures
            r == self@.done(),
    {
        self.stopped || self.pos >= self.phrase.events.len()
    }

    /// The wait before the next event, or `None` once nothing is left.
    pub fn next_delay(&self) -> (r: Option<u64>)
        requires
            self.wf(),
        ensures
            r == self@.next_delay(),
    {
        if self.is_done() {
            None
        } else {
            assert(self.phrase.events@[self.pos as int]@ == self.phrase@[self.pos as int]);
            Some(gap_micros(self.last, self.phrase.events[self.pos].timestamp))
        }
    }

    /// Called after the wait with the value of the cancellation flag: the
    /// payload to send, or `None` where the replay stops here.
    pub fn wake(&mut self, cancelled: bool) -> (r: Option<Vec<u8>>)
        requires
            old(self).wf(),
            !old(self)@.done(),
        ensures
            final(self).wf(),
            (final(self)@, payload_view(r)) == old(self)@.wake(cancelled),
    {
        if cancelled {
            self.stopped = true;
            None
        } else {
            let i = self.pos;
            assert(self.phrase@.len() == self.phrase.events@.len());
            assert(!self@.done());
            assert(i < self.phrase.events.len());
            assert(self.phrase.events@[i as int]@ == self.phrase@[i as int]);
            let data = copy_bytes(&self.phrase.events[i].data);
            self.last = self.phrase.events[i].timestamp;
            self.pos = i + 1;
            Some(data)
        }
    }
}

} // verus!
