//! Timestamped events and the streams that hold them.
use vstd::prelude::*;

verus! {

/// One captured event: a timestamp in microseconds and its payload.
#[derive(Debug)]
pub struct PhraseEvent {
    pub timestamp: u64,
    pub data: Vec<u8>,
}

/// An ordered stream of events.
#[derive(Debug)]
pub struct Phrase {
    pub events: Vec<PhraseEvent>,
}

impl View for PhraseEvent {
    type V = (u64, Seq<u8>);

    open spec fn view(&self) -> (u64, Seq<u8>) {
        (self.timestamp, self.data@)
    }
}

impl View for Phrase {
    type V = Seq<(u64, Seq<u8>)>;

    open spec fn view(&self) -> Seq<(u64, Seq<u8>)> {
        self.events@.map_values(|e: PhraseEvent| e@)
    }
}

/// A byte-for-byte copy of a payload.
pub fn copy_bytes(b: &Vec<u8>) -> (r: Vec<u8>)
    ensures
        r@ == b@,
{
    let mut r: Vec<u8> = Vec::with_capacity(b.len());
    let mut i: usize = 0;
    while i < b.len()
        invariant
            i <= b@.len(),
            r@ == b@.subrange(0, i as int),
        decreases b@.len() - i,
    {
        r.push(b[i]);
        i = i + 1;
    }
    assert(r@ =~= b@);
    r
}

impl PhraseEvent {
    pub fn new(timestamp: u64, data: Vec<u8>) -> (r: PhraseEvent)
        ensures
            r@ == (timestamp, data@),
    {
        PhraseEvent { timestamp, data }
    }

    /// An independent copy of this event.
    pub fn duplicate(&self) -> (r: PhraseEvent)
        ensures
            r@ == self@,
    {
        PhraseEvent { timestamp: self.timestamp, data: copy_bytes(&self.data) }
    }
}

impl Phrase {
    /// The empty stream.
    pub fn new() -> (r: Phrase)
        ensures
            r@ == Seq::<(u64, Seq<u8>)>::empty(),
    {
        let r = Phrase { events: Vec::new() };
        assert(r@ =~= Seq::<(u64, Seq<u8>)>::empty());
        r
    }

    pub fn len(&self) -> (r: usize)
        ensures
            r == self@.len(),
    {
        self.events.len()
    }

    /// Appends an event at the end of the stream.
    pub fn push_event(&mut self, timestamp: u64, data: Vec<u8>)
        ensures
            final(self)@ == old(self)@.push((timestamp, data@)),
    {
        self.events.push(PhraseEvent::new(timestamp, data));
        assert(final(self)@ =~= old(self)@.push((timestamp, data@)));
    }

    /// An independent copy of the whole stream.
    pub fn duplicate(&self) -> (r: Phrase)
        ensures
            r@ == self@,
    {
        let mut events: Vec<PhraseEvent> = Vec::with_capacity(self.events.len());
        let mut i: usize = 0;
        while i < self.events.len()
            invariant
                i <= self.events@.len(),
                events@.len() == i,
                forall|k: int| 0 <= k < i ==> #[trigger] events@[k]@ == self.events@[k]@,
            decreases self.events@.len() - i,
        {
            events.push(self.events[i].duplicate());
            i = i + 1;
        }
        let r = Phrase { events };
        assert(r@ =~= self@);
        r
    }
}

} // verus!
