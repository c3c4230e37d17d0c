//! The engine's lifecycle: idle, recording or playing, one at a time, with
//! the last completed recording kept for replay.
//!
//! The engine decides; its driver acts. The driver asks the engine whether a
//! port is wanted, opens it, reports how that went, and carries out what the
//! engine's answer calls for: closing the input, spawning a replay of the
//! stream handed back, or raising the cancellation flag.
use vstd::prelude::*;
use crate::phrase::Phrase;

verus! {

/// Why a session could not start.
#[derive(Clone, Copy, Debug, PartialEq, Eq, Structural)]
pub enum EngineError {
    /// The event I/O service exposes no port of the kind asked for.
    DeviceUnavailable,
    /// The event I/O service refused to open the port.
    ConnectionError,
}

/// What the event I/O service answered when asked for a port.
#[derive(Clone, Copy, Debug, PartialEq, Eq, Structural)]
pub enum PortOutcome {
    Opened,
    NoPort,
    Rejected,
}

/// The error that a failed port request turns into.
pub open spec fn port_error(o: PortOutcome) -> EngineError {
    match o {
        PortOutcome::NoPort => EngineError::DeviceUnavailable,
        _ => EngineError::ConnectionError,
    }
}

/// The port to use among `count` that the service lists: always the first.
pub fn select_port(count: usize) -> (r: Result<usize, EngineError>)
    ensures
        count > 0 <==> r == Ok::<usize, EngineError>(0),
        count == 0 <==> r == Err::<usize, EngineError>(EngineError::DeviceUnavailable),
{
    if count > 0 {
        Ok(0)
    } else {
        Err(EngineError::DeviceUnavailable)
    }
}

/// The engine's state as a value.
pub enum StateView {
    Idle,
    Recording { events: Seq<(u64, Seq<u8>)> },
    Playing,
}

/// The engine as a value: the last completed recording and the state.
pub struct EngineView {
    pub last: Option<Seq<(u64, Seq<u8>)>>,
    pub state: StateView,
}

/// A call into the engine: one of its operations, or an event delivered to
/// the input callback.
pub enum Call {
    StartRecord(PortOutcome),
    Event(u64, Seq<u8>),
    StopRecord,
    StartPlayback(PortOutcome),
    StopPlayback,
}

impl EngineView {
    /// A fresh engine: idle, with nothing recorded.
    pub open spec fn initial() -> EngineView {
        EngineView { last: None, state: StateView::Idle }
    }

    /// A recording worth replaying is at hand.
    pub open spec fn has_recording(self) -> bool {
        self.last is Some && self.last->Some_0.len() > 0
    }

    /// The states that can be observed: playing only with a recording to
    /// play.
    pub open spec fn wf(self) -> bool {
        self.state is Playing ==> self.has_recording()
    }

    pub open spec fn wants_input(self) -> bool {
        self.state is Idle
    }

    pub open spec fn wants_output(self) -> bool {
        self.state is Idle && self.has_recording()
    }

    /// Idle: opens a recording with an empty stream once the input port is
    /// open, or fails and stays idle. Otherwise nothing happens.
    pub open spec fn start_record(self, open: PortOutcome) -> (EngineView, Result<(), EngineError>) {
        if !(self.state is Idle) {
            (self, Ok(()))
        } else if open == PortOutcome::Opened {
            (EngineView { state: StateView::Recording { events: Seq::empty() }, ..self }, Ok(()))
        } else {
            (self, Err(port_error(open)))
        }
    }

    /// Recording: the event goes at the end of the stream. Otherwise it is
    /// dropped.
    pub open spec fn record_event(self, timestamp: u64, data: Seq<u8>) -> EngineView {
        match self.state {
            StateView::Recording { events } => EngineView {
                state: StateView::Recording { events: events.push((timestamp, data)) },
                ..self
            },
            _ => self,
        }
    }

    /// Recording: the stream becomes the last recording, the engine goes
    /// idle and the input is to be closed (`true`). Otherwise nothing
    /// happens.
    pub open spec fn stop_record(self) -> (EngineView, bool) {
        match self.state {
            StateView::Recording { events } => (
                EngineView { last: Some(events), state: StateView::Idle },
                true,
            ),
            _ => (self, false),
        }
    }

    /// Idle with a recording: hands back the stream to replay and starts
    /// playing once the output port is open, or fails and stays idle.
    /// Otherwise nothing happens.
    pub open spec fn start_playback(self, open: PortOutcome) -> (
        EngineView,
        Result<Option<Seq<(u64, Seq<u8>)>>, EngineError>,
    ) {
        if !self.wants_output() {
            (self, Ok(None))
        } else if open == PortOutcome::Opened {
            (EngineView { state: StateView::Playing, ..self }, Ok(self.last))
        } else {
            (self, Err(port_error(open)))
        }
    }

    /// Playing: the engine goes idle at once and the replay is to be
    /// cancelled (`true`). Otherwise nothing happens.
    pub open spec fn stop_playback(self) -> (EngineView, bool) {
        if self.state is Playing {
            (EngineView { state: StateView::Idle, ..self }, true)
        } else {
            (self, false)
        }
    }

    /// The engine after one call.
    pub open spec fn apply(self, c: Call) -> EngineView {
        match c {
            Call::StartRecord(o) => self.start_record(o).0,
            Call::Event(t, d) => self.record_event(t, d),
            Call::StopRecord => self.stop_record().0,
            Call::StartPlayback(o) => self.start_playback(o).0,
            Call::StopPlayback => self.stop_playback().0,
        }
    }
}

/// The engine after a sequence of calls, in order.
pub open spec fn run(v: EngineView, calls: Seq<Call>) -> EngineView
    decreases calls.len(),
{
    if calls.len() == 0 {
        v
    } else {
        run(v.apply(calls[0]), calls.drop_first())
    }
}

/// The engine after the input callback delivered `events`, in order.
pub open spec fn feed(v: EngineView, events: Seq<(u64, Seq<u8>)>) -> EngineView
    decreases events.len(),
{
    if events.len() == 0 {
        v
    } else {
        feed(v, events.drop_last()).record_event(events.last().0, events.last().1)
    }
}

/// Whatever the calls, and in whatever order the input callback interleaves
/// with them, the engine is in exactly one of its three states, and it plays
/// only with a recording to play.
pub proof fn lemma_state_always_valid(v: EngineView, calls: Seq<Call>)
    requires
        v.wf(),
    ensures
        run(v, calls).wf(),
        (run(v, calls).state is Idle) as int + (run(v, calls).state is Recording) as int + (run(
            v,
            calls,
        ).state is Playing) as int == 1,
    decreases calls.len(),
{
    if calls.len() > 0 {
        lemma_state_always_valid(v.apply(calls[0]), calls.drop_first());
    }
}

/// A second start of recording after a successful one is a no-op, and so
/// is a stop of recording when not recording.
pub proof fn lemma_record_calls_idempotent(v: EngineView, first: PortOutcome, second: PortOutcome)
    ensures
        v.start_record(first).1 is Ok ==> v.start_record(first).0.start_record(second) == (
            v.start_record(first).0,
            Ok::<(), EngineError>(()),
        ),
        !(v.state is Recording) ==> v.stop_record() == (v, false),
        v.stop_record().0.stop_record() == (v.stop_record().0, false),
{
}

/// A second start of playback after a successful one is a no-op, and so is
/// a stop of playback when not playing.
pub proof fn lemma_playback_calls_idempotent(v: EngineView, first: PortOutcome, second: PortOutcome)
    ensures
        v.start_playback(first).1 is Ok ==> v.start_playback(first).0.start_playback(second) == (
            v.start_playback(first).0,
            Ok::<Option<Seq<(u64, Seq<u8>)>>, EngineError>(None),
        ),
        !(v.state is Playing) ==> v.stop_playback() == (v, false),
        v.stop_playback().0.stop_playback() == (v.stop_playback().0, false),
{
}

/// Before any recording has completed, starting playback does nothing: no
/// stream handed out, no change of state, no error.
pub proof fn lemma_playback_without_recording(v: EngineView, open: PortOutcome)
    requires
        v.last is None,
    ensures
        v.start_playback(open) == (v, Ok::<Option<Seq<(u64, Seq<u8>)>>, EngineError>(None)),
{
}

/// Recording a non-empty stream of events and stopping, then starting
/// playback, hands the replay exactly the events recorded, in order.
pub proof fn lemma_record_then_play(v: EngineView, events: Seq<(u64, Seq<u8>)>)
    requires
        v.state is Idle,
        events.len() > 0,
    ensures
        ({
            let rec = v.start_record(PortOutcome::Opened).0;
            let stopped = feed(rec, events).stop_record().0;
            stopped.start_playback(PortOutcome::Opened).1 == Ok::<
                Option<Seq<(u64, Seq<u8>)>>,
                EngineError,
            >(Some(events))
        }),
{
    let rec = v.start_record(PortOutcome::Opened).0;
    lemma_feed_appends(rec, Seq::empty(), events);
    assert(Seq::<(u64, Seq<u8>)>::empty() + events =~= events);
}

/// Feeding a recording engine appends the events to its stream.
proof fn lemma_feed_appends(
    v: EngineView,
    start: Seq<(u64, Seq<u8>)>,
    events: Seq<(u64, Seq<u8>)>,
)
    requires
        v.state == (StateView::Recording { events: start }),
    ensures
        feed(v, events) == (EngineView { state: StateView::Recording { events: start + events }, ..v }),
    decreases events.len(),
{
    if events.len() == 0 {
        assert(start + events =~= start);
    } else {
        lemma_feed_appends(v, start, events.drop_last());
        assert(start + events =~= (start + events.drop_last()).push(events.last()));
    }
}

/// The engine's state, with what it owns.
pub enum EngineState {
    Idle,
    Recording { phrase: Phrase },
    Playing,
}

/// The engine: the last completed recording and the current state.
pub struct PlaybackEngine {
    recording: Option<Phrase>,
    state: EngineState,
}

/// The stream that an optional recording holds.
pub open spec fn phrase_view(p: Option<Phrase>) -> Option<Seq<(u64, Seq<u8>)>> {
    match p {
        Some(x) => Some(x@),
        None => None,
    }
}

/// The stream of a playback result.
pub open spec fn playback_view(r: Result<Option<Phrase>, EngineError>) -> Result<
    Option<Seq<(u64, Seq<u8>)>>,
    EngineError,
> {
    match r {
        Ok(p) => Ok(phrase_view(p)),
        Err(e) => Err(e),
    }
}

impl View for PlaybackEngine {
    type V = EngineView;

    closed spec fn view(&self) -> EngineView {
        EngineView {
            last: phrase_view(self.recording),
            state: match self.state {
                EngineState::Idle => StateView::Idle,
                EngineState::Recording { phrase } => StateView::Recording { events: phrase@ },
                EngineState::Playing => StateView::Playing,
            },
        }
    }
}

impl PlaybackEngine {
    /// An idle engine with nothing recorded.
    pub fn new() -> (r: PlaybackEngine)
        ensures
            r@ == EngineView::initial(),
    {
        PlaybackEngine { recording: None, state: EngineState::Idle }
    }

    pub fn is_idle(&self) -> (r: bool)
        ensures
            r == self@.state is Idle,
    {
        match self.state {
            EngineState::Idle => true,
            _ => false,
        }
    }

    pub fn is_recording(&self) -> (r: bool)
        ensures
            r == self@.state is Recording,
    {
        match self.state {
            EngineState::Recording { .. } => true,
            _ => false,
        }
    }

    pub fn is_playing(&self) -> (r: bool)
        ensures
            r == self@.state is Playing,
    {
        match self.state {
            EngineState::Playing => true,
            _ => false,
        }
    }

    /// A copy of the last completed recording.
    pub fn last_recording(&self) -> (r: Option<Phrase>)
        ensures
            phrase_view(r) == self@.last,
    {
        match &self.recording {
            Some(p) => Some(p.duplicate()),
            None => None,
        }
    }

    /// Whether `start_record` would use an input port.
    pub fn wants_input(&self) -> (r: bool)
        ensures
            r == self@.wants_input(),
    {
        self.is_idle()
    }

    /// Whether `start_playback` would use an output port.
    pub fn wants_output(&self) -> (r: bool)
        ensures
            r == self@.wants_output(),
    {
        match &self.recording {
            Some(p) => self.is_idle() && p.len() > 0,
            None => false,
        }
    }

    /// Starts recording, given how the request for an input port went.
    pub fn start_record(&mut self, open: PortOutcome) -> (r: Result<(), EngineError>)
        ensures
            (final(self)@, r) == old(self)@.start_record(open),
    {
        if !self.is_idle() {
            return Ok(());
        }
        match open {
            PortOutcome::Opened => {
                self.state = EngineState::Recording { phrase: Phrase::new() };
                Ok(())
            },
            PortOutcome::NoPort => Err(EngineError::DeviceUnavailable),
            PortOutcome::Rejected => Err(EngineError::ConnectionError),
        }
    }

    /// Delivers one event from the input callback.
    pub fn record_event(&mut self, timestamp: u64, data: Vec<u8>)
        ensures
            final(self)@ == old(self)@.record_event(timestamp, data@),
    {
        match &mut self.state {
            EngineState::Recording { phrase } => {
                phrase.push_event(timestamp, data);
            },
            _ => {},
        }
    }

    /// Stops recording; `true` where the input port is to be closed.
    pub fn stop_record(&mut self) -> (r: bool)
        ensures
            (final(self)@, r) == old(self)@.stop_record(),
    {
        let mut state = EngineState::Idle;
        core::mem::swap(&mut state, &mut self.state);
        match state {
            EngineState::Recording { phrase } => {
                self.recording = Some(phrase);
                true
            },
            other => {
                self.state = other;
                false
            },
        }
    }

    /// Starts playback, given how the request for an output port went: the
    /// stream to replay, where playback started.
    pub fn start_playback(&mut self, open: PortOutcome) -> (r: Result<Option<Phrase>, EngineError>)
        ensures
            (final(self)@, playback_view(r)) == old(self)@.start_playback(open),
    {
        if !self.wants_output() {
            return Ok(None);
        }
        match open {
            PortOutcome::Opened => {
                let copy = self.last_recording();
                self.state = EngineState::Playing;
                Ok(copy)
            },
            PortOutcome::NoPort => Err(EngineError::DeviceUnavailable),
            PortOutcome::Rejected => Err(EngineError::ConnectionError),
        }
    }

    /// Stops playback; `true` where the replay is to be cancelled.
    pub fn stop_playback(&mut self) -> (r: bool)
        ensures
            (final(self)@, r) == old(self)@.stop_playback(),
    {
        if self.is_playing() {
            self.state = EngineState::Idle;
            true
        } else {
            false
        }
    }
}

} // verus!
