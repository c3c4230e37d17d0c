use midi_playback::engine::{PlaybackEngine, PortOutcome};
use midi_playback::phrase::Phrase;
use midi_playback::replay::{gap_micros, replay_delays, Replay};

fn record_and_play(events: &[(u64, &[u8])]) -> Phrase {
    let mut e = PlaybackEngine::new();
    e.start_record(PortOutcome::Opened).unwrap();
    for (t, d) in events {
        e.record_event(*t, d.to_vec());
    }
    e.stop_record();
    e.start_playback(PortOutcome::Opened).unwrap().unwrap()
}

#[test]
fn round_trip_three_events() {
    let p = record_and_play(&[(0, b"A"), (1000, b"B"), (2500, b"C")]);
    assert_eq!(replay_delays(&p), vec![0, 1000, 1500]);
    let mut r = Replay::new(p);
    let mut sent = Vec::new();
    let mut waits = Vec::new();
    while let Some(d) = r.next_delay() {
        waits.push(d);
        if let Some(data) = r.wake(false) {
            sent.push(data);
        }
    }
    assert_eq!(waits, vec![0, 1000, 1500]);
    assert_eq!(sent, vec![b"A".to_vec(), b"B".to_vec(), b"C".to_vec()]);
    assert!(r.is_done());
}

#[test]
fn cancellation_after_first_send() {
    let p = record_and_play(&[(0, b"A"), (1000, b"B"), (2500, b"C")]);
    let mut r = Replay::new(p);
    assert_eq!(r.next_delay(), Some(0));
    assert_eq!(r.wake(false), Some(b"A".to_vec()));
    assert_eq!(r.next_delay(), Some(1000));
    assert_eq!(r.wake(true), None);
    assert!(r.is_done());
    assert_eq!(r.next_delay(), None);
}

#[test]
fn cancelled_before_first_send() {
    let p = record_and_play(&[(50, b"A")]);
    let mut r = Replay::new(p);
    assert_eq!(r.next_delay(), Some(50));
    assert_eq!(r.wake(true), None);
    assert_eq!(r.next_delay(), None);
}

#[test]
fn equal_timestamps_wait_zero() {
    assert_eq!(gap_micros(700, 700), 0);
    let p = record_and_play(&[(700, b"A"), (700, b"B"), (900, b"C")]);
    assert_eq!(replay_delays(&p), vec![700, 0, 200]);
}

#[test]
fn timestamps_going_back_wait_zero() {
    assert_eq!(gap_micros(10, 3), 0);
    assert_eq!(gap_micros(3, 10), 7);
    assert_eq!(gap_micros(0, u64::MAX), u64::MAX);
    let p = record_and_play(&[(500, b"A"), (200, b"B"), (300, b"C")]);
    assert_eq!(replay_delays(&p), vec![500, 0, 100]);
}

#[test]
fn empty_replay_is_done() {
    let r = Replay::new(Phrase::new());
    assert!(r.is_done());
    assert_eq!(r.next_delay(), None);
    assert!(replay_delays(&Phrase::new()).is_empty());
}
