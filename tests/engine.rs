use midi_playback::engine::{select_port, EngineError, PlaybackEngine, PortOutcome};
use midi_playback::phrase::Phrase;

fn recorded(events: &[(u64, &[u8])]) -> PlaybackEngine {
    let mut e = PlaybackEngine::new();
    assert_eq!(e.start_record(PortOutcome::Opened), Ok(()));
    for (t, d) in events {
        e.record_event(*t, d.to_vec());
    }
    assert!(e.stop_record());
    e
}

#[test]
fn new_engine_is_idle() {
    let e = PlaybackEngine::new();
    assert!(e.is_idle());
    assert!(e.wants_input());
    assert!(!e.wants_output());
}

#[test]
fn start_record_twice_is_one_session() {
    let mut e = PlaybackEngine::new();
    assert_eq!(e.start_record(PortOutcome::Opened), Ok(()));
    e.record_event(5, vec![1]);
    assert!(!e.wants_input());
    assert_eq!(e.start_record(PortOutcome::Opened), Ok(()));
    e.record_event(7, vec![2]);
    assert!(e.is_recording());
    assert!(e.stop_record());
    assert!(e.is_idle());
    let p = e.start_playback(PortOutcome::Opened).unwrap().unwrap();
    assert_eq!(p.events.len(), 2);
    assert_eq!(p.events[0].timestamp, 5);
    assert_eq!(p.events[1].data, vec![2]);
}

#[test]
fn start_record_errors_leave_engine_idle() {
    let mut e = PlaybackEngine::new();
    assert_eq!(e.start_record(PortOutcome::NoPort), Err(EngineError::DeviceUnavailable));
    assert!(e.is_idle());
    assert_eq!(e.start_record(PortOutcome::Rejected), Err(EngineError::ConnectionError));
    assert!(e.is_idle());
}

#[test]
fn stop_calls_when_idle_do_nothing() {
    let mut e = PlaybackEngine::new();
    assert!(!e.stop_record());
    assert!(!e.stop_playback());
    assert!(e.is_idle());
    assert!(e.start_playback(PortOutcome::Opened).unwrap().is_none());
}

#[test]
fn events_outside_recording_are_dropped() {
    let mut e = PlaybackEngine::new();
    e.record_event(1, vec![9]);
    assert!(!e.wants_output());
    let mut e = recorded(&[(3, &[4])]);
    e.record_event(8, vec![9]);
    let p = e.start_playback(PortOutcome::Opened).unwrap().unwrap();
    assert_eq!(p.events.len(), 1);
}

#[test]
fn playback_without_recording_is_noop() {
    let mut e = PlaybackEngine::new();
    assert!(e.start_playback(PortOutcome::Opened).unwrap().is_none());
    assert!(e.is_idle());
    assert!(e.start_playback(PortOutcome::NoPort).unwrap().is_none());
    assert!(e.is_idle());
}

#[test]
fn empty_recording_is_not_played() {
    let mut e = recorded(&[]);
    assert!(!e.wants_output());
    assert!(e.start_playback(PortOutcome::Opened).unwrap().is_none());
    assert!(e.is_idle());
}

#[test]
fn playback_errors_leave_engine_idle() {
    let mut e = recorded(&[(0, b"A")]);
    assert!(matches!(e.start_playback(PortOutcome::NoPort), Err(EngineError::DeviceUnavailable)));
    assert!(e.is_idle());
    assert!(matches!(e.start_playback(PortOutcome::Rejected), Err(EngineError::ConnectionError)));
    assert!(e.is_idle());
}

#[test]
fn playback_lifecycle() {
    let mut e = recorded(&[(0, b"A"), (1000, b"B")]);
    assert!(e.wants_output());
    let p = e.start_playback(PortOutcome::Opened).unwrap().unwrap();
    assert_eq!(p.events.len(), 2);
    assert!(e.is_playing());
    assert!(!e.wants_input());
    assert!(e.start_playback(PortOutcome::Opened).unwrap().is_none());
    assert_eq!(e.start_record(PortOutcome::Opened), Ok(()));
    assert!(e.is_playing());
    assert!(!e.stop_record());
    assert!(e.stop_playback());
    assert!(e.is_idle());
    assert!(!e.stop_playback());
    // the recording is kept for another replay
    let again = e.start_playback(PortOutcome::Opened).unwrap().unwrap();
    assert_eq!(again.events[1].data, b"B".to_vec());
}

#[test]
fn new_recording_replaces_last() {
    let mut e = recorded(&[(0, b"A")]);
    assert_eq!(e.start_record(PortOutcome::Opened), Ok(()));
    e.record_event(10, b"Z".to_vec());
    e.record_event(20, b"Y".to_vec());
    assert!(e.stop_record());
    let p = e.start_playback(PortOutcome::Opened).unwrap().unwrap();
    assert_eq!(p.events.len(), 2);
    assert_eq!(p.events[0].data, b"Z".to_vec());
}

#[test]
fn select_first_port() {
    assert_eq!(select_port(0), Err(EngineError::DeviceUnavailable));
    assert_eq!(select_port(1), Ok(0));
    assert_eq!(select_port(4), Ok(0));
}

#[test]
fn phrase_copy_is_independent() {
    let mut p = Phrase::new();
    p.push_event(3, vec![1, 2]);
    let mut q = p.duplicate();
    q.push_event(4, vec![]);
    assert_eq!(p.len(), 1);
    assert_eq!(q.len(), 2);
    assert_eq!(q.events[0].data, vec![1, 2]);
}

#[test]
fn last_recording_is_kept() {
    let e = PlaybackEngine::new();
    assert!(e.last_recording().is_none());
    let e = recorded(&[(1, b"A"), (2, b"B")]);
    let p = e.last_recording().unwrap();
    assert_eq!(p.events.len(), 2);
    assert_eq!(p.events[0].timestamp, 1);
    assert_eq!(p.events[1].data, b"B".to_vec());
}
