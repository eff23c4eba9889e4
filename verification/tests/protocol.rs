use nara::protocol::{EventEnvelope, VoiceState};
use nara::voice::VoiceSession;

#[test]
fn event_envelope_has_fresh_uuid_and_utc_time() {
    let a = EventEnvelope::new("daemon.started", serde_json::Value::Null);
    let b = EventEnvelope::new("daemon.started", serde_json::Value::Bool(true));
    assert_eq!(a.event_type, "daemon.started");
    assert_eq!(b.data, serde_json::Value::Bool(true));
    assert_ne!(a.id, b.id);
    assert_eq!(a.id.len(), 36);
    assert_eq!(&a.id[14..15], "4");
    assert_eq!(a.id.matches('-').count(), 4);
    assert!(a.created_at.ends_with("+00:00"));
}

#[test]
fn voice_state_defaults_to_idle() {
    assert_eq!(VoiceState::default(), VoiceState::Idle);
    let mut s = VoiceSession::default();
    assert_eq!(*s.state(), VoiceState::Idle);
    s.set_state(VoiceState::Speaking);
    assert_eq!(*s.state(), VoiceState::Speaking);
}
