use selene::pool::{ValidationError, VoicePool, MAX_VOICE_COUNT};

#[test]
fn note_on_appends_fresh_voice() {
    let mut p = VoicePool::new();
    assert_eq!(p.len(), 0);
    assert_eq!(p.note_on(60, 100), Ok(()));
    assert_eq!(p.len(), 1);
    let v = p.get(0);
    assert_eq!(v.note, 60);
    assert_eq!(v.velocity, 100);
    assert_eq!(v.t, 0);
    assert!(!v.released);
}

#[test]
fn note_on_rejects_note_out_of_range() {
    let mut p = VoicePool::new();
    assert_eq!(p.note_on(128, 100), Err(ValidationError::NoteOutOfRange));
    assert_eq!(p.len(), 0);
}

#[test]
fn note_on_rejects_velocity_out_of_range() {
    let mut p = VoicePool::new();
    assert_eq!(p.note_on(60, 128), Err(ValidationError::VelocityOutOfRange));
    assert_eq!(p.len(), 0);
}

#[test]
fn seventeenth_note_on_evicts_the_oldest() {
    let mut p = VoicePool::new();
    for n in 0..17u8 {
        assert_eq!(p.note_on(n, 100), Ok(()));
        assert!(p.len() <= MAX_VOICE_COUNT);
    }
    assert_eq!(p.len(), 16);
    // Note 0 is gone; the 16 most recent remain in insertion order.
    for i in 0..16usize {
        assert_eq!(p.get(i).note, (i + 1) as u8);
    }
}

#[test]
fn note_off_removes_earliest_duplicate() {
    let mut p = VoicePool::new();
    p.note_on(60, 10).unwrap();
    p.note_on(62, 15).unwrap();
    p.note_on(60, 20).unwrap();
    p.note_off(60);
    assert_eq!(p.len(), 2);
    assert_eq!(p.get(0).note, 62);
    assert_eq!(p.get(1).note, 60);
    assert_eq!(p.get(1).velocity, 20);
}

#[test]
fn note_off_without_match_is_a_noop() {
    let mut p = VoicePool::new();
    p.note_on(60, 10).unwrap();
    p.note_on(62, 15).unwrap();
    p.note_off(61);
    assert_eq!(p.len(), 2);
    assert_eq!(p.get(0).note, 60);
    assert_eq!(p.get(1).note, 62);
}

#[test]
fn tick_advances_every_voice() {
    let mut p = VoicePool::new();
    p.note_on(60, 10).unwrap();
    p.note_on(62, 15).unwrap();
    p.tick(4);
    assert_eq!(p.get(0).t, 4);
    assert_eq!(p.get(1).t, 4);
    p.tick(64);
    assert_eq!(p.get(0).t, 68);
    assert_eq!(p.get(1).t, 68);
    assert_eq!(p.get(0).note, 60);
    assert_eq!(p.get(1).note, 62);
}

#[test]
fn midi_note_off_status_removes_voice() {
    let mut p = VoicePool::new();
    p.note_on(60, 100).unwrap();
    p.process_midi_event(128, 60, 0);
    assert_eq!(p.len(), 0);
}

#[test]
fn midi_note_on_with_zero_velocity_removes_voice() {
    let mut p = VoicePool::new();
    p.note_on(60, 100).unwrap();
    p.process_midi_event(144, 60, 0);
    assert_eq!(p.len(), 0);
}

#[test]
fn midi_note_on_starts_voice() {
    let mut p = VoicePool::new();
    p.process_midi_event(144, 69, 127);
    assert_eq!(p.len(), 1);
    assert_eq!(p.get(0).note, 69);
    assert_eq!(p.get(0).velocity, 127);
}

#[test]
fn midi_other_status_is_ignored() {
    let mut p = VoicePool::new();
    p.process_midi_event(176, 69, 127);
    assert_eq!(p.len(), 0);
}

#[test]
fn midi_note_on_with_invalid_note_is_discarded() {
    let mut p = VoicePool::new();
    p.process_midi_event(144, 200, 50);
    assert_eq!(p.len(), 0);
}

#[test]
fn retrigger_then_note_off_leaves_one_voice() {
    // Two voices on the same note, one release, one rendered block:
    // exactly one note-60 voice stays active.
    let mut p = VoicePool::new();
    p.note_on(60, 100).unwrap();
    p.note_on(60, 100).unwrap();
    p.note_off(60);
    p.tick(4);
    assert_eq!(p.len(), 1);
    assert_eq!(p.get(0).note, 60);
    assert_eq!(p.get(0).t, 4);
}
