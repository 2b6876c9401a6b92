use gain_plugin::channel::EventChannel;
use gain_plugin::editor::{EditorState, TestPluginEditor};
use gain_plugin::midi::MidiRecord;
use gain_plugin::params::DawParameters;

fn fresh_state(capacity: usize) -> EditorState {
    EditorState::new(DawParameters::default(), EventChannel::with_capacity(capacity))
}

#[test]
fn note_on_updates_last_note_display() {
    let mut state = fresh_state(10);
    assert_eq!(state.last_note, MidiRecord::new(0, 0, 0));
    // note-on, middle C, velocity 100
    assert!(state.midi_events.push(MidiRecord::new(144, 60, 100)));
    let popped = state.poll();
    assert_eq!(popped, Some(MidiRecord::new(144, 60, 100)));
    assert_eq!(state.last_note, MidiRecord::new(144, 60, 100));
    assert_eq!(state.note_text(), "60");
}

#[test]
fn note_off_is_ignored_by_the_display() {
    let mut state = fresh_state(10);
    assert!(state.midi_events.push(MidiRecord::new(144, 60, 100)));
    state.poll();
    // note-off for the same key: drained, but the display keeps the note-on
    assert!(state.midi_events.push(MidiRecord::new(128, 60, 0)));
    let popped = state.poll();
    assert_eq!(popped, Some(MidiRecord::new(128, 60, 0)));
    assert_eq!(state.last_note, MidiRecord::new(144, 60, 100));
    assert_eq!(state.note_text(), "60");
}

#[test]
fn poll_on_empty_changes_nothing() {
    let mut state = fresh_state(10);
    assert_eq!(state.poll(), None);
    assert_eq!(state.last_note, MidiRecord::new(0, 0, 0));
    assert_eq!(state.note_text(), "0");
}

#[test]
fn poll_drains_one_record_per_tick() {
    let mut state = fresh_state(10);
    assert!(state.midi_events.push(MidiRecord::new(144, 10, 1)));
    assert!(state.midi_events.push(MidiRecord::new(144, 20, 2)));
    assert_eq!(state.poll(), Some(MidiRecord::new(144, 10, 1)));
    assert_eq!(state.last_note, MidiRecord::new(144, 10, 1));
    assert_eq!(state.poll(), Some(MidiRecord::new(144, 20, 2)));
    assert_eq!(state.last_note, MidiRecord::new(144, 20, 2));
    assert_eq!(state.poll(), None);
}

#[test]
fn note_text_shows_full_byte_range() {
    let mut state = fresh_state(10);
    assert!(state.midi_events.push(MidiRecord::new(144, 255, 1)));
    state.poll();
    assert_eq!(state.note_text(), "255");
}

#[test]
fn open_twice_fails_and_close_twice_is_safe() {
    let mut editor = TestPluginEditor::new(fresh_state(10));
    assert!(!editor.is_open());
    assert!(editor.open());
    assert!(editor.is_open());
    // second open: reported as failure, state untouched
    assert!(!editor.open());
    assert!(editor.is_open());
    editor.close();
    assert!(!editor.is_open());
    editor.close();
    assert!(!editor.is_open());
    // after the double close the editor can open again
    assert!(editor.open());
    assert!(editor.is_open());
}
