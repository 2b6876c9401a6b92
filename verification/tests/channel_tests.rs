use gain_plugin::channel::EventChannel;
use gain_plugin::midi::MidiRecord;

#[test]
fn fifo_round_trip_in_order() {
    let mut ch = EventChannel::with_capacity(4);
    assert!(ch.push(MidiRecord::new(1, 2, 3)));
    assert!(ch.push(MidiRecord::new(4, 5, 6)));
    assert!(ch.push(MidiRecord::new(7, 8, 9)));
    assert_eq!(ch.pop(), Some(MidiRecord::new(1, 2, 3)));
    assert_eq!(ch.pop(), Some(MidiRecord::new(4, 5, 6)));
    assert_eq!(ch.pop(), Some(MidiRecord::new(7, 8, 9)));
    assert_eq!(ch.pop(), None);
}

#[test]
fn round_trip_at_full_capacity() {
    let mut ch = EventChannel::with_capacity(3);
    for i in 0..3u8 {
        assert!(ch.push(MidiRecord::new(144, 60 + i, 100)));
    }
    for i in 0..3u8 {
        assert_eq!(ch.pop(), Some(MidiRecord::new(144, 60 + i, 100)));
    }
    assert_eq!(ch.pop(), None);
}

#[test]
fn overflow_push_fails_and_keeps_oldest() {
    let mut ch = EventChannel::with_capacity(2);
    assert!(ch.push(MidiRecord::new(144, 60, 100)));
    assert!(ch.push(MidiRecord::new(144, 61, 100)));
    // capacity + 1: refused, the record is dropped
    assert!(!ch.push(MidiRecord::new(144, 62, 100)));
    assert_eq!(ch.pop(), Some(MidiRecord::new(144, 60, 100)));
    assert_eq!(ch.pop(), Some(MidiRecord::new(144, 61, 100)));
    assert_eq!(ch.pop(), None);
}

#[test]
fn pop_on_empty_is_none() {
    let mut ch = EventChannel::with_capacity(10);
    assert_eq!(ch.pop(), None);
    assert!(ch.push(MidiRecord::new(128, 60, 0)));
    assert_eq!(ch.pop(), Some(MidiRecord::new(128, 60, 0)));
    assert_eq!(ch.pop(), None);
}

#[test]
fn zero_capacity_accepts_nothing() {
    let mut ch = EventChannel::with_capacity(0);
    assert!(!ch.push(MidiRecord::new(144, 60, 100)));
    assert_eq!(ch.pop(), None);
}

#[test]
fn audio_path_capacity() {
    // the capacity the audio-path instance is built with
    let mut ch = EventChannel::with_capacity(1000);
    for i in 0..1000u32 {
        assert!(ch.push(MidiRecord::new(144, (i % 128) as u8, 100)));
    }
    assert!(!ch.push(MidiRecord::new(144, 0, 100)));
    for i in 0..1000u32 {
        assert_eq!(ch.pop(), Some(MidiRecord::new(144, (i % 128) as u8, 100)));
    }
    assert_eq!(ch.pop(), None);
}
