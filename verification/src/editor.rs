//! The editor's shared state, its per-tick MIDI poll, and the
//! open/close state machine of the editor window.

use vstd::prelude::*;

use crate::channel::{
    chan_capacity, chan_records, opt_record_bytes, pop_result, popped, EventChannel,
};
use crate::midi::{record_of, MidiRecord, NOTE_ON_STATUS};
use crate::params::DawParameters;
use crate::text::{byte_decimal, spec_byte_decimal};

verus! {

/// The state the editor works on: the shared parameters, the receiving
/// end of the MIDI channel, and the most recent note-on record seen
/// (all zero until one arrives).
pub struct EditorState {
    pub params: DawParameters,
    pub midi_events: EventChannel,
    pub last_note: MidiRecord,
}

/// The last-note display after one popped record is examined: a
/// note-on record replaces it, anything else — another status byte or
/// no record at all — leaves it unchanged.
pub open spec fn spec_note_seen(last: MidiRecord, r: Option<(u8, u8, u8)>) -> MidiRecord {
    match r {
        Some(t) => if t.0 == NOTE_ON_STATUS {
            record_of(t)
        } else {
            last
        },
        None => last,
    }
}

impl EditorState {
    /// Fresh editor state over the given parameters and channel; no
    /// note has been seen yet.
    pub fn new(params: DawParameters, midi_events: EventChannel) -> (r: EditorState)
        ensures
            r.params == params,
            r.midi_events == midi_events,
            r.last_note == (MidiRecord { status: 0, data1: 0, data2: 0 }),
    {
        EditorState { params, midi_events, last_note: MidiRecord::new(0, 0, 0) }
    }

    /// One UI refresh tick's worth of draining: pop at most one record
    /// from the channel, and keep it as the last note seen when it is a
    /// note-on message. Returns the popped record, if any.
    pub fn poll(&mut self) -> (r: Option<MidiRecord>)
        ensures
            final(self).params == old(self).params,
            chan_capacity(final(self).midi_events) == chan_capacity(old(self).midi_events),
            opt_record_bytes(r) == pop_result(chan_records(old(self).midi_events)),
            chan_records(final(self).midi_events) == popped(chan_records(old(self).midi_events)),
            final(self).last_note == spec_note_seen(
                old(self).last_note,
                pop_result(chan_records(old(self).midi_events)),
            ),
    {
        let r = self.midi_events.pop();
        match r {
            Some(rec) => {
                if rec.is_note_on() {
                    self.last_note = rec;
                }
                Some(rec)
            },
            None => None,
        }
    }

    /// The note-number text the UI shows: the second byte of the last
    /// note seen, in decimal.
    pub fn note_text(&self) -> (r: String)
        ensures
            r@ == spec_byte_decimal(self.last_note.data1),
    {
        byte_decimal(self.last_note.data1)
    }
}

/// The editor window's lifecycle: its state and whether the window is
/// currently open. The platform window itself lives outside the
/// library; this type decides when one may be created or released.
pub struct TestPluginEditor {
    pub state: EditorState,
    pub is_open: bool,
}

impl TestPluginEditor {
    /// The editor after an `open` call, with the call's result: opening
    /// a closed editor succeeds; opening an open one fails and changes
    /// nothing, so no second window is ever created.
    pub open spec fn spec_open(self) -> (TestPluginEditor, bool) {
        if self.is_open {
            (self, false)
        } else {
            ((TestPluginEditor { is_open: true, ..self }), true)
        }
    }

    /// The editor after a `close` call: closed, whatever it was before.
    pub open spec fn spec_close(self) -> TestPluginEditor {
        TestPluginEditor { is_open: false, ..self }
    }

    /// A fresh, closed editor over the given state.
    pub fn new(state: EditorState) -> (r: TestPluginEditor)
        ensures
            r.state == state,
            !r.is_open,
    {
        TestPluginEditor { state, is_open: false }
    }

    /// Try to open the editor. Fails, without touching anything, when
    /// it is already open.
    pub fn open(&mut self) -> (r: bool)
        ensures
            (*final(self), r) == old(self).spec_open(),
    {
        if self.is_open {
            return false;
        }
        self.is_open = true;
        true
    }

    /// Whether the editor window is open.
    pub fn is_open(&self) -> (r: bool)
        ensures
            r == self.is_open,
    {
        self.is_open
    }

    /// Close the editor. Safe to call when already closed.
    pub fn close(&mut self)
        ensures
            *final(self) == old(self).spec_close(),
    {
        self.is_open = false;
    }
}

/// A second `open` on an editor that one `open` has already gone
/// through always fails and leaves the editor exactly as it was.
pub proof fn lemma_open_idempotent(e: TestPluginEditor)
    ensures
        e.spec_open().0.spec_open() == (e.spec_open().0, false),
{
}

/// `close` is idempotent: closing twice is the same as closing once,
/// and leaves the editor closed.
pub proof fn lemma_close_twice(e: TestPluginEditor)
    ensures
        e.spec_close().spec_close() == e.spec_close(),
        !e.spec_close().is_open,
{
}

} // verus!
