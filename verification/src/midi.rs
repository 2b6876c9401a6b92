//! Raw three-byte MIDI records and the pitch transposition applied to
//! events that are forwarded back to the host.

use vstd::prelude::*;

verus! {

/// Status byte of a MIDI note-on message.
pub const NOTE_ON_STATUS: u8 = 144;

/// Number of semitones added to the note byte of a forwarded event
/// (one octave up).
pub const TRANSPOSE_SEMITONES: u8 = 12;

/// One raw MIDI message: a status byte followed by two data bytes.
/// For a note-on message `data1` is the note number and `data2` the
/// velocity.
#[derive(Clone, Copy, PartialEq, Eq, Structural, Debug)]
pub struct MidiRecord {
    pub status: u8,
    pub data1: u8,
    pub data2: u8,
}

impl View for MidiRecord {
    type V = (u8, u8, u8);

    /// The record as a triple of plain bytes, for specifications.
    open spec fn view(&self) -> (u8, u8, u8) {
        (self.status, self.data1, self.data2)
    }
}

/// The record whose bytes are the given triple.
pub open spec fn record_of(t: (u8, u8, u8)) -> MidiRecord {
    MidiRecord { status: t.0, data1: t.1, data2: t.2 }
}

impl MidiRecord {
    pub fn new(status: u8, data1: u8, data2: u8) -> (r: MidiRecord)
        ensures
            r == (MidiRecord { status, data1, data2 }),
    {
        MidiRecord { status, data1, data2 }
    }

    /// Whether the record is a note-on message.
    pub open spec fn spec_is_note_on(self) -> bool {
        self.status == NOTE_ON_STATUS
    }

    pub fn is_note_on(&self) -> (r: bool)
        ensures
            r == self.spec_is_note_on(),
    {
        self.status == NOTE_ON_STATUS
    }

    /// The same record with the note byte raised one octave, wrapping
    /// modulo 256 as byte addition does.
    pub open spec fn spec_transposed(self) -> MidiRecord {
        MidiRecord {
            status: self.status,
            data1: ((self.data1 + TRANSPOSE_SEMITONES) % 256) as u8,
            data2: self.data2,
        }
    }

    /// Copy of the record with `data1` shifted up by
    /// [`TRANSPOSE_SEMITONES`], wrapping around the byte range.
    pub fn transposed(&self) -> (r: MidiRecord)
        ensures
            r == self.spec_transposed(),
    {
        let shifted: u8 = if self.data1 >= 244 {
            (self.data1 - 244) as u8
        } else {
            (self.data1 + TRANSPOSE_SEMITONES) as u8
        };
        MidiRecord { status: self.status, data1: shifted, data2: self.data2 }
    }
}

} // verus!
