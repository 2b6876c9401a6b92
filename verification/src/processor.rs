//! The audio path's MIDI handling: queue a copy of every incoming
//! record for the UI, and build the transposed batch that is forwarded
//! back to the host.

use vstd::prelude::*;

use crate::channel::{chan_capacity, chan_records, offered_all, EventChannel};
use crate::midi::MidiRecord;

verus! {

/// The byte triples of a batch of records.
pub open spec fn records_bytes(rs: Seq<MidiRecord>) -> Seq<(u8, u8, u8)> {
    rs.map_values(|r: MidiRecord| r@)
}

/// Handle one host-delivered batch of MIDI records, in order: offer a
/// copy of each to the UI channel (a full channel drops the copy — the
/// audio path never blocks on it), and collect the record transposed
/// one octave up for forwarding to the host. Every operation is total:
/// nothing on this path fails or panics.
pub fn handle_incoming_events(events: &Vec<MidiRecord>, midi_events: &mut EventChannel) -> (out:
    Vec<MidiRecord>)
    ensures
        chan_capacity(*final(midi_events)) == chan_capacity(*old(midi_events)),
        chan_records(*final(midi_events)) == offered_all(
            chan_records(*old(midi_events)),
            chan_capacity(*old(midi_events)),
            records_bytes(events@),
        ),
        out@.len() == events@.len(),
        forall|i: int| 0 <= i < events@.len() ==> out@[i] == events@[i].spec_transposed(),
{
    let ghost orig = chan_records(*midi_events);
    let ghost cap = chan_capacity(*midi_events);
    let mut out: Vec<MidiRecord> = Vec::new();
    let mut k: usize = 0;
    while k < events.len()
        invariant
            k <= events@.len(),
            chan_capacity(*midi_events) == cap,
            chan_records(*midi_events) == offered_all(orig, cap, records_bytes(events@).take(
                k as int,
            )),
            out@.len() == k,
            forall|i: int| 0 <= i < k ==> out@[i] == events@[i].spec_transposed(),
        decreases events@.len() - k,
    {
        let rec = events[k];
        let _ = midi_events.push(rec);
        out.push(rec.transposed());
        k = k + 1;
        proof {
            let bs = records_bytes(events@);
            assert(bs.take(k as int).drop_last() =~= bs.take(k - 1));
            assert(bs.take(k as int).last() == rec@);
        }
    }
    proof {
        assert(records_bytes(events@).take(events@.len() as int) =~= records_bytes(events@));
    }
    out
}

} // verus!
