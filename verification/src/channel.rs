//! Bounded single-producer/single-consumer channel of MIDI records.
//!
//! The channel is the hand-off between the audio-processing path (which
//! pushes and must never block or allocate) and the UI polling path
//! (which pops). A push onto a full channel fails and drops the record;
//! a pop from an empty channel returns nothing. The queue itself is
//! `ringbuf`'s lock-free ring buffer; its effect on the queued records
//! is stated by the trusted wrappers below and everything else is proved
//! against that statement.

use vstd::prelude::*;

use crate::midi::MidiRecord;

verus! {

/// A fixed-capacity FIFO queue of MIDI records, holding the producer
/// and consumer halves of one `ringbuf` ring buffer.
#[verifier::external_body]
pub struct EventChannel {
    producer: ringbuf::Producer<[u8; 3]>,
    consumer: ringbuf::Consumer<[u8; 3]>,
}

/// The queued records, oldest first, as triples of bytes.
pub uninterp spec fn chan_records(ch: EventChannel) -> Seq<(u8, u8, u8)>;

/// The capacity the channel was constructed with.
pub uninterp spec fn chan_capacity(ch: EventChannel) -> nat;

/// Whether a queue holding `s` with capacity `cap` accepts one more
/// record.
pub open spec fn offer_accepted(s: Seq<(u8, u8, u8)>, cap: nat) -> bool {
    s.len() < cap
}

/// Contents after one record is offered to a queue holding `s` with
/// capacity `cap`: appended when there is room, dropped otherwise.
pub open spec fn offered(s: Seq<(u8, u8, u8)>, cap: nat, r: (u8, u8, u8)) -> Seq<(u8, u8, u8)> {
    if offer_accepted(s, cap) {
        s.push(r)
    } else {
        s
    }
}

/// Contents after the records of `rs` are offered in order.
pub open spec fn offered_all(s: Seq<(u8, u8, u8)>, cap: nat, rs: Seq<(u8, u8, u8)>) -> Seq<
    (u8, u8, u8),
>
    decreases rs.len(),
{
    if rs.len() == 0 {
        s
    } else {
        offered(offered_all(s, cap, rs.drop_last()), cap, rs.last())
    }
}

/// The record a pop returns from a queue holding `s`: the oldest one,
/// or nothing when the queue is empty.
pub open spec fn pop_result(s: Seq<(u8, u8, u8)>) -> Option<(u8, u8, u8)> {
    if s.len() == 0 {
        None
    } else {
        Some(s[0])
    }
}

/// Contents after one pop from a queue holding `s`.
pub open spec fn popped(s: Seq<(u8, u8, u8)>) -> Seq<(u8, u8, u8)> {
    if s.len() == 0 {
        s
    } else {
        s.drop_first()
    }
}

/// The byte triples of an optional record.
pub open spec fn opt_record_bytes(r: Option<MidiRecord>) -> Option<(u8, u8, u8)> {
    match r {
        Some(rec) => Some(rec@),
        None => None,
    }
}

/// Relies on ringbuf's `RingBuffer::new` and `RingBuffer::split`: a
/// freshly split ring buffer of the given capacity holds nothing.
#[verifier::external_body]
fn ring_new(capacity: usize) -> (ch: EventChannel)
    requires
        capacity < usize::MAX,
    ensures
        chan_records(ch) == Seq::<(u8, u8, u8)>::empty(),
        chan_capacity(ch) == capacity,
{
    let (producer, consumer) = ringbuf::RingBuffer::<[u8; 3]>::new(capacity).split();
    EventChannel { producer, consumer }
}

/// Relies on ringbuf's `Producer::push`: the record is appended at the
/// tail when the buffer is not full, and returned back (dropped here)
/// when it is; the call never blocks.
#[verifier::external_body]
fn ring_push(ch: &mut EventChannel, rec: MidiRecord) -> (ok: bool)
    ensures
        chan_capacity(*final(ch)) == chan_capacity(*old(ch)),
        ok == offer_accepted(chan_records(*old(ch)), chan_capacity(*old(ch))),
        chan_records(*final(ch)) == offered(
            chan_records(*old(ch)),
            chan_capacity(*old(ch)),
            rec@,
        ),
{
    ch.producer.push([rec.status, rec.data1, rec.data2]).is_ok()
}

/// Relies on ringbuf's `Consumer::pop`: removes and returns the oldest
/// record, or returns nothing when the buffer is empty; never blocks.
#[verifier::external_body]
fn ring_pop(ch: &mut EventChannel) -> (r: Option<MidiRecord>)
    ensures
        chan_capacity(*final(ch)) == chan_capacity(*old(ch)),
        opt_record_bytes(r) == pop_result(chan_records(*old(ch))),
        chan_records(*final(ch)) == popped(chan_records(*old(ch))),
{
    match ch.consumer.pop() {
        Some(data) => Some(MidiRecord { status: data[0], data1: data[1], data2: data[2] }),
        None => None,
    }
}

impl EventChannel {
    /// A new, empty channel of the given fixed capacity.
    pub fn with_capacity(capacity: usize) -> (ch: EventChannel)
        requires
            capacity < usize::MAX,
        ensures
            chan_records(ch) == Seq::<(u8, u8, u8)>::empty(),
            chan_capacity(ch) == capacity,
    {
        ring_new(capacity)
    }

    /// Offer one record: enqueued and `true` when there is room, else
    /// dropped and `false`. Never blocks.
    pub fn push(&mut self, rec: MidiRecord) -> (ok: bool)
        ensures
            chan_capacity(*final(self)) == chan_capacity(*old(self)),
            ok == offer_accepted(chan_records(*old(self)), chan_capacity(*old(self))),
            chan_records(*final(self)) == offered(
                chan_records(*old(self)),
                chan_capacity(*old(self)),
                rec@,
            ),
    {
        ring_push(self, rec)
    }

    /// Remove and return the oldest record, or `None` when the channel
    /// is empty. Never blocks.
    pub fn pop(&mut self) -> (r: Option<MidiRecord>)
        ensures
            chan_capacity(*final(self)) == chan_capacity(*old(self)),
            opt_record_bytes(r) == pop_result(chan_records(*old(self))),
            chan_records(*final(self)) == popped(chan_records(*old(self))),
    {
        ring_pop(self)
    }
}

/// Offering a prefix of `rs` to an empty queue of sufficient capacity
/// queues exactly that prefix.
proof fn lemma_round_trip_prefix(rs: Seq<(u8, u8, u8)>, cap: nat, i: int)
    requires
        rs.len() <= cap,
        0 <= i <= rs.len(),
    ensures
        offered_all(Seq::<(u8, u8, u8)>::empty(), cap, rs.take(i)) == rs.take(i),
    decreases i,
{
    if i == 0 {
        assert(rs.take(0) =~= Seq::<(u8, u8, u8)>::empty());
    } else {
        lemma_round_trip_prefix(rs, cap, i - 1);
        let p = rs.take(i);
        assert(p.drop_last() =~= rs.take(i - 1));
        assert(p.last() == rs[i - 1]);
        assert(offered_all(Seq::<(u8, u8, u8)>::empty(), cap, p) =~= p);
    }
}

/// FIFO round trip: offering at most `capacity` records to an empty
/// channel accepts every one of them, and leaves exactly those records
/// queued in arrival order — so the pops that follow return them in the
/// same order with no loss.
pub proof fn lemma_fifo_round_trip(rs: Seq<(u8, u8, u8)>, cap: nat)
    requires
        rs.len() <= cap,
    ensures
        offered_all(Seq::<(u8, u8, u8)>::empty(), cap, rs) == rs,
        forall|i: int|
            0 <= i < rs.len() ==> offer_accepted(
                offered_all(Seq::<(u8, u8, u8)>::empty(), cap, rs.take(i)),
                cap,
            ),
{
    lemma_round_trip_prefix(rs, cap, rs.len() as int);
    assert(rs.take(rs.len() as int) =~= rs);
    assert forall|i: int| 0 <= i < rs.len() implies offer_accepted(
        offered_all(Seq::<(u8, u8, u8)>::empty(), cap, rs.take(i)),
        cap,
    ) by {
        lemma_round_trip_prefix(rs, cap, i);
    }
}

/// Draining a queue holding `s` returns `s` itself, oldest first: the
/// `k`-th pop returns `s[k]` and leaves the records after it queued.
pub proof fn lemma_drain_in_order(s: Seq<(u8, u8, u8)>, k: int)
    requires
        0 <= k < s.len(),
    ensures
        pop_result(s.skip(k)) == Some(s[k]),
        popped(s.skip(k)) == s.skip(k + 1),
{
    assert(s.skip(k)[0] == s[k]);
    assert(s.skip(k).drop_first() =~= s.skip(k + 1));
}

/// Overflow: offering `capacity + 1` records to an empty channel has
/// the last offer refused, while the first `capacity` records remain
/// queued in order.
pub proof fn lemma_overflow(rs: Seq<(u8, u8, u8)>, cap: nat)
    requires
        rs.len() == cap + 1,
    ensures
        !offer_accepted(offered_all(Seq::<(u8, u8, u8)>::empty(), cap, rs.drop_last()), cap),
        offered_all(Seq::<(u8, u8, u8)>::empty(), cap, rs) == rs.drop_last(),
{
    lemma_fifo_round_trip(rs.drop_last(), cap);
    assert(rs.drop_last() =~= rs.take(cap as int));
    assert(offered_all(Seq::<(u8, u8, u8)>::empty(), cap, rs) == offered(
        offered_all(Seq::<(u8, u8, u8)>::empty(), cap, rs.drop_last()),
        cap,
        rs.last(),
    ));
}

} // verus!
