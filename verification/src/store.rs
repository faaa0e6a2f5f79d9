//! The store of received deliveries: a queue of bounded length that drops its
//! oldest record to make room for a new one.

use crate::clock::{current_timestamp, is_timestamp};
use crate::record::{spec_stamp, spec_views, RecordView, WebhookPayload, WebhookRecord};
use std::collections::VecDeque;
use vstd::prelude::*;

verus! {

/// The number of records that the store retains at most.
pub const CAPACITY: usize = 100;

/// The contents of a store after one more record has arrived: the record is
/// added at the tail, and if the store was full its oldest record leaves.
pub open spec fn spec_append(records: Seq<RecordView>, record: RecordView) -> Seq<RecordView> {
    if records.len() >= CAPACITY {
        records.drop_first().push(record)
    } else {
        records.push(record)
    }
}

/// The contents of a store after the records of `arrivals` have arrived one
/// by one, oldest first.
pub open spec fn spec_append_all(records: Seq<RecordView>, arrivals: Seq<RecordView>) -> Seq<
    RecordView,
>
    decreases arrivals.len(),
{
    if arrivals.len() == 0 {
        records
    } else {
        spec_append(spec_append_all(records, arrivals.drop_last()), arrivals.last())
    }
}

/// The newest records of `history`, at most [`CAPACITY`] of them, in their
/// order of arrival.
pub open spec fn spec_newest(history: Seq<RecordView>) -> Seq<RecordView> {
    if history.len() <= CAPACITY {
        history
    } else {
        history.subrange(history.len() - CAPACITY, history.len() as int)
    }
}

/// The received deliveries, oldest first. It never holds more than
/// [`CAPACITY`] records.
pub struct WebhookStore {
    records: VecDeque<WebhookRecord>,
}

impl View for WebhookStore {
    type V = Seq<RecordView>;

    closed spec fn view(&self) -> Seq<RecordView> {
        spec_views(self.records@)
    }
}

impl WebhookStore {
    #[verifier::type_invariant]
    spec fn bounded(self) -> bool {
        self.records@.len() <= CAPACITY
    }

    /// An empty store.
    pub fn new() -> (store: Self)
        ensures
            store@ == Seq::<RecordView>::empty(),
            store@.len() == 0,
    {
        let store = WebhookStore { records: VecDeque::with_capacity(CAPACITY) };
        assert(store@ =~= Seq::<RecordView>::empty());
        store
    }

    /// The number of records held.
    pub fn count(&self) -> (n: usize)
        ensures
            n == self@.len(),
            n <= CAPACITY,
    {
        proof {
            use_type_invariant(self);
        }
        self.records.len()
    }

    /// Adds a record at the tail. A full store first drops its oldest record,
    /// so that it never holds more than [`CAPACITY`].
    pub fn append(&mut self, record: WebhookRecord)
        ensures
            final(self)@ == spec_append(old(self)@, record@),
            final(self)@.len() <= CAPACITY,
    {
        proof {
            use_type_invariant(&*self);
        }
        let mut records: VecDeque<WebhookRecord> = VecDeque::new();
        std::mem::swap(&mut self.records, &mut records);
        if records.len() >= CAPACITY {
            records.pop_front();
        }
        records.push_back(record);
        self.records = records;
        assert(self@ =~= spec_append(old(self)@, record@));
    }

    /// Ingests a payload at the time `now`: a payload without a timestamp is
    /// stamped with `now`, and the record is added as [`Self::append`] does.
    pub fn ingest_at(&mut self, payload: WebhookPayload, now: String)
        ensures
            final(self)@ == spec_append(old(self)@, spec_stamp(payload@, now@)),
            final(self)@.len() <= CAPACITY,
    {
        self.append(payload.into_record(now));
    }

    /// Ingests a payload at the current time, read from the wall clock.
    ///
    /// Whatever the clock shows, the record keeps the payload's members and
    /// a timestamp that the payload supplied; only a missing timestamp
    /// depends on the clock, and it has the shape of a time.
    pub fn ingest(&mut self, payload: WebhookPayload)
        ensures
            exists|now: Seq<char>|
                is_timestamp(now) && final(self)@ == spec_append(
                    old(self)@,
                    #[trigger] spec_stamp(payload@, now),
                ),
            final(self)@.len() <= CAPACITY,
    {
        let now = current_timestamp();
        self.ingest_at(payload, now);
    }

    /// A copy of the records held, oldest first. The copy is independent of
    /// the store: later arrivals do not change it.
    pub fn snapshot(&self) -> (records: Vec<WebhookRecord>)
        ensures
            spec_views(records@) == self@,
            records@.len() == self@.len(),
            records@.len() <= CAPACITY,
    {
        proof {
            use_type_invariant(self);
        }
        let mut records: Vec<WebhookRecord> = Vec::new();
        let mut i: usize = 0;
        while i < self.records.len()
            invariant
                i <= self.records@.len(),
                records@.len() == i,
                forall|j: int| 0 <= j < i ==> (#[trigger] records@[j])@ == self.records@[j]@,
            decreases self.records@.len() - i,
        {
            records.push(self.records[i].clone());
            i = i + 1;
        }
        assert(spec_views(records@) =~= self@);
        records
    }
}

/// A store that is within its capacity stays within it when a record
/// arrives, and the new record is then its newest.
pub proof fn lemma_append_bounded(records: Seq<RecordView>, record: RecordView)
    requires
        records.len() <= CAPACITY,
    ensures
        spec_append(records, record).len() <= CAPACITY,
        spec_append(records, record).len() == if records.len() == CAPACITY {
            CAPACITY as nat
        } else {
            records.len() + 1
        },
        spec_append(records, record).last() == record,
{
}

/// Whatever arrives, a store holds the newest records of its history: of what
/// it held before followed by the arrivals, the last [`CAPACITY`] at most, in
/// their order of arrival.
pub proof fn lemma_append_all_keeps_newest(records: Seq<RecordView>, arrivals: Seq<RecordView>)
    requires
        records.len() <= CAPACITY,
    ensures
        spec_append_all(records, arrivals) == spec_newest(records + arrivals),
        spec_append_all(records, arrivals).len() <= CAPACITY,
    decreases arrivals.len(),
{
    if arrivals.len() == 0 {
        assert(records + arrivals =~= records);
    } else {
        let earlier = arrivals.drop_last();
        lemma_append_all_keeps_newest(records, earlier);
        assert((records + earlier).push(arrivals.last()) =~= records + arrivals);
        assert(spec_append(spec_newest(records + earlier), arrivals.last()) =~= spec_newest(
            records + arrivals,
        ));
    }
}

/// Once at least [`CAPACITY`] records have arrived, the store is full and
/// holds exactly the last [`CAPACITY`] arrivals, in their order of arrival.
pub proof fn lemma_capacity_reached(records: Seq<RecordView>, arrivals: Seq<RecordView>)
    requires
        records.len() <= CAPACITY,
        arrivals.len() >= CAPACITY,
    ensures
        spec_append_all(records, arrivals).len() == CAPACITY,
        spec_append_all(records, arrivals) == arrivals.subrange(
            arrivals.len() - CAPACITY,
            arrivals.len() as int,
        ),
{
    lemma_append_all_keeps_newest(records, arrivals);
    assert(spec_newest(records + arrivals) =~= arrivals.subrange(
        arrivals.len() - CAPACITY,
        arrivals.len() as int,
    ));
}

/// Eviction is first in, first out: when one record more than [`CAPACITY`]
/// arrives, all of them distinct, the first arrival is gone and the second
/// is the oldest record held.
pub proof fn lemma_fifo_eviction(records: Seq<RecordView>, arrivals: Seq<RecordView>)
    requires
        records.len() <= CAPACITY,
        arrivals.len() == CAPACITY + 1,
        arrivals.no_duplicates(),
    ensures
        !spec_append_all(records, arrivals).contains(arrivals[0]),
        spec_append_all(records, arrivals)[0] == arrivals[1],
{
    lemma_capacity_reached(records, arrivals);
}

} // verus!
