//! A bounded first-in first-out channel of solicitation records, with
//! non-blocking reserve-then-commit on the producing side.

use std::collections::VecDeque;

use vstd::prelude::*;

use crate::addr::{NeighborSolicit, RECORD_LEN};

verus! {

/// A slot that `reserve` set aside; `commit` fills it.
#[derive(Debug)]
pub struct Reservation {
    slot: (),
}

/// A bounded channel that holds committed records in commit order, and
/// counts the slots reserved but not yet committed.
pub struct EventChannel {
    records: VecDeque<NeighborSolicit>,
    reserved: usize,
    capacity: usize,
}

impl EventChannel {
    /// The committed records, oldest first.
    pub closed spec fn view(&self) -> Seq<NeighborSolicit> {
        self.records@
    }

    /// The number of records the channel can hold.
    pub closed spec fn spec_capacity(&self) -> nat {
        self.capacity as nat
    }

    /// The number of slots reserved and not yet committed.
    pub closed spec fn pending(&self) -> nat {
        self.reserved as nat
    }

    /// Committed records and reserved slots together fit the capacity.
    pub closed spec fn wf(&self) -> bool {
        self.records@.len() + self.reserved <= self.capacity
    }

    /// Whether a reservation made now would succeed.
    pub open spec fn has_room(&self) -> bool {
        self@.len() + self.pending() < self.spec_capacity()
    }

    /// An empty channel that holds up to `capacity` records.
    pub fn new(capacity: usize) -> (r: EventChannel)
        ensures
            r.wf(),
            r@ == Seq::<NeighborSolicit>::empty(),
            r.spec_capacity() == capacity,
            r.pending() == 0,
    {
        EventChannel { records: VecDeque::new(), reserved: 0, capacity }
    }

    /// An empty channel sized in bytes: it holds as many whole records as fit
    /// in `byte_size` bytes.
    pub fn with_byte_size(byte_size: usize) -> (r: EventChannel)
        ensures
            r.wf(),
            r@ == Seq::<NeighborSolicit>::empty(),
            r.spec_capacity() == byte_size / RECORD_LEN,
            r.pending() == 0,
    {
        EventChannel::new(byte_size / RECORD_LEN)
    }

    /// The number of records the channel can hold.
    pub fn capacity(&self) -> (r: usize)
        ensures
            r == self.spec_capacity(),
    {
        self.capacity
    }

    /// The number of committed records waiting to be received.
    pub fn len(&self) -> (r: usize)
        ensures
            r == self@.len(),
    {
        self.records.len()
    }

    /// Whether no committed record is waiting.
    pub fn is_empty(&self) -> (r: bool)
        ensures
            r == (self@.len() == 0),
    {
        self.records.len() == 0
    }

    /// Sets a slot aside without waiting. Fails, and changes nothing, when
    /// the committed records and reserved slots already fill the channel.
    pub fn reserve(&mut self) -> (r: Option<Reservation>)
        requires
            old(self).wf(),
        ensures
            final(self).wf(),
            final(self)@ == old(self)@,
            final(self).spec_capacity() == old(self).spec_capacity(),
            r is Some <==> old(self).has_room(),
            r is Some ==> final(self).pending() == old(self).pending() + 1,
            r is None ==> final(self).pending() == old(self).pending(),
    {
        if self.reserved >= self.capacity || self.records.len() >= self.capacity - self.reserved {
            return None;
        }
        self.reserved = self.reserved + 1;
        Some(Reservation { slot: () })
    }

    /// Fills a reserved slot with `record`, which becomes visible to the
    /// receiver after every record committed before it.
    pub fn commit(&mut self, slot: Reservation, record: NeighborSolicit)
        requires
            old(self).wf(),
            old(self).pending() > 0,
        ensures
            final(self).wf(),
            final(self)@ == old(self)@.push(record),
            final(self).spec_capacity() == old(self).spec_capacity(),
            final(self).pending() == old(self).pending() - 1,
    {
        let Reservation { slot: _ } = slot;
        self.reserved = self.reserved - 1;
        self.records.push_back(record);
    }

    /// Reserves a slot and commits `record` to it; when no slot is free the
    /// record is dropped and the channel is unchanged.
    pub fn try_send(&mut self, record: NeighborSolicit) -> (r: bool)
        requires
            old(self).wf(),
        ensures
            final(self).wf(),
            r == old(self).has_room(),
            final(self).spec_capacity() == old(self).spec_capacity(),
            final(self).pending() == old(self).pending(),
            final(self)@ == if r {
                old(self)@.push(record)
            } else {
                old(self)@
            },
    {
        match self.reserve() {
            Some(slot) => {
                self.commit(slot, record);
                true
            },
            None => false,
        }
    }

    /// Takes the oldest committed record, if any.
    pub fn recv(&mut self) -> (r: Option<NeighborSolicit>)
        requires
            old(self).wf(),
        ensures
            final(self).wf(),
            final(self).spec_capacity() == old(self).spec_capacity(),
            final(self).pending() == old(self).pending(),
            old(self)@.len() == 0 ==> r is None && final(self)@ == old(self)@,
            old(self)@.len() > 0 ==> r == Some(old(self)@[0]) && final(self)@ == old(self)@.drop_first(),
    {
        let r = self.records.pop_front();
        proof {
            if old(self)@.len() > 0 {
                assert(self.records@ =~= old(self)@.drop_first());
            }
        }
        r
    }
}

} // verus!
