//! The observation channel: an ordered, bounded, multi-producer conduit that
//! carries every uplink observation to the single sweep-driver consumer.
//!
//! The conduit never drops an observation. When it is full, an offer is
//! refused and the caller keeps the observation — backpressure delays the
//! producer rather than losing an entry, because a lost observation would
//! turn into a false negative channel result.

use vstd::prelude::*;

use crate::protocol::UplinkObservation;

verus! {

/// A bounded first-in-first-out queue of uplink observations.
pub struct ObservationChannel {
    items: Vec<UplinkObservation>,
    capacity: usize,
}

impl ObservationChannel {
    /// The queued observations, oldest first.
    pub closed spec fn contents(self) -> Seq<UplinkObservation> {
        self.items@
    }

    /// The bound the channel was created with.
    pub closed spec fn cap(self) -> nat {
        self.capacity as nat
    }

    /// Creates an empty channel with the given bound.
    pub fn new(capacity: usize) -> (c: Self)
        ensures
            c.contents() == Seq::<UplinkObservation>::empty(),
            c.cap() == capacity,
    {
        ObservationChannel { items: Vec::new(), capacity }
    }

    /// How many observations are queued.
    pub fn len(&self) -> (n: usize)
        ensures
            n == self.contents().len(),
    {
        self.items.len()
    }

    /// Offers an observation. A full channel refuses the offer and keeps its
    /// contents as they are — nothing is ever dropped; otherwise the
    /// observation is appended after every earlier one.
    pub fn try_send(&mut self, obs: UplinkObservation) -> (accepted: bool)
        ensures
            final (self).cap() == old(self).cap(),
            accepted == (old(self).contents().len() < old(self).cap()),
            accepted ==> final (self).contents() == old(self).contents().push(obs),
            !accepted ==> final (self).contents() == old(self).contents(),
    {
        if self.items.len() < self.capacity {
            self.items.push(obs);
            true
        } else {
            false
        }
    }

    /// Takes the oldest observation, or none when the channel is empty.
    pub fn try_recv(&mut self) -> (r: Option<UplinkObservation>)
        ensures
            final (self).cap() == old(self).cap(),
            old(self).contents().len() == 0 ==> r is None && final (self).contents() == old(
                self,
            ).contents(),
            old(self).contents().len() > 0 ==> (r matches Some(obs) && obs == old(
                self,
            ).contents()[0] && final (self).contents() == old(self).contents().drop_first()),
    {
        if self.items.len() == 0 {
            None
        } else {
            let obs = self.items.remove(0);
            proof {
                assert(self.items@ =~= old(self).items@.drop_first());
            }
            Some(obs)
        }
    }
}

} // verus!
