//! The bounded queue of pending notifications and its two overflow policies.
//!
//! New notifications enter at the front; the back holds the entry that has waited longest.

use vstd::prelude::*;
use crate::data_value::MonitoredItemNotification;

verus! {

/// The number of entries a queue holds at most when `requested` entries were asked for.
pub open spec fn granted_capacity(requested: u32) -> nat {
    if requested < 1 {
        1
    } else {
        requested as nat
    }
}

/// The entries, front to back, after `arrival` has entered a queue that held `entries`.
///
/// Below capacity the arrival is put in front. At capacity it either pushes the entry at
/// the back out (`discard_oldest`) or takes the place of the entry at the front.
pub open spec fn enqueued(
    entries: Seq<MonitoredItemNotification>,
    capacity: nat,
    discard_oldest: bool,
    arrival: MonitoredItemNotification,
) -> Seq<MonitoredItemNotification> {
    if entries.len() < capacity {
        seq![arrival] + entries
    } else if discard_oldest {
        seq![arrival] + entries.drop_last()
    } else {
        entries.update(0, arrival)
    }
}

/// The entries, front to back, after each of `arrivals` has entered in turn, first to last.
pub open spec fn enqueued_all(
    entries: Seq<MonitoredItemNotification>,
    capacity: nat,
    discard_oldest: bool,
    arrivals: Seq<MonitoredItemNotification>,
) -> Seq<MonitoredItemNotification>
    decreases arrivals.len(),
{
    if arrivals.len() == 0 {
        entries
    } else {
        enqueued(
            enqueued_all(entries, capacity, discard_oldest, arrivals.drop_last()),
            capacity,
            discard_oldest,
            arrivals.last(),
        )
    }
}

/// One arrival never takes a queue beyond its capacity.
pub proof fn lemma_enqueued_within_capacity(
    entries: Seq<MonitoredItemNotification>,
    capacity: nat,
    discard_oldest: bool,
    arrival: MonitoredItemNotification,
)
    requires
        0 < capacity,
        entries.len() <= capacity,
    ensures
        0 < enqueued(entries, capacity, discard_oldest, arrival).len() <= capacity,
        enqueued(entries, capacity, discard_oldest, arrival)[0] == arrival,
{
}

/// However many notifications arrive, the queue never holds more than its capacity.
pub proof fn lemma_enqueued_all_within_capacity(
    entries: Seq<MonitoredItemNotification>,
    capacity: nat,
    discard_oldest: bool,
    arrivals: Seq<MonitoredItemNotification>,
)
    requires
        0 < capacity,
        entries.len() <= capacity,
    ensures
        enqueued_all(entries, capacity, discard_oldest, arrivals).len() <= capacity,
    decreases arrivals.len(),
{
    if arrivals.len() > 0 {
        lemma_enqueued_all_within_capacity(entries, capacity, discard_oldest, arrivals.drop_last());
        lemma_enqueued_within_capacity(
            enqueued_all(entries, capacity, discard_oldest, arrivals.drop_last()),
            capacity,
            discard_oldest,
            arrivals.last(),
        );
    }
}

/// A queue of notifications that never grows beyond its capacity.
#[derive(Debug, PartialEq, Eq)]
pub struct NotificationQueue {
    capacity: usize,
    discard_oldest: bool,
    entries: Vec<MonitoredItemNotification>,
    overflow: bool,
}

impl View for NotificationQueue {
    type V = Seq<MonitoredItemNotification>;

    /// The entries, front to back.
    closed spec fn view(&self) -> Seq<MonitoredItemNotification> {
        self.entries@
    }
}

impl Clone for NotificationQueue {
    fn clone(&self) -> (copy: Self)
        ensures
            copy@ == self@,
            copy.spec_capacity() == self.spec_capacity(),
            copy.spec_discard_oldest() == self.spec_discard_oldest(),
            copy.spec_overflow() == self.spec_overflow(),
    {
        proof {
            use_type_invariant(self);
        }
        let mut entries: Vec<MonitoredItemNotification> = Vec::new();
        let mut at: usize = 0;
        while at < self.entries.len()
            invariant
                at <= self.entries@.len(),
                entries@ == self.entries@.take(at as int),
            decreases self.entries@.len() - at,
        {
            entries.push(self.entries[at].clone());
            assert(self.entries@.take(at + 1) == self.entries@.take(at as int).push(
                self.entries@[at as int],
            ));
            at += 1;
        }
        assert(self.entries@.take(at as int) == self.entries@);
        NotificationQueue {
            capacity: self.capacity,
            discard_oldest: self.discard_oldest,
            entries,
            overflow: self.overflow,
        }
    }
}

impl NotificationQueue {
    /// What holds of every queue: it has room for an entry and is not filled beyond its
    /// capacity.
    #[verifier::type_invariant]
    pub closed spec fn within_capacity(&self) -> bool {
        0 < self.capacity && self.entries@.len() <= self.capacity
    }

    /// The largest number of entries the queue holds.
    pub closed spec fn spec_capacity(&self) -> nat {
        self.capacity as nat
    }

    /// Whether a full queue gives up its oldest entry (or else its newest) for an arrival.
    pub closed spec fn spec_discard_oldest(&self) -> bool {
        self.discard_oldest
    }

    /// Whether an arrival has found the queue full since an entry was last taken out.
    pub closed spec fn spec_overflow(&self) -> bool {
        self.overflow
    }

    /// What [`NotificationQueue::within_capacity`] says: the capacity is at least one, and
    /// the queue holds no more entries than that.
    pub proof fn lemma_within_capacity(&self)
        requires
            self.within_capacity(),
        ensures
            0 < self.spec_capacity(),
            self@.len() <= self.spec_capacity(),
    {
    }

    /// An empty queue for `max(1, requested_size)` entries.
    pub fn new(requested_size: u32, discard_oldest: bool) -> (queue: NotificationQueue)
        ensures
            queue@ == Seq::<MonitoredItemNotification>::empty(),
            queue.spec_capacity() == granted_capacity(requested_size),
            queue.spec_discard_oldest() == discard_oldest,
            !queue.spec_overflow(),
    {
        let capacity: usize = if requested_size < 1 {
            1
        } else {
            requested_size as usize
        };
        NotificationQueue { capacity, discard_oldest, entries: Vec::new(), overflow: false }
    }

    /// The largest number of entries the queue holds.
    pub fn capacity(&self) -> (capacity: usize)
        ensures
            capacity == self.spec_capacity(),
            0 < capacity,
    {
        proof {
            use_type_invariant(self);
        }
        self.capacity
    }

    /// Whether a full queue gives up its oldest entry (or else its newest) for an arrival.
    #[verifier::when_used_as_spec(spec_discard_oldest)]
    pub fn discard_oldest(&self) -> (discard_oldest: bool)
        ensures
            discard_oldest == self.spec_discard_oldest(),
    {
        self.discard_oldest
    }

    /// Whether an arrival has found the queue full since an entry was last taken out.
    #[verifier::when_used_as_spec(spec_overflow)]
    pub fn overflow(&self) -> (overflow: bool)
        ensures
            overflow == self.spec_overflow(),
    {
        self.overflow
    }

    /// The number of entries in the queue.
    pub fn len(&self) -> (len: usize)
        ensures
            len == self@.len(),
            len <= self.spec_capacity(),
    {
        proof {
            use_type_invariant(self);
        }
        self.entries.len()
    }

    /// Whether the queue holds no entry.
    pub fn is_empty(&self) -> (empty: bool)
        ensures
            empty == (self@.len() == 0),
    {
        self.entries.is_empty()
    }

    /// The entries, front to back.
    pub fn as_slice(&self) -> (entries: &[MonitoredItemNotification])
        ensures
            entries@ == self@,
    {
        self.entries.as_slice()
    }

    /// Puts `arrival` at the front, making room by the queue's policy if it is full.
    ///
    /// The overflow flag is raised when the queue was full and never lowered here.
    pub fn enqueue(&mut self, arrival: MonitoredItemNotification)
        ensures
            final(self)@ == enqueued(
                old(self)@,
                old(self).spec_capacity(),
                old(self).spec_discard_oldest(),
                arrival,
            ),
            0 < final(self)@.len() <= final(self).spec_capacity(),
            final(self).spec_overflow() == (old(self).spec_overflow()
                || old(self)@.len() == old(self).spec_capacity()),
            final(self).spec_capacity() == old(self).spec_capacity(),
            final(self).spec_discard_oldest() == old(self).spec_discard_oldest(),
    {
        proof {
            use_type_invariant(&*self);
        }
        // The entries are worked on outside the queue and put back once they fit again.
        let mut entries: Vec<MonitoredItemNotification> = Vec::new();
        std::mem::swap(&mut self.entries, &mut entries);
        if entries.len() == self.capacity {
            if self.discard_oldest {
                let _ = entries.pop();
                entries.insert(0, arrival);
            } else {
                entries.set(0, arrival);
            }
            self.overflow = true;
        } else {
            entries.insert(0, arrival);
        }
        std::mem::swap(&mut self.entries, &mut entries);
    }

    /// Takes the entry at the front out, if there is one, and lowers the overflow flag.
    ///
    /// An empty queue is left as it was, flag included.
    pub fn dequeue(&mut self) -> (taken: Option<MonitoredItemNotification>)
        ensures
            final(self).spec_capacity() == old(self).spec_capacity(),
            final(self).spec_discard_oldest() == old(self).spec_discard_oldest(),
            old(self)@.len() == 0 ==> taken is None,
            old(self)@.len() == 0 ==> final(self)@ == old(self)@,
            old(self)@.len() == 0 ==> final(self).spec_overflow() == old(self).spec_overflow(),
            old(self)@.len() > 0 ==> taken == Some(old(self)@[0]),
            old(self)@.len() > 0 ==> final(self)@ == old(self)@.drop_first(),
            old(self)@.len() > 0 ==> !final(self).spec_overflow(),
    {
        proof {
            use_type_invariant(&*self);
        }
        if self.entries.is_empty() {
            None
        } else {
            let mut entries: Vec<MonitoredItemNotification> = Vec::new();
            std::mem::swap(&mut self.entries, &mut entries);
            let front = entries.remove(0);
            std::mem::swap(&mut self.entries, &mut entries);
            self.overflow = false;
            Some(front)
        }
    }
}

} // verus!
