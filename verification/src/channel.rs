use vstd::prelude::*;

use crate::dup::Dup;

verus! {

/// A bounded multi-consumer broadcast channel with explicit lag semantics.
///
/// Every published value is appended to an abstract log; only the most
/// recent `capacity` values are retained for replay. A receiver is a cursor
/// into that log: one that falls behind by more than the replay capacity
/// misses the dropped values and observes a gap, rather than blocking the
/// publisher — liveness is chosen over completeness.
pub struct Broadcast<T: Dup> {
    buffer: Vec<T>,
    first: usize,
    capacity: usize,
    history: Ghost<Seq<T>>,
}

/// A subscription to a [`Broadcast`] channel: a cursor into its log.
pub struct Receiver {
    pub cursor: usize,
}

/// What one poll of a receiver yields.
pub enum RecvOutcome<T> {
    /// The next value of the log, in publication order.
    Received(T),
    /// The receiver fell behind by more than the replay capacity; it skips
    /// forward and reports how many values it missed.
    Lagged(usize),
    /// The receiver has seen every published value.
    Empty,
}

impl<T: Dup> Broadcast<T> {
    /// Every value ever published on this channel, in publication order.
    pub closed spec fn log(&self) -> Seq<T> {
        self.history@
    }

    /// How many of the oldest log entries are no longer retained.
    pub closed spec fn dropped(&self) -> int {
        self.first as int
    }

    /// How many values the channel retains for replay.
    pub closed spec fn replay_capacity(&self) -> int {
        self.capacity as int
    }

    /// The retained suffix of the log is exactly the buffer; values are
    /// only dropped once the buffer is full.
    pub closed spec fn wf(&self) -> bool {
        &&& self.capacity >= 1
        &&& self.buffer@.len() <= self.capacity
        &&& self.first + self.buffer@.len() == self.history@.len()
        &&& self.history@.len() <= usize::MAX
        &&& self.buffer@ == self.history@.subrange(
            self.first as int,
            self.history@.len() as int,
        )
        &&& self.first > 0 ==> self.buffer@.len() == self.capacity
    }

    /// Create a channel that retains the last `capacity` values.
    pub fn new(capacity: usize) -> (r: Self)
        requires
            capacity >= 1,
        ensures
            r.wf(),
            r.log() == Seq::<T>::empty(),
            r.dropped() == 0,
            r.replay_capacity() == capacity,
    {
        let r = Broadcast { buffer: Vec::new(), first: 0, capacity, history: Ghost(Seq::empty()) };
        proof {
            assert(r.buffer@ =~= r.history@.subrange(0, 0));
        }
        r
    }

    /// Append a value to the log, dropping the oldest retained value if the
    /// replay buffer is full.
    pub fn publish(&mut self, value: T)
        requires
            old(self).wf(),
            old(self).log().len() < usize::MAX,
        ensures
            final(self).wf(),
            final(self).log() == old(self).log().push(value),
            final(self).replay_capacity() == old(self).replay_capacity(),
            old(self).dropped() <= final(self).dropped(),
            final(self).dropped() <= old(self).log().len(),
    {
        let ghost gvalue = value;
        if self.buffer.len() == self.capacity {
            self.buffer.remove(0);
            self.first = self.first + 1;
        }
        self.buffer.push(value);
        proof {
            self.history@ = self.history@.push(gvalue);
            assert(self.buffer@ =~= self.history@.subrange(
                self.first as int,
                self.history@.len() as int,
            ));
        }
    }

    /// Subscribe to the channel: the new receiver sees only values
    /// published after this call.
    pub fn subscribe(&self) -> (rx: Receiver)
        requires
            self.wf(),
        ensures
            rx.cursor == self.log().len(),
    {
        Receiver { cursor: self.first + self.buffer.len() }
    }

    /// Bounds that every well-formed channel obeys: the drop point lies
    /// within the log, and at most `replay_capacity` values are retained.
    pub proof fn lemma_wf_bounds(&self)
        requires
            self.wf(),
        ensures
            0 <= self.dropped() <= self.log().len(),
            self.log().len() - self.dropped() <= self.replay_capacity(),
            self.replay_capacity() >= 1,
            self.log().len() <= usize::MAX,
    {
    }

    /// How many values have been published on this channel.
    pub fn total(&self) -> (n: usize)
        requires
            self.wf(),
        ensures
            n == self.log().len(),
    {
        self.first + self.buffer.len()
    }

    /// Poll a receiver once.
    ///
    /// In publication order, each retained value is yielded exactly once;
    /// a receiver that fell behind the retained suffix reports the exact
    /// number of values it missed and resumes at the oldest retained one.
    pub fn try_recv(&self, rx: &mut Receiver) -> (r: RecvOutcome<T>)
        requires
            self.wf(),
            old(rx).cursor <= self.log().len(),
        ensures
            final(rx).cursor <= self.log().len(),
            match r {
                RecvOutcome::Received(v) => {
                    &&& self.dropped() <= old(rx).cursor < self.log().len()
                    &&& v == self.log()[old(rx).cursor as int]
                    &&& final(rx).cursor == old(rx).cursor + 1
                },
                RecvOutcome::Lagged(n) => {
                    &&& old(rx).cursor < self.dropped()
                    &&& n == self.dropped() - old(rx).cursor
                    &&& final(rx).cursor == self.dropped()
                },
                RecvOutcome::Empty => {
                    &&& old(rx).cursor == self.log().len()
                    &&& final(rx).cursor == old(rx).cursor
                },
            },
    {
        if rx.cursor < self.first {
            let n = self.first - rx.cursor;
            rx.cursor = self.first;
            RecvOutcome::Lagged(n)
        } else if rx.cursor - self.first < self.buffer.len() {
            let idx = rx.cursor - self.first;
            let v = self.buffer[idx].dup();
            rx.cursor = rx.cursor + 1;
            RecvOutcome::Received(v)
        } else {
            RecvOutcome::Empty
        }
    }
}

/// A receiver that is within the replay capacity of the head of the log has
/// missed nothing: its next poll can never report a gap.
pub proof fn lemma_within_capacity_no_loss<T: Dup>(chan: Broadcast<T>, cursor: int)
    requires
        chan.wf(),
        0 <= cursor <= chan.log().len(),
        chan.log().len() - cursor <= chan.replay_capacity(),
    ensures
        cursor >= chan.dropped(),
{
}

} // verus!
