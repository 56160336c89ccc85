use std::collections::BTreeMap;

use vstd::prelude::*;

use crate::player::PlayerId;

verus! {

/// Number of events that a player's event queue keeps; older ones are dropped.
pub const SYSLOG_FIFO_MAX_SIZE: usize = 10;

/// A bounded first-in first-out queue.
///
/// It keeps the `SYSLOG_FIFO_MAX_SIZE` most recent values pushed and not yet
/// popped; pushing onto a full queue drops the oldest value.
pub struct Fifo<T> {
    list: Vec<Option<T>>,
    push_ind: usize,
    pop_ind: usize,
    len: usize,
}

/// Slot of the ring buffer that holds the `i`-th oldest live value, for a
/// window starting at `pop_ind` (both below or at the capacity).
pub open spec fn ring_slot(pop_ind: int, i: int) -> int {
    if pop_ind + i < SYSLOG_FIFO_MAX_SIZE {
        pop_ind + i
    } else {
        pop_ind + i - SYSLOG_FIFO_MAX_SIZE
    }
}

/// What a queue holding `s` holds once `x` is pushed: `x` comes last, and the
/// oldest value is dropped when the queue was full.
pub open spec fn fifo_pushed<T>(s: Seq<T>, x: T) -> Seq<T> {
    if s.len() < SYSLOG_FIFO_MAX_SIZE {
        s.push(x)
    } else {
        s.drop_first().push(x)
    }
}

/// What a queue holding `s` holds once the values of `xs` are pushed one by
/// one, in order.
pub open spec fn fifo_pushed_all<T>(s: Seq<T>, xs: Seq<T>) -> Seq<T>
    decreases xs.len(),
{
    if xs.len() == 0 {
        s
    } else {
        fifo_pushed(fifo_pushed_all(s, xs.drop_last()), xs.last())
    }
}

/// The most recent values of `s`, as many as a queue holds, oldest first.
pub open spec fn latest<T>(s: Seq<T>) -> Seq<T> {
    if s.len() <= SYSLOG_FIFO_MAX_SIZE {
        s
    } else {
        s.skip(s.len() - SYSLOG_FIFO_MAX_SIZE)
    }
}

/// A queue keeps the most recent values pushed onto it: starting from the
/// values `s` (no more than the capacity) and pushing the values `xs` one
/// by one leaves the last `SYSLOG_FIFO_MAX_SIZE` values of `s` followed by
/// `xs`, in the order they were pushed.
pub proof fn law_fifo_keeps_latest<T>(s: Seq<T>, xs: Seq<T>)
    requires
        s.len() <= SYSLOG_FIFO_MAX_SIZE,
    ensures
        fifo_pushed_all(s, xs) == latest(s + xs),
    decreases xs.len(),
{
    if xs.len() == 0 {
        assert(s + xs =~= s);
    } else {
        let init = xs.drop_last();
        let x = xs.last();
        law_fifo_keeps_latest(s, init);
        let t = s + init;
        assert(s + xs =~= t.push(x));
        if t.len() < SYSLOG_FIFO_MAX_SIZE {
            assert(fifo_pushed(latest(t), x) =~= latest(t.push(x)));
        } else {
            let k = t.len() - SYSLOG_FIFO_MAX_SIZE;
            assert(latest(t) =~= t.skip(k));
            assert(t.skip(k).drop_first().push(x) =~= t.push(x).skip(k + 1));
        }
    }
}

impl<T> Fifo<T> {
    /// The ring buffer is consistent: it has `SYSLOG_FIFO_MAX_SIZE` slots,
    /// the live window starts at `pop_ind`, has `len` slots and ends at
    /// `push_ind`, and a slot is filled exactly when it lies in the window.
    pub closed spec fn wf(&self) -> bool {
        &&& self.list@.len() == SYSLOG_FIFO_MAX_SIZE
        &&& self.push_ind < SYSLOG_FIFO_MAX_SIZE
        &&& self.pop_ind < SYSLOG_FIFO_MAX_SIZE
        &&& self.len <= SYSLOG_FIFO_MAX_SIZE
        &&& self.push_ind as int == ring_slot(self.pop_ind as int, self.len as int)
        &&& forall|i: int|
            0 <= i < SYSLOG_FIFO_MAX_SIZE ==> ((#[trigger] self.list@[ring_slot(
                self.pop_ind as int,
                i,
            )]) is Some <==> i < self.len)
    }

    /// A queue as it is made: both indices at the first slot, nothing
    /// queued, and every slot empty.
    pub closed spec fn is_fresh(&self) -> bool {
        &&& self.push_ind == 0
        &&& self.pop_ind == 0
        &&& self.len == 0
        &&& self.list@.len() == SYSLOG_FIFO_MAX_SIZE
        &&& forall|i: int| 0 <= i < SYSLOG_FIFO_MAX_SIZE ==> (#[trigger] self.list@[i]) is None
    }

    /// The queued values, oldest first.
    pub closed spec fn view(&self) -> Seq<T> {
        Seq::new(
            self.len as nat,
            |i: int| self.list@[ring_slot(self.pop_ind as int, i)]->Some_0,
        )
    }

    /// An empty queue.
    pub fn new() -> (fifo: Fifo<T>)
        ensures
            fifo.wf(),
            fifo.is_fresh(),
            fifo@ == Seq::<T>::empty(),
    {
        let mut list: Vec<Option<T>> = Vec::new();
        let mut n: usize = 0;
        while n < SYSLOG_FIFO_MAX_SIZE
            invariant
                n <= SYSLOG_FIFO_MAX_SIZE,
                list@.len() == n,
                forall|i: int| 0 <= i < n ==> (#[trigger] list@[i]) is None,
            decreases SYSLOG_FIFO_MAX_SIZE - n,
        {
            list.push(None);
            n = n + 1;
        }
        let fifo = Fifo { len: 0, push_ind: 0, pop_ind: 0, list };
        assert(fifo@ =~= Seq::<T>::empty());
        fifo
    }

    /// Number of queued values.
    pub fn len(&self) -> (n: usize)
        requires
            self.wf(),
        ensures
            n == self@.len(),
            n <= SYSLOG_FIFO_MAX_SIZE,
    {
        self.len
    }

    /// Appends `data`; when the queue is full, its oldest value is dropped.
    pub fn push(&mut self, data: T)
        requires
            old(self).wf(),
        ensures
            final(self).wf(),
            final(self)@ == fifo_pushed(old(self)@, data),
            final(self)@.len() <= SYSLOG_FIFO_MAX_SIZE,
    {
        let ghost old_view = self@;
        let ghost old_pop = self.pop_ind as int;
        let ghost old_len = self.len as int;
        if (self.len > 0) && (self.push_ind == self.pop_ind) {
            self.pop_ind = (self.pop_ind + 1) % SYSLOG_FIFO_MAX_SIZE;
        }
        let ghost new_pop = self.pop_ind as int;
        let ghost full = old_len == SYSLOG_FIFO_MAX_SIZE;
        assert(full <==> (old_len > 0 && self.push_ind as int == old_pop));
        self.list.set(self.push_ind, Some(data));
        self.push_ind = (self.push_ind + 1) % SYSLOG_FIFO_MAX_SIZE;
        self.len = if self.len + 1 < SYSLOG_FIFO_MAX_SIZE {
            self.len + 1
        } else {
            SYSLOG_FIFO_MAX_SIZE
        };
        assert forall|i: int| 0 <= i < self.len implies (#[trigger] self.list@[ring_slot(
            self.pop_ind as int,
            i,
        )]) is Some by {
            if full {
                if i < self.len - 1 {
                    assert(ring_slot(new_pop, i) == ring_slot(old_pop, i + 1));
                }
            } else {
                assert(new_pop == old_pop);
            }
        }
        proof {
            if full {
                assert forall|i: int| 0 <= i < self.len implies #[trigger] self@[i]
                    == old_view.drop_first().push(data)[i] by {
                    if i < self.len - 1 {
                        assert(ring_slot(new_pop, i) == ring_slot(old_pop, i + 1));
                    }
                }
                assert(self@ =~= old_view.drop_first().push(data));
            } else {
                assert(self@ =~= old_view.push(data));
            }
        }
    }

    /// Removes and returns the oldest value, or `None` when the queue is empty.
    pub fn pop(&mut self) -> (data: Option<T>)
        requires
            old(self).wf(),
        ensures
            final(self).wf(),
            old(self)@.len() == 0 ==> data is None && final(self)@ == old(self)@,
            old(self)@.len() > 0 ==> data == Some(old(self)@[0]) && final(self)@ == old(
                self,
            )@.drop_first(),
    {
        if self.len == 0 {
            return None;
        }
        let ghost old_view = self@;
        let ghost old_pop = self.pop_ind as int;
        let mut data: Option<T> = None;
        self.list.set_and_swap(self.pop_ind, &mut data);
        assert(ring_slot(old_pop, 0) == old_pop);
        self.pop_ind = (self.pop_ind + 1) % SYSLOG_FIFO_MAX_SIZE;
        self.len = self.len - 1;
        assert forall|i: int| 0 <= i < SYSLOG_FIFO_MAX_SIZE implies ((#[trigger] self.list@[ring_slot(
            self.pop_ind as int,
            i,
        )]) is Some <==> i < self.len) by {
            if i + 1 < SYSLOG_FIFO_MAX_SIZE {
                assert(ring_slot(self.pop_ind as int, i) == ring_slot(old_pop, i + 1));
                assert(ring_slot(old_pop, i + 1) != old_pop);
            } else {
                assert(ring_slot(self.pop_ind as int, i) == old_pop);
            }
        }
        assert forall|i: int| 0 <= i < self.len implies #[trigger] self@[i] == old_view.drop_first()[i] by {
            assert(ring_slot(self.pop_ind as int, i) == ring_slot(old_pop, i + 1));
        }
        assert(self@ =~= old_view.drop_first());
        data
    }

    /// Removes every queued value and returns them, oldest first.
    pub fn remove_all(&mut self) -> (data: Vec<T>)
        requires
            old(self).wf(),
        ensures
            final(self).wf(),
            data@ == old(self)@,
            data@.len() <= SYSLOG_FIFO_MAX_SIZE,
            final(self)@ == Seq::<T>::empty(),
    {
        let mut data: Vec<T> = Vec::new();
        let ghost start = self@;
        assert(start.len() <= SYSLOG_FIFO_MAX_SIZE);
        while self.len > 0
            invariant
                self.wf(),
                data@ + self@ == old(self)@,
            decreases self.len,
        {
            let ghost before = self@;
            match self.pop() {
                Some(got) => {
                    data.push(got);
                    assert(data@ + self@ =~= old(self)@) by {
                        assert(before =~= seq![got] + before.drop_first());
                    }
                },
                None => {},
            }
        }
        assert(self@ =~= Seq::<T>::empty());
        assert(data@ =~= old(self)@);
        data
    }
}

/// The event queues of the players, one bounded queue per player that has
/// received an event.
pub struct SyslogQueues<T> {
    fifos: BTreeMap<PlayerId, Fifo<T>>,
}

impl<T> SyslogQueues<T> {
    /// Every queue is consistent.
    pub closed spec fn wf(&self) -> bool {
        forall|id: PlayerId| #[trigger] self.fifos@.contains_key(id) ==> self.fifos@[id].wf()
    }

    /// The pending events of each player that has a queue, oldest first.
    pub closed spec fn view(&self) -> Map<PlayerId, Seq<T>> {
        Map::new(|id: PlayerId| self.fifos@.contains_key(id), |id: PlayerId| self.fifos@[id]@)
    }

    /// No queue at all.
    pub fn new() -> (q: SyslogQueues<T>)
        ensures
            q.wf(),
            q@ == Map::<PlayerId, Seq<T>>::empty(),
    {
        let q = SyslogQueues { fifos: BTreeMap::new() };
        assert(q@ =~= Map::<PlayerId, Seq<T>>::empty());
        q
    }

    /// Queues `evt` for player `id`, creating the player's queue if needed.
    pub fn add(&mut self, id: PlayerId, evt: T)
        requires
            old(self).wf(),
        ensures
            final(self).wf(),
            final(self)@ == old(self)@.insert(id, fifo_pushed(events_of(old(self)@, id), evt)),
    {
        broadcast use vstd::std_specs::btree::group_btree_axioms;
        assert(vstd::laws_cmp::obeys_cmp::<PlayerId>());
        let ghost before = self@;
        let mut fifo = match self.fifos.remove(&id) {
            Some(f) => f,
            None => Fifo::new(),
        };
        assert(fifo@ == events_of(before, id));
        fifo.push(evt);
        self.fifos.insert(id, fifo);
        assert(self@ =~= before.insert(id, fifo_pushed(events_of(before, id), evt)));
    }

    /// Removes and returns every pending event of player `id`, oldest first.
    pub fn remove_all(&mut self, id: PlayerId) -> (evts: Vec<T>)
        requires
            old(self).wf(),
        ensures
            final(self).wf(),
            evts@ == events_of(old(self)@, id),
            old(self)@.contains_key(id) ==> final(self)@ == old(self)@.insert(id, Seq::<T>::empty()),
            !old(self)@.contains_key(id) ==> final(self)@ == old(self)@,
    {
        broadcast use vstd::std_specs::btree::group_btree_axioms;
        assert(vstd::laws_cmp::obeys_cmp::<PlayerId>());
        let ghost before = self@;
        match self.fifos.remove(&id) {
            Some(mut fifo) => {
                let evts = fifo.remove_all();
                self.fifos.insert(id, fifo);
                assert(self@ =~= before.insert(id, Seq::<T>::empty()));
                evts
            },
            None => {
                assert(self@ =~= before);
                Vec::new()
            },
        }
    }
}

/// The pending events of player `id`: none when the player has no queue.
pub open spec fn events_of<T>(queues: Map<PlayerId, Seq<T>>, id: PlayerId) -> Seq<T> {
    if queues.contains_key(id) {
        queues[id]
    } else {
        Seq::empty()
    }
}

} // verus!
