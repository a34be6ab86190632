use std::collections::VecDeque;
use std::sync::Arc;
use vstd::prelude::*;
use vstd::rwlock::{RwLock, RwLockPredicate};

verus! {

broadcast use vstd::std_specs::vecdeque::group_vec_dequeue_axioms;

/// Events in order of arrival, owned by one thread at a time.
pub struct EventBuffer<T> {
    events: VecDeque<T>,
}

impl<T> View for EventBuffer<T> {
    type V = Seq<T>;

    /// The pending events, oldest first.
    closed spec fn view(&self) -> Seq<T> {
        self.events@
    }
}

impl<T: Copy> EventBuffer<T> {
    pub fn new() -> (r: EventBuffer<T>)
        ensures
            r@ == Seq::<T>::empty(),
    {
        EventBuffer { events: VecDeque::new() }
    }

    /// Appends `event` and returns how many events are now pending.
    pub fn push(&mut self, event: T) -> (r: usize)
        ensures
            final(self)@ == old(self)@.push(event),
            r == final(self)@.len(),
    {
        self.events.push_back(event);
        self.events.len()
    }

    /// Hands out every pending event, oldest first, and leaves none.
    pub fn drain_all(&mut self) -> (r: Vec<T>)
        ensures
            r@ == old(self)@,
            final(self)@ == Seq::<T>::empty(),
    {
        let mut out: Vec<T> = Vec::new();
        while self.events.len() > 0
            invariant
                out@ + self.events@ == old(self)@,
            decreases self.events@.len(),
        {
            let ghost before = self.events@;
            match self.events.pop_front() {
                Some(e) => {
                    out.push(e);
                    assert(out@ + self.events@ =~= old(self)@) by {
                        assert(before =~= seq![e] + self.events@);
                    }
                },
                None => {},
            }
        }
        assert(out@ =~= old(self)@);
        out
    }

    /// The newest pending event, if any; every pending event is dropped.
    pub fn take_latest(&mut self) -> (r: Option<T>)
        ensures
            r == (if old(self)@.len() == 0 {
                None
            } else {
                Some(old(self)@.last())
            }),
            final(self)@ == Seq::<T>::empty(),
    {
        let el = self.events.pop_back();
        self.events.clear();
        el
    }
}

/// The lock around a buffer of events accepts any buffer.
pub struct AnyBuffer;

impl<T> RwLockPredicate<EventBuffer<T>> for AnyBuffer {
    open spec fn inv(self, v: EventBuffer<T>) -> bool {
        true
    }
}

/// A mailbox of events shared between threads: clones share one buffer,
/// behind a lock. One thread adds events as they come; another drains them
/// once per tick.
#[derive(Clone)]
pub struct KeyEventQueue<T: Send + Copy> {
    inner: Arc<RwLock<EventBuffer<T>, AnyBuffer>>,
}

impl<T: Send + Copy> KeyEventQueue<T> {
    pub fn new() -> Self {
        KeyEventQueue { inner: Arc::new(RwLock::new(EventBuffer::new(), Ghost(AnyBuffer))) }
    }

    /// The newest event added since the last drain, if any; the older ones
    /// are dropped with it.
    pub fn get_latest_event(&self) -> Option<T> {
        let (mut buffer, handle) = self.inner.acquire_write();
        let el = buffer.take_latest();
        handle.release_write(buffer);
        el
    }

    /// Every event added since the last drain, oldest first. Another thread
    /// may add events at any moment, so what comes out is known only to the
    /// one that added it; events added during the drain wait for the next.
    pub fn get_all_events(&self) -> (r: Option<Vec<T>>)
        ensures
            r is Some,
    {
        let (mut buffer, handle) = self.inner.acquire_write();
        let drained = buffer.drain_all();
        handle.release_write(buffer);
        Some(drained)
    }

    /// Adds `event` behind the pending ones and returns how many are now
    /// pending.
    pub fn add_event(&self, event: T) -> (r: usize)
        ensures
            r >= 1,
    {
        let (mut buffer, handle) = self.inner.acquire_write();
        let n = buffer.push(event);
        handle.release_write(buffer);
        n
    }
}

} // verus!
