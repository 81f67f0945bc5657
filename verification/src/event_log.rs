//! The bounded log of recent platform events: it keeps the newest events up
//! to a fixed capacity and serves them newest first.

use vstd::prelude::*;

verus! {

/// How many events the log keeps.
pub const MAX_RECENT_EVENTS: usize = 64;

/// The newest `MAX_RECENT_EVENTS` events of a history, oldest first.
pub open spec fn newest<E>(history: Seq<E>) -> Seq<E> {
    if history.len() > MAX_RECENT_EVENTS {
        history.skip(history.len() - MAX_RECENT_EVENTS)
    } else {
        history
    }
}

/// The first `limit` events of a log read newest first.
pub open spec fn newest_first<E>(events: Seq<E>, limit: nat) -> Seq<E> {
    let n = if limit < events.len() { limit } else { events.len() };
    Seq::new(n, |i: int| events[events.len() - 1 - i])
}

/// The recent events, oldest first, at most `MAX_RECENT_EVENTS` of them.
pub struct RecentEventLog<E> {
    events: Vec<E>,
}

impl<E> RecentEventLog<E> {
    #[verifier::type_invariant]
    spec fn bounded(&self) -> bool {
        self.events@.len() <= MAX_RECENT_EVENTS
    }

    /// The events kept, oldest first.
    pub closed spec fn events(&self) -> Seq<E> {
        self.events@
    }

    /// An empty log.
    pub fn new() -> (l: RecentEventLog<E>)
        ensures
            l.events() == Seq::<E>::empty(),
    {
        RecentEventLog { events: Vec::new() }
    }

    /// Appends an event, dropping the oldest one when the log is full.
    pub fn push(&mut self, event: E)
        ensures
            final(self).events() == newest(old(self).events().push(event)),
            final(self).events().len() <= MAX_RECENT_EVENTS,
    {
        proof {
            use_type_invariant(&*self);
        }
        let ghost history = self.events@.push(event);
        let mut events: Vec<E> = Vec::new();
        std::mem::swap(&mut events, &mut self.events);
        events.push(event);
        if events.len() > MAX_RECENT_EVENTS {
            events.remove(0);
            assert(events@ =~= history.skip(history.len() - MAX_RECENT_EVENTS));
        }
        self.events = events;
    }

    /// How many events the log keeps.
    pub fn len(&self) -> (n: usize)
        ensures
            n == self.events().len(),
            n <= MAX_RECENT_EVENTS,
    {
        proof {
            use_type_invariant(self);
        }
        self.events.len()
    }

    /// Up to `limit` events, newest first.
    pub fn recent(&self, limit: usize) -> (r: Vec<&E>)
        ensures
            r@.len() == newest_first(self.events(), limit as nat).len(),
            forall|i: int| 0 <= i < r@.len() ==> *r@[i] == newest_first(self.events(), limit as nat)[i],
    {
        let n = self.events.len();
        let mut r: Vec<&E> = Vec::new();
        let mut i: usize = 0;
        while i < n && i < limit
            invariant
                n == self.events@.len(),
                i <= n,
                i <= limit,
                r@.len() == i,
                forall|j: int| 0 <= j < i ==> *r@[j] == self.events@[n - 1 - j],
            decreases n - i,
        {
            r.push(&self.events[n - 1 - i]);
            i = i + 1;
        }
        assert(newest_first(self.events(), limit as nat).len() == i);
        r
    }
}

/// Whatever was pushed, a log never holds more than `MAX_RECENT_EVENTS`
/// events, and it holds exactly the newest of everything pushed: pushing
/// the events of `more` one by one onto a log of `before` leaves the newest
/// events of `before + more`.
pub proof fn law_log_keeps_newest<E>(before: Seq<E>, more: Seq<E>)
    requires
        before.len() <= MAX_RECENT_EVENTS,
    ensures
        pushes(before, more) == newest(before + more),
        pushes(before, more).len() <= MAX_RECENT_EVENTS,
    decreases more.len(),
{
    if more.len() > 0 {
        let init = more.drop_last();
        law_log_keeps_newest(before, init);
        let mid = before + init;
        assert(before + more =~= mid.push(more.last()));
        if mid.len() > MAX_RECENT_EVENTS {
            assert(newest(mid).push(more.last()).skip(1) =~= newest(mid.push(more.last())));
        } else if mid.len() == MAX_RECENT_EVENTS {
            assert(mid.push(more.last()).skip(1) =~= newest(mid.push(more.last())));
        }
    }
}

/// The events a log holds after pushing each of `more` onto `before`.
pub open spec fn pushes<E>(before: Seq<E>, more: Seq<E>) -> Seq<E>
    decreases more.len(),
{
    if more.len() == 0 {
        before
    } else {
        newest(pushes(before, more.drop_last()).push(more.last()))
    }
}

} // verus!
