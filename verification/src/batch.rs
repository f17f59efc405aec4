//! A batch of events fetched from the native window in one go, read through a
//! cursor.
use vstd::prelude::*;

verus! {

/// The event a queue of unread events hands out next: its first, if it has one.
pub open spec fn first_event<E>(unread: Seq<E>) -> Option<E> {
    if unread.len() > 0 {
        Some(unread[0])
    } else {
        None
    }
}

/// The unread events that are left once the first has been handed out.
/// Nothing changes when there was none to hand out.
pub open spec fn rest_events<E>(unread: Seq<E>) -> Seq<E> {
    if unread.len() > 0 {
        unread.drop_first()
    } else {
        unread
    }
}

/// One batch of native events and the position of the next unread one.
///
/// The events keep the order in which the native window produced them. The
/// cursor only moves forward, so every event is handed out at most once.
pub struct EventBatch<E> {
    events: Vec<E>,
    cursor: usize,
}

impl<E> View for EventBatch<E> {
    type V = Seq<E>;

    /// The events that have not been handed out yet, oldest first.
    closed spec fn view(&self) -> Seq<E> {
        self.events@.subrange(self.cursor as int, self.events@.len() as int)
    }
}

impl<E> EventBatch<E> {
    #[verifier::type_invariant]
    spec fn cursor_in_batch(&self) -> bool {
        self.cursor <= self.events@.len()
    }

    /// Wraps a freshly fetched batch; all of it is unread.
    pub fn new(events: Vec<E>) -> (batch: Self)
        ensures
            batch@ == events@,
    {
        let batch = EventBatch { events, cursor: 0 };
        assert(batch@ =~= events@);
        batch
    }

    /// The number of events that have not been handed out yet.
    pub fn unread(&self) -> (n: usize)
        ensures
            n == self@.len(),
    {
        proof {
            use_type_invariant(self);
        }
        self.events.len() - self.cursor
    }

    /// Whether every event of the batch has been handed out.
    pub fn is_drained(&self) -> (drained: bool)
        ensures
            drained == (self@.len() == 0),
    {
        proof {
            use_type_invariant(self);
        }
        self.cursor >= self.events.len()
    }
}

impl<E: Copy> EventBatch<E> {
    /// Hands out the next unread event, or `None` once the batch is drained.
    pub fn next(&mut self) -> (event: Option<E>)
        ensures
            event == first_event(old(self)@),
            final(self)@ == rest_events(old(self)@),
    {
        proof {
            use_type_invariant(&*self);
        }
        if self.cursor < self.events.len() {
            let event = self.events[self.cursor];
            self.cursor = self.cursor + 1;
            assert(self@ =~= old(self)@.drop_first());
            Some(event)
        } else {
            None
        }
    }
}

} // verus!
