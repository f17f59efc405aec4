//! What holds of every poll and of every run of polls: the framework is
//! offered exactly the events that the native window produced, each once and
//! in the order of their production, and a poll that finds nothing to offer
//! says so after a single fetch.
//!
//! A whole poll is two calls, [`GlutinWindow::poll_event`] and, if that asks
//! for a fetch, [`GlutinWindow::poll_refetched`]. The functions below say
//! what the two come to together, over the same sequences of unread events
//! that the contracts of those calls speak of.
//!
//! [`GlutinWindow::poll_event`]: crate::window::GlutinWindow::poll_event
//! [`GlutinWindow::poll_refetched`]: crate::window::GlutinWindow::poll_refetched
use crate::batch::{first_event, rest_events};
use crate::mapping::surfaced;
use crate::window::{state_of, step_of, PollState, PollStep};
use vstd::prelude::*;

verus! {

/// The native event that one whole poll obtains, with `unread` events
/// buffered when it starts and `fetched` the batch that the native window
/// returns if the poll has to fetch.
pub open spec fn poll_obtains<E>(unread: Seq<E>, fetched: Seq<E>) -> Option<E> {
    if unread.len() > 0 {
        first_event(unread)
    } else {
        first_event(fetched)
    }
}

/// The events that are buffered when that poll is over.
pub open spec fn poll_leaves<E>(unread: Seq<E>, fetched: Seq<E>) -> Seq<E> {
    if unread.len() > 0 {
        rest_events(unread)
    } else {
        rest_events(fetched)
    }
}

/// The events that the poll took over from the native window: the fetched
/// batch if it had to fetch, nothing otherwise.
pub open spec fn poll_fetches<E>(unread: Seq<E>, fetched: Seq<E>) -> Seq<E> {
    if unread.len() > 0 {
        Seq::empty()
    } else {
        fetched
    }
}

/// An obtained event as a sequence of one, no event as the empty sequence.
pub open spec fn as_events<E>(obtained: Option<E>) -> Seq<E> {
    match obtained {
        Some(event) => seq![event],
        None => Seq::empty(),
    }
}

/// The native events that a run of polls obtains, in the order of the polls.
///
/// The run starts with `unread` events buffered and has one poll for each
/// entry of `fetches`; the entry is the batch that the native window returns
/// if that poll has to fetch.
pub open spec fn run_obtains<E>(unread: Seq<E>, fetches: Seq<Seq<E>>) -> Seq<E>
    decreases fetches.len(),
{
    if fetches.len() == 0 {
        Seq::empty()
    } else {
        as_events(poll_obtains(unread, fetches[0])) + run_obtains(
            poll_leaves(unread, fetches[0]),
            fetches.drop_first(),
        )
    }
}

/// The events of all the batches that the run fetched, in the order of the
/// fetches.
pub open spec fn run_fetches<E>(unread: Seq<E>, fetches: Seq<Seq<E>>) -> Seq<E>
    decreases fetches.len(),
{
    if fetches.len() == 0 {
        Seq::empty()
    } else {
        poll_fetches(unread, fetches[0]) + run_fetches(
            poll_leaves(unread, fetches[0]),
            fetches.drop_first(),
        )
    }
}

/// The events that are buffered when the run is over.
pub open spec fn run_leaves<E>(unread: Seq<E>, fetches: Seq<Seq<E>>) -> Seq<E>
    decreases fetches.len(),
{
    if fetches.len() == 0 {
        unread
    } else {
        run_leaves(poll_leaves(unread, fetches[0]), fetches.drop_first())
    }
}

/// The two calls that make up a poll come to what `poll_obtains` and
/// `poll_leaves` say of the whole poll: an event that is buffered is consumed
/// without a fetch; with nothing buffered the poll asks for a fetch, changes
/// nothing until the batch arrives, and then consumes the first event of that
/// batch.
pub proof fn poll_in_two_steps<E>(unread: Seq<E>, fetched: Seq<E>)
    ensures
        unread.len() > 0 ==> step_of(unread) == PollStep::Done(
            surfaced(poll_obtains(unread, fetched)),
        ),
        unread.len() > 0 ==> rest_events(unread) == poll_leaves(unread, fetched),
        unread.len() == 0 ==> step_of(unread) == PollStep::Refetch,
        unread.len() == 0 ==> rest_events(unread) == unread,
        unread.len() == 0 ==> surfaced(first_event(fetched)) == surfaced(
            poll_obtains(unread, fetched),
        ),
        unread.len() == 0 ==> rest_events(fetched) == poll_leaves(unread, fetched),
{
}

/// The poll loop has two states, and the state decides what a poll does: with
/// an event buffered the poll consumes it and is done, and the loop is
/// drained afterwards exactly if that event was the last of its batch; a
/// drained loop asks for a fetch and stays drained until the batch arrives.
pub proof fn state_decides_step<E>(unread: Seq<E>)
    ensures
        state_of(unread) == PollState::HasBuffered <==> step_of(unread) is Done,
        state_of(unread) == PollState::Drained <==> step_of(unread) == PollStep::Refetch,
        state_of(unread) == PollState::HasBuffered ==> (state_of(rest_events(unread))
            == PollState::Drained <==> unread.len() == 1),
        state_of(unread) == PollState::Drained ==> state_of(rest_events(unread))
            == PollState::Drained,
{
}

/// A poll that finds fewer than one event buffered and whose fetch returns an
/// empty batch ends with no event after that one fetch, and leaves the
/// adapter drained: it neither waits for an event nor fetches again.
pub proof fn exhausted_poll_reports_nothing<E>(unread: Seq<E>, fetched: Seq<E>)
    requires
        unread.len() < 1,
        fetched.len() == 0,
    ensures
        step_of(unread) == PollStep::Refetch,
        poll_obtains(unread, fetched) is None,
        surfaced(first_event(fetched)) is None,
        state_of(poll_leaves(unread, fetched)) == PollState::Drained,
{
}

/// A poll obtains an event whenever there is one to obtain, the oldest
/// buffered one before any fetched one; it comes back empty-handed only when
/// nothing is buffered and the fetched batch is empty.
pub proof fn poll_obtains_what_there_is<E>(unread: Seq<E>, fetched: Seq<E>)
    ensures
        poll_obtains(unread, fetched) is None <==> unread.len() == 0 && fetched.len() == 0,
        unread.len() > 0 ==> poll_obtains(unread, fetched) == Some(unread[0]),
        unread.len() == 0 && fetched.len() > 0 ==> poll_obtains(unread, fetched) == Some(
            fetched[0],
        ),
{
}

/// One poll neither loses nor invents an event: what was buffered, followed
/// by what the poll fetched, is the event it obtained followed by what is
/// buffered afterwards.
pub proof fn poll_conserves_events<E>(unread: Seq<E>, fetched: Seq<E>)
    ensures
        unread + poll_fetches(unread, fetched) == as_events(poll_obtains(unread, fetched))
            + poll_leaves(unread, fetched),
{
    assert(unread + poll_fetches(unread, fetched) =~= as_events(poll_obtains(unread, fetched))
        + poll_leaves(unread, fetched));
}

/// Over any run of polls, the events buffered at the start followed by the
/// events of every fetched batch are exactly the events obtained followed by
/// the events still buffered: each native event is obtained once, in the
/// order in which the native window produced it, or is still waiting.
pub proof fn run_conserves_events<E>(unread: Seq<E>, fetches: Seq<Seq<E>>)
    ensures
        unread + run_fetches(unread, fetches) == run_obtains(unread, fetches) + run_leaves(
            unread,
            fetches,
        ),
    decreases fetches.len(),
{
    if fetches.len() == 0 {
        assert(unread + Seq::<E>::empty() =~= Seq::<E>::empty() + unread);
    } else {
        let fetched = fetches[0];
        let now = as_events(poll_obtains(unread, fetched));
        let next = poll_leaves(unread, fetched);
        let later = fetches.drop_first();
        poll_conserves_events(unread, fetched);
        run_conserves_events(next, later);
        assert(unread + (poll_fetches(unread, fetched) + run_fetches(next, later)) =~= (now + next)
            + run_fetches(next, later));
        assert((now + next) + run_fetches(next, later) =~= now + (next + run_fetches(next, later)));
        assert(now + (run_obtains(next, later) + run_leaves(next, later)) =~= (now + run_obtains(
            next,
            later,
        )) + run_leaves(next, later));
    }
}

/// The count that follows: the polls of a run obtain as many events as were
/// buffered at the start and fetched since, less those still buffered. A run
/// that ends drained has obtained every event that the native window
/// produced, none skipped and none twice.
pub proof fn run_counts_events<E>(unread: Seq<E>, fetches: Seq<Seq<E>>)
    ensures
        run_obtains(unread, fetches).len() + run_leaves(unread, fetches).len() == unread.len()
            + run_fetches(unread, fetches).len(),
        run_leaves(unread, fetches).len() == 0 ==> run_obtains(unread, fetches).len()
            == unread.len() + run_fetches(unread, fetches).len(),
{
    run_conserves_events(unread, fetches);
    assert((unread + run_fetches(unread, fetches)).len() == unread.len() + run_fetches(
        unread,
        fetches,
    ).len());
    assert((run_obtains(unread, fetches) + run_leaves(unread, fetches)).len() == run_obtains(
        unread,
        fetches,
    ).len() + run_leaves(unread, fetches).len());
}

} // verus!
