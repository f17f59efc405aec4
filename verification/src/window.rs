//! The adapter between a native window and a framework that polls it.
use crate::batch::{first_event, rest_events, EventBatch};
use crate::mapping::{map_input_event, surfaced};
use input::Input;
use vstd::prelude::*;

verus! {

/// Where the poll loop stands between two polls.
#[derive(Clone, Copy, Debug, PartialEq, Eq, Structural)]
pub enum PollState {
    /// The current batch holds at least one unread event.
    HasBuffered,
    /// The current batch is exhausted; the next poll has to fetch a new one.
    Drained,
}

/// What a poll came to with the events that were already buffered.
#[derive(Debug, PartialEq)]
pub enum PollStep {
    /// An event was buffered. It has been consumed, and this is what the
    /// framework gets for it.
    Done(Option<Input>),
    /// Nothing was buffered. The caller fetches a fresh batch from the native
    /// window and finishes the poll with [`GlutinWindow::poll_refetched`].
    Refetch,
}

/// The state of the poll loop with `unread` events left in the batch.
pub open spec fn state_of<E>(unread: Seq<E>) -> PollState {
    if unread.len() > 0 {
        PollState::HasBuffered
    } else {
        PollState::Drained
    }
}

/// What a poll comes to when `unread` events are buffered.
pub open spec fn step_of<E>(unread: Seq<E>) -> PollStep {
    match first_event(unread) {
        Some(event) => PollStep::Done(surfaced(Some(event))),
        None => PollStep::Refetch,
    }
}

/// The inner size that the native window reported, as width and height.
pub open spec fn size_as_reported(report: (u32, u32)) -> Seq<u32> {
    seq![report.0, report.1]
}

/// The window back-end's own state: the batch of native events that were
/// fetched from the window and have not been handed to the framework yet.
pub struct GlutinWindow<E> {
    events: EventBatch<E>,
}

impl<E> View for GlutinWindow<E> {
    type V = Seq<E>;

    /// The buffered events that no poll has consumed yet, oldest first.
    closed spec fn view(&self) -> Seq<E> {
        self.events@
    }
}

impl<E> GlutinWindow<E> {
    /// Creates a new `GlutinWindow` around the batch that the caller fetched
    /// from the native window on wrapping it.
    pub fn new(events: Vec<E>) -> (window: Self)
        ensures
            window@ == events@,
    {
        GlutinWindow { events: EventBatch::new(events) }
    }

    /// The number of buffered events that no poll has consumed yet.
    pub fn unread(&self) -> (n: usize)
        ensures
            n == self@.len(),
    {
        self.events.unread()
    }

    /// Where the poll loop stands.
    pub fn state(&self) -> (state: PollState)
        ensures
            state == state_of(self@),
    {
        if self.events.is_drained() {
            PollState::Drained
        } else {
            PollState::HasBuffered
        }
    }
}

impl<E: Copy> GlutinWindow<E> {
    /// Polls the buffered events.
    ///
    /// If one is buffered, it is consumed and mapped, and the poll is done.
    /// Otherwise nothing changes and the caller is asked to fetch a fresh
    /// batch.
    pub fn poll_event(&mut self) -> (step: PollStep)
        ensures
            step == step_of(old(self)@),
            final(self)@ == rest_events(old(self)@),
    {
        match self.events.next() {
            Some(event) => PollStep::Done(map_input_event(event)),
            None => PollStep::Refetch,
        }
    }

    /// Finishes a poll that found nothing buffered, with the batch that the
    /// native window returned to the fetch.
    ///
    /// The fresh batch replaces the exhausted one, and its first event, if it
    /// has one, is consumed and mapped. An empty batch ends the poll with no
    /// event; there is no second fetch.
    ///
    /// A batch is replaced only once it is fully drained, so that no buffered
    /// event is ever dropped or overtaken: the call is for a drained adapter.
    pub fn poll_refetched(&mut self, batch: Vec<E>) -> (event: Option<Input>)
        requires
            state_of(old(self)@) == PollState::Drained,
        ensures
            event == surfaced(first_event(batch@)),
            final(self)@ == rest_events(batch@),
    {
        self.events = EventBatch::new(batch);
        match self.events.next() {
            Some(event) => map_input_event(event),
            None => None,
        }
    }
}

/// Turns the native window's answer to a size query into the size that the
/// framework is given: width, then height, in physical pixels, exactly as
/// reported.
///
/// A window that cannot report its size is outside what the adapter
/// supports; a caller that gets no report has nothing to pass on.
pub fn inner_size(report: Option<(u32, u32)>) -> (size: [u32; 2])
    requires
        report is Some,
    ensures
        size@ == size_as_reported(report->0),
{
    let (width, height) = report.unwrap();
    [width, height]
}

} // verus!
