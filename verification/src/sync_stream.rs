//! The synchronizing stream: the decisions that turn what a device's event
//! source delivers, dropped events and all, into a sequence of batches that
//! keeps the cached state right.
//!
//! The stream does no reading itself. Its owner pulls the event source and
//! hands each item to [`SyncStream::pull`]; when the stream asks for the
//! device's state, the owner queries it and hands the answer to
//! [`SyncStream::resync`]. Each call returns what to do next.

use vstd::prelude::*;
use crate::cache_view::CacheView;
use crate::capability::{Capabilities, CapsView};
use crate::device_state::DeviceStateCache;
use crate::diff::diff_events;
use crate::event::InputEvent;

verus! {

/// Why a stream came to an end that was not the source's.
#[derive(Copy, Clone, Debug, PartialEq, Eq, Structural)]
pub enum StreamError {
    /// The device handle is no longer valid: the device was unplugged.
    DeviceGone,
    /// Reading the event source failed.
    ReadFailure,
    /// The device's state could not be queried during resynchronization.
    QueryFailure,
}

/// Where a stream stands.
#[derive(Copy, Clone, Debug, PartialEq, Eq, Structural)]
pub enum StreamState {
    /// Batches are applied to the cache and passed on.
    Normal,
    /// Events were dropped: the cache is stale until the state that the
    /// stream has asked for arrives.
    Resyncing,
    /// The stream has ended, and stays so.
    Closed,
}

/// What one pull of the event source delivers.
#[derive(Debug, PartialEq, Eq)]
pub enum SourceItem {
    /// The events of one batch, in the order in which they came.
    Batch(Vec<InputEvent>),
    /// The kernel's buffer overflowed: events were dropped.
    Overflow,
    /// Nothing is there yet. This is no error.
    WouldBlock,
    /// The source is exhausted or was closed.
    Closed,
    /// The read failed.
    ReadFailed,
    /// The device is gone.
    DeviceGone,
}

/// The mathematical content of a [`SourceItem`].
pub enum SourceView {
    Batch(Seq<InputEvent>),
    Overflow,
    WouldBlock,
    Closed,
    ReadFailed,
    DeviceGone,
}

impl View for SourceItem {
    type V = SourceView;

    open spec fn view(&self) -> SourceView {
        match *self {
            SourceItem::Batch(events) => SourceView::Batch(events@),
            SourceItem::Overflow => SourceView::Overflow,
            SourceItem::WouldBlock => SourceView::WouldBlock,
            SourceItem::Closed => SourceView::Closed,
            SourceItem::ReadFailed => SourceView::ReadFailed,
            SourceItem::DeviceGone => SourceView::DeviceGone,
        }
    }
}

/// The answer to a query of the device's current state.
#[derive(Debug, PartialEq, Eq)]
pub enum QueryAnswer {
    /// The state of the device at the time of the query.
    Snapshot(DeviceStateCache),
    /// The query failed.
    Failed,
}

/// The mathematical content of a [`QueryAnswer`].
pub enum AnswerView {
    Snapshot(CacheView),
    Failed,
}

impl View for QueryAnswer {
    type V = AnswerView;

    open spec fn view(&self) -> AnswerView {
        match *self {
            QueryAnswer::Snapshot(state) => AnswerView::Snapshot(state@),
            QueryAnswer::Failed => AnswerView::Failed,
        }
    }
}

impl AnswerView {
    /// A snapshot is a state that a cache can hold.
    pub open spec fn wf(self) -> bool {
        self matches AnswerView::Snapshot(state) ==> state.wf()
    }
}

/// What the owner of a stream is to do next.
#[derive(Debug, PartialEq, Eq)]
pub enum Action {
    /// Give this batch to the consumer, then pull the source.
    Emit(Vec<InputEvent>),
    /// There is nothing for the consumer: pull the source, now or when it
    /// has data.
    Pull,
    /// Query the device's current state and hand the answer to the stream.
    Query,
    /// The stream has ended.
    End,
    /// The stream has failed and ended.
    Fail(StreamError),
}

/// The mathematical content of an [`Action`].
pub enum ActionView {
    Emit(Seq<InputEvent>),
    Pull,
    Query,
    End,
    Fail(StreamError),
}

impl View for Action {
    type V = ActionView;

    open spec fn view(&self) -> ActionView {
        match *self {
            Action::Emit(events) => ActionView::Emit(events@),
            Action::Pull => ActionView::Pull,
            Action::Query => ActionView::Query,
            Action::End => ActionView::End,
            Action::Fail(e) => ActionView::Fail(e),
        }
    }
}

/// The mathematical content of a [`SyncStream`].
pub struct StreamView {
    pub cache: CacheView,
    pub caps: CapsView,
    pub state: StreamState,
}

impl StreamView {
    /// The cache holds a state, and the capabilities describe a device.
    pub open spec fn wf(self) -> bool {
        self.cache.wf() && self.caps.wf()
    }

    /// The stream with another state, the cache untouched.
    pub open spec fn in_state(self, state: StreamState) -> StreamView {
        StreamView { state, ..self }
    }

    /// The stream after an item of the event source, and what its owner is
    /// to do next.
    ///
    /// A closed stream stays closed. Otherwise the end of the source closes
    /// the stream, and a failed read or a vanished device fails it. An
    /// overflow makes the stream ask for the device's state. Until that
    /// arrives the cache is stale, so a batch is applied and passed on only
    /// in normal operation: while the stream waits for the state, it drops
    /// whatever else the source delivers and asks again.
    pub open spec fn after_source(self, item: SourceView) -> (StreamView, ActionView) {
        if self.state == StreamState::Closed {
            (self, ActionView::End)
        } else {
            match item {
                SourceView::Closed => (self.in_state(StreamState::Closed), ActionView::End),
                SourceView::ReadFailed => (
                    self.in_state(StreamState::Closed),
                    ActionView::Fail(StreamError::ReadFailure),
                ),
                SourceView::DeviceGone => (
                    self.in_state(StreamState::Closed),
                    ActionView::Fail(StreamError::DeviceGone),
                ),
                SourceView::Overflow => (self.in_state(StreamState::Resyncing), ActionView::Query),
                SourceView::WouldBlock => if self.state == StreamState::Normal {
                    (self, ActionView::Pull)
                } else {
                    (self, ActionView::Query)
                },
                SourceView::Batch(events) => if self.state == StreamState::Normal {
                    (
                        StreamView { cache: self.cache.apply_all(events), ..self },
                        ActionView::Emit(events),
                    )
                } else {
                    (self, ActionView::Query)
                },
            }
        }
    }

    /// The stream after the answer to a state query, and what its owner is
    /// to do next.
    ///
    /// A closed stream stays closed. A failed query fails the stream: the
    /// device can no longer be trusted. A snapshot replaces the cache as a
    /// whole, the consumer gets the corrective batch from the old state to
    /// the snapshot in place of what was lost, and the stream is back in
    /// normal operation.
    pub open spec fn after_answer(self, answer: AnswerView) -> (StreamView, ActionView) {
        if self.state == StreamState::Closed {
            (self, ActionView::End)
        } else {
            match answer {
                AnswerView::Failed => (
                    self.in_state(StreamState::Closed),
                    ActionView::Fail(StreamError::QueryFailure),
                ),
                AnswerView::Snapshot(state) => (
                    StreamView { cache: state, state: StreamState::Normal, ..self },
                    ActionView::Emit(diff_events(self.cache, state, self.caps)),
                ),
            }
        }
    }
}

/// A stream of batches over one open device, with the mirror of the device's
/// state that it keeps.
pub struct SyncStream {
    cache: DeviceStateCache,
    caps: Capabilities,
    state: StreamState,
}

impl View for SyncStream {
    type V = StreamView;

    closed spec fn view(&self) -> StreamView {
        StreamView { cache: self.cache@, caps: self.caps@, state: self.state }
    }
}

impl SyncStream {
    /// Opens a stream on a device of the given capabilities whose state was
    /// just queried. It starts in normal operation.
    pub fn new(caps: Capabilities, initial: DeviceStateCache) -> (stream: Self)
        requires
            caps@.wf(),
            initial@.wf(),
        ensures
            stream@ == (StreamView { cache: initial@, caps: caps@, state: StreamState::Normal }),
            stream@.wf(),
    {
        SyncStream { cache: initial, caps, state: StreamState::Normal }
    }

    /// Where the stream stands.
    pub fn state(&self) -> (state: StreamState)
        ensures
            state == self@.state,
    {
        self.state
    }

    /// The mirror of the device's state, for reading.
    pub fn cache(&self) -> (cache: &DeviceStateCache)
        ensures
            cache@ == self@.cache,
    {
        &self.cache
    }

    /// The capabilities of the device.
    pub fn capabilities(&self) -> (caps: &Capabilities)
        ensures
            caps@ == self@.caps,
    {
        &self.caps
    }

    /// Closes the stream. Nothing is read or emitted after that.
    pub fn close(&mut self)
        ensures
            final(self)@ == old(self)@.in_state(StreamState::Closed),
    {
        self.state = StreamState::Closed;
    }

    /// Takes an item that the event source delivered and says what to do
    /// next.
    pub fn pull(&mut self, item: SourceItem) -> (action: Action)
        requires
            old(self)@.wf(),
        ensures
            (final(self)@, action@) == old(self)@.after_source(item@),
            final(self)@.wf(),
    {
        if self.state == StreamState::Closed {
            return Action::End;
        }
        match item {
            SourceItem::Closed => {
                self.state = StreamState::Closed;
                Action::End
            },
            SourceItem::ReadFailed => {
                self.state = StreamState::Closed;
                Action::Fail(StreamError::ReadFailure)
            },
            SourceItem::DeviceGone => {
                self.state = StreamState::Closed;
                Action::Fail(StreamError::DeviceGone)
            },
            SourceItem::Overflow => {
                self.state = StreamState::Resyncing;
                Action::Query
            },
            SourceItem::WouldBlock => {
                if self.state == StreamState::Normal {
                    Action::Pull
                } else {
                    Action::Query
                }
            },
            SourceItem::Batch(events) => {
                if self.state == StreamState::Normal {
                    self.cache.apply_all(&events);
                    Action::Emit(events)
                } else {
                    Action::Query
                }
            },
        }
    }

    /// Takes the answer to a state query and says what to do next.
    pub fn resync(&mut self, answer: QueryAnswer) -> (action: Action)
        requires
            old(self)@.wf(),
            answer@.wf(),
        ensures
            (final(self)@, action@) == old(self)@.after_answer(answer@),
            final(self)@.wf(),
    {
        if self.state == StreamState::Closed {
            return Action::End;
        }
        match answer {
            QueryAnswer::Failed => {
                self.state = StreamState::Closed;
                Action::Fail(StreamError::QueryFailure)
            },
            QueryAnswer::Snapshot(state) => {
                let events = DeviceStateCache::diff(&self.cache, &state, &self.caps);
                self.cache = state;
                self.state = StreamState::Normal;
                Action::Emit(events)
            },
        }
    }
}

} // verus!
