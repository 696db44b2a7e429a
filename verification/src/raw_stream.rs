//! The raw stream: what the event source delivers, passed on as it comes.
//!
//! Nothing is cached and nothing is made up. A report of dropped events
//! reaches the consumer as an item of its own, to do with as it sees fit.

use vstd::prelude::*;
use crate::event::InputEvent;
use crate::sync_stream::{SourceItem, SourceView, StreamError};

verus! {

/// What a raw stream gives its consumer.
#[derive(Debug, PartialEq, Eq)]
pub enum RawItem {
    /// The events of one batch, as they came.
    Batch(Vec<InputEvent>),
    /// Events were dropped here.
    Overflow,
    /// Nothing is there yet.
    Pending,
    /// The stream has ended.
    End,
    /// The stream has failed and ended.
    Fail(StreamError),
}

/// The mathematical content of a [`RawItem`].
pub enum RawItemView {
    Batch(Seq<InputEvent>),
    Overflow,
    Pending,
    End,
    Fail(StreamError),
}

impl View for RawItem {
    type V = RawItemView;

    open spec fn view(&self) -> RawItemView {
        match *self {
            RawItem::Batch(events) => RawItemView::Batch(events@),
            RawItem::Overflow => RawItemView::Overflow,
            RawItem::Pending => RawItemView::Pending,
            RawItem::End => RawItemView::End,
            RawItem::Fail(e) => RawItemView::Fail(e),
        }
    }
}

/// Whether a raw stream is still open after an item of the source, and what
/// it gives its consumer for it. A closed stream stays closed and gives
/// nothing more. An open one passes batches, overflows and waits on as they
/// are; the end of the source and every failure close it.
pub open spec fn passed_on(open: bool, item: SourceView) -> (bool, RawItemView) {
    if !open {
        (false, RawItemView::End)
    } else {
        match item {
            SourceView::Batch(events) => (true, RawItemView::Batch(events)),
            SourceView::Overflow => (true, RawItemView::Overflow),
            SourceView::WouldBlock => (true, RawItemView::Pending),
            SourceView::Closed => (false, RawItemView::End),
            SourceView::ReadFailed => (false, RawItemView::Fail(StreamError::ReadFailure)),
            SourceView::DeviceGone => (false, RawItemView::Fail(StreamError::DeviceGone)),
        }
    }
}

/// A stream that is either open or closed, and nothing else.
pub struct RawStream {
    open: bool,
}

impl RawStream {
    /// Whether the stream is open.
    pub closed spec fn is_open(&self) -> bool {
        self.open
    }

    /// An open stream.
    pub fn new() -> (stream: Self)
        ensures
            stream.is_open(),
    {
        RawStream { open: true }
    }

    /// Whether the stream is still open.
    pub fn open(&self) -> (open: bool)
        ensures
            open == self.is_open(),
    {
        self.open
    }

    /// Closes the stream.
    pub fn close(&mut self)
        ensures
            !final(self).is_open(),
    {
        self.open = false;
    }

    /// Takes an item that the event source delivered and gives what the
    /// consumer gets for it.
    pub fn pull(&mut self, item: SourceItem) -> (given: RawItem)
        ensures
            (final(self).is_open(), given@) == passed_on(old(self).is_open(), item@),
    {
        if !self.open {
            return RawItem::End;
        }
        match item {
            SourceItem::Batch(events) => RawItem::Batch(events),
            SourceItem::Overflow => RawItem::Overflow,
            SourceItem::WouldBlock => RawItem::Pending,
            SourceItem::Closed => {
                self.open = false;
                RawItem::End
            },
            SourceItem::ReadFailed => {
                self.open = false;
                RawItem::Fail(StreamError::ReadFailure)
            },
            SourceItem::DeviceGone => {
                self.open = false;
                RawItem::Fail(StreamError::DeviceGone)
            },
        }
    }
}

} // verus!
