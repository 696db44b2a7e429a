//! Framing: from the events of a device, one by one as they are read, to the
//! items of an event source.
//!
//! A synchronization report closes a batch. When the kernel has dropped
//! events it says so with a synchronization event of its own, and nothing up
//! to and including the next report can be trusted: the batch under way is
//! discarded, and that report closes an overflow in place of a batch.

use vstd::prelude::*;
use crate::codes::{SYN_DROPPED, SYN_REPORT};
use crate::event::InputEvent;
use crate::sync_stream::{SourceItem, SourceView};

verus! {

/// The mathematical content of a [`Framer`]: the events of the batch under
/// way, and whether events were dropped since the last report.
pub struct FramerView {
    pub pending: Seq<InputEvent>,
    pub dropping: bool,
}

/// Whether the event is the synchronization event of the given code.
pub open spec fn is_syn(ev: InputEvent, code: u16) -> bool {
    ev matches InputEvent::Synchronization(e) && e.0.code == code
}

impl FramerView {
    /// A framer between batches.
    pub open spec fn idle() -> FramerView {
        FramerView { pending: Seq::empty(), dropping: false }
    }

    /// The framer after one more event, and the item that the event
    /// completes, if it completes one.
    pub open spec fn after(self, ev: InputEvent) -> (FramerView, Option<SourceView>) {
        if is_syn(ev, SYN_DROPPED) {
            (FramerView { pending: Seq::empty(), dropping: true }, None)
        } else if is_syn(ev, SYN_REPORT) {
            if self.dropping {
                (FramerView::idle(), Some(SourceView::Overflow))
            } else {
                (FramerView::idle(), Some(SourceView::Batch(self.pending.push(ev))))
            }
        } else if self.dropping {
            (self, None)
        } else {
            (FramerView { pending: self.pending.push(ev), ..self }, None)
        }
    }
}

/// Collects the events of a device into batches and overflows.
pub struct Framer {
    pending: Vec<InputEvent>,
    dropping: bool,
}

impl View for Framer {
    type V = FramerView;

    closed spec fn view(&self) -> FramerView {
        FramerView { pending: self.pending@, dropping: self.dropping }
    }
}

impl Framer {
    /// A framer between batches.
    pub fn new() -> (framer: Self)
        ensures
            framer@ == FramerView::idle(),
    {
        Framer { pending: Vec::new(), dropping: false }
    }

    /// How many events of the batch under way are held back.
    pub fn held(&self) -> (n: usize)
        ensures
            n == self@.pending.len(),
    {
        self.pending.len()
    }

    /// Takes the next event of the device and gives the item that it
    /// completes, if it completes one.
    pub fn push(&mut self, ev: InputEvent) -> (item: Option<SourceItem>)
        ensures
            final(self)@ == old(self)@.after(ev).0,
            match item {
                Some(item) => old(self)@.after(ev).1 == Some(item@),
                None => old(self)@.after(ev).1 is None,
            },
    {
        let code: Option<u16> = match ev {
            InputEvent::Synchronization(e) => Some(e.0.code),
            _ => None,
        };
        if code == Some(SYN_DROPPED) {
            self.pending = Vec::new();
            self.dropping = true;
            None
        } else if code == Some(SYN_REPORT) {
            let dropped: bool = self.dropping;
            let mut batch: Vec<InputEvent> = Vec::new();
            std::mem::swap(&mut batch, &mut self.pending);
            self.dropping = false;
            if dropped {
                Some(SourceItem::Overflow)
            } else {
                batch.push(ev);
                Some(SourceItem::Batch(batch))
            }
        } else if self.dropping {
            None
        } else {
            self.pending.push(ev);
            None
        }
    }
}

} // verus!
