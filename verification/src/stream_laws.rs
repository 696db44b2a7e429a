//! What holds of a synchronizing stream over whole runs.

use vstd::prelude::*;
use crate::cache_view::{lemma_apply_all_concat, CacheView};
use crate::diff::{covers, diff_events};
use crate::diff_laws::lemma_diff_replay;
use crate::event::InputEvent;
use crate::sync_stream::{ActionView, AnswerView, SourceView, StreamState, StreamView};

verus! {

/// The events of the batches among the items, in the order in which they
/// came.
pub open spec fn batch_events(items: Seq<SourceView>) -> Seq<InputEvent>
    decreases items.len(),
{
    if items.len() == 0 {
        Seq::empty()
    } else {
        batch_events(items.drop_last()) + (match items.last() {
            SourceView::Batch(events) => events,
            _ => Seq::empty(),
        })
    }
}

/// The stream after a run of items of the event source.
pub open spec fn after_sources(stream: StreamView, items: Seq<SourceView>) -> StreamView
    decreases items.len(),
{
    if items.len() == 0 {
        stream
    } else {
        after_sources(stream, items.drop_last()).after_source(items.last()).0
    }
}

proof fn lemma_batches_applied(stream: StreamView, items: Seq<SourceView>)
    requires
        stream.state == StreamState::Normal,
        forall|i: int| 0 <= i < items.len() ==> items[i] is Batch,
    ensures
        after_sources(stream, items) == (StreamView {
            cache: stream.cache.apply_all(batch_events(items)),
            ..stream
        }),
    decreases items.len(),
{
    if items.len() > 0 {
        let before = items.drop_last();
        lemma_batches_applied(stream, before);
        let events = items.last()->Batch_0;
        lemma_apply_all_concat(stream.cache, batch_events(before), events);
    }
}

/// While no events are dropped, the cache keeps up with the source: after
/// the `k`-th batch it is the initial cache with all events of the first `k`
/// batches applied in order, for every `k`, and the stream is still in
/// normal operation.
pub proof fn lemma_cache_follows_batches(stream: StreamView, items: Seq<SourceView>)
    requires
        stream.state == StreamState::Normal,
        forall|i: int| 0 <= i < items.len() ==> items[i] is Batch,
    ensures
        forall|k: int|
            0 <= k <= items.len() ==> #[trigger] after_sources(stream, items.take(k))
                == (StreamView {
                cache: stream.cache.apply_all(batch_events(items.take(k))),
                ..stream
            }),
{
    assert forall|k: int| 0 <= k <= items.len() implies #[trigger] after_sources(
        stream,
        items.take(k),
    ) == (StreamView {
        cache: stream.cache.apply_all(batch_events(items.take(k))),
        ..stream
    }) by {
        lemma_batches_applied(stream, items.take(k));
    }
}

/// An overflow is made good by exactly one batch. Whatever the cache held
/// and whatever state the query reports: the overflow itself emits nothing
/// and leaves the cache alone, the snapshot's arrival emits the corrective
/// batch from the old state to the snapshot, and after it the cache is the
/// snapshot and the stream is in normal operation. A consumer that held the
/// old state and applies the batch holds the snapshot too, wherever both are
/// states of the one device and the device's capabilities cover what differs
/// between them.
pub proof fn lemma_overflow_recovery(stream: StreamView, snapshot: CacheView)
    requires
        stream.state != StreamState::Closed,
    ensures
        ({
            let (stale, asked) = stream.after_source(SourceView::Overflow);
            let (synced, emitted) = stale.after_answer(AnswerView::Snapshot(snapshot));
            let batch = diff_events(stream.cache, snapshot, stream.caps);
            &&& asked == ActionView::Query
            &&& stale.cache == stream.cache
            &&& stale.state == StreamState::Resyncing
            &&& emitted == ActionView::Emit(batch)
            &&& synced.cache == snapshot
            &&& synced.state == StreamState::Normal
            &&& (stream.wf() && snapshot.wf() && stream.cache.same_layout(snapshot) && covers(
                stream.caps,
                stream.cache,
                snapshot,
            )) ==> stream.cache.apply_all(batch) == snapshot
        }),
{
    if stream.wf() && snapshot.wf() && stream.cache.same_layout(snapshot) && covers(
        stream.caps,
        stream.cache,
        snapshot,
    ) {
        lemma_diff_replay(stream.cache, snapshot, stream.caps);
    }
}

} // verus!
