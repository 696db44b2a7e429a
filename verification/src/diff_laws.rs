//! What the corrective batch is good for: between equal states it is empty,
//! and applied to the old state it gives the new one.

use vstd::prelude::*;
use crate::absinfo::AbsInfo;
use crate::cache_view::{lemma_apply_all_concat, CacheView};
use crate::capability::CapsView;
use crate::codes::{
    ABS_COUNT, ABS_MT_FIRST, ABS_MT_LAST, ABS_MT_SLOT, EV_ABS, EV_KEY, EV_LED, EV_SW, KEY_COUNT,
    LED_COUNT, MT_COUNT, SWITCH_COUNT,
};
use crate::diff::{
    axis_changed, axis_changes, comparable, covers, diff_events, flag_changed, flag_changes,
    flag_value, merged, selected_after, slot_changed, slot_changes, slot_selection, syn_report,
    synthetic,
};
use crate::event::InputEvent;

verus! {

proof fn lemma_flag_changes_same(s: Seq<bool>, supported: Seq<bool>, type_: u16, n: int)
    ensures
        flag_changes(s, s, supported, type_, n) == Seq::<InputEvent>::empty(),
    decreases n,
{
    if n > 0 {
        lemma_flag_changes_same(s, supported, type_, n - 1);
    }
}

proof fn lemma_axis_changes_same(s: Seq<AbsInfo>, axes: Seq<bool>, slots: nat, n: int)
    ensures
        axis_changes(s, s, axes, slots, n) == Seq::<InputEvent>::empty(),
    decreases n,
{
    if n > 0 {
        lemma_axis_changes_same(s, axes, slots, n - 1);
    }
}

proof fn lemma_slot_changes_same(s: Seq<i32>, selected: i32, axes: Seq<bool>, n: int)
    ensures
        slot_changes(s, selected, s, axes, n) == Seq::<InputEvent>::empty(),
        selected_after(s, selected, s, axes, n) == selected,
    decreases n,
{
    if n > 0 {
        lemma_slot_changes_same(s, selected, axes, n - 1);
    }
}

/// Between a state and itself nothing is to be corrected: the batch holds the
/// synchronization report and no other event, whatever the state and the
/// capabilities.
pub proof fn lemma_diff_of_equal_states(s: CacheView, caps: CapsView)
    ensures
        diff_events(s, s, caps) == seq![syn_report()],
{
    lemma_flag_changes_same(s.keys, caps.keys, EV_KEY, KEY_COUNT as int);
    lemma_axis_changes_same(s.abs, caps.axes, s.slots, ABS_COUNT as int);
    lemma_slot_changes_same(s.slot_values, s.current_slot(), caps.axes, comparable(s, s));
    lemma_flag_changes_same(s.switches, caps.switches, EV_SW, SWITCH_COUNT as int);
    lemma_flag_changes_same(s.leds, caps.leds, EV_LED, LED_COUNT as int);
    assert(diff_events(s, s, caps) =~= seq![syn_report()]);
}

/// Whether no event of the sequence is a synchronization event.
pub open spec fn no_synchronization(events: Seq<InputEvent>) -> bool {
    forall|i: int| 0 <= i < events.len() ==> !((#[trigger] events[i]) is Synchronization)
}

proof fn lemma_flag_changes_kind(
    old: Seq<bool>,
    new: Seq<bool>,
    supported: Seq<bool>,
    type_: u16,
    n: int,
)
    requires
        type_ == EV_KEY || type_ == EV_SW || type_ == EV_LED,
    ensures
        no_synchronization(flag_changes(old, new, supported, type_, n)),
    decreases n,
{
    if n > 0 {
        lemma_flag_changes_kind(old, new, supported, type_, n - 1);
    }
}

proof fn lemma_axis_changes_kind(
    old: Seq<AbsInfo>,
    new: Seq<AbsInfo>,
    axes: Seq<bool>,
    slots: nat,
    n: int,
)
    ensures
        no_synchronization(axis_changes(old, new, axes, slots, n)),
    decreases n,
{
    if n > 0 {
        lemma_axis_changes_kind(old, new, axes, slots, n - 1);
    }
}

proof fn lemma_slot_changes_kind(
    old: Seq<i32>,
    selected: i32,
    new: Seq<i32>,
    axes: Seq<bool>,
    n: int,
)
    ensures
        no_synchronization(slot_changes(old, selected, new, axes, n)),
    decreases n,
{
    if n > 0 {
        lemma_slot_changes_kind(old, selected, new, axes, n - 1);
    }
}

/// The corrective batch is closed by one synchronization report: the report
/// is its last event, and no event before it is a synchronization event.
pub proof fn lemma_diff_closed_by_one_report(old: CacheView, new: CacheView, caps: CapsView)
    ensures
        diff_events(old, new, caps).len() >= 1,
        diff_events(old, new, caps).last() == syn_report(),
        no_synchronization(diff_events(old, new, caps).drop_last()),
{
    let keys = flag_changes(old.keys, new.keys, caps.keys, EV_KEY, KEY_COUNT as int);
    let axes = axis_changes(old.abs, new.abs, caps.axes, new.slots, ABS_COUNT as int);
    let len = comparable(old, new);
    let slots = slot_changes(old.slot_values, old.current_slot(), new.slot_values, caps.axes, len);
    let selection = slot_selection(old, new, caps);
    let switches = flag_changes(
        old.switches,
        new.switches,
        caps.switches,
        EV_SW,
        SWITCH_COUNT as int,
    );
    let leds = flag_changes(old.leds, new.leds, caps.leds, EV_LED, LED_COUNT as int);
    lemma_flag_changes_kind(old.keys, new.keys, caps.keys, EV_KEY, KEY_COUNT as int);
    lemma_axis_changes_kind(old.abs, new.abs, caps.axes, new.slots, ABS_COUNT as int);
    lemma_slot_changes_kind(old.slot_values, old.current_slot(), new.slot_values, caps.axes, len);
    lemma_flag_changes_kind(old.switches, new.switches, caps.switches, EV_SW, SWITCH_COUNT as int);
    lemma_flag_changes_kind(old.leds, new.leds, caps.leds, EV_LED, LED_COUNT as int);
    let body = keys + axes + slots + selection + switches + leds;
    assert(no_synchronization(selection));
    assert(no_synchronization(body));
    assert(diff_events(old, new, caps) =~= body.push(syn_report()));
    assert(body.push(syn_report()).drop_last() =~= body);
}

proof fn lemma_apply_all_push(s: CacheView, events: Seq<InputEvent>, ev: InputEvent)
    ensures
        s.apply_all(events.push(ev)) == s.apply_all(events).apply(ev),
{
    assert(events.push(ev).drop_last() =~= events);
}

proof fn lemma_replay_keys(s: CacheView, target: Seq<bool>, supported: Seq<bool>, n: int)
    requires
        s.wf(),
        target.len() == KEY_COUNT,
        0 <= n <= KEY_COUNT,
        forall|c: int| 0 <= c < n && s.keys[c] != target[c] ==> #[trigger] supported[c],
    ensures
        s.apply_all(flag_changes(s.keys, target, supported, EV_KEY, n)) == (CacheView {
            keys: merged(target, s.keys, n),
            ..s
        }),
    decreases n,
{
    if n <= 0 {
        assert(merged(target, s.keys, n) =~= s.keys);
    } else {
        lemma_replay_keys(s, target, supported, n - 1);
        let before = flag_changes(s.keys, target, supported, EV_KEY, n - 1);
        let mid = CacheView { keys: merged(target, s.keys, n - 1), ..s };
        if flag_changed(s.keys, target, supported, n - 1) {
            let ev = synthetic(EV_KEY, n - 1, flag_value(target[n - 1]));
            lemma_apply_all_push(s, before, ev);
            assert(mid.apply(ev).keys =~= merged(target, s.keys, n));
        } else {
            assert(supported[n - 1] || s.keys[n - 1] == target[n - 1]);
            assert(merged(target, s.keys, n - 1) =~= merged(target, s.keys, n));
        }
    }
}

proof fn lemma_replay_switches(s: CacheView, target: Seq<bool>, supported: Seq<bool>, n: int)
    requires
        s.wf(),
        target.len() == SWITCH_COUNT,
        0 <= n <= SWITCH_COUNT,
        forall|c: int| 0 <= c < n && s.switches[c] != target[c] ==> #[trigger] supported[c],
    ensures
        s.apply_all(flag_changes(s.switches, target, supported, EV_SW, n)) == (CacheView {
            switches: merged(target, s.switches, n),
            ..s
        }),
    decreases n,
{
    if n <= 0 {
        assert(merged(target, s.switches, n) =~= s.switches);
    } else {
        lemma_replay_switches(s, target, supported, n - 1);
        let before = flag_changes(s.switches, target, supported, EV_SW, n - 1);
        let mid = CacheView { switches: merged(target, s.switches, n - 1), ..s };
        if flag_changed(s.switches, target, supported, n - 1) {
            let ev = synthetic(EV_SW, n - 1, flag_value(target[n - 1]));
            lemma_apply_all_push(s, before, ev);
            assert(mid.apply(ev).switches =~= merged(target, s.switches, n));
        } else {
            assert(supported[n - 1] || s.switches[n - 1] == target[n - 1]);
            assert(merged(target, s.switches, n - 1) =~= merged(target, s.switches, n));
        }
    }
}

proof fn lemma_replay_leds(s: CacheView, target: Seq<bool>, supported: Seq<bool>, n: int)
    requires
        s.wf(),
        target.len() == LED_COUNT,
        0 <= n <= LED_COUNT,
        forall|c: int| 0 <= c < n && s.leds[c] != target[c] ==> #[trigger] supported[c],
    ensures
        s.apply_all(flag_changes(s.leds, target, supported, EV_LED, n)) == (CacheView {
            leds: merged(target, s.leds, n),
            ..s
        }),
    decreases n,
{
    if n <= 0 {
        assert(merged(target, s.leds, n) =~= s.leds);
    } else {
        lemma_replay_leds(s, target, supported, n - 1);
        let before = flag_changes(s.leds, target, supported, EV_LED, n - 1);
        let mid = CacheView { leds: merged(target, s.leds, n - 1), ..s };
        if flag_changed(s.leds, target, supported, n - 1) {
            let ev = synthetic(EV_LED, n - 1, flag_value(target[n - 1]));
            lemma_apply_all_push(s, before, ev);
            assert(mid.apply(ev).leds =~= merged(target, s.leds, n));
        } else {
            assert(supported[n - 1] || s.leds[n - 1] == target[n - 1]);
            assert(merged(target, s.leds, n - 1) =~= merged(target, s.leds, n));
        }
    }
}

/// The axes after the plain axes below `n` have been corrected.
spec fn axes_merged(target: Seq<AbsInfo>, old: Seq<AbsInfo>, slots: nat, n: int) -> Seq<AbsInfo> {
    Seq::new(
        old.len(),
        |c: int|
            if c < n && !(slots > 0 && ABS_MT_SLOT <= c <= ABS_MT_LAST) {
                target[c]
            } else {
                old[c]
            },
    )
}

proof fn lemma_replay_axes(s: CacheView, target: Seq<AbsInfo>, axes: Seq<bool>, n: int)
    requires
        s.wf(),
        target.len() == ABS_COUNT,
        0 <= n <= ABS_COUNT,
        forall|c: int| 0 <= c < ABS_COUNT ==> (#[trigger] s.abs[c]).same_calibration(target[c]),
        forall|c: int| 0 <= c < n && s.abs[c].value != target[c].value ==> #[trigger] axes[c],
    ensures
        s.apply_all(axis_changes(s.abs, target, axes, s.slots, n)) == (CacheView {
            abs: axes_merged(target, s.abs, s.slots, n),
            ..s
        }),
    decreases n,
{
    if n <= 0 {
        assert(axes_merged(target, s.abs, s.slots, n) =~= s.abs);
    } else {
        lemma_replay_axes(s, target, axes, n - 1);
        let before = axis_changes(s.abs, target, axes, s.slots, n - 1);
        let mid = CacheView { abs: axes_merged(target, s.abs, s.slots, n - 1), ..s };
        assert(s.abs[n - 1].same_calibration(target[n - 1]));
        if axis_changed(s.abs, target, axes, s.slots, n - 1) {
            let ev = synthetic(EV_ABS, n - 1, target[n - 1].value);
            lemma_apply_all_push(s, before, ev);
            assert(mid.abs[n - 1] == s.abs[n - 1]);
            assert(s.abs[n - 1].with_value(target[n - 1].value) == target[n - 1]);
            assert(mid.apply(ev).abs =~= axes_merged(target, s.abs, s.slots, n));
        } else {
            assert(axes[n - 1] || s.abs[n - 1].value == target[n - 1].value);
            assert(axes_merged(target, s.abs, s.slots, n - 1) =~= axes_merged(
                target,
                s.abs,
                s.slots,
                n,
            ));
        }
    }
}

/// The state after the slot values below position `n` have been corrected.
spec fn slots_merged(s: CacheView, target: Seq<i32>, axes: Seq<bool>, n: int) -> CacheView {
    CacheView {
        slot_values: merged(target, s.slot_values, n),
        abs: s.abs.update(
            ABS_MT_SLOT as int,
            s.abs[ABS_MT_SLOT as int].with_value(
                selected_after(s.slot_values, s.current_slot(), target, axes, n),
            ),
        ),
        ..s
    }
}

proof fn lemma_replay_slots(s: CacheView, target: Seq<i32>, axes: Seq<bool>, n: int)
    requires
        s.wf(),
        target.len() == s.slot_values.len(),
        0 <= n <= s.slot_values.len(),
        forall|i: int|
            0 <= i < n && s.slot_values[i] != (#[trigger] target[i]) ==> axes[ABS_MT_FIRST + i % (
            MT_COUNT as int)],
    ensures
        s.apply_all(slot_changes(s.slot_values, s.current_slot(), target, axes, n))
            == slots_merged(s, target, axes, n),
    decreases n,
{
    if n <= 0 {
        assert(slots_merged(s, target, axes, n).slot_values =~= s.slot_values);
        assert(slots_merged(s, target, axes, n).abs =~= s.abs);
    } else {
        lemma_replay_slots(s, target, axes, n - 1);
        let i = n - 1;
        let before = slot_changes(s.slot_values, s.current_slot(), target, axes, i);
        let mid = slots_merged(s, target, axes, i);
        let goal = slots_merged(s, target, axes, n);
        let slot = i / (MT_COUNT as int);
        let offset = i % (MT_COUNT as int);
        assert(0 <= offset < MT_COUNT && i == slot * MT_COUNT + offset);
        assert(0 <= slot < s.slots);
        if slot_changed(s.slot_values, target, axes, i) {
            let left = selected_after(s.slot_values, s.current_slot(), target, axes, i);
            let select = synthetic(EV_ABS, ABS_MT_SLOT as int, slot as i32);
            let set = synthetic(EV_ABS, ABS_MT_FIRST + offset, target[i]);
            let chosen = if left != slot {
                before.push(select)
            } else {
                before
            };
            let ready = CacheView {
                abs: mid.abs.update(
                    ABS_MT_SLOT as int,
                    mid.abs[ABS_MT_SLOT as int].with_value(slot as i32),
                ),
                ..mid
            };
            if left != slot {
                lemma_apply_all_push(s, before, select);
                assert(mid.apply(select) == ready);
            } else {
                assert(ready.abs =~= mid.abs);
            }
            assert(s.apply_all(chosen) == ready);
            lemma_apply_all_push(s, chosen, set);
            assert(ready.current_slot() == slot);
            assert(ready.apply(set).slot_values =~= goal.slot_values);
            assert(ready.apply(set).abs =~= goal.abs);
        } else {
            assert(mid.slot_values =~= goal.slot_values);
        }
    }
}

/// Replaying the corrective batch on the old state gives the new state,
/// exactly, wherever the two are states of one device and the device's
/// capabilities cover what differs between them.
pub proof fn lemma_diff_replay(old: CacheView, new: CacheView, caps: CapsView)
    requires
        old.wf(),
        new.wf(),
        caps.wf(),
        old.same_layout(new),
        covers(caps, old, new),
    ensures
        old.apply_all(diff_events(old, new, caps)) == new,
{
    let keys = flag_changes(old.keys, new.keys, caps.keys, EV_KEY, KEY_COUNT as int);
    let axes = axis_changes(old.abs, new.abs, caps.axes, new.slots, ABS_COUNT as int);
    let len = comparable(old, new);
    let slots = slot_changes(old.slot_values, old.current_slot(), new.slot_values, caps.axes, len);
    let selection = slot_selection(old, new, caps);
    let switches = flag_changes(
        old.switches,
        new.switches,
        caps.switches,
        EV_SW,
        SWITCH_COUNT as int,
    );
    let leds = flag_changes(old.leds, new.leds, caps.leds, EV_LED, LED_COUNT as int);

    lemma_replay_keys(old, new.keys, caps.keys, KEY_COUNT as int);
    let s1 = CacheView { keys: new.keys, ..old };
    assert(merged(new.keys, old.keys, KEY_COUNT as int) =~= new.keys);
    assert(old.apply_all(keys) == s1);

    lemma_replay_axes(s1, new.abs, caps.axes, ABS_COUNT as int);
    let s2 = CacheView { abs: axes_merged(new.abs, old.abs, old.slots, ABS_COUNT as int), ..s1 };
    assert(s1.apply_all(axes) == s2);
    assert(s2.wf());

    assert(s2.current_slot() == (if old.slots > 0 {
        old.current_slot()
    } else {
        new.current_slot()
    }));
    assert(len == 0 || old.slots > 0);
    lemma_replay_slots(s2, new.slot_values, caps.axes, len);
    let s3 = slots_merged(s2, new.slot_values, caps.axes, len);
    assert(s2.apply_all(slots) == s3) by {
        if old.slots == 0 {
            assert(len == 0);
        }
    }
    assert(s3.slot_values =~= new.slot_values);

    let s4 = CacheView { abs: new.abs, ..s3 };
    assert(s3.apply_all(selection) == s4) by {
        let left = selected_after(
            old.slot_values,
            old.current_slot(),
            new.slot_values,
            caps.axes,
            len,
        );
        assert(new.abs[ABS_MT_SLOT as int].same_calibration(old.abs[ABS_MT_SLOT as int]));
        assert forall|c: int| 0 <= c < ABS_COUNT implies s4.abs[c] == if new.slots > 0 && c
            == ABS_MT_SLOT {
            s3.abs[c].with_value(new.current_slot())
        } else {
            #[trigger] s3.abs[c]
        } by {
            assert(old.abs[c].same_calibration(new.abs[c]));
        }
        if new.slots > 0 && left != new.current_slot() {
            let select = synthetic(EV_ABS, ABS_MT_SLOT as int, new.current_slot());
            assert(selection =~= Seq::empty().push(select));
            lemma_apply_all_push(s3, Seq::empty(), select);
            assert(s3.apply(select).abs =~= s4.abs);
        } else {
            assert(s3.abs =~= s4.abs);
        }
    }

    lemma_replay_switches(s4, new.switches, caps.switches, SWITCH_COUNT as int);
    let s5 = CacheView { switches: new.switches, ..s4 };
    assert(merged(new.switches, old.switches, SWITCH_COUNT as int) =~= new.switches);
    assert(s4.apply_all(switches) == s5);

    lemma_replay_leds(s5, new.leds, caps.leds, LED_COUNT as int);
    assert(merged(new.leds, old.leds, LED_COUNT as int) =~= new.leds);
    assert(s5.apply_all(leds) == new);

    lemma_apply_all_concat(old, keys, axes);
    lemma_apply_all_concat(old, keys + axes, slots);
    lemma_apply_all_concat(old, keys + axes + slots, selection);
    lemma_apply_all_concat(old, keys + axes + slots + selection, switches);
    lemma_apply_all_concat(old, keys + axes + slots + selection + switches, leds);
    let body = keys + axes + slots + selection + switches + leds;
    assert(old.apply_all(body) == new);
    lemma_apply_all_push(old, body, syn_report());
    assert(diff_events(old, new, caps) =~= body.push(syn_report()));
}

/// The corrective batch from the empty state of a device to any state of it
/// builds that state: applied to the empty state, it gives the state
/// exactly. This holds of every state that has the device's layout and
/// differs from the empty one only in codes that the device supports.
pub proof fn lemma_round_trip_from_empty(s: CacheView, caps: CapsView)
    requires
        caps.wf(),
        s.wf(),
        CacheView::empty(caps).same_layout(s),
        covers(caps, CacheView::empty(caps), s),
    ensures
        CacheView::empty(caps).apply_all(diff_events(CacheView::empty(caps), s, caps)) == s,
{
    lemma_diff_replay(CacheView::empty(caps), s, caps);
}

} // verus!
