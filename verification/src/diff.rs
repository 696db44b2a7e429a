//! The corrective batch: the events that carry a consumer from one state of
//! a device to another.
//!
//! The events come in a fixed order: keys, then absolute axes (the plain
//! axes first, then the slots, then the slot selection), then switches, then
//! LEDs, each group by ascending code, and a synchronization report at the
//! end. Only codes that the device supports are compared.

use vstd::prelude::*;
use crate::absinfo::AbsInfo;
use crate::cache_view::CacheView;
use crate::capability::CapsView;
use crate::codes::{
    ABS_COUNT, ABS_MT_FIRST, ABS_MT_LAST, ABS_MT_SLOT, EV_ABS, EV_KEY, EV_LED, EV_SW, EV_SYN,
    KEY_COUNT, LED_COUNT, MT_COUNT, SWITCH_COUNT, SYN_REPORT,
};
use crate::event::InputEvent;
use crate::event_variants::RawEvent;
use crate::time::TimeVal;

verus! {

/// The synthetic event of the given type, code and value. It is stamped with
/// the epoch.
pub open spec fn synthetic(type_: u16, code: int, value: i32) -> InputEvent {
    InputEvent::of_raw(RawEvent { time: TimeVal::zero(), type_, code: code as u16, value })
}

/// The event that closes a batch.
pub open spec fn syn_report() -> InputEvent {
    synthetic(EV_SYN, SYN_REPORT as int, 0)
}

/// The value that reports a flag: 1 for set, 0 for clear.
pub open spec fn flag_value(on: bool) -> i32 {
    if on {
        1
    } else {
        0
    }
}

/// The first `n` entries of `new` followed by the rest of `old`.
pub open spec fn merged<A>(new: Seq<A>, old: Seq<A>, n: int) -> Seq<A> {
    Seq::new(
        old.len(),
        |c: int|
            if c < n {
                new[c]
            } else {
                old[c]
            },
    )
}

/// Whether a supported flag differs between two states.
pub open spec fn flag_changed(old: Seq<bool>, new: Seq<bool>, supported: Seq<bool>, c: int) -> bool {
    supported[c] && old[c] != new[c]
}

/// The events for the supported codes below `n` whose flag differs, by
/// ascending code: a press for a flag that is newly set, a release for one
/// that is newly clear.
pub open spec fn flag_changes(
    old: Seq<bool>,
    new: Seq<bool>,
    supported: Seq<bool>,
    type_: u16,
    n: int,
) -> Seq<InputEvent>
    decreases n,
{
    if n <= 0 {
        Seq::empty()
    } else {
        let before = flag_changes(old, new, supported, type_, n - 1);
        if flag_changed(old, new, supported, n - 1) {
            before.push(synthetic(type_, n - 1, flag_value(new[n - 1])))
        } else {
            before
        }
    }
}

/// Whether a supported axis that keeps its own value differs in value. With
/// slots, the axes that serve them are compared slot by slot instead.
pub open spec fn axis_changed(
    old: Seq<AbsInfo>,
    new: Seq<AbsInfo>,
    axes: Seq<bool>,
    slots: nat,
    c: int,
) -> bool {
    &&& axes[c]
    &&& !(slots > 0 && ABS_MT_SLOT <= c <= ABS_MT_LAST)
    &&& old[c].value != new[c].value
}

/// The events for the axes below `n` that differ, by ascending code, each
/// carrying the new value.
pub open spec fn axis_changes(
    old: Seq<AbsInfo>,
    new: Seq<AbsInfo>,
    axes: Seq<bool>,
    slots: nat,
    n: int,
) -> Seq<InputEvent>
    decreases n,
{
    if n <= 0 {
        Seq::empty()
    } else {
        let before = axis_changes(old, new, axes, slots, n - 1);
        if axis_changed(old, new, axes, slots, n - 1) {
            before.push(synthetic(EV_ABS, n - 1, new[n - 1].value))
        } else {
            before
        }
    }
}

/// Whether the slot value at position `i` differs and its axis is supported.
pub open spec fn slot_changed(old: Seq<i32>, new: Seq<i32>, axes: Seq<bool>, i: int) -> bool {
    axes[ABS_MT_FIRST + i % (MT_COUNT as int)] && old[i] != new[i]
}

/// The slot that is selected once the slot values below position `n` have
/// been corrected: that of the last correction, or the one selected before.
pub open spec fn selected_after(
    old: Seq<i32>,
    selected: i32,
    new: Seq<i32>,
    axes: Seq<bool>,
    n: int,
) -> i32
    decreases n,
{
    if n <= 0 {
        selected
    } else if slot_changed(old, new, axes, n - 1) {
        ((n - 1) / (MT_COUNT as int)) as i32
    } else {
        selected_after(old, selected, new, axes, n - 1)
    }
}

/// The events that correct the slot values below position `n`, slot by slot
/// and within a slot by ascending code. A correction in a slot that is not
/// the selected one is preceded by the selection of that slot.
pub open spec fn slot_changes(
    old: Seq<i32>,
    selected: i32,
    new: Seq<i32>,
    axes: Seq<bool>,
    n: int,
) -> Seq<InputEvent>
    decreases n,
{
    if n <= 0 {
        Seq::empty()
    } else {
        let before = slot_changes(old, selected, new, axes, n - 1);
        if slot_changed(old, new, axes, n - 1) {
            let slot = (n - 1) / (MT_COUNT as int);
            let code = ABS_MT_FIRST + (n - 1) % (MT_COUNT as int);
            let chosen = if selected_after(old, selected, new, axes, n - 1) != slot {
                before.push(synthetic(EV_ABS, ABS_MT_SLOT as int, slot as i32))
            } else {
                before
            };
            chosen.push(synthetic(EV_ABS, code, new[n - 1]))
        } else {
            before
        }
    }
}

/// How many slot values two states can be compared in: all of them where the
/// states are of one device.
pub open spec fn comparable(old: CacheView, new: CacheView) -> int {
    if old.slot_values.len() <= new.slot_values.len() {
        old.slot_values.len() as int
    } else {
        new.slot_values.len() as int
    }
}

/// The selection that leaves the new state's slot selected, where the
/// corrections have left another one selected.
pub open spec fn slot_selection(old: CacheView, new: CacheView, caps: CapsView) -> Seq<
    InputEvent,
> {
    let left = selected_after(
        old.slot_values,
        old.current_slot(),
        new.slot_values,
        caps.axes,
        comparable(old, new),
    );
    if new.slots > 0 && left != new.current_slot() {
        seq![synthetic(EV_ABS, ABS_MT_SLOT as int, new.current_slot())]
    } else {
        Seq::empty()
    }
}

/// The corrective batch from `old` to `new` on a device of capabilities
/// `caps`: for every supported code whose state differs one event that
/// carries the new state, group after group, and the synchronization report.
pub open spec fn diff_events(old: CacheView, new: CacheView, caps: CapsView) -> Seq<InputEvent> {
    flag_changes(old.keys, new.keys, caps.keys, EV_KEY, KEY_COUNT as int) + axis_changes(
        old.abs,
        new.abs,
        caps.axes,
        new.slots,
        ABS_COUNT as int,
    ) + slot_changes(
        old.slot_values,
        old.current_slot(),
        new.slot_values,
        caps.axes,
        comparable(old, new),
    ) + slot_selection(old, new, caps) + flag_changes(
        old.switches,
        new.switches,
        caps.switches,
        EV_SW,
        SWITCH_COUNT as int,
    ) + flag_changes(old.leds, new.leds, caps.leds, EV_LED, LED_COUNT as int).push(syn_report())
}

/// Whether the device's capabilities cover every difference between two
/// states of it: no code that the device does not support differs.
pub open spec fn covers(caps: CapsView, old: CacheView, new: CacheView) -> bool {
    &&& forall|c: int| 0 <= c < KEY_COUNT && old.keys[c] != new.keys[c] ==> #[trigger] caps.keys[c]
    &&& forall|c: int|
        0 <= c < SWITCH_COUNT && old.switches[c] != new.switches[c] ==> #[trigger] caps.switches[c]
    &&& forall|c: int| 0 <= c < LED_COUNT && old.leds[c] != new.leds[c] ==> #[trigger] caps.leds[c]
    &&& forall|c: int|
        0 <= c < ABS_COUNT && old.abs[c].value != new.abs[c].value ==> #[trigger] caps.axes[c]
    &&& forall|i: int|
        0 <= i < old.slot_values.len() && old.slot_values[i] != (#[trigger] new.slot_values[i])
            ==> caps.axes[ABS_MT_FIRST + i % (MT_COUNT as int)]
}

} // verus!
