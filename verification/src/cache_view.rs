//! The state of a device as a mathematical value, and what an event does to
//! it.

use vstd::prelude::*;
use crate::absinfo::AbsInfo;
use crate::capability::CapsView;
use crate::codes::{
    ABS_COUNT, ABS_MT_FIRST, ABS_MT_LAST, ABS_MT_SLOT, KEY_COUNT, LED_COUNT, MAX_SLOTS, MT_COUNT,
    SWITCH_COUNT,
};
use crate::event::InputEvent;

verus! {

/// The mathematical content of a device-state cache.
///
/// `keys`, `switches` and `leds` hold one flag per code: the code is in the
/// set of pressed keys, active switches or lit LEDs where its flag is set.
/// `abs` holds value and calibration per axis code. `slot_values` holds the
/// values of the slot-scoped axes, slot after slot, [`MT_COUNT`] to a slot.
/// The selected slot is the value of the axis [`ABS_MT_SLOT`].
pub struct CacheView {
    pub keys: Seq<bool>,
    pub abs: Seq<AbsInfo>,
    pub switches: Seq<bool>,
    pub leds: Seq<bool>,
    pub slot_values: Seq<i32>,
    pub slots: nat,
}

impl CacheView {
    /// Every namespace has its full size, every slot has all its values, and
    /// on a device with slots the value of a slot-scoped axis lives in the
    /// slots alone: its entry in `abs` keeps the calibration and the value 0.
    pub open spec fn wf(self) -> bool {
        &&& self.keys.len() == KEY_COUNT
        &&& self.abs.len() == ABS_COUNT
        &&& self.switches.len() == SWITCH_COUNT
        &&& self.leds.len() == LED_COUNT
        &&& self.slots <= MAX_SLOTS
        &&& self.slot_values.len() == self.slots * MT_COUNT
        &&& forall|c: int|
            self.slots > 0 && ABS_MT_FIRST <= c <= ABS_MT_LAST ==> (#[trigger] self.abs[c]).value
                == 0
    }

    /// The state of a device of the given capabilities on which nothing is
    /// pressed, lit or touched and every axis rests at 0.
    pub open spec fn empty(caps: CapsView) -> CacheView {
        CacheView {
            keys: Seq::new(KEY_COUNT as nat, |c: int| false),
            abs: Seq::new(ABS_COUNT as nat, |c: int| caps.axis_info[c].with_value(0)),
            switches: Seq::new(SWITCH_COUNT as nat, |c: int| false),
            leds: Seq::new(LED_COUNT as nat, |c: int| false),
            slot_values: Seq::new(caps.slots * MT_COUNT as nat, |i: int| 0i32),
            slots: caps.slots,
        }
    }

    /// The set of the codes of the keys that are down.
    pub open spec fn pressed_keys(self) -> Set<u16> {
        Set::new(|c: u16| c < self.keys.len() && self.keys[c as int])
    }

    /// The set of the codes of the switches that are on.
    pub open spec fn active_switches(self) -> Set<u16> {
        Set::new(|c: u16| c < self.switches.len() && self.switches[c as int])
    }

    /// The set of the codes of the LEDs that are lit.
    pub open spec fn lit_leds(self) -> Set<u16> {
        Set::new(|c: u16| c < self.leds.len() && self.leds[c as int])
    }

    /// The selected slot, as the device last reported it. It is stored as it
    /// came and may name no slot.
    pub open spec fn current_slot(self) -> i32 {
        self.abs[ABS_MT_SLOT as int].value
    }

    /// Whether the value of this axis belongs to the selected slot.
    pub open spec fn slot_scoped(self, code: int) -> bool {
        self.slots > 0 && ABS_MT_FIRST <= code <= ABS_MT_LAST
    }

    /// Whether this axis serves the slots: it selects one or is slot-scoped.
    pub open spec fn slot_axis(self, code: int) -> bool {
        self.slots > 0 && ABS_MT_SLOT <= code <= ABS_MT_LAST
    }

    /// The value that slot `slot` holds for the slot-scoped axis `code`.
    pub open spec fn slot_value(self, slot: int, code: int) -> i32 {
        self.slot_values[slot * MT_COUNT + (code - ABS_MT_FIRST)]
    }

    /// The state with one key down or up. A code outside the namespace has no
    /// state to change.
    pub open spec fn set_key(self, code: u16, pressed: bool) -> CacheView {
        if code < KEY_COUNT {
            CacheView { keys: self.keys.update(code as int, pressed), ..self }
        } else {
            self
        }
    }

    /// The state with one switch on or off.
    pub open spec fn set_switch(self, code: u16, active: bool) -> CacheView {
        if code < SWITCH_COUNT {
            CacheView { switches: self.switches.update(code as int, active), ..self }
        } else {
            self
        }
    }

    /// The state with one LED lit or dark.
    pub open spec fn set_led(self, code: u16, lit: bool) -> CacheView {
        if code < LED_COUNT {
            CacheView { leds: self.leds.update(code as int, lit), ..self }
        } else {
            self
        }
    }

    /// The state with one value of one slot replaced. Without such a slot or
    /// such a slot-scoped axis nothing changes.
    pub open spec fn set_slot_value(self, slot: int, code: u16, value: i32) -> CacheView {
        if 0 <= slot < self.slots && ABS_MT_FIRST <= code <= ABS_MT_LAST {
            CacheView {
                slot_values: self.slot_values.update(
                    slot * MT_COUNT + (code - ABS_MT_FIRST),
                    value,
                ),
                ..self
            }
        } else {
            self
        }
    }

    /// The state after an absolute axis reported `value`. The value of a
    /// slot-scoped axis goes to the selected slot, and nowhere if no slot is
    /// selected; any other axis keeps it itself. The value is stored as it
    /// came, inside the axis's range or not.
    pub open spec fn set_axis(self, code: u16, value: i32) -> CacheView {
        if code >= ABS_COUNT {
            self
        } else if self.slot_scoped(code as int) {
            self.set_slot_value(self.current_slot() as int, code, value)
        } else {
            CacheView {
                abs: self.abs.update(code as int, self.abs[code as int].with_value(value)),
                ..self
            }
        }
    }

    /// The state with the calibration of one axis replaced, and its value too
    /// unless the axis is slot-scoped.
    pub open spec fn set_axis_info(self, code: u16, info: AbsInfo) -> CacheView {
        if code >= ABS_COUNT {
            self
        } else if self.slot_scoped(code as int) {
            CacheView { abs: self.abs.update(code as int, info.with_value(0)), ..self }
        } else {
            CacheView { abs: self.abs.update(code as int, info), ..self }
        }
    }

    /// The state after one event. Key, absolute axis, switch and LED events
    /// change it; events of every other kind leave it as it is.
    pub open spec fn apply(self, ev: InputEvent) -> CacheView {
        match ev {
            InputEvent::Key(e) => self.set_key(e.0.code, e.0.value != 0),
            InputEvent::AbsAxis(e) => self.set_axis(e.0.code, e.0.value),
            InputEvent::Switch(e) => self.set_switch(e.0.code, e.0.value != 0),
            InputEvent::Led(e) => self.set_led(e.0.code, e.0.value != 0),
            _ => self,
        }
    }

    /// The state after a sequence of events, applied first to last.
    pub open spec fn apply_all(self, events: Seq<InputEvent>) -> CacheView
        decreases events.len(),
    {
        if events.len() == 0 {
            self
        } else {
            self.apply_all(events.drop_last()).apply(events.last())
        }
    }

    /// Whether two states are states of one device: as many slots, and every
    /// axis calibrated alike.
    pub open spec fn same_layout(self, other: CacheView) -> bool {
        &&& self.slots == other.slots
        &&& forall|c: int|
            0 <= c < ABS_COUNT ==> (#[trigger] self.abs[c]).same_calibration(other.abs[c])
    }
}

/// Applying an event keeps a state well formed.
pub proof fn lemma_apply_wf(s: CacheView, ev: InputEvent)
    requires
        s.wf(),
    ensures
        s.apply(ev).wf(),
        s.apply(ev).same_layout(s),
{
    let t = s.apply(ev);
    assert forall|c: int| 0 <= c < ABS_COUNT implies (#[trigger] t.abs[c]).same_calibration(
        s.abs[c],
    ) by {}
}

/// Applying events keeps a state well formed.
pub proof fn lemma_apply_all_wf(s: CacheView, events: Seq<InputEvent>)
    requires
        s.wf(),
    ensures
        s.apply_all(events).wf(),
        s.apply_all(events).same_layout(s),
    decreases events.len(),
{
    if events.len() > 0 {
        lemma_apply_all_wf(s, events.drop_last());
        lemma_apply_wf(s.apply_all(events.drop_last()), events.last());
    }
}

/// Applying two sequences one after the other is applying their
/// concatenation.
pub proof fn lemma_apply_all_concat(s: CacheView, a: Seq<InputEvent>, b: Seq<InputEvent>)
    ensures
        s.apply_all(a + b) == s.apply_all(a).apply_all(b),
    decreases b.len(),
{
    if b.len() == 0 {
        assert(a + b =~= a);
    } else {
        assert((a + b).drop_last() =~= a + b.drop_last());
        assert((a + b).last() == b.last());
        lemma_apply_all_concat(s, a, b.drop_last());
    }
}

} // verus!
