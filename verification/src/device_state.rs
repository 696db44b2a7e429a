//! The cached state of a device: which keys are down, where the absolute axes
//! stand, which switches and LEDs are on, and what each multitouch slot
//! holds.

use vstd::prelude::*;
use crate::absinfo::AbsInfo;
use crate::cache_view::CacheView;
use crate::capability::{filled, Capabilities};
use crate::codes::{
    ABS_COUNT, ABS_MT_FIRST, ABS_MT_LAST, ABS_MT_SLOT, EV_ABS, EV_KEY, EV_LED, EV_SW, EV_SYN,
    KEY_COUNT, LED_COUNT, MT_COUNT, SWITCH_COUNT, SYN_REPORT,
};
use crate::diff::{
    axis_changes, comparable, diff_events, flag_changes, flag_value, selected_after,
    slot_changes, slot_selection, synthetic,
};
use crate::event::InputEvent;

verus! {

/// A mirror of a device's state. It is updated event by event and replaced as
/// a whole when the kernel has dropped events.
#[derive(Debug, PartialEq, Eq)]
pub struct DeviceStateCache {
    keys: Vec<bool>,
    abs: Vec<AbsInfo>,
    switches: Vec<bool>,
    leds: Vec<bool>,
    slot_values: Vec<i32>,
    slots: usize,
}

impl View for DeviceStateCache {
    type V = CacheView;

    closed spec fn view(&self) -> CacheView {
        CacheView {
            keys: self.keys@,
            abs: self.abs@,
            switches: self.switches@,
            leds: self.leds@,
            slot_values: self.slot_values@,
            slots: self.slots as nat,
        }
    }
}

/// A copy of a vector of plain values.
pub(crate) fn copy_of<T: Copy>(v: &Vec<T>) -> (r: Vec<T>)
    ensures
        r@ == v@,
{
    let mut r: Vec<T> = Vec::new();
    let mut i: usize = 0;
    while i < v.len()
        invariant
            i <= v.len(),
            r@ == v@.take(i as int),
        decreases v.len() - i,
    {
        r.push(v[i]);
        assert(v@.take(i + 1) =~= v@.take(i as int).push(v@[i as int]));
        i = i + 1;
    }
    assert(v@.take(v.len() as int) =~= v@);
    r
}

/// The codes whose flag is set, in ascending order.
pub(crate) fn set_codes(flags: &Vec<bool>) -> (codes: Vec<u16>)
    requires
        flags.len() <= 0x10000,
    ensures
        forall|c: u16| codes@.contains(c) <==> (c < flags.len() && flags@[c as int]),
        forall|j: int, k: int| 0 <= j < k < codes.len() ==> codes@[j] < codes@[k],
{
    let mut codes: Vec<u16> = Vec::new();
    let mut i: usize = 0;
    while i < flags.len()
        invariant
            i <= flags.len(),
            flags.len() <= 0x10000,
            forall|k: int| 0 <= k < codes.len() ==> codes@[k] < i && flags@[codes@[k] as int],
            forall|c: int| 0 <= c < i && flags@[c] ==> codes@.contains(c as u16),
            forall|j: int, k: int| 0 <= j < k < codes.len() ==> codes@[j] < codes@[k],
        decreases flags.len() - i,
    {
        if flags[i] {
            let ghost before = codes@;
            codes.push(i as u16);
            assert(codes@[before.len() as int] == i as u16);
            assert forall|c: int| 0 <= c < i + 1 && flags@[c] implies codes@.contains(
                c as u16,
            ) by {
                if c < i {
                    let k = choose|k: int| 0 <= k < before.len() && before[k] == c as u16;
                    assert(codes@[k] == c as u16);
                }
            }
        }
        i = i + 1;
    }
    assert forall|c: u16| codes@.contains(c) <==> (c < flags.len() && flags@[c as int]) by {
        if codes@.contains(c) {
            let k = choose|k: int| 0 <= k < codes.len() && codes@[k] == c;
            assert(codes@[k] < flags.len() && flags@[codes@[k] as int]);
        }
    }
    codes
}

/// Whether two vectors of flags hold the same flags.
fn same_flags(a: &Vec<bool>, b: &Vec<bool>) -> (same: bool)
    ensures
        same == (a@ == b@),
{
    if a.len() != b.len() {
        return false;
    }
    let mut i: usize = 0;
    while i < a.len()
        invariant
            i <= a.len(),
            a.len() == b.len(),
            a@.take(i as int) == b@.take(i as int),
        decreases a.len() - i,
    {
        if a[i] != b[i] {
            return false;
        }
        assert(a@.take(i + 1) =~= a@.take(i as int).push(a@[i as int]));
        assert(b@.take(i + 1) =~= b@.take(i as int).push(b@[i as int]));
        i = i + 1;
    }
    assert(a@ =~= a@.take(a.len() as int) && b@ =~= b@.take(b.len() as int));
    true
}

/// Whether two vectors of values hold the same values.
fn same_values(a: &Vec<i32>, b: &Vec<i32>) -> (same: bool)
    ensures
        same == (a@ == b@),
{
    if a.len() != b.len() {
        return false;
    }
    let mut i: usize = 0;
    while i < a.len()
        invariant
            i <= a.len(),
            a.len() == b.len(),
            a@.take(i as int) == b@.take(i as int),
        decreases a.len() - i,
    {
        if a[i] != b[i] {
            return false;
        }
        assert(a@.take(i + 1) =~= a@.take(i as int).push(a@[i as int]));
        assert(b@.take(i + 1) =~= b@.take(i as int).push(b@[i as int]));
        i = i + 1;
    }
    assert(a@ =~= a@.take(a.len() as int) && b@ =~= b@.take(b.len() as int));
    true
}

/// Whether two vectors of axes hold the same values and calibrations.
fn same_infos(a: &Vec<AbsInfo>, b: &Vec<AbsInfo>) -> (same: bool)
    ensures
        same == (a@ == b@),
{
    if a.len() != b.len() {
        return false;
    }
    let mut i: usize = 0;
    while i < a.len()
        invariant
            i <= a.len(),
            a.len() == b.len(),
            a@.take(i as int) == b@.take(i as int),
        decreases a.len() - i,
    {
        if a[i] != b[i] {
            return false;
        }
        assert(a@.take(i + 1) =~= a@.take(i as int).push(a@[i as int]));
        assert(b@.take(i + 1) =~= b@.take(i as int).push(b@[i as int]));
        i = i + 1;
    }
    assert(a@ =~= a@.take(a.len() as int) && b@ =~= b@.take(b.len() as int));
    true
}

/// Appends the events for the supported codes whose flag differs between
/// `prior` and `fresh`.
fn push_flag_changes(
    out: &mut Vec<InputEvent>,
    prior: &Vec<bool>,
    fresh: &Vec<bool>,
    supported: &Vec<bool>,
    type_: u16,
)
    requires
        prior.len() == fresh.len(),
        prior.len() == supported.len(),
        prior.len() <= 0x10000,
    ensures
        final(out)@ == old(out)@ + flag_changes(
            prior@,
            fresh@,
            supported@,
            type_,
            prior.len() as int,
        ),
{
    let ghost before = out@;
    let mut c: usize = 0;
    assert(out@ =~= before + flag_changes(prior@, fresh@, supported@, type_, 0));
    while c < prior.len()
        invariant
            c <= prior.len(),
            prior.len() == fresh.len(),
            prior.len() == supported.len(),
            prior.len() <= 0x10000,
            out@ == before + flag_changes(prior@, fresh@, supported@, type_, c as int),
        decreases prior.len() - c,
    {
        if supported[c] && prior[c] != fresh[c] {
            let value: i32 = if fresh[c] {
                1
            } else {
                0
            };
            let ev = InputEvent::new(type_, c as u16, value);
            assert(ev == synthetic(type_, c as int, flag_value(fresh@[c as int])));
            out.push(ev);
        }
        assert(out@ =~= before + flag_changes(prior@, fresh@, supported@, type_, c + 1));
        c = c + 1;
    }
}

/// Appends the events for the supported plain axes whose value differs
/// between `prior` and `fresh`.
fn push_axis_changes(
    out: &mut Vec<InputEvent>,
    prior: &Vec<AbsInfo>,
    fresh: &Vec<AbsInfo>,
    axes: &Vec<bool>,
    slots: usize,
)
    requires
        prior.len() == ABS_COUNT,
        fresh.len() == ABS_COUNT,
        axes.len() == ABS_COUNT,
    ensures
        final(out)@ == old(out)@ + axis_changes(
            prior@,
            fresh@,
            axes@,
            slots as nat,
            ABS_COUNT as int,
        ),
{
    let ghost before = out@;
    let mut c: usize = 0;
    assert(out@ =~= before + axis_changes(prior@, fresh@, axes@, slots as nat, 0));
    while c < ABS_COUNT
        invariant
            c <= ABS_COUNT,
            prior.len() == ABS_COUNT,
            fresh.len() == ABS_COUNT,
            axes.len() == ABS_COUNT,
            out@ == before + axis_changes(prior@, fresh@, axes@, slots as nat, c as int),
        decreases ABS_COUNT - c,
    {
        let serves_slots: bool = slots > 0 && ABS_MT_SLOT as usize <= c && c
            <= ABS_MT_LAST as usize;
        if axes[c] && !serves_slots && prior[c].value != fresh[c].value {
            let ev = InputEvent::new(EV_ABS, c as u16, fresh[c].value);
            assert(ev == synthetic(EV_ABS, c as int, fresh@[c as int].value));
            out.push(ev);
        }
        assert(out@ =~= before + axis_changes(prior@, fresh@, axes@, slots as nat, c + 1));
        c = c + 1;
    }
}

/// Appends the events that correct the slot values which differ between
/// `prior` and `fresh`, and returns the slot that they leave selected.
fn push_slot_changes(
    out: &mut Vec<InputEvent>,
    prior: &Vec<i32>,
    selected: i32,
    fresh: &Vec<i32>,
    axes: &Vec<bool>,
    len: usize,
) -> (left: i32)
    requires
        len <= prior.len(),
        len <= fresh.len(),
        len <= 0x10000,
        axes.len() == ABS_COUNT,
    ensures
        final(out)@ == old(out)@ + slot_changes(prior@, selected, fresh@, axes@, len as int),
        left == selected_after(prior@, selected, fresh@, axes@, len as int),
{
    let ghost before = out@;
    let mut i: usize = 0;
    let mut slot: usize = 0;
    let mut offset: usize = 0;
    let mut left: i32 = selected;
    assert(out@ =~= before + slot_changes(prior@, selected, fresh@, axes@, 0));
    while i < len
        invariant
            i <= len,
            len <= prior.len(),
            len <= fresh.len(),
            len <= 0x10000,
            axes.len() == ABS_COUNT,
            offset < MT_COUNT,
            i == slot * MT_COUNT + offset,
            left == selected_after(prior@, selected, fresh@, axes@, i as int),
            out@ == before + slot_changes(prior@, selected, fresh@, axes@, i as int),
        decreases len - i,
    {
        assert(i as int / (MT_COUNT as int) == slot && i as int % (MT_COUNT as int) == offset);
        let code: u16 = ABS_MT_FIRST + offset as u16;
        if axes[code as usize] && prior[i] != fresh[i] {
            if left != slot as i32 {
                out.push(InputEvent::new(EV_ABS, ABS_MT_SLOT, slot as i32));
                left = slot as i32;
            }
            out.push(InputEvent::new(EV_ABS, code, fresh[i]));
        }
        assert(out@ =~= before + slot_changes(prior@, selected, fresh@, axes@, i + 1));
        i = i + 1;
        offset = offset + 1;
        if offset == MT_COUNT {
            offset = 0;
            slot = slot + 1;
        }
    }
    left
}

impl DeviceStateCache {
    /// The cache of a device of the given capabilities on which nothing is
    /// pressed, lit or touched and every axis rests at 0.
    pub fn new(caps: &Capabilities) -> (cache: Self)
        requires
            caps@.wf(),
        ensures
            cache@ == CacheView::empty(caps@),
            cache@.wf(),
    {
        let mut abs: Vec<AbsInfo> = Vec::new();
        let mut c: u16 = 0;
        while (c as usize) < ABS_COUNT
            invariant
                c <= ABS_COUNT,
                caps@.wf(),
                abs@ == Seq::new(c as nat, |i: int| caps@.axis_info[i].with_value(0)),
            decreases ABS_COUNT - c,
        {
            let info = caps.axis_info(c);
            abs.push(AbsInfo::new(0, info.minimum, info.maximum, info.fuzz, info.flat, info.resolution));
            c = c + 1;
        }
        let slots: usize = caps.slots();
        let cache = DeviceStateCache {
            keys: filled(false, KEY_COUNT),
            abs,
            switches: filled(false, SWITCH_COUNT),
            leds: filled(false, LED_COUNT),
            slot_values: filled(0i32, slots * MT_COUNT),
            slots,
        };
        assert(cache@.slot_values =~= CacheView::empty(caps@).slot_values);
        cache
    }

    /// A copy of the cache, for keeping the state that is about to be
    /// replaced.
    pub fn duplicate(&self) -> (copy: Self)
        ensures
            copy@ == self@,
    {
        DeviceStateCache {
            keys: copy_of(&self.keys),
            abs: copy_of(&self.abs),
            switches: copy_of(&self.switches),
            leds: copy_of(&self.leds),
            slot_values: copy_of(&self.slot_values),
            slots: self.slots,
        }
    }

    /// Whether two caches hold the same state.
    pub fn equals(&self, other: &Self) -> (same: bool)
        ensures
            same == (self@ == other@),
    {
        self.slots == other.slots && same_flags(&self.keys, &other.keys) && same_infos(
            &self.abs,
            &other.abs,
        ) && same_flags(&self.switches, &other.switches) && same_flags(&self.leds, &other.leds)
            && same_values(&self.slot_values, &other.slot_values)
    }

    /// Whether a key is down.
    pub fn key_pressed(&self, code: u16) -> (pressed: bool)
        requires
            self@.wf(),
        ensures
            pressed == self@.pressed_keys().contains(code),
    {
        (code as usize) < KEY_COUNT && self.keys[code as usize]
    }

    /// The keys that are down, by ascending code.
    pub fn pressed_keys(&self) -> (codes: Vec<u16>)
        requires
            self@.wf(),
        ensures
            forall|c: u16| codes@.contains(c) <==> self@.pressed_keys().contains(c),
            forall|j: int, k: int| 0 <= j < k < codes.len() ==> codes@[j] < codes@[k],
    {
        set_codes(&self.keys)
    }

    /// Whether a switch is on.
    pub fn switch_active(&self, code: u16) -> (active: bool)
        requires
            self@.wf(),
        ensures
            active == self@.active_switches().contains(code),
    {
        (code as usize) < SWITCH_COUNT && self.switches[code as usize]
    }

    /// The switches that are on, by ascending code.
    pub fn active_switches(&self) -> (codes: Vec<u16>)
        requires
            self@.wf(),
        ensures
            forall|c: u16| codes@.contains(c) <==> self@.active_switches().contains(c),
            forall|j: int, k: int| 0 <= j < k < codes.len() ==> codes@[j] < codes@[k],
    {
        set_codes(&self.switches)
    }

    /// Whether an LED is lit.
    pub fn led_lit(&self, code: u16) -> (lit: bool)
        requires
            self@.wf(),
        ensures
            lit == self@.lit_leds().contains(code),
    {
        (code as usize) < LED_COUNT && self.leds[code as usize]
    }

    /// The LEDs that are lit, by ascending code.
    pub fn lit_leds(&self) -> (codes: Vec<u16>)
        requires
            self@.wf(),
        ensures
            forall|c: u16| codes@.contains(c) <==> self@.lit_leds().contains(c),
            forall|j: int, k: int| 0 <= j < k < codes.len() ==> codes@[j] < codes@[k],
    {
        set_codes(&self.leds)
    }

    /// What is known of an absolute axis, if the code names one. On a device
    /// with slots the value of a slot-scoped axis reads 0 here: it is kept
    /// per slot.
    pub fn axis(&self, code: u16) -> (info: Option<AbsInfo>)
        requires
            self@.wf(),
        ensures
            info == (if code < ABS_COUNT {
                Some(self@.abs[code as int])
            } else {
                None
            }),
    {
        if (code as usize) < ABS_COUNT {
            Some(self.abs[code as usize])
        } else {
            None
        }
    }

    /// The number of multitouch slots.
    pub fn slot_count(&self) -> (n: usize)
        ensures
            n == self@.slots,
    {
        self.slots
    }

    /// The slot that the device last selected. The value is kept as the
    /// device sent it and need not name a slot.
    pub fn current_slot(&self) -> (slot: i32)
        requires
            self@.wf(),
        ensures
            slot == self@.current_slot(),
    {
        self.abs[ABS_MT_SLOT as usize].value
    }

    /// The value that a slot holds for a slot-scoped axis, if there is such
    /// a slot and such an axis.
    pub fn slot_value(&self, slot: usize, code: u16) -> (value: Option<i32>)
        requires
            self@.wf(),
        ensures
            value == (if slot < self@.slots && ABS_MT_FIRST <= code <= ABS_MT_LAST {
                Some(self@.slot_value(slot as int, code as int))
            } else {
                None
            }),
    {
        if slot < self.slots && ABS_MT_FIRST <= code && code <= ABS_MT_LAST {
            Some(self.slot_values[slot * MT_COUNT + (code - ABS_MT_FIRST) as usize])
        } else {
            None
        }
    }

    /// Records a key as down or up.
    pub fn set_key(&mut self, code: u16, pressed: bool)
        requires
            old(self)@.wf(),
        ensures
            final(self)@ == old(self)@.set_key(code, pressed),
            final(self)@.wf(),
    {
        if (code as usize) < KEY_COUNT {
            self.keys.set(code as usize, pressed);
        }
    }

    /// Records a switch as on or off.
    pub fn set_switch(&mut self, code: u16, active: bool)
        requires
            old(self)@.wf(),
        ensures
            final(self)@ == old(self)@.set_switch(code, active),
            final(self)@.wf(),
    {
        if (code as usize) < SWITCH_COUNT {
            self.switches.set(code as usize, active);
        }
    }

    /// Records an LED as lit or dark.
    pub fn set_led(&mut self, code: u16, lit: bool)
        requires
            old(self)@.wf(),
        ensures
            final(self)@ == old(self)@.set_led(code, lit),
            final(self)@.wf(),
    {
        if (code as usize) < LED_COUNT {
            self.leds.set(code as usize, lit);
        }
    }

    /// Records the value that one slot holds for one slot-scoped axis.
    pub fn set_slot_value(&mut self, slot: usize, code: u16, value: i32)
        requires
            old(self)@.wf(),
        ensures
            final(self)@ == old(self)@.set_slot_value(slot as int, code, value),
            final(self)@.wf(),
    {
        if slot < self.slots && ABS_MT_FIRST <= code && code <= ABS_MT_LAST {
            let at: usize = slot * MT_COUNT + (code - ABS_MT_FIRST) as usize;
            self.slot_values.set(at, value);
        }
    }

    /// Records the value that an absolute axis reported.
    pub fn set_axis(&mut self, code: u16, value: i32)
        requires
            old(self)@.wf(),
        ensures
            final(self)@ == old(self)@.set_axis(code, value),
            final(self)@.wf(),
    {
        if (code as usize) < ABS_COUNT {
            if self.slots > 0 && ABS_MT_FIRST <= code && code <= ABS_MT_LAST {
                let selected: i32 = self.abs[ABS_MT_SLOT as usize].value;
                if 0 <= selected && (selected as usize) < self.slots {
                    self.set_slot_value(selected as usize, code, value);
                }
            } else {
                let info = self.abs[code as usize];
                self.abs.set(
                    code as usize,
                    AbsInfo::new(
                        value,
                        info.minimum,
                        info.maximum,
                        info.fuzz,
                        info.flat,
                        info.resolution,
                    ),
                );
            }
        }
    }

    /// Replaces what is known of an absolute axis: its calibration, and its
    /// value unless that belongs to the slots.
    pub fn set_axis_info(&mut self, code: u16, info: AbsInfo)
        requires
            old(self)@.wf(),
        ensures
            final(self)@ == old(self)@.set_axis_info(code, info),
            final(self)@.wf(),
    {
        if (code as usize) < ABS_COUNT {
            if self.slots > 0 && ABS_MT_FIRST <= code && code <= ABS_MT_LAST {
                self.abs.set(
                    code as usize,
                    AbsInfo::new(
                        0,
                        info.minimum,
                        info.maximum,
                        info.fuzz,
                        info.flat,
                        info.resolution,
                    ),
                );
            } else {
                self.abs.set(code as usize, info);
            }
        }
    }

    /// Updates the cache by one event. Nothing is checked against the
    /// device's capabilities, and no event is refused.
    pub fn apply(&mut self, ev: &InputEvent)
        requires
            old(self)@.wf(),
        ensures
            final(self)@ == old(self)@.apply(*ev),
            final(self)@.wf(),
    {
        match ev {
            InputEvent::Key(e) => self.set_key(e.0.code, e.0.value != 0),
            InputEvent::AbsAxis(e) => self.set_axis(e.0.code, e.0.value),
            InputEvent::Switch(e) => self.set_switch(e.0.code, e.0.value != 0),
            InputEvent::Led(e) => self.set_led(e.0.code, e.0.value != 0),
            _ => {},
        }
    }

    /// The corrective batch from the state `old` to the state `new` of a
    /// device of capabilities `caps`: for every supported code whose state
    /// differs, one event that carries the new state; keys first, then
    /// absolute axes, then switches, then LEDs, each by ascending code; and
    /// the synchronization report at the end.
    pub fn diff(old: &Self, new: &Self, caps: &Capabilities) -> (events: Vec<InputEvent>)
        requires
            old@.wf(),
            new@.wf(),
            caps@.wf(),
        ensures
            events@ == diff_events(old@, new@, caps@),
    {
        let mut out: Vec<InputEvent> = Vec::new();
        push_flag_changes(&mut out, &old.keys, &new.keys, caps.key_flags(), EV_KEY);
        push_axis_changes(&mut out, &old.abs, &new.abs, caps.axis_flags(), new.slots);
        let len: usize = if old.slot_values.len() <= new.slot_values.len() {
            old.slot_values.len()
        } else {
            new.slot_values.len()
        };
        let selected: i32 = old.abs[ABS_MT_SLOT as usize].value;
        let left: i32 = push_slot_changes(
            &mut out,
            &old.slot_values,
            selected,
            &new.slot_values,
            caps.axis_flags(),
            len,
        );
        let wanted: i32 = new.abs[ABS_MT_SLOT as usize].value;
        if new.slots > 0 && left != wanted {
            out.push(InputEvent::new(EV_ABS, ABS_MT_SLOT, wanted));
        }
        assert(out@ =~= flag_changes(old@.keys, new@.keys, caps@.keys, EV_KEY, KEY_COUNT as int)
            + axis_changes(old@.abs, new@.abs, caps@.axes, new@.slots, ABS_COUNT as int)
            + slot_changes(
            old@.slot_values,
            old@.current_slot(),
            new@.slot_values,
            caps@.axes,
            comparable(old@, new@),
        ) + slot_selection(old@, new@, caps@));
        push_flag_changes(&mut out, &old.switches, &new.switches, caps.switch_flags(), EV_SW);
        push_flag_changes(&mut out, &old.leds, &new.leds, caps.led_flags(), EV_LED);
        out.push(InputEvent::new(EV_SYN, SYN_REPORT, 0));
        assert(out@ =~= diff_events(old@, new@, caps@));
        out
    }

    /// Updates the cache by the events of a batch, first to last.
    pub fn apply_all(&mut self, events: &Vec<InputEvent>)
        requires
            old(self)@.wf(),
        ensures
            final(self)@ == old(self)@.apply_all(events@),
            final(self)@.wf(),
    {
        let mut i: usize = 0;
        while i < events.len()
            invariant
                i <= events.len(),
                self@.wf(),
                self@ == old(self)@.apply_all(events@.take(i as int)),
            decreases events.len() - i,
        {
            self.apply(&events[i]);
            assert(events@.take(i + 1).drop_last() =~= events@.take(i as int));
            i = i + 1;
        }
        assert(events@.take(events.len() as int) =~= events@);
    }
}

} // verus!
