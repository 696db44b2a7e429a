//! What a device can report: the codes it supports in each cached namespace,
//! the calibration of its absolute axes and the number of its multitouch
//! slots.

use vstd::prelude::*;
use crate::absinfo::AbsInfo;
use crate::codes::{
    ABS_COUNT, ABS_MT_SLOT, KEY_COUNT, LED_COUNT, MAX_SLOTS, SWITCH_COUNT,
};

verus! {

/// The mathematical content of a [`Capabilities`]: one flag per code of each
/// namespace, the calibration per axis code and the slot count.
pub struct CapsView {
    pub keys: Seq<bool>,
    pub axes: Seq<bool>,
    pub axis_info: Seq<AbsInfo>,
    pub switches: Seq<bool>,
    pub leds: Seq<bool>,
    pub slots: nat,
}

impl CapsView {
    /// Every namespace has its full size, no more slots are claimed than a
    /// device can have, and a device with slots has the axis that selects one.
    pub open spec fn wf(self) -> bool {
        &&& self.keys.len() == KEY_COUNT
        &&& self.axes.len() == ABS_COUNT
        &&& self.axis_info.len() == ABS_COUNT
        &&& self.switches.len() == SWITCH_COUNT
        &&& self.leds.len() == LED_COUNT
        &&& self.slots <= MAX_SLOTS
        &&& self.slots > 0 ==> self.axes[ABS_MT_SLOT as int]
    }

    /// The capabilities of a device that supports nothing.
    pub open spec fn none() -> CapsView {
        CapsView {
            keys: Seq::new(KEY_COUNT as nat, |i: int| false),
            axes: Seq::new(ABS_COUNT as nat, |i: int| false),
            axis_info: Seq::new(ABS_COUNT as nat, |i: int| AbsInfo::zero()),
            switches: Seq::new(SWITCH_COUNT as nat, |i: int| false),
            leds: Seq::new(LED_COUNT as nat, |i: int| false),
            slots: 0,
        }
    }

    /// The number of slots that the calibration of the slot axis announces:
    /// one more than the axis's maximum, where the device has the axis and
    /// that is a number of slots a device can have; else none.
    pub open spec fn announced_slots(self) -> nat {
        let n = self.axis_info[ABS_MT_SLOT as int].maximum + 1;
        if self.axes[ABS_MT_SLOT as int] && 0 < n <= MAX_SLOTS {
            n as nat
        } else {
            0
        }
    }

    /// Whether the device has this key.
    pub open spec fn has_key(self, code: u16) -> bool {
        code < self.keys.len() && self.keys[code as int]
    }

    /// Whether the device has this absolute axis.
    pub open spec fn has_axis(self, code: u16) -> bool {
        code < self.axes.len() && self.axes[code as int]
    }

    /// Whether the device has this switch.
    pub open spec fn has_switch(self, code: u16) -> bool {
        code < self.switches.len() && self.switches[code as int]
    }

    /// Whether the device has this LED.
    pub open spec fn has_led(self, code: u16) -> bool {
        code < self.leds.len() && self.leds[code as int]
    }
}

/// A vector of `n` copies of `x`.
pub(crate) fn filled<T: Copy>(x: T, n: usize) -> (v: Vec<T>)
    ensures
        v@ == Seq::new(n as nat, |i: int| x),
{
    let mut v: Vec<T> = Vec::new();
    let mut i: usize = 0;
    while i < n
        invariant
            i <= n,
            v@ == Seq::new(i as nat, |j: int| x),
        decreases n - i,
    {
        v.push(x);
        i = i + 1;
    }
    v
}

/// The static description of a device, asked for once when it is opened.
#[derive(Debug, PartialEq, Eq)]
pub struct Capabilities {
    keys: Vec<bool>,
    axes: Vec<bool>,
    axis_info: Vec<AbsInfo>,
    switches: Vec<bool>,
    leds: Vec<bool>,
    slots: usize,
}

impl View for Capabilities {
    type V = CapsView;

    closed spec fn view(&self) -> CapsView {
        CapsView {
            keys: self.keys@,
            axes: self.axes@,
            axis_info: self.axis_info@,
            switches: self.switches@,
            leds: self.leds@,
            slots: self.slots as nat,
        }
    }
}

impl Capabilities {
    /// The description of a device that supports nothing yet.
    pub fn new() -> (caps: Self)
        ensures
            caps@ == CapsView::none(),
            caps@.wf(),
    {
        Capabilities {
            keys: filled(false, KEY_COUNT),
            axes: filled(false, ABS_COUNT),
            axis_info: filled(AbsInfo::new(0, 0, 0, 0, 0, 0), ABS_COUNT),
            switches: filled(false, SWITCH_COUNT),
            leds: filled(false, LED_COUNT),
            slots: 0,
        }
    }

    /// Marks a key code as supported. A code outside the namespace is refused
    /// and changes nothing.
    pub fn add_key(&mut self, code: u16) -> (added: bool)
        requires
            old(self)@.wf(),
        ensures
            final(self)@.wf(),
            added == (code < KEY_COUNT),
            added ==> final(self)@ == (CapsView {
                keys: old(self)@.keys.update(code as int, true),
                ..old(self)@
            }),
            !added ==> final(self)@ == old(self)@,
    {
        if (code as usize) < KEY_COUNT {
            self.keys.set(code as usize, true);
            true
        } else {
            false
        }
    }

    /// Marks an absolute axis as supported, with its calibration. A code
    /// outside the namespace is refused and changes nothing.
    pub fn add_axis(&mut self, code: u16, info: AbsInfo) -> (added: bool)
        requires
            old(self)@.wf(),
        ensures
            final(self)@.wf(),
            added == (code < ABS_COUNT),
            added ==> final(self)@ == (CapsView {
                axes: old(self)@.axes.update(code as int, true),
                axis_info: old(self)@.axis_info.update(code as int, info),
                ..old(self)@
            }),
            !added ==> final(self)@ == old(self)@,
    {
        if (code as usize) < ABS_COUNT {
            self.axes.set(code as usize, true);
            self.axis_info.set(code as usize, info);
            true
        } else {
            false
        }
    }

    /// Marks a switch code as supported. A code outside the namespace is
    /// refused and changes nothing.
    pub fn add_switch(&mut self, code: u16) -> (added: bool)
        requires
            old(self)@.wf(),
        ensures
            final(self)@.wf(),
            added == (code < SWITCH_COUNT),
            added ==> final(self)@ == (CapsView {
                switches: old(self)@.switches.update(code as int, true),
                ..old(self)@
            }),
            !added ==> final(self)@ == old(self)@,
    {
        if (code as usize) < SWITCH_COUNT {
            self.switches.set(code as usize, true);
            true
        } else {
            false
        }
    }

    /// Marks an LED code as supported. A code outside the namespace is
    /// refused and changes nothing.
    pub fn add_led(&mut self, code: u16) -> (added: bool)
        requires
            old(self)@.wf(),
        ensures
            final(self)@.wf(),
            added == (code < LED_COUNT),
            added ==> final(self)@ == (CapsView {
                leds: old(self)@.leds.update(code as int, true),
                ..old(self)@
            }),
            !added ==> final(self)@ == old(self)@,
    {
        if (code as usize) < LED_COUNT {
            self.leds.set(code as usize, true);
            true
        } else {
            false
        }
    }

    /// Sets the number of multitouch slots. More slots than a device can have
    /// are refused, and so are slots on a device without the axis that
    /// selects one; a refusal changes nothing.
    pub fn set_slots(&mut self, slots: usize) -> (set: bool)
        requires
            old(self)@.wf(),
        ensures
            final(self)@.wf(),
            set == (slots <= MAX_SLOTS && (slots > 0 ==> old(self)@.has_axis(ABS_MT_SLOT))),
            set ==> final(self)@ == (CapsView { slots: slots as nat, ..old(self)@ }),
            !set ==> final(self)@ == old(self)@,
    {
        if slots <= MAX_SLOTS && (slots == 0 || self.axes[ABS_MT_SLOT as usize]) {
            self.slots = slots;
            true
        } else {
            false
        }
    }

    /// Sets the number of multitouch slots to what the slot axis announces,
    /// and returns it.
    pub fn detect_slots(&mut self) -> (slots: usize)
        requires
            old(self)@.wf(),
        ensures
            final(self)@.wf(),
            slots == old(self)@.announced_slots(),
            final(self)@ == (CapsView { slots: slots as nat, ..old(self)@ }),
    {
        let n: i64 = self.axis_info[ABS_MT_SLOT as usize].maximum as i64 + 1;
        if self.axes[ABS_MT_SLOT as usize] && 0 < n && n <= MAX_SLOTS as i64 {
            self.slots = n as usize;
        } else {
            self.slots = 0;
        }
        self.slots
    }

    /// Whether the device has this key.
    pub fn supports_key(&self, code: u16) -> (b: bool)
        requires
            self@.wf(),
        ensures
            b == self@.has_key(code),
    {
        (code as usize) < KEY_COUNT && self.keys[code as usize]
    }

    /// The calibration of an absolute axis, if the device has the axis.
    pub fn axis(&self, code: u16) -> (info: Option<AbsInfo>)
        requires
            self@.wf(),
        ensures
            info == (if self@.has_axis(code) {
                Some(self@.axis_info[code as int])
            } else {
                None
            }),
    {
        if (code as usize) < ABS_COUNT && self.axes[code as usize] {
            Some(self.axis_info[code as usize])
        } else {
            None
        }
    }

    /// Whether the device has this switch.
    pub fn supports_switch(&self, code: u16) -> (b: bool)
        requires
            self@.wf(),
        ensures
            b == self@.has_switch(code),
    {
        (code as usize) < SWITCH_COUNT && self.switches[code as usize]
    }

    /// Whether the device has this LED.
    pub fn supports_led(&self, code: u16) -> (b: bool)
        requires
            self@.wf(),
        ensures
            b == self@.has_led(code),
    {
        (code as usize) < LED_COUNT && self.leds[code as usize]
    }

    /// The support flags of the key codes, by code.
    pub fn key_flags(&self) -> (flags: &Vec<bool>)
        ensures
            flags@ == self@.keys,
    {
        &self.keys
    }

    /// The support flags of the absolute axes, by code.
    pub fn axis_flags(&self) -> (flags: &Vec<bool>)
        ensures
            flags@ == self@.axes,
    {
        &self.axes
    }

    /// The support flags of the switch codes, by code.
    pub fn switch_flags(&self) -> (flags: &Vec<bool>)
        ensures
            flags@ == self@.switches,
    {
        &self.switches
    }

    /// The support flags of the LED codes, by code.
    pub fn led_flags(&self) -> (flags: &Vec<bool>)
        ensures
            flags@ == self@.leds,
    {
        &self.leds
    }

    /// The calibration recorded for an axis code, supported or not.
    pub(crate) fn axis_info(&self, code: u16) -> (info: AbsInfo)
        requires
            self@.wf(),
            code < ABS_COUNT,
        ensures
            info == self@.axis_info[code as int],
    {
        self.axis_info[code as usize]
    }

    /// The number of multitouch slots.
    pub fn slots(&self) -> (n: usize)
        ensures
            n == self@.slots,
            self@.wf() ==> n <= MAX_SLOTS,
    {
        self.slots
    }
}

} // verus!
