//! Event types, the code namespaces below them, and the sizes of the
//! namespaces whose state is cached.

use vstd::prelude::*;

verus! {

/// Synchronization events: they separate batches.
pub const EV_SYN: u16 = 0x00;
/// Keys and buttons.
pub const EV_KEY: u16 = 0x01;
/// Relative axes.
pub const EV_REL: u16 = 0x02;
/// Absolute axes.
pub const EV_ABS: u16 = 0x03;
/// Miscellaneous data.
pub const EV_MSC: u16 = 0x04;
/// Binary switches.
pub const EV_SW: u16 = 0x05;
/// LEDs.
pub const EV_LED: u16 = 0x11;
/// Sounds.
pub const EV_SND: u16 = 0x12;
/// Autorepeat settings.
pub const EV_REP: u16 = 0x14;
/// Force feedback.
pub const EV_FF: u16 = 0x15;
/// Power management.
pub const EV_PWR: u16 = 0x16;
/// Force-feedback status.
pub const EV_FF_STATUS: u16 = 0x17;
/// Requests of the user-level input driver.
pub const EV_UINPUT: u16 = 0x0101;

/// The synchronization code that closes a batch.
pub const SYN_REPORT: u16 = 0;
/// The synchronization code with which the kernel reports dropped events.
pub const SYN_DROPPED: u16 = 3;

/// The absolute axis that selects the multitouch slot.
pub const ABS_MT_SLOT: u16 = 0x2f;
/// The first absolute axis whose value belongs to the selected slot.
pub const ABS_MT_FIRST: u16 = 0x30;
/// The last absolute axis whose value belongs to the selected slot.
pub const ABS_MT_LAST: u16 = 0x3d;

/// Number of key codes.
pub const KEY_COUNT: usize = 0x300;
/// Number of absolute axis codes.
pub const ABS_COUNT: usize = 0x40;
/// Number of switch codes.
pub const SWITCH_COUNT: usize = 0x11;
/// Number of LED codes.
pub const LED_COUNT: usize = 0x10;
/// Number of axes that are kept per multitouch slot.
pub const MT_COUNT: usize = 14;
/// The largest number of multitouch slots that a cache holds.
pub const MAX_SLOTS: usize = 1024;

/// A synchronization code.
#[derive(Copy, Clone, Debug, PartialEq, Eq, Structural)]
pub struct SynchronizationType(pub u16);

/// A key or button code.
#[derive(Copy, Clone, Debug, PartialEq, Eq, Structural)]
pub struct KeyType(pub u16);

/// A relative axis code.
#[derive(Copy, Clone, Debug, PartialEq, Eq, Structural)]
pub struct RelAxisType(pub u16);

/// An absolute axis code.
#[derive(Copy, Clone, Debug, PartialEq, Eq, Structural)]
pub struct AbsAxisType(pub u16);

/// A miscellaneous code.
#[derive(Copy, Clone, Debug, PartialEq, Eq, Structural)]
pub struct MiscType(pub u16);

/// A switch code.
#[derive(Copy, Clone, Debug, PartialEq, Eq, Structural)]
pub struct SwitchType(pub u16);

/// An LED code.
#[derive(Copy, Clone, Debug, PartialEq, Eq, Structural)]
pub struct LedType(pub u16);

/// A sound code.
#[derive(Copy, Clone, Debug, PartialEq, Eq, Structural)]
pub struct SoundType(pub u16);

/// An autorepeat setting.
#[derive(Copy, Clone, Debug, PartialEq, Eq, Structural)]
pub struct RepeatType(pub u16);

/// A force-feedback effect code.
#[derive(Copy, Clone, Debug, PartialEq, Eq, Structural)]
pub struct FFType(pub u16);

/// A power-management code.
#[derive(Copy, Clone, Debug, PartialEq, Eq, Structural)]
pub struct PowerType(pub u16);

/// A force-feedback status code.
#[derive(Copy, Clone, Debug, PartialEq, Eq, Structural)]
pub struct FFStatusType(pub u16);

/// A request code of the user-level input driver.
#[derive(Copy, Clone, Debug, PartialEq, Eq, Structural)]
pub struct UInputType(pub u16);

/// A code of an event type that has no namespace of its own here.
#[derive(Copy, Clone, Debug, PartialEq, Eq, Structural)]
pub struct OtherType(pub u16);

} // verus!
