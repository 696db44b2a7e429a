//! Calibration data of absolute axes.

use vstd::prelude::*;
use crate::codes::AbsAxisType;

verus! {

/// The state and calibration of one absolute axis: its current value and the
/// range, noise filter, dead zone and resolution the driver reports for it.
#[derive(Copy, Clone, Debug, PartialEq, Eq, Structural)]
pub struct AbsInfo {
    pub value: i32,
    pub minimum: i32,
    pub maximum: i32,
    pub fuzz: i32,
    pub flat: i32,
    pub resolution: i32,
}

impl AbsInfo {
    /// Creates an `AbsInfo` from its six fields, stored as given.
    pub fn new(
        value: i32,
        minimum: i32,
        maximum: i32,
        fuzz: i32,
        flat: i32,
        resolution: i32,
    ) -> (info: Self)
        ensures
            info == (AbsInfo { value, minimum, maximum, fuzz, flat, resolution }),
    {
        AbsInfo { value, minimum, maximum, fuzz, flat, resolution }
    }

    #[inline]
    pub fn value(&self) -> (v: i32)
        ensures
            v == self.value,
    {
        self.value
    }

    #[inline]
    pub fn minimum(&self) -> (v: i32)
        ensures
            v == self.minimum,
    {
        self.minimum
    }

    #[inline]
    pub fn maximum(&self) -> (v: i32)
        ensures
            v == self.maximum,
    {
        self.maximum
    }

    #[inline]
    pub fn fuzz(&self) -> (v: i32)
        ensures
            v == self.fuzz,
    {
        self.fuzz
    }

    #[inline]
    pub fn flat(&self) -> (v: i32)
        ensures
            v == self.flat,
    {
        self.flat
    }

    #[inline]
    pub fn resolution(&self) -> (v: i32)
        ensures
            v == self.resolution,
    {
        self.resolution
    }

    /// The info of an axis about which nothing is known.
    pub open spec fn zero() -> AbsInfo {
        AbsInfo { value: 0, minimum: 0, maximum: 0, fuzz: 0, flat: 0, resolution: 0 }
    }

    /// The same calibration with another current value.
    pub open spec fn with_value(self, value: i32) -> AbsInfo {
        AbsInfo { value, ..self }
    }

    /// Whether two infos agree in everything but the current value.
    pub open spec fn same_calibration(self, other: AbsInfo) -> bool {
        self.with_value(0) == other.with_value(0)
    }
}

/// What sets up one absolute axis of a virtual device: the axis's code and
/// its calibration.
#[derive(Copy, Clone, Debug, PartialEq, Eq, Structural)]
pub struct UinputAbsSetup {
    pub code: u16,
    pub absinfo: AbsInfo,
}

impl UinputAbsSetup {
    /// The setup of the given axis with the given calibration.
    pub fn new(code: AbsAxisType, absinfo: AbsInfo) -> (setup: Self)
        ensures
            setup == (UinputAbsSetup { code: code.0, absinfo }),
    {
        UinputAbsSetup { code: code.0, absinfo }
    }

    #[inline]
    pub fn code(&self) -> (c: u16)
        ensures
            c == self.code,
    {
        self.code
    }

    #[inline]
    pub fn absinfo(&self) -> (info: AbsInfo)
        ensures
            info == self.absinfo,
    {
        self.absinfo
    }
}

/// The error of parsing the name of an event code that does not exist.
#[derive(Copy, Clone, Debug, PartialEq, Eq)]
pub struct EnumParseError;

} // verus!
