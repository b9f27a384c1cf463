//! The presenter's vibration motor.

use vstd::prelude::*;
use crate::device::report::hidpp20_short;

verus! {

/// Feature number of the presenter control.
pub const FEATURE_ID: u16 = 0x1a00;

/// Duration of a vibration pulse in the firmware's units.
#[derive(Clone, Copy, Debug, PartialEq, Eq, Structural)]
pub struct PresenterVibrationLength(u8);

impl View for PresenterVibrationLength {
    type V = u8;

    closed spec fn view(&self) -> u8 {
        self.0
    }
}

impl PresenterVibrationLength {
    /// Longest duration the firmware accepts.
    pub const MAX: u8 = 10;

    #[verifier::type_invariant]
    spec fn in_range(self) -> bool {
        self.0 <= 10
    }

    /// The duration `value`, when the firmware accepts it.
    pub fn new(value: u8) -> (length: Option<PresenterVibrationLength>)
        ensures
            match length {
                Some(l) => value <= Self::MAX && l@ == value,
                None => value > Self::MAX,
            },
    {
        if value <= Self::MAX {
            Some(PresenterVibrationLength(value))
        } else {
            None
        }
    }

    /// The wire value.
    pub fn get(self) -> (value: u8)
        ensures
            value == self@,
            value <= Self::MAX,
    {
        proof {
            use_type_invariant(&self);
        }
        self.0
    }
}

/// Vibration intensity as the firmware takes it.
#[derive(Clone, Copy, Debug, PartialEq, Eq, Structural)]
pub struct PresenterVibrationIntensity(u8);

impl View for PresenterVibrationIntensity {
    type V = u8;

    closed spec fn view(&self) -> u8 {
        self.0
    }
}

impl PresenterVibrationIntensity {
    /// The intensity with this wire value.
    pub fn new(value: u8) -> (intensity: PresenterVibrationIntensity)
        ensures
            intensity@ == value,
    {
        PresenterVibrationIntensity(value)
    }

    /// The wire value.
    pub fn get(self) -> (value: u8)
        ensures
            value == self@,
    {
        self.0
    }
}

/// The presenter control of one device.
#[derive(Clone, Copy, Debug, PartialEq, Eq, Structural)]
pub struct PresenterControlFeature {
    /// Index of the device.
    pub device_index: u8,
    /// Where the device keeps the feature.
    pub feature_index: u8,
}

impl PresenterControlFeature {
    /// The call that gives one vibration pulse.
    pub fn vibrate(
        &self,
        length: PresenterVibrationLength,
        intensity: PresenterVibrationIntensity,
    ) -> (report: Vec<u8>)
        ensures
            report@ == seq![
                0x10u8,
                self.device_index,
                self.feature_index,
                0x10u8,
                length@,
                0xe8u8,
                intensity@,
            ],
    {
        let report = hidpp20_short(
            self.device_index,
            self.feature_index,
            1,
            [length.get(), 0xe8, intensity.get()],
        );
        assert(report@ =~= seq![
            0x10u8,
            self.device_index,
            self.feature_index,
            0x10u8,
            length@,
            0xe8u8,
            intensity@,
        ]);
        report
    }
}

} // verus!
