//! The waveform libraries of the device and the effects they hold.

use vstd::prelude::*;

verus! {

/// One of the waveform libraries in the device's memory. Libraries `A` to `F`
/// are tuned for non-resonant actuators of different rated voltages and rise
/// times; `Lra` is the one for resonant actuators.
#[derive(Clone, Copy, Debug, PartialEq, Eq, Structural)]
pub enum Library {
    Empty,
    A,
    B,
    C,
    D,
    E,
    Lra,
    F,
}

impl Library {
    /// The number that selects the library in the library selection register.
    pub open spec fn spec_code(self) -> u8 {
        match self {
            Library::Empty => 0,
            Library::A => 1,
            Library::B => 2,
            Library::C => 3,
            Library::D => 4,
            Library::E => 5,
            Library::Lra => 6,
            Library::F => 7,
        }
    }

    /// The number that selects the library in the library selection register.
    pub fn code(self) -> (code: u8)
        ensures
            code == self.spec_code(),
            code <= 7,
    {
        match self {
            Library::Empty => 0,
            Library::A => 1,
            Library::B => 2,
            Library::C => 3,
            Library::D => 4,
            Library::E => 5,
            Library::Lra => 6,
            Library::F => 7,
        }
    }
}

/// What the device does while it is out of standby, as the mode register
/// encodes it.
#[derive(Clone, Copy, Debug, PartialEq, Eq, Structural)]
pub enum DeviceMode {
    /// Waveforms start when the trigger bit is written.
    InternalTrigger,
    /// Waveforms start on a rising edge of the input pin.
    ExternalTriggerRisingEdge,
    /// Waveforms follow the level of the input pin.
    ExternalTriggerLevel,
    /// The input pin carries a PWM or an analog signal.
    PwmInputAndAnalogInput,
    /// The input pin carries audio.
    AudioToVibe,
    /// The amplitude is taken from the real-time playback register.
    RealTimePlayback,
    /// The trigger bit starts a diagnostic run.
    Diagnostics,
    /// The trigger bit starts a calibration run.
    AutoCalibration,
}

impl DeviceMode {
    /// The three-bit number that stands for the mode in the mode register.
    pub open spec fn spec_code(self) -> u8 {
        match self {
            DeviceMode::InternalTrigger => 0,
            DeviceMode::ExternalTriggerRisingEdge => 1,
            DeviceMode::ExternalTriggerLevel => 2,
            DeviceMode::PwmInputAndAnalogInput => 3,
            DeviceMode::AudioToVibe => 4,
            DeviceMode::RealTimePlayback => 5,
            DeviceMode::Diagnostics => 6,
            DeviceMode::AutoCalibration => 7,
        }
    }

    /// The three-bit number that stands for the mode in the mode register.
    pub fn code(self) -> (code: u8)
        ensures
            code == self.spec_code(),
            code <= 7,
    {
        match self {
            DeviceMode::InternalTrigger => 0,
            DeviceMode::ExternalTriggerRisingEdge => 1,
            DeviceMode::ExternalTriggerLevel => 2,
            DeviceMode::PwmInputAndAnalogInput => 3,
            DeviceMode::AudioToVibe => 4,
            DeviceMode::RealTimePlayback => 5,
            DeviceMode::Diagnostics => 6,
            DeviceMode::AutoCalibration => 7,
        }
    }
}

/// An entry of a waveform library. The number in a name is the strength of the
/// effect in percent.
#[derive(Clone, Copy, Debug, PartialEq, Eq, Structural)]
pub enum Effect {
    /// Ends a sequence: the device plays nothing from this slot on.
    Stop,
    StrongClick100,
    StrongClick60,
    StrongClick30,
    SharpClick100,
    SharpClick60,
    SharpClick30,
    SoftBump100,
    SoftBump60,
    SoftBump30,
    DoubleClick100,
    DoubleClick60,
    TripleClick100,
    SoftFuzz60,
    StrongBuzz100,
    Alert750ms,
    Alert1000ms,
    StrongClickOne100,
    StrongClickTwo80,
    StrongClickThree60,
    StrongClickFour30,
    MediumClickOne100,
    MediumClickTwo80,
    MediumClickThree60,
    SharpTickOne100,
    SharpTickTwo80,
    SharpTickThree60,
    ShortDoubleClickStrongOne100,
    ShortDoubleClickStrongTwo80,
    ShortDoubleClickStrongThree60,
    ShortDoubleClickStrongFour30,
    ShortDoubleClickMediumOne100,
    ShortDoubleClickMediumTwo80,
    ShortDoubleClickMediumThree60,
    ShortDoubleSharpTickOne100,
    ShortDoubleSharpTickTwo80,
    ShortDoubleSharpTickThree60,
    LongDoubleSharpClickStrongOne100,
    LongDoubleSharpClickStrongTwo80,
    LongDoubleSharpClickStrongThree60,
    LongDoubleSharpClickStrongFour30,
    LongDoubleSharpClickMediumOne100,
    LongDoubleSharpClickMediumTwo80,
    LongDoubleSharpClickMediumThree60,
    LongDoubleSharpTickOne100,
    LongDoubleSharpTickTwo80,
    LongDoubleSharpTickThree60,
    BuzzOne100,
    BuzzTwo80,
    BuzzThree60,
    BuzzFour40,
    BuzzFive20,
    PulsingStrongOne100,
    PulsingStrongTwo60,
    PulsingMediumOne100,
    PulsingMediumTwo60,
    PulsingSharpOne100,
    PulsingSharpTwo60,
    TransitionClickOne100,
    TransitionClickTwo80,
    TransitionClickThree60,
    TransitionClickFour40,
    TransitionClickFive20,
    TransitionClickSix10,
    TransitionHumOne100,
    TransitionHumTwo80,
    TransitionHumThree60,
    TransitionHumFour40,
    TransitionHumFive20,
    TransitionHumSix10,
    TransitionRampDownLongSmoothOne100to0,
    TransitionRampDownLongSmoothTwo100to0,
    TransitionRampDownMediumSmoothOne100to0,
    TransitionRampDownMediumSmoothTwo100to0,
    TransitionRampDownShortSmoothOne100to0,
    TransitionRampDownShortSmoothTwo100to0,
    TransitionRampDownLongSharpOne100to0,
    TransitionRampDownLongSharpTwo100to0,
    TransitionRampDownMediumSharpOne100to0,
    TransitionRampDownMediumSharpTwo100to0,
    TransitionRampDownShortSharpOne100to0,
    TransitionRampDownShortSharpTwo100to0,
    TransitionRampUpLongSmoothOne0to100,
    TransitionRampUpLongSmoothTwo0to100,
    TransitionRampUpMediumSmoothOne0to100,
    TransitionRampUpMediumSmoothTwo0to100,
    TransitionRampUpShortSmoothOne0to100,
    TransitionRampUpShortSmoothTwo0to100,
    TransitionRampUpLongSharpOne0to100,
    TransitionRampUpLongSharpTwo0to100,
    TransitionRampUpMediumSharpOne0to100,
    TransitionRampUpMediumSharpTwo0to100,
    TransitionRampUpShortSharpOne0to100,
    TransitionRampUpShortSharpTwo0to100,
    TransitionRampDownLongSmoothOne50to0,
    TransitionRampDownLongSmoothTwo50to0,
    TransitionRampDownMediumSmoothOne50to0,
    TransitionRampDownMediumSmoothTwo50to0,
    TransitionRampDownShortSmoothOne50to0,
    TransitionRampDownShortSmoothTwo50to0,
    TransitionRampDownLongSharpOne50to0,
    TransitionRampDownLongSharpTwo50to0,
    TransitionRampDownMediumSharpOne50to0,
    TransitionRampDownMediumSharpTwo50to0,
    TransitionRampDownShortSharpOne50to0,
    TransitionRampDownShortSharpTwo50to0,
    TransitionRampUpLongSmoothOne0to50,
    TransitionRampUpLongSmoothTwo0to50,
    TransitionRampUpMediumSmoothOne0to50,
    TransitionRampUpMediumSmoothTwo0to50,
    TransitionRampUpShortSmoothOne0to50,
    TransitionRampUpShortSmoothTwo0to50,
    TransitionRampUpLongSharpOne0to50,
    TransitionRampUpLongSharpTwo0to50,
    TransitionRampUpMediumSharpOne0to50,
    TransitionRampUpMediumSharpTwo0to50,
    TransitionRampUpShortSharpOne0to50,
    TransitionRampUpShortSharpTwo0to50,
    LongBuzzForProgrammaticStopping100,
    SmoothHumOne50,
    SmoothHumTwo40,
    SmoothHumThree30,
    SmoothHumFour20,
    SmoothHumFive10,
}

impl Effect {
    /// The identifier of the effect in the waveform sequence registers: the
    /// effects are numbered in the order of the library, and 0 ends a sequence.
    pub open spec fn spec_id(self) -> u8 {
        match self {
            Effect::Stop => 0,
            Effect::StrongClick100 => 1,
            Effect::StrongClick60 => 2,
            Effect::StrongClick30 => 3,
            Effect::SharpClick100 => 4,
            Effect::SharpClick60 => 5,
            Effect::SharpClick30 => 6,
            Effect::SoftBump100 => 7,
            Effect::SoftBump60 => 8,
            Effect::SoftBump30 => 9,
            Effect::DoubleClick100 => 10,
            Effect::DoubleClick60 => 11,
            Effect::TripleClick100 => 12,
            Effect::SoftFuzz60 => 13,
            Effect::StrongBuzz100 => 14,
            Effect::Alert750ms => 15,
            Effect::Alert1000ms => 16,
            Effect::StrongClickOne100 => 17,
            Effect::StrongClickTwo80 => 18,
            Effect::StrongClickThree60 => 19,
            Effect::StrongClickFour30 => 20,
            Effect::MediumClickOne100 => 21,
            Effect::MediumClickTwo80 => 22,
            Effect::MediumClickThree60 => 23,
            Effect::SharpTickOne100 => 24,
            Effect::SharpTickTwo80 => 25,
            Effect::SharpTickThree60 => 26,
            Effect::ShortDoubleClickStrongOne100 => 27,
            Effect::ShortDoubleClickStrongTwo80 => 28,
            Effect::ShortDoubleClickStrongThree60 => 29,
            Effect::ShortDoubleClickStrongFour30 => 30,
            Effect::ShortDoubleClickMediumOne100 => 31,
            Effect::ShortDoubleClickMediumTwo80 => 32,
            Effect::ShortDoubleClickMediumThree60 => 33,
            Effect::ShortDoubleSharpTickOne100 => 34,
            Effect::ShortDoubleSharpTickTwo80 => 35,
            Effect::ShortDoubleSharpTickThree60 => 36,
            Effect::LongDoubleSharpClickStrongOne100 => 37,
            Effect::LongDoubleSharpClickStrongTwo80 => 38,
            Effect::LongDoubleSharpClickStrongThree60 => 39,
            Effect::LongDoubleSharpClickStrongFour30 => 40,
            Effect::LongDoubleSharpClickMediumOne100 => 41,
            Effect::LongDoubleSharpClickMediumTwo80 => 42,
            Effect::LongDoubleSharpClickMediumThree60 => 43,
            Effect::LongDoubleSharpTickOne100 => 44,
            Effect::LongDoubleSharpTickTwo80 => 45,
            Effect::LongDoubleSharpTickThree60 => 46,
            Effect::BuzzOne100 => 47,
            Effect::BuzzTwo80 => 48,
            Effect::BuzzThree60 => 49,
            Effect::BuzzFour40 => 50,
            Effect::BuzzFive20 => 51,
            Effect::PulsingStrongOne100 => 52,
            Effect::PulsingStrongTwo60 => 53,
            Effect::PulsingMediumOne100 => 54,
            Effect::PulsingMediumTwo60 => 55,
            Effect::PulsingSharpOne100 => 56,
            Effect::PulsingSharpTwo60 => 57,
            Effect::TransitionClickOne100 => 58,
            Effect::TransitionClickTwo80 => 59,
            Effect::TransitionClickThree60 => 60,
            Effect::TransitionClickFour40 => 61,
            Effect::TransitionClickFive20 => 62,
            Effect::TransitionClickSix10 => 63,
            Effect::TransitionHumOne100 => 64,
            Effect::TransitionHumTwo80 => 65,
            Effect::TransitionHumThree60 => 66,
            Effect::TransitionHumFour40 => 67,
            Effect::TransitionHumFive20 => 68,
            Effect::TransitionHumSix10 => 69,
            Effect::TransitionRampDownLongSmoothOne100to0 => 70,
            Effect::TransitionRampDownLongSmoothTwo100to0 => 71,
            Effect::TransitionRampDownMediumSmoothOne100to0 => 72,
            Effect::TransitionRampDownMediumSmoothTwo100to0 => 73,
            Effect::TransitionRampDownShortSmoothOne100to0 => 74,
            Effect::TransitionRampDownShortSmoothTwo100to0 => 75,
            Effect::TransitionRampDownLongSharpOne100to0 => 76,
            Effect::TransitionRampDownLongSharpTwo100to0 => 77,
            Effect::TransitionRampDownMediumSharpOne100to0 => 78,
            Effect::TransitionRampDownMediumSharpTwo100to0 => 79,
            Effect::TransitionRampDownShortSharpOne100to0 => 80,
            Effect::TransitionRampDownShortSharpTwo100to0 => 81,
            Effect::TransitionRampUpLongSmoothOne0to100 => 82,
            Effect::TransitionRampUpLongSmoothTwo0to100 => 83,
            Effect::TransitionRampUpMediumSmoothOne0to100 => 84,
            Effect::TransitionRampUpMediumSmoothTwo0to100 => 85,
            Effect::TransitionRampUpShortSmoothOne0to100 => 86,
            Effect::TransitionRampUpShortSmoothTwo0to100 => 87,
            Effect::TransitionRampUpLongSharpOne0to100 => 88,
            Effect::TransitionRampUpLongSharpTwo0to100 => 89,
            Effect::TransitionRampUpMediumSharpOne0to100 => 90,
            Effect::TransitionRampUpMediumSharpTwo0to100 => 91,
            Effect::TransitionRampUpShortSharpOne0to100 => 92,
            Effect::TransitionRampUpShortSharpTwo0to100 => 93,
            Effect::TransitionRampDownLongSmoothOne50to0 => 94,
            Effect::TransitionRampDownLongSmoothTwo50to0 => 95,
            Effect::TransitionRampDownMediumSmoothOne50to0 => 96,
            Effect::TransitionRampDownMediumSmoothTwo50to0 => 97,
            Effect::TransitionRampDownShortSmoothOne50to0 => 98,
            Effect::TransitionRampDownShortSmoothTwo50to0 => 99,
            Effect::TransitionRampDownLongSharpOne50to0 => 100,
            Effect::TransitionRampDownLongSharpTwo50to0 => 101,
            Effect::TransitionRampDownMediumSharpOne50to0 => 102,
            Effect::TransitionRampDownMediumSharpTwo50to0 => 103,
            Effect::TransitionRampDownShortSharpOne50to0 => 104,
            Effect::TransitionRampDownShortSharpTwo50to0 => 105,
            Effect::TransitionRampUpLongSmoothOne0to50 => 106,
            Effect::TransitionRampUpLongSmoothTwo0to50 => 107,
            Effect::TransitionRampUpMediumSmoothOne0to50 => 108,
            Effect::TransitionRampUpMediumSmoothTwo0to50 => 109,
            Effect::TransitionRampUpShortSmoothOne0to50 => 110,
            Effect::TransitionRampUpShortSmoothTwo0to50 => 111,
            Effect::TransitionRampUpLongSharpOne0to50 => 112,
            Effect::TransitionRampUpLongSharpTwo0to50 => 113,
            Effect::TransitionRampUpMediumSharpOne0to50 => 114,
            Effect::TransitionRampUpMediumSharpTwo0to50 => 115,
            Effect::TransitionRampUpShortSharpOne0to50 => 116,
            Effect::TransitionRampUpShortSharpTwo0to50 => 117,
            Effect::LongBuzzForProgrammaticStopping100 => 118,
            Effect::SmoothHumOne50 => 119,
            Effect::SmoothHumTwo40 => 120,
            Effect::SmoothHumThree30 => 121,
            Effect::SmoothHumFour20 => 122,
            Effect::SmoothHumFive10 => 123,
        }
    }

    /// The identifier of the effect in the waveform sequence registers. It
    /// fits the seven bits that a sequence slot has for it.
    pub fn id(self) -> (id: u8)
        ensures
            id == self.spec_id(),
            id <= 123,
            id == 0 <==> self == Effect::Stop,
    {
        match self {
            Effect::Stop => 0,
            Effect::StrongClick100 => 1,
            Effect::StrongClick60 => 2,
            Effect::StrongClick30 => 3,
            Effect::SharpClick100 => 4,
            Effect::SharpClick60 => 5,
            Effect::SharpClick30 => 6,
            Effect::SoftBump100 => 7,
            Effect::SoftBump60 => 8,
            Effect::SoftBump30 => 9,
            Effect::DoubleClick100 => 10,
            Effect::DoubleClick60 => 11,
            Effect::TripleClick100 => 12,
            Effect::SoftFuzz60 => 13,
            Effect::StrongBuzz100 => 14,
            Effect::Alert750ms => 15,
            Effect::Alert1000ms => 16,
            Effect::StrongClickOne100 => 17,
            Effect::StrongClickTwo80 => 18,
            Effect::StrongClickThree60 => 19,
            Effect::StrongClickFour30 => 20,
            Effect::MediumClickOne100 => 21,
            Effect::MediumClickTwo80 => 22,
            Effect::MediumClickThree60 => 23,
            Effect::SharpTickOne100 => 24,
            Effect::SharpTickTwo80 => 25,
            Effect::SharpTickThree60 => 26,
            Effect::ShortDoubleClickStrongOne100 => 27,
            Effect::ShortDoubleClickStrongTwo80 => 28,
            Effect::ShortDoubleClickStrongThree60 => 29,
            Effect::ShortDoubleClickStrongFour30 => 30,
            Effect::ShortDoubleClickMediumOne100 => 31,
            Effect::ShortDoubleClickMediumTwo80 => 32,
            Effect::ShortDoubleClickMediumThree60 => 33,
            Effect::ShortDoubleSharpTickOne100 => 34,
            Effect::ShortDoubleSharpTickTwo80 => 35,
            Effect::ShortDoubleSharpTickThree60 => 36,
            Effect::LongDoubleSharpClickStrongOne100 => 37,
            Effect::LongDoubleSharpClickStrongTwo80 => 38,
            Effect::LongDoubleSharpClickStrongThree60 => 39,
            Effect::LongDoubleSharpClickStrongFour30 => 40,
            Effect::LongDoubleSharpClickMediumOne100 => 41,
            Effect::LongDoubleSharpClickMediumTwo80 => 42,
            Effect::LongDoubleSharpClickMediumThree60 => 43,
            Effect::LongDoubleSharpTickOne100 => 44,
            Effect::LongDoubleSharpTickTwo80 => 45,
            Effect::LongDoubleSharpTickThree60 => 46,
            Effect::BuzzOne100 => 47,
            Effect::BuzzTwo80 => 48,
            Effect::BuzzThree60 => 49,
            Effect::BuzzFour40 => 50,
            Effect::BuzzFive20 => 51,
            Effect::PulsingStrongOne100 => 52,
            Effect::PulsingStrongTwo60 => 53,
            Effect::PulsingMediumOne100 => 54,
            Effect::PulsingMediumTwo60 => 55,
            Effect::PulsingSharpOne100 => 56,
            Effect::PulsingSharpTwo60 => 57,
            Effect::TransitionClickOne100 => 58,
            Effect::TransitionClickTwo80 => 59,
            Effect::TransitionClickThree60 => 60,
            Effect::TransitionClickFour40 => 61,
            Effect::TransitionClickFive20 => 62,
            Effect::TransitionClickSix10 => 63,
            Effect::TransitionHumOne100 => 64,
            Effect::TransitionHumTwo80 => 65,
            Effect::TransitionHumThree60 => 66,
            Effect::TransitionHumFour40 => 67,
            Effect::TransitionHumFive20 => 68,
            Effect::TransitionHumSix10 => 69,
            Effect::TransitionRampDownLongSmoothOne100to0 => 70,
            Effect::TransitionRampDownLongSmoothTwo100to0 => 71,
            Effect::TransitionRampDownMediumSmoothOne100to0 => 72,
            Effect::TransitionRampDownMediumSmoothTwo100to0 => 73,
            Effect::TransitionRampDownShortSmoothOne100to0 => 74,
            Effect::TransitionRampDownShortSmoothTwo100to0 => 75,
            Effect::TransitionRampDownLongSharpOne100to0 => 76,
            Effect::TransitionRampDownLongSharpTwo100to0 => 77,
            Effect::TransitionRampDownMediumSharpOne100to0 => 78,
            Effect::TransitionRampDownMediumSharpTwo100to0 => 79,
            Effect::TransitionRampDownShortSharpOne100to0 => 80,
            Effect::TransitionRampDownShortSharpTwo100to0 => 81,
            Effect::TransitionRampUpLongSmoothOne0to100 => 82,
            Effect::TransitionRampUpLongSmoothTwo0to100 => 83,
            Effect::TransitionRampUpMediumSmoothOne0to100 => 84,
            Effect::TransitionRampUpMediumSmoothTwo0to100 => 85,
            Effect::TransitionRampUpShortSmoothOne0to100 => 86,
            Effect::TransitionRampUpShortSmoothTwo0to100 => 87,
            Effect::TransitionRampUpLongSharpOne0to100 => 88,
            Effect::TransitionRampUpLongSharpTwo0to100 => 89,
            Effect::TransitionRampUpMediumSharpOne0to100 => 90,
            Effect::TransitionRampUpMediumSharpTwo0to100 => 91,
            Effect::TransitionRampUpShortSharpOne0to100 => 92,
            Effect::TransitionRampUpShortSharpTwo0to100 => 93,
            Effect::TransitionRampDownLongSmoothOne50to0 => 94,
            Effect::TransitionRampDownLongSmoothTwo50to0 => 95,
            Effect::TransitionRampDownMediumSmoothOne50to0 => 96,
            Effect::TransitionRampDownMediumSmoothTwo50to0 => 97,
            Effect::TransitionRampDownShortSmoothOne50to0 => 98,
            Effect::TransitionRampDownShortSmoothTwo50to0 => 99,
            Effect::TransitionRampDownLongSharpOne50to0 => 100,
            Effect::TransitionRampDownLongSharpTwo50to0 => 101,
            Effect::TransitionRampDownMediumSharpOne50to0 => 102,
            Effect::TransitionRampDownMediumSharpTwo50to0 => 103,
            Effect::TransitionRampDownShortSharpOne50to0 => 104,
            Effect::TransitionRampDownShortSharpTwo50to0 => 105,
            Effect::TransitionRampUpLongSmoothOne0to50 => 106,
            Effect::TransitionRampUpLongSmoothTwo0to50 => 107,
            Effect::TransitionRampUpMediumSmoothOne0to50 => 108,
            Effect::TransitionRampUpMediumSmoothTwo0to50 => 109,
            Effect::TransitionRampUpShortSmoothOne0to50 => 110,
            Effect::TransitionRampUpShortSmoothTwo0to50 => 111,
            Effect::TransitionRampUpLongSharpOne0to50 => 112,
            Effect::TransitionRampUpLongSharpTwo0to50 => 113,
            Effect::TransitionRampUpMediumSharpOne0to50 => 114,
            Effect::TransitionRampUpMediumSharpTwo0to50 => 115,
            Effect::TransitionRampUpShortSharpOne0to50 => 116,
            Effect::TransitionRampUpShortSharpTwo0to50 => 117,
            Effect::LongBuzzForProgrammaticStopping100 => 118,
            Effect::SmoothHumOne50 => 119,
            Effect::SmoothHumTwo40 => 120,
            Effect::SmoothHumThree30 => 121,
            Effect::SmoothHumFour20 => 122,
            Effect::SmoothHumFive10 => 123,
        }
    }
}

} // verus!
