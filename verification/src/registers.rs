//! The register map of the device. Each register is one byte at a fixed
//! address and has a type of its own, which names the bit fields that the
//! byte holds.
//!
//! A register value is made from a byte with `new` and turned back into it with
//! `value`; both keep every bit. A getter reads one field, a setter replaces one
//! field and leaves the rest of the byte alone. A setter cuts the value it is
//! given to the width of the field; whether a value makes sense for the motor
//! is for the caller to know.

use vstd::prelude::*;
use crate::bits::{
    field,
    flag,
    get_field,
    lemma_layout,
    lemma_rewrite,
    lemma_rewrite_flag,
    same_outside,
    set_field,
    spec_flag,
    with_field,
};

verus! {

/// Status: the device identifier and the fault flags. The device never takes
/// a write to it, so it has no setters.
#[derive(Clone, Copy, Debug, PartialEq, Eq, Structural)]
pub struct StatusReg(pub u8);

impl StatusReg {
    /// Where the register lies on the device.
    pub const ADDRESS: u8 = 0x00;

    /// The register holding `byte`.
    pub fn new(byte: u8) -> (reg: Self)
        ensures
            reg.0 == byte,
    {
        StatusReg(byte)
    }

    /// The byte that the register holds.
    pub fn value(&self) -> (byte: u8)
        ensures
            byte == self.0,
    {
        self.0
    }

    /// The device identifier, bits 7 to 5.
    pub open spec fn spec_device_id(self) -> u8 {
        field(self.0, 5, 0x07)
    }

    /// Reads the device identifier.
    pub fn device_id(&self) -> (value: u8)
        ensures
            value == self.spec_device_id(),
            value <= 0x07,
    {
        get_field(self.0, 5, 0x07)
    }

    /// The outcome of the last diagnostic or calibration run, bit 3: set when it
    /// failed.
    pub open spec fn spec_diagnostic_result(self) -> bool {
        field(self.0, 3, 0x01) == 1
    }

    /// Reads the outcome of the last diagnostic or calibration run.
    pub fn diagnostic_result(&self) -> (on: bool)
        ensures
            on == self.spec_diagnostic_result(),
    {
        get_field(self.0, 3, 0x01) == 1
    }

    /// The over-temperature flag, bit 1.
    pub open spec fn spec_over_temp(self) -> bool {
        field(self.0, 1, 0x01) == 1
    }

    /// Reads the over-temperature flag.
    pub fn over_temp(&self) -> (on: bool)
        ensures
            on == self.spec_over_temp(),
    {
        get_field(self.0, 1, 0x01) == 1
    }

    /// The over-current flag, bit 0.
    pub open spec fn spec_oc_detect(self) -> bool {
        field(self.0, 0, 0x01) == 1
    }

    /// Reads the over-current flag.
    pub fn oc_detect(&self) -> (on: bool)
        ensures
            on == self.spec_oc_detect(),
    {
        get_field(self.0, 0, 0x01) == 1
    }

    /// A byte that is unpacked into this register and packed again is the same
    /// byte.
    pub proof fn lemma_round_trip(byte: u8)
        ensures
            StatusReg(byte).0 == byte,
    {
    }
}

/// Mode: reset, standby and the operating mode.
#[derive(Clone, Copy, Debug, PartialEq, Eq, Structural)]
pub struct ModeReg(pub u8);

impl ModeReg {
    /// Where the register lies on the device.
    pub const ADDRESS: u8 = 0x01;

    /// The register holding `byte`.
    pub fn new(byte: u8) -> (reg: Self)
        ensures
            reg.0 == byte,
    {
        ModeReg(byte)
    }

    /// The byte that the register holds.
    pub fn value(&self) -> (byte: u8)
        ensures
            byte == self.0,
    {
        self.0
    }

    /// The reset request, bit 7.
    pub open spec fn spec_dev_reset(self) -> bool {
        field(self.0, 7, 0x01) == 1
    }

    /// Reads the reset request.
    pub fn dev_reset(&self) -> (on: bool)
        ensures
            on == self.spec_dev_reset(),
    {
        get_field(self.0, 7, 0x01) == 1
    }

    /// The register with the reset request set or cleared.
    pub open spec fn with_dev_reset(self, on: bool) -> Self {
        ModeReg(with_field(self.0, 7, 0x01, spec_flag(on)))
    }

    /// Sets or clears the reset request; no other bit changes.
    pub fn set_dev_reset(&mut self, on: bool)
        ensures
            *final(self) == old(self).with_dev_reset(on),
            final(self).spec_dev_reset() == on,
            same_outside(old(self).0, final(self).0, 0x80),
    {
        proof {
            lemma_layout();
        }
        self.0 = set_field(self.0, 7, 0x01, flag(on));
    }

    /// The standby flag, bit 6.
    pub open spec fn spec_standby(self) -> bool {
        field(self.0, 6, 0x01) == 1
    }

    /// Reads the standby flag.
    pub fn standby(&self) -> (on: bool)
        ensures
            on == self.spec_standby(),
    {
        get_field(self.0, 6, 0x01) == 1
    }

    /// The register with the standby flag set or cleared.
    pub open spec fn with_standby(self, on: bool) -> Self {
        ModeReg(with_field(self.0, 6, 0x01, spec_flag(on)))
    }

    /// Sets or clears the standby flag; no other bit changes.
    pub fn set_standby(&mut self, on: bool)
        ensures
            *final(self) == old(self).with_standby(on),
            final(self).spec_standby() == on,
            same_outside(old(self).0, final(self).0, 0x40),
    {
        proof {
            lemma_layout();
        }
        self.0 = set_field(self.0, 6, 0x01, flag(on));
    }

    /// The operating mode, bits 2 to 0.
    pub open spec fn spec_mode(self) -> u8 {
        field(self.0, 0, 0x07)
    }

    /// Reads the operating mode.
    pub fn mode(&self) -> (value: u8)
        ensures
            value == self.spec_mode(),
            value <= 0x07,
    {
        get_field(self.0, 0, 0x07)
    }

    /// The register with the operating mode replaced by `value`, cut to the
    /// field's width.
    pub open spec fn with_mode(self, value: u8) -> Self {
        ModeReg(with_field(self.0, 0, 0x07, value))
    }

    /// Replaces the operating mode by `value`, cut to the field's width; no other
    /// bit changes.
    pub fn set_mode(&mut self, value: u8)
        ensures
            *final(self) == old(self).with_mode(value),
            final(self).spec_mode() == value & 0x07,
            value <= 0x07 ==> final(self).spec_mode() == value,
            same_outside(old(self).0, final(self).0, 0x07),
    {
        proof {
            lemma_layout();
        }
        self.0 = set_field(self.0, 0, 0x07, value);
    }

    /// A byte that is unpacked into this register and packed again is the same
    /// byte, and so is one in which a field was replaced by the value read from
    /// it.
    pub proof fn lemma_round_trip(byte: u8)
        ensures
            ModeReg(byte).0 == byte,
            ModeReg(byte).with_dev_reset(ModeReg(byte).spec_dev_reset()) == ModeReg(byte),
            ModeReg(byte).with_standby(ModeReg(byte).spec_standby()) == ModeReg(byte),
            ModeReg(byte).with_mode(ModeReg(byte).spec_mode()) == ModeReg(byte),
    {
        lemma_layout();
        lemma_rewrite_flag(byte, 7);
        lemma_rewrite_flag(byte, 6);
        lemma_rewrite(byte, 0, 0x07);
    }
}

impl Default for ModeReg {
    /// The value that the register holds after power-up.
    fn default() -> (reg: Self)
        ensures
            reg.0 == 0x40,
    {
        ModeReg(0x40)
    }
}

/// Real-time playback input: the amplitude that the device drives while in
/// real-time playback.
#[derive(Clone, Copy, Debug, PartialEq, Eq, Structural)]
pub struct RealTimePlaybackInputReg(pub u8);

impl RealTimePlaybackInputReg {
    /// Where the register lies on the device.
    pub const ADDRESS: u8 = 0x02;

    /// The register holding `byte`.
    pub fn new(byte: u8) -> (reg: Self)
        ensures
            reg.0 == byte,
    {
        RealTimePlaybackInputReg(byte)
    }

    /// The byte that the register holds.
    pub fn value(&self) -> (byte: u8)
        ensures
            byte == self.0,
    {
        self.0
    }

    /// A byte that is unpacked into this register and packed again is the same
    /// byte.
    pub proof fn lemma_round_trip(byte: u8)
        ensures
            RealTimePlaybackInputReg(byte).0 == byte,
    {
    }
}

impl Default for RealTimePlaybackInputReg {
    /// The value that the register holds after power-up.
    fn default() -> (reg: Self)
        ensures
            reg.0 == 0x00,
    {
        RealTimePlaybackInputReg(0x00)
    }
}

/// Library selection: the waveform library and the output's idle state.
#[derive(Clone, Copy, Debug, PartialEq, Eq, Structural)]
pub struct LibrarySelectionReg(pub u8);

impl LibrarySelectionReg {
    /// Where the register lies on the device.
    pub const ADDRESS: u8 = 0x03;

    /// The register holding `byte`.
    pub fn new(byte: u8) -> (reg: Self)
        ensures
            reg.0 == byte,
    {
        LibrarySelectionReg(byte)
    }

    /// The byte that the register holds.
    pub fn value(&self) -> (byte: u8)
        ensures
            byte == self.0,
    {
        self.0
    }

    /// The high-impedance flag, bit 4.
    pub open spec fn spec_hi_z(self) -> bool {
        field(self.0, 4, 0x01) == 1
    }

    /// Reads the high-impedance flag.
    pub fn hi_z(&self) -> (on: bool)
        ensures
            on == self.spec_hi_z(),
    {
        get_field(self.0, 4, 0x01) == 1
    }

    /// The register with the high-impedance flag set or cleared.
    pub open spec fn with_hi_z(self, on: bool) -> Self {
        LibrarySelectionReg(with_field(self.0, 4, 0x01, spec_flag(on)))
    }

    /// Sets or clears the high-impedance flag; no other bit changes.
    pub fn set_hi_z(&mut self, on: bool)
        ensures
            *final(self) == old(self).with_hi_z(on),
            final(self).spec_hi_z() == on,
            same_outside(old(self).0, final(self).0, 0x10),
    {
        proof {
            lemma_layout();
        }
        self.0 = set_field(self.0, 4, 0x01, flag(on));
    }

    /// The waveform library, bits 2 to 0.
    pub open spec fn spec_library_selection(self) -> u8 {
        field(self.0, 0, 0x07)
    }

    /// Reads the waveform library.
    pub fn library_selection(&self) -> (value: u8)
        ensures
            value == self.spec_library_selection(),
            value <= 0x07,
    {
        get_field(self.0, 0, 0x07)
    }

    /// The register with the waveform library replaced by `value`, cut to the
    /// field's width.
    pub open spec fn with_library_selection(self, value: u8) -> Self {
        LibrarySelectionReg(with_field(self.0, 0, 0x07, value))
    }

    /// Replaces the waveform library by `value`, cut to the field's width; no
    /// other bit changes.
    pub fn set_library_selection(&mut self, value: u8)
        ensures
            *final(self) == old(self).with_library_selection(value),
            final(self).spec_library_selection() == value & 0x07,
            value <= 0x07 ==> final(self).spec_library_selection() == value,
            same_outside(old(self).0, final(self).0, 0x07),
    {
        proof {
            lemma_layout();
        }
        self.0 = set_field(self.0, 0, 0x07, value);
    }

    /// A byte that is unpacked into this register and packed again is the same
    /// byte, and so is one in which a field was replaced by the value read from
    /// it.
    pub proof fn lemma_round_trip(byte: u8)
        ensures
            LibrarySelectionReg(byte).0 == byte,
            LibrarySelectionReg(byte).with_hi_z(LibrarySelectionReg(byte).spec_hi_z()) == LibrarySelectionReg(byte),
            LibrarySelectionReg(byte).with_library_selection(LibrarySelectionReg(byte).spec_library_selection()) == LibrarySelectionReg(byte),
    {
        lemma_layout();
        lemma_rewrite_flag(byte, 4);
        lemma_rewrite(byte, 0, 0x07);
    }
}

impl Default for LibrarySelectionReg {
    /// The value that the register holds after power-up.
    fn default() -> (reg: Self)
        ensures
            reg.0 == 0x01,
    {
        LibrarySelectionReg(0x01)
    }
}

/// The first of the eight waveform sequence slots, which lie at consecutive
/// addresses.
#[derive(Clone, Copy, Debug, PartialEq, Eq, Structural)]
pub struct Waveform0Reg(pub u8);

impl Waveform0Reg {
    /// Where the register lies on the device.
    pub const ADDRESS: u8 = 0x04;

    /// The register holding `byte`.
    pub fn new(byte: u8) -> (reg: Self)
        ensures
            reg.0 == byte,
    {
        Waveform0Reg(byte)
    }

    /// The byte that the register holds.
    pub fn value(&self) -> (byte: u8)
        ensures
            byte == self.0,
    {
        self.0
    }

    /// The wait flag, bit 7: the slot holds a delay instead of an effect.
    pub open spec fn spec_wait(self) -> bool {
        field(self.0, 7, 0x01) == 1
    }

    /// Reads the wait flag.
    pub fn wait(&self) -> (on: bool)
        ensures
            on == self.spec_wait(),
    {
        get_field(self.0, 7, 0x01) == 1
    }

    /// The register with the wait flag set or cleared.
    pub open spec fn with_wait(self, on: bool) -> Self {
        Waveform0Reg(with_field(self.0, 7, 0x01, spec_flag(on)))
    }

    /// Sets or clears the wait flag; no other bit changes.
    pub fn set_wait(&mut self, on: bool)
        ensures
            *final(self) == old(self).with_wait(on),
            final(self).spec_wait() == on,
            same_outside(old(self).0, final(self).0, 0x80),
    {
        proof {
            lemma_layout();
        }
        self.0 = set_field(self.0, 7, 0x01, flag(on));
    }

    /// The effect identifier or delay, bits 6 to 0.
    pub open spec fn spec_waveform_seq(self) -> u8 {
        field(self.0, 0, 0x7F)
    }

    /// Reads the effect identifier or delay.
    pub fn waveform_seq(&self) -> (value: u8)
        ensures
            value == self.spec_waveform_seq(),
            value <= 0x7F,
    {
        get_field(self.0, 0, 0x7F)
    }

    /// The register with the effect identifier or delay replaced by `value`, cut
    /// to the field's width.
    pub open spec fn with_waveform_seq(self, value: u8) -> Self {
        Waveform0Reg(with_field(self.0, 0, 0x7F, value))
    }

    /// Replaces the effect identifier or delay by `value`, cut to the field's
    /// width; no other bit changes.
    pub fn set_waveform_seq(&mut self, value: u8)
        ensures
            *final(self) == old(self).with_waveform_seq(value),
            final(self).spec_waveform_seq() == value & 0x7F,
            value <= 0x7F ==> final(self).spec_waveform_seq() == value,
            same_outside(old(self).0, final(self).0, 0x7F),
    {
        proof {
            lemma_layout();
        }
        self.0 = set_field(self.0, 0, 0x7F, value);
    }

    /// A byte that is unpacked into this register and packed again is the same
    /// byte, and so is one in which a field was replaced by the value read from
    /// it.
    pub proof fn lemma_round_trip(byte: u8)
        ensures
            Waveform0Reg(byte).0 == byte,
            Waveform0Reg(byte).with_wait(Waveform0Reg(byte).spec_wait()) == Waveform0Reg(byte),
            Waveform0Reg(byte).with_waveform_seq(Waveform0Reg(byte).spec_waveform_seq()) == Waveform0Reg(byte),
    {
        lemma_layout();
        lemma_rewrite_flag(byte, 7);
        lemma_rewrite(byte, 0, 0x7F);
    }
}

impl Default for Waveform0Reg {
    /// The value that the register holds after power-up.
    fn default() -> (reg: Self)
        ensures
            reg.0 == 0x01,
    {
        Waveform0Reg(0x01)
    }
}

/// Go: the trigger, which the device clears when the run ends.
#[derive(Clone, Copy, Debug, PartialEq, Eq, Structural)]
pub struct GoReg(pub u8);

impl GoReg {
    /// Where the register lies on the device.
    pub const ADDRESS: u8 = 0x0C;

    /// The register holding `byte`.
    pub fn new(byte: u8) -> (reg: Self)
        ensures
            reg.0 == byte,
    {
        GoReg(byte)
    }

    /// The byte that the register holds.
    pub fn value(&self) -> (byte: u8)
        ensures
            byte == self.0,
    {
        self.0
    }

    /// The trigger, bit 0.
    pub open spec fn spec_go(self) -> bool {
        field(self.0, 0, 0x01) == 1
    }

    /// Reads the trigger.
    pub fn go(&self) -> (on: bool)
        ensures
            on == self.spec_go(),
    {
        get_field(self.0, 0, 0x01) == 1
    }

    /// The register with the trigger set or cleared.
    pub open spec fn with_go(self, on: bool) -> Self {
        GoReg(with_field(self.0, 0, 0x01, spec_flag(on)))
    }

    /// Sets or clears the trigger; no other bit changes.
    pub fn set_go(&mut self, on: bool)
        ensures
            *final(self) == old(self).with_go(on),
            final(self).spec_go() == on,
            same_outside(old(self).0, final(self).0, 0x01),
    {
        proof {
            lemma_layout();
        }
        self.0 = set_field(self.0, 0, 0x01, flag(on));
    }

    /// A byte that is unpacked into this register and packed again is the same
    /// byte, and so is one in which a field was replaced by the value read from
    /// it.
    pub proof fn lemma_round_trip(byte: u8)
        ensures
            GoReg(byte).0 == byte,
            GoReg(byte).with_go(GoReg(byte).spec_go()) == GoReg(byte),
    {
        lemma_layout();
        lemma_rewrite_flag(byte, 0);
    }
}

impl Default for GoReg {
    /// The value that the register holds after power-up.
    fn default() -> (reg: Self)
        ensures
            reg.0 == 0x00,
    {
        GoReg(0x00)
    }
}

/// Overdrive time offset of library waveforms.
#[derive(Clone, Copy, Debug, PartialEq, Eq, Structural)]
pub struct OverdriveTimeOffsetReg(pub u8);

impl OverdriveTimeOffsetReg {
    /// Where the register lies on the device.
    pub const ADDRESS: u8 = 0x0D;

    /// The register holding `byte`.
    pub fn new(byte: u8) -> (reg: Self)
        ensures
            reg.0 == byte,
    {
        OverdriveTimeOffsetReg(byte)
    }

    /// The byte that the register holds.
    pub fn value(&self) -> (byte: u8)
        ensures
            byte == self.0,
    {
        self.0
    }

    /// A byte that is unpacked into this register and packed again is the same
    /// byte.
    pub proof fn lemma_round_trip(byte: u8)
        ensures
            OverdriveTimeOffsetReg(byte).0 == byte,
    {
    }
}

impl Default for OverdriveTimeOffsetReg {
    /// The value that the register holds after power-up.
    fn default() -> (reg: Self)
        ensures
            reg.0 == 0x00,
    {
        OverdriveTimeOffsetReg(0x00)
    }
}

/// Positive sustain time offset of library waveforms.
#[derive(Clone, Copy, Debug, PartialEq, Eq, Structural)]
pub struct SustainTimeOffsetPositiveReg(pub u8);

impl SustainTimeOffsetPositiveReg {
    /// Where the register lies on the device.
    pub const ADDRESS: u8 = 0x0E;

    /// The register holding `byte`.
    pub fn new(byte: u8) -> (reg: Self)
        ensures
            reg.0 == byte,
    {
        SustainTimeOffsetPositiveReg(byte)
    }

    /// The byte that the register holds.
    pub fn value(&self) -> (byte: u8)
        ensures
            byte == self.0,
    {
        self.0
    }

    /// A byte that is unpacked into this register and packed again is the same
    /// byte.
    pub proof fn lemma_round_trip(byte: u8)
        ensures
            SustainTimeOffsetPositiveReg(byte).0 == byte,
    {
    }
}

impl Default for SustainTimeOffsetPositiveReg {
    /// The value that the register holds after power-up.
    fn default() -> (reg: Self)
        ensures
            reg.0 == 0x00,
    {
        SustainTimeOffsetPositiveReg(0x00)
    }
}

/// Negative sustain time offset of library waveforms.
#[derive(Clone, Copy, Debug, PartialEq, Eq, Structural)]
pub struct SustainTimeOffsetNegativeReg(pub u8);

impl SustainTimeOffsetNegativeReg {
    /// Where the register lies on the device.
    pub const ADDRESS: u8 = 0x0F;

    /// The register holding `byte`.
    pub fn new(byte: u8) -> (reg: Self)
        ensures
            reg.0 == byte,
    {
        SustainTimeOffsetNegativeReg(byte)
    }

    /// The byte that the register holds.
    pub fn value(&self) -> (byte: u8)
        ensures
            byte == self.0,
    {
        self.0
    }

    /// A byte that is unpacked into this register and packed again is the same
    /// byte.
    pub proof fn lemma_round_trip(byte: u8)
        ensures
            SustainTimeOffsetNegativeReg(byte).0 == byte,
    {
    }
}

impl Default for SustainTimeOffsetNegativeReg {
    /// The value that the register holds after power-up.
    fn default() -> (reg: Self)
        ensures
            reg.0 == 0x00,
    {
        SustainTimeOffsetNegativeReg(0x00)
    }
}

/// Brake time offset of library waveforms.
#[derive(Clone, Copy, Debug, PartialEq, Eq, Structural)]
pub struct BrakeTimeOffsetReg(pub u8);

impl BrakeTimeOffsetReg {
    /// Where the register lies on the device.
    pub const ADDRESS: u8 = 0x10;

    /// The register holding `byte`.
    pub fn new(byte: u8) -> (reg: Self)
        ensures
            reg.0 == byte,
    {
        BrakeTimeOffsetReg(byte)
    }

    /// The byte that the register holds.
    pub fn value(&self) -> (byte: u8)
        ensures
            byte == self.0,
    {
        self.0
    }

    /// A byte that is unpacked into this register and packed again is the same
    /// byte.
    pub proof fn lemma_round_trip(byte: u8)
        ensures
            BrakeTimeOffsetReg(byte).0 == byte,
    {
    }
}

impl Default for BrakeTimeOffsetReg {
    /// The value that the register holds after power-up.
    fn default() -> (reg: Self)
        ensures
            reg.0 == 0x00,
    {
        BrakeTimeOffsetReg(0x00)
    }
}

/// Rated voltage of the motor.
#[derive(Clone, Copy, Debug, PartialEq, Eq, Structural)]
pub struct RatedVoltageReg(pub u8);

impl RatedVoltageReg {
    /// Where the register lies on the device.
    pub const ADDRESS: u8 = 0x16;

    /// The register holding `byte`.
    pub fn new(byte: u8) -> (reg: Self)
        ensures
            reg.0 == byte,
    {
        RatedVoltageReg(byte)
    }

    /// The byte that the register holds.
    pub fn value(&self) -> (byte: u8)
        ensures
            byte == self.0,
    {
        self.0
    }

    /// A byte that is unpacked into this register and packed again is the same
    /// byte.
    pub proof fn lemma_round_trip(byte: u8)
        ensures
            RatedVoltageReg(byte).0 == byte,
    {
    }
}

impl Default for RatedVoltageReg {
    /// The value that the register holds after power-up.
    fn default() -> (reg: Self)
        ensures
            reg.0 == 0x3E,
    {
        RatedVoltageReg(0x3E)
    }
}

/// Overdrive clamp voltage.
#[derive(Clone, Copy, Debug, PartialEq, Eq, Structural)]
pub struct OverdriveClampReg(pub u8);

impl OverdriveClampReg {
    /// Where the register lies on the device.
    pub const ADDRESS: u8 = 0x17;

    /// The register holding `byte`.
    pub fn new(byte: u8) -> (reg: Self)
        ensures
            reg.0 == byte,
    {
        OverdriveClampReg(byte)
    }

    /// The byte that the register holds.
    pub fn value(&self) -> (byte: u8)
        ensures
            byte == self.0,
    {
        self.0
    }

    /// A byte that is unpacked into this register and packed again is the same
    /// byte.
    pub proof fn lemma_round_trip(byte: u8)
        ensures
            OverdriveClampReg(byte).0 == byte,
    {
    }
}

impl Default for OverdriveClampReg {
    /// The value that the register holds after power-up.
    fn default() -> (reg: Self)
        ensures
            reg.0 == 0x8C,
    {
        OverdriveClampReg(0x8C)
    }
}

/// Calibration result: the compensation for resistive losses.
#[derive(Clone, Copy, Debug, PartialEq, Eq, Structural)]
pub struct AutoCalibrationCompensationReg(pub u8);

impl AutoCalibrationCompensationReg {
    /// Where the register lies on the device.
    pub const ADDRESS: u8 = 0x18;

    /// The register holding `byte`.
    pub fn new(byte: u8) -> (reg: Self)
        ensures
            reg.0 == byte,
    {
        AutoCalibrationCompensationReg(byte)
    }

    /// The byte that the register holds.
    pub fn value(&self) -> (byte: u8)
        ensures
            byte == self.0,
    {
        self.0
    }

    /// A byte that is unpacked into this register and packed again is the same
    /// byte.
    pub proof fn lemma_round_trip(byte: u8)
        ensures
            AutoCalibrationCompensationReg(byte).0 == byte,
    {
    }
}

impl Default for AutoCalibrationCompensationReg {
    /// The value that the register holds after power-up.
    fn default() -> (reg: Self)
        ensures
            reg.0 == 0x0C,
    {
        AutoCalibrationCompensationReg(0x0C)
    }
}

/// Calibration result: the back-EMF of the motor.
#[derive(Clone, Copy, Debug, PartialEq, Eq, Structural)]
pub struct AutoCalibrationCompensationBackEmfReg(pub u8);

impl AutoCalibrationCompensationBackEmfReg {
    /// Where the register lies on the device.
    pub const ADDRESS: u8 = 0x19;

    /// The register holding `byte`.
    pub fn new(byte: u8) -> (reg: Self)
        ensures
            reg.0 == byte,
    {
        AutoCalibrationCompensationBackEmfReg(byte)
    }

    /// The byte that the register holds.
    pub fn value(&self) -> (byte: u8)
        ensures
            byte == self.0,
    {
        self.0
    }

    /// A byte that is unpacked into this register and packed again is the same
    /// byte.
    pub proof fn lemma_round_trip(byte: u8)
        ensures
            AutoCalibrationCompensationBackEmfReg(byte).0 == byte,
    {
    }
}

impl Default for AutoCalibrationCompensationBackEmfReg {
    /// The value that the register holds after power-up.
    fn default() -> (reg: Self)
        ensures
            reg.0 == 0x6C,
    {
        AutoCalibrationCompensationBackEmfReg(0x6C)
    }
}

/// Feedback control: the actuator type and the loop parameters.
#[derive(Clone, Copy, Debug, PartialEq, Eq, Structural)]
pub struct FeedbackControlReg(pub u8);

impl FeedbackControlReg {
    /// Where the register lies on the device.
    pub const ADDRESS: u8 = 0x1A;

    /// The register holding `byte`.
    pub fn new(byte: u8) -> (reg: Self)
        ensures
            reg.0 == byte,
    {
        FeedbackControlReg(byte)
    }

    /// The byte that the register holds.
    pub fn value(&self) -> (byte: u8)
        ensures
            byte == self.0,
    {
        self.0
    }

    /// The actuator type, bit 7: set for a resonant actuator.
    pub open spec fn spec_n_erm_lra(self) -> bool {
        field(self.0, 7, 0x01) == 1
    }

    /// Reads the actuator type.
    pub fn n_erm_lra(&self) -> (on: bool)
        ensures
            on == self.spec_n_erm_lra(),
    {
        get_field(self.0, 7, 0x01) == 1
    }

    /// The register with the actuator type set or cleared.
    pub open spec fn with_n_erm_lra(self, on: bool) -> Self {
        FeedbackControlReg(with_field(self.0, 7, 0x01, spec_flag(on)))
    }

    /// Sets or clears the actuator type; no other bit changes.
    pub fn set_n_erm_lra(&mut self, on: bool)
        ensures
            *final(self) == old(self).with_n_erm_lra(on),
            final(self).spec_n_erm_lra() == on,
            same_outside(old(self).0, final(self).0, 0x80),
    {
        proof {
            lemma_layout();
        }
        self.0 = set_field(self.0, 7, 0x01, flag(on));
    }

    /// The brake factor, bits 6 to 4.
    pub open spec fn spec_fb_brake_factor(self) -> u8 {
        field(self.0, 4, 0x07)
    }

    /// Reads the brake factor.
    pub fn fb_brake_factor(&self) -> (value: u8)
        ensures
            value == self.spec_fb_brake_factor(),
            value <= 0x07,
    {
        get_field(self.0, 4, 0x07)
    }

    /// The register with the brake factor replaced by `value`, cut to the field's
    /// width.
    pub open spec fn with_fb_brake_factor(self, value: u8) -> Self {
        FeedbackControlReg(with_field(self.0, 4, 0x07, value))
    }

    /// Replaces the brake factor by `value`, cut to the field's width; no other
    /// bit changes.
    pub fn set_fb_brake_factor(&mut self, value: u8)
        ensures
            *final(self) == old(self).with_fb_brake_factor(value),
            final(self).spec_fb_brake_factor() == value & 0x07,
            value <= 0x07 ==> final(self).spec_fb_brake_factor() == value,
            same_outside(old(self).0, final(self).0, 0x70),
    {
        proof {
            lemma_layout();
        }
        self.0 = set_field(self.0, 4, 0x07, value);
    }

    /// The loop gain, bits 3 and 2.
    pub open spec fn spec_loop_gain(self) -> u8 {
        field(self.0, 2, 0x03)
    }

    /// Reads the loop gain.
    pub fn loop_gain(&self) -> (value: u8)
        ensures
            value == self.spec_loop_gain(),
            value <= 0x03,
    {
        get_field(self.0, 2, 0x03)
    }

    /// The register with the loop gain replaced by `value`, cut to the field's
    /// width.
    pub open spec fn with_loop_gain(self, value: u8) -> Self {
        FeedbackControlReg(with_field(self.0, 2, 0x03, value))
    }

    /// Replaces the loop gain by `value`, cut to the field's width; no other bit
    /// changes.
    pub fn set_loop_gain(&mut self, value: u8)
        ensures
            *final(self) == old(self).with_loop_gain(value),
            final(self).spec_loop_gain() == value & 0x03,
            value <= 0x03 ==> final(self).spec_loop_gain() == value,
            same_outside(old(self).0, final(self).0, 0x0C),
    {
        proof {
            lemma_layout();
        }
        self.0 = set_field(self.0, 2, 0x03, value);
    }

    /// The back-EMF gain, bits 1 and 0.
    pub open spec fn spec_bemf_gain(self) -> u8 {
        field(self.0, 0, 0x03)
    }

    /// Reads the back-EMF gain.
    pub fn bemf_gain(&self) -> (value: u8)
        ensures
            value == self.spec_bemf_gain(),
            value <= 0x03,
    {
        get_field(self.0, 0, 0x03)
    }

    /// The register with the back-EMF gain replaced by `value`, cut to the
    /// field's width.
    pub open spec fn with_bemf_gain(self, value: u8) -> Self {
        FeedbackControlReg(with_field(self.0, 0, 0x03, value))
    }

    /// Replaces the back-EMF gain by `value`, cut to the field's width; no other
    /// bit changes.
    pub fn set_bemf_gain(&mut self, value: u8)
        ensures
            *final(self) == old(self).with_bemf_gain(value),
            final(self).spec_bemf_gain() == value & 0x03,
            value <= 0x03 ==> final(self).spec_bemf_gain() == value,
            same_outside(old(self).0, final(self).0, 0x03),
    {
        proof {
            lemma_layout();
        }
        self.0 = set_field(self.0, 0, 0x03, value);
    }

    /// A byte that is unpacked into this register and packed again is the same
    /// byte, and so is one in which a field was replaced by the value read from
    /// it.
    pub proof fn lemma_round_trip(byte: u8)
        ensures
            FeedbackControlReg(byte).0 == byte,
            FeedbackControlReg(byte).with_n_erm_lra(FeedbackControlReg(byte).spec_n_erm_lra()) == FeedbackControlReg(byte),
            FeedbackControlReg(byte).with_fb_brake_factor(FeedbackControlReg(byte).spec_fb_brake_factor()) == FeedbackControlReg(byte),
            FeedbackControlReg(byte).with_loop_gain(FeedbackControlReg(byte).spec_loop_gain()) == FeedbackControlReg(byte),
            FeedbackControlReg(byte).with_bemf_gain(FeedbackControlReg(byte).spec_bemf_gain()) == FeedbackControlReg(byte),
    {
        lemma_layout();
        lemma_rewrite_flag(byte, 7);
        lemma_rewrite(byte, 4, 0x07);
        lemma_rewrite(byte, 2, 0x03);
        lemma_rewrite(byte, 0, 0x03);
    }
}

impl Default for FeedbackControlReg {
    /// The value that the register holds after power-up.
    fn default() -> (reg: Self)
        ensures
            reg.0 == 0x36,
    {
        FeedbackControlReg(0x36)
    }
}

/// Control 1: startup boost, input coupling and drive time.
#[derive(Clone, Copy, Debug, PartialEq, Eq, Structural)]
pub struct Control1Reg(pub u8);

impl Control1Reg {
    /// Where the register lies on the device.
    pub const ADDRESS: u8 = 0x1B;

    /// The register holding `byte`.
    pub fn new(byte: u8) -> (reg: Self)
        ensures
            reg.0 == byte,
    {
        Control1Reg(byte)
    }

    /// The byte that the register holds.
    pub fn value(&self) -> (byte: u8)
        ensures
            byte == self.0,
    {
        self.0
    }

    /// The startup boost flag, bit 7.
    pub open spec fn spec_startup_boost(self) -> bool {
        field(self.0, 7, 0x01) == 1
    }

    /// Reads the startup boost flag.
    pub fn startup_boost(&self) -> (on: bool)
        ensures
            on == self.spec_startup_boost(),
    {
        get_field(self.0, 7, 0x01) == 1
    }

    /// The register with the startup boost flag set or cleared.
    pub open spec fn with_startup_boost(self, on: bool) -> Self {
        Control1Reg(with_field(self.0, 7, 0x01, spec_flag(on)))
    }

    /// Sets or clears the startup boost flag; no other bit changes.
    pub fn set_startup_boost(&mut self, on: bool)
        ensures
            *final(self) == old(self).with_startup_boost(on),
            final(self).spec_startup_boost() == on,
            same_outside(old(self).0, final(self).0, 0x80),
    {
        proof {
            lemma_layout();
        }
        self.0 = set_field(self.0, 7, 0x01, flag(on));
    }

    /// The AC coupling flag, bit 5.
    pub open spec fn spec_ac_couple(self) -> bool {
        field(self.0, 5, 0x01) == 1
    }

    /// Reads the AC coupling flag.
    pub fn ac_couple(&self) -> (on: bool)
        ensures
            on == self.spec_ac_couple(),
    {
        get_field(self.0, 5, 0x01) == 1
    }

    /// The register with the AC coupling flag set or cleared.
    pub open spec fn with_ac_couple(self, on: bool) -> Self {
        Control1Reg(with_field(self.0, 5, 0x01, spec_flag(on)))
    }

    /// Sets or clears the AC coupling flag; no other bit changes.
    pub fn set_ac_couple(&mut self, on: bool)
        ensures
            *final(self) == old(self).with_ac_couple(on),
            final(self).spec_ac_couple() == on,
            same_outside(old(self).0, final(self).0, 0x20),
    {
        proof {
            lemma_layout();
        }
        self.0 = set_field(self.0, 5, 0x01, flag(on));
    }

    /// The drive time, bits 4 to 0.
    pub open spec fn spec_drive_time(self) -> u8 {
        field(self.0, 0, 0x1F)
    }

    /// Reads the drive time.
    pub fn drive_time(&self) -> (value: u8)
        ensures
            value == self.spec_drive_time(),
            value <= 0x1F,
    {
        get_field(self.0, 0, 0x1F)
    }

    /// The register with the drive time replaced by `value`, cut to the field's
    /// width.
    pub open spec fn with_drive_time(self, value: u8) -> Self {
        Control1Reg(with_field(self.0, 0, 0x1F, value))
    }

    /// Replaces the drive time by `value`, cut to the field's width; no other bit
    /// changes.
    pub fn set_drive_time(&mut self, value: u8)
        ensures
            *final(self) == old(self).with_drive_time(value),
            final(self).spec_drive_time() == value & 0x1F,
            value <= 0x1F ==> final(self).spec_drive_time() == value,
            same_outside(old(self).0, final(self).0, 0x1F),
    {
        proof {
            lemma_layout();
        }
        self.0 = set_field(self.0, 0, 0x1F, value);
    }

    /// A byte that is unpacked into this register and packed again is the same
    /// byte, and so is one in which a field was replaced by the value read from
    /// it.
    pub proof fn lemma_round_trip(byte: u8)
        ensures
            Control1Reg(byte).0 == byte,
            Control1Reg(byte).with_startup_boost(Control1Reg(byte).spec_startup_boost()) == Control1Reg(byte),
            Control1Reg(byte).with_ac_couple(Control1Reg(byte).spec_ac_couple()) == Control1Reg(byte),
            Control1Reg(byte).with_drive_time(Control1Reg(byte).spec_drive_time()) == Control1Reg(byte),
    {
        lemma_layout();
        lemma_rewrite_flag(byte, 7);
        lemma_rewrite_flag(byte, 5);
        lemma_rewrite(byte, 0, 0x1F);
    }
}

impl Default for Control1Reg {
    /// The value that the register holds after power-up.
    fn default() -> (reg: Self)
        ensures
            reg.0 == 0x93,
    {
        Control1Reg(0x93)
    }
}

/// Control 2: input direction, brake stabilizer and the resonance timing.
#[derive(Clone, Copy, Debug, PartialEq, Eq, Structural)]
pub struct Control2Reg(pub u8);

impl Control2Reg {
    /// Where the register lies on the device.
    pub const ADDRESS: u8 = 0x1C;

    /// The register holding `byte`.
    pub fn new(byte: u8) -> (reg: Self)
        ensures
            reg.0 == byte,
    {
        Control2Reg(byte)
    }

    /// The byte that the register holds.
    pub fn value(&self) -> (byte: u8)
        ensures
            byte == self.0,
    {
        self.0
    }

    /// The bidirectional input flag, bit 7.
    pub open spec fn spec_bidir_input(self) -> bool {
        field(self.0, 7, 0x01) == 1
    }

    /// Reads the bidirectional input flag.
    pub fn bidir_input(&self) -> (on: bool)
        ensures
            on == self.spec_bidir_input(),
    {
        get_field(self.0, 7, 0x01) == 1
    }

    /// The register with the bidirectional input flag set or cleared.
    pub open spec fn with_bidir_input(self, on: bool) -> Self {
        Control2Reg(with_field(self.0, 7, 0x01, spec_flag(on)))
    }

    /// Sets or clears the bidirectional input flag; no other bit changes.
    pub fn set_bidir_input(&mut self, on: bool)
        ensures
            *final(self) == old(self).with_bidir_input(on),
            final(self).spec_bidir_input() == on,
            same_outside(old(self).0, final(self).0, 0x80),
    {
        proof {
            lemma_layout();
        }
        self.0 = set_field(self.0, 7, 0x01, flag(on));
    }

    /// The brake stabilizer flag, bit 6.
    pub open spec fn spec_brake_stabilizer(self) -> bool {
        field(self.0, 6, 0x01) == 1
    }

    /// Reads the brake stabilizer flag.
    pub fn brake_stabilizer(&self) -> (on: bool)
        ensures
            on == self.spec_brake_stabilizer(),
    {
        get_field(self.0, 6, 0x01) == 1
    }

    /// The register with the brake stabilizer flag set or cleared.
    pub open spec fn with_brake_stabilizer(self, on: bool) -> Self {
        Control2Reg(with_field(self.0, 6, 0x01, spec_flag(on)))
    }

    /// Sets or clears the brake stabilizer flag; no other bit changes.
    pub fn set_brake_stabilizer(&mut self, on: bool)
        ensures
            *final(self) == old(self).with_brake_stabilizer(on),
            final(self).spec_brake_stabilizer() == on,
            same_outside(old(self).0, final(self).0, 0x40),
    {
        proof {
            lemma_layout();
        }
        self.0 = set_field(self.0, 6, 0x01, flag(on));
    }

    /// The sample time, bits 5 and 4.
    pub open spec fn spec_sample_time(self) -> u8 {
        field(self.0, 4, 0x03)
    }

    /// Reads the sample time.
    pub fn sample_time(&self) -> (value: u8)
        ensures
            value == self.spec_sample_time(),
            value <= 0x03,
    {
        get_field(self.0, 4, 0x03)
    }

    /// The register with the sample time replaced by `value`, cut to the field's
    /// width.
    pub open spec fn with_sample_time(self, value: u8) -> Self {
        Control2Reg(with_field(self.0, 4, 0x03, value))
    }

    /// Replaces the sample time by `value`, cut to the field's width; no other
    /// bit changes.
    pub fn set_sample_time(&mut self, value: u8)
        ensures
            *final(self) == old(self).with_sample_time(value),
            final(self).spec_sample_time() == value & 0x03,
            value <= 0x03 ==> final(self).spec_sample_time() == value,
            same_outside(old(self).0, final(self).0, 0x30),
    {
        proof {
            lemma_layout();
        }
        self.0 = set_field(self.0, 4, 0x03, value);
    }

    /// The blanking time, bits 3 and 2.
    pub open spec fn spec_blanking_time(self) -> u8 {
        field(self.0, 2, 0x03)
    }

    /// Reads the blanking time.
    pub fn blanking_time(&self) -> (value: u8)
        ensures
            value == self.spec_blanking_time(),
            value <= 0x03,
    {
        get_field(self.0, 2, 0x03)
    }

    /// The register with the blanking time replaced by `value`, cut to the
    /// field's width.
    pub open spec fn with_blanking_time(self, value: u8) -> Self {
        Control2Reg(with_field(self.0, 2, 0x03, value))
    }

    /// Replaces the blanking time by `value`, cut to the field's width; no other
    /// bit changes.
    pub fn set_blanking_time(&mut self, value: u8)
        ensures
            *final(self) == old(self).with_blanking_time(value),
            final(self).spec_blanking_time() == value & 0x03,
            value <= 0x03 ==> final(self).spec_blanking_time() == value,
            same_outside(old(self).0, final(self).0, 0x0C),
    {
        proof {
            lemma_layout();
        }
        self.0 = set_field(self.0, 2, 0x03, value);
    }

    /// The current dissipation time, bits 1 and 0.
    pub open spec fn spec_idiss_time(self) -> u8 {
        field(self.0, 0, 0x03)
    }

    /// Reads the current dissipation time.
    pub fn idiss_time(&self) -> (value: u8)
        ensures
            value == self.spec_idiss_time(),
            value <= 0x03,
    {
        get_field(self.0, 0, 0x03)
    }

    /// The register with the current dissipation time replaced by `value`, cut to
    /// the field's width.
    pub open spec fn with_idiss_time(self, value: u8) -> Self {
        Control2Reg(with_field(self.0, 0, 0x03, value))
    }

    /// Replaces the current dissipation time by `value`, cut to the field's
    /// width; no other bit changes.
    pub fn set_idiss_time(&mut self, value: u8)
        ensures
            *final(self) == old(self).with_idiss_time(value),
            final(self).spec_idiss_time() == value & 0x03,
            value <= 0x03 ==> final(self).spec_idiss_time() == value,
            same_outside(old(self).0, final(self).0, 0x03),
    {
        proof {
            lemma_layout();
        }
        self.0 = set_field(self.0, 0, 0x03, value);
    }

    /// A byte that is unpacked into this register and packed again is the same
    /// byte, and so is one in which a field was replaced by the value read from
    /// it.
    pub proof fn lemma_round_trip(byte: u8)
        ensures
            Control2Reg(byte).0 == byte,
            Control2Reg(byte).with_bidir_input(Control2Reg(byte).spec_bidir_input()) == Control2Reg(byte),
            Control2Reg(byte).with_brake_stabilizer(Control2Reg(byte).spec_brake_stabilizer()) == Control2Reg(byte),
            Control2Reg(byte).with_sample_time(Control2Reg(byte).spec_sample_time()) == Control2Reg(byte),
            Control2Reg(byte).with_blanking_time(Control2Reg(byte).spec_blanking_time()) == Control2Reg(byte),
            Control2Reg(byte).with_idiss_time(Control2Reg(byte).spec_idiss_time()) == Control2Reg(byte),
    {
        lemma_layout();
        lemma_rewrite_flag(byte, 7);
        lemma_rewrite_flag(byte, 6);
        lemma_rewrite(byte, 4, 0x03);
        lemma_rewrite(byte, 2, 0x03);
        lemma_rewrite(byte, 0, 0x03);
    }
}

impl Default for Control2Reg {
    /// The value that the register holds after power-up.
    fn default() -> (reg: Self)
        ensures
            reg.0 == 0xF5,
    {
        Control2Reg(0xF5)
    }
}

/// Control 3: loop selection and input formats.
#[derive(Clone, Copy, Debug, PartialEq, Eq, Structural)]
pub struct Control3Reg(pub u8);

impl Control3Reg {
    /// Where the register lies on the device.
    pub const ADDRESS: u8 = 0x1D;

    /// The register holding `byte`.
    pub fn new(byte: u8) -> (reg: Self)
        ensures
            reg.0 == byte,
    {
        Control3Reg(byte)
    }

    /// The byte that the register holds.
    pub fn value(&self) -> (byte: u8)
        ensures
            byte == self.0,
    {
        self.0
    }

    /// The noise gate threshold, bits 7 and 6.
    pub open spec fn spec_ng_thresh(self) -> u8 {
        field(self.0, 6, 0x03)
    }

    /// Reads the noise gate threshold.
    pub fn ng_thresh(&self) -> (value: u8)
        ensures
            value == self.spec_ng_thresh(),
            value <= 0x03,
    {
        get_field(self.0, 6, 0x03)
    }

    /// The register with the noise gate threshold replaced by `value`, cut to the
    /// field's width.
    pub open spec fn with_ng_thresh(self, value: u8) -> Self {
        Control3Reg(with_field(self.0, 6, 0x03, value))
    }

    /// Replaces the noise gate threshold by `value`, cut to the field's width; no
    /// other bit changes.
    pub fn set_ng_thresh(&mut self, value: u8)
        ensures
            *final(self) == old(self).with_ng_thresh(value),
            final(self).spec_ng_thresh() == value & 0x03,
            value <= 0x03 ==> final(self).spec_ng_thresh() == value,
            same_outside(old(self).0, final(self).0, 0xC0),
    {
        proof {
            lemma_layout();
        }
        self.0 = set_field(self.0, 6, 0x03, value);
    }

    /// The open-loop flag of a non-resonant actuator, bit 5.
    pub open spec fn spec_erm_open_loop(self) -> bool {
        field(self.0, 5, 0x01) == 1
    }

    /// Reads the open-loop flag of a non-resonant actuator.
    pub fn erm_open_loop(&self) -> (on: bool)
        ensures
            on == self.spec_erm_open_loop(),
    {
        get_field(self.0, 5, 0x01) == 1
    }

    /// The register with the open-loop flag of a non-resonant actuator set or
    /// cleared.
    pub open spec fn with_erm_open_loop(self, on: bool) -> Self {
        Control3Reg(with_field(self.0, 5, 0x01, spec_flag(on)))
    }

    /// Sets or clears the open-loop flag of a non-resonant actuator; no other bit
    /// changes.
    pub fn set_erm_open_loop(&mut self, on: bool)
        ensures
            *final(self) == old(self).with_erm_open_loop(on),
            final(self).spec_erm_open_loop() == on,
            same_outside(old(self).0, final(self).0, 0x20),
    {
        proof {
            lemma_layout();
        }
        self.0 = set_field(self.0, 5, 0x01, flag(on));
    }

    /// The flag that disables supply compensation, bit 4.
    pub open spec fn spec_supply_comp_dis(self) -> bool {
        field(self.0, 4, 0x01) == 1
    }

    /// Reads the flag that disables supply compensation.
    pub fn supply_comp_dis(&self) -> (on: bool)
        ensures
            on == self.spec_supply_comp_dis(),
    {
        get_field(self.0, 4, 0x01) == 1
    }

    /// The register with the flag that disables supply compensation set or
    /// cleared.
    pub open spec fn with_supply_comp_dis(self, on: bool) -> Self {
        Control3Reg(with_field(self.0, 4, 0x01, spec_flag(on)))
    }

    /// Sets or clears the flag that disables supply compensation; no other bit
    /// changes.
    pub fn set_supply_comp_dis(&mut self, on: bool)
        ensures
            *final(self) == old(self).with_supply_comp_dis(on),
            final(self).spec_supply_comp_dis() == on,
            same_outside(old(self).0, final(self).0, 0x10),
    {
        proof {
            lemma_layout();
        }
        self.0 = set_field(self.0, 4, 0x01, flag(on));
    }

    /// The real-time playback data format, bit 3: set for unsigned amplitudes.
    pub open spec fn spec_data_format_rtp(self) -> bool {
        field(self.0, 3, 0x01) == 1
    }

    /// Reads the real-time playback data format.
    pub fn data_format_rtp(&self) -> (on: bool)
        ensures
            on == self.spec_data_format_rtp(),
    {
        get_field(self.0, 3, 0x01) == 1
    }

    /// The register with the real-time playback data format set or cleared.
    pub open spec fn with_data_format_rtp(self, on: bool) -> Self {
        Control3Reg(with_field(self.0, 3, 0x01, spec_flag(on)))
    }

    /// Sets or clears the real-time playback data format; no other bit changes.
    pub fn set_data_format_rtp(&mut self, on: bool)
        ensures
            *final(self) == old(self).with_data_format_rtp(on),
            final(self).spec_data_format_rtp() == on,
            same_outside(old(self).0, final(self).0, 0x08),
    {
        proof {
            lemma_layout();
        }
        self.0 = set_field(self.0, 3, 0x01, flag(on));
    }

    /// The drive mode of a resonant actuator, bit 2.
    pub open spec fn spec_lra_drive_mode(self) -> bool {
        field(self.0, 2, 0x01) == 1
    }

    /// Reads the drive mode of a resonant actuator.
    pub fn lra_drive_mode(&self) -> (on: bool)
        ensures
            on == self.spec_lra_drive_mode(),
    {
        get_field(self.0, 2, 0x01) == 1
    }

    /// The register with the drive mode of a resonant actuator set or cleared.
    pub open spec fn with_lra_drive_mode(self, on: bool) -> Self {
        Control3Reg(with_field(self.0, 2, 0x01, spec_flag(on)))
    }

    /// Sets or clears the drive mode of a resonant actuator; no other bit
    /// changes.
    pub fn set_lra_drive_mode(&mut self, on: bool)
        ensures
            *final(self) == old(self).with_lra_drive_mode(on),
            final(self).spec_lra_drive_mode() == on,
            same_outside(old(self).0, final(self).0, 0x04),
    {
        proof {
            lemma_layout();
        }
        self.0 = set_field(self.0, 2, 0x01, flag(on));
    }

    /// The input kind, bit 1: set for analog and clear for PWM.
    pub open spec fn spec_n_pwm_analog(self) -> bool {
        field(self.0, 1, 0x01) == 1
    }

    /// Reads the input kind.
    pub fn n_pwm_analog(&self) -> (on: bool)
        ensures
            on == self.spec_n_pwm_analog(),
    {
        get_field(self.0, 1, 0x01) == 1
    }

    /// The register with the input kind set or cleared.
    pub open spec fn with_n_pwm_analog(self, on: bool) -> Self {
        Control3Reg(with_field(self.0, 1, 0x01, spec_flag(on)))
    }

    /// Sets or clears the input kind; no other bit changes.
    pub fn set_n_pwm_analog(&mut self, on: bool)
        ensures
            *final(self) == old(self).with_n_pwm_analog(on),
            final(self).spec_n_pwm_analog() == on,
            same_outside(old(self).0, final(self).0, 0x02),
    {
        proof {
            lemma_layout();
        }
        self.0 = set_field(self.0, 1, 0x01, flag(on));
    }

    /// The open-loop flag of a resonant actuator, bit 0.
    pub open spec fn spec_lra_open_loop(self) -> bool {
        field(self.0, 0, 0x01) == 1
    }

    /// Reads the open-loop flag of a resonant actuator.
    pub fn lra_open_loop(&self) -> (on: bool)
        ensures
            on == self.spec_lra_open_loop(),
    {
        get_field(self.0, 0, 0x01) == 1
    }

    /// The register with the open-loop flag of a resonant actuator set or
    /// cleared.
    pub open spec fn with_lra_open_loop(self, on: bool) -> Self {
        Control3Reg(with_field(self.0, 0, 0x01, spec_flag(on)))
    }

    /// Sets or clears the open-loop flag of a resonant actuator; no other bit
    /// changes.
    pub fn set_lra_open_loop(&mut self, on: bool)
        ensures
            *final(self) == old(self).with_lra_open_loop(on),
            final(self).spec_lra_open_loop() == on,
            same_outside(old(self).0, final(self).0, 0x01),
    {
        proof {
            lemma_layout();
        }
        self.0 = set_field(self.0, 0, 0x01, flag(on));
    }

    /// A byte that is unpacked into this register and packed again is the same
    /// byte, and so is one in which a field was replaced by the value read from
    /// it.
    pub proof fn lemma_round_trip(byte: u8)
        ensures
            Control3Reg(byte).0 == byte,
            Control3Reg(byte).with_ng_thresh(Control3Reg(byte).spec_ng_thresh()) == Control3Reg(byte),
            Control3Reg(byte).with_erm_open_loop(Control3Reg(byte).spec_erm_open_loop()) == Control3Reg(byte),
            Control3Reg(byte).with_supply_comp_dis(Control3Reg(byte).spec_supply_comp_dis()) == Control3Reg(byte),
            Control3Reg(byte).with_data_format_rtp(Control3Reg(byte).spec_data_format_rtp()) == Control3Reg(byte),
            Control3Reg(byte).with_lra_drive_mode(Control3Reg(byte).spec_lra_drive_mode()) == Control3Reg(byte),
            Control3Reg(byte).with_n_pwm_analog(Control3Reg(byte).spec_n_pwm_analog()) == Control3Reg(byte),
            Control3Reg(byte).with_lra_open_loop(Control3Reg(byte).spec_lra_open_loop()) == Control3Reg(byte),
    {
        lemma_layout();
        lemma_rewrite(byte, 6, 0x03);
        lemma_rewrite_flag(byte, 5);
        lemma_rewrite_flag(byte, 4);
        lemma_rewrite_flag(byte, 3);
        lemma_rewrite_flag(byte, 2);
        lemma_rewrite_flag(byte, 1);
        lemma_rewrite_flag(byte, 0);
    }
}

impl Default for Control3Reg {
    /// The value that the register holds after power-up.
    fn default() -> (reg: Self)
        ensures
            reg.0 == 0xA0,
    {
        Control3Reg(0xA0)
    }
}

/// Control 4: calibration timing and the one-time programmable memory.
#[derive(Clone, Copy, Debug, PartialEq, Eq, Structural)]
pub struct Control4Reg(pub u8);

impl Control4Reg {
    /// Where the register lies on the device.
    pub const ADDRESS: u8 = 0x1E;

    /// The register holding `byte`.
    pub fn new(byte: u8) -> (reg: Self)
        ensures
            reg.0 == byte,
    {
        Control4Reg(byte)
    }

    /// The byte that the register holds.
    pub fn value(&self) -> (byte: u8)
        ensures
            byte == self.0,
    {
        self.0
    }

    /// The zero-crossing detection time, bits 7 and 6.
    pub open spec fn spec_zc_det_time(self) -> u8 {
        field(self.0, 6, 0x03)
    }

    /// Reads the zero-crossing detection time.
    pub fn zc_det_time(&self) -> (value: u8)
        ensures
            value == self.spec_zc_det_time(),
            value <= 0x03,
    {
        get_field(self.0, 6, 0x03)
    }

    /// The register with the zero-crossing detection time replaced by `value`,
    /// cut to the field's width.
    pub open spec fn with_zc_det_time(self, value: u8) -> Self {
        Control4Reg(with_field(self.0, 6, 0x03, value))
    }

    /// Replaces the zero-crossing detection time by `value`, cut to the field's
    /// width; no other bit changes.
    pub fn set_zc_det_time(&mut self, value: u8)
        ensures
            *final(self) == old(self).with_zc_det_time(value),
            final(self).spec_zc_det_time() == value & 0x03,
            value <= 0x03 ==> final(self).spec_zc_det_time() == value,
            same_outside(old(self).0, final(self).0, 0xC0),
    {
        proof {
            lemma_layout();
        }
        self.0 = set_field(self.0, 6, 0x03, value);
    }

    /// The calibration run time, bits 5 and 4.
    pub open spec fn spec_auto_cal_time(self) -> u8 {
        field(self.0, 4, 0x03)
    }

    /// Reads the calibration run time.
    pub fn auto_cal_time(&self) -> (value: u8)
        ensures
            value == self.spec_auto_cal_time(),
            value <= 0x03,
    {
        get_field(self.0, 4, 0x03)
    }

    /// The register with the calibration run time replaced by `value`, cut to the
    /// field's width.
    pub open spec fn with_auto_cal_time(self, value: u8) -> Self {
        Control4Reg(with_field(self.0, 4, 0x03, value))
    }

    /// Replaces the calibration run time by `value`, cut to the field's width; no
    /// other bit changes.
    pub fn set_auto_cal_time(&mut self, value: u8)
        ensures
            *final(self) == old(self).with_auto_cal_time(value),
            final(self).spec_auto_cal_time() == value & 0x03,
            value <= 0x03 ==> final(self).spec_auto_cal_time() == value,
            same_outside(old(self).0, final(self).0, 0x30),
    {
        proof {
            lemma_layout();
        }
        self.0 = set_field(self.0, 4, 0x03, value);
    }

    /// The flag that tells whether the one-time programmable memory was written,
    /// bit 2.
    pub open spec fn spec_otp_status(self) -> bool {
        field(self.0, 2, 0x01) == 1
    }

    /// Reads the flag that tells whether the one-time programmable memory was
    /// written.
    pub fn otp_status(&self) -> (on: bool)
        ensures
            on == self.spec_otp_status(),
    {
        get_field(self.0, 2, 0x01) == 1
    }

    /// The request to write the one-time programmable memory, bit 0.
    pub open spec fn spec_otp_program(self) -> bool {
        field(self.0, 0, 0x01) == 1
    }

    /// Reads the request to write the one-time programmable memory.
    pub fn otp_program(&self) -> (on: bool)
        ensures
            on == self.spec_otp_program(),
    {
        get_field(self.0, 0, 0x01) == 1
    }

    /// The register with the request to write the one-time programmable memory
    /// set or cleared.
    pub open spec fn with_otp_program(self, on: bool) -> Self {
        Control4Reg(with_field(self.0, 0, 0x01, spec_flag(on)))
    }

    /// Sets or clears the request to write the one-time programmable memory; no
    /// other bit changes.
    pub fn set_otp_program(&mut self, on: bool)
        ensures
            *final(self) == old(self).with_otp_program(on),
            final(self).spec_otp_program() == on,
            same_outside(old(self).0, final(self).0, 0x01),
    {
        proof {
            lemma_layout();
        }
        self.0 = set_field(self.0, 0, 0x01, flag(on));
    }

    /// A byte that is unpacked into this register and packed again is the same
    /// byte, and so is one in which a field was replaced by the value read from
    /// it.
    pub proof fn lemma_round_trip(byte: u8)
        ensures
            Control4Reg(byte).0 == byte,
            Control4Reg(byte).with_zc_det_time(Control4Reg(byte).spec_zc_det_time()) == Control4Reg(byte),
            Control4Reg(byte).with_auto_cal_time(Control4Reg(byte).spec_auto_cal_time()) == Control4Reg(byte),
            Control4Reg(byte).with_otp_program(Control4Reg(byte).spec_otp_program()) == Control4Reg(byte),
    {
        lemma_layout();
        lemma_rewrite(byte, 6, 0x03);
        lemma_rewrite(byte, 4, 0x03);
        lemma_rewrite_flag(byte, 0);
    }
}

impl Default for Control4Reg {
    /// The value that the register holds after power-up.
    fn default() -> (reg: Self)
        ensures
            reg.0 == 0x20,
    {
        Control4Reg(0x20)
    }
}

/// Control 5: open-loop fallback, playback interval and the upper timing
/// bits.
#[derive(Clone, Copy, Debug, PartialEq, Eq, Structural)]
pub struct Control5Reg(pub u8);

impl Control5Reg {
    /// Where the register lies on the device.
    pub const ADDRESS: u8 = 0x1F;

    /// The register holding `byte`.
    pub fn new(byte: u8) -> (reg: Self)
        ensures
            reg.0 == byte,
    {
        Control5Reg(byte)
    }

    /// The byte that the register holds.
    pub fn value(&self) -> (byte: u8)
        ensures
            byte == self.0,
    {
        self.0
    }

    /// The number of attempts before falling back to open loop, bits 7 and 6.
    pub open spec fn spec_auto_ol_cnt(self) -> u8 {
        field(self.0, 6, 0x03)
    }

    /// Reads the number of attempts before falling back to open loop.
    pub fn auto_ol_cnt(&self) -> (value: u8)
        ensures
            value == self.spec_auto_ol_cnt(),
            value <= 0x03,
    {
        get_field(self.0, 6, 0x03)
    }

    /// The register with the number of attempts before falling back to open loop
    /// replaced by `value`, cut to the field's width.
    pub open spec fn with_auto_ol_cnt(self, value: u8) -> Self {
        Control5Reg(with_field(self.0, 6, 0x03, value))
    }

    /// Replaces the number of attempts before falling back to open loop by
    /// `value`, cut to the field's width; no other bit changes.
    pub fn set_auto_ol_cnt(&mut self, value: u8)
        ensures
            *final(self) == old(self).with_auto_ol_cnt(value),
            final(self).spec_auto_ol_cnt() == value & 0x03,
            value <= 0x03 ==> final(self).spec_auto_ol_cnt() == value,
            same_outside(old(self).0, final(self).0, 0xC0),
    {
        proof {
            lemma_layout();
        }
        self.0 = set_field(self.0, 6, 0x03, value);
    }

    /// The automatic open-loop fallback flag, bit 5.
    pub open spec fn spec_lra_auto_open_loop(self) -> bool {
        field(self.0, 5, 0x01) == 1
    }

    /// Reads the automatic open-loop fallback flag.
    pub fn lra_auto_open_loop(&self) -> (on: bool)
        ensures
            on == self.spec_lra_auto_open_loop(),
    {
        get_field(self.0, 5, 0x01) == 1
    }

    /// The register with the automatic open-loop fallback flag set or cleared.
    pub open spec fn with_lra_auto_open_loop(self, on: bool) -> Self {
        Control5Reg(with_field(self.0, 5, 0x01, spec_flag(on)))
    }

    /// Sets or clears the automatic open-loop fallback flag; no other bit
    /// changes.
    pub fn set_lra_auto_open_loop(&mut self, on: bool)
        ensures
            *final(self) == old(self).with_lra_auto_open_loop(on),
            final(self).spec_lra_auto_open_loop() == on,
            same_outside(old(self).0, final(self).0, 0x20),
    {
        proof {
            lemma_layout();
        }
        self.0 = set_field(self.0, 5, 0x01, flag(on));
    }

    /// The playback interval, bit 4: set for 1 ms steps and clear for 5 ms.
    pub open spec fn spec_playback_interval(self) -> bool {
        field(self.0, 4, 0x01) == 1
    }

    /// Reads the playback interval.
    pub fn playback_interval(&self) -> (on: bool)
        ensures
            on == self.spec_playback_interval(),
    {
        get_field(self.0, 4, 0x01) == 1
    }

    /// The register with the playback interval set or cleared.
    pub open spec fn with_playback_interval(self, on: bool) -> Self {
        Control5Reg(with_field(self.0, 4, 0x01, spec_flag(on)))
    }

    /// Sets or clears the playback interval; no other bit changes.
    pub fn set_playback_interval(&mut self, on: bool)
        ensures
            *final(self) == old(self).with_playback_interval(on),
            final(self).spec_playback_interval() == on,
            same_outside(old(self).0, final(self).0, 0x10),
    {
        proof {
            lemma_layout();
        }
        self.0 = set_field(self.0, 4, 0x01, flag(on));
    }

    /// The upper two bits of the blanking time, bits 3 and 2.
    pub open spec fn spec_blanking_time_high(self) -> u8 {
        field(self.0, 2, 0x03)
    }

    /// Reads the upper two bits of the blanking time.
    pub fn blanking_time_high(&self) -> (value: u8)
        ensures
            value == self.spec_blanking_time_high(),
            value <= 0x03,
    {
        get_field(self.0, 2, 0x03)
    }

    /// The register with the upper two bits of the blanking time replaced by
    /// `value`, cut to the field's width.
    pub open spec fn with_blanking_time_high(self, value: u8) -> Self {
        Control5Reg(with_field(self.0, 2, 0x03, value))
    }

    /// Replaces the upper two bits of the blanking time by `value`, cut to the
    /// field's width; no other bit changes.
    pub fn set_blanking_time_high(&mut self, value: u8)
        ensures
            *final(self) == old(self).with_blanking_time_high(value),
            final(self).spec_blanking_time_high() == value & 0x03,
            value <= 0x03 ==> final(self).spec_blanking_time_high() == value,
            same_outside(old(self).0, final(self).0, 0x0C),
    {
        proof {
            lemma_layout();
        }
        self.0 = set_field(self.0, 2, 0x03, value);
    }

    /// The upper two bits of the current dissipation time, bits 1 and 0.
    pub open spec fn spec_idiss_time_high(self) -> u8 {
        field(self.0, 0, 0x03)
    }

    /// Reads the upper two bits of the current dissipation time.
    pub fn idiss_time_high(&self) -> (value: u8)
        ensures
            value == self.spec_idiss_time_high(),
            value <= 0x03,
    {
        get_field(self.0, 0, 0x03)
    }

    /// The register with the upper two bits of the current dissipation time
    /// replaced by `value`, cut to the field's width.
    pub open spec fn with_idiss_time_high(self, value: u8) -> Self {
        Control5Reg(with_field(self.0, 0, 0x03, value))
    }

    /// Replaces the upper two bits of the current dissipation time by `value`,
    /// cut to the field's width; no other bit changes.
    pub fn set_idiss_time_high(&mut self, value: u8)
        ensures
            *final(self) == old(self).with_idiss_time_high(value),
            final(self).spec_idiss_time_high() == value & 0x03,
            value <= 0x03 ==> final(self).spec_idiss_time_high() == value,
            same_outside(old(self).0, final(self).0, 0x03),
    {
        proof {
            lemma_layout();
        }
        self.0 = set_field(self.0, 0, 0x03, value);
    }

    /// A byte that is unpacked into this register and packed again is the same
    /// byte, and so is one in which a field was replaced by the value read from
    /// it.
    pub proof fn lemma_round_trip(byte: u8)
        ensures
            Control5Reg(byte).0 == byte,
            Control5Reg(byte).with_auto_ol_cnt(Control5Reg(byte).spec_auto_ol_cnt()) == Control5Reg(byte),
            Control5Reg(byte).with_lra_auto_open_loop(Control5Reg(byte).spec_lra_auto_open_loop()) == Control5Reg(byte),
            Control5Reg(byte).with_playback_interval(Control5Reg(byte).spec_playback_interval()) == Control5Reg(byte),
            Control5Reg(byte).with_blanking_time_high(Control5Reg(byte).spec_blanking_time_high()) == Control5Reg(byte),
            Control5Reg(byte).with_idiss_time_high(Control5Reg(byte).spec_idiss_time_high()) == Control5Reg(byte),
    {
        lemma_layout();
        lemma_rewrite(byte, 6, 0x03);
        lemma_rewrite_flag(byte, 5);
        lemma_rewrite_flag(byte, 4);
        lemma_rewrite(byte, 2, 0x03);
        lemma_rewrite(byte, 0, 0x03);
    }
}

impl Default for Control5Reg {
    /// The value that the register holds after power-up.
    fn default() -> (reg: Self)
        ensures
            reg.0 == 0x80,
    {
        Control5Reg(0x80)
    }
}

} // verus!
