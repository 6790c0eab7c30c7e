//! The values that callers hand to the driver and get back from it.

use vstd::prelude::*;
use crate::effects::Library;

verus! {

/// Why an operation of the driver failed.
#[derive(Clone, Copy, Debug, PartialEq, Eq, Structural)]
pub enum DrvError {
    /// Kept for a mismatch between the motor and what was asked of it; no
    /// operation reports it.
    WrongMotorType,
    /// The device on the bus does not identify itself as this part.
    WrongDeviceId,
    /// A bus transaction failed.
    ConnectionError,
    /// A diagnostic run ended and the device reports a failure.
    DeviceDiagnosticFailed,
    /// A calibration run ended and the device reports a failure.
    CalibrationFailed,
    /// Factory calibration was asked for, but the device's one-time
    /// programmable memory was never written.
    OTPNotProgrammed,
}

/// Results of a calibration run. They can be read back after calibration and
/// handed to a later construction in place of a new run.
#[derive(Clone, Copy, Debug, PartialEq, Eq, Structural)]
pub struct LoadParams {
    /// Compensation for resistive losses.
    pub compenstation: u8,
    /// Back-EMF of the motor.
    pub back_emf: u8,
    /// Back-EMF gain, two bits wide.
    pub back_emf_gain: u8,
}

/// What a calibration run needs to know of the motor. The voltages and the
/// drive time come from the motor's datasheet; the rest can mostly stay at its
/// default.
#[non_exhaustive]
#[derive(Clone, Copy, Debug, PartialEq, Eq, Structural)]
pub struct CalibrationParams {
    /// Rated voltage of the motor, in the device's encoding.
    pub rated_voltage: u8,
    /// Overdrive clamp voltage, in the device's encoding.
    pub overdrive_voltage_clamp: u8,
    /// Drive time, five bits wide.
    pub drive_time: u8,
    /// Brake factor, three bits wide.
    pub brake_factor: u8,
    /// Loop gain, two bits wide.
    pub loop_gain: u8,
    /// Length of the calibration run, two bits wide.
    pub auto_cal_time: u8,
    /// Sample time of the resonance tracking, two bits wide.
    pub lra_sample_time: u8,
    /// Blanking time of the resonance tracking, two bits wide.
    pub lra_blanking_time: u8,
    /// Current dissipation time of the resonance tracking, two bits wide.
    pub lra_idiss_time: u8,
    /// Zero-crossing detection time, two bits wide.
    pub lra_zc_det_time: u8,
}

impl Default for CalibrationParams {
    /// The values that the device's datasheet advises where it advises any,
    /// and the device's power-up values for the voltages and the drive time.
    fn default() -> (params: Self)
        ensures
            params == (CalibrationParams {
                rated_voltage: 0x3E,
                overdrive_voltage_clamp: 0x8C,
                drive_time: 0x13,
                brake_factor: 2,
                loop_gain: 2,
                auto_cal_time: 3,
                lra_sample_time: 3,
                lra_blanking_time: 1,
                lra_idiss_time: 1,
                lra_zc_det_time: 0,
            }),
    {
        CalibrationParams {
            brake_factor: 2,
            loop_gain: 2,
            lra_sample_time: 3,
            lra_blanking_time: 1,
            lra_idiss_time: 1,
            auto_cal_time: 3,
            lra_zc_det_time: 0,
            rated_voltage: 0x3E,
            overdrive_voltage_clamp: 0x8C,
            drive_time: 0x13,
        }
    }
}

/// How the device gets its calibration when the driver is constructed.
#[derive(Clone, Copy, Debug, PartialEq, Eq, Structural)]
pub enum Calibration {
    /// Run a calibration with these motor parameters. The motor has to be
    /// fixed to a mass while it runs.
    Auto(CalibrationParams),
    /// Write the results of an earlier calibration run.
    Load(LoadParams),
    /// Rely on the values in the device's one-time programmable memory.
    Otp,
}

/// Time stretching of library waveforms. Each offset counts playback
/// intervals.
#[derive(Clone, Copy, Debug, PartialEq, Eq, Structural)]
pub struct RomParams {
    /// Offset added to the overdrive part of a waveform.
    pub overdrive_time_offset: u8,
    /// Offset added to the positive sustain part of a waveform.
    pub sustain_positive_offset: u8,
    /// Offset added to the negative sustain part of a waveform.
    pub sustain_negative_offset: u8,
    /// Offset added to the braking part of a waveform.
    pub brake_time_offset: u8,
    /// Shortens the playback interval from 5 ms to 1 ms.
    pub decrease_playback_interval: bool,
}

impl Default for RomParams {
    /// No stretching, and the playback interval of 5 ms.
    fn default() -> (params: Self)
        ensures
            params == (RomParams {
                overdrive_time_offset: 0,
                sustain_positive_offset: 0,
                sustain_negative_offset: 0,
                brake_time_offset: 0,
                decrease_playback_interval: false,
            }),
    {
        RomParams {
            overdrive_time_offset: 0,
            sustain_positive_offset: 0,
            sustain_negative_offset: 0,
            brake_time_offset: 0,
            decrease_playback_interval: false,
        }
    }
}

/// The ways in which the device can be driven. One is in force at a time.
#[derive(Clone, Copy, Debug, PartialEq, Eq, Structural)]
pub enum Mode {
    /// Play effects of a waveform library, started by the trigger bit. On a
    /// non-resonant actuator this turns on open-loop drive, for which the
    /// libraries are tuned.
    Rom(Library, RomParams),
    /// Follow the duty cycle of a PWM signal on the input pin.
    Pwm,
    /// Follow an analog voltage on the input pin.
    Analog,
    /// Drive the amplitude held in the real-time playback register, read as an
    /// unsigned number.
    RealTimePlayback,
}

} // verus!
