//! The register values that the driver composes: what a mode, a run or a
//! calibration asks of each control register, given what the register holds.
//!
//! Every function here is computed afresh from the target and the actuator
//! type. Nothing depends on which mode was in force before.

use vstd::prelude::*;
use crate::bits::{field, lemma_layout, lemma_set_field, same_outside, spec_flag, with_field};
use crate::effects::DeviceMode;
use crate::params::{CalibrationParams, Mode};
use crate::registers::{Control1Reg, Control2Reg, Control3Reg, Control4Reg, FeedbackControlReg, ModeReg};

verus! {

/// The operating mode that the device is put in for a way of driving it.
pub open spec fn spec_device_mode(target: Mode) -> DeviceMode {
    match target {
        Mode::Rom(_, _) => DeviceMode::InternalTrigger,
        Mode::Pwm => DeviceMode::PwmInputAndAnalogInput,
        Mode::Analog => DeviceMode::PwmInputAndAnalogInput,
        Mode::RealTimePlayback => DeviceMode::RealTimePlayback,
    }
}

/// The operating mode that the device is put in for a way of driving it.
pub fn device_mode(target: Mode) -> (mode: DeviceMode)
    ensures
        mode == spec_device_mode(target),
{
    match target {
        Mode::Rom(_, _) => DeviceMode::InternalTrigger,
        Mode::Pwm => DeviceMode::PwmInputAndAnalogInput,
        Mode::Analog => DeviceMode::PwmInputAndAnalogInput,
        Mode::RealTimePlayback => DeviceMode::RealTimePlayback,
    }
}

/// Control 3 on entering `target`, made from what the register holds.
///
/// A non-resonant actuator is driven open-loop for library playback and
/// closed-loop otherwise; a resonant one keeps its bit. PWM and analog input
/// select the input kind, and real-time playback selects unsigned amplitudes.
pub open spec fn spec_control3_for(target: Mode, lra: bool, current: Control3Reg) -> Control3Reg {
    let looped = if lra {
        current
    } else {
        current.with_erm_open_loop(target is Rom)
    };
    match target {
        Mode::Rom(_, _) => looped,
        Mode::Pwm => looped.with_n_pwm_analog(false),
        Mode::Analog => looped.with_n_pwm_analog(true),
        Mode::RealTimePlayback => looped.with_data_format_rtp(true),
    }
}

/// Control 3 on entering `target`, made from what the register holds.
///
/// Of the open-loop bit: on a resonant actuator it is kept, on a non-resonant
/// one it is set for library playback and cleared for every other mode,
/// whatever it was. The data format bit is set for real-time playback and
/// kept otherwise. Only these two bits and the input kind can change.
pub fn control3_for(target: Mode, lra: bool, current: Control3Reg) -> (out: Control3Reg)
    ensures
        out == spec_control3_for(target, lra, current),
        lra ==> out.spec_erm_open_loop() == current.spec_erm_open_loop(),
        !lra ==> out.spec_erm_open_loop() == (target is Rom),
        target is Pwm ==> !out.spec_n_pwm_analog(),
        target is Analog ==> out.spec_n_pwm_analog(),
        target is Rom || target is RealTimePlayback ==> out.spec_n_pwm_analog()
            == current.spec_n_pwm_analog(),
        target is RealTimePlayback ==> out.spec_data_format_rtp(),
        !(target is RealTimePlayback) ==> out.spec_data_format_rtp()
            == current.spec_data_format_rtp(),
        same_outside(current.0, out.0, 0x2A),
{
    let mut out = current;
    if !lra {
        match target {
            Mode::Rom(_, _) => out.set_erm_open_loop(true),
            _ => out.set_erm_open_loop(false),
        }
    }
    match target {
        Mode::Rom(_, _) => {},
        Mode::Pwm => out.set_n_pwm_analog(false),
        Mode::Analog => out.set_n_pwm_analog(true),
        Mode::RealTimePlayback => out.set_data_format_rtp(true),
    }
    proof {
        lemma_control3_for(target, lra, current);
    }
    out
}

/// What entering a mode does to control 3.
///
/// On a resonant actuator no mode touches the open-loop bit. On a
/// non-resonant one library playback sets it, and PWM, analog input and
/// real-time playback clear it, whatever it was before. PWM clears the input
/// kind and analog input sets it; real-time playback sets the data format,
/// which no other mode clears. No other bit of the register changes.
pub proof fn lemma_control3_for(target: Mode, lra: bool, current: Control3Reg)
    ensures
        lra ==> spec_control3_for(target, lra, current).spec_erm_open_loop()
            == current.spec_erm_open_loop(),
        !lra ==> spec_control3_for(target, lra, current).spec_erm_open_loop() == (target is Rom),
        target is Pwm ==> !spec_control3_for(target, lra, current).spec_n_pwm_analog(),
        target is Analog ==> spec_control3_for(target, lra, current).spec_n_pwm_analog(),
        target is Rom || target is RealTimePlayback ==> spec_control3_for(
            target,
            lra,
            current,
        ).spec_n_pwm_analog() == current.spec_n_pwm_analog(),
        target is RealTimePlayback ==> spec_control3_for(target, lra, current).spec_data_format_rtp(),
        !(target is RealTimePlayback) ==> spec_control3_for(
            target,
            lra,
            current,
        ).spec_data_format_rtp() == current.spec_data_format_rtp(),
        same_outside(current.0, spec_control3_for(target, lra, current).0, 0x2A),
{
    let looped = if lra {
        current
    } else {
        current.with_erm_open_loop(target is Rom)
    };
    let out = spec_control3_for(target, lra, current);
    lemma_layout();
    lemma_control3_bits(current.0);
    lemma_control3_bits(looped.0);
    lemma_control3_regions(current.0, out.0);
    lemma_set_field(current.0, 5, 0x01, spec_flag(target is Rom));
    lemma_set_field(looped.0, 1, 0x01, 0);
    lemma_set_field(looped.0, 1, 0x01, 1);
    lemma_set_field(looped.0, 3, 0x01, 1);
    assert(same_outside(current.0, looped.0, 0x2A));
    assert(same_outside(looped.0, out.0, 0x2A));
}

/// How the three bits of control 3 that a mode change writes lie to each
/// other: writing one leaves the two others as they were.
proof fn lemma_control3_bits(byte: u8)
    by (bit_vector)
    ensures
        forall|v: u8|
            #![trigger with_field(byte, 5, 0x01, v)]
            field(with_field(byte, 5, 0x01, v), 1, 0x01) == field(byte, 1, 0x01) && field(
                with_field(byte, 5, 0x01, v),
                3,
                0x01,
            ) == field(byte, 3, 0x01) && (with_field(byte, 5, 0x01, v) & !0x2Au8) == (byte
                & !0x2Au8),
        forall|v: u8|
            #![trigger with_field(byte, 1, 0x01, v)]
            field(with_field(byte, 1, 0x01, v), 5, 0x01) == field(byte, 5, 0x01) && field(
                with_field(byte, 1, 0x01, v),
                3,
                0x01,
            ) == field(byte, 3, 0x01) && (with_field(byte, 1, 0x01, v) & !0x2Au8) == (byte
                & !0x2Au8),
        forall|v: u8|
            #![trigger with_field(byte, 3, 0x01, v)]
            field(with_field(byte, 3, 0x01, v), 5, 0x01) == field(byte, 5, 0x01) && field(
                with_field(byte, 3, 0x01, v),
                1,
                0x01,
            ) == field(byte, 1, 0x01) && (with_field(byte, 3, 0x01, v) & !0x2Au8) == (byte
                & !0x2Au8),
{
}

/// Bytes that agree outside the three bits agree with a third that does.
proof fn lemma_control3_regions(before: u8, after: u8)
    by (bit_vector)
    ensures
        forall|between: u8|
            (before & !0x2Au8) == (#[trigger] (between & !0x2Au8)) && (between & !0x2Au8) == (after
                & !0x2Au8) ==> (before & !0x2Au8) == (after & !0x2Au8),
{
}

/// The mode register on entering `target`: the operating mode is replaced,
/// standby and the rest are kept.
pub open spec fn spec_mode_for(target: Mode, current: ModeReg) -> ModeReg {
    current.with_mode(spec_device_mode(target).spec_code())
}

/// The mode register on entering `target`: the operating mode is replaced,
/// standby and the rest are kept.
pub fn mode_for(target: Mode, current: ModeReg) -> (out: ModeReg)
    ensures
        out == spec_mode_for(target, current),
        out.spec_mode() == spec_device_mode(target).spec_code(),
        out.spec_standby() == current.spec_standby(),
        same_outside(current.0, out.0, 0x07),
{
    let mut out = current;
    out.set_mode(device_mode(target).code());
    proof {
        lemma_mode_for(target, current);
    }
    out
}

/// What entering a mode does to the mode register: the operating mode is
/// the one of the target, and standby is as it was.
pub proof fn lemma_mode_for(target: Mode, current: ModeReg)
    ensures
        spec_mode_for(target, current).spec_mode() == spec_device_mode(target).spec_code(),
        spec_mode_for(target, current).spec_standby() == current.spec_standby(),
        same_outside(current.0, spec_mode_for(target, current).0, 0x07),
{
    lemma_layout();
    lemma_set_field(current.0, 0, 0x07, spec_device_mode(target).spec_code());
    lemma_mode_bits(current.0);
}

/// What a run does to the mode register: the device is out of standby and
/// in the mode of the run.
pub proof fn lemma_run_for(run: DeviceMode, current: ModeReg)
    ensures
        spec_run_for(run, current).spec_mode() == run.spec_code(),
        !spec_run_for(run, current).spec_standby(),
        same_outside(current.0, spec_run_for(run, current).0, 0x47),
{
    let awake = current.with_standby(false);
    lemma_layout();
    lemma_set_field(current.0, 6, 0x01, 0);
    lemma_set_field(awake.0, 0, 0x07, run.spec_code());
    lemma_mode_bits(awake.0);
    lemma_mode_regions(current.0, awake.0);
    lemma_mode_regions(awake.0, spec_run_for(run, current).0);
    lemma_mode_regions(current.0, spec_run_for(run, current).0);
}

/// The mode register for a calibration or diagnostic run: the device leaves
/// standby and is put in the mode of the run.
pub open spec fn spec_run_for(run: DeviceMode, current: ModeReg) -> ModeReg {
    current.with_standby(false).with_mode(run.spec_code())
}

/// The mode register for a calibration or diagnostic run: the device leaves
/// standby and is put in the mode of the run.
pub fn run_for(run: DeviceMode, current: ModeReg) -> (out: ModeReg)
    ensures
        out == spec_run_for(run, current),
        out.spec_mode() == run.spec_code(),
        !out.spec_standby(),
        same_outside(current.0, out.0, 0x47),
{
    let mut out = current;
    out.set_standby(false);
    out.set_mode(run.code());
    proof {
        lemma_run_for(run, current);
    }
    out
}

/// The mode register that asks the device to reset itself.
pub open spec fn spec_reset_request() -> ModeReg {
    ModeReg(0x40).with_dev_reset(true)
}

/// The mode register that asks the device to reset itself.
pub fn reset_request() -> (out: ModeReg)
    ensures
        out == spec_reset_request(),
        out.spec_dev_reset(),
{
    let mut out = ModeReg::default();
    out.set_dev_reset(true);
    out
}

/// The reset request is the power-up value of the mode register with the
/// request bit set.
pub proof fn lemma_reset_request()
    ensures
        spec_reset_request().0 == 0xC0,
{
    assert(with_field(0x40, 7, 0x01, 1) == 0xC0) by (bit_vector);
}

/// Writing the operating mode leaves the standby bit as it was.
proof fn lemma_mode_bits(byte: u8)
    by (bit_vector)
    ensures
        forall|v: u8|
            #![trigger with_field(byte, 0, 0x07, v)]
            field(with_field(byte, 0, 0x07, v), 6, 0x01) == field(byte, 6, 0x01),
{
}

/// A change inside the standby bit or inside the operating mode is a change
/// inside the two together, and so is one after the other.
proof fn lemma_mode_regions(before: u8, after: u8)
    by (bit_vector)
    ensures
        (before & !0x40u8) == (after & !0x40u8) ==> (before & !0x47u8) == (after & !0x47u8),
        forall|between: u8|
            (before & !0x47u8) == (#[trigger] (between & !0x47u8)) && (between & !0x07u8) == (after
                & !0x07u8) ==> (before & !0x47u8) == (after & !0x47u8),
{
}

/// Feedback control before a calibration run: brake factor and loop gain
/// from the parameters, the actuator type from `lra`, the rest at its
/// power-up value.
pub open spec fn spec_feedback_for(params: CalibrationParams, lra: bool) -> FeedbackControlReg {
    let tuned = FeedbackControlReg(0x36).with_fb_brake_factor(params.brake_factor).with_loop_gain(
        params.loop_gain,
    );
    if lra {
        tuned.with_n_erm_lra(true)
    } else {
        tuned
    }
}

/// Feedback control before a calibration run: brake factor and loop gain
/// from the parameters, the actuator type from `lra`, the rest at its
/// power-up value.
pub fn feedback_for(params: CalibrationParams, lra: bool) -> (out: FeedbackControlReg)
    ensures
        out == spec_feedback_for(params, lra),
        out.spec_fb_brake_factor() == params.brake_factor & 0x07,
        out.spec_loop_gain() == params.loop_gain & 0x03,
        out.spec_n_erm_lra() == lra,
{
    let mut out = FeedbackControlReg::default();
    out.set_fb_brake_factor(params.brake_factor);
    out.set_loop_gain(params.loop_gain);
    if lra {
        out.set_n_erm_lra(true);
    }
    proof {
        lemma_feedback_bits(params.brake_factor, params.loop_gain);
    }
    out
}

/// What the fields of feedback control hold once a calibration's values are
/// written over the power-up value.
proof fn lemma_feedback_bits(brake: u8, gain: u8)
    by (bit_vector)
    ensures
        ({
            let tuned = with_field(with_field(0x36, 4, 0x07, brake), 2, 0x03, gain);
            let resonant = with_field(tuned, 7, 0x01, 1);
            &&& field(tuned, 4, 0x07) == brake & 0x07
            &&& field(tuned, 2, 0x03) == gain & 0x03
            &&& field(tuned, 7, 0x01) == 0
            &&& field(resonant, 4, 0x07) == brake & 0x07
            &&& field(resonant, 2, 0x03) == gain & 0x03
            &&& field(resonant, 7, 0x01) == 1
        }),
{
}

/// Control 2 before a calibration run: the three resonance timings from the
/// parameters, the rest at its power-up value.
pub open spec fn spec_control2_for(params: CalibrationParams) -> Control2Reg {
    Control2Reg(0xF5).with_sample_time(params.lra_sample_time).with_blanking_time(
        params.lra_blanking_time,
    ).with_idiss_time(params.lra_idiss_time)
}

/// Control 2 before a calibration run: the three resonance timings from the
/// parameters, the rest at its power-up value.
pub fn control2_for(params: CalibrationParams) -> (out: Control2Reg)
    ensures
        out == spec_control2_for(params),
        out.spec_sample_time() == params.lra_sample_time & 0x03,
        out.spec_blanking_time() == params.lra_blanking_time & 0x03,
        out.spec_idiss_time() == params.lra_idiss_time & 0x03,
{
    let mut out = Control2Reg::default();
    out.set_sample_time(params.lra_sample_time);
    out.set_blanking_time(params.lra_blanking_time);
    out.set_idiss_time(params.lra_idiss_time);
    proof {
        lemma_control2_bits(
            params.lra_sample_time,
            params.lra_blanking_time,
            params.lra_idiss_time,
        );
    }
    out
}

/// What the timing fields of control 2 hold once all three are written.
proof fn lemma_control2_bits(sample: u8, blanking: u8, idiss: u8)
    by (bit_vector)
    ensures
        ({
            let out = with_field(
                with_field(with_field(0xF5, 4, 0x03, sample), 2, 0x03, blanking),
                0,
                0x03,
                idiss,
            );
            &&& field(out, 4, 0x03) == sample & 0x03
            &&& field(out, 2, 0x03) == blanking & 0x03
            &&& field(out, 0, 0x03) == idiss & 0x03
        }),
{
}

/// Control 4 before a calibration run: the length of the run and the
/// zero-crossing detection time from the parameters, the rest at its
/// power-up value.
pub open spec fn spec_control4_for(params: CalibrationParams) -> Control4Reg {
    Control4Reg(0x20).with_auto_cal_time(params.auto_cal_time).with_zc_det_time(
        params.lra_zc_det_time,
    )
}

/// Control 4 before a calibration run: the length of the run and the
/// zero-crossing detection time from the parameters, the rest at its
/// power-up value.
pub fn control4_for(params: CalibrationParams) -> (out: Control4Reg)
    ensures
        out == spec_control4_for(params),
        out.spec_auto_cal_time() == params.auto_cal_time & 0x03,
        out.spec_zc_det_time() == params.lra_zc_det_time & 0x03,
{
    let mut out = Control4Reg::default();
    out.set_auto_cal_time(params.auto_cal_time);
    out.set_zc_det_time(params.lra_zc_det_time);
    proof {
        lemma_control4_bits(params.auto_cal_time, params.lra_zc_det_time);
    }
    out
}

/// What the timing fields of control 4 hold once both are written.
proof fn lemma_control4_bits(run: u8, crossing: u8)
    by (bit_vector)
    ensures
        ({
            let out = with_field(with_field(0x20, 4, 0x03, run), 6, 0x03, crossing);
            &&& field(out, 4, 0x03) == run & 0x03
            &&& field(out, 6, 0x03) == crossing & 0x03
        }),
{
}

/// Control 1 before a calibration run: the drive time from the parameters, the
/// rest at its power-up value.
pub open spec fn spec_control1_for(params: CalibrationParams) -> Control1Reg {
    Control1Reg(0x93).with_drive_time(params.drive_time)
}

/// Control 1 before a calibration run: the drive time from the parameters, the
/// rest at its power-up value.
pub fn control1_for(params: CalibrationParams) -> (out: Control1Reg)
    ensures
        out == spec_control1_for(params),
        out.spec_drive_time() == params.drive_time & 0x1F,
        same_outside(0x93, out.0, 0x1F),
{
    let mut out = Control1Reg::default();
    out.set_drive_time(params.drive_time);
    out
}

} // verus!
