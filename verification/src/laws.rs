//! What holds of the driver's operations as a whole: which transactions an
//! operation makes, in which order, and how it ends.
//!
//! Each law follows an operation from its first phase through the answers of
//! the bus. The bytes that the device answers with are parameters, so a law
//! holds whatever the registers held.

use vstd::prelude::*;
use crate::bits::{lemma_layout, lemma_set_field, same_outside};
use crate::driver::Drv2605l;
use crate::effects::{DeviceMode, Effect, Library};
use crate::params::{CalibrationParams, DrvError, LoadParams, Mode, RomParams};
use crate::params::Calibration;
use crate::protocol::{
    spec_frame,
    spec_next,
    spec_request,
    spec_single_frame,
    Action,
    Goal,
    Outcome,
    Phase,
    Reply,
};
use crate::registers::{
    Control3Reg,
    Control4Reg,
    Control5Reg,
    FeedbackControlReg,
    GoReg,
    LibrarySelectionReg,
    ModeReg,
    StatusReg,
};
use crate::settings::{
    lemma_control3_for,
    lemma_mode_for,
    lemma_run_for,
    spec_control1_for,
    spec_control2_for,
    spec_control3_for,
    spec_control4_for,
    spec_feedback_for,
    spec_mode_for,
    spec_run_for,
};

verus! {

/// A failed transaction ends an operation at once, with a connection error:
/// nothing is tried again and nothing more is asked of the bus.
pub proof fn law_fault_ends(lra: bool, goal: Goal, phase: Phase)
    requires
        !(phase is Finished),
    ensures
        spec_next(lra, goal, phase, Reply::Fault) == Phase::Finished(
            Err(DrvError::ConnectionError),
        ),
{
}

/// An operation that has ended keeps its result, whatever it is handed.
pub proof fn law_finished_stays(lra: bool, goal: Goal, phase: Phase, reply: Reply)
    requires
        phase is Finished,
    ensures
        spec_next(lra, goal, phase, reply) == phase,
        spec_request(lra, phase) is Finished,
{
}

/// Entering PWM, analog input or real-time playback reads the mode register
/// and control 3, writes control 3 and then the mode register, and ends.
///
/// Control 3 is written with the open-loop bit as it was read on a resonant
/// actuator and cleared on a non-resonant one, even where an earlier library
/// playback had set it. The mode register is written with the operating
/// mode of the target and with standby as it was read.
pub proof fn law_mode_change(lra: bool, target: Mode, mode: u8, control3: u8)
    requires
        !(target is Rom),
    ensures
        ({
            let first = Phase::ModeReadMode(target);
            let second = spec_next(lra, Goal::SetMode, first, Reply::Byte(mode));
            let third = spec_next(lra, Goal::SetMode, second, Reply::Byte(control3));
            let fourth = spec_next(lra, Goal::SetMode, third, Reply::Written);
            let last = spec_next(lra, Goal::SetMode, fourth, Reply::Written);
            let written3 = spec_control3_for(target, lra, Control3Reg(control3));
            let written = spec_mode_for(target, ModeReg(mode));
            &&& spec_request(lra, first) == Action::Read(0x01)
            &&& spec_request(lra, second) == Action::Read(0x1D)
            &&& spec_request(lra, third) == Action::Write(spec_frame(0x1D, written3.0))
            &&& spec_request(lra, fourth) == Action::Write(spec_frame(0x01, written.0))
            &&& last == Phase::Finished(Ok(Outcome::Done))
            &&& lra ==> written3.spec_erm_open_loop() == Control3Reg(control3).spec_erm_open_loop()
            &&& !lra ==> !written3.spec_erm_open_loop()
            &&& same_outside(control3, written3.0, 0x2A)
            &&& written.spec_standby() == ModeReg(mode).spec_standby()
            &&& same_outside(mode, written.0, 0x07)
        }),
{
    lemma_control3_for(target, lra, Control3Reg(control3));
    lemma_mode_for(target, ModeReg(mode));
}

/// Entering library playback reads the mode register, control 3 and
/// control 5, writes control 5 and the four timing offsets, writes
/// control 3, reads and writes the library selection, writes the mode
/// register last, and ends.
///
/// Control 3 is written with the open-loop bit as it was read on a resonant
/// actuator and set on a non-resonant one.
pub proof fn law_library_playback(
    lra: bool,
    library: Library,
    options: RomParams,
    mode: u8,
    control3: u8,
    control5: u8,
    selection: u8,
)
    ensures
        ({
            let target = Mode::Rom(library, options);
            let at0 = Phase::ModeReadMode(target);
            let at1 = spec_next(lra, Goal::SetMode, at0, Reply::Byte(mode));
            let at2 = spec_next(lra, Goal::SetMode, at1, Reply::Byte(control3));
            let at3 = spec_next(lra, Goal::SetMode, at2, Reply::Byte(control5));
            let at4 = spec_next(lra, Goal::SetMode, at3, Reply::Written);
            let at5 = spec_next(lra, Goal::SetMode, at4, Reply::Written);
            let at6 = spec_next(lra, Goal::SetMode, at5, Reply::Written);
            let at7 = spec_next(lra, Goal::SetMode, at6, Reply::Written);
            let at8 = spec_next(lra, Goal::SetMode, at7, Reply::Written);
            let at9 = spec_next(lra, Goal::SetMode, at8, Reply::Written);
            let at10 = spec_next(lra, Goal::SetMode, at9, Reply::Byte(selection));
            let at11 = spec_next(lra, Goal::SetMode, at10, Reply::Written);
            let last = spec_next(lra, Goal::SetMode, at11, Reply::Written);
            let written3 = spec_control3_for(target, lra, Control3Reg(control3));
            &&& spec_request(lra, at0) == Action::Read(0x01)
            &&& spec_request(lra, at1) == Action::Read(0x1D)
            &&& spec_request(lra, at2) == Action::Read(0x1F)
            &&& spec_request(lra, at3) == Action::Write(
                spec_frame(
                    0x1F,
                    Control5Reg(control5).with_playback_interval(
                        options.decrease_playback_interval,
                    ).0,
                ),
            )
            &&& spec_request(lra, at4) == Action::Write(
                spec_frame(0x0D, options.overdrive_time_offset),
            )
            &&& spec_request(lra, at5) == Action::Write(
                spec_frame(0x0E, options.sustain_positive_offset),
            )
            &&& spec_request(lra, at6) == Action::Write(
                spec_frame(0x0F, options.sustain_negative_offset),
            )
            &&& spec_request(lra, at7) == Action::Write(spec_frame(0x10, options.brake_time_offset))
            &&& spec_request(lra, at8) == Action::Write(spec_frame(0x1D, written3.0))
            &&& spec_request(lra, at9) == Action::Read(0x03)
            &&& spec_request(lra, at10) == Action::Write(
                spec_frame(
                    0x03,
                    LibrarySelectionReg(selection).with_library_selection(library.spec_code()).0,
                ),
            )
            &&& spec_request(lra, at11) == Action::Write(
                spec_frame(0x01, spec_mode_for(target, ModeReg(mode)).0),
            )
            &&& last == Phase::Finished(Ok(Outcome::Done))
            &&& lra ==> written3.spec_erm_open_loop() == Control3Reg(control3).spec_erm_open_loop()
            &&& !lra ==> written3.spec_erm_open_loop()
            &&& same_outside(control3, written3.0, 0x2A)
            &&& spec_mode_for(target, ModeReg(mode)).spec_mode() == 0
        }),
{
    let target = Mode::Rom(library, options);
    lemma_control3_for(target, lra, Control3Reg(control3));
    lemma_mode_for(target, ModeReg(mode));
}

/// Construction fails with a wrong device identifier, after the one read of
/// the status register, unless that register holds the identifier of this
/// device.
pub proof fn law_identity_checked(lra: bool, calibration: Calibration, status: u8)
    requires
        StatusReg(status).spec_device_id() != 7,
    ensures
        spec_request(lra, Phase::ReadIdentity(calibration)) == Action::Read(0x00),
        spec_next(lra, Goal::Construct, Phase::ReadIdentity(calibration), Reply::Byte(status))
            == Phase::Finished(Err(DrvError::WrongDeviceId)),
{
}

/// Construction on factory calibration, with a device whose memory was never
/// programmed, reads the status register and control 4 and fails: it has
/// written nothing, and writes nothing afterwards.
pub proof fn law_unprogrammed_memory(lra: bool, status: u8, control4: u8)
    requires
        StatusReg(status).spec_device_id() == 7,
        !Control4Reg(control4).spec_otp_status(),
    ensures
        ({
            let first = Phase::ReadIdentity(Calibration::Otp);
            let second = spec_next(lra, Goal::Construct, first, Reply::Byte(status));
            let last = spec_next(lra, Goal::Construct, second, Reply::Byte(control4));
            &&& spec_request(lra, first) == Action::Read(0x00)
            &&& spec_request(lra, second) == Action::Read(0x1E)
            &&& last == Phase::Finished(Err(DrvError::OTPNotProgrammed))
            &&& forall|reply: Reply| spec_next(lra, Goal::Construct, last, reply) == last
        }),
{
}

/// Construction on factory calibration, with a device whose memory was
/// programmed, writes nothing but the mode register, with standby set and
/// all else as it was read, and ends with the driver.
pub proof fn law_factory_calibration(lra: bool, status: u8, control4: u8, mode: u8)
    requires
        StatusReg(status).spec_device_id() == 7,
        Control4Reg(control4).spec_otp_status(),
    ensures
        ({
            let at0 = Phase::ReadIdentity(Calibration::Otp);
            let at1 = spec_next(lra, Goal::Construct, at0, Reply::Byte(status));
            let at2 = spec_next(lra, Goal::Construct, at1, Reply::Byte(control4));
            let at3 = spec_next(lra, Goal::Construct, at2, Reply::Byte(mode));
            let last = spec_next(lra, Goal::Construct, at3, Reply::Written);
            let written = ModeReg(mode).with_standby(true);
            &&& spec_request(lra, at0) == Action::Read(0x00)
            &&& spec_request(lra, at1) == Action::Read(0x1E)
            &&& spec_request(lra, at2) == Action::Read(0x01)
            &&& spec_request(lra, at3) == Action::Write(spec_frame(0x01, written.0))
            &&& written.spec_standby()
            &&& same_outside(mode, written.0, 0x40)
            &&& last == Phase::Finished(Ok(Outcome::Ready(Drv2605l::spec_ready(lra))))
        }),
{
    lemma_layout();
    lemma_set_field(mode, 6, 0x01, 1);
}

/// Construction on reloaded values merges the gain into feedback control as it
/// was read, writes the compensation and the back-EMF whole, puts the device
/// in standby and ends with the driver.
pub proof fn law_reload(lra: bool, load: LoadParams, status: u8, feedback: u8, mode: u8)
    requires
        StatusReg(status).spec_device_id() == 7,
    ensures
        ({
            let at0 = Phase::ReadIdentity(Calibration::Load(load));
            let at1 = spec_next(lra, Goal::Construct, at0, Reply::Byte(status));
            let at2 = spec_next(lra, Goal::Construct, at1, Reply::Byte(feedback));
            let at3 = spec_next(lra, Goal::Construct, at2, Reply::Written);
            let at4 = spec_next(lra, Goal::Construct, at3, Reply::Written);
            let at5 = spec_next(lra, Goal::Construct, at4, Reply::Written);
            let at6 = spec_next(lra, Goal::Construct, at5, Reply::Byte(mode));
            let last = spec_next(lra, Goal::Construct, at6, Reply::Written);
            let merged = FeedbackControlReg(feedback).with_bemf_gain(load.back_emf_gain);
            &&& spec_request(lra, at0) == Action::Read(0x00)
            &&& spec_request(lra, at1) == Action::Read(0x1A)
            &&& spec_request(lra, at2) == Action::Write(spec_frame(0x1A, merged.0))
            &&& spec_request(lra, at3) == Action::Write(spec_frame(0x18, load.compenstation))
            &&& spec_request(lra, at4) == Action::Write(spec_frame(0x19, load.back_emf))
            &&& spec_request(lra, at5) == Action::Read(0x01)
            &&& spec_request(lra, at6) == Action::Write(
                spec_frame(0x01, ModeReg(mode).with_standby(true).0),
            )
            &&& last == Phase::Finished(Ok(Outcome::Ready(Drv2605l::spec_ready(lra))))
            &&& merged.spec_bemf_gain() == load.back_emf_gain & 0x03
            &&& same_outside(feedback, merged.0, 0x03)
        }),
{
    lemma_layout();
    lemma_set_field(feedback, 0, 0x03, load.back_emf_gain);
}

/// Construction with a calibration run writes the six registers that describe
/// the motor, then starts the run: it takes the device out of standby and
/// into calibration mode, and sets the trigger.
pub proof fn law_calibration_setup(
    lra: bool,
    params: CalibrationParams,
    status: u8,
    mode: u8,
    trigger: u8,
)
    requires
        StatusReg(status).spec_device_id() == 7,
    ensures
        ({
            let at0 = Phase::ReadIdentity(Calibration::Auto(params));
            let at1 = spec_next(lra, Goal::Construct, at0, Reply::Byte(status));
            let at2 = spec_next(lra, Goal::Construct, at1, Reply::Written);
            let at3 = spec_next(lra, Goal::Construct, at2, Reply::Written);
            let at4 = spec_next(lra, Goal::Construct, at3, Reply::Written);
            let at5 = spec_next(lra, Goal::Construct, at4, Reply::Written);
            let at6 = spec_next(lra, Goal::Construct, at5, Reply::Written);
            let at7 = spec_next(lra, Goal::Construct, at6, Reply::Written);
            let at8 = spec_next(lra, Goal::Construct, at7, Reply::Byte(mode));
            let at9 = spec_next(lra, Goal::Construct, at8, Reply::Written);
            let at10 = spec_next(lra, Goal::Construct, at9, Reply::Byte(trigger));
            let at11 = spec_next(lra, Goal::Construct, at10, Reply::Written);
            let run = spec_run_for(DeviceMode::AutoCalibration, ModeReg(mode));
            &&& spec_request(lra, at0) == Action::Read(0x00)
            &&& spec_request(lra, at1) == Action::Write(
                spec_frame(0x1A, spec_feedback_for(params, lra).0),
            )
            &&& spec_request(lra, at2) == Action::Write(spec_frame(0x1C, spec_control2_for(params).0))
            &&& spec_request(lra, at3) == Action::Write(spec_frame(0x1E, spec_control4_for(params).0))
            &&& spec_request(lra, at4) == Action::Write(spec_frame(0x16, params.rated_voltage))
            &&& spec_request(lra, at5) == Action::Write(
                spec_frame(0x17, params.overdrive_voltage_clamp),
            )
            &&& spec_request(lra, at6) == Action::Write(spec_frame(0x1B, spec_control1_for(params).0))
            &&& spec_request(lra, at7) == Action::Read(0x01)
            &&& spec_request(lra, at8) == Action::Write(spec_frame(0x01, run.0))
            &&& spec_request(lra, at9) == Action::Read(0x0C)
            &&& spec_request(lra, at10) == Action::Write(
                spec_frame(0x0C, GoReg(trigger).with_go(true).0),
            )
            &&& at11 == Phase::PollGo
            &&& !run.spec_standby()
            &&& run.spec_mode() == 7
            &&& GoReg(trigger).with_go(true).spec_go()
        }),
{
    lemma_run_for(DeviceMode::AutoCalibration, ModeReg(mode));
    lemma_layout();
    lemma_set_field(trigger, 0, 0x01, 1);
}

/// A run is polled to its end: while the trigger register reads as set, the
/// next step is to read it again, and the status register is read only once it
/// reads as clear.
pub proof fn law_run_is_polled(lra: bool, goal: Goal, trigger: u8)
    ensures
        spec_request(lra, Phase::PollGo) == Action::Read(0x0C),
        spec_request(lra, Phase::ReadVerdict) == Action::Read(0x00),
        GoReg(trigger).spec_go() ==> spec_next(lra, goal, Phase::PollGo, Reply::Byte(trigger))
            == Phase::PollGo,
        !GoReg(trigger).spec_go() ==> spec_next(lra, goal, Phase::PollGo, Reply::Byte(trigger))
            == Phase::ReadVerdict,
{
}

/// A calibration run that the device reports as failed ends construction with
/// that error. One that succeeded is followed by the reading of its three
/// results, after which the device is put in standby and construction ends
/// with the driver.
pub proof fn law_calibration_verdict(
    lra: bool,
    status: u8,
    feedback: u8,
    compensation: u8,
    back_emf: u8,
    mode: u8,
)
    ensures
        ({
            let at0 = Phase::ReadVerdict;
            let at1 = spec_next(lra, Goal::Construct, at0, Reply::Byte(status));
            let at2 = spec_next(lra, Goal::Construct, at1, Reply::Byte(feedback));
            let at3 = spec_next(lra, Goal::Construct, at2, Reply::Byte(compensation));
            let at4 = spec_next(lra, Goal::Construct, at3, Reply::Byte(back_emf));
            let at5 = spec_next(lra, Goal::Construct, at4, Reply::Byte(mode));
            let last = spec_next(lra, Goal::Construct, at5, Reply::Written);
            &&& StatusReg(status).spec_diagnostic_result() ==> at1 == Phase::Finished(
                Err(DrvError::CalibrationFailed),
            )
            &&& !StatusReg(status).spec_diagnostic_result() ==> {
                &&& spec_request(lra, at1) == Action::Read(0x1A)
                &&& spec_request(lra, at2) == Action::Read(0x18)
                &&& spec_request(lra, at3) == Action::Read(0x19)
                &&& spec_request(lra, at4) == Action::Read(0x01)
                &&& spec_request(lra, at5) == Action::Write(
                    spec_frame(0x01, ModeReg(mode).with_standby(true).0),
                )
                &&& last == Phase::Finished(Ok(Outcome::Ready(Drv2605l::spec_ready(lra))))
            }
        }),
{
}

/// Reading the calibration back gives what the three registers hold: the
/// compensation and the back-EMF whole, and the gain from the two lowest
/// bits of feedback control.
pub proof fn law_calibration_read_back(lra: bool, feedback: u8, compensation: u8, back_emf: u8)
    ensures
        ({
            let at0 = Phase::ReadFeedback;
            let at1 = spec_next(lra, Goal::Calibration, at0, Reply::Byte(feedback));
            let at2 = spec_next(lra, Goal::Calibration, at1, Reply::Byte(compensation));
            let last = spec_next(lra, Goal::Calibration, at2, Reply::Byte(back_emf));
            &&& spec_request(lra, at0) == Action::Read(0x1A)
            &&& spec_request(lra, at1) == Action::Read(0x18)
            &&& spec_request(lra, at2) == Action::Read(0x19)
            &&& last == Phase::Finished(
                Ok(
                    Outcome::Params(
                        LoadParams {
                            compenstation: compensation,
                            back_emf,
                            back_emf_gain: FeedbackControlReg(feedback).spec_bemf_gain(),
                        },
                    ),
                ),
            )
        }),
{
}

/// A diagnostic run takes the device out of standby and into diagnostics
/// mode, sets the trigger, and is polled; it fails if the device reports a
/// fault and succeeds otherwise, without reading any calibration value.
pub proof fn law_diagnostics(lra: bool, mode: u8, trigger: u8, status: u8)
    ensures
        ({
            let at0 = Phase::RunReadMode;
            let at1 = spec_next(lra, Goal::Diagnostics, at0, Reply::Byte(mode));
            let at2 = spec_next(lra, Goal::Diagnostics, at1, Reply::Written);
            let at3 = spec_next(lra, Goal::Diagnostics, at2, Reply::Byte(trigger));
            let at4 = spec_next(lra, Goal::Diagnostics, at3, Reply::Written);
            let last = spec_next(lra, Goal::Diagnostics, Phase::ReadVerdict, Reply::Byte(status));
            let run = spec_run_for(DeviceMode::Diagnostics, ModeReg(mode));
            &&& spec_request(lra, at0) == Action::Read(0x01)
            &&& spec_request(lra, at1) == Action::Write(spec_frame(0x01, run.0))
            &&& spec_request(lra, at2) == Action::Read(0x0C)
            &&& spec_request(lra, at3) == Action::Write(
                spec_frame(0x0C, GoReg(trigger).with_go(true).0),
            )
            &&& at4 == Phase::PollGo
            &&& !run.spec_standby()
            &&& run.spec_mode() == 6
            &&& StatusReg(status).spec_diagnostic_result() ==> last == Phase::Finished(
                Err(DrvError::DeviceDiagnosticFailed),
            )
            &&& !StatusReg(status).spec_diagnostic_result() ==> last == Phase::Finished(
                Ok(Outcome::Done),
            )
        }),
{
    lemma_run_for(DeviceMode::Diagnostics, ModeReg(mode));
}

/// Queueing a single effect is one write of the address of the first
/// sequence slot and exactly two bytes after it: the identifier of the
/// effect and the end of the sequence, whichever effect it is.
pub proof fn law_single_effect(lra: bool, effect: Effect)
    ensures
        spec_request(lra, Phase::WriteSingle(effect)) == Action::Write(spec_single_frame(effect)),
        spec_single_frame(effect).len() == 3,
        spec_single_frame(effect)[0] == 0x04,
        spec_single_frame(effect)[1] == effect.spec_id(),
        spec_single_frame(effect)[2] == Effect::Stop.spec_id(),
        spec_next(lra, Goal::SetRomSingle, Phase::WriteSingle(effect), Reply::Written)
            == Phase::Finished(Ok(Outcome::Done)),
{
}

/// The trigger reads back as it was written: the byte that setting the
/// trigger writes makes a following read of the trigger give `true`, and a
/// byte in which the device has cleared the bit makes it give `false`.
/// Setting the trigger keeps the other bits of the register.
pub proof fn law_trigger_reads_back(lra: bool, held: u8, cleared: u8)
    requires
        !GoReg(cleared).spec_go(),
    ensures
        ({
            let first = Phase::GoRead;
            let second = spec_next(lra, Goal::SetGo, first, Reply::Byte(held));
            let last = spec_next(lra, Goal::SetGo, second, Reply::Written);
            let written = GoReg(held).with_go(true);
            &&& spec_request(lra, first) == Action::Read(0x0C)
            &&& spec_request(lra, second) == Action::Write(spec_frame(0x0C, written.0))
            &&& last == Phase::Finished(Ok(Outcome::Done))
            &&& same_outside(held, written.0, 0x01)
            &&& spec_next(lra, Goal::Go, Phase::ReadGo, Reply::Byte(written.0)) == Phase::Finished(
                Ok(Outcome::Flag(true)),
            )
            &&& spec_next(lra, Goal::Go, Phase::ReadGo, Reply::Byte(cleared)) == Phase::Finished(
                Ok(Outcome::Flag(false)),
            )
        }),
{
    lemma_layout();
    lemma_set_field(held, 0, 0x01, 1);
}

/// Setting or clearing standby reads the mode register and writes it back
/// with that one bit changed: the mode and every other setting stay.
pub proof fn law_standby(lra: bool, enable: bool, mode: u8)
    ensures
        ({
            let first = Phase::StandbyRead(enable);
            let second = spec_next(lra, Goal::SetStandby, first, Reply::Byte(mode));
            let last = spec_next(lra, Goal::SetStandby, second, Reply::Written);
            let written = ModeReg(mode).with_standby(enable);
            &&& spec_request(lra, first) == Action::Read(0x01)
            &&& spec_request(lra, second) == Action::Write(spec_frame(0x01, written.0))
            &&& last == Phase::Finished(Ok(Outcome::Done))
            &&& written.spec_standby() == enable
            &&& same_outside(mode, written.0, 0x40)
        }),
{
    lemma_layout();
    lemma_set_field(mode, 6, 0x01, if enable {
        1
    } else {
        0
    });
}

/// The registers that are read whole are handed back as they were read.
pub proof fn law_reads(lra: bool, byte: u8)
    ensures
        spec_next(lra, Goal::Status, Phase::ReadStatus, Reply::Byte(byte)) == Phase::Finished(
            Ok(Outcome::Byte(byte)),
        ),
        spec_next(lra, Goal::Rtp, Phase::ReadRtp, Reply::Byte(byte)) == Phase::Finished(
            Ok(Outcome::Byte(byte)),
        ),
        spec_next(lra, Goal::Go, Phase::ReadGo, Reply::Byte(byte)) == Phase::Finished(
            Ok(Outcome::Flag(GoReg(byte).spec_go())),
        ),
{
}

} // verus!
