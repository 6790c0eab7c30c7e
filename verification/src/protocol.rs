//! The driver's operations as a state machine that never touches the bus.
//!
//! An [`Operation`] is one call on the driver in progress. At every moment it
//! has one [`Step`] outstanding: a register to read, a frame to write, or its
//! result. Whoever owns the bus performs the transaction and hands the
//! [`Reply`] to [`Operation::resume`], which decides what comes next. The
//! device's state lives in its registers alone: an operation keeps what it
//! has read only until it has written it back.

use vstd::prelude::*;
use crate::driver::Drv2605l;
use crate::effects::{DeviceMode, Effect, Library};
use crate::params::{Calibration, CalibrationParams, DrvError, LoadParams, Mode, RomParams};
use crate::registers::{
    AutoCalibrationCompensationReg,
    Control3Reg,
    Control4Reg,
    Control5Reg,
    FeedbackControlReg,
    GoReg,
    LibrarySelectionReg,
    ModeReg,
    StatusReg,
};
use crate::settings::{
    spec_control1_for,
    spec_control2_for,
    spec_control3_for,
    spec_control4_for,
    spec_feedback_for,
    spec_mode_for,
    spec_reset_request,
    spec_run_for,
};

verus! {

/// The address of the device on the bus. Every device of this kind answers to
/// it, so one write reaches all of them.
pub const ADDRESS: u8 = 0x5A;

/// The identifier that the status register of this device reports.
pub const DEVICE_ID: u8 = 7;

/// What the bus made of the outstanding transaction.
#[derive(Clone, Copy, Debug, PartialEq, Eq)]
pub enum Reply {
    /// The frame was written.
    Written,
    /// The register was read and held this byte.
    Byte(u8),
    /// The transaction failed.
    Fault,
}

/// What an operation hands back when it succeeds.
#[derive(Clone, Copy, Debug, PartialEq, Eq)]
pub enum Outcome {
    /// Nothing but the success.
    Done,
    /// A register's byte.
    Byte(u8),
    /// A register's bit.
    Flag(bool),
    /// The calibration values that the device holds.
    Params(LoadParams),
    /// The driver of a device that was identified, calibrated and put in
    /// standby.
    Ready(Drv2605l),
}

/// What the caller asked for. It decides how an operation ends and what its
/// result is.
#[derive(Clone, Copy, Debug, PartialEq, Eq, Structural)]
pub enum Goal {
    Construct,
    SetMode,
    SetRom,
    SetRomSingle,
    SetRtp,
    Rtp,
    SetGo,
    Go,
    SetStandby,
    Status,
    Calibration,
    Diagnostics,
    Reset,
}

/// What is left to do for library playback once the mode register and
/// control 3 have been read: the library, the timing offsets, and the two
/// bytes that go back to those registers at the end.
#[derive(Clone, Copy, Debug)]
pub struct RomPlan {
    pub library: Library,
    pub options: RomParams,
    pub control3: Control3Reg,
    pub mode: ModeReg,
}

/// Where an operation stands: the transaction that is outstanding, with
/// what the later ones need. A phase that writes a register composed from a
/// byte read before holds the byte to write.
#[derive(Clone, Copy, Debug)]
pub enum Phase {
    /// Construction reads the status register to identify the device.
    ReadIdentity(Calibration),
    /// Factory calibration: reads control 4 for the state of the memory.
    ReadOtp,
    /// Reload: reads feedback control to merge the gain into it.
    LoadReadFeedback(LoadParams),
    /// Reload: writes feedback control with the gain merged in.
    LoadWriteFeedback(FeedbackControlReg, LoadParams),
    /// Reload: writes the compensation.
    LoadWriteCompensation(LoadParams),
    /// Reload: writes the back-EMF.
    LoadWriteBackEmf(LoadParams),
    /// Calibration run: writes feedback control.
    AutoWriteFeedback(CalibrationParams),
    /// Calibration run: writes control 2.
    AutoWriteControl2(CalibrationParams),
    /// Calibration run: writes control 4.
    AutoWriteControl4(CalibrationParams),
    /// Calibration run: writes the rated voltage.
    AutoWriteRatedVoltage(CalibrationParams),
    /// Calibration run: writes the overdrive clamp.
    AutoWriteClamp(CalibrationParams),
    /// Calibration run: writes control 1.
    AutoWriteControl1(CalibrationParams),
    /// A run reads the mode register.
    RunReadMode,
    /// A run writes the mode register: out of standby, in the run's mode.
    RunWriteMode(ModeReg),
    /// The trigger register is read, to set the trigger in it.
    GoRead,
    /// The trigger register is written with the trigger set.
    GoWrite(GoReg),
    /// A run reads the trigger register until the device has cleared it.
    PollGo,
    /// A run reads the status register for its result.
    ReadVerdict,
    /// The calibration values are read: feedback control first.
    ReadFeedback,
    /// The calibration values are read: the compensation.
    ReadCompensation(FeedbackControlReg),
    /// The calibration values are read: the back-EMF.
    ReadBackEmf(FeedbackControlReg, AutoCalibrationCompensationReg),
    /// Standby is set or cleared: reads the mode register.
    StandbyRead(bool),
    /// Standby is set or cleared: writes the mode register.
    StandbyWrite(ModeReg),
    /// A mode change reads the mode register.
    ModeReadMode(Mode),
    /// A mode change reads control 3.
    ModeReadControl3(Mode, ModeReg),
    /// Library playback: reads control 5.
    RomReadControl5(RomPlan),
    /// Library playback: writes control 5 with the playback interval.
    RomWriteControl5(Control5Reg, RomPlan),
    /// Library playback: writes the overdrive time offset.
    RomWriteOverdrive(RomPlan),
    /// Library playback: writes the positive sustain time offset.
    RomWriteSustainPositive(RomPlan),
    /// Library playback: writes the negative sustain time offset.
    RomWriteSustainNegative(RomPlan),
    /// Library playback: writes the brake time offset.
    RomWriteBrake(RomPlan),
    /// A mode change writes control 3. With a library, the library selection
    /// follows; the mode register comes last.
    ModeWriteControl3(Control3Reg, Option<Library>, ModeReg),
    /// Library playback: reads the library selection.
    RomReadLibrary(Library, ModeReg),
    /// Library playback: writes the library selection.
    RomWriteLibrary(LibrarySelectionReg, ModeReg),
    /// A mode change writes the mode register.
    ModeWriteMode(ModeReg),
    /// The status register is read.
    ReadStatus,
    /// The real-time playback amplitude is read.
    ReadRtp,
    /// The trigger register is read.
    ReadGo,
    /// The real-time playback amplitude is written.
    WriteRtp(u8),
    /// All eight waveform sequence slots are written.
    WriteSequence([Effect; 8]),
    /// The first waveform sequence slot is written, and an end after it.
    WriteSingle(Effect),
    /// A reset is requested.
    ResetWrite,
    /// The mode register is read until the device has cleared the request.
    ResetPoll,
    /// The operation has ended, with this result.
    Finished(Result<Outcome, DrvError>),
}

/// What an operation asks of the bus, or its result. In a contract a frame is
/// the sequence of its bytes.
pub enum Action {
    /// Read one byte from the register at this address.
    Read(u8),
    /// Write this frame: a register address, then the bytes for that register
    /// and for those that follow it.
    Write(Seq<u8>),
    /// Nothing: the operation has ended.
    Finished(Result<Outcome, DrvError>),
}

/// What an operation asks of the bus, or its result.
#[derive(Debug, PartialEq, Eq)]
pub enum Step {
    /// Read one byte from the register at this address: a write of the
    /// address followed by a read of one byte, in one transaction.
    Read(u8),
    /// Write this frame: a register address, then the bytes for that register
    /// and for those that follow it.
    Write(Vec<u8>),
    /// Nothing: the operation has ended.
    Finished(Result<Outcome, DrvError>),
}

impl View for Step {
    type V = Action;

    open spec fn view(&self) -> Action {
        match *self {
            Step::Read(register) => Action::Read(register),
            Step::Write(frame) => Action::Write(frame@),
            Step::Finished(result) => Action::Finished(result),
        }
    }
}

/// The frame that writes one register.
pub open spec fn spec_frame(register: u8, value: u8) -> Seq<u8> {
    seq![register, value]
}

/// The frame that fills the eight waveform sequence slots.
pub open spec fn spec_sequence_frame(effects: [Effect; 8]) -> Seq<u8> {
    seq![
        0x04u8,
        effects[0].spec_id(),
        effects[1].spec_id(),
        effects[2].spec_id(),
        effects[3].spec_id(),
        effects[4].spec_id(),
        effects[5].spec_id(),
        effects[6].spec_id(),
        effects[7].spec_id(),
    ]
}

/// The frame that queues one effect: its identifier in the first slot and the
/// end of the sequence in the second.
pub open spec fn spec_single_frame(effect: Effect) -> Seq<u8> {
    seq![0x04u8, effect.spec_id(), 0u8]
}

/// The mode of a run: diagnostics where that was asked for, calibration
/// otherwise.
pub open spec fn spec_run_mode(goal: Goal) -> DeviceMode {
    if goal is Diagnostics {
        DeviceMode::Diagnostics
    } else {
        DeviceMode::AutoCalibration
    }
}

/// The transaction that is outstanding in a phase.
pub open spec fn spec_request(lra: bool, phase: Phase) -> Action {
    match phase {
        Phase::ReadIdentity(_) => Action::Read(0x00),
        Phase::ReadOtp => Action::Read(0x1E),
        Phase::LoadReadFeedback(_) => Action::Read(0x1A),
        Phase::LoadWriteFeedback(value, _) => Action::Write(spec_frame(0x1A, value.0)),
        Phase::LoadWriteCompensation(load) => Action::Write(spec_frame(0x18, load.compenstation)),
        Phase::LoadWriteBackEmf(load) => Action::Write(spec_frame(0x19, load.back_emf)),
        Phase::AutoWriteFeedback(params) => Action::Write(
            spec_frame(0x1A, spec_feedback_for(params, lra).0),
        ),
        Phase::AutoWriteControl2(params) => Action::Write(
            spec_frame(0x1C, spec_control2_for(params).0),
        ),
        Phase::AutoWriteControl4(params) => Action::Write(
            spec_frame(0x1E, spec_control4_for(params).0),
        ),
        Phase::AutoWriteRatedVoltage(params) => Action::Write(
            spec_frame(0x16, params.rated_voltage),
        ),
        Phase::AutoWriteClamp(params) => Action::Write(
            spec_frame(0x17, params.overdrive_voltage_clamp),
        ),
        Phase::AutoWriteControl1(params) => Action::Write(
            spec_frame(0x1B, spec_control1_for(params).0),
        ),
        Phase::RunReadMode => Action::Read(0x01),
        Phase::RunWriteMode(value) => Action::Write(spec_frame(0x01, value.0)),
        Phase::GoRead => Action::Read(0x0C),
        Phase::GoWrite(value) => Action::Write(spec_frame(0x0C, value.0)),
        Phase::PollGo => Action::Read(0x0C),
        Phase::ReadVerdict => Action::Read(0x00),
        Phase::ReadFeedback => Action::Read(0x1A),
        Phase::ReadCompensation(_) => Action::Read(0x18),
        Phase::ReadBackEmf(_, _) => Action::Read(0x19),
        Phase::StandbyRead(_) => Action::Read(0x01),
        Phase::StandbyWrite(value) => Action::Write(spec_frame(0x01, value.0)),
        Phase::ModeReadMode(_) => Action::Read(0x01),
        Phase::ModeReadControl3(_, _) => Action::Read(0x1D),
        Phase::RomReadControl5(_) => Action::Read(0x1F),
        Phase::RomWriteControl5(value, _) => Action::Write(spec_frame(0x1F, value.0)),
        Phase::RomWriteOverdrive(plan) => Action::Write(
            spec_frame(0x0D, plan.options.overdrive_time_offset),
        ),
        Phase::RomWriteSustainPositive(plan) => Action::Write(
            spec_frame(0x0E, plan.options.sustain_positive_offset),
        ),
        Phase::RomWriteSustainNegative(plan) => Action::Write(
            spec_frame(0x0F, plan.options.sustain_negative_offset),
        ),
        Phase::RomWriteBrake(plan) => Action::Write(
            spec_frame(0x10, plan.options.brake_time_offset),
        ),
        Phase::ModeWriteControl3(value, _, _) => Action::Write(spec_frame(0x1D, value.0)),
        Phase::RomReadLibrary(_, _) => Action::Read(0x03),
        Phase::RomWriteLibrary(value, _) => Action::Write(spec_frame(0x03, value.0)),
        Phase::ModeWriteMode(value) => Action::Write(spec_frame(0x01, value.0)),
        Phase::ReadStatus => Action::Read(0x00),
        Phase::ReadRtp => Action::Read(0x02),
        Phase::ReadGo => Action::Read(0x0C),
        Phase::WriteRtp(duty) => Action::Write(spec_frame(0x02, duty)),
        Phase::WriteSequence(effects) => Action::Write(spec_sequence_frame(effects)),
        Phase::WriteSingle(effect) => Action::Write(spec_single_frame(effect)),
        Phase::ResetWrite => Action::Write(spec_frame(0x01, spec_reset_request().0)),
        Phase::ResetPoll => Action::Read(0x01),
        Phase::Finished(result) => Action::Finished(result),
    }
}

/// The phase after a failed transaction: the operation ends with a
/// connection error. One that had ended stays as it is.
pub open spec fn spec_after_fault(phase: Phase) -> Phase {
    match phase {
        Phase::Finished(result) => Phase::Finished(result),
        _ => Phase::Finished(Err(DrvError::ConnectionError)),
    }
}

/// The phase after a register was read and held `byte`. Where no read was
/// outstanding, the answer belongs to no request and counts as a failed
/// transaction.
pub open spec fn spec_after_read(lra: bool, goal: Goal, phase: Phase, byte: u8) -> Phase {
    match phase {
        Phase::ReadIdentity(calibration) => if StatusReg(byte).spec_device_id() != DEVICE_ID {
            Phase::Finished(Err(DrvError::WrongDeviceId))
        } else {
            match calibration {
                Calibration::Otp => Phase::ReadOtp,
                Calibration::Load(load) => Phase::LoadReadFeedback(load),
                Calibration::Auto(params) => Phase::AutoWriteFeedback(params),
            }
        },
        Phase::ReadOtp => if Control4Reg(byte).spec_otp_status() {
            Phase::StandbyRead(true)
        } else {
            Phase::Finished(Err(DrvError::OTPNotProgrammed))
        },
        Phase::LoadReadFeedback(load) => Phase::LoadWriteFeedback(
            FeedbackControlReg(byte).with_bemf_gain(load.back_emf_gain),
            load,
        ),
        Phase::RunReadMode => Phase::RunWriteMode(spec_run_for(spec_run_mode(goal), ModeReg(byte))),
        Phase::GoRead => Phase::GoWrite(GoReg(byte).with_go(true)),
        Phase::PollGo => if GoReg(byte).spec_go() {
            Phase::PollGo
        } else {
            Phase::ReadVerdict
        },
        Phase::ReadVerdict => if StatusReg(byte).spec_diagnostic_result() {
            if goal is Diagnostics {
                Phase::Finished(Err(DrvError::DeviceDiagnosticFailed))
            } else {
                Phase::Finished(Err(DrvError::CalibrationFailed))
            }
        } else if goal is Diagnostics {
            Phase::Finished(Ok(Outcome::Done))
        } else {
            Phase::ReadFeedback
        },
        Phase::ReadFeedback => Phase::ReadCompensation(FeedbackControlReg(byte)),
        Phase::ReadCompensation(feedback) => Phase::ReadBackEmf(
            feedback,
            AutoCalibrationCompensationReg(byte),
        ),
        Phase::ReadBackEmf(feedback, compensation) => if goal is Construct {
            Phase::StandbyRead(true)
        } else {
            Phase::Finished(
                Ok(
                    Outcome::Params(
                        LoadParams {
                            compenstation: compensation.0,
                            back_emf: byte,
                            back_emf_gain: feedback.spec_bemf_gain(),
                        },
                    ),
                ),
            )
        },
        Phase::StandbyRead(enable) => Phase::StandbyWrite(ModeReg(byte).with_standby(enable)),
        Phase::ModeReadMode(target) => Phase::ModeReadControl3(target, ModeReg(byte)),
        Phase::ModeReadControl3(target, mode) => match target {
            Mode::Rom(library, options) => Phase::RomReadControl5(
                RomPlan {
                    library,
                    options,
                    control3: spec_control3_for(target, lra, Control3Reg(byte)),
                    mode: spec_mode_for(target, mode),
                },
            ),
            _ => Phase::ModeWriteControl3(
                spec_control3_for(target, lra, Control3Reg(byte)),
                None,
                spec_mode_for(target, mode),
            ),
        },
        Phase::RomReadControl5(plan) => Phase::RomWriteControl5(
            Control5Reg(byte).with_playback_interval(plan.options.decrease_playback_interval),
            plan,
        ),
        Phase::RomReadLibrary(library, mode) => Phase::RomWriteLibrary(
            LibrarySelectionReg(byte).with_library_selection(library.spec_code()),
            mode,
        ),
        Phase::ReadStatus => Phase::Finished(Ok(Outcome::Byte(byte))),
        Phase::ReadRtp => Phase::Finished(Ok(Outcome::Byte(byte))),
        Phase::ReadGo => Phase::Finished(Ok(Outcome::Flag(GoReg(byte).spec_go()))),
        Phase::ResetPoll => if ModeReg(byte).spec_dev_reset() {
            Phase::ResetPoll
        } else {
            Phase::Finished(Ok(Outcome::Done))
        },
        Phase::Finished(result) => Phase::Finished(result),
        _ => Phase::Finished(Err(DrvError::ConnectionError)),
    }
}

/// The phase after a frame was written. Where no write was outstanding, the
/// answer belongs to no request and counts as a failed transaction.
pub open spec fn spec_after_write(lra: bool, goal: Goal, phase: Phase) -> Phase {
    match phase {
        Phase::LoadWriteFeedback(_, load) => Phase::LoadWriteCompensation(load),
        Phase::LoadWriteCompensation(load) => Phase::LoadWriteBackEmf(load),
        Phase::LoadWriteBackEmf(_) => Phase::StandbyRead(true),
        Phase::AutoWriteFeedback(params) => Phase::AutoWriteControl2(params),
        Phase::AutoWriteControl2(params) => Phase::AutoWriteControl4(params),
        Phase::AutoWriteControl4(params) => Phase::AutoWriteRatedVoltage(params),
        Phase::AutoWriteRatedVoltage(params) => Phase::AutoWriteClamp(params),
        Phase::AutoWriteClamp(params) => Phase::AutoWriteControl1(params),
        Phase::AutoWriteControl1(_) => Phase::RunReadMode,
        Phase::RunWriteMode(_) => Phase::GoRead,
        Phase::GoWrite(_) => if goal is SetGo {
            Phase::Finished(Ok(Outcome::Done))
        } else {
            Phase::PollGo
        },
        Phase::StandbyWrite(_) => if goal is Construct {
            Phase::Finished(Ok(Outcome::Ready(Drv2605l::spec_ready(lra))))
        } else {
            Phase::Finished(Ok(Outcome::Done))
        },
        Phase::RomWriteControl5(_, plan) => Phase::RomWriteOverdrive(plan),
        Phase::RomWriteOverdrive(plan) => Phase::RomWriteSustainPositive(plan),
        Phase::RomWriteSustainPositive(plan) => Phase::RomWriteSustainNegative(plan),
        Phase::RomWriteSustainNegative(plan) => Phase::RomWriteBrake(plan),
        Phase::RomWriteBrake(plan) => Phase::ModeWriteControl3(
            plan.control3,
            Some(plan.library),
            plan.mode,
        ),
        Phase::ModeWriteControl3(_, selection, mode) => match selection {
            Some(library) => Phase::RomReadLibrary(library, mode),
            None => Phase::ModeWriteMode(mode),
        },
        Phase::RomWriteLibrary(_, mode) => Phase::ModeWriteMode(mode),
        Phase::ModeWriteMode(_) => Phase::Finished(Ok(Outcome::Done)),
        Phase::WriteRtp(_) => Phase::Finished(Ok(Outcome::Done)),
        Phase::WriteSequence(_) => Phase::Finished(Ok(Outcome::Done)),
        Phase::WriteSingle(_) => Phase::Finished(Ok(Outcome::Done)),
        Phase::ResetWrite => Phase::ResetPoll,
        Phase::Finished(result) => Phase::Finished(result),
        _ => Phase::Finished(Err(DrvError::ConnectionError)),
    }
}

/// Whether an operation with this goal can end with this outcome.
pub open spec fn yields(lra: bool, goal: Goal, outcome: Outcome) -> bool {
    match goal {
        Goal::Construct => outcome == Outcome::Ready(Drv2605l::spec_ready(lra)),
        Goal::Rtp => outcome is Byte,
        Goal::Status => outcome is Byte,
        Goal::Go => outcome is Flag,
        Goal::Calibration => outcome is Params,
        _ => outcome == Outcome::Done,
    }
}

/// Whether an operation with this goal can end with this error. A failed
/// transaction can end any; the others belong to construction or to a
/// diagnostic run. No operation reports a wrong motor type.
pub open spec fn raises(goal: Goal, error: DrvError) -> bool {
    match error {
        DrvError::ConnectionError => true,
        DrvError::WrongDeviceId => goal is Construct,
        DrvError::OTPNotProgrammed => goal is Construct,
        DrvError::CalibrationFailed => goal is Construct,
        DrvError::DeviceDiagnosticFailed => goal is Diagnostics,
        DrvError::WrongMotorType => false,
    }
}

/// Whether a phase is one that an operation with this goal passes through.
/// Every operation that the driver starts is consistent, and stays so.
pub open spec fn consistent(lra: bool, goal: Goal, phase: Phase) -> bool {
    match phase {
        Phase::ReadIdentity(_) => goal is Construct,
        Phase::ReadOtp => goal is Construct,
        Phase::LoadReadFeedback(_) => goal is Construct,
        Phase::LoadWriteFeedback(_, _) => goal is Construct,
        Phase::LoadWriteCompensation(_) => goal is Construct,
        Phase::LoadWriteBackEmf(_) => goal is Construct,
        Phase::AutoWriteFeedback(_) => goal is Construct,
        Phase::AutoWriteControl2(_) => goal is Construct,
        Phase::AutoWriteControl4(_) => goal is Construct,
        Phase::AutoWriteRatedVoltage(_) => goal is Construct,
        Phase::AutoWriteClamp(_) => goal is Construct,
        Phase::AutoWriteControl1(_) => goal is Construct,
        Phase::RunReadMode => goal is Construct || goal is Diagnostics,
        Phase::RunWriteMode(_) => goal is Construct || goal is Diagnostics,
        Phase::GoRead => goal is Construct || goal is Diagnostics || goal is SetGo,
        Phase::GoWrite(_) => goal is Construct || goal is Diagnostics || goal is SetGo,
        Phase::PollGo => goal is Construct || goal is Diagnostics,
        Phase::ReadVerdict => goal is Construct || goal is Diagnostics,
        Phase::ReadFeedback => goal is Construct || goal is Calibration,
        Phase::ReadCompensation(_) => goal is Construct || goal is Calibration,
        Phase::ReadBackEmf(_, _) => goal is Construct || goal is Calibration,
        Phase::StandbyRead(_) => goal is Construct || goal is SetStandby,
        Phase::StandbyWrite(_) => goal is Construct || goal is SetStandby,
        Phase::ModeReadMode(_) => goal is SetMode,
        Phase::ModeReadControl3(_, _) => goal is SetMode,
        Phase::RomReadControl5(_) => goal is SetMode,
        Phase::RomWriteControl5(_, _) => goal is SetMode,
        Phase::RomWriteOverdrive(_) => goal is SetMode,
        Phase::RomWriteSustainPositive(_) => goal is SetMode,
        Phase::RomWriteSustainNegative(_) => goal is SetMode,
        Phase::RomWriteBrake(_) => goal is SetMode,
        Phase::ModeWriteControl3(_, _, _) => goal is SetMode,
        Phase::RomReadLibrary(_, _) => goal is SetMode,
        Phase::RomWriteLibrary(_, _) => goal is SetMode,
        Phase::ModeWriteMode(_) => goal is SetMode,
        Phase::ReadStatus => goal is Status,
        Phase::ReadRtp => goal is Rtp,
        Phase::ReadGo => goal is Go,
        Phase::WriteRtp(_) => goal is SetRtp,
        Phase::WriteSequence(_) => goal is SetRom,
        Phase::WriteSingle(_) => goal is SetRomSingle,
        Phase::ResetWrite => goal is Reset,
        Phase::ResetPoll => goal is Reset,
        Phase::Finished(Ok(outcome)) => yields(lra, goal, outcome),
        Phase::Finished(Err(error)) => raises(goal, error),
    }
}

/// An operation stays consistent whatever the bus answers.
pub proof fn lemma_consistent_next(lra: bool, goal: Goal, phase: Phase, reply: Reply)
    requires
        consistent(lra, goal, phase),
    ensures
        consistent(lra, goal, spec_next(lra, goal, phase, reply)),
{
}

/// The phase that follows `phase` when the bus answers with `reply`.
pub open spec fn spec_next(lra: bool, goal: Goal, phase: Phase, reply: Reply) -> Phase {
    match reply {
        Reply::Written => spec_after_write(lra, goal, phase),
        Reply::Byte(byte) => spec_after_read(lra, goal, phase, byte),
        Reply::Fault => spec_after_fault(phase),
    }
}

} // verus!
