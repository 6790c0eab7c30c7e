//! An operation in progress: the state machine of the protocol, as the code
//! that owns the bus drives it.

use vstd::prelude::*;
use crate::driver::Drv2605l;
use crate::effects::{DeviceMode, Effect};
use crate::params::{Calibration, DrvError, LoadParams, Mode};
use crate::protocol::{
    consistent,
    lemma_consistent_next,
    spec_after_fault,
    spec_after_read,
    spec_after_write,
    spec_frame,
    spec_next,
    spec_request,
    spec_sequence_frame,
    spec_single_frame,
    Goal,
    Outcome,
    Phase,
    Reply,
    RomPlan,
    Step,
    DEVICE_ID,
};
use crate::registers::{
    AutoCalibrationCompensationBackEmfReg,
    AutoCalibrationCompensationReg,
    BrakeTimeOffsetReg,
    Control1Reg,
    Control2Reg,
    Control3Reg,
    Control4Reg,
    Control5Reg,
    FeedbackControlReg,
    GoReg,
    LibrarySelectionReg,
    ModeReg,
    OverdriveClampReg,
    OverdriveTimeOffsetReg,
    RatedVoltageReg,
    RealTimePlaybackInputReg,
    StatusReg,
    SustainTimeOffsetNegativeReg,
    SustainTimeOffsetPositiveReg,
    Waveform0Reg,
};
use crate::settings::{
    control1_for,
    control2_for,
    control3_for,
    control4_for,
    feedback_for,
    mode_for,
    reset_request,
    run_for,
};

verus! {

/// One call on the driver in progress.
///
/// The caller asks for the outstanding [`Step`], performs it on the bus and
/// hands the answer to [`Operation::resume`], until the step is
/// [`Step::Finished`].
#[derive(Clone, Copy, Debug)]
pub struct Operation {
    lra: bool,
    goal: Goal,
    phase: Phase,
}

/// The frame that writes one register.
fn frame(register: u8, value: u8) -> (bytes: Vec<u8>)
    ensures
        bytes@ == spec_frame(register, value),
{
    let mut bytes: Vec<u8> = Vec::new();
    bytes.push(register);
    bytes.push(value);
    assert(bytes@ =~= spec_frame(register, value));
    bytes
}

/// The frame that fills the eight waveform sequence slots.
fn sequence_frame(effects: &[Effect; 8]) -> (bytes: Vec<u8>)
    ensures
        bytes@ == spec_sequence_frame(*effects),
{
    let mut bytes: Vec<u8> = Vec::new();
    bytes.push(Waveform0Reg::ADDRESS);
    bytes.push(effects[0].id());
    bytes.push(effects[1].id());
    bytes.push(effects[2].id());
    bytes.push(effects[3].id());
    bytes.push(effects[4].id());
    bytes.push(effects[5].id());
    bytes.push(effects[6].id());
    bytes.push(effects[7].id());
    assert(bytes@ =~= spec_sequence_frame(*effects));
    bytes
}

/// The frame that queues one effect and ends the sequence after it.
fn single_frame(effect: Effect) -> (bytes: Vec<u8>)
    ensures
        bytes@ == spec_single_frame(effect),
{
    let mut bytes: Vec<u8> = Vec::new();
    bytes.push(Waveform0Reg::ADDRESS);
    bytes.push(effect.id());
    bytes.push(Effect::Stop.id());
    assert(bytes@ =~= spec_single_frame(effect));
    bytes
}

/// The phase after a register was read and held `byte`.
fn after_read(lra: bool, goal: Goal, phase: Phase, byte: u8) -> (next: Phase)
    ensures
        next == spec_after_read(lra, goal, phase, byte),
{
    match phase {
        Phase::ReadIdentity(calibration) => {
            if StatusReg::new(byte).device_id() != DEVICE_ID {
                Phase::Finished(Err(DrvError::WrongDeviceId))
            } else {
                match calibration {
                    Calibration::Otp => Phase::ReadOtp,
                    Calibration::Load(load) => Phase::LoadReadFeedback(load),
                    Calibration::Auto(params) => Phase::AutoWriteFeedback(params),
                }
            }
        },
        Phase::ReadOtp => {
            if Control4Reg::new(byte).otp_status() {
                Phase::StandbyRead(true)
            } else {
                Phase::Finished(Err(DrvError::OTPNotProgrammed))
            }
        },
        Phase::LoadReadFeedback(load) => {
            let mut feedback = FeedbackControlReg::new(byte);
            feedback.set_bemf_gain(load.back_emf_gain);
            Phase::LoadWriteFeedback(feedback, load)
        },
        Phase::RunReadMode => {
            let run = match goal {
                Goal::Diagnostics => DeviceMode::Diagnostics,
                _ => DeviceMode::AutoCalibration,
            };
            Phase::RunWriteMode(run_for(run, ModeReg::new(byte)))
        },
        Phase::GoRead => {
            let mut go = GoReg::new(byte);
            go.set_go(true);
            Phase::GoWrite(go)
        },
        Phase::PollGo => {
            if GoReg::new(byte).go() {
                Phase::PollGo
            } else {
                Phase::ReadVerdict
            }
        },
        Phase::ReadVerdict => {
            let failed = StatusReg::new(byte).diagnostic_result();
            match goal {
                Goal::Diagnostics => {
                    if failed {
                        Phase::Finished(Err(DrvError::DeviceDiagnosticFailed))
                    } else {
                        Phase::Finished(Ok(Outcome::Done))
                    }
                },
                _ => {
                    if failed {
                        Phase::Finished(Err(DrvError::CalibrationFailed))
                    } else {
                        Phase::ReadFeedback
                    }
                },
            }
        },
        Phase::ReadFeedback => Phase::ReadCompensation(FeedbackControlReg::new(byte)),
        Phase::ReadCompensation(feedback) => Phase::ReadBackEmf(
            feedback,
            AutoCalibrationCompensationReg::new(byte),
        ),
        Phase::ReadBackEmf(feedback, compensation) => {
            match goal {
                Goal::Construct => Phase::StandbyRead(true),
                _ => Phase::Finished(
                    Ok(
                        Outcome::Params(
                            LoadParams {
                                compenstation: compensation.value(),
                                back_emf: AutoCalibrationCompensationBackEmfReg::new(byte).value(),
                                back_emf_gain: feedback.bemf_gain(),
                            },
                        ),
                    ),
                ),
            }
        },
        Phase::StandbyRead(enable) => {
            let mut mode = ModeReg::new(byte);
            mode.set_standby(enable);
            Phase::StandbyWrite(mode)
        },
        Phase::ModeReadMode(target) => Phase::ModeReadControl3(target, ModeReg::new(byte)),
        Phase::ModeReadControl3(target, mode) => {
            let control3 = control3_for(target, lra, Control3Reg::new(byte));
            let mode = mode_for(target, mode);
            match target {
                Mode::Rom(library, options) => Phase::RomReadControl5(
                    RomPlan { library, options, control3, mode },
                ),
                _ => Phase::ModeWriteControl3(control3, None, mode),
            }
        },
        Phase::RomReadControl5(plan) => {
            let mut control5 = Control5Reg::new(byte);
            control5.set_playback_interval(plan.options.decrease_playback_interval);
            Phase::RomWriteControl5(control5, plan)
        },
        Phase::RomReadLibrary(library, mode) => {
            let mut selection = LibrarySelectionReg::new(byte);
            selection.set_library_selection(library.code());
            Phase::RomWriteLibrary(selection, mode)
        },
        Phase::ReadStatus => Phase::Finished(Ok(Outcome::Byte(StatusReg::new(byte).value()))),
        Phase::ReadRtp => Phase::Finished(
            Ok(Outcome::Byte(RealTimePlaybackInputReg::new(byte).value())),
        ),
        Phase::ReadGo => Phase::Finished(Ok(Outcome::Flag(GoReg::new(byte).go()))),
        Phase::ResetPoll => {
            if ModeReg::new(byte).dev_reset() {
                Phase::ResetPoll
            } else {
                Phase::Finished(Ok(Outcome::Done))
            }
        },
        Phase::Finished(result) => Phase::Finished(result),
        _ => Phase::Finished(Err(DrvError::ConnectionError)),
    }
}

/// The phase after a frame was written.
fn after_write(lra: bool, goal: Goal, phase: Phase) -> (next: Phase)
    ensures
        next == spec_after_write(lra, goal, phase),
{
    match phase {
        Phase::LoadWriteFeedback(_, load) => Phase::LoadWriteCompensation(load),
        Phase::LoadWriteCompensation(load) => Phase::LoadWriteBackEmf(load),
        Phase::LoadWriteBackEmf(_) => Phase::StandbyRead(true),
        Phase::AutoWriteFeedback(params) => Phase::AutoWriteControl2(params),
        Phase::AutoWriteControl2(params) => Phase::AutoWriteControl4(params),
        Phase::AutoWriteControl4(params) => Phase::AutoWriteRatedVoltage(params),
        Phase::AutoWriteRatedVoltage(params) => Phase::AutoWriteClamp(params),
        Phase::AutoWriteClamp(params) => Phase::AutoWriteControl1(params),
        Phase::AutoWriteControl1(_) => Phase::RunReadMode,
        Phase::RunWriteMode(_) => Phase::GoRead,
        Phase::GoWrite(_) => {
            match goal {
                Goal::SetGo => Phase::Finished(Ok(Outcome::Done)),
                _ => Phase::PollGo,
            }
        },
        Phase::StandbyWrite(_) => {
            match goal {
                Goal::Construct => Phase::Finished(Ok(Outcome::Ready(Drv2605l::ready(lra)))),
                _ => Phase::Finished(Ok(Outcome::Done)),
            }
        },
        Phase::RomWriteControl5(_, plan) => Phase::RomWriteOverdrive(plan),
        Phase::RomWriteOverdrive(plan) => Phase::RomWriteSustainPositive(plan),
        Phase::RomWriteSustainPositive(plan) => Phase::RomWriteSustainNegative(plan),
        Phase::RomWriteSustainNegative(plan) => Phase::RomWriteBrake(plan),
        Phase::RomWriteBrake(plan) => Phase::ModeWriteControl3(
            plan.control3,
            Some(plan.library),
            plan.mode,
        ),
        Phase::ModeWriteControl3(_, selection, mode) => {
            match selection {
                Some(library) => Phase::RomReadLibrary(library, mode),
                None => Phase::ModeWriteMode(mode),
            }
        },
        Phase::RomWriteLibrary(_, mode) => Phase::ModeWriteMode(mode),
        Phase::ModeWriteMode(_) => Phase::Finished(Ok(Outcome::Done)),
        Phase::WriteRtp(_) => Phase::Finished(Ok(Outcome::Done)),
        Phase::WriteSequence(_) => Phase::Finished(Ok(Outcome::Done)),
        Phase::WriteSingle(_) => Phase::Finished(Ok(Outcome::Done)),
        Phase::ResetWrite => Phase::ResetPoll,
        Phase::Finished(result) => Phase::Finished(result),
        _ => Phase::Finished(Err(DrvError::ConnectionError)),
    }
}

/// The phase after a failed transaction.
fn after_fault(phase: Phase) -> (next: Phase)
    ensures
        next == spec_after_fault(phase),
{
    match phase {
        Phase::Finished(result) => Phase::Finished(result),
        _ => Phase::Finished(Err(DrvError::ConnectionError)),
    }
}

impl Operation {
    /// The type of the actuator that the operation is for.
    pub closed spec fn spec_lra(&self) -> bool {
        self.lra
    }

    /// What the caller asked for.
    pub closed spec fn spec_goal(&self) -> Goal {
        self.goal
    }

    /// Where the operation stands.
    pub closed spec fn spec_phase(&self) -> Phase {
        self.phase
    }

    /// Whether the operation is in a phase that its goal passes through, and
    /// has ended, if it has, in a way in which its goal can end. Every
    /// operation is, at every step.
    pub open spec fn spec_consistent(&self) -> bool {
        consistent(self.spec_lra(), self.spec_goal(), self.spec_phase())
    }

    #[verifier::type_invariant]
    closed spec fn well_formed(&self) -> bool {
        consistent(self.lra, self.goal, self.phase)
    }

    /// An operation at its first transaction.
    pub(crate) fn begin(lra: bool, goal: Goal, phase: Phase) -> (operation: Operation)
        requires
            consistent(lra, goal, phase),
        ensures
            operation.spec_lra() == lra,
            operation.spec_goal() == goal,
            operation.spec_phase() == phase,
            operation.spec_consistent(),
    {
        Operation { lra, goal, phase }
    }

    /// What the caller asked for.
    pub fn goal(&self) -> (goal: Goal)
        ensures
            goal == self.spec_goal(),
    {
        self.goal
    }

    /// Whether the operation has ended.
    pub fn finished(&self) -> (ended: bool)
        ensures
            ended == (self.spec_phase() is Finished),
    {
        match self.phase {
            Phase::Finished(_) => true,
            _ => false,
        }
    }

    /// The step that is outstanding: the transaction to perform on the bus,
    /// or the result once the operation has ended.
    pub fn step(&self) -> (step: Step)
        ensures
            step@ == spec_request(self.spec_lra(), self.spec_phase()),
            self.spec_consistent(),
    {
        proof {
            use_type_invariant(self);
        }
        match self.phase {
            Phase::ReadIdentity(_) => Step::Read(StatusReg::ADDRESS),
            Phase::ReadOtp => Step::Read(Control4Reg::ADDRESS),
            Phase::LoadReadFeedback(_) => Step::Read(FeedbackControlReg::ADDRESS),
            Phase::LoadWriteFeedback(value, _) => Step::Write(
                frame(FeedbackControlReg::ADDRESS, value.value()),
            ),
            Phase::LoadWriteCompensation(load) => Step::Write(
                frame(
                    AutoCalibrationCompensationReg::ADDRESS,
                    AutoCalibrationCompensationReg::new(load.compenstation).value(),
                ),
            ),
            Phase::LoadWriteBackEmf(load) => Step::Write(
                frame(
                    AutoCalibrationCompensationBackEmfReg::ADDRESS,
                    AutoCalibrationCompensationBackEmfReg::new(load.back_emf).value(),
                ),
            ),
            Phase::AutoWriteFeedback(params) => Step::Write(
                frame(FeedbackControlReg::ADDRESS, feedback_for(params, self.lra).value()),
            ),
            Phase::AutoWriteControl2(params) => Step::Write(
                frame(Control2Reg::ADDRESS, control2_for(params).value()),
            ),
            Phase::AutoWriteControl4(params) => Step::Write(
                frame(Control4Reg::ADDRESS, control4_for(params).value()),
            ),
            Phase::AutoWriteRatedVoltage(params) => Step::Write(
                frame(RatedVoltageReg::ADDRESS, RatedVoltageReg::new(params.rated_voltage).value()),
            ),
            Phase::AutoWriteClamp(params) => Step::Write(
                frame(
                    OverdriveClampReg::ADDRESS,
                    OverdriveClampReg::new(params.overdrive_voltage_clamp).value(),
                ),
            ),
            Phase::AutoWriteControl1(params) => Step::Write(
                frame(Control1Reg::ADDRESS, control1_for(params).value()),
            ),
            Phase::RunReadMode => Step::Read(ModeReg::ADDRESS),
            Phase::RunWriteMode(value) => Step::Write(frame(ModeReg::ADDRESS, value.value())),
            Phase::GoRead => Step::Read(GoReg::ADDRESS),
            Phase::GoWrite(value) => Step::Write(frame(GoReg::ADDRESS, value.value())),
            Phase::PollGo => Step::Read(GoReg::ADDRESS),
            Phase::ReadVerdict => Step::Read(StatusReg::ADDRESS),
            Phase::ReadFeedback => Step::Read(FeedbackControlReg::ADDRESS),
            Phase::ReadCompensation(_) => Step::Read(AutoCalibrationCompensationReg::ADDRESS),
            Phase::ReadBackEmf(_, _) => Step::Read(AutoCalibrationCompensationBackEmfReg::ADDRESS),
            Phase::StandbyRead(_) => Step::Read(ModeReg::ADDRESS),
            Phase::StandbyWrite(value) => Step::Write(frame(ModeReg::ADDRESS, value.value())),
            Phase::ModeReadMode(_) => Step::Read(ModeReg::ADDRESS),
            Phase::ModeReadControl3(_, _) => Step::Read(Control3Reg::ADDRESS),
            Phase::RomReadControl5(_) => Step::Read(Control5Reg::ADDRESS),
            Phase::RomWriteControl5(value, _) => Step::Write(
                frame(Control5Reg::ADDRESS, value.value()),
            ),
            Phase::RomWriteOverdrive(plan) => Step::Write(
                frame(
                    OverdriveTimeOffsetReg::ADDRESS,
                    OverdriveTimeOffsetReg::new(plan.options.overdrive_time_offset).value(),
                ),
            ),
            Phase::RomWriteSustainPositive(plan) => Step::Write(
                frame(
                    SustainTimeOffsetPositiveReg::ADDRESS,
                    SustainTimeOffsetPositiveReg::new(plan.options.sustain_positive_offset).value(),
                ),
            ),
            Phase::RomWriteSustainNegative(plan) => Step::Write(
                frame(
                    SustainTimeOffsetNegativeReg::ADDRESS,
                    SustainTimeOffsetNegativeReg::new(plan.options.sustain_negative_offset).value(),
                ),
            ),
            Phase::RomWriteBrake(plan) => Step::Write(
                frame(
                    BrakeTimeOffsetReg::ADDRESS,
                    BrakeTimeOffsetReg::new(plan.options.brake_time_offset).value(),
                ),
            ),
            Phase::ModeWriteControl3(value, _, _) => Step::Write(
                frame(Control3Reg::ADDRESS, value.value()),
            ),
            Phase::RomReadLibrary(_, _) => Step::Read(LibrarySelectionReg::ADDRESS),
            Phase::RomWriteLibrary(value, _) => Step::Write(
                frame(LibrarySelectionReg::ADDRESS, value.value()),
            ),
            Phase::ModeWriteMode(value) => Step::Write(frame(ModeReg::ADDRESS, value.value())),
            Phase::ReadStatus => Step::Read(StatusReg::ADDRESS),
            Phase::ReadRtp => Step::Read(RealTimePlaybackInputReg::ADDRESS),
            Phase::ReadGo => Step::Read(GoReg::ADDRESS),
            Phase::WriteRtp(duty) => Step::Write(
                frame(
                    RealTimePlaybackInputReg::ADDRESS,
                    RealTimePlaybackInputReg::new(duty).value(),
                ),
            ),
            Phase::WriteSequence(effects) => Step::Write(sequence_frame(&effects)),
            Phase::WriteSingle(effect) => Step::Write(single_frame(effect)),
            Phase::ResetWrite => Step::Write(frame(ModeReg::ADDRESS, reset_request().value())),
            Phase::ResetPoll => Step::Read(ModeReg::ADDRESS),
            Phase::Finished(result) => Step::Finished(result),
        }
    }

    /// Takes the bus's answer to the outstanding step and moves on.
    ///
    /// A failed transaction ends the operation with a connection error, and
    /// so does an answer that does not belong to the outstanding step. An
    /// operation that has ended stays as it is.
    pub fn resume(&mut self, reply: Reply)
        ensures
            final(self).spec_lra() == old(self).spec_lra(),
            final(self).spec_goal() == old(self).spec_goal(),
            final(self).spec_phase() == spec_next(
                old(self).spec_lra(),
                old(self).spec_goal(),
                old(self).spec_phase(),
                reply,
            ),
            final(self).spec_consistent(),
    {
        proof {
            use_type_invariant(&*self);
            lemma_consistent_next(self.lra, self.goal, self.phase, reply);
        }
        let next = match reply {
            Reply::Written => after_write(self.lra, self.goal, self.phase),
            Reply::Byte(byte) => after_read(self.lra, self.goal, self.phase, byte),
            Reply::Fault => after_fault(self.phase),
        };
        self.phase = next;
    }
}

} // verus!
