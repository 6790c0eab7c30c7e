//! The driver: what a caller can ask of the device.

use vstd::prelude::*;
use crate::effects::Effect;
use crate::operation::Operation;
use crate::params::{Calibration, Mode};
use crate::protocol::{spec_frame, spec_request, spec_sequence_frame, Action, Goal, Phase};
use crate::settings::lemma_reset_request;

verus! {

/// The driver of one device. It holds nothing but the type of the actuator,
/// which is fixed when it is made: whatever else is true of the device is read
/// from its registers when it is needed.
#[derive(Clone, Copy, Debug, PartialEq, Eq)]
pub struct Drv2605l {
    lra: bool,
}

impl Drv2605l {
    /// The driver of a device with an actuator of this type.
    pub closed spec fn spec_ready(lra: bool) -> Drv2605l {
        Drv2605l { lra }
    }

    /// Whether the actuator is a resonant one.
    pub closed spec fn spec_lra(&self) -> bool {
        self.lra
    }

    /// Whether the actuator is a resonant one.
    pub fn lra(&self) -> (lra: bool)
        ensures
            lra == self.spec_lra(),
    {
        self.lra
    }

    /// The driver of a device that has been identified and calibrated.
    pub(crate) fn ready(lra: bool) -> (driver: Drv2605l)
        ensures
            driver == Drv2605l::spec_ready(lra),
            driver.spec_lra() == lra,
    {
        Drv2605l { lra }
    }

    /// A driver is what it was made as.
    pub proof fn lemma_ready(lra: bool)
        ensures
            Drv2605l::spec_ready(lra).spec_lra() == lra,
    {
    }

    /// Starts the construction of a driver: the device is identified by its
    /// status register, calibrated in the way chosen, and put in standby. The
    /// operation ends with the driver, or with the first error met.
    pub fn new(calibration: Calibration, lra: bool) -> (operation: Operation)
        ensures
            operation.spec_lra() == lra,
            operation.spec_goal() == Goal::Construct,
            operation.spec_phase() == Phase::ReadIdentity(calibration),
            operation.spec_consistent(),
            spec_request(lra, operation.spec_phase()) == Action::Read(0x00),
    {
        Operation::begin(lra, Goal::Construct, Phase::ReadIdentity(calibration))
    }

    /// Starts a change of mode. The mode register and control 3 are read
    /// first; what is written is made from them.
    pub fn set_mode(&self, mode: Mode) -> (operation: Operation)
        ensures
            operation.spec_lra() == self.spec_lra(),
            operation.spec_goal() == Goal::SetMode,
            operation.spec_phase() == Phase::ModeReadMode(mode),
            operation.spec_consistent(),
            spec_request(self.spec_lra(), operation.spec_phase()) == Action::Read(0x01),
    {
        Operation::begin(self.lra, Goal::SetMode, Phase::ModeReadMode(mode))
    }

    /// Queues eight effects, which play in order at the next trigger. The
    /// device stops at the first `Effect::Stop`. The operation is one write of
    /// nine bytes: the address of the first slot, then the eight identifiers.
    pub fn set_rom(&self, roms: &[Effect; 8]) -> (operation: Operation)
        ensures
            operation.spec_lra() == self.spec_lra(),
            operation.spec_goal() == Goal::SetRom,
            operation.spec_phase() == Phase::WriteSequence(*roms),
            operation.spec_consistent(),
            spec_request(self.spec_lra(), operation.spec_phase()) == Action::Write(
                spec_sequence_frame(*roms),
            ),
    {
        Operation::begin(self.lra, Goal::SetRom, Phase::WriteSequence(*roms))
    }

    /// Queues one effect, which plays at the next trigger. The operation is
    /// one write of three bytes: the address of the first slot, the
    /// effect's identifier, and the end of the sequence.
    pub fn set_rom_single(&self, rom: Effect) -> (operation: Operation)
        ensures
            operation.spec_lra() == self.spec_lra(),
            operation.spec_goal() == Goal::SetRomSingle,
            operation.spec_phase() == Phase::WriteSingle(rom),
            operation.spec_consistent(),
            spec_request(self.spec_lra(), operation.spec_phase()) == Action::Write(
                seq![0x04u8, rom.spec_id(), 0u8],
            ),
    {
        Operation::begin(self.lra, Goal::SetRomSingle, Phase::WriteSingle(rom))
    }

    /// Sets the amplitude of real-time playback.
    pub fn set_rtp(&self, duty: u8) -> (operation: Operation)
        ensures
            operation.spec_lra() == self.spec_lra(),
            operation.spec_goal() == Goal::SetRtp,
            operation.spec_phase() == Phase::WriteRtp(duty),
            operation.spec_consistent(),
            spec_request(self.spec_lra(), operation.spec_phase()) == Action::Write(
                spec_frame(0x02, duty),
            ),
    {
        Operation::begin(self.lra, Goal::SetRtp, Phase::WriteRtp(duty))
    }

    /// Reads the amplitude of real-time playback.
    pub fn rtp(&self) -> (operation: Operation)
        ensures
            operation.spec_lra() == self.spec_lra(),
            operation.spec_goal() == Goal::Rtp,
            operation.spec_phase() == Phase::ReadRtp,
            operation.spec_consistent(),
            spec_request(self.spec_lra(), operation.spec_phase()) == Action::Read(0x02),
    {
        Operation::begin(self.lra, Goal::Rtp, Phase::ReadRtp)
    }

    /// Sets the trigger, which starts playback in the mode in force. The rest
    /// of the trigger register is kept.
    pub fn set_go(&self) -> (operation: Operation)
        ensures
            operation.spec_lra() == self.spec_lra(),
            operation.spec_goal() == Goal::SetGo,
            operation.spec_phase() == Phase::GoRead,
            operation.spec_consistent(),
            spec_request(self.spec_lra(), operation.spec_phase()) == Action::Read(0x0C),
    {
        Operation::begin(self.lra, Goal::SetGo, Phase::GoRead)
    }

    /// Reads the trigger. The device clears it when playback has ended.
    pub fn go(&self) -> (operation: Operation)
        ensures
            operation.spec_lra() == self.spec_lra(),
            operation.spec_goal() == Goal::Go,
            operation.spec_phase() == Phase::ReadGo,
            operation.spec_consistent(),
            spec_request(self.spec_lra(), operation.spec_phase()) == Action::Read(0x0C),
    {
        Operation::begin(self.lra, Goal::Go, Phase::ReadGo)
    }

    /// Puts the device in standby or wakes it. The mode and every other
    /// setting are kept.
    pub fn set_standby(&self, enable: bool) -> (operation: Operation)
        ensures
            operation.spec_lra() == self.spec_lra(),
            operation.spec_goal() == Goal::SetStandby,
            operation.spec_phase() == Phase::StandbyRead(enable),
            operation.spec_consistent(),
            spec_request(self.spec_lra(), operation.spec_phase()) == Action::Read(0x01),
    {
        Operation::begin(self.lra, Goal::SetStandby, Phase::StandbyRead(enable))
    }

    /// Reads the status register.
    pub fn status(&self) -> (operation: Operation)
        ensures
            operation.spec_lra() == self.spec_lra(),
            operation.spec_goal() == Goal::Status,
            operation.spec_phase() == Phase::ReadStatus,
            operation.spec_consistent(),
            spec_request(self.spec_lra(), operation.spec_phase()) == Action::Read(0x00),
    {
        Operation::begin(self.lra, Goal::Status, Phase::ReadStatus)
    }

    /// Reads the calibration values that the device holds, whether a run
    /// found them or a construction wrote them.
    pub fn calibration(&self) -> (operation: Operation)
        ensures
            operation.spec_lra() == self.spec_lra(),
            operation.spec_goal() == Goal::Calibration,
            operation.spec_phase() == Phase::ReadFeedback,
            operation.spec_consistent(),
            spec_request(self.spec_lra(), operation.spec_phase()) == Action::Read(0x1A),
    {
        Operation::begin(self.lra, Goal::Calibration, Phase::ReadFeedback)
    }

    /// Starts a diagnostic run: the device leaves standby, runs its
    /// diagnostics and is polled until the trigger clears. The operation fails
    /// if the device reports a fault of the actuator.
    pub fn diagnostics(&self) -> (operation: Operation)
        ensures
            operation.spec_lra() == self.spec_lra(),
            operation.spec_goal() == Goal::Diagnostics,
            operation.spec_phase() == Phase::RunReadMode,
            operation.spec_consistent(),
            spec_request(self.spec_lra(), operation.spec_phase()) == Action::Read(0x01),
    {
        Operation::begin(self.lra, Goal::Diagnostics, Phase::RunReadMode)
    }

    /// Asks the device to reset itself, and polls the mode register until
    /// the device has cleared the request. Every register is then at its
    /// power-up value.
    pub fn reset(&self) -> (operation: Operation)
        ensures
            operation.spec_lra() == self.spec_lra(),
            operation.spec_goal() == Goal::Reset,
            operation.spec_phase() == Phase::ResetWrite,
            operation.spec_consistent(),
            spec_request(self.spec_lra(), operation.spec_phase()) == Action::Write(
                spec_frame(0x01, 0xC0),
            ),
    {
        proof {
            lemma_reset_request();
        }
        Operation::begin(self.lra, Goal::Reset, Phase::ResetWrite)
    }
}

} // verus!
