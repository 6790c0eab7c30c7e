use drv2605l::driver::Drv2605l;
use drv2605l::operation::Operation;
use drv2605l::protocol::{Goal, Outcome, Reply, Step, ADDRESS, DEVICE_ID};
use drv2605l::{
    Calibration, CalibrationParams, DrvError, Effect, Library, LoadParams, Mode, RomParams,
};

/// A device that answers from a table of registers.
struct Device {
    registers: [u8; 256],
    /// Every transaction, in order: a read as the register alone, a write as
    /// its whole frame.
    log: Vec<Vec<u8>>,
    /// How often the trigger reads as set after it was written, before the
    /// device clears it.
    busy_polls: usize,
    /// The transaction, counted from 0, that fails.
    fails_at: Option<usize>,
}

impl Device {
    fn new() -> Device {
        let mut registers = [0u8; 256];
        registers[0x00] = 0xE0;
        registers[0x01] = 0x40;
        registers[0x03] = 0x01;
        registers[0x16] = 0x3E;
        registers[0x17] = 0x8C;
        registers[0x18] = 0x0C;
        registers[0x19] = 0x6C;
        registers[0x1A] = 0x36;
        registers[0x1B] = 0x93;
        registers[0x1C] = 0xF5;
        registers[0x1D] = 0xA0;
        registers[0x1E] = 0x20;
        registers[0x1F] = 0x80;
        Device { registers, log: Vec::new(), busy_polls: 0, fails_at: None }
    }

    fn writes(&self) -> Vec<Vec<u8>> {
        self.log.iter().filter(|entry| entry.len() > 1).cloned().collect()
    }

    fn perform(&mut self, step: &Step) -> Reply {
        let at = self.log.len();
        match step {
            Step::Read(register) => {
                self.log.push(vec![*register]);
                if self.fails_at == Some(at) {
                    return Reply::Fault;
                }
                let byte = self.registers[*register as usize];
                if *register == 0x0C && byte & 0x01 == 0x01 {
                    if self.busy_polls == 0 {
                        self.registers[0x0C] = byte & 0xFE;
                        return Reply::Byte(byte & 0xFE);
                    }
                    self.busy_polls -= 1;
                }
                Reply::Byte(byte)
            }
            Step::Write(frame) => {
                self.log.push(frame.clone());
                if self.fails_at == Some(at) {
                    return Reply::Fault;
                }
                for (offset, byte) in frame[1..].iter().enumerate() {
                    self.registers[frame[0] as usize + offset] = *byte;
                }
                Reply::Written
            }
            Step::Finished(_) => panic!("nothing is outstanding"),
        }
    }
}

fn drive(operation: &mut Operation, device: &mut Device) -> Result<Outcome, DrvError> {
    loop {
        let step = operation.step();
        if let Step::Finished(result) = step {
            assert!(operation.finished());
            return result;
        }
        assert!(!operation.finished());
        let reply = device.perform(&step);
        operation.resume(reply);
    }
}

fn ready(device: &mut Device, lra: bool) -> Drv2605l {
    device.registers[0x1E] = 0x24;
    let outcome = drive(&mut Drv2605l::new(Calibration::Otp, lra), device);
    device.log.clear();
    match outcome {
        Ok(Outcome::Ready(driver)) => driver,
        other => panic!("construction failed: {:?}", other),
    }
}

#[test]
fn constants() {
    assert_eq!(ADDRESS, 0x5A);
    assert_eq!(DEVICE_ID, 7);
}

#[test]
fn construction_checks_the_identifier() {
    let mut device = Device::new();
    device.registers[0x00] = 0x60;
    let mut operation = Drv2605l::new(Calibration::Otp, false);
    assert_eq!(operation.goal(), Goal::Construct);
    assert_eq!(drive(&mut operation, &mut device), Err(DrvError::WrongDeviceId));
    assert_eq!(device.log, vec![vec![0x00]]);
}

#[test]
fn factory_calibration_with_unprogrammed_memory_fails_and_writes_nothing() {
    let mut device = Device::new();
    device.registers[0x1E] = 0x20;
    let mut operation = Drv2605l::new(Calibration::Otp, false);
    assert_eq!(drive(&mut operation, &mut device), Err(DrvError::OTPNotProgrammed));
    assert_eq!(device.log, vec![vec![0x00], vec![0x1E]]);
    assert!(device.writes().is_empty());
    operation.resume(Reply::Written);
    assert_eq!(operation.step(), Step::Finished(Err(DrvError::OTPNotProgrammed)));
}

#[test]
fn factory_calibration_with_programmed_memory_ends_in_standby() {
    let mut device = Device::new();
    device.registers[0x1E] = 0x24;
    device.registers[0x01] = 0x03;
    let outcome = drive(&mut Drv2605l::new(Calibration::Otp, true), &mut device);
    match outcome {
        Ok(Outcome::Ready(driver)) => assert!(driver.lra()),
        other => panic!("unexpected {:?}", other),
    }
    assert_eq!(device.log, vec![vec![0x00], vec![0x1E], vec![0x01], vec![0x01, 0x43]]);
}

#[test]
fn reloaded_calibration_is_written() {
    let mut device = Device::new();
    device.registers[0x1A] = 0xB5;
    let load = LoadParams { compenstation: 0x11, back_emf: 0x22, back_emf_gain: 2 };
    let outcome = drive(&mut Drv2605l::new(Calibration::Load(load), false), &mut device);
    match outcome {
        Ok(Outcome::Ready(driver)) => assert!(!driver.lra()),
        other => panic!("unexpected {:?}", other),
    }
    assert_eq!(
        device.log,
        vec![
            vec![0x00],
            vec![0x1A],
            vec![0x1A, 0xB6],
            vec![0x18, 0x11],
            vec![0x19, 0x22],
            vec![0x01],
            vec![0x01, 0x40],
        ]
    );
}

#[test]
fn calibration_run_yields_a_ready_driver() {
    let mut device = Device::new();
    device.busy_polls = 3;
    let mut operation = Drv2605l::new(Calibration::Auto(CalibrationParams::default()), true);
    let outcome = drive(&mut operation, &mut device);
    let driver = match outcome {
        Ok(Outcome::Ready(driver)) => driver,
        other => panic!("unexpected {:?}", other),
    };
    assert!(driver.lra());
    assert_eq!(
        device.log,
        vec![
            vec![0x00],
            vec![0x1A, 0xAA],
            vec![0x1C, 0xF5],
            vec![0x1E, 0x30],
            vec![0x16, 0x3E],
            vec![0x17, 0x8C],
            vec![0x1B, 0x93],
            vec![0x01],
            vec![0x01, 0x07],
            vec![0x0C],
            vec![0x0C, 0x01],
            vec![0x0C],
            vec![0x0C],
            vec![0x0C],
            vec![0x0C],
            vec![0x00],
            vec![0x1A],
            vec![0x18],
            vec![0x19],
            vec![0x01],
            vec![0x01, 0x47],
        ]
    );

    device.registers[0x1A] = 0xA9;
    device.registers[0x18] = 0x5A;
    device.registers[0x19] = 0xC3;
    let read_back = drive(&mut driver.calibration(), &mut device);
    assert_eq!(
        read_back,
        Ok(Outcome::Params(LoadParams { compenstation: 0x5A, back_emf: 0xC3, back_emf_gain: 1 }))
    );
}

#[test]
fn calibration_run_on_a_non_resonant_actuator() {
    let mut device = Device::new();
    let mut params = CalibrationParams::default();
    params.rated_voltage = 0x50;
    params.overdrive_voltage_clamp = 0x90;
    params.drive_time = 0x0A;
    let outcome = drive(&mut Drv2605l::new(Calibration::Auto(params), false), &mut device);
    assert!(matches!(outcome, Ok(Outcome::Ready(_))));
    assert_eq!(
        device.writes(),
        vec![
            vec![0x1A, 0x2A],
            vec![0x1C, 0xF5],
            vec![0x1E, 0x30],
            vec![0x16, 0x50],
            vec![0x17, 0x90],
            vec![0x1B, 0x8A],
            vec![0x01, 0x07],
            vec![0x0C, 0x01],
            vec![0x01, 0x47],
        ]
    );
}

#[test]
fn failed_calibration_run_fails_construction() {
    let mut device = Device::new();
    device.registers[0x00] = 0xE8;
    let outcome = drive(
        &mut Drv2605l::new(Calibration::Auto(CalibrationParams::default()), false),
        &mut device,
    );
    assert_eq!(outcome, Err(DrvError::CalibrationFailed));
    assert_eq!(device.log.last(), Some(&vec![0x00]));
}

#[test]
fn a_fault_ends_any_operation_where_it_happens() {
    for at in 0..17 {
        let mut device = Device::new();
        device.fails_at = Some(at);
        let outcome = drive(
            &mut Drv2605l::new(Calibration::Auto(CalibrationParams::default()), false),
            &mut device,
        );
        assert_eq!(outcome, Err(DrvError::ConnectionError));
        assert_eq!(device.log.len(), at + 1);
    }
    let rom = Mode::Rom(Library::C, RomParams::default());
    for at in 0..12 {
        let mut device = Device::new();
        let driver = ready(&mut device, false);
        device.fails_at = Some(at);
        assert_eq!(drive(&mut driver.set_mode(rom), &mut device), Err(DrvError::ConnectionError));
        assert_eq!(device.log.len(), at + 1);
    }
}

#[test]
fn an_answer_to_another_request_counts_as_a_fault() {
    let mut device = Device::new();
    let driver = ready(&mut device, false);
    let mut operation = driver.status();
    operation.resume(Reply::Written);
    assert_eq!(operation.step(), Step::Finished(Err(DrvError::ConnectionError)));
    let mut operation = driver.set_rtp(5);
    operation.resume(Reply::Byte(0));
    assert_eq!(operation.step(), Step::Finished(Err(DrvError::ConnectionError)));
}

#[test]
fn a_finished_operation_stays_finished() {
    let mut device = Device::new();
    let driver = ready(&mut device, false);
    let mut operation = driver.status();
    assert_eq!(drive(&mut operation, &mut device), Ok(Outcome::Byte(0xE0)));
    for reply in [Reply::Written, Reply::Byte(3), Reply::Fault] {
        operation.resume(reply);
        assert_eq!(operation.step(), Step::Finished(Ok(Outcome::Byte(0xE0))));
    }
}

#[test]
fn entering_pwm() {
    let mut device = Device::new();
    let driver = ready(&mut device, false);
    device.registers[0x1D] = 0xA2;
    device.registers[0x01] = 0x40;
    let mut operation = driver.set_mode(Mode::Pwm);
    assert_eq!(operation.goal(), Goal::SetMode);
    assert_eq!(drive(&mut operation, &mut device), Ok(Outcome::Done));
    assert_eq!(
        device.log,
        vec![vec![0x01], vec![0x1D], vec![0x1D, 0x80], vec![0x01, 0x43]]
    );
}

#[test]
fn entering_analog() {
    let mut device = Device::new();
    let driver = ready(&mut device, true);
    device.registers[0x1D] = 0xA0;
    device.registers[0x01] = 0x00;
    assert_eq!(drive(&mut driver.set_mode(Mode::Analog), &mut device), Ok(Outcome::Done));
    assert_eq!(
        device.log,
        vec![vec![0x01], vec![0x1D], vec![0x1D, 0xA2], vec![0x01, 0x03]]
    );
}

#[test]
fn entering_real_time_playback() {
    let mut device = Device::new();
    let driver = ready(&mut device, false);
    device.registers[0x1D] = 0xA0;
    device.registers[0x01] = 0x40;
    assert_eq!(
        drive(&mut driver.set_mode(Mode::RealTimePlayback), &mut device),
        Ok(Outcome::Done)
    );
    assert_eq!(
        device.log,
        vec![vec![0x01], vec![0x1D], vec![0x1D, 0x88], vec![0x01, 0x45]]
    );
}

#[test]
fn entering_library_playback() {
    let mut device = Device::new();
    let driver = ready(&mut device, false);
    device.registers[0x1D] = 0x80;
    device.registers[0x01] = 0x45;
    device.registers[0x1F] = 0x80;
    device.registers[0x03] = 0x11;
    let options = RomParams {
        overdrive_time_offset: 1,
        sustain_positive_offset: 2,
        sustain_negative_offset: 3,
        brake_time_offset: 4,
        decrease_playback_interval: true,
    };
    assert_eq!(
        drive(&mut driver.set_mode(Mode::Rom(Library::D, options)), &mut device),
        Ok(Outcome::Done)
    );
    assert_eq!(
        device.log,
        vec![
            vec![0x01],
            vec![0x1D],
            vec![0x1F],
            vec![0x1F, 0x90],
            vec![0x0D, 1],
            vec![0x0E, 2],
            vec![0x0F, 3],
            vec![0x10, 4],
            vec![0x1D, 0xA0],
            vec![0x03],
            vec![0x03, 0x14],
            vec![0x01, 0x40],
        ]
    );
}

#[test]
fn modes_on_a_resonant_actuator_leave_the_open_loop_bit() {
    let rom = Mode::Rom(Library::Lra, RomParams::default());
    for start in [0x00u8, 0x20, 0xA0, 0xFF] {
        for target in [Mode::Pwm, Mode::Analog, Mode::RealTimePlayback, rom] {
            let mut device = Device::new();
            let driver = ready(&mut device, true);
            device.registers[0x1D] = start;
            assert_eq!(drive(&mut driver.set_mode(target), &mut device), Ok(Outcome::Done));
            assert_eq!(device.registers[0x1D] & 0x20, start & 0x20);
        }
    }
}

#[test]
fn modes_on_a_non_resonant_actuator_set_and_clear_the_open_loop_bit() {
    let rom = Mode::Rom(Library::A, RomParams::default());
    for start in [0x00u8, 0x20, 0xA0, 0xFF] {
        for target in [Mode::Pwm, Mode::Analog, Mode::RealTimePlayback] {
            let mut device = Device::new();
            let driver = ready(&mut device, false);
            device.registers[0x1D] = start;
            assert_eq!(drive(&mut driver.set_mode(rom), &mut device), Ok(Outcome::Done));
            assert_eq!(device.registers[0x1D] & 0x20, 0x20);
            assert_eq!(drive(&mut driver.set_mode(target), &mut device), Ok(Outcome::Done));
            assert_eq!(device.registers[0x1D] & 0x20, 0x00);
        }
    }
}

#[test]
fn the_data_format_bit_is_never_cleared() {
    let mut device = Device::new();
    let driver = ready(&mut device, false);
    device.registers[0x1D] = 0x00;
    assert_eq!(
        drive(&mut driver.set_mode(Mode::RealTimePlayback), &mut device),
        Ok(Outcome::Done)
    );
    assert_eq!(device.registers[0x1D] & 0x08, 0x08);
    assert_eq!(drive(&mut driver.set_mode(Mode::Pwm), &mut device), Ok(Outcome::Done));
    assert_eq!(device.registers[0x1D] & 0x08, 0x08);
}

#[test]
fn a_single_effect_is_followed_by_a_stop() {
    for effect in [Effect::Stop, Effect::StrongClick100, Effect::BuzzOne100, Effect::SmoothHumFive10]
    {
        let mut device = Device::new();
        let driver = ready(&mut device, false);
        let mut operation = driver.set_rom_single(effect);
        assert_eq!(operation.goal(), Goal::SetRomSingle);
        assert_eq!(operation.step(), Step::Write(vec![0x04, effect.id(), 0x00]));
        assert_eq!(drive(&mut operation, &mut device), Ok(Outcome::Done));
        assert_eq!(device.log, vec![vec![0x04, effect.id(), 0x00]]);
    }
}

#[test]
fn eight_effects_are_written_in_order() {
    let mut device = Device::new();
    let driver = ready(&mut device, false);
    let effects = [
        Effect::StrongClick100,
        Effect::SharpClick60,
        Effect::SoftBump30,
        Effect::DoubleClick100,
        Effect::BuzzOne100,
        Effect::SmoothHumFive10,
        Effect::Stop,
        Effect::TripleClick100,
    ];
    assert_eq!(drive(&mut driver.set_rom(&effects), &mut device), Ok(Outcome::Done));
    assert_eq!(device.log, vec![vec![0x04, 1, 5, 9, 10, 47, 123, 0, 12]]);
    assert_eq!(device.registers[0x04..0x0C], [1, 5, 9, 10, 47, 123, 0, 12]);
}

#[test]
fn the_trigger_reads_back_until_the_device_clears_it() {
    let mut device = Device::new();
    let driver = ready(&mut device, false);
    device.busy_polls = 1;
    device.registers[0x0C] = 0x00;
    assert_eq!(drive(&mut driver.set_go(), &mut device), Ok(Outcome::Done));
    assert_eq!(device.log, vec![vec![0x0C], vec![0x0C, 0x01]]);
    assert_eq!(drive(&mut driver.go(), &mut device), Ok(Outcome::Flag(true)));
    device.registers[0x0C] = 0x00;
    assert_eq!(drive(&mut driver.go(), &mut device), Ok(Outcome::Flag(false)));
}

#[test]
fn standby_changes_one_bit() {
    let mut device = Device::new();
    let driver = ready(&mut device, false);
    device.registers[0x01] = 0x05;
    assert_eq!(drive(&mut driver.set_standby(true), &mut device), Ok(Outcome::Done));
    assert_eq!(device.log, vec![vec![0x01], vec![0x01, 0x45]]);
    device.log.clear();
    assert_eq!(drive(&mut driver.set_standby(false), &mut device), Ok(Outcome::Done));
    assert_eq!(device.log, vec![vec![0x01], vec![0x01, 0x05]]);
}

#[test]
fn real_time_amplitude_is_written_and_read() {
    let mut device = Device::new();
    let driver = ready(&mut device, false);
    assert_eq!(drive(&mut driver.set_rtp(0x7F), &mut device), Ok(Outcome::Done));
    assert_eq!(device.log, vec![vec![0x02, 0x7F]]);
    assert_eq!(drive(&mut driver.rtp(), &mut device), Ok(Outcome::Byte(0x7F)));
}

#[test]
fn status_is_read_whole() {
    let mut device = Device::new();
    let driver = ready(&mut device, false);
    device.registers[0x00] = 0xEB;
    assert_eq!(drive(&mut driver.status(), &mut device), Ok(Outcome::Byte(0xEB)));
    assert_eq!(device.log, vec![vec![0x00]]);
}

#[test]
fn diagnostics_pass_and_fail() {
    let mut device = Device::new();
    let driver = ready(&mut device, false);
    device.registers[0x01] = 0x43;
    device.busy_polls = 2;
    assert_eq!(drive(&mut driver.diagnostics(), &mut device), Ok(Outcome::Done));
    assert_eq!(
        device.log,
        vec![
            vec![0x01],
            vec![0x01, 0x06],
            vec![0x0C],
            vec![0x0C, 0x01],
            vec![0x0C],
            vec![0x0C],
            vec![0x0C],
            vec![0x00],
        ]
    );
    device.registers[0x00] = 0xE8;
    assert_eq!(
        drive(&mut driver.diagnostics(), &mut device),
        Err(DrvError::DeviceDiagnosticFailed)
    );
}

#[test]
fn reset_is_polled() {
    let mut device = Device::new();
    let driver = ready(&mut device, false);
    let mut operation = driver.reset();
    assert_eq!(operation.step(), Step::Write(vec![0x01, 0xC0]));
    operation.resume(Reply::Written);
    assert_eq!(operation.step(), Step::Read(0x01));
    operation.resume(Reply::Byte(0xC0));
    assert_eq!(operation.step(), Step::Read(0x01));
    operation.resume(Reply::Byte(0x40));
    assert_eq!(operation.step(), Step::Finished(Ok(Outcome::Done)));
}
