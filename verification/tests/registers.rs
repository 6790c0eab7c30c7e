use drv2605l::bits::{flag, get_field, set_field};
use drv2605l::registers::{
    AutoCalibrationCompensationBackEmfReg, AutoCalibrationCompensationReg, BrakeTimeOffsetReg,
    Control1Reg, Control2Reg, Control3Reg, Control4Reg, Control5Reg, FeedbackControlReg, GoReg,
    LibrarySelectionReg, ModeReg, OverdriveClampReg, OverdriveTimeOffsetReg, RatedVoltageReg,
    RealTimePlaybackInputReg, StatusReg, SustainTimeOffsetNegativeReg,
    SustainTimeOffsetPositiveReg, Waveform0Reg,
};
use drv2605l::settings::{
    control1_for, control2_for, control3_for, control4_for, device_mode, feedback_for, mode_for,
    reset_request, run_for,
};
use drv2605l::effects::DeviceMode;
use drv2605l::{CalibrationParams, Effect, Library, Mode, RomParams};

#[test]
fn every_register_keeps_every_byte() {
    for byte in 0..=255u8 {
        assert_eq!(StatusReg::new(byte).value(), byte);
        assert_eq!(ModeReg::new(byte).value(), byte);
        assert_eq!(RealTimePlaybackInputReg::new(byte).value(), byte);
        assert_eq!(LibrarySelectionReg::new(byte).value(), byte);
        assert_eq!(Waveform0Reg::new(byte).value(), byte);
        assert_eq!(GoReg::new(byte).value(), byte);
        assert_eq!(OverdriveTimeOffsetReg::new(byte).value(), byte);
        assert_eq!(SustainTimeOffsetPositiveReg::new(byte).value(), byte);
        assert_eq!(SustainTimeOffsetNegativeReg::new(byte).value(), byte);
        assert_eq!(BrakeTimeOffsetReg::new(byte).value(), byte);
        assert_eq!(RatedVoltageReg::new(byte).value(), byte);
        assert_eq!(OverdriveClampReg::new(byte).value(), byte);
        assert_eq!(AutoCalibrationCompensationReg::new(byte).value(), byte);
        assert_eq!(AutoCalibrationCompensationBackEmfReg::new(byte).value(), byte);
        assert_eq!(FeedbackControlReg::new(byte).value(), byte);
        assert_eq!(Control1Reg::new(byte).value(), byte);
        assert_eq!(Control2Reg::new(byte).value(), byte);
        assert_eq!(Control3Reg::new(byte).value(), byte);
        assert_eq!(Control4Reg::new(byte).value(), byte);
        assert_eq!(Control5Reg::new(byte).value(), byte);
    }
}

#[test]
fn fields_written_back_keep_the_byte() {
    for byte in 0..=255u8 {
        let mut mode = ModeReg::new(byte);
        mode.set_dev_reset(mode.dev_reset());
        mode.set_standby(mode.standby());
        mode.set_mode(mode.mode());
        assert_eq!(mode.value(), byte);

        let mut feedback = FeedbackControlReg::new(byte);
        feedback.set_n_erm_lra(feedback.n_erm_lra());
        feedback.set_fb_brake_factor(feedback.fb_brake_factor());
        feedback.set_loop_gain(feedback.loop_gain());
        feedback.set_bemf_gain(feedback.bemf_gain());
        assert_eq!(feedback.value(), byte);

        let mut control3 = Control3Reg::new(byte);
        control3.set_ng_thresh(control3.ng_thresh());
        control3.set_erm_open_loop(control3.erm_open_loop());
        control3.set_supply_comp_dis(control3.supply_comp_dis());
        control3.set_data_format_rtp(control3.data_format_rtp());
        control3.set_lra_drive_mode(control3.lra_drive_mode());
        control3.set_n_pwm_analog(control3.n_pwm_analog());
        control3.set_lra_open_loop(control3.lra_open_loop());
        assert_eq!(control3.value(), byte);
    }
}

#[test]
fn register_addresses() {
    assert_eq!(StatusReg::ADDRESS, 0x00);
    assert_eq!(ModeReg::ADDRESS, 0x01);
    assert_eq!(RealTimePlaybackInputReg::ADDRESS, 0x02);
    assert_eq!(LibrarySelectionReg::ADDRESS, 0x03);
    assert_eq!(Waveform0Reg::ADDRESS, 0x04);
    assert_eq!(GoReg::ADDRESS, 0x0C);
    assert_eq!(OverdriveTimeOffsetReg::ADDRESS, 0x0D);
    assert_eq!(SustainTimeOffsetPositiveReg::ADDRESS, 0x0E);
    assert_eq!(SustainTimeOffsetNegativeReg::ADDRESS, 0x0F);
    assert_eq!(BrakeTimeOffsetReg::ADDRESS, 0x10);
    assert_eq!(RatedVoltageReg::ADDRESS, 0x16);
    assert_eq!(OverdriveClampReg::ADDRESS, 0x17);
    assert_eq!(AutoCalibrationCompensationReg::ADDRESS, 0x18);
    assert_eq!(AutoCalibrationCompensationBackEmfReg::ADDRESS, 0x19);
    assert_eq!(FeedbackControlReg::ADDRESS, 0x1A);
    assert_eq!(Control1Reg::ADDRESS, 0x1B);
    assert_eq!(Control2Reg::ADDRESS, 0x1C);
    assert_eq!(Control3Reg::ADDRESS, 0x1D);
    assert_eq!(Control4Reg::ADDRESS, 0x1E);
    assert_eq!(Control5Reg::ADDRESS, 0x1F);
}

#[test]
fn register_power_up_values() {
    assert_eq!(ModeReg::default().value(), 0x40);
    assert!(ModeReg::default().standby());
    assert_eq!(LibrarySelectionReg::default().value(), 0x01);
    assert_eq!(GoReg::default().value(), 0x00);
    assert_eq!(RatedVoltageReg::default().value(), 0x3E);
    assert_eq!(OverdriveClampReg::default().value(), 0x8C);
    assert_eq!(AutoCalibrationCompensationReg::default().value(), 0x0C);
    assert_eq!(AutoCalibrationCompensationBackEmfReg::default().value(), 0x6C);
    assert_eq!(FeedbackControlReg::default().value(), 0x36);
    assert_eq!(Control1Reg::default().value(), 0x93);
    assert_eq!(Control2Reg::default().value(), 0xF5);
    assert_eq!(Control3Reg::default().value(), 0xA0);
    assert_eq!(Control4Reg::default().value(), 0x20);
    assert_eq!(Control5Reg::default().value(), 0x80);
}

#[test]
fn status_fields() {
    let status = StatusReg::new(0xE0);
    assert_eq!(status.device_id(), 7);
    assert!(!status.diagnostic_result());
    assert!(!status.over_temp());
    assert!(!status.oc_detect());
    let status = StatusReg::new(0x6B);
    assert_eq!(status.device_id(), 3);
    assert!(status.diagnostic_result());
    assert!(status.over_temp());
    assert!(status.oc_detect());
}

#[test]
fn mode_fields() {
    let mode = ModeReg::new(0xC5);
    assert!(mode.dev_reset());
    assert!(mode.standby());
    assert_eq!(mode.mode(), 5);
    let mut mode = ModeReg::new(0x00);
    mode.set_standby(true);
    assert_eq!(mode.value(), 0x40);
    mode.set_mode(7);
    assert_eq!(mode.value(), 0x47);
    mode.set_dev_reset(true);
    assert_eq!(mode.value(), 0xC7);
    mode.set_standby(false);
    assert_eq!(mode.value(), 0x87);
}

#[test]
fn feedback_fields() {
    let feedback = FeedbackControlReg::new(0x36);
    assert!(!feedback.n_erm_lra());
    assert_eq!(feedback.fb_brake_factor(), 3);
    assert_eq!(feedback.loop_gain(), 1);
    assert_eq!(feedback.bemf_gain(), 2);
    let mut feedback = FeedbackControlReg::new(0x00);
    feedback.set_fb_brake_factor(5);
    assert_eq!(feedback.value(), 0x50);
    feedback.set_loop_gain(3);
    assert_eq!(feedback.value(), 0x5C);
    feedback.set_bemf_gain(1);
    assert_eq!(feedback.value(), 0x5D);
    feedback.set_n_erm_lra(true);
    assert_eq!(feedback.value(), 0xDD);
}

#[test]
fn control_fields() {
    let control1 = Control1Reg::new(0x93);
    assert!(control1.startup_boost());
    assert!(!control1.ac_couple());
    assert_eq!(control1.drive_time(), 0x13);

    let control2 = Control2Reg::new(0xF5);
    assert!(control2.bidir_input());
    assert!(control2.brake_stabilizer());
    assert_eq!(control2.sample_time(), 3);
    assert_eq!(control2.blanking_time(), 1);
    assert_eq!(control2.idiss_time(), 1);

    let control3 = Control3Reg::new(0xA0);
    assert_eq!(control3.ng_thresh(), 2);
    assert!(control3.erm_open_loop());
    assert!(!control3.supply_comp_dis());
    assert!(!control3.data_format_rtp());
    assert!(!control3.lra_drive_mode());
    assert!(!control3.n_pwm_analog());
    assert!(!control3.lra_open_loop());

    let control4 = Control4Reg::new(0x24);
    assert_eq!(control4.zc_det_time(), 0);
    assert_eq!(control4.auto_cal_time(), 2);
    assert!(control4.otp_status());
    assert!(!control4.otp_program());

    let control5 = Control5Reg::new(0x90);
    assert_eq!(control5.auto_ol_cnt(), 2);
    assert!(!control5.lra_auto_open_loop());
    assert!(control5.playback_interval());
    assert_eq!(control5.blanking_time_high(), 0);
    assert_eq!(control5.idiss_time_high(), 0);
}

#[test]
fn other_fields() {
    let mut selection = LibrarySelectionReg::new(0x00);
    selection.set_library_selection(6);
    assert_eq!(selection.value(), 0x06);
    selection.set_hi_z(true);
    assert_eq!(selection.value(), 0x16);
    assert_eq!(selection.library_selection(), 6);
    assert!(selection.hi_z());

    let mut slot = Waveform0Reg::new(0x00);
    slot.set_waveform_seq(123);
    assert_eq!(slot.value(), 123);
    slot.set_wait(true);
    assert_eq!(slot.value(), 0xFB);
    assert!(slot.wait());
    assert_eq!(slot.waveform_seq(), 123);

    let mut go = GoReg::new(0xFE);
    assert!(!go.go());
    go.set_go(true);
    assert_eq!(go.value(), 0xFF);
    go.set_go(false);
    assert_eq!(go.value(), 0xFE);
}

#[test]
fn a_setter_cuts_the_value_to_the_field() {
    let mut mode = ModeReg::new(0x00);
    mode.set_mode(0xFF);
    assert_eq!(mode.value(), 0x07);
    let mut feedback = FeedbackControlReg::new(0x00);
    feedback.set_bemf_gain(0x07);
    assert_eq!(feedback.value(), 0x03);
    let mut control1 = Control1Reg::new(0x00);
    control1.set_drive_time(0xF3);
    assert_eq!(control1.value(), 0x13);
}

#[test]
fn a_setter_changes_only_its_field() {
    for byte in 0..=255u8 {
        for value in 0..=255u8 {
            let mut mode = ModeReg::new(byte);
            mode.set_mode(value);
            assert_eq!(mode.value() & !0x07, byte & !0x07);
            assert_eq!(mode.mode(), value & 0x07);
            assert_eq!(mode.standby(), ModeReg::new(byte).standby());
            assert_eq!(mode.dev_reset(), ModeReg::new(byte).dev_reset());

            let mut feedback = FeedbackControlReg::new(byte);
            feedback.set_fb_brake_factor(value);
            assert_eq!(feedback.value() & !0x70, byte & !0x70);
            assert_eq!(feedback.fb_brake_factor(), value & 0x07);

            let mut control2 = Control2Reg::new(byte);
            control2.set_sample_time(value);
            assert_eq!(control2.value() & !0x30, byte & !0x30);
            assert_eq!(control2.blanking_time(), Control2Reg::new(byte).blanking_time());
        }
        for on in [false, true] {
            let mut control3 = Control3Reg::new(byte);
            control3.set_erm_open_loop(on);
            assert_eq!(control3.value() & !0x20, byte & !0x20);
            assert_eq!(control3.erm_open_loop(), on);
            let mut mode = ModeReg::new(byte);
            mode.set_standby(on);
            assert_eq!(mode.value() & !0x40, byte & !0x40);
            assert_eq!(mode.standby(), on);
        }
    }
}

#[test]
fn bit_helpers() {
    assert_eq!(get_field(0b1010_0000, 5, 0x07), 5);
    assert_eq!(set_field(0xFF, 2, 0x03, 0), 0xF3);
    assert_eq!(set_field(0x00, 4, 0x07, 0x0F), 0x70);
    assert_eq!(flag(true), 1);
    assert_eq!(flag(false), 0);
}

#[test]
fn effect_identifiers() {
    assert_eq!(Effect::Stop.id(), 0);
    assert_eq!(Effect::StrongClick100.id(), 1);
    assert_eq!(Effect::TripleClick100.id(), 12);
    assert_eq!(Effect::Alert1000ms.id(), 16);
    assert_eq!(Effect::StrongClickOne100.id(), 17);
    assert_eq!(Effect::BuzzOne100.id(), 47);
    assert_eq!(Effect::TransitionClickOne100.id(), 58);
    assert_eq!(Effect::TransitionHumOne100.id(), 64);
    assert_eq!(Effect::TransitionRampDownLongSmoothOne100to0.id(), 70);
    assert_eq!(Effect::TransitionRampDownLongSharpOne100to0.id(), 76);
    assert_eq!(Effect::TransitionRampUpLongSmoothOne0to100.id(), 82);
    assert_eq!(Effect::TransitionRampDownLongSmoothOne50to0.id(), 94);
    assert_eq!(Effect::TransitionRampUpLongSmoothOne0to50.id(), 106);
    assert_eq!(Effect::TransitionRampUpShortSharpTwo0to50.id(), 117);
    assert_eq!(Effect::LongBuzzForProgrammaticStopping100.id(), 118);
    assert_eq!(Effect::SmoothHumFive10.id(), 123);
}

#[test]
fn library_and_mode_codes() {
    assert_eq!(Library::Empty.code(), 0);
    assert_eq!(Library::A.code(), 1);
    assert_eq!(Library::E.code(), 5);
    assert_eq!(Library::Lra.code(), 6);
    assert_eq!(Library::F.code(), 7);
    assert_eq!(DeviceMode::InternalTrigger.code(), 0);
    assert_eq!(DeviceMode::PwmInputAndAnalogInput.code(), 3);
    assert_eq!(DeviceMode::RealTimePlayback.code(), 5);
    assert_eq!(DeviceMode::Diagnostics.code(), 6);
    assert_eq!(DeviceMode::AutoCalibration.code(), 7);
    assert_eq!(device_mode(Mode::Pwm), DeviceMode::PwmInputAndAnalogInput);
    assert_eq!(device_mode(Mode::Analog), DeviceMode::PwmInputAndAnalogInput);
    assert_eq!(device_mode(Mode::RealTimePlayback), DeviceMode::RealTimePlayback);
    assert_eq!(
        device_mode(Mode::Rom(Library::A, RomParams::default())),
        DeviceMode::InternalTrigger
    );
}

#[test]
fn default_parameters() {
    let params = CalibrationParams::default();
    assert_eq!(params.rated_voltage, 0x3E);
    assert_eq!(params.overdrive_voltage_clamp, 0x8C);
    assert_eq!(params.drive_time, 0x13);
    assert_eq!(params.brake_factor, 2);
    assert_eq!(params.loop_gain, 2);
    assert_eq!(params.auto_cal_time, 3);
    assert_eq!(params.lra_sample_time, 3);
    assert_eq!(params.lra_blanking_time, 1);
    assert_eq!(params.lra_idiss_time, 1);
    assert_eq!(params.lra_zc_det_time, 0);
    let options = RomParams::default();
    assert_eq!(options.overdrive_time_offset, 0);
    assert_eq!(options.sustain_positive_offset, 0);
    assert_eq!(options.sustain_negative_offset, 0);
    assert_eq!(options.brake_time_offset, 0);
    assert!(!options.decrease_playback_interval);
}

#[test]
fn calibration_registers_from_default_parameters() {
    let params = CalibrationParams::default();
    assert_eq!(feedback_for(params, false).value(), 0x2A);
    assert_eq!(feedback_for(params, true).value(), 0xAA);
    assert_eq!(control2_for(params).value(), 0xF5);
    assert_eq!(control4_for(params).value(), 0x30);
    assert_eq!(control1_for(params).value(), 0x93);
}

#[test]
fn calibration_registers_from_other_parameters() {
    let mut params = CalibrationParams::default();
    params.brake_factor = 7;
    params.loop_gain = 0;
    params.lra_sample_time = 0;
    params.lra_blanking_time = 2;
    params.lra_idiss_time = 3;
    params.auto_cal_time = 1;
    params.lra_zc_det_time = 2;
    params.drive_time = 0x1F;
    assert_eq!(feedback_for(params, false).value(), 0x72);
    assert_eq!(feedback_for(params, true).value(), 0xF2);
    assert_eq!(control2_for(params).value(), 0xCB);
    assert_eq!(control4_for(params).value(), 0x90);
    assert_eq!(control1_for(params).value(), 0x9F);
}

#[test]
fn mode_register_values() {
    assert_eq!(mode_for(Mode::Pwm, ModeReg::new(0x40)).value(), 0x43);
    assert_eq!(mode_for(Mode::Analog, ModeReg::new(0x07)).value(), 0x03);
    assert_eq!(mode_for(Mode::RealTimePlayback, ModeReg::new(0x00)).value(), 0x05);
    assert_eq!(
        mode_for(Mode::Rom(Library::B, RomParams::default()), ModeReg::new(0x47)).value(),
        0x40
    );
    assert_eq!(run_for(DeviceMode::AutoCalibration, ModeReg::new(0x40)).value(), 0x07);
    assert_eq!(run_for(DeviceMode::Diagnostics, ModeReg::new(0x43)).value(), 0x06);
    assert_eq!(reset_request().value(), 0xC0);
}

#[test]
fn open_loop_bit_on_a_resonant_actuator_is_never_touched() {
    let rom = Mode::Rom(Library::Lra, RomParams::default());
    for byte in 0..=255u8 {
        let before = Control3Reg::new(byte);
        for target in [Mode::Pwm, Mode::Analog, Mode::RealTimePlayback, rom] {
            let after = control3_for(target, true, before);
            assert_eq!(after.erm_open_loop(), before.erm_open_loop());
            assert_eq!(after.value() & !0x2A, byte & !0x2A);
        }
    }
}

#[test]
fn open_loop_bit_on_a_non_resonant_actuator_follows_the_mode() {
    let rom = Mode::Rom(Library::A, RomParams::default());
    for byte in 0..=255u8 {
        let before = Control3Reg::new(byte);
        assert!(control3_for(rom, false, before).erm_open_loop());
        for target in [Mode::Pwm, Mode::Analog, Mode::RealTimePlayback] {
            let entered = control3_for(rom, false, before);
            assert!(!control3_for(target, false, entered).erm_open_loop());
            assert!(!control3_for(target, false, before).erm_open_loop());
        }
    }
}

#[test]
fn control3_values() {
    let rom = Mode::Rom(Library::A, RomParams::default());
    assert_eq!(control3_for(Mode::Pwm, false, Control3Reg::new(0xA2)).value(), 0x80);
    assert_eq!(control3_for(Mode::Pwm, true, Control3Reg::new(0xA2)).value(), 0xA0);
    assert_eq!(control3_for(Mode::Analog, false, Control3Reg::new(0xA0)).value(), 0x82);
    assert_eq!(control3_for(Mode::RealTimePlayback, false, Control3Reg::new(0xA0)).value(), 0x88);
    assert_eq!(control3_for(Mode::RealTimePlayback, true, Control3Reg::new(0xA0)).value(), 0xA8);
    assert_eq!(control3_for(rom, false, Control3Reg::new(0x88)).value(), 0xA8);
    assert_eq!(control3_for(rom, true, Control3Reg::new(0x88)).value(), 0x88);
    assert_eq!(control3_for(Mode::Pwm, false, Control3Reg::new(0xA8)).value(), 0x88);
}
