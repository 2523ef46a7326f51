use stabilizer::gyroscope::{
    GyroAxis, GyroFSRange, GyroRegister, Gyroscope, CALIBRATION_SAMPLES, MPU_ADDRESS, SLEEP_BIT,
};

#[test]
fn mpu_address_is_ad0_low() {
    assert_eq!(MPU_ADDRESS, 0x68);
}

#[test]
fn register_addresses_follow_the_register_map() {
    assert_eq!(GyroRegister::GyroXOutHigh.address(), 0x43);
    assert_eq!(GyroRegister::GyroXOutLow.address(), 0x44);
    assert_eq!(GyroRegister::GyroYOutHigh.address(), 0x45);
    assert_eq!(GyroRegister::GyroYOutLow.address(), 0x46);
    assert_eq!(GyroRegister::GyroZOutHigh.address(), 0x47);
    assert_eq!(GyroRegister::GyroZOutLow.address(), 0x48);
    assert_eq!(GyroRegister::GyroConfig.address(), 0x1B);
    assert_eq!(GyroRegister::FIFOEnable.address(), 0x23);
    assert_eq!(GyroRegister::UserCtrl.address(), 0x6A);
    assert_eq!(GyroRegister::PowerMgmt1.address(), 0x6B);
    assert_eq!(GyroRegister::PowerMgmt2.address(), 0x6C);
}

#[test]
fn write_command_is_address_then_data() {
    assert_eq!(GyroRegister::PowerMgmt1.write_command(0x01), [0x6B, 0x01]);
    assert_eq!(GyroRegister::GyroConfig.write_command(0x18), [0x1B, 0x18]);
}

#[test]
fn range_bits_are_fs_sel() {
    assert_eq!(GyroFSRange::PM250.bits(), 0b00000);
    assert_eq!(GyroFSRange::PM500.bits(), 0b01000);
    assert_eq!(GyroFSRange::PM1000.bits(), 0b10000);
    assert_eq!(GyroFSRange::PM2000.bits(), 0b11000);
}

#[test]
fn sensitivities_in_tenths() {
    assert_eq!(GyroFSRange::PM250.sensitivity_tenths(), 1310);
    assert_eq!(GyroFSRange::PM500.sensitivity_tenths(), 655);
    assert_eq!(GyroFSRange::PM1000.sensitivity_tenths(), 328);
    assert_eq!(GyroFSRange::PM2000.sensitivity_tenths(), 164);
}

#[test]
fn new_gyroscope_scales_by_250_range() {
    let g = Gyroscope::new();
    assert_eq!(g.sensitivity_tenths(), 1310);
    assert_eq!(g.get_angular_velocity_lsb(GyroAxis::XAxis, 123), 123);
    assert_eq!(g.get_angular_velocity_lsb(GyroAxis::YAxis, -5), -5);
    assert_eq!(g.get_angular_velocity_lsb(GyroAxis::ZAxis, 0), 0);
}

#[test]
fn wake_up_clears_only_the_sleep_bit() {
    assert_eq!(Gyroscope::wake_up_value(0x40), 0x00);
    assert_eq!(Gyroscope::wake_up_value(0x41), 0x01);
    assert_eq!(Gyroscope::wake_up_value(0xFF), 0xBF);
    assert_eq!(Gyroscope::wake_up_value(0x01), 0x01);
    assert_eq!(Gyroscope::wake_up_value(0x00), 0x00);
    assert_eq!(Gyroscope::wake_up_value(0xFF) & SLEEP_BIT, 0);
}

#[test]
fn wake_up_twice_is_wake_up_once() {
    for r in 0..=255u8 {
        let once = Gyroscope::wake_up_value(r);
        assert_eq!(Gyroscope::wake_up_value(once), once);
    }
}

#[test]
fn set_range_sets_bits_without_clearing() {
    let g = Gyroscope::new();
    assert_eq!(g.set_range(GyroFSRange::PM500, 0x00), 0x08);
    assert_eq!(g.set_range(GyroFSRange::PM2000, 0x00), 0x18);
    assert_eq!(g.set_range(GyroFSRange::PM250, 0x18), 0x18);
    // a previous selection is not cleared
    assert_eq!(g.set_range(GyroFSRange::PM500, 0x10), 0x18);
    assert_eq!(g.set_range(GyroFSRange::PM1000, 0x07), 0x17);
    // the scale used for readings is not changed
    assert_eq!(g.sensitivity_tenths(), 1310);
}

#[test]
fn set_range_twice_is_set_range_once() {
    let g = Gyroscope::new();
    for r in 0..=255u8 {
        let once = g.set_range(GyroFSRange::PM1000, r);
        assert_eq!(g.set_range(GyroFSRange::PM1000, once), once);
        assert_eq!(once & r, r);
    }
}

#[test]
fn axis_registers_high_then_low() {
    assert_eq!(
        Gyroscope::axis_registers(GyroAxis::XAxis),
        (GyroRegister::GyroXOutHigh, GyroRegister::GyroXOutLow)
    );
    assert_eq!(
        Gyroscope::axis_registers(GyroAxis::YAxis),
        (GyroRegister::GyroYOutHigh, GyroRegister::GyroYOutLow)
    );
    assert_eq!(
        Gyroscope::axis_registers(GyroAxis::ZAxis),
        (GyroRegister::GyroZOutHigh, GyroRegister::GyroZOutLow)
    );
}

#[test]
fn raw_reading_is_big_endian_twos_complement() {
    assert_eq!(Gyroscope::get_raw_angular_velocity(0x12, 0x34), 0x1234);
    assert_eq!(Gyroscope::get_raw_angular_velocity(0x00, 0x01), 1);
    assert_eq!(Gyroscope::get_raw_angular_velocity(0xFF, 0xFF), -1);
    assert_eq!(Gyroscope::get_raw_angular_velocity(0x80, 0x00), i16::MIN);
    assert_eq!(Gyroscope::get_raw_angular_velocity(0x7F, 0xFF), i16::MAX);
    assert_eq!(Gyroscope::get_raw_angular_velocity(0xFE, 0x0C), -500);
}

#[test]
fn raw_reading_roundtrips_every_value() {
    for v in i16::MIN..=i16::MAX {
        let [h, l] = v.to_be_bytes();
        assert_eq!(Gyroscope::get_raw_angular_velocity(h, l), v);
        assert_eq!(Gyroscope::get_raw_angular_velocity(h, l), i16::from_be_bytes([h, l]));
    }
}

#[test]
fn calibrate_sets_mean_of_one_axis() {
    let mut g = Gyroscope::new();
    let samples: Vec<i16> = (0..CALIBRATION_SAMPLES as i16).collect(); // 0..99, sum 4950
    g.calibrate(GyroAxis::YAxis, &samples);
    assert_eq!(g.get_angular_velocity_lsb(GyroAxis::YAxis, 49), 0);
    assert_eq!(g.get_angular_velocity_lsb(GyroAxis::YAxis, 100), 51);
    assert_eq!(g.get_angular_velocity_lsb(GyroAxis::XAxis, 100), 100);
    assert_eq!(g.get_angular_velocity_lsb(GyroAxis::ZAxis, 100), 100);
}

#[test]
fn calibrate_rounds_toward_zero() {
    let mut g = Gyroscope::new();
    // sum -150: mean -1.5, rounded toward zero to -1
    let mut samples = vec![0i16; CALIBRATION_SAMPLES];
    samples[0] = -150;
    g.calibrate(GyroAxis::XAxis, &samples);
    assert_eq!(g.get_angular_velocity_lsb(GyroAxis::XAxis, 0), 1);
    // sum 150: mean 1.5, rounded toward zero to 1
    samples[0] = 150;
    g.calibrate(GyroAxis::XAxis, &samples);
    assert_eq!(g.get_angular_velocity_lsb(GyroAxis::XAxis, 0), -1);
}

#[test]
fn calibrate_on_extreme_readings() {
    let mut g = Gyroscope::new();
    g.calibrate(GyroAxis::ZAxis, &vec![i16::MIN; CALIBRATION_SAMPLES]);
    assert_eq!(g.get_angular_velocity_lsb(GyroAxis::ZAxis, i16::MIN), 0);
    assert_eq!(g.get_angular_velocity_lsb(GyroAxis::ZAxis, -1), i16::MAX);
    g.calibrate(GyroAxis::ZAxis, &vec![i16::MAX; CALIBRATION_SAMPLES]);
    assert_eq!(g.get_angular_velocity_lsb(GyroAxis::ZAxis, i16::MAX), 0);
}

#[test]
fn steady_calibration_zeroes_the_reading() {
    for c in [-32768i16, -1000, -1, 0, 1, 37, 32767] {
        let mut g = Gyroscope::new();
        g.calibrate(GyroAxis::XAxis, &vec![c; CALIBRATION_SAMPLES]);
        assert_eq!(g.get_angular_velocity_lsb(GyroAxis::XAxis, c), 0);
    }
}
