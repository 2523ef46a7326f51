//! MPU-6000 gyroscope: register map, full-scale ranges, decoding of the raw
//! angular velocity and the per-axis bias calibration.
//! See the MPU-6000 datasheet, section 9.2 (I2C address) and the register map.
use vstd::prelude::*;

verus! {

/// I2C address of the MPU-6000 with AD0 tied low.
pub const MPU_ADDRESS: u8 = 0b1101000;

/// Number of readings averaged by a calibration.
pub const CALIBRATION_SAMPLES: usize = 100;

/// Sleep bit of the PWR_MGMT_1 register.
pub const SLEEP_BIT: u8 = 0b01000000;

/// An axis of the gyroscope.
#[derive(Clone, Copy, PartialEq, Eq, Structural, Debug)]
pub enum GyroAxis {
    XAxis,
    YAxis,
    ZAxis,
}

/// Registers of the MPU-6000 that the driver uses.
#[derive(Clone, Copy, PartialEq, Eq, Structural, Debug)]
pub enum GyroRegister {
    GyroXOutHigh,
    GyroXOutLow,
    GyroYOutHigh,
    GyroYOutLow,
    GyroZOutHigh,
    GyroZOutLow,
    GyroConfig,
    FIFOEnable,
    UserCtrl,
    PowerMgmt1,
    PowerMgmt2,
}

/// Errors of the gyroscope driver.
#[derive(Clone, Copy, PartialEq, Eq, Structural, Debug)]
pub enum GyroError {
    I2CDriver,
    RegRead,
    RegWrite,
}

/// Full-scale ranges of the gyroscope, in degrees per second.
#[derive(Clone, Copy, PartialEq, Eq, Structural, Debug)]
pub enum GyroFSRange {
    PM250,
    PM500,
    PM1000,
    PM2000,
}

/// Address of each register in the MPU-6000 register map.
pub open spec fn spec_register_address(register: GyroRegister) -> u8 {
    match register {
        GyroRegister::GyroXOutHigh => 0x43,
        GyroRegister::GyroXOutLow => 0x44,
        GyroRegister::GyroYOutHigh => 0x45,
        GyroRegister::GyroYOutLow => 0x46,
        GyroRegister::GyroZOutHigh => 0x47,
        GyroRegister::GyroZOutLow => 0x48,
        GyroRegister::GyroConfig => 0x1B,
        GyroRegister::FIFOEnable => 0x23,
        GyroRegister::UserCtrl => 0x6A,
        GyroRegister::PowerMgmt1 => 0x6B,
        GyroRegister::PowerMgmt2 => 0x6C,
    }
}

impl GyroRegister {
    /// The register's address.
    pub fn address(&self) -> (a: u8)
        ensures
            a == spec_register_address(*self),
    {
        match self {
            GyroRegister::GyroXOutHigh => 0x43,
            GyroRegister::GyroXOutLow => 0x44,
            GyroRegister::GyroYOutHigh => 0x45,
            GyroRegister::GyroYOutLow => 0x46,
            GyroRegister::GyroZOutHigh => 0x47,
            GyroRegister::GyroZOutLow => 0x48,
            GyroRegister::GyroConfig => 0x1B,
            GyroRegister::FIFOEnable => 0x23,
            GyroRegister::UserCtrl => 0x6A,
            GyroRegister::PowerMgmt1 => 0x6B,
            GyroRegister::PowerMgmt2 => 0x6C,
        }
    }

    /// The bytes sent on the bus to write `data` into this register.
    pub fn write_command(&self, data: u8) -> (command: [u8; 2])
        ensures
            command@ == seq![spec_register_address(*self), data],
    {
        let command = [self.address(), data];
        assert(command@ =~= seq![spec_register_address(*self), data]);
        command
    }
}

/// FS_SEL bits of the GYRO_CONFIG register for each range.
pub open spec fn spec_range_bits(range: GyroFSRange) -> u8 {
    match range {
        GyroFSRange::PM250 => 0b000_00_000,
        GyroFSRange::PM500 => 0b000_01_000,
        GyroFSRange::PM1000 => 0b000_10_000,
        GyroFSRange::PM2000 => 0b000_11_000,
    }
}

/// Sensitivity of each range in tenths of LSB per degree per second
/// (131, 65.5, 32.8 and 16.4 LSB/(deg/s)).
pub open spec fn spec_sensitivity_tenths(range: GyroFSRange) -> u16 {
    match range {
        GyroFSRange::PM250 => 1310,
        GyroFSRange::PM500 => 655,
        GyroFSRange::PM1000 => 328,
        GyroFSRange::PM2000 => 164,
    }
}

impl GyroFSRange {
    /// The FS_SEL bits that select this range in GYRO_CONFIG.
    pub fn bits(&self) -> (b: u8)
        ensures
            b == spec_range_bits(*self),
    {
        match self {
            GyroFSRange::PM250 => 0b000_00_000,
            GyroFSRange::PM500 => 0b000_01_000,
            GyroFSRange::PM1000 => 0b000_10_000,
            GyroFSRange::PM2000 => 0b000_11_000,
        }
    }

    /// LSB per degree per second of this range, in tenths.
    pub fn sensitivity_tenths(&self) -> (s: u16)
        ensures
            s == spec_sensitivity_tenths(*self),
    {
        match self {
            GyroFSRange::PM250 => 1310,
            GyroFSRange::PM500 => 655,
            GyroFSRange::PM1000 => 328,
            GyroFSRange::PM2000 => 164,
        }
    }
}

/// The registers holding the high and low byte of an axis' reading.
pub open spec fn spec_axis_registers(axis: GyroAxis) -> (GyroRegister, GyroRegister) {
    match axis {
        GyroAxis::XAxis => (GyroRegister::GyroXOutHigh, GyroRegister::GyroXOutLow),
        GyroAxis::YAxis => (GyroRegister::GyroYOutHigh, GyroRegister::GyroYOutLow),
        GyroAxis::ZAxis => (GyroRegister::GyroZOutHigh, GyroRegister::GyroZOutLow),
    }
}

/// The two's complement value of the big-endian bytes `high`, `low`.
pub open spec fn spec_be_i16(high: u8, low: u8) -> int {
    let u = high * 256 + low;
    if u >= 32768 {
        u - 65536
    } else {
        u
    }
}

/// Sum of a sequence of readings.
pub open spec fn spec_sum(s: Seq<i16>) -> int
    decreases s.len(),
{
    if s.len() == 0 {
        0
    } else {
        spec_sum(s.drop_last()) + s.last()
    }
}

/// Integer division rounding toward zero, as Rust's `/` does.
pub open spec fn spec_trunc_div(a: int, b: int) -> int
    recommends
        b > 0,
{
    if a >= 0 {
        a / b
    } else {
        -((-a) / b)
    }
}

/// The bias that a calibration derives from its readings: their mean,
/// rounded toward zero.
pub open spec fn spec_mean(s: Seq<i16>) -> int {
    spec_trunc_div(spec_sum(s), s.len() as int)
}

/// Bounds of a sum of `n` readings.
pub proof fn lemma_sum_bounds(s: Seq<i16>)
    ensures
        -32768 * s.len() <= spec_sum(s) <= 32767 * s.len(),
    decreases s.len(),
{
    if s.len() > 0 {
        lemma_sum_bounds(s.drop_last());
    }
}

/// The mean of readings is itself a reading.
pub proof fn lemma_mean_bounds(s: Seq<i16>)
    requires
        s.len() > 0,
    ensures
        -32768 <= spec_mean(s) <= 32767,
{
    lemma_sum_bounds(s);
    let n = s.len() as int;
    let a = spec_sum(s);
    if a >= 0 {
        assert(a / n <= 32767) by (nonlinear_arith)
            requires
                0 <= a <= 32767 * n,
                n > 0,
        ;
    } else {
        assert((-a) / n <= 32768) by (nonlinear_arith)
            requires
                0 < -a <= 32768 * n,
                n > 0,
        ;
    }
}

/// A sum of `n` equal readings is `n` times the reading.
pub proof fn lemma_sum_constant(s: Seq<i16>, c: i16)
    requires
        forall|i: int| 0 <= i < s.len() ==> s[i] == c,
    ensures
        spec_sum(s) == s.len() * c,
    decreases s.len(),
{
    if s.len() > 0 {
        lemma_sum_constant(s.drop_last(), c);
        assert(spec_sum(s) == (s.len() - 1) * c + c);
        assert((s.len() - 1) * c + c == s.len() * c) by (nonlinear_arith);
    }
}

/// Calibrating on a steady reading: when every reading of a calibration
/// equals `c`, the bias it sets is `c`, so that the same reading, corrected
/// by that bias, is zero.
pub proof fn law_steady_calibration(samples: Seq<i16>, c: i16)
    requires
        samples.len() == CALIBRATION_SAMPLES,
        forall|i: int| 0 <= i < samples.len() ==> samples[i] == c,
    ensures
        spec_mean(samples) == c,
        c - spec_mean(samples) == 0,
{
    lemma_sum_constant(samples, c);
    let a = spec_sum(samples);
    assert(a == 100 * c);
    if c >= 0 {
        assert(a / 100 == c) by (nonlinear_arith)
            requires
                a == 100 * c,
        ;
    } else {
        assert((-a) / 100 == -c) by (nonlinear_arith)
            requires
                a == 100 * c,
        ;
    }
}

/// The big-endian bytes of a reading, high byte first.
pub open spec fn spec_be_bytes(v: i16) -> (u8, u8) {
    let u = if v < 0 { v + 65536 } else { v as int };
    ((u / 256) as u8, (u % 256) as u8)
}

/// Decoding the big-endian bytes of any reading gives the reading back.
pub proof fn law_raw_roundtrip(v: i16)
    ensures
        spec_be_i16(spec_be_bytes(v).0, spec_be_bytes(v).1) == v,
{
    let u = if v < 0 { v + 65536 } else { v as int };
    assert(0 <= u < 65536);
    assert(u == (u / 256) * 256 + u % 256);
}

/// Waking the device twice writes the same value as waking it once.
pub proof fn law_wake_up_idempotent(power_mgmt: u8)
    ensures
        (power_mgmt & 0b10111111) & 0b10111111 == power_mgmt & 0b10111111,
{
    assert((power_mgmt & 0b10111111) & 0b10111111 == power_mgmt & 0b10111111) by (bit_vector);
}

/// Selecting a range never clears a bit of GYRO_CONFIG, and selecting the
/// same range again writes the same value.
pub proof fn law_set_range_keeps_bits(gyro_config: u8, range: GyroFSRange)
    ensures
        (gyro_config | spec_range_bits(range)) & gyro_config == gyro_config,
        (gyro_config | spec_range_bits(range)) | spec_range_bits(range)
            == gyro_config | spec_range_bits(range),
{
    let b = spec_range_bits(range);
    assert((gyro_config | b) & gyro_config == gyro_config && (gyro_config | b) | b == gyro_config | b)
        by (bit_vector);
}

/// The gyroscope's configuration as the driver tracks it: the range that
/// readings are scaled by and the bias of each axis.
pub struct Gyroscope {
    current_range: GyroFSRange,
    bias_x: i16,
    bias_y: i16,
    bias_z: i16,
}

impl Gyroscope {
    /// The range that readings are scaled by.
    pub closed spec fn range(&self) -> GyroFSRange {
        self.current_range
    }

    /// The bias of an axis.
    pub closed spec fn bias(&self, axis: GyroAxis) -> i16 {
        match axis {
            GyroAxis::XAxis => self.bias_x,
            GyroAxis::YAxis => self.bias_y,
            GyroAxis::ZAxis => self.bias_z,
        }
    }

    /// A freshly woken gyroscope: range ±250 deg/s, no bias on any axis.
    pub fn new() -> (g: Self)
        ensures
            g.range() == GyroFSRange::PM250,
            forall|axis: GyroAxis| #[trigger] g.bias(axis) == 0,
    {
        Gyroscope { current_range: GyroFSRange::PM250, bias_x: 0, bias_y: 0, bias_z: 0 }
    }

    /// The PWR_MGMT_1 value that wakes the device: the sleep bit cleared,
    /// every other bit kept.
    pub fn wake_up_value(power_mgmt: u8) -> (v: u8)
        ensures
            v == power_mgmt & 0b10111111,
            v & SLEEP_BIT == 0,
            v | SLEEP_BIT == power_mgmt | SLEEP_BIT,
    {
        let v = power_mgmt & 0b10111111;
        assert(v & 0b01000000 == 0 && v | 0b01000000 == power_mgmt | 0b01000000) by (bit_vector)
            requires
                v == power_mgmt & 0b10111111,
        ;
        v
    }

    /// The GYRO_CONFIG value written to select `range`, given the register's
    /// current value: the range's FS_SEL bits are set, no bit is cleared.
    /// The range that readings are scaled by is left as it is.
    pub fn set_range(&self, range: GyroFSRange, gyro_config: u8) -> (v: u8)
        ensures
            v == gyro_config | spec_range_bits(range),
    {
        gyro_config | range.bits()
    }

    /// The registers to read for an axis: high byte first, then low byte.
    pub fn axis_registers(axis: GyroAxis) -> (regs: (GyroRegister, GyroRegister))
        ensures
            regs == spec_axis_registers(axis),
    {
        match axis {
            GyroAxis::XAxis => (GyroRegister::GyroXOutHigh, GyroRegister::GyroXOutLow),
            GyroAxis::YAxis => (GyroRegister::GyroYOutHigh, GyroRegister::GyroYOutLow),
            GyroAxis::ZAxis => (GyroRegister::GyroZOutHigh, GyroRegister::GyroZOutLow),
        }
    }

    /// The raw angular velocity held by the high and low output bytes of an
    /// axis (a big-endian two's complement number).
    pub fn get_raw_angular_velocity(high: u8, low: u8) -> (raw: i16)
        ensures
            raw == spec_be_i16(high, low),
    {
        let u: u32 = (high as u32) * 256 + (low as u32);
        if u >= 32768 {
            (u as i32 - 65536) as i16
        } else {
            u as i16
        }
    }

    /// Sets the bias of `axis` to the mean of `samples`, rounded toward zero.
    pub fn calibrate(&mut self, axis: GyroAxis, samples: &[i16])
        requires
            samples@.len() == CALIBRATION_SAMPLES,
        ensures
            final(self).range() == old(self).range(),
            final(self).bias(axis) == spec_mean(samples@),
            forall|other: GyroAxis| other != axis ==> #[trigger] final(self).bias(other) == old(self).bias(other),
    {
        let n = samples.len();
        let mut acc: i64 = 0;
        let mut i: usize = 0;
        while i < n
            invariant
                n == samples@.len(),
                n == CALIBRATION_SAMPLES,
                0 <= i <= n,
                acc == spec_sum(samples@.subrange(0, i as int)),
            decreases n - i,
        {
            proof {
                lemma_sum_bounds(samples@.subrange(0, i as int));
                assert(samples@.subrange(0, i + 1).drop_last() =~= samples@.subrange(0, i as int));
            }
            acc = acc + samples[i] as i64;
            i = i + 1;
        }
        assert(samples@.subrange(0, n as int) =~= samples@);
        proof {
            lemma_mean_bounds(samples@);
        }
        let count: i64 = 100;
        let bias = (acc / count) as i16;
        match axis {
            GyroAxis::XAxis => self.bias_x = bias,
            GyroAxis::YAxis => self.bias_y = bias,
            GyroAxis::ZAxis => self.bias_z = bias,
        }
    }

    /// A raw reading of `axis` with that axis' bias taken off, in LSB.
    /// The caller keeps the difference within `i16`.
    pub fn get_angular_velocity_lsb(&self, axis: GyroAxis, raw: i16) -> (v: i16)
        requires
            i16::MIN <= raw - self.bias(axis) <= i16::MAX,
        ensures
            v == raw - self.bias(axis),
    {
        let bias = self.get_bias(axis);
        raw - bias
    }

    /// The bias of an axis, in LSB.
    pub fn get_bias(&self, axis: GyroAxis) -> (b: i16)
        ensures
            b == self.bias(axis),
    {
        match axis {
            GyroAxis::XAxis => self.bias_x,
            GyroAxis::YAxis => self.bias_y,
            GyroAxis::ZAxis => self.bias_z,
        }
    }

    /// LSB per degree per second of the range readings are scaled by, in tenths.
    pub fn sensitivity_tenths(&self) -> (s: u16)
        ensures
            s == spec_sensitivity_tenths(self.range()),
    {
        self.current_range.sensitivity_tenths()
    }
}

} // verus!
