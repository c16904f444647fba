//! The register map of the device, and the codes stored in its bit-fields.
use vstd::prelude::*;

verus! {

/// The two I²C slave addresses the device can answer on.
#[derive(Clone, Copy, Debug, PartialEq, Eq, Structural)]
pub enum SlaveAddr {
    /// Default slave address (`0x18`)
    Default,
    /// Alternate slave address (`0x19`)
    Alternate,
}

impl SlaveAddr {
    /// The 7-bit bus address selected by this variant.
    pub open spec fn spec_addr(self) -> u8 {
        match self {
            SlaveAddr::Default => 0x18,
            SlaveAddr::Alternate => 0x19,
        }
    }

    pub fn addr(self) -> (r: u8)
        ensures
            r == self.spec_addr(),
    {
        match self {
            SlaveAddr::Default => 0x18,
            SlaveAddr::Alternate => 0x19,
        }
    }
}

/// Every register of the device.
#[allow(non_camel_case_types)]
#[derive(Clone, Copy, Debug, PartialEq, Eq, Structural)]
pub enum Register {
    /// `PIN_CTRL`, at `0x02`
    PIN_CTRL,
    /// `FIFO_CTRL_1`, at `0x07`
    FIFO_CTRL_1,
    /// `FIFO_CTRL_2`, at `0x08`
    FIFO_CTRL_2,
    /// `FIFO_CTRL_3`, at `0x09`
    FIFO_CTRL_3,
    /// `FIFO_CTRL_4`, at `0x0A`
    FIFO_CTRL_4,
    /// `COUNTER_BDR_REG1`, at `0x0B`
    COUNTER_BDR_REG1,
    /// `COUNTER_BDR_REG2`, at `0x0C`
    COUNTER_BDR_REG2,
    /// `INT1_CTRL`, at `0x0D`
    INT1_CTRL,
    /// `INT2_CTRL`, at `0x0E`
    INT2_CTRL,
    /// `WHO_AM_I`, at `0x0F`
    WHO_AM_I,
    /// `CTRL1_XL`, at `0x10`
    CTRL1_XL,
    /// `CTRL3_C`, at `0x12`
    CTRL3_C,
    /// `CTRL4_C`, at `0x13`
    CTRL4_C,
    /// `CTRL5_C`, at `0x14`
    CTRL5_C,
    /// `CTRL6_C`, at `0x15`
    CTRL6_C,
    /// `CTRL7_C`, at `0x16`
    CTRL7_C,
    /// `CTRL8_XL`, at `0x17`
    CTRL8_XL,
    /// `CTRL10_C`, at `0x19`
    CTRL10_C,
    /// `ALL_INT_SRC`, at `0x1A`
    ALL_INT_SRC,
    /// `WAKE_UP_SRC`, at `0x1B`
    WAKE_UP_SRC,
    /// `STATUS_REG`, at `0x1E`
    STATUS_REG,
    /// `OUT_TEMP_L`, at `0x20`
    OUT_TEMP_L,
    /// `OUT_TEMP_H`, at `0x21`
    OUT_TEMP_H,
    /// `OUTX_L_A`, at `0x28`
    OUTX_L_A,
    /// `OUTX_H_A`, at `0x29`
    OUTX_H_A,
    /// `OUTY_L_A`, at `0x2A`
    OUTY_L_A,
    /// `OUTY_H_A`, at `0x2B`
    OUTY_H_A,
    /// `OUTZ_L_A`, at `0x2C`
    OUTZ_L_A,
    /// `OUTZ_H_A`, at `0x2D`
    OUTZ_H_A,
    /// `FIFO_STATUS1`, at `0x3A`
    FIFO_STATUS1,
    /// `FIFO_STATUS2`, at `0x3B`
    FIFO_STATUS2,
    /// `TIMESTAMP0`, at `0x40`
    TIMESTAMP0,
    /// `TIMESTAMP1`, at `0x41`
    TIMESTAMP1,
    /// `TIMESTAMP2`, at `0x42`
    TIMESTAMP2,
    /// `TIMESTAMP3`, at `0x43`
    TIMESTAMP3,
    /// `SLOPE_EN`, at `0x56`
    SLOPE_EN,
    /// `INTERRUPTS_EN`, at `0x58`
    INTERRUPTS_EN,
    /// `WAKE_UP_THS`, at `0x5B`
    WAKE_UP_THS,
    /// `WAKE_UP_DUR`, at `0x5C`
    WAKE_UP_DUR,
    /// `MD1_CFG`, at `0x5E`
    MD1_CFG,
    /// `MD2_CFG`, at `0x5F`
    MD2_CFG,
    /// `INTERNAL_FREQ_FINE`, at `0x63`
    INTERNAL_FREQ_FINE,
    /// `X_OFS_USR`, at `0x73`
    X_OFS_USR,
    /// `Y_OFS_USR`, at `0x74`
    Y_OFS_USR,
    /// `Z_OFS_USR`, at `0x75`
    Z_OFS_USR,
    /// `FIFO_DATA_OUT_TAG`, at `0x78`
    FIFO_DATA_OUT_TAG,
    /// `FIFO_DATA_OUT_X_L`, at `0x79`
    FIFO_DATA_OUT_X_L,
    /// `FIFO_DATA_OUT_X_H`, at `0x7A`
    FIFO_DATA_OUT_X_H,
    /// `FIFO_DATA_OUT_Y_L`, at `0x7B`
    FIFO_DATA_OUT_Y_L,
    /// `FIFO_DATA_OUT_Y_H`, at `0x7C`
    FIFO_DATA_OUT_Y_H,
    /// `FIFO_DATA_OUT_Z_L`, at `0x7D`
    FIFO_DATA_OUT_Z_L,
    /// `FIFO_DATA_OUT_Z_H`, at `0x7E`
    FIFO_DATA_OUT_Z_H,
}

impl Register {
    /// The register's address on the device.
    pub open spec fn spec_addr(self) -> u8 {
        match self {
            Register::PIN_CTRL => 0x02,
            Register::FIFO_CTRL_1 => 0x07,
            Register::FIFO_CTRL_2 => 0x08,
            Register::FIFO_CTRL_3 => 0x09,
            Register::FIFO_CTRL_4 => 0x0A,
            Register::COUNTER_BDR_REG1 => 0x0B,
            Register::COUNTER_BDR_REG2 => 0x0C,
            Register::INT1_CTRL => 0x0D,
            Register::INT2_CTRL => 0x0E,
            Register::WHO_AM_I => 0x0F,
            Register::CTRL1_XL => 0x10,
            Register::CTRL3_C => 0x12,
            Register::CTRL4_C => 0x13,
            Register::CTRL5_C => 0x14,
            Register::CTRL6_C => 0x15,
            Register::CTRL7_C => 0x16,
            Register::CTRL8_XL => 0x17,
            Register::CTRL10_C => 0x19,
            Register::ALL_INT_SRC => 0x1A,
            Register::WAKE_UP_SRC => 0x1B,
            Register::STATUS_REG => 0x1E,
            Register::OUT_TEMP_L => 0x20,
            Register::OUT_TEMP_H => 0x21,
            Register::OUTX_L_A => 0x28,
            Register::OUTX_H_A => 0x29,
            Register::OUTY_L_A => 0x2A,
            Register::OUTY_H_A => 0x2B,
            Register::OUTZ_L_A => 0x2C,
            Register::OUTZ_H_A => 0x2D,
            Register::FIFO_STATUS1 => 0x3A,
            Register::FIFO_STATUS2 => 0x3B,
            Register::TIMESTAMP0 => 0x40,
            Register::TIMESTAMP1 => 0x41,
            Register::TIMESTAMP2 => 0x42,
            Register::TIMESTAMP3 => 0x43,
            Register::SLOPE_EN => 0x56,
            Register::INTERRUPTS_EN => 0x58,
            Register::WAKE_UP_THS => 0x5B,
            Register::WAKE_UP_DUR => 0x5C,
            Register::MD1_CFG => 0x5E,
            Register::MD2_CFG => 0x5F,
            Register::INTERNAL_FREQ_FINE => 0x63,
            Register::X_OFS_USR => 0x73,
            Register::Y_OFS_USR => 0x74,
            Register::Z_OFS_USR => 0x75,
            Register::FIFO_DATA_OUT_TAG => 0x78,
            Register::FIFO_DATA_OUT_X_L => 0x79,
            Register::FIFO_DATA_OUT_X_H => 0x7A,
            Register::FIFO_DATA_OUT_Y_L => 0x7B,
            Register::FIFO_DATA_OUT_Y_H => 0x7C,
            Register::FIFO_DATA_OUT_Z_L => 0x7D,
            Register::FIFO_DATA_OUT_Z_H => 0x7E,
        }
    }

    /// Registers the device only reports through; a write to one has no defined effect.
    pub open spec fn is_read_only(self) -> bool {
        matches!(
            self,
            | Register::WHO_AM_I
            | Register::ALL_INT_SRC
            | Register::WAKE_UP_SRC
            | Register::STATUS_REG
            | Register::OUT_TEMP_L
            | Register::OUT_TEMP_H
            | Register::OUTX_L_A
            | Register::OUTX_H_A
            | Register::OUTY_L_A
            | Register::OUTY_H_A
            | Register::OUTZ_L_A
            | Register::OUTZ_H_A
            | Register::FIFO_STATUS1
            | Register::FIFO_STATUS2
            | Register::TIMESTAMP0
            | Register::TIMESTAMP1
            | Register::TIMESTAMP2
            | Register::TIMESTAMP3
            | Register::INTERNAL_FREQ_FINE
            | Register::FIFO_DATA_OUT_TAG
            | Register::FIFO_DATA_OUT_X_L
            | Register::FIFO_DATA_OUT_X_H
            | Register::FIFO_DATA_OUT_Y_L
            | Register::FIFO_DATA_OUT_Y_H
            | Register::FIFO_DATA_OUT_Z_L
            | Register::FIFO_DATA_OUT_Z_H
        )
    }

    /// Get register address
    pub fn addr(self) -> (r: u8)
        ensures
            r == self.spec_addr(),
            r < 0x80,
    {
        match self {
            Register::PIN_CTRL => 0x02,
            Register::FIFO_CTRL_1 => 0x07,
            Register::FIFO_CTRL_2 => 0x08,
            Register::FIFO_CTRL_3 => 0x09,
            Register::FIFO_CTRL_4 => 0x0A,
            Register::COUNTER_BDR_REG1 => 0x0B,
            Register::COUNTER_BDR_REG2 => 0x0C,
            Register::INT1_CTRL => 0x0D,
            Register::INT2_CTRL => 0x0E,
            Register::WHO_AM_I => 0x0F,
            Register::CTRL1_XL => 0x10,
            Register::CTRL3_C => 0x12,
            Register::CTRL4_C => 0x13,
            Register::CTRL5_C => 0x14,
            Register::CTRL6_C => 0x15,
            Register::CTRL7_C => 0x16,
            Register::CTRL8_XL => 0x17,
            Register::CTRL10_C => 0x19,
            Register::ALL_INT_SRC => 0x1A,
            Register::WAKE_UP_SRC => 0x1B,
            Register::STATUS_REG => 0x1E,
            Register::OUT_TEMP_L => 0x20,
            Register::OUT_TEMP_H => 0x21,
            Register::OUTX_L_A => 0x28,
            Register::OUTX_H_A => 0x29,
            Register::OUTY_L_A => 0x2A,
            Register::OUTY_H_A => 0x2B,
            Register::OUTZ_L_A => 0x2C,
            Register::OUTZ_H_A => 0x2D,
            Register::FIFO_STATUS1 => 0x3A,
            Register::FIFO_STATUS2 => 0x3B,
            Register::TIMESTAMP0 => 0x40,
            Register::TIMESTAMP1 => 0x41,
            Register::TIMESTAMP2 => 0x42,
            Register::TIMESTAMP3 => 0x43,
            Register::SLOPE_EN => 0x56,
            Register::INTERRUPTS_EN => 0x58,
            Register::WAKE_UP_THS => 0x5B,
            Register::WAKE_UP_DUR => 0x5C,
            Register::MD1_CFG => 0x5E,
            Register::MD2_CFG => 0x5F,
            Register::INTERNAL_FREQ_FINE => 0x63,
            Register::X_OFS_USR => 0x73,
            Register::Y_OFS_USR => 0x74,
            Register::Z_OFS_USR => 0x75,
            Register::FIFO_DATA_OUT_TAG => 0x78,
            Register::FIFO_DATA_OUT_X_L => 0x79,
            Register::FIFO_DATA_OUT_X_H => 0x7A,
            Register::FIFO_DATA_OUT_Y_L => 0x7B,
            Register::FIFO_DATA_OUT_Y_H => 0x7C,
            Register::FIFO_DATA_OUT_Z_L => 0x7D,
            Register::FIFO_DATA_OUT_Z_H => 0x7E,
        }
    }

    /// Is the register read-only?
    pub fn read_only(self) -> (r: bool)
        ensures
            r == self.is_read_only(),
    {
        matches!(
            self,
            | Register::WHO_AM_I
            | Register::ALL_INT_SRC
            | Register::WAKE_UP_SRC
            | Register::STATUS_REG
            | Register::OUT_TEMP_L
            | Register::OUT_TEMP_H
            | Register::OUTX_L_A
            | Register::OUTX_H_A
            | Register::OUTY_L_A
            | Register::OUTY_H_A
            | Register::OUTZ_L_A
            | Register::OUTZ_H_A
            | Register::FIFO_STATUS1
            | Register::FIFO_STATUS2
            | Register::TIMESTAMP0
            | Register::TIMESTAMP1
            | Register::TIMESTAMP2
            | Register::TIMESTAMP3
            | Register::INTERNAL_FREQ_FINE
            | Register::FIFO_DATA_OUT_TAG
            | Register::FIFO_DATA_OUT_X_L
            | Register::FIFO_DATA_OUT_X_H
            | Register::FIFO_DATA_OUT_Y_L
            | Register::FIFO_DATA_OUT_Y_H
            | Register::FIFO_DATA_OUT_Z_L
            | Register::FIFO_DATA_OUT_Z_H
        )
    }
}

/// Full-scale selection.
#[derive(Clone, Copy, Debug, PartialEq, Eq, Structural)]
pub enum Range {
    /// ±16g
    G16,
    /// ±8g
    G8,
    /// ±4g
    G4,
    /// ±2g (Default)
    G2,
}

impl Range {
    /// The two-bit code of the range in the `FS_XL` field of `CTRL1_XL`.
    pub open spec fn spec_bits(self) -> u8 {
        match self {
            Range::G16 => 0b01,
            Range::G8 => 0b11,
            Range::G4 => 0b10,
            Range::G2 => 0b00,
        }
    }

    /// The range whose code is `bits`, if there is one.
    pub open spec fn spec_from_raw(bits: u8) -> Option<Range> {
        if bits == 0b01 {
            Some(Range::G16)
        } else if bits == 0b11 {
            Some(Range::G8)
        } else if bits == 0b10 {
            Some(Range::G4)
        } else if bits == 0b00 {
            Some(Range::G2)
        } else {
            None
        }
    }

    /// Sensitivity of the range, in milli-g per step of a threshold.
    pub open spec fn spec_as_mg(self) -> u8 {
        match self {
            Range::G16 => 186,
            Range::G8 => 62,
            Range::G4 => 32,
            Range::G2 => 16,
        }
    }

    pub fn bits(self) -> (r: u8)
        ensures
            r == self.spec_bits(),
            r < 4,
    {
        match self {
            Range::G16 => 0b01,
            Range::G8 => 0b11,
            Range::G4 => 0b10,
            Range::G2 => 0b00,
        }
    }

    /// Decode a two-bit range code; `None` for any other value.
    pub fn from_raw(bits: u8) -> (r: Option<Range>)
        ensures
            r == Range::spec_from_raw(bits),
    {
        match bits {
            0b01 => Some(Range::G16),
            0b11 => Some(Range::G8),
            0b10 => Some(Range::G4),
            0b00 => Some(Range::G2),
            _ => None,
        }
    }

    /// Convert the range into an value in mili-g
    pub fn as_mg(self) -> (r: u8)
        ensures
            r == self.spec_as_mg(),
            r > 0,
    {
        match self {
            Range::G16 => 186,
            Range::G8 => 62,
            Range::G4 => 32,
            Range::G2 => 16,
        }
    }
}

impl Default for Range {
    fn default() -> (r: Range)
        ensures
            r == Range::G2,
    {
        Range::G2
    }
}

/// Decoding the code of a range gives the range back, and a code decodes only to the
/// range that has it.
pub proof fn lemma_range_round_trip(range: Range, bits: u8)
    ensures
        Range::spec_from_raw(range.spec_bits()) == Some(range),
        Range::spec_from_raw(bits) == Some(range) ==> range.spec_bits() == bits,
{
}

/// `x / step` rounded to the nearest whole number, where a remainder of exactly one half
/// is rounded down.
pub open spec fn rounded_quotient(x: int, step: int) -> int {
    x / step + if 2 * (x % step) > step { 1int } else { 0int }
}

/// A threshold, counted in steps of the sensitivity of a range.
#[derive(Clone, Copy, Debug, PartialEq, Eq, Structural)]
pub struct Threshold(u8);

impl Threshold {
    /// The raw register value.
    pub closed spec fn spec_raw(self) -> u8 {
        self.0
    }

    pub fn raw(self) -> (r: u8)
        ensures
            r == self.spec_raw(),
    {
        self.0
    }

    /// A threshold from a whole number of steps, plus one step when the fraction left
    /// over is above one half; the count keeps its lowest eight bits.
    pub fn from_rounding(whole: u64, above_half: bool) -> (r: Threshold)
        ensures
            r.spec_raw() == (whole + if above_half { 1int } else { 0int }) % 256,
    {
        let low = (whole % 256) as u16;
        let count: u16 = if above_half { low + 1 } else { low };
        Threshold((count % 256) as u8)
    }

    /// Convert a whole number of milli-g into a threshold for `range`: the value is divided
    /// by the range's sensitivity and rounded, a remainder of exactly one half rounding down.
    pub fn from_milli_g(range: Range, mgs: u32) -> (r: Threshold)
        ensures
            r.spec_raw() == rounded_quotient(mgs as int, range.spec_as_mg() as int) % 256,
    {
        let step = range.as_mg() as u32;
        let whole = mgs / step;
        let rest = mgs % step;
        Threshold::from_rounding(whole as u64, 2 * rest > step)
    }
}

/// Output data rate.
#[allow(non_camel_case_types)]
#[derive(Clone, Copy, Debug, PartialEq, Eq, Structural)]
pub enum DataRate {
    /// 26.7 kHz (Default)
    Hz_26700,
    /// Power down
    PowerDown,
}

impl DataRate {
    /// The code of the rate in the `XL_EN` field of `CTRL1_XL`.
    pub open spec fn spec_bits(self) -> u8 {
        match self {
            DataRate::Hz_26700 => 0b0101,
            DataRate::PowerDown => 0b0000,
        }
    }

    /// The rate whose code is `bits`, if there is one.
    pub open spec fn spec_from_raw(bits: u8) -> Option<DataRate> {
        if bits == 0b0101 {
            Some(DataRate::Hz_26700)
        } else if bits == 0b0000 {
            Some(DataRate::PowerDown)
        } else {
            None
        }
    }

    /// Samples per second.
    pub open spec fn spec_hz(self) -> u32 {
        match self {
            DataRate::Hz_26700 => 26700,
            DataRate::PowerDown => 0,
        }
    }

    pub fn bits(self) -> (r: u8)
        ensures
            r == self.spec_bits(),
    {
        match self {
            DataRate::Hz_26700 => 0b0101,
            DataRate::PowerDown => 0b0000,
        }
    }

    /// Decode a rate code; `None` for any other value.
    pub fn from_raw(bits: u8) -> (r: Option<DataRate>)
        ensures
            r == DataRate::spec_from_raw(bits),
    {
        match bits {
            0b0101 => Some(DataRate::Hz_26700),
            0b0000 => Some(DataRate::PowerDown),
            _ => None,
        }
    }

    /// The sample rate in whole hertz.
    pub fn hz(self) -> (r: u32)
        ensures
            r == self.spec_hz(),
    {
        match self {
            DataRate::Hz_26700 => 26700,
            DataRate::PowerDown => 0,
        }
    }
}

/// Decoding the code of a data rate gives the rate back, and a code decodes only to the
/// rate that has it.
pub proof fn lemma_data_rate_round_trip(rate: DataRate, bits: u8)
    ensures
        DataRate::spec_from_raw(rate.spec_bits()) == Some(rate),
        DataRate::spec_from_raw(bits) == Some(rate) ==> rate.spec_bits() == bits,
{
}

/// A duration, as a count of periods of the output data rate.
#[derive(Clone, Copy, Debug, PartialEq, Eq, Structural)]
pub struct Duration(u8);

impl Duration {
    /// The raw register value.
    pub closed spec fn spec_raw(self) -> u8 {
        self.0
    }

    pub fn raw(self) -> (r: u8)
        ensures
            r == self.spec_raw(),
    {
        self.0
    }

    /// A duration of `periods` sample periods; a count above 255 is held at 255.
    pub fn from_periods(periods: u64) -> (r: Duration)
        ensures
            r.spec_raw() == if periods > 255 { 255 } else { periods },
    {
        if periods > 255 {
            Duration(255)
        } else {
            Duration(periods as u8)
        }
    }
}

/// Data status structure. Decoded from the `STATUS_REG` register.
///
/// `STATUS_REG` has the following bit fields:
///   * `ZYXOR` - X, Y and Z-axis data overrun
///   * `ZOR` - Z-axis data overrun
///   * `YOR` - Y-axis data overrun
///   * `XOR` - X-axis data overrun
///   * `ZYXDA` - X, Y and Z-axis new data available
///   * `ZDA` - Z-axis new data available
///   * `YDA` Y-axis new data available
///   * `XDA` X-axis new data available
#[derive(Debug)]
pub struct DataStatus {
    /// ZYXOR bit
    pub zyxor: bool,
    /// (XOR, YOR, ZOR) bits
    pub xyzor: (bool, bool, bool),
    /// ZYXDA bit
    pub zyxda: bool,
    /// (XDA, YDA, ZDA) bits
    pub xyzda: (bool, bool, bool),
}

/// Operating mode.
#[derive(Clone, Copy, Debug, PartialEq, Eq, Structural)]
pub enum Mode {
    /// High-resolution mode (12-bit data output)
    HighResolution,
    /// Normal mode (10-bit data output)
    Normal,
    /// Low-power mode (8-bit data output)
    LowPower,
}

// === WHO_AM_I (0Fh) ===

/// `WHO_AM_I` device identification register
pub const DEVICE_ID: u8 = 0x7B;

// === CTRL1_XL (10h) ===

pub const XL_EN_MASK: u8 = 0b1110_0000;
pub const FS_EN_MASK: u8 = 0b0000_1100;
pub const LPF2_EN: u8 = 0b0000_0010;

// === CTRL3_C (12h) ===

pub const BOOT: u8 = 0b1000_0000;
pub const BDU: u8 = 0b0100_0000;
pub const H_LACTIVE: u8 = 0b0010_0000;
pub const PP_OD: u8 = 0b0001_0000;
pub const SIM: u8 = 0b0000_1000;
pub const IF_INC: u8 = 0b0000_0100;
pub const SW_RESET: u8 = 0b0000_0001;

// === CTRL4_C (13h) ===

pub const INT2_ON_INT1: u8 = 0b0010_0000;
pub const DRDY_MASK: u8 = 0b0000_1000;

// === CTRL5_C (14h) ===

pub const ROUNDING_EN: u8 = 0b0010_0000;
pub const SELFTEST_MASK: u8 = 0b0000_0011;

// === CTRL6_C (15h) ===

pub const USR_OFF_W: u8 = 0b0000_1000;
pub const XL_AXIS_SEL_MASK: u8 = 0b0000_0011;

// === CTRL7_C (16h) ===

pub const USR_OFF_ON_OUT: u8 = 0b0000_0010;

// === CTRL8_XL (17h) ===

pub const HPCF_XL_MASK: u8 = 0b1110_0000;
pub const HP_REF_MODE_XL: u8 = 0b0001_0000;
pub const FASTSETTL_MODE_XL: u8 = 0b0000_1000;
pub const FDS: u8 = 0b0000_0100;

// === CTRL10_C (19h) ===

pub const TIMESTAMP_EN: u8 = 0b0010_0000;

} // verus!
