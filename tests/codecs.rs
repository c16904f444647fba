use iis3dwb::access::{
    axis_value, field_shift_of, read_consecutive_regs, read_frame, read_reg, temperature_word,
    update_field, write_frame, write_reg, AccessError,
};
use iis3dwb::fifos::{FifoMode, Watermark};
use iis3dwb::register::{Duration, SlaveAddr, Threshold, DEVICE_ID, FS_EN_MASK, XL_EN_MASK};
use iis3dwb::wakeups::SleepDuration;
use iis3dwb::{Config, DataRate, Mode, Range, Register};

#[test]
fn range_round_trip() {
    for range in [Range::G16, Range::G8, Range::G4, Range::G2] {
        assert_eq!(Range::from_raw(range.bits()), Some(range));
    }
    assert_eq!(Range::G16.bits(), 0b01);
    assert_eq!(Range::G8.bits(), 0b11);
    assert_eq!(Range::G4.bits(), 0b10);
    assert_eq!(Range::G2.bits(), 0b00);
    assert_eq!(Range::from_raw(4), None);
    assert_eq!(Range::default(), Range::G2);
}

#[test]
fn data_rate_round_trip() {
    for rate in [DataRate::Hz_26700, DataRate::PowerDown] {
        assert_eq!(DataRate::from_raw(rate.bits()), Some(rate));
    }
    assert_eq!(DataRate::Hz_26700.bits(), 0b0101);
    assert_eq!(DataRate::from_raw(0b0001), None);
    assert_eq!(DataRate::Hz_26700.hz(), 26700);
    assert_eq!(DataRate::PowerDown.hz(), 0);
}

#[test]
fn range_sensitivity() {
    assert_eq!(Range::G16.as_mg(), 186);
    assert_eq!(Range::G8.as_mg(), 62);
    assert_eq!(Range::G4.as_mg(), 32);
    assert_eq!(Range::G2.as_mg(), 16);
}

#[test]
fn register_map() {
    assert_eq!(Register::WHO_AM_I.addr(), 0x0F);
    assert_eq!(Register::CTRL1_XL.addr(), 0x10);
    assert_eq!(Register::OUTX_L_A.addr(), 0x28);
    assert_eq!(Register::FIFO_DATA_OUT_Z_H.addr(), 0x7E);
    assert!(Register::WHO_AM_I.read_only());
    assert!(Register::OUT_TEMP_H.read_only());
    assert!(!Register::CTRL1_XL.read_only());
    assert!(!Register::Z_OFS_USR.read_only());
    assert_eq!(SlaveAddr::Default.addr(), 0x18);
    assert_eq!(SlaveAddr::Alternate.addr(), 0x19);
    assert_eq!(DEVICE_ID, 0x7B);
}

#[test]
fn framing_sets_direction_bit() {
    assert_eq!(read_frame(0x0F), 0x8F);
    assert_eq!(write_frame(0x10), 0x10);
    assert_eq!(write_frame(0x90), 0x10);
    assert_eq!(read_reg(Register::WHO_AM_I), vec![0x8F, 0]);
    assert_eq!(read_consecutive_regs(Register::OUTX_L_A, 6), vec![0xA8, 0, 0, 0, 0, 0, 0]);
    assert_eq!(write_reg(Register::CTRL1_XL, 0x5C), Ok(vec![0x10, 0x5C]));
    assert_eq!(write_reg(Register::STATUS_REG, 1), Err(AccessError::ReadOnly));
}

#[test]
fn shift_from_mask() {
    assert_eq!(field_shift_of(0b0011_0000), Ok(4));
    assert_eq!(field_shift_of(0b0000_0001), Ok(0));
    assert_eq!(field_shift_of(0b1000_0000), Ok(7));
    assert_eq!(field_shift_of(XL_EN_MASK), Ok(5));
    assert_eq!(field_shift_of(FS_EN_MASK), Ok(2));
    assert_eq!(field_shift_of(0), Err(AccessError::EmptyMask));
}

#[test]
fn field_update_examples() {
    assert_eq!(update_field(0b0010_0110, 0b0111_0000, 0b101), Ok(0b0101_0110));
    // a value wider than its field is cut to the mask
    assert_eq!(update_field(0b1010_0011, FS_EN_MASK, 0xFF), Ok(0b1010_1111));
    assert_eq!(update_field(0xFF, FS_EN_MASK, 0), Ok(0b1111_0011));
    assert_eq!(update_field(0x42, 0, 1), Err(AccessError::EmptyMask));
}

#[test]
fn field_update_keeps_other_bits() {
    for mask in 1..=255u8 {
        let shift = field_shift_of(mask).unwrap();
        for current in 0..=255u8 {
            for value in [0u8, 1, 0b101, 0x3C, 0xFF] {
                let updated = update_field(current, mask, value).unwrap();
                assert_eq!(updated & !mask, current & !mask);
                assert_eq!(updated & mask, value.wrapping_shl(shift as u32) & mask);
            }
        }
    }
}

#[test]
fn threshold_rounding() {
    assert_eq!(Threshold::from_milli_g(Range::G2, 1100).raw(), 69);
    // 8 / 16 is exactly one half: not rounded up
    assert_eq!(Threshold::from_milli_g(Range::G2, 8).raw(), 0);
    assert_eq!(Threshold::from_milli_g(Range::G2, 9).raw(), 1);
    assert_eq!(Threshold::from_milli_g(Range::G2, 24).raw(), 1);
    assert_eq!(Threshold::from_milli_g(Range::G16, 1000).raw(), 5);
    // 256 steps keep their lowest eight bits
    assert_eq!(Threshold::from_milli_g(Range::G2, 4096).raw(), 0);
    assert_eq!(Threshold::from_rounding(255, true).raw(), 0);
    assert_eq!(Threshold::from_rounding(68, true).raw(), 69);
}

#[test]
fn duration_saturates() {
    assert_eq!(Duration::from_periods(25).raw(), 25);
    assert_eq!(Duration::from_periods(255).raw(), 255);
    assert_eq!(Duration::from_periods(667).raw(), 255);
    assert_eq!(SleepDuration::from_seconds(DataRate::PowerDown, 5).raw(), 0);
    assert_eq!(SleepDuration::from_seconds(DataRate::Hz_26700, 1).raw(), 255);
    assert_eq!(SleepDuration::from_seconds(DataRate::Hz_26700, 0).raw(), 0);
}

#[test]
fn temperature_and_axis_decoding() {
    assert_eq!(temperature_word(0xF3, 0x21), 0x321);
    assert_eq!(temperature_word(0x00, 0xFF), 0x0FF);
    assert_eq!(axis_value(0x00, 0x01), 256);
    assert_eq!(axis_value(0x34, 0x12), 0x1234);
    assert_eq!(axis_value(0xFF, 0xFF), -1);
    assert_eq!(axis_value(0x00, 0x80), i16::MIN);
}

#[test]
fn watermark_split() {
    let w = Watermark::from_bytes(300).unwrap();
    assert_eq!(w.lsb(), 44);
    assert!(w.hsb());
    let w = Watermark::from_bytes(255).unwrap();
    assert_eq!(w.lsb(), 255);
    assert!(!w.hsb());
    assert!(Watermark::from_bytes(511).is_some());
    assert!(Watermark::from_bytes(512).is_none());
}

#[test]
fn fifo_mode_codes() {
    for mode in [
        FifoMode::Disabled,
        FifoMode::FifoMode,
        FifoMode::ContinuousToFifo,
        FifoMode::BypassToContinuous,
        FifoMode::Continuous,
        FifoMode::BypassToFifo,
    ] {
        assert_eq!(FifoMode::from_raw(mode.bits()), Some(mode));
    }
    assert_eq!(FifoMode::from_raw(0b010), None);
    assert_eq!(FifoMode::from_raw(0b101), None);
}

#[test]
fn default_config() {
    let c = Config::default();
    assert_eq!(c.mode, Mode::HighResolution);
    assert_eq!(c.datarate, DataRate::Hz_26700);
    assert!(c.enable_x_axis && c.enable_y_axis && c.enable_z_axis && c.enable_temp);
    assert_eq!(c.range, Range::G2);
}
