use iis3dwb::access::AccessError;
use iis3dwb::register::{DEVICE_ID, FS_EN_MASK};
use iis3dwb::{Action, Config, DeviceError, Range, Reading, Register, I16x3, IIS3DWB};

/// A register file that answers transfers as the device does: a read auto-increments the
/// register address after each byte.
struct Chip {
    regs: [u8; 128],
    transfers: usize,
}

impl Chip {
    fn new(id: u8) -> Chip {
        let mut regs = [0u8; 128];
        regs[0x0F] = id;
        Chip { regs, transfers: 0 }
    }

    /// Run an operation to its end.
    fn run(&mut self, handle: &mut IIS3DWB, first: Action) -> Result<Reading, DeviceError> {
        let mut action = first;
        loop {
            action = match action {
                Action::Transfer(mut bytes) => {
                    self.transfers += 1;
                    assert!(bytes[0] & 0x80 != 0);
                    let base = (bytes[0] & 0x7F) as usize;
                    for i in 1..bytes.len() {
                        bytes[i] = self.regs[base + i - 1];
                    }
                    handle.resume(&bytes)
                }
                Action::Write(bytes) => {
                    self.transfers += 1;
                    assert_eq!(bytes.len(), 2);
                    assert!(bytes[0] & 0x80 == 0);
                    self.regs[bytes[0] as usize] = bytes[1];
                    handle.resume(&Vec::new())
                }
                Action::Done(result) => return result,
            };
        }
    }
}

fn connect(chip: &mut Chip, config: &Config) -> (IIS3DWB, Result<Reading, DeviceError>) {
    let (mut handle, first) = IIS3DWB::new(config);
    assert_eq!(first, Action::Transfer(vec![0x8F, 0]));
    let result = chip.run(&mut handle, first);
    (handle, result)
}

#[test]
fn wrong_device_is_rejected() {
    let mut chip = Chip::new(0x6A);
    chip.regs[0x10] = 0x55;
    let (mut handle, result) = connect(&mut chip, &Config::default());
    assert_eq!(result, Err(DeviceError::WrongDevice(0x6A)));
    assert_eq!(chip.transfers, 1);
    assert_eq!(chip.regs[0x10], 0x55);
    assert_eq!(handle.set_range(Range::G8), Action::Done(Err(DeviceError::NotIdentified)));
    assert_eq!(handle.start(), Action::Done(Err(DeviceError::NotIdentified)));
}

#[test]
fn creation_applies_range_and_keeps_other_bits() {
    let mut chip = Chip::new(DEVICE_ID);
    chip.regs[0x10] = 0b1010_0011;
    let config = Config { range: Range::G8, ..Config::default() };
    let (_, result) = connect(&mut chip, &config);
    assert_eq!(result, Ok(Reading::Configured));
    assert_eq!(chip.regs[0x10], 0b1010_1111);
    assert_eq!(chip.regs[0x10] & !FS_EN_MASK, 0b1010_0011);
}

#[test]
fn set_range_and_start() {
    let mut chip = Chip::new(DEVICE_ID);
    chip.regs[0x10] = 0b0001_0010;
    let (mut handle, result) = connect(&mut chip, &Config::default());
    assert_eq!(result, Ok(Reading::Configured));
    assert_eq!(chip.regs[0x10], 0b0001_0010);

    let first = handle.set_range(Range::G4);
    assert_eq!(first, Action::Transfer(vec![0x90, 0]));
    assert_eq!(chip.run(&mut handle, first), Ok(Reading::Configured));
    assert_eq!(chip.regs[0x10], 0b0001_1010);

    let first = handle.start();
    assert_eq!(chip.run(&mut handle, first), Ok(Reading::Configured));
    assert_eq!(chip.regs[0x10], 0b1011_1010);
}

#[test]
fn device_id_is_read() {
    let mut chip = Chip::new(DEVICE_ID);
    let (mut handle, _) = connect(&mut chip, &Config::default());
    let first = handle.get_device_id();
    assert_eq!(first, Action::Transfer(vec![0x8F, 0]));
    assert_eq!(chip.run(&mut handle, first), Ok(Reading::DeviceId(0x7B)));
}

#[test]
fn acceleration_decode() {
    let (mut handle, _) = IIS3DWB::new(&Config::default());
    let first = handle.accel_raw();
    assert_eq!(first, Action::Transfer(vec![0xA8, 0, 0, 0, 0, 0, 0]));
    let answer = handle.resume(&vec![0xFF, 0x00, 0x01, 0x00, 0x02, 0x00, 0x03]);
    assert_eq!(answer, Action::Done(Ok(Reading::Acceleration(I16x3::new(256, 512, 768)))));
}

#[test]
fn acceleration_from_registers() {
    let mut chip = Chip::new(DEVICE_ID);
    let (mut handle, _) = connect(&mut chip, &Config::default());
    chip.regs[0x28..0x2E].copy_from_slice(&[0x34, 0x12, 0xFF, 0xFF, 0x00, 0x80]);
    let first = handle.accel_raw();
    let v = I16x3::new(0x1234, -1, i16::MIN);
    assert_eq!(chip.run(&mut handle, first), Ok(Reading::Acceleration(v)));
}

#[test]
fn temperature_read() {
    let mut chip = Chip::new(DEVICE_ID);
    let (mut handle, _) = connect(&mut chip, &Config::default());
    let first = handle.read_temp_raw();
    assert_eq!(first, Action::Transfer(vec![0xA1, 0, 0]));
    let answer = handle.resume(&vec![0, 0xF3, 0x21]);
    assert_eq!(answer, Action::Done(Ok(Reading::Temperature(0x321))));
}

#[test]
fn refused_field_updates() {
    let mut chip = Chip::new(DEVICE_ID);
    let (mut handle, _) = connect(&mut chip, &Config::default());
    assert_eq!(
        handle.modify_register(Register::CTRL1_XL, 0, 1),
        Action::Done(Err(DeviceError::Access(AccessError::EmptyMask)))
    );
    assert_eq!(
        handle.modify_register(Register::WHO_AM_I, 0x0F, 1),
        Action::Done(Err(DeviceError::Access(AccessError::ReadOnly)))
    );
    let first = handle.modify_register(Register::CTRL3_C, 0b0100_0000, 1);
    assert_eq!(chip.run(&mut handle, first), Ok(Reading::Configured));
    assert_eq!(chip.regs[0x12], 0b0100_0000);
}

#[test]
fn stray_and_short_responses() {
    let (mut handle, _) = IIS3DWB::new(&Config::default());
    assert_eq!(handle.resume(&vec![0]), Action::Done(Err(DeviceError::ShortResponse)));
    assert_eq!(handle.resume(&vec![0, 0x7B]), Action::Done(Err(DeviceError::NothingPending)));
    let _ = handle.read_temp_raw();
    assert_eq!(handle.resume(&vec![0, 1]), Action::Done(Err(DeviceError::ShortResponse)));
}
