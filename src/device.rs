//! The device handle. It never touches the bus itself: each operation is a short exchange
//! of steps, in which the handle says which transfer to make next (an [`Action`]) and the
//! caller hands back what the bus returned, until the handle reports the outcome.
use vstd::prelude::*;
use accelerometer::vector::I16x3;
use crate::access::{
    axis_value, le_i16, read_consecutive_regs, read_reg, read_request, temperature_word,
    update_field, with_field, write_command, write_reg, AccessError,
};
use crate::register::{DataRate, Mode, Range, Register, DEVICE_ID, FS_EN_MASK, XL_EN_MASK};

verus! {

/// The enable code written to the `XL_EN` field of `CTRL1_XL` by [`IIS3DWB::start`]: the
/// accelerometer on at its 26.7 kHz output data rate.
pub const XL_ENABLE_CODE: u8 = 0b101;

pub struct Config {
    pub mode: Mode,
    pub datarate: DataRate,
    pub enable_x_axis: bool,
    pub enable_y_axis: bool,
    pub enable_z_axis: bool,
    pub enable_temp: bool,
    pub range: Range,
}

impl Default for Config {
    fn default() -> (r: Config)
        ensures
            r.mode == Mode::HighResolution,
            r.datarate == DataRate::Hz_26700,
            r.enable_x_axis && r.enable_y_axis && r.enable_z_axis && r.enable_temp,
            r.range == Range::G2,
    {
        Config {
            mode: Mode::HighResolution,
            datarate: DataRate::Hz_26700,
            enable_x_axis: true,
            enable_y_axis: true,
            enable_z_axis: true,
            enable_temp: true,
            range: Range::G2,
        }
    }
}

/// What a finished operation produced.
#[derive(Clone, Copy, Debug, PartialEq)]
pub enum Reading {
    /// A register field was written.
    Configured,
    /// The content of `WHO_AM_I`.
    DeviceId(u8),
    /// The raw 12-bit temperature word.
    Temperature(u16),
    /// The raw acceleration on the three axes.
    Acceleration(I16x3),
}

/// Why an operation failed.
#[derive(Clone, Copy, Debug, PartialEq, Eq, Structural)]
pub enum DeviceError {
    /// `WHO_AM_I` held this value rather than [`DEVICE_ID`].
    WrongDevice(u8),
    /// The configuration cannot change before the device has been identified.
    NotIdentified,
    /// A response came back while no operation was waiting for one.
    NothingPending,
    /// The bytes handed back were fewer than the transfer sent.
    ShortResponse,
    /// The register access itself was refused.
    Access(AccessError),
}

/// The next step of an operation.
#[derive(Debug, PartialEq)]
pub enum Action {
    /// Assert chip-select, exchange these bytes full duplex, deassert chip-select, and hand
    /// the received bytes to [`IIS3DWB::resume`].
    Transfer(Vec<u8>),
    /// Assert chip-select, send these bytes, deassert chip-select, and call
    /// [`IIS3DWB::resume`].
    Write(Vec<u8>),
    /// The operation is over.
    Done(Result<Reading, DeviceError>),
}

/// What the handle waits for.
#[derive(Clone, Copy, Debug, PartialEq, Eq, Structural)]
pub enum Pending {
    /// No operation is under way.
    Idle,
    /// The `WHO_AM_I` read made when the handle was created.
    Identify,
    /// A `WHO_AM_I` read asked for by the caller.
    DeviceId,
    /// The current value of `reg`, whose field under `mask` is to become `value`.
    FieldRead { reg: Register, mask: u8, value: u8 },
    /// The end of the write that completes a field update.
    FieldWrite,
    /// The two temperature bytes.
    Temperature,
    /// The six acceleration bytes.
    Acceleration,
}

/// Driver's structure
pub struct IIS3DWB {
    range: Range,
    identified: bool,
    pending: Pending,
}

/// `a` asks for a full-duplex transfer of `bytes`.
pub open spec fn transfers(a: Action, bytes: Seq<u8>) -> bool {
    match a {
        Action::Transfer(b) => b@ == bytes,
        _ => false,
    }
}

/// `a` asks for a write of `bytes`.
pub open spec fn writes(a: Action, bytes: Seq<u8>) -> bool {
    match a {
        Action::Write(b) => b@ == bytes,
        _ => false,
    }
}

/// Why a field update of `reg` under `mask` is refused before any transfer, if it is.
pub open spec fn field_refusal(identified: bool, reg: Register, mask: u8) -> Option<DeviceError> {
    if !identified {
        Some(DeviceError::NotIdentified)
    } else if mask == 0 {
        Some(DeviceError::Access(AccessError::EmptyMask))
    } else if reg.is_read_only() {
        Some(DeviceError::Access(AccessError::ReadOnly))
    } else {
        None
    }
}

/// `r` and `pending` are how a field update of `reg` begins: refused at once, or with a read
/// of the register's current value.
pub open spec fn begins_field_update(
    r: Action,
    pending: Pending,
    identified: bool,
    reg: Register,
    mask: u8,
    value: u8,
) -> bool {
    match field_refusal(identified, reg, mask) {
        Some(e) => r == Action::Done(Err(e)) && pending == Pending::Idle,
        None => transfers(r, read_request(reg.spec_addr(), 1)) && pending == (Pending::FieldRead {
            reg,
            mask,
            value,
        }),
    }
}

/// How many bytes the transfer that `p` waits for exchanged.
pub open spec fn response_len(p: Pending) -> nat {
    match p {
        Pending::Temperature => 3,
        Pending::Acceleration => 7,
        _ => 2,
    }
}

/// `r` reports the acceleration held in the response `rx` of a burst read from `OUTX_L_A`.
pub open spec fn reports_acceleration(r: Action, rx: Seq<u8>) -> bool {
    match r {
        Action::Done(Ok(Reading::Acceleration(v))) => {
            &&& v.x == le_i16(rx[1], rx[2])
            &&& v.y == le_i16(rx[3], rx[4])
            &&& v.z == le_i16(rx[5], rx[6])
        },
        _ => false,
    }
}

/// The step that answers the response `rx` while waiting for `p`, from a handle whose range
/// is `range`: its action `r`, and what the handle then waits for.
pub open spec fn answers(p: Pending, rx: Seq<u8>, range: Range, r: Action, next: Pending) -> bool {
    match p {
        Pending::Idle => r == Action::Done(Err(DeviceError::NothingPending)) && next == p,
        Pending::Identify => if rx[1] == DEVICE_ID {
            begins_field_update(r, next, true, Register::CTRL1_XL, FS_EN_MASK, range.spec_bits())
        } else {
            r == Action::Done(Err(DeviceError::WrongDevice(rx[1]))) && next == Pending::Idle
        },
        Pending::DeviceId => r == Action::Done(Ok(Reading::DeviceId(rx[1]))) && next
            == Pending::Idle,
        Pending::FieldRead { reg, mask, value } => match field_refusal(true, reg, mask) {
            Some(e) => r == Action::Done(Err(e)) && next == Pending::Idle,
            None => writes(r, seq![write_command(reg.spec_addr()), with_field(rx[1], mask, value)])
                && next == Pending::FieldWrite,
        },
        Pending::FieldWrite => r == Action::Done(Ok(Reading::Configured)) && next == Pending::Idle,
        Pending::Temperature => r == Action::Done(
            Ok(Reading::Temperature(((rx[1] % 16) as int * 256 + rx[2] as int) as u16)),
        ) && next == Pending::Idle,
        Pending::Acceleration => reports_acceleration(r, rx) && next == Pending::Idle,
    }
}

/// Identification is never skipped: when the `WHO_AM_I` read made at creation returns
/// anything but [`DEVICE_ID`], the operation ends with [`DeviceError::WrongDevice`] carrying
/// the value read, nothing further is sent, and a handle that was not identified refuses
/// every change of configuration.
pub proof fn lemma_wrong_device_rejected(
    range: Range,
    rx: Seq<u8>,
    r: Action,
    next: Pending,
    reg: Register,
    mask: u8,
    value: u8,
    later: Action,
    later_pending: Pending,
)
    requires
        rx.len() >= 2,
        rx[1] != DEVICE_ID,
        answers(Pending::Identify, rx, range, r, next),
        begins_field_update(later, later_pending, false, reg, mask, value),
    ensures
        r == Action::Done(Err(DeviceError::WrongDevice(rx[1]))),
        next == Pending::Idle,
        later == Action::Done(Err(DeviceError::NotIdentified)),
{
}

impl IIS3DWB {
    /// The full-scale range the handle last applied or was created with.
    pub closed spec fn spec_range(&self) -> Range {
        self.range
    }

    /// The device answered with the expected identity.
    pub closed spec fn spec_identified(&self) -> bool {
        self.identified
    }

    /// What the handle waits for.
    pub closed spec fn spec_pending(&self) -> Pending {
        self.pending
    }

    /// A handle for a device to be configured as `config` says. It starts by reading
    /// `WHO_AM_I`; once [`IIS3DWB::resume`] has seen the expected identity it applies the
    /// range of `config`, and a wrong identity ends the operation with
    /// [`DeviceError::WrongDevice`].
    pub fn new(config: &Config) -> (r: (IIS3DWB, Action))
        ensures
            r.0.spec_range() == config.range,
            !r.0.spec_identified(),
            r.0.spec_pending() == Pending::Identify,
            transfers(r.1, read_request(Register::WHO_AM_I.spec_addr(), 1)),
    {
        let handle = IIS3DWB { range: config.range, identified: false, pending: Pending::Identify };
        (handle, Action::Transfer(read_reg(Register::WHO_AM_I)))
    }

    /// Set the field of `reg` under `mask` to `value`, keeping every other bit of the
    /// register: the register is read, the field replaced, and the result written back.
    pub fn modify_register(&mut self, reg: Register, mask: u8, value: u8) -> (r: Action)
        ensures
            begins_field_update(
                r,
                final(self).spec_pending(),
                old(self).spec_identified(),
                reg,
                mask,
                value,
            ),
            final(self).spec_range() == old(self).spec_range(),
            final(self).spec_identified() == old(self).spec_identified(),
    {
        if !self.identified {
            self.pending = Pending::Idle;
            return Action::Done(Err(DeviceError::NotIdentified));
        }
        if mask == 0 {
            self.pending = Pending::Idle;
            return Action::Done(Err(DeviceError::Access(AccessError::EmptyMask)));
        }
        if reg.read_only() {
            self.pending = Pending::Idle;
            return Action::Done(Err(DeviceError::Access(AccessError::ReadOnly)));
        }
        self.pending = Pending::FieldRead { reg, mask, value };
        Action::Transfer(read_reg(reg))
    }

    /// Switch the accelerometer on: the `XL_EN` field of `CTRL1_XL` gets
    /// [`XL_ENABLE_CODE`].
    pub fn start(&mut self) -> (r: Action)
        ensures
            begins_field_update(
                r,
                final(self).spec_pending(),
                old(self).spec_identified(),
                Register::CTRL1_XL,
                XL_EN_MASK,
                XL_ENABLE_CODE,
            ),
            final(self).spec_range() == old(self).spec_range(),
            final(self).spec_identified() == old(self).spec_identified(),
    {
        self.modify_register(Register::CTRL1_XL, XL_EN_MASK, XL_ENABLE_CODE)
    }

    /// Select the full-scale range: the `FS_XL` field of `CTRL1_XL` gets the range's code.
    pub fn set_range(&mut self, range: Range) -> (r: Action)
        ensures
            begins_field_update(
                r,
                final(self).spec_pending(),
                old(self).spec_identified(),
                Register::CTRL1_XL,
                FS_EN_MASK,
                range.spec_bits(),
            ),
            final(self).spec_range() == if old(self).spec_identified() {
                range
            } else {
                old(self).spec_range()
            },
            final(self).spec_identified() == old(self).spec_identified(),
    {
        let r = self.modify_register(Register::CTRL1_XL, FS_EN_MASK, range.bits());
        if self.identified {
            self.range = range;
        }
        r
    }

    /// Get the device ID: a read of `WHO_AM_I`.
    pub fn get_device_id(&mut self) -> (r: Action)
        ensures
            transfers(r, read_request(Register::WHO_AM_I.spec_addr(), 1)),
            final(self).spec_pending() == Pending::DeviceId,
            final(self).spec_range() == old(self).spec_range(),
            final(self).spec_identified() == old(self).spec_identified(),
    {
        self.pending = Pending::DeviceId;
        Action::Transfer(read_reg(Register::WHO_AM_I))
    }

    /// Read the raw contents of the temperature registers: a burst of two bytes from
    /// `OUT_TEMP_H`.
    pub fn read_temp_raw(&mut self) -> (r: Action)
        ensures
            transfers(r, read_request(Register::OUT_TEMP_H.spec_addr(), 2)),
            final(self).spec_pending() == Pending::Temperature,
            final(self).spec_range() == old(self).spec_range(),
            final(self).spec_identified() == old(self).spec_identified(),
    {
        self.pending = Pending::Temperature;
        Action::Transfer(read_consecutive_regs(Register::OUT_TEMP_H, 2))
    }

    /// Read the raw acceleration vector: a burst of six bytes from `OUTX_L_A`, the low and
    /// high byte of each axis in turn.
    pub fn accel_raw(&mut self) -> (r: Action)
        ensures
            transfers(r, read_request(Register::OUTX_L_A.spec_addr(), 6)),
            final(self).spec_pending() == Pending::Acceleration,
            final(self).spec_range() == old(self).spec_range(),
            final(self).spec_identified() == old(self).spec_identified(),
    {
        self.pending = Pending::Acceleration;
        Action::Transfer(read_consecutive_regs(Register::OUTX_L_A, 6))
    }

    /// Take what the bus returned for the last action and say what comes next. For a
    /// [`Action::Write`] the content of `received` is not read.
    pub fn resume(&mut self, received: &Vec<u8>) -> (r: Action)
        ensures
            old(self).spec_pending() == Pending::Idle ==> r == Action::Done(
                Err(DeviceError::NothingPending),
            ) && final(self).spec_pending() == Pending::Idle,
            old(self).spec_pending() != Pending::Idle && old(self).spec_pending()
                != Pending::FieldWrite && received@.len() < response_len(old(self).spec_pending())
                ==> r == Action::Done(Err(DeviceError::ShortResponse))
                && final(self).spec_pending() == Pending::Idle,
            old(self).spec_pending() == Pending::FieldWrite || received@.len() >= response_len(
                old(self).spec_pending(),
            ) ==> answers(
                old(self).spec_pending(),
                received@,
                old(self).spec_range(),
                r,
                final(self).spec_pending(),
            ),
            final(self).spec_range() == old(self).spec_range(),
            final(self).spec_identified() == (old(self).spec_identified() || (
            old(self).spec_pending() == Pending::Identify && received@.len() >= 2
                && received@[1] == DEVICE_ID)),
    {
        let pending = self.pending;
        if pending == Pending::Idle {
            return Action::Done(Err(DeviceError::NothingPending));
        }
        if pending == Pending::FieldWrite {
            self.pending = Pending::Idle;
            return Action::Done(Ok(Reading::Configured));
        }
        let needed: usize = match pending {
            Pending::Temperature => 3,
            Pending::Acceleration => 7,
            _ => 2,
        };
        if received.len() < needed {
            self.pending = Pending::Idle;
            return Action::Done(Err(DeviceError::ShortResponse));
        }
        match pending {
            Pending::Identify => {
                let id = received[1];
                if id != DEVICE_ID {
                    self.pending = Pending::Idle;
                    return Action::Done(Err(DeviceError::WrongDevice(id)));
                }
                self.identified = true;
                self.modify_register(Register::CTRL1_XL, FS_EN_MASK, self.range.bits())
            },
            Pending::DeviceId => {
                self.pending = Pending::Idle;
                Action::Done(Ok(Reading::DeviceId(received[1])))
            },
            Pending::FieldRead { reg, mask, value } => {
                self.pending = Pending::Idle;
                match update_field(received[1], mask, value) {
                    Err(e) => Action::Done(Err(DeviceError::Access(e))),
                    Ok(byte) => match write_reg(reg, byte) {
                        Err(e) => Action::Done(Err(DeviceError::Access(e))),
                        Ok(bytes) => {
                            self.pending = Pending::FieldWrite;
                            Action::Write(bytes)
                        },
                    },
                }
            },
            Pending::Temperature => {
                self.pending = Pending::Idle;
                Action::Done(Ok(Reading::Temperature(temperature_word(received[1], received[2]))))
            },
            _ => {
                self.pending = Pending::Idle;
                let v = I16x3::new(
                    axis_value(received[1], received[2]),
                    axis_value(received[3], received[4]),
                    axis_value(received[5], received[6]),
                );
                Action::Done(Ok(Reading::Acceleration(v)))
            },
        }
    }
}

} // verus!
