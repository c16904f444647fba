//! FIFO configuration.
use vstd::prelude::*;

verus! {

/// The FIFO watermark: a nine-bit count, whose bits 7..0 (`WTM[7:0]`) live in `FIFO_CTRL_1`
/// and whose bit 8 (`WTM8`) lives in `FIFO_CTRL_2`.
#[derive(Clone, Copy, Debug, PartialEq, Eq, Structural)]
pub struct Watermark {
    lsb: u8,
    hsb: bool,
}

impl Watermark {
    /// The count the watermark stands for.
    pub closed spec fn spec_value(self) -> nat {
        self.lsb as nat + if self.hsb { 256nat } else { 0nat }
    }

    /// Split a watermark count over its two registers; a count that needs more than nine
    /// bits has no watermark.
    pub fn from_bytes(watermark_input: u16) -> (r: Option<Watermark>)
        ensures
            r is Some <==> watermark_input < 512,
            r matches Some(w) ==> w.spec_value() == watermark_input,
    {
        if watermark_input >= 512 {
            return None;
        }
        Some(Watermark { lsb: (watermark_input % 256) as u8, hsb: watermark_input >= 256 })
    }

    /// Bits 7..0 of the count, for `FIFO_CTRL_1`.
    pub fn lsb(&self) -> (r: u8)
        ensures
            r as nat == self.spec_value() % 256,
    {
        self.lsb
    }

    /// Bit 8 of the count, for `FIFO_CTRL_2`.
    pub fn hsb(&self) -> (r: bool)
        ensures
            r == (self.spec_value() >= 256),
    {
        self.hsb
    }
}

/// FIFO operating mode.
#[derive(Clone, Copy, Debug, PartialEq, Eq, Structural)]
pub enum FifoMode {
    Disabled,
    FifoMode,
    ContinuousToFifo,
    BypassToContinuous,
    Continuous,
    BypassToFifo,
}

impl FifoMode {
    /// The three-bit code of the mode in the `FIFO_MODE` field of `FIFO_CTRL_4`.
    pub open spec fn spec_bits(self) -> u8 {
        match self {
            FifoMode::Disabled => 0b000,
            FifoMode::FifoMode => 0b001,
            FifoMode::ContinuousToFifo => 0b011,
            FifoMode::BypassToContinuous => 0b100,
            FifoMode::Continuous => 0b110,
            FifoMode::BypassToFifo => 0b111,
        }
    }

    pub fn bits(self) -> (r: u8)
        ensures
            r == self.spec_bits(),
    {
        match self {
            FifoMode::Disabled => 0b000,
            FifoMode::FifoMode => 0b001,
            FifoMode::ContinuousToFifo => 0b011,
            FifoMode::BypassToContinuous => 0b100,
            FifoMode::Continuous => 0b110,
            FifoMode::BypassToFifo => 0b111,
        }
    }

    /// Decode a mode code; `None` for a code that names no mode.
    pub fn from_raw(bits: u8) -> (r: Option<FifoMode>)
        ensures
            r matches Some(m) ==> m.spec_bits() == bits,
            r is None <==> (bits != 0b000 && bits != 0b001 && bits != 0b011 && bits != 0b100
                && bits != 0b110 && bits != 0b111),
    {
        match bits {
            0b000 => Some(FifoMode::Disabled),
            0b001 => Some(FifoMode::FifoMode),
            0b011 => Some(FifoMode::ContinuousToFifo),
            0b100 => Some(FifoMode::BypassToContinuous),
            0b110 => Some(FifoMode::Continuous),
            0b111 => Some(FifoMode::BypassToFifo),
            _ => None,
        }
    }
}

#[derive(Clone, Copy, Debug)]
pub struct Fifo {
    enabled: bool,
    mode: FifoMode,
    watermark: Watermark,
    stop_in_watermark: bool,
}

impl Fifo {
    pub closed spec fn spec_enabled(self) -> bool {
        self.enabled
    }

    pub closed spec fn spec_mode(self) -> FifoMode {
        self.mode
    }

    pub closed spec fn spec_watermark(self) -> Watermark {
        self.watermark
    }

    pub closed spec fn spec_stop_in_watermark(self) -> bool {
        self.stop_in_watermark
    }
}

impl Default for Fifo {
    fn default() -> (r: Fifo)
        ensures
            !r.spec_enabled(),
            r.spec_mode() == FifoMode::Disabled,
            r.spec_watermark().spec_value() == 0,
            !r.spec_stop_in_watermark(),
    {
        Fifo {
            enabled: false,
            mode: FifoMode::Disabled,
            watermark: Watermark { lsb: 0, hsb: false },
            stop_in_watermark: false,
        }
    }
}

} // verus!
