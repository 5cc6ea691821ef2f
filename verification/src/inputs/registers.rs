use vstd::prelude::*;

verus! {

/// The register banks of the board.
#[derive(Clone, Copy, Debug, PartialEq, Eq, Structural)]
pub enum BaseRegister {
    Status,
    Gpio,
}

impl BaseRegister {
    pub open spec fn wire(self) -> u8 {
        match self {
            BaseRegister::Status => 0x00,
            BaseRegister::Gpio => 0x01,
        }
    }

    /// The byte that selects the bank on the wire.
    pub fn code(self) -> (c: u8)
        ensures
            c == self.wire(),
    {
        match self {
            BaseRegister::Status => 0x00,
            BaseRegister::Gpio => 0x01,
        }
    }
}

/// The functions of the status bank.
#[derive(Clone, Copy, Debug, PartialEq, Eq, Structural)]
pub enum StatusFunctionRegister {
    HwId,
    Version,
    Options,
    Temp,
    SwRst,
}

impl StatusFunctionRegister {
    pub open spec fn wire(self) -> u8 {
        match self {
            StatusFunctionRegister::HwId => 0x01,
            StatusFunctionRegister::Version => 0x02,
            StatusFunctionRegister::Options => 0x03,
            StatusFunctionRegister::Temp => 0x04,
            StatusFunctionRegister::SwRst => 0x7f,
        }
    }

    /// The byte that selects the function on the wire.
    pub fn code(self) -> (c: u8)
        ensures
            c == self.wire(),
    {
        match self {
            StatusFunctionRegister::HwId => 0x01,
            StatusFunctionRegister::Version => 0x02,
            StatusFunctionRegister::Options => 0x03,
            StatusFunctionRegister::Temp => 0x04,
            StatusFunctionRegister::SwRst => 0x7f,
        }
    }
}

/// The functions of the GPIO bank.
#[derive(Clone, Copy, Debug, PartialEq, Eq, Structural)]
pub enum GpioFunctionRegister {
    DirSet,
    DirClr,
    Gpio,
    BulkSet,
    BulkClr,
    Toggle,
    IntEnSet,
    IntEnClr,
    IntFlag,
    PullEnSet,
    PullEnClr,
}

impl GpioFunctionRegister {
    pub open spec fn wire(self) -> u8 {
        match self {
            GpioFunctionRegister::DirSet => 0x02,
            GpioFunctionRegister::DirClr => 0x03,
            GpioFunctionRegister::Gpio => 0x04,
            GpioFunctionRegister::BulkSet => 0x05,
            GpioFunctionRegister::BulkClr => 0x06,
            GpioFunctionRegister::Toggle => 0x07,
            GpioFunctionRegister::IntEnSet => 0x08,
            GpioFunctionRegister::IntEnClr => 0x09,
            GpioFunctionRegister::IntFlag => 0x0a,
            GpioFunctionRegister::PullEnSet => 0x0b,
            GpioFunctionRegister::PullEnClr => 0x0c,
        }
    }

    /// The byte that selects the function on the wire.
    pub fn code(self) -> (c: u8)
        ensures
            c == self.wire(),
    {
        match self {
            GpioFunctionRegister::DirSet => 0x02,
            GpioFunctionRegister::DirClr => 0x03,
            GpioFunctionRegister::Gpio => 0x04,
            GpioFunctionRegister::BulkSet => 0x05,
            GpioFunctionRegister::BulkClr => 0x06,
            GpioFunctionRegister::Toggle => 0x07,
            GpioFunctionRegister::IntEnSet => 0x08,
            GpioFunctionRegister::IntEnClr => 0x09,
            GpioFunctionRegister::IntFlag => 0x0a,
            GpioFunctionRegister::PullEnSet => 0x0b,
            GpioFunctionRegister::PullEnClr => 0x0c,
        }
    }
}

/// The chips that the board may carry.
#[derive(Clone, Copy, Debug, PartialEq, Eq, Structural)]
pub enum HardwareID {
    Samd09,
    Tiny8x7,
}

impl HardwareID {
    pub open spec fn wire(self) -> u8 {
        match self {
            HardwareID::Samd09 => 0x55,
            HardwareID::Tiny8x7 => 0x87,
        }
    }

    /// The chip that identifies itself by `byte`, if there is one.
    pub open spec fn of(byte: u8) -> Option<HardwareID> {
        if byte == 0x55 {
            Some(HardwareID::Samd09)
        } else if byte == 0x87 {
            Some(HardwareID::Tiny8x7)
        } else {
            None
        }
    }

    /// The byte by which the chip identifies itself.
    pub fn code(self) -> (c: u8)
        ensures
            c == self.wire(),
    {
        match self {
            HardwareID::Samd09 => 0x55,
            HardwareID::Tiny8x7 => 0x87,
        }
    }

    pub fn from_code(byte: u8) -> (chip: Option<HardwareID>)
        ensures
            chip == HardwareID::of(byte),
            chip matches Some(c) ==> c.wire() == byte,
    {
        if byte == 0x55 {
            Some(HardwareID::Samd09)
        } else if byte == 0x87 {
            Some(HardwareID::Tiny8x7)
        } else {
            None
        }
    }
}

} // verus!
