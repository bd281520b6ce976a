use vstd::prelude::*;

verus! {

/// The device's 7-bit bus address.
pub const DEVICE_ADDRESS: u8 = 0x2A;

/// Addressable registers of the device.
#[derive(Clone, Copy, Debug, PartialEq, Eq)]
pub enum Register {
    PuCtrl,
    Ctrl1,
    Ctrl2,
    Ocal1B2,
    Ocal1B1,
    Ocal1B0,
    Gcal1B3,
    Gcal1B2,
    Gcal1B1,
    Gcal1B0,
    Ocal2B2,
    Ocal2B1,
    Ocal2B0,
    Gcal2B3,
    Gcal2B2,
    Gcal2B1,
    Gcal2B0,
    I2CControl,
    AdcoB2,
    AdcoB1,
    AdcoB0,
    Adc,
    OtpB1,
    OtpB0,
    Pga,
    PgaPwr,
    DeviceRev,
}

impl Register {
    /// The one-byte address that selects this register on the bus.
    pub open spec fn spec_addr(&self) -> u8 {
        match self {
            Register::PuCtrl => 0x00,
            Register::Ctrl1 => 0x01,
            Register::Ctrl2 => 0x02,
            Register::Ocal1B2 => 0x03,
            Register::Ocal1B1 => 0x04,
            Register::Ocal1B0 => 0x05,
            Register::Gcal1B3 => 0x06,
            Register::Gcal1B2 => 0x07,
            Register::Gcal1B1 => 0x08,
            Register::Gcal1B0 => 0x09,
            Register::Ocal2B2 => 0x0A,
            Register::Ocal2B1 => 0x0B,
            Register::Ocal2B0 => 0x0C,
            Register::Gcal2B3 => 0x0D,
            Register::Gcal2B2 => 0x0E,
            Register::Gcal2B1 => 0x0F,
            Register::Gcal2B0 => 0x10,
            Register::I2CControl => 0x11,
            Register::AdcoB2 => 0x12,
            Register::AdcoB1 => 0x13,
            Register::AdcoB0 => 0x14,
            Register::Adc => 0x15,
            Register::OtpB1 => 0x16,
            Register::OtpB0 => 0x17,
            Register::Pga => 0x1B,
            Register::PgaPwr => 0x1C,
            Register::DeviceRev => 0x1F,
        }
    }

    #[verifier::when_used_as_spec(spec_addr)]
    pub fn addr(&self) -> (r: u8)
        ensures
            r == self.spec_addr(),
    {
        match self {
            Register::PuCtrl => 0x00,
            Register::Ctrl1 => 0x01,
            Register::Ctrl2 => 0x02,
            Register::Ocal1B2 => 0x03,
            Register::Ocal1B1 => 0x04,
            Register::Ocal1B0 => 0x05,
            Register::Gcal1B3 => 0x06,
            Register::Gcal1B2 => 0x07,
            Register::Gcal1B1 => 0x08,
            Register::Gcal1B0 => 0x09,
            Register::Ocal2B2 => 0x0A,
            Register::Ocal2B1 => 0x0B,
            Register::Ocal2B0 => 0x0C,
            Register::Gcal2B3 => 0x0D,
            Register::Gcal2B2 => 0x0E,
            Register::Gcal2B1 => 0x0F,
            Register::Gcal2B0 => 0x10,
            Register::I2CControl => 0x11,
            Register::AdcoB2 => 0x12,
            Register::AdcoB1 => 0x13,
            Register::AdcoB0 => 0x14,
            Register::Adc => 0x15,
            Register::OtpB1 => 0x16,
            Register::OtpB0 => 0x17,
            Register::Pga => 0x1B,
            Register::PgaPwr => 0x1C,
            Register::DeviceRev => 0x1F,
        }
    }
}

/// Bits of the power-up control register.
#[derive(Clone, Copy, Debug, PartialEq, Eq)]
pub enum PuCtrlBits {
    /// Register reset.
    RR,
    /// Power up digital.
    PUD,
    /// Power up analog.
    PUA,
    /// Power-up ready (status).
    PUR,
    /// Cycle start.
    CS,
    /// Conversion ready (status).
    CR,
    /// System clock source select.
    OSCS,
    /// Analog supply from the internal LDO.
    AVDDS,
}

impl PuCtrlBits {
    pub open spec fn spec_get(&self) -> u8 {
        match self {
            PuCtrlBits::RR => 0,
            PuCtrlBits::PUD => 1,
            PuCtrlBits::PUA => 2,
            PuCtrlBits::PUR => 3,
            PuCtrlBits::CS => 4,
            PuCtrlBits::CR => 5,
            PuCtrlBits::OSCS => 6,
            PuCtrlBits::AVDDS => 7,
        }
    }

    /// Bit index of the flag within its register.
    #[verifier::when_used_as_spec(spec_get)]
    pub fn get(&self) -> (r: u8)
        ensures
            r == self.spec_get(),
            r < 8,
    {
        match self {
            PuCtrlBits::RR => 0,
            PuCtrlBits::PUD => 1,
            PuCtrlBits::PUA => 2,
            PuCtrlBits::PUR => 3,
            PuCtrlBits::CS => 4,
            PuCtrlBits::CR => 5,
            PuCtrlBits::OSCS => 6,
            PuCtrlBits::AVDDS => 7,
        }
    }
}

/// Bits of the PGA register.
#[derive(Clone, Copy, Debug, PartialEq, Eq)]
pub enum PgaRegisterBits {
    ChpDis,
    Inv,
    BypassEn,
    OutEn,
    LdoMode,
    RdOptSel,
}

impl PgaRegisterBits {
    pub open spec fn spec_get(&self) -> u8 {
        match self {
            PgaRegisterBits::ChpDis => 0,
            PgaRegisterBits::Inv => 3,
            PgaRegisterBits::BypassEn => 4,
            PgaRegisterBits::OutEn => 5,
            PgaRegisterBits::LdoMode => 6,
            PgaRegisterBits::RdOptSel => 7,
        }
    }

    /// Bit index of the flag within its register.
    #[verifier::when_used_as_spec(spec_get)]
    pub fn get(&self) -> (r: u8)
        ensures
            r == self.spec_get(),
            r < 8,
    {
        match self {
            PgaRegisterBits::ChpDis => 0,
            PgaRegisterBits::Inv => 3,
            PgaRegisterBits::BypassEn => 4,
            PgaRegisterBits::OutEn => 5,
            PgaRegisterBits::LdoMode => 6,
            PgaRegisterBits::RdOptSel => 7,
        }
    }
}

/// Bits of the PGA power register.
#[derive(Clone, Copy, Debug, PartialEq, Eq)]
pub enum PgaPwrRegisterBits {
    Curr,
    AdcCurr,
    MstrBiasCurr,
    /// Decoupling capacitor enable.
    CapEn,
}

impl PgaPwrRegisterBits {
    pub open spec fn spec_get(&self) -> u8 {
        match self {
            PgaPwrRegisterBits::Curr => 0,
            PgaPwrRegisterBits::AdcCurr => 2,
            PgaPwrRegisterBits::MstrBiasCurr => 4,
            PgaPwrRegisterBits::CapEn => 7,
        }
    }

    /// Bit index of the flag within its register.
    #[verifier::when_used_as_spec(spec_get)]
    pub fn get(&self) -> (r: u8)
        ensures
            r == self.spec_get(),
            r < 8,
    {
        match self {
            PgaPwrRegisterBits::Curr => 0,
            PgaPwrRegisterBits::AdcCurr => 2,
            PgaPwrRegisterBits::MstrBiasCurr => 4,
            PgaPwrRegisterBits::CapEn => 7,
        }
    }
}

/// Bits of the second control register.
#[derive(Clone, Copy, Debug, PartialEq, Eq)]
pub enum Ctrl2RegisterBits {
    CalMod,
    /// Calibration start; the device clears it when calibration ends.
    Cals,
    /// Calibration error (status).
    CalError,
    Crs,
    Chs,
}

impl Ctrl2RegisterBits {
    pub open spec fn spec_get(&self) -> u8 {
        match self {
            Ctrl2RegisterBits::CalMod => 0,
            Ctrl2RegisterBits::Cals => 2,
            Ctrl2RegisterBits::CalError => 3,
            Ctrl2RegisterBits::Crs => 4,
            Ctrl2RegisterBits::Chs => 7,
        }
    }

    /// Bit index of the flag within its register.
    #[verifier::when_used_as_spec(spec_get)]
    pub fn get(&self) -> (r: u8)
        ensures
            r == self.spec_get(),
            r < 8,
    {
        match self {
            Ctrl2RegisterBits::CalMod => 0,
            Ctrl2RegisterBits::Cals => 2,
            Ctrl2RegisterBits::CalError => 3,
            Ctrl2RegisterBits::Crs => 4,
            Ctrl2RegisterBits::Chs => 7,
        }
    }
}

/// Voltage of the internal LDO.
#[derive(Clone, Copy, Debug, PartialEq, Eq)]
pub enum Ldo {
    L2v4,
    L2v7,
    L3v0,
    L3v3,
    L3v6,
    L3v9,
    L4v2,
    L4v5,
}

impl Ldo {
    pub open spec fn spec_code(&self) -> u8 {
        match self {
            Ldo::L2v4 => 0b111,
            Ldo::L2v7 => 0b110,
            Ldo::L3v0 => 0b101,
            Ldo::L3v3 => 0b100,
            Ldo::L3v6 => 0b011,
            Ldo::L3v9 => 0b010,
            Ldo::L4v2 => 0b001,
            Ldo::L4v5 => 0b000,
        }
    }

    /// The encoding written into the LDO field.
    #[verifier::when_used_as_spec(spec_code)]
    pub fn code(&self) -> (r: u8)
        ensures
            r == self.spec_code(),
    {
        match self {
            Ldo::L2v4 => 0b111,
            Ldo::L2v7 => 0b110,
            Ldo::L3v0 => 0b101,
            Ldo::L3v3 => 0b100,
            Ldo::L3v6 => 0b011,
            Ldo::L3v9 => 0b010,
            Ldo::L4v2 => 0b001,
            Ldo::L4v5 => 0b000,
        }
    }
}

/// Gain of the programmable amplifier.
#[derive(Clone, Copy, Debug, PartialEq, Eq)]
pub enum Gain {
    G128,
    G64,
    G32,
    G16,
    G8,
    G4,
    G2,
    G1,
}

impl Gain {
    pub open spec fn spec_code(&self) -> u8 {
        match self {
            Gain::G128 => 0b111,
            Gain::G64 => 0b110,
            Gain::G32 => 0b101,
            Gain::G16 => 0b100,
            Gain::G8 => 0b011,
            Gain::G4 => 0b010,
            Gain::G2 => 0b001,
            Gain::G1 => 0b000,
        }
    }

    /// The encoding written into the gain field.
    #[verifier::when_used_as_spec(spec_code)]
    pub fn code(&self) -> (r: u8)
        ensures
            r == self.spec_code(),
    {
        match self {
            Gain::G128 => 0b111,
            Gain::G64 => 0b110,
            Gain::G32 => 0b101,
            Gain::G16 => 0b100,
            Gain::G8 => 0b011,
            Gain::G4 => 0b010,
            Gain::G2 => 0b001,
            Gain::G1 => 0b000,
        }
    }
}

/// Conversion rate.
#[derive(Clone, Copy, Debug, PartialEq, Eq)]
pub enum SamplesPerSecond {
    SPS320,
    SPS80,
    SPS40,
    SPS20,
    SPS10,
}

impl SamplesPerSecond {
    pub open spec fn spec_code(&self) -> u8 {
        match self {
            SamplesPerSecond::SPS320 => 0b111,
            SamplesPerSecond::SPS80 => 0b011,
            SamplesPerSecond::SPS40 => 0b010,
            SamplesPerSecond::SPS20 => 0b001,
            SamplesPerSecond::SPS10 => 0b000,
        }
    }

    /// The encoding written into the sample-rate field.
    #[verifier::when_used_as_spec(spec_code)]
    pub fn code(&self) -> (r: u8)
        ensures
            r == self.spec_code(),
    {
        match self {
            SamplesPerSecond::SPS320 => 0b111,
            SamplesPerSecond::SPS80 => 0b011,
            SamplesPerSecond::SPS40 => 0b010,
            SamplesPerSecond::SPS20 => 0b001,
            SamplesPerSecond::SPS10 => 0b000,
        }
    }
}

/// Mask that keeps every bit of the second control register but the sample-rate field.
pub const SPS_MASK: u8 = 0b1000_1111;
/// First bit of the sample-rate field.
pub const SPS_START_BIT: u8 = 4;
/// Mask that keeps every bit of the first control register but the gain field.
pub const GAIN_MASK: u8 = 0b1111_1000;
/// First bit of the gain field.
pub const GAIN_START_BIT: u8 = 0;
/// Mask that keeps every bit of the first control register but the LDO field.
pub const LDO_MASK: u8 = 0b1100_0111;
/// First bit of the LDO field.
pub const LDO_START_BIT: u8 = 3;
/// Value written to the ADC register to turn off clock chopping.
pub const TURN_OFF_CLK_CHP: u8 = 0x30;

} // verus!
