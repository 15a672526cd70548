//! The register model: where each bit-field lies, and how a field is read
//! from or written into a register byte.
//!
//! Writing a field clears exactly the field's mask and ORs in the shifted
//! code; every other bit of the byte is kept. Reading a field masks and
//! shifts, and turns the code into a typed value, never failing.

use vstd::prelude::*;
use crate::fields::{
    AdcInputMux, DataRate, FIRRejectionFilter, IDacRouting, IDacSourceCurrent, OperatingMode,
    PgaGain, VrefSelect,
};
use crate::protocol::RegisterAddr;

verus! {

/// The bit-fields of the four configuration registers.
#[derive(Clone, Copy, Debug, PartialEq, Eq, Structural)]
pub enum FieldKind {
    /// Input multiplexer, bits 4-7 of register 0.
    Mux,
    /// PGA gain, bits 1-3 of register 0.
    Gain,
    /// PGA bypass, bit 0 of register 0.
    PgaBypass,
    /// Data rate, bits 5-7 of register 1.
    DataRate,
    /// Operating mode, bits 3-4 of register 1.
    OperatingMode,
    /// Continuous conversion, bit 2 of register 1.
    ConversionMode,
    /// Temperature sensor mode, bit 1 of register 1.
    TemperatureSensorMode,
    /// Burn-out current sources, bit 0 of register 1.
    BurnOutCurrentSource,
    /// Voltage reference, bits 6-7 of register 2.
    VrefSelection,
    /// FIR rejection filter, bits 4-5 of register 2.
    FirFilter,
    /// Low-side power switch, bit 3 of register 2.
    LowSideSwitch,
    /// IDAC current, bits 0-2 of register 2.
    IdacCurrentSetting,
    /// IDAC1 routing, bits 5-7 of register 3.
    Idac1Mux,
    /// IDAC2 routing, bits 2-4 of register 3.
    Idac2Mux,
    /// Data-ready on DOUT as well, bit 1 of register 3.
    DrdyMode,
    /// Reserved, bit 0 of register 3.
    Reserved,
}

impl FieldKind {
    /// The register that holds the field.
    pub open spec fn spec_register(self) -> RegisterAddr {
        match self {
            FieldKind::Mux => RegisterAddr::Reg0,
            FieldKind::Gain => RegisterAddr::Reg0,
            FieldKind::PgaBypass => RegisterAddr::Reg0,
            FieldKind::DataRate => RegisterAddr::Reg1,
            FieldKind::OperatingMode => RegisterAddr::Reg1,
            FieldKind::ConversionMode => RegisterAddr::Reg1,
            FieldKind::TemperatureSensorMode => RegisterAddr::Reg1,
            FieldKind::BurnOutCurrentSource => RegisterAddr::Reg1,
            FieldKind::VrefSelection => RegisterAddr::Reg2,
            FieldKind::FirFilter => RegisterAddr::Reg2,
            FieldKind::LowSideSwitch => RegisterAddr::Reg2,
            FieldKind::IdacCurrentSetting => RegisterAddr::Reg2,
            FieldKind::Idac1Mux => RegisterAddr::Reg3,
            FieldKind::Idac2Mux => RegisterAddr::Reg3,
            FieldKind::DrdyMode => RegisterAddr::Reg3,
            FieldKind::Reserved => RegisterAddr::Reg3,
        }
    }

    pub fn register(&self) -> (r: RegisterAddr)
        ensures
            r == self.spec_register(),
    {
        match self {
            FieldKind::Mux => RegisterAddr::Reg0,
            FieldKind::Gain => RegisterAddr::Reg0,
            FieldKind::PgaBypass => RegisterAddr::Reg0,
            FieldKind::DataRate => RegisterAddr::Reg1,
            FieldKind::OperatingMode => RegisterAddr::Reg1,
            FieldKind::ConversionMode => RegisterAddr::Reg1,
            FieldKind::TemperatureSensorMode => RegisterAddr::Reg1,
            FieldKind::BurnOutCurrentSource => RegisterAddr::Reg1,
            FieldKind::VrefSelection => RegisterAddr::Reg2,
            FieldKind::FirFilter => RegisterAddr::Reg2,
            FieldKind::LowSideSwitch => RegisterAddr::Reg2,
            FieldKind::IdacCurrentSetting => RegisterAddr::Reg2,
            FieldKind::Idac1Mux => RegisterAddr::Reg3,
            FieldKind::Idac2Mux => RegisterAddr::Reg3,
            FieldKind::DrdyMode => RegisterAddr::Reg3,
            FieldKind::Reserved => RegisterAddr::Reg3,
        }
    }

    /// The bits of the register that the field occupies.
    pub open spec fn spec_mask(self) -> u8 {
        match self {
            FieldKind::Mux => 0xF0u8,
            FieldKind::Gain => 0x0Eu8,
            FieldKind::PgaBypass => 0x01u8,
            FieldKind::DataRate => 0xE0u8,
            FieldKind::OperatingMode => 0x18u8,
            FieldKind::ConversionMode => 0x04u8,
            FieldKind::TemperatureSensorMode => 0x02u8,
            FieldKind::BurnOutCurrentSource => 0x01u8,
            FieldKind::VrefSelection => 0xC0u8,
            FieldKind::FirFilter => 0x30u8,
            FieldKind::LowSideSwitch => 0x08u8,
            FieldKind::IdacCurrentSetting => 0x07u8,
            FieldKind::Idac1Mux => 0xE0u8,
            FieldKind::Idac2Mux => 0x1Cu8,
            FieldKind::DrdyMode => 0x02u8,
            FieldKind::Reserved => 0x01u8,
        }
    }

    pub fn mask(&self) -> (r: u8)
        ensures
            r == self.spec_mask(),
    {
        match self {
            FieldKind::Mux => 0xF0u8,
            FieldKind::Gain => 0x0Eu8,
            FieldKind::PgaBypass => 0x01u8,
            FieldKind::DataRate => 0xE0u8,
            FieldKind::OperatingMode => 0x18u8,
            FieldKind::ConversionMode => 0x04u8,
            FieldKind::TemperatureSensorMode => 0x02u8,
            FieldKind::BurnOutCurrentSource => 0x01u8,
            FieldKind::VrefSelection => 0xC0u8,
            FieldKind::FirFilter => 0x30u8,
            FieldKind::LowSideSwitch => 0x08u8,
            FieldKind::IdacCurrentSetting => 0x07u8,
            FieldKind::Idac1Mux => 0xE0u8,
            FieldKind::Idac2Mux => 0x1Cu8,
            FieldKind::DrdyMode => 0x02u8,
            FieldKind::Reserved => 0x01u8,
        }
    }

    /// The position of the field's lowest bit.
    pub open spec fn spec_shift(self) -> u8 {
        match self {
            FieldKind::Mux => 4u8,
            FieldKind::Gain => 1u8,
            FieldKind::PgaBypass => 0u8,
            FieldKind::DataRate => 5u8,
            FieldKind::OperatingMode => 3u8,
            FieldKind::ConversionMode => 2u8,
            FieldKind::TemperatureSensorMode => 1u8,
            FieldKind::BurnOutCurrentSource => 0u8,
            FieldKind::VrefSelection => 6u8,
            FieldKind::FirFilter => 4u8,
            FieldKind::LowSideSwitch => 3u8,
            FieldKind::IdacCurrentSetting => 0u8,
            FieldKind::Idac1Mux => 5u8,
            FieldKind::Idac2Mux => 2u8,
            FieldKind::DrdyMode => 1u8,
            FieldKind::Reserved => 0u8,
        }
    }

    pub fn shift(&self) -> (r: u8)
        ensures
            r == self.spec_shift(),
    {
        match self {
            FieldKind::Mux => 4u8,
            FieldKind::Gain => 1u8,
            FieldKind::PgaBypass => 0u8,
            FieldKind::DataRate => 5u8,
            FieldKind::OperatingMode => 3u8,
            FieldKind::ConversionMode => 2u8,
            FieldKind::TemperatureSensorMode => 1u8,
            FieldKind::BurnOutCurrentSource => 0u8,
            FieldKind::VrefSelection => 6u8,
            FieldKind::FirFilter => 4u8,
            FieldKind::LowSideSwitch => 3u8,
            FieldKind::IdacCurrentSetting => 0u8,
            FieldKind::Idac1Mux => 5u8,
            FieldKind::Idac2Mux => 2u8,
            FieldKind::DrdyMode => 1u8,
            FieldKind::Reserved => 0u8,
        }
    }

    /// The largest code that fits in the field.
    pub open spec fn spec_max_code(self) -> u8 {
        match self {
            FieldKind::Mux => 15u8,
            FieldKind::Gain => 7u8,
            FieldKind::PgaBypass => 1u8,
            FieldKind::DataRate => 7u8,
            FieldKind::OperatingMode => 3u8,
            FieldKind::ConversionMode => 1u8,
            FieldKind::TemperatureSensorMode => 1u8,
            FieldKind::BurnOutCurrentSource => 1u8,
            FieldKind::VrefSelection => 3u8,
            FieldKind::FirFilter => 3u8,
            FieldKind::LowSideSwitch => 1u8,
            FieldKind::IdacCurrentSetting => 7u8,
            FieldKind::Idac1Mux => 7u8,
            FieldKind::Idac2Mux => 7u8,
            FieldKind::DrdyMode => 1u8,
            FieldKind::Reserved => 1u8,
        }
    }

    pub fn max_code(&self) -> (r: u8)
        ensures
            r == self.spec_max_code(),
    {
        match self {
            FieldKind::Mux => 15u8,
            FieldKind::Gain => 7u8,
            FieldKind::PgaBypass => 1u8,
            FieldKind::DataRate => 7u8,
            FieldKind::OperatingMode => 3u8,
            FieldKind::ConversionMode => 1u8,
            FieldKind::TemperatureSensorMode => 1u8,
            FieldKind::BurnOutCurrentSource => 1u8,
            FieldKind::VrefSelection => 3u8,
            FieldKind::FirFilter => 3u8,
            FieldKind::LowSideSwitch => 1u8,
            FieldKind::IdacCurrentSetting => 7u8,
            FieldKind::Idac1Mux => 7u8,
            FieldKind::Idac2Mux => 7u8,
            FieldKind::DrdyMode => 1u8,
            FieldKind::Reserved => 1u8,
        }
    }

    /// The field's bits are the contiguous run `max_code << shift`.
    pub proof fn lemma_layout(self)
        ensures
            self.spec_shift() < 8,
            self.spec_max_code() & (self.spec_max_code() >> 1u8) == self.spec_max_code() >> 1u8,
            (self.spec_max_code() << self.spec_shift()) == self.spec_mask(),
            (self.spec_max_code() << self.spec_shift()) >> self.spec_shift() == self.spec_max_code(),
    {
        assert(
            15u8 & (15u8 >> 1u8) == 15u8 >> 1u8 && (15u8 << 4u8) == 0xF0u8 && (15u8 << 4u8) >> 4u8 == 15u8 &&
            7u8 & (7u8 >> 1u8) == 7u8 >> 1u8 && (7u8 << 1u8) == 0x0Eu8 && (7u8 << 1u8) >> 1u8 == 7u8 &&
            1u8 & (1u8 >> 1u8) == 1u8 >> 1u8 && (1u8 << 0u8) == 0x01u8 && (1u8 << 0u8) >> 0u8 == 1u8 &&
            7u8 & (7u8 >> 1u8) == 7u8 >> 1u8 && (7u8 << 5u8) == 0xE0u8 && (7u8 << 5u8) >> 5u8 == 7u8 &&
            3u8 & (3u8 >> 1u8) == 3u8 >> 1u8 && (3u8 << 3u8) == 0x18u8 && (3u8 << 3u8) >> 3u8 == 3u8 &&
            1u8 & (1u8 >> 1u8) == 1u8 >> 1u8 && (1u8 << 2u8) == 0x04u8 && (1u8 << 2u8) >> 2u8 == 1u8 &&
            1u8 & (1u8 >> 1u8) == 1u8 >> 1u8 && (1u8 << 1u8) == 0x02u8 && (1u8 << 1u8) >> 1u8 == 1u8 &&
            3u8 & (3u8 >> 1u8) == 3u8 >> 1u8 && (3u8 << 6u8) == 0xC0u8 && (3u8 << 6u8) >> 6u8 == 3u8 &&
            3u8 & (3u8 >> 1u8) == 3u8 >> 1u8 && (3u8 << 4u8) == 0x30u8 && (3u8 << 4u8) >> 4u8 == 3u8 &&
            1u8 & (1u8 >> 1u8) == 1u8 >> 1u8 && (1u8 << 3u8) == 0x08u8 && (1u8 << 3u8) >> 3u8 == 1u8 &&
            7u8 & (7u8 >> 1u8) == 7u8 >> 1u8 && (7u8 << 0u8) == 0x07u8 && (7u8 << 0u8) >> 0u8 == 7u8 &&
            7u8 & (7u8 >> 1u8) == 7u8 >> 1u8 && (7u8 << 2u8) == 0x1Cu8 && (7u8 << 2u8) >> 2u8 == 7u8
        ) by (bit_vector);
    }

    /// Two distinct fields of one register occupy disjoint bits.
    pub proof fn lemma_disjoint(self, other: FieldKind)
        requires
            self != other,
            self.spec_register() == other.spec_register(),
        ensures
            self.spec_mask() & other.spec_mask() == 0,
    {
        assert(
            0xF0u8 & 0x0Eu8 == 0 &&
            0xF0u8 & 0x01u8 == 0 &&
            0x0Eu8 & 0xF0u8 == 0 &&
            0x0Eu8 & 0x01u8 == 0 &&
            0x01u8 & 0xF0u8 == 0 &&
            0x01u8 & 0x0Eu8 == 0 &&
            0xE0u8 & 0x18u8 == 0 &&
            0xE0u8 & 0x04u8 == 0 &&
            0xE0u8 & 0x02u8 == 0 &&
            0xE0u8 & 0x01u8 == 0 &&
            0x18u8 & 0xE0u8 == 0 &&
            0x18u8 & 0x04u8 == 0 &&
            0x18u8 & 0x02u8 == 0 &&
            0x18u8 & 0x01u8 == 0 &&
            0x04u8 & 0xE0u8 == 0 &&
            0x04u8 & 0x18u8 == 0 &&
            0x04u8 & 0x02u8 == 0 &&
            0x04u8 & 0x01u8 == 0 &&
            0x02u8 & 0xE0u8 == 0 &&
            0x02u8 & 0x18u8 == 0 &&
            0x02u8 & 0x04u8 == 0 &&
            0x02u8 & 0x01u8 == 0 &&
            0x01u8 & 0xE0u8 == 0 &&
            0x01u8 & 0x18u8 == 0 &&
            0x01u8 & 0x04u8 == 0 &&
            0x01u8 & 0x02u8 == 0 &&
            0xC0u8 & 0x30u8 == 0 &&
            0xC0u8 & 0x08u8 == 0 &&
            0xC0u8 & 0x07u8 == 0 &&
            0x30u8 & 0xC0u8 == 0 &&
            0x30u8 & 0x08u8 == 0 &&
            0x30u8 & 0x07u8 == 0 &&
            0x08u8 & 0xC0u8 == 0 &&
            0x08u8 & 0x30u8 == 0 &&
            0x08u8 & 0x07u8 == 0 &&
            0x07u8 & 0xC0u8 == 0 &&
            0x07u8 & 0x30u8 == 0 &&
            0x07u8 & 0x08u8 == 0 &&
            0xE0u8 & 0x1Cu8 == 0 &&
            0x1Cu8 & 0xE0u8 == 0 &&
            0x1Cu8 & 0x02u8 == 0 &&
            0x1Cu8 & 0x01u8 == 0 &&
            0x02u8 & 0x1Cu8 == 0 &&
            0x01u8 & 0x1Cu8 == 0
        ) by (bit_vector);
    }
}

/// A typed value for one bit-field.
#[derive(Clone, Copy, Debug, PartialEq, Eq, Structural)]
pub enum FieldValue {
    Mux(AdcInputMux),
    Gain(PgaGain),
    PgaBypass(bool),
    DataRate(DataRate),
    OperatingMode(OperatingMode),
    ConversionMode(bool),
    TemperatureSensorMode(bool),
    BurnOutCurrentSource(bool),
    VrefSelection(VrefSelect),
    FirFilter(FIRRejectionFilter),
    LowSideSwitch(bool),
    IdacCurrentSetting(IDacSourceCurrent),
    Idac1Mux(IDacRouting),
    Idac2Mux(IDacRouting),
    DrdyMode(bool),
    Reserved(bool),
}

impl FieldValue {
    /// The field that this value is for.
    pub open spec fn spec_kind(self) -> FieldKind {
        match self {
            FieldValue::Mux(_) => FieldKind::Mux,
            FieldValue::Gain(_) => FieldKind::Gain,
            FieldValue::PgaBypass(_) => FieldKind::PgaBypass,
            FieldValue::DataRate(_) => FieldKind::DataRate,
            FieldValue::OperatingMode(_) => FieldKind::OperatingMode,
            FieldValue::ConversionMode(_) => FieldKind::ConversionMode,
            FieldValue::TemperatureSensorMode(_) => FieldKind::TemperatureSensorMode,
            FieldValue::BurnOutCurrentSource(_) => FieldKind::BurnOutCurrentSource,
            FieldValue::VrefSelection(_) => FieldKind::VrefSelection,
            FieldValue::FirFilter(_) => FieldKind::FirFilter,
            FieldValue::LowSideSwitch(_) => FieldKind::LowSideSwitch,
            FieldValue::IdacCurrentSetting(_) => FieldKind::IdacCurrentSetting,
            FieldValue::Idac1Mux(_) => FieldKind::Idac1Mux,
            FieldValue::Idac2Mux(_) => FieldKind::Idac2Mux,
            FieldValue::DrdyMode(_) => FieldKind::DrdyMode,
            FieldValue::Reserved(_) => FieldKind::Reserved,
        }
    }

    pub fn kind(&self) -> (r: FieldKind)
        ensures
            r == self.spec_kind(),
    {
        match self {
            FieldValue::Mux(_) => FieldKind::Mux,
            FieldValue::Gain(_) => FieldKind::Gain,
            FieldValue::PgaBypass(_) => FieldKind::PgaBypass,
            FieldValue::DataRate(_) => FieldKind::DataRate,
            FieldValue::OperatingMode(_) => FieldKind::OperatingMode,
            FieldValue::ConversionMode(_) => FieldKind::ConversionMode,
            FieldValue::TemperatureSensorMode(_) => FieldKind::TemperatureSensorMode,
            FieldValue::BurnOutCurrentSource(_) => FieldKind::BurnOutCurrentSource,
            FieldValue::VrefSelection(_) => FieldKind::VrefSelection,
            FieldValue::FirFilter(_) => FieldKind::FirFilter,
            FieldValue::LowSideSwitch(_) => FieldKind::LowSideSwitch,
            FieldValue::IdacCurrentSetting(_) => FieldKind::IdacCurrentSetting,
            FieldValue::Idac1Mux(_) => FieldKind::Idac1Mux,
            FieldValue::Idac2Mux(_) => FieldKind::Idac2Mux,
            FieldValue::DrdyMode(_) => FieldKind::DrdyMode,
            FieldValue::Reserved(_) => FieldKind::Reserved,
        }
    }

    /// The code that this value puts in its field (a flag is 1 when set).
    pub open spec fn spec_code(self) -> u8 {
        match self {
            FieldValue::Mux(v) => v.spec_code(),
            FieldValue::Gain(v) => v.spec_code(),
            FieldValue::PgaBypass(b) => if b { 1u8 } else { 0u8 },
            FieldValue::DataRate(v) => v.spec_code(),
            FieldValue::OperatingMode(v) => v.spec_code(),
            FieldValue::ConversionMode(b) => if b { 1u8 } else { 0u8 },
            FieldValue::TemperatureSensorMode(b) => if b { 1u8 } else { 0u8 },
            FieldValue::BurnOutCurrentSource(b) => if b { 1u8 } else { 0u8 },
            FieldValue::VrefSelection(v) => v.spec_code(),
            FieldValue::FirFilter(v) => v.spec_code(),
            FieldValue::LowSideSwitch(b) => if b { 1u8 } else { 0u8 },
            FieldValue::IdacCurrentSetting(v) => v.spec_code(),
            FieldValue::Idac1Mux(v) => v.spec_code(),
            FieldValue::Idac2Mux(v) => v.spec_code(),
            FieldValue::DrdyMode(b) => if b { 1u8 } else { 0u8 },
            FieldValue::Reserved(b) => if b { 1u8 } else { 0u8 },
        }
    }

    pub fn code(&self) -> (r: u8)
        ensures
            r == self.spec_code(),
            r <= self.spec_kind().spec_max_code(),
    {
        match self {
            FieldValue::Mux(v) => v.code(),
            FieldValue::Gain(v) => v.code(),
            FieldValue::PgaBypass(b) => if *b { 1 } else { 0 },
            FieldValue::DataRate(v) => v.code(),
            FieldValue::OperatingMode(v) => v.code(),
            FieldValue::ConversionMode(b) => if *b { 1 } else { 0 },
            FieldValue::TemperatureSensorMode(b) => if *b { 1 } else { 0 },
            FieldValue::BurnOutCurrentSource(b) => if *b { 1 } else { 0 },
            FieldValue::VrefSelection(v) => v.code(),
            FieldValue::FirFilter(v) => v.code(),
            FieldValue::LowSideSwitch(b) => if *b { 1 } else { 0 },
            FieldValue::IdacCurrentSetting(v) => v.code(),
            FieldValue::Idac1Mux(v) => v.code(),
            FieldValue::Idac2Mux(v) => v.code(),
            FieldValue::DrdyMode(b) => if *b { 1 } else { 0 },
            FieldValue::Reserved(b) => if *b { 1 } else { 0 },
        }
    }

    /// The typed value of field `kind` for the raw code `c`.
    pub open spec fn spec_from_code(kind: FieldKind, c: u8) -> FieldValue {
        match kind {
            FieldKind::Mux => FieldValue::Mux(AdcInputMux::spec_from_code(c)),
            FieldKind::Gain => FieldValue::Gain(PgaGain::spec_from_code(c)),
            FieldKind::PgaBypass => FieldValue::PgaBypass(c != 0),
            FieldKind::DataRate => FieldValue::DataRate(DataRate::spec_from_code(c)),
            FieldKind::OperatingMode => FieldValue::OperatingMode(OperatingMode::spec_from_code(c)),
            FieldKind::ConversionMode => FieldValue::ConversionMode(c != 0),
            FieldKind::TemperatureSensorMode => FieldValue::TemperatureSensorMode(c != 0),
            FieldKind::BurnOutCurrentSource => FieldValue::BurnOutCurrentSource(c != 0),
            FieldKind::VrefSelection => FieldValue::VrefSelection(VrefSelect::spec_from_code(c)),
            FieldKind::FirFilter => FieldValue::FirFilter(FIRRejectionFilter::spec_from_code(c)),
            FieldKind::LowSideSwitch => FieldValue::LowSideSwitch(c != 0),
            FieldKind::IdacCurrentSetting => FieldValue::IdacCurrentSetting(IDacSourceCurrent::spec_from_code(c)),
            FieldKind::Idac1Mux => FieldValue::Idac1Mux(IDacRouting::spec_from_code(c)),
            FieldKind::Idac2Mux => FieldValue::Idac2Mux(IDacRouting::spec_from_code(c)),
            FieldKind::DrdyMode => FieldValue::DrdyMode(c != 0),
            FieldKind::Reserved => FieldValue::Reserved(c != 0),
        }
    }

    pub fn from_code(kind: FieldKind, c: u8) -> (r: FieldValue)
        ensures
            r == FieldValue::spec_from_code(kind, c),
    {
        match kind {
            FieldKind::Mux => FieldValue::Mux(AdcInputMux::from_code(c)),
            FieldKind::Gain => FieldValue::Gain(PgaGain::from_code(c)),
            FieldKind::PgaBypass => FieldValue::PgaBypass(c != 0),
            FieldKind::DataRate => FieldValue::DataRate(DataRate::from_code(c)),
            FieldKind::OperatingMode => FieldValue::OperatingMode(OperatingMode::from_code(c)),
            FieldKind::ConversionMode => FieldValue::ConversionMode(c != 0),
            FieldKind::TemperatureSensorMode => FieldValue::TemperatureSensorMode(c != 0),
            FieldKind::BurnOutCurrentSource => FieldValue::BurnOutCurrentSource(c != 0),
            FieldKind::VrefSelection => FieldValue::VrefSelection(VrefSelect::from_code(c)),
            FieldKind::FirFilter => FieldValue::FirFilter(FIRRejectionFilter::from_code(c)),
            FieldKind::LowSideSwitch => FieldValue::LowSideSwitch(c != 0),
            FieldKind::IdacCurrentSetting => FieldValue::IdacCurrentSetting(IDacSourceCurrent::from_code(c)),
            FieldKind::Idac1Mux => FieldValue::Idac1Mux(IDacRouting::from_code(c)),
            FieldKind::Idac2Mux => FieldValue::Idac2Mux(IDacRouting::from_code(c)),
            FieldKind::DrdyMode => FieldValue::DrdyMode(c != 0),
            FieldKind::Reserved => FieldValue::Reserved(c != 0),
        }
    }

    /// Decoding the code of a value gives the value back.
    pub proof fn lemma_code_round_trip(self)
        ensures
            FieldValue::spec_from_code(self.spec_kind(), self.spec_code()) == self,
            self.spec_code() <= self.spec_kind().spec_max_code(),
    {
        match self {
            FieldValue::Mux(v) => v.lemma_code_round_trip(),
            FieldValue::Gain(v) => v.lemma_code_round_trip(),
            FieldValue::PgaBypass(_) => {},
            FieldValue::DataRate(v) => v.lemma_code_round_trip(),
            FieldValue::OperatingMode(v) => v.lemma_code_round_trip(),
            FieldValue::ConversionMode(_) => {},
            FieldValue::TemperatureSensorMode(_) => {},
            FieldValue::BurnOutCurrentSource(_) => {},
            FieldValue::VrefSelection(v) => v.lemma_code_round_trip(),
            FieldValue::FirFilter(v) => v.lemma_code_round_trip(),
            FieldValue::LowSideSwitch(_) => {},
            FieldValue::IdacCurrentSetting(v) => v.lemma_code_round_trip(),
            FieldValue::Idac1Mux(v) => v.lemma_code_round_trip(),
            FieldValue::Idac2Mux(v) => v.lemma_code_round_trip(),
            FieldValue::DrdyMode(_) => {},
            FieldValue::Reserved(_) => {},
        }
    }
}

/// The code held in field `kind` of `byte`: mask, then shift down.
pub open spec fn field_code(byte: u8, kind: FieldKind) -> u8 {
    (byte & kind.spec_mask()) >> kind.spec_shift()
}

/// `byte` with field `kind` set to `code`: the field's mask cleared, the
/// shifted code ORed in.
pub open spec fn with_field_code(byte: u8, kind: FieldKind, code: u8) -> u8 {
    (byte & !kind.spec_mask()) | (code << kind.spec_shift())
}

/// The typed value of field `kind` in `byte`.
pub open spec fn field_of(byte: u8, kind: FieldKind) -> FieldValue {
    FieldValue::spec_from_code(kind, field_code(byte, kind))
}

/// `byte` with `value` written into its field.
pub open spec fn with_field(byte: u8, value: FieldValue) -> u8 {
    with_field_code(byte, value.spec_kind(), value.spec_code())
}

/// Reads the code of field `kind` out of a register byte.
pub fn decode_field_code(byte: u8, kind: FieldKind) -> (r: u8)
    ensures
        r == field_code(byte, kind),
{
    (byte & kind.mask()) >> kind.shift()
}

/// Writes a raw code into field `kind` of a register byte. Codes that the
/// chip reserves are written as they are.
pub fn encode_field_code(byte: u8, kind: FieldKind, code: u8) -> (r: u8)
    requires
        code <= kind.spec_max_code(),
    ensures
        r == with_field_code(byte, kind, code),
{
    (byte & !kind.mask()) | (code << kind.shift())
}

/// Reads the typed value of field `kind` out of a register byte; an unknown
/// code gives the field's fallback value.
pub fn decode_field(byte: u8, kind: FieldKind) -> (r: FieldValue)
    ensures
        r == field_of(byte, kind),
{
    FieldValue::from_code(kind, decode_field_code(byte, kind))
}

/// Writes a typed value into its field of a register byte.
pub fn encode_field(byte: u8, value: FieldValue) -> (r: u8)
    ensures
        r == with_field(byte, value),
{
    let code = value.code();
    encode_field_code(byte, value.kind(), code)
}

proof fn lemma_field_bits(b: u8, c: u8, m: u8, s: u8, lim: u8)
    by (bit_vector)
    requires
        s < 8,
        lim & (lim >> 1u8) == lim >> 1u8,
        lim << s == m,
        (lim << s) >> s == lim,
        c <= lim,
    ensures
        (((b & !m) | (c << s)) & m) >> s == c,
        ((b & !m) | (c << s)) & !m == b & !m,
{
}

proof fn lemma_keep_bits(x: u8, y: u8, m: u8, m2: u8)
    by (bit_vector)
    requires
        x & !m == y & !m,
        m & m2 == 0,
    ensures
        x & m2 == y & m2,
{
}

/// Writing a field and reading it back gives the value written; the bits
/// outside the field, and so every other field of the same register, are
/// unchanged.
pub proof fn lemma_encode_decode(byte: u8, value: FieldValue, other: FieldKind)
    ensures
        field_of(with_field(byte, value), value.spec_kind()) == value,
        with_field(byte, value) & !value.spec_kind().spec_mask() == byte & !value.spec_kind().spec_mask(),
        other != value.spec_kind() && other.spec_register() == value.spec_kind().spec_register()
            ==> field_of(with_field(byte, value), other) == field_of(byte, other),
{
    let kind = value.spec_kind();
    kind.lemma_layout();
    value.lemma_code_round_trip();
    lemma_field_bits(byte, value.spec_code(), kind.spec_mask(), kind.spec_shift(), kind.spec_max_code());
    if other != kind && other.spec_register() == kind.spec_register() {
        kind.lemma_disjoint(other);
        lemma_keep_bits(with_field(byte, value), byte, kind.spec_mask(), other.spec_mask());
    }
}

} // verus!
