//! Typed values of the configuration bit-fields.
//!
//! Each field's legal codes form a closed enum. Decoding a raw code never
//! fails: a code that names no variant maps to the variant of code 0.

use vstd::prelude::*;

verus! {

/// Routing of an excitation current source (IDAC1 or IDAC2); code 7 is reserved.
#[derive(Clone, Copy, Debug, PartialEq, Eq, Structural)]
pub enum IDacRouting {
    Disabled,
    Ain0RefP1,
    Ain1,
    Ain2,
    Ain3RefN1,
    RepP0,
    RefN0,
    Reserved,
}

impl IDacRouting {
    /// The field code of this value.
    pub open spec fn spec_code(self) -> u8 {
        match self {
            IDacRouting::Disabled => 0u8,
            IDacRouting::Ain0RefP1 => 1u8,
            IDacRouting::Ain1 => 2u8,
            IDacRouting::Ain2 => 3u8,
            IDacRouting::Ain3RefN1 => 4u8,
            IDacRouting::RepP0 => 5u8,
            IDacRouting::RefN0 => 6u8,
            IDacRouting::Reserved => 7u8,
        }
    }

    /// The value that a raw code decodes to; unknown codes give `IDacRouting::Disabled`.
    pub open spec fn spec_from_code(c: u8) -> IDacRouting {
        if c == 1u8 {
            IDacRouting::Ain0RefP1
        } else if c == 2u8 {
            IDacRouting::Ain1
        } else if c == 3u8 {
            IDacRouting::Ain2
        } else if c == 4u8 {
            IDacRouting::Ain3RefN1
        } else if c == 5u8 {
            IDacRouting::RepP0
        } else if c == 6u8 {
            IDacRouting::RefN0
        } else if c == 7u8 {
            IDacRouting::Reserved
        } else {
            IDacRouting::Disabled
        }
    }

    pub fn code(&self) -> (r: u8)
        ensures
            r == self.spec_code(),
            r < 8,
    {
        match self {
            IDacRouting::Disabled => 0,
            IDacRouting::Ain0RefP1 => 1,
            IDacRouting::Ain1 => 2,
            IDacRouting::Ain2 => 3,
            IDacRouting::Ain3RefN1 => 4,
            IDacRouting::RepP0 => 5,
            IDacRouting::RefN0 => 6,
            IDacRouting::Reserved => 7,
        }
    }

    pub fn from_code(c: u8) -> (r: IDacRouting)
        ensures
            r == IDacRouting::spec_from_code(c),
    {
        if c == 1 {
            IDacRouting::Ain0RefP1
        } else if c == 2 {
            IDacRouting::Ain1
        } else if c == 3 {
            IDacRouting::Ain2
        } else if c == 4 {
            IDacRouting::Ain3RefN1
        } else if c == 5 {
            IDacRouting::RepP0
        } else if c == 6 {
            IDacRouting::RefN0
        } else if c == 7 {
            IDacRouting::Reserved
        } else {
            IDacRouting::Disabled
        }
    }

    /// Decoding the code of a value gives the value back.
    pub proof fn lemma_code_round_trip(self)
        ensures
            IDacRouting::spec_from_code(self.spec_code()) == self,
            self.spec_code() < 8,
    {
    }
}

/// Magnitude of the excitation current sources.
#[derive(Clone, Copy, Debug, PartialEq, Eq, Structural)]
pub enum IDacSourceCurrent {
    Off,
    Source10uA,
    Source50uA,
    Source100uA,
    Source250uA,
    Source500uA,
    Source1000uA,
    Source1500uA,
}

impl IDacSourceCurrent {
    /// The field code of this value.
    pub open spec fn spec_code(self) -> u8 {
        match self {
            IDacSourceCurrent::Off => 0u8,
            IDacSourceCurrent::Source10uA => 1u8,
            IDacSourceCurrent::Source50uA => 2u8,
            IDacSourceCurrent::Source100uA => 3u8,
            IDacSourceCurrent::Source250uA => 4u8,
            IDacSourceCurrent::Source500uA => 5u8,
            IDacSourceCurrent::Source1000uA => 6u8,
            IDacSourceCurrent::Source1500uA => 7u8,
        }
    }

    /// The value that a raw code decodes to; unknown codes give `IDacSourceCurrent::Off`.
    pub open spec fn spec_from_code(c: u8) -> IDacSourceCurrent {
        if c == 1u8 {
            IDacSourceCurrent::Source10uA
        } else if c == 2u8 {
            IDacSourceCurrent::Source50uA
        } else if c == 3u8 {
            IDacSourceCurrent::Source100uA
        } else if c == 4u8 {
            IDacSourceCurrent::Source250uA
        } else if c == 5u8 {
            IDacSourceCurrent::Source500uA
        } else if c == 6u8 {
            IDacSourceCurrent::Source1000uA
        } else if c == 7u8 {
            IDacSourceCurrent::Source1500uA
        } else {
            IDacSourceCurrent::Off
        }
    }

    pub fn code(&self) -> (r: u8)
        ensures
            r == self.spec_code(),
            r < 8,
    {
        match self {
            IDacSourceCurrent::Off => 0,
            IDacSourceCurrent::Source10uA => 1,
            IDacSourceCurrent::Source50uA => 2,
            IDacSourceCurrent::Source100uA => 3,
            IDacSourceCurrent::Source250uA => 4,
            IDacSourceCurrent::Source500uA => 5,
            IDacSourceCurrent::Source1000uA => 6,
            IDacSourceCurrent::Source1500uA => 7,
        }
    }

    pub fn from_code(c: u8) -> (r: IDacSourceCurrent)
        ensures
            r == IDacSourceCurrent::spec_from_code(c),
    {
        if c == 1 {
            IDacSourceCurrent::Source10uA
        } else if c == 2 {
            IDacSourceCurrent::Source50uA
        } else if c == 3 {
            IDacSourceCurrent::Source100uA
        } else if c == 4 {
            IDacSourceCurrent::Source250uA
        } else if c == 5 {
            IDacSourceCurrent::Source500uA
        } else if c == 6 {
            IDacSourceCurrent::Source1000uA
        } else if c == 7 {
            IDacSourceCurrent::Source1500uA
        } else {
            IDacSourceCurrent::Off
        }
    }

    /// Decoding the code of a value gives the value back.
    pub proof fn lemma_code_round_trip(self)
        ensures
            IDacSourceCurrent::spec_from_code(self.spec_code()) == self,
            self.spec_code() < 8,
    {
    }
}

/// Mains-frequency rejection of the digital filter.
#[derive(Clone, Copy, Debug, PartialEq, Eq, Structural)]
pub enum FIRRejectionFilter {
    NoRejection,
    Reject50and60Hz,
    Reject50Hz,
    Reject60Hz,
}

impl FIRRejectionFilter {
    /// The field code of this value.
    pub open spec fn spec_code(self) -> u8 {
        match self {
            FIRRejectionFilter::NoRejection => 0u8,
            FIRRejectionFilter::Reject50and60Hz => 1u8,
            FIRRejectionFilter::Reject50Hz => 2u8,
            FIRRejectionFilter::Reject60Hz => 3u8,
        }
    }

    /// The value that a raw code decodes to; unknown codes give `FIRRejectionFilter::NoRejection`.
    pub open spec fn spec_from_code(c: u8) -> FIRRejectionFilter {
        if c == 1u8 {
            FIRRejectionFilter::Reject50and60Hz
        } else if c == 2u8 {
            FIRRejectionFilter::Reject50Hz
        } else if c == 3u8 {
            FIRRejectionFilter::Reject60Hz
        } else {
            FIRRejectionFilter::NoRejection
        }
    }

    pub fn code(&self) -> (r: u8)
        ensures
            r == self.spec_code(),
            r < 4,
    {
        match self {
            FIRRejectionFilter::NoRejection => 0,
            FIRRejectionFilter::Reject50and60Hz => 1,
            FIRRejectionFilter::Reject50Hz => 2,
            FIRRejectionFilter::Reject60Hz => 3,
        }
    }

    pub fn from_code(c: u8) -> (r: FIRRejectionFilter)
        ensures
            r == FIRRejectionFilter::spec_from_code(c),
    {
        if c == 1 {
            FIRRejectionFilter::Reject50and60Hz
        } else if c == 2 {
            FIRRejectionFilter::Reject50Hz
        } else if c == 3 {
            FIRRejectionFilter::Reject60Hz
        } else {
            FIRRejectionFilter::NoRejection
        }
    }

    /// Decoding the code of a value gives the value back.
    pub proof fn lemma_code_round_trip(self)
        ensures
            FIRRejectionFilter::spec_from_code(self.spec_code()) == self,
            self.spec_code() < 4,
    {
    }
}

/// Source of the voltage reference.
#[derive(Clone, Copy, Debug, PartialEq, Eq, Structural)]
pub enum VrefSelect {
    Internal2p048,
    ExternalRef0,
    ExternalRef1,
    AnalogSupply,
}

impl VrefSelect {
    /// The field code of this value.
    pub open spec fn spec_code(self) -> u8 {
        match self {
            VrefSelect::Internal2p048 => 0u8,
            VrefSelect::ExternalRef0 => 1u8,
            VrefSelect::ExternalRef1 => 2u8,
            VrefSelect::AnalogSupply => 3u8,
        }
    }

    /// The value that a raw code decodes to; unknown codes give `VrefSelect::Internal2p048`.
    pub open spec fn spec_from_code(c: u8) -> VrefSelect {
        if c == 1u8 {
            VrefSelect::ExternalRef0
        } else if c == 2u8 {
            VrefSelect::ExternalRef1
        } else if c == 3u8 {
            VrefSelect::AnalogSupply
        } else {
            VrefSelect::Internal2p048
        }
    }

    pub fn code(&self) -> (r: u8)
        ensures
            r == self.spec_code(),
            r < 4,
    {
        match self {
            VrefSelect::Internal2p048 => 0,
            VrefSelect::ExternalRef0 => 1,
            VrefSelect::ExternalRef1 => 2,
            VrefSelect::AnalogSupply => 3,
        }
    }

    pub fn from_code(c: u8) -> (r: VrefSelect)
        ensures
            r == VrefSelect::spec_from_code(c),
    {
        if c == 1 {
            VrefSelect::ExternalRef0
        } else if c == 2 {
            VrefSelect::ExternalRef1
        } else if c == 3 {
            VrefSelect::AnalogSupply
        } else {
            VrefSelect::Internal2p048
        }
    }

    /// Decoding the code of a value gives the value back.
    pub proof fn lemma_code_round_trip(self)
        ensures
            VrefSelect::spec_from_code(self.spec_code()) == self,
            self.spec_code() < 4,
    {
    }
}

/// Power and speed mode of the modulator; code 3 is not defined by the chip.
#[derive(Clone, Copy, Debug, PartialEq, Eq, Structural)]
pub enum OperatingMode {
    Normal,
    DutyCycle,
    Turbo,
}

impl OperatingMode {
    /// The field code of this value.
    pub open spec fn spec_code(self) -> u8 {
        match self {
            OperatingMode::Normal => 0u8,
            OperatingMode::DutyCycle => 1u8,
            OperatingMode::Turbo => 2u8,
        }
    }

    /// The value that a raw code decodes to; unknown codes give `OperatingMode::Normal`.
    pub open spec fn spec_from_code(c: u8) -> OperatingMode {
        if c == 1u8 {
            OperatingMode::DutyCycle
        } else if c == 2u8 {
            OperatingMode::Turbo
        } else {
            OperatingMode::Normal
        }
    }

    pub fn code(&self) -> (r: u8)
        ensures
            r == self.spec_code(),
            r < 4,
    {
        match self {
            OperatingMode::Normal => 0,
            OperatingMode::DutyCycle => 1,
            OperatingMode::Turbo => 2,
        }
    }

    pub fn from_code(c: u8) -> (r: OperatingMode)
        ensures
            r == OperatingMode::spec_from_code(c),
    {
        if c == 1 {
            OperatingMode::DutyCycle
        } else if c == 2 {
            OperatingMode::Turbo
        } else {
            OperatingMode::Normal
        }
    }

    /// Decoding the code of a value gives the value back.
    pub proof fn lemma_code_round_trip(self)
        ensures
            OperatingMode::spec_from_code(self.spec_code()) == self,
            self.spec_code() < 4,
    {
    }
}

/// Output data rate (in normal mode); code 7 is not defined by the chip.
#[derive(Clone, Copy, Debug, PartialEq, Eq, Structural)]
pub enum DataRate {
    Dr20sps,
    Dr45sps,
    Dr90sps,
    Dr175sps,
    Dr330sps,
    Dr600sps,
    Dr1000sps,
}

impl DataRate {
    /// The field code of this value.
    pub open spec fn spec_code(self) -> u8 {
        match self {
            DataRate::Dr20sps => 0u8,
            DataRate::Dr45sps => 1u8,
            DataRate::Dr90sps => 2u8,
            DataRate::Dr175sps => 3u8,
            DataRate::Dr330sps => 4u8,
            DataRate::Dr600sps => 5u8,
            DataRate::Dr1000sps => 6u8,
        }
    }

    /// The value that a raw code decodes to; unknown codes give `DataRate::Dr20sps`.
    pub open spec fn spec_from_code(c: u8) -> DataRate {
        if c == 1u8 {
            DataRate::Dr45sps
        } else if c == 2u8 {
            DataRate::Dr90sps
        } else if c == 3u8 {
            DataRate::Dr175sps
        } else if c == 4u8 {
            DataRate::Dr330sps
        } else if c == 5u8 {
            DataRate::Dr600sps
        } else if c == 6u8 {
            DataRate::Dr1000sps
        } else {
            DataRate::Dr20sps
        }
    }

    pub fn code(&self) -> (r: u8)
        ensures
            r == self.spec_code(),
            r < 8,
    {
        match self {
            DataRate::Dr20sps => 0,
            DataRate::Dr45sps => 1,
            DataRate::Dr90sps => 2,
            DataRate::Dr175sps => 3,
            DataRate::Dr330sps => 4,
            DataRate::Dr600sps => 5,
            DataRate::Dr1000sps => 6,
        }
    }

    pub fn from_code(c: u8) -> (r: DataRate)
        ensures
            r == DataRate::spec_from_code(c),
    {
        if c == 1 {
            DataRate::Dr45sps
        } else if c == 2 {
            DataRate::Dr90sps
        } else if c == 3 {
            DataRate::Dr175sps
        } else if c == 4 {
            DataRate::Dr330sps
        } else if c == 5 {
            DataRate::Dr600sps
        } else if c == 6 {
            DataRate::Dr1000sps
        } else {
            DataRate::Dr20sps
        }
    }

    /// Decoding the code of a value gives the value back.
    pub proof fn lemma_code_round_trip(self)
        ensures
            DataRate::spec_from_code(self.spec_code()) == self,
            self.spec_code() < 8,
    {
    }
}

/// Gain of the programmable gain amplifier.
#[derive(Clone, Copy, Debug, PartialEq, Eq, Structural)]
pub enum PgaGain {
    Factor1,
    Factor2,
    Factor4,
    Factor8,
    Factor16,
    Factor32,
    Factor64,
    Factor128,
}

impl PgaGain {
    /// The field code of this value.
    pub open spec fn spec_code(self) -> u8 {
        match self {
            PgaGain::Factor1 => 0u8,
            PgaGain::Factor2 => 1u8,
            PgaGain::Factor4 => 2u8,
            PgaGain::Factor8 => 3u8,
            PgaGain::Factor16 => 4u8,
            PgaGain::Factor32 => 5u8,
            PgaGain::Factor64 => 6u8,
            PgaGain::Factor128 => 7u8,
        }
    }

    /// The value that a raw code decodes to; unknown codes give `PgaGain::Factor1`.
    pub open spec fn spec_from_code(c: u8) -> PgaGain {
        if c == 1u8 {
            PgaGain::Factor2
        } else if c == 2u8 {
            PgaGain::Factor4
        } else if c == 3u8 {
            PgaGain::Factor8
        } else if c == 4u8 {
            PgaGain::Factor16
        } else if c == 5u8 {
            PgaGain::Factor32
        } else if c == 6u8 {
            PgaGain::Factor64
        } else if c == 7u8 {
            PgaGain::Factor128
        } else {
            PgaGain::Factor1
        }
    }

    pub fn code(&self) -> (r: u8)
        ensures
            r == self.spec_code(),
            r < 8,
    {
        match self {
            PgaGain::Factor1 => 0,
            PgaGain::Factor2 => 1,
            PgaGain::Factor4 => 2,
            PgaGain::Factor8 => 3,
            PgaGain::Factor16 => 4,
            PgaGain::Factor32 => 5,
            PgaGain::Factor64 => 6,
            PgaGain::Factor128 => 7,
        }
    }

    pub fn from_code(c: u8) -> (r: PgaGain)
        ensures
            r == PgaGain::spec_from_code(c),
    {
        if c == 1 {
            PgaGain::Factor2
        } else if c == 2 {
            PgaGain::Factor4
        } else if c == 3 {
            PgaGain::Factor8
        } else if c == 4 {
            PgaGain::Factor16
        } else if c == 5 {
            PgaGain::Factor32
        } else if c == 6 {
            PgaGain::Factor64
        } else if c == 7 {
            PgaGain::Factor128
        } else {
            PgaGain::Factor1
        }
    }

    /// Decoding the code of a value gives the value back.
    pub proof fn lemma_code_round_trip(self)
        ensures
            PgaGain::spec_from_code(self.spec_code()) == self,
            self.spec_code() < 8,
    {
    }
}

/// Input multiplexer: the pair of pins fed to the converter.
#[derive(Clone, Copy, Debug, PartialEq, Eq, Structural)]
pub enum AdcInputMux {
    Ain0Ain1,
    Ain0Ain2,
    Ain0Ain3,
    Ain1Ain2,
    Ain1Ain3,
    Ain2Ain3,
    Ain1Ain0,
    Ain3Ain2,
    Ain0AVss,
    Ain1AVss,
    Ain2AVss,
    Ain3AVss,
    Ain0SingleEnded,
    Ain1SingleEnded,
    Ain2SingleEnded,
    Ain3SingleEnded,
}

impl AdcInputMux {
    /// The field code of this value.
    pub open spec fn spec_code(self) -> u8 {
        match self {
            AdcInputMux::Ain0Ain1 => 0u8,
            AdcInputMux::Ain0Ain2 => 1u8,
            AdcInputMux::Ain0Ain3 => 2u8,
            AdcInputMux::Ain1Ain2 => 3u8,
            AdcInputMux::Ain1Ain3 => 4u8,
            AdcInputMux::Ain2Ain3 => 5u8,
            AdcInputMux::Ain1Ain0 => 6u8,
            AdcInputMux::Ain3Ain2 => 7u8,
            AdcInputMux::Ain0AVss => 8u8,
            AdcInputMux::Ain1AVss => 9u8,
            AdcInputMux::Ain2AVss => 10u8,
            AdcInputMux::Ain3AVss => 11u8,
            AdcInputMux::Ain0SingleEnded => 12u8,
            AdcInputMux::Ain1SingleEnded => 13u8,
            AdcInputMux::Ain2SingleEnded => 14u8,
            AdcInputMux::Ain3SingleEnded => 15u8,
        }
    }

    /// The value that a raw code decodes to; unknown codes give `AdcInputMux::Ain0Ain1`.
    pub open spec fn spec_from_code(c: u8) -> AdcInputMux {
        if c == 1u8 {
            AdcInputMux::Ain0Ain2
        } else if c == 2u8 {
            AdcInputMux::Ain0Ain3
        } else if c == 3u8 {
            AdcInputMux::Ain1Ain2
        } else if c == 4u8 {
            AdcInputMux::Ain1Ain3
        } else if c == 5u8 {
            AdcInputMux::Ain2Ain3
        } else if c == 6u8 {
            AdcInputMux::Ain1Ain0
        } else if c == 7u8 {
            AdcInputMux::Ain3Ain2
        } else if c == 8u8 {
            AdcInputMux::Ain0AVss
        } else if c == 9u8 {
            AdcInputMux::Ain1AVss
        } else if c == 10u8 {
            AdcInputMux::Ain2AVss
        } else if c == 11u8 {
            AdcInputMux::Ain3AVss
        } else if c == 12u8 {
            AdcInputMux::Ain0SingleEnded
        } else if c == 13u8 {
            AdcInputMux::Ain1SingleEnded
        } else if c == 14u8 {
            AdcInputMux::Ain2SingleEnded
        } else if c == 15u8 {
            AdcInputMux::Ain3SingleEnded
        } else {
            AdcInputMux::Ain0Ain1
        }
    }

    pub fn code(&self) -> (r: u8)
        ensures
            r == self.spec_code(),
            r < 16,
    {
        match self {
            AdcInputMux::Ain0Ain1 => 0,
            AdcInputMux::Ain0Ain2 => 1,
            AdcInputMux::Ain0Ain3 => 2,
            AdcInputMux::Ain1Ain2 => 3,
            AdcInputMux::Ain1Ain3 => 4,
            AdcInputMux::Ain2Ain3 => 5,
            AdcInputMux::Ain1Ain0 => 6,
            AdcInputMux::Ain3Ain2 => 7,
            AdcInputMux::Ain0AVss => 8,
            AdcInputMux::Ain1AVss => 9,
            AdcInputMux::Ain2AVss => 10,
            AdcInputMux::Ain3AVss => 11,
            AdcInputMux::Ain0SingleEnded => 12,
            AdcInputMux::Ain1SingleEnded => 13,
            AdcInputMux::Ain2SingleEnded => 14,
            AdcInputMux::Ain3SingleEnded => 15,
        }
    }

    pub fn from_code(c: u8) -> (r: AdcInputMux)
        ensures
            r == AdcInputMux::spec_from_code(c),
    {
        if c == 1 {
            AdcInputMux::Ain0Ain2
        } else if c == 2 {
            AdcInputMux::Ain0Ain3
        } else if c == 3 {
            AdcInputMux::Ain1Ain2
        } else if c == 4 {
            AdcInputMux::Ain1Ain3
        } else if c == 5 {
            AdcInputMux::Ain2Ain3
        } else if c == 6 {
            AdcInputMux::Ain1Ain0
        } else if c == 7 {
            AdcInputMux::Ain3Ain2
        } else if c == 8 {
            AdcInputMux::Ain0AVss
        } else if c == 9 {
            AdcInputMux::Ain1AVss
        } else if c == 10 {
            AdcInputMux::Ain2AVss
        } else if c == 11 {
            AdcInputMux::Ain3AVss
        } else if c == 12 {
            AdcInputMux::Ain0SingleEnded
        } else if c == 13 {
            AdcInputMux::Ain1SingleEnded
        } else if c == 14 {
            AdcInputMux::Ain2SingleEnded
        } else if c == 15 {
            AdcInputMux::Ain3SingleEnded
        } else {
            AdcInputMux::Ain0Ain1
        }
    }

    /// Decoding the code of a value gives the value back.
    pub proof fn lemma_code_round_trip(self)
        ensures
            AdcInputMux::spec_from_code(self.spec_code()) == self,
            self.spec_code() < 16,
    {
    }
}

} // verus!
