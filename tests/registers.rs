use ads1220::fields::{
    AdcInputMux, DataRate, FIRRejectionFilter, IDacRouting, IDacSourceCurrent, OperatingMode,
    PgaGain, VrefSelect,
};
use ads1220::protocol::{register_command, RegisterAddr, SpiCommand};
use ads1220::registers::{
    decode_field, decode_field_code, encode_field, encode_field_code, FieldKind, FieldValue,
};

const ALL_KINDS: [FieldKind; 16] = [
    FieldKind::Mux,
    FieldKind::Gain,
    FieldKind::PgaBypass,
    FieldKind::DataRate,
    FieldKind::OperatingMode,
    FieldKind::ConversionMode,
    FieldKind::TemperatureSensorMode,
    FieldKind::BurnOutCurrentSource,
    FieldKind::VrefSelection,
    FieldKind::FirFilter,
    FieldKind::LowSideSwitch,
    FieldKind::IdacCurrentSetting,
    FieldKind::Idac1Mux,
    FieldKind::Idac2Mux,
    FieldKind::DrdyMode,
    FieldKind::Reserved,
];

#[test]
fn command_bytes_for_each_address() {
    let addrs = [RegisterAddr::Reg0, RegisterAddr::Reg1, RegisterAddr::Reg2, RegisterAddr::Reg3];
    for (a, addr) in addrs.iter().enumerate() {
        let a = a as u8;
        assert_eq!(register_command(SpiCommand::WriteReg, *addr), 0x40 | (a << 2));
        assert_eq!(register_command(SpiCommand::ReadReg, *addr), 0x20 | (a << 2));
    }
    assert_eq!(register_command(SpiCommand::WriteReg, RegisterAddr::Reg3), 0x4C);
    assert_eq!(register_command(SpiCommand::ReadReg, RegisterAddr::Reg2), 0x28);
}

#[test]
fn command_codes() {
    assert_eq!(SpiCommand::Reset.code(), 0x06);
    assert_eq!(SpiCommand::Start.code(), 0x08);
    assert_eq!(SpiCommand::WriteReg.code(), 0x40);
    assert_eq!(SpiCommand::ReadReg.code(), 0x20);
}

#[test]
fn gain_write_keeps_other_bits() {
    let gain_mask: u8 = 0x0E;
    let r = encode_field(0x5A, FieldValue::Gain(PgaGain::Factor4));
    assert_eq!(r, (0x5A & !gain_mask) | (2 << 1));
    assert_eq!(r, 0x54);
}

#[test]
fn every_field_round_trips_and_keeps_neighbours() {
    for byte in [0x00u8, 0xFF, 0x5A, 0xA5, 0x3C] {
        for kind in ALL_KINDS {
            let max = kind.max_code();
            for code in 0..=max {
                let written = encode_field_code(byte, kind, code);
                assert_eq!(decode_field_code(written, kind), code);
                assert_eq!(written & !kind.mask(), byte & !kind.mask());
                let value = FieldValue::from_code(kind, code);
                let typed = encode_field(byte, value);
                assert_eq!(decode_field(typed, kind), value);
                for other in ALL_KINDS {
                    if other != kind && other.register() == kind.register() {
                        assert_eq!(decode_field(typed, other), decode_field(byte, other));
                    }
                }
            }
        }
    }
}

#[test]
fn masks_and_shifts_follow_layout() {
    assert_eq!(FieldKind::Mux.mask(), 0xF0);
    assert_eq!(FieldKind::Gain.mask(), 0x0E);
    assert_eq!(FieldKind::DataRate.mask(), 0xE0);
    assert_eq!(FieldKind::OperatingMode.mask(), 0x18);
    assert_eq!(FieldKind::VrefSelection.mask(), 0xC0);
    assert_eq!(FieldKind::FirFilter.mask(), 0x30);
    assert_eq!(FieldKind::IdacCurrentSetting.mask(), 0x07);
    assert_eq!(FieldKind::Idac1Mux.mask(), 0xE0);
    assert_eq!(FieldKind::Idac2Mux.mask(), 0x1C);
    assert_eq!(FieldKind::Idac2Mux.shift(), 2);
    assert_eq!(FieldKind::DrdyMode.register(), RegisterAddr::Reg3);
}

#[test]
fn decode_register_bytes() {
    assert_eq!(decode_field(0x04, FieldKind::ConversionMode), FieldValue::ConversionMode(true));
    assert_eq!(decode_field(0x10, FieldKind::FirFilter), FieldValue::FirFilter(FIRRejectionFilter::Reject50and60Hz));
    assert_eq!(decode_field(0xB0, FieldKind::Mux), FieldValue::Mux(AdcInputMux::Ain3AVss));
    assert_eq!(decode_field(0xC0, FieldKind::VrefSelection), FieldValue::VrefSelection(VrefSelect::AnalogSupply));
    assert_eq!(decode_field(0x06, FieldKind::IdacCurrentSetting), FieldValue::IdacCurrentSetting(IDacSourceCurrent::Source1000uA));
    assert_eq!(decode_field(0xE0, FieldKind::Idac1Mux), FieldValue::Idac1Mux(IDacRouting::Reserved));
}

#[test]
fn unknown_codes_fall_back() {
    assert_eq!(decode_field(0xE0, FieldKind::DataRate), FieldValue::DataRate(DataRate::Dr20sps));
    assert_eq!(decode_field(0x18, FieldKind::OperatingMode), FieldValue::OperatingMode(OperatingMode::Normal));
    assert_eq!(DataRate::from_code(200), DataRate::Dr20sps);
    assert_eq!(AdcInputMux::from_code(16), AdcInputMux::Ain0Ain1);
}

#[test]
fn enum_codes() {
    assert_eq!(PgaGain::Factor128.code(), 7);
    assert_eq!(DataRate::Dr1000sps.code(), 6);
    assert_eq!(OperatingMode::Turbo.code(), 2);
    assert_eq!(AdcInputMux::Ain3SingleEnded.code(), 15);
    assert_eq!(IDacRouting::from_code(IDacRouting::RefN0.code()), IDacRouting::RefN0);
}
