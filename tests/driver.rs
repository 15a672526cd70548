use ads1220::driver::{Action, Event, Outcome, ADS1220};
use ads1220::fields::{AdcInputMux, DataRate, IDacRouting, PgaGain};
use ads1220::protocol::BusOp;
use ads1220::registers::FieldValue;

#[derive(Debug, Clone, PartialEq)]
enum Rec {
    Delay(u32),
    Write(Vec<u8>),
    Read(usize),
    Transfer(Vec<u8>),
}

fn record(ops: &[BusOp]) -> Vec<Rec> {
    ops.iter()
        .map(|op| match op {
            BusOp::DelayNs(ns) => Rec::Delay(*ns),
            BusOp::Write(b) => Rec::Write(b.clone()),
            BusOp::Read(n) => Rec::Read(*n),
            BusOp::Transfer(b) => Rec::Transfer(b.clone()),
        })
        .collect()
}

/// Runs an operation against a mock chip that answers every register read
/// with `reg` and every sample read with `sample`.
fn run(adc: &mut ADS1220, first: Action, reg: u8, sample: [u8; 3]) -> (Vec<Vec<Rec>>, Outcome) {
    let mut log = Vec::new();
    let mut action = first;
    loop {
        match action {
            Action::Transact(ops) => {
                let mut reply = Vec::new();
                for op in ops.iter() {
                    match op {
                        BusOp::Read(n) => reply.extend_from_slice(&sample[..*n]),
                        BusOp::Transfer(b) => reply.extend(b.iter().map(|_| reg)),
                        _ => {}
                    }
                }
                assert_eq!(reply.len(), adc.expected_reply_len());
                log.push(record(&ops));
                action = adc.resume(Event::Completed(reply));
            }
            Action::Finished(o) => return (log, o),
            Action::Aborted => panic!("aborted without a fault"),
            Action::AwaitReady => panic!("no data-ready wait was asked for"),
        }
    }
}

fn write_reg(cmd: u8, value: u8) -> Vec<Rec> {
    vec![Rec::Delay(50), Rec::Write(vec![cmd, value])]
}

fn read_reg(cmd: u8) -> Vec<Rec> {
    vec![Rec::Delay(50), Rec::Write(vec![cmd]), Rec::Transfer(vec![0xFF])]
}

#[test]
fn begin_resets_waits_then_writes_defaults() {
    let mut adc = ADS1220::new();
    let a = adc.begin();
    let (log, out) = run(&mut adc, a, 0x77, [0, 0, 0]);
    assert!(matches!(out, Outcome::Done));
    assert_eq!(
        log,
        vec![
            vec![Rec::Delay(50), Rec::Write(vec![0x06])],
            vec![Rec::Delay(50000)],
            write_reg(0x40, 0x00),
            write_reg(0x44, 0x04),
            write_reg(0x48, 0x10),
            write_reg(0x4C, 0x00),
        ]
    );
    assert!(!adc.is_busy());
}

#[test]
fn gain_setter_writes_back_modified_byte() {
    let mut adc = ADS1220::new();
    let a = adc.set_pga_gain(PgaGain::Factor4);
    let (log, out) = run(&mut adc, a, 0x5A, [0, 0, 0]);
    assert!(matches!(out, Outcome::Done));
    let gain_mask: u8 = 0x0E;
    assert_eq!(log, vec![read_reg(0x20), write_reg(0x40, (0x5A & !gain_mask) | (2 << 1))]);
}

#[test]
fn read_channel_writes_mux_before_start() {
    let mut adc = ADS1220::new();
    let a = adc.read_single_shot_from_channel(AdcInputMux::Ain2AVss);
    let (log, out) = run(&mut adc, a, 0x0E, [0xFF, 0xFF, 0xFE]);
    assert!(matches!(out, Outcome::Sample(-2)));
    assert_eq!(
        log,
        vec![
            read_reg(0x20),
            write_reg(0x40, 0xAE),
            vec![Rec::Delay(50), Rec::Write(vec![0x08])],
            vec![Rec::Delay(50), Rec::Read(3)],
        ]
    );
}

#[test]
fn setters_touch_their_own_register() {
    let mut adc = ADS1220::new();
    let a = adc.set_data_rate(DataRate::Dr1000sps);
    let (log, _) = run(&mut adc, a, 0x04, [0, 0, 0]);
    assert_eq!(log, vec![read_reg(0x24), write_reg(0x44, 0xC4)]);

    let a = adc.set_idac2_route(IDacRouting::Ain3RefN1);
    let (log, _) = run(&mut adc, a, 0xFF, [0, 0, 0]);
    assert_eq!(log, vec![read_reg(0x2C), write_reg(0x4C, 0xF3)]);

    let a = adc.low_side_switch_closed();
    let (log, _) = run(&mut adc, a, 0x10, [0, 0, 0]);
    assert_eq!(log, vec![read_reg(0x28), write_reg(0x48, 0x18)]);

    let a = adc.set_pga_off();
    let (log, _) = run(&mut adc, a, 0x00, [0, 0, 0]);
    assert_eq!(log, vec![read_reg(0x20), write_reg(0x40, 0x01)]);

    let a = adc.set_conv_mode_single_shot();
    let (log, _) = run(&mut adc, a, 0x04, [0, 0, 0]);
    assert_eq!(log, vec![read_reg(0x24), write_reg(0x44, 0x00)]);

    let a = adc.set_drdy_mode_dout();
    let (log, _) = run(&mut adc, a, 0x00, [0, 0, 0]);
    assert_eq!(log, vec![read_reg(0x2C), write_reg(0x4C, 0x02)]);
}

#[test]
fn raw_field_setter_writes_reserved_code() {
    let mut adc = ADS1220::new();
    let a = adc.set_field(FieldValue::Idac1Mux(IDacRouting::Reserved));
    let (log, _) = run(&mut adc, a, 0x00, [0, 0, 0]);
    assert_eq!(log, vec![read_reg(0x2C), write_reg(0x4C, 0xE0)]);
}

#[test]
fn config_dump_reads_in_address_order() {
    let mut adc = ADS1220::new();
    let a = adc.get_config_reg();
    let (log, out) = run(&mut adc, a, 0x3C, [0, 0, 0]);
    assert_eq!(log, vec![read_reg(0x20), read_reg(0x24), read_reg(0x28), read_reg(0x2C)]);
    match out {
        Outcome::Registers(r) => assert_eq!(r, [0x3C; 4]),
        _ => panic!("wrong outcome"),
    }
}

#[test]
fn single_shot_starts_then_reads() {
    let mut adc = ADS1220::new();
    let a = adc.read_single_shot();
    let (log, out) = run(&mut adc, a, 0, [0x80, 0x00, 0x00]);
    assert_eq!(log, vec![vec![Rec::Delay(50), Rec::Write(vec![0x08])], vec![Rec::Delay(50), Rec::Read(3)]]);
    assert!(matches!(out, Outcome::Sample(-8388608)));
}

#[test]
fn raw_samples_are_returned_as_read() {
    let mut adc = ADS1220::new();
    let a = adc.read_data_samples();
    let (log, out) = run(&mut adc, a, 0, [0x01, 0x02, 0x03]);
    assert_eq!(log, vec![vec![Rec::Delay(50), Rec::Read(3)]]);
    match out {
        Outcome::RawSamples(r) => assert_eq!(r, [0x01, 0x02, 0x03]),
        _ => panic!("wrong outcome"),
    }
}

#[test]
fn commands_are_single_bytes() {
    let mut adc = ADS1220::new();
    let a = adc.reset();
    let (log, _) = run(&mut adc, a, 0, [0, 0, 0]);
    assert_eq!(log, vec![vec![Rec::Delay(50), Rec::Write(vec![0x06])]]);
    let a = adc.start_conv();
    let (log, _) = run(&mut adc, a, 0, [0, 0, 0]);
    assert_eq!(log, vec![vec![Rec::Delay(50), Rec::Write(vec![0x08])]]);
}

#[test]
fn fault_aborts_without_retry() {
    let mut adc = ADS1220::new();
    let a = adc.begin();
    assert!(matches!(a, Action::Transact(_)));
    let a = adc.resume(Event::Completed(Vec::new()));
    assert!(matches!(a, Action::Transact(_)));
    let a = adc.resume(Event::Failed);
    assert!(matches!(a, Action::Aborted));
    assert!(!adc.is_busy());
}

#[test]
fn fault_during_setter_read_skips_write() {
    let mut adc = ADS1220::new();
    let a = adc.set_pga_gain(PgaGain::Factor2);
    assert!(matches!(a, Action::Transact(_)));
    assert_eq!(adc.expected_reply_len(), 1);
    let a = adc.resume(Event::Failed);
    assert!(matches!(a, Action::Aborted));
    assert!(!adc.is_busy());
}

#[test]
fn ready_wait_sits_between_start_and_read() {
    let mut adc = ADS1220::new();
    let a = adc.read_single_shot_when_ready();
    match &a {
        Action::Transact(ops) => assert_eq!(record(ops), vec![Rec::Delay(50), Rec::Write(vec![0x08])]),
        _ => panic!("expected the start command"),
    }
    let a = adc.resume(Event::Completed(Vec::new()));
    assert!(matches!(a, Action::AwaitReady));
    assert_eq!(adc.expected_reply_len(), 0);
    let a = adc.resume(Event::Completed(Vec::new()));
    match &a {
        Action::Transact(ops) => assert_eq!(record(ops), vec![Rec::Delay(50), Rec::Read(3)]),
        _ => panic!("expected the sample read"),
    }
    let a = adc.resume(Event::Completed(vec![0x00, 0x00, 0x2A]));
    assert!(matches!(a, Action::Finished(Outcome::Sample(42))));
}
