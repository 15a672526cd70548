//! The device controller.
//!
//! Every operation of the driver is a fixed plan of steps, one bus
//! transaction each (or, where asked for, a wait for data-ready). The
//! controller hands out one step at a time as an [`Action`]; whoever owns the
//! bus performs it and hands back what was captured as an [`Event`]. A failed transaction ends the operation at once:
//! nothing is retried and nothing is rolled back.
//!
//! Setters are read-modify-write: the register is read from the chip, the
//! one field is changed, and the whole byte is written back.

use vstd::prelude::*;
use crate::fields::{
    AdcInputMux, DataRate, FIRRejectionFilter, IDacRouting, IDacSourceCurrent, OperatingMode,
    PgaGain, VrefSelect,
};
use crate::protocol::{
    command_ops, command_transaction, delay_ops, delay_transaction, ops_model, read_register_ops,
    read_transaction, samples_ops, samples_transaction, write_register_ops, write_transaction,
    lemma_command_bytes, BusOp, BusOpModel, RegisterAddr, SpiCommand, RESET_SETTLE_NS, SAMPLE_BYTES,
};
use crate::registers::{encode_field, field_of, lemma_encode_decode, with_field, FieldKind, FieldValue};
use crate::sample::{decode_sample, sample_value};

verus! {

/// Power-on value written to register 0 by `begin`.
pub const REG0_DEFAULT: u8 = 0x00;

/// Power-on value written to register 1 by `begin`.
pub const REG1_DEFAULT: u8 = 0x04;

/// Power-on value written to register 2 by `begin`.
pub const REG2_DEFAULT: u8 = 0x10;

/// Power-on value written to register 3 by `begin`.
pub const REG3_DEFAULT: u8 = 0x00;

/// One step of an operation; each step but `AwaitReady` is one bus
/// transaction.
#[derive(Clone, Copy, Debug, PartialEq, Eq, Structural)]
pub enum Step {
    /// Send a bare command byte.
    Command(SpiCommand),
    /// Wait this many nanoseconds.
    Wait(u32),
    /// Write a whole register.
    WriteRegister(RegisterAddr, u8),
    /// Read a register from the chip.
    ReadRegister(RegisterAddr),
    /// Write back the last value read of the field's register, with the
    /// field changed.
    WriteField(FieldValue),
    /// Clock in the three bytes of a conversion result.
    ReadSamples,
    /// Wait for the data-ready signal; done by the bus owner, off the bus.
    AwaitReady,
}

/// What an operation returns when all its steps have succeeded.
#[derive(Clone, Copy, Debug, PartialEq, Eq, Structural)]
pub enum Goal {
    Nothing,
    Registers,
    RawSamples,
    Sample,
}

/// The result of a finished operation.
#[derive(Clone, Copy, Debug)]
pub enum Outcome {
    Done,
    /// The four configuration registers, in address order.
    Registers([u8; 4]),
    /// The raw bytes of a conversion result.
    RawSamples([u8; 3]),
    /// A decoded conversion result.
    Sample(i32),
}

/// What happened to the transaction last handed out.
#[derive(Debug)]
pub enum Event {
    /// It succeeded; these are the bytes it captured, in order.
    Completed(Vec<u8>),
    /// The transport reported a fault.
    Failed,
}

/// What the bus owner must do next.
#[derive(Debug)]
pub enum Action {
    /// Perform this transaction, as one chip-select assertion.
    Transact(Vec<BusOp>),
    /// The operation is over and succeeded.
    Finished(Outcome),
    /// The operation was abandoned after a fault; report the fault.
    Aborted,
    /// Wait until the chip signals that a conversion result is ready, then
    /// resume with an empty completion.
    AwaitReady,
}

/// The controller's state, as values.
pub struct DriverState {
    /// The steps of the current operation.
    pub plan: Seq<Step>,
    /// The step whose transaction is in flight; the plan's length when idle.
    pub pos: int,
    pub goal: Goal,
    /// The last value read of each register.
    pub regs: Seq<u8>,
    /// The last conversion result read.
    pub samples: Seq<u8>,
}

/// The transaction that performs `step`, given the register values read so far.
pub open spec fn step_transaction(step: Step, regs: Seq<u8>) -> Seq<BusOpModel> {
    match step {
        Step::Command(c) => command_transaction(c),
        Step::Wait(ns) => delay_transaction(ns),
        Step::WriteRegister(a, v) => write_transaction(a, v),
        Step::ReadRegister(a) => read_transaction(a),
        Step::WriteField(v) => {
            let a = v.spec_kind().spec_register();
            write_transaction(a, with_field(regs[a.spec_index() as int], v))
        },
        Step::ReadSamples => samples_transaction(),
        Step::AwaitReady => seq![],
    }
}

/// Number of bytes that the transaction of `step` captures.
pub open spec fn reply_len(step: Step) -> nat {
    match step {
        Step::ReadRegister(_) => 1,
        Step::ReadSamples => SAMPLE_BYTES as nat,
        _ => 0,
    }
}

/// The register values after `step` captured `bytes`.
pub open spec fn regs_after(step: Step, regs: Seq<u8>, bytes: Seq<u8>) -> Seq<u8> {
    match step {
        Step::ReadRegister(a) => regs.update(a.spec_index() as int, bytes[0]),
        _ => regs,
    }
}

/// The last conversion result after `step` captured `bytes`.
pub open spec fn samples_after(step: Step, samples: Seq<u8>, bytes: Seq<u8>) -> Seq<u8> {
    match step {
        Step::ReadSamples => bytes,
        _ => samples,
    }
}

/// `o` is what an operation with this goal returns.
pub open spec fn outcome_of(o: Outcome, goal: Goal, regs: Seq<u8>, samples: Seq<u8>) -> bool {
    match goal {
        Goal::Nothing => o is Done,
        Goal::Registers => match o {
            Outcome::Registers(r) => r@ == regs,
            _ => false,
        },
        Goal::RawSamples => match o {
            Outcome::RawSamples(r) => r@ == samples,
            _ => false,
        },
        Goal::Sample => match o {
            Outcome::Sample(v) => v as int == sample_value(samples[0], samples[1], samples[2]),
            _ => false,
        },
    }
}

/// `a` is the action owed in state `s`: the transaction of the current step,
/// or the outcome once every step is done.
pub open spec fn action_of(a: Action, s: DriverState) -> bool {
    if s.pos < s.plan.len() {
        if s.plan[s.pos] is AwaitReady {
            a is AwaitReady
        } else {
            match a {
                Action::Transact(ops) => ops_model(ops@) == step_transaction(s.plan[s.pos], s.regs),
                _ => false,
            }
        }
    } else {
        match a {
            Action::Finished(o) => outcome_of(o, s.goal, s.regs, s.samples),
            _ => false,
        }
    }
}

/// Reset, let the oscillator settle, then write the four registers' power-on
/// values in address order.
pub open spec fn begin_plan() -> Seq<Step> {
    seq![
        Step::Command(SpiCommand::Reset),
        Step::Wait(RESET_SETTLE_NS),
        Step::WriteRegister(RegisterAddr::Reg0, REG0_DEFAULT),
        Step::WriteRegister(RegisterAddr::Reg1, REG1_DEFAULT),
        Step::WriteRegister(RegisterAddr::Reg2, REG2_DEFAULT),
        Step::WriteRegister(RegisterAddr::Reg3, REG3_DEFAULT),
    ]
}

/// Read the field's register, then write it back with the field changed.
pub open spec fn update_plan(value: FieldValue) -> Seq<Step> {
    seq![Step::ReadRegister(value.spec_kind().spec_register()), Step::WriteField(value)]
}

/// Read the four registers in address order.
pub open spec fn config_plan() -> Seq<Step> {
    seq![
        Step::ReadRegister(RegisterAddr::Reg0),
        Step::ReadRegister(RegisterAddr::Reg1),
        Step::ReadRegister(RegisterAddr::Reg2),
        Step::ReadRegister(RegisterAddr::Reg3),
    ]
}

/// Start a conversion, then read its result.
pub open spec fn single_shot_plan() -> Seq<Step> {
    seq![Step::Command(SpiCommand::Start), Step::ReadSamples]
}

/// Start a conversion, wait for data-ready, then read the result.
pub open spec fn ready_shot_plan() -> Seq<Step> {
    seq![Step::Command(SpiCommand::Start), Step::AwaitReady, Step::ReadSamples]
}

/// Select the input pair, then take a single-shot reading.
pub open spec fn channel_plan(mux: AdcInputMux) -> Seq<Step> {
    update_plan(FieldValue::Mux(mux)) + single_shot_plan()
}

/// The controller: the operation in progress and what it has read so far.
pub struct ADS1220 {
    plan: Vec<Step>,
    pos: usize,
    goal: Goal,
    regs: Vec<u8>,
    samples: Vec<u8>,
}

impl View for ADS1220 {
    type V = DriverState;

    closed spec fn view(&self) -> DriverState {
        DriverState {
            plan: self.plan@,
            pos: self.pos as int,
            goal: self.goal,
            regs: self.regs@,
            samples: self.samples@,
        }
    }
}

impl ADS1220 {
    /// The controller's invariant.
    pub open spec fn wf(&self) -> bool {
        &&& self@.regs.len() == 4
        &&& self@.samples.len() == SAMPLE_BYTES
        &&& 0 <= self@.pos <= self@.plan.len()
    }

    /// A step of an operation is in flight.
    pub open spec fn busy(&self) -> bool {
        self@.pos < self@.plan.len()
    }

    /// `self` has just started the operation `plan` with goal `goal`, keeping
    /// what was read before, and `a` is its first action.
    pub open spec fn started(&self, before: DriverState, plan: Seq<Step>, goal: Goal, a: Action) -> bool {
        &&& self.wf()
        &&& self@.plan == plan
        &&& self@.pos == 0
        &&& self@.goal == goal
        &&& self@.regs == before.regs
        &&& self@.samples == before.samples
        &&& action_of(a, self@)
    }

    /// An idle controller.
    pub fn new() -> (r: ADS1220)
        ensures
            r.wf(),
            !r.busy(),
            r@.plan.len() == 0,
    {
        ADS1220 {
            plan: Vec::new(),
            pos: 0,
            goal: Goal::Nothing,
            regs: vec![0u8, 0u8, 0u8, 0u8],
            samples: vec![0u8, 0u8, 0u8],
        }
    }

    /// The transaction of `step`.
    fn step_ops(&self, step: Step) -> (r: Vec<BusOp>)
        requires
            self.wf(),
        ensures
            ops_model(r@) == step_transaction(step, self@.regs),
    {
        match step {
            Step::Command(c) => command_ops(c),
            Step::Wait(ns) => delay_ops(ns),
            Step::WriteRegister(a, v) => write_register_ops(a, v),
            Step::ReadRegister(a) => read_register_ops(a),
            Step::WriteField(v) => {
                let a = v.kind().register();
                let current = self.regs[a.index() as usize];
                write_register_ops(a, encode_field(current, v))
            },
            Step::ReadSamples => samples_ops(),
            Step::AwaitReady => Vec::new(),
        }
    }

    /// The outcome of the operation, from what has been read.
    fn outcome(&self) -> (r: Outcome)
        requires
            self.wf(),
        ensures
            outcome_of(r, self@.goal, self@.regs, self@.samples),
    {
        match self.goal {
            Goal::Nothing => Outcome::Done,
            Goal::Registers => {
                let r = [self.regs[0], self.regs[1], self.regs[2], self.regs[3]];
                assert(r@ =~= self.regs@);
                Outcome::Registers(r)
            },
            Goal::RawSamples => {
                let r = [self.samples[0], self.samples[1], self.samples[2]];
                assert(r@ =~= self.samples@);
                Outcome::RawSamples(r)
            },
            Goal::Sample => {
                Outcome::Sample(decode_sample([self.samples[0], self.samples[1], self.samples[2]]))
            },
        }
    }

    /// The action owed in the current state.
    fn current_action(&self) -> (r: Action)
        requires
            self.wf(),
        ensures
            action_of(r, self@),
    {
        if self.pos < self.plan.len() {
            let step = self.plan[self.pos];
            if let Step::AwaitReady = step {
                Action::AwaitReady
            } else {
                Action::Transact(self.step_ops(step))
            }
        } else {
            Action::Finished(self.outcome())
        }
    }

    /// Starts an operation and returns its first action.
    fn start(&mut self, plan: Vec<Step>, goal: Goal) -> (r: Action)
        requires
            old(self).wf(),
        ensures
            final(self).started(old(self)@, plan@, goal, r),
    {
        self.plan = plan;
        self.pos = 0;
        self.goal = goal;
        self.current_action()
    }

    /// Whether a step of an operation is in flight.
    pub fn is_busy(&self) -> (r: bool)
        requires
            self.wf(),
        ensures
            r == self.busy(),
    {
        self.pos < self.plan.len()
    }

    /// How many bytes the transaction in flight captures: what `resume`
    /// expects with a completion.
    pub fn expected_reply_len(&self) -> (r: usize)
        requires
            self.wf(),
            self.busy(),
        ensures
            r == reply_len(self@.plan[self@.pos]),
    {
        match self.plan[self.pos] {
            Step::ReadRegister(_) => 1,
            Step::ReadSamples => SAMPLE_BYTES,
            _ => 0,
        }
    }

    /// Hands back the result of the transaction in flight and returns the
    /// next action. A fault abandons the operation.
    pub fn resume(&mut self, event: Event) -> (r: Action)
        requires
            old(self).wf(),
            old(self).busy(),
            event matches Event::Completed(bytes) ==> bytes@.len() == reply_len(old(self)@.plan[old(self)@.pos]),
        ensures
            final(self).wf(),
            final(self)@.plan == old(self)@.plan,
            final(self)@.goal == old(self)@.goal,
            match event {
                Event::Failed => {
                    &&& r is Aborted
                    &&& !final(self).busy()
                    &&& final(self)@.regs == old(self)@.regs
                    &&& final(self)@.samples == old(self)@.samples
                },
                Event::Completed(bytes) => {
                    let step = old(self)@.plan[old(self)@.pos];
                    &&& final(self)@.pos == old(self)@.pos + 1
                    &&& final(self)@.regs == regs_after(step, old(self)@.regs, bytes@)
                    &&& final(self)@.samples == samples_after(step, old(self)@.samples, bytes@)
                    &&& action_of(r, final(self)@)
                },
            },
    {
        match event {
            Event::Failed => {
                self.pos = self.plan.len();
                Action::Aborted
            },
            Event::Completed(bytes) => {
                let pos = self.pos;
                let n = self.plan.len();
                assert(pos < n);
                let step = self.plan[pos];
                match step {
                    Step::ReadRegister(a) => {
                        self.regs.set(a.index() as usize, bytes[0]);
                    },
                    Step::ReadSamples => {
                        self.samples = bytes;
                    },
                    _ => {},
                }
                self.pos = pos + 1;
                self.current_action()
            },
        }
    }

    /// Starts the initialization: reset, a 50 us settle, then the power-on
    /// values 0x00, 0x04, 0x10, 0x00 written to registers 0 to 3.
    pub fn begin(&mut self) -> (r: Action)
        requires
            old(self).wf(),
        ensures
            final(self).started(old(self)@, begin_plan(), Goal::Nothing, r),
    {
        let plan = vec![
            Step::Command(SpiCommand::Reset),
            Step::Wait(RESET_SETTLE_NS),
            Step::WriteRegister(RegisterAddr::Reg0, REG0_DEFAULT),
            Step::WriteRegister(RegisterAddr::Reg1, REG1_DEFAULT),
            Step::WriteRegister(RegisterAddr::Reg2, REG2_DEFAULT),
            Step::WriteRegister(RegisterAddr::Reg3, REG3_DEFAULT),
        ];
        assert(plan@ =~= begin_plan());
        self.start(plan, Goal::Nothing)
    }

    /// Starts sending one bare command byte.
    pub fn spi_command(&mut self, command: SpiCommand) -> (r: Action)
        requires
            old(self).wf(),
        ensures
            final(self).started(old(self)@, seq![Step::Command(command)], Goal::Nothing, r),
    {
        let plan = vec![Step::Command(command)];
        assert(plan@ =~= seq![Step::Command(command)]);
        self.start(plan, Goal::Nothing)
    }

    /// Starts a reset command. The caller lets 50 us pass before the next
    /// command.
    pub fn reset(&mut self) -> (r: Action)
        requires
            old(self).wf(),
        ensures
            final(self).started(old(self)@, seq![Step::Command(SpiCommand::Reset)], Goal::Nothing, r),
    {
        self.spi_command(SpiCommand::Reset)
    }

    /// Starts a start/sync command.
    pub fn start_conv(&mut self) -> (r: Action)
        requires
            old(self).wf(),
        ensures
            final(self).started(old(self)@, seq![Step::Command(SpiCommand::Start)], Goal::Nothing, r),
    {
        self.spi_command(SpiCommand::Start)
    }

    /// Starts a read-modify-write of one field: its register is read from
    /// the chip and written back with only that field changed. Any code of
    /// the field may be written, reserved ones included.
    pub fn set_field(&mut self, value: FieldValue) -> (r: Action)
        requires
            old(self).wf(),
        ensures
            final(self).started(old(self)@, update_plan(value), Goal::Nothing, r),
    {
        let plan = vec![Step::ReadRegister(value.kind().register()), Step::WriteField(value)];
        assert(plan@ =~= update_plan(value));
        self.start(plan, Goal::Nothing)
    }

    /// Selects the input pair.
    pub fn select_mux_channels(&mut self, mux_config: AdcInputMux) -> (r: Action)
        requires
            old(self).wf(),
        ensures
            final(self).started(old(self)@, update_plan(FieldValue::Mux(mux_config)), Goal::Nothing, r),
    {
        self.set_field(FieldValue::Mux(mux_config))
    }

    /// Sets the PGA gain.
    pub fn set_pga_gain(&mut self, pga_gain: PgaGain) -> (r: Action)
        requires
            old(self).wf(),
        ensures
            final(self).started(old(self)@, update_plan(FieldValue::Gain(pga_gain)), Goal::Nothing, r),
    {
        self.set_field(FieldValue::Gain(pga_gain))
    }

    /// Routes the input through the PGA.
    pub fn set_pga_on(&mut self) -> (r: Action)
        requires
            old(self).wf(),
        ensures
            final(self).started(old(self)@, update_plan(FieldValue::PgaBypass(false)), Goal::Nothing, r),
    {
        self.set_field(FieldValue::PgaBypass(false))
    }

    /// Bypasses the PGA.
    pub fn set_pga_off(&mut self) -> (r: Action)
        requires
            old(self).wf(),
        ensures
            final(self).started(old(self)@, update_plan(FieldValue::PgaBypass(true)), Goal::Nothing, r),
    {
        self.set_field(FieldValue::PgaBypass(true))
    }

    /// Sets the output data rate.
    pub fn set_data_rate(&mut self, data_rate: DataRate) -> (r: Action)
        requires
            old(self).wf(),
        ensures
            final(self).started(old(self)@, update_plan(FieldValue::DataRate(data_rate)), Goal::Nothing, r),
    {
        self.set_field(FieldValue::DataRate(data_rate))
    }

    /// Sets the operating mode.
    pub fn set_operation_mode(&mut self, mode: OperatingMode) -> (r: Action)
        requires
            old(self).wf(),
        ensures
            final(self).started(old(self)@, update_plan(FieldValue::OperatingMode(mode)), Goal::Nothing, r),
    {
        self.set_field(FieldValue::OperatingMode(mode))
    }

    /// Converts once per start command.
    pub fn set_conv_mode_single_shot(&mut self) -> (r: Action)
        requires
            old(self).wf(),
        ensures
            final(self).started(old(self)@, update_plan(FieldValue::ConversionMode(false)), Goal::Nothing, r),
    {
        self.set_field(FieldValue::ConversionMode(false))
    }

    /// Converts continuously after a start command.
    pub fn set_conv_mode_continuous(&mut self) -> (r: Action)
        requires
            old(self).wf(),
        ensures
            final(self).started(old(self)@, update_plan(FieldValue::ConversionMode(true)), Goal::Nothing, r),
    {
        self.set_field(FieldValue::ConversionMode(true))
    }

    /// Measures the selected inputs.
    pub fn temp_sensor_mode_disable(&mut self) -> (r: Action)
        requires
            old(self).wf(),
        ensures
            final(self).started(old(self)@, update_plan(FieldValue::TemperatureSensorMode(false)), Goal::Nothing, r),
    {
        self.set_field(FieldValue::TemperatureSensorMode(false))
    }

    /// Measures the internal temperature sensor.
    pub fn temp_sensor_mode_enable(&mut self) -> (r: Action)
        requires
            old(self).wf(),
        ensures
            final(self).started(old(self)@, update_plan(FieldValue::TemperatureSensorMode(true)), Goal::Nothing, r),
    {
        self.set_field(FieldValue::TemperatureSensorMode(true))
    }

    /// Turns the burn-out current sources off.
    pub fn current_sources_off(&mut self) -> (r: Action)
        requires
            old(self).wf(),
        ensures
            final(self).started(old(self)@, update_plan(FieldValue::BurnOutCurrentSource(false)), Goal::Nothing, r),
    {
        self.set_field(FieldValue::BurnOutCurrentSource(false))
    }

    /// Turns the burn-out current sources on.
    pub fn current_sources_on(&mut self) -> (r: Action)
        requires
            old(self).wf(),
        ensures
            final(self).started(old(self)@, update_plan(FieldValue::BurnOutCurrentSource(true)), Goal::Nothing, r),
    {
        self.set_field(FieldValue::BurnOutCurrentSource(true))
    }

    /// Selects the voltage reference.
    pub fn set_vref(&mut self, vref: VrefSelect) -> (r: Action)
        requires
            old(self).wf(),
        ensures
            final(self).started(old(self)@, update_plan(FieldValue::VrefSelection(vref)), Goal::Nothing, r),
    {
        self.set_field(FieldValue::VrefSelection(vref))
    }

    /// Selects the mains rejection of the digital filter.
    pub fn set_fir_filter(&mut self, filter: FIRRejectionFilter) -> (r: Action)
        requires
            old(self).wf(),
        ensures
            final(self).started(old(self)@, update_plan(FieldValue::FirFilter(filter)), Goal::Nothing, r),
    {
        self.set_field(FieldValue::FirFilter(filter))
    }

    /// Keeps the low-side power switch open.
    pub fn low_side_switch_open(&mut self) -> (r: Action)
        requires
            old(self).wf(),
        ensures
            final(self).started(old(self)@, update_plan(FieldValue::LowSideSwitch(false)), Goal::Nothing, r),
    {
        self.set_field(FieldValue::LowSideSwitch(false))
    }

    /// Closes the low-side power switch on start, opens it on power-down.
    pub fn low_side_switch_closed(&mut self) -> (r: Action)
        requires
            old(self).wf(),
        ensures
            final(self).started(old(self)@, update_plan(FieldValue::LowSideSwitch(true)), Goal::Nothing, r),
    {
        self.set_field(FieldValue::LowSideSwitch(true))
    }

    /// Sets the excitation current.
    pub fn set_idac_current(&mut self, idac_current: IDacSourceCurrent) -> (r: Action)
        requires
            old(self).wf(),
        ensures
            final(self).started(old(self)@, update_plan(FieldValue::IdacCurrentSetting(idac_current)), Goal::Nothing, r),
    {
        self.set_field(FieldValue::IdacCurrentSetting(idac_current))
    }

    /// Routes IDAC1.
    pub fn set_idac1_route(&mut self, idac1_routing: IDacRouting) -> (r: Action)
        requires
            old(self).wf(),
        ensures
            final(self).started(old(self)@, update_plan(FieldValue::Idac1Mux(idac1_routing)), Goal::Nothing, r),
    {
        self.set_field(FieldValue::Idac1Mux(idac1_routing))
    }

    /// Routes IDAC2.
    pub fn set_idac2_route(&mut self, idac2_routing: IDacRouting) -> (r: Action)
        requires
            old(self).wf(),
        ensures
            final(self).started(old(self)@, update_plan(FieldValue::Idac2Mux(idac2_routing)), Goal::Nothing, r),
    {
        self.set_field(FieldValue::Idac2Mux(idac2_routing))
    }

    /// Signals data-ready on the DRDY pin only.
    pub fn set_drdy_mode_default(&mut self) -> (r: Action)
        requires
            old(self).wf(),
        ensures
            final(self).started(old(self)@, update_plan(FieldValue::DrdyMode(false)), Goal::Nothing, r),
    {
        self.set_field(FieldValue::DrdyMode(false))
    }

    /// Signals data-ready on DOUT as well as on the DRDY pin.
    pub fn set_drdy_mode_dout(&mut self) -> (r: Action)
        requires
            old(self).wf(),
        ensures
            final(self).started(old(self)@, update_plan(FieldValue::DrdyMode(true)), Goal::Nothing, r),
    {
        self.set_field(FieldValue::DrdyMode(true))
    }

    /// Starts reading the four registers in address order; the operation
    /// finishes with their values.
    pub fn get_config_reg(&mut self) -> (r: Action)
        requires
            old(self).wf(),
        ensures
            final(self).started(old(self)@, config_plan(), Goal::Registers, r),
    {
        let plan = vec![
            Step::ReadRegister(RegisterAddr::Reg0),
            Step::ReadRegister(RegisterAddr::Reg1),
            Step::ReadRegister(RegisterAddr::Reg2),
            Step::ReadRegister(RegisterAddr::Reg3),
        ];
        assert(plan@ =~= config_plan());
        self.start(plan, Goal::Registers)
    }

    /// Starts clocking in a conversion result; the operation finishes with
    /// its three raw bytes. No command precedes the read, so a conversion
    /// must have completed.
    pub fn read_data_samples(&mut self) -> (r: Action)
        requires
            old(self).wf(),
        ensures
            final(self).started(old(self)@, seq![Step::ReadSamples], Goal::RawSamples, r),
    {
        let plan = vec![Step::ReadSamples];
        assert(plan@ =~= seq![Step::ReadSamples]);
        self.start(plan, Goal::RawSamples)
    }

    /// Decodes a raw conversion result.
    pub fn data_to_int(&self, data: [u8; 3]) -> (r: i32)
        ensures
            r as int == sample_value(data[0], data[1], data[2]),
    {
        decode_sample(data)
    }

    /// Starts a conversion and reads its result straight away, with no wait
    /// for data-ready; the operation finishes with the decoded value.
    pub fn read_single_shot(&mut self) -> (r: Action)
        requires
            old(self).wf(),
        ensures
            final(self).started(old(self)@, single_shot_plan(), Goal::Sample, r),
    {
        let plan = vec![Step::Command(SpiCommand::Start), Step::ReadSamples];
        assert(plan@ =~= single_shot_plan());
        self.start(plan, Goal::Sample)
    }

    /// Starts a conversion, waits for the data-ready signal, then reads the
    /// result; the operation finishes with the decoded value.
    pub fn read_single_shot_when_ready(&mut self) -> (r: Action)
        requires
            old(self).wf(),
        ensures
            final(self).started(old(self)@, ready_shot_plan(), Goal::Sample, r),
    {
        let plan = vec![Step::Command(SpiCommand::Start), Step::AwaitReady, Step::ReadSamples];
        assert(plan@ =~= ready_shot_plan());
        self.start(plan, Goal::Sample)
    }

    /// Selects the input pair, then takes a single-shot reading.
    pub fn read_single_shot_from_channel(&mut self, input_mux: AdcInputMux) -> (r: Action)
        requires
            old(self).wf(),
        ensures
            final(self).started(old(self)@, channel_plan(input_mux), Goal::Sample, r),
    {
        let value = FieldValue::Mux(input_mux);
        let plan = vec![
            Step::ReadRegister(value.kind().register()),
            Step::WriteField(value),
            Step::Command(SpiCommand::Start),
            Step::ReadSamples,
        ];
        assert(plan@ =~= channel_plan(input_mux));
        self.start(plan, Goal::Sample)
    }
}

/// `begin` performs, in order: the reset command, a wait of at least 50 us,
/// then writes of 0x00, 0x04, 0x10 and 0x00 to registers 0 to 3. None of its
/// transactions captures a byte, so the sequence never depends on the chip.
pub proof fn lemma_begin_sequence(regs: Seq<u8>)
    ensures
        begin_plan().len() == 6,
        step_transaction(begin_plan()[0], regs)
            == seq![BusOpModel::DelayNs(50), BusOpModel::Write(seq![0x06u8])],
        step_transaction(begin_plan()[1], regs) == seq![BusOpModel::DelayNs(50000)],
        step_transaction(begin_plan()[2], regs)
            == seq![BusOpModel::DelayNs(50), BusOpModel::Write(seq![0x40u8, 0x00u8])],
        step_transaction(begin_plan()[3], regs)
            == seq![BusOpModel::DelayNs(50), BusOpModel::Write(seq![0x44u8, 0x04u8])],
        step_transaction(begin_plan()[4], regs)
            == seq![BusOpModel::DelayNs(50), BusOpModel::Write(seq![0x48u8, 0x10u8])],
        step_transaction(begin_plan()[5], regs)
            == seq![BusOpModel::DelayNs(50), BusOpModel::Write(seq![0x4Cu8, 0x00u8])],
        forall|i: int| 0 <= i < 6 ==> reply_len(#[trigger] begin_plan()[i]) == 0,
{
    lemma_command_bytes(RegisterAddr::Reg0);
    lemma_command_bytes(RegisterAddr::Reg1);
    lemma_command_bytes(RegisterAddr::Reg2);
    lemma_command_bytes(RegisterAddr::Reg3);
}

/// A setter's write-back is the byte read from the field's register with only
/// that field changed: whatever byte `b` the read returns, the second
/// transaction writes `with_field(b, value)` to the same register.
pub proof fn lemma_update_writes_back(value: FieldValue, regs: Seq<u8>, b: u8)
    requires
        regs.len() == 4,
    ensures
        update_plan(value).len() == 2,
        step_transaction(update_plan(value)[0], regs) == read_transaction(value.spec_kind().spec_register()),
        step_transaction(update_plan(value)[1], regs_after(update_plan(value)[0], regs, seq![b]))
            == write_transaction(value.spec_kind().spec_register(), with_field(b, value)),
{
}

/// Reading a channel writes the mux field, and only then sends the first
/// start/sync command. The write puts the requested pair in register 0 and
/// keeps the other fields of the byte read from it.
pub proof fn lemma_channel_mux_before_start(mux: AdcInputMux, regs: Seq<u8>)
    requires
        regs.len() == 4,
    ensures
        channel_plan(mux).len() == 4,
        channel_plan(mux)[0] == Step::ReadRegister(RegisterAddr::Reg0),
        channel_plan(mux)[1] == Step::WriteField(FieldValue::Mux(mux)),
        channel_plan(mux)[2] == Step::Command(SpiCommand::Start),
        forall|k: int| 0 <= k < 2 ==> #[trigger] channel_plan(mux)[k] != Step::Command(SpiCommand::Start),
        step_transaction(channel_plan(mux)[1], regs)
            == write_transaction(RegisterAddr::Reg0, with_field(regs[0], FieldValue::Mux(mux))),
        field_of(with_field(regs[0], FieldValue::Mux(mux)), FieldKind::Mux) == FieldValue::Mux(mux),
{
    lemma_encode_decode(regs[0], FieldValue::Mux(mux), FieldKind::Mux);
    assert(channel_plan(mux) =~= seq![
        Step::ReadRegister(RegisterAddr::Reg0),
        Step::WriteField(FieldValue::Mux(mux)),
        Step::Command(SpiCommand::Start),
        Step::ReadSamples,
    ]);
}

} // verus!
