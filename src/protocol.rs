//! The serial protocol of the chip: command bytes, register addresses, and
//! the bus transactions that carry them.

use vstd::prelude::*;

verus! {

/// Settle time before each command phase, in nanoseconds.
pub const SETTLE_NS: u32 = 50;

/// Settle time after a reset before the next command, in nanoseconds.
pub const RESET_SETTLE_NS: u32 = 50000;

/// Byte clocked out while a register value is clocked in.
pub const DUMMY_BYTE: u8 = 0xFF;

/// Number of bytes in one conversion result.
pub const SAMPLE_BYTES: usize = 3;

/// The command bytes understood by the chip.
#[derive(Clone, Copy, Debug, PartialEq, Eq, Structural)]
pub enum SpiCommand {
    Reset,
    Start,
    WriteReg,
    ReadReg,
}

impl SpiCommand {
    pub open spec fn spec_code(self) -> u8 {
        match self {
            SpiCommand::Reset => 0x06u8,
            SpiCommand::Start => 0x08u8,
            SpiCommand::WriteReg => 0x40u8,
            SpiCommand::ReadReg => 0x20u8,
        }
    }

    /// The byte that carries this command.
    pub fn code(&self) -> (r: u8)
        ensures
            r == self.spec_code(),
    {
        match self {
            SpiCommand::Reset => 0x06,
            SpiCommand::Start => 0x08,
            SpiCommand::WriteReg => 0x40,
            SpiCommand::ReadReg => 0x20,
        }
    }
}

/// The four configuration registers.
#[derive(Clone, Copy, Debug, PartialEq, Eq, Structural)]
pub enum RegisterAddr {
    Reg0,
    Reg1,
    Reg2,
    Reg3,
}

impl RegisterAddr {
    pub open spec fn spec_index(self) -> u8 {
        match self {
            RegisterAddr::Reg0 => 0u8,
            RegisterAddr::Reg1 => 1u8,
            RegisterAddr::Reg2 => 2u8,
            RegisterAddr::Reg3 => 3u8,
        }
    }

    /// The register's address, 0 to 3.
    pub fn index(&self) -> (r: u8)
        ensures
            r == self.spec_index(),
            r < 4,
    {
        match self {
            RegisterAddr::Reg0 => 0,
            RegisterAddr::Reg1 => 1,
            RegisterAddr::Reg2 => 2,
            RegisterAddr::Reg3 => 3,
        }
    }
}

/// The command byte that writes register `addr`: `0x40 | (addr << 2)`.
pub open spec fn write_command_byte(addr: RegisterAddr) -> u8 {
    (0x40u8 | (addr.spec_index() << 2u8)) as u8
}

/// The command byte that reads register `addr`: `0x20 | (addr << 2)`.
pub open spec fn read_command_byte(addr: RegisterAddr) -> u8 {
    (0x20u8 | (addr.spec_index() << 2u8)) as u8
}

/// Builds the command byte for `command` aimed at register `addr`.
pub fn register_command(command: SpiCommand, addr: RegisterAddr) -> (r: u8)
    ensures
        r == (command.spec_code() | (addr.spec_index() << 2u8)),
        command == SpiCommand::WriteReg ==> r == write_command_byte(addr),
        command == SpiCommand::ReadReg ==> r == read_command_byte(addr),
{
    command.code() | (addr.index() << 2u8)
}

/// One part of a bus transaction.
#[derive(Debug)]
pub enum BusOp {
    /// Wait at least this many nanoseconds.
    DelayNs(u32),
    /// Send these bytes, ignoring what comes back.
    Write(Vec<u8>),
    /// Clock in this many bytes.
    Read(usize),
    /// Send these bytes and capture as many bytes in return.
    Transfer(Vec<u8>),
}

/// A bus operation over mathematical values.
pub enum BusOpModel {
    DelayNs(u32),
    Write(Seq<u8>),
    Read(nat),
    Transfer(Seq<u8>),
}

impl View for BusOp {
    type V = BusOpModel;

    open spec fn view(&self) -> BusOpModel {
        match self {
            BusOp::DelayNs(ns) => BusOpModel::DelayNs(*ns),
            BusOp::Write(b) => BusOpModel::Write(b@),
            BusOp::Read(n) => BusOpModel::Read(*n as nat),
            BusOp::Transfer(b) => BusOpModel::Transfer(b@),
        }
    }
}

/// The operations of a transaction, as values.
pub open spec fn ops_model(ops: Seq<BusOp>) -> Seq<BusOpModel> {
    ops.map_values(|op: BusOp| op@)
}

/// A bare command: settle, then the one command byte.
pub open spec fn command_transaction(command: SpiCommand) -> Seq<BusOpModel> {
    seq![BusOpModel::DelayNs(SETTLE_NS), BusOpModel::Write(seq![command.spec_code()])]
}

/// A register write: settle, then the command byte and the value in one write.
pub open spec fn write_transaction(addr: RegisterAddr, value: u8) -> Seq<BusOpModel> {
    seq![BusOpModel::DelayNs(SETTLE_NS), BusOpModel::Write(seq![write_command_byte(addr), value])]
}

/// A register read: settle, the command byte, then one dummy byte out while
/// the value comes in.
pub open spec fn read_transaction(addr: RegisterAddr) -> Seq<BusOpModel> {
    seq![
        BusOpModel::DelayNs(SETTLE_NS),
        BusOpModel::Write(seq![read_command_byte(addr)]),
        BusOpModel::Transfer(seq![DUMMY_BYTE]),
    ]
}

/// A wait alone.
pub open spec fn delay_transaction(ns: u32) -> Seq<BusOpModel> {
    seq![BusOpModel::DelayNs(ns)]
}

/// A sample read: settle, then three bytes in with no command before them.
pub open spec fn samples_transaction() -> Seq<BusOpModel> {
    seq![BusOpModel::DelayNs(SETTLE_NS), BusOpModel::Read(SAMPLE_BYTES as nat)]
}

pub fn command_ops(command: SpiCommand) -> (r: Vec<BusOp>)
    ensures
        ops_model(r@) == command_transaction(command),
{
    let bytes = vec![command.code()];
    assert(bytes@ =~= seq![command.spec_code()]);
    let r = vec![BusOp::DelayNs(SETTLE_NS), BusOp::Write(bytes)];
    assert(ops_model(r@) =~~= command_transaction(command));
    r
}

pub fn write_register_ops(addr: RegisterAddr, value: u8) -> (r: Vec<BusOp>)
    ensures
        ops_model(r@) == write_transaction(addr, value),
{
    let cmd = register_command(SpiCommand::WriteReg, addr);
    let r = vec![BusOp::DelayNs(SETTLE_NS), BusOp::Write(vec![cmd, value])];
    assert(ops_model(r@) =~~= write_transaction(addr, value));
    r
}

pub fn read_register_ops(addr: RegisterAddr) -> (r: Vec<BusOp>)
    ensures
        ops_model(r@) == read_transaction(addr),
{
    let cmd = register_command(SpiCommand::ReadReg, addr);
    let bytes = vec![cmd];
    let dummy = vec![DUMMY_BYTE];
    assert(bytes@ =~= seq![cmd] && dummy@ =~= seq![DUMMY_BYTE]);
    let r = vec![BusOp::DelayNs(SETTLE_NS), BusOp::Write(bytes), BusOp::Transfer(dummy)];
    assert(ops_model(r@) =~~= read_transaction(addr));
    r
}

pub fn delay_ops(ns: u32) -> (r: Vec<BusOp>)
    ensures
        ops_model(r@) == delay_transaction(ns),
{
    let r = vec![BusOp::DelayNs(ns)];
    assert(ops_model(r@) =~~= delay_transaction(ns));
    r
}

pub fn samples_ops() -> (r: Vec<BusOp>)
    ensures
        ops_model(r@) == samples_transaction(),
{
    let r = vec![BusOp::DelayNs(SETTLE_NS), BusOp::Read(SAMPLE_BYTES)];
    assert(ops_model(r@) =~~= samples_transaction());
    r
}

/// The register command bytes are `0x40 | (A << 2)` for a write and
/// `0x20 | (A << 2)` for a read, for each address A.
pub proof fn lemma_command_bytes(addr: RegisterAddr)
    ensures
        write_command_byte(addr) as int == 0x40 + 4 * addr.spec_index(),
        read_command_byte(addr) as int == 0x20 + 4 * addr.spec_index(),
        addr == RegisterAddr::Reg0 ==> write_command_byte(addr) == 0x40 && read_command_byte(addr) == 0x20,
        addr == RegisterAddr::Reg1 ==> write_command_byte(addr) == 0x44 && read_command_byte(addr) == 0x24,
        addr == RegisterAddr::Reg2 ==> write_command_byte(addr) == 0x48 && read_command_byte(addr) == 0x28,
        addr == RegisterAddr::Reg3 ==> write_command_byte(addr) == 0x4C && read_command_byte(addr) == 0x2C,
{
    let i = addr.spec_index();
    assert(i < 4);
    assert(0x40u8 | (i << 2u8) == 0x40u8 + 4 * i && 0x20u8 | (i << 2u8) == 0x20u8 + 4 * i) by (bit_vector)
        requires i < 4u8;
}

} // verus!
