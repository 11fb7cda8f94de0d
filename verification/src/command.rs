//! Commands addressed to an inverter, and what the coordinator does to carry each out.
use vstd::prelude::*;

use crate::config::{or_default, Inverter};
use crate::home_assistant::Register;

verus! {

/// A command for one inverter, as parsed from an MQTT command topic.
#[derive(Debug)]
pub enum Command {
    /// Reads the input-register block with this number.
    ReadInputs(Inverter, u16),
    /// Reads `count` input registers from `register`.
    ReadInput(Inverter, u16, u16),
    /// Reads `count` holding registers from `register`.
    ReadHold(Inverter, u16, u16),
    ReadParam(Inverter, u16),
    ReadAcChargeTime(Inverter, u16),
    ReadAcFirstTime(Inverter, u16),
    ReadChargePriorityTime(Inverter, u16),
    ReadForcedDischargeTime(Inverter, u16),
    /// Writes `value` to holding `register`.
    SetHold(Inverter, u16, u16),
    /// Writes `value` to parameter `register`.
    WriteParam(Inverter, u16, u16),
    SetAcChargeTime(Inverter, u16, [u8; 4]),
    SetAcFirstTime(Inverter, u16, [u8; 4]),
    SetChargePriorityTime(Inverter, u16, [u8; 4]),
    SetForcedDischargeTime(Inverter, u16, [u8; 4]),
    AcCharge(Inverter, bool),
    ChargePriority(Inverter, bool),
    ForcedDischarge(Inverter, bool),
    ChargeRate(Inverter, u16),
    DischargeRate(Inverter, u16),
    AcChargeRate(Inverter, u16),
    AcChargeSocLimit(Inverter, u16),
    DischargeCutoffSocLimit(Inverter, u16),
}

/// A time-slot register read: which schedule, and which of its slots.
#[derive(Clone, Copy, Debug, PartialEq, Eq, Structural)]
pub enum TimeAction {
    AcCharge(u16),
    AcFirst(u16),
    ChargePriority(u16),
    ForcedDischarge(u16),
}

/// A flag bit of holding register 21.
#[derive(Clone, Copy, Debug, PartialEq, Eq, Structural)]
pub enum HoldBit {
    AcChargeEnable,
    ChargePriorityEnable,
    ForcedDischargeEnable,
}

/// What the coordinator does to carry out a command.
#[derive(Clone, Copy, Debug)]
pub enum Operation {
    SetChargeRate(u16),
    SetDischargeRate(u16),
    SetAcChargeRate(u16),
    SetAcChargeSocLimit(u16),
    SetDischargeCutoffSocLimit(u16),
    /// Writes a holding register: register, value.
    SetHold(u16, u16),
    /// Writes a parameter register: register, value.
    SetParam(u16, u16),
    SetAcChargeTime([u8; 4]),
    SetAcFirstTime([u8; 4]),
    SetChargePriorityTime([u8; 4]),
    SetForcedDischargeTime([u8; 4]),
    /// Reads input registers: first register, count.
    ReadInputs(u16, u16),
    /// Reads holding registers: first register, count.
    ReadHold(u16, u16),
    ReadParam(u16),
    ReadTime(TimeAction),
    /// Sets or clears one bit of a holding register.
    UpdateHold(u16, HoldBit, bool),
}

/// The plan for a command: the inverter it goes to, the operation, and the pause in
/// milliseconds that follows a successful register read when the inverter asks for one.
#[derive(Debug)]
pub struct CommandPlan {
    pub inverter: Inverter,
    pub operation: Operation,
    pub pause_ms: Option<u64>,
}

/// The inverter a command is addressed to.
pub open spec fn command_inverter(c: Command) -> Inverter {
    match c {
        Command::ReadInputs(inv, _) => inv,
        Command::ReadInput(inv, _, _) => inv,
        Command::ReadHold(inv, _, _) => inv,
        Command::ReadParam(inv, _) => inv,
        Command::ReadAcChargeTime(inv, _) => inv,
        Command::ReadAcFirstTime(inv, _) => inv,
        Command::ReadChargePriorityTime(inv, _) => inv,
        Command::ReadForcedDischargeTime(inv, _) => inv,
        Command::SetHold(inv, _, _) => inv,
        Command::WriteParam(inv, _, _) => inv,
        Command::SetAcChargeTime(inv, _, _) => inv,
        Command::SetAcFirstTime(inv, _, _) => inv,
        Command::SetChargePriorityTime(inv, _, _) => inv,
        Command::SetForcedDischargeTime(inv, _, _) => inv,
        Command::AcCharge(inv, _) => inv,
        Command::ChargePriority(inv, _) => inv,
        Command::ForcedDischarge(inv, _) => inv,
        Command::ChargeRate(inv, _) => inv,
        Command::DischargeRate(inv, _) => inv,
        Command::AcChargeRate(inv, _) => inv,
        Command::AcChargeSocLimit(inv, _) => inv,
        Command::DischargeCutoffSocLimit(inv, _) => inv,
    }
}

/// The number of the input-register block that a command reads lies within the 16-bit
/// register space (each block holds 40 registers).
pub open spec fn block_addressable(c: Command) -> bool {
    c matches Command::ReadInputs(_, block) ==> block * 40 <= u16::MAX
}

/// The operation that carries out a command. A block read starts at the block's first
/// register and reads as many registers as the inverter's block size; the three switches
/// set or clear their bit of register 21; a time-slot write passes on its values.
pub open spec fn operation_of(c: Command) -> Operation {
    match c {
        Command::ReadInputs(inv, block) => Operation::ReadInputs(
            (block * 40) as u16,
            or_default(inv.register_block_size, 40u16),
        ),
        Command::ReadInput(_, register, count) => Operation::ReadInputs(register, count),
        Command::ReadHold(_, register, count) => Operation::ReadHold(register, count),
        Command::ReadParam(_, register) => Operation::ReadParam(register),
        Command::ReadAcChargeTime(_, num) => Operation::ReadTime(TimeAction::AcCharge(num)),
        Command::ReadAcFirstTime(_, num) => Operation::ReadTime(TimeAction::AcFirst(num)),
        Command::ReadChargePriorityTime(_, num) => Operation::ReadTime(TimeAction::ChargePriority(num)),
        Command::ReadForcedDischargeTime(_, num) => Operation::ReadTime(TimeAction::ForcedDischarge(num)),
        Command::SetHold(_, register, value) => Operation::SetHold(register, value),
        Command::WriteParam(_, register, value) => Operation::SetParam(register, value),
        Command::SetAcChargeTime(_, _, values) => Operation::SetAcChargeTime(values),
        Command::SetAcFirstTime(_, _, values) => Operation::SetAcFirstTime(values),
        Command::SetChargePriorityTime(_, _, values) => Operation::SetChargePriorityTime(values),
        Command::SetForcedDischargeTime(_, _, values) => Operation::SetForcedDischargeTime(values),
        Command::AcCharge(_, enable) => Operation::UpdateHold(21, HoldBit::AcChargeEnable, enable),
        Command::ChargePriority(_, enable) => Operation::UpdateHold(21, HoldBit::ChargePriorityEnable, enable),
        Command::ForcedDischarge(_, enable) => Operation::UpdateHold(21, HoldBit::ForcedDischargeEnable, enable),
        Command::ChargeRate(_, v) => Operation::SetChargeRate(v),
        Command::DischargeRate(_, v) => Operation::SetDischargeRate(v),
        Command::AcChargeRate(_, v) => Operation::SetAcChargeRate(v),
        Command::AcChargeSocLimit(_, v) => Operation::SetAcChargeSocLimit(v),
        Command::DischargeCutoffSocLimit(_, v) => Operation::SetDischargeCutoffSocLimit(v),
    }
}

/// Whether an operation reads registers directly (these are followed by the inverter's
/// pause; time-slot reads and all writes are not).
pub open spec fn is_register_read(op: Operation) -> bool {
    op is ReadInputs || op is ReadHold || op is ReadParam
}

/// The pause after an operation for this inverter.
pub open spec fn pause_after(inv: Inverter, op: Operation) -> Option<u64> {
    if is_register_read(op) && or_default(inv.delay_ms, 0u64) > 0 {
        Some(or_default(inv.delay_ms, 0u64))
    } else {
        None
    }
}

fn pause_for(inverter: &Inverter, op: &Operation) -> (r: Option<u64>)
    ensures
        r == pause_after(*inverter, *op),
{
    let delay = match inverter.delay_ms() {
        Some(d) => d,
        None => 0,
    };
    let reads = match op {
        Operation::ReadInputs(_, _) | Operation::ReadHold(_, _) | Operation::ReadParam(_) => true,
        _ => false,
    };
    if reads && delay > 0 {
        Some(delay)
    } else {
        None
    }
}

/// The plan that carries out a command: its inverter, the operation, and the pause after it.
pub fn plan_command(command: &Command) -> (r: CommandPlan)
    requires
        block_addressable(*command),
    ensures
        r.inverter == command_inverter(*command),
        r.operation == operation_of(*command),
        r.pause_ms == pause_after(r.inverter, r.operation),
{
    let (inverter, operation) = match command {
        Command::ReadInputs(inv, block) => (inv.clone(), Operation::ReadInputs(*block * 40, inv.register_block_size())),
        Command::ReadInput(inv, register, count) => (inv.clone(), Operation::ReadInputs(*register, *count)),
        Command::ReadHold(inv, register, count) => (inv.clone(), Operation::ReadHold(*register, *count)),
        Command::ReadParam(inv, register) => (inv.clone(), Operation::ReadParam(*register)),
        Command::ReadAcChargeTime(inv, num) => (inv.clone(), Operation::ReadTime(TimeAction::AcCharge(*num))),
        Command::ReadAcFirstTime(inv, num) => (inv.clone(), Operation::ReadTime(TimeAction::AcFirst(*num))),
        Command::ReadChargePriorityTime(inv, num) => (
            inv.clone(),
            Operation::ReadTime(TimeAction::ChargePriority(*num)),
        ),
        Command::ReadForcedDischargeTime(inv, num) => (
            inv.clone(),
            Operation::ReadTime(TimeAction::ForcedDischarge(*num)),
        ),
        Command::SetHold(inv, register, value) => (inv.clone(), Operation::SetHold(*register, *value)),
        Command::WriteParam(inv, register, value) => (inv.clone(), Operation::SetParam(*register, *value)),
        Command::SetAcChargeTime(inv, _, values) => (inv.clone(), Operation::SetAcChargeTime(*values)),
        Command::SetAcFirstTime(inv, _, values) => (inv.clone(), Operation::SetAcFirstTime(*values)),
        Command::SetChargePriorityTime(inv, _, values) => (inv.clone(), Operation::SetChargePriorityTime(*values)),
        Command::SetForcedDischargeTime(inv, _, values) => (inv.clone(), Operation::SetForcedDischargeTime(*values)),
        Command::AcCharge(inv, enable) => (
            inv.clone(),
            Operation::UpdateHold(Register::Register21.number(), HoldBit::AcChargeEnable, *enable),
        ),
        Command::ChargePriority(inv, enable) => (
            inv.clone(),
            Operation::UpdateHold(Register::Register21.number(), HoldBit::ChargePriorityEnable, *enable),
        ),
        Command::ForcedDischarge(inv, enable) => (
            inv.clone(),
            Operation::UpdateHold(Register::Register21.number(), HoldBit::ForcedDischargeEnable, *enable),
        ),
        Command::ChargeRate(inv, v) => (inv.clone(), Operation::SetChargeRate(*v)),
        Command::DischargeRate(inv, v) => (inv.clone(), Operation::SetDischargeRate(*v)),
        Command::AcChargeRate(inv, v) => (inv.clone(), Operation::SetAcChargeRate(*v)),
        Command::AcChargeSocLimit(inv, v) => (inv.clone(), Operation::SetAcChargeSocLimit(*v)),
        Command::DischargeCutoffSocLimit(inv, v) => (inv.clone(), Operation::SetDischargeCutoffSocLimit(*v)),
    };
    let pause_ms = pause_for(&inverter, &operation);
    CommandPlan { inverter, operation, pause_ms }
}

} // verus!

verus! {

/// Law: each rate or limit command writes that same setting with the command's value, so the
/// five settings get five different operations for any one value.
pub proof fn rate_commands_write_their_own_setting(inv: Inverter, v: u16)
    ensures
        operation_of(Command::ChargeRate(inv, v)) == Operation::SetChargeRate(v),
        operation_of(Command::DischargeRate(inv, v)) == Operation::SetDischargeRate(v),
        operation_of(Command::AcChargeRate(inv, v)) == Operation::SetAcChargeRate(v),
        operation_of(Command::AcChargeSocLimit(inv, v)) == Operation::SetAcChargeSocLimit(v),
        operation_of(Command::DischargeCutoffSocLimit(inv, v)) == Operation::SetDischargeCutoffSocLimit(v),
{
}

/// Law: every command plans an operation for its own inverter that keeps its arguments:
/// register reads read the requested register and count, register writes write the requested
/// register and value, the three switches each set their own bit of register 21, and time
/// reads and writes address the schedule they name. Reads pause, writes never do.
pub proof fn commands_keep_their_arguments(c: Command)
    requires
        block_addressable(c),
    ensures
        c matches Command::ReadInput(_, r, n) ==> operation_of(c) == Operation::ReadInputs(r, n),
        c matches Command::ReadHold(_, r, n) ==> operation_of(c) == Operation::ReadHold(r, n),
        c matches Command::ReadParam(_, r) ==> operation_of(c) == Operation::ReadParam(r),
        c matches Command::ReadInputs(inv, b) ==> operation_of(c) == Operation::ReadInputs(
            (b * 40) as u16,
            or_default(inv.register_block_size, 40u16),
        ) && b * 40 <= u16::MAX,
        c matches Command::SetHold(_, r, v) ==> operation_of(c) == Operation::SetHold(r, v),
        c matches Command::WriteParam(_, r, v) ==> operation_of(c) == Operation::SetParam(r, v),
        c matches Command::AcCharge(_, e) ==> operation_of(c) == Operation::UpdateHold(21, HoldBit::AcChargeEnable, e),
        c matches Command::ChargePriority(_, e) ==> operation_of(c) == Operation::UpdateHold(
            21,
            HoldBit::ChargePriorityEnable,
            e,
        ),
        c matches Command::ForcedDischarge(_, e) ==> operation_of(c) == Operation::UpdateHold(
            21,
            HoldBit::ForcedDischargeEnable,
            e,
        ),
        c matches Command::ReadAcChargeTime(_, n) ==> operation_of(c) == Operation::ReadTime(TimeAction::AcCharge(n)),
        c matches Command::ReadAcFirstTime(_, n) ==> operation_of(c) == Operation::ReadTime(TimeAction::AcFirst(n)),
        c matches Command::ReadChargePriorityTime(_, n) ==> operation_of(c) == Operation::ReadTime(
            TimeAction::ChargePriority(n),
        ),
        c matches Command::ReadForcedDischargeTime(_, n) ==> operation_of(c) == Operation::ReadTime(
            TimeAction::ForcedDischarge(n),
        ),
        c matches Command::SetAcChargeTime(_, _, t) ==> operation_of(c) == Operation::SetAcChargeTime(t),
        c matches Command::SetAcFirstTime(_, _, t) ==> operation_of(c) == Operation::SetAcFirstTime(t),
        c matches Command::SetChargePriorityTime(_, _, t) ==> operation_of(c) == Operation::SetChargePriorityTime(t),
        c matches Command::SetForcedDischargeTime(_, _, t) ==> operation_of(c) == Operation::SetForcedDischargeTime(t),
        is_register_read(operation_of(c)) <==> (c is ReadInputs || c is ReadInput || c is ReadHold || c is ReadParam),
        pause_after(command_inverter(c), operation_of(c)) is Some ==> is_register_read(operation_of(c)),
{
}

} // verus!
