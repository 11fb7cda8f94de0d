use eg4_bridge::command::{plan_command, Command, HoldBit, Operation, TimeAction};
use eg4_bridge::config::Inverter;
use eg4_bridge::Serial;

fn inverter(block_size: Option<u16>, delay_ms: Option<u64>) -> Inverter {
    Inverter {
        enabled: true,
        host: "10.0.0.1".to_string(),
        port: 8000,
        serial: Some(Serial::from_str("SN00000001").unwrap()),
        datalog: Some(Serial::from_str("DL00000001").unwrap()),
        heartbeats: None,
        publish_holdings_on_connect: None,
        read_timeout: None,
        use_tcp_nodelay: None,
        register_block_size: block_size,
        delay_ms,
        read_only: None,
        register_read_interval: None,
    }
}

#[test]
fn read_inputs_block_starts_at_block_times_forty() {
    let plan = plan_command(&Command::ReadInputs(inverter(None, None), 3));
    assert!(matches!(plan.operation, Operation::ReadInputs(120, 40)));
    assert_eq!(plan.pause_ms, None);
    assert_eq!(plan.inverter.host, "10.0.0.1");
}

#[test]
fn read_inputs_block_uses_configured_block_size() {
    let plan = plan_command(&Command::ReadInputs(inverter(Some(40), Some(250)), 0));
    assert!(matches!(plan.operation, Operation::ReadInputs(0, 40)));
    assert_eq!(plan.pause_ms, Some(250));
}

#[test]
fn register_reads_pause_when_asked() {
    let plan = plan_command(&Command::ReadHold(inverter(None, Some(100)), 21, 2));
    assert!(matches!(plan.operation, Operation::ReadHold(21, 2)));
    assert_eq!(plan.pause_ms, Some(100));
    let plan = plan_command(&Command::ReadParam(inverter(None, Some(100)), 7));
    assert!(matches!(plan.operation, Operation::ReadParam(7)));
    assert_eq!(plan.pause_ms, Some(100));
    let plan = plan_command(&Command::ReadInput(inverter(None, Some(0)), 5, 1));
    assert!(matches!(plan.operation, Operation::ReadInputs(5, 1)));
    assert_eq!(plan.pause_ms, None);
}

#[test]
fn time_reads_and_writes_do_not_pause() {
    let plan = plan_command(&Command::ReadAcChargeTime(inverter(None, Some(100)), 2));
    assert!(matches!(plan.operation, Operation::ReadTime(TimeAction::AcCharge(2))));
    assert_eq!(plan.pause_ms, None);
    let plan = plan_command(&Command::SetHold(inverter(None, Some(100)), 64, 50));
    assert!(matches!(plan.operation, Operation::SetHold(64, 50)));
    assert_eq!(plan.pause_ms, None);
    let plan = plan_command(&Command::SetAcChargeTime(inverter(None, None), 1, [1, 0, 5, 30]));
    assert!(matches!(plan.operation, Operation::SetAcChargeTime([1, 0, 5, 30])));
}

#[test]
fn switches_update_register_21() {
    let plan = plan_command(&Command::AcCharge(inverter(None, None), true));
    assert!(matches!(plan.operation, Operation::UpdateHold(21, HoldBit::AcChargeEnable, true)));
    let plan = plan_command(&Command::ChargePriority(inverter(None, None), false));
    assert!(matches!(plan.operation, Operation::UpdateHold(21, HoldBit::ChargePriorityEnable, false)));
    let plan = plan_command(&Command::ForcedDischarge(inverter(None, None), true));
    assert!(matches!(plan.operation, Operation::UpdateHold(21, HoldBit::ForcedDischargeEnable, true)));
}

#[test]
fn rate_commands_pass_their_value() {
    let plan = plan_command(&Command::ChargeRate(inverter(None, None), 80));
    assert!(matches!(plan.operation, Operation::SetChargeRate(80)));
    let plan = plan_command(&Command::DischargeCutoffSocLimit(inverter(None, None), 20));
    assert!(matches!(plan.operation, Operation::SetDischargeCutoffSocLimit(20)));
    let plan = plan_command(&Command::WriteParam(inverter(None, None), 9, 1));
    assert!(matches!(plan.operation, Operation::SetParam(9, 1)));
}
