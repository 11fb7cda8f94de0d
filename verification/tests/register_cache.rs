use eg4_bridge::register_cache::{CacheStep, ChannelData, RegisterCache};
use eg4_bridge::register_metadata::{default_scale, RegisterCatalog, RegisterGroup, RegisterMeta};
use eg4_bridge::Serial;

fn catalog() -> RegisterCatalog {
    let m = |n: u16, s: &str, t: &str| RegisterMeta {
        register_number: n,
        name: s.to_string(),
        shortname: s.to_string(),
        datatype: t.to_string(),
        unit: String::new(),
        unit_scale: default_scale(),
        description: String::new(),
    };
    RegisterCatalog::from_groups(&vec![RegisterGroup {
        register_type: "input".to_string(),
        register_map: vec![m(5, "battery_status", "uint16"), m(10, "charge_power", "int16")],
    }])
}

#[test]
fn read_after_write() {
    let mut c = RegisterCache::new();
    assert_eq!(c.getter_step(&ChannelData::ReadRegister(21)), CacheStep::Reply(0));
    assert_eq!(c.setter_step(&ChannelData::RegisterData(21, 0xbeef)), CacheStep::Stored);
    assert_eq!(c.getter_step(&ChannelData::ReadRegister(21)), CacheStep::Reply(0xbeef));
    assert_eq!(c.getter_step(&ChannelData::ReadRegister(22)), CacheStep::Reply(0));
    assert_eq!(c.getter_step(&ChannelData::RegisterData(1, 1)), CacheStep::Ignore);
    assert_eq!(c.setter_step(&ChannelData::ReadRegister(1)), CacheStep::Ignore);
    assert_eq!(c.getter_step(&ChannelData::Shutdown), CacheStep::Stop);
    assert_eq!(c.setter_step(&ChannelData::Shutdown), CacheStep::Stop);
}

#[test]
fn snapshot_absent_before_any_input() {
    let c = RegisterCache::new();
    let d = Serial::from_str("AB12345678").unwrap();
    assert!(c.input_snapshot(&d, &catalog()).is_none());
}

#[test]
fn snapshot_lists_registers_then_derived_keys() {
    let mut c = RegisterCache::new();
    let d = Serial::from_str("AB12345678").unwrap();
    c.record_input(d, 4, &[7, 0x6450, 1]);
    c.record_input(d, 10, &[0xfffe]);
    c.record_input(d, 60, &[0x0002, 0x0001]);
    c.record_input(d, 69, &[5, 1]);
    let snap = c.input_snapshot(&d, &catalog()).unwrap();
    let expected: Vec<(String, i64)> = vec![
        ("r_4".to_string(), 7),
        ("battery_status".to_string(), 0x6450),
        ("r_6".to_string(), 1),
        ("charge_power".to_string(), -2),
        ("r_60".to_string(), 2),
        ("r_61".to_string(), 1),
        ("r_69".to_string(), 5),
        ("r_70".to_string(), 1),
        ("soc".to_string(), 0x50),
        ("soh".to_string(), 0x64),
        ("fault_code".to_string(), 0x0001_0002),
        ("runtime".to_string(), 0x0001_0005),
    ];
    assert_eq!(snap, expected);
}

#[test]
fn later_batches_overwrite_and_datalogs_stay_apart() {
    let mut c = RegisterCache::new();
    let a = Serial::from_str("AB12345678").unwrap();
    let b = Serial::from_str("CD12345678").unwrap();
    c.record_input(a, 100, &[1, 2]);
    c.record_input(a, 101, &[9]);
    c.record_input(b, 100, &[3]);
    let sa = c.input_snapshot(&a, &catalog()).unwrap();
    assert_eq!(sa, vec![("r_100".to_string(), 1), ("r_101".to_string(), 9)]);
    let sb = c.input_snapshot(&b, &catalog()).unwrap();
    assert_eq!(sb, vec![("r_100".to_string(), 3)]);
}

#[test]
fn empty_batch_still_creates_the_datalog() {
    let mut c = RegisterCache::new();
    let a = Serial::from_str("AB12345678").unwrap();
    c.record_input(a, 65535, &[]);
    assert_eq!(c.input_snapshot(&a, &catalog()).unwrap(), vec![]);
    c.record_input(a, 65535, &[4]);
    assert_eq!(c.input_snapshot(&a, &catalog()).unwrap(), vec![("r_65535".to_string(), 4)]);
}
