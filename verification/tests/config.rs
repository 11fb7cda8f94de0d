use eg4_bridge::config::{
    de_serial, Config, ConfigError, ConfigWrapper, Database, HomeAssistant, Influx, Inverter, Mqtt,
    Scheduler,
};
use eg4_bridge::mqtt::{Message, MessageError};
use eg4_bridge::Serial;

fn serial(s: &str) -> Serial {
    Serial::from_str(s).unwrap()
}

fn inverter(host: &str, serial_text: &str, datalog_text: &str, enabled: bool) -> Inverter {
    Inverter {
        enabled,
        host: host.to_string(),
        port: 8000,
        serial: Some(serial(serial_text)),
        datalog: Some(serial(datalog_text)),
        heartbeats: None,
        publish_holdings_on_connect: None,
        read_timeout: None,
        use_tcp_nodelay: None,
        register_block_size: None,
        delay_ms: None,
        read_only: None,
        register_read_interval: None,
    }
}

fn mqtt(enabled: bool) -> Mqtt {
    Mqtt {
        enabled,
        host: "localhost".to_string(),
        port: Config::default_mqtt_port(),
        username: None,
        password: None,
        namespace: Config::default_mqtt_namespace(),
        homeassistant: Config::default_mqtt_homeassistant(),
        publish_individual_input: None,
    }
}

fn influx(enabled: bool, url: &str) -> Influx {
    Influx {
        enabled,
        url: url.to_string(),
        username: None,
        password: None,
        database: "lxp".to_string(),
    }
}

fn config(inverters: Vec<Inverter>) -> Config {
    Config {
        inverters,
        mqtt: mqtt(true),
        influx: influx(false, ""),
        databases: Vec::new(),
        scheduler: None,
        loglevel: Config::default_loglevel(),
        read_only: false,
        homeassistant_enabled: Config::default_homeassistant_enabled(),
        strict_data_check: Config::default_strict_data_check(),
        datalog_file: None,
        register_file: None,
        register_read_interval: Config::default_register_read_interval(),
        verbose: Config::default_verbose(),
        human_timestamps: Config::default_human_timestamps(),
        show_unknown: Config::default_show_unknown(),
        inverter_timeout: Config::default_inverter_timeout(),
    }
}

fn two_inverters() -> Vec<Inverter> {
    vec![
        inverter("10.0.0.1", "SN00000001", "DL00000001", true),
        inverter("10.0.0.2", "SN00000002", "DL00000002", false),
    ]
}

#[test]
fn inverter_getters_give_defaults() {
    let inv = inverter("10.0.0.1", "SN00000001", "DL00000001", true);
    assert!(inv.enabled());
    assert_eq!(inv.host(), "10.0.0.1");
    assert_eq!(inv.port(), 8000);
    assert!(!inv.heartbeats());
    assert!(!inv.publish_holdings_on_connect());
    assert_eq!(inv.read_timeout(), 900);
    assert!(inv.use_tcp_nodelay());
    assert_eq!(inv.register_block_size(), 40);
    assert_eq!(inv.delay_ms(), None);
    assert!(!inv.read_only());
    assert_eq!(inv.register_read_interval(), None);
    assert!(inv.serial() == Some(serial("SN00000001")));
    assert!(inv.datalog() == Some(serial("DL00000001")));
}

#[test]
fn inverter_getters_give_configured_values() {
    let mut inv = inverter("h", "SN00000001", "DL00000001", false);
    inv.heartbeats = Some(true);
    inv.publish_holdings_on_connect = Some(true);
    inv.read_timeout = Some(30);
    inv.use_tcp_nodelay = Some(false);
    inv.register_block_size = Some(40);
    inv.delay_ms = Some(250);
    inv.read_only = Some(true);
    inv.register_read_interval = Some(15);
    assert!(inv.heartbeats());
    assert!(inv.publish_holdings_on_connect());
    assert_eq!(inv.read_timeout(), 30);
    assert!(!inv.use_tcp_nodelay());
    assert_eq!(inv.delay_ms(), Some(250));
    assert!(inv.read_only());
    assert_eq!(inv.register_read_interval(), Some(15));
}

#[test]
fn defaults_match_the_documented_values() {
    assert_eq!(Config::default_mqtt_port(), 1883);
    assert_eq!(Config::default_mqtt_namespace(), "lxp");
    assert_eq!(Config::default_mqtt_homeassistant_prefix(), "homeassistant");
    assert!(Config::default_enabled());
    assert_eq!(Config::default_loglevel(), "info");
    assert!(!Config::default_homeassistant_enabled());
    assert!(!Config::default_strict_data_check());
    assert!(!Config::default_verbose());
    assert!(!Config::default_human_timestamps());
    assert!(!Config::default_show_unknown());
    assert_eq!(Config::default_register_read_interval(), 60);
    assert_eq!(Config::default_inverter_timeout(), 300);
    let ha = Config::default_mqtt_homeassistant();
    assert!(ha.enabled());
    assert_eq!(ha.prefix(), "homeassistant");
    assert!(!ha.publish_all_registers());
}

#[test]
fn mqtt_individual_input_only_when_switched_on() {
    let mut m = mqtt(true);
    assert!(!m.publish_individual_input());
    m.publish_individual_input = Some(false);
    assert!(!m.publish_individual_input());
    m.publish_individual_input = Some(true);
    assert!(m.publish_individual_input());
    assert_eq!(m.namespace(), "lxp");
    assert_eq!(m.host(), "localhost");
    assert_eq!(m.port(), 1883);
}

#[test]
fn a_sound_configuration_validates() {
    let c = config(two_inverters());
    assert!(c.validate().is_ok());
    assert!(ConfigWrapper::new(c).is_ok());
}

#[test]
fn mqtt_port_zero_is_refused() {
    let mut c = config(two_inverters());
    c.mqtt.port = 0;
    assert!(matches!(c.validate(), Err(ConfigError::MqttPortZero)));
    c.mqtt.enabled = false;
    assert!(c.validate().is_ok());
}

#[test]
fn mqtt_empty_host_is_refused() {
    let mut c = config(two_inverters());
    c.mqtt.host = String::new();
    assert!(matches!(c.validate(), Err(ConfigError::MqttHostEmpty)));
}

#[test]
fn influx_url_must_parse() {
    let mut c = config(two_inverters());
    c.influx = influx(true, "not a url");
    assert!(matches!(c.validate(), Err(ConfigError::InvalidInfluxUrl)));
    c.influx = influx(true, "http://localhost:8086");
    assert!(c.validate().is_ok());
    c.influx = influx(false, "not a url");
    assert!(c.validate().is_ok());
}

#[test]
fn influx_database_must_be_named() {
    let mut c = config(two_inverters());
    c.influx = influx(true, "http://localhost:8086");
    c.influx.database = String::new();
    assert!(matches!(c.validate(), Err(ConfigError::InfluxDatabaseEmpty)));
}

#[test]
fn enabled_database_url_must_parse() {
    let mut c = config(two_inverters());
    c.databases = vec![
        Database { enabled: false, url: "garbage".to_string() },
        Database { enabled: true, url: "postgres://user@localhost/eg4".to_string() },
    ];
    assert!(c.validate().is_ok());
    c.databases[0].enabled = true;
    assert!(matches!(c.validate(), Err(ConfigError::InvalidDatabaseUrl)));
}

#[test]
fn inverter_checks_name_the_first_bad_inverter() {
    let mut c = config(two_inverters());
    c.inverters[1].port = 0;
    assert!(c.validate().is_ok());
    c.inverters[1].enabled = true;
    assert!(matches!(c.validate(), Err(ConfigError::InverterPortZero(1))));
    c.inverters[1].port = 8000;
    c.inverters[0].host = String::new();
    assert!(matches!(c.validate(), Err(ConfigError::InverterHostEmpty)));
    c.inverters[0].host = "h".to_string();
    c.inverters[0].read_timeout = Some(0);
    assert!(matches!(c.validate(), Err(ConfigError::InverterReadTimeoutZero)));
    c.inverters[0].read_timeout = None;
    c.inverters[1].register_block_size = Some(20);
    assert!(matches!(c.validate(), Err(ConfigError::InverterRegisterBlockSize(1, 20))));
}

#[test]
fn scheduler_cron_must_not_be_empty() {
    let mut c = config(two_inverters());
    c.scheduler = Some(Scheduler { enabled: true, timesync_cron: Some(String::new()) });
    assert!(matches!(c.validate(), Err(ConfigError::SchedulerCronEmpty)));
    assert!(matches!(ConfigWrapper::new(config(two_inverters())), Ok(_)));
    c.scheduler = Some(Scheduler { enabled: false, timesync_cron: Some(String::new()) });
    assert!(c.validate().is_ok());
    c.scheduler = Some(Scheduler { enabled: true, timesync_cron: Some("0 0 * * *".to_string()) });
    assert!(c.validate().is_ok());
    assert!(c.scheduler.as_ref().unwrap().enabled());
    assert_eq!(c.scheduler.as_ref().unwrap().timesync_cron().as_deref(), Some("0 0 * * *"));
}

#[test]
fn checks_run_in_order() {
    let mut c = config(two_inverters());
    c.mqtt.port = 0;
    c.influx = influx(true, "bad");
    assert!(matches!(c.validate(), Err(ConfigError::MqttPortZero)));
    assert!(matches!(ConfigWrapper::new(c), Err(ConfigError::MqttPortZero)));
}

#[test]
fn wrapper_reads_the_settings() {
    let w = ConfigWrapper::from_config(config(two_inverters()));
    assert_eq!(w.register_read_interval(), Some(60));
    assert_eq!(w.inverter_timeout(), 300);
    assert_eq!(w.inverters().len(), 2);
    assert_eq!(w.loglevel(), "info");
    assert!(!w.read_only());
    assert!(!w.homeassistant_enabled());
    assert!(!w.strict_data_check());
    assert!(!w.verbose());
    assert!(!w.human_timestamps());
    assert!(!w.show_unknown());
    assert_eq!(w.datalog_file(), None);
    assert_eq!(w.register_file(), None);
    assert!(w.scheduler().is_none());
    assert!(w.mqtt().enabled());
    assert!(!w.influx().enabled());
    assert_eq!(w.influx().url(), "");
    assert_eq!(w.influx().database(), "lxp");
    assert!(w.influx().username().is_none());
    assert!(w.mqtt().password().is_none());
}

#[test]
fn enabled_inverters_keep_order_and_drop_disabled() {
    let mut invs = two_inverters();
    invs.push(inverter("10.0.0.3", "SN00000003", "DL00000003", true));
    let w = ConfigWrapper::from_config(config(invs));
    let enabled = w.enabled_inverters();
    assert_eq!(enabled.len(), 2);
    assert_eq!(enabled[0].host(), "10.0.0.1");
    assert_eq!(enabled[1].host(), "10.0.0.3");
}

#[test]
fn inverter_lookups() {
    let w = ConfigWrapper::from_config(config(two_inverters()));
    assert_eq!(w.inverter_with_host("10.0.0.2").unwrap().port(), 8000);
    assert!(w.inverter_with_host("10.0.0.9").is_none());
    assert!(w.enabled_inverter_with_datalog(serial("DL00000001")).is_some());
    assert!(w.enabled_inverter_with_datalog(serial("DL00000002")).is_none());
    assert!(w.enabled_inverter_with_serial(serial("SN00000001")).is_some());
    assert!(w.enabled_inverter_with_serial(serial("SN00000002")).is_none());
}

#[test]
fn set_inverters_then_read_back() {
    let mut w = ConfigWrapper::from_config(config(two_inverters()));
    w.set_inverters(vec![inverter("x", "SN00000009", "DL00000009", true)]);
    let invs = w.inverters();
    assert_eq!(invs.len(), 1);
    assert_eq!(invs[0].host(), "x");
    assert_eq!(w.loglevel(), "info");
}

#[test]
fn databases_set_and_filtered() {
    let mut w = ConfigWrapper::from_config(config(two_inverters()));
    assert!(!w.have_enabled_database());
    w.set_databases(vec![
        Database { enabled: false, url: "a".to_string() },
        Database { enabled: true, url: "b".to_string() },
    ]);
    assert!(w.have_enabled_database());
    assert_eq!(w.databases().len(), 2);
    let enabled = w.enabled_databases();
    assert_eq!(enabled.len(), 1);
    assert_eq!(enabled[0].url(), "b");
    assert!(enabled[0].enabled());
}

#[test]
fn update_serial_changes_the_first_match() {
    let mut w = ConfigWrapper::from_config(config(two_inverters()));
    assert!(w.update_inverter_serial(serial("SN00000002"), serial("SN00000007")).is_ok());
    let invs = w.inverters();
    assert!(invs[1].serial() == Some(serial("SN00000007")));
    assert!(invs[0].serial() == Some(serial("SN00000001")));
}

#[test]
fn update_serial_then_lookup_finds_it() {
    let mut w = ConfigWrapper::from_config(config(two_inverters()));
    w.update_inverter_serial(serial("SN00000001"), serial("SN00000005")).unwrap();
    let found = w.enabled_inverter_with_serial(serial("SN00000005")).unwrap();
    assert_eq!(found.host(), "10.0.0.1");
}

#[test]
fn update_serial_fails_when_unknown() {
    let mut w = ConfigWrapper::from_config(config(two_inverters()));
    let r = w.update_inverter_serial(serial("SN00000099"), serial("SN00000007"));
    assert!(matches!(r, Err(ConfigError::SerialNotFound(s)) if s == serial("SN00000099")));
    assert!(w.inverters()[0].serial() == Some(serial("SN00000001")));
}

#[test]
fn update_datalog_changes_the_first_match() {
    let mut w = ConfigWrapper::from_config(config(two_inverters()));
    assert!(w.update_inverter_datalog(serial("DL00000002"), serial("DL00000008")).is_ok());
    assert!(w.inverters()[1].datalog() == Some(serial("DL00000008")));
    let r = w.update_inverter_datalog(serial("DL00000002"), serial("DL00000008"));
    assert!(matches!(r, Err(ConfigError::DatalogNotFound(_))));
}

fn message(topic: &str) -> Message {
    Message { topic: topic.to_string(), retain: false, payload: String::new() }
}

#[test]
fn messages_for_all_reach_every_enabled_inverter() {
    let mut invs = two_inverters();
    invs.push(inverter("10.0.0.3", "SN00000003", "DL00000001", true));
    let w = ConfigWrapper::from_config(config(invs));
    let r = w.inverters_for_message(&message("all/set/ac_charge")).unwrap();
    assert_eq!(r.len(), 2);
    let r = w.inverters_for_message(&message("DL00000001/read/inputs/1")).unwrap();
    assert_eq!(r.len(), 2);
    let r = w.inverters_for_message(&message("DL00000002/read/inputs/1")).unwrap();
    assert_eq!(r.len(), 0);
}

#[test]
fn malformed_command_topics_are_refused() {
    let w = ConfigWrapper::from_config(config(two_inverters()));
    assert!(matches!(w.inverters_for_message(&message("all")), Err(MessageError::BadTopic)));
    assert!(matches!(w.inverters_for_message(&message("short/set/x")), Err(MessageError::BadSerial)));
}

#[test]
fn register_schema_files_prefer_the_configured_file() {
    let mut c = config(two_inverters());
    let w = ConfigWrapper::from_config(config(two_inverters()));
    assert_eq!(w.register_schema_files(), vec!["doc/eg4_registers.json".to_string()]);
    c.register_file = Some("my.json".to_string());
    let w = ConfigWrapper::from_config(c);
    assert_eq!(
        w.register_schema_files(),
        vec!["my.json".to_string(), "doc/eg4_registers.json".to_string()]
    );
}

#[test]
fn serials_in_the_configuration_file() {
    assert!(matches!(de_serial(""), Ok(None)));
    assert!(matches!(de_serial("AB12345678"), Ok(Some(s)) if s == serial("AB12345678")));
    assert!(de_serial("AB123").is_err());
}

#[test]
fn home_assistant_prefix_reads_back() {
    let ha = HomeAssistant { enabled: true, prefix: "ha".to_string(), publish_all_registers: true };
    assert_eq!(ha.prefix(), "ha");
    assert!(ha.publish_all_registers());
}

#[test]
fn error_messages_name_the_problem() {
    let mut c = config(vec![Inverter { register_block_size: Some(20), ..inverter("192.168.0.10", "SN00000001", "DL00000001", true) }]);
    let e = c.validate().unwrap_err();
    assert_eq!(
        e.message(&c),
        "inverter[0].register_block_size=20 is invalid; the current implementation only supports a register_block_size of 40"
    );
    c.inverters[0].register_block_size = Some(40);
    assert!(c.validate().is_ok());
    c.inverters[0].port = 0;
    assert_eq!(c.validate().unwrap_err().message(&c), "inverter[0].port must be between 1 and 65535");
    c.inverters[0].port = 8000;
    c.mqtt.port = 0;
    assert_eq!(c.validate().unwrap_err().message(&c), "mqtt.port must be between 1 and 65535");
    c.mqtt.port = 1883;
    c.inverters[0].read_timeout = Some(0);
    assert_eq!(c.validate().unwrap_err().message(&c), "config.rs:Invalid read timeout: 0");
}

#[test]
fn url_error_messages_carry_the_parse_error() {
    let mut c = config(two_inverters());
    c.influx = influx(true, "not a url");
    assert_eq!(
        c.validate().unwrap_err().message(&c),
        "config.rs:Invalid InfluxDB URL: relative URL without a base"
    );
    c.influx = influx(false, "");
    c.databases = vec![
        Database { enabled: false, url: "garbage".to_string() },
        Database { enabled: true, url: "http://".to_string() },
        Database { enabled: true, url: "relative".to_string() },
    ];
    assert_eq!(c.validate().unwrap_err().message(&c), "config.rs:Invalid database URL: empty host");
}

#[test]
fn update_failures_name_the_serial() {
    let mut w = ConfigWrapper::from_config(config(two_inverters()));
    let e = w.update_inverter_serial(serial("XX00000000"), serial("SN00000009")).unwrap_err();
    assert_eq!(e.message(&config(two_inverters())), "config.rs:Inverter with serial XX00000000 not found");
    let e = w.update_inverter_datalog(serial("XX00000001"), serial("XX00000001")).unwrap_err();
    assert_eq!(e.message(&config(two_inverters())), "config.rs:Inverter with datalog XX00000001 not found");
    assert!(w.update_inverter_datalog(serial("DL00000002"), serial("DL00000002")).is_ok());
    let after = w.inverters();
    assert_eq!(after.len(), 2);
    assert!(after[0].datalog == Some(serial("DL00000001")) && after[1].datalog == Some(serial("DL00000002")));
    assert!(after[0].serial == Some(serial("SN00000001")) && after[1].serial == Some(serial("SN00000002")));
}

#[test]
fn register_schema_prefers_the_configured_file() {
    let mut c = config(two_inverters());
    c.register_file = Some("/etc/regs.json".to_string());
    let w = ConfigWrapper::from_config(c);
    assert_eq!(w.register_schema(Some(Ok(1u32)), Ok(2)), Ok(1));
    assert_eq!(w.register_schema(Some(Err("missing".to_string())), Ok(2u32)), Ok(2));
    assert_eq!(
        w.register_schema(Some(Err("missing".to_string())), Err::<u32, String>("bad".to_string())),
        Err("Could not load register schema".to_string())
    );
    let plain = ConfigWrapper::from_config(config(two_inverters()));
    assert_eq!(plain.register_schema(Some(Ok(1u32)), Ok(2)), Ok(2));
    assert_eq!(
        plain.register_schema(None, Err::<u32, String>("bad".to_string())),
        Err("Could not load register schema".to_string())
    );
}
