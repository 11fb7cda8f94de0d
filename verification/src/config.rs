//! Bridge configuration: inverters, MQTT, InfluxDB, databases and the scheduler.
use vstd::prelude::*;

use crate::mqtt::{names_serial, topic_head, Message, MessageError, TargetInverter};
use crate::serial::Serial;
use crate::text::{copy_opt_string, copy_string, decimal, push_decimal, str_eq, string_of};

verus! {

/// Configuration of one EG4 inverter.
#[derive(Debug)]
pub struct Inverter {
    /// Whether this inverter is enabled for operation.
    pub enabled: bool,
    /// IP address or hostname of the inverter.
    pub host: String,
    /// TCP port for Modbus communication.
    pub port: u16,
    /// The inverter's serial number.
    pub serial: Option<Serial>,
    /// The datalogger's serial number.
    pub datalog: Option<Serial>,
    /// Whether to monitor heartbeats.
    pub heartbeats: Option<bool>,
    /// Whether to publish holding registers on connection.
    pub publish_holdings_on_connect: Option<bool>,
    /// Read timeout.
    pub read_timeout: Option<u64>,
    /// Whether to set TCP_NODELAY.
    pub use_tcp_nodelay: Option<bool>,
    /// Number of registers read in each block.
    pub register_block_size: Option<u16>,
    /// Delay in milliseconds between register reads.
    pub delay_ms: Option<u64>,
    /// Whether this inverter is read-only.
    pub read_only: Option<bool>,
    /// Interval in seconds between input-register reads (overrides the global one).
    pub register_read_interval: Option<u64>,
}

impl Clone for Inverter {
    fn clone(&self) -> (r: Self)
        ensures
            r == *self,
    {
        Inverter {
            enabled: self.enabled,
            host: copy_string(&self.host),
            port: self.port,
            serial: self.serial,
            datalog: self.datalog,
            heartbeats: self.heartbeats,
            publish_holdings_on_connect: self.publish_holdings_on_connect,
            read_timeout: self.read_timeout,
            use_tcp_nodelay: self.use_tcp_nodelay,
            register_block_size: self.register_block_size,
            delay_ms: self.delay_ms,
            read_only: self.read_only,
            register_read_interval: self.register_read_interval,
        }
    }
}

/// `opt` or, when it is absent, `default`.
pub open spec fn or_default<T>(opt: Option<T>, default: T) -> T {
    match opt {
        Some(v) => v,
        None => default,
    }
}

impl Inverter {
    pub open spec fn spec_read_timeout(self) -> u64 {
        or_default(self.read_timeout, 900)
    }

    pub fn enabled(&self) -> (r: bool)
        ensures
            r == self.enabled,
    {
        self.enabled
    }

    pub fn host(&self) -> (r: &str)
        ensures
            r@ == self.host@,
    {
        self.host.as_str()
    }

    pub fn port(&self) -> (r: u16)
        ensures
            r == self.port,
    {
        self.port
    }

    pub fn serial(&self) -> (r: Option<Serial>)
        ensures
            r == self.serial,
    {
        self.serial
    }

    pub fn datalog(&self) -> (r: Option<Serial>)
        ensures
            r == self.datalog,
    {
        self.datalog
    }

    /// Heartbeat monitoring; off unless configured.
    pub fn heartbeats(&self) -> (r: bool)
        ensures
            r == or_default(self.heartbeats, false),
    {
        match self.heartbeats {
            Some(v) => v,
            None => false,
        }
    }

    /// Publishing of holding registers on connect; off unless configured.
    pub fn publish_holdings_on_connect(&self) -> (r: bool)
        ensures
            r == or_default(self.publish_holdings_on_connect, false),
    {
        match self.publish_holdings_on_connect {
            Some(v) => v,
            None => false,
        }
    }

    /// The read timeout; 900 unless configured.
    pub fn read_timeout(&self) -> (r: u64)
        ensures
            r == self.spec_read_timeout(),
    {
        match self.read_timeout {
            Some(v) => v,
            None => 900,
        }
    }

    /// TCP_NODELAY; on unless configured.
    pub fn use_tcp_nodelay(&self) -> (r: bool)
        ensures
            r == or_default(self.use_tcp_nodelay, true),
    {
        match self.use_tcp_nodelay {
            Some(v) => v,
            None => true,
        }
    }

    /// The register block size; 40 unless configured.
    pub fn register_block_size(&self) -> (r: u16)
        ensures
            r == or_default(self.register_block_size, 40u16),
    {
        match self.register_block_size {
            Some(v) => v,
            None => 40,
        }
    }

    pub fn delay_ms(&self) -> (r: Option<u64>)
        ensures
            r == self.delay_ms,
    {
        self.delay_ms
    }

    /// Read-only mode of this inverter; off unless configured.
    pub fn read_only(&self) -> (r: bool)
        ensures
            r == or_default(self.read_only, false),
    {
        match self.read_only {
            Some(v) => v,
            None => false,
        }
    }

    pub fn register_read_interval(&self) -> (r: Option<u64>)
        ensures
            r == self.register_read_interval,
    {
        self.register_read_interval
    }
}

} // verus!

verus! {

/// Home Assistant discovery settings.
#[derive(Debug)]
pub struct HomeAssistant {
    pub enabled: bool,
    pub prefix: String,
    pub publish_all_registers: bool,
}

impl Clone for HomeAssistant {
    fn clone(&self) -> (r: Self)
        ensures
            r == *self,
    {
        HomeAssistant {
            enabled: self.enabled,
            prefix: copy_string(&self.prefix),
            publish_all_registers: self.publish_all_registers,
        }
    }
}

impl HomeAssistant {
    pub fn enabled(&self) -> (r: bool)
        ensures
            r == self.enabled,
    {
        self.enabled
    }

    pub fn prefix(&self) -> (r: &str)
        ensures
            r@ == self.prefix@,
    {
        self.prefix.as_str()
    }

    pub fn publish_all_registers(&self) -> (r: bool)
        ensures
            r == self.publish_all_registers,
    {
        self.publish_all_registers
    }
}

/// MQTT broker settings.
#[derive(Debug)]
pub struct Mqtt {
    pub enabled: bool,
    pub host: String,
    pub port: u16,
    pub username: Option<String>,
    pub password: Option<String>,
    pub namespace: String,
    pub homeassistant: HomeAssistant,
    pub publish_individual_input: Option<bool>,
}

impl Clone for Mqtt {
    fn clone(&self) -> (r: Self)
        ensures
            r == *self,
    {
        Mqtt {
            enabled: self.enabled,
            host: copy_string(&self.host),
            port: self.port,
            username: copy_opt_string(&self.username),
            password: copy_opt_string(&self.password),
            namespace: copy_string(&self.namespace),
            homeassistant: self.homeassistant.clone(),
            publish_individual_input: self.publish_individual_input,
        }
    }
}

impl Mqtt {
    pub fn enabled(&self) -> (r: bool)
        ensures
            r == self.enabled,
    {
        self.enabled
    }

    pub fn host(&self) -> (r: &str)
        ensures
            r@ == self.host@,
    {
        self.host.as_str()
    }

    pub fn port(&self) -> (r: u16)
        ensures
            r == self.port,
    {
        self.port
    }

    pub fn username(&self) -> (r: &Option<String>)
        ensures
            *r == self.username,
    {
        &self.username
    }

    pub fn password(&self) -> (r: &Option<String>)
        ensures
            *r == self.password,
    {
        &self.password
    }

    pub fn namespace(&self) -> (r: &str)
        ensures
            r@ == self.namespace@,
    {
        self.namespace.as_str()
    }

    pub fn homeassistant(&self) -> (r: &HomeAssistant)
        ensures
            *r == self.homeassistant,
    {
        &self.homeassistant
    }

    /// Individual input topics are published only when explicitly switched on.
    pub fn publish_individual_input(&self) -> (r: bool)
        ensures
            r == (self.publish_individual_input == Some(true)),
    {
        match self.publish_individual_input {
            Some(v) => v,
            None => false,
        }
    }
}

/// InfluxDB settings.
#[derive(Debug)]
pub struct Influx {
    pub enabled: bool,
    pub url: String,
    pub username: Option<String>,
    pub password: Option<String>,
    pub database: String,
}

impl Clone for Influx {
    fn clone(&self) -> (r: Self)
        ensures
            r == *self,
    {
        Influx {
            enabled: self.enabled,
            url: copy_string(&self.url),
            username: copy_opt_string(&self.username),
            password: copy_opt_string(&self.password),
            database: copy_string(&self.database),
        }
    }
}

impl Influx {
    pub fn enabled(&self) -> (r: bool)
        ensures
            r == self.enabled,
    {
        self.enabled
    }

    pub fn url(&self) -> (r: &str)
        ensures
            r@ == self.url@,
    {
        self.url.as_str()
    }

    pub fn username(&self) -> (r: &Option<String>)
        ensures
            *r == self.username,
    {
        &self.username
    }

    pub fn password(&self) -> (r: &Option<String>)
        ensures
            *r == self.password,
    {
        &self.password
    }

    pub fn database(&self) -> (r: &str)
        ensures
            r@ == self.database@,
    {
        self.database.as_str()
    }
}

/// A database sink.
#[derive(Debug)]
pub struct Database {
    pub enabled: bool,
    pub url: String,
}

impl Clone for Database {
    fn clone(&self) -> (r: Self)
        ensures
            r == *self,
    {
        Database { enabled: self.enabled, url: copy_string(&self.url) }
    }
}

impl Database {
    pub fn enabled(&self) -> (r: bool)
        ensures
            r == self.enabled,
    {
        self.enabled
    }

    pub fn url(&self) -> (r: &str)
        ensures
            r@ == self.url@,
    {
        self.url.as_str()
    }
}

/// Scheduler settings.
#[derive(Debug)]
pub struct Scheduler {
    pub enabled: bool,
    pub timesync_cron: Option<String>,
}

impl Clone for Scheduler {
    fn clone(&self) -> (r: Self)
        ensures
            r == *self,
    {
        Scheduler { enabled: self.enabled, timesync_cron: copy_opt_string(&self.timesync_cron) }
    }
}

impl Scheduler {
    pub fn enabled(&self) -> (r: bool)
        ensures
            r == self.enabled,
    {
        self.enabled
    }

    pub fn timesync_cron(&self) -> (r: &Option<String>)
        ensures
            *r == self.timesync_cron,
    {
        &self.timesync_cron
    }
}

/// The whole bridge configuration.
#[derive(Debug)]
pub struct Config {
    pub inverters: Vec<Inverter>,
    pub mqtt: Mqtt,
    pub influx: Influx,
    pub databases: Vec<Database>,
    pub scheduler: Option<Scheduler>,
    pub loglevel: String,
    pub read_only: bool,
    pub homeassistant_enabled: bool,
    pub strict_data_check: bool,
    pub datalog_file: Option<String>,
    pub register_file: Option<String>,
    pub register_read_interval: u64,
    pub verbose: bool,
    pub human_timestamps: bool,
    pub show_unknown: bool,
    pub inverter_timeout: u64,
}

impl Config {
    pub fn default_mqtt_port() -> (r: u16)
        ensures
            r == 1883,
    {
        1883
    }

    pub fn default_mqtt_namespace() -> (r: String)
        ensures
            r@ == "lxp"@,
    {
        string_of("lxp")
    }

    pub fn default_mqtt_homeassistant() -> (r: HomeAssistant)
        ensures
            r.enabled,
            r.prefix@ == "homeassistant"@,
            !r.publish_all_registers,
    {
        HomeAssistant {
            enabled: Self::default_enabled(),
            prefix: Self::default_mqtt_homeassistant_prefix(),
            publish_all_registers: false,
        }
    }

    pub fn default_mqtt_homeassistant_prefix() -> (r: String)
        ensures
            r@ == "homeassistant"@,
    {
        string_of("homeassistant")
    }

    pub fn default_enabled() -> (r: bool)
        ensures
            r,
    {
        true
    }

    pub fn default_loglevel() -> (r: String)
        ensures
            r@ == "info"@,
    {
        string_of("info")
    }

    pub fn default_homeassistant_enabled() -> (r: bool)
        ensures
            !r,
    {
        false
    }

    pub fn default_strict_data_check() -> (r: bool)
        ensures
            !r,
    {
        false
    }

    pub fn default_verbose() -> (r: bool)
        ensures
            !r,
    {
        false
    }

    pub fn default_human_timestamps() -> (r: bool)
        ensures
            !r,
    {
        false
    }

    pub fn default_show_unknown() -> (r: bool)
        ensures
            !r,
    {
        false
    }

    pub fn default_register_read_interval() -> (r: u64)
        ensures
            r == 60,
    {
        60
    }

    pub fn default_inverter_timeout() -> (r: u64)
        ensures
            r == 300,
    {
        300
    }
}

} // verus!

verus! {

/// Why a configuration was refused, or a runtime update could not be made.
#[derive(Clone, Copy, Debug)]
pub enum ConfigError {
    /// MQTT is enabled with port 0.
    MqttPortZero,
    /// MQTT is enabled with an empty host.
    MqttHostEmpty,
    /// InfluxDB is enabled and its URL does not parse.
    InvalidInfluxUrl,
    /// InfluxDB is enabled with an empty database name.
    InfluxDatabaseEmpty,
    /// An enabled database has a URL that does not parse.
    InvalidDatabaseUrl,
    /// The enabled inverter at this index has port 0.
    InverterPortZero(usize),
    /// An enabled inverter has an empty host.
    InverterHostEmpty,
    /// An enabled inverter has a read timeout of 0.
    InverterReadTimeoutZero,
    /// The enabled inverter at this index asks for a block size other than 40.
    InverterRegisterBlockSize(usize, u16),
    /// The scheduler is enabled with an empty cron expression.
    SchedulerCronEmpty,
    /// No inverter has this serial number.
    SerialNotFound(Serial),
    /// No inverter has this datalog serial number.
    DatalogNotFound(Serial),
}

/// What `url::Url::parse` makes of the text: none when it parses as an absolute URL, else
/// the text of the `url::ParseError` it fails with.
pub uninterp spec fn url_parse_error(input: Seq<char>) -> Option<Seq<char>>;

/// Whether `url::Url::parse` accepts the text as an absolute URL.
pub open spec fn url_parses(input: Seq<char>) -> bool {
    url_parse_error(input) is None
}

/// `url::Url::parse`, reduced to its error: `None` when the text parses, else the error's
/// text (`ParseError`'s `Display`). Claimed only that this outcome is a function of the
/// input text; which texts parse, and the error of those that do not, are left unsaid.
#[verifier::external_body]
fn url_error(input: &str) -> (r: Option<String>)
    ensures
        match r {
            Some(e) => url_parse_error(input@) == Some(e@),
            None => url_parse_error(input@) is None,
        },
{
    match url::Url::parse(input) {
        Ok(_) => None,
        Err(e) => Some(e.to_string()),
    }
}

/// What is wrong with the inverter at `index`, checked in the order the bridge checks it.
pub open spec fn inverter_problem(inv: Inverter, index: int) -> Option<ConfigError> {
    if !inv.enabled {
        None
    } else if inv.port == 0 {
        Some(ConfigError::InverterPortZero(index as usize))
    } else if inv.host@.len() == 0 {
        Some(ConfigError::InverterHostEmpty)
    } else if inv.spec_read_timeout() == 0 {
        Some(ConfigError::InverterReadTimeoutZero)
    } else {
        match inv.register_block_size {
            Some(size) => if size != 40 {
                Some(ConfigError::InverterRegisterBlockSize(index as usize, size))
            } else {
                None
            },
            None => None,
        }
    }
}

/// The problem of the first inverter, at or after `from`, that has one.
pub open spec fn first_inverter_problem(invs: Seq<Inverter>, from: int) -> Option<ConfigError>
    decreases invs.len() - from,
{
    if from < 0 || from >= invs.len() {
        None
    } else {
        match inverter_problem(invs[from], from) {
            Some(e) => Some(e),
            None => first_inverter_problem(invs, from + 1),
        }
    }
}

/// Whether some enabled database has a URL that was found not to parse.
pub open spec fn some_bad_database(dbs: Seq<Database>, url_ok: Seq<bool>) -> bool {
    exists|j: int| 0 <= j < dbs.len() && #[trigger] dbs[j].enabled && !url_ok[j]
}

/// The outcome of validating `cfg`, given whether the InfluxDB URL parses and whether each
/// database URL parses: the first failing check, in the bridge's order, or success.
pub open spec fn validation_outcome(cfg: Config, influx_url_ok: bool, database_url_ok: Seq<bool>) -> Result<
    (),
    ConfigError,
> {
    if cfg.mqtt.enabled && cfg.mqtt.port == 0 {
        Err(ConfigError::MqttPortZero)
    } else if cfg.mqtt.enabled && cfg.mqtt.host@.len() == 0 {
        Err(ConfigError::MqttHostEmpty)
    } else if cfg.influx.enabled && !influx_url_ok {
        Err(ConfigError::InvalidInfluxUrl)
    } else if cfg.influx.enabled && cfg.influx.database@.len() == 0 {
        Err(ConfigError::InfluxDatabaseEmpty)
    } else if some_bad_database(cfg.databases@, database_url_ok) {
        Err(ConfigError::InvalidDatabaseUrl)
    } else if first_inverter_problem(cfg.inverters@, 0) is Some {
        Err(first_inverter_problem(cfg.inverters@, 0)->0)
    } else if cfg.scheduler matches Some(s) && s.enabled && (s.timesync_cron matches Some(c)
        && c@.len() == 0) {
        Err(ConfigError::SchedulerCronEmpty)
    } else {
        Ok(())
    }
}

/// Whether the URL of each database parses.
pub open spec fn database_urls_parse(dbs: Seq<Database>) -> Seq<bool> {
    Seq::new(dbs.len(), |j: int| url_parses(dbs[j].url@))
}

fn inverter_problem_exec(inv: &Inverter, index: usize) -> (r: Option<ConfigError>)
    ensures
        r == inverter_problem(*inv, index as int),
{
    if !inv.enabled {
        None
    } else if inv.port == 0 {
        Some(ConfigError::InverterPortZero(index))
    } else if inv.host.as_str().is_empty() {
        Some(ConfigError::InverterHostEmpty)
    } else if inv.read_timeout() == 0 {
        Some(ConfigError::InverterReadTimeoutZero)
    } else {
        match inv.register_block_size {
            Some(size) => if size != 40 {
                Some(ConfigError::InverterRegisterBlockSize(index, size))
            } else {
                None
            },
            None => None,
        }
    }
}

impl Config {
    /// Checks the configuration, given whether the InfluxDB URL and each database URL parse.
    #[verifier::loop_isolation(false)]
    pub fn validate_with(&self, influx_url_ok: bool, database_url_ok: &Vec<bool>) -> (r: Result<
        (),
        ConfigError,
    >)
        requires
            database_url_ok.len() == self.databases.len(),
        ensures
            r == validation_outcome(*self, influx_url_ok, database_url_ok@),
    {
        if self.mqtt.enabled {
            if self.mqtt.port == 0 {
                return Err(ConfigError::MqttPortZero);
            }
            if self.mqtt.host.as_str().is_empty() {
                return Err(ConfigError::MqttHostEmpty);
            }
        }
        if self.influx.enabled {
            if !influx_url_ok {
                return Err(ConfigError::InvalidInfluxUrl);
            }
            if self.influx.database.as_str().is_empty() {
                return Err(ConfigError::InfluxDatabaseEmpty);
            }
        }
        let mut j: usize = 0;
        while j < self.databases.len()
            invariant
                j <= self.databases.len(),
                database_url_ok.len() == self.databases.len(),
                forall|k: int| 0 <= k < j ==> !(#[trigger] self.databases@[k].enabled && !database_url_ok@[k]),
            decreases self.databases.len() - j,
        {
            if self.databases[j].enabled && !database_url_ok[j] {
                assert(self.databases@[j as int].enabled && !database_url_ok@[j as int]);
                return Err(ConfigError::InvalidDatabaseUrl);
            }
            j = j + 1;
        }
        let mut i: usize = 0;
        while i < self.inverters.len()
            invariant
                i <= self.inverters.len(),
                first_inverter_problem(self.inverters@, 0) == first_inverter_problem(self.inverters@, i as int),
            decreases self.inverters.len() - i,
        {
            match inverter_problem_exec(&self.inverters[i], i) {
                Some(e) => {
                    assert(first_inverter_problem(self.inverters@, i as int) == Some(e));
                    return Err(e);
                },
                None => {},
            }
            i = i + 1;
        }
        match &self.scheduler {
            Some(s) => {
                if s.enabled {
                    match &s.timesync_cron {
                        Some(c) => {
                            if c.as_str().is_empty() {
                                return Err(ConfigError::SchedulerCronEmpty);
                            }
                        },
                        None => {},
                    }
                }
            },
            None => {},
        }
        Ok(())
    }

    /// Checks the configuration: MQTT, InfluxDB, database URLs, enabled inverters and the
    /// scheduler, in that order; the first failing check gives the error.
    pub fn validate(&self) -> (r: Result<(), ConfigError>)
        ensures
            r == validation_outcome(
                *self,
                url_parses(self.influx.url@),
                database_urls_parse(self.databases@),
            ),
    {
        let influx_ok = if self.influx.enabled {
            url_error(self.influx.url.as_str()).is_none()
        } else {
            true
        };
        let mut db_ok: Vec<bool> = Vec::new();
        let mut j: usize = 0;
        while j < self.databases.len()
            invariant
                j <= self.databases.len(),
                db_ok.len() == j,
                forall|k: int|
                    0 <= k < j ==> (#[trigger] db_ok@[k]) == (self.databases@[k].enabled ==> url_parses(
                        self.databases@[k].url@,
                    )),
            decreases self.databases.len() - j,
        {
            let ok = if self.databases[j].enabled {
                url_error(self.databases[j].url.as_str()).is_none()
            } else {
                true
            };
            db_ok.push(ok);
            j = j + 1;
        }
        let r = self.validate_with(influx_ok, &db_ok);
        proof {
            let full = database_urls_parse(self.databases@);
            assert(some_bad_database(self.databases@, db_ok@) == some_bad_database(self.databases@, full)) by {
                if some_bad_database(self.databases@, full) {
                    let k = choose|k: int| 0 <= k < self.databases@.len() && #[trigger] self.databases@[k].enabled && !full[k];
                    assert(!db_ok@[k]);
                }
                if some_bad_database(self.databases@, db_ok@) {
                    let k = choose|k: int| 0 <= k < self.databases@.len() && #[trigger] self.databases@[k].enabled && !db_ok@[k];
                    assert(!full[k]);
                }
            }
        }
        r
    }
}

} // verus!

verus! {

/// The index of the first element at or after `from` that satisfies `p`.
pub open spec fn first_index_from<A>(s: Seq<A>, p: spec_fn(A) -> bool, from: int) -> Option<int>
    decreases s.len() - from,
{
    if from < 0 || from >= s.len() {
        None
    } else if p(s[from]) {
        Some(from)
    } else {
        first_index_from(s, p, from + 1)
    }
}

/// The index of the first element of `s` that satisfies `p`.
pub open spec fn first_index<A>(s: Seq<A>, p: spec_fn(A) -> bool) -> Option<int> {
    first_index_from(s, p, 0)
}

/// The first element of `s` that satisfies `p`.
pub open spec fn first_where<A>(s: Seq<A>, p: spec_fn(A) -> bool) -> Option<A> {
    match first_index(s, p) {
        Some(i) => Some(s[i]),
        None => None,
    }
}

/// `first_index_from` finds the first satisfying element, and nothing before it satisfies `p`.
pub proof fn lemma_first_index_from<A>(s: Seq<A>, p: spec_fn(A) -> bool, from: int)
    requires
        0 <= from,
    ensures
        first_index_from(s, p, from) matches Some(i) ==> from <= i < s.len() && p(s[i]) && forall|
            j: int,
        | from <= j < i ==> !p(#[trigger] s[j]),
        first_index_from(s, p, from) is None ==> forall|j: int|
            from <= j < s.len() ==> !p(#[trigger] s[j]),
    decreases s.len() - from,
{
    if from < s.len() && !p(s[from]) {
        lemma_first_index_from(s, p, from + 1);
    }
}

pub open spec fn is_enabled_inverter(i: Inverter) -> bool {
    i.enabled
}

pub open spec fn is_enabled_database(d: Database) -> bool {
    d.enabled
}

/// The inverters that are enabled, in order.
pub open spec fn enabled_inverters_of(invs: Seq<Inverter>) -> Seq<Inverter> {
    invs.filter(|i: Inverter| is_enabled_inverter(i))
}

/// The databases that are enabled, in order.
pub open spec fn enabled_databases_of(dbs: Seq<Database>) -> Seq<Database> {
    dbs.filter(|d: Database| is_enabled_database(d))
}

pub open spec fn has_host(h: Seq<char>) -> spec_fn(Inverter) -> bool {
    |i: Inverter| i.host@ == h
}

pub open spec fn has_datalog(d: Serial) -> spec_fn(Inverter) -> bool {
    |i: Inverter| i.datalog == Some(d)
}

pub open spec fn has_serial(s: Serial) -> spec_fn(Inverter) -> bool {
    |i: Inverter| i.serial == Some(s)
}

fn opt_serial_is(o: Option<Serial>, s: Serial) -> (r: bool)
    ensures
        r == (o == Some(s)),
{
    match o {
        Some(x) => x == s,
        None => false,
    }
}

fn copy_inverters(v: &Vec<Inverter>) -> (r: Vec<Inverter>)
    ensures
        r@ == v@,
{
    let mut r: Vec<Inverter> = Vec::new();
    let mut i: usize = 0;
    while i < v.len()
        invariant
            i <= v.len(),
            r@ == v@.take(i as int),
        decreases v.len() - i,
    {
        r.push(v[i].clone());
        assert(v@.take(i + 1) == v@.take(i as int).push(v@[i as int]));
        i = i + 1;
    }
    assert(v@.take(v.len() as int) == v@);
    r
}

fn copy_databases(v: &Vec<Database>) -> (r: Vec<Database>)
    ensures
        r@ == v@,
{
    let mut r: Vec<Database> = Vec::new();
    let mut i: usize = 0;
    while i < v.len()
        invariant
            i <= v.len(),
            r@ == v@.take(i as int),
        decreases v.len() - i,
    {
        r.push(v[i].clone());
        assert(v@.take(i + 1) == v@.take(i as int).push(v@[i as int]));
        i = i + 1;
    }
    assert(v@.take(v.len() as int) == v@);
    r
}

/// What an inverter is looked up by.
enum Lookup<'a> {
    Host(&'a str),
    Serial(Serial),
    Datalog(Serial),
}

spec fn lookup_pred(k: Lookup) -> spec_fn(Inverter) -> bool {
    match k {
        Lookup::Host(h) => has_host(h@),
        Lookup::Serial(s) => has_serial(s),
        Lookup::Datalog(d) => has_datalog(d),
    }
}

/// The first inverter of `v` that matches `key`.
fn find_inverter(v: &Vec<Inverter>, key: Lookup) -> (r: Option<Inverter>)
    ensures
        r == first_where(v@, lookup_pred(key)),
{
    let ghost p = lookup_pred(key);
    let mut i: usize = 0;
    while i < v.len()
        invariant
            i <= v.len(),
            p == lookup_pred(key),
            first_index(v@, p) == first_index_from(v@, p, i as int),
        decreases v.len() - i,
    {
        let hit = match key {
            Lookup::Host(h) => str_eq(v[i].host.as_str(), h),
            Lookup::Serial(s) => opt_serial_is(v[i].serial, s),
            Lookup::Datalog(d) => opt_serial_is(v[i].datalog, d),
        };
        if hit {
            assert(first_index_from(v@, p, i as int) == Some(i as int));
            return Some(v[i].clone());
        }
        i = i + 1;
    }
    None
}

} // verus!

verus! {

/// The inverters of `v` that are enabled, in order.
fn filter_enabled_inverters(v: &Vec<Inverter>) -> (r: Vec<Inverter>)
    ensures
        r@ == enabled_inverters_of(v@),
{
    let mut r: Vec<Inverter> = Vec::new();
    let mut i: usize = 0;
    while i < v.len()
        invariant
            i <= v.len(),
            r@ == enabled_inverters_of(v@.take(i as int)),
        decreases v.len() - i,
    {
        proof {
            reveal_with_fuel(Seq::filter, 1);
            assert(v@.take(i + 1).drop_last() == v@.take(i as int));
        }
        if v[i].enabled {
            r.push(v[i].clone());
        }
        i = i + 1;
    }
    assert(v@.take(v.len() as int) == v@);
    r
}

/// The databases of `v` that are enabled, in order.
fn filter_enabled_databases(v: &Vec<Database>) -> (r: Vec<Database>)
    ensures
        r@ == enabled_databases_of(v@),
{
    let mut r: Vec<Database> = Vec::new();
    let mut i: usize = 0;
    while i < v.len()
        invariant
            i <= v.len(),
            r@ == enabled_databases_of(v@.take(i as int)),
        decreases v.len() - i,
    {
        proof {
            reveal_with_fuel(Seq::filter, 1);
            assert(v@.take(i + 1).drop_last() == v@.take(i as int));
        }
        if v[i].enabled {
            r.push(v[i].clone());
        }
        i = i + 1;
    }
    assert(v@.take(v.len() as int) == v@);
    r
}

/// The running configuration, which the bridge reads and updates at runtime.
pub struct ConfigWrapper {
    config: Config,
}

impl View for ConfigWrapper {
    type V = Config;

    closed spec fn view(&self) -> Config {
        self.config
    }
}

/// `cfg` with its inverters replaced.
pub open spec fn with_inverters(cfg: Config, inverters: Vec<Inverter>) -> Config {
    Config { inverters, ..cfg }
}

/// `cfg` with its databases replaced.
pub open spec fn with_databases(cfg: Config, databases: Vec<Database>) -> Config {
    Config { databases, ..cfg }
}

impl ConfigWrapper {
    pub fn from_config(config: Config) -> (r: Self)
        ensures
            r@ == config,
    {
        ConfigWrapper { config }
    }

    /// The global input-register read interval.
    pub fn register_read_interval(&self) -> (r: Option<u64>)
        ensures
            r == Some(self@.register_read_interval),
    {
        Some(self.config.register_read_interval)
    }

    pub fn inverter_timeout(&self) -> (r: u64)
        ensures
            r == self@.inverter_timeout,
    {
        self.config.inverter_timeout
    }

    pub fn inverters(&self) -> (r: Vec<Inverter>)
        ensures
            r@ == self@.inverters@,
    {
        copy_inverters(&self.config.inverters)
    }

    pub fn set_inverters(&mut self, new: Vec<Inverter>)
        ensures
            final(self)@ == with_inverters(old(self)@, new),
    {
        self.config.inverters = new;
    }

    /// The enabled inverters, in configuration order.
    pub fn enabled_inverters(&self) -> (r: Vec<Inverter>)
        ensures
            r@ == enabled_inverters_of(self@.inverters@),
    {
        filter_enabled_inverters(&self.config.inverters)
    }

    /// The first inverter (enabled or not) with this host.
    pub fn inverter_with_host(&self, host: &str) -> (r: Option<Inverter>)
        ensures
            r == first_where(self@.inverters@, has_host(host@)),
    {
        find_inverter(&self.config.inverters, Lookup::Host(host))
    }

    /// The first enabled inverter whose datalog serial is `datalog`.
    pub fn enabled_inverter_with_datalog(&self, datalog: Serial) -> (r: Option<Inverter>)
        ensures
            r == first_where(enabled_inverters_of(self@.inverters@), has_datalog(datalog)),
    {
        let enabled = self.enabled_inverters();
        find_inverter(&enabled, Lookup::Datalog(datalog))
    }

    /// The first enabled inverter whose serial is `serial`.
    pub fn enabled_inverter_with_serial(&self, serial: Serial) -> (r: Option<Inverter>)
        ensures
            r == first_where(enabled_inverters_of(self@.inverters@), has_serial(serial)),
    {
        let enabled = self.enabled_inverters();
        find_inverter(&enabled, Lookup::Serial(serial))
    }

    pub fn mqtt(&self) -> (r: Mqtt)
        ensures
            r == self@.mqtt,
    {
        self.config.mqtt.clone()
    }

    pub fn influx(&self) -> (r: Influx)
        ensures
            r == self@.influx,
    {
        self.config.influx.clone()
    }

    pub fn databases(&self) -> (r: Vec<Database>)
        ensures
            r@ == self@.databases@,
    {
        copy_databases(&self.config.databases)
    }

    pub fn set_databases(&mut self, new: Vec<Database>)
        ensures
            final(self)@ == with_databases(old(self)@, new),
    {
        self.config.databases = new;
    }

    /// Whether at least one database is enabled.
    pub fn have_enabled_database(&self) -> (r: bool)
        ensures
            r == (enabled_databases_of(self@.databases@).len() > 0),
    {
        self.enabled_databases().len() > 0
    }

    /// The enabled databases, in configuration order.
    pub fn enabled_databases(&self) -> (r: Vec<Database>)
        ensures
            r@ == enabled_databases_of(self@.databases@),
    {
        filter_enabled_databases(&self.config.databases)
    }

    pub fn scheduler(&self) -> (r: Option<Scheduler>)
        ensures
            r == self@.scheduler,
    {
        match &self.config.scheduler {
            Some(s) => Some(s.clone()),
            None => None,
        }
    }

    pub fn loglevel(&self) -> (r: String)
        ensures
            r == self@.loglevel,
    {
        copy_string(&self.config.loglevel)
    }

    /// The global read-only flag.
    pub fn read_only(&self) -> (r: bool)
        ensures
            r == self@.read_only,
    {
        self.config.read_only
    }

    pub fn homeassistant_enabled(&self) -> (r: bool)
        ensures
            r == self@.homeassistant_enabled,
    {
        self.config.homeassistant_enabled
    }

    pub fn datalog_file(&self) -> (r: Option<String>)
        ensures
            r == self@.datalog_file,
    {
        copy_opt_string(&self.config.datalog_file)
    }

    pub fn strict_data_check(&self) -> (r: bool)
        ensures
            r == self@.strict_data_check,
    {
        self.config.strict_data_check
    }

    pub fn register_file(&self) -> (r: Option<String>)
        ensures
            r == self@.register_file,
    {
        copy_opt_string(&self.config.register_file)
    }

    pub fn verbose(&self) -> (r: bool)
        ensures
            r == self@.verbose,
    {
        self.config.verbose
    }

    pub fn human_timestamps(&self) -> (r: bool)
        ensures
            r == self@.human_timestamps,
    {
        self.config.human_timestamps
    }

    pub fn show_unknown(&self) -> (r: bool)
        ensures
            r == self@.show_unknown,
    {
        self.config.show_unknown
    }
}

} // verus!

verus! {

/// The inverter with its serial number set.
pub open spec fn with_serial(inv: Inverter, serial: Serial) -> Inverter {
    Inverter { serial: Some(serial), ..inv }
}

/// The inverter with its datalog serial number set.
pub open spec fn with_datalog(inv: Inverter, datalog: Serial) -> Inverter {
    Inverter { datalog: Some(datalog), ..inv }
}

impl ConfigWrapper {
    /// Sets the serial of the first inverter whose serial is `old_serial` to `new_serial`;
    /// fails, changing nothing, when no inverter has that serial.
    pub fn update_inverter_serial(&mut self, old_serial: Serial, new_serial: Serial) -> (r: Result<
        (),
        ConfigError,
    >)
        ensures
            final(self)@ == with_inverters(old(self)@, final(self)@.inverters),
            match first_index(old(self)@.inverters@, has_serial(old_serial)) {
                Some(i) => r is Ok && final(self)@.inverters@ == old(self)@.inverters@.update(
                    i,
                    with_serial(old(self)@.inverters@[i], new_serial),
                ),
                None => r == Err::<(), ConfigError>(ConfigError::SerialNotFound(old_serial))
                    && final(self)@ == old(self)@,
            },
    {
        let ghost p = has_serial(old_serial);
        let mut i: usize = 0;
        while i < self.config.inverters.len()
            invariant
                i <= self.config.inverters.len(),
                self.config == old(self).config,
                p == has_serial(old_serial),
                first_index(self.config.inverters@, p) == first_index_from(self.config.inverters@, p, i as int),
            decreases self.config.inverters.len() - i,
        {
            if opt_serial_is(self.config.inverters[i].serial, old_serial) {
                assert(first_index_from(self.config.inverters@, p, i as int) == Some(i as int));
                let mut inv = self.config.inverters[i].clone();
                inv.serial = Some(new_serial);
                self.config.inverters.set(i, inv);
                return Ok(());
            }
            i = i + 1;
        }
        Err(ConfigError::SerialNotFound(old_serial))
    }

    /// Sets the datalog of the first inverter whose datalog is `old_datalog` to
    /// `new_datalog`; fails, changing nothing, when no inverter has that datalog.
    pub fn update_inverter_datalog(&mut self, old_datalog: Serial, new_datalog: Serial) -> (r: Result<
        (),
        ConfigError,
    >)
        ensures
            final(self)@ == with_inverters(old(self)@, final(self)@.inverters),
            match first_index(old(self)@.inverters@, has_datalog(old_datalog)) {
                Some(i) => r is Ok && final(self)@.inverters@ == old(self)@.inverters@.update(
                    i,
                    with_datalog(old(self)@.inverters@[i], new_datalog),
                ),
                None => r == Err::<(), ConfigError>(ConfigError::DatalogNotFound(old_datalog))
                    && final(self)@ == old(self)@,
            },
    {
        let ghost p = has_datalog(old_datalog);
        let mut i: usize = 0;
        while i < self.config.inverters.len()
            invariant
                i <= self.config.inverters.len(),
                self.config == old(self).config,
                p == has_datalog(old_datalog),
                first_index(self.config.inverters@, p) == first_index_from(self.config.inverters@, p, i as int),
            decreases self.config.inverters.len() - i,
        {
            if opt_serial_is(self.config.inverters[i].datalog, old_datalog) {
                assert(first_index_from(self.config.inverters@, p, i as int) == Some(i as int));
                let mut inv = self.config.inverters[i].clone();
                inv.datalog = Some(new_datalog);
                self.config.inverters.set(i, inv);
                return Ok(());
            }
            i = i + 1;
        }
        Err(ConfigError::DatalogNotFound(old_datalog))
    }
}

} // verus!

verus! {

/// Whether the inverter's datalog serial is the one `head` names.
pub open spec fn datalog_named(head: Seq<char>) -> spec_fn(Inverter) -> bool {
    |i: Inverter| i.datalog matches Some(d) && names_serial(head, d)
}

/// The inverters of `v` whose datalog is `d`, in order.
fn filter_datalog(v: &Vec<Inverter>, d: Serial, Ghost(head): Ghost<Seq<char>>) -> (r: Vec<Inverter>)
    requires
        names_serial(head, d),
    ensures
        r@ == v@.filter(datalog_named(head)),
{
    let mut r: Vec<Inverter> = Vec::new();
    let mut i: usize = 0;
    while i < v.len()
        invariant
            i <= v.len(),
            names_serial(head, d),
            r@ == v@.take(i as int).filter(datalog_named(head)),
        decreases v.len() - i,
    {
        proof {
            reveal_with_fuel(Seq::filter, 1);
            assert(v@.take(i + 1).drop_last() == v@.take(i as int));
            broadcast use vstd::array::group_array_axioms;
            if let Some(x) = v@[i as int].datalog {
                if names_serial(head, x) {
                    assert(x.bytes =~= d.bytes);
                }
            }
        }
        if opt_serial_is(v[i].datalog, d) {
            r.push(v[i].clone());
        }
        i = i + 1;
    }
    assert(v@.take(v.len() as int) == v@);
    r
}

impl ConfigWrapper {
    /// The enabled inverters a command message is addressed to: all of them for "all",
    /// else those whose datalog serial is the one the topic names.
    pub fn inverters_for_message(&self, message: &Message) -> (r: Result<Vec<Inverter>, MessageError>)
        ensures
            match topic_head(message.topic@) {
                None => r == Err::<Vec<Inverter>, MessageError>(MessageError::BadTopic),
                Some(h) => if h == "all"@ {
                    r matches Ok(v) && v@ == enabled_inverters_of(self@.inverters@)
                } else if vstd::utf8::encode_utf8(h).len() == 10 {
                    r matches Ok(v) && v@ == enabled_inverters_of(self@.inverters@).filter(
                        datalog_named(h),
                    )
                } else {
                    r == Err::<Vec<Inverter>, MessageError>(MessageError::BadSerial)
                },
            },
    {
        let target = message.cmd_target()?;
        let inverters = self.enabled_inverters();
        match target {
            TargetInverter::All => Ok(inverters),
            TargetInverter::Serial(datalog) => {
                let ghost head = topic_head(message.topic@)->0;
                Ok(filter_datalog(&inverters, datalog, Ghost(head)))
            },
        }
    }
}

} // verus!

verus! {

impl ConfigWrapper {
    /// The register schema files to try, in order: the configured one, if any, then the
    /// bundled default.
    pub fn register_schema_files(&self) -> (r: Vec<String>)
        ensures
            match self@.register_file {
                Some(f) => r@.len() == 2 && r@[0] == f && r@[1]@ == "doc/eg4_registers.json"@,
                None => r@.len() == 1 && r@[0]@ == "doc/eg4_registers.json"@,
            },
    {
        let mut r: Vec<String> = Vec::new();
        match &self.config.register_file {
            Some(f) => r.push(copy_string(f)),
            None => {},
        }
        r.push(string_of("doc/eg4_registers.json"));
        r
    }

    /// The register schema, from the outcomes of loading the files of
    /// `register_schema_files`: `configured` for the configured file (ignored when none is
    /// configured) and `default` for the bundled one. The configured file's schema when it
    /// loaded, else the default's; when neither loaded, the error "Could not load register
    /// schema" (on which the bridge stops).
    pub fn register_schema<T>(&self, configured: Option<Result<T, String>>, default: Result<T, String>) -> (r: Result<
        T,
        String,
    >)
        ensures
            match (self@.register_file, configured) {
                (Some(_), Some(Ok(p))) => r == Ok::<T, String>(p),
                _ => match default {
                    Ok(p) => r == Ok::<T, String>(p),
                    Err(_) => r matches Err(m) && m@ == "Could not load register schema"@,
                },
            },
    {
        if self.config.register_file.is_some() {
            match configured {
                Some(Ok(p)) => {
                    return Ok(p);
                },
                _ => {},
            }
        }
        match default {
            Ok(p) => Ok(p),
            Err(_) => Err(string_of("Could not load register schema")),
        }
    }
}

} // verus!

verus! {

/// Reads an optional serial number as the configuration file writes it: empty text for
/// none, else exactly ten bytes.
pub fn de_serial(s: &str) -> (r: Result<Option<Serial>, crate::serial::SerialError>)
    ensures
        s@.len() == 0 ==> r == Ok::<Option<Serial>, crate::serial::SerialError>(None),
        s@.len() != 0 ==> match r {
            Ok(Some(serial)) => serial.bytes@ == vstd::utf8::encode_utf8(s@),
            Ok(None) => false,
            Err(e) => vstd::utf8::encode_utf8(s@).len() != 10,
        },
        s@.len() != 0 ==> (r is Ok <==> vstd::utf8::encode_utf8(s@).len() == 10),
{
    if s.is_empty() {
        Ok(None)
    } else {
        match Serial::from_str(s) {
            Ok(serial) => Ok(Some(serial)),
            Err(e) => Err(e),
        }
    }
}

/// Every element of a filtered sequence comes from the sequence.
proof fn lemma_filter_from<A>(s: Seq<A>, p: spec_fn(A) -> bool)
    ensures
        forall|i: int| 0 <= i < s.filter(p).len() ==> s.contains(#[trigger] s.filter(p)[i]),
    decreases s.len(),
{
    reveal(Seq::filter);
    if s.len() > 0 {
        let prev = s.drop_last().filter(p);
        lemma_filter_from(s.drop_last(), p);
        let out = s.filter(p);
        assert forall|i: int| 0 <= i < out.len() implies s.contains(#[trigger] out[i]) by {
            if i < prev.len() {
                assert(out[i] == prev[i]);
                let k = choose|k: int| 0 <= k < s.drop_last().len() && s.drop_last()[k] == prev[i];
                assert(s[k] == out[i]);
            } else {
                assert(out[i] == s.last());
                assert(s[s.len() - 1] == out[i]);
            }
        }
    }
}

/// Law: writing the inverters and reading them back gives what was written, and leaves
/// every other setting as it was.
pub proof fn inverters_read_after_write(cfg: Config, new: Vec<Inverter>)
    ensures
        with_inverters(cfg, new).inverters@ == new@,
        with_inverters(cfg, new).mqtt == cfg.mqtt,
        with_inverters(cfg, new).databases == cfg.databases,
        with_inverters(cfg, new).read_only == cfg.read_only,
{
}

/// Law: the enabled inverters are exactly the enabled ones among all inverters: each of
/// them is enabled and configured, and each enabled inverter is among them.
pub proof fn enabled_inverters_are_the_enabled_ones(invs: Seq<Inverter>)
    ensures
        enabled_inverters_of(invs).len() <= invs.len(),
        forall|i: int| 0 <= i < enabled_inverters_of(invs).len() ==> (#[trigger] enabled_inverters_of(invs)[i]).enabled
            && invs.contains(enabled_inverters_of(invs)[i]),
        forall|i: int| 0 <= i < invs.len() && (#[trigger] invs[i]).enabled ==> enabled_inverters_of(invs).contains(invs[i]),
{
    let p = |i: Inverter| is_enabled_inverter(i);
    broadcast use vstd::seq_lib::group_filter_ensures;

    lemma_filter_from(invs, p);
    assert forall|i: int| 0 <= i < enabled_inverters_of(invs).len() implies (#[trigger] enabled_inverters_of(invs)[i]).enabled by {
        invs.lemma_filter_pred(p, i);
    }
    assert forall|i: int| 0 <= i < invs.len() && (#[trigger] invs[i]).enabled implies enabled_inverters_of(invs).contains(invs[i]) by {
        assert(p(invs[i]));
        invs.lemma_filter_contains(p, i);
    }
}

/// Law: when the serial update finds its inverter and that inverter is enabled, a lookup of
/// enabled inverters by the new serial then finds an inverter with that serial.
pub proof fn serial_update_then_lookup(invs: Seq<Inverter>, old: Serial, new: Serial)
    requires
        first_index(invs, has_serial(old)) matches Some(i) && invs[i].enabled,
    ensures
        ({
            let i = first_index(invs, has_serial(old))->0;
            let updated = invs.update(i, with_serial(invs[i], new));
            first_where(enabled_inverters_of(updated), has_serial(new)) matches Some(found)
                && found.serial == Some(new) && found.enabled
        }),
{
    let i = first_index(invs, has_serial(old))->0;
    lemma_first_index_from(invs, has_serial(old), 0);
    let updated = invs.update(i, with_serial(invs[i], new));
    let en = enabled_inverters_of(updated);
    let p = |x: Inverter| is_enabled_inverter(x);
    updated.lemma_filter_contains(p, i);
    let k = choose|k: int| 0 <= k < en.len() && en[k] == updated[i];
    assert(has_serial(new)(en[k]));
    lemma_first_index_from(en, has_serial(new), 0);
    if first_index(en, has_serial(new)) is None {
        assert(!has_serial(new)(en[k]));
    }
    let j = first_index(en, has_serial(new))->0;
    updated.lemma_filter_pred(p, j);
}

} // verus!

verus! {

impl ConfigWrapper {
    /// Validates a configuration read from the configuration file and wraps it for runtime
    /// use; refuses it with the first failing check.
    pub fn new(config: Config) -> (r: Result<Self, ConfigError>)
        ensures
            match validation_outcome(
                config,
                url_parses(config.influx.url@),
                database_urls_parse(config.databases@),
            ) {
                Ok(()) => r matches Ok(w) && w@ == config,
                Err(e) => r matches Err(e2) && e2 == e,
            },
    {
        match config.validate() {
            Ok(()) => Ok(ConfigWrapper { config }),
            Err(e) => Err(e),
        }
    }
}

/// Law: a command topic addresses only enabled inverters, and with a serial only those
/// whose datalog is that serial.
pub proof fn message_targets_enabled_inverters(invs: Seq<Inverter>, head: Seq<char>)
    ensures
        forall|i: int|
            0 <= i < enabled_inverters_of(invs).filter(datalog_named(head)).len() ==> {
                let x = #[trigger] enabled_inverters_of(invs).filter(datalog_named(head))[i];
                &&& x.enabled
                &&& x.datalog matches Some(d) && names_serial(head, d)
            },
{
    broadcast use vstd::seq_lib::group_filter_ensures;

    let en = enabled_inverters_of(invs);
    let sel = en.filter(datalog_named(head));
    assert forall|i: int| 0 <= i < sel.len() implies {
        let x = #[trigger] sel[i];
        &&& x.enabled
        &&& x.datalog matches Some(d) && names_serial(head, d)
    } by {
        en.lemma_filter_pred(datalog_named(head), i);
        lemma_filter_from(en, datalog_named(head));
        let k = choose|k: int| 0 <= k < en.len() && en[k] == sel[i];
        invs.lemma_filter_pred(|x: Inverter| is_enabled_inverter(x), k);
    }
}

} // verus!

verus! {

/// An enabled database whose URL does not parse.
pub open spec fn is_bad_database() -> spec_fn(Database) -> bool {
    |d: Database| d.enabled && !url_parses(d.url@)
}

/// The URL text of an "invalid URL" message: ": " and the parse error when there is one.
pub open spec fn url_detail(url: Seq<char>) -> Seq<char> {
    match url_parse_error(url) {
        Some(t) => ": "@ + t,
        None => Seq::empty(),
    }
}

/// The message the bridge gives for an error, with the configuration it arose from (which
/// supplies the URL parse error of the InfluxDB URL, or of the first enabled database whose
/// URL does not parse).
pub open spec fn error_text(e: ConfigError, cfg: Config) -> Seq<char> {
    match e {
        ConfigError::MqttPortZero => "mqtt.port must be between 1 and 65535"@,
        ConfigError::MqttHostEmpty => "config.rs:MQTT host cannot be empty"@,
        ConfigError::InvalidInfluxUrl => "config.rs:Invalid InfluxDB URL"@ + url_detail(cfg.influx.url@),
        ConfigError::InfluxDatabaseEmpty => "config.rs:InfluxDB database name cannot be empty"@,
        ConfigError::InvalidDatabaseUrl => "config.rs:Invalid database URL"@ + match first_where(
            cfg.databases@,
            is_bad_database(),
        ) {
            Some(d) => url_detail(d.url@),
            None => Seq::empty(),
        },
        ConfigError::InverterPortZero(i) => "inverter["@ + decimal(i as nat) + "].port must be between 1 and 65535"@,
        ConfigError::InverterHostEmpty => "config.rs:Inverter host cannot be empty"@,
        ConfigError::InverterReadTimeoutZero => "config.rs:Invalid read timeout: 0"@,
        ConfigError::InverterRegisterBlockSize(i, size) => "inverter["@ + decimal(i as nat) + "].register_block_size="@
            + decimal(size as nat)
            + " is invalid; the current implementation only supports a register_block_size of 40"@,
        ConfigError::SchedulerCronEmpty => "config.rs:Scheduler cron expression cannot be empty"@,
        ConfigError::SerialNotFound(s) => "config.rs:Inverter with serial "@ + s.text() + " not found"@,
        ConfigError::DatalogNotFound(s) => "config.rs:Inverter with datalog "@ + s.text() + " not found"@,
    }
}

fn push_url_detail(out: &mut String, url: &str)
    ensures
        final(out)@ == old(out)@ + url_detail(url@),
{
    match url_error(url) {
        Some(t) => {
            out.append(": ");
            out.append(t.as_str());
            assert(final(out)@ =~= old(out)@ + url_detail(url@)) by {
                assert(old(out)@ + ": "@ + t@ =~= old(out)@ + (": "@ + t@));
            }
        },
        None => {
            assert(old(out)@ + url_detail(url@) =~= old(out)@);
        },
    }
}

impl ConfigError {
    /// The message the bridge gives for this error; `config` is the configuration that
    /// validation refused (it supplies the URL parse errors).
    pub fn message(&self, config: &Config) -> (r: String)
        ensures
            r@ == error_text(*self, *config),
    {
        match self {
            ConfigError::MqttPortZero => string_of("mqtt.port must be between 1 and 65535"),
            ConfigError::MqttHostEmpty => string_of("config.rs:MQTT host cannot be empty"),
            ConfigError::InvalidInfluxUrl => {
                let mut m = string_of("config.rs:Invalid InfluxDB URL");
                push_url_detail(&mut m, config.influx.url.as_str());
                m
            },
            ConfigError::InfluxDatabaseEmpty => string_of("config.rs:InfluxDB database name cannot be empty"),
            ConfigError::InvalidDatabaseUrl => {
                let mut m = string_of("config.rs:Invalid database URL");
                let dbs = &config.databases;
                let mut j: usize = 0;
                while j < dbs.len()
                    invariant
                        j <= dbs.len(),
                        *self == ConfigError::InvalidDatabaseUrl,
                        dbs@ == config.databases@,
                        m@ == "config.rs:Invalid database URL"@,
                        first_index_from(dbs@, is_bad_database(), 0) == first_index_from(
                            dbs@,
                            is_bad_database(),
                            j as int,
                        ),
                    decreases dbs.len() - j,
                {
                    if dbs[j].enabled {
                        match url_error(dbs[j].url.as_str()) {
                            Some(t) => {
                                assert(url_parse_error(dbs@[j as int].url@) == Some(t@));
                                assert(is_bad_database()(dbs@[j as int]));
                                assert(first_index_from(dbs@, is_bad_database(), j as int) == Some(j as int));
                                assert(first_where(dbs@, is_bad_database()) == Some(dbs@[j as int]));
                                assert(url_detail(dbs@[j as int].url@) == ": "@ + t@);
                                let ghost before = m@;
                                m.append(": ");
                                m.append(t.as_str());
                                assert(m@ =~= before + (": "@ + t@));
                                assert(m@ == error_text(*self, *config));
                                return m;
                            },
                            None => {},
                        }
                    }
                    j = j + 1;
                }
                assert(m@ =~= m@ + Seq::<char>::empty());
                m
            },
            ConfigError::InverterPortZero(i) => {
                let mut m = string_of("inverter[");
                push_decimal(&mut m, *i as u64);
                m.append("].port must be between 1 and 65535");
                m
            },
            ConfigError::InverterHostEmpty => string_of("config.rs:Inverter host cannot be empty"),
            ConfigError::InverterReadTimeoutZero => string_of("config.rs:Invalid read timeout: 0"),
            ConfigError::InverterRegisterBlockSize(i, size) => {
                let mut m = string_of("inverter[");
                push_decimal(&mut m, *i as u64);
                m.append("].register_block_size=");
                push_decimal(&mut m, *size as u64);
                m.append(" is invalid; the current implementation only supports a register_block_size of 40");
                m
            },
            ConfigError::SchedulerCronEmpty => string_of("config.rs:Scheduler cron expression cannot be empty"),
            ConfigError::SerialNotFound(s) => {
                let mut m = string_of("config.rs:Inverter with serial ");
                let t = s.to_string();
                m.append(t.as_str());
                m.append(" not found");
                m
            },
            ConfigError::DatalogNotFound(s) => {
                let mut m = string_of("config.rs:Inverter with datalog ");
                let t = s.to_string();
                m.append(t.as_str());
                m.append(" not found");
                m
            },
        }
    }
}

} // verus!

verus! {

/// Law: writing an inverter's datalog onto itself leaves the inverters as they were.
pub proof fn datalog_onto_itself_changes_nothing(invs: Seq<Inverter>, d: Serial)
    ensures
        first_index(invs, has_datalog(d)) matches Some(i) ==> invs.update(i, with_datalog(invs[i], d)) == invs,
{
    lemma_first_index_from(invs, has_datalog(d), 0);
    if let Some(i) = first_index(invs, has_datalog(d)) {
        assert(invs[i].datalog == Some(d));
        assert(with_datalog(invs[i], d) == invs[i]);
        assert(invs.update(i, with_datalog(invs[i], d)) =~= invs);
    }
}

} // verus!
