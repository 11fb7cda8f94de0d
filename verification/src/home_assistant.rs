//! Home Assistant MQTT discovery: the switches, numbers, time ranges and sensors announced
//! for an inverter.
use vstd::prelude::*;

use crate::config::{ConfigWrapper, Inverter, Mqtt};
use crate::register_metadata::{
    device_class, ha_device_class, ha_state_class, ha_unit, known_metas, metas_below,
    curated_registers, derefs, input_key_of, state_class, unit_of, opt_text, RegisterCatalog,
    RegisterMeta,
};
use crate::register_cache::{register_entries, snapshot_entries};
use crate::scale::{digits_value, lemma_decimal_digits};
use crate::serial::Serial;
use crate::text::{copy_string, decimal, push_char, push_decimal, str_eq, string_of};

verus! {

/// Where Home Assistant learns whether the bridge is online.
#[derive(Debug)]
pub struct Availability {
    pub topic: String,
}

/// The device an entity belongs to.
#[derive(Debug)]
pub struct Device {
    pub manufacturer: String,
    pub name: String,
    pub identifiers: [String; 1],
}

/// An MQTT switch (https://www.home-assistant.io/integrations/switch.mqtt/).
#[derive(Debug)]
pub struct Switch {
    pub name: String,
    pub state_topic: String,
    pub command_topic: String,
    pub value_template: String,
    pub unique_id: String,
    pub device: Device,
    pub availability: Availability,
}

/// An MQTT number (https://www.home-assistant.io/integrations/number.mqtt/); its bounds and
/// step are whole numbers.
#[derive(Debug)]
pub struct Number {
    pub name: String,
    pub state_topic: String,
    pub command_topic: String,
    pub value_template: String,
    pub unique_id: String,
    pub device: Device,
    pub availability: Availability,
    pub min: u8,
    pub max: u8,
    pub step: u8,
    pub unit_of_measurement: String,
}

/// An MQTT text field (https://www.home-assistant.io/integrations/text.mqtt/).
#[derive(Debug)]
pub struct Text {
    pub name: String,
    pub state_topic: String,
    pub command_topic: String,
    pub command_template: String,
    pub value_template: String,
    pub unique_id: String,
    pub device: Device,
    pub availability: Availability,
    pub pattern: String,
}

/// An MQTT sensor reading one key of the inverter's input snapshot.
#[derive(Debug)]
pub struct Sensor {
    pub unique_id: String,
    pub name: String,
    pub state_topic: String,
    pub value_template: String,
    pub device: Device,
    pub availability: Availability,
    pub device_class: Option<String>,
    pub state_class: Option<String>,
    pub unit_of_measurement: Option<String>,
}

/// The configuration of one discovered entity.
#[derive(Debug)]
pub enum Entity {
    Switch(Switch),
    Number(Number),
    Text(Text),
    Sensor(Sensor),
}

/// A retained discovery message: the topic and the entity configuration published there.
#[derive(Debug)]
pub struct Discovery {
    pub topic: String,
    pub retain: bool,
    pub entity: Entity,
}

/// A holding register that Home Assistant may set as a percentage.
#[derive(Clone, Copy, Debug, PartialEq, Eq, Structural)]
pub enum Register {
    Register21,
    ChargePowerPercentCmd,
    DischgPowerPercentCmd,
    AcChargePowerCmd,
    AcChargeSocLimit,
    ChargePriorityPowerCmd,
    ChargePrioritySocLimit,
    ForcedDischgSocLimit,
    DischgCutOffSocEod,
    EpsDischgCutoffSocEod,
    AcChargeStartSocLimit,
    AcChargeEndSocLimit,
}

impl Register {
    /// The register's number.
    pub open spec fn spec_number(self) -> u16 {
        match self {
            Register::Register21 => 21,
            Register::ChargePowerPercentCmd => 64,
            Register::DischgPowerPercentCmd => 65,
            Register::AcChargePowerCmd => 66,
            Register::AcChargeSocLimit => 67,
            Register::ChargePriorityPowerCmd => 74,
            Register::ChargePrioritySocLimit => 75,
            Register::ForcedDischgSocLimit => 83,
            Register::DischgCutOffSocEod => 105,
            Register::EpsDischgCutoffSocEod => 125,
            Register::AcChargeStartSocLimit => 160,
            Register::AcChargeEndSocLimit => 161,
        }
    }

    /// The register's name, as its debug form prints it.
    pub open spec fn spec_name(self) -> Seq<char> {
        match self {
            Register::Register21 => "Register21"@,
            Register::ChargePowerPercentCmd => "ChargePowerPercentCmd"@,
            Register::DischgPowerPercentCmd => "DischgPowerPercentCmd"@,
            Register::AcChargePowerCmd => "AcChargePowerCmd"@,
            Register::AcChargeSocLimit => "AcChargeSocLimit"@,
            Register::ChargePriorityPowerCmd => "ChargePriorityPowerCmd"@,
            Register::ChargePrioritySocLimit => "ChargePrioritySocLimit"@,
            Register::ForcedDischgSocLimit => "ForcedDischgSocLimit"@,
            Register::DischgCutOffSocEod => "DischgCutOffSocEod"@,
            Register::EpsDischgCutoffSocEod => "EpsDischgCutoffSocEod"@,
            Register::AcChargeStartSocLimit => "AcChargeStartSocLimit"@,
            Register::AcChargeEndSocLimit => "AcChargeEndSocLimit"@,
        }
    }

    pub fn number(&self) -> (r: u16)
        ensures
            r == self.spec_number(),
    {
        match self {
            Register::Register21 => 21,
            Register::ChargePowerPercentCmd => 64,
            Register::DischgPowerPercentCmd => 65,
            Register::AcChargePowerCmd => 66,
            Register::AcChargeSocLimit => 67,
            Register::ChargePriorityPowerCmd => 74,
            Register::ChargePrioritySocLimit => 75,
            Register::ForcedDischgSocLimit => 83,
            Register::DischgCutOffSocEod => 105,
            Register::EpsDischgCutoffSocEod => 125,
            Register::AcChargeStartSocLimit => 160,
            Register::AcChargeEndSocLimit => 161,
        }
    }

    pub fn name(&self) -> (r: &'static str)
        ensures
            r@ == self.spec_name(),
    {
        match self {
            Register::Register21 => "Register21",
            Register::ChargePowerPercentCmd => "ChargePowerPercentCmd",
            Register::DischgPowerPercentCmd => "DischgPowerPercentCmd",
            Register::AcChargePowerCmd => "AcChargePowerCmd",
            Register::AcChargeSocLimit => "AcChargeSocLimit",
            Register::ChargePriorityPowerCmd => "ChargePriorityPowerCmd",
            Register::ChargePrioritySocLimit => "ChargePrioritySocLimit",
            Register::ForcedDischgSocLimit => "ForcedDischgSocLimit",
            Register::DischgCutOffSocEod => "DischgCutOffSocEod",
            Register::EpsDischgCutoffSocEod => "EpsDischgCutoffSocEod",
            Register::AcChargeStartSocLimit => "AcChargeStartSocLimit",
            Register::AcChargeEndSocLimit => "AcChargeEndSocLimit",
        }
    }
}

/// The text of an optional serial number: its text, or nothing.
pub open spec fn serial_text_or_empty(s: Option<Serial>) -> Seq<char> {
    match s {
        Some(serial) => serial.text(),
        None => Seq::empty(),
    }
}

/// `name` with every '/' (which separates MQTT topic levels) changed to '_'.
pub open spec fn slashes_to_underscores(name: Seq<char>) -> Seq<char> {
    name.map_values(|c: char| if c == '/' { '_' } else { c })
}

fn replace_slashes(out: &mut String, name: &str)
    ensures
        final(out)@ == old(out)@ + slashes_to_underscores(name@),
{
    let n = name.unicode_len();
    let ghost start = out@;
    let mut i: usize = 0;
    while i < n
        invariant
            i <= n,
            n == name@.len(),
            out@ == start + slashes_to_underscores(name@.take(i as int)),
        decreases n - i,
    {
        let c = name.get_char(i);
        let d = if c == '/' {
            '_'
        } else {
            c
        };
        push_char(out, d);
        assert(slashes_to_underscores(name@.take(i + 1)) =~= slashes_to_underscores(
            name@.take(i as int),
        ).push(d));
        i = i + 1;
    }
    assert(name@.take(n as int) == name@);
}

} // verus!

verus! {

/// Discovery settings for one inverter.
pub struct Config {
    inverter: Inverter,
    mqtt_config: Mqtt,
    homeassistant_enabled: bool,
}

/// The discovery topic of an entity of `kind` named `name`.
pub open spec fn discovery_topic(prefix: Seq<char>, kind: Seq<char>, datalog: Seq<char>, name: Seq<char>) -> Seq<char> {
    prefix + "/"@ + kind + "/lxp_"@ + datalog + "/"@ + slashes_to_underscores(name) + "/config"@
}

/// `d` is the device "lxp_<datalog>" made by `manufacturer`.
pub open spec fn device_is(d: Device, manufacturer: Seq<char>, datalog: Seq<char>) -> bool {
    &&& d.manufacturer@ == manufacturer
    &&& d.name@ == "lxp_"@ + datalog
    &&& d.identifiers@[0]@ == "lxp_"@ + datalog
}

impl Config {
    pub closed spec fn spec_inverter(&self) -> Inverter {
        self.inverter
    }

    pub closed spec fn spec_mqtt(&self) -> Mqtt {
        self.mqtt_config
    }

    pub closed spec fn spec_homeassistant_enabled(&self) -> bool {
        self.homeassistant_enabled
    }

    /// The MQTT namespace.
    pub open spec fn ns(&self) -> Seq<char> {
        self.spec_mqtt().namespace@
    }

    /// The inverter's datalog serial as text, empty when unknown.
    pub open spec fn dl(&self) -> Seq<char> {
        serial_text_or_empty(self.spec_inverter().datalog)
    }

    /// The discovery topic of an entity of `kind` named `name` for this inverter.
    pub open spec fn topic_for(&self, kind: Seq<char>, name: Seq<char>) -> Seq<char> {
        discovery_topic(self.spec_mqtt().homeassistant.prefix@, kind, self.dl(), name)
    }

    /// The availability topic: "<namespace>/LWT".
    pub open spec fn availability_topic(&self) -> Seq<char> {
        self.ns() + "/LWT"@
    }

    pub fn new(inverter: &Inverter, mqtt_config: &Mqtt, global_config: &ConfigWrapper) -> (r: Self)
        ensures
            r.spec_inverter() == *inverter,
            r.spec_mqtt() == *mqtt_config,
            r.spec_homeassistant_enabled() == global_config@.homeassistant_enabled,
    {
        Config {
            inverter: inverter.clone(),
            mqtt_config: mqtt_config.clone(),
            homeassistant_enabled: global_config.homeassistant_enabled(),
        }
    }

    fn datalog_text(&self) -> (r: String)
        ensures
            r@ == self.dl(),
    {
        match self.inverter.datalog {
            Some(s) => s.to_string(),
            None => String::new(),
        }
    }

    fn ha_discovery_topic(&self, kind: &str, name: &str) -> (r: String)
        ensures
            r@ == self.topic_for(kind@, name@),
    {
        let dl = self.datalog_text();
        let mut t = string_of(self.mqtt_config.homeassistant.prefix.as_str());
        t.append("/");
        t.append(kind);
        t.append("/lxp_");
        t.append(dl.as_str());
        t.append("/");
        replace_slashes(&mut t, name);
        t.append("/config");
        t
    }

    fn device(&self) -> (r: Device)
        ensures
            device_is(r, "LuxPower"@, self.dl()),
    {
        self.device_made_by("LuxPower")
    }

    fn device_made_by(&self, manufacturer: &str) -> (r: Device)
        ensures
            device_is(r, manufacturer@, self.dl()),
    {
        let dl = self.datalog_text();
        let mut id = string_of("lxp_");
        id.append(dl.as_str());
        let ident = copy_string(&id);
        Device { manufacturer: string_of(manufacturer), name: id, identifiers: [ident] }
    }

    fn availability(&self) -> (r: Availability)
        ensures
            r.topic@ == self.availability_topic(),
    {
        let mut t = string_of(self.mqtt_config.namespace.as_str());
        t.append("/LWT");
        Availability { topic: t }
    }
}

} // verus!

verus! {

/// The Jinja template that turns "HH:MM-HH:MM" into a start/end command.
pub open spec fn time_range_command_template() -> Seq<char> {
    "{% set parts = value.split(\"-\") %}{\"start\":\"{{ parts[0] }}\", \"end\":\"{{ parts[1] }}\"}"@
}

/// The Jinja template that shows a start/end pair as "HH:MM-HH:MM".
pub open spec fn time_range_value_template() -> Seq<char> {
    "{{ value_json[\"start\"] }}-{{ value_json[\"end\"] }}"@
}

/// The pattern a time range must match: "HH:MM-HH:MM" on a 24-hour clock.
pub open spec fn time_range_pattern() -> Seq<char> {
    "([01]?[0-9]|2[0-3]):[0-5][0-9]-([01]?[0-9]|2[0-3]):[0-5][0-9]"@
}

impl Config {
    /// `d` announces the switch `name` labelled `label`: its state is bit "<name>_en" of
    /// holding register 21 and it is set through "<namespace>/cmd/<datalog>/set/<name>".
    pub open spec fn switch_is(&self, d: Discovery, name: Seq<char>, label: Seq<char>) -> bool {
        &&& d.topic@ == self.topic_for("switch"@, name)
        &&& d.retain
        &&& d.entity matches Entity::Switch(s) && {
            &&& s.name@ == label
            &&& s.value_template@ == "{{ value_json."@ + name + "_en }}"@
            &&& s.state_topic@ == self.ns() + "/"@ + self.dl() + "/hold/21/bits"@
            &&& s.command_topic@ == self.ns() + "/cmd/"@ + self.dl() + "/set/"@ + name
            &&& s.unique_id@ == "lxp_"@ + self.dl() + "_"@ + name
            &&& device_is(s.device, "LuxPower"@, self.dl())
            &&& s.availability.topic@ == self.availability_topic()
        }
    }

    /// `d` announces a 0..100 percentage for holding register `register`, labelled `label`.
    pub open spec fn number_is(&self, d: Discovery, register: Register, label: Seq<char>) -> bool {
        &&& d.topic@ == self.topic_for("number"@, register.spec_name())
        &&& d.retain
        &&& d.entity matches Entity::Number(n) && {
            &&& n.name@ == label
            &&& n.state_topic@ == self.ns() + "/"@ + self.dl() + "/hold/"@ + decimal(
                register.spec_number() as nat,
            )
            &&& n.command_topic@ == self.ns() + "/cmd/"@ + self.dl() + "/set/hold/"@ + decimal(
                register.spec_number() as nat,
            )
            &&& n.value_template@ == "{{ float(value) }}"@
            &&& n.unique_id@ == "lxp_"@ + self.dl() + "_number_"@ + register.spec_name()
            &&& device_is(n.device, "LuxPower"@, self.dl())
            &&& n.availability.topic@ == self.availability_topic()
            &&& n.min == 0 && n.max == 100 && n.step == 1
            &&& n.unit_of_measurement@ == "%"@
        }
    }

    /// `d` announces the time range `name` (such as "ac_charge/1") labelled `label`.
    pub open spec fn time_range_is(&self, d: Discovery, name: Seq<char>, label: Seq<char>) -> bool {
        &&& d.topic@ == self.topic_for("text"@, name)
        &&& d.retain
        &&& d.entity matches Entity::Text(t) && {
            &&& t.name@ == label
            &&& t.state_topic@ == self.ns() + "/"@ + self.dl() + "/"@ + name
            &&& t.command_topic@ == self.ns() + "/cmd/"@ + self.dl() + "/set/"@ + name
            &&& t.command_template@ == time_range_command_template()
            &&& t.value_template@ == time_range_value_template()
            &&& t.unique_id@ == "lxp_"@ + self.dl() + "_text_"@ + name
            &&& device_is(t.device, "LuxPower"@, self.dl())
            &&& t.availability.topic@ == self.availability_topic()
            &&& t.pattern@ == time_range_pattern()
        }
    }

    fn switch(&self, name: &str, label: &str) -> (r: Discovery)
        ensures
            self.switch_is(r, name@, label@),
    {
        let dl = self.datalog_text();
        let ns = self.mqtt_config.namespace.as_str();
        let mut value_template = string_of("{{ value_json.");
        value_template.append(name);
        value_template.append("_en }}");
        let mut state_topic = string_of(ns);
        state_topic.append("/");
        state_topic.append(dl.as_str());
        state_topic.append("/hold/21/bits");
        let mut command_topic = string_of(ns);
        command_topic.append("/cmd/");
        command_topic.append(dl.as_str());
        command_topic.append("/set/");
        command_topic.append(name);
        let mut unique_id = string_of("lxp_");
        unique_id.append(dl.as_str());
        unique_id.append("_");
        unique_id.append(name);
        let config = Switch {
            name: string_of(label),
            state_topic,
            command_topic,
            value_template,
            unique_id,
            device: self.device(),
            availability: self.availability(),
        };
        Discovery {
            topic: self.ha_discovery_topic("switch", name),
            retain: true,
            entity: Entity::Switch(config),
        }
    }

    fn number_percent(&self, register: Register, label: &str) -> (r: Discovery)
        ensures
            self.number_is(r, register, label@),
    {
        let dl = self.datalog_text();
        let ns = self.mqtt_config.namespace.as_str();
        let mut state_topic = string_of(ns);
        state_topic.append("/");
        state_topic.append(dl.as_str());
        state_topic.append("/hold/");
        push_decimal(&mut state_topic, register.number() as u64);
        let mut command_topic = string_of(ns);
        command_topic.append("/cmd/");
        command_topic.append(dl.as_str());
        command_topic.append("/set/hold/");
        push_decimal(&mut command_topic, register.number() as u64);
        let mut unique_id = string_of("lxp_");
        unique_id.append(dl.as_str());
        unique_id.append("_number_");
        unique_id.append(register.name());
        let config = Number {
            name: string_of(label),
            state_topic,
            command_topic,
            value_template: string_of("{{ float(value) }}"),
            unique_id,
            device: self.device(),
            availability: self.availability(),
            min: 0,
            max: 100,
            step: 1,
            unit_of_measurement: string_of("%"),
        };
        Discovery {
            topic: self.ha_discovery_topic("number", register.name()),
            retain: true,
            entity: Entity::Number(config),
        }
    }

    /// A time range, modelled as a text field taking values like "00:00-23:59".
    fn time_range(&self, name: &str, label: &str) -> (r: Discovery)
        ensures
            self.time_range_is(r, name@, label@),
    {
        let dl = self.datalog_text();
        let ns = self.mqtt_config.namespace.as_str();
        let mut state_topic = string_of(ns);
        state_topic.append("/");
        state_topic.append(dl.as_str());
        state_topic.append("/");
        state_topic.append(name);
        let mut command_topic = string_of(ns);
        command_topic.append("/cmd/");
        command_topic.append(dl.as_str());
        command_topic.append("/set/");
        command_topic.append(name);
        let mut unique_id = string_of("lxp_");
        unique_id.append(dl.as_str());
        unique_id.append("_text_");
        unique_id.append(name);
        let config = Text {
            name: string_of(label),
            state_topic,
            command_topic,
            command_template: string_of(
                "{% set parts = value.split(\"-\") %}{\"start\":\"{{ parts[0] }}\", \"end\":\"{{ parts[1] }}\"}",
            ),
            value_template: string_of("{{ value_json[\"start\"] }}-{{ value_json[\"end\"] }}"),
            unique_id,
            device: self.device(),
            availability: self.availability(),
            pattern: string_of("([01]?[0-9]|2[0-3]):[0-5][0-9]-([01]?[0-9]|2[0-3]):[0-5][0-9]"),
        };
        Discovery { topic: self.ha_discovery_topic("text", name), retain: true, entity: Entity::Text(config) }
    }
}

} // verus!

verus! {

/// What a register sensor shows: key, name, device class, state class, unit and value
/// template.
pub type SensorParams = (Seq<char>, Seq<char>, Option<Seq<char>>, Option<Seq<char>>, Option<Seq<char>>, Seq<char>);

/// The text of an optional string.
pub open spec fn opt_string_text(o: Option<String>) -> Option<Seq<char>> {
    match o {
        Some(s) => Some(s@),
        None => None,
    }
}

/// The template that reads a register from the snapshot and applies its scale: the raw
/// value when the scale is 1, else the product rounded to the scale's precision.
pub open spec fn value_template_of(meta: RegisterMeta) -> Seq<char> {
    if meta.unit_scale.is_one() {
        "{{ value_json."@ + meta.shortname@ + " }}"@
    } else {
        "{{ (value_json."@ + meta.shortname@ + " * "@ + meta.unit_scale.text() + ") | round("@
            + decimal(meta.unit_scale.spec_precision() as nat) + ") }}"@
    }
}

/// The state-of-charge sensor derived from the battery status register.
pub open spec fn soc_params() -> SensorParams {
    ("soc"@, "State of Charge"@, Some("battery"@), Some("measurement"@), Some("%"@), "{{ value_json.soc }}"@)
}

/// The state-of-health sensor derived from the battery status register.
pub open spec fn soh_params() -> SensorParams {
    ("soh"@, "State of Health"@, Some("battery"@), Some("measurement"@), Some("%"@), "{{ value_json.soh }}"@)
}

/// The sensor of an ordinary register.
pub open spec fn register_params(meta: RegisterMeta) -> SensorParams {
    (meta.shortname@, meta.name@, device_class(meta), state_class(meta), unit_of(meta), value_template_of(meta))
}

/// The sensors announced for `metas`, in order: the battery status register becomes a
/// state-of-charge and a state-of-health sensor, every other register one sensor.
pub open spec fn sensor_params(metas: Seq<RegisterMeta>) -> Seq<SensorParams>
    decreases metas.len(),
{
    if metas.len() == 0 {
        Seq::empty()
    } else {
        let prev = sensor_params(metas.drop_last());
        if metas.last().shortname@ == "battery_status"@ {
            prev.push(soc_params()).push(soh_params())
        } else {
            prev.push(register_params(metas.last()))
        }
    }
}

/// The registers whose sensors are announced.
pub open spec fn announced_registers(publish_all: bool, catalog: Map<u16, RegisterMeta>) -> Seq<RegisterMeta> {
    if publish_all {
        metas_below(catalog, 65536)
    } else {
        known_metas(catalog, curated_registers())
    }
}

fn copy_opt_str(o: Option<&str>) -> (r: Option<String>)
    ensures
        opt_string_text(r) == opt_text(o),
{
    match o {
        Some(s) => Some(string_of(s)),
        None => None,
    }
}

fn value_template(meta: &RegisterMeta) -> (r: String)
    ensures
        r@ == value_template_of(*meta),
{
    if meta.unit_scale.exec_is_one() {
        let mut t = string_of("{{ value_json.");
        t.append(meta.shortname.as_str());
        t.append(" }}");
        t
    } else {
        let mut t = string_of("{{ (value_json.");
        t.append(meta.shortname.as_str());
        t.append(" * ");
        meta.unit_scale.push_text(&mut t);
        t.append(") | round(");
        push_decimal(&mut t, meta.unit_scale.precision() as u64);
        t.append(") }}");
        t
    }
}

impl Config {
    /// The topic the input snapshot of the inverter is published on.
    pub open spec fn snapshot_topic(&self) -> Seq<char> {
        self.ns() + "/"@ + self.dl() + "/inputs/all"@
    }

    /// `d` announces the sensor `p` reading from `state_topic`.
    pub open spec fn sensor_is(&self, d: Discovery, state_topic: Seq<char>, p: SensorParams) -> bool {
        &&& d.topic@ == self.topic_for("sensor"@, p.0)
        &&& d.retain
        &&& d.entity matches Entity::Sensor(s) && {
            &&& s.unique_id@ == "lxp_"@ + self.dl() + "_"@ + p.0
            &&& s.name@ == p.1
            &&& s.state_topic@ == state_topic
            &&& s.value_template@ == p.5
            &&& device_is(s.device, "EG4"@, self.dl())
            &&& s.availability.topic@ == self.availability_topic()
            &&& opt_string_text(s.device_class) == p.2
            &&& opt_string_text(s.state_class) == p.3
            &&& opt_string_text(s.unit_of_measurement) == p.4
        }
    }

    fn build_register_sensor(
        &self,
        state_topic: &str,
        key: &str,
        name: &str,
        device_class: Option<&str>,
        state_class: Option<&str>,
        unit: Option<&str>,
        value_template: &str,
    ) -> (r: Discovery)
        ensures
            self.sensor_is(
                r,
                state_topic@,
                (key@, name@, opt_text(device_class), opt_text(state_class), opt_text(unit), value_template@),
            ),
    {
        let dl = self.datalog_text();
        let mut unique_id = string_of("lxp_");
        unique_id.append(dl.as_str());
        unique_id.append("_");
        unique_id.append(key);
        let config = Sensor {
            unique_id,
            name: string_of(name),
            state_topic: string_of(state_topic),
            value_template: string_of(value_template),
            device: self.device_made_by("EG4"),
            availability: self.availability(),
            device_class: copy_opt_str(device_class),
            state_class: copy_opt_str(state_class),
            unit_of_measurement: copy_opt_str(unit),
        };
        Discovery { topic: self.ha_discovery_topic("sensor", key), retain: true, entity: Entity::Sensor(config) }
    }

    /// The sensors of the inverter: every catalog register when all registers are published,
    /// else the curated ones, each reading its key from the inverter's input snapshot.
    pub fn sensors(&self, catalog: &RegisterCatalog) -> (r: Vec<Discovery>)
        ensures
            ({
                let params = sensor_params(
                    announced_registers(self.spec_mqtt().homeassistant.publish_all_registers, catalog@),
                );
                &&& r@.len() == params.len()
                &&& forall|i: int| 0 <= i < r@.len() ==> self.sensor_is(#[trigger] r@[i], self.snapshot_topic(), params[i])
            }),
    {
        let registers = if self.mqtt_config.homeassistant.publish_all_registers {
            catalog.all_input_sorted()
        } else {
            catalog.curated_input()
        };
        let ghost metas = derefs(registers@);
        let dl = self.datalog_text();
        let mut state_topic = string_of(self.mqtt_config.namespace.as_str());
        state_topic.append("/");
        state_topic.append(dl.as_str());
        state_topic.append("/inputs/all");
        let mut messages: Vec<Discovery> = Vec::new();
        let mut i: usize = 0;
        while i < registers.len()
            invariant
                i <= registers.len(),
                metas == derefs(registers@),
                state_topic@ == self.snapshot_topic(),
                messages@.len() == sensor_params(metas.take(i as int)).len(),
                forall|j: int|
                    0 <= j < messages@.len() ==> self.sensor_is(
                        #[trigger] messages@[j],
                        self.snapshot_topic(),
                        sensor_params(metas.take(i as int))[j],
                    ),
            decreases registers.len() - i,
        {
            let meta: &RegisterMeta = registers[i];
            assert(metas.take(i + 1).drop_last() == metas.take(i as int));
            assert(metas[i as int] == *meta);
            let ghost before = messages@;
            if str_eq(meta.shortname.as_str(), "battery_status") {
                messages.push(
                    self.build_register_sensor(
                        state_topic.as_str(),
                        "soc",
                        "State of Charge",
                        Some("battery"),
                        Some("measurement"),
                        Some("%"),
                        "{{ value_json.soc }}",
                    ),
                );
                messages.push(
                    self.build_register_sensor(
                        state_topic.as_str(),
                        "soh",
                        "State of Health",
                        Some("battery"),
                        Some("measurement"),
                        Some("%"),
                        "{{ value_json.soh }}",
                    ),
                );
            } else {
                let template = value_template(meta);
                messages.push(
                    self.build_register_sensor(
                        state_topic.as_str(),
                        meta.shortname.as_str(),
                        meta.name.as_str(),
                        ha_device_class(meta),
                        ha_state_class(meta),
                        ha_unit(meta),
                        template.as_str(),
                    ),
                );
            }
            i = i + 1;
        }
        assert(metas.take(registers.len() as int) == metas);
        messages
    }
}

} // verus!

verus! {

impl Config {
    /// `d` announces control `i` of the fixed list: three switches, eleven percentages and
    /// twelve time slots.
    pub open spec fn control_is(&self, d: Discovery, i: int) -> bool {
        if i == 0 {
            self.switch_is(d, "ac_charge"@, "AC Charge"@)
        } else if i == 1 {
            self.switch_is(d, "charge_priority"@, "Charge Priority"@)
        } else if i == 2 {
            self.switch_is(d, "forced_discharge"@, "Forced Discharge"@)
        } else if i == 3 {
            self.number_is(d, Register::ChargePowerPercentCmd, "System Charge Rate (%)"@)
        } else if i == 4 {
            self.number_is(d, Register::DischgPowerPercentCmd, "System Discharge Rate (%)"@)
        } else if i == 5 {
            self.number_is(d, Register::AcChargePowerCmd, "AC Charge Rate (%)"@)
        } else if i == 6 {
            self.number_is(d, Register::AcChargeSocLimit, "AC Charge Limit %"@)
        } else if i == 7 {
            self.number_is(d, Register::ChargePriorityPowerCmd, "Charge Priority Rate (%)"@)
        } else if i == 8 {
            self.number_is(d, Register::ChargePrioritySocLimit, "Charge Priority Limit %"@)
        } else if i == 9 {
            self.number_is(d, Register::ForcedDischgSocLimit, "Forced Discharge Limit %"@)
        } else if i == 10 {
            self.number_is(d, Register::DischgCutOffSocEod, "Discharge Cutoff %"@)
        } else if i == 11 {
            self.number_is(d, Register::EpsDischgCutoffSocEod, "Discharge Cutoff for EPS %"@)
        } else if i == 12 {
            self.number_is(d, Register::AcChargeStartSocLimit, "Charge From AC Lower Limit %"@)
        } else if i == 13 {
            self.number_is(d, Register::AcChargeEndSocLimit, "Charge From AC Upper Limit %"@)
        } else if i == 14 {
            self.time_range_is(d, "ac_charge/1"@, "AC Charge Timeslot 1"@)
        } else if i == 15 {
            self.time_range_is(d, "ac_charge/2"@, "AC Charge Timeslot 2"@)
        } else if i == 16 {
            self.time_range_is(d, "ac_charge/3"@, "AC Charge Timeslot 3"@)
        } else if i == 17 {
            self.time_range_is(d, "ac_first/1"@, "AC First Timeslot 1"@)
        } else if i == 18 {
            self.time_range_is(d, "ac_first/2"@, "AC First Timeslot 2"@)
        } else if i == 19 {
            self.time_range_is(d, "ac_first/3"@, "AC First Timeslot 3"@)
        } else if i == 20 {
            self.time_range_is(d, "charge_priority/1"@, "Charge Priority Timeslot 1"@)
        } else if i == 21 {
            self.time_range_is(d, "charge_priority/2"@, "Charge Priority Timeslot 2"@)
        } else if i == 22 {
            self.time_range_is(d, "charge_priority/3"@, "Charge Priority Timeslot 3"@)
        } else if i == 23 {
            self.time_range_is(d, "forced_discharge/1"@, "Forced Discharge Timeslot 1"@)
        } else if i == 24 {
            self.time_range_is(d, "forced_discharge/2"@, "Forced Discharge Timeslot 2"@)
        } else {
            self.time_range_is(d, "forced_discharge/3"@, "Forced Discharge Timeslot 3"@)
        }
    }

    fn control(&self, i: usize) -> (r: Discovery)
        requires
            i < 26,
        ensures
            self.control_is(r, i as int),
    {
        if i == 0 {
            self.switch("ac_charge", "AC Charge")
        } else if i == 1 {
            self.switch("charge_priority", "Charge Priority")
        } else if i == 2 {
            self.switch("forced_discharge", "Forced Discharge")
        } else if i == 3 {
            self.number_percent(Register::ChargePowerPercentCmd, "System Charge Rate (%)")
        } else if i == 4 {
            self.number_percent(Register::DischgPowerPercentCmd, "System Discharge Rate (%)")
        } else if i == 5 {
            self.number_percent(Register::AcChargePowerCmd, "AC Charge Rate (%)")
        } else if i == 6 {
            self.number_percent(Register::AcChargeSocLimit, "AC Charge Limit %")
        } else if i == 7 {
            self.number_percent(Register::ChargePriorityPowerCmd, "Charge Priority Rate (%)")
        } else if i == 8 {
            self.number_percent(Register::ChargePrioritySocLimit, "Charge Priority Limit %")
        } else if i == 9 {
            self.number_percent(Register::ForcedDischgSocLimit, "Forced Discharge Limit %")
        } else if i == 10 {
            self.number_percent(Register::DischgCutOffSocEod, "Discharge Cutoff %")
        } else if i == 11 {
            self.number_percent(Register::EpsDischgCutoffSocEod, "Discharge Cutoff for EPS %")
        } else if i == 12 {
            self.number_percent(Register::AcChargeStartSocLimit, "Charge From AC Lower Limit %")
        } else if i == 13 {
            self.number_percent(Register::AcChargeEndSocLimit, "Charge From AC Upper Limit %")
        } else if i == 14 {
            self.time_range("ac_charge/1", "AC Charge Timeslot 1")
        } else if i == 15 {
            self.time_range("ac_charge/2", "AC Charge Timeslot 2")
        } else if i == 16 {
            self.time_range("ac_charge/3", "AC Charge Timeslot 3")
        } else if i == 17 {
            self.time_range("ac_first/1", "AC First Timeslot 1")
        } else if i == 18 {
            self.time_range("ac_first/2", "AC First Timeslot 2")
        } else if i == 19 {
            self.time_range("ac_first/3", "AC First Timeslot 3")
        } else if i == 20 {
            self.time_range("charge_priority/1", "Charge Priority Timeslot 1")
        } else if i == 21 {
            self.time_range("charge_priority/2", "Charge Priority Timeslot 2")
        } else if i == 22 {
            self.time_range("charge_priority/3", "Charge Priority Timeslot 3")
        } else if i == 23 {
            self.time_range("forced_discharge/1", "Forced Discharge Timeslot 1")
        } else if i == 24 {
            self.time_range("forced_discharge/2", "Forced Discharge Timeslot 2")
        } else {
            self.time_range("forced_discharge/3", "Forced Discharge Timeslot 3")
        }
    }

    /// Every discovery message of the inverter: nothing when Home Assistant is disabled,
    /// else the 26 controls followed by the sensors.
    pub fn all(&self, catalog: &RegisterCatalog) -> (r: Vec<Discovery>)
        ensures
            !self.spec_homeassistant_enabled() ==> r@.len() == 0,
            self.spec_homeassistant_enabled() ==> ({
                let params = sensor_params(
                    announced_registers(self.spec_mqtt().homeassistant.publish_all_registers, catalog@),
                );
                &&& r@.len() == 26 + params.len()
                &&& forall|i: int| 0 <= i < 26 ==> self.control_is(#[trigger] r@[i], i)
                &&& forall|i: int|
                    26 <= i < r@.len() ==> self.sensor_is(#[trigger] r@[i], self.snapshot_topic(), params[i - 26])
            }),
    {
        if !self.homeassistant_enabled {
            return Vec::new();
        }
        let mut r: Vec<Discovery> = Vec::new();
        let mut i: usize = 0;
        while i < 26
            invariant
                i <= 26,
                r@.len() == i,
                forall|j: int| 0 <= j < i ==> self.control_is(#[trigger] r@[j], j),
            decreases 26 - i,
        {
            r.push(self.control(i));
            i = i + 1;
        }
        let mut sensors = self.sensors(catalog);
        let ghost controls = r@;
        let ghost sensor_view = sensors@;
        r.append(&mut sensors);
        assert(r@ == controls + sensor_view);
        assert forall|i: int| 26 <= i < r@.len() implies r@[i] == sensor_view[i - 26] by {}
        r
    }
}

} // verus!

verus! {

/// Law: the name part of a discovery topic holds no '/', so it stays one MQTT topic level.
pub proof fn discovery_name_is_one_level(name: Seq<char>)
    ensures
        !slashes_to_underscores(name).contains('/'),
        slashes_to_underscores(name).len() == name.len(),
{
    if slashes_to_underscores(name).contains('/') {
        let k = choose|k: int| 0 <= k < slashes_to_underscores(name).len() && slashes_to_underscores(name)[k] == '/';
        assert(name[k] == '/' || name[k] != '/');
    }
}

} // verus!

verus! {

/// Whether some entry of a snapshot has this key.
pub open spec fn has_key(entries: Seq<(Seq<char>, int)>, key: Seq<char>) -> bool {
    exists|j: int| 0 <= j < entries.len() && (#[trigger] entries[j]).0 == key
}

proof fn lemma_register_entries_key(m: Map<u16, u16>, catalog: Map<u16, RegisterMeta>, n: int, r: u16)
    requires
        r < n <= 0x10000,
        m.contains_key(r),
    ensures
        has_key(register_entries(m, catalog, n), input_key_of(catalog, r)),
    decreases n,
{
    let prev = register_entries(m, catalog, n - 1);
    if r < n - 1 {
        lemma_register_entries_key(m, catalog, n - 1, r);
        let j = choose|j: int| 0 <= j < prev.len() && (#[trigger] prev[j]).0 == input_key_of(catalog, r);
        let cur = register_entries(m, catalog, n);
        assert(cur[j] == prev[j]);
    } else {
        assert((n - 1) as u16 == r);
        let cur = register_entries(m, catalog, n);
        assert(cur[prev.len() as int].0 == input_key_of(catalog, r));
    }
}

proof fn lemma_snapshot_keeps_register_keys(m: Map<u16, u16>, catalog: Map<u16, RegisterMeta>, key: Seq<char>)
    requires
        has_key(register_entries(m, catalog, 0x10000), key),
    ensures
        has_key(snapshot_entries(m, catalog), key),
{
    let regs = register_entries(m, catalog, 0x10000);
    let j = choose|j: int| 0 <= j < regs.len() && (#[trigger] regs[j]).0 == key;
    let all = snapshot_entries(m, catalog);
    assert(all[j] == regs[j]);
}

proof fn lemma_snapshot_battery_keys(m: Map<u16, u16>, catalog: Map<u16, RegisterMeta>)
    requires
        m.contains_key(5),
    ensures
        has_key(snapshot_entries(m, catalog), "soc"@),
        has_key(snapshot_entries(m, catalog), "soh"@),
{
    let regs = register_entries(m, catalog, 0x10000);
    let all = snapshot_entries(m, catalog);
    assert(all[regs.len() as int].0 == "soc"@);
    assert(all[regs.len() as int + 1].0 == "soh"@);
}

/// The metas a sensor comes from: an ordinary register gives its own sensor, the battery
/// status register the state-of-charge and state-of-health sensors.
pub open spec fn sensor_from(p: SensorParams, meta: RegisterMeta) -> bool {
    if meta.shortname@ == "battery_status"@ {
        p == soc_params() || p == soh_params()
    } else {
        p == register_params(meta)
    }
}

proof fn lemma_sensor_params_source(metas: Seq<RegisterMeta>, i: int)
    requires
        0 <= i < sensor_params(metas).len(),
    ensures
        exists|j: int| 0 <= j < metas.len() && sensor_from(sensor_params(metas)[i], #[trigger] metas[j]),
    decreases metas.len(),
{
    let prev = sensor_params(metas.drop_last());
    let last = metas.len() - 1;
    if i < prev.len() {
        lemma_sensor_params_source(metas.drop_last(), i);
        let j = choose|j: int| 0 <= j < metas.drop_last().len() && sensor_from(prev[i], #[trigger] metas.drop_last()[j]);
        assert(metas[j] == metas.drop_last()[j]);
        assert(sensor_params(metas)[i] == prev[i]);
    } else {
        assert(sensor_from(sensor_params(metas)[i], metas[last]));
    }
}

proof fn lemma_known_metas_from_catalog(m: Map<u16, RegisterMeta>, numbers: Seq<u16>, i: int)
    requires
        0 <= i < known_metas(m, numbers).len(),
    ensures
        exists|r: u16| m.contains_key(r) && known_metas(m, numbers)[i] == #[trigger] m[r],
    decreases numbers.len(),
{
    let prev = known_metas(m, numbers.drop_last());
    if i < prev.len() {
        lemma_known_metas_from_catalog(m, numbers.drop_last(), i);
        assert(known_metas(m, numbers)[i] == prev[i]);
    } else {
        assert(known_metas(m, numbers)[i] == m[numbers.last()]);
    }
}

proof fn lemma_metas_below_from_catalog(m: Map<u16, RegisterMeta>, n: int, i: int)
    requires
        0 <= i < metas_below(m, n).len(),
    ensures
        exists|r: u16| m.contains_key(r) && metas_below(m, n)[i] == #[trigger] m[r],
    decreases n,
{
    let prev = metas_below(m, n - 1);
    if i < prev.len() {
        lemma_metas_below_from_catalog(m, n - 1, i);
        assert(metas_below(m, n)[i] == prev[i]);
    } else {
        assert(metas_below(m, n)[i] == m[(n - 1) as u16]);
    }
}

/// Law: every sensor announced for the inverter reads a key that the input snapshot
/// publishes. A register's sensor reads the register's shortname, which the snapshot carries
/// as soon as that register has been recorded; the battery status register's two sensors
/// read "soc" and "soh", which the snapshot carries as soon as register 5 has been recorded.
pub proof fn announced_sensors_read_snapshot_keys(
    publish_all: bool,
    catalog: Map<u16, RegisterMeta>,
    recorded: Map<u16, u16>,
    i: int,
)
    requires
        0 <= i < sensor_params(announced_registers(publish_all, catalog)).len(),
    ensures
        ({
            let p = sensor_params(announced_registers(publish_all, catalog))[i];
            exists|r: u16|
                #![trigger catalog[r]]
                catalog.contains_key(r) && sensor_from(p, catalog[r]) && if catalog[r].shortname@ == "battery_status"@ {
                    recorded.contains_key(5) ==> has_key(snapshot_entries(recorded, catalog), p.0)
                } else {
                    p.0 == catalog[r].shortname@ && (recorded.contains_key(r) ==> has_key(
                        snapshot_entries(recorded, catalog),
                        p.0,
                    ))
                }
        }),
{
    let metas = announced_registers(publish_all, catalog);
    let p = sensor_params(metas)[i];
    lemma_sensor_params_source(metas, i);
    let j = choose|j: int| 0 <= j < metas.len() && sensor_from(p, #[trigger] metas[j]);
    if publish_all {
        lemma_metas_below_from_catalog(catalog, 65536, j);
    } else {
        lemma_known_metas_from_catalog(catalog, curated_registers(), j);
    }
    let r = choose|r: u16| catalog.contains_key(r) && metas[j] == #[trigger] catalog[r];
    if catalog[r].shortname@ == "battery_status"@ {
        if recorded.contains_key(5) {
            lemma_snapshot_battery_keys(recorded, catalog);
        }
    } else {
        if recorded.contains_key(r) {
            lemma_register_entries_key(recorded, catalog, 0x10000, r);
            lemma_snapshot_keeps_register_keys(recorded, catalog, input_key_of(catalog, r));
        }
    }
}

} // verus!

verus! {

/// The holding register that each percentage control of the inverter sets, by the
/// control's label (the register map of the inverter's Modbus protocol).
pub open spec fn percent_control_register(label: Seq<char>) -> Option<nat> {
    if label == "System Charge Rate (%)"@ {
        Some(64)
    } else if label == "System Discharge Rate (%)"@ {
        Some(65)
    } else if label == "AC Charge Rate (%)"@ {
        Some(66)
    } else if label == "AC Charge Limit %"@ {
        Some(67)
    } else if label == "Charge Priority Rate (%)"@ {
        Some(74)
    } else if label == "Charge Priority Limit %"@ {
        Some(75)
    } else if label == "Forced Discharge Limit %"@ {
        Some(83)
    } else if label == "Discharge Cutoff %"@ {
        Some(105)
    } else if label == "Discharge Cutoff for EPS %"@ {
        Some(125)
    } else if label == "Charge From AC Lower Limit %"@ {
        Some(160)
    } else if label == "Charge From AC Upper Limit %"@ {
        Some(161)
    } else {
        None
    }
}

proof fn lemma_percent_labels_differ()
    ensures
        "System Charge Rate (%)"@ != "System Discharge Rate (%)"@,
        "AC Charge Rate (%)"@ != "System Charge Rate (%)"@,
        "AC Charge Rate (%)"@ != "System Discharge Rate (%)"@,
        "AC Charge Limit %"@ != "System Charge Rate (%)"@,
        "AC Charge Limit %"@ != "System Discharge Rate (%)"@,
        "AC Charge Limit %"@ != "AC Charge Rate (%)"@,
        "Charge Priority Rate (%)"@ != "System Charge Rate (%)"@,
        "Charge Priority Rate (%)"@ != "System Discharge Rate (%)"@,
        "Charge Priority Rate (%)"@ != "AC Charge Rate (%)"@,
        "Charge Priority Rate (%)"@ != "AC Charge Limit %"@,
        "Charge Priority Limit %"@ != "System Charge Rate (%)"@,
        "Charge Priority Limit %"@ != "System Discharge Rate (%)"@,
        "Charge Priority Limit %"@ != "AC Charge Rate (%)"@,
        "Charge Priority Limit %"@ != "AC Charge Limit %"@,
        "Charge Priority Limit %"@ != "Charge Priority Rate (%)"@,
        "Forced Discharge Limit %"@ != "System Charge Rate (%)"@,
        "Forced Discharge Limit %"@ != "System Discharge Rate (%)"@,
        "Forced Discharge Limit %"@ != "AC Charge Rate (%)"@,
        "Forced Discharge Limit %"@ != "AC Charge Limit %"@,
        "Forced Discharge Limit %"@ != "Charge Priority Rate (%)"@,
        "Forced Discharge Limit %"@ != "Charge Priority Limit %"@,
        "Discharge Cutoff %"@ != "System Charge Rate (%)"@,
        "Discharge Cutoff %"@ != "System Discharge Rate (%)"@,
        "Discharge Cutoff %"@ != "AC Charge Rate (%)"@,
        "Discharge Cutoff %"@ != "AC Charge Limit %"@,
        "Discharge Cutoff %"@ != "Charge Priority Rate (%)"@,
        "Discharge Cutoff %"@ != "Charge Priority Limit %"@,
        "Discharge Cutoff %"@ != "Forced Discharge Limit %"@,
        "Discharge Cutoff for EPS %"@ != "System Charge Rate (%)"@,
        "Discharge Cutoff for EPS %"@ != "System Discharge Rate (%)"@,
        "Discharge Cutoff for EPS %"@ != "AC Charge Rate (%)"@,
        "Discharge Cutoff for EPS %"@ != "AC Charge Limit %"@,
        "Discharge Cutoff for EPS %"@ != "Charge Priority Rate (%)"@,
        "Discharge Cutoff for EPS %"@ != "Charge Priority Limit %"@,
        "Discharge Cutoff for EPS %"@ != "Forced Discharge Limit %"@,
        "Discharge Cutoff for EPS %"@ != "Discharge Cutoff %"@,
        "Charge From AC Lower Limit %"@ != "System Charge Rate (%)"@,
        "Charge From AC Lower Limit %"@ != "System Discharge Rate (%)"@,
        "Charge From AC Lower Limit %"@ != "AC Charge Rate (%)"@,
        "Charge From AC Lower Limit %"@ != "AC Charge Limit %"@,
        "Charge From AC Lower Limit %"@ != "Charge Priority Rate (%)"@,
        "Charge From AC Lower Limit %"@ != "Charge Priority Limit %"@,
        "Charge From AC Lower Limit %"@ != "Forced Discharge Limit %"@,
        "Charge From AC Lower Limit %"@ != "Discharge Cutoff %"@,
        "Charge From AC Lower Limit %"@ != "Discharge Cutoff for EPS %"@,
        "Charge From AC Upper Limit %"@ != "System Charge Rate (%)"@,
        "Charge From AC Upper Limit %"@ != "System Discharge Rate (%)"@,
        "Charge From AC Upper Limit %"@ != "AC Charge Rate (%)"@,
        "Charge From AC Upper Limit %"@ != "AC Charge Limit %"@,
        "Charge From AC Upper Limit %"@ != "Charge Priority Rate (%)"@,
        "Charge From AC Upper Limit %"@ != "Charge Priority Limit %"@,
        "Charge From AC Upper Limit %"@ != "Forced Discharge Limit %"@,
        "Charge From AC Upper Limit %"@ != "Discharge Cutoff %"@,
        "Charge From AC Upper Limit %"@ != "Discharge Cutoff for EPS %"@,
        "Charge From AC Upper Limit %"@ != "Charge From AC Lower Limit %"@,
{
    reveal_strlit("System Charge Rate (%)");
    reveal_strlit("System Discharge Rate (%)");
    reveal_strlit("AC Charge Rate (%)");
    reveal_strlit("AC Charge Limit %");
    reveal_strlit("Charge Priority Rate (%)");
    reveal_strlit("Charge Priority Limit %");
    reveal_strlit("Forced Discharge Limit %");
    reveal_strlit("Discharge Cutoff %");
    reveal_strlit("Discharge Cutoff for EPS %");
    reveal_strlit("Charge From AC Lower Limit %");
    reveal_strlit("Charge From AC Upper Limit %");
    assert("System Charge Rate (%)"@.len() == 22);
    assert("System Discharge Rate (%)"@.len() == 25);
    assert("AC Charge Rate (%)"@.len() == 18);
    assert("AC Charge Limit %"@.len() == 17);
    assert("Charge Priority Rate (%)"@.len() == 24);
    assert("Charge Priority Limit %"@.len() == 23);
    assert("Forced Discharge Limit %"@.len() == 24);
    assert("Discharge Cutoff %"@.len() == 18);
    assert("Discharge Cutoff for EPS %"@.len() == 26);
    assert("Charge From AC Lower Limit %"@.len() == 28);
    assert("Charge From AC Upper Limit %"@.len() == 28);
    assert("AC Charge Rate (%)"@[0] != "Discharge Cutoff %"@[0]);
    assert("Charge Priority Rate (%)"@[0] != "Forced Discharge Limit %"@[0]);
    assert("Charge From AC Upper Limit %"@[15] != "Charge From AC Lower Limit %"@[15]);
}

/// Law: each percentage control sets the holding register its label names: its state and
/// command topics both address that register (so "System Discharge Rate (%)" sets register
/// 65, never the charge rate's 64).
pub proof fn percentage_controls_address_their_registers(cfg: Config, d: Discovery, i: int)
    requires
        0 <= i < 26,
        cfg.control_is(d, i),
        d.entity is Number,
    ensures
        percent_control_register(d.entity->Number_0.name@) matches Some(r) && d.entity->Number_0.command_topic@
            == cfg.ns() + "/cmd/"@ + cfg.dl() + "/set/hold/"@ + decimal(r) && d.entity->Number_0.state_topic@
            == cfg.ns() + "/"@ + cfg.dl() + "/hold/"@ + decimal(r),
{
    lemma_percent_labels_differ();
}

proof fn lemma_prefix_cancel(p: Seq<char>, a: Seq<char>, b: Seq<char>)
    requires
        p + a == p + b,
    ensures
        a == b,
{
    assert((p + a).skip(p.len() as int) =~= a);
    assert((p + b).skip(p.len() as int) =~= b);
}

/// Law: two different percentage controls never set the same register: their command
/// topics differ.
pub proof fn percentage_controls_set_distinct_registers(cfg: Config, d1: Discovery, i: int, d2: Discovery, j: int)
    requires
        0 <= i < 26,
        0 <= j < 26,
        i != j,
        cfg.control_is(d1, i),
        cfg.control_is(d2, j),
        d1.entity is Number,
        d2.entity is Number,
    ensures
        d1.entity->Number_0.command_topic@ != d2.entity->Number_0.command_topic@,
{
    percentage_controls_address_their_registers(cfg, d1, i);
    percentage_controls_address_their_registers(cfg, d2, j);
    let r1 = percent_control_register(d1.entity->Number_0.name@)->0;
    let r2 = percent_control_register(d2.entity->Number_0.name@)->0;
    assert(r1 != r2) by {
        lemma_percent_labels_differ();
    }
    if d1.entity->Number_0.command_topic@ == d2.entity->Number_0.command_topic@ {
        let p = cfg.ns() + "/cmd/"@ + cfg.dl() + "/set/hold/"@;
        lemma_prefix_cancel(p, decimal(r1), decimal(r2));
        lemma_decimal_digits(r1);
        lemma_decimal_digits(r2);
    }
}

} // verus!
