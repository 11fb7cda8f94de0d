//! The coordinator's decisions: packet statistics, configuration updates from what the
//! inverters report, and where each received packet goes.
use vstd::prelude::*;

use crate::config::{
    enabled_databases_of, enabled_inverters_of, first_index, first_where, has_datalog, has_serial,
    with_datalog, with_inverters, with_serial, Config, ConfigWrapper, Database, Inverter,
};
use crate::register_cache::{
    entries_view, inputs_or_empty, recorded, snapshot_entries, CacheStep, ChannelData as CacheData,
    RegisterCache,
};
use crate::register_metadata::{RegisterCatalog, RegisterMeta};
use crate::serial::Serial;
use crate::text::{copy_string, decimal, hex4, push_decimal, push_hex4, string_of};

verus! {

/// Counters of the packets and messages the bridge has handled.
#[derive(Debug)]
pub struct PacketStats {
    pub packets_received: u64,
    pub packets_sent: u64,
    pub heartbeat_packets_received: u64,
    pub translated_data_packets_received: u64,
    pub read_param_packets_received: u64,
    pub write_param_packets_received: u64,
    pub heartbeat_packets_sent: u64,
    pub translated_data_packets_sent: u64,
    pub read_param_packets_sent: u64,
    pub write_param_packets_sent: u64,
    pub modbus_errors: u64,
    pub mqtt_errors: u64,
    pub influx_errors: u64,
    pub database_errors: u64,
    pub register_cache_errors: u64,
    pub mqtt_messages_sent: u64,
    pub influx_writes: u64,
    pub database_writes: u64,
    pub register_cache_writes: u64,
    /// Disconnections counted per inverter serial.
    pub inverter_disconnections: Vec<(Serial, u64)>,
    pub serial_mismatches: u64,
    /// The last message received from each inverter.
    pub last_messages: Vec<(Serial, String)>,
}

/// The statistics before anything has happened: every counter 0, no entries.
pub open spec fn is_zero(s: PacketStats) -> bool {
    &&& s.packets_received == 0 && s.packets_sent == 0
    &&& s.heartbeat_packets_received == 0 && s.translated_data_packets_received == 0
    &&& s.read_param_packets_received == 0 && s.write_param_packets_received == 0
    &&& s.heartbeat_packets_sent == 0 && s.translated_data_packets_sent == 0
    &&& s.read_param_packets_sent == 0 && s.write_param_packets_sent == 0
    &&& s.modbus_errors == 0 && s.mqtt_errors == 0 && s.influx_errors == 0
    &&& s.database_errors == 0 && s.register_cache_errors == 0
    &&& s.mqtt_messages_sent == 0 && s.influx_writes == 0 && s.database_writes == 0
    &&& s.register_cache_writes == 0
    &&& s.inverter_disconnections@.len() == 0
    &&& s.serial_mismatches == 0
    &&& s.last_messages@.len() == 0
}

/// No inverter serial has two entries in the per-inverter statistics (each list stands for
/// a map from serial to value).
pub open spec fn serials_distinct(s: PacketStats) -> bool {
    &&& forall|i: int, j: int|
        0 <= i < j < s.inverter_disconnections@.len() ==> (#[trigger] s.inverter_disconnections@[i]).0
            != (#[trigger] s.inverter_disconnections@[j]).0
    &&& forall|i: int, j: int|
        0 <= i < j < s.last_messages@.len() ==> (#[trigger] s.last_messages@[i]).0 != (
        #[trigger] s.last_messages@[j]).0
}

impl Default for PacketStats {
    fn default() -> (r: Self)
        ensures
            is_zero(r),
            serials_distinct(r),
    {
        PacketStats {
            packets_received: 0,
            packets_sent: 0,
            heartbeat_packets_received: 0,
            translated_data_packets_received: 0,
            read_param_packets_received: 0,
            write_param_packets_received: 0,
            heartbeat_packets_sent: 0,
            translated_data_packets_sent: 0,
            read_param_packets_sent: 0,
            write_param_packets_sent: 0,
            modbus_errors: 0,
            mqtt_errors: 0,
            influx_errors: 0,
            database_errors: 0,
            register_cache_errors: 0,
            mqtt_messages_sent: 0,
            influx_writes: 0,
            database_writes: 0,
            register_cache_writes: 0,
            inverter_disconnections: Vec::new(),
            serial_mismatches: 0,
            last_messages: Vec::new(),
        }
    }
}

fn copy_last_messages(v: &Vec<(Serial, String)>) -> (r: Vec<(Serial, String)>)
    ensures
        r@ == v@,
{
    let mut r: Vec<(Serial, String)> = Vec::new();
    let mut i: usize = 0;
    while i < v.len()
        invariant
            i <= v.len(),
            r@ == v@.take(i as int),
        decreases v.len() - i,
    {
        let (s, m) = &v[i];
        r.push((*s, copy_string(m)));
        assert(v@.take(i + 1) == v@.take(i as int).push(v@[i as int]));
        i = i + 1;
    }
    assert(v@.take(v.len() as int) == v@);
    r
}

fn copy_disconnections(v: &Vec<(Serial, u64)>) -> (r: Vec<(Serial, u64)>)
    ensures
        r@ == v@,
{
    let mut r: Vec<(Serial, u64)> = Vec::new();
    let mut i: usize = 0;
    while i < v.len()
        invariant
            i <= v.len(),
            r@ == v@.take(i as int),
        decreases v.len() - i,
    {
        r.push(v[i]);
        assert(v@.take(i + 1) == v@.take(i as int).push(v@[i as int]));
        i = i + 1;
    }
    assert(v@.take(v.len() as int) == v@);
    r
}

impl PacketStats {
    pub fn increment_serial_mismatches(&mut self)
        requires
            old(self).serial_mismatches < u64::MAX,
        ensures
            *final(self) == (PacketStats { serial_mismatches: (old(self).serial_mismatches + 1) as u64, ..*old(self) }),
    {
        self.serial_mismatches = self.serial_mismatches + 1;
    }

    pub fn increment_mqtt_errors(&mut self)
        requires
            old(self).mqtt_errors < u64::MAX,
        ensures
            *final(self) == (PacketStats { mqtt_errors: (old(self).mqtt_errors + 1) as u64, ..*old(self) }),
    {
        self.mqtt_errors = self.mqtt_errors + 1;
    }

    pub fn increment_cache_errors(&mut self)
        requires
            old(self).register_cache_errors < u64::MAX,
        ensures
            *final(self) == (PacketStats {
                register_cache_errors: (old(self).register_cache_errors + 1) as u64,
                ..*old(self)
            }),
    {
        self.register_cache_errors = self.register_cache_errors + 1;
    }

    /// Makes every counter and entry equal to those of `other`.
    pub fn copy_from(&mut self, other: &PacketStats)
        ensures
            final(self).packets_received == other.packets_received,
            final(self).packets_sent == other.packets_sent,
            final(self).heartbeat_packets_received == other.heartbeat_packets_received,
            final(self).translated_data_packets_received == other.translated_data_packets_received,
            final(self).read_param_packets_received == other.read_param_packets_received,
            final(self).write_param_packets_received == other.write_param_packets_received,
            final(self).heartbeat_packets_sent == other.heartbeat_packets_sent,
            final(self).translated_data_packets_sent == other.translated_data_packets_sent,
            final(self).read_param_packets_sent == other.read_param_packets_sent,
            final(self).write_param_packets_sent == other.write_param_packets_sent,
            final(self).modbus_errors == other.modbus_errors,
            final(self).mqtt_errors == other.mqtt_errors,
            final(self).influx_errors == other.influx_errors,
            final(self).database_errors == other.database_errors,
            final(self).register_cache_errors == other.register_cache_errors,
            final(self).mqtt_messages_sent == other.mqtt_messages_sent,
            final(self).influx_writes == other.influx_writes,
            final(self).database_writes == other.database_writes,
            final(self).register_cache_writes == other.register_cache_writes,
            final(self).inverter_disconnections@ == other.inverter_disconnections@,
            final(self).serial_mismatches == other.serial_mismatches,
            final(self).last_messages@ == other.last_messages@,
            serials_distinct(*other) ==> serials_distinct(*final(self)),
    {
        self.packets_received = other.packets_received;
        self.packets_sent = other.packets_sent;
        self.heartbeat_packets_received = other.heartbeat_packets_received;
        self.translated_data_packets_received = other.translated_data_packets_received;
        self.read_param_packets_received = other.read_param_packets_received;
        self.write_param_packets_received = other.write_param_packets_received;
        self.heartbeat_packets_sent = other.heartbeat_packets_sent;
        self.translated_data_packets_sent = other.translated_data_packets_sent;
        self.read_param_packets_sent = other.read_param_packets_sent;
        self.write_param_packets_sent = other.write_param_packets_sent;
        self.modbus_errors = other.modbus_errors;
        self.mqtt_errors = other.mqtt_errors;
        self.influx_errors = other.influx_errors;
        self.database_errors = other.database_errors;
        self.register_cache_errors = other.register_cache_errors;
        self.mqtt_messages_sent = other.mqtt_messages_sent;
        self.influx_writes = other.influx_writes;
        self.database_writes = other.database_writes;
        self.register_cache_writes = other.register_cache_writes;
        self.inverter_disconnections = copy_disconnections(&other.inverter_disconnections);
        self.serial_mismatches = other.serial_mismatches;
        self.last_messages = copy_last_messages(&other.last_messages);
    }
}

} // verus!

verus! {

/// The Modbus function of a translated-data packet.
#[derive(Clone, Copy, Debug, PartialEq, Eq, Structural)]
pub enum DeviceFunction {
    ReadHold,
    ReadInput,
    WriteSingle,
    WriteMulti,
    ReadHoldError,
}

/// A packet carrying register data from an inverter.
#[derive(Debug)]
pub struct TranslatedData {
    pub datalog: Serial,
    pub inverter: Serial,
    pub device_function: DeviceFunction,
    pub register: u16,
    pub values: Vec<u8>,
}

/// A packet carrying parameter registers of the datalogger.
#[derive(Debug)]
pub struct ParamData {
    pub datalog: Serial,
    pub register: u16,
    pub values: Vec<u8>,
}

/// A packet received from an inverter.
#[derive(Debug)]
pub enum Packet {
    TranslatedData(TranslatedData),
    ReadParam(ParamData),
    WriteParam(ParamData),
    Heartbeat(Serial),
}

/// The datalog a packet comes from.
pub open spec fn packet_datalog(p: Packet) -> Serial {
    match p {
        Packet::TranslatedData(td) => td.datalog,
        Packet::ReadParam(rp) => rp.datalog,
        Packet::WriteParam(wp) => wp.datalog,
        Packet::Heartbeat(d) => d,
    }
}

/// The 16-bit register values carried by packet bytes: little-endian pairs, a lone last
/// byte standing for itself.
pub open spec fn words(bytes: Seq<u8>) -> Seq<u16> {
    Seq::new(
        ((bytes.len() + 1) / 2) as nat,
        |i: int|
            if 2 * i + 1 < bytes.len() {
                (bytes[2 * i] + bytes[2 * i + 1] * 256) as u16
            } else {
                bytes[2 * i] as u16
            },
    )
}

/// The register-cache stores for values starting at `register`.
pub open spec fn cache_stores(register: u16, values: Seq<u16>) -> Seq<CacheData> {
    Seq::new(values.len(), |i: int| CacheData::RegisterData((register + i) as u16, values[i]))
}

/// Every register a packet's bytes address fits in 16 bits.
pub open spec fn registers_fit(register: u16, bytes: Seq<u8>) -> bool {
    register + words(bytes).len() <= 0x10000
}

/// Decodes packet bytes into register values.
pub fn decode_words(bytes: &Vec<u8>) -> (r: Vec<u16>)
    ensures
        r@ == words(bytes@),
{
    let mut r: Vec<u16> = Vec::new();
    let n = bytes.len();
    let m = n / 2 + n % 2;
    let mut k: usize = 0;
    while k < m
        invariant
            k <= m,
            m == (n + 1) / 2,
            n == bytes@.len(),
            r@.len() == k,
            forall|j: int| 0 <= j < r@.len() ==> #[trigger] r@[j] == words(bytes@)[j],
        decreases m - k,
    {
        let i = 2 * k;
        let w: u16 = if i + 1 < n {
            bytes[i] as u16 + (bytes[i + 1] as u16) * 256
        } else {
            bytes[i] as u16
        };
        r.push(w);
        k = k + 1;
    }
    assert(r@ =~= words(bytes@));
    r
}

} // verus!

verus! {

/// What the bridge does with a received packet, in this order: send it to InfluxDB, hand
/// it to the database path, store its registers in the register cache, publish
/// the datalog's input snapshot, and send it to MQTT.
#[derive(Debug)]
pub struct PacketOutcome {
    pub influx: bool,
    /// The packet is handed to the database path, which decodes the input registers,
    /// assembles them per datalog and sends each block once it is complete: set for an
    /// input read while database sinks run.
    pub database: bool,
    pub cache: Vec<CacheData>,
    /// The snapshot topic and the entries of its JSON object, in insertion order.
    pub snapshot: Option<(String, Vec<(String, i64)>)>,
    pub mqtt: bool,
    /// A parameter write was refused because the inverter is read-only.
    pub read_only_rejected: bool,
}

/// The inverters with the first one whose serial is `old` given serial `new`.
pub open spec fn serial_update(invs: Seq<Inverter>, old: Serial, new: Serial) -> Seq<Inverter> {
    match first_index(invs, has_serial(old)) {
        Some(i) => invs.update(i, with_serial(invs[i], new)),
        None => invs,
    }
}

/// The inverters with the first one whose datalog is `old` given datalog `new`.
pub open spec fn datalog_update(invs: Seq<Inverter>, old: Serial, new: Serial) -> Seq<Inverter> {
    match first_index(invs, has_datalog(old)) {
        Some(i) => invs.update(i, with_datalog(invs[i], new)),
        None => invs,
    }
}

/// The inverters after a packet: when an enabled inverter has the packet's datalog and
/// translated data reports a different inverter serial, that serial is taken over; when no
/// enabled inverter has the datalog, the datalog is written back onto the first inverter
/// that has it.
pub open spec fn inverters_after(cfg: Config, p: Packet) -> Seq<Inverter> {
    let d = packet_datalog(p);
    match first_where(enabled_inverters_of(cfg.inverters@), has_datalog(d)) {
        Some(inv) => match p {
            Packet::TranslatedData(td) => match inv.serial {
                Some(current) => if current != td.inverter {
                    serial_update(cfg.inverters@, current, td.inverter)
                } else {
                    cfg.inverters@
                },
                None => cfg.inverters@,
            },
            _ => cfg.inverters@,
        },
        None => datalog_update(cfg.inverters@, d, d),
    }
}

/// The statistics after counting a received packet.
pub open spec fn counted(s: PacketStats, p: Packet) -> PacketStats {
    let s1 = PacketStats { packets_received: (s.packets_received + 1) as u64, ..s };
    match p {
        Packet::TranslatedData(_) => PacketStats {
            translated_data_packets_received: (s.translated_data_packets_received + 1) as u64,
            ..s1
        },
        Packet::ReadParam(_) => PacketStats { read_param_packets_received: (s.read_param_packets_received + 1) as u64, ..s1 },
        Packet::WriteParam(_) => PacketStats { write_param_packets_received: (s.write_param_packets_received + 1) as u64, ..s1 },
        Packet::Heartbeat(_) => PacketStats { heartbeat_packets_received: (s.heartbeat_packets_received + 1) as u64, ..s1 },
    }
}

/// The packet can be counted and its registers addressed without overflow.
pub open spec fn packet_acceptable(s: PacketStats, p: Packet) -> bool {
    &&& s.packets_received < u64::MAX
    &&& match p {
        Packet::TranslatedData(td) => s.translated_data_packets_received < u64::MAX && registers_fit(
            td.register,
            td.values@,
        ),
        Packet::ReadParam(rp) => s.read_param_packets_received < u64::MAX && registers_fit(rp.register, rp.values@),
        Packet::WriteParam(wp) => s.write_param_packets_received < u64::MAX && registers_fit(wp.register, wp.values@),
        Packet::Heartbeat(_) => s.heartbeat_packets_received < u64::MAX,
    }
}

/// Whether a translated-data packet is a write acknowledgement, which InfluxDB does not get.
pub open spec fn is_write(f: DeviceFunction) -> bool {
    f == DeviceFunction::WriteSingle || f == DeviceFunction::WriteMulti
}

/// A parameter write for a read-only inverter (or in global read-only mode) is refused.
pub open spec fn write_refused(cfg: Config, p: Packet) -> bool {
    match p {
        Packet::WriteParam(wp) => match first_where(enabled_inverters_of(cfg.inverters@), has_datalog(wp.datalog)) {
            Some(inv) => cfg.read_only || crate::config::or_default(inv.read_only, false),
            None => false,
        },
        _ => false,
    }
}

/// The register-cache stores a packet causes.
pub open spec fn stores_of(cfg: Config, p: Packet) -> Seq<CacheData> {
    match p {
        Packet::TranslatedData(td) => cache_stores(td.register, words(td.values@)),
        Packet::ReadParam(rp) => cache_stores(rp.register, words(rp.values@)),
        Packet::WriteParam(wp) => if write_refused(cfg, p) {
            Seq::empty()
        } else {
            cache_stores(wp.register, words(wp.values@))
        },
        Packet::Heartbeat(_) => Seq::empty(),
    }
}

/// Whether the packet carries input registers that are recorded for the snapshot.
pub open spec fn records_inputs(p: Packet) -> bool {
    p matches Packet::TranslatedData(td) && td.device_function == DeviceFunction::ReadInput
}

/// The bridge's coordinator state.
pub struct Coordinator {
    config: ConfigWrapper,
    stats: PacketStats,
    register_cache: Option<RegisterCache>,
    influx_running: bool,
    databases_running: bool,
}

impl Coordinator {
    pub closed spec fn spec_config(&self) -> Config {
        self.config@
    }

    pub closed spec fn spec_stats(&self) -> PacketStats {
        self.stats
    }

    /// The register cache, once started.
    pub closed spec fn spec_cache(&self) -> Option<RegisterCache> {
        self.register_cache
    }

    pub closed spec fn spec_influx_running(&self) -> bool {
        self.influx_running
    }

    pub closed spec fn spec_databases_running(&self) -> bool {
        self.databases_running
    }

    /// A started register cache is well formed, and no serial has two entries in the
    /// statistics.
    pub open spec fn wf(&self) -> bool {
        &&& self.spec_cache() matches Some(c) ==> c.wf()
        &&& serials_distinct(self.spec_stats())
    }

    /// A coordinator for this configuration, with nothing started and zero statistics.
    pub fn new(config: ConfigWrapper) -> (r: Self)
        ensures
            r.wf(),
            r.spec_config() == config@,
            is_zero(r.spec_stats()),
            r.spec_cache() is None,
            !r.spec_influx_running(),
            !r.spec_databases_running(),
    {
        Coordinator {
            config,
            stats: PacketStats::default(),
            register_cache: None,
            influx_running: false,
            databases_running: false,
        }
    }

    /// Starts the register cache, empty.
    pub fn start_register_cache(&mut self)
        requires
            old(self).wf(),
        ensures
            final(self).wf(),
            final(self).spec_cache() matches Some(c) && c.registers() == Seq::new(512, |i: int| 0u16)
                && c.inputs() == Map::<Serial, Map<u16, u16>>::empty(),
            final(self).spec_config() == old(self).spec_config(),
            final(self).spec_stats() == old(self).spec_stats(),
            final(self).spec_influx_running() == old(self).spec_influx_running(),
            final(self).spec_databases_running() == old(self).spec_databases_running(),
    {
        self.register_cache = Some(RegisterCache::new());
    }

    /// Records whether the InfluxDB client and the database sinks are running.
    pub fn set_sinks(&mut self, influx_running: bool, databases_running: bool)
        ensures
            final(self).spec_influx_running() == influx_running,
            final(self).spec_databases_running() == databases_running,
            final(self).spec_config() == old(self).spec_config(),
            final(self).spec_stats() == old(self).spec_stats(),
            final(self).spec_cache() == old(self).spec_cache(),
    {
        self.influx_running = influx_running;
        self.databases_running = databases_running;
    }

    pub fn config(&self) -> (r: &ConfigWrapper)
        ensures
            r@ == self.spec_config(),
    {
        &self.config
    }

    pub fn stats(&self) -> (r: &PacketStats)
        ensures
            *r == self.spec_stats(),
    {
        &self.stats
    }

    /// The register-cache stores for the values of packet bytes starting at `register`.
    pub fn cache_register(&self, register: u16, values: &Vec<u8>) -> (r: Vec<CacheData>)
        requires
            registers_fit(register, values@),
        ensures
            r@ == cache_stores(register, words(values@)),
    {
        let words_v = decode_words(values);
        let mut r: Vec<CacheData> = Vec::new();
        let mut i: usize = 0;
        while i < words_v.len()
            invariant
                i <= words_v.len(),
                words_v@ == words(values@),
                register + words_v@.len() <= 0x10000,
                r@ == cache_stores(register, words_v@).take(i as int),
            decreases words_v.len() - i,
        {
            r.push(CacheData::RegisterData(register + i as u16, words_v[i]));
            assert(cache_stores(register, words_v@).take(i + 1) =~= cache_stores(register, words_v@).take(i as int).push(
                CacheData::RegisterData((register + i) as u16, words_v@[i as int]),
            ));
            i = i + 1;
        }
        assert(cache_stores(register, words_v@).take(words_v.len() as int) =~= cache_stores(register, words_v@));
        r
    }

    /// The reading side of the register cache, once started.
    pub fn cache_getter_step(&self, data: &CacheData) -> (r: Option<CacheStep>)
        requires
            self.wf(),
            crate::register_cache::in_range(*data),
        ensures
            match self.spec_cache() {
                Some(c) => r == Some(crate::register_cache::getter_reply(c.registers(), *data)),
                None => r is None,
            },
    {
        match &self.register_cache {
            Some(c) => Some(c.getter_step(data)),
            None => None,
        }
    }
}

} // verus!

verus! {

/// The snapshot topic of a datalog: "<datalog>/inputs/all".
pub open spec fn snapshot_topic(d: Serial) -> Seq<char> {
    d.text() + "/inputs/all"@
}

fn empty_outcome() -> (r: PacketOutcome)
    ensures
        !r.influx && !r.database && r.cache@.len() == 0 && r.snapshot is None && !r.mqtt && !r.read_only_rejected,
{
    PacketOutcome {
        influx: false,
        database: false,
        cache: Vec::new(),
        snapshot: None,
        mqtt: false,
        read_only_rejected: false,
    }
}

impl Coordinator {
    /// The writing side of the register cache, once started.
    pub fn cache_setter_step(&mut self, data: &CacheData) -> (r: Option<CacheStep>)
        requires
            old(self).wf(),
            crate::register_cache::in_range(*data),
        ensures
            final(self).wf(),
            final(self).spec_config() == old(self).spec_config(),
            final(self).spec_stats() == old(self).spec_stats(),
            match old(self).spec_cache() {
                Some(c) => r == Some(crate::register_cache::setter_step(*data)) && (final(self).spec_cache() matches Some(c2)
                    && c2.registers() == crate::register_cache::setter_next(c.registers(), *data) && c2.inputs()
                    == c.inputs()),
                None => r is None && final(self).spec_cache() is None,
            },
    {
        match self.register_cache.take() {
            Some(mut c) => {
                let step = c.setter_step(data);
                self.register_cache = Some(c);
                Some(step)
            },
            None => None,
        }
    }

    /// Counts a packet and updates the inverter identities it reveals.
    fn note_packet(&mut self, packet: &Packet)
        requires
            packet_acceptable(old(self).spec_stats(), *packet),
        ensures
            final(self).spec_stats() == counted(old(self).spec_stats(), *packet),
            final(self).spec_config() == with_inverters(old(self).spec_config(), final(self).spec_config().inverters),
            final(self).spec_config().inverters@ == inverters_after(old(self).spec_config(), *packet),
            final(self).spec_cache() == old(self).spec_cache(),
            final(self).spec_influx_running() == old(self).spec_influx_running(),
            final(self).spec_databases_running() == old(self).spec_databases_running(),
    {
        self.stats.packets_received = self.stats.packets_received + 1;
        let datalog = match packet {
            Packet::TranslatedData(td) => {
                self.stats.translated_data_packets_received = self.stats.translated_data_packets_received + 1;
                td.datalog
            },
            Packet::ReadParam(rp) => {
                self.stats.read_param_packets_received = self.stats.read_param_packets_received + 1;
                rp.datalog
            },
            Packet::WriteParam(wp) => {
                self.stats.write_param_packets_received = self.stats.write_param_packets_received + 1;
                wp.datalog
            },
            Packet::Heartbeat(d) => {
                self.stats.heartbeat_packets_received = self.stats.heartbeat_packets_received + 1;
                *d
            },
        };
        match self.config.enabled_inverter_with_datalog(datalog) {
            Some(inverter) => {
                match packet {
                    Packet::TranslatedData(td) => match inverter.serial() {
                        Some(current) => {
                            if !(current == td.inverter) {
                                let _ = self.config.update_inverter_serial(current, td.inverter);
                            }
                        },
                        None => {},
                    },
                    _ => {},
                }
            },
            None => {
                let _ = self.config.update_inverter_datalog(datalog, datalog);
            },
        }
    }
}

} // verus!

verus! {

impl Coordinator {
    /// Handles a packet received from an inverter: counts it, updates the inverter identities
    /// it reveals and, unless the bridge is shutting down, decides where it goes. Input
    /// registers of a translated-data read are recorded in the register cache and, with MQTT
    /// enabled, the datalog's input snapshot is published.
    pub fn process_packet(&mut self, packet: &Packet, shutting_down: bool, catalog: &RegisterCatalog) -> (r: PacketOutcome)
        requires
            old(self).wf(),
            packet_acceptable(old(self).spec_stats(), *packet),
        ensures
            final(self).wf(),
            final(self).spec_stats() == counted(old(self).spec_stats(), *packet),
            final(self).spec_config() == with_inverters(old(self).spec_config(), final(self).spec_config().inverters),
            final(self).spec_config().inverters@ == inverters_after(old(self).spec_config(), *packet),
            final(self).spec_influx_running() == old(self).spec_influx_running(),
            final(self).spec_databases_running() == old(self).spec_databases_running(),
            shutting_down ==> {
                &&& !r.influx && !r.database && r.cache@.len() == 0 && r.snapshot is None && !r.mqtt
                &&& !r.read_only_rejected
                &&& final(self).spec_cache() == old(self).spec_cache()
            },
            !shutting_down ==> {
                let cfg = final(self).spec_config();
                &&& r.influx == (*packet matches Packet::TranslatedData(td) && !is_write(td.device_function)
                    && old(self).spec_influx_running())
                &&& r.database == (records_inputs(*packet) && old(self).spec_databases_running())
                &&& r.cache@ == stores_of(cfg, *packet)
                &&& r.read_only_rejected == write_refused(cfg, *packet)
                &&& r.mqtt == (*packet is TranslatedData && cfg.mqtt.enabled)
                &&& match old(self).spec_cache() {
                    None => final(self).spec_cache() is None && r.snapshot is None,
                    Some(c) => final(self).spec_cache() matches Some(c2) && c2.registers() == c.registers() && if records_inputs(*packet) {
                        let td = packet->TranslatedData_0;
                        let inputs = c.inputs().insert(
                            td.datalog,
                            recorded(inputs_or_empty(c.inputs(), td.datalog), td.register, words(td.values@)),
                        );
                        &&& c2.inputs() == inputs
                        &&& if cfg.mqtt.enabled {
                            r.snapshot matches Some(snap) && snap.0@ == snapshot_topic(td.datalog)
                                && entries_view(snap.1@) == snapshot_entries(inputs[td.datalog], catalog@)
                        } else {
                            r.snapshot is None
                        }
                    } else {
                        c2.inputs() == c.inputs() && r.snapshot is None
                    },
                }
            },
    {
        self.note_packet(packet);
        if shutting_down {
            return empty_outcome();
        }
        let mut out = empty_outcome();
        match packet {
            Packet::TranslatedData(td) => {
                let is_write_fn = td.device_function == DeviceFunction::WriteSingle || td.device_function
                    == DeviceFunction::WriteMulti;
                out.influx = !is_write_fn && self.influx_running;
                let reads_input = td.device_function == DeviceFunction::ReadInput;
                out.database = reads_input && self.databases_running;
                out.cache = self.cache_register(td.register, &td.values);
                if reads_input {
                    match self.register_cache.take() {
                        Some(mut c) => {
                            let values = decode_words(&td.values);
                            c.record_input(td.datalog, td.register, values.as_slice());
                            if self.config.mqtt().enabled() {
                                match c.input_snapshot(&td.datalog, catalog) {
                                    Some(entries) => {
                                        let mut topic = td.datalog.to_string();
                                        topic.append("/inputs/all");
                                        out.snapshot = Some((topic, entries));
                                    },
                                    None => {},
                                }
                            }
                            self.register_cache = Some(c);
                        },
                        None => {},
                    }
                }
                out.mqtt = self.config.mqtt().enabled();
            },
            Packet::ReadParam(rp) => {
                out.cache = self.cache_register(rp.register, &rp.values);
            },
            Packet::WriteParam(wp) => {
                let refused = match self.config.enabled_inverter_with_datalog(wp.datalog) {
                    Some(inverter) => self.config.read_only() || inverter.read_only(),
                    None => false,
                };
                if refused {
                    out.read_only_rejected = true;
                } else {
                    out.cache = self.cache_register(wp.register, &wp.values);
                }
            },
            Packet::Heartbeat(_) => {},
        }
        out
    }
}

} // verus!

verus! {

/// Law: in global read-only mode, a parameter write for a configured enabled inverter is
/// refused and stores nothing in the register cache.
pub proof fn read_only_blocks_parameter_writes(cfg: Config, p: Packet)
    requires
        cfg.read_only,
        p is WriteParam,
        first_where(enabled_inverters_of(cfg.inverters@), has_datalog(packet_datalog(p))) is Some,
    ensures
        write_refused(cfg, p),
        stores_of(cfg, p).len() == 0,
{
}

/// Law: an inverter that is itself read-only refuses parameter writes, whatever the global
/// setting.
pub proof fn read_only_inverter_blocks_parameter_writes(cfg: Config, p: Packet)
    requires
        p is WriteParam,
        first_where(enabled_inverters_of(cfg.inverters@), has_datalog(packet_datalog(p))) matches Some(inv)
            && inv.read_only == Some(true),
    ensures
        write_refused(cfg, p),
        stores_of(cfg, p).len() == 0,
{
}

/// Law: each received packet is counted exactly once, in the total and under its kind.
pub proof fn every_packet_counted_once(s: PacketStats, p: Packet)
    requires
        packet_acceptable(s, p),
    ensures
        counted(s, p).packets_received == s.packets_received + 1,
        counted(s, p).packets_sent == s.packets_sent,
        counted(s, p).translated_data_packets_received + counted(s, p).read_param_packets_received
            + counted(s, p).write_param_packets_received + counted(s, p).heartbeat_packets_received
            == s.translated_data_packets_received + s.read_param_packets_received + s.write_param_packets_received
            + s.heartbeat_packets_received + 1,
{
}

} // verus!

verus! {

/// A message on the coordinator's own channel.
#[derive(Debug)]
pub enum ChannelData {
    Shutdown,
    Packet(Packet),
    SendPacket(Packet),
}

/// What the coordinator's loop does with a message on its channel.
#[derive(Clone, Copy, Debug, PartialEq, Eq, Structural)]
pub enum Route {
    /// Process the packet as if an inverter had sent it.
    Process,
    /// Forward the packet to the inverters.
    Forward,
    /// Leave the loop.
    Stop,
}

/// Where a message on the coordinator's channel goes.
pub fn route(message: &ChannelData) -> (r: Route)
    ensures
        r == match *message {
            ChannelData::Shutdown => Route::Stop,
            ChannelData::Packet(_) => Route::Process,
            ChannelData::SendPacket(_) => Route::Forward,
        },
{
    match message {
        ChannelData::Shutdown => Route::Stop,
        ChannelData::Packet(_) => Route::Process,
        ChannelData::SendPacket(_) => Route::Forward,
    }
}

} // verus!

verus! {

/// The view of each line of a text.
pub open spec fn lines_view(v: Seq<String>) -> Seq<Seq<char>> {
    v.map_values(|l: String| l@)
}

/// A summary line: its label followed by the count in decimal.
pub open spec fn counter_line(label: Seq<char>, n: u64) -> Seq<char> {
    label + decimal(n as nat)
}

/// The fixed part of the statistics summary: every counter under its label.
pub open spec fn summary_head(s: PacketStats) -> Seq<Seq<char>> {
    seq![
        "Packet Statistics:"@,
        counter_line("  Total packets received: "@, s.packets_received),
        counter_line("  Total packets sent: "@, s.packets_sent),
        "  Received Packet Types:"@,
        counter_line("    Heartbeat packets: "@, s.heartbeat_packets_received),
        counter_line("    TranslatedData packets: "@, s.translated_data_packets_received),
        counter_line("    ReadParam packets: "@, s.read_param_packets_received),
        counter_line("    WriteParam packets: "@, s.write_param_packets_received),
        "  Sent Packet Types:"@,
        counter_line("    Heartbeat packets: "@, s.heartbeat_packets_sent),
        counter_line("    TranslatedData packets: "@, s.translated_data_packets_sent),
        counter_line("    ReadParam packets: "@, s.read_param_packets_sent),
        counter_line("    WriteParam packets: "@, s.write_param_packets_sent),
        "  Errors:"@,
        counter_line("    Modbus errors: "@, s.modbus_errors),
        counter_line("    MQTT errors: "@, s.mqtt_errors),
        counter_line("    InfluxDB errors: "@, s.influx_errors),
        counter_line("    Database errors: "@, s.database_errors),
        counter_line("    Register cache errors: "@, s.register_cache_errors),
        "  MQTT:"@,
        counter_line("    Messages sent: "@, s.mqtt_messages_sent),
        "  InfluxDB:"@,
        counter_line("    Writes: "@, s.influx_writes),
        "  Database:"@,
        counter_line("    Writes: "@, s.database_writes),
        "  Register Cache:"@,
        counter_line("    Writes: "@, s.register_cache_writes),
        "  Connection Stats:"@,
        counter_line("    Serial number mismatches: "@, s.serial_mismatches),
        "    Inverter disconnections by serial:"@,
    ]
}

/// The last message recorded for an inverter: the first entry with its serial.
pub open spec fn last_message_of(msgs: Seq<(Serial, String)>, s: Serial) -> Option<Seq<char>>
    decreases msgs.len(),
{
    if msgs.len() == 0 {
        None
    } else if msgs[0].0 == s {
        Some(msgs[0].1@)
    } else {
        last_message_of(msgs.drop_first(), s)
    }
}

/// The summary lines of one inverter's disconnections: the count, then its last message
/// when one is recorded.
pub open spec fn disconnection_lines(d: (Serial, u64), msgs: Seq<(Serial, String)>) -> Seq<Seq<char>> {
    let count = "      "@ + d.0.text() + ": "@ + decimal(d.1 as nat);
    match last_message_of(msgs, d.0) {
        Some(m) => seq![count, "      Last message: "@ + m],
        None => seq![count],
    }
}

/// The disconnection lines of the first `n` inverters.
pub open spec fn disconnections_lines(ds: Seq<(Serial, u64)>, msgs: Seq<(Serial, String)>, n: int) -> Seq<Seq<char>>
    decreases n,
{
    if n <= 0 {
        Seq::empty()
    } else {
        disconnections_lines(ds, msgs, n - 1) + disconnection_lines(ds[n - 1], msgs)
    }
}

/// The whole statistics summary, line by line.
pub open spec fn summary(s: PacketStats) -> Seq<Seq<char>> {
    summary_head(s) + disconnections_lines(
        s.inverter_disconnections@,
        s.last_messages@,
        s.inverter_disconnections@.len() as int,
    )
}

fn push_line(out: &mut Vec<String>, text: &str)
    ensures
        lines_view(final(out)@) == lines_view(old(out)@).push(text@),
{
    let ghost before = out@;
    out.push(string_of(text));
    assert(lines_view(out@) =~= lines_view(before).push(text@));
}

fn push_counter(out: &mut Vec<String>, label: &str, n: u64)
    ensures
        lines_view(final(out)@) == lines_view(old(out)@).push(counter_line(label@, n)),
{
    let ghost before = out@;
    let mut line = string_of(label);
    push_decimal(&mut line, n);
    out.push(line);
    assert(lines_view(out@) =~= lines_view(before).push(counter_line(label@, n)));
}

proof fn lemma_last_message_skip(msgs: Seq<(Serial, String)>, s: Serial, i: int)
    requires
        0 <= i < msgs.len(),
    ensures
        last_message_of(msgs.skip(i), s) == if msgs[i].0 == s {
            Some(msgs[i].1@)
        } else {
            last_message_of(msgs.skip(i + 1), s)
        },
{
    assert(msgs.skip(i).drop_first() =~= msgs.skip(i + 1));
    assert(msgs.skip(i)[0] == msgs[i]);
}

fn find_last_message(msgs: &Vec<(Serial, String)>, s: &Serial) -> (r: Option<String>)
    ensures
        match r {
            Some(m) => last_message_of(msgs@, *s) == Some(m@),
            None => last_message_of(msgs@, *s) is None,
        },
{
    let mut i: usize = 0;
    assert(msgs@.skip(0) =~= msgs@);
    while i < msgs.len()
        invariant
            i <= msgs.len(),
            last_message_of(msgs@, *s) == last_message_of(msgs@.skip(i as int), *s),
        decreases msgs.len() - i,
    {
        proof {
            lemma_last_message_skip(msgs@, *s, i as int);
        }
        if msgs[i].0 == *s {
            return Some(copy_string(&msgs[i].1));
        }
        i = i + 1;
    }
    assert(msgs@.skip(i as int).len() == 0);
    None
}

impl PacketStats {
    /// The statistics summary, one line per element: every counter under its label, then
    /// each inverter's disconnection count followed by its last message when one is known.
    pub fn summary_lines(&self) -> (r: Vec<String>)
        ensures
            lines_view(r@) == summary(*self),
    {
        let mut out: Vec<String> = Vec::new();
        push_line(&mut out, "Packet Statistics:");
        push_counter(&mut out, "  Total packets received: ", self.packets_received);
        push_counter(&mut out, "  Total packets sent: ", self.packets_sent);
        push_line(&mut out, "  Received Packet Types:");
        push_counter(&mut out, "    Heartbeat packets: ", self.heartbeat_packets_received);
        push_counter(&mut out, "    TranslatedData packets: ", self.translated_data_packets_received);
        push_counter(&mut out, "    ReadParam packets: ", self.read_param_packets_received);
        push_counter(&mut out, "    WriteParam packets: ", self.write_param_packets_received);
        push_line(&mut out, "  Sent Packet Types:");
        push_counter(&mut out, "    Heartbeat packets: ", self.heartbeat_packets_sent);
        push_counter(&mut out, "    TranslatedData packets: ", self.translated_data_packets_sent);
        push_counter(&mut out, "    ReadParam packets: ", self.read_param_packets_sent);
        push_counter(&mut out, "    WriteParam packets: ", self.write_param_packets_sent);
        push_line(&mut out, "  Errors:");
        push_counter(&mut out, "    Modbus errors: ", self.modbus_errors);
        push_counter(&mut out, "    MQTT errors: ", self.mqtt_errors);
        push_counter(&mut out, "    InfluxDB errors: ", self.influx_errors);
        push_counter(&mut out, "    Database errors: ", self.database_errors);
        push_counter(&mut out, "    Register cache errors: ", self.register_cache_errors);
        push_line(&mut out, "  MQTT:");
        push_counter(&mut out, "    Messages sent: ", self.mqtt_messages_sent);
        push_line(&mut out, "  InfluxDB:");
        push_counter(&mut out, "    Writes: ", self.influx_writes);
        push_line(&mut out, "  Database:");
        push_counter(&mut out, "    Writes: ", self.database_writes);
        push_line(&mut out, "  Register Cache:");
        push_counter(&mut out, "    Writes: ", self.register_cache_writes);
        push_line(&mut out, "  Connection Stats:");
        push_counter(&mut out, "    Serial number mismatches: ", self.serial_mismatches);
        push_line(&mut out, "    Inverter disconnections by serial:");
        assert(lines_view(out@) =~= summary_head(*self));
        let ds = &self.inverter_disconnections;
        let mut i: usize = 0;
        while i < ds.len()
            invariant
                i <= ds.len(),
                lines_view(out@) == summary_head(*self) + disconnections_lines(
                    ds@,
                    self.last_messages@,
                    i as int,
                ),
            decreases ds.len() - i,
        {
            let ghost before = lines_view(out@);
            let (serial, count) = ds[i];
            let mut line = string_of("      ");
            let text = serial.to_string();
            line.append(text.as_str());
            line.append(": ");
            push_decimal(&mut line, count);
            out.push(line);
            match find_last_message(&self.last_messages, &serial) {
                Some(m) => {
                    let mut last = string_of("      Last message: ");
                    last.append(m.as_str());
                    out.push(last);
                },
                None => {},
            }
            assert(lines_view(out@) =~= before + disconnection_lines(ds@[i as int], self.last_messages@));
            i = i + 1;
        }
        out
    }
}

} // verus!

verus! {

/// The components the coordinator starts, in this order: the register cache (always), the
/// datalog writer, the MQTT client, the InfluxDB client, one task per database, and then the
/// inverters. Before the inverters start, the subscriber of each configured output is
/// checked: the datalog writer's when it exists, InfluxDB's and MQTT's when enabled, and the
/// databases' when there are any. Each fallible step is decided by `startup_step`: a
/// datalog writer that cannot be created, an InfluxDB client that fails to start, or a
/// subscriber found closed ends start-up with an error before any inverter starts.
#[derive(Debug)]
pub struct StartupPlan {
    /// The file the datalog writer writes to, when one is configured.
    pub datalog_writer: Option<String>,
    /// MQTT is enabled: its subscriber is checked.
    pub mqtt_enabled: bool,
    /// An MQTT client connects to the broker.
    pub mqtt_client: bool,
    /// InfluxDB is enabled: its client starts and its subscriber is checked.
    pub influx: bool,
    /// The databases that get a task.
    pub databases: Vec<Database>,
    /// The inverters that are started.
    pub inverters: Vec<Inverter>,
}

impl Coordinator {
    /// What starting the bridge brings up for the current configuration; with
    /// `skip_mqtt_broker`, MQTT is used without connecting to a broker.
    pub fn startup_plan(&self, skip_mqtt_broker: bool) -> (r: StartupPlan)
        ensures
            r.datalog_writer == self.spec_config().datalog_file,
            r.mqtt_enabled == self.spec_config().mqtt.enabled,
            r.mqtt_client == (self.spec_config().mqtt.enabled && !skip_mqtt_broker),
            r.influx == self.spec_config().influx.enabled,
            r.databases@ == enabled_databases_of(self.spec_config().databases@),
            r.inverters@ == enabled_inverters_of(self.spec_config().inverters@),
    {
        let mqtt_enabled = self.config.mqtt().enabled();
        StartupPlan {
            datalog_writer: self.config.datalog_file(),
            mqtt_enabled,
            mqtt_client: mqtt_enabled && !skip_mqtt_broker,
            influx: self.config.influx().enabled(),
            databases: self.config.enabled_databases(),
            inverters: self.config.enabled_inverters(),
        }
    }
}

} // verus!

verus! {

/// The text of each (key, value) pair.
pub open spec fn pairs_view(v: Seq<(String, String)>) -> Seq<(Seq<char>, Seq<char>)> {
    v.map_values(|e: (String, String)| (e.0@, e.1@))
}

/// The raw data sent to InfluxDB with a translated-data packet: for each byte of the
/// packet, the register number counted from the packet's first register, in decimal, and
/// the byte as four lowercase hexadecimal digits.
pub open spec fn raw_data(register: u16, values: Seq<u8>) -> Seq<(Seq<char>, Seq<char>)> {
    Seq::new(values.len(), |i: int| (decimal((register + i) as nat), hex4(values[i])))
}

/// The raw data entries of a packet for InfluxDB.
pub fn influx_raw_data(register: u16, values: &Vec<u8>) -> (r: Vec<(String, String)>)
    requires
        register + values@.len() <= 0x10000,
    ensures
        pairs_view(r@) == raw_data(register, values@),
{
    let mut r: Vec<(String, String)> = Vec::new();
    let mut i: usize = 0;
    while i < values.len()
        invariant
            i <= values.len(),
            register + values@.len() <= 0x10000,
            pairs_view(r@) == raw_data(register, values@).take(i as int),
        decreases values.len() - i,
    {
        let ghost before = r@;
        let reg: u16 = register + i as u16;
        let mut key = String::new();
        push_decimal(&mut key, reg as u64);
        let mut hex = String::new();
        push_hex4(&mut hex, values[i]);
        r.push((key, hex));
        assert(pairs_view(r@) =~= pairs_view(before).push((decimal((register + i) as nat), hex4(values@[i as int]))));
        assert(raw_data(register, values@).take(i + 1) =~= raw_data(register, values@).take(i as int).push(
            (decimal((register + i) as nat), hex4(values@[i as int])),
        ));
        i = i + 1;
    }
    assert(raw_data(register, values@).take(values.len() as int) =~= raw_data(register, values@));
    r
}

} // verus!

verus! {

/// What reaches the coordinator's loop: a message on one of its three channels (from the
/// inverters, its own, and commands from MQTT), or an error receiving on one of them.
#[derive(Clone, Copy, Debug, PartialEq, Eq, Structural)]
pub enum LoopEvent {
    InverterPacket,
    InverterConnected,
    InverterDisconnected,
    InverterHeartbeat,
    InverterModbusError,
    InverterSerialMismatch,
    InverterShutdown,
    InverterReceiveError,
    CoordinatorPacket,
    CoordinatorSendPacket,
    CoordinatorShutdown,
    CoordinatorReceiveError,
    MqttMessage,
    MqttShutdown,
    MqttReceiveError,
}

/// What the loop does with an event.
#[derive(Clone, Copy, Debug, PartialEq, Eq, Structural)]
pub enum LoopAction {
    /// Process the packet (`process_packet`).
    ProcessPacket,
    /// Send the packet to the inverters.
    ForwardPacket,
    /// Carry out the MQTT command message.
    ProcessMessage,
    /// Nothing beyond a log line; the loop goes on.
    Continue,
    /// Leave the loop.
    Stop,
}

/// The loop's decision for an event: packets from the inverters or its own channel are
/// processed and those to send are forwarded; MQTT command messages are carried out only
/// while MQTT is enabled; a shutdown from the inverters or on its own channel, or an error
/// receiving on either, ends the loop; everything else (connections, disconnections,
/// heartbeats, Modbus errors, serial mismatches, and the MQTT channel's shutdown or receive
/// errors) is only logged.
pub open spec fn loop_action(event: LoopEvent, mqtt_enabled: bool) -> LoopAction {
    match event {
        LoopEvent::InverterPacket | LoopEvent::CoordinatorPacket => LoopAction::ProcessPacket,
        LoopEvent::CoordinatorSendPacket => LoopAction::ForwardPacket,
        LoopEvent::MqttMessage => if mqtt_enabled {
            LoopAction::ProcessMessage
        } else {
            LoopAction::Continue
        },
        LoopEvent::InverterShutdown | LoopEvent::InverterReceiveError | LoopEvent::CoordinatorShutdown
        | LoopEvent::CoordinatorReceiveError => LoopAction::Stop,
        _ => LoopAction::Continue,
    }
}

impl Coordinator {
    /// What the loop does with an event under the current configuration.
    pub fn loop_step(&self, event: LoopEvent) -> (r: LoopAction)
        ensures
            r == loop_action(event, self.spec_config().mqtt.enabled),
    {
        match event {
            LoopEvent::InverterPacket | LoopEvent::CoordinatorPacket => LoopAction::ProcessPacket,
            LoopEvent::CoordinatorSendPacket => LoopAction::ForwardPacket,
            LoopEvent::MqttMessage => if self.config.mqtt().enabled() {
                LoopAction::ProcessMessage
            } else {
                LoopAction::Continue
            },
            LoopEvent::InverterShutdown | LoopEvent::InverterReceiveError | LoopEvent::CoordinatorShutdown
            | LoopEvent::CoordinatorReceiveError => LoopAction::Stop,
            _ => LoopAction::Continue,
        }
    }
}

} // verus!

verus! {

/// An output whose subscriber is checked before the inverters start.
#[derive(Clone, Copy, Debug, PartialEq, Eq, Structural)]
pub enum Subscriber {
    DatalogWriter,
    Influx,
    Mqtt,
    Databases,
}

/// The subscribers checked for a plan, in order: the datalog writer's when one is
/// configured, InfluxDB's and MQTT's when enabled, the databases' when there are any.
pub open spec fn subscriber_checks(plan: StartupPlan) -> Seq<Subscriber> {
    (if plan.datalog_writer is Some { seq![Subscriber::DatalogWriter] } else { Seq::empty() })
        + (if plan.influx { seq![Subscriber::Influx] } else { Seq::empty() })
        + (if plan.mqtt_enabled { seq![Subscriber::Mqtt] } else { Seq::empty() })
        + (if plan.databases@.len() > 0 { seq![Subscriber::Databases] } else { Seq::empty() })
}

impl StartupPlan {
    /// The subscribers to check before the inverters start, in order.
    pub fn subscriber_checks(&self) -> (r: Vec<Subscriber>)
        ensures
            r@ == subscriber_checks(*self),
    {
        let mut r: Vec<Subscriber> = Vec::new();
        if self.datalog_writer.is_some() {
            r.push(Subscriber::DatalogWriter);
        }
        if self.influx {
            r.push(Subscriber::Influx);
        }
        if self.mqtt_enabled {
            r.push(Subscriber::Mqtt);
        }
        if self.databases.len() > 0 {
            r.push(Subscriber::Databases);
        }
        assert(r@ =~= subscriber_checks(*self));
        r
    }
}

/// The outcome of a fallible start-up step.
#[derive(Debug)]
pub enum StartupEvent {
    /// Creating the datalog writer: its error text on failure.
    DatalogWriterCreated(Result<(), String>),
    /// Starting the InfluxDB client: its error text on failure.
    InfluxStarted(Result<(), String>),
    /// Checking a subscriber: whether its channel is still open.
    SubscriberChecked(Subscriber, bool),
}

/// What start-up does after a step.
#[derive(Debug)]
pub enum StartupAction {
    /// Go on with the next step; after the last check, start the plan's inverters.
    Continue,
    /// End start-up with this error; no inverter is started.
    Abort(String),
}

/// The name an output's subscriber goes by in its error.
pub open spec fn subscriber_name(s: Subscriber) -> Seq<char> {
    match s {
        Subscriber::DatalogWriter => "Datalog writer"@,
        Subscriber::Influx => "InfluxDB"@,
        Subscriber::Mqtt => "MQTT"@,
        Subscriber::Databases => "Database"@,
    }
}

/// The error a start-up step ends start-up with, if any: the datalog writer's own error,
/// "Failed to start InfluxDB client: <error>", or "<output> channel is closed".
pub open spec fn startup_error(event: StartupEvent) -> Option<Seq<char>> {
    match event {
        StartupEvent::DatalogWriterCreated(Err(e)) => Some(e@),
        StartupEvent::InfluxStarted(Err(e)) => Some("Failed to start InfluxDB client: "@ + e@),
        StartupEvent::SubscriberChecked(s, false) => Some(subscriber_name(s) + " channel is closed"@),
        _ => None,
    }
}

/// Decides a start-up step: a failure or a closed subscriber aborts start-up with its
/// error, anything else lets it go on.
pub fn startup_step(event: &StartupEvent) -> (r: StartupAction)
    ensures
        match startup_error(*event) {
            Some(t) => r matches StartupAction::Abort(m) && m@ == t,
            None => r is Continue,
        },
{
    match event {
        StartupEvent::DatalogWriterCreated(Err(e)) => StartupAction::Abort(copy_string(e)),
        StartupEvent::InfluxStarted(Err(e)) => {
            let mut m = string_of("Failed to start InfluxDB client: ");
            m.append(e.as_str());
            StartupAction::Abort(m)
        },
        StartupEvent::SubscriberChecked(s, false) => {
            let mut m = string_of(
                match s {
                    Subscriber::DatalogWriter => "Datalog writer",
                    Subscriber::Influx => "InfluxDB",
                    Subscriber::Mqtt => "MQTT",
                    Subscriber::Databases => "Database",
                },
            );
            m.append(" channel is closed");
            StartupAction::Abort(m)
        },
        _ => StartupAction::Continue,
    }
}

} // verus!

verus! {

/// Law: only an input-register read is recorded as input registers (and so feeds the
/// snapshot and the database path): a translated-data packet of any other device function
/// (a holding-register read, a write acknowledgement, a read error), a parameter packet and
/// a heartbeat leave the recorded inputs alone.
pub proof fn only_input_reads_are_recorded(p: Packet)
    ensures
        p matches Packet::TranslatedData(td) && td.device_function == DeviceFunction::ReadInput ==> records_inputs(p),
        !(p is TranslatedData) ==> !records_inputs(p),
        p matches Packet::TranslatedData(td) && td.device_function != DeviceFunction::ReadInput ==> !records_inputs(p),
        p matches Packet::TranslatedData(td) && td.device_function == DeviceFunction::ReadHold ==> !records_inputs(p),
{
}

/// Law: the coordinator's loop ends exactly on a shutdown or a receive error of the inverter
/// channel or of its own channel. Inverter status events (connected, disconnected, heartbeat,
/// Modbus error, serial mismatch) and anything on the MQTT channel never end it.
pub proof fn loop_ends_only_on_shutdown_or_channel_error(e: LoopEvent, mqtt_enabled: bool)
    ensures
        (loop_action(e, mqtt_enabled) == LoopAction::Stop) <==> (e == LoopEvent::InverterShutdown || e
            == LoopEvent::InverterReceiveError || e == LoopEvent::CoordinatorShutdown || e
            == LoopEvent::CoordinatorReceiveError),
        (e == LoopEvent::InverterConnected || e == LoopEvent::InverterDisconnected || e
            == LoopEvent::InverterHeartbeat || e == LoopEvent::InverterModbusError || e
            == LoopEvent::InverterSerialMismatch || e == LoopEvent::MqttShutdown || e
            == LoopEvent::MqttReceiveError) ==> loop_action(e, mqtt_enabled) == LoopAction::Continue,
        (e == LoopEvent::InverterPacket || e == LoopEvent::CoordinatorPacket) ==> loop_action(e, mqtt_enabled)
            == LoopAction::ProcessPacket,
        e == LoopEvent::CoordinatorSendPacket ==> loop_action(e, mqtt_enabled) == LoopAction::ForwardPacket,
        e == LoopEvent::MqttMessage ==> loop_action(e, mqtt_enabled) == (if mqtt_enabled {
            LoopAction::ProcessMessage
        } else {
            LoopAction::Continue
        }),
{
}

} // verus!
