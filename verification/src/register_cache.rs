//! The register cache: the last value of every holding register seen, and per datalog the
//! input registers that back the "inputs/all" snapshot.
use vstd::prelude::*;

use std::collections::BTreeMap;

use crate::register_metadata::{input_key_of, signed_of, signed_value, RegisterCatalog, RegisterMeta};
use crate::serial::Serial;

verus! {

/// The number of holding registers the cache keeps; larger than any register seen.
pub const REGISTER_COUNT: usize = 512;

/// A request to the register cache.
#[derive(Clone, Copy, Debug, PartialEq, Eq, Structural)]
pub enum ChannelData {
    /// Asks for the cached value of a register.
    ReadRegister(u16),
    /// Stores a register value.
    RegisterData(u16, u16),
    /// Stops the cache.
    Shutdown,
}

/// What the cache does with a request.
#[derive(Clone, Copy, Debug, PartialEq, Eq, Structural)]
pub enum CacheStep {
    /// Answers a read with this value.
    Reply(u16),
    /// Has stored a value.
    Stored,
    /// Stops serving.
    Stop,
    /// Leaves the request to the other side of the cache.
    Ignore,
}

/// The answer of the reading side to `data`, given the cached registers.
pub open spec fn getter_reply(registers: Seq<u16>, data: ChannelData) -> CacheStep {
    match data {
        ChannelData::ReadRegister(r) => CacheStep::Reply(registers[r as int]),
        ChannelData::Shutdown => CacheStep::Stop,
        ChannelData::RegisterData(_, _) => CacheStep::Ignore,
    }
}

/// The cached registers after the writing side has handled `data`.
pub open spec fn setter_next(registers: Seq<u16>, data: ChannelData) -> Seq<u16> {
    match data {
        ChannelData::RegisterData(r, v) => registers.update(r as int, v),
        _ => registers,
    }
}

/// What the writing side reports for `data`.
pub open spec fn setter_step(data: ChannelData) -> CacheStep {
    match data {
        ChannelData::RegisterData(_, _) => CacheStep::Stored,
        ChannelData::Shutdown => CacheStep::Stop,
        ChannelData::ReadRegister(_) => CacheStep::Ignore,
    }
}

/// Whether the request addresses a register the cache holds.
pub open spec fn in_range(data: ChannelData) -> bool {
    match data {
        ChannelData::ReadRegister(r) => r < REGISTER_COUNT,
        ChannelData::RegisterData(r, _) => r < REGISTER_COUNT,
        ChannelData::Shutdown => true,
    }
}

/// The register cache.
pub struct RegisterCache {
    register_data: Vec<u16>,
    input_cache: Vec<(Serial, BTreeMap<u16, u16>)>,
}

/// No datalog appears twice among the input entries.
pub open spec fn distinct_datalogs(s: Seq<(Serial, BTreeMap<u16, u16>)>) -> bool {
    forall|i: int, j: int| 0 <= i < s.len() && 0 <= j < s.len() && i != j ==> #[trigger] s[i].0 != #[trigger] s[j].0
}

/// The input registers recorded per datalog.
pub open spec fn inputs_of(s: Seq<(Serial, BTreeMap<u16, u16>)>) -> Map<Serial, Map<u16, u16>> {
    Map::new(
        |d: Serial| exists|i: int| 0 <= i < s.len() && s[i].0 == d,
        |d: Serial| s[choose|i: int| 0 <= i < s.len() && s[i].0 == d].1@,
    )
}

impl RegisterCache {
    /// The cache holds exactly `REGISTER_COUNT` registers and no datalog twice.
    pub closed spec fn wf(&self) -> bool {
        &&& self.register_data@.len() == REGISTER_COUNT
        &&& distinct_datalogs(self.input_cache@)
    }

    /// The cached holding registers.
    pub closed spec fn registers(&self) -> Seq<u16> {
        self.register_data@
    }

    /// The input registers recorded for each datalog.
    pub closed spec fn inputs(&self) -> Map<Serial, Map<u16, u16>> {
        inputs_of(self.input_cache@)
    }

    /// An empty cache: every register reads 0 and no inputs are recorded.
    pub fn new() -> (r: Self)
        ensures
            r.wf(),
            r.registers() == Seq::new(REGISTER_COUNT as nat, |i: int| 0u16),
            r.inputs() == Map::<Serial, Map<u16, u16>>::empty(),
    {
        let mut data: Vec<u16> = Vec::new();
        let mut i: usize = 0;
        while i < REGISTER_COUNT
            invariant
                i <= REGISTER_COUNT,
                data@ == Seq::new(i as nat, |k: int| 0u16),
            decreases REGISTER_COUNT - i,
        {
            data.push(0);
            assert(data@ =~= Seq::new((i + 1) as nat, |k: int| 0u16));
            i = i + 1;
        }
        let r = RegisterCache { register_data: data, input_cache: Vec::new() };
        assert(r.inputs() =~= Map::<Serial, Map<u16, u16>>::empty());
        r
    }

    /// The reading side of the cache: answers a read with the cached value, stops on
    /// shutdown and leaves stores to the writing side.
    pub fn getter_step(&self, data: &ChannelData) -> (r: CacheStep)
        requires
            self.wf(),
            in_range(*data),
        ensures
            r == getter_reply(self.registers(), *data),
    {
        match data {
            ChannelData::ReadRegister(register) => CacheStep::Reply(self.register_data[*register as usize]),
            ChannelData::Shutdown => CacheStep::Stop,
            ChannelData::RegisterData(_, _) => CacheStep::Ignore,
        }
    }

    /// The writing side of the cache: stores a register value, stops on shutdown and leaves
    /// reads to the reading side.
    pub fn setter_step(&mut self, data: &ChannelData) -> (r: CacheStep)
        requires
            old(self).wf(),
            in_range(*data),
        ensures
            final(self).wf(),
            r == setter_step(*data),
            final(self).registers() == setter_next(old(self).registers(), *data),
            final(self).inputs() == old(self).inputs(),
    {
        match data {
            ChannelData::RegisterData(register, value) => {
                self.register_data.set(*register as usize, *value);
                CacheStep::Stored
            },
            ChannelData::Shutdown => CacheStep::Stop,
            ChannelData::ReadRegister(_) => CacheStep::Ignore,
        }
    }
}

/// Law: a read of a register answers the value last stored in it, and a store leaves
/// every other register as it was.
pub proof fn read_after_write(registers: Seq<u16>, register: u16, value: u16, other: u16)
    requires
        registers.len() == REGISTER_COUNT,
        register < REGISTER_COUNT,
        other < REGISTER_COUNT,
        other != register,
    ensures
        getter_reply(
            setter_next(registers, ChannelData::RegisterData(register, value)),
            ChannelData::ReadRegister(register),
        ) == CacheStep::Reply(value),
        getter_reply(
            setter_next(registers, ChannelData::RegisterData(register, value)),
            ChannelData::ReadRegister(other),
        ) == getter_reply(registers, ChannelData::ReadRegister(other)),
{
}

} // verus!

verus! {

/// `base` with `values[i]` recorded under register `register + i`, in order.
pub open spec fn recorded(base: Map<u16, u16>, register: u16, values: Seq<u16>) -> Map<u16, u16>
    decreases values.len(),
{
    if values.len() == 0 {
        base
    } else {
        recorded(base, register, values.drop_last()).insert(
            (register + values.len() - 1) as u16,
            values.last(),
        )
    }
}

/// The inputs recorded for `datalog` so far, empty when there are none.
pub open spec fn inputs_or_empty(inputs: Map<Serial, Map<u16, u16>>, datalog: Serial) -> Map<u16, u16> {
    if inputs.contains_key(datalog) {
        inputs[datalog]
    } else {
        Map::empty()
    }
}

proof fn lemma_inputs_remove(s: Seq<(Serial, BTreeMap<u16, u16>)>, i: int)
    requires
        distinct_datalogs(s),
        0 <= i < s.len(),
    ensures
        distinct_datalogs(s.remove(i)),
        forall|j: int| 0 <= j < s.remove(i).len() ==> #[trigger] s.remove(i)[j].0 != s[i].0,
        inputs_of(s.remove(i)) == inputs_of(s).remove(s[i].0),
{
    let t = s.remove(i);
    let d = s[i].0;
    assert forall|j: int| 0 <= j < t.len() implies #[trigger] t[j].0 != d by {
        if j < i {
            assert(t[j] == s[j]);
        } else {
            assert(t[j] == s[j + 1]);
        }
    }
    assert forall|a: int, b: int| 0 <= a < t.len() && 0 <= b < t.len() && a != b implies #[trigger] t[a].0 != #[trigger] t[b].0 by {
        let a2 = if a < i { a } else { a + 1 };
        let b2 = if b < i { b } else { b + 1 };
        assert(t[a] == s[a2]);
        assert(t[b] == s[b2]);
    }
    let old_map = inputs_of(s);
    let new_map = inputs_of(t);
    assert forall|k: Serial| #[trigger] new_map.contains_key(k) <==> old_map.remove(d).contains_key(k) by {
        if new_map.contains_key(k) {
            let j = choose|j: int| 0 <= j < t.len() && t[j].0 == k;
            let j2 = if j < i { j } else { j + 1 };
            assert(t[j] == s[j2]);
        }
        if old_map.remove(d).contains_key(k) {
            let j = choose|j: int| 0 <= j < s.len() && s[j].0 == k;
            assert(j != i);
            let j2 = if j < i { j } else { j - 1 };
            assert(t[j2] == s[j]);
        }
    }
    assert forall|k: Serial| #[trigger] new_map.contains_key(k) implies new_map[k] == old_map.remove(d)[k] by {
        let j = choose|j: int| 0 <= j < t.len() && t[j].0 == k;
        let j2 = if j < i { j } else { j + 1 };
        assert(t[j] == s[j2]);
        let js = choose|js: int| 0 <= js < s.len() && s[js].0 == k;
        assert(js == j2);
    }
    assert(new_map =~= old_map.remove(d));
}

proof fn lemma_inputs_push(s: Seq<(Serial, BTreeMap<u16, u16>)>, d: Serial, m: BTreeMap<u16, u16>)
    requires
        distinct_datalogs(s),
        forall|j: int| 0 <= j < s.len() ==> #[trigger] s[j].0 != d,
    ensures
        distinct_datalogs(s.push((d, m))),
        inputs_of(s.push((d, m))) == inputs_of(s).insert(d, m@),
{
    let t = s.push((d, m));
    assert forall|a: int, b: int| 0 <= a < t.len() && 0 <= b < t.len() && a != b implies #[trigger] t[a].0 != #[trigger] t[b].0 by {
        if a < s.len() && b < s.len() {
            assert(t[a] == s[a] && t[b] == s[b]);
        } else if a < s.len() {
            assert(t[a] == s[a]);
        } else {
            assert(t[b] == s[b]);
        }
    }
    let old_map = inputs_of(s);
    let new_map = inputs_of(t);
    assert forall|k: Serial| #[trigger] new_map.contains_key(k) <==> old_map.insert(d, m@).contains_key(k) by {
        if new_map.contains_key(k) && k != d {
            let j = choose|j: int| 0 <= j < t.len() && t[j].0 == k;
            assert(j < s.len());
            assert(t[j] == s[j]);
        }
        if old_map.contains_key(k) {
            let j = choose|j: int| 0 <= j < s.len() && s[j].0 == k;
            assert(t[j] == s[j]);
        }
        if k == d {
            assert(t[s.len() as int].0 == d);
        }
    }
    assert forall|k: Serial| #[trigger] new_map.contains_key(k) implies new_map[k] == old_map.insert(d, m@)[k] by {
        let j = choose|j: int| 0 <= j < t.len() && t[j].0 == k;
        if k == d {
            assert(j == s.len());
        } else {
            assert(j < s.len());
            assert(t[j] == s[j]);
            let js = choose|js: int| 0 <= js < s.len() && s[js].0 == k;
            assert(js == j);
        }
    }
    assert(new_map =~= old_map.insert(d, m@));
}

/// Where the entry of `datalog` stands, if there is one.
fn position_of(entries: &Vec<(Serial, BTreeMap<u16, u16>)>, datalog: Serial) -> (r: Option<usize>)
    ensures
        r matches Some(i) ==> i < entries@.len() && entries@[i as int].0 == datalog,
        r is None ==> forall|j: int| 0 <= j < entries@.len() ==> #[trigger] entries@[j].0 != datalog,
{
    let mut i: usize = 0;
    while i < entries.len()
        invariant
            i <= entries.len(),
            forall|j: int| 0 <= j < i ==> #[trigger] entries@[j].0 != datalog,
        decreases entries.len() - i,
    {
        if entries[i].0 == datalog {
            return Some(i);
        }
        i = i + 1;
    }
    None
}

/// `u16` keys are ordered as a `BTreeMap` needs.
proof fn lemma_u16_keys_ordered()
    ensures
        vstd::laws_cmp::obeys_cmp::<u16>(),
{
    broadcast use vstd::laws_cmp::group_laws_cmp;
}

impl RegisterCache {
    /// Records a batch of input-register values for a datalog: `values[i]` is the value of
    /// register `register + i`.
    pub fn record_input(&mut self, datalog: Serial, register: u16, values: &[u16])
        requires
            old(self).wf(),
            register + values@.len() <= 0x10000,
        ensures
            final(self).wf(),
            final(self).registers() == old(self).registers(),
            final(self).inputs() == old(self).inputs().insert(
                datalog,
                recorded(inputs_or_empty(old(self).inputs(), datalog), register, values@),
            ),
    {
        broadcast use vstd::std_specs::btree::group_btree_axioms;

        proof {
            lemma_u16_keys_ordered();
        }
        let ghost s = self.input_cache@;
        let pos = position_of(&self.input_cache, datalog);
        let mut map: BTreeMap<u16, u16> = if let Some(i) = pos {
            let (_, m) = self.input_cache.remove(i);
            proof {
                lemma_inputs_remove(s, i as int);
                assert(inputs_of(s).contains_key(datalog));
                let js = choose|js: int| 0 <= js < s.len() && s[js].0 == datalog;
                assert(js == i);
            }
            m
        } else {
            assert(!inputs_of(s).contains_key(datalog));
            assert(inputs_of(s).remove(datalog) =~= inputs_of(s));
            BTreeMap::new()
        };
        assert(map@ == inputs_or_empty(inputs_of(s), datalog));
        let ghost base = map@;
        let mut k: usize = 0;
        while k < values.len()
            invariant
                k <= values@.len(),
                register + values@.len() <= 0x10000,
                map@ == recorded(base, register, values@.take(k as int)),
            decreases values@.len() - k,
        {
            assert(values@.take(k + 1).drop_last() == values@.take(k as int));
            map.insert(register + k as u16, values[k]);
            k = k + 1;
        }
        assert(values@.take(values@.len() as int) == values@);
        let ghost rest = self.input_cache@;
        proof {
            lemma_inputs_push(rest, datalog, map);
        }
        self.input_cache.push((datalog, map));
    }
}

} // verus!

verus! {

/// The value a register shows in the snapshot: signed per its metadata when known, else raw.
pub open spec fn snapshot_value(catalog: Map<u16, RegisterMeta>, register: u16, raw: u16) -> int {
    if catalog.contains_key(register) {
        signed_of(catalog[register], raw)
    } else {
        raw as int
    }
}

/// One (key, value) entry per recorded register numbered below `n`, in register order.
pub open spec fn register_entries(m: Map<u16, u16>, catalog: Map<u16, RegisterMeta>, n: int) -> Seq<(Seq<char>, int)>
    decreases n,
{
    if n <= 0 {
        Seq::empty()
    } else {
        let prev = register_entries(m, catalog, n - 1);
        let r = (n - 1) as u16;
        if m.contains_key(r) {
            prev.push((input_key_of(catalog, r), snapshot_value(catalog, r, m[r])))
        } else {
            prev
        }
    }
}

/// The 32-bit value of a low/high register pair, under `key`, when both halves are recorded.
pub open spec fn pair_entry(m: Map<u16, u16>, lo: u16, hi: u16, key: Seq<char>) -> Seq<(Seq<char>, int)> {
    if m.contains_key(lo) && m.contains_key(hi) {
        seq![(key, m[lo] + m[hi] * 0x10000)]
    } else {
        Seq::empty()
    }
}

/// The entries of the input snapshot, in the order they are inserted into the JSON object
/// (a later entry with the same key replaces an earlier one): every recorded register, then
/// state of charge and health from register 5 (its low and high byte), then the fault code,
/// warning code and runtime from their register pairs.
pub open spec fn snapshot_entries(m: Map<u16, u16>, catalog: Map<u16, RegisterMeta>) -> Seq<(Seq<char>, int)> {
    let battery = if m.contains_key(5) {
        seq![("soc"@, (m[5] % 256) as int), ("soh"@, (m[5] / 256) as int)]
    } else {
        Seq::empty()
    };
    register_entries(m, catalog, 0x10000) + battery + pair_entry(m, 60, 61, "fault_code"@) + pair_entry(
        m,
        62,
        63,
        "warning_code"@,
    ) + pair_entry(m, 69, 70, "runtime"@)
}

/// The text and value of each entry.
pub open spec fn entries_view(v: Seq<(String, i64)>) -> Seq<(Seq<char>, int)> {
    v.map_values(|e: (String, i64)| (e.0@, e.1 as int))
}

fn push_entry(out: &mut Vec<(String, i64)>, key: String, value: i64)
    ensures
        entries_view(final(out)@) == entries_view(old(out)@).push((key@, value as int)),
{
    out.push((key, value));
    assert(entries_view(out@) =~= entries_view(old(out)@).push((key@, value as int)));
}

fn push_pair(out: &mut Vec<(String, i64)>, m: &BTreeMap<u16, u16>, lo: u16, hi: u16, key: &str)
    ensures
        entries_view(final(out)@) == entries_view(old(out)@) + pair_entry(m@, lo, hi, key@),
{
    broadcast use vstd::std_specs::btree::group_btree_axioms;

    proof {
        lemma_u16_keys_ordered();
    }
    match (m.get(&lo), m.get(&hi)) {
        (Some(l), Some(h)) => {
            let combined: i64 = *l as i64 + (*h as i64) * 0x10000;
            push_entry(out, crate::text::string_of(key), combined);
            assert(entries_view(out@) =~= entries_view(old(out)@) + pair_entry(m@, lo, hi, key@));
        },
        _ => {
            assert(entries_view(out@) =~= entries_view(old(out)@) + pair_entry(m@, lo, hi, key@));
        },
    }
}

impl RegisterCache {
    /// The input snapshot of a datalog, as the (key, value) entries of its JSON object in
    /// insertion order; absent when nothing was recorded for the datalog.
    pub fn input_snapshot(&self, datalog: &Serial, catalog: &RegisterCatalog) -> (r: Option<Vec<(String, i64)>>)
        requires
            self.wf(),
        ensures
            match r {
                None => !self.inputs().contains_key(*datalog),
                Some(v) => self.inputs().contains_key(*datalog) && entries_view(v@) == snapshot_entries(
                    self.inputs()[*datalog],
                    catalog@,
                ),
            },
    {
        broadcast use vstd::std_specs::btree::group_btree_axioms;

        proof {
            lemma_u16_keys_ordered();
        }
        let i = match position_of(&self.input_cache, *datalog) {
            Some(i) => i,
            None => {
                assert(!self.inputs().contains_key(*datalog));
                return None;
            },
        };
        let map = &self.input_cache[i].1;
        proof {
            let s = self.input_cache@;
            assert(self.inputs().contains_key(*datalog));
            let js = choose|js: int| 0 <= js < s.len() && s[js].0 == *datalog;
            assert(js == i);
        }
        let ghost m = map@;
        let mut out: Vec<(String, i64)> = Vec::new();
        let mut n: u32 = 0;
        while n < 0x10000
            invariant
                n <= 0x10000,
                m == map@,
                entries_view(out@) == register_entries(m, catalog@, n as int),
            decreases 0x10000 - n,
        {
            let register = n as u16;
            match map.get(&register) {
                Some(raw) => {
                    let key = catalog.input_key(register);
                    let value: i32 = match catalog.input(register) {
                        Some(meta) => signed_value(meta, *raw),
                        None => *raw as i32,
                    };
                    push_entry(&mut out, key, value as i64);
                },
                None => {},
            }
            n = n + 1;
        }
        let ghost registers_part = entries_view(out@);
        match map.get(&5) {
            Some(raw) => {
                push_entry(&mut out, crate::text::string_of("soc"), (*raw % 256) as i64);
                push_entry(&mut out, crate::text::string_of("soh"), (*raw / 256) as i64);
            },
            None => {},
        }
        let ghost with_battery = entries_view(out@);
        assert(with_battery =~= registers_part + (if m.contains_key(5) {
            seq![("soc"@, (m[5] % 256) as int), ("soh"@, (m[5] / 256) as int)]
        } else {
            Seq::empty()
        }));
        push_pair(&mut out, map, 60, 61, "fault_code");
        push_pair(&mut out, map, 62, 63, "warning_code");
        push_pair(&mut out, map, 69, 70, "runtime");
        Some(out)
    }
}

} // verus!

verus! {

/// Law: after recording a batch, each register of the batch holds its recorded value, and
/// every register outside the batch keeps its earlier value.
pub proof fn recorded_values_read_back(base: Map<u16, u16>, register: u16, values: Seq<u16>)
    requires
        register + values.len() <= 0x10000,
    ensures
        forall|i: int| 0 <= i < values.len() ==> {
            &&& #[trigger] recorded(base, register, values).contains_key((register + i) as u16)
            &&& recorded(base, register, values)[(register + i) as u16] == values[i]
        },
        forall|r: u16| (r < register || r >= register + values.len()) ==> (#[trigger] recorded(base, register, values).contains_key(r)
            == base.contains_key(r) && (base.contains_key(r) ==> recorded(base, register, values)[r] == base[r])),
    decreases values.len(),
{
    if values.len() > 0 {
        recorded_values_read_back(base, register, values.drop_last());
        let prev = recorded(base, register, values.drop_last());
        assert forall|i: int| 0 <= i < values.len() implies {
            &&& #[trigger] recorded(base, register, values).contains_key((register + i) as u16)
            &&& recorded(base, register, values)[(register + i) as u16] == values[i]
        } by {
            if i < values.len() - 1 {
                assert(values.drop_last()[i] == values[i]);
                assert(prev.contains_key((register + i) as u16));
            }
        }
    }
}

} // verus!

verus! {

/// The value a JSON object built from `entries` (inserted in order, a later entry replacing
/// an earlier one with the same key) holds under `key`.
pub open spec fn object_value(entries: Seq<(Seq<char>, int)>, key: Seq<char>) -> Option<int>
    decreases entries.len(),
{
    if entries.len() == 0 {
        None
    } else if entries.last().0 == key {
        Some(entries.last().1)
    } else {
        object_value(entries.drop_last(), key)
    }
}

proof fn lemma_object_value_append(a: Seq<(Seq<char>, int)>, b: Seq<(Seq<char>, int)>, key: Seq<char>)
    requires
        b.len() <= 1,
        b.len() == 1 ==> b[0].0 != key,
    ensures
        object_value(a + b, key) == object_value(a, key),
{
    if b.len() == 1 {
        assert((a + b).drop_last() =~= a);
    } else {
        assert(a + b =~= a);
    }
}

proof fn lemma_object_value_last(a: Seq<(Seq<char>, int)>, key: Seq<char>, v: int)
    ensures
        object_value(a + seq![(key, v)], key) == Some(v),
{
    assert((a + seq![(key, v)]).last() == (key, v));
}

/// Law: the snapshot publishes each 32-bit value from its register pair, low word from the
/// lower register: once both registers are recorded, "fault_code" is `m[60] + m[61] * 65536`,
/// "warning_code" is `m[62] + m[63] * 65536` and "runtime" is `m[69] + m[70] * 65536`; and,
/// once register 5 is recorded, "soc" is its low byte and "soh" its high byte. (Each is what
/// the published JSON object holds under that key.)
pub proof fn snapshot_combines_register_pairs(m: Map<u16, u16>, catalog: Map<u16, RegisterMeta>)
    ensures
        m.contains_key(60) && m.contains_key(61) ==> object_value(snapshot_entries(m, catalog), "fault_code"@)
            == Some(m[60] + m[61] * 65536),
        m.contains_key(62) && m.contains_key(63) ==> object_value(snapshot_entries(m, catalog), "warning_code"@)
            == Some(m[62] + m[63] * 65536),
        m.contains_key(69) && m.contains_key(70) ==> object_value(snapshot_entries(m, catalog), "runtime"@)
            == Some(m[69] + m[70] * 65536),
        m.contains_key(5) ==> object_value(snapshot_entries(m, catalog), "soc"@) == Some((m[5] % 256) as int)
            && object_value(snapshot_entries(m, catalog), "soh"@) == Some((m[5] / 256) as int),
{
    reveal_strlit("fault_code");
    reveal_strlit("warning_code");
    reveal_strlit("runtime");
    reveal_strlit("soc");
    reveal_strlit("soh");
    let regs = register_entries(m, catalog, 0x10000);
    let battery = if m.contains_key(5) {
        seq![("soc"@, (m[5] % 256) as int), ("soh"@, (m[5] / 256) as int)]
    } else {
        Seq::empty()
    };
    let pf = pair_entry(m, 60, 61, "fault_code"@);
    let pw = pair_entry(m, 62, 63, "warning_code"@);
    let pr = pair_entry(m, 69, 70, "runtime"@);
    let all = snapshot_entries(m, catalog);
    assert(all == regs + battery + pf + pw + pr);
    assert("fault_code"@ != "warning_code"@ && "fault_code"@ != "runtime"@ && "warning_code"@ != "runtime"@) by {
        assert("fault_code"@.len() != "warning_code"@.len());
        assert("fault_code"@[0] != "runtime"@[0]);
        assert("warning_code"@.len() != "runtime"@.len());
    }
    assert("soc"@ != "soh"@ && "soc"@ != "fault_code"@ && "soc"@ != "warning_code"@ && "soc"@ != "runtime"@
        && "soh"@ != "fault_code"@ && "soh"@ != "warning_code"@ && "soh"@ != "runtime"@) by {
        assert("soc"@[2] != "soh"@[2]);
        assert("soc"@.len() != "fault_code"@.len());
        assert("soc"@.len() != "warning_code"@.len());
        assert("soc"@.len() != "runtime"@.len());
        assert("soh"@.len() != "fault_code"@.len());
        assert("soh"@.len() != "warning_code"@.len());
        assert("soh"@.len() != "runtime"@.len());
    }
    // runtime is the last entry when present
    if m.contains_key(69) && m.contains_key(70) {
        lemma_object_value_last(regs + battery + pf + pw, "runtime"@, m[69] + m[70] * 0x10000);
    }
    // warning_code: the runtime entry after it has another key
    lemma_object_value_append(regs + battery + pf + pw, pr, "warning_code"@);
    if m.contains_key(62) && m.contains_key(63) {
        lemma_object_value_last(regs + battery + pf, "warning_code"@, m[62] + m[63] * 0x10000);
    }
    // fault_code
    lemma_object_value_append(regs + battery + pf + pw, pr, "fault_code"@);
    lemma_object_value_append(regs + battery + pf, pw, "fault_code"@);
    if m.contains_key(60) && m.contains_key(61) {
        lemma_object_value_last(regs + battery, "fault_code"@, m[60] + m[61] * 0x10000);
    }
    // soc and soh
    if m.contains_key(5) {
        let before = regs + battery;
        assert(before.last() == ("soh"@, (m[5] / 256) as int));
        assert(before.drop_last().last() == ("soc"@, (m[5] % 256) as int));
        assert(object_value(before, "soh"@) == Some((m[5] / 256) as int));
        assert(object_value(before, "soc"@) == object_value(before.drop_last(), "soc"@));
        assert(object_value(before.drop_last(), "soc"@) == Some((m[5] % 256) as int));
        lemma_object_value_append(regs + battery + pf + pw, pr, "soh"@);
        lemma_object_value_append(regs + battery + pf, pw, "soh"@);
        lemma_object_value_append(regs + battery, pf, "soh"@);
        lemma_object_value_append(regs + battery + pf + pw, pr, "soc"@);
        lemma_object_value_append(regs + battery + pf, pw, "soc"@);
        lemma_object_value_append(regs + battery, pf, "soc"@);
    }
}

} // verus!
