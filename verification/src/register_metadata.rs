//! The catalog of input-register metadata and its Home Assistant classification.
use vstd::prelude::*;

use std::collections::HashMap;

use crate::scale::ScaleDecimal;
use crate::text::{copy_string, decimal, push_decimal, str_eq, string_of};

verus! {

/// Metadata of one register.
#[derive(Debug)]
pub struct RegisterMeta {
    pub register_number: u16,
    pub name: String,
    pub shortname: String,
    pub datatype: String,
    pub unit: String,
    pub unit_scale: ScaleDecimal,
    pub description: String,
}

impl Clone for RegisterMeta {
    fn clone(&self) -> (r: Self)
        ensures
            r == *self,
    {
        RegisterMeta {
            register_number: self.register_number,
            name: copy_string(&self.name),
            shortname: copy_string(&self.shortname),
            datatype: copy_string(&self.datatype),
            unit: copy_string(&self.unit),
            unit_scale: self.unit_scale,
            description: copy_string(&self.description),
        }
    }
}

/// A group of registers of one type ("input", "hold", ...) as the register file lists them.
#[derive(Debug)]
pub struct RegisterGroup {
    pub register_type: String,
    pub register_map: Vec<RegisterMeta>,
}

/// The scale a register has when the register file gives none: 1.
pub fn default_scale() -> (r: ScaleDecimal)
    ensures
        r.is_one(),
{
    ScaleDecimal::one()
}

/// `m` with every register of `metas` entered under its number, later entries winning.
pub open spec fn enter_all(m: Map<u16, RegisterMeta>, metas: Seq<RegisterMeta>) -> Map<
    u16,
    RegisterMeta,
>
    decreases metas.len(),
{
    if metas.len() == 0 {
        m
    } else {
        enter_all(m, metas.drop_last()).insert(metas.last().register_number, metas.last())
    }
}

/// The input registers of the groups, keyed by register number; later entries win.
pub open spec fn input_catalog(groups: Seq<RegisterGroup>) -> Map<u16, RegisterMeta>
    decreases groups.len(),
{
    if groups.len() == 0 {
        Map::empty()
    } else {
        let prev = input_catalog(groups.drop_last());
        if groups.last().register_type@ == "input"@ {
            enter_all(prev, groups.last().register_map@)
        } else {
            prev
        }
    }
}

/// Every entry of the catalog sits under its own register number.
pub open spec fn keyed_by_number(m: Map<u16, RegisterMeta>) -> bool {
    forall|k: u16| #[trigger] m.contains_key(k) ==> m[k].register_number == k
}

proof fn lemma_enter_all_keyed(m: Map<u16, RegisterMeta>, metas: Seq<RegisterMeta>)
    requires
        keyed_by_number(m),
    ensures
        keyed_by_number(enter_all(m, metas)),
    decreases metas.len(),
{
    if metas.len() > 0 {
        lemma_enter_all_keyed(m, metas.drop_last());
    }
}

proof fn lemma_input_catalog_keyed(groups: Seq<RegisterGroup>)
    ensures
        keyed_by_number(input_catalog(groups)),
    decreases groups.len(),
{
    if groups.len() > 0 {
        lemma_input_catalog_keyed(groups.drop_last());
        lemma_enter_all_keyed(input_catalog(groups.drop_last()), groups.last().register_map@);
    }
}

/// The input-register catalog, keyed by register number.
pub struct RegisterCatalog {
    input: HashMap<u16, RegisterMeta>,
}

impl RegisterCatalog {
    /// Every entry sits under its own register number.
    #[verifier::type_invariant]
    spec fn keyed(self) -> bool {
        keyed_by_number(self.input@)
    }
}

impl View for RegisterCatalog {
    type V = Map<u16, RegisterMeta>;

    closed spec fn view(&self) -> Map<u16, RegisterMeta> {
        self.input@
    }
}

impl RegisterCatalog {
    /// Builds the catalog from the groups of a register file: every register of every
    /// "input" group, keyed by its number, a later entry replacing an earlier one.
    pub fn from_groups(groups: &Vec<RegisterGroup>) -> (r: RegisterCatalog)
        ensures
            r@ == input_catalog(groups@),
            keyed_by_number(r@),
    {
        broadcast use vstd::std_specs::hash::group_hash_axioms;

        let mut input: HashMap<u16, RegisterMeta> = HashMap::new();
        let mut g: usize = 0;
        while g < groups.len()
            invariant
                g <= groups.len(),
                input@ == input_catalog(groups@.take(g as int)),
            decreases groups.len() - g,
        {
            assert(groups@.take(g + 1).drop_last() == groups@.take(g as int));
            let group = &groups[g];
            if str_eq(group.register_type.as_str(), "input") {
                let ghost before = input@;
                let mut k: usize = 0;
                while k < group.register_map.len()
                    invariant
                        k <= group.register_map.len(),
                        input@ == enter_all(before, group.register_map@.take(k as int)),
                    decreases group.register_map.len() - k,
                {
                    assert(group.register_map@.take(k + 1).drop_last() == group.register_map@.take(k as int));
                    let meta = group.register_map[k].clone();
                    input.insert(meta.register_number, meta);
                    k = k + 1;
                }
                assert(group.register_map@.take(group.register_map.len() as int) == group.register_map@);
            }
            g = g + 1;
        }
        assert(groups@.take(groups.len() as int) == groups@);
        proof {
            lemma_input_catalog_keyed(groups@);
        }
        RegisterCatalog { input }
    }

    /// The metadata of an input register.
    pub fn input(&self, register: u16) -> (r: Option<&RegisterMeta>)
        ensures
            match r {
                Some(m) => self@.contains_key(register) && *m == self@[register] && m.register_number == register,
                None => !self@.contains_key(register),
            },
    {
        broadcast use vstd::std_specs::hash::group_hash_axioms;

        proof {
            use_type_invariant(self);
        }

        self.input.get(&register)
    }
}

} // verus!

verus! {

/// The curated input registers exposed to Home Assistant by default, in order.
pub open spec fn curated_registers() -> Seq<u16> {
    seq![0u16, 1, 2, 3, 4, 5, 7, 8, 9, 10, 11, 12, 15, 16, 26, 27, 28, 29, 30, 33, 34, 36, 37, 64, 65, 67]
}

fn curated_register_list() -> (r: Vec<u16>)
    ensures
        r@ == curated_registers(),
{
    let r: Vec<u16> = vec![0u16, 1, 2, 3, 4, 5, 7, 8, 9, 10, 11, 12, 15, 16, 26, 27, 28, 29, 30, 33, 34, 36, 37, 64, 65, 67];
    assert(r@ == curated_registers());
    r
}

/// The metadata of the registers of `numbers` that the catalog knows, in that order.
pub open spec fn known_metas(m: Map<u16, RegisterMeta>, numbers: Seq<u16>) -> Seq<RegisterMeta>
    decreases numbers.len(),
{
    if numbers.len() == 0 {
        Seq::empty()
    } else {
        let prev = known_metas(m, numbers.drop_last());
        if m.contains_key(numbers.last()) {
            prev.push(m[numbers.last()])
        } else {
            prev
        }
    }
}

/// The metadata of the known registers numbered below `n`, in register order.
pub open spec fn metas_below(m: Map<u16, RegisterMeta>, n: int) -> Seq<RegisterMeta>
    decreases n,
{
    if n <= 0 {
        Seq::empty()
    } else {
        let prev = metas_below(m, n - 1);
        if m.contains_key((n - 1) as u16) {
            prev.push(m[(n - 1) as u16])
        } else {
            prev
        }
    }
}

/// In a catalog keyed by register number, the metadata below `n` come in strictly
/// ascending register order, every number below `n`.
proof fn lemma_metas_below_ascending(m: Map<u16, RegisterMeta>, n: int)
    requires
        keyed_by_number(m),
        n <= 65536,
    ensures
        forall|i: int| 0 <= i < metas_below(m, n).len() ==> (#[trigger] metas_below(m, n)[i]).register_number < n,
        forall|i: int, j: int|
            0 <= i < j < metas_below(m, n).len() ==> (#[trigger] metas_below(m, n)[i]).register_number < (
            #[trigger] metas_below(m, n)[j]).register_number,
    decreases n,
{
    if n > 0 {
        lemma_metas_below_ascending(m, n - 1);
        let prev = metas_below(m, n - 1);
        let cur = metas_below(m, n);
        if m.contains_key((n - 1) as u16) {
            assert(cur == prev.push(m[(n - 1) as u16]));
            assert(m[(n - 1) as u16].register_number == (n - 1) as u16);
            assert forall|i: int| 0 <= i < cur.len() implies (#[trigger] cur[i]).register_number < n by {
                if i < prev.len() {
                    assert(cur[i] == prev[i]);
                }
            }
            assert forall|i: int, j: int| 0 <= i < j < cur.len() implies (#[trigger] cur[i]).register_number < (
            #[trigger] cur[j]).register_number by {
                assert(cur[i] == prev[i]);
                if j < prev.len() {
                    assert(cur[j] == prev[j]);
                }
            }
        }
    }
}

/// The values behind a sequence of references.
pub open spec fn derefs(s: Seq<&RegisterMeta>) -> Seq<RegisterMeta> {
    s.map_values(|r: &RegisterMeta| *r)
}

/// The key a register gets in an input snapshot: its shortname, or "r_<number>".
pub open spec fn input_key_of(m: Map<u16, RegisterMeta>, register: u16) -> Seq<char> {
    if m.contains_key(register) {
        m[register].shortname@
    } else {
        "r_"@ + decimal(register as nat)
    }
}

impl RegisterCatalog {
    /// The key of an input register: its shortname when known, else "r_<number>".
    pub fn input_key(&self, register: u16) -> (r: String)
        ensures
            r@ == input_key_of(self@, register),
    {
        match self.input(register) {
            Some(meta) => copy_string(&meta.shortname),
            None => {
                let mut s = string_of("r_");
                push_decimal(&mut s, register as u64);
                s
            },
        }
    }

    /// The curated registers that the catalog knows, in the curated order.
    pub fn curated_input(&self) -> (r: Vec<&RegisterMeta>)
        ensures
            derefs(r@) == known_metas(self@, curated_registers()),
    {
        let numbers = curated_register_list();
        let mut r: Vec<&RegisterMeta> = Vec::new();
        let mut i: usize = 0;
        while i < numbers.len()
            invariant
                i <= numbers.len(),
                numbers@ == curated_registers(),
                derefs(r@) == known_metas(self@, numbers@.take(i as int)),
            decreases numbers.len() - i,
        {
            assert(numbers@.take(i + 1).drop_last() == numbers@.take(i as int));
            match self.input(numbers[i]) {
                Some(meta) => {
                    let ghost before = r@;
                    r.push(meta);
                    assert(derefs(r@) =~= derefs(before).push(*meta));
                },
                None => {},
            }
            i = i + 1;
        }
        assert(numbers@.take(numbers.len() as int) == numbers@);
        r
    }
}

} // verus!

verus! {

impl RegisterCatalog {
    /// Every known input register, in ascending register order.
    pub fn all_input_sorted(&self) -> (r: Vec<&RegisterMeta>)
        ensures
            derefs(r@) == metas_below(self@, 65536),
            forall|i: int, j: int|
                0 <= i < j < r@.len() ==> (#[trigger] r@[i]).register_number < (#[trigger] r@[j]).register_number,
    {
        proof {
            use_type_invariant(self);
            lemma_metas_below_ascending(self@, 65536);
        }
        let mut r: Vec<&RegisterMeta> = Vec::new();
        let mut n: u32 = 0;
        while n < 65536
            invariant
                n <= 65536,
                derefs(r@) == metas_below(self@, n as int),
            decreases 65536 - n,
        {
            match self.input(n as u16) {
                Some(meta) => {
                    let ghost before = r@;
                    r.push(meta);
                    assert(derefs(r@) =~= derefs(before).push(*meta));
                },
                None => {},
            }
            n = n + 1;
        }
        assert forall|i: int, j: int| 0 <= i < j < r@.len() implies (#[trigger] r@[i]).register_number < (
        #[trigger] r@[j]).register_number by {
            let ms = metas_below(self@, 65536);
            assert(*r@[i] == derefs(r@)[i] && *r@[j] == derefs(r@)[j]);
            assert(ms[i].register_number < ms[j].register_number);
        }
        r
    }
}

/// The Home Assistant device class of a register, from its unit.
pub open spec fn device_class(meta: RegisterMeta) -> Option<Seq<char>> {
    let u = meta.unit@;
    if u == "V"@ {
        Some("voltage"@)
    } else if u == "A"@ {
        Some("current"@)
    } else if u == "W"@ {
        Some("power"@)
    } else if u == "VA"@ {
        Some("apparent_power"@)
    } else if u == "VAR"@ {
        Some("reactive_power"@)
    } else if u == "Hz"@ {
        Some("frequency"@)
    } else if u == "kWh"@ {
        Some("energy"@)
    } else if u == "°C"@ {
        Some("temperature"@)
    } else if u == "%"@ && meta.shortname@ == "battery_status"@ {
        Some("battery"@)
    } else {
        None
    }
}

/// The Home Assistant state class of a register.
pub open spec fn state_class(meta: RegisterMeta) -> Option<Seq<char>> {
    if meta.unit@ == "kWh"@ {
        Some("total_increasing"@)
    } else if device_class(meta) is Some {
        Some("measurement"@)
    } else {
        None
    }
}

/// The unit of a register, absent when empty.
pub open spec fn unit_of(meta: RegisterMeta) -> Option<Seq<char>> {
    if meta.unit@.len() == 0 {
        None
    } else {
        Some(meta.unit@)
    }
}

/// The text of an optional string slice.
pub open spec fn opt_text(o: Option<&str>) -> Option<Seq<char>> {
    match o {
        Some(s) => Some(s@),
        None => None,
    }
}

/// The Home Assistant device class of a register, from its unit.
pub fn ha_device_class(meta: &RegisterMeta) -> (r: Option<&'static str>)
    ensures
        opt_text(r) == device_class(*meta),
{
    let u = meta.unit.as_str();
    if str_eq(u, "V") {
        Some("voltage")
    } else if str_eq(u, "A") {
        Some("current")
    } else if str_eq(u, "W") {
        Some("power")
    } else if str_eq(u, "VA") {
        Some("apparent_power")
    } else if str_eq(u, "VAR") {
        Some("reactive_power")
    } else if str_eq(u, "Hz") {
        Some("frequency")
    } else if str_eq(u, "kWh") {
        Some("energy")
    } else if str_eq(u, "°C") {
        Some("temperature")
    } else if str_eq(u, "%") && str_eq(meta.shortname.as_str(), "battery_status") {
        Some("battery")
    } else {
        None
    }
}

/// The Home Assistant state class of a register: energy totals only grow, other classified
/// registers are measurements.
pub fn ha_state_class(meta: &RegisterMeta) -> (r: Option<&'static str>)
    ensures
        opt_text(r) == state_class(*meta),
{
    if str_eq(meta.unit.as_str(), "kWh") {
        Some("total_increasing")
    } else if ha_device_class(meta).is_some() {
        Some("measurement")
    } else {
        None
    }
}

/// The unit of a register, absent when the register has none.
pub fn ha_unit(meta: &RegisterMeta) -> (r: Option<&str>)
    ensures
        opt_text(r) == unit_of(*meta),
{
    if meta.unit.as_str().is_empty() {
        None
    } else {
        Some(meta.unit.as_str())
    }
}

/// The value of a raw register word: two's complement for "int16" registers, else unsigned.
pub open spec fn signed_of(meta: RegisterMeta, raw: u16) -> int {
    if meta.datatype@ == "int16"@ && raw >= 0x8000 {
        raw - 0x10000
    } else {
        raw as int
    }
}

/// The value of a raw register word: two's complement for "int16" registers, else unsigned.
pub fn signed_value(meta: &RegisterMeta, raw: u16) -> (r: i32)
    ensures
        r == signed_of(*meta, raw),
{
    if str_eq(meta.datatype.as_str(), "int16") && raw >= 0x8000 {
        raw as i32 - 0x10000
    } else {
        raw as i32
    }
}

} // verus!

verus! {

/// Law: the value of an "int16" register is a 16-bit signed number whose two's-complement
/// bits are the raw word; any other register keeps its raw value.
pub proof fn signed_value_keeps_the_bits(meta: RegisterMeta, raw: u16)
    ensures
        meta.datatype@ == "int16"@ ==> -0x8000 <= signed_of(meta, raw) < 0x8000,
        (signed_of(meta, raw) + 0x10000) % 0x10000 == raw as int,
        meta.datatype@ != "int16"@ ==> signed_of(meta, raw) == raw as int,
{
}

} // verus!
