//! Meters that applications have configured: address and protocol type as text.
use vstd::prelude::*;

use crate::protocol::app_data::route_get::NodeDetail;
use crate::protocol::app_data::route_set::NodeInfo as UartNodeInfo;
use crate::protocol::app_data::Address;
use crate::error::{Error, NodeConfigError, ParseIntError};
use crate::text::{hex_encode, owned, spec_hex, spec_hex_decode, str_eq};

verus! {

/// The value of a decimal digit character.
pub open spec fn spec_digit_value(c: char) -> int {
    c as int - 48
}

/// The number that decimal digits denote.
pub open spec fn spec_decimal_value(s: Seq<char>) -> int
    decreases s.len(),
{
    if s.len() == 0 {
        0
    } else {
        spec_decimal_value(s.drop_last()) * 10 + spec_digit_value(s.last())
    }
}

/// Whether every character is a decimal digit.
pub open spec fn spec_all_digits(s: Seq<char>) -> bool {
    forall|i: int| 0 <= i < s.len() ==> #[trigger] crate::service::master_address::spec_is_digit(s[i])
}

/// What std's `u8` parsing makes of a text: an optional `+`, then at least one
/// decimal digit, denoting at most 255.
pub open spec fn spec_parse_u8(s: Seq<char>) -> Option<u8> {
    let digits = if s.len() > 0 && s[0] == '+' {
        s.skip(1)
    } else {
        s
    };
    if digits.len() > 0 && spec_all_digits(digits) && spec_decimal_value(digits) <= 255 {
        Some(spec_decimal_value(digits) as u8)
    } else {
        None
    }
}

proof fn lemma_decimal_value_monotone(s: Seq<char>)
    requires
        spec_all_digits(s),
    ensures
        spec_decimal_value(s) >= 0,
        s.len() > 0 ==> spec_decimal_value(s) >= spec_decimal_value(s.drop_last()),
    decreases s.len(),
{
    if s.len() > 0 {
        let t = s.drop_last();
        assert forall|i: int| 0 <= i < t.len() implies #[trigger] crate::service::master_address::spec_is_digit(t[i]) by {
            assert(t[i] == s[i]);
        }
        lemma_decimal_value_monotone(t);
        assert(crate::service::master_address::spec_is_digit(s[s.len() - 1]));
        assert(spec_decimal_value(s) == spec_decimal_value(t) * 10 + spec_digit_value(s.last()));
    }
}

/// Parses a protocol type written in decimal, as std's `u8` parsing does.
pub fn parse_u8(s: &str) -> (r: Option<u8>)
    ensures
        r == spec_parse_u8(s@),
{
    let n = s.unicode_len();
    let mut i: usize = 0;
    if n > 0 && s.get_char(0) == '+' {
        i = 1;
    }
    let ghost digits = if s@.len() > 0 && s@[0] == '+' {
        s@.skip(1)
    } else {
        s@
    };
    if i == n {
        return None;
    }
    let start = i;
    let mut v: u32 = 0;
    while i < n
        invariant
            n == s@.len(),
            start <= i <= n,
            start < n,
            digits == s@.skip(start as int),
            digits == (if s@.len() > 0 && s@[0] == '+' {
                s@.skip(1)
            } else {
                s@
            }),
            spec_all_digits(digits.take(i - start)),
            v == spec_decimal_value(digits.take(i - start)),
            v <= 255,
        decreases n - i,
    {
        let c = s.get_char(i);
        proof {
            assert(digits[i - start] == c);
        }
        if c < '0' || c > '9' {
            proof {
                let k = i - start;
                assert(0 <= k < digits.len());
                assert(!crate::service::master_address::spec_is_digit(digits[k]));
                assert(!spec_all_digits(digits));
                assert(spec_parse_u8(s@) is None);
            }
            return None;
        }
        proof {
            let t = digits.take(i - start + 1);
            assert(t.drop_last() =~= digits.take(i - start));
            assert forall|j: int| 0 <= j < t.len() implies #[trigger] crate::service::master_address::spec_is_digit(t[j]) by {
                if j < t.len() - 1 {
                    assert(t[j] == digits.take(i - start)[j]);
                }
            }
        }
        let d = c as u32 - 48;
        if v * 10 + d > 255 {
            proof {
                let t = digits.take(i - start + 1);
                assert(forall|j: int| 0 <= j < digits.len() ==> t.len() <= j || t[j] == digits[j]);
                assert(spec_decimal_value(t) > 255);
                if spec_all_digits(digits) {
                    lemma_prefix_bound(digits, (i - start + 1) as int);
                    assert(spec_decimal_value(digits) > 255);
                }
                assert(spec_parse_u8(s@) is None);
            }
            return None;
        }
        v = v * 10 + d;
        i = i + 1;
    }
    assert(digits.take(n - start) =~= digits);
    Some(v as u8)
}

proof fn lemma_prefix_bound(s: Seq<char>, k: int)
    requires
        0 <= k <= s.len(),
        spec_all_digits(s),
    ensures
        spec_decimal_value(s) >= spec_decimal_value(s.take(k)),
    decreases s.len() - k,
{
    if k < s.len() {
        lemma_prefix_bound(s, k + 1);
        let t = s.take(k + 1);
        assert(t.drop_last() =~= s.take(k));
        assert forall|i: int| 0 <= i < t.len() implies #[trigger] crate::service::master_address::spec_is_digit(t[i]) by {
            assert(t[i] == s[i]);
        }
        lemma_decimal_value_monotone(t);
    } else {
        assert(s.take(k) =~= s);
    }
}

/// A configured meter: its address and protocol type, as text.
#[derive(Debug, Clone, PartialEq, Eq)]
pub struct NodeInfo {
    pub acq_addr: String,
    pub pro_type: String,
}

impl NodeInfo {
    pub fn new(addr: String, type_: String) -> (r: Self)
        ensures
            r.acq_addr == addr,
            r.pro_type == type_,
    {
        NodeInfo { acq_addr: addr, pro_type: type_ }
    }

    /// The meter as the module's archive holds it; the address must be twelve
    /// hexadecimal digits and the type a decimal byte.
    pub fn to_uart_node_info(&self) -> (r: UartNodeInfo)
        requires
            Address::spec_is_address_text(self.acq_addr@),
            spec_parse_u8(self.pro_type@) is Some,
        ensures
            r.src_addr.0@ == spec_hex_decode(self.acq_addr@),
            Some(r.protocol_type) == spec_parse_u8(self.pro_type@),
    {
        let protocol_type = match parse_u8(self.pro_type.as_str()) {
            Some(t) => t,
            None => {
                assert(false);
                0
            },
        };
        UartNodeInfo::new(Address::from_hex(self.acq_addr.as_str()), protocol_type)
    }

    pub fn acq_addr(&self) -> (s: &str)
        ensures
            s@ == self.acq_addr@,
    {
        self.acq_addr.as_str()
    }

    /// A node read from the module: its address in hexadecimal, its protocol type
    /// as two hexadecimal digits.
    pub fn from_node_detail(node: NodeDetail) -> (r: Self)
        ensures
            r.acq_addr@ == spec_hex(node.src_addr.0@, false),
            r.pro_type@ == spec_hex(seq![node.comm_protocol_type], false),
    {
        let t = [node.comm_protocol_type];
        assert(t@ =~= seq![node.comm_protocol_type]);
        NodeInfo { acq_addr: node.src_addr.to_string(), pro_type: hex_encode(t.as_slice()) }
    }
}

impl View for NodeInfo {
    type V = (Seq<char>, Seq<char>);

    /// Address and protocol type.
    open spec fn view(&self) -> (Seq<char>, Seq<char>) {
        (self.acq_addr@, self.pro_type@)
    }
}

impl NodeInfo {
    /// A copy with the same texts.
    pub fn copy(&self) -> (r: Self)
        ensures
            r@ == self@,
    {
        NodeInfo { acq_addr: owned(self.acq_addr.as_str()), pro_type: owned(self.pro_type.as_str()) }
    }
}

/// Copies of the meters of a list.
pub fn copy_node_infos(nodes: &[NodeInfo]) -> (r: Vec<NodeInfo>)
    ensures
        r@.map_values(|n: NodeInfo| n@) == nodes@.map_values(|n: NodeInfo| n@),
{
    let mut r: Vec<NodeInfo> = Vec::new();
    let mut i: usize = 0;
    while i < nodes.len()
        invariant
            i <= nodes@.len(),
            r@.map_values(|n: NodeInfo| n@) == nodes@.take(i as int).map_values(|n: NodeInfo| n@),
        decreases nodes@.len() - i,
    {
        r.push(nodes[i].copy());
        proof {
            assert(nodes@.take(i + 1).map_values(|n: NodeInfo| n@) =~= nodes@.take(i as int).map_values(
                |n: NodeInfo| n@,
            ).push(nodes@[i as int]@));
        }
        i = i + 1;
    }
    assert(nodes@.take(nodes@.len() as int) =~= nodes@);
    r
}

/// A meter as the registry holds it: address and protocol type.
pub type NodeV = (Seq<char>, Seq<char>);

/// A stored meter: the identity of the shared entry, and the meter.
pub type EntryV = (u64, NodeV);

/// An application and its stored meters, in the order they were added.
pub type AppV = (Seq<char>, Seq<EntryV>);

/// Whether `i` is the first position of `s` where `p` holds.
pub open spec fn spec_is_first<T>(s: Seq<T>, p: spec_fn(T) -> bool, i: int) -> bool {
    &&& 0 <= i < s.len()
    &&& p(s[i])
    &&& forall|j: int| 0 <= j < i ==> !p(#[trigger] s[j])
}

/// The first position of `s` where `p` holds.
pub open spec fn spec_first<T>(s: Seq<T>, p: spec_fn(T) -> bool) -> Option<int> {
    if exists|i: int| spec_is_first(s, p, i) {
        Some(choose|i: int| spec_is_first(s, p, i))
    } else {
        None
    }
}

pub proof fn lemma_first_found<T>(s: Seq<T>, p: spec_fn(T) -> bool, i: int)
    requires
        spec_is_first(s, p, i),
    ensures
        spec_first(s, p) == Some(i),
{
    let k = choose|k: int| spec_is_first(s, p, k);
    assert(spec_is_first(s, p, k));
    if k < i {
        assert(!p(s[k]));
    } else if k > i {
        assert(!p(s[i]));
    }
}

pub proof fn lemma_first_none<T>(s: Seq<T>, p: spec_fn(T) -> bool)
    requires
        forall|j: int| 0 <= j < s.len() ==> !p(#[trigger] s[j]),
    ensures
        spec_first(s, p) is None,
{
    if exists|i: int| spec_is_first(s, p, i) {
        let k = choose|k: int| spec_is_first(s, p, k);
        assert(p(s[k]));
    }
}

/// An application named `app`.
pub open spec fn app_is(app: Seq<char>) -> spec_fn(AppV) -> bool {
    |a: AppV| a.0 == app
}

/// A stored meter with address `addr`.
pub open spec fn addr_is(addr: Seq<char>) -> spec_fn(EntryV) -> bool {
    |e: EntryV| e.1.0 == addr
}

/// A registration of address `addr`.
pub open spec fn key_is(addr: Seq<char>) -> spec_fn((Seq<char>, u64)) -> bool {
    |g: (Seq<char>, u64)| g.0 == addr
}

/// The number of stored meters with identity `id`.
pub open spec fn spec_count_entries(entries: Seq<EntryV>, id: u64) -> nat
    decreases entries.len(),
{
    if entries.len() == 0 {
        0
    } else {
        spec_count_entries(entries.drop_last(), id) + if entries.last().0 == id {
            1nat
        } else {
            0nat
        }
    }
}

/// The number of stored meters with identity `id` over all applications.
pub open spec fn spec_count_apps(apps: Seq<AppV>, id: u64) -> nat
    decreases apps.len(),
{
    if apps.len() == 0 {
        0
    } else {
        spec_count_apps(apps.drop_last(), id) + spec_count_entries(apps.last().1, id)
    }
}

/// The first stored meter with identity `id`, applications and meters taken in order.
pub open spec fn spec_find_id_entries(entries: Seq<EntryV>, id: u64) -> Option<NodeV>
    decreases entries.len(),
{
    if entries.len() == 0 {
        None
    } else if entries[0].0 == id {
        Some(entries[0].1)
    } else {
        spec_find_id_entries(entries.skip(1), id)
    }
}

/// The first stored meter with identity `id` over all applications.
pub open spec fn spec_find_id_apps(apps: Seq<AppV>, id: u64) -> Option<NodeV>
    decreases apps.len(),
{
    if apps.len() == 0 {
        None
    } else {
        match spec_find_id_entries(apps[0].1, id) {
            Some(n) => Some(n),
            None => spec_find_id_apps(apps.skip(1), id),
        }
    }
}

/// The registry as values: each application's meters with their entry identities,
/// the address registrations, and the next identity to hand out.
#[verifier::ext_equal]
pub struct ConfigModel {
    pub apps: Seq<AppV>,
    pub global: Seq<(Seq<char>, u64)>,
    pub next_id: u64,
}

impl ConfigModel {
    /// Where the application's list stands.
    pub open spec fn app_pos(self, app: Seq<char>) -> Option<int> {
        spec_first(self.apps, app_is(app))
    }

    /// The application's stored meters (none when it has no list).
    pub open spec fn entries_of(self, app: Seq<char>) -> Seq<EntryV> {
        match self.app_pos(app) {
            Some(i) => self.apps[i].1,
            None => Seq::empty(),
        }
    }

    /// The registry where the application has a list (an empty one added at the end).
    pub open spec fn with_app(self, app: Seq<char>) -> ConfigModel {
        match self.app_pos(app) {
            Some(_) => self,
            None => ConfigModel { apps: self.apps.push((app, Seq::empty())), ..self },
        }
    }

    /// The registry with the application's list replaced; the application has a list.
    pub open spec fn set_entries(self, app: Seq<char>, entries: Seq<EntryV>) -> ConfigModel {
        match self.app_pos(app) {
            Some(i) => ConfigModel { apps: self.apps.update(i, (app, entries)), ..self },
            None => self,
        }
    }

    /// The identity registered for an address.
    pub open spec fn global_get(self, addr: Seq<char>) -> Option<u64> {
        match spec_first(self.global, key_is(addr)) {
            Some(i) => Some(self.global[i].1),
            None => None,
        }
    }

    /// Registers an address under an identity, replacing a registration.
    pub open spec fn global_insert(self, addr: Seq<char>, id: u64) -> ConfigModel {
        match spec_first(self.global, key_is(addr)) {
            Some(i) => ConfigModel { global: self.global.update(i, (addr, id)), ..self },
            None => ConfigModel { global: self.global.push((addr, id)), ..self },
        }
    }

    /// Drops an address's registration.
    pub open spec fn global_remove(self, addr: Seq<char>) -> ConfigModel {
        match spec_first(self.global, key_is(addr)) {
            Some(i) => ConfigModel { global: self.global.remove(i), ..self },
            None => self,
        }
    }

    /// How many lists hold the entry `id`.
    pub open spec fn count(self, id: u64) -> nat {
        spec_count_apps(self.apps, id)
    }

    /// The meter of a live entry.
    pub open spec fn info_of(self, id: u64) -> Option<NodeV> {
        spec_find_id_apps(self.apps, id)
    }

    /// The meter registered for an address, where its entry is still held.
    pub open spec fn registered(self, addr: Seq<char>) -> Option<(u64, NodeV)> {
        match self.global_get(addr) {
            Some(id) => match self.info_of(id) {
                Some(n) => Some((id, n)),
                None => None,
            },
            None => None,
        }
    }

    /// A new entry for a meter in an application's list, registered for its address.
    pub open spec fn add_checked(self, app: Seq<char>, node: NodeV) -> ConfigModel {
        let m = self.with_app(app);
        let m2 = m.set_entries(app, m.entries_of(app).push((self.next_id, node)));
        ConfigModel { next_id: (self.next_id + 1) as u64, ..m2.global_insert(node.0, self.next_id) }
    }

    /// Looking a meter up for an application: the registry after (the application
    /// has a list), whether the meter is there (or the two protocol types that
    /// differ: the requested one, the registered one), and the meter to persist for
    /// the application when its entry was taken from another application.
    pub open spec fn spec_exist(self, app: Seq<char>, node: NodeV, is_init: bool) -> (
        ConfigModel,
        Result<bool, (Seq<char>, Seq<char>)>,
        Option<NodeV>,
    ) {
        let m = self.with_app(app);
        let es = m.entries_of(app);
        match spec_first(es, addr_is(node.0)) {
            Some(k) => if es[k].1.1 == node.1 {
                (m, Ok(true), None)
            } else {
                (m, Err((node.1, es[k].1.1)), None)
            },
            None => match m.registered(node.0) {
                Some(found) => if found.1.1 == node.1 {
                    (
                        m.set_entries(app, es.push(found)),
                        Ok(true),
                        if is_init {
                            None
                        } else {
                            Some(node)
                        },
                    )
                } else {
                    (m, Err((node.1, found.1.1)), None)
                },
                None => (m, Ok(false), None),
            },
        }
    }

    /// Adding a meter at start-up: taken over where it exists, a new entry otherwise.
    pub open spec fn spec_add_init(self, app: Seq<char>, node: NodeV) -> (
        ConfigModel,
        Result<(), (Seq<char>, Seq<char>)>,
    ) {
        let (m, r, _) = self.spec_exist(app, node, true);
        match r {
            Err(e) => (m, Err(e)),
            Ok(true) => (m, Ok(())),
            Ok(false) => (m.add_checked(app, node), Ok(())),
        }
    }

    /// Adding meters at start-up, in order, up to the first refusal.
    pub open spec fn spec_add_all_init(self, app: Seq<char>, nodes: Seq<NodeV>) -> (
        ConfigModel,
        Result<(), (Seq<char>, Seq<char>)>,
    )
        decreases nodes.len(),
    {
        if nodes.len() == 0 {
            (self, Ok(()))
        } else {
            let (m, r) = self.spec_add_all_init(app, nodes.drop_last());
            match r {
                Err(e) => (m, Err(e)),
                Ok(_) => m.spec_add_init(app, nodes.last()),
            }
        }
    }

    /// New entries for meters, in order.
    pub open spec fn spec_add_all_checked(self, app: Seq<char>, nodes: Seq<NodeV>) -> ConfigModel
        decreases nodes.len(),
    {
        if nodes.len() == 0 {
            self
        } else {
            self.spec_add_all_checked(app, nodes.drop_last()).add_checked(app, nodes.last())
        }
    }

    /// Whether a meter is to be deleted from the module: the registry after, the
    /// answer, and the meter to delete from the application's persisted meters when
    /// only the application's hold on a shared entry was dropped.
    pub open spec fn spec_should_remove(self, app: Seq<char>, addr: Seq<char>) -> (ConfigModel, bool, Option<NodeV>) {
        match self.app_pos(app) {
            None => (self, false, None),
            Some(i) => {
                let es = self.apps[i].1;
                match spec_first(es, addr_is(addr)) {
                    None => (self, false, None),
                    Some(k) => if self.count(es[k].0) == 1 {
                        (self, true, None)
                    } else {
                        (self.set_entries(app, es.remove(k)), false, Some(es[k].1))
                    },
                }
            },
        }
    }

    /// Whether the application holds a meter with the address.
    pub open spec fn spec_removable(self, app: Seq<char>, addr: Seq<char>) -> bool {
        &&& self.app_pos(app) is Some
        &&& spec_first(self.entries_of(app), addr_is(addr)) is Some
    }

    /// Dropping the application's first meter with the address and the address's
    /// registration: the registry after, and whether the registration was there.
    pub open spec fn spec_remove_checked(self, app: Seq<char>, addr: Seq<char>) -> (ConfigModel, bool) {
        let es = self.entries_of(app);
        let m = self.set_entries(app, es.remove(spec_first(es, addr_is(addr))->0));
        match spec_first(m.global, key_is(addr)) {
            Some(_) => (m.global_remove(addr), true),
            None => (m, false),
        }
    }

    /// Dropping meters in order, up to the first address without a registration
    /// (which is named).
    pub open spec fn spec_remove_all(self, app: Seq<char>, addrs: Seq<Seq<char>>) -> (
        ConfigModel,
        Result<(), Seq<char>>,
    )
        decreases addrs.len(),
    {
        if addrs.len() == 0 {
            (self, Ok(()))
        } else {
            let (m, r) = self.spec_remove_all(app, addrs.drop_last());
            match r {
                Err(e) => (m, Err(e)),
                Ok(_) => {
                    let (m2, ok) = m.spec_remove_checked(app, addrs.last());
                    (m2, if ok {
                        Ok(())
                    } else {
                        Err(addrs.last())
                    })
                },
            }
        }
    }

    /// Whether every meter that `spec_remove_all` reaches is held by the application.
    pub open spec fn spec_can_remove_all(self, app: Seq<char>, addrs: Seq<Seq<char>>) -> bool
        decreases addrs.len(),
    {
        if addrs.len() == 0 {
            true
        } else {
            let (m, r) = self.spec_remove_all(app, addrs.drop_last());
            self.spec_can_remove_all(app, addrs.drop_last()) && (r is Err || m.spec_removable(
                app,
                addrs.last(),
            ))
        }
    }

    /// The application's meters from a position on, at most `count` of them.
    pub open spec fn page(self, app: Seq<char>, index: int, count: int) -> Seq<NodeV> {
        let es = self.entries_of(app);
        let start = if index < es.len() {
            index
        } else {
            es.len() as int
        };
        let end = if count < es.len() - start {
            start + count
        } else {
            es.len() as int
        };
        es.subrange(start, end).map_values(|e: EntryV| e.1)
    }

    /// Whether identities were handed out in order: every stored entry's is below the next.
    pub open spec fn wf(self) -> bool {
        &&& forall|i: int, j: int|
            0 <= i < self.apps.len() && 0 <= j < self.apps[i].1.len() ==> #[trigger] self.apps[i].1[j].0
                < self.next_id
        &&& forall|i: int| 0 <= i < self.global.len() ==> #[trigger] self.global[i].1 < self.next_id
    }
}

/// A stored meter: the identity of the shared entry that holds it, and the meter.
#[derive(Debug)]
pub struct SharedNode {
    pub id: u64,
    pub info: NodeInfo,
}

/// The meters of one application, in the order they were added.
#[derive(Debug)]
pub struct AppNodes {
    pub app: String,
    pub nodes: Vec<SharedNode>,
}

/// An address and the identity of the entry registered for it.
#[derive(Debug)]
pub struct GlobalEntry {
    pub addr: String,
    pub id: u64,
}

/// A change to make to the persisted configuration: meters added to, or deleted
/// from, an application.
#[derive(Debug)]
pub enum ConfigChange {
    Add(String, Vec<NodeInfo>),
    Del(String, Vec<NodeInfo>),
}

/// A change as values: whether it adds, the application, the meters.
pub open spec fn spec_change(c: ConfigChange) -> (bool, Seq<char>, Seq<NodeV>) {
    match c {
        ConfigChange::Add(a, n) => (true, a@, n@.map_values(|x: NodeInfo| x@)),
        ConfigChange::Del(a, n) => (false, a@, n@.map_values(|x: NodeInfo| x@)),
    }
}

/// The stored meters as values.
pub open spec fn spec_entries(nodes: Seq<SharedNode>) -> Seq<EntryV> {
    nodes.map_values(|n: SharedNode| (n.id, n.info@))
}

/// The meters each application has configured. A meter that several
/// applications configure is one shared entry; it is registered under its address
/// while some application holds it.
#[derive(Debug)]
pub struct NodeConfig {
    pub node_data: Vec<AppNodes>,
    pub global: Vec<GlobalEntry>,
    pub next_id: u64,
    pub changes: Vec<ConfigChange>,
}

impl View for NodeConfig {
    type V = ConfigModel;

    open spec fn view(&self) -> ConfigModel {
        ConfigModel {
            apps: self.node_data@.map_values(|a: AppNodes| (a.app@, spec_entries(a.nodes@))),
            global: self.global@.map_values(|g: GlobalEntry| (g.addr@, g.id)),
            next_id: self.next_id,
        }
    }
}

impl NodeConfig {
    /// The changes to persist, in order.
    pub open spec fn spec_changes(&self) -> Seq<(bool, Seq<char>, Seq<NodeV>)> {
        self.changes@.map_values(|c: ConfigChange| spec_change(c))
    }

    pub fn new() -> (r: Self)
        ensures
            r@.apps.len() == 0,
            r@.global.len() == 0,
            r@.next_id == 0,
            r.spec_changes().len() == 0,
            r@.wf(),
    {
        NodeConfig { node_data: Vec::new(), global: Vec::new(), next_id: 0, changes: Vec::new() }
    }

    /// Takes the changes to persist.
    pub fn take_changes(&mut self) -> (r: Vec<ConfigChange>)
        ensures
            r@.map_values(|c: ConfigChange| spec_change(c)) == old(self).spec_changes(),
            final(self)@ == old(self)@,
            final(self).spec_changes().len() == 0,
    {
        let mut r = Vec::new();
        std::mem::swap(&mut r, &mut self.changes);
        assert(self.spec_changes() =~= Seq::<(bool, Seq<char>, Seq<NodeV>)>::empty());
        r
    }

    fn find_app(&self, app: &str) -> (r: Option<usize>)
        ensures
            match r {
                Some(i) => self@.app_pos(app@) == Some(i as int),
                None => self@.app_pos(app@) is None,
            },
    {
        let ghost apps = self@.apps;
        let mut i: usize = 0;
        while i < self.node_data.len()
            invariant
                i <= self.node_data@.len(),
                apps == self@.apps,
                forall|j: int| 0 <= j < i ==> !(#[trigger] app_is(app@)(apps[j])),
            decreases self.node_data@.len() - i,
        {
            if str_eq(self.node_data[i].app.as_str(), app) {
                proof {
                    assert(app_is(app@)(apps[i as int]));
                    lemma_first_found(apps, app_is(app@), i as int);
                }
                return Some(i);
            }
            proof {
                assert(!app_is(app@)(apps[i as int]));
            }
            i = i + 1;
        }
        proof {
            lemma_first_none(apps, app_is(app@));
        }
        None
    }

    fn find_global(&self, addr: &str) -> (r: Option<usize>)
        ensures
            match r {
                Some(i) => spec_first(self@.global, key_is(addr@)) == Some(i as int),
                None => spec_first(self@.global, key_is(addr@)) is None,
            },
    {
        let ghost g = self@.global;
        let mut i: usize = 0;
        while i < self.global.len()
            invariant
                i <= self.global@.len(),
                g == self@.global,
                forall|j: int| 0 <= j < i ==> !(#[trigger] key_is(addr@)(g[j])),
            decreases self.global@.len() - i,
        {
            if str_eq(self.global[i].addr.as_str(), addr) {
                proof {
                    assert(key_is(addr@)(g[i as int]));
                    lemma_first_found(g, key_is(addr@), i as int);
                }
                return Some(i);
            }
            proof {
                assert(!key_is(addr@)(g[i as int]));
            }
            i = i + 1;
        }
        proof {
            lemma_first_none(g, key_is(addr@));
        }
        None
    }

    /// The application's position, its (empty) list added at the end when it has none.
    fn ensure_app(&mut self, app: &str) -> (i: usize)
        ensures
            final(self)@ == old(self)@.with_app(app@),
            final(self)@.app_pos(app@) == Some(i as int),
            final(self).spec_changes() == old(self).spec_changes(),
    {
        match self.find_app(app) {
            Some(i) => i,
            None => {
                let ghost before = self@.apps;
                self.node_data.push(AppNodes { app: owned(app), nodes: Vec::new() });
                proof {
                    assert(spec_entries(Seq::<SharedNode>::empty()) =~= Seq::<EntryV>::empty());
                    assert(self@.apps =~= before.push((app@, Seq::<EntryV>::empty())));
                    let n = before.len() as int;
                    assert(app_is(app@)(self@.apps[n]));
                    assert forall|j: int| 0 <= j < n implies !(#[trigger] app_is(app@)(self@.apps[j])) by {
                        assert(self@.apps[j] == before[j]);
                        if app_is(app@)(before[j]) {
                            assert(exists|k: int| spec_is_first(before, app_is(app@), k)) by {
                                lemma_least_witness(before, app_is(app@), j);
                            }
                        }
                    }
                    lemma_first_found(self@.apps, app_is(app@), n);
                    assert(self@ =~= old(self)@.with_app(app@));
                }
                (self.node_data.len() - 1) as usize
            },
        }
    }
}

/// Where `p` holds somewhere, there is a first position where it holds.
pub proof fn lemma_least_witness<T>(s: Seq<T>, p: spec_fn(T) -> bool, j: int)
    requires
        0 <= j < s.len(),
        p(s[j]),
    ensures
        exists|k: int| spec_is_first(s, p, k),
    decreases j,
{
    if forall|i: int| 0 <= i < j ==> !p(#[trigger] s[i]) {
        assert(spec_is_first(s, p, j));
    } else {
        let i = choose|i: int| 0 <= i < j && p(#[trigger] s[i]);
        lemma_least_witness(s, p, i);
    }
}

/// The position of the first stored meter with an address.
fn find_addr(nodes: &Vec<SharedNode>, addr: &str) -> (r: Option<usize>)
    ensures
        match r {
            Some(k) => spec_first(spec_entries(nodes@), addr_is(addr@)) == Some(k as int),
            None => spec_first(spec_entries(nodes@), addr_is(addr@)) is None,
        },
{
    let ghost es = spec_entries(nodes@);
    let mut k: usize = 0;
    while k < nodes.len()
        invariant
            k <= nodes@.len(),
            es == spec_entries(nodes@),
            forall|j: int| 0 <= j < k ==> !(#[trigger] addr_is(addr@)(es[j])),
        decreases nodes@.len() - k,
    {
        if str_eq(nodes[k].info.acq_addr.as_str(), addr) {
            proof {
                assert(addr_is(addr@)(es[k as int]));
                lemma_first_found(es, addr_is(addr@), k as int);
            }
            return Some(k);
        }
        proof {
            assert(!addr_is(addr@)(es[k as int]));
        }
        k = k + 1;
    }
    proof {
        lemma_first_none(es, addr_is(addr@));
    }
    None
}

/// A count, capped at two.
pub open spec fn spec_min2(n: nat) -> nat {
    if n >= 2 {
        2
    } else {
        n
    }
}

proof fn lemma_count_entries_step(es: Seq<EntryV>, id: u64, j: int)
    requires
        0 <= j < es.len(),
    ensures
        spec_count_entries(es.take(j + 1), id) == spec_count_entries(es.take(j), id) + if es[j].0 == id {
            1nat
        } else {
            0nat
        },
{
    assert(es.take(j + 1).drop_last() =~= es.take(j));
}

proof fn lemma_count_apps_step(apps: Seq<AppV>, id: u64, i: int)
    requires
        0 <= i < apps.len(),
    ensures
        spec_count_apps(apps.take(i + 1), id) == spec_count_apps(apps.take(i), id)
            + spec_count_entries(apps[i].1, id),
{
    assert(apps.take(i + 1).drop_last() =~= apps.take(i));
}

proof fn lemma_find_entries_skip(es: Seq<EntryV>, id: u64, j: int)
    requires
        0 <= j < es.len(),
        es[j].0 != id,
    ensures
        spec_find_id_entries(es.skip(j), id) == spec_find_id_entries(es.skip(j + 1), id),
{
    assert(es.skip(j).skip(1) =~= es.skip(j + 1));
}

proof fn lemma_find_apps_skip(apps: Seq<AppV>, id: u64, i: int)
    requires
        0 <= i < apps.len(),
        spec_find_id_entries(apps[i].1, id) is None,
    ensures
        spec_find_id_apps(apps.skip(i), id) == spec_find_id_apps(apps.skip(i + 1), id),
{
    assert(apps.skip(i).skip(1) =~= apps.skip(i + 1));
    assert(apps.skip(i)[0] == apps[i]);
}

impl NodeConfig {
    /// Whether exactly one list holds the entry `id`.
    fn held_once(&self, id: u64) -> (b: bool)
        ensures
            b == (self@.count(id) == 1),
    {
        let ghost apps = self@.apps;
        let mut c: u8 = 0;
        let mut i: usize = 0;
        while i < self.node_data.len()
            invariant
                i <= self.node_data@.len(),
                apps == self@.apps,
                c == spec_min2(spec_count_apps(apps.take(i as int), id)),
            decreases self.node_data@.len() - i,
        {
            let nodes = &self.node_data[i].nodes;
            let ghost es = apps[i as int].1;
            assert(es == spec_entries(nodes@));
            let mut j: usize = 0;
            while j < nodes.len()
                invariant
                    j <= nodes@.len(),
                    es == spec_entries(nodes@),
                    c == spec_min2(spec_count_apps(apps.take(i as int), id) + spec_count_entries(es.take(j as int), id)),
                decreases nodes@.len() - j,
            {
                proof {
                    lemma_count_entries_step(es, id, j as int);
                }
                if nodes[j].id == id {
                    c = if c >= 2 {
                        2
                    } else {
                        c + 1
                    };
                }
                j = j + 1;
            }
            proof {
                assert(es.take(es.len() as int) =~= es);
                lemma_count_apps_step(apps, id, i as int);
            }
            i = i + 1;
        }
        assert(apps.take(apps.len() as int) =~= apps);
        c == 1
    }

    /// A copy of the meter of the first stored entry `id`.
    fn info_of(&self, id: u64) -> (r: Option<NodeInfo>)
        ensures
            match r {
                Some(n) => self@.info_of(id) == Some(n@),
                None => self@.info_of(id) is None,
            },
    {
        let ghost apps = self@.apps;
        let mut i: usize = 0;
        assert(apps.skip(0) =~= apps);
        while i < self.node_data.len()
            invariant
                i <= self.node_data@.len(),
                apps == self@.apps,
                spec_find_id_apps(apps, id) == spec_find_id_apps(apps.skip(i as int), id),
            decreases self.node_data@.len() - i,
        {
            let nodes = &self.node_data[i].nodes;
            let ghost es = apps[i as int].1;
            assert(es == spec_entries(nodes@));
            let mut j: usize = 0;
            assert(es.skip(0) =~= es);
            while j < nodes.len()
                invariant
                    j <= nodes@.len(),
                    es == spec_entries(nodes@),
                    i < apps.len(),
                    apps == self@.apps,
                    es == apps[i as int].1,
                    spec_find_id_apps(apps, id) == spec_find_id_apps(apps.skip(i as int), id),
                    spec_find_id_entries(es, id) == spec_find_id_entries(es.skip(j as int), id),
                decreases nodes@.len() - j,
            {
                if nodes[j].id == id {
                    proof {
                        assert(es.skip(j as int)[0] == es[j as int]);
                        assert(spec_find_id_entries(es, id) == Some(es[j as int].1));
                        assert(apps.skip(i as int)[0] == apps[i as int]);
                        assert(spec_find_id_apps(apps.skip(i as int), id) == Some(es[j as int].1));
                        assert(es[j as int].1 == nodes@[j as int].info@);
                    }
                    return Some(nodes[j].info.copy());
                }
                proof {
                    lemma_find_entries_skip(es, id, j as int);
                }
                j = j + 1;
            }
            proof {
                assert(es.skip(es.len() as int) =~= Seq::<EntryV>::empty());
                lemma_find_apps_skip(apps, id, i as int);
            }
            i = i + 1;
        }
        assert(apps.skip(apps.len() as int) =~= Seq::<AppV>::empty());
        None
    }

    /// The meters of an application, from a position on, at most `count` of them.
    pub fn get_node_infos(&self, app: &str, index: usize, count: usize) -> (r: Vec<NodeInfo>)
        ensures
            spec_nodes(r@) == self@.page(app@, index as int, count as int),
    {
        let mut r: Vec<NodeInfo> = Vec::new();
        match self.find_app(app) {
            None => {
                assert(r@.map_values(|n: NodeInfo| n@) =~= Seq::<EntryV>::empty().subrange(0, 0).map_values(
                    |e: EntryV| e.1,
                ));
                r
            },
            Some(a) => {
                let nodes = &self.node_data[a].nodes;
                let ghost es = spec_entries(nodes@);
                let len = nodes.len();
                let start = if index < len {
                    index
                } else {
                    len
                };
                let end = if count < len - start {
                    start + count
                } else {
                    len
                };
                let mut k = start;
                while k < end
                    invariant
                        start <= k <= end <= len,
                        len == nodes@.len(),
                        es == spec_entries(nodes@),
                        r@.map_values(|n: NodeInfo| n@) == es.subrange(start as int, k as int).map_values(
                            |e: EntryV| e.1,
                        ),
                    decreases end - k,
                {
                    r.push(nodes[k].info.copy());
                    proof {
                        assert(es.subrange(start as int, k + 1).map_values(|e: EntryV| e.1) =~= es.subrange(
                            start as int,
                            k as int,
                        ).map_values(|e: EntryV| e.1).push(es[k as int].1));
                    }
                    k = k + 1;
                }
                r
            },
        }
    }

    /// All meters of an application.
    pub fn get_all_node_infos(&self, app: &str) -> (r: Vec<NodeInfo>)
        ensures
            r@.map_values(|n: NodeInfo| n@) == self@.entries_of(app@).map_values(|e: EntryV| e.1),
    {
        let n = self.get_node_count(app);
        let r = self.get_node_infos(app, 0, n);
        proof {
            let es = self@.entries_of(app@);
            assert(es.subrange(0, es.len() as int) =~= es);
        }
        r
    }

    /// The number of meters of an application.
    pub fn get_node_count(&self, app: &str) -> (n: usize)
        ensures
            n == self@.entries_of(app@).len(),
    {
        match self.find_app(app) {
            Some(a) => self.node_data[a].nodes.len(),
            None => 0,
        }
    }

    /// Forgets every application's meters and every registration.
    pub fn clear_all_app(&mut self)
        ensures
            final(self)@.apps.len() == 0,
            final(self)@.global.len() == 0,
            final(self)@.next_id == old(self)@.next_id,
            final(self).spec_changes() == old(self).spec_changes(),
    {
        self.node_data = Vec::new();
        self.global = Vec::new();
    }

    fn global_insert(&mut self, addr: &str, id: u64)
        ensures
            final(self)@ == old(self)@.global_insert(addr@, id),
            final(self).node_data@ == old(self).node_data@,
            final(self).spec_changes() == old(self).spec_changes(),
    {
        match self.find_global(addr) {
            Some(i) => {
                self.global.set(i, GlobalEntry { addr: owned(addr), id });
                proof {
                    assert(self@ =~= old(self)@.global_insert(addr@, id));
                }
            },
            None => {
                self.global.push(GlobalEntry { addr: owned(addr), id });
                proof {
                    assert(self@ =~= old(self)@.global_insert(addr@, id));
                }
            },
        }
    }

    fn push_entry(&mut self, a: usize, entry: SharedNode)
        requires
            a < old(self).node_data@.len(),
        ensures
            final(self)@.apps == old(self)@.apps.update(
                a as int,
                (old(self)@.apps[a as int].0, old(self)@.apps[a as int].1.push((entry.id, entry.info@))),
            ),
            final(self)@.global == old(self)@.global,
            final(self)@.next_id == old(self)@.next_id,
            final(self).spec_changes() == old(self).spec_changes(),
    {
        let mut list = Vec::new();
        std::mem::swap(&mut list, &mut self.node_data[a].nodes);
        let ghost before = list@;
        list.push(entry);
        std::mem::swap(&mut list, &mut self.node_data[a].nodes);
        proof {
            assert(spec_entries(self.node_data@[a as int].nodes@) =~= spec_entries(before).push(
                (entry.id, entry.info@),
            ));
            assert(self@.apps =~= old(self)@.apps.update(
                a as int,
                (old(self)@.apps[a as int].0, old(self)@.apps[a as int].1.push((entry.id, entry.info@))),
            ));
        }
    }

    /// Adds a meter as a new entry at the end of the application's list and
    /// registers it under its address.
    pub fn add_node_info_checked(&mut self, app: &str, node: NodeInfo)
        requires
            old(self).next_id < u64::MAX,
        ensures
            final(self)@ == old(self)@.add_checked(app@, node@),
            final(self).spec_changes() == old(self).spec_changes(),
    {
        let id = self.next_id;
        let ghost m = self@.with_app(app@);
        let a = self.ensure_app(app);
        self.global_insert(node.acq_addr.as_str(), id);
        let ghost g = self@;
        self.push_entry(a, SharedNode { id, info: node });
        self.next_id = id + 1;
        proof {
            assert(g.app_pos(app@) == Some(a as int));
            let want = m.set_entries(app@, m.entries_of(app@).push((id, node@)));
            assert(self@.apps =~= want.global_insert(node@.0, id).apps);
            assert(self@ =~= old(self)@.add_checked(app@, node@));
        }
    }
}

/// A refusal as a value: the two protocol types.
pub open spec fn spec_mismatch(e: Error) -> Option<(Seq<char>, Seq<char>)> {
    match e {
        Error::NodeConfig(NodeConfigError::TypeMismatch(x, y)) => Some((x@, y@)),
        _ => None,
    }
}

/// Whether an outcome is the one described: the value, or a refusal with the two
/// protocol types.
pub open spec fn spec_outcome<T>(r: Result<T, Error>, s: Result<T, (Seq<char>, Seq<char>)>) -> bool {
    match s {
        Ok(v) => r == Ok::<T, Error>(v),
        Err(p) => r matches Err(e) && spec_mismatch(e) == Some(p),
    }
}

/// The addresses of meters.
pub open spec fn spec_addrs(nodes: Seq<NodeInfo>) -> Seq<Seq<char>> {
    nodes.map_values(|n: NodeInfo| n.acq_addr@)
}

/// The meters as values.
pub open spec fn spec_nodes(nodes: Seq<NodeInfo>) -> Seq<NodeV> {
    nodes.map_values(|n: NodeInfo| n@)
}

impl NodeConfig {
    fn mismatch(requested: &str, registered: &str) -> (e: Error)
        ensures
            spec_mismatch(e) == Some((requested@, registered@)),
    {
        Error::NodeConfig(NodeConfigError::TypeMismatch(owned(requested), owned(registered)))
    }

    fn find_entry(&self, a: usize, addr: &str) -> (r: Option<usize>)
        requires
            a < self.node_data@.len(),
        ensures
            match r {
                Some(k) => spec_first(self@.apps[a as int].1, addr_is(addr@)) == Some(k as int),
                None => spec_first(self@.apps[a as int].1, addr_is(addr@)) is None,
            },
    {
        find_addr(&self.node_data[a].nodes, addr)
    }

    /// Looks a meter up for an application, whose list is created when missing:
    /// `true` where the application has it (with the same protocol type) or where
    /// another application's entry for the address is taken over; `false` where no
    /// entry exists; a refusal where the protocol types differ.
    pub fn add_node_info_exist(&mut self, app: &str, node: &NodeInfo, is_init: bool) -> (r: Result<bool, Error>)
        ensures
            ({
                let (m, s, c) = old(self)@.spec_exist(app@, node@, is_init);
                &&& final(self)@ == m
                &&& spec_outcome(r, s)
                &&& final(self).spec_changes() == old(self).spec_changes() + match c {
                    Some(n) => seq![(true, app@, seq![n])],
                    None => Seq::empty(),
                }
            }),
    {
        let a = self.ensure_app(app);
        let ghost m = self@;
        match self.find_entry(a, node.acq_addr.as_str()) {
            Some(k) => {
                let existing = &self.node_data[a].nodes[k].info;
                proof {
                    assert(m.entries_of(app@) == m.apps[a as int].1);
                    assert(m.apps[a as int].1[k as int].1 == existing@);
                }
                if str_eq(existing.pro_type.as_str(), node.pro_type.as_str()) {
                    Ok(true)
                } else {
                    Err(Self::mismatch(node.pro_type.as_str(), existing.pro_type.as_str()))
                }
            },
            None => {
                proof {
                    assert(m.entries_of(app@) == m.apps[a as int].1);
                }
                let found = match self.find_global(node.acq_addr.as_str()) {
                    Some(g) => {
                        let id = self.global[g].id;
                        match self.info_of(id) {
                            Some(info) => Some((id, info)),
                            None => None,
                        }
                    },
                    None => None,
                };
                match found {
                    Some((id, info)) => {
                        if str_eq(info.pro_type.as_str(), node.pro_type.as_str()) {
                            let ghost info_v = info@;
                            self.push_entry(a, SharedNode { id, info });
                            proof {
                                assert(self@ =~= m.set_entries(app@, m.entries_of(app@).push((id, info_v))));
                            }
                            if !is_init {
                                let mut v = Vec::new();
                                v.push(node.copy());
                                let ghost before = self.spec_changes();
                                self.changes.push(ConfigChange::Add(owned(app), v));
                                proof {
                                    assert(v@.map_values(|x: NodeInfo| x@) =~= seq![node@]);
                                    assert(self.spec_changes() =~= before.push((true, app@, seq![node@])));
                                    assert(self.spec_changes() =~= old(self).spec_changes() + seq![
                                        (true, app@, seq![node@]),
                                    ]);
                                }
                            } else {
                                assert(self.spec_changes() =~= old(self).spec_changes() + Seq::empty());
                            }
                            Ok(true)
                        } else {
                            Err(Self::mismatch(node.pro_type.as_str(), info.pro_type.as_str()))
                        }
                    },
                    None => {
                        assert(self.spec_changes() =~= old(self).spec_changes() + Seq::empty());
                        Ok(false)
                    },
                }
            },
        }
    }

    /// Adds a meter at start-up: taken over where it exists, as a new entry otherwise.
    pub fn add_node_info(&mut self, app: &str, node: NodeInfo) -> (r: Result<(), Error>)
        requires
            old(self).next_id < u64::MAX,
        ensures
            ({
                let (m, s) = old(self)@.spec_add_init(app@, node@);
                &&& final(self)@ == m
                &&& spec_outcome(r, s)
                &&& final(self).spec_changes() == old(self).spec_changes()
            }),
    {
        let found = self.add_node_info_exist(app, &node, true);
        assert(self.spec_changes() =~= old(self).spec_changes());
        match found {
            Err(e) => Err(e),
            Ok(true) => Ok(()),
            Ok(false) => {
                self.add_node_info_checked(app, node);
                Ok(())
            },
        }
    }

    /// Adds meters at start-up, in order, up to the first refusal.
    pub fn add_node_infos(&mut self, app: &str, nodes: &[NodeInfo]) -> (r: Result<(), Error>)
        requires
            old(self).next_id + nodes@.len() <= u64::MAX,
        ensures
            ({
                let (m, s) = old(self)@.spec_add_all_init(app@, spec_nodes(nodes@));
                &&& final(self)@ == m
                &&& spec_outcome(r, s)
                &&& final(self).spec_changes() == old(self).spec_changes()
            }),
    {
        let ghost all = spec_nodes(nodes@);
        let mut i: usize = 0;
        while i < nodes.len()
            invariant
                i <= nodes@.len(),
                all == spec_nodes(nodes@),
                self@.next_id <= old(self)@.next_id + i,
                old(self)@.next_id + nodes@.len() <= u64::MAX,
                old(self)@.spec_add_all_init(app@, all.take(i as int)) == (self@, Ok::<(), (Seq<char>, Seq<char>)>(())),
                self.spec_changes() == old(self).spec_changes(),
            decreases nodes@.len() - i,
        {
            proof {
                assert(all.take(i + 1).drop_last() =~= all.take(i as int));
                assert(all.take(i + 1).last() == nodes@[i as int]@);
            }
            let r = self.add_node_info(app, nodes[i].copy());
            match r {
                Err(e) => {
                    proof {
                        assert(all.take(i + 1).len() > 0);
                        lemma_add_all_init_err_extends(old(self)@, app@, all, i as int + 1);
                    }
                    return Err(e);
                },
                Ok(()) => {},
            }
            i = i + 1;
        }
        assert(all.take(nodes@.len() as int) =~= all);
        Ok(())
    }

    /// Adds meters as new entries, in order, and records them to persist.
    pub fn add_node_infos_checked(&mut self, app: &str, nodes: &[NodeInfo])
        requires
            old(self).next_id + nodes@.len() <= u64::MAX,
        ensures
            final(self)@ == old(self)@.spec_add_all_checked(app@, spec_nodes(nodes@)),
            final(self).spec_changes() == old(self).spec_changes().push((true, app@, spec_nodes(nodes@))),
    {
        let ghost all = spec_nodes(nodes@);
        let mut i: usize = 0;
        while i < nodes.len()
            invariant
                i <= nodes@.len(),
                all == spec_nodes(nodes@),
                self@.next_id == old(self)@.next_id + i,
                old(self)@.next_id + nodes@.len() <= u64::MAX,
                self@ == old(self)@.spec_add_all_checked(app@, all.take(i as int)),
                self.spec_changes() == old(self).spec_changes(),
            decreases nodes@.len() - i,
        {
            proof {
                assert(all.take(i + 1).drop_last() =~= all.take(i as int));
                assert(all.take(i + 1).last() == nodes@[i as int]@);
            }
            self.add_node_info_checked(app, nodes[i].copy());
            i = i + 1;
        }
        assert(all.take(nodes@.len() as int) =~= all);
        let copies = copy_node_infos(nodes);
        let ghost before = self.spec_changes();
        self.changes.push(ConfigChange::Add(owned(app), copies));
        assert(self.spec_changes() =~= before.push((true, app@, all)));
    }
}

proof fn lemma_add_all_init_err_extends(m: ConfigModel, app: Seq<char>, nodes: Seq<NodeV>, k: int)
    requires
        0 < k <= nodes.len(),
        m.spec_add_all_init(app, nodes.take(k)).1 is Err,
    ensures
        m.spec_add_all_init(app, nodes) == m.spec_add_all_init(app, nodes.take(k)),
    decreases nodes.len() - k,
{
    if k < nodes.len() {
        assert(nodes.take(k + 1).drop_last() =~= nodes.take(k));
        lemma_add_all_init_err_extends(m, app, nodes, k + 1);
    } else {
        assert(nodes.take(k) =~= nodes);
    }
}

impl NodeConfig {
    fn remove_entry(&mut self, a: usize, k: usize) -> (e: SharedNode)
        requires
            a < old(self).node_data@.len(),
            k < old(self).node_data@[a as int].nodes@.len(),
        ensures
            final(self)@.apps == old(self)@.apps.update(
                a as int,
                (old(self)@.apps[a as int].0, old(self)@.apps[a as int].1.remove(k as int)),
            ),
            (e.id, e.info@) == old(self)@.apps[a as int].1[k as int],
            final(self)@.global == old(self)@.global,
            final(self)@.next_id == old(self)@.next_id,
            final(self).spec_changes() == old(self).spec_changes(),
    {
        let mut list = Vec::new();
        std::mem::swap(&mut list, &mut self.node_data[a].nodes);
        let ghost before = list@;
        let e = list.remove(k);
        std::mem::swap(&mut list, &mut self.node_data[a].nodes);
        proof {
            assert(spec_entries(self.node_data@[a as int].nodes@) =~= spec_entries(before).remove(k as int));
            assert(self@.apps =~= old(self)@.apps.update(
                a as int,
                (old(self)@.apps[a as int].0, old(self)@.apps[a as int].1.remove(k as int)),
            ));
        }
        e
    }

    /// Whether a meter is to be deleted from the module: no where the application
    /// does not hold it; yes where no other application holds its entry; otherwise
    /// the application's hold is dropped, recorded to persist, and no.
    pub fn should_remove_node_info(&mut self, app: &str, node: &NodeInfo) -> (b: bool)
        ensures
            ({
                let (m, r, c) = old(self)@.spec_should_remove(app@, node.acq_addr@);
                &&& final(self)@ == m
                &&& b == r
                &&& final(self).spec_changes() == old(self).spec_changes() + match c {
                    Some(n) => seq![(false, app@, seq![n])],
                    None => Seq::empty(),
                }
            }),
    {
        let a = match self.find_app(app) {
            Some(a) => a,
            None => {
                assert(self.spec_changes() =~= old(self).spec_changes() + Seq::empty());
                return false;
            },
        };
        let k = match self.find_entry(a, node.acq_addr.as_str()) {
            Some(k) => k,
            None => {
                assert(self.spec_changes() =~= old(self).spec_changes() + Seq::empty());
                return false;
            },
        };
        let id = self.node_data[a].nodes[k].id;
        if self.held_once(id) {
            assert(self.spec_changes() =~= old(self).spec_changes() + Seq::empty());
            true
        } else {
            let e = self.remove_entry(a, k);
            proof {
                assert(self@ =~= old(self)@.set_entries(app@, old(self)@.apps[a as int].1.remove(k as int)));
            }
            let mut v = Vec::new();
            let ghost info_v = e.info@;
            v.push(e.info);
            let ghost before = self.spec_changes();
            self.changes.push(ConfigChange::Del(owned(app), v));
            proof {
                assert(v@.map_values(|x: NodeInfo| x@) =~= seq![info_v]);
                assert(self.spec_changes() =~= old(self).spec_changes() + seq![(false, app@, seq![info_v])]);
            }
            false
        }
    }

    /// Drops the application's first meter with the node's address, then the
    /// address's registration; an address without one is an error, after the drop.
    pub fn remove_node_info_checked(&mut self, app: &str, node: &NodeInfo) -> (r: Result<(), Error>)
        requires
            old(self)@.spec_removable(app@, node.acq_addr@),
        ensures
            ({
                let (m, ok) = old(self)@.spec_remove_checked(app@, node.acq_addr@);
                &&& final(self)@ == m
                &&& ok ==> r is Ok
                &&& !ok ==> (r matches Err(Error::NodeConfig(NodeConfigError::NotFound(a))) && a@ == node.acq_addr@)
                &&& final(self).spec_changes() == old(self).spec_changes()
            }),
    {
        let a = match self.find_app(app) {
            Some(a) => a,
            None => {
                assert(false);
                return Ok(());
            },
        };
        let k = match self.find_entry(a, node.acq_addr.as_str()) {
            Some(k) => k,
            None => {
                assert(false);
                return Ok(());
            },
        };
        self.remove_entry(a, k);
        let ghost m = self@;
        proof {
            assert(m =~= old(self)@.set_entries(app@, old(self)@.entries_of(app@).remove(k as int)));
        }
        match self.find_global(node.acq_addr.as_str()) {
            Some(g) => {
                let ghost before = self.global@;
                self.global.remove(g);
                proof {
                    assert(self@ =~= m.global_remove(node.acq_addr@));
                }
                Ok(())
            },
            None => Err(Error::NodeConfig(NodeConfigError::NotFound(owned(node.acq_addr.as_str())))),
        }
    }

    /// Drops meters in order (see `remove_node_info_checked`) up to the first
    /// error, and records them to persist when all went.
    pub fn remove_node_infos_checked(&mut self, app: &str, nodes: &[NodeInfo]) -> (r: Result<(), Error>)
        requires
            old(self)@.spec_can_remove_all(app@, spec_addrs(nodes@)),
        ensures
            ({
                let (m, s) = old(self)@.spec_remove_all(app@, spec_addrs(nodes@));
                &&& final(self)@ == m
                &&& s is Ok ==> r is Ok && final(self).spec_changes() == old(self).spec_changes().push(
                    (false, app@, spec_nodes(nodes@)),
                )
                &&& s matches Err(x) ==> (r matches Err(Error::NodeConfig(NodeConfigError::NotFound(a)))
                    && a@ == x && final(self).spec_changes() == old(self).spec_changes())
            }),
    {
        let ghost all = spec_addrs(nodes@);
        let mut i: usize = 0;
        while i < nodes.len()
            invariant
                i <= nodes@.len(),
                all == spec_addrs(nodes@),
                old(self)@.spec_can_remove_all(app@, all),
                old(self)@.spec_remove_all(app@, all.take(i as int)) == (self@, Ok::<(), Seq<char>>(())),
                self.spec_changes() == old(self).spec_changes(),
            decreases nodes@.len() - i,
        {
            proof {
                assert(all.take(i + 1).drop_last() =~= all.take(i as int));
                assert(all.take(i + 1).last() == nodes@[i as int].acq_addr@);
                lemma_can_remove_prefix(old(self)@, app@, all, i as int + 1);
            }
            let r = self.remove_node_info_checked(app, &nodes[i]);
            match r {
                Err(e) => {
                    proof {
                        lemma_remove_all_err_extends(old(self)@, app@, all, i as int + 1);
                    }
                    return Err(e);
                },
                Ok(()) => {},
            }
            i = i + 1;
        }
        assert(all.take(nodes@.len() as int) =~= all);
        let copies = copy_node_infos(nodes);
        let ghost before = self.spec_changes();
        self.changes.push(ConfigChange::Del(owned(app), copies));
        assert(self.spec_changes() =~= before.push((false, app@, spec_nodes(nodes@))));
        Ok(())
    }
}

proof fn lemma_can_remove_prefix(m: ConfigModel, app: Seq<char>, addrs: Seq<Seq<char>>, k: int)
    requires
        0 <= k <= addrs.len(),
        m.spec_can_remove_all(app, addrs),
    ensures
        m.spec_can_remove_all(app, addrs.take(k)),
    decreases addrs.len() - k,
{
    if k < addrs.len() {
        assert(addrs.take(k + 1).drop_last() =~= addrs.take(k));
        lemma_can_remove_prefix(m, app, addrs, k + 1);
    } else {
        assert(addrs.take(k) =~= addrs);
    }
}

proof fn lemma_remove_all_err_extends(m: ConfigModel, app: Seq<char>, addrs: Seq<Seq<char>>, k: int)
    requires
        0 < k <= addrs.len(),
        m.spec_remove_all(app, addrs.take(k)).1 is Err,
    ensures
        m.spec_remove_all(app, addrs) == m.spec_remove_all(app, addrs.take(k)),
    decreases addrs.len() - k,
{
    if k < addrs.len() {
        assert(addrs.take(k + 1).drop_last() =~= addrs.take(k));
        lemma_remove_all_err_extends(m, app, addrs, k + 1);
    } else {
        assert(addrs.take(k) =~= addrs);
    }
}

fn copy_entries(nodes: &Vec<SharedNode>) -> (r: Vec<SharedNode>)
    ensures
        spec_entries(r@) == spec_entries(nodes@),
{
    let mut r: Vec<SharedNode> = Vec::new();
    let mut i: usize = 0;
    while i < nodes.len()
        invariant
            i <= nodes@.len(),
            spec_entries(r@) == spec_entries(nodes@.take(i as int)),
        decreases nodes@.len() - i,
    {
        r.push(SharedNode { id: nodes[i].id, info: nodes[i].info.copy() });
        proof {
            assert(spec_entries(nodes@.take(i + 1)) =~= spec_entries(nodes@.take(i as int)).push(
                (nodes@[i as int].id, nodes@[i as int].info@),
            ));
            assert(spec_entries(r@) =~= spec_entries(nodes@.take(i as int)).push(
                (nodes@[i as int].id, nodes@[i as int].info@),
            ));
        }
        i = i + 1;
    }
    assert(nodes@.take(nodes@.len() as int) =~= nodes@);
    r
}

proof fn lemma_can_remove_after_err(m: ConfigModel, app: Seq<char>, addrs: Seq<Seq<char>>, k: int)
    requires
        0 < k <= addrs.len(),
        m.spec_can_remove_all(app, addrs.take(k)),
        m.spec_remove_all(app, addrs.take(k)).1 is Err,
    ensures
        m.spec_can_remove_all(app, addrs),
    decreases addrs.len() - k,
{
    if k < addrs.len() {
        let t = addrs.take(k + 1);
        assert(t.drop_last() =~= addrs.take(k));
        assert(m.spec_can_remove_all(app, t));
        lemma_can_remove_after_err(m, app, addrs, k + 1);
    } else {
        assert(addrs.take(k) =~= addrs);
    }
}

impl NodeConfig {
    /// A copy of the registry, with no changes to persist.
    pub fn copy(&self) -> (r: Self)
        ensures
            r@ == self@,
            r.spec_changes().len() == 0,
    {
        let mut apps: Vec<AppNodes> = Vec::new();
        let mut i: usize = 0;
        while i < self.node_data.len()
            invariant
                i <= self.node_data@.len(),
                apps@.map_values(|a: AppNodes| (a.app@, spec_entries(a.nodes@))) == self@.apps.take(i as int),
            decreases self.node_data@.len() - i,
        {
            let a = &self.node_data[i];
            let ghost before = apps@;
            let item = AppNodes { app: owned(a.app.as_str()), nodes: copy_entries(&a.nodes) };
            assert((item.app@, spec_entries(item.nodes@)) == self@.apps[i as int]);
            apps.push(item);
            proof {
                assert(self@.apps.take(i + 1) =~= self@.apps.take(i as int).push(self@.apps[i as int]));
                assert(apps@.map_values(|a: AppNodes| (a.app@, spec_entries(a.nodes@))) =~= before.map_values(
                    |a: AppNodes| (a.app@, spec_entries(a.nodes@)),
                ).push(self@.apps[i as int]));
            }
            i = i + 1;
        }
        let mut global: Vec<GlobalEntry> = Vec::new();
        let mut j: usize = 0;
        while j < self.global.len()
            invariant
                j <= self.global@.len(),
                global@.map_values(|g: GlobalEntry| (g.addr@, g.id)) == self@.global.take(j as int),
            decreases self.global@.len() - j,
        {
            let ghost before = global@;
            let item = GlobalEntry { addr: owned(self.global[j].addr.as_str()), id: self.global[j].id };
            assert((item.addr@, item.id) == self@.global[j as int]);
            global.push(item);
            proof {
                assert(self@.global.take(j + 1) =~= self@.global.take(j as int).push(self@.global[j as int]));
                assert(global@.map_values(|g: GlobalEntry| (g.addr@, g.id)) =~= before.map_values(
                    |g: GlobalEntry| (g.addr@, g.id),
                ).push(self@.global[j as int]));
            }
            j = j + 1;
        }
        let r = NodeConfig { node_data: apps, global, next_id: self.next_id, changes: Vec::new() };
        proof {
            assert(self@.apps.take(self@.apps.len() as int) =~= self@.apps);
            assert(self@.global.take(self@.global.len() as int) =~= self@.global);
            assert(r@ =~= self@);
        }
        r
    }

    /// Whether the application holds a meter with the address.
    pub fn removable(&self, app: &str, addr: &str) -> (b: bool)
        ensures
            b == self@.spec_removable(app@, addr@),
    {
        match self.find_app(app) {
            Some(a) => {
                let k = self.find_entry(a, addr);
                k.is_some()
            },
            None => false,
        }
    }

    /// Whether `remove_node_infos_checked` can take these meters out: every one that
    /// it reaches is held by the application.
    pub fn can_remove_all(&self, app: &str, nodes: &[NodeInfo]) -> (b: bool)
        ensures
            b == self@.spec_can_remove_all(app@, spec_addrs(nodes@)),
    {
        let ghost all = spec_addrs(nodes@);
        let mut scratch = self.copy();
        let mut i: usize = 0;
        assert(all.take(0) =~= Seq::<Seq<char>>::empty());
        while i < nodes.len()
            invariant
                i <= nodes@.len(),
                all == spec_addrs(nodes@),
                self@.spec_remove_all(app@, all.take(i as int)) == (scratch@, Ok::<(), Seq<char>>(())),
                self@.spec_can_remove_all(app@, all.take(i as int)),
            decreases nodes@.len() - i,
        {
            proof {
                assert(all.take(i + 1).drop_last() =~= all.take(i as int));
                assert(all.take(i + 1).last() == nodes@[i as int].acq_addr@);
            }
            if !scratch.removable(app, nodes[i].acq_addr.as_str()) {
                proof {
                    lemma_cannot_remove_extends(self@, app@, all, i as int + 1);
                }
                return false;
            }
            match scratch.remove_node_info_checked(app, &nodes[i]) {
                Err(_) => {
                    proof {
                        lemma_can_remove_after_err(self@, app@, all, i as int + 1);
                    }
                    return true;
                },
                Ok(()) => {},
            }
            i = i + 1;
        }
        assert(all.take(nodes@.len() as int) =~= all);
        true
    }
}

proof fn lemma_cannot_remove_extends(m: ConfigModel, app: Seq<char>, addrs: Seq<Seq<char>>, k: int)
    requires
        0 < k <= addrs.len(),
        !m.spec_can_remove_all(app, addrs.take(k)),
    ensures
        !m.spec_can_remove_all(app, addrs),
    decreases addrs.len() - k,
{
    if k < addrs.len() {
        assert(addrs.take(k + 1).drop_last() =~= addrs.take(k));
        lemma_cannot_remove_extends(m, app, addrs, k + 1);
    } else {
        assert(addrs.take(k) =~= addrs);
    }
}

/// Reading decimal digits after the value `acc` read so far, as std's unsigned
/// parsing does: the first character that is no digit, or the first digit that
/// takes the value past `usize::MAX`, stops it.
pub open spec fn spec_scan_usize(d: Seq<char>, acc: nat) -> Result<usize, ParseIntError>
    decreases d.len(),
{
    if d.len() == 0 {
        Ok(acc as usize)
    } else if !crate::service::master_address::spec_is_digit(d[0]) {
        Err(ParseIntError::InvalidDigit)
    } else if acc * 10 + spec_digit_value(d[0]) > usize::MAX {
        Err(ParseIntError::PosOverflow)
    } else {
        spec_scan_usize(d.skip(1), (acc * 10 + spec_digit_value(d[0])) as nat)
    }
}

/// What std's `usize` parsing makes of a text: empty is an error; a lone sign is
/// an invalid digit; a leading `+` is dropped; then the digits are read.
pub open spec fn spec_parse_usize(s: Seq<char>) -> Result<usize, ParseIntError> {
    if s.len() == 0 {
        Err(ParseIntError::Empty)
    } else if s.len() == 1 && (s[0] == '+' || s[0] == '-') {
        Err(ParseIntError::InvalidDigit)
    } else if s[0] == '+' {
        spec_scan_usize(s.skip(1), 0)
    } else {
        spec_scan_usize(s, 0)
    }
}

/// Parses a decimal `usize` as std does.
pub fn parse_usize(s: &str) -> (r: Result<usize, ParseIntError>)
    ensures
        r == spec_parse_usize(s@),
{
    let n = s.unicode_len();
    if n == 0 {
        return Err(ParseIntError::Empty);
    }
    let c0 = s.get_char(0);
    if n == 1 && (c0 == '+' || c0 == '-') {
        return Err(ParseIntError::InvalidDigit);
    }
    let start: usize = if c0 == '+' {
        1
    } else {
        0
    };
    let ghost d = s@.skip(start as int);
    assert(spec_parse_usize(s@) == spec_scan_usize(d, 0)) by {
        if start == 0 {
            assert(d =~= s@);
        }
    }
    let mut acc: usize = 0;
    let mut i: usize = start;
    while i < n
        invariant
            n == s@.len(),
            start <= i <= n,
            d == s@.skip(start as int),
            spec_parse_usize(s@) == spec_scan_usize(d, 0),
            spec_scan_usize(d, 0) == spec_scan_usize(s@.skip(i as int), acc as nat),
        decreases n - i,
    {
        let c = s.get_char(i);
        let ghost rest = s@.skip(i as int);
        assert(rest[0] == c);
        if c < '0' || c > '9' {
            return Err(ParseIntError::InvalidDigit);
        }
        let digit = (c as u32 - 48) as usize;
        assert(digit == spec_digit_value(c));
        if acc > (usize::MAX - digit) / 10 {
            assert(acc * 10 + digit > usize::MAX) by (nonlinear_arith)
                requires
                    acc > (usize::MAX - digit) / 10,
                    digit <= 9,
            ;
            return Err(ParseIntError::PosOverflow);
        }
        assert(acc * 10 + digit <= usize::MAX) by (nonlinear_arith)
            requires
                acc <= (usize::MAX - digit) / 10,
                digit <= 9,
        ;
        acc = acc * 10 + digit;
        assert(rest.skip(1) =~= s@.skip(i + 1));
        i = i + 1;
    }
    assert(s@.skip(n as int) =~= Seq::<char>::empty());
    Ok(acc)
}


/// The first position is unchanged where `p` holds at the same positions.
proof fn lemma_first_same<T>(s: Seq<T>, t: Seq<T>, p: spec_fn(T) -> bool)
    requires
        s.len() == t.len(),
        forall|j: int| 0 <= j < s.len() ==> p(s[j]) == p(t[j]),
    ensures
        spec_first(s, p) == spec_first(t, p),
{
    if exists|i: int| spec_is_first(s, p, i) {
        let k = choose|i: int| spec_is_first(s, p, i);
        assert(spec_is_first(t, p, k)) by {
            assert forall|j: int| 0 <= j < k implies !p(#[trigger] t[j]) by {
                assert(!p(s[j]));
            }
        }
        lemma_first_found(s, p, k);
        lemma_first_found(t, p, k);
    } else if exists|i: int| spec_is_first(t, p, i) {
        let k = choose|i: int| spec_is_first(t, p, i);
        assert(spec_is_first(s, p, k)) by {
            assert forall|j: int| 0 <= j < k implies !p(#[trigger] s[j]) by {
                assert(!p(t[j]));
            }
        }
    }
}

/// Where `p` holds nowhere, it holds nowhere.
proof fn lemma_first_none_all<T>(s: Seq<T>, p: spec_fn(T) -> bool, j: int)
    requires
        spec_first(s, p) is None,
        0 <= j < s.len(),
    ensures
        !p(s[j]),
{
    if p(s[j]) {
        lemma_least_witness(s, p, j);
    }
}

impl ConfigModel {
    /// The meters listed for an application, in order.
    pub open spec fn meters_of(self, app: Seq<char>) -> Seq<NodeV> {
        self.entries_of(app).map_values(|e: EntryV| e.1)
    }
}

/// Where the application has a list, giving it another list leaves it at the same place.
proof fn lemma_set_entries_pos(m: ConfigModel, app: Seq<char>, es: Seq<EntryV>)
    requires
        m.app_pos(app) is Some,
    ensures
        m.set_entries(app, es).app_pos(app) == m.app_pos(app),
        m.set_entries(app, es).entries_of(app) == es,
{
    let i = m.app_pos(app)->0;
    let p = app_is(app);
    let apps2 = m.apps.update(i, (app, es));
    assert(spec_is_first(m.apps, p, i)) by {
        let k = choose|k: int| spec_is_first(m.apps, p, k);
        assert(spec_is_first(m.apps, p, k));
    }
    assert(spec_is_first(apps2, p, i)) by {
        assert forall|j: int| 0 <= j < i implies !p(#[trigger] apps2[j]) by {
            assert(apps2[j] == m.apps[j]);
        }
    }
    lemma_first_found(apps2, p, i);
}

/// Giving an application a list leaves it at its place, or puts an empty one at the end.
proof fn lemma_with_app_pos(m: ConfigModel, app: Seq<char>)
    ensures
        m.with_app(app).app_pos(app) is Some,
        m.with_app(app).entries_of(app) == m.entries_of(app),
{
    if m.app_pos(app) is None {
        let p = app_is(app);
        let apps2 = m.apps.push((app, Seq::<EntryV>::empty()));
        let n = m.apps.len() as int;
        assert(spec_is_first(apps2, p, n)) by {
            assert forall|j: int| 0 <= j < n implies !p(#[trigger] apps2[j]) by {
                lemma_first_none_all(m.apps, p, j);
                assert(apps2[j] == m.apps[j]);
            }
        }
        lemma_first_found(apps2, p, n);
    }
}

/// A new entry for a meter goes at the end of the application's list.
proof fn lemma_add_checked_entries(m: ConfigModel, app: Seq<char>, node: NodeV)
    ensures
        m.add_checked(app, node).entries_of(app) == m.entries_of(app).push((m.next_id, node)),
{
    let m1 = m.with_app(app);
    lemma_with_app_pos(m, app);
    let es = m1.entries_of(app).push((m.next_id, node));
    lemma_set_entries_pos(m1, app, es);
    let m2 = m1.set_entries(app, es);
    let m3 = m2.global_insert(node.0, m.next_id);
    assert(m3.apps == m2.apps);
    let r = ConfigModel { next_id: (m.next_id + 1) as u64, ..m3 };
    assert(r.apps == m2.apps);
    lemma_first_same(r.apps, m2.apps, app_is(app));
}

/// Meters added to an application are listed for it, after the ones it had and
/// in the order they were added.
pub proof fn law_added_meters_listed(m: ConfigModel, app: Seq<char>, nodes: Seq<NodeV>)
    ensures
        m.spec_add_all_checked(app, nodes).meters_of(app) == m.meters_of(app) + nodes,
    decreases nodes.len(),
{
    if nodes.len() == 0 {
        assert(m.meters_of(app) + nodes =~= m.meters_of(app));
    } else {
        let init = nodes.drop_last();
        law_added_meters_listed(m, app, init);
        let m1 = m.spec_add_all_checked(app, init);
        lemma_add_checked_entries(m1, app, nodes.last());
        assert(m1.add_checked(app, nodes.last()).meters_of(app) =~= m1.meters_of(app).push(nodes.last()));
        assert(m.meters_of(app) + nodes =~= (m.meters_of(app) + init).push(nodes.last()));
    }
}


/// After registering an address, a registration for it is found.
proof fn lemma_global_insert_found(m: ConfigModel, addr: Seq<char>, id: u64)
    ensures
        spec_first(m.global_insert(addr, id).global, key_is(addr)) is Some,
{
    let g = m.global_insert(addr, id).global;
    let p = key_is(addr);
    match spec_first(m.global, p) {
        Some(i) => {
            assert(spec_is_first(m.global, p, i)) by {
                let k = choose|k: int| spec_is_first(m.global, p, k);
                assert(spec_is_first(m.global, p, k));
            }
            assert(p(g[i]));
            lemma_least_witness(g, p, i);
        },
        None => {
            let n = m.global.len() as int;
            assert(p(g[n]));
            lemma_least_witness(g, p, n);
        },
    }
}

/// Removing a meter just added to an application, whose address the application
/// did not list before, leaves the application's meters as they were; the address
/// was registered, so the removal succeeds.
pub proof fn law_add_then_remove(m: ConfigModel, app: Seq<char>, node: NodeV)
    requires
        spec_first(m.entries_of(app), addr_is(node.0)) is None,
    ensures
        m.add_checked(app, node).spec_removable(app, node.0),
        m.add_checked(app, node).spec_remove_checked(app, node.0).1,
        m.add_checked(app, node).spec_remove_checked(app, node.0).0.meters_of(app) == m.meters_of(app),
{
    let es = m.entries_of(app);
    let m1 = m.with_app(app);
    lemma_with_app_pos(m, app);
    let es2 = es.push((m.next_id, node));
    lemma_set_entries_pos(m1, app, es2);
    let m2 = m1.set_entries(app, es2);
    let a = m.add_checked(app, node);
    lemma_add_checked_entries(m, app, node);
    assert(a.apps == m2.global_insert(node.0, m.next_id).apps);
    lemma_first_same(a.apps, m2.apps, app_is(app));
    assert(a.app_pos(app) is Some);
    // the new entry is the first with the address
    let p = addr_is(node.0);
    let n = es.len() as int;
    assert(spec_is_first(es2, p, n)) by {
        assert forall|j: int| 0 <= j < n implies !p(#[trigger] es2[j]) by {
            lemma_first_none_all(es, p, j);
            assert(es2[j] == es[j]);
        }
    }
    lemma_first_found(es2, p, n);
    assert(a.spec_removable(app, node.0));
    // dropping it gives the old list back
    assert(es2.remove(n) =~= es);
    lemma_set_entries_pos(a, app, es);
    let r = a.set_entries(app, es);
    assert(r.global == a.global);
    assert(a.global == m2.global_insert(node.0, m.next_id).global);
    lemma_global_insert_found(m2, node.0, m.next_id);
    let out = a.spec_remove_checked(app, node.0);
    assert(out.0.apps == r.apps);
    lemma_first_same(out.0.apps, r.apps, app_is(app));
    assert(out.0.entries_of(app) == es);
}

} // verus!
