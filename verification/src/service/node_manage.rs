//! Requests on the meters that applications configure: adding, deleting and
//! clearing them (ten at a time, each group confirmed by the module before it is
//! recorded), and reading them back from the registry or from the module.
use vstd::prelude::*;

use crate::error::Error;
use crate::mqtt_message::MqttMessage;
use crate::mqtt_topic::{spec_split, MqttTopic};
use crate::protocol::app_data::init::{InitOperation, InitRequest};
use crate::protocol::app_data::route_get::{
    QueryNodeInfoRequest, QueryNodeInfoResponse, QueryNodeNumberRequest, QueryNodeNumberResponse,
};
use crate::protocol::app_data::route_set::{
    spec_node_infos_wire, AddNodeRequest, DelNodeRequest, NodeInfo as UartNodeInfo,
};
use crate::protocol::app_data::{Address, Afn, AppData};
use crate::protocol::frame::{CtrlField, Frame, FrameSeq};
use crate::protocol::user_data::{spec_addresses_wire, UserData};
use crate::request_info::{MqttReqInfo, UartMessage};
use crate::service::node_config::{
    copy_node_infos, parse_u8, spec_addrs, spec_mismatch, spec_nodes, spec_parse_u8, spec_parse_usize,
    parse_usize, ConfigModel, NodeConfig, NodeInfo, NodeV,
};
use crate::service::parse_response::{
    confirm_result, mqtt_info_request_uart_handler, spec_deny, spec_is_deny, UartResponse,
};
use crate::text::{owned, spec_hex_decode};

verus! {

/// How many meters one request to the module carries.
pub const ACQ_FILES_CHUNK_SIZE: usize = 10;

/// The three changes to an application's meters that a request can ask for.
#[derive(Debug, Clone, Copy, PartialEq, Eq, Structural)]
pub enum AcqFilesOperation {
    Add,
    Del,
    Clear,
}

/// The change to persist that a single step records, as a sequence of at most one.
pub open spec fn spec_change_of(add: bool, app: Seq<char>, c: Option<NodeV>) -> Seq<(bool, Seq<char>, Seq<NodeV>)> {
    match c {
        Some(n) => seq![(add, app, seq![n])],
        None => Seq::empty(),
    }
}

/// Working a group of meters against the registry before the module is asked:
/// the registry after, the meters the module must be asked about (or the refusal's
/// two protocol types), and the changes to persist. An addition at start-up asks
/// about every meter; otherwise an addition asks about the meters that no
/// application holds yet, and a deletion about those held by this application only.
pub open spec fn spec_operate(
    op: AcqFilesOperation,
    m: ConfigModel,
    app: Seq<char>,
    nodes: Seq<NodeV>,
    is_init: bool,
) -> (ConfigModel, Result<Seq<NodeV>, (Seq<char>, Seq<char>)>, Seq<(bool, Seq<char>, Seq<NodeV>)>)
    decreases nodes.len(),
{
    if op == AcqFilesOperation::Add && is_init {
        (m, Ok(nodes), Seq::empty())
    } else if nodes.len() == 0 {
        (m, Ok(Seq::empty()), Seq::empty())
    } else {
        let (m1, r1, c1) = spec_operate(op, m, app, nodes.drop_last(), is_init);
        match r1 {
            Err(e) => (m1, Err(e), c1),
            Ok(list) => if op == AcqFilesOperation::Add {
                let (m2, r2, c2) = m1.spec_exist(app, nodes.last(), false);
                match r2 {
                    Err(e) => (m2, Err(e), c1 + spec_change_of(true, app, c2)),
                    Ok(found) => (
                        m2,
                        Ok(
                            if found {
                                list
                            } else {
                                list.push(nodes.last())
                            },
                        ),
                        c1 + spec_change_of(true, app, c2),
                    ),
                }
            } else {
                let (m2, b, c2) = m1.spec_should_remove(app, nodes.last().0);
                (
                    m2,
                    Ok(
                        if b {
                            list.push(nodes.last())
                        } else {
                            list
                        },
                    ),
                    c1 + spec_change_of(false, app, c2),
                )
            },
        }
    }
}

/// Works a group of meters against the registry (see `spec_operate`).
pub fn operate_node_infos(
    op: AcqFilesOperation,
    config: &mut NodeConfig,
    app: &str,
    nodes: &[NodeInfo],
    is_init: bool,
) -> (r: Result<Vec<NodeInfo>, Error>)
    ensures
        ({
            let (m, s, c) = spec_operate(op, old(config)@, app@, spec_nodes(nodes@), is_init);
            &&& final(config)@ == m
            &&& final(config).spec_changes() == old(config).spec_changes() + c
            &&& match s {
                Ok(list) => r matches Ok(v) && spec_nodes(v@) == list,
                Err(p) => r matches Err(e) && spec_mismatch(e) == Some(p),
            }
        }),
{
    let ghost all = spec_nodes(nodes@);
    if op == AcqFilesOperation::Add && is_init {
        let v = copy_node_infos(nodes);
        assert(config.spec_changes() =~= old(config).spec_changes() + Seq::empty());
        return Ok(v);
    }
    let mut out: Vec<NodeInfo> = Vec::new();
    let mut i: usize = 0;
    assert(all.take(0) =~= Seq::<NodeV>::empty());
    assert(spec_nodes(out@) =~= Seq::<NodeV>::empty());
    assert(config.spec_changes() =~= old(config).spec_changes() + Seq::empty());
    while i < nodes.len()
        invariant
            i <= nodes@.len(),
            all == spec_nodes(nodes@),
            !(op == AcqFilesOperation::Add && is_init),
            ({
                let (m, s, c) = spec_operate(op, old(config)@, app@, all.take(i as int), is_init);
                &&& m == config@
                &&& s == Ok::<Seq<NodeV>, (Seq<char>, Seq<char>)>(spec_nodes(out@))
                &&& config.spec_changes() == old(config).spec_changes() + c
            }),
        decreases nodes@.len() - i,
    {
        proof {
            assert(all.take(i + 1).drop_last() =~= all.take(i as int));
            assert(all.take(i + 1).last() == nodes@[i as int]@);
        }
        let ghost c0 = config.spec_changes();
        let ghost list = spec_nodes(out@);
        if op == AcqFilesOperation::Add {
            let found = config.add_node_info_exist(app, &nodes[i], false);
            match found {
                Err(e) => {
                    proof {
                        let (m1, r1, c1) = spec_operate(op, old(config)@, app@, all.take(i as int), is_init);
                        assert(config.spec_changes() =~= old(config).spec_changes() + (c1 + spec_change_of(
                            true,
                            app@,
                            m1.spec_exist(app@, nodes@[i as int]@, false).2,
                        )));
                        lemma_operate_err_extends(op, old(config)@, app@, all, i as int + 1, is_init);
                    }
                    return Err(e);
                },
                Ok(true) => {},
                Ok(false) => {
                    out.push(nodes[i].copy());
                    assert(spec_nodes(out@) =~= list.push(nodes@[i as int]@));
                },
            }
        } else {
            if config.should_remove_node_info(app, &nodes[i]) {
                out.push(nodes[i].copy());
                assert(spec_nodes(out@) =~= list.push(nodes@[i as int]@));
            }
        }
        proof {
            let (m1, r1, c1) = spec_operate(op, old(config)@, app@, all.take(i as int), is_init);
            assert(config.spec_changes() =~= old(config).spec_changes() + c1 + (config.spec_changes().skip(
                c0.len() as int,
            )));
            assert(old(config).spec_changes() + c1 + config.spec_changes().skip(c0.len() as int)
                =~= old(config).spec_changes() + (c1 + config.spec_changes().skip(c0.len() as int)));
        }
        i = i + 1;
    }
    assert(all.take(nodes@.len() as int) =~= all);
    Ok(out)
}

proof fn lemma_operate_err_extends(
    op: AcqFilesOperation,
    m: ConfigModel,
    app: Seq<char>,
    nodes: Seq<NodeV>,
    k: int,
    is_init: bool,
)
    requires
        0 < k <= nodes.len(),
        spec_operate(op, m, app, nodes.take(k), is_init).1 is Err,
    ensures
        spec_operate(op, m, app, nodes, is_init) == spec_operate(op, m, app, nodes.take(k), is_init),
    decreases nodes.len() - k,
{
    if k < nodes.len() {
        assert(nodes.take(k + 1).drop_last() =~= nodes.take(k));
        lemma_operate_err_extends(op, m, app, nodes, k + 1, is_init);
    } else {
        assert(nodes.take(k) =~= nodes);
    }
}

/// Whether a meter can be sent to the module: a twelve-digit hexadecimal address,
/// and, for an addition, a decimal protocol type.
pub open spec fn spec_sendable(op: AcqFilesOperation, n: NodeV) -> bool {
    &&& Address::spec_is_address_text(n.0)
    &&& op == AcqFilesOperation::Add ==> spec_parse_u8(n.1) is Some
}

/// Whether every meter of a list can be sent to the module.
pub open spec fn spec_all_sendable(op: AcqFilesOperation, nodes: Seq<NodeV>) -> bool {
    forall|i: int| 0 <= i < nodes.len() ==> spec_sendable(op, #[trigger] nodes[i])
}

/// Whether every meter of a list can be sent to the module.
pub fn all_sendable(op: AcqFilesOperation, nodes: &[NodeInfo]) -> (b: bool)
    ensures
        b == spec_all_sendable(op, spec_nodes(nodes@)),
{
    let ghost all = spec_nodes(nodes@);
    let mut i: usize = 0;
    while i < nodes.len()
        invariant
            i <= nodes@.len(),
            all == spec_nodes(nodes@),
            forall|j: int| 0 <= j < i ==> spec_sendable(op, #[trigger] all[j]),
        decreases nodes@.len() - i,
    {
        let n = &nodes[i];
        assert(all[i as int] == n@);
        if !Address::is_address_text(n.acq_addr.as_str()) {
            return false;
        }
        if op == AcqFilesOperation::Add && parse_u8(n.pro_type.as_str()).is_none() {
            return false;
        }
        i = i + 1;
    }
    true
}

/// Address (wire order) and protocol type of each meter.
pub open spec fn spec_meters_wire(nodes: Seq<NodeV>) -> Seq<u8>
    decreases nodes.len(),
{
    if nodes.len() == 0 {
        Seq::empty()
    } else {
        spec_meters_wire(nodes.drop_last()) + spec_hex_decode(nodes.last().0).reverse() + seq![
            spec_parse_u8(nodes.last().1)->0,
        ]
    }
}

/// The address (wire order) of each meter.
pub open spec fn spec_meter_addrs_wire(nodes: Seq<NodeV>) -> Seq<u8>
    decreases nodes.len(),
{
    if nodes.len() == 0 {
        Seq::empty()
    } else {
        spec_meter_addrs_wire(nodes.drop_last()) + spec_hex_decode(nodes.last().0).reverse()
    }
}

/// The request to the module for a group of meters: archive additions (count,
/// then address and type of each) or deletions (count, then addresses).
pub open spec fn spec_chunk_request(op: AcqFilesOperation, nodes: Seq<NodeV>, a: AppData) -> bool {
    if op == AcqFilesOperation::Add {
        a.spec_has(Afn::RouteSet, 1, Some(seq![nodes.len() as u8] + spec_meters_wire(nodes)))
    } else {
        a.spec_has(Afn::RouteSet, 2, Some(seq![nodes.len() as u8] + spec_meter_addrs_wire(nodes)))
    }
}

proof fn lemma_node_infos_wire_len(nodes: Seq<UartNodeInfo>)
    ensures
        spec_node_infos_wire(nodes).len() == 7 * nodes.len(),
    decreases nodes.len(),
{
    if nodes.len() > 0 {
        lemma_node_infos_wire_len(nodes.drop_last());
        assert(nodes.last().src_addr.0@.len() == 6);
    }
}

/// The request to the module for a group of meters (see `spec_chunk_request`).
pub fn create_uart_request(op: AcqFilesOperation, nodes: &[NodeInfo]) -> (a: AppData)
    requires
        spec_all_sendable(op, spec_nodes(nodes@)),
        nodes@.len() <= ACQ_FILES_CHUNK_SIZE,
    ensures
        spec_chunk_request(op, spec_nodes(nodes@), a),
        a.spec_units().len() <= 71,
{
    let ghost all = spec_nodes(nodes@);
    if op == AcqFilesOperation::Add {
        let mut v: Vec<UartNodeInfo> = Vec::new();
        let mut i: usize = 0;
        while i < nodes.len()
            invariant
                i <= nodes@.len(),
                all == spec_nodes(nodes@),
                op == AcqFilesOperation::Add,
                spec_all_sendable(op, all),
                v@.len() == i,
                spec_node_infos_wire(v@) == spec_meters_wire(all.take(i as int)),
            decreases nodes@.len() - i,
        {
            assert(spec_sendable(op, all[i as int]));
            let u = nodes[i].to_uart_node_info();
            let ghost before = v@;
            v.push(u);
            proof {
                assert(all.take(i + 1).drop_last() =~= all.take(i as int));
                assert(v@.drop_last() =~= before);
                assert(u.src_addr.wire() == spec_hex_decode(all[i as int].0).reverse());
            }
            i = i + 1;
        }
        assert(all.take(nodes@.len() as int) =~= all);
        proof {
            lemma_node_infos_wire_len(v@);
        }
        AppData::from(AddNodeRequest::new(v))
    } else {
        let mut v: Vec<Address> = Vec::new();
        let mut i: usize = 0;
        while i < nodes.len()
            invariant
                i <= nodes@.len(),
                all == spec_nodes(nodes@),
                spec_all_sendable(op, all),
                v@.len() == i,
                spec_addresses_wire(v@) == spec_meter_addrs_wire(all.take(i as int)),
            decreases nodes@.len() - i,
        {
            assert(spec_sendable(op, all[i as int]));
            let u = Address::from_hex(nodes[i].acq_addr.as_str());
            let ghost before = v@;
            v.push(u);
            proof {
                assert(all.take(i + 1).drop_last() =~= all.take(i as int));
                assert(v@.drop_last() =~= before);
            }
            i = i + 1;
        }
        assert(all.take(nodes@.len() as int) =~= all);
        proof {
            crate::protocol::laws::lemma_addresses_wire_len(v@);
        }
        AppData::from(DelNodeRequest::new(v))
    }
}

/// What a confirmed group of meters changes: additions become new entries,
/// deletions drop the application's entries and the addresses' registrations.
pub fn update_node_config(
    op: AcqFilesOperation,
    config: &mut NodeConfig,
    app: &str,
    nodes: &[NodeInfo],
) -> (r: Result<(), Error>)
    requires
        op == AcqFilesOperation::Add ==> old(config).next_id + nodes@.len() <= u64::MAX,
        op != AcqFilesOperation::Add ==> old(config)@.spec_can_remove_all(app@, spec_addrs(nodes@)),
    ensures
        op == AcqFilesOperation::Add ==> r is Ok && final(config)@ == old(config)@.spec_add_all_checked(
            app@,
            spec_nodes(nodes@),
        ) && final(config).spec_changes() == old(config).spec_changes().push((true, app@, spec_nodes(nodes@))),
        op != AcqFilesOperation::Add ==> ({
            let (m, s) = old(config)@.spec_remove_all(app@, spec_addrs(nodes@));
            &&& final(config)@ == m
            &&& s is Ok ==> r is Ok && final(config).spec_changes() == old(config).spec_changes().push(
                (false, app@, spec_nodes(nodes@)),
            )
            &&& s matches Err(x) ==> (r matches Err(Error::NodeConfig(crate::error::NodeConfigError::NotFound(a)))
                && a@ == x && final(config).spec_changes() == old(config).spec_changes())
        }),
{
    if op == AcqFilesOperation::Add {
        config.add_node_infos_checked(app, nodes);
        Ok(())
    } else {
        config.remove_node_infos_checked(app, nodes)
    }
}

/// What a step of a request on meters produced.
pub enum ChunkStep<T, C> {
    /// Every group was worked.
    Done,
    /// The group needed nothing of the module.
    Skipped,
    /// The group's request to the module.
    Send(UartMessage<T, C>),
}

/// A request on an application's meters, worked through ten meters at a time.
/// Each group is first worked against the registry; what remains is asked of the
/// module, and recorded in the registry once the module confirms (except at
/// start-up, when the registry already holds the meters).
#[derive(Debug)]
pub struct AcqFilesJob {
    pub operation: AcqFilesOperation,
    pub app: String,
    /// The answer topic and token of the MQTT request; none at start-up.
    pub answer_to: Option<(String, String)>,
    pub node_infos: Vec<NodeInfo>,
    /// Where the next group starts.
    pub next: usize,
    /// The meters of the group that waits for the module.
    pub pending: Vec<NodeInfo>,
}

impl AcqFilesJob {
    pub open spec fn spec_is_init(&self) -> bool {
        self.answer_to is None
    }

    /// The group that starts at `next`.
    pub open spec fn spec_chunk(&self) -> Seq<NodeV> {
        let all = spec_nodes(self.node_infos@);
        let end = if self.next + ACQ_FILES_CHUNK_SIZE < all.len() {
            self.next + ACQ_FILES_CHUNK_SIZE
        } else {
            all.len() as int
        };
        all.subrange(self.next as int, end)
    }

    /// A request on meters, from the first group on; an MQTT request is answered
    /// on its answer topic with its token.
    pub fn new<T>(
        operation: AcqFilesOperation,
        app: &str,
        mqtt_req_info: Option<MqttReqInfo<T>>,
        node_infos: Vec<NodeInfo>,
    ) -> (j: Self)
        ensures
            j.operation == operation,
            j.app@ == app@,
            match mqtt_req_info {
                Some(i) => j.answer_to matches Some(p) && p.0@ == i.topic@ && p.1@ == i.token@,
                None => j.answer_to is None,
            },
            j.node_infos@ == node_infos@,
            j.next == 0,
            j.pending@.len() == 0,
    {
        let answer_to = match mqtt_req_info {
            Some(i) => Some((i.topic, i.token)),
            None => None,
        };
        AcqFilesJob { operation, app: owned(app), answer_to, node_infos, next: 0, pending: Vec::new() }
    }

    /// Works the next group (see `spec_operate`): nothing left, nothing for the
    /// module, or the request for the module, which the group then waits on.
    pub fn next_step<T, C>(&mut self, config: &mut NodeConfig, seq: &mut FrameSeq) -> (r: Result<ChunkStep<T, C>, Error>)
        requires
            spec_all_sendable(old(self).operation, spec_nodes(old(self).node_infos@)),
            old(self).next <= old(self).node_infos@.len(),
        ensures
            final(self).operation == old(self).operation,
            final(self).app == old(self).app,
            final(self).answer_to == old(self).answer_to,
            final(self).node_infos == old(self).node_infos,
            final(self).next <= final(self).node_infos@.len(),
            old(self).next == old(self).node_infos@.len() ==> (r matches Ok(ChunkStep::Done)
                && *final(config) == *old(config) && final(self).next == old(self).next),
            old(self).next < old(self).node_infos@.len() ==> ({
                let (m, s, c) = spec_operate(
                    old(self).operation,
                    old(config)@,
                    old(self).app@,
                    old(self).spec_chunk(),
                    old(self).spec_is_init(),
                );
                &&& final(config)@ == m
                &&& final(config).spec_changes() == old(config).spec_changes() + c
                &&& match s {
                    Err(p) => (r matches Err(e) && spec_mismatch(e) == Some(p)),
                    Ok(list) => {
                        &&& final(self).next == old(self).next + old(self).spec_chunk().len()
                        &&& list.len() == 0 ==> (r matches Ok(ChunkStep::Skipped))
                        &&& list.len() > 0 ==> (r matches Ok(ChunkStep::Send(msg)) && spec_nodes(
                            final(self).pending@,
                        ) == list && spec_chunk_request(old(self).operation, list, msg.frame.user_data.app_data)
                            && msg.frame == Frame::spec_assembled(
                            CtrlField::spec_new(false),
                            UserData::spec_new(old(seq).spec_next(), None, msg.frame.user_data.app_data),
                        ) && match old(self).answer_to {
                            Some(p) => msg.req_info.mqtt_req_info matches Some(i) && i.topic@ == p.0@
                                && i.token@ == p.1@ && i.extra_data is None,
                            None => msg.req_info.mqtt_req_info is None,
                        })
                    },
                }
            }),
    {
        let len = self.node_infos.len();
        if self.next >= len {
            return Ok(ChunkStep::Done);
        }
        let start = self.next;
        let end = if len - start > ACQ_FILES_CHUNK_SIZE {
            start + ACQ_FILES_CHUNK_SIZE
        } else {
            len
        };
        let is_init = self.answer_to.is_none();
        let chunk = &self.node_infos.as_slice()[start..end];
        proof {
            assert(spec_nodes(chunk@) =~= self.spec_chunk());
        }
        let list = operate_node_infos(self.operation, config, self.app.as_str(), chunk, is_init)?;
        self.next = end;
        if list.len() == 0 {
            return Ok(ChunkStep::Skipped);
        }
        proof {
            let all = spec_nodes(self.node_infos@);
            assert forall|k: int| 0 <= k < spec_nodes(list@).len() implies spec_sendable(
                self.operation,
                #[trigger] spec_nodes(list@)[k],
            ) by {
                lemma_operate_keeps_sendable(
                    self.operation,
                    old(config)@,
                    self.app@,
                    spec_nodes(chunk@),
                    is_init,
                    k,
                );
                let j = choose|j: int| 0 <= j < spec_nodes(chunk@).len() && spec_nodes(chunk@)[j] == spec_nodes(list@)[k];
                assert(spec_nodes(chunk@)[j] == all[start + j]);
            }
            lemma_operate_len(self.operation, old(config)@, self.app@, spec_nodes(chunk@), is_init);
        }
        let app_data = create_uart_request(self.operation, list.as_slice());
        let info: Option<MqttReqInfo<T>> = match &self.answer_to {
            Some(p) => Some(MqttReqInfo { topic: owned(p.0.as_str()), token: owned(p.1.as_str()), extra_data: None }),
            None => None,
        };
        let msg = mqtt_info_request_uart_handler(app_data, info, seq);
        self.pending = list;
        Ok(ChunkStep::Send(msg))
    }

    /// The module's answer to the waiting group: an error stops the request;
    /// otherwise the group is recorded (except at start-up).
    pub fn chunk_done(&mut self, config: &mut NodeConfig, result: Result<(), Error>) -> (r: Result<(), Error>)
        requires
            !old(self).spec_is_init() && old(self).operation == AcqFilesOperation::Add ==> old(config).next_id
                + old(self).pending@.len() <= u64::MAX,
            !old(self).spec_is_init() && old(self).operation != AcqFilesOperation::Add
                ==> old(config)@.spec_can_remove_all(old(self).app@, spec_addrs(old(self).pending@)),
        ensures
            *final(self) == *old(self),
            result matches Err(e) ==> r == Err::<(), Error>(e) && *final(config) == *old(config),
            result is Ok && old(self).spec_is_init() ==> r is Ok && *final(config) == *old(config),
            result is Ok && !old(self).spec_is_init() && old(self).operation == AcqFilesOperation::Add ==> r is Ok
                && final(config)@ == old(config)@.spec_add_all_checked(old(self).app@, spec_nodes(old(self).pending@))
                && final(config).spec_changes() == old(config).spec_changes().push(
                (true, old(self).app@, spec_nodes(old(self).pending@)),
            ),
            result is Ok && !old(self).spec_is_init() && old(self).operation != AcqFilesOperation::Add ==> ({
                let (m, s) = old(config)@.spec_remove_all(old(self).app@, spec_addrs(old(self).pending@));
                &&& final(config)@ == m
                &&& s is Ok ==> r is Ok && final(config).spec_changes() == old(config).spec_changes().push(
                    (false, old(self).app@, spec_nodes(old(self).pending@)),
                )
                &&& s matches Err(x) ==> (r matches Err(Error::NodeConfig(crate::error::NodeConfigError::NotFound(a)))
                    && a@ == x)
            }),
    {
        result?;
        if self.answer_to.is_some() {
            update_node_config(self.operation, config, self.app.as_str(), self.pending.as_slice())
        } else {
            Ok(())
        }
    }
}

proof fn lemma_operate_len(op: AcqFilesOperation, m: ConfigModel, app: Seq<char>, nodes: Seq<NodeV>, is_init: bool)
    ensures
        spec_operate(op, m, app, nodes, is_init).1 matches Ok(list) ==> list.len() <= nodes.len(),
    decreases nodes.len(),
{
    if !(op == AcqFilesOperation::Add && is_init) && nodes.len() > 0 {
        lemma_operate_len(op, m, app, nodes.drop_last(), is_init);
    }
}

proof fn lemma_operate_keeps_sendable(
    op: AcqFilesOperation,
    m: ConfigModel,
    app: Seq<char>,
    nodes: Seq<NodeV>,
    is_init: bool,
    k: int,
)
    requires
        spec_operate(op, m, app, nodes, is_init).1 matches Ok(list) && 0 <= k < list.len(),
    ensures
        exists|j: int| 0 <= j < nodes.len() && nodes[j] == spec_operate(op, m, app, nodes, is_init).1->Ok_0[k],
    decreases nodes.len(),
{
    let list = spec_operate(op, m, app, nodes, is_init).1->Ok_0;
    if op == AcqFilesOperation::Add && is_init {
        assert(nodes[k] == list[k]);
    } else if nodes.len() > 0 {
        let prev = spec_operate(op, m, app, nodes.drop_last(), is_init).1->Ok_0;
        if k < prev.len() {
            lemma_operate_keeps_sendable(op, m, app, nodes.drop_last(), is_init, k);
            let j = choose|j: int| 0 <= j < nodes.drop_last().len() && nodes.drop_last()[j] == prev[k];
            assert(nodes[j] == list[k]);
        } else {
            assert(nodes[nodes.len() - 1] == list[k]);
        }
    }
}

/// The module's answer to a group of meters: the outer error is an answer that is
/// neither a confirmation nor a denial; the inner outcome is the group's.
pub fn uart_operate_acq_files<T, C>(message: UartMessage<T, C>) -> (r: Result<Result<(), Error>, Error>)
    ensures
        !spec_is_deny(message.frame) ==> {
            let a = message.frame.user_data.app_data;
            &&& r is Ok <==> a.spec_check(Afn::Answer, 1, 6) is Ok
            &&& r matches Err(e) ==> a.spec_check(Afn::Answer, 1, 6) == Err::<(), Error>(e)
            &&& r matches Ok(inner) ==> inner is Ok
        },
        spec_is_deny(message.frame) ==> match spec_deny(message.frame.user_data.app_data) {
            Ok(d) => r == Ok::<Result<(), Error>, Error>(Err(Error::Denied(d.error_code))),
            Err(e) => r == Err::<Result<(), Error>, Error>(e),
        },
{
    crate::service::parse_response::confirm_outcome(message)
}

/// The module's answer to clearing its archive: the registry forgets every
/// application's meters first; then as `uart_operate_acq_files`.
pub fn uart_clear_acq_files<T, C>(config: &mut NodeConfig, message: UartMessage<T, C>) -> (r: Result<Result<(), Error>, Error>)
    ensures
        final(config)@.apps.len() == 0,
        final(config)@.global.len() == 0,
        final(config)@.next_id == old(config)@.next_id,
        final(config).spec_changes() == old(config).spec_changes(),
        !spec_is_deny(message.frame) ==> {
            let a = message.frame.user_data.app_data;
            &&& r is Ok <==> a.spec_check(Afn::Answer, 1, 6) is Ok
            &&& r matches Err(e) ==> a.spec_check(Afn::Answer, 1, 6) == Err::<(), Error>(e)
            &&& r matches Ok(inner) ==> inner is Ok
        },
        spec_is_deny(message.frame) ==> match spec_deny(message.frame.user_data.app_data) {
            Ok(d) => r == Ok::<Result<(), Error>, Error>(Err(Error::Denied(d.error_code))),
            Err(e) => r == Err::<Result<(), Error>, Error>(e),
        },
{
    config.clear_all_app();
    uart_operate_acq_files(message)
}

/// The start-up request that clears the module's archive (parameter
/// initialisation), answered to no one.
pub fn init_clear_acq_files<T, C>(seq: &mut FrameSeq) -> (m: UartMessage<T, C>)
    ensures
        m.frame.user_data.app_data.spec_has(Afn::Init, 2, None),
        m.req_info.mqtt_req_info is None,
        m.req_info.seq_num == old(seq).spec_next(),
{
    let a = AppData::from(InitRequest::new(InitOperation::Params));
    mqtt_info_request_uart_handler(a, None, seq)
}

/// Where a query on an application's meters is answered from: the module (the
/// request to send), or the registry (the answer).
pub enum AcqFilesAnswer<T, C, V> {
    Module(UartMessage<T, C>),
    Local(V),
}

/// Whether a query asks the module (`query_cco` given and not zero).
pub open spec fn spec_query_cco(query_cco: Option<u8>) -> bool {
    query_cco matches Some(q) && q != 0
}

/// A query for a page of an application's meters (the application is the topic's
/// first segment): start and count are decimal texts; the module is asked for
/// the page, or the registry answers.
pub fn mqtt_get_acq_files<T, C>(
    config: &NodeConfig,
    message: &MqttMessage,
    start_index: &str,
    cur_meter_num: &str,
    query_cco: Option<u8>,
    seq: &mut FrameSeq,
) -> (r: Result<AcqFilesAnswer<T, C, Vec<NodeInfo>>, Error>)
    requires
        message.spec_answerable(),
    ensures
        match spec_parse_usize(start_index@) {
            Err(k) => r == Err::<AcqFilesAnswer<T, C, Vec<NodeInfo>>, Error>(Error::ParseInt(k)),
            Ok(start) => match spec_parse_usize(cur_meter_num@) {
                Err(k) => r == Err::<AcqFilesAnswer<T, C, Vec<NodeInfo>>, Error>(Error::ParseInt(k)),
                Ok(num) => if spec_query_cco(query_cco) {
                    &&& r matches Ok(AcqFilesAnswer::Module(m))
                    &&& m.frame.user_data.app_data.spec_has(
                        Afn::RouteGet,
                        2,
                        Some(crate::protocol::app_data::route_get::spec_paged(start as u16, num as u8)),
                    )
                    &&& m.req_info.mqtt_req_info matches Some(i)
                    &&& i.topic@ == crate::mqtt_topic::spec_transfer_text(message.topic@)
                    &&& Some(i.token@) == message.spec_token()
                    &&& m.req_info.seq_num == old(seq).spec_next()
                } else {
                    &&& r matches Ok(AcqFilesAnswer::Local(v))
                    &&& spec_nodes(v@) == config@.page(spec_split(message.topic@)[0], start as int, num as int)
                },
            },
        },
{
    let start = match parse_usize(start_index) {
        Ok(v) => v,
        Err(k) => return Err(Error::ParseInt(k)),
    };
    let num = match parse_usize(cur_meter_num) {
        Ok(v) => v,
        Err(k) => return Err(Error::ParseInt(k)),
    };
    let app = MqttTopic::get_app(message.topic.as_str());
    let ask = match query_cco {
        Some(q) => q != 0,
        None => false,
    };
    if ask {
        let a = AppData::from(QueryNodeInfoRequest::new(start as u16, num as u8));
        let m = mqtt_info_request_uart_handler(a, Some(message.to_mqtt_req_info()), seq);
        Ok(AcqFilesAnswer::Module(m))
    } else {
        Ok(AcqFilesAnswer::Local(config.get_node_infos(app.as_str(), start, num)))
    }
}

/// A query for the number of an application's meters: the module is asked, or
/// the registry answers with the number in decimal.
pub fn mqtt_get_acq_files_number<T, C>(
    config: &NodeConfig,
    message: &MqttMessage,
    query_cco: Option<u8>,
    seq: &mut FrameSeq,
) -> (r: AcqFilesAnswer<T, C, String>)
    requires
        message.spec_answerable(),
    ensures
        spec_query_cco(query_cco) ==> {
            &&& r matches AcqFilesAnswer::Module(m)
            &&& m.frame.user_data.app_data.spec_has(Afn::RouteGet, 1, None)
            &&& m.req_info.mqtt_req_info matches Some(i)
            &&& i.topic@ == crate::mqtt_topic::spec_transfer_text(message.topic@)
            &&& Some(i.token@) == message.spec_token()
            &&& m.req_info.seq_num == old(seq).spec_next()
        },
        !spec_query_cco(query_cco) ==> {
            &&& r matches AcqFilesAnswer::Local(s)
            &&& s@ == crate::text::spec_decimal(config@.entries_of(spec_split(message.topic@)[0]).len())
        },
{
    let app = MqttTopic::get_app(message.topic.as_str());
    let ask = match query_cco {
        Some(q) => q != 0,
        None => false,
    };
    if ask {
        let a = AppData::from(QueryNodeNumberRequest);
        let m = mqtt_info_request_uart_handler(a, Some(message.to_mqtt_req_info()), seq);
        AcqFilesAnswer::Module(m)
    } else {
        let n = config.get_node_count(app.as_str());
        let mut s = String::new();
        crate::text::push_decimal(&mut s, n as u64);
        AcqFilesAnswer::Local(s)
    }
}

/// A meter as the module's archive reports it in eight bytes: the address in
/// hexadecimal (most significant first) and the protocol type as two hexadecimal
/// digits.
pub open spec fn spec_node_from_wire(d: Seq<u8>) -> NodeV {
    (
        crate::text::spec_hex(d.subrange(0, 6).reverse(), false),
        crate::text::spec_hex(seq![(d[7] >> 3u8) & 0xfe], false),
    )
}

/// The module's answer to a page query: its meters, or its denial.
pub fn uart_get_acq_files<T, C>(message: UartMessage<T, C>) -> (r: Result<UartResponse<Vec<NodeInfo>>, Error>)
    ensures
        spec_is_deny(message.frame) ==> match spec_deny(message.frame.user_data.app_data) {
            Ok(d) => r == Ok::<_, Error>(UartResponse::<Vec<NodeInfo>>::Deny(d)),
            Err(e) => r == Err::<UartResponse<Vec<NodeInfo>>, Error>(e),
        },
        !spec_is_deny(message.frame) ==> {
            let a = message.frame.user_data.app_data;
            let u = a.spec_units();
            let pre = match a.spec_check_min(3) {
                Err(e) => Err(e),
                Ok(_) => a.spec_check(Afn::RouteGet, 2, (u[2] * 8 + 3) as usize),
            };
            &&& r is Ok <==> pre is Ok
            &&& r matches Err(e) ==> pre == Err::<(), Error>(e)
            &&& r matches Ok(resp) ==> resp matches UartResponse::Normal(v) && v@.len() == u[2] && forall|i: int|
                0 <= i < u[2] ==> #[trigger] spec_nodes(v@)[i] == spec_node_from_wire(
                    u.subrange(3 + 8 * i, 11 + 8 * i),
                )
        },
{
    match UartResponse::from_frame(message.frame)? {
        UartResponse::Normal(a) => {
            let ghost u = a.spec_units();
            let q = QueryNodeInfoResponse::try_from(a)?;
            let details = q.into_node_infos();
            let mut v: Vec<NodeInfo> = Vec::new();
            let mut i: usize = 0;
            while i < details.len()
                invariant
                    i <= details@.len(),
                    v@.len() == i,
                    details@.len() == u[2],
                    u.len() == u[2] * 8 + 3,
                    forall|j: int|
                        0 <= j < u[2] ==> (#[trigger] details@[j]).spec_decoded_from(
                            u.subrange(3 + 8 * j, 11 + 8 * j),
                        ),
                    forall|j: int|
                        0 <= j < i ==> #[trigger] spec_nodes(v@)[j] == spec_node_from_wire(
                            u.subrange(3 + 8 * j, 11 + 8 * j),
                        ),
                decreases details@.len() - i,
            {
                let d = details[i];
                let n = NodeInfo::from_node_detail(d);
                proof {
                    let w = u.subrange(3 + 8 * i, 11 + 8 * i);
                    assert(d.spec_decoded_from(w));
                    assert(d.src_addr.0@ =~= w.subrange(0, 6).reverse());
                    assert(n@ == spec_node_from_wire(w));
                }
                let ghost before = spec_nodes(v@);
                v.push(n);
                assert(spec_nodes(v@) =~= before.push(n@));
                i = i + 1;
            }
            Ok(UartResponse::Normal(v))
        },
        UartResponse::Deny(d) => Ok(UartResponse::Deny(d)),
    }
}

/// The module's answer to a count query: the number in decimal, or its denial.
pub fn uart_get_acq_files_number<T, C>(message: UartMessage<T, C>) -> (r: Result<UartResponse<String>, Error>)
    ensures
        spec_is_deny(message.frame) ==> match spec_deny(message.frame.user_data.app_data) {
            Ok(d) => r == Ok::<_, Error>(UartResponse::<String>::Deny(d)),
            Err(e) => r == Err::<UartResponse<String>, Error>(e),
        },
        !spec_is_deny(message.frame) ==> {
            let a = message.frame.user_data.app_data;
            let u = a.spec_units();
            &&& r is Ok <==> a.spec_check(Afn::RouteGet, 1, 4) is Ok
            &&& r matches Err(e) ==> a.spec_check(Afn::RouteGet, 1, 4) == Err::<(), Error>(e)
            &&& r matches Ok(resp) ==> resp matches UartResponse::Normal(s) && s@ == crate::text::spec_decimal(
                crate::bytes::le16(u[0], u[1]) as nat,
            )
        },
{
    match UartResponse::from_frame(message.frame)? {
        UartResponse::Normal(a) => {
            let q = QueryNodeNumberResponse::try_from(a)?;
            let mut s = String::new();
            crate::text::push_decimal(&mut s, q.node_number as u64);
            Ok(UartResponse::Normal(s))
        },
        UartResponse::Deny(d) => Ok(UartResponse::Deny(d)),
    }
}

/// The meters of a list without repeats, first occurrences kept in order.
pub open spec fn spec_dedup(s: Seq<NodeV>) -> Seq<NodeV>
    decreases s.len(),
{
    if s.len() == 0 {
        Seq::empty()
    } else {
        let d = spec_dedup(s.drop_last());
        if d.contains(s.last()) {
            d
        } else {
            d.push(s.last())
        }
    }
}

/// The persisted meters of the applications, one after the other.
pub open spec fn spec_flatten(apps: Seq<(Seq<char>, Seq<NodeV>)>) -> Seq<NodeV>
    decreases apps.len(),
{
    if apps.len() == 0 {
        Seq::empty()
    } else {
        spec_flatten(apps.drop_last()) + apps.last().1
    }
}

/// Loading the persisted meters into the registry, application after
/// application, up to the first refusal.
pub open spec fn spec_load(m: ConfigModel, apps: Seq<(Seq<char>, Seq<NodeV>)>) -> (
    ConfigModel,
    Result<(), (Seq<char>, Seq<char>)>,
)
    decreases apps.len(),
{
    if apps.len() == 0 {
        (m, Ok(()))
    } else {
        let (m1, r1) = spec_load(m, apps.drop_last());
        match r1 {
            Err(e) => (m1, Err(e)),
            Ok(_) => m1.spec_add_all_init(apps.last().0, apps.last().1),
        }
    }
}

/// The persisted applications and meters as values.
pub open spec fn spec_apps(apps: Seq<(String, Vec<NodeInfo>)>) -> Seq<(Seq<char>, Seq<NodeV>)> {
    apps.map_values(|a: (String, Vec<NodeInfo>)| (a.0@, spec_nodes(a.1@)))
}

/// Loads the persisted meters into the registry (see `spec_load`) and gives the
/// meters to send to the module at start-up, without repeats.
pub fn load_config(config: &mut NodeConfig, apps: &Vec<(String, Vec<NodeInfo>)>) -> (r: Result<Vec<NodeInfo>, Error>)
    requires
        old(config).next_id + spec_flatten(spec_apps(apps@)).len() <= u64::MAX,
    ensures
        ({
            let (m, s) = spec_load(old(config)@, spec_apps(apps@));
            &&& final(config)@ == m
            &&& final(config).spec_changes() == old(config).spec_changes()
            &&& match s {
                Ok(_) => r matches Ok(v) && spec_nodes(v@) == spec_dedup(spec_flatten(spec_apps(apps@))),
                Err(p) => r matches Err(e) && spec_mismatch(e) == Some(p),
            }
        }),
{
    let ghost all = spec_apps(apps@);
    let mut i: usize = 0;
    assert(all.take(0) =~= Seq::<(Seq<char>, Seq<NodeV>)>::empty());
    while i < apps.len()
        invariant
            i <= apps@.len(),
            all == spec_apps(apps@),
            old(config).next_id + spec_flatten(all).len() <= u64::MAX,
            config@.next_id <= old(config)@.next_id + spec_flatten(all.take(i as int)).len(),
            spec_load(old(config)@, all.take(i as int)) == (config@, Ok::<(), (Seq<char>, Seq<char>)>(())),
            config.spec_changes() == old(config).spec_changes(),
        decreases apps@.len() - i,
    {
        proof {
            assert(all.take(i + 1).drop_last() =~= all.take(i as int));
            assert(all.take(i + 1).last() == all[i as int]);
            lemma_flatten_prefix(all, i as int + 1);
            assert(spec_flatten(all.take(i + 1)) == spec_flatten(all.take(i as int)) + all[i as int].1);
        }
        let entry = &apps[i];
        let ghost pre = config@;
        assert(spec_nodes(entry.1@) == all[i as int].1);
        let r = config.add_node_infos(entry.0.as_str(), entry.1.as_slice());
        match r {
            Err(e) => {
                proof {
                    lemma_load_err_extends(old(config)@, all, i as int + 1);
                }
                return Err(e);
            },
            Ok(()) => {},
        }
        proof {
            lemma_add_all_init_next_id(pre, all[i as int].0, all[i as int].1);
        }
        i = i + 1;
    }
    assert(all.take(apps@.len() as int) =~= all);
    let mut out: Vec<NodeInfo> = Vec::new();
    let ghost flat = spec_flatten(all);
    let mut k: usize = 0;
    assert(all.take(0) =~= Seq::<(Seq<char>, Seq<NodeV>)>::empty());
    while k < apps.len()
        invariant
            k <= apps@.len(),
            all == spec_apps(apps@),
            spec_nodes(out@) == spec_dedup(spec_flatten(all.take(k as int))),
        decreases apps@.len() - k,
    {
        let nodes = &apps[k].1;
        let ghost before = spec_flatten(all.take(k as int));
        let mut j: usize = 0;
        assert(nodes@.take(0) =~= Seq::<NodeInfo>::empty());
        assert(before + spec_nodes(nodes@.take(0)) =~= before);
        while j < nodes.len()
            invariant
                j <= nodes@.len(),
                spec_nodes(out@) == spec_dedup(before + spec_nodes(nodes@.take(j as int))),
            decreases nodes@.len() - j,
        {
            let ghost cur = before + spec_nodes(nodes@.take(j as int));
            let ghost next = before + spec_nodes(nodes@.take(j + 1));
            assert(next.drop_last() =~= cur);
            assert(next.last() == nodes@[j as int]@);
            if !contains_node(&out, &nodes[j]) {
                let ghost o = spec_nodes(out@);
                out.push(nodes[j].copy());
                assert(spec_nodes(out@) =~= o.push(nodes@[j as int]@));
            }
            j = j + 1;
        }
        proof {
            assert(nodes@.take(nodes@.len() as int) =~= nodes@);
            assert(all.take(k + 1).drop_last() =~= all.take(k as int));
            assert(all.take(k + 1).last() == all[k as int]);
        }
        k = k + 1;
    }
    assert(all.take(apps@.len() as int) =~= all);
    Ok(out)
}

fn contains_node(list: &Vec<NodeInfo>, node: &NodeInfo) -> (b: bool)
    ensures
        b == spec_nodes(list@).contains(node@),
{
    let mut i: usize = 0;
    while i < list.len()
        invariant
            i <= list@.len(),
            forall|j: int| 0 <= j < i ==> spec_nodes(list@)[j] != node@,
        decreases list@.len() - i,
    {
        if crate::text::str_eq(list[i].acq_addr.as_str(), node.acq_addr.as_str()) && crate::text::str_eq(
            list[i].pro_type.as_str(),
            node.pro_type.as_str(),
        ) {
            assert(spec_nodes(list@)[i as int] == node@);
            return true;
        }
        i = i + 1;
    }
    false
}

proof fn lemma_flatten_prefix(apps: Seq<(Seq<char>, Seq<NodeV>)>, k: int)
    requires
        0 <= k <= apps.len(),
    ensures
        spec_flatten(apps.take(k)).len() <= spec_flatten(apps).len(),
    decreases apps.len() - k,
{
    if k < apps.len() {
        assert(apps.take(k + 1).drop_last() =~= apps.take(k));
        lemma_flatten_prefix(apps, k + 1);
    } else {
        assert(apps.take(k) =~= apps);
    }
}

proof fn lemma_load_err_extends(m: ConfigModel, apps: Seq<(Seq<char>, Seq<NodeV>)>, k: int)
    requires
        0 < k <= apps.len(),
        spec_load(m, apps.take(k)).1 is Err,
    ensures
        spec_load(m, apps) == spec_load(m, apps.take(k)),
    decreases apps.len() - k,
{
    if k < apps.len() {
        assert(apps.take(k + 1).drop_last() =~= apps.take(k));
        lemma_load_err_extends(m, apps, k + 1);
    } else {
        assert(apps.take(k) =~= apps);
    }
}

proof fn lemma_add_all_init_next_id(m: ConfigModel, app: Seq<char>, nodes: Seq<NodeV>)
    ensures
        m.spec_add_all_init(app, nodes).0.next_id <= m.next_id + nodes.len(),
    decreases nodes.len(),
{
    if nodes.len() > 0 {
        lemma_add_all_init_next_id(m, app, nodes.drop_last());
    }
}

} // verus!
