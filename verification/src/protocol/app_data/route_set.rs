//! AFN 11H: route settings (node archive, node registration).
use vstd::prelude::*;

use crate::bytes::{le16_bytes, push_le16};
use crate::protocol::app_data::route_data_read::{bcd_time, spec_bcd_time, DateTime};
use crate::protocol::app_data::{Address, Afn, AppData};
use crate::protocol::user_data::{push_addresses, spec_addresses_wire};

verus! {

/// Function numbers of AFN 11H.
#[derive(Debug, Clone, Copy, PartialEq, Eq)]
pub enum RouteSet {
    AddNode,
    DelNode,
    ActiveNodeRegister,
    StopNodeRegister,
}

impl RouteSet {
    pub open spec fn spec_code(self) -> u8 {
        match self {
            RouteSet::AddNode => 1,
            RouteSet::DelNode => 2,
            RouteSet::ActiveNodeRegister => 5,
            RouteSet::StopNodeRegister => 6,
        }
    }

    pub fn code(self) -> (b: u8)
        ensures
            b == self.spec_code(),
    {
        match self {
            RouteSet::AddNode => 1,
            RouteSet::DelNode => 2,
            RouteSet::ActiveNodeRegister => 5,
            RouteSet::StopNodeRegister => 6,
        }
    }
}

/// A node of the archive: its address and protocol type.
#[derive(Debug, Clone, Copy, PartialEq, Eq)]
pub struct NodeInfo {
    pub src_addr: Address,
    pub protocol_type: u8,
}

impl NodeInfo {
    pub fn new(src_addr: Address, protocol_type: u8) -> (r: Self)
        ensures
            r == (NodeInfo { src_addr, protocol_type }),
    {
        Self { src_addr, protocol_type }
    }
}

/// Seven bytes per node: address (wire order) and protocol type.
pub open spec fn spec_node_infos_wire(nodes: Seq<NodeInfo>) -> Seq<u8>
    decreases nodes.len(),
{
    if nodes.len() == 0 {
        Seq::empty()
    } else {
        spec_node_infos_wire(nodes.drop_last()) + nodes.last().src_addr.wire() + seq![
            nodes.last().protocol_type,
        ]
    }
}

/// Adds nodes to the archive.
#[derive(Debug, Clone, PartialEq, Eq)]
pub struct AddNodeRequest {
    pub node_infos: Vec<NodeInfo>,
}

impl AddNodeRequest {
    pub fn new(node_infos: Vec<NodeInfo>) -> (r: Self)
        ensures
            r.node_infos@ == node_infos@,
    {
        Self { node_infos }
    }
}

impl From<AddNodeRequest> for AppData {
    /// Node count (one byte), then each node.
    fn from(request: AddNodeRequest) -> (a: AppData)
        ensures
            a.spec_has(
                Afn::RouteSet,
                1,
                Some(seq![request.node_infos@.len() as u8] + spec_node_infos_wire(request.node_infos@)),
            ),
    {
        let mut data = Vec::new();
        data.push(request.node_infos.len() as u8);
        let nodes = &request.node_infos;
        let mut i: usize = 0;
        while i < nodes.len()
            invariant
                i <= nodes@.len(),
                data@ == seq![nodes@.len() as u8] + spec_node_infos_wire(nodes@.take(i as int)),
            decreases nodes.len() - i,
        {
            nodes[i].src_addr.push_wire(&mut data);
            data.push(nodes[i].protocol_type);
            proof {
                assert(nodes@.take(i + 1).drop_last() =~= nodes@.take(i as int));
            }
            assert(data@ =~= seq![nodes@.len() as u8] + spec_node_infos_wire(nodes@.take(i + 1)));
            i = i + 1;
        }
        assert(nodes@.take(i as int) =~= nodes@);
        AppData::with_units(Afn::RouteSet, RouteSet::AddNode.code(), data)
    }
}

impl vstd::std_specs::convert::FromSpecImpl<AddNodeRequest> for AppData {
    open spec fn obeys_from_spec() -> bool {
        false
    }

    open spec fn from_spec(request: AddNodeRequest) -> AppData {
        arbitrary()
    }
}

/// Removes nodes from the archive.
#[derive(Debug, Clone, PartialEq, Eq)]
pub struct DelNodeRequest {
    pub node_addrs: Vec<Address>,
}

impl DelNodeRequest {
    pub fn new(node_addrs: Vec<Address>) -> (r: Self)
        ensures
            r.node_addrs@ == node_addrs@,
    {
        Self { node_addrs }
    }
}

impl From<DelNodeRequest> for AppData {
    /// Node count (one byte), then each address.
    fn from(request: DelNodeRequest) -> (a: AppData)
        ensures
            a.spec_has(
                Afn::RouteSet,
                2,
                Some(seq![request.node_addrs@.len() as u8] + spec_addresses_wire(request.node_addrs@)),
            ),
    {
        let mut data = Vec::new();
        data.push(request.node_addrs.len() as u8);
        push_addresses(&mut data, &request.node_addrs);
        AppData::with_units(Afn::RouteSet, RouteSet::DelNode.code(), data)
    }
}

impl vstd::std_specs::convert::FromSpecImpl<DelNodeRequest> for AppData {
    open spec fn obeys_from_spec() -> bool {
        false
    }

    open spec fn from_spec(request: DelNodeRequest) -> AppData {
        arbitrary()
    }
}

/// Starts node registration (meter search) at a time, for a duration.
#[derive(Debug, Clone, Copy, PartialEq, Eq)]
pub struct ActiveNodeRegisterRequest {
    pub start_time: DateTime,
    pub duration: u16,
    pub retry_count: u8,
    pub random_wait_count: u8,
}

impl ActiveNodeRegisterRequest {
    pub fn new(start_time: DateTime, duration: u16, retry_count: u8, random_wait_count: u8) -> (r: Self)
        ensures
            r == (ActiveNodeRegisterRequest { start_time, duration, retry_count, random_wait_count }),
    {
        Self { start_time, duration, retry_count, random_wait_count }
    }
}

impl From<ActiveNodeRegisterRequest> for AppData {
    /// Start time (six BCD bytes), duration (two bytes), retries, random wait slices.
    fn from(request: ActiveNodeRegisterRequest) -> (a: AppData)
        ensures
            a.spec_has(
                Afn::RouteSet,
                5,
                Some(spec_bcd_time(request.start_time) + le16_bytes(request.duration) + seq![
                    request.retry_count,
                    request.random_wait_count,
                ]),
            ),
    {
        let mut data = bcd_time(&request.start_time);
        push_le16(&mut data, request.duration);
        data.push(request.retry_count);
        data.push(request.random_wait_count);
        assert(data@ =~= spec_bcd_time(request.start_time) + le16_bytes(request.duration) + seq![
            request.retry_count,
            request.random_wait_count,
        ]);
        AppData::with_units(Afn::RouteSet, RouteSet::ActiveNodeRegister.code(), data)
    }
}

impl vstd::std_specs::convert::FromSpecImpl<ActiveNodeRegisterRequest> for AppData {
    open spec fn obeys_from_spec() -> bool {
        false
    }

    open spec fn from_spec(request: ActiveNodeRegisterRequest) -> AppData {
        arbitrary()
    }
}

#[derive(Debug, Clone, Copy, Default, PartialEq, Eq)]
pub struct StopNodeRegisterRequest;

impl From<StopNodeRegisterRequest> for AppData {
    fn from(v: StopNodeRegisterRequest) -> (a: AppData)
        ensures
            a.spec_has(Afn::RouteSet, 6, None),
    {
        AppData::without_units(Afn::RouteSet, RouteSet::StopNodeRegister.code())
    }
}

impl vstd::std_specs::convert::FromSpecImpl<StopNodeRegisterRequest> for AppData {
    open spec fn obeys_from_spec() -> bool {
        false
    }

    open spec fn from_spec(v: StopNodeRegisterRequest) -> AppData {
        arbitrary()
    }
}

} // verus!
