//! AFN 10H: route queries (nodes, network, chips, identifiers).
use vstd::prelude::*;

use crate::bytes::{le16, le16_bytes, le32, push_le16, u16_from_le, u32_from_le};
use crate::error::{Error, ValueKind};
use crate::protocol::app_data::query_data::spec_bcd_date;
use crate::protocol::app_data::{
    address_at, date_transfer, slice_to_bcd_string, Address, AppDataError, Afn, AppData, Date,
    ModuleIdFormat,
};
use crate::text::{code_string, push_hex, spec_code_bytes, spec_code_valid, spec_hex};

verus! {

/// Function numbers of AFN 10H.
#[derive(Debug, Clone, Copy, PartialEq, Eq)]
pub enum RouteQuery {
    NodeNumber,
    NodeInfo,
    RunningStatus,
    SlaveModuleId,
    NetworkSize,
    NetTopology,
    NodeLineInfo,
    IdInfo,
    NetworkNodeInfo,
    MultipleNet,
    ChipInfo,
}

impl RouteQuery {
    pub open spec fn spec_code(self) -> u8 {
        match self {
            RouteQuery::NodeNumber => 1,
            RouteQuery::NodeInfo => 2,
            RouteQuery::RunningStatus => 4,
            RouteQuery::SlaveModuleId => 7,
            RouteQuery::NetworkSize => 9,
            RouteQuery::NetTopology => 21,
            RouteQuery::NodeLineInfo => 31,
            RouteQuery::IdInfo => 40,
            RouteQuery::NetworkNodeInfo => 104,
            RouteQuery::MultipleNet => 111,
            RouteQuery::ChipInfo => 112,
        }
    }

    pub fn code(self) -> (b: u8)
        ensures
            b == self.spec_code(),
    {
        match self {
            RouteQuery::NodeNumber => 1,
            RouteQuery::NodeInfo => 2,
            RouteQuery::RunningStatus => 4,
            RouteQuery::SlaveModuleId => 7,
            RouteQuery::NetworkSize => 9,
            RouteQuery::NetTopology => 21,
            RouteQuery::NodeLineInfo => 31,
            RouteQuery::IdInfo => 40,
            RouteQuery::NetworkNodeInfo => 104,
            RouteQuery::MultipleNet => 111,
            RouteQuery::ChipInfo => 112,
        }
    }
}

/// Data units of a paged query: first index (two bytes) and count.
pub open spec fn spec_paged(start: u16, count: u8) -> Seq<u8> {
    le16_bytes(start) + seq![count]
}

/// Application data of a paged route query.
fn paged_query(fn_num: u8, start: u16, count: u8) -> (a: AppData)
    requires
        fn_num >= 1,
    ensures
        a.spec_has(Afn::RouteGet, fn_num, Some(spec_paged(start, count))),
{
    let mut data = Vec::new();
    push_le16(&mut data, start);
    data.push(count);
    assert(data@ =~= spec_paged(start, count));
    AppData::with_units(Afn::RouteGet, fn_num, data)
}

/// Asks for version information of network nodes, a page at a time.
#[derive(Debug, Clone, Copy, PartialEq, Eq)]
pub struct NetworkNodeInfoRequest {
    pub start_index: u16,
    pub node_number: u8,
}

impl NetworkNodeInfoRequest {
    pub fn new(start_index: u16, node_number: u8) -> (r: Self)
        ensures
            r == (NetworkNodeInfoRequest { start_index, node_number }),
    {
        Self { start_index, node_number }
    }
}

impl From<NetworkNodeInfoRequest> for AppData {
    fn from(req: NetworkNodeInfoRequest) -> (a: AppData)
        ensures
            a.spec_has(Afn::RouteGet, 104, Some(spec_paged(req.start_index, req.node_number))),
    {
        paged_query(RouteQuery::NetworkNodeInfo.code(), req.start_index, req.node_number)
    }
}

impl vstd::std_specs::convert::FromSpecImpl<NetworkNodeInfoRequest> for AppData {
    open spec fn obeys_from_spec() -> bool {
        false
    }

    open spec fn from_spec(req: NetworkNodeInfoRequest) -> AppData {
        arbitrary()
    }
}

/// Version information of a node.
#[derive(Debug, Clone, PartialEq, Eq)]
pub struct NodeVersionInfo {
    pub address: Address,
    pub version: String,
    pub version_date: Date,
    pub factory_code: String,
    pub chip_code: String,
}

pub const NODE_VERSION_INFO_SIZE: usize = 15;

impl NodeVersionInfo {
    pub open spec fn spec_decoded_from(self, d: Seq<u8>) -> bool {
        &&& self.address.wire() == d.subrange(0, 6)
        &&& self.version@ == spec_hex(d.subrange(6, 8).reverse(), false)
        &&& self.version_date == spec_bcd_date(d[10], d[9], d[8])
        &&& self.factory_code@ == vstd::utf8::decode_utf8(spec_code_bytes(d[11], d[12]))
        &&& self.chip_code@ == vstd::utf8::decode_utf8(spec_code_bytes(d[13], d[14]))
    }

    /// Whether the factory and chip codes of fifteen bytes are text.
    pub open spec fn spec_readable(d: Seq<u8>) -> bool {
        spec_code_valid(d[11], d[12]) && spec_code_valid(d[13], d[14])
    }

    /// Reads a node's version information from fifteen bytes at `at`.
    pub fn from_bytes(data: &[u8], at: usize) -> (r: Self)
        requires
            at + 15 <= data@.len(),
            Self::spec_readable(data@.subrange(at as int, at + 15)),
        ensures
            r.spec_decoded_from(data@.subrange(at as int, at + 15)),
    {
        let n = data.len();
        assert(at + 14 < n);
        let ghost d = data@.subrange(at as int, at + 15);
        assert(d.subrange(0, 6) =~= data@.subrange(at as int, at + 6));
        assert(d.subrange(6, 8) =~= data@.subrange(at + 6, at + 8));
        Self {
            address: address_at(data, at),
            version: slice_to_bcd_string(&data[at + 6..at + 8]),
            version_date: date_transfer(data[at + 10], data[at + 9], data[at + 8]),
            factory_code: code_string(data[at + 11], data[at + 12]),
            chip_code: code_string(data[at + 13], data[at + 14]),
        }
    }
}

/// A page of node version information.
#[derive(Debug, Clone, PartialEq, Eq)]
pub struct NetworkNodeInfoResponse {
    pub total_node_number: u16,
    pub _node_number: u8,
    pub node_version_infos: Vec<NodeVersionInfo>,
}

/// The outcome of checking a page of node version information.
pub open spec fn spec_network_node_info_check(app_data: AppData) -> Result<(), Error> {
    let u = app_data.spec_units();
    match app_data.spec_check_min(3) {
        Err(e) => Err(e),
        Ok(_) => app_data.spec_check(Afn::RouteGet, 104, (u[2] * 15 + 3) as usize),
    }
}

impl NetworkNodeInfoResponse {
    /// Decodes a page; every factory and chip code must be text.
    pub fn from_app_data(app_data: AppData) -> (r: Result<Self, Error>)
        requires
            spec_network_node_info_check(app_data) is Ok ==> forall|i: int|
                0 <= i < app_data.spec_units()[2] ==> #[trigger] NodeVersionInfo::spec_readable(
                    app_data.spec_units().subrange(3 + 15 * i, 18 + 15 * i),
                ),
        ensures
            r is Ok <==> spec_network_node_info_check(app_data) is Ok,
            r matches Err(e) ==> spec_network_node_info_check(app_data) == Err::<(), Error>(e),
            r matches Ok(n) ==> {
                let u = app_data.spec_units();
                &&& n.total_node_number == le16(u[0], u[1])
                &&& n._node_number == u[2]
                &&& n.node_version_infos@.len() == u[2]
                &&& forall|i: int|
                    0 <= i < u[2] ==> (#[trigger] n.node_version_infos@[i]).spec_decoded_from(
                        u.subrange(3 + 15 * i, 18 + 15 * i),
                    )
            },
    {
        app_data.check_min(3)?;
        let u = app_data.units_ref();
        let node_number = u[2];
        app_data.check(
            Afn::RouteGet,
            RouteQuery::NetworkNodeInfo.code(),
            node_number as usize * NODE_VERSION_INFO_SIZE + 3,
        )?;
        let mut infos: Vec<NodeVersionInfo> = Vec::new();
        let mut i: usize = 0;
        while i < node_number as usize
            invariant
                u@ == app_data.spec_units(),
                u@.len() == 3 + node_number * 15,
                node_number == u@[2],
                i <= node_number,
                infos@.len() == i,
                forall|j: int|
                    0 <= j < node_number ==> #[trigger] NodeVersionInfo::spec_readable(
                        u@.subrange(3 + 15 * j, 18 + 15 * j),
                    ),
                forall|j: int|
                    0 <= j < i ==> (#[trigger] infos@[j]).spec_decoded_from(
                        u@.subrange(3 + 15 * j, 18 + 15 * j),
                    ),
            decreases node_number - i,
        {
            proof {
                assert(NodeVersionInfo::spec_readable(u@.subrange(3 + 15 * i, 18 + 15 * i)));
            }
            infos.push(NodeVersionInfo::from_bytes(u.as_slice(), 3 + NODE_VERSION_INFO_SIZE * i));
            i = i + 1;
        }
        Ok(Self {
            total_node_number: u16_from_le(u[0], u[1]),
            _node_number: node_number,
            node_version_infos: infos,
        })
    }
}

#[derive(Debug, Clone, Copy, Default, PartialEq, Eq)]
pub struct QueryNodeNumberRequest;

impl From<QueryNodeNumberRequest> for AppData {
    fn from(v: QueryNodeNumberRequest) -> (a: AppData)
        ensures
            a.spec_has(Afn::RouteGet, 1, None),
    {
        AppData::without_units(Afn::RouteGet, RouteQuery::NodeNumber.code())
    }
}

impl vstd::std_specs::convert::FromSpecImpl<QueryNodeNumberRequest> for AppData {
    open spec fn obeys_from_spec() -> bool {
        false
    }

    open spec fn from_spec(v: QueryNodeNumberRequest) -> AppData {
        arbitrary()
    }
}

/// Number of nodes in the archive and its capacity.
#[derive(Debug, Clone, Copy, PartialEq, Eq)]
pub struct QueryNodeNumberResponse {
    pub node_number: u16,
    pub max_node_number: u16,
}

impl TryFrom<AppData> for QueryNodeNumberResponse {
    type Error = Error;

    fn try_from(app_data: AppData) -> (r: Result<Self, Error>)
        ensures
            r is Ok <==> app_data.spec_check(Afn::RouteGet, 1, 4) is Ok,
            r matches Err(e) ==> app_data.spec_check(Afn::RouteGet, 1, 4) == Err::<(), Error>(e),
            r matches Ok(q) ==> {
                let u = app_data.spec_units();
                q.node_number == le16(u[0], u[1]) && q.max_node_number == le16(u[2], u[3])
            },
    {
        app_data.check(Afn::RouteGet, RouteQuery::NodeNumber.code(), 4)?;
        let u = app_data.units_ref();
        Ok(Self { node_number: u16_from_le(u[0], u[1]), max_node_number: u16_from_le(u[2], u[3]) })
    }
}

impl vstd::std_specs::convert::TryFromSpecImpl<AppData> for QueryNodeNumberResponse {
    open spec fn obeys_try_from_spec() -> bool {
        true
    }

    open spec fn try_from_spec(app_data: AppData) -> Result<Self, Error> {
        match app_data.spec_check(Afn::RouteGet, 1, 4) {
            Err(e) => Err(e),
            Ok(()) => {
                let u = app_data.spec_units();
                Ok(QueryNodeNumberResponse { node_number: le16(u[0], u[1]), max_node_number: le16(u[2], u[3]) })
            },
        }
    }
}

/// Asks for archived nodes, a page at a time.
#[derive(Debug, Clone, Copy, PartialEq, Eq)]
pub struct QueryNodeInfoRequest {
    pub start_seq: u16,
    pub node_number: u8,
}

impl QueryNodeInfoRequest {
    pub fn new(start_seq: u16, node_number: u8) -> (r: Self)
        ensures
            r == (QueryNodeInfoRequest { start_seq, node_number }),
    {
        Self { start_seq, node_number }
    }
}

impl From<QueryNodeInfoRequest> for AppData {
    fn from(req: QueryNodeInfoRequest) -> (a: AppData)
        ensures
            a.spec_has(Afn::RouteGet, 2, Some(spec_paged(req.start_seq, req.node_number))),
    {
        paged_query(RouteQuery::NodeInfo.code(), req.start_seq, req.node_number)
    }
}

impl vstd::std_specs::convert::FromSpecImpl<QueryNodeInfoRequest> for AppData {
    open spec fn obeys_from_spec() -> bool {
        false
    }

    open spec fn from_spec(req: QueryNodeInfoRequest) -> AppData {
        arbitrary()
    }
}

pub const NODE_INFO_SIZE: usize = 8;

/// An archived node: address, signal quality, relay level, protocol, phase.
#[derive(Debug, Clone, Copy, PartialEq, Eq)]
pub struct NodeDetail {
    pub src_addr: Address,
    pub listen_signal_quality: u8,
    pub relay_level: u8,
    pub comm_protocol_type: u8,
    pub phase: u8,
}

impl NodeDetail {
    pub open spec fn spec_decoded_from(self, d: Seq<u8>) -> bool {
        &&& self.src_addr.wire() == d.subrange(0, 6)
        &&& self.listen_signal_quality == d[6] >> 4u8
        &&& self.relay_level == d[6] & 0x0F
        &&& self.comm_protocol_type == (d[7] >> 3u8) & 0xfe
        &&& self.phase == d[7] & 0x07
    }

    /// Reads a node from eight bytes at `at`.
    pub fn from_bytes(data: &[u8], at: usize) -> (r: Self)
        requires
            at + 8 <= data@.len(),
        ensures
            r.spec_decoded_from(data@.subrange(at as int, at + 8)),
    {
        let n = data.len();
        assert(at + 7 < n);
        assert(data@.subrange(at as int, at + 8).subrange(0, 6) =~= data@.subrange(at as int, at + 6));
        Self {
            src_addr: address_at(data, at),
            listen_signal_quality: data[at + 6] >> 4,
            relay_level: data[at + 6] & 0x0F,
            comm_protocol_type: (data[at + 7] >> 3) & 0xfe,
            phase: data[at + 7] & 0x07,
        }
    }
}

pub const NODE_NUMBER_SIZE: usize = 3;

/// A page of archived nodes.
#[derive(Debug, Clone, PartialEq, Eq)]
pub struct QueryNodeInfoResponse {
    pub total_node_number: u16,
    pub node_number: u8,
    pub node_infos: Vec<NodeDetail>,
}

impl QueryNodeInfoResponse {
    pub fn into_node_infos(self) -> (v: Vec<NodeDetail>)
        ensures
            v@ == self.node_infos@,
    {
        self.node_infos
    }
}

impl TryFrom<AppData> for QueryNodeInfoResponse {
    type Error = Error;

    fn try_from(app_data: AppData) -> (r: Result<Self, Error>)
        ensures
            ({
                let u = app_data.spec_units();
                let pre = match app_data.spec_check_min(3) {
                    Err(e) => Err(e),
                    Ok(_) => app_data.spec_check(Afn::RouteGet, 2, (u[2] * 8 + 3) as usize),
                };
                &&& r is Ok <==> pre is Ok
                &&& r matches Err(e) ==> pre == Err::<(), Error>(e)
                &&& r matches Ok(q) ==> {
                    &&& q.total_node_number == le16(u[0], u[1])
                    &&& q.node_number == u[2]
                    &&& q.node_infos@.len() == u[2]
                    &&& forall|i: int|
                        0 <= i < u[2] ==> (#[trigger] q.node_infos@[i]).spec_decoded_from(
                            u.subrange(3 + 8 * i, 11 + 8 * i),
                        )
                }
            }),
    {
        app_data.check_min(NODE_NUMBER_SIZE)?;
        let u = app_data.units_ref();
        let node_number = u[2];
        app_data.check(Afn::RouteGet, RouteQuery::NodeInfo.code(), node_number as usize * NODE_INFO_SIZE + NODE_NUMBER_SIZE)?;
        let mut infos: Vec<NodeDetail> = Vec::new();
        let mut i: usize = 0;
        while i < node_number as usize
            invariant
                u@.len() == 3 + node_number * 8,
                i <= node_number,
                infos@.len() == i,
                forall|j: int|
                    0 <= j < i ==> (#[trigger] infos@[j]).spec_decoded_from(
                        u@.subrange(3 + 8 * j, 11 + 8 * j),
                    ),
            decreases node_number - i,
        {
            infos.push(NodeDetail::from_bytes(u.as_slice(), NODE_NUMBER_SIZE + NODE_INFO_SIZE * i));
            i = i + 1;
        }
        Ok(Self { total_node_number: u16_from_le(u[0], u[1]), node_number, node_infos: infos })
    }
}

impl vstd::std_specs::convert::TryFromSpecImpl<AppData> for QueryNodeInfoResponse {
    open spec fn obeys_try_from_spec() -> bool {
        false
    }

    open spec fn try_from_spec(app_data: AppData) -> Result<Self, Error> {
        arbitrary()
    }
}

/// Asks for chip information of nodes, a page at a time.
#[derive(Debug, Clone, Copy, PartialEq, Eq)]
pub struct ChipInfoRequest {
    pub start_seq: u16,
    pub node_number: u8,
}

impl ChipInfoRequest {
    pub fn new(start_seq: u16, node_number: u8) -> (r: Self)
        ensures
            r == (ChipInfoRequest { start_seq, node_number }),
    {
        Self { start_seq, node_number }
    }
}

impl From<ChipInfoRequest> for AppData {
    fn from(req: ChipInfoRequest) -> (a: AppData)
        ensures
            a.spec_has(Afn::RouteGet, 112, Some(spec_paged(req.start_seq, req.node_number))),
    {
        paged_query(RouteQuery::ChipInfo.code(), req.start_seq, req.node_number)
    }
}

impl vstd::std_specs::convert::FromSpecImpl<ChipInfoRequest> for AppData {
    open spec fn obeys_from_spec() -> bool {
        false
    }

    open spec fn from_spec(req: ChipInfoRequest) -> AppData {
        arbitrary()
    }
}

pub const CHIP_INFO_DATA_LEN: usize = 33;

/// Chip information of a node: address, device type, 24-byte chip id, software version.
#[derive(Debug, Clone, PartialEq, Eq)]
pub struct ChipInformation {
    pub address: Address,
    pub device_type: u8,
    pub id_info: [u8; 24],
    pub software_version: String,
}

impl ChipInformation {
    pub open spec fn spec_decoded_from(self, d: Seq<u8>) -> bool {
        &&& self.address.wire() == d.subrange(0, 6)
        &&& self.device_type == d[6]
        &&& self.id_info@ == d.subrange(7, 31)
        &&& self.software_version@ == spec_hex(seq![d[32], d[31]], false)
    }

    /// Reads a chip from thirty-three bytes at `at`.
    pub fn from_bytes(data: &[u8], at: usize) -> (r: Self)
        requires
            at + 33 <= data@.len(),
        ensures
            r.spec_decoded_from(data@.subrange(at as int, at + 33)),
    {
        let n = data.len();
        assert(at + 32 < n);
        let mut id_info = [0u8; 24];
        let mut k: usize = 0;
        while k < 24
            invariant
                k <= 24,
                at + 33 <= data@.len(),
                n == data@.len(),
                id_info@.len() == 24,
                forall|j: int| 0 <= j < k ==> id_info@[j] == data@[at + 7 + j],
            decreases 24 - k,
        {
            id_info[k] = data[at + 7 + k];
            k = k + 1;
        }
        let mut software_version = String::new();
        let pair = [data[at + 32], data[at + 31]];
        push_hex(&mut software_version, pair.as_slice(), false);
        let ghost d = data@.subrange(at as int, at + 33);
        assert(d.subrange(0, 6) =~= data@.subrange(at as int, at + 6));
        assert(id_info@ =~= d.subrange(7, 31));
        assert(pair@ =~= seq![d[32], d[31]]);
        assert(software_version@ =~= spec_hex(seq![d[32], d[31]], false));
        Self { address: address_at(data, at), device_type: data[at + 6], id_info, software_version }
    }
}

/// A page of chip information.
#[derive(Debug, Clone, PartialEq, Eq)]
pub struct ChipInfoResponse {
    pub total_node_number: u16,
    pub start_seq: u16,
    pub node_number: u8,
    pub chip_infos: Vec<ChipInformation>,
}

pub const CHIP_INFO_SIZE: usize = 5;

impl TryFrom<AppData> for ChipInfoResponse {
    type Error = Error;

    fn try_from(app_data: AppData) -> (r: Result<Self, Error>)
        ensures
            ({
                let u = app_data.spec_units();
                let pre = match app_data.spec_check_min(5) {
                    Err(e) => Err(e),
                    Ok(_) => app_data.spec_check(Afn::RouteGet, 112, (u[4] * 33 + 5) as usize),
                };
                &&& r is Ok <==> pre is Ok
                &&& r matches Err(e) ==> pre == Err::<(), Error>(e)
                &&& r matches Ok(c) ==> {
                    &&& c.total_node_number == le16(u[0], u[1])
                    &&& c.start_seq == le16(u[2], u[3])
                    &&& c.node_number == u[4]
                    &&& c.chip_infos@.len() == u[4]
                    &&& forall|i: int|
                        0 <= i < u[4] ==> (#[trigger] c.chip_infos@[i]).spec_decoded_from(
                            u.subrange(5 + 33 * i, 38 + 33 * i),
                        )
                }
            }),
    {
        app_data.check_min(CHIP_INFO_SIZE)?;
        let u = app_data.units_ref();
        let node_number = u[4];
        app_data.check(Afn::RouteGet, RouteQuery::ChipInfo.code(), node_number as usize * CHIP_INFO_DATA_LEN + CHIP_INFO_SIZE)?;
        let mut infos: Vec<ChipInformation> = Vec::new();
        let mut i: usize = 0;
        while i < node_number as usize
            invariant
                u@.len() == 5 + node_number * 33,
                i <= node_number,
                infos@.len() == i,
                forall|j: int|
                    0 <= j < i ==> (#[trigger] infos@[j]).spec_decoded_from(
                        u@.subrange(5 + 33 * j, 38 + 33 * j),
                    ),
            decreases node_number - i,
        {
            infos.push(ChipInformation::from_bytes(u.as_slice(), CHIP_INFO_SIZE + CHIP_INFO_DATA_LEN * i));
            i = i + 1;
        }
        Ok(Self {
            total_node_number: u16_from_le(u[0], u[1]),
            start_seq: u16_from_le(u[2], u[3]),
            node_number,
            chip_infos: infos,
        })
    }
}

impl vstd::std_specs::convert::TryFromSpecImpl<AppData> for ChipInfoResponse {
    open spec fn obeys_try_from_spec() -> bool {
        false
    }

    open spec fn try_from_spec(app_data: AppData) -> Result<Self, Error> {
        arbitrary()
    }
}

/// Asks for an identifier of a device.
#[derive(Debug, Clone, Copy, PartialEq, Eq)]
pub struct IdInfoRequest {
    pub device_type: u8,
    pub address: Address,
    pub id_type: u8,
}

impl From<IdInfoRequest> for AppData {
    /// Device type, address (wire order), identifier type.
    fn from(req: IdInfoRequest) -> (a: AppData)
        ensures
            a.spec_has(
                Afn::RouteGet,
                40,
                Some(seq![req.device_type] + req.address.wire() + seq![req.id_type]),
            ),
    {
        let mut data = Vec::new();
        data.push(req.device_type);
        req.address.push_wire(&mut data);
        data.push(req.id_type);
        assert(data@ =~= seq![req.device_type] + req.address.wire() + seq![req.id_type]);
        AppData::with_units(Afn::RouteGet, RouteQuery::IdInfo.code(), data)
    }
}

impl vstd::std_specs::convert::FromSpecImpl<IdInfoRequest> for AppData {
    open spec fn obeys_from_spec() -> bool {
        false
    }

    open spec fn from_spec(req: IdInfoRequest) -> AppData {
        arbitrary()
    }
}

/// A device's identifier.
#[derive(Debug, Clone, PartialEq, Eq)]
pub struct IdInfoResponse {
    pub device_type: u8,
    pub address: Address,
    pub id_type: u8,
    pub id_length: u8,
    pub id_info: Vec<u8>,
}

pub const ID_INFO_SIZE: usize = 9;

impl TryFrom<AppData> for IdInfoResponse {
    type Error = Error;

    fn try_from(app_data: AppData) -> (r: Result<Self, Error>)
        ensures
            ({
                let u = app_data.spec_units();
                let pre = match app_data.spec_check_min(9) {
                    Err(e) => Err(e),
                    Ok(_) => app_data.spec_check(Afn::RouteGet, 40, (u[8] + 9) as usize),
                };
                &&& r is Ok <==> pre is Ok
                &&& r matches Err(e) ==> pre == Err::<(), Error>(e)
                &&& r matches Ok(v) ==> v.device_type == u[0] && v.address.wire() == u.subrange(1, 7)
                    && v.id_type == u[7] && v.id_length == u[8] && v.id_info@ == u.subrange(9, 9 + u[8])
            }),
    {
        app_data.check_min(ID_INFO_SIZE)?;
        let u = app_data.units_ref();
        let id_length = u[8] as usize;
        app_data.check(Afn::RouteGet, RouteQuery::IdInfo.code(), id_length + ID_INFO_SIZE)?;
        let address = Address::try_from(&u.as_slice()[1..7])?;
        Ok(Self {
            device_type: u[0],
            address,
            id_type: u[7],
            id_length: id_length as u8,
            id_info: crate::bytes::copy_range(u.as_slice(), 9, 9 + id_length),
        })
    }
}

impl vstd::std_specs::convert::TryFromSpecImpl<AppData> for IdInfoResponse {
    open spec fn obeys_try_from_spec() -> bool {
        false
    }

    open spec fn try_from_spec(app_data: AppData) -> Result<Self, Error> {
        arbitrary()
    }
}

/// Asks for line (phase) information of nodes, a page at a time.
#[derive(Debug, Clone, Copy, PartialEq, Eq)]
pub struct QueryNodeLineInfoRequest {
    pub start_seq: u16,
    pub node_number: u8,
}

impl QueryNodeLineInfoRequest {
    pub fn new(start_seq: u16, node_number: u8) -> (r: Self)
        ensures
            r == (QueryNodeLineInfoRequest { start_seq, node_number }),
    {
        Self { start_seq, node_number }
    }
}

impl From<QueryNodeLineInfoRequest> for AppData {
    fn from(req: QueryNodeLineInfoRequest) -> (a: AppData)
        ensures
            a.spec_has(Afn::RouteGet, 31, Some(spec_paged(req.start_seq, req.node_number))),
    {
        paged_query(RouteQuery::NodeLineInfo.code(), req.start_seq, req.node_number)
    }
}

impl vstd::std_specs::convert::FromSpecImpl<QueryNodeLineInfoRequest> for AppData {
    open spec fn obeys_from_spec() -> bool {
        false
    }

    open spec fn from_spec(req: QueryNodeLineInfoRequest) -> AppData {
        arbitrary()
    }
}

pub const NODE_LINE_INFO_SIZE: usize = 8;

/// Line information of a node.
#[derive(Debug, Clone, Copy, PartialEq, Eq)]
pub struct NodeLineInfo {
    pub addr: Address,
    pub info: u16,
}

impl NodeLineInfo {
    pub open spec fn spec_decoded_from(self, d: Seq<u8>) -> bool {
        self.addr.wire() == d.subrange(0, 6) && self.info == le16(d[6], d[7])
    }

    /// Reads a node from eight bytes at `at`.
    pub fn from_bytes(data: &[u8], at: usize) -> (r: Self)
        requires
            at + 8 <= data@.len(),
        ensures
            r.spec_decoded_from(data@.subrange(at as int, at + 8)),
    {
        let n = data.len();
        assert(at + 7 < n);
        assert(data@.subrange(at as int, at + 8).subrange(0, 6) =~= data@.subrange(at as int, at + 6));
        Self { addr: address_at(data, at), info: u16_from_le(data[at + 6], data[at + 7]) }
    }
}

pub const NODE_LINE_PREFIX_SIZE: usize = 5;

/// A page of line information.
#[derive(Debug, Clone, PartialEq, Eq)]
pub struct QueryNodeLineInfoResponse {
    pub total_node_number: u16,
    pub start_index: u16,
    pub node_number: u8,
    pub line_infos: Vec<NodeLineInfo>,
}

impl TryFrom<AppData> for QueryNodeLineInfoResponse {
    type Error = Error;

    fn try_from(app_data: AppData) -> (r: Result<Self, Error>)
        ensures
            ({
                let u = app_data.spec_units();
                let pre = match app_data.spec_check_min(5) {
                    Err(e) => Err(e),
                    Ok(_) => app_data.spec_check(Afn::RouteGet, 31, (u[4] * 8 + 5) as usize),
                };
                &&& r is Ok <==> pre is Ok
                &&& r matches Err(e) ==> pre == Err::<(), Error>(e)
                &&& r matches Ok(q) ==> {
                    &&& q.total_node_number == le16(u[0], u[1])
                    &&& q.start_index == le16(u[2], u[3])
                    &&& q.node_number == u[4]
                    &&& q.line_infos@.len() == u[4]
                    &&& forall|i: int|
                        0 <= i < u[4] ==> (#[trigger] q.line_infos@[i]).spec_decoded_from(
                            u.subrange(5 + 8 * i, 13 + 8 * i),
                        )
                }
            }),
    {
        app_data.check_min(NODE_LINE_PREFIX_SIZE)?;
        let u = app_data.units_ref();
        let node_number = u[4];
        app_data.check(Afn::RouteGet, RouteQuery::NodeLineInfo.code(), node_number as usize * NODE_LINE_INFO_SIZE + NODE_LINE_PREFIX_SIZE)?;
        let mut infos: Vec<NodeLineInfo> = Vec::new();
        let mut i: usize = 0;
        while i < node_number as usize
            invariant
                u@.len() == 5 + node_number * 8,
                i <= node_number,
                infos@.len() == i,
                forall|j: int|
                    0 <= j < i ==> (#[trigger] infos@[j]).spec_decoded_from(
                        u@.subrange(5 + 8 * j, 13 + 8 * j),
                    ),
            decreases node_number - i,
        {
            infos.push(NodeLineInfo::from_bytes(u.as_slice(), NODE_LINE_PREFIX_SIZE + NODE_LINE_INFO_SIZE * i));
            i = i + 1;
        }
        Ok(Self {
            total_node_number: u16_from_le(u[0], u[1]),
            start_index: u16_from_le(u[2], u[3]),
            node_number,
            line_infos: infos,
        })
    }
}

impl vstd::std_specs::convert::TryFromSpecImpl<AppData> for QueryNodeLineInfoResponse {
    open spec fn obeys_try_from_spec() -> bool {
        false
    }

    open spec fn try_from_spec(app_data: AppData) -> Result<Self, Error> {
        arbitrary()
    }
}

/// Asks for the module identifiers of slave nodes, a page at a time.
#[derive(Debug, Clone, Copy, PartialEq, Eq)]
pub struct SlaveModuleIdRequest {
    pub start_seq: u16,
    pub node_number: u8,
}

impl SlaveModuleIdRequest {
    pub fn new(start_seq: u16, node_number: u8) -> (r: Self)
        ensures
            r == (SlaveModuleIdRequest { start_seq, node_number }),
    {
        Self { start_seq, node_number }
    }
}

impl From<SlaveModuleIdRequest> for AppData {
    fn from(req: SlaveModuleIdRequest) -> (a: AppData)
        ensures
            a.spec_has(Afn::RouteGet, 7, Some(spec_paged(req.start_seq, req.node_number))),
    {
        paged_query(RouteQuery::SlaveModuleId.code(), req.start_seq, req.node_number)
    }
}

impl vstd::std_specs::convert::FromSpecImpl<SlaveModuleIdRequest> for AppData {
    open spec fn obeys_from_spec() -> bool {
        false
    }

    open spec fn from_spec(req: SlaveModuleIdRequest) -> AppData {
        arbitrary()
    }
}

/// Bytes of a slave module record before its identifier.
pub const SLAVE_MODULE_ID_PREFIX_SIZE: usize = 11;

/// The module identifier of a slave node.
#[derive(Debug, Clone, PartialEq, Eq)]
pub struct SlaveModuleIdInfo {
    pub address: Address,
    pub device_type: u8,
    pub factory_code: String,
    pub id_format: ModuleIdFormat,
    pub id_info: Vec<u8>,
}

impl SlaveModuleIdInfo {
    /// A record: address, device type, factory code (low byte first), identifier
    /// length, format, then the identifier, which runs to the end of the record.
    pub open spec fn spec_decoded_from(self, d: Seq<u8>) -> bool {
        &&& self.address.wire() == d.subrange(0, 6)
        &&& self.device_type == d[6]
        &&& self.factory_code@ == vstd::utf8::decode_utf8(spec_code_bytes(d[7], d[8]))
        &&& ModuleIdFormat::spec_from_code(d[10]) == Some(self.id_format)
        &&& self.id_info@ == d.subrange(11, d.len() as int)
    }

    /// Reads the record in `data[at..end]`; an unknown identifier format is an error.
    pub fn from_slice(data: &[u8], at: usize, end: usize) -> (r: Result<Self, Error>)
        requires
            at + SLAVE_MODULE_ID_PREFIX_SIZE <= end <= data@.len(),
            spec_code_valid(data@[at + 7], data@[at + 8]),
        ensures
            r is Ok <==> ModuleIdFormat::spec_from_code(data@[at + 10]) is Some,
            r matches Err(e) ==> e == Error::UnknownValue(ValueKind::ModuleIdFormat, data@[at + 10]),
            r matches Ok(v) ==> v.spec_decoded_from(data@.subrange(at as int, end as int)),
    {
        let address = address_at(data, at);
        let factory_code = code_string(data[at + 7], data[at + 8]);
        let id_format = match ModuleIdFormat::try_from(data[at + 10]) {
            Ok(f) => f,
            Err(e) => return Err(e),
        };
        let id_info = crate::bytes::copy_range(data, at + SLAVE_MODULE_ID_PREFIX_SIZE, end);
        let ghost d = data@.subrange(at as int, end as int);
        assert(d.subrange(0, 6) =~= data@.subrange(at as int, at + 6));
        assert(d.subrange(11, d.len() as int) =~= data@.subrange(at + 11, end as int));
        Ok(Self { address, device_type: data[at + 6], factory_code, id_format, id_info })
    }
}

/// Where record `i` of a slave module page starts: each record is eleven bytes
/// and its identifier, whose length is its tenth byte.
pub open spec fn spec_slave_start(u: Seq<u8>, i: nat) -> int
    decreases i,
{
    if i == 0 {
        3
    } else {
        let p = spec_slave_start(u, (i - 1) as nat);
        p + 11 + u[p + 9]
    }
}

/// The outcome of reading records `i` to `n` of a slave module page: where the
/// last ends, or the first error (a record that does not fit, or an unknown format).
pub open spec fn spec_slave_scan(u: Seq<u8>, i: nat, n: nat) -> Result<int, Error>
    decreases n - i,
{
    if i >= n {
        Ok(spec_slave_start(u, i))
    } else {
        let p = spec_slave_start(u, i);
        if u.len() < p + 11 || u.len() < p + 11 + u[p + 9] {
            Err(Error::AppData(AppDataError::DataLength(u.len() as usize)))
        } else if ModuleIdFormat::spec_from_code(u[p + 10]) is None {
            Err(Error::UnknownValue(ValueKind::ModuleIdFormat, u[p + 10]))
        } else {
            spec_slave_scan(u, i + 1, n)
        }
    }
}

/// Whether the factory code of every record from `i` on that is read is text.
pub open spec fn spec_slave_readable(u: Seq<u8>, i: nat, n: nat) -> bool
    decreases n - i,
{
    if i >= n {
        true
    } else {
        let p = spec_slave_start(u, i);
        if u.len() < p + 11 || u.len() < p + 11 + u[p + 9] {
            true
        } else {
            &&& spec_code_valid(u[p + 7], u[p + 8])
            &&& (ModuleIdFormat::spec_from_code(u[p + 10]) is None || spec_slave_readable(u, i + 1, n))
        }
    }
}

/// The outcome of checking a page of slave module identifiers.
pub open spec fn spec_slave_module_id_check(app_data: AppData) -> Result<(), Error> {
    let u = app_data.spec_units();
    match app_data.spec_check_min(3) {
        Err(e) => Err(e),
        Ok(_) => match spec_slave_scan(u, 0, u[2] as nat) {
            Err(e) => Err(e),
            Ok(end) => app_data.spec_check(Afn::RouteGet, 7, end as usize),
        },
    }
}

/// A page of slave module identifiers.
#[derive(Debug, Clone, PartialEq, Eq)]
pub struct SlaveModuleIdResponse {
    pub total_node_number: u16,
    pub node_number: u8,
    pub slave_module_id_infos: Vec<SlaveModuleIdInfo>,
}

pub const SLAVE_MODULE_ID_SIZE: usize = 3;

impl SlaveModuleIdResponse {
    /// Decodes a page; the factory code of every record read must be text.
    pub fn from_app_data(app_data: AppData) -> (r: Result<Self, Error>)
        requires
            app_data.spec_check_min(3) is Ok ==> spec_slave_readable(
                app_data.spec_units(),
                0,
                app_data.spec_units()[2] as nat,
            ),
        ensures
            r is Ok <==> spec_slave_module_id_check(app_data) is Ok,
            r matches Err(e) ==> spec_slave_module_id_check(app_data) == Err::<(), Error>(e),
            r matches Ok(s) ==> {
                let u = app_data.spec_units();
                &&& s.total_node_number == le16(u[0], u[1])
                &&& s.node_number == u[2]
                &&& s.slave_module_id_infos@.len() == u[2]
                &&& forall|i: int|
                    0 <= i < u[2] ==> (#[trigger] s.slave_module_id_infos@[i]).spec_decoded_from(
                        u.subrange(spec_slave_start(u, i as nat), spec_slave_start(u, (i + 1) as nat)),
                    )
            },
    {
        app_data.check_min(SLAVE_MODULE_ID_SIZE)?;
        let u = app_data.units_ref();
        let len = u.len();
        let node_number = u[2];
        let ghost n = node_number as nat;
        let mut infos: Vec<SlaveModuleIdInfo> = Vec::new();
        let mut idx: usize = SLAVE_MODULE_ID_SIZE;
        let mut i: usize = 0;
        while i < node_number as usize
            invariant
                u@ == app_data.spec_units(),
                len == u@.len(),
                node_number == u@[2],
                n == node_number,
                i <= node_number,
                infos@.len() == i,
                idx == spec_slave_start(u@, i as nat),
                idx <= len,
                spec_slave_scan(u@, 0, n) == spec_slave_scan(u@, i as nat, n),
                spec_slave_readable(u@, i as nat, n),
                forall|j: int|
                    0 <= j < i ==> (#[trigger] infos@[j]).spec_decoded_from(
                        u@.subrange(spec_slave_start(u@, j as nat), spec_slave_start(u@, (j + 1) as nat)),
                    ),
            decreases node_number - i,
        {
            if len - idx < SLAVE_MODULE_ID_PREFIX_SIZE {
                return Err(Error::AppData(AppDataError::DataLength(len)));
            }
            let id_length = u[idx + 9] as usize + SLAVE_MODULE_ID_PREFIX_SIZE;
            if len - idx < id_length {
                return Err(Error::AppData(AppDataError::DataLength(len)));
            }
            let info = match SlaveModuleIdInfo::from_slice(u.as_slice(), idx, idx + id_length) {
                Ok(v) => v,
                Err(e) => return Err(e),
            };
            infos.push(info);
            proof {
                assert(spec_slave_start(u@, (i + 1) as nat) == idx + id_length);
            }
            idx = idx + id_length;
            i = i + 1;
        }
        app_data.check(Afn::RouteGet, RouteQuery::SlaveModuleId.code(), idx)?;
        Ok(Self {
            total_node_number: u16_from_le(u[0], u[1]),
            node_number,
            slave_module_id_infos: infos,
        })
    }
}

/// Asks for the network topology, a page at a time.
#[derive(Debug, Clone, Copy, PartialEq, Eq)]
pub struct NetTopologyRequest {
    pub start_seq: u16,
    pub node_number: u8,
}

impl NetTopologyRequest {
    pub fn new(start_seq: u16, node_number: u8) -> (r: Self)
        ensures
            r == (NetTopologyRequest { start_seq, node_number }),
    {
        Self { start_seq, node_number }
    }
}

impl From<NetTopologyRequest> for AppData {
    fn from(req: NetTopologyRequest) -> (a: AppData)
        ensures
            a.spec_has(Afn::RouteGet, 21, Some(spec_paged(req.start_seq, req.node_number))),
    {
        paged_query(RouteQuery::NetTopology.code(), req.start_seq, req.node_number)
    }
}

impl vstd::std_specs::convert::FromSpecImpl<NetTopologyRequest> for AppData {
    open spec fn obeys_from_spec() -> bool {
        false
    }

    open spec fn from_spec(req: NetTopologyRequest) -> AppData {
        arbitrary()
    }
}

pub const NODE_NETTOPOLOGY_INFO_SIZE: usize = 11;

/// A node's place in the network: address, node and proxy flags, level (low
/// nibble of the last byte) and role (high nibble).
#[derive(Debug, Clone, Copy, PartialEq, Eq)]
pub struct NetTopologyInfo {
    pub address: Address,
    pub node_flag: u16,
    pub proxy_node_flag: u16,
    pub node_level: u8,
    pub node_role: u8,
}

impl NetTopologyInfo {
    pub open spec fn spec_decoded_from(self, d: Seq<u8>) -> bool {
        &&& self.address.wire() == d.subrange(0, 6)
        &&& self.node_flag == le16(d[6], d[7])
        &&& self.proxy_node_flag == le16(d[8], d[9])
        &&& self.node_level == d[10] % 16
        &&& self.node_role == d[10] / 16
    }

    /// Reads a node from eleven bytes at `at`.
    pub fn from_bytes(data: &[u8], at: usize) -> (r: Self)
        requires
            at + 11 <= data@.len(),
        ensures
            r.spec_decoded_from(data@.subrange(at as int, at + 11)),
    {
        let n = data.len();
        assert(at + 10 < n);
        let b = data[at + 10];
        assert(b & 0x0f == b % 16) by (bit_vector);
        assert(b >> 4 == b / 16) by (bit_vector);
        assert(data@.subrange(at as int, at + 11).subrange(0, 6) =~= data@.subrange(at as int, at + 6));
        Self {
            address: address_at(data, at),
            node_flag: u16_from_le(data[at + 6], data[at + 7]),
            proxy_node_flag: u16_from_le(data[at + 8], data[at + 9]),
            node_level: b & 0x0f,
            node_role: b >> 4,
        }
    }
}

/// A page of the network topology.
#[derive(Debug, Clone, PartialEq, Eq)]
pub struct NetTopologyResponse {
    pub total_node_number: u16,
    pub start_index: u16,
    pub node_number: u8,
    pub net_topology_infos: Vec<NetTopologyInfo>,
}

pub const NET_TOPOLOGY_PREFIX_SIZE: usize = 5;

impl TryFrom<AppData> for NetTopologyResponse {
    type Error = Error;

    fn try_from(app_data: AppData) -> (r: Result<Self, Error>)
        ensures
            ({
                let u = app_data.spec_units();
                let pre = match app_data.spec_check_min(5) {
                    Err(e) => Err(e),
                    Ok(_) => app_data.spec_check(Afn::RouteGet, 21, (u[4] * 11 + 5) as usize),
                };
                &&& r is Ok <==> pre is Ok
                &&& r matches Err(e) ==> pre == Err::<(), Error>(e)
                &&& r matches Ok(t) ==> {
                    &&& t.total_node_number == le16(u[0], u[1])
                    &&& t.start_index == le16(u[2], u[3])
                    &&& t.node_number == u[4]
                    &&& t.net_topology_infos@.len() == u[4]
                    &&& forall|i: int|
                        0 <= i < u[4] ==> (#[trigger] t.net_topology_infos@[i]).spec_decoded_from(
                            u.subrange(5 + 11 * i, 16 + 11 * i),
                        )
                }
            }),
    {
        app_data.check_min(NET_TOPOLOGY_PREFIX_SIZE)?;
        let u = app_data.units_ref();
        let node_number = u[4];
        app_data.check(
            Afn::RouteGet,
            RouteQuery::NetTopology.code(),
            node_number as usize * NODE_NETTOPOLOGY_INFO_SIZE + NET_TOPOLOGY_PREFIX_SIZE,
        )?;
        let mut infos: Vec<NetTopologyInfo> = Vec::new();
        let mut i: usize = 0;
        while i < node_number as usize
            invariant
                u@.len() == 5 + node_number * 11,
                i <= node_number,
                infos@.len() == i,
                forall|j: int|
                    0 <= j < i ==> (#[trigger] infos@[j]).spec_decoded_from(
                        u@.subrange(5 + 11 * j, 16 + 11 * j),
                    ),
            decreases node_number - i,
        {
            infos.push(NetTopologyInfo::from_bytes(u.as_slice(), NET_TOPOLOGY_PREFIX_SIZE + NODE_NETTOPOLOGY_INFO_SIZE * i));
            i = i + 1;
        }
        Ok(Self {
            total_node_number: u16_from_le(u[0], u[1]),
            start_index: u16_from_le(u[2], u[3]),
            node_number,
            net_topology_infos: infos,
        })
    }
}

impl vstd::std_specs::convert::TryFromSpecImpl<AppData> for NetTopologyResponse {
    open spec fn obeys_try_from_spec() -> bool {
        false
    }

    open spec fn try_from_spec(app_data: AppData) -> Result<Self, Error> {
        arbitrary()
    }
}

/// Asks for the networks that a node hears.
#[derive(Debug, Clone, Copy, PartialEq, Eq)]
pub struct MultipleNetRequest;

impl From<MultipleNetRequest> for AppData {
    fn from(v: MultipleNetRequest) -> (a: AppData)
        ensures
            a.spec_has(Afn::RouteGet, 111, None),
    {
        AppData::without_units(Afn::RouteGet, RouteQuery::MultipleNet.code())
    }
}

impl vstd::std_specs::convert::FromSpecImpl<MultipleNetRequest> for AppData {
    open spec fn obeys_from_spec() -> bool {
        false
    }

    open spec fn from_spec(v: MultipleNetRequest) -> AppData {
        arbitrary()
    }
}

pub const MULTIPLE_NET_INFO_SIZE: usize = 3;

/// A neighbouring network, by its three-byte identity.
#[derive(Debug, Clone, Copy, PartialEq, Eq)]
pub struct MultipleNetInfo {
    pub net_identity: u32,
}

/// The networks that a node hears, with its own.
#[derive(Debug, Clone, PartialEq, Eq)]
pub struct MultipleNetResponse {
    pub total_node_number: u8,
    pub node_net_identity: u32,
    pub address: Address,
    pub multiple_net_infos: Vec<MultipleNetInfo>,
}

pub const MULTIPLE_NET_PREFIX_SIZE: usize = 10;

impl TryFrom<AppData> for MultipleNetResponse {
    type Error = Error;

    fn try_from(app_data: AppData) -> (r: Result<Self, Error>)
        ensures
            ({
                let u = app_data.spec_units();
                let pre = match app_data.spec_check_min(10) {
                    Err(e) => Err(e),
                    Ok(_) => app_data.spec_check(Afn::RouteGet, 111, (u[0] * 3 + 10) as usize),
                };
                &&& r is Ok <==> pre is Ok
                &&& r matches Err(e) ==> pre == Err::<(), Error>(e)
                &&& r matches Ok(m) ==> {
                    &&& m.total_node_number == u[0]
                    &&& m.node_net_identity == le32(u[1], u[2], u[3], 0)
                    &&& m.address.wire() == u.subrange(4, 10)
                    &&& m.multiple_net_infos@.len() == u[0]
                    &&& forall|i: int|
                        0 <= i < u[0] ==> (#[trigger] m.multiple_net_infos@[i]).net_identity == le32(
                            u[10 + 3 * i],
                            u[11 + 3 * i],
                            u[12 + 3 * i],
                            0,
                        )
                }
            }),
    {
        app_data.check_min(MULTIPLE_NET_PREFIX_SIZE)?;
        let u = app_data.units_ref();
        let total = u[0];
        app_data.check(
            Afn::RouteGet,
            RouteQuery::MultipleNet.code(),
            total as usize * MULTIPLE_NET_INFO_SIZE + MULTIPLE_NET_PREFIX_SIZE,
        )?;
        let mut infos: Vec<MultipleNetInfo> = Vec::new();
        let mut i: usize = 0;
        while i < total as usize
            invariant
                u@.len() == 10 + total * 3,
                i <= total,
                infos@.len() == i,
                forall|j: int|
                    0 <= j < i ==> (#[trigger] infos@[j]).net_identity == le32(
                        u@[10 + 3 * j],
                        u@[11 + 3 * j],
                        u@[12 + 3 * j],
                        0,
                    ),
            decreases total - i,
        {
            let at = MULTIPLE_NET_PREFIX_SIZE + MULTIPLE_NET_INFO_SIZE * i;
            infos.push(MultipleNetInfo { net_identity: u32_from_le(u[at], u[at + 1], u[at + 2], 0) });
            i = i + 1;
        }
        Ok(Self {
            total_node_number: total,
            node_net_identity: u32_from_le(u[1], u[2], u[3], 0),
            address: address_at(u.as_slice(), 4),
            multiple_net_infos: infos,
        })
    }
}

impl vstd::std_specs::convert::TryFromSpecImpl<AppData> for MultipleNetResponse {
    open spec fn obeys_try_from_spec() -> bool {
        false
    }

    open spec fn try_from_spec(app_data: AppData) -> Result<Self, Error> {
        arbitrary()
    }
}

/// Asks for the router's running status.
#[derive(Debug, Clone, Copy, PartialEq, Eq)]
pub struct RunningStatusRequest;

impl From<RunningStatusRequest> for AppData {
    fn from(v: RunningStatusRequest) -> (a: AppData)
        ensures
            a.spec_has(Afn::RouteGet, 4, None),
    {
        AppData::without_units(Afn::RouteGet, RouteQuery::RunningStatus.code())
    }
}

impl vstd::std_specs::convert::FromSpecImpl<RunningStatusRequest> for AppData {
    open spec fn obeys_from_spec() -> bool {
        false
    }

    open spec fn from_spec(v: RunningStatusRequest) -> AppData {
        arbitrary()
    }
}

/// The running-status byte: error code (high nibble), event-report flag (bit 2),
/// work flag (bit 1), route-finished flag (bit 0).
#[derive(Debug, Clone, Copy, PartialEq, Eq)]
pub struct RunningStatus {
    pub error_code: u8,
    pub report_event_flag: u8,
    pub work_flag: u8,
    pub route_finish_flag: u8,
}

impl From<u8> for RunningStatus {
    fn from(value: u8) -> (r: Self)
        ensures
            r.error_code == value / 16,
            r.report_event_flag == (value / 4) % 2,
            r.work_flag == (value / 2) % 2,
            r.route_finish_flag == value % 2,
    {
        assert((value & 0xf0) >> 4 == value / 16) by (bit_vector);
        assert((value & 0x04) >> 2 == (value / 4) % 2) by (bit_vector);
        assert((value & 0x02) >> 1 == (value / 2) % 2) by (bit_vector);
        assert(value & 0x01 == value % 2) by (bit_vector);
        Self {
            error_code: (value & 0xf0) >> 4,
            report_event_flag: (value & 0x04) >> 2,
            work_flag: (value & 0x02) >> 1,
            route_finish_flag: value & 0x01,
        }
    }
}

impl vstd::std_specs::convert::FromSpecImpl<u8> for RunningStatus {
    open spec fn obeys_from_spec() -> bool {
        true
    }

    open spec fn from_spec(value: u8) -> RunningStatus {
        RunningStatus {
            error_code: value / 16,
            report_event_flag: (value / 4) % 2,
            work_flag: (value / 2) % 2,
            route_finish_flag: value % 2,
        }
    }
}

/// The work-status byte: meter status (top two bits), area identification
/// (bit 3), event reporting (bit 2), registration permitted (bit 1), working (bit 0).
#[derive(Debug, Clone, Copy, PartialEq, Eq)]
pub struct WorkStatus {
    pub meter_status: u8,
    pub area_identify_status: u8,
    pub report_event_flag: u8,
    pub register_permit: u8,
    pub work_status: u8,
}

impl From<u8> for WorkStatus {
    fn from(value: u8) -> (r: Self)
        ensures
            r.meter_status == value / 64,
            r.area_identify_status == (value / 8) % 2,
            r.report_event_flag == (value / 4) % 2,
            r.register_permit == (value / 2) % 2,
            r.work_status == value % 2,
    {
        assert((value & 0xc0) >> 6 == value / 64) by (bit_vector);
        assert((value & 0x08) >> 3 == (value / 8) % 2) by (bit_vector);
        assert((value & 0x04) >> 2 == (value / 4) % 2) by (bit_vector);
        assert((value & 0x02) >> 1 == (value / 2) % 2) by (bit_vector);
        assert(value & 0x01 == value % 2) by (bit_vector);
        Self {
            meter_status: (value & 0xc0) >> 6,
            area_identify_status: (value & 0x08) >> 3,
            report_event_flag: (value & 0x04) >> 2,
            register_permit: (value & 0x02) >> 1,
            work_status: value & 0x01,
        }
    }
}

impl vstd::std_specs::convert::FromSpecImpl<u8> for WorkStatus {
    open spec fn obeys_from_spec() -> bool {
        true
    }

    open spec fn from_spec(value: u8) -> WorkStatus {
        WorkStatus {
            meter_status: value / 64,
            area_identify_status: (value / 8) % 2,
            report_event_flag: (value / 4) % 2,
            register_permit: (value / 2) % 2,
            work_status: value % 2,
        }
    }
}

/// The router's running status.
#[derive(Debug, Clone, Copy, PartialEq, Eq)]
pub struct RunningStatusResponse {
    pub running_status: RunningStatus,
    pub total_node_number: u16,
    pub meter_node_number: u16,
    pub relay_meter_node_number: u16,
    pub work_status: WorkStatus,
    pub comm_speed: u16,
    pub relay_level: [u8; 3],
    pub work_step: [u8; 3],
}

/// What the router is doing, from the meter status bits.
#[derive(Debug, Clone, Copy, PartialEq, Eq, Structural)]
pub enum CurrentStatus {
    Metering,
    Searching,
    Upgrading,
    Other,
}

impl CurrentStatus {
    pub open spec fn spec_from_code(b: u8) -> CurrentStatus {
        if b == 0 {
            CurrentStatus::Metering
        } else if b == 1 {
            CurrentStatus::Searching
        } else if b == 2 {
            CurrentStatus::Upgrading
        } else {
            CurrentStatus::Other
        }
    }
}

impl RunningStatusResponse {
    /// The router's activity; the meter status is two bits wide, as read.
    pub fn current_status(&self) -> (c: CurrentStatus)
        requires
            self.work_status.meter_status <= 3,
        ensures
            c == CurrentStatus::spec_from_code(self.work_status.meter_status),
    {
        match self.work_status.meter_status {
            0 => CurrentStatus::Metering,
            1 => CurrentStatus::Searching,
            2 => CurrentStatus::Upgrading,
            _ => CurrentStatus::Other,
        }
    }
}

impl TryFrom<AppData> for RunningStatusResponse {
    type Error = Error;

    fn try_from(app_data: AppData) -> (r: Result<Self, Error>)
        ensures
            r is Ok <==> app_data.spec_check(Afn::RouteGet, 4, 16) is Ok,
            r matches Err(e) ==> app_data.spec_check(Afn::RouteGet, 4, 16) == Err::<(), Error>(e),
            r matches Ok(s) ==> {
                let u = app_data.spec_units();
                &&& s.running_status.error_code == u[0] / 16
                &&& s.running_status.report_event_flag == (u[0] / 4) % 2
                &&& s.running_status.work_flag == (u[0] / 2) % 2
                &&& s.running_status.route_finish_flag == u[0] % 2
                &&& s.total_node_number == le16(u[1], u[2])
                &&& s.meter_node_number == le16(u[3], u[4])
                &&& s.relay_meter_node_number == le16(u[5], u[6])
                &&& s.work_status.meter_status == u[7] / 64
                &&& s.work_status.area_identify_status == (u[7] / 8) % 2
                &&& s.work_status.report_event_flag == (u[7] / 4) % 2
                &&& s.work_status.register_permit == (u[7] / 2) % 2
                &&& s.work_status.work_status == u[7] % 2
                &&& s.comm_speed == le16(u[8], u[9])
                &&& s.relay_level@ == u.subrange(10, 13)
                &&& s.work_step@ == u.subrange(13, 16)
            },
    {
        app_data.check(Afn::RouteGet, RouteQuery::RunningStatus.code(), 16)?;
        let u = app_data.units_ref();
        let relay_level = [u[10], u[11], u[12]];
        let work_step = [u[13], u[14], u[15]];
        assert(relay_level@ =~= u@.subrange(10, 13));
        assert(work_step@ =~= u@.subrange(13, 16));
        Ok(Self {
            running_status: RunningStatus::from(u[0]),
            total_node_number: u16_from_le(u[1], u[2]),
            meter_node_number: u16_from_le(u[3], u[4]),
            relay_meter_node_number: u16_from_le(u[5], u[6]),
            work_status: WorkStatus::from(u[7]),
            comm_speed: u16_from_le(u[8], u[9]),
            relay_level,
            work_step,
        })
    }
}

impl vstd::std_specs::convert::TryFromSpecImpl<AppData> for RunningStatusResponse {
    open spec fn obeys_try_from_spec() -> bool {
        false
    }

    open spec fn try_from_spec(app_data: AppData) -> Result<Self, Error> {
        arbitrary()
    }
}

/// Asks for the number of nodes in the network.
#[derive(Debug, Clone, Copy, PartialEq, Eq)]
pub struct NetworkSizeRequest;

impl From<NetworkSizeRequest> for AppData {
    fn from(v: NetworkSizeRequest) -> (a: AppData)
        ensures
            a.spec_has(Afn::RouteGet, 9, None),
    {
        AppData::without_units(Afn::RouteGet, RouteQuery::NetworkSize.code())
    }
}

impl vstd::std_specs::convert::FromSpecImpl<NetworkSizeRequest> for AppData {
    open spec fn obeys_from_spec() -> bool {
        false
    }

    open spec fn from_spec(v: NetworkSizeRequest) -> AppData {
        arbitrary()
    }
}

/// The number of nodes in the network.
#[derive(Debug, Clone, Copy, PartialEq, Eq)]
pub struct NetworkSizeResponse {
    pub network_size: u16,
}

impl TryFrom<AppData> for NetworkSizeResponse {
    type Error = Error;

    fn try_from(app_data: AppData) -> (r: Result<Self, Error>)
        ensures
            r is Ok <==> app_data.spec_check(Afn::RouteGet, 9, 2) is Ok,
            r matches Err(e) ==> app_data.spec_check(Afn::RouteGet, 9, 2) == Err::<(), Error>(e),
            r matches Ok(s) ==> s.network_size == le16(app_data.spec_units()[0], app_data.spec_units()[1]),
    {
        app_data.check(Afn::RouteGet, RouteQuery::NetworkSize.code(), 2)?;
        let u = app_data.units_ref();
        Ok(Self { network_size: u16_from_le(u[0], u[1]) })
    }
}

impl vstd::std_specs::convert::TryFromSpecImpl<AppData> for NetworkSizeResponse {
    open spec fn obeys_try_from_spec() -> bool {
        true
    }

    open spec fn try_from_spec(app_data: AppData) -> Result<Self, Error> {
        match app_data.spec_check(Afn::RouteGet, 9, 2) {
            Err(e) => Err(e),
            Ok(()) => {
                let u = app_data.spec_units();
                Ok(NetworkSizeResponse { network_size: le16(u[0], u[1]) })
            },
        }
    }
}

} // verus!
