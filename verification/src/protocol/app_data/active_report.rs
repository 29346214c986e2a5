//! AFN 06H: reports the module sends on its own.
use vstd::prelude::*;

use crate::bytes::{le16, u16_from_le};
use crate::error::{Error, ValueKind};
use crate::protocol::app_data::{address_at, Address, Afn, AppData};

verus! {

/// Function numbers of AFN 06H.
#[derive(Debug, Clone, Copy, PartialEq, Eq)]
pub enum ActiveReport {
    NodeInfo,
    WorkStatus,
    NodeInfoAndDeviceType,
    SlaveNodeEvent,
}

impl ActiveReport {
    pub open spec fn spec_code(self) -> u8 {
        match self {
            ActiveReport::NodeInfo => 1,
            ActiveReport::WorkStatus => 3,
            ActiveReport::NodeInfoAndDeviceType => 4,
            ActiveReport::SlaveNodeEvent => 5,
        }
    }

    pub fn code(self) -> (b: u8)
        ensures
            b == self.spec_code(),
    {
        match self {
            ActiveReport::NodeInfo => 1,
            ActiveReport::WorkStatus => 3,
            ActiveReport::NodeInfoAndDeviceType => 4,
            ActiveReport::SlaveNodeEvent => 5,
        }
    }
}

pub const NODE_INFO_SIZE: usize = 9;

/// A reported node: address, protocol type, sequence number.
#[derive(Debug, Clone, Copy, PartialEq, Eq)]
pub struct ReportNodeInfoDetail {
    pub address: Address,
    pub protocol_type: u8,
    pub seq_num: u16,
}

impl ReportNodeInfoDetail {
    pub open spec fn spec_decoded_from(self, d: Seq<u8>) -> bool {
        self.address.wire() == d.subrange(0, 6) && self.protocol_type == d[6] && self.seq_num
            == le16(d[7], d[8])
    }

    /// Reads a node from nine bytes at `at`.
    pub fn from_bytes(data: &[u8], at: usize) -> (r: Self)
        requires
            at + 9 <= data@.len(),
        ensures
            r.spec_decoded_from(data@.subrange(at as int, at + 9)),
    {
        let n = data.len();
        assert(at + 8 < n);
        let address = address_at(data, at);
        assert(data@.subrange(at as int, at + 9).subrange(0, 6) =~= data@.subrange(at as int, at + 6));
        Self { address, protocol_type: data[at + 6], seq_num: u16_from_le(data[at + 7], data[at + 8]) }
    }
}

/// Nodes reported by the module.
#[derive(Debug, Clone, PartialEq, Eq)]
pub struct ReportNodeInfo {
    pub node_number: u8,
    pub node_info_details: Vec<ReportNodeInfoDetail>,
}

impl TryFrom<AppData> for ReportNodeInfo {
    type Error = Error;

    fn try_from(app_data: AppData) -> (r: Result<Self, Error>)
        ensures
            ({
                let u = app_data.spec_units();
                let pre = match app_data.spec_check_min(1) {
                    Err(e) => Err(e),
                    Ok(_) => app_data.spec_check(Afn::Report, 1, (1 + u[0] * 9) as usize),
                };
                &&& r is Ok <==> pre is Ok
                &&& r matches Err(e) ==> pre == Err::<(), Error>(e)
                &&& r matches Ok(n) ==> {
                    &&& n.node_number == u[0]
                    &&& n.node_info_details@.len() == u[0]
                    &&& forall|i: int|
                        0 <= i < u[0] ==> (#[trigger] n.node_info_details@[i]).spec_decoded_from(
                            u.subrange(1 + 9 * i, 10 + 9 * i),
                        )
                }
            }),
    {
        app_data.check_min(1)?;
        let u = app_data.units_ref();
        let node_number = u[0];
        app_data.check(Afn::Report, ActiveReport::NodeInfo.code(), 1 + node_number as usize * NODE_INFO_SIZE)?;
        let mut details: Vec<ReportNodeInfoDetail> = Vec::new();
        let mut i: usize = 0;
        while i < node_number as usize
            invariant
                u@.len() == 1 + node_number * 9,
                i <= node_number,
                details@.len() == i,
                forall|j: int|
                    0 <= j < i ==> (#[trigger] details@[j]).spec_decoded_from(
                        u@.subrange(1 + 9 * j, 10 + 9 * j),
                    ),
            decreases node_number - i,
        {
            details.push(ReportNodeInfoDetail::from_bytes(u.as_slice(), 1 + NODE_INFO_SIZE * i));
            i = i + 1;
        }
        Ok(ReportNodeInfo { node_number, node_info_details: details })
    }
}

impl vstd::std_specs::convert::TryFromSpecImpl<AppData> for ReportNodeInfo {
    open spec fn obeys_try_from_spec() -> bool {
        false
    }

    open spec fn try_from_spec(app_data: AppData) -> Result<Self, Error> {
        arbitrary()
    }
}

/// Kinds of work whose state changed.
#[derive(Debug, Clone, Copy, PartialEq, Eq)]
pub enum WorkStatusType {
    Meter,
    Search,
    IdentifyArea,
    Other,
}

impl WorkStatusType {
    pub open spec fn spec_from_code(b: u8) -> Option<WorkStatusType> {
        if b == 1 {
            Some(WorkStatusType::Meter)
        } else if b == 2 {
            Some(WorkStatusType::Search)
        } else if b == 3 {
            Some(WorkStatusType::IdentifyArea)
        } else if b == 4 {
            Some(WorkStatusType::Other)
        } else {
            None
        }
    }
}

impl TryFrom<u8> for WorkStatusType {
    type Error = Error;

    fn try_from(b: u8) -> (r: Result<Self, Error>)
        ensures
            r matches Ok(t) ==> Self::spec_from_code(b) == Some(t),
            r is Err ==> Self::spec_from_code(b) is None && r == Err::<Self, Error>(
                Error::UnknownValue(ValueKind::WorkStatusType, b),
            ),
    {
        match b {
            1 => Ok(WorkStatusType::Meter),
            2 => Ok(WorkStatusType::Search),
            3 => Ok(WorkStatusType::IdentifyArea),
            4 => Ok(WorkStatusType::Other),
            _ => Err(Error::UnknownValue(ValueKind::WorkStatusType, b)),
        }
    }
}

impl vstd::std_specs::convert::TryFromSpecImpl<u8> for WorkStatusType {
    open spec fn obeys_try_from_spec() -> bool {
        true
    }

    open spec fn try_from_spec(b: u8) -> Result<Self, Error> {
        match Self::spec_from_code(b) {
            Some(v) => Ok(v),
            None => Err(Error::UnknownValue(ValueKind::WorkStatusType, b)),
        }
    }
}

/// A change of the module's work.
#[derive(Debug, Clone, Copy, PartialEq, Eq)]
pub struct ReportWorkStatus {
    pub work_status_type: WorkStatusType,
}

impl TryFrom<AppData> for ReportWorkStatus {
    type Error = Error;

    fn try_from(app_data: AppData) -> (r: Result<Self, Error>)
        ensures
            app_data.spec_check(Afn::Report, 3, 1) matches Err(e) ==> r == Err::<Self, Error>(e),
            app_data.spec_check(Afn::Report, 3, 1) is Ok ==> {
                let b = app_data.spec_units()[0];
                &&& r is Ok <==> WorkStatusType::spec_from_code(b) is Some
                &&& r matches Ok(w) ==> WorkStatusType::spec_from_code(b) == Some(w.work_status_type)
                &&& r is Err ==> r == Err::<Self, Error>(Error::UnknownValue(ValueKind::WorkStatusType, b))
            },
    {
        app_data.check(Afn::Report, ActiveReport::WorkStatus.code(), 1)?;
        let u = app_data.units_ref();
        Ok(ReportWorkStatus { work_status_type: WorkStatusType::try_from(u[0])? })
    }
}

impl vstd::std_specs::convert::TryFromSpecImpl<AppData> for ReportWorkStatus {
    open spec fn obeys_try_from_spec() -> bool {
        true
    }

    open spec fn try_from_spec(app_data: AppData) -> Result<Self, Error> {
        match app_data.spec_check(Afn::Report, 3, 1) {
            Err(e) => Err(e),
            Ok(()) => {
                let u = app_data.spec_units();
                match WorkStatusType::spec_from_code(u[0]) {
                    Some(t) => Ok(ReportWorkStatus { work_status_type: t }),
                    None => Err(Error::UnknownValue(ValueKind::WorkStatusType, u[0])),
                }
            },
        }
    }
}

pub const SLAVE_NODE_INFO_SIZE: usize = 7;

/// A node behind a reported node: address and protocol type.
#[derive(Debug, Clone, Copy, PartialEq, Eq)]
pub struct SlaveNodeCommInfo {
    pub address: Address,
    pub protocol_type: u8,
}

impl SlaveNodeCommInfo {
    pub open spec fn spec_decoded_from(self, d: Seq<u8>) -> bool {
        self.address.wire() == d.subrange(0, 6) && self.protocol_type == d[6]
    }

    /// Reads a node from seven bytes at `at`.
    pub fn from_bytes(data: &[u8], at: usize) -> (r: Self)
        requires
            at + 7 <= data@.len(),
        ensures
            r.spec_decoded_from(data@.subrange(at as int, at + 7)),
    {
        let n = data.len();
        assert(at + 6 < n);
        let address = address_at(data, at);
        assert(data@.subrange(at as int, at + 7).subrange(0, 6) =~= data@.subrange(at as int, at + 6));
        Self { address, protocol_type: data[at + 6] }
    }
}

/// A reported node with its device type and the nodes behind it.
#[derive(Debug, Clone, PartialEq, Eq)]
pub struct ReportNodeInfoAndDeviceType {
    pub node_number: u8,
    pub node_info: ReportNodeInfoDetail,
    pub device_type: u8,
    pub slave_node_count: u8,
    pub slave_node_number: u8,
    pub slave_node_comm_infos: Vec<SlaveNodeCommInfo>,
}

impl TryFrom<AppData> for ReportNodeInfoAndDeviceType {
    type Error = Error;

    fn try_from(app_data: AppData) -> (r: Result<Self, Error>)
        ensures
            ({
                let u = app_data.spec_units();
                let pre = match app_data.spec_check_min(13) {
                    Err(e) => Err(e),
                    Ok(_) => app_data.spec_check(Afn::Report, 4, (13 + u[12] * 7) as usize),
                };
                &&& r is Ok <==> pre is Ok
                &&& r matches Err(e) ==> pre == Err::<(), Error>(e)
                &&& r matches Ok(n) ==> {
                    &&& n.node_number == u[0]
                    &&& n.node_info.spec_decoded_from(u.subrange(1, 10))
                    &&& n.device_type == u[10]
                    &&& n.slave_node_count == u[11]
                    &&& n.slave_node_number == u[12]
                    &&& n.slave_node_comm_infos@.len() == u[12]
                    &&& forall|i: int|
                        0 <= i < u[12] ==> (#[trigger] n.slave_node_comm_infos@[i]).spec_decoded_from(
                            u.subrange(13 + 7 * i, 20 + 7 * i),
                        )
                }
            }),
    {
        app_data.check_min(13)?;
        let u = app_data.units_ref();
        let slave_node_number = u[12];
        app_data.check(
            Afn::Report,
            ActiveReport::NodeInfoAndDeviceType.code(),
            13 + slave_node_number as usize * SLAVE_NODE_INFO_SIZE,
        )?;
        let mut infos: Vec<SlaveNodeCommInfo> = Vec::new();
        let mut i: usize = 0;
        while i < slave_node_number as usize
            invariant
                u@.len() == 13 + slave_node_number * 7,
                i <= slave_node_number,
                infos@.len() == i,
                forall|j: int|
                    0 <= j < i ==> (#[trigger] infos@[j]).spec_decoded_from(
                        u@.subrange(13 + 7 * j, 20 + 7 * j),
                    ),
            decreases slave_node_number - i,
        {
            infos.push(SlaveNodeCommInfo::from_bytes(u.as_slice(), 13 + SLAVE_NODE_INFO_SIZE * i));
            i = i + 1;
        }
        Ok(ReportNodeInfoAndDeviceType {
            node_number: u[0],
            node_info: ReportNodeInfoDetail::from_bytes(u.as_slice(), 1),
            device_type: u[10],
            slave_node_count: u[11],
            slave_node_number,
            slave_node_comm_infos: infos,
        })
    }
}

impl vstd::std_specs::convert::TryFromSpecImpl<AppData> for ReportNodeInfoAndDeviceType {
    open spec fn obeys_try_from_spec() -> bool {
        false
    }

    open spec fn try_from_spec(app_data: AppData) -> Result<Self, Error> {
        arbitrary()
    }
}

/// An event a node reports: device type, protocol type, data length, data.
#[derive(Debug, Clone, PartialEq, Eq)]
pub struct SlaveNodeEvent {
    pub device_type: u8,
    pub protocol_type: u8,
    pub data_length: u8,
    pub data: Vec<u8>,
}

impl TryFrom<AppData> for SlaveNodeEvent {
    type Error = Error;

    fn try_from(app_data: AppData) -> (r: Result<Self, Error>)
        ensures
            ({
                let u = app_data.spec_units();
                let pre = match app_data.spec_check_min(3) {
                    Err(e) => Err(e),
                    Ok(_) => app_data.spec_check(Afn::Report, 5, (3 + u[2]) as usize),
                };
                &&& r is Ok <==> pre is Ok
                &&& r matches Err(e) ==> pre == Err::<(), Error>(e)
                &&& r matches Ok(v) ==> v.device_type == u[0] && v.protocol_type == u[1]
                    && v.data_length == u[2] && v.data@ == u.subrange(3, 3 + u[2])
            }),
    {
        app_data.check_min(3)?;
        let u = app_data.units_ref();
        let data_length = u[2];
        app_data.check(Afn::Report, ActiveReport::SlaveNodeEvent.code(), 3 + data_length as usize)?;
        let data = crate::bytes::copy_range(u.as_slice(), 3, 3 + data_length as usize);
        Ok(Self { device_type: u[0], protocol_type: u[1], data_length, data })
    }
}

impl vstd::std_specs::convert::TryFromSpecImpl<AppData> for SlaveNodeEvent {
    open spec fn obeys_try_from_spec() -> bool {
        false
    }

    open spec fn try_from_spec(app_data: AppData) -> Result<Self, Error> {
        arbitrary()
    }
}

} // verus!
