//! AFN 13H: frames forwarded to meters through the route (monitoring a node).
use vstd::prelude::*;

use crate::bytes::{le16, u16_from_le};
use crate::error::Error;
use crate::protocol::app_data::{Address, Afn, AppData};
use crate::protocol::user_data::{push_addresses, spec_addresses_wire};

verus! {

/// Function numbers of AFN 13H.
#[derive(Debug, Clone, Copy, PartialEq, Eq)]
pub enum DataForward {
    MonitorNode,
}

impl DataForward {
    pub open spec fn spec_code(self) -> u8 {
        1
    }

    pub fn code(self) -> (b: u8)
        ensures
            b == self.spec_code(),
    {
        1
    }
}

pub const PREFIX_LEN: usize = 4;

/// A meter frame to send to a node, with the nodes on the way.
#[derive(Debug, Clone, PartialEq, Eq)]
pub struct MonitorNodeRequest {
    pub protocol_type: u8,
    pub comm_delay_flag: u8,
    pub node_addrs: Vec<Address>,
    pub message: Vec<u8>,
}

impl From<MonitorNodeRequest> for AppData {
    /// Protocol type, delay flag, node count, node addresses (wire order),
    /// message length (one byte), message.
    fn from(req: MonitorNodeRequest) -> (a: AppData)
        ensures
            a.spec_has(
                Afn::RouteDataForward,
                1,
                Some(seq![req.protocol_type, req.comm_delay_flag, req.node_addrs@.len() as u8]
                    + spec_addresses_wire(req.node_addrs@) + seq![req.message@.len() as u8]
                    + req.message@),
            ),
    {
        let mut data = Vec::new();
        data.push(req.protocol_type);
        data.push(req.comm_delay_flag);
        data.push(req.node_addrs.len() as u8);
        push_addresses(&mut data, &req.node_addrs);
        data.push(req.message.len() as u8);
        crate::bytes::extend_bytes(&mut data, req.message.as_slice());
        assert(data@ =~= seq![req.protocol_type, req.comm_delay_flag, req.node_addrs@.len() as u8]
            + spec_addresses_wire(req.node_addrs@) + seq![req.message@.len() as u8] + req.message@);
        AppData::with_units(Afn::RouteDataForward, DataForward::MonitorNode.code(), data)
    }
}

impl vstd::std_specs::convert::FromSpecImpl<MonitorNodeRequest> for AppData {
    open spec fn obeys_from_spec() -> bool {
        false
    }

    open spec fn from_spec(req: MonitorNodeRequest) -> AppData {
        arbitrary()
    }
}

/// The node's answer: transit time, protocol type, message length, message.
#[derive(Debug, Clone, PartialEq, Eq)]
pub struct MonitorNodeResponse {
    pub up_time: u16,
    pub protocol_type: u8,
    pub message_len: u8,
    pub message: Vec<u8>,
}

impl TryFrom<AppData> for MonitorNodeResponse {
    type Error = Error;

    fn try_from(app_data: AppData) -> (r: Result<Self, Error>)
        ensures
            ({
                let u = app_data.spec_units();
                let pre = match app_data.spec_check_min(4) {
                    Err(e) => Err(e),
                    Ok(_) => app_data.spec_check(Afn::RouteDataForward, 1, (4 + u[3]) as usize),
                };
                &&& r is Ok <==> pre is Ok
                &&& r matches Err(e) ==> pre == Err::<(), Error>(e)
                &&& r matches Ok(m) ==> m.up_time == le16(u[0], u[1]) && m.protocol_type == u[2]
                    && m.message_len == u[3] && m.message@ == u.skip(4)
            }),
    {
        app_data.check_min(PREFIX_LEN)?;
        let u = app_data.units_ref();
        let message_len = u[3] as usize;
        app_data.check(Afn::RouteDataForward, DataForward::MonitorNode.code(), PREFIX_LEN + message_len)?;
        let message = crate::bytes::copy_range(u.as_slice(), PREFIX_LEN, u.len());
        assert(message@ =~= app_data.spec_units().skip(4));
        Ok(MonitorNodeResponse {
            up_time: u16_from_le(u[0], u[1]),
            protocol_type: u[2],
            message_len: message_len as u8,
            message,
        })
    }
}

impl vstd::std_specs::convert::TryFromSpecImpl<AppData> for MonitorNodeResponse {
    open spec fn obeys_try_from_spec() -> bool {
        false
    }

    open spec fn try_from_spec(app_data: AppData) -> Result<Self, Error> {
        arbitrary()
    }
}

} // verus!
