//! Monitoring a node through the route: the delay the route reports and the
//! meter's answer.
use vstd::prelude::*;

use crate::error::{Error, MqttResponseError};
use crate::mqtt_message::MqttMessage;
use crate::protocol::app_data::route_data_forward::{MonitorNodeRequest, MonitorNodeResponse};
use crate::protocol::app_data::{Address, Afn, AppData};
use crate::protocol::frame::{Frame, FrameSeq};
use crate::protocol::user_data::AddressField;
use crate::request_info::{ReqInfo, UartMessage};
use crate::service::parse_response::{spec_deny, spec_is_deny, UartResponse};
use crate::text::{hex_decode, hex_encode, spec_hex, spec_hex_decode, spec_is_hex};

verus! {

/// What a monitored node produced: the route's delay, or the meter's answer in
/// hexadecimal.
#[derive(Debug, Clone, PartialEq, Eq)]
pub enum MonitorNodeResult {
    Delay(u16),
    Data(String),
}

/// The outcome awaited by a node monitoring request.
#[derive(Debug, Clone, PartialEq, Eq)]
pub struct MonitorNode {
    pub response: Option<Result<MonitorNodeResult, Error>>,
}

impl MonitorNode {
    pub fn new() -> (m: Self)
        ensures
            m.response is None,
    {
        MonitorNode { response: None }
    }

    /// The request that monitors a node: the meter frame (hexadecimal) under its
    /// protocol type, addressed from the master node to the meter; `with_delay`
    /// asks the route for the delay first.
    pub fn monitor_node_request<T, C>(
        master_address: Address,
        message: &MqttMessage,
        acq_addr: &str,
        pro_type: u8,
        data: &str,
        with_delay: bool,
        seq: &mut FrameSeq,
    ) -> (m: UartMessage<T, C>)
        requires
            message.spec_answerable(),
            Address::spec_is_address_text(acq_addr@),
            spec_is_hex(data@),
            data@.len() + 256 <= usize::MAX,
        ensures
            m.frame.user_data.address_field matches Some(f) && f.src_address == master_address
                && f.relay_address is None && f.dst_address.0@ == spec_hex_decode(acq_addr@),
            m.frame.user_data.app_data.spec_afn() == Afn::RouteDataForward,
            m.frame.user_data.app_data.spec_fn_num() == 1,
            m.req_info.mqtt_req_info is Some,
            m.req_info.seq_num == old(seq).spec_next(),
    {
        let node = Address::from_hex(acq_addr);
        let bytes = hex_decode(data);
        proof {
            crate::text::lemma_hex_decode_len(data@);
        }
        let mut node_addrs = Vec::new();
        node_addrs.push(node);
        let ghost node_addrs_view = node_addrs@;
        let request = MonitorNodeRequest {
            protocol_type: pro_type,
            comm_delay_flag: if with_delay {
                1
            } else {
                0
            },
            node_addrs,
            message: bytes,
        };
        let app_data = AppData::from(request);
        let af = AddressField::new(master_address, None, node);
        proof {
            crate::protocol::laws::lemma_address_field_len(af);
            crate::protocol::laws::lemma_addresses_wire_len(node_addrs_view);
            crate::protocol::app_data::lemma_fn_num_roundtrip(1);
        }
        let frame = Frame::new_request(seq, Some(af), app_data);
        let req_info = ReqInfo::new(&frame, Some(message.to_mqtt_req_info()), None);
        UartMessage::new(req_info, frame)
    }

    /// The route reported the delay.
    pub fn uart_notify_monitor_node_dalay(&mut self, delay: u16)
        ensures
            final(self).response == Some(Ok::<MonitorNodeResult, Error>(MonitorNodeResult::Delay(delay))),
    {
        self.response = Some(Ok(MonitorNodeResult::Delay(delay)));
    }

    /// The meter's answer arrived (or a denial).
    pub fn uart_get_monitor_node_data<T, C>(&mut self, message: UartMessage<T, C>) -> (r: Result<(), Error>)
        ensures
            ({
                let a = message.frame.user_data.app_data;
                let u = a.spec_units();
                let pre = match a.spec_check_min(4) {
                    Err(e) => Err(e),
                    Ok(_) => a.spec_check(Afn::RouteDataForward, 1, (4 + u[3]) as usize),
                };
                &&& !spec_is_deny(message.frame) ==> {
                    &&& r is Ok <==> pre is Ok
                    &&& r matches Err(e) ==> pre == Err::<(), Error>(e) && *final(self) == *old(self)
                    &&& r is Ok ==> (final(self).response matches Some(Ok(MonitorNodeResult::Data(s)))
                        && s@ == spec_hex(u.skip(4), false))
                }
                &&& spec_is_deny(message.frame) ==> match spec_deny(a) {
                    Ok(d) => r is Ok && final(self).response == Some(
                        Err::<MonitorNodeResult, Error>(Error::Denied(d.error_code)),
                    ),
                    Err(e) => r == Err::<(), Error>(e) && *final(self) == *old(self),
                }
            }),
    {
        match UartResponse::from_frame(message.frame)? {
            UartResponse::Normal(a) => {
                let m = MonitorNodeResponse::try_from(a)?;
                self.response = Some(Ok(MonitorNodeResult::Data(hex_encode(m.message.as_slice()))));
            },
            UartResponse::Deny(d) => {
                self.response = Some(Err(Error::Denied(d.error_code)));
            },
        }
        Ok(())
    }

    /// The meter did not answer in time.
    pub fn uart_monitor_node_timeout(&mut self)
        ensures
            final(self).response == Some(Err::<MonitorNodeResult, Error>(Error::Response(MqttResponseError::Timeout))),
    {
        self.response = Some(Err(Error::Response(MqttResponseError::Timeout)));
    }
}

} // verus!
