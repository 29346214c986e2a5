//! Broadcasts: asking the module how long a broadcast would take, and sending one.
use vstd::prelude::*;

use crate::error::Error;
use crate::mqtt_message::MqttMessage;
use crate::protocol::app_data::ctrl_cmd::BroadcastRequest;
use crate::protocol::app_data::query_data::{BroadcastDelayRequest, BroadcastDelayResponse};
use crate::protocol::app_data::{Afn, AppData};
use crate::protocol::frame::FrameSeq;
use crate::request_info::UartMessage;
use crate::service::parse_response::{mqtt_request_uart_handler, spec_deny, spec_is_deny, UartResponse};
use crate::text::{hex_decode, spec_hex_decode, spec_is_hex};

verus! {

/// Requests for broadcasts and the reading of their answers.
#[derive(Debug, Clone, Copy, PartialEq, Eq)]
pub struct Broadcast;

/// Whether a broadcast's message can be sent: hexadecimal, and fitting a frame in memory.
pub open spec fn spec_broadcast_data(data: Seq<char>) -> bool {
    spec_is_hex(data) && data.len() + 256 <= usize::MAX
}

impl Broadcast {
    /// Asks how long broadcasting the message (hexadecimal) in its protocol type
    /// would take, answered on the request's answer topic.
    pub fn mqtt_get_broadcast_delay<T, C>(pro_type: u8, data: &str, message: &MqttMessage, seq: &mut FrameSeq) -> (m: UartMessage<T, C>)
        requires
            spec_broadcast_data(data@),
            message.spec_answerable(),
        ensures
            ({
                let b = spec_hex_decode(data@);
                m.frame.user_data.app_data.spec_has(Afn::QueryData, 9, Some(seq![pro_type, b.len() as u8] + b))
            }),
            m.req_info.mqtt_req_info matches Some(i) && i.topic@ == crate::mqtt_topic::spec_transfer_text(
                message.topic@,
            ) && Some(i.token@) == message.spec_token(),
            m.req_info.seq_num == old(seq).spec_next(),
    {
        proof {
            crate::text::lemma_hex_decode_len(data@);
        }
        let a = AppData::from(BroadcastDelayRequest::new(pro_type, hex_decode(data)));
        mqtt_request_uart_handler(a, message, seq)
    }

    /// The module's answer: the delay (seconds), or its denial.
    pub fn uart_broadcast_delay_response<T, C>(message: UartMessage<T, C>) -> (r: Result<UartResponse<u16>, Error>)
        ensures
            spec_is_deny(message.frame) ==> match spec_deny(message.frame.user_data.app_data) {
                Ok(d) => r == Ok::<_, Error>(UartResponse::<u16>::Deny(d)),
                Err(e) => r == Err::<UartResponse<u16>, Error>(e),
            },
            !spec_is_deny(message.frame) ==> {
                let a = message.frame.user_data.app_data;
                let u = a.spec_units();
                let pre = match a.spec_check_min(4) {
                    Err(e) => Err(e),
                    Ok(_) => a.spec_check(Afn::QueryData, 9, (4 + u[3]) as usize),
                };
                &&& r is Ok <==> pre is Ok
                &&& r matches Err(e) ==> pre == Err::<(), Error>(e)
                &&& r matches Ok(resp) ==> resp == UartResponse::<u16>::Normal(crate::bytes::le16(u[0], u[1]))
            },
    {
        match UartResponse::from_frame(message.frame)? {
            UartResponse::Normal(a) => {
                let d = BroadcastDelayResponse::try_from(a)?;
                Ok(UartResponse::Normal(d.delay))
            },
            UartResponse::Deny(d) => Ok(UartResponse::Deny(d)),
        }
    }

    /// Broadcasts the message (hexadecimal) in its protocol type, answered on the
    /// request's answer topic.
    pub fn mqtt_broadcast_cmd<T, C>(pro_type: u8, data: &str, message: &MqttMessage, seq: &mut FrameSeq) -> (m: UartMessage<T, C>)
        requires
            spec_broadcast_data(data@),
            message.spec_answerable(),
        ensures
            ({
                let b = spec_hex_decode(data@);
                m.frame.user_data.app_data.spec_has(Afn::CtrlCmd, 3, Some(seq![pro_type, b.len() as u8] + b))
            }),
            m.req_info.mqtt_req_info matches Some(i) && i.topic@ == crate::mqtt_topic::spec_transfer_text(
                message.topic@,
            ) && Some(i.token@) == message.spec_token(),
            m.req_info.seq_num == old(seq).spec_next(),
    {
        proof {
            crate::text::lemma_hex_decode_len(data@);
        }
        let a = AppData::from(BroadcastRequest::new(pro_type, hex_decode(data)));
        mqtt_request_uart_handler(a, message, seq)
    }
}

} // verus!
