//! Events that meters report through the module.
use vstd::prelude::*;

use crate::error::Error;
use crate::mqtt_topic::app_name;
use crate::protocol::app_data::active_report::SlaveNodeEvent;
use crate::protocol::app_data::answer::ConfirmResponse;
use crate::protocol::app_data::{Afn, AppData};
use crate::protocol::frame::Frame;
use crate::request_info::{ReqInfo, UartMessage};
use crate::text::{hex_encode, owned, push_str, spec_hex};

verus! {

/// Reports of meter events.
#[derive(Debug, Clone, Copy, PartialEq, Eq)]
pub struct EventReport;

/// A meter event as it is reported: device and protocol types, and the event's
/// data in hexadecimal.
#[derive(Debug, Clone, PartialEq, Eq)]
pub struct MqttSlaveNodeEvent {
    pub device_type: u8,
    pub protocol_type: u8,
    pub data: String,
}

impl EventReport {
    /// The topic on which events are reported to every application.
    pub fn event_topic() -> (s: String)
        ensures
            s@ == crate::mqtt_topic::spec_app_name() + "/notify/spont/*/event"@,
    {
        let mut s = owned(app_name());
        push_str(&mut s, "/notify/spont/*/event");
        s
    }

    /// A meter's event report: the module is answered with a confirmation under
    /// the report's sequence number whatever the report holds; then the event.
    pub fn uart_slave_node_event_report<T, C>(message: UartMessage<T, C>) -> (r: (UartMessage<T, C>, Result<MqttSlaveNodeEvent, Error>))
        ensures
            r.0.frame.user_data.info_field.spec_seq_num() == message.frame.user_data.info_field.spec_seq_num(),
            r.0.frame.user_data.app_data.spec_has(
                Afn::Answer,
                1,
                Some(crate::bytes::be32_bytes(0) + crate::bytes::le16_bytes(0)),
            ),
            r.0.req_info.mqtt_req_info is None,
            ({
                let a = message.frame.user_data.app_data;
                let u = a.spec_units();
                let pre = match a.spec_check_min(3) {
                    Err(e) => Err(e),
                    Ok(_) => a.spec_check(Afn::Report, 5, (3 + u[2]) as usize),
                };
                &&& r.1 is Ok <==> pre is Ok
                &&& r.1 matches Err(e) ==> pre == Err::<(), Error>(e)
                &&& r.1 matches Ok(ev) ==> ev.device_type == u[0] && ev.protocol_type == u[1] && ev.data@
                    == spec_hex(u.subrange(3, 3 + u[2]), false)
            }),
    {
        let seq = message.frame.get_seq();
        let answer = AppData::from(ConfirmResponse { channel_status: 0, wait_time: 0 });
        let response_frame = Frame::new_response(seq, None, answer);
        let req_info = ReqInfo::new(&message.frame, None, None);
        let confirm = UartMessage::new(req_info, response_frame);
        let event = match SlaveNodeEvent::try_from(message.frame.into_app_data()) {
            Ok(e) => Ok(MqttSlaveNodeEvent {
                device_type: e.device_type,
                protocol_type: e.protocol_type,
                data: hex_encode(e.data.as_slice()),
            }),
            Err(e) => Err(e),
        };
        (confirm, event)
    }
}

} // verus!
