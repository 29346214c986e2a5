//! Sending a raw frame for debugging, and answering with the module's reply.
use vstd::prelude::*;

use crate::error::Error;
use crate::mqtt_message::{json_object, json_object_text, spec_members, spec_status_members, status_members, timestamp, MqttMessage};
use crate::protocol::app_data::Afn;
use crate::protocol::frame::Frame;
use crate::request_info::{FrameKey, MqttReqInfo, ReqInfo, UartMessage};
use crate::text::{hex_decode_checked, hex_encode, owned, spec_hex, spec_hex_decode_checked, spec_is_ascii};

verus! {

/// Raw frames in both directions.
#[derive(Debug, Clone, Copy, PartialEq, Eq)]
pub struct DebugMethod;

/// Whether a frame text can be handed to the frame decoder once it decodes as
/// hexadecimal.
pub open spec fn spec_debug_frame_decodable(frame_hex: Seq<char>) -> bool {
    spec_hex_decode_checked(frame_hex) matches Ok(b) ==> !Frame::spec_decode_panics(b)
}

/// The answer payload with the module's frame in hexadecimal.
pub open spec fn spec_debug_payload(token: Seq<char>, ts: Seq<char>, frame: Seq<char>) -> Seq<char> {
    json_object_text(spec_status_members(token, ts, "OK"@, "OK"@) + seq![("frame"@, Some(frame))])
}

impl DebugMethod {
    /// Whether a frame text can be handed to the frame decoder once it decodes.
    pub fn frame_decodable(frame_hex: &str) -> (b: bool)
        ensures
            b == spec_debug_frame_decodable(frame_hex@),
    {
        match hex_decode_checked(frame_hex) {
            Ok(bytes) => Frame::decodable(bytes.as_slice()),
            Err(_) => true,
        }
    }

    /// The frame that a request carries (hexadecimal), sent as it is; its answer is
    /// looked up under the test key. A text that is no hexadecimal, or no frame, is
    /// an error.
    pub fn mqtt_debug_frame_request<C>(frame_hex: &str, message: &MqttMessage) -> (r: Result<UartMessage<(), C>, Error>)
        requires
            spec_is_ascii(frame_hex@),
            spec_debug_frame_decodable(frame_hex@),
            message.spec_answerable(),
        ensures
            match spec_hex_decode_checked(frame_hex@) {
                Err(e) => r == Err::<UartMessage<(), C>, Error>(Error::Hex(e)),
                Ok(b) => match Frame::spec_decode_error(b) {
                    Some(e) => r == Err::<UartMessage<(), C>, Error>(e),
                    None => {
                        &&& r matches Ok(m)
                        &&& m.frame.spec_decoded_from(b)
                        &&& m.req_info.frame_key == FrameKey(Afn::Test.spec_code(), 0)
                        &&& m.req_info.mqtt_req_info matches Some(i)
                        &&& i.topic@ == crate::mqtt_topic::spec_transfer_text(message.topic@)
                        &&& Some(i.token@) == message.spec_token()
                    },
                },
            },
    {
        let bytes = match hex_decode_checked(frame_hex) {
            Ok(b) => b,
            Err(e) => return Err(Error::Hex(e)),
        };
        let frame = Frame::from_bytes(bytes.as_slice())?;
        let req_info = ReqInfo::new_with_key(&frame, FrameKey::new(Afn::Test.code(), 0), Some(message.to_mqtt_req_info()));
        Ok(UartMessage::new(req_info, frame))
    }

    /// The module's reply, in hexadecimal, answered on the request's answer topic.
    pub fn uart_debug_frame_response<T, C>(message: UartMessage<T, C>) -> (m: MqttMessage)
        requires
            message.req_info.mqtt_req_info is Some,
        ensures
            m.topic == message.req_info.mqtt_req_info->0.topic,
            exists|ts: Seq<char>|
                m.payload@ == spec_debug_payload(
                    message.req_info.mqtt_req_info->0.token@,
                    ts,
                    spec_hex(message.frame.spec_bytes(), false),
                ),
    {
        let UartMessage { req_info, frame, .. } = message;
        let text = hex_encode(frame.to_bytes().as_slice());
        let info = match req_info.into_mqtt_req_info() {
            Some(i) => i,
            None => {
                assert(false);
                return MqttMessage { topic: String::new(), payload: String::new() };
            },
        };
        let MqttReqInfo { topic, token, extra_data: _ } = info;
        let ts = timestamp();
        let mut members = status_members(token.as_str(), ts.as_str(), "OK", "OK");
        let ghost before = spec_members(members@);
        members.push((owned("frame"), Some(text)));
        assert(spec_members(members@) =~= before + seq![("frame"@, Some(spec_hex(frame.spec_bytes(), false)))]);
        let m = MqttMessage { topic, payload: json_object(members) };
        assert(m.payload@ == spec_debug_payload(token@, ts@, spec_hex(frame.spec_bytes(), false)));
        m
    }
}

} // verus!
