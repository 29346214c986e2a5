//! Bookkeeping for requests in flight: what was asked, and whom to answer.
use vstd::prelude::*;

use crate::error::{Error, ValueKind};
use crate::mqtt_message::{status_payload_text, MqttMessage, STATUS_FAILURE};
use crate::mqtt_topic::{spec_topic_parse, spec_transfer_text, MqttTopic};
use crate::protocol::app_data::Afn;
use crate::protocol::frame::Frame;

verus! {

/// Function code and function number of a frame: what a response is matched on.
#[derive(Debug, Clone, Copy, PartialEq, Eq, Default)]
pub struct FrameKey(pub u8, pub u8);

impl FrameKey {
    pub fn new(afn: u8, fn_num: u8) -> (k: Self)
        ensures
            k == FrameKey(afn, fn_num),
    {
        FrameKey(afn, fn_num)
    }

    pub fn afn(&self) -> (a: u8)
        ensures
            a == self.0,
    {
        self.0
    }

    pub fn fn_num(&self) -> (n: u8)
        ensures
            n == self.1,
    {
        self.1
    }

    /// The key as function code and number; the code must be a known one.
    pub fn to_tuple(&self) -> (t: (Afn, u8))
        requires
            Afn::spec_from_code(self.0) is Some,
        ensures
            Some(t.0) == Afn::spec_from_code(self.0),
            t.1 == self.1,
    {
        match Afn::from_code(self.0) {
            Some(a) => (a, self.1),
            None => {
                assert(false);
                (Afn::Answer, self.1)
            },
        }
    }
}

/// Whom to answer for an MQTT request: the answer topic, the request's token and
/// whatever the handler keeps until the answer.
#[derive(Debug)]
pub struct MqttReqInfo<T> {
    pub topic: String,
    pub token: String,
    pub extra_data: Option<T>,
}

impl<T> MqttReqInfo<T> {
    /// Keeps the answer topic of a request's topic, which must be valid.
    pub fn new(topic: &str, token: String, extra_data: Option<T>) -> (r: Self)
        requires
            spec_topic_parse(topic@) is Ok,
        ensures
            r.topic@ == spec_transfer_text(topic@),
            r.token == token,
            r.extra_data == extra_data,
    {
        MqttReqInfo { topic: MqttTopic::transfer(topic), token, extra_data }
    }

    pub fn topic(&self) -> (s: &str)
        ensures
            s@ == self.topic@,
    {
        self.topic.as_str()
    }

    pub fn token(&self) -> (s: &str)
        ensures
            s@ == self.token@,
    {
        self.token.as_str()
    }

    pub fn extra_data(&self) -> (e: Option<&T>)
        ensures
            e matches Some(x) ==> self.extra_data == Some(*x),
            e is None <==> self.extra_data is None,
    {
        match &self.extra_data {
            Some(x) => Some(x),
            None => None,
        }
    }

    /// Takes the kept data out, leaving none.
    pub fn get_extra_data(&mut self) -> (e: Option<T>)
        ensures
            e == old(self).extra_data,
            final(self).extra_data is None,
            final(self).topic == old(self).topic,
            final(self).token == old(self).token,
    {
        self.extra_data.take()
    }

    pub fn set_extra_data(&mut self, extra_data: Option<T>)
        ensures
            final(self).extra_data == extra_data,
            final(self).topic == old(self).topic,
            final(self).token == old(self).token,
    {
        self.extra_data = extra_data;
    }
}

/// A request sent on the serial line: the MQTT request it serves (none for the
/// service's own requests), the frame's key and sequence number, and what to do if
/// no answer comes.
pub struct ReqInfo<T, C> {
    pub mqtt_req_info: Option<MqttReqInfo<T>>,
    pub frame_key: FrameKey,
    pub seq_num: u8,
    pub timeout_cb: Option<C>,
}

impl<T, C> ReqInfo<T, C> {
    pub fn new(frame: &Frame, mqtt_req_info: Option<MqttReqInfo<T>>, timeout_cb: Option<C>) -> (r: Self)
        ensures
            r.mqtt_req_info == mqtt_req_info,
            r.frame_key == FrameKey(
                frame.user_data.app_data.spec_afn().spec_code(),
                frame.user_data.app_data.spec_fn_num() as u8,
            ),
            r.seq_num == frame.user_data.info_field.spec_seq_num(),
            r.timeout_cb == timeout_cb,
    {
        ReqInfo {
            mqtt_req_info,
            frame_key: FrameKey::new(frame.afn().code(), frame.fn_num()),
            seq_num: frame.get_seq(),
            timeout_cb,
        }
    }

    /// A request whose answer is looked up under `frame_key` instead of the frame's own.
    pub fn new_with_key(frame: &Frame, frame_key: FrameKey, mqtt_req_info: Option<MqttReqInfo<T>>) -> (r: Self)
        ensures
            r.mqtt_req_info == mqtt_req_info,
            r.frame_key == frame_key,
            r.seq_num == frame.user_data.info_field.spec_seq_num(),
            r.timeout_cb is None,
    {
        ReqInfo { mqtt_req_info, frame_key, seq_num: frame.get_seq(), timeout_cb: None }
    }

    /// A request that serves an MQTT request on `topic` with `token`.
    pub fn new_with_mqtt(
        frame: &Frame,
        topic: &str,
        token: &str,
        extra_data: Option<T>,
        timeout_cb: Option<C>,
    ) -> (r: Self)
        requires
            spec_topic_parse(topic@) is Ok,
        ensures
            r.mqtt_req_info matches Some(m) && m.topic@ == spec_transfer_text(topic@) && m.token@
                == token@ && m.extra_data == extra_data,
            r.frame_key == FrameKey(
                frame.user_data.app_data.spec_afn().spec_code(),
                frame.user_data.app_data.spec_fn_num() as u8,
            ),
            r.seq_num == frame.user_data.info_field.spec_seq_num(),
            r.timeout_cb == timeout_cb,
    {
        ReqInfo {
            mqtt_req_info: Some(MqttReqInfo::new(topic, crate::text::owned(token), extra_data)),
            frame_key: FrameKey::new(frame.afn().code(), frame.fn_num()),
            seq_num: frame.get_seq(),
            timeout_cb,
        }
    }

    /// Whether the request is the service's own (no MQTT request behind it).
    pub fn is_init(&self) -> (b: bool)
        ensures
            b == self.mqtt_req_info is None,
    {
        self.mqtt_req_info.is_none()
    }

    pub fn into_mqtt_req_info(self) -> (m: Option<MqttReqInfo<T>>)
        ensures
            m == self.mqtt_req_info,
    {
        self.mqtt_req_info
    }

    pub fn frame_key(&self) -> (k: &FrameKey)
        ensures
            *k == self.frame_key,
    {
        &self.frame_key
    }

    pub fn seq_num(&self) -> (s: u8)
        ensures
            s == self.seq_num,
    {
        self.seq_num
    }

    pub fn mqtt_req_info(&self) -> (m: Option<&MqttReqInfo<T>>)
        ensures
            m matches Some(x) ==> self.mqtt_req_info == Some(*x),
            m is None <==> self.mqtt_req_info is None,
    {
        match &self.mqtt_req_info {
            Some(x) => Some(x),
            None => None,
        }
    }
}

/// A frame to send with its bookkeeping, and the time (seconds) to wait for its
/// answer where the request sets one (otherwise the line's own).
pub struct UartMessage<T, C> {
    pub req_info: ReqInfo<T, C>,
    pub frame: Frame,
    pub timeout: Option<u32>,
}

impl<T, C> UartMessage<T, C> {
    pub fn new(req_info: ReqInfo<T, C>, frame: Frame) -> (m: Self)
        ensures
            m.req_info == req_info,
            m.frame == frame,
            m.timeout is None,
    {
        UartMessage { req_info, frame, timeout: None }
    }

    /// A request whose answer is waited for `timeout` seconds.
    pub fn new_with_timeout(req_info: ReqInfo<T, C>, frame: Frame, timeout: u32) -> (m: Self)
        ensures
            m.req_info == req_info,
            m.frame == frame,
            m.timeout == Some(timeout),
    {
        UartMessage { req_info, frame, timeout: Some(timeout) }
    }
}

/// The failure answer for a request that timed out: on its answer topic, with its
/// token, status `FAILURE` and reason `request timeout`.
pub fn timeout_handler<T>(mqtt_req_info: MqttReqInfo<T>) -> (m: MqttMessage)
    ensures
        m.topic == mqtt_req_info.topic,
        exists|ts: Seq<char>|
            m.payload@ == status_payload_text(
                mqtt_req_info.token@,
                ts,
                STATUS_FAILURE@,
                "request timeout"@,
            ),
{
    MqttMessage::new_with_req_info_status_reason(mqtt_req_info, STATUS_FAILURE, "request timeout")
}

} // verus!
