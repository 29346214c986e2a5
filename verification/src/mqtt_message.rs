//! MQTT messages: a topic and a JSON payload.
use vstd::prelude::*;

use crate::mqtt_topic::{spec_topic_parse, spec_transfer_text, MqttTopic};
use crate::request_info::MqttReqInfo;
use crate::text::owned;

verus! {

/// The text of the string member `key` of the JSON object that `payload` holds; none
/// where the payload is not JSON or has no such string member.
pub uninterp spec fn json_str_member(payload: Seq<char>, key: Seq<char>) -> Option<Seq<char>>;

/// Reads the string member `key` of the JSON object in `payload`
/// (`serde_json::from_str`, then the member as a string).
/// Trusted: the result is the member named by `json_str_member`.
#[verifier::external_body]
fn json_str_field(payload: &str, key: &str) -> (r: Option<String>)
    ensures
        r matches Some(s) ==> json_str_member(payload@, key@) == Some(s@),
        r is None ==> json_str_member(payload@, key@) is None,
{
    let v: serde_json::Value = serde_json::from_str(payload).ok()?;
    v.get(key).and_then(|x| x.as_str()).map(|s| s.to_string())
}

/// The unsigned integer member `key` of the JSON object that `payload` holds:
/// none where the payload is not JSON, `Some(None)` where it is JSON without such
/// a member.
pub uninterp spec fn json_u64_member(payload: Seq<char>, key: Seq<char>) -> Option<Option<u64>>;

/// Reads the unsigned integer member `key` of the JSON document in `payload`
/// (`serde_json::from_str`, then the member as a `u64`).
/// Trusted: the result is the member named by `json_u64_member`.
#[verifier::external_body]
fn json_u64_field(payload: &str, key: &str) -> (r: Option<Option<u64>>)
    ensures
        r == json_u64_member(payload@, key@),
{
    let v: serde_json::Value = serde_json::from_str(payload).ok()?;
    Some(v.get(key).and_then(|x| x.as_u64()))
}

/// The JSON text of an object whose members are the given keys, each with a string
/// value or `null` (`None`), written in the order given (a repeated key keeps its
/// first place and takes its last value).
pub uninterp spec fn json_object_text(members: Seq<(Seq<char>, Option<Seq<char>>)>) -> Seq<char>;

/// An optional text as a value.
pub open spec fn spec_opt_text(o: Option<String>) -> Option<Seq<char>> {
    match o {
        Some(s) => Some(s@),
        None => None,
    }
}

/// The members as values.
pub open spec fn spec_members(members: Seq<(String, Option<String>)>) -> Seq<(Seq<char>, Option<Seq<char>>)> {
    members.map_values(|m: (String, Option<String>)| (m.0@, spec_opt_text(m.1)))
}

/// Writes a JSON object (`serde_json::Value::to_string` on the object that holds
/// each key with its value as a JSON string, or `null` for `None`).
/// Trusted: the text is the one named by `json_object_text`.
#[verifier::external_body]
pub(crate) fn json_object(members: Vec<(String, Option<String>)>) -> (r: String)
    ensures
        r@ == json_object_text(spec_members(members@)),
{
    let m: serde_json::Map<String, serde_json::Value> = members
        .into_iter()
        .map(|(k, v)| (k, v.map_or(serde_json::Value::Null, serde_json::Value::String)))
        .collect();
    serde_json::Value::Object(m).to_string()
}

/// The members of an answer payload: token, timestamp, status and reason.
pub open spec fn spec_status_members(
    token: Seq<char>,
    timestamp: Seq<char>,
    status: Seq<char>,
    reason: Seq<char>,
) -> Seq<(Seq<char>, Option<Seq<char>>)> {
    seq![("token"@, Some(token)), ("timestamp"@, Some(timestamp)), ("status"@, Some(status)), ("reason"@, Some(reason))]
}

/// The JSON text of an answer payload with the given token, timestamp, status and reason.
pub open spec fn status_payload_text(
    token: Seq<char>,
    timestamp: Seq<char>,
    status: Seq<char>,
    reason: Seq<char>,
) -> Seq<char> {
    json_object_text(spec_status_members(token, timestamp, status, reason))
}

/// The members of an answer payload, as strings.
pub(crate) fn status_members(token: &str, timestamp: &str, status: &str, reason: &str) -> (r: Vec<(String, Option<String>)>)
    ensures
        spec_members(r@) == spec_status_members(token@, timestamp@, status@, reason@),
{
    let mut v: Vec<(String, Option<String>)> = Vec::new();
    v.push((owned("token"), Some(owned(token))));
    v.push((owned("timestamp"), Some(owned(timestamp))));
    v.push((owned("status"), Some(owned(status))));
    v.push((owned("reason"), Some(owned(reason))));
    assert(spec_members(v@) =~= spec_status_members(token@, timestamp@, status@, reason@));
    v
}

/// Writes an answer payload as a JSON object of four string members.
pub(crate) fn status_payload(token: &str, timestamp: &str, status: &str, reason: &str) -> (r: String)
    ensures
        r@ == status_payload_text(token@, timestamp@, status@, reason@),
{
    json_object(status_members(token, timestamp, status, reason))
}

/// The local time in RFC 3339 form with milliseconds (`chrono::Local::now`).
/// Nothing is stated of it: it is the clock's.
#[verifier::external_body]
pub(crate) fn timestamp() -> (r: String) {
    chrono::Local::now().to_rfc3339_opts(chrono::SecondsFormat::Millis, false)
}

/// Status of an answer that failed.
pub const STATUS_FAILURE: &'static str = "FAILURE";

/// Status of an answer that succeeded.
pub const STATUS_OK: &'static str = "OK";

/// The member that carries a message's token.
pub open spec fn spec_token_key() -> Seq<char> {
    seq!['t', 'o', 'k', 'e', 'n']
}

fn token_key() -> (k: &'static str)
    ensures
        k@ == spec_token_key(),
{
    proof {
        reveal_strlit("token");
    }
    "token"
}

/// The member that carries a message's priority.
pub open spec fn spec_prio_key() -> Seq<char> {
    seq!['p', 'r', 'i', 'o']
}

fn prio_key() -> (k: &'static str)
    ensures
        k@ == spec_prio_key(),
{
    proof {
        reveal_strlit("prio");
    }
    "prio"
}

/// A message received from or sent to the broker.
#[derive(Debug, Clone, PartialEq, Eq)]
pub struct MqttMessage {
    pub topic: String,
    pub payload: String,
}

impl MqttMessage {
    /// The token that the payload carries, if it is JSON with a string token.
    pub open spec fn spec_token(self) -> Option<Seq<char>> {
        json_str_member(self.payload@, spec_token_key())
    }

    /// The payload's priority member: none where the payload is not JSON.
    pub open spec fn spec_priority(self) -> Option<Option<u64>> {
        json_u64_member(self.payload@, spec_prio_key())
    }

    /// Whether the message can be answered: a valid topic and a token.
    pub open spec fn spec_answerable(self) -> bool {
        spec_topic_parse(self.topic@) is Ok && self.spec_token() is Some
    }

    /// Whether the message can be answered.
    pub fn answerable(&self) -> (b: bool)
        ensures
            b == self.spec_answerable(),
    {
        let r: Option<MqttReqInfo<()>> = self.try_to_mqtt_req_info();
        r.is_some()
    }

    pub fn new(topic: &str, payload: &str) -> (m: Self)
        ensures
            m.topic@ == topic@,
            m.payload@ == payload@,
    {
        MqttMessage { topic: owned(topic), payload: owned(payload) }
    }

    pub fn topic(&self) -> (s: &str)
        ensures
            s@ == self.topic@,
    {
        self.topic.as_str()
    }

    pub fn payload(&self) -> (s: &str)
        ensures
            s@ == self.payload@,
    {
        self.payload.as_str()
    }

    pub fn set_payload(&mut self, payload: String)
        ensures
            final(self).topic == old(self).topic,
            final(self).payload == payload,
    {
        self.payload = payload;
    }

    /// Replaces the payload with a plain answer made now: the token, the status of
    /// the outcome and the message.
    pub fn set_response_payload(&mut self, token: &str, status: bool, msg: Option<String>)
        ensures
            final(self).topic == old(self).topic,
            exists|ts: Seq<char>|
                final(self).payload@ == json_object_text(
                    seq![
                        ("token"@, Some(token@)),
                        ("timestamp"@, Some(ts)),
                        ("status"@, Some(spec_status_text(status))),
                        ("msg"@, spec_opt_text(msg)),
                    ],
                ),
    {
        let response = MqttCommonResponse::new(owned(token), status, msg);
        let payload = response.to_json();
        assert(response.spec_members() =~= seq![
            ("token"@, Some(token@)),
            ("timestamp"@, Some(response.timestamp@)),
            ("status"@, Some(spec_status_text(status))),
            ("msg"@, spec_opt_text(response.msg)),
        ]);
        self.set_payload(payload);
    }

    /// The payload's token, which must be there.
    pub fn get_token(&self) -> (t: String)
        requires
            self.spec_token() is Some,
        ensures
            Some(t@) == self.spec_token(),
    {
        match json_str_field(self.payload.as_str(), token_key()) {
            Some(t) => t,
            None => {
                assert(false);
                String::new()
            },
        }
    }

    /// The payload's token, where it has one.
    pub fn try_get_token(&self) -> (t: Option<String>)
        ensures
            t is Some <==> self.spec_token() is Some,
            t matches Some(s) ==> Some(s@) == self.spec_token(),
    {
        match json_str_field(self.payload.as_str(), token_key()) {
            Some(_) => Some(self.get_token()),
            None => None,
        }
    }

    /// The payload's priority, 0 when it has none; the payload must be JSON.
    pub fn get_priority(&self) -> (p: u64)
        requires
            self.spec_priority() is Some,
        ensures
            p == match self.spec_priority()->0 {
                Some(v) => v,
                None => 0,
            },
    {
        match json_u64_field(self.payload.as_str(), prio_key()) {
            Some(Some(v)) => v,
            Some(None) => 0,
            None => {
                assert(false);
                0
            },
        }
    }

    /// The payload's priority, where the payload is JSON.
    pub fn try_get_priority(&self) -> (p: Option<u64>)
        ensures
            p is Some <==> self.spec_priority() is Some,
            p matches Some(v) ==> v == match self.spec_priority()->0 {
                Some(x) => x,
                None => 0,
            },
    {
        match json_u64_field(self.payload.as_str(), prio_key()) {
            Some(_) => Some(self.get_priority()),
            None => None,
        }
    }

    /// Where and with what token to answer this message.
    pub fn to_mqtt_req_info<T>(&self) -> (r: MqttReqInfo<T>)
        requires
            self.spec_answerable(),
        ensures
            r.topic@ == spec_transfer_text(self.topic@),
            Some(r.token@) == self.spec_token(),
            r.extra_data is None,
    {
        MqttReqInfo::new(self.topic.as_str(), self.get_token(), None)
    }

    /// Where and with what token to answer this message, where it can be answered.
    pub fn try_to_mqtt_req_info<T>(&self) -> (r: Option<MqttReqInfo<T>>)
        ensures
            r is Some <==> self.spec_answerable(),
            r matches Some(i) ==> i.topic@ == spec_transfer_text(self.topic@) && Some(i.token@)
                == self.spec_token() && i.extra_data is None,
    {
        if MqttTopic::try_from(self.topic.as_str()).is_err() {
            return None;
        }
        match self.try_get_token() {
            Some(_) => Some(self.to_mqtt_req_info()),
            None => None,
        }
    }

    /// An answer to `message` with a status and a reason, on the answer topic and
    /// with the message's token.
    pub fn new_with_msg_status_reason(message: MqttMessage, status: &str, reason: &str) -> (m: Self)
        requires
            message.spec_answerable(),
        ensures
            m.topic@ == spec_transfer_text(message.topic@),
            exists|ts: Seq<char>|
                m.payload@ == status_payload_text(message.spec_token()->0, ts, status@, reason@),
    {
        let topic = MqttTopic::transfer(message.topic.as_str());
        let token = message.get_token();
        let ts = timestamp();
        let payload = status_payload(token.as_str(), ts.as_str(), status, reason);
        assert(payload@ == status_payload_text(message.spec_token()->0, ts@, status@, reason@));
        MqttMessage { topic, payload }
    }

    /// The answer of `new_with_msg_status_reason`, where the message can be answered.
    pub fn status_reply(message: MqttMessage, status: &str, reason: &str) -> (m: Option<Self>)
        ensures
            m is Some <==> message.spec_answerable(),
            m matches Some(a) ==> a.topic@ == spec_transfer_text(message.topic@) && exists|ts: Seq<char>|
                a.payload@ == status_payload_text(message.spec_token()->0, ts, status@, reason@),
    {
        if MqttTopic::try_from(message.topic.as_str()).is_err() {
            return None;
        }
        match message.try_get_token() {
            Some(_) => Some(Self::new_with_msg_status_reason(message, status, reason)),
            None => None,
        }
    }

    /// An answer with a status and a reason, on the topic and with the token of a
    /// request in flight.
    pub fn new_with_req_info_status_reason<T>(mqtt_req_info: MqttReqInfo<T>, status: &str, reason: &str) -> (m: Self)
        ensures
            m.topic == mqtt_req_info.topic,
            exists|ts: Seq<char>|
                m.payload@ == status_payload_text(mqtt_req_info.token@, ts, status@, reason@),
    {
        let ts = timestamp();
        let payload = status_payload(mqtt_req_info.token.as_str(), ts.as_str(), status, reason);
        MqttMessage { topic: mqtt_req_info.topic, payload }
    }

    /// An empty answer on the answer topic of `topic`.
    pub fn common_response(topic: &str, _payload: &str) -> (r: Result<Self, crate::error::Error>)
        requires
            spec_topic_parse(topic@) is Ok,
        ensures
            r matches Ok(m) && m.topic@ == spec_transfer_text(topic@) && m.payload@ == Seq::<char>::empty(),
    {
        Ok(MqttMessage { topic: MqttTopic::transfer(topic), payload: String::new() })
    }
}

/// A plain answer: token, time, status and an optional message.
#[derive(Debug, Clone, PartialEq, Eq)]
pub struct MqttCommonResponse {
    pub token: String,
    pub timestamp: String,
    pub status: &'static str,
    pub msg: Option<String>,
}

/// The status text of an outcome.
pub open spec fn spec_status_text(result: bool) -> Seq<char> {
    if result {
        "OK"@
    } else {
        "FAILURE"@
    }
}

impl MqttCommonResponse {
    /// An answer made now.
    pub fn new(token: String, result: bool, msg: Option<String>) -> (r: Self)
        ensures
            r.token == token,
            r.status@ == spec_status_text(result),
            r.msg == msg,
    {
        MqttCommonResponse {
            token,
            timestamp: timestamp(),
            status: if result {
                STATUS_OK
            } else {
                STATUS_FAILURE
            },
            msg,
        }
    }

    /// The answer's members: token, timestamp, status and message (`null` when absent).
    pub open spec fn spec_members(self) -> Seq<(Seq<char>, Option<Seq<char>>)> {
        seq![
            ("token"@, Some(self.token@)),
            ("timestamp"@, Some(self.timestamp@)),
            ("status"@, Some(self.status@)),
            ("msg"@, spec_opt_text(self.msg)),
        ]
    }

    /// The answer as a JSON object.
    pub fn to_json(&self) -> (r: String)
        ensures
            r@ == json_object_text(self.spec_members()),
    {
        let mut v: Vec<(String, Option<String>)> = Vec::new();
        v.push((owned("token"), Some(owned(self.token.as_str()))));
        v.push((owned("timestamp"), Some(owned(self.timestamp.as_str()))));
        v.push((owned("status"), Some(owned(self.status))));
        let msg = match &self.msg {
            Some(m) => Some(owned(m.as_str())),
            None => None,
        };
        v.push((owned("msg"), msg));
        assert(spec_members(v@) =~= self.spec_members());
        json_object(v)
    }

    pub fn set_status(&mut self, result: bool)
        ensures
            final(self).status@ == spec_status_text(result),
            final(self).token == old(self).token,
            final(self).timestamp == old(self).timestamp,
            final(self).msg == old(self).msg,
    {
        self.status = if result {
            STATUS_OK
        } else {
            STATUS_FAILURE
        };
    }
}

} // verus!
