//! Meter search (slave node registration): the decisions of the search loop, from
//! the request that starts it to the report that ends it.
use vstd::prelude::*;

use crate::error::{Error, MqttResponseError};
use crate::protocol::app_data::active_report::{ReportNodeInfoAndDeviceType, WorkStatusType};
use crate::protocol::app_data::route_data_read::DateTime;
use crate::protocol::app_data::route_get::RunningStatusResponse;
use crate::protocol::app_data::route_set::ActiveNodeRegisterRequest;
use crate::json_text::{push_json_str, push_number_member, push_str_member, spec_json_str, spec_member};
use crate::mqtt_message::{status_payload_text, timestamp, MqttMessage, STATUS_FAILURE};
use crate::mqtt_topic::{app_name, spec_app_name, spec_split, spec_transfer_text, MqttTopic};
use crate::request_info::MqttReqInfo;
use crate::text::{push_char, push_str, spec_decimal, spec_hex};
use crate::protocol::app_data::ctrl_cmd::IdentifyAreaSetRequest;
use crate::protocol::app_data::route_set::StopNodeRegisterRequest;
use crate::protocol::app_data::{Afn, AppData};
use crate::protocol::frame::FrameSeq;
use crate::request_info::UartMessage;
use crate::service::parse_response::{
    confirm_result, mqtt_request_uart_handler, spec_deny, spec_is_deny, uart_response_handler,
};
use crate::text::str_eq;

verus! {

/// Where a meter search stands.
#[derive(Debug, Clone, Copy, PartialEq, Eq, Structural)]
pub enum IdentifyAreaState {
    Running,
    Finished,
    Canceled,
    Idle,
}

/// What the search loop does after a wait.
#[derive(Debug, PartialEq, Eq)]
pub enum SearchAction {
    /// Nothing was heard for too long: ask the router whether it still searches.
    QueryRunningStatus,
    /// Meters reported themselves: publish them.
    Publish(Vec<ReportNodeInfoAndDeviceType>),
    /// A stray outcome was dropped: wait again.
    Wait,
}

/// The text `hour`, the unit that makes a search duration count hours.
pub open spec fn spec_hour() -> Seq<char> {
    seq!['h', 'o', 'u', 'r']
}

/// The date and time that the pattern `%Y-%m-%d %H:%M:%S` reads from a text, or
/// the parser's reason for refusing it.
pub uninterp spec fn naive_datetime_parse(text: Seq<char>) -> Result<DateTime, Seq<char>>;

/// Reads a start time (`chrono::NaiveDateTime::parse_from_str` with
/// `%Y-%m-%d %H:%M:%S`; the fields are taken by `Datelike` and `Timelike`, the
/// error as its text).
/// Trusted: the outcome is the one `naive_datetime_parse` names; a date and time
/// read is a calendar date and a time of day.
#[verifier::external_body]
pub(crate) fn parse_start_time(text: &str) -> (r: Result<DateTime, String>)
    ensures
        match r {
            Ok(t) => naive_datetime_parse(text@) == Ok::<DateTime, Seq<char>>(t) && t.valid(),
            Err(e) => naive_datetime_parse(text@) == Err::<DateTime, Seq<char>>(e@),
        },
{
    match chrono::NaiveDateTime::parse_from_str(text, "%Y-%m-%d %H:%M:%S") {
        Ok(t) => Ok(DateTime {
            year: chrono::Datelike::year(&t),
            month: chrono::Datelike::month(&t),
            day: chrono::Datelike::day(&t),
            hour: chrono::Timelike::hour(&t),
            minute: chrono::Timelike::minute(&t),
            second: chrono::Timelike::second(&t),
        }),
        Err(e) => Err(e.to_string()),
    }
}

/// The registration request of an MQTT search request, from its fields: the start
/// time text must read as a date and time (else its reason is the error), and the
/// duration counts hours where the unit is `hour`.
pub fn enable_search_request(
    start_time: &str,
    unit: &str,
    duration: u16,
    retry: u8,
    random_wait_count: u8,
) -> (r: Result<ActiveNodeRegisterRequest, Error>)
    requires
        unit@ == spec_hour() ==> duration * 60 <= u16::MAX,
    ensures
        match naive_datetime_parse(start_time@) {
            Err(e) => r matches Err(Error::TimeParse(t)) && t@ == e,
            Ok(t) => r matches Ok(q) && q.start_time == t && q.duration == (if unit@ == spec_hour() {
                duration * 60
            } else {
                duration as int
            }) && q.retry_count == retry && q.random_wait_count == random_wait_count,
        },
{
    match parse_start_time(start_time) {
        Err(e) => Err(Error::TimeParse(e)),
        Ok(t) => Ok(active_node_register_request(t, unit, duration, retry, random_wait_count)),
    }
}

/// What a search request leads to: the registration request to send, or, where
/// the start time cannot be read, the failure answer on the request's answer
/// topic with its token and the reason "invalid json request: " and the parser's.
pub fn mqtt_enable_search(
    message: &MqttMessage,
    start_time: &str,
    unit: &str,
    duration: u16,
    retry: u8,
    random_wait_count: u8,
) -> (r: Result<ActiveNodeRegisterRequest, MqttMessage>)
    requires
        message.spec_answerable(),
        unit@ == spec_hour() ==> duration * 60 <= u16::MAX,
    ensures
        match naive_datetime_parse(start_time@) {
            Err(e) => r matches Err(m) && m.topic@ == spec_transfer_text(message.topic@) && exists|ts: Seq<char>|
                m.payload@ == status_payload_text(message.spec_token()->0, ts, STATUS_FAILURE@, "invalid json request: "@ + e),
            Ok(t) => r matches Ok(q) && q.start_time == t && q.duration == (if unit@ == spec_hour() {
                duration * 60
            } else {
                duration as int
            }) && q.retry_count == retry && q.random_wait_count == random_wait_count,
        },
{
    match enable_search_request(start_time, unit, duration, retry, random_wait_count) {
        Ok(q) => Ok(q),
        Err(e) => {
            let reason = match e {
                Error::TimeParse(t) => t,
                _ => {
                    assert(false);
                    String::new()
                },
            };
            let ghost found = reason@;
            let text = Error::Response(MqttResponseError::InvalidJson(reason)).to_string();
            let info: MqttReqInfo<()> = message.to_mqtt_req_info();
            let ghost token = info.token@;
            let m = MqttMessage::new_with_req_info_status_reason(info, STATUS_FAILURE, text.as_str());
            proof {
                assert(naive_datetime_parse(start_time@) == Err::<DateTime, Seq<char>>(found));
                assert(token == message.spec_token()->0);
                let ts = choose|ts: Seq<char>| m.payload@ == status_payload_text(token, ts, STATUS_FAILURE@, text@);
                assert(m.payload@ == status_payload_text(
                    message.spec_token()->0,
                    ts,
                    STATUS_FAILURE@,
                    "invalid json request: "@ + found,
                ));
            }
            Err(m)
        },
    }
}

/// The reason a search request is refused while a search runs.
pub open spec fn spec_search_running() -> Seq<char> {
    "search meter already running"@
}

/// The answer to a search request that comes while a search runs: `FAILURE`
/// with the reason that a search already runs.
pub fn search_running_reply<T>(info: MqttReqInfo<T>) -> (m: MqttMessage)
    ensures
        m.topic == info.topic,
        exists|ts: Seq<char>| m.payload@ == status_payload_text(info.token@, ts, STATUS_FAILURE@, spec_search_running()),
{
    let ghost token = info.token@;
    let m = MqttMessage::new_with_req_info_status_reason(info, STATUS_FAILURE, "search meter already running");
    proof {
        let ts = choose|ts: Seq<char>|
            m.payload@ == status_payload_text(token, ts, STATUS_FAILURE@, "search meter already running"@);
        assert(m.payload@ == status_payload_text(token, ts, STATUS_FAILURE@, spec_search_running()));
    }
    m
}

/// The topic on which found meters are reported to the application that asked
/// (the first segment of its request topic).
pub open spec fn spec_search_report_topic(request_topic: Seq<char>) -> Seq<char> {
    spec_app_name() + "/notify/spont/"@ + spec_split(request_topic)[0] + "/searchMeter"@
}

/// A found meter as a report lists it: address, protocol type, device type.
pub open spec fn spec_search_item(r: ReportNodeInfoAndDeviceType) -> Seq<char> {
    seq!['{'] + spec_member("acqAddr"@, spec_json_str(spec_hex(r.node_info.address.0@, false))) + seq![',']
        + spec_member("proType"@, spec_decimal(r.node_info.protocol_type as nat)) + seq![',']
        + spec_member("deviceType"@, spec_decimal(r.device_type as nat)) + seq!['}']
}

/// The found meters, each in a list of its own, separated by commas.
pub open spec fn spec_search_items(rs: Seq<ReportNodeInfoAndDeviceType>) -> Seq<char>
    decreases rs.len(),
{
    if rs.len() == 0 {
        Seq::empty()
    } else if rs.len() == 1 {
        seq!['['] + spec_search_item(rs[0]) + seq![']']
    } else {
        spec_search_items(rs.drop_last()) + seq![','] + seq!['['] + spec_search_item(rs.last()) + seq![']']
    }
}

/// The report of found meters: token, time, and the meters under `body`.
pub open spec fn spec_search_report_text(token: Seq<char>, ts: Seq<char>, rs: Seq<ReportNodeInfoAndDeviceType>) -> Seq<char> {
    seq!['{'] + spec_member("token"@, spec_json_str(token)) + seq![','] + spec_member(
        "timestamp"@,
        spec_json_str(ts),
    ) + seq![','] + spec_member("body"@, seq!['['] + spec_search_items(rs) + seq![']']) + seq!['}']
}

/// Each found meter of a search report carries its own values: its address as
/// lowercase hexadecimal under `acqAddr`, and the decimals of its protocol type
/// and device type under `proType` and `deviceType`.
pub proof fn law_search_item_fields(r: ReportNodeInfoAndDeviceType)
    ensures
        crate::service::hplc_info::spec_carries(
            spec_search_item(r),
            "acqAddr"@,
            spec_json_str(spec_hex(r.node_info.address.0@, false)),
        ),
        crate::service::hplc_info::spec_carries(spec_search_item(r), "proType"@, spec_decimal(r.node_info.protocol_type as nat)),
        crate::service::hplc_info::spec_carries(spec_search_item(r), "deviceType"@, spec_decimal(r.device_type as nat)),
{
    let m0 = spec_member("acqAddr"@, spec_json_str(spec_hex(r.node_info.address.0@, false)));
    let m1 = spec_member("proType"@, spec_decimal(r.node_info.protocol_type as nat));
    let m2 = spec_member("deviceType"@, spec_decimal(r.device_type as nat));
    let t = spec_search_item(r);
    let (o, c, e) = (seq!['{'], seq![','], seq!['}']);
    assert(t =~= o + m0 + (c + m1 + c + m2 + e));
    assert(t =~= (o + m0 + c) + m1 + (c + m2 + e));
    assert(t =~= (o + m0 + c + m1 + c) + m2 + e);
}

fn push_search_item(out: &mut String, r: &ReportNodeInfoAndDeviceType)
    ensures
        final(out)@ == old(out)@ + spec_search_item(*r),
{
    let ghost start = out@;
    push_char(out, '{');
    let addr = r.node_info.address.to_string();
    push_str_member(out, "acqAddr", addr.as_str());
    push_char(out, ',');
    push_number_member(out, "proType", r.node_info.protocol_type as u64);
    push_char(out, ',');
    push_number_member(out, "deviceType", r.device_type as u64);
    push_char(out, '}');
    assert(out@ =~= start + spec_search_item(*r));
}

/// The report of meters found by a search, on the search report topic of the
/// application that asked, with the given token.
pub fn search_report(request_topic: &str, token: &str, reports: &Vec<ReportNodeInfoAndDeviceType>) -> (m: MqttMessage)
    ensures
        m.topic@ == spec_search_report_topic(request_topic@),
        exists|ts: Seq<char>| m.payload@ == spec_search_report_text(token@, ts, reports@),
{
    let mut topic = String::new();
    push_str(&mut topic, app_name());
    push_str(&mut topic, "/notify/spont/");
    let app = MqttTopic::get_app(request_topic);
    push_str(&mut topic, app.as_str());
    push_str(&mut topic, "/searchMeter");
    assert(topic@ =~= spec_search_report_topic(request_topic@));
    let ts = timestamp();
    let mut out = String::new();
    push_char(&mut out, '{');
    push_str_member(&mut out, "token", token);
    push_char(&mut out, ',');
    push_str_member(&mut out, "timestamp", ts.as_str());
    push_char(&mut out, ',');
    push_json_str(&mut out, "body");
    push_char(&mut out, ':');
    push_char(&mut out, '[');
    let ghost head = out@;
    let mut k: usize = 0;
    while k < reports.len()
        invariant
            k <= reports@.len(),
            out@ == head + spec_search_items(reports@.take(k as int)),
        decreases reports.len() - k,
    {
        if k > 0 {
            push_char(&mut out, ',');
        }
        push_char(&mut out, '[');
        push_search_item(&mut out, &reports[k]);
        push_char(&mut out, ']');
        proof {
            let t = reports@.take(k + 1);
            assert(t.drop_last() =~= reports@.take(k as int));
            assert(t.last() == reports@[k as int]);
            if k == 0 {
                assert(t.len() == 1);
                assert(t[0] == reports@[0]);
            }
        }
        k = k + 1;
    }
    assert(reports@.take(k as int) =~= reports@);
    push_char(&mut out, ']');
    push_char(&mut out, '}');
    assert(out@ =~= spec_search_report_text(token@, ts@, reports@));
    MqttMessage { topic, payload: out }
}

/// The registration request of an MQTT search request: the duration is in
/// minutes, so hours are multiplied by sixty.
pub fn active_node_register_request(
    start_time: DateTime,
    unit: &str,
    duration: u16,
    retry: u8,
    random_wait_count: u8,
) -> (r: ActiveNodeRegisterRequest)
    requires
        unit@ == spec_hour() ==> duration * 60 <= u16::MAX,
    ensures
        r.start_time == start_time,
        r.duration == (if unit@ == spec_hour() {
            duration * 60
        } else {
            duration as int
        }),
        r.retry_count == retry,
        r.random_wait_count == random_wait_count,
{
    proof {
        reveal_strlit("hour");
        assert("hour"@ =~= spec_hour());
    }
    let minutes = if str_eq(unit, "hour") {
        duration * 60
    } else {
        duration
    };
    ActiveNodeRegisterRequest::new(start_time, minutes, retry, random_wait_count)
}

/// The meter search's shared state: reports heard, the outcome awaited, where
/// the search stands.
#[derive(Debug, PartialEq, Eq)]
pub struct IdentifyArea {
    pub report_info: Vec<ReportNodeInfoAndDeviceType>,
    pub result: Option<Result<(), Error>>,
    pub state: IdentifyAreaState,
}

impl IdentifyArea {
    pub fn new() -> (i: Self)
        ensures
            i.report_info@.len() == 0,
            i.result is None,
            i.state == IdentifyAreaState::Idle,
    {
        IdentifyArea { report_info: Vec::new(), result: None, state: IdentifyAreaState::Idle }
    }

    /// Starts a search unless one runs; `false` means the request is refused.
    pub fn begin_search(&mut self) -> (started: bool)
        ensures
            started == (old(self).state != IdentifyAreaState::Running),
            final(self).state == IdentifyAreaState::Running,
            final(self).report_info == old(self).report_info,
            final(self).result == old(self).result,
    {
        if self.state == IdentifyAreaState::Running {
            return false;
        }
        self.state = IdentifyAreaState::Running;
        true
    }

    /// Takes the answer to the registration request; a failure ends the search.
    pub fn take_register_result(&mut self) -> (r: Result<(), Error>)
        requires
            old(self).result is Some,
        ensures
            r == old(self).result->0,
            final(self).result is None,
            final(self).state == (if r is Err {
                IdentifyAreaState::Idle
            } else {
                old(self).state
            }),
            final(self).report_info == old(self).report_info,
    {
        let r = match self.result.take() {
            Some(r) => r,
            None => {
                assert(false);
                Ok(())
            },
        };
        if r.is_err() {
            self.state = IdentifyAreaState::Idle;
        }
        r
    }

    /// Whether the loop keeps waiting.
    pub fn searching(&self) -> (b: bool)
        ensures
            b == (self.state == IdentifyAreaState::Running),
    {
        self.state == IdentifyAreaState::Running
    }

    /// Decides after a wait: query the router on a timeout, publish the reports
    /// that came in, or drop a stray outcome.
    pub fn search_step(&mut self, timed_out: bool) -> (a: SearchAction)
        ensures
            timed_out ==> a == SearchAction::QueryRunningStatus && *final(self) == *old(self),
            !timed_out && old(self).report_info@.len() > 0 ==> (a matches SearchAction::Publish(v)
                && v@ == old(self).report_info@ && final(self).report_info@.len() == 0
                && final(self).result == old(self).result && final(self).state == old(self).state),
            !timed_out && old(self).report_info@.len() == 0 ==> a == SearchAction::Wait
                && final(self).result is None && final(self).state == old(self).state
                && final(self).report_info == old(self).report_info,
    {
        if timed_out {
            SearchAction::QueryRunningStatus
        } else if self.report_info.len() > 0 {
            let mut reports = Vec::new();
            std::mem::swap(&mut reports, &mut self.report_info);
            SearchAction::Publish(reports)
        } else {
            self.result = None;
            SearchAction::Wait
        }
    }

    /// Takes the answer to a running-status query (a failure is only logged).
    pub fn take_status_result(&mut self) -> (r: Option<Result<(), Error>>)
        ensures
            r == old(self).result,
            final(self).result is None,
            final(self).state == old(self).state,
            final(self).report_info == old(self).report_info,
    {
        self.result.take()
    }

    /// Ends the search: the state it ended in, the search idle again.
    pub fn search_over(&mut self) -> (s: IdentifyAreaState)
        ensures
            s == old(self).state,
            final(self).state == IdentifyAreaState::Idle,
            final(self).result == old(self).result,
            final(self).report_info == old(self).report_info,
    {
        let s = self.state;
        self.state = IdentifyAreaState::Idle;
        s
    }

    /// Hands an outcome to the waiting loop.
    pub fn notify(&mut self, result: Result<(), Error>)
        ensures
            final(self).result == Some(result),
            final(self).state == old(self).state,
            final(self).report_info == old(self).report_info,
    {
        self.result = Some(result);
    }

    /// Hands an outcome to the waiting loop and moves the search to `state`.
    pub fn notify_state(&mut self, result: Result<(), Error>, state: IdentifyAreaState)
        ensures
            final(self).result == Some(result),
            final(self).state == state,
            final(self).report_info == old(self).report_info,
    {
        self.result = Some(result);
        self.state = state;
    }

    /// The registration request got no answer in time.
    pub fn uart_active_slave_node_register_timeout(&mut self)
        ensures
            final(self).result == Some(Err::<(), Error>(Error::Response(MqttResponseError::Timeout))),
            final(self).state == old(self).state,
            final(self).report_info == old(self).report_info,
    {
        self.notify(Err(Error::Response(MqttResponseError::Timeout)));
    }

    /// The router's running status during a search: a router that no longer works
    /// has finished the search.
    pub fn uart_search_meter_running_status(&mut self, status: Result<RunningStatusResponse, Error>)
        ensures
            match status {
                Ok(s) => final(self).result == Some(Ok::<(), Error>(())) && final(self).state == (if s.running_status.work_flag == 0 {
                    IdentifyAreaState::Finished
                } else {
                    old(self).state
                }),
                Err(e) => final(self).result == Some(Err::<(), Error>(e)) && final(self).state == old(self).state,
            },
            final(self).report_info == old(self).report_info,
    {
        match status {
            Ok(s) => {
                if s.running_status.work_flag == 0 {
                    self.notify_state(Ok(()), IdentifyAreaState::Finished);
                } else {
                    self.notify(Ok(()));
                }
            },
            Err(e) => self.notify(Err(e)),
        }
    }

    /// The search was stopped on request.
    pub fn uart_stop_slave_node_register(&mut self)
        ensures
            final(self).result == Some(Ok::<(), Error>(())),
            final(self).state == IdentifyAreaState::Canceled,
            final(self).report_info == old(self).report_info,
    {
        self.notify_state(Ok(()), IdentifyAreaState::Canceled);
    }

    /// A work-status report: the end of a search finishes it.
    pub fn uart_slave_work_status_report(&mut self, work_status_type: WorkStatusType)
        ensures
            work_status_type == WorkStatusType::Search ==> final(self).result == Some(Ok::<(), Error>(()))
                && final(self).state == IdentifyAreaState::Finished,
            work_status_type != WorkStatusType::Search ==> *final(self) == *old(self),
            final(self).report_info == old(self).report_info,
    {
        match work_status_type {
            WorkStatusType::Search => self.notify_state(Ok(()), IdentifyAreaState::Finished),
            _ => {},
        }
    }

    /// A meter reported itself during the search.
    pub fn uart_slave_node_info_and_device_report(&mut self, report: ReportNodeInfoAndDeviceType)
        ensures
            final(self).report_info@ == old(self).report_info@.push(report),
            final(self).result == old(self).result,
            final(self).state == old(self).state,
    {
        self.report_info.push(report);
    }
}

impl IdentifyArea {
    /// Switches area identification for an MQTT request.
    pub fn mqtt_identify_area_set<T, C>(message: &MqttMessage, switch: u8, seq: &mut FrameSeq) -> (m: UartMessage<T, C>)
        requires
            message.spec_answerable(),
        ensures
            m.frame.user_data.app_data.spec_has(Afn::CtrlCmd, 6, Some(seq![switch])),
            m.req_info.mqtt_req_info is Some,
            m.req_info.seq_num == old(seq).spec_next(),
    {
        mqtt_request_uart_handler(AppData::from(IdentifyAreaSetRequest::new(switch)), message, seq)
    }

    /// The MQTT answer to the module's reply to an area identification switch.
    pub fn uart_identify_area_set<T, C>(message: UartMessage<T, C>) -> (r: Result<MqttMessage, Error>)
        requires
            message.req_info.mqtt_req_info is Some,
        ensures
            !spec_is_deny(message.frame) ==> (r is Ok <==> message.frame.user_data.app_data.spec_check(
                Afn::Answer,
                1,
                6,
            ) is Ok),
            spec_is_deny(message.frame) ==> (r is Ok <==> spec_deny(message.frame.user_data.app_data) is Ok),
            r matches Ok(m) ==> m.topic == message.req_info.mqtt_req_info->0.topic,
    {
        uart_response_handler(message)
    }

    /// Stops the meter search for an MQTT request.
    pub fn mqtt_stop_slave_node_register<T, C>(message: &MqttMessage, seq: &mut FrameSeq) -> (m: UartMessage<T, C>)
        requires
            message.spec_answerable(),
        ensures
            m.frame.user_data.app_data.spec_has(Afn::RouteSet, 6, None),
            m.req_info.mqtt_req_info is Some,
            m.req_info.seq_num == old(seq).spec_next(),
    {
        mqtt_request_uart_handler(AppData::from(StopNodeRegisterRequest), message, seq)
    }

    /// The module's reply to the registration request, handed to the search loop.
    pub fn uart_active_slave_node_register<T, C>(&mut self, message: UartMessage<T, C>) -> (r: Result<(), Error>)
        ensures
            ({
                let a = message.frame.user_data.app_data;
                &&& !spec_is_deny(message.frame) ==> (a.spec_check(Afn::Answer, 1, 6) matches Err(e) ==> r
                    == Err::<(), Error>(e) && *final(self) == *old(self))
                &&& !spec_is_deny(message.frame) && a.spec_check(Afn::Answer, 1, 6) is Ok ==> r is Ok
                    && final(self).result == Some(Ok::<(), Error>(()))
                &&& spec_is_deny(message.frame) ==> match spec_deny(a) {
                    Ok(d) => r is Ok && final(self).result == Some(Err::<(), Error>(Error::Denied(d.error_code))),
                    Err(e) => r == Err::<(), Error>(e) && *final(self) == *old(self),
                }
                &&& final(self).state == old(self).state
                &&& final(self).report_info == old(self).report_info
            }),
    {
        let is_deny = message.frame.is_deny();
        let ghost a = message.frame.user_data.app_data;
        if is_deny {
            match crate::service::parse_response::UartResponse::from_frame(message.frame)? {
                crate::service::parse_response::UartResponse::Deny(d) => {
                    self.notify(Err(Error::Denied(d.error_code)));
                },
                crate::service::parse_response::UartResponse::Normal(_) => {
                    assert(false);
                },
            }
            Ok(())
        } else {
            match confirm_result(message) {
                Ok(()) => {
                    self.notify(Ok(()));
                    Ok(())
                },
                Err(e) => Err(e),
            }
        }
    }
}

} // verus!
