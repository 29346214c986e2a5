//! Answers from the serial side, and requests to it.
use vstd::prelude::*;

use crate::error::{Error, ValueKind};
use crate::mqtt_message::{status_payload, status_payload_text, timestamp, MqttMessage};
use crate::protocol::app_data::answer::{ConfirmResponse, DenyErrorCode, DenyResponse};
use crate::protocol::app_data::{Afn, AppData};
use crate::protocol::frame::{CtrlField, Frame, FrameSeq, FRAME_SIZE};
use crate::protocol::user_data::UserData;
use crate::request_info::{FrameKey, MqttReqInfo, ReqInfo, UartMessage};

verus! {

/// An answer of the module: the expected response, or a denial.
#[derive(Debug, Clone, PartialEq, Eq)]
pub enum UartResponse<T> {
    Normal(T),
    Deny(DenyResponse),
}

/// Whether a frame denies (function code 00H, number 2).
pub open spec fn spec_is_deny(f: Frame) -> bool {
    f.user_data.app_data.spec_afn() == Afn::Answer && f.user_data.app_data.spec_fn_num() == 2
}

/// What a denial's application data decodes to.
pub open spec fn spec_deny(a: AppData) -> Result<DenyResponse, Error> {
    match a.spec_check(Afn::Answer, 2, 1) {
        Err(e) => Err(e),
        Ok(_) => match DenyErrorCode::spec_from_code(a.spec_units()[0]) {
            Some(c) => Ok(DenyResponse { error_code: c }),
            None => Err(Error::UnknownValue(ValueKind::DenyErrorCode, a.spec_units()[0])),
        },
    }
}

impl UartResponse<AppData> {
    /// Splits an answer frame: a denial is decoded as one, any other frame hands
    /// over its application data for the expected response's decoder.
    pub fn from_frame(frame: Frame) -> (r: Result<UartResponse<AppData>, Error>)
        ensures
            !spec_is_deny(frame) ==> r == Ok::<_, Error>(UartResponse::Normal(frame.user_data.app_data)),
            spec_is_deny(frame) ==> match spec_deny(frame.user_data.app_data) {
                Ok(d) => r == Ok::<_, Error>(UartResponse::<AppData>::Deny(d)),
                Err(e) => r == Err::<UartResponse<AppData>, Error>(e),
            },
    {
        if frame.is_deny() {
            match DenyResponse::try_from(frame.into_app_data()) {
                Ok(d) => Ok(UartResponse::Deny(d)),
                Err(e) => Err(e),
            }
        } else {
            Ok(UartResponse::Normal(frame.into_app_data()))
        }
    }
}

impl<T> UartResponse<T> {
    /// The response, or the denial as an error.
    pub fn into_result(self) -> (r: Result<T, Error>)
        ensures
            match self {
                UartResponse::Normal(t) => r == Ok::<T, Error>(t),
                UartResponse::Deny(d) => r == Err::<T, Error>(Error::Denied(d.error_code)),
            },
    {
        match self {
            UartResponse::Normal(t) => Ok(t),
            UartResponse::Deny(d) => Err(Error::Denied(d.error_code)),
        }
    }
}

/// Status and reason of the answer to an outcome: `OK`/`OK`, or `FAILURE` and the
/// error's message.
pub open spec fn spec_outcome_status(result: Result<(), Error>) -> (Seq<char>, Seq<char>) {
    match result {
        Ok(_) => ("OK"@, "OK"@),
        Err(e) => ("FAILURE"@, e.spec_text()),
    }
}

/// The MQTT answer to an outcome, on the request's answer topic with its token.
pub fn mqtt_response_message<T>(result: Result<(), Error>, mqtt_req_info: MqttReqInfo<T>) -> (m: MqttMessage)
    ensures
        m.topic == mqtt_req_info.topic,
        exists|ts: Seq<char>|
            m.payload@ == status_payload_text(
                mqtt_req_info.token@,
                ts,
                spec_outcome_status(result).0,
                spec_outcome_status(result).1,
            ),
{
    let ts = timestamp();
    let payload = match result {
        Ok(_) => status_payload(mqtt_req_info.token.as_str(), ts.as_str(), "OK", "OK"),
        Err(e) => {
            let reason = e.to_string();
            status_payload(mqtt_req_info.token.as_str(), ts.as_str(), "FAILURE", reason.as_str())
        },
    };
    assert(payload@ == status_payload_text(
        mqtt_req_info.token@,
        ts@,
        spec_outcome_status(result).0,
        spec_outcome_status(result).1,
    ));
    MqttMessage { topic: mqtt_req_info.topic, payload }
}

/// Whether a request's application data fits a frame in memory.
pub open spec fn spec_fits(app_data: AppData) -> bool {
    app_data.spec_units().len() + 64 <= usize::MAX
}

/// The serial message for a request: a request frame (next sequence number, no
/// address field) with its bookkeeping.
pub fn mqtt_info_request_uart_handler<T, C>(
    app_data: AppData,
    mqtt_req_info: Option<MqttReqInfo<T>>,
    seq: &mut FrameSeq,
) -> (m: UartMessage<T, C>)
    requires
        spec_fits(app_data),
    ensures
        m.frame == Frame::spec_assembled(
            CtrlField::spec_new(false),
            UserData::spec_new(old(seq).spec_next(), None, app_data),
        ),
        m.req_info.mqtt_req_info == mqtt_req_info,
        m.req_info.frame_key == FrameKey(app_data.spec_afn().spec_code(), app_data.spec_fn_num() as u8),
        m.req_info.seq_num == old(seq).spec_next(),
        m.req_info.timeout_cb is None,
        final(seq).spec_next() == (if old(seq).spec_next() == 255 {
            0
        } else {
            old(seq).spec_next() + 1
        }),
{
    assert(UserData::spec_new(seq.spec_next(), None, app_data).spec_bytes().len() == 9
        + app_data.spec_units().len());
    let frame = Frame::new_request(seq, None, app_data);
    let req_info = ReqInfo::new(&frame, mqtt_req_info, None);
    UartMessage::new(req_info, frame)
}

/// The serial message for an MQTT request whose topic and token are known good.
pub fn mqtt_request_uart_handler<T, C>(app_data: AppData, message: &MqttMessage, seq: &mut FrameSeq) -> (m: UartMessage<T, C>)
    requires
        spec_fits(app_data),
        message.spec_answerable(),
    ensures
        m.frame == Frame::spec_assembled(
            CtrlField::spec_new(false),
            UserData::spec_new(old(seq).spec_next(), None, app_data),
        ),
        m.req_info.mqtt_req_info matches Some(i) && i.topic@ == crate::mqtt_topic::spec_transfer_text(
            message.topic@,
        ) && Some(i.token@) == message.spec_token() && i.extra_data is None,
        m.req_info.frame_key == FrameKey(app_data.spec_afn().spec_code(), app_data.spec_fn_num() as u8),
        m.req_info.seq_num == old(seq).spec_next(),
        final(seq).spec_next() == (if old(seq).spec_next() == 255 {
            0
        } else {
            old(seq).spec_next() + 1
        }),
{
    let info = message.to_mqtt_req_info();
    mqtt_info_request_uart_handler(app_data, Some(info), seq)
}

/// Whether `r` is the MQTT answer to a module's reply to a request that expects a
/// confirmation: `OK`, or the denial's reason, on the request's answer topic; a
/// reply that is neither is an error.
pub open spec fn spec_confirm_answer<T, C>(message: UartMessage<T, C>, r: Result<MqttMessage, Error>) -> bool {
    let i = message.req_info.mqtt_req_info->0;
    let a = message.frame.user_data.app_data;
    &&& !spec_is_deny(message.frame) ==> {
        &&& r is Ok <==> a.spec_check(Afn::Answer, 1, 6) is Ok
        &&& r matches Err(e) ==> a.spec_check(Afn::Answer, 1, 6) == Err::<(), Error>(e)
        &&& r matches Ok(m) ==> m.topic == i.topic && exists|ts: Seq<char>|
            m.payload@ == status_payload_text(i.token@, ts, "OK"@, "OK"@)
    }
    &&& spec_is_deny(message.frame) ==> match spec_deny(a) {
        Ok(d) => r matches Ok(m) && m.topic == i.topic && exists|ts: Seq<char>|
            m.payload@ == status_payload_text(i.token@, ts, "FAILURE"@, Error::Denied(d.error_code).spec_text()),
        Err(e) => r == Err::<MqttMessage, Error>(e),
    }
}

/// The MQTT answer to a module's reply to a request that expects a confirmation
/// (see `spec_confirm_answer`).
pub fn uart_response_handler<T, C>(message: UartMessage<T, C>) -> (r: Result<MqttMessage, Error>)
    requires
        message.req_info.mqtt_req_info is Some,
    ensures
        spec_confirm_answer(message, r),
{
    let UartMessage { req_info, frame, .. } = message;
    let response = UartResponse::from_frame(frame)?;
    let info = match req_info.into_mqtt_req_info() {
        Some(i) => i,
        None => {
            assert(false);
            return Err(Error::Response(crate::error::MqttResponseError::Timeout));
        },
    };
    match response {
        UartResponse::Normal(a) => {
            ConfirmResponse::try_from(a)?;
            Ok(mqtt_response_message(Ok(()), info))
        },
        UartResponse::Deny(d) => Ok(mqtt_response_message(Err(Error::Denied(d.error_code)), info)),
    }
}

/// The outcome of a module's reply to a request that expects a confirmation:
/// `Ok`, or the denial as an error; a reply that is neither is an error too.
pub fn confirm_result<T, C>(message: UartMessage<T, C>) -> (r: Result<(), Error>)
    ensures
        !spec_is_deny(message.frame) ==> (r is Ok <==> message.frame.user_data.app_data.spec_check(
            Afn::Answer,
            1,
            6,
        ) is Ok) && (r matches Err(e) ==> message.frame.user_data.app_data.spec_check(Afn::Answer, 1, 6)
            == Err::<(), Error>(e)),
        spec_is_deny(message.frame) ==> match spec_deny(message.frame.user_data.app_data) {
            Ok(d) => r == Err::<(), Error>(Error::Denied(d.error_code)),
            Err(e) => r == Err::<(), Error>(e),
        },
{
    match UartResponse::from_frame(message.frame)? {
        UartResponse::Normal(a) => {
            ConfirmResponse::try_from(a)?;
            Ok(())
        },
        UartResponse::Deny(d) => Err(Error::Denied(d.error_code)),
    }
}

/// The outcome of a module's reply to a request that expects a confirmation, kept
/// apart from a reply that is neither a confirmation nor a denial (the outer error).
pub fn confirm_outcome<T, C>(message: UartMessage<T, C>) -> (r: Result<Result<(), Error>, Error>)
    ensures
        !spec_is_deny(message.frame) ==> {
            let a = message.frame.user_data.app_data;
            &&& r is Ok <==> a.spec_check(Afn::Answer, 1, 6) is Ok
            &&& r matches Err(e) ==> a.spec_check(Afn::Answer, 1, 6) == Err::<(), Error>(e)
            &&& r matches Ok(inner) ==> inner is Ok
        },
        spec_is_deny(message.frame) ==> match spec_deny(message.frame.user_data.app_data) {
            Ok(d) => r == Ok::<Result<(), Error>, Error>(Err(Error::Denied(d.error_code))),
            Err(e) => r == Err::<Result<(), Error>, Error>(e),
        },
{
    match UartResponse::from_frame(message.frame)? {
        UartResponse::Normal(a) => {
            ConfirmResponse::try_from(a)?;
            Ok(Ok(()))
        },
        UartResponse::Deny(d) => Ok(Err(Error::Denied(d.error_code))),
    }
}

} // verus!
