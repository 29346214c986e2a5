//! Forwarding a meter frame through the module and carrying back the meter's answer.
use vstd::prelude::*;

use crate::error::{Error, MqttResponseError};
use crate::mqtt_message::{json_object, json_object_text, spec_members, spec_status_members, status_members, timestamp, MqttMessage};
use crate::protocol::app_data::data_trans::{TransferFrameRequest, TransferFrameResponse};
use crate::protocol::app_data::{Address, Afn, AppData};
use crate::protocol::frame::{CtrlField, Frame, FrameSeq};
use crate::protocol::user_data::{AddressField, UserData};
use crate::request_info::{MqttReqInfo, ReqInfo, UartMessage};
use crate::service::parse_response::{mqtt_response_message, spec_deny, spec_is_deny, spec_outcome_status, UartResponse};
use crate::text::{hex_decode, hex_encode, owned, spec_hex, spec_hex_decode, spec_is_hex};

verus! {

/// Forwarding of meter frames; the module is counted as metering while a
/// transfer waits for the meter's answer.
#[derive(Debug, Clone, Copy, PartialEq, Eq)]
pub struct DataTransfer {
    pub metering: bool,
}

/// The answer payload of a transfer that carried the meter's reply back: the
/// status members, then the reply (hexadecimal) under `data`.
pub open spec fn spec_transfer_payload(token: Seq<char>, ts: Seq<char>, data: Seq<char>) -> Seq<char> {
    json_object_text(spec_status_members(token, ts, "OK"@, "OK"@) + seq![("data"@, Some(data))])
}

/// The answer payload of a transfer with this outcome: the reply, or the failure.
pub open spec fn spec_transfer_answer(token: Seq<char>, ts: Seq<char>, outcome: Result<String, Error>) -> Seq<char> {
    match outcome {
        Ok(d) => spec_transfer_payload(token, ts, d@),
        Err(e) => crate::mqtt_message::status_payload_text(
            token,
            ts,
            spec_outcome_status(Err(e)).0,
            spec_outcome_status(Err(e)).1,
        ),
    }
}

impl DataTransfer {
    pub fn new() -> (d: Self)
        ensures
            !d.metering,
    {
        DataTransfer { metering: false }
    }

    /// The request for an MQTT data transfer: the meter frame (given in
    /// hexadecimal) under its protocol type, addressed from the master node to the
    /// meter's address, waited for `frame_timeout` seconds; metering starts.
    pub fn mqtt_data_transfer<C>(
        &mut self,
        master_address: Address,
        message: &MqttMessage,
        acq_addr: &str,
        pro_type: u8,
        frame_timeout: u32,
        data: &str,
        seq: &mut FrameSeq,
    ) -> (m: UartMessage<(), C>)
        requires
            message.spec_answerable(),
            Address::spec_is_address_text(acq_addr@),
            spec_is_hex(data@),
            data@.len() + 128 <= usize::MAX,
        ensures
            ({
                let af = m.frame.user_data.address_field;
                let a = m.frame.user_data.app_data;
                &&& af matches Some(f) && f.src_address == master_address && f.relay_address is None
                    && f.dst_address.0@ == spec_hex_decode(acq_addr@)
                &&& a.spec_has(
                    Afn::DataForward,
                    1,
                    Some(seq![pro_type, spec_hex_decode(data@).len() as u8] + spec_hex_decode(data@)),
                )
                &&& m.frame == Frame::spec_assembled(
                    CtrlField::spec_new(false),
                    UserData::spec_new(old(seq).spec_next(), af, a),
                )
                &&& m.req_info.mqtt_req_info matches Some(i) && i.topic@
                    == crate::mqtt_topic::spec_transfer_text(message.topic@) && Some(i.token@)
                    == message.spec_token()
                &&& m.req_info.seq_num == old(seq).spec_next()
                &&& m.timeout == Some(frame_timeout)
            }),
            final(self).metering,
    {
        let bytes = hex_decode(data);
        proof {
            crate::text::lemma_hex_decode_len(data@);
        }
        let af = AddressField::new(master_address, None, Address::from_hex(acq_addr));
        let app_data = AppData::from(TransferFrameRequest::new(pro_type, bytes));
        proof {
            crate::protocol::laws::lemma_address_field_len(af);
        }
        let frame = Frame::new_request(seq, Some(af), app_data);
        let req_info = ReqInfo::new(&frame, Some(message.to_mqtt_req_info()), None);
        self.metering = true;
        UartMessage::new_with_timeout(req_info, frame, frame_timeout)
    }

    /// The answer to the transfer once its outcome is known (the meter's reply in
    /// hexadecimal, or the error): on the request's answer topic with its token,
    /// the reply under `data`, or the failure's reason; metering ends.
    pub fn data_transfer_reply<T>(&mut self, outcome: Result<String, Error>, info: MqttReqInfo<T>) -> (m: MqttMessage)
        ensures
            !final(self).metering,
            m.topic == info.topic,
            exists|ts: Seq<char>| m.payload@ == #[trigger] spec_transfer_answer(info.token@, ts, outcome),
    {
        self.metering = false;
        match outcome {
            Ok(d) => {
                let ts = timestamp();
                let mut members = status_members(info.token.as_str(), ts.as_str(), "OK", "OK");
                let ghost before = spec_members(members@);
                let ghost dv = d@;
                members.push((owned("data"), Some(d)));
                assert(spec_members(members@) =~= before + seq![("data"@, Some(dv))]);
                let m = MqttMessage { topic: info.topic, payload: json_object(members) };
                assert(m.payload@ == spec_transfer_answer(info.token@, ts@, Ok::<String, Error>(d)));
                m
            },
            Err(e) => {
                let ghost token = info.token@;
                let ghost eg = e;
                let m = mqtt_response_message(Err(e), info);
                proof {
                    let ts = choose|ts: Seq<char>|
                        m.payload@ == crate::mqtt_message::status_payload_text(
                            token,
                            ts,
                            spec_outcome_status(Err(eg)).0,
                            spec_outcome_status(Err(eg)).1,
                        );
                    assert(m.payload@ == spec_transfer_answer(token, ts, Err::<String, Error>(eg)));
                }
                m
            },
        }
    }

    /// The meter's answer, in hexadecimal, or why there is none; the outer error is
    /// a frame that is neither the answer nor a denial.
    pub fn uart_data_transfer_response<T, C>(&self, message: UartMessage<T, C>) -> (r: Result<Result<String, Error>, Error>)
        ensures
            !spec_is_deny(message.frame) ==> {
                let a = message.frame.user_data.app_data;
                let u = a.spec_units();
                let pre = match a.spec_check_min(2) {
                    Err(e) => Err(e),
                    Ok(_) => a.spec_check(Afn::DataForward, 1, (2 + u[1]) as usize),
                };
                &&& r is Ok <==> pre is Ok
                &&& r matches Err(e) ==> pre == Err::<(), Error>(e)
                &&& r matches Ok(inner) ==> inner matches Ok(s) && s@ == spec_hex(u.skip(2), false)
            },
            spec_is_deny(message.frame) ==> match spec_deny(message.frame.user_data.app_data) {
                Ok(d) => r == Ok::<_, Error>(Err::<String, Error>(Error::Denied(d.error_code))),
                Err(e) => r == Err::<Result<String, Error>, Error>(e),
            },
    {
        match UartResponse::from_frame(message.frame)? {
            UartResponse::Normal(a) => {
                let t = TransferFrameResponse::try_from(a)?;
                Ok(Ok(hex_encode(t.message.as_slice())))
            },
            UartResponse::Deny(d) => Ok(Err(Error::Denied(d.error_code))),
        }
    }

    /// The outcome of a transfer that timed out.
    pub fn uart_data_transfer_timeout(&self) -> (r: Result<String, Error>)
        ensures
            r == Err::<String, Error>(Error::Response(MqttResponseError::Timeout)),
    {
        Err(Error::Response(MqttResponseError::Timeout))
    }
}

} // verus!
