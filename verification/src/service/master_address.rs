//! The master node's address: derived from the device serial number, read from
//! and written to the module.
use vstd::prelude::*;

use crate::error::Error;
use crate::mqtt_message::{status_payload_text, MqttMessage};
use crate::protocol::app_data::answer::ConfirmResponse;
use crate::protocol::app_data::ctrl_cmd::AddressSetRequest;
use crate::protocol::app_data::query_data::{MasterAddressRequest, MasterAddressResponse};
use crate::protocol::app_data::{Address, AppData};
use crate::protocol::frame::{CtrlField, Frame, FrameSeq};
use crate::protocol::user_data::UserData;
use crate::request_info::{MqttReqInfo, UartMessage};
use crate::service::parse_response::{
    mqtt_info_request_uart_handler, mqtt_request_uart_handler, mqtt_response_message, spec_deny,
    spec_is_deny, spec_outcome_status, UartResponse,
};
use crate::text::{push_char, spec_hex_decode, spec_hex_value, spec_is_hex};

verus! {

/// Whether a character is an ASCII decimal digit.
pub open spec fn spec_is_digit(c: char) -> bool {
    '0' <= c && c <= '9'
}

/// The decimal digits of a text, in order, at most twelve of them.
pub open spec fn spec_first_digits(s: Seq<char>) -> Seq<char>
    decreases s.len(),
{
    if s.len() == 0 {
        Seq::empty()
    } else {
        let d = spec_first_digits(s.drop_last());
        if spec_is_digit(s.last()) && d.len() < 12 {
            d.push(s.last())
        } else {
            d
        }
    }
}

/// The address text of a serial number: its first twelve digits, zeros in front
/// when there are fewer.
pub open spec fn spec_esn_address_text(esn: Seq<char>) -> Seq<char> {
    let d = spec_first_digits(esn);
    Seq::new((12 - d.len()) as nat, |i: int| '0') + d
}

proof fn lemma_first_digits(s: Seq<char>)
    ensures
        spec_first_digits(s).len() <= 12,
        forall|i: int| 0 <= i < spec_first_digits(s).len() ==> spec_is_digit(#[trigger] spec_first_digits(s)[i]),
    decreases s.len(),
{
    if s.len() > 0 {
        lemma_first_digits(s.drop_last());
        let d = spec_first_digits(s.drop_last());
        if spec_is_digit(s.last()) && d.len() < 12 {
            assert forall|i: int| 0 <= i < d.push(s.last()).len() implies spec_is_digit(
                #[trigger] d.push(s.last())[i],
            ) by {
                if i < d.len() {
                    assert(d.push(s.last())[i] == d[i]);
                }
            }
        }
    }
}

/// The master node's address as this service keeps it.
#[derive(Debug, Clone, Copy, PartialEq, Eq)]
pub struct MasterAddress {
    pub address: Address,
}

impl MasterAddress {
    /// Starts with the all-zero address.
    pub fn new() -> (m: Self)
        ensures
            m.address.0@ == seq![0u8, 0u8, 0u8, 0u8, 0u8, 0u8],
    {
        let m = MasterAddress { address: Address([0u8; 6]) };
        assert(m.address.0@ =~= seq![0u8, 0u8, 0u8, 0u8, 0u8, 0u8]);
        m
    }

    /// Takes the address from a serial number: its digits (letters dropped), the
    /// first twelve, zeros in front when there are fewer, read as hexadecimal.
    pub fn update_address(&mut self, esn: &str)
        ensures
            final(self).address.0@ == spec_hex_decode(spec_esn_address_text(esn@)),
    {
        let n = esn.unicode_len();
        let mut digits = String::new();
        let mut count: usize = 0;
        let mut i: usize = 0;
        while i < n
            invariant
                n == esn@.len(),
                i <= n,
                digits@ == spec_first_digits(esn@.take(i as int)),
                count == digits@.len(),
            decreases n - i,
        {
            let c = esn.get_char(i);
            proof {
                assert(esn@.take(i + 1).drop_last() =~= esn@.take(i as int));
                assert(esn@.take(i + 1).last() == c);
                lemma_first_digits(esn@.take(i as int));
            }
            if '0' <= c && c <= '9' && count < 12 {
                push_char(&mut digits, c);
                count = count + 1;
            }
            i = i + 1;
        }
        assert(esn@.take(n as int) =~= esn@);
        proof {
            lemma_first_digits(esn@);
        }
        let mut text = String::new();
        let mut k: usize = count;
        while k < 12
            invariant
                count <= k <= 12,
                text@ == Seq::new((k - count) as nat, |j: int| '0'),
            decreases 12 - k,
        {
            push_char(&mut text, '0');
            k = k + 1;
            assert(text@ =~= Seq::new((k - count) as nat, |j: int| '0'));
        }
        crate::text::push_str(&mut text, digits.as_str());
        let ghost t = spec_esn_address_text(esn@);
        assert(text@ =~= t);
        assert(Address::spec_is_address_text(text@)) by {
            assert forall|j: int| 0 <= j < t.len() implies (#[trigger] spec_hex_value(t[j])) is Some by {
                if j < 12 - count {
                    assert(t[j] == '0');
                } else {
                    assert(t[j] == digits@[j - (12 - count)]);
                }
            }
        }
        self.address = Address::from_hex(text.as_str());
    }

    pub fn get_master_address(&self) -> (a: Address)
        ensures
            a == self.address,
    {
        self.address
    }

    /// Asks the module for its master address, for an MQTT request.
    pub fn mqtt_get_address<T, C>(&self, message: &MqttMessage, seq: &mut FrameSeq) -> (m: UartMessage<T, C>)
        requires
            message.spec_answerable(),
        ensures
            m.frame.user_data.app_data.spec_has(crate::protocol::app_data::Afn::QueryData, 4, None),
            m.frame == Frame::spec_assembled(
                CtrlField::spec_new(false),
                UserData::spec_new(old(seq).spec_next(), None, m.frame.user_data.app_data),
            ),
            m.req_info.mqtt_req_info is Some,
            m.req_info.seq_num == old(seq).spec_next(),
    {
        let app_data = AppData::from(MasterAddressRequest);
        mqtt_request_uart_handler(app_data, message, seq)
    }

    /// Reads the module's answer to an address query.
    pub fn uart_get_address<T, C>(message: UartMessage<T, C>) -> (r: Result<UartResponse<MasterAddressResponse>, Error>)
        ensures
            !spec_is_deny(message.frame) ==> {
                let a = message.frame.user_data.app_data;
                &&& r is Ok <==> a.spec_check(crate::protocol::app_data::Afn::QueryData, 4, 6) is Ok
                &&& r matches Ok(UartResponse::Normal(resp)) ==> resp.master_addr.wire() == a.spec_units()
                &&& r matches Err(e) ==> a.spec_check(crate::protocol::app_data::Afn::QueryData, 4, 6) == Err::<(), Error>(e)
                &&& !(r matches Ok(UartResponse::Deny(_)))
            },
            spec_is_deny(message.frame) ==> match spec_deny(message.frame.user_data.app_data) {
                Ok(d) => r == Ok::<_, Error>(UartResponse::<MasterAddressResponse>::Deny(d)),
                Err(e) => r == Err::<UartResponse<MasterAddressResponse>, Error>(e),
            },
    {
        match UartResponse::from_frame(message.frame)? {
            UartResponse::Normal(a) => Ok(UartResponse::Normal(MasterAddressResponse::try_from(a)?)),
            UartResponse::Deny(d) => Ok(UartResponse::Deny(d)),
        }
    }

    /// Sets the module's master address for an MQTT request; the address to keep
    /// once the module confirms travels with the request.
    pub fn mqtt_set_address<C>(message: &MqttMessage, master_node: &str, seq: &mut FrameSeq) -> (m: UartMessage<Address, C>)
        requires
            message.spec_answerable(),
            Address::spec_is_address_text(master_node@),
        ensures
            m.frame.user_data.app_data.spec_has(
                crate::protocol::app_data::Afn::CtrlCmd,
                1,
                Some(spec_hex_decode(master_node@).reverse()),
            ),
            m.req_info.mqtt_req_info matches Some(i) && i.extra_data matches Some(a) && a.0@
                == spec_hex_decode(master_node@),
            m.req_info.seq_num == old(seq).spec_next(),
    {
        let address = Address::from_hex(master_node);
        let app_data = AppData::from(AddressSetRequest::new(address));
        let info = MqttReqInfo::new(message.topic(), message.get_token(), Some(address));
        mqtt_info_request_uart_handler(app_data, Some(info), seq)
    }

    /// Sets the module's master address during start-up.
    pub fn init_set_address<T, C>(&self, master_address: Address, seq: &mut FrameSeq) -> (m: UartMessage<T, C>)
        ensures
            m.frame.user_data.app_data.spec_has(
                crate::protocol::app_data::Afn::CtrlCmd,
                1,
                Some(master_address.wire()),
            ),
            m.req_info.mqtt_req_info is None,
            m.req_info.seq_num == old(seq).spec_next(),
    {
        let app_data = AppData::from(AddressSetRequest::new(master_address));
        mqtt_info_request_uart_handler(app_data, None, seq)
    }

    /// Whether the module confirmed the start-up address.
    pub fn init_set_address_response<T, C>(&self, message: UartMessage<T, C>) -> (r: Result<(), Error>)
        ensures
            !spec_is_deny(message.frame) ==> (r is Ok <==> message.frame.user_data.app_data.spec_check(
                crate::protocol::app_data::Afn::Answer,
                1,
                6,
            ) is Ok),
            spec_is_deny(message.frame) ==> r is Err && (spec_deny(message.frame.user_data.app_data) matches Ok(d)
                ==> r == Err::<(), Error>(Error::Denied(d.error_code))),
    {
        match UartResponse::from_frame(message.frame)? {
            UartResponse::Normal(a) => {
                ConfirmResponse::try_from(a)?;
                Ok(())
            },
            UartResponse::Deny(d) => Err(Error::Denied(d.error_code)),
        }
    }

    /// Takes the module's answer to an address change: on confirmation the address
    /// that travelled with the request is kept and the request answered `OK`; a
    /// denial is answered with its reason.
    pub fn uart_set_address<C>(&mut self, message: UartMessage<Address, C>) -> (r: Result<MqttMessage, Error>)
        requires
            message.req_info.mqtt_req_info matches Some(i) && i.extra_data is Some,
        ensures
            ({
                let i = message.req_info.mqtt_req_info->0;
                let a = message.frame.user_data.app_data;
                &&& !spec_is_deny(message.frame) ==> {
                    &&& r is Ok <==> a.spec_check(crate::protocol::app_data::Afn::Answer, 1, 6) is Ok
                    &&& r is Ok ==> final(self).address == i.extra_data->0
                        && r->Ok_0.topic == i.topic && exists|ts: Seq<char>|
                            r->Ok_0.payload@ == status_payload_text(i.token@, ts, "OK"@, "OK"@)
                    &&& r is Err ==> *final(self) == *old(self)
                }
                &&& spec_is_deny(message.frame) ==> *final(self) == *old(self) && match spec_deny(a) {
                    Ok(d) => r matches Ok(m) && m.topic == i.topic && exists|ts: Seq<char>|
                        m.payload@ == status_payload_text(
                            i.token@,
                            ts,
                            "FAILURE"@,
                            Error::Denied(d.error_code).spec_text(),
                        ),
                    Err(e) => r == Err::<MqttMessage, Error>(e),
                }
            }),
    {
        let UartMessage { req_info, frame, .. } = message;
        let response = UartResponse::from_frame(frame)?;
        let mut info = match req_info.into_mqtt_req_info() {
            Some(i) => i,
            None => {
                assert(false);
                return Err(Error::Response(crate::error::MqttResponseError::Timeout));
            },
        };
        match response {
            UartResponse::Normal(a) => {
                ConfirmResponse::try_from(a)?;
                match info.get_extra_data() {
                    Some(address) => {
                        self.address = address;
                    },
                    None => {
                        assert(false);
                    },
                }
                let m = mqtt_response_message(Ok(()), info);
                assert(spec_outcome_status(Ok(())).0 == "OK"@);
                Ok(m)
            },
            UartResponse::Deny(d) => Ok(mqtt_response_message(Err(Error::Denied(d.error_code)), info)),
        }
    }
}

} // verus!
