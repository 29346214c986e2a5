//! The module's own information: asking for it, and what is reported of it.
use vstd::prelude::*;

use crate::error::Error;
use crate::mqtt_message::MqttMessage;
use crate::protocol::app_data::answer::ConfirmResponse;
use crate::protocol::app_data::query_data::{
    spec_master_id_check, spec_module_info_check, CommModuleInfoRequest, CommModuleInfoResponse,
    GetHplcFreqRequest, GetHplcFreqResponse, MasterIdInfoRequest, MasterIdInfoResponse,
    ModuleInfoRequest, ModuleInfoResponse,
};
use crate::protocol::app_data::{
    date_to_string, module_id_format_string, spec_ascii_chars, spec_date_text, spec_printable_date, Address, Afn, AppData,
    Date, ModuleIdFormat,
};
use crate::protocol::frame::{Frame, FrameSeq};
use crate::request_info::{MqttReqInfo, ReqInfo, UartMessage};
use crate::service::parse_response::{
    mqtt_info_request_uart_handler, mqtt_request_uart_handler, spec_deny, spec_is_deny, UartResponse,
};
use crate::text::{push_decimal, push_str, spec_code_bytes, spec_code_valid, spec_decimal, spec_hex};

verus! {

/// Requests about the module and the reading of its answers.
#[derive(Debug, Clone, Copy, PartialEq, Eq)]
pub struct ModuleInfo;

/// Whether module information, once its checks pass, has text codes.
pub open spec fn spec_module_info_readable(a: AppData) -> bool {
    spec_module_info_check(a) is Ok ==> {
        let u = a.spec_units();
        spec_code_valid(u[30], u[31]) && spec_code_valid(u[32], u[33])
    }
}

/// Whether a module identifier, once its checks pass, has a text factory code.
pub open spec fn spec_master_id_readable(a: AppData) -> bool {
    spec_master_id_check(a) is Ok ==> spec_code_valid(a.spec_units()[0], a.spec_units()[1])
}

/// Whether a module information answer can be read: a denial, or data whose
/// codes are text once its checks pass.
pub fn module_info_readable(frame: &Frame) -> (b: bool)
    ensures
        b == (!spec_is_deny(*frame) ==> spec_module_info_readable(frame.user_data.app_data)),
{
    if frame.is_deny() {
        return true;
    }
    let a = &frame.user_data.app_data;
    if a.check_min(39).is_err() {
        return true;
    }
    let u = a.units_ref();
    let b3 = u[3];
    let speed_num = b3 & 0x0F;
    assert(speed_num <= 15) by (bit_vector)
        requires
            speed_num == b3 & 0x0F,
    ;
    if a.check(Afn::QueryData, 10, 39 + speed_num as usize * 2).is_err() {
        return true;
    }
    crate::text::code_valid(u[30], u[31]) && crate::text::code_valid(u[32], u[33])
}

/// Whether a module identifier answer can be read: a denial, or data whose
/// factory code is text once its checks pass.
pub fn master_id_readable(frame: &Frame) -> (b: bool)
    ensures
        b == (!spec_is_deny(*frame) ==> spec_master_id_readable(frame.user_data.app_data)),
{
    if frame.is_deny() {
        return true;
    }
    let a = &frame.user_data.app_data;
    if a.check_min(3).is_err() {
        return true;
    }
    let u = a.units_ref();
    if a.check(Afn::QueryData, 12, 4 + u[2] as usize).is_err() {
        return true;
    }
    crate::text::code_valid(u[0], u[1])
}

/// The text form of module information that is reported on MQTT.
#[derive(Debug, Clone, PartialEq, Eq)]
pub struct MqttModuleInfoResponse {
    pub communication_mode: String,
    pub slave_monitor_overtime: String,
    pub broadcast_max_overtime: String,
    pub package_max_len: String,
    pub upgrade_max_pack_len: String,
    pub upgrade_action_wait_time: String,
    pub module_addr: String,
    pub support_max_slave_num: String,
    pub support_slave_num: String,
    pub module_ver_info: String,
}

fn decimal_text(n: u64) -> (s: String)
    ensures
        s@ == spec_decimal(n as nat),
{
    let mut s = String::new();
    push_decimal(&mut s, n);
    s
}

impl MqttModuleInfoResponse {
    /// Numbers in decimal, the address in hexadecimal, and the version as
    /// factory code, chip code, `-`, version date, `-`, version.
    pub fn from_module_info(m: &ModuleInfoResponse) -> (r: Self)
        requires
            spec_printable_date(m.version_date),
        ensures
            r.communication_mode@ == spec_decimal(m.comm_mode as nat),
            r.slave_monitor_overtime@ == spec_decimal(m.max_timeout_time as nat),
            r.broadcast_max_overtime@ == spec_decimal(m.broadcast_cmd_timeout_time as nat),
            r.package_max_len@ == spec_decimal(m.max_packet_length as nat),
            r.upgrade_max_pack_len@ == spec_decimal(m.max_packet_per_packet as nat),
            r.upgrade_action_wait_time@ == spec_decimal(m.upgrade_wait_time as nat),
            r.module_addr@ == spec_hex(m.main_node_addr.0@, false),
            r.support_max_slave_num@ == spec_decimal(m.max_node_num as nat),
            r.support_slave_num@ == spec_decimal(m.current_node_num as nat),
            r.module_ver_info@ == m.factory_code@ + m.chip_code@ + "-"@ + spec_date_text(m.version_date)
                + "-"@ + m.version@,
    {
        let mut ver = String::new();
        push_str(&mut ver, m.factory_code.as_str());
        push_str(&mut ver, m.chip_code.as_str());
        push_str(&mut ver, "-");
        push_str(&mut ver, date_to_string(&m.version_date).as_str());
        push_str(&mut ver, "-");
        push_str(&mut ver, m.version.as_str());
        MqttModuleInfoResponse {
            communication_mode: decimal_text(m.comm_mode as u64),
            slave_monitor_overtime: decimal_text(m.max_timeout_time as u64),
            broadcast_max_overtime: decimal_text(m.broadcast_cmd_timeout_time as u64),
            package_max_len: decimal_text(m.max_packet_length as u64),
            upgrade_max_pack_len: decimal_text(m.max_packet_per_packet as u64),
            upgrade_action_wait_time: decimal_text(m.upgrade_wait_time as u64),
            module_addr: m.main_node_addr.to_string(),
            support_max_slave_num: decimal_text(m.max_node_num as u64),
            support_slave_num: decimal_text(m.current_node_num as u64),
            module_ver_info: ver,
        }
    }
}

/// The text form of the local module's version information.
#[derive(Debug, Clone, PartialEq, Eq)]
pub struct MqttModeInfoResponse {
    pub factory_code: String,
    pub module_vendor_code: String,
    pub soft_date: String,
    pub soft_verion: String,
}

impl MqttModeInfoResponse {
    pub fn from_comm_module_info(m: CommModuleInfoResponse) -> (r: Self)
        requires
            spec_printable_date(m.version_date),
        ensures
            r.factory_code == m.factory_code,
            r.module_vendor_code == m.chip_code,
            r.soft_date@ == spec_date_text(m.version_date),
            r.soft_verion == m.version,
    {
        let soft_date = date_to_string(&m.version_date);
        MqttModeInfoResponse {
            factory_code: m.factory_code,
            module_vendor_code: m.chip_code,
            soft_date,
            soft_verion: m.version,
        }
    }
}

/// The HPLC frequency band as reported.
#[derive(Debug, Clone, Copy, PartialEq, Eq)]
pub struct HplcFrequencyResponse {
    pub hplc_freq: u8,
}

impl HplcFrequencyResponse {
    pub fn from_freq(f: GetHplcFreqResponse) -> (r: Self)
        ensures
            r.hplc_freq == f.frequency,
    {
        HplcFrequencyResponse { hplc_freq: f.frequency }
    }
}

/// The text form of the module identifier.
#[derive(Debug, Clone, PartialEq, Eq)]
pub struct ModeIdInfoResponse {
    pub vendor_code: String,
    pub mode_id_len: u8,
    pub mode_id_format: u8,
    pub mode_id_info: String,
}

/// The number of a module identifier format.
pub open spec fn spec_format_code(f: ModuleIdFormat) -> u8 {
    match f {
        ModuleIdFormat::Combine => 0,
        ModuleIdFormat::Bcd => 1,
        ModuleIdFormat::Bin => 2,
        ModuleIdFormat::Ascii => 3,
    }
}

impl ModeIdInfoResponse {
    /// The identifier as text in its own format (the combined format has none).
    pub fn from_master_id(m: MasterIdInfoResponse) -> (r: Self)
        requires
            m.module_id_format != ModuleIdFormat::Combine,
        ensures
            r.vendor_code == m.factory_code,
            r.mode_id_len == m.module_id_length,
            r.mode_id_format == spec_format_code(m.module_id_format),
            m.module_id_format == ModuleIdFormat::Ascii ==> r.mode_id_info@ == spec_ascii_chars(m.module_id@),
            m.module_id_format != ModuleIdFormat::Ascii ==> r.mode_id_info@ == spec_hex(m.module_id@, false),
    {
        let code: u8 = match m.module_id_format {
            ModuleIdFormat::Combine => 0,
            ModuleIdFormat::Bcd => 1,
            ModuleIdFormat::Bin => 2,
            ModuleIdFormat::Ascii => 3,
        };
        let info = module_id_format_string(m.module_id_format, m.module_id.as_slice());
        ModeIdInfoResponse {
            vendor_code: m.factory_code,
            mode_id_len: m.module_id_length,
            mode_id_format: code,
            mode_id_info: info,
        }
    }
}

impl ModuleInfo {
    /// Asks for the module information for an MQTT request.
    pub fn mqtt_get_module_info<T, C>(message: &MqttMessage, seq: &mut FrameSeq) -> (m: UartMessage<T, C>)
        requires
            message.spec_answerable(),
        ensures
            m.frame.user_data.app_data.spec_has(Afn::QueryData, 10, None),
            m.req_info.mqtt_req_info is Some,
            m.req_info.seq_num == old(seq).spec_next(),
    {
        mqtt_request_uart_handler(AppData::from(ModuleInfoRequest), message, seq)
    }

    /// Asks for the module information, for an MQTT request or for the service itself.
    pub fn get_module_info<T, C>(mqtt_req_info: Option<MqttReqInfo<T>>, seq: &mut FrameSeq) -> (m: UartMessage<T, C>)
        ensures
            m.frame.user_data.app_data.spec_has(Afn::QueryData, 10, None),
            m.req_info.mqtt_req_info == mqtt_req_info,
            m.req_info.seq_num == old(seq).spec_next(),
    {
        mqtt_info_request_uart_handler(AppData::from(ModuleInfoRequest), mqtt_req_info, seq)
    }

    /// Reads an answer to a module information request.
    pub fn module_info_response<T, C>(message: UartMessage<T, C>) -> (r: Result<UartResponse<ModuleInfoResponse>, Error>)
        requires
            !spec_is_deny(message.frame) ==> spec_module_info_readable(message.frame.user_data.app_data),
        ensures
            spec_is_deny(message.frame) ==> match spec_deny(message.frame.user_data.app_data) {
                Ok(d) => r == Ok::<_, Error>(UartResponse::<ModuleInfoResponse>::Deny(d)),
                Err(e) => r == Err::<UartResponse<ModuleInfoResponse>, Error>(e),
            },
            !spec_is_deny(message.frame) ==> {
                let a = message.frame.user_data.app_data;
                &&& r is Ok <==> spec_module_info_check(a) is Ok
                &&& r matches Err(e) ==> spec_module_info_check(a) == Err::<(), Error>(e)
                &&& r matches Ok(resp) ==> resp matches UartResponse::Normal(m)
                    && m.main_node_addr.wire() == a.spec_units().subrange(14, 20)
            },
    {
        match UartResponse::from_frame(message.frame)? {
            UartResponse::Normal(a) => Ok(UartResponse::Normal(ModuleInfoResponse::from_app_data(a)?)),
            UartResponse::Deny(d) => Ok(UartResponse::Deny(d)),
        }
    }

    /// Reads the module information asked for at start-up: the master node's
    /// address and the information to keep; a denial is an error.
    pub fn init_module_info_response<T, C>(message: UartMessage<T, C>) -> (r: Result<(Address, ModuleInfoResponse), Error>)
        requires
            !spec_is_deny(message.frame) ==> spec_module_info_readable(message.frame.user_data.app_data),
        ensures
            spec_is_deny(message.frame) ==> r is Err && (spec_deny(message.frame.user_data.app_data) matches Ok(d)
                ==> r == Err::<(Address, ModuleInfoResponse), Error>(Error::Denied(d.error_code))),
            !spec_is_deny(message.frame) ==> (r is Ok <==> spec_module_info_check(message.frame.user_data.app_data) is Ok),
            r matches Ok(p) ==> p.0 == p.1.main_node_addr,
    {
        match Self::module_info_response(message)? {
            UartResponse::Normal(m) => Ok((m.main_node_addr, m)),
            UartResponse::Deny(d) => Err(Error::Denied(d.error_code)),
        }
    }

    /// Whether the module reads meters on its own (bit 4 of the metering mode); no
    /// information yet counts as no.
    pub fn auto_reading_meter(module_info: Option<&ModuleInfoResponse>) -> (b: u8)
        ensures
            b == match module_info {
                Some(m) => m.metering_mode & 0x10,
                None => 0,
            },
    {
        match module_info {
            Some(m) => m.metering_mode & 0x10,
            None => 0,
        }
    }

    /// A module that reports its information is answered with a confirmation; the
    /// report and the confirmation (with the report's sequence number) come back.
    pub fn slave_module_info_report<T, C>(message: UartMessage<T, C>) -> (r: Result<(ModuleInfoResponse, UartMessage<T, C>), Error>)
        requires
            !spec_is_deny(message.frame),
            spec_module_info_readable(message.frame.user_data.app_data),
        ensures
            r is Ok <==> spec_module_info_check(message.frame.user_data.app_data) is Ok,
            r matches Err(e) ==> spec_module_info_check(message.frame.user_data.app_data) == Err::<(), Error>(e),
            r matches Ok(p) ==> p.1.frame.user_data.info_field.spec_seq_num()
                == message.frame.user_data.info_field.spec_seq_num() && p.1.frame.user_data.app_data.spec_has(
                Afn::Answer,
                1,
                Some(crate::bytes::be32_bytes(0) + crate::bytes::le16_bytes(0)),
            ) && p.1.req_info.mqtt_req_info is None,
    {
        let seq = message.frame.get_seq();
        let response = match UartResponse::from_frame(message.frame)? {
            UartResponse::Normal(a) => ModuleInfoResponse::from_app_data(a)?,
            UartResponse::Deny(_) => {
                assert(false);
                return Err(Error::Response(crate::error::MqttResponseError::Timeout));
            },
        };
        let answer = AppData::from(ConfirmResponse { channel_status: 0, wait_time: 0 });
        let response_frame = Frame::new_response(seq, None, answer);
        let req_info = ReqInfo::new(&response_frame, None, None);
        Ok((response, UartMessage::new(req_info, response_frame)))
    }

    /// Asks for the module identifier for an MQTT request.
    pub fn mqtt_get_master_id_info<T, C>(message: &MqttMessage, seq: &mut FrameSeq) -> (m: UartMessage<T, C>)
        requires
            message.spec_answerable(),
        ensures
            m.frame.user_data.app_data.spec_has(Afn::QueryData, 12, None),
            m.req_info.mqtt_req_info is Some,
            m.req_info.seq_num == old(seq).spec_next(),
    {
        mqtt_request_uart_handler(AppData::from(MasterIdInfoRequest), message, seq)
    }

    /// Reads an answer to a module identifier request.
    pub fn master_id_info_response<T, C>(message: UartMessage<T, C>) -> (r: Result<UartResponse<MasterIdInfoResponse>, Error>)
        requires
            !spec_is_deny(message.frame) ==> spec_master_id_readable(message.frame.user_data.app_data),
        ensures
            spec_is_deny(message.frame) ==> match spec_deny(message.frame.user_data.app_data) {
                Ok(d) => r == Ok::<_, Error>(UartResponse::<MasterIdInfoResponse>::Deny(d)),
                Err(e) => r == Err::<UartResponse<MasterIdInfoResponse>, Error>(e),
            },
            !spec_is_deny(message.frame) ==> {
                let a = message.frame.user_data.app_data;
                let u = a.spec_units();
                &&& spec_master_id_check(a) matches Err(e) ==> r == Err::<UartResponse<MasterIdInfoResponse>, Error>(e)
                &&& r matches Ok(resp) ==> resp matches UartResponse::Normal(m) && m.module_id_length == u[2]
                    && m.module_id@ == u.skip(4) && ModuleIdFormat::spec_from_code(u[3]) == Some(m.module_id_format)
                &&& spec_master_id_check(a) is Ok ==> (r is Ok <==> ModuleIdFormat::spec_from_code(u[3]) is Some)
            },
    {
        match UartResponse::from_frame(message.frame)? {
            UartResponse::Normal(a) => Ok(UartResponse::Normal(MasterIdInfoResponse::from_app_data(a)?)),
            UartResponse::Deny(d) => Ok(UartResponse::Deny(d)),
        }
    }

    /// Asks for the local module's version information for an MQTT request.
    pub fn mqtt_get_mode_info<T, C>(message: &MqttMessage, seq: &mut FrameSeq) -> (m: UartMessage<T, C>)
        requires
            message.spec_answerable(),
        ensures
            m.frame.user_data.app_data.spec_has(Afn::QueryData, 1, None),
            m.req_info.mqtt_req_info is Some,
            m.req_info.seq_num == old(seq).spec_next(),
    {
        mqtt_request_uart_handler(AppData::from(CommModuleInfoRequest), message, seq)
    }

    /// Reads an answer to a version information request.
    pub fn uart_get_mode_info_response<T, C>(message: UartMessage<T, C>) -> (r: Result<UartResponse<CommModuleInfoResponse>, Error>)
        requires
            !spec_is_deny(message.frame) ==> (message.frame.user_data.app_data.spec_check(Afn::QueryData, 1, 9) is Ok
                ==> {
                let u = message.frame.user_data.app_data.spec_units();
                spec_code_valid(u[0], u[1]) && spec_code_valid(u[2], u[3])
            }),
        ensures
            spec_is_deny(message.frame) ==> match spec_deny(message.frame.user_data.app_data) {
                Ok(d) => r == Ok::<_, Error>(UartResponse::<CommModuleInfoResponse>::Deny(d)),
                Err(e) => r == Err::<UartResponse<CommModuleInfoResponse>, Error>(e),
            },
            !spec_is_deny(message.frame) ==> {
                let a = message.frame.user_data.app_data;
                let u = a.spec_units();
                &&& r is Ok <==> a.spec_check(Afn::QueryData, 1, 9) is Ok
                &&& r matches Err(e) ==> a.spec_check(Afn::QueryData, 1, 9) == Err::<(), Error>(e)
                &&& r matches Ok(resp) ==> resp matches UartResponse::Normal(m)
                    && m.factory_code@ == vstd::utf8::decode_utf8(spec_code_bytes(u[0], u[1]))
                    && m.chip_code@ == vstd::utf8::decode_utf8(spec_code_bytes(u[2], u[3]))
                    && m.version@ == spec_hex(u.subrange(7, 9).reverse(), false)
            },
    {
        match UartResponse::from_frame(message.frame)? {
            UartResponse::Normal(a) => Ok(UartResponse::Normal(CommModuleInfoResponse::from_app_data(a)?)),
            UartResponse::Deny(d) => Ok(UartResponse::Deny(d)),
        }
    }

    /// Asks for the HPLC frequency band for an MQTT request.
    pub fn mqtt_get_hplc_freq<T, C>(message: &MqttMessage, seq: &mut FrameSeq) -> (m: UartMessage<T, C>)
        requires
            message.spec_answerable(),
        ensures
            m.frame.user_data.app_data.spec_has(Afn::QueryData, 16, None),
            m.req_info.mqtt_req_info is Some,
            m.req_info.seq_num == old(seq).spec_next(),
    {
        mqtt_request_uart_handler(AppData::from(GetHplcFreqRequest), message, seq)
    }

    /// Reads an answer to a frequency band request.
    pub fn uart_get_hplc_freq_response<T, C>(message: UartMessage<T, C>) -> (r: Result<UartResponse<GetHplcFreqResponse>, Error>)
        ensures
            spec_is_deny(message.frame) ==> match spec_deny(message.frame.user_data.app_data) {
                Ok(d) => r == Ok::<_, Error>(UartResponse::<GetHplcFreqResponse>::Deny(d)),
                Err(e) => r == Err::<UartResponse<GetHplcFreqResponse>, Error>(e),
            },
            !spec_is_deny(message.frame) ==> {
                let a = message.frame.user_data.app_data;
                &&& r is Ok <==> a.spec_check(Afn::QueryData, 16, 1) is Ok
                &&& r matches Err(e) ==> a.spec_check(Afn::QueryData, 16, 1) == Err::<(), Error>(e)
                &&& r matches Ok(resp) ==> resp == UartResponse::Normal(
                    GetHplcFreqResponse { frequency: a.spec_units()[0] },
                )
            },
    {
        match UartResponse::from_frame(message.frame)? {
            UartResponse::Normal(a) => Ok(UartResponse::Normal(GetHplcFreqResponse::try_from(a)?)),
            UartResponse::Deny(d) => Ok(UartResponse::Deny(d)),
        }
    }
}

} // verus!
