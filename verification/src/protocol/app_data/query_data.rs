//! AFN 03H: queries of the local module.
use vstd::prelude::*;

use crate::bytes::{le16, u16_from_le};
use crate::error::{Error, ValueKind};
use crate::protocol::app_data::{
    address_at, date_to_string, date_transfer, slice_to_bcd_string, spec_date_text,
    spec_printable_date, Address, Afn, AppData, Date, ModuleIdFormat, ADDR_LEN,
};
use crate::protocol::user_data::spec_hex_to_dec;
use crate::text::{
    code_string, push_decimal, push_line, push_str, spec_code_bytes, spec_code_valid, spec_decimal,
    spec_hex, spec_line,
};

verus! {

/// Function numbers of AFN 03H.
#[derive(Debug, Clone, Copy, PartialEq, Eq)]
pub enum QueryData {
    CommModuleInfo,
    MasterAddress,
    BroadcastDelay,
    GetModuleInfo,
    GetMasterIdInfo,
    HplcFrequency,
}

impl QueryData {
    pub open spec fn spec_code(self) -> u8 {
        match self {
            QueryData::CommModuleInfo => 1,
            QueryData::MasterAddress => 4,
            QueryData::BroadcastDelay => 9,
            QueryData::GetModuleInfo => 10,
            QueryData::GetMasterIdInfo => 12,
            QueryData::HplcFrequency => 16,
        }
    }

    pub fn code(self) -> (b: u8)
        ensures
            b == self.spec_code(),
    {
        match self {
            QueryData::CommModuleInfo => 1,
            QueryData::MasterAddress => 4,
            QueryData::BroadcastDelay => 9,
            QueryData::GetModuleInfo => 10,
            QueryData::GetMasterIdInfo => 12,
            QueryData::HplcFrequency => 16,
        }
    }
}

/// The date that three BCD bytes (year, month, day) denote.
pub open spec fn spec_bcd_date(year: u8, month: u8, day: u8) -> Date {
    Date {
        year: (2000 + spec_hex_to_dec(year)) as i32,
        month: spec_hex_to_dec(month) as u32,
        day: spec_hex_to_dec(day) as u32,
    }
}

#[derive(Debug, Clone, Copy, Default, PartialEq, Eq)]
pub struct CommModuleInfoRequest;

impl From<CommModuleInfoRequest> for AppData {
    fn from(v: CommModuleInfoRequest) -> (a: AppData)
        ensures
            a.spec_has(Afn::QueryData, 1, None),
    {
        AppData::without_units(Afn::QueryData, QueryData::CommModuleInfo.code())
    }
}

impl vstd::std_specs::convert::FromSpecImpl<CommModuleInfoRequest> for AppData {
    open spec fn obeys_from_spec() -> bool {
        false
    }

    open spec fn from_spec(v: CommModuleInfoRequest) -> AppData {
        arbitrary()
    }
}

/// Factory, chip, version date and version of the local module.
#[derive(Debug, Clone, PartialEq, Eq)]
pub struct CommModuleInfoResponse {
    pub factory_code: String,
    pub chip_code: String,
    pub version_date: Date,
    pub version: String,
}

impl CommModuleInfoResponse {
    /// Decodes the module information (nine bytes); the factory and chip codes must
    /// be text.
    pub fn from_app_data(app_data: AppData) -> (r: Result<Self, Error>)
        requires
            app_data.spec_check(Afn::QueryData, 1, 9) is Ok ==> {
                let u = app_data.spec_units();
                spec_code_valid(u[0], u[1]) && spec_code_valid(u[2], u[3])
            },
        ensures
            r is Ok <==> app_data.spec_check(Afn::QueryData, 1, 9) is Ok,
            r matches Err(e) ==> app_data.spec_check(Afn::QueryData, 1, 9) == Err::<(), Error>(e),
            r matches Ok(m) ==> {
                let u = app_data.spec_units();
                &&& m.factory_code@ == vstd::utf8::decode_utf8(spec_code_bytes(u[0], u[1]))
                &&& m.chip_code@ == vstd::utf8::decode_utf8(spec_code_bytes(u[2], u[3]))
                &&& m.version_date == spec_bcd_date(u[6], u[5], u[4])
                &&& m.version@ == spec_hex(u.subrange(7, 9).reverse(), false)
            },
    {
        app_data.check(Afn::QueryData, QueryData::CommModuleInfo.code(), 9)?;
        let u = app_data.units_ref();
        Ok(CommModuleInfoResponse {
            factory_code: code_string(u[0], u[1]),
            chip_code: code_string(u[2], u[3]),
            version_date: date_transfer(u[6], u[5], u[4]),
            version: slice_to_bcd_string(&u.as_slice()[7..9]),
        })
    }
}

#[derive(Debug, Clone, Copy, Default, PartialEq, Eq)]
pub struct MasterAddressRequest;

impl From<MasterAddressRequest> for AppData {
    fn from(v: MasterAddressRequest) -> (a: AppData)
        ensures
            a.spec_has(Afn::QueryData, 4, None),
    {
        AppData::without_units(Afn::QueryData, QueryData::MasterAddress.code())
    }
}

impl vstd::std_specs::convert::FromSpecImpl<MasterAddressRequest> for AppData {
    open spec fn obeys_from_spec() -> bool {
        false
    }

    open spec fn from_spec(v: MasterAddressRequest) -> AppData {
        arbitrary()
    }
}

/// The master node address.
#[derive(Debug, Clone, Copy, PartialEq, Eq)]
pub struct MasterAddressResponse {
    pub master_addr: Address,
}

impl TryFrom<AppData> for MasterAddressResponse {
    type Error = Error;

    fn try_from(app_data: AppData) -> (r: Result<Self, Error>)
        ensures
            r is Ok <==> app_data.spec_check(Afn::QueryData, 4, 6) is Ok,
            r matches Err(e) ==> app_data.spec_check(Afn::QueryData, 4, 6) == Err::<(), Error>(e),
            r matches Ok(m) ==> m.master_addr.wire() == app_data.spec_units(),
    {
        app_data.check(Afn::QueryData, QueryData::MasterAddress.code(), ADDR_LEN)?;
        let u = app_data.units_ref();
        let master_addr = address_at(u.as_slice(), 0);
        assert(app_data.spec_units().subrange(0, 6) =~= app_data.spec_units());
        Ok(MasterAddressResponse { master_addr })
    }
}

impl vstd::std_specs::convert::TryFromSpecImpl<AppData> for MasterAddressResponse {
    open spec fn obeys_try_from_spec() -> bool {
        false
    }

    open spec fn try_from_spec(app_data: AppData) -> Result<Self, Error> {
        arbitrary()
    }
}

/// Asks how long broadcasting a message takes.
#[derive(Debug, Clone, PartialEq, Eq)]
pub struct BroadcastDelayRequest {
    pub protocol_type: u8,
    pub message: Vec<u8>,
}

impl BroadcastDelayRequest {
    pub fn new(protocol_type: u8, message: Vec<u8>) -> (r: Self)
        ensures
            r.protocol_type == protocol_type,
            r.message@ == message@,
    {
        Self { protocol_type, message }
    }
}

impl From<BroadcastDelayRequest> for AppData {
    /// Protocol type, message length (one byte), message.
    fn from(value: BroadcastDelayRequest) -> (a: AppData)
        ensures
            a.spec_has(
                Afn::QueryData,
                9,
                Some(seq![value.protocol_type, value.message@.len() as u8] + value.message@),
            ),
    {
        let mut data = Vec::new();
        data.push(value.protocol_type);
        data.push(value.message.len() as u8);
        crate::bytes::extend_bytes(&mut data, value.message.as_slice());
        assert(data@ =~= seq![value.protocol_type, value.message@.len() as u8] + value.message@);
        AppData::with_units(Afn::QueryData, QueryData::BroadcastDelay.code(), data)
    }
}

impl vstd::std_specs::convert::FromSpecImpl<BroadcastDelayRequest> for AppData {
    open spec fn obeys_from_spec() -> bool {
        false
    }

    open spec fn from_spec(value: BroadcastDelayRequest) -> AppData {
        arbitrary()
    }
}

pub const PREFIX_LEN: usize = 4;

/// Broadcast delay, with the message it was asked for.
#[derive(Debug, Clone, PartialEq, Eq)]
pub struct BroadcastDelayResponse {
    pub delay: u16,
    pub protocol_type: u8,
    pub message_len: u8,
    pub message: Vec<u8>,
}

impl TryFrom<AppData> for BroadcastDelayResponse {
    type Error = Error;

    fn try_from(app_data: AppData) -> (r: Result<Self, Error>)
        ensures
            ({
                let u = app_data.spec_units();
                let pre = match app_data.spec_check_min(4) {
                    Err(e) => Err(e),
                    Ok(_) => app_data.spec_check(Afn::QueryData, 9, (4 + u[3]) as usize),
                };
                &&& r is Ok <==> pre is Ok
                &&& r matches Err(e) ==> pre == Err::<(), Error>(e)
                &&& r matches Ok(b) ==> b.delay == le16(u[0], u[1]) && b.protocol_type == u[2]
                    && b.message_len == u[3] && b.message@ == u.skip(4)
            }),
    {
        app_data.check_min(PREFIX_LEN)?;
        let u = app_data.units_ref();
        let message_len = u[3] as usize;
        app_data.check(Afn::QueryData, QueryData::BroadcastDelay.code(), PREFIX_LEN + message_len)?;
        let message = crate::bytes::copy_range(u.as_slice(), PREFIX_LEN, u.len());
        assert(message@ =~= app_data.spec_units().skip(4));
        Ok(BroadcastDelayResponse {
            delay: u16_from_le(u[0], u[1]),
            protocol_type: u[2],
            message_len: message_len as u8,
            message,
        })
    }
}

impl vstd::std_specs::convert::TryFromSpecImpl<AppData> for BroadcastDelayResponse {
    open spec fn obeys_try_from_spec() -> bool {
        false
    }

    open spec fn try_from_spec(app_data: AppData) -> Result<Self, Error> {
        arbitrary()
    }
}

#[derive(Debug, Clone, Copy, Default, PartialEq, Eq)]
pub struct ModuleInfoRequest;

impl From<ModuleInfoRequest> for AppData {
    fn from(v: ModuleInfoRequest) -> (a: AppData)
        ensures
            a.spec_has(Afn::QueryData, 10, None),
    {
        AppData::without_units(Afn::QueryData, QueryData::GetModuleInfo.code())
    }
}

impl vstd::std_specs::convert::FromSpecImpl<ModuleInfoRequest> for AppData {
    open spec fn obeys_from_spec() -> bool {
        false
    }

    open spec fn from_spec(v: ModuleInfoRequest) -> AppData {
        arbitrary()
    }
}

/// Operating parameters of the local module.
#[derive(Debug, Clone, PartialEq, Eq)]
pub struct ModuleInfoResponse {
    pub metering_mode: u8,
    pub node_info_mode: u8,
    pub route_management_mode: u8,
    pub comm_mode: u8,
    pub broadcast_cmd_mode: u8,
    pub broadcast_cmd_confirm: u8,
    pub fail_node_change_mode: u8,
    pub delay_param_support: u8,
    pub low_voltage_power_off: u8,
    pub channel_num: u8,
    pub speed_num: u8,
    pub max_timeout_time: u8,
    pub broadcast_cmd_timeout_time: u16,
    pub max_packet_length: u16,
    pub max_packet_per_packet: u16,
    pub upgrade_wait_time: u8,
    pub main_node_addr: Address,
    pub max_node_num: u16,
    pub current_node_num: u16,
    pub protocol_release_date: Date,
    pub last_record_date: Date,
    pub factory_code: String,
    pub chip_code: String,
    pub version_date: Date,
    pub version: String,
    pub comm_speed: Vec<u16>,
}

/// The outcome of checking module information: 39 bytes at least, then code,
/// number and 39 bytes plus two per speed.
pub open spec fn spec_module_info_check(app_data: AppData) -> Result<(), Error> {
    let u = app_data.spec_units();
    match app_data.spec_check_min(39) {
        Err(e) => Err(e),
        Ok(_) => app_data.spec_check(Afn::QueryData, 10, (39 + (u[3] & 0x0F) * 2) as usize),
    }
}

/// The lines of the communication rates: each rate and its unit flag.
pub open spec fn spec_speed_lines(speeds: Seq<u16>) -> Seq<char>
    decreases speeds.len(),
{
    if speeds.len() == 0 {
        Seq::empty()
    } else {
        let v = speeds.last();
        spec_speed_lines(speeds.drop_last()) + "\tspeed: "@ + spec_decimal((v & 0x7fff) as nat)
            + ", unit_flag: "@ + spec_decimal(((v >> 15u16) & 0x01) as nat) + "\n"@
    }
}

impl ModuleInfoResponse {
    /// The numeric part of the text form.
    pub open spec fn spec_numbers_text(self) -> Seq<char> {
        spec_line("comm_mode: "@, self.comm_mode as nat) + spec_line(
            "max_timeout_time: "@,
            self.max_timeout_time as nat,
        ) + spec_line("broadcast_cmd_timeout_time: "@, self.broadcast_cmd_timeout_time as nat)
            + spec_line("max_packet_length: "@, self.max_packet_length as nat) + spec_line(
            "max_packet_per_packet: "@,
            self.max_packet_per_packet as nat,
        ) + spec_line("upgrade_wait_time: "@, self.upgrade_wait_time as nat) + "main_node_addr: "@
            + spec_hex(self.main_node_addr.0@, false) + "\n"@ + spec_line(
            "max_node_num: "@,
            self.max_node_num as nat,
        ) + spec_line("current_node_num: "@, self.current_node_num as nat)
    }

    /// The text form: one labelled line per value, then one line per rate.
    pub open spec fn spec_text(self) -> Seq<char> {
        self.spec_numbers_text() + "protocol_release_date: "@ + spec_date_text(
            self.protocol_release_date,
        ) + "\n"@ + "last_record_date: "@ + spec_date_text(self.last_record_date) + "\n"@
            + "factory_code: "@ + self.factory_code@ + "\n"@ + "chip_code: "@ + self.chip_code@
            + "\n"@ + "version_date: "@ + spec_date_text(self.version_date) + "\n"@ + "version: "@
            + self.version@ + "\n"@ + "comm_speed:\n"@ + spec_speed_lines(self.comm_speed@)
    }

    fn numbers_text(&self) -> (s: String)
        ensures
            s@ == self.spec_numbers_text(),
    {
        let mut s = String::new();
        push_line(&mut s, "comm_mode: ", self.comm_mode as u64);
        push_line(&mut s, "max_timeout_time: ", self.max_timeout_time as u64);
        push_line(&mut s, "broadcast_cmd_timeout_time: ", self.broadcast_cmd_timeout_time as u64);
        push_line(&mut s, "max_packet_length: ", self.max_packet_length as u64);
        push_line(&mut s, "max_packet_per_packet: ", self.max_packet_per_packet as u64);
        push_line(&mut s, "upgrade_wait_time: ", self.upgrade_wait_time as u64);
        push_str(&mut s, "main_node_addr: ");
        push_str(&mut s, self.main_node_addr.to_string().as_str());
        push_str(&mut s, "\n");
        push_line(&mut s, "max_node_num: ", self.max_node_num as u64);
        push_line(&mut s, "current_node_num: ", self.current_node_num as u64);
        assert(s@ =~= self.spec_numbers_text());
        s
    }

    /// Writes the text form; the dates must print as eight digits.
    pub fn to_string(&self) -> (s: String)
        requires
            spec_printable_date(self.protocol_release_date),
            spec_printable_date(self.last_record_date),
            spec_printable_date(self.version_date),
        ensures
            s@ == self.spec_text(),
    {
        let mut s = self.numbers_text();
        push_str(&mut s, "protocol_release_date: ");
        push_str(&mut s, date_to_string(&self.protocol_release_date).as_str());
        push_str(&mut s, "\n");
        push_str(&mut s, "last_record_date: ");
        push_str(&mut s, date_to_string(&self.last_record_date).as_str());
        push_str(&mut s, "\n");
        push_str(&mut s, "factory_code: ");
        push_str(&mut s, self.factory_code.as_str());
        push_str(&mut s, "\n");
        push_str(&mut s, "chip_code: ");
        push_str(&mut s, self.chip_code.as_str());
        push_str(&mut s, "\n");
        push_str(&mut s, "version_date: ");
        push_str(&mut s, date_to_string(&self.version_date).as_str());
        push_str(&mut s, "\n");
        push_str(&mut s, "version: ");
        push_str(&mut s, self.version.as_str());
        push_str(&mut s, "\n");
        push_str(&mut s, "comm_speed:\n");
        let ghost head = s@;
        let n = self.comm_speed.len();
        let mut i: usize = 0;
        while i < n
            invariant
                n == self.comm_speed@.len(),
                i <= n,
                s@ == head + spec_speed_lines(self.comm_speed@.take(i as int)),
            decreases n - i,
        {
            let v = self.comm_speed[i];
            push_str(&mut s, "\tspeed: ");
            push_decimal(&mut s, (v & 0x7fff) as u64);
            push_str(&mut s, ", unit_flag: ");
            push_decimal(&mut s, ((v >> 15) & 0x01) as u64);
            push_str(&mut s, "\n");
            proof {
                assert(self.comm_speed@.take(i + 1).drop_last() =~= self.comm_speed@.take(i as int));
            }
            i = i + 1;
        }
        assert(self.comm_speed@.take(n as int) =~= self.comm_speed@);
        assert(s@ =~= self.spec_text());
        s
    }

    /// Decodes the module information; the factory and chip codes must be text.
    pub fn from_app_data(app_data: AppData) -> (r: Result<Self, Error>)
        requires
            spec_module_info_check(app_data) is Ok ==> {
                let u = app_data.spec_units();
                spec_code_valid(u[30], u[31]) && spec_code_valid(u[32], u[33])
            },
        ensures
            r is Ok <==> spec_module_info_check(app_data) is Ok,
            r matches Err(e) ==> spec_module_info_check(app_data) == Err::<(), Error>(e),
            r matches Ok(m) ==> {
                let u = app_data.spec_units();
                &&& m.comm_mode == (u[0] >> 4u8) & 0x0F
                &&& m.metering_mode == (u[0] & 0xc0) >> 6u8
                &&& m.speed_num == u[3] & 0x0F
                &&& m.max_timeout_time == u[6]
                &&& m.broadcast_cmd_timeout_time == le16(u[7], u[8])
                &&& m.max_packet_length == le16(u[9], u[10])
                &&& m.max_packet_per_packet == le16(u[11], u[12])
                &&& m.upgrade_wait_time == u[13]
                &&& m.main_node_addr.wire() == u.subrange(14, 20)
                &&& m.max_node_num == le16(u[20], u[21])
                &&& m.current_node_num == le16(u[22], u[23])
                &&& m.protocol_release_date == spec_bcd_date(u[26], u[25], u[24])
                &&& m.last_record_date == spec_bcd_date(u[29], u[28], u[27])
                &&& m.factory_code@ == vstd::utf8::decode_utf8(spec_code_bytes(u[30], u[31]))
                &&& m.chip_code@ == vstd::utf8::decode_utf8(spec_code_bytes(u[32], u[33]))
                &&& m.version_date == spec_bcd_date(u[36], u[35], u[34])
                &&& m.version@ == spec_hex(u.subrange(37, 39).reverse(), false)
                &&& m.comm_speed@.len() == (u.len() - 39) / 2
                &&& forall|i: int|
                    0 <= i < m.comm_speed@.len() ==> #[trigger] m.comm_speed@[i] == le16(
                        u[39 + 2 * i],
                        u[40 + 2 * i],
                    )
                &&& m.node_info_mode == 0 && m.route_management_mode == 0 && m.broadcast_cmd_mode
                    == 0 && m.broadcast_cmd_confirm == 0 && m.fail_node_change_mode == 0
                    && m.delay_param_support == 0 && m.low_voltage_power_off == 0 && m.channel_num
                    == 0
            },
    {
        app_data.check_min(39)?;
        let u = app_data.units_ref();
        let b3 = u[3];
        let speed_num = b3 & 0x0F;
        assert(speed_num <= 15) by (bit_vector)
            requires
                speed_num == b3 & 0x0F,
        ;
        app_data.check(Afn::QueryData, QueryData::GetModuleInfo.code(), 39 + speed_num as usize * 2)?;
        let n = u.len();
        let mut comm_speed: Vec<u16> = Vec::new();
        let mut i: usize = 39;
        while i + 1 < n
            invariant
                n == u@.len(),
                n == 39 + 2 * (speed_num as int),
                39 <= i <= n,
                (i - 39) % 2 == 0,
                comm_speed@.len() == (i - 39) / 2,
                forall|j: int|
                    0 <= j < comm_speed@.len() ==> #[trigger] comm_speed@[j] == le16(
                        u@[39 + 2 * j],
                        u@[40 + 2 * j],
                    ),
            decreases n - i,
        {
            comm_speed.push(u16_from_le(u[i], u[i + 1]));
            i = i + 2;
        }
        Ok(ModuleInfoResponse {
            comm_mode: (u[0] >> 4) & 0x0F,
            speed_num,
            max_timeout_time: u[6],
            broadcast_cmd_timeout_time: u16_from_le(u[7], u[8]),
            max_packet_length: u16_from_le(u[9], u[10]),
            max_packet_per_packet: u16_from_le(u[11], u[12]),
            upgrade_wait_time: u[13],
            main_node_addr: address_at(u.as_slice(), 14),
            max_node_num: u16_from_le(u[20], u[21]),
            current_node_num: u16_from_le(u[22], u[23]),
            protocol_release_date: date_transfer(u[26], u[25], u[24]),
            last_record_date: date_transfer(u[29], u[28], u[27]),
            factory_code: code_string(u[30], u[31]),
            chip_code: code_string(u[32], u[33]),
            version_date: date_transfer(u[36], u[35], u[34]),
            version: slice_to_bcd_string(&u.as_slice()[37..39]),
            comm_speed,
            metering_mode: (u[0] & 0xc0) >> 6,
            node_info_mode: 0,
            route_management_mode: 0,
            broadcast_cmd_mode: 0,
            broadcast_cmd_confirm: 0,
            fail_node_change_mode: 0,
            delay_param_support: 0,
            low_voltage_power_off: 0,
            channel_num: 0,
        })
    }
}

#[derive(Debug, Clone, Copy, Default, PartialEq, Eq)]
pub struct MasterIdInfoRequest;

impl From<MasterIdInfoRequest> for AppData {
    fn from(v: MasterIdInfoRequest) -> (a: AppData)
        ensures
            a.spec_has(Afn::QueryData, 12, None),
    {
        AppData::without_units(Afn::QueryData, QueryData::GetMasterIdInfo.code())
    }
}

impl vstd::std_specs::convert::FromSpecImpl<MasterIdInfoRequest> for AppData {
    open spec fn obeys_from_spec() -> bool {
        false
    }

    open spec fn from_spec(v: MasterIdInfoRequest) -> AppData {
        arbitrary()
    }
}

/// The identifier of the local module.
#[derive(Debug, Clone, PartialEq, Eq)]
pub struct MasterIdInfoResponse {
    pub factory_code: String,
    pub module_id_length: u8,
    pub module_id_format: ModuleIdFormat,
    pub module_id: Vec<u8>,
}

/// The outcome of checking a module identifier: three bytes at least, then code,
/// number and four bytes plus the identifier's length.
pub open spec fn spec_master_id_check(app_data: AppData) -> Result<(), Error> {
    let u = app_data.spec_units();
    match app_data.spec_check_min(3) {
        Err(e) => Err(e),
        Ok(_) => app_data.spec_check(Afn::QueryData, 12, (4 + u[2]) as usize),
    }
}

impl MasterIdInfoResponse {
    /// Decodes the module identifier; the factory code must be text.
    pub fn from_app_data(app_data: AppData) -> (r: Result<Self, Error>)
        requires
            spec_master_id_check(app_data) is Ok ==> spec_code_valid(
                app_data.spec_units()[0],
                app_data.spec_units()[1],
            ),
        ensures
            ({
                let u = app_data.spec_units();
                &&& spec_master_id_check(app_data) matches Err(e) ==> r == Err::<Self, Error>(e)
                &&& spec_master_id_check(app_data) is Ok ==> {
                    &&& r is Ok <==> ModuleIdFormat::spec_from_code(u[3]) is Some
                    &&& r is Err ==> r == Err::<Self, Error>(
                        Error::UnknownValue(ValueKind::ModuleIdFormat, u[3]),
                    )
                }
                &&& r matches Ok(m) ==> {
                    &&& m.factory_code@ == vstd::utf8::decode_utf8(spec_code_bytes(u[0], u[1]))
                    &&& m.module_id_length == u[2]
                    &&& ModuleIdFormat::spec_from_code(u[3]) == Some(m.module_id_format)
                    &&& m.module_id@ == u.skip(4)
                }
            }),
    {
        app_data.check_min(3)?;
        let u = app_data.units_ref();
        app_data.check(Afn::QueryData, QueryData::GetMasterIdInfo.code(), 4 + u[2] as usize)?;
        let factory_code = code_string(u[0], u[1]);
        let module_id_format = ModuleIdFormat::try_from(u[3])?;
        let module_id = crate::bytes::copy_range(u.as_slice(), 4, u.len());
        assert(module_id@ =~= app_data.spec_units().skip(4));
        Ok(Self { factory_code, module_id_length: u[2], module_id_format, module_id })
    }
}

#[derive(Debug, Clone, Copy, Default, PartialEq, Eq)]
pub struct GetHplcFreqRequest;

impl From<GetHplcFreqRequest> for AppData {
    fn from(v: GetHplcFreqRequest) -> (a: AppData)
        ensures
            a.spec_has(Afn::QueryData, 16, None),
    {
        AppData::without_units(Afn::QueryData, QueryData::HplcFrequency.code())
    }
}

impl vstd::std_specs::convert::FromSpecImpl<GetHplcFreqRequest> for AppData {
    open spec fn obeys_from_spec() -> bool {
        false
    }

    open spec fn from_spec(v: GetHplcFreqRequest) -> AppData {
        arbitrary()
    }
}

/// The HPLC frequency band.
#[derive(Debug, Clone, Copy, PartialEq, Eq)]
pub struct GetHplcFreqResponse {
    pub frequency: u8,
}

impl TryFrom<AppData> for GetHplcFreqResponse {
    type Error = Error;

    fn try_from(app_data: AppData) -> (r: Result<Self, Error>)
        ensures
            r is Ok <==> app_data.spec_check(Afn::QueryData, 16, 1) is Ok,
            r matches Err(e) ==> app_data.spec_check(Afn::QueryData, 16, 1) == Err::<(), Error>(e),
            r matches Ok(f) ==> f.frequency == app_data.spec_units()[0],
    {
        app_data.check(Afn::QueryData, QueryData::HplcFrequency.code(), 1)?;
        let u = app_data.units_ref();
        Ok(Self { frequency: u[0] })
    }
}

impl vstd::std_specs::convert::TryFromSpecImpl<AppData> for GetHplcFreqResponse {
    open spec fn obeys_try_from_spec() -> bool {
        true
    }

    open spec fn try_from_spec(app_data: AppData) -> Result<Self, Error> {
        match app_data.spec_check(Afn::QueryData, 16, 1) {
            Err(e) => Err(e),
            Ok(()) => {
                let u = app_data.spec_units();
                Ok(GetHplcFreqResponse { frequency: u[0] })
            },
        }
    }
}

} // verus!
