//! AFN 14H: data the route asks of the concentrator (clock, communication delay).
use vstd::prelude::*;

use crate::bytes::{le16, u16_from_le};
use crate::error::Error;
use crate::protocol::app_data::{Address, Afn, AppData};
use crate::protocol::user_data::{dec_to_hex, spec_dec_to_hex};

verus! {

/// Function numbers of AFN 14H.
#[derive(Debug, Clone, Copy, PartialEq, Eq)]
pub enum RouteDataRead {
    Clock,
    CommDelay,
}

impl RouteDataRead {
    pub open spec fn spec_code(self) -> u8 {
        match self {
            RouteDataRead::Clock => 2,
            RouteDataRead::CommDelay => 3,
        }
    }

    pub fn code(self) -> (b: u8)
        ensures
            b == self.spec_code(),
    {
        match self {
            RouteDataRead::Clock => 2,
            RouteDataRead::CommDelay => 3,
        }
    }
}

/// A local date and time of day.
#[derive(Debug, Clone, Copy, PartialEq, Eq)]
pub struct DateTime {
    pub year: i32,
    pub month: u32,
    pub day: u32,
    pub hour: u32,
    pub minute: u32,
    pub second: u32,
}

impl DateTime {
    /// Whether the values are those of a calendar date and a time of day.
    pub open spec fn valid(self) -> bool {
        &&& 1 <= self.month <= 12
        &&& 1 <= self.day <= 31
        &&& self.hour < 24
        &&& self.minute < 60
        &&& self.second < 60
    }
}

/// The remainder of `y` by 100 with the sign of `y` (Rust's `%`).
pub open spec fn spec_rem100(y: int) -> int {
    if y >= 0 {
        y % 100
    } else {
        -((-y) % 100)
    }
}

/// Six BCD bytes: second, minute, hour, day, month, two-digit year.
pub open spec fn spec_bcd_time(t: DateTime) -> Seq<u8> {
    seq![
        spec_dec_to_hex(t.second as u8),
        spec_dec_to_hex(t.minute as u8),
        spec_dec_to_hex(t.hour as u8),
        spec_dec_to_hex(t.day as u8),
        spec_dec_to_hex(t.month as u8),
        spec_dec_to_hex(spec_rem100(t.year as int) as u8),
    ]
}

/// The six BCD bytes of a date and time.
pub fn bcd_time(t: &DateTime) -> (v: Vec<u8>)
    ensures
        v@ == spec_bcd_time(*t),
{
    let y = t.year as i64;
    let rem: i64 = if y >= 0 {
        y % 100
    } else {
        -((-y) % 100)
    };
    let mut v = Vec::new();
    v.push(dec_to_hex(t.second as u8));
    v.push(dec_to_hex(t.minute as u8));
    v.push(dec_to_hex(t.hour as u8));
    v.push(dec_to_hex(t.day as u8));
    v.push(dec_to_hex(t.month as u8));
    v.push(dec_to_hex(rem as u8));
    assert(v@ =~= spec_bcd_time(*t));
    v
}

/// The local clock (chrono's `Local::now`).
/// Trusted: the fields are those of a calendar date and a time of day; which
/// instant is read is not stated.
#[verifier::external_body]
pub fn local_now() -> (t: DateTime)
    ensures
        t.valid(),
{
    let now = chrono::Local::now();
    DateTime {
        year: chrono::Datelike::year(&now),
        month: chrono::Datelike::month(&now),
        day: chrono::Datelike::day(&now),
        hour: chrono::Timelike::hour(&now),
        minute: chrono::Timelike::minute(&now),
        second: chrono::Timelike::second(&now),
    }
}

/// The concentrator's clock, sent to the route.
#[derive(Debug, Clone, Copy, Default, PartialEq, Eq)]
pub struct ClockDataResponse;

impl ClockDataResponse {
    /// The answer that carries the given time.
    pub fn app_data_at(t: &DateTime) -> (a: AppData)
        ensures
            a.spec_has(Afn::RouteDataRead, 2, Some(spec_bcd_time(*t))),
    {
        AppData::with_units(Afn::RouteDataRead, RouteDataRead::Clock.code(), bcd_time(t))
    }
}

impl From<ClockDataResponse> for AppData {
    /// The answer that carries the local time as read now.
    fn from(v: ClockDataResponse) -> (a: AppData)
        ensures
            exists|t: DateTime| t.valid() && a.spec_has(Afn::RouteDataRead, 2, Some(spec_bcd_time(t))),
    {
        let now = local_now();
        ClockDataResponse::app_data_at(&now)
    }
}

impl vstd::std_specs::convert::FromSpecImpl<ClockDataResponse> for AppData {
    open spec fn obeys_from_spec() -> bool {
        false
    }

    open spec fn from_spec(v: ClockDataResponse) -> AppData {
        arbitrary()
    }
}

pub const PREFIX_LEN: usize = 9;

/// The route asks for the delay of a message to a node.
#[derive(Debug, Clone, PartialEq, Eq)]
pub struct CommDelayRequest {
    pub _node_addr: Address,
    pub delay: u16,
    pub _message_len: u8,
    pub _message: Vec<u8>,
}

impl TryFrom<AppData> for CommDelayRequest {
    type Error = Error;

    fn try_from(app_data: AppData) -> (r: Result<Self, Error>)
        ensures
            ({
                let u = app_data.spec_units();
                let pre = match app_data.spec_check_min(9) {
                    Err(e) => Err(e),
                    Ok(_) => app_data.spec_check(Afn::RouteDataRead, 3, (9 + u[8]) as usize),
                };
                &&& r is Ok <==> pre is Ok
                &&& r matches Err(e) ==> pre == Err::<(), Error>(e)
                &&& r matches Ok(c) ==> c._node_addr.wire() == u.subrange(0, 6) && c.delay == le16(
                    u[6],
                    u[7],
                ) && c._message_len == u[8] && c._message@ == u.skip(9)
            }),
    {
        app_data.check_min(PREFIX_LEN)?;
        let u = app_data.units_ref();
        let message_len = u[8] as usize;
        app_data.check(Afn::RouteDataRead, RouteDataRead::CommDelay.code(), PREFIX_LEN + message_len)?;
        let node_addr = Address::try_from(&u.as_slice()[0..6])?;
        let message = crate::bytes::copy_range(u.as_slice(), PREFIX_LEN, u.len());
        assert(message@ =~= app_data.spec_units().skip(9));
        Ok(CommDelayRequest {
            _node_addr: node_addr,
            delay: u16_from_le(u[6], u[7]),
            _message_len: message_len as u8,
            _message: message,
        })
    }
}

impl vstd::std_specs::convert::TryFromSpecImpl<AppData> for CommDelayRequest {
    open spec fn obeys_try_from_spec() -> bool {
        false
    }

    open spec fn try_from_spec(app_data: AppData) -> Result<Self, Error> {
        arbitrary()
    }
}

/// The concentrator's answer: message length (truncated to one byte) and message.
#[derive(Debug, Clone, PartialEq, Eq)]
pub struct CommDelayResponse {
    pub message_len: u8,
    pub message: Vec<u8>,
}

impl CommDelayResponse {
    pub fn new(message: Vec<u8>) -> (r: Self)
        ensures
            r.message_len == message@.len() as u8,
            r.message@ == message@,
    {
        CommDelayResponse { message_len: message.len() as u8, message }
    }
}

impl From<CommDelayResponse> for AppData {
    fn from(response: CommDelayResponse) -> (a: AppData)
        ensures
            a.spec_has(Afn::RouteDataRead, 3, Some(seq![response.message_len] + response.message@)),
    {
        let mut data = Vec::new();
        data.push(response.message_len);
        crate::bytes::extend_bytes(&mut data, response.message.as_slice());
        assert(data@ =~= seq![response.message_len] + response.message@);
        AppData::with_units(Afn::RouteDataRead, RouteDataRead::CommDelay.code(), data)
    }
}

impl vstd::std_specs::convert::FromSpecImpl<CommDelayResponse> for AppData {
    open spec fn obeys_from_spec() -> bool {
        false
    }

    open spec fn from_spec(response: CommDelayResponse) -> AppData {
        arbitrary()
    }
}

} // verus!
