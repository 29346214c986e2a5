//! AFN F1H: concurrent meter reading.
use vstd::prelude::*;

use crate::bytes::{le16, le16_bytes, push_le16, u16_from_le};
use crate::error::Error;
use crate::protocol::app_data::{Afn, AppData};

verus! {

/// Function numbers of AFN F1H.
#[derive(Debug, Clone, Copy, PartialEq, Eq)]
pub enum MeterReading {
    ActiveReadMeter,
}

impl MeterReading {
    pub open spec fn spec_code(self) -> u8 {
        1
    }

    pub fn code(self) -> (b: u8)
        ensures
            b == self.spec_code(),
    {
        1
    }
}

pub const REQ_PREFIX_LEN: usize = 4;

/// A meter frame to read concurrently under a protocol type.
#[derive(Debug, Clone, PartialEq, Eq)]
pub struct ConcurrentReadMeterRequest {
    pub protocol_type: u8,
    pub reserve: u8,
    pub message: Vec<u8>,
}

impl ConcurrentReadMeterRequest {
    pub fn new(protocol_type: u8, message: Vec<u8>) -> (r: Self)
        ensures
            r.protocol_type == protocol_type,
            r.reserve == 0,
            r.message@ == message@,
    {
        Self { protocol_type, reserve: 0, message }
    }
}

impl From<ConcurrentReadMeterRequest> for AppData {
    /// Protocol type, reserved byte, message length (two bytes, little-endian), message.
    fn from(req: ConcurrentReadMeterRequest) -> (a: AppData)
        ensures
            a.spec_has(
                Afn::CocurrentReadMeter,
                1,
                Some(seq![req.protocol_type, req.reserve] + le16_bytes(req.message@.len() as u16)
                    + req.message@),
            ),
    {
        let mut data = Vec::new();
        data.push(req.protocol_type);
        data.push(req.reserve);
        push_le16(&mut data, req.message.len() as u16);
        crate::bytes::extend_bytes(&mut data, req.message.as_slice());
        assert(data@ =~= seq![req.protocol_type, req.reserve] + le16_bytes(
            req.message@.len() as u16,
        ) + req.message@);
        AppData::with_units(Afn::CocurrentReadMeter, MeterReading::ActiveReadMeter.code(), data)
    }
}

impl vstd::std_specs::convert::FromSpecImpl<ConcurrentReadMeterRequest> for AppData {
    open spec fn obeys_from_spec() -> bool {
        false
    }

    open spec fn from_spec(req: ConcurrentReadMeterRequest) -> AppData {
        arbitrary()
    }
}

pub const RES_PREFIX_LEN: usize = 3;

/// A meter's answer: protocol type, message length (two bytes), message.
#[derive(Debug, Clone, PartialEq, Eq)]
pub struct ConcurrentReadMeterResponse {
    pub protocol_type: u8,
    pub message_len: u16,
    pub message: Vec<u8>,
}

impl TryFrom<AppData> for ConcurrentReadMeterResponse {
    type Error = Error;

    fn try_from(app_data: AppData) -> (r: Result<Self, Error>)
        ensures
            ({
                let u = app_data.spec_units();
                let pre = match app_data.spec_check_min(3) {
                    Err(e) => Err(e),
                    Ok(_) => app_data.spec_check(
                        Afn::CocurrentReadMeter,
                        1,
                        (3 + le16(u[1], u[2])) as usize,
                    ),
                };
                &&& r is Ok <==> pre is Ok
                &&& r matches Err(e) ==> pre == Err::<(), Error>(e)
                &&& r matches Ok(t) ==> t.protocol_type == u[0] && t.message_len == le16(u[1], u[2])
                    && t.message@ == u.skip(3)
            }),
    {
        app_data.check_min(RES_PREFIX_LEN)?;
        let u = app_data.units_ref();
        let message_len = u16_from_le(u[1], u[2]);
        app_data.check(
            Afn::CocurrentReadMeter,
            MeterReading::ActiveReadMeter.code(),
            RES_PREFIX_LEN + message_len as usize,
        )?;
        let message = crate::bytes::copy_range(u.as_slice(), RES_PREFIX_LEN, u.len());
        assert(message@ =~= app_data.spec_units().skip(3));
        Ok(ConcurrentReadMeterResponse { protocol_type: u[0], message_len, message })
    }
}

impl vstd::std_specs::convert::TryFromSpecImpl<AppData> for ConcurrentReadMeterResponse {
    open spec fn obeys_try_from_spec() -> bool {
        false
    }

    open spec fn try_from_spec(app_data: AppData) -> Result<Self, Error> {
        arbitrary()
    }
}

} // verus!
