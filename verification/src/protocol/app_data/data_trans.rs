//! AFN 02H: frame forwarding to meters.
use vstd::prelude::*;

use crate::error::Error;
use crate::protocol::app_data::{Afn, AppData};

verus! {

/// Function numbers of AFN 02H.
#[derive(Debug, Clone, Copy, PartialEq, Eq)]
pub enum DataTransfer {
    TransferFrame,
}

impl DataTransfer {
    pub open spec fn spec_code(self) -> u8 {
        1
    }

    pub fn code(self) -> (b: u8)
        ensures
            b == self.spec_code(),
    {
        1
    }
}

/// A meter frame to forward under a protocol type.
#[derive(Debug, Clone, PartialEq, Eq)]
pub struct TransferFrameRequest {
    pub protocol_type: u8,
    pub message: Vec<u8>,
}

impl TransferFrameRequest {
    pub fn new(protocol_type: u8, message: Vec<u8>) -> (r: Self)
        ensures
            r.protocol_type == protocol_type,
            r.message@ == message@,
    {
        Self { protocol_type, message }
    }
}

impl From<TransferFrameRequest> for AppData {
    /// Protocol type, message length (one byte), message.
    fn from(req: TransferFrameRequest) -> (a: AppData)
        ensures
            a.spec_has(
                Afn::DataForward,
                1,
                Some(seq![req.protocol_type, req.message@.len() as u8] + req.message@),
            ),
    {
        let mut data = Vec::new();
        data.push(req.protocol_type);
        data.push(req.message.len() as u8);
        crate::bytes::extend_bytes(&mut data, req.message.as_slice());
        assert(data@ =~= seq![req.protocol_type, req.message@.len() as u8] + req.message@);
        AppData::with_units(Afn::DataForward, DataTransfer::TransferFrame.code(), data)
    }
}

impl vstd::std_specs::convert::FromSpecImpl<TransferFrameRequest> for AppData {
    open spec fn obeys_from_spec() -> bool {
        false
    }

    open spec fn from_spec(req: TransferFrameRequest) -> AppData {
        arbitrary()
    }
}

pub const PREFIX_LEN: usize = 2;

/// A meter's answer: protocol type, message length, message.
#[derive(Debug, Clone, PartialEq, Eq)]
pub struct TransferFrameResponse {
    pub protocol_type: u8,
    pub message_len: u8,
    pub message: Vec<u8>,
}

impl TryFrom<AppData> for TransferFrameResponse {
    type Error = Error;

    fn try_from(app_data: AppData) -> (r: Result<Self, Error>)
        ensures
            ({
                let u = app_data.spec_units();
                let pre = match app_data.spec_check_min(2) {
                    Err(e) => Err(e),
                    Ok(_) => app_data.spec_check(Afn::DataForward, 1, (2 + u[1]) as usize),
                };
                &&& r is Ok <==> pre is Ok
                &&& r matches Err(e) ==> pre == Err::<(), Error>(e)
                &&& r matches Ok(t) ==> t.protocol_type == u[0] && t.message_len == u[1]
                    && t.message@ == u.skip(2)
            }),
    {
        app_data.check_min(PREFIX_LEN)?;
        let u = app_data.units_ref();
        let message_len = u[1] as usize;
        app_data.check(Afn::DataForward, DataTransfer::TransferFrame.code(), PREFIX_LEN + message_len)?;
        let message = crate::bytes::copy_range(u.as_slice(), PREFIX_LEN, u.len());
        assert(message@ =~= app_data.spec_units().skip(2));
        Ok(TransferFrameResponse { protocol_type: u[0], message_len: message_len as u8, message })
    }
}

impl vstd::std_specs::convert::TryFromSpecImpl<AppData> for TransferFrameResponse {
    open spec fn obeys_try_from_spec() -> bool {
        false
    }

    open spec fn try_from_spec(app_data: AppData) -> Result<Self, Error> {
        arbitrary()
    }
}

} // verus!
