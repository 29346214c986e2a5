//! AFN 00H: confirmation and denial.
use vstd::prelude::*;

use crate::bytes::{be32, be32_bytes, le16, le16_bytes, push_be32, push_le16, u16_from_le};
use crate::error::{Error, ValueKind};
use crate::protocol::app_data::{Afn, AppData};

verus! {

/// Function numbers of AFN 00H.
#[derive(Debug, Clone, Copy, PartialEq, Eq)]
pub enum AnswerFn {
    Confirm,
    Deny,
}

impl AnswerFn {
    pub open spec fn spec_code(self) -> u8 {
        match self {
            AnswerFn::Confirm => 1,
            AnswerFn::Deny => 2,
        }
    }

    pub fn code(self) -> (b: u8)
        ensures
            b == self.spec_code(),
    {
        match self {
            AnswerFn::Confirm => 1,
            AnswerFn::Deny => 2,
        }
    }
}

/// Confirmation: channel status (big-endian) and wait time (little-endian).
#[derive(Debug, Clone, Copy, PartialEq, Eq)]
pub struct ConfirmResponse {
    pub channel_status: u32,
    pub wait_time: u16,
}

impl TryFrom<AppData> for ConfirmResponse {
    type Error = Error;

    fn try_from(app_data: AppData) -> (r: Result<Self, Error>)
        ensures
            r is Ok <==> app_data.spec_check(Afn::Answer, 1, 6) is Ok,
            r matches Err(e) ==> app_data.spec_check(Afn::Answer, 1, 6) == Err::<(), Error>(e),
            r matches Ok(c) ==> {
                let u = app_data.spec_units();
                &&& c.channel_status == be32(u[0], u[1], u[2], u[3])
                &&& c.wait_time == le16(u[4], u[5])
            },
    {
        app_data.check(Afn::Answer, AnswerFn::Confirm.code(), 6)?;
        let u = app_data.units_ref();
        let channel_status = crate::bytes::u32_from_le(u[3], u[2], u[1], u[0]);
        Ok(ConfirmResponse { channel_status, wait_time: u16_from_le(u[4], u[5]) })
    }
}

impl vstd::std_specs::convert::TryFromSpecImpl<AppData> for ConfirmResponse {
    open spec fn obeys_try_from_spec() -> bool {
        true
    }

    open spec fn try_from_spec(app_data: AppData) -> Result<Self, Error> {
        match app_data.spec_check(Afn::Answer, 1, 6) {
            Err(e) => Err(e),
            Ok(()) => {
                let u = app_data.spec_units();
                Ok(ConfirmResponse { channel_status: be32(u[0], u[1], u[2], u[3]), wait_time: le16(u[4], u[5]) })
            },
        }
    }
}

impl From<ConfirmResponse> for AppData {
    fn from(response: ConfirmResponse) -> (a: AppData)
        ensures
            a.spec_has(
                Afn::Answer,
                1,
                Some(be32_bytes(response.channel_status) + le16_bytes(response.wait_time)),
            ),
    {
        let mut data_units = Vec::new();
        push_be32(&mut data_units, response.channel_status);
        push_le16(&mut data_units, response.wait_time);
        AppData::with_units(Afn::Answer, AnswerFn::Confirm.code(), data_units)
    }
}

impl vstd::std_specs::convert::FromSpecImpl<ConfirmResponse> for AppData {
    open spec fn obeys_from_spec() -> bool {
        false
    }

    open spec fn from_spec(response: ConfirmResponse) -> AppData {
        arbitrary()
    }
}

/// Reasons of a denial.
#[derive(Debug, Clone, Copy, PartialEq, Eq)]
pub enum DenyErrorCode {
    TimeOut,
    InvalidDataUnit,
    LengthError,
    ChecksumError,
    InfoClassNotExist,
    FormatError,
    MeterDup,
    MeterNotExist,
    AppNoResponse,
    MasterBusy,
    MasterNotSupport,
    SlaveNoResponse,
    SlaveOutNet,
    ExceedCocurrentNum,
    ExceedMsgNum,
    MeterOperating,
    Other,
}

impl DenyErrorCode {
    pub open spec fn spec_code(self) -> u8 {
        match self {
            DenyErrorCode::TimeOut => 0,
            DenyErrorCode::InvalidDataUnit => 1,
            DenyErrorCode::LengthError => 2,
            DenyErrorCode::ChecksumError => 3,
            DenyErrorCode::InfoClassNotExist => 4,
            DenyErrorCode::FormatError => 5,
            DenyErrorCode::MeterDup => 6,
            DenyErrorCode::MeterNotExist => 7,
            DenyErrorCode::AppNoResponse => 8,
            DenyErrorCode::MasterBusy => 9,
            DenyErrorCode::MasterNotSupport => 10,
            DenyErrorCode::SlaveNoResponse => 11,
            DenyErrorCode::SlaveOutNet => 12,
            DenyErrorCode::ExceedCocurrentNum => 109,
            DenyErrorCode::ExceedMsgNum => 110,
            DenyErrorCode::MeterOperating => 111,
            DenyErrorCode::Other => 255,
        }
    }

    pub open spec fn spec_from_code(b: u8) -> Option<DenyErrorCode> {
        if b == 0 {
            Some(DenyErrorCode::TimeOut)
        } else if b == 1 {
            Some(DenyErrorCode::InvalidDataUnit)
        } else if b == 2 {
            Some(DenyErrorCode::LengthError)
        } else if b == 3 {
            Some(DenyErrorCode::ChecksumError)
        } else if b == 4 {
            Some(DenyErrorCode::InfoClassNotExist)
        } else if b == 5 {
            Some(DenyErrorCode::FormatError)
        } else if b == 6 {
            Some(DenyErrorCode::MeterDup)
        } else if b == 7 {
            Some(DenyErrorCode::MeterNotExist)
        } else if b == 8 {
            Some(DenyErrorCode::AppNoResponse)
        } else if b == 9 {
            Some(DenyErrorCode::MasterBusy)
        } else if b == 10 {
            Some(DenyErrorCode::MasterNotSupport)
        } else if b == 11 {
            Some(DenyErrorCode::SlaveNoResponse)
        } else if b == 12 {
            Some(DenyErrorCode::SlaveOutNet)
        } else if b == 109 {
            Some(DenyErrorCode::ExceedCocurrentNum)
        } else if b == 110 {
            Some(DenyErrorCode::ExceedMsgNum)
        } else if b == 111 {
            Some(DenyErrorCode::MeterOperating)
        } else if b == 255 {
            Some(DenyErrorCode::Other)
        } else {
            None
        }
    }

    pub fn code(self) -> (b: u8)
        ensures
            b == self.spec_code(),
    {
        match self {
            DenyErrorCode::TimeOut => 0,
            DenyErrorCode::InvalidDataUnit => 1,
            DenyErrorCode::LengthError => 2,
            DenyErrorCode::ChecksumError => 3,
            DenyErrorCode::InfoClassNotExist => 4,
            DenyErrorCode::FormatError => 5,
            DenyErrorCode::MeterDup => 6,
            DenyErrorCode::MeterNotExist => 7,
            DenyErrorCode::AppNoResponse => 8,
            DenyErrorCode::MasterBusy => 9,
            DenyErrorCode::MasterNotSupport => 10,
            DenyErrorCode::SlaveNoResponse => 11,
            DenyErrorCode::SlaveOutNet => 12,
            DenyErrorCode::ExceedCocurrentNum => 109,
            DenyErrorCode::ExceedMsgNum => 110,
            DenyErrorCode::MeterOperating => 111,
            DenyErrorCode::Other => 255,
        }
    }

    /// The reason's text.
    pub open spec fn spec_text(self) -> Seq<char> {
        match self {
            DenyErrorCode::TimeOut => "Time Out"@,
            DenyErrorCode::InvalidDataUnit => "Invalid ID"@,
            DenyErrorCode::LengthError => "Error Length"@,
            DenyErrorCode::ChecksumError => "Error Checksum"@,
            DenyErrorCode::InfoClassNotExist => "Error Data Info"@,
            DenyErrorCode::FormatError => "Error Format"@,
            DenyErrorCode::MeterDup => "Meter Has Existed"@,
            DenyErrorCode::MeterNotExist => "Meter Not Exist"@,
            DenyErrorCode::AppNoResponse => "Meter No Response"@,
            DenyErrorCode::MasterBusy => "CCO Busy"@,
            DenyErrorCode::MasterNotSupport => "CCO Not Support"@,
            DenyErrorCode::SlaveNoResponse => "Slave No Response"@,
            DenyErrorCode::SlaveOutNet => "Slave Out Net"@,
            DenyErrorCode::ExceedCocurrentNum => "Exceed Cocurrent Num"@,
            DenyErrorCode::ExceedMsgNum => "Exceed Msg Num"@,
            DenyErrorCode::MeterOperating => "Meter Operating"@,
            DenyErrorCode::Other => "Other Error"@,
        }
    }

    /// The reason's text.
    pub fn to_string(&self) -> (s: &'static str)
        ensures
            s@ == self.spec_text(),
    {
        match self {
            DenyErrorCode::TimeOut => "Time Out",
            DenyErrorCode::InvalidDataUnit => "Invalid ID",
            DenyErrorCode::LengthError => "Error Length",
            DenyErrorCode::ChecksumError => "Error Checksum",
            DenyErrorCode::InfoClassNotExist => "Error Data Info",
            DenyErrorCode::FormatError => "Error Format",
            DenyErrorCode::MeterDup => "Meter Has Existed",
            DenyErrorCode::MeterNotExist => "Meter Not Exist",
            DenyErrorCode::AppNoResponse => "Meter No Response",
            DenyErrorCode::MasterBusy => "CCO Busy",
            DenyErrorCode::MasterNotSupport => "CCO Not Support",
            DenyErrorCode::SlaveNoResponse => "Slave No Response",
            DenyErrorCode::SlaveOutNet => "Slave Out Net",
            DenyErrorCode::ExceedCocurrentNum => "Exceed Cocurrent Num",
            DenyErrorCode::ExceedMsgNum => "Exceed Msg Num",
            DenyErrorCode::MeterOperating => "Meter Operating",
            DenyErrorCode::Other => "Other Error",
        }
    }
}

impl TryFrom<u8> for DenyErrorCode {
    type Error = Error;

    fn try_from(b: u8) -> (r: Result<Self, Error>)
        ensures
            r matches Ok(c) ==> Self::spec_from_code(b) == Some(c),
            r is Err ==> Self::spec_from_code(b) is None && r == Err::<Self, Error>(
                Error::UnknownValue(ValueKind::DenyErrorCode, b),
            ),
    {
        match b {
            0 => Ok(DenyErrorCode::TimeOut),
            1 => Ok(DenyErrorCode::InvalidDataUnit),
            2 => Ok(DenyErrorCode::LengthError),
            3 => Ok(DenyErrorCode::ChecksumError),
            4 => Ok(DenyErrorCode::InfoClassNotExist),
            5 => Ok(DenyErrorCode::FormatError),
            6 => Ok(DenyErrorCode::MeterDup),
            7 => Ok(DenyErrorCode::MeterNotExist),
            8 => Ok(DenyErrorCode::AppNoResponse),
            9 => Ok(DenyErrorCode::MasterBusy),
            10 => Ok(DenyErrorCode::MasterNotSupport),
            11 => Ok(DenyErrorCode::SlaveNoResponse),
            12 => Ok(DenyErrorCode::SlaveOutNet),
            109 => Ok(DenyErrorCode::ExceedCocurrentNum),
            110 => Ok(DenyErrorCode::ExceedMsgNum),
            111 => Ok(DenyErrorCode::MeterOperating),
            255 => Ok(DenyErrorCode::Other),
            _ => Err(Error::UnknownValue(ValueKind::DenyErrorCode, b)),
        }
    }
}

impl vstd::std_specs::convert::TryFromSpecImpl<u8> for DenyErrorCode {
    open spec fn obeys_try_from_spec() -> bool {
        true
    }

    open spec fn try_from_spec(b: u8) -> Result<Self, Error> {
        match Self::spec_from_code(b) {
            Some(v) => Ok(v),
            None => Err(Error::UnknownValue(ValueKind::DenyErrorCode, b)),
        }
    }
}

/// Denial with its reason.
#[derive(Debug, Clone, Copy, PartialEq, Eq)]
pub struct DenyResponse {
    pub error_code: DenyErrorCode,
}

impl DenyResponse {
    pub fn error_code(&self) -> (c: DenyErrorCode)
        ensures
            c == self.error_code,
    {
        self.error_code
    }
}

impl TryFrom<AppData> for DenyResponse {
    type Error = Error;

    fn try_from(app_data: AppData) -> (r: Result<Self, Error>)
        ensures
            app_data.spec_check(Afn::Answer, 2, 1) matches Err(e) ==> r == Err::<Self, Error>(e),
            app_data.spec_check(Afn::Answer, 2, 1) is Ok ==> {
                let b = app_data.spec_units()[0];
                &&& r is Ok <==> DenyErrorCode::spec_from_code(b) is Some
                &&& r matches Ok(d) ==> DenyErrorCode::spec_from_code(b) == Some(d.error_code)
                &&& r is Err ==> r == Err::<Self, Error>(Error::UnknownValue(ValueKind::DenyErrorCode, b))
            },
    {
        app_data.check(Afn::Answer, AnswerFn::Deny.code(), 1)?;
        let u = app_data.units_ref();
        Ok(DenyResponse { error_code: DenyErrorCode::try_from(u[0])? })
    }
}

impl vstd::std_specs::convert::TryFromSpecImpl<AppData> for DenyResponse {
    open spec fn obeys_try_from_spec() -> bool {
        true
    }

    open spec fn try_from_spec(app_data: AppData) -> Result<Self, Error> {
        match app_data.spec_check(Afn::Answer, 2, 1) {
            Err(e) => Err(e),
            Ok(()) => match DenyErrorCode::spec_from_code(app_data.spec_units()[0]) {
                Some(c) => Ok(DenyResponse { error_code: c }),
                None => Err(Error::UnknownValue(ValueKind::DenyErrorCode, app_data.spec_units()[0])),
            },
        }
    }
}

impl From<DenyResponse> for AppData {
    fn from(response: DenyResponse) -> (a: AppData)
        ensures
            a.spec_has(Afn::Answer, 2, Some(seq![response.error_code.spec_code()])),
    {
        let mut v = Vec::new();
        v.push(response.error_code.code());
        assert(v@ =~= seq![response.error_code.spec_code()]);
        AppData::with_units(Afn::Answer, AnswerFn::Deny.code(), v)
    }
}

impl vstd::std_specs::convert::FromSpecImpl<DenyResponse> for AppData {
    open spec fn obeys_from_spec() -> bool {
        false
    }

    open spec fn from_spec(response: DenyResponse) -> AppData {
        arbitrary()
    }
}

} // verus!
