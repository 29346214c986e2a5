//! AFN 15H: file transfer (module upgrade).
use vstd::prelude::*;

use crate::bytes::{le16_bytes, le32, le32_bytes, push_le16, push_le32};
use crate::error::Error;
use crate::protocol::app_data::{Afn, AppData};

verus! {

/// Function numbers of AFN 15H.
#[derive(Debug, Clone, Copy, PartialEq, Eq)]
pub enum FileTransfer {
    Method,
}

impl FileTransfer {
    pub open spec fn spec_code(self) -> u8 {
        1
    }

    pub fn code(self) -> (b: u8)
        ensures
            b == self.spec_code(),
    {
        1
    }
}

/// Which modules a transferred file is for.
#[derive(Debug, Clone, Copy, PartialEq, Eq)]
pub enum FileFlag {
    Clear,
    Module,
    MasterAndSlave,
    Slave,
}

impl FileFlag {
    pub open spec fn spec_code(self) -> u8 {
        match self {
            FileFlag::Clear => 0,
            FileFlag::Module => 3,
            FileFlag::MasterAndSlave => 7,
            FileFlag::Slave => 8,
        }
    }

    pub fn code(self) -> (b: u8)
        ensures
            b == self.spec_code(),
    {
        match self {
            FileFlag::Clear => 0,
            FileFlag::Module => 3,
            FileFlag::MasterAndSlave => 7,
            FileFlag::Slave => 8,
        }
    }
}

/// Bytes of a file-transfer request before its file data.
pub const FILE_TRANSFER_PREFIX_LEN: usize = 11;

/// The segment number a module answers when the file fails its check.
pub const FILE_CHECK_ERROR: u32 = 0xffff;

/// One segment of a file.
#[derive(Debug, Clone, PartialEq, Eq)]
pub struct FileTransferRequest {
    pub file_flag: FileFlag,
    pub file_attr: u8,
    pub file_command: u8,
    pub segment_num: u16,
    pub segment_offset: u32,
    pub segment_len: u16,
    pub file_data: Vec<u8>,
}

impl FileTransferRequest {
    /// Segment `segment_offset` of `segment_num`; the attribute marks the last
    /// segment, the length is that of the data (truncated to 16 bits).
    pub fn new(file_flag: FileFlag, segment_num: u16, segment_offset: u32, file_data: Vec<u8>) -> (r: Self)
        requires
            segment_num >= 1,
        ensures
            r.file_flag == file_flag,
            r.file_attr == (if segment_offset == segment_num - 1 {
                1u8
            } else {
                0u8
            }),
            r.file_command == 0,
            r.segment_num == segment_num,
            r.segment_offset == segment_offset,
            r.segment_len == file_data@.len() as u16,
            r.file_data@ == file_data@,
    {
        Self {
            file_flag,
            file_attr: if segment_offset == segment_num as u32 - 1 {
                1
            } else {
                0
            },
            file_command: 0,
            segment_num,
            segment_offset,
            segment_len: file_data.len() as u16,
            file_data,
        }
    }

    /// Flag, attribute, command, segment count, segment index, segment length, data.
    pub open spec fn spec_units(self) -> Seq<u8> {
        seq![self.file_flag.spec_code(), self.file_attr, self.file_command] + le16_bytes(
            self.segment_num,
        ) + le32_bytes(self.segment_offset) + le16_bytes(self.segment_len) + self.file_data@
    }
}

impl From<FileTransferRequest> for AppData {
    fn from(value: FileTransferRequest) -> (a: AppData)
        ensures
            a.spec_has(Afn::FileTransfer, 1, Some(value.spec_units())),
    {
        let mut data = Vec::new();
        data.push(value.file_flag.code());
        data.push(value.file_attr);
        data.push(value.file_command);
        push_le16(&mut data, value.segment_num);
        push_le32(&mut data, value.segment_offset);
        push_le16(&mut data, value.segment_len);
        crate::bytes::extend_bytes(&mut data, value.file_data.as_slice());
        assert(data@ =~= value.spec_units());
        AppData::with_units(Afn::FileTransfer, FileTransfer::Method.code(), data)
    }
}

impl vstd::std_specs::convert::FromSpecImpl<FileTransferRequest> for AppData {
    open spec fn obeys_from_spec() -> bool {
        false
    }

    open spec fn from_spec(value: FileTransferRequest) -> AppData {
        arbitrary()
    }
}

/// The segment a module acknowledges (or `FILE_CHECK_ERROR`).
#[derive(Debug, Clone, Copy, PartialEq, Eq)]
pub struct FileTransferResponse {
    pub segment_flag: u32,
}

impl TryFrom<AppData> for FileTransferResponse {
    type Error = Error;

    fn try_from(app_data: AppData) -> (r: Result<Self, Error>)
        ensures
            r is Ok <==> app_data.spec_check(Afn::FileTransfer, 1, 4) is Ok,
            r matches Err(e) ==> app_data.spec_check(Afn::FileTransfer, 1, 4) == Err::<(), Error>(e),
            r matches Ok(t) ==> {
                let u = app_data.spec_units();
                t.segment_flag == le32(u[0], u[1], u[2], u[3])
            },
    {
        app_data.check(Afn::FileTransfer, FileTransfer::Method.code(), 4)?;
        let u = app_data.units_ref();
        Ok(Self { segment_flag: crate::bytes::u32_from_le(u[0], u[1], u[2], u[3]) })
    }
}

impl vstd::std_specs::convert::TryFromSpecImpl<AppData> for FileTransferResponse {
    open spec fn obeys_try_from_spec() -> bool {
        true
    }

    open spec fn try_from_spec(app_data: AppData) -> Result<Self, Error> {
        match app_data.spec_check(Afn::FileTransfer, 1, 4) {
            Err(e) => Err(e),
            Ok(()) => {
                let u = app_data.spec_units();
                Ok(FileTransferResponse { segment_flag: le32(u[0], u[1], u[2], u[3]) })
            },
        }
    }
}

} // verus!
