//! AFN 05H: control commands.
use vstd::prelude::*;

use crate::protocol::app_data::{Address, Afn, AppData};

verus! {

/// Function numbers of AFN 05H.
#[derive(Debug, Clone, Copy, PartialEq, Eq)]
pub enum CtrlCmd {
    SetAddress,
    Broadcast,
    IdentifyArea,
}

impl CtrlCmd {
    pub open spec fn spec_code(self) -> u8 {
        match self {
            CtrlCmd::SetAddress => 1,
            CtrlCmd::Broadcast => 3,
            CtrlCmd::IdentifyArea => 6,
        }
    }

    pub fn code(self) -> (b: u8)
        ensures
            b == self.spec_code(),
    {
        match self {
            CtrlCmd::SetAddress => 1,
            CtrlCmd::Broadcast => 3,
            CtrlCmd::IdentifyArea => 6,
        }
    }
}

/// A message to broadcast under a protocol type.
#[derive(Debug, Clone, PartialEq, Eq)]
pub struct BroadcastRequest {
    pub protocol_type: u8,
    pub message: Vec<u8>,
}

impl BroadcastRequest {
    pub fn new(protocol_type: u8, message: Vec<u8>) -> (r: Self)
        ensures
            r.protocol_type == protocol_type,
            r.message@ == message@,
    {
        Self { protocol_type, message }
    }
}

impl From<BroadcastRequest> for AppData {
    /// Protocol type, message length (one byte), message.
    fn from(value: BroadcastRequest) -> (a: AppData)
        ensures
            a.spec_has(
                Afn::CtrlCmd,
                3,
                Some(seq![value.protocol_type, value.message@.len() as u8] + value.message@),
            ),
    {
        let mut data = Vec::new();
        data.push(value.protocol_type);
        data.push(value.message.len() as u8);
        crate::bytes::extend_bytes(&mut data, value.message.as_slice());
        assert(data@ =~= seq![value.protocol_type, value.message@.len() as u8] + value.message@);
        AppData::with_units(Afn::CtrlCmd, CtrlCmd::Broadcast.code(), data)
    }
}

impl vstd::std_specs::convert::FromSpecImpl<BroadcastRequest> for AppData {
    open spec fn obeys_from_spec() -> bool {
        false
    }

    open spec fn from_spec(value: BroadcastRequest) -> AppData {
        arbitrary()
    }
}

/// Sets the master node address.
#[derive(Debug, Clone, Copy, PartialEq, Eq)]
pub struct AddressSetRequest {
    pub address: Address,
}

impl AddressSetRequest {
    pub fn new(address: Address) -> (r: Self)
        ensures
            r.address == address,
    {
        Self { address }
    }
}

impl From<AddressSetRequest> for AppData {
    /// The address in wire order.
    fn from(request: AddressSetRequest) -> (a: AppData)
        ensures
            a.spec_has(Afn::CtrlCmd, 1, Some(request.address.wire())),
    {
        AppData::with_units(Afn::CtrlCmd, CtrlCmd::SetAddress.code(), request.address.to_bytes())
    }
}

impl vstd::std_specs::convert::FromSpecImpl<AddressSetRequest> for AppData {
    open spec fn obeys_from_spec() -> bool {
        false
    }

    open spec fn from_spec(request: AddressSetRequest) -> AppData {
        arbitrary()
    }
}

/// Switches area identification on or off.
#[derive(Debug, Clone, Copy, PartialEq, Eq)]
pub struct IdentifyAreaSetRequest {
    pub enable_flag: u8,
}

impl IdentifyAreaSetRequest {
    pub fn new(enable_flag: u8) -> (r: Self)
        ensures
            r.enable_flag == enable_flag,
    {
        Self { enable_flag }
    }
}

impl From<IdentifyAreaSetRequest> for AppData {
    fn from(value: IdentifyAreaSetRequest) -> (a: AppData)
        ensures
            a.spec_has(Afn::CtrlCmd, 6, Some(seq![value.enable_flag])),
    {
        let mut v = Vec::new();
        v.push(value.enable_flag);
        assert(v@ =~= seq![value.enable_flag]);
        AppData::with_units(Afn::CtrlCmd, CtrlCmd::IdentifyArea.code(), v)
    }
}

impl vstd::std_specs::convert::FromSpecImpl<IdentifyAreaSetRequest> for AppData {
    open spec fn obeys_from_spec() -> bool {
        false
    }

    open spec fn from_spec(value: IdentifyAreaSetRequest) -> AppData {
        arbitrary()
    }
}

} // verus!
