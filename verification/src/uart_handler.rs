//! Where a message from the module goes: by whether it answers a start-up
//! request (or is a report of the module), and by its request's AFN and function.
use vstd::prelude::*;

use crate::error::{Error, UartHandlerError};
use crate::protocol::app_data::Afn;
use crate::request_info::FrameKey;

verus! {

/// The handler a message from the module goes to.
#[derive(Debug, Clone, Copy, PartialEq, Eq)]
pub enum UartRoute {
    /// The module reported its information by itself.
    SlaveModuleInfoReport,
    /// The module information asked for at start-up.
    InitModuleInfo,
    /// Setting the master address at start-up.
    InitSetAddress,
    /// Meters sent at start-up.
    InitAddNode,
    /// The archive cleared at start-up.
    InitClearFiles,
    ModuleInfo,
    MasterIdInfo,
    SetAddress,
    AddNode,
    DelNode,
    NodeNumber,
    NodeInfo,
    ChipInfo,
    ReadMeter,
    DebugFrame,
}

/// Whether a start-up answer is one of those the service asks for.
pub open spec fn spec_init_known(key: FrameKey) -> bool {
    ||| key == FrameKey(Afn::QueryData.spec_code(), 10)
    ||| key == FrameKey(Afn::CtrlCmd.spec_code(), 1)
    ||| key == FrameKey(Afn::RouteSet.spec_code(), 1)
    ||| key == FrameKey(Afn::Init.spec_code(), 2)
}

/// Where a message goes. A report of the module is taken only for its module
/// information; a start-up answer goes to the start-up; an MQTT request's answer
/// goes by AFN and function; anything else is refused.
pub open spec fn spec_uart_route(key: FrameKey, is_init: bool, is_slave_report: bool) -> Result<UartRoute, Error> {
    let afn = Afn::spec_from_code(key.0)->0;
    let f = key.1;
    let unsupported_fn = Err(Error::UartHandler(UartHandlerError::UnsupportedAfnFn(afn, f)));
    let unsupported = Err(Error::UartHandler(UartHandlerError::UnsupportedAfn(afn)));
    if is_init && is_slave_report {
        if afn == Afn::QueryData {
            if f == 10 {
                Ok(UartRoute::SlaveModuleInfoReport)
            } else {
                unsupported_fn
            }
        } else {
            unsupported
        }
    } else if is_init {
        if afn == Afn::QueryData {
            Ok(UartRoute::InitModuleInfo)
        } else if afn == Afn::CtrlCmd {
            Ok(UartRoute::InitSetAddress)
        } else if afn == Afn::RouteSet {
            Ok(UartRoute::InitAddNode)
        } else {
            Ok(UartRoute::InitClearFiles)
        }
    } else if afn == Afn::CtrlCmd {
        if f == 1 {
            Ok(UartRoute::SetAddress)
        } else {
            unsupported_fn
        }
    } else if afn == Afn::QueryData {
        if f == 10 {
            Ok(UartRoute::ModuleInfo)
        } else if f == 12 {
            Ok(UartRoute::MasterIdInfo)
        } else {
            unsupported_fn
        }
    } else if afn == Afn::RouteSet {
        if f == 1 {
            Ok(UartRoute::AddNode)
        } else if f == 2 {
            Ok(UartRoute::DelNode)
        } else {
            unsupported_fn
        }
    } else if afn == Afn::RouteGet {
        if f == 1 {
            Ok(UartRoute::NodeNumber)
        } else if f == 2 {
            Ok(UartRoute::NodeInfo)
        } else if f == 112 {
            Ok(UartRoute::ChipInfo)
        } else {
            unsupported_fn
        }
    } else if afn == Afn::CocurrentReadMeter {
        if f == 1 {
            Ok(UartRoute::ReadMeter)
        } else {
            unsupported_fn
        }
    } else if afn == Afn::Test {
        Ok(UartRoute::DebugFrame)
    } else {
        unsupported
    }
}

/// Where a message goes (see `spec_uart_route`). The request's AFN is a known one;
/// a start-up answer is one the service asks for, and a test answer has function 0.
pub fn uart_route(key: FrameKey, is_init: bool, is_slave_report: bool) -> (r: Result<UartRoute, Error>)
    requires
        Afn::spec_from_code(key.0) is Some,
        is_init && !is_slave_report ==> spec_init_known(key),
        !is_init && key.0 == Afn::Test.spec_code() ==> key.1 == 0,
    ensures
        r == spec_uart_route(key, is_init, is_slave_report),
{
    let (afn, f) = key.to_tuple();
    if is_init && is_slave_report {
        if afn == Afn::QueryData {
            if f == 10 {
                Ok(UartRoute::SlaveModuleInfoReport)
            } else {
                Err(Error::UartHandler(UartHandlerError::UnsupportedAfnFn(afn, f)))
            }
        } else {
            Err(Error::UartHandler(UartHandlerError::UnsupportedAfn(afn)))
        }
    } else if is_init {
        if afn == Afn::QueryData {
            Ok(UartRoute::InitModuleInfo)
        } else if afn == Afn::CtrlCmd {
            Ok(UartRoute::InitSetAddress)
        } else if afn == Afn::RouteSet {
            Ok(UartRoute::InitAddNode)
        } else {
            Ok(UartRoute::InitClearFiles)
        }
    } else if afn == Afn::CtrlCmd {
        if f == 1 {
            Ok(UartRoute::SetAddress)
        } else {
            Err(Error::UartHandler(UartHandlerError::UnsupportedAfnFn(afn, f)))
        }
    } else if afn == Afn::QueryData {
        if f == 10 {
            Ok(UartRoute::ModuleInfo)
        } else if f == 12 {
            Ok(UartRoute::MasterIdInfo)
        } else {
            Err(Error::UartHandler(UartHandlerError::UnsupportedAfnFn(afn, f)))
        }
    } else if afn == Afn::RouteSet {
        if f == 1 {
            Ok(UartRoute::AddNode)
        } else if f == 2 {
            Ok(UartRoute::DelNode)
        } else {
            Err(Error::UartHandler(UartHandlerError::UnsupportedAfnFn(afn, f)))
        }
    } else if afn == Afn::RouteGet {
        if f == 1 {
            Ok(UartRoute::NodeNumber)
        } else if f == 2 {
            Ok(UartRoute::NodeInfo)
        } else if f == 112 {
            Ok(UartRoute::ChipInfo)
        } else {
            Err(Error::UartHandler(UartHandlerError::UnsupportedAfnFn(afn, f)))
        }
    } else if afn == Afn::CocurrentReadMeter {
        if f == 1 {
            Ok(UartRoute::ReadMeter)
        } else {
            Err(Error::UartHandler(UartHandlerError::UnsupportedAfnFn(afn, f)))
        }
    } else if afn == Afn::Test {
        Ok(UartRoute::DebugFrame)
    } else {
        Err(Error::UartHandler(UartHandlerError::UnsupportedAfn(afn)))
    }
}

/// A request that got no answer: a concurrent reading goes back to its meter's
/// queue; any other MQTT request is answered with the timeout.
/// Whether `uart_route` takes this key: a known function code; among the
/// service's own requests, only those of the start-up; a test frame of number 0.
pub fn routable(key: FrameKey, is_init: bool, is_slave_report: bool) -> (b: bool)
    ensures
        b == ({
            &&& Afn::spec_from_code(key.0) is Some
            &&& is_init && !is_slave_report ==> spec_init_known(key)
            &&& !is_init && key.0 == Afn::Test.spec_code() ==> key.1 == 0
        }),
{
    if Afn::from_code(key.0).is_none() {
        return false;
    }
    if is_init && !is_slave_report {
        let known = (key.0 == Afn::QueryData.code() && key.1 == 10) || (key.0 == Afn::CtrlCmd.code() && key.1 == 1)
            || (key.0 == Afn::RouteSet.code() && key.1 == 1) || (key.0 == Afn::Init.code() && key.1 == 2);
        if !known {
            return false;
        }
    }
    !(!is_init && key.0 == Afn::Test.code()) || key.1 == 0
}

pub fn timeout_goes_to_reading(key: FrameKey) -> (b: bool)
    ensures
        b == (key == FrameKey(Afn::CocurrentReadMeter.spec_code(), 1)),
{
    key.0 == Afn::CocurrentReadMeter.code() && key.1 == 1
}

} // verus!
