//! AFN 01H: module initialisation.
use vstd::prelude::*;

use crate::protocol::app_data::{Afn, AppData};

verus! {

/// What to initialise: the hardware, the parameters, or the data.
#[derive(Debug, Clone, Copy, PartialEq, Eq)]
pub enum InitOperation {
    Hard,
    Params,
    Data,
}

impl InitOperation {
    pub open spec fn spec_code(self) -> u8 {
        match self {
            InitOperation::Hard => 1,
            InitOperation::Params => 2,
            InitOperation::Data => 3,
        }
    }

    pub fn code(self) -> (b: u8)
        ensures
            b == self.spec_code(),
    {
        match self {
            InitOperation::Hard => 1,
            InitOperation::Params => 2,
            InitOperation::Data => 3,
        }
    }
}

#[derive(Debug, Clone, Copy, PartialEq, Eq)]
pub struct InitRequest {
    pub operation: InitOperation,
}

impl InitRequest {
    pub fn new(operation: InitOperation) -> (r: Self)
        ensures
            r.operation == operation,
    {
        Self { operation }
    }
}

impl From<InitRequest> for AppData {
    /// The operation is the function number; there are no data units.
    fn from(init_request: InitRequest) -> (a: AppData)
        ensures
            a.spec_has(Afn::Init, init_request.operation.spec_code(), None),
    {
        AppData::without_units(Afn::Init, init_request.operation.code())
    }
}

impl vstd::std_specs::convert::FromSpecImpl<InitRequest> for AppData {
    open spec fn obeys_from_spec() -> bool {
        false
    }

    open spec fn from_spec(init_request: InitRequest) -> AppData {
        arbitrary()
    }
}

} // verus!
