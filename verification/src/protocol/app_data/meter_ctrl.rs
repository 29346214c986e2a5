//! AFN 12H: route (metering) control.
use vstd::prelude::*;

use crate::protocol::app_data::{Afn, AppData};

verus! {

/// Function numbers of AFN 12H.
#[derive(Debug, Clone, Copy, PartialEq, Eq)]
pub enum MeterControl {
    Restart,
    Pause,
    Resume,
}

impl MeterControl {
    pub open spec fn spec_code(self) -> u8 {
        match self {
            MeterControl::Restart => 1,
            MeterControl::Pause => 2,
            MeterControl::Resume => 3,
        }
    }

    pub fn code(self) -> (b: u8)
        ensures
            b == self.spec_code(),
    {
        match self {
            MeterControl::Restart => 1,
            MeterControl::Pause => 2,
            MeterControl::Resume => 3,
        }
    }
}

#[derive(Debug, Clone, Copy, Default, PartialEq, Eq)]
pub struct PauseMetering;

#[derive(Debug, Clone, Copy, Default, PartialEq, Eq)]
pub struct ResumeMetering;

#[derive(Debug, Clone, Copy, Default, PartialEq, Eq)]
pub struct RestartMetering;

impl From<PauseMetering> for AppData {
    fn from(v: PauseMetering) -> (a: AppData)
        ensures
            a.spec_has(Afn::RouteCtrl, 2, None),
    {
        AppData::without_units(Afn::RouteCtrl, MeterControl::Pause.code())
    }
}

impl vstd::std_specs::convert::FromSpecImpl<PauseMetering> for AppData {
    open spec fn obeys_from_spec() -> bool {
        false
    }

    open spec fn from_spec(v: PauseMetering) -> AppData {
        arbitrary()
    }
}

impl From<ResumeMetering> for AppData {
    fn from(v: ResumeMetering) -> (a: AppData)
        ensures
            a.spec_has(Afn::RouteCtrl, 3, None),
    {
        AppData::without_units(Afn::RouteCtrl, MeterControl::Resume.code())
    }
}

impl vstd::std_specs::convert::FromSpecImpl<ResumeMetering> for AppData {
    open spec fn obeys_from_spec() -> bool {
        false
    }

    open spec fn from_spec(v: ResumeMetering) -> AppData {
        arbitrary()
    }
}

impl From<RestartMetering> for AppData {
    fn from(v: RestartMetering) -> (a: AppData)
        ensures
            a.spec_has(Afn::RouteCtrl, 1, None),
    {
        AppData::without_units(Afn::RouteCtrl, MeterControl::Restart.code())
    }
}

impl vstd::std_specs::convert::FromSpecImpl<RestartMetering> for AppData {
    open spec fn obeys_from_spec() -> bool {
        false
    }

    open spec fn from_spec(v: RestartMetering) -> AppData {
        arbitrary()
    }
}

} // verus!
