//! The device's serial number, asked of the operating system's manager until it
//! answers.
use vstd::prelude::*;

use crate::error::Error;
use crate::mqtt_topic::app_name;
use crate::text::{owned, push_str};

verus! {

/// How many times the device information is asked for.
pub const RETRY_COUNT: usize = 60;

/// What the asking for the device information does next.
#[derive(Debug, PartialEq, Eq)]
pub enum DeviceInfoStep {
    /// Ask (again) and wait.
    Ask,
    Done,
    Failed(Error),
}

/// The device's serial number, empty until it is known.
#[derive(Debug, Clone, PartialEq, Eq)]
pub struct DeviceInfo {
    pub esn: String,
}

impl DeviceInfo {
    pub fn new() -> (r: Self)
        ensures
            r.esn@.len() == 0,
    {
        DeviceInfo { esn: String::new() }
    }

    pub fn esn(&self) -> (s: String)
        ensures
            s@ == self.esn@,
    {
        owned(self.esn.as_str())
    }

    /// The manager's answer.
    pub fn mqtt_device_info_response(&mut self, device_esn: String)
        ensures
            final(self).esn == device_esn,
    {
        self.esn = device_esn;
    }

    /// The topic the device information is asked on.
    pub fn device_info_topic() -> (s: String)
        ensures
            s@ == crate::mqtt_topic::spec_app_name() + "/get/request/osmanage/deviceInfo"@,
    {
        let mut s = owned(app_name());
        push_str(&mut s, "/get/request/osmanage/deviceInfo");
        s
    }

    /// After a wait (the number of waits that ran out so far): done once the number
    /// is known; asked again while fewer than `RETRY_COUNT` waits ran out; a failure
    /// after that.
    pub fn after_wait(&self, timed_out: usize) -> (s: DeviceInfoStep)
        ensures
            self.esn@.len() > 0 ==> s == DeviceInfoStep::Done,
            self.esn@.len() == 0 && timed_out < RETRY_COUNT ==> s == DeviceInfoStep::Ask,
            self.esn@.len() == 0 && timed_out >= RETRY_COUNT ==> s == DeviceInfoStep::Failed(Error::DeviceInfo),
    {
        if self.esn.unicode_len() > 0 {
            DeviceInfoStep::Done
        } else if timed_out < RETRY_COUNT {
            DeviceInfoStep::Ask
        } else {
            DeviceInfoStep::Failed(Error::DeviceInfo)
        }
    }
}

} // verus!
