//! The carrier module's life cycle: power it on, check that it is present, keep
//! watching it while it runs, and power it off to start again.
use vstd::prelude::*;

use crate::error::{Error, PlcDeviceError};
use crate::mqtt_message::{status_payload, timestamp, MqttMessage};
use crate::mqtt_topic::app_name;
use crate::text::{owned, push_decimal, push_str, spec_decimal};

verus! {

/// Where the module's life cycle stands.
#[derive(Debug, Clone, Copy, PartialEq, Eq)]
pub enum DeviceState {
    Init,
    CheckMid,
    Running,
    Destroy,
}

/// The level of the module's presence pin (low: present).
#[derive(Debug, Clone, Copy, PartialEq, Eq)]
pub enum PinStatus {
    Low,
    High,
}

/// How many presence checks one running period makes (a check every three
/// seconds for ten minutes).
pub const RUNNING_CHECKS: u64 = 200;

/// How often the presence check is tried before the module is taken down.
pub const CHECK_RETRY: u8 = 3;

/// The state after a state's work: powering on leads to the presence check (or
/// again to powering on); a present module runs (an absent one is taken down); a
/// running module runs on until its watch fails; powering off starts over (or is
/// tried again).
pub open spec fn spec_next_state(state: DeviceState, ok: bool) -> DeviceState {
    match state {
        DeviceState::Init => if ok {
            DeviceState::CheckMid
        } else {
            DeviceState::Init
        },
        DeviceState::CheckMid => if ok {
            DeviceState::Running
        } else {
            DeviceState::Destroy
        },
        DeviceState::Running => if ok {
            DeviceState::Running
        } else {
            DeviceState::Destroy
        },
        DeviceState::Destroy => if ok {
            DeviceState::Init
        } else {
            DeviceState::Destroy
        },
    }
}

/// The state after a state's work (see `spec_next_state`).
pub fn next_state(state: DeviceState, ok: bool) -> (s: DeviceState)
    ensures
        s == spec_next_state(state, ok),
{
    match state {
        DeviceState::Init => if ok {
            DeviceState::CheckMid
        } else {
            DeviceState::Init
        },
        DeviceState::CheckMid => if ok {
            DeviceState::Running
        } else {
            DeviceState::Destroy
        },
        DeviceState::Running => if ok {
            DeviceState::Running
        } else {
            DeviceState::Destroy
        },
        DeviceState::Destroy => if ok {
            DeviceState::Init
        } else {
            DeviceState::Destroy
        },
    }
}

/// The pin level a reading stands for: 0 is low, 1 is high, anything else an error.
pub fn pin_status(value: i32) -> (r: Result<PinStatus, Error>)
    ensures
        value == 0 ==> r == Ok::<PinStatus, Error>(PinStatus::Low),
        value == 1 ==> r == Ok::<PinStatus, Error>(PinStatus::High),
        value != 0 && value != 1 ==> r == Err::<PinStatus, Error>(Error::PinStatus(value)),
{
    if value == 0 {
        Ok(PinStatus::Low)
    } else if value == 1 {
        Ok(PinStatus::High)
    } else {
        Err(Error::PinStatus(value))
    }
}

/// Whether two readings a moment apart both show the level.
pub fn check_status(first: PinStatus, second: Option<PinStatus>, status: PinStatus) -> (b: bool)
    ensures
        b == (first == status && second == Some(status)),
{
    let same_first = match (first, status) {
        (PinStatus::Low, PinStatus::Low) | (PinStatus::High, PinStatus::High) => true,
        _ => false,
    };
    if !same_first {
        return false;
    }
    match (second, status) {
        (Some(PinStatus::Low), PinStatus::Low) | (Some(PinStatus::High), PinStatus::High) => true,
        _ => false,
    }
}

/// One presence check of a running module (the `i`-th of the period): an absent
/// module is taken down, and every twentieth check so is one that left five or
/// more requests unanswered in a row.
pub fn running_check(i: u64, device_on: bool, consecutive_timeouts: u8) -> (r: Result<(), Error>)
    ensures
        !device_on ==> r == Err::<(), Error>(Error::PlcDevice(PlcDeviceError::Off)),
        device_on && i % 20 == 0 && consecutive_timeouts >= 5 ==> r == Err::<(), Error>(
            Error::PlcDevice(PlcDeviceError::Timeouts),
        ),
        device_on && !(i % 20 == 0 && consecutive_timeouts >= 5) ==> r is Ok,
{
    if !device_on {
        Err(Error::PlcDevice(PlcDeviceError::Off))
    } else if i % 20 == 0 && consecutive_timeouts >= 5 {
        Err(Error::PlcDevice(PlcDeviceError::Timeouts))
    } else {
        Ok(())
    }
}

/// Status and reason of the plug-in notice: present or pulled out.
pub open spec fn spec_plugin_status(online: bool) -> (Seq<char>, Seq<char>) {
    if online {
        ("OK"@, "module plugin"@)
    } else {
        ("FAILURE"@, "module pullout"@)
    }
}

/// The notice that the module was plugged in or pulled out, to every
/// application, with the given token.
pub fn model_plugin_notify(online: bool, token: u64) -> (m: MqttMessage)
    ensures
        m.topic@ == crate::mqtt_topic::spec_app_name() + "/notify/spont/*/modePlugin"@,
        exists|ts: Seq<char>|
            m.payload@ == crate::mqtt_message::status_payload_text(
                spec_decimal(token as nat),
                ts,
                spec_plugin_status(online).0,
                spec_plugin_status(online).1,
            ),
{
    let mut topic = owned(app_name());
    push_str(&mut topic, "/notify/spont/*/modePlugin");
    let mut t = String::new();
    push_decimal(&mut t, token);
    let ts = timestamp();
    let payload = if online {
        status_payload(t.as_str(), ts.as_str(), "OK", "module plugin")
    } else {
        status_payload(t.as_str(), ts.as_str(), "FAILURE", "module pullout")
    };
    let m = MqttMessage { topic, payload };
    assert(m.payload@ == crate::mqtt_message::status_payload_text(
        spec_decimal(token as nat),
        ts@,
        spec_plugin_status(online).0,
        spec_plugin_status(online).1,
    ));
    m
}

} // verus!
