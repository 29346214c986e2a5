//! The service's counters and the metering state that is reported over MQTT.
use vstd::prelude::*;

use crate::error::Error;
use crate::mqtt_message::MqttMessage;
use crate::protocol::app_data::route_data_read::DateTime;
use crate::protocol::app_data::route_get::{CurrentStatus, RunningStatusRequest, RunningStatusResponse};
use crate::protocol::app_data::{Afn, AppData};
use crate::protocol::frame::FrameSeq;
use crate::request_info::UartMessage;
use crate::service::file_upgrade::{spec_printable, spec_time_text, time_text};
use crate::service::parse_response::{mqtt_request_uart_handler, spec_deny, spec_is_deny, UartResponse};

verus! {

/// When the module last sent something, and how often the module and its
/// router were initialised or reset.
#[derive(Debug, Clone, Copy, PartialEq, Eq)]
pub struct MeterState {
    pub last_receive_time: DateTime,
    pub init_data_count: u32,
    pub init_param_count: u32,
    pub reset_module_count: u32,
    pub reset_router_count: u32,
}

/// The metering state as it is reported.
#[derive(Debug, Clone, PartialEq, Eq)]
pub struct MeteringStateResponse {
    pub last_receive_time: String,
    pub ctrl_stat: u8,
    pub search_stat: u8,
    pub auto_reading: u8,
    pub init_data_count: u32,
    pub init_param_count: u32,
    pub reset_module_count: u32,
    pub reset_router_count: u32,
    pub identify_area_stat: u8,
}

impl MeterState {
    /// Counters at zero; `now` is the start.
    pub fn new(now: DateTime) -> (r: Self)
        ensures
            r.last_receive_time == now,
            r.init_data_count == 0 && r.init_param_count == 0 && r.reset_module_count == 0 && r.reset_router_count == 0,
    {
        MeterState { last_receive_time: now, init_data_count: 0, init_param_count: 0, reset_module_count: 0, reset_router_count: 0 }
    }

    /// The request for the router's running state, answered on the request's answer topic.
    pub fn mqtt_get_metering_state<T, C>(message: &MqttMessage, seq: &mut FrameSeq) -> (m: UartMessage<T, C>)
        requires
            message.spec_answerable(),
        ensures
            m.frame.user_data.app_data.spec_has(Afn::RouteGet, 4, None),
            m.req_info.mqtt_req_info matches Some(i) && i.topic@ == crate::mqtt_topic::spec_transfer_text(
                message.topic@,
            ) && Some(i.token@) == message.spec_token(),
            m.req_info.seq_num == old(seq).spec_next(),
    {
        mqtt_request_uart_handler(AppData::from(RunningStatusRequest), message, seq)
    }

    pub fn init_data(&mut self)
        requires
            old(self).init_data_count < u32::MAX,
        ensures
            *final(self) == (MeterState { init_data_count: (old(self).init_data_count + 1) as u32, ..*old(self) }),
    {
        self.init_data_count = self.init_data_count + 1;
    }

    pub fn init_param(&mut self)
        requires
            old(self).init_param_count < u32::MAX,
        ensures
            *final(self) == (MeterState { init_param_count: (old(self).init_param_count + 1) as u32, ..*old(self) }),
    {
        self.init_param_count = self.init_param_count + 1;
    }

    pub fn reset_module(&mut self)
        requires
            old(self).reset_module_count < u32::MAX,
        ensures
            *final(self) == (MeterState { reset_module_count: (old(self).reset_module_count + 1) as u32, ..*old(self) }),
    {
        self.reset_module_count = self.reset_module_count + 1;
    }

    pub fn reset_router(&mut self)
        requires
            old(self).reset_router_count < u32::MAX,
        ensures
            *final(self) == (MeterState { reset_router_count: (old(self).reset_router_count + 1) as u32, ..*old(self) }),
    {
        self.reset_router_count = self.reset_router_count + 1;
    }

    /// The module sent something at `now`.
    pub fn receive_message(&mut self, now: DateTime)
        ensures
            *final(self) == (MeterState { last_receive_time: now, ..*old(self) }),
    {
        self.last_receive_time = now;
    }

    /// The report for the router's running state: the last reception, whether the
    /// router meters or searches, automatic reading, the counters (the parameter
    /// count reports the data initialisations), and the area identification.
    pub fn metering_state_response(&self, response: &RunningStatusResponse, auto_reading: u8) -> (r: MeteringStateResponse)
        requires
            spec_printable(self.last_receive_time),
            response.work_status.meter_status <= 3,
        ensures
            r.last_receive_time@ == spec_time_text(self.last_receive_time),
            r.ctrl_stat == (if CurrentStatus::spec_from_code(response.work_status.meter_status) == CurrentStatus::Metering {
                1u8
            } else {
                0u8
            }),
            r.search_stat == (if CurrentStatus::spec_from_code(response.work_status.meter_status) == CurrentStatus::Searching {
                1u8
            } else {
                0u8
            }),
            r.auto_reading == auto_reading,
            r.init_data_count == self.init_data_count,
            r.init_param_count == self.init_data_count,
            r.reset_module_count == self.reset_module_count,
            r.reset_router_count == self.reset_router_count,
            r.identify_area_stat == response.work_status.area_identify_status,
    {
        let status = response.current_status();
        MeteringStateResponse {
            last_receive_time: time_text(&self.last_receive_time),
            ctrl_stat: if status == CurrentStatus::Metering {
                1
            } else {
                0
            },
            search_stat: if status == CurrentStatus::Searching {
                1
            } else {
                0
            },
            auto_reading,
            init_data_count: self.init_data_count,
            init_param_count: self.init_data_count,
            reset_module_count: self.reset_module_count,
            reset_router_count: self.reset_router_count,
            identify_area_stat: response.work_status.area_identify_status,
        }
    }

    /// The module's answer to the running-state request: the report, or the denial.
    pub fn uart_metering_state_response<T, C>(&self, message: UartMessage<T, C>, auto_reading: u8) -> (r: Result<UartResponse<MeteringStateResponse>, Error>)
        requires
            spec_printable(self.last_receive_time),
        ensures
            spec_is_deny(message.frame) ==> match spec_deny(message.frame.user_data.app_data) {
                Ok(d) => r == Ok::<_, Error>(UartResponse::<MeteringStateResponse>::Deny(d)),
                Err(e) => r == Err::<UartResponse<MeteringStateResponse>, Error>(e),
            },
            !spec_is_deny(message.frame) ==> {
                let a = message.frame.user_data.app_data;
                let u = a.spec_units();
                &&& r is Ok <==> a.spec_check(Afn::RouteGet, 4, 16) is Ok
                &&& r matches Err(e) ==> a.spec_check(Afn::RouteGet, 4, 16) == Err::<(), Error>(e)
                &&& r matches Ok(resp) ==> resp matches UartResponse::Normal(s) && s.last_receive_time@
                    == spec_time_text(self.last_receive_time) && s.ctrl_stat == (if u[7] / 64 == 0 {
                    1u8
                } else {
                    0u8
                }) && s.search_stat == (if u[7] / 64 == 1 {
                    1u8
                } else {
                    0u8
                }) && s.auto_reading == auto_reading && s.init_data_count == self.init_data_count
                    && s.init_param_count == self.init_data_count && s.reset_module_count == self.reset_module_count
                    && s.reset_router_count == self.reset_router_count && s.identify_area_stat == (u[7] / 8) % 2
            },
    {
        match UartResponse::from_frame(message.frame)? {
            UartResponse::Normal(a) => {
                let status = RunningStatusResponse::try_from(a)?;
                Ok(UartResponse::Normal(self.metering_state_response(&status, auto_reading)))
            },
            UartResponse::Deny(d) => Ok(UartResponse::Deny(d)),
        }
    }
}

} // verus!
