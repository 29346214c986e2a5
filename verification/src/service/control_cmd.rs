//! Control commands: the module's answers to setting the HPLC band and to
//! refusing meter reports.
use vstd::prelude::*;

use crate::error::Error;
use crate::mqtt_message::MqttMessage;
use crate::request_info::UartMessage;
use crate::service::parse_response::{spec_confirm_answer, uart_response_handler};

verus! {

/// Control commands.
#[derive(Debug, Clone, Copy, PartialEq, Eq)]
pub struct ControlCmd;

impl ControlCmd {
    /// The answer to setting the HPLC band (see `spec_confirm_answer`).
    pub fn uart_hplc_frequency_response<T, C>(message: UartMessage<T, C>) -> (r: Result<MqttMessage, Error>)
        requires
            message.req_info.mqtt_req_info is Some,
        ensures
            spec_confirm_answer(message, r),
    {
        uart_response_handler(message)
    }

    /// The answer to refusing meter reports (see `spec_confirm_answer`).
    pub fn uart_refuse_slave_report_response<T, C>(message: UartMessage<T, C>) -> (r: Result<MqttMessage, Error>)
        requires
            message.req_info.mqtt_req_info is Some,
        ensures
            spec_confirm_answer(message, r),
    {
        uart_response_handler(message)
    }
}

} // verus!
