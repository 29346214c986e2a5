//! Frame codec and decision logic for a power-line-carrier (HPLC) concentrator service.
use vstd::prelude::*;

pub mod bytes;
pub mod config;
pub mod error;
pub mod json_text;
pub mod mqtt_handler;
pub mod mqtt_message;
pub mod mqtt_topic;
pub mod protocol;
pub mod request_info;
pub mod schema_check;
pub mod serial_port;
pub mod service;
pub mod text;
pub mod uart_agent;
pub mod uart_handler;

verus! {

/// The name under which this service is addressed on MQTT.
pub const APP_NAME: &'static str = "PLCServiceGW";

} // verus!
