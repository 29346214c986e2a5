//! Decisions of the service: what to send for a request, and what an answer means.
pub mod broadcast;
pub mod concurrent_meter;
pub mod control_cmd;
pub mod data_transfer;
pub mod debug_method;
pub mod device_info;
pub mod event_report;
pub mod file_upgrade;
pub mod hplc_info;
pub mod identify_area;
pub mod master_address;
pub mod meter_state;
pub mod module_info;
pub mod monitor_node;
pub mod node_config;
pub mod node_manage;
pub mod parse_response;
pub mod plc_device;
pub mod plc_init;
pub mod route_ctrl;
pub mod route_data_request;
