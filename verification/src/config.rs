//! Settings of the service, and how command-line options override them.
use vstd::prelude::*;

verus! {

/// Limits on concurrent meter reading.
#[derive(Debug, Clone, Copy, PartialEq, Eq)]
pub struct ConcurrentConfig {
    pub concurrency_limit: usize,
    pub timeout: u32,
}

/// The meter reading queue.
#[derive(Debug, Clone, Copy, PartialEq, Eq)]
pub struct MeterReadingConfig {
    pub cache_queue_size: usize,
    pub concurrent_addr: usize,
    pub queue_aging_time: u32,
}

/// Timeouts and limits of meter work.
#[derive(Debug, Clone, Copy, PartialEq, Eq)]
pub struct MeterConfig {
    pub init_timeout: u32,
    pub uart_timeout: u32,
    pub concurrent: ConcurrentConfig,
    pub meter_reading: MeterReadingConfig,
    pub resume_interval: u32,
}

/// Where the carrier module is attached.
#[derive(Debug, Clone, PartialEq, Eq)]
pub struct PlcDeviceConfig {
    pub port: String,
}

/// The MQTT broker and the credentials for it.
#[derive(Debug, Clone, PartialEq, Eq)]
pub struct MqttConfig {
    pub username: String,
    pub password: String,
    pub service_ip: String,
    pub service_port: u16,
    pub client_id: Option<String>,
}

/// The serial line to the module.
#[derive(Debug, Clone, PartialEq, Eq)]
pub struct UartConfig {
    pub port: String,
    pub baud_rate: u32,
    pub word_length: u8,
    pub parity: String,
    pub stop_bit: u8,
}

/// All settings.
#[derive(Debug, Clone, PartialEq, Eq)]
pub struct Config {
    pub meter_config: MeterConfig,
    pub plc_device_config: PlcDeviceConfig,
    pub mqtt_config: MqttConfig,
    pub uart_config: UartConfig,
}

/// Command-line limits on concurrent reading.
#[derive(Debug, Clone, PartialEq, Eq)]
pub struct ConcurrentLimit {
    pub concurrency: Option<usize>,
    pub requests_per_second: Option<String>,
    pub timeout: Option<u32>,
}

/// Command-line limits on the reading queue.
#[derive(Debug, Clone, Copy, PartialEq, Eq)]
pub struct MeterReadingLimit {
    pub queue_size: Option<usize>,
    pub max_addr_num: Option<usize>,
    pub aging_time: Option<u32>,
}

/// A setting, or the option that overrides it.
pub open spec fn spec_or<T>(option: Option<T>, value: T) -> T {
    match option {
        Some(v) => v,
        None => value,
    }
}

/// Lets every option given on the command line replace its setting.
pub fn set_meter_config(
    meter_config: &mut MeterConfig,
    init_timeout: Option<u32>,
    uart_timeout: Option<u32>,
    concurrent_limit: &ConcurrentLimit,
    meter_reading: &MeterReadingLimit,
    resume: Option<u32>,
)
    ensures
        final(meter_config).init_timeout == spec_or(init_timeout, old(meter_config).init_timeout),
        final(meter_config).uart_timeout == spec_or(uart_timeout, old(meter_config).uart_timeout),
        final(meter_config).concurrent.concurrency_limit == spec_or(
            concurrent_limit.concurrency,
            old(meter_config).concurrent.concurrency_limit,
        ),
        final(meter_config).concurrent.timeout == spec_or(
            concurrent_limit.timeout,
            old(meter_config).concurrent.timeout,
        ),
        final(meter_config).meter_reading.queue_aging_time == spec_or(
            meter_reading.aging_time,
            old(meter_config).meter_reading.queue_aging_time,
        ),
        final(meter_config).meter_reading.concurrent_addr == spec_or(
            meter_reading.max_addr_num,
            old(meter_config).meter_reading.concurrent_addr,
        ),
        final(meter_config).meter_reading.cache_queue_size == spec_or(
            meter_reading.queue_size,
            old(meter_config).meter_reading.cache_queue_size,
        ),
        final(meter_config).resume_interval == spec_or(resume, old(meter_config).resume_interval),
{
    if let Some(t) = init_timeout {
        meter_config.init_timeout = t;
    }
    if let Some(t) = uart_timeout {
        meter_config.uart_timeout = t;
    }
    if let Some(c) = concurrent_limit.concurrency {
        meter_config.concurrent.concurrency_limit = c;
    }
    if let Some(t) = concurrent_limit.timeout {
        meter_config.concurrent.timeout = t;
    }
    if let Some(a) = meter_reading.aging_time {
        meter_config.meter_reading.queue_aging_time = a;
    }
    if let Some(m) = meter_reading.max_addr_num {
        meter_config.meter_reading.concurrent_addr = m;
    }
    if let Some(q) = meter_reading.queue_size {
        meter_config.meter_reading.cache_queue_size = q;
    }
    if let Some(r) = resume {
        meter_config.resume_interval = r;
    }
}

} // verus!
