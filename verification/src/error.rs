//! Errors of the library, and their texts.
use vstd::prelude::*;

use crate::mqtt_topic::TopicError;
use crate::protocol::app_data::answer::DenyErrorCode;
use crate::protocol::app_data::{Afn, AppDataError};
use crate::protocol::frame::FrameError;
use crate::text::{push_decimal, push_hex, push_str, spec_decimal, spec_hex};

verus! {

/// Which coded field carried a value that has no meaning.
#[derive(Debug, Clone, Copy, PartialEq, Eq)]
pub enum ValueKind {
    Afn,
    Comm,
    DenyErrorCode,
    WorkStatusType,
    ModuleIdFormat,
    CurrentStatus,
}

impl ValueKind {
    /// The name of the coded type.
    pub open spec fn spec_name(self) -> Seq<char> {
        match self {
            ValueKind::Afn => "Afn"@,
            ValueKind::Comm => "Comm"@,
            ValueKind::DenyErrorCode => "DenyErrorCode"@,
            ValueKind::WorkStatusType => "WorkStatusType"@,
            ValueKind::ModuleIdFormat => "ModuleIdFormat"@,
            ValueKind::CurrentStatus => "CurrentStatus"@,
        }
    }

    fn name(self) -> (s: &'static str)
        ensures
            s@ == self.spec_name(),
    {
        match self {
            ValueKind::Afn => "Afn",
            ValueKind::Comm => "Comm",
            ValueKind::DenyErrorCode => "DenyErrorCode",
            ValueKind::WorkStatusType => "WorkStatusType",
            ValueKind::ModuleIdFormat => "ModuleIdFormat",
            ValueKind::CurrentStatus => "CurrentStatus",
        }
    }
}

/// Why an MQTT request is answered with a failure.
#[derive(Debug, Clone, PartialEq, Eq)]
pub enum MqttResponseError {
    /// The serial side did not answer in time.
    Timeout,
    /// The module is pulled out or still initialising.
    ModelOffline,
    /// The request's JSON is not what the topic expects (the reason).
    InvalidJson(String),
    /// The upgrade file cannot be read.
    InvalidUpgradeFile,
    /// An upgrade is already under way.
    AlreadyUpgrading,
}

/// Frames that no handler takes.
#[derive(Debug, Clone, Copy, PartialEq, Eq)]
pub enum UartHandlerError {
    UnsupportedAfn(Afn),
    UnsupportedAfnFn(Afn, u8),
}

/// Why a change to the configured meters is refused.
#[derive(Debug, Clone, PartialEq, Eq)]
pub enum NodeConfigError {
    /// No meter is registered under this address.
    NotFound(String),
    /// The meter is registered under another protocol type (requested, registered).
    TypeMismatch(String, String),
}

/// Why a concurrent reading request is refused or failed.
#[derive(Debug, Clone, PartialEq, Eq)]
pub enum ConcurrentMeterError {
    /// As many meters as allowed are being read (the limit).
    AddrLimit(usize),
    /// The meter's waiting queue is full (its size).
    QueueLimit(usize),
    /// The module answered without meter data.
    MeterReading,
}

/// Why the start-up of the module failed.
#[derive(Debug, Clone, Copy, PartialEq, Eq)]
pub enum PlcInitError {
    Timeout,
    InvalidEvent,
}

/// Why a decimal text is not an unsigned number.
#[derive(Debug, Clone, Copy, PartialEq, Eq)]
pub enum ParseIntError {
    Empty,
    InvalidDigit,
    PosOverflow,
}

/// Why a hexadecimal text does not decode.
#[derive(Debug, Clone, Copy, PartialEq, Eq)]
pub enum HexError {
    /// A character that is no hexadecimal digit, and its position.
    InvalidHexCharacter(char, usize),
    OddLength,
}

/// Why the carrier module is taken down.
#[derive(Debug, Clone, Copy, PartialEq, Eq)]
pub enum PlcDeviceError {
    /// Its presence pin says it is gone.
    Off,
    /// It left too many requests unanswered in a row.
    Timeouts,
}

/// Every way a decode, a check or a request of the library can fail.
#[derive(Debug, Clone, PartialEq, Eq)]
pub enum Error {
    /// The frame envelope is malformed.
    Frame(FrameError),
    /// The application data is not what was expected.
    AppData(AppDataError),
    /// An MQTT topic is malformed.
    Topic(TopicError),
    /// A coded byte has no meaning for its field.
    UnknownValue(ValueKind, u8),
    /// An information field is not six bytes long (its length).
    InfoFieldSize(usize),
    /// An address is not six bytes long (its length).
    AddressLength(usize),
    /// The address field does not fit in the user data (its length).
    AddressFieldLength(usize),
    /// The application data is shorter than its three-byte prefix (its length).
    AppDataLength(usize),
    /// The module denied a request, for this reason.
    Denied(DenyErrorCode),
    /// An MQTT request failed.
    Response(MqttResponseError),
    /// A frame that no handler takes.
    UartHandler(UartHandlerError),
    /// A change to the configured meters was refused.
    NodeConfig(NodeConfigError),
    /// A concurrent reading was refused or failed.
    ConcurrentMeter(ConcurrentMeterError),
    /// The module's start-up failed.
    PlcInit(PlcInitError),
    /// A number in a request is not a decimal unsigned number.
    ParseInt(ParseIntError),
    /// A text is not hexadecimal.
    Hex(HexError),
    /// The device information never came.
    DeviceInfo,
    /// The carrier module is to be taken down.
    PlcDevice(PlcDeviceError),
    /// A pin reading is neither low nor high (the value).
    PinStatus(i32),
    /// A date and time text does not read as one (the parser's reason).
    TimeParse(String),
}

/// The text of a byte as two lower-case hexadecimal digits.
pub open spec fn spec_hex2(b: u8) -> Seq<char> {
    spec_hex(seq![b], false)
}

impl Error {
    /// The error's message.
    pub open spec fn spec_text(self) -> Seq<char> {
        match self {
            Error::Frame(FrameError::Length(n)) => "length "@ + spec_decimal(n as nat) + " error"@,
            Error::Frame(FrameError::Header(b)) => "header "@ + spec_decimal(b as nat) + " error"@,
            Error::Frame(FrameError::Checksum { checksum, expected }) => "checksum "@ + spec_hex2(checksum)
                + " error, expected "@ + spec_hex2(expected),
            Error::Frame(FrameError::Tail(b)) => "tail "@ + spec_decimal(b as nat) + " error"@,
            Error::AppData(AppDataError::Afn(a)) => "invalid afn "@ + a.spec_name(),
            Error::AppData(AppDataError::FnNum(n)) => "invalid fn "@ + spec_decimal(n as nat),
            Error::AppData(AppDataError::DataLength(n)) => "invalid data unit length "@
                + spec_decimal(n as nat),
            Error::Topic(TopicError::Operator(t)) => "invalid operator "@ + t@,
            Error::Topic(TopicError::InfoType(t)) => "invalid info type "@ + t@,
            Error::Topic(TopicError::InfoTarget(t)) => "invalid info target "@ + t@,
            Error::Topic(TopicError::Topic(t)) => "invalid topic "@ + t@,
            Error::UnknownValue(k, b) => "No discriminant in enum `"@ + k.spec_name()
                + "` matches the value `"@ + spec_decimal(b as nat) + "`"@,
            Error::InfoFieldSize(n) => "invalid info field size "@ + spec_decimal(n as nat),
            Error::AddressLength(n) => "invalid address length "@ + spec_decimal(n as nat),
            Error::AddressFieldLength(n) => "address field exceeds user data length "@
                + spec_decimal(n as nat),
            Error::AppDataLength(n) => "invalid app data length "@ + spec_decimal(n as nat),
            Error::Denied(c) => c.spec_text(),
            Error::Response(MqttResponseError::Timeout) => "request timeout"@,
            Error::Response(MqttResponseError::ModelOffline) => "model is pullout or initializing"@,
            Error::Response(MqttResponseError::InvalidJson(t)) => "invalid json request: "@ + t@,
            Error::Response(MqttResponseError::InvalidUpgradeFile) => "invalid upgrade file"@,
            Error::Response(MqttResponseError::AlreadyUpgrading) => "file upgrade already in progress"@,
            Error::UartHandler(UartHandlerError::UnsupportedAfn(a)) => "unsupported afn: 0x"@
                + spec_hex_digits(a.spec_code() as nat),
            Error::UartHandler(UartHandlerError::UnsupportedAfnFn(a, n)) => "unsupported afn: 0x"@
                + spec_hex_digits(a.spec_code() as nat) + ", fn: "@ + spec_decimal(n as nat),
            Error::NodeConfig(NodeConfigError::NotFound(a)) => "acq addr "@ + a@ + " not found"@,
            Error::NodeConfig(NodeConfigError::TypeMismatch(x, y)) => "pro type mismatch, expected "@
                + x@ + ", got "@ + y@,
            Error::ConcurrentMeter(ConcurrentMeterError::AddrLimit(n)) => "concurrent addr exceed limit "@
                + spec_decimal(n as nat),
            Error::ConcurrentMeter(ConcurrentMeterError::QueueLimit(n)) => "addr queue size exceed limit "@
                + spec_decimal(n as nat),
            Error::ConcurrentMeter(ConcurrentMeterError::MeterReading) => "Meter reading failed. Cco response data empty"@,
            Error::PlcInit(PlcInitError::Timeout) => "init timeout"@,
            Error::PlcInit(PlcInitError::InvalidEvent) => "unexpected event type"@,
            Error::ParseInt(ParseIntError::Empty) => "cannot parse integer from empty string"@,
            Error::ParseInt(ParseIntError::InvalidDigit) => "invalid digit found in string"@,
            Error::ParseInt(ParseIntError::PosOverflow) => "number too large to fit in target type"@,
            Error::Hex(HexError::InvalidHexCharacter(c, i)) => "Invalid character "@ + spec_char_debug(c)
                + " at position "@ + spec_decimal(i as nat),
            Error::Hex(HexError::OddLength) => "Odd number of digits"@,
            Error::DeviceInfo => "get device info failed"@,
            Error::PlcDevice(PlcDeviceError::Off) => "plc device off"@,
            Error::PlcDevice(PlcDeviceError::Timeouts) => "plc device timeout more than 5 times"@,
            Error::PinStatus(v) => "No discriminant in enum `PinStatus` matches the value `"@
                + spec_signed_decimal(v as int) + "`"@,
            Error::TimeParse(t) => t@,
        }
    }

    /// The error's message.
    pub fn to_string(&self) -> (s: String)
        ensures
            s@ == self.spec_text(),
    {
        let mut s = String::new();
        match self {
            Error::Frame(FrameError::Length(n)) => {
                push_str(&mut s, "length ");
                push_decimal(&mut s, *n as u64);
                push_str(&mut s, " error");
            },
            Error::Frame(FrameError::Header(b)) => {
                push_str(&mut s, "header ");
                push_decimal(&mut s, *b as u64);
                push_str(&mut s, " error");
            },
            Error::Frame(FrameError::Checksum { checksum, expected }) => {
                push_str(&mut s, "checksum ");
                let c = [*checksum];
                push_hex(&mut s, c.as_slice(), false);
                push_str(&mut s, " error, expected ");
                let e = [*expected];
                push_hex(&mut s, e.as_slice(), false);
                assert(c@ =~= seq![*checksum]);
                assert(e@ =~= seq![*expected]);
            },
            Error::Frame(FrameError::Tail(b)) => {
                push_str(&mut s, "tail ");
                push_decimal(&mut s, *b as u64);
                push_str(&mut s, " error");
            },
            Error::AppData(AppDataError::Afn(a)) => {
                push_str(&mut s, "invalid afn ");
                push_str(&mut s, a.name());
            },
            Error::AppData(AppDataError::FnNum(n)) => {
                push_str(&mut s, "invalid fn ");
                push_decimal(&mut s, *n as u64);
            },
            Error::AppData(AppDataError::DataLength(n)) => {
                push_str(&mut s, "invalid data unit length ");
                push_decimal(&mut s, *n as u64);
            },
            Error::Topic(TopicError::Operator(t)) => {
                push_str(&mut s, "invalid operator ");
                push_str(&mut s, t.as_str());
            },
            Error::Topic(TopicError::InfoType(t)) => {
                push_str(&mut s, "invalid info type ");
                push_str(&mut s, t.as_str());
            },
            Error::Topic(TopicError::InfoTarget(t)) => {
                push_str(&mut s, "invalid info target ");
                push_str(&mut s, t.as_str());
            },
            Error::Topic(TopicError::Topic(t)) => {
                push_str(&mut s, "invalid topic ");
                push_str(&mut s, t.as_str());
            },
            Error::UnknownValue(k, b) => {
                push_str(&mut s, "No discriminant in enum `");
                push_str(&mut s, k.name());
                push_str(&mut s, "` matches the value `");
                push_decimal(&mut s, *b as u64);
                push_str(&mut s, "`");
            },
            Error::InfoFieldSize(n) => {
                push_str(&mut s, "invalid info field size ");
                push_decimal(&mut s, *n as u64);
            },
            Error::AddressLength(n) => {
                push_str(&mut s, "invalid address length ");
                push_decimal(&mut s, *n as u64);
            },
            Error::AddressFieldLength(n) => {
                push_str(&mut s, "address field exceeds user data length ");
                push_decimal(&mut s, *n as u64);
            },
            Error::AppDataLength(n) => {
                push_str(&mut s, "invalid app data length ");
                push_decimal(&mut s, *n as u64);
            },
            Error::Denied(c) => {
                push_str(&mut s, c.to_string());
            },
            Error::Response(MqttResponseError::Timeout) => {
                push_str(&mut s, "request timeout");
            },
            Error::Response(MqttResponseError::ModelOffline) => {
                push_str(&mut s, "model is pullout or initializing");
            },
            Error::Response(MqttResponseError::InvalidJson(t)) => {
                push_str(&mut s, "invalid json request: ");
                push_str(&mut s, t.as_str());
            },
            Error::Response(MqttResponseError::InvalidUpgradeFile) => {
                push_str(&mut s, "invalid upgrade file");
            },
            Error::Response(MqttResponseError::AlreadyUpgrading) => {
                push_str(&mut s, "file upgrade already in progress");
            },
            Error::UartHandler(UartHandlerError::UnsupportedAfn(a)) => {
                push_str(&mut s, "unsupported afn: 0x");
                push_hex_digits(&mut s, a.code() as u32);
            },
            Error::UartHandler(UartHandlerError::UnsupportedAfnFn(a, n)) => {
                push_str(&mut s, "unsupported afn: 0x");
                push_hex_digits(&mut s, a.code() as u32);
                push_str(&mut s, ", fn: ");
                push_decimal(&mut s, *n as u64);
            },
            Error::NodeConfig(NodeConfigError::NotFound(a)) => {
                push_str(&mut s, "acq addr ");
                push_str(&mut s, a.as_str());
                push_str(&mut s, " not found");
            },
            Error::NodeConfig(NodeConfigError::TypeMismatch(x, y)) => {
                push_str(&mut s, "pro type mismatch, expected ");
                push_str(&mut s, x.as_str());
                push_str(&mut s, ", got ");
                push_str(&mut s, y.as_str());
            },
            Error::ConcurrentMeter(ConcurrentMeterError::AddrLimit(n)) => {
                push_str(&mut s, "concurrent addr exceed limit ");
                push_decimal(&mut s, *n as u64);
            },
            Error::ConcurrentMeter(ConcurrentMeterError::QueueLimit(n)) => {
                push_str(&mut s, "addr queue size exceed limit ");
                push_decimal(&mut s, *n as u64);
            },
            Error::ConcurrentMeter(ConcurrentMeterError::MeterReading) => {
                push_str(&mut s, "Meter reading failed. Cco response data empty");
            },
            Error::PlcInit(PlcInitError::Timeout) => {
                push_str(&mut s, "init timeout");
            },
            Error::PlcInit(PlcInitError::InvalidEvent) => {
                push_str(&mut s, "unexpected event type");
            },
            Error::ParseInt(ParseIntError::Empty) => {
                push_str(&mut s, "cannot parse integer from empty string");
            },
            Error::ParseInt(ParseIntError::InvalidDigit) => {
                push_str(&mut s, "invalid digit found in string");
            },
            Error::ParseInt(ParseIntError::PosOverflow) => {
                push_str(&mut s, "number too large to fit in target type");
            },
            Error::Hex(HexError::InvalidHexCharacter(c, i)) => {
                push_str(&mut s, "Invalid character ");
                push_char_debug(&mut s, *c);
                push_str(&mut s, " at position ");
                push_decimal(&mut s, *i as u64);
            },
            Error::Hex(HexError::OddLength) => {
                push_str(&mut s, "Odd number of digits");
            },
            Error::DeviceInfo => {
                push_str(&mut s, "get device info failed");
            },
            Error::PlcDevice(PlcDeviceError::Off) => {
                push_str(&mut s, "plc device off");
            },
            Error::PlcDevice(PlcDeviceError::Timeouts) => {
                push_str(&mut s, "plc device timeout more than 5 times");
            },
            Error::PinStatus(v) => {
                push_str(&mut s, "No discriminant in enum `PinStatus` matches the value `");
                push_signed_decimal(&mut s, *v);
                push_str(&mut s, "`");
            },
            Error::TimeParse(t) => {
                push_str(&mut s, t.as_str());
            },
        }
        assert(s@ =~= self.spec_text());
        s
    }
}

/// An integer in decimal, with a `-` when negative.
pub open spec fn spec_signed_decimal(v: int) -> Seq<char> {
    if v < 0 {
        seq!['-'] + spec_decimal((-v) as nat)
    } else {
        spec_decimal(v as nat)
    }
}

fn push_signed_decimal(s: &mut String, v: i32)
    ensures
        final(s)@ == old(s)@ + spec_signed_decimal(v as int),
{
    if v < 0 {
        crate::text::push_char(s, '-');
        let m: u64 = (0i64 - v as i64) as u64;
        push_decimal(s, m);
        assert(final(s)@ =~= old(s)@ + spec_signed_decimal(v as int));
    } else {
        push_decimal(s, v as u64);
    }
}

/// The digits of a number in lower-case hexadecimal, without leading zeros.
pub open spec fn spec_hex_digits(n: nat) -> Seq<char>
    decreases n,
{
    if n < 16 {
        seq![crate::text::spec_hex_char(n as int, false)]
    } else {
        spec_hex_digits(n / 16).push(crate::text::spec_hex_char((n % 16) as int, false))
    }
}

/// A character as `{:?}` writes it: in single quotes, with the quote, the
/// backslash, tab, line feed, carriage return and NUL escaped, other control
/// characters as a `\u{..}` escape.
pub open spec fn spec_char_debug(c: char) -> Seq<char> {
    let inner = if c == '\t' {
        seq!['\\', 't']
    } else if c == '\n' {
        seq!['\\', 'n']
    } else if c == '\r' {
        seq!['\\', 'r']
    } else if c == '\0' {
        seq!['\\', '0']
    } else if c == '\'' {
        seq!['\\', '\'']
    } else if c == '\\' {
        seq!['\\', '\\']
    } else if (c as u32) < 0x20 || c as u32 == 0x7f {
        seq!['\\', 'u', '{'] + spec_hex_digits(c as u32 as nat) + seq!['}']
    } else {
        seq![c]
    };
    seq!['\''] + inner + seq!['\'']
}

fn push_hex_digits(s: &mut String, n: u32)
    ensures
        final(s)@ == old(s)@ + spec_hex_digits(n as nat),
    decreases n,
{
    if n >= 16 {
        push_hex_digits(s, n / 16);
    }
    crate::text::push_char(s, crate::text::hex_char((n % 16) as u8, false));
    assert(final(s)@ =~= old(s)@ + spec_hex_digits(n as nat));
}

/// Writes a character as `{:?}` does, for the characters `spec_char_debug` describes.
fn push_char_debug(s: &mut String, c: char)
    ensures
        final(s)@ == old(s)@ + spec_char_debug(c),
{
    crate::text::push_char(s, '\'');
    if c == '\t' {
        push_str(s, "\\t");
    } else if c == '\n' {
        push_str(s, "\\n");
    } else if c == '\r' {
        push_str(s, "\\r");
    } else if c == '\0' {
        push_str(s, "\\0");
    } else if c == '\'' {
        push_str(s, "\\'");
    } else if c == '\\' {
        push_str(s, "\\\\");
    } else if (c as u32) < 0x20 || c as u32 == 0x7f {
        push_str(s, "\\u{");
        push_hex_digits(s, c as u32);
        crate::text::push_char(s, '}');
    } else {
        crate::text::push_char(s, c);
    }
    crate::text::push_char(s, '\'');
    proof {
        reveal_strlit("\\t");
        reveal_strlit("\\n");
        reveal_strlit("\\r");
        reveal_strlit("\\0");
        reveal_strlit("\\'");
        reveal_strlit("\\\\");
        reveal_strlit("\\u{");
    }
    assert(final(s)@ =~= old(s)@ + spec_char_debug(c));
}

} // verus!
