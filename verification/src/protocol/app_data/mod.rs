//! Application data (AFN, data flag, data units) and the values shared by all
//! function codes: addresses, BCD dates, module id formats.
use vstd::prelude::*;

pub mod answer;
pub mod ctrl_cmd;
pub mod data_trans;
pub mod file_transfer;
pub mod init;
pub mod meter_ctrl;
pub mod meter_reading;
pub mod query_data;
pub mod route_data_forward;
pub mod route_data_read;
pub mod route_set;
pub mod active_report;
pub mod route_get;

use crate::bytes::copy_range;
use crate::error::{Error, ValueKind};
use crate::protocol::user_data::{hex_to_dec, spec_hex_to_dec};
use crate::text::{
    hex_value, push_char, push_decimal, push_hex, push_str, spec_decimal, spec_hex,
    spec_hex_decode, spec_hex_value, spec_is_hex,
};

verus! {

pub const ADDR_LEN: usize = 6;

/// A six-byte node address, held most significant byte first; on the wire the
/// bytes travel in reverse order.
#[derive(Debug, Clone, Copy, PartialEq, Eq, Default)]
pub struct Address(pub [u8; ADDR_LEN]);

impl Address {
    /// The wire form: the held bytes reversed.
    pub open spec fn wire(self) -> Seq<u8> {
        self.0@.reverse()
    }

    pub fn new(addr: [u8; ADDR_LEN]) -> (r: Self)
        ensures
            r.0 == addr,
    {
        Self(addr)
    }

    /// Appends the wire form of the address.
    pub fn push_wire(&self, out: &mut Vec<u8>)
        ensures
            final(out)@ == old(out)@ + self.wire(),
    {
        let mut i: usize = ADDR_LEN;
        let ghost start = out@;
        while i > 0
            invariant
                i <= ADDR_LEN,
                out@ == start + self.0@.subrange(i as int, 6).reverse(),
            decreases i,
        {
            out.push(self.0[i - 1]);
            proof {
                assert(self.0@.subrange(i - 1, 6).reverse() =~= self.0@.subrange(
                    i as int,
                    6,
                ).reverse().push(self.0@[i - 1]));
            }
            i = i - 1;
        }
        assert(self.0@.subrange(0, 6) =~= self.0@);
    }

    /// The wire form of the address.
    pub fn to_bytes(&self) -> (v: Vec<u8>)
        ensures
            v@ == self.wire(),
    {
        let mut v = Vec::new();
        self.push_wire(&mut v);
        assert(v@ =~= self.wire());
        v
    }

    /// Lowercase hexadecimal text of the held bytes (most significant first).
    pub fn to_string(&self) -> (s: String)
        ensures
            s@ == spec_hex(self.0@, false),
    {
        let mut s = String::new();
        push_hex(&mut s, self.0.as_slice(), false);
        assert(s@ =~= spec_hex(self.0@, false));
        s
    }

    /// Whether `s` is the text of an address: twelve hexadecimal digits.
    pub open spec fn spec_is_address_text(s: Seq<char>) -> bool {
        s.len() == 12 && spec_is_hex(s)
    }

    /// Whether `s` is the text of an address.
    pub fn is_address_text(s: &str) -> (b: bool)
        ensures
            b == Self::spec_is_address_text(s@),
    {
        s.unicode_len() == 12 && crate::text::is_hex(s)
    }

    /// The address that twelve hexadecimal digits denote, most significant byte first.
    pub fn from_hex(s: &str) -> (r: Address)
        requires
            Self::spec_is_address_text(s@),
        ensures
            r.0@ == spec_hex_decode(s@),
    {
        let mut a: [u8; ADDR_LEN] = [0u8; ADDR_LEN];
        let mut i: usize = 0;
        while i < ADDR_LEN
            invariant
                i <= ADDR_LEN,
                Self::spec_is_address_text(s@),
                a@.subrange(0, i as int) == spec_hex_decode(s@.subrange(0, 2 * i as int)),
            decreases ADDR_LEN - i,
        {
            let hi = hex_value(s.get_char(2 * i));
            let lo = hex_value(s.get_char(2 * i + 1));
            proof {
                assert(spec_hex_value(s@[2 * i as int]) is Some);
                assert(spec_hex_value(s@[2 * i + 1]) is Some);
            }
            let hi = hi.unwrap();
            let lo = lo.unwrap();
            proof {
                assert(hi < 16 && lo < 16) by {
                    let c = s@[2 * i as int];
                    let d = s@[2 * i + 1];
                    assert(spec_hex_value(c) == Some(hi));
                    assert(spec_hex_value(d) == Some(lo));
                }
            }
            let ghost old_a = a@;
            let byte: u8 = hi * 16 + lo;
            a[i] = byte;
            proof {
                let t = s@.subrange(0, 2 * i + 2);
                assert(t.subrange(0, t.len() - 2) =~= s@.subrange(0, 2 * i as int));
                assert(t[t.len() - 2] == s@[2 * i as int]);
                assert(t[t.len() - 1] == s@[2 * i + 1]);
                assert(a@.subrange(0, i + 1) =~= old_a.subrange(0, i as int).push(byte));
            }
            i = i + 1;
        }
        assert(a@.subrange(0, 6) =~= a@);
        assert(s@.subrange(0, 12) =~= s@);
        Address(a)
    }
}

impl<'a> TryFrom<&'a [u8]> for Address {
    type Error = Error;

    /// Reads an address from its wire form, which must be exactly six bytes.
    fn try_from(data: &'a [u8]) -> (r: Result<Address, Error>)
        ensures
            data@.len() != ADDR_LEN ==> r == Err::<Address, Error>(Error::AddressLength(data@.len() as usize)),
            data@.len() == ADDR_LEN ==> (r matches Ok(a) && a.wire() == data@),
    {
        if data.len() != ADDR_LEN {
            return Err(Error::AddressLength(data.len()));
        }
        let a: [u8; ADDR_LEN] = [data[5], data[4], data[3], data[2], data[1], data[0]];
        assert(a@.reverse() =~= data@);
        Ok(Address(a))
    }
}

impl<'a> vstd::std_specs::convert::TryFromSpecImpl<&'a [u8]> for Address {
    open spec fn obeys_try_from_spec() -> bool {
        false
    }

    open spec fn try_from_spec(data: &'a [u8]) -> Result<Address, Error> {
        arbitrary()
    }
}

/// Reads an address from six wire bytes starting at `at`.
pub fn address_at(data: &[u8], at: usize) -> (a: Address)
    requires
        at + ADDR_LEN <= data@.len(),
    ensures
        a.wire() == data@.subrange(at as int, at + 6),
{
    let n = data.len();
    assert(at + 5 < n);
    let a: [u8; ADDR_LEN] = [
        data[at + 5],
        data[at + 4],
        data[at + 3],
        data[at + 2],
        data[at + 1],
        data[at],
    ];
    assert(a@.reverse() =~= data@.subrange(at as int, at + 6));
    Address(a)
}

/// Textual forms in which a module identifier may be reported.
#[derive(Debug, Clone, Copy, PartialEq, Eq)]
pub enum ModuleIdFormat {
    Combine,
    Bcd,
    Bin,
    Ascii,
}

impl ModuleIdFormat {
    pub open spec fn spec_from_code(b: u8) -> Option<ModuleIdFormat> {
        if b == 0 {
            Some(ModuleIdFormat::Combine)
        } else if b == 1 {
            Some(ModuleIdFormat::Bcd)
        } else if b == 2 {
            Some(ModuleIdFormat::Bin)
        } else if b == 3 {
            Some(ModuleIdFormat::Ascii)
        } else {
            None
        }
    }
}

impl TryFrom<u8> for ModuleIdFormat {
    type Error = Error;

    fn try_from(b: u8) -> (r: Result<ModuleIdFormat, Error>)
        ensures
            r matches Ok(f) ==> Self::spec_from_code(b) == Some(f),
            r is Err ==> Self::spec_from_code(b) is None && r == Err::<ModuleIdFormat, Error>(
                Error::UnknownValue(ValueKind::ModuleIdFormat, b),
            ),
    {
        match b {
            0 => Ok(ModuleIdFormat::Combine),
            1 => Ok(ModuleIdFormat::Bcd),
            2 => Ok(ModuleIdFormat::Bin),
            3 => Ok(ModuleIdFormat::Ascii),
            _ => Err(Error::UnknownValue(ValueKind::ModuleIdFormat, b)),
        }
    }
}

impl vstd::std_specs::convert::TryFromSpecImpl<u8> for ModuleIdFormat {
    open spec fn obeys_try_from_spec() -> bool {
        true
    }

    open spec fn try_from_spec(b: u8) -> Result<Self, Error> {
        match Self::spec_from_code(b) {
            Some(v) => Ok(v),
            None => Err(Error::UnknownValue(ValueKind::ModuleIdFormat, b)),
        }
    }
}

/// The characters of the bytes below 128, in order; other bytes are dropped.
pub open spec fn spec_ascii_chars(data: Seq<u8>) -> Seq<char>
    decreases data.len(),
{
    if data.len() == 0 {
        Seq::empty()
    } else if data.last() < 128 {
        spec_ascii_chars(data.drop_last()).push(data.last() as char)
    } else {
        spec_ascii_chars(data.drop_last())
    }
}

/// Text of a module identifier in the given format: hexadecimal for BCD and binary
/// identifiers, the ASCII characters for ASCII identifiers. The combined format has
/// no text.
pub fn module_id_format_string(format: ModuleIdFormat, data: &[u8]) -> (s: String)
    requires
        format != ModuleIdFormat::Combine,
    ensures
        format == ModuleIdFormat::Ascii ==> s@ == spec_ascii_chars(data@),
        format != ModuleIdFormat::Ascii ==> s@ == spec_hex(data@, false),
{
    let mut s = String::new();
    match format {
        ModuleIdFormat::Ascii => {
            let mut i: usize = 0;
            while i < data.len()
                invariant
                    i <= data.len(),
                    s@ == spec_ascii_chars(data@.take(i as int)),
                decreases data.len() - i,
            {
                let b = data[i];
                proof {
                    assert(data@.take(i + 1).drop_last() =~= data@.take(i as int));
                }
                if b < 128 {
                    push_char(&mut s, b as char);
                }
                i = i + 1;
            }
            assert(data@.take(i as int) =~= data@);
        },
        _ => {
            push_hex(&mut s, data, false);
            assert(s@ =~= spec_hex(data@, false));
        },
    }
    s
}

/// A calendar date as the protocol reports it (BCD fields on the wire).
#[derive(Debug, Clone, Copy, PartialEq, Eq)]
pub struct Date {
    pub year: i32,
    pub month: u32,
    pub day: u32,
}

/// The date from three BCD bytes: two-digit year of the 2000s, month, day.
pub fn date_transfer(year: u8, month: u8, day: u8) -> (d: Date)
    ensures
        d.year == 2000 + spec_hex_to_dec(year),
        d.month == spec_hex_to_dec(month),
        d.day == spec_hex_to_dec(day),
{
    Date { year: 2000 + hex_to_dec(year) as i32, month: hex_to_dec(month) as u32, day: hex_to_dec(day) as u32 }
}

/// `n` in decimal, left-padded with zeros to `width` characters.
pub open spec fn spec_padded(n: nat, width: nat) -> Seq<char> {
    let digits = spec_decimal(n);
    if digits.len() >= width {
        digits
    } else {
        Seq::new((width - digits.len()) as nat, |i: int| '0') + digits
    }
}

proof fn lemma_decimal_len(n: nat)
    ensures
        spec_decimal(n).len() >= 1,
        n < 10 ==> spec_decimal(n).len() == 1,
        10 <= n < 100 ==> spec_decimal(n).len() == 2,
        100 <= n < 1000 ==> spec_decimal(n).len() == 3,
        1000 <= n < 10000 ==> spec_decimal(n).len() == 4,
    decreases n,
{
    if n >= 10 {
        lemma_decimal_len(n / 10);
    }
}

/// Appends `n` zero-padded to `width` characters (`width` at most four).
pub(crate) fn push_padded(s: &mut String, n: u32, width: u32)
    requires
        n < 10000,
        width <= 4,
    ensures
        final(s)@ == old(s)@ + spec_padded(n as nat, width as nat),
{
    proof {
        lemma_decimal_len(n as nat);
    }
    let len: u32 = if n < 10 {
        1
    } else if n < 100 {
        2
    } else if n < 1000 {
        3
    } else {
        4
    };
    let ghost start = s@;
    let mut k: u32 = len;
    while k < width
        invariant
            len <= k,
            k <= width || len > width,
            len >= width ==> k == len,
            len == spec_decimal(n as nat).len(),
            s@ == start + Seq::new((k - len) as nat, |i: int| '0'),
        decreases width - k,
    {
        push_char(s, '0');
        proof {
            assert(Seq::new((k + 1 - len) as nat, |i: int| '0') =~= Seq::new(
                (k - len) as nat,
                |i: int| '0',
            ).push('0'));
        }
        k = k + 1;
    }
    push_decimal(s, n as u64);
    proof {
        if len >= width {
            assert(Seq::new((k - len) as nat, |i: int| '0') =~= Seq::<char>::empty());
            assert(s@ =~= start + spec_padded(n as nat, width as nat));
        } else {
            assert(s@ =~= start + spec_padded(n as nat, width as nat));
        }
    }
}

/// Whether a date prints as eight digits.
pub open spec fn spec_printable_date(d: Date) -> bool {
    0 <= d.year <= 9999 && d.month <= 99 && d.day <= 99
}

/// Whether a date's fields fit `YYYYMMDD`.
pub fn printable_date(d: &Date) -> (b: bool)
    ensures
        b == spec_printable_date(*d),
{
    0 <= d.year && d.year <= 9999 && d.month <= 99 && d.day <= 99
}

/// `YYYYMMDD`.
pub open spec fn spec_date_text(d: Date) -> Seq<char> {
    spec_padded(d.year as nat, 4) + spec_padded(d.month as nat, 2) + spec_padded(d.day as nat, 2)
}

/// `YYYYMMDD` text of a date.
pub fn date_to_string(date: &Date) -> (s: String)
    requires
        spec_printable_date(*date),
    ensures
        s@ == spec_date_text(*date),
{
    let mut s = String::new();
    push_padded(&mut s, date.year as u32, 4);
    push_padded(&mut s, date.month, 2);
    push_padded(&mut s, date.day, 2);
    assert(s@ =~= spec_padded(date.year as nat, 4) + spec_padded(date.month as nat, 2)
        + spec_padded(date.day as nat, 2));
    s
}

/// Hexadecimal text of a little-endian BCD field: the bytes reversed, two digits each.
pub fn slice_to_bcd_string(data: &[u8]) -> (s: String)
    ensures
        s@ == spec_hex(data@.reverse(), false),
{
    let mut rev: Vec<u8> = Vec::new();
    let mut i: usize = data.len();
    while i > 0
        invariant
            i <= data@.len(),
            rev@ == data@.subrange(i as int, data@.len() as int).reverse(),
        decreases i,
    {
        rev.push(data[i - 1]);
        proof {
            assert(data@.subrange(i - 1, data@.len() as int).reverse() =~= data@.subrange(
                i as int,
                data@.len() as int,
            ).reverse().push(data@[i - 1]));
        }
        i = i - 1;
    }
    assert(data@.subrange(0, data@.len() as int) =~= data@);
    let mut s = String::new();
    push_hex(&mut s, rev.as_slice(), false);
    assert(s@ =~= spec_hex(data@.reverse(), false));
    s
}

} // verus!

verus! {

/// Application function codes.
#[derive(Debug, PartialEq, Eq, Clone, Copy, Structural)]
pub enum Afn {
    Answer,
    Init,
    DataForward,
    QueryData,
    PortCheck,
    CtrlCmd,
    Report,
    RouteGet,
    RouteSet,
    RouteCtrl,
    RouteDataForward,
    RouteDataRead,
    FileTransfer,
    Debug,
    CocurrentReadMeter,
    Test,
}

impl Afn {
    /// The byte that carries the function code.
    pub open spec fn spec_code(self) -> u8 {
        match self {
            Afn::Answer => 0x00,
            Afn::Init => 0x01,
            Afn::DataForward => 0x02,
            Afn::QueryData => 0x03,
            Afn::PortCheck => 0x04,
            Afn::CtrlCmd => 0x05,
            Afn::Report => 0x06,
            Afn::RouteGet => 0x10,
            Afn::RouteSet => 0x11,
            Afn::RouteCtrl => 0x12,
            Afn::RouteDataForward => 0x13,
            Afn::RouteDataRead => 0x14,
            Afn::FileTransfer => 0x15,
            Afn::Debug => 0xf0,
            Afn::CocurrentReadMeter => 0xf1,
            Afn::Test => 0xff,
        }
    }

    /// The function code that a byte carries, if any.
    pub open spec fn spec_from_code(b: u8) -> Option<Afn> {
        if b == 0x00 {
            Some(Afn::Answer)
        } else if b == 0x01 {
            Some(Afn::Init)
        } else if b == 0x02 {
            Some(Afn::DataForward)
        } else if b == 0x03 {
            Some(Afn::QueryData)
        } else if b == 0x04 {
            Some(Afn::PortCheck)
        } else if b == 0x05 {
            Some(Afn::CtrlCmd)
        } else if b == 0x06 {
            Some(Afn::Report)
        } else if b == 0x10 {
            Some(Afn::RouteGet)
        } else if b == 0x11 {
            Some(Afn::RouteSet)
        } else if b == 0x12 {
            Some(Afn::RouteCtrl)
        } else if b == 0x13 {
            Some(Afn::RouteDataForward)
        } else if b == 0x14 {
            Some(Afn::RouteDataRead)
        } else if b == 0x15 {
            Some(Afn::FileTransfer)
        } else if b == 0xf0 {
            Some(Afn::Debug)
        } else if b == 0xf1 {
            Some(Afn::CocurrentReadMeter)
        } else if b == 0xff {
            Some(Afn::Test)
        } else {
            None
        }
    }

    pub fn code(self) -> (b: u8)
        ensures
            b == self.spec_code(),
    {
        match self {
            Afn::Answer => 0x00,
            Afn::Init => 0x01,
            Afn::DataForward => 0x02,
            Afn::QueryData => 0x03,
            Afn::PortCheck => 0x04,
            Afn::CtrlCmd => 0x05,
            Afn::Report => 0x06,
            Afn::RouteGet => 0x10,
            Afn::RouteSet => 0x11,
            Afn::RouteCtrl => 0x12,
            Afn::RouteDataForward => 0x13,
            Afn::RouteDataRead => 0x14,
            Afn::FileTransfer => 0x15,
            Afn::Debug => 0xf0,
            Afn::CocurrentReadMeter => 0xf1,
            Afn::Test => 0xff,
        }
    }

    pub fn from_code(b: u8) -> (r: Option<Afn>)
        ensures
            r == Self::spec_from_code(b),
    {
        match b {
            0x00 => Some(Afn::Answer),
            0x01 => Some(Afn::Init),
            0x02 => Some(Afn::DataForward),
            0x03 => Some(Afn::QueryData),
            0x04 => Some(Afn::PortCheck),
            0x05 => Some(Afn::CtrlCmd),
            0x06 => Some(Afn::Report),
            0x10 => Some(Afn::RouteGet),
            0x11 => Some(Afn::RouteSet),
            0x12 => Some(Afn::RouteCtrl),
            0x13 => Some(Afn::RouteDataForward),
            0x14 => Some(Afn::RouteDataRead),
            0x15 => Some(Afn::FileTransfer),
            0xf0 => Some(Afn::Debug),
            0xf1 => Some(Afn::CocurrentReadMeter),
            0xff => Some(Afn::Test),
            _ => None,
        }
    }
}

/// A code read back from its byte is the code that was written.
pub proof fn lemma_afn_code_roundtrip(afn: Afn)
    ensures
        Afn::spec_from_code(afn.spec_code()) == Some(afn),
{
}

/// A byte that names a code is that code's byte.
pub proof fn lemma_afn_code_unique(b: u8)
    ensures
        Afn::spec_from_code(b) matches Some(afn) ==> afn.spec_code() == b,
{
}

impl Afn {
    /// The code's name, as it is printed.
    pub open spec fn spec_name(self) -> Seq<char> {
        match self {
            Afn::Answer => "Answer"@,
            Afn::Init => "Init"@,
            Afn::DataForward => "DataForward"@,
            Afn::QueryData => "QueryData"@,
            Afn::PortCheck => "PortCheck"@,
            Afn::CtrlCmd => "CtrlCmd"@,
            Afn::Report => "Report"@,
            Afn::RouteGet => "RouteGet"@,
            Afn::RouteSet => "RouteSet"@,
            Afn::RouteCtrl => "RouteCtrl"@,
            Afn::RouteDataForward => "RouteDataForward"@,
            Afn::RouteDataRead => "RouteDataRead"@,
            Afn::FileTransfer => "FileTransfer"@,
            Afn::Debug => "Debug"@,
            Afn::CocurrentReadMeter => "CocurrentReadMeter"@,
            Afn::Test => "Test"@,
        }
    }

    pub fn name(self) -> (s: &'static str)
        ensures
            s@ == self.spec_name(),
    {
        match self {
            Afn::Answer => "Answer",
            Afn::Init => "Init",
            Afn::DataForward => "DataForward",
            Afn::QueryData => "QueryData",
            Afn::PortCheck => "PortCheck",
            Afn::CtrlCmd => "CtrlCmd",
            Afn::Report => "Report",
            Afn::RouteGet => "RouteGet",
            Afn::RouteSet => "RouteSet",
            Afn::RouteCtrl => "RouteCtrl",
            Afn::RouteDataForward => "RouteDataForward",
            Afn::RouteDataRead => "RouteDataRead",
            Afn::FileTransfer => "FileTransfer",
            Afn::Debug => "Debug",
            Afn::CocurrentReadMeter => "CocurrentReadMeter",
            Afn::Test => "Test",
        }
    }
}

impl From<Afn> for u8 {
    fn from(afn: Afn) -> (b: u8)
        ensures
            b == afn.spec_code(),
    {
        afn.code()
    }
}

impl vstd::std_specs::convert::FromSpecImpl<Afn> for u8 {
    open spec fn obeys_from_spec() -> bool {
        true
    }

    open spec fn from_spec(afn: Afn) -> u8 {
        afn.spec_code()
    }
}

impl TryFrom<u8> for Afn {
    type Error = Error;

    fn try_from(b: u8) -> (r: Result<Afn, Error>)
        ensures
            r matches Ok(afn) ==> Afn::spec_from_code(b) == Some(afn),
            r is Err ==> Afn::spec_from_code(b) is None && r == Err::<Afn, Error>(
                Error::UnknownValue(ValueKind::Afn, b),
            ),
    {
        match Afn::from_code(b) {
            Some(afn) => Ok(afn),
            None => Err(Error::UnknownValue(ValueKind::Afn, b)),
        }
    }
}

impl vstd::std_specs::convert::TryFromSpecImpl<u8> for Afn {
    open spec fn obeys_try_from_spec() -> bool {
        true
    }

    open spec fn try_from_spec(b: u8) -> Result<Self, Error> {
        match Self::spec_from_code(b) {
            Some(v) => Ok(v),
            None => Err(Error::UnknownValue(ValueKind::Afn, b)),
        }
    }
}

/// Position of the lowest set bit of `m` (0 for 0).
pub open spec fn lowest_set_bit(m: nat) -> nat
    decreases m,
{
    if m == 0 || m % 2 == 1 {
        0
    } else {
        1 + lowest_set_bit(m / 2)
    }
}

/// The data flag: a group (`type_`) and a one-hot mark within the group of eight.
#[derive(Debug, Clone, Copy, PartialEq, Eq)]
pub struct DataFlag {
    pub type_: u8,
    pub mark: u8,
}

impl DataFlag {
    /// The function number the flag denotes: eight per group, the lowest set bit
    /// of the mark choosing within the group, counted from one.
    pub open spec fn spec_fn_num(self) -> int {
        self.type_ * 8 + lowest_set_bit(self.mark as nat) + 1
    }

    /// Whether the flag denotes a function number that fits a byte.
    pub open spec fn has_fn_num(self) -> bool {
        self.mark != 0 && self.spec_fn_num() <= 255
    }

    /// The flag that encodes a function number.
    pub open spec fn spec_for_fn_num(fn_num: u8) -> DataFlag {
        DataFlag { type_: ((fn_num - 1) / 8) as u8, mark: 1u8 << (((fn_num - 1) % 8) as u8) }
    }

    /// The function number of the flag.
    pub fn as_fn_num(&self) -> (n: u8)
        requires
            self.has_fn_num(),
        ensures
            n == self.spec_fn_num(),
    {
        let mut m = self.mark;
        let mut index: u8 = 0;
        while m % 2 == 0
            invariant
                m > 0,
                index + lowest_set_bit(m as nat) == lowest_set_bit(self.mark as nat),
                self.has_fn_num(),
            decreases m,
        {
            m = m / 2;
            index = index + 1;
        }
        self.type_ * 8 + index + 1
    }

    /// The flag of a function number (numbers start at one).
    pub fn from_fn_num(fn_num: u8) -> (f: DataFlag)
        requires
            fn_num >= 1,
        ensures
            f == Self::spec_for_fn_num(fn_num),
    {
        DataFlag { type_: (fn_num - 1) / 8, mark: 1u8 << ((fn_num - 1) % 8) }
    }

    /// The flag from its two wire bytes: the mark, then the group.
    pub fn from_bytes(data: &[u8]) -> (f: DataFlag)
        requires
            data@.len() == 2,
        ensures
            f.mark == data@[0],
            f.type_ == data@[1],
    {
        DataFlag { type_: data[1], mark: data[0] }
    }
}

proof fn lemma_lowest_set_bit_bound(m: nat)
    requires
        0 < m < 256,
    ensures
        lowest_set_bit(m) < 8,
        m % 2 == 0 ==> lowest_set_bit(m) >= 1,
{
    reveal_with_fuel(lowest_set_bit, 9);
}

proof fn lemma_one_hot(k: u8)
    requires
        k < 8,
    ensures
        (1u8 << k) != 0,
        lowest_set_bit((1u8 << k) as nat) == k,
{
    reveal_with_fuel(lowest_set_bit, 9);
    if k == 0 {
        assert(1u8 << 0u8 == 1u8) by (bit_vector);
    } else if k == 1 {
        assert(1u8 << 1u8 == 2u8) by (bit_vector);
    } else if k == 2 {
        assert(1u8 << 2u8 == 4u8) by (bit_vector);
    } else if k == 3 {
        assert(1u8 << 3u8 == 8u8) by (bit_vector);
    } else if k == 4 {
        assert(1u8 << 4u8 == 16u8) by (bit_vector);
    } else if k == 5 {
        assert(1u8 << 5u8 == 32u8) by (bit_vector);
    } else if k == 6 {
        assert(1u8 << 6u8 == 64u8) by (bit_vector);
    } else {
        assert(1u8 << 7u8 == 128u8) by (bit_vector);
    }
}

/// The lowest set bit of a nonzero byte, in bits: it is one, and every bit below it is zero.
proof fn lemma_lowest_set_bit_bits(m: u8)
    requires
        m != 0,
    ensures
        lowest_set_bit(m as nat) < 8,
        (m >> (lowest_set_bit(m as nat) as u8)) & 1u8 == 1u8,
        forall|j: u8| j < lowest_set_bit(m as nat) ==> #[trigger] ((m >> j) & 1u8) == 0u8,
    decreases m,
{
    lemma_lowest_set_bit_bound(m as nat);
    if m % 2 == 1 {
        assert(m % 2 == 1 ==> (m >> 0u8) & 1u8 == 1u8) by (bit_vector);
    } else {
        let h: u8 = m / 2;
        lemma_lowest_set_bit_bits(h);
        let l: u8 = lowest_set_bit(h as nat) as u8;
        let l1: u8 = (l + 1) as u8;
        assert(lowest_set_bit(m as nat) == l1);
        assert((m >> l1) == (h >> l)) by (bit_vector)
            requires
                l < 8,
                l1 == l + 1,
                h == m / 2,
        ;
        assert forall|j: u8| j < lowest_set_bit(m as nat) implies #[trigger] ((m >> j) & 1u8) == 0u8 by {
            if j == 0 {
                assert(m % 2 == 0 ==> (m >> 0u8) & 1u8 == 0u8) by (bit_vector);
            } else {
                let j1: u8 = (j - 1) as u8;
                assert((m >> j) == (h >> j1)) by (bit_vector)
                    requires
                        j1 < 8,
                        j == j1 + 1,
                        h == m / 2,
                ;
                assert(((h >> j1) & 1u8) == 0u8);
            }
        }
    }
}

/// The function number counts the mark's trailing zero bits, as `u8::trailing_zeros`
/// counts them: eight numbers per group, the mark's lowest set bit choosing within it.
pub proof fn law_fn_num_trailing_zeros(d: DataFlag)
    requires
        d.mark != 0,
    ensures
        d.spec_fn_num() == d.type_ * 8 + d.mark.trailing_zeros() + 1,
{
    let m = d.mark;
    lemma_lowest_set_bit_bits(m);
    vstd::std_specs::bits::axiom_u8_trailing_zeros(m);
    let l = lowest_set_bit(m as nat);
    let t = m.trailing_zeros();
    if t < l {
        assert(((m >> (t as u8)) & 1u8) == 0u8);
    } else if l < t {
        assert(((m >> (l as u8)) & 1u8) == 0u8);
    }
}

/// The flag written for a function number reads back as that number.
pub proof fn lemma_fn_num_roundtrip(fn_num: u8)
    requires
        fn_num >= 1,
    ensures
        DataFlag::spec_for_fn_num(fn_num).has_fn_num(),
        DataFlag::spec_for_fn_num(fn_num).spec_fn_num() == fn_num,
{
    lemma_one_hot(((fn_num - 1) % 8) as u8);
}

} // verus!

verus! {

pub const AFN_SIZE: usize = 1;
pub const DATA_FLAG_SIZE: usize = 2;

/// Why application data does not match what a decoder expects.
#[derive(Debug, Clone, PartialEq, Eq)]
pub enum AppDataError {
    /// The function code found.
    Afn(Afn),
    /// The function number found.
    FnNum(u8),
    /// The number of data-unit bytes found.
    DataLength(usize),
}

/// Application data: function code, data flag and optional data units.
///
/// Conversions into application data, and out of it into values that hold
/// vectors, addresses or text, state their results in their own `ensures`: no spec
/// value can stand for such a result, since in spec code a vector or string is
/// not fixed by its contents and an address array is not built from bytes, so
/// those impls do not claim to follow a `from_spec`.
#[derive(Debug, PartialEq)]
pub struct AppData {
    pub(crate) afn: Afn,
    pub(crate) data_flag: DataFlag,
    pub(crate) data_units: Option<Vec<u8>>,
}

impl Clone for AppData {
    fn clone(&self) -> (r: Self)
        ensures
            r.spec_afn() == self.spec_afn(),
            r.spec_data_flag() == self.spec_data_flag(),
            r.spec_units() == self.spec_units(),
            r.spec_data_units() is Some <==> self.spec_data_units() is Some,
    {
        proof {
            use_type_invariant(self);
        }
        let data_units = match &self.data_units {
            Some(v) => Some(vstd::slice::slice_to_vec(v.as_slice())),
            None => None,
        };
        AppData { afn: self.afn, data_flag: self.data_flag, data_units }
    }
}

impl AppData {
    /// Every application data value carries a flag that names a function number.
    #[verifier::type_invariant]
    closed spec fn inv(self) -> bool {
        self.data_flag.has_fn_num()
    }

    pub open(crate) spec fn spec_afn(self) -> Afn {
        self.afn
    }

    pub open(crate) spec fn spec_data_flag(self) -> DataFlag {
        self.data_flag
    }

    pub open(crate) spec fn spec_fn_num(self) -> int {
        self.data_flag.spec_fn_num()
    }

    pub open(crate) spec fn spec_data_units(self) -> Option<Vec<u8>> {
        self.data_units
    }

    /// The data-unit bytes (none when absent).
    pub open(crate) spec fn spec_units(self) -> Seq<u8> {
        match self.data_units {
            Some(v) => v@,
            None => Seq::empty(),
        }
    }

    /// The wire form: function code, mark, group, data units.
    pub open(crate) spec fn spec_bytes(self) -> Seq<u8> {
        seq![self.afn.spec_code(), self.data_flag.mark, self.data_flag.type_] + self.spec_units()
    }

    /// Whether this data has the given code, number and data units (`None`: absent).
    pub open(crate) spec fn spec_has(self, afn: Afn, fn_num: u8, units: Option<Seq<u8>>) -> bool {
        &&& self.afn == afn
        &&& self.data_flag == DataFlag::spec_for_fn_num(fn_num)
        &&& match units {
            Some(u) => self.data_units is Some && self.spec_units() == u,
            None => self.data_units is None,
        }
    }

    /// Application data with the given code, number and data-unit bytes.
    pub(crate) fn with_units(afn: Afn, fn_num: u8, units: Vec<u8>) -> (r: Self)
        requires
            fn_num >= 1,
        ensures
            r.spec_has(afn, fn_num, Some(units@)),
            r.spec_fn_num() == fn_num,
    {
        Self::new(afn, fn_num, Some(units))
    }

    /// Application data with the given code and number and no data units.
    pub(crate) fn without_units(afn: Afn, fn_num: u8) -> (r: Self)
        requires
            fn_num >= 1,
        ensures
            r.spec_has(afn, fn_num, None),
            r.spec_fn_num() == fn_num,
    {
        Self::new(afn, fn_num, None)
    }

    /// Application data for a function code and number (numbers start at one).
    pub fn new(afn: Afn, fn_num: u8, data_units: Option<Vec<u8>>) -> (r: Self)
        requires
            fn_num >= 1,
        ensures
            r.spec_afn() == afn,
            r.spec_data_flag() == DataFlag::spec_for_fn_num(fn_num),
            r.spec_fn_num() == fn_num,
            r.spec_data_units() == data_units,
    {
        proof {
            lemma_fn_num_roundtrip(fn_num);
        }
        Self { afn, data_flag: DataFlag::from_fn_num(fn_num), data_units }
    }

    /// Bytes on the wire: three prefix bytes and the data units.
    pub fn length(&self) -> (n: usize)
        requires
            self.spec_units().len() + 3 <= usize::MAX,
        ensures
            n == self.spec_units().len() + 3,
    {
        AFN_SIZE + DATA_FLAG_SIZE + self.data_length()
    }

    /// Whether frames of this function code carry an address field.
    pub open(crate) spec fn spec_comm_mark(self) -> u8 {
        match self.afn {
            Afn::DataForward | Afn::RouteDataForward | Afn::CocurrentReadMeter => 1,
            _ => 0,
        }
    }

    pub fn get_comm_mark(&self) -> (m: u8)
        ensures
            m == self.spec_comm_mark(),
    {
        match self.afn {
            Afn::Answer | Afn::Init | Afn::QueryData | Afn::CtrlCmd | Afn::RouteGet
            | Afn::RouteSet => 0,
            Afn::DataForward | Afn::RouteDataForward | Afn::CocurrentReadMeter => 1,
            _ => 0,
        }
    }

    pub fn afn(&self) -> (a: Afn)
        ensures
            a == self.spec_afn(),
    {
        self.afn
    }

    pub fn fn_num(&self) -> (n: u8)
        ensures
            n == self.spec_fn_num(),
    {
        proof {
            use_type_invariant(self);
        }
        self.data_flag.as_fn_num()
    }

    pub fn data_length(&self) -> (n: usize)
        ensures
            n == self.spec_units().len(),
    {
        match &self.data_units {
            Some(v) => v.len(),
            None => 0,
        }
    }

    /// The data units, as held.
    pub fn data_units(&self) -> (d: &Option<Vec<u8>>)
        ensures
            d == self.spec_data_units(),
    {
        &self.data_units
    }

    /// The outcome of checking code, number and data length, in that order.
    pub open(crate) spec fn spec_check(self, afn: Afn, fn_num: u8, length: usize) -> Result<(), Error> {
        if self.afn != afn {
            Err(Error::AppData(AppDataError::Afn(self.afn)))
        } else if self.spec_fn_num() != fn_num {
            Err(Error::AppData(AppDataError::FnNum(self.spec_fn_num() as u8)))
        } else if self.spec_units().len() != length {
            Err(Error::AppData(AppDataError::DataLength(self.spec_units().len() as usize)))
        } else {
            Ok(())
        }
    }

    /// Whether the data units are at least `min` bytes long (the error names their number).
    pub open(crate) spec fn spec_check_min(self, min: int) -> Result<(), Error> {
        if self.spec_units().len() < min {
            Err(Error::AppData(AppDataError::DataLength(self.spec_units().len() as usize)))
        } else {
            Ok(())
        }
    }

    /// Checks that there are at least `min` data-unit bytes.
    pub(crate) fn check_min(&self, min: usize) -> (r: Result<(), Error>)
        ensures
            r == self.spec_check_min(min as int),
            r is Ok ==> self.spec_data_units() is Some || min == 0,
    {
        let len = self.data_length();
        if len < min {
            Err(Error::AppData(AppDataError::DataLength(len)))
        } else {
            Ok(())
        }
    }

    /// Checks that the data has the given function code and number and `length`
    /// data-unit bytes; the first mismatch is the error.
    pub fn check(&self, afn: Afn, fn_num: u8, length: usize) -> (r: Result<(), Error>)
        ensures
            r == self.spec_check(afn, fn_num, length),
    {
        if self.afn() != afn {
            return Err(Error::AppData(AppDataError::Afn(self.afn())));
        }
        let n = self.fn_num();
        if n != fn_num {
            return Err(Error::AppData(AppDataError::FnNum(n)));
        }
        let len = self.data_length();
        if len != length {
            return Err(Error::AppData(AppDataError::DataLength(len)));
        }
        Ok(())
    }

    /// The data units, known to be present.
    pub(crate) fn units_ref(&self) -> (u: &Vec<u8>)
        requires
            self.spec_data_units() is Some,
        ensures
            u@ == self.spec_units(),
    {
        match &self.data_units {
            Some(v) => v,
            None => {
                assert(false);
                unreached()
            },
        }
    }

    /// Whether decoding these bytes would find no function number in the flag:
    /// the prefix is complete, the code is known, but the flag is unusable.
    pub open spec fn spec_decode_fails_flag(data: Seq<u8>) -> bool {
        &&& data.len() >= 3
        &&& Afn::spec_from_code(data[0]) is Some
        &&& !(DataFlag { type_: data[2], mark: data[1] }).has_fn_num()
    }

    /// Whether decoding these bytes would meet a flag without a usable function number.
    pub fn decode_fails_flag(data: &[u8]) -> (b: bool)
        ensures
            b == Self::spec_decode_fails_flag(data@),
    {
        if data.len() < 3 {
            return false;
        }
        if Afn::from_code(data[0]).is_none() {
            return false;
        }
        let flag = DataFlag { type_: data[2], mark: data[1] };
        if flag.mark == 0 {
            return true;
        }
        let mut m = flag.mark;
        let mut index: u32 = 0;
        proof {
            lemma_lowest_set_bit_bound(flag.mark as nat);
        }
        while m % 2 == 0
            invariant
                m > 0,
                index + lowest_set_bit(m as nat) == lowest_set_bit(flag.mark as nat),
                lowest_set_bit(flag.mark as nat) < 8,
                index <= 8,
            decreases m,
        {
            proof {
                lemma_lowest_set_bit_bound(m as nat);
            }
            m = m / 2;
            index = index + 1;
        }
        (flag.type_ as u32) * 8 + index + 1 > 255
    }

    /// What decoding yields from bytes whose flag is usable: code and number from
    /// the prefix, the remaining bytes as data units (absent when there are none).
    pub open(crate) spec fn spec_decoded_from(self, data: Seq<u8>) -> bool {
        &&& data.len() >= 3
        &&& Afn::spec_from_code(data[0]) == Some(self.afn)
        &&& self.data_flag == DataFlag::spec_for_fn_num(
            (DataFlag { type_: data[2], mark: data[1] }).spec_fn_num() as u8,
        )
        &&& (data.len() == 3 ==> self.data_units is None)
        &&& (data.len() > 3 ==> self.data_units is Some && self.spec_units() == data.skip(3))
    }

    /// The error decoding these bytes meets, if any: a prefix shorter than three
    /// bytes, then an unknown function code.
    pub open spec fn spec_decode_error(data: Seq<u8>) -> Option<Error> {
        if data.len() < 3 {
            Some(Error::AppDataLength(data.len() as usize))
        } else if Afn::spec_from_code(data[0]) is None {
            Some(Error::UnknownValue(ValueKind::Afn, data[0]))
        } else {
            None
        }
    }

    /// Decodes application data from its wire form.
    pub fn from_bytes(data: &[u8]) -> (r: Result<AppData, Error>)
        requires
            !Self::spec_decode_fails_flag(data@),
        ensures
            r is Ok <==> Self::spec_decode_error(data@) is None,
            r matches Err(e) ==> Self::spec_decode_error(data@) == Some(e),
            r matches Ok(a) ==> a.spec_decoded_from(data@),
    {
        let length = AFN_SIZE + DATA_FLAG_SIZE;
        if data.len() < length {
            return Err(Error::AppDataLength(data.len()));
        }
        let afn = Afn::try_from(data[0])?;
        let fn_num = DataFlag::from_bytes(&data[AFN_SIZE..length]).as_fn_num();
        let units = if data.len() > length {
            let v = copy_range(data, length, data.len());
            assert(v@ =~= data@.skip(3));
            Some(v)
        } else {
            None
        };
        Ok(Self::new(afn, fn_num, units))
    }

    /// Appends the wire form.
    pub fn push_bytes(&self, out: &mut Vec<u8>)
        ensures
            final(out)@ == old(out)@ + self.spec_bytes(),
    {
        let ghost start = out@;
        out.push(self.afn.code());
        out.push(self.data_flag.mark);
        out.push(self.data_flag.type_);
        match &self.data_units {
            Some(v) => crate::bytes::extend_bytes(out, v.as_slice()),
            None => {},
        }
        assert(out@ =~= start + self.spec_bytes());
    }

    /// The wire form.
    pub fn to_bytes(&self) -> (v: Vec<u8>)
        ensures
            v@ == self.spec_bytes(),
    {
        let mut v = Vec::new();
        self.push_bytes(&mut v);
        assert(v@ =~= self.spec_bytes());
        v
    }

    /// The three-line text form: code and number, group and mark, hexadecimal data units.
    pub open(crate) spec fn spec_text(self) -> Seq<char> {
        "afn: "@ + spec_decimal(self.spec_afn().spec_code() as nat) + ", fn: "@ + spec_decimal(
            self.spec_fn_num() as nat,
        ) + "\ntype: "@ + spec_decimal(self.spec_data_flag().type_ as nat) + ", mark: "@
            + spec_decimal(self.spec_data_flag().mark as nat) + "\ndata_units: "@ + spec_hex(
            self.spec_units(),
            false,
        ) + "\n"@
    }

    pub fn to_string(&self) -> (s: String)
        ensures
            s@ == self.spec_text(),
    {
        let mut s = String::new();
        push_str(&mut s, "afn: ");
        push_decimal(&mut s, self.afn.code() as u64);
        push_str(&mut s, ", fn: ");
        push_decimal(&mut s, self.fn_num() as u64);
        push_str(&mut s, "\ntype: ");
        push_decimal(&mut s, self.data_flag.type_ as u64);
        push_str(&mut s, ", mark: ");
        push_decimal(&mut s, self.data_flag.mark as u64);
        push_str(&mut s, "\ndata_units: ");
        match &self.data_units {
            Some(v) => push_hex(&mut s, v.as_slice(), false),
            None => {},
        }
        push_str(&mut s, "\n");
        proof {
            if self.data_units is None {
                assert(spec_hex(Seq::<u8>::empty(), false) =~= Seq::<char>::empty());
            }
        }
        assert(s@ =~= "afn: "@ + spec_decimal(self.afn.spec_code() as nat) + ", fn: "@
            + spec_decimal(self.spec_fn_num() as nat) + "\ntype: "@ + spec_decimal(
            self.data_flag.type_ as nat,
        ) + ", mark: "@ + spec_decimal(self.data_flag.mark as nat) + "\ndata_units: "@ + spec_hex(
            self.spec_units(),
            false,
        ) + "\n"@);
        s
    }
}

} // verus!
