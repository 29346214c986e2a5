//! The six-byte information field, in its downlink and uplink layouts.
use vstd::prelude::*;

use crate::bytes::le16;
use crate::error::Error;
use crate::text::{push_line, push_str, spec_line};

verus! {

pub const INFO_FIELD_SIZE: usize = 6;

/// Which layout an information field has: that of the downlink or of the uplink.
#[derive(Debug, Clone, Copy, PartialEq, Eq, Structural)]
pub enum InfoFieldType {
    Down,
    Up,
}

/// Downlink information field.
#[derive(Debug, Clone, Copy, Default, PartialEq, Eq)]
pub struct InfoFieldDown {
    pub route_flag: u8,
    pub node_flag: u8,
    pub comm_model_mark: u8,
    pub conflict_check: u8,
    pub relay_level: u8,
    pub channel_flag: u8,
    pub ecc: u8,
    pub answer_bytes: u8,
    pub speed: u16,
    pub speed_unit_flag: u8,
    pub seq_num: u8,
}

/// Uplink information field.
#[derive(Debug, Clone, Copy, Default, PartialEq, Eq)]
pub struct InfoFieldUp {
    pub route_flag: u8,
    pub comm_model_mark: u8,
    pub relay_level: u8,
    pub channel_flag: u8,
    pub line_mark: u8,
    pub meter_feature: u8,
    pub cmd_signal_quality: u8,
    pub res_signal_quality: u8,
    pub event_mark: u8,
    pub seq_num: u8,
}

/// An information field of either layout.
#[derive(Debug, Clone, Copy, PartialEq, Eq)]
pub enum InfoField {
    Down(InfoFieldDown),
    Up(InfoFieldUp),
}

/// The downlink field that six bytes encode.
pub open spec fn spec_down_from(b: Seq<u8>) -> InfoFieldDown {
    InfoFieldDown {
        route_flag: b[0] & 0x01,
        node_flag: (b[0] & 0x02) >> 1u8,
        comm_model_mark: (b[0] & 0x04) >> 2u8,
        conflict_check: (b[0] & 0x08) >> 3u8,
        relay_level: (b[0] & 0xF0) >> 4u8,
        channel_flag: b[1] & 0x0F,
        ecc: (b[1] & 0xF0) >> 4u8,
        answer_bytes: b[2],
        speed: le16(b[3], b[4] & 0x7F),
        speed_unit_flag: (b[4] & 0x80) >> 7u8,
        seq_num: b[5],
    }
}

/// The uplink field that six bytes encode.
pub open spec fn spec_up_from(b: Seq<u8>) -> InfoFieldUp {
    InfoFieldUp {
        route_flag: b[0] & 0x01,
        comm_model_mark: (b[0] & 0x04) >> 2u8,
        relay_level: (b[0] & 0xF0) >> 4u8,
        channel_flag: b[1] & 0x0F,
        line_mark: b[2] & 0x0F,
        meter_feature: (b[2] & 0xF0) >> 4u8,
        cmd_signal_quality: b[3] & 0x0F,
        res_signal_quality: (b[3] & 0xF0) >> 4u8,
        event_mark: b[4],
        seq_num: b[5],
    }
}

impl InfoFieldDown {
    /// The six bytes of the field; each value is or-ed into its bit position.
    pub open spec fn spec_bytes(self) -> Seq<u8> {
        seq![
            self.route_flag | (self.node_flag << 1u8) | (self.comm_model_mark << 2u8) | (
            self.conflict_check << 3u8) | (self.relay_level << 4u8),
            self.channel_flag | (self.ecc << 4u8),
            self.answer_bytes,
            (self.speed % 256) as u8,
            (((self.speed / 256) as u8) & 0x7F) | (self.speed_unit_flag << 7u8),
            self.seq_num,
        ]
    }

    /// Whether every value fits the bits the layout gives it.
    pub open spec fn fits(self) -> bool {
        &&& self.route_flag <= 1
        &&& self.node_flag <= 1
        &&& self.comm_model_mark <= 1
        &&& self.conflict_check <= 1
        &&& self.relay_level <= 15
        &&& self.channel_flag <= 15
        &&& self.ecc <= 15
        &&& self.speed <= 0x7fff
        &&& self.speed_unit_flag <= 1
    }
}

impl InfoFieldUp {
    /// The six bytes of the field; each value is or-ed into its bit position.
    pub open spec fn spec_bytes(self) -> Seq<u8> {
        seq![
            self.route_flag | (self.comm_model_mark << 2u8) | (self.relay_level << 4u8),
            self.channel_flag,
            self.line_mark | (self.meter_feature << 4u8),
            self.cmd_signal_quality | (self.res_signal_quality << 4u8),
            self.event_mark,
            self.seq_num,
        ]
    }

    /// Whether every value fits the bits the layout gives it.
    pub open spec fn fits(self) -> bool {
        &&& self.route_flag <= 1
        &&& self.comm_model_mark <= 1
        &&& self.relay_level <= 15
        &&& self.channel_flag <= 15
        &&& self.line_mark <= 15
        &&& self.meter_feature <= 15
        &&& self.cmd_signal_quality <= 15
        &&& self.res_signal_quality <= 15
    }
}

impl<'a> TryFrom<&'a [u8]> for InfoFieldDown {
    type Error = Error;

    /// Decodes a downlink field from exactly six bytes.
    fn try_from(bytes: &'a [u8]) -> (r: Result<Self, Error>)
        ensures
            bytes@.len() != INFO_FIELD_SIZE ==> r == Err::<Self, Error>(
                Error::InfoFieldSize(bytes@.len() as usize),
            ),
            bytes@.len() == INFO_FIELD_SIZE ==> r == Ok::<Self, Error>(spec_down_from(bytes@)),
    {
        if bytes.len() != INFO_FIELD_SIZE {
            return Err(Error::InfoFieldSize(bytes.len()));
        }
        Ok(InfoFieldDown {
            route_flag: bytes[0] & 0x01,
            node_flag: (bytes[0] & 0x02) >> 1,
            comm_model_mark: (bytes[0] & 0x04) >> 2,
            conflict_check: (bytes[0] & 0x08) >> 3,
            relay_level: (bytes[0] & 0xF0) >> 4,
            channel_flag: bytes[1] & 0x0F,
            ecc: (bytes[1] & 0xF0) >> 4,
            answer_bytes: bytes[2],
            speed: crate::bytes::u16_from_le(bytes[3], bytes[4] & 0x7F),
            speed_unit_flag: (bytes[4] & 0x80) >> 7,
            seq_num: bytes[5],
        })
    }
}

impl<'a> vstd::std_specs::convert::TryFromSpecImpl<&'a [u8]> for InfoFieldDown {
    open spec fn obeys_try_from_spec() -> bool {
        true
    }

    open spec fn try_from_spec(bytes: &'a [u8]) -> Result<Self, Error> {
        if bytes@.len() != INFO_FIELD_SIZE {
            Err(Error::InfoFieldSize(bytes@.len() as usize))
        } else {
            Ok(spec_down_from(bytes@))
        }
    }
}

impl<'a> TryFrom<&'a [u8]> for InfoFieldUp {
    type Error = Error;

    /// Decodes an uplink field from exactly six bytes.
    fn try_from(bytes: &'a [u8]) -> (r: Result<Self, Error>)
        ensures
            bytes@.len() != INFO_FIELD_SIZE ==> r == Err::<Self, Error>(
                Error::InfoFieldSize(bytes@.len() as usize),
            ),
            bytes@.len() == INFO_FIELD_SIZE ==> r == Ok::<Self, Error>(spec_up_from(bytes@)),
    {
        if bytes.len() != INFO_FIELD_SIZE {
            return Err(Error::InfoFieldSize(bytes.len()));
        }
        Ok(InfoFieldUp {
            route_flag: bytes[0] & 0x01,
            comm_model_mark: (bytes[0] & 0x04) >> 2,
            relay_level: (bytes[0] & 0xF0) >> 4,
            channel_flag: bytes[1] & 0x0F,
            line_mark: bytes[2] & 0x0F,
            meter_feature: (bytes[2] & 0xF0) >> 4,
            cmd_signal_quality: bytes[3] & 0x0F,
            res_signal_quality: (bytes[3] & 0xF0) >> 4,
            event_mark: bytes[4],
            seq_num: bytes[5],
        })
    }
}

impl<'a> vstd::std_specs::convert::TryFromSpecImpl<&'a [u8]> for InfoFieldUp {
    open spec fn obeys_try_from_spec() -> bool {
        true
    }

    open spec fn try_from_spec(bytes: &'a [u8]) -> Result<Self, Error> {
        if bytes@.len() != INFO_FIELD_SIZE {
            Err(Error::InfoFieldSize(bytes@.len() as usize))
        } else {
            Ok(spec_up_from(bytes@))
        }
    }
}

impl InfoField {
    /// The six bytes of the field.
    pub open spec fn spec_bytes(self) -> Seq<u8> {
        match self {
            InfoField::Down(d) => d.spec_bytes(),
            InfoField::Up(u) => u.spec_bytes(),
        }
    }

    pub open spec fn spec_type(self) -> InfoFieldType {
        match self {
            InfoField::Down(_) => InfoFieldType::Down,
            InfoField::Up(_) => InfoFieldType::Up,
        }
    }

    pub open spec fn spec_relay_level(self) -> u8 {
        match self {
            InfoField::Down(d) => d.relay_level,
            InfoField::Up(u) => u.relay_level,
        }
    }

    pub open spec fn spec_comm_model_mark(self) -> u8 {
        match self {
            InfoField::Down(d) => d.comm_model_mark,
            InfoField::Up(u) => u.comm_model_mark,
        }
    }

    pub open spec fn spec_seq_num(self) -> u8 {
        match self {
            InfoField::Down(d) => d.seq_num,
            InfoField::Up(u) => u.seq_num,
        }
    }

    /// The field of the given layout that six bytes encode.
    pub open spec fn spec_from(t: InfoFieldType, b: Seq<u8>) -> InfoField {
        match t {
            InfoFieldType::Down => InfoField::Down(spec_down_from(b)),
            InfoFieldType::Up => InfoField::Up(spec_up_from(b)),
        }
    }

    /// Decodes a field of the given layout; the bytes must number six.
    pub fn from_bytes(info_field_type: InfoFieldType, bytes: &[u8]) -> (r: Result<Self, Error>)
        ensures
            bytes@.len() != INFO_FIELD_SIZE ==> r == Err::<Self, Error>(
                Error::InfoFieldSize(bytes@.len() as usize),
            ),
            bytes@.len() == INFO_FIELD_SIZE ==> r == Ok::<Self, Error>(
                Self::spec_from(info_field_type, bytes@),
            ),
    {
        match info_field_type {
            InfoFieldType::Down => Ok(InfoField::Down(InfoFieldDown::try_from(bytes)?)),
            InfoFieldType::Up => Ok(InfoField::Up(InfoFieldUp::try_from(bytes)?)),
        }
    }

    /// A field with the given sequence number, relay level and communication mark,
    /// every other value zero.
    pub fn new(info_field_type: InfoFieldType, seq: u8, relay_level: u8, comm_model_mark: u8) -> (r: Self)
        ensures
            r.spec_type() == info_field_type,
            r.spec_seq_num() == seq,
            r.spec_relay_level() == relay_level,
            r.spec_comm_model_mark() == comm_model_mark,
            r == (match info_field_type {
                InfoFieldType::Down => InfoField::Down(
                    InfoFieldDown {
                        route_flag: 0,
                        node_flag: 0,
                        comm_model_mark,
                        conflict_check: 0,
                        relay_level,
                        channel_flag: 0,
                        ecc: 0,
                        answer_bytes: 0,
                        speed: 0,
                        speed_unit_flag: 0,
                        seq_num: seq,
                    },
                ),
                InfoFieldType::Up => InfoField::Up(
                    InfoFieldUp {
                        route_flag: 0,
                        comm_model_mark,
                        relay_level,
                        channel_flag: 0,
                        line_mark: 0,
                        meter_feature: 0,
                        cmd_signal_quality: 0,
                        res_signal_quality: 0,
                        event_mark: 0,
                        seq_num: seq,
                    },
                ),
            }),
    {
        match info_field_type {
            InfoFieldType::Down => InfoField::Down(
                InfoFieldDown {
                    route_flag: 0,
                    node_flag: 0,
                    comm_model_mark,
                    conflict_check: 0,
                    relay_level,
                    channel_flag: 0,
                    ecc: 0,
                    answer_bytes: 0,
                    speed: 0,
                    speed_unit_flag: 0,
                    seq_num: seq,
                },
            ),
            InfoFieldType::Up => InfoField::Up(
                InfoFieldUp {
                    route_flag: 0,
                    comm_model_mark,
                    relay_level,
                    channel_flag: 0,
                    line_mark: 0,
                    meter_feature: 0,
                    cmd_signal_quality: 0,
                    res_signal_quality: 0,
                    event_mark: 0,
                    seq_num: seq,
                },
            ),
        }
    }

    pub fn get_type(&self) -> (t: InfoFieldType)
        ensures
            t == self.spec_type(),
    {
        match self {
            InfoField::Down(_) => InfoFieldType::Down,
            InfoField::Up(_) => InfoFieldType::Up,
        }
    }

    pub fn relay_level(&self) -> (r: u8)
        ensures
            r == self.spec_relay_level(),
    {
        match self {
            InfoField::Down(down) => down.relay_level,
            InfoField::Up(up) => up.relay_level,
        }
    }

    pub fn comm_model_mark(&self) -> (m: u8)
        ensures
            m == self.spec_comm_model_mark(),
    {
        match self {
            InfoField::Down(down) => down.comm_model_mark,
            InfoField::Up(up) => up.comm_model_mark,
        }
    }

    /// Replaces the communication mark, leaving the layout and every other value.
    pub fn set_comm_model_mark(&mut self, comm_model_mark: u8)
        ensures
            *final(self) == (match *old(self) {
                InfoField::Down(d) => InfoField::Down(InfoFieldDown { comm_model_mark, ..d }),
                InfoField::Up(u) => InfoField::Up(InfoFieldUp { comm_model_mark, ..u }),
            }),
    {
        match self {
            InfoField::Down(down) => down.comm_model_mark = comm_model_mark,
            InfoField::Up(up) => up.comm_model_mark = comm_model_mark,
        }
    }

    pub fn seq_num(&self) -> (s: u8)
        ensures
            s == self.spec_seq_num(),
    {
        match self {
            InfoField::Down(down) => down.seq_num,
            InfoField::Up(up) => up.seq_num,
        }
    }

    /// Appends the six bytes of the field.
    pub fn push_bytes(&self, out: &mut Vec<u8>)
        ensures
            final(out)@ == old(out)@ + self.spec_bytes(),
    {
        let b = <[u8; INFO_FIELD_SIZE]>::from(*self);
        let ghost start = out@;
        out.push(b[0]);
        out.push(b[1]);
        out.push(b[2]);
        out.push(b[3]);
        out.push(b[4]);
        out.push(b[5]);
        assert(out@ =~= start + self.spec_bytes());
    }
}

impl InfoFieldDown {
    /// One line per value, framed by the layout's name.
    pub open spec fn spec_text(self) -> Seq<char> {
        "InfoFieldDown { \n"@ + spec_line("  route_flag: "@, self.route_flag as nat) + spec_line("  node_flag: "@, self.node_flag as nat) + spec_line("  comm_model_mark: "@, self.comm_model_mark as nat) + spec_line("  conflict_check: "@, self.conflict_check as nat) + spec_line("  relay_level: "@, self.relay_level as nat) + spec_line("  channel_flag: "@, self.channel_flag as nat) + spec_line("  ecc: "@, self.ecc as nat) + spec_line("  answer_bytes: "@, self.answer_bytes as nat) + spec_line("  speed: "@, self.speed as nat) + spec_line("  speed_unit_flag: "@, self.speed_unit_flag as nat) + spec_line("  seq_num: "@, self.seq_num as nat) + "}\n"@
    }

    pub fn to_string(&self) -> (s: String)
        ensures
            s@ == self.spec_text(),
    {
        let mut s = String::new();
        push_str(&mut s, "InfoFieldDown { \n");
        push_line(&mut s, "  route_flag: ", self.route_flag as u64);
        push_line(&mut s, "  node_flag: ", self.node_flag as u64);
        push_line(&mut s, "  comm_model_mark: ", self.comm_model_mark as u64);
        push_line(&mut s, "  conflict_check: ", self.conflict_check as u64);
        push_line(&mut s, "  relay_level: ", self.relay_level as u64);
        push_line(&mut s, "  channel_flag: ", self.channel_flag as u64);
        push_line(&mut s, "  ecc: ", self.ecc as u64);
        push_line(&mut s, "  answer_bytes: ", self.answer_bytes as u64);
        push_line(&mut s, "  speed: ", self.speed as u64);
        push_line(&mut s, "  speed_unit_flag: ", self.speed_unit_flag as u64);
        push_line(&mut s, "  seq_num: ", self.seq_num as u64);
        push_str(&mut s, "}\n");
        assert(s@ =~= self.spec_text());
        s
    }
}

impl InfoFieldUp {
    /// One line per value, framed by the layout's name.
    pub open spec fn spec_text(self) -> Seq<char> {
        "InfoFieldUp { \n"@ + spec_line("  route_flag: "@, self.route_flag as nat) + spec_line("  comm_model_mark: "@, self.comm_model_mark as nat) + spec_line("  relay_level: "@, self.relay_level as nat) + spec_line("  channel_flag: "@, self.channel_flag as nat) + spec_line("  line_mark: "@, self.line_mark as nat) + spec_line("  meter_feature: "@, self.meter_feature as nat) + spec_line("  cmd_signal_quality: "@, self.cmd_signal_quality as nat) + spec_line("  res_signal_quality: "@, self.res_signal_quality as nat) + spec_line("  event_mark: "@, self.event_mark as nat) + spec_line("  seq_num: "@, self.seq_num as nat) + "}\n"@
    }

    pub fn to_string(&self) -> (s: String)
        ensures
            s@ == self.spec_text(),
    {
        let mut s = String::new();
        push_str(&mut s, "InfoFieldUp { \n");
        push_line(&mut s, "  route_flag: ", self.route_flag as u64);
        push_line(&mut s, "  comm_model_mark: ", self.comm_model_mark as u64);
        push_line(&mut s, "  relay_level: ", self.relay_level as u64);
        push_line(&mut s, "  channel_flag: ", self.channel_flag as u64);
        push_line(&mut s, "  line_mark: ", self.line_mark as u64);
        push_line(&mut s, "  meter_feature: ", self.meter_feature as u64);
        push_line(&mut s, "  cmd_signal_quality: ", self.cmd_signal_quality as u64);
        push_line(&mut s, "  res_signal_quality: ", self.res_signal_quality as u64);
        push_line(&mut s, "  event_mark: ", self.event_mark as u64);
        push_line(&mut s, "  seq_num: ", self.seq_num as u64);
        push_str(&mut s, "}\n");
        assert(s@ =~= self.spec_text());
        s
    }
}

impl InfoField {
    /// The text of the field's layout, then a line break.
    pub open spec fn spec_text(self) -> Seq<char> {
        match self {
            InfoField::Down(d) => d.spec_text() + "\n"@,
            InfoField::Up(u) => u.spec_text() + "\n"@,
        }
    }

    pub fn to_string(&self) -> (s: String)
        ensures
            s@ == self.spec_text(),
    {
        let mut s = match self {
            InfoField::Down(d) => d.to_string(),
            InfoField::Up(u) => u.to_string(),
        };
        push_str(&mut s, "\n");
        s
    }

    /// The six bytes, in order.
    pub fn to_bytes(&self) -> (v: Vec<u8>)
        ensures
            v@ == self.spec_bytes(),
    {
        let mut v = Vec::new();
        self.push_bytes(&mut v);
        assert(v@ =~= self.spec_bytes());
        v
    }
}

impl From<InfoField> for [u8; INFO_FIELD_SIZE] {
    /// The six bytes of the field.
    fn from(info: InfoField) -> (bytes: [u8; INFO_FIELD_SIZE])
        ensures
            bytes@ == info.spec_bytes(),
    {
        let mut bytes = [0u8; INFO_FIELD_SIZE];
        match info {
            InfoField::Down(down) => {
                bytes[0] = down.route_flag | (down.node_flag << 1) | (down.comm_model_mark << 2) | (
                down.conflict_check << 3) | (down.relay_level << 4);
                bytes[1] = down.channel_flag | (down.ecc << 4);
                bytes[2] = down.answer_bytes;
                bytes[3] = (down.speed % 256) as u8;
                bytes[4] = ((down.speed / 256) as u8) & 0x7F | (down.speed_unit_flag << 7);
                bytes[5] = down.seq_num;
            },
            InfoField::Up(up) => {
                bytes[0] = up.route_flag | (up.comm_model_mark << 2) | (up.relay_level << 4);
                bytes[1] = up.channel_flag;
                bytes[2] = up.line_mark | (up.meter_feature << 4);
                bytes[3] = up.cmd_signal_quality | (up.res_signal_quality << 4);
                bytes[4] = up.event_mark;
                bytes[5] = up.seq_num;
            },
        }
        assert(bytes@ =~= info.spec_bytes());
        bytes
    }
}

impl vstd::std_specs::convert::FromSpecImpl<InfoField> for [u8; INFO_FIELD_SIZE] {
    open spec fn obeys_from_spec() -> bool {
        false
    }

    open spec fn from_spec(info: InfoField) -> [u8; INFO_FIELD_SIZE] {
        arbitrary()
    }
}

/// A downlink field whose values fit their bits reads back from its bytes unchanged.
pub proof fn lemma_down_roundtrip(d: InfoFieldDown)
    requires
        d.fits(),
    ensures
        spec_down_from(d.spec_bytes()) == d,
{
    let b = d.spec_bytes();
    let (r, n, c, k, l) = (d.route_flag, d.node_flag, d.comm_model_mark, d.conflict_check, d.relay_level);
    let b0 = b[0];
    assert(b0 == r | (n << 1u8) | (c << 2u8) | (k << 3u8) | (l << 4u8));
    assert(r <= 1 && n <= 1 && c <= 1 && k <= 1 && l <= 15 && b0 == r | (n << 1u8) | (c << 2u8) | (k
        << 3u8) | (l << 4u8) ==> (b0 & 0x01) == r && ((b0 & 0x02) >> 1u8) == n && ((b0 & 0x04)
        >> 2u8) == c && ((b0 & 0x08) >> 3u8) == k && ((b0 & 0xF0) >> 4u8) == l) by (bit_vector);
    let (ch, e) = (d.channel_flag, d.ecc);
    let b1 = b[1];
    assert(ch <= 15 && e <= 15 && b1 == ch | (e << 4u8) ==> (b1 & 0x0F) == ch && ((b1 & 0xF0)
        >> 4u8) == e) by (bit_vector);
    let s = d.speed;
    let u = d.speed_unit_flag;
    let b3 = b[3];
    let b4 = b[4];
    assert(s <= 0x7fff && u <= 1 && b3 == (s % 256) as u8 && b4 == (((s / 256) as u8) & 0x7F) | (u
        << 7u8) ==> b3 + 256 * (b4 & 0x7F) == s && ((b4 & 0x80) >> 7u8) == u) by (bit_vector);
}

/// Six bytes read as a downlink field are written back unchanged.
pub proof fn lemma_down_bytes_roundtrip(b: Seq<u8>)
    requires
        b.len() == INFO_FIELD_SIZE,
    ensures
        spec_down_from(b).spec_bytes() == b,
{
    let b0 = b[0];
    let b1 = b[1];
    let b3 = b[3];
    let b4 = b[4];
    assert((b0 & 0x01) | (((b0 & 0x02) >> 1u8) << 1u8) | (((b0 & 0x04) >> 2u8) << 2u8) | (((b0
        & 0x08) >> 3u8) << 3u8) | (((b0 & 0xF0) >> 4u8) << 4u8) == b0) by (bit_vector);
    assert((b1 & 0x0F) | (((b1 & 0xF0) >> 4u8) << 4u8) == b1) by (bit_vector);
    let s: u16 = (b3 as int + 256 * (b4 & 0x7F) as int) as u16;
    assert(s == b3 as u16 + 256 * (b4 & 0x7F) as u16);
    assert((s % 256) as u8 == b3 && ((((s / 256) as u8) & 0x7F) | (((b4 & 0x80) >> 7u8) << 7u8))
        == b4) by (bit_vector)
        requires
            s == b3 as u16 + 256 * (b4 & 0x7F) as u16,
    ;
    assert(spec_down_from(b).spec_bytes() =~= b);
}

/// Whether every value of a field fits the bits its layout gives it.
pub open spec fn spec_fits(x: InfoField) -> bool {
    match x {
        InfoField::Down(d) => d.fits(),
        InfoField::Up(u) => u.fits(),
    }
}

/// A field whose values fit their bits reads back from its six bytes in its own
/// layout.
pub proof fn law_info_field_roundtrip(x: InfoField)
    requires
        spec_fits(x),
    ensures
        x.spec_bytes().len() == INFO_FIELD_SIZE,
        InfoField::spec_from(x.spec_type(), x.spec_bytes()) == x,
{
    match x {
        InfoField::Down(d) => lemma_down_roundtrip(d),
        InfoField::Up(u) => lemma_up_roundtrip(u),
    }
}

/// Reading six bytes as a downlink field loses none of them: two byte strings
/// that read as the same field are the same bytes.
pub proof fn law_down_from_injective(a: Seq<u8>, b: Seq<u8>)
    requires
        a.len() == INFO_FIELD_SIZE,
        b.len() == INFO_FIELD_SIZE,
        spec_down_from(a) == spec_down_from(b),
    ensures
        a == b,
{
    lemma_down_bytes_roundtrip(a);
    lemma_down_bytes_roundtrip(b);
}

/// An uplink field whose values fit their bits reads back from its bytes unchanged.
pub proof fn lemma_up_roundtrip(u: InfoFieldUp)
    requires
        u.fits(),
    ensures
        spec_up_from(u.spec_bytes()) == u,
{
    let b = u.spec_bytes();
    let (r, c, l) = (u.route_flag, u.comm_model_mark, u.relay_level);
    let b0 = b[0];
    assert(r <= 1 && c <= 1 && l <= 15 && b0 == r | (c << 2u8) | (l << 4u8) ==> (b0 & 0x01) == r
        && ((b0 & 0x04) >> 2u8) == c && ((b0 & 0xF0) >> 4u8) == l) by (bit_vector);
    let ch = u.channel_flag;
    assert(ch <= 15 ==> (ch & 0x0F) == ch) by (bit_vector);
    let (lm, mf) = (u.line_mark, u.meter_feature);
    let b2 = b[2];
    assert(lm <= 15 && mf <= 15 && b2 == lm | (mf << 4u8) ==> (b2 & 0x0F) == lm && ((b2 & 0xF0)
        >> 4u8) == mf) by (bit_vector);
    let (cq, rq) = (u.cmd_signal_quality, u.res_signal_quality);
    let b3 = b[3];
    assert(cq <= 15 && rq <= 15 && b3 == cq | (rq << 4u8) ==> (b3 & 0x0F) == cq && ((b3 & 0xF0)
        >> 4u8) == rq) by (bit_vector);
}

} // verus!
