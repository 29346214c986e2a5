//! The frame envelope: `68 <length: 2 bytes LE> <control> <user data> <checksum> 16`.
use vstd::prelude::*;

use crate::bytes::{le16, le16_bytes, u16_from_le};
use crate::error::{Error, ValueKind};
use crate::protocol::app_data::answer::AnswerFn;
use crate::protocol::app_data::{Afn, AppData};
use crate::protocol::info_field::InfoFieldType;
use crate::protocol::user_data::{AddressField, UserData};
use crate::text::{push_char, push_hex, spec_hex};

verus! {

pub const HEADER: u8 = 0x68;
pub const TAIL: u8 = 0x16;
pub const HEADER_SIZE: usize = 3;
pub const CTRL_FIELD_SIZE: usize = 1;
pub const CHECK_SUM_SIZE: usize = 1;
pub const TAIL_SIZE: usize = 1;
/// Bytes of a frame besides its user data.
pub const FRAME_SIZE: usize = 6;
pub const LAST_SIZE: usize = 2;
pub const HEADER_OFFSET: usize = 0;
pub const CTRL_FIELD_OFFSET: usize = 3;
pub const USER_DATA_OFFSET: usize = 4;

/// Why a frame envelope is rejected.
#[derive(Debug, Clone, PartialEq, Eq)]
pub enum FrameError {
    /// The number of bytes available.
    Length(usize),
    /// The first byte, which is not the start byte.
    Header(u8),
    /// The checksum byte found and the one computed.
    Checksum { checksum: u8, expected: u8 },
    /// The last byte, which is not the end byte.
    Tail(u8),
}

/// Start byte and total length.
#[derive(Debug, Clone, Copy, PartialEq, Eq)]
pub struct Header {
    pub header: u8,
    pub length: u16,
}

impl Header {
    pub fn new(length: u16) -> (h: Self)
        ensures
            h == (Header { header: HEADER, length }),
    {
        Header { header: HEADER, length }
    }

    pub open spec fn spec_bytes(self) -> Seq<u8> {
        seq![self.header] + le16_bytes(self.length)
    }
}

/// Transfer direction.
#[derive(Debug, Clone, Copy, PartialEq, Eq, Structural)]
pub enum Dir {
    Down,
    Up,
}

/// Whether the sender started the exchange.
#[derive(Debug, Clone, Copy, PartialEq, Eq, Structural)]
pub enum Prm {
    Slave,
    Master,
}

/// Communication mode.
#[derive(Debug, Clone, Copy, PartialEq, Eq, Structural)]
pub enum Comm {
    Centralize,
    Decentralize,
    Hplc,
    LowerPower,
    Ethernet,
}

impl Dir {
    pub open spec fn spec_code(self) -> u8 {
        match self {
            Dir::Down => 0,
            Dir::Up => 1,
        }
    }
}

impl Prm {
    pub open spec fn spec_code(self) -> u8 {
        match self {
            Prm::Slave => 0,
            Prm::Master => 1,
        }
    }
}

impl Comm {
    pub open spec fn spec_code(self) -> u8 {
        match self {
            Comm::Centralize => 1,
            Comm::Decentralize => 2,
            Comm::Hplc => 3,
            Comm::LowerPower => 10,
            Comm::Ethernet => 20,
        }
    }

    pub open spec fn spec_from_code(b: u8) -> Option<Comm> {
        if b == 1 {
            Some(Comm::Centralize)
        } else if b == 2 {
            Some(Comm::Decentralize)
        } else if b == 3 {
            Some(Comm::Hplc)
        } else if b == 10 {
            Some(Comm::LowerPower)
        } else if b == 20 {
            Some(Comm::Ethernet)
        } else {
            None
        }
    }

    pub fn code(self) -> (b: u8)
        ensures
            b == self.spec_code(),
    {
        match self {
            Comm::Centralize => 1,
            Comm::Decentralize => 2,
            Comm::Hplc => 3,
            Comm::LowerPower => 10,
            Comm::Ethernet => 20,
        }
    }

    pub fn from_code(b: u8) -> (r: Option<Comm>)
        ensures
            r == Self::spec_from_code(b),
    {
        match b {
            1 => Some(Comm::Centralize),
            2 => Some(Comm::Decentralize),
            3 => Some(Comm::Hplc),
            10 => Some(Comm::LowerPower),
            20 => Some(Comm::Ethernet),
            _ => None,
        }
    }
}

/// The control byte: direction (bit 7), initiator (bit 6), communication mode (bits 0-5).
#[derive(Debug, Clone, Copy, PartialEq, Eq)]
pub struct CtrlField {
    pub dir: Dir,
    pub prm: Prm,
    pub comm: Comm,
}

impl CtrlField {
    pub open spec fn spec_byte(self) -> u8 {
        (self.dir.spec_code() * 128 + self.prm.spec_code() * 64 + self.comm.spec_code()) as u8
    }

    /// The control field that a byte carries, when its mode is known.
    pub open spec fn spec_from_byte(b: u8) -> Option<CtrlField> {
        match Comm::spec_from_code(b % 64) {
            Some(comm) => Some(
                CtrlField {
                    dir: if b / 128 == 0 {
                        Dir::Down
                    } else {
                        Dir::Up
                    },
                    prm: if (b / 64) % 2 == 0 {
                        Prm::Slave
                    } else {
                        Prm::Master
                    },
                    comm,
                },
            ),
            None => None,
        }
    }

    pub open spec fn spec_info_field_type(self) -> InfoFieldType {
        match self.dir {
            Dir::Down => InfoFieldType::Down,
            Dir::Up => InfoFieldType::Up,
        }
    }

    /// A downlink HPLC control field; a response is sent as slave, a request as master.
    pub open spec fn spec_new(is_response: bool) -> CtrlField {
        CtrlField {
            dir: Dir::Down,
            prm: if is_response {
                Prm::Slave
            } else {
                Prm::Master
            },
            comm: Comm::Hplc,
        }
    }

    pub fn new(is_response: bool) -> (c: Self)
        ensures
            c == Self::spec_new(is_response),
    {
        CtrlField {
            dir: Dir::Down,
            prm: if is_response {
                Prm::Slave
            } else {
                Prm::Master
            },
            comm: Comm::Hplc,
        }
    }

    /// Downlink, master, HPLC.
    pub fn default() -> (c: Self)
        ensures
            c == (CtrlField { dir: Dir::Down, prm: Prm::Master, comm: Comm::Hplc }),
    {
        CtrlField { dir: Dir::Down, prm: Prm::Master, comm: Comm::Hplc }
    }

    /// The layout of the information field that follows: that of the direction.
    pub fn get_info_field_type(&self) -> (t: InfoFieldType)
        ensures
            t == self.spec_info_field_type(),
    {
        match self.dir {
            Dir::Down => InfoFieldType::Down,
            Dir::Up => InfoFieldType::Up,
        }
    }
}

impl From<CtrlField> for u8 {
    fn from(c: CtrlField) -> (b: u8)
        ensures
            b == c.spec_byte(),
    {
        let d: u8 = match c.dir {
            Dir::Down => 0,
            Dir::Up => 1,
        };
        let p: u8 = match c.prm {
            Prm::Slave => 0,
            Prm::Master => 1,
        };
        d * 128 + p * 64 + c.comm.code()
    }
}

impl vstd::std_specs::convert::FromSpecImpl<CtrlField> for u8 {
    open spec fn obeys_from_spec() -> bool {
        true
    }

    open spec fn from_spec(c: CtrlField) -> u8 {
        c.spec_byte()
    }
}

impl TryFrom<u8> for CtrlField {
    type Error = Error;

    /// Reads a control byte; an unknown communication mode is an error.
    fn try_from(b: u8) -> (r: Result<CtrlField, Error>)
        ensures
            r matches Ok(c) ==> CtrlField::spec_from_byte(b) == Some(c),
            r is Err ==> CtrlField::spec_from_byte(b) is None && r == Err::<CtrlField, Error>(
                Error::UnknownValue(ValueKind::Comm, b % 64),
            ),
    {
        let comm = match Comm::from_code(b % 64) {
            Some(c) => c,
            None => return Err(Error::UnknownValue(ValueKind::Comm, b % 64)),
        };
        Ok(CtrlField {
            dir: if b / 128 == 0 {
                Dir::Down
            } else {
                Dir::Up
            },
            prm: if (b / 64) % 2 == 0 {
                Prm::Slave
            } else {
                Prm::Master
            },
            comm,
        })
    }
}

impl vstd::std_specs::convert::TryFromSpecImpl<u8> for CtrlField {
    open spec fn obeys_try_from_spec() -> bool {
        true
    }

    open spec fn try_from_spec(b: u8) -> Result<CtrlField, Error> {
        match CtrlField::spec_from_byte(b) {
            Some(c) => Ok(c),
            None => Err(Error::UnknownValue(ValueKind::Comm, b % 64)),
        }
    }
}

/// A written control field reads back unchanged.
pub proof fn lemma_ctrl_roundtrip(c: CtrlField)
    ensures
        CtrlField::spec_from_byte(c.spec_byte()) == Some(c),
{
}

#[derive(Debug, Clone, Copy, Default, PartialEq, Eq)]
pub struct Checksum {
    pub checksum: u8,
}

#[derive(Debug, Clone, Copy, PartialEq, Eq)]
pub struct Tail {
    pub tail: u8,
}

/// Sum of the bytes.
pub open spec fn spec_sum(bytes: Seq<u8>) -> int
    decreases bytes.len(),
{
    if bytes.len() == 0 {
        0
    } else {
        spec_sum(bytes.drop_last()) + bytes.last()
    }
}

/// The checksum of bytes: their sum modulo 256.
pub open spec fn spec_checksum(bytes: Seq<u8>) -> u8 {
    (spec_sum(bytes) % 256) as u8
}

/// Sum of the bytes, wrapping at 256.
pub fn calc_checksum(bytes: &[u8]) -> (c: u8)
    ensures
        c == spec_checksum(bytes@),
{
    let mut checksum: u8 = 0;
    let mut i: usize = 0;
    while i < bytes.len()
        invariant
            i <= bytes@.len(),
            checksum == spec_checksum(bytes@.take(i as int)),
        decreases bytes.len() - i,
    {
        proof {
            assert(bytes@.take(i + 1).drop_last() =~= bytes@.take(i as int));
        }
        checksum = checksum.wrapping_add(bytes[i]);
        i = i + 1;
    }
    assert(bytes@.take(i as int) =~= bytes@);
    checksum
}

/// The sequence numbers given to requests, in turn; after 255 comes 0.
pub struct FrameSeq {
    next: u8,
}

impl FrameSeq {
    pub closed spec fn spec_next(self) -> u8 {
        self.next
    }

    /// A sequence that starts at 0.
    pub fn new() -> (s: Self)
        ensures
            s.spec_next() == 0,
    {
        FrameSeq { next: 0 }
    }

    /// Hands out the next number.
    pub fn take(&mut self) -> (n: u8)
        ensures
            n == old(self).spec_next(),
            final(self).spec_next() == (if n == 255 {
                0
            } else {
                n + 1
            }),
    {
        let n = self.next;
        self.next = if n == 255 {
            0
        } else {
            n + 1
        };
        n
    }
}

/// Header, control field, user data, checksum, tail.
#[derive(Debug, Clone, PartialEq)]
pub struct Frame {
    pub header: Header,
    pub ctrl_field: CtrlField,
    pub user_data: UserData,
    pub checksum: Checksum,
    pub tail: Tail,
}

/// The first position at or after `p` that holds the start byte (the length when none does).
pub open spec fn spec_scan_header(buf: Seq<u8>, p: int) -> int
    decreases buf.len() - p,
{
    if p >= buf.len() {
        buf.len() as int
    } else if buf[p] == HEADER {
        p
    } else {
        spec_scan_header(buf, p + 1)
    }
}

impl Frame {
    /// The wire form of the frame as held.
    pub open spec fn spec_bytes(self) -> Seq<u8> {
        self.header.spec_bytes() + seq![self.ctrl_field.spec_byte()] + self.user_data.spec_bytes()
            + seq![self.checksum.checksum, self.tail.tail]
    }

    /// The frame that carries user data under a control field: length of the whole
    /// frame (truncated to 16 bits), checksum of control byte and user data, end byte.
    pub open spec fn spec_assembled(ctrl_field: CtrlField, user_data: UserData) -> Frame {
        Frame {
            header: Header { header: HEADER, length: (FRAME_SIZE + user_data.spec_bytes().len()) as u16 },
            ctrl_field,
            user_data,
            checksum: Checksum {
                checksum: spec_checksum(seq![ctrl_field.spec_byte()] + user_data.spec_bytes()),
            },
            tail: Tail { tail: TAIL },
        }
    }

    /// A downlink frame with the given sequence number, address field and application data.
    pub fn new(is_response: bool, seq: u8, address_field: Option<AddressField>, app_data: AppData) -> (f: Self)
        requires
            UserData::spec_new(seq, address_field, app_data).spec_bytes().len() + FRAME_SIZE
                <= usize::MAX,
        ensures
            f == Self::spec_assembled(CtrlField::spec_new(is_response), UserData::spec_new(seq, address_field, app_data)),
    {
        let user_data = UserData::new(seq, address_field, app_data);
        let length = FRAME_SIZE + user_data.length();
        let ctrl_field = CtrlField::new(is_response);
        let mut body: Vec<u8> = Vec::new();
        body.push(u8::from(ctrl_field));
        user_data.push_bytes(&mut body);
        let checksum = calc_checksum(body.as_slice());
        Frame {
            header: Header::new(length as u16),
            ctrl_field,
            user_data,
            checksum: Checksum { checksum },
            tail: Tail { tail: TAIL },
        }
    }

    /// The wire form.
    pub fn to_bytes(&self) -> (v: Vec<u8>)
        ensures
            v@ == self.spec_bytes(),
    {
        let mut v: Vec<u8> = Vec::new();
        v.push(self.header.header);
        crate::bytes::push_le16(&mut v, self.header.length);
        v.push(u8::from(self.ctrl_field));
        self.user_data.push_bytes(&mut v);
        v.push(self.checksum.checksum);
        v.push(self.tail.tail);
        assert(v@ =~= self.spec_bytes());
        v
    }

    /// A request frame; its sequence number is the next one of `seq`.
    pub fn new_request(seq: &mut FrameSeq, address_field: Option<AddressField>, app_data: AppData) -> (f: Self)
        requires
            UserData::spec_new(old(seq).spec_next(), address_field, app_data).spec_bytes().len()
                + FRAME_SIZE <= usize::MAX,
        ensures
            f == Self::spec_assembled(
                CtrlField::spec_new(false),
                UserData::spec_new(old(seq).spec_next(), address_field, app_data),
            ),
            final(seq).spec_next() == (if old(seq).spec_next() == 255 {
                0
            } else {
                old(seq).spec_next() + 1
            }),
    {
        let n = seq.take();
        Frame::new(false, n, address_field, app_data)
    }

    /// A response frame with the sequence number of the request it answers.
    pub fn new_response(seq: u8, address_field: Option<AddressField>, app_data: AppData) -> (f: Self)
        requires
            UserData::spec_new(seq, address_field, app_data).spec_bytes().len() + FRAME_SIZE
                <= usize::MAX,
        ensures
            f == Self::spec_assembled(CtrlField::spec_new(true), UserData::spec_new(seq, address_field, app_data)),
    {
        Frame::new(true, seq, address_field, app_data)
    }

    pub fn into_app_data(self) -> (a: AppData)
        ensures
            a == self.user_data.app_data,
    {
        self.user_data.into_app_data()
    }

    /// Whether the frame confirms: AFN 00H, function 1.
    pub fn is_confirm(&self) -> (b: bool)
        ensures
            b == (self.user_data.app_data.spec_afn() == Afn::Answer
                && self.user_data.app_data.spec_fn_num() == 1),
    {
        self.user_data.app_data.afn() == Afn::Answer && self.user_data.app_data.fn_num()
            == AnswerFn::Confirm.code()
    }

    /// Whether the frame denies: AFN 00H, function 2.
    pub fn is_deny(&self) -> (b: bool)
        ensures
            b == (self.user_data.app_data.spec_afn() == Afn::Answer
                && self.user_data.app_data.spec_fn_num() == 2),
    {
        self.user_data.app_data.afn() == Afn::Answer && self.user_data.app_data.fn_num()
            == AnswerFn::Deny.code()
    }

    /// Whether a slave started this uplink frame (a report).
    pub fn is_slave_report(&self) -> (b: bool)
        ensures
            b == (self.ctrl_field.dir == Dir::Up && self.ctrl_field.prm == Prm::Master),
    {
        self.ctrl_field.dir == Dir::Up && self.ctrl_field.prm == Prm::Master
    }

    /// Whether this downlink frame answers a slave's report.
    pub fn is_master_response(&self) -> (b: bool)
        ensures
            b == (self.ctrl_field.dir == Dir::Down && self.ctrl_field.prm == Prm::Slave),
    {
        self.ctrl_field.dir == Dir::Down && self.ctrl_field.prm == Prm::Slave
    }

    pub fn get_seq(&self) -> (s: u8)
        ensures
            s == self.user_data.info_field.spec_seq_num(),
    {
        self.user_data.get_seq()
    }

    pub fn afn(&self) -> (a: Afn)
        ensures
            a == self.user_data.app_data.spec_afn(),
    {
        self.user_data.app_data.afn()
    }

    pub fn fn_num(&self) -> (n: u8)
        ensures
            n == self.user_data.app_data.spec_fn_num(),
    {
        self.user_data.app_data.fn_num()
    }

    /// Whether the frame carries the sequence number of the request `seq`.
    pub fn match_req(&self, seq: u8) -> (b: bool)
        ensures
            b == (self.user_data.info_field.spec_seq_num() == seq),
    {
        self.user_data.get_seq() == seq
    }

    /// Upper-case hexadecimal text of the wire form, bytes separated by single spaces.
    pub fn to_hex_string(&self) -> (s: String)
        ensures
            s@ == spec_hex_spaced(self.spec_bytes()),
    {
        let bytes = self.to_bytes();
        let mut s = String::new();
        let mut i: usize = 0;
        while i < bytes.len()
            invariant
                i <= bytes@.len(),
                s@ == spec_hex_spaced(bytes@.take(i as int)),
            decreases bytes.len() - i,
        {
            if i > 0 {
                push_char(&mut s, ' ');
            }
            let pair = [bytes[i]];
            push_hex(&mut s, pair.as_slice(), true);
            proof {
                assert(bytes@.take(i + 1).drop_last() =~= bytes@.take(i as int));
                assert(pair@ =~= seq![bytes@[i as int]]);
                if i == 0 {
                    assert(bytes@.take(1) =~= seq![bytes@[0]]);
                    assert(s@ =~= spec_hex_spaced(bytes@.take(1)));
                } else {
                    assert(bytes@.take(i + 1).last() == bytes@[i as int]);
                    assert(s@ =~= spec_hex_spaced(bytes@.take(i + 1)));
                }
            }
            i = i + 1;
        }
        assert(bytes@.take(i as int) =~= bytes@);
        s
    }

    /// Whether decoding these bytes would reach user data too short for its
    /// information field, or a data flag without a usable function number.
    pub open spec fn spec_decode_panics(bytes: Seq<u8>) -> bool {
        let len = bytes.len();
        &&& len >= FRAME_SIZE
        &&& bytes[0] == HEADER
        &&& le16(bytes[1], bytes[2]) <= len
        &&& CtrlField::spec_from_byte(bytes[3]) matches Some(c)
        &&& (len < 12 || UserData::spec_decode_fails_flag(
            c.spec_info_field_type(),
            bytes.subrange(4, len - 2),
        ))
    }

    /// The error decoding these bytes meets, if any, in the order checked: length,
    /// start byte, declared length, control byte, user data, checksum, end byte.
    pub open spec fn spec_decode_error(bytes: Seq<u8>) -> Option<Error> {
        let len = bytes.len();
        if len < FRAME_SIZE {
            Some(Error::Frame(FrameError::Length(len as usize)))
        } else if bytes[0] != HEADER {
            Some(Error::Frame(FrameError::Header(bytes[0])))
        } else if le16(bytes[1], bytes[2]) > len {
            Some(Error::Frame(FrameError::Length(len as usize)))
        } else if CtrlField::spec_from_byte(bytes[3]) is None {
            Some(Error::UnknownValue(ValueKind::Comm, bytes[3] % 64))
        } else {
            let c = CtrlField::spec_from_byte(bytes[3])->0;
            let ud = bytes.subrange(4, len - 2);
            let expected = spec_checksum(bytes.subrange(3, len - 2));
            if UserData::spec_decode_error(c.spec_info_field_type(), ud) is Some {
                UserData::spec_decode_error(c.spec_info_field_type(), ud)
            } else if bytes[len - 2] != expected {
                Some(Error::Frame(FrameError::Checksum { checksum: bytes[len - 2], expected }))
            } else if bytes[len - 1] != TAIL {
                Some(Error::Frame(FrameError::Tail(bytes[len - 1])))
            } else {
                None
            }
        }
    }

    /// Whether this frame is what decoding `bytes` yields.
    pub open spec fn spec_decoded_from(self, bytes: Seq<u8>) -> bool {
        let len = bytes.len();
        &&& self.header == (Header { header: bytes[0], length: le16(bytes[1], bytes[2]) })
        &&& CtrlField::spec_from_byte(bytes[3]) == Some(self.ctrl_field)
        &&& self.user_data.spec_decoded_from(
            self.ctrl_field.spec_info_field_type(),
            bytes.subrange(4, len - 2),
        )
        &&& self.checksum.checksum == bytes[len - 2]
        &&& self.tail.tail == bytes[len - 1]
    }

    /// Whether these bytes can be handed to the decoder (it would not stop on them).
    pub fn decodable(bytes: &[u8]) -> (b: bool)
        ensures
            b == !Self::spec_decode_panics(bytes@),
    {
        let len = bytes.len();
        if len < FRAME_SIZE || bytes[0] != HEADER || u16_from_le(bytes[1], bytes[2]) as usize > len {
            return true;
        }
        match CtrlField::try_from(bytes[CTRL_FIELD_OFFSET]) {
            Err(_) => true,
            Ok(c) => {
                if len < 12 {
                    false
                } else {
                    !UserData::decode_fails_flag(
                        c.get_info_field_type(),
                        &bytes[USER_DATA_OFFSET..len - LAST_SIZE],
                    )
                }
            },
        }
    }

    /// Decodes a frame from exactly its bytes.
    pub fn from_bytes(bytes: &[u8]) -> (r: Result<Self, Error>)
        requires
            !Self::spec_decode_panics(bytes@),
        ensures
            r is Ok <==> Self::spec_decode_error(bytes@) is None,
            r matches Err(e) ==> Self::spec_decode_error(bytes@) == Some(e),
            r matches Ok(f) ==> f.spec_decoded_from(bytes@),
    {
        let len = bytes.len();
        if len < FRAME_SIZE {
            return Err(Error::Frame(FrameError::Length(len)));
        }
        let header = Header { header: bytes[0], length: u16_from_le(bytes[1], bytes[2]) };
        if header.header != HEADER {
            return Err(Error::Frame(FrameError::Header(header.header)));
        }
        if header.length as usize > len {
            return Err(Error::Frame(FrameError::Length(len)));
        }
        let ctrl_field = CtrlField::try_from(bytes[CTRL_FIELD_OFFSET])?;
        let user_data = UserData::from_bytes(
            ctrl_field.get_info_field_type(),
            &bytes[USER_DATA_OFFSET..len - LAST_SIZE],
        )?;
        let checksum = bytes[len - LAST_SIZE];
        let calc = calc_checksum(&bytes[CTRL_FIELD_OFFSET..len - LAST_SIZE]);
        if checksum != calc {
            return Err(Error::Frame(FrameError::Checksum { checksum, expected: calc }));
        }
        let tail = bytes[len - TAIL_SIZE];
        if tail != TAIL {
            return Err(Error::Frame(FrameError::Tail(tail)));
        }
        Ok(Frame { header, ctrl_field, user_data, checksum: Checksum { checksum }, tail: Tail { tail } })
    }

    /// Whether `parse` would hand the decoder bytes it stops on.
    pub open spec fn spec_parse_panics(buf: Seq<u8>, pos: int) -> bool {
        let start = spec_scan_header(buf, pos);
        let length = le16(buf[1], buf[2]) as int;
        &&& buf.len() - start >= HEADER_SIZE
        &&& buf.len() - start >= length
        &&& Self::spec_decode_panics(buf.subrange(start, start + length))
    }

    /// Skips bytes up to the next start byte, then takes one frame if the buffer
    /// holds as many bytes as the length field (read at offsets 1 and 2 of the
    /// buffer) announces; `Ok(None)` when more bytes are needed. The position
    /// moves past the skipped bytes and past a taken frame.
    pub fn parse(buf: &[u8], pos: &mut usize) -> (r: Result<Option<Self>, Error>)
        requires
            *old(pos) <= buf@.len(),
            !Self::spec_parse_panics(buf@, *old(pos) as int),
        ensures
            ({
                let start = spec_scan_header(buf@, *old(pos) as int);
                let length = le16(buf@[1], buf@[2]) as int;
                let complete = buf@.len() - start >= HEADER_SIZE && buf@.len() - start >= length;
                let frame_bytes = buf@.subrange(start, start + length);
                &&& !complete ==> r == Ok::<Option<Self>, Error>(None) && *final(pos) == start
                &&& complete ==> {
                    &&& *final(pos) == start + length
                    &&& r is Ok <==> Self::spec_decode_error(frame_bytes) is None
                    &&& r matches Err(e) ==> Self::spec_decode_error(frame_bytes) == Some(e)
                    &&& r matches Ok(f) ==> (f matches Some(f) && f.spec_decoded_from(frame_bytes))
                }
            }),
    {
        let end = buf.len();
        while *pos < end && buf[*pos] != HEADER
            invariant
                *pos <= end,
                end == buf@.len(),
                spec_scan_header(buf@, *pos as int) == spec_scan_header(buf@, *old(pos) as int),
            decreases end - *pos,
        {
            *pos = *pos + 1;
        }
        let start = *pos;
        if end - start < HEADER_SIZE {
            return Ok(None);
        }
        let length = u16_from_le(buf[1], buf[2]) as usize;
        if end - start < length {
            return Ok(None);
        }
        *pos = *pos + length;
        Ok(Some(Frame::from_bytes(&buf[start..start + length])?))
    }
}

/// Upper-case two-digit hexadecimal of each byte, separated by single spaces.
pub open spec fn spec_hex_spaced(bytes: Seq<u8>) -> Seq<char>
    decreases bytes.len(),
{
    if bytes.len() == 0 {
        Seq::empty()
    } else if bytes.len() == 1 {
        spec_hex(bytes, true)
    } else {
        spec_hex_spaced(bytes.drop_last()) + seq![' '] + spec_hex(seq![bytes.last()], true)
    }
}

} // verus!
