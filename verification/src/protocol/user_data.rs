//! User data: information field, optional address field, application data.
use vstd::prelude::*;

use crate::error::Error;
use crate::protocol::app_data::{address_at, Address, AppData, ADDR_LEN};
use crate::protocol::info_field::{InfoField, InfoFieldType, INFO_FIELD_SIZE};
use crate::text::{push_str, spec_hex};

verus! {

/// Bytes of user data before the data units: information field, function code, data flag.
pub const USER_DATA_PREFIX_SIZE: usize = 9;

/// The decimal value of a two-digit BCD byte.
pub open spec fn spec_hex_to_dec(bcd: u8) -> u8 {
    ((bcd / 16) * 10 + bcd % 16) as u8
}

/// The decimal value of a two-digit BCD byte (high nibble tens, low nibble units).
pub fn hex_to_dec(bcd: u8) -> (d: u8)
    ensures
        d == spec_hex_to_dec(bcd),
{
    assert((bcd >> 4u8) == bcd / 16 && (bcd & 0x0f) == bcd % 16) by (bit_vector);
    (bcd >> 4) * 10 + (bcd & 0x0f)
}

/// The BCD byte of the last two decimal digits of `value`.
pub open spec fn spec_dec_to_hex(value: u8) -> u8 {
    (((value / 10) % 10) * 16 + value % 10) as u8
}

/// The BCD byte of the last two decimal digits of `value` (tens in the high nibble).
pub fn dec_to_hex(value: u8) -> (b: u8)
    ensures
        b == spec_dec_to_hex(value),
{
    ((value / 10) % 10) * 16 + (value % 10)
}

/// A BCD byte read back as decimal gives the value's last two digits.
pub proof fn lemma_bcd_roundtrip(value: u8)
    ensures
        spec_hex_to_dec(spec_dec_to_hex(value)) == value % 100,
{
}

/// The wire form of a list of addresses, one after another.
pub open spec fn spec_addresses_wire(addrs: Seq<Address>) -> Seq<u8>
    decreases addrs.len(),
{
    if addrs.len() == 0 {
        Seq::empty()
    } else {
        spec_addresses_wire(addrs.drop_last()) + addrs.last().wire()
    }
}

/// Appends the wire forms of `addrs`, in order.
pub fn push_addresses(out: &mut Vec<u8>, addrs: &Vec<Address>)
    ensures
        final(out)@ == old(out)@ + spec_addresses_wire(addrs@),
{
    let ghost start = out@;
    let mut i: usize = 0;
    while i < addrs.len()
        invariant
            i <= addrs@.len(),
            out@ == start + spec_addresses_wire(addrs@.take(i as int)),
        decreases addrs.len() - i,
    {
        addrs[i].push_wire(out);
        proof {
            assert(addrs@.take(i + 1).drop_last() =~= addrs@.take(i as int));
        }
        i = i + 1;
    }
    assert(addrs@.take(i as int) =~= addrs@);
}

/// Source address, optional relay addresses, destination address.
#[derive(Debug, Clone, PartialEq)]
pub struct AddressField {
    pub src_address: Address,
    pub relay_address: Option<Vec<Address>>,
    pub dst_address: Address,
}

impl AddressField {
    pub open spec fn spec_relays(self) -> Seq<Address> {
        match self.relay_address {
            Some(r) => r@,
            None => Seq::empty(),
        }
    }

    /// The wire form: source, relays, destination.
    pub open spec fn spec_bytes(self) -> Seq<u8> {
        self.src_address.wire() + spec_addresses_wire(self.spec_relays()) + self.dst_address.wire()
    }

    /// Whether this field is what reading `b` yields: source from the first six
    /// bytes, destination from the last six, relays from the six-byte groups
    /// between (absent when there are none).
    pub open spec fn spec_decoded_from(self, b: Seq<u8>) -> bool {
        &&& self.src_address.wire() == b.subrange(0, 6)
        &&& self.dst_address.wire() == b.subrange(b.len() - 6, b.len() as int)
        &&& (b.len() <= 12 ==> self.relay_address is None)
        &&& (b.len() > 12 ==> {
            &&& self.relay_address is Some
            &&& self.spec_relays().len() == (b.len() - 12) / 6
            &&& forall|i: int|
                0 <= i < self.spec_relays().len() ==> (#[trigger] self.spec_relays()[i]).wire()
                    == b.subrange(6 + 6 * i, 12 + 6 * i)
        })
    }

    pub fn new(src_address: Address, relay_address: Option<Vec<Address>>, dst_address: Address) -> (r: Self)
        ensures
            r == (Self { src_address, relay_address, dst_address }),
    {
        Self { src_address, relay_address, dst_address }
    }

    /// Bytes on the wire: six per address.
    pub fn length(&self) -> (n: usize)
        requires
            6 * (2 + self.spec_relays().len()) <= usize::MAX,
        ensures
            n == 6 * (2 + self.spec_relays().len()),
    {
        let relays = match &self.relay_address {
            Some(r) => r.len(),
            None => 0,
        };
        ADDR_LEN * (2 + relays)
    }

    /// Appends the wire form.
    pub fn push_bytes(&self, out: &mut Vec<u8>)
        ensures
            final(out)@ == old(out)@ + self.spec_bytes(),
    {
        let ghost start = out@;
        self.src_address.push_wire(out);
        match &self.relay_address {
            Some(r) => push_addresses(out, r),
            None => {},
        }
        self.dst_address.push_wire(out);
        proof {
            if self.relay_address is None {
                assert(spec_addresses_wire(Seq::<Address>::empty()) =~= Seq::<u8>::empty());
            }
        }
        assert(out@ =~= start + self.spec_bytes());
    }

    /// The wire form.
    pub fn to_bytes(&self) -> (v: Vec<u8>)
        ensures
            v@ == self.spec_bytes(),
    {
        let mut v = Vec::new();
        self.push_bytes(&mut v);
        assert(v@ =~= self.spec_bytes());
        v
    }

    /// Whether `b` can be read as an address field: at least one address, and
    /// whole addresses between the first and the last.
    pub open spec fn spec_readable(b: Seq<u8>) -> bool {
        b.len() >= 6 && (b.len() > 12 ==> (b.len() - 12) % 6 == 0)
    }

    /// Reads an address field from its wire form.
    pub fn from_bytes(bytes: &[u8]) -> (r: Self)
        requires
            Self::spec_readable(bytes@),
        ensures
            r.spec_decoded_from(bytes@),
    {
        let n = bytes.len();
        let src_address = address_at(bytes, 0);
        let dst_address = address_at(bytes, n - ADDR_LEN);
        let relay_address = if n > ADDR_LEN * 2 {
            let count = (n - ADDR_LEN * 2) / ADDR_LEN;
            let mut relays: Vec<Address> = Vec::new();
            let mut i: usize = 0;
            while i < count
                invariant
                    n == bytes@.len(),
                    n > 12,
                    count == (n - 12) / 6,
                    (n - 12) % 6 == 0,
                    i <= count,
                    relays@.len() == i,
                    forall|j: int|
                        0 <= j < i ==> (#[trigger] relays@[j]).wire() == bytes@.subrange(
                            6 + 6 * j,
                            12 + 6 * j,
                        ),
                decreases count - i,
            {
                let a = address_at(bytes, ADDR_LEN + ADDR_LEN * i);
                relays.push(a);
                i = i + 1;
            }
            Some(relays)
        } else {
            None
        };
        Self { src_address, relay_address, dst_address }
    }
}

/// Information field, optional address field and application data.
#[derive(Debug, Clone, PartialEq)]
pub struct UserData {
    pub info_field: InfoField,
    pub address_field: Option<AddressField>,
    pub app_data: AppData,
}

/// Where the application data starts in user data of the given layout: after
/// the information field, and after the addresses when the communication mark is set.
pub open spec fn spec_app_offset(t: InfoFieldType, bytes: Seq<u8>) -> int {
    let info = InfoField::spec_from(t, bytes.subrange(0, 6));
    if info.spec_comm_model_mark() == 1 {
        6 + (info.spec_relay_level() + 2) * 6
    } else {
        6
    }
}

impl UserData {
    /// The wire form: information field, address field (if any), application data.
    pub open spec fn spec_bytes(self) -> Seq<u8> {
        self.info_field.spec_bytes() + match self.address_field {
            Some(a) => a.spec_bytes(),
            None => Seq::empty(),
        } + self.app_data.spec_bytes()
    }

    /// A downlink user data: the relay level is the number of relay addresses
    /// (taken to eight bits; zero without an address field), the communication mark is the one of the
    /// application data's function code, every other information value is zero.
    pub open spec fn spec_new(seq: u8, address_field: Option<AddressField>, app_data: AppData) -> UserData {
        UserData {
            info_field: InfoField::Down(
                crate::protocol::info_field::InfoFieldDown {
                    route_flag: 0,
                    node_flag: 0,
                    comm_model_mark: app_data.spec_comm_mark(),
                    conflict_check: 0,
                    relay_level: match address_field {
                        Some(a) => match a.relay_address {
                            Some(r) => r@.len() as u8,
                            None => 0u8,
                        },
                        None => 0u8,
                    },
                    channel_flag: 0,
                    ecc: 0,
                    answer_bytes: 0,
                    speed: 0,
                    speed_unit_flag: 0,
                    seq_num: seq,
                },
            ),
            address_field,
            app_data,
        }
    }

    pub fn new(seq: u8, address_field: Option<AddressField>, app_data: AppData) -> (r: UserData)
        ensures
            r == Self::spec_new(seq, address_field, app_data),
    {
        let relay_level: u8 = match &address_field {
            Some(a) => match &a.relay_address {
                Some(r) => r.len() as u8,
                None => 0,
            },
            None => 0,
        };
        let comm_mark = app_data.get_comm_mark();
        Self {
            info_field: InfoField::new(InfoFieldType::Down, seq, relay_level, comm_mark),
            address_field,
            app_data,
        }
    }

    pub fn into_app_data(self) -> (a: AppData)
        ensures
            a == self.app_data,
    {
        self.app_data
    }

    /// Bytes on the wire.
    pub fn length(&self) -> (n: usize)
        requires
            self.spec_bytes().len() <= usize::MAX,
        ensures
            n == self.spec_bytes().len(),
    {
        let addr_len = match &self.address_field {
            Some(a) => {
                assert(a.spec_bytes().len() == 12 + spec_addresses_wire(a.spec_relays()).len());
                proof {
                    lemma_addresses_wire_len(a.spec_relays());
                }
                a.length()
            },
            None => 0,
        };
        INFO_FIELD_SIZE + addr_len + self.app_data.length()
    }

    /// Whether decoding these bytes would reach a data flag without a usable
    /// function number.
    pub open spec fn spec_decode_fails_flag(t: InfoFieldType, bytes: Seq<u8>) -> bool {
        let off = spec_app_offset(t, bytes);
        off <= bytes.len() && AppData::spec_decode_fails_flag(bytes.skip(off))
    }

    /// The error decoding these bytes meets, if any: an address field longer than
    /// the bytes, then the errors of the application data.
    pub open spec fn spec_decode_error(t: InfoFieldType, bytes: Seq<u8>) -> Option<Error> {
        let off = spec_app_offset(t, bytes);
        if off > bytes.len() {
            Some(Error::AddressFieldLength(bytes.len() as usize))
        } else {
            AppData::spec_decode_error(bytes.skip(off))
        }
    }

    /// Whether this is what decoding `bytes` in layout `t` yields.
    pub open spec fn spec_decoded_from(self, t: InfoFieldType, bytes: Seq<u8>) -> bool {
        let off = spec_app_offset(t, bytes);
        let info = InfoField::spec_from(t, bytes.subrange(0, 6));
        &&& self.info_field == info
        &&& self.app_data.spec_decoded_from(bytes.skip(off))
        &&& info.spec_comm_model_mark() == 1 ==> (self.address_field matches Some(a)
            && a.spec_decoded_from(bytes.subrange(6, off)))
        &&& info.spec_comm_model_mark() != 1 ==> self.address_field is None
    }

    /// Whether decoding these bytes would meet a flag without a usable function number.
    pub fn decode_fails_flag(t: InfoFieldType, bytes: &[u8]) -> (b: bool)
        requires
            bytes@.len() >= 6,
        ensures
            b == Self::spec_decode_fails_flag(t, bytes@),
    {
        let info = match InfoField::from_bytes(t, &bytes[0..INFO_FIELD_SIZE]) {
            Ok(i) => i,
            Err(_) => {
                assert(false);
                return false;
            },
        };
        let off: usize = if info.comm_model_mark() == 1 {
            INFO_FIELD_SIZE + (info.relay_level() as usize + 2) * ADDR_LEN
        } else {
            INFO_FIELD_SIZE
        };
        if off > bytes.len() {
            return false;
        }
        AppData::decode_fails_flag(&bytes[off..bytes.len()])
    }

    /// Decodes user data of the given layout.
    pub fn from_bytes(info_field_type: InfoFieldType, bytes: &[u8]) -> (r: Result<Self, Error>)
        requires
            bytes@.len() >= 6,
            !Self::spec_decode_fails_flag(info_field_type, bytes@),
        ensures
            r is Ok <==> Self::spec_decode_error(info_field_type, bytes@) is None,
            r matches Err(e) ==> Self::spec_decode_error(info_field_type, bytes@) == Some(e),
            r matches Ok(ud) ==> ud.spec_decoded_from(info_field_type, bytes@),
    {
        let info_field = InfoField::from_bytes(info_field_type, &bytes[0..INFO_FIELD_SIZE])?;
        let mut address_field = None;
        let app_data = if info_field.comm_model_mark() == 1 {
            let relay_level = info_field.relay_level();
            let len = (relay_level as usize + 2) * ADDR_LEN;
            if bytes.len() < INFO_FIELD_SIZE + len {
                return Err(Error::AddressFieldLength(bytes.len()));
            }
            address_field = Some(
                AddressField::from_bytes(&bytes[INFO_FIELD_SIZE..INFO_FIELD_SIZE + len]),
            );
            AppData::from_bytes(&bytes[INFO_FIELD_SIZE + len..bytes.len()])?
        } else {
            AppData::from_bytes(&bytes[INFO_FIELD_SIZE..bytes.len()])?
        };
        Ok(Self { info_field, address_field, app_data })
    }

    pub fn get_seq(&self) -> (s: u8)
        ensures
            s == self.info_field.spec_seq_num(),
    {
        self.info_field.seq_num()
    }

    /// Appends the wire form.
    pub fn push_bytes(&self, out: &mut Vec<u8>)
        ensures
            final(out)@ == old(out)@ + self.spec_bytes(),
    {
        let ghost start = out@;
        self.info_field.push_bytes(out);
        match &self.address_field {
            Some(a) => a.push_bytes(out),
            None => {},
        }
        self.app_data.push_bytes(out);
        assert(out@ =~= start + self.spec_bytes());
    }

    /// The wire form.
    pub fn to_bytes(&self) -> (v: Vec<u8>)
        ensures
            v@ == self.spec_bytes(),
    {
        let mut v = Vec::new();
        self.push_bytes(&mut v);
        assert(v@ =~= self.spec_bytes());
        v
    }
}

/// One `relay_address:` line per relay, in order.
pub open spec fn spec_relay_lines(relays: Seq<Address>) -> Seq<char>
    decreases relays.len(),
{
    if relays.len() == 0 {
        Seq::empty()
    } else {
        spec_relay_lines(relays.drop_last()) + "relay_address: "@ + spec_hex(relays.last().0@, false)
            + "\n"@
    }
}

impl AddressField {
    /// Source, relays and destination, one address a line.
    pub open spec fn spec_text(self) -> Seq<char> {
        "src_address: "@ + spec_hex(self.src_address.0@, false) + "\n"@ + spec_relay_lines(self.spec_relays())
            + "dst_address: "@ + spec_hex(self.dst_address.0@, false) + "\n"@
    }

    pub fn to_string(&self) -> (s: String)
        ensures
            s@ == self.spec_text(),
    {
        let mut s = String::new();
        push_str(&mut s, "src_address: ");
        push_str(&mut s, self.src_address.to_string().as_str());
        push_str(&mut s, "\n");
        let ghost head = s@;
        match &self.relay_address {
            Some(r) => {
                let mut i: usize = 0;
                while i < r.len()
                    invariant
                        i <= r@.len(),
                        s@ == head + spec_relay_lines(r@.take(i as int)),
                    decreases r.len() - i,
                {
                    push_str(&mut s, "relay_address: ");
                    push_str(&mut s, r[i].to_string().as_str());
                    push_str(&mut s, "\n");
                    proof {
                        assert(r@.take(i + 1).drop_last() =~= r@.take(i as int));
                    }
                    i = i + 1;
                }
                assert(r@.take(i as int) =~= r@);
            },
            None => {
                assert(spec_relay_lines(Seq::<Address>::empty()) =~= Seq::<char>::empty());
            },
        }
        push_str(&mut s, "dst_address: ");
        push_str(&mut s, self.dst_address.to_string().as_str());
        push_str(&mut s, "\n");
        assert(s@ =~= self.spec_text());
        s
    }
}

impl UserData {
    /// Information field, address field (when there is one) and application data,
    /// each under its name.
    pub open spec fn spec_text(self) -> Seq<char> {
        "info_field: \n"@ + self.info_field.spec_text() + "\n"@ + match self.address_field {
            Some(a) => "address_field: \n"@ + a.spec_text() + "\n"@,
            None => Seq::empty(),
        } + "app_data: \n"@ + self.app_data.spec_text() + "\n"@
    }

    pub fn to_string(&self) -> (s: String)
        ensures
            s@ == self.spec_text(),
    {
        let mut s = String::new();
        push_str(&mut s, "info_field: \n");
        push_str(&mut s, self.info_field.to_string().as_str());
        push_str(&mut s, "\n");
        match &self.address_field {
            Some(a) => {
                push_str(&mut s, "address_field: \n");
                push_str(&mut s, a.to_string().as_str());
                push_str(&mut s, "\n");
            },
            None => {},
        }
        push_str(&mut s, "app_data: \n");
        push_str(&mut s, self.app_data.to_string().as_str());
        push_str(&mut s, "\n");
        assert(s@ =~= self.spec_text());
        s
    }
}

proof fn lemma_addresses_wire_len(addrs: Seq<Address>)
    ensures
        spec_addresses_wire(addrs).len() == 6 * addrs.len(),
    decreases addrs.len(),
{
    if addrs.len() > 0 {
        lemma_addresses_wire_len(addrs.drop_last());
    }
}

} // verus!
