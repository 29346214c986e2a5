//! What reading gives back of writing, for whole frames.
use vstd::prelude::*;

use crate::bytes::{le16, le16_bytes};
use crate::protocol::app_data::{lemma_afn_code_roundtrip, lemma_fn_num_roundtrip, Address, AppData, DataFlag};
use crate::protocol::frame::{
    lemma_ctrl_roundtrip, spec_checksum, spec_scan_header, CtrlField, Dir, Frame, Prm, FRAME_SIZE, HEADER, HEADER_SIZE, TAIL,
};
use crate::protocol::info_field::{lemma_down_roundtrip, InfoField, InfoFieldType};
use crate::protocol::user_data::{spec_addresses_wire, spec_app_offset, AddressField, UserData};

verus! {

/// Two application data values with the same code, function number and data-unit
/// bytes (empty units and absent ones count alike: both write no byte).
pub open spec fn same_app_data(a: AppData, b: AppData) -> bool {
    &&& a.spec_afn() == b.spec_afn()
    &&& a.spec_fn_num() == b.spec_fn_num()
    &&& a.spec_units() == b.spec_units()
}

/// Two address fields that hold the same addresses.
pub open spec fn same_address_field(a: Option<AddressField>, b: Option<AddressField>) -> bool {
    match (a, b) {
        (None, None) => true,
        (Some(x), Some(y)) => {
            &&& x.src_address.wire() == y.src_address.wire()
            &&& x.dst_address.wire() == y.dst_address.wire()
            &&& (x.relay_address is Some <==> y.relay_address is Some)
            &&& spec_addresses_wire(x.spec_relays()) == spec_addresses_wire(y.spec_relays())
        },
        _ => false,
    }
}

/// Two frames that hold the same values, vectors compared by their contents.
pub open spec fn same_frame(a: Frame, b: Frame) -> bool {
    &&& a.header == b.header
    &&& a.ctrl_field == b.ctrl_field
    &&& same_user_data(a.user_data, b.user_data)
    &&& a.checksum == b.checksum
    &&& a.tail == b.tail
}

/// Two user data values with the same information field, addresses and application data.
pub open spec fn same_user_data(a: UserData, b: UserData) -> bool {
    &&& a.info_field == b.info_field
    &&& same_address_field(a.address_field, b.address_field)
    &&& same_app_data(a.app_data, b.app_data)
}

/// Whether application data and an address field make user data that a reader can
/// take apart again: the address field is there exactly when the function code
/// calls for one, a relay list it holds is not empty (an empty one reads back as
/// absent) and has at most fifteen relays (the relay level has four bits), and the
/// flag names a function number.
pub open spec fn spec_round_trips(address_field: Option<AddressField>, app_data: AppData) -> bool {
    &&& (address_field is Some <==> app_data.spec_comm_mark() == 1)
    &&& (address_field matches Some(a) ==> (a.relay_address matches Some(r) ==> 1 <= r@.len() <= 15))
    &&& app_data.spec_data_flag().has_fn_num()
}

proof fn lemma_le16_roundtrip(v: u16)
    ensures
        le16(le16_bytes(v)[0], le16_bytes(v)[1]) == v,
{
}

/// The wire length of an address field: six bytes per address.
pub proof fn lemma_address_field_len(a: AddressField)
    ensures
        a.spec_bytes().len() == 12 + 6 * a.spec_relays().len(),
{
    lemma_addresses_wire_len(a.spec_relays());
}

/// Six wire bytes per address.
pub proof fn lemma_addresses_wire_len(addrs: Seq<Address>)
    ensures
        spec_addresses_wire(addrs).len() == 6 * addrs.len(),
    decreases addrs.len(),
{
    if addrs.len() > 0 {
        lemma_addresses_wire_len(addrs.drop_last());
    }
}

/// The `i`-th address of a list travels in the six wire bytes from `6 * i`.
pub proof fn lemma_addresses_wire_at(addrs: Seq<Address>, i: int)
    requires
        0 <= i < addrs.len(),
    ensures
        spec_addresses_wire(addrs).subrange(6 * i, 6 * i + 6) == addrs[i].wire(),
    decreases addrs.len(),
{
    let front = addrs.drop_last();
    lemma_addresses_wire_len(front);
    let w = spec_addresses_wire(addrs);
    assert(w == spec_addresses_wire(front) + addrs.last().wire());
    if i < addrs.len() - 1 {
        lemma_addresses_wire_at(front, i);
        assert(w.subrange(6 * i, 6 * i + 6) =~= spec_addresses_wire(front).subrange(6 * i, 6 * i + 6));
    } else {
        assert(w.subrange(6 * i, 6 * i + 6) =~= addrs.last().wire());
    }
}

/// Address lists whose addresses travel as the same bytes have the same wire form.
proof fn lemma_addresses_wire_same(a: Seq<Address>, b: Seq<Address>)
    requires
        a.len() == b.len(),
        forall|i: int| 0 <= i < a.len() ==> #[trigger] a[i].wire() == b[i].wire(),
    ensures
        spec_addresses_wire(a) == spec_addresses_wire(b),
    decreases a.len(),
{
    if a.len() > 0 {
        let (fa, fb) = (a.drop_last(), b.drop_last());
        assert forall|i: int| 0 <= i < fa.len() implies #[trigger] fa[i].wire() == fb[i].wire() by {
            assert(a[i].wire() == b[i].wire());
        }
        lemma_addresses_wire_same(fa, fb);
        assert(a[a.len() - 1].wire() == b[b.len() - 1].wire());
    }
}

/// The wire length of user data: six bytes of information field, six per address
/// when there is an address field, three bytes of function code and flag, and the
/// data units.
pub proof fn law_user_data_len(u: UserData)
    ensures
        u.spec_bytes().len() == 6 + match u.address_field {
            Some(a) => 6 * (2 + a.spec_relays().len()),
            None => 0,
        } + 3 + u.app_data.spec_units().len(),
{
    assert(u.info_field.spec_bytes().len() == 6);
    match u.address_field {
        Some(a) => lemma_address_field_len(a),
        None => {},
    }
}

/// Application data is read back from its own bytes: the reader does not stop on
/// them, meets no error, and yields the same code, function number and data units.
pub proof fn law_app_data_roundtrip(app_data: AppData)
    requires
        app_data.spec_data_flag().has_fn_num(),
    ensures
        !AppData::spec_decode_fails_flag(app_data.spec_bytes()),
        AppData::spec_decode_error(app_data.spec_bytes()) is None,
        forall|g: AppData| #[trigger] g.spec_decoded_from(app_data.spec_bytes()) ==> same_app_data(g, app_data),
{
    let ab = app_data.spec_bytes();
    lemma_afn_code_roundtrip(app_data.spec_afn());
    assert(ab[0] == app_data.spec_afn().spec_code());
    assert(DataFlag { type_: ab[2], mark: ab[1] } == app_data.spec_data_flag());
    assert(ab.skip(3) =~= app_data.spec_units());
    assert forall|g: AppData| #[trigger] g.spec_decoded_from(ab) implies same_app_data(g, app_data) by {
        let n = app_data.spec_fn_num() as u8;
        assert(g.spec_data_flag() == DataFlag::spec_for_fn_num(n));
        lemma_fn_num_roundtrip(n);
        if ab.len() == 3 {
            assert(app_data.spec_units() =~= g.spec_units());
        }
    }
}

/// Downlink user data, built as requests and responses build it, is read back
/// from its own bytes: the reader does not stop on them, meets no error, and
/// yields the same information field (sequence number included), addresses and
/// application data.
pub proof fn law_user_data_roundtrip(seq: u8, address_field: Option<AddressField>, app_data: AppData)
    requires
        spec_round_trips(address_field, app_data),
    ensures
        ({
            let ud = UserData::spec_new(seq, address_field, app_data);
            let ub = ud.spec_bytes();
            &&& ub.len() >= 9
            &&& ud.info_field.spec_seq_num() == seq
            &&& !UserData::spec_decode_fails_flag(InfoFieldType::Down, ub)
            &&& UserData::spec_decode_error(InfoFieldType::Down, ub) is None
            &&& forall|r: UserData| #[trigger] r.spec_decoded_from(InfoFieldType::Down, ub) ==> same_user_data(r, ud)
        }),
{
    let ud = UserData::spec_new(seq, address_field, app_data);
    let ub = ud.spec_bytes();
    let ab = app_data.spec_bytes();
    let d = match ud.info_field {
        InfoField::Down(d) => d,
        InfoField::Up(_) => arbitrary(),
    };
    let addr_bytes = match address_field {
        Some(a) => a.spec_bytes(),
        None => Seq::<u8>::empty(),
    };
    assert(ud.info_field.spec_bytes().len() == 6);
    assert(ub =~= d.spec_bytes() + addr_bytes + ab);
    // information field
    assert(d.fits());
    lemma_down_roundtrip(d);
    assert(ub.subrange(0, 6) =~= d.spec_bytes());
    let info = InfoField::spec_from(InfoFieldType::Down, ub.subrange(0, 6));
    assert(info == ud.info_field);
    // where the application data starts
    let off = spec_app_offset(InfoFieldType::Down, ub);
    match address_field {
        Some(a) => {
            lemma_address_field_len(a);
            assert(off == 6 + a.spec_bytes().len());
        },
        None => {
            assert(off == 6);
        },
    }
    assert(ub.skip(off) =~= ab);
    assert(ub.subrange(6, off) =~= addr_bytes);
    // application data
    law_app_data_roundtrip(app_data);
    assert forall|r: UserData| #[trigger] r.spec_decoded_from(InfoFieldType::Down, ub) implies same_user_data(r, ud) by {
        assert(r.app_data.spec_decoded_from(ab));
        match address_field {
            Some(a) => {
                let ra = r.address_field->0;
                let b = ub.subrange(6, off);
                assert(b =~= a.spec_bytes());
                assert(b.subrange(0, 6) =~= a.src_address.wire());
                assert(b.subrange(b.len() - 6, b.len() as int) =~= a.dst_address.wire());
                let rs = a.spec_relays();
                lemma_addresses_wire_len(rs);
                match a.relay_address {
                    Some(_) => {
                        assert(b.len() > 12);
                        assert((b.len() - 12) / 6 == rs.len());
                        let gs = ra.spec_relays();
                        assert forall|i: int| 0 <= i < gs.len() implies #[trigger] gs[i].wire() == rs[i].wire() by {
                            lemma_addresses_wire_at(rs, i);
                            assert(gs[i].wire() == b.subrange(6 + 6 * i, 12 + 6 * i));
                            assert(b.subrange(6 + 6 * i, 12 + 6 * i) =~= spec_addresses_wire(rs).subrange(6 * i, 6 * i + 6));
                        }
                        lemma_addresses_wire_same(gs, rs);
                    },
                    None => {
                        assert(b.len() == 12);
                        assert(spec_addresses_wire(rs) =~= Seq::<u8>::empty());
                        assert(ra.spec_relays() =~= Seq::<Address>::empty());
                    },
                }
                assert(same_address_field(r.address_field, address_field));
            },
            None => {},
        }
    }
}

/// The bytes of a downlink frame as requests and responses are built: the start
/// byte, the frame's length in the two-byte length field (while it fits sixteen
/// bits), control byte 0x03 for a response and 0x43 for a request, the user data,
/// the checksum of control byte and user data, and the end byte.
pub proof fn law_frame_layout(is_response: bool, seq: u8, address_field: Option<AddressField>, app_data: AppData)
    ensures
        ({
            let ud = UserData::spec_new(seq, address_field, app_data);
            let b = Frame::spec_assembled(CtrlField::spec_new(is_response), ud).spec_bytes();
            let n = b.len();
            &&& n == 6 + ud.spec_bytes().len()
            &&& b[0] == 0x68
            &&& (n <= 0xffff ==> le16(b[1], b[2]) == n)
            &&& b[3] == (if is_response { 0x03u8 } else { 0x43u8 })
            &&& b.subrange(4, n - 2) == ud.spec_bytes()
            &&& b[n - 2] == spec_checksum(b.subrange(3, n - 2))
            &&& b[n - 1] == 0x16
            &&& ud.info_field.spec_seq_num() == seq
        }),
{
    let ctrl = CtrlField::spec_new(is_response);
    let ud = UserData::spec_new(seq, address_field, app_data);
    let f = Frame::spec_assembled(ctrl, ud);
    let b = f.spec_bytes();
    let ub = ud.spec_bytes();
    let n = b.len();
    assert(b =~= f.header.spec_bytes() + seq![ctrl.spec_byte()] + ub + seq![f.checksum.checksum, TAIL]);
    assert(b.subrange(4, n - 2) =~= ub);
    assert(b.subrange(3, n - 2) =~= seq![ctrl.spec_byte()] + ub);
    lemma_le16_roundtrip(f.header.length);
}

/// An address field without relays adds exactly twelve bytes to user data.
pub proof fn law_address_field_adds_twelve(seq: u8, address_field: AddressField, app_data: AppData)
    requires
        address_field.relay_address is None,
    ensures
        UserData::spec_new(seq, Some(address_field), app_data).spec_bytes().len()
            == UserData::spec_new(seq, None, app_data).spec_bytes().len() + 12,
{
    law_user_data_len(UserData::spec_new(seq, Some(address_field), app_data));
    law_user_data_len(UserData::spec_new(seq, None, app_data));
}

/// Two requests built one after the other carry consecutive sequence numbers
/// (wrapping after 255), so different ones; each is a master's downlink request,
/// written with control byte 0x43, and carries the application data it was given.
pub proof fn law_successive_requests(
    next: u8,
    address_field1: Option<AddressField>,
    app_data1: AppData,
    address_field2: Option<AddressField>,
    app_data2: AppData,
)
    ensures
        ({
            let after: u8 = if next == 255 { 0 } else { (next + 1) as u8 };
            let f1 = Frame::spec_assembled(CtrlField::spec_new(false), UserData::spec_new(next, address_field1, app_data1));
            let f2 = Frame::spec_assembled(CtrlField::spec_new(false), UserData::spec_new(after, address_field2, app_data2));
            &&& f2.user_data.info_field.spec_seq_num() == (f1.user_data.info_field.spec_seq_num() + 1) % 256
            &&& f1.user_data.info_field.spec_seq_num() != f2.user_data.info_field.spec_seq_num()
            &&& f1.ctrl_field.spec_byte() == 0x43 && f2.ctrl_field.spec_byte() == 0x43
            &&& f1.ctrl_field.dir == Dir::Down && f1.ctrl_field.prm == Prm::Master
            &&& f2.ctrl_field.dir == Dir::Down && f2.ctrl_field.prm == Prm::Master
            &&& f1.user_data.app_data == app_data1 && f2.user_data.app_data == app_data2
        }),
{
}

/// A downlink frame, built as requests and responses are built, is read back from
/// its own bytes: the reader does not stop on them, meets no error, and yields a
/// frame with the same values.
pub proof fn law_frame_roundtrip(is_response: bool, seq: u8, address_field: Option<AddressField>, app_data: AppData)
    requires
        spec_round_trips(address_field, app_data),
    ensures
        ({
            let f = Frame::spec_assembled(
                CtrlField::spec_new(is_response),
                UserData::spec_new(seq, address_field, app_data),
            );
            &&& !Frame::spec_decode_panics(f.spec_bytes())
            &&& Frame::spec_decode_error(f.spec_bytes()) is None
            &&& forall|g: Frame| #[trigger] g.spec_decoded_from(f.spec_bytes()) ==> same_frame(g, f)
        }),
{
    let ctrl = CtrlField::spec_new(is_response);
    let ud = UserData::spec_new(seq, address_field, app_data);
    let f = Frame::spec_assembled(ctrl, ud);
    let bytes = f.spec_bytes();
    let ub = ud.spec_bytes();
    let len = bytes.len();
    law_user_data_roundtrip(seq, address_field, app_data);
    law_frame_layout(is_response, seq, address_field, app_data);
    assert(bytes =~= f.header.spec_bytes() + seq![ctrl.spec_byte()] + ub + seq![f.checksum.checksum, TAIL]);
    assert(bytes.subrange(4, len - 2) =~= ub);
    assert(bytes.subrange(3, len - 2) =~= seq![ctrl.spec_byte()] + ub);
    lemma_le16_roundtrip(f.header.length);
    assert(le16(bytes[1], bytes[2]) == f.header.length);
    assert(f.header.length <= len);
    lemma_ctrl_roundtrip(ctrl);
    assert(bytes[3] == ctrl.spec_byte());
    assert(ctrl.spec_info_field_type() == InfoFieldType::Down);
    assert(len >= 12);
    assert forall|g: Frame| #[trigger] g.spec_decoded_from(bytes) implies same_frame(g, f) by {
        assert(g.user_data.spec_decoded_from(InfoFieldType::Down, ub));
    }
}

/// Frames with the same values and the same flag are written as the same bytes.
proof fn lemma_same_frame_bytes(g: Frame, f: Frame)
    requires
        same_frame(g, f),
        g.user_data.app_data.spec_data_flag() == f.user_data.app_data.spec_data_flag(),
    ensures
        g.spec_bytes() == f.spec_bytes(),
{
    let (gu, fu) = (g.user_data, f.user_data);
    assert(gu.app_data.spec_bytes() =~= fu.app_data.spec_bytes());
    match (gu.address_field, fu.address_field) {
        (Some(x), Some(y)) => {
            assert(x.spec_bytes() =~= y.spec_bytes());
        },
        _ => {},
    }
    assert(gu.spec_bytes() =~= fu.spec_bytes());
    assert(g.spec_bytes() =~= f.spec_bytes());
}

/// A frame built with the flag of its function number (as application data is
/// built) reads back as a frame that is written as the very same bytes.
pub proof fn law_frame_bytes_roundtrip(is_response: bool, seq: u8, address_field: Option<AddressField>, app_data: AppData)
    requires
        spec_round_trips(address_field, app_data),
        app_data.spec_data_flag() == DataFlag::spec_for_fn_num(app_data.spec_fn_num() as u8),
    ensures
        ({
            let f = Frame::spec_assembled(
                CtrlField::spec_new(is_response),
                UserData::spec_new(seq, address_field, app_data),
            );
            forall|g: Frame| #[trigger] g.spec_decoded_from(f.spec_bytes()) ==> g.spec_bytes() == f.spec_bytes()
        }),
{
    let ctrl = CtrlField::spec_new(is_response);
    let f = Frame::spec_assembled(ctrl, UserData::spec_new(seq, address_field, app_data));
    let bytes = f.spec_bytes();
    law_frame_roundtrip(is_response, seq, address_field, app_data);
    lemma_le16_roundtrip(f.header.length);
    lemma_ctrl_roundtrip(ctrl);
    assert(bytes =~= f.header.spec_bytes() + seq![ctrl.spec_byte()] + f.user_data.spec_bytes() + seq![
        f.checksum.checksum,
        TAIL,
    ]);
    assert forall|g: Frame| #[trigger] g.spec_decoded_from(bytes) implies g.spec_bytes() == f.spec_bytes() by {
        assert(same_frame(g, f));
        assert(g.user_data.app_data.spec_data_flag() == app_data.spec_data_flag());
        lemma_same_frame_bytes(g, f);
    }
}

/// A frame written to the serial stream is taken back out of it: when the bytes
/// read so far start with a frame built as requests and responses are built (and
/// short enough for its length field), the reader finds it at the start, takes
/// exactly its bytes, meets no error, and keeps what follows.
pub proof fn law_stream_frame(
    is_response: bool,
    seq: u8,
    address_field: Option<AddressField>,
    app_data: AppData,
    rest: Seq<u8>,
)
    requires
        spec_round_trips(address_field, app_data),
        Frame::spec_assembled(
            CtrlField::spec_new(is_response),
            UserData::spec_new(seq, address_field, app_data),
        ).spec_bytes().len() <= 0xffff,
    ensures
        ({
            let f = Frame::spec_assembled(
                CtrlField::spec_new(is_response),
                UserData::spec_new(seq, address_field, app_data),
            );
            let bytes = f.spec_bytes();
            let buf = bytes + rest;
            let length = le16(buf[1], buf[2]) as int;
            &&& spec_scan_header(buf, 0) == 0
            &&& buf.len() >= HEADER_SIZE && buf.len() >= length
            &&& length == bytes.len()
            &&& buf.subrange(0, length) == bytes
            &&& buf.skip(length) == rest
            &&& !Frame::spec_parse_panics(buf, 0)
            &&& Frame::spec_decode_error(buf.subrange(0, length)) is None
            &&& forall|g: Frame| #[trigger] g.spec_decoded_from(buf.subrange(0, length)) ==> same_frame(g, f)
        }),
{
    let ctrl = CtrlField::spec_new(is_response);
    let ud = UserData::spec_new(seq, address_field, app_data);
    let f = Frame::spec_assembled(ctrl, ud);
    let bytes = f.spec_bytes();
    let buf = bytes + rest;
    law_frame_roundtrip(is_response, seq, address_field, app_data);
    let ub = ud.spec_bytes();
    assert(bytes =~= f.header.spec_bytes() + seq![ctrl.spec_byte()] + ub + seq![f.checksum.checksum, TAIL]);
    assert(bytes.len() == FRAME_SIZE + ub.len());
    assert(buf[0] == HEADER);
    assert(spec_scan_header(buf, 0) == 0);
    lemma_le16_roundtrip(f.header.length);
    assert(buf[1] == bytes[1] && buf[2] == bytes[2]);
    assert(le16(buf[1], buf[2]) == f.header.length);
    assert(f.header.length == bytes.len());
    assert(buf.subrange(0, bytes.len() as int) =~= bytes);
    assert(buf.skip(bytes.len() as int) =~= rest);
}

} // verus!
