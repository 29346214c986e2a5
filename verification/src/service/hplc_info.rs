//! Network information that takes several pages: the next page to ask for, and
//! when the pages gathered are all there are.
use vstd::prelude::*;

use crate::error::{Error, MqttResponseError};
use crate::json_text::{push_json_str, push_number_member, push_str_member, spec_json_str, spec_member};
use crate::mqtt_message::{timestamp, MqttMessage};
use crate::text::{spec_decimal, spec_hex};
use crate::protocol::app_data::route_get::{
    spec_slave_module_id_check, spec_slave_readable, ChipInfoRequest, ChipInfoResponse, ChipInformation,
    IdInfoResponse, MultipleNetRequest, MultipleNetResponse, NetTopologyInfo, NetTopologyRequest,
    NetTopologyResponse, QueryNodeLineInfoResponse, SlaveModuleIdResponse,
};
use crate::protocol::app_data::{Afn, AppData};
use crate::protocol::frame::FrameSeq;
use crate::request_info::{MqttReqInfo, UartMessage};
use crate::service::parse_response::{
    mqtt_info_request_uart_handler, mqtt_request_uart_handler, mqtt_response_message, spec_deny, spec_is_deny,
    spec_outcome_status, UartResponse,
};
use crate::mqtt_message::status_payload_text;

verus! {

/// Nodes asked for per page.
pub const QUERY_NODE_NUMBER: u8 = 10;

/// A node's chip as reported on MQTT: its number in the network, address,
/// device type, chip identifier and software version as text.
#[derive(Debug, Clone, PartialEq, Eq)]
pub struct MqttChipInfo {
    pub node_sn: u16,
    pub node_addr: String,
    pub dev_type: u8,
    pub chip_id: String,
    pub chip_soft_ver: String,
}

/// Whether `r` reports the `i`-th chip `c` of a page that starts at `start`.
pub open spec fn spec_reports_chip(r: MqttChipInfo, start: u16, i: int, c: ChipInformation) -> bool {
    &&& r.node_sn == ((start + i) % 65536) as u16
    &&& r.node_addr@ == crate::text::spec_hex(c.address.0@, false)
    &&& r.dev_type == c.device_type
    &&& r.chip_id@ == crate::text::spec_hex(c.id_info@, false)
    &&& r.chip_soft_ver@ == c.software_version@
}

impl MqttChipInfo {
    /// The chips of a page as reported on MQTT, in order.
    pub fn from_page(page: &ChipInfoResponse) -> (r: Vec<MqttChipInfo>)
        ensures
            r@.len() == page.chip_infos@.len(),
            forall|i: int|
                0 <= i < r@.len() ==> spec_reports_chip(#[trigger] r@[i], page.start_seq, i, page.chip_infos@[i]),
    {
        let mut r: Vec<MqttChipInfo> = Vec::new();
        let mut i: usize = 0;
        let n = page.chip_infos.len();
        while i < n
            invariant
                n == page.chip_infos@.len(),
                i <= n,
                r@.len() == i,
                forall|j: int|
                    0 <= j < i ==> spec_reports_chip(#[trigger] r@[j], page.start_seq, j, page.chip_infos@[j]),
            decreases n - i,
        {
            let c = &page.chip_infos[i];
            let k: u32 = (i % 65536) as u32;
            let sn = ((page.start_seq as u32 + k) % 65536) as u16;
            proof {
                let a = page.start_seq as int;
                let b = i as int;
                assert((a + (b % 65536)) % 65536 == (a + b) % 65536) by (nonlinear_arith)
                    requires b >= 0, a >= 0;
                assert(sn == ((page.start_seq + i) % 65536) as u16);
            }
            let ghost before = r@;
            r.push(MqttChipInfo {
                node_sn: sn,
                node_addr: c.address.to_string(),
                dev_type: c.device_type,
                chip_id: crate::text::hex_encode(c.id_info.as_slice()),
                chip_soft_ver: crate::text::owned(c.software_version.as_str()),
            });
            proof {
                assert forall|j: int| 0 <= j < i + 1 implies spec_reports_chip(
                    #[trigger] r@[j],
                    page.start_seq,
                    j,
                    page.chip_infos@[j],
                ) by {
                    if j < i {
                        assert(r@[j] == before[j]);
                    }
                }
            }
            i = i + 1;
        }
        r
    }
}

/// The network topology gathered so far, page by page.
#[derive(Debug, Clone, PartialEq, Eq)]
pub struct MqttNetTopologyInfoResponse {
    pub total_number: u16,
    pub net_topology_infos: Vec<NetTopologyInfo>,
}

impl MqttNetTopologyInfoResponse {
    /// Nothing gathered yet.
    pub fn new() -> (r: Self)
        ensures
            r.total_number == 0,
            r.net_topology_infos@.len() == 0,
    {
        MqttNetTopologyInfoResponse { total_number: 0, net_topology_infos: Vec::new() }
    }

    /// Nodes gathered (as a 16-bit count).
    pub fn item_number(&self) -> (n: u16)
        ensures
            n == self.net_topology_infos@.len() as u16,
    {
        self.net_topology_infos.len() as u16
    }

    pub fn total_number(&self) -> (n: u16)
        ensures
            n == self.total_number,
    {
        self.total_number
    }

    /// The next page: from the node after those gathered (nodes count from one),
    /// ten nodes.
    pub fn next_request(&self) -> (r: NetTopologyRequest)
        requires
            (self.net_topology_infos@.len() as u16) < u16::MAX,
        ensures
            r.start_seq == 1 + (self.net_topology_infos@.len() as u16),
            r.node_number == QUERY_NODE_NUMBER,
    {
        NetTopologyRequest::new(1 + self.item_number(), QUERY_NODE_NUMBER)
    }

    /// Adds a page; the result says whether the gathering is over: the page was
    /// empty, or as many nodes are in as the network has.
    pub fn extend(&mut self, page: NetTopologyResponse) -> (done: bool)
        ensures
            final(self).net_topology_infos@ == old(self).net_topology_infos@ + page.net_topology_infos@,
            final(self).total_number == page.total_node_number,
            done == (page.net_topology_infos@.len() as u16 == 0 || final(self).net_topology_infos@.len() as u16
                >= page.total_node_number),
    {
        let number = page.net_topology_infos.len() as u16;
        let NetTopologyResponse { total_node_number, start_index, node_number, net_topology_infos } = page;
        let mut infos = net_topology_infos;
        let ghost before = self.net_topology_infos@;
        let ghost added = infos@;
        self.net_topology_infos.append(&mut infos);
        assert(self.net_topology_infos@ =~= before + added);
        self.total_number = total_node_number;
        number == 0 || self.item_number() >= self.total_number
    }
}

/// A node of the topology as an answer lists it: address, node flag, proxy flag,
/// level and role.
pub open spec fn spec_topology_item(i: NetTopologyInfo) -> Seq<char> {
    seq!['{'] + spec_member("nodeAddr"@, spec_json_str(spec_hex(i.address.0@, false))) + seq![',']
        + spec_member("nodeFlag"@, spec_decimal(i.node_flag as nat)) + seq![',']
        + spec_member("proxyNodeFlag"@, spec_decimal(i.proxy_node_flag as nat)) + seq![',']
        + spec_member("nodeLevel"@, spec_decimal(i.node_level as nat)) + seq![',']
        + spec_member("nodeRole"@, spec_decimal(i.node_role as nat)) + seq!['}']
}

/// The nodes one after another, separated by commas.
pub open spec fn spec_topology_items(items: Seq<NetTopologyInfo>) -> Seq<char>
    decreases items.len(),
{
    if items.len() == 0 {
        Seq::empty()
    } else if items.len() == 1 {
        spec_topology_item(items[0])
    } else {
        spec_topology_items(items.drop_last()) + seq![','] + spec_topology_item(items.last())
    }
}

/// The answer to a topology query: token, time, `OK`, the network's size, and the
/// nodes gathered under `body`.
pub open spec fn spec_topology_reply_text(
    token: Seq<char>,
    ts: Seq<char>,
    total: u16,
    items: Seq<NetTopologyInfo>,
) -> Seq<char> {
    seq!['{'] + spec_member("token"@, spec_json_str(token)) + seq![','] + spec_member(
        "timestamp"@,
        spec_json_str(ts),
    ) + seq![','] + spec_member("status"@, spec_json_str("OK"@)) + seq![','] + spec_member(
        "reason"@,
        spec_json_str("OK"@),
    ) + seq![','] + spec_member("totalNumber"@, spec_decimal(total as nat)) + seq![','] + spec_member(
        "body"@,
        seq!['['] + spec_topology_items(items) + seq![']'],
    ) + seq!['}']
}

fn push_topology_item(out: &mut String, i: &NetTopologyInfo)
    ensures
        final(out)@ == old(out)@ + spec_topology_item(*i),
{
    let ghost start = out@;
    crate::text::push_char(out, '{');
    let addr = i.address.to_string();
    push_str_member(out, "nodeAddr", addr.as_str());
    crate::text::push_char(out, ',');
    push_number_member(out, "nodeFlag", i.node_flag as u64);
    crate::text::push_char(out, ',');
    push_number_member(out, "proxyNodeFlag", i.proxy_node_flag as u64);
    crate::text::push_char(out, ',');
    push_number_member(out, "nodeLevel", i.node_level as u64);
    crate::text::push_char(out, ',');
    push_number_member(out, "nodeRole", i.node_role as u64);
    crate::text::push_char(out, '}');
    assert(out@ =~= start + spec_topology_item(*i));
}

/// The final answer to a topology query, with everything gathered.
pub fn topology_reply<T>(gathered: &MqttNetTopologyInfoResponse, info: MqttReqInfo<T>) -> (m: MqttMessage)
    ensures
        m.topic == info.topic,
        exists|ts: Seq<char>|
            m.payload@ == spec_topology_reply_text(
                info.token@,
                ts,
                gathered.total_number,
                gathered.net_topology_infos@,
            ),
{
    let ts = timestamp();
    let mut out = String::new();
    let ghost start = out@;
    crate::text::push_char(&mut out, '{');
    push_str_member(&mut out, "token", info.token.as_str());
    crate::text::push_char(&mut out, ',');
    push_str_member(&mut out, "timestamp", ts.as_str());
    crate::text::push_char(&mut out, ',');
    push_str_member(&mut out, "status", "OK");
    crate::text::push_char(&mut out, ',');
    push_str_member(&mut out, "reason", "OK");
    crate::text::push_char(&mut out, ',');
    push_number_member(&mut out, "totalNumber", gathered.total_number as u64);
    crate::text::push_char(&mut out, ',');
    push_json_str(&mut out, "body");
    crate::text::push_char(&mut out, ':');
    crate::text::push_char(&mut out, '[');
    let ghost head = out@;
    let items = &gathered.net_topology_infos;
    let mut k: usize = 0;
    while k < items.len()
        invariant
            k <= items@.len(),
            out@ == head + spec_topology_items(items@.take(k as int)),
        decreases items.len() - k,
    {
        let ghost before = out@;
        if k > 0 {
            crate::text::push_char(&mut out, ',');
        }
        push_topology_item(&mut out, &items[k]);
        proof {
            let t = items@.take(k + 1);
            assert(t.drop_last() =~= items@.take(k as int));
            assert(t.last() == items@[k as int]);
            if k == 0 {
                assert(t.len() == 1);
                assert(t[0] == items@[0]);
            }
        }
        k = k + 1;
    }
    assert(items@.take(k as int) =~= items@);
    crate::text::push_char(&mut out, ']');
    crate::text::push_char(&mut out, '}');
    proof {
        reveal_strlit("OK");
    }
    assert(out@ =~= spec_topology_reply_text(info.token@, ts@, gathered.total_number, gathered.net_topology_infos@));
    MqttMessage { topic: info.topic, payload: out }
}

/// Whether a page ends the gathering: it was empty, or with it as many nodes are
/// in as the network has (counts taken to sixteen bits).
pub open spec fn spec_topology_done(gathered: Seq<NetTopologyInfo>, page: NetTopologyResponse) -> bool {
    page.net_topology_infos@.len() as u16 == 0 || (gathered.len() + page.net_topology_infos@.len()) as u16
        >= page.total_node_number
}

/// A topology query when a page's answer arrives: a failure is answered at once
/// and ends the query; a page is added, after which either the query goes on
/// (`None`: the next page is asked for) or it is over and the final answer is
/// given.
pub fn topology_step<T>(
    gathered: &mut MqttNetTopologyInfoResponse,
    answer: Result<NetTopologyResponse, Error>,
    info: MqttReqInfo<T>,
) -> (r: Option<MqttMessage>)
    ensures
        match answer {
            Err(e) => {
                &&& *final(gathered) == *old(gathered)
                &&& r matches Some(m)
                &&& m.topic == info.topic
                &&& exists|ts: Seq<char>|
                    m.payload@ == status_payload_text(
                        info.token@,
                        ts,
                        spec_outcome_status(Err(e)).0,
                        spec_outcome_status(Err(e)).1,
                    )
            },
            Ok(page) => {
                &&& final(gathered).net_topology_infos@ == old(gathered).net_topology_infos@
                    + page.net_topology_infos@
                &&& final(gathered).total_number == page.total_node_number
                &&& spec_topology_done(old(gathered).net_topology_infos@, page) ==> (r matches Some(m)
                    && m.topic == info.topic && exists|ts: Seq<char>|
                    m.payload@ == spec_topology_reply_text(
                        info.token@,
                        ts,
                        final(gathered).total_number,
                        final(gathered).net_topology_infos@,
                    ))
                &&& !spec_topology_done(old(gathered).net_topology_infos@, page) ==> r is None
            },
        },
{
    match answer {
        Err(e) => Some(mqtt_response_message(Err(e), info)),
        Ok(page) => {
            let done = gathered.extend(page);
            if done {
                Some(topology_reply(gathered, info))
            } else {
                None
            }
        },
    }
}

/// Whether a JSON object text carries the member `key` with the value text
/// `value`: the member stands whole between the object's delimiters.
pub open spec fn spec_carries(text: Seq<char>, key: Seq<char>, value: Seq<char>) -> bool {
    exists|p: Seq<char>, q: Seq<char>|
        {
            &&& #[trigger] (p + spec_member(key, value) + q) == text
            &&& p.len() > 0 && (p.last() == '{' || p.last() == ',')
            &&& q.len() > 0 && (q[0] == ',' || q[0] == '}')
        }
}

/// Each node of a topology answer carries its own values: its address as
/// lowercase hexadecimal under `nodeAddr`, and under `nodeFlag`, `proxyNodeFlag`,
/// `nodeLevel` and `nodeRole` the decimals of its node flag, proxy flag, level and
/// role.
pub proof fn law_topology_item_fields(i: NetTopologyInfo)
    ensures
        spec_carries(spec_topology_item(i), "nodeAddr"@, spec_json_str(spec_hex(i.address.0@, false))),
        spec_carries(spec_topology_item(i), "nodeFlag"@, spec_decimal(i.node_flag as nat)),
        spec_carries(spec_topology_item(i), "proxyNodeFlag"@, spec_decimal(i.proxy_node_flag as nat)),
        spec_carries(spec_topology_item(i), "nodeLevel"@, spec_decimal(i.node_level as nat)),
        spec_carries(spec_topology_item(i), "nodeRole"@, spec_decimal(i.node_role as nat)),
{
    let m0 = spec_member("nodeAddr"@, spec_json_str(spec_hex(i.address.0@, false)));
    let m1 = spec_member("nodeFlag"@, spec_decimal(i.node_flag as nat));
    let m2 = spec_member("proxyNodeFlag"@, spec_decimal(i.proxy_node_flag as nat));
    let m3 = spec_member("nodeLevel"@, spec_decimal(i.node_level as nat));
    let m4 = spec_member("nodeRole"@, spec_decimal(i.node_role as nat));
    let t = spec_topology_item(i);
    let (o, c, e) = (seq!['{'], seq![','], seq!['}']);
    assert(t =~= o + m0 + (c + m1 + c + m2 + c + m3 + c + m4 + e));
    assert(t =~= (o + m0 + c) + m1 + (c + m2 + c + m3 + c + m4 + e));
    assert(t =~= (o + m0 + c + m1 + c) + m2 + (c + m3 + c + m4 + e));
    assert(t =~= (o + m0 + c + m1 + c + m2 + c) + m3 + (c + m4 + e));
    assert(t =~= (o + m0 + c + m1 + c + m2 + c + m3 + c) + m4 + e);
}

/// Each node gathered stands whole in the list of a topology answer.
pub proof fn lemma_topology_items_hold(items: Seq<NetTopologyInfo>, k: int)
    requires
        0 <= k < items.len(),
    ensures
        exists|p: Seq<char>, q: Seq<char>| #[trigger] (p + spec_topology_item(items[k]) + q) == spec_topology_items(items),
    decreases items.len(),
{
    let t = spec_topology_items(items);
    if items.len() == 1 {
        assert(Seq::<char>::empty() + spec_topology_item(items[k]) + Seq::<char>::empty() =~= t);
    } else if k == items.len() - 1 {
        let p = spec_topology_items(items.drop_last()) + seq![','];
        assert(p + spec_topology_item(items[k]) + Seq::<char>::empty() =~= t);
    } else {
        let d = items.drop_last();
        lemma_topology_items_hold(d, k);
        let (p, q) = choose|p: Seq<char>, q: Seq<char>| #[trigger] (p + spec_topology_item(d[k]) + q) == spec_topology_items(d);
        assert(d[k] == items[k]);
        let q2 = q + seq![','] + spec_topology_item(items.last());
        assert(p + spec_topology_item(items[k]) + q2 =~= t);
    }
}

/// A topology answer carries the request's token, the network's size and every
/// node gathered, each node whole in it.
#[verifier::rlimit(50)]
pub proof fn law_topology_reply_holds_every_node(
    token: Seq<char>,
    ts: Seq<char>,
    total: u16,
    items: Seq<NetTopologyInfo>,
    k: int,
)
    requires
        0 <= k < items.len(),
    ensures
        spec_carries(spec_topology_reply_text(token, ts, total, items), "token"@, spec_json_str(token)),
        spec_carries(spec_topology_reply_text(token, ts, total, items), "totalNumber"@, spec_decimal(total as nat)),
        exists|p: Seq<char>, q: Seq<char>|
            #[trigger] (p + spec_topology_item(items[k]) + q) == spec_topology_reply_text(token, ts, total, items),
{
    let r = spec_topology_reply_text(token, ts, total, items);
    let (o, c, e) = (seq!['{'], seq![','], seq!['}']);
    let mt = spec_member("token"@, spec_json_str(token));
    let ms = spec_member("timestamp"@, spec_json_str(ts));
    let m2 = spec_member("status"@, spec_json_str("OK"@));
    let m3 = spec_member("reason"@, spec_json_str("OK"@));
    let mn = spec_member("totalNumber"@, spec_decimal(total as nat));
    let list = seq!['['] + spec_topology_items(items) + seq![']'];
    let mb = spec_member("body"@, list);
    assert(r =~= o + mt + (c + ms + c + m2 + c + m3 + c + mn + c + mb + e));
    assert(r =~= (o + mt + c + ms + c + m2 + c + m3 + c) + mn + (c + mb + e));
    lemma_topology_items_hold(items, k);
    let (p, q) = choose|p: Seq<char>, q: Seq<char>|
        #[trigger] (p + spec_topology_item(items[k]) + q) == spec_topology_items(items);
    let head = o + mt + c + ms + c + m2 + c + m3 + c + mn + c + spec_json_str("body"@) + seq![':'] + seq!['['];
    assert(mb =~= spec_json_str("body"@) + seq![':'] + list);
    assert((head + p) + spec_topology_item(items[k]) + (q + seq![']'] + e) =~= r);
}

/// Requests for network information and the reading of their answers.
#[derive(Debug, Clone, Copy, PartialEq, Eq)]
pub struct HplcInfo;

impl HplcInfo {
    /// The module's answer to a topology page, or why there is none; the outer error
    /// is a frame that is neither the page nor a denial.
    pub fn uart_net_topology_response<T, C>(message: UartMessage<T, C>) -> (r: Result<Result<NetTopologyResponse, Error>, Error>)
        ensures
            spec_is_deny(message.frame) ==> match spec_deny(message.frame.user_data.app_data) {
                Ok(d) => r == Ok::<_, Error>(Err::<NetTopologyResponse, Error>(Error::Denied(d.error_code))),
                Err(e) => r == Err::<Result<NetTopologyResponse, Error>, Error>(e),
            },
            !spec_is_deny(message.frame) ==> {
                let a = message.frame.user_data.app_data;
                let u = a.spec_units();
                let pre = match a.spec_check_min(5) {
                    Err(e) => Err(e),
                    Ok(_) => a.spec_check(crate::protocol::app_data::Afn::RouteGet, 21, (u[4] * 11 + 5) as usize),
                };
                &&& r is Ok <==> pre is Ok
                &&& r matches Err(e) ==> pre == Err::<(), Error>(e)
                &&& r matches Ok(inner) ==> inner matches Ok(t) && t.total_node_number == crate::bytes::le16(u[0], u[1])
                    && t.node_number == u[4] && t.net_topology_infos@.len() == u[4] && forall|i: int|
                    0 <= i < u[4] ==> (#[trigger] t.net_topology_infos@[i]).spec_decoded_from(
                        u.subrange(5 + 11 * i, 16 + 11 * i),
                    )
            },
    {
        match UartResponse::from_frame(message.frame)? {
            UartResponse::Normal(a) => Ok(Ok(NetTopologyResponse::try_from(a)?)),
            UartResponse::Deny(d) => Ok(Err(Error::Denied(d.error_code))),
        }
    }

    /// The outcome of a topology page that got no answer.
    pub fn uart_net_topology_response_timeout() -> (r: Result<NetTopologyResponse, Error>)
        ensures
            r == Err::<NetTopologyResponse, Error>(Error::Response(MqttResponseError::Timeout)),
    {
        Err(Error::Response(MqttResponseError::Timeout))
    }

    /// The request for the next topology page of an MQTT topology query; the page's
    /// answer goes to the gathering, not straight to MQTT.
    pub fn mqtt_net_topology_info<T, C>(gathered: &MqttNetTopologyInfoResponse, seq: &mut FrameSeq) -> (m: UartMessage<T, C>)
        requires
            (gathered.net_topology_infos@.len() as u16) < u16::MAX,
        ensures
            m.frame.user_data.app_data.spec_has(
                Afn::RouteGet,
                21,
                Some(crate::protocol::app_data::route_get::spec_paged(
                    (1 + (gathered.net_topology_infos@.len() as u16)) as u16,
                    QUERY_NODE_NUMBER,
                )),
            ),
            m.req_info.mqtt_req_info matches Some(i) && i.topic@.len() == 0 && i.token@.len() == 0
                && i.extra_data is None,
            m.req_info.seq_num == old(seq).spec_next(),
    {
        let request = gathered.next_request();
        let info = MqttReqInfo { topic: String::new(), token: String::new(), extra_data: None };
        mqtt_info_request_uart_handler(AppData::from(request), Some(info), seq)
    }

    /// Asks for a page of chip information for an MQTT request.
    pub fn mqtt_get_chip_info<T, C>(message: &MqttMessage, start_index: u16, node_number: u8, seq: &mut FrameSeq) -> (m: UartMessage<T, C>)
        requires
            message.spec_answerable(),
        ensures
            m.frame.user_data.app_data.spec_has(
                Afn::RouteGet,
                112,
                Some(crate::protocol::app_data::route_get::spec_paged(start_index, node_number)),
            ),
            m.req_info.mqtt_req_info is Some,
            m.req_info.seq_num == old(seq).spec_next(),
    {
        mqtt_request_uart_handler(AppData::from(ChipInfoRequest::new(start_index, node_number)), message, seq)
    }

    /// Reads an answer to a chip information request.
    pub fn chip_info_response<T, C>(message: UartMessage<T, C>) -> (r: Result<UartResponse<ChipInfoResponse>, Error>)
        ensures
            spec_is_deny(message.frame) ==> match spec_deny(message.frame.user_data.app_data) {
                Ok(d) => r == Ok::<_, Error>(UartResponse::<ChipInfoResponse>::Deny(d)),
                Err(e) => r == Err::<UartResponse<ChipInfoResponse>, Error>(e),
            },
            !spec_is_deny(message.frame) ==> {
                let a = message.frame.user_data.app_data;
                let u = a.spec_units();
                let pre = match a.spec_check_min(5) {
                    Err(e) => Err(e),
                    Ok(_) => a.spec_check(Afn::RouteGet, 112, (u[4] * 33 + 5) as usize),
                };
                &&& r is Ok <==> pre is Ok
                &&& r matches Err(e) ==> pre == Err::<(), Error>(e)
                &&& r matches Ok(resp) ==> resp matches UartResponse::Normal(c) && c.node_number == u[4]
                    && c.chip_infos@.len() == u[4] && forall|i: int|
                    0 <= i < u[4] ==> (#[trigger] c.chip_infos@[i]).spec_decoded_from(
                        u.subrange(5 + 33 * i, 38 + 33 * i),
                    )
            },
    {
        match UartResponse::from_frame(message.frame)? {
            UartResponse::Normal(a) => Ok(UartResponse::Normal(ChipInfoResponse::try_from(a)?)),
            UartResponse::Deny(d) => Ok(UartResponse::Deny(d)),
        }
    }

    /// Reads an answer to a line information request.
    pub fn uart_node_line_info_response<T, C>(message: UartMessage<T, C>) -> (r: Result<UartResponse<QueryNodeLineInfoResponse>, Error>)
        ensures
            spec_is_deny(message.frame) ==> match spec_deny(message.frame.user_data.app_data) {
                Ok(d) => r == Ok::<_, Error>(UartResponse::<QueryNodeLineInfoResponse>::Deny(d)),
                Err(e) => r == Err::<UartResponse<QueryNodeLineInfoResponse>, Error>(e),
            },
            !spec_is_deny(message.frame) ==> {
                let a = message.frame.user_data.app_data;
                let u = a.spec_units();
                let pre = match a.spec_check_min(5) {
                    Err(e) => Err(e),
                    Ok(_) => a.spec_check(Afn::RouteGet, 31, (u[4] * 8 + 5) as usize),
                };
                &&& r is Ok <==> pre is Ok
                &&& r matches Err(e) ==> pre == Err::<(), Error>(e)
                &&& r matches Ok(resp) ==> resp matches UartResponse::Normal(q) && q.node_number == u[4]
                    && q.line_infos@.len() == u[4] && forall|i: int|
                    0 <= i < u[4] ==> (#[trigger] q.line_infos@[i]).spec_decoded_from(
                        u.subrange(5 + 8 * i, 13 + 8 * i),
                    )
            },
    {
        match UartResponse::from_frame(message.frame)? {
            UartResponse::Normal(a) => Ok(UartResponse::Normal(QueryNodeLineInfoResponse::try_from(a)?)),
            UartResponse::Deny(d) => Ok(UartResponse::Deny(d)),
        }
    }

    /// Reads an answer to an identifier request.
    pub fn uart_id_info_response<T, C>(message: UartMessage<T, C>) -> (r: Result<UartResponse<IdInfoResponse>, Error>)
        ensures
            spec_is_deny(message.frame) ==> match spec_deny(message.frame.user_data.app_data) {
                Ok(d) => r == Ok::<_, Error>(UartResponse::<IdInfoResponse>::Deny(d)),
                Err(e) => r == Err::<UartResponse<IdInfoResponse>, Error>(e),
            },
            !spec_is_deny(message.frame) ==> {
                let a = message.frame.user_data.app_data;
                let u = a.spec_units();
                let pre = match a.spec_check_min(9) {
                    Err(e) => Err(e),
                    Ok(_) => a.spec_check(Afn::RouteGet, 40, (u[8] + 9) as usize),
                };
                &&& r is Ok <==> pre is Ok
                &&& r matches Err(e) ==> pre == Err::<(), Error>(e)
                &&& r matches Ok(resp) ==> resp matches UartResponse::Normal(v) && v.device_type == u[0]
                    && v.address.wire() == u.subrange(1, 7) && v.id_type == u[7] && v.id_length == u[8]
                    && v.id_info@ == u.subrange(9, 9 + u[8])
            },
    {
        match UartResponse::from_frame(message.frame)? {
            UartResponse::Normal(a) => Ok(UartResponse::Normal(IdInfoResponse::try_from(a)?)),
            UartResponse::Deny(d) => Ok(UartResponse::Deny(d)),
        }
    }

    /// Reads an answer to a slave module identifier request.
    pub fn uart_slave_module_id_info_response<T, C>(message: UartMessage<T, C>) -> (r: Result<UartResponse<SlaveModuleIdResponse>, Error>)
        requires
            !spec_is_deny(message.frame) ==> (message.frame.user_data.app_data.spec_check_min(3) is Ok
                ==> spec_slave_readable(
                message.frame.user_data.app_data.spec_units(),
                0,
                message.frame.user_data.app_data.spec_units()[2] as nat,
            )),
        ensures
            spec_is_deny(message.frame) ==> match spec_deny(message.frame.user_data.app_data) {
                Ok(d) => r == Ok::<_, Error>(UartResponse::<SlaveModuleIdResponse>::Deny(d)),
                Err(e) => r == Err::<UartResponse<SlaveModuleIdResponse>, Error>(e),
            },
            !spec_is_deny(message.frame) ==> {
                let a = message.frame.user_data.app_data;
                &&& r is Ok <==> spec_slave_module_id_check(a) is Ok
                &&& r matches Err(e) ==> spec_slave_module_id_check(a) == Err::<(), Error>(e)
                &&& r matches Ok(resp) ==> resp matches UartResponse::Normal(s) && s.node_number == a.spec_units()[2]
            },
    {
        match UartResponse::from_frame(message.frame)? {
            UartResponse::Normal(a) => Ok(UartResponse::Normal(SlaveModuleIdResponse::from_app_data(a)?)),
            UartResponse::Deny(d) => Ok(UartResponse::Deny(d)),
        }
    }

    /// Asks for the neighbouring networks for an MQTT request.
    pub fn mqtt_get_multiple_net_info<T, C>(message: &MqttMessage, seq: &mut FrameSeq) -> (m: UartMessage<T, C>)
        requires
            message.spec_answerable(),
        ensures
            m.frame.user_data.app_data.spec_has(Afn::RouteGet, 111, None),
            m.req_info.mqtt_req_info is Some,
            m.req_info.seq_num == old(seq).spec_next(),
    {
        mqtt_request_uart_handler(AppData::from(MultipleNetRequest), message, seq)
    }

    /// Reads an answer to a neighbouring networks request.
    pub fn uart_multiple_net_info_response<T, C>(message: UartMessage<T, C>) -> (r: Result<UartResponse<MultipleNetResponse>, Error>)
        ensures
            spec_is_deny(message.frame) ==> match spec_deny(message.frame.user_data.app_data) {
                Ok(d) => r == Ok::<_, Error>(UartResponse::<MultipleNetResponse>::Deny(d)),
                Err(e) => r == Err::<UartResponse<MultipleNetResponse>, Error>(e),
            },
            !spec_is_deny(message.frame) ==> {
                let a = message.frame.user_data.app_data;
                let u = a.spec_units();
                let pre = match a.spec_check_min(10) {
                    Err(e) => Err(e),
                    Ok(_) => a.spec_check(Afn::RouteGet, 111, (u[0] * 3 + 10) as usize),
                };
                &&& r is Ok <==> pre is Ok
                &&& r matches Err(e) ==> pre == Err::<(), Error>(e)
                &&& r matches Ok(resp) ==> resp matches UartResponse::Normal(m) && m.total_node_number == u[0]
                    && m.node_net_identity == crate::bytes::le32(u[1], u[2], u[3], 0)
                    && m.address.wire() == u.subrange(4, 10) && m.multiple_net_infos@.len() == u[0]
            },
    {
        match UartResponse::from_frame(message.frame)? {
            UartResponse::Normal(a) => Ok(UartResponse::Normal(MultipleNetResponse::try_from(a)?)),
            UartResponse::Deny(d) => Ok(UartResponse::Deny(d)),
        }
    }
}

} // verus!
