//! Concurrent meter reading: one reading at a time per meter, the others queued
//! per meter, with limits on the meters read at once and on each queue.
use vstd::prelude::*;

use crate::config::MeterReadingConfig;
use crate::error::{ConcurrentMeterError, Error, MqttResponseError};
use crate::mqtt_message::{json_object, json_object_text, spec_members, spec_status_members, status_members, timestamp, MqttMessage};
use crate::mqtt_topic::{app_name, spec_app_name, spec_split, spec_transfer_text, MqttTopic, MqttTopicInfoType, MqttTopicOperator};
use crate::protocol::app_data::meter_reading::{ConcurrentReadMeterRequest, ConcurrentReadMeterResponse};
use crate::protocol::app_data::{Address, Afn, AppData};
use crate::protocol::frame::{Frame, FrameSeq};
use crate::protocol::user_data::AddressField;
use crate::request_info::{MqttReqInfo, ReqInfo, UartMessage};
use crate::service::node_config::{parse_u8, spec_first, spec_parse_u8};
use crate::service::parse_response::{mqtt_response_message, spec_deny, spec_is_deny, UartResponse};
use crate::text::{hex_decode, hex_encode, owned, spec_hex, spec_hex_decode, spec_is_hex};

verus! {

/// A concurrent reading request: its task, the meter's address, the protocol type
/// (decimal) and the frame to send (hexadecimal); the answer carries the meter's
/// reply in `data`.
#[derive(Debug, Clone, PartialEq, Eq)]
pub struct SamplePayload {
    pub task_id: String,
    pub acq_addr: String,
    pub pro_type: String,
    pub data: String,
}

impl SamplePayload {
    /// Whether the request can be sent: a meter address, a decimal type, and a
    /// hexadecimal frame that fits a frame in memory.
    pub open spec fn spec_sendable(self) -> bool {
        &&& Address::spec_is_address_text(self.acq_addr@)
        &&& spec_parse_u8(self.pro_type@) is Some
        &&& spec_is_hex(self.data@)
        &&& self.data@.len() + 256 <= usize::MAX
    }

    /// Whether the request can be sent.
    pub fn sendable(&self) -> (b: bool)
        ensures
            b == self.spec_sendable(),
    {
        Address::is_address_text(self.acq_addr.as_str()) && parse_u8(self.pro_type.as_str()).is_some()
            && crate::text::is_hex(self.data.as_str()) && self.data.unicode_len() <= usize::MAX - 256
    }

    /// The payload's members as an answer carries them, with `data` as given.
    pub open spec fn spec_members_with(self, data: Seq<char>) -> Seq<(Seq<char>, Option<Seq<char>>)> {
        seq![
            ("taskID"@, Some(self.task_id@)),
            ("acqAddr"@, Some(self.acq_addr@)),
            ("proType"@, Some(self.pro_type@)),
            ("data"@, Some(data)),
        ]
    }

    /// The payload's members as an answer carries them.
    pub open spec fn spec_members(self) -> Seq<(Seq<char>, Option<Seq<char>>)> {
        self.spec_members_with(self.data@)
    }

    fn members(&self) -> (r: Vec<(String, Option<String>)>)
        ensures
            spec_members(r@) == self.spec_members(),
    {
        let mut v: Vec<(String, Option<String>)> = Vec::new();
        v.push((owned("taskID"), Some(owned(self.task_id.as_str()))));
        v.push((owned("acqAddr"), Some(owned(self.acq_addr.as_str()))));
        v.push((owned("proType"), Some(owned(self.pro_type.as_str()))));
        v.push((owned("data"), Some(owned(self.data.as_str()))));
        assert(spec_members(v@) =~= self.spec_members());
        v
    }
}

/// A reading waiting for its meter: the MQTT request and its payload.
#[derive(Debug)]
pub struct QueuedReading {
    pub message: MqttMessage,
    pub payload: SamplePayload,
}

/// A meter's readings: whether one is with the module, those waiting, and the
/// time (milliseconds) of the last change.
#[derive(Debug)]
pub struct SampleCache {
    pub acq_addr: String,
    pub is_waiting_response: bool,
    pub msg_cache_queue: Vec<QueuedReading>,
    pub last_operation_time: i64,
}

/// A meter's readings as values: address, waiting, queue, last change.
pub type CacheV = (Seq<char>, bool, Seq<QueuedReading>, i64);

pub open spec fn spec_cache(c: SampleCache) -> CacheV {
    (c.acq_addr@, c.is_waiting_response, c.msg_cache_queue@, c.last_operation_time)
}

/// The meter with address `addr`.
pub open spec fn cache_is(addr: Seq<char>) -> spec_fn(CacheV) -> bool {
    |c: CacheV| c.0 == addr
}

/// Whether a meter is being read: one reading with the module or some waiting.
pub open spec fn spec_busy(c: CacheV) -> bool {
    c.1 || c.2.len() > 0
}

/// The number of meters being read.
pub open spec fn spec_busy_count(cs: Seq<CacheV>) -> nat
    decreases cs.len(),
{
    if cs.len() == 0 {
        0
    } else {
        spec_busy_count(cs.drop_last()) + if spec_busy(cs.last()) {
            1nat
        } else {
            0nat
        }
    }
}

/// Whether every waiting reading can be sent when its turn comes.
pub open spec fn spec_queues_sendable(cs: Seq<CacheV>) -> bool {
    forall|i: int, j: int|
        0 <= i < cs.len() && 0 <= j < cs[i].2.len() ==> {
            &&& (#[trigger] cs[i].2[j]).payload.spec_sendable()
            &&& cs[i].2[j].message.spec_answerable()
        }
}

/// The topic on which a meter's reading is reported to the application that asked
/// (its topic's first segment), before it is turned into an answer topic.
pub open spec fn spec_report_topic(request_topic: Seq<char>) -> Seq<char> {
    spec_split(request_topic)[0] + seq!['/'] + MqttTopicOperator::Notify.spec_text() + seq!['/']
        + MqttTopicInfoType::Spont.spec_text() + seq!['/'] + spec_app_name() + seq!['/']
        + "reportConcurrent"@
}

/// Whether `m` is the request for a reading: to the meter from the master node, the
/// frame in its protocol type, answered on the report topic with the request's
/// token and payload.
pub open spec fn spec_reading_request<C>(m: UartMessage<SamplePayload, C>, item: QueuedReading, master: Address, seq: u8) -> bool {
    let p = item.payload;
    let bytes = spec_hex_decode(p.data@);
    &&& m.frame.user_data.address_field matches Some(f)
    &&& f.src_address == master && f.relay_address is None && f.dst_address.0@ == spec_hex_decode(p.acq_addr@)
    &&& m.frame.user_data.app_data.spec_has(
        Afn::CocurrentReadMeter,
        1,
        Some(seq![spec_parse_u8(p.pro_type@)->0, 0u8] + crate::bytes::le16_bytes(bytes.len() as u16) + bytes),
    )
    &&& m.req_info.mqtt_req_info matches Some(i)
    &&& i.topic@ == spec_transfer_text(spec_report_topic(item.message.topic@))
    &&& Some(i.token@) == item.message.spec_token()
    &&& i.extra_data == Some(p)
    &&& m.req_info.seq_num == seq
}

/// The sequence number `k` requests after `s`.
pub open spec fn spec_seq_add(s: u8, k: nat) -> u8 {
    ((s + k) % 256) as u8
}

/// Reading a meter now: the request for it.
pub fn mqtt_meter_reading_handler<C>(item: QueuedReading, master: Address, seq: &mut FrameSeq) -> (m: UartMessage<SamplePayload, C>)
    requires
        item.payload.spec_sendable(),
        item.message.spec_answerable(),
    ensures
        spec_reading_request(m, item, master, old(seq).spec_next()),
        final(seq).spec_next() == spec_seq_add(old(seq).spec_next(), 1),
{
    let QueuedReading { message, payload } = item;
    let app = MqttTopic::get_app(message.topic.as_str());
    proof {
        crate::mqtt_topic::lemma_split_parts_no_slash(message.topic@);
        crate::mqtt_topic::lemma_split_nonempty(message.topic@);
    }
    let topic = MqttTopic {
        app,
        operator: MqttTopicOperator::Notify,
        info_type: MqttTopicInfoType::Spont,
        info_target: owned(app_name()),
        info_object: owned("reportConcurrent"),
    };
    proof {
        reveal_strlit("reportConcurrent");
        assert(crate::mqtt_topic::spec_no_slash(topic.info_object@));
        crate::mqtt_topic::law_topic_parse_text(topic);
        assert(topic.spec_text() =~= spec_report_topic(message.topic@));
    }
    let topic_text = topic.to_string();
    let node = Address::from_hex(payload.acq_addr.as_str());
    let pro_type = match parse_u8(payload.pro_type.as_str()) {
        Some(t) => t,
        None => {
            assert(false);
            0
        },
    };
    let bytes = hex_decode(payload.data.as_str());
    proof {
        crate::text::lemma_hex_decode_len(payload.data@);
    }
    let ghost b = bytes@;
    let app_data = AppData::from(ConcurrentReadMeterRequest::new(pro_type, bytes));
    let af = AddressField::new(master, None, node);
    proof {
        crate::protocol::laws::lemma_address_field_len(af);
    }
    let frame = Frame::new_request(seq, Some(af), app_data);
    let token = message.get_token();
    let req_info = ReqInfo::new_with_mqtt(&frame, topic_text.as_str(), token.as_str(), Some(payload), None);
    UartMessage::new(req_info, frame)
}

/// The readings of the meters, and the limits they are held to.
#[derive(Debug)]
pub struct ConcurrentMeter {
    pub meter_config: MeterReadingConfig,
    pub sample_cache: Vec<SampleCache>,
}

impl ConcurrentMeter {
    /// The meters' readings as values.
    pub open spec fn spec_caches(&self) -> Seq<CacheV> {
        self.sample_cache@.map_values(|c: SampleCache| spec_cache(c))
    }

    /// Whether every waiting reading can be sent, and no meter is held twice.
    pub open spec fn wf(&self) -> bool {
        &&& spec_queues_sendable(self.spec_caches())
        &&& forall|i: int, j: int|
            0 <= i < j < self.spec_caches().len() ==> #[trigger] self.spec_caches()[i].0
                != #[trigger] self.spec_caches()[j].0
    }

    pub fn new(meter_config: MeterReadingConfig) -> (r: Self)
        ensures
            r.meter_config == meter_config,
            r.spec_caches().len() == 0,
            r.wf(),
    {
        ConcurrentMeter { meter_config, sample_cache: Vec::new() }
    }

    fn find(&self, addr: &str) -> (r: Option<usize>)
        ensures
            match r {
                Some(i) => spec_first(self.spec_caches(), cache_is(addr@)) == Some(i as int),
                None => spec_first(self.spec_caches(), cache_is(addr@)) is None,
            },
    {
        let ghost cs = self.spec_caches();
        let mut i: usize = 0;
        while i < self.sample_cache.len()
            invariant
                i <= self.sample_cache@.len(),
                cs == self.spec_caches(),
                forall|j: int| 0 <= j < i ==> !(#[trigger] cache_is(addr@)(cs[j])),
            decreases self.sample_cache@.len() - i,
        {
            if crate::text::str_eq(self.sample_cache[i].acq_addr.as_str(), addr) {
                proof {
                    assert(cache_is(addr@)(cs[i as int]));
                    crate::service::node_config::lemma_first_found(cs, cache_is(addr@), i as int);
                }
                return Some(i);
            }
            proof {
                assert(!cache_is(addr@)(cs[i as int]));
            }
            i = i + 1;
        }
        proof {
            crate::service::node_config::lemma_first_none(cs, cache_is(addr@));
        }
        None
    }

    /// The number of meters being read.
    pub fn concurrent_addr_num(&self) -> (n: usize)
        ensures
            n == spec_busy_count(self.spec_caches()),
    {
        let ghost cs = self.spec_caches();
        let mut n: usize = 0;
        let mut i: usize = 0;
        while i < self.sample_cache.len()
            invariant
                i <= self.sample_cache@.len(),
                cs == self.spec_caches(),
                n == spec_busy_count(cs.take(i as int)),
                n <= i,
            decreases self.sample_cache@.len() - i,
        {
            proof {
                assert(cs.take(i + 1).drop_last() =~= cs.take(i as int));
            }
            let c = &self.sample_cache[i];
            if c.is_waiting_response || c.msg_cache_queue.len() > 0 {
                n = n + 1;
            }
            i = i + 1;
        }
        assert(cs.take(cs.len() as int) =~= cs);
        n
    }
}

/// Asking for a reading: the meters' readings after, and whether the request is
/// sent now (`true`), queued (`false`), or refused. A meter that is not being read
/// (new, or cached but idle) is refused while as many meters as allowed are being
/// read; a reading waits while its meter is being read or while the module meters;
/// a full queue refuses it.
pub open spec fn spec_handle(
    cs: Seq<CacheV>,
    cfg: MeterReadingConfig,
    item: QueuedReading,
    metering: bool,
    now: i64,
) -> (Seq<CacheV>, Result<bool, ConcurrentMeterError>) {
    let addr = item.payload.acq_addr@;
    let pos = spec_first(cs, cache_is(addr));
    let idle = match pos {
        Some(k) => !spec_busy(cs[k]),
        None => true,
    };
    if idle && spec_busy_count(cs) >= cfg.concurrent_addr {
        (cs, Err(ConcurrentMeterError::AddrLimit(cfg.concurrent_addr)))
    } else {
        let cs1 = if pos is None {
            cs.push((addr, false, Seq::empty(), now))
        } else {
            cs
        };
        let i = match pos {
            Some(k) => k,
            None => cs.len() as int,
        };
        let c = cs1[i];
        if c.1 || metering {
            if c.2.len() >= cfg.cache_queue_size {
                (cs1, Err(ConcurrentMeterError::QueueLimit(cfg.cache_queue_size)))
            } else {
                (cs1.update(i, (c.0, c.1, c.2.push(item), now)), Ok(false))
            }
        } else {
            (cs1.update(i, (c.0, true, c.2, c.3)), Ok(true))
        }
    }
}

/// The meter's reading is over: its next waiting reading, if any, is taken out
/// and its meter stays busy; otherwise the meter is free.
pub open spec fn spec_next(cs: Seq<CacheV>, addr: Seq<char>) -> (Seq<CacheV>, Option<QueuedReading>) {
    match spec_first(cs, cache_is(addr)) {
        None => (cs, None),
        Some(i) => {
            let c = cs[i];
            if c.2.len() == 0 {
                (cs.update(i, (c.0, false, c.2, c.3)), None)
            } else {
                (cs.update(i, (c.0, true, c.2.skip(1), c.3)), Some(c.2[0]))
            }
        },
    }
}

/// A meter after its waiting readings were looked at: a free meter with readings
/// waiting sends the first.
pub open spec fn spec_after_ready(c: CacheV) -> CacheV {
    if !c.1 && c.2.len() > 0 {
        (c.0, true, c.2.skip(1), c.3)
    } else {
        c
    }
}

/// The readings that free meters send, meters taken in order.
pub open spec fn spec_ready(cs: Seq<CacheV>) -> Seq<QueuedReading>
    decreases cs.len(),
{
    if cs.len() == 0 {
        Seq::empty()
    } else if !cs.last().1 && cs.last().2.len() > 0 {
        spec_ready(cs.drop_last()).push(cs.last().2[0])
    } else {
        spec_ready(cs.drop_last())
    }
}

/// Whether a meter's readings are kept when the old ones are dropped: while it is
/// being read, or while its last change is more recent than the aging time
/// (minutes) before `now` (milliseconds).
pub open spec fn spec_kept(c: CacheV, aging_minutes: u32, now: i64) -> bool {
    spec_busy(c) || now - c.3 < aging_minutes * 60000
}

/// The meters whose readings are kept.
pub open spec fn spec_retain(cs: Seq<CacheV>, aging_minutes: u32, now: i64) -> Seq<CacheV>
    decreases cs.len(),
{
    if cs.len() == 0 {
        Seq::empty()
    } else if spec_kept(cs.last(), aging_minutes, now) {
        spec_retain(cs.drop_last(), aging_minutes, now).push(cs.last())
    } else {
        spec_retain(cs.drop_last(), aging_minutes, now)
    }
}

/// A free meter's readings with nothing waiting.
fn empty_cache() -> (c: SampleCache)
    ensures
        c.msg_cache_queue@.len() == 0,
{
    SampleCache { acq_addr: String::new(), is_waiting_response: false, msg_cache_queue: Vec::new(), last_operation_time: 0 }
}

impl ConcurrentMeter {
    fn replace_cache(&mut self, i: usize, c: SampleCache) -> (prev: SampleCache)
        requires
            i < old(self).sample_cache@.len(),
        ensures
            final(self).spec_caches() == old(self).spec_caches().update(i as int, spec_cache(c)),
            spec_cache(prev) == old(self).spec_caches()[i as int],
            final(self).meter_config == old(self).meter_config,
            final(self).sample_cache@.len() == old(self).sample_cache@.len(),
    {
        let mut c = c;
        std::mem::swap(&mut c, &mut self.sample_cache[i]);
        assert(self.spec_caches() =~= old(self).spec_caches().update(i as int, spec_cache(self.sample_cache@[i as int])));
        c
    }

    /// Asks for a reading (see `spec_handle`); the request when it is sent now.
    #[verifier::spinoff_prover]
    pub fn handle_meter_reading<C>(
        &mut self,
        item: QueuedReading,
        master: Address,
        metering: bool,
        now: i64,
        seq: &mut FrameSeq,
    ) -> (r: Result<Option<UartMessage<SamplePayload, C>>, Error>)
        requires
            old(self).wf(),
            item.payload.spec_sendable(),
            item.message.spec_answerable(),
        ensures
            final(self).wf(),
            final(self).meter_config == old(self).meter_config,
            ({
                let (cs, s) = spec_handle(old(self).spec_caches(), old(self).meter_config, item, metering, now);
                &&& final(self).spec_caches() == cs
                &&& match s {
                    Err(e) => r == Err::<Option<UartMessage<SamplePayload, C>>, Error>(Error::ConcurrentMeter(e))
                        && final(seq).spec_next() == old(seq).spec_next(),
                    Ok(false) => r matches Ok(None) && final(seq).spec_next() == old(seq).spec_next(),
                    Ok(true) => r matches Ok(Some(m)) && spec_reading_request(m, item, master, old(seq).spec_next())
                        && final(seq).spec_next() == spec_seq_add(old(seq).spec_next(), 1),
                }
            }),
    {
        let ghost cs = self.spec_caches();
        let i = match self.find(item.payload.acq_addr.as_str()) {
            Some(i) => {
                if !self.sample_cache[i].is_waiting_response && self.sample_cache[i].msg_cache_queue.len() == 0 {
                    let limit = self.meter_config.concurrent_addr;
                    if self.concurrent_addr_num() >= limit {
                        return Err(Error::ConcurrentMeter(ConcurrentMeterError::AddrLimit(limit)));
                    }
                }
                i
            },
            None => {
                let limit = self.meter_config.concurrent_addr;
                if self.concurrent_addr_num() >= limit {
                    return Err(Error::ConcurrentMeter(ConcurrentMeterError::AddrLimit(limit)));
                }
                let c = SampleCache {
                    acq_addr: owned(item.payload.acq_addr.as_str()),
                    is_waiting_response: false,
                    msg_cache_queue: Vec::new(),
                    last_operation_time: now,
                };
                self.sample_cache.push(c);
                proof {
                    assert(spec_cache(c).2 =~= Seq::<QueuedReading>::empty());
                    assert(self.spec_caches() =~= cs.push((item.payload.acq_addr@, false, Seq::empty(), now)));
                    assert forall|j: int| 0 <= j < cs.len() implies !(#[trigger] cache_is(item.payload.acq_addr@)(cs[j])) by {
                        if cache_is(item.payload.acq_addr@)(cs[j]) {
                            crate::service::node_config::lemma_least_witness(cs, cache_is(item.payload.acq_addr@), j);
                        }
                    }
                    assert forall|a: int, b: int|
                        0 <= a < b < self.spec_caches().len() implies #[trigger] self.spec_caches()[a].0
                        != #[trigger] self.spec_caches()[b].0 by {
                        if b == cs.len() {
                            assert(!cache_is(item.payload.acq_addr@)(cs[a]));
                        }
                    }
                }
                self.sample_cache.len() - 1
            },
        };
        let ghost cs1 = self.spec_caches();
        let waiting = self.sample_cache[i].is_waiting_response;
        if waiting || metering {
            let size = self.meter_config.cache_queue_size;
            if self.sample_cache[i].msg_cache_queue.len() >= size {
                return Err(Error::ConcurrentMeter(ConcurrentMeterError::QueueLimit(size)));
            }
            let mut c = self.replace_cache(i, empty_cache());
            let ghost q = c.msg_cache_queue@;
            c.msg_cache_queue.push(item);
            c.last_operation_time = now;
            self.replace_cache(i, c);
            proof {
                assert(self.spec_caches() =~= cs1.update(i as int, (cs1[i as int].0, cs1[i as int].1, q.push(item), now)));
                assert(spec_queues_sendable(self.spec_caches())) by {
                    assert forall|a: int, b: int|
                        0 <= a < self.spec_caches().len() && 0 <= b < self.spec_caches()[a].2.len() implies {
                        &&& (#[trigger] self.spec_caches()[a].2[b]).payload.spec_sendable()
                        &&& self.spec_caches()[a].2[b].message.spec_answerable()
                    } by {
                        if a == i && b < q.len() {
                            assert(self.spec_caches()[a].2[b] == cs1[a].2[b]);
                        } else if a != i {
                            assert(self.spec_caches()[a] == cs1[a]);
                        }
                    }
                }
                assert forall|a: int, b: int|
                    0 <= a < b < self.spec_caches().len() implies #[trigger] self.spec_caches()[a].0
                    != #[trigger] self.spec_caches()[b].0 by {
                    assert(self.spec_caches()[a].0 == cs1[a].0);
                    assert(self.spec_caches()[b].0 == cs1[b].0);
                }
            }
            Ok(None)
        } else {
            let mut c = self.replace_cache(i, empty_cache());
            c.is_waiting_response = true;
            self.replace_cache(i, c);
            proof {
                assert(self.spec_caches() =~= cs1.update(
                    i as int,
                    (cs1[i as int].0, true, cs1[i as int].2, cs1[i as int].3),
                ));
                assert(spec_queues_sendable(self.spec_caches())) by {
                    assert forall|a: int, b: int|
                        0 <= a < self.spec_caches().len() && 0 <= b < self.spec_caches()[a].2.len() implies {
                        &&& (#[trigger] self.spec_caches()[a].2[b]).payload.spec_sendable()
                        &&& self.spec_caches()[a].2[b].message.spec_answerable()
                    } by {
                        assert(self.spec_caches()[a].2 == cs1[a].2);
                    }
                }
                assert forall|a: int, b: int|
                    0 <= a < b < self.spec_caches().len() implies #[trigger] self.spec_caches()[a].0
                    != #[trigger] self.spec_caches()[b].0 by {
                    assert(self.spec_caches()[a].0 == cs1[a].0);
                    assert(self.spec_caches()[b].0 == cs1[b].0);
                }
            }
            Ok(Some(mqtt_meter_reading_handler(item, master, seq)))
        }
    }
}

proof fn lemma_next_keeps_wf(cs: Seq<CacheV>, addr: Seq<char>)
    requires
        spec_queues_sendable(cs),
        forall|i: int, j: int| 0 <= i < j < cs.len() ==> #[trigger] cs[i].0 != #[trigger] cs[j].0,
    ensures
        spec_queues_sendable(spec_next(cs, addr).0),
        forall|i: int, j: int|
            0 <= i < j < spec_next(cs, addr).0.len() ==> #[trigger] spec_next(cs, addr).0[i].0
                != #[trigger] spec_next(cs, addr).0[j].0,
        spec_next(cs, addr).1 matches Some(item) ==> item.payload.spec_sendable() && item.message.spec_answerable(),
{
    let n = spec_next(cs, addr).0;
    match spec_first(cs, cache_is(addr)) {
        None => {},
        Some(k) => {
            assert forall|i: int| 0 <= i < cs.len() implies #[trigger] n[i].0 == cs[i].0 by {}
            assert forall|a: int, b: int|
                0 <= a < n.len() && 0 <= b < n[a].2.len() implies {
                &&& (#[trigger] n[a].2[b]).payload.spec_sendable()
                &&& n[a].2[b].message.spec_answerable()
            } by {
                if a == k && cs[k].2.len() > 0 {
                    assert(n[a].2[b] == cs[a].2[b + 1]);
                } else {
                    assert(n[a].2[b] == cs[a].2[b]);
                }
            }
            if cs[k].2.len() > 0 {
                assert(cs[k].2[0] == cs[k].2[0]);
            }
        },
    }
}

proof fn lemma_ready_step(cs: Seq<CacheV>, i: int)
    requires
        0 <= i < cs.len(),
    ensures
        spec_ready(cs.take(i + 1)) == if !cs[i].1 && cs[i].2.len() > 0 {
            spec_ready(cs.take(i)).push(cs[i].2[0])
        } else {
            spec_ready(cs.take(i))
        },
{
    assert(cs.take(i + 1).drop_last() =~= cs.take(i));
}

proof fn lemma_retain_step(cs: Seq<CacheV>, aging: u32, now: i64, i: int)
    requires
        0 <= i < cs.len(),
    ensures
        spec_retain(cs.take(i + 1), aging, now) == if spec_kept(cs[i], aging, now) {
            spec_retain(cs.take(i), aging, now).push(cs[i])
        } else {
            spec_retain(cs.take(i), aging, now)
        },
{
    assert(cs.take(i + 1).drop_last() =~= cs.take(i));
}

proof fn lemma_retain_from(cs: Seq<CacheV>, aging: u32, now: i64)
    ensures
        forall|j: int|
            0 <= j < spec_retain(cs, aging, now).len() ==> exists|i: int|
                0 <= i < cs.len() && #[trigger] spec_retain(cs, aging, now)[j] == cs[i],
        (forall|a: int, b: int| 0 <= a < b < cs.len() ==> #[trigger] cs[a].0 != #[trigger] cs[b].0) ==> forall|
            a: int,
            b: int,
        |
            0 <= a < b < spec_retain(cs, aging, now).len() ==> #[trigger] spec_retain(cs, aging, now)[a].0
                != #[trigger] spec_retain(cs, aging, now)[b].0,
    decreases cs.len(),
{
    if cs.len() > 0 {
        let d = cs.drop_last();
        lemma_retain_from(d, aging, now);
        let r = spec_retain(d, aging, now);
        let out = spec_retain(cs, aging, now);
        assert forall|j: int| 0 <= j < out.len() implies exists|i: int|
            0 <= i < cs.len() && #[trigger] out[j] == cs[i] by {
            if j < r.len() {
                let i = choose|i: int| 0 <= i < d.len() && #[trigger] r[j] == d[i];
                assert(out[j] == cs[i]);
            } else {
                assert(out[j] == cs[cs.len() - 1]);
            }
        }
        if forall|a: int, b: int| 0 <= a < b < cs.len() ==> #[trigger] cs[a].0 != #[trigger] cs[b].0 {
            assert forall|a: int, b: int| 0 <= a < b < d.len() implies #[trigger] d[a].0 != #[trigger] d[b].0 by {
                assert(d[a] == cs[a] && d[b] == cs[b]);
            }
            assert forall|a: int, b: int| 0 <= a < b < out.len() implies #[trigger] out[a].0 != #[trigger] out[b].0 by {
                if b >= r.len() {
                    let i = choose|i: int| 0 <= i < d.len() && #[trigger] r[a] == d[i];
                    assert(out[a] == cs[i]);
                    assert(out[b] == cs[cs.len() - 1]);
                } else {
                    assert(out[a] == r[a] && out[b] == r[b]);
                }
            }
        }
    }
}

impl ConcurrentMeter {
    /// A meter's reading is over (see `spec_next`): the request for its next
    /// waiting reading, if any.
    pub fn handle_next_request<C>(&mut self, acq_addr: &str, master: Address, seq: &mut FrameSeq) -> (r: Option<UartMessage<SamplePayload, C>>)
        requires
            old(self).wf(),
        ensures
            final(self).wf(),
            final(self).meter_config == old(self).meter_config,
            ({
                let (cs, next) = spec_next(old(self).spec_caches(), acq_addr@);
                &&& final(self).spec_caches() == cs
                &&& match next {
                    None => r is None && final(seq).spec_next() == old(seq).spec_next(),
                    Some(item) => r matches Some(m) && spec_reading_request(m, item, master, old(seq).spec_next())
                        && final(seq).spec_next() == spec_seq_add(old(seq).spec_next(), 1),
                }
            }),
    {
        let ghost cs = self.spec_caches();
        proof {
            lemma_next_keeps_wf(cs, acq_addr@);
        }
        let i = match self.find(acq_addr) {
            Some(i) => i,
            None => return None,
        };
        let mut c = self.replace_cache(i, empty_cache());
        if c.msg_cache_queue.len() == 0 {
            c.is_waiting_response = false;
            self.replace_cache(i, c);
            assert(self.spec_caches() =~= spec_next(cs, acq_addr@).0);
            None
        } else {
            let item = c.msg_cache_queue.remove(0);
            c.is_waiting_response = true;
            self.replace_cache(i, c);
            assert(self.spec_caches() =~= spec_next(cs, acq_addr@).0);
            Some(mqtt_meter_reading_handler(item, master, seq))
        }
    }

    /// Sends the first waiting reading of every free meter, meters in order.
    pub fn handle_cache_request<C>(&mut self, master: Address, seq: &mut FrameSeq) -> (r: Vec<UartMessage<SamplePayload, C>>)
        requires
            old(self).wf(),
        ensures
            final(self).wf(),
            final(self).meter_config == old(self).meter_config,
            final(self).spec_caches() == Seq::new(
                old(self).spec_caches().len(),
                |k: int| spec_after_ready(old(self).spec_caches()[k]),
            ),
            r@.len() == spec_ready(old(self).spec_caches()).len(),
            forall|k: int|
                0 <= k < r@.len() ==> spec_reading_request(
                    #[trigger] r@[k],
                    spec_ready(old(self).spec_caches())[k],
                    master,
                    spec_seq_add(old(seq).spec_next(), k as nat),
                ),
            final(seq).spec_next() == spec_seq_add(old(seq).spec_next(), r@.len()),
    {
        let ghost cs = self.spec_caches();
        let mut out: Vec<UartMessage<SamplePayload, C>> = Vec::new();
        let n = self.sample_cache.len();
        let mut i: usize = 0;
        assert(cs.take(0) =~= Seq::<CacheV>::empty());
        while i < n
            invariant
                n == cs.len(),
                n == self.sample_cache@.len(),
                i <= n,
                self.meter_config == old(self).meter_config,
                spec_queues_sendable(cs),
                forall|a: int, b: int| 0 <= a < b < cs.len() ==> #[trigger] cs[a].0 != #[trigger] cs[b].0,
                forall|k: int| 0 <= k < i ==> #[trigger] self.spec_caches()[k] == spec_after_ready(cs[k]),
                forall|k: int| i <= k < n ==> #[trigger] self.spec_caches()[k] == cs[k],
                out@.len() == spec_ready(cs.take(i as int)).len(),
                forall|k: int|
                    0 <= k < out@.len() ==> spec_reading_request(
                        #[trigger] out@[k],
                        spec_ready(cs.take(i as int))[k],
                        master,
                        spec_seq_add(old(seq).spec_next(), k as nat),
                    ),
                seq.spec_next() == spec_seq_add(old(seq).spec_next(), out@.len()),
            decreases n - i,
        {
            proof {
                lemma_ready_step(cs, i as int);
            }
            let ghost before = self.spec_caches();
            assert(before[i as int] == spec_cache(self.sample_cache@[i as int]));
            assert(before[i as int] == cs[i as int]);
            let ready = !self.sample_cache[i].is_waiting_response && self.sample_cache[i].msg_cache_queue.len() > 0;
            if ready {
                let mut c = self.replace_cache(i, empty_cache());
                let item = c.msg_cache_queue.remove(0);
                c.is_waiting_response = true;
                self.replace_cache(i, c);
                proof {
                    assert(self.spec_caches() =~= before.update(i as int, spec_after_ready(cs[i as int])));
                    assert(item == cs[i as int].2[0]);
                    assert(item.payload.spec_sendable() && item.message.spec_answerable()) by {
                        assert(cs[i as int].2[0] == cs[i as int].2[0]);
                    }
                }
                let ghost s0 = seq.spec_next();
                let m = mqtt_meter_reading_handler(item, master, seq);
                let ghost o = out@;
                out.push(m);
                proof {
                    assert(out@ =~= o.push(m));
                    let base = old(seq).spec_next() as int;
                    let len = o.len() as int;
                    assert((s0 + 1) % 256 == (base + len + 1) % 256) by (nonlinear_arith)
                        requires
                            s0 == (base + len) % 256,
                    ;
                }
            } else {
                proof {
                    assert(spec_after_ready(cs[i as int]) == cs[i as int]);
                }
            }
            i = i + 1;
        }
        proof {
            assert(cs.take(n as int) =~= cs);
            assert(self.spec_caches() =~= Seq::new(cs.len(), |k: int| spec_after_ready(cs[k])));
            assert(spec_queues_sendable(self.spec_caches())) by {
                assert forall|a: int, b: int|
                    0 <= a < self.spec_caches().len() && 0 <= b < self.spec_caches()[a].2.len() implies {
                    &&& (#[trigger] self.spec_caches()[a].2[b]).payload.spec_sendable()
                    &&& self.spec_caches()[a].2[b].message.spec_answerable()
                } by {
                    if !cs[a].1 && cs[a].2.len() > 0 {
                        assert(self.spec_caches()[a].2[b] == cs[a].2[b + 1]);
                    } else {
                        assert(self.spec_caches()[a].2[b] == cs[a].2[b]);
                    }
                }
            }
            assert forall|a: int, b: int|
                0 <= a < b < self.spec_caches().len() implies #[trigger] self.spec_caches()[a].0
                != #[trigger] self.spec_caches()[b].0 by {
                assert(self.spec_caches()[a].0 == cs[a].0);
                assert(self.spec_caches()[b].0 == cs[b].0);
            }
        }
        out
    }

    /// Drops the readings of meters that are not being read and have not changed
    /// for the aging time (see `spec_retain`); `now` is in milliseconds.
    pub fn age(&mut self, now: i64)
        requires
            old(self).wf(),
        ensures
            final(self).wf(),
            final(self).meter_config == old(self).meter_config,
            final(self).spec_caches() == spec_retain(
                old(self).spec_caches(),
                old(self).meter_config.queue_aging_time,
                now,
            ),
    {
        let ghost cs = self.spec_caches();
        let aging = self.meter_config.queue_aging_time;
        let mut rest: Vec<SampleCache> = Vec::new();
        std::mem::swap(&mut rest, &mut self.sample_cache);
        let ghost orig = rest@;
        let total = rest.len();
        let mut k: usize = 0;
        assert(cs.take(0) =~= Seq::<CacheV>::empty());
        assert(self.spec_caches() =~= Seq::<CacheV>::empty());
        while rest.len() > 0
            invariant
                k + rest@.len() == orig.len(),
                orig.len() == total,
                rest@ == orig.skip(k as int),
                cs == orig.map_values(|c: SampleCache| spec_cache(c)),
                aging == old(self).meter_config.queue_aging_time,
                self.meter_config == old(self).meter_config,
                self.spec_caches() == spec_retain(cs.take(k as int), aging, now),
            decreases rest@.len(),
        {
            let c = rest.remove(0);
            proof {
                assert(c == orig[k as int]);
                lemma_retain_step(cs, aging, now, k as int);
                assert(rest@ =~= orig.skip(k + 1));
            }
            let kept = c.is_waiting_response || c.msg_cache_queue.len() > 0
                || (now as i128) - (c.last_operation_time as i128) < (aging as i128) * 60000;
            if kept {
                let ghost before = self.spec_caches();
                self.sample_cache.push(c);
                assert(self.spec_caches() =~= before.push(spec_cache(c)));
            }
            k = k + 1;
        }
        proof {
            assert(cs.take(k as int) =~= cs);
            lemma_retain_from(cs, aging, now);
            let out = self.spec_caches();
            assert(spec_queues_sendable(out)) by {
                assert forall|a: int, b: int| 0 <= a < out.len() && 0 <= b < out[a].2.len() implies {
                    &&& (#[trigger] out[a].2[b]).payload.spec_sendable()
                    &&& out[a].2[b].message.spec_answerable()
                } by {
                    let i = choose|i: int| 0 <= i < cs.len() && #[trigger] out[a] == cs[i];
                    assert(out[a].2[b] == cs[i].2[b]);
                }
            }
        }
    }
}

/// The answer payload for a reading: status members, then the reading's members
/// with `data` as given.
pub open spec fn spec_reading_payload(
    token: Seq<char>,
    ts: Seq<char>,
    status: Seq<char>,
    reason: Seq<char>,
    p: SamplePayload,
    data: Seq<char>,
) -> Seq<char> {
    json_object_text(spec_status_members(token, ts, status, reason) + p.spec_members_with(data))
}

fn reading_payload(token: &str, ts: &str, status: &str, reason: &str, p: &SamplePayload) -> (r: String)
    ensures
        r@ == spec_reading_payload(token@, ts@, status@, reason@, *p, p.data@),
{
    let mut m = status_members(token, ts, status, reason);
    let mut extra = p.members();
    let ghost a = spec_members(m@);
    let ghost b = spec_members(extra@);
    m.append(&mut extra);
    assert(spec_members(m@) =~= a + b);
    json_object(m)
}

/// The answer to a reading's result: the reading's members with the meter's reply
/// in hexadecimal, `OK`; an empty reply is a failure.
pub open spec fn spec_reading_answer(token: Seq<char>, ts: Seq<char>, p: SamplePayload, reply: Seq<u8>) -> Seq<char> {
    let data = spec_hex(reply, false);
    if data.len() == 0 {
        crate::mqtt_message::status_payload_text(
            token,
            ts,
            "FAILURE"@,
            Error::ConcurrentMeter(ConcurrentMeterError::MeterReading).spec_text(),
        )
    } else {
        spec_reading_payload(token, ts, "OK"@, "OK"@, p, data)
    }
}

/// The outcome of asking for a reading, for its answer.
pub open spec fn spec_handle_outcome(s: Result<bool, ConcurrentMeterError>) -> Result<(), Error> {
    match s {
        Ok(_) => Ok(()),
        Err(e) => Err(Error::ConcurrentMeter(e)),
    }
}

/// Whether `text` answers an outcome with the token (at some time).
pub open spec fn spec_status_answer(text: Seq<char>, token: Seq<char>, outcome: Result<(), Error>) -> bool {
    exists|ts: Seq<char>|
        text == crate::mqtt_message::status_payload_text(
            token,
            ts,
            crate::service::parse_response::spec_outcome_status(outcome).0,
            crate::service::parse_response::spec_outcome_status(outcome).1,
        )
}

/// Whether `text` answers the module's reply `a` to a reading (at some time): the
/// denial's failure, or the reading's answer.
pub open spec fn spec_meter_answer(text: Seq<char>, token: Seq<char>, deny: bool, a: AppData, p: SamplePayload) -> bool {
    exists|ts: Seq<char>|
        text == if deny {
            crate::mqtt_message::status_payload_text(
                token,
                ts,
                "FAILURE"@,
                Error::Denied(spec_deny(a)->Ok_0.error_code).spec_text(),
            )
        } else {
            spec_reading_answer(token, ts, p, a.spec_units().skip(3))
        }
}

impl ConcurrentMeter {
    /// An MQTT request for a reading: its answer (`OK`, or the refusal) on the
    /// request's answer topic, and the request for the module when sent now.
    #[verifier::spinoff_prover]
    pub fn mqtt_concurrent_meter_reading<C>(
        &mut self,
        message: MqttMessage,
        payload: SamplePayload,
        master: Address,
        metering: bool,
        now: i64,
        seq: &mut FrameSeq,
    ) -> (r: (MqttMessage, Option<UartMessage<SamplePayload, C>>))
        requires
            old(self).wf(),
            payload.spec_sendable(),
            message.spec_answerable(),
        ensures
            final(self).wf(),
            final(self).meter_config == old(self).meter_config,
            final(self).spec_caches() == spec_handle(
                old(self).spec_caches(),
                old(self).meter_config,
                QueuedReading { message, payload },
                metering,
                now,
            ).0,
            r.0.topic@ == spec_transfer_text(message.topic@),
            spec_status_answer(
                r.0.payload@,
                message.spec_token()->0,
                spec_handle_outcome(
                    spec_handle(
                        old(self).spec_caches(),
                        old(self).meter_config,
                        QueuedReading { message, payload },
                        metering,
                        now,
                    ).1,
                ),
            ),
            spec_handle(old(self).spec_caches(), old(self).meter_config, QueuedReading { message, payload }, metering, now).1
                == Ok::<bool, ConcurrentMeterError>(true) ==> (r.1 matches Some(m) && spec_reading_request(
                m,
                QueuedReading { message, payload },
                master,
                old(seq).spec_next(),
            )),
            spec_handle(old(self).spec_caches(), old(self).meter_config, QueuedReading { message, payload }, metering, now).1
                != Ok::<bool, ConcurrentMeterError>(true) ==> r.1 is None,
    {
        let info: MqttReqInfo<()> = message.to_mqtt_req_info();
        let ghost token = info.token@;
        let item = QueuedReading { message, payload };
        let result = self.handle_meter_reading(item, master, metering, now, seq);
        let (outcome, request) = match result {
            Ok(r) => (Ok(()), r),
            Err(e) => (Err(e), None),
        };
        let answer = mqtt_response_message(outcome, info);
        proof {
            let ts = choose|ts: Seq<char>|
                answer.payload@ == crate::mqtt_message::status_payload_text(
                    token,
                    ts,
                    crate::service::parse_response::spec_outcome_status(outcome).0,
                    crate::service::parse_response::spec_outcome_status(outcome).1,
                );
            assert(outcome == spec_handle_outcome(
                spec_handle(old(self).spec_caches(), old(self).meter_config, item, metering, now).1,
            ));
            assert(Some(token) == item.message.spec_token());
        }
        (answer, request)
    }

    /// A reading that got no answer: its failure answer (with the reading's
    /// members) on its answer topic, and the meter's next waiting reading.
    pub fn uart_meter_reading_timeout<C>(
        &mut self,
        mqtt_req_info: MqttReqInfo<SamplePayload>,
        master: Address,
        seq: &mut FrameSeq,
    ) -> (r: (MqttMessage, Option<UartMessage<SamplePayload, C>>))
        requires
            old(self).wf(),
            mqtt_req_info.extra_data is Some,
        ensures
            final(self).wf(),
            ({
                let p = mqtt_req_info.extra_data->0;
                let (cs, next) = spec_next(old(self).spec_caches(), p.acq_addr@);
                &&& final(self).spec_caches() == cs
                &&& r.0.topic == mqtt_req_info.topic
                &&& exists|ts: Seq<char>|
                    r.0.payload@ == spec_reading_payload(
                        mqtt_req_info.token@,
                        ts,
                        "FAILURE"@,
                        Error::Response(MqttResponseError::Timeout).spec_text(),
                        p,
                        p.data@,
                    )
                &&& match next {
                    None => r.1 is None,
                    Some(item) => r.1 matches Some(m) && spec_reading_request(m, item, master, old(seq).spec_next()),
                }
            }),
    {
        let MqttReqInfo { topic, token, extra_data } = mqtt_req_info;
        let p = match extra_data {
            Some(p) => p,
            None => {
                assert(false);
                return (MqttMessage { topic, payload: String::new() }, None);
            },
        };
        let ts = timestamp();
        let reason = Error::Response(MqttResponseError::Timeout).to_string();
        let payload = reading_payload(token.as_str(), ts.as_str(), "FAILURE", reason.as_str(), &p);
        let next = self.handle_next_request(p.acq_addr.as_str(), master, seq);
        (MqttMessage { topic, payload }, next)
    }

    /// The module's answer to a reading: the answer to the application (see
    /// `spec_reading_answer`; a denial is a failure with its reason) and the
    /// meter's next waiting reading. An answer that is neither the reading nor a
    /// denial is an error, and the meter stays busy.
    #[verifier::spinoff_prover]
    pub fn uart_meter_reading<C>(
        &mut self,
        message: UartMessage<SamplePayload, C>,
        master: Address,
        seq: &mut FrameSeq,
    ) -> (r: Result<(MqttMessage, Option<UartMessage<SamplePayload, C>>), Error>)
        requires
            old(self).wf(),
            message.req_info.mqtt_req_info matches Some(i) && i.extra_data is Some,
        ensures
            final(self).wf(),
            ({
                let i = message.req_info.mqtt_req_info->0;
                let p = i.extra_data->0;
                let a = message.frame.user_data.app_data;
                let u = a.spec_units();
                let pre = match a.spec_check_min(3) {
                    Err(e) => Err(e),
                    Ok(_) => a.spec_check(Afn::CocurrentReadMeter, 1, (3 + crate::bytes::le16(u[1], u[2])) as usize),
                };
                let decoded: Result<(), Error> = if spec_is_deny(message.frame) {
                    match spec_deny(a) {
                        Ok(_) => Ok(()),
                        Err(e) => Err(e),
                    }
                } else {
                    pre
                };
                let (cs, next) = spec_next(old(self).spec_caches(), p.acq_addr@);
                &&& r is Err <==> decoded is Err
                &&& r matches Err(e) ==> decoded == Err::<(), Error>(e) && final(self).spec_caches()
                    == old(self).spec_caches()
                &&& r matches Ok(out) ==> {
                    &&& final(self).spec_caches() == cs
                    &&& out.0.topic == i.topic
                    &&& spec_meter_answer(out.0.payload@, i.token@, spec_is_deny(message.frame), a, p)
                    &&& match next {
                        None => out.1 is None,
                        Some(item) => out.1 matches Some(m) && spec_reading_request(
                            m,
                            item,
                            master,
                            old(seq).spec_next(),
                        ),
                    }
                }
            }),
    {
        let UartMessage { req_info, frame, .. } = message;
        let info = match req_info.into_mqtt_req_info() {
            Some(i) => i,
            None => {
                assert(false);
                return Err(Error::Response(MqttResponseError::Timeout));
            },
        };
        let MqttReqInfo { topic, token, extra_data } = info;
        let mut p = match extra_data {
            Some(p) => p,
            None => {
                assert(false);
                return Err(Error::Response(MqttResponseError::Timeout));
            },
        };
        let ghost p0 = p;
        let ts = timestamp();
        let payload = match UartResponse::from_frame(frame)? {
            UartResponse::Normal(a) => {
                let resp = ConcurrentReadMeterResponse::try_from(a)?;
                let data = hex_encode(resp.message.as_slice());
                if data.unicode_len() == 0 {
                    let reason = Error::ConcurrentMeter(ConcurrentMeterError::MeterReading).to_string();
                    crate::mqtt_message::status_payload(token.as_str(), ts.as_str(), "FAILURE", reason.as_str())
                } else {
                    p.data = data;
                    let text = reading_payload(token.as_str(), ts.as_str(), "OK", "OK", &p);
                    proof {
                        assert(p.spec_members_with(p.data@) == p0.spec_members_with(p.data@));
                    }
                    text
                }
            },
            UartResponse::Deny(d) => {
                let reason = Error::Denied(d.error_code).to_string();
                crate::mqtt_message::status_payload(token.as_str(), ts.as_str(), "FAILURE", reason.as_str())
            },
        };
        let next = self.handle_next_request(p.acq_addr.as_str(), master, seq);
        let answer = MqttMessage { topic, payload };
        proof {
            let i = message.req_info.mqtt_req_info->0;
            let a = message.frame.user_data.app_data;
            assert(answer.payload@ == if spec_is_deny(message.frame) {
                crate::mqtt_message::status_payload_text(
                    i.token@,
                    ts@,
                    "FAILURE"@,
                    Error::Denied(spec_deny(a)->Ok_0.error_code).spec_text(),
                )
            } else {
                spec_reading_answer(i.token@, ts@, p0, a.spec_units().skip(3))
            });
        }
        Ok((answer, next))
    }
}


/// Whether no meter has more readings waiting than `size`.
pub open spec fn spec_queues_within(cs: Seq<CacheV>, size: usize) -> bool {
    forall|i: int| 0 <= i < cs.len() ==> (#[trigger] cs[i]).2.len() <= size
}

/// No meter ever has more readings waiting than the queue size: asking for a
/// reading, finishing one, and dropping old meters keep the bound.
pub proof fn law_queues_within_limit(
    cs: Seq<CacheV>,
    cfg: MeterReadingConfig,
    item: QueuedReading,
    metering: bool,
    now: i64,
    addr: Seq<char>,
    aging_minutes: u32,
)
    requires
        spec_queues_within(cs, cfg.cache_queue_size),
    ensures
        spec_queues_within(spec_handle(cs, cfg, item, metering, now).0, cfg.cache_queue_size),
        spec_queues_within(spec_next(cs, addr).0, cfg.cache_queue_size),
        spec_queues_within(spec_retain(cs, aging_minutes, now), cfg.cache_queue_size),
{
    let size = cfg.cache_queue_size;
    let h = spec_handle(cs, cfg, item, metering, now).0;
    let pos = spec_first(cs, cache_is(item.payload.acq_addr@));
    let cs1 = if pos is None {
        cs.push((item.payload.acq_addr@, false, Seq::<QueuedReading>::empty(), now))
    } else {
        cs
    };
    assert(spec_queues_within(cs1, size)) by {
        assert forall|i: int| 0 <= i < cs1.len() implies (#[trigger] cs1[i]).2.len() <= size by {
            if i < cs.len() {
                assert(cs1[i] == cs[i]);
            }
        }
    }
    assert forall|i: int| 0 <= i < h.len() implies (#[trigger] h[i]).2.len() <= size by {
        if h != cs && h != cs1 {
            assert(h.len() == cs1.len());
            assert(cs1[i].2.len() <= size);
        }
    }
    let n = spec_next(cs, addr).0;
    assert forall|i: int| 0 <= i < n.len() implies (#[trigger] n[i]).2.len() <= size by {
        assert(cs[i].2.len() <= size);
    }
    let r = spec_retain(cs, aging_minutes, now);
    lemma_retain_from(cs, aging_minutes, now);
    assert forall|j: int| 0 <= j < r.len() implies (#[trigger] r[j]).2.len() <= size by {
        let i = choose|i: int| 0 <= i < cs.len() && #[trigger] r[j] == cs[i];
        assert(cs[i].2.len() <= size);
    }
}


/// Replacing one meter's readings changes the busy count by that meter alone.
proof fn lemma_busy_count_update(cs: Seq<CacheV>, i: int, c: CacheV)
    requires
        0 <= i < cs.len(),
    ensures
        spec_busy_count(cs.update(i, c)) + (if spec_busy(cs[i]) { 1int } else { 0int })
            == spec_busy_count(cs) + (if spec_busy(c) { 1int } else { 0int }),
    decreases cs.len(),
{
    let u = cs.update(i, c);
    if i == cs.len() - 1 {
        assert(u.drop_last() =~= cs.drop_last());
    } else {
        lemma_busy_count_update(cs.drop_last(), i, c);
        assert(u.drop_last() =~= cs.drop_last().update(i, c));
    }
}

/// Dropping old meters keeps every busy one.
proof fn lemma_busy_count_retain(cs: Seq<CacheV>, aging_minutes: u32, now: i64)
    ensures
        spec_busy_count(spec_retain(cs, aging_minutes, now)) == spec_busy_count(cs),
    decreases cs.len(),
{
    if cs.len() > 0 {
        let d = cs.drop_last();
        lemma_busy_count_retain(d, aging_minutes, now);
        let r = spec_retain(d, aging_minutes, now);
        if spec_kept(cs.last(), aging_minutes, now) {
            assert(r.push(cs.last()).drop_last() =~= r);
        }
    }
}

/// The number of meters being read stays within the limit when a reading is
/// asked for: a meter that is not being read is refused at the limit, and a meter
/// that is already being read stays so.
pub proof fn law_busy_within_limit(
    cs: Seq<CacheV>,
    cfg: MeterReadingConfig,
    item: QueuedReading,
    metering: bool,
    now: i64,
)
    requires
        spec_busy_count(cs) <= cfg.concurrent_addr,
    ensures
        spec_busy_count(spec_handle(cs, cfg, item, metering, now).0) <= cfg.concurrent_addr,
{
    let addr = item.payload.acq_addr@;
    let pos = spec_first(cs, cache_is(addr));
    let idle = match pos {
        Some(k) => !spec_busy(cs[k]),
        None => true,
    };
    if !(idle && spec_busy_count(cs) >= cfg.concurrent_addr) {
        let cs1 = if pos is None {
            cs.push((addr, false, Seq::<QueuedReading>::empty(), now))
        } else {
            cs
        };
        if pos is None {
            assert(cs1.drop_last() =~= cs);
            assert(spec_busy_count(cs1) == spec_busy_count(cs));
        }
        let i = match pos {
            Some(k) => k,
            None => cs.len() as int,
        };
        assert(0 <= i < cs1.len());
        let c = cs1[i];
        if c.1 || metering {
            if c.2.len() < cfg.cache_queue_size {
                lemma_busy_count_update(cs1, i, (c.0, c.1, c.2.push(item), now));
            }
        } else {
            lemma_busy_count_update(cs1, i, (c.0, true, c.2, c.3));
        }
    }
}

/// Finishing a reading never raises the number of meters being read, and
/// dropping old meters leaves it as it was.
pub proof fn law_busy_never_raised(cs: Seq<CacheV>, addr: Seq<char>, aging_minutes: u32, now: i64)
    ensures
        spec_busy_count(spec_next(cs, addr).0) <= spec_busy_count(cs),
        spec_busy_count(spec_retain(cs, aging_minutes, now)) == spec_busy_count(cs),
{
    match spec_first(cs, cache_is(addr)) {
        None => {},
        Some(i) => {
            let c = cs[i];
            if c.2.len() == 0 {
                lemma_busy_count_update(cs, i, (c.0, false, c.2, c.3));
            } else {
                lemma_busy_count_update(cs, i, (c.0, true, c.2.skip(1), c.3));
            }
        },
    }
    lemma_busy_count_retain(cs, aging_minutes, now);
}

/// The meter cache keeps both limits when a reading is asked for: no more meters
/// are being read than allowed and no queue is longer than its size. A request
/// refused for the meter limit leaves the cache as it was; one refused for a full
/// queue leaves every cached meter as it was and the number being read the same
/// (a new meter is only taken in, idle and with nothing waiting).
pub proof fn law_meter_limits_kept(
    cs: Seq<CacheV>,
    cfg: MeterReadingConfig,
    item: QueuedReading,
    metering: bool,
    now: i64,
)
    requires
        spec_busy_count(cs) <= cfg.concurrent_addr,
        spec_queues_within(cs, cfg.cache_queue_size),
    ensures
        ({
            let (after, outcome) = spec_handle(cs, cfg, item, metering, now);
            &&& spec_busy_count(after) <= cfg.concurrent_addr
            &&& spec_queues_within(after, cfg.cache_queue_size)
            &&& outcome matches Err(ConcurrentMeterError::AddrLimit(_)) ==> after == cs
            &&& outcome matches Err(ConcurrentMeterError::QueueLimit(_)) ==> {
                &&& after.len() >= cs.len()
                &&& forall|i: int| 0 <= i < cs.len() ==> after[i] == cs[i]
                &&& spec_busy_count(after) == spec_busy_count(cs)
            }
        }),
{
    law_busy_within_limit(cs, cfg, item, metering, now);
    law_queues_within_limit(cs, cfg, item, metering, now, item.payload.acq_addr@, 0);
    let addr = item.payload.acq_addr@;
    let pos = spec_first(cs, cache_is(addr));
    if pos is None {
        let cs1 = cs.push((addr, false, Seq::<QueuedReading>::empty(), now));
        assert(cs1.drop_last() =~= cs);
    }
}

/// Whether no meter is held twice.
pub open spec fn spec_distinct(cs: Seq<CacheV>) -> bool {
    forall|a: int, b: int| 0 <= a < b < cs.len() ==> #[trigger] cs[a].0 != #[trigger] cs[b].0
}

/// A meter that is waiting for an answer gets no second request: asking for
/// another of its readings queues it or refuses it, never sends it.
proof fn lemma_waiting_meter_not_sent(
    cs: Seq<CacheV>,
    k: int,
    cfg: MeterReadingConfig,
    item: QueuedReading,
    metering: bool,
    now: i64,
)
    requires
        spec_distinct(cs),
        0 <= k < cs.len(),
        cs[k].1,
        item.payload.acq_addr@ == cs[k].0,
    ensures
        spec_handle(cs, cfg, item, metering, now).1 != Ok::<bool, ConcurrentMeterError>(true),
{
    let p = cache_is(cs[k].0);
    assert forall|j: int| 0 <= j < k implies !p(#[trigger] cs[j]) by {
        assert(cs[j].0 != cs[k].0);
    }
    crate::service::node_config::lemma_first_found(cs, p, k);
}

/// Sending the waiting readings of free meters marks each meter that sent one
/// as waiting for its answer, with that reading taken off its queue; the meter
/// then gets no second request until the answer comes: asking for another of
/// its readings queues it (or refuses it), whether or not the module meters.
pub proof fn law_sent_meters_wait(
    cs: Seq<CacheV>,
    k: int,
    cfg: MeterReadingConfig,
    item: QueuedReading,
    metering: bool,
    now: i64,
)
    requires
        spec_distinct(cs),
        0 <= k < cs.len(),
        !cs[k].1 && cs[k].2.len() > 0,
    ensures
        ({
            let after = Seq::new(cs.len(), |j: int| spec_after_ready(cs[j]));
            &&& after[k].0 == cs[k].0
            &&& after[k].1
            &&& after[k].2 == cs[k].2.skip(1)
            &&& item.payload.acq_addr@ == cs[k].0 ==> spec_handle(after, cfg, item, metering, now).1
                != Ok::<bool, ConcurrentMeterError>(true)
        }),
{
    let after = Seq::new(cs.len(), |j: int| spec_after_ready(cs[j]));
    assert forall|a: int, b: int| 0 <= a < b < after.len() implies #[trigger] after[a].0 != #[trigger] after[b].0 by {
        assert(cs[a].0 != cs[b].0);
    }
    if item.payload.acq_addr@ == cs[k].0 {
        lemma_waiting_meter_not_sent(after, k, cfg, item, metering, now);
    }
}

/// When a meter's reading is over and a waiting reading of it is sent next, the
/// meter stays marked as waiting for an answer, with that reading (the first that
/// waited) taken off its queue; the meter then gets no second request until the
/// answer comes.
pub proof fn law_next_reading_keeps_meter_waiting(
    cs: Seq<CacheV>,
    addr: Seq<char>,
    cfg: MeterReadingConfig,
    item: QueuedReading,
    metering: bool,
    now: i64,
)
    requires
        spec_distinct(cs),
    ensures
        ({
            let (after, sent) = spec_next(cs, addr);
            sent is Some ==> {
                &&& exists|k: int| {
                    &&& 0 <= k < cs.len()
                    &&& #[trigger] cs[k].0 == addr
                    &&& sent == Some(cs[k].2[0])
                    &&& after[k].0 == addr
                    &&& after[k].1
                    &&& after[k].2 == cs[k].2.skip(1)
                }
                &&& item.payload.acq_addr@ == addr ==> spec_handle(after, cfg, item, metering, now).1
                    != Ok::<bool, ConcurrentMeterError>(true)
            }
        }),
{
    let (after, sent) = spec_next(cs, addr);
    if sent is Some {
        let k = spec_first(cs, cache_is(addr))->0;
        assert(cs[k].0 == addr);
        assert forall|a: int, b: int| 0 <= a < b < after.len() implies #[trigger] after[a].0 != #[trigger] after[b].0 by {
            assert(after[a].0 == cs[a].0 && after[b].0 == cs[b].0);
        }
        if item.payload.acq_addr@ == addr {
            lemma_waiting_meter_not_sent(after, k, cfg, item, metering, now);
        }
    }
}

/// Whether a meter sends its first waiting reading when free meters are served:
/// it is free and has readings waiting.
pub open spec fn spec_sends(c: CacheV) -> bool {
    !c.1 && c.2.len() > 0
}

/// The readings sent when free meters are served are exactly the first waiting
/// readings of the free meters that have some: each one sent is such a reading,
/// and each such reading is sent.
pub proof fn law_ready_are_first_waiting(cs: Seq<CacheV>)
    ensures
        forall|j: int| 0 <= j < spec_ready(cs).len() ==> exists|k: int|
            0 <= k < cs.len() && spec_sends(cs[k]) && #[trigger] spec_ready(cs)[j] == cs[k].2[0],
        forall|k: int| 0 <= k < cs.len() && spec_sends(#[trigger] cs[k]) ==> spec_ready(cs).contains(cs[k].2[0]),
    decreases cs.len(),
{
    if cs.len() > 0 {
        let d = cs.drop_last();
        law_ready_are_first_waiting(d);
        let r = spec_ready(d);
        let out = spec_ready(cs);
        assert forall|j: int| 0 <= j < out.len() implies exists|k: int|
            0 <= k < cs.len() && spec_sends(cs[k]) && #[trigger] out[j] == cs[k].2[0] by {
            if j < r.len() {
                let k = choose|k: int| 0 <= k < d.len() && spec_sends(d[k]) && #[trigger] r[j] == d[k].2[0];
                assert(cs[k] == d[k]);
                assert(out[j] == r[j]);
            } else {
                assert(out[j] == cs[cs.len() - 1].2[0]);
            }
        }
        assert forall|k: int| 0 <= k < cs.len() && spec_sends(#[trigger] cs[k]) implies out.contains(cs[k].2[0]) by {
            if k < cs.len() - 1 {
                assert(cs[k] == d[k]);
                assert(r.contains(d[k].2[0]));
                let j = choose|j: int| 0 <= j < r.len() && r[j] == d[k].2[0];
                if spec_sends(cs.last()) {
                    assert(out[j] == r[j]);
                } else {
                    assert(out == r);
                }
            } else {
                assert(out[out.len() - 1] == cs[k].2[0]);
            }
        }
    }
}

/// When a meter's reading is over and none of its readings waits, the meter is
/// free again, nothing is sent and every other meter is left as it was; a new
/// request for it is then sent at once unless the module meters or the limit of
/// meters being read is reached.
pub proof fn law_finished_meter_is_free(
    cs: Seq<CacheV>,
    k: int,
    cfg: MeterReadingConfig,
    item: QueuedReading,
    now: i64,
)
    requires
        spec_distinct(cs),
        0 <= k < cs.len(),
        cs[k].2.len() == 0,
    ensures
        ({
            let (after, sent) = spec_next(cs, cs[k].0);
            &&& sent is None
            &&& after.len() == cs.len()
            &&& !after[k].1 && after[k].0 == cs[k].0 && after[k].2 == cs[k].2
            &&& forall|j: int| 0 <= j < cs.len() && j != k ==> after[j] == cs[j]
            &&& item.payload.acq_addr@ == cs[k].0 && spec_busy_count(after) < cfg.concurrent_addr
                ==> spec_handle(after, cfg, item, false, now).1 == Ok::<bool, ConcurrentMeterError>(true)
        }),
{
    let p = cache_is(cs[k].0);
    assert forall|j: int| 0 <= j < k implies !p(#[trigger] cs[j]) by {
        assert(cs[j].0 != cs[k].0);
    }
    crate::service::node_config::lemma_first_found(cs, p, k);
    let (after, sent) = spec_next(cs, cs[k].0);
    assert forall|j: int| 0 <= j < k implies !p(#[trigger] after[j]) by {
        assert(after[j] == cs[j]);
    }
    crate::service::node_config::lemma_first_found(after, p, k);
}

} // verus!
