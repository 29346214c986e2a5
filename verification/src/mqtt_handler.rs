//! The order in which MQTT requests are served: lower priority numbers first,
//! and among equal priorities the earlier request first.
use vstd::prelude::*;

use crate::error::{Error, MqttResponseError};
use crate::mqtt_message::{status_payload_text, MqttMessage, STATUS_FAILURE};
use crate::mqtt_topic::spec_transfer_text;
use crate::schema_check::{schema_check, spec_schema_verdict};

verus! {

/// The kinds of request topic the service subscribes to.
#[derive(Debug, Clone, Copy, PartialEq, Eq)]
pub enum MqttTopicType {
    GetModuleInfo,
    GetMasterIdInfo,
    GetMasterAddress,
    SetMasterAddress,
    AddAcqFiles,
    GetAcqFiles,
    GetAcqFilesNum,
    DelAcqFiles,
    ClearAcqFiles,
    ConcurrentMeter,
    GetChipInfo,
}

/// Arrival numbers handed to requests, in turn.
#[derive(Debug)]
pub struct MessageSequence {
    next: u64,
}

impl MessageSequence {
    pub closed spec fn spec_next(self) -> u64 {
        self.next
    }

    pub fn new() -> (s: Self)
        ensures
            s.spec_next() == 0,
    {
        MessageSequence { next: 0 }
    }

    /// The next arrival number (the count wraps after the largest).
    pub fn take(&mut self) -> (n: u64)
        ensures
            n == old(self).spec_next(),
            final(self).spec_next() == (if n == u64::MAX {
                0
            } else {
                n + 1
            }),
    {
        let n = self.next;
        self.next = if n == u64::MAX {
            0
        } else {
            n + 1
        };
        n
    }
}

/// A request waiting to be served, with its priority and arrival number.
#[derive(Debug, Clone, PartialEq, Eq)]
pub struct PriorityMessage {
    pub priority: u64,
    pub sequence: u64,
    pub message: MqttMessage,
}

/// Whether `a` is served no later than `b`: a lower priority number, or the same
/// and an earlier arrival.
pub open spec fn spec_before(a: PriorityMessage, b: PriorityMessage) -> bool {
    a.priority < b.priority || (a.priority == b.priority && a.sequence <= b.sequence)
}

/// Serving order is a total order on (priority, arrival): any two requests are
/// ordered one way or the other, both ways only when priority and arrival agree,
/// and the order is transitive.
pub proof fn law_serving_order(a: PriorityMessage, b: PriorityMessage, c: PriorityMessage)
    ensures
        spec_before(a, b) || spec_before(b, a),
        spec_before(a, b) && spec_before(b, a) ==> a.priority == b.priority && a.sequence == b.sequence,
        spec_before(a, b) && spec_before(b, c) ==> spec_before(a, c),
{
}

impl PriorityMessage {
    /// A request with its payload's priority and the next arrival number; the
    /// payload must be JSON.
    pub fn new(message: MqttMessage, sequence: &mut MessageSequence) -> (p: Self)
        requires
            message.spec_priority() is Some,
        ensures
            p.priority == match message.spec_priority()->0 {
                Some(v) => v,
                None => 0,
            },
            p.sequence == old(sequence).spec_next(),
            p.message == message,
            final(sequence).spec_next() == (if old(sequence).spec_next() == u64::MAX {
                0
            } else {
                old(sequence).spec_next() + 1
            }),
    {
        let priority = message.get_priority();
        PriorityMessage { priority, sequence: sequence.take(), message }
    }

    /// `new`, where the payload is JSON.
    pub fn try_new(message: MqttMessage, sequence: &mut MessageSequence) -> (p: Option<Self>)
        ensures
            p is Some <==> message.spec_priority() is Some,
            p matches Some(m) ==> m.message == message && m.sequence == old(sequence).spec_next()
                && m.priority == match message.spec_priority()->0 {
                Some(v) => v,
                None => 0,
            } && final(sequence).spec_next() == (if old(sequence).spec_next() == u64::MAX {
                0
            } else {
                old(sequence).spec_next() + 1
            }),
            p is None ==> final(sequence).spec_next() == old(sequence).spec_next(),
    {
        match message.try_get_priority() {
            Some(_) => Some(Self::new(message, sequence)),
            None => None,
        }
    }
}

/// What becomes of an arriving request.
#[derive(Debug)]
pub enum Admission {
    /// Refused by its topic's schema, with the failure answer to send.
    Refused(MqttMessage),
    /// Waiting to be served.
    Queued(PriorityMessage),
}

/// The reason a request is refused for, if it is: what the schema check of its
/// topic says, where the topic has a schema.
pub open spec fn spec_refusal(schema: Option<&jsonschema::JSONSchema>, payload: Seq<char>) -> Option<Seq<char>> {
    match schema {
        Some(s) => spec_schema_verdict(*s, payload),
        None => None,
    }
}

/// What receiving `message` gives, with the arrival counter at `before` and then
/// `after`: a request refused by its schema is answered on its answer topic with
/// `FAILURE` and the reason, and the counter stays; any other is queued with its
/// priority and the counter's number, and the counter moves on.
pub open spec fn spec_received(
    schema: Option<&jsonschema::JSONSchema>,
    message: MqttMessage,
    before: u64,
    a: Admission,
    after: u64,
) -> bool {
    &&& (a is Refused <==> spec_refusal(schema, message.payload@) is Some)
    &&& (a matches Admission::Refused(m) ==> {
        &&& m.topic@ == spec_transfer_text(message.topic@)
        &&& exists|ts: Seq<char>|
            m.payload@ == status_payload_text(
                message.spec_token()->0,
                ts,
                STATUS_FAILURE@,
                "invalid json request: "@ + spec_refusal(schema, message.payload@)->0,
            )
        &&& after == before
    })
    &&& (a matches Admission::Queued(p) ==> {
        &&& p.message == message
        &&& p.sequence == before
        &&& p.priority == match message.spec_priority()->0 {
            Some(v) => v,
            None => 0,
        }
        &&& after == (if before == u64::MAX {
            0
        } else {
            before + 1
        })
    })
}

/// Whether a request can be received: one to be refused needs an answer topic
/// and a token, one to be queued a JSON payload.
pub open spec fn spec_receivable(schema: Option<&jsonschema::JSONSchema>, message: MqttMessage) -> bool {
    &&& spec_refusal(schema, message.payload@) is Some ==> message.spec_answerable()
    &&& spec_refusal(schema, message.payload@) is None ==> message.spec_priority() is Some
}

/// Receives an arriving request where that can be done (see `receive`); `None`,
/// with the counter unchanged, for a request to be refused that cannot be
/// answered, or one to be queued whose payload is no JSON.
pub fn take_in(schema: Option<&jsonschema::JSONSchema>, message: MqttMessage, sequence: &mut MessageSequence) -> (a: Option<Admission>)
    ensures
        a is None <==> !spec_receivable(schema, message),
        a is None ==> final(sequence).spec_next() == old(sequence).spec_next(),
        a matches Some(x) ==> spec_received(schema, message, old(sequence).spec_next(), x, final(sequence).spec_next()),
{
    let refused = match schema {
        Some(s) => schema_check(s, message.payload()).is_err(),
        None => false,
    };
    if refused && !message.answerable() {
        return None;
    }
    if !refused && message.try_get_priority().is_none() {
        return None;
    }
    Some(receive(schema, message, sequence))
}

/// Receives an arriving request. One that fails its topic's schema is answered at
/// once on the answer topic with `FAILURE` and the reason "invalid json request: "
/// followed by what the check found; any other waits in the queue by its priority,
/// with the next arrival number.
pub fn receive(schema: Option<&jsonschema::JSONSchema>, message: MqttMessage, sequence: &mut MessageSequence) -> (a: Admission)
    requires
        spec_receivable(schema, message),
    ensures
        spec_received(schema, message, old(sequence).spec_next(), a, final(sequence).spec_next()),
{
    let verdict: Option<String> = match schema {
        Some(s) => match schema_check(s, message.payload()) {
            Err(reason) => Some(reason),
            Ok(()) => None,
        },
        None => None,
    };
    match verdict {
        Some(reason) => {
            let ghost found = reason@;
            let ghost token = message.spec_token()->0;
            let ghost refusal = spec_refusal(schema, message.payload@);
            assert(refusal == Some(found));
            let text = Error::Response(MqttResponseError::InvalidJson(reason)).to_string();
            let answer = MqttMessage::new_with_msg_status_reason(message, STATUS_FAILURE, text.as_str());
            proof {
                let ts = choose|ts: Seq<char>|
                    answer.payload@ == status_payload_text(token, ts, STATUS_FAILURE@, text@);
                assert(answer.payload@ == status_payload_text(token, ts, STATUS_FAILURE@, "invalid json request: "@ + refusal->0));
            }
            Admission::Refused(answer)
        },
        None => Admission::Queued(PriorityMessage::new(message, sequence)),
    }
}

/// The requests waiting to be served.
#[derive(Debug)]
pub struct PriorityQueue {
    pub items: Vec<PriorityMessage>,
}

impl PriorityQueue {
    pub fn new() -> (q: Self)
        ensures
            q.items@.len() == 0,
    {
        PriorityQueue { items: Vec::new() }
    }

    pub fn push(&mut self, message: PriorityMessage)
        ensures
            final(self).items@ == old(self).items@.push(message),
    {
        self.items.push(message);
    }

    /// Takes out the request to serve next: none when nothing waits; otherwise
    /// one that no waiting request comes before, the others staying in order.
    pub fn pop(&mut self) -> (m: Option<PriorityMessage>)
        ensures
            old(self).items@.len() == 0 <==> m is None,
            m is None ==> final(self).items@ == old(self).items@,
            m matches Some(p) ==> exists|i: int|
                0 <= i < old(self).items@.len() && old(self).items@[i] == p && final(self).items@
                    == old(self).items@.remove(i),
            m matches Some(p) ==> forall|j: int|
                0 <= j < old(self).items@.len() ==> spec_before(p, #[trigger] old(self).items@[j]),
    {
        let n = self.items.len();
        if n == 0 {
            return None;
        }
        let mut best: usize = 0;
        let mut i: usize = 1;
        while i < n
            invariant
                n == self.items@.len(),
                1 <= i <= n,
                best < n,
                forall|j: int| 0 <= j < i ==> spec_before(self.items@[best as int], #[trigger] self.items@[j]),
            decreases n - i,
        {
            let a = &self.items[i];
            let b = &self.items[best];
            if a.priority < b.priority || (a.priority == b.priority && a.sequence < b.sequence) {
                best = i;
            }
            i = i + 1;
        }
        let ghost before = self.items@;
        let m = self.items.remove(best);
        assert(before[best as int] == m);
        Some(m)
    }
}

} // verus!
