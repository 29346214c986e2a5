//! MQTT topics of the form `{app}/{operator}/{info_type}/{info_target}/{info_object}`.
use vstd::prelude::*;

use crate::error::Error;
use crate::text::{owned, push_char, push_str, str_eq};
use crate::APP_NAME;

verus! {

/// The characters of this service's name, the target of every topic it accepts.
pub open spec fn spec_app_name() -> Seq<char> {
    seq!['P', 'L', 'C', 'S', 'e', 'r', 'v', 'i', 'c', 'e', 'G', 'W']
}

/// This service's name.
pub fn app_name() -> (s: &'static str)
    ensures
        s@ == spec_app_name(),
{
    proof {
        reveal_strlit("PLCServiceGW");
    }
    APP_NAME
}

/// Why a topic was refused.
#[derive(Debug, Clone, PartialEq, Eq)]
pub enum TopicError {
    /// The operator segment is not one of the four operators.
    Operator(String),
    /// The information type segment is not one of the four types.
    InfoType(String),
    /// The target is not this service.
    InfoTarget(String),
    /// The topic does not have five segments.
    Topic(String),
}

/// What a topic asks for.
#[derive(Debug, Clone, Copy, PartialEq, Eq)]
pub enum MqttTopicOperator {
    SetOp,
    Get,
    Action,
    Notify,
}

impl MqttTopicOperator {
    pub open spec fn spec_text(self) -> Seq<char> {
        match self {
            MqttTopicOperator::SetOp => seq!['s', 'e', 't'],
            MqttTopicOperator::Get => seq!['g', 'e', 't'],
            MqttTopicOperator::Action => seq!['a', 'c', 't', 'i', 'o', 'n'],
            MqttTopicOperator::Notify => seq!['n', 'o', 't', 'i', 'f', 'y'],
        }
    }

    /// The operator whose text is `s`, if any.
    pub open spec fn spec_parse(s: Seq<char>) -> Option<MqttTopicOperator> {
        if s == MqttTopicOperator::SetOp.spec_text() {
            Some(MqttTopicOperator::SetOp)
        } else if s == MqttTopicOperator::Get.spec_text() {
            Some(MqttTopicOperator::Get)
        } else if s == MqttTopicOperator::Action.spec_text() {
            Some(MqttTopicOperator::Action)
        } else if s == MqttTopicOperator::Notify.spec_text() {
            Some(MqttTopicOperator::Notify)
        } else {
            None
        }
    }

    fn text(self) -> (t: &'static str)
        ensures
            t@ == self.spec_text(),
    {
        proof {
            reveal_strlit("set");
            reveal_strlit("get");
            reveal_strlit("action");
            reveal_strlit("notify");
        }
        match self {
            MqttTopicOperator::SetOp => "set",
            MqttTopicOperator::Get => "get",
            MqttTopicOperator::Action => "action",
            MqttTopicOperator::Notify => "notify",
        }
    }

    /// The operator's text.
    pub fn to_string(&self) -> (s: String)
        ensures
            s@ == self.spec_text(),
    {
        owned(self.text())
    }
}

impl<'a> TryFrom<&'a str> for MqttTopicOperator {
    type Error = Error;

    fn try_from(value: &'a str) -> (r: Result<MqttTopicOperator, Error>)
        ensures
            r matches Ok(o) ==> Self::spec_parse(value@) == Some(o),
            r matches Err(e) ==> Self::spec_parse(value@) is None && (e matches Error::Topic(
                TopicError::Operator(t),
            ) && t@ == value@),
            Self::spec_parse(value@) is Some ==> r is Ok,
    {
        let all = [
            MqttTopicOperator::SetOp,
            MqttTopicOperator::Get,
            MqttTopicOperator::Action,
            MqttTopicOperator::Notify,
        ];
        let mut i: usize = 0;
        while i < 4
            invariant
                i <= 4,
                all@ == seq![
                    MqttTopicOperator::SetOp,
                    MqttTopicOperator::Get,
                    MqttTopicOperator::Action,
                    MqttTopicOperator::Notify,
                ],
                forall|j: int| 0 <= j < i ==> value@ != (#[trigger] all@[j]).spec_text(),
            decreases 4 - i,
        {
            if str_eq(value, all[i].text()) {
                return Ok(all[i]);
            }
            i = i + 1;
        }
        assert(value@ != all@[0].spec_text() && value@ != all@[1].spec_text());
        assert(value@ != all@[2].spec_text() && value@ != all@[3].spec_text());
        Err(Error::Topic(TopicError::Operator(owned(value))))
    }
}

impl<'a> vstd::std_specs::convert::TryFromSpecImpl<&'a str> for MqttTopicOperator {
    open spec fn obeys_try_from_spec() -> bool {
        false
    }

    open spec fn try_from_spec(value: &'a str) -> Result<MqttTopicOperator, Error> {
        arbitrary()
    }
}

/// What kind of message a topic carries.
#[derive(Debug, Clone, Copy, PartialEq, Eq)]
pub enum MqttTopicInfoType {
    Request,
    Response,
    Event,
    Spont,
}

impl MqttTopicInfoType {
    pub open spec fn spec_text(self) -> Seq<char> {
        match self {
            MqttTopicInfoType::Request => seq!['r', 'e', 'q', 'u', 'e', 's', 't'],
            MqttTopicInfoType::Response => seq!['r', 'e', 's', 'p', 'o', 'n', 's', 'e'],
            MqttTopicInfoType::Event => seq!['e', 'v', 'e', 'n', 't'],
            MqttTopicInfoType::Spont => seq!['s', 'p', 'o', 'n', 't'],
        }
    }

    /// The information type whose text is `s`, if any.
    pub open spec fn spec_parse(s: Seq<char>) -> Option<MqttTopicInfoType> {
        if s == MqttTopicInfoType::Request.spec_text() {
            Some(MqttTopicInfoType::Request)
        } else if s == MqttTopicInfoType::Response.spec_text() {
            Some(MqttTopicInfoType::Response)
        } else if s == MqttTopicInfoType::Event.spec_text() {
            Some(MqttTopicInfoType::Event)
        } else if s == MqttTopicInfoType::Spont.spec_text() {
            Some(MqttTopicInfoType::Spont)
        } else {
            None
        }
    }

    fn text(self) -> (t: &'static str)
        ensures
            t@ == self.spec_text(),
    {
        proof {
            reveal_strlit("request");
            reveal_strlit("response");
            reveal_strlit("event");
            reveal_strlit("spont");
        }
        match self {
            MqttTopicInfoType::Request => "request",
            MqttTopicInfoType::Response => "response",
            MqttTopicInfoType::Event => "event",
            MqttTopicInfoType::Spont => "spont",
        }
    }

    /// The information type's text.
    pub fn to_string(&self) -> (s: String)
        ensures
            s@ == self.spec_text(),
    {
        owned(self.text())
    }
}

impl<'a> TryFrom<&'a str> for MqttTopicInfoType {
    type Error = Error;

    fn try_from(value: &'a str) -> (r: Result<MqttTopicInfoType, Error>)
        ensures
            r matches Ok(o) ==> Self::spec_parse(value@) == Some(o),
            r matches Err(e) ==> Self::spec_parse(value@) is None && (e matches Error::Topic(
                TopicError::InfoType(t),
            ) && t@ == value@),
            Self::spec_parse(value@) is Some ==> r is Ok,
    {
        let all = [
            MqttTopicInfoType::Request,
            MqttTopicInfoType::Response,
            MqttTopicInfoType::Event,
            MqttTopicInfoType::Spont,
        ];
        let mut i: usize = 0;
        while i < 4
            invariant
                i <= 4,
                all@ == seq![
                    MqttTopicInfoType::Request,
                    MqttTopicInfoType::Response,
                    MqttTopicInfoType::Event,
                    MqttTopicInfoType::Spont,
                ],
                forall|j: int| 0 <= j < i ==> value@ != (#[trigger] all@[j]).spec_text(),
            decreases 4 - i,
        {
            if str_eq(value, all[i].text()) {
                return Ok(all[i]);
            }
            i = i + 1;
        }
        assert(value@ != all@[0].spec_text() && value@ != all@[1].spec_text());
        assert(value@ != all@[2].spec_text() && value@ != all@[3].spec_text());
        Err(Error::Topic(TopicError::InfoType(owned(value))))
    }
}

impl<'a> vstd::std_specs::convert::TryFromSpecImpl<&'a str> for MqttTopicInfoType {
    open spec fn obeys_try_from_spec() -> bool {
        false
    }

    open spec fn try_from_spec(value: &'a str) -> Result<MqttTopicInfoType, Error> {
        arbitrary()
    }
}

/// The segments of a text separated by `/`: one more segment than separators,
/// empty segments included.
pub open spec fn spec_split(s: Seq<char>) -> Seq<Seq<char>>
    decreases s.len(),
{
    if s.len() == 0 {
        seq![Seq::empty()]
    } else {
        let rest = spec_split(s.drop_last());
        if s.last() == '/' {
            rest.push(Seq::empty())
        } else {
            rest.update(rest.len() - 1, rest.last().push(s.last()))
        }
    }
}

/// Segments joined by `/`.
pub open spec fn spec_join(parts: Seq<Seq<char>>) -> Seq<char>
    decreases parts.len(),
{
    if parts.len() <= 1 {
        if parts.len() == 1 {
            parts[0]
        } else {
            Seq::empty()
        }
    } else {
        spec_join(parts.drop_last()) + seq!['/'] + parts.last()
    }
}

/// Whether a text holds no `/`.
pub open spec fn spec_no_slash(s: Seq<char>) -> bool {
    forall|i: int| 0 <= i < s.len() ==> s[i] != '/'
}

/// The texts of a sequence of strings.
pub open spec fn spec_texts(v: Seq<String>) -> Seq<Seq<char>> {
    v.map_values(|x: String| x@)
}

pub proof fn lemma_split_nonempty(s: Seq<char>)
    ensures
        spec_split(s).len() >= 1,
    decreases s.len(),
{
    if s.len() > 0 {
        lemma_split_nonempty(s.drop_last());
    }
}

/// Joining the segments of a text gives the text back.
pub proof fn lemma_join_split(s: Seq<char>)
    ensures
        spec_join(spec_split(s)) == s,
    decreases s.len(),
{
    if s.len() > 0 {
        let t = s.drop_last();
        lemma_join_split(t);
        lemma_split_nonempty(t);
        let rest = spec_split(t);
        if s.last() == '/' {
            assert(spec_split(s).drop_last() =~= rest);
            assert(s =~= t + seq!['/'] + Seq::<char>::empty());
        } else {
            let up = rest.update(rest.len() - 1, rest.last().push(s.last()));
            assert(up.drop_last() =~= rest.drop_last());
            if rest.len() == 1 {
                assert(s =~= rest[0].push(s.last()));
            } else {
                let jl = spec_join(rest.drop_last());
                assert(t == jl + seq!['/'] + rest.last());
                assert(up.last() == rest.last().push(s.last()));
                assert(spec_join(up) == spec_join(up.drop_last()) + seq!['/'] + up.last());
                assert(s =~= t.push(s.last()));
                assert(s =~= jl + seq!['/'] + rest.last().push(s.last()));
            }
        }
    }
}

/// Splitting a join of segments that hold no `/` gives the segments back.
pub proof fn lemma_split_join(parts: Seq<Seq<char>>)
    requires
        parts.len() >= 1,
        forall|i: int| 0 <= i < parts.len() ==> spec_no_slash(#[trigger] parts[i]),
    ensures
        spec_split(spec_join(parts)) == parts,
    decreases parts.len(),
{
    if parts.len() == 1 {
        lemma_split_no_slash(parts[0]);
        assert(spec_split(parts[0]) =~= parts);
    } else {
        let init = parts.drop_last();
        assert forall|i: int| 0 <= i < init.len() implies spec_no_slash(#[trigger] init[i]) by {
            assert(init[i] == parts[i]);
        }
        lemma_split_join(init);
        let j = spec_join(init) + seq!['/'];
        assert(j.drop_last() =~= spec_join(init));
        assert(j.last() == '/');
        assert(spec_split(j) =~= init.push(Seq::empty()));
        assert(spec_no_slash(parts[parts.len() - 1]));
        lemma_split_append(j, parts.last(), init.push(Seq::empty()));
        assert(init.push(Seq::empty()).update(init.len() as int, parts.last()) =~= parts);
    }
}

proof fn lemma_split_no_slash(s: Seq<char>)
    requires
        spec_no_slash(s),
    ensures
        spec_split(s) == seq![s],
    decreases s.len(),
{
    if s.len() > 0 {
        let t = s.drop_last();
        assert(spec_no_slash(t)) by {
            assert forall|i: int| 0 <= i < t.len() implies t[i] != '/' by {
                assert(t[i] == s[i]);
            }
        }
        assert(s.last() == s[s.len() - 1]);
        lemma_split_no_slash(t);
        assert(t.push(s.last()) =~= s);
        assert(spec_split(s) =~= seq![s]);
    } else {
        assert(s =~= Seq::<char>::empty());
        assert(spec_split(s) =~= seq![s]);
    }
}

/// No segment of a split text holds a `/`.
pub proof fn lemma_split_parts_no_slash(s: Seq<char>)
    ensures
        forall|i: int| 0 <= i < spec_split(s).len() ==> spec_no_slash(#[trigger] spec_split(s)[i]),
    decreases s.len(),
{
    if s.len() > 0 {
        lemma_split_parts_no_slash(s.drop_last());
        lemma_split_nonempty(s.drop_last());
        let rest = spec_split(s.drop_last());
        if s.last() != '/' {
            let last = rest.last().push(s.last());
            assert(spec_no_slash(rest[rest.len() - 1]));
            assert(spec_no_slash(last)) by {
                assert forall|k: int| 0 <= k < last.len() implies last[k] != '/' by {
                    if k < last.len() - 1 {
                        assert(last[k] == rest[rest.len() - 1][k]);
                    }
                }
            }
            assert forall|i: int| 0 <= i < spec_split(s).len() implies spec_no_slash(#[trigger] spec_split(s)[i]) by {
                if i < rest.len() - 1 {
                    assert(spec_split(s)[i] == rest[i]);
                }
            }
        } else {
            assert forall|i: int| 0 <= i < spec_split(s).len() implies spec_no_slash(#[trigger] spec_split(s)[i]) by {
                if i < rest.len() {
                    assert(spec_split(s)[i] == rest[i]);
                } else {
                    assert(spec_split(s)[i] =~= Seq::<char>::empty());
                }
            }
        }
    }
}

/// Appending text without `/` extends the last segment.
proof fn lemma_split_append(a: Seq<char>, b: Seq<char>, parts: Seq<Seq<char>>)
    requires
        spec_no_slash(b),
        spec_split(a) == parts,
        parts.len() >= 1,
    ensures
        spec_split(a + b) == parts.update(parts.len() - 1, parts.last() + b),
    decreases b.len(),
{
    if b.len() == 0 {
        assert(a + b =~= a);
        assert(parts.update(parts.len() - 1, parts.last() + b) =~= parts);
    } else {
        let b0 = b.drop_last();
        lemma_split_append(a, b0, parts);
        let ab = a + b;
        assert(ab.drop_last() =~= a + b0);
        assert(ab.last() == b.last());
        assert(parts.last() + b =~= (parts.last() + b0).push(b.last()));
        assert(parts.update(parts.len() - 1, parts.last() + b0).update(
            parts.len() - 1,
            (parts.last() + b0).push(b.last()),
        ) =~= parts.update(parts.len() - 1, parts.last() + b));
    }
}

/// Splits a text at every `/`.
pub fn split_topic(s: &str) -> (parts: Vec<String>)
    ensures
        spec_texts(parts@) == spec_split(s@),
{
    let n = s.unicode_len();
    let mut parts: Vec<String> = Vec::new();
    let mut cur = String::new();
    let mut i: usize = 0;
    while i < n
        invariant
            n == s@.len(),
            i <= n,
            spec_texts(parts@).push(cur@) == spec_split(s@.take(i as int)),
        decreases n - i,
    {
        let c = s.get_char(i);
        proof {
            assert(s@.take(i + 1).drop_last() =~= s@.take(i as int));
            assert(s@.take(i + 1).last() == c);
        }
        if c == '/' {
            let ghost before = spec_texts(parts@);
            parts.push(cur);
            cur = String::new();
            assert(spec_texts(parts@) =~= before.push(spec_texts(parts@).last()));
        } else {
            let ghost before = spec_texts(parts@).push(cur@);
            push_char(&mut cur, c);
            assert(spec_texts(parts@).push(cur@) =~= before.update(before.len() - 1, before.last().push(c)));
        }
        i = i + 1;
    }
    let ghost before = spec_texts(parts@);
    parts.push(cur);
    assert(s@.take(n as int) =~= s@);
    assert(spec_texts(parts@) =~= before.push(spec_texts(parts@).last()));
    parts
}

/// A topic: `{app}/{operator}/{info_type}/{info_target}/{info_object}`.
#[derive(Debug, Clone, PartialEq, Eq)]
pub struct MqttTopic {
    pub app: String,
    pub operator: MqttTopicOperator,
    pub info_type: MqttTopicInfoType,
    pub info_target: String,
    pub info_object: String,
}

/// The outcome of reading a topic: five segments, addressed to this service, with a
/// known operator and information type, checked in that order.
pub open spec fn spec_topic_parse(s: Seq<char>) -> Result<(Seq<char>, MqttTopicOperator, MqttTopicInfoType, Seq<char>, Seq<char>), TopicError> {
    let p = spec_split(s);
    if p.len() != 5 {
        Err(TopicError::Topic(arbitrary()))
    } else if p[3] != spec_app_name() {
        Err(TopicError::InfoTarget(arbitrary()))
    } else {
        match (MqttTopicOperator::spec_parse(p[1]), MqttTopicInfoType::spec_parse(p[2])) {
            (None, _) => Err(TopicError::Operator(arbitrary())),
            (Some(_), None) => Err(TopicError::InfoType(arbitrary())),
            (Some(o), Some(t)) => Ok((p[0], o, t, p[3], p[4])),
        }
    }
}

/// The topic to answer a topic with segments `p` on: target and application swapped,
/// a request made a response.
pub open spec fn spec_answer_topic(p: (Seq<char>, MqttTopicOperator, MqttTopicInfoType, Seq<char>, Seq<char>)) -> Seq<char> {
    let t = if p.2 == MqttTopicInfoType::Request {
        MqttTopicInfoType::Response
    } else {
        p.2
    };
    p.3 + seq!['/'] + p.1.spec_text() + seq!['/'] + t.spec_text() + seq!['/'] + p.0 + seq!['/'] + p.4
}

/// The topic to answer a valid topic text on.
pub open spec fn spec_transfer_text(s: Seq<char>) -> Seq<char> {
    match spec_topic_parse(s) {
        Ok(p) => spec_answer_topic(p),
        Err(_) => Seq::empty(),
    }
}

/// The text that a topic error names: the topic, or the offending segment.
pub open spec fn spec_error_text(e: TopicError) -> Seq<char> {
    match e {
        TopicError::Operator(t) => t@,
        TopicError::InfoType(t) => t@,
        TopicError::InfoTarget(t) => t@,
        TopicError::Topic(t) => t@,
    }
}

/// Whether two topic errors are of the same kind.
pub open spec fn spec_same_kind(a: TopicError, b: TopicError) -> bool {
    match (a, b) {
        (TopicError::Operator(_), TopicError::Operator(_)) => true,
        (TopicError::InfoType(_), TopicError::InfoType(_)) => true,
        (TopicError::InfoTarget(_), TopicError::InfoTarget(_)) => true,
        (TopicError::Topic(_), TopicError::Topic(_)) => true,
        _ => false,
    }
}

impl MqttTopic {
    /// The topic's five segments.
    pub open spec fn spec_parts(self) -> (Seq<char>, MqttTopicOperator, MqttTopicInfoType, Seq<char>, Seq<char>) {
        (self.app@, self.operator, self.info_type, self.info_target@, self.info_object@)
    }

    /// The topic as text.
    pub open spec fn spec_text(self) -> Seq<char> {
        self.app@ + seq!['/'] + self.spec_app_suffix()
    }

    /// The topic without its application segment.
    pub open spec fn spec_app_suffix(self) -> Seq<char> {
        self.operator.spec_text() + seq!['/'] + self.info_type.spec_text() + seq!['/']
            + self.info_target@ + seq!['/'] + self.info_object@
    }

    /// The topic of the answer: target and application swapped, a request made a response.
    pub open spec fn spec_transfer(self) -> Seq<char> {
        spec_answer_topic(self.spec_parts())
    }

    /// The application that a topic text names: its first segment.
    pub fn get_app(topic: &str) -> (s: String)
        ensures
            s@ == spec_split(topic@)[0],
    {
        proof {
            lemma_split_nonempty(topic@);
        }
        let mut parts = split_topic(topic);
        parts.swap_remove(0)
    }

    pub fn app(&self) -> (s: &str)
        ensures
            s@ == self.app@,
    {
        self.app.as_str()
    }

    pub fn operator(&self) -> (o: &MqttTopicOperator)
        ensures
            *o == self.operator,
    {
        &self.operator
    }

    pub fn info_target(&self) -> (s: &str)
        ensures
            s@ == self.info_target@,
    {
        self.info_target.as_str()
    }

    pub fn info_object(&self) -> (s: &str)
        ensures
            s@ == self.info_object@,
    {
        self.info_object.as_str()
    }

    fn push_suffix(&self, s: &mut String)
        ensures
            final(s)@ == old(s)@ + self.spec_app_suffix(),
    {
        push_str(s, self.operator.text());
        push_char(s, '/');
        push_str(s, self.info_type.text());
        push_char(s, '/');
        push_str(s, self.info_target.as_str());
        push_char(s, '/');
        push_str(s, self.info_object.as_str());
        assert(final(s)@ =~= old(s)@ + self.spec_app_suffix());
    }

    /// `{operator}/{info_type}/{info_target}/{info_object}`.
    pub fn topic_app_suffix(&self) -> (s: String)
        ensures
            s@ == self.spec_app_suffix(),
    {
        let mut s = String::new();
        self.push_suffix(&mut s);
        assert(s@ =~= self.spec_app_suffix());
        s
    }

    /// The topic as text.
    pub fn to_string(&self) -> (s: String)
        ensures
            s@ == self.spec_text(),
    {
        let mut s = owned(self.app.as_str());
        push_char(&mut s, '/');
        self.push_suffix(&mut s);
        assert(s@ =~= self.spec_text());
        s
    }

    /// The topic to answer on: `{info_target}/{operator}/{info_type}/{app}/{info_object}`,
    /// where a request becomes a response.
    pub fn topic_transfer(&self) -> (s: String)
        ensures
            s@ == self.spec_transfer(),
    {
        let info_type = match self.info_type {
            MqttTopicInfoType::Request => MqttTopicInfoType::Response,
            _ => self.info_type,
        };
        let mut s = owned(self.info_target.as_str());
        push_char(&mut s, '/');
        push_str(&mut s, self.operator.text());
        push_char(&mut s, '/');
        push_str(&mut s, info_type.text());
        push_char(&mut s, '/');
        push_str(&mut s, self.app.as_str());
        push_char(&mut s, '/');
        push_str(&mut s, self.info_object.as_str());
        assert(s@ =~= self.spec_transfer());
        s
    }

    /// The answer topic of a topic that is known to be valid.
    pub fn transfer(topic: &str) -> (s: String)
        requires
            spec_topic_parse(topic@) is Ok,
        ensures
            s@ == spec_transfer_text(topic@),
    {
        match MqttTopic::try_from(topic) {
            Ok(t) => t.topic_transfer(),
            Err(_) => {
                assert(false);
                String::new()
            },
        }
    }
}

impl<'a> TryFrom<&'a str> for MqttTopic {
    type Error = Error;

    fn try_from(value: &'a str) -> (r: Result<MqttTopic, Error>)
        ensures
            spec_topic_parse(value@) matches Ok(p) ==> (r matches Ok(t) && t.spec_parts() == p),
            spec_topic_parse(value@) matches Err(k) ==> (r matches Err(Error::Topic(e))
                && spec_same_kind(e, k)),
            r matches Err(Error::Topic(TopicError::Topic(t))) ==> t@ == value@,
            r matches Err(Error::Topic(TopicError::InfoTarget(t))) ==> t@ == spec_split(value@)[3],
            r matches Err(Error::Topic(TopicError::Operator(t))) ==> t@ == spec_split(value@)[1],
            r matches Err(Error::Topic(TopicError::InfoType(t))) ==> t@ == spec_split(value@)[2],
    {
        let parts = split_topic(value);
        if parts.len() != 5 {
            return Err(Error::Topic(TopicError::Topic(owned(value))));
        }
        assert(parts@[3]@ == spec_split(value@)[3]);
        if !str_eq(parts[3].as_str(), app_name()) {
            return Err(Error::Topic(TopicError::InfoTarget(parts[3].clone())));
        }
        assert(parts@[1]@ == spec_split(value@)[1]);
        assert(parts@[2]@ == spec_split(value@)[2]);
        let operator = MqttTopicOperator::try_from(parts[1].as_str())?;
        let info_type = MqttTopicInfoType::try_from(parts[2].as_str())?;
        assert(parts@[0]@ == spec_split(value@)[0]);
        assert(parts@[4]@ == spec_split(value@)[4]);
        Ok(MqttTopic {
            app: parts[0].clone(),
            operator,
            info_type,
            info_target: parts[3].clone(),
            info_object: parts[4].clone(),
        })
    }
}

impl<'a> vstd::std_specs::convert::TryFromSpecImpl<&'a str> for MqttTopic {
    open spec fn obeys_try_from_spec() -> bool {
        false
    }

    open spec fn try_from_spec(value: &'a str) -> Result<MqttTopic, Error> {
        arbitrary()
    }
}

/// The text of five segments joined by `/`.
proof fn lemma_join5(p: Seq<Seq<char>>)
    requires
        p.len() == 5,
    ensures
        spec_join(p) == p[0] + seq!['/'] + p[1] + seq!['/'] + p[2] + seq!['/'] + p[3] + seq!['/'] + p[4],
{
    let p4 = p.drop_last();
    let p3 = p4.drop_last();
    let p2 = p3.drop_last();
    let p1 = p2.drop_last();
    assert(spec_join(p1) == p[0]);
    assert(spec_join(p2) == p[0] + seq!['/'] + p[1]);
    assert(spec_join(p3) == p[0] + seq!['/'] + p[1] + seq!['/'] + p[2]);
    assert(spec_join(p4) == p[0] + seq!['/'] + p[1] + seq!['/'] + p[2] + seq!['/'] + p[3]);
    assert(spec_join(p) =~= p[0] + seq!['/'] + p[1] + seq!['/'] + p[2] + seq!['/'] + p[3] + seq!['/'] + p[4]);
}

/// A topic text that reads successfully is printed back unchanged by the topic it
/// reads as.
pub proof fn law_topic_text_roundtrip(s: Seq<char>, t: MqttTopic)
    requires
        spec_topic_parse(s) == Ok::<_, TopicError>(t.spec_parts()),
    ensures
        t.spec_text() == s,
{
    let p = spec_split(s);
    lemma_join_split(s);
    lemma_join5(p);
    assert(t.operator.spec_text() == p[1]);
    assert(t.info_type.spec_text() == p[2]);
    assert(t.spec_text() =~= spec_join(p));
}

/// A topic addressed to this service whose free segments hold no `/` reads back,
/// from its text, as itself.
pub proof fn law_topic_parse_text(t: MqttTopic)
    requires
        spec_no_slash(t.app@),
        spec_no_slash(t.info_object@),
        t.info_target@ == spec_app_name(),
    ensures
        spec_topic_parse(t.spec_text()) == Ok::<_, TopicError>(t.spec_parts()),
{
    let p = seq![t.app@, t.operator.spec_text(), t.info_type.spec_text(), t.info_target@, t.info_object@];
    assert(forall|i: int| 0 <= i < p.len() ==> spec_no_slash(#[trigger] p[i])) by {
        assert(spec_no_slash(spec_app_name()));
        assert(spec_no_slash(t.operator.spec_text()));
        assert(spec_no_slash(t.info_type.spec_text()));
        assert forall|i: int| 0 <= i < p.len() implies spec_no_slash(#[trigger] p[i]) by {
            if i == 0 {
                assert(p[i] == t.app@);
            } else if i == 1 {
                assert(p[i] == t.operator.spec_text());
            } else if i == 2 {
                assert(p[i] == t.info_type.spec_text());
            } else if i == 3 {
                assert(p[i] == t.info_target@);
            } else {
                assert(p[i] == t.info_object@);
            }
        }
    }
    lemma_split_join(p);
    lemma_join5(p);
    assert(spec_join(p) =~= t.spec_text());
    assert(MqttTopicOperator::spec_parse(t.operator.spec_text()) == Some(t.operator));
    assert(MqttTopicInfoType::spec_parse(t.info_type.spec_text()) == Some(t.info_type));
}


/// The answer topic of a topic that reads: its five segments are the target, the
/// operator, the information type (a request made a response), the application
/// and the object, in that order.
pub proof fn law_transfer_format(s: Seq<char>)
    requires
        spec_topic_parse(s) is Ok,
    ensures
        ({
            let p = spec_topic_parse(s)->Ok_0;
            let t = if p.2 == MqttTopicInfoType::Request {
                MqttTopicInfoType::Response
            } else {
                p.2
            };
            spec_split(spec_transfer_text(s)) == seq![p.3, p.1.spec_text(), t.spec_text(), p.0, p.4]
        }),
{
    let p = spec_topic_parse(s)->Ok_0;
    let t = if p.2 == MqttTopicInfoType::Request {
        MqttTopicInfoType::Response
    } else {
        p.2
    };
    let q = seq![p.3, p.1.spec_text(), t.spec_text(), p.0, p.4];
    let parts = spec_split(s);
    lemma_split_parts_no_slash(s);
    assert(spec_no_slash(parts[0]) && spec_no_slash(parts[3]) && spec_no_slash(parts[4]));
    assert(spec_no_slash(p.1.spec_text()));
    assert(spec_no_slash(t.spec_text()));
    assert forall|i: int| 0 <= i < q.len() implies spec_no_slash(#[trigger] q[i]) by {
        if i == 0 {
            assert(q[i] == parts[3]);
        } else if i == 1 {
            assert(q[i] == p.1.spec_text());
        } else if i == 2 {
            assert(q[i] == t.spec_text());
        } else if i == 3 {
            assert(q[i] == parts[0]);
        } else {
            assert(q[i] == parts[4]);
        }
    }
    lemma_split_join(q);
    lemma_join5(q);
    assert(spec_join(q) =~= spec_transfer_text(s));
}

/// Answering the answer of a topic that is no request gives the topic back, when
/// both its application and its target name this service (the target of the
/// answer must, for the answer to read).
pub proof fn law_transfer_twice(s: Seq<char>)
    requires
        spec_topic_parse(s) is Ok,
        spec_topic_parse(s)->Ok_0.2 != MqttTopicInfoType::Request,
        spec_topic_parse(s)->Ok_0.0 == spec_app_name(),
    ensures
        spec_topic_parse(spec_transfer_text(s)) is Ok,
        spec_transfer_text(spec_transfer_text(s)) == s,
{
    let p = spec_topic_parse(s)->Ok_0;
    let u = spec_transfer_text(s);
    law_transfer_format(s);
    let q = spec_split(u);
    assert(q.len() == 5 && q[3] == spec_app_name());
    assert(MqttTopicOperator::spec_parse(p.1.spec_text()) == Some(p.1));
    assert(MqttTopicInfoType::spec_parse(p.2.spec_text()) == Some(p.2));
    assert(spec_topic_parse(u) == Ok::<_, TopicError>((p.3, p.1, p.2, p.0, p.4)));
    law_transfer_format(u);
    let parts = spec_split(s);
    lemma_join_split(s);
    lemma_join5(parts);
    lemma_split_nonempty(s);
    assert(parts.len() == 5);
    assert(p.1.spec_text() == parts[1]) by {
        assert(MqttTopicOperator::spec_parse(parts[1]) == Some(p.1));
    }
    assert(p.2.spec_text() == parts[2]) by {
        assert(MqttTopicInfoType::spec_parse(parts[2]) == Some(p.2));
    }
    assert(spec_transfer_text(u) =~= s);
}

} // verus!
