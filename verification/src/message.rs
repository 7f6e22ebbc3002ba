//! Messages delivered by the broker, and the subscriptions they are matched against.

use vstd::prelude::*;
use vstd::string::*;
use vstd::utf8::{decode_utf8, encode_utf8_decode_utf8, valid_utf8};
use crate::decimal::{
    decimal, decimal_is_usual_text, is_decimal_of, is_signed_decimal_of, push_decimal,
    push_signed_decimal, signed_decimal, signed_decimal_is_usual_text,
};

verus! {

/// `std::str::from_utf8`: the bytes read as text, when they are valid UTF-8;
/// the text then encodes to exactly those bytes.
#[verifier::external_body]
fn str_from_utf8(bytes: &[u8]) -> (text: Option<&str>)
    ensures
        text is Some <==> valid_utf8(bytes@),
        text matches Some(t) ==> t.spec_bytes() == bytes@,
{
    std::str::from_utf8(bytes).ok()
}

/// What a message holds, as values.
pub struct MessageView {
    pub mid: i32,
    pub topic: Seq<u8>,
    pub payload: Seq<u8>,
    pub qos: i32,
    pub retain: u8,
}

/// A message as the broker delivered it: its id, the bytes of its topic, its
/// payload, its quality of service and its retain flag.
#[derive(Clone)]
pub struct MosqMessage {
    mid: i32,
    topic: Vec<u8>,
    payload: Vec<u8>,
    qos: i32,
    retain: u8,
}

impl View for MosqMessage {
    type V = MessageView;

    closed spec fn view(&self) -> MessageView {
        MessageView {
            mid: self.mid,
            topic: self.topic@,
            payload: self.payload@,
            qos: self.qos,
            retain: self.retain,
        }
    }
}

/// The text that describes a message, its topic read as `topic`.
pub open spec fn message_description(m: MessageView, topic: Seq<char>) -> Seq<char> {
    topic + ": mid "@ + signed_decimal(m.mid as int) + " len "@ + decimal(m.payload.len())
        + " qos "@ + signed_decimal(m.qos as int) + " retain "@ + decimal(m.retain as nat)
}

/// The description of a message is its topic followed by four fields, each
/// labelled and holding the usual decimal text of its value: the message id,
/// the payload length, the quality of service and the retain flag; each field
/// shows its own value and nothing else.
pub proof fn description_shows_each_field(m: MessageView, topic: Seq<char>)
    ensures
        exists|mid: Seq<char>, len: Seq<char>, qos: Seq<char>, retain: Seq<char>|
            {
                &&& message_description(m, topic) == topic + ": mid "@ + mid + " len "@ + len
                    + " qos "@ + qos + " retain "@ + retain
                &&& #[trigger] is_signed_decimal_of(mid, m.mid as int)
                &&& #[trigger] is_decimal_of(len, m.payload.len())
                &&& #[trigger] is_signed_decimal_of(qos, m.qos as int)
                &&& #[trigger] is_decimal_of(retain, m.retain as nat)
            },
{
    let mid = signed_decimal(m.mid as int);
    let len = decimal(m.payload.len());
    let qos = signed_decimal(m.qos as int);
    let retain = decimal(m.retain as nat);
    signed_decimal_is_usual_text(m.mid as int);
    decimal_is_usual_text(m.payload.len());
    signed_decimal_is_usual_text(m.qos as int);
    decimal_is_usual_text(m.retain as nat);
    assert(message_description(m, topic) == topic + ": mid "@ + mid + " len "@ + len + " qos "@ + qos
        + " retain "@ + retain);
}

impl MosqMessage {
    /// A message with the given id, topic bytes, payload, quality of service
    /// and retain flag.
    pub fn new(mid: i32, topic: Vec<u8>, payload: Vec<u8>, qos: i32, retain: u8) -> (m: MosqMessage)
        ensures
            m@ == (MessageView { mid, topic: topic@, payload: payload@, qos, retain }),
    {
        MosqMessage { mid, topic, payload, qos, retain }
    }

    /// the topic of the message.
    /// The topic must be valid UTF-8.
    pub fn topic(&self) -> (topic: &str)
        requires
            valid_utf8(self@.topic),
        ensures
            topic@ == decode_utf8(self@.topic),
            topic.spec_bytes() == self@.topic,
    {
        match str_from_utf8(self.topic.as_slice()) {
            Some(t) => {
                proof {
                    encode_utf8_decode_utf8(t@);
                }
                t
            },
            None => {
                assert(false);
                ""
            },
        }
    }

    /// the topic as bytes
    pub fn topic_bytes(&self) -> (topic: &[u8])
        ensures
            topic@ == self@.topic,
    {
        self.topic.as_slice()
    }

    /// whether the topic of the message is valid UTF-8, and so can be read as text
    pub fn has_text_topic(&self) -> (ok: bool)
        ensures
            ok == valid_utf8(self@.topic),
    {
        str_from_utf8(self.topic.as_slice()).is_some()
    }

    /// the payload as bytes
    pub fn payload(&self) -> (payload: &[u8])
        ensures
            payload@ == self@.payload,
    {
        self.payload.as_slice()
    }

    /// the payload as text.
    /// The payload must be valid UTF-8.
    pub fn text(&self) -> (text: &str)
        requires
            valid_utf8(self@.payload),
        ensures
            text@ == decode_utf8(self@.payload),
            text.spec_bytes() == self@.payload,
    {
        match str_from_utf8(self.payload.as_slice()) {
            Some(t) => {
                proof {
                    encode_utf8_decode_utf8(t@);
                }
                t
            },
            None => {
                assert(false);
                ""
            },
        }
    }

    /// whether the payload of the message is valid UTF-8, and so can be read as text
    pub fn has_text_payload(&self) -> (ok: bool)
        ensures
            ok == valid_utf8(self@.payload),
    {
        str_from_utf8(self.payload.as_slice()).is_some()
    }

    /// the quality-of-service of the message.
    /// The desired QoS is specified when we subscribe.
    pub fn qos(&self) -> (qos: u32)
        ensures
            qos == self@.qos as u32,
    {
        self.qos as u32
    }

    /// was the message retained by the broker?
    pub fn retained(&self) -> (retained: bool)
        ensures
            retained == (self@.retain > 0),
    {
        self.retain > 0
    }

    /// A line that describes the message: topic, id, payload length, quality
    /// of service and retain flag.
    /// The topic must be valid UTF-8.
    pub fn describe(&self) -> (text: String)
        requires
            valid_utf8(self@.topic),
        ensures
            text@ == message_description(self@, decode_utf8(self@.topic)),
    {
        let topic = self.topic();
        let mut text = String::from_str(topic);
        text.append(": mid ");
        push_signed_decimal(&mut text, self.mid as i64);
        text.append(" len ");
        push_decimal(&mut text, self.payload.len() as u64);
        text.append(" qos ");
        push_signed_decimal(&mut text, self.qos as i64);
        text.append(" retain ");
        push_decimal(&mut text, self.retain as u64);
        text
    }
}

/// Matching subscription topics.
/// Returned from a subscription.
pub struct TopicMatcher {
    /// the subscription pattern.
    pub sub: String,
    /// the subscription id.
    pub mid: i32,
}

/// A matcher's request id is its public field `mid`, and its pattern is its
/// public field `sub`.
pub proof fn matcher_fields_are_its_values(m: TopicMatcher)
    ensures
        m.request_id() == m.mid,
        m.pattern() == m.sub@,
{
}

impl TopicMatcher {
    /// The subscription pattern this matcher holds.
    pub closed spec fn pattern(&self) -> Seq<char> {
        self.sub@
    }

    /// The id of the subscription request.
    pub closed spec fn request_id(&self) -> i32 {
        self.mid
    }

    /// A matcher for the subscription pattern `sub`, made by the request with id `mid`.
    pub fn new(sub: String, mid: i32) -> (m: TopicMatcher)
        ensures
            m.pattern() == sub@,
            m.request_id() == mid,
            m.sub@ == sub@,
            m.mid == mid,
    {
        TopicMatcher { sub, mid }
    }

    /// The id of the subscription request.
    pub fn mid(&self) -> (id: i32)
        ensures
            id == self.request_id(),
            id == self.mid,
    {
        self.mid
    }

    /// The subscription pattern.
    pub fn subscription(&self) -> (sub: &str)
        ensures
            sub@ == self.pattern(),
            sub@ == self.sub@,
    {
        self.sub.as_str()
    }
}

} // verus!
