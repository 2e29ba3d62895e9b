//! The application payload, its JSON framing on the publish side, and the
//! unwrapping of a received body that may or may not sit inside a
//! notification envelope.
use crate::json::{json_member, json_quoted, quote, read_member};
use vstd::prelude::*;

verus! {

/// One application message.
pub struct Payload {
    pub id: u32,
    pub content: String,
    pub timestamp: String,
}

/// What a received body decodes to: the payload it carries, or the text to
/// hand on as it is when no payload can be read from it.
pub enum Decoded {
    Payload(Payload),
    Raw(String),
}

/// The model of a decoded body: a payload by its fields, or raw text.
pub enum BodyModel {
    Payload(u32, Seq<char>, Seq<char>),
    Raw(Seq<char>),
}

impl Payload {
    pub open spec fn fields(&self) -> (u32, Seq<char>, Seq<char>) {
        (self.id, self.content@, self.timestamp@)
    }
}

impl Decoded {
    pub open spec fn view(&self) -> BodyModel {
        match self {
            Decoded::Payload(p) => BodyModel::Payload(p.id, p.content@, p.timestamp@),
            Decoded::Raw(s) => BodyModel::Raw(s@),
        }
    }
}

pub open spec fn id_name() -> Seq<char> {
    seq!['i', 'd']
}

pub open spec fn content_name() -> Seq<char> {
    seq!['c', 'o', 'n', 't', 'e', 'n', 't']
}

pub open spec fn timestamp_name() -> Seq<char> {
    seq!['t', 'i', 'm', 'e', 's', 't', 'a', 'm', 'p']
}

/// The member of a notification envelope that holds the published body.
pub open spec fn envelope_name() -> Seq<char> {
    seq!['M', 'e', 's', 's', 'a', 'g', 'e']
}

/// The payload that `text` holds: a JSON object whose `id` is an integer
/// that fits in a `u32` and whose `content` and `timestamp` are strings.
pub open spec fn payload_fields(text: Seq<char>) -> Option<(u32, Seq<char>, Seq<char>)> {
    let id = json_member(text, id_name()).1;
    let content = json_member(text, content_name()).0;
    let timestamp = json_member(text, timestamp_name()).0;
    if id is Some && id->Some_0 <= u32::MAX && content is Some && timestamp is Some {
        Some((id->Some_0 as u32, content->Some_0, timestamp->Some_0))
    } else {
        None
    }
}

pub open spec fn model_of(text: Seq<char>) -> BodyModel {
    match payload_fields(text) {
        Some(f) => BodyModel::Payload(f.0, f.1, f.2),
        None => BodyModel::Raw(text),
    }
}

/// What a received body decodes to. A body that is an envelope, that is a
/// JSON object with a string member `Message`, is decoded from that member;
/// any other body is decoded as it stands. Either way the text decoded falls
/// back to raw text when it holds no payload.
pub open spec fn unwrapped(body: Seq<char>) -> BodyModel {
    match json_member(body, envelope_name()).0 {
        Some(inner) => model_of(inner),
        None => model_of(body),
    }
}

/// The decimal digit for `d`.
pub open spec fn digit(d: nat) -> char {
    (('0' as u8) + d) as char
}

/// The decimal numeral of `n`, without leading zeros.
pub open spec fn decimal(n: nat) -> Seq<char>
    decreases n,
{
    if n < 10 {
        seq![digit(n)]
    } else {
        decimal(n / 10).push(digit(n % 10))
    }
}

/// The JSON text of a payload: an object with members `id`, `content` and
/// `timestamp`, in that order.
pub open spec fn framed(id: u32, content: Seq<char>, timestamp: Seq<char>) -> Seq<char> {
    seq!['{', '"'] + id_name() + seq!['"', ':'] + decimal(id as nat) + seq![',', '"'] + content_name()
        + seq!['"', ':'] + json_quoted(content) + seq![',', '"'] + timestamp_name() + seq!['"', ':']
        + json_quoted(timestamp) + seq!['}']
}

/// The subject line a payload is published with.
pub open spec fn subject_of(id: u32) -> Seq<char> {
    seq!['M', 'e', 's', 's', 'a', 'g', 'e', ' '] + decimal(id as nat)
}

/// Relies on String::push: appends one character.
pub assume_specification[ String::push ](s: &mut String, ch: char)
    ensures
        final(s)@ == old(s)@.push(ch),
;

/// Appends the decimal numeral of `n` to `out`.
fn push_decimal(out: &mut String, n: u32)
    ensures
        final(out)@ == old(out)@ + decimal(n as nat),
    decreases n,
{
    if n < 10 {
        out.push(((n as u8) + 48u8) as char);
        proof {
            assert(old(out)@ + decimal(n as nat) =~= old(out)@.push(digit(n as nat)));
        }
    } else {
        push_decimal(out, n / 10);
        out.push((((n % 10) as u8) + 48u8) as char);
        proof {
            assert(decimal(n as nat) == decimal((n / 10) as nat).push(digit((n % 10) as nat)));
            assert(old(out)@ + decimal(n as nat) =~= old(out)@ + decimal((n / 10) as nat) + seq![
                digit((n % 10) as nat),
            ]);
        }
    }
}

fn push_text(out: &mut String, s: &str)
    ensures
        final(out)@ == old(out)@ + s@,
{
    out.append(s);
}

impl Payload {
    /// The JSON body this payload is published as.
    pub fn to_json(&self) -> (r: String)
        ensures
            r@ == framed(self.id, self.content@, self.timestamp@),
    {
        proof {
            reveal_strlit("{\"id\":");
            reveal_strlit(",\"content\":");
            reveal_strlit(",\"timestamp\":");
            reveal_strlit("}");
        }
        let mut out = String::from_str("{\"id\":");
        push_decimal(&mut out, self.id);
        push_text(&mut out, ",\"content\":");
        let c = quote(self.content.as_str());
        push_text(&mut out, c.as_str());
        push_text(&mut out, ",\"timestamp\":");
        let t = quote(self.timestamp.as_str());
        push_text(&mut out, t.as_str());
        push_text(&mut out, "}");
        proof {
            assert(out@ =~= framed(self.id, self.content@, self.timestamp@));
        }
        out
    }

    /// The subject line this payload is published with.
    pub fn subject(&self) -> (r: String)
        ensures
            r@ == subject_of(self.id),
    {
        proof {
            reveal_strlit("Message ");
        }
        let mut out = String::from_str("Message ");
        push_decimal(&mut out, self.id);
        proof {
            assert(out@ =~= subject_of(self.id));
        }
        out
    }

    /// The payload that `text` holds, if it holds one.
    pub fn from_json(text: &str) -> (r: Option<Payload>)
        ensures
            r is None <==> payload_fields(text@) is None,
            r matches Some(p) ==> payload_fields(text@) == Some(p.fields()),
    {
        proof {
            reveal_strlit("id");
            reveal_strlit("content");
            reveal_strlit("timestamp");
            assert("id"@ =~= id_name());
            assert("content"@ =~= content_name());
            assert("timestamp"@ =~= timestamp_name());
        }
        let id = read_member(text, "id").1;
        let content = read_member(text, "content").0;
        let timestamp = read_member(text, "timestamp").0;
        match (id, content, timestamp) {
            (Some(n), Some(c), Some(t)) => {
                if n <= 0xffff_ffffu64 {
                    Some(Payload { id: n as u32, content: c, timestamp: t })
                } else {
                    None
                }
            },
            _ => None,
        }
    }
}

fn decode_text(text: String) -> (r: Decoded)
    ensures
        r@ == model_of(text@),
{
    match Payload::from_json(text.as_str()) {
        Some(p) => Decoded::Payload(p),
        None => Decoded::Raw(text),
    }
}

/// Decodes a received body, unwrapping a notification envelope when the
/// body is one.
pub fn unwrap_envelope(body: &str) -> (r: Decoded)
    ensures
        r@ == unwrapped(body@),
{
    proof {
        reveal_strlit("Message");
        assert("Message"@ =~= envelope_name());
    }
    match read_member(body, "Message").0 {
        Some(inner) => decode_text(inner),
        None => decode_text(String::from_str(body)),
    }
}

/// A body that is not an envelope and holds a payload decodes to that
/// payload; an envelope whose `Message` member holds a payload decodes to
/// the inner payload; and a body from which no payload can be read decodes
/// to raw text, the envelope's `Message` member when it has one and the
/// whole body otherwise.
pub proof fn lemma_envelope_fallback(body: Seq<char>)
    ensures
        json_member(body, envelope_name()).0 is None ==> match payload_fields(body) {
            Some(f) => unwrapped(body) == BodyModel::Payload(f.0, f.1, f.2),
            None => unwrapped(body) == BodyModel::Raw(body),
        },
        json_member(body, envelope_name()).0 matches Some(inner) ==> match payload_fields(inner) {
            Some(f) => unwrapped(body) == BodyModel::Payload(f.0, f.1, f.2),
            None => unwrapped(body) == BodyModel::Raw(inner),
        },
{
}

} // verus!
