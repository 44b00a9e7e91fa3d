//! Message-bus subjects, presence keys and MQTT topics, and reading device
//! UUIDs back out of them.
use vstd::prelude::*;

use crate::text::{
    ends_with, find_char, first_index_of, has_prefix, has_suffix, push_str, starts_with,
    str_chars, str_eq, string_from_chars, string_of,
};
use crate::uuid_text::{parse_uuid, uuid_parse, uuid_text, uuid_to_string};

verus! {

/// What a subject `s` names, read as `prefix` + UUID + `suffix` (an empty
/// suffix means the rest of the subject is the UUID).
pub open spec fn subject_uuid(s: Seq<char>, prefix: Seq<char>, suffix: Seq<char>) -> Option<u128> {
    if !has_prefix(s, prefix) {
        None
    } else {
        let rest = s.skip(prefix.len() as int);
        if suffix.len() == 0 {
            uuid_parse(rest)
        } else if has_suffix(rest, suffix) {
            uuid_parse(rest.take(rest.len() - suffix.len()))
        } else {
            None
        }
    }
}

/// Reads the device UUID out of a subject of the form `prefix` + UUID + `suffix`.
pub fn extract_uuid_from_subject(subject: &str, prefix: &str, suffix: &str) -> (r: Option<u128>)
    ensures
        r == subject_uuid(subject@, prefix@, suffix@),
{
    let s = str_chars(subject);
    let p = str_chars(prefix);
    let x = str_chars(suffix);
    if !starts_with(&s, &p) {
        return None;
    }
    let rest = string_from_chars(&s, p.len(), s.len());
    assert(rest@ =~= subject@.skip(prefix@.len() as int));
    if x.len() == 0 {
        parse_uuid(rest.as_str())
    } else {
        let rv = str_chars(rest.as_str());
        if !ends_with(&rv, &x) {
            return None;
        }
        let middle = string_from_chars(&rv, 0, rv.len() - x.len());
        assert(middle@ =~= rest@.take(rest@.len() - suffix@.len()));
        parse_uuid(middle.as_str())
    }
}

/// `prefix` + the text of `uuid` + `suffix`.
fn uuid_subject(prefix: &str, uuid: u128, suffix: &str) -> (r: String)
    ensures
        r@ == prefix@ + uuid_text(uuid) + suffix@,
        uuid_parse(uuid_text(uuid)) == Some(uuid),
{
    let mut r = string_of(prefix);
    let t = uuid_to_string(uuid);
    push_str(&mut r, t.as_str());
    push_str(&mut r, suffix);
    r
}

/// Reading a subject built as `prefix` + UUID text + `suffix` gives the UUID
/// back, where the UUID's text reads back to it.
proof fn lemma_subject_roundtrip(prefix: Seq<char>, u: u128, suffix: Seq<char>)
    requires
        uuid_parse(uuid_text(u)) == Some(u),
    ensures
        subject_uuid(prefix + uuid_text(u) + suffix, prefix, suffix) == Some(u),
{
    let s = prefix + uuid_text(u) + suffix;
    assert(s.subrange(0, prefix.len() as int) =~= prefix);
    let rest = s.skip(prefix.len() as int);
    assert(rest =~= uuid_text(u) + suffix);
    if suffix.len() == 0 {
        assert(rest =~= uuid_text(u));
    } else {
        assert(rest.subrange(rest.len() - suffix.len(), rest.len() as int) =~= suffix);
        assert(rest.take(rest.len() - suffix.len()) =~= uuid_text(u));
    }
}

/// Subject for delivering messages to a specific device's inbox.
pub fn device_inbox(uuid: u128) -> (r: String)
    ensures
        r@ == "freshblu.device."@ + uuid_text(uuid) + ".inbox"@,
        subject_uuid(r@, "freshblu.device."@, ".inbox"@) == Some(uuid),
{
    let r = uuid_subject("freshblu.device.", uuid, ".inbox");
    proof {
        reveal_strlit(".inbox");
        lemma_subject_roundtrip("freshblu.device."@, uuid, ".inbox"@);
    }
    r
}

/// Subject for broadcast events from a device.
pub fn broadcast(uuid: u128) -> (r: String)
    ensures
        r@ == "freshblu.broadcast."@ + uuid_text(uuid),
        subject_uuid(r@, "freshblu.broadcast."@, ""@) == Some(uuid),
{
    let r = uuid_subject("freshblu.broadcast.", uuid, "");
    proof {
        reveal_strlit("");
        assert(r@ =~= "freshblu.broadcast."@ + uuid_text(uuid));
        lemma_subject_roundtrip("freshblu.broadcast."@, uuid, ""@);
        assert("freshblu.broadcast."@ + uuid_text(uuid) + ""@ =~= r@);
    }
    r
}

/// Subject for configure events on a device.
pub fn configure(uuid: u128) -> (r: String)
    ensures
        r@ == "freshblu.configure."@ + uuid_text(uuid),
        subject_uuid(r@, "freshblu.configure."@, ""@) == Some(uuid),
{
    let r = uuid_subject("freshblu.configure.", uuid, "");
    proof {
        reveal_strlit("");
        assert(r@ =~= "freshblu.configure."@ + uuid_text(uuid));
        lemma_subject_roundtrip("freshblu.configure."@, uuid, ""@);
        assert("freshblu.configure."@ + uuid_text(uuid) + ""@ =~= r@);
    }
    r
}

/// Subject for system-wide unregister events.
pub fn system_unregister() -> (r: String)
    ensures
        r@ == "freshblu.system.unregister"@,
{
    string_of("freshblu.system.unregister")
}

/// Subject for delivering envelopes to a specific gateway pod.
pub fn delivery(pod_id: &str) -> (r: String)
    ensures
        r@ == "freshblu.delivery."@ + pod_id@,
{
    let mut r = string_of("freshblu.delivery.");
    push_str(&mut r, pod_id);
    r
}

/// Subject for presence updates of a device.
pub fn presence(uuid: u128) -> (r: String)
    ensures
        r@ == "freshblu.presence."@ + uuid_text(uuid),
{
    let r = uuid_subject("freshblu.presence.", uuid, "");
    proof {
        reveal_strlit("");
        assert(r@ =~= "freshblu.presence."@ + uuid_text(uuid));
    }
    r
}

/// The key under which a device's gateway pod is recorded while it is
/// connected.
pub fn presence_key(uuid: u128) -> (r: String)
    ensures
        r@ == "freshblu:presence:"@ + uuid_text(uuid),
{
    let r = uuid_subject("freshblu:presence:", uuid, "");
    proof {
        reveal_strlit("");
        assert(r@ =~= "freshblu:presence:"@ + uuid_text(uuid));
    }
    r
}

/// How an MQTT topic `<uuid>/<event_type>` reads: split at the first `/`,
/// the event type defaulting to `message` where there is none.
pub open spec fn mqtt_topic(topic: Seq<char>) -> Option<(u128, Seq<char>)> {
    let (head, tail) = match first_index_of(topic, '/') {
        Some(i) => (topic.take(i), topic.skip(i + 1)),
        None => (topic, "message"@),
    };
    match uuid_parse(head) {
        Some(u) => Some((u, tail)),
        None => None,
    }
}

/// Parses a Meshblu MQTT topic `<device_uuid>/<event_type>`.
pub fn parse_mqtt_topic(topic: &str) -> (r: Option<(u128, &str)>)
    ensures
        match r {
            Some((u, e)) => mqtt_topic(topic@) == Some((u, e@)),
            None => mqtt_topic(topic@) is None,
        },
{
    let chars = str_chars(topic);
    let n = chars.len();
    match find_char(&chars, '/') {
        Some(i) => {
            let head = string_from_chars(&chars, 0, i);
            assert(head@ =~= topic@.take(i as int));
            let tail = topic.substring_char(i + 1, n);
            assert(tail@ =~= topic@.skip(i + 1));
            match parse_uuid(head.as_str()) {
                Some(u) => Some((u, tail)),
                None => None,
            }
        },
        None => {
            match parse_uuid(topic) {
                Some(u) => Some((u, "message")),
                None => None,
            }
        },
    }
}

/// Maps an MQTT client id to the device UUID it names (Meshblu uses the
/// device UUID as the MQTT client id).
pub fn mqtt_client_id_to_uuid(client_id: &str) -> (r: Option<u128>)
    ensures
        r == uuid_parse(client_id@),
{
    parse_uuid(client_id)
}

/// The kinds of publication the MQTT bridge understands, by a topic's event
/// type.
#[derive(Debug, Clone, Copy, PartialEq, Eq, Structural)]
pub enum MqttEvent {
    /// `message`: the payload is a message to send.
    Message,
    /// `broadcast`: the payload is the body of a broadcast.
    Broadcast,
    /// Any other event type, which the bridge drops.
    Unknown,
}

/// The kind of publication an MQTT event type names.
pub open spec fn mqtt_event_of(event_type: Seq<char>) -> MqttEvent {
    if event_type == "message"@ {
        MqttEvent::Message
    } else if event_type == "broadcast"@ {
        MqttEvent::Broadcast
    } else {
        MqttEvent::Unknown
    }
}

/// Reads the event type of an MQTT topic.
pub fn mqtt_event_kind(event_type: &str) -> (r: MqttEvent)
    ensures
        r == mqtt_event_of(event_type@),
{
    if str_eq(event_type, "message") {
        MqttEvent::Message
    } else if str_eq(event_type, "broadcast") {
        MqttEvent::Broadcast
    } else {
        MqttEvent::Unknown
    }
}

/// The text of a UUID holds no `/`.
pub proof fn law_uuid_text_has_no_slash(u: u128)
    ensures
        !uuid_text(u).contains('/'),
{
    if uuid_text(u).contains('/') {
        let i = choose|i: int| 0 <= i < uuid_text(u).len() && uuid_text(u)[i] == '/';
        crate::uuid_text::lemma_uuid_text_chars(u, i);
    }
}

/// A topic is split at its first `/`: the part before it names the device,
/// everything after it (further `/` included) is the event type.
pub proof fn law_mqtt_topic_split(head: Seq<char>, tail: Seq<char>)
    requires
        !head.contains('/'),
    ensures
        mqtt_topic(head + "/"@ + tail) == match uuid_parse(head) {
            Some(u) => Some((u, tail)),
            None => None::<(u128, Seq<char>)>,
        },
{
    reveal_strlit("/");
    let t = head + "/"@ + tail;
    assert(t[head.len() as int] == '/');
    assert forall|j: int| 0 <= j < head.len() implies t[j] != '/' by {
        assert(t[j] == head[j]);
        if t[j] == '/' {
            assert(head.contains('/'));
        }
    }
    let i = first_index_of(t, '/')->0;
    assert(i == head.len());
    assert(t.take(i) =~= head);
    assert(t.skip(i + 1) =~= tail);
}

} // verus!
