//! The client side: server URLs, request paths and the credentials a client
//! presents.
use vstd::prelude::*;
use vstd::string::StringSliceAdditionalSpecFns;
use vstd::utf8::encode_utf8;

use crate::codec::{base64_encode, basic_header, credential_text};
use crate::subscription::{
    dashes_to_dots, law_type_name_roundtrip, parse_subscription_name, subscription_name, SubscriptionType,
};
use crate::text::{
    chars_eq, has_prefix, push_char, push_str, str_chars, str_eq, string_from_chars, string_of,
};
use crate::uuid_text::{uuid_text, uuid_to_string};

verus! {

/// Server status response.
pub struct StatusResponse {
    pub meshblu: bool,
    pub version: Option<String>,
    pub connections: Option<u64>,
}

/// Token generation result.
pub struct GenerateTokenResponse {
    pub uuid: String,
    pub token: String,
    pub tag: Option<String>,
}

/// `s` without its trailing `c` characters.
pub open spec fn trim_trailing(s: Seq<char>, c: char) -> Seq<char>
    decreases s.len(),
{
    if s.len() > 0 && s.last() == c {
        trim_trailing(s.drop_last(), c)
    } else {
        s
    }
}

/// `s` with each occurrence of `from`, scanning from the left without
/// overlaps, replaced by `to` (`from` is not empty).
pub open spec fn replace_all(s: Seq<char>, from: Seq<char>, to: Seq<char>) -> Seq<char>
    decreases s.len(),
{
    if from.len() == 0 || s.len() == 0 {
        s
    } else if has_prefix(s, from) {
        to + replace_all(s.skip(from.len() as int), from, to)
    } else {
        seq![s[0]] + replace_all(s.skip(1), from, to)
    }
}

/// Replaces each occurrence of `from` in `s` by `to`, as `str::replace` does.
pub fn replace_str(s: &str, from: &str, to: &str) -> (r: String)
    requires
        from@.len() > 0,
    ensures
        r@ == replace_all(s@, from@, to@),
{
    let sv = str_chars(s);
    let fv = str_chars(from);
    let n = sv.len();
    let mut r = String::new();
    let mut i: usize = 0;
    assert(s@.skip(0) =~= s@);
    assert(r@ + replace_all(s@, from@, to@) =~= replace_all(s@, from@, to@));
    while i < n
        invariant
            sv@ == s@,
            fv@ == from@,
            from@.len() > 0,
            n == s@.len(),
            i <= n,
            r@ + replace_all(s@.skip(i as int), from@, to@) == replace_all(s@, from@, to@),
        decreases n - i,
    {
        let ghost rest = s@.skip(i as int);
        if fv.len() <= n - i && chars_eq(&sv, i, i + fv.len(), &fv) {
            proof {
                assert(rest.subrange(0, from@.len() as int) =~= sv@.subrange(i as int, i + from@.len()));
                assert(rest.skip(from@.len() as int) =~= s@.skip(i + from@.len()));
            }
            let ghost before = r@;
            push_str(&mut r, to);
            proof {
                assert(before + replace_all(rest, from@, to@) =~= r@ + replace_all(
                    s@.skip(i + from@.len()),
                    from@,
                    to@,
                ));
            }
            i = i + fv.len();
        } else {
            proof {
                if rest.len() >= from@.len() {
                    assert(rest.subrange(0, from@.len() as int) =~= sv@.subrange(i as int, i + from@.len()));
                }
                assert(rest.skip(1) =~= s@.skip(i + 1));
            }
            let ghost before = r@;
            push_char(&mut r, sv[i]);
            proof {
                assert(before + replace_all(rest, from@, to@) =~= r@ + replace_all(
                    s@.skip(i + 1),
                    from@,
                    to@,
                ));
            }
            i = i + 1;
        }
    }
    proof {
        assert(s@.skip(n as int) =~= Seq::<char>::empty());
        assert(r@ + Seq::<char>::empty() =~= r@);
    }
    r
}

/// A client's view of a server and of the device it acts as.
pub struct ClientSession {
    base_url: String,
    uuid: Option<u128>,
    token: Option<String>,
}

/// The segment that names a subscription type in a deletion path: its
/// dotted name with `-` for `.` (`broadcast-sent`), which the server reads
/// back as the type.
pub open spec fn path_segment_name(t: SubscriptionType) -> Seq<char> {
    match t {
        SubscriptionType::BroadcastSent => "broadcast-sent"@,
        SubscriptionType::BroadcastReceived => "broadcast-received"@,
        SubscriptionType::ConfigureSent => "configure-sent"@,
        SubscriptionType::ConfigureReceived => "configure-received"@,
        SubscriptionType::MessageSent => "message-sent"@,
        SubscriptionType::MessageReceived => "message-received"@,
        SubscriptionType::UnregisterSent => "unregister-sent"@,
        SubscriptionType::UnregisterReceived => "unregister-received"@,
    }
}

impl ClientSession {
    /// The server's base URL, without trailing `/`.
    pub closed spec fn base(&self) -> Seq<char> {
        self.base_url@
    }

    /// The device the client authenticates as, if set.
    pub closed spec fn device(&self) -> Option<u128> {
        self.uuid
    }

    /// The token the client authenticates with, if set.
    pub closed spec fn secret(&self) -> Option<Seq<char>> {
        match self.token {
            Some(t) => Some(t@),
            None => None,
        }
    }

    /// A session for the server at `base_url` (trailing `/` removed), without
    /// credentials.
    pub fn new(base_url: &str) -> (r: ClientSession)
        ensures
            r.base() == trim_trailing(base_url@, '/'),
            r.device() is None,
            r.secret() is None,
    {
        let v = str_chars(base_url);
        let mut n = v.len();
        assert(v@.take(n as int) =~= v@);
        while n > 0 && v[n - 1] == '/'
            invariant
                v@ == base_url@,
                n <= v@.len(),
                trim_trailing(base_url@, '/') == trim_trailing(v@.take(n as int), '/'),
            decreases n,
        {
            proof {
                assert(v@.take(n as int).drop_last() =~= v@.take(n - 1));
            }
            n = n - 1;
        }
        let base = string_from_chars(&v, 0, n);
        proof {
            assert(base@ =~= v@.take(n as int));
            assert(v@.take(v@.len() as int) =~= v@);
        }
        ClientSession { base_url: base, uuid: None, token: None }
    }

    /// Sets the credentials.
    pub fn set_credentials(&mut self, uuid: u128, token: String)
        ensures
            final(self).base() == old(self).base(),
            final(self).device() == Some(uuid),
            final(self).secret() == Some(token@),
    {
        self.uuid = Some(uuid);
        self.token = Some(token);
    }

    /// The credentials, where both are set.
    pub fn credentials(&self) -> (r: Option<(u128, &str)>)
        ensures
            match r {
                Some((u, t)) => self.device() == Some(u) && self.secret() == Some(t@),
                None => self.device() is None || self.secret() is None,
            },
    {
        match (&self.uuid, &self.token) {
            (Some(u), Some(t)) => Some((*u, t.as_str())),
            _ => None,
        }
    }

    /// The `Authorization` header value for the credentials, where both are set.
    pub fn auth_header(&self) -> (r: Option<String>)
        ensures
            match r {
                Some(h) => self.device() is Some && self.secret() is Some && h@ == basic_header(
                    uuid_text(self.device()->0),
                    self.secret()->0,
                ),
                None => self.device() is None || self.secret() is None,
            },
    {
        match self.credentials() {
            Some((uuid, token)) => {
                let text = uuid_to_string(uuid);
                Some(crate::codec::basic_auth_header(text.as_str(), token))
            },
            None => None,
        }
    }

    /// The URL of a request path.
    pub fn url(&self, path: &str) -> (r: String)
        ensures
            r@ == self.base() + path@,
    {
        let mut r = self.base_url.clone();
        push_str(&mut r, path);
        r
    }

    /// The WebSocket URL of the server: `https://` becomes `wss://`,
    /// `http://` becomes `ws://`, and `/ws` is appended.
    pub fn ws_url(&self) -> (r: String)
        ensures
            r@ == replace_all(replace_all(self.base(), "https://"@, "wss://"@), "http://"@, "ws://"@)
                + "/ws"@,
    {
        proof {
            reveal_strlit("https://");
            reveal_strlit("http://");
        }
        let a = replace_str(self.base_url.as_str(), "https://", "wss://");
        let mut b = replace_str(a.as_str(), "http://", "ws://");
        push_str(&mut b, "/ws");
        b
    }
}

/// `prefix` + the text of `uuid` + `suffix`.
fn uuid_path(prefix: &str, uuid: u128, suffix: &str) -> (r: String)
    ensures
        r@ == prefix@ + uuid_text(uuid) + suffix@,
{
    let mut r = string_of(prefix);
    let t = uuid_to_string(uuid);
    push_str(&mut r, t.as_str());
    push_str(&mut r, suffix);
    r
}

/// `/devices/{uuid}`.
pub fn device_path(uuid: u128) -> (r: String)
    ensures
        r@ == "/devices/"@ + uuid_text(uuid) + ""@,
{
    uuid_path("/devices/", uuid, "")
}

/// `/claimdevice/{uuid}`.
pub fn claim_path(uuid: u128) -> (r: String)
    ensures
        r@ == "/claimdevice/"@ + uuid_text(uuid) + ""@,
{
    uuid_path("/claimdevice/", uuid, "")
}

/// `/devices/{uuid}/subscriptions`.
pub fn subscriptions_path(subscriber: u128) -> (r: String)
    ensures
        r@ == "/devices/"@ + uuid_text(subscriber) + "/subscriptions"@,
{
    uuid_path("/devices/", subscriber, "/subscriptions")
}

/// `/devices/{uuid}/tokens`.
pub fn tokens_path(uuid: u128) -> (r: String)
    ensures
        r@ == "/devices/"@ + uuid_text(uuid) + "/tokens"@,
{
    uuid_path("/devices/", uuid, "/tokens")
}

/// `/devices/{uuid}/token` (reset all tokens).
pub fn reset_token_path(uuid: u128) -> (r: String)
    ensures
        r@ == "/devices/"@ + uuid_text(uuid) + "/token"@,
{
    uuid_path("/devices/", uuid, "/token")
}

/// `/devices/{uuid}/tokens/{token}`.
pub fn token_path(uuid: u128, token: &str) -> (r: String)
    ensures
        r@ == "/devices/"@ + uuid_text(uuid) + "/tokens/"@ + token@,
{
    let mut r = uuid_path("/devices/", uuid, "/tokens/");
    push_str(&mut r, token);
    r
}

proof fn lemma_segment_names(t: SubscriptionType)
    ensures
        subscription_name(t) == dashes_to_dots(path_segment_name(t)),
{
    match t {
        SubscriptionType::BroadcastSent => {
            reveal_strlit("broadcast-sent");
            reveal_strlit("broadcast.sent");
            assert(dashes_to_dots("broadcast-sent"@) =~= "broadcast.sent"@);
        },
        SubscriptionType::BroadcastReceived => {
            reveal_strlit("broadcast-received");
            reveal_strlit("broadcast.received");
            assert(dashes_to_dots("broadcast-received"@) =~= "broadcast.received"@);
        },
        SubscriptionType::ConfigureSent => {
            reveal_strlit("configure-sent");
            reveal_strlit("configure.sent");
            assert(dashes_to_dots("configure-sent"@) =~= "configure.sent"@);
        },
        SubscriptionType::ConfigureReceived => {
            reveal_strlit("configure-received");
            reveal_strlit("configure.received");
            assert(dashes_to_dots("configure-received"@) =~= "configure.received"@);
        },
        SubscriptionType::MessageSent => {
            reveal_strlit("message-sent");
            reveal_strlit("message.sent");
            assert(dashes_to_dots("message-sent"@) =~= "message.sent"@);
        },
        SubscriptionType::MessageReceived => {
            reveal_strlit("message-received");
            reveal_strlit("message.received");
            assert(dashes_to_dots("message-received"@) =~= "message.received"@);
        },
        SubscriptionType::UnregisterSent => {
            reveal_strlit("unregister-sent");
            reveal_strlit("unregister.sent");
            assert(dashes_to_dots("unregister-sent"@) =~= "unregister.sent"@);
        },
        SubscriptionType::UnregisterReceived => {
            reveal_strlit("unregister-received");
            reveal_strlit("unregister.received");
            assert(dashes_to_dots("unregister-received"@) =~= "unregister.received"@);
        },
    }
}

/// The type segment of a deletion path reads back, on the server, as the
/// type it was written for.
pub proof fn law_delete_path_names_the_type(t: SubscriptionType)
    ensures
        parse_subscription_name(dashes_to_dots(path_segment_name(t))) == Some(t),
{
    lemma_segment_names(t);
    law_type_name_roundtrip(t);
}

/// The type segment the client writes when deleting a subscription: the
/// type's dotted name with `-` for `.`.
pub fn subscription_type_segment(t: SubscriptionType) -> (r: String)
    ensures
        r@ == path_segment_name(t),
        subscription_name(t) == dashes_to_dots(r@),
{
    let r = match t {
        SubscriptionType::BroadcastSent => string_of("broadcast-sent"),
        SubscriptionType::BroadcastReceived => string_of("broadcast-received"),
        SubscriptionType::ConfigureSent => string_of("configure-sent"),
        SubscriptionType::ConfigureReceived => string_of("configure-received"),
        SubscriptionType::MessageSent => string_of("message-sent"),
        SubscriptionType::MessageReceived => string_of("message-received"),
        SubscriptionType::UnregisterSent => string_of("unregister-sent"),
        SubscriptionType::UnregisterReceived => string_of("unregister-received"),
    };
    proof {
        lemma_segment_names(t);
    }
    r
}

/// `/devices/{subscriber}/subscriptions/{emitter}/{type}`.
pub fn subscription_path(subscriber: u128, emitter: u128, t: SubscriptionType) -> (r: String)
    ensures
        r@ == "/devices/"@ + uuid_text(subscriber) + "/subscriptions/"@ + uuid_text(emitter) + "/"@
            + path_segment_name(t),
{
    let mut r = uuid_path("/devices/", subscriber, "/subscriptions/");
    let e = uuid_to_string(emitter);
    push_str(&mut r, e.as_str());
    push_char(&mut r, '/');
    let seg = subscription_type_segment(t);
    push_str(&mut r, seg.as_str());
    proof {
        reveal_strlit("/");
    }
    r
}

/// The `Authorization` value the command-line client sends for saved
/// credentials, encoded with its own base64 encoder.
pub fn cli_auth_header(uuid: &str, token: &str) -> (r: String)
    ensures
        r@ == basic_header(uuid@, token@),
{
    let mut creds = string_of(uuid);
    push_char(&mut creds, ':');
    push_str(&mut creds, token);
    let encoded = base64_encode(creds.as_str().as_bytes());
    let mut r = string_of("Basic ");
    push_str(&mut r, encoded.as_str());
    proof {
        reveal_strlit(":");
        assert(creds@ =~= credential_text(uuid@, token@));
    }
    r
}

/// How many leading bytes of a token `freshblu config` shows.
pub open spec fn shown_token_bytes(len: nat) -> int {
    if len < 8 {
        len as int
    } else {
        8
    }
}

/// A token as `freshblu config` shows it: its first eight bytes (all of a
/// shorter one) followed by `...`. The cut must fall between characters.
pub fn masked_token(token: &str) -> (r: String)
    requires
        vstd::utf8::is_char_boundary(token.spec_bytes(), shown_token_bytes(token.spec_bytes().len())),
    ensures
        exists|shown: Seq<char>|
            r@ == shown + "..."@ && encode_utf8(shown) == token.spec_bytes().subrange(
                0,
                shown_token_bytes(token.spec_bytes().len()),
            ),
{
    let len = token.as_bytes().len();
    let n = if len < 8 {
        len
    } else {
        8
    };
    let (head, _) = token.split_at(n);
    let mut r = string_of(head);
    push_str(&mut r, "...");
    assert(r@ == head@ + "..."@);
    assert(encode_utf8(head@) == head.spec_bytes());
    assert(head.spec_bytes() =~= token.spec_bytes().subrange(0, shown_token_bytes(token.spec_bytes().len())));
    r
}

/// What a frame from the server means to a connecting WebSocket client, by
/// its `event` field.
#[derive(Debug, Clone, Copy, PartialEq, Eq, Structural)]
pub enum ServerFrame {
    /// `ready`: authentication completed.
    Ready,
    /// `notReady`: authentication failed; the connection ends.
    NotReady,
    /// Any other event, handed on to the client's listeners.
    Other,
}

/// The meaning of a server event name.
pub open spec fn frame_of(event: Seq<char>) -> ServerFrame {
    if event == "ready"@ {
        ServerFrame::Ready
    } else if event == "notReady"@ {
        ServerFrame::NotReady
    } else {
        ServerFrame::Other
    }
}

/// Reads the event name of a server frame (empty where the frame has none).
pub fn classify_server_event(event: &str) -> (r: ServerFrame)
    ensures
        r == frame_of(event@),
{
    if str_eq(event, "ready") {
        ServerFrame::Ready
    } else if str_eq(event, "notReady") {
        ServerFrame::NotReady
    } else {
        ServerFrame::Other
    }
}

/// The error text of a refused connection: the server's reason, or
/// `Authentication failed` where it gave none.
pub fn not_ready_reason(reason: Option<&str>) -> (r: String)
    ensures
        r@ == match reason {
            Some(t) => t@,
            None => "Authentication failed"@,
        },
{
    match reason {
        Some(t) => string_of(t),
        None => string_of("Authentication failed"),
    }
}

/// How the client reads an HTTP response, by its status.
#[derive(Debug, Clone, Copy, PartialEq, Eq, Structural)]
pub enum ResponseKind {
    /// 204: no body; the result is JSON `null`.
    Empty,
    /// 400 and above: an error carrying the status and a message.
    Failure,
    /// Anything else: the body is read as JSON.
    Body,
}

/// The reading of a response with status `status`.
pub open spec fn response_kind(status: u16) -> ResponseKind {
    if status == 204 {
        ResponseKind::Empty
    } else if status >= 400 {
        ResponseKind::Failure
    } else {
        ResponseKind::Body
    }
}

/// Decides how to read a response by its status.
pub fn classify_response(status: u16) -> (r: ResponseKind)
    ensures
        r == response_kind(status),
{
    if status == 204 {
        ResponseKind::Empty
    } else if status >= 400 {
        ResponseKind::Failure
    } else {
        ResponseKind::Body
    }
}

/// The message of a failed response: the `error` text of its JSON body
/// where it has one, else the whole body text.
pub fn failure_message(body_error: Option<&str>, text: String) -> (r: String)
    ensures
        r@ == match body_error {
            Some(e) => e@,
            None => text@,
        },
{
    match body_error {
        Some(e) => string_of(e),
        None => text,
    }
}

} // verus!
