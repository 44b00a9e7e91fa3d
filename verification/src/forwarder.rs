//! Forwarders: what a device's events are re-sent to (webhooks, or a
//! re-emission as a message), and the rules of firing them.
use vstd::prelude::*;

use crate::text::{ascii_uppercase, is_ascii_text, str_eq, string_of};

verus! {

/// At most this many forwarders fire for one event.
pub const MAX_FORWARDERS_PER_EVENT: usize = 10;

/// A chain of meshblu forwarders stops at this many hops.
pub const MAX_FORWARD_DEPTH: usize = 5;

/// The type of a forwarder.
#[derive(Debug, Clone, Copy, PartialEq, Eq, Structural)]
pub enum ForwarderType {
    Webhook,
    Meshblu,
}

/// Configuration of a webhook forwarder.
#[derive(Debug, PartialEq)]
pub struct WebhookForwarder {
    pub url: String,
    pub method: String,
    pub sign_request: bool,
    pub generate_and_forward_meshblu_credentials: bool,
}

/// The HTTP method a webhook uses when its configuration names none.
pub fn default_method() -> (r: String)
    ensures
        r@ == "POST"@,
{
    string_of("POST")
}

/// Configuration of a meshblu-to-meshblu forwarder (re-emits as a message).
#[derive(Debug, PartialEq)]
pub struct MeshbluForwarder {}

/// One forwarder: a webhook or a meshblu re-emission.
#[derive(Debug, PartialEq)]
pub enum ForwarderEntry {
    Webhook(WebhookForwarder),
    Meshblu(MeshbluForwarder),
}

/// The event category a forwarder list belongs to.
#[derive(Debug, Clone, Copy, PartialEq, Eq, Hash, Structural)]
pub enum ForwarderEvent {
    BroadcastSent,
    BroadcastReceived,
    ConfigureSent,
    ConfigureReceived,
    MessageSent,
    MessageReceived,
    UnregisterSent,
    UnregisterReceived,
}

/// The sent / received forwarder lists of one category.
#[derive(Debug, PartialEq)]
pub struct ForwarderPair {
    pub sent: Vec<ForwarderEntry>,
    pub received: Vec<ForwarderEntry>,
}

/// The forwarder configuration of a device: one list per event type.
#[derive(Debug, PartialEq)]
pub struct Forwarders {
    pub broadcast: ForwarderPair,
    pub configure: ForwarderPair,
    pub message: ForwarderPair,
    pub unregister: ForwarderPair,
}

/// Whether two forwarder entries are configured alike.
pub open spec fn same_entry(a: ForwarderEntry, b: ForwarderEntry) -> bool {
    match (a, b) {
        (ForwarderEntry::Webhook(x), ForwarderEntry::Webhook(y)) => {
            &&& x.url@ == y.url@
            &&& x.method@ == y.method@
            &&& x.sign_request == y.sign_request
            &&& x.generate_and_forward_meshblu_credentials == y.generate_and_forward_meshblu_credentials
        },
        (ForwarderEntry::Meshblu(_), ForwarderEntry::Meshblu(_)) => true,
        _ => false,
    }
}

/// Whether two forwarder lists are configured alike, entry by entry.
pub open spec fn same_entries(a: Seq<ForwarderEntry>, b: Seq<ForwarderEntry>) -> bool {
    a.len() == b.len() && forall|i: int| 0 <= i < a.len() ==> same_entry(#[trigger] a[i], b[i])
}

/// Whether two forwarder configurations are alike for every event.
pub open spec fn same_forwarders(a: Forwarders, b: Forwarders) -> bool {
    forall|e: ForwarderEvent| same_entries(#[trigger] forwarders_for(a, e), forwarders_for(b, e))
}

impl Clone for WebhookForwarder {
    fn clone(&self) -> (r: WebhookForwarder)
        ensures
            same_entry(ForwarderEntry::Webhook(r), ForwarderEntry::Webhook(*self)),
    {
        WebhookForwarder {
            url: self.url.clone(),
            method: self.method.clone(),
            sign_request: self.sign_request,
            generate_and_forward_meshblu_credentials: self.generate_and_forward_meshblu_credentials,
        }
    }
}

impl Clone for MeshbluForwarder {
    fn clone(&self) -> (r: MeshbluForwarder) {
        MeshbluForwarder {}
    }
}

impl Clone for ForwarderEntry {
    fn clone(&self) -> (r: ForwarderEntry)
        ensures
            same_entry(r, *self),
    {
        match self {
            ForwarderEntry::Webhook(w) => ForwarderEntry::Webhook(w.clone()),
            ForwarderEntry::Meshblu(m) => ForwarderEntry::Meshblu(m.clone()),
        }
    }
}

fn clone_forwarder_list(list: &Vec<ForwarderEntry>) -> (r: Vec<ForwarderEntry>)
    ensures
        same_entries(r@, list@),
{
    let mut r: Vec<ForwarderEntry> = Vec::new();
    let mut i: usize = 0;
    while i < list.len()
        invariant
            i <= list@.len(),
            r@.len() == i,
            forall|j: int| 0 <= j < i ==> same_entry(#[trigger] r@[j], list@[j]),
        decreases list@.len() - i,
    {
        r.push(list[i].clone());
        i = i + 1;
    }
    r
}

impl Clone for ForwarderPair {
    fn clone(&self) -> (r: ForwarderPair)
        ensures
            same_entries(r.sent@, self.sent@),
            same_entries(r.received@, self.received@),
    {
        ForwarderPair {
            sent: clone_forwarder_list(&self.sent),
            received: clone_forwarder_list(&self.received),
        }
    }
}

impl Clone for Forwarders {
    fn clone(&self) -> (r: Forwarders)
        ensures
            same_forwarders(r, *self),
    {
        Forwarders {
            broadcast: self.broadcast.clone(),
            configure: self.configure.clone(),
            message: self.message.clone(),
            unregister: self.unregister.clone(),
        }
    }
}

impl Default for ForwarderPair {
    fn default() -> (r: ForwarderPair)
        ensures
            r.sent@.len() == 0,
            r.received@.len() == 0,
    {
        ForwarderPair { sent: Vec::new(), received: Vec::new() }
    }
}

impl Default for Forwarders {
    fn default() -> (r: Forwarders)
        ensures
            forall|e: ForwarderEvent| (#[trigger] forwarders_for(r, e)).len() == 0,
    {
        Forwarders {
            broadcast: ForwarderPair::default(),
            configure: ForwarderPair::default(),
            message: ForwarderPair::default(),
            unregister: ForwarderPair::default(),
        }
    }
}

/// The forwarder list of `f` for event `e`.
pub open spec fn forwarders_for(f: Forwarders, e: ForwarderEvent) -> Seq<ForwarderEntry> {
    match e {
        ForwarderEvent::BroadcastSent => f.broadcast.sent@,
        ForwarderEvent::BroadcastReceived => f.broadcast.received@,
        ForwarderEvent::ConfigureSent => f.configure.sent@,
        ForwarderEvent::ConfigureReceived => f.configure.received@,
        ForwarderEvent::MessageSent => f.message.sent@,
        ForwarderEvent::MessageReceived => f.message.received@,
        ForwarderEvent::UnregisterSent => f.unregister.sent@,
        ForwarderEvent::UnregisterReceived => f.unregister.received@,
    }
}

impl Forwarders {
    /// The forwarders configured for an event.
    pub fn get(&self, event: ForwarderEvent) -> (r: &[ForwarderEntry])
        ensures
            r@ == forwarders_for(*self, event),
    {
        match event {
            ForwarderEvent::BroadcastSent => self.broadcast.sent.as_slice(),
            ForwarderEvent::BroadcastReceived => self.broadcast.received.as_slice(),
            ForwarderEvent::ConfigureSent => self.configure.sent.as_slice(),
            ForwarderEvent::ConfigureReceived => self.configure.received.as_slice(),
            ForwarderEvent::MessageSent => self.message.sent.as_slice(),
            ForwarderEvent::MessageReceived => self.message.received.as_slice(),
            ForwarderEvent::UnregisterSent => self.unregister.sent.as_slice(),
            ForwarderEvent::UnregisterReceived => self.unregister.received.as_slice(),
        }
    }
}

/// The positions, in order, among the first `n` entries, of the webhook
/// entries (`webhook`) or of the meshblu entries (`!webhook`).
pub open spec fn kind_positions(entries: Seq<ForwarderEntry>, n: int, webhook: bool) -> Seq<int>
    decreases n,
{
    if n <= 0 {
        Seq::empty()
    } else {
        let earlier = kind_positions(entries, n - 1, webhook);
        if (entries[n - 1] is Webhook) == webhook {
            earlier.push(n - 1)
        } else {
            earlier
        }
    }
}

/// How many entries of a list fire: the first ten at most.
pub open spec fn fired_count(len: int) -> int {
    if len < MAX_FORWARDERS_PER_EVENT {
        len
    } else {
        MAX_FORWARDERS_PER_EVENT as int
    }
}

/// The plan of firing a forwarder list: of its first ten entries, the
/// positions of the webhooks (fired together) and of the meshblu forwarders
/// (fired one after the other), each in list order.
pub fn plan_forwarders(entries: &[ForwarderEntry]) -> (r: (Vec<usize>, Vec<usize>))
    ensures
        r.0@.map_values(|i: usize| i as int) == kind_positions(entries@, fired_count(
            entries@.len() as int,
        ), true),
        r.1@.map_values(|i: usize| i as int) == kind_positions(entries@, fired_count(
            entries@.len() as int,
        ), false),
{
    let n = if entries.len() < MAX_FORWARDERS_PER_EVENT {
        entries.len()
    } else {
        MAX_FORWARDERS_PER_EVENT
    };
    let mut webhooks: Vec<usize> = Vec::new();
    let mut meshblus: Vec<usize> = Vec::new();
    let mut i: usize = 0;
    while i < n
        invariant
            n == fired_count(entries@.len() as int),
            n <= entries@.len(),
            i <= n,
            webhooks@.map_values(|i: usize| i as int) == kind_positions(entries@, i as int, true),
            meshblus@.map_values(|i: usize| i as int) == kind_positions(entries@, i as int, false),
        decreases n - i,
    {
        match &entries[i] {
            ForwarderEntry::Webhook(_) => {
                webhooks.push(i);
            },
            ForwarderEntry::Meshblu(_) => {
                meshblus.push(i);
            },
        }
        assert(webhooks@.map_values(|i: usize| i as int) =~= kind_positions(
            entries@,
            i + 1,
            true,
        ));
        assert(meshblus@.map_values(|i: usize| i as int) =~= kind_positions(
            entries@,
            i + 1,
            false,
        ));
        i = i + 1;
    }
    (webhooks, meshblus)
}

/// Whether a meshblu forwarder of `device` may fire, given the devices the
/// event was already forwarded from: not once the chain is five hops long,
/// and never back through a device already on it.
pub open spec fn meshblu_forward_allowed(device: u128, forwarded_from: Seq<u128>) -> bool {
    forwarded_from.len() < MAX_FORWARD_DEPTH && !forwarded_from.contains(device)
}

/// Loop detection for meshblu forwarders.
pub fn may_forward_meshblu(device: u128, forwarded_from: &[u128]) -> (b: bool)
    ensures
        b == meshblu_forward_allowed(device, forwarded_from@),
{
    if forwarded_from.len() >= MAX_FORWARD_DEPTH {
        return false;
    }
    let mut i: usize = 0;
    while i < forwarded_from.len()
        invariant
            i <= forwarded_from@.len(),
            forall|j: int| 0 <= j < i ==> forwarded_from@[j] != device,
        decreases forwarded_from@.len() - i,
    {
        if forwarded_from[i] == device {
            assert(forwarded_from@[i as int] == device);
            return false;
        }
        i = i + 1;
    }
    true
}

/// The HTTP methods a webhook can use.
#[derive(Debug, Clone, Copy, PartialEq, Eq, Structural)]
pub enum HttpMethod {
    Get,
    Put,
    Delete,
    Post,
}

/// What `str::to_uppercase` gives for a text.
pub uninterp spec fn uppercase(s: Seq<char>) -> Seq<char>;

/// `str::to_uppercase`.
///
/// Trusted: the result is the standard library's upper-case mapping of the
/// text; on ASCII text Unicode's mapping makes `a`..`z` capital and keeps
/// every other character, which `ascii_uppercase` states. Of other text
/// nothing more is claimed.
#[verifier::external_body]
fn to_uppercase(s: &str) -> (r: String)
    ensures
        r@ == uppercase(s@),
        is_ascii_text(s@) ==> r@ == ascii_uppercase(s@),
{
    s.to_uppercase()
}

/// The method of a webhook named by its configured method text, compared
/// without regard to case: GET, PUT and DELETE are kept, anything else is POST.
pub open spec fn method_for(upper: Seq<char>) -> HttpMethod {
    if upper == "GET"@ {
        HttpMethod::Get
    } else if upper == "PUT"@ {
        HttpMethod::Put
    } else if upper == "DELETE"@ {
        HttpMethod::Delete
    } else {
        HttpMethod::Post
    }
}

/// The HTTP method a webhook is fired with.
pub fn webhook_method(wh: &WebhookForwarder) -> (m: HttpMethod)
    ensures
        m == method_for(uppercase(wh.method@)),
        is_ascii_text(wh.method@) ==> m == method_for(ascii_uppercase(wh.method@)),
{
    let upper = to_uppercase(wh.method.as_str());
    if str_eq(upper.as_str(), "GET") {
        HttpMethod::Get
    } else if str_eq(upper.as_str(), "PUT") {
        HttpMethod::Put
    } else if str_eq(upper.as_str(), "DELETE") {
        HttpMethod::Delete
    } else {
        HttpMethod::Post
    }
}

/// Of the first `n` entries, each is planned exactly once: as a webhook or as a
/// meshblu forwarder.
pub proof fn law_plan_covers_each_entry_once(entries: Seq<ForwarderEntry>, n: int)
    requires
        0 <= n <= entries.len(),
    ensures
        kind_positions(entries, n, true).len() + kind_positions(entries, n, false).len() == n,
        forall|i: int|
            0 <= i < n ==> (kind_positions(entries, n, true).contains(i) <==> entries[i] is Webhook),
        forall|i: int|
            0 <= i < n ==> (kind_positions(entries, n, false).contains(i) <==> !(
            entries[i] is Webhook)),
    decreases n,
{
    if n > 0 {
        law_plan_covers_each_entry_once(entries, n - 1);
        lemma_positions_below(entries, n - 1, true);
        lemma_positions_below(entries, n - 1, false);
        assert forall|i: int| 0 <= i < n implies (kind_positions(entries, n, true).contains(i)
            <==> entries[i] is Webhook) by {
            if i < n - 1 {
                if kind_positions(entries, n, true).contains(i) {
                    let k = choose|k: int|
                        0 <= k < kind_positions(entries, n, true).len() && #[trigger] kind_positions(
                            entries,
                            n,
                            true,
                        )[k] == i;
                    if k < kind_positions(entries, n - 1, true).len() {
                        assert(kind_positions(entries, n - 1, true)[k] == i);
                    }
                }
                if kind_positions(entries, n - 1, true).contains(i) {
                    let k = choose|k: int|
                        0 <= k < kind_positions(entries, n - 1, true).len() && #[trigger] kind_positions(
                            entries,
                            n - 1,
                            true,
                        )[k] == i;
                    assert(kind_positions(entries, n, true)[k] == i);
                }
            } else {
                if entries[i] is Webhook {
                    assert(kind_positions(entries, n, true).last() == i);
                } else if kind_positions(entries, n, true).contains(i) {
                    let k = choose|k: int|
                        0 <= k < kind_positions(entries, n, true).len() && #[trigger] kind_positions(
                            entries,
                            n,
                            true,
                        )[k] == i;
                    assert(kind_positions(entries, n - 1, true)[k] < n - 1);
                }
            }
        }
        assert forall|i: int| 0 <= i < n implies (kind_positions(entries, n, false).contains(i)
            <==> !(entries[i] is Webhook)) by {
            if i < n - 1 {
                if kind_positions(entries, n, false).contains(i) {
                    let k = choose|k: int|
                        0 <= k < kind_positions(entries, n, false).len() && #[trigger] kind_positions(
                            entries,
                            n,
                            false,
                        )[k] == i;
                    if k < kind_positions(entries, n - 1, false).len() {
                        assert(kind_positions(entries, n - 1, false)[k] == i);
                    }
                }
                if kind_positions(entries, n - 1, false).contains(i) {
                    let k = choose|k: int|
                        0 <= k < kind_positions(entries, n - 1, false).len() && #[trigger] kind_positions(
                            entries,
                            n - 1,
                            false,
                        )[k] == i;
                    assert(kind_positions(entries, n, false)[k] == i);
                }
            } else {
                if !(entries[i] is Webhook) {
                    assert(kind_positions(entries, n, false).last() == i);
                } else if kind_positions(entries, n, false).contains(i) {
                    let k = choose|k: int|
                        0 <= k < kind_positions(entries, n, false).len() && #[trigger] kind_positions(
                            entries,
                            n,
                            false,
                        )[k] == i;
                    assert(kind_positions(entries, n - 1, false)[k] < n - 1);
                }
            }
        }
    }
}

proof fn lemma_positions_below(entries: Seq<ForwarderEntry>, n: int, webhook: bool)
    requires
        0 <= n,
    ensures
        forall|k: int|
            0 <= k < kind_positions(entries, n, webhook).len() ==> 0 <= #[trigger] kind_positions(
                entries,
                n,
                webhook,
            )[k] < n,
    decreases n,
{
    if n > 0 {
        lemma_positions_below(entries, n - 1, webhook);
        let earlier = kind_positions(entries, n - 1, webhook);
        assert forall|k: int| 0 <= k < kind_positions(entries, n, webhook).len() implies 0
            <= #[trigger] kind_positions(entries, n, webhook)[k] < n by {
            if k < earlier.len() {
                assert(kind_positions(entries, n, webhook)[k] == earlier[k]);
            }
        }
    }
}

/// A webhook keeps each of the methods GET, PUT and DELETE named by its
/// (upper-cased) method text, and is sent with POST exactly when the text
/// names none of them.
pub proof fn law_webhook_methods(upper: Seq<char>)
    ensures
        method_for("GET"@) == HttpMethod::Get,
        method_for("PUT"@) == HttpMethod::Put,
        method_for("DELETE"@) == HttpMethod::Delete,
        method_for(upper) == HttpMethod::Post <==> (upper != "GET"@ && upper != "PUT"@ && upper != "DELETE"@),
        method_for(upper) == HttpMethod::Get <==> upper == "GET"@,
        method_for(upper) == HttpMethod::Put <==> upper == "PUT"@,
        method_for(upper) == HttpMethod::Delete <==> upper == "DELETE"@,
{
    reveal_strlit("GET");
    reveal_strlit("PUT");
    reveal_strlit("DELETE");
    assert("GET"@ != "PUT"@) by {
        assert("GET"@[0] != "PUT"@[0]);
    }
    assert("GET"@ != "DELETE"@) by {
        assert("GET"@.len() != "DELETE"@.len());
    }
    assert("PUT"@ != "DELETE"@) by {
        assert("PUT"@.len() != "DELETE"@.len());
    }
}

} // verus!
