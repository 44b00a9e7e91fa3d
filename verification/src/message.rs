//! Messages between devices, the events delivered to connected devices, and
//! the events carried between gateway pods.
use vstd::prelude::*;

use crate::device::{clone_opt_string, opt_text, same_view, DeviceView};
use crate::props::{clone_value, Properties};
use crate::subscription::RouteHop;
use crate::text::{str_eq, string_of};
use crate::uuid_text::{uuid_text, uuid_to_string};

verus! {

/// The texts of a list of strings.
pub open spec fn texts(v: Seq<String>) -> Seq<Seq<char>> {
    v.map_values(|s: String| s@)
}

/// A copy of a list of strings.
pub fn clone_strings(v: &Vec<String>) -> (r: Vec<String>)
    ensures
        texts(r@) == texts(v@),
{
    let mut r: Vec<String> = Vec::new();
    let mut i: usize = 0;
    while i < v.len()
        invariant
            i <= v@.len(),
            r@.len() == i,
            forall|j: int| 0 <= j < i ==> (#[trigger] r@[j])@ == v@[j]@,
        decreases v@.len() - i,
    {
        r.push(v[i].clone());
        i = i + 1;
    }
    assert(texts(r@) =~= texts(v@));
    r
}

/// A copy of an optional JSON value.
pub fn clone_opt_value(v: &Option<serde_json::Value>) -> (r: Option<serde_json::Value>)
    ensures
        r == *v,
{
    match v {
        Some(x) => Some(clone_value(x)),
        None => None,
    }
}

/// Route metadata: the path a message took through subscriptions.
pub struct MessageMetadata {
    pub route: Vec<RouteHop>,
}

impl Clone for MessageMetadata {
    fn clone(&self) -> (r: MessageMetadata)
        ensures
            r.route@ == self.route@,
    {
        let mut route: Vec<RouteHop> = Vec::new();
        let mut i: usize = 0;
        while i < self.route.len()
            invariant
                i <= self.route@.len(),
                route@ == self.route@.take(i as int),
            decreases self.route@.len() - i,
        {
            route.push(self.route[i]);
            assert(route@ =~= self.route@.take(i + 1));
            i = i + 1;
        }
        assert(route@ =~= self.route@);
        MessageMetadata { route }
    }
}

/// A message sent between devices.
pub struct Message {
    /// Target devices; `*` broadcasts to all subscribers.
    pub devices: Vec<String>,
    /// The UUID of the sending device (set by the server, trusted).
    pub from_uuid: Option<u128>,
    /// Optional topic for filtering.
    pub topic: Option<String>,
    /// Optional payload.
    pub payload: Option<serde_json::Value>,
    /// Route metadata.
    pub metadata: Option<MessageMetadata>,
    /// Any extra fields.
    pub extra: Properties,
}

/// The route of optional metadata.
pub open spec fn route_of(m: Option<MessageMetadata>) -> Option<Seq<RouteHop>> {
    match m {
        Some(md) => Some(md.route@),
        None => None,
    }
}

/// Whether two messages hold the same values.
pub open spec fn same_message(a: Message, b: Message) -> bool {
    &&& texts(a.devices@) == texts(b.devices@)
    &&& a.from_uuid == b.from_uuid
    &&& opt_text(a.topic) == opt_text(b.topic)
    &&& a.payload == b.payload
    &&& route_of(a.metadata) == route_of(b.metadata)
    &&& a.extra@ == b.extra@
    &&& a.extra.wf() == b.extra.wf()
}

impl Clone for Message {
    fn clone(&self) -> (r: Message)
        ensures
            same_message(r, *self),
    {
        Message {
            devices: clone_strings(&self.devices),
            from_uuid: self.from_uuid,
            topic: clone_opt_string(&self.topic),
            payload: clone_opt_value(&self.payload),
            metadata: match &self.metadata {
                Some(m) => Some(m.clone()),
                None => None,
            },
            extra: self.extra.clone(),
        }
    }
}

/// Parameters a client sends to send a message.
pub struct SendMessageParams {
    pub devices: Vec<String>,
    pub topic: Option<String>,
    pub payload: Option<serde_json::Value>,
    pub extra: Properties,
}

/// Whether a target list holds the broadcast target `*`.
pub open spec fn targets_broadcast(devices: Seq<String>) -> bool {
    exists|i: int| 0 <= i < devices.len() && (#[trigger] devices[i])@ == "*"@
}

/// Whether a list of targets holds `*`.
pub fn has_broadcast_target(devices: &Vec<String>) -> (b: bool)
    ensures
        b == targets_broadcast(devices@),
{
    let mut i: usize = 0;
    while i < devices.len()
        invariant
            i <= devices@.len(),
            forall|j: int| 0 <= j < i ==> (#[trigger] devices@[j])@ != "*"@,
        decreases devices@.len() - i,
    {
        if str_eq(devices[i].as_str(), "*") {
            return true;
        }
        i = i + 1;
    }
    false
}

impl SendMessageParams {
    /// Whether the message is a broadcast: one of its targets is `*`.
    pub fn is_broadcast(&self) -> (b: bool)
        ensures
            b == targets_broadcast(self.devices@),
    {
        has_broadcast_target(&self.devices)
    }
}

impl Message {
    /// The message that a device `sender` sends with the given parameters:
    /// their targets, topic, payload and extra fields, without route metadata.
    pub fn from_params(params: &SendMessageParams, sender: u128) -> (m: Message)
        ensures
            texts(m.devices@) == texts(params.devices@),
            m.from_uuid == Some(sender),
            opt_text(m.topic) == opt_text(params.topic),
            m.payload == params.payload,
            m.metadata is None,
            m.extra@ == params.extra@,
            m.extra.wf() == params.extra.wf(),
    {
        Message {
            devices: clone_strings(&params.devices),
            from_uuid: Some(sender),
            topic: clone_opt_string(&params.topic),
            payload: clone_opt_value(&params.payload),
            metadata: None,
            extra: params.extra.clone(),
        }
    }

    /// The message a meshblu forwarder re-emits: from the device to itself,
    /// under the topic `forwarder`, carrying the event's payload.
    pub fn forwarded(device: u128, payload: serde_json::Value) -> (m: Message)
        ensures
            texts(m.devices@) == seq![uuid_text(device)],
            m.from_uuid == Some(device),
            opt_text(m.topic) == Some("forwarder"@),
            m.payload == Some(payload),
            m.metadata is None,
            m.extra.wf(),
            m.extra@ == Map::<Seq<char>, serde_json::Value>::empty(),
    {
        let mut devices: Vec<String> = Vec::new();
        devices.push(uuid_to_string(device));
        assert(texts(devices@) =~= seq![uuid_text(device)]);
        Message {
            devices,
            from_uuid: Some(device),
            topic: Some(string_of("forwarder")),
            payload: Some(payload),
            metadata: None,
            extra: Properties::new(),
        }
    }

    /// A broadcast of a raw payload by `from` (the MQTT `broadcast` topic):
    /// targets `*`, no topic.
    pub fn broadcast_payload(from: u128, payload: serde_json::Value) -> (m: Message)
        ensures
            texts(m.devices@) == seq!["*"@],
            m.from_uuid == Some(from),
            m.topic is None,
            m.payload == Some(payload),
            m.metadata is None,
            m.extra.wf(),
            m.extra@ == Map::<Seq<char>, serde_json::Value>::empty(),
    {
        let mut devices: Vec<String> = Vec::new();
        devices.push(string_of("*"));
        assert(texts(devices@) =~= seq!["*"@]);
        Message {
            devices,
            from_uuid: Some(from),
            topic: None,
            payload: Some(payload),
            metadata: None,
            extra: Properties::new(),
        }
    }
}

/// Broadcast parameters, where `devices` is optional (and ignored: a
/// broadcast always targets `*`).
pub struct BroadcastParams {
    pub devices: Option<Vec<String>>,
    pub topic: Option<String>,
    pub payload: Option<serde_json::Value>,
    pub extra: Properties,
}

impl BroadcastParams {
    /// The message parameters of a broadcast: target `*`, and the topic,
    /// payload and extra fields given.
    pub fn into_send_params(self) -> (p: SendMessageParams)
        ensures
            texts(p.devices@) == seq!["*"@],
            p.topic == self.topic,
            p.payload == self.payload,
            p.extra == self.extra,
    {
        let mut devices: Vec<String> = Vec::new();
        devices.push(string_of("*"));
        assert(texts(devices@) =~= seq!["*"@]);
        SendMessageParams { devices, topic: self.topic, payload: self.payload, extra: self.extra }
    }
}

/// Events delivered to connected devices (over WebSocket, MQTT, streaming).
pub enum DeviceEvent {
    /// A message was received.
    Message(Message),
    /// The device's config was updated.
    Config { device: DeviceView },
    /// A subscription-forwarded event arrived.
    Broadcast(Message),
    /// Authentication completed.
    Ready { uuid: u128, token: Option<String> },
    /// Authentication failed.
    NotReady { reason: String },
    /// A device was unregistered.
    Unregistered { uuid: u128 },
}

/// Whether two device events hold the same values.
pub open spec fn same_event(a: DeviceEvent, b: DeviceEvent) -> bool {
    match (a, b) {
        (DeviceEvent::Message(x), DeviceEvent::Message(y)) => same_message(x, y),
        (DeviceEvent::Broadcast(x), DeviceEvent::Broadcast(y)) => same_message(x, y),
        (DeviceEvent::Config { device: x }, DeviceEvent::Config { device: y }) => same_view(x, y),
        (DeviceEvent::Ready { uuid: u1, token: t1 }, DeviceEvent::Ready { uuid: u2, token: t2 }) => u1
            == u2 && opt_text(t1) == opt_text(t2),
        (DeviceEvent::NotReady { reason: r1 }, DeviceEvent::NotReady { reason: r2 }) => r1@ == r2@,
        (DeviceEvent::Unregistered { uuid: u1 }, DeviceEvent::Unregistered { uuid: u2 }) => u1 == u2,
        _ => false,
    }
}

impl Clone for DeviceEvent {
    fn clone(&self) -> (r: DeviceEvent)
        ensures
            same_event(r, *self),
    {
        match self {
            DeviceEvent::Message(m) => DeviceEvent::Message(m.clone()),
            DeviceEvent::Config { device } => DeviceEvent::Config { device: device.clone() },
            DeviceEvent::Broadcast(m) => DeviceEvent::Broadcast(m.clone()),
            DeviceEvent::Ready { uuid, token } => DeviceEvent::Ready {
                uuid: *uuid,
                token: clone_opt_string(token),
            },
            DeviceEvent::NotReady { reason } => DeviceEvent::NotReady { reason: reason.clone() },
            DeviceEvent::Unregistered { uuid } => DeviceEvent::Unregistered { uuid: *uuid },
        }
    }
}

/// Events carried between gateway pods and the router.
pub enum NatsEvent {
    /// A direct message from one device to another.
    Message { from: u128, msg: Message },
    /// A broadcast message.
    Broadcast { from: u128, msg: Message },
    /// A device's configuration was updated.
    ConfigUpdate { uuid: u128, device: DeviceView },
    /// A device was unregistered.
    Unregister { uuid: u128 },
}

/// An event addressed to one device, with the pod it came from.
pub struct DeliveryEnvelope {
    /// The device that should receive this event.
    pub target: u128,
    /// The event to deliver.
    pub event: NatsEvent,
    /// The pod that originated this event.
    pub source_pod: String,
}

/// How a device event addressed to `target` travels between pods: messages
/// and broadcasts carry their sender (the target where none is set), config
/// updates name the target, unregisters keep their UUID; `Ready` and
/// `NotReady` stay local and do not travel.
pub open spec fn travels_as(target: u128, e: DeviceEvent, n: Option<NatsEvent>) -> bool {
    match (e, n) {
        (DeviceEvent::Message(m), Some(NatsEvent::Message { from, msg })) => from == match m.from_uuid {
            Some(f) => f,
            None => target,
        } && same_message(msg, m),
        (DeviceEvent::Broadcast(m), Some(NatsEvent::Broadcast { from, msg })) => from == match m.from_uuid {
            Some(f) => f,
            None => target,
        } && same_message(msg, m),
        (DeviceEvent::Config { device }, Some(NatsEvent::ConfigUpdate { uuid, device: d })) => uuid
            == target && same_view(d, device),
        (DeviceEvent::Unregistered { uuid }, Some(NatsEvent::Unregister { uuid: u })) => u == uuid,
        (DeviceEvent::Ready { .. }, None) => true,
        (DeviceEvent::NotReady { .. }, None) => true,
        _ => false,
    }
}

/// The pod-to-pod form of a device event addressed to `target`, if it travels.
pub fn device_event_to_nats(target: u128, event: &DeviceEvent) -> (r: Option<NatsEvent>)
    ensures
        travels_as(target, *event, r),
{
    match event {
        DeviceEvent::Message(msg) => Some(NatsEvent::Message {
            from: match msg.from_uuid {
                Some(f) => f,
                None => target,
            },
            msg: msg.clone(),
        }),
        DeviceEvent::Broadcast(msg) => Some(NatsEvent::Broadcast {
            from: match msg.from_uuid {
                Some(f) => f,
                None => target,
            },
            msg: msg.clone(),
        }),
        DeviceEvent::Config { device } => Some(NatsEvent::ConfigUpdate { uuid: target, device: device.clone() }),
        DeviceEvent::Unregistered { uuid } => Some(NatsEvent::Unregister { uuid: *uuid }),
        DeviceEvent::Ready { .. } | DeviceEvent::NotReady { .. } => None,
    }
}

/// The device event that a pod-to-pod event is delivered as.
pub open spec fn delivered_as(n: NatsEvent) -> DeviceEvent {
    match n {
        NatsEvent::Message { msg, .. } => DeviceEvent::Message(msg),
        NatsEvent::Broadcast { msg, .. } => DeviceEvent::Broadcast(msg),
        NatsEvent::ConfigUpdate { device, .. } => DeviceEvent::Config { device },
        NatsEvent::Unregister { uuid } => DeviceEvent::Unregistered { uuid },
    }
}

/// The device event a received pod-to-pod event is delivered as.
pub fn nats_event_to_device_event(event: NatsEvent) -> (r: DeviceEvent)
    ensures
        r == delivered_as(event),
{
    match event {
        NatsEvent::Message { msg, .. } => DeviceEvent::Message(msg),
        NatsEvent::Broadcast { msg, .. } => DeviceEvent::Broadcast(msg),
        NatsEvent::ConfigUpdate { device, .. } => DeviceEvent::Config { device },
        NatsEvent::Unregister { uuid } => DeviceEvent::Unregistered { uuid },
    }
}

/// An event that travels to another pod is delivered there as the event it
/// was: what a device receives across pods is what was published to it.
pub proof fn law_cross_pod_delivery_preserves_events(target: u128, e: DeviceEvent, n: NatsEvent)
    requires
        travels_as(target, e, Some(n)),
    ensures
        same_event(delivered_as(n), e),
{
}

/// Exactly the local-only events (`Ready`, `NotReady`) do not travel between pods.
pub proof fn law_only_session_events_stay_local(target: u128, e: DeviceEvent)
    requires
        travels_as(target, e, None),
    ensures
        e is Ready || e is NotReady,
{
}

} // verus!
