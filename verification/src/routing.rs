//! The router: which events it takes from the bus, and to which devices it
//! hands each of them on.
use vstd::prelude::*;

use crate::message::NatsEvent;
use crate::subjects::{extract_uuid_from_subject, subject_uuid};
use crate::subscription::SubscriptionType;

verus! {

/// The subject families the router listens to.
#[derive(Debug, Clone, Copy, PartialEq, Eq, Structural)]
pub enum EventStream {
    /// `freshblu.device.{uuid}.inbox`: direct messages.
    Device,
    /// `freshblu.broadcast.{uuid}`: broadcasts.
    Broadcast,
    /// `freshblu.configure.{uuid}`: configuration updates.
    Configure,
    /// `freshblu.system.*`: system events.
    System,
}

/// What the router does with an event.
#[derive(Debug, Clone, Copy, PartialEq, Eq, Structural)]
pub enum Route {
    /// Deliver to this device.
    Direct(u128),
    /// Deliver to the `broadcast.sent` subscribers of this emitter.
    Broadcast(u128),
    /// Deliver to this device and to its `configure.sent` subscribers.
    Config(u128),
    /// Deliver to the `unregister.sent` subscribers of this device.
    Unregister(u128),
}

/// The route of an event that arrived on `subject` of `stream`: the device
/// is read from the subject (and, for system events, from an `Unregister`
/// event); anything else is not routed.
pub open spec fn route_of(stream: EventStream, subject: Seq<char>, event: NatsEvent) -> Option<Route> {
    match stream {
        EventStream::Device => match subject_uuid(subject, "freshblu.device."@, ".inbox"@) {
            Some(u) => Some(Route::Direct(u)),
            None => None,
        },
        EventStream::Broadcast => match subject_uuid(subject, "freshblu.broadcast."@, ""@) {
            Some(u) => Some(Route::Broadcast(u)),
            None => None,
        },
        EventStream::Configure => match subject_uuid(subject, "freshblu.configure."@, ""@) {
            Some(u) => Some(Route::Config(u)),
            None => None,
        },
        EventStream::System => match event {
            NatsEvent::Unregister { uuid } => Some(Route::Unregister(uuid)),
            _ => None,
        },
    }
}

/// Decides the route of an event that arrived on `subject` of `stream`.
pub fn route_event(stream: EventStream, subject: &str, event: &NatsEvent) -> (r: Option<Route>)
    ensures
        r == route_of(stream, subject@, *event),
{
    match stream {
        EventStream::Device => match extract_uuid_from_subject(subject, "freshblu.device.", ".inbox") {
            Some(u) => Some(Route::Direct(u)),
            None => None,
        },
        EventStream::Broadcast => match extract_uuid_from_subject(subject, "freshblu.broadcast.", "") {
            Some(u) => Some(Route::Broadcast(u)),
            None => None,
        },
        EventStream::Configure => match extract_uuid_from_subject(subject, "freshblu.configure.", "") {
            Some(u) => Some(Route::Config(u)),
            None => None,
        },
        EventStream::System => match event {
            NatsEvent::Unregister { uuid } => Some(Route::Unregister(*uuid)),
            _ => None,
        },
    }
}

/// The devices a route delivers to: the device itself, if any, then the
/// subscribers of a type of an emitter, if any.
pub struct FanoutPlan {
    /// A device that receives the event directly.
    pub direct: Option<u128>,
    /// An emitter and a subscription type whose subscribers receive the event.
    pub subscribers_of: Option<(u128, SubscriptionType)>,
}

/// The fan-out of a route.
pub open spec fn plan_of(route: Route) -> FanoutPlan {
    match route {
        Route::Direct(u) => FanoutPlan { direct: Some(u), subscribers_of: None },
        Route::Broadcast(u) => FanoutPlan {
            direct: None,
            subscribers_of: Some((u, SubscriptionType::BroadcastSent)),
        },
        Route::Config(u) => FanoutPlan {
            direct: Some(u),
            subscribers_of: Some((u, SubscriptionType::ConfigureSent)),
        },
        Route::Unregister(u) => FanoutPlan {
            direct: None,
            subscribers_of: Some((u, SubscriptionType::UnregisterSent)),
        },
    }
}

/// The devices to which a route hands its event on.
pub fn fanout_plan(route: Route) -> (r: FanoutPlan)
    ensures
        r == plan_of(route),
{
    match route {
        Route::Direct(u) => FanoutPlan { direct: Some(u), subscribers_of: None },
        Route::Broadcast(u) => FanoutPlan {
            direct: None,
            subscribers_of: Some((u, SubscriptionType::BroadcastSent)),
        },
        Route::Config(u) => FanoutPlan {
            direct: Some(u),
            subscribers_of: Some((u, SubscriptionType::ConfigureSent)),
        },
        Route::Unregister(u) => FanoutPlan {
            direct: None,
            subscribers_of: Some((u, SubscriptionType::UnregisterSent)),
        },
    }
}

/// Every route delivers somewhere, and only a configuration update goes both
/// to the device itself and to subscribers.
pub proof fn law_every_route_delivers(route: Route)
    ensures
        plan_of(route).direct is Some || plan_of(route).subscribers_of is Some,
        (plan_of(route).direct is Some && plan_of(route).subscribers_of is Some) <==> route is Config,
{
}

/// The subject prefix and suffix of a stream that names devices.
pub open spec fn stream_subject(stream: EventStream) -> (Seq<char>, Seq<char>) {
    match stream {
        EventStream::Device => ("freshblu.device."@, ".inbox"@),
        EventStream::Broadcast => ("freshblu.broadcast."@, ""@),
        _ => ("freshblu.configure."@, ""@),
    }
}

/// An event on the device, broadcast or configure stream is routed exactly
/// when its subject names a device (as `device_inbox`, `broadcast` and
/// `configure` write them), and it reaches that device or its subscribers,
/// never another device's; a system event is routed only as an unregister
/// of the device it names.
pub proof fn law_routes_follow_subjects(stream: EventStream, subject: Seq<char>, event: NatsEvent)
    ensures
        stream != EventStream::System ==> (route_of(stream, subject, event) is Some <==> subject_uuid(
            subject,
            stream_subject(stream).0,
            stream_subject(stream).1,
        ) is Some),
        stream != EventStream::System ==> (route_of(stream, subject, event) matches Some(r) ==> {
            let u = subject_uuid(subject, stream_subject(stream).0, stream_subject(stream).1)->0;
            &&& plan_of(r).direct is Some ==> plan_of(r).direct == Some(u)
            &&& plan_of(r).subscribers_of matches Some((e, _)) ==> e == u
        }),
        stream == EventStream::System ==> (route_of(stream, subject, event) is Some <==> event is Unregister),
{
}

/// What each route delivers to: a direct message goes to the device named
/// by its inbox subject and to no subscribers; a broadcast goes only to the
/// emitter's `broadcast.sent` subscribers; a configuration update goes to
/// the device itself and to its `configure.sent` subscribers; an unregister
/// goes only to the device's `unregister.sent` subscribers.
pub proof fn law_route_audiences(u: u128)
    ensures
        plan_of(Route::Direct(u)).direct == Some(u),
        plan_of(Route::Direct(u)).subscribers_of == None::<(u128, SubscriptionType)>,
        plan_of(Route::Broadcast(u)).direct == None::<u128>,
        plan_of(Route::Broadcast(u)).subscribers_of == Some((u, SubscriptionType::BroadcastSent)),
        plan_of(Route::Config(u)).direct == Some(u),
        plan_of(Route::Config(u)).subscribers_of == Some((u, SubscriptionType::ConfigureSent)),
        plan_of(Route::Unregister(u)).direct == None::<u128>,
        plan_of(Route::Unregister(u)).subscribers_of == Some((u, SubscriptionType::UnregisterSent)),
{
}

} // verus!
