//! The WebSocket session protocol: a client first identifies itself with a
//! UUID and token, and only then may it send messages, subscribe, update or
//! unregister its device.
//!
//! The session is a state machine: each step takes the phase of the session
//! and what arrived, and gives the next phase and what to do. Reading the
//! socket, answering it and calling the store are left to the caller.
use vstd::prelude::*;

use crate::access::{check_message_size, may_subscribe};
use crate::device::RegisterParams;
use crate::message::SendMessageParams;
use crate::permissions::{permitted, Whitelists};
use crate::props::Properties;
use crate::subscription::{
    law_only_type_names_parse, law_type_name_roundtrip, subscription_name,
    parse_subscription_name, subscribe_operation, CreateSubscriptionParams, SubscriptionType,
    optional_subscription_type,
};
use crate::text::{str_eq, string_of};
use crate::uuid_text::{parse_uuid, uuid_parse};

verus! {

/// What a client sends over its socket, by its `event` field.
pub enum ClientMessage {
    /// `identity`: authenticate with a device UUID and token.
    Identity { uuid: String, token: String },
    /// `message`: send a message, with the sizes in bytes of its serialized
    /// payload and of its serialized extra fields (0 where there are none).
    Message { params: SendMessageParams, payload_size: usize, extra_size: usize },
    /// `update`: change properties of the connected device.
    Update(Properties),
    /// `subscribe`: follow events of a type of an emitter.
    Subscribe { emitter_uuid: u128, subscription_type: String },
    /// `unsubscribe`: stop following an emitter (all types when none is given).
    Unsubscribe { emitter_uuid: u128, subscription_type: Option<String> },
    /// `whoami`: ask for the connected device.
    Whoami,
    /// `register`: register a new device.
    Register(RegisterParams),
    /// `unregister`: remove a device.
    Unregister { uuid: u128 },
    /// `ping`: ask for a `pong`.
    Ping,
}

/// Where a session stands.
#[derive(Debug, Clone, Copy, PartialEq, Eq, Structural)]
pub enum SocketPhase {
    /// No device has identified itself yet.
    AwaitingIdentity,
    /// The device with this UUID has identified itself.
    Connected(u128),
}

/// Why an identity was refused.
#[derive(Debug, Clone, Copy, PartialEq, Eq, Structural)]
pub enum NotReadyReason {
    /// The UUID given is not a UUID (`invalid uuid`).
    InvalidUuid,
    /// The UUID and token do not authenticate a device (`unauthorized`).
    Unauthorized,
}

/// What a session does after a step.
pub enum SocketAction {
    /// Nothing.
    Ignore,
    /// Answer with a `pong` event.
    Pong,
    /// Answer with a `notReady` event giving the reason.
    NotReady(NotReadyReason),
    /// Authenticate the device with the store, then report the outcome with
    /// `on_authentication`.
    Authenticate { uuid: u128, token: String },
    /// Mark the device online, answer with a `ready` event and attach it to
    /// the message bus.
    Ready { uuid: u128 },
    /// Deliver a message from the connected device.
    SendMessage(SendMessageParams),
    /// Drop a message larger than the size limit, silently.
    DropOversized,
    /// Answer with a `whoami` event holding the connected device.
    Whoami,
    /// Look the emitter up, then decide with `on_subscription_check`.
    CheckSubscription { emitter_uuid: u128, subscription_type: SubscriptionType },
    /// Store the subscription.
    CreateSubscription(CreateSubscriptionParams),
    /// Answer with an `error` event: the subscription is forbidden.
    SubscriptionForbidden,
    /// Delete the connected device's subscriptions to the emitter, of the
    /// given type or of all types.
    Unsubscribe { emitter_uuid: u128, subscription_type: Option<SubscriptionType> },
    /// Update the connected device with these properties.
    Update(Properties),
    /// Register a new device.
    Register(RegisterParams),
    /// Unregister the connected device and close the session.
    UnregisterAndClose,
}

/// The next phase and action of a session in `phase` on a client message.
pub open spec fn socket_step(phase: SocketPhase, msg: ClientMessage, max_message_size: usize) -> (SocketPhase, SocketAction) {
    match phase {
        SocketPhase::AwaitingIdentity => match msg {
            ClientMessage::Identity { uuid, token } => match uuid_parse(uuid@) {
                Some(u) => (phase, SocketAction::Authenticate { uuid: u, token }),
                None => (phase, SocketAction::NotReady(NotReadyReason::InvalidUuid)),
            },
            ClientMessage::Ping => (phase, SocketAction::Pong),
            _ => (phase, SocketAction::Ignore),
        },
        SocketPhase::Connected(device) => match msg {
            ClientMessage::Identity { .. } => (phase, SocketAction::Ignore),
            ClientMessage::Message { params, payload_size, extra_size } => if payload_size + extra_size
                <= max_message_size {
                (phase, SocketAction::SendMessage(params))
            } else {
                (phase, SocketAction::DropOversized)
            },
            ClientMessage::Update(props) => (phase, SocketAction::Update(props)),
            ClientMessage::Subscribe { emitter_uuid, subscription_type } => match parse_subscription_name(
                subscription_type@,
            ) {
                Some(t) => (
                    phase,
                    SocketAction::CheckSubscription { emitter_uuid, subscription_type: t },
                ),
                None => (phase, SocketAction::Ignore),
            },
            ClientMessage::Unsubscribe { emitter_uuid, subscription_type } => (
                phase,
                SocketAction::Unsubscribe {
                    emitter_uuid,
                    subscription_type: match subscription_type {
                        Some(s) => parse_subscription_name(s@),
                        None => None,
                    },
                },
            ),
            ClientMessage::Whoami => (phase, SocketAction::Whoami),
            ClientMessage::Register(params) => (phase, SocketAction::Register(params)),
            ClientMessage::Unregister { uuid } => if uuid == device {
                (phase, SocketAction::UnregisterAndClose)
            } else {
                (phase, SocketAction::Ignore)
            },
            ClientMessage::Ping => (phase, SocketAction::Pong),
        },
    }
}

/// Takes one client message through the session.
pub fn on_client_message(phase: SocketPhase, msg: ClientMessage, max_message_size: usize) -> (r: (
    SocketPhase,
    SocketAction,
))
    ensures
        r == socket_step(phase, msg, max_message_size),
{
    match phase {
        SocketPhase::AwaitingIdentity => match msg {
            ClientMessage::Identity { uuid, token } => match parse_uuid(uuid.as_str()) {
                Some(u) => (phase, SocketAction::Authenticate { uuid: u, token }),
                None => (phase, SocketAction::NotReady(NotReadyReason::InvalidUuid)),
            },
            ClientMessage::Ping => (phase, SocketAction::Pong),
            _ => (phase, SocketAction::Ignore),
        },
        SocketPhase::Connected(device) => match msg {
            ClientMessage::Identity { .. } => (phase, SocketAction::Ignore),
            ClientMessage::Message { params, payload_size, extra_size } => {
                if check_message_size(payload_size, extra_size, max_message_size).is_ok() {
                    (phase, SocketAction::SendMessage(params))
                } else {
                    (phase, SocketAction::DropOversized)
                }
            },
            ClientMessage::Update(props) => (phase, SocketAction::Update(props)),
            ClientMessage::Subscribe { emitter_uuid, subscription_type } => {
                match SubscriptionType::parse_name(subscription_type.as_str()) {
                    Ok(t) => (
                        phase,
                        SocketAction::CheckSubscription { emitter_uuid, subscription_type: t },
                    ),
                    Err(_) => (phase, SocketAction::Ignore),
                }
            },
            ClientMessage::Unsubscribe { emitter_uuid, subscription_type } => {
                let t = match &subscription_type {
                    Some(s) => optional_subscription_type(Some(s.as_str())),
                    None => None,
                };
                (phase, SocketAction::Unsubscribe { emitter_uuid, subscription_type: t })
            },
            ClientMessage::Whoami => (phase, SocketAction::Whoami),
            ClientMessage::Register(params) => (phase, SocketAction::Register(params)),
            ClientMessage::Unregister { uuid } => {
                if uuid == device {
                    (phase, SocketAction::UnregisterAndClose)
                } else {
                    (phase, SocketAction::Ignore)
                }
            },
            ClientMessage::Ping => (phase, SocketAction::Pong),
        },
    }
}

/// The phase and action after authenticating `uuid`: connected and ready
/// when the store accepted the token, else still waiting, and told why.
pub open spec fn on_authentication_result(uuid: u128, authenticated: bool) -> (SocketPhase, SocketAction) {
    if authenticated {
        (SocketPhase::Connected(uuid), SocketAction::Ready { uuid })
    } else {
        (SocketPhase::AwaitingIdentity, SocketAction::NotReady(NotReadyReason::Unauthorized))
    }
}

/// The outcome of authenticating `uuid`: the session is connected to it
/// exactly when the store accepted its token.
pub fn on_authentication(uuid: u128, authenticated: bool) -> (r: (SocketPhase, SocketAction))
    ensures
        r == on_authentication_result(uuid, authenticated),
{
    if authenticated {
        (SocketPhase::Connected(uuid), SocketAction::Ready { uuid })
    } else {
        (SocketPhase::AwaitingIdentity, SocketAction::NotReady(NotReadyReason::Unauthorized))
    }
}

/// Decides a subscription asked for over the socket of `subscriber`, once the
/// emitter has been looked up (`None` where it does not exist): it is stored
/// when the emitter's whitelist for the type admits the subscriber, and
/// refused otherwise.
pub fn on_subscription_check(
    subscriber: u128,
    emitter_uuid: u128,
    t: SubscriptionType,
    emitter_device: Option<&Whitelists>,
) -> (r: SocketAction)
    ensures
        (match emitter_device {
            Some(w) => permitted(*w, subscribe_operation(t), subscriber, emitter_uuid),
            None => false,
        }) ==> r == SocketAction::CreateSubscription(
            CreateSubscriptionParams { emitter_uuid, subscriber_uuid: subscriber, subscription_type: t },
        ),
        !(match emitter_device {
            Some(w) => permitted(*w, subscribe_operation(t), subscriber, emitter_uuid),
            None => false,
        }) ==> r == SocketAction::SubscriptionForbidden,
{
    if may_subscribe(emitter_device, subscriber, emitter_uuid, t) {
        SocketAction::CreateSubscription(
            CreateSubscriptionParams { emitter_uuid, subscriber_uuid: subscriber, subscription_type: t },
        )
    } else {
        SocketAction::SubscriptionForbidden
    }
}

/// The client message read from a frame that is not one of the typed
/// messages, by its `event` field and its `uuid` and `token` text fields
/// (`None` where a field is absent or not text): `identity` with both
/// fields, `ping` and `whoami` are understood; anything else is not.
pub fn fallback_client_message(event: &str, uuid: Option<&str>, token: Option<&str>) -> (r: Option<ClientMessage>)
    ensures
        event@ == "identity"@ ==> match (uuid, token) {
            (Some(u), Some(t)) => r matches Some(ClientMessage::Identity { uuid: u2, token: t2 })
                && u2@ == u@ && t2@ == t@,
            _ => r is None,
        },
        event@ == "ping"@ ==> r matches Some(ClientMessage::Ping),
        event@ == "whoami"@ ==> r matches Some(ClientMessage::Whoami),
        event@ != "identity"@ && event@ != "ping"@ && event@ != "whoami"@ ==> r is None,
{
    proof {
        reveal_strlit("identity");
        reveal_strlit("ping");
        reveal_strlit("whoami");
        assert("identity"@[0] != "ping"@[0]);
        assert("identity"@[0] != "whoami"@[0]);
        assert("ping"@[0] != "whoami"@[0]);
    }
    if str_eq(event, "identity") {
        match (uuid, token) {
            (Some(u), Some(t)) => Some(ClientMessage::Identity { uuid: string_of(u), token: string_of(t) }),
            _ => None,
        }
    } else if str_eq(event, "ping") {
        Some(ClientMessage::Ping)
    } else if str_eq(event, "whoami") {
        Some(ClientMessage::Whoami)
    } else {
        None
    }
}

/// Whether `action` only answers the client, or authenticates the UUID that
/// the identity `msg` names.
pub open spec fn answers_or_authenticates(msg: ClientMessage, action: SocketAction) -> bool {
    match action {
        SocketAction::Ignore | SocketAction::Pong | SocketAction::NotReady(_) => true,
        SocketAction::Authenticate { uuid, .. } => match msg {
            ClientMessage::Identity { uuid: text, .. } => uuid_parse(text@) == Some(uuid),
            _ => false,
        },
        _ => false,
    }
}

/// Until a device has identified itself a session stays unidentified, and
/// all it does is answer, or authenticate an identity that names a UUID.
pub proof fn law_nothing_before_identity(msg: ClientMessage, max_message_size: usize)
    ensures
        socket_step(SocketPhase::AwaitingIdentity, msg, max_message_size).0 == SocketPhase::AwaitingIdentity,
        answers_or_authenticates(msg, socket_step(SocketPhase::AwaitingIdentity, msg, max_message_size).1),
{
}

/// Only a successful authentication connects a session, and to the device
/// that was authenticated.
pub proof fn law_only_authentication_connects(uuid: u128, authenticated: bool)
    ensures
        on_authentication_result(uuid, authenticated).0 == SocketPhase::Connected(uuid) <==> authenticated,
{
}

/// Once connected, a session stays connected to the same device whatever
/// the client sends; a second identity changes nothing.
pub proof fn law_identity_is_fixed(device: u128, msg: ClientMessage, max_message_size: usize)
    ensures
        socket_step(SocketPhase::Connected(device), msg, max_message_size).0 == SocketPhase::Connected(device),
        msg is Identity ==> socket_step(SocketPhase::Connected(device), msg, max_message_size).1 is Ignore,
{
}

/// Over its socket a device can unregister itself and no other device.
pub proof fn law_unregister_only_self(device: u128, msg: ClientMessage, max_message_size: usize)
    ensures
        socket_step(SocketPhase::Connected(device), msg, max_message_size).1 is UnregisterAndClose <==> msg
            == (ClientMessage::Unregister { uuid: device }),
{
}

/// A connected device's message is handed on for delivery exactly when its
/// payload and extra fields together fit the size limit, and an oversized
/// one is dropped without an answer.
pub proof fn law_oversized_messages_dropped(
    device: u128,
    params: SendMessageParams,
    payload_size: usize,
    extra_size: usize,
    max_message_size: usize,
)
    ensures
        ({
            let msg = ClientMessage::Message { params, payload_size, extra_size };
            let action = socket_step(SocketPhase::Connected(device), msg, max_message_size).1;
            &&& action is SendMessage <==> payload_size + extra_size <= max_message_size
            &&& action is DropOversized <==> payload_size + extra_size > max_message_size
        }),
{
}

/// On a connected session an unsubscribe keeps the type it names: a
/// request naming type `t` (by its dotted name) deletes only the
/// subscriptions of that type to the emitter; one naming no type, or a text
/// that names none, deletes those of every type. The session and the
/// emitter are kept.
pub proof fn law_unsubscribe_keeps_the_type(
    device: u128,
    emitter: u128,
    name: String,
    t: SubscriptionType,
    max_message_size: usize,
)
    ensures
        name@ == subscription_name(t) ==> socket_step(
            SocketPhase::Connected(device),
            ClientMessage::Unsubscribe { emitter_uuid: emitter, subscription_type: Some(name) },
            max_message_size,
        ) == (
            SocketPhase::Connected(device),
            SocketAction::Unsubscribe { emitter_uuid: emitter, subscription_type: Some(t) },
        ),
        (forall|u: SubscriptionType| name@ != subscription_name(u)) ==> socket_step(
            SocketPhase::Connected(device),
            ClientMessage::Unsubscribe { emitter_uuid: emitter, subscription_type: Some(name) },
            max_message_size,
        ) == (
            SocketPhase::Connected(device),
            SocketAction::Unsubscribe { emitter_uuid: emitter, subscription_type: None },
        ),
        socket_step(
            SocketPhase::Connected(device),
            ClientMessage::Unsubscribe { emitter_uuid: emitter, subscription_type: None },
            max_message_size,
        ) == (
            SocketPhase::Connected(device),
            SocketAction::Unsubscribe { emitter_uuid: emitter, subscription_type: None },
        ),
{
    law_type_name_roundtrip(t);
    if forall|u: SubscriptionType| name@ != subscription_name(u) {
        if parse_subscription_name(name@) is Some {
            let u = parse_subscription_name(name@)->0;
            law_only_type_names_parse(name@, u);
        }
    }
}

} // verus!
