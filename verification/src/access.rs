//! The access decisions of the API: who may read, change, message or
//! subscribe to which device, and what a refused request is answered with.
//!
//! The handlers look the devices up and pass their whitelists in (`None` for
//! a device that does not exist); these functions decide.
use vstd::prelude::*;

use crate::codec::{basic_credentials, parse_basic_auth};
use crate::device::Device;
use crate::error::FreshBluError;
use crate::message::targets_broadcast;
use crate::permissions::{is_act_as, list_allows, permitted, whitelist_for, Operation, PermissionChecker, Whitelists};
use crate::subscription::{can_subscribe, subscribe_operation, CreateSubscriptionParams, SubscriptionType};
use crate::text::{str_eq, string_of};
use crate::uuid_text::{parse_uuid, uuid_parse};

verus! {

/// Whether `actor` may perform `op` on device `device` whose whitelists are `w`.
pub fn check_operation(w: &Whitelists, op: Operation, actor: u128, device: u128) -> (b: bool)
    ensures
        b == permitted(*w, op, actor, device),
{
    let checker = PermissionChecker::new(w, &actor, &device);
    match op {
        Operation::DiscoverView => checker.can_discover_view(),
        Operation::DiscoverAs => checker.can_discover_as(),
        Operation::ConfigureUpdate => checker.can_configure_update(),
        Operation::ConfigureSent => checker.can_configure_sent(),
        Operation::ConfigureReceived => checker.can_configure_received(),
        Operation::ConfigureAs => checker.can_configure_as(),
        Operation::MessageFrom => checker.can_message_from(),
        Operation::MessageSent => checker.can_message_sent(),
        Operation::MessageReceived => checker.can_message_received(),
        Operation::MessageAs => checker.can_message_as(),
        Operation::BroadcastSent => checker.can_broadcast_sent(),
        Operation::BroadcastReceived => checker.can_broadcast_received(),
        Operation::BroadcastAs => checker.can_broadcast_as(),
    }
}

/// The device a request acts for: the one named by `x-meshblu-as`, else the
/// authenticated one.
pub open spec fn acting_device(actor: u128, as_uuid: Option<u128>) -> u128 {
    match as_uuid {
        Some(u) => u,
        None => actor,
    }
}

/// The device a request acts for.
pub fn effective_actor(actor: u128, as_uuid: Option<u128>) -> (r: u128)
    ensures
        r == acting_device(actor, as_uuid),
{
    match as_uuid {
        Some(u) => u,
        None => actor,
    }
}

/// The outcome of acting as device `as_uuid` (whose whitelists are `as_device`,
/// `None` when it does not exist) for an operation of kind `op`.
pub open spec fn act_as_outcome(as_device: Option<Whitelists>, actor: u128, as_uuid: u128, op: Operation) -> Result<(), FreshBluError> {
    match as_device {
        None => Err(FreshBluError::NotFound),
        Some(w) => if permitted(w, op, actor, as_uuid) {
            Ok(())
        } else {
            Err(FreshBluError::Forbidden)
        },
    }
}

/// Checks the `x-meshblu-as` header: the device acted as must exist
/// (`NotFound`), and its `as` whitelist for the operation must admit the
/// authenticated actor (`Forbidden`).
pub fn authorize_act_as(as_device: Option<&Whitelists>, actor: u128, as_uuid: u128, op: Operation) -> (r: Result<(), FreshBluError>)
    requires
        is_act_as(op),
    ensures
        r == act_as_outcome(
            match as_device {
                Some(w) => Some(*w),
                None => None,
            },
            actor,
            as_uuid,
            op,
        ),
{
    match as_device {
        None => Err(FreshBluError::NotFound),
        Some(w) => if check_operation(w, op, actor, as_uuid) {
            Ok(())
        } else {
            Err(FreshBluError::Forbidden)
        },
    }
}

/// The outcome of reading device `uuid` (whose whitelists are `device`):
/// a device the reader may not discover is answered as if it did not exist.
pub open spec fn read_outcome(device: Option<Whitelists>, reader: u128, uuid: u128) -> Result<(), FreshBluError> {
    match device {
        None => Err(FreshBluError::NotFound),
        Some(w) => if permitted(w, Operation::DiscoverView, reader, uuid) {
            Ok(())
        } else {
            Err(FreshBluError::NotFound)
        },
    }
}

/// Whether `reader` may read device `uuid` (GET /devices/:uuid).
pub fn authorize_read(device: Option<&Whitelists>, reader: u128, uuid: u128) -> (r: Result<(), FreshBluError>)
    ensures
        r == read_outcome(
            match device {
                Some(w) => Some(*w),
                None => None,
            },
            reader,
            uuid,
        ),
{
    match device {
        None => Err(FreshBluError::NotFound),
        Some(w) => if check_operation(w, Operation::DiscoverView, reader, uuid) {
            Ok(())
        } else {
            Err(FreshBluError::NotFound)
        },
    }
}

/// The outcome of changing device `uuid` (update, unregister, token
/// management): it must exist, and its `configure.update` whitelist must
/// admit the actor.
pub open spec fn configure_outcome(device: Option<Whitelists>, actor: u128, uuid: u128) -> Result<(), FreshBluError> {
    match device {
        None => Err(FreshBluError::NotFound),
        Some(w) => if permitted(w, Operation::ConfigureUpdate, actor, uuid) {
            Ok(())
        } else {
            Err(FreshBluError::Forbidden)
        },
    }
}

/// Whether `actor` may change device `uuid`.
pub fn authorize_configure(device: Option<&Whitelists>, actor: u128, uuid: u128) -> (r: Result<(), FreshBluError>)
    ensures
        r == configure_outcome(
            match device {
                Some(w) => Some(*w),
                None => None,
            },
            actor,
            uuid,
        ),
{
    match device {
        None => Err(FreshBluError::NotFound),
        Some(w) => if check_operation(w, Operation::ConfigureUpdate, actor, uuid) {
            Ok(())
        } else {
            Err(FreshBluError::Forbidden)
        },
    }
}

/// The outcome of managing the subscriptions of `subscriber`: a device
/// manages its own; anyone else needs to be able to change it.
pub open spec fn manage_subscriptions_outcome(actor: u128, subscriber: u128, subscriber_device: Option<Whitelists>) -> Result<(), FreshBluError> {
    if actor == subscriber {
        Ok(())
    } else {
        configure_outcome(subscriber_device, actor, subscriber)
    }
}

/// Whether `actor` may list, create or delete subscriptions of `subscriber`.
pub fn authorize_manage_subscriptions(actor: u128, subscriber: u128, subscriber_device: Option<&Whitelists>) -> (r: Result<(), FreshBluError>)
    ensures
        r == manage_subscriptions_outcome(
            actor,
            subscriber,
            match subscriber_device {
                Some(w) => Some(*w),
                None => None,
            },
        ),
{
    if actor == subscriber {
        Ok(())
    } else {
        authorize_configure(subscriber_device, actor, subscriber)
    }
}

/// The outcome of `actor` subscribing `subscriber` to events of type `t` of
/// `emitter`: the actor must manage the subscriber's subscriptions, the
/// emitter must exist, and the emitter's whitelist for the type must admit
/// the subscriber.
pub open spec fn create_subscription_outcome(
    actor: u128,
    subscriber: u128,
    subscriber_device: Option<Whitelists>,
    emitter: u128,
    emitter_device: Option<Whitelists>,
    t: SubscriptionType,
) -> Result<(), FreshBluError> {
    match manage_subscriptions_outcome(actor, subscriber, subscriber_device) {
        Err(e) => Err(e),
        Ok(()) => match emitter_device {
            None => Err(FreshBluError::NotFound),
            Some(w) => if permitted(w, subscribe_operation(t), subscriber, emitter) {
                Ok(())
            } else {
                Err(FreshBluError::Forbidden)
            },
        },
    }
}

/// Whether `actor` may subscribe `subscriber` to events of type `t` of `emitter`.
pub fn authorize_create_subscription(
    actor: u128,
    subscriber: u128,
    subscriber_device: Option<&Whitelists>,
    emitter: u128,
    emitter_device: Option<&Whitelists>,
    t: SubscriptionType,
) -> (r: Result<(), FreshBluError>)
    ensures
        r == create_subscription_outcome(
            actor,
            subscriber,
            match subscriber_device {
                Some(w) => Some(*w),
                None => None,
            },
            emitter,
            match emitter_device {
                Some(w) => Some(*w),
                None => None,
            },
            t,
        ),
{
    match authorize_manage_subscriptions(actor, subscriber, subscriber_device) {
        Err(e) => Err(e),
        Ok(()) => match emitter_device {
            None => Err(FreshBluError::NotFound),
            Some(w) => {
                let checker = PermissionChecker::new(w, &subscriber, &emitter);
                if can_subscribe(&checker, t) {
                    Ok(())
                } else {
                    Err(FreshBluError::Forbidden)
                }
            },
        },
    }
}

/// The subscription a request of `actor` to subscribe `subscriber` (the
/// device of the request path) to events of type `t` of `emitter` stores:
/// where the request is permitted, exactly the subscription of that
/// subscriber to that emitter for that type, whatever else the request body
/// names; otherwise the refusal, and nothing to store.
pub fn subscription_to_create(
    actor: u128,
    subscriber: u128,
    subscriber_device: Option<&Whitelists>,
    emitter: u128,
    emitter_device: Option<&Whitelists>,
    t: SubscriptionType,
) -> (r: Result<CreateSubscriptionParams, FreshBluError>)
    ensures
        ({
            let outcome = create_subscription_outcome(
                actor,
                subscriber,
                match subscriber_device {
                    Some(w) => Some(*w),
                    None => None,
                },
                emitter,
                match emitter_device {
                    Some(w) => Some(*w),
                    None => None,
                },
                t,
            );
            &&& r is Ok <==> outcome is Ok
            &&& r matches Ok(p) ==> p == (CreateSubscriptionParams {
                emitter_uuid: emitter,
                subscriber_uuid: subscriber,
                subscription_type: t,
            })
            &&& r matches Err(e) ==> outcome == Err::<(), FreshBluError>(e)
        }),
{
    match authorize_create_subscription(actor, subscriber, subscriber_device, emitter, emitter_device, t) {
        Ok(()) => Ok(CreateSubscriptionParams { emitter_uuid: emitter, subscriber_uuid: subscriber, subscription_type: t }),
        Err(e) => Err(e),
    }
}

/// Whether a subscriber may follow events of type `t` of an emitter, over a
/// live connection: the emitter must exist and admit it.
pub fn may_subscribe(emitter_device: Option<&Whitelists>, subscriber: u128, emitter: u128, t: SubscriptionType) -> (b: bool)
    ensures
        b == match emitter_device {
            Some(w) => permitted(*w, subscribe_operation(t), subscriber, emitter),
            None => false,
        },
{
    match emitter_device {
        Some(w) => {
            let checker = PermissionChecker::new(w, &subscriber, &emitter);
            can_subscribe(&checker, t)
        },
        None => false,
    }
}

/// The outcome of sending a message as device `as_uuid`: it must exist, admit
/// the actor to message as it, and, for a broadcast, to broadcast as it.
pub open spec fn send_as_outcome(as_device: Option<Whitelists>, actor: u128, as_uuid: u128, devices: Seq<String>) -> Result<(), FreshBluError> {
    match as_device {
        None => Err(FreshBluError::NotFound),
        Some(w) => if !permitted(w, Operation::MessageAs, actor, as_uuid) {
            Err(FreshBluError::Forbidden)
        } else if targets_broadcast(devices) && !permitted(w, Operation::BroadcastAs, actor, as_uuid) {
            Err(FreshBluError::Forbidden)
        } else {
            Ok(())
        },
    }
}

/// Whether `actor` may send a message to `devices` as device `as_uuid`.
pub fn authorize_send_as(as_device: Option<&Whitelists>, actor: u128, as_uuid: u128, devices: &Vec<String>) -> (r: Result<(), FreshBluError>)
    ensures
        r == send_as_outcome(
            match as_device {
                Some(w) => Some(*w),
                None => None,
            },
            actor,
            as_uuid,
            devices@,
        ),
{
    match as_device {
        None => Err(FreshBluError::NotFound),
        Some(w) => {
            let checker = PermissionChecker::new(w, &actor, &as_uuid);
            if !checker.can_message_as() {
                return Err(FreshBluError::Forbidden);
            }
            if crate::message::has_broadcast_target(devices) && !checker.can_broadcast_as() {
                return Err(FreshBluError::Forbidden);
            }
            Ok(())
        },
    }
}

/// Whether a message of `payload_size` bytes of payload and `extra_size`
/// bytes of extra fields is within `max` bytes.
pub fn check_message_size(payload_size: usize, extra_size: usize, max: usize) -> (r: Result<(), FreshBluError>)
    ensures
        r is Ok <==> payload_size + extra_size <= max,
        r matches Err(e) ==> e is MessageTooLarge,
{
    if payload_size > max || extra_size > max - payload_size {
        Err(FreshBluError::MessageTooLarge)
    } else {
        Ok(())
    }
}

/// The devices named by a message's targets, in order: `*` and targets that
/// are not UUIDs are skipped.
pub open spec fn direct_target_uuids(devices: Seq<String>) -> Seq<u128>
    decreases devices.len(),
{
    if devices.len() == 0 {
        Seq::empty()
    } else {
        let earlier = direct_target_uuids(devices.drop_last());
        let d = devices.last()@;
        if d == "*"@ {
            earlier
        } else {
            match uuid_parse(d) {
                Some(u) => earlier.push(u),
                None => earlier,
            }
        }
    }
}

/// The devices a message is sent to directly.
pub fn direct_targets(devices: &Vec<String>) -> (r: Vec<u128>)
    ensures
        r@ == direct_target_uuids(devices@),
{
    let mut r: Vec<u128> = Vec::new();
    let mut i: usize = 0;
    while i < devices.len()
        invariant
            i <= devices@.len(),
            r@ == direct_target_uuids(devices@.take(i as int)),
        decreases devices@.len() - i,
    {
        proof {
            assert(devices@.take(i + 1).drop_last() =~= devices@.take(i as int));
        }
        let d = devices[i].as_str();
        if !str_eq(d, "*") {
            if let Some(u) = parse_uuid(d) {
                r.push(u);
            }
        }
        i = i + 1;
    }
    proof {
        assert(devices@.take(devices@.len() as int) =~= devices@);
    }
    r
}

/// Whether a message from `sender` is delivered to the existing device
/// `target` (whose whitelists are `target_device`); one that does not exist
/// receives nothing.
pub fn may_message(target_device: Option<&Whitelists>, sender: u128, target: u128) -> (b: bool)
    ensures
        b == match target_device {
            Some(w) => permitted(*w, Operation::MessageFrom, sender, target),
            None => false,
        },
{
    match target_device {
        Some(w) => PermissionChecker::new(w, &sender, &target).can_message_from(),
        None => false,
    }
}

/// The positions, in order, of the devices among `devices` that `reader` may
/// discover.
pub open spec fn visible_positions(devices: Seq<Device>, reader: u128) -> Seq<int>
    decreases devices.len(),
{
    if devices.len() == 0 {
        Seq::empty()
    } else {
        let earlier = visible_positions(devices.drop_last(), reader);
        let d = devices.last();
        if permitted(d.meshblu.whitelists, Operation::DiscoverView, reader, d.uuid) {
            earlier.push(devices.len() - 1)
        } else {
            earlier
        }
    }
}

/// The search results `reader` may see: the positions of the devices it may
/// discover.
pub fn visible_devices(devices: &Vec<Device>, reader: u128) -> (r: Vec<usize>)
    ensures
        r@.map_values(|i: usize| i as int) == visible_positions(devices@, reader),
{
    let mut r: Vec<usize> = Vec::new();
    let mut i: usize = 0;
    while i < devices.len()
        invariant
            i <= devices@.len(),
            r@.map_values(|i: usize| i as int) == visible_positions(devices@.take(i as int), reader),
        decreases devices@.len() - i,
    {
        proof {
            assert(devices@.take(i + 1).drop_last() =~= devices@.take(i as int));
        }
        let d = &devices[i];
        if check_operation(&d.meshblu.whitelists, Operation::DiscoverView, reader, d.uuid) {
            r.push(i);
        }
        assert(r@.map_values(|i: usize| i as int) =~= visible_positions(devices@.take(i + 1), reader));
        i = i + 1;
    }
    proof {
        assert(devices@.take(devices@.len() as int) =~= devices@);
    }
    r
}

/// The credentials a request carries: HTTP Basic first, else the legacy
/// `skynet_auth_uuid` / `skynet_auth_token` pair.
pub open spec fn request_credentials(authorization: Option<Seq<char>>, legacy: Option<(Seq<char>, Seq<char>)>) -> Option<(Seq<char>, Seq<char>)> {
    let basic = match authorization {
        Some(h) => basic_credentials(h),
        None => None,
    };
    match basic {
        Some(c) => Some(c),
        None => legacy,
    }
}

/// Reads the credentials of a request from its `authorization` header, or
/// else from its legacy header pair.
pub fn credentials_from_headers(authorization: Option<&str>, legacy_uuid: Option<&str>, legacy_token: Option<&str>) -> (r: Option<(String, String)>)
    ensures
        match r {
            Some((u, t)) => request_credentials(
                match authorization {
                    Some(h) => Some(h@),
                    None => None,
                },
                match (legacy_uuid, legacy_token) {
                    (Some(u), Some(t)) => Some((u@, t@)),
                    _ => None,
                },
            ) == Some((u@, t@)),
            None => request_credentials(
                match authorization {
                    Some(h) => Some(h@),
                    None => None,
                },
                match (legacy_uuid, legacy_token) {
                    (Some(u), Some(t)) => Some((u@, t@)),
                    _ => None,
                },
            ) is None,
        },
{
    let basic = match authorization {
        Some(h) => parse_basic_auth(h),
        None => None,
    };
    match basic {
        Some(c) => Some(c),
        None => match (legacy_uuid, legacy_token) {
            (Some(u), Some(t)) => Some((string_of(u), string_of(t))),
            _ => None,
        },
    }
}

/// The device UUID of presented credentials; one that is not a UUID is
/// unauthorized.
pub fn credential_uuid(uuid: &str) -> (r: Result<u128, FreshBluError>)
    ensures
        match r {
            Ok(u) => uuid_parse(uuid@) == Some(u),
            Err(e) => uuid_parse(uuid@) is None && e is Unauthorized,
        },
{
    match parse_uuid(uuid) {
        Some(u) => Ok(u),
        None => Err(FreshBluError::Unauthorized),
    }
}

/// The device named by an `x-meshblu-as` header; a header that is not a
/// UUID is ignored.
pub fn act_as_header(value: Option<&str>) -> (r: Option<u128>)
    ensures
        r == match value {
            Some(v) => uuid_parse(v@),
            None => None,
        },
{
    match value {
        Some(v) => parse_uuid(v),
        None => None,
    }
}

/// The device UUID given to `POST /authenticate`; one that is not a UUID is
/// a validation error.
pub fn authentication_uuid(uuid: &str) -> (r: Result<u128, FreshBluError>)
    ensures
        match r {
            Ok(u) => uuid_parse(uuid@) == Some(u),
            Err(e) => uuid_parse(uuid@) is None && e is Validation && e->Validation_0@
                == "invalid uuid"@,
        },
{
    match parse_uuid(uuid) {
        Some(u) => Ok(u),
        None => Err(FreshBluError::Validation(string_of("invalid uuid"))),
    }
}

/// Whether registering a device is allowed: always with open registration,
/// else only for requests carrying readable Basic credentials or both legacy
/// headers.
pub fn registration_permitted(open_registration: bool, authorization: Option<&str>, has_legacy_auth: bool) -> (r: Result<(), FreshBluError>)
    ensures
        r is Ok <==> (open_registration || (match authorization {
            Some(h) => basic_credentials(h@) is Some,
            None => false,
        }) || has_legacy_auth),
        r matches Err(e) ==> e is Forbidden,
{
    if open_registration {
        return Ok(());
    }
    let has_auth = match authorization {
        Some(h) => parse_basic_auth(h).is_some(),
        None => false,
    };
    if !has_auth && !has_legacy_auth {
        return Err(FreshBluError::Forbidden);
    }
    Ok(())
}

/// A connected device may unregister only itself over its connection.
pub fn may_unregister_over_connection(connected: u128, uuid: u128) -> (b: bool)
    ensures
        b == (connected == uuid),
{
    connected == uuid
}

/// A device may always read, change and manage the subscriptions of itself.
pub proof fn law_device_controls_itself(w: Whitelists, device: u128)
    ensures
        read_outcome(Some(w), device, device) == Ok::<(), FreshBluError>(()),
        configure_outcome(Some(w), device, device) == Ok::<(), FreshBluError>(()),
        manage_subscriptions_outcome(device, device, None) == Ok::<(), FreshBluError>(()),
{
}

/// A device that may not be discovered is answered exactly as a device that
/// does not exist: reading it gives `NotFound` either way.
pub proof fn law_hidden_devices_look_absent(w: Whitelists, reader: u128, uuid: u128)
    requires
        !permitted(w, Operation::DiscoverView, reader, uuid),
    ensures
        read_outcome(Some(w), reader, uuid) == read_outcome(None, reader, uuid),
{
}

/// Every refusal of a change to an existing device is `Forbidden`, and a
/// missing device is `NotFound`: never anything else.
pub proof fn law_configure_refusals(device: Option<Whitelists>, actor: u128, uuid: u128)
    ensures
        configure_outcome(device, actor, uuid) matches Err(e) ==> (e is NotFound <==> device is None)
            && (e is Forbidden <==> device is Some),
{
}

/// Acting as another device needs that device to exist and its `as`
/// whitelist for the operation to admit the actor; a device may always act
/// as itself.
pub proof fn law_acting_as_needs_permission(as_device: Option<Whitelists>, actor: u128, as_uuid: u128, op: Operation)
    requires
        is_act_as(op),
    ensures
        act_as_outcome(as_device, actor, as_uuid, op) is Ok <==> (as_device is Some && (actor == as_uuid
            || list_allows(whitelist_for(as_device->0, op), actor))),
        as_device is None ==> act_as_outcome(as_device, actor, as_uuid, op) == Err::<(), FreshBluError>(
            FreshBluError::NotFound,
        ),
{
}

} // verus!
