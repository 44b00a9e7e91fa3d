//! Subscriptions: who listens to which events of which device.
use vstd::prelude::*;

use crate::error::FreshBluError;
use crate::permissions::{whitelist_for, Operation, PermissionChecker, Whitelists};
use crate::text::{push_char, push_str, str_chars, str_eq, string_of};

verus! {

/// All subscription types in Meshblu v2.0.
#[derive(Debug, Clone, Copy, PartialEq, Eq, Hash, Structural)]
pub enum SubscriptionType {
    /// Receive broadcast messages sent from the emitter.
    BroadcastSent,
    /// Receive broadcast messages received by the emitter.
    BroadcastReceived,
    /// Receive config-update events sent from the emitter.
    ConfigureSent,
    /// Receive config-update events received by the emitter.
    ConfigureReceived,
    /// Receive direct messages sent from the emitter.
    MessageSent,
    /// Receive direct messages received by the emitter.
    MessageReceived,
    /// Receive unregister events sent from the emitter.
    UnregisterSent,
    /// Receive unregister events received by the emitter.
    UnregisterReceived,
}

/// The dotted name of a subscription type, such as `broadcast.sent`.
pub open spec fn subscription_name(t: SubscriptionType) -> Seq<char> {
    match t {
        SubscriptionType::BroadcastSent => "broadcast.sent"@,
        SubscriptionType::BroadcastReceived => "broadcast.received"@,
        SubscriptionType::ConfigureSent => "configure.sent"@,
        SubscriptionType::ConfigureReceived => "configure.received"@,
        SubscriptionType::MessageSent => "message.sent"@,
        SubscriptionType::MessageReceived => "message.received"@,
        SubscriptionType::UnregisterSent => "unregister.sent"@,
        SubscriptionType::UnregisterReceived => "unregister.received"@,
    }
}

/// The subscription type whose dotted name is `s`, if any.
pub open spec fn parse_subscription_name(s: Seq<char>) -> Option<SubscriptionType> {
    if s == "broadcast.sent"@ {
        Some(SubscriptionType::BroadcastSent)
    } else if s == "broadcast.received"@ {
        Some(SubscriptionType::BroadcastReceived)
    } else if s == "configure.sent"@ {
        Some(SubscriptionType::ConfigureSent)
    } else if s == "configure.received"@ {
        Some(SubscriptionType::ConfigureReceived)
    } else if s == "message.sent"@ {
        Some(SubscriptionType::MessageSent)
    } else if s == "message.received"@ {
        Some(SubscriptionType::MessageReceived)
    } else if s == "unregister.sent"@ {
        Some(SubscriptionType::UnregisterSent)
    } else if s == "unregister.received"@ {
        Some(SubscriptionType::UnregisterReceived)
    } else {
        None
    }
}

/// `s` with every `-` replaced by `.`.
pub open spec fn dashes_to_dots(s: Seq<char>) -> Seq<char> {
    s.map_values(|c: char| if c == '-' { '.' } else { c })
}

/// The text of the error for an unknown subscription type.
pub open spec fn unknown_type_message(s: Seq<char>) -> Seq<char> {
    "unknown subscription type: "@ + s
}

impl SubscriptionType {
    /// The dotted name of this type, such as `broadcast.sent`.
    pub fn to_string(&self) -> (r: String)
        ensures
            r@ == subscription_name(*self),
    {
        match self {
            SubscriptionType::BroadcastSent => string_of("broadcast.sent"),
            SubscriptionType::BroadcastReceived => string_of("broadcast.received"),
            SubscriptionType::ConfigureSent => string_of("configure.sent"),
            SubscriptionType::ConfigureReceived => string_of("configure.received"),
            SubscriptionType::MessageSent => string_of("message.sent"),
            SubscriptionType::MessageReceived => string_of("message.received"),
            SubscriptionType::UnregisterSent => string_of("unregister.sent"),
            SubscriptionType::UnregisterReceived => string_of("unregister.received"),
        }
    }

    /// Parses a dotted type name; any other text is refused with a message
    /// naming it.
    pub fn parse_name(s: &str) -> (r: Result<SubscriptionType, String>)
        ensures
            match r {
                Ok(t) => parse_subscription_name(s@) == Some(t),
                Err(m) => parse_subscription_name(s@) is None && m@ == unknown_type_message(s@),
            },
    {
        if str_eq(s, "broadcast.sent") {
            Ok(SubscriptionType::BroadcastSent)
        } else if str_eq(s, "broadcast.received") {
            Ok(SubscriptionType::BroadcastReceived)
        } else if str_eq(s, "configure.sent") {
            Ok(SubscriptionType::ConfigureSent)
        } else if str_eq(s, "configure.received") {
            Ok(SubscriptionType::ConfigureReceived)
        } else if str_eq(s, "message.sent") {
            Ok(SubscriptionType::MessageSent)
        } else if str_eq(s, "message.received") {
            Ok(SubscriptionType::MessageReceived)
        } else if str_eq(s, "unregister.sent") {
            Ok(SubscriptionType::UnregisterSent)
        } else if str_eq(s, "unregister.received") {
            Ok(SubscriptionType::UnregisterReceived)
        } else {
            let mut m = string_of("unknown subscription type: ");
            push_str(&mut m, s);
            Err(m)
        }
    }

    /// Parses the type segment of a subscription path, where `-` stands for
    /// `.` (`broadcast-sent`); an unknown type is a validation error.
    pub fn parse_path_segment(s: &str) -> (r: Result<SubscriptionType, FreshBluError>)
        ensures
            match r {
                Ok(t) => parse_subscription_name(dashes_to_dots(s@)) == Some(t),
                Err(e) => parse_subscription_name(dashes_to_dots(s@)) is None && e
                    == FreshBluError::Validation(e->Validation_0) && e->Validation_0@
                    == "invalid subscription type"@,
            },
    {
        let chars = str_chars(s);
        let mut dotted = String::new();
        let mut i: usize = 0;
        while i < chars.len()
            invariant
                chars@ == s@,
                i <= chars@.len(),
                dotted@ == dashes_to_dots(s@).subrange(0, i as int),
            decreases chars@.len() - i,
        {
            let c = chars[i];
            if c == '-' {
                push_char(&mut dotted, '.');
            } else {
                push_char(&mut dotted, c);
            }
            assert(dashes_to_dots(s@).subrange(0, i + 1) =~= dashes_to_dots(s@).subrange(
                0,
                i as int,
            ).push(dashes_to_dots(s@)[i as int]));
            i = i + 1;
        }
        assert(dashes_to_dots(s@).subrange(0, chars@.len() as int) =~= dashes_to_dots(s@));
        match SubscriptionType::parse_name(dotted.as_str()) {
            Ok(t) => Ok(t),
            Err(_) => Err(FreshBluError::Validation(string_of("invalid subscription type"))),
        }
    }
}

/// The subscription type an optional type name names; a name that is not a
/// type counts as none.
pub fn optional_subscription_type(name: Option<&str>) -> (r: Option<SubscriptionType>)
    ensures
        r == match name {
            Some(s) => parse_subscription_name(s@),
            None => None,
        },
{
    match name {
        Some(s) => match SubscriptionType::parse_name(s) {
            Ok(t) => Some(t),
            Err(_) => None,
        },
        None => None,
    }
}

impl std::str::FromStr for SubscriptionType {
    type Err = String;

    fn from_str(s: &str) -> (r: Result<SubscriptionType, String>)
        ensures
            match r {
                Ok(t) => parse_subscription_name(s@) == Some(t),
                Err(m) => parse_subscription_name(s@) is None && m@ == unknown_type_message(s@),
            },
    {
        SubscriptionType::parse_name(s)
    }
}

/// Parsing the name of a type gives that type back.
pub proof fn law_type_name_roundtrip(t: SubscriptionType)
    ensures
        parse_subscription_name(subscription_name(t)) == Some(t),
{
    reveal_strlit("broadcast.sent");
    reveal_strlit("broadcast.received");
    reveal_strlit("configure.sent");
    reveal_strlit("configure.received");
    reveal_strlit("message.sent");
    reveal_strlit("message.received");
    reveal_strlit("unregister.sent");
    reveal_strlit("unregister.received");
    let b_s = "broadcast.sent"@;
    let b_r = "broadcast.received"@;
    let c_s = "configure.sent"@;
    let c_r = "configure.received"@;
    let m_s = "message.sent"@;
    let m_r = "message.received"@;
    let u_s = "unregister.sent"@;
    let u_r = "unregister.received"@;
    assert(b_s[0] != c_s[0] && b_s[0] != m_s[0] && b_s[0] != u_s[0]);
    assert(c_s[0] != m_s[0] && c_s[0] != u_s[0] && m_s[0] != u_s[0]);
    assert(b_s.len() != b_r.len() && c_s.len() != c_r.len());
    assert(m_s.len() != m_r.len() && u_s.len() != u_r.len());
    assert(b_r[0] != c_s[0] && b_r[0] != c_r[0] && b_r[0] != m_s[0] && b_r[0] != m_r[0]);
    assert(b_r[0] != u_s[0] && b_r[0] != u_r[0] && b_s[0] != c_r[0] && b_s[0] != m_r[0]);
    assert(b_s[0] != u_r[0] && c_s[0] != m_r[0] && c_s[0] != u_r[0] && c_r[0] != m_s[0]);
    assert(c_r[0] != m_r[0] && c_r[0] != u_s[0] && c_r[0] != u_r[0] && m_s[0] != u_r[0]);
    assert(m_r[0] != u_s[0] && m_r[0] != u_r[0]);
}

/// Only the eight names parse, each to the type it names.
pub proof fn law_only_type_names_parse(s: Seq<char>, t: SubscriptionType)
    requires
        parse_subscription_name(s) == Some(t),
    ensures
        s == subscription_name(t),
{
}

/// Distinct types have distinct names.
pub proof fn law_type_names_distinct(t1: SubscriptionType, t2: SubscriptionType)
    requires
        subscription_name(t1) == subscription_name(t2),
    ensures
        t1 == t2,
{
    law_type_name_roundtrip(t1);
    law_type_name_roundtrip(t2);
}

/// A subscription record: the subscriber listens to events emitted by or for
/// the emitter.
#[derive(Debug, Clone, Copy, PartialEq, Eq, Structural)]
pub struct Subscription {
    /// The device whose events are wanted.
    pub emitter_uuid: u128,
    /// The device that wants to receive those events.
    pub subscriber_uuid: u128,
    /// The type of event.
    pub subscription_type: SubscriptionType,
}

/// Parameters of a subscription to create.
#[derive(Debug, Clone, Copy, PartialEq, Eq, Structural)]
pub struct CreateSubscriptionParams {
    pub emitter_uuid: u128,
    pub subscriber_uuid: u128,
    pub subscription_type: SubscriptionType,
}

/// Parameters of subscriptions to delete; an absent emitter or type matches any.
#[derive(Debug, Clone, Copy, PartialEq, Eq, Structural)]
pub struct DeleteSubscriptionParams {
    pub emitter_uuid: Option<u128>,
    pub subscriber_uuid: u128,
    pub subscription_type: Option<SubscriptionType>,
}

/// One hop of the path of a message through subscription chains.
#[derive(Debug, Clone, Copy, PartialEq, Eq, Structural)]
pub struct RouteHop {
    pub from: u128,
    pub to: u128,
    pub hop_type: SubscriptionType,
}

/// The whitelist operation that governs subscribing to events of a type:
/// unregister events may be followed by whoever can discover the emitter.
pub open spec fn subscribe_operation(t: SubscriptionType) -> Operation {
    match t {
        SubscriptionType::BroadcastSent => Operation::BroadcastSent,
        SubscriptionType::BroadcastReceived => Operation::BroadcastReceived,
        SubscriptionType::MessageSent => Operation::MessageSent,
        SubscriptionType::MessageReceived => Operation::MessageReceived,
        SubscriptionType::ConfigureSent => Operation::ConfigureSent,
        SubscriptionType::ConfigureReceived => Operation::ConfigureReceived,
        SubscriptionType::UnregisterSent => Operation::DiscoverView,
        SubscriptionType::UnregisterReceived => Operation::DiscoverView,
    }
}

/// Whether the checker's actor (the subscriber) may subscribe to events of
/// type `t` of the checker's device (the emitter).
pub fn can_subscribe(checker: &PermissionChecker, t: SubscriptionType) -> (b: bool)
    ensures
        b == checker.allows(subscribe_operation(t)),
{
    match t {
        SubscriptionType::BroadcastSent => checker.can_broadcast_sent(),
        SubscriptionType::BroadcastReceived => checker.can_broadcast_received(),
        SubscriptionType::MessageSent => checker.can_message_sent(),
        SubscriptionType::MessageReceived => checker.can_message_received(),
        SubscriptionType::ConfigureSent => checker.can_configure_sent(),
        SubscriptionType::ConfigureReceived => checker.can_configure_received(),
        SubscriptionType::UnregisterSent | SubscriptionType::UnregisterReceived => {
            checker.can_discover_view()
        },
    }
}

/// Each subscription type is governed by the whitelist of the same name:
/// following a device's broadcasts, messages or configuration changes (sent
/// or received) needs its list of that name to admit the subscriber, and
/// following its unregistration needs its `discover.view` list.
pub proof fn law_subscriptions_use_their_namesake_whitelist(w: Whitelists)
    ensures
        whitelist_for(w, subscribe_operation(SubscriptionType::BroadcastSent)) == w.broadcast.sent@,
        whitelist_for(w, subscribe_operation(SubscriptionType::BroadcastReceived)) == w.broadcast.received@,
        whitelist_for(w, subscribe_operation(SubscriptionType::MessageSent)) == w.message.sent@,
        whitelist_for(w, subscribe_operation(SubscriptionType::MessageReceived)) == w.message.received@,
        whitelist_for(w, subscribe_operation(SubscriptionType::ConfigureSent)) == w.configure.sent@,
        whitelist_for(w, subscribe_operation(SubscriptionType::ConfigureReceived)) == w.configure.received@,
        whitelist_for(w, subscribe_operation(SubscriptionType::UnregisterSent)) == w.discover.view@,
        whitelist_for(w, subscribe_operation(SubscriptionType::UnregisterReceived)) == w.discover.view@,
{
}

} // verus!
