//! Who receives a message: the publications that sending one makes, once
//! its direct targets have been looked up.
//!
//! A message goes to each direct target that exists and whose `message.from`
//! whitelist admits the sender; a message that names `*` also goes, as a
//! broadcast, to the sender's `broadcast.sent` subscribers. Over HTTP each
//! delivery is also handed on to the subscribers that follow it
//! (`message.received` of the target, `message.sent` of the sender,
//! `broadcast.received` of each broadcast recipient).
use vstd::prelude::*;

use crate::access::may_message;
use crate::permissions::{permitted, Operation, Whitelists};
use crate::subscription::SubscriptionType;

verus! {

/// The devices that receive one publication.
#[derive(Debug, Clone, Copy, PartialEq, Eq, Structural)]
pub enum Audience {
    /// This device.
    Device(u128),
    /// The subscribers of the emitter for the type.
    Subscribers(u128, SubscriptionType),
    /// For each subscriber of the emitter for the first type, its own
    /// subscribers for the second type.
    SubscribersOfSubscribers(u128, SubscriptionType, SubscriptionType),
}

/// One publication of a message: to whom, and whether as a broadcast (else
/// as a direct message).
#[derive(Debug, Clone, Copy, PartialEq, Eq, Structural)]
pub struct Publication {
    pub audience: Audience,
    pub broadcast: bool,
}

/// Whether the looked-up target `target` (`None` where it does not exist)
/// accepts messages from `sender`.
pub open spec fn accepts(target_device: Option<Whitelists>, sender: u128, target: u128) -> bool {
    match target_device {
        Some(w) => permitted(w, Operation::MessageFrom, sender, target),
        None => false,
    }
}

/// The publications of a direct message to one accepting target.
pub open spec fn direct_publications(sender: u128, target: u128, with_fanout: bool) -> Seq<Publication> {
    let own = seq![Publication { audience: Audience::Device(target), broadcast: false }];
    if with_fanout {
        own + seq![
            Publication {
                audience: Audience::Subscribers(target, SubscriptionType::MessageReceived),
                broadcast: false,
            },
            Publication {
                audience: Audience::Subscribers(sender, SubscriptionType::MessageSent),
                broadcast: false,
            },
        ]
    } else {
        own
    }
}

/// The publications of the direct part of a message, target by target.
pub open spec fn targets_plan(
    sender: u128,
    targets: Seq<u128>,
    target_devices: Seq<Option<Whitelists>>,
    with_fanout: bool,
) -> Seq<Publication>
    decreases targets.len(),
{
    if targets.len() == 0 || target_devices.len() != targets.len() {
        Seq::empty()
    } else {
        let n = (targets.len() - 1) as int;
        let earlier = targets_plan(sender, targets.take(n), target_devices.take(n), with_fanout);
        if accepts(target_devices[n], sender, targets[n]) {
            earlier + direct_publications(sender, targets[n], with_fanout)
        } else {
            earlier
        }
    }
}

/// The publications of the broadcast part of a message.
pub open spec fn broadcast_publications(sender: u128, with_fanout: bool) -> Seq<Publication> {
    let own = seq![
        Publication { audience: Audience::Subscribers(sender, SubscriptionType::BroadcastSent), broadcast: true },
    ];
    if with_fanout {
        own + seq![
            Publication {
                audience: Audience::SubscribersOfSubscribers(
                    sender,
                    SubscriptionType::BroadcastSent,
                    SubscriptionType::BroadcastReceived,
                ),
                broadcast: true,
            },
        ]
    } else {
        own
    }
}

/// All publications of a message from `sender` to the direct `targets`
/// (looked up as `target_devices`), broadcast too when `broadcast`.
pub open spec fn delivery_plan(
    sender: u128,
    targets: Seq<u128>,
    target_devices: Seq<Option<Whitelists>>,
    broadcast: bool,
    with_fanout: bool,
) -> Seq<Publication> {
    targets_plan(sender, targets, target_devices, with_fanout) + if broadcast {
        broadcast_publications(sender, with_fanout)
    } else {
        Seq::empty()
    }
}

fn push_direct(plan: &mut Vec<Publication>, sender: u128, target: u128, with_fanout: bool)
    ensures
        final(plan)@ == old(plan)@ + direct_publications(sender, target, with_fanout),
{
    plan.push(Publication { audience: Audience::Device(target), broadcast: false });
    if with_fanout {
        plan.push(
            Publication { audience: Audience::Subscribers(target, SubscriptionType::MessageReceived), broadcast: false },
        );
        plan.push(
            Publication { audience: Audience::Subscribers(sender, SubscriptionType::MessageSent), broadcast: false },
        );
    }
    proof {
        let d = direct_publications(sender, target, with_fanout);
        assert(final(plan)@ =~= old(plan)@ + d) by {
            if with_fanout {
                assert(d.len() == 3);
            }
        }
    }
}

/// The publications a message makes: `targets` are its direct targets and
/// `target_devices` their whitelists, looked up in the same order (`None`
/// where a target does not exist); `broadcast` says whether it names `*`;
/// `with_fanout` whether the subscribers that follow deliveries get them
/// too (HTTP), or only the recipients (WebSocket, MQTT).
pub fn plan_delivery(
    sender: u128,
    targets: &Vec<u128>,
    target_devices: &Vec<Option<Whitelists>>,
    broadcast: bool,
    with_fanout: bool,
) -> (r: Vec<Publication>)
    requires
        target_devices@.len() == targets@.len(),
    ensures
        r@ == delivery_plan(sender, targets@, target_devices@, broadcast, with_fanout),
{
    let mut plan: Vec<Publication> = Vec::new();
    let mut i: usize = 0;
    while i < targets.len()
        invariant
            target_devices@.len() == targets@.len(),
            i <= targets@.len(),
            plan@ == targets_plan(sender, targets@.take(i as int), target_devices@.take(i as int), with_fanout),
        decreases targets@.len() - i,
    {
        proof {
            assert(targets@.take(i + 1).take(i as int) =~= targets@.take(i as int));
            assert(target_devices@.take(i + 1).take(i as int) =~= target_devices@.take(i as int));
        }
        let accepted = match &target_devices[i] {
            Some(w) => may_message(Some(w), sender, targets[i]),
            None => false,
        };
        if accepted {
            push_direct(&mut plan, sender, targets[i], with_fanout);
        }
        i = i + 1;
    }
    proof {
        assert(targets@.take(targets@.len() as int) =~= targets@);
        assert(target_devices@.take(targets@.len() as int) =~= target_devices@);
    }
    if broadcast {
        plan.push(
            Publication { audience: Audience::Subscribers(sender, SubscriptionType::BroadcastSent), broadcast: true },
        );
        if with_fanout {
            plan.push(
                Publication {
                    audience: Audience::SubscribersOfSubscribers(
                        sender,
                        SubscriptionType::BroadcastSent,
                        SubscriptionType::BroadcastReceived,
                    ),
                    broadcast: true,
                },
            );
        }
    }
    proof {
        let b = if broadcast {
            broadcast_publications(sender, with_fanout)
        } else {
            Seq::empty()
        };
        assert(plan@ =~= targets_plan(sender, targets@, target_devices@, with_fanout) + b);
    }
    plan
}

proof fn lemma_targets_plan_sound(
    sender: u128,
    targets: Seq<u128>,
    target_devices: Seq<Option<Whitelists>>,
    with_fanout: bool,
    k: int,
)
    requires
        target_devices.len() == targets.len(),
        0 <= k < targets_plan(sender, targets, target_devices, with_fanout).len(),
    ensures
        !targets_plan(sender, targets, target_devices, with_fanout)[k].broadcast,
        targets_plan(sender, targets, target_devices, with_fanout)[k].audience matches Audience::Device(t)
            ==> exists|i: int| 0 <= i < targets.len() && targets[i] == t && accepts(target_devices[i], sender, t),
    decreases targets.len(),
{
    let n = (targets.len() - 1) as int;
    let tt = targets.take(n);
    let dd = target_devices.take(n);
    let earlier = targets_plan(sender, tt, dd, with_fanout);
    if k < earlier.len() {
        lemma_targets_plan_sound(sender, tt, dd, with_fanout, k);
        let p = targets_plan(sender, targets, target_devices, with_fanout)[k];
        assert(p == earlier[k]);
        if let Audience::Device(t) = p.audience {
            let i = choose|i: int| 0 <= i < tt.len() && tt[i] == t && accepts(dd[i], sender, t);
            assert(targets[i] == t && target_devices[i] == dd[i]);
        }
    } else {
        let d = direct_publications(sender, targets[n], with_fanout);
        let p = targets_plan(sender, targets, target_devices, with_fanout)[k];
        assert(p == d[k - earlier.len()]);
        if let Audience::Device(t) = p.audience {
            assert(k - earlier.len() == 0);
            assert(t == targets[n]);
        }
    }
}

proof fn lemma_targets_plan_complete(
    sender: u128,
    targets: Seq<u128>,
    target_devices: Seq<Option<Whitelists>>,
    with_fanout: bool,
    i: int,
)
    requires
        target_devices.len() == targets.len(),
        0 <= i < targets.len(),
        accepts(target_devices[i], sender, targets[i]),
    ensures
        targets_plan(sender, targets, target_devices, with_fanout).contains(
            Publication { audience: Audience::Device(targets[i]), broadcast: false },
        ),
    decreases targets.len(),
{
    let n = (targets.len() - 1) as int;
    let tt = targets.take(n);
    let dd = target_devices.take(n);
    let earlier = targets_plan(sender, tt, dd, with_fanout);
    let whole = targets_plan(sender, targets, target_devices, with_fanout);
    let p = Publication { audience: Audience::Device(targets[i]), broadcast: false };
    if i < n {
        lemma_targets_plan_complete(sender, tt, dd, with_fanout, i);
        let k = choose|k: int| 0 <= k < earlier.len() && earlier[k] == p;
        assert(whole[k] == p);
    } else {
        let d = direct_publications(sender, targets[n], with_fanout);
        assert(whole[earlier.len() as int] == d[0]);
    }
}

/// A message reaches a device directly exactly when the device is one of its
/// targets, exists, and its `message.from` whitelist admits the sender; a
/// direct delivery is never a broadcast.
pub proof fn law_direct_delivery_needs_permission(
    sender: u128,
    targets: Seq<u128>,
    target_devices: Seq<Option<Whitelists>>,
    broadcast: bool,
    with_fanout: bool,
    t: u128,
)
    requires
        target_devices.len() == targets.len(),
    ensures
        delivery_plan(sender, targets, target_devices, broadcast, with_fanout).contains(
            Publication { audience: Audience::Device(t), broadcast: false },
        ) <==> exists|i: int| 0 <= i < targets.len() && targets[i] == t && accepts(target_devices[i], sender, t),
        !delivery_plan(sender, targets, target_devices, broadcast, with_fanout).contains(
            Publication { audience: Audience::Device(t), broadcast: true },
        ),
{
    let direct = targets_plan(sender, targets, target_devices, with_fanout);
    let b = if broadcast {
        broadcast_publications(sender, with_fanout)
    } else {
        Seq::empty()
    };
    let plan = delivery_plan(sender, targets, target_devices, broadcast, with_fanout);
    assert(plan == direct + b);
    let p = Publication { audience: Audience::Device(t), broadcast: false };
    if plan.contains(p) {
        let k = choose|k: int| 0 <= k < plan.len() && plan[k] == p;
        if k < direct.len() {
            assert(direct[k] == p);
            lemma_targets_plan_sound(sender, targets, target_devices, with_fanout, k);
        } else {
            assert(b[k - direct.len()] == p);
        }
    }
    if exists|i: int| 0 <= i < targets.len() && targets[i] == t && accepts(target_devices[i], sender, t) {
        let i = choose|i: int| 0 <= i < targets.len() && targets[i] == t && accepts(target_devices[i], sender, t);
        lemma_targets_plan_complete(sender, targets, target_devices, with_fanout, i);
        let k = choose|k: int| 0 <= k < direct.len() && direct[k] == p;
        assert(plan[k] == p);
    }
    let q = Publication { audience: Audience::Device(t), broadcast: true };
    if plan.contains(q) {
        let k = choose|k: int| 0 <= k < plan.len() && plan[k] == q;
        if k < direct.len() {
            assert(direct[k] == q);
            lemma_targets_plan_sound(sender, targets, target_devices, with_fanout, k);
        } else {
            assert(b[k - direct.len()] == q);
        }
    }
}

/// A message is broadcast, to the sender's `broadcast.sent` subscribers,
/// exactly when it names `*`; nothing else of it is a broadcast.
pub proof fn law_broadcast_only_when_named(
    sender: u128,
    targets: Seq<u128>,
    target_devices: Seq<Option<Whitelists>>,
    broadcast: bool,
    with_fanout: bool,
)
    requires
        target_devices.len() == targets.len(),
    ensures
        delivery_plan(sender, targets, target_devices, broadcast, with_fanout).contains(
            Publication { audience: Audience::Subscribers(sender, SubscriptionType::BroadcastSent), broadcast: true },
        ) <==> broadcast,
        (exists|k: int|
            0 <= k < delivery_plan(sender, targets, target_devices, broadcast, with_fanout).len()
                && #[trigger] delivery_plan(sender, targets, target_devices, broadcast, with_fanout)[k].broadcast)
            <==> broadcast,
{
    let direct = targets_plan(sender, targets, target_devices, with_fanout);
    let b = if broadcast {
        broadcast_publications(sender, with_fanout)
    } else {
        Seq::empty()
    };
    let plan = delivery_plan(sender, targets, target_devices, broadcast, with_fanout);
    assert(plan == direct + b);
    let p = Publication { audience: Audience::Subscribers(sender, SubscriptionType::BroadcastSent), broadcast: true };
    if broadcast {
        assert(plan[direct.len() as int] == p);
        assert(plan[direct.len() as int].broadcast);
    } else {
        assert(plan =~= direct);
        assert forall|k: int| 0 <= k < plan.len() implies !(#[trigger] plan[k]).broadcast by {
            lemma_targets_plan_sound(sender, targets, target_devices, with_fanout, k);
        }
        if plan.contains(p) {
            let k = choose|k: int| 0 <= k < plan.len() && plan[k] == p;
            assert(plan[k].broadcast);
        }
    }
}

} // verus!
