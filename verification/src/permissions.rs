//! Meshblu v2.0 permission system.
//!
//! Every device has a `meshblu.whitelists` block that controls who can do
//! what. Permissions are broken into categories (discover, configure, message,
//! broadcast), each with sub-types (sent, received, as, update, view, from).
//!
//! The special UUID "*" in any whitelist means "anyone is allowed". An empty
//! whitelist means "nobody except the device itself is allowed".
use vstd::prelude::*;

use crate::text::{str_eq, string_of};
use crate::uuid_text::{lemma_uuid_text_injective, uuid_text, uuid_to_string};

verus! {

/// An entry of a whitelist: a device UUID in text form, or `*`.
pub struct WhitelistEntry {
    pub uuid: String,
}

impl Clone for WhitelistEntry {
    fn clone(&self) -> (r: WhitelistEntry)
        ensures
            r.uuid@ == self.uuid@,
    {
        WhitelistEntry { uuid: self.uuid.clone() }
    }
}

/// Whether a whitelist entry with text `e` admits `target`.
pub open spec fn entry_matches(e: Seq<char>, target: u128) -> bool {
    e == "*"@ || e == uuid_text(target)
}

/// Whether some entry of `list` admits `actor`.
pub open spec fn list_allows(list: Seq<WhitelistEntry>, actor: u128) -> bool {
    exists|i: int| 0 <= i < list.len() && entry_matches(#[trigger] list[i].uuid@, actor)
}

/// The texts of a whitelist's entries.
pub open spec fn entry_texts(list: Seq<WhitelistEntry>) -> Seq<Seq<char>> {
    list.map_values(|e: WhitelistEntry| e.uuid@)
}

impl WhitelistEntry {
    /// The entry `*`, which admits everyone.
    pub fn wildcard() -> (e: WhitelistEntry)
        ensures
            e.uuid@ == "*"@,
    {
        WhitelistEntry { uuid: string_of("*") }
    }

    /// The entry that admits exactly the device `uuid`.
    pub fn for_uuid(uuid: u128) -> (e: WhitelistEntry)
        ensures
            e.uuid@ == uuid_text(uuid),
    {
        WhitelistEntry { uuid: uuid_to_string(uuid) }
    }

    /// Whether this entry admits `target`.
    pub fn matches(&self, target: u128) -> (b: bool)
        ensures
            b == entry_matches(self.uuid@, target),
    {
        if str_eq(self.uuid.as_str(), "*") {
            true
        } else {
            let t = uuid_to_string(target);
            str_eq(self.uuid.as_str(), t.as_str())
        }
    }
}

/// Whether `*` is one of the entries of a whitelist.
pub open spec fn has_wildcard(list: Seq<WhitelistEntry>) -> bool {
    exists|i: int| 0 <= i < list.len() && #[trigger] list[i].uuid@ == "*"@
}

/// Whether some entry of `list` admits `actor`.
pub fn check_whitelist(list: &[WhitelistEntry], actor: u128) -> (b: bool)
    ensures
        b == list_allows(list@, actor),
{
    let mut i: usize = 0;
    while i < list.len()
        invariant
            i <= list@.len(),
            forall|j: int| 0 <= j < i ==> !entry_matches(#[trigger] list@[j].uuid@, actor),
        decreases list@.len() - i,
    {
        if list[i].matches(actor) {
            return true;
        }
        i = i + 1;
    }
    false
}

/// Controls who can discover / view a device.
pub struct DiscoverWhitelist {
    /// Who can GET this device's properties.
    pub view: Vec<WhitelistEntry>,
    /// Who can act as this device for discovery purposes (the `as` list).
    pub act_as: Vec<WhitelistEntry>,
}

/// Controls who can modify a device's config.
pub struct ConfigureWhitelist {
    /// Who can update this device.
    pub update: Vec<WhitelistEntry>,
    /// Who can receive config-change events this device emits.
    pub sent: Vec<WhitelistEntry>,
    /// Who can receive config-change events sent to this device.
    pub received: Vec<WhitelistEntry>,
    /// Who can act as this device for configure operations (the `as` list).
    pub act_as: Vec<WhitelistEntry>,
}

/// Controls who can send / receive direct messages.
pub struct MessageWhitelist {
    /// Who can send messages to this device.
    pub from: Vec<WhitelistEntry>,
    /// Who can receive messages sent by this device.
    pub sent: Vec<WhitelistEntry>,
    /// Who can receive messages received by this device.
    pub received: Vec<WhitelistEntry>,
    /// Who can act as this device for messaging (the `as` list).
    pub act_as: Vec<WhitelistEntry>,
}

/// Controls who can subscribe to broadcast events.
pub struct BroadcastWhitelist {
    /// Who can subscribe to broadcasts sent by this device.
    pub sent: Vec<WhitelistEntry>,
    /// Who can subscribe to broadcasts received by this device.
    pub received: Vec<WhitelistEntry>,
    /// Who can act as this device for broadcasting (the `as` list).
    pub act_as: Vec<WhitelistEntry>,
}

/// The full permission whitelist structure of a device (v2.0).
pub struct Whitelists {
    pub discover: DiscoverWhitelist,
    pub configure: ConfigureWhitelist,
    pub message: MessageWhitelist,
    pub broadcast: BroadcastWhitelist,
}

/// The thirteen operations that a whitelist governs.
pub enum Operation {
    DiscoverView,
    DiscoverAs,
    ConfigureUpdate,
    ConfigureSent,
    ConfigureReceived,
    ConfigureAs,
    MessageFrom,
    MessageSent,
    MessageReceived,
    MessageAs,
    BroadcastSent,
    BroadcastReceived,
    BroadcastAs,
}

/// Whether an operation is one of the "act as this device" ones.
pub open spec fn is_act_as(op: Operation) -> bool {
    op is DiscoverAs || op is ConfigureAs || op is MessageAs || op is BroadcastAs
}

/// The whitelist of `w` that governs `op`.
pub open spec fn whitelist_for(w: Whitelists, op: Operation) -> Seq<WhitelistEntry> {
    match op {
        Operation::DiscoverView => w.discover.view@,
        Operation::DiscoverAs => w.discover.act_as@,
        Operation::ConfigureUpdate => w.configure.update@,
        Operation::ConfigureSent => w.configure.sent@,
        Operation::ConfigureReceived => w.configure.received@,
        Operation::ConfigureAs => w.configure.act_as@,
        Operation::MessageFrom => w.message.from@,
        Operation::MessageSent => w.message.sent@,
        Operation::MessageReceived => w.message.received@,
        Operation::MessageAs => w.message.act_as@,
        Operation::BroadcastSent => w.broadcast.sent@,
        Operation::BroadcastReceived => w.broadcast.received@,
        Operation::BroadcastAs => w.broadcast.act_as@,
    }
}

/// Whether `actor` may perform `op` on the device `device` whose whitelists
/// are `w`: the device itself always may; anyone else needs an admitting
/// entry in the governing whitelist.
pub open spec fn permitted(w: Whitelists, op: Operation, actor: u128, device: u128) -> bool {
    actor == device || list_allows(whitelist_for(w, op), actor)
}

/// A whitelist holding exactly `*`.
pub open spec fn is_wildcard_only(list: Seq<WhitelistEntry>) -> bool {
    list.len() == 1 && list[0].uuid@ == "*"@
}

/// A whitelist holding exactly the entry of `owner`.
pub open spec fn is_owner_only(list: Seq<WhitelistEntry>, owner: u128) -> bool {
    list.len() == 1 && list[0].uuid@ == uuid_text(owner)
}

fn wildcard_list() -> (v: Vec<WhitelistEntry>)
    ensures
        is_wildcard_only(v@),
{
    let mut v = Vec::new();
    v.push(WhitelistEntry::wildcard());
    v
}

fn owner_list(owner: u128) -> (v: Vec<WhitelistEntry>)
    ensures
        is_owner_only(v@, owner),
{
    let mut v = Vec::new();
    v.push(WhitelistEntry::for_uuid(owner));
    v
}

/// A whitelist with only `*` admits everyone.
pub proof fn lemma_wildcard_only_allows(list: Seq<WhitelistEntry>, actor: u128)
    requires
        is_wildcard_only(list),
    ensures
        list_allows(list, actor),
{
    assert(entry_matches(list[0].uuid@, actor));
}

/// A whitelist with only the entry of `owner` admits exactly `owner`.
pub proof fn lemma_owner_only_allows(list: Seq<WhitelistEntry>, owner: u128, actor: u128)
    requires
        is_owner_only(list, owner),
    ensures
        list_allows(list, actor) <==> actor == owner,
{
    reveal_strlit("*");
    if list_allows(list, actor) {
        let i = choose|i: int| 0 <= i < list.len() && entry_matches(#[trigger] list[i].uuid@, actor);
        assert(i == 0);
        assert(uuid_text(owner).len() == 36);
        assert(list[0].uuid@ != "*"@);
        lemma_uuid_text_injective(owner, actor);
    }
    if actor == owner {
        assert(entry_matches(list[0].uuid@, actor));
    }
}

impl DiscoverWhitelist {
    /// Empty lists.
    pub fn empty() -> (r: DiscoverWhitelist)
        ensures
            r.view@.len() == 0,
            r.act_as@.len() == 0,
    {
        DiscoverWhitelist { view: Vec::new(), act_as: Vec::new() }
    }
}

impl ConfigureWhitelist {
    /// Empty lists.
    pub fn empty() -> (r: ConfigureWhitelist)
        ensures
            r.update@.len() == 0,
            r.sent@.len() == 0,
            r.received@.len() == 0,
            r.act_as@.len() == 0,
    {
        ConfigureWhitelist {
            update: Vec::new(),
            sent: Vec::new(),
            received: Vec::new(),
            act_as: Vec::new(),
        }
    }
}

impl MessageWhitelist {
    /// Empty lists.
    pub fn empty() -> (r: MessageWhitelist)
        ensures
            r.from@.len() == 0,
            r.sent@.len() == 0,
            r.received@.len() == 0,
            r.act_as@.len() == 0,
    {
        MessageWhitelist {
            from: Vec::new(),
            sent: Vec::new(),
            received: Vec::new(),
            act_as: Vec::new(),
        }
    }
}

impl BroadcastWhitelist {
    /// Empty lists.
    pub fn empty() -> (r: BroadcastWhitelist)
        ensures
            r.sent@.len() == 0,
            r.received@.len() == 0,
            r.act_as@.len() == 0,
    {
        BroadcastWhitelist { sent: Vec::new(), received: Vec::new(), act_as: Vec::new() }
    }
}

impl Default for Whitelists {
    /// Locked whitelists: every list empty, so only a device itself may act on it.
    fn default() -> (r: Whitelists)
        ensures
            forall|op: Operation| (#[trigger] whitelist_for(r, op)).len() == 0,
    {
        Whitelists {
            discover: DiscoverWhitelist::empty(),
            configure: ConfigureWhitelist::empty(),
            message: MessageWhitelist::empty(),
            broadcast: BroadcastWhitelist::empty(),
        }
    }
}

impl Whitelists {
    /// Open (public) whitelists: everyone can do everything except act as
    /// the device. Used for newly registered devices in open mode.
    pub fn open() -> (r: Whitelists)
        ensures
            forall|op: Operation|
                !is_act_as(op) ==> is_wildcard_only(#[trigger] whitelist_for(r, op)),
            forall|op: Operation| is_act_as(op) ==> (#[trigger] whitelist_for(r, op)).len() == 0,
            forall|op: Operation, actor: u128, device: u128|
                #[trigger] permitted(r, op, actor, device) == (is_act_as(op) ==> actor == device),
    {
        let r = Whitelists {
            discover: DiscoverWhitelist { view: wildcard_list(), act_as: Vec::new() },
            configure: ConfigureWhitelist {
                update: wildcard_list(),
                sent: wildcard_list(),
                received: wildcard_list(),
                act_as: Vec::new(),
            },
            message: MessageWhitelist {
                from: wildcard_list(),
                sent: wildcard_list(),
                received: wildcard_list(),
                act_as: Vec::new(),
            },
            broadcast: BroadcastWhitelist {
                sent: wildcard_list(),
                received: wildcard_list(),
                act_as: Vec::new(),
            },
        };
        assert forall|op: Operation, actor: u128, device: u128|
            #[trigger] permitted(r, op, actor, device) == (is_act_as(op) ==> actor == device) by {
            if !is_act_as(op) {
                lemma_wildcard_only_allows(whitelist_for(r, op), actor);
            }
        }
        r
    }

    /// Locked-down defaults: only the owner (and the device itself) has access;
    /// nobody may act as the device.
    pub fn private(owner: u128) -> (r: Whitelists)
        ensures
            forall|op: Operation|
                !is_act_as(op) ==> is_owner_only(#[trigger] whitelist_for(r, op), owner),
            forall|op: Operation| is_act_as(op) ==> (#[trigger] whitelist_for(r, op)).len() == 0,
            forall|op: Operation, actor: u128, device: u128|
                #[trigger] permitted(r, op, actor, device) == (actor == device || (!is_act_as(op)
                    && actor == owner)),
    {
        let r = Whitelists {
            discover: DiscoverWhitelist { view: owner_list(owner), act_as: Vec::new() },
            configure: ConfigureWhitelist {
                update: owner_list(owner),
                sent: owner_list(owner),
                received: owner_list(owner),
                act_as: Vec::new(),
            },
            message: MessageWhitelist {
                from: owner_list(owner),
                sent: owner_list(owner),
                received: owner_list(owner),
                act_as: Vec::new(),
            },
            broadcast: BroadcastWhitelist {
                sent: owner_list(owner),
                received: owner_list(owner),
                act_as: Vec::new(),
            },
        };
        assert forall|op: Operation, actor: u128, device: u128|
            #[trigger] permitted(r, op, actor, device) == (actor == device || (!is_act_as(op)
                && actor == owner)) by {
            if !is_act_as(op) {
                lemma_owner_only_allows(whitelist_for(r, op), owner, actor);
            }
        }
        r
    }
}

/// A copy of a whitelist: the same entries in the same order.
fn clone_entries(list: &Vec<WhitelistEntry>) -> (r: Vec<WhitelistEntry>)
    ensures
        entry_texts(r@) == entry_texts(list@),
{
    let mut r: Vec<WhitelistEntry> = Vec::new();
    let mut i: usize = 0;
    while i < list.len()
        invariant
            i <= list@.len(),
            r@.len() == i,
            forall|j: int| 0 <= j < i ==> (#[trigger] r@[j]).uuid@ == list@[j].uuid@,
        decreases list@.len() - i,
    {
        r.push(list[i].clone());
        i = i + 1;
    }
    assert(entry_texts(r@) =~= entry_texts(list@));
    r
}

/// Whether two whitelist structures hold the same entries in every list.
pub open spec fn same_whitelists(a: Whitelists, b: Whitelists) -> bool {
    forall|op: Operation| entry_texts(#[trigger] whitelist_for(a, op)) == entry_texts(whitelist_for(b, op))
}

impl Clone for DiscoverWhitelist {
    fn clone(&self) -> (r: DiscoverWhitelist)
        ensures
            entry_texts(r.view@) == entry_texts(self.view@),
            entry_texts(r.act_as@) == entry_texts(self.act_as@),
    {
        DiscoverWhitelist { view: clone_entries(&self.view), act_as: clone_entries(&self.act_as) }
    }
}

impl Clone for ConfigureWhitelist {
    fn clone(&self) -> (r: ConfigureWhitelist)
        ensures
            entry_texts(r.update@) == entry_texts(self.update@),
            entry_texts(r.sent@) == entry_texts(self.sent@),
            entry_texts(r.received@) == entry_texts(self.received@),
            entry_texts(r.act_as@) == entry_texts(self.act_as@),
    {
        ConfigureWhitelist {
            update: clone_entries(&self.update),
            sent: clone_entries(&self.sent),
            received: clone_entries(&self.received),
            act_as: clone_entries(&self.act_as),
        }
    }
}

impl Clone for MessageWhitelist {
    fn clone(&self) -> (r: MessageWhitelist)
        ensures
            entry_texts(r.from@) == entry_texts(self.from@),
            entry_texts(r.sent@) == entry_texts(self.sent@),
            entry_texts(r.received@) == entry_texts(self.received@),
            entry_texts(r.act_as@) == entry_texts(self.act_as@),
    {
        MessageWhitelist {
            from: clone_entries(&self.from),
            sent: clone_entries(&self.sent),
            received: clone_entries(&self.received),
            act_as: clone_entries(&self.act_as),
        }
    }
}

impl Clone for BroadcastWhitelist {
    fn clone(&self) -> (r: BroadcastWhitelist)
        ensures
            entry_texts(r.sent@) == entry_texts(self.sent@),
            entry_texts(r.received@) == entry_texts(self.received@),
            entry_texts(r.act_as@) == entry_texts(self.act_as@),
    {
        BroadcastWhitelist {
            sent: clone_entries(&self.sent),
            received: clone_entries(&self.received),
            act_as: clone_entries(&self.act_as),
        }
    }
}

impl Clone for Whitelists {
    fn clone(&self) -> (r: Whitelists)
        ensures
            same_whitelists(r, *self),
    {
        Whitelists {
            discover: self.discover.clone(),
            configure: self.configure.clone(),
            message: self.message.clone(),
            broadcast: self.broadcast.clone(),
        }
    }
}

/// Whitelists with the same entries grant the same permissions: a copy of a
/// device's whitelists decides every request as the whitelists it was cloned from.
pub proof fn law_same_whitelists_same_permissions(a: Whitelists, b: Whitelists, op: Operation, actor: u128, device: u128)
    requires
        same_whitelists(a, b),
    ensures
        permitted(a, op, actor, device) == permitted(b, op, actor, device),
{
    let la = whitelist_for(a, op);
    let lb = whitelist_for(b, op);
    assert(entry_texts(la) == entry_texts(lb));
    assert(la.len() == lb.len()) by {
        assert(entry_texts(la).len() == la.len());
        assert(entry_texts(lb).len() == lb.len());
    }
    if list_allows(la, actor) {
        let i = choose|i: int| 0 <= i < la.len() && entry_matches(#[trigger] la[i].uuid@, actor);
        assert(entry_texts(la)[i] == entry_texts(lb)[i]);
        assert(entry_matches(lb[i].uuid@, actor));
    }
    if list_allows(lb, actor) {
        let i = choose|i: int| 0 <= i < lb.len() && entry_matches(#[trigger] lb[i].uuid@, actor);
        assert(entry_texts(la)[i] == entry_texts(lb)[i]);
        assert(entry_matches(la[i].uuid@, actor));
    }
}

/// The complete set of permission-check operations, for one actor and one
/// device.
pub struct PermissionChecker<'a> {
    pub device: &'a Whitelists,
    pub actor: &'a u128,
    pub device_uuid: &'a u128,
}

impl<'a> PermissionChecker<'a> {
    /// A checker of what `actor` may do to the device `device_uuid` whose
    /// whitelists are `device`.
    pub fn new(device: &'a Whitelists, actor: &'a u128, device_uuid: &'a u128) -> (r: Self)
        ensures
            *r.device == *device,
            *r.actor == *actor,
            *r.device_uuid == *device_uuid,
    {
        PermissionChecker { device, actor, device_uuid }
    }

    /// Whether this checker's actor may perform `op`.
    pub open spec fn allows(&self, op: Operation) -> bool {
        permitted(*self.device, op, *self.actor, *self.device_uuid)
    }

    /// Is the actor the device itself?
    fn is_self(&self) -> (b: bool)
        ensures
            b == (*self.actor == *self.device_uuid),
    {
        *self.actor == *self.device_uuid
    }

    /// Can the actor view this device's properties?
    pub fn can_discover_view(&self) -> (b: bool)
        ensures
            b == self.allows(Operation::DiscoverView),
    {
        self.is_self() || check_whitelist(self.device.discover.view.as_slice(), *self.actor)
    }

    /// Can the actor act as this device for discover operations?
    pub fn can_discover_as(&self) -> (b: bool)
        ensures
            b == self.allows(Operation::DiscoverAs),
    {
        self.is_self() || check_whitelist(self.device.discover.act_as.as_slice(), *self.actor)
    }

    /// Can the actor update this device's config?
    pub fn can_configure_update(&self) -> (b: bool)
        ensures
            b == self.allows(Operation::ConfigureUpdate),
    {
        self.is_self() || check_whitelist(self.device.configure.update.as_slice(), *self.actor)
    }

    /// Can the actor receive configure.sent events from this device?
    pub fn can_configure_sent(&self) -> (b: bool)
        ensures
            b == self.allows(Operation::ConfigureSent),
    {
        self.is_self() || check_whitelist(self.device.configure.sent.as_slice(), *self.actor)
    }

    /// Can the actor receive configure.received events for this device?
    pub fn can_configure_received(&self) -> (b: bool)
        ensures
            b == self.allows(Operation::ConfigureReceived),
    {
        self.is_self() || check_whitelist(self.device.configure.received.as_slice(), *self.actor)
    }

    /// Can the actor act as this device for configure operations?
    pub fn can_configure_as(&self) -> (b: bool)
        ensures
            b == self.allows(Operation::ConfigureAs),
    {
        self.is_self() || check_whitelist(self.device.configure.act_as.as_slice(), *self.actor)
    }

    /// Can the actor send messages to this device?
    pub fn can_message_from(&self) -> (b: bool)
        ensures
            b == self.allows(Operation::MessageFrom),
    {
        self.is_self() || check_whitelist(self.device.message.from.as_slice(), *self.actor)
    }

    /// Can the actor receive messages sent by this device?
    pub fn can_message_sent(&self) -> (b: bool)
        ensures
            b == self.allows(Operation::MessageSent),
    {
        self.is_self() || check_whitelist(self.device.message.sent.as_slice(), *self.actor)
    }

    /// Can the actor receive messages received by this device?
    pub fn can_message_received(&self) -> (b: bool)
        ensures
            b == self.allows(Operation::MessageReceived),
    {
        self.is_self() || check_whitelist(self.device.message.received.as_slice(), *self.actor)
    }

    /// Can the actor act as this device for messaging?
    pub fn can_message_as(&self) -> (b: bool)
        ensures
            b == self.allows(Operation::MessageAs),
    {
        self.is_self() || check_whitelist(self.device.message.act_as.as_slice(), *self.actor)
    }

    /// Can the actor subscribe to broadcast.sent events from this device?
    pub fn can_broadcast_sent(&self) -> (b: bool)
        ensures
            b == self.allows(Operation::BroadcastSent),
    {
        self.is_self() || check_whitelist(self.device.broadcast.sent.as_slice(), *self.actor)
    }

    /// Can the actor subscribe to broadcast.received events for this device?
    pub fn can_broadcast_received(&self) -> (b: bool)
        ensures
            b == self.allows(Operation::BroadcastReceived),
    {
        self.is_self() || check_whitelist(self.device.broadcast.received.as_slice(), *self.actor)
    }

    /// Can the actor act as this device for broadcasts?
    pub fn can_broadcast_as(&self) -> (b: bool)
        ensures
            b == self.allows(Operation::BroadcastAs),
    {
        self.is_self() || check_whitelist(self.device.broadcast.act_as.as_slice(), *self.actor)
    }
}

/// A device may always perform every operation on itself.
pub proof fn law_self_always_permitted(w: Whitelists, op: Operation, device: u128)
    ensures
        permitted(w, op, device, device),
{
}

/// A `*` entry in the governing whitelist admits every actor.
pub proof fn law_wildcard_admits_everyone(w: Whitelists, op: Operation, actor: u128, device: u128)
    requires
        has_wildcard(whitelist_for(w, op)),
    ensures
        permitted(w, op, actor, device),
{
    let list = whitelist_for(w, op);
    let i = choose|i: int| 0 <= i < list.len() && #[trigger] list[i].uuid@ == "*"@;
    assert(entry_matches(list[i].uuid@, actor));
}

/// An empty whitelist admits nobody but the device itself.
pub proof fn law_empty_whitelist_only_self(w: Whitelists, op: Operation, actor: u128, device: u128)
    requires
        whitelist_for(w, op).len() == 0,
    ensures
        permitted(w, op, actor, device) <==> actor == device,
{
}

/// An entry made for a UUID admits that device and no other.
pub proof fn law_uuid_entry_admits_only_its_device(owner: u128, actor: u128)
    ensures
        entry_matches(uuid_text(owner), actor) <==> actor == owner,
{
    reveal_strlit("*");
    assert(uuid_text(owner).len() == 36);
    if uuid_text(owner) == uuid_text(actor) {
        lemma_uuid_text_injective(owner, actor);
    }
}

} // verus!
