//! Devices: every entity (physical device, service, user, API) is a device
//! with a UUID, a token, free-form properties and system metadata.
use vstd::prelude::*;

use crate::forwarder::{same_forwarders, Forwarders};
use crate::permissions::{has_wildcard, same_whitelists, WhitelistEntry, Whitelists};
use crate::props::Properties;
use crate::text::{str_eq, string_of};
use crate::token::{utc_now, Timestamp};

verus! {

/// The view of an optional text.
pub open spec fn opt_text(o: Option<String>) -> Option<Seq<char>> {
    match o {
        Some(s) => Some(s@),
        None => None,
    }
}

/// A copy of an optional text.
pub fn clone_opt_string(o: &Option<String>) -> (r: Option<String>)
    ensures
        opt_text(r) == opt_text(*o),
{
    match o {
        Some(s) => Some(s.clone()),
        None => None,
    }
}

/// The version of the device metadata format.
pub open spec fn meta_version() -> Seq<char> {
    "2.0.0"@
}

/// System-managed metadata inside every device.
pub struct MeshbluMeta {
    pub version: String,
    pub created_at: Timestamp,
    pub updated_at: Option<Timestamp>,
    /// SHA-256 hash of the full device document (for integrity verification).
    pub hash: String,
    /// Permission whitelists (v2.0).
    pub whitelists: Whitelists,
    /// Forwarder configuration (webhooks, meshblu-to-meshblu).
    pub forwarders: Option<Forwarders>,
    /// Device public key (PEM).
    pub public_key: Option<String>,
    /// Owner UUID (set when the device is claimed).
    pub owner: Option<u128>,
}

/// Whether two metadata blocks hold the same values.
pub open spec fn same_meta(a: MeshbluMeta, b: MeshbluMeta) -> bool {
    &&& a.version@ == b.version@
    &&& a.created_at == b.created_at
    &&& a.updated_at == b.updated_at
    &&& a.hash@ == b.hash@
    &&& same_whitelists(a.whitelists, b.whitelists)
    &&& match (a.forwarders, b.forwarders) {
        (Some(x), Some(y)) => same_forwarders(x, y),
        (None, None) => true,
        _ => false,
    }
    &&& opt_text(a.public_key) == opt_text(b.public_key)
    &&& a.owner == b.owner
}

impl Clone for MeshbluMeta {
    fn clone(&self) -> (r: MeshbluMeta)
        ensures
            same_meta(r, *self),
    {
        MeshbluMeta {
            version: self.version.clone(),
            created_at: self.created_at,
            updated_at: self.updated_at,
            hash: self.hash.clone(),
            whitelists: self.whitelists.clone(),
            forwarders: match &self.forwarders {
                Some(f) => Some(f.clone()),
                None => None,
            },
            public_key: clone_opt_string(&self.public_key),
            owner: self.owner,
        }
    }
}

impl MeshbluMeta {
    /// Fresh metadata for a device created now with the given whitelists:
    /// version 2.0.0, not yet updated, no hash, no forwarders, key or owner.
    pub fn new(whitelists: Whitelists) -> (r: MeshbluMeta)
        ensures
            r.version@ == meta_version(),
            r.updated_at is None,
            r.hash@ == Seq::<char>::empty(),
            r.whitelists == whitelists,
            r.forwarders is None,
            r.public_key is None,
            r.owner is None,
    {
        MeshbluMeta {
            version: string_of("2.0.0"),
            created_at: utc_now(),
            updated_at: None,
            hash: String::new(),
            whitelists,
            forwarders: None,
            public_key: None,
            owner: None,
        }
    }
}

/// A device in the registry.
pub struct Device {
    /// The device's unique identifier.
    pub uuid: u128,
    /// Bcrypt-hashed token (never returned in plaintext after registration).
    pub token: Option<String>,
    /// Whether the device currently has an active connection.
    pub online: bool,
    /// Device type (arbitrary text, used for search / filter).
    pub device_type: Option<String>,
    /// Arbitrary device properties.
    pub properties: Properties,
    /// System metadata.
    pub meshblu: MeshbluMeta,
}

/// The response for whoami / get device: a device without its token.
pub struct DeviceView {
    pub uuid: u128,
    pub online: bool,
    pub device_type: Option<String>,
    pub meshblu: MeshbluMeta,
    pub properties: Properties,
}

/// Whether two device views hold the same values.
pub open spec fn same_view(a: DeviceView, b: DeviceView) -> bool {
    &&& a.uuid == b.uuid
    &&& a.online == b.online
    &&& opt_text(a.device_type) == opt_text(b.device_type)
    &&& same_meta(a.meshblu, b.meshblu)
    &&& a.properties@ == b.properties@
    &&& a.properties.wf() == b.properties.wf()
}

impl Clone for DeviceView {
    fn clone(&self) -> (r: DeviceView)
        ensures
            same_view(r, *self),
    {
        DeviceView {
            uuid: self.uuid,
            online: self.online,
            device_type: clone_opt_string(&self.device_type),
            meshblu: self.meshblu.clone(),
            properties: self.properties.clone(),
        }
    }
}

/// The response to registering a device: the only time its token is shown,
/// in plaintext.
pub struct RegisterResponse {
    pub uuid: u128,
    pub token: String,
    pub online: bool,
    pub meshblu: MeshbluMeta,
    pub properties: Properties,
}

/// Whitelists given at registration, overriding the defaults.
pub struct WhitelistOverride {
    pub whitelists: Option<Whitelists>,
}

impl Default for WhitelistOverride {
    fn default() -> (r: WhitelistOverride)
        ensures
            r.whitelists is None,
    {
        WhitelistOverride { whitelists: None }
    }
}

/// Parameters for registering a device.
pub struct RegisterParams {
    pub device_type: Option<String>,
    /// Override of the whitelists at registration time.
    pub meshblu: Option<WhitelistOverride>,
    /// Arbitrary properties to set at registration.
    pub properties: Properties,
}

impl Default for RegisterParams {
    fn default() -> (r: RegisterParams)
        ensures
            r.device_type is None,
            r.meshblu is None,
            r.properties.wf(),
            r.properties@ == Map::<Seq<char>, serde_json::Value>::empty(),
    {
        RegisterParams { device_type: None, meshblu: None, properties: Properties::new() }
    }
}

/// Parameters for updating a device.
pub struct UpdateParams {
    pub uuid: u128,
    pub properties: Properties,
}

/// Device search parameters: property filters.
pub struct DeviceQuery {
    pub filters: Properties,
}

impl Default for DeviceQuery {
    fn default() -> (r: DeviceQuery)
        ensures
            r.filters.wf(),
            r.filters@ == Map::<Seq<char>, serde_json::Value>::empty(),
    {
        DeviceQuery { filters: Properties::new() }
    }
}

/// `uuid::Uuid::new_v4()`, as its 128-bit value.
///
/// Trusted: the UUID is random; nothing is claimed of it.
#[verifier::external_body]
fn random_uuid() -> (u: u128) {
    uuid::Uuid::new_v4().as_u128()
}

impl Device {
    /// A new device with a random UUID, no token, offline, untyped, with the
    /// given properties and fresh metadata holding the given whitelists.
    pub fn new(properties: Properties, whitelists: Whitelists) -> (d: Device)
        ensures
            d.token is None,
            !d.online,
            d.device_type is None,
            d.properties == properties,
            d.meshblu.version@ == meta_version(),
            d.meshblu.whitelists == whitelists,
            d.meshblu.updated_at is None,
            d.meshblu.hash@ == Seq::<char>::empty(),
            d.meshblu.forwarders is None,
            d.meshblu.public_key is None,
            d.meshblu.owner is None,
    {
        let uuid = random_uuid();
        Device {
            uuid,
            token: None,
            online: false,
            device_type: None,
            properties,
            meshblu: MeshbluMeta::new(whitelists),
        }
    }

    /// Whether the `*` wildcard is in a whitelist, meaning anyone is allowed.
    pub fn is_open_whitelist(list: &[WhitelistEntry]) -> (b: bool)
        ensures
            b == has_wildcard(list@),
    {
        let mut i: usize = 0;
        while i < list.len()
            invariant
                i <= list@.len(),
                forall|j: int| 0 <= j < i ==> (#[trigger] list@[j]).uuid@ != "*"@,
            decreases list@.len() - i,
        {
            if str_eq(list[i].uuid.as_str(), "*") {
                return true;
            }
            i = i + 1;
        }
        false
    }

    /// The device as others see it: everything but its token, and without a
    /// `token` property.
    pub fn to_view(&self) -> (v: DeviceView)
        requires
            self.properties.wf(),
        ensures
            v.uuid == self.uuid,
            v.online == self.online,
            opt_text(v.device_type) == opt_text(self.device_type),
            same_meta(v.meshblu, self.meshblu),
            v.properties.wf(),
            v.properties@ == self.properties@.remove("token"@),
    {
        let mut props = self.properties.clone();
        props.remove("token");
        DeviceView {
            uuid: self.uuid,
            online: self.online,
            device_type: clone_opt_string(&self.device_type),
            meshblu: self.meshblu.clone(),
            properties: props,
        }
    }
}

} // verus!
