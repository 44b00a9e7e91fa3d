//! Stored token records and their expiry.
use vstd::prelude::*;

verus! {

/// An instant in UTC: seconds since the Unix epoch and the nanoseconds
/// within that second.
#[derive(Debug, Clone, Copy, PartialEq, Eq, Structural)]
pub struct Timestamp {
    pub secs: i64,
    pub nanos: u32,
}

/// `chrono::Utc::now()`, as seconds and nanoseconds since the Unix epoch.
///
/// Trusted: the nanoseconds of a chrono instant are below two billion (a
/// leap second may push them past one billion); nothing is claimed of the
/// clock's reading.
#[verifier::external_body]
pub(crate) fn utc_now() -> (t: Timestamp)
    ensures
        t.nanos < 2_000_000_000,
{
    let now = chrono::Utc::now();
    Timestamp { secs: now.timestamp(), nanos: now.timestamp_subsec_nanos() }
}

/// `chrono::Utc::now().timestamp()`: the current Unix time in seconds.
///
/// Trusted: nothing is claimed of the clock's reading.
#[verifier::external_body]
pub(crate) fn unix_now() -> (t: i64) {
    chrono::Utc::now().timestamp()
}

/// A stored token record (bcrypt hashed).
pub struct TokenRecord {
    pub uuid: u128,
    /// The bcrypt hash of the token.
    pub hash: String,
    /// When this token was created.
    pub created_at: Timestamp,
    /// Optional expiry timestamp (Unix epoch seconds).
    pub expires_on: Option<i64>,
    /// Optional tag / label.
    pub tag: Option<String>,
}

/// Whether a token with expiry `expires_on` has expired at Unix time `now`:
/// only a token with an expiry can expire, and it has once `now` is past it.
pub open spec fn expired_at(expires_on: Option<i64>, now: i64) -> bool {
    match expires_on {
        Some(exp) => now > exp,
        None => false,
    }
}

impl TokenRecord {
    /// A record for a fresh token of `uuid`, created now, without expiry or tag.
    pub fn new(uuid: u128, hash: String) -> (r: TokenRecord)
        ensures
            r.uuid == uuid,
            r.hash == hash,
            r.expires_on is None,
            r.tag is None,
    {
        TokenRecord { uuid, hash, created_at: utc_now(), expires_on: None, tag: None }
    }

    /// Whether the token has expired at Unix time `now`.
    pub fn is_expired_at(&self, now: i64) -> (b: bool)
        ensures
            b == expired_at(self.expires_on, now),
    {
        match self.expires_on {
            Some(exp) => now > exp,
            None => false,
        }
    }

    /// Whether the token has expired by the current clock: the answer of
    /// `is_expired_at` at the clock's reading. A token without expiry never
    /// has; what the clock reads is not known here.
    pub fn is_expired(&self) -> (b: bool)
        ensures
            self.expires_on is None ==> !b,
            exists|now: i64| b == expired_at(self.expires_on, now),
    {
        match self.expires_on {
            Some(_) => {
                let now = unix_now();
                let b = self.is_expired_at(now);
                assert(b == expired_at(self.expires_on, now));
                b
            },
            None => {
                assert(false == expired_at(self.expires_on, 0));
                false
            },
        }
    }
}

/// Options for generating a token with expiry / tag.
pub struct GenerateTokenOptions {
    pub expires_on: Option<i64>,
    pub tag: Option<String>,
}

impl Default for GenerateTokenOptions {
    fn default() -> (r: GenerateTokenOptions)
        ensures
            r.expires_on is None,
            r.tag is None,
    {
        GenerateTokenOptions { expires_on: None, tag: None }
    }
}

/// Seconds a credential handed to a webhook stays valid.
pub const WEBHOOK_CREDENTIAL_TTL: i64 = 300;

/// The options of the temporary token handed to a webhook at Unix time
/// `now`: it expires five minutes later and is tagged `webhook-credential`.
pub fn webhook_credential_options(now: i64) -> (o: GenerateTokenOptions)
    requires
        now <= i64::MAX - WEBHOOK_CREDENTIAL_TTL,
    ensures
        o.expires_on == Some((now + WEBHOOK_CREDENTIAL_TTL) as i64),
        o.tag matches Some(t) && t@ == "webhook-credential"@,
{
    GenerateTokenOptions {
        expires_on: Some(now + WEBHOOK_CREDENTIAL_TTL),
        tag: Some(crate::text::string_of("webhook-credential")),
    }
}

/// An expired token stays expired at every later time.
pub proof fn law_expiry_is_permanent(expires_on: Option<i64>, now: i64, later: i64)
    requires
        expired_at(expires_on, now),
        now <= later,
    ensures
        expired_at(expires_on, later),
{
}

} // verus!
