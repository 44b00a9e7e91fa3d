//! Server configuration and how it is read from settings.
use vstd::prelude::*;

use crate::text::{str_chars, str_eq, string_of};

verus! {

/// Server configuration.
pub struct ServerConfig {
    /// HTTP port.
    pub http_port: u16,
    /// MQTT port.
    pub mqtt_port: u16,
    /// Database URL (`sqlite:freshblu.db` or `postgresql://...`).
    pub database_url: String,
    /// Bcrypt pepper for extra token security.
    pub pepper: String,
    /// Open registration (no auth required to register).
    pub open_registration: bool,
    /// Max message size in bytes.
    pub max_message_size: usize,
    /// Log level.
    pub log_level: String,
}

/// Default HTTP port.
pub const DEFAULT_HTTP_PORT: u16 = 3000;

/// Default MQTT port.
pub const DEFAULT_MQTT_PORT: u16 = 1883;

/// Default maximum message size: 1 MiB.
pub const DEFAULT_MAX_MESSAGE_SIZE: usize = 1_048_576;

impl Default for ServerConfig {
    fn default() -> (r: ServerConfig)
        ensures
            r.http_port == DEFAULT_HTTP_PORT,
            r.mqtt_port == DEFAULT_MQTT_PORT,
            r.database_url@ == "sqlite:freshblu.db"@,
            r.pepper@ == "change-me-in-production"@,
            r.open_registration,
            r.max_message_size == DEFAULT_MAX_MESSAGE_SIZE,
            r.log_level@ == "info"@,
    {
        ServerConfig {
            http_port: DEFAULT_HTTP_PORT,
            mqtt_port: DEFAULT_MQTT_PORT,
            database_url: string_of("sqlite:freshblu.db"),
            pepper: string_of("change-me-in-production"),
            open_registration: true,
            max_message_size: DEFAULT_MAX_MESSAGE_SIZE,
            log_level: string_of("info"),
        }
    }
}

/// Whether `s` is one or more decimal digits.
pub open spec fn decimal_digits(s: Seq<char>) -> bool {
    s.len() > 0 && forall|i: int| 0 <= i < s.len() ==> '0' <= #[trigger] s[i] && s[i] <= '9'
}

/// The number that decimal digits write.
pub open spec fn decimal_value(s: Seq<char>) -> nat
    decreases s.len(),
{
    if s.len() == 0 {
        0
    } else {
        decimal_value(s.drop_last()) * 10 + (s.last() as nat - '0' as nat) as nat
    }
}

/// The digits of an unsigned integer text: all of it after a leading `+`.
pub open spec fn unsigned_digits(s: Seq<char>) -> Seq<char> {
    if s.len() > 0 && s[0] == '+' {
        s.skip(1)
    } else {
        s
    }
}

/// The number an unsigned integer text writes, if it is at most `max`: an
/// optional `+`, then one or more decimal digits (how `str::parse` reads
/// unsigned integers).
pub open spec fn unsigned_value(s: Seq<char>, max: nat) -> Option<nat> {
    let digits = unsigned_digits(s);
    if decimal_digits(digits) && decimal_value(digits) <= max {
        Some(decimal_value(digits))
    } else {
        None
    }
}

/// What `str::parse::<u16>()` gives for a text.
pub open spec fn u16_parse(s: Seq<char>) -> Option<u16> {
    match unsigned_value(s, u16::MAX as nat) {
        Some(n) => Some(n as u16),
        None => None,
    }
}

/// What `str::parse::<usize>()` gives for a text.
pub open spec fn usize_parse(s: Seq<char>) -> Option<usize> {
    match unsigned_value(s, usize::MAX as nat) {
        Some(n) => Some(n as usize),
        None => None,
    }
}

proof fn lemma_decimal_prefix(s: Seq<char>, i: int)
    requires
        decimal_digits(s),
        0 <= i <= s.len(),
    ensures
        decimal_value(s.take(i)) <= decimal_value(s),
    decreases s.len(),
{
    if i < s.len() {
        let rest = s.drop_last();
        if rest.len() > 0 {
            assert(decimal_digits(rest)) by {
                assert forall|j: int| 0 <= j < rest.len() implies '0' <= #[trigger] rest[j] && rest[j] <= '9' by {
                    assert(rest[j] == s[j]);
                }
            }
            lemma_decimal_prefix(rest, i);
        } else {
            assert(i == 0);
        }
        assert(rest.take(i) =~= s.take(i));
        assert(s.last() == s[s.len() - 1]);
    } else {
        assert(s.take(i) =~= s);
    }
}

/// Reads an unsigned decimal number of at most `max`, as `str::parse` reads
/// unsigned integers: an optional `+`, then one or more decimal digits.
fn parse_decimal(s: &str, max: u64) -> (r: Option<u64>)
    ensures
        r == match unsigned_value(s@, max as nat) {
            Some(n) => Some(n as u64),
            None => None::<u64>,
        },
{
    let v = str_chars(s);
    let start: usize = if v.len() > 0 && v[0] == '+' {
        1
    } else {
        0
    };
    let ghost digits = unsigned_digits(s@);
    assert(digits =~= v@.skip(start as int));
    if start == v.len() {
        return None;
    }
    let mut acc: u64 = 0;
    let mut i: usize = start;
    while i < v.len()
        invariant
            v@ == s@,
            digits == unsigned_digits(s@),
            digits == v@.skip(start as int),
            start <= i <= v@.len(),
            acc as nat == decimal_value(digits.take(i - start)),
            acc <= max,
            forall|j: int| 0 <= j < i - start ==> '0' <= #[trigger] digits[j] && digits[j] <= '9',
        decreases v@.len() - i,
    {
        let c = v[i];
        proof {
            assert(digits[i - start] == c);
        }
        if c < '0' || c > '9' {
            assert(!decimal_digits(digits));
            assert(unsigned_value(s@, max as nat) is None);
            return None;
        }
        let d: u64 = (c as u32 - 48) as u64;
        let ghost k = i - start;
        proof {
            assert(digits.take(k + 1).drop_last() =~= digits.take(k));
            assert(digits.take(k + 1).last() == c);
        }
        if d > max || acc > (max - d) / 10 {
            proof {
                assert(acc as int * 10 + d as int > max as int) by (nonlinear_arith)
                    requires
                        d > max || acc > (max - d) / 10,
                        d <= 9,
                ;
                assert(decimal_value(digits.take(k + 1)) > max);
                if decimal_digits(digits) {
                    lemma_decimal_prefix(digits, k + 1);
                }
                assert(unsigned_value(s@, max as nat) is None);
            }
            return None;
        }
        proof {
            assert(acc as int * 10 + d as int <= max as int) by (nonlinear_arith)
                requires
                    d <= max,
                    acc <= (max - d) / 10,
            ;
        }
        acc = acc * 10 + d;
        i = i + 1;
    }
    proof {
        assert(digits.take(digits.len() as int) =~= digits);
        assert(decimal_digits(digits));
    }
    Some(acc)
}

/// Reads a port number as `s.parse::<u16>().ok()` does.
fn parse_u16(s: &str) -> (r: Option<u16>)
    ensures
        r == u16_parse(s@),
{
    match parse_decimal(s, 65535) {
        Some(n) => Some(n as u16),
        None => None,
    }
}

/// Reads a size as `s.parse::<usize>().ok()` does.
fn parse_usize(s: &str) -> (r: Option<usize>)
    ensures
        r == usize_parse(s@),
{
    match parse_decimal(s, usize::MAX as u64) {
        Some(n) => Some(n as usize),
        None => None,
    }
}

/// The view of an optional setting.
pub open spec fn setting(v: Option<String>) -> Option<Seq<char>> {
    match v {
        Some(s) => Some(s@),
        None => None,
    }
}

/// A port setting: its number where it is set and reads as one, else `default`.
pub open spec fn port_setting(v: Option<Seq<char>>, default: u16) -> u16 {
    match v {
        Some(s) => match u16_parse(s) {
            Some(p) => p,
            None => default,
        },
        None => default,
    }
}

/// A text setting: its value where it is set, else `default`.
pub open spec fn text_setting(v: Option<Seq<char>>, default: Seq<char>) -> Seq<char> {
    match v {
        Some(s) => s,
        None => default,
    }
}

fn port_or(v: &Option<String>, default: u16) -> (r: u16)
    ensures
        r == port_setting(setting(*v), default),
{
    match v {
        Some(s) => match parse_u16(s.as_str()) {
            Some(p) => p,
            None => default,
        },
        None => default,
    }
}

fn text_or(v: Option<String>, default: &str) -> (r: String)
    ensures
        r@ == text_setting(setting(v), default@),
{
    match v {
        Some(s) => s,
        None => string_of(default),
    }
}

impl ServerConfig {
    /// The configuration that the given settings select (each `None` where
    /// the setting is absent): `FRESHBLU_HTTP_PORT`, `FRESHBLU_MQTT_PORT`,
    /// `DATABASE_URL`, `FRESHBLU_PEPPER`, `FRESHBLU_OPEN_REGISTRATION`,
    /// `FRESHBLU_MAX_MESSAGE_SIZE` and `RUST_LOG`. A setting that is absent, or
    /// a number that does not parse, leaves the default; registration is open
    /// unless its setting is exactly `false`.
    pub fn from_settings(
        http_port: Option<String>,
        mqtt_port: Option<String>,
        database_url: Option<String>,
        pepper: Option<String>,
        open_registration: Option<String>,
        max_message_size: Option<String>,
        log_level: Option<String>,
    ) -> (r: ServerConfig)
        ensures
            r.http_port == port_setting(setting(http_port), DEFAULT_HTTP_PORT),
            r.mqtt_port == port_setting(setting(mqtt_port), DEFAULT_MQTT_PORT),
            r.database_url@ == text_setting(setting(database_url), "sqlite:freshblu.db"@),
            r.pepper@ == text_setting(setting(pepper), "change-me-in-production"@),
            r.open_registration == match setting(open_registration) {
                Some(v) => v != "false"@,
                None => true,
            },
            r.max_message_size == match setting(max_message_size) {
                Some(v) => match usize_parse(v) {
                    Some(n) => n,
                    None => DEFAULT_MAX_MESSAGE_SIZE,
                },
                None => DEFAULT_MAX_MESSAGE_SIZE,
            },
            r.log_level@ == text_setting(setting(log_level), "info"@),
    {
        let http = port_or(&http_port, DEFAULT_HTTP_PORT);
        let mqtt = port_or(&mqtt_port, DEFAULT_MQTT_PORT);
        let open = match &open_registration {
            Some(v) => !str_eq(v.as_str(), "false"),
            None => true,
        };
        let max = match &max_message_size {
            Some(v) => match parse_usize(v.as_str()) {
                Some(n) => n,
                None => DEFAULT_MAX_MESSAGE_SIZE,
            },
            None => DEFAULT_MAX_MESSAGE_SIZE,
        };
        ServerConfig {
            http_port: http,
            mqtt_port: mqtt,
            database_url: text_or(database_url, "sqlite:freshblu.db"),
            pepper: text_or(pepper, "change-me-in-production"),
            open_registration: open,
            max_message_size: max,
            log_level: text_or(log_level, "info"),
        }
    }
}

} // verus!
