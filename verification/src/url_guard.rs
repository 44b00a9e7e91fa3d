//! Webhook target screening: webhooks may not reach localhost, private
//! networks, link-local addresses or cloud metadata endpoints.
use vstd::prelude::*;

use crate::text::{ends_with, has_suffix, str_chars, str_eq, string_from_chars};

verus! {

/// An IP address: version 4 as its 32-bit value, version 6 as its 128-bit
/// value (most significant octet first, as the address is written).
#[derive(Debug, Clone, Copy, PartialEq, Eq, Structural)]
pub enum IpAddress {
    V4(u32),
    V6(u128),
}

/// What parsing a text as an IP address (`IpAddr`'s `FromStr`) gives.
pub uninterp spec fn ip_parse(s: Seq<char>) -> Option<IpAddress>;

/// `s.parse::<IpAddr>()`, read as the address's numeric value.
///
/// Trusted: the value is the standard library's parse of the text.
#[verifier::external_body]
fn parse_ip(s: &str) -> (r: Option<IpAddress>)
    ensures
        r == ip_parse(s@),
{
    match s.parse::<core::net::IpAddr>() {
        Ok(core::net::IpAddr::V4(v4)) => Some(IpAddress::V4(u32::from(v4))),
        Ok(core::net::IpAddr::V6(v6)) => Some(IpAddress::V6(u128::from(v6))),
        Err(_) => None,
    }
}

/// The scheme and host that `url::Url::parse` reads from a text, if it
/// accepts it.
pub uninterp spec fn url_scheme_and_host(s: Seq<char>) -> Option<(Seq<char>, Option<Seq<char>>)>;

/// What a parsed URL shows of itself: its scheme and its host text.
pub struct UrlParts {
    pub scheme: String,
    pub host: Option<String>,
}

/// The view of parsed URL parts.
pub open spec fn url_parts_view(p: UrlParts) -> (Seq<char>, Option<Seq<char>>) {
    (
        p.scheme@,
        match p.host {
            Some(h) => Some(h@),
            None => None,
        },
    )
}

/// `url::Url::parse`, then the URL's `scheme()` and `host_str()`.
///
/// Trusted: the parts are the crate's reading of the text.
#[verifier::external_body]
fn parse_url(s: &str) -> (r: Option<UrlParts>)
    ensures
        match r {
            Some(p) => url_scheme_and_host(s@) == Some(url_parts_view(p)),
            None => url_scheme_and_host(s@) is None,
        },
{
    match url::Url::parse(s) {
        Ok(u) => Some(UrlParts { scheme: u.scheme().to_string(), host: u.host_str().map(|h| h.to_string()) }),
        Err(_) => None,
    }
}

/// The octet of a version-4 address at position `i` (0 is written first).
pub open spec fn octet(v: u32, i: int) -> int {
    if i == 0 {
        v as int / 0x1000000
    } else if i == 1 {
        (v as int / 0x10000) % 0x100
    } else if i == 2 {
        (v as int / 0x100) % 0x100
    } else {
        v as int % 0x100
    }
}

/// Whether a version-4 address is loopback (127.0.0.0/8), private (10/8,
/// 172.16/12, 192.168/16), link-local (169.254/16), broadcast
/// (255.255.255.255) or unspecified (0.0.0.0).
pub open spec fn private_v4(v: u32) -> bool {
    let a = octet(v, 0);
    let b = octet(v, 1);
    ||| a == 127
    ||| a == 10
    ||| a == 172 && 16 <= b < 32
    ||| a == 192 && b == 168
    ||| a == 169 && b == 254
    ||| v == 0xffff_ffff
    ||| v == 0
}

/// Whether a version-6 address is loopback (::1), unspecified (::), unique
/// local (fc00::/7), link-local (fe80::/10), or a version-4 address mapped
/// into version 6 (::ffff:0:0/96) that is itself private.
pub open spec fn private_v6(v: u128) -> bool {
    ||| v == 1
    ||| v == 0
    ||| v as int / 0x0200_0000_0000_0000_0000_0000_0000_0000 == 0x7e
    ||| v as int / 0x0040_0000_0000_0000_0000_0000_0000_0000 == 0x3fa
    ||| v as int / 0x1_0000_0000 == 0xffff && private_v4((v as int % 0x1_0000_0000) as u32)
}

/// Whether an address may not be a webhook target: a private version-4 or
/// version-6 address.
pub open spec fn private_ip(ip: IpAddress) -> bool {
    match ip {
        IpAddress::V4(v) => private_v4(v),
        IpAddress::V6(v) => private_v6(v),
    }
}

/// The address text of a URL host: a version-6 address is written in
/// brackets (`[fd00::1]`), which are taken off; any other host is itself.
pub open spec fn host_address(h: Seq<char>) -> Seq<char> {
    if h.len() >= 2 && h[0] == '[' && h[h.len() - 1] == ']' {
        h.subrange(1, h.len() - 1)
    } else {
        h
    }
}

/// The address text of a URL host, brackets taken off.
fn host_address_of(h: &str) -> (r: String)
    ensures
        r@ == host_address(h@),
{
    let v = str_chars(h);
    let n = v.len();
    if n >= 2 && v[0] == '[' && v[n - 1] == ']' {
        string_from_chars(&v, 1, n - 1)
    } else {
        string_from_chars(&v, 0, n)
    }
}

/// Whether a version-4 address is private (see `private_v4`).
fn is_private_v4(v: u32) -> (b: bool)
    ensures
        b == private_v4(v),
{
    let a = v / 0x1000000;
    let b = (v / 0x10000) % 0x100;
    let loopback = a == 127;
    let private = a == 10 || (a == 172 && 16 <= b && b < 32) || (a == 192 && b == 168);
    let link_local = a == 169 && b == 254;
    let broadcast = v == 0xffff_ffff;
    let unspecified = v == 0;
    loopback || private || link_local || broadcast || unspecified
}

/// Whether an address is loopback, private, link-local, broadcast,
/// unspecified, unique local, or a mapped private version-4 address.
pub fn is_private_ip(ip: IpAddress) -> (b: bool)
    ensures
        b == private_ip(ip),
{
    match ip {
        IpAddress::V4(v) => is_private_v4(v),
        IpAddress::V6(v) => {
            let unique_local = v / 0x0200_0000_0000_0000_0000_0000_0000_0000 == 0x7e;
            let link_local = v / 0x0040_0000_0000_0000_0000_0000_0000_0000 == 0x3fa;
            let mapped = v / 0x1_0000_0000 == 0xffff && is_private_v4((v % 0x1_0000_0000) as u32);
            v == 1 || v == 0 || unique_local || link_local || mapped
        },
    }
}

/// The host names that mean this machine.
pub open spec fn is_localhost_name(h: Seq<char>) -> bool {
    h == "localhost"@ || h == "127.0.0.1"@ || h == "::1"@ || h == "[::1]"@
}

/// Whether a webhook URL may be fired: it must parse, be http or https and
/// name a host; localhost names pass only when allowed; other localhost
/// names, 0.0.0.0, metadata endpoints, private IP addresses and hosts under
/// `.internal`, `.local` or `.localhost` are refused.
pub open spec fn safe_url(url: Seq<char>, allow_localhost: bool) -> bool {
    match url_scheme_and_host(url) {
        None => false,
        Some((scheme, host)) => safe_parts(
            scheme,
            host,
            match host {
                Some(h) => ip_parse(host_address(h)),
                None => None,
            },
            allow_localhost,
        ),
    }
}

/// Whether a parsed webhook URL may be fired, given its scheme, its host and
/// the IP address that the host's address text reads as (`None` where it is
/// not an address).
pub open spec fn safe_parts(scheme: Seq<char>, host: Option<Seq<char>>, address: Option<IpAddress>, allow_localhost: bool) -> bool {
    if !(scheme == "http"@ || scheme == "https"@) {
        false
    } else {
        match host {
            None => false,
            Some(h) => {
                if allow_localhost && is_localhost_name(h) {
                    true
                } else if is_localhost_name(h) || h == "0.0.0.0"@ {
                    false
                } else if h == "169.254.169.254"@ || h == "metadata.google.internal"@ {
                    false
                } else {
                    match address {
                        Some(ip) => !private_ip(ip),
                        None => !(has_suffix(h, ".internal"@) || has_suffix(h, ".local"@) || has_suffix(
                            h,
                            ".localhost"@,
                        )),
                    }
                }
            },
        }
    }
}

fn is_localhost(h: &str) -> (b: bool)
    ensures
        b == is_localhost_name(h@),
{
    str_eq(h, "localhost") || str_eq(h, "127.0.0.1") || str_eq(h, "::1") || str_eq(h, "[::1]")
}

/// Decides a parsed webhook URL: its scheme, its host, and the IP address
/// the host's address text reads as.
pub fn parsed_url_is_safe(scheme: &str, host: Option<&str>, address: Option<IpAddress>, allow_localhost: bool) -> (b: bool)
    ensures
        b == safe_parts(
            scheme@,
            match host {
                Some(h) => Some(h@),
                None => None,
            },
            address,
            allow_localhost,
        ),
{
    if !(str_eq(scheme, "http") || str_eq(scheme, "https")) {
        return false;
    }
    let h = match host {
        Some(h) => h,
        None => return false,
    };
    if allow_localhost && is_localhost(h) {
        return true;
    }
    if is_localhost(h) || str_eq(h, "0.0.0.0") {
        return false;
    }
    if str_eq(h, "169.254.169.254") || str_eq(h, "metadata.google.internal") {
        return false;
    }
    if let Some(ip) = address {
        return !is_private_ip(ip);
    }
    let hv = str_chars(h);
    let internal = str_chars(".internal");
    let local = str_chars(".local");
    let localhost = str_chars(".localhost");
    if ends_with(&hv, &internal) || ends_with(&hv, &local) || ends_with(&hv, &localhost) {
        return false;
    }
    true
}

/// SSRF protection: whether a webhook may target `url_str`.
pub fn is_safe_url(url_str: &str, allow_localhost: bool) -> (b: bool)
    ensures
        b == safe_url(url_str@, allow_localhost),
{
    let url = match parse_url(url_str) {
        Some(u) => u,
        None => return false,
    };
    let address = match &url.host {
        Some(h) => {
            let text = host_address_of(h.as_str());
            parse_ip(text.as_str())
        },
        None => None,
    };
    let host = match &url.host {
        Some(h) => Some(h.as_str()),
        None => None,
    };
    parsed_url_is_safe(url.scheme.as_str(), host, address, allow_localhost)
}

/// Allowing localhost only ever admits more targets, and what it admits
/// beyond them are localhost names.
pub proof fn law_allow_localhost_only_widens(url: Seq<char>)
    ensures
        safe_url(url, false) ==> safe_url(url, true),
        safe_url(url, true) && !safe_url(url, false) ==> (url_scheme_and_host(url) matches Some(
            (_, Some(h)),
        ) && is_localhost_name(h)),
{
}

/// A URL whose host is a private IP address, written plainly or (version 6)
/// in brackets, is never a webhook target, unless it is one of the
/// localhost names and localhost is allowed.
pub proof fn law_private_addresses_refused(url: Seq<char>, allow_localhost: bool)
    requires
        url_scheme_and_host(url) matches Some((_, Some(h))) && ip_parse(host_address(h)) matches Some(ip)
            && private_ip(ip) && !is_localhost_name(h),
    ensures
        !safe_url(url, allow_localhost),
{
}

/// Every accepted webhook URL is an `http` or `https` URL that names a
/// host.
pub proof fn law_safe_urls_are_web_urls(url: Seq<char>, allow_localhost: bool)
    requires
        safe_url(url, allow_localhost),
    ensures
        url_scheme_and_host(url) matches Some((scheme, host)) && (scheme == "http"@ || scheme == "https"@)
            && host is Some,
{
}

} // verus!
