//! SSRF (server-side request forgery) protection: URLs are checked before
//! fetching so that internal networks are not reached.

use vstd::prelude::*;

use crate::error::BeaconError;
use crate::routing::{list_contains, list_has};
use crate::text::{concat, str_eq};

verus! {

/// An IP address as its octets (IPv4) or 16-bit segments (IPv6).
#[derive(Debug, Clone, Copy, PartialEq, Eq)]
pub enum IpAddress {
    V4([u8; 4]),
    V6([u16; 8]),
}

/// The address is in a private or reserved range: IPv4 loopback 127/8, private
/// 10/8, 172.16/12, 192.168/16, link-local 169.254/16, unspecified, broadcast, or
/// shared address space 100.64/10; IPv6 loopback, unspecified, unique-local fc00::/7,
/// or link-local fe80::/10 (first segment 0xfe80 to 0xfebf).
pub open spec fn private_ip(ip: IpAddress) -> bool {
    match ip {
        IpAddress::V4(o) => {
            ||| o[0] == 127
            ||| o[0] == 10
            ||| (o[0] == 172 && 16 <= o[1] <= 31)
            ||| (o[0] == 192 && o[1] == 168)
            ||| (o[0] == 169 && o[1] == 254)
            ||| (o[0] == 0 && o[1] == 0 && o[2] == 0 && o[3] == 0)
            ||| (o[0] == 255 && o[1] == 255 && o[2] == 255 && o[3] == 255)
            ||| (o[0] == 100 && 64 <= o[1] <= 127)
        },
        IpAddress::V6(s) => {
            ||| (s[0] == 0 && s[1] == 0 && s[2] == 0 && s[3] == 0 && s[4] == 0 && s[5] == 0
                && s[6] == 0 && s[7] == 1)
            ||| (s[0] == 0 && s[1] == 0 && s[2] == 0 && s[3] == 0 && s[4] == 0 && s[5] == 0
                && s[6] == 0 && s[7] == 0)
            ||| 0xFC00 <= s[0] <= 0xFDFF
            ||| 0xFE80 <= s[0] <= 0xFEBF
        },
    }
}

/// The private and reserved ranges, written as address masks the way std's
/// `Ipv4Addr`/`Ipv6Addr` predicates define them: an IPv4 address is private exactly
/// when it is loopback (127/8), private (10/8, 172.16/12, 192.168/16), link-local
/// (169.254/16), unspecified, broadcast or shared (100.64/10); an IPv6 address exactly
/// when it is `::1`, `::`, unique-local (fc00::/7) or link-local (fe80::/10).
pub proof fn private_ranges_law(o: [u8; 4], s: [u16; 8])
    ensures
        private_ip(IpAddress::V4(o)) <==> {
            ||| o[0] == 127
            ||| o[0] == 10
            ||| (o[0] == 172 && (o[1] & 0xf0u8) == 16)
            ||| (o[0] == 192 && o[1] == 168)
            ||| (o[0] == 169 && o[1] == 254)
            ||| (o[0] == 0 && o[1] == 0 && o[2] == 0 && o[3] == 0)
            ||| (o[0] == 255 && o[1] == 255 && o[2] == 255 && o[3] == 255)
            ||| (o[0] == 100 && (o[1] & 0xc0u8) == 64)
        },
        private_ip(IpAddress::V6(s)) <==> {
            ||| (s[0] == 0 && s[1] == 0 && s[2] == 0 && s[3] == 0 && s[4] == 0 && s[5] == 0 && s[6] == 0
                && (s[7] == 0 || s[7] == 1))
            ||| (s[0] & 0xfe00u16) == 0xfc00
            ||| (s[0] & 0xffc0u16) == 0xfe80
        },
{
    let b = o[1];
    let h = s[0];
    assert(((b & 0xf0u8) == 16) <==> (16 <= b && b <= 31)) by (bit_vector);
    assert(((b & 0xc0u8) == 64) <==> (64 <= b && b <= 127)) by (bit_vector);
    assert(((h & 0xfe00u16) == 0xfc00) <==> (0xfc00 <= h && h <= 0xfdff)) by (bit_vector);
    assert(((h & 0xffc0u16) == 0xfe80) <==> (0xfe80 <= h && h <= 0xfebf)) by (bit_vector);
}

/// Check if an IP address is in a private or reserved range.
pub fn is_private_ip(ip: &IpAddress) -> (b: bool)
    ensures
        b == private_ip(*ip),
{
    match ip {
        IpAddress::V4(o) => {
            o[0] == 127 || o[0] == 10 || (o[0] == 172 && 16 <= o[1] && o[1] <= 31) || (o[0] == 192
                && o[1] == 168) || (o[0] == 169 && o[1] == 254) || (o[0] == 0 && o[1] == 0 && o[2]
                == 0 && o[3] == 0) || (o[0] == 255 && o[1] == 255 && o[2] == 255 && o[3] == 255)
                || (o[0] == 100 && 64 <= o[1] && o[1] <= 127)
        },
        IpAddress::V6(s) => {
            let zero_prefix = s[0] == 0 && s[1] == 0 && s[2] == 0 && s[3] == 0 && s[4] == 0 && s[5]
                == 0 && s[6] == 0;
            (zero_prefix && s[7] == 1) || (zero_prefix && s[7] == 0) || (0xFC00 <= s[0] && s[0]
                <= 0xFDFF) || (0xFE80 <= s[0] && s[0] <= 0xFEBF)
        },
    }
}

/// The parts of a URL that the safety check reads.
#[derive(Debug, Clone)]
pub struct UrlParts {
    pub scheme: String,
    pub host: Option<String>,
    pub port: Option<u16>,
}

/// The characters of an optional string.
pub open spec fn opt_chars(o: Option<String>) -> Option<Seq<char>> {
    match o {
        Some(s) => Some(s@),
        None => None,
    }
}

/// What `url::Url::parse` yields for a text, read as (scheme, host, explicit port),
/// or none when the crate rejects it.
pub uninterp spec fn url_parts_of(s: Seq<char>) -> Option<(Seq<char>, Option<Seq<char>>, Option<u16>)>;

/// The `url` crate's parse error, carried opaquely.
#[verifier::external_type_specification]
#[verifier::external_body]
pub struct ExUrlParseError(url::ParseError);

/// Wraps `url::Url::parse`, keeping the scheme, host text and explicit port of the
/// parsed URL; the contract names what the crate yields.
#[verifier::external_body]
pub(crate) fn parse_url(s: &str) -> (r: Result<UrlParts, url::ParseError>)
    ensures
        r is Ok <==> url_parts_of(s@) is Some,
        r matches Ok(p) ==> url_parts_of(s@) == Some((p.scheme@, opt_chars(p.host), p.port)),
{
    url::Url::parse(s).map(|u| UrlParts {
        scheme: u.scheme().to_string(),
        host: u.host_str().map(|h| h.to_string()),
        port: u.port(),
    })
}

/// Wraps the `Display` of `url::ParseError`; nothing is stated of the text.
#[verifier::external_body]
fn url_error_text(e: &url::ParseError) -> String {
    format!("{e}")
}

/// Where a URL points, once the scheme and host have been checked.
#[derive(Debug, Clone, PartialEq, Eq)]
pub enum UrlTarget {
    /// The host is on the internal allowlist
    Allowlisted,
    /// The host must be checked (literal IP or DNS) before fetching
    CheckHost { host: String, port: u16 },
}

/// The outcome of the scheme/host stage of URL validation.
pub open spec fn precheck_outcome(
    parts: Option<(Seq<char>, Option<Seq<char>>, Option<u16>)>,
    allowed: Seq<String>,
) -> Option<Option<(Seq<char>, u16)>> {
    match parts {
        None => None,
        Some((scheme, host, port)) => if scheme != "http"@ && scheme != "https"@ {
            None
        } else {
            match host {
                None => None,
                Some(h) => if list_has(allowed, h) {
                    Some(None)
                } else {
                    Some(Some((h, match port { Some(p) => p, None => 80u16 })))
                },
            }
        },
    }
}

/// The message of a refusal by the scheme/host stage: an unparsable URL is "invalid
/// URL: " followed by the parser's message (`None` here: its text is the parser's own),
/// another scheme than http/https names the scheme, and a URL without host says so.
pub open spec fn precheck_refusal(parts: Option<(Seq<char>, Option<Seq<char>>, Option<u16>)>) -> Option<Seq<char>> {
    match parts {
        None => None,
        Some((scheme, host, _port)) => if scheme != "http"@ && scheme != "https"@ {
            Some("blocked non-HTTP scheme: "@ + scheme)
        } else {
            Some("URL has no host"@)
        },
    }
}

/// Validate a URL's scheme and host: only http/https with a host pass; allowlisted
/// hosts need no further check; other hosts are returned with their port (80 when
/// none is given) for the address check.
pub fn precheck_url(url: &str, allowed_internal_hosts: &Vec<String>) -> (r: Result<UrlTarget, BeaconError>)
    ensures
        r is Err <==> precheck_outcome(url_parts_of(url@), allowed_internal_hosts@) is None,
        r matches Err(e) ==> e is Link,
        r matches Err(e) ==> match precheck_refusal(url_parts_of(url@)) {
            Some(m) => e.spec_message() == m,
            None => "invalid URL: "@.is_prefix_of(e.spec_message()),
        },
        r matches Ok(UrlTarget::Allowlisted) ==> precheck_outcome(url_parts_of(url@), allowed_internal_hosts@) == Some(None::<(Seq<char>, u16)>),
        r matches Ok(UrlTarget::CheckHost { host, port }) ==> precheck_outcome(url_parts_of(url@), allowed_internal_hosts@) == Some(Some((host@, port))),
{
    proof {
        reveal_strlit("http");
        reveal_strlit("https");
    }
    let parts = match parse_url(url) {
        Ok(p) => p,
        Err(e) => {
            let msg = url_error_text(&e);
            return Err(BeaconError::Link(concat("invalid URL: ", msg.as_str())));
        },
    };
    if !str_eq(parts.scheme.as_str(), "http") && !str_eq(parts.scheme.as_str(), "https") {
        return Err(BeaconError::Link(concat("blocked non-HTTP scheme: ", parts.scheme.as_str())));
    }
    let host = match parts.host {
        Some(h) => h,
        None => {
            return Err(BeaconError::Link(String::from_str("URL has no host")));
        },
    };
    if list_contains(allowed_internal_hosts, host.as_str()) {
        return Ok(UrlTarget::Allowlisted);
    }
    let port = match parts.port {
        Some(p) => p,
        None => 80,
    };
    Ok(UrlTarget::CheckHost { host, port })
}

/// Find the first private or reserved address among the given ones (a host that
/// resolves to any such address is blocked).
pub fn find_private_address(addrs: &Vec<IpAddress>) -> (r: Option<usize>)
    ensures
        match r {
            Some(i) => i < addrs@.len() && private_ip(addrs@[i as int]) && forall|j: int| 0 <= j < i ==> !private_ip(#[trigger] addrs@[j]),
            None => forall|j: int| 0 <= j < addrs@.len() ==> !private_ip(#[trigger] addrs@[j]),
        },
{
    let mut i: usize = 0;
    while i < addrs.len()
        invariant
            i <= addrs@.len(),
            forall|j: int| 0 <= j < i ==> !private_ip(#[trigger] addrs@[j]),
        decreases addrs@.len() - i,
    {
        if is_private_ip(&addrs[i]) {
            return Some(i);
        }
        i = i + 1;
    }
    None
}

/// The verdict on a host, given what parsing it as an IP address literal gave (the
/// address with its display text): `None` when it is not one (its addresses must then
/// be resolved); otherwise an error naming a private or reserved address, or success
/// for a public one.
pub fn check_ip_literal(parsed: Option<(IpAddress, String)>) -> (r: Option<Result<(), BeaconError>>)
    ensures
        match parsed {
            None => r is None,
            Some((ip, text)) => if private_ip(ip) {
                r matches Some(Err(e)) && e is Link && e.spec_message() == "blocked private IP: "@ + text@
            } else {
                r matches Some(Ok(_))
            },
        },
{
    match parsed {
        None => None,
        Some((ip, text)) => {
            if is_private_ip(&ip) {
                Some(Err(BeaconError::Link(concat("blocked private IP: ", text.as_str()))))
            } else {
                Some(Ok(()))
            }
        },
    }
}

} // verus!
