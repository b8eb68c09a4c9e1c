//! Connection addresses: what counts as a well-formed address for the
//! controller, and the derivation of a connection URL from a host name.
//!
//! An address is accepted when it is scheme-qualified with `ws://` (plain)
//! or `wss://` (secure) and carries a non-empty host with no spaces.
//! Malformed addresses are rejected at construction time, before any
//! network activity.

use vstd::prelude::*;

verus! {

/// A malformed or unsupported connection address, detected at construction.
#[derive(Clone, Copy, Debug, PartialEq, Eq, Structural)]
pub struct ConfigurationError;

/// The address starts with the plain scheme `ws://`.
pub open spec fn has_ws_scheme(s: Seq<char>) -> bool {
    s.len() >= 5 && s[0] == 'w' && s[1] == 's' && s[2] == ':' && s[3] == '/' && s[4] == '/'
}

/// The address starts with the secure scheme `wss://`.
pub open spec fn has_wss_scheme(s: Seq<char>) -> bool {
    s.len() >= 6 && s[0] == 'w' && s[1] == 's' && s[2] == 's' && s[3] == ':' && s[4] == '/'
        && s[5] == '/'
}

/// How many characters the scheme prefix occupies.
pub open spec fn scheme_length(s: Seq<char>) -> int {
    if has_ws_scheme(s) {
        5
    } else {
        6
    }
}

/// A well-formed connection address: a supported scheme, followed by a
/// non-empty host (the first character after the scheme is not `/`), with no
/// space anywhere after the scheme.
pub open spec fn valid_address(s: Seq<char>) -> bool {
    &&& has_ws_scheme(s) || has_wss_scheme(s)
    &&& scheme_length(s) < s.len()
    &&& s[scheme_length(s)] != '/'
    &&& forall|i: int| scheme_length(s) <= i < s.len() ==> s[i] != ' '
}

/// Decides whether `address` is a well-formed connection address.
pub fn validate_address(address: &str) -> (ok: bool)
    ensures
        ok == valid_address(address@),
{
    let n = address.unicode_len();
    let scheme_len: usize;
    if n >= 5 && address.get_char(0) == 'w' && address.get_char(1) == 's'
        && address.get_char(2) == ':' && address.get_char(3) == '/' && address.get_char(4) == '/' {
        scheme_len = 5;
    } else if n >= 6 && address.get_char(0) == 'w' && address.get_char(1) == 's'
        && address.get_char(2) == 's' && address.get_char(3) == ':' && address.get_char(4) == '/'
        && address.get_char(5) == '/' {
        scheme_len = 6;
    } else {
        return false;
    }
    if scheme_len >= n {
        return false;
    }
    if address.get_char(scheme_len) == '/' {
        return false;
    }
    let mut i: usize = scheme_len;
    while i < n
        invariant
            scheme_len <= i <= n,
            n == address@.len(),
            scheme_len == scheme_length(address@),
            forall|j: int| scheme_len <= j < i ==> address@[j] != ' ',
        decreases n - i,
    {
        if address.get_char(i) == ' ' {
            return false;
        }
        i = i + 1;
    }
    true
}

/// The host name is the placeholder used when there is no live page
/// location, i.e. during a pre-render pass with no browser.
pub open spec fn starts_with_localhost(h: Seq<char>) -> bool {
    h.len() >= 9 && h[0] == 'l' && h[1] == 'o' && h[2] == 'c' && h[3] == 'a' && h[4] == 'l'
        && h[5] == 'h' && h[6] == 'o' && h[7] == 's' && h[8] == 't'
}

/// The connection URL derived from a host name: plain `ws://` for a local
/// host, secure `wss://` otherwise, with the fixed `/ws/` path appended.
pub open spec fn url_for(h: Seq<char>) -> Seq<char> {
    (if starts_with_localhost(h) {
        "ws://"@
    } else {
        "wss://"@
    }) + h + "/ws/"@
}

/// Builds the connection URL for `hostname`: hosts that start with
/// `localhost` get the plain scheme, every other host the secure one, and
/// the `/ws/` endpoint path is appended.
pub fn build_url(hostname: &str) -> (url: String)
    ensures
        url@ == url_for(hostname@),
{
    let n = hostname.unicode_len();
    let local = n >= 9 && hostname.get_char(0) == 'l' && hostname.get_char(1) == 'o'
        && hostname.get_char(2) == 'c' && hostname.get_char(3) == 'a'
        && hostname.get_char(4) == 'l' && hostname.get_char(5) == 'h'
        && hostname.get_char(6) == 'o' && hostname.get_char(7) == 's'
        && hostname.get_char(8) == 't';
    let scheme = if local {
        String::from_str("ws://")
    } else {
        String::from_str("wss://")
    };
    let with_host = scheme.concat(hostname);
    with_host.concat("/ws/")
}

} // verus!
