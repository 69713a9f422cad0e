//! The origin (`scheme://host[:port]`) of a URL, read with the `url` crate.

use vstd::prelude::*;

use crate::text::{decimal, push_all, push_str, u32_to_decimal};

verus! {

/// Name for what `url::Url::parse` gives for `input`, read through
/// `scheme()`, `host_str()` and `port()`: `None` where parsing fails.
pub uninterp spec fn url_origin_parts_of(input: Seq<char>) -> Option<(Seq<char>, Option<Seq<char>>, Option<u16>)>;

/// The characters of an optional string.
pub open spec fn opt_chars(o: Option<String>) -> Option<Seq<char>> {
    match o {
        Some(s) => Some(s@),
        None => None,
    }
}

/// The parts as character sequences.
pub open spec fn parts_view(r: Option<(String, Option<String>, Option<u16>)>) -> Option<(Seq<char>, Option<Seq<char>>, Option<u16>)> {
    match r {
        Some(p) => Some((p.0@, opt_chars(p.1), p.2)),
        None => None,
    }
}

/// `url::Url::parse(input)`, then the scheme, the host as text and the
/// explicit non-default port. The contract names the result; the WHATWG
/// parsing rules themselves are not stated.
#[verifier::external_body]
fn parse_origin_parts(input: &str) -> (r: Option<(String, Option<String>, Option<u16>)>)
    ensures
        parts_view(r) == url_origin_parts_of(input@),
{
    match url::Url::parse(input) {
        Ok(u) => Some((u.scheme().to_owned(), u.host_str().map(str::to_owned), u.port())),
        Err(_) => None,
    }
}

/// `scheme://host`, then `:port` where a port is given.
pub open spec fn origin_text(scheme: Seq<char>, host: Seq<char>, port: Option<u16>) -> Seq<char> {
    let head = scheme + "://"@ + host;
    match port {
        Some(p) => head + ":"@ + decimal(p as nat),
        None => head,
    }
}

/// The origin of `input`: where it parses and has a host, its scheme, host
/// and port; otherwise nothing.
pub open spec fn origin_of(input: Seq<char>) -> Option<Seq<char>> {
    match url_origin_parts_of(input) {
        Some((scheme, Some(host), port)) => Some(origin_text(scheme, host, port)),
        _ => None,
    }
}

/// The origin of `input`, as `origin_of` states it.
pub fn url_origin(input: &str) -> (r: Option<String>)
    ensures
        opt_chars(r) == origin_of(input@),
{
    match parse_origin_parts(input) {
        Some((scheme, Some(host), port)) => {
            let mut out = scheme;
            push_str(&mut out, "://");
            push_str(&mut out, host.as_str());
            proof {
                reveal_strlit("://");
            }
            match port {
                Some(p) => {
                    push_str(&mut out, ":");
                    let digits = u32_to_decimal(p as u32);
                    push_all(&mut out, &digits);
                    proof {
                        reveal_strlit(":");
                    }
                },
                None => {},
            }
            Some(out)
        },
        _ => None,
    }
}

} // verus!
