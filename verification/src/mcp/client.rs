//! Helpers for MCP resource servers: the `WWW-Authenticate` challenge, the
//! unauthorized and CORS pre-flight responses, and the bearer token of a
//! request.

use vstd::prelude::*;

use crate::mcp::origin::{opt_chars, origin_of, url_origin};
use crate::response::{
    header_value_accepts, header_value_text, header_views, ResponseError, ResponseParts,
};
use crate::text::{
    chars_of, lemma_trim_end_matching_ends_otherwise, push_str, starts_with_chars, string_of,
    string_of_range, trim_end_matching, trim_end_matching_chars,
};

verus! {

/// Settings of the resource-server client.
#[derive(Debug)]
pub struct McpAuthClientOptions {
    pub auth_url: String,
    pub resource: Option<String>,
}

/// The resource-server client: the authorization server's URL without
/// trailing slashes, and the optional resource identifier.
#[derive(Debug)]
pub struct McpAuthClient {
    auth_url: String,
    resource: Option<String>,
}

/// `Bearer resource_metadata="<base>/.well-known/oauth-protected-resource"`.
pub open spec fn www_authenticate_text(base: Seq<char>) -> Seq<char> {
    "Bearer resource_metadata=\""@ + base + "/.well-known/oauth-protected-resource\""@
}

/// The origin announced to browsers: that of the authorization server where
/// it has one that is a valid header value, else `*`.
pub open spec fn allowed_origin_text(auth_url: Seq<char>) -> Seq<char> {
    match origin_of(auth_url) {
        Some(o) => if header_value_text(o) {
            o
        } else {
            "*"@
        },
        None => "*"@,
    }
}

/// The headers of the CORS pre-flight answer.
pub open spec fn cors_headers(origin: Seq<char>) -> Seq<(Seq<char>, Seq<char>)> {
    seq![
        ("access-control-allow-origin"@, origin),
        ("access-control-allow-methods"@, "GET, POST, OPTIONS"@),
        ("access-control-allow-headers"@, "Content-Type, Authorization"@),
        ("access-control-max-age"@, "86400"@),
    ]
}

/// The lower-case hexadecimal digit of `d < 16`.
pub open spec fn hex_digit(d: nat) -> char {
    if d < 10 {
        (d + 48) as char
    } else {
        (d + 87) as char
    }
}

/// How `serde_json` writes one character inside a string literal: `"` and
/// `\` behind a backslash; backspace, tab, line feed, form feed and
/// carriage return as `\b`, `\t`, `\n`, `\f`, `\r`; any other
/// character below U+0020 as `\u00` and two lower-case hex digits; every
/// other character as itself.
pub open spec fn json_char_escape(c: char) -> Seq<char> {
    if c == '"' {
        seq!['\\', '"']
    } else if c == '\\' {
        seq!['\\', '\\']
    } else if c == '\u{8}' {
        seq!['\\', 'b']
    } else if c == '\u{9}' {
        seq!['\\', 't']
    } else if c == '\u{a}' {
        seq!['\\', 'n']
    } else if c == '\u{c}' {
        seq!['\\', 'f']
    } else if c == '\u{d}' {
        seq!['\\', 'r']
    } else if (c as u32) < 0x20 {
        seq!['\\', 'u', '0', '0', hex_digit((c as nat) / 16), hex_digit((c as nat) % 16)]
    } else {
        seq![c]
    }
}

/// The characters of `s`, each written as `json_char_escape` writes it.
pub open spec fn json_escaped(s: Seq<char>) -> Seq<char>
    decreases s.len(),
{
    if s.len() == 0 {
        Seq::empty()
    } else {
        json_escaped(s.drop_last()) + json_char_escape(s.last())
    }
}

/// The JSON string literal of `s`: `"`, the escaped characters, `"`.
pub open spec fn json_string_literal_of(s: Seq<char>) -> Seq<char> {
    seq!['"'] + json_escaped(s) + seq!['"']
}

/// `serde_json::to_string(s)` on a string, which cannot fail: the JSON
/// literal of `s`, as `format_escaped_str` writes it with the compact
/// formatter.
#[verifier::external_body]
fn json_string_literal(s: &str) -> (r: String)
    ensures
        r@ == json_string_literal_of(s@),
{
    serde_json::to_string(s).unwrap_or_default()
}

/// The JSON-RPC error object sent with a 401, around the challenge's literal.
pub open spec fn unauthorized_json(challenge: Seq<char>) -> Seq<char> {
    "{\"jsonrpc\":\"2.0\",\"error\":{\"code\":-32000,\"message\":\"Unauthorized: Authentication required\",\"www-authenticate\":"@
        + json_string_literal_of(challenge) + "},\"id\":null}"@
}

/// Whether `b` is a visible ASCII byte, a space or a tab, as
/// `HeaderValue::to_str` requires of every byte.
pub open spec fn visible_ascii(b: u8) -> bool {
    (32 <= b && b < 127) || b == 9
}

/// The bytes read as characters, one each.
pub open spec fn ascii_text(b: Seq<u8>) -> Seq<char> {
    b.map_values(|x: u8| x as char)
}

/// The token of an `Authorization` header: the header must be visible ASCII
/// and start with `Bearer `; the token is the rest.
pub open spec fn bearer_token_of(header: Option<Seq<u8>>) -> Option<Seq<char>> {
    match header {
        Some(b) => {
            let t = ascii_text(b);
            if (forall|i: int| 0 <= i < b.len() ==> visible_ascii(#[trigger] b[i])) && t.len() >= 7
                && t.take(7) == "Bearer "@ {
                Some(t.skip(7))
            } else {
                None
            }
        },
        None => None,
    }
}

/// The bearer token of a request, given its `Authorization` header's
/// bytes where it has one.
pub fn bearer_token_from_header(authorization: Option<&[u8]>) -> (r: Option<String>)
    ensures
        opt_chars(r) == bearer_token_of(
            match authorization {
                Some(b) => Some(b@),
                None => None,
            },
        ),
{
    match authorization {
        None => None,
        Some(bytes) => {
            let mut text: Vec<char> = Vec::new();
            let mut i: usize = 0;
            while i < bytes.len()
                invariant
                    i <= bytes.len(),
                    authorization == Some(bytes),
                    text@ == ascii_text(bytes@.take(i as int)),
                    forall|j: int| 0 <= j < i ==> visible_ascii(#[trigger] bytes@[j]),
                decreases bytes.len() - i,
            {
                let b = bytes[i];
                if !((32 <= b && b < 127) || b == 9) {
                    assert(!visible_ascii(bytes@[i as int]));
                    return None;
                }
                text.push(b as char);
                assert(ascii_text(bytes@.take(i as int + 1)) =~= ascii_text(
                    bytes@.take(i as int),
                ).push(b as char));
                i += 1;
            }
            assert(bytes@.take(bytes.len() as int) =~= bytes@);
            let prefix = chars_of("Bearer ");
            proof {
                reveal_strlit("Bearer ");
            }
            if text.len() >= 7 && starts_with_chars(&text, &prefix) {
                let token = string_of_range(&text, 7, text.len());
                assert(text@.take(7) =~= prefix@);
                assert(text@.subrange(7, text.len() as int) =~= text@.skip(7));
                Some(token)
            } else {
                None
            }
        },
    }
}

/// The bytes of `Bearer `.
pub open spec fn bearer_prefix() -> Seq<u8> {
    seq![66u8, 101u8, 97u8, 114u8, 101u8, 114u8, 32u8]
}

/// A header made of `Bearer ` and a token of visible ASCII characters
/// gives that token back.
pub proof fn law_bearer_token_reads_back(token: Seq<u8>)
    requires
        forall|i: int| 0 <= i < token.len() ==> visible_ascii(#[trigger] token[i]),
    ensures
        bearer_token_of(Some(bearer_prefix() + token)) == Some(ascii_text(token)),
{
    reveal_strlit("Bearer ");
    let h = bearer_prefix() + token;
    assert forall|i: int| 0 <= i < h.len() implies visible_ascii(#[trigger] h[i]) by {
        if i >= 7 {
            assert(h[i] == token[i - 7]);
        }
    }
    let t = ascii_text(h);
    assert(t.take(7) =~= "Bearer "@);
    assert(t.skip(7) =~= ascii_text(token));
}

impl McpAuthClient {
    /// The authorization server's URL, as kept.
    pub closed spec fn auth_url_view(&self) -> Seq<char> {
        self.auth_url@
    }

    /// The resource identifier, as kept.
    pub closed spec fn resource_view(&self) -> Option<Seq<char>> {
        opt_chars(self.resource)
    }

    /// The base of the metadata URL: the resource where one is set, else the
    /// authorization server's URL.
    pub open spec fn metadata_base(&self) -> Seq<char> {
        match self.resource_view() {
            Some(r) => r,
            None => self.auth_url_view(),
        }
    }

    /// A client for the given settings; trailing slashes of the URL are
    /// dropped.
    pub fn new(options: McpAuthClientOptions) -> (c: Self)
        ensures
            c.auth_url_view() == trim_end_matching(options.auth_url@, '/'),
            c.auth_url_view().len() == 0 || c.auth_url_view().last() != '/',
            c.resource_view() == opt_chars(options.resource),
    {
        proof {
            lemma_trim_end_matching_ends_otherwise(options.auth_url@, '/');
        }
        let chars = chars_of(options.auth_url.as_str());
        let trimmed = trim_end_matching_chars(&chars, '/');
        McpAuthClient { auth_url: string_of(&trimmed), resource: options.resource }
    }

    /// The `WWW-Authenticate` challenge that points at the protected-resource
    /// metadata.
    pub fn www_authenticate(&self) -> (r: String)
        ensures
            r@ == www_authenticate_text(self.metadata_base()),
    {
        let mut out = String::new();
        push_str(&mut out, "Bearer resource_metadata=\"");
        match &self.resource {
            Some(r) => push_str(&mut out, r.as_str()),
            None => push_str(&mut out, self.auth_url.as_str()),
        }
        push_str(&mut out, "/.well-known/oauth-protected-resource\"");
        assert(out@ =~= www_authenticate_text(self.metadata_base()));
        out
    }

    /// The 401 answer: JSON-RPC error body, `Content-Type` and the challenge.
    /// Fails where the challenge is not a valid header value.
    pub fn unauthorized_response(&self) -> (r: Result<ResponseParts, ResponseError>)
        ensures
            r is Err <==> !header_value_text(www_authenticate_text(self.metadata_base())),
            r matches Err(e) ==> e == ResponseError::InvalidHeaderValue,
            r matches Ok(p) ==> {
                &&& p.status == 401
                &&& header_views(p.headers@) == seq![
                    ("content-type"@, "application/json"@),
                    ("www-authenticate"@, www_authenticate_text(self.metadata_base())),
                ]
                &&& p.body@ == vstd::utf8::encode_utf8(
                    unauthorized_json(www_authenticate_text(self.metadata_base())),
                )
            },
    {
        let challenge = self.www_authenticate();
        if !header_value_accepts(challenge.as_str()) {
            return Err(ResponseError::InvalidHeaderValue);
        }
        let mut json = String::new();
        push_str(
            &mut json,
            "{\"jsonrpc\":\"2.0\",\"error\":{\"code\":-32000,\"message\":\"Unauthorized: Authentication required\",\"www-authenticate\":",
        );
        let literal = json_string_literal(challenge.as_str());
        push_str(&mut json, literal.as_str());
        push_str(&mut json, "},\"id\":null}");
        let body = vstd::slice::slice_to_vec(json.as_str().as_bytes());
        let mut headers: Vec<(String, String)> = Vec::new();
        headers.push(("content-type".to_owned(), "application/json".to_owned()));
        headers.push(("www-authenticate".to_owned(), challenge));
        proof {
            assert(json@ =~= unauthorized_json(www_authenticate_text(self.metadata_base())));
            assert(header_views(headers@) =~= seq![
                ("content-type"@, "application/json"@),
                ("www-authenticate"@, www_authenticate_text(self.metadata_base())),
            ]);
        }
        Ok(ResponseParts { status: 401, headers, body })
    }

    /// The answer to a CORS pre-flight request.
    pub fn cors_preflight_response(&self) -> (r: ResponseParts)
        ensures
            r.status == 204,
            header_views(r.headers@) == cors_headers(allowed_origin_text(self.auth_url_view())),
            r.body@.len() == 0,
    {
        let origin = self.allowed_origin();
        let mut headers: Vec<(String, String)> = Vec::new();
        headers.push(("access-control-allow-origin".to_owned(), origin));
        headers.push(("access-control-allow-methods".to_owned(), "GET, POST, OPTIONS".to_owned()));
        headers.push(
            ("access-control-allow-headers".to_owned(), "Content-Type, Authorization".to_owned()),
        );
        headers.push(("access-control-max-age".to_owned(), "86400".to_owned()));
        assert(header_views(headers@) =~= cors_headers(allowed_origin_text(self.auth_url_view())));
        ResponseParts { status: 204, headers, body: Vec::new() }
    }

    /// The bearer token of a request, given its `Authorization` header's
    /// bytes where it has one.
    pub fn bearer_token(&self, authorization: Option<&[u8]>) -> (r: Option<String>)
        ensures
            opt_chars(r) == bearer_token_of(
                match authorization {
                    Some(b) => Some(b@),
                    None => None,
                },
            ),
    {
        bearer_token_from_header(authorization)
    }

    /// The origin announced in CORS answers.
    fn allowed_origin(&self) -> (r: String)
        ensures
            r@ == allowed_origin_text(self.auth_url_view()),
    {
        match url_origin(self.auth_url.as_str()) {
            Some(o) => {
                if header_value_accepts(o.as_str()) {
                    o
                } else {
                    "*".to_owned()
                }
            },
            None => "*".to_owned(),
        }
    }
}

} // verus!
