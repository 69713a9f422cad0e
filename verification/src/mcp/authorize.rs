//! The authorization request: its query, the checks it must pass before a
//! code is issued, and where the user agent is sent afterwards.

use vstd::prelude::*;

use crate::mcp::{contains_text, string_views, ResolvedMcpOptions};
use crate::text::{
    ascii_lowercase, ascii_lowercase_chars, chars_eq, chars_of, join_strings, join_text, push_str,
    split_words, str_eq, words,
};

verus! {

/// The name/value pairs as character sequences.
pub open spec fn pair_views(q: Seq<(String, String)>) -> Seq<(Seq<char>, Seq<char>)> {
    q.map_values(|p: (String, String)| (p.0@, p.1@))
}

/// Name for what `form_urlencoded::parse` yields for the bytes of `query`:
/// the decoded name/value pairs, in order.
pub uninterp spec fn form_pairs_of(query: Seq<char>) -> Seq<(Seq<char>, Seq<char>)>;

/// `form_urlencoded::parse(query.as_bytes())`, each pair made owned. The
/// contract names the result; the decoding rules are not stated.
#[verifier::external_body]
fn form_pairs(query: &str) -> (r: Vec<(String, String)>)
    ensures
        pair_views(r@) == form_pairs_of(query@),
{
    let mut r = Vec::new();
    for (name, value) in url::form_urlencoded::parse(query.as_bytes()) {
        r.push((name.into_owned(), value.into_owned()));
    }
    r
}

/// The value of `key`: that of its last pair, as a map collected from the
/// pairs keeps it.
pub open spec fn query_value(q: Seq<(Seq<char>, Seq<char>)>, key: Seq<char>) -> Option<Seq<char>>
    decreases q.len(),
{
    if q.len() == 0 {
        None
    } else if q.last().0 == key {
        Some(q.last().1)
    } else {
        query_value(q.drop_last(), key)
    }
}

/// The query of an authorization request, decoded.
#[derive(Debug)]
pub struct AuthorizeQuery {
    pub pairs: Vec<(String, String)>,
}

impl AuthorizeQuery {
    /// The decoded pairs.
    pub open spec fn view_pairs(&self) -> Seq<(Seq<char>, Seq<char>)> {
        pair_views(self.pairs@)
    }

    /// The value of `key`.
    pub open spec fn value(&self, key: Seq<char>) -> Option<Seq<char>> {
        query_value(self.view_pairs(), key)
    }

    /// Decodes a query string.
    pub fn parse(query: &str) -> (q: Self)
        ensures
            q.view_pairs() == form_pairs_of(query@),
    {
        AuthorizeQuery { pairs: form_pairs(query) }
    }

    /// The value of `key`, if the query has one.
    pub fn get(&self, key: &str) -> (r: Option<String>)
        ensures
            match r {
                Some(v) => self.value(key@) == Some(v@),
                None => self.value(key@) is None,
            },
    {
        let mut i: usize = self.pairs.len();
        assert(self.view_pairs().take(i as int) =~= self.view_pairs());
        while i > 0
            invariant
                i <= self.pairs.len(),
                query_value(self.view_pairs(), key@) == query_value(
                    self.view_pairs().take(i as int),
                    key@,
                ),
            decreases i,
        {
            let ghost t = self.view_pairs().take(i as int);
            assert(t.drop_last() =~= self.view_pairs().take(i as int - 1));
            assert(t.last() == (self.pairs@[i - 1].0@, self.pairs@[i - 1].1@));
            if str_eq(self.pairs[i - 1].0.as_str(), key) {
                let c = chars_of(self.pairs[i - 1].1.as_str());
                return Some(crate::text::string_of(&c));
            }
            i -= 1;
        }
        None
    }
}

/// A registered client, as the authorization step reads it.
#[derive(Debug)]
pub struct OAuthClientRecord {
    pub client_id: String,
    pub redirect_urls: Vec<String>,
    pub disabled: bool,
}

/// What the authorization step settles, before a code exists.
#[derive(Debug)]
pub struct AuthorizationGrant {
    pub client_id: String,
    pub redirect_uri: String,
    pub scopes: Vec<String>,
    pub require_consent: bool,
    pub state: Option<String>,
    pub code_challenge: Option<String>,
    pub code_challenge_method: String,
    pub nonce: Option<String>,
}

/// The answer of the authorization step.
#[derive(Debug)]
pub enum AuthorizeOutcome {
    /// Send the user agent to this URL.
    Redirect(String),
    /// Send the user agent to `base` with an OAuth error and description.
    ErrorRedirect { base: String, error: String, description: String },
    /// Answer 400 with an OAuth error and description.
    BadRequest { error: String, description: String },
    /// Issue a code for this grant.
    Grant(AuthorizationGrant),
}

/// A grant as plain values.
pub struct GrantView {
    pub client_id: Seq<char>,
    pub redirect_uri: Seq<char>,
    pub scopes: Seq<Seq<char>>,
    pub require_consent: bool,
    pub state: Option<Seq<char>>,
    pub code_challenge: Option<Seq<char>>,
    pub code_challenge_method: Seq<char>,
    pub nonce: Option<Seq<char>>,
}

/// An answer as plain values.
pub enum AuthorizeVerdict {
    Redirect(Seq<char>),
    ErrorRedirect(Seq<char>, Seq<char>, Seq<char>),
    BadRequest(Seq<char>, Seq<char>),
    Grant(GrantView),
}

/// The characters of an optional string.
pub open spec fn opt_view(o: Option<String>) -> Option<Seq<char>> {
    match o {
        Some(s) => Some(s@),
        None => None,
    }
}

impl View for AuthorizationGrant {
    type V = GrantView;

    open spec fn view(&self) -> GrantView {
        GrantView {
            client_id: self.client_id@,
            redirect_uri: self.redirect_uri@,
            scopes: string_views(self.scopes@),
            require_consent: self.require_consent,
            state: opt_view(self.state),
            code_challenge: opt_view(self.code_challenge),
            code_challenge_method: self.code_challenge_method@,
            nonce: opt_view(self.nonce),
        }
    }
}

impl View for AuthorizeOutcome {
    type V = AuthorizeVerdict;

    open spec fn view(&self) -> AuthorizeVerdict {
        match self {
            AuthorizeOutcome::Redirect(t) => AuthorizeVerdict::Redirect(t@),
            AuthorizeOutcome::ErrorRedirect { base, error, description } => AuthorizeVerdict::ErrorRedirect(
                base@,
                error@,
                description@,
            ),
            AuthorizeOutcome::BadRequest { error, description } => AuthorizeVerdict::BadRequest(
                error@,
                description@,
            ),
            AuthorizeOutcome::Grant(g) => AuthorizeVerdict::Grant(g@),
        }
    }
}

/// A client as plain values: its id, redirect URLs and whether it is
/// disabled.
pub open spec fn client_view(c: OAuthClientRecord) -> (Seq<char>, Seq<Seq<char>>, bool) {
    (c.client_id@, string_views(c.redirect_urls@), c.disabled)
}

/// The login page, with the request's query where it had one.
pub open spec fn login_target(login_page: Seq<char>, raw_query: Option<Seq<char>>) -> Seq<char> {
    match raw_query {
        Some(q) => login_page + "?"@ + q,
        None => login_page,
    }
}

/// The error page with an error code.
pub open spec fn error_page(error_url: Seq<char>, code: Seq<char>) -> Seq<char> {
    error_url + "?error="@ + code
}

/// The checks made before the client is looked up: a session, a client id
/// and a response type. `Ok` carries the client id.
pub open spec fn precheck_verdict(
    has_session: bool,
    raw_query: Option<Seq<char>>,
    login_page: Seq<char>,
    error_url: Seq<char>,
    q: Seq<(Seq<char>, Seq<char>)>,
) -> Result<Seq<char>, AuthorizeVerdict> {
    if !has_session {
        Err(AuthorizeVerdict::Redirect(login_target(login_page, raw_query)))
    } else {
        match query_value(q, "client_id"@) {
            None => Err(AuthorizeVerdict::Redirect(error_page(error_url, "invalid_client"@))),
            Some(id) => if query_value(q, "response_type"@) is None {
                Err(
                    AuthorizeVerdict::ErrorRedirect(
                        error_url,
                        "invalid_request"@,
                        "response_type is required"@,
                    ),
                )
            } else {
                Ok(id)
            },
        }
    }
}

/// The scopes asked for: the words of `scope`, or `openid` alone.
pub open spec fn requested_scopes(q: Seq<(Seq<char>, Seq<char>)>) -> Seq<Seq<char>> {
    match query_value(q, "scope"@) {
        Some(s) => words(s),
        None => seq!["openid"@],
    }
}

/// The requested scopes that are not offered, in order.
pub open spec fn unknown_scopes(requested: Seq<Seq<char>>, offered: Seq<Seq<char>>) -> Seq<Seq<char>>
    decreases requested.len(),
{
    if requested.len() == 0 {
        Seq::empty()
    } else {
        let init = unknown_scopes(requested.drop_last(), offered);
        if offered.contains(requested.last()) {
            init
        } else {
            init.push(requested.last())
        }
    }
}

/// The code-challenge method as stored: the one given, else `plain`.
pub open spec fn challenge_method(q: Seq<(Seq<char>, Seq<char>)>) -> Seq<char> {
    match query_value(q, "code_challenge_method"@) {
        Some(m) => m,
        None => "plain"@,
    }
}

/// Whether the method is accepted: `s256` in any ASCII case, or `plain`
/// where the settings allow it.
pub open spec fn method_allowed(method: Seq<char>, allow_plain: bool) -> bool {
    ascii_lowercase(method) == "s256"@ || (allow_plain && ascii_lowercase(method) == "plain"@)
}

/// The checks made once the client has been looked up, in order, and the
/// grant where all pass.
pub open spec fn decide_verdict(
    offered: Seq<Seq<char>>,
    allow_plain: bool,
    require_pkce: bool,
    error_url: Seq<char>,
    q: Seq<(Seq<char>, Seq<char>)>,
    client: Option<(Seq<char>, Seq<Seq<char>>, bool)>,
) -> AuthorizeVerdict {
    match client {
        None => AuthorizeVerdict::Redirect(error_page(error_url, "invalid_client"@)),
        Some((client_id, redirect_urls, disabled)) => match query_value(q, "redirect_uri"@) {
            None => AuthorizeVerdict::BadRequest("invalid_request"@, "redirect_uri is required"@),
            Some(uri) => {
                let scopes = requested_scopes(q);
                let unknown = unknown_scopes(scopes, offered);
                if !redirect_urls.contains(uri) {
                    AuthorizeVerdict::BadRequest("invalid_request"@, "Invalid redirect URI"@)
                } else if disabled {
                    AuthorizeVerdict::Redirect(error_page(error_url, "client_disabled"@))
                } else if query_value(q, "response_type"@) != Some("code"@) {
                    AuthorizeVerdict::Redirect(error_page(error_url, "unsupported_response_type"@))
                } else if unknown.len() > 0 {
                    AuthorizeVerdict::ErrorRedirect(
                        uri,
                        "invalid_scope"@,
                        "The following scopes are invalid: "@ + join_text(unknown, ", "@),
                    )
                } else if require_pkce && (query_value(q, "code_challenge"@) is None || query_value(
                    q,
                    "code_challenge_method"@,
                ) is None) {
                    AuthorizeVerdict::ErrorRedirect(uri, "invalid_request"@, "pkce is required"@)
                } else if !method_allowed(challenge_method(q), allow_plain) {
                    AuthorizeVerdict::ErrorRedirect(
                        uri,
                        "invalid_request"@,
                        "invalid code_challenge method"@,
                    )
                } else {
                    AuthorizeVerdict::Grant(
                        GrantView {
                            client_id,
                            redirect_uri: uri,
                            scopes,
                            require_consent: query_value(q, "prompt"@) == Some("consent"@),
                            state: query_value(q, "state"@),
                            code_challenge: query_value(q, "code_challenge"@),
                            code_challenge_method: challenge_method(q),
                            nonce: query_value(q, "nonce"@),
                        },
                    )
                }
            },
        },
    }
}

/// `a` followed by `b` and `c`.
fn concat3(a: &str, b: &str, c: &str) -> (r: String)
    ensures
        r@ == a@ + b@ + c@,
{
    let mut r = String::new();
    push_str(&mut r, a);
    push_str(&mut r, b);
    push_str(&mut r, c);
    assert(r@ =~= a@ + b@ + c@);
    r
}

/// The URL of the error page: base URL, base path, then `/error`.
pub fn error_page_url(base_url: &str, base_path: &str) -> (r: String)
    ensures
        r@ == base_url@ + base_path@ + "/error"@,
{
    concat3(base_url, base_path, "/error")
}

/// The checks made before the client is looked up. `Ok` carries the client
/// id to look up.
pub fn authorize_precheck(
    has_session: bool,
    raw_query: Option<&str>,
    login_page: &str,
    error_url: &str,
    query: &AuthorizeQuery,
) -> (r: Result<String, AuthorizeOutcome>)
    ensures
        match precheck_verdict(
            has_session,
            match raw_query {
                Some(s) => Some(s@),
                None => None,
            },
            login_page@,
            error_url@,
            query.view_pairs(),
        ) {
            Ok(id) => r matches Ok(c) && c@ == id,
            Err(v) => r matches Err(o) && o@ == v,
        },
{
    if !has_session {
        let target = match raw_query {
            Some(q) => concat3(login_page, "?", q),
            None => concat3(login_page, "", ""),
        };
        proof {
            reveal_strlit("");
            reveal_strlit("?");
        }
        return Err(AuthorizeOutcome::Redirect(target));
    }
    let client_id = match query.get("client_id") {
        Some(id) => id,
        None => {
            proof {
                reveal_strlit("?error=");
            }
            return Err(AuthorizeOutcome::Redirect(concat3(error_url, "?error=", "invalid_client")));
        },
    };
    proof {
        reveal_strlit("");
    }
    if query.get("response_type").is_none() {
        return Err(
            AuthorizeOutcome::ErrorRedirect {
                base: concat3(error_url, "", ""),
                error: "invalid_request".to_owned(),
                description: "response_type is required".to_owned(),
            },
        );
    }
    Ok(client_id)
}

/// The requested scopes that `offered` does not hold, in order.
fn scopes_not_offered(requested: &Vec<String>, offered: &Vec<String>) -> (r: Vec<String>)
    ensures
        string_views(r@) == unknown_scopes(string_views(requested@), string_views(offered@)),
{
    let mut r: Vec<String> = Vec::new();
    let mut i: usize = 0;
    while i < requested.len()
        invariant
            i <= requested.len(),
            string_views(r@) == unknown_scopes(
                string_views(requested@).take(i as int),
                string_views(offered@),
            ),
        decreases requested.len() - i,
    {
        let ghost t = string_views(requested@).take(i as int + 1);
        assert(t.drop_last() =~= string_views(requested@).take(i as int));
        assert(t.last() == requested@[i as int]@);
        if !contains_text(offered, requested[i].as_str()) {
            let ghost before = r@;
            let c = chars_of(requested[i].as_str());
            r.push(crate::text::string_of(&c));
            assert(string_views(r@) =~= string_views(before).push(requested@[i as int]@));
        }
        i += 1;
    }
    assert(string_views(requested@).take(requested.len() as int) =~= string_views(requested@));
    r
}

/// Whether the lowered method is `s256`, or `plain` where allowed.
fn challenge_method_allowed(method: &str, allow_plain: bool) -> (r: bool)
    ensures
        r == method_allowed(method@, allow_plain),
{
    let m = chars_of(method);
    let lowered = ascii_lowercase_chars(&m);
    let s256 = chars_of("s256");
    let plain = chars_of("plain");
    chars_eq(&lowered, &s256) || (allow_plain && chars_eq(&lowered, &plain))
}

/// The checks made once the client has been looked up, and the grant where
/// all pass.
pub fn authorize_decide(
    options: &ResolvedMcpOptions,
    error_url: &str,
    query: &AuthorizeQuery,
    client: Option<&OAuthClientRecord>,
) -> (r: AuthorizeOutcome)
    ensures
        r@ == decide_verdict(
            string_views(options.scopes@),
            options.allow_plain_code_challenge_method,
            options.require_pkce,
            error_url@,
            query.view_pairs(),
            match client {
                Some(c) => Some(client_view(*c)),
                None => None,
            },
        ),
{
    proof {
        reveal_strlit("?error=");
    }
    let c = match client {
        Some(c) => c,
        None => return AuthorizeOutcome::Redirect(concat3(error_url, "?error=", "invalid_client")),
    };
    let uri = match query.get("redirect_uri") {
        Some(u) => u,
        None => {
            return AuthorizeOutcome::BadRequest {
                error: "invalid_request".to_owned(),
                description: "redirect_uri is required".to_owned(),
            };
        },
    };
    if !contains_text(&c.redirect_urls, uri.as_str()) {
        return AuthorizeOutcome::BadRequest {
            error: "invalid_request".to_owned(),
            description: "Invalid redirect URI".to_owned(),
        };
    }
    if c.disabled {
        return AuthorizeOutcome::Redirect(concat3(error_url, "?error=", "client_disabled"));
    }
    let response_type_is_code = match query.get("response_type") {
        Some(t) => str_eq(t.as_str(), "code"),
        None => false,
    };
    if !response_type_is_code {
        return AuthorizeOutcome::Redirect(
            concat3(error_url, "?error=", "unsupported_response_type"),
        );
    }
    let scopes = match query.get("scope") {
        Some(s) => split_words(s.as_str()),
        None => {
            let mut v: Vec<String> = Vec::new();
            v.push("openid".to_owned());
            assert(string_views(v@) =~= seq!["openid"@]);
            v
        },
    };
    let unknown = scopes_not_offered(&scopes, &options.scopes);
    if unknown.len() > 0 {
        let listed = join_strings(&unknown, ", ");
        let description = concat3("The following scopes are invalid: ", listed.as_str(), "");
        proof {
            reveal_strlit("");
        }
        return AuthorizeOutcome::ErrorRedirect {
            base: uri,
            error: "invalid_scope".to_owned(),
            description,
        };
    }
    let challenge = query.get("code_challenge");
    let method_given = query.get("code_challenge_method");
    if options.require_pkce && (challenge.is_none() || method_given.is_none()) {
        return AuthorizeOutcome::ErrorRedirect {
            base: uri,
            error: "invalid_request".to_owned(),
            description: "pkce is required".to_owned(),
        };
    }
    let method = match method_given {
        Some(m) => m,
        None => "plain".to_owned(),
    };
    if !challenge_method_allowed(method.as_str(), options.allow_plain_code_challenge_method) {
        return AuthorizeOutcome::ErrorRedirect {
            base: uri,
            error: "invalid_request".to_owned(),
            description: "invalid code_challenge method".to_owned(),
        };
    }
    let require_consent = match query.get("prompt") {
        Some(p) => str_eq(p.as_str(), "consent"),
        None => false,
    };
    let id_chars = chars_of(c.client_id.as_str());
    AuthorizeOutcome::Grant(
        AuthorizationGrant {
            client_id: crate::text::string_of(&id_chars),
            redirect_uri: uri,
            scopes,
            require_consent,
            state: query.get("state"),
            code_challenge: challenge,
            code_challenge_method: method,
            nonce: query.get("nonce"),
        },
    )
}

/// Every requested scope is offered when none is unknown.
proof fn lemma_no_unknown_scopes(requested: Seq<Seq<char>>, offered: Seq<Seq<char>>)
    requires
        unknown_scopes(requested, offered).len() == 0,
    ensures
        forall|i: int| 0 <= i < requested.len() ==> offered.contains(#[trigger] requested[i]),
    decreases requested.len(),
{
    if requested.len() > 0 {
        let init = unknown_scopes(requested.drop_last(), offered);
        if !offered.contains(requested.last()) {
            assert(unknown_scopes(requested, offered) == init.push(requested.last()));
        }
        lemma_no_unknown_scopes(requested.drop_last(), offered);
        assert forall|i: int| 0 <= i < requested.len() implies offered.contains(#[trigger] requested[i]) by {
            if i < requested.len() - 1 {
                assert(requested[i] == requested.drop_last()[i]);
            }
        }
    }
}

/// A code is granted only to a known, enabled client, for one of its
/// registered redirect URIs, with the `code` response type, for offered
/// scopes only, with a code challenge where PKCE is required, and with an
/// accepted challenge method.
pub proof fn law_granted_authorization_is_valid(
    offered: Seq<Seq<char>>,
    allow_plain: bool,
    require_pkce: bool,
    error_url: Seq<char>,
    q: Seq<(Seq<char>, Seq<char>)>,
    client: Option<(Seq<char>, Seq<Seq<char>>, bool)>,
)
    requires
        decide_verdict(offered, allow_plain, require_pkce, error_url, q, client) is Grant,
    ensures
        ({
            let g = decide_verdict(offered, allow_plain, require_pkce, error_url, q, client)->Grant_0;
            &&& client matches Some((id, urls, disabled)) && !disabled && g.client_id == id
                && urls.contains(g.redirect_uri)
            &&& query_value(q, "response_type"@) == Some("code"@)
            &&& forall|i: int| 0 <= i < g.scopes.len() ==> offered.contains(#[trigger] g.scopes[i])
            &&& require_pkce ==> g.code_challenge is Some
            &&& method_allowed(g.code_challenge_method, allow_plain)
        }),
{
    let scopes = requested_scopes(q);
    if unknown_scopes(scopes, offered).len() == 0 {
        lemma_no_unknown_scopes(scopes, offered);
    }
}

/// Declares `url::ParseError`, the refusal of `url::Url::parse`.
#[verifier::external_type_specification]
#[verifier::external_body]
pub struct ExUrlParseError(url::ParseError);

/// Name for the text of the URL that `url::Url::parse(url)` gives after each
/// pair is appended with `query_pairs_mut().append_pair`: `None` where
/// parsing fails.
pub uninterp spec fn url_with_pairs_of(url: Seq<char>, pairs: Seq<(Seq<char>, Seq<char>)>) -> Option<Seq<char>>;

/// `url::Url::parse(url)`, then `query_pairs_mut().append_pair(name, value)`
/// for each pair in order, then `as_str()`. The contract names the result;
/// the parsing and encoding rules are not stated.
#[verifier::external_body]
fn url_with_pairs(url: &str, pairs: &Vec<(String, String)>) -> (r: Result<String, url::ParseError>)
    ensures
        match r {
            Ok(s) => url_with_pairs_of(url@, pair_views(pairs@)) == Some(s@),
            Err(_) => url_with_pairs_of(url@, pair_views(pairs@)) is None,
        },
{
    let mut u = url::Url::parse(url)?;
    for (name, value) in pairs.iter() {
        u.query_pairs_mut().append_pair(name, value);
    }
    Ok(u.as_str().to_owned())
}

/// The consent page with the code, the client and the scopes.
pub open spec fn consent_target(page: Seq<char>, code: Seq<char>, client_id: Seq<char>, scopes: Seq<Seq<char>>) -> Seq<char> {
    page + "?consent_code="@ + code + "&client_id="@ + client_id + "&scope="@ + join_text(scopes, " "@)
}

/// The pairs added to the client's redirect URI: the code, then the state
/// where the request had one.
pub open spec fn code_pairs(code: Seq<char>, state: Option<Seq<char>>) -> Seq<(Seq<char>, Seq<char>)> {
    match state {
        Some(s) => seq![("code"@, code), ("state"@, s)],
        None => seq![("code"@, code)],
    }
}

/// Whether the user agent goes to the consent page: consent was asked for
/// and a consent page is set.
pub open spec fn goes_to_consent(grant: GrantView, consent_page: Option<Seq<char>>) -> bool {
    grant.require_consent && consent_page is Some
}

/// The id under which the code is stored: `mcp_code_` and the code.
pub fn code_record_id(code: &str) -> (r: String)
    ensures
        r@ == "mcp_code_"@ + code@,
{
    proof {
        reveal_strlit("");
    }
    concat3("mcp_code_", code, "")
}

/// What is stored for an issued code: its id (`mcp_code_` and the code),
/// the code as identifier, its expiry (Unix seconds), and the grant with the
/// user and the time the user signed in.
#[derive(Debug)]
pub struct AuthorizationCodeRecord {
    pub id: String,
    pub identifier: String,
    pub expires_at: i64,
    pub grant: AuthorizationGrant,
    pub user_id: String,
    pub auth_time: i64,
}

/// When a code issued at `now` (Unix seconds) expires: `code_expires_in`
/// seconds later, the lifetime read as a signed number of seconds.
pub open spec fn code_expiry(code_expires_in: u64, now: i64) -> int {
    now + (code_expires_in as i64)
}

/// The record stored for `code`, issued at `now` for the grant and the
/// signed-in user.
pub fn code_record(
    options: &ResolvedMcpOptions,
    grant: AuthorizationGrant,
    code: &str,
    user_id: String,
    auth_time: i64,
    now: i64,
) -> (r: AuthorizationCodeRecord)
    requires
        i64::MIN <= code_expiry(options.code_expires_in, now) <= i64::MAX,
    ensures
        r.id@ == "mcp_code_"@ + code@,
        r.identifier@ == code@,
        r.expires_at == code_expiry(options.code_expires_in, now),
        r.grant@ == grant@,
        r.user_id == user_id,
        r.auth_time == auth_time,
{
    let lifetime = options.code_expires_in as i64;
    AuthorizationCodeRecord {
        id: code_record_id(code),
        identifier: code.to_owned(),
        expires_at: now + lifetime,
        grant,
        user_id,
        auth_time,
    }
}

/// Where the user agent goes once the code is stored: the consent page, or
/// the client's redirect URI with the code (and state) added. Fails where
/// the redirect URI does not parse.
pub fn authorize_redirect(options: &ResolvedMcpOptions, grant: &AuthorizationGrant, code: &str) -> (r: Result<String, url::ParseError>)
    ensures
        goes_to_consent(grant@, opt_view(options.consent_page)) ==> (r matches Ok(t) && t@
            == consent_target(
            opt_view(options.consent_page)->0,
            code@,
            grant.client_id@,
            string_views(grant.scopes@),
        )),
        !goes_to_consent(grant@, opt_view(options.consent_page)) ==> match r {
            Ok(t) => url_with_pairs_of(grant.redirect_uri@, code_pairs(code@, opt_view(grant.state)))
                == Some(t@),
            Err(_) => url_with_pairs_of(
                grant.redirect_uri@,
                code_pairs(code@, opt_view(grant.state)),
            ) is None,
        },
{
    if grant.require_consent {
        if let Some(page) = &options.consent_page {
            let mut t = String::new();
            push_str(&mut t, page.as_str());
            push_str(&mut t, "?consent_code=");
            push_str(&mut t, code);
            push_str(&mut t, "&client_id=");
            push_str(&mut t, grant.client_id.as_str());
            push_str(&mut t, "&scope=");
            let scopes = join_strings(&grant.scopes, " ");
            push_str(&mut t, scopes.as_str());
            assert(t@ =~= consent_target(page@, code@, grant.client_id@, string_views(grant.scopes@)));
            return Ok(t);
        }
    }
    let mut pairs: Vec<(String, String)> = Vec::new();
    pairs.push(("code".to_owned(), code.to_owned()));
    match &grant.state {
        Some(st) => {
            let c = chars_of(st.as_str());
            pairs.push(("state".to_owned(), crate::text::string_of(&c)));
        },
        None => {},
    }
    assert(pair_views(pairs@) =~= code_pairs(code@, opt_view(grant.state)));
    url_with_pairs(grant.redirect_uri.as_str(), &pairs)
}

} // verus!
