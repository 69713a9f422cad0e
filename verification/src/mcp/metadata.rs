//! The discovery documents: OAuth authorization-server metadata and
//! protected-resource metadata.

use vstd::prelude::*;

use crate::mcp::origin::{opt_chars, origin_of, url_origin};
use crate::mcp::{string_views, ResolvedMcpOptions};
use crate::text::{chars_of, push_all, push_str, string_of, trim_end_matching, trim_end_matching_chars};

verus! {

/// The authorization server's metadata document.
#[derive(Debug)]
pub struct AuthorizationServerMetadata {
    pub issuer: String,
    pub authorization_endpoint: String,
    pub token_endpoint: String,
    pub userinfo_endpoint: String,
    pub jwks_uri: String,
    pub registration_endpoint: String,
    pub scopes_supported: Vec<String>,
    pub response_types_supported: Vec<String>,
    pub response_modes_supported: Vec<String>,
    pub grant_types_supported: Vec<String>,
    pub acr_values_supported: Vec<String>,
    pub subject_types_supported: Vec<String>,
    pub id_token_signing_alg_values_supported: Vec<String>,
    pub token_endpoint_auth_methods_supported: Vec<String>,
    pub code_challenge_methods_supported: Vec<String>,
    pub claims_supported: Vec<String>,
}

/// The protected resource's metadata document.
#[derive(Debug)]
pub struct ProtectedResourceMetadata {
    pub resource: String,
    pub authorization_servers: Vec<String>,
    pub jwks_uri: String,
    pub scopes_supported: Vec<String>,
    pub bearer_methods_supported: Vec<String>,
    pub resource_signing_alg_values_supported: Vec<String>,
}

/// The base of the plugin's endpoints: the base URL and the base path, each
/// without trailing slashes.
pub open spec fn auth_base_url_text(base_url: Seq<char>, base_path: Seq<char>) -> Seq<char> {
    trim_end_matching(base_url, '/') + trim_end_matching(base_path, '/')
}

/// The origin of the base URL; where it has none, the base URL without
/// trailing slashes.
pub open spec fn origin_from_base_url_text(base_url: Seq<char>) -> Seq<char> {
    match origin_of(base_url) {
        Some(o) => o,
        None => trim_end_matching(base_url, '/'),
    }
}

/// The string views of a list of literals.
pub open spec fn literal_views(items: Seq<&str>) -> Seq<Seq<char>> {
    items.map_values(|s: &str| s@)
}

/// The literals as owned strings.
fn owned_list(items: &[&str]) -> (r: Vec<String>)
    ensures
        string_views(r@) == literal_views(items@),
{
    let mut r: Vec<String> = Vec::new();
    let mut i: usize = 0;
    while i < items.len()
        invariant
            i <= items.len(),
            string_views(r@) == literal_views(items@.take(i as int)),
        decreases items.len() - i,
    {
        let ghost before = r@;
        r.push(items[i].to_owned());
        assert(string_views(r@) =~= string_views(before).push(items@[i as int]@));
        assert(literal_views(items@.take(i as int + 1)) =~= literal_views(items@.take(i as int)).push(
            items@[i as int]@,
        ));
        i += 1;
    }
    assert(items@.take(items.len() as int) =~= items@);
    r
}

/// A copy of a list of strings.
fn copy_list(items: &Vec<String>) -> (r: Vec<String>)
    ensures
        string_views(r@) == string_views(items@),
{
    let mut r: Vec<String> = Vec::new();
    let mut i: usize = 0;
    while i < items.len()
        invariant
            i <= items.len(),
            string_views(r@) == string_views(items@.take(i as int)),
        decreases items.len() - i,
    {
        let ghost before = r@;
        let c = chars_of(items[i].as_str());
        r.push(string_of(&c));
        assert(string_views(r@) =~= string_views(before).push(items@[i as int]@));
        assert(string_views(items@.take(i as int + 1)) =~= string_views(items@.take(i as int)).push(
            items@[i as int]@,
        ));
        i += 1;
    }
    assert(items@.take(items.len() as int) =~= items@);
    r
}

/// `base_url` and `base_path` joined, each without trailing slashes.
pub fn auth_base_url(base_url: &str, base_path: &str) -> (r: String)
    ensures
        r@ == auth_base_url_text(base_url@, base_path@),
{
    let url = chars_of(base_url);
    let path = chars_of(base_path);
    let a = trim_end_matching_chars(&url, '/');
    let b = trim_end_matching_chars(&path, '/');
    let mut r = string_of(&a);
    push_all(&mut r, &b);
    r
}

/// The origin of `base_url`, or the URL itself without trailing slashes.
pub fn origin_from_base_url(base_url: &str) -> (r: String)
    ensures
        r@ == origin_from_base_url_text(base_url@),
{
    match url_origin(base_url) {
        Some(o) => o,
        None => {
            let url = chars_of(base_url);
            let a = trim_end_matching_chars(&url, '/');
            string_of(&a)
        },
    }
}

/// `base` followed by `suffix`.
fn joined(base: &String, suffix: &str) -> (r: String)
    ensures
        r@ == base@ + suffix@,
{
    let c = chars_of(base.as_str());
    let mut r = string_of(&c);
    push_str(&mut r, suffix);
    r
}

/// The authorization-server metadata for a server at `base_url` with the
/// plugin under `base_path`.
pub fn authorization_server_metadata(base_url: &str, base_path: &str, options: &ResolvedMcpOptions) -> (m: AuthorizationServerMetadata)
    ensures
        m.issuer@ == base_url@,
        m.authorization_endpoint@ == auth_base_url_text(base_url@, base_path@) + "/mcp/authorize"@,
        m.token_endpoint@ == auth_base_url_text(base_url@, base_path@) + "/mcp/token"@,
        m.userinfo_endpoint@ == auth_base_url_text(base_url@, base_path@) + "/mcp/userinfo"@,
        m.jwks_uri@ == auth_base_url_text(base_url@, base_path@) + "/mcp/jwks"@,
        m.registration_endpoint@ == auth_base_url_text(base_url@, base_path@) + "/mcp/register"@,
        string_views(m.scopes_supported@) == string_views(options.scopes@),
        string_views(m.response_types_supported@) == seq!["code"@],
        string_views(m.response_modes_supported@) == seq!["query"@],
        string_views(m.grant_types_supported@) == seq!["authorization_code"@, "refresh_token"@],
        string_views(m.acr_values_supported@) == seq![
            "urn:mace:incommon:iap:silver"@,
            "urn:mace:incommon:iap:bronze"@,
        ],
        string_views(m.subject_types_supported@) == seq!["public"@],
        string_views(m.id_token_signing_alg_values_supported@) == seq!["HS256"@, "none"@],
        string_views(m.token_endpoint_auth_methods_supported@) == seq![
            "client_secret_basic"@,
            "client_secret_post"@,
            "none"@,
        ],
        string_views(m.code_challenge_methods_supported@) == seq!["S256"@],
        string_views(m.claims_supported@) == seq![
            "sub"@,
            "iss"@,
            "aud"@,
            "exp"@,
            "nbf"@,
            "iat"@,
            "jti"@,
            "email"@,
            "email_verified"@,
            "name"@,
        ],
{
    let base = auth_base_url(base_url, base_path);
    let issuer_chars = chars_of(base_url);
    let m = AuthorizationServerMetadata {
        issuer: string_of(&issuer_chars),
        authorization_endpoint: joined(&base, "/mcp/authorize"),
        token_endpoint: joined(&base, "/mcp/token"),
        userinfo_endpoint: joined(&base, "/mcp/userinfo"),
        jwks_uri: joined(&base, "/mcp/jwks"),
        registration_endpoint: joined(&base, "/mcp/register"),
        scopes_supported: copy_list(&options.scopes),
        response_types_supported: owned_list(&["code"]),
        response_modes_supported: owned_list(&["query"]),
        grant_types_supported: owned_list(&["authorization_code", "refresh_token"]),
        acr_values_supported: owned_list(
            &["urn:mace:incommon:iap:silver", "urn:mace:incommon:iap:bronze"],
        ),
        subject_types_supported: owned_list(&["public"]),
        id_token_signing_alg_values_supported: owned_list(&["HS256", "none"]),
        token_endpoint_auth_methods_supported: owned_list(
            &["client_secret_basic", "client_secret_post", "none"],
        ),
        code_challenge_methods_supported: owned_list(&["S256"]),
        claims_supported: owned_list(
            &["sub", "iss", "aud", "exp", "nbf", "iat", "jti", "email", "email_verified", "name"],
        ),
    };
    m
}

/// The protected-resource metadata for a server at `base_url` with the
/// plugin under `base_path`.
pub fn protected_resource_metadata(base_url: &str, base_path: &str, options: &ResolvedMcpOptions) -> (m: ProtectedResourceMetadata)
    ensures
        m.resource@ == match opt_chars(options.resource) {
            Some(r) => r,
            None => origin_from_base_url_text(base_url@),
        },
        string_views(m.authorization_servers@) == seq![origin_from_base_url_text(base_url@)],
        m.jwks_uri@ == auth_base_url_text(base_url@, base_path@) + "/mcp/jwks"@,
        string_views(m.scopes_supported@) == string_views(options.scopes@),
        string_views(m.bearer_methods_supported@) == seq!["header"@],
        string_views(m.resource_signing_alg_values_supported@) == seq!["HS256"@, "none"@],
{
    let origin = origin_from_base_url(base_url);
    let base = auth_base_url(base_url, base_path);
    let resource = match &options.resource {
        Some(r) => {
            let c = chars_of(r.as_str());
            string_of(&c)
        },
        None => {
            let c = chars_of(origin.as_str());
            string_of(&c)
        },
    };
    let mut servers: Vec<String> = Vec::new();
    servers.push(origin);
    assert(string_views(servers@) =~= seq![origin_from_base_url_text(base_url@)]);
    ProtectedResourceMetadata {
        resource,
        authorization_servers: servers,
        jwks_uri: joined(&base, "/mcp/jwks"),
        scopes_supported: copy_list(&options.scopes),
        bearer_methods_supported: owned_list(&["header"]),
        resource_signing_alg_values_supported: owned_list(&["HS256", "none"]),
    }
}

} // verus!
