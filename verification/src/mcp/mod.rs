//! Model Context Protocol OAuth plugin: settings and their resolution, the
//! resource-server client helpers, server metadata, client registration and
//! the authorization request.


pub mod authorize;
pub mod client;
pub mod metadata;
pub mod origin;
pub mod register;
pub mod schema;

use vstd::prelude::*;

pub use crate::text::string_views;
use crate::text::{chars_eq, chars_of};

verus! {

/// The plugin's identifier.
pub const UPSTREAM_PLUGIN_ID: &'static str = "mcp";

/// How a registered client authenticates at the token endpoint.
#[derive(Debug, Clone, Copy, PartialEq, Eq, Structural)]
pub enum TokenEndpointAuthMethod {
    NoAuth,
    ClientSecretBasic,
    ClientSecretPost,
}

/// The wire name of each method.
pub open spec fn auth_method_name(m: TokenEndpointAuthMethod) -> Seq<char> {
    match m {
        TokenEndpointAuthMethod::NoAuth => "none"@,
        TokenEndpointAuthMethod::ClientSecretBasic => "client_secret_basic"@,
        TokenEndpointAuthMethod::ClientSecretPost => "client_secret_post"@,
    }
}

impl TokenEndpointAuthMethod {
    /// The wire name of the method.
    pub fn as_str(self) -> (s: &'static str)
        ensures
            s@ == auth_method_name(self),
    {
        match self {
            TokenEndpointAuthMethod::NoAuth => "none",
            TokenEndpointAuthMethod::ClientSecretBasic => "client_secret_basic",
            TokenEndpointAuthMethod::ClientSecretPost => "client_secret_post",
        }
    }
}

/// OIDC-style settings of the plugin.
#[derive(Debug)]
pub struct McpOidcConfig {
    pub scopes: Vec<String>,
    pub code_expires_in: u64,
    pub access_token_expires_in: u64,
    pub refresh_token_expires_in: u64,
    pub allow_plain_code_challenge_method: bool,
    pub require_pkce: bool,
}

impl Default for McpOidcConfig {
    fn default() -> (r: Self)
        ensures
            r.scopes@.len() == 0,
            r.code_expires_in == 600,
            r.access_token_expires_in == 3600,
            r.refresh_token_expires_in == 604800,
            r.allow_plain_code_challenge_method,
            !r.require_pkce,
    {
        McpOidcConfig {
            scopes: Vec::new(),
            code_expires_in: 600,
            access_token_expires_in: 3600,
            refresh_token_expires_in: 604800,
            allow_plain_code_challenge_method: true,
            require_pkce: false,
        }
    }
}

/// Settings given to the plugin.
#[derive(Debug)]
pub struct McpOptions {
    pub login_page: String,
    pub consent_page: Option<String>,
    pub resource: Option<String>,
    pub oidc_config: McpOidcConfig,
}

/// Settings after defaults are applied.
#[derive(Debug)]
pub struct ResolvedMcpOptions {
    pub login_page: String,
    pub consent_page: Option<String>,
    pub resource: Option<String>,
    pub scopes: Vec<String>,
    pub code_expires_in: u64,
    pub access_token_expires_in: u64,
    pub refresh_token_expires_in: u64,
    pub allow_plain_code_challenge_method: bool,
    pub require_pkce: bool,
}

/// Settings that cannot be resolved.
#[derive(Debug, Clone, Copy, PartialEq, Eq, Structural)]
pub enum McpConfigError {
    MissingLoginPage,
}

impl McpConfigError {
    /// The message of the error.
    pub fn message(self) -> (s: &'static str)
        ensures
            s@ == "login_page is required"@,
    {
        match self {
            McpConfigError::MissingLoginPage => "login_page is required",
        }
    }
}

/// The scopes always offered: `openid`, `profile`, `email`,
/// `offline_access`.
pub open spec fn default_scopes() -> Seq<Seq<char>> {
    seq!["openid"@, "profile"@, "email"@, "offline_access"@]
}

/// `acc` followed by the non-empty scopes of `extra` that are not yet
/// present, in order of first appearance.
pub open spec fn merged_scopes(acc: Seq<Seq<char>>, extra: Seq<Seq<char>>) -> Seq<Seq<char>>
    decreases extra.len(),
{
    if extra.len() == 0 {
        acc
    } else if extra[0].len() > 0 && !acc.contains(extra[0]) {
        merged_scopes(acc.push(extra[0]), extra.drop_first())
    } else {
        merged_scopes(acc, extra.drop_first())
    }
}


/// Whether `list` holds the text `s`.
pub fn contains_text(list: &Vec<String>, s: &str) -> (r: bool)
    ensures
        r == string_views(list@).contains(s@),
{
    let target = chars_of(s);
    let mut i: usize = 0;
    while i < list.len()
        invariant
            i <= list.len(),
            target@ == s@,
            forall|j: int| 0 <= j < i ==> list@[j]@ != s@,
        decreases list.len() - i,
    {
        let c = chars_of(list[i].as_str());
        if chars_eq(&c, &target) {
            assert(string_views(list@)[i as int] == s@);
            return true;
        }
        i += 1;
    }
    proof {
        if string_views(list@).contains(s@) {
            let k = choose|k: int| 0 <= k < string_views(list@).len() && string_views(list@)[k] == s@;
            assert(list@[k]@ == s@);
        }
    }
    false
}

/// The scopes offered: the defaults, then each configured non-empty scope
/// not already present.
pub fn resolve_scopes(configured: &Vec<String>) -> (r: Vec<String>)
    ensures
        string_views(r@) == merged_scopes(default_scopes(), string_views(configured@)),
{
    let mut scopes: Vec<String> = Vec::new();
    scopes.push("openid".to_owned());
    scopes.push("profile".to_owned());
    scopes.push("email".to_owned());
    scopes.push("offline_access".to_owned());
    assert(string_views(scopes@) =~= default_scopes());
    let mut i: usize = 0;
    assert(string_views(configured@).skip(0) =~= string_views(configured@));
    while i < configured.len()
        invariant
            i <= configured.len(),
            merged_scopes(default_scopes(), string_views(configured@)) == merged_scopes(
                string_views(scopes@),
                string_views(configured@).skip(i as int),
            ),
        decreases configured.len() - i,
    {
        let s = &configured[i];
        let ghost rest = string_views(configured@).skip(i as int);
        assert(rest[0] == s@);
        assert(rest.drop_first() =~= string_views(configured@).skip(i as int + 1));
        let nonempty = !s.as_str().is_empty();
        if nonempty && !contains_text(&scopes, s.as_str()) {
            let ghost before = scopes@;
            scopes.push(s.clone());
            assert(string_views(scopes@) =~= string_views(before).push(s@));
            assert(merged_scopes(string_views(before), rest) == merged_scopes(
                string_views(before).push(s@),
                rest.drop_first(),
            ));
        } else {
            assert(merged_scopes(string_views(scopes@), rest) == merged_scopes(
                string_views(scopes@),
                rest.drop_first(),
            ));
        }
        i += 1;
    }
    assert(string_views(configured@).skip(configured.len() as int) =~= Seq::<Seq<char>>::empty());
    scopes
}

/// Applies the defaults to the given settings.
pub fn resolve_options(options: McpOptions) -> (r: Result<ResolvedMcpOptions, McpConfigError>)
    ensures
        r is Err <==> options.login_page@.len() == 0,
        r matches Err(e) ==> e == McpConfigError::MissingLoginPage,
        r matches Ok(o) ==> {
            &&& o.login_page == options.login_page
            &&& o.consent_page == options.consent_page
            &&& o.resource == options.resource
            &&& string_views(o.scopes@) == merged_scopes(default_scopes(), string_views(options.oidc_config.scopes@))
            &&& o.code_expires_in == options.oidc_config.code_expires_in
            &&& o.access_token_expires_in == options.oidc_config.access_token_expires_in
            &&& o.refresh_token_expires_in == options.oidc_config.refresh_token_expires_in
            &&& o.allow_plain_code_challenge_method == options.oidc_config.allow_plain_code_challenge_method
            &&& o.require_pkce == options.oidc_config.require_pkce
        },
{
    if options.login_page.as_str().is_empty() {
        return Err(McpConfigError::MissingLoginPage);
    }
    let scopes = resolve_scopes(&options.oidc_config.scopes);
    Ok(ResolvedMcpOptions {
        login_page: options.login_page,
        consent_page: options.consent_page,
        resource: options.resource,
        scopes,
        code_expires_in: options.oidc_config.code_expires_in,
        access_token_expires_in: options.oidc_config.access_token_expires_in,
        refresh_token_expires_in: options.oidc_config.refresh_token_expires_in,
        allow_plain_code_challenge_method: options.oidc_config.allow_plain_code_challenge_method,
        require_pkce: options.oidc_config.require_pkce,
    })
}

/// The merged scopes begin with those already present, hold every
/// non-empty extra scope, hold nothing else, and repeat none when the
/// starting list repeats none.
pub proof fn law_merged_scopes(acc: Seq<Seq<char>>, extra: Seq<Seq<char>>)
    ensures
        merged_scopes(acc, extra).len() >= acc.len(),
        merged_scopes(acc, extra).take(acc.len() as int) == acc,
        forall|i: int| 0 <= i < extra.len() && extra[i].len() > 0 ==> merged_scopes(acc, extra).contains(#[trigger] extra[i]),
        forall|s: Seq<char>| merged_scopes(acc, extra).contains(s) ==> acc.contains(s) || extra.contains(s),
        acc.no_duplicates() ==> merged_scopes(acc, extra).no_duplicates(),
    decreases extra.len(),
{
    if extra.len() > 0 {
        let e = extra[0];
        let rest = extra.drop_first();
        let next = if e.len() > 0 && !acc.contains(e) { acc.push(e) } else { acc };
        law_merged_scopes(next, rest);
        let m = merged_scopes(acc, extra);
        assert(m == merged_scopes(next, rest));
        assert(m.take(next.len() as int) == next);
        assert(m.take(acc.len() as int) =~= next.take(acc.len() as int));
        assert(next.take(acc.len() as int) =~= acc);
        assert forall|i: int| 0 <= i < extra.len() && extra[i].len() > 0 implies m.contains(#[trigger] extra[i]) by {
            if i == 0 {
                if acc.contains(e) {
                    let k = choose|k: int| 0 <= k < acc.len() && acc[k] == e;
                    assert(m.take(acc.len() as int)[k] == e);
                    assert(m[k] == e);
                } else {
                    assert(next[acc.len() as int] == e);
                    assert(m.take(next.len() as int)[acc.len() as int] == e);
                    assert(m[acc.len() as int] == e);
                }
            } else {
                assert(extra[i] == rest[i - 1]);
            }
        }
        assert forall|s: Seq<char>| m.contains(s) implies acc.contains(s) || extra.contains(s) by {
            if next.contains(s) && !acc.contains(s) {
                let k = choose|k: int| 0 <= k < next.len() && next[k] == s;
                assert(s == e);
                assert(extra[0] == s);
            }
            if rest.contains(s) {
                let k = choose|k: int| 0 <= k < rest.len() && rest[k] == s;
                assert(extra[k + 1] == s);
            }
        }
        if acc.no_duplicates() {
            if e.len() > 0 && !acc.contains(e) {
                assert(next.no_duplicates());
            }
        }
    } else {
        assert(acc.take(acc.len() as int) =~= acc);
    }
}

/// The resolved scopes start with the four defaults, once each.
pub proof fn law_default_scopes_come_first(extra: Seq<Seq<char>>)
    ensures
        merged_scopes(default_scopes(), extra).take(4) == default_scopes(),
        merged_scopes(default_scopes(), extra).no_duplicates(),
{
    reveal_strlit("openid");
    reveal_strlit("profile");
    reveal_strlit("email");
    reveal_strlit("offline_access");
    let d = default_scopes();
    assert(d[0].len() == 6 && d[1].len() == 7 && d[2].len() == 5 && d[3].len() == 14);
    assert(d.no_duplicates());
    law_merged_scopes(d, extra);
}

} // verus!
