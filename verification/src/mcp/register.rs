//! Dynamic client registration: defaults of the request, its consistency
//! rules, and the authentication method and kind of the new client.

use vstd::prelude::*;

use crate::mcp::{contains_text, string_views, TokenEndpointAuthMethod};
use crate::text::{chars_of, join_chars, join_with, str_eq, string_of, views};

verus! {

/// What a registration request asks for, as read from its JSON body: each
/// list where the field is an array (its string items), the method where
/// the field is a string.
#[derive(Debug)]
pub struct RegistrationRequest {
    pub grant_types: Option<Vec<String>>,
    pub response_types: Option<Vec<String>>,
    pub redirect_uris: Option<Vec<String>>,
    pub token_endpoint_auth_method: Option<String>,
}

/// A refused registration.
#[derive(Debug, Clone, Copy, PartialEq, Eq, Structural)]
pub enum RegistrationError {
    /// A grant that redirects was asked for without redirect URIs.
    MissingRedirectUris,
    /// `authorization_code` without the `code` response type.
    CodeResponseTypeRequired,
    /// `implicit` without the `token` response type.
    TokenResponseTypeRequired,
}

/// The OAuth error code of each refusal.
pub open spec fn registration_error_code(e: RegistrationError) -> Seq<char> {
    match e {
        RegistrationError::MissingRedirectUris => "invalid_redirect_uri"@,
        _ => "invalid_client_metadata"@,
    }
}

/// The description sent with each refusal.
pub open spec fn registration_error_description(e: RegistrationError) -> Seq<char> {
    match e {
        RegistrationError::MissingRedirectUris => "Redirect URIs are required for authorization_code and implicit grant types"@,
        RegistrationError::CodeResponseTypeRequired => "When 'authorization_code' grant type is used, 'code' response type must be included"@,
        RegistrationError::TokenResponseTypeRequired => "When 'implicit' grant type is used, 'token' response type must be included"@,
    }
}

impl RegistrationError {
    /// The OAuth error code.
    pub fn error_code(self) -> (s: &'static str)
        ensures
            s@ == registration_error_code(self),
    {
        match self {
            RegistrationError::MissingRedirectUris => "invalid_redirect_uri",
            _ => "invalid_client_metadata",
        }
    }

    /// The human-readable description.
    pub fn description(self) -> (s: &'static str)
        ensures
            s@ == registration_error_description(self),
    {
        match self {
            RegistrationError::MissingRedirectUris => "Redirect URIs are required for authorization_code and implicit grant types",
            RegistrationError::CodeResponseTypeRequired => "When 'authorization_code' grant type is used, 'code' response type must be included",
            RegistrationError::TokenResponseTypeRequired => "When 'implicit' grant type is used, 'token' response type must be included",
        }
    }
}

/// An accepted registration: the lists after defaults, the authentication
/// method, whether the client is public (no secret), the redirect URIs as
/// stored (joined with `,`), and whether the stored client starts disabled.
#[derive(Debug)]
pub struct RegistrationPlan {
    pub grant_types: Vec<String>,
    pub response_types: Vec<String>,
    pub redirect_uris: Vec<String>,
    pub auth_method: TokenEndpointAuthMethod,
    pub public_client: bool,
    pub stored_redirect_urls: String,
    pub disabled: bool,
}

/// The headers of the answer to an accepted registration: it is not to be
/// cached.
pub open spec fn registration_headers() -> Seq<(Seq<char>, Seq<char>)> {
    seq![("cache-control"@, "no-store"@), ("pragma"@, "no-cache"@)]
}

impl RegistrationPlan {
    /// The status of the answer: 201, a client was created.
    pub fn response_status(&self) -> (s: u16)
        ensures
            s == 201,
    {
        201
    }

    /// The headers added to the answer.
    pub fn response_headers(&self) -> (h: Vec<(String, String)>)
        ensures
            crate::response::header_views(h@) == registration_headers(),
    {
        let mut h: Vec<(String, String)> = Vec::new();
        h.push(("cache-control".to_owned(), "no-store".to_owned()));
        h.push(("pragma".to_owned(), "no-cache".to_owned()));
        assert(crate::response::header_views(h@) =~= registration_headers());
        h
    }

    /// Whether a client secret is issued (and returned, never expiring):
    /// exactly for clients that are not public.
    pub fn issues_secret(&self) -> (b: bool)
        ensures
            b == !self.public_client,
    {
        !self.public_client
    }

    /// The stored client type: `public` without a secret, `web` with one.
    pub fn client_type(&self) -> (s: &'static str)
        ensures
            s@ == (if self.public_client {
                "public"@
            } else {
                "web"@
            }),
    {
        if self.public_client {
            "public"
        } else {
            "web"
        }
    }
}

/// Whether the grants need redirect URIs: none given, or one of them is
/// `authorization_code` or `implicit`.
pub open spec fn needs_redirect_uri(grants: Seq<Seq<char>>) -> bool {
    grants.len() == 0 || grants.contains("authorization_code"@) || grants.contains("implicit"@)
}

/// The first rule that the request breaks, in the order they are checked.
pub open spec fn registration_problem(grants: Seq<Seq<char>>, responses: Seq<Seq<char>>, redirect_count: nat) -> Option<RegistrationError> {
    if needs_redirect_uri(grants) && redirect_count == 0 {
        Some(RegistrationError::MissingRedirectUris)
    } else if grants.contains("authorization_code"@) && !responses.contains("code"@) {
        Some(RegistrationError::CodeResponseTypeRequired)
    } else if grants.contains("implicit"@) && !responses.contains("token"@) {
        Some(RegistrationError::TokenResponseTypeRequired)
    } else {
        None
    }
}

/// The method asked for: `none` and `client_secret_post` as named, anything
/// else (or nothing) `client_secret_basic`.
pub open spec fn requested_auth_method(requested: Option<Seq<char>>) -> TokenEndpointAuthMethod {
    match requested {
        Some(m) => if m == "none"@ {
            TokenEndpointAuthMethod::NoAuth
        } else if m == "client_secret_post"@ {
            TokenEndpointAuthMethod::ClientSecretPost
        } else {
            TokenEndpointAuthMethod::ClientSecretBasic
        },
        None => TokenEndpointAuthMethod::ClientSecretBasic,
    }
}

/// A list, or the given default where the field was absent.
pub open spec fn list_or(v: Option<Vec<String>>, default: Seq<Seq<char>>) -> Seq<Seq<char>> {
    match v {
        Some(l) => string_views(l@),
        None => default,
    }
}

/// Whether the grants need redirect URIs.
pub fn requires_redirect_uri(grant_types: &Vec<String>) -> (r: bool)
    ensures
        r == needs_redirect_uri(string_views(grant_types@)),
{
    grant_types.len() == 0 || contains_text(grant_types, "authorization_code") || contains_text(
        grant_types,
        "implicit",
    )
}

/// The authentication method for the requested name.
pub fn auth_method(requested: Option<&str>) -> (m: TokenEndpointAuthMethod)
    ensures
        m == requested_auth_method(
            match requested {
                Some(s) => Some(s@),
                None => None,
            },
        ),
{
    match requested {
        Some(s) => {
            if str_eq(s, "none") {
                TokenEndpointAuthMethod::NoAuth
            } else if str_eq(s, "client_secret_post") {
                TokenEndpointAuthMethod::ClientSecretPost
            } else {
                TokenEndpointAuthMethod::ClientSecretBasic
            }
        },
        None => TokenEndpointAuthMethod::ClientSecretBasic,
    }
}

/// Checks the registration rules on the lists, in order.
pub fn check_registration(grant_types: &Vec<String>, response_types: &Vec<String>, redirect_uris: &Vec<String>) -> (r: Result<(), RegistrationError>)
    ensures
        match registration_problem(string_views(grant_types@), string_views(response_types@), redirect_uris@.len()) {
            Some(e) => r == Err::<(), RegistrationError>(e),
            None => r is Ok,
        },
{
    if requires_redirect_uri(grant_types) && redirect_uris.len() == 0 {
        return Err(RegistrationError::MissingRedirectUris);
    }
    if contains_text(grant_types, "authorization_code") && !contains_text(response_types, "code") {
        return Err(RegistrationError::CodeResponseTypeRequired);
    }
    if contains_text(grant_types, "implicit") && !contains_text(response_types, "token") {
        return Err(RegistrationError::TokenResponseTypeRequired);
    }
    Ok(())
}

/// The list, or a list of the one default item where it is absent.
fn list_or_default(v: Option<Vec<String>>, default: &str) -> (r: Vec<String>)
    ensures
        string_views(r@) == list_or(v, seq![default@]),
{
    match v {
        Some(l) => l,
        None => {
            let mut r: Vec<String> = Vec::new();
            r.push(default.to_owned());
            assert(string_views(r@) =~= seq![default@]);
            r
        },
    }
}

/// The strings joined with `,`.
fn join_commas(items: &Vec<String>) -> (r: String)
    ensures
        r@ == join_with(string_views(items@), ','),
{
    let mut pieces: Vec<Vec<char>> = Vec::new();
    let mut i: usize = 0;
    while i < items.len()
        invariant
            i <= items.len(),
            views(pieces@) == string_views(items@.take(i as int)),
        decreases items.len() - i,
    {
        let ghost before = pieces@;
        pieces.push(chars_of(items[i].as_str()));
        assert(views(pieces@) =~= views(before).push(items@[i as int]@));
        assert(string_views(items@.take(i as int + 1)) =~= string_views(items@.take(i as int)).push(
            items@[i as int]@,
        ));
        i += 1;
    }
    assert(items@.take(items.len() as int) =~= items@);
    let joined = join_chars(&pieces, ',');
    string_of(&joined)
}

/// Applies the defaults (`authorization_code`, `code`, no redirect URIs,
/// `client_secret_basic`), checks the rules and settles the new client's
/// kind.
pub fn plan_registration(request: RegistrationRequest) -> (r: Result<RegistrationPlan, RegistrationError>)
    ensures
        ({
            let grants = list_or(request.grant_types, seq!["authorization_code"@]);
            let responses = list_or(request.response_types, seq!["code"@]);
            let redirects = list_or(request.redirect_uris, Seq::empty());
            let method = requested_auth_method(opt_text(request.token_endpoint_auth_method));
            match registration_problem(grants, responses, redirects.len()) {
                Some(e) => r == Err::<RegistrationPlan, RegistrationError>(e),
                None => r matches Ok(p) && {
                    &&& string_views(p.grant_types@) == grants
                    &&& string_views(p.response_types@) == responses
                    &&& string_views(p.redirect_uris@) == redirects
                    &&& p.auth_method == method
                    &&& p.public_client == (method == TokenEndpointAuthMethod::NoAuth)
                    &&& p.stored_redirect_urls@ == join_with(redirects, ',')
                    &&& !p.disabled
                },
            }
        }),
{
    let grant_types = list_or_default(request.grant_types, "authorization_code");
    let response_types = list_or_default(request.response_types, "code");
    let redirect_uris = match request.redirect_uris {
        Some(l) => l,
        None => Vec::new(),
    };
    assert(string_views(redirect_uris@) =~= list_or(request.redirect_uris, Seq::empty()));
    match check_registration(&grant_types, &response_types, &redirect_uris) {
        Err(e) => Err(e),
        Ok(()) => {
            let method = match &request.token_endpoint_auth_method {
                Some(m) => auth_method(Some(m.as_str())),
                None => auth_method(None),
            };
            let stored = join_commas(&redirect_uris);
            Ok(RegistrationPlan {
                grant_types,
                response_types,
                redirect_uris,
                auth_method: method,
                public_client: method == TokenEndpointAuthMethod::NoAuth,
                stored_redirect_urls: stored,
                disabled: false,
            })
        },
    }
}

/// An accepted registration is consistent: grants that redirect come with
/// redirect URIs, `authorization_code` with the `code` response type, and
/// `implicit` with the `token` response type.
pub proof fn law_accepted_registration_is_consistent(grants: Seq<Seq<char>>, responses: Seq<Seq<char>>, redirect_count: nat)
    requires
        registration_problem(grants, responses, redirect_count) is None,
    ensures
        needs_redirect_uri(grants) ==> redirect_count > 0,
        grants.contains("authorization_code"@) ==> responses.contains("code"@),
        grants.contains("implicit"@) ==> responses.contains("token"@),
{
}

/// The characters of an optional string.
pub open spec fn opt_text(o: Option<String>) -> Option<Seq<char>> {
    match o {
        Some(s) => Some(s@),
        None => None,
    }
}

} // verus!
