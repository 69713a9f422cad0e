use openauth_plugins::mcp::authorize::{
    authorize_decide, authorize_precheck, authorize_redirect, code_record, code_record_id,
    error_page_url,
    AuthorizeOutcome, AuthorizeQuery, OAuthClientRecord,
};
use openauth_plugins::mcp::client::{McpAuthClient, McpAuthClientOptions};
use openauth_plugins::mcp::metadata::{
    auth_base_url, authorization_server_metadata, origin_from_base_url,
    protected_resource_metadata,
};
use openauth_plugins::mcp::origin::url_origin;
use openauth_plugins::mcp::register::{
    auth_method, check_registration, plan_registration, requires_redirect_uri, RegistrationError,
    RegistrationRequest,
};
use openauth_plugins::mcp::{
    resolve_options, resolve_scopes, McpConfigError, McpOidcConfig, McpOptions,
    ResolvedMcpOptions, TokenEndpointAuthMethod, UPSTREAM_PLUGIN_ID,
};
use openauth_plugins::mcp::schema::{
    oauth_access_token_schema, oauth_application_schema, oauth_consent_schema,
};
use openauth_plugins::response::ResponseError;
use openauth_plugins::schema::{FieldKind, SchemaContribution};

fn strings(items: &[&str]) -> Vec<String> {
    items.iter().map(|s| s.to_string()).collect()
}

fn options_with(scopes: &[&str], login: &str) -> McpOptions {
    McpOptions {
        login_page: login.to_string(),
        consent_page: None,
        resource: None,
        oidc_config: McpOidcConfig { scopes: strings(scopes), ..McpOidcConfig::default() },
    }
}

fn resolved() -> ResolvedMcpOptions {
    resolve_options(options_with(&[], "/login")).unwrap()
}

fn client(url: &str, resource: Option<&str>) -> McpAuthClient {
    McpAuthClient::new(McpAuthClientOptions {
        auth_url: url.to_string(),
        resource: resource.map(|s| s.to_string()),
    })
}

#[test]
fn plugin_id_is_mcp() {
    assert_eq!(UPSTREAM_PLUGIN_ID, "mcp");
}

#[test]
fn token_endpoint_auth_method_names() {
    assert_eq!(TokenEndpointAuthMethod::NoAuth.as_str(), "none");
    assert_eq!(TokenEndpointAuthMethod::ClientSecretBasic.as_str(), "client_secret_basic");
    assert_eq!(TokenEndpointAuthMethod::ClientSecretPost.as_str(), "client_secret_post");
}

#[test]
fn oidc_config_defaults() {
    let c = McpOidcConfig::default();
    assert!(c.scopes.is_empty());
    assert_eq!(c.code_expires_in, 600);
    assert_eq!(c.access_token_expires_in, 3600);
    assert_eq!(c.refresh_token_expires_in, 604800);
    assert!(c.allow_plain_code_challenge_method);
    assert!(!c.require_pkce);
}

#[test]
fn missing_login_page_is_refused() {
    let r = resolve_options(options_with(&[], ""));
    assert!(matches!(r, Err(McpConfigError::MissingLoginPage)));
    assert_eq!(McpConfigError::MissingLoginPage.message(), "login_page is required");
}

#[test]
fn configured_scopes_follow_defaults_once_each() {
    let r = resolve_options(options_with(&["openid", "custom", "", "custom", "extra"], "/login"))
        .unwrap();
    assert_eq!(r.scopes, strings(&["openid", "profile", "email", "offline_access", "custom", "extra"]));
    assert_eq!(r.login_page, "/login");
    assert_eq!(r.code_expires_in, 600);
}

#[test]
fn resolve_scopes_without_configuration_gives_defaults() {
    assert_eq!(resolve_scopes(&Vec::new()), strings(&["openid", "profile", "email", "offline_access"]));
}

#[test]
fn client_drops_trailing_slashes() {
    let c = client("https://auth.example/api/auth//", None);
    assert_eq!(
        c.www_authenticate(),
        "Bearer resource_metadata=\"https://auth.example/api/auth/.well-known/oauth-protected-resource\""
    );
}

#[test]
fn challenge_prefers_resource() {
    let c = client("https://auth.example/", Some("https://res.example"));
    assert_eq!(
        c.www_authenticate(),
        "Bearer resource_metadata=\"https://res.example/.well-known/oauth-protected-resource\""
    );
}

#[test]
fn unauthorized_response_carries_challenge_and_json() {
    let c = client("https://a.example", None);
    let r = c.unauthorized_response().unwrap();
    assert_eq!(r.status, 401);
    let challenge =
        "Bearer resource_metadata=\"https://a.example/.well-known/oauth-protected-resource\"";
    assert_eq!(
        r.headers,
        vec![
            ("content-type".to_string(), "application/json".to_string()),
            ("www-authenticate".to_string(), challenge.to_string()),
        ]
    );
    let body = String::from_utf8(r.body).unwrap();
    assert_eq!(
        body,
        "{\"jsonrpc\":\"2.0\",\"error\":{\"code\":-32000,\"message\":\"Unauthorized: Authentication required\",\"www-authenticate\":\"Bearer resource_metadata=\\\"https://a.example/.well-known/oauth-protected-resource\\\"\"},\"id\":null}"
    );
}

#[test]
fn unauthorized_response_refuses_control_characters() {
    let c = client("https://a.example/\nx", None);
    assert!(matches!(c.unauthorized_response(), Err(ResponseError::InvalidHeaderValue)));
}

#[test]
fn cors_preflight_uses_origin_with_port() {
    let r = client("https://auth.example:8443/api/auth", None).cors_preflight_response();
    assert_eq!(r.status, 204);
    assert!(r.body.is_empty());
    assert_eq!(
        r.headers,
        vec![
            ("access-control-allow-origin".to_string(), "https://auth.example:8443".to_string()),
            ("access-control-allow-methods".to_string(), "GET, POST, OPTIONS".to_string()),
            ("access-control-allow-headers".to_string(), "Content-Type, Authorization".to_string()),
            ("access-control-max-age".to_string(), "86400".to_string()),
        ]
    );
}

#[test]
fn cors_preflight_drops_default_port() {
    let r = client("https://auth.example:443/x", None).cors_preflight_response();
    assert_eq!(r.headers[0].1, "https://auth.example");
}

#[test]
fn cors_preflight_falls_back_to_any_origin() {
    let r = client("not a url", None).cors_preflight_response();
    assert_eq!(r.headers[0].1, "*");
}

#[test]
fn bearer_token_is_read_after_prefix() {
    let c = client("https://a.example", None);
    assert_eq!(c.bearer_token(Some(b"Bearer abc.def")), Some("abc.def".to_string()));
    assert_eq!(c.bearer_token(Some(b"Bearer ")), Some(String::new()));
    assert_eq!(c.bearer_token(Some(b"Basic abc")), None);
    assert_eq!(c.bearer_token(Some(b"bearer abc")), None);
    assert_eq!(c.bearer_token(None), None);
    assert_eq!(c.bearer_token(Some(&[66, 101, 97, 114, 101, 114, 32, 200])), None);
    assert_eq!(c.bearer_token(Some(b"Bearer a\tb")), Some("a\tb".to_string()));
}

#[test]
fn url_origin_reads_scheme_host_and_port() {
    assert_eq!(url_origin("http://localhost:3000/api/auth"), Some("http://localhost:3000".to_string()));
    assert_eq!(url_origin("https://Example.COM/path"), Some("https://example.com".to_string()));
    assert_eq!(url_origin("mailto:someone@example.com"), None);
    assert_eq!(url_origin("::"), None);
}

#[test]
fn metadata_base_url_joins_without_slashes() {
    assert_eq!(auth_base_url("https://a.example/", "/api/auth/"), "https://a.example/api/auth");
    assert_eq!(origin_from_base_url("https://a.example:3000/api"), "https://a.example:3000");
    assert_eq!(origin_from_base_url("not a url//"), "not a url");
}

#[test]
fn authorization_server_metadata_lists_endpoints() {
    let m = authorization_server_metadata("https://a.example", "/api/auth", &resolved());
    assert_eq!(m.issuer, "https://a.example");
    assert_eq!(m.authorization_endpoint, "https://a.example/api/auth/mcp/authorize");
    assert_eq!(m.token_endpoint, "https://a.example/api/auth/mcp/token");
    assert_eq!(m.userinfo_endpoint, "https://a.example/api/auth/mcp/userinfo");
    assert_eq!(m.jwks_uri, "https://a.example/api/auth/mcp/jwks");
    assert_eq!(m.registration_endpoint, "https://a.example/api/auth/mcp/register");
    assert_eq!(m.scopes_supported, strings(&["openid", "profile", "email", "offline_access"]));
    assert_eq!(m.response_types_supported, strings(&["code"]));
    assert_eq!(m.grant_types_supported, strings(&["authorization_code", "refresh_token"]));
    assert_eq!(m.code_challenge_methods_supported, strings(&["S256"]));
    assert_eq!(
        m.token_endpoint_auth_methods_supported,
        strings(&["client_secret_basic", "client_secret_post", "none"])
    );
    assert_eq!(m.claims_supported.len(), 10);
}

#[test]
fn protected_resource_metadata_defaults_to_origin() {
    let m = protected_resource_metadata("https://a.example:8080/base/", "/api", &resolved());
    assert_eq!(m.resource, "https://a.example:8080");
    assert_eq!(m.authorization_servers, strings(&["https://a.example:8080"]));
    assert_eq!(m.jwks_uri, "https://a.example:8080/base/api/mcp/jwks");
    assert_eq!(m.bearer_methods_supported, strings(&["header"]));
    let mut o = resolved();
    o.resource = Some("urn:res".to_string());
    let m = protected_resource_metadata("https://a.example", "", &o);
    assert_eq!(m.resource, "urn:res");
}

#[test]
fn redirect_uri_requirement() {
    assert!(requires_redirect_uri(&Vec::new()));
    assert!(requires_redirect_uri(&strings(&["authorization_code"])));
    assert!(requires_redirect_uri(&strings(&["refresh_token", "implicit"])));
    assert!(!requires_redirect_uri(&strings(&["client_credentials"])));
}

#[test]
fn auth_method_names() {
    assert_eq!(auth_method(Some("none")), TokenEndpointAuthMethod::NoAuth);
    assert_eq!(auth_method(Some("client_secret_post")), TokenEndpointAuthMethod::ClientSecretPost);
    assert_eq!(auth_method(Some("client_secret_jwt")), TokenEndpointAuthMethod::ClientSecretBasic);
    assert_eq!(auth_method(None), TokenEndpointAuthMethod::ClientSecretBasic);
}

#[test]
fn registration_rules_in_order() {
    assert_eq!(
        check_registration(&strings(&["authorization_code"]), &strings(&["code"]), &Vec::new()),
        Err(RegistrationError::MissingRedirectUris)
    );
    assert_eq!(
        check_registration(&strings(&["authorization_code"]), &strings(&["token"]), &strings(&["https://c/cb"])),
        Err(RegistrationError::CodeResponseTypeRequired)
    );
    assert_eq!(
        check_registration(&strings(&["implicit"]), &strings(&["code"]), &strings(&["https://c/cb"])),
        Err(RegistrationError::TokenResponseTypeRequired)
    );
    assert_eq!(
        check_registration(&strings(&["client_credentials"]), &Vec::new(), &Vec::new()),
        Ok(())
    );
    assert_eq!(RegistrationError::MissingRedirectUris.error_code(), "invalid_redirect_uri");
    assert_eq!(RegistrationError::TokenResponseTypeRequired.error_code(), "invalid_client_metadata");
    assert_eq!(
        RegistrationError::CodeResponseTypeRequired.description(),
        "When 'authorization_code' grant type is used, 'code' response type must be included"
    );
}

#[test]
fn registration_defaults_and_client_kind() {
    let plan = plan_registration(RegistrationRequest {
        grant_types: None,
        response_types: None,
        redirect_uris: Some(strings(&["https://c/cb", "https://c/cb2"])),
        token_endpoint_auth_method: Some("none".to_string()),
    })
    .unwrap();
    assert_eq!(plan.grant_types, strings(&["authorization_code"]));
    assert_eq!(plan.response_types, strings(&["code"]));
    assert_eq!(plan.auth_method, TokenEndpointAuthMethod::NoAuth);
    assert!(plan.public_client);
    assert_eq!(plan.client_type(), "public");
    assert_eq!(plan.stored_redirect_urls, "https://c/cb,https://c/cb2");
    assert!(!plan.disabled);
    assert!(!plan.issues_secret());
    assert_eq!(plan.response_status(), 201);
    assert_eq!(
        plan.response_headers(),
        vec![
            ("cache-control".to_string(), "no-store".to_string()),
            ("pragma".to_string(), "no-cache".to_string()),
        ]
    );

    let plan = plan_registration(RegistrationRequest {
        grant_types: None,
        response_types: None,
        redirect_uris: Some(strings(&["https://c/cb"])),
        token_endpoint_auth_method: None,
    })
    .unwrap();
    assert!(!plan.public_client);
    assert!(plan.issues_secret());
    assert_eq!(plan.client_type(), "web");

    let refused = plan_registration(RegistrationRequest {
        grant_types: None,
        response_types: None,
        redirect_uris: None,
        token_endpoint_auth_method: None,
    });
    assert!(matches!(refused, Err(RegistrationError::MissingRedirectUris)));
}

#[test]
fn authorize_query_is_decoded_and_last_value_wins() {
    let q = AuthorizeQuery::parse("client_id=abc&scope=openid%20profile&a=1&a=2&redirect_uri=https%3A%2F%2Fapp.example%2Fcb");
    assert_eq!(q.get("client_id"), Some("abc".to_string()));
    assert_eq!(q.get("scope"), Some("openid profile".to_string()));
    assert_eq!(q.get("a"), Some("2".to_string()));
    assert_eq!(q.get("redirect_uri"), Some("https://app.example/cb".to_string()));
    assert_eq!(q.get("missing"), None);
}

#[test]
fn authorize_precheck_steps() {
    let q = AuthorizeQuery::parse("client_id=abc&response_type=code");
    match authorize_precheck(false, Some("client_id=abc"), "/login", "/err", &q) {
        Err(AuthorizeOutcome::Redirect(t)) => assert_eq!(t, "/login?client_id=abc"),
        other => panic!("{:?}", other),
    }
    match authorize_precheck(false, None, "/login", "/err", &q) {
        Err(AuthorizeOutcome::Redirect(t)) => assert_eq!(t, "/login"),
        other => panic!("{:?}", other),
    }
    let no_client = AuthorizeQuery::parse("response_type=code");
    match authorize_precheck(true, None, "/login", "/err", &no_client) {
        Err(AuthorizeOutcome::Redirect(t)) => assert_eq!(t, "/err?error=invalid_client"),
        other => panic!("{:?}", other),
    }
    let no_type = AuthorizeQuery::parse("client_id=abc");
    match authorize_precheck(true, None, "/login", "/err", &no_type) {
        Err(AuthorizeOutcome::ErrorRedirect { base, error, description }) => {
            assert_eq!(base, "/err");
            assert_eq!(error, "invalid_request");
            assert_eq!(description, "response_type is required");
        },
        other => panic!("{:?}", other),
    }
    assert_eq!(authorize_precheck(true, None, "/login", "/err", &q).unwrap(), "abc");
    assert_eq!(error_page_url("https://a.example", "/api/auth"), "https://a.example/api/auth/error");
}

fn record(disabled: bool) -> OAuthClientRecord {
    OAuthClientRecord {
        client_id: "abc".to_string(),
        redirect_urls: strings(&["https://app.example/cb"]),
        disabled,
    }
}

#[test]
fn authorize_decision_refusals() {
    let o = resolved();
    let base = "client_id=abc&response_type=code&redirect_uri=https%3A%2F%2Fapp.example%2Fcb";
    let q = AuthorizeQuery::parse(base);
    match authorize_decide(&o, "/err", &q, None) {
        AuthorizeOutcome::Redirect(t) => assert_eq!(t, "/err?error=invalid_client"),
        other => panic!("{:?}", other),
    }
    let no_uri = AuthorizeQuery::parse("client_id=abc&response_type=code");
    match authorize_decide(&o, "/err", &no_uri, Some(&record(false))) {
        AuthorizeOutcome::BadRequest { error, description } => {
            assert_eq!(error, "invalid_request");
            assert_eq!(description, "redirect_uri is required");
        },
        other => panic!("{:?}", other),
    }
    let other_uri = AuthorizeQuery::parse("client_id=abc&response_type=code&redirect_uri=https://evil/cb");
    match authorize_decide(&o, "/err", &other_uri, Some(&record(false))) {
        AuthorizeOutcome::BadRequest { description, .. } => assert_eq!(description, "Invalid redirect URI"),
        other => panic!("{:?}", other),
    }
    match authorize_decide(&o, "/err", &q, Some(&record(true))) {
        AuthorizeOutcome::Redirect(t) => assert_eq!(t, "/err?error=client_disabled"),
        other => panic!("{:?}", other),
    }
    let token = AuthorizeQuery::parse("client_id=abc&response_type=token&redirect_uri=https%3A%2F%2Fapp.example%2Fcb");
    match authorize_decide(&o, "/err", &token, Some(&record(false))) {
        AuthorizeOutcome::Redirect(t) => assert_eq!(t, "/err?error=unsupported_response_type"),
        other => panic!("{:?}", other),
    }
    let bad_scope = AuthorizeQuery::parse(&format!("{base}&scope=openid%20admin%20root"));
    match authorize_decide(&o, "/err", &bad_scope, Some(&record(false))) {
        AuthorizeOutcome::ErrorRedirect { base, error, description } => {
            assert_eq!(base, "https://app.example/cb");
            assert_eq!(error, "invalid_scope");
            assert_eq!(description, "The following scopes are invalid: admin, root");
        },
        other => panic!("{:?}", other),
    }
    let mut strict = resolved();
    strict.require_pkce = true;
    match authorize_decide(&strict, "/err", &q, Some(&record(false))) {
        AuthorizeOutcome::ErrorRedirect { description, .. } => assert_eq!(description, "pkce is required"),
        other => panic!("{:?}", other),
    }
    let md5 = AuthorizeQuery::parse(&format!("{base}&code_challenge=x&code_challenge_method=md5"));
    match authorize_decide(&o, "/err", &md5, Some(&record(false))) {
        AuthorizeOutcome::ErrorRedirect { description, .. } => {
            assert_eq!(description, "invalid code_challenge method")
        },
        other => panic!("{:?}", other),
    }
    let mut no_plain = resolved();
    no_plain.allow_plain_code_challenge_method = false;
    match authorize_decide(&no_plain, "/err", &q, Some(&record(false))) {
        AuthorizeOutcome::ErrorRedirect { description, .. } => {
            assert_eq!(description, "invalid code_challenge method")
        },
        other => panic!("{:?}", other),
    }
}

#[test]
fn authorize_decision_grants() {
    let o = resolved();
    let q = AuthorizeQuery::parse(
        "client_id=abc&response_type=code&redirect_uri=https%3A%2F%2Fapp.example%2Fcb&scope=openid%20email&state=xyz&code_challenge=ch&code_challenge_method=S256&prompt=consent&nonce=n1",
    );
    match authorize_decide(&o, "/err", &q, Some(&record(false))) {
        AuthorizeOutcome::Grant(g) => {
            assert_eq!(g.client_id, "abc");
            assert_eq!(g.redirect_uri, "https://app.example/cb");
            assert_eq!(g.scopes, strings(&["openid", "email"]));
            assert!(g.require_consent);
            assert_eq!(g.state, Some("xyz".to_string()));
            assert_eq!(g.code_challenge, Some("ch".to_string()));
            assert_eq!(g.code_challenge_method, "S256");
            assert_eq!(g.nonce, Some("n1".to_string()));
        },
        other => panic!("{:?}", other),
    }
    let plain = AuthorizeQuery::parse("client_id=abc&response_type=code&redirect_uri=https%3A%2F%2Fapp.example%2Fcb");
    match authorize_decide(&o, "/err", &plain, Some(&record(false))) {
        AuthorizeOutcome::Grant(g) => {
            assert_eq!(g.scopes, strings(&["openid"]));
            assert_eq!(g.code_challenge_method, "plain");
            assert!(!g.require_consent);
            assert_eq!(g.state, None);
        },
        other => panic!("{:?}", other),
    }
}

#[test]
fn authorize_redirect_targets() {
    let mut o = resolved();
    let q = AuthorizeQuery::parse(
        "client_id=abc&response_type=code&redirect_uri=https%3A%2F%2Fapp.example%2Fcb&state=a%20b&prompt=consent&scope=openid%20email",
    );
    let grant = match authorize_decide(&o, "/err", &q, Some(&record(false))) {
        AuthorizeOutcome::Grant(g) => g,
        other => panic!("{:?}", other),
    };
    assert_eq!(
        authorize_redirect(&o, &grant, "CODE").unwrap(),
        "https://app.example/cb?code=CODE&state=a+b"
    );
    o.consent_page = Some("/consent".to_string());
    assert_eq!(
        authorize_redirect(&o, &grant, "CODE").unwrap(),
        "/consent?consent_code=CODE&client_id=abc&scope=openid email"
    );
    assert_eq!(code_record_id("CODE"), "mcp_code_CODE");
    let record = code_record(&o, grant, "CODE", "u1".to_string(), 500, 1000);
    assert_eq!(record.id, "mcp_code_CODE");
    assert_eq!(record.identifier, "CODE");
    assert_eq!(record.expires_at, 1600);
    assert_eq!(record.grant.client_id, "abc");
    assert_eq!(record.grant.scopes, strings(&["openid", "email"]));
    assert_eq!(record.user_id, "u1");
    assert_eq!(record.auth_time, 500);
}

#[test]
fn authorize_redirect_refuses_unparsable_uri() {
    let o = resolved();
    let c = OAuthClientRecord { client_id: "abc".to_string(), redirect_urls: strings(&["not a url"]), disabled: false };
    let q = AuthorizeQuery::parse("client_id=abc&response_type=code&redirect_uri=not%20a%20url");
    let grant = match authorize_decide(&o, "/err", &q, Some(&c)) {
        AuthorizeOutcome::Grant(g) => g,
        other => panic!("{:?}", other),
    };
    assert!(authorize_redirect(&o, &grant, "CODE").is_err());
}

#[test]
fn mcp_schema_tables() {
    match oauth_application_schema() {
        SchemaContribution::Table(t) => {
            assert_eq!(t.model, "oauthApplication");
            assert_eq!(t.name, "oauth_applications");
            assert_eq!(t.order, Some(30));
            assert_eq!(t.fields.len(), 12);
            assert_eq!(t.fields[3].name, "clientId");
            assert!(t.fields[3].unique);
            assert_eq!(t.fields[8].kind, FieldKind::Boolean);
        },
        other => panic!("{:?}", other),
    }
    match oauth_access_token_schema() {
        SchemaContribution::Table(t) => {
            assert_eq!(t.name, "oauth_access_tokens");
            assert_eq!(t.order, Some(31));
            let client = t.fields[4].references.as_ref().unwrap();
            assert_eq!(client.table, "oauth_applications");
            assert_eq!(client.column, "clientId");
        },
        other => panic!("{:?}", other),
    }
    match oauth_consent_schema() {
        SchemaContribution::Table(t) => {
            assert_eq!(t.name, "oauth_consents");
            assert_eq!(t.fields.last().unwrap().name, "consentGiven");
        },
        other => panic!("{:?}", other),
    }
}

#[test]
fn unauthorized_body_escapes_control_characters() {
    let c = client("https://a.example/\tx", None);
    let body = String::from_utf8(c.unauthorized_response().unwrap().body).unwrap();
    assert!(body.contains("https://a.example/\\tx/.well-known"));
}
