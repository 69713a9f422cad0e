//! The tables that the MCP plugin adds: registered clients, issued tokens
//! and recorded consents.

use vstd::prelude::*;

use crate::schema::{
    field, field_views, idx, opt, plain, refs, table, uniq, ContributionView, FieldKind, FieldView,
    SchemaContribution,
};

verus! {

/// The fields of the registered-clients table.
pub open spec fn application_fields() -> Seq<FieldView> {
    seq![
        plain("name"@, FieldKind::String),
        opt(plain("icon"@, FieldKind::String)),
        opt(plain("metadata"@, FieldKind::String)),
        uniq(plain("clientId"@, FieldKind::String)),
        opt(plain("clientSecret"@, FieldKind::String)),
        plain("redirectUrls"@, FieldKind::String),
        plain("type"@, FieldKind::String),
        plain("authenticationScheme"@, FieldKind::String),
        opt(plain("disabled"@, FieldKind::Boolean)),
        refs(idx(opt(plain("userId"@, FieldKind::String))), "users"@, "id"@),
        plain("createdAt"@, FieldKind::Timestamp),
        plain("updatedAt"@, FieldKind::Timestamp),
    ]
}

/// The fields of the issued-tokens table.
pub open spec fn access_token_fields() -> Seq<FieldView> {
    seq![
        uniq(plain("accessToken"@, FieldKind::String)),
        uniq(plain("refreshToken"@, FieldKind::String)),
        plain("accessTokenExpiresAt"@, FieldKind::Timestamp),
        plain("refreshTokenExpiresAt"@, FieldKind::Timestamp),
        refs(idx(plain("clientId"@, FieldKind::String)), "oauth_applications"@, "clientId"@),
        refs(idx(opt(plain("userId"@, FieldKind::String))), "users"@, "id"@),
        plain("scopes"@, FieldKind::String),
        plain("createdAt"@, FieldKind::Timestamp),
        plain("updatedAt"@, FieldKind::Timestamp),
    ]
}

/// The fields of the consents table.
pub open spec fn consent_fields() -> Seq<FieldView> {
    seq![
        refs(idx(plain("clientId"@, FieldKind::String)), "oauth_applications"@, "clientId"@),
        refs(idx(plain("userId"@, FieldKind::String)), "users"@, "id"@),
        plain("scopes"@, FieldKind::String),
        plain("createdAt"@, FieldKind::Timestamp),
        plain("updatedAt"@, FieldKind::Timestamp),
        plain("consentGiven"@, FieldKind::Boolean),
    ]
}

/// The table of registered clients.
pub fn oauth_application_schema() -> (c: SchemaContribution)
    ensures
        c@ == ContributionView::Table(
            "oauthApplication"@,
            "oauth_applications"@,
            Some(30u16),
            application_fields(),
        ),
{
    let mut f = Vec::new();
    f.push(field("name", FieldKind::String));
    f.push(field("icon", FieldKind::String).optional());
    f.push(field("metadata", FieldKind::String).optional());
    f.push(field("clientId", FieldKind::String).unique());
    f.push(field("clientSecret", FieldKind::String).optional());
    f.push(field("redirectUrls", FieldKind::String));
    f.push(field("type", FieldKind::String));
    f.push(field("authenticationScheme", FieldKind::String));
    f.push(field("disabled", FieldKind::Boolean).optional());
    f.push(field("userId", FieldKind::String).optional().indexed().references("users", "id"));
    f.push(field("createdAt", FieldKind::Timestamp));
    f.push(field("updatedAt", FieldKind::Timestamp));
    assert(field_views(f@) =~= application_fields());
    table("oauthApplication", "oauth_applications", Some(30), f)
}

/// The table of issued tokens.
pub fn oauth_access_token_schema() -> (c: SchemaContribution)
    ensures
        c@ == ContributionView::Table(
            "oauthAccessToken"@,
            "oauth_access_tokens"@,
            Some(31u16),
            access_token_fields(),
        ),
{
    let mut f = Vec::new();
    f.push(field("accessToken", FieldKind::String).unique());
    f.push(field("refreshToken", FieldKind::String).unique());
    f.push(field("accessTokenExpiresAt", FieldKind::Timestamp));
    f.push(field("refreshTokenExpiresAt", FieldKind::Timestamp));
    f.push(
        field("clientId", FieldKind::String).indexed().references("oauth_applications", "clientId"),
    );
    f.push(field("userId", FieldKind::String).optional().indexed().references("users", "id"));
    f.push(field("scopes", FieldKind::String));
    f.push(field("createdAt", FieldKind::Timestamp));
    f.push(field("updatedAt", FieldKind::Timestamp));
    assert(field_views(f@) =~= access_token_fields());
    table("oauthAccessToken", "oauth_access_tokens", Some(31), f)
}

/// The table of recorded consents.
pub fn oauth_consent_schema() -> (c: SchemaContribution)
    ensures
        c@ == ContributionView::Table(
            "oauthConsent"@,
            "oauth_consents"@,
            Some(32u16),
            consent_fields(),
        ),
{
    let mut f = Vec::new();
    f.push(
        field("clientId", FieldKind::String).indexed().references("oauth_applications", "clientId"),
    );
    f.push(field("userId", FieldKind::String).indexed().references("users", "id"));
    f.push(field("scopes", FieldKind::String));
    f.push(field("createdAt", FieldKind::Timestamp));
    f.push(field("updatedAt", FieldKind::Timestamp));
    f.push(field("consentGiven", FieldKind::Boolean));
    assert(field_views(f@) =~= consent_fields());
    table("oauthConsent", "oauth_consents", Some(32), f)
}

} // verus!
