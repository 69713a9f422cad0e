//! The tables that the organization plugin adds, and the active
//! organization field of sessions.

use vstd::prelude::*;

use crate::schema::{
    field, field_views, idx, opt, plain, refs, table, uniq, ContributionView, FieldKind, FieldView,
    SchemaContribution,
};

verus! {

/// The contributions as plain values.
pub open spec fn contribution_views(c: Seq<SchemaContribution>) -> Seq<ContributionView> {
    c.map_values(|x: SchemaContribution| x@)
}

/// The fields of the organizations table.
pub open spec fn organization_fields() -> Seq<FieldView> {
    seq![
        plain("id"@, FieldKind::String),
        plain("name"@, FieldKind::String),
        idx(uniq(plain("slug"@, FieldKind::String))),
        opt(plain("logo"@, FieldKind::String)),
        opt(plain("metadata"@, FieldKind::Json)),
        plain("created_at"@, FieldKind::Timestamp),
        opt(plain("updated_at"@, FieldKind::Timestamp)),
    ]
}

/// The fields of the members table.
pub open spec fn member_fields() -> Seq<FieldView> {
    seq![
        plain("id"@, FieldKind::String),
        refs(idx(plain("organization_id"@, FieldKind::String)), "organizations"@, "id"@),
        refs(idx(plain("user_id"@, FieldKind::String)), "users"@, "id"@),
        plain("role"@, FieldKind::String),
        plain("created_at"@, FieldKind::Timestamp),
    ]
}

/// The fields of the invitations table.
pub open spec fn invitation_fields() -> Seq<FieldView> {
    seq![
        plain("id"@, FieldKind::String),
        refs(idx(plain("organization_id"@, FieldKind::String)), "organizations"@, "id"@),
        idx(plain("email"@, FieldKind::String)),
        plain("role"@, FieldKind::String),
        idx(plain("status"@, FieldKind::String)),
        plain("expires_at"@, FieldKind::Timestamp),
        plain("created_at"@, FieldKind::Timestamp),
        refs(idx(plain("inviter_id"@, FieldKind::String)), "users"@, "id"@),
    ]
}

/// The organization plugin's schema.
pub open spec fn organization_schema() -> Seq<ContributionView> {
    seq![
        ContributionView::Table("organization"@, "organizations"@, Some(20u16), organization_fields()),
        ContributionView::Table("member"@, "members"@, Some(21u16), member_fields()),
        ContributionView::Table("invitation"@, "invitations"@, Some(22u16), invitation_fields()),
        ContributionView::Field(
            "session"@,
            opt(plain("active_organization_id"@, FieldKind::String)),
        ),
    ]
}

/// The tables of organizations, members and invitations, and the session's
/// active organization.
pub fn schema_contributions() -> (r: Vec<SchemaContribution>)
    ensures
        contribution_views(r@) == organization_schema(),
{
    let mut organizations = Vec::new();
    organizations.push(field("id", FieldKind::String));
    organizations.push(field("name", FieldKind::String));
    organizations.push(field("slug", FieldKind::String).unique().indexed());
    organizations.push(field("logo", FieldKind::String).optional());
    organizations.push(field("metadata", FieldKind::Json).optional());
    organizations.push(field("created_at", FieldKind::Timestamp));
    organizations.push(field("updated_at", FieldKind::Timestamp).optional());
    assert(field_views(organizations@) =~= organization_fields());

    let mut members = Vec::new();
    members.push(field("id", FieldKind::String));
    members.push(
        field("organization_id", FieldKind::String).indexed().references("organizations", "id"),
    );
    members.push(field("user_id", FieldKind::String).indexed().references("users", "id"));
    members.push(field("role", FieldKind::String));
    members.push(field("created_at", FieldKind::Timestamp));
    assert(field_views(members@) =~= member_fields());

    let mut invitations = Vec::new();
    invitations.push(field("id", FieldKind::String));
    invitations.push(
        field("organization_id", FieldKind::String).indexed().references("organizations", "id"),
    );
    invitations.push(field("email", FieldKind::String).indexed());
    invitations.push(field("role", FieldKind::String));
    invitations.push(field("status", FieldKind::String).indexed());
    invitations.push(field("expires_at", FieldKind::Timestamp));
    invitations.push(field("created_at", FieldKind::Timestamp));
    invitations.push(field("inviter_id", FieldKind::String).indexed().references("users", "id"));
    assert(field_views(invitations@) =~= invitation_fields());

    let mut r = Vec::new();
    r.push(table("organization", "organizations", Some(20), organizations));
    r.push(table("member", "members", Some(21), members));
    r.push(table("invitation", "invitations", Some(22), invitations));
    r.push(
        SchemaContribution::Field {
            model: "session".to_owned(),
            field: field("active_organization_id", FieldKind::String).optional(),
        },
    );
    assert(contribution_views(r@) =~= organization_schema());
    r
}

} // verus!
