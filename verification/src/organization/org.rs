//! Decisions of the organization requests: create, check a slug, update,
//! delete and read in full.

use vstd::prelude::*;

use super::members::session_organization;
use super::models::{
    resolved_organization_id, Member, OrgErrorCode, SessionView, BAD_REQUEST, FORBIDDEN, NOT_FOUND,
    UNAUTHORIZED,
};
use super::options::OrganizationOptions;
use super::permissions::{has_permission, roles_grant, OrganizationPermission};
use super::steps::{refuse, refuse_with, Step, StoreQuery};
use crate::text::{chars_of, trim, trim_chars};

verus! {

/// Whether `s` is blank: nothing but white space.
pub open spec fn is_blank(s: Seq<char>) -> bool {
    trim(s).len() == 0
}

/// Whether `s` is blank.
pub fn blank(s: &str) -> (r: bool)
    ensures
        r == is_blank(s@),
{
    let c = chars_of(s);
    let t = trim_chars(&c);
    t.len() == 0
}

/// The body of a create request.
#[derive(Debug)]
pub struct CreateOrgInput {
    pub name: String,
    pub slug: String,
    pub user_id: Option<String>,
    pub keep_current_active_organization: bool,
}

/// What the store has answered so far for a create request.
#[derive(Debug)]
pub struct CreateOrgFacts {
    pub user_id: Option<Option<String>>,
    pub organization_count: Option<usize>,
    pub slug_taken: Option<bool>,
}

/// An organization to create with `name` and `slug` for `creator_id`, who
/// joins as its first member with `member_role` (the creator role); with
/// `default_team` a team named `Default` is created and joined too; with
/// `set_active` it becomes the session's active organization. The answer
/// holds the organization, that one member, and no invitations or teams.
#[derive(Debug)]
pub struct NewOrganization {
    pub name: String,
    pub slug: String,
    pub creator_id: String,
    pub member_role: String,
    pub default_team: bool,
    pub set_active: bool,
}

/// The name of the team created with an organization.
pub fn default_team_name() -> (s: &'static str)
    ensures
        s@ == "Default"@,
{
    "Default"
}

/// The decision of a create request.
pub open spec fn create_org_decision(
    session: Option<SessionView>,
    input: CreateOrgInput,
    facts: CreateOrgFacts,
    options: OrganizationOptions,
) -> Step<NewOrganization> {
    if is_blank(input.name@) || is_blank(input.slug@) {
        refuse(BAD_REQUEST, OrgErrorCode::InvalidRequestBody)
    } else {
        let creator: Option<String> = match session {
            Some(s) => Some(s.user_id),
            None => match facts.user_id {
                Some(Some(uid)) => Some(uid),
                _ => None,
            },
        };
        if session is None && input.user_id is Some && facts.user_id is None {
            Step::Fetch(StoreQuery::UserById { user_id: input.user_id->0 })
        } else if creator is None {
            refuse(UNAUTHORIZED, OrgErrorCode::Unauthorized)
        } else if !options.allow_user_to_create_organization && session is Some {
            refuse(FORBIDDEN, OrgErrorCode::YouAreNotAllowedToCreateANewOrganization)
        } else if options.organization_limit is Some && facts.organization_count is None {
            Step::Fetch(StoreQuery::OrganizationsForUser { user_id: creator->0 })
        } else if options.organization_limit is Some && facts.organization_count->0
            >= options.organization_limit->0 {
            refuse(FORBIDDEN, OrgErrorCode::YouHaveReachedTheMaximumNumberOfOrganizations)
        } else {
            match facts.slug_taken {
                None => Step::Fetch(StoreQuery::OrganizationBySlug { slug: input.slug }),
                Some(true) => refuse(BAD_REQUEST, OrgErrorCode::OrganizationAlreadyExists),
                Some(false) => Step::Proceed(
                    NewOrganization {
                        name: input.name,
                        slug: input.slug,
                        creator_id: creator->0,
                        member_role: options.creator_role,
                        default_team: options.teams.enabled && options.teams.create_default_team,
                        set_active: session is Some && !input.keep_current_active_organization,
                    },
                ),
            }
        }
    }
}

/// Decides the next turn of a create request.
pub fn decide_create_organization(
    session: &Option<SessionView>,
    input: &CreateOrgInput,
    facts: &CreateOrgFacts,
    options: &OrganizationOptions,
) -> (r: Step<NewOrganization>)
    ensures
        r == create_org_decision(*session, *input, *facts, *options),
{
    if blank(input.name.as_str()) || blank(input.slug.as_str()) {
        return refuse_with(BAD_REQUEST, OrgErrorCode::InvalidRequestBody);
    }
    let creator: String = match session {
        Some(s) => s.user_id.clone(),
        None => match &facts.user_id {
            Some(Some(uid)) => uid.clone(),
            Some(None) => return refuse_with(UNAUTHORIZED, OrgErrorCode::Unauthorized),
            None => match &input.user_id {
                Some(uid) => return Step::Fetch(StoreQuery::UserById { user_id: uid.clone() }),
                None => return refuse_with(UNAUTHORIZED, OrgErrorCode::Unauthorized),
            },
        },
    };
    if !options.allow_user_to_create_organization && session.is_some() {
        return refuse_with(FORBIDDEN, OrgErrorCode::YouAreNotAllowedToCreateANewOrganization);
    }
    match options.organization_limit {
        Some(limit) => match facts.organization_count {
            None => return Step::Fetch(StoreQuery::OrganizationsForUser { user_id: creator }),
            Some(n) => {
                if n >= limit {
                    return refuse_with(
                        FORBIDDEN,
                        OrgErrorCode::YouHaveReachedTheMaximumNumberOfOrganizations,
                    );
                }
            },
        },
        None => {},
    }
    match facts.slug_taken {
        None => Step::Fetch(StoreQuery::OrganizationBySlug { slug: input.slug.clone() }),
        Some(true) => refuse_with(BAD_REQUEST, OrgErrorCode::OrganizationAlreadyExists),
        Some(false) => Step::Proceed(
            NewOrganization {
                name: input.name.clone(),
                slug: input.slug.clone(),
                creator_id: creator,
                member_role: options.creator_role.clone(),
                default_team: options.teams.enabled && options.teams.create_default_team,
                set_active: session.is_some() && !input.keep_current_active_organization,
            },
        ),
    }
}

/// The decision of a slug check.
pub open spec fn check_slug_decision(slug: String, taken: Option<bool>) -> Step<()> {
    match taken {
        None => Step::Fetch(StoreQuery::OrganizationBySlug { slug }),
        Some(true) => refuse(BAD_REQUEST, OrgErrorCode::OrganizationSlugAlreadyTaken),
        Some(false) => Step::Proceed(()),
    }
}

/// Decides the next turn of a slug check.
pub fn decide_check_slug(slug: &String, taken: Option<bool>) -> (r: Step<()>)
    ensures
        r == check_slug_decision(*slug, taken),
{
    match taken {
        None => Step::Fetch(StoreQuery::OrganizationBySlug { slug: slug.clone() }),
        Some(true) => refuse_with(BAD_REQUEST, OrgErrorCode::OrganizationSlugAlreadyTaken),
        Some(false) => Step::Proceed(()),
    }
}

/// The fields of an update, after the update hook has run.
#[derive(Debug)]
pub struct OrgUpdateData {
    pub name: Option<String>,
    pub slug: Option<String>,
    pub logo: Option<String>,
    /// The metadata as JSON text.
    pub metadata: Option<String>,
}

/// The write an accepted update makes to organization `organization_id`:
/// name and slug where given (kept otherwise), logo and metadata always
/// (absent meaning cleared).
#[derive(Debug)]
pub struct OrganizationWrite {
    pub organization_id: String,
    pub name: Option<String>,
    pub slug: Option<String>,
    pub logo: Option<String>,
    pub metadata: Option<String>,
}

/// An organization's stored fields.
#[derive(Debug)]
pub struct OrganizationRecord {
    pub id: String,
    pub name: String,
    pub slug: String,
    pub logo: Option<String>,
    pub metadata: Option<String>,
}

/// The organization after a write: name and slug replaced where the write
/// gives them, logo and metadata replaced, id kept.
pub fn apply_organization_write(current: OrganizationRecord, write: &OrganizationWrite) -> (r: OrganizationRecord)
    ensures
        r.id == current.id,
        r.name == (match write.name {
            Some(n) => n,
            None => current.name,
        }),
        r.slug == (match write.slug {
            Some(s) => s,
            None => current.slug,
        }),
        r.logo == write.logo,
        r.metadata == write.metadata,
{
    OrganizationRecord {
        id: current.id,
        name: match &write.name {
            Some(n) => n.clone(),
            None => current.name,
        },
        slug: match &write.slug {
            Some(s) => s.clone(),
            None => current.slug,
        },
        logo: write.logo.clone(),
        metadata: write.metadata.clone(),
    }
}

/// What the store has answered so far for an update request; `slug_owner`
/// is the id of the organization that already has the new slug, if any.
#[derive(Debug)]
pub struct UpdateOrgFacts {
    pub member: Option<Option<Member>>,
    pub organization_exists: Option<bool>,
    pub data: Option<OrgUpdateData>,
    pub slug_owner: Option<Option<String>>,
}

/// The decision of an update request.
pub open spec fn update_org_decision(
    session: Option<SessionView>,
    explicit_org: Option<String>,
    facts: UpdateOrgFacts,
    creator_role: Seq<char>,
) -> Step<OrganizationWrite> {
    match session {
        None => refuse(UNAUTHORIZED, OrgErrorCode::Unauthorized),
        Some(s) => match resolved_organization_id(explicit_org, s.active_organization_id) {
            None => refuse(BAD_REQUEST, OrgErrorCode::OrganizationNotFound),
            Some(org) => match facts.member {
                None => Step::Fetch(StoreQuery::MemberByOrgUser { organization_id: org, user_id: s.user_id }),
                Some(None) => refuse(BAD_REQUEST, OrgErrorCode::UserIsNotAMemberOfTheOrganization),
                Some(Some(m)) => if !roles_grant(m.role@, creator_role, OrganizationPermission::OrganizationUpdate) {
                    refuse(FORBIDDEN, OrgErrorCode::YouAreNotAllowedToUpdateThisOrganization)
                } else {
                    match facts.organization_exists {
                        None => Step::Fetch(StoreQuery::OrganizationById { organization_id: org }),
                        Some(false) => refuse(BAD_REQUEST, OrgErrorCode::OrganizationNotFound),
                        Some(true) => match facts.data {
                            None => Step::Fetch(StoreQuery::RunBeforeUpdateHook),
                            Some(data) => if data.slug is Some && is_blank(data.slug->0@) {
                                refuse(BAD_REQUEST, OrgErrorCode::InvalidRequestBody)
                            } else if data.slug is Some && facts.slug_owner is None {
                                Step::Fetch(StoreQuery::OrganizationBySlug { slug: data.slug->0 })
                            } else if data.slug is Some && facts.slug_owner->0 is Some
                                && facts.slug_owner->0->0@ != org@ {
                                refuse(BAD_REQUEST, OrgErrorCode::OrganizationSlugAlreadyTaken)
                            } else if data.name is Some && is_blank(data.name->0@) {
                                refuse(BAD_REQUEST, OrgErrorCode::InvalidRequestBody)
                            } else {
                                Step::Proceed(
                                    OrganizationWrite {
                                        organization_id: org,
                                        name: data.name,
                                        slug: data.slug,
                                        logo: data.logo,
                                        metadata: data.metadata,
                                    },
                                )
                            },
                        },
                    }
                },
            },
        },
    }
}

/// Decides the next turn of an update request; `Proceed` carries the write
/// to make, built from the hook's data.
pub fn decide_update_organization(
    session: &Option<SessionView>,
    explicit_org: &Option<String>,
    facts: &UpdateOrgFacts,
    options: &OrganizationOptions,
) -> (r: Step<OrganizationWrite>)
    ensures
        r == update_org_decision(*session, *explicit_org, *facts, options.creator_role@),
{
    let s = match session {
        None => return refuse_with(UNAUTHORIZED, OrgErrorCode::Unauthorized),
        Some(s) => s,
    };
    let org = match session_organization(explicit_org, s) {
        None => return refuse_with(BAD_REQUEST, OrgErrorCode::OrganizationNotFound),
        Some(org) => org,
    };
    let m = match &facts.member {
        None => return Step::Fetch(
            StoreQuery::MemberByOrgUser { organization_id: org, user_id: s.user_id.clone() },
        ),
        Some(None) => return refuse_with(BAD_REQUEST, OrgErrorCode::UserIsNotAMemberOfTheOrganization),
        Some(Some(m)) => m,
    };
    if !has_permission(m.role.as_str(), options, OrganizationPermission::OrganizationUpdate) {
        return refuse_with(FORBIDDEN, OrgErrorCode::YouAreNotAllowedToUpdateThisOrganization);
    }
    match facts.organization_exists {
        None => return Step::Fetch(StoreQuery::OrganizationById { organization_id: org }),
        Some(false) => return refuse_with(BAD_REQUEST, OrgErrorCode::OrganizationNotFound),
        Some(true) => {},
    }
    let data = match &facts.data {
        None => return Step::Fetch(StoreQuery::RunBeforeUpdateHook),
        Some(data) => data,
    };
    match &data.slug {
        Some(slug) => {
            if blank(slug.as_str()) {
                return refuse_with(BAD_REQUEST, OrgErrorCode::InvalidRequestBody);
            }
            match &facts.slug_owner {
                None => return Step::Fetch(StoreQuery::OrganizationBySlug { slug: slug.clone() }),
                Some(Some(owner)) => {
                    if !crate::text::str_eq(owner.as_str(), org.as_str()) {
                        return refuse_with(BAD_REQUEST, OrgErrorCode::OrganizationSlugAlreadyTaken);
                    }
                },
                Some(None) => {},
            }
        },
        None => {},
    }
    match &data.name {
        Some(name) => {
            if blank(name.as_str()) {
                return refuse_with(BAD_REQUEST, OrgErrorCode::InvalidRequestBody);
            }
        },
        None => {},
    }
    Step::Proceed(
        OrganizationWrite {
            organization_id: org,
            name: data.name.clone(),
            slug: data.slug.clone(),
            logo: data.logo.clone(),
            metadata: data.metadata.clone(),
        },
    )
}

/// What the store has answered so far for a delete request.
#[derive(Debug)]
pub struct DeleteOrgFacts {
    pub member: Option<Option<Member>>,
    pub organization_exists: Option<bool>,
}

/// A deletion to carry out; `clear_active` unsets the session's active
/// organization and team first.
#[derive(Debug)]
pub struct OrgDeletion {
    pub organization_id: String,
    pub clear_active: bool,
}

/// The decision of a delete request.
pub open spec fn delete_org_decision(
    session: Option<SessionView>,
    organization_id: String,
    facts: DeleteOrgFacts,
    options: OrganizationOptions,
) -> Step<OrgDeletion> {
    if options.disable_organization_deletion {
        refuse(NOT_FOUND, OrgErrorCode::OrganizationDeletionDisabled)
    } else {
        match session {
            None => refuse(UNAUTHORIZED, OrgErrorCode::Unauthorized),
            Some(s) => match facts.member {
                None => Step::Fetch(
                    StoreQuery::MemberByOrgUser { organization_id, user_id: s.user_id },
                ),
                Some(None) => refuse(BAD_REQUEST, OrgErrorCode::UserIsNotAMemberOfTheOrganization),
                Some(Some(m)) => if !roles_grant(
                    m.role@,
                    options.creator_role@,
                    OrganizationPermission::OrganizationDelete,
                ) {
                    refuse(FORBIDDEN, OrgErrorCode::YouAreNotAllowedToDeleteThisOrganization)
                } else {
                    match facts.organization_exists {
                        None => Step::Fetch(StoreQuery::OrganizationById { organization_id }),
                        Some(false) => refuse(BAD_REQUEST, OrgErrorCode::OrganizationNotFound),
                        Some(true) => Step::Proceed(
                            OrgDeletion {
                                organization_id,
                                clear_active: s.active_organization_id matches Some(a) && a@
                                    == organization_id@,
                            },
                        ),
                    }
                },
            },
        }
    }
}

/// Decides the next turn of a delete request.
pub fn decide_delete_organization(
    session: &Option<SessionView>,
    organization_id: &String,
    facts: &DeleteOrgFacts,
    options: &OrganizationOptions,
) -> (r: Step<OrgDeletion>)
    ensures
        r == delete_org_decision(*session, *organization_id, *facts, *options),
{
    if options.disable_organization_deletion {
        return refuse_with(NOT_FOUND, OrgErrorCode::OrganizationDeletionDisabled);
    }
    let s = match session {
        None => return refuse_with(UNAUTHORIZED, OrgErrorCode::Unauthorized),
        Some(s) => s,
    };
    let m = match &facts.member {
        None => return Step::Fetch(
            StoreQuery::MemberByOrgUser {
                organization_id: organization_id.clone(),
                user_id: s.user_id.clone(),
            },
        ),
        Some(None) => return refuse_with(BAD_REQUEST, OrgErrorCode::UserIsNotAMemberOfTheOrganization),
        Some(Some(m)) => m,
    };
    if !has_permission(m.role.as_str(), options, OrganizationPermission::OrganizationDelete) {
        return refuse_with(FORBIDDEN, OrgErrorCode::YouAreNotAllowedToDeleteThisOrganization);
    }
    match facts.organization_exists {
        None => Step::Fetch(StoreQuery::OrganizationById { organization_id: organization_id.clone() }),
        Some(false) => refuse_with(BAD_REQUEST, OrgErrorCode::OrganizationNotFound),
        Some(true) => {
            let clear_active = match &s.active_organization_id {
                Some(a) => crate::text::str_eq(a.as_str(), organization_id.as_str()),
                None => false,
            };
            Step::Proceed(OrgDeletion { organization_id: organization_id.clone(), clear_active })
        },
    }
}

/// What the store has answered so far for a full read.
#[derive(Debug)]
pub struct FullOrgFacts {
    pub organization_exists: Option<bool>,
    pub member: Option<Option<Member>>,
}

/// The decision of a full read of the active organization; `Proceed` names
/// it.
pub open spec fn full_org_decision(session: Option<SessionView>, facts: FullOrgFacts) -> Step<String> {
    match session {
        None => refuse(UNAUTHORIZED, OrgErrorCode::Unauthorized),
        Some(s) => match s.active_organization_id {
            None => refuse(BAD_REQUEST, OrgErrorCode::NoActiveOrganization),
            Some(org) => match facts.organization_exists {
                None => Step::Fetch(StoreQuery::OrganizationById { organization_id: org }),
                Some(false) => refuse(BAD_REQUEST, OrgErrorCode::OrganizationNotFound),
                Some(true) => match facts.member {
                    None => Step::Fetch(
                        StoreQuery::MemberByOrgUser { organization_id: org, user_id: s.user_id },
                    ),
                    Some(None) => refuse(BAD_REQUEST, OrgErrorCode::UserIsNotAMemberOfTheOrganization),
                    Some(Some(_)) => Step::Proceed(org),
                },
            },
        },
    }
}

/// Decides the next turn of a full read of the active organization.
pub fn decide_full_organization(session: &Option<SessionView>, facts: &FullOrgFacts) -> (r: Step<String>)
    ensures
        r == full_org_decision(*session, *facts),
{
    let s = match session {
        None => return refuse_with(UNAUTHORIZED, OrgErrorCode::Unauthorized),
        Some(s) => s,
    };
    let org = match &s.active_organization_id {
        None => return refuse_with(BAD_REQUEST, OrgErrorCode::NoActiveOrganization),
        Some(org) => org.clone(),
    };
    match facts.organization_exists {
        None => return Step::Fetch(StoreQuery::OrganizationById { organization_id: org }),
        Some(false) => return refuse_with(BAD_REQUEST, OrgErrorCode::OrganizationNotFound),
        Some(true) => {},
    }
    match &facts.member {
        None => Step::Fetch(StoreQuery::MemberByOrgUser { organization_id: org, user_id: s.user_id.clone() }),
        Some(None) => refuse_with(BAD_REQUEST, OrgErrorCode::UserIsNotAMemberOfTheOrganization),
        Some(Some(_)) => Step::Proceed(org),
    }
}

/// A created organization never exceeds the creator's organization limit,
/// never reuses a slug, and never comes from a signed-in user when creation
/// by users is off.
pub proof fn law_created_organization_is_permitted(
    session: Option<SessionView>,
    input: CreateOrgInput,
    facts: CreateOrgFacts,
    options: OrganizationOptions,
)
    requires
        create_org_decision(session, input, facts, options) is Proceed,
    ensures
        !is_blank(input.name@) && !is_blank(input.slug@),
        facts.slug_taken == Some(false),
        options.organization_limit matches Some(limit) ==> (facts.organization_count matches Some(n) && n < limit),
        session is Some ==> options.allow_user_to_create_organization,
{
}

/// Only a member whose roles allow deletion deletes an organization, and
/// never when deletion is disabled.
pub proof fn law_deletion_is_permitted(
    session: Option<SessionView>,
    organization_id: String,
    facts: DeleteOrgFacts,
    options: OrganizationOptions,
)
    requires
        delete_org_decision(session, organization_id, facts, options) is Proceed,
    ensures
        !options.disable_organization_deletion,
        facts.member matches Some(Some(m)) && roles_grant(
            m.role@,
            options.creator_role@,
            OrganizationPermission::OrganizationDelete,
        ),
{
}

/// An accepted update writes the hook's data as it stands, to the
/// organization the request addresses, for a member allowed to update it:
/// the name and slug given (none meaning kept), the logo and metadata given
/// (none meaning cleared); a slug written is not blank and no other
/// organization has it, and a name written is not blank.
pub proof fn law_update_writes_hook_data(
    session: Option<SessionView>,
    explicit_org: Option<String>,
    facts: UpdateOrgFacts,
    creator_role: Seq<char>,
)
    ensures
        update_org_decision(session, explicit_org, facts, creator_role) matches Step::Proceed(w) ==> {
            &&& session matches Some(s)
            &&& resolved_organization_id(explicit_org, s.active_organization_id) == Some(w.organization_id)
            &&& facts.member matches Some(Some(m))
            &&& roles_grant(m.role@, creator_role, OrganizationPermission::OrganizationUpdate)
            &&& facts.organization_exists == Some(true)
            &&& facts.data matches Some(d)
            &&& w.name == d.name
            &&& w.slug == d.slug
            &&& w.logo == d.logo
            &&& w.metadata == d.metadata
            &&& (d.name matches Some(n) ==> !is_blank(n@))
            &&& (d.slug matches Some(slug) ==> !is_blank(slug@) && (facts.slug_owner matches Some(owner)
                && (owner matches Some(o) ==> o@ == w.organization_id@)))
        },
{
}

/// An update by a member allowed to make it, of an existing organization,
/// with data whose name and slug (where given) are not blank and whose slug
/// no other organization has, goes ahead.
pub proof fn law_valid_update_goes_ahead(
    session: Option<SessionView>,
    explicit_org: Option<String>,
    facts: UpdateOrgFacts,
    creator_role: Seq<char>,
    s: SessionView,
    org: String,
    m: Member,
    d: OrgUpdateData,
)
    requires
        session == Some(s),
        resolved_organization_id(explicit_org, s.active_organization_id) == Some(org),
        facts.member == Some(Some(m)),
        roles_grant(m.role@, creator_role, OrganizationPermission::OrganizationUpdate),
        facts.organization_exists == Some(true),
        facts.data == Some(d),
        d.name matches Some(n) ==> !is_blank(n@),
        d.slug matches Some(slug) ==> !is_blank(slug@) && (facts.slug_owner matches Some(owner) && (owner matches Some(
            o,
        ) ==> o@ == org@)),
    ensures
        update_org_decision(session, explicit_org, facts, creator_role) is Proceed,
{
}

/// A created organization has the requested name and slug, is created by
/// the signed-in user (or, without a session, by the user the store found),
/// who joins with the creator role; the default team is made when teams and
/// default teams are on, and the organization becomes the active one for a
/// signed-in creator unless asked to keep the current one.
pub proof fn law_created_organization_is_as_requested(
    session: Option<SessionView>,
    input: CreateOrgInput,
    facts: CreateOrgFacts,
    options: OrganizationOptions,
)
    ensures
        create_org_decision(session, input, facts, options) matches Step::Proceed(n) ==> {
            &&& n.name == input.name
            &&& n.slug == input.slug
            &&& (session matches Some(s) ==> n.creator_id == s.user_id)
            &&& (session is None ==> facts.user_id == Some(Some(n.creator_id)))
            &&& n.member_role == options.creator_role
            &&& n.default_team == (options.teams.enabled && options.teams.create_default_team)
            &&& n.set_active == (session is Some && !input.keep_current_active_organization)
        },
{
}

/// A deletion deletes the requested organization, and clears the session's
/// active organization exactly when it is that one.
pub proof fn law_deletion_is_of_requested_organization(
    session: Option<SessionView>,
    organization_id: String,
    facts: DeleteOrgFacts,
    options: OrganizationOptions,
)
    ensures
        delete_org_decision(session, organization_id, facts, options) matches Step::Proceed(d) ==> {
            &&& d.organization_id == organization_id
            &&& session matches Some(s)
            &&& d.clear_active == (s.active_organization_id matches Some(a) && a@ == organization_id@)
            &&& facts.organization_exists == Some(true)
        },
{
}

/// A member found in the addressed organization is refused an update, or
/// a deletion, for lack of rights exactly when their roles do not grant
/// updating, or deleting, the organization.
pub proof fn law_org_rights_decide_refusal(
    session: Option<SessionView>,
    explicit_org: Option<String>,
    update: UpdateOrgFacts,
    organization_id: String,
    delete: DeleteOrgFacts,
    options: OrganizationOptions,
)
    ensures
        session matches Some(s) ==> (resolved_organization_id(explicit_org, s.active_organization_id) is Some ==> (
        update.member matches Some(Some(m)) ==> (update_org_decision(session, explicit_org, update, options.creator_role@)
            == refuse::<OrganizationWrite>(FORBIDDEN, OrgErrorCode::YouAreNotAllowedToUpdateThisOrganization)
            <==> !roles_grant(m.role@, options.creator_role@, OrganizationPermission::OrganizationUpdate)))),
        session is Some && !options.disable_organization_deletion ==> (delete.member matches Some(Some(m)) ==> (
        delete_org_decision(session, organization_id, delete, options) == refuse::<OrgDeletion>(
            FORBIDDEN,
            OrgErrorCode::YouAreNotAllowedToDeleteThisOrganization,
        ) <==> !roles_grant(m.role@, options.creator_role@, OrganizationPermission::OrganizationDelete))),
{
}

} // verus!
