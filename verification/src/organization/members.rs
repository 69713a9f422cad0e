//! Decisions of the member requests: add, remove, change role, leave, and
//! the reads of the caller's own membership.

use vstd::prelude::*;

use super::models::{
    resolved_organization_id, Member, OrgErrorCode, SessionView, BAD_REQUEST, FORBIDDEN,
    UNAUTHORIZED,
};
use super::options::OrganizationOptions;
use super::permissions::{
    has_permission, normalized_roles, role_input_text, roles_grant, OrganizationPermission, RoleInput,
};
use super::steps::{
    count_role_holders, has_role_entry, holds_role, member_roles, refuse, refuse_with, role_holders,
    Step, StoreQuery,
};
use crate::text::contains_char;

verus! {

/// The body of an add-member request; `role` is already in normal form.
#[derive(Debug, Clone)]
pub struct AddMemberInput {
    pub user_id: String,
    pub role: String,
    pub organization_id: Option<String>,
}

/// What the store has answered so far for an add-member request
/// (`None`: not asked yet).
#[derive(Debug, Clone)]
pub struct AddMemberFacts {
    pub actor: Option<Option<Member>>,
    pub user_id: Option<Option<String>>,
    pub already_member: Option<bool>,
    pub member_count: Option<u64>,
    pub organization_exists: Option<bool>,
}

/// A member to create.
#[derive(Debug, Clone)]
pub struct NewMember {
    pub organization_id: String,
    pub user_id: String,
    pub role: String,
}

/// The active organization of an optional session.
pub open spec fn active_of(session: Option<SessionView>) -> Option<String> {
    match session {
        Some(s) => s.active_organization_id,
        None => None,
    }
}

/// The decision of an add-member request.
pub open spec fn add_member_decision(
    session: Option<SessionView>,
    input: AddMemberInput,
    facts: AddMemberFacts,
    creator_role: Seq<char>,
    membership_limit: usize,
) -> Step<NewMember> {
    match resolved_organization_id(input.organization_id, active_of(session)) {
        None => refuse(BAD_REQUEST, OrgErrorCode::NoActiveOrganization),
        Some(org) => match session {
            None => refuse(UNAUTHORIZED, OrgErrorCode::Unauthorized),
            Some(s) => match facts.actor {
                None => Step::Fetch(
                    StoreQuery::MemberByOrgUser { organization_id: org, user_id: s.user_id },
                ),
                Some(None) => refuse(BAD_REQUEST, OrgErrorCode::MemberNotFound),
                Some(Some(actor)) => if !roles_grant(
                    actor.role@,
                    creator_role,
                    OrganizationPermission::MemberCreate,
                ) {
                    refuse(FORBIDDEN, OrgErrorCode::YouAreNotAllowedToUpdateThisMember)
                } else {
                    match facts.user_id {
                        None => Step::Fetch(StoreQuery::UserById { user_id: input.user_id }),
                        Some(None) => refuse(BAD_REQUEST, OrgErrorCode::UserNotFound),
                        Some(Some(uid)) => match facts.already_member {
                            None => Step::Fetch(
                                StoreQuery::MemberByOrgUser { organization_id: org, user_id: uid },
                            ),
                            Some(true) => refuse(
                                BAD_REQUEST,
                                OrgErrorCode::UserIsAlreadyAMemberOfThisOrganization,
                            ),
                            Some(false) => match facts.member_count {
                                None => Step::Fetch(
                                    StoreQuery::CountMembers { organization_id: org },
                                ),
                                Some(c) => if c as usize >= membership_limit {
                                    refuse(
                                        FORBIDDEN,
                                        OrgErrorCode::OrganizationMembershipLimitReached,
                                    )
                                } else {
                                    match facts.organization_exists {
                                        None => Step::Fetch(
                                            StoreQuery::OrganizationById { organization_id: org },
                                        ),
                                        Some(false) => refuse(
                                            BAD_REQUEST,
                                            OrgErrorCode::OrganizationNotFound,
                                        ),
                                        Some(true) => Step::Proceed(
                                            NewMember {
                                                organization_id: org,
                                                user_id: uid,
                                                role: input.role,
                                            },
                                        ),
                                    }
                                },
                            },
                        },
                    }
                },
            },
        },
    }
}

/// The organization a request addresses, from the body and the session.
pub fn target_organization(explicit: &Option<String>, session: &Option<SessionView>) -> (r: Option<String>)
    ensures
        r == resolved_organization_id(*explicit, active_of(*session)),
{
    match explicit {
        Some(id) => Some(id.clone()),
        None => match session {
            Some(s) => match &s.active_organization_id {
                Some(a) => Some(a.clone()),
                None => None,
            },
            None => None,
        },
    }
}

/// The organization a request of a signed-in caller addresses.
pub fn session_organization(explicit: &Option<String>, session: &SessionView) -> (r: Option<String>)
    ensures
        r == resolved_organization_id(*explicit, session.active_organization_id),
{
    match explicit {
        Some(id) => Some(id.clone()),
        None => match &session.active_organization_id {
            Some(a) => Some(a.clone()),
            None => None,
        },
    }
}

/// Decides the next turn of an add-member request.
pub fn decide_add_member(
    session: &Option<SessionView>,
    input: &AddMemberInput,
    facts: &AddMemberFacts,
    options: &OrganizationOptions,
) -> (r: Step<NewMember>)
    ensures
        r == add_member_decision(
            *session,
            *input,
            *facts,
            options.creator_role@,
            options.membership_limit,
        ),
{
    let org = match target_organization(&input.organization_id, session) {
        None => return refuse_with(BAD_REQUEST, OrgErrorCode::NoActiveOrganization),
        Some(org) => org,
    };
    let s = match session {
        None => return refuse_with(UNAUTHORIZED, OrgErrorCode::Unauthorized),
        Some(s) => s,
    };
    let actor = match &facts.actor {
        None => return Step::Fetch(
            StoreQuery::MemberByOrgUser { organization_id: org, user_id: s.user_id.clone() },
        ),
        Some(None) => return refuse_with(BAD_REQUEST, OrgErrorCode::MemberNotFound),
        Some(Some(actor)) => actor,
    };
    if !has_permission(actor.role.as_str(), options, OrganizationPermission::MemberCreate) {
        return refuse_with(FORBIDDEN, OrgErrorCode::YouAreNotAllowedToUpdateThisMember);
    }
    let uid = match &facts.user_id {
        None => return Step::Fetch(StoreQuery::UserById { user_id: input.user_id.clone() }),
        Some(None) => return refuse_with(BAD_REQUEST, OrgErrorCode::UserNotFound),
        Some(Some(uid)) => uid,
    };
    match facts.already_member {
        None => return Step::Fetch(
            StoreQuery::MemberByOrgUser { organization_id: org, user_id: uid.clone() },
        ),
        Some(true) => return refuse_with(
            BAD_REQUEST,
            OrgErrorCode::UserIsAlreadyAMemberOfThisOrganization,
        ),
        Some(false) => {},
    }
    match facts.member_count {
        None => return Step::Fetch(StoreQuery::CountMembers { organization_id: org }),
        Some(c) => {
            if c as usize >= options.membership_limit {
                return refuse_with(FORBIDDEN, OrgErrorCode::OrganizationMembershipLimitReached);
            }
        },
    }
    match facts.organization_exists {
        None => Step::Fetch(StoreQuery::OrganizationById { organization_id: org }),
        Some(false) => refuse_with(BAD_REQUEST, OrgErrorCode::OrganizationNotFound),
        Some(true) => Step::Proceed(
            NewMember { organization_id: org, user_id: uid.clone(), role: input.role.clone() },
        ),
    }
}


impl AddMemberInput {
    /// The input of an add-member request, with the role in normal form.
    pub fn new(user_id: String, role: &RoleInput, organization_id: Option<String>) -> (r: Self)
        ensures
            r.user_id == user_id,
            r.role@ == normalized_roles(role_input_text(*role)),
            r.organization_id == organization_id,
    {
        AddMemberInput { user_id, role: role.normalized(), organization_id }
    }
}

/// What the store has answered so far for a remove-member request.
#[derive(Debug, Clone)]
pub struct RemoveMemberFacts {
    pub actor: Option<Option<Member>>,
    pub target: Option<Option<Member>>,
    pub members: Option<Vec<Member>>,
}

/// A member to remove; `clear_active` tells whether the caller removed
/// themselves from their active organization, which then becomes unset.
#[derive(Debug, Clone)]
pub struct MemberRemoval {
    pub member: Member,
    pub clear_active: bool,
}

/// Whether `org` is the session's active organization.
pub open spec fn is_active_organization(session: SessionView, org: Seq<char>) -> bool {
    match session.active_organization_id {
        Some(a) => a@ == org,
        None => false,
    }
}

/// The decision of a remove-member request, given the signed-in session.
pub open spec fn remove_member_decision(
    session: SessionView,
    member_id_or_email: String,
    explicit_org: Option<String>,
    facts: RemoveMemberFacts,
    creator_role: Seq<char>,
) -> Step<MemberRemoval> {
    match resolved_organization_id(explicit_org, session.active_organization_id) {
        None => refuse(BAD_REQUEST, OrgErrorCode::NoActiveOrganization),
        Some(org) => match facts.actor {
            None => Step::Fetch(
                StoreQuery::MemberByOrgUser { organization_id: org, user_id: session.user_id },
            ),
            Some(None) => refuse(BAD_REQUEST, OrgErrorCode::MemberNotFound),
            Some(Some(actor)) => match facts.target {
                None => if member_id_or_email@.contains('@') {
                    Step::Fetch(
                        StoreQuery::MemberByEmail { organization_id: org, email: member_id_or_email },
                    )
                } else {
                    Step::Fetch(StoreQuery::MemberById { member_id: member_id_or_email })
                },
                Some(None) => refuse(BAD_REQUEST, OrgErrorCode::MemberNotFound),
                Some(Some(target)) => if target.organization_id@ != org@ {
                    refuse(BAD_REQUEST, OrgErrorCode::MemberNotFound)
                } else if has_role_entry(target.role@, creator_role) && facts.members is None {
                    Step::Fetch(StoreQuery::Members { organization_id: org })
                } else if has_role_entry(target.role@, creator_role) && role_holders(
                    member_roles(facts.members->0@),
                    creator_role,
                ) <= 1 {
                    refuse(BAD_REQUEST, OrgErrorCode::YouCannotLeaveTheOrganizationAsTheOnlyOwner)
                } else if !roles_grant(actor.role@, creator_role, OrganizationPermission::MemberDelete) {
                    refuse(UNAUTHORIZED, OrgErrorCode::YouAreNotAllowedToDeleteThisMember)
                } else {
                    Step::Proceed(
                        MemberRemoval {
                            member: target,
                            clear_active: target.user_id@ == session.user_id@
                                && is_active_organization(session, target.organization_id@),
                        },
                    )
                },
            },
        },
    }
}

/// Decides the next turn of a remove-member request.
pub fn decide_remove_member(
    session: &SessionView,
    member_id_or_email: &String,
    explicit_org: &Option<String>,
    facts: &RemoveMemberFacts,
    options: &OrganizationOptions,
) -> (r: Step<MemberRemoval>)
    ensures
        r == remove_member_decision(
            *session,
            *member_id_or_email,
            *explicit_org,
            *facts,
            options.creator_role@,
        ),
{
    let org = match session_organization(explicit_org, session) {
        None => return refuse_with(BAD_REQUEST, OrgErrorCode::NoActiveOrganization),
        Some(org) => org,
    };
    let actor = match &facts.actor {
        None => return Step::Fetch(
            StoreQuery::MemberByOrgUser { organization_id: org, user_id: session.user_id.clone() },
        ),
        Some(None) => return refuse_with(BAD_REQUEST, OrgErrorCode::MemberNotFound),
        Some(Some(actor)) => actor,
    };
    let target = match &facts.target {
        None => {
            let key = crate::text::chars_of(member_id_or_email.as_str());
            if contains_char(&key, '@') {
                return Step::Fetch(
                    StoreQuery::MemberByEmail {
                        organization_id: org,
                        email: member_id_or_email.clone(),
                    },
                );
            } else {
                return Step::Fetch(StoreQuery::MemberById { member_id: member_id_or_email.clone() });
            }
        },
        Some(None) => return refuse_with(BAD_REQUEST, OrgErrorCode::MemberNotFound),
        Some(Some(target)) => target,
    };
    if !crate::text::str_eq(target.organization_id.as_str(), org.as_str()) {
        return refuse_with(BAD_REQUEST, OrgErrorCode::MemberNotFound);
    }
    if holds_role(target.role.as_str(), options.creator_role.as_str()) {
        match &facts.members {
            None => return Step::Fetch(StoreQuery::Members { organization_id: org }),
            Some(members) => {
                if count_role_holders(members, options.creator_role.as_str()) <= 1 {
                    return refuse_with(
                        BAD_REQUEST,
                        OrgErrorCode::YouCannotLeaveTheOrganizationAsTheOnlyOwner,
                    );
                }
            },
        }
    }
    if !has_permission(actor.role.as_str(), options, OrganizationPermission::MemberDelete) {
        return refuse_with(UNAUTHORIZED, OrgErrorCode::YouAreNotAllowedToDeleteThisMember);
    }
    let same_user = crate::text::str_eq(target.user_id.as_str(), session.user_id.as_str());
    let was_active = match &session.active_organization_id {
        Some(a) => crate::text::str_eq(a.as_str(), target.organization_id.as_str()),
        None => false,
    };
    Step::Proceed(MemberRemoval { member: target.clone(), clear_active: same_user && was_active })
}

/// What the store has answered so far for a change-of-role request.
#[derive(Debug, Clone)]
pub struct UpdateRoleFacts {
    pub actor: Option<Option<Member>>,
    pub target: Option<Option<Member>>,
    pub members: Option<Vec<Member>>,
}

/// A role change to store.
#[derive(Debug, Clone)]
pub struct RoleChange {
    pub member_id: String,
    pub role: String,
}

/// Whether changing `target` to `next_role` would take the last holder of
/// the creator role away from the caller themselves, before counting holders.
pub open spec fn demotes_self(
    session: SessionView,
    target: Member,
    next_role: Seq<char>,
    creator_role: Seq<char>,
) -> bool {
    &&& target.user_id@ == session.user_id@
    &&& has_role_entry(target.role@, creator_role)
    &&& !has_role_entry(next_role, creator_role)
}

/// The decision of a change-of-role request; `next_role` is in normal form.
pub open spec fn update_role_decision(
    session: SessionView,
    member_id: String,
    next_role: String,
    explicit_org: Option<String>,
    facts: UpdateRoleFacts,
    creator_role: Seq<char>,
) -> Step<RoleChange> {
    match resolved_organization_id(explicit_org, session.active_organization_id) {
        None => refuse(BAD_REQUEST, OrgErrorCode::NoActiveOrganization),
        Some(org) => match facts.actor {
            None => Step::Fetch(
                StoreQuery::MemberByOrgUser { organization_id: org, user_id: session.user_id },
            ),
            Some(None) => refuse(BAD_REQUEST, OrgErrorCode::MemberNotFound),
            Some(Some(actor)) => match facts.target {
                None => Step::Fetch(StoreQuery::MemberById { member_id }),
                Some(None) => refuse(BAD_REQUEST, OrgErrorCode::MemberNotFound),
                Some(Some(target)) => if target.organization_id@ != org@ {
                    refuse(FORBIDDEN, OrgErrorCode::YouAreNotAllowedToUpdateThisMember)
                } else if demotes_self(session, target, next_role@, creator_role)
                    && facts.members is None {
                    Step::Fetch(StoreQuery::Members { organization_id: org })
                } else if demotes_self(session, target, next_role@, creator_role) && role_holders(
                    member_roles(facts.members->0@),
                    creator_role,
                ) <= 1 {
                    refuse(BAD_REQUEST, OrgErrorCode::YouCannotLeaveTheOrganizationWithoutAnOwner)
                } else if !roles_grant(actor.role@, creator_role, OrganizationPermission::MemberUpdate) {
                    refuse(FORBIDDEN, OrgErrorCode::YouAreNotAllowedToUpdateThisMember)
                } else {
                    Step::Proceed(RoleChange { member_id: target.id, role: next_role })
                },
            },
        },
    }
}

/// Decides the next turn of a change-of-role request.
pub fn decide_update_member_role(
    session: &SessionView,
    member_id: &String,
    next_role: &String,
    explicit_org: &Option<String>,
    facts: &UpdateRoleFacts,
    options: &OrganizationOptions,
) -> (r: Step<RoleChange>)
    ensures
        r == update_role_decision(
            *session,
            *member_id,
            *next_role,
            *explicit_org,
            *facts,
            options.creator_role@,
        ),
{
    let org = match session_organization(explicit_org, session) {
        None => return refuse_with(BAD_REQUEST, OrgErrorCode::NoActiveOrganization),
        Some(org) => org,
    };
    let actor = match &facts.actor {
        None => return Step::Fetch(
            StoreQuery::MemberByOrgUser { organization_id: org, user_id: session.user_id.clone() },
        ),
        Some(None) => return refuse_with(BAD_REQUEST, OrgErrorCode::MemberNotFound),
        Some(Some(actor)) => actor,
    };
    let target = match &facts.target {
        None => return Step::Fetch(StoreQuery::MemberById { member_id: member_id.clone() }),
        Some(None) => return refuse_with(BAD_REQUEST, OrgErrorCode::MemberNotFound),
        Some(Some(target)) => target,
    };
    if !crate::text::str_eq(target.organization_id.as_str(), org.as_str()) {
        return refuse_with(FORBIDDEN, OrgErrorCode::YouAreNotAllowedToUpdateThisMember);
    }
    let creator = options.creator_role.as_str();
    if crate::text::str_eq(target.user_id.as_str(), session.user_id.as_str()) && holds_role(
        target.role.as_str(),
        creator,
    ) && !holds_role(next_role.as_str(), creator) {
        match &facts.members {
            None => return Step::Fetch(StoreQuery::Members { organization_id: org }),
            Some(members) => {
                if count_role_holders(members, creator) <= 1 {
                    return refuse_with(
                        BAD_REQUEST,
                        OrgErrorCode::YouCannotLeaveTheOrganizationWithoutAnOwner,
                    );
                }
            },
        }
    }
    if !has_permission(actor.role.as_str(), options, OrganizationPermission::MemberUpdate) {
        return refuse_with(FORBIDDEN, OrgErrorCode::YouAreNotAllowedToUpdateThisMember);
    }
    Step::Proceed(RoleChange { member_id: target.id.clone(), role: next_role.clone() })
}

/// What the store has answered so far for a leave request.
#[derive(Debug, Clone)]
pub struct LeaveFacts {
    pub member: Option<Option<Member>>,
    pub members: Option<Vec<Member>>,
    pub organization_exists: Option<bool>,
}

/// A departure to carry out: the membership to delete, and whether the
/// caller's team memberships in the organization and active team are
/// cleared too (when teams are enabled).
#[derive(Debug, Clone)]
pub struct Departure {
    pub member: Member,
    pub organization_id: String,
    pub clear_teams: bool,
}

/// The decision of a leave request.
pub open spec fn leave_decision(
    session: SessionView,
    facts: LeaveFacts,
    creator_role: Seq<char>,
    teams_enabled: bool,
) -> Step<Departure> {
    match session.active_organization_id {
        None => refuse(BAD_REQUEST, OrgErrorCode::NoActiveOrganization),
        Some(org) => match facts.member {
            None => Step::Fetch(
                StoreQuery::MemberByOrgUser { organization_id: org, user_id: session.user_id },
            ),
            Some(None) => refuse(BAD_REQUEST, OrgErrorCode::MemberNotFound),
            Some(Some(member)) => if has_role_entry(member.role@, creator_role)
                && facts.members is None {
                Step::Fetch(StoreQuery::Members { organization_id: org })
            } else if has_role_entry(member.role@, creator_role) && role_holders(
                member_roles(facts.members->0@),
                creator_role,
            ) <= 1 {
                refuse(BAD_REQUEST, OrgErrorCode::YouCannotLeaveTheOrganizationAsTheOnlyOwner)
            } else {
                match facts.organization_exists {
                    None => Step::Fetch(StoreQuery::OrganizationById { organization_id: org }),
                    Some(false) => refuse(BAD_REQUEST, OrgErrorCode::OrganizationNotFound),
                    Some(true) => Step::Proceed(
                        Departure { member, organization_id: org, clear_teams: teams_enabled },
                    ),
                }
            },
        },
    }
}

/// Decides the next turn of a leave request.
pub fn decide_leave(session: &SessionView, facts: &LeaveFacts, options: &OrganizationOptions) -> (r:
    Step<Departure>)
    ensures
        r == leave_decision(*session, *facts, options.creator_role@, options.teams.enabled),
{
    let org = match &session.active_organization_id {
        None => return refuse_with(BAD_REQUEST, OrgErrorCode::NoActiveOrganization),
        Some(org) => org.clone(),
    };
    let member = match &facts.member {
        None => return Step::Fetch(
            StoreQuery::MemberByOrgUser { organization_id: org, user_id: session.user_id.clone() },
        ),
        Some(None) => return refuse_with(BAD_REQUEST, OrgErrorCode::MemberNotFound),
        Some(Some(member)) => member,
    };
    let creator = options.creator_role.as_str();
    if holds_role(member.role.as_str(), creator) {
        match &facts.members {
            None => return Step::Fetch(StoreQuery::Members { organization_id: org }),
            Some(members) => {
                if count_role_holders(members, creator) <= 1 {
                    return refuse_with(
                        BAD_REQUEST,
                        OrgErrorCode::YouCannotLeaveTheOrganizationAsTheOnlyOwner,
                    );
                }
            },
        }
    }
    match facts.organization_exists {
        None => Step::Fetch(StoreQuery::OrganizationById { organization_id: org }),
        Some(false) => refuse_with(BAD_REQUEST, OrgErrorCode::OrganizationNotFound),
        Some(true) => Step::Proceed(
            Departure {
                member: member.clone(),
                organization_id: org,
                clear_teams: options.teams.enabled,
            },
        ),
    }
}

/// The decision of the reads of the caller's own membership in the active
/// organization (get active member, its role, and the member list).
pub open spec fn active_membership_decision(session: SessionView, member: Option<Option<Member>>) -> Step<Member> {
    match session.active_organization_id {
        None => refuse(BAD_REQUEST, OrgErrorCode::NoActiveOrganization),
        Some(org) => match member {
            None => Step::Fetch(
                StoreQuery::MemberByOrgUser { organization_id: org, user_id: session.user_id },
            ),
            Some(None) => refuse(BAD_REQUEST, OrgErrorCode::MemberNotFound),
            Some(Some(m)) => Step::Proceed(m),
        },
    }
}

/// Decides the next turn of a read of the caller's own membership.
pub fn decide_active_membership(session: &SessionView, member: &Option<Option<Member>>) -> (r: Step<Member>)
    ensures
        r == active_membership_decision(*session, *member),
{
    let org = match &session.active_organization_id {
        None => return refuse_with(BAD_REQUEST, OrgErrorCode::NoActiveOrganization),
        Some(org) => org.clone(),
    };
    match member {
        None => Step::Fetch(
            StoreQuery::MemberByOrgUser { organization_id: org, user_id: session.user_id.clone() },
        ),
        Some(None) => refuse_with(BAD_REQUEST, OrgErrorCode::MemberNotFound),
        Some(Some(m)) => Step::Proceed(m.clone()),
    }
}

/// An add-member request that proceeds had a caller allowed to add members,
/// a user not yet in the organization (so the pair stays unique), and room
/// below the membership limit: with the new member the count is still
/// within the limit.
pub proof fn law_added_member_is_permitted_and_within_limit(
    session: Option<SessionView>,
    input: AddMemberInput,
    facts: AddMemberFacts,
    creator_role: Seq<char>,
    membership_limit: usize,
)
    requires
        add_member_decision(session, input, facts, creator_role, membership_limit) is Proceed,
    ensures
        facts.actor matches Some(Some(actor)) && roles_grant(
            actor.role@,
            creator_role,
            OrganizationPermission::MemberCreate,
        ),
        facts.already_member == Some(false),
        facts.member_count matches Some(c) && (c as usize) < membership_limit,
        facts.member_count matches Some(c) && (c as usize) + 1 <= membership_limit,
        facts.organization_exists == Some(true),
{
}

/// A member is never removed when they are the organization's only holder of
/// the creator role.
pub proof fn law_last_owner_is_never_removed(
    session: SessionView,
    member_id_or_email: String,
    explicit_org: Option<String>,
    facts: RemoveMemberFacts,
    creator_role: Seq<char>,
)
    requires
        remove_member_decision(session, member_id_or_email, explicit_org, facts, creator_role) matches Step::Proceed(removal),
        has_role_entry(
            remove_member_decision(session, member_id_or_email, explicit_org, facts, creator_role)->Proceed_0.member.role@,
            creator_role,
        ),
    ensures
        facts.members matches Some(ms) && role_holders(member_roles(ms@), creator_role) >= 2,
{
}

/// The only holder of the creator role never leaves.
pub proof fn law_last_owner_never_leaves(
    session: SessionView,
    facts: LeaveFacts,
    creator_role: Seq<char>,
    teams_enabled: bool,
)
    requires
        leave_decision(session, facts, creator_role, teams_enabled) is Proceed,
        facts.member matches Some(Some(m)) && has_role_entry(m.role@, creator_role),
    ensures
        facts.members matches Some(ms) && role_holders(member_roles(ms@), creator_role) >= 2,
{
}

/// Callers never take the creator role from themselves when they are its
/// only holder.
pub proof fn law_last_owner_keeps_role(
    session: SessionView,
    member_id: String,
    next_role: String,
    explicit_org: Option<String>,
    facts: UpdateRoleFacts,
    creator_role: Seq<char>,
)
    requires
        update_role_decision(session, member_id, next_role, explicit_org, facts, creator_role) is Proceed,
        facts.target matches Some(Some(t)) && demotes_self(session, t, next_role@, creator_role),
    ensures
        facts.members matches Some(ms) && role_holders(member_roles(ms@), creator_role) >= 2,
{
}

/// A role change that goes ahead writes exactly the requested role, to the
/// member the store returned, in the organization the request addresses,
/// and only for a caller whose roles grant changing members.
pub proof fn law_role_change_writes_requested_role(
    session: SessionView,
    member_id: String,
    next_role: String,
    explicit_org: Option<String>,
    facts: UpdateRoleFacts,
    creator_role: Seq<char>,
)
    ensures
        update_role_decision(session, member_id, next_role, explicit_org, facts, creator_role) matches Step::Proceed(c)
            ==> {
            &&& facts.target matches Some(Some(t))
            &&& c.member_id == t.id
            &&& c.role@ == next_role@
            &&& resolved_organization_id(explicit_org, session.active_organization_id) matches Some(org)
            &&& t.organization_id@ == org@
            &&& facts.actor matches Some(Some(a))
            &&& roles_grant(a.role@, creator_role, OrganizationPermission::MemberUpdate)
        },
{
}

/// For a member of the addressed organization whose change does not take
/// the last creator role from the caller, the change goes ahead exactly
/// when the caller's roles grant changing members, and is refused with
/// 403 otherwise.
pub proof fn law_role_change_follows_member_update_right(
    session: SessionView,
    member_id: String,
    next_role: String,
    explicit_org: Option<String>,
    facts: UpdateRoleFacts,
    creator_role: Seq<char>,
    org: String,
    actor: Member,
    target: Member,
)
    requires
        resolved_organization_id(explicit_org, session.active_organization_id) == Some(org),
        facts.actor == Some(Some(actor)),
        facts.target == Some(Some(target)),
        target.organization_id@ == org@,
        !demotes_self(session, target, next_role@, creator_role) || (facts.members matches Some(ms)
            && role_holders(member_roles(ms@), creator_role) >= 2),
    ensures
        update_role_decision(session, member_id, next_role, explicit_org, facts, creator_role) is Proceed
            <==> roles_grant(actor.role@, creator_role, OrganizationPermission::MemberUpdate),
        !roles_grant(actor.role@, creator_role, OrganizationPermission::MemberUpdate)
            ==> update_role_decision(session, member_id, next_role, explicit_org, facts, creator_role)
            == refuse::<RoleChange>(FORBIDDEN, OrgErrorCode::YouAreNotAllowedToUpdateThisMember),
{
}

/// A removal that goes ahead removes the member the store returned, from
/// the organization the request addresses, for a caller whose roles grant
/// removing members; the active organization is cleared exactly when
/// callers remove themselves from it.
pub proof fn law_removal_removes_found_member(
    session: SessionView,
    member_id_or_email: String,
    explicit_org: Option<String>,
    facts: RemoveMemberFacts,
    creator_role: Seq<char>,
)
    ensures
        remove_member_decision(session, member_id_or_email, explicit_org, facts, creator_role) matches Step::Proceed(r)
            ==> {
            &&& facts.target matches Some(Some(t))
            &&& r.member == t
            &&& resolved_organization_id(explicit_org, session.active_organization_id) matches Some(org)
            &&& t.organization_id@ == org@
            &&& r.clear_active == (t.user_id@ == session.user_id@ && is_active_organization(
                session,
                t.organization_id@,
            ))
            &&& facts.actor matches Some(Some(a))
            &&& roles_grant(a.role@, creator_role, OrganizationPermission::MemberDelete)
        },
{
}

/// For a member of the addressed organization who is not its only holder
/// of the creator role, the removal goes ahead exactly when the caller's
/// roles grant removing members, and is refused with 401 otherwise.
pub proof fn law_removal_follows_member_delete_right(
    session: SessionView,
    member_id_or_email: String,
    explicit_org: Option<String>,
    facts: RemoveMemberFacts,
    creator_role: Seq<char>,
    org: String,
    actor: Member,
    target: Member,
)
    requires
        resolved_organization_id(explicit_org, session.active_organization_id) == Some(org),
        facts.actor == Some(Some(actor)),
        facts.target == Some(Some(target)),
        target.organization_id@ == org@,
        !has_role_entry(target.role@, creator_role) || (facts.members matches Some(ms)
            && role_holders(member_roles(ms@), creator_role) >= 2),
    ensures
        remove_member_decision(session, member_id_or_email, explicit_org, facts, creator_role) is Proceed
            <==> roles_grant(actor.role@, creator_role, OrganizationPermission::MemberDelete),
        !roles_grant(actor.role@, creator_role, OrganizationPermission::MemberDelete)
            ==> remove_member_decision(session, member_id_or_email, explicit_org, facts, creator_role)
            == refuse::<MemberRemoval>(UNAUTHORIZED, OrgErrorCode::YouAreNotAllowedToDeleteThisMember),
{
}

/// A new member is the user the store found, added to the addressed
/// organization with the requested role; a caller found in the organization
/// is refused for lack of rights exactly when their roles do not grant
/// adding members.
pub proof fn law_added_member_is_the_requested_one(
    session: Option<SessionView>,
    input: AddMemberInput,
    facts: AddMemberFacts,
    creator_role: Seq<char>,
    membership_limit: usize,
)
    ensures
        add_member_decision(session, input, facts, creator_role, membership_limit) matches Step::Proceed(n) ==> {
            &&& resolved_organization_id(input.organization_id, active_of(session)) == Some(n.organization_id)
            &&& facts.user_id == Some(Some(n.user_id))
            &&& n.role == input.role
        },
        resolved_organization_id(input.organization_id, active_of(session)) is Some && session is Some
            ==> (facts.actor matches Some(Some(a)) ==> (add_member_decision(
            session,
            input,
            facts,
            creator_role,
            membership_limit,
        ) == refuse::<NewMember>(FORBIDDEN, OrgErrorCode::YouAreNotAllowedToUpdateThisMember) <==> !roles_grant(
            a.role@,
            creator_role,
            OrganizationPermission::MemberCreate,
        ))),
{
}

/// Leaving removes the caller's own membership of their active
/// organization.
pub proof fn law_departure_is_own_membership(
    session: SessionView,
    facts: LeaveFacts,
    creator_role: Seq<char>,
    teams_enabled: bool,
)
    ensures
        leave_decision(session, facts, creator_role, teams_enabled) matches Step::Proceed(d) ==> {
            &&& session.active_organization_id == Some(d.organization_id)
            &&& facts.member == Some(Some(d.member))
            &&& d.clear_teams == teams_enabled
        },
{
}

} // verus!
