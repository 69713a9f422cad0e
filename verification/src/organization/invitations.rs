//! Decisions of the invitation requests: invite, accept, reject, cancel and
//! look up.

use vstd::prelude::*;

use super::members::session_organization;
use super::models::{
    resolved_organization_id, Invitation, InvitationStatus, Member, OrgErrorCode, Refusal,
    SessionView, BAD_REQUEST, FORBIDDEN,
};
use super::options::OrganizationOptions;
use super::permissions::{
    comma_entries, has_permission, is_known_static_role, is_static_role, normalized_roles,
    role_entries, role_input_text, roles_grant, string_views, OrganizationPermission, RoleInput,
};
use super::steps::{has_role_entry, holds_role, refuse, refuse_with, Step, StoreQuery};
use crate::email_otp::otp::normalized_email;
use crate::text::{chars_of, contains_char, lowercase_of, string_of, to_lowercase, trim_chars};

verus! {

/// The body of an invitation request, with the address trimmed and lowered,
/// the role in normal form and its entries listed.
#[derive(Debug)]
pub struct InviteInput {
    pub email: String,
    pub role: String,
    pub role_entries: Vec<String>,
    pub organization_id: Option<String>,
    pub team_id: Option<String>,
    pub resend: bool,
}

impl InviteInput {
    /// Prepares an invitation request's body.
    pub fn new(
        email: &str,
        role: &RoleInput,
        organization_id: Option<String>,
        team_id: Option<String>,
        resend: bool,
    ) -> (r: Self)
        ensures
            r.email@ == normalized_email(email@),
            r.role@ == normalized_roles(role_input_text(*role)),
            string_views(r.role_entries@) == role_entries(r.role@),
            r.organization_id == organization_id,
            r.team_id == team_id,
            r.resend == resend,
    {
        let chars = chars_of(email);
        let trimmed = trim_chars(&chars);
        let t = string_of(&trimmed);
        let lowered = to_lowercase(t.as_str());
        let normalized = role.normalized();
        let entries = comma_entries(normalized.as_str());
        InviteInput {
            email: lowered,
            role: normalized,
            role_entries: entries,
            organization_id,
            team_id,
            resend,
        }
    }
}

/// What the store has answered so far for an invitation request.
#[derive(Debug)]
pub struct InviteFacts {
    pub actor: Option<Option<Member>>,
    pub already_member: Option<bool>,
    pub pending: Option<Option<Invitation>>,
    pub pending_canceled: bool,
    pub pending_count: Option<usize>,
    pub organization_exists: Option<bool>,
}

/// An invitation to store.
#[derive(Debug)]
pub struct NewInvitation {
    pub organization_id: String,
    pub email: String,
    pub role: String,
    pub team_id: Option<String>,
    pub inviter_id: String,
    pub expires_at: i64,
    pub status: InvitationStatus,
}

/// The outcome of an invitation request.
#[derive(Debug)]
pub enum InviteAction {
    /// Send again: extend the pending invitation to the new expiry.
    Extend { invitation_id: String, expires_at: i64 },
    /// Store a new invitation.
    Create(NewInvitation),
}

/// The first entry of the invited role that the caller may not give: one
/// that is no known role, or the creator role when the caller does not hold
/// it.
pub open spec fn role_problem(entries: Seq<String>, creator_role: Seq<char>, actor_holds_creator: bool) -> Option<Refusal>
    decreases entries.len(),
{
    if entries.len() == 0 {
        None
    } else if !is_static_role(entries[0]@, creator_role) {
        Some(Refusal::UnknownRole { role: entries[0] })
    } else if entries[0]@ == creator_role && !actor_holds_creator {
        Some(Refusal::Respond { status: FORBIDDEN, code: OrgErrorCode::YouAreNotAllowedToInviteUserWithThisRole })
    } else {
        role_problem(entries.drop_first(), creator_role, actor_holds_creator)
    }
}

/// The decision of an invitation request; `now` is the current Unix time.
pub open spec fn invite_decision(
    session: SessionView,
    input: InviteInput,
    facts: InviteFacts,
    options: OrganizationOptions,
    now: i64,
) -> Step<InviteAction> {
    let creator = options.creator_role@;
    let expires_at = (now + options.invitation_expires_in) as i64;
    match resolved_organization_id(input.organization_id, session.active_organization_id) {
        None => refuse(BAD_REQUEST, OrgErrorCode::OrganizationNotFound),
        Some(org) => if !input.email@.contains('@') {
            refuse(BAD_REQUEST, OrgErrorCode::InvalidEmail)
        } else {
            match facts.actor {
                None => Step::Fetch(
                    StoreQuery::MemberByOrgUser { organization_id: org, user_id: session.user_id },
                ),
                Some(None) => refuse(BAD_REQUEST, OrgErrorCode::MemberNotFound),
                Some(Some(actor)) => if !roles_grant(
                    actor.role@,
                    creator,
                    OrganizationPermission::InvitationCreate,
                ) {
                    refuse(FORBIDDEN, OrgErrorCode::YouAreNotAllowedToInviteUsersToThisOrganization)
                } else {
                    match role_problem(input.role_entries@, creator, has_role_entry(actor.role@, creator)) {
                        Some(refusal) => Step::Refuse(refusal),
                        None => match facts.already_member {
                            None => Step::Fetch(
                                StoreQuery::MemberByEmail { organization_id: org, email: input.email },
                            ),
                            Some(true) => refuse(
                                BAD_REQUEST,
                                OrgErrorCode::UserIsAlreadyAMemberOfThisOrganization,
                            ),
                            Some(false) => match facts.pending {
                                None => Step::Fetch(
                                    StoreQuery::PendingInvitationByEmail {
                                        organization_id: org,
                                        email: input.email,
                                    },
                                ),
                                Some(Some(existing)) if input.resend => Step::Proceed(
                                    InviteAction::Extend { invitation_id: existing.id, expires_at },
                                ),
                                Some(Some(existing)) if !options.cancel_pending_invitations_on_re_invite => refuse(
                                    BAD_REQUEST,
                                    OrgErrorCode::UserIsAlreadyInvitedToThisOrganization,
                                ),
                                Some(Some(existing)) if !facts.pending_canceled => Step::Fetch(
                                    StoreQuery::SetInvitationStatus {
                                        invitation_id: existing.id,
                                        status: InvitationStatus::Canceled,
                                    },
                                ),
                                _ => match facts.pending_count {
                                    None => Step::Fetch(
                                        StoreQuery::PendingInvitations { organization_id: org },
                                    ),
                                    Some(n) => if n >= options.invitation_limit {
                                        refuse(FORBIDDEN, OrgErrorCode::InvitationLimitReached)
                                    } else {
                                        match facts.organization_exists {
                                            None => Step::Fetch(
                                                StoreQuery::OrganizationById { organization_id: org },
                                            ),
                                            Some(false) => refuse(
                                                BAD_REQUEST,
                                                OrgErrorCode::OrganizationNotFound,
                                            ),
                                            Some(true) => Step::Proceed(
                                                InviteAction::Create(
                                                    NewInvitation {
                                                        organization_id: org,
                                                        email: input.email,
                                                        role: input.role,
                                                        team_id: input.team_id,
                                                        inviter_id: session.user_id,
                                                        expires_at,
                                                        status: InvitationStatus::Pending,
                                                    },
                                                ),
                                            ),
                                        }
                                    },
                                },
                            },
                        },
                    }
                },
            }
        },
    }
}

fn check_roles(entries: &Vec<String>, options: &OrganizationOptions, actor_holds_creator: bool) -> (r: Option<Refusal>)
    ensures
        r == role_problem(entries@, options.creator_role@, actor_holds_creator),
{
    let mut i: usize = 0;
    assert(entries@.skip(0) =~= entries@);
    while i < entries.len()
        invariant
            i <= entries.len(),
            role_problem(entries@, options.creator_role@, actor_holds_creator) == role_problem(
                entries@.skip(i as int),
                options.creator_role@,
                actor_holds_creator,
            ),
        decreases entries.len() - i,
    {
        let e = &entries[i];
        assert(entries@.skip(i as int)[0] == entries@[i as int]);
        assert(entries@.skip(i as int).drop_first() =~= entries@.skip(i as int + 1));
        if !is_known_static_role(e.as_str(), options) {
            return Some(Refusal::UnknownRole { role: e.clone() });
        }
        if crate::text::str_eq(e.as_str(), options.creator_role.as_str()) && !actor_holds_creator {
            return Some(
                Refusal::Respond {
                    status: FORBIDDEN,
                    code: OrgErrorCode::YouAreNotAllowedToInviteUserWithThisRole,
                },
            );
        }
        i += 1;
    }
    assert(entries@.skip(entries.len() as int) =~= Seq::<String>::empty());
    None
}

/// Decides the next turn of an invitation request; `now` is the current Unix
/// time.
pub fn decide_invite(
    session: &SessionView,
    input: &InviteInput,
    facts: &InviteFacts,
    options: &OrganizationOptions,
    now: i64,
) -> (r: Step<InviteAction>)
    requires
        i64::MIN <= now + options.invitation_expires_in <= i64::MAX,
    ensures
        r == invite_decision(*session, *input, *facts, *options, now),
{
    let expires_at = now + options.invitation_expires_in;
    let org = match session_organization(&input.organization_id, session) {
        None => return refuse_with(BAD_REQUEST, OrgErrorCode::OrganizationNotFound),
        Some(org) => org,
    };
    let email_chars = chars_of(input.email.as_str());
    if !contains_char(&email_chars, '@') {
        return refuse_with(BAD_REQUEST, OrgErrorCode::InvalidEmail);
    }
    let actor = match &facts.actor {
        None => return Step::Fetch(
            StoreQuery::MemberByOrgUser { organization_id: org, user_id: session.user_id.clone() },
        ),
        Some(None) => return refuse_with(BAD_REQUEST, OrgErrorCode::MemberNotFound),
        Some(Some(actor)) => actor,
    };
    if !has_permission(actor.role.as_str(), options, OrganizationPermission::InvitationCreate) {
        return refuse_with(FORBIDDEN, OrgErrorCode::YouAreNotAllowedToInviteUsersToThisOrganization);
    }
    let actor_holds = holds_role(actor.role.as_str(), options.creator_role.as_str());
    match check_roles(&input.role_entries, options, actor_holds) {
        Some(refusal) => return Step::Refuse(refusal),
        None => {},
    }
    match facts.already_member {
        None => return Step::Fetch(
            StoreQuery::MemberByEmail { organization_id: org, email: input.email.clone() },
        ),
        Some(true) => return refuse_with(
            BAD_REQUEST,
            OrgErrorCode::UserIsAlreadyAMemberOfThisOrganization,
        ),
        Some(false) => {},
    }
    match &facts.pending {
        None => return Step::Fetch(
            StoreQuery::PendingInvitationByEmail {
                organization_id: org,
                email: input.email.clone(),
            },
        ),
        Some(Some(existing)) => {
            if input.resend {
                return Step::Proceed(
                    InviteAction::Extend { invitation_id: existing.id.clone(), expires_at },
                );
            }
            if !options.cancel_pending_invitations_on_re_invite {
                return refuse_with(
                    BAD_REQUEST,
                    OrgErrorCode::UserIsAlreadyInvitedToThisOrganization,
                );
            }
            if !facts.pending_canceled {
                return Step::Fetch(
                    StoreQuery::SetInvitationStatus {
                        invitation_id: existing.id.clone(),
                        status: InvitationStatus::Canceled,
                    },
                );
            }
        },
        Some(None) => {},
    }
    match facts.pending_count {
        None => return Step::Fetch(StoreQuery::PendingInvitations { organization_id: org }),
        Some(n) => {
            if n >= options.invitation_limit {
                return refuse_with(FORBIDDEN, OrgErrorCode::InvitationLimitReached);
            }
        },
    }
    match facts.organization_exists {
        None => Step::Fetch(StoreQuery::OrganizationById { organization_id: org }),
        Some(false) => refuse_with(BAD_REQUEST, OrgErrorCode::OrganizationNotFound),
        Some(true) => Step::Proceed(
            InviteAction::Create(
                NewInvitation {
                    organization_id: org,
                    email: input.email.clone(),
                    role: input.role.clone(),
                    team_id: match &input.team_id {
                        Some(t) => Some(t.clone()),
                        None => None,
                    },
                    inviter_id: session.user_id.clone(),
                    expires_at,
                    status: InvitationStatus::Pending,
                },
            ),
        ),
    }
}

/// Whether `session`'s user is the addressee of `invitation`: the addresses
/// agree once lowered.
pub open spec fn is_recipient(invitation: Invitation, session: SessionView) -> bool {
    lowercase_of(invitation.email@) == lowercase_of(session.user_email@)
}

fn recipient(invitation: &Invitation, session: &SessionView) -> (r: bool)
    ensures
        r == is_recipient(*invitation, *session),
{
    let a = to_lowercase(invitation.email.as_str());
    let b = to_lowercase(session.user_email.as_str());
    crate::text::str_eq(a.as_str(), b.as_str())
}

/// What the store has answered so far for an accept request.
#[derive(Debug)]
pub struct AcceptFacts {
    pub invitation: Option<Option<Invitation>>,
    pub member_count: Option<u64>,
    pub already_member: Option<bool>,
}

/// An acceptance to carry out: mark the invitation accepted, add the caller
/// with its role, join the invitation's teams when teams are enabled, and
/// make the organization the active one.
#[derive(Debug)]
pub struct Acceptance {
    pub invitation: Invitation,
    pub join_teams: bool,
    /// The status the invitation is given: accepted.
    pub new_status: InvitationStatus,
    /// The member added: organization, user and role.
    pub member_organization_id: String,
    pub member_user_id: String,
    pub member_role: String,
    /// The session's new active organization.
    pub active_organization_id: String,
}

/// The decision of an accept request; `now` is the current Unix time.
pub open spec fn accept_decision(
    session: SessionView,
    invitation_id: String,
    facts: AcceptFacts,
    options: OrganizationOptions,
    now: i64,
) -> Step<Acceptance> {
    match facts.invitation {
        None => Step::Fetch(StoreQuery::InvitationById { invitation_id }),
        Some(None) => refuse(BAD_REQUEST, OrgErrorCode::InvitationNotFound),
        Some(Some(inv)) => if inv.status != InvitationStatus::Pending || inv.expires_at < now {
            refuse(BAD_REQUEST, OrgErrorCode::InvitationNotFound)
        } else if !is_recipient(inv, session) {
            refuse(FORBIDDEN, OrgErrorCode::YouAreNotTheRecipientOfTheInvitation)
        } else if options.require_email_verification_on_invitation && !session.user_email_verified {
            refuse(
                FORBIDDEN,
                OrgErrorCode::EmailVerificationRequiredBeforeAcceptingOrRejectingInvitation,
            )
        } else {
            match facts.member_count {
                None => Step::Fetch(
                    StoreQuery::CountMembers { organization_id: inv.organization_id },
                ),
                Some(c) => if c as usize >= options.membership_limit {
                    refuse(FORBIDDEN, OrgErrorCode::OrganizationMembershipLimitReached)
                } else {
                    match facts.already_member {
                        None => Step::Fetch(
                            StoreQuery::MemberByOrgUser {
                                organization_id: inv.organization_id,
                                user_id: session.user_id,
                            },
                        ),
                        Some(true) => refuse(
                            BAD_REQUEST,
                            OrgErrorCode::UserIsAlreadyAMemberOfThisOrganization,
                        ),
                        Some(false) => Step::Proceed(
                            Acceptance {
                                invitation: inv,
                                join_teams: options.teams.enabled,
                                new_status: InvitationStatus::Accepted,
                                member_organization_id: inv.organization_id,
                                member_user_id: session.user_id,
                                member_role: inv.role,
                                active_organization_id: inv.organization_id,
                            },
                        ),
                    }
                },
            }
        },
    }
}

/// Decides the next turn of an accept request; `now` is the current Unix
/// time.
pub fn decide_accept(
    session: &SessionView,
    invitation_id: &String,
    facts: &AcceptFacts,
    options: &OrganizationOptions,
    now: i64,
) -> (r: Step<Acceptance>)
    ensures
        r == accept_decision(*session, *invitation_id, *facts, *options, now),
{
    let inv = match &facts.invitation {
        None => return Step::Fetch(StoreQuery::InvitationById { invitation_id: invitation_id.clone() }),
        Some(None) => return refuse_with(BAD_REQUEST, OrgErrorCode::InvitationNotFound),
        Some(Some(inv)) => inv,
    };
    let pending = match inv.status {
        InvitationStatus::Pending => true,
        _ => false,
    };
    if !pending || inv.expires_at < now {
        return refuse_with(BAD_REQUEST, OrgErrorCode::InvitationNotFound);
    }
    if !recipient(inv, session) {
        return refuse_with(FORBIDDEN, OrgErrorCode::YouAreNotTheRecipientOfTheInvitation);
    }
    if options.require_email_verification_on_invitation && !session.user_email_verified {
        return refuse_with(
            FORBIDDEN,
            OrgErrorCode::EmailVerificationRequiredBeforeAcceptingOrRejectingInvitation,
        );
    }
    match facts.member_count {
        None => return Step::Fetch(
            StoreQuery::CountMembers { organization_id: inv.organization_id.clone() },
        ),
        Some(c) => {
            if c as usize >= options.membership_limit {
                return refuse_with(FORBIDDEN, OrgErrorCode::OrganizationMembershipLimitReached);
            }
        },
    }
    match facts.already_member {
        None => Step::Fetch(
            StoreQuery::MemberByOrgUser {
                organization_id: inv.organization_id.clone(),
                user_id: session.user_id.clone(),
            },
        ),
        Some(true) => refuse_with(BAD_REQUEST, OrgErrorCode::UserIsAlreadyAMemberOfThisOrganization),
        Some(false) => Step::Proceed(
            Acceptance {
                invitation: inv.clone(),
                join_teams: options.teams.enabled,
                new_status: InvitationStatus::Accepted,
                member_organization_id: inv.organization_id.clone(),
                member_user_id: session.user_id.clone(),
                member_role: inv.role.clone(),
                active_organization_id: inv.organization_id.clone(),
            },
        ),
    }
}

/// The teams an accepted invitation joins: the trimmed, non-empty entries of
/// its comma-separated team list.
pub fn invitation_team_ids(team_id: &Option<String>) -> (r: Vec<String>)
    ensures
        match team_id {
            Some(t) => string_views(r@) == role_entries(t@),
            None => r@.len() == 0,
        },
{
    match team_id {
        Some(t) => comma_entries(t.as_str()),
        None => Vec::new(),
    }
}

/// The decision of a reject request.
pub open spec fn reject_decision(
    session: SessionView,
    invitation_id: String,
    invitation: Option<Option<Invitation>>,
    require_verification: bool,
) -> Step<Invitation> {
    match invitation {
        None => Step::Fetch(StoreQuery::InvitationById { invitation_id }),
        Some(None) => refuse(BAD_REQUEST, OrgErrorCode::InvitationNotFound),
        Some(Some(inv)) => if !is_recipient(inv, session) {
            refuse(FORBIDDEN, OrgErrorCode::YouAreNotTheRecipientOfTheInvitation)
        } else if require_verification && !session.user_email_verified {
            refuse(
                FORBIDDEN,
                OrgErrorCode::EmailVerificationRequiredBeforeAcceptingOrRejectingInvitation,
            )
        } else {
            Step::Proceed(inv)
        },
    }
}

/// Decides the next turn of a reject request: on `Proceed` the invitation is
/// marked rejected.
pub fn decide_reject(
    session: &SessionView,
    invitation_id: &String,
    invitation: &Option<Option<Invitation>>,
    options: &OrganizationOptions,
) -> (r: Step<Invitation>)
    ensures
        r == reject_decision(
            *session,
            *invitation_id,
            *invitation,
            options.require_email_verification_on_invitation,
        ),
{
    let inv = match invitation {
        None => return Step::Fetch(StoreQuery::InvitationById { invitation_id: invitation_id.clone() }),
        Some(None) => return refuse_with(BAD_REQUEST, OrgErrorCode::InvitationNotFound),
        Some(Some(inv)) => inv,
    };
    if !recipient(inv, session) {
        return refuse_with(FORBIDDEN, OrgErrorCode::YouAreNotTheRecipientOfTheInvitation);
    }
    if options.require_email_verification_on_invitation && !session.user_email_verified {
        return refuse_with(
            FORBIDDEN,
            OrgErrorCode::EmailVerificationRequiredBeforeAcceptingOrRejectingInvitation,
        );
    }
    Step::Proceed(inv.clone())
}

/// What the store has answered so far for a cancel request.
#[derive(Debug)]
pub struct CancelFacts {
    pub invitation: Option<Option<Invitation>>,
    pub actor: Option<Option<Member>>,
}

/// The decision of a cancel request.
pub open spec fn cancel_decision(
    session: SessionView,
    invitation_id: String,
    facts: CancelFacts,
    creator_role: Seq<char>,
) -> Step<Invitation> {
    match facts.invitation {
        None => Step::Fetch(StoreQuery::InvitationById { invitation_id }),
        Some(None) => refuse(BAD_REQUEST, OrgErrorCode::InvitationNotFound),
        Some(Some(inv)) => match facts.actor {
            None => Step::Fetch(
                StoreQuery::MemberByOrgUser {
                    organization_id: inv.organization_id,
                    user_id: session.user_id,
                },
            ),
            Some(None) => refuse(BAD_REQUEST, OrgErrorCode::MemberNotFound),
            Some(Some(actor)) => if !roles_grant(
                actor.role@,
                creator_role,
                OrganizationPermission::InvitationCancel,
            ) {
                refuse(FORBIDDEN, OrgErrorCode::YouAreNotAllowedToCancelThisInvitation)
            } else {
                Step::Proceed(inv)
            },
        },
    }
}

/// Decides the next turn of a cancel request: on `Proceed` the invitation is
/// marked canceled.
pub fn decide_cancel(
    session: &SessionView,
    invitation_id: &String,
    facts: &CancelFacts,
    options: &OrganizationOptions,
) -> (r: Step<Invitation>)
    ensures
        r == cancel_decision(*session, *invitation_id, *facts, options.creator_role@),
{
    let inv = match &facts.invitation {
        None => return Step::Fetch(StoreQuery::InvitationById { invitation_id: invitation_id.clone() }),
        Some(None) => return refuse_with(BAD_REQUEST, OrgErrorCode::InvitationNotFound),
        Some(Some(inv)) => inv,
    };
    let actor = match &facts.actor {
        None => return Step::Fetch(
            StoreQuery::MemberByOrgUser {
                organization_id: inv.organization_id.clone(),
                user_id: session.user_id.clone(),
            },
        ),
        Some(None) => return refuse_with(BAD_REQUEST, OrgErrorCode::MemberNotFound),
        Some(Some(actor)) => actor,
    };
    if !has_permission(actor.role.as_str(), options, OrganizationPermission::InvitationCancel) {
        return refuse_with(FORBIDDEN, OrgErrorCode::YouAreNotAllowedToCancelThisInvitation);
    }
    Step::Proceed(inv.clone())
}

/// The decision of a look-up of one invitation by the id taken from the
/// query.
pub open spec fn get_invitation_decision(id: Option<String>, invitation: Option<Option<Invitation>>) -> Step<Invitation> {
    match id {
        None => refuse(BAD_REQUEST, OrgErrorCode::InvitationNotFound),
        Some(id) => match invitation {
            None => Step::Fetch(StoreQuery::InvitationById { invitation_id: id }),
            Some(None) => refuse(BAD_REQUEST, OrgErrorCode::InvitationNotFound),
            Some(Some(inv)) => Step::Proceed(inv),
        },
    }
}

/// Decides the next turn of a look-up of one invitation.
pub fn decide_get_invitation(id: &Option<String>, invitation: &Option<Option<Invitation>>) -> (r: Step<Invitation>)
    ensures
        r == get_invitation_decision(*id, *invitation),
{
    let id = match id {
        None => return refuse_with(BAD_REQUEST, OrgErrorCode::InvitationNotFound),
        Some(id) => id,
    };
    match invitation {
        None => Step::Fetch(StoreQuery::InvitationById { invitation_id: id.clone() }),
        Some(None) => refuse_with(BAD_REQUEST, OrgErrorCode::InvitationNotFound),
        Some(Some(inv)) => Step::Proceed(inv.clone()),
    }
}

/// The address under which a user's invitations are listed: the session's
/// address, lowered.
pub fn user_invitations_email(session: &SessionView) -> (r: String)
    ensures
        r@ == lowercase_of(session.user_email@),
{
    to_lowercase(session.user_email.as_str())
}

/// An invitation is accepted at most once: once an acceptance has given it
/// its new status, a later accept request for it is refused as not found.
pub proof fn law_invitation_accepted_at_most_once(
    session: SessionView,
    invitation_id: String,
    facts: AcceptFacts,
    options: OrganizationOptions,
    now: i64,
    later_session: SessionView,
    later_facts: AcceptFacts,
    later_now: i64,
)
    requires
        accept_decision(session, invitation_id, facts, options, now) is Proceed,
        later_facts.invitation == (Some(Some(Invitation {
            status: (accept_decision(session, invitation_id, facts, options, now)->Proceed_0).new_status,
            ..(accept_decision(session, invitation_id, facts, options, now)->Proceed_0).invitation
        }))),
    ensures
        accept_decision(later_session, invitation_id, later_facts, options, later_now) == refuse::<
            Acceptance,
        >(BAD_REQUEST, OrgErrorCode::InvitationNotFound),
{
}

/// A new invitation is stored only below the invitation limit, by a caller
/// allowed to invite, for a role made of known roles, and with the creator
/// role only when the caller holds it.
pub proof fn law_created_invitation_is_permitted(
    session: SessionView,
    input: InviteInput,
    facts: InviteFacts,
    options: OrganizationOptions,
    now: i64,
)
    requires
        invite_decision(session, input, facts, options, now) matches Step::Proceed(InviteAction::Create(_)),
    ensures
        facts.pending_count matches Some(n) && n < options.invitation_limit,
        facts.actor matches Some(Some(actor)) && roles_grant(
            actor.role@,
            options.creator_role@,
            OrganizationPermission::InvitationCreate,
        ),
        role_problem(input.role_entries@, options.creator_role@, has_role_entry(facts.actor->0->0.role@, options.creator_role@)) is None,
        facts.pending matches Some(Some(_)) ==> options.cancel_pending_invitations_on_re_invite && facts.pending_canceled,
        facts.already_member == Some(false),
{
}

/// With no entry refused, every entry of the invited role is a known role,
/// and the creator role appears only when the caller holds it.
pub proof fn law_role_check_admits_only_known_roles(entries: Seq<String>, creator_role: Seq<char>, actor_holds_creator: bool)
    requires
        role_problem(entries, creator_role, actor_holds_creator) is None,
    ensures
        forall|i: int| 0 <= i < entries.len() ==> is_static_role(#[trigger] entries[i]@, creator_role),
        forall|i: int| 0 <= i < entries.len() && entries[i]@ == creator_role ==> actor_holds_creator,
    decreases entries.len(),
{
    if entries.len() > 0 {
        law_role_check_admits_only_known_roles(entries.drop_first(), creator_role, actor_holds_creator);
        assert forall|i: int| 0 <= i < entries.len() implies is_static_role(#[trigger] entries[i]@, creator_role) by {
            if i > 0 {
                assert(entries[i] == entries.drop_first()[i - 1]);
            }
        }
        assert forall|i: int| 0 <= i < entries.len() && entries[i]@ == creator_role implies actor_holds_creator by {
            if i > 0 {
                assert(entries[i] == entries.drop_first()[i - 1]);
            }
        }
    }
}

/// Only the addressee of a pending, unexpired invitation accepts it, and
/// only below the membership limit.
pub proof fn law_accepted_invitation_is_valid(
    session: SessionView,
    invitation_id: String,
    facts: AcceptFacts,
    options: OrganizationOptions,
    now: i64,
)
    requires
        accept_decision(session, invitation_id, facts, options, now) matches Step::Proceed(a),
    ensures
        facts.invitation matches Some(Some(inv)) && inv.status == InvitationStatus::Pending
            && inv.expires_at >= now && is_recipient(inv, session),
        facts.member_count matches Some(c) && (c as usize) < options.membership_limit,
        facts.already_member == Some(false),
        options.require_email_verification_on_invitation ==> session.user_email_verified,
{
}

/// The role check admits every list of known roles in which the creator
/// role appears only when the caller holds it: together with
/// `law_role_check_admits_only_known_roles`, a list is admitted exactly
/// when each entry is a known role and the creator role is given only by
/// its holders.
pub proof fn law_role_check_admits_every_permitted_role(
    entries: Seq<String>,
    creator_role: Seq<char>,
    actor_holds_creator: bool,
)
    requires
        forall|i: int| 0 <= i < entries.len() ==> is_static_role(#[trigger] entries[i]@, creator_role),
        forall|i: int| 0 <= i < entries.len() && #[trigger] entries[i]@ == creator_role ==> actor_holds_creator,
    ensures
        role_problem(entries, creator_role, actor_holds_creator) is None,
    decreases entries.len(),
{
    if entries.len() > 0 {
        let rest = entries.drop_first();
        assert(is_static_role(entries[0]@, creator_role));
        assert(entries[0]@ == creator_role ==> actor_holds_creator);
        assert forall|i: int| 0 <= i < rest.len() implies is_static_role(#[trigger] rest[i]@, creator_role) by {
            assert(rest[i] == entries[i + 1]);
            assert(is_static_role(entries[i + 1]@, creator_role));
        }
        assert forall|i: int| 0 <= i < rest.len() && #[trigger] rest[i]@ == creator_role implies actor_holds_creator by {
            assert(rest[i] == entries[i + 1]);
            assert(entries[i + 1]@ == creator_role);
        }
        law_role_check_admits_every_permitted_role(rest, creator_role, actor_holds_creator);
    }
}

/// A caller allowed to invite who gives only known roles, and the creator
/// role only when holding it, is never refused for the role: the request
/// goes on to look up the invited address.
pub proof fn law_permitted_role_is_invited(
    session: SessionView,
    input: InviteInput,
    facts: InviteFacts,
    options: OrganizationOptions,
    now: i64,
    actor: Member,
)
    requires
        resolved_organization_id(input.organization_id, session.active_organization_id) is Some,
        input.email@.contains('@'),
        facts.actor == Some(Some(actor)),
        facts.already_member is None,
        roles_grant(actor.role@, options.creator_role@, OrganizationPermission::InvitationCreate),
        forall|i: int| 0 <= i < input.role_entries@.len() ==> is_static_role(
            #[trigger] input.role_entries@[i]@,
            options.creator_role@,
        ),
        forall|i: int| 0 <= i < input.role_entries@.len() && #[trigger] input.role_entries@[i]@
            == options.creator_role@ ==> has_role_entry(actor.role@, options.creator_role@),
    ensures
        invite_decision(session, input, facts, options, now) matches Step::Fetch(
            StoreQuery::MemberByEmail { organization_id: o, email: e },
        ) && e == input.email,
{
    law_role_check_admits_every_permitted_role(
        input.role_entries@,
        options.creator_role@,
        has_role_entry(actor.role@, options.creator_role@),
    );
}

/// An invitation request that goes ahead stores or extends an invitation
/// as requested: a new one for the addressed organization, the given
/// address, role and team, from the caller, pending, expiring the
/// configured time from now; or, when resending, the pending one's expiry
/// moved to that time.
pub proof fn law_invitation_is_made_as_requested(
    session: SessionView,
    input: InviteInput,
    facts: InviteFacts,
    options: OrganizationOptions,
    now: i64,
)
    requires
        i64::MIN <= now + options.invitation_expires_in <= i64::MAX,
    ensures
        invite_decision(session, input, facts, options, now) matches Step::Proceed(InviteAction::Create(n)) ==> {
            &&& resolved_organization_id(input.organization_id, session.active_organization_id) == Some(n.organization_id)
            &&& n.email == input.email
            &&& n.role == input.role
            &&& n.team_id == input.team_id
            &&& n.inviter_id == session.user_id
            &&& n.expires_at == now + options.invitation_expires_in
            &&& n.status == InvitationStatus::Pending
        },
        invite_decision(session, input, facts, options, now) matches Step::Proceed(
            InviteAction::Extend { invitation_id: id, expires_at: e },
        ) ==> {
            &&& input.resend
            &&& facts.pending matches Some(Some(p))
            &&& id == p.id
            &&& e == now + options.invitation_expires_in
        },
{
}

/// An acceptance adds the caller to the invitation's organization with the
/// invitation's role, marks that invitation accepted, and makes its
/// organization the active one.
pub proof fn law_acceptance_adds_caller_with_invited_role(
    session: SessionView,
    invitation_id: String,
    facts: AcceptFacts,
    options: OrganizationOptions,
    now: i64,
)
    ensures
        accept_decision(session, invitation_id, facts, options, now) matches Step::Proceed(a) ==> {
            &&& facts.invitation == Some(Some(a.invitation))
            &&& a.new_status == InvitationStatus::Accepted
            &&& a.member_organization_id == a.invitation.organization_id
            &&& a.member_user_id == session.user_id
            &&& a.member_role == a.invitation.role
            &&& a.active_organization_id == a.invitation.organization_id
            &&& a.join_teams == options.teams.enabled
        },
{
}

/// A rejection or a cancellation that goes ahead marks the invitation the
/// store returned: rejected only by its addressee (with a verified address
/// where that is required), canceled only by a member whose roles grant
/// canceling invitations.
pub proof fn law_reject_and_cancel_touch_found_invitation(
    session: SessionView,
    invitation_id: String,
    invitation: Option<Option<Invitation>>,
    require_verification: bool,
    facts: CancelFacts,
    creator_role: Seq<char>,
)
    ensures
        reject_decision(session, invitation_id, invitation, require_verification) matches Step::Proceed(i) ==> {
            &&& invitation == Some(Some(i))
            &&& is_recipient(i, session)
            &&& (require_verification ==> session.user_email_verified)
        },
        cancel_decision(session, invitation_id, facts, creator_role) matches Step::Proceed(i) ==> {
            &&& facts.invitation == Some(Some(i))
            &&& facts.actor matches Some(Some(a))
            &&& roles_grant(a.role@, creator_role, OrganizationPermission::InvitationCancel)
        },
{
}

/// A member found in the addressed organization is refused an invitation,
/// or a cancellation, for lack of rights exactly when their roles do not
/// grant creating, or canceling, invitations.
pub proof fn law_invitation_rights_decide_refusal(
    session: SessionView,
    input: InviteInput,
    facts: InviteFacts,
    options: OrganizationOptions,
    now: i64,
    invitation_id: String,
    cancel: CancelFacts,
)
    ensures
        resolved_organization_id(input.organization_id, session.active_organization_id) is Some
            && input.email@.contains('@') ==> (facts.actor matches Some(Some(a)) ==> (invite_decision(
            session,
            input,
            facts,
            options,
            now,
        ) == refuse::<InviteAction>(FORBIDDEN, OrgErrorCode::YouAreNotAllowedToInviteUsersToThisOrganization)
            <==> !roles_grant(a.role@, options.creator_role@, OrganizationPermission::InvitationCreate))),
        cancel.invitation is Some && cancel.invitation->0 is Some ==> (cancel.actor matches Some(Some(a)) ==> (
        cancel_decision(session, invitation_id, cancel, options.creator_role@) == refuse::<Invitation>(
            FORBIDDEN,
            OrgErrorCode::YouAreNotAllowedToCancelThisInvitation,
        ) <==> !roles_grant(a.role@, options.creator_role@, OrganizationPermission::InvitationCancel))),
{
    if let Some(Some(a)) = facts.actor {
        lemma_role_problem_kinds(
            input.role_entries@,
            options.creator_role@,
            has_role_entry(a.role@, options.creator_role@),
        );
    }
}

/// The role check refuses only with an unknown role or with the refusal
/// of the creator role.
proof fn lemma_role_problem_kinds(entries: Seq<String>, creator_role: Seq<char>, actor_holds_creator: bool)
    ensures
        role_problem(entries, creator_role, actor_holds_creator) matches Some(r) ==> (r is UnknownRole || r
            == (Refusal::Respond { status: FORBIDDEN, code: OrgErrorCode::YouAreNotAllowedToInviteUserWithThisRole })),
    decreases entries.len(),
{
    if entries.len() > 0 {
        lemma_role_problem_kinds(entries.drop_first(), creator_role, actor_holds_creator);
    }
}

} // verus!
