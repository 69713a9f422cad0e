//! Records of the organization plugin as the request decisions read them,
//! and the refusals the requests answer with.

use vstd::prelude::*;

verus! {

/// The state of an invitation.
#[derive(Debug, Clone, Copy, PartialEq, Eq, Structural)]
pub enum InvitationStatus {
    Pending,
    Accepted,
    Rejected,
    Canceled,
}

/// The stored name of each invitation state.
pub open spec fn invitation_status_name(s: InvitationStatus) -> Seq<char> {
    match s {
        InvitationStatus::Pending => "pending"@,
        InvitationStatus::Accepted => "accepted"@,
        InvitationStatus::Rejected => "rejected"@,
        InvitationStatus::Canceled => "canceled"@,
    }
}

impl InvitationStatus {
    /// The stored name of the state.
    pub fn as_str(self) -> (s: &'static str)
        ensures
            s@ == invitation_status_name(self),
    {
        match self {
            InvitationStatus::Pending => "pending",
            InvitationStatus::Accepted => "accepted",
            InvitationStatus::Rejected => "rejected",
            InvitationStatus::Canceled => "canceled",
        }
    }
}

/// A membership of a user in an organization.
#[derive(Debug)]
pub struct Member {
    pub id: String,
    pub organization_id: String,
    pub user_id: String,
    pub role: String,
}

/// An invitation to join an organization. `expires_at` is in Unix seconds;
/// `team_id` may list several teams separated by commas.
#[derive(Debug)]
pub struct Invitation {
    pub id: String,
    pub organization_id: String,
    pub email: String,
    pub role: String,
    pub status: InvitationStatus,
    pub expires_at: i64,
    pub inviter_id: String,
    pub team_id: Option<String>,
}

/// A team inside an organization.
#[derive(Debug)]
pub struct Team {
    pub id: String,
    pub name: String,
    pub organization_id: String,
}

/// The signed-in user and session as the requests read them.
#[derive(Debug)]
pub struct SessionView {
    pub token: String,
    pub user_id: String,
    pub user_email: String,
    pub user_email_verified: bool,
    pub active_organization_id: Option<String>,
}

impl Clone for Member {
    fn clone(&self) -> (r: Self)
        ensures
            r == *self,
    {
        Member {
            id: self.id.clone(),
            organization_id: self.organization_id.clone(),
            user_id: self.user_id.clone(),
            role: self.role.clone(),
        }
    }
}

impl Clone for Team {
    fn clone(&self) -> (r: Self)
        ensures
            r == *self,
    {
        Team {
            id: self.id.clone(),
            name: self.name.clone(),
            organization_id: self.organization_id.clone(),
        }
    }
}

impl Clone for SessionView {
    fn clone(&self) -> (r: Self)
        ensures
            r == *self,
    {
        SessionView {
            token: self.token.clone(),
            user_id: self.user_id.clone(),
            user_email: self.user_email.clone(),
            user_email_verified: self.user_email_verified,
            active_organization_id: self.active_organization_id.clone(),
        }
    }
}

impl Clone for Invitation {
    fn clone(&self) -> (r: Self)
        ensures
            r == *self,
    {
        Invitation {
            id: self.id.clone(),
            organization_id: self.organization_id.clone(),
            email: self.email.clone(),
            role: self.role.clone(),
            status: self.status,
            expires_at: self.expires_at,
            inviter_id: self.inviter_id.clone(),
            team_id: self.team_id.clone(),
        }
    }
}

/// The error codes the organization requests answer with.
#[derive(Debug, Clone, Copy, PartialEq, Eq, Structural)]
pub enum OrgErrorCode {
    Unauthorized,
    NoActiveOrganization,
    MemberNotFound,
    UserNotFound,
    OrganizationNotFound,
    InvitationNotFound,
    TeamNotFound,
    InvalidEmail,
    InvalidRequestBody,
    RoleNotFound,
    OrganizationDeletionDisabled,
    OrganizationAlreadyExists,
    OrganizationSlugAlreadyTaken,
    UserIsAlreadyAMemberOfThisOrganization,
    UserIsAlreadyInvitedToThisOrganization,
    UserIsNotAMemberOfTheOrganization,
    UserIsNotAMemberOfTheTeam,
    OrganizationMembershipLimitReached,
    InvitationLimitReached,
    TeamMemberLimitReached,
    YouHaveReachedTheMaximumNumberOfOrganizations,
    YouHaveReachedTheMaximumNumberOfTeams,
    UnableToRemoveLastTeam,
    YouCannotLeaveTheOrganizationAsTheOnlyOwner,
    YouCannotLeaveTheOrganizationWithoutAnOwner,
    YouAreNotAllowedToCreateANewOrganization,
    YouAreNotAllowedToUpdateThisOrganization,
    YouAreNotAllowedToDeleteThisOrganization,
    YouAreNotAllowedToUpdateThisMember,
    YouAreNotAllowedToDeleteThisMember,
    YouAreNotAllowedToInviteUsersToThisOrganization,
    YouAreNotAllowedToInviteUserWithThisRole,
    YouAreNotAllowedToCancelThisInvitation,
    YouAreNotTheRecipientOfTheInvitation,
    EmailVerificationRequiredBeforeAcceptingOrRejectingInvitation,
    YouAreNotAllowedToCreateTeamsInThisOrganization,
    YouAreNotAllowedToDeleteThisTeam,
    YouAreNotAllowedToUpdateThisTeam,
    YouAreNotAllowedToCreateANewTeamMember,
    YouAreNotAllowedToRemoveATeamMember,
}

/// The wire form of each error code.
pub open spec fn org_error_code_name(c: OrgErrorCode) -> Seq<char> {
    match c {
        OrgErrorCode::Unauthorized => "UNAUTHORIZED"@,
        OrgErrorCode::NoActiveOrganization => "NO_ACTIVE_ORGANIZATION"@,
        OrgErrorCode::MemberNotFound => "MEMBER_NOT_FOUND"@,
        OrgErrorCode::UserNotFound => "USER_NOT_FOUND"@,
        OrgErrorCode::OrganizationNotFound => "ORGANIZATION_NOT_FOUND"@,
        OrgErrorCode::InvitationNotFound => "INVITATION_NOT_FOUND"@,
        OrgErrorCode::TeamNotFound => "TEAM_NOT_FOUND"@,
        OrgErrorCode::InvalidEmail => "INVALID_EMAIL"@,
        OrgErrorCode::InvalidRequestBody => "INVALID_REQUEST_BODY"@,
        OrgErrorCode::RoleNotFound => "ROLE_NOT_FOUND"@,
        OrgErrorCode::OrganizationDeletionDisabled => "ORGANIZATION_DELETION_DISABLED"@,
        OrgErrorCode::OrganizationAlreadyExists => "ORGANIZATION_ALREADY_EXISTS"@,
        OrgErrorCode::OrganizationSlugAlreadyTaken => "ORGANIZATION_SLUG_ALREADY_TAKEN"@,
        OrgErrorCode::UserIsAlreadyAMemberOfThisOrganization => "USER_IS_ALREADY_A_MEMBER_OF_THIS_ORGANIZATION"@,
        OrgErrorCode::UserIsAlreadyInvitedToThisOrganization => "USER_IS_ALREADY_INVITED_TO_THIS_ORGANIZATION"@,
        OrgErrorCode::UserIsNotAMemberOfTheOrganization => "USER_IS_NOT_A_MEMBER_OF_THE_ORGANIZATION"@,
        OrgErrorCode::UserIsNotAMemberOfTheTeam => "USER_IS_NOT_A_MEMBER_OF_THE_TEAM"@,
        OrgErrorCode::OrganizationMembershipLimitReached => "ORGANIZATION_MEMBERSHIP_LIMIT_REACHED"@,
        OrgErrorCode::InvitationLimitReached => "INVITATION_LIMIT_REACHED"@,
        OrgErrorCode::TeamMemberLimitReached => "TEAM_MEMBER_LIMIT_REACHED"@,
        OrgErrorCode::YouHaveReachedTheMaximumNumberOfOrganizations => "YOU_HAVE_REACHED_THE_MAXIMUM_NUMBER_OF_ORGANIZATIONS"@,
        OrgErrorCode::YouHaveReachedTheMaximumNumberOfTeams => "YOU_HAVE_REACHED_THE_MAXIMUM_NUMBER_OF_TEAMS"@,
        OrgErrorCode::UnableToRemoveLastTeam => "UNABLE_TO_REMOVE_LAST_TEAM"@,
        OrgErrorCode::YouCannotLeaveTheOrganizationAsTheOnlyOwner => "YOU_CANNOT_LEAVE_THE_ORGANIZATION_AS_THE_ONLY_OWNER"@,
        OrgErrorCode::YouCannotLeaveTheOrganizationWithoutAnOwner => "YOU_CANNOT_LEAVE_THE_ORGANIZATION_WITHOUT_AN_OWNER"@,
        OrgErrorCode::YouAreNotAllowedToCreateANewOrganization => "YOU_ARE_NOT_ALLOWED_TO_CREATE_A_NEW_ORGANIZATION"@,
        OrgErrorCode::YouAreNotAllowedToUpdateThisOrganization => "YOU_ARE_NOT_ALLOWED_TO_UPDATE_THIS_ORGANIZATION"@,
        OrgErrorCode::YouAreNotAllowedToDeleteThisOrganization => "YOU_ARE_NOT_ALLOWED_TO_DELETE_THIS_ORGANIZATION"@,
        OrgErrorCode::YouAreNotAllowedToUpdateThisMember => "YOU_ARE_NOT_ALLOWED_TO_UPDATE_THIS_MEMBER"@,
        OrgErrorCode::YouAreNotAllowedToDeleteThisMember => "YOU_ARE_NOT_ALLOWED_TO_DELETE_THIS_MEMBER"@,
        OrgErrorCode::YouAreNotAllowedToInviteUsersToThisOrganization => "YOU_ARE_NOT_ALLOWED_TO_INVITE_USERS_TO_THIS_ORGANIZATION"@,
        OrgErrorCode::YouAreNotAllowedToInviteUserWithThisRole => "YOU_ARE_NOT_ALLOWED_TO_INVITE_USER_WITH_THIS_ROLE"@,
        OrgErrorCode::YouAreNotAllowedToCancelThisInvitation => "YOU_ARE_NOT_ALLOWED_TO_CANCEL_THIS_INVITATION"@,
        OrgErrorCode::YouAreNotTheRecipientOfTheInvitation => "YOU_ARE_NOT_THE_RECIPIENT_OF_THE_INVITATION"@,
        OrgErrorCode::EmailVerificationRequiredBeforeAcceptingOrRejectingInvitation => "EMAIL_VERIFICATION_REQUIRED_BEFORE_ACCEPTING_OR_REJECTING_INVITATION"@,
        OrgErrorCode::YouAreNotAllowedToCreateTeamsInThisOrganization => "YOU_ARE_NOT_ALLOWED_TO_CREATE_TEAMS_IN_THIS_ORGANIZATION"@,
        OrgErrorCode::YouAreNotAllowedToDeleteThisTeam => "YOU_ARE_NOT_ALLOWED_TO_DELETE_THIS_TEAM"@,
        OrgErrorCode::YouAreNotAllowedToUpdateThisTeam => "YOU_ARE_NOT_ALLOWED_TO_UPDATE_THIS_TEAM"@,
        OrgErrorCode::YouAreNotAllowedToCreateANewTeamMember => "YOU_ARE_NOT_ALLOWED_TO_CREATE_A_NEW_TEAM_MEMBER"@,
        OrgErrorCode::YouAreNotAllowedToRemoveATeamMember => "YOU_ARE_NOT_ALLOWED_TO_REMOVE_A_TEAM_MEMBER"@,
    }
}

impl OrgErrorCode {
    /// The wire form of the code.
    pub fn as_str(self) -> (s: &'static str)
        ensures
            s@ == org_error_code_name(self),
    {
        match self {
            OrgErrorCode::Unauthorized => "UNAUTHORIZED",
            OrgErrorCode::NoActiveOrganization => "NO_ACTIVE_ORGANIZATION",
            OrgErrorCode::MemberNotFound => "MEMBER_NOT_FOUND",
            OrgErrorCode::UserNotFound => "USER_NOT_FOUND",
            OrgErrorCode::OrganizationNotFound => "ORGANIZATION_NOT_FOUND",
            OrgErrorCode::InvitationNotFound => "INVITATION_NOT_FOUND",
            OrgErrorCode::TeamNotFound => "TEAM_NOT_FOUND",
            OrgErrorCode::InvalidEmail => "INVALID_EMAIL",
            OrgErrorCode::InvalidRequestBody => "INVALID_REQUEST_BODY",
            OrgErrorCode::RoleNotFound => "ROLE_NOT_FOUND",
            OrgErrorCode::OrganizationDeletionDisabled => "ORGANIZATION_DELETION_DISABLED",
            OrgErrorCode::OrganizationAlreadyExists => "ORGANIZATION_ALREADY_EXISTS",
            OrgErrorCode::OrganizationSlugAlreadyTaken => "ORGANIZATION_SLUG_ALREADY_TAKEN",
            OrgErrorCode::UserIsAlreadyAMemberOfThisOrganization => "USER_IS_ALREADY_A_MEMBER_OF_THIS_ORGANIZATION",
            OrgErrorCode::UserIsAlreadyInvitedToThisOrganization => "USER_IS_ALREADY_INVITED_TO_THIS_ORGANIZATION",
            OrgErrorCode::UserIsNotAMemberOfTheOrganization => "USER_IS_NOT_A_MEMBER_OF_THE_ORGANIZATION",
            OrgErrorCode::UserIsNotAMemberOfTheTeam => "USER_IS_NOT_A_MEMBER_OF_THE_TEAM",
            OrgErrorCode::OrganizationMembershipLimitReached => "ORGANIZATION_MEMBERSHIP_LIMIT_REACHED",
            OrgErrorCode::InvitationLimitReached => "INVITATION_LIMIT_REACHED",
            OrgErrorCode::TeamMemberLimitReached => "TEAM_MEMBER_LIMIT_REACHED",
            OrgErrorCode::YouHaveReachedTheMaximumNumberOfOrganizations => "YOU_HAVE_REACHED_THE_MAXIMUM_NUMBER_OF_ORGANIZATIONS",
            OrgErrorCode::YouHaveReachedTheMaximumNumberOfTeams => "YOU_HAVE_REACHED_THE_MAXIMUM_NUMBER_OF_TEAMS",
            OrgErrorCode::UnableToRemoveLastTeam => "UNABLE_TO_REMOVE_LAST_TEAM",
            OrgErrorCode::YouCannotLeaveTheOrganizationAsTheOnlyOwner => "YOU_CANNOT_LEAVE_THE_ORGANIZATION_AS_THE_ONLY_OWNER",
            OrgErrorCode::YouCannotLeaveTheOrganizationWithoutAnOwner => "YOU_CANNOT_LEAVE_THE_ORGANIZATION_WITHOUT_AN_OWNER",
            OrgErrorCode::YouAreNotAllowedToCreateANewOrganization => "YOU_ARE_NOT_ALLOWED_TO_CREATE_A_NEW_ORGANIZATION",
            OrgErrorCode::YouAreNotAllowedToUpdateThisOrganization => "YOU_ARE_NOT_ALLOWED_TO_UPDATE_THIS_ORGANIZATION",
            OrgErrorCode::YouAreNotAllowedToDeleteThisOrganization => "YOU_ARE_NOT_ALLOWED_TO_DELETE_THIS_ORGANIZATION",
            OrgErrorCode::YouAreNotAllowedToUpdateThisMember => "YOU_ARE_NOT_ALLOWED_TO_UPDATE_THIS_MEMBER",
            OrgErrorCode::YouAreNotAllowedToDeleteThisMember => "YOU_ARE_NOT_ALLOWED_TO_DELETE_THIS_MEMBER",
            OrgErrorCode::YouAreNotAllowedToInviteUsersToThisOrganization => "YOU_ARE_NOT_ALLOWED_TO_INVITE_USERS_TO_THIS_ORGANIZATION",
            OrgErrorCode::YouAreNotAllowedToInviteUserWithThisRole => "YOU_ARE_NOT_ALLOWED_TO_INVITE_USER_WITH_THIS_ROLE",
            OrgErrorCode::YouAreNotAllowedToCancelThisInvitation => "YOU_ARE_NOT_ALLOWED_TO_CANCEL_THIS_INVITATION",
            OrgErrorCode::YouAreNotTheRecipientOfTheInvitation => "YOU_ARE_NOT_THE_RECIPIENT_OF_THE_INVITATION",
            OrgErrorCode::EmailVerificationRequiredBeforeAcceptingOrRejectingInvitation => "EMAIL_VERIFICATION_REQUIRED_BEFORE_ACCEPTING_OR_REJECTING_INVITATION",
            OrgErrorCode::YouAreNotAllowedToCreateTeamsInThisOrganization => "YOU_ARE_NOT_ALLOWED_TO_CREATE_TEAMS_IN_THIS_ORGANIZATION",
            OrgErrorCode::YouAreNotAllowedToDeleteThisTeam => "YOU_ARE_NOT_ALLOWED_TO_DELETE_THIS_TEAM",
            OrgErrorCode::YouAreNotAllowedToUpdateThisTeam => "YOU_ARE_NOT_ALLOWED_TO_UPDATE_THIS_TEAM",
            OrgErrorCode::YouAreNotAllowedToCreateANewTeamMember => "YOU_ARE_NOT_ALLOWED_TO_CREATE_A_NEW_TEAM_MEMBER",
            OrgErrorCode::YouAreNotAllowedToRemoveATeamMember => "YOU_ARE_NOT_ALLOWED_TO_REMOVE_A_TEAM_MEMBER",
        }
    }
}

/// HTTP status codes the requests answer with.
pub const BAD_REQUEST: u16 = 400;
pub const UNAUTHORIZED: u16 = 401;
pub const FORBIDDEN: u16 = 403;
pub const NOT_FOUND: u16 = 404;

/// Why a request is refused.
#[derive(Debug, Clone, PartialEq, Eq)]
pub enum Refusal {
    /// An error response with the given status and code.
    Respond { status: u16, code: OrgErrorCode },
    /// `ROLE_NOT_FOUND` naming the unknown role.
    UnknownRole { role: String },
    /// No signed-in session where one is required; the request fails with
    /// an API error rather than a response.
    SessionRequired,
    /// A user that must be a member of the organization is not.
    MembershipRequired,
}

/// The organization a request addresses: the one named in the request, else
/// the session's active one.
pub open spec fn resolved_organization_id(explicit: Option<String>, active: Option<String>) -> Option<String> {
    match explicit {
        Some(id) => Some(id),
        None => active,
    }
}

/// The organization a request addresses.
pub fn resolve_organization_id(explicit: Option<String>, active: Option<&str>) -> (r: Option<String>)
    ensures
        match explicit {
            Some(id) => r == Some(id),
            None => match active {
                Some(a) => r matches Some(s) && s@ == a@,
                None => r is None,
            },
        },
{
    match explicit {
        Some(id) => Some(id),
        None => match active {
            Some(a) => Some(a.to_owned()),
            None => None,
        },
    }
}

} // verus!
