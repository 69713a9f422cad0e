//! Settings of the organization plugin.

use vstd::prelude::*;

verus! {

/// Settings of teams inside organizations.
#[derive(Debug, Clone, Copy, PartialEq, Eq, Structural)]
pub struct TeamOptions {
    pub enabled: bool,
    pub create_default_team: bool,
    pub maximum_teams: Option<usize>,
    pub maximum_members_per_team: Option<usize>,
    pub allow_removing_all_teams: bool,
}

impl Default for TeamOptions {
    fn default() -> (r: Self)
        ensures
            r == (TeamOptions {
                enabled: false,
                create_default_team: true,
                maximum_teams: None,
                maximum_members_per_team: None,
                allow_removing_all_teams: false,
            }),
    {
        TeamOptions {
            enabled: false,
            create_default_team: true,
            maximum_teams: None,
            maximum_members_per_team: None,
            allow_removing_all_teams: false,
        }
    }
}

/// Whether organizations may define roles beyond the built-in ones.
#[derive(Debug, Clone, Copy, PartialEq, Eq, Structural)]
pub struct DynamicAccessControlOptions {
    pub enabled: bool,
}

impl Default for DynamicAccessControlOptions {
    fn default() -> (r: Self)
        ensures
            r == (DynamicAccessControlOptions { enabled: false }),
    {
        DynamicAccessControlOptions { enabled: false }
    }
}

/// Settings of the organization plugin.
#[derive(Debug, Clone)]
pub struct OrganizationOptions {
    pub allow_user_to_create_organization: bool,
    pub organization_limit: Option<usize>,
    pub creator_role: String,
    pub membership_limit: usize,
    pub invitation_expires_in: i64,
    pub invitation_limit: usize,
    pub cancel_pending_invitations_on_re_invite: bool,
    pub require_email_verification_on_invitation: bool,
    pub disable_organization_deletion: bool,
    pub teams: TeamOptions,
    pub dynamic_access_control: DynamicAccessControlOptions,
}

/// The settings used when none are given.
pub open spec fn is_default_options(o: OrganizationOptions) -> bool {
    &&& o.allow_user_to_create_organization
    &&& o.organization_limit is None
    &&& o.creator_role@ == "owner"@
    &&& o.membership_limit == 100
    &&& o.invitation_expires_in == 60 * 60 * 48
    &&& o.invitation_limit == 100
    &&& !o.cancel_pending_invitations_on_re_invite
    &&& !o.require_email_verification_on_invitation
    &&& !o.disable_organization_deletion
    &&& !o.teams.enabled
    &&& o.teams.create_default_team
    &&& o.teams.maximum_teams is None
    &&& o.teams.maximum_members_per_team is None
    &&& !o.teams.allow_removing_all_teams
    &&& !o.dynamic_access_control.enabled
}

impl Default for OrganizationOptions {
    fn default() -> (r: Self)
        ensures
            is_default_options(r),
    {
        OrganizationOptions {
            allow_user_to_create_organization: true,
            organization_limit: None,
            creator_role: "owner".to_owned(),
            membership_limit: 100,
            invitation_expires_in: 60 * 60 * 48,
            invitation_limit: 100,
            cancel_pending_invitations_on_re_invite: false,
            require_email_verification_on_invitation: false,
            disable_organization_deletion: false,
            teams: TeamOptions::default(),
            dynamic_access_control: DynamicAccessControlOptions::default(),
        }
    }
}

impl OrganizationOptions {
    /// A builder that starts from the default settings.
    pub fn builder() -> (b: OrganizationOptionsBuilder)
        ensures
            is_default_options(b.options),
    {
        OrganizationOptionsBuilder { options: OrganizationOptions::default() }
    }
}

/// Builds organization settings one field at a time.
#[derive(Debug, Clone)]
pub struct OrganizationOptionsBuilder {
    pub options: OrganizationOptions,
}

impl OrganizationOptionsBuilder {
    pub fn allow_user_to_create_organization(self, allow: bool) -> (r: Self)
        ensures
            r.options == (OrganizationOptions { allow_user_to_create_organization: allow, ..self.options }),
    {
        let mut b = self;
        b.options.allow_user_to_create_organization = allow;
        b
    }

    pub fn organization_limit(self, limit: usize) -> (r: Self)
        ensures
            r.options == (OrganizationOptions { organization_limit: Some(limit), ..self.options }),
    {
        let mut b = self;
        b.options.organization_limit = Some(limit);
        b
    }

    pub fn creator_role(self, role: String) -> (r: Self)
        ensures
            r.options == (OrganizationOptions { creator_role: role, ..self.options }),
    {
        let mut b = self;
        b.options.creator_role = role;
        b
    }

    pub fn membership_limit(self, limit: usize) -> (r: Self)
        ensures
            r.options == (OrganizationOptions { membership_limit: limit, ..self.options }),
    {
        let mut b = self;
        b.options.membership_limit = limit;
        b
    }

    pub fn invitation_expires_in(self, seconds: i64) -> (r: Self)
        ensures
            r.options == (OrganizationOptions { invitation_expires_in: seconds, ..self.options }),
    {
        let mut b = self;
        b.options.invitation_expires_in = seconds;
        b
    }

    pub fn invitation_limit(self, limit: usize) -> (r: Self)
        ensures
            r.options == (OrganizationOptions { invitation_limit: limit, ..self.options }),
    {
        let mut b = self;
        b.options.invitation_limit = limit;
        b
    }

    pub fn cancel_pending_invitations_on_re_invite(self, cancel: bool) -> (r: Self)
        ensures
            r.options == (OrganizationOptions {
                cancel_pending_invitations_on_re_invite: cancel,
                ..self.options
            }),
    {
        let mut b = self;
        b.options.cancel_pending_invitations_on_re_invite = cancel;
        b
    }

    pub fn require_email_verification_on_invitation(self, require: bool) -> (r: Self)
        ensures
            r.options == (OrganizationOptions {
                require_email_verification_on_invitation: require,
                ..self.options
            }),
    {
        let mut b = self;
        b.options.require_email_verification_on_invitation = require;
        b
    }

    pub fn disable_organization_deletion(self, disable: bool) -> (r: Self)
        ensures
            r.options == (OrganizationOptions { disable_organization_deletion: disable, ..self.options }),
    {
        let mut b = self;
        b.options.disable_organization_deletion = disable;
        b
    }

    pub fn teams(self, teams: TeamOptions) -> (r: Self)
        ensures
            r.options == (OrganizationOptions { teams: teams, ..self.options }),
    {
        let mut b = self;
        b.options.teams = teams;
        b
    }

    pub fn build(self) -> (r: OrganizationOptions)
        ensures
            r == self.options,
    {
        self.options
    }
}

} // verus!
