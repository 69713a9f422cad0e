//! Decisions of the team requests: create, remove, rename, make active, add
//! and remove team members, and list a team's members.

use vstd::prelude::*;

use super::members::session_organization;
use super::models::{
    resolved_organization_id, Member, OrgErrorCode, Refusal, SessionView, Team, BAD_REQUEST,
    FORBIDDEN,
};
use super::options::OrganizationOptions;
use super::permissions::{has_permission, roles_grant, OrganizationPermission};
use super::steps::{refuse, refuse_with, Step, StoreQuery};
use crate::text::{chars_of, string_of, trim, trim_chars};

verus! {

/// What the store has answered so far for a create-team request.
#[derive(Debug)]
pub struct CreateTeamFacts {
    pub actor: Option<Option<Member>>,
    pub team_count: Option<usize>,
}

/// A team to create in `organization_id`; the caller joins it.
#[derive(Debug)]
pub struct NewTeam {
    pub organization_id: String,
    pub name: String,
}

/// The decision of a create-team request; `trimmed_name` is the requested
/// name with surrounding white space removed.
pub open spec fn create_team_decision(
    session: SessionView,
    trimmed_name: String,
    explicit_org: Option<String>,
    facts: CreateTeamFacts,
    options: OrganizationOptions,
) -> Step<NewTeam> {
    if trimmed_name@.len() == 0 {
        refuse(BAD_REQUEST, OrgErrorCode::InvalidRequestBody)
    } else {
        match resolved_organization_id(explicit_org, session.active_organization_id) {
            None => refuse(BAD_REQUEST, OrgErrorCode::NoActiveOrganization),
            Some(org) => match facts.actor {
                None => Step::Fetch(
                    StoreQuery::MemberByOrgUser { organization_id: org, user_id: session.user_id },
                ),
                Some(None) => Step::Refuse(Refusal::MembershipRequired),
                Some(Some(actor)) => if !roles_grant(
                    actor.role@,
                    options.creator_role@,
                    OrganizationPermission::TeamCreate,
                ) {
                    refuse(FORBIDDEN, OrgErrorCode::YouAreNotAllowedToCreateTeamsInThisOrganization)
                } else if options.teams.maximum_teams is Some && facts.team_count is None {
                    Step::Fetch(StoreQuery::TeamsForOrganization { organization_id: org })
                } else if options.teams.maximum_teams is Some && facts.team_count->0
                    >= options.teams.maximum_teams->0 {
                    refuse(BAD_REQUEST, OrgErrorCode::YouHaveReachedTheMaximumNumberOfTeams)
                } else {
                    Step::Proceed(NewTeam { organization_id: org, name: trimmed_name })
                },
            },
        }
    }
}

/// The requested team name without surrounding white space.
pub fn trimmed(name: &str) -> (r: String)
    ensures
        r@ == trim(name@),
{
    let c = chars_of(name);
    let t = trim_chars(&c);
    string_of(&t)
}

/// Decides the next turn of a create-team request.
pub fn decide_create_team(
    session: &SessionView,
    trimmed_name: &String,
    explicit_org: &Option<String>,
    facts: &CreateTeamFacts,
    options: &OrganizationOptions,
) -> (r: Step<NewTeam>)
    ensures
        r == create_team_decision(*session, *trimmed_name, *explicit_org, *facts, *options),
{
    if trimmed_name.as_str().is_empty() {
        return refuse_with(BAD_REQUEST, OrgErrorCode::InvalidRequestBody);
    }
    let org = match session_organization(explicit_org, session) {
        None => return refuse_with(BAD_REQUEST, OrgErrorCode::NoActiveOrganization),
        Some(org) => org,
    };
    let actor = match &facts.actor {
        None => return Step::Fetch(
            StoreQuery::MemberByOrgUser { organization_id: org, user_id: session.user_id.clone() },
        ),
        Some(None) => return Step::Refuse(Refusal::MembershipRequired),
        Some(Some(actor)) => actor,
    };
    if !has_permission(actor.role.as_str(), options, OrganizationPermission::TeamCreate) {
        return refuse_with(FORBIDDEN, OrgErrorCode::YouAreNotAllowedToCreateTeamsInThisOrganization);
    }
    match options.teams.maximum_teams {
        Some(max) => match facts.team_count {
            None => return Step::Fetch(StoreQuery::TeamsForOrganization { organization_id: org }),
            Some(n) => {
                if n >= max {
                    return refuse_with(BAD_REQUEST, OrgErrorCode::YouHaveReachedTheMaximumNumberOfTeams);
                }
            },
        },
        None => {},
    }
    Step::Proceed(NewTeam { organization_id: org, name: trimmed_name.clone() })
}

/// What the store has answered so far for a remove-team request.
#[derive(Debug)]
pub struct RemoveTeamFacts {
    pub team: Option<Option<Team>>,
    pub actor: Option<Option<Member>>,
    pub team_count: Option<usize>,
}

/// The decision of a remove-team request; `Proceed` gives the team to
/// delete with its memberships.
pub open spec fn remove_team_decision(
    session: SessionView,
    team_id: String,
    explicit_org: Option<String>,
    facts: RemoveTeamFacts,
    options: OrganizationOptions,
) -> Step<Team> {
    match facts.team {
        None => Step::Fetch(StoreQuery::TeamById { team_id }),
        Some(None) => refuse(BAD_REQUEST, OrgErrorCode::TeamNotFound),
        Some(Some(team)) => {
            let org = match explicit_org {
                Some(o) => o,
                None => team.organization_id,
            };
            if team.organization_id@ != org@ {
                refuse(BAD_REQUEST, OrgErrorCode::TeamNotFound)
            } else {
                match facts.actor {
                    None => Step::Fetch(
                        StoreQuery::MemberByOrgUser { organization_id: org, user_id: session.user_id },
                    ),
                    Some(None) => Step::Refuse(Refusal::MembershipRequired),
                    Some(Some(actor)) => if !roles_grant(
                        actor.role@,
                        options.creator_role@,
                        OrganizationPermission::TeamDelete,
                    ) {
                        refuse(FORBIDDEN, OrgErrorCode::YouAreNotAllowedToDeleteThisTeam)
                    } else if !options.teams.allow_removing_all_teams && facts.team_count is None {
                        Step::Fetch(StoreQuery::TeamsForOrganization { organization_id: org })
                    } else if !options.teams.allow_removing_all_teams && facts.team_count->0 <= 1 {
                        refuse(BAD_REQUEST, OrgErrorCode::UnableToRemoveLastTeam)
                    } else {
                        Step::Proceed(team)
                    },
                }
            }
        },
    }
}

/// Decides the next turn of a remove-team request.
pub fn decide_remove_team(
    session: &SessionView,
    team_id: &String,
    explicit_org: &Option<String>,
    facts: &RemoveTeamFacts,
    options: &OrganizationOptions,
) -> (r: Step<Team>)
    ensures
        r == remove_team_decision(*session, *team_id, *explicit_org, *facts, *options),
{
    let team = match &facts.team {
        None => return Step::Fetch(StoreQuery::TeamById { team_id: team_id.clone() }),
        Some(None) => return refuse_with(BAD_REQUEST, OrgErrorCode::TeamNotFound),
        Some(Some(team)) => team,
    };
    let org = match explicit_org {
        Some(o) => o.clone(),
        None => team.organization_id.clone(),
    };
    if !crate::text::str_eq(team.organization_id.as_str(), org.as_str()) {
        return refuse_with(BAD_REQUEST, OrgErrorCode::TeamNotFound);
    }
    let actor = match &facts.actor {
        None => return Step::Fetch(
            StoreQuery::MemberByOrgUser { organization_id: org, user_id: session.user_id.clone() },
        ),
        Some(None) => return Step::Refuse(Refusal::MembershipRequired),
        Some(Some(actor)) => actor,
    };
    if !has_permission(actor.role.as_str(), options, OrganizationPermission::TeamDelete) {
        return refuse_with(FORBIDDEN, OrgErrorCode::YouAreNotAllowedToDeleteThisTeam);
    }
    if !options.teams.allow_removing_all_teams {
        match facts.team_count {
            None => return Step::Fetch(StoreQuery::TeamsForOrganization { organization_id: org }),
            Some(n) => {
                if n <= 1 {
                    return refuse_with(BAD_REQUEST, OrgErrorCode::UnableToRemoveLastTeam);
                }
            },
        }
    }
    Step::Proceed(team.clone())
}

/// What the store has answered so far for a request on one team by a member
/// of its organization (rename, remove a team member).
#[derive(Debug)]
pub struct TeamActionFacts {
    pub team: Option<Option<Team>>,
    pub actor: Option<Option<Member>>,
}

/// The decision of a request that changes a team and needs the team-update
/// permission; `denied` is the code answered when the caller lacks it.
pub open spec fn team_update_decision(
    session: SessionView,
    team_id: String,
    facts: TeamActionFacts,
    creator_role: Seq<char>,
    denied: OrgErrorCode,
) -> Step<Team> {
    match facts.team {
        None => Step::Fetch(StoreQuery::TeamById { team_id }),
        Some(None) => refuse(BAD_REQUEST, OrgErrorCode::TeamNotFound),
        Some(Some(team)) => match facts.actor {
            None => Step::Fetch(
                StoreQuery::MemberByOrgUser {
                    organization_id: team.organization_id,
                    user_id: session.user_id,
                },
            ),
            Some(None) => Step::Refuse(Refusal::MembershipRequired),
            Some(Some(actor)) => if !roles_grant(
                actor.role@,
                creator_role,
                OrganizationPermission::TeamUpdate,
            ) {
                refuse(FORBIDDEN, denied)
            } else {
                Step::Proceed(team)
            },
        },
    }
}

/// Decides the next turn of a rename (`denied` is
/// `YouAreNotAllowedToUpdateThisTeam`) or of a team-member removal
/// (`YouAreNotAllowedToRemoveATeamMember`).
pub fn decide_team_update(
    session: &SessionView,
    team_id: &String,
    facts: &TeamActionFacts,
    options: &OrganizationOptions,
    denied: OrgErrorCode,
) -> (r: Step<Team>)
    ensures
        r == team_update_decision(*session, *team_id, *facts, options.creator_role@, denied),
{
    let team = match &facts.team {
        None => return Step::Fetch(StoreQuery::TeamById { team_id: team_id.clone() }),
        Some(None) => return refuse_with(BAD_REQUEST, OrgErrorCode::TeamNotFound),
        Some(Some(team)) => team,
    };
    let actor = match &facts.actor {
        None => return Step::Fetch(
            StoreQuery::MemberByOrgUser {
                organization_id: team.organization_id.clone(),
                user_id: session.user_id.clone(),
            },
        ),
        Some(None) => return Step::Refuse(Refusal::MembershipRequired),
        Some(Some(actor)) => actor,
    };
    if !has_permission(actor.role.as_str(), options, OrganizationPermission::TeamUpdate) {
        return refuse_with(FORBIDDEN, denied);
    }
    Step::Proceed(team.clone())
}

/// What the store has answered so far for a make-active request.
#[derive(Debug)]
pub struct SetActiveTeamFacts {
    pub team: Option<Option<Team>>,
    pub member: Option<Option<Member>>,
    pub in_team: Option<bool>,
}

/// The decision of a make-active request.
pub open spec fn set_active_team_decision(session: SessionView, team_id: String, facts: SetActiveTeamFacts) -> Step<Team> {
    match facts.team {
        None => Step::Fetch(StoreQuery::TeamById { team_id }),
        Some(None) => refuse(BAD_REQUEST, OrgErrorCode::TeamNotFound),
        Some(Some(team)) => match facts.member {
            None => Step::Fetch(
                StoreQuery::MemberByOrgUser {
                    organization_id: team.organization_id,
                    user_id: session.user_id,
                },
            ),
            Some(None) => Step::Refuse(Refusal::MembershipRequired),
            Some(Some(_)) => match facts.in_team {
                None => Step::Fetch(StoreQuery::TeamMember { team_id: team.id, user_id: session.user_id }),
                Some(false) => refuse(FORBIDDEN, OrgErrorCode::UserIsNotAMemberOfTheTeam),
                Some(true) => Step::Proceed(team),
            },
        },
    }
}

/// Decides the next turn of a make-active request.
pub fn decide_set_active_team(session: &SessionView, team_id: &String, facts: &SetActiveTeamFacts) -> (r: Step<Team>)
    ensures
        r == set_active_team_decision(*session, *team_id, *facts),
{
    let team = match &facts.team {
        None => return Step::Fetch(StoreQuery::TeamById { team_id: team_id.clone() }),
        Some(None) => return refuse_with(BAD_REQUEST, OrgErrorCode::TeamNotFound),
        Some(Some(team)) => team,
    };
    match &facts.member {
        None => return Step::Fetch(
            StoreQuery::MemberByOrgUser {
                organization_id: team.organization_id.clone(),
                user_id: session.user_id.clone(),
            },
        ),
        Some(None) => return Step::Refuse(Refusal::MembershipRequired),
        Some(Some(_)) => {},
    }
    match facts.in_team {
        None => Step::Fetch(
            StoreQuery::TeamMember { team_id: team.id.clone(), user_id: session.user_id.clone() },
        ),
        Some(false) => refuse_with(FORBIDDEN, OrgErrorCode::UserIsNotAMemberOfTheTeam),
        Some(true) => Step::Proceed(team.clone()),
    }
}

/// What the store has answered so far for an add-team-member request.
#[derive(Debug)]
pub struct AddTeamMemberFacts {
    pub team: Option<Option<Team>>,
    pub actor: Option<Option<Member>>,
    pub target: Option<Option<Member>>,
    pub team_member_count: Option<u64>,
    pub already_in_team: Option<bool>,
}

/// The outcome of an add-team-member request: the user joins the team, or
/// is in it already and the existing membership is answered.
#[derive(Debug)]
pub enum TeamJoin {
    Join { team_id: String, user_id: String },
    Existing { team_id: String, user_id: String },
}

/// The decision of an add-team-member request.
pub open spec fn add_team_member_decision(
    session: SessionView,
    team_id: String,
    user_id: String,
    facts: AddTeamMemberFacts,
    options: OrganizationOptions,
) -> Step<TeamJoin> {
    match facts.team {
        None => Step::Fetch(StoreQuery::TeamById { team_id }),
        Some(None) => refuse(BAD_REQUEST, OrgErrorCode::TeamNotFound),
        Some(Some(team)) => match facts.actor {
            None => Step::Fetch(
                StoreQuery::MemberByOrgUser {
                    organization_id: team.organization_id,
                    user_id: session.user_id,
                },
            ),
            Some(None) => Step::Refuse(Refusal::MembershipRequired),
            Some(Some(actor)) => if !roles_grant(
                actor.role@,
                options.creator_role@,
                OrganizationPermission::TeamUpdate,
            ) {
                refuse(FORBIDDEN, OrgErrorCode::YouAreNotAllowedToCreateANewTeamMember)
            } else {
                match facts.target {
                    None => Step::Fetch(
                        StoreQuery::MemberByOrgUser { organization_id: team.organization_id, user_id },
                    ),
                    Some(None) => Step::Refuse(Refusal::MembershipRequired),
                    Some(Some(_)) => if options.teams.maximum_members_per_team is Some
                        && facts.team_member_count is None {
                        Step::Fetch(StoreQuery::CountTeamMembers { team_id: team.id })
                    } else if options.teams.maximum_members_per_team is Some
                        && facts.team_member_count->0 as usize
                        >= options.teams.maximum_members_per_team->0 {
                        refuse(FORBIDDEN, OrgErrorCode::TeamMemberLimitReached)
                    } else {
                        match facts.already_in_team {
                            None => Step::Fetch(StoreQuery::TeamMember { team_id: team.id, user_id }),
                            Some(true) => Step::Proceed(TeamJoin::Existing { team_id: team.id, user_id }),
                            Some(false) => Step::Proceed(TeamJoin::Join { team_id: team.id, user_id }),
                        }
                    },
                }
            },
        },
    }
}

/// Decides the next turn of an add-team-member request.
pub fn decide_add_team_member(
    session: &SessionView,
    team_id: &String,
    user_id: &String,
    facts: &AddTeamMemberFacts,
    options: &OrganizationOptions,
) -> (r: Step<TeamJoin>)
    ensures
        r == add_team_member_decision(*session, *team_id, *user_id, *facts, *options),
{
    let team = match &facts.team {
        None => return Step::Fetch(StoreQuery::TeamById { team_id: team_id.clone() }),
        Some(None) => return refuse_with(BAD_REQUEST, OrgErrorCode::TeamNotFound),
        Some(Some(team)) => team,
    };
    let actor = match &facts.actor {
        None => return Step::Fetch(
            StoreQuery::MemberByOrgUser {
                organization_id: team.organization_id.clone(),
                user_id: session.user_id.clone(),
            },
        ),
        Some(None) => return Step::Refuse(Refusal::MembershipRequired),
        Some(Some(actor)) => actor,
    };
    if !has_permission(actor.role.as_str(), options, OrganizationPermission::TeamUpdate) {
        return refuse_with(FORBIDDEN, OrgErrorCode::YouAreNotAllowedToCreateANewTeamMember);
    }
    match &facts.target {
        None => return Step::Fetch(
            StoreQuery::MemberByOrgUser {
                organization_id: team.organization_id.clone(),
                user_id: user_id.clone(),
            },
        ),
        Some(None) => return Step::Refuse(Refusal::MembershipRequired),
        Some(Some(_)) => {},
    }
    match options.teams.maximum_members_per_team {
        Some(max) => match facts.team_member_count {
            None => return Step::Fetch(StoreQuery::CountTeamMembers { team_id: team.id.clone() }),
            Some(n) => {
                if n as usize >= max {
                    return refuse_with(FORBIDDEN, OrgErrorCode::TeamMemberLimitReached);
                }
            },
        },
        None => {},
    }
    match facts.already_in_team {
        None => Step::Fetch(StoreQuery::TeamMember { team_id: team.id.clone(), user_id: user_id.clone() }),
        Some(true) => Step::Proceed(
            TeamJoin::Existing { team_id: team.id.clone(), user_id: user_id.clone() },
        ),
        Some(false) => Step::Proceed(
            TeamJoin::Join { team_id: team.id.clone(), user_id: user_id.clone() },
        ),
    }
}

/// What the store has answered so far for a read of a team's members.
#[derive(Debug)]
pub struct TeamMembersFacts {
    pub team: Option<Option<Team>>,
    pub member: Option<Option<Member>>,
}

/// The decision of a read of a team's members, with the team id taken from
/// the query.
pub open spec fn team_members_decision(session: SessionView, team_id: Option<String>, facts: TeamMembersFacts) -> Step<Team> {
    match team_id {
        None => refuse(BAD_REQUEST, OrgErrorCode::TeamNotFound),
        Some(id) => match facts.team {
            None => Step::Fetch(StoreQuery::TeamById { team_id: id }),
            Some(None) => refuse(BAD_REQUEST, OrgErrorCode::TeamNotFound),
            Some(Some(team)) => match facts.member {
                None => Step::Fetch(
                    StoreQuery::MemberByOrgUser {
                        organization_id: team.organization_id,
                        user_id: session.user_id,
                    },
                ),
                Some(None) => Step::Refuse(Refusal::MembershipRequired),
                Some(Some(_)) => Step::Proceed(team),
            },
        },
    }
}

/// Decides the next turn of a read of a team's members.
pub fn decide_team_members(session: &SessionView, team_id: &Option<String>, facts: &TeamMembersFacts) -> (r: Step<Team>)
    ensures
        r == team_members_decision(*session, *team_id, *facts),
{
    let id = match team_id {
        None => return refuse_with(BAD_REQUEST, OrgErrorCode::TeamNotFound),
        Some(id) => id,
    };
    let team = match &facts.team {
        None => return Step::Fetch(StoreQuery::TeamById { team_id: id.clone() }),
        Some(None) => return refuse_with(BAD_REQUEST, OrgErrorCode::TeamNotFound),
        Some(Some(team)) => team,
    };
    match &facts.member {
        None => Step::Fetch(
            StoreQuery::MemberByOrgUser {
                organization_id: team.organization_id.clone(),
                user_id: session.user_id.clone(),
            },
        ),
        Some(None) => Step::Refuse(Refusal::MembershipRequired),
        Some(Some(_)) => Step::Proceed(team.clone()),
    }
}

/// The decision of a read of the active organization's teams: the caller
/// must have an active organization and be a member of it; `Proceed`
/// carries the organization whose teams are listed.
pub open spec fn list_teams_decision(session: SessionView, member: Option<Option<Member>>) -> Step<String> {
    match session.active_organization_id {
        None => refuse(BAD_REQUEST, OrgErrorCode::NoActiveOrganization),
        Some(org) => match member {
            None => Step::Fetch(
                StoreQuery::MemberByOrgUser { organization_id: org, user_id: session.user_id },
            ),
            Some(None) => Step::Refuse(Refusal::MembershipRequired),
            Some(Some(_)) => Step::Proceed(org),
        },
    }
}

/// Decides the next turn of a read of the active organization's teams.
pub fn decide_list_teams(session: &SessionView, member: &Option<Option<Member>>) -> (r: Step<String>)
    ensures
        r == list_teams_decision(*session, *member),
{
    let org = match &session.active_organization_id {
        None => return refuse_with(BAD_REQUEST, OrgErrorCode::NoActiveOrganization),
        Some(org) => org.clone(),
    };
    match member {
        None => Step::Fetch(
            StoreQuery::MemberByOrgUser { organization_id: org, user_id: session.user_id.clone() },
        ),
        Some(None) => Step::Refuse(Refusal::MembershipRequired),
        Some(Some(_)) => Step::Proceed(org),
    }
}

/// The teams the caller belongs to: those of `teams` whose entry in
/// `joined` (the caller's team-membership lookups, in the same order) is
/// true.
pub fn teams_joined(teams: &Vec<Team>, joined: &Vec<bool>) -> (r: Vec<Team>)
    requires
        teams@.len() == joined@.len(),
    ensures
        r@ == kept_teams(teams@, joined@),
{
    let mut r: Vec<Team> = Vec::new();
    let mut i: usize = 0;
    assert(r@ =~= kept_teams(teams@.take(0), joined@.take(0)));
    while i < joined.len()
        invariant
            i <= joined.len() == teams.len(),
            r@ == kept_teams(teams@.take(i as int), joined@.take(i as int)),
        decreases joined.len() - i,
    {
        assert(teams@.take(i as int + 1).drop_last() =~= teams@.take(i as int));
        assert(joined@.take(i as int + 1).drop_last() =~= joined@.take(i as int));
        if joined[i] {
            r.push(teams[i].clone());
        }
        i += 1;
    }
    assert(teams@.take(teams.len() as int) =~= teams@);
    assert(joined@.take(joined@.len() as int) =~= joined@);
    r
}

/// The teams kept by the membership lookups, in order.
pub open spec fn kept_teams(teams: Seq<Team>, joined: Seq<bool>) -> Seq<Team>
    decreases teams.len(),
{
    if teams.len() == 0 || joined.len() == 0 {
        Seq::empty()
    } else {
        let init = kept_teams(teams.drop_last(), joined.drop_last());
        if joined.last() {
            init.push(teams.last())
        } else {
            init
        }
    }
}

/// A team is added only below the organization's team limit, and the last
/// team is removed only when that is allowed.
pub proof fn law_team_limits_hold(
    session: SessionView,
    trimmed_name: String,
    explicit_org: Option<String>,
    create: CreateTeamFacts,
    team_id: String,
    remove: RemoveTeamFacts,
    options: OrganizationOptions,
)
    ensures
        create_team_decision(session, trimmed_name, explicit_org, create, options) is Proceed
            ==> (options.teams.maximum_teams matches Some(max) ==> (create.team_count matches Some(n) && n < max)),
        remove_team_decision(session, team_id, explicit_org, remove, options) is Proceed
            ==> (options.teams.allow_removing_all_teams || (remove.team_count matches Some(n) && n >= 2)),
{
}

/// A user joins a team only when a member of its organization, allowed to
/// change teams, adds a member of the organization below the team's member
/// limit.
pub proof fn law_team_join_is_permitted(
    session: SessionView,
    team_id: String,
    user_id: String,
    facts: AddTeamMemberFacts,
    options: OrganizationOptions,
)
    requires
        add_team_member_decision(session, team_id, user_id, facts, options) matches Step::Proceed(TeamJoin::Join { .. }),
    ensures
        facts.actor matches Some(Some(a)) && roles_grant(a.role@, options.creator_role@, OrganizationPermission::TeamUpdate),
        facts.target matches Some(Some(_)),
        options.teams.maximum_members_per_team matches Some(max) ==> (facts.team_member_count matches Some(n) && (n as usize) < max),
        facts.already_in_team == Some(false),
{
}

/// An add-team-member request that goes ahead names the requested user
/// and the team the store returned, whether the user joins or is in the
/// team already; the user joins exactly when not in the team yet.
pub proof fn law_team_join_names_requested_user(
    session: SessionView,
    team_id: String,
    user_id: String,
    facts: AddTeamMemberFacts,
    options: OrganizationOptions,
)
    ensures
        add_team_member_decision(session, team_id, user_id, facts, options) matches Step::Proceed(j) ==> {
            &&& facts.team matches Some(Some(team))
            &&& match j {
                TeamJoin::Join { team_id: t, user_id: u } => t == team.id && u == user_id
                    && facts.already_in_team == Some(false),
                TeamJoin::Existing { team_id: t, user_id: u } => t == team.id && u == user_id
                    && facts.already_in_team == Some(true),
            }
        },
{
}

/// A new team has the requested (trimmed, non-empty) name and belongs to
/// the addressed organization, created by a member allowed to create teams.
pub proof fn law_created_team_is_as_requested(
    session: SessionView,
    trimmed_name: String,
    explicit_org: Option<String>,
    facts: CreateTeamFacts,
    options: OrganizationOptions,
)
    ensures
        create_team_decision(session, trimmed_name, explicit_org, facts, options) matches Step::Proceed(t) ==> {
            &&& t.name == trimmed_name
            &&& t.name@.len() > 0
            &&& resolved_organization_id(explicit_org, session.active_organization_id) == Some(t.organization_id)
            &&& facts.actor matches Some(Some(a))
            &&& roles_grant(a.role@, options.creator_role@, OrganizationPermission::TeamCreate)
        },
{
}

/// Removing, changing or making active a team acts on the team the store
/// returned: removal only within the addressed organization by a member
/// allowed to delete teams, a change only by a member allowed to update
/// teams, and making a team active only for one of its members.
pub proof fn law_team_actions_touch_found_team(
    session: SessionView,
    team_id: String,
    explicit_org: Option<String>,
    remove: RemoveTeamFacts,
    update: TeamActionFacts,
    active: SetActiveTeamFacts,
    options: OrganizationOptions,
    denied: OrgErrorCode,
)
    ensures
        remove_team_decision(session, team_id, explicit_org, remove, options) matches Step::Proceed(t) ==> {
            &&& remove.team == Some(Some(t))
            &&& (explicit_org matches Some(o) ==> o@ == t.organization_id@)
            &&& remove.actor matches Some(Some(a))
            &&& roles_grant(a.role@, options.creator_role@, OrganizationPermission::TeamDelete)
        },
        team_update_decision(session, team_id, update, options.creator_role@, denied) matches Step::Proceed(t) ==> {
            &&& update.team == Some(Some(t))
            &&& update.actor matches Some(Some(a))
            &&& roles_grant(a.role@, options.creator_role@, OrganizationPermission::TeamUpdate)
        },
        set_active_team_decision(session, team_id, active) matches Step::Proceed(t) ==> {
            &&& active.team == Some(Some(t))
            &&& active.member matches Some(Some(_))
            &&& active.in_team == Some(true)
        },
{
}

/// A member found in the team's organization is refused for lack of rights
/// exactly when their roles do not grant the request's right: creating
/// teams, deleting teams, updating teams (changes and additions of
/// members).
pub proof fn law_team_rights_decide_refusal(
    session: SessionView,
    trimmed_name: String,
    explicit_org: Option<String>,
    create: CreateTeamFacts,
    team_id: String,
    remove: RemoveTeamFacts,
    update: TeamActionFacts,
    user_id: String,
    join: AddTeamMemberFacts,
    options: OrganizationOptions,
    denied: OrgErrorCode,
)
    ensures
        trimmed_name@.len() > 0 && resolved_organization_id(explicit_org, session.active_organization_id) is Some
            ==> (create.actor matches Some(Some(a)) ==> (create_team_decision(
            session,
            trimmed_name,
            explicit_org,
            create,
            options,
        ) == refuse::<NewTeam>(FORBIDDEN, OrgErrorCode::YouAreNotAllowedToCreateTeamsInThisOrganization)
            <==> !roles_grant(a.role@, options.creator_role@, OrganizationPermission::TeamCreate))),
        remove.team matches Some(Some(t)) ==> ((explicit_org matches Some(o) ==> o@ == t.organization_id@) ==> (
        remove.actor matches Some(Some(a)) ==> (remove_team_decision(session, team_id, explicit_org, remove, options)
            == refuse::<Team>(FORBIDDEN, OrgErrorCode::YouAreNotAllowedToDeleteThisTeam) <==> !roles_grant(
            a.role@,
            options.creator_role@,
            OrganizationPermission::TeamDelete,
        )))),
        update.team is Some && update.team->0 is Some ==> (update.actor matches Some(Some(a)) ==> (
        team_update_decision(session, team_id, update, options.creator_role@, denied) == refuse::<Team>(
            FORBIDDEN,
            denied,
        ) <==> !roles_grant(a.role@, options.creator_role@, OrganizationPermission::TeamUpdate))),
        join.team is Some && join.team->0 is Some ==> (join.actor matches Some(Some(a)) ==> (add_team_member_decision(
            session,
            team_id,
            user_id,
            join,
            options,
        ) == refuse::<TeamJoin>(FORBIDDEN, OrgErrorCode::YouAreNotAllowedToCreateANewTeamMember) <==> !roles_grant(
            a.role@,
            options.creator_role@,
            OrganizationPermission::TeamUpdate,
        ))),
{
}

} // verus!
