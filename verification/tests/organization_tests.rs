use openauth_plugins::organization::invitations::{
    decide_accept, decide_cancel, decide_get_invitation, decide_invite, decide_reject,
    user_invitations_email, AcceptFacts, CancelFacts, InviteAction, InviteFacts, InviteInput,
};
use openauth_plugins::organization::members::{
    decide_active_membership, decide_add_member, decide_leave, AddMemberFacts, AddMemberInput,
    LeaveFacts,
};
use openauth_plugins::organization::models::{
    resolve_organization_id, Invitation, InvitationStatus, Member, OrgErrorCode, Refusal,
    SessionView,
};
use openauth_plugins::organization::models::Team;
use openauth_plugins::organization::teams::{
    decide_create_team, decide_list_teams, teams_joined, trimmed, CreateTeamFacts,
};
use openauth_plugins::organization::options::{OrganizationOptions, TeamOptions};
use openauth_plugins::organization::org::{
    apply_organization_write, blank, decide_create_organization, decide_update_organization,
    default_team_name, CreateOrgFacts, CreateOrgInput, OrgUpdateData, OrganizationRecord,
    UpdateOrgFacts,
};
use openauth_plugins::organization::permissions::{
    has_permission, is_known_static_role, parse_roles, OrganizationPermission, OrganizationRole,
    RoleInput,
};
use openauth_plugins::organization::schema::schema_contributions;
use openauth_plugins::organization::steps::{Step, StoreQuery};
use openauth_plugins::schema::{FieldKind, SchemaContribution};
use openauth_plugins::organization::validation::{query_param, roles_to_look_up, valid_email};
use openauth_plugins::organization::UPSTREAM_PLUGIN_ID;

fn session(user: &str, active: Option<&str>) -> SessionView {
    SessionView {
        token: "tok".to_string(),
        user_id: user.to_string(),
        user_email: format!("{user}@example.com"),
        user_email_verified: true,
        active_organization_id: active.map(|s| s.to_string()),
    }
}

#[test]
fn plugin_id_is_organization() {
    assert_eq!(UPSTREAM_PLUGIN_ID, "organization");
}

#[test]
fn role_names() {
    assert_eq!(OrganizationRole::Owner.as_str(), "owner");
    assert_eq!(OrganizationRole::Admin.as_str(), "admin");
    assert_eq!(OrganizationRole::Member.as_str(), "member");
    assert_eq!(InvitationStatus::Pending.as_str(), "pending");
    assert_eq!(OrgErrorCode::MemberNotFound.as_str(), "MEMBER_NOT_FOUND");
}

#[test]
fn owner_may_do_everything() {
    let o = OrganizationOptions::default();
    for p in [
        OrganizationPermission::OrganizationUpdate,
        OrganizationPermission::OrganizationDelete,
        OrganizationPermission::MemberCreate,
        OrganizationPermission::InvitationCancel,
        OrganizationPermission::TeamDelete,
    ] {
        assert!(has_permission("owner", &o, p));
    }
}

#[test]
fn admin_may_not_delete_the_organization() {
    let o = OrganizationOptions::default();
    assert!(!has_permission("admin", &o, OrganizationPermission::OrganizationDelete));
    assert!(has_permission("admin", &o, OrganizationPermission::OrganizationUpdate));
    assert!(has_permission("admin", &o, OrganizationPermission::MemberDelete));
}

#[test]
fn member_may_do_nothing() {
    let o = OrganizationOptions::default();
    assert!(!has_permission("member", &o, OrganizationPermission::MemberCreate));
    assert!(!has_permission("", &o, OrganizationPermission::MemberCreate));
    assert!(!has_permission("viewer", &o, OrganizationPermission::OrganizationUpdate));
}

#[test]
fn joined_roles_grant_what_any_entry_grants() {
    let o = OrganizationOptions::default();
    assert!(has_permission("member, admin", &o, OrganizationPermission::OrganizationUpdate));
    assert!(!has_permission("member,admin", &o, OrganizationPermission::OrganizationDelete));
    assert!(has_permission("member, owner", &o, OrganizationPermission::OrganizationDelete));
}

#[test]
fn creator_role_is_honoured() {
    let o = OrganizationOptions::builder().creator_role("founder".to_string()).build();
    assert!(has_permission("founder", &o, OrganizationPermission::OrganizationDelete));
    assert!(is_known_static_role("founder", &o));
    assert!(is_known_static_role("member", &o));
    assert!(!is_known_static_role("viewer", &o));
}

#[test]
fn roles_are_normalized() {
    assert_eq!(parse_roles(" admin , ,member "), "admin,member");
    assert_eq!(parse_roles(""), "");
    assert_eq!(parse_roles("owner"), "owner");
    assert_eq!(RoleInput::One("a, b".to_string()).normalized(), "a,b");
    assert_eq!(
        RoleInput::Many(vec![" admin ".to_string(), "".to_string(), "member".to_string()]).normalized(),
        "admin,member"
    );
}

#[test]
fn normalizing_twice_changes_nothing() {
    let once = parse_roles("  owner ,, admin,");
    assert_eq!(parse_roles(&once), once);
}

#[test]
fn default_settings() {
    let o = OrganizationOptions::default();
    assert!(o.allow_user_to_create_organization);
    assert_eq!(o.organization_limit, None);
    assert_eq!(o.creator_role, "owner");
    assert_eq!(o.membership_limit, 100);
    assert_eq!(o.invitation_expires_in, 172800);
    assert_eq!(o.invitation_limit, 100);
    assert!(!o.teams.enabled);
    assert!(!o.dynamic_access_control.enabled);
}

#[test]
fn builder_sets_each_field() {
    let o = OrganizationOptions::builder()
        .allow_user_to_create_organization(false)
        .organization_limit(3)
        .membership_limit(7)
        .invitation_expires_in(60)
        .invitation_limit(2)
        .cancel_pending_invitations_on_re_invite(true)
        .require_email_verification_on_invitation(true)
        .disable_organization_deletion(true)
        .teams(TeamOptions { enabled: true, ..TeamOptions::default() })
        .build();
    assert!(!o.allow_user_to_create_organization);
    assert_eq!(o.organization_limit, Some(3));
    assert_eq!(o.membership_limit, 7);
    assert_eq!(o.invitation_expires_in, 60);
    assert_eq!(o.invitation_limit, 2);
    assert!(o.cancel_pending_invitations_on_re_invite);
    assert!(o.require_email_verification_on_invitation);
    assert!(o.disable_organization_deletion);
    assert!(o.teams.enabled);
}

#[test]
fn explicit_organization_wins() {
    assert_eq!(resolve_organization_id(Some("a".to_string()), Some("b")), Some("a".to_string()));
    assert_eq!(resolve_organization_id(None, Some("b")), Some("b".to_string()));
    assert_eq!(resolve_organization_id(None, None), None);
}

#[test]
fn blank_names() {
    assert!(blank("   \t"));
    assert!(blank(""));
    assert!(!blank(" a "));
    assert_eq!(default_team_name(), "Default");
}

#[test]
fn query_parameters() {
    assert_eq!(query_param(Some("a=1&b=2"), "b", false), Some("2".to_string()));
    assert_eq!(query_param(Some("a=1&b=2&b=3"), "b", false), Some("2".to_string()));
    assert_eq!(query_param(Some("flag&b=2"), "flag", false), Some(String::new()));
    assert_eq!(query_param(Some("flag&b=2"), "flag", true), None);
    assert_eq!(query_param(Some("x=a=b"), "x", true), Some("a=b".to_string()));
    assert_eq!(query_param(Some("a=1"), "c", false), None);
    assert_eq!(query_param(None, "a", false), None);
    assert_eq!(query_param(Some("teamId=t%201"), "teamId", true), Some("t%201".to_string()));
}

#[test]
fn member_address_shape() {
    assert!(valid_email("user@example.com"));
    assert!(!valid_email(" user@example.com"));
    assert!(!valid_email("us er@example.com"));
    assert!(!valid_email("user@example"));
    assert!(!valid_email("@example.com"));
    assert!(!valid_email("user@"));
    assert!(!valid_email("user@.example.com"));
    assert!(!valid_email("user@example.com."));
    assert!(!valid_email("userexample.com"));
}

#[test]
fn roles_needing_a_lookup() {
    let mut o = OrganizationOptions::default();
    assert_eq!(roles_to_look_up("owner, admin", &o), Some(Vec::new()));
    assert_eq!(roles_to_look_up("owner, viewer", &o), None);
    o.dynamic_access_control.enabled = true;
    assert_eq!(
        roles_to_look_up("owner, viewer, ,editor", &o),
        Some(vec!["viewer".to_string(), "editor".to_string()])
    );
}

#[test]
fn create_organization_needs_a_name_and_slug() {
    let o = OrganizationOptions::default();
    let input = CreateOrgInput {
        name: "  ".to_string(),
        slug: "acme".to_string(),
        user_id: None,
        keep_current_active_organization: false,
    };
    let facts = CreateOrgFacts { user_id: None, organization_count: None, slug_taken: None };
    match decide_create_organization(&Some(session("u1", None)), &input, &facts, &o) {
        Step::Refuse(Refusal::Respond { status, code }) => {
            assert_eq!(status, 400);
            assert_eq!(code, OrgErrorCode::InvalidRequestBody);
        },
        other => panic!("{:?}", other),
    }
}

#[test]
fn create_organization_steps() {
    let o = OrganizationOptions::default();
    let input = CreateOrgInput {
        name: "Acme".to_string(),
        slug: "acme".to_string(),
        user_id: None,
        keep_current_active_organization: false,
    };
    let mut facts = CreateOrgFacts { user_id: None, organization_count: None, slug_taken: None };
    match decide_create_organization(&None, &input, &facts, &o) {
        Step::Refuse(Refusal::Respond { status, code }) => {
            assert_eq!(status, 401);
            assert_eq!(code, OrgErrorCode::Unauthorized);
        },
        other => panic!("{:?}", other),
    }
    let s = Some(session("u1", None));
    match decide_create_organization(&s, &input, &facts, &o) {
        Step::Fetch(StoreQuery::OrganizationBySlug { slug }) => assert_eq!(slug, "acme"),
        other => panic!("{:?}", other),
    }
    facts.slug_taken = Some(true);
    match decide_create_organization(&s, &input, &facts, &o) {
        Step::Refuse(Refusal::Respond { code, .. }) => {
            assert_eq!(code, OrgErrorCode::OrganizationAlreadyExists)
        },
        other => panic!("{:?}", other),
    }
    facts.slug_taken = Some(false);
    match decide_create_organization(&s, &input, &facts, &o) {
        Step::Proceed(n) => {
            assert_eq!(n.name, "Acme");
            assert_eq!(n.slug, "acme");
            assert_eq!(n.member_role, "owner");
            assert_eq!(n.creator_id, "u1");
            assert!(n.set_active);
            assert!(!n.default_team);
        },
        other => panic!("{:?}", other),
    }
    let limited = OrganizationOptions::builder().organization_limit(1).build();
    let facts = CreateOrgFacts { user_id: None, organization_count: Some(1), slug_taken: None };
    match decide_create_organization(&s, &input, &facts, &limited) {
        Step::Refuse(Refusal::Respond { code, .. }) => {
            assert_eq!(code, OrgErrorCode::YouHaveReachedTheMaximumNumberOfOrganizations)
        },
        other => panic!("{:?}", other),
    }
}

#[test]
fn add_member_starts_with_the_target_organization() {
    let o = OrganizationOptions::default();
    let input = AddMemberInput::new("u2".to_string(), &RoleInput::One(" member ".to_string()), None);
    assert_eq!(input.role, "member");
    let facts = AddMemberFacts {
        actor: None,
        user_id: None,
        already_member: None,
        member_count: None,
        organization_exists: None,
    };
    match decide_add_member(&Some(session("u1", None)), &input, &facts, &o) {
        Step::Refuse(Refusal::Respond { code, .. }) => {
            assert_eq!(code, OrgErrorCode::NoActiveOrganization)
        },
        other => panic!("{:?}", other),
    }
}

#[test]
fn organization_schema_tables() {
    let c = schema_contributions();
    assert_eq!(c.len(), 4);
    match &c[0] {
        SchemaContribution::Table(t) => {
            assert_eq!(t.model, "organization");
            assert_eq!(t.name, "organizations");
            assert_eq!(t.order, Some(20));
            let names: Vec<&str> = t.fields.iter().map(|f| f.name.as_str()).collect();
            assert_eq!(names, vec!["id", "name", "slug", "logo", "metadata", "created_at", "updated_at"]);
            assert!(t.fields[2].unique && t.fields[2].indexed);
            assert_eq!(t.fields[4].kind, FieldKind::Json);
        },
        other => panic!("{:?}", other),
    }
    match &c[2] {
        SchemaContribution::Table(t) => {
            assert_eq!(t.name, "invitations");
            let inviter = &t.fields[7];
            assert_eq!(inviter.name, "inviter_id");
            let r = inviter.references.as_ref().unwrap();
            assert_eq!((r.table.as_str(), r.column.as_str()), ("users", "id"));
        },
        other => panic!("{:?}", other),
    }
    match &c[3] {
        SchemaContribution::Field { model, field } => {
            assert_eq!(model, "session");
            assert_eq!(field.name, "active_organization_id");
            assert!(field.optional);
        },
        other => panic!("{:?}", other),
    }
}

fn member(user: &str, org: &str, role: &str) -> Member {
    Member {
        id: format!("m-{user}"),
        organization_id: org.to_string(),
        user_id: user.to_string(),
        role: role.to_string(),
    }
}

fn invitation(email: &str, status: InvitationStatus, expires_at: i64) -> Invitation {
    Invitation {
        id: "inv1".to_string(),
        organization_id: "org1".to_string(),
        email: email.to_string(),
        role: "member".to_string(),
        status,
        expires_at,
        inviter_id: "u1".to_string(),
        team_id: Some("t1,t2".to_string()),
    }
}

fn refused_code<A: std::fmt::Debug>(step: Step<A>) -> OrgErrorCode {
    match step {
        Step::Refuse(Refusal::Respond { code, .. }) => code,
        other => panic!("{:?}", other),
    }
}

#[test]
fn invitation_request_walks_to_creation() {
    let o = OrganizationOptions::default();
    let s = session("u1", Some("org1"));
    let input = InviteInput::new("  New@Example.COM ", &RoleInput::One("member".to_string()), None, None, false);
    assert_eq!(input.email, "new@example.com");
    let mut facts = InviteFacts {
        actor: None,
        already_member: None,
        pending: None,
        pending_canceled: false,
        pending_count: None,
        organization_exists: None,
    };
    match decide_invite(&s, &input, &facts, &o, 1000) {
        Step::Fetch(StoreQuery::MemberByOrgUser { organization_id, user_id }) => {
            assert_eq!(organization_id, "org1");
            assert_eq!(user_id, "u1");
        },
        other => panic!("{:?}", other),
    }
    facts.actor = Some(Some(member("u1", "org1", "member")));
    assert_eq!(
        refused_code(decide_invite(&s, &input, &facts, &o, 1000)),
        OrgErrorCode::YouAreNotAllowedToInviteUsersToThisOrganization
    );
    facts.actor = Some(Some(member("u1", "org1", "admin")));
    let owner_input = InviteInput::new("new@example.com", &RoleInput::One("owner".to_string()), None, None, false);
    assert_eq!(
        refused_code(decide_invite(&s, &owner_input, &facts, &o, 1000)),
        OrgErrorCode::YouAreNotAllowedToInviteUserWithThisRole
    );
    let unknown = InviteInput::new("new@example.com", &RoleInput::One("viewer".to_string()), None, None, false);
    match decide_invite(&s, &unknown, &facts, &o, 1000) {
        Step::Refuse(Refusal::UnknownRole { role }) => assert_eq!(role, "viewer"),
        other => panic!("{:?}", other),
    }
    facts.already_member = Some(false);
    facts.pending = Some(None);
    facts.pending_count = Some(0);
    facts.organization_exists = Some(true);
    match decide_invite(&s, &input, &facts, &o, 1000) {
        Step::Proceed(InviteAction::Create(n)) => {
            assert_eq!(n.organization_id, "org1");
            assert_eq!(n.email, "new@example.com");
            assert_eq!(n.role, "member");
            assert_eq!(n.inviter_id, "u1");
            assert_eq!(n.expires_at, 1000 + 172800);
            assert_eq!(n.status, InvitationStatus::Pending);
        },
        other => panic!("{:?}", other),
    }
    facts.pending_count = Some(100);
    assert_eq!(
        refused_code(decide_invite(&s, &input, &facts, &o, 1000)),
        OrgErrorCode::InvitationLimitReached
    );
}

#[test]
fn pending_invitation_is_extended_or_refused() {
    let o = OrganizationOptions::default();
    let s = session("u1", Some("org1"));
    let facts = InviteFacts {
        actor: Some(Some(member("u1", "org1", "owner"))),
        already_member: Some(false),
        pending: Some(Some(invitation("new@example.com", InvitationStatus::Pending, 5000))),
        pending_canceled: false,
        pending_count: None,
        organization_exists: None,
    };
    let resend = InviteInput::new("new@example.com", &RoleInput::One("member".to_string()), None, None, true);
    match decide_invite(&s, &resend, &facts, &o, 10) {
        Step::Proceed(InviteAction::Extend { invitation_id, expires_at }) => {
            assert_eq!(invitation_id, "inv1");
            assert_eq!(expires_at, 10 + 172800);
        },
        other => panic!("{:?}", other),
    }
    let again = InviteInput::new("new@example.com", &RoleInput::One("member".to_string()), None, None, false);
    assert_eq!(
        refused_code(decide_invite(&s, &again, &facts, &o, 10)),
        OrgErrorCode::UserIsAlreadyInvitedToThisOrganization
    );
    let cancelling = OrganizationOptions::builder().cancel_pending_invitations_on_re_invite(true).build();
    match decide_invite(&s, &again, &facts, &cancelling, 10) {
        Step::Fetch(StoreQuery::SetInvitationStatus { invitation_id, status }) => {
            assert_eq!(invitation_id, "inv1");
            assert_eq!(status, InvitationStatus::Canceled);
        },
        other => panic!("{:?}", other),
    }
    let bad = InviteInput::new("nobody", &RoleInput::One("member".to_string()), None, None, false);
    assert_eq!(refused_code(decide_invite(&s, &bad, &facts, &o, 10)), OrgErrorCode::InvalidEmail);
}

#[test]
fn acceptance_checks_invitation_and_recipient() {
    let o = OrganizationOptions::default();
    let s = session("u2", None);
    let mut facts = AcceptFacts {
        invitation: Some(Some(invitation("U2@Example.com", InvitationStatus::Pending, 100))),
        member_count: None,
        already_member: None,
    };
    assert_eq!(
        refused_code(decide_accept(&s, &"inv1".to_string(), &facts, &o, 101)),
        OrgErrorCode::InvitationNotFound
    );
    let stranger = session("u3", None);
    assert_eq!(
        refused_code(decide_accept(&stranger, &"inv1".to_string(), &facts, &o, 50)),
        OrgErrorCode::YouAreNotTheRecipientOfTheInvitation
    );
    facts.member_count = Some(100);
    assert_eq!(
        refused_code(decide_accept(&s, &"inv1".to_string(), &facts, &o, 50)),
        OrgErrorCode::OrganizationMembershipLimitReached
    );
    facts.member_count = Some(3);
    facts.already_member = Some(false);
    match decide_accept(&s, &"inv1".to_string(), &facts, &o, 50) {
        Step::Proceed(a) => {
            assert_eq!(a.invitation.id, "inv1");
            assert!(!a.join_teams);
            assert_eq!(a.new_status, InvitationStatus::Accepted);
            assert_eq!(a.member_organization_id, "org1");
            assert_eq!(a.member_user_id, "u2");
            assert_eq!(a.member_role, "member");
            assert_eq!(a.active_organization_id, "org1");
        },
        other => panic!("{:?}", other),
    }
    facts.invitation = Some(Some(invitation("u2@example.com", InvitationStatus::Accepted, 100)));
    assert_eq!(
        refused_code(decide_accept(&s, &"inv1".to_string(), &facts, &o, 50)),
        OrgErrorCode::InvitationNotFound
    );
    facts.invitation = Some(Some(invitation("u2@example.com", InvitationStatus::Canceled, 100)));
    assert_eq!(
        refused_code(decide_accept(&s, &"inv1".to_string(), &facts, &o, 50)),
        OrgErrorCode::InvitationNotFound
    );
}

#[test]
fn rejection_cancellation_and_lookup() {
    let o = OrganizationOptions::default();
    let s = session("u2", None);
    let inv = Some(Some(invitation("u2@example.com", InvitationStatus::Pending, 100)));
    match decide_reject(&s, &"inv1".to_string(), &inv, &o) {
        Step::Proceed(i) => assert_eq!(i.id, "inv1"),
        other => panic!("{:?}", other),
    }
    let strict = OrganizationOptions::builder().require_email_verification_on_invitation(true).build();
    let mut unverified = session("u2", None);
    unverified.user_email_verified = false;
    assert_eq!(
        refused_code(decide_reject(&unverified, &"inv1".to_string(), &inv, &strict)),
        OrgErrorCode::EmailVerificationRequiredBeforeAcceptingOrRejectingInvitation
    );
    let facts = CancelFacts { invitation: inv, actor: Some(Some(member("u9", "org1", "member"))) };
    assert_eq!(
        refused_code(decide_cancel(&session("u9", None), &"inv1".to_string(), &facts, &o)),
        OrgErrorCode::YouAreNotAllowedToCancelThisInvitation
    );
    assert_eq!(refused_code(decide_get_invitation(&None, &None)), OrgErrorCode::InvitationNotFound);
    match decide_get_invitation(&Some("inv1".to_string()), &None) {
        Step::Fetch(StoreQuery::InvitationById { invitation_id }) => assert_eq!(invitation_id, "inv1"),
        other => panic!("{:?}", other),
    }
    assert_eq!(user_invitations_email(&session("Ann", None)), "ann@example.com");
}

#[test]
fn last_owner_cannot_leave() {
    let o = OrganizationOptions::default();
    let s = session("u1", Some("org1"));
    let facts = LeaveFacts {
        member: Some(Some(member("u1", "org1", "owner"))),
        members: Some(vec![member("u1", "org1", "owner"), member("u2", "org1", "admin")]),
        organization_exists: Some(true),
    };
    assert_eq!(
        refused_code(decide_leave(&s, &facts, &o)),
        OrgErrorCode::YouCannotLeaveTheOrganizationAsTheOnlyOwner
    );
    let facts = LeaveFacts {
        member: Some(Some(member("u1", "org1", "owner"))),
        members: Some(vec![member("u1", "org1", "owner"), member("u2", "org1", "admin, owner")]),
        organization_exists: Some(true),
    };
    match decide_leave(&s, &facts, &o) {
        Step::Proceed(d) => {
            assert_eq!(d.member.user_id, "u1");
            assert_eq!(d.organization_id, "org1");
        },
        other => panic!("{:?}", other),
    }
}

#[test]
fn own_membership_reads() {
    assert_eq!(
        refused_code(decide_active_membership(&session("u1", None), &None)),
        OrgErrorCode::NoActiveOrganization
    );
    assert_eq!(
        refused_code(decide_active_membership(&session("u1", Some("org1")), &Some(None))),
        OrgErrorCode::MemberNotFound
    );
    match decide_active_membership(&session("u1", Some("org1")), &Some(Some(member("u1", "org1", "admin")))) {
        Step::Proceed(m) => assert_eq!(m.role, "admin"),
        other => panic!("{:?}", other),
    }
}

#[test]
fn team_creation_respects_the_limit() {
    let o = OrganizationOptions::builder()
        .teams(TeamOptions { enabled: true, maximum_teams: Some(2), ..TeamOptions::default() })
        .build();
    let s = session("u1", Some("org1"));
    assert_eq!(trimmed("  Core  "), "Core");
    let facts = CreateTeamFacts { actor: Some(Some(member("u1", "org1", "admin"))), team_count: Some(2) };
    assert_eq!(
        refused_code(decide_create_team(&s, &trimmed(" Core "), &None, &facts, &o)),
        OrgErrorCode::YouHaveReachedTheMaximumNumberOfTeams
    );
    let facts = CreateTeamFacts { actor: Some(Some(member("u1", "org1", "admin"))), team_count: Some(1) };
    match decide_create_team(&s, &trimmed(" Core "), &None, &facts, &o) {
        Step::Proceed(t) => {
            assert_eq!(t.name, "Core");
            assert_eq!(t.organization_id, "org1");
        },
        other => panic!("{:?}", other),
    }
    assert_eq!(
        refused_code(decide_create_team(&s, &trimmed("   "), &None, &facts, &o)),
        OrgErrorCode::InvalidRequestBody
    );
}

#[test]
fn listing_teams_needs_membership() {
    assert_eq!(
        refused_code(decide_list_teams(&session("u1", None), &None)),
        OrgErrorCode::NoActiveOrganization
    );
    match decide_list_teams(&session("u1", Some("org1")), &Some(None)) {
        Step::Refuse(Refusal::MembershipRequired) => {},
        other => panic!("{:?}", other),
    }
    match decide_list_teams(&session("u1", Some("org1")), &Some(Some(member("u1", "org1", "member")))) {
        Step::Proceed(org) => assert_eq!(org, "org1"),
        other => panic!("{:?}", other),
    }
}

#[test]
fn joined_teams_are_kept_in_order() {
    let team = |id: &str| Team { id: id.to_string(), name: id.to_uppercase(), organization_id: "org1".to_string() };
    let teams = vec![team("a"), team("b"), team("c")];
    let kept = teams_joined(&teams, &vec![true, false, true]);
    let ids: Vec<&str> = kept.iter().map(|t| t.id.as_str()).collect();
    assert_eq!(ids, vec!["a", "c"]);
    assert!(teams_joined(&teams, &vec![false, false, false]).is_empty());
}

#[test]
fn update_writes_given_fields() {
    let o = OrganizationOptions::default();
    let s = Some(session("u1", Some("org1")));
    let data = || OrgUpdateData {
        name: Some("New".to_string()),
        slug: None,
        logo: None,
        metadata: Some("{}".to_string()),
    };
    let facts = UpdateOrgFacts {
        member: Some(Some(member("u1", "org1", "admin"))),
        organization_exists: Some(true),
        data: Some(data()),
        slug_owner: None,
    };
    let write = match decide_update_organization(&s, &None, &facts, &o) {
        Step::Proceed(w) => w,
        other => panic!("{:?}", other),
    };
    assert_eq!(write.organization_id, "org1");
    assert_eq!(write.name, Some("New".to_string()));
    let before = OrganizationRecord {
        id: "org1".to_string(),
        name: "Old".to_string(),
        slug: "old".to_string(),
        logo: Some("logo.png".to_string()),
        metadata: None,
    };
    let after = apply_organization_write(before, &write);
    assert_eq!(after.id, "org1");
    assert_eq!(after.name, "New");
    assert_eq!(after.slug, "old");
    assert_eq!(after.logo, None);
    assert_eq!(after.metadata, Some("{}".to_string()));
    let taken = UpdateOrgFacts {
        member: Some(Some(member("u1", "org1", "admin"))),
        organization_exists: Some(true),
        data: Some(OrgUpdateData { slug: Some("acme".to_string()), ..data() }),
        slug_owner: Some(Some("org2".to_string())),
    };
    assert_eq!(
        refused_code(decide_update_organization(&s, &None, &taken, &o)),
        OrgErrorCode::OrganizationSlugAlreadyTaken
    );
}
