//! The exchange between a request's decision and the store: a decision either
//! asks for one more store operation, refuses the request, or proceeds with
//! an action; the caller performs store operations, records their results,
//! and asks again.

use vstd::prelude::*;

use super::models::{InvitationStatus, OrgErrorCode, Refusal};
use crate::text::{chars_of, split_on, trim};

verus! {

/// A store operation a decision needs performed before it can go on.
#[derive(Debug, Clone)]
pub enum StoreQuery {
    MemberByOrgUser { organization_id: String, user_id: String },
    MemberById { member_id: String },
    MemberByEmail { organization_id: String, email: String },
    Members { organization_id: String },
    CountMembers { organization_id: String },
    UserById { user_id: String },
    OrganizationById { organization_id: String },
    OrganizationBySlug { slug: String },
    OrganizationsForUser { user_id: String },
    InvitationById { invitation_id: String },
    PendingInvitationByEmail { organization_id: String, email: String },
    PendingInvitations { organization_id: String },
    SetInvitationStatus { invitation_id: String, status: InvitationStatus },
    TeamById { team_id: String },
    TeamsForOrganization { organization_id: String },
    TeamMember { team_id: String, user_id: String },
    CountTeamMembers { team_id: String },
    RunBeforeUpdateHook,
}

/// One turn of a decision.
#[derive(Debug, Clone)]
pub enum Step<A> {
    Fetch(StoreQuery),
    Refuse(Refusal),
    Proceed(A),
}

/// A refusal with an error response.
pub open spec fn refuse<A>(status: u16, code: OrgErrorCode) -> Step<A> {
    Step::Refuse(Refusal::Respond { status, code })
}

/// Refuses with an error response.
pub fn refuse_with<A>(status: u16, code: OrgErrorCode) -> (r: Step<A>)
    ensures
        r == refuse::<A>(status, code),
{
    Step::Refuse(Refusal::Respond { status, code })
}

/// Whether the comma-separated roles `roles` hold the role `role` as one of
/// their trimmed entries.
pub open spec fn has_role_entry(roles: Seq<char>, role: Seq<char>) -> bool {
    exists|i: int| 0 <= i < split_on(roles, ',').len() && trim(#[trigger] split_on(roles, ',')[i]) == role
}

/// Whether `roles` hold `role` as one of their trimmed entries.
pub fn holds_role(roles: &str, role: &str) -> (r: bool)
    ensures
        r == has_role_entry(roles@, role@),
{
    let chars = chars_of(roles);
    let want = chars_of(role);
    let pieces = crate::text::split_chars(&chars, ',');
    let mut i: usize = 0;
    while i < pieces.len()
        invariant
            i <= pieces.len(),
            crate::text::views(pieces@) == split_on(roles@, ','),
            want@ == role@,
            forall|j: int| 0 <= j < i ==> trim(#[trigger] split_on(roles@, ',')[j]) != role@,
        decreases pieces.len() - i,
    {
        let t = crate::text::trim_chars(&pieces[i]);
        assert(pieces@[i as int]@ == split_on(roles@, ',')[i as int]);
        if crate::text::chars_eq(&t, &want) {
            return true;
        }
        i += 1;
    }
    false
}

/// The number of members whose roles hold `role`.
pub open spec fn role_holders(roles: Seq<Seq<char>>, role: Seq<char>) -> nat
    decreases roles.len(),
{
    if roles.len() == 0 {
        0
    } else {
        role_holders(roles.drop_last(), role) + if has_role_entry(roles.last(), role) {
            1nat
        } else {
            0nat
        }
    }
}

/// The roles of a list of members.
pub open spec fn member_roles(members: Seq<super::models::Member>) -> Seq<Seq<char>> {
    members.map_values(|m: super::models::Member| m.role@)
}

/// Counts the members whose roles hold `role`.
pub fn count_role_holders(members: &Vec<super::models::Member>, role: &str) -> (r: usize)
    ensures
        r == role_holders(member_roles(members@), role@),
{
    let mut count: usize = 0;
    let mut i: usize = 0;
    while i < members.len()
        invariant
            i <= members.len(),
            count == role_holders(member_roles(members@.take(i as int)), role@),
            count <= i,
        decreases members.len() - i,
    {
        assert(member_roles(members@.take(i as int + 1)).drop_last() =~= member_roles(
            members@.take(i as int),
        ));
        if holds_role(members[i].role.as_str(), role) {
            count += 1;
        }
        i += 1;
    }
    assert(members@.take(members.len() as int) =~= members@);
    count
}

} // verus!
