//! Roles of organization members and what each role may do.

use vstd::prelude::*;

use super::options::OrganizationOptions;
pub use crate::text::string_views;
use crate::text::{
    chars_eq, chars_of, join_chars, join_with, lemma_split_on_concat, lemma_split_on_join,
    lemma_split_on_pieces_lack_sep, lemma_trim_idempotent, lemma_trim_lacks, split_chars,
    split_on, string_of, trim, trim_chars, trim_end, trim_start, views,
};

verus! {

/// The built-in roles.
#[derive(Debug, Clone, Copy, PartialEq, Eq, Structural)]
pub enum OrganizationRole {
    Owner,
    Admin,
    Member,
}

/// The name of each built-in role.
pub open spec fn role_name(role: OrganizationRole) -> Seq<char> {
    match role {
        OrganizationRole::Owner => "owner"@,
        OrganizationRole::Admin => "admin"@,
        OrganizationRole::Member => "member"@,
    }
}

impl OrganizationRole {
    /// The name of the role.
    pub fn as_str(self) -> (s: &'static str)
        ensures
            s@ == role_name(self),
    {
        match self {
            OrganizationRole::Owner => "owner",
            OrganizationRole::Admin => "admin",
            OrganizationRole::Member => "member",
        }
    }
}

/// Actions that a member's role may allow.
#[derive(Debug, Clone, Copy, PartialEq, Eq, Structural)]
pub enum OrganizationPermission {
    OrganizationUpdate,
    OrganizationDelete,
    MemberCreate,
    MemberUpdate,
    MemberDelete,
    InvitationCreate,
    InvitationCancel,
    TeamCreate,
    TeamUpdate,
    TeamDelete,
}

/// Whether the single role `role` allows `permission`: the creator role and
/// `owner` allow everything, `admin` everything but deleting the
/// organization, any other role nothing.
pub open spec fn role_grants(
    role: Seq<char>,
    creator_role: Seq<char>,
    permission: OrganizationPermission,
) -> bool {
    ||| role == creator_role
    ||| role == "owner"@
    ||| (role == "admin"@ && permission != OrganizationPermission::OrganizationDelete)
}

/// Whether a comma-separated role list allows `permission`: some entry,
/// trimmed, allows it.
pub open spec fn roles_grant(
    roles: Seq<char>,
    creator_role: Seq<char>,
    permission: OrganizationPermission,
) -> bool {
    exists|i: int|
        0 <= i < split_on(roles, ',').len() && role_grants(
            trim(#[trigger] split_on(roles, ',')[i]),
            creator_role,
            permission,
        )
}

/// The normal form of a role list: entries trimmed, empty entries dropped,
/// joined with commas.
pub open spec fn normalized_roles(roles: Seq<char>) -> Seq<char> {
    join_with(role_entries(roles), ',')
}

/// The trimmed, non-empty entries of a comma-separated role list.
pub open spec fn role_entries(roles: Seq<char>) -> Seq<Seq<char>> {
    split_on(roles, ',').map_values(|p: Seq<char>| trim(p)).filter(|p: Seq<char>| p.len() > 0)
}

/// Whether `role` is the creator role or one of the built-in roles.
pub open spec fn is_static_role(role: Seq<char>, creator_role: Seq<char>) -> bool {
    ||| role == creator_role
    ||| role == "owner"@
    ||| role == "admin"@
    ||| role == "member"@
}

fn grants(role: &Vec<char>, creator: &Vec<char>, permission: OrganizationPermission) -> (r: bool)
    ensures
        r == role_grants(role@, creator@, permission),
{
    if chars_eq(role, creator) {
        return true;
    }
    let owner = chars_of("owner");
    if chars_eq(role, &owner) {
        return true;
    }
    let admin = chars_of("admin");
    if chars_eq(role, &admin) {
        return match permission {
            OrganizationPermission::OrganizationDelete => false,
            _ => true,
        };
    }
    false
}

/// Whether the comma-separated roles `role` allow `permission` under the
/// given settings.
pub fn has_permission(
    role: &str,
    options: &OrganizationOptions,
    permission: OrganizationPermission,
) -> (r: bool)
    ensures
        r == roles_grant(role@, options.creator_role@, permission),
{
    let chars = chars_of(role);
    let creator = chars_of(options.creator_role.as_str());
    let pieces = split_chars(&chars, ',');
    let mut i: usize = 0;
    while i < pieces.len()
        invariant
            i <= pieces.len(),
            views(pieces@) == split_on(role@, ','),
            creator@ == options.creator_role@,
            forall|j: int|
                0 <= j < i ==> !role_grants(
                    trim(#[trigger] split_on(role@, ',')[j]),
                    creator@,
                    permission,
                ),
        decreases pieces.len() - i,
    {
        let t = trim_chars(&pieces[i]);
        assert(pieces@[i as int]@ == split_on(role@, ',')[i as int]);
        if grants(&t, &creator, permission) {
            return true;
        }
        i += 1;
    }
    false
}

proof fn lemma_filter_push(s: Seq<Seq<char>>, x: Seq<char>)
    ensures
        s.push(x).filter(|p: Seq<char>| p.len() > 0) == (if x.len() > 0 {
            s.filter(|p: Seq<char>| p.len() > 0).push(x)
        } else {
            s.filter(|p: Seq<char>| p.len() > 0)
        }),
{
    reveal(Seq::filter);
    assert(s.push(x).drop_last() =~= s);
}

fn normalize_role_chars(chars: &Vec<char>) -> (r: Vec<char>)
    ensures
        r@ == normalized_roles(chars@),
{
    let pieces = split_chars(chars, ',');
    let mut kept: Vec<Vec<char>> = Vec::new();
    let mut i: usize = 0;
    while i < pieces.len()
        invariant
            i <= pieces.len(),
            views(pieces@) == split_on(chars@, ','),
            views(kept@) == split_on(chars@, ',').take(i as int).map_values(
                |p: Seq<char>| trim(p),
            ).filter(|p: Seq<char>| p.len() > 0),
        decreases pieces.len() - i,
    {
        let t = trim_chars(&pieces[i]);
        let ghost all = split_on(chars@, ',');
        let ghost before = all.take(i as int).map_values(|p: Seq<char>| trim(p));
        assert(all.take(i as int + 1).map_values(|p: Seq<char>| trim(p)) =~= before.push(t@));
        proof {
            lemma_filter_push(before, t@);
        }
        if t.len() > 0 {
            let ghost old_kept = kept@;
            kept.push(t);
            assert(views(kept@) =~= views(old_kept).push(t@));
        }
        i += 1;
    }
    assert(split_on(chars@, ',').take(pieces.len() as int) =~= split_on(chars@, ','));
    join_chars(&kept, ',')
}

/// The normal form of a comma-separated role list.
pub fn parse_roles(role: &str) -> (r: String)
    ensures
        r@ == normalized_roles(role@),
{
    let chars = chars_of(role);
    let v = normalize_role_chars(&chars);
    string_of(&v)
}

/// Whether `role` is the creator role or one of the built-in roles.
pub fn is_known_static_role(role: &str, options: &OrganizationOptions) -> (r: bool)
    ensures
        r == is_static_role(role@, options.creator_role@),
{
    let r = chars_of(role);
    let creator = chars_of(options.creator_role.as_str());
    let owner = chars_of("owner");
    let admin = chars_of("admin");
    let member = chars_of("member");
    chars_eq(&r, &creator) || chars_eq(&r, &owner) || chars_eq(&r, &admin) || chars_eq(
        &r,
        &member,
    )
}

/// A role given either as one comma-separated string or as a list.
#[derive(Debug, Clone)]
pub enum RoleInput {
    One(String),
    Many(Vec<String>),
}

/// The comma-separated form of a role input.
pub open spec fn role_input_text(input: RoleInput) -> Seq<char> {
    match input {
        RoleInput::One(role) => role@,
        RoleInput::Many(roles) => join_with(string_views(roles@), ','),
    }
}

impl RoleInput {
    /// The normal form of the roles given.
    pub fn normalized(&self) -> (r: String)
        ensures
            r@ == normalized_roles(role_input_text(*self)),
    {
        match self {
            RoleInput::One(role) => parse_roles(role.as_str()),
            RoleInput::Many(roles) => {
                let mut parts: Vec<Vec<char>> = Vec::new();
                let mut i: usize = 0;
                while i < roles.len()
                    invariant
                        i <= roles.len(),
                        views(parts@) == string_views(roles@.take(i as int)),
                    decreases roles.len() - i,
                {
                    let p = chars_of(roles[i].as_str());
                    let ghost old_parts = parts@;
                    parts.push(p);
                    assert(views(parts@) =~= views(old_parts).push(p@));
                    assert(string_views(roles@.take(i as int + 1)) =~= string_views(
                        roles@.take(i as int),
                    ).push(roles@[i as int]@));
                    i += 1;
                }
                assert(roles@.take(roles.len() as int) =~= roles@);
                let joined = join_chars(&parts, ',');
                let v = normalize_role_chars(&joined);
                string_of(&v)
            },
        }
    }
}

/// The roles `owner` grant every permission.
pub proof fn law_owner_may_do_everything(creator_role: Seq<char>, permission: OrganizationPermission)
    ensures
        roles_grant("owner"@, creator_role, permission),
{
    reveal_strlit("owner");
    lemma_single_entry("owner"@);
    assert(trim(split_on("owner"@, ',')[0]) == "owner"@);
}

/// `admin` may do everything but delete the organization, unless it is the
/// creator role.
pub proof fn law_admin_may_not_delete(creator_role: Seq<char>, permission: OrganizationPermission)
    ensures
        roles_grant("admin"@, creator_role, permission) <==> (permission
            != OrganizationPermission::OrganizationDelete || creator_role == "admin"@),
{
    reveal_strlit("admin");
    reveal_strlit("owner");
    lemma_single_entry("admin"@);
    assert(trim(split_on("admin"@, ',')[0]) == "admin"@);
    assert("admin"@ != "owner"@);
}

/// `member` may do nothing, unless it is the creator role.
pub proof fn law_member_may_do_nothing(creator_role: Seq<char>, permission: OrganizationPermission)
    ensures
        roles_grant("member"@, creator_role, permission) <==> creator_role == "member"@,
{
    reveal_strlit("member");
    reveal_strlit("owner");
    reveal_strlit("admin");
    lemma_single_entry("member"@);
    assert(trim(split_on("member"@, ',')[0]) == "member"@);
    assert("member"@ != "owner"@);
    assert("member"@ != "admin"@);
}

/// A role list without commas is a single entry, and a word without white
/// space at its ends trims to itself.
proof fn lemma_single_entry(s: Seq<char>)
    requires
        forall|i: int| 0 <= i < s.len() ==> s[i] != ',' && !crate::text::is_white_space(s[i]),
    ensures
        split_on(s, ',') == seq![s],
        trim(s) == s,
    decreases s.len(),
{
    if s.len() > 0 {
        lemma_single_entry(s.drop_last());
        assert(s.drop_last().push(s.last()) =~= s);
        assert(seq![s.drop_last()].update(0, s.drop_last().push(s.last())) =~= seq![s]);
    } else {
        assert(s =~= Seq::<char>::empty());
    }
}

/// Holding the roles `a` and `b` together allows exactly what either allows.
pub proof fn law_permissions_of_joined_roles(
    a: Seq<char>,
    b: Seq<char>,
    creator_role: Seq<char>,
    permission: OrganizationPermission,
)
    ensures
        roles_grant(a + ","@ + b, creator_role, permission) <==> (roles_grant(
            a,
            creator_role,
            permission,
        ) || roles_grant(b, creator_role, permission)),
{
    reveal_strlit(",");
    assert(","@ == seq![',']);
    lemma_split_on_concat(a, b, ',');
    let pa = split_on(a, ',');
    let pb = split_on(b, ',');
    let pab = split_on(a + ","@ + b, ',');
    assert(pab == pa + pb);
    if roles_grant(a + ","@ + b, creator_role, permission) {
        let i = choose|i: int|
            0 <= i < pab.len() && role_grants(trim(#[trigger] pab[i]), creator_role, permission);
        if i < pa.len() {
            assert(pab[i] == pa[i]);
        } else {
            assert(pab[i] == pb[i - pa.len()]);
        }
    }
    if roles_grant(a, creator_role, permission) {
        let i = choose|i: int|
            0 <= i < pa.len() && role_grants(trim(#[trigger] pa[i]), creator_role, permission);
        assert(pab[i] == pa[i]);
    }
    if roles_grant(b, creator_role, permission) {
        let i = choose|i: int|
            0 <= i < pb.len() && role_grants(trim(#[trigger] pb[i]), creator_role, permission);
        assert(pab[i + pa.len()] == pb[i]);
    }
}

/// The trimmed, non-empty entries of `text` as strings.
pub fn comma_entries(text: &str) -> (r: Vec<String>)
    ensures
        string_views(r@) == role_entries(text@),
{
    let chars = chars_of(text);
    let pieces = split_chars(&chars, ',');
    let mut kept: Vec<String> = Vec::new();
    let mut i: usize = 0;
    while i < pieces.len()
        invariant
            i <= pieces.len(),
            views(pieces@) == split_on(text@, ','),
            string_views(kept@) == split_on(text@, ',').take(i as int).map_values(
                |p: Seq<char>| trim(p),
            ).filter(|p: Seq<char>| p.len() > 0),
        decreases pieces.len() - i,
    {
        let t = trim_chars(&pieces[i]);
        let ghost all = split_on(text@, ',');
        let ghost before = all.take(i as int).map_values(|p: Seq<char>| trim(p));
        assert(all.take(i as int + 1).map_values(|p: Seq<char>| trim(p)) =~= before.push(t@));
        proof {
            lemma_filter_push(before, t@);
        }
        if t.len() > 0 {
            let ghost old_kept = kept@;
            let entry = string_of(&t);
            kept.push(entry);
            assert(string_views(kept@) =~= string_views(old_kept).push(t@));
        }
        i += 1;
    }
    assert(split_on(text@, ',').take(pieces.len() as int) =~= split_on(text@, ','));
    kept
}

/// Each entry of a role list is non-empty, holds no comma and trims to
/// itself.
proof fn lemma_entries_are_clean(roles: Seq<char>)
    ensures
        forall|i: int|
            0 <= i < role_entries(roles).len() ==> {
                let e = #[trigger] role_entries(roles)[i];
                e.len() > 0 && !e.contains(',') && trim(e) == e
            },
{
    broadcast use vstd::seq_lib::group_filter_ensures;

    let pieces = split_on(roles, ',');
    let trimmed = pieces.map_values(|p: Seq<char>| trim(p));
    lemma_split_on_pieces_lack_sep(roles, ',');
    assert forall|i: int| 0 <= i < role_entries(roles).len() implies {
        let e = #[trigger] role_entries(roles)[i];
        e.len() > 0 && !e.contains(',') && trim(e) == e
    } by {
        let e = role_entries(roles)[i];
        assert(role_entries(roles).contains(e));
        trimmed.lemma_filter_contains_rev(|p: Seq<char>| p.len() > 0, e);
        let k = choose|k: int| 0 <= k < trimmed.len() && trimmed[k] == e;
        assert(e == trim(pieces[k]));
        lemma_trim_lacks(pieces[k], ',');
        lemma_trim_idempotent(pieces[k]);
    }
}

/// Keeping the non-empty pieces of pieces that are all non-empty keeps them
/// all.
proof fn lemma_keep_nonempty_all(s: Seq<Seq<char>>)
    requires
        forall|i: int| 0 <= i < s.len() ==> (#[trigger] s[i]).len() > 0,
    ensures
        s.filter(|p: Seq<char>| p.len() > 0) == s,
    decreases s.len(),
{
    reveal(Seq::filter);
    if s.len() > 0 {
        let init = s.drop_last();
        assert forall|i: int| 0 <= i < init.len() implies (#[trigger] init[i]).len() > 0 by {
            assert(init[i] == s[i]);
        }
        lemma_keep_nonempty_all(init);
        assert(s[s.len() - 1] == s.last());
        assert(init.push(s.last()) =~= s);
    }
}

/// Normalizing a role list that is already normal changes nothing.
pub proof fn law_role_normalization_is_idempotent(roles: Seq<char>)
    ensures
        normalized_roles(normalized_roles(roles)) == normalized_roles(roles),
{
    let entries = role_entries(roles);
    lemma_entries_are_clean(roles);
    let joined = join_with(entries, ',');
    if entries.len() == 0 {
        assert(joined == Seq::<char>::empty());
        assert(split_on(joined, ',') == seq![Seq::<char>::empty()]);
        assert(trim_start(Seq::<char>::empty()) == Seq::<char>::empty());
        assert(trim_end(Seq::<char>::empty()) == Seq::<char>::empty());
        let mapped = split_on(joined, ',').map_values(|p: Seq<char>| trim(p));
        assert(mapped =~= seq![Seq::<char>::empty()]);
        reveal(Seq::filter);
        assert(mapped.drop_last() =~= Seq::<Seq<char>>::empty());
        assert(mapped.drop_last().filter(|p: Seq<char>| p.len() > 0) =~= Seq::<Seq<char>>::empty());
        assert(mapped.last().len() == 0);
        assert(mapped.filter(|p: Seq<char>| p.len() > 0) =~= Seq::<Seq<char>>::empty());
        assert(role_entries(joined) =~= entries);
    } else {
        assert forall|i: int| 0 <= i < entries.len() implies !(#[trigger] entries[i]).contains(',') by {}
        lemma_split_on_join(entries, ',');
        let mapped = split_on(joined, ',').map_values(|p: Seq<char>| trim(p));
        assert(mapped =~= entries);
        assert forall|i: int| 0 <= i < entries.len() implies (#[trigger] entries[i]).len() > 0 by {}
        lemma_keep_nonempty_all(entries);
        assert(role_entries(joined) == entries);
    }
}

} // verus!
