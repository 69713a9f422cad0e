//! Request checks shared by the organization routes: query parameters,
//! the shape of an e-mail address, and which roles need a lookup.

use vstd::prelude::*;

use super::options::OrganizationOptions;
use super::permissions::{comma_entries, is_known_static_role, is_static_role, role_entries};
use crate::text::{
    chars_eq, chars_of, find_first, first_index_of, is_white_space, is_whitespace, split_chars,
    split_on, string_of, string_of_range, string_views, views,
};

verus! {

/// The name of a `name=value` pair: what precedes the first `=`, or the
/// whole pair where it has none.
pub open spec fn pair_name(p: Seq<char>) -> Seq<char> {
    match first_index_of(p, '=') {
        Some(i) => p.take(i),
        None => p,
    }
}

/// The value of a `name=value` pair: what follows the first `=`, or
/// nothing where it has none.
pub open spec fn pair_value(p: Seq<char>) -> Seq<char> {
    match first_index_of(p, '=') {
        Some(i) => p.skip(i + 1),
        None => Seq::empty(),
    }
}

/// The value of the first pair named `name`; with `strict`, pairs without
/// `=` are passed over.
pub open spec fn first_param(pairs: Seq<Seq<char>>, name: Seq<char>, strict: bool) -> Option<Seq<char>>
    decreases pairs.len(),
{
    if pairs.len() == 0 {
        None
    } else {
        let p = pairs[0];
        if (!strict || first_index_of(p, '=') is Some) && pair_name(p) == name {
            Some(pair_value(p))
        } else {
            first_param(pairs.drop_first(), name, strict)
        }
    }
}

/// The raw value of the parameter `name` in the query (split at `&`, not
/// decoded), where the request has a query.
pub open spec fn query_param_of(query: Option<Seq<char>>, name: Seq<char>, strict: bool) -> Option<Seq<char>> {
    match query {
        Some(q) => first_param(split_on(q, '&'), name, strict),
        None => None,
    }
}

/// The raw value of the parameter `name`. With `strict`, a pair counts only
/// where it holds `=` (as the team routes read it); otherwise a pair without
/// `=` is a name with an empty value.
pub fn query_param(query: Option<&str>, name: &str, strict: bool) -> (r: Option<String>)
    ensures
        match r {
            Some(v) => query_param_of(
                match query {
                    Some(q) => Some(q@),
                    None => None,
                },
                name@,
                strict,
            ) == Some(v@),
            None => query_param_of(
                match query {
                    Some(q) => Some(q@),
                    None => None,
                },
                name@,
                strict,
            ) is None,
        },
{
    let q = match query {
        Some(q) => q,
        None => return None,
    };
    let chars = chars_of(q);
    let pairs = split_chars(&chars, '&');
    let target = chars_of(name);
    let mut i: usize = 0;
    assert(views(pairs@).skip(0) =~= views(pairs@));
    while i < pairs.len()
        invariant
            i <= pairs.len(),
            query == Some(q),
            target@ == name@,
            views(pairs@) == split_on(q@, '&'),
            first_param(split_on(q@, '&'), name@, strict) == first_param(
                views(pairs@).skip(i as int),
                name@,
                strict,
            ),
        decreases pairs.len() - i,
    {
        let ghost rest = views(pairs@).skip(i as int);
        assert(rest[0] == pairs@[i as int]@);
        assert(rest.drop_first() =~= views(pairs@).skip(i as int + 1));
        let p = &pairs[i];
        match find_first(p, '=') {
            Some(k) => {
                let key = string_of_range(p, 0, k);
                let key_chars = chars_of(key.as_str());
                if chars_eq(&key_chars, &target) {
                    assert(p@.take(k as int) =~= p@.subrange(0, k as int));
                    let value = string_of_range(p, k + 1, p.len());
                    assert(p@.skip(k as int + 1) =~= p@.subrange(k as int + 1, p@.len() as int));
                    return Some(value);
                }
                assert(p@.take(k as int) =~= p@.subrange(0, k as int));
            },
            None => {
                if !strict && chars_eq(p, &target) {
                    let empty = String::new();
                    assert(empty@ =~= pair_value(p@));
                    return Some(empty);
                }
            },
        }
        i += 1;
    }
    None
}

/// The shape of an address that the organization routes accept: a
/// non-empty local part before the first `@`, a domain after it that is not
/// empty, holds a `.` and neither starts nor ends with one, and no white
/// space anywhere.
pub open spec fn member_email_is_valid(email: Seq<char>) -> bool {
    match first_index_of(email, '@') {
        Some(i) => {
            let local = email.take(i);
            let domain = email.skip(i + 1);
            &&& local.len() > 0
            &&& domain.len() > 0
            &&& domain.contains('.')
            &&& domain[0] != '.'
            &&& domain.last() != '.'
            &&& forall|j: int| 0 <= j < email.len() ==> !is_white_space(#[trigger] email[j])
        },
        None => false,
    }
}

/// Whether `email` has the shape that the organization routes accept.
pub fn valid_email(email: &str) -> (r: bool)
    ensures
        r == member_email_is_valid(email@),
{
    let e = chars_of(email);
    let at = match find_first(&e, '@') {
        Some(at) => at,
        None => return false,
    };
    let n = e.len();
    let ghost domain = e@.skip(at as int + 1);
    if at == 0 || at + 1 == n {
        return false;
    }
    if e[at + 1] == '.' || e[n - 1] == '.' {
        assert(domain[0] == e@[at as int + 1]);
        assert(domain.last() == e@[n - 1]);
        return false;
    }
    assert(domain[0] == e@[at as int + 1]);
    assert(domain.last() == e@[n - 1]);
    let mut has_dot = false;
    let mut j: usize = at + 1;
    while j < n
        invariant
            at + 1 <= j <= n == e.len(),
            domain == e@.skip(at as int + 1),
            has_dot <==> exists|k: int| at + 1 <= k < j && e@[k] == '.',
        decreases n - j,
    {
        if e[j] == '.' {
            has_dot = true;
        }
        j += 1;
    }
    proof {
        if has_dot {
            let k = choose|k: int| at + 1 <= k < n && e@[k] == '.';
            assert(domain[k - at - 1] == '.');
        } else {
            if domain.contains('.') {
                let k = choose|k: int| 0 <= k < domain.len() && domain[k] == '.';
                assert(e@[k + at + 1] == '.');
            }
        }
    }
    if !has_dot {
        return false;
    }
    let mut i: usize = 0;
    while i < n
        invariant
            i <= n == e.len(),
            e@ == email@,
            forall|k: int| 0 <= k < i ==> !is_white_space(#[trigger] e@[k]),
        decreases n - i,
    {
        if is_whitespace(e[i]) {
            assert(is_white_space(e@[i as int]));
            return false;
        }
        i += 1;
    }
    true
}

/// The role entries that are not built in, in order.
pub open spec fn custom_roles(entries: Seq<Seq<char>>, creator_role: Seq<char>) -> Seq<Seq<char>>
    decreases entries.len(),
{
    if entries.len() == 0 {
        Seq::empty()
    } else {
        let init = custom_roles(entries.drop_last(), creator_role);
        if is_static_role(entries.last(), creator_role) {
            init
        } else {
            init.push(entries.last())
        }
    }
}

/// What checking that roles exist needs: `None` where some role is not
/// built in and dynamic roles are off (the roles do not all exist);
/// otherwise the names to look up, each of which must be found.
pub open spec fn roles_lookup(roles: Seq<char>, creator_role: Seq<char>, dynamic_enabled: bool) -> Option<Seq<Seq<char>>> {
    let custom = custom_roles(role_entries(roles), creator_role);
    if custom.len() > 0 && !dynamic_enabled {
        None
    } else {
        Some(custom)
    }
}

/// The names among `roles` (comma-separated, trimmed, empty entries
/// dropped) that must be found among the organization's dynamic roles;
/// `None` where one is not built in and dynamic roles are off.
pub fn roles_to_look_up(roles: &str, options: &OrganizationOptions) -> (r: Option<Vec<String>>)
    ensures
        match r {
            Some(v) => roles_lookup(roles@, options.creator_role@, options.dynamic_access_control.enabled)
                == Some(string_views(v@)),
            None => roles_lookup(
                roles@,
                options.creator_role@,
                options.dynamic_access_control.enabled,
            ) is None,
        },
{
    let entries = comma_entries(roles);
    let mut custom: Vec<String> = Vec::new();
    let mut i: usize = 0;
    while i < entries.len()
        invariant
            i <= entries.len(),
            string_views(entries@) == role_entries(roles@),
            string_views(custom@) == custom_roles(
                string_views(entries@).take(i as int),
                options.creator_role@,
            ),
        decreases entries.len() - i,
    {
        let ghost t = string_views(entries@).take(i as int + 1);
        assert(t.drop_last() =~= string_views(entries@).take(i as int));
        assert(t.last() == entries@[i as int]@);
        if !is_known_static_role(entries[i].as_str(), options) {
            let ghost before = custom@;
            let c = chars_of(entries[i].as_str());
            custom.push(string_of(&c));
            assert(string_views(custom@) =~= string_views(before).push(entries@[i as int]@));
        }
        i += 1;
    }
    assert(string_views(entries@).take(entries.len() as int) =~= string_views(entries@));
    if custom.len() > 0 && !options.dynamic_access_control.enabled {
        return None;
    }
    Some(custom)
}

} // verus!
