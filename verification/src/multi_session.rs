//! The multi-session rule: when a new session gets a cookie of its own
//! beside the others of the same browser.

use vstd::prelude::*;

use crate::mcp::client::{ascii_text, visible_ascii};
use crate::text::{chars_of, push_str, starts_with_chars};

verus! {

/// Settings of the multi-session plugin.
#[derive(Debug, Clone, Copy, PartialEq, Eq, Structural)]
pub struct MultiSessionConfig {
    pub maximum_sessions: usize,
}

impl Default for MultiSessionConfig {
    /// At most five sessions.
    fn default() -> (r: Self)
        ensures
            r.maximum_sessions == 5,
    {
        MultiSessionConfig { maximum_sessions: 5 }
    }
}

/// The number of sessions once the new one is counted: the signed session
/// cookies of the request, less those of the same user that were removed,
/// never below zero, plus the new session.
pub open spec fn sessions_after_login(signed: nat, deleted: nat) -> nat {
    (if deleted <= signed {
        (signed - deleted) as nat
    } else {
        0nat
    }) + 1
}

/// Whether the new session gets its own cookie.
pub open spec fn admits_session(maximum: nat, signed: nat, deleted: nat) -> bool {
    sessions_after_login(signed, deleted) <= maximum
}

/// The number of sessions once the new one is counted.
pub fn session_count(signed: usize, deleted: usize) -> (r: usize)
    requires
        signed < usize::MAX,
    ensures
        r == sessions_after_login(signed as nat, deleted as nat),
{
    signed.saturating_sub(deleted) + 1
}

impl MultiSessionConfig {
    /// Whether a new session, with `signed` signed session cookies in the
    /// request of which `deleted` belonged to the same user and were removed,
    /// gets a cookie of its own.
    pub fn admits(&self, signed: usize, deleted: usize) -> (r: bool)
        requires
            signed < usize::MAX,
        ensures
            r == admits_session(self.maximum_sessions as nat, signed as nat, deleted as nat),
    {
        session_count(signed, deleted) <= self.maximum_sessions
    }
}

/// Whether the cookie-storing step goes on to count sessions: a session was
/// just created, neither the response nor the request already carries its
/// cookie, and a database is configured.
pub fn store_cookie_applies(new_session: bool, in_response: bool, in_request: bool, has_adapter: bool) -> (r: bool)
    ensures
        r == (new_session && !in_response && !in_request && has_adapter),
{
    new_session && !in_response && !in_request && has_adapter
}

/// Whether one `Set-Cookie` value sets the cookie `name`: it is visible
/// ASCII and starts with `name=`.
pub open spec fn sets_cookie(value: Seq<u8>, name: Seq<char>) -> bool {
    &&& forall|i: int| 0 <= i < value.len() ==> visible_ascii(#[trigger] value[i])
    &&& ascii_text(value).len() >= name.len() + 1
    &&& ascii_text(value).take(name.len() as int + 1) == name + "="@
}

/// The bytes of each `Set-Cookie` value.
pub open spec fn byte_views(values: Seq<Vec<u8>>) -> Seq<Seq<u8>> {
    values.map_values(|v: Vec<u8>| v@)
}

/// Whether one value sets the cookie.
fn value_sets_cookie(value: &Vec<u8>, prefix: &Vec<char>) -> (r: bool)
    ensures
        r == (
            (forall|i: int| 0 <= i < value@.len() ==> visible_ascii(#[trigger] value@[i]))
            && ascii_text(value@).len() >= prefix@.len() && ascii_text(value@).take(prefix@.len() as int) == prefix@
        ),
{
    let mut text: Vec<char> = Vec::new();
    let mut i: usize = 0;
    while i < value.len()
        invariant
            i <= value.len(),
            text@ == ascii_text(value@.take(i as int)),
            forall|j: int| 0 <= j < i ==> visible_ascii(#[trigger] value@[j]),
        decreases value.len() - i,
    {
        let b = value[i];
        if !((32 <= b && b < 127) || b == 9) {
            assert(!visible_ascii(value@[i as int]));
            return false;
        }
        text.push(b as char);
        assert(ascii_text(value@.take(i as int + 1)) =~= ascii_text(value@.take(i as int)).push(
            b as char,
        ));
        i += 1;
    }
    assert(value@.take(value.len() as int) =~= value@);
    text.len() >= prefix.len() && starts_with_chars(&text, prefix)
}

/// Whether any of the response's `Set-Cookie` values sets the cookie `name`.
pub fn response_has_cookie(set_cookie_values: &Vec<Vec<u8>>, name: &str) -> (r: bool)
    ensures
        r == exists|k: int| 0 <= k < set_cookie_values@.len() && sets_cookie(#[trigger] byte_views(set_cookie_values@)[k], name@),
{
    let mut p = String::new();
    push_str(&mut p, name);
    push_str(&mut p, "=");
    let prefix = chars_of(p.as_str());
    proof {
        reveal_strlit("=");
    }
    let mut k: usize = 0;
    while k < set_cookie_values.len()
        invariant
            k <= set_cookie_values.len(),
            prefix@ == name@ + "="@,
            forall|j: int| 0 <= j < k ==> !sets_cookie(#[trigger] byte_views(set_cookie_values@)[j], name@),
        decreases set_cookie_values.len() - k,
    {
        proof {
            reveal_strlit("=");
        }
        if value_sets_cookie(&set_cookie_values[k], &prefix) {
            assert(sets_cookie(byte_views(set_cookie_values@)[k as int], name@));
            return true;
        }
        assert(!sets_cookie(byte_views(set_cookie_values@)[k as int], name@));
        k += 1;
    }
    false
}

/// A session is admitted only when the count, the new session included,
/// stays within the maximum; removing more of the user's old sessions never
/// turns an admission into a refusal.
pub proof fn law_admission_within_maximum(maximum: nat, signed: nat, deleted: nat, more: nat)
    requires
        deleted <= more,
    ensures
        admits_session(maximum, signed, deleted) ==> sessions_after_login(signed, deleted) <= maximum,
        admits_session(maximum, signed, deleted) ==> admits_session(maximum, signed, more),
        maximum == 0 ==> !admits_session(maximum, signed, deleted),
{
}

} // verus!
