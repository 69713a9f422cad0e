//! Settings of the compromised-password check.

use vstd::prelude::*;

use crate::text::string_views;

verus! {

/// Settings of the compromised-password check: the message to send instead
/// of the default one, the endpoints whose passwords are checked, and
/// whether the check runs.
#[derive(Debug)]
pub struct HaveIBeenPwnedOptions {
    pub custom_password_compromised_message: Option<String>,
    pub paths: Vec<String>,
    pub enabled: bool,
}

/// The endpoints checked by default.
pub open spec fn default_checked_paths() -> Seq<Seq<char>> {
    seq!["/sign-up/email"@, "/change-password"@, "/reset-password"@]
}

impl Default for HaveIBeenPwnedOptions {
    /// No custom message, the sign-up, change-password and reset-password
    /// endpoints, enabled.
    fn default() -> (r: Self)
        ensures
            r.custom_password_compromised_message is None,
            string_views(r.paths@) == default_checked_paths(),
            r.enabled,
    {
        let mut paths: Vec<String> = Vec::new();
        paths.push("/sign-up/email".to_owned());
        paths.push("/change-password".to_owned());
        paths.push("/reset-password".to_owned());
        assert(string_views(paths@) =~= default_checked_paths());
        HaveIBeenPwnedOptions { custom_password_compromised_message: None, paths, enabled: true }
    }
}

} // verus!
