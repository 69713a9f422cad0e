use openauth_plugins::haveibeenpwned::HaveIBeenPwnedOptions;
use openauth_plugins::multi_session::{
    response_has_cookie, session_count, store_cookie_applies, MultiSessionConfig,
};

#[test]
fn five_sessions_by_default() {
    assert_eq!(MultiSessionConfig::default().maximum_sessions, 5);
}

#[test]
fn session_count_never_goes_below_the_new_session() {
    assert_eq!(session_count(3, 1), 3);
    assert_eq!(session_count(0, 0), 1);
    assert_eq!(session_count(1, 4), 1);
}

#[test]
fn admission_stays_within_the_maximum() {
    let c = MultiSessionConfig { maximum_sessions: 2 };
    assert!(c.admits(1, 0));
    assert!(!c.admits(2, 0));
    assert!(c.admits(2, 1));
    assert!(!MultiSessionConfig { maximum_sessions: 0 }.admits(0, 0));
}

#[test]
fn storing_applies_only_to_new_unknown_sessions() {
    assert!(store_cookie_applies(true, false, false, true));
    assert!(!store_cookie_applies(false, false, false, true));
    assert!(!store_cookie_applies(true, true, false, true));
    assert!(!store_cookie_applies(true, false, true, true));
    assert!(!store_cookie_applies(true, false, false, false));
}

#[test]
fn response_cookie_is_found_by_name() {
    let values = vec![
        b"other=1; Path=/".to_vec(),
        b"auth.session_token_multi-abc=signed; Path=/".to_vec(),
    ];
    assert!(response_has_cookie(&values, "auth.session_token_multi-abc"));
    assert!(!response_has_cookie(&values, "auth.session_token_multi-ab"));
    assert!(!response_has_cookie(&values, "missing"));
    assert!(!response_has_cookie(&vec![vec![b'a', b'=', 0x80]], "a"));
    assert!(!response_has_cookie(&Vec::new(), "a"));
}

#[test]
fn pwned_check_defaults() {
    let o = HaveIBeenPwnedOptions::default();
    assert!(o.enabled);
    assert_eq!(o.custom_password_compromised_message, None);
    assert_eq!(
        o.paths,
        vec!["/sign-up/email".to_string(), "/change-password".to_string(), "/reset-password".to_string()]
    );
}
