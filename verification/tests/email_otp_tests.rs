use openauth_plugins::email_otp::flow::{
    check_password_length, check_requires_user, change_email_enabled, code_request_effect,
    decide_request_email_change, decide_reset_password, EmailChangeFacts, EmailChangeStep, delivers_change_code, delivers_code, email_change_request,
    general_code_kind, sign_in_account, CodeRequestAnswer, CodeRequestEffect, OtpRefusal,
    ResetStep, SignInAccount,
};
use openauth_plugins::email_otp::otp::{
    change_email_identifier, encode_value, generate, generate_numeric, identifier,
    normalize_email, numeric_otp_from_bytes, reusable_plain_otp, seconds_to_duration, split_value,
    store, valid_email, verify, EmailOtpConfigError, StoredOtpParts,
};
use openauth_plugins::email_otp::{
    default_rate_limit, effective_rate_limit, ChangeEmailOptions, FixedOtpGenerator,
    EmailOtpOptions, EmailOtpType, OtpStorage, RateLimitRule, UPSTREAM_PLUGIN_ID,
};

fn options(storage: OtpStorage) -> EmailOtpOptions {
    EmailOtpOptions {
        otp_length: 6,
        expires_in: 300,
        allowed_attempts: 3,
        store_otp: storage,
        disable_sign_up: false,
        send_verification_on_sign_up: false,
        change_email: ChangeEmailOptions { enabled: true, verify_current_email: false },
        rate_limit: None,
    }
}

#[test]
fn plugin_id_is_email_otp() {
    assert_eq!(UPSTREAM_PLUGIN_ID, "email-otp");
}

#[test]
fn code_kind_names_round_trip() {
    for t in [
        EmailOtpType::SignIn,
        EmailOtpType::EmailVerification,
        EmailOtpType::ForgetPassword,
        EmailOtpType::ChangeEmail,
    ] {
        assert_eq!(EmailOtpType::parse(t.as_str()), Some(t));
    }
    assert_eq!(EmailOtpType::SignIn.as_str(), "sign-in");
    assert_eq!(EmailOtpType::ForgetPassword.as_str(), "forget-password");
    assert_eq!(EmailOtpType::parse("reset"), None);
}

#[test]
fn addresses_are_trimmed_and_lowered() {
    assert_eq!(normalize_email("  User@Example.COM \n"), "user@example.com");
}

#[test]
fn identifiers_name_kind_and_address() {
    assert_eq!(identifier(EmailOtpType::SignIn, " User@Example.COM "), "sign-in-otp-user@example.com");
    assert_eq!(
        identifier(EmailOtpType::EmailVerification, "a@b.co"),
        "email-verification-otp-a@b.co"
    );
    assert_ne!(
        identifier(EmailOtpType::SignIn, "a@b.co"),
        identifier(EmailOtpType::ForgetPassword, "a@b.co")
    );
    assert_eq!(
        change_email_identifier("Old@X.com", " New@Y.com"),
        "change-email-otp-old@x.com-new@y.com"
    );
}

#[test]
fn address_shape() {
    assert!(valid_email("user@example.com"));
    assert!(valid_email("  user@example.com  "));
    assert!(!valid_email("user@example"));
    assert!(!valid_email("@example.com"));
    assert!(!valid_email("user@.example.com"));
    assert!(!valid_email("user@example.com."));
    assert!(!valid_email("userexample.com"));
}

#[test]
fn digits_from_bytes() {
    assert_eq!(numeric_otp_from_bytes(&[0, 9, 10, 255, 123]), "09053");
    assert_eq!(numeric_otp_from_bytes(&[]), "");
}

#[test]
fn random_codes_have_the_configured_length() {
    let code = generate_numeric(8).unwrap();
    assert_eq!(code.len(), 8);
    assert!(code.chars().all(|c| c.is_ascii_digit()));
    let code = generate::<FixedOtpGenerator>(&options(OtpStorage::Plain), None, "a@b.co", EmailOtpType::SignIn)
        .unwrap();
    assert_eq!(code.len(), 6);
    assert!(code.chars().all(|c| c.is_ascii_digit()));
}

#[test]
fn supplied_generator_is_used() {
    let g = FixedOtpGenerator { code: "424242".to_string() };
    let code = generate(&options(OtpStorage::Plain), Some(&g), "a@b.co", EmailOtpType::SignIn).unwrap();
    assert_eq!(code, "424242");
}

#[test]
fn plain_storage_keeps_the_code() {
    let o = options(OtpStorage::Plain);
    assert_eq!(store(&o, "123456"), "123456");
    assert!(verify(&o, "123456", "123456"));
    assert!(!verify(&o, "123456", "123457"));
    assert!(!verify(&o, "123456", "12345"));
}

#[test]
fn hashed_storage_keeps_the_digest() {
    let o = options(OtpStorage::Hashed);
    let kept = store(&o, "123456");
    assert_eq!(kept, "jZae727K08KaOmKSgOaGzww_XVqGr_PKEgIMkjrcbJI");
    assert_eq!(store(&o, "000000"), "kbTRQoI_fSDF8I32kSLeQ_NfBXqYjZYZ9tMThIXJogM");
    assert!(verify(&o, &kept, "123456"));
    assert!(!verify(&o, &kept, "654321"));
    assert!(!verify(&o, "123456", "123456"));
}

#[test]
fn reusable_code_only_in_plain_storage() {
    let parts = StoredOtpParts { value: "123456".to_string(), attempts: 1 };
    assert_eq!(reusable_plain_otp(&options(OtpStorage::Plain), &parts), Some("123456".to_string()));
    assert_eq!(reusable_plain_otp(&options(OtpStorage::Hashed), &parts), None);
}

#[test]
fn records_encode_and_split() {
    assert_eq!(encode_value("abc", 3), "abc:3");
    assert_eq!(encode_value("", 0), ":0");
    assert_eq!(encode_value("x", 4294967295), "x:4294967295");
    assert_eq!(split_value("abc:3"), StoredOtpParts { value: "abc".to_string(), attempts: 3 });
    assert_eq!(split_value("a:b:7"), StoredOtpParts { value: "a:b".to_string(), attempts: 7 });
    assert_eq!(split_value("abc"), StoredOtpParts { value: "abc".to_string(), attempts: 0 });
    assert_eq!(split_value("abc:x"), StoredOtpParts { value: "abc".to_string(), attempts: 0 });
    assert_eq!(split_value("abc:+5"), StoredOtpParts { value: "abc".to_string(), attempts: 5 });
    assert_eq!(split_value("abc:99999999999"), StoredOtpParts { value: "abc".to_string(), attempts: 0 });
    let encoded = encode_value("a:b", 12);
    assert_eq!(split_value(&encoded), StoredOtpParts { value: "a:b".to_string(), attempts: 12 });
}

#[test]
fn code_lifetime_must_fit() {
    let d = seconds_to_duration(300).unwrap();
    assert_eq!(d, time::Duration::seconds(300));
    assert_eq!(seconds_to_duration(0).unwrap(), time::Duration::ZERO);
    assert_eq!(
        seconds_to_duration(u64::MAX).unwrap_err(),
        EmailOtpConfigError::InvalidConfig("email OTP expiry is too large".to_string())
    );
    assert!(seconds_to_duration(i64::MAX as u64).is_ok());
}

#[test]
fn rate_limit_default_is_three_per_minute() {
    assert_eq!(default_rate_limit(), RateLimitRule { window: 60, max: 3 });
    assert_eq!(effective_rate_limit(&options(OtpStorage::Plain)), RateLimitRule { window: 60, max: 3 });
    let mut o = options(OtpStorage::Plain);
    o.rate_limit = Some(RateLimitRule { window: 10, max: 1 });
    assert_eq!(effective_rate_limit(&o), RateLimitRule { window: 10, max: 1 });
}

#[test]
fn change_email_codes_have_their_own_endpoints() {
    assert_eq!(general_code_kind(EmailOtpType::ChangeEmail), Err(OtpRefusal::InvalidOtpType));
    assert_eq!(general_code_kind(EmailOtpType::SignIn), Ok(()));
    assert_eq!(OtpRefusal::InvalidOtpType.code(), "INVALID_OTP_TYPE");
    assert_eq!(OtpRefusal::InvalidOtpType.message(), "Invalid OTP type");
    assert_eq!(OtpRefusal::OtpRequired.message(), "OTP is required to verify current email");
    assert_eq!(OtpRefusal::UserNotFound.status(), 400);
}

#[test]
fn codes_reach_strangers_only_for_open_sign_up() {
    let mut o = options(OtpStorage::Plain);
    assert!(delivers_code(&o, EmailOtpType::SignIn, false));
    assert!(!delivers_code(&o, EmailOtpType::EmailVerification, false));
    assert!(delivers_code(&o, EmailOtpType::EmailVerification, true));
    o.disable_sign_up = true;
    assert!(!delivers_code(&o, EmailOtpType::SignIn, false));
    assert!(delivers_code(&o, EmailOtpType::SignIn, true));
    assert_eq!(check_requires_user(false), Err(OtpRefusal::UserNotFound));
    assert_eq!(check_requires_user(true), Ok(()));
}

#[test]
fn sign_in_account_steps() {
    let mut o = options(OtpStorage::Plain);
    assert_eq!(sign_in_account(&o, Some(true), None, None), Ok(SignInAccount::UseExisting));
    assert_eq!(sign_in_account(&o, Some(false), Some("Ann".to_string()), None), Ok(SignInAccount::MarkVerified));
    assert_eq!(
        sign_in_account(&o, None, None, Some("img".to_string())),
        Ok(SignInAccount::Create { name: String::new(), image: Some("img".to_string()) })
    );
    assert_eq!(
        sign_in_account(&o, None, Some("Ann".to_string()), None),
        Ok(SignInAccount::Create { name: "Ann".to_string(), image: None })
    );
    o.disable_sign_up = true;
    assert_eq!(sign_in_account(&o, None, None, None), Err(OtpRefusal::InvalidOtp));
}

#[test]
fn password_reset_checks_length_before_the_code() {
    assert_eq!(decide_reset_password("short", 8, 20, None, None), ResetStep::Refuse(OtpRefusal::PasswordTooShort));
    assert_eq!(
        decide_reset_password("short", 8, 20, Some(true), Some(Some(true))),
        ResetStep::Refuse(OtpRefusal::PasswordTooShort)
    );
    assert_eq!(
        decide_reset_password("much too long", 1, 4, Some(false), None),
        ResetStep::Refuse(OtpRefusal::PasswordTooLong)
    );
    assert_eq!(decide_reset_password("goodpass", 8, 20, None, None), ResetStep::CheckCode);
    assert_eq!(decide_reset_password("goodpass", 8, 20, Some(false), None), ResetStep::CodeRejected);
    assert_eq!(decide_reset_password("goodpass", 8, 20, Some(true), None), ResetStep::FindUser);
    assert_eq!(
        decide_reset_password("goodpass", 8, 20, Some(true), Some(None)),
        ResetStep::Refuse(OtpRefusal::UserNotFound)
    );
    assert_eq!(
        decide_reset_password("goodpass", 8, 20, Some(true), Some(Some(false))),
        ResetStep::SetPassword { mark_verified: true }
    );
}

#[test]
fn code_requests_answer_alike() {
    assert_eq!(code_request_effect(true, "sign-in-otp-a@b.co"), (CodeRequestEffect::Deliver, CodeRequestAnswer::Success));
    assert_eq!(
        code_request_effect(false, "sign-in-otp-a@b.co"),
        (
            CodeRequestEffect::Discard { identifier: "sign-in-otp-a@b.co".to_string() },
            CodeRequestAnswer::Success
        )
    );
}

#[test]
fn password_length_bounds() {
    assert_eq!(check_password_length("short", 8, 128), Err(OtpRefusal::PasswordTooShort));
    assert_eq!(check_password_length("long enough", 8, 10), Err(OtpRefusal::PasswordTooLong));
    assert_eq!(check_password_length("exactly8", 8, 8), Ok(()));
    assert_eq!(check_password_length("ééé", 6, 6), Ok(()));
}

#[test]
fn email_change_checks() {
    let mut o = options(OtpStorage::Plain);
    assert_eq!(change_email_enabled(&o), Ok(()));
    assert_eq!(email_change_request(&o, "a@x.com", "a@x.com", false), Err(OtpRefusal::EmailIsTheSame));
    assert_eq!(email_change_request(&o, "a@x.com", "b@x.com", false), Ok(false));
    o.change_email.verify_current_email = true;
    assert_eq!(email_change_request(&o, "a@x.com", "b@x.com", false), Err(OtpRefusal::OtpRequired));
    assert_eq!(email_change_request(&o, "a@x.com", "b@x.com", true), Ok(true));
    o.change_email.enabled = false;
    assert_eq!(change_email_enabled(&o), Err(OtpRefusal::ChangeEmailDisabled));
    assert!(delivers_change_code(false));
    assert!(!delivers_change_code(true));
}

#[test]
fn email_change_request_in_order() {
    let mut o = options(OtpStorage::Plain);
    let mut facts = EmailChangeFacts {
        new_email: None,
        current_email: None,
        current_otp_given: false,
        current_code_accepted: None,
        code_issued: false,
        new_email_taken: None,
    };
    o.change_email.enabled = false;
    assert_eq!(
        decide_request_email_change(&o, &facts),
        EmailChangeStep::Refuse(OtpRefusal::ChangeEmailDisabled)
    );
    o.change_email.enabled = true;
    assert_eq!(decide_request_email_change(&o, &facts), EmailChangeStep::InvalidEmail);
    facts.new_email = Some("new@x.com".to_string());
    assert_eq!(decide_request_email_change(&o, &facts), EmailChangeStep::Authenticate);
    facts.current_email = Some(Some("new@x.com".to_string()));
    assert_eq!(
        decide_request_email_change(&o, &facts),
        EmailChangeStep::Refuse(OtpRefusal::EmailIsTheSame)
    );
    facts.current_email = Some(Some("old@x.com".to_string()));
    o.change_email.verify_current_email = true;
    assert_eq!(
        decide_request_email_change(&o, &facts),
        EmailChangeStep::Refuse(OtpRefusal::OtpRequired)
    );
    facts.current_otp_given = true;
    assert_eq!(
        decide_request_email_change(&o, &facts),
        EmailChangeStep::CheckCurrentCode { identifier: "email-verification-otp-old@x.com".to_string() }
    );
    facts.current_code_accepted = Some(true);
    assert_eq!(
        decide_request_email_change(&o, &facts),
        EmailChangeStep::IssueCode { identifier: "change-email-otp-old@x.com-new@x.com".to_string() }
    );
    facts.code_issued = true;
    assert_eq!(decide_request_email_change(&o, &facts), EmailChangeStep::LookUpNewAddress);
    facts.new_email_taken = Some(true);
    assert_eq!(
        decide_request_email_change(&o, &facts),
        EmailChangeStep::Discard { identifier: "change-email-otp-old@x.com-new@x.com".to_string() }
    );
    facts.new_email_taken = Some(false);
    assert_eq!(decide_request_email_change(&o, &facts), EmailChangeStep::Deliver);
}

#[test]
fn hashed_codes_are_unpadded_url_safe_text() {
    let kept = store(&options(OtpStorage::Hashed), "987654");
    assert_eq!(kept.len(), 43);
    assert!(kept.chars().all(|c| c.is_ascii_alphanumeric() || c == '-' || c == '_'));
}
