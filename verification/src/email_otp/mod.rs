//! E-mail one-time-code plugin: code kinds, storage options, and the code
//! format kept in the verification store.

pub mod flow;
pub mod otp;

use vstd::prelude::*;

verus! {

/// The plugin's identifier.
pub const UPSTREAM_PLUGIN_ID: &'static str = "email-otp";

/// What a one-time code is issued for.
#[derive(Debug, Clone, Copy, PartialEq, Eq, Structural)]
pub enum EmailOtpType {
    SignIn,
    EmailVerification,
    ForgetPassword,
    ChangeEmail,
}

/// The wire name of each code kind.
pub open spec fn otp_type_name(t: EmailOtpType) -> Seq<char> {
    match t {
        EmailOtpType::SignIn => "sign-in"@,
        EmailOtpType::EmailVerification => "email-verification"@,
        EmailOtpType::ForgetPassword => "forget-password"@,
        EmailOtpType::ChangeEmail => "change-email"@,
    }
}

impl EmailOtpType {
    /// The wire name of the code kind.
    pub fn as_str(self) -> (s: &'static str)
        ensures
            s@ == otp_type_name(self),
    {
        match self {
            EmailOtpType::SignIn => "sign-in",
            EmailOtpType::EmailVerification => "email-verification",
            EmailOtpType::ForgetPassword => "forget-password",
            EmailOtpType::ChangeEmail => "change-email",
        }
    }

    /// The code kind whose wire name is `name`, if any.
    pub fn parse(name: &str) -> (r: Option<EmailOtpType>)
        ensures
            r matches Some(t) ==> otp_type_name(t) == name@,
            r is None ==> forall|t: EmailOtpType| otp_type_name(t) != name@,
    {
        let n = crate::text::chars_of(name);
        let kinds = [
            EmailOtpType::SignIn,
            EmailOtpType::EmailVerification,
            EmailOtpType::ForgetPassword,
            EmailOtpType::ChangeEmail,
        ];
        let mut i: usize = 0;
        while i < 4
            invariant
                i <= 4,
                n@ == name@,
                kinds@ == seq![
                    EmailOtpType::SignIn,
                    EmailOtpType::EmailVerification,
                    EmailOtpType::ForgetPassword,
                    EmailOtpType::ChangeEmail,
                ],
                forall|j: int| 0 <= j < i ==> otp_type_name(#[trigger] kinds@[j]) != name@,
            decreases 4 - i,
        {
            let t = kinds[i];
            let candidate = crate::text::chars_of(t.as_str());
            if crate::text::chars_eq(&candidate, &n) {
                return Some(t);
            }
            i += 1;
        }
        proof {
            assert forall|t: EmailOtpType| otp_type_name(t) != name@ by {
                match t {
                    EmailOtpType::SignIn => assert(kinds@[0] == t),
                    EmailOtpType::EmailVerification => assert(kinds@[1] == t),
                    EmailOtpType::ForgetPassword => assert(kinds@[2] == t),
                    EmailOtpType::ChangeEmail => assert(kinds@[3] == t),
                }
            }
        }
        None
    }
}

/// How issued codes are kept in the verification store.
#[derive(Debug, Clone, Copy, PartialEq, Eq, Structural)]
pub enum OtpStorage {
    Plain,
    Hashed,
}

/// Settings of the change-e-mail flow.
#[derive(Debug, Clone, Copy, PartialEq, Eq, Structural)]
pub struct ChangeEmailOptions {
    pub enabled: bool,
    pub verify_current_email: bool,
}

/// A rate-limit rule: at most `max` requests per `window` seconds.
#[derive(Debug, Clone, Copy, PartialEq, Eq, Structural)]
pub struct RateLimitRule {
    pub window: u64,
    pub max: u64,
}

/// The plugin's settings that the code logic reads.
#[derive(Debug, Clone, Copy, PartialEq, Eq, Structural)]
pub struct EmailOtpOptions {
    pub otp_length: usize,
    pub expires_in: u64,
    pub allowed_attempts: u32,
    pub store_otp: OtpStorage,
    pub disable_sign_up: bool,
    pub send_verification_on_sign_up: bool,
    pub change_email: ChangeEmailOptions,
    pub rate_limit: Option<RateLimitRule>,
}

/// A source of codes that users of the plugin may supply in place of the
/// built-in random digits. Each implementation says, through `generated`,
/// which code it gives for an address, a kind and a length.
pub trait EmailOtpGenerator {
    /// The code given for `email`, `otp_type` and `length`.
    spec fn generated(&self, email: Seq<char>, otp_type: EmailOtpType, length: usize) -> Seq<char>;

    /// Makes the code for `email`, `otp_type` and `length`.
    fn generate_otp(&self, email: &str, otp_type: EmailOtpType, length: usize) -> (r: String)
        ensures
            r@ == self.generated(email@, otp_type, length),
    ;
}

/// A generator that gives the same code for every request.
#[derive(Debug)]
pub struct FixedOtpGenerator {
    pub code: String,
}

impl EmailOtpGenerator for FixedOtpGenerator {
    open spec fn generated(&self, email: Seq<char>, otp_type: EmailOtpType, length: usize) -> Seq<char> {
        self.code@
    }

    fn generate_otp(&self, email: &str, otp_type: EmailOtpType, length: usize) -> (r: String) {
        let c = crate::text::chars_of(self.code.as_str());
        crate::text::string_of(&c)
    }
}

/// The rate-limit rule applied to the plugin's paths when none is configured:
/// three requests per minute.
pub fn default_rate_limit() -> (r: RateLimitRule)
    ensures
        r == (RateLimitRule { window: 60, max: 3 }),
{
    RateLimitRule { window: 60, max: 3 }
}

/// The rate-limit rule in force for the given settings.
pub fn effective_rate_limit(options: &EmailOtpOptions) -> (r: RateLimitRule)
    ensures
        r == (match options.rate_limit {
            Some(rule) => rule,
            None => RateLimitRule { window: 60, max: 3 },
        }),
{
    match options.rate_limit {
        Some(rule) => rule,
        None => default_rate_limit(),
    }
}

} // verus!
