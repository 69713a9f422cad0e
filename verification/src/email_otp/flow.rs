//! The decisions of the e-mail code endpoints: which requests are refused,
//! when an issued code is delivered or discarded, and what happens to the
//! account on sign-in.

use vstd::prelude::*;

use crate::email_otp::otp::{
    change_email_identifier, change_email_otp_identifier, identifier, otp_identifier,
};
use crate::email_otp::{EmailOtpOptions, EmailOtpType};
use crate::text::str_eq;

verus! {

/// A refused request of the e-mail code endpoints (all answered with 400).
#[derive(Debug, Clone, Copy, PartialEq, Eq, Structural)]
pub enum OtpRefusal {
    InvalidOtpType,
    UserNotFound,
    InvalidOtp,
    PasswordTooShort,
    PasswordTooLong,
    ChangeEmailDisabled,
    EmailIsTheSame,
    OtpRequired,
}

/// The error code of each refusal.
pub open spec fn refusal_code(r: OtpRefusal) -> Seq<char> {
    match r {
        OtpRefusal::InvalidOtpType => "INVALID_OTP_TYPE"@,
        OtpRefusal::UserNotFound => "USER_NOT_FOUND"@,
        OtpRefusal::InvalidOtp => "INVALID_OTP"@,
        OtpRefusal::PasswordTooShort => "PASSWORD_TOO_SHORT"@,
        OtpRefusal::PasswordTooLong => "PASSWORD_TOO_LONG"@,
        OtpRefusal::ChangeEmailDisabled => "CHANGE_EMAIL_DISABLED"@,
        OtpRefusal::EmailIsTheSame => "EMAIL_IS_THE_SAME"@,
        OtpRefusal::OtpRequired => "OTP_REQUIRED"@,
    }
}

/// The message of each refusal.
pub open spec fn refusal_message(r: OtpRefusal) -> Seq<char> {
    match r {
        OtpRefusal::InvalidOtpType => "Invalid OTP type"@,
        OtpRefusal::UserNotFound => "User not found"@,
        OtpRefusal::InvalidOtp => "Invalid OTP"@,
        OtpRefusal::PasswordTooShort => "Password too short"@,
        OtpRefusal::PasswordTooLong => "Password too long"@,
        OtpRefusal::ChangeEmailDisabled => "Change email with OTP is disabled"@,
        OtpRefusal::EmailIsTheSame => "Email is the same"@,
        OtpRefusal::OtpRequired => "OTP is required to verify current email"@,
    }
}

impl OtpRefusal {
    /// The HTTP status of every refusal: 400.
    pub fn status(self) -> (s: u16)
        ensures
            s == 400,
    {
        400
    }

    /// The error code.
    pub fn code(self) -> (s: &'static str)
        ensures
            s@ == refusal_code(self),
    {
        match self {
            OtpRefusal::InvalidOtpType => "INVALID_OTP_TYPE",
            OtpRefusal::UserNotFound => "USER_NOT_FOUND",
            OtpRefusal::InvalidOtp => "INVALID_OTP",
            OtpRefusal::PasswordTooShort => "PASSWORD_TOO_SHORT",
            OtpRefusal::PasswordTooLong => "PASSWORD_TOO_LONG",
            OtpRefusal::ChangeEmailDisabled => "CHANGE_EMAIL_DISABLED",
            OtpRefusal::EmailIsTheSame => "EMAIL_IS_THE_SAME",
            OtpRefusal::OtpRequired => "OTP_REQUIRED",
        }
    }

    /// The message.
    pub fn message(self) -> (s: &'static str)
        ensures
            s@ == refusal_message(self),
    {
        match self {
            OtpRefusal::InvalidOtpType => "Invalid OTP type",
            OtpRefusal::UserNotFound => "User not found",
            OtpRefusal::InvalidOtp => "Invalid OTP",
            OtpRefusal::PasswordTooShort => "Password too short",
            OtpRefusal::PasswordTooLong => "Password too long",
            OtpRefusal::ChangeEmailDisabled => "Change email with OTP is disabled",
            OtpRefusal::EmailIsTheSame => "Email is the same",
            OtpRefusal::OtpRequired => "OTP is required to verify current email",
        }
    }
}

/// The send and check endpoints serve every kind of code but the change of
/// address, which has endpoints of its own.
pub fn general_code_kind(otp_type: EmailOtpType) -> (r: Result<(), OtpRefusal>)
    ensures
        r is Err <==> otp_type == EmailOtpType::ChangeEmail,
        r matches Err(e) ==> e == OtpRefusal::InvalidOtpType,
{
    match otp_type {
        EmailOtpType::ChangeEmail => Err(OtpRefusal::InvalidOtpType),
        _ => Ok(()),
    }
}

/// Whether an issued code is delivered: the address belongs to a user, or
/// the code signs in and sign-up by code is open. Otherwise it is dropped
/// and the request still succeeds.
pub open spec fn code_delivered(otp_type: EmailOtpType, user_exists: bool, disable_sign_up: bool) -> bool {
    user_exists || (otp_type == EmailOtpType::SignIn && !disable_sign_up)
}

/// Whether the code issued by a send request is delivered.
pub fn delivers_code(options: &EmailOtpOptions, otp_type: EmailOtpType, user_exists: bool) -> (r: bool)
    ensures
        r == code_delivered(otp_type, user_exists, options.disable_sign_up),
{
    user_exists || (otp_type == EmailOtpType::SignIn && !options.disable_sign_up)
}

/// What a check request answers once the code kind is accepted: the user
/// must exist before the code is compared.
pub fn check_requires_user(user_exists: bool) -> (r: Result<(), OtpRefusal>)
    ensures
        r is Ok <==> user_exists,
        r matches Err(e) ==> e == OtpRefusal::UserNotFound,
{
    if user_exists {
        Ok(())
    } else {
        Err(OtpRefusal::UserNotFound)
    }
}

/// What a verified sign-in does to the account.
#[derive(Debug, PartialEq, Eq)]
pub enum SignInAccount {
    /// The user exists with a verified address.
    UseExisting,
    /// The user exists; the address is now marked verified.
    MarkVerified,
    /// No user has the address; one is created with it verified, with the
    /// given name and image.
    Create { name: String, image: Option<String> },
}

/// The name of a user created by a sign-in: the one given, else empty.
pub open spec fn new_user_name(name: Option<String>) -> Seq<char> {
    match name {
        Some(n) => n@,
        None => Seq::empty(),
    }
}

/// The account step of a sign-in whose code was accepted, given whether a
/// user has the address and, if so, whether it is verified, and the name
/// and image sent with the request.
pub fn sign_in_account(
    options: &EmailOtpOptions,
    existing_verified: Option<bool>,
    name: Option<String>,
    image: Option<String>,
) -> (r: Result<SignInAccount, OtpRefusal>)
    ensures
        existing_verified == Some(true) ==> r == Ok::<SignInAccount, OtpRefusal>(SignInAccount::UseExisting),
        existing_verified == Some(false) ==> r == Ok::<SignInAccount, OtpRefusal>(SignInAccount::MarkVerified),
        existing_verified is None && options.disable_sign_up ==> r == Err::<SignInAccount, OtpRefusal>(OtpRefusal::InvalidOtp),
        existing_verified is None && !options.disable_sign_up ==> (r matches Ok(SignInAccount::Create { name: n, image: i })
            && n@ == new_user_name(name) && i == image),
{
    match existing_verified {
        Some(true) => Ok(SignInAccount::UseExisting),
        Some(false) => Ok(SignInAccount::MarkVerified),
        None => {
            if options.disable_sign_up {
                Err(OtpRefusal::InvalidOtp)
            } else {
                let n = match name {
                    Some(n) => n,
                    None => String::new(),
                };
                Ok(SignInAccount::Create { name: n, image })
            }
        },
    }
}

/// The length check of a new password (in bytes) against the configured
/// bounds: too short first, then too long.
pub fn check_password_length(password: &str, min_length: usize, max_length: usize) -> (r: Result<(), OtpRefusal>)
    ensures
        ({
            let len = password.len();
            &&& len < min_length ==> r == Err::<(), OtpRefusal>(OtpRefusal::PasswordTooShort)
            &&& min_length <= len && len > max_length ==> r == Err::<(), OtpRefusal>(OtpRefusal::PasswordTooLong)
            &&& min_length <= len <= max_length ==> r is Ok
        }),
{
    let len = password.len();
    if len < min_length {
        Err(OtpRefusal::PasswordTooShort)
    } else if len > max_length {
        Err(OtpRefusal::PasswordTooLong)
    } else {
        Ok(())
    }
}

/// The change-of-address endpoints run only where the flow is enabled.
pub fn change_email_enabled(options: &EmailOtpOptions) -> (r: Result<(), OtpRefusal>)
    ensures
        r is Ok <==> options.change_email.enabled,
        r matches Err(e) ==> e == OtpRefusal::ChangeEmailDisabled,
{
    if options.change_email.enabled {
        Ok(())
    } else {
        Err(OtpRefusal::ChangeEmailDisabled)
    }
}

/// The checks of a change-of-address request once the user is known, with
/// both addresses normalized: the address must change, and where the
/// current address must be confirmed a code for it must be given. `Ok`
/// says whether that code is to be checked.
pub fn email_change_request(options: &EmailOtpOptions, current_email: &str, new_email: &str, current_otp_given: bool) -> (r: Result<bool, OtpRefusal>)
    ensures
        new_email@ == current_email@ ==> r == Err::<bool, OtpRefusal>(OtpRefusal::EmailIsTheSame),
        new_email@ != current_email@ && options.change_email.verify_current_email && !current_otp_given
            ==> r == Err::<bool, OtpRefusal>(OtpRefusal::OtpRequired),
        new_email@ != current_email@ && !(options.change_email.verify_current_email && !current_otp_given)
            ==> r == Ok::<bool, OtpRefusal>(options.change_email.verify_current_email),
{
    if str_eq(new_email, current_email) {
        return Err(OtpRefusal::EmailIsTheSame);
    }
    if options.change_email.verify_current_email {
        if !current_otp_given {
            return Err(OtpRefusal::OtpRequired);
        }
        return Ok(true);
    }
    Ok(false)
}

/// A code for a new address is delivered only where no user has that
/// address yet; otherwise it is dropped and the request still succeeds.
pub fn delivers_change_code(new_email_taken: bool) -> (r: bool)
    ensures
        r == !new_email_taken,
{
    !new_email_taken
}

/// One turn of a password reset whose address is valid.
#[derive(Debug, PartialEq, Eq)]
pub enum ResetStep {
    /// Answer with a refusal.
    Refuse(OtpRefusal),
    /// Check the submitted code against the kept one.
    CheckCode,
    /// The code check refused the code; its own answer is sent.
    CodeRejected,
    /// Look the user up by address.
    FindUser,
    /// Set the new password (on the credential account, made if missing),
    /// and mark the address verified where it is not.
    SetPassword { mark_verified: bool },
}

/// The decision of a password reset: the length bounds first, then the
/// code, then the user. `code_accepted` and `user_verified` are the answers
/// of the code check and of the user look-up, where they were made.
pub open spec fn reset_decision(
    password_len: usize,
    min_length: usize,
    max_length: usize,
    code_accepted: Option<bool>,
    user_verified: Option<Option<bool>>,
) -> ResetStep {
    if password_len < min_length {
        ResetStep::Refuse(OtpRefusal::PasswordTooShort)
    } else if password_len > max_length {
        ResetStep::Refuse(OtpRefusal::PasswordTooLong)
    } else {
        match code_accepted {
            None => ResetStep::CheckCode,
            Some(false) => ResetStep::CodeRejected,
            Some(true) => match user_verified {
                None => ResetStep::FindUser,
                Some(None) => ResetStep::Refuse(OtpRefusal::UserNotFound),
                Some(Some(verified)) => ResetStep::SetPassword { mark_verified: !verified },
            },
        }
    }
}

/// Decides the next turn of a password reset.
pub fn decide_reset_password(
    password: &str,
    min_length: usize,
    max_length: usize,
    code_accepted: Option<bool>,
    user_verified: Option<Option<bool>>,
) -> (r: ResetStep)
    ensures
        r == reset_decision(password.len(), min_length, max_length, code_accepted, user_verified),
{
    match check_password_length(password, min_length, max_length) {
        Err(e) => ResetStep::Refuse(e),
        Ok(()) => match code_accepted {
            None => ResetStep::CheckCode,
            Some(false) => ResetStep::CodeRejected,
            Some(true) => match user_verified {
                None => ResetStep::FindUser,
                Some(None) => ResetStep::Refuse(OtpRefusal::UserNotFound),
                Some(Some(verified)) => ResetStep::SetPassword { mark_verified: !verified },
            },
        },
    }
}

/// A password of the wrong length is refused before the code is looked at:
/// whatever the code and user checks would say, the answer is the length
/// refusal, so the kept code and its attempt count are left alone.
pub proof fn law_password_length_refused_before_code(
    password_len: usize,
    min_length: usize,
    max_length: usize,
    code_accepted: Option<bool>,
    user_verified: Option<Option<bool>>,
)
    requires
        password_len < min_length || password_len > max_length,
    ensures
        reset_decision(password_len, min_length, max_length, code_accepted, user_verified)
            == reset_decision(password_len, min_length, max_length, None, None),
        reset_decision(password_len, min_length, max_length, code_accepted, user_verified) is Refuse,
{
}

/// What happens to a code issued by a send, reset or change-of-address
/// request.
#[derive(Debug, PartialEq, Eq)]
pub enum CodeRequestEffect {
    /// The code is sent by e-mail.
    Deliver,
    /// The code's verification entry is deleted and nothing is sent.
    Discard { identifier: String },
}

/// The answer to such a request.
#[derive(Debug, Clone, Copy, PartialEq, Eq, Structural)]
pub enum CodeRequestAnswer {
    /// `{ "success": true }`.
    Success,
}

/// The answer to a code request, given whether its code is delivered.
pub open spec fn code_request_answer(delivered: bool) -> CodeRequestAnswer {
    CodeRequestAnswer::Success
}

/// What a code request does with its code, and its answer: a delivered
/// code is sent; any other has its verification entry (under `identifier`)
/// deleted. Either way the request succeeds.
pub fn code_request_effect(delivered: bool, identifier: &str) -> (r: (CodeRequestEffect, CodeRequestAnswer))
    ensures
        delivered ==> r.0 == CodeRequestEffect::Deliver,
        !delivered ==> (r.0 matches CodeRequestEffect::Discard { identifier: id } && id@ == identifier@),
        r.1 == code_request_answer(delivered),
{
    if delivered {
        (CodeRequestEffect::Deliver, CodeRequestAnswer::Success)
    } else {
        (CodeRequestEffect::Discard { identifier: identifier.to_owned() }, CodeRequestAnswer::Success)
    }
}

/// A code request answers the same whether or not its code is delivered, so
/// the answer does not tell whether an account has the address.
pub proof fn law_code_request_answer_hides_account()
    ensures
        code_request_answer(true) == code_request_answer(false),
{
}

/// What a change-of-address request has learnt so far.
#[derive(Debug)]
pub struct EmailChangeFacts {
    /// The new address after the address check: `None` where it was refused
    /// (the check's own answer is sent).
    pub new_email: Option<String>,
    /// The signed-in user's normalized address: `None` if not asked yet,
    /// `Some(None)` where authentication refused the request.
    pub current_email: Option<Option<String>>,
    /// Whether the request carries a code for the current address.
    pub current_otp_given: bool,
    /// The check of that code, where it was made.
    pub current_code_accepted: Option<bool>,
    /// Whether the code for the new address has been issued and kept.
    pub code_issued: bool,
    /// Whether a user already has the new address, where looked up.
    pub new_email_taken: Option<bool>,
}

/// One turn of a change-of-address request.
#[derive(Debug, PartialEq, Eq)]
pub enum EmailChangeStep {
    Refuse(OtpRefusal),
    /// The address check refused the new address; its answer is sent.
    InvalidEmail,
    /// Authenticate the caller.
    Authenticate,
    /// Authentication refused the caller; its answer is sent.
    AuthRejected,
    /// Check the code for the current address under this identifier.
    CheckCurrentCode { identifier: String },
    /// That code was refused; the check's answer is sent.
    CodeRejected,
    /// Issue and keep the code for the new address under this identifier.
    IssueCode { identifier: String },
    /// Look up whether a user has the new address.
    LookUpNewAddress,
    /// Send the code to the new address.
    Deliver,
    /// Delete the code's verification entry and send nothing.
    Discard { identifier: String },
}

/// A change-of-address step as plain values.
pub enum EmailChangeVerdict {
    Refuse(OtpRefusal),
    InvalidEmail,
    Authenticate,
    AuthRejected,
    CheckCurrentCode(Seq<char>),
    CodeRejected,
    IssueCode(Seq<char>),
    LookUpNewAddress,
    Deliver,
    Discard(Seq<char>),
}

impl View for EmailChangeStep {
    type V = EmailChangeVerdict;

    open spec fn view(&self) -> EmailChangeVerdict {
        match self {
            EmailChangeStep::Refuse(r) => EmailChangeVerdict::Refuse(*r),
            EmailChangeStep::InvalidEmail => EmailChangeVerdict::InvalidEmail,
            EmailChangeStep::Authenticate => EmailChangeVerdict::Authenticate,
            EmailChangeStep::AuthRejected => EmailChangeVerdict::AuthRejected,
            EmailChangeStep::CheckCurrentCode { identifier } => EmailChangeVerdict::CheckCurrentCode(identifier@),
            EmailChangeStep::CodeRejected => EmailChangeVerdict::CodeRejected,
            EmailChangeStep::IssueCode { identifier } => EmailChangeVerdict::IssueCode(identifier@),
            EmailChangeStep::LookUpNewAddress => EmailChangeVerdict::LookUpNewAddress,
            EmailChangeStep::Deliver => EmailChangeVerdict::Deliver,
            EmailChangeStep::Discard { identifier } => EmailChangeVerdict::Discard(identifier@),
        }
    }
}

/// The decision of a change-of-address request, in the order of its checks:
/// the flow enabled, the new address valid, the caller authenticated, the
/// address changed, the current address confirmed where required; then the
/// code is issued, and sent unless a user already has the new address.
pub open spec fn email_change_decision(
    enabled: bool,
    verify_current_email: bool,
    facts: EmailChangeFacts,
) -> EmailChangeVerdict {
    if !enabled {
        EmailChangeVerdict::Refuse(OtpRefusal::ChangeEmailDisabled)
    } else {
        match facts.new_email {
            None => EmailChangeVerdict::InvalidEmail,
            Some(ne) => match facts.current_email {
                None => EmailChangeVerdict::Authenticate,
                Some(None) => EmailChangeVerdict::AuthRejected,
                Some(Some(cur)) => if ne@ == cur@ {
                    EmailChangeVerdict::Refuse(OtpRefusal::EmailIsTheSame)
                } else if verify_current_email && !facts.current_otp_given {
                    EmailChangeVerdict::Refuse(OtpRefusal::OtpRequired)
                } else if verify_current_email && facts.current_code_accepted is None {
                    EmailChangeVerdict::CheckCurrentCode(
                        otp_identifier(EmailOtpType::EmailVerification, cur@),
                    )
                } else if verify_current_email && facts.current_code_accepted == Some(false) {
                    EmailChangeVerdict::CodeRejected
                } else if !facts.code_issued {
                    EmailChangeVerdict::IssueCode(change_email_otp_identifier(cur@, ne@))
                } else {
                    match facts.new_email_taken {
                        None => EmailChangeVerdict::LookUpNewAddress,
                        Some(true) => EmailChangeVerdict::Discard(
                            change_email_otp_identifier(cur@, ne@),
                        ),
                        Some(false) => EmailChangeVerdict::Deliver,
                    }
                },
            },
        }
    }
}

/// Decides the next turn of a change-of-address request.
pub fn decide_request_email_change(options: &EmailOtpOptions, facts: &EmailChangeFacts) -> (r: EmailChangeStep)
    ensures
        r@ == email_change_decision(
            options.change_email.enabled,
            options.change_email.verify_current_email,
            *facts,
        ),
{
    if !options.change_email.enabled {
        return EmailChangeStep::Refuse(OtpRefusal::ChangeEmailDisabled);
    }
    let ne = match &facts.new_email {
        None => return EmailChangeStep::InvalidEmail,
        Some(ne) => ne,
    };
    let cur = match &facts.current_email {
        None => return EmailChangeStep::Authenticate,
        Some(None) => return EmailChangeStep::AuthRejected,
        Some(Some(cur)) => cur,
    };
    if str_eq(ne.as_str(), cur.as_str()) {
        return EmailChangeStep::Refuse(OtpRefusal::EmailIsTheSame);
    }
    let verify = options.change_email.verify_current_email;
    if verify && !facts.current_otp_given {
        return EmailChangeStep::Refuse(OtpRefusal::OtpRequired);
    }
    if verify {
        match facts.current_code_accepted {
            None => {
                return EmailChangeStep::CheckCurrentCode {
                    identifier: identifier(EmailOtpType::EmailVerification, cur.as_str()),
                };
            },
            Some(false) => return EmailChangeStep::CodeRejected,
            Some(true) => {},
        }
    }
    if !facts.code_issued {
        return EmailChangeStep::IssueCode {
            identifier: change_email_identifier(cur.as_str(), ne.as_str()),
        };
    }
    match facts.new_email_taken {
        None => EmailChangeStep::LookUpNewAddress,
        Some(true) => EmailChangeStep::Discard {
            identifier: change_email_identifier(cur.as_str(), ne.as_str()),
        },
        Some(false) => EmailChangeStep::Deliver,
    }
}

/// A change-of-address request issues its code only once every check has
/// passed: the flow is enabled, the new address is valid and differs from
/// the caller's, and the current address is confirmed where that is
/// required. So a refused request produces no code.
pub proof fn law_email_change_issues_code_only_after_checks(
    enabled: bool,
    verify_current_email: bool,
    facts: EmailChangeFacts,
)
    requires
        email_change_decision(enabled, verify_current_email, facts) is IssueCode,
    ensures
        enabled,
        facts.new_email matches Some(ne) && facts.current_email matches Some(Some(cur)) && ne@ != cur@,
        verify_current_email ==> facts.current_otp_given && facts.current_code_accepted == Some(true),
        !facts.code_issued,
{
}

/// With sign-up by code closed, no code is delivered to an address that no
/// user has, and such a sign-in is refused.
pub proof fn law_closed_sign_up_reaches_no_stranger(otp_type: EmailOtpType)
    ensures
        !code_delivered(otp_type, false, true),
        code_delivered(otp_type, true, true),
{
}

} // verus!
