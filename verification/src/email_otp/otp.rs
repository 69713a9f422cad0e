//! Identifiers, generation, storage and the `code:attempts` record of
//! e-mail one-time codes.

use vstd::prelude::*;
use vstd::utf8::{encode_utf8, encode_utf8_decode_utf8};

use super::{otp_type_name, EmailOtpGenerator, EmailOtpOptions, EmailOtpType, OtpStorage};
use crate::crypto::{
    base64_url_no_pad, base64_url_no_pad_of, constant_time_equal, os_random_bytes, sha256,
    sha256_of, url_safe_base64_char,
};
use crate::text::{
    chars_of, decimal, digit_char, find_first, find_last, first_index_of, last_index_of,
    lowercase_of, parse_u32, parse_u32_chars, push_all, push_str, string_of, string_of_range,
    to_lowercase, trim, trim_chars, u32_to_decimal,
};

verus! {

/// A stored code split into the code and the number of failed attempts.
#[derive(Debug, Clone, PartialEq, Eq)]
pub struct StoredOtpParts {
    pub value: String,
    pub attempts: u32,
}

/// The normal form of an address: surrounding white space removed, then
/// lowered.
pub open spec fn normalized_email(email: Seq<char>) -> Seq<char> {
    lowercase_of(trim(email))
}

/// The verification-store key of a code of kind `t` sent to `email`.
pub open spec fn otp_identifier(t: EmailOtpType, email: Seq<char>) -> Seq<char> {
    otp_type_name(t) + "-otp-"@ + normalized_email(email)
}

/// The key of a change-of-address code from `current` to `new`.
pub open spec fn change_email_otp_identifier(current: Seq<char>, new: Seq<char>) -> Seq<char> {
    otp_identifier(
        EmailOtpType::ChangeEmail,
        normalized_email(current) + "-"@ + normalized_email(new),
    )
}

/// The address check of the plugin: after trimming, a non-empty part before
/// the first `@`, and a domain after it that holds a `.` but neither starts
/// nor ends with one.
pub open spec fn otp_email_is_valid(email: Seq<char>) -> bool {
    let t = trim(email);
    match first_index_of(t, '@') {
        None => false,
        Some(i) => {
            let local = t.take(i);
            let domain = t.skip(i + 1);
            &&& local.len() > 0
            &&& domain.contains('.')
            &&& domain[0] != '.'
            &&& domain.last() != '.'
        },
    }
}

/// The digits that the built-in generator makes of random bytes: each byte
/// modulo ten.
pub open spec fn otp_digits(bytes: Seq<u8>) -> Seq<char> {
    bytes.map_values(|b: u8| digit_char((b % 10) as nat))
}

/// The hashed form of a code: URL-safe unpadded base64 of the SHA-256 digest
/// of its UTF-8 bytes.
pub open spec fn hashed_otp(otp: Seq<char>) -> Seq<char> {
    base64_url_no_pad_of(sha256_of(encode_utf8(otp)))
}

/// The form in which a code is kept, given the storage option.
pub open spec fn stored_otp(storage: OtpStorage, otp: Seq<char>) -> Seq<char> {
    match storage {
        OtpStorage::Plain => otp,
        OtpStorage::Hashed => hashed_otp(otp),
    }
}

/// Whether `provided` matches the kept form `stored`.
pub open spec fn otp_matches(storage: OtpStorage, stored: Seq<char>, provided: Seq<char>) -> bool {
    match storage {
        OtpStorage::Plain => stored == provided,
        OtpStorage::Hashed => hashed_otp(provided) == stored,
    }
}

/// The record kept for a code: the kept form, a colon, the attempt count.
pub open spec fn encoded_otp_value(stored: Seq<char>, attempts: u32) -> Seq<char> {
    stored + ":"@ + decimal(attempts as nat)
}

/// How a record splits: at the last colon into the code and the count, the
/// count reading as 0 when it does not parse; without a colon, the whole
/// record with 0 attempts.
pub open spec fn split_otp_value(value: Seq<char>) -> (Seq<char>, u32) {
    match last_index_of(value, ':') {
        None => (value, 0),
        Some(i) => (
            value.take(i),
            match parse_u32(value.skip(i + 1)) {
                Some(n) => n,
                None => 0,
            },
        ),
    }
}

/// The normal form of an address.
pub fn normalize_email(email: &str) -> (r: String)
    ensures
        r@ == normalized_email(email@),
{
    let chars = chars_of(email);
    let trimmed = trim_chars(&chars);
    let t = string_of(&trimmed);
    to_lowercase(t.as_str())
}

/// The verification-store key of a code of kind `otp_type` sent to `email`.
pub fn identifier(otp_type: EmailOtpType, email: &str) -> (r: String)
    ensures
        r@ == otp_identifier(otp_type, email@),
{
    let mut r = String::new();
    push_str(&mut r, otp_type.as_str());
    push_str(&mut r, "-otp-");
    let normalized = normalize_email(email);
    push_str(&mut r, normalized.as_str());
    assert(r@ == Seq::<char>::empty() + otp_type_name(otp_type) + "-otp-"@ + normalized@);
    assert(Seq::<char>::empty() + otp_type_name(otp_type) == otp_type_name(otp_type));
    r
}

/// The key of a change-of-address code from `current_email` to `new_email`.
pub fn change_email_identifier(current_email: &str, new_email: &str) -> (r: String)
    ensures
        r@ == change_email_otp_identifier(current_email@, new_email@),
{
    let mut joined = normalize_email(current_email);
    push_str(&mut joined, "-");
    let normalized_new = normalize_email(new_email);
    push_str(&mut joined, normalized_new.as_str());
    identifier(EmailOtpType::ChangeEmail, joined.as_str())
}

/// Whether `email` passes the plugin's address check.
pub fn valid_email(email: &str) -> (r: bool)
    ensures
        r == otp_email_is_valid(email@),
{
    let chars = chars_of(email);
    let t = trim_chars(&chars);
    let at = match find_first(&t, '@') {
        None => {
            return false;
        },
        Some(i) => i,
    };
    let local_len = at;
    let lo = at + 1;
    let n = t.len();
    let ghost domain = t@.skip(lo as int);
    let mut has_dot = false;
    let mut k: usize = lo;
    while k < n
        invariant
            lo <= k <= n == t.len(),
            domain == t@.skip(lo as int),
            has_dot == exists|j: int| lo <= j < k && t@[j] == '.',
        decreases n - k,
    {
        if t[k] == '.' {
            has_dot = true;
        }
        k += 1;
    }
    proof {
        if has_dot {
            let j = choose|j: int| lo <= j < n && t@[j] == '.';
            assert(domain[j - lo] == '.');
        } else {
            if domain.contains('.') {
                let j = choose|j: int| 0 <= j < domain.len() && domain[j] == '.';
                assert(t@[j + lo] == '.');
            }
        }
    }
    if local_len == 0 || !has_dot {
        assert(t@.take(at as int).len() == local_len);
        return false;
    }
    assert(domain[0] == t@[lo as int]);
    assert(domain.last() == t@[n - 1]);
    t[lo] != '.' && t[n - 1] != '.'
}

/// The digits the built-in generator makes of `bytes`.
pub fn numeric_otp_from_bytes(bytes: &[u8]) -> (r: String)
    ensures
        r@ == otp_digits(bytes@),
{
    let mut digits: Vec<char> = Vec::new();
    let mut i: usize = 0;
    while i < bytes.len()
        invariant
            i <= bytes.len(),
            digits@ == otp_digits(bytes@.take(i as int)),
        decreases bytes.len() - i,
    {
        let d: u8 = bytes[i] % 10;
        let c = ((d + 48) as u8) as char;
        digits.push(c);
        assert(otp_digits(bytes@.take(i as int)).push(c) == otp_digits(
            bytes@.take(i as int + 1),
        ));
        i += 1;
    }
    assert(bytes@.take(bytes.len() as int) == bytes@);
    string_of(&digits)
}

/// A code that could not be made: the operating system's random source
/// failed.
#[derive(Debug, Clone, Copy, PartialEq, Eq, Structural)]
pub enum OtpGenerationError {
    RandomSourceUnavailable,
}

/// A code of `length` random decimal digits; an error where the random
/// source fails.
pub fn generate_numeric(length: usize) -> (r: Result<String, OtpGenerationError>)
    ensures
        r matches Ok(s) ==> exists|bytes: Seq<u8>| bytes.len() == length && s@ == otp_digits(bytes),
        r matches Err(e) ==> e == OtpGenerationError::RandomSourceUnavailable,
{
    match os_random_bytes(length) {
        Some(random) => Ok(numeric_otp_from_bytes(random.as_slice())),
        None => Err(OtpGenerationError::RandomSourceUnavailable),
    }
}

/// A fresh code for `email`: the user-supplied generator's code when one is
/// given, otherwise `options.otp_length` random decimal digits (an error
/// where the random source fails).
pub fn generate<G: EmailOtpGenerator>(
    options: &EmailOtpOptions,
    generator: Option<&G>,
    email: &str,
    otp_type: EmailOtpType,
) -> (r: Result<String, OtpGenerationError>)
    ensures
        generator is None ==> (r matches Ok(s) ==> exists|bytes: Seq<u8>|
            bytes.len() == options.otp_length && s@ == otp_digits(bytes)),
        generator is None ==> (r matches Err(e) ==> e == OtpGenerationError::RandomSourceUnavailable),
        generator matches Some(g) ==> (r matches Ok(s) && s@ == g.generated(email@, otp_type, options.otp_length)),
{
    match generator {
        Some(g) => Ok(g.generate_otp(email, otp_type, options.otp_length)),
        None => generate_numeric(options.otp_length),
    }
}

fn hash_otp(otp: &str) -> (r: String)
    ensures
        r@ == hashed_otp(otp@),
        r@.len() == 43,
        forall|i: int| 0 <= i < r@.len() ==> url_safe_base64_char(#[trigger] r@[i]),
        forall|other: Seq<u8>| #[trigger] base64_url_no_pad_of(other) == r@ ==> other == sha256_of(
            encode_utf8(otp@),
        ),
{
    let digest = sha256(otp.as_bytes());
    base64_url_no_pad(digest.as_slice())
}

/// The form in which `otp` is kept under the configured storage.
pub fn store(options: &EmailOtpOptions, otp: &str) -> (r: String)
    ensures
        r@ == stored_otp(options.store_otp, otp@),
        options.store_otp == OtpStorage::Hashed ==> r@.len() == 43,
        options.store_otp == OtpStorage::Hashed ==> forall|i: int|
            0 <= i < r@.len() ==> url_safe_base64_char(#[trigger] r@[i]),
{
    match options.store_otp {
        OtpStorage::Plain => otp.to_owned(),
        OtpStorage::Hashed => hash_otp(otp),
    }
}

/// Whether the code `provided` matches the kept form `stored`, compared in
/// constant time.
pub fn verify(options: &EmailOtpOptions, stored: &str, provided: &str) -> (r: bool)
    ensures
        r == otp_matches(options.store_otp, stored@, provided@),
        options.store_otp == OtpStorage::Hashed ==> forall|x: Seq<char>|
            stored@ == #[trigger] hashed_otp(x) ==> (r <==> sha256_of(encode_utf8(provided@))
                == sha256_of(encode_utf8(x))),
{
    proof {
        encode_utf8_decode_utf8(stored@);
        encode_utf8_decode_utf8(provided@);
    }
    match options.store_otp {
        OtpStorage::Plain => constant_time_equal(stored.as_bytes(), provided.as_bytes()),
        OtpStorage::Hashed => {
            let hashed = hash_otp(provided);
            proof {
                encode_utf8_decode_utf8(hashed@);
            }
            constant_time_equal(hashed.as_str().as_bytes(), stored.as_bytes())
        },
    }
}

/// The kept code itself, when codes are kept in plain form and may be sent
/// again.
pub fn reusable_plain_otp(options: &EmailOtpOptions, parts: &StoredOtpParts) -> (r: Option<
    String,
>)
    ensures
        options.store_otp == OtpStorage::Plain ==> (r matches Some(v) && v@ == parts.value@),
        options.store_otp != OtpStorage::Plain ==> r is None,
{
    match options.store_otp {
        OtpStorage::Plain => Some(parts.value.clone()),
        OtpStorage::Hashed => None,
    }
}

/// The record kept for a code and its attempt count.
pub fn encode_value(stored_otp: &str, attempts: u32) -> (r: String)
    ensures
        r@ == encoded_otp_value(stored_otp@, attempts),
{
    let mut r = String::new();
    push_str(&mut r, stored_otp);
    push_str(&mut r, ":");
    let digits = u32_to_decimal(attempts);
    push_all(&mut r, &digits);
    assert(Seq::<char>::empty() + stored_otp@ == stored_otp@);
    r
}

/// Splits a kept record into the code and its attempt count.
pub fn split_value(value: &str) -> (r: StoredOtpParts)
    ensures
        (r.value@, r.attempts) == split_otp_value(value@),
{
    let chars = chars_of(value);
    match find_last(&chars, ':') {
        None => StoredOtpParts { value: value.to_owned(), attempts: 0 },
        Some(i) => {
            let otp = string_of_range(&chars, 0, i);
            assert(chars@.subrange(0, i as int) == chars@.take(i as int));
            let mut tail: Vec<char> = Vec::new();
            let mut k: usize = i + 1;
            while k < chars.len()
                invariant
                    i + 1 <= k <= chars.len(),
                    tail@ == chars@.subrange(i + 1, k as int),
                decreases chars.len() - k,
            {
                tail.push(chars[k]);
                assert(chars@.subrange(i + 1, k as int).push(chars@[k as int])
                    == chars@.subrange(i + 1, k as int + 1));
                k += 1;
            }
            assert(tail@ == chars@.skip(i + 1));
            let attempts = match parse_u32_chars(&tail) {
                Some(n) => n,
                None => 0,
            };
            StoredOtpParts { value: otp, attempts }
        },
    }
}

/// Error of the plugin's settings.
#[derive(Debug, Clone, PartialEq, Eq)]
pub enum EmailOtpConfigError {
    InvalidConfig(String),
}

/// The duration type of the `time` crate (`time::Duration` names it).
#[verifier::external_type_specification]
#[verifier::external_body]
pub struct ExSignedDuration(time::SignedDuration);

/// Name for the duration that `time::Duration::seconds` makes of a number
/// of seconds.
pub uninterp spec fn duration_of_seconds(seconds: i64) -> time::Duration;

/// `time::Duration::seconds`: the duration of `seconds` whole seconds. The
/// contract names the result `duration_of_seconds(seconds)`; it depends on
/// the argument alone.
#[verifier::external_body]
fn duration_from_seconds(seconds: i64) -> (r: time::Duration)
    ensures
        r == duration_of_seconds(seconds),
{
    time::Duration::seconds(seconds)
}

/// The lifetime of a code as a duration; an error when the number of seconds
/// does not fit in an `i64`.
pub fn seconds_to_duration(seconds: u64) -> (r: Result<time::Duration, EmailOtpConfigError>)
    ensures
        r is Ok <==> seconds <= i64::MAX,
        r matches Ok(d) ==> d == duration_of_seconds(seconds as i64),
        r matches Err(EmailOtpConfigError::InvalidConfig(m)) ==> m@
            == "email OTP expiry is too large"@,
{
    if seconds > 0x7fff_ffff_ffff_ffff {
        return Err(EmailOtpConfigError::InvalidConfig("email OTP expiry is too large".to_owned()));
    }
    Ok(duration_from_seconds(seconds as i64))
}

/// A kept code always matches the code it was made from.
pub proof fn law_stored_code_verifies(storage: OtpStorage, otp: Seq<char>)
    ensures
        otp_matches(storage, stored_otp(storage, otp), otp),
{
}

/// With plain storage, a code matches exactly itself.
pub proof fn law_plain_code_matches_only_itself(stored: Seq<char>, provided: Seq<char>)
    ensures
        otp_matches(OtpStorage::Plain, stored, provided) <==> stored == provided,
{
}

/// Splitting a record gives back the code and count it was encoded from.
pub proof fn law_split_inverts_encode(stored: Seq<char>, attempts: u32)
    ensures
        split_otp_value(encoded_otp_value(stored, attempts)) == (stored, attempts),
{
    reveal_strlit(":");
    let d = decimal(attempts as nat);
    crate::text::lemma_decimal_digits(attempts as nat);
    crate::text::lemma_decimal_parses(attempts);
    let v = encoded_otp_value(stored, attempts);
    let p = stored.len() as int;
    assert(v[p] == ':');
    assert forall|j: int| p < j < v.len() implies v[j] != ':' by {
        assert(v[j] == d[j - p - 1]);
        assert(crate::text::is_ascii_digit(d[j - p - 1]));
    }
    assert(exists|i: int| 0 <= i < v.len() && v[i] == ':');
    let k = choose|i: int| 0 <= i < v.len() && v[i] == ':' && forall|j: int| i < j < v.len() ==> v[j] != ':';
    if k < p {
        assert(v[p] != ':');
    }
    if k > p {
        assert(v[k] != ':');
    }
    assert(v.take(p) =~= stored);
    assert(v.skip(p + 1) =~= d);
}

/// Codes of different kinds, or for addresses with different normal forms,
/// never share a key.
pub proof fn law_identifier_separates_kinds(t1: EmailOtpType, t2: EmailOtpType, e1: Seq<char>, e2: Seq<char>)
    requires
        t1 != t2 || normalized_email(e1) != normalized_email(e2),
    ensures
        otp_identifier(t1, e1) != otp_identifier(t2, e2),
{
    reveal_strlit("sign-in");
    reveal_strlit("email-verification");
    reveal_strlit("forget-password");
    reveal_strlit("change-email");
    reveal_strlit("-otp-");
    let a = otp_identifier(t1, e1);
    let b = otp_identifier(t2, e2);
    if t1 != t2 {
        let n1 = otp_type_name(t1);
        let n2 = otp_type_name(t2);
        if a == b {
            lemma_kind_prefix_determines(t1, t2, e1, e2);
        }
    } else {
        let pre = otp_type_name(t1) + "-otp-"@;
        if a == b {
            assert(a.skip(pre.len() as int) =~= normalized_email(e1));
            assert(b.skip(pre.len() as int) =~= normalized_email(e2));
        }
    }
}

proof fn lemma_kind_prefix_determines(t1: EmailOtpType, t2: EmailOtpType, e1: Seq<char>, e2: Seq<char>)
    requires
        otp_identifier(t1, e1) == otp_identifier(t2, e2),
    ensures
        t1 == t2,
{
    reveal_strlit("sign-in");
    reveal_strlit("email-verification");
    reveal_strlit("forget-password");
    reveal_strlit("change-email");
    reveal_strlit("-otp-");
    let a = otp_identifier(t1, e1);
    let b = otp_identifier(t2, e2);
    assert(a[0] == b[0]);
    assert(a[1] == b[1]);
    assert(a[2] == b[2]);
}

} // verus!
