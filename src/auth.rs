use vstd::prelude::*;
use vstd::string::{StrSliceExecFns, StringExecFns};
use vstd::utf8::encode_utf8;
use crate::errors::{is_bad_request, AppError};
use argon2::{PasswordHasher, PasswordVerifier};

verus! {

/// An ASCII letter.
pub open spec fn is_letter(c: char) -> bool {
    ('a' <= c && c <= 'z') || ('A' <= c && c <= 'Z')
}

pub open spec fn is_upper(c: char) -> bool {
    'A' <= c && c <= 'Z'
}

pub open spec fn is_lower(c: char) -> bool {
    'a' <= c && c <= 'z'
}

/// An ASCII digit.
pub open spec fn is_digit(c: char) -> bool {
    '0' <= c && c <= '9'
}

/// The separators a username may hold between its ends.
pub open spec fn is_special(c: char) -> bool {
    c == '.' || c == '_' || c == '-'
}

/// The characters at `i` and `i + 1` are both separators.
pub open spec fn special_pair_at(s: Seq<char>, i: int) -> bool {
    0 <= i && i + 1 < s.len() && is_special(s[i]) && is_special(s[i + 1])
}

/// Two separators stand side by side somewhere in `s`.
pub open spec fn has_special_run(s: Seq<char>) -> bool {
    exists|i: int| #[trigger] special_pair_at(s, i)
}

/// A symbol: neither an ASCII letter nor an ASCII digit.
pub open spec fn is_symbol(c: char) -> bool {
    !is_letter(c) && !is_digit(c)
}

pub open spec fn has_upper(s: Seq<char>) -> bool {
    exists|i: int| 0 <= i < s.len() && #[trigger] is_upper(s[i])
}

pub open spec fn has_lower(s: Seq<char>) -> bool {
    exists|i: int| 0 <= i < s.len() && #[trigger] is_lower(s[i])
}

pub open spec fn has_digit(s: Seq<char>) -> bool {
    exists|i: int| 0 <= i < s.len() && #[trigger] is_digit(s[i])
}

pub open spec fn has_symbol(s: Seq<char>) -> bool {
    exists|i: int| 0 <= i < s.len() && #[trigger] is_symbol(s[i])
}

/// The password rule: at least eight bytes, and an upper-case letter, a
/// lower-case letter, a digit and a symbol each occur.
pub open spec fn strong_password(p: Seq<char>) -> bool {
    &&& encode_utf8(p).len() >= 8
    &&& has_upper(p)
    &&& has_lower(p)
    &&& has_digit(p)
    &&& has_symbol(p)
}

/// What the regex crate reports when `pattern` is compiled and matched
/// against `text`: `None` when the pattern does not compile.
pub uninterp spec fn regex_outcome(pattern: Seq<char>, text: Seq<char>) -> Option<bool>;

/// Relies on `regex::Regex::new` and `regex::Regex::is_match`: compiling is a
/// function of the pattern, and matching of the pattern and the text.
#[verifier::external_body]
fn regex_match(pattern: &str, text: &str) -> (r: Option<bool>)
    ensures
        r == regex_outcome(pattern@, text@),
{
    match regex::Regex::new(pattern) {
        Ok(re) => Some(re.is_match(text)),
        Err(_) => None,
    }
}

/// Whether any two neighbouring characters of `s` are both separators.
pub fn has_consecutive_specials(s: &str) -> (r: bool)
    ensures
        r == has_special_run(s@),
{
    let n = s.unicode_len();
    if n < 2 {
        return false;
    }
    let mut i: usize = 0;
    while i + 1 < n
        invariant
            n == s@.len(),
            n >= 2,
            i + 1 <= n,
            forall|j: int| 0 <= j < i ==> !#[trigger] special_pair_at(s@, j),
        decreases n - i,
    {
        let a = s.get_char(i);
        let b = s.get_char(i + 1);
        if (a == '.' || a == '_' || a == '-') && (b == '.' || b == '_' || b == '-') {
            assert(special_pair_at(s@, i as int));
            return true;
        }
        i += 1;
    }
    false
}

/// Whether some character of `s` satisfies each of the four classes: an
/// upper-case letter, a lower-case letter, a digit, a symbol.
fn character_classes(s: &str) -> (r: (bool, bool, bool, bool))
    ensures
        r.0 == has_upper(s@),
        r.1 == has_lower(s@),
        r.2 == has_digit(s@),
        r.3 == has_symbol(s@),
{
    let n = s.unicode_len();
    let mut upper = false;
    let mut lower = false;
    let mut digit = false;
    let mut symbol = false;
    let mut i: usize = 0;
    while i < n
        invariant
            n == s@.len(),
            i <= n,
            upper <==> exists|j: int| 0 <= j < i && #[trigger] is_upper(s@[j]),
            lower <==> exists|j: int| 0 <= j < i && #[trigger] is_lower(s@[j]),
            digit <==> exists|j: int| 0 <= j < i && #[trigger] is_digit(s@[j]),
            symbol <==> exists|j: int| 0 <= j < i && #[trigger] is_symbol(s@[j]),
        decreases n - i,
    {
        let c = s.get_char(i);
        let u = 'A' <= c && c <= 'Z';
        let l = 'a' <= c && c <= 'z';
        let d = '0' <= c && c <= '9';
        proof {
            assert(s@[i as int] == c);
            if u {
                assert(is_upper(s@[i as int]));
            }
            if l {
                assert(is_lower(s@[i as int]));
            }
            if d {
                assert(is_digit(s@[i as int]));
            }
            if !u && !l && !d {
                assert(is_symbol(s@[i as int]));
            }
        }
        upper = upper || u;
        lower = lower || l;
        digit = digit || d;
        symbol = symbol || (!u && !l && !d);
        i += 1;
    }
    (upper, lower, digit, symbol)
}

/// Checks the password rule: at least eight bytes long, with an upper-case
/// letter, a lower-case letter, a digit and a symbol. All four classes are
/// required together.
pub fn validate_password_strength(password: &str) -> (r: Result<(), AppError>)
    ensures
        r is Ok <==> strong_password(password@),
        r is Err ==> is_bad_request(r->Err_0, password_rule_message()),
{
    let long_enough = password.as_bytes().len() >= 8;
    let (upper, lower, digit, symbol) = character_classes(password);
    let is_valid = long_enough && upper && lower && digit && symbol;
    if !is_valid {
        return Err(AppError::BadRequest(String::from_str(
            "Password must be at least 8 characters long, contain upper and lower case letters, a digit, and a special character",
        )));
    }
    Ok(())
}

pub open spec fn password_rule_message() -> Seq<char> {
    "Password must be at least 8 characters long, contain upper and lower case letters, a digit, and a special character"@
}

/// The shape a username must have, as a regular expression: a letter, then
/// one to eighteen letters, digits or separators, then a letter or digit.
pub open spec fn username_pattern() -> Seq<char> {
    "^[a-zA-Z][a-zA-Z0-9._-]{1,18}[a-zA-Z0-9]$"@
}

pub open spec fn format_message() -> Seq<char> {
    "Invalid username format."@
}

pub open spec fn run_message() -> Seq<char> {
    "Username cannot have consecutive special characters."@
}

/// The username rule once the shape test is done: `shape_matches` tells
/// whether the username had the required shape. A username without it is
/// refused first; one with two neighbouring separators is refused next.
pub fn check_username(shape_matches: bool, username: &str) -> (r: Result<(), AppError>)
    ensures
        r is Ok <==> shape_matches && !has_special_run(username@),
        !shape_matches ==> r is Err && is_bad_request(r->Err_0, format_message()),
        shape_matches && has_special_run(username@) ==> r is Err && is_bad_request(
            r->Err_0,
            run_message(),
        ),
{
    if !shape_matches {
        return Err(AppError::BadRequest(String::from_str("Invalid username format.")));
    }
    if has_consecutive_specials(username) {
        return Err(
            AppError::BadRequest(
                String::from_str("Username cannot have consecutive special characters."),
            ),
        );
    }
    Ok(())
}

/// Checks a username: it must have the shape of `username_pattern` (a
/// pattern that does not compile counts as no match), and no two separators
/// may stand side by side.
pub fn validate_username(username: &str) -> (r: Result<(), AppError>)
    ensures
        r is Ok <==> regex_outcome(username_pattern(), username@) == Some(true)
            && !has_special_run(username@),
        has_special_run(username@) ==> r is Err,
        r is Err ==> r->Err_0 is BadRequest,
        regex_outcome(username_pattern(), username@) != Some(true) ==> is_bad_request(
            r->Err_0,
            format_message(),
        ),
        regex_outcome(username_pattern(), username@) == Some(true) && has_special_run(username@)
            ==> is_bad_request(r->Err_0, run_message()),
{
    let shape = regex_match("^[a-zA-Z][a-zA-Z0-9._-]{1,18}[a-zA-Z0-9]$", username);
    let shape_matches = match shape {
        Some(b) => b,
        None => false,
    };
    check_username(shape_matches, username)
}

/// What the argon2 crate decides for a stored hash string and a candidate
/// password: `None` when the string does not parse as a PHC hash, else
/// whether verification succeeds.
pub uninterp spec fn argon2_check(hash: Seq<char>, password: Seq<char>) -> Option<bool>;

/// Relies on `password_hash::PasswordHash::new` to parse the stored string,
/// and on `argon2::Argon2`'s `verify_password` to recompute and compare; both
/// depend on their arguments alone. A parse failure hands its error back; any
/// verification error reads as `false`.
#[verifier::external_body]
fn argon2_verify(hash: &str, password: &str) -> (r: Result<bool, password_hash::Error>)
    ensures
        r is Err <==> argon2_check(hash@, password@) is None,
        r matches Ok(b) ==> argon2_check(hash@, password@) == Some(b),
{
    let parsed = match password_hash::PasswordHash::new(hash) {
        Ok(p) => p,
        Err(e) => return Err(e),
    };
    Ok(argon2::Argon2::default().verify_password(password.as_bytes(), &parsed).is_ok())
}

/// Relies on `password_hash::SaltString::generate` with `rand_core::OsRng`
/// for a fresh salt, and on `argon2::Argon2`'s `hash_password` with default
/// parameters; the PHC string form of the result is returned. The text
/// depends on the salt; what is promised is that it parses and verifies
/// against the same password.
#[verifier::external_body]
fn argon2_hash(password: &str) -> (r: Result<String, password_hash::Error>)
    ensures
        r matches Ok(h) ==> argon2_check(h@, password@) == Some(true),
{
    let salt = password_hash::SaltString::generate(&mut rand_core::OsRng);
    match argon2::Argon2::default().hash_password(password.as_bytes(), &salt) {
        Ok(h) => Ok(h.to_string()),
        Err(e) => Err(e),
    }
}

/// One-way hashing of passwords, and verification of a candidate against a
/// stored hash.
pub trait PasswordHandler {
    /// Hashes `password` with a fresh random salt; a failure of the hashing
    /// algorithm is reported as `Argon2Error`.
    fn hash_password(password: &str) -> (r: Result<String, AppError>)
        ensures
            r is Err ==> r->Err_0 is Argon2Error,
            r matches Ok(h) ==> argon2_check(h@, password@) == Some(true),
    ;

    /// Verifies `password` against `hash`: a stored string that does not
    /// parse gives `Argon2Error`, a mismatch gives `InvalidCredentials`.
    fn verify_password(hash: &str, password: &str) -> (r: Result<(), AppError>)
        ensures
            r is Ok <==> argon2_check(hash@, password@) == Some(true),
            argon2_check(hash@, password@) is None <==> r matches Err(AppError::Argon2Error(_)),
            argon2_check(hash@, password@) == Some(false) <==> r matches Err(
                AppError::InvalidCredentials,
            ),
    ;
}

#[verifier::external_type_specification]
#[verifier::external_body]
pub struct ExArgon2<'a>(argon2::Argon2<'a>);

impl<'k> PasswordHandler for argon2::Argon2<'k> {
    fn hash_password(password: &str) -> (r: Result<String, AppError>) {
        match argon2_hash(password) {
            Ok(h) => Ok(h),
            Err(e) => Err(AppError::Argon2Error(e)),
        }
    }

    fn verify_password(hash: &str, password: &str) -> (r: Result<(), AppError>) {
        match argon2_verify(hash, password) {
            Err(e) => Err(AppError::Argon2Error(e)),
            Ok(true) => Ok(()),
            Ok(false) => Err(AppError::InvalidCredentials),
        }
    }
}

} // verus!
