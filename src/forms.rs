//! Account forms and the rules they are checked against.

use vstd::prelude::*;
use crate::error::ErrorKind;

verus! {

/// Why a password is refused, checked in this order.
#[derive(Debug, Clone, Copy, PartialEq, Eq, Structural)]
pub enum PasswordWeakness {
    TooShort,
    NoLowercase,
    NoUppercase,
    NoNumber,
    NoSpecialCharacter,
}

/// A family of ASCII characters that a password must draw from.
#[derive(Debug, Clone, Copy, PartialEq, Eq, Structural)]
pub enum CharClass {
    Lowercase,
    Uppercase,
    Digit,
    /// One of `! @ # $ % ^ & * ( ) { } [ ] _ - + =`.
    Special,
}

/// Whether byte `b` belongs to `class`.
pub open spec fn in_class(b: u8, class: CharClass) -> bool {
    match class {
        CharClass::Lowercase => 97 <= b <= 122,
        CharClass::Uppercase => 65 <= b <= 90,
        CharClass::Digit => 48 <= b <= 57,
        CharClass::Special => b == 33 || b == 64 || b == 35 || b == 36 || b == 37 || b == 94 || b
            == 38 || b == 42 || b == 40 || b == 41 || b == 123 || b == 125 || b == 91 || b == 93
            || b == 95 || b == 45 || b == 43 || b == 61,
    }
}

/// Whether some byte of `s` belongs to `class`.
pub open spec fn has_class(s: Seq<u8>, class: CharClass) -> bool {
    exists|i: int| 0 <= i < s.len() && #[trigger] in_class(s[i], class)
}

/// Whether byte `b` is an ASCII letter or digit.
pub open spec fn is_alphanumeric(b: u8) -> bool {
    in_class(b, CharClass::Lowercase) || in_class(b, CharClass::Uppercase) || in_class(
        b,
        CharClass::Digit,
    )
}

fn byte_in_class(b: u8, class: CharClass) -> (r: bool)
    ensures
        r == in_class(b, class),
{
    match class {
        CharClass::Lowercase => 97 <= b && b <= 122,
        CharClass::Uppercase => 65 <= b && b <= 90,
        CharClass::Digit => 48 <= b && b <= 57,
        CharClass::Special => b == 33 || b == 64 || b == 35 || b == 36 || b == 37 || b == 94 || b
            == 38 || b == 42 || b == 40 || b == 41 || b == 123 || b == 125 || b == 91 || b == 93
            || b == 95 || b == 45 || b == 43 || b == 61,
    }
}

/// Whether some byte of `s` belongs to `class`.
pub fn contains_class(s: &[u8], class: CharClass) -> (r: bool)
    ensures
        r == has_class(s@, class),
{
    let mut i: usize = 0;
    while i < s.len()
        invariant
            i <= s@.len(),
            forall|j: int| 0 <= j < i ==> !#[trigger] in_class(s@[j], class),
        decreases s@.len() - i,
    {
        if byte_in_class(s[i], class) {
            return true;
        }
        i = i + 1;
    }
    false
}

/// The verdict on a password's UTF-8 bytes: at least 8 bytes, and at least
/// one lowercase letter, one uppercase letter, one digit and one special
/// character.
pub open spec fn password_verdict(p: Seq<u8>) -> Result<(), PasswordWeakness> {
    if p.len() < 8 {
        Err(PasswordWeakness::TooShort)
    } else if !has_class(p, CharClass::Lowercase) {
        Err(PasswordWeakness::NoLowercase)
    } else if !has_class(p, CharClass::Uppercase) {
        Err(PasswordWeakness::NoUppercase)
    } else if !has_class(p, CharClass::Digit) {
        Err(PasswordWeakness::NoNumber)
    } else if !has_class(p, CharClass::Special) {
        Err(PasswordWeakness::NoSpecialCharacter)
    } else {
        Ok(())
    }
}

/// Checks a password against the strength rules.
pub fn validate_password_strength(password: &str) -> (r: Result<(), PasswordWeakness>)
    ensures
        r == password_verdict(vstd::utf8::encode_utf8(password@)),
{
    let p = password.as_bytes();
    if p.len() < 8 {
        return Err(PasswordWeakness::TooShort);
    }
    if !contains_class(p, CharClass::Lowercase) {
        return Err(PasswordWeakness::NoLowercase);
    }
    if !contains_class(p, CharClass::Uppercase) {
        return Err(PasswordWeakness::NoUppercase);
    }
    if !contains_class(p, CharClass::Digit) {
        return Err(PasswordWeakness::NoNumber);
    }
    if !contains_class(p, CharClass::Special) {
        return Err(PasswordWeakness::NoSpecialCharacter);
    }
    Ok(())
}

/// A username is one or more ASCII letters and digits.
pub open spec fn username_valid(u: Seq<u8>) -> bool {
    u.len() > 0 && forall|i: int| 0 <= i < u.len() ==> #[trigger] is_alphanumeric(u[i])
}

/// Checks a username: one or more ASCII letters and digits.
pub fn validate_username(username: &str) -> (r: bool)
    ensures
        r == username_valid(vstd::utf8::encode_utf8(username@)),
{
    let u = username.as_bytes();
    if u.len() == 0 {
        return false;
    }
    let mut i: usize = 0;
    while i < u.len()
        invariant
            u@ == vstd::utf8::encode_utf8(username@),
            i <= u@.len(),
            forall|j: int| 0 <= j < i ==> #[trigger] is_alphanumeric(u@[j]),
        decreases u@.len() - i,
    {
        let b = u[i];
        if !(byte_in_class(b, CharClass::Lowercase) || byte_in_class(b, CharClass::Uppercase)
            || byte_in_class(b, CharClass::Digit)) {
            assert(!is_alphanumeric(u@[i as int]));
            return false;
        }
        i = i + 1;
    }
    true
}

/// Whether the validator crate accepts `s` as an email address (HTML5 rules).
pub uninterp spec fn email_valid(s: Seq<char>) -> bool;

/// Relies on validator::validate_email: the HTML5 email check, a function of
/// the text alone.
#[verifier::external_body]
fn check_email(s: &str) -> (r: bool)
    ensures
        r == email_valid(s@),
{
    validator::validate_email(s)
}

/// A request to open an account.
#[derive(Debug, Clone)]
pub struct SignupForm {
    pub mail: String,
    pub username: String,
    pub password: String,
}

/// Whether a signup form passes every check.
pub open spec fn signup_valid(f: SignupForm) -> bool {
    &&& email_valid(f.mail@)
    &&& username_valid(vstd::utf8::encode_utf8(f.username@))
    &&& password_verdict(vstd::utf8::encode_utf8(f.password@)) is Ok
}

impl SignupForm {
    /// The mail must be an email address, the username one or more ASCII
    /// letters and digits, and the password strong.
    pub fn validate(&self) -> (r: Result<(), ErrorKind>)
        ensures
            r is Ok <==> signup_valid(*self),
            r matches Err(e) ==> e == ErrorKind::ValidationFailed,
    {
        if !check_email(self.mail.as_str()) {
            return Err(ErrorKind::ValidationFailed);
        }
        if !validate_username(self.username.as_str()) {
            return Err(ErrorKind::ValidationFailed);
        }
        if validate_password_strength(self.password.as_str()).is_err() {
            return Err(ErrorKind::ValidationFailed);
        }
        Ok(())
    }
}

/// A login request.
#[derive(Debug, Clone)]
pub struct LoginForm {
    pub username: String,
    pub password: String,
}

/// A request for a password reminder.
#[derive(Debug, Clone)]
pub struct RemindPasswordForm {
    pub username: String,
    pub email: String,
}

impl RemindPasswordForm {
    /// The email must be an email address.
    pub fn validate(&self) -> (r: Result<(), ErrorKind>)
        ensures
            r is Ok <==> email_valid(self.email@),
            r matches Err(e) ==> e == ErrorKind::ValidationFailed,
    {
        if check_email(self.email.as_str()) {
            Ok(())
        } else {
            Err(ErrorKind::ValidationFailed)
        }
    }
}

} // verus!
