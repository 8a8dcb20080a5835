//! Principals: login, registration, email verification, role elevation and
//! the listing of accounts.

use vstd::prelude::*;
use crate::error::ErrorKind;
use crate::forms::{LoginForm, SignupForm, signup_valid};
use crate::role::{Role, role_meets};
use crate::token::{TOKEN_LIFETIME, issue_token, signed_token};

verus! {

/// A stored principal. `created_at` is in seconds since the Unix epoch.
#[derive(Debug, Clone)]
pub struct User {
    pub id: i32,
    pub mail: String,
    pub username: String,
    pub password_hash: String,
    pub role: Role,
    pub verified: bool,
    pub verification_code: Option<String>,
    pub created_at: i64,
}

/// What may be shown of a principal.
#[derive(Debug, Clone)]
pub struct BasicUserInfo {
    pub id: i32,
    pub username: String,
    pub role: Role,
    pub verified: bool,
    pub created_at: i64,
}

impl From<User> for BasicUserInfo {
    fn from(user: User) -> (r: BasicUserInfo) {
        BasicUserInfo {
            id: user.id,
            username: user.username,
            role: user.role,
            verified: user.verified,
            created_at: user.created_at,
        }
    }
}

impl vstd::std_specs::convert::FromSpecImpl<User> for BasicUserInfo {
    open spec fn obeys_from_spec() -> bool {
        true
    }

    open spec fn from_spec(user: User) -> BasicUserInfo {
        BasicUserInfo {
            id: user.id,
            username: user.username,
            role: user.role,
            verified: user.verified,
            created_at: user.created_at,
        }
    }
}

/// Whether `password` matches the stored PHC hash string `hash`.
pub uninterp spec fn password_verifies(password: Seq<u8>, hash: Seq<char>) -> bool;

/// Relies on argon2: `PasswordHash::new` parses the stored PHC string and
/// `Argon2::verify_password` checks the password against it; a string that
/// does not parse matches no password. The answer depends on the two
/// arguments alone.
#[verifier::external_body]
fn password_matches(password: &[u8], hash: &str) -> (r: bool)
    ensures
        r == password_verifies(password@, hash@),
{
    match argon2::PasswordHash::new(hash) {
        Ok(parsed) => argon2::PasswordVerifier::verify_password(
            &argon2::Argon2::default(),
            password,
            &parsed,
        ).is_ok(),
        Err(_) => false,
    }
}

/// Relies on argon2: `Argon2::hash_password` with the default parameters and
/// a fresh salt from `SaltString::generate` over the operating system's
/// generator, written as a PHC string. The salt is random, so the string
/// itself is not named; it fails only on a password longer than argon2's
/// `MAX_PWD_LEN` bytes, and the string it gives verifies the password, since
/// verification hashes again with the algorithm, version, parameters and salt
/// that the string records.
#[verifier::external_body]
fn hash_with_fresh_salt(password: &[u8]) -> (r: Option<String>)
    ensures
        password@.len() <= MAX_PASSWORD_BYTES ==> r is Some,
        r matches Some(h) ==> password_verifies(password@, h@),
{
    let salt = argon2::password_hash::SaltString::generate(&mut rand::rngs::OsRng);
    argon2::PasswordHasher::hash_password(&argon2::Argon2::default(), password, &salt).ok().map(
        |h| h.to_string(),
    )
}

/// Whether `c` is an ASCII letter or digit.
pub open spec fn is_alphanumeric_char(c: char) -> bool {
    (97 <= c as u32 <= 122) || (65 <= c as u32 <= 90) || (48 <= c as u32 <= 57)
}

/// Relies on rand's `Alphanumeric` distribution over `thread_rng`: `len`
/// characters, each drawn from the ASCII letters and digits.
#[verifier::external_body]
fn random_alphanumeric(len: usize) -> (r: String)
    ensures
        r@.len() == len,
        forall|i: int| 0 <= i < len ==> #[trigger] is_alphanumeric_char(r@[i]),
{
    rand::Rng::sample_iter(rand::thread_rng(), &rand::distributions::Alphanumeric).take(len).map(
        char::from,
    ).collect()
}

/// The ASCII lower case of one character: `A`..`Z` become `a`..`z`, every
/// other character stays.
pub open spec fn lowered(c: char) -> u32 {
    if 65 <= c as u32 <= 90 {
        (c as u32 + 32) as u32
    } else {
        c as u32
    }
}

/// Whether `r` is `s` with its ASCII letters lowered.
pub open spec fn is_ascii_lowercase_of(s: Seq<char>, r: Seq<char>) -> bool {
    r.len() == s.len() && forall|i: int| 0 <= i < s.len() ==> #[trigger] r[i] as u32 == lowered(s[i])
}

/// Relies on str::to_ascii_lowercase: ASCII letters `A`..`Z` are mapped to
/// `a`..`z`, every other character is unchanged.
#[verifier::external_body]
fn ascii_lowercase(s: &str) -> (r: String)
    ensures
        is_ascii_lowercase_of(s@, r@),
{
    s.to_ascii_lowercase()
}

/// The longest password, in bytes, that argon2 hashes.
pub const MAX_PASSWORD_BYTES: usize = 0xFFFF_FFFF;

/// Hashes a password with a fresh random salt; the hash verifies the
/// password.
pub fn hash_password(password: &str) -> (r: Result<String, ErrorKind>)
    ensures
        vstd::utf8::encode_utf8(password@).len() <= MAX_PASSWORD_BYTES ==> r is Ok,
        r matches Ok(h) ==> password_verifies(vstd::utf8::encode_utf8(password@), h@),
        r matches Err(e) ==> e == ErrorKind::Internal,
{
    match hash_with_fresh_salt(password.as_bytes()) {
        Some(h) => Ok(h),
        None => Err(ErrorKind::Internal),
    }
}

/// The outcome of a login before any token is made: the principal's id, or
/// why it is refused. An unknown username and a wrong password give the same
/// answer; an unverified account is told so.
pub open spec fn login_check(user: Option<User>, password: Seq<u8>) -> Result<i32, ErrorKind> {
    match user {
        None => Err(ErrorKind::InvalidCredentials),
        Some(u) => if !u.verified {
            Err(ErrorKind::NotVerified)
        } else if !password_verifies(password, u.password_hash@) {
            Err(ErrorKind::InvalidCredentials)
        } else {
            Ok(u.id)
        },
    }
}

/// Logs in the principal found under the form's username (`None` when there
/// is none) and issues a session token at time `now`.
pub fn login_user(user: &Option<User>, form: &LoginForm, secret: &[u8], now: i64) -> (r: Result<
    String,
    ErrorKind,
>)
    ensures
        match login_check(*user, vstd::utf8::encode_utf8(form.password@)) {
            Err(e) => r == Err::<String, ErrorKind>(e),
            Ok(id) => {
                &&& now <= i64::MAX - TOKEN_LIFETIME ==> (r matches Ok(t) && t@ == signed_token(
                    secret@,
                    id as int,
                    now as int,
                    now + TOKEN_LIFETIME,
                ))
                &&& now > i64::MAX - TOKEN_LIFETIME ==> r == Err::<String, ErrorKind>(
                    ErrorKind::Internal,
                )
            },
        },
{
    match user {
        None => Err(ErrorKind::InvalidCredentials),
        Some(u) => {
            if !u.verified {
                return Err(ErrorKind::NotVerified);
            }
            if !password_matches(form.password.as_str().as_bytes(), u.password_hash.as_str()) {
                return Err(ErrorKind::InvalidCredentials);
            }
            issue_token(secret, u.id, now)
        },
    }
}

/// Length of an email verification code.
pub const VERIFICATION_CODE_LEN: usize = 10;

/// An account ready to be stored, and the verification link to send.
#[derive(Debug, Clone)]
pub struct Registration {
    /// The mail, in ASCII lower case.
    pub mail: String,
    pub username: String,
    /// The username in ASCII lower case, for the uniqueness check.
    pub username_key: String,
    pub password_hash: String,
    pub verification_code: String,
    pub verification_url: String,
}

/// The verification link for `code` under the front end at `origin`.
pub open spec fn verification_link(origin: Seq<char>, code: Seq<char>) -> Seq<char> {
    origin + "/verifyemail/"@ + code
}

/// Prepares a new, unverified account from a signup form: the form must
/// pass its checks; the password is hashed and a random verification code of
/// ASCII letters and digits is drawn.
pub fn register_user(form: &SignupForm, frontend_origin: &str) -> (r: Result<Registration, ErrorKind>)
    ensures
        !signup_valid(*form) ==> r == Err::<Registration, ErrorKind>(ErrorKind::ValidationFailed),
        signup_valid(*form) && vstd::utf8::encode_utf8(form.password@).len()
            <= MAX_PASSWORD_BYTES ==> r is Ok,
        signup_valid(*form) ==> match r {
            Ok(g) => {
                &&& is_ascii_lowercase_of(form.mail@, g.mail@)
                &&& password_verifies(vstd::utf8::encode_utf8(form.password@), g.password_hash@)
                &&& g.username@ == form.username@
                &&& is_ascii_lowercase_of(form.username@, g.username_key@)
                &&& g.verification_code@.len() == VERIFICATION_CODE_LEN
                &&& forall|i: int|
                    0 <= i < VERIFICATION_CODE_LEN ==> #[trigger] is_alphanumeric_char(
                        g.verification_code@[i],
                    )
                &&& g.verification_url@ == verification_link(
                    frontend_origin@,
                    g.verification_code@,
                )
            },
            Err(e) => e == ErrorKind::Internal,
        },
{
    form.validate()?;
    let password_hash = hash_password(form.password.as_str())?;
    let verification_code = random_alphanumeric(VERIFICATION_CODE_LEN);
    let mut verification_url = String::from_str(frontend_origin);
    verification_url.append("/verifyemail/");
    verification_url.append(verification_code.as_str());
    Ok(Registration {
        mail: ascii_lowercase(form.mail.as_str()),
        username: form.username.clone(),
        username_key: ascii_lowercase(form.username.as_str()),
        password_hash,
        verification_code,
        verification_url,
    })
}

/// Whether a new account may be opened, given whether storage already holds
/// one with the same mail or username (`None` when it gave no answer, which
/// counts as none).
pub fn account_available(exists: Option<bool>) -> (r: Result<(), ErrorKind>)
    ensures
        exists == Some(true) ==> r == Err::<(), ErrorKind>(ErrorKind::AlreadyExists),
        exists != Some(true) ==> r == Ok::<(), ErrorKind>(()),
{
    match exists {
        Some(true) => Err(ErrorKind::AlreadyExists),
        _ => Ok(()),
    }
}

/// How many further tries a verification mail gets after its first send
/// fails.
pub const MAIL_RETRIES: u32 = 5;

/// Seconds to wait before the next try of a verification mail whose first
/// send and `retries_done` further tries have failed: one more minute for
/// each try made; `None` once the tries are used up, and the account keeps
/// its code for a later resend.
pub fn next_mail_retry(retries_done: u32) -> (r: Option<u64>)
    ensures
        retries_done >= MAIL_RETRIES ==> r is None,
        retries_done < MAIL_RETRIES ==> r == Some((60 * (retries_done + 1)) as u64),
{
    if retries_done >= MAIL_RETRIES {
        None
    } else {
        Some(60 * (retries_done as u64 + 1))
    }
}

/// Marks the principal found under a verification code as verified.
pub fn verify_email(user: Option<User>) -> (r: Result<User, ErrorKind>)
    ensures
        match user {
            None => r == Err::<User, ErrorKind>(ErrorKind::NotFound),
            Some(u) => r == Ok::<User, ErrorKind>(User { verified: true, ..u }),
        },
{
    match user {
        None => Err(ErrorKind::NotFound),
        Some(u) => Ok(User { verified: true, ..u }),
    }
}

/// The principal that a verified token names, as found in storage: one that
/// no longer exists is treated as no credentials at all.
pub fn resolve_principal(user: Option<User>) -> (r: Result<User, ErrorKind>)
    ensures
        match user {
            None => r == Err::<User, ErrorKind>(ErrorKind::Unauthenticated),
            Some(u) => r == Ok::<User, ErrorKind>(u),
        },
{
    match user {
        None => Err(ErrorKind::Unauthenticated),
        Some(u) => Ok(u),
    }
}

/// Raises a principal to Manager: only an Admin may, the target must exist
/// and must be below Manager. Never demotes.
pub fn make_manager(actor: Role, target: Option<User>) -> (r: Result<User, ErrorKind>)
    ensures
        !role_meets(actor, Role::Admin) ==> r == Err::<User, ErrorKind>(ErrorKind::Forbidden),
        role_meets(actor, Role::Admin) ==> match target {
            None => r == Err::<User, ErrorKind>(ErrorKind::NotFound),
            Some(u) => if role_meets(u.role, Role::Manager) {
                r == Err::<User, ErrorKind>(ErrorKind::AlreadyElevated)
            } else {
                r == Ok::<User, ErrorKind>(User { role: Role::Manager, ..u })
            },
        },
{
    if !actor.meets(Role::Admin) {
        return Err(ErrorKind::Forbidden);
    }
    match target {
        None => Err(ErrorKind::NotFound),
        Some(u) => {
            if u.role.meets(Role::Manager) {
                return Err(ErrorKind::AlreadyElevated);
            }
            Ok(User { role: Role::Manager, ..u })
        },
    }
}

/// Paging of the account list.
#[derive(Debug, Clone, Copy, PartialEq, Eq, Structural)]
pub struct FetchUsers {
    pub limit: Option<i64>,
    pub offset: Option<i64>,
}

/// The value of an optional field, or its default.
pub open spec fn or_default(v: Option<i64>, default: i64) -> i64 {
    match v {
        Some(x) => x,
        None => default,
    }
}

impl FetchUsers {
    /// The `(limit, offset)` to list with: the limit defaults to 10 and must
    /// lie in [0, 100], the offset defaults to 0 and must not be negative.
    pub fn page(&self) -> (r: Result<(i64, i64), ErrorKind>)
        ensures
            ({
                let limit = or_default(self.limit, 10);
                let offset = or_default(self.offset, 0);
                if 0 <= limit <= 100 && offset >= 0 {
                    r == Ok::<(i64, i64), ErrorKind>((limit, offset))
                } else {
                    r == Err::<(i64, i64), ErrorKind>(ErrorKind::ValidationFailed)
                }
            }),
    {
        let limit = match self.limit {
            Some(x) => x,
            None => 10,
        };
        if limit < 0 || limit > 100 {
            return Err(ErrorKind::ValidationFailed);
        }
        let offset = match self.offset {
            Some(x) => x,
            None => 0,
        };
        if offset < 0 {
            return Err(ErrorKind::ValidationFailed);
        }
        Ok((limit, offset))
    }
}

/// The number of accounts.
#[derive(Debug, Clone, Copy, PartialEq, Eq, Structural)]
pub struct UsersCount {
    pub count: i64,
}

impl UsersCount {
    /// A count as storage answers it; no answer counts as zero.
    pub fn new(count: Option<i64>) -> (r: UsersCount)
        ensures
            r.count == or_default(count, 0),
    {
        match count {
            Some(c) => UsersCount { count: c },
            None => UsersCount { count: 0 },
        }
    }
}

} // verus!
