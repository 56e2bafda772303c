//! Accounts, passwords, session claims and the access rules of the panel.

use vstd::prelude::*;
use vstd::string::*;
use vstd::utf8::encode_utf8;
use crate::api::{ApiError, is_bad_request};
use crate::outside::{
    bcrypt_hash, bcrypt_verdict, bcrypt_verify,
    once_cell_get, once_cell_set,
};
use crate::system::{
    clock_reading, is_clock_second, is_clock_stamp, is_machine_failure, msg_no_clock, new_uuid,
    now_rfc3339, reading_in_range, unix_seconds_of,
};
use crate::text::{has_prefix, has_suffix, is_uuid_v4_text, same_text, trim, trimmed};

verus! {

/// An account.
pub struct User {
    pub id: String,
    pub username: String,
    pub password_hash: String,
    /// `admin` or `user`.
    pub role: String,
    pub created_at: String,
}

/// What a session token says of its holder.
pub struct Claims {
    /// The account's id.
    pub sub: String,
    /// The account's name.
    pub name: String,
    pub role: String,
    /// When the token stops being valid, in seconds since the Unix epoch.
    pub exp: i64,
}

/// How long a session token is valid: 24 hours, in seconds.
pub const TOKEN_LIFETIME_SECS: i64 = 86400;

/// The length of `s` in bytes once encoded in UTF-8, as `str::len` counts it.
pub open spec fn byte_len(s: Seq<char>) -> nat {
    encode_utf8(s).len()
}

/// The fewest bytes a password may have.
pub open spec fn min_password_bytes() -> nat {
    6
}

pub open spec fn msg_bad_registration() -> Seq<char> {
    "Username cannot be empty, password must be ≥ 6 chars"@
}

pub open spec fn msg_not_first_run() -> Seq<char> {
    "Registration is only available on first run. Ask an admin."@
}

pub open spec fn msg_invalid_credentials() -> Seq<char> {
    "Invalid credentials"@
}

pub open spec fn msg_wrong_old_password() -> Seq<char> {
    "Old password is incorrect"@
}

pub open spec fn msg_short_new_password() -> Seq<char> {
    "New password must be ≥ 6 chars"@
}

pub open spec fn msg_admin_only() -> Seq<char> {
    "Admin only"@
}

pub open spec fn msg_delete_self() -> Seq<char> {
    "Cannot delete yourself"@
}

/// The refusal that a registration gets before any password is hashed, if any:
/// the trimmed name must not be empty and the password must have at least six
/// bytes; then registration is open only while there are no accounts.
pub open spec fn registration_refusal(username: Seq<char>, password: Seq<char>, user_count: int) -> Option<
    Seq<char>,
> {
    if trimmed(username).len() == 0 || byte_len(password) < min_password_bytes() {
        Some(msg_bad_registration())
    } else if user_count > 0 {
        Some(msg_not_first_run())
    } else {
        None
    }
}

/// Checks a first-run registration; gives the trimmed user name that will be
/// stored.
pub fn check_registration<'a>(username: &'a str, password: &str, user_count: i64) -> (r: Result<
    &'a str,
    ApiError,
>)
    ensures
        match registration_refusal(username@, password@, user_count as int) {
            Some(msg) => r matches Err(e) && is_bad_request(e, msg),
            None => r matches Ok(name) && name@ == trimmed(username@),
        },
        r is Ok <==> (trimmed(username@).len() > 0 && encode_utf8(password@).len() >= 6
            && user_count <= 0),
{
    let name = trim(username);
    if name.unicode_len() == 0 || password.as_bytes().len() < 6 {
        return Err(
            ApiError::BadRequest(
                String::from_str("Username cannot be empty, password must be ≥ 6 chars"),
            ),
        );
    }
    if user_count > 0 {
        return Err(
            ApiError::BadRequest(
                String::from_str("Registration is only available on first run. Ask an admin."),
            ),
        );
    }
    Ok(name)
}

/// Whether `m` is the text of a failure of the OS random source while hashing.
pub open spec fn is_rand_failure(m: Seq<char>) -> bool {
    has_prefix(m, "Rand error: "@)
}

/// Whether `e` is the refusal that a failed hash gives: 400 with the text of
/// the random source's failure.
pub open spec fn is_hash_failure(e: ApiError) -> bool {
    e matches ApiError::BadRequest(m) && is_rand_failure(m@)
}

/// Whether `h` has the form of the hashes this panel stores: `$2b$12$` and 53
/// characters of salt and hash.
pub open spec fn is_stored_hash(h: Seq<char>) -> bool {
    h.len() == 60 && has_prefix(h, "$2b$12$"@)
}

/// Whether `h` is a hash made from `password` as this panel makes them.
pub open spec fn hashes_password(h: Seq<char>, password: Seq<char>) -> bool {
    is_stored_hash(h) && bcrypt_verdict(password, h) == Some(true)
}

/// Hashes a password with bcrypt; a failure is refused with the error's text.
fn hash_or_refuse(password: &str) -> (r: Result<String, ApiError>)
    ensures
        r matches Ok(h) ==> hashes_password(h@, password@),
        r matches Err(e) ==> is_hash_failure(e),
{
    match bcrypt_hash(password) {
        Ok(h) => Ok(h),
        Err(t) => Err(ApiError::BadRequest(t)),
    }
}

/// The account made from the outcome of hashing its password: the hash's
/// refusal as it is, or the account with the given fields.
pub fn account_from_hash(
    username: String,
    role: String,
    hashed: Result<String, ApiError>,
    id: String,
    created_at: String,
) -> (r: Result<User, ApiError>)
    ensures
        match hashed {
            Ok(h) => r == Ok::<User, ApiError>(
                User { id, username, password_hash: h, role, created_at },
            ),
            Err(e) => r == Err::<User, ApiError>(e),
        },
{
    match hashed {
        Ok(password_hash) => Ok(User { id, username, password_hash, role, created_at }),
        Err(e) => Err(e),
    }
}

/// A new account: a bcrypt hash of the password, a fresh random id and the
/// current time. A failure of hashing, of the random source or of the clock is
/// refused, in that order.
fn new_account(username: String, role: String, password: &str) -> (r: Result<User, ApiError>)
    ensures
        r matches Err(e) ==> is_hash_failure(e) || is_machine_failure(e),
        r matches Ok(u) ==> {
            &&& u.username == username
            &&& u.role == role
            &&& is_uuid_v4_text(u.id@)
            &&& hashes_password(u.password_hash@, password@)
            &&& has_suffix(u.created_at@, "+00:00"@)
            &&& is_clock_stamp(u.created_at@)
        },
{
    let hashed = hash_or_refuse(password);
    if let Err(e) = hashed {
        return Err(e);
    }
    let id = match new_uuid() {
        Ok(id) => id,
        Err(e) => return Err(e),
    };
    let created_at = match now_rfc3339() {
        Ok(t) => t,
        Err(e) => return Err(e),
    };
    account_from_hash(username, role, hashed, id, created_at)
}

/// The first account, made on first run: it gets the `admin` role, a fresh
/// random id, the trimmed name and a bcrypt hash of the password. Once the
/// input passes `check_registration`, the only refusal left is a failure of
/// the random source while hashing.
pub fn register_admin(username: &str, password: &str, user_count: i64) -> (r: Result<
    User,
    ApiError,
>)
    ensures
        registration_refusal(username@, password@, user_count as int) matches Some(msg) ==> (r matches Err(
            e,
        ) && is_bad_request(e, msg)),
        registration_refusal(username@, password@, user_count as int) is None ==> (r matches Err(e)
            ==> is_hash_failure(e) || is_machine_failure(e)),
        r matches Ok(u) ==> {
            &&& registration_refusal(username@, password@, user_count as int) is None
            &&& u.username@ == trimmed(username@)
            &&& u.role@ == "admin"@
            &&& is_uuid_v4_text(u.id@)
            &&& hashes_password(u.password_hash@, password@)
            &&& has_suffix(u.created_at@, "+00:00"@)
            &&& is_clock_stamp(u.created_at@)
        },
{
    let name = match check_registration(username, password, user_count) {
        Ok(n) => n,
        Err(e) => return Err(e),
    };
    new_account(String::from_str(name), String::from_str("admin"), password)
}

/// An account made by an admin: only admins may (no claims give 401, another
/// role gives `Admin only`), before any hashing. The account gets role `user`,
/// a fresh random id, the name as given and a bcrypt hash of the password; no
/// rule is applied to the name or the password. Past the access check, the
/// only refusal is a failure of the random source while hashing.
pub fn create_user(claims: Option<Claims>, username: &str, password: &str) -> (r: Result<
    User,
    ApiError,
>)
    ensures
        claims is None ==> (r matches Err(e) && e is Unauthorized),
        claims matches Some(c) && c.role@ != "admin"@ ==> (r matches Err(e) && is_bad_request(
            e,
            msg_admin_only(),
        )),
        claims matches Some(c) && c.role@ == "admin"@ ==> (r matches Err(e) ==> is_hash_failure(e)
            || is_machine_failure(e)),
        r matches Ok(u) ==> {
            &&& claims matches Some(c) && c.role@ == "admin"@
            &&& u.username@ == username@
            &&& u.role@ == "user"@
            &&& is_uuid_v4_text(u.id@)
            &&& hashes_password(u.password_hash@, password@)
            &&& has_suffix(u.created_at@, "+00:00"@)
            &&& is_clock_stamp(u.created_at@)
        },
{
    if let Err(e) = require_admin(claims) {
        return Err(e);
    }
    new_account(String::from_str(username), String::from_str("user"), password)
}

/// Whether `password` opens `user`'s account.
pub open spec fn password_matches(user: User, password: Seq<char>) -> bool {
    bcrypt_verdict(password, user.password_hash@) == Some(true)
}

/// Logs in: the account found by name, if any, whose stored hash accepts the
/// password; any other case is refused with `Invalid credentials`.
pub fn authenticate(user: Option<User>, password: &str) -> (r: Result<User, ApiError>)
    ensures
        match user {
            Some(u) => if password_matches(u, password@) {
                r == Ok::<User, ApiError>(u)
            } else {
                r matches Err(e) && is_bad_request(e, msg_invalid_credentials())
            },
            None => r matches Err(e) && is_bad_request(e, msg_invalid_credentials()),
        },
{
    match user {
        None => Err(ApiError::BadRequest(String::from_str("Invalid credentials"))),
        Some(u) => {
            match bcrypt_verify(password, u.password_hash.as_str()) {
                Some(true) => Ok(u),
                _ => Err(ApiError::BadRequest(String::from_str("Invalid credentials"))),
            }
        },
    }
}

/// The refusal of a password change before the new password is hashed, if
/// any: the account must exist, the old password must match, and the new one
/// must have at least six bytes.
pub open spec fn password_change_refusal(
    user: Option<User>,
    old_password: Seq<char>,
    new_password: Seq<char>,
) -> Option<ApiErrorKind> {
    match user {
        None => Some(ApiErrorKind::Unauthorized),
        Some(u) => if !password_matches(u, old_password) {
            Some(ApiErrorKind::BadRequest(msg_wrong_old_password()))
        } else if byte_len(new_password) < min_password_bytes() {
            Some(ApiErrorKind::BadRequest(msg_short_new_password()))
        } else {
            None
        },
    }
}

/// The refusal of a password change request before hashing, if any: a request
/// without claims is refused with 401 first, then the rules above apply to
/// the account found by the claims' id.
pub open spec fn password_change_request_refusal(
    claims: Option<Claims>,
    user: Option<User>,
    old_password: Seq<char>,
    new_password: Seq<char>,
) -> Option<ApiErrorKind> {
    if claims is None {
        Some(ApiErrorKind::Unauthorized)
    } else {
        password_change_refusal(user, old_password, new_password)
    }
}

/// A refusal as plain values, for contracts.
pub enum ApiErrorKind {
    BadRequest(Seq<char>),
    Unauthorized,
}

/// Whether `e` is the refusal `k`.
pub open spec fn error_is(e: ApiError, k: ApiErrorKind) -> bool {
    match k {
        ApiErrorKind::BadRequest(m) => is_bad_request(e, m),
        ApiErrorKind::Unauthorized => e is Unauthorized,
    }
}

/// Checks a password change before hashing: gives the account when the rules
/// accept it, else exactly their refusal.
pub fn check_password_change(user: Option<User>, old_password: &str, new_password: &str) -> (r: Result<
    User,
    ApiError,
>)
    ensures
        match password_change_refusal(user, old_password@, new_password@) {
            Some(k) => r matches Err(e) && error_is(e, k),
            None => r == Ok::<User, ApiError>(user->0),
        },
        r is Ok <==> (user matches Some(u) && bcrypt_verdict(old_password@, u.password_hash@)
            == Some(true) && encode_utf8(new_password@).len() >= 6),
{
    let u = match user {
        Some(u) => u,
        None => return Err(ApiError::Unauthorized),
    };
    match bcrypt_verify(old_password, u.password_hash.as_str()) {
        Some(true) => {},
        _ => return Err(ApiError::BadRequest(String::from_str("Old password is incorrect"))),
    }
    if new_password.as_bytes().len() < 6 {
        return Err(ApiError::BadRequest(String::from_str("New password must be ≥ 6 chars")));
    }
    Ok(u)
}

/// Changes a password: a request without claims is refused with 401; then the
/// account found by the claims' id is checked by `check_password_change`; then
/// it gets a bcrypt hash of the new password, all its other fields unchanged.
/// Past the checks, the only refusal is a failure of the random source while
/// hashing.
pub fn change_password(
    claims: Option<Claims>,
    user: Option<User>,
    old_password: &str,
    new_password: &str,
) -> (r: Result<User, ApiError>)
    ensures
        password_change_request_refusal(claims, user, old_password@, new_password@) matches Some(
            k,
        ) ==> (r matches Err(e) && error_is(e, k)),
        password_change_request_refusal(claims, user, old_password@, new_password@) is None ==> (r matches Err(
            e,
        ) ==> is_hash_failure(e)),
        r matches Ok(v) ==> {
            &&& password_change_request_refusal(claims, user, old_password@, new_password@) is None
            &&& v == (User { password_hash: v.password_hash, ..user->0 })
            &&& hashes_password(v.password_hash@, new_password@)
        },
{
    if claims.is_none() {
        return Err(ApiError::Unauthorized);
    }
    let u = match check_password_change(user, old_password, new_password) {
        Ok(u) => u,
        Err(e) => return Err(e),
    };
    match hash_or_refuse(new_password) {
        Ok(h) => Ok(User { password_hash: h, ..u }),
        Err(e) => Err(e),
    }
}

/// The claims of a token issued at `now` (seconds since the epoch) for `user`:
/// its id, name and role, valid for 24 hours.
pub fn claims_at(user: &User, now: i64) -> (r: Claims)
    requires
        now <= i64::MAX - TOKEN_LIFETIME_SECS,
    ensures
        r.sub@ == user.id@,
        r.name@ == user.username@,
        r.role@ == user.role@,
        r.exp == now + TOKEN_LIFETIME_SECS,
{
    Claims {
        sub: user.id.clone(),
        name: user.username.clone(),
        role: user.role.clone(),
        exp: now + TOKEN_LIFETIME_SECS,
    }
}

/// The claims of a token issued for `user` at the clock reading `reading`:
/// valid for 24 hours from its seconds; `System clock unavailable` where there
/// is no reading or chrono cannot hold it.
pub fn claims_of_reading(user: &User, reading: Option<(u64, u32)>) -> (r: Result<Claims, ApiError>)
    ensures
        match reading {
            Some((secs, nanos)) => if reading_in_range(secs, nanos) {
                r matches Ok(c) && c.sub@ == user.id@ && c.name@ == user.username@ && c.role@
                    == user.role@ && c.exp == secs + TOKEN_LIFETIME_SECS
            } else {
                r matches Err(e) && e matches ApiError::Internal(m) && m@ == msg_no_clock()
            },
            None => r matches Err(e) && e matches ApiError::Internal(m) && m@ == msg_no_clock(),
        },
{
    let now = match unix_seconds_of(reading) {
        Ok(t) => t,
        Err(e) => return Err(e),
    };
    proof {
        let (secs, nanos) = reading->0;
        assert(secs as int / 86400 + 719163 <= 95745399);
        assert(secs < 10_000_000_000_000) by (nonlinear_arith)
            requires
                secs as int / 86400 + 719163 <= 95745399,
                secs >= 0,
        ;
    }
    Ok(claims_at(user, now))
}

/// The claims of a token issued now for `user`: valid for 24 hours from the
/// clock's current reading; `System clock unavailable` where the clock cannot
/// be read.
pub fn token_claims(user: &User) -> (r: Result<Claims, ApiError>)
    ensures
        r matches Ok(c) ==> {
            &&& c.sub@ == user.id@
            &&& c.name@ == user.username@
            &&& c.role@ == user.role@
            &&& is_clock_second(c.exp - TOKEN_LIFETIME_SECS)
        },
        r matches Err(e) ==> e matches ApiError::Internal(m) && m@ == msg_no_clock(),
{
    let reading = clock_reading();
    let r = claims_of_reading(user, reading);
    proof {
        if r is Ok {
            let (secs, nanos) = reading->0;
            let t = r->Ok_0.exp - TOKEN_LIFETIME_SECS;
            assert(t == secs);
            assert(t as u64 == secs);
            assert(nanos < 1_000_000_000 && reading_in_range(t as u64, nanos));
        }
    }
    r
}

/// Access for any signed-in account: claims are needed, else 401.
pub fn require_login(claims: Option<Claims>) -> (r: Result<Claims, ApiError>)
    ensures
        match claims {
            Some(c) => r == Ok::<Claims, ApiError>(c),
            None => r matches Err(e) && e is Unauthorized,
        },
{
    match claims {
        Some(c) => Ok(c),
        None => Err(ApiError::Unauthorized),
    }
}

/// Access for admins only: no claims give 401, claims of another role give
/// `Admin only`.
pub fn require_admin(claims: Option<Claims>) -> (r: Result<Claims, ApiError>)
    ensures
        match claims {
            Some(c) => if c.role@ == "admin"@ {
                r == Ok::<Claims, ApiError>(c)
            } else {
                r matches Err(e) && is_bad_request(e, msg_admin_only())
            },
            None => r matches Err(e) && e is Unauthorized,
        },
{
    match claims {
        Some(c) => {
            if same_text(c.role.as_str(), "admin") {
                Ok(c)
            } else {
                Err(ApiError::BadRequest(String::from_str("Admin only")))
            }
        },
        None => Err(ApiError::Unauthorized),
    }
}

/// An admin may delete any account but their own.
pub fn check_user_deletion(claims: &Claims, target_id: &str) -> (r: Result<(), ApiError>)
    ensures
        if target_id@ == claims.sub@ {
            r matches Err(e) && is_bad_request(e, msg_delete_self())
        } else {
            r is Ok
        },
{
    if same_text(target_id, claims.sub.as_str()) {
        Err(ApiError::BadRequest(String::from_str("Cannot delete yourself")))
    } else {
        Ok(())
    }
}

/// The secret that signs tokens: the configured one, or else a fresh random
/// UUID (then sessions do not outlive the process).
pub fn choose_jwt_secret(configured: Option<String>) -> (r: Result<String, ApiError>)
    ensures
        match configured {
            Some(s) => r == Ok::<String, ApiError>(s),
            None => match r {
                Ok(id) => is_uuid_v4_text(id@),
                Err(e) => is_machine_failure(e),
            },
        },
{
    match configured {
        Some(s) => Ok(s),
        None => new_uuid(),
    }
}

/// Stores the token secret in its process-wide cell; where the cell is already
/// set, the secret is handed back.
pub fn install_jwt_secret(cell: &once_cell::sync::OnceCell<String>, secret: String) -> (r: Result<
    (),
    String,
>)
    ensures
        r matches Err(s) ==> s == secret,
{
    once_cell_set(cell, secret)
}

/// The token secret held in its process-wide cell, if it has been set.
pub fn jwt_secret(cell: &once_cell::sync::OnceCell<String>) -> (r: Option<&str>) {
    match once_cell_get(cell) {
        Some(s) => Some(s.as_str()),
        None => None,
    }
}


/// An account whose stored hash was made from `password`, as registration,
/// account creation and a password change make it (`hashes_password`), opens
/// with that password: `authenticate` gives the account back. So the first
/// admin logs in under the trimmed name it was registered with.
pub proof fn lemma_hashed_password_opens(u: User, password: Seq<char>)
    requires
        hashes_password(u.password_hash@, password),
    ensures
        password_matches(u, password),
{
}

/// Registration is open only while the panel has no account: with any
/// account it is refused, and an accepted registration saw none.
pub proof fn lemma_registration_only_on_first_run(
    username: Seq<char>,
    password: Seq<char>,
    user_count: int,
)
    requires
        user_count >= 0,
    ensures
        user_count > 0 ==> registration_refusal(username, password, user_count) is Some,
        registration_refusal(username, password, user_count) is None ==> user_count == 0,
{
}


/// The registration rule, in full: a registration passes exactly when its
/// trimmed name is not empty, its password has at least six bytes (with no
/// upper limit), and there is no account yet.
pub proof fn lemma_registration_rule(username: Seq<char>, password: Seq<char>, user_count: int)
    ensures
        registration_refusal(username, password, user_count) is None <==> (trimmed(username).len()
            > 0 && encode_utf8(password).len() >= 6 && user_count <= 0),
        (trimmed(username).len() == 0 || encode_utf8(password).len() < 6) ==> registration_refusal(
            username,
            password,
            user_count,
        ) == Some(
            "Username cannot be empty, password must be ≥ 6 chars"@,
        ),
{
}

/// The password-change rule, in full: a change passes exactly when the
/// account exists, bcrypt accepts the old password against its stored hash,
/// and the new password has at least six bytes (with no upper limit).
pub proof fn lemma_password_change_rule(
    user: Option<User>,
    old_password: Seq<char>,
    new_password: Seq<char>,
)
    ensures
        password_change_refusal(user, old_password, new_password) is None <==> (user matches Some(u)
            && bcrypt_verdict(old_password, u.password_hash@) == Some(true) && encode_utf8(
            new_password,
        ).len() >= 6),
{
}

} // verus!
