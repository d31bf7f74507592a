//! Users: password hashes, login tokens, and the statements on the `users` table.
use vstd::prelude::*;
use vstd::utf8::encode_utf8;

use argon2::password_hash::rand_core::OsRng;
use argon2::password_hash::{PasswordHash, PasswordHasher, PasswordVerifier, SaltString};
use argon2::Argon2;
use hmac::{Hmac, Mac};
use jwt::{SignWithKey, VerifyWithKey};
use sha2::Sha256;
use std::collections::BTreeMap;

use super::statement::{optional_text_param, optional_view, statement1, statement2, statement3, str_param, text_param, ParamView, SqlParam, Statement, StatementView};
use super::{answer_view, ErrorKind, MyError, TokenError};
use crate::text::{decimal, i64_text};

verus! {

/// A request to set a new password for a user.
#[derive(Debug, Clone, PartialEq, Eq)]
pub struct ResetPwd {
    pub username: String,
    pub pwd: String,
    pub token: String,
}

/// What login reads of a stored user.
#[derive(Debug, Clone, PartialEq, Eq)]
pub struct UserLog {
    /// The stored password hash, a PHC string.
    pub pwd: String,
    pub rol: String,
    pub first_login: i8,
}

/// A login or registration request.
#[derive(Debug, Clone, PartialEq, Eq)]
pub struct UserData {
    pub username: String,
    pub pwd: String,
    pub rol: Option<String>,
    pub token: Option<String>,
}

// ---------------------------------------------------------------------------
// Passwords (argon2)

/// Whether `PasswordHash::new` of the password-hash crate accepts `hash` as a PHC string.
pub uninterp spec fn phc_hash_parses(hash: Seq<char>) -> bool;

/// Whether `Argon2::default().verify_password(password, &PasswordHash::new(hash)?)` succeeds.
pub uninterp spec fn password_verifies(password: Seq<u8>, hash: Seq<char>) -> bool;

/// The PHC string `Argon2::default().hash_password(password, &salt)` renders,
/// with the salt read by `SaltString::from_b64`; `None` when the salt is refused
/// or hashing fails.
pub uninterp spec fn argon2_hash(password: Seq<u8>, salt: Seq<char>) -> Option<Seq<char>>;

/// Every password within argon2's length limit can be hashed with this salt.
pub open spec fn salt_fits_every_password(salt: Seq<char>) -> bool {
    forall|p: Seq<u8>| p.len() <= 0xFFFF_FFFF ==> (#[trigger] argon2_hash(p, salt)) is Some
}

/// Draws a salt with `SaltString::generate` from `OsRng`. The salt is random, so
/// no clause fixes it; what holds of every outcome is what the password-hash
/// source shows: sixteen bytes in B64, which argon2 takes with any password it
/// takes at all. `OsRng` panics if the operating system has no randomness to
/// give; nothing here states that case.
#[verifier::external_body]
fn draw_salt() -> (r: String)
    ensures
        salt_fits_every_password(r@),
{
    SaltString::generate(&mut OsRng).as_str().to_string()
}

/// Reads the salt with `SaltString::from_b64` and hashes the password with
/// `Argon2::default().hash_password`, rendering the hash as a PHC string; `None`
/// when either fails. The result is named by `argon2_hash`; as argon2's
/// documentation shows, a hash it makes parses back and verifies with the same
/// password.
#[verifier::external_body]
fn hash_with_salt(password: &[u8], salt: &str) -> (r: Option<String>)
    ensures
        match argon2_hash(password@, salt@) {
            Some(h) => r matches Some(s) && s@ == h && phc_hash_parses(h) && password_verifies(password@, h),
            None => r is None,
        },
{
    let salt = match SaltString::from_b64(salt) {
        Ok(salt) => salt,
        Err(_) => return None,
    };
    match Argon2::default().hash_password(password, &salt) {
        Ok(hash) => Some(hash.to_string()),
        Err(_) => None,
    }
}

/// Parses the stored hash with `PasswordHash::new` and, when it parses, checks
/// the password against it with `Argon2::default().verify_password`. `None` when
/// the hash does not parse; otherwise whether the password verifies.
#[verifier::external_body]
fn verify_stored_password(password: &[u8], hash: &str) -> (r: Option<bool>)
    ensures
        r is None <==> !phc_hash_parses(hash@),
        r matches Some(ok) ==> ok == password_verifies(password@, hash@),
{
    match PasswordHash::new(hash) {
        Ok(parsed) => Some(Argon2::default().verify_password(password, &parsed).is_ok()),
        Err(_) => None,
    }
}

// ---------------------------------------------------------------------------
// Tokens (jwt with HMAC-SHA256)

/// The claims of a token as a map, from the (name, value) pairs that hold them.
pub open spec fn claims_map(pairs: Seq<(String, String)>) -> Map<Seq<char>, Seq<char>> {
    Map::new(
        |k: Seq<char>| exists|i: int| 0 <= i < pairs.len() && (#[trigger] pairs[i]).0@ == k,
        |k: Seq<char>| pairs[choose|i: int| 0 <= i < pairs.len() && (#[trigger] pairs[i]).0@ == k].1@,
    )
}

/// No claim name occurs twice.
pub open spec fn names_distinct(pairs: Seq<(String, String)>) -> bool {
    forall|i: int, j: int|
        0 <= i < pairs.len() && 0 <= j < pairs.len() && i != j ==> (#[trigger] pairs[i]).0@
            != (#[trigger] pairs[j]).0@
}

/// The token string that `claims.sign_with_key(&key)` of the jwt crate makes, for
/// the claims as a map from names to string values and `key` an HMAC-SHA256 key
/// made from `secret`.
pub uninterp spec fn signed_token(secret: Seq<u8>, claims: Map<Seq<char>, Seq<char>>) -> Seq<char>;

/// What checking a token yields.
pub enum TokenVerdict {
    /// The token is genuine; these are its claims.
    Claims(Map<Seq<char>, Seq<char>>),
    /// `jwt::Error::InvalidSignature`.
    BadSignature,
    /// Any other `jwt::Error`.
    Rejected,
}

/// What `token.verify_with_key(&key)` of the jwt crate gives, read into a
/// `BTreeMap<String, String>`, with `key` an HMAC-SHA256 key made from `secret`.
pub uninterp spec fn token_verdict(secret: Seq<u8>, token: Seq<char>) -> TokenVerdict;

/// The text of `jwt::Error::InvalidSignature`.
pub open spec fn invalid_signature_text() -> Seq<char> {
    "Invalid signature"@
}

/// Makes an HMAC-SHA256 key from `secret` with `Hmac::new_from_slice` (which takes
/// keys of any length) and signs the claims, gathered in a `BTreeMap`, with
/// `SignWithKey::sign_with_key` of the jwt crate. Signing a map of strings does not
/// fail. The token is named by `signed_token`; as the jwt source shows, checking
/// it with the same secret gives back the claims it was made from.
#[verifier::external_body]
fn sign_claims(secret: &[u8], claims: &Vec<(String, String)>) -> (r: String)
    requires
        names_distinct(claims@),
    ensures
        r@ == signed_token(secret@, claims_map(claims@)),
        token_verdict(secret@, r@) == TokenVerdict::Claims(claims_map(claims@)),
{
    let key: Hmac<Sha256> = Hmac::new_from_slice(secret).unwrap();
    let map: BTreeMap<&str, &String> = claims.iter().map(|(k, v)| (k.as_str(), v)).collect();
    map.sign_with_key(&key).unwrap()
}

/// Makes the same key and calls `VerifyWithKey::verify_with_key` of the jwt crate
/// for a `BTreeMap<String, String>` of claims; the map's entries come back as pairs,
/// each name once. Besides naming the verdict, the contract states the text that
/// `InvalidSignature` displays.
#[verifier::external_body]
fn verify_token(secret: &[u8], token: &str) -> (r: Result<Vec<(String, String)>, TokenError>)
    ensures
        match token_verdict(secret@, token@) {
            TokenVerdict::Claims(c) => r matches Ok(v) && names_distinct(v@) && claims_map(v@) == c,
            TokenVerdict::BadSignature => r matches Err(TokenError::InvalidSignature(m)) && m@
                == invalid_signature_text(),
            TokenVerdict::Rejected => r matches Err(TokenError::Other),
        },
{
    let key: Hmac<Sha256> = Hmac::new_from_slice(secret).unwrap();
    let verified: Result<BTreeMap<String, String>, jwt::Error> = token.verify_with_key(&key);
    match verified {
        Ok(map) => Ok(map.into_iter().collect()),
        Err(e @ jwt::Error::InvalidSignature) => Err(TokenError::InvalidSignature(e.to_string())),
        Err(_) => Err(TokenError::Other),
    }
}

} // verus!

verus! {

// ---------------------------------------------------------------------------
// Login and token checks

/// The claims of the token a login issues: the user name that was given, the
/// stored role, and whether this is the first login, in decimal.
pub open spec fn login_claims(username: Seq<char>, role: Seq<char>, first_login: i8) -> Map<Seq<char>, Seq<char>> {
    Map::empty().insert("username"@, username).insert("role"@, role).insert(
        "first_login"@,
        decimal(first_login as int),
    )
}

/// The text of a refused login.
pub open spec fn login_failed_text() -> Seq<char> {
    "username or password incorrect"@
}

/// What a login answers, for a stored user whose hash parses.
pub open spec fn login_outcome(user: UserLog, data: UserData, secret: Seq<u8>) -> Result<Seq<char>, (ErrorKind, Seq<char>)> {
    if password_verifies(encode_utf8(data.pwd@), user.pwd@) {
        Ok(signed_token(secret, login_claims(data.username@, user.rol@, user.first_login)))
    } else {
        Err((ErrorKind::Login, login_failed_text()))
    }
}

/// The (name, value) pairs of the login claims.
fn login_claim_pairs(username: &String, role: &String, first_login: i8) -> (r: Vec<(String, String)>)
    ensures
        names_distinct(r@),
        claims_map(r@) == login_claims(username@, role@, first_login),
{
    let mut pairs: Vec<(String, String)> = Vec::new();
    pairs.push((String::from_str("username"), username.clone()));
    pairs.push((String::from_str("role"), role.clone()));
    pairs.push((String::from_str("first_login"), i64_text(first_login as i64)));
    proof {
        reveal_strlit("username");
        reveal_strlit("role");
        reveal_strlit("first_login");
        let m = claims_map(pairs@);
        let want = login_claims(username@, role@, first_login);
        assert("username"@.len() == 8 && "role"@.len() == 4 && "first_login"@.len() == 11);
        assert(pairs@[0].0@ == "username"@ && pairs@[1].0@ == "role"@ && pairs@[2].0@ == "first_login"@);
        assert(pairs@[0].0@ != pairs@[1].0@);
        assert(pairs@[0].0@ != pairs@[2].0@);
        assert(pairs@[1].0@ != pairs@[2].0@);
        assert forall|k: Seq<char>| #[trigger] m.dom().contains(k) == want.dom().contains(k) by {
            if want.dom().contains(k) {
                if k == "username"@ {
                    assert(pairs@[0].0@ == k);
                } else if k == "role"@ {
                    assert(pairs@[1].0@ == k);
                } else {
                    assert(pairs@[2].0@ == k);
                }
            }
        }
        assert forall|k: Seq<char>| #[trigger] m.dom().contains(k) implies m[k] == want[k] by {
            let i = choose|i: int| 0 <= i < pairs@.len() && (#[trigger] pairs@[i]).0@ == k;
            assert(0 <= i < 3);
        }
        assert(m =~= want);
    }
    pairs
}

/// What a login token is to carry.
#[derive(Debug, Clone, PartialEq, Eq)]
pub struct LoginClaims {
    pub username: String,
    pub role: String,
    pub first_login: i8,
}

/// The claims as a map from names to values.
pub open spec fn claims_of(c: LoginClaims) -> Map<Seq<char>, Seq<char>> {
    login_claims(c.username@, c.role@, c.first_login)
}

/// Checks a password against the stored user: one that verifies against the
/// stored hash gets the claims of its token (the name given, the stored role and
/// first-login mark); any other is refused. `None` when the stored hash is not a
/// PHC string, where no answer can be given.
pub fn check_login(user: &UserLog, data: &UserData) -> (r: Option<Result<LoginClaims, MyError>>)
    ensures
        r is None <==> !phc_hash_parses(user.pwd@),
        r matches Some(Ok(c)) ==> password_verifies(encode_utf8(data.pwd@), user.pwd@)
            && claims_of(c) == login_claims(data.username@, user.rol@, user.first_login),
        r matches Some(Err(e)) ==> !password_verifies(encode_utf8(data.pwd@), user.pwd@)
            && e@ == (ErrorKind::Login, login_failed_text()),
{
    let password = data.pwd.as_str().as_bytes();
    match verify_stored_password(password, user.pwd.as_str()) {
        None => None,
        Some(true) => Some(
            Ok(LoginClaims { username: data.username.clone(), role: user.rol.clone(), first_login: user.first_login }),
        ),
        Some(false) => Some(Err(MyError::LoginError(String::from_str("username or password incorrect")))),
    }
}

/// Signs the claims into a token with the secret.
pub fn issue_token(claims: &LoginClaims, secret: &[u8]) -> (t: String)
    ensures
        t@ == signed_token(secret@, claims_of(*claims)),
        token_verdict(secret@, t@) == TokenVerdict::Claims(claims_of(*claims)),
{
    let pairs = login_claim_pairs(&claims.username, &claims.role, claims.first_login);
    sign_claims(secret, &pairs)
}

/// Logs a user in: `check_login`, then `issue_token` for a password that
/// verifies.
pub fn login_user(user: &UserLog, data: &UserData, secret: &[u8]) -> (r: Option<Result<String, MyError>>)
    ensures
        r is None <==> !phc_hash_parses(user.pwd@),
        r matches Some(a) ==> answer_view(a) == login_outcome(*user, *data, secret@),
        r matches Some(Ok(t)) ==> token_verdict(secret@, t@) == TokenVerdict::Claims(
            login_claims(data.username@, user.rol@, user.first_login),
        ),
{
    match check_login(user, data) {
        None => None,
        Some(Err(e)) => Some(Err(e)),
        Some(Ok(claims)) => Some(Ok(issue_token(&claims, secret))),
    }
}

/// What checking a token answers: the role it carries, or why it was refused;
/// `None` for a genuine token without a role claim, where no answer can be given.
pub open spec fn check_outcome(secret: Seq<u8>, token: Seq<char>) -> Option<Result<Seq<char>, (ErrorKind, Seq<char>)>> {
    match token_verdict(secret, token) {
        TokenVerdict::Claims(c) => if c.contains_key("role"@) {
            Some(Ok(c["role"@]))
        } else {
            None
        },
        TokenVerdict::BadSignature => Some(Err((ErrorKind::Forbidden, invalid_signature_text()))),
        TokenVerdict::Rejected => Some(Err((ErrorKind::Internal, super::internal_error_text()))),
    }
}

/// The value of the claim called `name`, if there is one.
fn claim_value(pairs: &Vec<(String, String)>, name: &String) -> (r: Option<String>)
    requires
        names_distinct(pairs@),
    ensures
        match r {
            Some(v) => claims_map(pairs@).contains_key(name@) && v@ == claims_map(pairs@)[name@],
            None => !claims_map(pairs@).contains_key(name@),
        },
{
    let mut i: usize = 0;
    while i < pairs.len()
        invariant
            i <= pairs.len(),
            names_distinct(pairs@),
            forall|j: int| 0 <= j < i ==> (#[trigger] pairs@[j]).0@ != name@,
        decreases pairs.len() - i,
    {
        if pairs[i].0 == *name {
            proof {
                let m = claims_map(pairs@);
                assert(pairs@[i as int].0@ == name@);
                assert(m.dom().contains(name@));
                let c = choose|c: int| 0 <= c < pairs@.len() && (#[trigger] pairs@[c]).0@ == name@;
                assert(c == i);
            }
            return Some(pairs[i].1.clone());
        }
        i = i + 1;
    }
    None
}

/// Checks a token against the secret and answers the role it carries.
pub fn check(token: &str, secret: &[u8]) -> (r: Option<Result<String, MyError>>)
    ensures
        match r {
            Some(a) => check_outcome(secret@, token@) == Some(answer_view(a)),
            None => check_outcome(secret@, token@) is None,
        },
{
    match verify_token(secret, token) {
        Ok(pairs) => {
            let role_name = String::from_str("role");
            match claim_value(&pairs, &role_name) {
                Some(role) => Some(Ok(role)),
                None => None,
            }
        },
        Err(e) => Some(Err(MyError::from_token_error(e))),
    }
}

/// A token issued at login passes `check`, which answers the role stored for
/// the user.
pub proof fn lemma_login_token_checks_role(secret: Seq<u8>, token: Seq<char>, username: Seq<char>, role: Seq<char>, first_login: i8)
    requires
        token_verdict(secret, token) == TokenVerdict::Claims(login_claims(username, role, first_login)),
    ensures
        check_outcome(secret, token) == Some(Ok::<Seq<char>, (ErrorKind, Seq<char>)>(role)),
{
    reveal_strlit("role");
    reveal_strlit("first_login");
    assert("role"@.len() == 4 && "first_login"@.len() == 11);
    assert("role"@ != "first_login"@);
    let c = login_claims(username, role, first_login);
    assert(c.contains_key("role"@));
    assert(c["role"@] == role);
}

} // verus!

verus! {

// ---------------------------------------------------------------------------
// Statements on the users table

pub const REGISTER_USER_SQL: &'static str = "INSERT INTO users values(0,?,?,?,1)";

pub const RESET_PASSWORD_SQL: &'static str = "UPDATE users SET first_login = 0, pwd = ? WHERE username = ?";

/// The insert of a new user with the password hash `h`; the user must change
/// the password at first login.
pub open spec fn register_view(data: UserData, h: Seq<char>) -> StatementView {
    StatementView {
        sql: REGISTER_USER_SQL@,
        params: seq![
            ParamView::Text(data.username@),
            ParamView::Text(h),
            ParamView::OptionalText(optional_view(data.rol)),
        ],
    }
}

/// The update that gives a user the password hash `h` and marks the first login
/// as done.
pub open spec fn reset_view(data: ResetPwd, h: Seq<char>) -> StatementView {
    StatementView {
        sql: RESET_PASSWORD_SQL@,
        params: seq![ParamView::Text(h), ParamView::Text(data.username@)],
    }
}

/// A hash of `password` made with some salt; such a hash parses and verifies.
pub open spec fn hash_of(password: Seq<u8>, h: Seq<char>) -> bool {
    &&& exists|salt: Seq<char>| (#[trigger] argon2_hash(password, salt)) == Some(h)
    &&& phc_hash_parses(h)
    &&& password_verifies(password, h)
}

/// A registration of `data`: the insert of the user with a hash of the password.
pub open spec fn is_register_statement(data: UserData, s: StatementView) -> bool {
    exists|h: Seq<char>| hash_of(encode_utf8(data.pwd@), h) && s == #[trigger] register_view(data, h)
}

/// A password reset for `data`: the update with a hash of the new password.
pub open spec fn is_reset_statement(data: ResetPwd, s: StatementView) -> bool {
    exists|h: Seq<char>| hash_of(encode_utf8(data.pwd@), h) && s == #[trigger] reset_view(data, h)
}

/// The registration of `data` with the hash of its password made with `salt`;
/// `None` when argon2 refuses the salt or the password.
pub fn register_user_statement_salted(data: &UserData, salt: &str) -> (r: Option<Statement>)
    ensures
        match argon2_hash(encode_utf8(data.pwd@), salt@) {
            Some(h) => r matches Some(s) && s@ == register_view(*data, h),
            None => r is None,
        },
{
    let password = data.pwd.as_str().as_bytes();
    match hash_with_salt(password, salt) {
        Some(hash) => Some(
            statement3(REGISTER_USER_SQL, text_param(&data.username), SqlParam::Text(hash), optional_text_param(&data.rol)),
        ),
        None => None,
    }
}

/// The password reset of `data` with the hash of the new password made with
/// `salt`; `None` when argon2 refuses the salt or the password.
pub fn reset_password_statement_salted(data: &ResetPwd, salt: &str) -> (r: Option<Statement>)
    ensures
        match argon2_hash(encode_utf8(data.pwd@), salt@) {
            Some(h) => r matches Some(s) && s@ == reset_view(*data, h),
            None => r is None,
        },
{
    let password = data.pwd.as_str().as_bytes();
    match hash_with_salt(password, salt) {
        Some(hash) => Some(statement2(RESET_PASSWORD_SQL, SqlParam::Text(hash), text_param(&data.username))),
        None => None,
    }
}

/// Registers `data` with a hash of the password made with a freshly drawn salt.
/// The salt is random, so the hash is stated only as a hash of the password with
/// some salt.
pub fn register_user_statement(data: &UserData) -> (r: Statement)
    requires
        encode_utf8(data.pwd@).len() <= 0xFFFF_FFFF,
    ensures
        is_register_statement(*data, r@),
{
    let salt = draw_salt();
    let password = data.pwd.as_str().as_bytes();
    let ghost p = encode_utf8(data.pwd@);
    assert(argon2_hash(p, salt@) is Some);
    let hash = hash_with_salt(password, salt.as_str()).unwrap();
    let r = statement3(REGISTER_USER_SQL, text_param(&data.username), SqlParam::Text(hash), optional_text_param(&data.rol));
    assert(r@ == register_view(*data, hash@));
    assert(hash_of(p, hash@));
    r
}

/// Gives a user a hash of the new password made with a freshly drawn salt, and
/// marks the first login as done.
pub fn reset_password_statement(data: &ResetPwd) -> (r: Statement)
    requires
        encode_utf8(data.pwd@).len() <= 0xFFFF_FFFF,
    ensures
        is_reset_statement(*data, r@),
{
    let salt = draw_salt();
    let password = data.pwd.as_str().as_bytes();
    let ghost p = encode_utf8(data.pwd@);
    assert(argon2_hash(p, salt@) is Some);
    let hash = hash_with_salt(password, salt.as_str()).unwrap();
    let r = statement2(RESET_PASSWORD_SQL, SqlParam::Text(hash), text_param(&data.username));
    assert(r@ == reset_view(*data, hash@));
    assert(hash_of(p, hash@));
    r
}

/// Reads what login needs of the user with this name (at most one row).
pub fn get_user_statement(username: &str) -> (r: Statement)
    ensures
        r@.sql == "SELECT pwd, rol, first_login FROM users WHERE username=?"@,
        r@.params == seq![ParamView::Text(username@)],
{
    statement1("SELECT pwd, rol, first_login FROM users WHERE username=?", str_param(username))
}

/// The text of a missing user.
pub open spec fn user_not_found_text(username: Seq<char>) -> Seq<char> {
    "user "@ + username + " not found"@
}

/// The user that was found, or a not-found error naming the user.
pub fn user_or_not_found(found: Option<UserLog>, username: &str) -> (r: Result<UserLog, MyError>)
    ensures
        match found {
            Some(u) => r == Ok::<UserLog, MyError>(u),
            None => r matches Err(e) && e@ == (ErrorKind::UserNotFound, user_not_found_text(username@)),
        },
{
    match found {
        Some(u) => Ok(u),
        None => {
            let mut text = String::from_str("user ");
            text.append(username);
            text.append(" not found");
            Err(MyError::UserNotFoundError(text))
        },
    }
}

} // verus!

verus! {

// ---------------------------------------------------------------------------
// Registration, reset and login together

/// The users row a registration writes, as the database gives it back: the
/// stored hash, the role given, and a first login still to come (the statement
/// writes 1).
pub open spec fn row_written_by_registration(s: StatementView, row: UserLog) -> bool {
    &&& s.params[1] == ParamView::Text(row.pwd@)
    &&& s.params[2] == ParamView::OptionalText(Some(row.rol@))
    &&& row.first_login == 1
}

/// The users row after a password reset, as the database gives it back: the
/// new hash, and the first login done (the statement writes 0).
pub open spec fn row_written_by_reset(s: StatementView, row: UserLog) -> bool {
    &&& s.params[0] == ParamView::Text(row.pwd@)
    &&& row.first_login == 0
}

/// A user registered with a role logs in with the password given at
/// registration; the token carries the name given at login, that role, and
/// first login "1".
pub proof fn lemma_registered_user_logs_in(
    data: UserData,
    s: StatementView,
    row: UserLog,
    login: UserData,
    secret: Seq<u8>,
)
    requires
        is_register_statement(data, s),
        row_written_by_registration(s, row),
        login.pwd@ == data.pwd@,
    ensures
        data.rol matches Some(r) && r@ == row.rol@,
        login_outcome(row, login, secret) == Ok::<Seq<char>, (ErrorKind, Seq<char>)>(
            signed_token(secret, login_claims(login.username@, row.rol@, 1)),
        ),
        decimal(1) == "1"@,
{
    let h = choose|h: Seq<char>| hash_of(encode_utf8(data.pwd@), h) && s == #[trigger] register_view(data, h);
    assert(s.params[1] == ParamView::Text(h));
    assert(s.params[2] == ParamView::OptionalText(optional_view(data.rol)));
    reveal_strlit("1");
    assert(decimal(1) == seq!['1']);
}

/// After a reset a user logs in with the new password; the token carries first
/// login "0".
pub proof fn lemma_reset_user_logs_in(
    data: ResetPwd,
    s: StatementView,
    row: UserLog,
    login: UserData,
    secret: Seq<u8>,
)
    requires
        is_reset_statement(data, s),
        row_written_by_reset(s, row),
        login.pwd@ == data.pwd@,
    ensures
        login_outcome(row, login, secret) == Ok::<Seq<char>, (ErrorKind, Seq<char>)>(
            signed_token(secret, login_claims(login.username@, row.rol@, 0)),
        ),
        decimal(0) == "0"@,
{
    let h = choose|h: Seq<char>| hash_of(encode_utf8(data.pwd@), h) && s == #[trigger] reset_view(data, h);
    assert(s.params[0] == ParamView::Text(h));
    reveal_strlit("0");
    assert(decimal(0) == seq!['0']);
}

/// The claims of a login token: exactly the user name given at login, the
/// stored role, and the first-login mark in decimal.
pub proof fn lemma_login_claims_content(username: Seq<char>, role: Seq<char>, first_login: i8)
    ensures
        login_claims(username, role, first_login).dom() =~= set!["username"@, "role"@, "first_login"@],
        login_claims(username, role, first_login)["username"@] == username,
        login_claims(username, role, first_login)["role"@] == role,
        login_claims(username, role, first_login)["first_login"@] == decimal(first_login as int),
{
    reveal_strlit("username");
    reveal_strlit("role");
    reveal_strlit("first_login");
    assert("username"@.len() == 8 && "role"@.len() == 4 && "first_login"@.len() == 11);
}

/// A login answers with a token exactly when the password verifies against the
/// stored hash, and otherwise refuses with the login error.
pub proof fn lemma_login_decision(user: UserLog, data: UserData, secret: Seq<u8>)
    ensures
        password_verifies(encode_utf8(data.pwd@), user.pwd@) ==> login_outcome(user, data, secret) is Ok,
        !password_verifies(encode_utf8(data.pwd@), user.pwd@) ==> login_outcome(user, data, secret) == Err::<
            Seq<char>,
            (ErrorKind, Seq<char>),
        >((ErrorKind::Login, "username or password incorrect"@)),
{
}

} // verus!
