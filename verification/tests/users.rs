use argon2::password_hash::{PasswordHash, PasswordHasher, PasswordVerifier, SaltString};
use argon2::Argon2;
use hmac::{Hmac, Mac};
use jwt::{SignWithKey, VerifyWithKey};
use sha2::Sha256;
use std::collections::BTreeMap;

use tfg_backend::database::statement::SqlParam;
use tfg_backend::database::users::{
    check, check_login, get_user_statement, issue_token, login_user, register_user_statement,
    register_user_statement_salted, reset_password_statement, reset_password_statement_salted, LoginClaims,
    user_or_not_found, ResetPwd, UserData, UserLog,
};
use tfg_backend::database::MyError;

const SECRET: &[u8] = b"a-test-signing-key";

fn user_data(username: &str, pwd: &str, rol: Option<&str>) -> UserData {
    UserData { username: username.to_string(), pwd: pwd.to_string(), rol: rol.map(|r| r.to_string()), token: None }
}

fn stored_hash(pwd: &str) -> String {
    let st = register_user_statement(&user_data("someone", pwd, Some("guest")));
    match &st.params[1] {
        SqlParam::Text(h) => h.clone(),
        other => panic!("unexpected parameter {:?}", other),
    }
}

#[test]
fn register_statement_stores_a_hash_that_verifies() {
    let st = register_user_statement(&user_data("ana", "hunter42", Some("editor")));
    assert_eq!(st.sql, "INSERT INTO users values(0,?,?,?,1)");
    assert_eq!(st.params.len(), 3);
    assert_eq!(st.params[0], SqlParam::Text("ana".to_string()));
    assert_eq!(st.params[2], SqlParam::OptionalText(Some("editor".to_string())));
    let hash = match &st.params[1] {
        SqlParam::Text(h) => h.clone(),
        other => panic!("unexpected parameter {:?}", other),
    };
    assert_ne!(hash, "hunter42");
    assert!(hash.starts_with("$argon2id$"));
    let parsed = PasswordHash::new(&hash).unwrap();
    assert!(Argon2::default().verify_password(b"hunter42", &parsed).is_ok());
    assert!(Argon2::default().verify_password(b"hunter43", &parsed).is_err());
}

#[test]
fn register_statement_binds_null_role_when_absent() {
    let st = register_user_statement(&user_data("ana", "x", None));
    assert_eq!(st.params[2], SqlParam::OptionalText(None));
}

#[test]
fn two_registrations_salt_differently() {
    assert_ne!(stored_hash("same"), stored_hash("same"));
}

#[test]
fn reset_password_statement_stores_a_new_hash() {
    let data = ResetPwd { username: "ana".to_string(), pwd: "n3w".to_string(), token: "t".to_string() };
    let st = reset_password_statement(&data);
    assert_eq!(st.sql, "UPDATE users SET first_login = 0, pwd = ? WHERE username = ?");
    assert_eq!(st.params[1], SqlParam::Text("ana".to_string()));
    let hash = match &st.params[0] {
        SqlParam::Text(h) => h.clone(),
        other => panic!("unexpected parameter {:?}", other),
    };
    let parsed = PasswordHash::new(&hash).unwrap();
    assert!(Argon2::default().verify_password(b"n3w", &parsed).is_ok());
}

#[test]
fn get_user_statement_selects_by_name() {
    let st = get_user_statement("bob");
    assert_eq!(st.sql, "SELECT pwd, rol, first_login FROM users WHERE username=?");
    assert_eq!(st.params, vec![SqlParam::Text("bob".to_string())]);
}

#[test]
fn missing_user_is_named_in_the_error() {
    assert_eq!(
        user_or_not_found(None, "bob"),
        Err(MyError::UserNotFoundError("user bob not found".to_string()))
    );
    let u = UserLog { pwd: "h".to_string(), rol: "guest".to_string(), first_login: 0 };
    assert_eq!(user_or_not_found(Some(u.clone()), "bob"), Ok(u));
}

#[test]
fn login_with_the_registered_password_issues_a_token_with_the_claims() {
    let user = UserLog { pwd: stored_hash("pw"), rol: "editor".to_string(), first_login: 1 };
    let token = login_user(&user, &user_data("ana", "pw", None), SECRET).unwrap().unwrap();
    let key: Hmac<Sha256> = Hmac::new_from_slice(SECRET).unwrap();
    let claims: BTreeMap<String, String> = token.as_str().verify_with_key(&key).unwrap();
    let mut expected = BTreeMap::new();
    expected.insert("username".to_string(), "ana".to_string());
    expected.insert("role".to_string(), "editor".to_string());
    expected.insert("first_login".to_string(), "1".to_string());
    assert_eq!(claims, expected);
}

#[test]
fn first_login_claim_is_written_in_decimal() {
    let user = UserLog { pwd: stored_hash("pw"), rol: "guest".to_string(), first_login: -12 };
    let token = login_user(&user, &user_data("ana", "pw", None), SECRET).unwrap().unwrap();
    let key: Hmac<Sha256> = Hmac::new_from_slice(SECRET).unwrap();
    let claims: BTreeMap<String, String> = token.as_str().verify_with_key(&key).unwrap();
    assert_eq!(claims["first_login"], "-12");
}

#[test]
fn login_token_passes_check_with_the_role() {
    let user = UserLog { pwd: stored_hash("pw"), rol: "administrator".to_string(), first_login: 0 };
    let token = login_user(&user, &user_data("root", "pw", None), SECRET).unwrap().unwrap();
    assert_eq!(check(&token, SECRET), Some(Ok("administrator".to_string())));
}

#[test]
fn wrong_password_is_refused() {
    let user = UserLog { pwd: stored_hash("pw"), rol: "editor".to_string(), first_login: 0 };
    assert_eq!(
        login_user(&user, &user_data("ana", "wrong", None), SECRET),
        Some(Err(MyError::LoginError("username or password incorrect".to_string())))
    );
}

#[test]
fn unparsable_stored_hash_gives_no_answer() {
    let user = UserLog { pwd: "plain text".to_string(), rol: "editor".to_string(), first_login: 0 };
    assert_eq!(login_user(&user, &user_data("ana", "plain text", None), SECRET), None);
}

#[test]
fn malformed_token_is_an_internal_error() {
    assert_eq!(check("not a token", SECRET), Some(Err(MyError::InternalError("Internal error".to_string()))));
}

#[test]
fn token_of_another_secret_is_an_internal_error() {
    let key: Hmac<Sha256> = Hmac::new_from_slice(b"other").unwrap();
    let mut claims = BTreeMap::new();
    claims.insert("role", "administrator");
    let token = claims.sign_with_key(&key).unwrap();
    assert_eq!(check(&token, SECRET), Some(Err(MyError::InternalError("Internal error".to_string()))));
}

#[test]
fn token_without_role_gives_no_answer() {
    let key: Hmac<Sha256> = Hmac::new_from_slice(SECRET).unwrap();
    let mut claims = BTreeMap::new();
    claims.insert("username", "ana");
    let token = claims.sign_with_key(&key).unwrap();
    assert_eq!(check(&token, SECRET), None);
}

const SALT: &str = "c2FsdHNhbHRzYWx0";

fn direct_hash(pwd: &str, salt: &str) -> String {
    Argon2::default().hash_password(pwd.as_bytes(), &SaltString::from_b64(salt).unwrap()).unwrap().to_string()
}

#[test]
fn a_given_salt_gives_the_argon2_hash_of_the_password() {
    let st = register_user_statement_salted(&user_data("ana", "hunter42", Some("editor")), SALT).unwrap();
    assert_eq!(st.sql, "INSERT INTO users values(0,?,?,?,1)");
    assert_eq!(
        st.params,
        vec![
            SqlParam::Text("ana".to_string()),
            SqlParam::Text(direct_hash("hunter42", SALT)),
            SqlParam::OptionalText(Some("editor".to_string())),
        ]
    );
    let again = register_user_statement_salted(&user_data("ana", "hunter42", Some("editor")), SALT).unwrap();
    assert_eq!(st, again);
}

#[test]
fn a_refused_salt_gives_no_statement() {
    assert_eq!(register_user_statement_salted(&user_data("ana", "pw", None), "a$b"), None);
    assert_eq!(register_user_statement_salted(&user_data("ana", "pw", None), "abc"), None);
    let reset = ResetPwd { username: "ana".to_string(), pwd: "pw".to_string(), token: "t".to_string() };
    assert_eq!(reset_password_statement_salted(&reset, "a$b"), None);
}

#[test]
fn a_reset_with_a_given_salt_stores_that_hash() {
    let reset = ResetPwd { username: "ana".to_string(), pwd: "n3w".to_string(), token: "t".to_string() };
    let st = reset_password_statement_salted(&reset, SALT).unwrap();
    assert_eq!(st.sql, "UPDATE users SET first_login = 0, pwd = ? WHERE username = ?");
    assert_eq!(st.params, vec![SqlParam::Text(direct_hash("n3w", SALT)), SqlParam::Text("ana".to_string())]);
}

#[test]
fn check_login_gives_the_claims_and_issue_token_signs_them() {
    let user = UserLog { pwd: stored_hash("pw"), rol: "editor".to_string(), first_login: 1 };
    let claims = check_login(&user, &user_data("ana", "pw", None)).unwrap().unwrap();
    assert_eq!(claims, LoginClaims { username: "ana".to_string(), role: "editor".to_string(), first_login: 1 });
    let token = issue_token(&claims, SECRET);
    assert_eq!(check(&token, SECRET), Some(Ok("editor".to_string())));
    assert_eq!(
        check_login(&user, &user_data("ana", "nope", None)),
        Some(Err(MyError::LoginError("username or password incorrect".to_string())))
    );
    let broken = UserLog { pwd: "x".to_string(), rol: "editor".to_string(), first_login: 1 };
    assert_eq!(check_login(&broken, &user_data("ana", "x", None)), None);
}

fn claims_of_token(token: &str) -> BTreeMap<String, String> {
    let key: Hmac<Sha256> = Hmac::new_from_slice(SECRET).unwrap();
    token.verify_with_key(&key).unwrap()
}

#[test]
fn a_registered_user_logs_in_with_first_login_one() {
    let data = user_data("ana", "pw", Some("editor"));
    let st = register_user_statement(&data);
    let row = match (&st.params[1], &st.params[2]) {
        (SqlParam::Text(h), SqlParam::OptionalText(Some(r))) => UserLog { pwd: h.clone(), rol: r.clone(), first_login: 1 },
        other => panic!("{:?}", other),
    };
    let token = login_user(&row, &user_data("ana", "pw", None), SECRET).unwrap().unwrap();
    let claims = claims_of_token(&token);
    assert_eq!(claims["role"], "editor");
    assert_eq!(claims["first_login"], "1");
}

#[test]
fn after_a_reset_the_new_password_logs_in_and_the_old_one_does_not() {
    let reset = ResetPwd { username: "ana".to_string(), pwd: "new".to_string(), token: "t".to_string() };
    let st = reset_password_statement(&reset);
    let row = match &st.params[0] {
        SqlParam::Text(h) => UserLog { pwd: h.clone(), rol: "editor".to_string(), first_login: 0 },
        other => panic!("{:?}", other),
    };
    let token = login_user(&row, &user_data("ana", "new", None), SECRET).unwrap().unwrap();
    assert_eq!(claims_of_token(&token)["first_login"], "0");
    assert_eq!(
        login_user(&row, &user_data("ana", "old", None), SECRET),
        Some(Err(MyError::LoginError("username or password incorrect".to_string())))
    );
}
