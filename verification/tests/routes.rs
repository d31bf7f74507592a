use hmac::{Hmac, Mac};
use jwt::SignWithKey;
use sha2::Sha256;
use std::collections::BTreeMap;

use tfg_backend::database::statement::SqlParam;
use tfg_backend::database::users::{login_user, register_user_statement, UserData, UserLog};
use tfg_backend::database::MyError;
use tfg_backend::routes::{authorize_edit, authorize_registration, registered_message, success_message, CatalogEdit};

const SECRET: &[u8] = b"route-key";

fn token_for(role: &str) -> String {
    let key: Hmac<Sha256> = Hmac::new_from_slice(SECRET).unwrap();
    let mut claims = BTreeMap::new();
    claims.insert("username", "someone");
    claims.insert("role", role);
    claims.insert("first_login", "0");
    claims.sign_with_key(&key).unwrap()
}

const EDITS: [CatalogEdit; 5] = [
    CatalogEdit::AddProduct,
    CatalogEdit::DeleteProduct,
    CatalogEdit::ModifyProduct,
    CatalogEdit::AddProperty,
    CatalogEdit::DeleteProperty,
];

#[test]
fn a_guest_is_refused_every_change() {
    let token = token_for("guest");
    assert_eq!(
        authorize_edit(&token, SECRET, CatalogEdit::AddProduct),
        Some(Err(MyError::ForbiddenError("".to_string())))
    );
    for op in &EDITS[1..] {
        assert_eq!(
            authorize_edit(&token, SECRET, *op),
            Some(Err(MyError::ForbiddenError("you don't have permission".to_string())))
        );
    }
}

#[test]
fn other_roles_may_change_the_catalogue() {
    for role in ["administrator", "editor", "Guest"] {
        let token = token_for(role);
        for op in EDITS {
            assert_eq!(authorize_edit(&token, SECRET, op), Some(Ok(())));
        }
    }
}

#[test]
fn a_bad_token_is_answered_with_its_failure() {
    assert_eq!(
        authorize_edit("garbage", SECRET, CatalogEdit::DeleteProduct),
        Some(Err(MyError::InternalError("Internal error".to_string())))
    );
}

#[test]
fn only_an_administrator_registers_users() {
    assert_eq!(authorize_registration(&Some(token_for("administrator")), SECRET), Some(Ok(())));
    for role in ["editor", "guest", "admin"] {
        assert_eq!(
            authorize_registration(&Some(token_for(role)), SECRET),
            Some(Err(MyError::ForbiddenError("you don't have permission".to_string())))
        );
    }
    assert_eq!(
        authorize_registration(&None, SECRET),
        Some(Err(MyError::ForbiddenError("you don't have permission".to_string())))
    );
    assert_eq!(
        authorize_registration(&Some("garbage".to_string()), SECRET),
        Some(Err(MyError::InternalError("Internal error".to_string())))
    );
}

#[test]
fn answers_of_changes_that_went_through() {
    assert_eq!(success_message(CatalogEdit::AddProduct), "product added");
    assert_eq!(success_message(CatalogEdit::DeleteProduct), "product deleted");
    assert_eq!(success_message(CatalogEdit::ModifyProduct), "product modified");
    assert_eq!(success_message(CatalogEdit::AddProperty), "property added");
    assert_eq!(success_message(CatalogEdit::DeleteProperty), "property added");
    assert_eq!(registered_message(), "user registered");
}

#[test]
fn a_guest_logged_in_cannot_change_the_catalogue_but_an_editor_can() {
    let data = UserData { username: "g".to_string(), pwd: "pw".to_string(), rol: Some("guest".to_string()), token: None };
    let hash = match &register_user_statement(&data).params[1] {
        SqlParam::Text(h) => h.clone(),
        other => panic!("{:?}", other),
    };
    let guest = UserLog { pwd: hash.clone(), rol: "guest".to_string(), first_login: 1 };
    let token = login_user(&guest, &data, SECRET).unwrap().unwrap();
    assert_eq!(
        authorize_edit(&token, SECRET, CatalogEdit::ModifyProduct),
        Some(Err(MyError::ForbiddenError("you don't have permission".to_string())))
    );
    let editor = UserLog { pwd: hash, rol: "editor".to_string(), first_login: 0 };
    let token = login_user(&editor, &data, SECRET).unwrap().unwrap();
    assert_eq!(authorize_edit(&token, SECRET, CatalogEdit::ModifyProduct), Some(Ok(())));
}
