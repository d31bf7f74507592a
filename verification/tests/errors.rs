use tfg_backend::database::{DbError, MyError, TokenError};

#[test]
fn database_error_becomes_constraint_error_with_its_text() {
    let e = MyError::from_database_error(DbError::Database("error returned from database: 1062 (23000): Duplicate entry".to_string()));
    assert_eq!(e, MyError::ConstraintError("error returned from database: 1062 (23000): Duplicate entry".to_string()));
}

#[test]
fn other_database_failure_becomes_internal_error() {
    assert_eq!(MyError::from_database_error(DbError::Other), MyError::InternalError("Internal error".to_string()));
}

#[test]
fn bad_signature_becomes_forbidden() {
    assert_eq!(
        MyError::from_token_error(TokenError::InvalidSignature("Invalid signature".to_string())),
        MyError::ForbiddenError("Invalid signature".to_string())
    );
}

#[test]
fn other_token_failure_becomes_internal_error() {
    assert_eq!(MyError::from_token_error(TokenError::Other), MyError::InternalError("Internal error".to_string()));
}
