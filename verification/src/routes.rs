//! Who may do what: the checks that stand before each request of the service.
use vstd::prelude::*;

use crate::database::users::{check, check_outcome, login_claims, token_verdict, TokenVerdict};
use crate::database::{unit_view, ErrorKind, MyError};

verus! {

/// The text of a refusal for lack of permission.
pub open spec fn no_permission_text() -> Seq<char> {
    "you don't have permission"@
}

/// The changes to the catalogue that a guest may not make.
#[derive(Debug, Clone, Copy, PartialEq, Eq)]
pub enum CatalogEdit {
    AddProduct,
    DeleteProduct,
    ModifyProduct,
    AddProperty,
    DeleteProperty,
}

/// The text a guest is refused with.
pub open spec fn denial_text(op: CatalogEdit) -> Seq<char> {
    match op {
        CatalogEdit::AddProduct => ""@,
        _ => no_permission_text(),
    }
}

/// The text of a change that went through. Deleting a property answers as
/// adding one does.
pub open spec fn success_text(op: CatalogEdit) -> Seq<char> {
    match op {
        CatalogEdit::AddProduct => "product added"@,
        CatalogEdit::DeleteProduct => "product deleted"@,
        CatalogEdit::ModifyProduct => "product modified"@,
        CatalogEdit::AddProperty => "property added"@,
        CatalogEdit::DeleteProperty => "property added"@,
    }
}

/// Whether a change to the catalogue may go ahead, for the token it came with:
/// a token that fails its check is answered with that failure, a guest is
/// refused, and any other role may go ahead. `None` where the token's check
/// gives no answer.
pub open spec fn edit_outcome(secret: Seq<u8>, token: Seq<char>, op: CatalogEdit) -> Option<Result<(), (ErrorKind, Seq<char>)>> {
    match check_outcome(secret, token) {
        None => None,
        Some(Err(e)) => Some(Err(e)),
        Some(Ok(role)) => Some(
            if role == "guest"@ {
                Err((ErrorKind::Forbidden, denial_text(op)))
            } else {
                Ok(())
            },
        ),
    }
}

/// Decides whether a change to the catalogue may go ahead.
pub fn authorize_edit(token: &str, secret: &[u8], op: CatalogEdit) -> (r: Option<Result<(), MyError>>)
    ensures
        match r {
            Some(a) => edit_outcome(secret@, token@, op) == Some(unit_view(a)),
            None => edit_outcome(secret@, token@, op) is None,
        },
{
    match check(token, secret) {
        None => None,
        Some(Err(e)) => Some(Err(e)),
        Some(Ok(role)) => {
            if role == String::from_str("guest") {
                let text = match op {
                    CatalogEdit::AddProduct => String::from_str(""),
                    _ => String::from_str("you don't have permission"),
                };
                Some(Err(MyError::ForbiddenError(text)))
            } else {
                Some(Ok(()))
            }
        },
    }
}

/// The answer to a change that went through.
pub fn success_message(op: CatalogEdit) -> (r: String)
    ensures
        r@ == success_text(op),
{
    match op {
        CatalogEdit::AddProduct => String::from_str("product added"),
        CatalogEdit::DeleteProduct => String::from_str("product deleted"),
        CatalogEdit::ModifyProduct => String::from_str("product modified"),
        CatalogEdit::AddProperty => String::from_str("property added"),
        CatalogEdit::DeleteProperty => String::from_str("property added"),
    }
}

/// Whether a new user may be registered: only with a token whose role is
/// `administrator`. No token is refused; a token that fails its check is
/// answered with that failure. `None` where the token's check gives no answer.
pub open spec fn registration_outcome(secret: Seq<u8>, token: Option<Seq<char>>) -> Option<Result<(), (ErrorKind, Seq<char>)>> {
    match token {
        None => Some(Err((ErrorKind::Forbidden, no_permission_text()))),
        Some(t) => match check_outcome(secret, t) {
            None => None,
            Some(Err(e)) => Some(Err(e)),
            Some(Ok(role)) => Some(
                if role == "administrator"@ {
                    Ok(())
                } else {
                    Err((ErrorKind::Forbidden, no_permission_text()))
                },
            ),
        },
    }
}

/// Decides whether a new user may be registered.
pub fn authorize_registration(token: &Option<String>, secret: &[u8]) -> (r: Option<Result<(), MyError>>)
    ensures
        ({
            let t = match token {
                Some(s) => Some(s@),
                None => None,
            };
            match r {
                Some(a) => registration_outcome(secret@, t) == Some(unit_view(a)),
                None => registration_outcome(secret@, t) is None,
            }
        }),
{
    let role = match token {
        Some(t) => match check(t.as_str(), secret) {
            None => {
                return None;
            },
            Some(Err(e)) => {
                return Some(Err(e));
            },
            Some(Ok(role)) => role,
        },
        None => {
            return Some(Err(MyError::ForbiddenError(String::from_str("you don't have permission"))));
        },
    };
    if role == String::from_str("administrator") {
        Some(Ok(()))
    } else {
        Some(Err(MyError::ForbiddenError(String::from_str("you don't have permission"))))
    }
}

/// The answer to a registration that went through.
pub fn registered_message() -> (r: String)
    ensures
        r@ == "user registered"@,
{
    String::from_str("user registered")
}

/// A guest can change nothing in the catalogue.
pub proof fn lemma_guest_cannot_edit(secret: Seq<u8>, token: Seq<char>, op: CatalogEdit)
    requires
        check_outcome(secret, token) == Some(Ok::<Seq<char>, (ErrorKind, Seq<char>)>("guest"@)),
    ensures
        edit_outcome(secret, token, op) == Some(
            Err::<(), (ErrorKind, Seq<char>)>((ErrorKind::Forbidden, denial_text(op))),
        ),
{
}

/// With the token a guest got at login, no change to the catalogue goes through.
pub proof fn lemma_guest_login_token_cannot_edit(
    secret: Seq<u8>,
    token: Seq<char>,
    username: Seq<char>,
    first_login: i8,
    op: CatalogEdit,
)
    requires
        token_verdict(secret, token) == TokenVerdict::Claims(login_claims(username, "guest"@, first_login)),
    ensures
        edit_outcome(secret, token, op) == Some(
            Err::<(), (ErrorKind, Seq<char>)>((ErrorKind::Forbidden, denial_text(op))),
        ),
{
    crate::database::users::lemma_login_token_checks_role(secret, token, username, "guest"@, first_login);
}

/// A registration goes through only with a token whose role is `administrator`.
pub proof fn lemma_only_administrator_registers(secret: Seq<u8>, token: Option<Seq<char>>)
    requires
        registration_outcome(secret, token) == Some(Ok::<(), (ErrorKind, Seq<char>)>(())),
    ensures
        token matches Some(t) && check_outcome(secret, t) == Some(
            Ok::<Seq<char>, (ErrorKind, Seq<char>)>("administrator"@),
        ),
{
}

/// Any role other than `guest` may change the catalogue; a token that fails its
/// check is answered with that failure; a token without a role gives no answer.
pub proof fn lemma_edit_decision(secret: Seq<u8>, token: Seq<char>, op: CatalogEdit)
    ensures
        check_outcome(secret, token) matches Some(Ok(role)) && role != "guest"@ ==> edit_outcome(secret, token, op)
            == Some(Ok::<(), (ErrorKind, Seq<char>)>(())),
        check_outcome(secret, token) matches Some(Err(e)) ==> edit_outcome(secret, token, op) == Some(
            Err::<(), (ErrorKind, Seq<char>)>(e),
        ),
        check_outcome(secret, token) is None ==> edit_outcome(secret, token, op) is None,
{
}

/// A token whose role is `administrator` may register users; any other role,
/// and no token at all, is refused for lack of permission.
pub proof fn lemma_registration_decision(secret: Seq<u8>, token: Option<Seq<char>>)
    ensures
        token matches Some(t) && check_outcome(secret, t) == Some(
            Ok::<Seq<char>, (ErrorKind, Seq<char>)>("administrator"@),
        ) ==> registration_outcome(secret, token) == Some(Ok::<(), (ErrorKind, Seq<char>)>(())),
        token is None ==> registration_outcome(secret, token) == Some(
            Err::<(), (ErrorKind, Seq<char>)>((ErrorKind::Forbidden, "you don't have permission"@)),
        ),
        token matches Some(t) && check_outcome(secret, t) matches Some(Ok(role)) && role != "administrator"@
            ==> registration_outcome(secret, token) == Some(
            Err::<(), (ErrorKind, Seq<char>)>((ErrorKind::Forbidden, "you don't have permission"@)),
        ),
{
}

} // verus!
