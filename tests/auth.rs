use zero2prod::authentication::{
    change_password_store, get_username, validate_credentials, Credentials,
};
use zero2prod::controller::{
    auth_middleware, change_password, login, logout, ChangePasswordForm, Flash, LoginForm,
    SessionChange,
};
use zero2prod::error::AppError;
use zero2prod::store::{Database, User};

fn db_with_admin(password: &str) -> Database {
    let mut db = Database::new();
    db.insert_user(User { user_id: 9, username: "admin".to_string(), password_hash: String::new() });
    change_password_store(9, password, &mut db).unwrap();
    db
}

fn creds(u: &str, p: &str) -> Credentials {
    Credentials { username: u.to_string(), password: p.to_string() }
}

#[test]
fn bearer_token_is_decoded() {
    // "user:pa:ss" in unpadded base64
    let c = Credentials::from_bearer_token("dXNlcjpwYTpzcw").unwrap();
    assert_eq!(c.username, "user");
    assert_eq!(c.password, "pa:ss");
    assert_eq!(Credentials::from_bearer_token("!!!").err(), Some(AppError::MalformedToken));
    assert_eq!(AppError::MalformedToken.status_code(), 400);
    // "nocolon"
    assert_eq!(Credentials::from_bearer_token("bm9jb2xvbg").err(), Some(AppError::Unauthorized));
}

#[test]
fn decoded_bytes_must_be_utf8() {
    assert_eq!(Credentials::from_decoded(vec![0xff, b':', b'a']).err(), Some(AppError::Unauthorized));
    let c = Credentials::from_decoded(b":secret".to_vec()).unwrap();
    assert_eq!(c.username, "");
    assert_eq!(c.password, "secret");
}

#[test]
fn stored_hash_checks_the_password() {
    let db = db_with_admin("everythinghastostartsomewhere");
    assert_eq!(validate_credentials(creds("admin", "everythinghastostartsomewhere"), &db), Ok(9));
    assert_eq!(validate_credentials(creds("admin", "wrong"), &db), Err(AppError::Unauthorized));
    assert_eq!(validate_credentials(creds("nobody", "x"), &db), Err(AppError::Unauthorized));
    assert_eq!(get_username(9, &db).unwrap(), "admin");
    assert_eq!(get_username(1, &db).err(), Some(AppError::UnknownUser));
}

#[test]
fn login_starts_a_session() {
    let db = db_with_admin("pw");
    let ok = login(LoginForm { username: "admin".to_string(), password: "pw".to_string() }, &db);
    assert_eq!(ok.session, SessionChange::Start(9));
    assert_eq!(ok.response.status, 303);
    assert_eq!(ok.response.headers[0].value, b"/admin/dashboard".to_vec());
    let bad = login(LoginForm { username: "admin".to_string(), password: "no".to_string() }, &db);
    assert_eq!(bad.session, SessionChange::Keep);
    assert_eq!(bad.response.headers[0].value, b"/login".to_vec());
    assert!(matches!(bad.flash, Some(Flash::Error(_))));
}

#[test]
fn logout_and_guard() {
    let out = logout(Some(9));
    assert_eq!(out.session, SessionChange::End);
    assert_eq!(out.response.headers[0].value, b"/login".to_vec());
    assert!(matches!(out.flash, Some(Flash::Success(_))));
    let anon = logout(None);
    assert_eq!(anon.session, SessionChange::Keep);
    assert!(anon.flash.is_none());
    assert_eq!(auth_middleware(Some(3)).ok(), Some(3));
    let redirect = auth_middleware(None).err().unwrap();
    assert_eq!(redirect.headers[0].value, b"/login".to_vec());
}

fn pw_form(current: &str, new: &str, check: &str) -> ChangePasswordForm {
    ChangePasswordForm {
        current_password: current.to_string(),
        new_password: new.to_string(),
        new_password_check: check.to_string(),
    }
}

#[test]
fn change_password_rules() {
    let mut db = db_with_admin("old");
    let r = change_password(Some(9), pw_form("old", "a", "b"), &mut db).unwrap();
    assert_eq!(r.response.headers[0].value, b"/admin/password".to_vec());
    assert!(matches!(
        r.flash,
        Some(Flash::Error(ref t))
            if t == "You entered two different new passwords - the field values must match."
    ));
    let r = change_password(None, pw_form("old", "a", "a"), &mut db).unwrap();
    assert_eq!(r.response.headers[0].value, b"/login".to_vec());
    let r = change_password(Some(9), pw_form("wrong", "a", "a"), &mut db).unwrap();
    assert_eq!(r.response.headers[0].value, b"/admin/password".to_vec());
    assert_eq!(validate_credentials(creds("admin", "old"), &db), Ok(9));
    let r = change_password(Some(9), pw_form("old", "new", "new"), &mut db).unwrap();
    assert_eq!(r.response.headers[0].value, b"/admin/dashboard".to_vec());
    assert_eq!(validate_credentials(creds("admin", "new"), &db), Ok(9));
    assert_eq!(validate_credentials(creds("admin", "old"), &db), Err(AppError::Unauthorized));
    assert_eq!(change_password(Some(4), pw_form("x", "y", "y"), &mut db).err(), Some(AppError::UnknownUser));
}

#[test]
fn authorization_header_needs_the_bearer_scheme() {
    assert_eq!(Credentials::from_authorization_header(None).err(), Some(AppError::Unauthorized));
    assert_eq!(
        Credentials::from_authorization_header(Some("Basic dXNlcjpwYXNz")).err(),
        Some(AppError::Unauthorized)
    );
    assert_eq!(Credentials::from_authorization_header(Some("Bearer")).err(), Some(AppError::Unauthorized));
    let c = Credentials::from_authorization_header(Some("Bearer dXNlcjpwYTpzcw")).unwrap();
    assert_eq!(c.username, "user");
    assert_eq!(c.password, "pa:ss");
    let c = Credentials::from_authorization_header(Some("bEaReR dXNlcjpwYTpzcw")).unwrap();
    assert_eq!(c.username, "user");
    assert_eq!(
        Credentials::from_authorization_header(Some("Bearer %%%")).err(),
        Some(AppError::MalformedToken)
    );
    assert_eq!(
        Credentials::from_authorization_header(Some("Bearer bm9jb2xvbg")).err(),
        Some(AppError::Unauthorized)
    );
}
