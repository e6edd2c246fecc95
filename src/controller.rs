use vstd::prelude::*;
use vstd::string::*;

use crate::authentication::{
    argon2_verifies, change_password_store, get_username, validate_credentials, Credentials,
};
use crate::error::AppError;
use crate::response::{redirect_view, render, HttpResponse, ResponseView};
use crate::store::{first_user_from, first_user_named_from, set_hash_all, Database, DatabaseView};

verus! {

/// A one-shot message shown on the next page.
pub enum Flash {
    Info(String),
    Success(String),
    Error(String),
}

/// What a handler does to the client's session.
#[derive(Debug, PartialEq, Eq, Structural)]
pub enum SessionChange {
    Keep,
    /// Renew the session and log `user_id` in.
    Start(u128),
    /// Log out and drop the session.
    End,
}

/// A handler's answer: the response, an optional flash message and what
/// becomes of the session.
pub struct Reply {
    pub response: HttpResponse,
    pub flash: Option<Flash>,
    pub session: SessionChange,
}

/// The fields of the login form.
pub struct LoginForm {
    pub username: String,
    pub password: String,
}

/// The fields of the change-password form.
pub struct ChangePasswordForm {
    pub current_password: String,
    pub new_password: String,
    pub new_password_check: String,
}

/// The bytes of a `Location` header that names `path`.
pub open spec fn location(path: &str) -> Seq<u8> {
    path.spec_bytes()
}

/// The message shown when the two new passwords differ.
pub open spec fn password_mismatch_message() -> Seq<char> {
    "You entered two different new passwords - the field values must match."@
}

/// The flash message reports an error.
pub open spec fn is_error_flash(f: Option<Flash>) -> bool {
    f matches Some(Flash::Error(_))
}

/// The user that a request acts for, or the redirect to the login page.
pub fn auth_middleware(session_user: Option<u128>) -> (r: Result<u128, HttpResponse>)
    ensures
        match session_user {
            Some(id) => r == Ok::<u128, HttpResponse>(id),
            None => r matches Err(resp) && resp@ == redirect_view(location("/login")),
        },
{
    match session_user {
        Some(id) => Ok(id),
        None => Err(render().redirect("/login")),
    }
}

/// Logs the user in where the credentials hold, and sends them to the
/// dashboard; otherwise back to the login page with the error.
pub fn login(form: LoginForm, db: &Database) -> (r: Reply)
    ensures
        ({
            let k = first_user_named_from(db@.users, form.username@, 0);
            let ok = k >= 0 && argon2_verifies(db@.users[k].password_hash, form.password@);
            &&& ok ==> r.response@ == redirect_view(location("/admin/dashboard")) && r.flash is None
                && r.session == SessionChange::Start(db@.users[k].user_id)
            &&& !ok ==> r.response@ == redirect_view(location("/login")) && is_error_flash(r.flash)
                && r.session == SessionChange::Keep
        }),
{
    let credentials = Credentials { username: form.username, password: form.password };
    match validate_credentials(credentials, db) {
        Ok(user_id) => Reply {
            response: render().redirect("/admin/dashboard"),
            flash: None,
            session: SessionChange::Start(user_id),
        },
        Err(e) => Reply {
            response: render().redirect("/login"),
            flash: Some(Flash::Error(e.message())),
            session: SessionChange::Keep,
        },
    }
}

/// Ends the session of a logged-in user; either way, on to the login page.
pub fn logout(session_user: Option<u128>) -> (r: Reply)
    ensures
        r.response@ == redirect_view(location("/login")),
        session_user is None ==> r.session == SessionChange::Keep && r.flash is None,
        session_user is Some ==> r.session == SessionChange::End && r.flash matches Some(
            Flash::Success(_),
        ),
{
    match session_user {
        None => Reply {
            response: render().redirect("/login"),
            flash: None,
            session: SessionChange::Keep,
        },
        Some(_) => Reply {
            response: render().redirect("/login"),
            flash: Some(Flash::Success(String::from_str("You have successfully logged out."))),
            session: SessionChange::End,
        },
    }
}

/// Changes the logged-in user's password: the two new entries must agree,
/// and the current password must hold for the user's name.
pub fn change_password(
    session_user: Option<u128>,
    form: ChangePasswordForm,
    db: &mut Database,
) -> (r: Result<Reply, AppError>)
    requires
        old(db).wf(),
    ensures
        final(db).wf(),
        form.new_password@ != form.new_password_check@ ==> final(db)@ == old(db)@ && (r matches Ok(
            reply,
        ) && reply.response@ == redirect_view(location("/admin/password")) && (reply.flash matches Some(
            Flash::Error(t),
        ) && t@ == password_mismatch_message())),
        form.new_password@ == form.new_password_check@ && session_user is None ==> final(db)@
            == old(db)@ && (r matches Ok(reply) && reply.response@ == redirect_view(
            location("/login"),
        ) && reply.flash is None),
        form.new_password@ == form.new_password_check@ && session_user is Some ==> ({
            let uid = session_user->Some_0;
            let k = first_user_from(old(db)@.users, uid, 0);
            let j = first_user_named_from(old(db)@.users, old(db)@.users[k].username, 0);
            let verified = j >= 0 && argon2_verifies(
                old(db)@.users[j].password_hash,
                form.current_password@,
            );
            &&& k < 0 ==> r == Err::<Reply, AppError>(AppError::UnknownUser) && final(db)@
                == old(db)@
            &&& k >= 0 && !verified ==> final(db)@ == old(db)@ && (r matches Ok(reply)
                && reply.response@ == redirect_view(location("/admin/password")) && is_error_flash(
                reply.flash,
            ))
            &&& k >= 0 && verified ==> match r {
                Ok(reply) => reply.response@ == redirect_view(location("/admin/dashboard"))
                    && exists|hash: Seq<char>|
                    argon2_verifies(hash, form.new_password@) && final(db)@ == (DatabaseView {
                        users: #[trigger] set_hash_all(old(db)@.users, uid, hash),
                        ..old(db)@
                    }),
                Err(e) => e == AppError::PasswordHashing && final(db)@ == old(db)@,
            }
        }),
{
    if form.new_password != form.new_password_check {
        return Ok(
            Reply {
                response: render().redirect("/admin/password"),
                flash: Some(
                    Flash::Error(
                        String::from_str(
                            "You entered two different new passwords - the field values must match.",
                        ),
                    ),
                ),
                session: SessionChange::Keep,
            },
        );
    }
    let user_id = match session_user {
        Some(id) => id,
        None => {
            return Ok(
                Reply {
                    response: render().redirect("/login"),
                    flash: None,
                    session: SessionChange::Keep,
                },
            );
        },
    };
    let username = get_username(user_id, db)?;
    let credentials = Credentials { username, password: form.current_password };
    if let Err(e) = validate_credentials(credentials, db) {
        return Ok(
            Reply {
                response: render().redirect("/admin/password"),
                flash: Some(Flash::Error(e.message())),
                session: SessionChange::Keep,
            },
        );
    }
    change_password_store(user_id, form.new_password.as_str(), db)?;
    Ok(
        Reply {
            response: render().redirect("/admin/dashboard"),
            flash: None,
            session: SessionChange::Keep,
        },
    )
}

} // verus!
