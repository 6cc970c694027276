//! Redirects and flash messages: what each route answers with. Every
//! mutating route redirects and carries a one-shot status message; every
//! internal failure is collapsed into one generic, non-revealing text.

use vstd::prelude::*;
use crate::auth::User;
use crate::errors::AuthError;
use crate::session::{remove_user_id_cookie, SessionJar};

verus! {

/// Where a response sends the browser next.
pub struct Redirect {
    pub location: String,
}

/// Whether a flash message reports success or failure.
#[derive(Clone, Copy, Debug, PartialEq, Eq, Structural)]
pub enum FlashKind {
    Success,
    Error,
}

/// A redirect with its one-shot, redirect-carried user-visible message.
pub struct Flash {
    pub kind: FlashKind,
    pub message: String,
    pub redirect: Redirect,
}

/// A success flash towards `location`.
pub fn flash_success(location: &str, message: &str) -> (r: Flash)
    ensures
        r.kind == FlashKind::Success,
        r.message@ == message@,
        r.redirect.location@ == location@,
{
    Flash {
        kind: FlashKind::Success,
        message: String::from_str(message),
        redirect: Redirect { location: String::from_str(location) },
    }
}

/// An error flash towards `location`.
pub fn flash_error(location: &str, message: &str) -> (r: Flash)
    ensures
        r.kind == FlashKind::Error,
        r.message@ == message@,
        r.redirect.location@ == location@,
{
    Flash {
        kind: FlashKind::Error,
        message: String::from_str(message),
        redirect: Redirect { location: String::from_str(location) },
    }
}

/// Where an unauthenticated request to an authenticated-only route is
/// sent: the login page, never an error.
pub fn redirect_to_login() -> (r: Redirect)
    ensures
        r.location@ == "/login"@,
{
    Redirect { location: String::from_str("/login") }
}

/// The one generic login failure: it never says whether the username
/// exists or the password was wrong.
pub fn login_error() -> (r: Flash)
    ensures
        r.kind == FlashKind::Error,
        r.message@ == "Incorrect username or password"@,
        r.redirect.location@ == "/login"@,
{
    flash_error("/login", "Incorrect username or password")
}

/// The signup route's reply: success sends to the login page; any failure
/// — duplicate username and hasher trouble alike — is one generic message
/// back to the signup page.
pub fn create_account_flash(outcome: &Result<User, AuthError>) -> (r: Flash)
    ensures
        outcome is Ok ==> r.kind == FlashKind::Success && r.message@
            == "Account created successfully!"@ && r.redirect.location@ == "/login"@,
        outcome is Err ==> r.kind == FlashKind::Error && r.message@ == "Issue creating account"@
            && r.redirect.location@ == "/signup"@,
{
    match outcome {
        Ok(_) => flash_success("/login", "Account created successfully!"),
        Err(_) => flash_error("/signup", "Issue creating account"),
    }
}

/// The login route's reply: success lands on the task list — the caller
/// has already set the session cookie — and failure is the one generic
/// message.
pub fn verify_account_flash(outcome: &Result<i32, AuthError>) -> (r: Flash)
    ensures
        outcome is Ok ==> r.kind == FlashKind::Success && r.message@ == "Logged in successfully!"@
            && r.redirect.location@ == "/"@,
        outcome is Err ==> r.kind == FlashKind::Error && r.message@
            == "Incorrect username or password"@ && r.redirect.location@ == "/login"@,
{
    match outcome {
        Ok(_) => flash_success("/", "Logged in successfully!"),
        Err(_) => login_error(),
    }
}

/// The add-task route's reply.
pub fn add_task_flash(inserted: bool) -> (r: Flash)
    ensures
        inserted ==> r.kind == FlashKind::Success && r.message@ == "Task created!"@
            && r.redirect.location@ == "/"@,
        !inserted ==> r.kind == FlashKind::Error && r.message@ == "Issue creating the task"@
            && r.redirect.location@ == "/"@,
{
    if inserted {
        flash_success("/", "Task created!")
    } else {
        flash_error("/", "Issue creating the task")
    }
}

/// The edit-task route's reply.
pub fn edit_task_flash(updated: bool) -> (r: Flash)
    ensures
        updated ==> r.kind == FlashKind::Success && r.message@ == "Task edited successfully!"@
            && r.redirect.location@ == "/"@,
        !updated ==> r.kind == FlashKind::Error && r.message@ == "Issue editing the task"@
            && r.redirect.location@ == "/"@,
{
    if updated {
        flash_success("/", "Task edited successfully!")
    } else {
        flash_error("/", "Issue editing the task")
    }
}

/// The delete-task route's reply.
pub fn delete_task_flash(deleted: bool) -> (r: Flash)
    ensures
        deleted ==> r.kind == FlashKind::Success && r.message@ == "Task successfully deleted!"@
            && r.redirect.location@ == "/"@,
        !deleted ==> r.kind == FlashKind::Error && r.message@ == "Issue deleting the task"@
            && r.redirect.location@ == "/"@,
{
    if deleted {
        flash_success("/", "Task successfully deleted!")
    } else {
        flash_error("/", "Issue deleting the task")
    }
}

/// Logout: clears the session cookie and reports it.
pub fn logout(cookies: &mut SessionJar) -> (r: Flash)
    ensures
        final(cookies).session is None,
        r.kind == FlashKind::Success,
        r.message@ == "Logged out successfully!"@,
        r.redirect.location@ == "/login"@,
{
    remove_user_id_cookie(cookies);
    flash_success("/login", "Logged out successfully!")
}

} // verus!
