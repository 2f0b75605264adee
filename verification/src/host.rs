//! What the machine says of itself: its operating system and the user that
//! runs the agent.
//!
//! Each function here asks the machine through `sys_info` or `users`. The
//! answers differ from machine to machine, so nothing is assumed of them.
use vstd::prelude::*;

verus! {

/// `users::User`, carried from the lookup to the reading of its name.
#[verifier::external_type_specification]
#[verifier::external_body]
pub struct ExUser(users::User);

/// Calls `sys_info::os_type`; `None` where the machine does not say.
#[verifier::external_body]
pub(crate) fn os_type() -> (r: Option<String>) {
    sys_info::os_type().ok()
}

/// Calls `sys_info::os_release`; `None` where the machine does not say.
#[verifier::external_body]
pub(crate) fn os_release() -> (r: Option<String>) {
    sys_info::os_release().ok()
}

/// Calls `users::get_current_uid`.
#[verifier::external_body]
pub(crate) fn current_uid() -> (r: u32) {
    users::get_current_uid()
}

/// Calls `users::get_user_by_uid`; `None` where the user database has no
/// such user.
#[verifier::external_body]
pub(crate) fn user_by_uid(uid: u32) -> (r: Option<users::User>) {
    users::get_user_by_uid(uid)
}

/// Calls `User::name`; `None` where the name is not valid Unicode.
#[verifier::external_body]
pub(crate) fn user_name(user: &users::User) -> (r: Option<String>) {
    user.name().to_str().map(String::from)
}

} // verus!
