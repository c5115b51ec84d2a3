//! User accounts: fresh sign-ups and copies that change one field.

use vstd::prelude::*;

verus! {

/// An account holder.
pub struct User {
    pub active: bool,
    pub username: String,
    pub email: String,
    pub sign_in_count: u64,
}

/// A fresh, active account with a single sign-in.
pub fn new_user(username: String, email: String) -> (u: User)
    ensures
        u.active,
        u.username == username,
        u.email == email,
        u.sign_in_count == 1,
{
    User { active: true, username, email, sign_in_count: 1 }
}

/// A copy of `base` under a different email address; every other field is
/// carried over unchanged.
pub fn with_email(base: User, email: String) -> (u: User)
    ensures
        u.email == email,
        u.active == base.active,
        u.username == base.username,
        u.sign_in_count == base.sign_in_count,
{
    User { email, ..base }
}

} // verus!
