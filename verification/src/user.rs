use vstd::prelude::*;

verus! {

/// An account record: who the user is, whether the account is active, and
/// how often it was signed into.
pub struct User {
    pub active: bool,
    pub username: String,
    pub email: String,
    pub sign_in_count: u64,
}

/// Builds a user with the field-init shorthand: each field takes the
/// argument of the same name, unchanged.
pub fn build_user_like_typescript(email: String, username: String, sign_in_count: u64, active: bool) -> (u: User)
    ensures
        u.email == email,
        u.username == username,
        u.sign_in_count == sign_in_count,
        u.active == active,
{
    return User { active, username, email, sign_in_count };
}

/// Builds the same user, writing every field out in full.
pub fn build_user_in_a_dum_way(email: String, username: String, sign_in_count: u64, active: bool) -> (u: User)
    ensures
        u.email == email,
        u.username == username,
        u.sign_in_count == sign_in_count,
        u.active == active,
{
    User { active: active, username: username, sign_in_count: sign_in_count, email: email }
}

} // verus!
