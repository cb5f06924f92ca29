use vstd::prelude::*;

verus! {

/// An account.
#[derive(Debug)]
pub struct User {
    pub active: bool,
    pub username: String,
    pub email: String,
    pub sign_in_count: u64,
}

/// A new account for `email` and `username`: active, and signed in once.
pub fn build_user(email: String, username: String) -> (user: User)
    ensures
        user.email == email,
        user.username == username,
        user.active,
        user.sign_in_count == 1,
{
    User { email, username, active: true, sign_in_count: 1 }
}

/// A colour by its red, green and blue parts.
#[derive(Debug)]
pub struct Color(pub i32, pub i32, pub i32);

/// A point of space.
#[derive(Debug)]
pub struct Point(pub i32, pub i32, pub i32);

/// A type with one value.
#[derive(Debug)]
pub struct AlwaysEqual;

} // verus!
