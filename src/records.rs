//! Records with named fields, and a generic record over one element type.

use vstd::prelude::*;

verus! {

/// A user profile.
pub struct User {
    pub username: String,
    pub email: String,
    pub sign_in_count: u64,
    pub active: bool,
}

impl User {
    /// Builds a profile that takes the given email and username and copies the
    /// remaining fields from `base`.
    pub fn with_identity(base: &User, email: String, username: String) -> (r: User)
        ensures
            r.email@ == email@,
            r.username@ == username@,
            r.sign_in_count == base.sign_in_count,
            r.active == base.active,
    {
        User { email, username, ..*base }
    }
}

/// A pair of coordinates sharing one element type.
pub struct Point<T> {
    pub x: T,
    pub y: T,
}

impl<T> Point<T> {
    /// Returns a reference to the first coordinate.
    pub fn x(&self) -> (r: &T)
        ensures
            *r == self.x,
    {
        &self.x
    }
}

} // verus!
