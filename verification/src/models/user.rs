//! The user record, the only entity of the service.

use vstd::prelude::*;

verus! {

/// A user as contracts see it: each field as the sequence of its characters.
pub struct UserRecord {
    pub username: Seq<char>,
    pub first_name: Seq<char>,
    pub last_name: Seq<char>,
    pub role: Seq<char>,
}

/// One row of the `users` table.
///
/// `username` identifies the user and never changes once stored. The other
/// fields are free text; no set of allowed roles is enforced.
#[derive(Debug)]
pub struct User {
    pub username: String,
    pub first_name: String,
    pub last_name: String,
    pub role: String,
}

impl View for User {
    type V = UserRecord;

    open spec fn view(&self) -> UserRecord {
        UserRecord {
            username: self.username@,
            first_name: self.first_name@,
            last_name: self.last_name@,
            role: self.role@,
        }
    }
}

impl DeepView for User {
    type V = UserRecord;

    open spec fn deep_view(&self) -> UserRecord {
        self@
    }
}

impl Clone for User {
    fn clone(&self) -> (copy: Self)
        ensures
            copy@ == self@,
    {
        User {
            username: self.username.clone(),
            first_name: self.first_name.clone(),
            last_name: self.last_name.clone(),
            role: self.role.clone(),
        }
    }
}

impl PartialEq for User {
    fn eq(&self, other: &Self) -> (equal: bool) {
        self.username == other.username && self.first_name == other.first_name
            && self.last_name == other.last_name && self.role == other.role
    }
}

impl vstd::std_specs::cmp::PartialEqSpecImpl for User {
    open spec fn obeys_eq_spec() -> bool {
        true
    }

    open spec fn eq_spec(&self, other: &Self) -> bool {
        self@ == other@
    }
}

} // verus!
