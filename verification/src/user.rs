//! The user record and its numeric identifier.

use vstd::prelude::*;
use crate::text::{spec_u64_str, str_eq, u64_to_string};

verus! {

/// A user's stable numeric identifier.
#[derive(Clone, Copy, Debug, PartialEq, Eq, Structural)]
pub struct UserId(pub u64);

impl UserId {
    /// Renders the identifier in decimal.
    pub fn display(&self) -> (r: String)
        ensures
            r@ == spec_u64_str(self.0 as nat),
    {
        u64_to_string(self.0)
    }
}

impl From<u64> for UserId {
    fn from(id: u64) -> (r: Self) {
        UserId(id)
    }
}

impl vstd::std_specs::convert::FromSpecImpl<u64> for UserId {
    open spec fn obeys_from_spec() -> bool {
        true
    }

    open spec fn from_spec(id: u64) -> Self {
        UserId(id)
    }
}

/// A user record as the platform reports it.
#[derive(Clone, Debug, PartialEq, Eq)]
pub struct User {
    pub id: UserId,
    pub email: String,
    pub username: String,
    pub discriminator: String,
    pub global_name: Option<String>,
}

/// The mathematical view of a user record: every field as a plain value.
pub struct UserView {
    pub id: u64,
    pub email: Seq<char>,
    pub username: Seq<char>,
    pub discriminator: Seq<char>,
    pub global_name: Option<Seq<char>>,
}

impl View for User {
    type V = UserView;

    open spec fn view(&self) -> UserView {
        UserView {
            id: self.id.0,
            email: self.email@,
            username: self.username@,
            discriminator: self.discriminator@,
            global_name: match self.global_name {
                Some(s) => Some(s@),
                None => None,
            },
        }
    }
}

/// What `User::display` returns: the bare username under the new naming
/// system (discriminator `"0"`), else `username#discriminator`.
pub open spec fn spec_user_display(u: User) -> Seq<char> {
    if u.discriminator@ == "0"@ {
        u.username@
    } else {
        u.username@ + "#"@ + u.discriminator@
    }
}

impl User {
    /// Renders the user's handle.
    pub fn display(&self) -> (r: String)
        ensures
            r@ == spec_user_display(*self),
    {
        if str_eq(self.discriminator.as_str(), "0") {
            self.username.clone()
        } else {
            self.username.clone().concat("#").concat(self.discriminator.as_str())
        }
    }
}

} // verus!
