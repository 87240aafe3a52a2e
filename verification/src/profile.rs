//! The identity that downloads are made under.

use vstd::prelude::*;

verus! {

/// Credentials of one user. This crate only carries them from where they
/// were found to the resolved configuration; it never looks inside.
#[derive(Debug, Clone, PartialEq, Eq)]
pub struct Profile {
    pub username: String,
    pub password: String,
}

/// What a [`Profile`] holds, as plain text.
pub struct ProfileView {
    pub username: Seq<char>,
    pub password: Seq<char>,
}

impl View for Profile {
    type V = ProfileView;

    open spec fn view(&self) -> ProfileView {
        ProfileView { username: self.username@, password: self.password@ }
    }
}

impl ProfileView {
    /// The placeholder profile: both fields empty.
    pub open spec fn empty() -> ProfileView {
        ProfileView { username: Seq::empty(), password: Seq::empty() }
    }
}

impl Profile {
    /// A profile with the given credentials.
    pub fn new(username: &str, password: &str) -> (profile: Profile)
        ensures
            profile@.username == username@,
            profile@.password == password@,
    {
        Profile { username: username.to_owned(), password: password.to_owned() }
    }

    /// The placeholder profile, to be filled in later.
    pub fn placeholder() -> (profile: Profile)
        ensures
            profile@ == ProfileView::empty(),
    {
        Profile { username: String::new(), password: String::new() }
    }
}

} // verus!
