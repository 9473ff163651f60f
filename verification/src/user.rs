//! The session: who plays, in which room, under which credential.

use vstd::prelude::*;
use vstd::string::*;

verus! {

/// One client's participation: username, room and credential.
#[derive(Debug, Default)]
pub struct User {
    pub username: String,
    pub room: String,
    token: String,
}

/// A user as a value.
pub struct UserView {
    pub username: Seq<char>,
    pub room: Seq<char>,
    /// The credential, empty before the service has granted one.
    pub token: Seq<char>,
}

impl User {
    /// The user as a value.
    pub closed spec fn view(&self) -> UserView {
        UserView { username: self.username@, room: self.room@, token: self.token@ }
    }

    /// A user who has typed `username` and `room` and holds no credential yet.
    pub fn new(username: String, room: String) -> (user: User)
        ensures
            user@ == (UserView { username: username@, room: room@, token: Seq::empty() }),
    {
        User { username, room, token: String::new() }
    }

    /// Takes what the user submitted: the username and the room asked for.
    pub fn submit(&mut self, username: String, room: String)
        ensures
            final(self)@ == (UserView { username: username@, room: room@, token: old(self)@.token }),
    {
        self.username = username;
        self.room = room;
    }

    /// Takes what the service granted: the credential and the room it
    /// resolved.
    pub fn enter(&mut self, token: String, room: String)
        ensures
            final(self)@ == (UserView { username: old(self)@.username, room: room@, token: token@ }),
    {
        self.room = room;
        self.token = token;
    }

    /// The credential.
    pub fn credential(&self) -> (token: &String)
        ensures
            token@ == self@.token,
    {
        &self.token
    }
}

} // verus!
