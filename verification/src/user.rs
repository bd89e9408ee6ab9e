//! A user account: credentials, online flag and a friend count, with a
//! verified constructor and verified updates.

use vstd::prelude::*;

verus! {

/// An account on some service. The strings are owned so the record owns
/// all of its data.
pub struct User {
    pub username: String,
    pub password: String,
    pub online: bool,
    pub friend_number: u8,
}

/// A fresh account: the given credentials, online, and no friends yet.
pub fn create_user(username: String, password: String) -> (user: User)
    ensures
        user.username == username,
        user.password == password,
        user.friend_number == 0,
        user.online,
{
    User { username, password, friend_number: 0, online: true }
}

impl User {
    /// Records one new friend. The count must not yet be at the top of
    /// its range.
    pub fn make_friend(&mut self)
        requires
            old(self).friend_number < u8::MAX,
        ensures
            final(self).friend_number == old(self).friend_number + 1,
            final(self).username == old(self).username,
            final(self).password == old(self).password,
            final(self).online == old(self).online,
    {
        self.friend_number += 1;
    }

    /// A copy of the account with the friend count reset to zero and
    /// every other field carried over unchanged.
    pub fn with_no_friends(self) -> (fresh: User)
        ensures
            fresh.friend_number == 0,
            fresh.username == self.username,
            fresh.password == self.password,
            fresh.online == self.online,
    {
        User { friend_number: 0, ..self }
    }
}

} // verus!
