//! A user of the site, whose artworks can be listed.

use vstd::prelude::*;
use vstd::string::*;
use crate::text::{decimal, decimal_string};

verus! {

/// The address that lists everything a user has published.
pub open spec fn user_artworks_url(id: nat) -> Seq<char> {
    "https://www.pixiv.net/ajax/user/"@ + decimal(id) + "/profile/all"@
}

/// A user, by id.
pub struct User {
    id: u64,
}

impl View for User {
    type V = u64;

    closed spec fn view(&self) -> u64 {
        self.id
    }
}

impl User {
    /// The user with this id.
    pub fn new(id: u64) -> (u: User)
        ensures
            u@ == id,
    {
        User { id }
    }

    /// The id of the user.
    pub fn id(&self) -> (id: u64)
        ensures
            id == self@,
    {
        self.id
    }

    /// The address that lists the artworks of the user.
    pub fn artworks_url(&self) -> (url: String)
        ensures
            url@ == user_artworks_url(self@ as nat),
    {
        let mut url: String = String::from_str("https://www.pixiv.net/ajax/user/");
        let number: String = decimal_string(self.id);
        url.append(number.as_str());
        url.append("/profile/all");
        url
    }
}

} // verus!
