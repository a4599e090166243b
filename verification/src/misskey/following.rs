//! The requests to follow a user and to stop following one.

use crate::misskey::ApiRequest;
use vstd::prelude::*;

verus! {

/// The request to follow a user.
#[derive(Debug, PartialEq, Eq)]
pub struct CreateFollowing {
    pub user_id: String,
}

impl View for CreateFollowing {
    type V = Seq<char>;

    /// The id of the user to follow.
    open spec fn view(&self) -> Seq<char> {
        self.user_id@
    }
}

impl CreateFollowing {
    /// The request to follow the user with the id `user_id`.
    pub fn new(user_id: &str) -> (request: Self)
        ensures
            request@ == user_id@,
    {
        CreateFollowing { user_id: user_id.to_owned() }
    }
}

impl Clone for CreateFollowing {
    fn clone(&self) -> (copy: Self)
        ensures
            copy@ == self@,
    {
        CreateFollowing { user_id: self.user_id.clone() }
    }
}

impl ApiRequest for CreateFollowing {
    const ENDPOINT: &'static str = "/api/following/create";

    type Return = ();
}

/// The request to stop following a user.
#[derive(Debug, PartialEq, Eq)]
pub struct DeleteFollowing {
    pub user_id: String,
}

impl View for DeleteFollowing {
    type V = Seq<char>;

    /// The id of the user to stop following.
    open spec fn view(&self) -> Seq<char> {
        self.user_id@
    }
}

impl DeleteFollowing {
    /// The request to stop following the user with the id `user_id`.
    pub fn new(user_id: &str) -> (request: Self)
        ensures
            request@ == user_id@,
    {
        DeleteFollowing { user_id: user_id.to_owned() }
    }
}

impl Clone for DeleteFollowing {
    fn clone(&self) -> (copy: Self)
        ensures
            copy@ == self@,
    {
        DeleteFollowing { user_id: self.user_id.clone() }
    }
}

impl ApiRequest for DeleteFollowing {
    const ENDPOINT: &'static str = "/api/following/delete";

    type Return = ();
}

} // verus!
