//! Users, and the request for what the bot and a user are to each other.

use crate::misskey::ApiRequest;
use vstd::prelude::*;
use vstd::string::*;

verus! {

/// The request for one user, by id or by name and host.
#[derive(Debug, PartialEq, Eq)]
pub struct ShowUser {
    pub user_id: Option<String>,
    pub user_ids: Vec<String>,
    pub username: Option<String>,
    pub host: Option<String>,
}

/// `ShowUser` as sequences of characters.
pub struct ShowUserView {
    pub user_id: Option<Seq<char>>,
    pub user_ids: Seq<Seq<char>>,
    pub username: Option<Seq<char>>,
    pub host: Option<Seq<char>>,
}

impl View for ShowUser {
    type V = ShowUserView;

    open spec fn view(&self) -> ShowUserView {
        ShowUserView {
            user_id: self.user_id.deep_view(),
            user_ids: self.user_ids.deep_view(),
            username: self.username.deep_view(),
            host: self.host.deep_view(),
        }
    }
}

impl ShowUser {
    /// The request for the user with the id `user_id`, and nothing else.
    pub open spec fn for_user(user_id: Seq<char>) -> ShowUserView {
        ShowUserView { user_id: Some(user_id), user_ids: Seq::empty(), username: None, host: None }
    }

    /// The request for the user with the id `user_id`.
    pub fn by_user_id(user_id: &str) -> (request: Self)
        ensures
            request@ == Self::for_user(user_id@),
    {
        let request = ShowUser {
            user_id: Some(user_id.to_owned()),
            user_ids: Vec::new(),
            username: None,
            host: None,
        };
        assert(request.user_ids.deep_view() =~= Seq::empty());
        request
    }
}

impl Default for ShowUser {
    fn default() -> (request: Self)
        ensures
            request@ == (ShowUserView {
                user_id: None,
                user_ids: Seq::empty(),
                username: None,
                host: None,
            }),
    {
        let request = ShowUser { user_id: None, user_ids: Vec::new(), username: None, host: None };
        assert(request.user_ids.deep_view() =~= Seq::empty());
        request
    }
}

impl ApiRequest for ShowUser {
    const ENDPOINT: &'static str = "/api/users/show";

    type Return = UserDetailed;
}

/// Whether a user is around.
#[derive(Clone, Copy, Debug, PartialEq, Eq, Structural)]
pub enum UserOnlineStatus {
    Unknown,
    Online,
    Active,
    Offline,
}

/// A user as the server describes one beside a post or an event.
#[derive(Debug, PartialEq, Eq)]
pub struct User {
    pub id: String,
    /// The display name, where the user has set one.
    pub name: Option<String>,
    pub username: String,
    /// The server the user is on, where it is another one than the bot's.
    pub host: Option<String>,
    /// Whether the account is flagged as automated.
    pub is_bot: bool,
}

/// `User` as sequences of characters.
pub struct UserView {
    pub id: Seq<char>,
    pub name: Option<Seq<char>>,
    pub username: Seq<char>,
    pub host: Option<Seq<char>>,
    pub is_bot: bool,
}

impl View for User {
    type V = UserView;

    open spec fn view(&self) -> UserView {
        UserView {
            id: self.id@,
            name: self.name.deep_view(),
            username: self.username@,
            host: self.host.deep_view(),
            is_bot: self.is_bot,
        }
    }
}

impl UserView {
    /// The tag that mentions the user: `@` and the user name, and for a user
    /// of another server `@` and the host behind it.
    pub open spec fn mention(self) -> Seq<char> {
        match self.host {
            Some(host) => seq!['@'] + self.username + seq!['@'] + host,
            None => seq!['@'] + self.username,
        }
    }

    /// What the user is called where no nickname is known: the display name,
    /// or the user name where there is none.
    pub open spec fn plain_name(self) -> Seq<char> {
        match self.name {
            Some(name) => name,
            None => self.username,
        }
    }
}

impl User {
    /// The tag that mentions the user.
    pub fn mention(&self) -> (tag: String)
        ensures
            tag@ == self@.mention(),
    {
        let mut tag = String::new();
        tag.push('@');
        tag.append(self.username.as_str());
        match &self.host {
            Some(host) => {
                tag.push('@');
                tag.append(host.as_str());
                assert(tag@ =~= seq!['@'] + self.username@ + seq!['@'] + host@);
            },
            None => {
                assert(tag@ =~= seq!['@'] + self.username@);
            },
        }
        tag
    }

    /// The display name, or the user name where there is none.
    pub fn plain_name(&self) -> (name: String)
        ensures
            name@ == self@.plain_name(),
    {
        match &self.name {
            Some(name) => name.clone(),
            None => self.username.clone(),
        }
    }
}

/// What the bot and a user are to each other.
#[derive(Clone, Copy, Debug, PartialEq, Eq, Structural)]
pub struct UserDetailed {
    /// The bot follows the user.
    pub is_following: bool,
    /// The user follows the bot.
    pub is_followed: bool,
}

} // verus!
