//! What a handler hands back: a status, at most one cookie to set, and a
//! body. Turning it into bytes on a wire is left to the caller.

use crate::modules::user::{User, UserView};
use vstd::prelude::*;

verus! {

/// The request was carried out.
pub const OK: u16 = 200;

/// The request was carried out and made a new record.
pub const CREATED: u16 = 201;

/// The record that was to be made is already there.
pub const FOUND: u16 = 302;

/// The request is malformed.
pub const BAD_REQUEST: u16 = 400;

/// The caller is not known.
pub const UNAUTHORIZED: u16 = 401;

/// What the request refers to is not there.
pub const NOT_FOUND: u16 = 404;

/// The service failed.
pub const INTERNAL_SERVER_ERROR: u16 = 500;

/// What its owner may see of an account: everything but the password hash.
#[derive(Debug)]
pub struct Account {
    pub id: i32,
    pub name: String,
    pub username: String,
    pub email: String,
    pub gender: bool,
    pub create_at: String,
    pub update_at: String,
}

/// The mathematical value of an [`Account`].
pub struct AccountView {
    pub id: int,
    pub name: Seq<char>,
    pub username: Seq<char>,
    pub email: Seq<char>,
    pub gender: bool,
    pub create_at: Seq<char>,
    pub update_at: Seq<char>,
}

impl View for Account {
    type V = AccountView;

    open spec fn view(&self) -> AccountView {
        AccountView {
            id: self.id as int,
            name: self.name@,
            username: self.username@,
            email: self.email@,
            gender: self.gender,
            create_at: self.create_at@,
            update_at: self.update_at@,
        }
    }
}

impl Account {
    /// What its owner may see of the account. The password hash is dropped
    /// here and goes no further.
    pub fn of(user: User) -> (account: Account)
        ensures
            account@ == user@.account(),
    {
        Account {
            id: user.id,
            name: user.name,
            username: user.username,
            email: user.email,
            gender: user.gender,
            create_at: user.create_at,
            update_at: user.update_at,
        }
    }
}

/// What others may see of an account.
#[derive(Debug)]
pub struct Profile {
    pub id: i32,
    pub name: String,
    pub username: String,
    pub gender: bool,
    pub email: String,
}

/// The mathematical value of a [`Profile`].
pub struct ProfileView {
    pub id: int,
    pub name: Seq<char>,
    pub username: Seq<char>,
    pub gender: bool,
    pub email: Seq<char>,
}

impl View for Profile {
    type V = ProfileView;

    open spec fn view(&self) -> ProfileView {
        ProfileView {
            id: self.id as int,
            name: self.name@,
            username: self.username@,
            gender: self.gender,
            email: self.email@,
        }
    }
}

impl UserView {
    /// What its owner may see of this account: everything but the password
    /// hash.
    pub open spec fn account(self) -> AccountView {
        AccountView {
            id: self.id,
            name: self.name,
            username: self.username,
            email: self.email,
            gender: self.gender,
            create_at: self.create_at,
            update_at: self.update_at,
        }
    }

    /// What others may see of this account.
    pub open spec fn profile(self) -> ProfileView {
        ProfileView {
            id: self.id,
            name: self.name,
            username: self.username,
            gender: self.gender,
            email: self.email,
        }
    }
}

impl Profile {
    /// What others may see of the account.
    pub fn of(user: User) -> (profile: Profile)
        ensures
            profile@ == user@.profile(),
    {
        Profile {
            id: user.id,
            name: user.name,
            username: user.username,
            gender: user.gender,
            email: user.email,
        }
    }
}

/// The body of a response. No body has a place for a password hash.
#[derive(Debug)]
pub enum Body {
    /// Nothing.
    Empty,
    /// A failure: what went wrong, and the status once more.
    Message { message: String, status: u16 },
    /// A session that was issued, and the account that it belongs to.
    Session { session_id: String, user: Account },
    /// The caller's own account.
    Account(Account),
    /// Another account, as far as others may see it.
    Profile(Profile),
}

/// The mathematical value of a [`Body`].
pub enum BodyView {
    Empty,
    Message { message: Seq<char>, status: u16 },
    Session { session_id: Seq<char>, user: AccountView },
    Account(AccountView),
    Profile(ProfileView),
}

impl View for Body {
    type V = BodyView;

    open spec fn view(&self) -> BodyView {
        match self {
            Body::Empty => BodyView::Empty,
            Body::Message { message, status } => BodyView::Message {
                message: message@,
                status: *status,
            },
            Body::Session { session_id, user } => BodyView::Session {
                session_id: session_id@,
                user: user@,
            },
            Body::Account(user) => BodyView::Account(user@),
            Body::Profile(profile) => BodyView::Profile(profile@),
        }
    }
}

/// What a handler hands back.
#[derive(Debug)]
pub struct Response {
    pub status: u16,
    /// The value of the `Set-Cookie` header, where the response sets the
    /// session cookie.
    pub set_cookie: Option<String>,
    pub body: Body,
}

/// The mathematical value of a [`Response`].
pub struct ResponseView {
    pub status: u16,
    pub set_cookie: Option<Seq<char>>,
    pub body: BodyView,
}

impl View for Response {
    type V = ResponseView;

    open spec fn view(&self) -> ResponseView {
        ResponseView {
            status: self.status,
            set_cookie: match self.set_cookie {
                Some(header) => Some(header@),
                None => None,
            },
            body: self.body@,
        }
    }
}

/// The response that reports a failure: the status, no cookie, and the
/// message with the status in the body.
pub open spec fn failure(status: u16, message: Seq<char>) -> ResponseView {
    ResponseView { status, set_cookie: None, body: BodyView::Message { message, status } }
}

} // verus!
