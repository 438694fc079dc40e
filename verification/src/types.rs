//! Error values of the service, and the replies that are sent to
//! clients.

use vstd::prelude::*;
use vstd::string::StringExecFns;
use crate::user::domain;
use crate::user::domain::User;

verus! {

/// The status of a reply that carries what was asked for.
pub const STATUS_OK: u16 = 200;

/// The status of a reply to a request that added something.
pub const STATUS_CREATED: u16 = 201;

/// The status of a reply that has nothing to carry.
pub const STATUS_NO_CONTENT: u16 = 204;

/// The status of a reply to a request for something that does not exist.
pub const STATUS_NOT_FOUND: u16 = 404;

/// The status of a reply to a request that could not be served.
pub const STATUS_INTERNAL_SERVER_ERROR: u16 = 500;

/// What can go wrong while a request is served.
#[derive(Debug)]
pub enum AppError {
    /// Any failure other than a missing record. The text is for the
    /// server's own log and is never shown to a client.
    General(String),
    /// The record that was asked for does not exist.
    NotFound,
}

pub type AppResult<T, E = AppError> = std::result::Result<T, E>;

/// The body of a reply that reports an error.
#[derive(Debug)]
pub struct ErrorResponse {
    pub message: String,
}

/// What a reply carries.
#[derive(Debug)]
pub enum Body {
    /// Nothing.
    Empty,
    /// One user.
    User(User),
    /// A list of users.
    Users(Vec<User>),
    /// An error message.
    Error(ErrorResponse),
}

/// A reply to a client: a status and a body.
#[derive(Debug)]
pub struct Reply {
    pub status: u16,
    pub body: Body,
}

/// What a reply carries, by value.
pub enum BodyView {
    Empty,
    User(Seq<char>),
    Users(Seq<Seq<char>>),
    Error(Seq<char>),
}

/// A reply, by value.
pub struct ReplyView {
    pub status: u16,
    pub body: BodyView,
}

impl View for Body {
    type V = BodyView;

    open spec fn view(&self) -> BodyView {
        match self {
            Body::Empty => BodyView::Empty,
            Body::User(user) => BodyView::User(user@),
            Body::Users(users) => BodyView::Users(domain::names(users@)),
            Body::Error(response) => BodyView::Error(response.message@),
        }
    }
}

impl View for Reply {
    type V = ReplyView;

    open spec fn view(&self) -> ReplyView {
        ReplyView { status: self.status, body: self.body@ }
    }
}

/// The reply of status `status` that carries the user named `name`.
pub open spec fn with_user(status: u16, name: Seq<char>) -> ReplyView {
    ReplyView { status, body: BodyView::User(name) }
}

/// The reply of status `status` that carries the users named `names`.
pub open spec fn with_users(status: u16, names: Seq<Seq<char>>) -> ReplyView {
    ReplyView { status, body: BodyView::Users(names) }
}

/// The reply of status `status` that carries nothing.
pub open spec fn without_body(status: u16) -> ReplyView {
    ReplyView { status, body: BodyView::Empty }
}

/// The reply to a request for something that does not exist: status 404
/// and an empty message.
pub open spec fn not_found() -> ReplyView {
    ReplyView { status: 404, body: BodyView::Error(Seq::empty()) }
}

/// The reply to a request that could not be served: status 500 and the
/// message `Error`, whatever went wrong.
pub open spec fn failure() -> ReplyView {
    ReplyView { status: 500, body: BodyView::Error(seq!['E', 'r', 'r', 'o', 'r']) }
}

impl AppError {
    /// The text of the error: the text it carries, or `Not found`.
    pub open spec fn spec_text(&self) -> Seq<char> {
        match self {
            AppError::General(text) => text@,
            AppError::NotFound => "Not found"@,
        }
    }

    /// The reply that reports the error to a client.
    pub open spec fn spec_response(&self) -> ReplyView {
        match self {
            AppError::NotFound => not_found(),
            AppError::General(_) => failure(),
        }
    }

    /// A general error that carries the rendering of `err`.
    pub fn map<E: std::error::Error + Send + Sync + 'static>(err: E) -> (error: Self)
        ensures
            error matches AppError::General(text) && vstd::string::to_string_from_display_ensures::<
                E,
            >(&err, text),
    {
        AppError::General(err.to_string())
    }

    /// A general error that carries `text`.
    pub fn string(text: &str) -> (error: Self)
        ensures
            error matches AppError::General(carried) && carried@ == text@,
    {
        AppError::General(String::from_str(text))
    }

    /// The text of the error, for the log.
    pub fn text(&self) -> (text: String)
        ensures
            text@ == self.spec_text(),
    {
        match self {
            AppError::General(text) => text.clone(),
            AppError::NotFound => String::from_str("Not found"),
        }
    }

    /// The reply that reports the error to a client. A missing record
    /// is reported as such, with an empty message. Every other error is
    /// reported with the message `Error`: what went wrong stays with the
    /// server.
    pub fn into_response(self) -> (reply: Reply)
        ensures
            reply@ == self.spec_response(),
    {
        proof {
            reveal_strlit("");
            reveal_strlit("Error");
        }
        let (status, message) = match self {
            AppError::NotFound => (STATUS_NOT_FOUND, String::from_str("")),
            _ => (STATUS_INTERNAL_SERVER_ERROR, String::from_str("Error")),
        };
        assert(status == 404 ==> message@ =~= Seq::<char>::empty());
        assert(status == 500 ==> message@ =~= seq!['E', 'r', 'r', 'o', 'r']);
        Reply { status, body: Body::Error(ErrorResponse { message }) }
    }
}

} // verus!
