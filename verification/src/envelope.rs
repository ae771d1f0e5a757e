//! The response envelope and the seven replies the service can give.

use vstd::prelude::*;
use vstd::string::StringExecFns;
use crate::error::DbError;
use crate::user::UserView;

verus! {

/// Status code of a reply to a request that was carried out.
pub const HTTP_OK: u16 = 200;

/// Status code of a reply to a request that was understood and refused.
pub const HTTP_BAD_REQUEST: u16 = 400;

/// Status code of a reply to a request that failed for a technical reason.
pub const HTTP_INTERNAL_SERVER_ERROR: u16 = 500;

/// The two endpoints that answer with an envelope.
#[derive(Clone, Copy, Debug, PartialEq, Eq, Structural)]
pub enum Endpoint {
    Register,
    Login,
}

/// The fixed JSON shape `{message, name, email, status}` of every reply body.
#[derive(Clone, Debug, PartialEq, Eq)]
pub struct ApiResponse {
    pub message: String,
    pub name: Option<String>,
    pub email: Option<String>,
    pub status: String,
}

/// The mathematical value of an [`ApiResponse`].
pub struct ApiResponseView {
    pub message: Seq<char>,
    pub name: Option<Seq<char>>,
    pub email: Option<Seq<char>>,
    pub status: Seq<char>,
}

/// The view of an optional string.
pub open spec fn text_view(text: Option<String>) -> Option<Seq<char>> {
    match text {
        Some(s) => Some(s@),
        None => None,
    }
}

impl View for ApiResponse {
    type V = ApiResponseView;

    open spec fn view(&self) -> ApiResponseView {
        ApiResponseView {
            message: self.message@,
            name: text_view(self.name),
            email: text_view(self.email),
            status: self.status@,
        }
    }
}

/// A reply: the status code and the envelope sent with it.
#[derive(Clone, Debug, PartialEq, Eq)]
pub struct HttpReply {
    pub code: u16,
    pub body: ApiResponse,
}

/// The mathematical value of an [`HttpReply`].
pub struct HttpReplyView {
    pub code: u16,
    pub body: ApiResponseView,
}

impl View for HttpReply {
    type V = HttpReplyView;

    open spec fn view(&self) -> HttpReplyView {
        HttpReplyView { code: self.code, body: self.body@ }
    }
}

/// The message of a successful reply of `endpoint`.
pub open spec fn success_message(endpoint: Endpoint) -> Seq<char> {
    match endpoint {
        Endpoint::Register => "Registration successful"@,
        Endpoint::Login => "Login successful"@,
    }
}

/// The message with which `endpoint` refuses a request: registration refuses
/// an email that is taken, login one that is not known.
pub open spec fn refusal_message(endpoint: Endpoint) -> Seq<char> {
    match endpoint {
        Endpoint::Register => "User already exists"@,
        Endpoint::Login => "User does not exist"@,
    }
}

/// The message with which `endpoint` reports the technical failure `error`.
/// It names the step that failed and nothing of the cause.
pub open spec fn failure_message(endpoint: Endpoint, error: DbError) -> Seq<char> {
    match error {
        DbError::ConnectionFailure => "Failed to connect to database"@,
        DbError::QueryFailure => match endpoint {
            Endpoint::Register => "Failed to register user"@,
            Endpoint::Login => "Failed to query user"@,
        },
    }
}

/// The reply to a request of `endpoint` that was carried out for `user`.
pub open spec fn success_reply(endpoint: Endpoint, user: UserView) -> HttpReplyView {
    HttpReplyView {
        code: HTTP_OK,
        body: ApiResponseView {
            message: success_message(endpoint),
            name: Some(user.name),
            email: Some(user.email),
            status: "success"@,
        },
    }
}

/// The reply to a registration whose email belongs to the stored row `existing`.
pub open spec fn conflict_reply(existing: UserView) -> HttpReplyView {
    HttpReplyView {
        code: HTTP_BAD_REQUEST,
        body: ApiResponseView {
            message: refusal_message(Endpoint::Register),
            name: Some(existing.name),
            email: Some(existing.email),
            status: "error"@,
        },
    }
}

/// The reply to a login with an `email` that no row has.
pub open spec fn unknown_user_reply(email: Seq<char>) -> HttpReplyView {
    HttpReplyView {
        code: HTTP_BAD_REQUEST,
        body: ApiResponseView {
            message: refusal_message(Endpoint::Login),
            name: None,
            email: Some(email),
            status: "error"@,
        },
    }
}

/// The reply to a request of `endpoint` for `email` that failed with `error`.
pub open spec fn failure_reply(endpoint: Endpoint, error: DbError, email: Seq<char>) -> HttpReplyView {
    HttpReplyView {
        code: HTTP_INTERNAL_SERVER_ERROR,
        body: ApiResponseView {
            message: failure_message(endpoint, error),
            name: None,
            email: Some(email),
            status: "error"@,
        },
    }
}

impl HttpReply {
    /// The reply `200` with the success message of `endpoint` and the given
    /// name and email.
    pub fn success(endpoint: Endpoint, name: &String, email: &String) -> (reply: HttpReply)
        ensures
            reply@ == success_reply(endpoint, UserView { name: name@, email: email@ }),
    {
        let message = match endpoint {
            Endpoint::Register => String::from_str("Registration successful"),
            Endpoint::Login => String::from_str("Login successful"),
        };
        HttpReply {
            code: HTTP_OK,
            body: ApiResponse {
                message,
                name: Some(name.clone()),
                email: Some(email.clone()),
                status: String::from_str("success"),
            },
        }
    }

    /// The reply `400` that tells a registration that its email is taken,
    /// with the name and email of the row that holds it.
    pub fn conflict(name: &String, email: &String) -> (reply: HttpReply)
        ensures
            reply@ == conflict_reply(UserView { name: name@, email: email@ }),
    {
        HttpReply {
            code: HTTP_BAD_REQUEST,
            body: ApiResponse {
                message: String::from_str("User already exists"),
                name: Some(name.clone()),
                email: Some(email.clone()),
                status: String::from_str("error"),
            },
        }
    }

    /// The reply `400` that tells a login that its email is not known. It
    /// carries the email that was asked for and no name.
    pub fn unknown_user(email: &String) -> (reply: HttpReply)
        ensures
            reply@ == unknown_user_reply(email@),
    {
        HttpReply {
            code: HTTP_BAD_REQUEST,
            body: ApiResponse {
                message: String::from_str("User does not exist"),
                name: None,
                email: Some(email.clone()),
                status: String::from_str("error"),
            },
        }
    }

    /// The reply `500` for a request of `endpoint` that failed with `error`.
    /// It carries the email that was submitted and no name.
    pub fn failure(endpoint: Endpoint, error: DbError, email: &String) -> (reply: HttpReply)
        ensures
            reply@ == failure_reply(endpoint, error, email@),
    {
        let message = match error {
            DbError::ConnectionFailure => String::from_str("Failed to connect to database"),
            DbError::QueryFailure => match endpoint {
                Endpoint::Register => String::from_str("Failed to register user"),
                Endpoint::Login => String::from_str("Failed to query user"),
            },
        };
        HttpReply {
            code: HTTP_INTERNAL_SERVER_ERROR,
            body: ApiResponse {
                message,
                name: None,
                email: Some(email.clone()),
                status: String::from_str("error"),
            },
        }
    }
}

} // verus!
