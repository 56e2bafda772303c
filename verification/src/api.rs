//! The answers the panel gives: a status code and a JSON envelope.

use vstd::prelude::*;
use vstd::string::*;

verus! {

/// The JSON envelope of every answer.
pub struct ApiResp<T> {
    pub ok: bool,
    pub data: Option<T>,
    pub msg: Option<String>,
}

/// An answer: the HTTP status code and the envelope.
pub struct Reply<T> {
    pub status: u16,
    pub body: ApiResp<T>,
}

/// Why a request was refused.
pub enum ApiError {
    /// Answered with 400 and the message.
    BadRequest(String),
    /// Answered with 401 and `Unauthorised`.
    Unauthorized,
    /// Answered with 500 and the message: the machine could not give what the
    /// request needs (randomness, the time).
    Internal(String),
}

/// Whether `e` is a refusal with status 400 and the message `msg`.
pub open spec fn is_bad_request(e: ApiError, msg: Seq<char>) -> bool {
    e matches ApiError::BadRequest(m) && m@ == msg
}

/// The message of an answer with status 401.
pub open spec fn unauthorised_msg() -> Seq<char> {
    "Unauthorised"@
}

impl<T> ApiResp<T> {
    /// A successful answer (status 200) carrying `data`.
    pub fn ok(data: T) -> (r: Reply<T>)
        ensures
            r.status == 200,
            r.body.ok,
            r.body.data == Some(data),
            r.body.msg is None,
    {
        Reply { status: 200, body: ApiResp { ok: true, data: Some(data), msg: None } }
    }

    /// A refusal with status 400 and the message `msg`.
    pub fn err(msg: String) -> (r: Reply<T>)
        ensures
            r.status == 400,
            !r.body.ok,
            r.body.data is None,
            r.body.msg == Some(msg),
    {
        Reply { status: 400, body: ApiResp { ok: false, data: None, msg: Some(msg) } }
    }

    /// A failure with status 500 and the message `msg`.
    pub fn internal(msg: String) -> (r: Reply<T>)
        ensures
            r.status == 500,
            !r.body.ok,
            r.body.data is None,
            r.body.msg == Some(msg),
    {
        Reply { status: 500, body: ApiResp { ok: false, data: None, msg: Some(msg) } }
    }

    /// A refusal with status 401 and the message `Unauthorised`.
    pub fn unauthenticated() -> (r: Reply<T>)
        ensures
            r.status == 401,
            !r.body.ok,
            r.body.data is None,
            r.body.msg matches Some(m) && m@ == unauthorised_msg(),
    {
        Reply {
            status: 401,
            body: ApiResp { ok: false, data: None, msg: Some(String::from_str("Unauthorised")) },
        }
    }
}

impl ApiError {
    /// The answer that gives this refusal.
    pub fn into_reply<T>(self) -> (r: Reply<T>)
        ensures
            !r.body.ok,
            r.body.data is None,
            match self {
                ApiError::BadRequest(m) => r.status == 400 && r.body.msg == Some(m),
                ApiError::Unauthorized => r.status == 401 && (r.body.msg matches Some(m) && m@
                    == unauthorised_msg()),
                ApiError::Internal(m) => r.status == 500 && r.body.msg == Some(m),
            },
    {
        match self {
            ApiError::BadRequest(m) => ApiResp::err(m),
            ApiError::Unauthorized => ApiResp::unauthenticated(),
            ApiError::Internal(m) => ApiResp::internal(m),
        }
    }
}

} // verus!
