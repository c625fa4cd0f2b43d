use vstd::prelude::*;

use super::login::{LoginError, SecretHashError};
use super::user_token::NoCookieError;

verus! {

/// The failure a `ServerError` was raised from.
#[derive(Copy, Clone, PartialEq, Eq, Debug, Structural)]
pub enum ErrorSource {
    SecretHash(SecretHashError),
    NoCookie(NoCookieError),
    Login(LoginError),
}

/// A failure that can be the source of a `ServerError`.
pub trait Failure {
    /// The source this failure stands for.
    spec fn as_source(&self) -> ErrorSource;

    /// Names this failure as an error source.
    fn source(&self) -> (s: ErrorSource)
        ensures
            s == self.as_source(),
    ;
}

/// The one shape every failure takes on its way to the HTTP boundary.
///
/// `cause` is for the server's own diagnostics; only `message` is ever shown
/// to the user.
#[derive(Clone, PartialEq, Eq, Debug)]
pub struct ServerError {
    pub cause: String,
    pub message: String,
    pub err: ErrorSource,
    pub status_code: u16,
}

/// What a `ServerError` holds, as plain text.
pub struct ServerErrorView {
    pub cause: Seq<char>,
    pub message: Seq<char>,
    pub err: ErrorSource,
    pub status_code: u16,
}

impl View for ServerError {
    type V = ServerErrorView;

    open spec fn view(&self) -> ServerErrorView {
        ServerErrorView {
            cause: self.cause@,
            message: self.message@,
            err: self.err,
            status_code: self.status_code,
        }
    }
}

/// The cause recorded when none is given.
pub open spec fn unknown_cause() -> Seq<char> {
    "Unknown Cause"@
}

/// The message shown when none is given.
pub open spec fn default_message() -> Seq<char> {
    "An error has occurred"@
}

/// How an error is answered over HTTP: the status line, the headers beyond
/// the standard ones, and the plain-text body.
#[derive(Clone, PartialEq, Eq, Debug)]
pub struct ErrorReply {
    pub status: u16,
    pub www_authenticate: Option<String>,
    pub body: String,
}

impl ServerError {
    /// Builds an error from an optional cause and message, falling back to
    /// "Unknown Cause" and "An error has occurred" where one is missing.
    pub fn new(c: Option<String>, m: Option<String>, e: ErrorSource, n: u16) -> (r: ServerError)
        ensures
            r@.cause == (match c {
                Some(text) => text@,
                None => unknown_cause(),
            }),
            r@.message == (match m {
                Some(text) => text@,
                None => default_message(),
            }),
            r@.err == e,
            r@.status_code == n,
    {
        let cause = match c {
            Some(text) => text,
            None => "Unknown Cause".to_owned(),
        };
        let message = match m {
            Some(text) => text,
            None => "An error has occurred".to_owned(),
        };
        ServerError { cause, message, err: e, status_code: n }
    }

    /// Whether the status code is one an HTTP response can carry.
    pub open spec fn has_valid_status(&self) -> bool {
        100 <= self.status_code < 1000
    }

    /// The reply this error is answered with: its status code, the message as
    /// the body, and for 401 a `WWW-Authenticate: Basic` challenge. The cause
    /// never appears in it.
    pub fn error_response(&self) -> (reply: ErrorReply)
        requires
            self.has_valid_status(),
        ensures
            reply.status == self.status_code,
            reply.body@ == self.message@,
            self.status_code == 401 ==> reply.www_authenticate is Some
                && reply.www_authenticate.unwrap()@ == "Basic"@,
            self.status_code != 401 ==> reply.www_authenticate is None,
    {
        let challenge = if self.status_code == 401 {
            Some("Basic".to_owned())
        } else {
            None
        };
        ErrorReply { status: self.status_code, www_authenticate: challenge, body: self.message.clone() }
    }
}

} // verus!
