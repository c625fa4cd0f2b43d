use vstd::prelude::*;

use super::server::{ErrorSource, Failure, ServerError, ServerErrorView};

verus! {

/// The secret hash was never computed.
#[derive(Copy, Clone, PartialEq, Eq, Debug, Structural)]
pub struct SecretHashError;

impl SecretHashError {
    /// The text this failure is described with.
    pub open spec fn text() -> Seq<char> {
        "Missing SECRET_HASH"@
    }

    /// Renders the failure as text.
    pub fn to_text(&self) -> (s: String)
        ensures
            s@ == Self::text(),
    {
        "Missing SECRET_HASH".to_owned()
    }
}

impl Failure for SecretHashError {
    open spec fn as_source(&self) -> ErrorSource {
        ErrorSource::SecretHash(*self)
    }

    fn source(&self) -> (s: ErrorSource) {
        ErrorSource::SecretHash(*self)
    }
}

/// Why a configuration value could not be read from the environment.
#[derive(Copy, Clone, PartialEq, Eq, Debug, Structural)]
pub enum VarFailure {
    NotPresent,
    NotUnicode,
}

/// Why the remote key set could not be used to accept a token.
#[derive(Copy, Clone, PartialEq, Eq, Debug, Structural)]
pub enum JwksFailure {
    /// The token header had no key id.
    NoKeyID,
    InvalidSignature,
    /// The token expired at this unix time.
    TokenExpiredAt(u64),
    MalformedToken,
    /// The key set could not be fetched.
    NetworkError,
    /// The key the token names is not in the cache.
    CacheMiss,
    /// A failure this service has no name for.
    Other,
}

/// Why the signature library rejected a token or a key.
#[derive(Copy, Clone, PartialEq, Eq, Debug, Structural)]
pub enum JwtFailure {
    AlgorithmMismatch,
    InvalidInput,
    InvalidSignature,
    MalformedToken,
    /// The token expired at this unix time.
    TokenExpiredAt(u64),
    /// A failure this service has no name for.
    Other,
}

/// Why a call to the identity provider did not produce a response.
#[derive(Copy, Clone, PartialEq, Eq, Debug, Structural)]
pub enum SdkFailure {
    ConstructionFailure,
    DispatchFailure,
    ResponseError,
    ServiceError,
    TimeoutError,
    /// A failure this service has no name for.
    Other,
}

/// Every failure that can end a login or an authorization.
#[derive(Copy, Clone, PartialEq, Eq, Debug, Structural)]
pub enum LoginError {
    VarError(VarFailure),
    InvalidLength,
    SdkError(SdkFailure),
    HttpError,
    JwksError(JwksFailure),
    JwtError(JwtFailure),
    SecretHashError(SecretHashError),
}

impl Failure for LoginError {
    open spec fn as_source(&self) -> ErrorSource {
        ErrorSource::Login(*self)
    }

    fn source(&self) -> (s: ErrorSource) {
        ErrorSource::Login(*self)
    }
}

/// The message shown for failures that are the server's own.
pub open spec fn internal_server_error() -> Seq<char> {
    "Internal Server Error"@
}

/// What a failed environment lookup is reported as.
pub open spec fn var_error_view(kind: VarFailure) -> ServerErrorView {
    ServerErrorView {
        cause: match kind {
            VarFailure::NotPresent => "Env variable not found"@,
            VarFailure::NotUnicode => "Non-Unicode in env variable"@,
        },
        message: internal_server_error(),
        err: ErrorSource::Login(LoginError::VarError(kind)),
        status_code: 500,
    }
}

/// What a key of the wrong length for the hash primitive is reported as.
pub open spec fn invalid_length_view() -> ServerErrorView {
    ServerErrorView {
        cause: "Non-Unicode in env variable"@,
        message: internal_server_error(),
        err: ErrorSource::Login(LoginError::InvalidLength),
        status_code: 500,
    }
}

/// What a cookie that could not be attached to a response is reported as.
pub open spec fn http_error_view() -> ServerErrorView {
    ServerErrorView {
        cause: "Cookie Failed to Set"@,
        message: "There was a problem setting credentials"@,
        err: ErrorSource::Login(LoginError::HttpError),
        status_code: 500,
    }
}

/// The diagnostic text recorded for a key-set failure, where it has one.
pub open spec fn jwks_cause(kind: JwksFailure) -> Option<Seq<char>> {
    match kind {
        JwksFailure::NoKeyID => Some("The token header didn't have a 'kid' key ID value"@),
        JwksFailure::InvalidSignature => Some("The token's signature is invalid"@),
        JwksFailure::TokenExpiredAt(_) => Some(
            "The token expired at this time (unix epoch timestamp)"@,
        ),
        JwksFailure::MalformedToken => Some(
            "Any of: header.payload.signature split error, json parser error, header or claim validation error"@,
        ),
        JwksFailure::NetworkError => Some("Failed to fetch remote jwks key set"@),
        JwksFailure::CacheMiss => Some("Failed because the required Algorithm/key wasn't cached"@),
        JwksFailure::Other => None,
    }
}

/// What a key-set failure is reported as. A malformed token is the client's
/// fault and answered with 401; every other kind counts as the server's.
pub open spec fn jwks_error_view(kind: JwksFailure) -> ServerErrorView {
    ServerErrorView {
        cause: match jwks_cause(kind) {
            Some(text) => text,
            None => super::server::unknown_cause(),
        },
        message: match kind {
            JwksFailure::MalformedToken => "Unauthorized"@,
            JwksFailure::Other => super::server::default_message(),
            _ => internal_server_error(),
        },
        err: ErrorSource::Login(LoginError::JwksError(kind)),
        status_code: if kind is MalformedToken {
            401
        } else {
            500
        },
    }
}

/// The diagnostic text recorded for a signature-library failure, where it has
/// one.
pub open spec fn jwt_cause(kind: JwtFailure) -> Option<Seq<char>> {
    match kind {
        JwtFailure::AlgorithmMismatch => Some(
            "Alg found in the token header didn't match the given algorithm"@,
        ),
        JwtFailure::InvalidInput => Some(
            "Invalid key data, malformed data for encoding, or base864/utf8 decode/encode errors"@,
        ),
        JwtFailure::InvalidSignature => Some("Token's signature was not validated"@),
        JwtFailure::MalformedToken => Some(
            "Header.payload.signature split error, json parser error, or header or claim validation error"@,
        ),
        JwtFailure::TokenExpiredAt(_) => Some("Token expired at this time "@),
        JwtFailure::Other => None,
    }
}

/// What a signature-library failure is reported as.
pub open spec fn jwt_error_view(kind: JwtFailure) -> ServerErrorView {
    ServerErrorView {
        cause: match jwt_cause(kind) {
            Some(text) => text,
            None => super::server::unknown_cause(),
        },
        message: if kind is Other {
            super::server::default_message()
        } else {
            internal_server_error()
        },
        err: ErrorSource::Login(LoginError::JwtError(kind)),
        status_code: 500,
    }
}

/// The diagnostic text recorded for a failed provider call, where it has one.
pub open spec fn sdk_cause(kind: SdkFailure) -> Option<Seq<char>> {
    match kind {
        SdkFailure::ConstructionFailure => Some("Env variable not found"@),
        SdkFailure::DispatchFailure => Some("Non-Unicode in env variable"@),
        SdkFailure::ResponseError => Some("Non-Unicode in env variable"@),
        SdkFailure::ServiceError => Some("Non-Unicode in env variable"@),
        SdkFailure::TimeoutError => Some("Non-Unicode in env variable"@),
        SdkFailure::Other => None,
    }
}

/// What a failed provider call is reported as.
pub open spec fn sdk_error_view(kind: SdkFailure) -> ServerErrorView {
    ServerErrorView {
        cause: match sdk_cause(kind) {
            Some(text) => text,
            None => super::server::unknown_cause(),
        },
        message: if kind is Other {
            super::server::default_message()
        } else {
            internal_server_error()
        },
        err: ErrorSource::Login(LoginError::SdkError(kind)),
        status_code: 500,
    }
}

/// What a login without a computed secret hash is reported as.
pub open spec fn missing_secret_hash_view() -> ServerErrorView {
    ServerErrorView {
        cause: "Missing server side SECRET_HASH"@,
        message: "Missing server side SECRET_HASH"@,
        err: ErrorSource::SecretHash(SecretHashError),
        status_code: 401,
    }
}

/// What any login failure is reported as.
pub open spec fn login_error_view(e: LoginError) -> ServerErrorView {
    match e {
        LoginError::VarError(kind) => var_error_view(kind),
        LoginError::InvalidLength => invalid_length_view(),
        LoginError::SdkError(kind) => sdk_error_view(kind),
        LoginError::HttpError => http_error_view(),
        LoginError::JwksError(kind) => jwks_error_view(kind),
        LoginError::JwtError(kind) => jwt_error_view(kind),
        LoginError::SecretHashError(_) => missing_secret_hash_view(),
    }
}

impl ServerError {
    /// Reports a failed environment lookup.
    pub fn from_var_error(kind: VarFailure) -> (r: ServerError)
        ensures
            r@ == var_error_view(kind),
    {
        let cause = match kind {
            VarFailure::NotPresent => "Env variable not found",
            VarFailure::NotUnicode => "Non-Unicode in env variable",
        };
        ServerError::new(
            Some(cause.to_owned()),
            Some("Internal Server Error".to_owned()),
            LoginError::VarError(kind).source(),
            500,
        )
    }

    /// Reports a key of the wrong length for the hash primitive.
    pub fn from_invalid_length() -> (r: ServerError)
        ensures
            r@ == invalid_length_view(),
    {
        ServerError::new(
            Some("Non-Unicode in env variable".to_owned()),
            Some("Internal Server Error".to_owned()),
            LoginError::InvalidLength.source(),
            500,
        )
    }

    /// Reports a cookie that could not be attached to a response.
    pub fn from_http_error() -> (r: ServerError)
        ensures
            r@ == http_error_view(),
    {
        ServerError::new(
            Some("Cookie Failed to Set".to_owned()),
            Some("There was a problem setting credentials".to_owned()),
            LoginError::HttpError.source(),
            500,
        )
    }

    /// Reports a key-set failure.
    pub fn from_jwks_error(kind: JwksFailure) -> (r: ServerError)
        ensures
            r@ == jwks_error_view(kind),
    {
        let source = LoginError::JwksError(kind).source();
        match kind {
            JwksFailure::NoKeyID => ServerError::new(
                Some("The token header didn't have a 'kid' key ID value".to_owned()),
                Some("Internal Server Error".to_owned()),
                source,
                500,
            ),
            JwksFailure::InvalidSignature => ServerError::new(
                Some("The token's signature is invalid".to_owned()),
                Some("Internal Server Error".to_owned()),
                source,
                500,
            ),
            JwksFailure::TokenExpiredAt(_) => ServerError::new(
                Some("The token expired at this time (unix epoch timestamp)".to_owned()),
                Some("Internal Server Error".to_owned()),
                source,
                500,
            ),
            JwksFailure::MalformedToken => ServerError::new(
                Some(
                    "Any of: header.payload.signature split error, json parser error, header or claim validation error".to_owned(),
                ),
                Some("Unauthorized".to_owned()),
                source,
                401,
            ),
            JwksFailure::NetworkError => ServerError::new(
                Some("Failed to fetch remote jwks key set".to_owned()),
                Some("Internal Server Error".to_owned()),
                source,
                500,
            ),
            JwksFailure::CacheMiss => ServerError::new(
                Some("Failed because the required Algorithm/key wasn't cached".to_owned()),
                Some("Internal Server Error".to_owned()),
                source,
                500,
            ),
            JwksFailure::Other => ServerError::new(None, None, source, 500),
        }
    }

    /// Reports a signature-library failure.
    pub fn from_jwt_error(kind: JwtFailure) -> (r: ServerError)
        ensures
            r@ == jwt_error_view(kind),
    {
        let source = LoginError::JwtError(kind).source();
        match kind {
            JwtFailure::AlgorithmMismatch => ServerError::new(
                Some("Alg found in the token header didn't match the given algorithm".to_owned()),
                Some("Internal Server Error".to_owned()),
                source,
                500,
            ),
            JwtFailure::InvalidInput => ServerError::new(
                Some(
                    "Invalid key data, malformed data for encoding, or base864/utf8 decode/encode errors".to_owned(),
                ),
                Some("Internal Server Error".to_owned()),
                source,
                500,
            ),
            JwtFailure::InvalidSignature => ServerError::new(
                Some("Token's signature was not validated".to_owned()),
                Some("Internal Server Error".to_owned()),
                source,
                500,
            ),
            JwtFailure::MalformedToken => ServerError::new(
                Some(
                    "Header.payload.signature split error, json parser error, or header or claim validation error".to_owned(),
                ),
                Some("Internal Server Error".to_owned()),
                source,
                500,
            ),
            JwtFailure::TokenExpiredAt(_) => ServerError::new(
                Some("Token expired at this time ".to_owned()),
                Some("Internal Server Error".to_owned()),
                source,
                500,
            ),
            JwtFailure::Other => ServerError::new(None, None, source, 500),
        }
    }

    /// Reports a failed call to the identity provider.
    pub fn from_sdk_error(kind: SdkFailure) -> (r: ServerError)
        ensures
            r@ == sdk_error_view(kind),
    {
        let source = LoginError::SdkError(kind).source();
        match kind {
            SdkFailure::ConstructionFailure => ServerError::new(
                Some("Env variable not found".to_owned()),
                Some("Internal Server Error".to_owned()),
                source,
                500,
            ),
            SdkFailure::DispatchFailure
            | SdkFailure::ResponseError
            | SdkFailure::ServiceError
            | SdkFailure::TimeoutError => ServerError::new(
                Some("Non-Unicode in env variable".to_owned()),
                Some("Internal Server Error".to_owned()),
                source,
                500,
            ),
            SdkFailure::Other => ServerError::new(None, None, source, 500),
        }
    }

    /// Reports a login for which no secret hash was computed.
    pub fn missing_secret_hash() -> (r: ServerError)
        ensures
            r@ == missing_secret_hash_view(),
    {
        ServerError::new(
            Some("Missing server side SECRET_HASH".to_owned()),
            Some("Missing server side SECRET_HASH".to_owned()),
            SecretHashError.source(),
            401,
        )
    }

    /// Reports any login failure in the normalised shape.
    pub fn from_login_error(e: LoginError) -> (r: ServerError)
        ensures
            r@ == login_error_view(e),
    {
        match e {
            LoginError::VarError(kind) => ServerError::from_var_error(kind),
            LoginError::InvalidLength => ServerError::from_invalid_length(),
            LoginError::SdkError(kind) => ServerError::from_sdk_error(kind),
            LoginError::HttpError => ServerError::from_http_error(),
            LoginError::JwksError(kind) => ServerError::from_jwks_error(kind),
            LoginError::JwtError(kind) => ServerError::from_jwt_error(kind),
            LoginError::SecretHashError(_) => ServerError::missing_secret_hash(),
        }
    }
}

/// Every failure is answered with 500, except a malformed token and a missing
/// secret hash, which are answered with 401. So every failure has a status
/// that an HTTP response can carry.
pub proof fn lemma_status_is_401_or_500(e: LoginError)
    ensures
        login_error_view(e).status_code == (if e == LoginError::JwksError(JwksFailure::MalformedToken)
            || e is SecretHashError {
            401u16
        } else {
            500u16
        }),
        100 <= login_error_view(e).status_code < 1000,
{
}

} // verus!
