use cognito_auth::errors::login::{
    JwksFailure, JwtFailure, LoginError, SdkFailure, SecretHashError, VarFailure,
};
use cognito_auth::errors::server::{ErrorSource, Failure, ServerError};
use cognito_auth::errors::user_token::NoCookieError;

fn check(e: &ServerError, cause: &str, message: &str, status: u16, source: LoginError) {
    assert_eq!(e.cause, cause);
    assert_eq!(e.message, message);
    assert_eq!(e.status_code, status);
    assert_eq!(e.err, ErrorSource::Login(source));
}

#[test]
fn new_keeps_what_it_is_given() {
    let e = ServerError::new(
        Some("why".to_string()),
        Some("what".to_string()),
        ErrorSource::NoCookie(NoCookieError),
        418,
    );
    assert_eq!(e.cause, "why");
    assert_eq!(e.message, "what");
    assert_eq!(e.err, ErrorSource::NoCookie(NoCookieError));
    assert_eq!(e.status_code, 418);
}

#[test]
fn new_falls_back_to_defaults() {
    let e = ServerError::new(None, None, ErrorSource::SecretHash(SecretHashError), 500);
    assert_eq!(e.cause, "Unknown Cause");
    assert_eq!(e.message, "An error has occurred");
    assert_eq!(e.status_code, 500);
}

#[test]
fn new_falls_back_for_one_field_only() {
    let e = ServerError::new(Some("why".to_string()), None, SecretHashError.source(), 401);
    assert_eq!(e.cause, "why");
    assert_eq!(e.message, "An error has occurred");
    let f = ServerError::new(None, Some("what".to_string()), SecretHashError.source(), 401);
    assert_eq!(f.cause, "Unknown Cause");
    assert_eq!(f.message, "what");
}

#[test]
fn sources_name_themselves() {
    assert_eq!(SecretHashError.source(), ErrorSource::SecretHash(SecretHashError));
    assert_eq!(NoCookieError.source(), ErrorSource::NoCookie(NoCookieError));
    assert_eq!(LoginError::HttpError.source(), ErrorSource::Login(LoginError::HttpError));
}

#[test]
fn failures_render_as_text() {
    assert_eq!(SecretHashError.to_text(), "Missing SECRET_HASH");
    assert_eq!(NoCookieError.to_text(), "Missing SECRET_HASH");
}

#[test]
fn var_errors() {
    check(
        &ServerError::from_var_error(VarFailure::NotPresent),
        "Env variable not found",
        "Internal Server Error",
        500,
        LoginError::VarError(VarFailure::NotPresent),
    );
    check(
        &ServerError::from_var_error(VarFailure::NotUnicode),
        "Non-Unicode in env variable",
        "Internal Server Error",
        500,
        LoginError::VarError(VarFailure::NotUnicode),
    );
}

#[test]
fn invalid_length_error() {
    check(
        &ServerError::from_invalid_length(),
        "Non-Unicode in env variable",
        "Internal Server Error",
        500,
        LoginError::InvalidLength,
    );
}

#[test]
fn http_error() {
    check(
        &ServerError::from_http_error(),
        "Cookie Failed to Set",
        "There was a problem setting credentials",
        500,
        LoginError::HttpError,
    );
}

#[test]
fn jwks_errors() {
    check(
        &ServerError::from_jwks_error(JwksFailure::NoKeyID),
        "The token header didn't have a 'kid' key ID value",
        "Internal Server Error",
        500,
        LoginError::JwksError(JwksFailure::NoKeyID),
    );
    check(
        &ServerError::from_jwks_error(JwksFailure::InvalidSignature),
        "The token's signature is invalid",
        "Internal Server Error",
        500,
        LoginError::JwksError(JwksFailure::InvalidSignature),
    );
    check(
        &ServerError::from_jwks_error(JwksFailure::TokenExpiredAt(1_700_000_000)),
        "The token expired at this time (unix epoch timestamp)",
        "Internal Server Error",
        500,
        LoginError::JwksError(JwksFailure::TokenExpiredAt(1_700_000_000)),
    );
    check(
        &ServerError::from_jwks_error(JwksFailure::NetworkError),
        "Failed to fetch remote jwks key set",
        "Internal Server Error",
        500,
        LoginError::JwksError(JwksFailure::NetworkError),
    );
    check(
        &ServerError::from_jwks_error(JwksFailure::CacheMiss),
        "Failed because the required Algorithm/key wasn't cached",
        "Internal Server Error",
        500,
        LoginError::JwksError(JwksFailure::CacheMiss),
    );
}

#[test]
fn malformed_token_is_the_only_401_among_jwks_errors() {
    check(
        &ServerError::from_jwks_error(JwksFailure::MalformedToken),
        "Any of: header.payload.signature split error, json parser error, header or claim validation error",
        "Unauthorized",
        401,
        LoginError::JwksError(JwksFailure::MalformedToken),
    );
    let others = [
        JwksFailure::NoKeyID,
        JwksFailure::InvalidSignature,
        JwksFailure::TokenExpiredAt(0),
        JwksFailure::NetworkError,
        JwksFailure::CacheMiss,
        JwksFailure::Other,
    ];
    for kind in others {
        assert_eq!(ServerError::from_jwks_error(kind).status_code, 500);
    }
}

#[test]
fn unrecognized_kinds_get_the_defaults() {
    check(
        &ServerError::from_jwks_error(JwksFailure::Other),
        "Unknown Cause",
        "An error has occurred",
        500,
        LoginError::JwksError(JwksFailure::Other),
    );
    check(
        &ServerError::from_jwt_error(JwtFailure::Other),
        "Unknown Cause",
        "An error has occurred",
        500,
        LoginError::JwtError(JwtFailure::Other),
    );
    check(
        &ServerError::from_sdk_error(SdkFailure::Other),
        "Unknown Cause",
        "An error has occurred",
        500,
        LoginError::SdkError(SdkFailure::Other),
    );
}

#[test]
fn jwt_errors() {
    check(
        &ServerError::from_jwt_error(JwtFailure::AlgorithmMismatch),
        "Alg found in the token header didn't match the given algorithm",
        "Internal Server Error",
        500,
        LoginError::JwtError(JwtFailure::AlgorithmMismatch),
    );
    check(
        &ServerError::from_jwt_error(JwtFailure::InvalidInput),
        "Invalid key data, malformed data for encoding, or base864/utf8 decode/encode errors",
        "Internal Server Error",
        500,
        LoginError::JwtError(JwtFailure::InvalidInput),
    );
    check(
        &ServerError::from_jwt_error(JwtFailure::InvalidSignature),
        "Token's signature was not validated",
        "Internal Server Error",
        500,
        LoginError::JwtError(JwtFailure::InvalidSignature),
    );
    check(
        &ServerError::from_jwt_error(JwtFailure::MalformedToken),
        "Header.payload.signature split error, json parser error, or header or claim validation error",
        "Internal Server Error",
        500,
        LoginError::JwtError(JwtFailure::MalformedToken),
    );
    check(
        &ServerError::from_jwt_error(JwtFailure::TokenExpiredAt(7)),
        "Token expired at this time ",
        "Internal Server Error",
        500,
        LoginError::JwtError(JwtFailure::TokenExpiredAt(7)),
    );
}

#[test]
fn sdk_errors() {
    check(
        &ServerError::from_sdk_error(SdkFailure::ConstructionFailure),
        "Env variable not found",
        "Internal Server Error",
        500,
        LoginError::SdkError(SdkFailure::ConstructionFailure),
    );
    let rest = [
        SdkFailure::DispatchFailure,
        SdkFailure::ResponseError,
        SdkFailure::ServiceError,
        SdkFailure::TimeoutError,
    ];
    for kind in rest {
        check(
            &ServerError::from_sdk_error(kind),
            "Non-Unicode in env variable",
            "Internal Server Error",
            500,
            LoginError::SdkError(kind),
        );
    }
}

#[test]
fn missing_secret_hash_is_401() {
    let e = ServerError::missing_secret_hash();
    assert_eq!(e.cause, "Missing server side SECRET_HASH");
    assert_eq!(e.message, "Missing server side SECRET_HASH");
    assert_eq!(e.status_code, 401);
    assert_eq!(e.err, ErrorSource::SecretHash(SecretHashError));
}

#[test]
fn login_errors_are_reported_like_their_kind() {
    assert_eq!(
        ServerError::from_login_error(LoginError::VarError(VarFailure::NotPresent)),
        ServerError::from_var_error(VarFailure::NotPresent)
    );
    assert_eq!(
        ServerError::from_login_error(LoginError::InvalidLength),
        ServerError::from_invalid_length()
    );
    assert_eq!(
        ServerError::from_login_error(LoginError::SdkError(SdkFailure::TimeoutError)),
        ServerError::from_sdk_error(SdkFailure::TimeoutError)
    );
    assert_eq!(ServerError::from_login_error(LoginError::HttpError), ServerError::from_http_error());
    assert_eq!(
        ServerError::from_login_error(LoginError::JwksError(JwksFailure::CacheMiss)),
        ServerError::from_jwks_error(JwksFailure::CacheMiss)
    );
    assert_eq!(
        ServerError::from_login_error(LoginError::JwtError(JwtFailure::InvalidInput)),
        ServerError::from_jwt_error(JwtFailure::InvalidInput)
    );
    assert_eq!(
        ServerError::from_login_error(LoginError::SecretHashError(SecretHashError)),
        ServerError::missing_secret_hash()
    );
}

#[test]
fn error_reply_shows_the_message_only() {
    let e = ServerError::from_jwks_error(JwksFailure::CacheMiss);
    let reply = e.error_response();
    assert_eq!(reply.status, 500);
    assert_eq!(reply.body, "Internal Server Error");
    assert_eq!(reply.www_authenticate, None);
    assert_ne!(reply.body, e.cause);
}

#[test]
fn error_reply_for_401_carries_a_challenge() {
    let reply = ServerError::missing_secret_hash().error_response();
    assert_eq!(reply.status, 401);
    assert_eq!(reply.body, "Missing server side SECRET_HASH");
    assert_eq!(reply.www_authenticate, Some("Basic".to_string()));
}

#[test]
fn error_reply_at_the_edges_of_the_status_range() {
    let low = ServerError::new(None, None, SecretHashError.source(), 100).error_response();
    assert_eq!(low.status, 100);
    assert_eq!(low.www_authenticate, None);
    let high = ServerError::new(None, None, SecretHashError.source(), 999).error_response();
    assert_eq!(high.status, 999);
    assert_eq!(high.body, "An error has occurred");
}
