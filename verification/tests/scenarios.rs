use cognito_auth::errors::login::{JwksFailure, SdkFailure};
use cognito_auth::errors::server::ServerError;
use cognito_auth::handlers::{
    begin_authorize, begin_login, finish_authorize, finish_login, AuthorizeReply, AuthorizeStep,
    ServiceConfig,
};
use cognito_auth::operations::auth::{AuthFlow, AuthFlowRequest, AuthReply, AuthStep, TokenBundle};
use cognito_auth::operations::token_verifier::{Verdict, VerifierState};
use cognito_auth::operations::user::UserLoginRequest;

fn text(s: &str) -> Option<String> {
    Some(s.to_string())
}

fn config() -> ServiceConfig {
    ServiceConfig {
        secret: text("s3cr3t"),
        client_id: text("client-1"),
        user_pool_id: text("pool-1"),
        region: text("eu-west-1"),
    }
}

fn login() -> UserLoginRequest {
    UserLoginRequest { email: "a@x.com".to_string(), password: "p".to_string() }
}

fn pair(name: &str, value: &str) -> (String, String) {
    (name.to_string(), value.to_string())
}

fn session_cookies() -> Vec<(String, String)> {
    vec![pair("access_token", "AT"), pair("id_token", "IT"), pair("refresh_token", "RT")]
}

#[test]
fn scenario_login_succeeds() {
    let request = match begin_login(&config(), &login()) {
        AuthStep::Send(request) => request,
        AuthStep::Failed(e) => panic!("no call was decided: {:?}", e),
    };
    let params = match request {
        AuthFlowRequest::AdminInitiate(params) => params,
        AuthFlowRequest::UserInitiate(_) => panic!("the user's call was chosen"),
    };
    assert_eq!(params.user_pool_id, text("pool-1"));
    assert_eq!(params.client_id, text("client-1"));
    assert_eq!(params.auth_flow, AuthFlow::AdminUserPasswordAuth);
    assert_eq!(params.auth_parameters.len(), 3);
    assert_eq!(params.auth_parameters.get("USERNAME"), Some(&"a@x.com".to_string()));
    assert_eq!(params.auth_parameters.get("PASSWORD"), Some(&"p".to_string()));
    assert_eq!(
        params.auth_parameters.get("SECRET_HASH"),
        Some(&"KGY75Q5f7/JJtCO75s+lkRUv5GZnvFWFzTse+WnGcps=".to_string())
    );

    let bundle = TokenBundle {
        access_token: text("AT"),
        id_token: text("IT"),
        refresh_token: text("RT"),
        expires_in: 3600,
    };
    let reply = finish_login(AuthReply::Answered(Some(bundle)), text("auth.example.com"), 1_700_000_000)
        .expect("the provider answered with tokens");
    assert_eq!(reply.status, 200);
    assert_eq!(reply.body, "Logged In");
    assert_eq!(reply.cookies.len(), 3);
    let held: Vec<(&str, &str)> =
        reply.cookies.iter().map(|c| (c.name.as_str(), c.value.as_str())).collect();
    assert_eq!(held, vec![("access_token", "AT"), ("id_token", "IT"), ("refresh_token", "RT")]);
    for cookie in &reply.cookies {
        assert_eq!(cookie.max_age, Some(3600));
        assert_eq!(cookie.expires, Some(1_700_003_600));
        assert_eq!(cookie.http_only, Some(true));
        assert_eq!(cookie.path, text("/"));
        assert_eq!(cookie.domain, text("auth.example.com"));
    }
}

#[test]
fn scenario_login_without_secret_is_401() {
    let unset = ServiceConfig { secret: None, ..config() };
    let failure = match begin_login(&unset, &login()) {
        AuthStep::Failed(e) => e,
        AuthStep::Send(request) => panic!("a call was decided: {:?}", request),
    };
    assert_eq!(failure.status_code, 401);
    let reply = failure.error_response();
    assert_eq!(reply.status, 401);
    assert_eq!(reply.body, "Missing server side SECRET_HASH");
    assert_eq!(reply.www_authenticate, text("Basic"));
}

#[test]
fn scenario_authorize_without_access_token_is_401() {
    let cookies = vec![pair("id_token", "IT"), pair("refresh_token", "RT")];
    let step = begin_authorize(&config(), &cookies, text("auth.example.com"));
    assert_eq!(step, AuthorizeStep::Respond(AuthorizeReply { status: 401, body: String::new() }));
    let none = begin_authorize(&config(), &Vec::new(), None);
    assert_eq!(none, AuthorizeStep::Respond(AuthorizeReply { status: 401, body: String::new() }));
}

#[test]
fn login_without_client_id_hashes_the_email_alone() {
    let unset = ServiceConfig { client_id: None, ..config() };
    match begin_login(&unset, &login()) {
        AuthStep::Send(AuthFlowRequest::AdminInitiate(params)) => {
            assert_eq!(params.client_id, None);
            assert_eq!(
                params.auth_parameters.get("SECRET_HASH"),
                Some(&"Q4YFT/GbR1C6n/qv97V22qYaiZPMJM4lIOhwG5gy4C4=".to_string())
            );
        },
        other => panic!("unexpected step {:?}", other),
    }
}

#[test]
fn login_without_pool_still_calls() {
    let unset = ServiceConfig { user_pool_id: None, ..config() };
    match begin_login(&unset, &login()) {
        AuthStep::Send(AuthFlowRequest::AdminInitiate(params)) => {
            assert_eq!(params.user_pool_id, None);
        },
        other => panic!("unexpected step {:?}", other),
    }
}

#[test]
fn login_answer_without_result_is_a_failure() {
    let outcome = finish_login(AuthReply::Answered(None), text("h"), 0);
    assert_eq!(outcome, Err(ServerError::missing_secret_hash()));
}

#[test]
fn login_with_failed_call_is_500() {
    let outcome = finish_login(AuthReply::Failed(SdkFailure::DispatchFailure), text("h"), 0);
    let e = outcome.expect_err("the call failed");
    assert_eq!(e.status_code, 500);
    assert_eq!(e.error_response().body, "Internal Server Error");
}

#[test]
fn authorize_with_session_goes_to_the_verifier() {
    match begin_authorize(&config(), &session_cookies(), text("h")) {
        AuthorizeStep::Verify(verifier) => {
            assert_eq!(verifier.bearer_token, "AT");
            assert_eq!(verifier.expected_audience, "client-1");
            assert_eq!(verifier.region, "eu-west-1");
            assert_eq!(verifier.user_pool_id, "pool-1");
            assert_eq!(verifier.state, VerifierState::NeedKeys);
        },
        other => panic!("unexpected step {:?}", other),
    }
}

#[test]
fn authorize_without_client_id_expects_the_empty_audience() {
    let unset = ServiceConfig { client_id: None, ..config() };
    match begin_authorize(&unset, &session_cookies(), None) {
        AuthorizeStep::Verify(verifier) => assert_eq!(verifier.expected_audience, ""),
        other => panic!("unexpected step {:?}", other),
    }
}

#[test]
fn authorize_without_region_or_pool_is_401() {
    let no_region = ServiceConfig { region: None, ..config() };
    let no_pool = ServiceConfig { user_pool_id: None, ..config() };
    for unset in [no_region, no_pool] {
        assert_eq!(
            begin_authorize(&unset, &session_cookies(), None),
            AuthorizeStep::Respond(AuthorizeReply { status: 401, body: String::new() })
        );
    }
}

#[test]
fn authorize_with_a_partial_session_is_401() {
    let cookies = vec![pair("access_token", "AT"), pair("id_token", "IT")];
    assert_eq!(
        begin_authorize(&config(), &cookies, None),
        AuthorizeStep::Respond(AuthorizeReply { status: 401, body: String::new() })
    );
}

#[test]
fn valid_token_is_answered_with_200() {
    assert_eq!(
        finish_authorize(Verdict::Valid),
        Ok(AuthorizeReply { status: 200, body: String::new() })
    );
}

#[test]
fn invalid_token_is_answered_by_its_reason() {
    let malformed = finish_authorize(Verdict::Invalid(JwksFailure::MalformedToken))
        .expect_err("the token is invalid");
    assert_eq!(malformed.status_code, 401);
    assert_eq!(malformed.error_response().body, "Unauthorized");
    for reason in [
        JwksFailure::NoKeyID,
        JwksFailure::InvalidSignature,
        JwksFailure::TokenExpiredAt(1),
        JwksFailure::NetworkError,
        JwksFailure::CacheMiss,
    ] {
        let e = finish_authorize(Verdict::Invalid(reason)).expect_err("the token is invalid");
        assert_eq!(e, ServerError::from_jwks_error(reason));
        assert_eq!(e.status_code, 500);
    }
}
