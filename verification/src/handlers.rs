//! The decisions of the two endpoints, apart from the remote calls between
//! them.

use vstd::prelude::*;

use crate::errors::login::{jwks_error_view, missing_secret_hash_view, sdk_error_view};
use crate::errors::server::ServerError;
use crate::operations::auth::{AuthClient, AuthCredentials, AuthReply, AuthStep};
use crate::operations::secret_hash::secret_hash;
use crate::operations::text::{clone_opt, opt_text};
use crate::operations::token_verifier::{TokenVerifier, Verdict, VerifierState};
use crate::operations::user::{
    access_token_name, carries_session, cookie_pairs, cookie_views, first_named, package,
    packaged, LoginReply, UserAuthCredentials, UserLoginRequest,
};
use crate::operations::user_token::UserToken;

verus! {

/// What the service is configured with. A value that is missing stands for
/// the empty text, except for the secret, without which nobody is logged in.
#[derive(Clone, PartialEq, Eq, Debug)]
pub struct ServiceConfig {
    pub secret: Option<String>,
    pub client_id: Option<String>,
    pub user_pool_id: Option<String>,
    pub region: Option<String>,
}

/// The text of an optional value, empty where the value is missing.
pub open spec fn text_or_empty(value: Option<String>) -> Seq<char> {
    match value {
        Some(text) => text@,
        None => Seq::empty(),
    }
}

/// Decides the remote call of a login. With a secret configured, the
/// administrator's call goes out for the configured pool and client, with
/// the email as `USERNAME`, the password as `PASSWORD`, and the secret hash
/// of email and client id as `SECRET_HASH`. Without a secret no call is made
/// and the login fails with 401.
pub fn begin_login(config: &ServiceConfig, params: &UserLoginRequest) -> (step: AuthStep)
    ensures
        match config.secret {
            Some(secret) => {
                &&& step matches AuthStep::Send(request)
                &&& request is AdminInitiate
                &&& request.params().user_pool_id == config.user_pool_id
                &&& request.params().client_id == config.client_id
                &&& request.params().auth_flow@ is AdminUserPasswordAuth
                &&& request.params().auth_parameters@.dom() =~= set![
                    "USERNAME"@,
                    "PASSWORD"@,
                    "SECRET_HASH"@,
                ]
                &&& request.params().auth_parameters@["USERNAME"@] == params.email
                &&& request.params().auth_parameters@["PASSWORD"@] == params.password
                &&& request.params().auth_parameters@["SECRET_HASH"@]@ == secret_hash(
                    secret@,
                    params.email@,
                    text_or_empty(config.client_id),
                )
            },
            None => step matches AuthStep::Failed(e) && e@ == missing_secret_hash_view(),
        },
{
    let mut credentials = AuthCredentials::prepare(
        clone_opt(&config.secret),
        clone_opt(&config.client_id),
        clone_opt(&config.user_pool_id),
        "ADMIN_USER_PASSWORD_AUTH",
    );
    proof {
        // The name is that of the administrator's password flow and no other.
        reveal_strlit("ADMIN_USER_PASSWORD_AUTH");
        reveal_strlit("ADMIN_NO_SRP_AUTH");
        assert("ADMIN_USER_PASSWORD_AUTH"@.len() != "ADMIN_NO_SRP_AUTH"@.len());
    }
    credentials.set_hash();
    credentials.update_hash(params.email.as_str().as_bytes());
    match &config.client_id {
        Some(client_id) => credentials.update_hash(client_id.as_str().as_bytes()),
        None => {
            let nothing: Vec<u8> = Vec::new();
            credentials.update_hash(nothing.as_slice());
            proof {
                assert(vstd::utf8::encode_utf8(Seq::<char>::empty()) =~= Seq::<u8>::empty());
            }
        },
    }
    credentials.set_encoding();
    proof {
        // The three parameter names differ, and the hash was fed the email
        // and then the client id.
        reveal_strlit("USERNAME");
        reveal_strlit("PASSWORD");
        reveal_strlit("SECRET_HASH");
        assert("USERNAME"@[0] != "PASSWORD"@[0]);
        assert("USERNAME"@.len() != "SECRET_HASH"@.len());
        assert("PASSWORD"@.len() != "SECRET_HASH"@.len());
        if config.secret is Some {
            let state = credentials@.hash.unwrap();
            assert(state.message() =~= vstd::utf8::encode_utf8(params.email@)
                + vstd::utf8::encode_utf8(text_or_empty(config.client_id)));
        }
    }
    let mut auth_output = AuthClient::new(credentials);
    auth_output.prepare();
    auth_output.auth(params.package_data())
}

/// Answers a login once the remote call has come back, at the moment `now`
/// in seconds of unix time. An authentication result is packaged into
/// session cookies for the host of the request, under the answer "Logged
/// In". An answer without a result, or a failed call, is an error.
pub fn finish_login(reply: AuthReply, host: Option<String>, now: i64) -> (outcome: Result<
    LoginReply,
    ServerError,
>)
    ensures
        match reply {
            AuthReply::Answered(Some(bundle)) => {
                &&& outcome matches Ok(answer)
                &&& answer.status == 200
                &&& answer.body@ == "Logged In"@
                &&& cookie_views(answer.cookies@) == packaged(bundle, opt_text(host), now)
                &&& answer.cookies@.len() == packaged(bundle, opt_text(host), now).len()
            },
            AuthReply::Answered(None) => outcome matches Err(e) && e@
                == missing_secret_hash_view(),
            AuthReply::Failed(kind) => outcome matches Err(e) && e@ == sdk_error_view(kind),
        },
{
    match AuthClient::conclude(reply) {
        Ok(bundle) => Ok(package(bundle, host, now)),
        Err(e) => Err(e),
    }
}

/// How an authorization is answered: the status and the plain-text body.
#[derive(Clone, PartialEq, Eq, Debug)]
pub struct AuthorizeReply {
    pub status: u16,
    pub body: String,
}

/// What to do next in an authorization: verify the token, or answer at once.
#[derive(PartialEq, Eq, Debug)]
pub enum AuthorizeStep {
    Verify(TokenVerifier),
    Respond(AuthorizeReply),
}

/// Whether an authorization gets as far as verifying a token: the request
/// carries the session cookies, and the region and the user pool are
/// configured.
pub open spec fn can_verify(config: ServiceConfig, cookies: Seq<(Seq<char>, Seq<char>)>) -> bool {
    &&& carries_session(cookies)
    &&& config.region is Some
    &&& config.user_pool_id is Some
}

/// Decides how an authorization starts, from the cookies of the request
/// given as names with values. Where there is a session to verify and a user
/// pool to verify it against, the access token goes to the verifier, which
/// starts with a cold cache. Otherwise the request is answered with 401 and
/// an empty body.
pub fn begin_authorize(
    config: &ServiceConfig,
    cookies: &Vec<(String, String)>,
    host: Option<String>,
) -> (step: AuthorizeStep)
    ensures
        can_verify(*config, cookie_pairs(cookies@)) ==> {
            &&& step matches AuthorizeStep::Verify(verifier)
            &&& Some(verifier.bearer_token@) == (match first_named(
                cookie_pairs(cookies@),
                access_token_name(),
            ) {
                Some(i) => Some(cookie_pairs(cookies@)[i].1),
                None => None,
            })
            &&& verifier.expected_audience@ == text_or_empty(config.client_id)
            &&& Some(verifier.region) == config.region
            &&& Some(verifier.user_pool_id) == config.user_pool_id
            &&& verifier.state == VerifierState::NeedKeys
        },
        !can_verify(*config, cookie_pairs(cookies@)) ==> {
            &&& step matches AuthorizeStep::Respond(answer)
            &&& answer.status == 401
            &&& answer.body@ == Seq::<char>::empty()
        },
{
    let session = UserAuthCredentials::from_request(cookies, host);
    if let Ok(credentials) = session {
        if let (Some(region), Some(user_pool_id)) = (&config.region, &config.user_pool_id) {
            assert(credentials.tokens.pairs()[0].0 == access_token_name());
            if let UserToken::Cookie(token) = credentials.tokens.value_at(0) {
                let audience = match &config.client_id {
                    Some(client_id) => client_id.clone(),
                    None => String::new(),
                };
                return AuthorizeStep::Verify(
                    TokenVerifier::new(
                        token.value.clone(),
                        audience,
                        region.clone(),
                        user_pool_id.clone(),
                        false,
                    ),
                );
            }
        }
    }
    AuthorizeStep::Respond(AuthorizeReply { status: 401, body: String::new() })
}

/// Answers an authorization once the verdict on the token is in: 200 with
/// an empty body for a valid token, and for an invalid one the error that
/// belongs to the reason.
pub fn finish_authorize(verdict: Verdict) -> (outcome: Result<AuthorizeReply, ServerError>)
    ensures
        match verdict {
            Verdict::Valid => outcome matches Ok(answer) && answer.status == 200 && answer.body@
                == Seq::<char>::empty(),
            Verdict::Invalid(reason) => outcome matches Err(e) && e@ == jwks_error_view(reason),
        },
{
    match verdict {
        Verdict::Valid => Ok(AuthorizeReply { status: 200, body: String::new() }),
        Verdict::Invalid(reason) => Err(ServerError::from_jwks_error(reason)),
    }
}

} // verus!
