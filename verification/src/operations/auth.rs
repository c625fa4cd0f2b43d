use vstd::prelude::*;
use vstd::utf8::encode_utf8;

use aws_sdk_cognitoidentityprovider::types::AuthFlowType;

use super::secret_hash::{encoding_of, HashState};
use super::text::clone_opt;
use super::text_map::TextMap;
use crate::errors::login::{missing_secret_hash_view, sdk_error_view, SdkFailure};
use crate::errors::server::ServerError;

verus! {

/// The way in which a user is authenticated against the user pool.
#[derive(PartialEq, Eq, Debug)]
pub enum AuthFlow {
    AdminNoSrpAuth,
    AdminUserPasswordAuth,
    CustomAuth,
    RefreshToken,
    RefreshTokenAuth,
    UserAuth,
    UserPasswordAuth,
    UserSrpAuth,
    /// A flow this service has no name for, under the provider's name for it.
    Unknown(String),
}

/// An `AuthFlow`, with the name of an unknown flow as plain text.
pub enum AuthFlowView {
    AdminNoSrpAuth,
    AdminUserPasswordAuth,
    CustomAuth,
    RefreshToken,
    RefreshTokenAuth,
    UserAuth,
    UserPasswordAuth,
    UserSrpAuth,
    Unknown(Seq<char>),
}

impl View for AuthFlow {
    type V = AuthFlowView;

    open spec fn view(&self) -> AuthFlowView {
        match self {
            AuthFlow::AdminNoSrpAuth => AuthFlowView::AdminNoSrpAuth,
            AuthFlow::AdminUserPasswordAuth => AuthFlowView::AdminUserPasswordAuth,
            AuthFlow::CustomAuth => AuthFlowView::CustomAuth,
            AuthFlow::RefreshToken => AuthFlowView::RefreshToken,
            AuthFlow::RefreshTokenAuth => AuthFlowView::RefreshTokenAuth,
            AuthFlow::UserAuth => AuthFlowView::UserAuth,
            AuthFlow::UserPasswordAuth => AuthFlowView::UserPasswordAuth,
            AuthFlow::UserSrpAuth => AuthFlowView::UserSrpAuth,
            AuthFlow::Unknown(name) => AuthFlowView::Unknown(name@),
        }
    }
}

/// The flow that the identity provider knows under a name. A name it does not
/// know stands for itself.
pub open spec fn flow_named(name: Seq<char>) -> AuthFlowView {
    if name == "ADMIN_NO_SRP_AUTH"@ {
        AuthFlowView::AdminNoSrpAuth
    } else if name == "ADMIN_USER_PASSWORD_AUTH"@ {
        AuthFlowView::AdminUserPasswordAuth
    } else if name == "CUSTOM_AUTH"@ {
        AuthFlowView::CustomAuth
    } else if name == "REFRESH_TOKEN"@ {
        AuthFlowView::RefreshToken
    } else if name == "REFRESH_TOKEN_AUTH"@ {
        AuthFlowView::RefreshTokenAuth
    } else if name == "USER_AUTH"@ {
        AuthFlowView::UserAuth
    } else if name == "USER_PASSWORD_AUTH"@ {
        AuthFlowView::UserPasswordAuth
    } else if name == "USER_SRP_AUTH"@ {
        AuthFlowView::UserSrpAuth
    } else {
        AuthFlowView::Unknown(name)
    }
}

/// The name under which the identity provider knows a flow.
pub open spec fn flow_name(flow: AuthFlowView) -> Seq<char> {
    match flow {
        AuthFlowView::AdminNoSrpAuth => "ADMIN_NO_SRP_AUTH"@,
        AuthFlowView::AdminUserPasswordAuth => "ADMIN_USER_PASSWORD_AUTH"@,
        AuthFlowView::CustomAuth => "CUSTOM_AUTH"@,
        AuthFlowView::RefreshToken => "REFRESH_TOKEN"@,
        AuthFlowView::RefreshTokenAuth => "REFRESH_TOKEN_AUTH"@,
        AuthFlowView::UserAuth => "USER_AUTH"@,
        AuthFlowView::UserPasswordAuth => "USER_PASSWORD_AUTH"@,
        AuthFlowView::UserSrpAuth => "USER_SRP_AUTH"@,
        AuthFlowView::Unknown(name) => name,
    }
}

/// A flow found by name is known under that very name.
pub proof fn lemma_flow_named_keeps_name(name: Seq<char>)
    ensures
        flow_name(flow_named(name)) == name,
{
}

/// Reads a flow name with `AuthFlowType::from(&str)` of
/// `aws_sdk_cognitoidentityprovider`, and carries the variant over.
///
/// Taken on trust: that the call matches the name against the eight flow
/// names of the provider, and keeps any other name as an unknown flow.
#[verifier::external_body]
fn flow_from_name(name: &str) -> (flow: AuthFlow)
    ensures
        flow@ == flow_named(name@),
{
    match AuthFlowType::from(name) {
        AuthFlowType::AdminNoSrpAuth => AuthFlow::AdminNoSrpAuth,
        AuthFlowType::AdminUserPasswordAuth => AuthFlow::AdminUserPasswordAuth,
        AuthFlowType::CustomAuth => AuthFlow::CustomAuth,
        AuthFlowType::RefreshToken => AuthFlow::RefreshToken,
        AuthFlowType::RefreshTokenAuth => AuthFlow::RefreshTokenAuth,
        AuthFlowType::UserAuth => AuthFlow::UserAuth,
        AuthFlowType::UserPasswordAuth => AuthFlow::UserPasswordAuth,
        AuthFlowType::UserSrpAuth => AuthFlow::UserSrpAuth,
        other => AuthFlow::Unknown(other.as_str().to_owned()),
    }
}

impl AuthFlow {
    /// The name under which the identity provider knows this flow.
    pub fn name(&self) -> (name: String)
        ensures
            name@ == flow_name(self@),
    {
        match self {
            AuthFlow::AdminNoSrpAuth => "ADMIN_NO_SRP_AUTH".to_owned(),
            AuthFlow::AdminUserPasswordAuth => "ADMIN_USER_PASSWORD_AUTH".to_owned(),
            AuthFlow::CustomAuth => "CUSTOM_AUTH".to_owned(),
            AuthFlow::RefreshToken => "REFRESH_TOKEN".to_owned(),
            AuthFlow::RefreshTokenAuth => "REFRESH_TOKEN_AUTH".to_owned(),
            AuthFlow::UserAuth => "USER_AUTH".to_owned(),
            AuthFlow::UserPasswordAuth => "USER_PASSWORD_AUTH".to_owned(),
            AuthFlow::UserSrpAuth => "USER_SRP_AUTH".to_owned(),
            AuthFlow::Unknown(name) => name.clone(),
        }
    }

    /// A copy of this flow.
    pub fn duplicate(&self) -> (copy: AuthFlow)
        ensures
            copy == *self,
    {
        match self {
            AuthFlow::AdminNoSrpAuth => AuthFlow::AdminNoSrpAuth,
            AuthFlow::AdminUserPasswordAuth => AuthFlow::AdminUserPasswordAuth,
            AuthFlow::CustomAuth => AuthFlow::CustomAuth,
            AuthFlow::RefreshToken => AuthFlow::RefreshToken,
            AuthFlow::RefreshTokenAuth => AuthFlow::RefreshTokenAuth,
            AuthFlow::UserAuth => AuthFlow::UserAuth,
            AuthFlow::UserPasswordAuth => AuthFlow::UserPasswordAuth,
            AuthFlow::UserSrpAuth => AuthFlow::UserSrpAuth,
            AuthFlow::Unknown(name) => AuthFlow::Unknown(name.clone()),
        }
    }
}

/// What a login attempt is configured with, and the secret hash as far as it
/// has been computed.
///
/// A hash is only ever keyed by the secret, and an encoding only ever comes
/// from such a hash: without a secret there is neither.
#[derive(PartialEq, Eq, Debug)]
pub struct AuthCredentials {
    secret: Option<String>,
    client_id: Option<String>,
    user_pool_id: Option<String>,
    auth_flow: AuthFlow,
    hash: Option<HashState>,
    encoding: Option<String>,
}

/// What `AuthCredentials` hold.
pub struct AuthCredentialsView {
    /// The shared secret, if one is configured.
    pub secret: Option<String>,
    /// The client id, if one is configured.
    pub client_id: Option<String>,
    /// The user pool id, if one is configured.
    pub user_pool_id: Option<String>,
    /// The configured flow.
    pub auth_flow: AuthFlow,
    /// The hash in the making, if it was started.
    pub hash: Option<HashState>,
    /// The encoded secret hash, if it was computed.
    pub encoding: Option<String>,
}

impl View for AuthCredentials {
    type V = AuthCredentialsView;

    closed spec fn view(&self) -> AuthCredentialsView {
        AuthCredentialsView {
            secret: self.secret,
            client_id: self.client_id,
            user_pool_id: self.user_pool_id,
            auth_flow: self.auth_flow,
            hash: self.hash,
            encoding: self.encoding,
        }
    }
}

impl AuthCredentials {
    /// The shared secret, if one is configured.
    pub fn secret(&self) -> (secret: &Option<String>)
        ensures
            *secret == self@.secret,
    {
        &self.secret
    }

    /// The client id, if one is configured.
    pub fn client_id(&self) -> (client_id: &Option<String>)
        ensures
            *client_id == self@.client_id,
    {
        &self.client_id
    }

    /// The user pool id, if one is configured.
    pub fn user_pool_id(&self) -> (user_pool_id: &Option<String>)
        ensures
            *user_pool_id == self@.user_pool_id,
    {
        &self.user_pool_id
    }

    /// The configured flow.
    pub fn auth_flow(&self) -> (auth_flow: &AuthFlow)
        ensures
            *auth_flow == self@.auth_flow,
    {
        &self.auth_flow
    }

    /// The hash in the making, if it was started. It is keyed by the secret.
    pub fn hash(&self) -> (hash: &Option<HashState>)
        ensures
            *hash == self@.hash,
            *hash matches Some(state) ==> self@.secret matches Some(secret) && state.key()
                == encode_utf8(secret@),
    {
        proof {
            use_type_invariant(self);
        }
        &self.hash
    }

    /// Whether a text is the encoding of some hash keyed by a secret.
    pub open spec fn encodes_under(text: Seq<char>, secret: Seq<char>) -> bool {
        exists|message: Seq<u8>| text == #[trigger] encoding_of(encode_utf8(secret), message)
    }

    #[verifier::type_invariant]
    spec fn keyed_by_secret(&self) -> bool {
        &&& self.hash matches Some(state) ==> self.secret matches Some(secret) && state.key()
            == encode_utf8(secret@)
        &&& self.encoding matches Some(text) ==> self.secret matches Some(secret)
            && Self::encodes_under(text@, secret@)
    }

    /// Credentials for a login attempt, with no hash started yet. The flow is
    /// given by the name the identity provider knows it under.
    pub fn prepare(
        secret: Option<String>,
        client_id: Option<String>,
        user_pool_id: Option<String>,
        auth_flow: &str,
    ) -> (credentials: AuthCredentials)
        ensures
            credentials@.secret == secret,
            credentials@.client_id == client_id,
            credentials@.user_pool_id == user_pool_id,
            credentials@.auth_flow@ == flow_named(auth_flow@),
            credentials@.hash is None,
            credentials@.encoding is None,
    {
        AuthCredentials {
            secret,
            client_id,
            user_pool_id,
            auth_flow: flow_from_name(auth_flow),
            hash: None,
            encoding: None,
        }
    }

    /// Starts the hash, keyed by the secret. Without a secret nothing is
    /// started, and what was there stays.
    pub fn set_hash(&mut self)
        ensures
            final(self)@.secret == old(self)@.secret,
            final(self)@.client_id == old(self)@.client_id,
            final(self)@.user_pool_id == old(self)@.user_pool_id,
            final(self)@.auth_flow == old(self)@.auth_flow,
            final(self)@.encoding == old(self)@.encoding,
            match old(self)@.secret {
                Some(secret) => final(self)@.hash matches Some(state) && state.key()
                    == encode_utf8(secret@) && state.message() == Seq::<u8>::empty(),
                None => final(self)@.hash == old(self)@.hash,
            },
    {
        proof {
            use_type_invariant(&*self);
        }
        let started = match &self.secret {
            Some(secret) => HashState::init(Some(secret.as_str())),
            None => HashState::init(None),
        };
        if let Ok(state) = started {
            self.hash = Some(state);
        }
    }

    /// Feeds bytes to the hash, if it was started.
    pub fn update_hash(&mut self, updater: &[u8])
        ensures
            final(self)@.secret == old(self)@.secret,
            final(self)@.client_id == old(self)@.client_id,
            final(self)@.user_pool_id == old(self)@.user_pool_id,
            final(self)@.auth_flow == old(self)@.auth_flow,
            final(self)@.encoding == old(self)@.encoding,
            match old(self)@.hash {
                Some(before) => final(self)@.hash matches Some(state) && state.key()
                    == before.key() && state.message() == before.message() + updater@,
                None => final(self)@.hash is None,
            },
    {
        proof {
            use_type_invariant(&*self);
        }
        let mut hash: Option<HashState> = None;
        std::mem::swap(&mut hash, &mut self.hash);
        if let Some(state) = hash {
            self.hash = Some(state.update(updater));
        }
    }

    /// Finishes the hash, if it was started, and keeps its encoding.
    pub fn set_encoding(&mut self)
        ensures
            final(self)@.secret == old(self)@.secret,
            final(self)@.client_id == old(self)@.client_id,
            final(self)@.user_pool_id == old(self)@.user_pool_id,
            final(self)@.auth_flow == old(self)@.auth_flow,
            final(self)@.hash == old(self)@.hash,
            match old(self)@.hash {
                Some(state) => final(self)@.encoding matches Some(text) && text@
                    == state.encoding(),
                None => final(self)@.encoding == old(self)@.encoding,
            },
    {
        proof {
            use_type_invariant(&*self);
        }
        let encoded = match &self.hash {
            Some(state) => match state.finalize_base64() {
                Ok(text) => Some(text),
                Err(_) => None,
            },
            None => None,
        };
        if let Some(text) = encoded {
            self.encoding = Some(text);
        }
    }

    /// The encoded secret hash, if it was computed. There is none unless a
    /// secret is configured, and then it is the encoding of a hash keyed by
    /// that secret.
    pub fn encoded_hash(&self) -> (text: Option<&String>)
        ensures
            match self@.encoding {
                Some(held) => text == Some(&held),
                None => text is None,
            },
            text matches Some(held) ==> self@.secret matches Some(secret)
                && Self::encodes_under(held@, secret@),
    {
        proof {
            use_type_invariant(self);
        }
        self.encoding.as_ref()
    }
}

/// The two shapes of the remote call that starts an authentication.
#[derive(Copy, Clone, PartialEq, Eq, Debug, Structural)]
pub enum CognitoAuthType {
    /// The call an administrator makes for a user, against a named pool.
    AdminAuth,
    /// The call a user makes directly.
    Auth,
}

/// The shape of the remote call that belongs to a flow: the administrator's
/// call for `AdminUserPasswordAuth`, the user's own call for every other
/// flow, known or not.
pub open spec fn selected(auth_flow: AuthFlowView) -> CognitoAuthType {
    if auth_flow is AdminUserPasswordAuth {
        CognitoAuthType::AdminAuth
    } else {
        CognitoAuthType::Auth
    }
}

/// Chooses the shape of the remote call for a flow.
pub fn select(auth_flow: &AuthFlow) -> (kind: CognitoAuthType)
    ensures
        kind == selected(auth_flow@),
{
    match auth_flow {
        AuthFlow::AdminUserPasswordAuth => CognitoAuthType::AdminAuth,
        _ => CognitoAuthType::Auth,
    }
}

/// What a remote authentication call carries.
#[derive(PartialEq, Eq, Debug)]
pub struct AuthParams {
    pub user_pool_id: Option<String>,
    pub client_id: Option<String>,
    pub auth_flow: AuthFlow,
    pub auth_parameters: TextMap<String>,
}

/// A remote authentication call, in one of its two shapes.
#[derive(PartialEq, Eq, Debug)]
pub enum AuthFlowRequest {
    AdminInitiate(AuthParams),
    UserInitiate(AuthParams),
}

impl AuthFlowRequest {
    /// What the call carries, whichever shape it has.
    pub open spec fn params(&self) -> AuthParams {
        match self {
            AuthFlowRequest::AdminInitiate(params) => *params,
            AuthFlowRequest::UserInitiate(params) => *params,
        }
    }

    /// The shape of the call.
    pub open spec fn kind(&self) -> CognitoAuthType {
        match self {
            AuthFlowRequest::AdminInitiate(_) => CognitoAuthType::AdminAuth,
            AuthFlowRequest::UserInitiate(_) => CognitoAuthType::Auth,
        }
    }
}

/// What an `AuthClient` has built so far: nothing yet, or the call to make.
#[derive(PartialEq, Eq, Debug)]
pub enum AuthBuilder {
    Client,
    Request(AuthFlowRequest),
}

/// The tokens that a successful authentication yields, and their lifetime in
/// seconds.
#[derive(Clone, PartialEq, Eq, Debug)]
pub struct TokenBundle {
    pub access_token: Option<String>,
    pub id_token: Option<String>,
    pub refresh_token: Option<String>,
    pub expires_in: i32,
}

/// What came back from the remote authentication call.
#[derive(PartialEq, Eq, Debug)]
pub enum AuthReply {
    /// The provider answered, with or without an authentication result.
    Answered(Option<TokenBundle>),
    /// The call itself failed.
    Failed(SdkFailure),
}

/// What to do next in a login: make the remote call, or give up.
#[derive(PartialEq, Eq, Debug)]
pub enum AuthStep {
    Send(AuthFlowRequest),
    Failed(ServerError),
}

/// How far a login session has come.
#[derive(Copy, Clone, PartialEq, Eq, Debug, Structural)]
pub enum SessionState {
    Uninitialized,
    Prepared,
    Requested,
    Succeeded,
    Failed,
}

impl AuthStep {
    /// The state a session is in after this step.
    pub open spec fn state(&self) -> SessionState {
        match self {
            AuthStep::Send(_) => SessionState::Requested,
            AuthStep::Failed(_) => SessionState::Failed,
        }
    }
}

/// The state a session ends in on the outcome of its remote call.
pub open spec fn final_state(outcome: Result<TokenBundle, ServerError>) -> SessionState {
    match outcome {
        Ok(_) => SessionState::Succeeded,
        Err(_) => SessionState::Failed,
    }
}

/// The key under which the secret hash travels in the call's parameters.
pub open spec fn secret_hash_key() -> Seq<char> {
    "SECRET_HASH"@
}

/// Whether a step is the one to take on an encoded secret hash, on what a
/// session has built, and on the credentials of the user.
///
/// With a hash and a built call, the step is to send that call, with the
/// user's credentials and the hash under `SECRET_HASH` as its parameters.
/// With either missing, the step is to fail with the missing-secret error.
pub open spec fn decided(
    encoding: Option<String>,
    built: AuthBuilder,
    user_credentials: TextMap<String>,
    step: AuthStep,
) -> bool {
    match (encoding, built) {
        (Some(secret_hash), AuthBuilder::Request(call)) => {
            &&& step matches AuthStep::Send(request)
            &&& request.kind() == call.kind()
            &&& request.params().user_pool_id == call.params().user_pool_id
            &&& request.params().client_id == call.params().client_id
            &&& request.params().auth_flow == call.params().auth_flow
            &&& request.params().auth_parameters@ == user_credentials@.insert(
                secret_hash_key(),
                secret_hash,
            )
        },
        _ => step matches AuthStep::Failed(e) && e@ == missing_secret_hash_view(),
    }
}

/// Decides the remote call of a login from the encoded secret hash, from
/// what the session has built, and from the credentials of the user. No call
/// is ever decided without a secret hash.
pub fn decide_call(
    encoding: Option<String>,
    built: AuthBuilder,
    user_credentials: TextMap<String>,
) -> (step: AuthStep)
    ensures
        decided(encoding, built, user_credentials, step),
        step is Send <==> encoding is Some && built is Request,
{
    match (encoding, built) {
        (Some(secret_hash), AuthBuilder::Request(call)) => {
            let mut parameters = user_credentials;
            parameters.insert("SECRET_HASH".to_owned(), secret_hash);
            let request = match call {
                AuthFlowRequest::AdminInitiate(params) => AuthFlowRequest::AdminInitiate(
                    AuthParams {
                        user_pool_id: params.user_pool_id,
                        client_id: params.client_id,
                        auth_flow: params.auth_flow,
                        auth_parameters: parameters,
                    },
                ),
                AuthFlowRequest::UserInitiate(params) => AuthFlowRequest::UserInitiate(
                    AuthParams {
                        user_pool_id: params.user_pool_id,
                        client_id: params.client_id,
                        auth_flow: params.auth_flow,
                        auth_parameters: parameters,
                    },
                ),
            };
            AuthStep::Send(request)
        },
        _ => AuthStep::Failed(ServerError::missing_secret_hash()),
    }
}

/// One login session: single use, from credentials to the call to make.
#[derive(PartialEq, Eq, Debug)]
pub struct AuthClient {
    connection_credentials: AuthCredentials,
    cognito_auth_type: CognitoAuthType,
    auth_builder: AuthBuilder,
}

impl AuthClient {
    /// The credentials this session was opened with.
    pub closed spec fn credentials(&self) -> AuthCredentials {
        self.connection_credentials
    }

    /// The shape of the remote call this session will make.
    pub closed spec fn auth_type(&self) -> CognitoAuthType {
        self.cognito_auth_type
    }

    /// What the session has built so far.
    pub closed spec fn builder(&self) -> AuthBuilder {
        self.auth_builder
    }

    /// The state the session is in.
    pub open spec fn state(&self) -> SessionState {
        match self.builder() {
            AuthBuilder::Client => SessionState::Uninitialized,
            AuthBuilder::Request(_) => SessionState::Prepared,
        }
    }

    /// The call that `prepare` builds from credentials: the administrator's
    /// call names the user pool, the user's own call never does. Both carry
    /// the client id and the flow, and no parameters yet.
    pub open spec fn built_from(
        credentials: AuthCredentials,
        kind: CognitoAuthType,
        request: AuthFlowRequest,
    ) -> bool {
        &&& request.kind() == kind
        &&& request.params().user_pool_id == (match kind {
            CognitoAuthType::AdminAuth => credentials@.user_pool_id,
            CognitoAuthType::Auth => None,
        })
        &&& request.params().client_id == credentials@.client_id
        &&& request.params().auth_flow == credentials@.auth_flow
        &&& request.params().auth_parameters@ == Map::<Seq<char>, String>::empty()
    }

    /// Opens a session on credentials. Nothing is built yet.
    pub fn new(credentials: AuthCredentials) -> (client: AuthClient)
        ensures
            client.credentials() == credentials,
            client.auth_type() == selected(credentials@.auth_flow@),
            client.builder() is Client,
            client.state() == SessionState::Uninitialized,
    {
        let kind = select(&credentials.auth_flow);
        AuthClient {
            connection_credentials: credentials,
            cognito_auth_type: kind,
            auth_builder: AuthBuilder::Client,
        }
    }

    /// What the session has built so far.
    pub fn get_auth_builder(&self) -> (builder: &AuthBuilder)
        ensures
            *builder == self.builder(),
    {
        &self.auth_builder
    }

    /// Builds the call to make, once: a session that has built its call keeps
    /// it.
    pub fn prepare(&mut self)
        ensures
            final(self).credentials() == old(self).credentials(),
            final(self).auth_type() == old(self).auth_type(),
            match old(self).builder() {
                AuthBuilder::Client => final(self).builder() matches AuthBuilder::Request(request)
                    && Self::built_from(old(self).credentials(), old(self).auth_type(), request),
                AuthBuilder::Request(_) => final(self).builder() == old(self).builder(),
            },
            final(self).state() == SessionState::Prepared,
    {
        if let AuthBuilder::Client = self.auth_builder {
            let credentials = &self.connection_credentials;
            let request = match self.cognito_auth_type {
                CognitoAuthType::AdminAuth => AuthFlowRequest::AdminInitiate(
                    AuthParams {
                        user_pool_id: clone_opt(&credentials.user_pool_id),
                        client_id: clone_opt(&credentials.client_id),
                        auth_flow: credentials.auth_flow.duplicate(),
                        auth_parameters: TextMap::new(),
                    },
                ),
                CognitoAuthType::Auth => AuthFlowRequest::UserInitiate(
                    AuthParams {
                        user_pool_id: None,
                        client_id: clone_opt(&credentials.client_id),
                        auth_flow: credentials.auth_flow.duplicate(),
                        auth_parameters: TextMap::new(),
                    },
                ),
            };
            self.auth_builder = AuthBuilder::Request(request);
        }
    }

    /// Decides the remote call of this session. With the secret hash computed
    /// and the call built, the call goes out carrying the user's credentials
    /// and the hash under `SECRET_HASH`. Otherwise no call is made and the
    /// session fails with the missing-secret error.
    pub fn auth(self, user_credentials: TextMap<String>) -> (step: AuthStep)
        ensures
            decided(self.credentials()@.encoding, self.builder(), user_credentials, step),
            self.credentials()@.encoding is None ==> step.state() == SessionState::Failed,
    {
        let AuthClient { connection_credentials, cognito_auth_type: _, auth_builder } = self;
        decide_call(clone_opt(&connection_credentials.encoding), auth_builder, user_credentials)
    }

    /// Judges what came back from the remote call. Only an answer with an
    /// authentication result is a success. An answer without one fails like
    /// a missing secret hash, and a failed call is reported as such.
    pub fn conclude(reply: AuthReply) -> (outcome: Result<TokenBundle, ServerError>)
        ensures
            match reply {
                AuthReply::Answered(Some(bundle)) => outcome == Ok::<TokenBundle, ServerError>(
                    bundle,
                ),
                AuthReply::Answered(None) => outcome matches Err(e) && e@
                    == missing_secret_hash_view(),
                AuthReply::Failed(kind) => outcome matches Err(e) && e@ == sdk_error_view(kind),
            },
            final_state(outcome) == SessionState::Succeeded <==> reply matches AuthReply::Answered(
                Some(_),
            ),
    {
        match reply {
            AuthReply::Answered(Some(bundle)) => Ok(bundle),
            AuthReply::Answered(None) => Err(ServerError::missing_secret_hash()),
            AuthReply::Failed(kind) => Err(ServerError::from_sdk_error(kind)),
        }
    }
}

/// The flow decides the call: built for `AdminUserPasswordAuth`, the call is
/// the administrator's and names the user pool of the credentials; built for
/// any other flow, it is the user's own and names no pool.
pub proof fn lemma_flow_decides_call(credentials: AuthCredentials, request: AuthFlowRequest)
    requires
        AuthClient::built_from(credentials, selected(credentials@.auth_flow@), request),
    ensures
        credentials@.auth_flow@ is AdminUserPasswordAuth ==> request is AdminInitiate
            && request.params().user_pool_id == credentials@.user_pool_id,
        !(credentials@.auth_flow@ is AdminUserPasswordAuth) ==> request is UserInitiate
            && request.params().user_pool_id is None,
{
}

} // verus!
