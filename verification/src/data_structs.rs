use vstd::prelude::*;

verus! {

/// What a user submits to log in.
#[derive(Clone, PartialEq, Eq, Debug)]
pub struct UserLoginRequest {
    pub email: String,
    pub password: String,
}

/// What a registration is answered with.
#[derive(Clone, PartialEq, Eq, Debug)]
pub struct UserRegisterResponse {
    pub message: String,
}

impl UserRegisterResponse {
    /// An answer with a message.
    pub fn new(message: String) -> (response: Self)
        ensures
            response.message == message,
    {
        UserRegisterResponse { message }
    }
}

/// What a login is answered with: a message, the three tokens, and their
/// lifetime in seconds.
#[derive(Clone, PartialEq, Eq, Debug)]
pub struct UserLoginResponse {
    pub message: String,
    pub access_token: String,
    pub id_token: String,
    pub refresh_token: String,
    pub expires_in: u64,
}

impl UserLoginResponse {
    /// An answer from its fields.
    pub fn new(
        message: String,
        access_token: String,
        id_token: String,
        refresh_token: String,
        expires_in: u64,
    ) -> (response: Self)
        ensures
            response == (UserLoginResponse {
                message,
                access_token,
                id_token,
                refresh_token,
                expires_in,
            }),
    {
        UserLoginResponse { message, access_token, id_token, refresh_token, expires_in }
    }
}

} // verus!
