use vstd::prelude::*;
use vstd::utf8::encode_utf8;

use base64::Engine;
use hmac::digest::InvalidLength;
use hmac::{Hmac, Mac};
use sha2::Sha256;

use crate::errors::login::SecretHashError;
use crate::errors::server::ServerError;

verus! {

/// `hmac::digest::InvalidLength`, the error with which a keyed primitive
/// refuses a key. It is declared so that it can be handed on; nothing is
/// claimed of what it holds.
#[verifier::external_type_specification]
#[verifier::external_body]
pub struct ExInvalidLength(hmac::digest::InvalidLength);

/// The HMAC-SHA256 tag of a message under a key.
pub uninterp spec fn hmac_sha256_tag(key: Seq<u8>, message: Seq<u8>) -> Seq<u8>;

/// The base64 text of some bytes, in the standard alphabet and with padding.
pub uninterp spec fn base64_standard_text(bytes: Seq<u8>) -> Seq<char>;

/// Computes a tag with `hmac::Hmac<sha2::Sha256>`: `new_from_slice` on the
/// key, one `update` with the message, then `finalize`.
///
/// Taken on trust: that the call yields the HMAC-SHA256 tag of the message
/// under the key, that this tag has the 32 bytes of a SHA-256 output, and
/// that no key is refused, since HMAC takes a key of any length.
#[verifier::external_body]
fn hmac_sha256(key: &[u8], message: &[u8]) -> (r: Result<Vec<u8>, InvalidLength>)
    ensures
        r is Ok,
        r matches Ok(tag) ==> tag@ == hmac_sha256_tag(key@, message@) && tag@.len() == 32,
{
    let mut mac = Hmac::<Sha256>::new_from_slice(key)?;
    mac.update(message);
    Ok(mac.finalize().into_bytes().to_vec())
}

/// Encodes bytes with `base64::engine::general_purpose::STANDARD.encode`.
///
/// Taken on trust: that the call yields the standard base64 text of the
/// bytes. The call fails where the length of that text, four characters for
/// every three bytes begun, overflows `usize`, so such inputs are left out.
#[verifier::external_body]
fn base64_standard(bytes: &[u8]) -> (text: String)
    requires
        bytes@.len() / 3 * 4 + (if bytes@.len() % 3 > 0 {
            4int
        } else {
            0int
        }) <= usize::MAX,
    ensures
        text@ == base64_standard_text(bytes@),
{
    base64::engine::general_purpose::STANDARD.encode(bytes)
}

/// The text that a keyed hash of a message is encoded as: the base64 text of
/// the HMAC-SHA256 tag of the message under the key.
pub open spec fn encoding_of(key: Seq<u8>, message: Seq<u8>) -> Seq<char> {
    base64_standard_text(hmac_sha256_tag(key, message))
}

/// The secret hash that the identity provider asks for with a login: the
/// base64 text of the HMAC-SHA256 tag, keyed by the shared secret, of the
/// username followed directly by the client id.
pub open spec fn secret_hash(secret: Seq<char>, username: Seq<char>, client_id: Seq<char>) -> Seq<
    char,
> {
    encoding_of(encode_utf8(secret), encode_utf8(username) + encode_utf8(client_id))
}

/// A keyed hash in the making: the key it was started with and the bytes fed
/// to it so far.
#[derive(Clone, PartialEq, Eq, Debug)]
pub struct HashState {
    key: Vec<u8>,
    message: Vec<u8>,
}

impl HashState {
    /// The key the hash was started with.
    pub closed spec fn key(&self) -> Seq<u8> {
        self.key@
    }

    /// The bytes fed so far, in order.
    pub closed spec fn message(&self) -> Seq<u8> {
        self.message@
    }

    /// The text that finalizing this state yields.
    pub open spec fn encoding(&self) -> Seq<char> {
        encoding_of(self.key(), self.message())
    }

    /// Starts a hash keyed by the secret. Without a secret there is nothing
    /// to key the hash with, and the failure is reported rather than a hash
    /// under an empty key.
    pub fn init(secret: Option<&str>) -> (r: Result<HashState, SecretHashError>)
        ensures
            secret is None <==> r is Err,
            match (secret, r) {
                (Some(s), Ok(state)) => state.key() == encode_utf8(s@) && state.message()
                    == Seq::<u8>::empty(),
                _ => true,
            },
    {
        match secret {
            Some(s) => Ok(HashState { key: s.as_bytes_vec(), message: Vec::new() }),
            None => Err(SecretHashError),
        }
    }

    /// Feeds bytes to the hash, after those fed before.
    pub fn update(self, bytes: &[u8]) -> (next: HashState)
        ensures
            next.key() == self.key(),
            next.message() == self.message() + bytes@,
    {
        let mut message = self.message;
        message.extend_from_slice(bytes);
        assert(message@ =~= self.message@ + bytes@);
        HashState { key: self.key, message }
    }

    /// Finishes the hash and encodes the tag as base64 text. The state can be
    /// fed and finalized again.
    pub fn finalize_base64(&self) -> (r: Result<String, ServerError>)
        ensures
            r is Ok,
            r matches Ok(text) ==> text@ == self.encoding(),
    {
        match hmac_sha256(self.key.as_slice(), self.message.as_slice()) {
            Ok(tag) => Ok(base64_standard(tag.as_slice())),
            Err(_) => Err(ServerError::from_invalid_length()),
        }
    }
}

/// Computes the secret hash of a login in one go.
pub fn compute_secret_hash(secret: Option<&str>, username: &str, client_id: &str) -> (r: Result<
    String,
    ServerError,
>)
    ensures
        secret is None <==> r is Err,
        r matches Err(e) ==> e@ == crate::errors::login::missing_secret_hash_view(),
        match (secret, r) {
            (Some(s), Ok(text)) => text@ == secret_hash(s@, username@, client_id@),
            _ => true,
        },
{
    match HashState::init(secret) {
        Ok(state) => {
            let state = state.update(username.as_bytes());
            let state = state.update(client_id.as_bytes());
            match state.finalize_base64() {
                Ok(text) => Ok(text),
                Err(e) => Err(e),
            }
        },
        Err(_) => Err(ServerError::missing_secret_hash()),
    }
}

/// The secret hash depends on nothing but the secret, the username and the
/// client id: equal inputs give equal hashes.
pub proof fn lemma_secret_hash_deterministic(
    secret1: Seq<char>,
    username1: Seq<char>,
    client_id1: Seq<char>,
    secret2: Seq<char>,
    username2: Seq<char>,
    client_id2: Seq<char>,
)
    requires
        secret1 == secret2,
        username1 == username2,
        client_id1 == client_id2,
    ensures
        secret_hash(secret1, username1, client_id1) == secret_hash(secret2, username2, client_id2),
{
}

/// Feeding a hash piece by piece gives the same text as feeding it the
/// pieces joined: only the bytes fed and their order count, not how they
/// were cut.
pub proof fn lemma_update_in_pieces(key: Seq<u8>, fed: Seq<u8>, a: Seq<u8>, b: Seq<u8>)
    ensures
        encoding_of(key, (fed + a) + b) == encoding_of(key, fed + (a + b)),
{
    assert((fed + a) + b =~= fed + (a + b));
}

} // verus!
