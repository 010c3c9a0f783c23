//! The interceptor before every protected call: the credential pair in the call's
//! metadata, and the check of that pair against the stored users.

use crate::entities::token::parsed_token;
use crate::entities::token::token_text;
use crate::entities::token::AuthToken;
use crate::entities::uuid::parsed_uuid;
use crate::entities::uuid::uuid_text;
use crate::entities::uuid::Uuid;
use crate::entities::user::User;
use crate::persistence::Persistence;
use crate::persistence::StoreError;
use crate::proto;
use crate::proto::AuthPair;
use crate::request::Request;
use crate::status::Code;
use crate::status::Status;
use vstd::prelude::*;

verus! {

/// A request that can carry a credential pair in its metadata.
pub trait AuthenticatedRequest {
    type Error;

    fn add_auth_pair(&mut self, auth_pair: AuthPair) -> Result<(), Self::Error>;

    fn get_auth_pair(&self) -> Result<AuthPair, Self::Error>;

    fn get_originator_uuid(&self) -> Result<Uuid, Self::Error>;

    fn get_token(&self) -> Result<AuthToken, Self::Error>;
}

/// Why a credential pair could not be written to, or read from, a request.
#[derive(Clone, Copy, Debug, PartialEq, Eq, Structural)]
pub enum AuthMetadataError {
    /// The pair lacks a part, or a part is not well formed.
    InsertionError,
    /// The metadata lacks a part of the pair, or a part is not well formed.
    RetrievalError,
}

impl AuthMetadataError {
    /// The sentence that describes this error.
    pub fn message(&self) -> (text: &'static str)
        ensures
            text@ == (match *self {
                AuthMetadataError::InsertionError => "Could not add AuthPair to request metadata"@,
                AuthMetadataError::RetrievalError => "Could not retrieve an AuthPair from request metadata"@,
            }),
    {
        match self {
            AuthMetadataError::InsertionError => "Could not add AuthPair to request metadata",
            AuthMetadataError::RetrievalError => "Could not retrieve an AuthPair from request metadata",
        }
    }
}

/// The interceptor itself. It keeps no state: the stored users are handed to each
/// check.
#[derive(Clone, Copy, Debug)]
pub struct Authenticator {}

impl Authenticator {
    /// The metadata key under which the caller's identifier travels.
    pub const USER_UUID_KEY: &'static str = "user_uuid";

    /// The metadata key under which the caller's token travels.
    pub const AUTH_TOKEN_KEY: &'static str = "auth_token";
}

/// The two keys differ, so neither field can stand for the other.
pub proof fn lemma_keys_differ()
    ensures
        Authenticator::USER_UUID_KEY@ != Authenticator::AUTH_TOKEN_KEY@,
{
    reveal_strlit("user_uuid");
    reveal_strlit("auth_token");
    assert(Authenticator::AUTH_TOKEN_KEY@.len() == 10);
}

/// The caller that the metadata names: the identifier under the identifier
/// key, if the key is present and its text is an identifier.
pub open spec fn originator_of(metadata: Map<Seq<char>, Seq<char>>) -> Option<Uuid> {
    if metadata.contains_key(Authenticator::USER_UUID_KEY@) {
        match parsed_uuid(metadata[Authenticator::USER_UUID_KEY@]) {
            Some(value) => Some(Uuid { value }),
            None => None,
        }
    } else {
        None
    }
}

/// The token that the metadata carries: the token under the token key, if
/// the key is present and its text is a token.
pub open spec fn token_of(metadata: Map<Seq<char>, Seq<char>>) -> Option<AuthToken> {
    if metadata.contains_key(Authenticator::AUTH_TOKEN_KEY@) {
        match parsed_token(metadata[Authenticator::AUTH_TOKEN_KEY@]) {
            Some(token) => Some(AuthToken { token }),
            None => None,
        }
    } else {
        None
    }
}

/// The identifier and the token that a wire pair names, if it holds both and
/// both are well formed.
pub open spec fn pair_of(auth_pair: AuthPair) -> Option<(Uuid, AuthToken)> {
    match (auth_pair.user_uuid, auth_pair.token) {
        (Some(wire_uuid), Some(wire_token)) => match (
            parsed_uuid(wire_uuid.uuid@),
            parsed_token(wire_token.token@),
        ) {
            (Some(value), Some(token)) => Some((Uuid { value }, AuthToken { token })),
            _ => None,
        },
        _ => None,
    }
}

impl<T> AuthenticatedRequest for Request<T> {
    type Error = AuthMetadataError;

    /// Writes the pair into the metadata, each part in its canonical text.
    /// A pair that lacks a part, or holds one that is not well formed, is
    /// refused and leaves the request as it was.
    fn add_auth_pair(&mut self, auth_pair: AuthPair) -> (added: Result<(), AuthMetadataError>)
        ensures
            final(self).message == old(self).message,
            match pair_of(auth_pair) {
                Some((uuid, token)) => {
                    &&& added is Ok
                    &&& final(self).metadata@ == old(self).metadata@.insert(
                        Authenticator::USER_UUID_KEY@,
                        uuid_text(uuid.value),
                    ).insert(Authenticator::AUTH_TOKEN_KEY@, token_text(token.token))
                    &&& originator_of(final(self).metadata@) == Some(uuid)
                    &&& token_of(final(self).metadata@) == Some(token)
                },
                None => added == Err::<(), AuthMetadataError>(AuthMetadataError::InsertionError)
                    && final(self).metadata == old(self).metadata,
            },
    {
        let user_uuid = match auth_pair.user_uuid {
            Some(wire) => match Uuid::try_from(wire) {
                Ok(uuid) => uuid,
                Err(_) => {
                    return Err(AuthMetadataError::InsertionError);
                },
            },
            None => {
                return Err(AuthMetadataError::InsertionError);
            },
        };
        let auth_token = match auth_pair.token {
            Some(wire) => match AuthToken::try_from(wire) {
                Ok(token) => token,
                Err(_) => {
                    return Err(AuthMetadataError::InsertionError);
                },
            },
            None => {
                return Err(AuthMetadataError::InsertionError);
            },
        };
        self.metadata.insert(Authenticator::USER_UUID_KEY, user_uuid.to_text());
        self.metadata.insert(Authenticator::AUTH_TOKEN_KEY, auth_token.to_text());
        proof {
            lemma_keys_differ();
        }
        Ok(())
    }

    /// Reads the pair back: both parts, each in its canonical text.
    fn get_auth_pair(&self) -> (pair: Result<AuthPair, AuthMetadataError>)
        ensures
            match (originator_of(self.metadata@), token_of(self.metadata@)) {
                (Some(uuid), Some(token)) => pair matches Ok(found) && found.names(uuid, token),
                _ => pair == Err::<AuthPair, AuthMetadataError>(AuthMetadataError::RetrievalError),
            },
    {
        match (self.get_originator_uuid(), self.get_token()) {
            (Ok(user_uuid), Ok(auth_token)) => Ok(
                AuthPair {
                    user_uuid: Some(proto::Uuid::from(user_uuid)),
                    token: Some(proto::AuthToken::from(auth_token)),
                },
            ),
            _ => Err(AuthMetadataError::RetrievalError),
        }
    }

    /// The caller that the metadata names.
    fn get_originator_uuid(&self) -> (originator: Result<Uuid, AuthMetadataError>)
        ensures
            originator == (match originator_of(self.metadata@) {
                Some(uuid) => Ok::<Uuid, AuthMetadataError>(uuid),
                None => Err(AuthMetadataError::RetrievalError),
            }),
    {
        match self.metadata.get(Authenticator::USER_UUID_KEY) {
            Some(text) => match Uuid::parse_str(text.as_str()) {
                Ok(uuid) => Ok(uuid),
                Err(_) => Err(AuthMetadataError::RetrievalError),
            },
            None => Err(AuthMetadataError::RetrievalError),
        }
    }

    /// The token that the metadata carries.
    fn get_token(&self) -> (token: Result<AuthToken, AuthMetadataError>)
        ensures
            token == (match token_of(self.metadata@) {
                Some(found) => Ok::<AuthToken, AuthMetadataError>(found),
                None => Err(AuthMetadataError::RetrievalError),
            }),
    {
        match self.metadata.get(Authenticator::AUTH_TOKEN_KEY) {
            Some(text) => match AuthToken::from_str(text.as_str()) {
                Ok(token) => Ok(token),
                Err(_) => Err(AuthMetadataError::RetrievalError),
            },
            None => Err(AuthMetadataError::RetrievalError),
        }
    }
}

/// The one sentence that every refused caller is told. It never says which
/// part of the pair failed.
pub open spec fn refusal() -> Seq<char> {
    "The UUID+token pair was invalid or not provided in request metadata"@
}

/// What every refused caller is told.
pub fn unauthenticated() -> (status: Status)
    ensures
        status.code == Code::Unauthenticated,
        status.message@ == refusal(),
{
    Status::unauthenticated("The UUID+token pair was invalid or not provided in request metadata")
}

/// The token text that the metadata presents: the text under the token key,
/// as it stands, if the key is present.
pub open spec fn presented_token(metadata: Map<Seq<char>, Seq<char>>) -> Option<Seq<char>> {
    if metadata.contains_key(Authenticator::AUTH_TOKEN_KEY@) {
        Some(metadata[Authenticator::AUTH_TOKEN_KEY@])
    } else {
        None
    }
}

impl Persistence {
    /// Whether a user of this identity is registered whose current token,
    /// in its text, is exactly the given text.
    pub open spec fn authenticates(&self, uuid: Uuid, token: Seq<char>) -> bool {
        exists|i: int|
            0 <= i < self.users@.len() && (#[trigger] self.users@[i]).uuid == uuid
                && token_text(self.users@[i].auth_token.token) == token
    }
}

impl Authenticator {
    pub fn new() -> (authenticator: Authenticator) {
        Authenticator {  }
    }

    /// Whether the authenticator lets a call with this metadata through: the
    /// metadata names a caller, and the token text that it presents is,
    /// character for character, the text of the token that is stored for
    /// that caller.
    pub open spec fn accepts(store: &Persistence, metadata: Map<Seq<char>, Seq<char>>) -> bool {
        match (originator_of(metadata), presented_token(metadata)) {
            (Some(uuid), Some(token)) => store.authenticates(uuid, token),
            _ => false,
        }
    }

    /// Reads the credential pair of a request, the token as the text that
    /// was presented, and wipes the token from the metadata, so that nothing
    /// after the authenticator can see it. A request that names no caller,
    /// or presents no token, is refused and keeps its metadata.
    pub fn credentials<T>(request: &mut Request<T>) -> (pair: Result<(Uuid, String), Status>)
        ensures
            final(request).message == old(request).message,
            match (originator_of(old(request).metadata@), presented_token(old(request).metadata@)) {
                (Some(uuid), Some(token)) => {
                    &&& pair matches Ok(found)
                    &&& found.0 == uuid
                    &&& found.1@ == token
                    &&& final(request).metadata@ == old(request).metadata@.remove(
                        Authenticator::AUTH_TOKEN_KEY@,
                    )
                },
                _ => {
                    &&& pair matches Err(status)
                    &&& status.code == Code::Unauthenticated
                    &&& status.message@ == refusal()
                    &&& final(request).metadata == old(request).metadata
                },
            },
    {
        let user_uuid = match request.get_originator_uuid() {
            Ok(uuid) => uuid,
            Err(_) => {
                return Err(unauthenticated());
            },
        };
        let auth_token = match request.metadata.get(Authenticator::AUTH_TOKEN_KEY) {
            Some(text) => text.clone(),
            None => {
                return Err(unauthenticated());
            },
        };
        request.metadata.remove(Authenticator::AUTH_TOKEN_KEY);
        Ok((user_uuid, auth_token))
    }

    /// Judges a caller by what the lookup of its identity gave. A lookup
    /// that failed is an internal error, not a refusal. A caller without a
    /// stored user, or whose stored token is not, character for character,
    /// the token text it presented, is refused, with the same sentence
    /// either way.
    pub fn verify(lookup: Result<Option<&User>, StoreError>, token: &str) -> (verdict: Result<
        (),
        Status,
    >)
        ensures
            match lookup {
                Err(_) => verdict matches Err(status) && status.code == Code::Internal,
                Ok(Some(user)) if token@ == token_text(user.auth_token.token) => verdict is Ok,
                _ => {
                    &&& verdict matches Err(status)
                    &&& status.code == Code::Unauthenticated
                    &&& status.message@ == refusal()
                },
            },
    {
        match lookup {
            Err(_) => Err(Status::internal("Could not look the caller up")),
            Ok(None) => Err(unauthenticated()),
            Ok(Some(user)) => {
                let stored = user.auth_token.to_text();
                let presented = String::from_str(token);
                if stored == presented {
                    Ok(())
                } else {
                    Err(unauthenticated())
                }
            },
        }
    }

    /// Lets a request through exactly when the token text that it presents
    /// is the text of the token stored for the caller that it names. A
    /// request that passes has lost its token and nothing else. Every
    /// refusal carries the same code and the same sentence.
    pub fn call(&mut self, store: &Persistence, request: Request<()>) -> (passed: Result<
        Request<()>,
        Status,
    >)
        requires
            store.wf(),
        ensures
            passed is Ok <==> Authenticator::accepts(store, request.metadata@),
            passed matches Ok(through) ==> through.metadata@ == request.metadata@.remove(
                Authenticator::AUTH_TOKEN_KEY@,
            ) && through.message == request.message,
            passed matches Err(status) ==> status.code == Code::Unauthenticated && status.message@
                == refusal(),
    {
        let mut request = request;
        let (user_uuid, auth_token) = match Authenticator::credentials(&mut request) {
            Ok(pair) => pair,
            Err(status) => {
                return Err(status);
            },
        };
        let found = store.find_user(user_uuid);
        match Authenticator::verify(Ok(found), auth_token.as_str()) {
            Ok(()) => Ok(request),
            Err(status) => Err(status),
        }
    }
}

/// The authenticator accepts a caller exactly when the text of the token
/// stored for that identity is, character for character, the token text that
/// the call presents; and a call that has lost either field of the pair is
/// refused.
pub proof fn lemma_accepts_matching_token(
    store: &Persistence,
    metadata: Map<Seq<char>, Seq<char>>,
    uuid: Uuid,
    token: Seq<char>,
)
    requires
        originator_of(metadata) == Some(uuid),
        presented_token(metadata) == Some(token),
    ensures
        Authenticator::accepts(store, metadata) <==> store.authenticates(uuid, token),
        !Authenticator::accepts(store, metadata.remove(Authenticator::USER_UUID_KEY@)),
        !Authenticator::accepts(store, metadata.remove(Authenticator::AUTH_TOKEN_KEY@)),
{
}

} // verus!
