//! Users: a stable identity, a unique name, a password hash and the current
//! authentication token.

use crate::entities::token::AuthToken;
use crate::entities::uuid::Uuid;
use crate::proto;
use crate::proto::AuthPair;
use rand_chacha::ChaCha20Rng;
use vstd::prelude::*;
use vstd::std_specs::convert::FromSpecImpl;

verus! {

/// A registered user.
#[derive(Debug)]
pub struct User {
    pub uuid: Uuid,
    pub username: String,
    pub password: String,
    pub auth_token: AuthToken,
}

impl Clone for User {
    fn clone(&self) -> (copy: Self)
        ensures
            copy == *self,
    {
        User {
            uuid: self.uuid,
            username: self.username.clone(),
            password: self.password.clone(),
            auth_token: self.auth_token,
        }
    }
}

impl User {
    /// A new user under a fresh identity, with a fresh token drawn from the
    /// given generator.
    pub fn new(username: String, password: String, rng: &mut ChaCha20Rng) -> (user: User)
        ensures
            user.username == username,
            user.password == password,
            crate::entities::uuid::is_version_4(user.uuid.value),
    {
        let uuid = Uuid::new_v4();
        let auth_token = AuthToken::new(rng);
        User::with_identity(uuid, username, password, auth_token)
    }

    /// The user with the given identity, name, password hash and token.
    pub fn with_identity(
        uuid: Uuid,
        username: String,
        password: String,
        auth_token: AuthToken,
    ) -> (user: User)
        ensures
            user == (User { uuid, username, password, auth_token }),
    {
        User { uuid, username, password, auth_token }
    }

    /// The user's current token.
    pub fn auth_token(&self) -> (token: AuthToken)
        ensures
            token == self.auth_token,
    {
        self.auth_token
    }

    /// The user's current token in its wire form.
    pub fn proto_token(&self) -> (wire: proto::AuthToken)
        ensures
            wire.token@ == crate::entities::token::token_text(self.auth_token.token),
            wire.token@.len() == 32,
            AuthToken::parse_spec(wire.token@) == Ok::<
                AuthToken,
                crate::entities::token::MalformedToken,
            >(self.auth_token),
    {
        proto::AuthToken::from(self.auth_token())
    }

    /// The credential pair that authenticates this user's calls.
    pub fn auth_pair(&self) -> (pair: AuthPair)
        ensures
            pair.names(self.uuid, self.auth_token),
    {
        AuthPair { user_uuid: Some(proto::Uuid::from(self.uuid)), token: Some(self.proto_token()) }
    }
}

impl AuthPair {
    /// Whether this pair holds the canonical texts of the given identity and
    /// token.
    pub open spec fn names(&self, uuid: Uuid, token: AuthToken) -> bool {
        &&& self.user_uuid matches Some(wire_uuid)
        &&& wire_uuid.uuid@ == crate::entities::uuid::uuid_text(uuid.value)
        &&& self.token matches Some(wire_token)
        &&& wire_token.token@ == crate::entities::token::token_text(token.token)
    }
}

impl proto::User {
    /// Whether this wire user shows the given user: the identifier in its
    /// canonical text, and the name.
    pub open spec fn shows(&self, user: User) -> bool {
        &&& self.username == user.username
        &&& self.uuid matches Some(wire_uuid)
        &&& wire_uuid.uuid@ == crate::entities::uuid::uuid_text(user.uuid.value)
    }
}

impl From<User> for proto::User {
    fn from(user: User) -> (wire: proto::User)
        ensures
            wire.shows(user),
    {
        proto::User { uuid: Some(proto::Uuid::from(user.uuid)), username: user.username }
    }
}

/// The wire form holds a `String`, which no specification can construct; what
/// `from` gives is therefore stated on `from` itself.
impl FromSpecImpl<User> for proto::User {
    open spec fn obeys_from_spec() -> bool {
        false
    }

    open spec fn from_spec(user: User) -> proto::User {
        arbitrary()
    }
}

} // verus!
