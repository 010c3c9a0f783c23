//! Registration and login: the writers of the users table.

use crate::entities::token::AuthToken;
use crate::entities::user::User;
use crate::persistence::Persistence;
use crate::proto::AuthPair;
use crate::proto::UserCredentials;
use crate::request::Request;
use crate::status::Code;
use crate::status::Status;
use rand_chacha::ChaCha20Rng;
use rand_core::OsRng;
use rand_core::RngCore;
use rand_core::SeedableRng;
use vstd::prelude::*;

verus! {

/// The text that `blake3::hash` gives for the bytes of a password, printed in
/// hexadecimal.
pub uninterp spec fn password_hash(password: Seq<char>) -> Seq<char>;

/// `blake3::hash` of the password's bytes, printed with `to_string`.
/// Trusted: the text is the one `password_hash` names.
#[verifier::external_body]
fn hash_password(password: &str) -> (hashed: String)
    ensures
        hashed@ == password_hash(password@),
{
    blake3::hash(password.as_bytes()).to_string()
}

/// `OsRng.next_u64`: a seed from the operating system. Trusted: nothing is
/// said of the number. The call aborts only if the operating system hands
/// out no random bytes.
#[verifier::external_body]
fn entropy() -> (seed: u64) {
    OsRng.next_u64()
}

/// The generator that `ChaCha20Rng::seed_from_u64` makes from a seed.
pub uninterp spec fn seeded_generator(seed: u64) -> ChaCha20Rng;

/// `ChaCha20Rng::seed_from_u64`. Trusted: the generator is the one
/// `seeded_generator` names. The call only computes on the seed: it
/// stretches the seed to 32 bytes and sets the generator up at the start of
/// its stream, so one seed gives one generator.
#[verifier::external_body]
fn seeded(seed: u64) -> (rng: ChaCha20Rng)
    ensures
        rng == seeded_generator(seed),
{
    ChaCha20Rng::seed_from_u64(seed)
}

/// The registry: it owns the generator that tokens are drawn from. The
/// tables are handed to each call.
#[derive(Debug)]
pub struct Registry {
    pub rng: ChaCha20Rng,
}

impl Default for Registry {
    /// A registry whose generator is seeded by the operating system.
    fn default() -> (registry: Registry) {
        Registry::with_seed(entropy())
    }
}

impl Registry {
    /// A registry whose generator starts from the given seed: one seed gives
    /// one generator, and with it one sequence of tokens.
    pub fn with_seed(seed: u64) -> (registry: Registry)
        ensures
            registry.rng == seeded_generator(seed),
    {
        Registry { rng: seeded(seed) }
    }

    /// Writes a new user into the tables. A taken name is refused as
    /// already existing; a taken identity is an internal error. Either way
    /// the tables stay as they were.
    pub fn enroll(store: &mut Persistence, user: User) -> (enrolled: Result<(), Status>)
        requires
            old(store).wf(),
        ensures
            final(store).wf(),
            final(store).rooms == old(store).rooms,
            final(store).rooms_users == old(store).rooms_users,
            final(store).messages == old(store).messages,
            enrolled is Err ==> final(store).users == old(store).users,
            old(store).has_username(user.username@) ==> (enrolled matches Err(status)
                && status.code == Code::AlreadyExists),
            !old(store).has_username(user.username@) && old(store).has_user(user.uuid) ==> (
            enrolled matches Err(status) && status.code == Code::Internal),
            !old(store).has_username(user.username@) && !old(store).has_user(user.uuid)
                ==> enrolled is Ok && final(store).users@ == old(store).users@.push(user),
    {
        if store.find_user_by_name(user.username.as_str()).is_some() {
            return Err(Status::already_exists("Such user already exists"));
        }
        match store.insert_user(user) {
            Ok(()) => Ok(()),
            Err(_) => Err(Status::internal("Could not store the user")),
        }
    }

    /// Registers a user under a fresh identity, with the hash of the given
    /// password and a fresh token. A taken name is refused as already
    /// existing. Whenever the call fails, the tables stay as they were. A
    /// free name can fail only if the fresh identity is taken, so with no
    /// user registered it succeeds.
    pub fn register_new_user(
        &mut self,
        store: &mut Persistence,
        request: Request<UserCredentials>,
    ) -> (registered: Result<(), Status>)
        requires
            old(store).wf(),
        ensures
            final(store).wf(),
            final(store).rooms == old(store).rooms,
            final(store).rooms_users == old(store).rooms_users,
            final(store).messages == old(store).messages,
            registered is Err ==> final(store).users == old(store).users,
            old(store).has_username(request.message.username@) ==> (registered matches Err(status)
                && status.code == Code::AlreadyExists),
            !old(store).has_username(request.message.username@) ==> (registered matches Err(
                status,
            ) ==> status.code == Code::Internal),
            !old(store).has_username(request.message.username@) && old(store).users@.len() == 0
                ==> registered is Ok,
            registered is Ok ==> {
                &&& final(store).users@.len() == old(store).users@.len() + 1
                &&& final(store).users@.drop_last() == old(store).users@
                &&& final(store).users@.last().username == request.message.username
                &&& final(store).users@.last().password@ == password_hash(
                    request.message.password@,
                )
            },
    {
        let credentials = request.into_inner();
        if store.find_user_by_name(credentials.username.as_str()).is_some() {
            return Err(Status::already_exists("Such user already exists"));
        }
        let hashed = hash_password(credentials.password.as_str());
        let user = User::new(credentials.username, hashed, &mut self.rng);
        let enrolled = Registry::enroll(store, user);
        enrolled
    }

    /// Gives the user of the given name and password hash the given token,
    /// and hands out the credential pair of that user. Credentials that no
    /// user has are refused, and the tables stay as they were.
    pub fn issue(
        store: &mut Persistence,
        username: &str,
        hashed: &str,
        token: AuthToken,
    ) -> (issued: Result<AuthPair, Status>)
        requires
            old(store).wf(),
        ensures
            final(store).wf(),
            final(store).rooms == old(store).rooms,
            final(store).rooms_users == old(store).rooms_users,
            final(store).messages == old(store).messages,
            final(store).users@.len() == old(store).users@.len(),
            !old(store).has_credentials(username@, hashed@) ==> (issued matches Err(status)
                && status.code == Code::Unauthenticated) && final(store).users == old(store).users,
            old(store).has_credentials(username@, hashed@) ==> (issued matches Ok(pair)
                && exists|i: int|
                {
                    &&& 0 <= i < old(store).users@.len()
                    &&& (#[trigger] old(store).users@[i]).username@ == username@
                    &&& old(store).users@[i].password@ == hashed@
                    &&& pair.names(old(store).users@[i].uuid, token)
                    &&& final(store).users@[i].uuid == old(store).users@[i].uuid
                    &&& final(store).users@[i].username == old(store).users@[i].username
                    &&& final(store).users@[i].password == old(store).users@[i].password
                    &&& final(store).users@[i].auth_token == token
                    &&& forall|j: int|
                        0 <= j < old(store).users@.len() && j != i ==> final(store).users@[j]
                            == old(store).users@[j]
                }),
    {
        let position = match store.position_by_credentials(username, hashed) {
            Some(position) => position,
            None => {
                return Err(Status::unauthenticated("Invalid username or password"));
            },
        };
        store.set_token(position, token);
        Ok(store.users[position].auth_pair())
    }

    /// Logs a user in: the user of the given name and password gets a fresh
    /// token and is handed the credential pair; nothing else of that user
    /// changes. Credentials that no user has are refused, and the tables stay
    /// as they were.
    pub fn login_as_user(
        &mut self,
        store: &mut Persistence,
        request: Request<UserCredentials>,
    ) -> (logged_in: Result<AuthPair, Status>)
        requires
            old(store).wf(),
        ensures
            final(store).wf(),
            final(store).rooms == old(store).rooms,
            final(store).rooms_users == old(store).rooms_users,
            final(store).messages == old(store).messages,
            final(store).users@.len() == old(store).users@.len(),
            !old(store).has_credentials(
                request.message.username@,
                password_hash(request.message.password@),
            ) ==> (logged_in matches Err(status) && status.code == Code::Unauthenticated)
                && final(store).users == old(store).users,
            old(store).has_credentials(
                request.message.username@,
                password_hash(request.message.password@),
            ) ==> (logged_in matches Ok(pair) && exists|i: int|
                {
                    &&& 0 <= i < old(store).users@.len()
                    &&& (#[trigger] old(store).users@[i]).username@ == request.message.username@
                    &&& old(store).users@[i].password@ == password_hash(request.message.password@)
                    &&& pair.names(final(store).users@[i].uuid, final(store).users@[i].auth_token)
                    &&& final(store).users@[i].uuid == old(store).users@[i].uuid
                    &&& final(store).users@[i].username == old(store).users@[i].username
                    &&& final(store).users@[i].password == old(store).users@[i].password
                    &&& forall|j: int|
                        0 <= j < old(store).users@.len() && j != i ==> final(store).users@[j]
                            == old(store).users@[j]
                }),
    {
        let credentials = request.into_inner();
        let hashed = hash_password(credentials.password.as_str());
        if store.position_by_credentials(credentials.username.as_str(), hashed.as_str()).is_none() {
            return Err(Status::unauthenticated("Invalid username or password"));
        }
        let token = AuthToken::new(&mut self.rng);
        Registry::issue(store, credentials.username.as_str(), hashed.as_str(), token)
    }
}

} // verus!
