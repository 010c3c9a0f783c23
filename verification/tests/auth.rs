use rand_chacha::ChaCha20Rng;
use rand_core::{OsRng, RngCore, SeedableRng};
use tcp_chat::auth::{AuthMetadataError, AuthenticatedRequest, Authenticator};
use tcp_chat::entities::token::AuthToken;
use tcp_chat::entities::user::User;
use tcp_chat::entities::uuid::Uuid;
use tcp_chat::persistence::{Persistence, StoreError};
use tcp_chat::proto::{AuthPair, UserCredentials};
use tcp_chat::proto;
use tcp_chat::request::Request;
use tcp_chat::services::auth_tester::AuthenticationTester;
use tcp_chat::services::registry::Registry;
use tcp_chat::status::Code;

fn register_with_credentials(
    credentials: UserCredentials,
    registry: &mut Registry,
    store: &mut Persistence,
) -> (UserCredentials, AuthPair) {
    registry
        .register_new_user(store, Request::new(credentials.clone()))
        .unwrap();
    let auth_pair = registry
        .login_as_user(store, Request::new(credentials.clone()))
        .unwrap();
    (credentials, auth_pair)
}

fn test_authentication(
    store: &Persistence,
    request: Request<()>,
) -> Result<(), tcp_chat::status::Status> {
    let mut authenticator = Authenticator::new();
    let passed = authenticator.call(store, request)?;
    AuthenticationTester::new().test_authentication(passed)
}

#[test]
fn auth_pair_roundtrip() {
    let mut rng = ChaCha20Rng::seed_from_u64(OsRng.next_u64());
    let user = User::new("user_1".into(), "pass_1".into(), &mut rng);
    let auth_pair = AuthPair {
        user_uuid: Some(user.uuid.into()),
        token: Some(user.proto_token()),
    };

    let mut request = Request::new(());
    assert!(request.add_auth_pair(auth_pair.clone()).is_ok());
    assert_eq!(request.get_auth_pair().unwrap(), auth_pair);
}

#[test]
fn authentication() {
    let mut store = Persistence::new();
    let mut registry = Registry::default();
    let (_, auth_pair) = register_with_credentials(
        UserCredentials {
            username: "user_1".into(),
            password: "pass_1".into(),
        },
        &mut registry,
        &mut store,
    );

    let mut request = Request::new(());
    request.add_auth_pair(auth_pair).unwrap();

    assert!(test_authentication(&store, request).is_ok());
}

#[test]
fn authentication_fail_no_token() {
    let mut store = Persistence::new();
    let mut registry = Registry::default();
    let (_, auth_pair) = register_with_credentials(
        UserCredentials {
            username: "user_1".into(),
            password: "pass_1".into(),
        },
        &mut registry,
        &mut store,
    );

    let user_uuid: Uuid = auth_pair.user_uuid.unwrap_or_default().try_into().unwrap();
    let user_uuid = user_uuid.to_text();
    let mut request = Request::new(());
    request
        .metadata_mut()
        .insert(Authenticator::USER_UUID_KEY, user_uuid);

    assert!(test_authentication(&store, request).is_err());
}

#[test]
fn authentication_fail_no_uuid() {
    let mut store = Persistence::new();
    let mut registry = Registry::default();
    let (_, auth_pair) = register_with_credentials(
        UserCredentials {
            username: "user_1".into(),
            password: "pass_1".into(),
        },
        &mut registry,
        &mut store,
    );

    let auth_token: AuthToken = auth_pair.token.unwrap_or_default().try_into().unwrap();
    let auth_token = auth_token.to_text();
    let mut request = Request::new(());
    request
        .metadata_mut()
        .insert(Authenticator::AUTH_TOKEN_KEY, auth_token);

    assert!(test_authentication(&store, request).is_err());
}

fn store_with(uuid: u128, token: u128) -> Persistence {
    let mut store = Persistence::new();
    store
        .insert_user(User::with_identity(
            Uuid::from_u128(uuid),
            "user_1".into(),
            "hash".into(),
            AuthToken { token },
        ))
        .unwrap();
    store
}

fn request_with(uuid: &str, token: &str) -> Request<()> {
    let mut request = Request::new(());
    request.metadata.insert(Authenticator::USER_UUID_KEY, uuid.into());
    request.metadata.insert(Authenticator::AUTH_TOKEN_KEY, token.into());
    request
}

#[test]
fn authenticator_accepts_exactly_the_stored_token() {
    let store = store_with(0xa1a2a3a4b1b2c1c2d1d2d3d4d5d6d7d8, 123);
    let uuid = "a1a2a3a4-b1b2-c1c2-d1d2-d3d4d5d6d7d8";
    let mut authenticator = Authenticator::new();

    let passed = authenticator
        .call(&store, request_with(uuid, "0000000000000000000000000000007b"))
        .unwrap();
    assert_eq!(passed.metadata.get(Authenticator::AUTH_TOKEN_KEY), None);
    assert_eq!(
        passed.metadata.get(Authenticator::USER_UUID_KEY),
        Some(&uuid.to_string())
    );

    let wrong = authenticator.call(&store, request_with(uuid, "0000000000000000000000000000007c"));
    assert_eq!(wrong.err().map(|status| status.code), Some(Code::Unauthenticated));

    // Another spelling of the stored number is not the stored token.
    for spelling in ["7b", "0000000000000000000000000000007B", " 000000000000000000000000000007b", ""] {
        let other = authenticator.call(&store, request_with(uuid, spelling));
        assert_eq!(other.err().map(|status| status.code), Some(Code::Unauthenticated));
    }

    let stranger = authenticator.call(
        &store,
        request_with(
            "a1a2a3a4-b1b2-c1c2-d1d2-d3d4d5d6d7d9",
            "0000000000000000000000000000007b",
        ),
    );
    assert_eq!(stranger.err().map(|status| status.code), Some(Code::Unauthenticated));

    let broken = authenticator.call(
        &store,
        request_with("this-is-4sure-wrong", "0000000000000000000000000000007b"),
    );
    assert_eq!(broken.err().map(|status| status.code), Some(Code::Unauthenticated));

    let nothing = authenticator.call(&store, Request::new(()));
    let status = nothing.err().unwrap();
    assert_eq!(status.code, Code::Unauthenticated);
    assert_eq!(
        status.message,
        "The UUID+token pair was invalid or not provided in request metadata"
    );
}

#[test]
fn credentials_wipes_only_the_token() {
    let mut request = request_with(
        "a1a2a3a4-b1b2-c1c2-d1d2-d3d4d5d6d7d8",
        "0000000000000000000000000000007b",
    );
    request.metadata.insert("other", "kept".into());
    let pair = Authenticator::credentials(&mut request).unwrap();
    assert_eq!(
        pair,
        (
            Uuid::from_u128(0xa1a2a3a4b1b2c1c2d1d2d3d4d5d6d7d8),
            "0000000000000000000000000000007b".to_string()
        )
    );
    assert_eq!(request.metadata.get(Authenticator::AUTH_TOKEN_KEY), None);
    assert_eq!(request.metadata.get("other"), Some(&"kept".to_string()));
    assert!(request.metadata.get(Authenticator::USER_UUID_KEY).is_some());

    let mut partial: Request<()> = Request::new(());
    partial
        .metadata
        .insert(Authenticator::AUTH_TOKEN_KEY, "7b".into());
    let refused = Authenticator::credentials(&mut partial);
    assert_eq!(refused.err().map(|status| status.code), Some(Code::Unauthenticated));
    assert_eq!(
        partial.metadata.get(Authenticator::AUTH_TOKEN_KEY),
        Some(&"7b".to_string())
    );

    let mut opaque = request_with("a1a2a3a4-b1b2-c1c2-d1d2-d3d4d5d6d7d8", "not a number");
    let pair = Authenticator::credentials(&mut opaque).unwrap();
    assert_eq!(pair.1, "not a number");
    assert_eq!(opaque.metadata.get(Authenticator::AUTH_TOKEN_KEY), None);
}

#[test]
fn verify_tells_a_failed_lookup_from_a_refusal() {
    let user = User::with_identity(
        Uuid::from_u128(1),
        "user_1".into(),
        "hash".into(),
        AuthToken { token: 5 },
    );
    let stored = "00000000000000000000000000000005";
    assert!(Authenticator::verify(Ok(Some(&user)), stored).is_ok());
    assert_eq!(
        Authenticator::verify(Ok(Some(&user)), "00000000000000000000000000000006").err().unwrap().code,
        Code::Unauthenticated
    );
    assert_eq!(
        Authenticator::verify(Ok(Some(&user)), "5").err().unwrap().code,
        Code::Unauthenticated
    );
    assert_eq!(
        Authenticator::verify(Ok(None), stored).err().unwrap().code,
        Code::Unauthenticated
    );
    assert_eq!(
        Authenticator::verify(Err(StoreError::UniqueViolation), stored).err().unwrap().code,
        Code::Internal
    );
}

#[test]
fn refusals_cannot_be_told_apart() {
    let store = store_with(0xa1a2a3a4b1b2c1c2d1d2d3d4d5d6d7d8, 123);
    let uuid = "a1a2a3a4-b1b2-c1c2-d1d2-d3d4d5d6d7d8";
    let token = "0000000000000000000000000000007b";
    let sentence = "The UUID+token pair was invalid or not provided in request metadata";
    let mut authenticator = Authenticator::new();

    let mut no_token = Request::new(());
    no_token.metadata.insert(Authenticator::USER_UUID_KEY, uuid.into());
    let mut no_uuid = Request::new(());
    no_uuid.metadata.insert(Authenticator::AUTH_TOKEN_KEY, token.into());
    let refused = vec![
        no_token,
        no_uuid,
        Request::new(()),
        request_with("this-is-4sure-wrong", token),
        request_with("a1a2a3a4-b1b2-c1c2-d1d2-d3d4d5d6d7d9", token),
        request_with(uuid, "0000000000000000000000000000007c"),
        request_with(uuid, "7b"),
    ];
    for request in refused {
        let status = authenticator.call(&store, request).err().unwrap();
        assert_eq!(status.code, Code::Unauthenticated);
        assert_eq!(status.message, sentence);
    }
}

#[test]
fn add_auth_pair_refuses_what_is_missing_or_broken() {
    let good_uuid = proto::Uuid::from(Uuid::from_u128(1));
    let good_token = proto::AuthToken::from(AuthToken { token: 2 });

    let mut request = Request::new(());
    let no_token = AuthPair { user_uuid: Some(good_uuid.clone()), token: None };
    assert_eq!(request.add_auth_pair(no_token), Err(AuthMetadataError::InsertionError));
    let no_uuid = AuthPair { user_uuid: None, token: Some(good_token.clone()) };
    assert_eq!(request.add_auth_pair(no_uuid), Err(AuthMetadataError::InsertionError));
    let broken = AuthPair {
        user_uuid: Some(proto::Uuid { uuid: "this-is-4sure-wrong".into() }),
        token: Some(good_token.clone()),
    };
    assert_eq!(request.add_auth_pair(broken), Err(AuthMetadataError::InsertionError));
    assert_eq!(request.metadata.entries.len(), 0);
    assert_eq!(request.get_auth_pair(), Err(AuthMetadataError::RetrievalError));
    assert_eq!(request.get_originator_uuid(), Err(AuthMetadataError::RetrievalError));
    assert_eq!(request.get_token(), Err(AuthMetadataError::RetrievalError));

    let pair = AuthPair { user_uuid: Some(good_uuid), token: Some(good_token) };
    assert_eq!(request.add_auth_pair(pair), Ok(()));
    assert_eq!(request.get_originator_uuid(), Ok(Uuid::from_u128(1)));
    assert_eq!(request.get_token(), Ok(AuthToken { token: 2 }));
    assert_eq!(
        request.metadata.get(Authenticator::USER_UUID_KEY),
        Some(&"00000000-0000-0000-0000-000000000001".to_string())
    );
    assert_eq!(
        request.metadata.get(Authenticator::AUTH_TOKEN_KEY),
        Some(&"00000000000000000000000000000002".to_string())
    );
    assert_eq!(
        AuthMetadataError::InsertionError.message(),
        "Could not add AuthPair to request metadata"
    );
    assert_eq!(
        AuthMetadataError::RetrievalError.message(),
        "Could not retrieve an AuthPair from request metadata"
    );
}
