use tcp_chat::auth::AuthenticatedRequest;
use tcp_chat::channel::{StreamState, OUTPUT_CHANNEL_CAPACITY};
use tcp_chat::entities::message::Message;
use tcp_chat::entities::token::AuthToken;
use tcp_chat::entities::user::User;
use tcp_chat::entities::uuid::Uuid;
use tcp_chat::persistence::Persistence;
use tcp_chat::proto;
use tcp_chat::proto::{
    AuthPair, ClientsideMessage, ClientsideRoom, Identifier, RoomEvent, RoomWithUserCreationRequest,
    UserCredentials, UserEvent, UserLookupRequest,
};
use tcp_chat::request::Request;
use tcp_chat::services::acquire_connection_error_status;
use tcp_chat::services::chat::{parse_members, Chat};
use tcp_chat::services::registry::Registry;
use tcp_chat::status::Code;
use tcp_chat::TCPChat;

fn user(n: u128, name: &str) -> User {
    User::with_identity(Uuid::from_u128(n), name.into(), "hash".into(), AuthToken { token: n })
}

fn store_of(users: &[(u128, &str)]) -> Persistence {
    let mut store = Persistence::new();
    for (n, name) in users {
        store.insert_user(user(*n, name)).unwrap();
    }
    store
}

fn call_as<T>(caller: u128, message: T) -> Request<T> {
    let mut request = Request::new(message);
    request
        .add_auth_pair(AuthPair {
            user_uuid: Some(Uuid::from_u128(caller).into()),
            token: Some(AuthToken { token: caller }.into()),
        })
        .unwrap();
    request
}

fn wire(n: u128) -> proto::Uuid {
    Uuid::from_u128(n).into()
}

fn room_of(chat: &mut Chat, store: &mut Persistence, room: u128, members: &[u128]) {
    let members = members.iter().map(|n| Uuid::from_u128(*n)).collect();
    chat.establish_room(store, format!("room {room}"), members, Uuid::from_u128(room))
        .unwrap();
}

fn message(n: u128, sender: u128, room: u128, text: &str) -> Message {
    Message::with_identity(
        Uuid::from_u128(n),
        proto::Timestamp { seconds: 1, nanos: 2 },
        text.into(),
        Uuid::from_u128(sender),
        Uuid::from_u128(room),
    )
}

#[test]
fn created_room_is_listed_for_both_members() {
    let mut store = store_of(&[(1, "u1"), (2, "u2"), (3, "u3")]);
    let mut chat = Chat::new(&store);
    let request = call_as(1, ClientsideRoom { name: "pair".into(), members: vec![wire(1), wire(2)] });
    let made = chat.create_room(&mut store, request).unwrap();
    let room = Uuid::try_from(made.clone()).unwrap();

    assert_eq!(chat.cache.get_rooms(Uuid::from_u128(1)), vec![room]);
    assert_eq!(chat.cache.get_rooms(Uuid::from_u128(2)), vec![room]);
    assert_eq!(chat.cache.get_rooms(Uuid::from_u128(3)), Vec::<Uuid>::new());

    let shown = chat.lookup_room(&store, call_as(1, made.clone())).unwrap();
    assert_eq!(shown.uuid, Some(made));
    assert_eq!(shown.name, "pair");
    let mut members = shown.members.clone();
    members.sort_by(|a, b| a.uuid.cmp(&b.uuid));
    assert_eq!(members, vec![wire(1), wire(2)]);
}

#[test]
fn create_room_takes_each_member_once() {
    let mut store = store_of(&[(1, "u1"), (2, "u2")]);
    let mut chat = Chat::new(&store);
    let members = vec![
        Uuid::from_u128(2),
        Uuid::from_u128(1),
        Uuid::from_u128(2),
        Uuid::from_u128(1),
    ];
    let made = chat.establish_room(&mut store, "pair".into(), members, Uuid::from_u128(50));
    assert_eq!(made.ok(), Some(Uuid::from_u128(50)));
    let rows: Vec<(Uuid, Uuid)> =
        store.rooms_users.iter().map(|row| (row.room_uuid, row.user_uuid)).collect();
    assert_eq!(
        rows,
        vec![
            (Uuid::from_u128(50), Uuid::from_u128(2)),
            (Uuid::from_u128(50), Uuid::from_u128(1)),
        ]
    );
    assert_eq!(chat.cache.get_rooms(Uuid::from_u128(2)), vec![Uuid::from_u128(50)]);
    assert_eq!(store.rooms[0].name, "pair");
}

#[test]
fn create_room_is_all_or_nothing() {
    let mut store = store_of(&[(1, "u1")]);
    let mut chat = Chat::new(&store);

    let unknown = call_as(1, ClientsideRoom { name: "x".into(), members: vec![wire(1), wire(9)] });
    assert_eq!(chat.create_room(&mut store, unknown).err().unwrap().code, Code::Internal);
    assert_eq!(store.rooms.len(), 0);
    assert_eq!(store.rooms_users.len(), 0);
    assert_eq!(chat.cache.get_rooms(Uuid::from_u128(1)), Vec::<Uuid>::new());

    let broken = call_as(
        1,
        ClientsideRoom {
            name: "x".into(),
            members: vec![wire(1), proto::Uuid { uuid: "this-is-4sure-wrong".into() }],
        },
    );
    assert_eq!(chat.create_room(&mut store, broken).err().unwrap().code, Code::InvalidArgument);
    assert_eq!(store.rooms.len(), 0);

    room_of(&mut chat, &mut store, 50, &[1]);
    let taken = chat.establish_room(&mut store, "again".into(), vec![Uuid::from_u128(1)], Uuid::from_u128(50));
    assert_eq!(taken.err().unwrap().code, Code::Internal);
    assert_eq!(store.rooms.len(), 1);
    assert_eq!(chat.cache.get_rooms(Uuid::from_u128(1)), vec![Uuid::from_u128(50)]);
}

#[test]
fn parse_members_keeps_order_and_repetitions() {
    assert_eq!(
        parse_members(&vec![wire(2), wire(1), wire(2)]).ok(),
        Some(vec![Uuid::from_u128(2), Uuid::from_u128(1), Uuid::from_u128(2)])
    );
    assert!(parse_members(&vec![wire(2), proto::Uuid { uuid: "".into() }]).is_err());
    assert_eq!(parse_members(&vec![]).ok(), Some(vec![]));
}

#[test]
fn create_room_with_user_names_the_room_after_both() {
    let mut store = store_of(&[(1, "alice"), (2, "bob")]);
    let mut chat = Chat::new(&store);
    let request = call_as(1, RoomWithUserCreationRequest { user_uuid: Some(wire(2)) });
    let made = chat.create_room_with_user(&mut store, request).unwrap();
    let room = Uuid::try_from(made).unwrap();
    assert_eq!(store.rooms[0].uuid, room);
    assert_eq!(store.rooms[0].name, "Private chat between alice and bob");
    let members: Vec<Uuid> = store.rooms_users.iter().map(|row| row.user_uuid).collect();
    assert_eq!(members, vec![Uuid::from_u128(2), Uuid::from_u128(1)]);

    let unknown = call_as(1, RoomWithUserCreationRequest { user_uuid: Some(wire(9)) });
    assert_eq!(chat.create_room_with_user(&mut store, unknown).err().unwrap().code, Code::NotFound);
    let missing = call_as(1, RoomWithUserCreationRequest { user_uuid: None });
    assert_eq!(
        chat.create_room_with_user(&mut store, missing).err().unwrap().code,
        Code::InvalidArgument
    );
    let anonymous = Request::new(RoomWithUserCreationRequest { user_uuid: Some(wire(2)) });
    assert_eq!(
        chat.create_room_with_user(&mut store, anonymous).err().unwrap().code,
        Code::Internal
    );
    assert_eq!(store.rooms.len(), 1);
}

#[test]
fn send_message_by_a_stranger_is_denied_and_not_stored() {
    let mut store = store_of(&[(1, "u1"), (2, "u2"), (3, "u3")]);
    let mut chat = Chat::new(&store);
    room_of(&mut chat, &mut store, 50, &[1, 2]);
    let listener = chat.subscribe_to_room(call_as(2, wire(50))).unwrap();

    let request = call_as(3, ClientsideMessage { room_uuid: Some(wire(50)), text: "hi".into() });
    let refused = chat.send_message(&mut store, request);
    assert_eq!(refused.err().unwrap().code, Code::PermissionDenied);
    assert_eq!(store.messages.len(), 0);
    assert!(chat.next_room_event(listener).is_none());

    let nowhere = call_as(1, ClientsideMessage { room_uuid: Some(wire(51)), text: "hi".into() });
    assert_eq!(chat.send_message(&mut store, nowhere).err().unwrap().code, Code::PermissionDenied);
    assert_eq!(store.messages.len(), 0);
}

#[test]
fn send_message_needs_a_caller_and_a_room() {
    let mut store = store_of(&[(1, "u1")]);
    let mut chat = Chat::new(&store);
    room_of(&mut chat, &mut store, 50, &[1]);
    let anonymous = Request::new(ClientsideMessage { room_uuid: Some(wire(50)), text: "hi".into() });
    assert_eq!(chat.send_message(&mut store, anonymous).err().unwrap().code, Code::InvalidArgument);
    let roomless = call_as(1, ClientsideMessage { room_uuid: None, text: "hi".into() });
    let status = chat.send_message(&mut store, roomless).err().unwrap();
    assert_eq!(status.code, Code::InvalidArgument);
    assert_eq!(status.message, "The protobuf entity is missing a required field");
    assert_eq!(store.messages.len(), 0);
}

#[test]
fn message_reaches_a_subscriber_exactly_once_and_never_backwards() {
    let mut store = store_of(&[(1, "u1"), (2, "u2")]);
    let mut chat = Chat::new(&store);
    room_of(&mut chat, &mut store, 50, &[1, 2]);

    chat.deliver(&mut store, message(100, 1, 50, "before")).unwrap();
    let listener = chat.subscribe_to_room(call_as(2, wire(50))).unwrap();
    assert!(chat.next_room_event(listener).is_none());

    chat.deliver(&mut store, message(101, 1, 50, "after")).unwrap();
    let event = chat.next_room_event(listener).unwrap();
    assert_eq!(event.room_uuid, Some(wire(50)));
    match event.event {
        Some(RoomEvent::NewMessage(got)) => {
            assert_eq!(got.text, "after");
            assert_eq!(got.uuid, Some(wire(101)));
            assert_eq!(got.sender_uuid, Some(wire(1)));
        }
        None => panic!("the event carries no message"),
    }
    assert!(chat.next_room_event(listener).is_none());

    let listed = chat.list_messages(&store, call_as(2, wire(50))).unwrap();
    let texts: Vec<String> = listed.messages.iter().map(|m| m.text.clone()).collect();
    assert_eq!(texts, vec!["before".to_string(), "after".to_string()]);
}

#[test]
fn message_of_another_room_is_not_forwarded() {
    let mut store = store_of(&[(1, "u1"), (2, "u2")]);
    let mut chat = Chat::new(&store);
    room_of(&mut chat, &mut store, 50, &[1, 2]);
    room_of(&mut chat, &mut store, 51, &[1, 2]);
    let listener = chat.subscribe_to_room(call_as(2, wire(50))).unwrap();
    chat.deliver(&mut store, message(100, 1, 51, "elsewhere")).unwrap();
    assert!(chat.next_room_event(listener).is_none());
    assert_eq!(store.messages.len(), 1);
}

#[test]
fn full_output_drops_for_that_subscriber_only() {
    let mut store = store_of(&[(1, "u1"), (2, "u2"), (3, "u3")]);
    let mut chat = Chat::new(&store);
    room_of(&mut chat, &mut store, 50, &[1, 2, 3]);
    let slow = chat.subscribe_to_room(call_as(2, wire(50))).unwrap();
    for n in 0..OUTPUT_CHANNEL_CAPACITY as u128 {
        chat.deliver(&mut store, message(100 + n, 1, 50, "fill")).unwrap();
    }
    let fast = chat.subscribe_to_room(call_as(3, wire(50))).unwrap();
    assert!(chat.deliver(&mut store, message(200, 1, 50, "last")).is_ok());
    assert_eq!(store.messages.len(), OUTPUT_CHANNEL_CAPACITY + 1);

    let mut seen_by_slow = vec![];
    while let Some(event) = chat.next_room_event(slow) {
        if let Some(RoomEvent::NewMessage(got)) = event.event {
            seen_by_slow.push(got.text);
        }
    }
    assert_eq!(seen_by_slow, vec!["fill".to_string(); OUTPUT_CHANNEL_CAPACITY]);
    let mut seen_by_fast = vec![];
    while let Some(event) = chat.next_room_event(fast) {
        if let Some(RoomEvent::NewMessage(got)) = event.event {
            seen_by_fast.push(got.text);
        }
    }
    assert_eq!(seen_by_fast, vec!["last".to_string()]);
}

#[test]
fn deliver_refuses_a_taken_identity_and_publishes_nothing() {
    let mut store = store_of(&[(1, "u1")]);
    let mut chat = Chat::new(&store);
    room_of(&mut chat, &mut store, 50, &[1]);
    let listener = chat.subscribe_to_room(call_as(1, wire(50))).unwrap();
    chat.deliver(&mut store, message(100, 1, 50, "first")).unwrap();
    let again = chat.deliver(&mut store, message(100, 1, 50, "second"));
    assert_eq!(again.err().unwrap().code, Code::Internal);
    assert_eq!(store.messages.len(), 1);
    assert!(chat.next_room_event(listener).is_some());
    assert!(chat.next_room_event(listener).is_none());
    assert_eq!(chat.publish(&message(101, 1, 50, "loose")), 1);
    assert!(chat.authorize_send(&message(102, 1, 50, "x")).is_ok());
    assert_eq!(
        chat.authorize_send(&message(102, 2, 50, "x")).err().unwrap().code,
        Code::PermissionDenied
    );
}

#[test]
fn publish_without_subscribers_is_no_error() {
    let mut store = store_of(&[(1, "u1")]);
    let mut chat = Chat::new(&store);
    room_of(&mut chat, &mut store, 50, &[1]);
    assert_eq!(chat.receiver_count(), 0);
    assert!(chat
        .send_message(
            &mut store,
            call_as(1, ClientsideMessage { room_uuid: Some(wire(50)), text: "".into() })
        )
        .is_ok());
    assert_eq!(store.messages.len(), 1);
    assert_eq!(store.messages[0].text, "");
    assert_eq!(store.messages[0].sender_uuid, Uuid::from_u128(1));
}

#[test]
fn disconnect_ends_one_subscription_and_spares_the_others() {
    let mut store = store_of(&[(1, "u1"), (2, "u2"), (3, "u3")]);
    let mut chat = Chat::new(&store);
    room_of(&mut chat, &mut store, 50, &[1, 2, 3]);
    let leaving = chat.subscribe_to_room(call_as(2, wire(50))).unwrap();
    let staying = chat.subscribe_to_room(call_as(3, wire(50))).unwrap();
    assert_ne!(leaving, staying);
    chat.deliver(&mut store, message(100, 1, 50, "one")).unwrap();
    assert_eq!(chat.receiver_count(), 2);

    let ended = chat.disconnect_room_stream(leaving).unwrap();
    assert_eq!(ended.state, StreamState::Cancelled);
    assert_eq!(ended.output.disconnect_tx, None);
    assert_eq!(ended.subscriber, Uuid::from_u128(2));
    assert_eq!(chat.receiver_count(), 1);
    assert!(chat.disconnect_room_stream(leaving).is_none());
    assert_eq!(chat.receiver_count(), 1);
    assert!(chat.next_room_event(leaving).is_none());

    chat.deliver(&mut store, message(101, 1, 50, "two")).unwrap();
    let mut seen = vec![];
    while let Some(event) = chat.next_room_event(staying) {
        if let Some(RoomEvent::NewMessage(got)) = event.event {
            seen.push(got.text);
        }
    }
    assert_eq!(seen, vec!["one".to_string(), "two".to_string()]);
}

#[test]
fn subscribe_to_room_is_for_members_only() {
    let mut store = store_of(&[(1, "u1"), (2, "u2")]);
    let mut chat = Chat::new(&store);
    room_of(&mut chat, &mut store, 50, &[1]);
    assert_eq!(
        chat.subscribe_to_room(call_as(2, wire(50))).err().unwrap().code,
        Code::PermissionDenied
    );
    assert_eq!(
        chat.subscribe_to_room(call_as(1, proto::Uuid { uuid: "this-is-4sure-wrong".into() }))
            .err()
            .unwrap()
            .code,
        Code::InvalidArgument
    );
    assert_eq!(
        chat.subscribe_to_room(Request::new(wire(50))).err().unwrap().code,
        Code::Unauthenticated
    );
    assert_eq!(chat.receiver_count(), 0);
    assert_eq!(chat.subscribe_to_room(call_as(1, wire(50))).ok(), Some(0));
    assert_eq!(chat.subscribe_to_user(call_as(1, ())).ok(), Some(1));
    chat.next_stream = u64::MAX;
    assert_eq!(
        chat.subscribe_to_room(call_as(1, wire(50))).err().unwrap().code,
        Code::Internal
    );
    assert_eq!(chat.subscribe_to_user(call_as(1, ())).err().unwrap().code, Code::Internal);
    assert_eq!(chat.receiver_count(), 1);
}

#[test]
fn user_events_reach_the_member_that_was_added() {
    let mut store = store_of(&[(1, "u1"), (2, "u2"), (3, "u3")]);
    let mut chat = Chat::new(&store);
    let first = chat.subscribe_to_user(call_as(1, ())).unwrap();
    let third = chat.subscribe_to_user(call_as(3, ())).unwrap();
    assert_eq!(chat.user_receiver_count(), 2);
    room_of(&mut chat, &mut store, 50, &[1, 2, 1]);

    let event = chat.next_user_event(first).unwrap();
    assert_eq!(event.user_uuid, Some(wire(1)));
    assert_eq!(event.event, Some(UserEvent::AddedToRoom(wire(50))));
    assert!(chat.next_user_event(first).is_none());
    assert!(chat.next_user_event(third).is_none());

    let ended = chat.disconnect_user_stream(first).unwrap();
    assert_eq!(ended.state, StreamState::Cancelled);
    assert_eq!(chat.user_receiver_count(), 1);
    assert!(chat.disconnect_user_stream(first).is_none());
    assert_eq!(
        chat.subscribe_to_user(Request::new(())).err().unwrap().code,
        Code::Unauthenticated
    );
}

#[test]
fn shutdown_closes_every_source() {
    let mut store = store_of(&[(1, "u1"), (2, "u2")]);
    let mut chat = Chat::new(&store);
    room_of(&mut chat, &mut store, 50, &[1, 2]);
    chat.subscribe_to_room(call_as(1, wire(50))).unwrap();
    chat.subscribe_to_room(call_as(2, wire(50))).unwrap();
    chat.subscribe_to_user(call_as(2, ())).unwrap();
    chat.deliver(&mut store, message(100, 1, 50, "kept")).unwrap();
    let ended = chat.shutdown();
    assert_eq!(ended.len(), 2);
    assert!(ended.iter().all(|stream| stream.state == StreamState::SourceClosed));
    assert_eq!(ended[1].subscriber, Uuid::from_u128(2));
    assert_eq!(ended[0].output.grpc_rx.len(), 1);
    assert_eq!(chat.receiver_count(), 0);
    assert_eq!(chat.user_receiver_count(), 0);
}

#[test]
fn new_chat_rebuilds_the_cache_from_the_relation() {
    let mut store = store_of(&[(1, "u1"), (2, "u2")]);
    let mut chat = Chat::new(&store);
    room_of(&mut chat, &mut store, 50, &[1, 2]);
    room_of(&mut chat, &mut store, 51, &[2]);
    room_of(&mut chat, &mut store, 52, &[2, 1]);

    let rebuilt = Chat::new(&store);
    assert_eq!(
        rebuilt.cache.get_rooms(Uuid::from_u128(1)),
        vec![Uuid::from_u128(50), Uuid::from_u128(52)]
    );
    assert_eq!(
        rebuilt.cache.get_rooms(Uuid::from_u128(2)),
        vec![Uuid::from_u128(50), Uuid::from_u128(51), Uuid::from_u128(52)]
    );
    assert_eq!(rebuilt.cache.get_rooms(Uuid::from_u128(3)), Vec::<Uuid>::new());
    assert!(rebuilt.check_room_membership(&Uuid::from_u128(1), &Uuid::from_u128(52)));
    assert!(!rebuilt.check_room_membership(&Uuid::from_u128(1), &Uuid::from_u128(51)));
    assert_eq!(rebuilt.receiver_count(), 0);
}

#[test]
fn list_rooms_shows_the_callers_rooms_in_table_order() {
    let mut store = store_of(&[(1, "u1"), (2, "u2")]);
    let mut chat = Chat::new(&store);
    room_of(&mut chat, &mut store, 50, &[1, 2]);
    room_of(&mut chat, &mut store, 51, &[2]);
    room_of(&mut chat, &mut store, 52, &[2, 1]);
    let listed = chat.list_rooms(&store, call_as(1, ())).unwrap();
    let shown: Vec<(String, Vec<proto::Uuid>)> =
        listed.rooms.iter().map(|room| (room.to_text(), room.members.clone())).collect();
    assert_eq!(
        shown,
        vec![
            (
                "room 50 (00000000-0000-0000-0000-000000000032)".to_string(),
                vec![wire(1), wire(2)]
            ),
            (
                "room 52 (00000000-0000-0000-0000-000000000034)".to_string(),
                vec![wire(2), wire(1)]
            ),
        ]
    );
    assert_eq!(chat.list_rooms(&store, Request::new(())).err().unwrap().code, Code::Unauthenticated);
}

#[test]
fn list_messages_is_for_members_only() {
    let mut store = store_of(&[(1, "u1"), (2, "u2")]);
    let mut chat = Chat::new(&store);
    room_of(&mut chat, &mut store, 50, &[1]);
    chat.deliver(&mut store, message(100, 1, 50, "one")).unwrap();
    assert_eq!(
        chat.list_messages(&store, call_as(2, wire(50))).err().unwrap().code,
        Code::PermissionDenied
    );
    assert_eq!(
        chat.list_messages(&store, call_as(1, proto::Uuid { uuid: "".into() })).err().unwrap().code,
        Code::InvalidArgument
    );
    assert_eq!(
        chat.list_messages(&store, Request::new(wire(50))).err().unwrap().code,
        Code::Unauthenticated
    );
    let listed = chat.list_messages(&store, call_as(1, wire(50))).unwrap();
    assert_eq!(listed.messages.len(), 1);
    assert_eq!(
        listed.messages[0],
        proto::ServersideMessage {
            uuid: Some(wire(100)),
            sender_uuid: Some(wire(1)),
            room_uuid: Some(wire(50)),
            text: "one".into(),
            timestamp: Some(proto::Timestamp { seconds: 1, nanos: 2 }),
        }
    );
}

#[test]
fn lookup_user_by_identifier_and_by_name() {
    let store = store_of(&[(1, "alice"), (2, "bob")]);
    let chat = Chat::new(&store);
    let by_uuid = chat
        .lookup_user(&store, Request::new(UserLookupRequest { identifier: Some(Identifier::Uuid(wire(2))) }))
        .unwrap();
    assert_eq!(by_uuid, proto::User { uuid: Some(wire(2)), username: "bob".into() });
    let by_name = chat
        .lookup_user(
            &store,
            Request::new(UserLookupRequest { identifier: Some(Identifier::Username("alice".into())) }),
        )
        .unwrap();
    assert_eq!(by_name, proto::User { uuid: Some(wire(1)), username: "alice".into() });
    let unknown = chat.lookup_user(
        &store,
        Request::new(UserLookupRequest { identifier: Some(Identifier::Username("carol".into())) }),
    );
    assert_eq!(unknown.err().unwrap().code, Code::NotFound);
    let unknown = chat.lookup_user(
        &store,
        Request::new(UserLookupRequest { identifier: Some(Identifier::Uuid(wire(9))) }),
    );
    assert_eq!(unknown.err().unwrap().code, Code::NotFound);
    let broken = chat.lookup_user(
        &store,
        Request::new(UserLookupRequest {
            identifier: Some(Identifier::Uuid(proto::Uuid { uuid: "x".into() })),
        }),
    );
    assert_eq!(broken.err().unwrap().code, Code::InvalidArgument);
    let nothing = chat.lookup_user(&store, Request::new(UserLookupRequest { identifier: None }));
    assert_eq!(nothing.err().unwrap().code, Code::InvalidArgument);
}

#[test]
fn lookup_room_answers_for_existing_rooms() {
    let mut store = store_of(&[(1, "u1")]);
    let mut chat = Chat::new(&store);
    room_of(&mut chat, &mut store, 50, &[1]);
    assert_eq!(chat.lookup_room(&store, call_as(1, wire(51))).err().unwrap().code, Code::NotFound);
    assert_eq!(
        chat.lookup_room(&store, call_as(1, proto::Uuid { uuid: "x".into() })).err().unwrap().code,
        Code::InvalidArgument
    );
    assert_eq!(
        chat.lookup_room(&store, Request::new(wire(50))).err().unwrap().code,
        Code::Unauthenticated
    );
    assert!(chat.lookup_room(&store, call_as(1, wire(50))).is_ok());
}

#[test]
fn alice_and_bob_scenario() {
    let mut store = Persistence::new();
    let mut registry = Registry::default();
    let alice = UserCredentials { username: "alice".into(), password: "pw1".into() };
    let bob = UserCredentials { username: "bob".into(), password: "pw2".into() };
    registry.register_new_user(&mut store, Request::new(alice.clone())).unwrap();
    registry.register_new_user(&mut store, Request::new(bob.clone())).unwrap();
    let alice_pair = registry.login_as_user(&mut store, Request::new(alice)).unwrap();
    let bob_pair = registry.login_as_user(&mut store, Request::new(bob)).unwrap();
    let alice_uuid = alice_pair.user_uuid.clone().unwrap();
    let bob_uuid = bob_pair.user_uuid.clone().unwrap();

    let mut chat = Chat::new(&store);

    let mut create = Request::new(RoomWithUserCreationRequest { user_uuid: Some(bob_uuid) });
    create.add_auth_pair(alice_pair.clone()).unwrap();
    let room = chat.create_room_with_user(&mut store, create).unwrap();

    let mut subscribe = Request::new(room.clone());
    subscribe.add_auth_pair(bob_pair).unwrap();
    let stream = chat.subscribe_to_room(subscribe).unwrap();

    let mut send = Request::new(ClientsideMessage { room_uuid: Some(room), text: "hi".into() });
    send.add_auth_pair(alice_pair).unwrap();
    chat.send_message(&mut store, send).unwrap();

    let event = chat.next_room_event(stream).unwrap();
    match event.event {
        Some(RoomEvent::NewMessage(got)) => {
            assert_eq!(got.text, "hi");
            assert_eq!(got.sender_uuid, Some(alice_uuid));
        }
        None => panic!("the event carries no message"),
    }
    assert!(chat.next_room_event(stream).is_none());
}

#[test]
fn connection_error_is_internal() {
    let status = acquire_connection_error_status();
    assert_eq!(status.code(), Code::Internal);
    assert_eq!(status.message(), "Could not acquire a connection");
}

#[test]
fn greeter_answers() {
    let greeter = TCPChat::default();
    let answer = greeter.say_hello(Request::new(proto::HelloRequest { name: "x".into() }));
    assert_eq!(answer.ok().map(|response| response.message), Some("hey!".to_string()));
}

#[test]
fn analysis_prompt_is_the_preamble_and_the_transcript() {
    let mut store = store_of(&[(1, "alice"), (2, "bob"), (3, "carol")]);
    let mut chat = Chat::new(&store);
    room_of(&mut chat, &mut store, 50, &[1, 2]);
    room_of(&mut chat, &mut store, 51, &[1, 3]);
    chat.deliver(&mut store, message(100, 1, 50, "hello")).unwrap();
    chat.deliver(&mut store, message(101, 3, 51, "elsewhere")).unwrap();
    chat.deliver(&mut store, message(102, 2, 50, "")).unwrap();

    let preamble = r#"
            Hey. Here are a bunch of messages from a chat room, along with the user's names.
            I want you to analyze the messages and figure out what topics were discussed, as
            well as look for pattterns in the messages and provide insignt into the users'
            mood and intentions. Provide additional information about the same things the users
            were talking about. Your response will be used as a mean of improving the users'
            experience, and also be a part of a real-time behavioral analysis. Stay concise,
            go straight to the point, no introductions. Here are the messages:
        "#;
    assert_eq!(tcp_chat::services::chat::ANALYSIS_PREAMBLE, preamble);
    let prompt = chat.analysis_prompt(&store, call_as(2, wire(50))).unwrap();
    assert_eq!(prompt, format!("{preamble}\nalice: hello\nbob: "));

    assert_eq!(
        chat.analysis_prompt(&store, call_as(3, wire(50))).err().unwrap().code,
        Code::PermissionDenied
    );
    assert_eq!(
        chat.analysis_prompt(&store, call_as(1, proto::Uuid { uuid: "x".into() })).err().unwrap().code,
        Code::InvalidArgument
    );
    assert_eq!(
        chat.analysis_prompt(&store, Request::new(wire(50))).err().unwrap().code,
        Code::Unauthenticated
    );
}

#[test]
fn first_calls_succeed_whatever_identity_is_drawn() {
    let mut store = Persistence::new();
    let mut registry = Registry::default();
    let alice = UserCredentials { username: "alice".into(), password: "pw1".into() };
    assert!(registry.register_new_user(&mut store, Request::new(alice.clone())).is_ok());
    let hash_before = store.users[0].password.clone();
    let uuid_before = store.users[0].uuid;
    let pair = registry.login_as_user(&mut store, Request::new(alice)).unwrap();
    assert_eq!(store.users[0].username, "alice");
    assert_eq!(store.users[0].password, hash_before);
    assert_eq!(store.users[0].uuid, uuid_before);

    let mut chat = Chat::new(&store);
    assert_eq!(chat.next_stream, 0);
    let mut create = Request::new(ClientsideRoom {
        name: "solo".into(),
        members: vec![pair.user_uuid.clone().unwrap()],
    });
    create.add_auth_pair(pair.clone()).unwrap();
    let room = chat.create_room(&mut store, create).unwrap();

    let mut send = Request::new(ClientsideMessage { room_uuid: Some(room), text: "first".into() });
    send.add_auth_pair(pair).unwrap();
    assert!(chat.send_message(&mut store, send).is_ok());
    assert_eq!(store.messages.len(), 1);
}
