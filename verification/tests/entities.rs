use rand_chacha::ChaCha20Rng;
use rand_core::SeedableRng;
use tcp_chat::entities::message::Message;
use tcp_chat::entities::relations::RoomUser;
use tcp_chat::entities::room::Room;
use tcp_chat::entities::token::{AuthToken, MalformedToken};
use tcp_chat::entities::user::User;
use tcp_chat::entities::uuid::{MalformedUuid, Uuid};
use tcp_chat::entities::ConversionError;
use tcp_chat::proto;

#[test]
fn token_conversion_roundtrip() {
    const INNER: u128 = 123;
    let token = AuthToken { token: INNER };
    let proto_token = proto::AuthToken {
        token: format!("{:>032x}", INNER),
    };

    let converted_to_proto: proto::AuthToken = token.clone().into();
    assert_eq!(converted_to_proto, proto_token);

    let converted_from_proto: AuthToken = proto_token.clone().try_into().unwrap();
    assert_eq!(token, converted_from_proto);

    assert_eq!(token.to_text(), proto_token.to_text());
}

#[test]
fn conversion() {
    let uuid = Uuid::new_v4();
    let proto_uuid: proto::Uuid = uuid.into();
    let parsed_uuid: Result<Uuid, _> = proto_uuid.try_into();
    assert_eq!(parsed_uuid, Ok(uuid));
}

#[test]
fn malformed() {
    let uuid: &str = "this-is-4sure-wrong";
    let proto_uuid = proto::Uuid { uuid: uuid.into() };
    assert!(Uuid::try_from(proto_uuid).is_err());
}

#[test]
fn uuid_conversion_roundtrip() {
    let uuid = Uuid::new_v4();
    let proto_uuid: proto::Uuid = uuid.into();
    let parsed_uuid: Result<Uuid, _> = proto_uuid.try_into();
    assert_eq!(parsed_uuid, Ok(uuid));
}

#[test]
fn malformed_from_proto() {
    let uuid: &str = "this-is-4sure-wrong";
    let proto_uuid = proto::Uuid { uuid: uuid.into() };
    assert!(Uuid::try_from(proto_uuid).is_err());
}

#[test]
fn uuid_text_is_hyphenated_lowercase() {
    let uuid = Uuid::from_u128(0xa1a2a3a4b1b2c1c2d1d2d3d4d5d6d7d8);
    assert_eq!(uuid.to_text(), "a1a2a3a4-b1b2-c1c2-d1d2-d3d4d5d6d7d8");
    assert_eq!(uuid.as_u128(), 0xa1a2a3a4b1b2c1c2d1d2d3d4d5d6d7d8);
    let wire = proto::Uuid::from(uuid);
    assert_eq!(wire.uuid, "a1a2a3a4-b1b2-c1c2-d1d2-d3d4d5d6d7d8");
}

#[test]
fn uuid_parse_reads_value_not_text() {
    assert_eq!(
        Uuid::parse_str("a1a2a3a4-b1b2-c1c2-d1d2-d3d4d5d6d7d8"),
        Ok(Uuid::from_u128(0xa1a2a3a4b1b2c1c2d1d2d3d4d5d6d7d8))
    );
    assert_eq!(
        Uuid::parse_str("A1A2A3A4B1B2C1C2D1D2D3D4D5D6D7D8"),
        Ok(Uuid::from_u128(0xa1a2a3a4b1b2c1c2d1d2d3d4d5d6d7d8))
    );
    assert_eq!(Uuid::parse_str(""), Err(MalformedUuid));
    assert_eq!(Uuid::parse_str("a1a2a3a4-b1b2-c1c2-d1d2"), Err(MalformedUuid));
}

#[test]
fn uuid_new_v4_is_random_version_4() {
    let first = Uuid::new_v4();
    let second = Uuid::new_v4();
    assert_ne!(first, second);
    let marks = 0x0000_0000_0000_f000_c000_0000_0000_0000u128;
    assert_eq!(first.value & marks, 0x0000_0000_0000_4000_8000_0000_0000_0000u128);
    assert_eq!(second.value & marks, 0x0000_0000_0000_4000_8000_0000_0000_0000u128);
}

#[test]
fn uuid_eq_proto_compares_canonical_text() {
    let uuid = Uuid::from_u128(0xa1a2a3a4b1b2c1c2d1d2d3d4d5d6d7d8);
    let same = proto::Uuid { uuid: "a1a2a3a4-b1b2-c1c2-d1d2-d3d4d5d6d7d8".into() };
    let upper = proto::Uuid { uuid: "A1A2A3A4-B1B2-C1C2-D1D2-D3D4D5D6D7D8".into() };
    assert!(uuid.eq_proto(&same));
    assert!(!uuid.eq_proto(&upper));
}

#[test]
fn token_text_is_32_hex_digits() {
    assert_eq!(AuthToken { token: 123 }.to_text(), "0000000000000000000000000000007b");
    assert_eq!(AuthToken { token: 0 }.to_text(), "00000000000000000000000000000000");
    assert_eq!(AuthToken { token: u128::MAX }.to_text(), "ffffffffffffffffffffffffffffffff");
}

#[test]
fn token_from_str_reads_hexadecimal() {
    assert_eq!(AuthToken::from_str("7b"), Ok(AuthToken { token: 123 }));
    assert_eq!(
        AuthToken::from_str("0000000000000000000000000000007B"),
        Ok(AuthToken { token: 123 })
    );
    assert_eq!(AuthToken::from_str(""), Err(MalformedToken));
    assert_eq!(AuthToken::from_str("xyz"), Err(MalformedToken));
    assert_eq!(
        AuthToken::from_str("100000000000000000000000000000000"),
        Err(MalformedToken)
    );
}

#[test]
fn token_from_le_bytes_puts_first_byte_lowest() {
    let mut pool = [0u8; 16];
    pool[0] = 0x7b;
    pool[15] = 0x01;
    assert_eq!(
        AuthToken::from_le_bytes(&pool),
        AuthToken { token: (1u128 << 120) | 0x7b }
    );
}

#[test]
fn token_new_draws_from_the_generator() {
    let mut first = ChaCha20Rng::seed_from_u64(7);
    let mut second = ChaCha20Rng::seed_from_u64(7);
    let a = AuthToken::new(&mut first);
    let b = AuthToken::new(&mut first);
    assert_ne!(a, b);
    assert_eq!(AuthToken::new(&mut second), a);
}

#[test]
fn proto_token_from_str_is_canonical() {
    let wire = proto::AuthToken::from_str("7B").unwrap();
    assert_eq!(wire.token, "0000000000000000000000000000007b");
    assert_eq!(wire.to_text(), "0000000000000000000000000000007b");
    assert!(proto::AuthToken::from_str("not hex").is_err());
}

#[test]
fn proto_token_of_32_characters_is_displayed_unchanged() {
    let wire = proto::AuthToken { token: "abcdefabcdefabcdefabcdefabcdefab".into() };
    assert_eq!(wire.to_text(), "abcdefabcdefabcdefabcdefabcdefab");
}

#[test]
fn user_new_keeps_name_and_password() {
    let mut rng = ChaCha20Rng::seed_from_u64(1);
    let user = User::new("user_1".into(), "pass_1".into(), &mut rng);
    assert_eq!(user.username, "user_1");
    assert_eq!(user.password, "pass_1");
    assert_eq!(user.auth_token(), user.auth_token);
    let pair = user.auth_pair();
    assert_eq!(pair.user_uuid, Some(proto::Uuid::from(user.uuid)));
    assert_eq!(pair.token, Some(user.proto_token()));
    assert_eq!(user.proto_token().token, user.auth_token.to_text());
    let shown = proto::User::from(user.clone());
    assert_eq!(shown.username, "user_1");
    assert_eq!(shown.uuid, Some(proto::Uuid::from(user.uuid)));
}

#[test]
fn room_members_follow_the_relation() {
    let room = Room::with_identity(Uuid::from_u128(1), "lobby");
    let other = Uuid::from_u128(2);
    let relation = vec![
        RoomUser { room_uuid: room.uuid, user_uuid: Uuid::from_u128(10) },
        RoomUser { room_uuid: other, user_uuid: Uuid::from_u128(11) },
        RoomUser { room_uuid: room.uuid, user_uuid: Uuid::from_u128(12) },
    ];
    assert_eq!(
        room.get_members(&relation),
        vec![Uuid::from_u128(10), Uuid::from_u128(12)]
    );
    assert_eq!(room.get_members(&Vec::new()), Vec::<Uuid>::new());
    assert_eq!(Room::new("lobby").name, "lobby");
}

#[test]
fn serverside_room_is_shown_with_its_identifier() {
    let room = proto::ServersideRoom {
        uuid: Some(proto::Uuid { uuid: "abc".into() }),
        name: "lobby".into(),
        members: vec![],
    };
    assert_eq!(room.to_text(), "lobby (abc)");
    let nameless = proto::ServersideRoom { uuid: None, name: "lobby".into(), members: vec![] };
    assert_eq!(nameless.to_text(), "lobby ()");
}

#[test]
fn message_from_client_needs_a_room() {
    let sender = Uuid::from_u128(1);
    let room = Uuid::from_u128(2);
    let good = proto::ClientsideMessage {
        room_uuid: Some(proto::Uuid::from(room)),
        text: "message_text".into(),
    };
    let message = Message::from_clientside_message(good, sender).unwrap();
    assert_eq!(message.sender_uuid, sender);
    assert_eq!(message.room_uuid, room);
    assert_eq!(message.text, "message_text");

    let missing = proto::ClientsideMessage { room_uuid: None, text: "x".into() };
    assert_eq!(
        Message::from_clientside_message(missing, sender).err(),
        Some(ConversionError::MissingField)
    );
    let broken = proto::ClientsideMessage {
        room_uuid: Some(proto::Uuid { uuid: "this-is-4sure-wrong".into() }),
        text: "x".into(),
    };
    assert_eq!(
        Message::from_clientside_message(broken, sender).err(),
        Some(ConversionError::MissingField)
    );
    assert_eq!(
        ConversionError::MissingField.message(),
        "The protobuf entity is missing a required field"
    );
}

#[test]
fn message_line_names_sender_then_text() {
    let message = Message::with_identity(
        Uuid::from_u128(9),
        proto::Timestamp { seconds: 5, nanos: 6 },
        "hello".into(),
        Uuid::from_u128(0xa1a2a3a4b1b2c1c2d1d2d3d4d5d6d7d8),
        Uuid::from_u128(2),
    );
    assert_eq!(message.to_text(), "a1a2a3a4-b1b2-c1c2-d1d2-d3d4d5d6d7d8: hello");
}

#[test]
fn message_new_is_stamped_and_fresh() {
    let first = Message::new("a", Uuid::from_u128(1), Uuid::from_u128(2));
    let second = Message::new("a", Uuid::from_u128(1), Uuid::from_u128(2));
    assert_ne!(first.uuid, second.uuid);
    assert!(first.timestamp.seconds > 1_600_000_000);
    assert!(first.timestamp.nanos >= 0 && first.timestamp.nanos < 1_000_000_000);
    assert_eq!(first.text, "a");
}

#[test]
fn message_survives_the_round_trip_through_an_event() {
    for text in ["message_text", ""] {
        let message = Message::with_identity(
            Uuid::from_u128(9),
            proto::Timestamp { seconds: 1_700_000_000, nanos: 999_999_999 },
            text.into(),
            Uuid::from_u128(1),
            Uuid::from_u128(2),
        );
        let event = proto::ServersideRoomEvent::new_message(message.room_uuid, message.clone());
        assert_eq!(event.room_uuid, Some(proto::Uuid::from(Uuid::from_u128(2))));
        let wire = match event.event {
            Some(proto::RoomEvent::NewMessage(wire)) => wire,
            None => panic!("the event carries no message"),
        };
        assert_eq!(
            wire,
            proto::ServersideMessage {
                uuid: Some(Uuid::from_u128(9).into()),
                sender_uuid: Some(Uuid::from_u128(1).into()),
                room_uuid: Some(Uuid::from_u128(2).into()),
                timestamp: Some(proto::Timestamp { seconds: 1_700_000_000, nanos: 999_999_999 }),
                text: text.into(),
            }
        );
        let back = Message::from_serverside_message(&wire).unwrap();
        assert_eq!(back.uuid, message.uuid);
        assert_eq!(back.sender_uuid, message.sender_uuid);
        assert_eq!(back.room_uuid, message.room_uuid);
        assert_eq!(back.text, message.text);
        assert_eq!(back.timestamp, message.timestamp);
    }
}

#[test]
fn serverside_message_without_a_field_is_refused() {
    let message = Message::with_identity(
        Uuid::from_u128(9),
        proto::Timestamp { seconds: 1, nanos: 2 },
        "x".into(),
        Uuid::from_u128(1),
        Uuid::from_u128(2),
    );
    let mut wire = proto::ServersideMessage::from(message);
    wire.timestamp = None;
    assert_eq!(
        Message::from_serverside_message(&wire).err(),
        Some(ConversionError::MissingField)
    );
}

#[test]
fn short_proto_token_is_padded_to_32_characters() {
    let wire = proto::AuthToken { token: "7b".into() };
    assert_eq!(wire.to_text(), "                              7b");
}
