use tcp_chat::entities::uuid::Uuid;
use tcp_chat::proto;
use tcp_chat::proto::{DeletionOutcome, RoomCreationRequest, RoomDeletionRequest};
use tcp_chat::request::Request;
use tcp_chat::room_manager::RoomManager;
use tcp_chat::status::Code;

fn create_rooms(count: usize, client: &mut RoomManager) -> Vec<(String, Vec<proto::Uuid>)> {
    let mut pairs = vec![];
    for _ in 0..count {
        let visible_name = String::from("Private chat room");
        let user_uuids = vec![Uuid::new_v4().into(), Uuid::new_v4().into()];
        client
            .create_room(Request::new(RoomCreationRequest {
                visible_name: visible_name.clone(),
                user_uuids: user_uuids.clone(),
            }))
            .unwrap();
        pairs.push((visible_name, user_uuids));
    }

    pairs
}

#[test]
fn create_single_room() {
    let mut client = RoomManager::default();

    let pairs = create_rooms(1, &mut client);
    let (visible_name, user_uuids) = pairs.first().unwrap();

    let rooms = client.get_rooms(Request::new(())).unwrap();
    assert_eq!(rooms.len(), 1);

    let room = rooms.first().unwrap();
    assert_eq!(room.visible_name, visible_name.clone());
    assert_eq!(&room.user_uuids, user_uuids);
}

#[test]
fn create_multiple_rooms() {
    let mut client = RoomManager::default();

    const COUNT: usize = 16;

    let pairs = create_rooms(COUNT, &mut client);

    let rooms = client.get_rooms(Request::new(())).unwrap();
    assert_eq!(rooms.len(), COUNT);

    for n in 0..COUNT {
        let room = rooms.get(n).unwrap();
        let pair = pairs.get(n).unwrap();
        assert_eq!(room.visible_name, pair.0.clone());
        assert_eq!(room.user_uuids, pair.1.clone());
    }
}

#[test]
fn keep_hands_out_the_text_of_the_identity() {
    let mut manager = RoomManager::default();
    let wire = manager.keep(
        Uuid::from_u128(1),
        RoomCreationRequest { visible_name: "a".into(), user_uuids: vec![] },
    );
    assert_eq!(wire.uuid, "00000000-0000-0000-0000-000000000001");
    assert_eq!(manager.rooms[0].uuid, Some(wire));
}

#[test]
fn delete_room_moves_the_last_room_into_the_gap() {
    let mut manager = RoomManager::default();
    for n in 1..=3u128 {
        manager.keep(
            Uuid::from_u128(n),
            RoomCreationRequest { visible_name: format!("room {n}"), user_uuids: vec![] },
        );
    }
    let first = proto::Uuid::from(Uuid::from_u128(1));
    let deleted = manager
        .delete_room(Request::new(RoomDeletionRequest { room_uuid: Some(first.clone()) }))
        .unwrap();
    assert_eq!(deleted.outcome, Some(DeletionOutcome::Deleted(first.uuid.clone())));
    let names: Vec<String> = manager.rooms.iter().map(|room| room.visible_name.clone()).collect();
    assert_eq!(names, vec!["room 3".to_string(), "room 2".to_string()]);

    let again = manager.delete_room(Request::new(RoomDeletionRequest { room_uuid: Some(first.clone()) }));
    let status = again.err().unwrap();
    assert_eq!(status.code, Code::NotFound);
    assert_eq!(status.message, first.uuid);
    assert_eq!(manager.rooms.len(), 2);

    let unnamed = manager.delete_room(Request::new(RoomDeletionRequest { room_uuid: None }));
    let status = unnamed.err().unwrap();
    assert_eq!(status.code, Code::NotFound);
    assert_eq!(status.message, "");
}
