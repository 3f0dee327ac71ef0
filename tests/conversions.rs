use automerge::transaction::Transactable;
use automerge::ReadDoc;
use automerge_bridge::{root, ActorId, ChangeHash, ConversionError, Cursor, ObjId, Position, PositionWire, HASH_SIZE};

fn list_in_new_document() -> automerge::ObjId {
    let mut doc = automerge::AutoCommit::new();
    doc.put_object(automerge::ROOT, "items", automerge::ObjType::List).unwrap()
}

#[test]
fn change_hash_of_zero_bytes_round_trips() {
    let hash = ChangeHash::lift(vec![0u8; 32]).unwrap();
    assert_eq!(hash.lower(), vec![0u8; 32]);
}

#[test]
fn change_hash_of_31_bytes_is_invalid_length() {
    let bytes: Vec<u8> = (0u8..31).map(|b| b.wrapping_mul(37)).collect();
    assert!(matches!(ChangeHash::lift(bytes), Err(ConversionError::InvalidLength)));
}

#[test]
fn change_hash_rejects_other_lengths() {
    assert!(matches!(ChangeHash::lift(Vec::new()), Err(ConversionError::InvalidLength)));
    assert!(matches!(ChangeHash::lift(vec![1u8; 33]), Err(ConversionError::InvalidLength)));
    assert!(matches!(ChangeHash::lift(vec![1u8; 64]), Err(ConversionError::InvalidLength)));
    assert_eq!(HASH_SIZE, 32);
}

#[test]
fn change_hash_keeps_arbitrary_32_bytes() {
    let bytes: Vec<u8> = (0u8..32).map(|b| b.wrapping_mul(91).wrapping_add(3)).collect();
    let hash = ChangeHash::lift(bytes.clone()).unwrap();
    assert_eq!(hash.lower(), bytes);
}

#[test]
fn change_hash_converts_to_and_from_engine() {
    let bytes: Vec<u8> = (1u8..=32).collect();
    let hash = ChangeHash::lift(bytes.clone()).unwrap();
    let engine = hash.to_automerge();
    assert_eq!(engine.0.to_vec(), bytes);
    let back = ChangeHash::from_automerge(&engine);
    assert_eq!(back.lower(), bytes);
}

#[test]
fn root_twice_gives_equal_bytes() {
    let first = root().lower();
    let second = root().lower();
    assert_eq!(first, second);
    assert_eq!(first, vec![0u8]);
}

#[test]
fn root_differs_from_other_addresses() {
    let list = ObjId::from_automerge(&list_in_new_document()).lower();
    assert_ne!(list, root().lower());
    assert_ne!(list, vec![0u8]);
}

#[test]
fn root_matches_engine_root() {
    assert_eq!(root().to_automerge(), automerge::ROOT);
    assert_eq!(ObjId::from_automerge(&automerge::ROOT).lower(), root().lower());
}

#[test]
fn obj_id_round_trips_through_bytes() {
    let engine = list_in_new_document();
    let bytes = ObjId::from_automerge(&engine).lower();
    let id = ObjId::lift(bytes.clone()).unwrap();
    assert_eq!(id.to_automerge(), engine);
    assert_eq!(id.clone().lower(), bytes);
    assert_eq!(id.lower(), bytes);
}

#[test]
fn obj_id_rejects_malformed_bytes() {
    assert!(matches!(ObjId::lift(Vec::new()), Err(ConversionError::InvalidEncoding)));
    assert!(matches!(ObjId::lift(vec![0x02]), Err(ConversionError::InvalidEncoding)));
    assert!(matches!(ObjId::lift(vec![0x20]), Err(ConversionError::InvalidEncoding)));
    assert!(matches!(ObjId::lift(vec![0x10, 5, 1]), Err(ConversionError::InvalidEncoding)));
}

#[test]
fn cursor_round_trips_through_bytes() {
    let cursor = Cursor::lift(vec![1, 1]).unwrap();
    assert_eq!(cursor.to_automerge(), automerge::Cursor::Start);
    assert_eq!(cursor.lower(), vec![1, 1]);
    let end = Cursor::from_automerge(&automerge::Cursor::End);
    assert_eq!(end.lower(), vec![1, 2]);
}

#[test]
fn cursor_rejects_malformed_bytes() {
    assert!(matches!(Cursor::lift(Vec::new()), Err(ConversionError::InvalidEncoding)));
    assert!(matches!(Cursor::lift(vec![9]), Err(ConversionError::InvalidEncoding)));
    assert!(matches!(Cursor::lift(vec![1, 7]), Err(ConversionError::InvalidEncoding)));
}

#[test]
fn position_index_zero_round_trips() {
    let position = Position::lift(PositionWire::Index { position: 0 }).unwrap();
    assert!(matches!(position.lower(), PositionWire::Index { position: 0 }));
}

#[test]
fn position_index_42_round_trips() {
    let position = Position::lift(PositionWire::Index { position: 42 }).unwrap();
    assert!(matches!(position, Position::Index { position: 42 }));
    assert!(matches!(position.lower(), PositionWire::Index { position: 42 }));
}

#[test]
fn position_cursor_round_trips() {
    let position = Position::lift(PositionWire::Cursor { bytes: vec![1, 2] }).unwrap();
    match position.lower() {
        PositionWire::Cursor { bytes } => assert_eq!(bytes, vec![1, 2]),
        PositionWire::Index { .. } => panic!("variant changed"),
    }
}

#[test]
fn position_with_malformed_cursor_is_rejected() {
    let lifted = Position::lift(PositionWire::Cursor { bytes: vec![4, 4, 4] });
    assert!(matches!(lifted, Err(ConversionError::InvalidEncoding)));
}

#[test]
fn empty_actor_round_trips() {
    let actor = ActorId::lift(Vec::new());
    assert_eq!(actor.lower(), Vec::<u8>::new());
}

#[test]
fn actor_converts_to_and_from_engine() {
    let bytes = vec![0xde, 0xad, 0xbe, 0xef, 1, 2, 3];
    let actor = ActorId::lift(bytes.clone());
    let engine = actor.to_automerge();
    assert_eq!(engine.to_bytes(), bytes.as_slice());
    let back = ActorId::from_automerge(&engine);
    assert_eq!(back.lower(), bytes);
}

#[test]
fn long_actor_round_trips() {
    let bytes: Vec<u8> = (0u8..=200).collect();
    let actor = ActorId::lift(bytes.clone());
    assert_eq!(ActorId::from_automerge(&actor.to_automerge()).lower(), bytes);
}

#[test]
fn identifiers_compare_by_bytes() {
    assert!(root() == root());
    assert!(ObjId::from_automerge(&list_in_new_document()) != root());
    assert!(ActorId::lift(vec![1, 2]) == ActorId::lift(vec![1, 2]));
    assert!(ActorId::lift(vec![1, 2]) != ActorId::lift(vec![1, 2, 0]));
    assert!(ActorId::lift(vec![1, 2]) != ActorId::lift(vec![1, 3]));
    let a = ChangeHash::lift(vec![5u8; 32]).unwrap();
    let b = ChangeHash::lift(vec![5u8; 32]).unwrap();
    let c = ChangeHash::lift(vec![6u8; 32]).unwrap();
    assert!(a == b);
    assert!(a != c);
    assert!(Cursor::lift(vec![1, 1]).unwrap() == Cursor::from_automerge(&automerge::Cursor::Start));
    assert!(Cursor::lift(vec![1, 1]).unwrap() != Cursor::from_automerge(&automerge::Cursor::End));
}

#[test]
fn engine_cursor_round_trips_through_bytes() {
    let mut doc = automerge::AutoCommit::new();
    let list = doc.put_object(automerge::ROOT, "items", automerge::ObjType::List).unwrap();
    doc.insert(&list, 0, "a").unwrap();
    doc.insert(&list, 1, "b").unwrap();
    let engine = doc.get_cursor(&list, 1usize, None).unwrap();
    let cursor = Cursor::from_automerge(&engine);
    assert!(cursor.to_automerge() == engine);
    let bytes = Cursor::from_automerge(&engine).lower();
    assert_eq!(bytes, engine.to_bytes());
    let position = Position::lift(PositionWire::Cursor { bytes: bytes.clone() }).unwrap();
    match position {
        Position::Cursor { position } => assert!(position.to_automerge() == engine),
        Position::Index { .. } => panic!("variant changed"),
    }
}

#[test]
fn engine_obj_id_lowers_to_its_serialisation() {
    let engine = list_in_new_document();
    assert_eq!(ObjId::from_automerge(&engine).lower(), engine.to_bytes());
    assert_eq!(ObjId::from_automerge(&engine).to_automerge(), engine);
}

#[test]
fn empty_actor_gives_empty_engine_actor() {
    let engine = ActorId::lift(Vec::new()).to_automerge();
    assert!(engine.to_bytes().is_empty());
    assert_eq!(ActorId::from_automerge(&engine).lower(), Vec::<u8>::new());
}

#[test]
fn equal_actor_bytes_give_equal_engine_actors() {
    let a = ActorId::lift(vec![9, 8, 7]).to_automerge();
    let b = ActorId::lift(vec![9, 8, 7]).to_automerge();
    let c = ActorId::lift(vec![9, 8, 6]).to_automerge();
    assert!(a == b);
    assert!(a != c);
}
