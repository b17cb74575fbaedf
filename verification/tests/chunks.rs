use doorsys::chunks::{ChunkAssembler, Detail, Topic};

#[test]
fn three_chunks_equal_unchunked() {
    let payload: Vec<u8> = (0u8..100).collect();
    let (c1, rest) = payload.split_at(30);
    let (c2, c3) = rest.split_at(40);

    let mut link = ChunkAssembler::new();
    assert_eq!(
        link.on_message(Topic::User, Detail::Initial { total: payload.len() }, c1.to_vec()),
        None
    );
    assert_eq!(link.on_message(Topic::User, Detail::Subsequent, c2.to_vec()), None);
    let reassembled = link
        .on_message(Topic::User, Detail::Subsequent, c3.to_vec())
        .expect("payload complete at the third chunk");

    let mut whole = ChunkAssembler::new();
    let direct = whole
        .on_message(Topic::User, Detail::Complete, payload.clone())
        .expect("complete payload passes through");

    assert_eq!(reassembled, direct);
    assert_eq!(reassembled, (Topic::User, payload));
}

#[test]
fn complete_payload_passes_through() {
    let mut link = ChunkAssembler::new();
    let r = link.on_message(Topic::DoorOpen, Detail::Complete, vec![]);
    assert_eq!(r, Some((Topic::DoorOpen, vec![])));
}

#[test]
fn incomplete_assembly_emits_nothing() {
    let mut link = ChunkAssembler::new();
    assert_eq!(
        link.on_message(Topic::User, Detail::Initial { total: 10 }, vec![1, 2, 3]),
        None
    );
    assert_eq!(link.on_message(Topic::User, Detail::Subsequent, vec![4, 5]), None);
}

#[test]
fn new_initial_chunk_abandons_previous_assembly() {
    let mut link = ChunkAssembler::new();
    link.on_message(Topic::Other, Detail::Initial { total: 50 }, vec![9; 10]);
    // A fresh initial chunk for another topic overwrites the partial buffer.
    link.on_message(Topic::User, Detail::Initial { total: 4 }, vec![1, 2]);
    let r = link.on_message(Topic::User, Detail::Subsequent, vec![3, 4]);
    assert_eq!(r, Some((Topic::User, vec![1, 2, 3, 4])));
}

#[test]
fn subsequent_chunk_without_assembly_is_dropped() {
    let mut link = ChunkAssembler::new();
    assert_eq!(link.on_message(Topic::User, Detail::Subsequent, vec![1, 2]), None);
}
