use doorsys::keypad::{keys_to_int, AccessRequest, FrameOutcome, Keypad, HASH_KEY, STAR_KEY};
use doorsys::wiegand::Packet;

fn key(k: u8) -> Packet {
    Packet::Key { key: k }
}

#[test]
fn keys_to_int_exact_values() {
    assert_eq!(keys_to_int(&[]), 0);
    assert_eq!(keys_to_int(&[7]), 7);
    assert_eq!(keys_to_int(&[1, 2, 3, 4]), 1234);
    assert_eq!(keys_to_int(&[0, 0, 7]), 7);
    assert_eq!(keys_to_int(&[9, 9, 9, 9, 9, 9, 9, 9]), 99999999);
    // Hex keys count as their value in a decimal position.
    assert_eq!(keys_to_int(&[15, 15]), 165);
}

#[test]
fn digits_then_terminator_emit_pin() {
    let mut k = Keypad::new();
    assert_eq!(k.on_packet(&key(4)), FrameOutcome::Quiet);
    assert_eq!(k.on_packet(&key(2)), FrameOutcome::Quiet);
    assert_eq!(
        k.on_packet(&key(HASH_KEY)),
        FrameOutcome::Request(AccessRequest::Pin(42))
    );
    // The buffer was cleared: the next terminator yields the empty PIN.
    assert_eq!(
        k.on_packet(&key(HASH_KEY)),
        FrameOutcome::Request(AccessRequest::Pin(0))
    );
}

#[test]
fn cancel_clears_and_rejects() {
    let mut k = Keypad::new();
    k.on_packet(&key(1));
    k.on_packet(&key(2));
    assert_eq!(k.on_packet(&key(STAR_KEY)), FrameOutcome::Rejected);
    assert_eq!(
        k.on_packet(&key(HASH_KEY)),
        FrameOutcome::Request(AccessRequest::Pin(0))
    );
}

#[test]
fn overflow_clears_and_rejects() {
    let mut k = Keypad::new();
    for d in 0u8..8 {
        assert_eq!(k.on_packet(&key(d)), FrameOutcome::Quiet);
    }
    // The ninth digit exceeds the maximum length before a terminator.
    assert_eq!(k.on_packet(&key(8)), FrameOutcome::Rejected);
    // No access request was emitted and the buffer is empty again.
    assert_eq!(
        k.on_packet(&key(HASH_KEY)),
        FrameOutcome::Request(AccessRequest::Pin(0))
    );
}

#[test]
fn card_emits_immediately_and_clears_digits() {
    let mut k = Keypad::new();
    k.on_packet(&key(9));
    assert_eq!(
        k.on_packet(&Packet::Card { rfid: 0xABCD }),
        FrameOutcome::Request(AccessRequest::Fob(0xABCD))
    );
    assert_eq!(
        k.on_packet(&key(HASH_KEY)),
        FrameOutcome::Request(AccessRequest::Pin(0))
    );
}

#[test]
fn unknown_frame_clears_pending_digits() {
    let mut k = Keypad::new();
    k.on_packet(&key(3));
    assert_eq!(
        k.on_packet(&Packet::Unknown { bits: 7, data: [1, 2, 3, 4] }),
        FrameOutcome::Quiet
    );
    assert_eq!(
        k.on_packet(&key(HASH_KEY)),
        FrameOutcome::Request(AccessRequest::Pin(0))
    );
}

#[test]
fn timeout_rejects_incomplete_sequence() {
    let mut k = Keypad::new();
    k.on_packet(&key(5));
    assert_eq!(k.on_timeout(), FrameOutcome::Rejected);
    assert_eq!(k.on_timeout(), FrameOutcome::Quiet);
}

#[test]
fn out_of_range_key_is_ignored() {
    let mut k = Keypad::new();
    k.on_packet(&key(1));
    assert_eq!(k.on_packet(&key(200)), FrameOutcome::Quiet);
    assert_eq!(
        k.on_packet(&key(HASH_KEY)),
        FrameOutcome::Request(AccessRequest::Pin(1))
    );
}
