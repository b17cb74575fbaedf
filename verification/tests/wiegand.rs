use doorsys::wiegand::{Decoder, Packet};

#[test]
fn four_bit_frame_decodes_to_high_nibble() {
    for digit in 0u8..16 {
        let data = [digit << 4, 0, 0, 0];
        let packet = Packet::new(4, data);
        assert_eq!(packet, Packet::Key { key: digit });
    }
}

#[test]
fn four_bit_frame_ignores_low_bits() {
    let packet = Packet::new(4, [0b0101_0000, 0, 0, 0]);
    assert_eq!(packet, Packet::Key { key: 5 });
}

#[test]
fn card_frame_takes_middle_24_bits() {
    // 26 bits: leading parity 1, the 24 payload bits, trailing parity 1.
    // Word = 1 [0000 0000 0000 0000 0001 0010] 1 000000
    //      = 0x8000_0000 | (0x12 << 7) | 0x40
    let word: u32 = 0x8000_0000 | (0x12 << 7) | 0x40;
    let data = word.to_be_bytes();
    assert_eq!(Packet::new(26, data), Packet::Card { rfid: 0x12 });
}

#[test]
fn card_frame_independent_of_parity_bits() {
    let payload: u32 = 0xABCDEF;
    let without_parity = (payload << 7).to_be_bytes();
    let with_parity = ((payload << 7) | 0x8000_0000 | 0x40).to_be_bytes();
    let a = Packet::new(26, without_parity);
    let b = Packet::new(26, with_parity);
    assert_eq!(a, Packet::Card { rfid: payload });
    assert_eq!(a, b);
}

#[test]
fn other_bit_counts_are_unknown() {
    let data = [0xAA, 0x55, 0, 0];
    assert_eq!(Packet::new(13, data), Packet::Unknown { bits: 13, data });
    assert_eq!(Packet::new(0, data), Packet::Unknown { bits: 0, data });
}

#[test]
fn decoder_accumulates_key_frame() {
    let mut d = Decoder::new();
    // Bits 0101: a pulse with D0 high means 1, with D0 low means 0.
    d.on_edge(false, true);
    d.on_edge(true, false);
    d.on_edge(false, true);
    d.on_edge(true, false);
    let packet = d.take_frame();
    assert_eq!(packet, Packet::Key { key: 0b0101 });
}

#[test]
fn decoder_ignores_equal_levels() {
    let mut d = Decoder::new();
    d.on_edge(true, true);
    d.on_edge(false, false);
    d.on_edge(true, false);
    d.on_edge(false, true);
    d.on_edge(true, false);
    d.on_edge(true, false);
    let packet = d.take_frame();
    assert_eq!(packet, Packet::Key { key: 0b1011 });
}

#[test]
fn decoder_reset_after_capture() {
    let mut d = Decoder::new();
    d.on_edge(true, false);
    let _ = d.take_frame();
    // A fresh frame starts from an empty buffer.
    d.on_edge(false, true);
    d.on_edge(false, true);
    d.on_edge(true, false);
    d.on_edge(false, true);
    assert_eq!(d.take_frame(), Packet::Key { key: 0b0010 });
}

#[test]
fn decoder_drops_edges_past_capacity() {
    let mut d = Decoder::new();
    for _ in 0..40 {
        d.on_edge(true, false);
    }
    let packet = d.take_frame();
    assert_eq!(packet, Packet::Unknown { bits: 32, data: [0xFF, 0xFF, 0xFF, 0xFF] });
}

#[test]
fn decoder_full_card_frame() {
    let payload: u32 = 0x00F0_0F55;
    let mut d = Decoder::new();
    // Leading parity 0.
    d.on_edge(false, true);
    for i in (0..24).rev() {
        let bit = (payload >> i) & 1 == 1;
        d.on_edge(bit, !bit);
    }
    // Trailing parity 1.
    d.on_edge(true, false);
    assert_eq!(d.take_frame(), Packet::Card { rfid: payload });
}
