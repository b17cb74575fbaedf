//! Decoder for the two-wire, bit-serial reader protocol.
//!
//! Each pulse on one of the two signal lines contributes one bit to a
//! fixed-capacity frame buffer; a quiet period delimits the frame.  A
//! completed frame is classified as a key press (4 bits), a card
//! identifier (26 bits, parity stripped), or an unrecognized pattern.

use vstd::prelude::*;

verus! {

/// Bytes in the frame buffer; at most `8 * BUFFER_SIZE` bits per frame.
pub const BUFFER_SIZE: usize = 4;

/// A classified frame delivered by the reader.
#[derive(Clone, Copy, Debug, PartialEq, Eq)]
pub enum Packet {
    /// A single key press, `key` in `0..16`.
    Key { key: u8 },
    /// A 24-bit card identifier with the two parity bits stripped.
    Card { rfid: u32 },
    /// Any other bit count; the raw buffer is kept for logging.
    Unknown { bits: usize, data: [u8; BUFFER_SIZE] },
}

/// The frame buffer as one 32-bit word, first received bit highest.
pub open spec fn frame_word(data: Seq<u8>) -> u32 {
    ((data[0] as u32) << 24) | ((data[1] as u32) << 16) | ((data[2] as u32) << 8) | (data[3] as u32)
}

/// The card identifier of a 26-bit frame: the leading parity bit is
/// masked off and the trailing parity bit shifted out, leaving the
/// middle 24 bits.
pub open spec fn card_value(data: Seq<u8>) -> u32 {
    (frame_word(data) & (!(1u32 << 31))) >> 7
}

/// How a completed frame is classified, by its bit count.
pub open spec fn classify(bits: usize, data: [u8; BUFFER_SIZE]) -> Packet {
    if bits == 4 {
        Packet::Key { key: data@[0] >> 4 }
    } else if bits == 26 {
        Packet::Card { rfid: card_value(data@) }
    } else {
        Packet::Unknown { bits, data }
    }
}

impl Packet {
    /// Classifies a captured frame buffer.
    pub fn new(bits: usize, data: [u8; BUFFER_SIZE]) -> (r: Packet)
        ensures
            r == classify(bits, data),
    {
        match bits {
            4 => Packet::Key { key: data[0] >> 4 },
            26 => {
                let word: u32 = ((data[0] as u32) << 24) | ((data[1] as u32) << 16) | (
                (data[2] as u32) << 8) | (data[3] as u32);
                let rfid = (word & (!(1u32 << 31))) >> 7;
                Packet::Card { rfid }
            },
            _ => Packet::Unknown { bits, data },
        }
    }
}

/// Bit `i` of a frame, in order of arrival: stored in byte `i / 8`,
/// most significant position first.
pub open spec fn nth_bit(data: Seq<u8>, i: int) -> bool {
    (data[i / 8] >> ((7 - (i % 8)) as u8)) & 1 == 1
}

/// Accumulates edge pulses into a frame buffer.
///
/// The edge handler runs in interrupt context in a deployment, so it
/// neither allocates nor blocks: it only sets one bit per pulse and
/// counts.  Capturing the frame after the inter-symbol timeout resets
/// the state for the next frame.
pub struct Decoder {
    pub bits: usize,
    pub data: [u8; BUFFER_SIZE],
}

/// Sets a single bit (position `7 - sh` of the byte, i.e. slot `sh`
/// counted from the most significant end) and leaves the rest alone.
proof fn lemma_or_single_bit(b: u8, v: u8, sh: u8)
    by (bit_vector)
    requires
        sh < 8,
        v == 0 || v == 0x80,
    ensures
        forall|t: u8|
            t < 8 && t != 7 - sh ==> #[trigger] (((b | (v >> sh)) >> t) & 1) == (b >> t) & 1,
        (b >> ((7 - sh) as u8)) & 1 == 0 ==> ((b | (v >> sh)) >> ((7 - sh) as u8)) & 1 == (if v
            == 0x80 {
            1u8
        } else {
            0u8
        }),
{
}

impl Decoder {
    /// The buffer never holds more than 32 bits, and every slot at or
    /// beyond `bits` is still clear, ready to receive the next pulse.
    pub open spec fn wf(self) -> bool {
        &&& self.bits <= 32
        &&& self.data@.len() == 4
        &&& forall|i: int| self.bits <= i < 32 ==> !nth_bit(self.data@, i)
    }

    /// The bits received so far, in order of arrival.
    pub open spec fn frame_bits(self) -> Seq<bool> {
        Seq::new(self.bits as nat, |i: int| nth_bit(self.data@, i))
    }

    /// An idle decoder with an empty frame buffer.
    pub fn new() -> (d: Decoder)
        ensures
            d.wf(),
            d.bits == 0,
            d.frame_bits() == Seq::<bool>::empty(),
    {
        let d = Decoder { bits: 0, data: [0u8, 0u8, 0u8, 0u8] };
        proof {
            assert(forall|b: u8| b < 8 ==> (0u8 >> b) & 1 == 0) by (bit_vector);
            assert(d.frame_bits() =~= Seq::<bool>::empty());
        }
        d
    }

    /// One pulse: the two line levels at the interrupt.  Equal levels
    /// are noise and ignored; once the buffer is full further pulses
    /// are dropped rather than corrupting the frame; otherwise the
    /// pulse appends one bit (`true` when the first line stayed high).
    pub fn on_edge(&mut self, d0: bool, d1: bool)
        requires
            old(self).wf(),
        ensures
            final(self).wf(),
            d0 == d1 ==> *final(self) == *old(self),
            d0 != d1 && old(self).bits >= 32 ==> *final(self) == *old(self),
            d0 != d1 && old(self).bits < 32 ==> {
                &&& final(self).bits == old(self).bits + 1
                &&& final(self).frame_bits() == old(self).frame_bits().push(d0)
            },
    {
        if d0 == d1 {
            return ;
        }
        if self.bits >= 32 {
            return ;
        }
        let value: u8 = if d0 {
            0x80
        } else {
            0
        };
        let idx = self.bits / 8;
        let sh: u8 = (self.bits % 8) as u8;
        let b = self.data[idx];
        self.data[idx] = b | (value >> sh);
        self.bits = self.bits + 1;
        proof {
            let od = old(self).data@;
            let nd = self.data@;
            let obits = old(self).bits as int;
            lemma_or_single_bit(b, value, sh);
            assert(nd =~= od.update(idx as int, b | (value >> sh)));
            assert forall|i: int| 0 <= i < 32 && i != obits implies nth_bit(nd, i) == nth_bit(
                od,
                i,
            ) by {
                if i / 8 == idx as int {
                    assert(i % 8 != sh as int);
                    assert(((b | (value >> sh)) >> ((7 - (i % 8)) as u8)) & 1 == (b >> ((7 - (i
                        % 8)) as u8)) & 1);
                }
            }
            assert(!nth_bit(od, obits));
            assert(forall|x: u8| #[trigger] (x & 1) == 0 || (x & 1) == 1) by (bit_vector);
            assert((b >> ((7 - sh) as u8)) & 1 == 0);
            assert(nth_bit(nd, obits) == d0);
            assert(self.frame_bits() =~= old(self).frame_bits().push(d0));
        }
    }

    /// Captures and classifies the current frame, clearing the buffer
    /// for the next one.
    pub fn take_frame(&mut self) -> (p: Packet)
        requires
            old(self).wf(),
        ensures
            final(self).wf(),
            final(self).bits == 0,
            final(self).frame_bits() == Seq::<bool>::empty(),
            p == classify(old(self).bits, old(self).data),
    {
        let p = Packet::new(self.bits, self.data);
        self.bits = 0;
        self.data = [0u8, 0u8, 0u8, 0u8];
        proof {
            assert(forall|b: u8| b < 8 ==> (0u8 >> b) & 1 == 0) by (bit_vector);
            assert(self.frame_bits() =~= Seq::<bool>::empty());
        }
        p
    }
}

/// Four accumulated pulses classify as the key press whose value is
/// the four bits read as a binary number, first pulse most
/// significant.
pub proof fn lemma_four_pulse_digit(d: Decoder)
    requires
        d.wf(),
        d.bits == 4,
    ensures
        classify(d.bits, d.data) == (Packet::Key {
            key: ((if d.frame_bits()[0] {
                8u8
            } else {
                0u8
            }) + (if d.frame_bits()[1] {
                4u8
            } else {
                0u8
            }) + (if d.frame_bits()[2] {
                2u8
            } else {
                0u8
            }) + (if d.frame_bits()[3] {
                1u8
            } else {
                0u8
            })) as u8,
        }),
{
    let b = d.data@[0];
    let k0: u8 = if d.frame_bits()[0] {
        1
    } else {
        0
    };
    let k1: u8 = if d.frame_bits()[1] {
        1
    } else {
        0
    };
    let k2: u8 = if d.frame_bits()[2] {
        1
    } else {
        0
    };
    let k3: u8 = if d.frame_bits()[3] {
        1
    } else {
        0
    };
    assert(forall|x: u8| #[trigger] (x & 1) == 0 || (x & 1) == 1) by (bit_vector);
    assert(!nth_bit(d.data@, 4));
    assert(!nth_bit(d.data@, 5));
    assert(!nth_bit(d.data@, 6));
    assert(!nth_bit(d.data@, 7));
    assert(b >> 4 == 8 * k0 + 4 * k1 + 2 * k2 + k3) by (bit_vector)
        requires
            (b >> 7) & 1 == k0,
            (b >> 6) & 1 == k1,
            (b >> 5) & 1 == k2,
            (b >> 4) & 1 == k3,
            (b >> 3) & 1 == 0,
            (b >> 2) & 1 == 0,
            (b >> 1) & 1 == 0,
            (b >> 0) & 1 == 0,
    ;
}

/// A 4-bit frame whose bits sit in the high nibble of the first byte
/// always decodes to that nibble as the key digit, whatever the rest
/// of the buffer holds.
pub proof fn lemma_digit_frame(data: [u8; BUFFER_SIZE], x: u8)
    requires
        x < 16,
        data@[0] == x << 4,
    ensures
        classify(4, data) == (Packet::Key { key: x }),
{
    assert((x << 4) >> 4 == x) by (bit_vector)
        requires
            x < 16,
    ;
}

/// A 26-bit frame decodes to the middle 24 bits of the frame word as
/// an unsigned integer.
pub proof fn lemma_card_frame(data: [u8; BUFFER_SIZE])
    ensures
        classify(26, data) == (Packet::Card { rfid: (frame_word(data@) >> 7) & 0xff_ffff }),
{
    let w = frame_word(data@);
    assert((w & (!(1u32 << 31))) >> 7 == (w >> 7) & 0xff_ffff) by (bit_vector);
}

/// The decoded card identifier does not depend on the two parity bits:
/// two 26-bit frames that agree on the middle 24 bits of their frame
/// words decode to the same identifier.
pub proof fn lemma_card_parity_independent(d1: [u8; BUFFER_SIZE], d2: [u8; BUFFER_SIZE])
    requires
        (frame_word(d1@) >> 7) & 0xff_ffff == (frame_word(d2@) >> 7) & 0xff_ffff,
    ensures
        classify(26, d1) == classify(26, d2),
{
    lemma_card_frame(d1);
    lemma_card_frame(d2);
}

} // verus!
