//! Aggregation of classified frames into access requests.
//!
//! Key-press frames accumulate into a bounded digit buffer.  A
//! terminator key closes the buffer into a PIN request, a cancel key
//! or overflow clears it with a rejection signal, and a card frame
//! always produces a card request immediately.

use vstd::prelude::*;

use crate::wiegand::Packet;

verus! {

/// Most digits a PIN sequence may hold before it is rejected.
pub const MAX_PIN_LENGTH: usize = 8;

/// The key that cancels a pending digit sequence.
pub const STAR_KEY: u8 = 0x0A;

/// The key that terminates a digit sequence into a PIN.
pub const HASH_KEY: u8 = 0x0B;

/// A credential presented at the reader, consumed exactly once.
#[derive(Clone, Copy, Debug, PartialEq, Eq, Structural)]
pub enum AccessRequest {
    /// A multi-digit code, most significant digit first.
    Pin(i32),
    /// A card identifier.
    Fob(u32),
}

/// What one frame (or an idle timeout) produced.
#[derive(Clone, Copy, Debug, PartialEq, Eq, Structural)]
pub enum FrameOutcome {
    /// Nothing to report; digits may still be pending.
    Quiet,
    /// The pending sequence was discarded; feedback signals rejection.
    Rejected,
    /// A completed credential, ready for an access decision.
    Request(AccessRequest),
}

/// The decimal value of a digit sequence, most significant first.
pub open spec fn decimal_value(s: Seq<u8>) -> int
    decreases s.len(),
{
    if s.len() == 0 {
        0
    } else {
        decimal_value(s.drop_last()) * 10 + s.last()
    }
}

/// The number written with `n` repeated `1` digits: 0, 1, 11, 111, ...
pub open spec fn rep_units(n: int) -> int
    decreases n,
{
    if n <= 0 {
        0
    } else {
        rep_units(n - 1) * 10 + 1
    }
}

proof fn lemma_rep_units_mono(m: int, n: int)
    requires
        0 <= m <= n,
    ensures
        0 <= rep_units(m) <= rep_units(n),
    decreases n,
{
    if n > 0 {
        if m == n {
            lemma_rep_units_mono(m - 1, n - 1);
        } else {
            lemma_rep_units_mono(m, n - 1);
        }
    }
}

/// A sequence of digits up to 15 is bounded by 15 times the repunit
/// of its length.
proof fn lemma_decimal_value_bound(s: Seq<u8>)
    requires
        forall|i: int| 0 <= i < s.len() ==> s[i] <= 15,
    ensures
        0 <= decimal_value(s) <= 15 * rep_units(s.len() as int),
    decreases s.len(),
{
    if s.len() == 0 {
    } else {
        lemma_decimal_value_bound(s.drop_last());
    }
}

/// Converts a key press sequence into an integer, interpreting each
/// key as one decimal digit, most significant first.
pub fn keys_to_int(keys: &[u8]) -> (r: i32)
    requires
        keys@.len() <= MAX_PIN_LENGTH,
        forall|i: int| 0 <= i < keys@.len() ==> keys@[i] <= 15,
    ensures
        r == decimal_value(keys@),
{
    let ghost gkeys = keys@;
    let mut acc: i32 = 0;
    let mut i: usize = 0;
    proof {
        reveal_with_fuel(rep_units, 10);
        assert(rep_units(8) == 11111111);
    }
    while i < keys.len()
        invariant
            gkeys == keys@,
            i <= gkeys.len() <= 8,
            forall|j: int| 0 <= j < gkeys.len() ==> gkeys[j] <= 15,
            acc == decimal_value(gkeys.take(i as int)),
            rep_units(8) == 11111111,
        decreases gkeys.len() - i,
    {
        proof {
            lemma_decimal_value_bound(gkeys.take(i as int));
            lemma_rep_units_mono(i as int, 8);
            lemma_rep_units_mono(i + 1, 8);
            lemma_decimal_value_bound(gkeys.take(i + 1));
            assert(gkeys.take(i + 1).drop_last() =~= gkeys.take(i as int));
            assert(gkeys.take(i + 1).last() == gkeys[i as int]);
        }
        acc = acc * 10 + (keys[i] as i32);
        i = i + 1;
    }
    proof {
        assert(gkeys.take(i as int) =~= gkeys);
    }
    acc
}

/// The digit buffer between frames.
pub struct Keypad {
    pub keys: Vec<u8>,
}

/// How one classified frame changes the pending digits and what it
/// emits: the terminator closes the buffer into a PIN request, the
/// cancel key or a full buffer rejects the sequence, other digits
/// accumulate, a card frame always emits immediately, and an
/// unrecognized frame discards whatever was pending.
pub open spec fn spec_on_packet(keys: Seq<u8>, p: Packet) -> (Seq<u8>, FrameOutcome) {
    match p {
        Packet::Key { key } => {
            if key == HASH_KEY {
                (
                    Seq::empty(),
                    FrameOutcome::Request(AccessRequest::Pin(decimal_value(keys) as i32)),
                )
            } else if key == STAR_KEY {
                (Seq::empty(), FrameOutcome::Rejected)
            } else if key > 15 {
                (keys, FrameOutcome::Quiet)
            } else if keys.len() >= MAX_PIN_LENGTH {
                (Seq::empty(), FrameOutcome::Rejected)
            } else {
                (keys.push(key), FrameOutcome::Quiet)
            }
        },
        Packet::Card { rfid } => (Seq::empty(), FrameOutcome::Request(AccessRequest::Fob(rfid))),
        Packet::Unknown { .. } => (Seq::empty(), FrameOutcome::Quiet),
    }
}

impl Keypad {
    /// The buffer never exceeds the maximum length and holds only
    /// 4-bit key values.
    pub open spec fn wf(self) -> bool {
        &&& self.keys@.len() <= MAX_PIN_LENGTH
        &&& forall|i: int| 0 <= i < self.keys@.len() ==> self.keys@[i] <= 15
    }

    /// An aggregator with no pending digits.
    pub fn new() -> (k: Keypad)
        ensures
            k.wf(),
            k.keys@ == Seq::<u8>::empty(),
    {
        let k = Keypad { keys: Vec::new() };
        proof {
            assert(k.keys@ =~= Seq::<u8>::empty());
        }
        k
    }

    /// Feeds one classified frame to the aggregator.
    pub fn on_packet(&mut self, p: &Packet) -> (r: FrameOutcome)
        requires
            old(self).wf(),
        ensures
            final(self).wf(),
            (final(self).keys@, r) == spec_on_packet(old(self).keys@, *p),
    {
        match *p {
            Packet::Key { key } => {
                if key == HASH_KEY {
                    proof {
                        lemma_decimal_value_bound(self.keys@);
                        lemma_rep_units_mono(self.keys@.len() as int, 8);
                        reveal_with_fuel(rep_units, 10);
                        assert(rep_units(8) == 11111111);
                    }
                    let pin = keys_to_int(self.keys.as_slice());
                    self.keys.clear();
                    proof {
                        assert(self.keys@ =~= Seq::<u8>::empty());
                    }
                    FrameOutcome::Request(AccessRequest::Pin(pin))
                } else if key == STAR_KEY {
                    self.keys.clear();
                    proof {
                        assert(self.keys@ =~= Seq::<u8>::empty());
                    }
                    FrameOutcome::Rejected
                } else if key > 15 {
                    FrameOutcome::Quiet
                } else if self.keys.len() >= MAX_PIN_LENGTH {
                    self.keys.clear();
                    proof {
                        assert(self.keys@ =~= Seq::<u8>::empty());
                    }
                    FrameOutcome::Rejected
                } else {
                    self.keys.push(key);
                    FrameOutcome::Quiet
                }
            },
            Packet::Card { rfid } => {
                self.keys.clear();
                proof {
                    assert(self.keys@ =~= Seq::<u8>::empty());
                }
                FrameOutcome::Request(AccessRequest::Fob(rfid))
            },
            Packet::Unknown { .. } => {
                self.keys.clear();
                proof {
                    assert(self.keys@ =~= Seq::<u8>::empty());
                }
                FrameOutcome::Quiet
            },
        }
    }

    /// An idle timeout while digits are pending discards them as an
    /// incomplete sequence, with a rejection signal; an idle timeout
    /// on an empty buffer reports nothing.
    pub fn on_timeout(&mut self) -> (r: FrameOutcome)
        requires
            old(self).wf(),
        ensures
            final(self).wf(),
            final(self).keys@ == Seq::<u8>::empty(),
            r == if old(self).keys@.len() > 0 {
                FrameOutcome::Rejected
            } else {
                FrameOutcome::Quiet
            },
    {
        let pending = self.keys.len() > 0;
        self.keys.clear();
        proof {
            assert(self.keys@ =~= Seq::<u8>::empty());
        }
        if pending {
            FrameOutcome::Rejected
        } else {
            FrameOutcome::Quiet
        }
    }
}

} // verus!
