//! The access decision: one presented credential, one verdict.
//!
//! Within one request the store lookup happens before the audit
//! record is built, and the door is signalled only for a successful
//! lookup.

use vstd::prelude::*;

use crate::keypad::AccessRequest;
use crate::protocol::{Audit, CodeType};
use crate::store::UserDB;

verus! {

/// The integer code a request presents; a card identifier is 24 bits
/// and carries over to the signed code space unchanged.
pub open spec fn request_code(req: AccessRequest) -> i32 {
    match req {
        AccessRequest::Pin(pin) => pin,
        AccessRequest::Fob(rfid) => rfid as i32,
    }
}

/// The credential kind a request implies.
pub open spec fn request_kind(req: AccessRequest) -> CodeType {
    match req {
        AccessRequest::Pin(_) => CodeType::Pin,
        AccessRequest::Fob(_) => CodeType::Fob,
    }
}

/// The audit record and door verdict for one request against a set
/// of valid codes: success exactly when the code is in the set.
pub open spec fn spec_decision(codes: Set<i32>, req: AccessRequest, timestamp: u64) -> (
    Audit,
    bool,
) {
    let success = codes.contains(request_code(req));
    (
        Audit {
            timestamp,
            code: request_code(req),
            code_type: request_kind(req),
            success,
        },
        success,
    )
}

/// Decides one access request: returns the audit record to publish
/// and whether to signal the door open.  An unrecognized credential
/// yields no door actuation and one failed audit record.
///
/// Card identifiers are 24-bit values, as the frame decoder
/// guarantees.
pub fn handle_request(db: &UserDB, req: &AccessRequest, timestamp: u64) -> (r: (Audit, bool))
    requires
        req matches AccessRequest::Fob(rfid) ==> rfid <= 0xff_ffff,
    ensures
        r == spec_decision(db@, *req, timestamp),
{
    let (code, code_type) = match req {
        AccessRequest::Pin(pin) => (*pin, CodeType::Pin),
        AccessRequest::Fob(rfid) => (*rfid as i32, CodeType::Fob),
    };
    let success = db.contains(code);
    (Audit { timestamp, code, code_type, success }, success)
}

/// Entering `1`, `2`, `3`, `4` digit by digit and then the terminator
/// on an idle keypad emits the request `Pin(1234)` and nothing
/// earlier; when `1234` is among the valid codes the decision is a
/// successful audit record and a door-open verdict.
pub proof fn lemma_pin_entry_end_to_end(codes: Set<i32>, ts: u64)
    requires
        codes.contains(1234),
    ensures
        ({
            let k0 = Seq::<u8>::empty();
            let (k1, o1) = crate::keypad::spec_on_packet(k0, crate::wiegand::Packet::Key { key: 1 });
            let (k2, o2) = crate::keypad::spec_on_packet(k1, crate::wiegand::Packet::Key { key: 2 });
            let (k3, o3) = crate::keypad::spec_on_packet(k2, crate::wiegand::Packet::Key { key: 3 });
            let (k4, o4) = crate::keypad::spec_on_packet(k3, crate::wiegand::Packet::Key { key: 4 });
            let (k5, o5) = crate::keypad::spec_on_packet(
                k4,
                crate::wiegand::Packet::Key { key: crate::keypad::HASH_KEY },
            );
            &&& o1 == crate::keypad::FrameOutcome::Quiet
            &&& o2 == crate::keypad::FrameOutcome::Quiet
            &&& o3 == crate::keypad::FrameOutcome::Quiet
            &&& o4 == crate::keypad::FrameOutcome::Quiet
            &&& o5 == crate::keypad::FrameOutcome::Request(AccessRequest::Pin(1234))
            &&& k5 == Seq::<u8>::empty()
            &&& spec_decision(codes, AccessRequest::Pin(1234), ts) == (
                Audit { timestamp: ts, code: 1234, code_type: CodeType::Pin, success: true },
                true,
            )
        }),
{
    let k0 = Seq::<u8>::empty();
    let k1 = k0.push(1u8);
    let k2 = k1.push(2u8);
    let k3 = k2.push(3u8);
    let k4 = k3.push(4u8);
    assert(k4.drop_last() =~= k3);
    assert(k3.drop_last() =~= k2);
    assert(k2.drop_last() =~= k1);
    assert(k1.drop_last() =~= k0);
    assert(crate::keypad::decimal_value(k0) == 0);
    assert(crate::keypad::decimal_value(k1) == 1);
    assert(crate::keypad::decimal_value(k2) == 12);
    assert(crate::keypad::decimal_value(k3) == 123);
    assert(crate::keypad::decimal_value(k4) == 1234);
}

} // verus!
