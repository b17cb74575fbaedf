//! Network identity helpers.

use vstd::prelude::*;

verus! {

/// The numeric part of a device's network identifier: the last three
/// octets of its MAC address, last octet least significant.
pub fn mac_suffix(mac: &[u8; 6]) -> (r: u32)
    ensures
        r == mac@[5] + mac@[4] * 0x100 + mac@[3] * 0x1_0000,
{
    let b3 = mac[3] as u32;
    let b4 = mac[4] as u32;
    let b5 = mac[5] as u32;
    proof {
        assert(b4 <= 0xff && b3 <= 0xff ==> (b4 << 8) == b4 * 0x100 && (b3 << 16) == b3
            * 0x1_0000) by (bit_vector);
    }
    b5 + (b4 << 8) + (b3 << 16)
}

} // verus!
