//! Decoding of heart-rate measurement notifications.
//!
//! A notification carries a flags octet followed by the instantaneous
//! reading. The flags are not interpreted: the reading is always taken to be
//! the single octet that follows them.

use vstd::prelude::*;
use crate::error::SessionError;

verus! {

/// Fewest octets that a notification must hold: the flags and the reading.
pub const MIN_PAYLOAD_LEN: usize = 2;

/// Identifier of the heart-rate measurement characteristic,
/// `00002a37-0000-1000-8000-00805f9b34fb`.
pub const HEART_RATE_MEASUREMENT: u128 = 0x0000_2a37_0000_1000_8000_0080_5f9b_34fbu128;

/// What a notification payload decodes to: the octet after the flags, or a
/// failure where the payload is too short to hold one.
pub open spec fn decoded(payload: Seq<u8>) -> Result<u8, SessionError> {
    if payload.len() >= MIN_PAYLOAD_LEN {
        Ok(payload[1])
    } else {
        Err(SessionError::MalformedNotification)
    }
}

/// Decodes the reading of one notification. A payload of fewer than two
/// octets is rejected; nothing is read beyond its end.
pub fn decode_heart_rate(payload: &[u8]) -> (r: Result<u8, SessionError>)
    ensures
        r == decoded(payload@),
{
    if payload.len() >= MIN_PAYLOAD_LEN {
        Ok(payload[1])
    } else {
        Err(SessionError::MalformedNotification)
    }
}

/// Position of the first of `offered` that is `wanted`, if there is one.
pub open spec fn first_position(offered: Seq<u128>, wanted: u128, i: int) -> bool {
    &&& 0 <= i < offered.len()
    &&& offered[i] == wanted
    &&& forall|j: int| 0 <= j < i ==> offered[j] != wanted
}

/// Index of the first of `offered` that is `wanted`, if there is one.
pub open spec fn characteristic_index(offered: Seq<u128>, wanted: u128) -> Option<usize> {
    match offered.index_of_first(wanted) {
        Some(i) => Some(i as usize),
        None => None,
    }
}

/// Searches the characteristics that a peripheral offers for `wanted`. Only
/// an identifier that equals `wanted` is a match.
pub fn find_characteristic(offered: &Vec<u128>, wanted: u128) -> (r: Option<usize>)
    ensures
        r == characteristic_index(offered@, wanted),
        match r {
            Some(i) => first_position(offered@, wanted, i as int),
            None => !offered@.contains(wanted),
        },
{
    let mut i: usize = 0;
    while i < offered.len()
        invariant
            i <= offered.len(),
            forall|j: int| 0 <= j < i ==> offered@[j] != wanted,
        decreases offered.len() - i,
    {
        if offered[i] == wanted {
            proof {
                assert(offered@.contains(wanted));
                offered@.index_of_first_ensures(wanted);
            }
            return Some(i);
        }
        i = i + 1;
    }
    proof {
        offered@.index_of_first_ensures(wanted);
    }
    None
}

} // verus!
