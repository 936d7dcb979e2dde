//! Hardware addresses and the search for the configured device among the
//! peripherals that a scan found.

use vstd::prelude::*;
use vstd::string::StringSliceAdditionalSpecFns;
use crate::address::{address_of, parse_address};
use crate::error::SessionError;

verus! {

/// Seconds for which a scan listens before its findings are collected.
pub const SCAN_SECONDS: u64 = 3;

/// The six octets of a Bluetooth device address, most significant first.
#[derive(Clone, Copy, Debug, PartialEq, Eq)]
pub struct HardwareAddress {
    pub octets: [u8; 6],
}

impl View for HardwareAddress {
    type V = Seq<u8>;

    open spec fn view(&self) -> Seq<u8> {
        self.octets@
    }
}

impl HardwareAddress {
    /// Builds an address from its octets.
    pub fn new(octets: [u8; 6]) -> (r: HardwareAddress)
        ensures
            r@ == octets@,
            r.octets == octets,
    {
        HardwareAddress { octets }
    }

    /// Reads an address from its text, such as `C2:7A:75:27:F7:3E`. A text
    /// that is no address yields `None`.
    pub fn parse(text: &str) -> (r: Option<HardwareAddress>)
        ensures
            match r {
                Some(address) => address_of(text.spec_bytes()) == Some(address@),
                None => address_of(text.spec_bytes()) is None,
            },
    {
        match parse_address(text.as_bytes()) {
            Some(octets) => Some(HardwareAddress { octets }),
            None => None,
        }
    }

    /// Whether two addresses are the same, octet by octet.
    pub fn same_as(&self, other: &HardwareAddress) -> (r: bool)
        ensures
            r == (self@ == other@),
    {
        let mut i: usize = 0;
        while i < 6
            invariant
                i <= 6,
                forall|j: int| 0 <= j < i ==> self.octets@[j] == other.octets@[j],
            decreases 6 - i,
        {
            if self.octets[i] != other.octets[i] {
                return false;
            }
            i = i + 1;
        }
        assert(self@ =~= other@);
        true
    }
}

/// Whether a peripheral that advertises `advertised` is the device at
/// `target`. A peripheral whose properties are not available advertises
/// nothing and is never the device.
pub open spec fn advertises(target: Seq<u8>, advertised: Option<HardwareAddress>) -> bool {
    match advertised {
        Some(address) => address@ == target,
        None => false,
    }
}

/// Whether index `i` is the first peripheral of `candidates` that advertises
/// `target`.
pub open spec fn first_advertising(
    target: Seq<u8>,
    candidates: Seq<Option<HardwareAddress>>,
    i: int,
) -> bool {
    &&& 0 <= i < candidates.len()
    &&& advertises(target, candidates[i])
    &&& forall|j: int| 0 <= j < i ==> !advertises(target, #[trigger] candidates[j])
}

/// Whether no peripheral of `candidates` advertises `target`.
pub open spec fn none_advertising(target: Seq<u8>, candidates: Seq<Option<HardwareAddress>>) -> bool {
    forall|j: int| 0 <= j < candidates.len() ==> !advertises(target, #[trigger] candidates[j])
}

/// What the search for the device at `target` among `candidates` yields:
/// the first peripheral that advertises the address, or none where no
/// peripheral does.
pub open spec fn found_at(
    target: Seq<u8>,
    candidates: Seq<Option<HardwareAddress>>,
    r: Option<usize>,
) -> bool {
    match r {
        Some(i) => first_advertising(target, candidates, i as int),
        None => none_advertising(target, candidates),
    }
}

/// Picks the radio adapter to scan with: the first of those that the
/// machine offers.
pub fn choose_adapter(available: usize) -> (r: Result<usize, SessionError>)
    ensures
        r == if available == 0 {
            Err::<usize, SessionError>(SessionError::AdapterUnavailable)
        } else {
            Ok::<usize, SessionError>(0usize)
        },
{
    if available == 0 {
        Err(SessionError::AdapterUnavailable)
    } else {
        Ok(0)
    }
}

/// Decides whether one peripheral is the device at `target`.
pub fn is_device(target: &HardwareAddress, advertised: &Option<HardwareAddress>) -> (r: bool)
    ensures
        r == advertises(target@, *advertised),
{
    match advertised {
        Some(address) => address.same_as(target),
        None => false,
    }
}

/// Finds the device at `target` among the scanned peripherals.
///
/// `candidates` holds, for each scanned peripheral in scan order, the
/// address it advertises, or `None` where its properties could not be had.
/// The result is the index of the first peripheral whose address equals the
/// target exactly.
pub fn find_device(target: &HardwareAddress, candidates: &Vec<Option<HardwareAddress>>) -> (r:
    Option<usize>)
    ensures
        found_at(target@, candidates@, r),
{
    let mut i: usize = 0;
    while i < candidates.len()
        invariant
            i <= candidates.len(),
            forall|j: int| 0 <= j < i ==> !advertises(target@, #[trigger] candidates@[j]),
        decreases candidates.len() - i,
    {
        if is_device(target, &candidates[i]) {
            return Some(i);
        }
        i = i + 1;
    }
    None
}

/// Finds the configured device among the scanned peripherals. `mac` is the
/// configured address as text; where it is no address, nothing is found.
pub fn identify_device(mac: &str, candidates: &Vec<Option<HardwareAddress>>) -> (r: Option<usize>)
    ensures
        match address_of(mac.spec_bytes()) {
            Some(target) => found_at(target, candidates@, r),
            None => r is None,
        },
{
    match HardwareAddress::parse(mac) {
        Some(target) => find_device(&target, candidates),
        None => None,
    }
}

/// Finds the configured device, or says why the session cannot start: the
/// configured text is no address, or no peripheral advertises it.
pub fn locate_device(mac: &str, candidates: &Vec<Option<HardwareAddress>>) -> (r: Result<
    usize,
    SessionError,
>)
    ensures
        match address_of(mac.spec_bytes()) {
            Some(target) => match r {
                Ok(i) => first_advertising(target, candidates@, i as int),
                Err(e) => e == SessionError::DeviceNotFound && none_advertising(
                    target,
                    candidates@,
                ),
            },
            None => r == Err::<usize, SessionError>(SessionError::InvalidAddress),
        },
{
    match HardwareAddress::parse(mac) {
        Some(target) => match find_device(&target, candidates) {
            Some(i) => Ok(i),
            None => Err(SessionError::DeviceNotFound),
        },
        None => Err(SessionError::InvalidAddress),
    }
}

} // verus!
