//! The text form of a hardware address: six octets in hexadecimal, set
//! apart by colons, as in `C2:7A:75:27:F7:3E`.
//!
//! Each octet is written with one or more hexadecimal digits of either
//! case, which may follow a plus sign, and must not exceed 255.

use vstd::prelude::*;

verus! {

/// The colon that sets two octets apart.
pub const COLON: u8 = 0x3a;

/// The plus sign that may stand before the digits of an octet.
pub const PLUS: u8 = 0x2b;

/// Number of octets of a hardware address.
pub const OCTETS: usize = 6;

/// The value of a hexadecimal digit.
pub open spec fn hex_value(b: u8) -> Option<int> {
    if 0x30 <= b <= 0x39 {
        Some(b - 0x30)
    } else if 0x61 <= b <= 0x66 {
        Some(b - 0x61 + 10)
    } else if 0x41 <= b <= 0x46 {
        Some(b - 0x41 + 10)
    } else {
        None
    }
}

/// Whether every one of `digits` is a hexadecimal digit.
pub open spec fn all_hex(digits: Seq<u8>) -> bool {
    forall|i: int| 0 <= i < digits.len() ==> hex_value(#[trigger] digits[i]) is Some
}

/// The number that hexadecimal `digits` stand for.
pub open spec fn hex_number(digits: Seq<u8>) -> int
    decreases digits.len(),
{
    if digits.len() == 0 {
        0
    } else {
        hex_number(digits.drop_last()) * 16 + match hex_value(digits.last()) {
            Some(v) => v,
            None => 0,
        }
    }
}

/// The digits of one part of an address: the part without its plus sign.
pub open spec fn digits_of(part: Seq<u8>) -> Seq<u8> {
    if part.len() > 0 && part[0] == PLUS {
        part.skip(1)
    } else {
        part
    }
}

/// The octet that one part of an address stands for, if it stands for one.
pub open spec fn octet_of(part: Seq<u8>) -> Option<u8> {
    let digits = digits_of(part);
    if digits.len() > 0 && all_hex(digits) && hex_number(digits) <= 255 {
        Some(hex_number(digits) as u8)
    } else {
        None
    }
}

/// Where the part that starts at `start` ends: at the next colon, or at the
/// end of the text.
pub open spec fn part_end(text: Seq<u8>, start: int) -> int
    decreases text.len() - start,
{
    if start < 0 || start >= text.len() {
        text.len() as int
    } else if text[start] == COLON {
        start
    } else {
        part_end(text, start + 1)
    }
}

/// The octets of the `n` parts that make up the text from `start` to its
/// end, if it is made up of exactly `n` parts that each stand for an octet.
pub open spec fn octets_from(text: Seq<u8>, start: int, n: nat) -> Option<Seq<u8>>
    decreases n,
{
    if n == 0 || start < 0 || start > text.len() {
        None
    } else {
        let end = part_end(text, start);
        match octet_of(text.subrange(start, end)) {
            None => None,
            Some(octet) => if n == 1 {
                if end == text.len() {
                    Some(seq![octet])
                } else {
                    None
                }
            } else if end < text.len() {
                match octets_from(text, end + 1, (n - 1) as nat) {
                    Some(rest) => Some(seq![octet] + rest),
                    None => None,
                }
            } else {
                None
            },
        }
    }
}

/// The six octets that a text stands for, if it is a hardware address.
pub open spec fn address_of(text: Seq<u8>) -> Option<Seq<u8>> {
    octets_from(text, 0, OCTETS as nat)
}

/// The part that starts at `start` ends within the text, at a colon or at
/// the end, and holds no colon.
pub proof fn lemma_part_end(text: Seq<u8>, start: int)
    requires
        0 <= start <= text.len(),
    ensures
        start <= part_end(text, start) <= text.len(),
        part_end(text, start) < text.len() ==> text[part_end(text, start)] == COLON,
        forall|j: int| start <= j < part_end(text, start) ==> text[j] != COLON,
    decreases text.len() - start,
{
    if start < text.len() && text[start] != COLON {
        lemma_part_end(text, start + 1);
    }
}

/// Reads the value of a hexadecimal digit.
pub fn hex_digit(b: u8) -> (r: Option<u8>)
    ensures
        match r {
            Some(v) => hex_value(b) == Some(v as int),
            None => hex_value(b) is None,
        },
{
    if 0x30 <= b && b <= 0x39 {
        Some(b - 0x30)
    } else if 0x61 <= b && b <= 0x66 {
        Some(b - 0x61 + 10)
    } else if 0x41 <= b && b <= 0x46 {
        Some(b - 0x41 + 10)
    } else {
        None
    }
}

/// Reads the part of `text` that starts at `start`. Returns where the part
/// ends and the octet that it stands for, if it stands for one.
pub fn parse_octet(text: &[u8], start: usize) -> (r: (usize, Option<u8>))
    requires
        start <= text.len(),
    ensures
        r.0 == part_end(text@, start as int),
        r.1 == octet_of(text@.subrange(start as int, r.0 as int)),
{
    let n = text.len();
    let first: usize = if start < n && text[start] == PLUS {
        start + 1
    } else {
        start
    };
    proof {
        if first > start {
            assert(part_end(text@, start as int) == part_end(text@, first as int));
        }
    }
    let mut i: usize = first;
    let mut value: u32 = 0;
    let mut well_formed: bool = true;
    let ghost mut bad: int = 0;
    while i < n && text[i] != COLON
        invariant
            start <= first <= i <= n,
            n == text@.len(),
            first == start || (first == start + 1 && text@[start as int] == PLUS),
            first == start ==> (start == n || text@[start as int] != PLUS),
            part_end(text@, start as int) == part_end(text@, i as int),
            well_formed ==> all_hex(text@.subrange(first as int, i as int)),
            well_formed ==> hex_number(text@.subrange(first as int, i as int)) == value,
            well_formed ==> value <= 255,
            !well_formed ==> {
                ||| (first <= bad < i && hex_value(text@[bad]) is None)
                ||| (first <= bad <= i && all_hex(text@.subrange(first as int, bad)) && hex_number(
                    text@.subrange(first as int, bad),
                ) > 255)
            },
        decreases n - i,
    {
        let ghost before = text@.subrange(first as int, i as int);
        let ghost after = text@.subrange(first as int, i as int + 1);
        proof {
            assert(after.drop_last() =~= before);
            assert(after.last() == text@[i as int]);
        }
        if well_formed {
            match hex_digit(text[i]) {
                Some(v) => {
                    let next: u32 = value * 16 + v as u32;
                    proof {
                        assert forall|j: int| 0 <= j < after.len() implies hex_value(
                            #[trigger] after[j],
                        ) is Some by {
                            if j < before.len() {
                                assert(after[j] == before[j]);
                            }
                        }
                    }
                    if next > 255 {
                        well_formed = false;
                        proof {
                            bad = i as int + 1;
                        }
                    } else {
                        value = next;
                    }
                },
                None => {
                    well_formed = false;
                    proof {
                        bad = i as int;
                    }
                },
            }
        }
        i = i + 1;
    }
    proof {
        let part = text@.subrange(start as int, i as int);
        let digits = text@.subrange(first as int, i as int);
        if first == start {
            assert(digits_of(part) =~= digits) by {
                if part.len() > 0 {
                    assert(part[0] == text@[start as int]);
                }
            }
        } else {
            assert(part[0] == text@[start as int]);
            assert(digits_of(part) =~= digits);
        }
        if !well_formed {
            if first <= bad < i && hex_value(text@[bad]) is None {
                assert(digits[bad - first] == text@[bad]);
            } else {
                lemma_hex_number_grows(digits, bad - first);
                assert(digits.take(bad - first) =~= text@.subrange(first as int, bad));
            }
        }
    }
    if well_formed && i > first {
        (i, Some(value as u8))
    } else {
        (i, None)
    }
}

/// More digits never make a hexadecimal number smaller.
pub proof fn lemma_hex_number_grows(digits: Seq<u8>, k: int)
    requires
        0 <= k <= digits.len(),
    ensures
        hex_number(digits.take(k)) <= hex_number(digits),
        0 <= hex_number(digits),
    decreases digits.len(),
{
    if digits.len() > 0 {
        lemma_hex_number_grows(digits.drop_last(), 0);
        if k < digits.len() {
            lemma_hex_number_grows(digits.drop_last(), k);
            assert(digits.drop_last().take(k) =~= digits.take(k));
        } else {
            assert(digits.take(k) =~= digits);
        }
    } else {
        assert(digits.take(k) =~= digits);
    }
}

/// Reads a hardware address from its text. The text must hold exactly six
/// parts set apart by colons, each standing for an octet.
pub fn parse_address(text: &[u8]) -> (r: Option<[u8; 6]>)
    ensures
        match r {
            Some(octets) => address_of(text@) == Some(octets@),
            None => address_of(text@) is None,
        },
{
    let mut octets: [u8; 6] = [0, 0, 0, 0, 0, 0];
    let mut start: usize = 0;
    let mut k: usize = 0;
    let ghost mut done: Seq<u8> = Seq::empty();
    while k < OCTETS
        invariant
            k <= OCTETS,
            start <= text@.len(),
            done.len() == k,
            forall|j: int| 0 <= j < k ==> octets@[j] == done[j],
            address_of(text@) == match octets_from(text@, start as int, (OCTETS - k) as nat) {
                Some(rest) => Some(done + rest),
                None => None,
            },
        decreases OCTETS - k,
    {
        let (end, octet) = parse_octet(text, start);
        proof {
            lemma_part_end(text@, start as int);
        }
        let value = match octet {
            Some(value) => value,
            None => {
                return None;
            },
        };
        octets[k] = value;
        if k + 1 == OCTETS {
            if end == text.len() {
                proof {
                    assert(done + seq![value] =~= octets@);
                }
                return Some(octets);
            } else {
                return None;
            }
        }
        if end >= text.len() {
            return None;
        }
        proof {
            let rest_n = (OCTETS - k - 1) as nat;
            match octets_from(text@, end as int + 1, rest_n) {
                Some(rest) => {
                    assert(done + (seq![value] + rest) =~= done.push(value) + rest);
                },
                None => {},
            }
            done = done.push(value);
        }
        start = end + 1;
        k = k + 1;
    }
    None
}

} // verus!
