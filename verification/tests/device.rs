use biomon::address::{hex_digit, parse_address, parse_octet};
use biomon::device::{
    choose_adapter, find_device, identify_device, is_device, locate_device, HardwareAddress,
    SCAN_SECONDS,
};
use biomon::error::SessionError;

const MAC: &str = "C2:7A:75:27:F7:3E";
const TARGET: [u8; 6] = [0xC2, 0x7A, 0x75, 0x27, 0xF7, 0x3E];

fn target() -> HardwareAddress {
    HardwareAddress::new(TARGET)
}

fn other() -> HardwareAddress {
    HardwareAddress::new([0xC2, 0x7A, 0x75, 0x27, 0xF7, 0x3F])
}

#[test]
fn address_keeps_its_octets() {
    assert_eq!(target().octets, TARGET);
}

#[test]
fn address_text_is_read_octet_by_octet() {
    assert_eq!(HardwareAddress::parse(MAC), Some(target()));
    assert_eq!(HardwareAddress::parse("c2:7a:75:27:f7:3e"), Some(target()));
    assert_eq!(
        HardwareAddress::parse("00:DE:AD:BE:EF:00"),
        Some(HardwareAddress::new([0x00, 0xDE, 0xAD, 0xBE, 0xEF, 0x00]))
    );
    assert_eq!(
        HardwareAddress::parse("ff:FF:0:1:a:B"),
        Some(HardwareAddress::new([255, 255, 0, 1, 10, 11]))
    );
}

#[test]
fn octets_may_carry_a_plus_sign_and_leading_zeros() {
    assert_eq!(parse_address(b"+1:002:0003:+00ff:5:6"), Some([1, 2, 3, 255, 5, 6]));
    assert_eq!(parse_address(b"0000000000000000000000001:2:3:4:5:6"), Some([1, 2, 3, 4, 5, 6]));
}

#[test]
fn text_with_the_wrong_number_of_octets_is_no_address() {
    assert_eq!(HardwareAddress::parse(""), None);
    assert_eq!(HardwareAddress::parse("C2"), None);
    assert_eq!(HardwareAddress::parse("C2:7A:75:27:F7"), None);
    assert_eq!(HardwareAddress::parse("C2:7A:75:27:F7:3E:00"), None);
    assert_eq!(HardwareAddress::parse("C2:7A:75:27:F7:3E:"), None);
    assert_eq!(HardwareAddress::parse(":C2:7A:75:27:F7:3E"), None);
    assert_eq!(HardwareAddress::parse("C27A7527F73E"), None);
    assert_eq!(HardwareAddress::parse(":::::"), None);
}

#[test]
fn text_with_a_bad_octet_is_no_address() {
    assert_eq!(HardwareAddress::parse("C2:7A:75:27:F7:3G"), None);
    assert_eq!(HardwareAddress::parse("C2:7A::27:F7:3E"), None);
    assert_eq!(HardwareAddress::parse("C2:7A:100:27:F7:3E"), None);
    assert_eq!(HardwareAddress::parse("C2:7A:-1:27:F7:3E"), None);
    assert_eq!(HardwareAddress::parse("C2:7A:+:27:F7:3E"), None);
    assert_eq!(HardwareAddress::parse("C2:7A:++1:27:F7:3E"), None);
    assert_eq!(HardwareAddress::parse("C2:7A:1+:27:F7:3E"), None);
    assert_eq!(HardwareAddress::parse("C2:7A: 75:27:F7:3E"), None);
    assert_eq!(HardwareAddress::parse("C2:7A:75:27:F7:3E "), None);
    assert_eq!(HardwareAddress::parse("C2:7A:7\u{e9}:27:F7:3E"), None);
    assert_eq!(HardwareAddress::parse("C2-7A-75-27-F7-3E"), None);
    assert_eq!(HardwareAddress::parse("C2:7A:75:27:F7:FFFFFFFFFFFFFFFFFFFFFFFFFFFFFFFFFFFFF"), None);
}

#[test]
fn one_part_is_read_up_to_the_colon() {
    assert_eq!(parse_octet(b"C2:7A", 0), (2, Some(0xC2)));
    assert_eq!(parse_octet(b"C2:7A", 3), (5, Some(0x7A)));
    assert_eq!(parse_octet(b"C2:7A", 2), (2, None));
    assert_eq!(parse_octet(b"C2:7A", 5), (5, None));
    assert_eq!(parse_octet(b"xyz:1", 0), (3, None));
    assert_eq!(parse_octet(b"100:1", 0), (3, None));
    assert_eq!(parse_octet(b"100x:1", 0), (4, None));
    assert_eq!(parse_octet(b"+f", 0), (2, Some(15)));
    assert_eq!(parse_octet(b"+", 0), (1, None));
}

#[test]
fn hexadecimal_digits_of_either_case() {
    assert_eq!(hex_digit(b'0'), Some(0));
    assert_eq!(hex_digit(b'9'), Some(9));
    assert_eq!(hex_digit(b'a'), Some(10));
    assert_eq!(hex_digit(b'f'), Some(15));
    assert_eq!(hex_digit(b'A'), Some(10));
    assert_eq!(hex_digit(b'F'), Some(15));
    assert_eq!(hex_digit(b'g'), None);
    assert_eq!(hex_digit(b'G'), None);
    assert_eq!(hex_digit(b'/'), None);
    assert_eq!(hex_digit(b':'), None);
    assert_eq!(hex_digit(b'@'), None);
    assert_eq!(hex_digit(b'`'), None);
}

#[test]
fn parser_agrees_with_hexadecimal_formatting() {
    for a in [0u8, 1, 9, 10, 15, 16, 127, 128, 254, 255] {
        for b in [0u8, 7, 0x3a, 0x2b, 255] {
            let upper = format!("{:02X}:{:02X}:{:02X}:{:02X}:{:02X}:{:02X}", a, b, a, b, a, b);
            let lower = format!("{:x}:{:x}:{:x}:{:x}:{:x}:{:x}", a, b, a, b, a, b);
            assert_eq!(parse_address(upper.as_bytes()), Some([a, b, a, b, a, b]));
            assert_eq!(parse_address(lower.as_bytes()), Some([a, b, a, b, a, b]));
        }
    }
}

#[test]
fn addresses_are_compared_octet_by_octet() {
    assert!(target().same_as(&HardwareAddress::new(TARGET)));
    assert!(!target().same_as(&other()));
    assert!(!target().same_as(&HardwareAddress::new([0xC3, 0x7A, 0x75, 0x27, 0xF7, 0x3E])));
    assert!(!target().same_as(&HardwareAddress::new([0xC2, 0x7A, 0x75, 0x00, 0xF7, 0x3E])));
}

#[test]
fn no_candidates_no_device() {
    assert_eq!(identify_device(MAC, &Vec::new()), None);
}

#[test]
fn candidate_with_the_same_address_is_the_device() {
    assert_eq!(identify_device(MAC, &vec![Some(target())]), Some(0));
}

#[test]
fn candidate_with_another_address_is_not_the_device() {
    assert_eq!(identify_device(MAC, &vec![Some(other())]), None);
}

#[test]
fn address_that_shares_a_prefix_is_not_the_device() {
    let near = HardwareAddress::new([0xC2, 0x7A, 0x75, 0x27, 0xF7, 0x00]);
    assert_eq!(identify_device(MAC, &vec![Some(near)]), None);
    assert_eq!(identify_device("C2:7A:75:27:F7", &vec![Some(target())]), None);
}

#[test]
fn candidates_without_properties_are_skipped() {
    let candidates = vec![None, Some(other()), None, Some(target()), Some(target())];
    assert_eq!(identify_device(MAC, &candidates), Some(3));
    assert_eq!(find_device(&target(), &candidates), Some(3));
    assert_eq!(identify_device(MAC, &vec![None, None]), None);
}

#[test]
fn malformed_target_finds_nothing() {
    assert_eq!(identify_device("not an address", &vec![Some(target())]), None);
    assert_eq!(identify_device("", &Vec::new()), None);
}

#[test]
fn single_candidate_check() {
    assert!(is_device(&target(), &Some(target())));
    assert!(!is_device(&target(), &Some(other())));
    assert!(!is_device(&target(), &None));
}

#[test]
fn locate_tells_the_failures_apart() {
    assert_eq!(locate_device("C2:7A", &vec![Some(target())]), Err(SessionError::InvalidAddress));
    assert_eq!(locate_device(MAC, &Vec::new()), Err(SessionError::DeviceNotFound));
    assert_eq!(
        locate_device(MAC, &vec![Some(other()), None]),
        Err(SessionError::DeviceNotFound)
    );
    assert_eq!(locate_device(MAC, &vec![Some(other()), Some(target())]), Ok(1));
}

#[test]
fn first_adapter_is_taken() {
    assert_eq!(choose_adapter(0), Err(SessionError::AdapterUnavailable));
    assert_eq!(choose_adapter(1), Ok(0));
    assert_eq!(choose_adapter(4), Ok(0));
    assert_eq!(SCAN_SECONDS, 3);
}
