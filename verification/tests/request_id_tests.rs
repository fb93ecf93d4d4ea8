use request_tracing::RequestId;
use request_tracing::generate_request_id;

#[test]
fn canonical_of_zero() {
    let id = RequestId::from_value(0);
    assert_eq!(id.to_canonical(), "00000000-0000-0000-0000-000000000000");
}

#[test]
fn canonical_of_known_value() {
    let id = RequestId::from_value(0x0123_4567_89ab_cdef_0123_4567_89ab_cdef);
    assert_eq!(id.to_canonical(), "01234567-89ab-cdef-0123-456789abcdef");
}

#[test]
fn canonical_of_max() {
    let id = RequestId::from_value(u128::MAX);
    assert_eq!(id.to_canonical(), "ffffffff-ffff-ffff-ffff-ffffffffffff");
}

#[test]
fn parse_accepts_exact_canonical() {
    let parsed = RequestId::parse_canonical("01234567-89ab-cdef-0123-456789abcdef").unwrap();
    assert_eq!(parsed.value(), 0x0123_4567_89ab_cdef_0123_4567_89ab_cdef);
}

#[test]
fn parse_round_trip() {
    let id = RequestId::from_value(0xdead_beef_0000_1111_2222_3333_4444_5555);
    let parsed = RequestId::parse_canonical(&id.to_canonical()).unwrap();
    assert_eq!(parsed.value(), id.value());
}

#[test]
fn parse_round_trip_of_generated() {
    let id = RequestId::generate();
    let parsed = RequestId::parse_canonical(&id.to_canonical()).unwrap();
    assert_eq!(parsed.value(), id.value());
}

#[test]
fn parse_rejects_wrong_length() {
    assert!(RequestId::parse_canonical("").is_none());
    assert!(RequestId::parse_canonical("abc").is_none());
    assert!(RequestId::parse_canonical("01234567-89ab-cdef-0123-456789abcdef0").is_none());
}

#[test]
fn parse_rejects_uppercase() {
    assert!(RequestId::parse_canonical("01234567-89AB-cdef-0123-456789abcdef").is_none());
}

#[test]
fn parse_rejects_misplaced_hyphen() {
    assert!(RequestId::parse_canonical("01234567x89ab-cdef-0123-456789abcdef").is_none());
}

#[test]
fn parse_rejects_non_hex_digit() {
    assert!(RequestId::parse_canonical("0123456g-89ab-cdef-0123-456789abcdef").is_none());
}

#[test]
fn generated_identifiers_differ() {
    let a = RequestId::generate();
    let b = generate_request_id();
    assert_ne!(a.value(), b.value());
}
