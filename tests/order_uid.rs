use solvers_dto::error::CodecError;
use solvers_dto::order_uid::OrderUid;
use solvers_dto::primitives::{Address, Bytes, B256};

#[test]
fn order_uid_parts() {
    let uid = OrderUid::from_parts(B256::repeat_byte(0x01), Address::repeat_byte(0x02), 123);
    assert_eq!(uid.parts(), (B256::repeat_byte(0x01), Address::repeat_byte(0x02), 123));
}

#[test]
fn order_uid_layout_is_hash_owner_big_endian_expiry() {
    let uid = OrderUid::from_parts(B256::repeat_byte(0xaa), Address::repeat_byte(0xbb), 0x01020304);
    assert_eq!(uid.0.len(), 56);
    assert!(uid.0[..32].iter().all(|b| *b == 0xaa));
    assert!(uid.0[32..52].iter().all(|b| *b == 0xbb));
    assert_eq!(&uid.0[52..], &[1, 2, 3, 4]);
}

#[test]
fn order_uid_round_trips_through_wire_text() {
    let mut owner = [0u8; 20];
    owner[19] = 2;
    let uid = OrderUid::from_parts(B256::repeat_byte(0), Address(owner), 123);
    let text = uid.to_hex();
    assert_eq!(text.len(), 2 + 112);
    assert!(text.starts_with("0x"));
    let expected = format!("0x{}{}020000007b", "00".repeat(32), "00".repeat(19));
    assert_eq!(text, expected);
    let back = OrderUid::from_hex(&text).unwrap();
    assert_eq!(back.parts(), (B256::repeat_byte(0), Address(owner), 123));
}

#[test]
fn order_uid_rejects_wrong_length() {
    let short = format!("0x{}", "00".repeat(55));
    assert_eq!(OrderUid::from_hex(&short), Err(CodecError::MalformedHex));
    let long = format!("0x{}", "00".repeat(57));
    assert_eq!(OrderUid::from_hex(&long), Err(CodecError::MalformedHex));
}

#[test]
fn address_hex_is_lower_case_and_reads_either_case() {
    let a = Address::repeat_byte(0xab);
    assert_eq!(a.to_hex(), format!("0x{}", "ab".repeat(20)));
    let upper = format!("0X{}", "AB".repeat(20));
    assert_eq!(Address::from_hex(&upper), Ok(a));
    let bare = "ab".repeat(20);
    assert_eq!(Address::from_hex(&bare), Ok(a));
}

#[test]
fn hex_rejects_bad_digits_and_odd_length() {
    let bad = format!("0x{}zz", "00".repeat(19));
    assert_eq!(Address::from_hex(&bad), Err(CodecError::MalformedHex));
    assert_eq!(Bytes::from_hex("0x123"), Err(CodecError::MalformedHex));
    assert_eq!(B256::from_hex("0x"), Err(CodecError::MalformedHex));
}

#[test]
fn bytes_round_trip_any_length() {
    assert_eq!(Bytes::from_hex("0x"), Ok(Bytes(vec![])));
    let b = Bytes(vec![0x00, 0x0f, 0xf0, 0xff]);
    assert_eq!(b.to_hex(), "0x000ff0ff");
    assert_eq!(Bytes::from_hex(&b.to_hex()), Ok(b));
}

#[test]
fn address_sameness() {
    let a = Address::repeat_byte(1);
    let mut other = [1u8; 20];
    other[19] = 2;
    assert!(a.same(&Address::repeat_byte(1)));
    assert!(!a.same(&Address(other)));
}
