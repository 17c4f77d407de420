use geyser_filter::Identifier;
use solana_program::pubkey::Pubkey;
use std::str::FromStr;

#[test]
fn decode_valid_identifier_round_trips() {
    // 32 ones is the canonical rendering of the all-zero key.
    let s = "11111111111111111111111111111111";
    let id = Identifier::decode(s).expect("valid identifier must decode");
    assert_eq!(id.encode(), s);
}

#[test]
fn decode_arbitrary_key_round_trips() {
    let canonical = Pubkey::new_from_array([7u8; 32]).to_string();
    let id = Identifier::decode(&canonical).expect("valid identifier must decode");
    assert_eq!(id.encode(), canonical);
}

#[test]
fn decode_agrees_with_chain_library() {
    let canonical = Pubkey::new_from_array([42u8; 32]).to_string();
    let id = Identifier::decode(&canonical).expect("valid identifier must decode");
    let expected = Pubkey::from_str(&canonical).unwrap().to_bytes().to_vec();
    assert_eq!(id.as_bytes(), &expected);
    assert_eq!(expected, vec![42u8; 32]);
}

#[test]
fn decode_rejects_wrong_length() {
    // Four ones decode to four zero bytes, not thirty-two.
    assert!(Identifier::decode("1111").is_none());
    assert!(Identifier::decode("").is_none());
}

#[test]
fn decode_rejects_invalid_characters() {
    // '0', 'I', 'O' and 'l' are outside the base58 alphabet.
    assert!(Identifier::decode("0000000000000000000000000000000O").is_none());
    assert!(Identifier::decode("not a key at all").is_none());
}

#[test]
fn identifier_equality_is_byte_for_byte() {
    let a = Identifier::from_bytes(vec![5u8; 32]).unwrap();
    let b = Identifier::from_bytes(vec![5u8; 32]).unwrap();
    let mut other = vec![5u8; 32];
    other[31] = 6;
    let c = Identifier::from_bytes(other).unwrap();
    assert!(a.equals(&b));
    assert!(!a.equals(&c));
}

#[test]
fn from_bytes_demands_the_fixed_size() {
    assert!(Identifier::from_bytes(vec![1u8; 31]).is_none());
    assert!(Identifier::from_bytes(vec![1u8; 33]).is_none());
    assert!(Identifier::from_bytes(vec![1u8; 32]).is_some());
}
