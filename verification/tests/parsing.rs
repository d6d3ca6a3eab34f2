use mb_solana::account::{
    begins_with_bracket, generate_keypair, keypair_bytes_to_string, keypair_from_decoded,
    keypair_from_str,
};

const RFC_KEYPAIR: [u8; 64] = [
    157, 97, 177, 157, 239, 253, 90, 96, 186, 132, 74, 244, 146, 236, 44, 196, 68, 73, 197, 105,
    123, 50, 105, 25, 112, 59, 172, 3, 28, 174, 127, 96, 215, 90, 152, 1, 130, 177, 10, 183, 213,
    75, 254, 211, 201, 100, 7, 58, 14, 225, 114, 243, 218, 166, 35, 37, 175, 2, 26, 104, 247, 7,
    81, 26,
];

const RFC_KEYPAIR_ARRAY: &str = "[157,97,177,157,239,253,90,96,186,132,74,244,146,236,44,196,68,\
73,197,105,123,50,105,25,112,59,172,3,28,174,127,96,215,90,152,1,130,177,10,183,213,75,254,211,\
201,100,7,58,14,225,114,243,218,166,35,37,175,2,26,104,247,7,81,26]";

const RFC_KEYPAIR_BASE58: &str =
    "49W385L4rePHy6PAaQUovbD2aacgN4HsKXSMeUzRg4fmwXszN91JuMFrQRj3vMDpZuRF3ZknQBuRBoWQJEfXstMw";

#[test]
fn bracket_is_found_only_at_the_start() {
    assert!(begins_with_bracket("["));
    assert!(begins_with_bracket("[1,2]"));
    assert!(begins_with_bracket("[abc"));
    assert!(!begins_with_bracket(""));
    assert!(!begins_with_bracket(" [1,2]"));
    assert!(!begins_with_bracket("1[2]"));
    assert!(!begins_with_bracket("]"));
    assert!(!begins_with_bracket("é["));
}

#[test]
fn array_text_is_parsed() {
    let keypair = keypair_from_str(RFC_KEYPAIR_ARRAY).unwrap();
    assert_eq!(keypair.to_bytes(), RFC_KEYPAIR);
}

#[test]
fn base58_text_is_parsed() {
    let keypair = keypair_from_str(RFC_KEYPAIR_BASE58).unwrap();
    assert_eq!(keypair.to_bytes(), RFC_KEYPAIR);
}

#[test]
fn array_text_round_trip() {
    let keypair = keypair_from_str(RFC_KEYPAIR_BASE58).unwrap();
    let text = keypair_bytes_to_string(keypair.to_bytes());
    assert_eq!(text, RFC_KEYPAIR_ARRAY);
    let again = keypair_from_str(&text).unwrap();
    assert_eq!(again.to_bytes(), keypair.to_bytes());
}

#[test]
fn base58_round_trip() {
    let keypair = keypair_from_str(RFC_KEYPAIR_ARRAY).unwrap();
    let text = keypair.to_base58_string();
    assert_eq!(text, RFC_KEYPAIR_BASE58);
    let again = keypair_from_str(&text).unwrap();
    assert_eq!(again.to_bytes(), keypair.to_bytes());
}

#[test]
fn round_trip_of_fresh_keypairs() {
    for _ in 0..3 {
        let keypair = generate_keypair();
        let from_array = keypair_from_str(&keypair_bytes_to_string(keypair.to_bytes())).unwrap();
        assert_eq!(from_array.to_bytes(), keypair.to_bytes());
        assert_eq!(from_array.pubkey(), keypair.pubkey());
        let from_base58 = keypair_from_str(&keypair.to_base58_string()).unwrap();
        assert_eq!(from_base58.to_bytes(), keypair.to_bytes());
        assert_eq!(from_base58.pubkey(), keypair.pubkey());
    }
}

#[test]
fn array_text_with_white_space_is_json_too() {
    let spaced = RFC_KEYPAIR_ARRAY.replace(",", ", ");
    let keypair = keypair_from_str(&spaced).unwrap();
    assert_eq!(keypair.to_bytes(), RFC_KEYPAIR);
    let trailing = format!("{}\n", RFC_KEYPAIR_ARRAY);
    assert!(keypair_from_str(&trailing).is_some());
}

#[test]
fn text_with_leading_white_space_is_not_an_array() {
    // Without a bracket in front the text goes to the base-58 reader, which
    // knows no space.
    let text = format!(" {}", RFC_KEYPAIR_ARRAY);
    assert!(keypair_from_str(&text).is_none());
}

#[test]
fn bracketed_text_is_never_read_as_base58() {
    // "he11owor1d" is base 58; behind a bracket it is only bad JSON.
    assert!(keypair_from_str("[he11owor1d").is_none());
    let text = format!("[{}", RFC_KEYPAIR_BASE58);
    assert!(keypair_from_str(&text).is_none());
}

#[test]
fn text_without_bracket_is_never_read_as_an_array() {
    let text = &RFC_KEYPAIR_ARRAY[1..];
    assert!(keypair_from_str(text).is_none());
    assert!(keypair_from_str("1,2,3").is_none());
}

#[test]
fn malformed_arrays_are_rejected() {
    assert!(keypair_from_str("[").is_none());
    assert!(keypair_from_str("[]").is_none());
    assert!(keypair_from_str("[1,2,3]").is_none());
    assert!(keypair_from_str("[1,2,").is_none());
    let unclosed = &RFC_KEYPAIR_ARRAY[..RFC_KEYPAIR_ARRAY.len() - 1];
    assert!(keypair_from_str(unclosed).is_none());
    let trailing = format!("{}x", RFC_KEYPAIR_ARRAY);
    assert!(keypair_from_str(&trailing).is_none());
}

#[test]
fn array_values_above_255_are_rejected() {
    let text = RFC_KEYPAIR_ARRAY.replacen("[157,", "[413,", 1);
    assert!(keypair_from_str(&text).is_none());
    let negative = RFC_KEYPAIR_ARRAY.replacen("[157,", "[-157,", 1);
    assert!(keypair_from_str(&negative).is_none());
    let fraction = RFC_KEYPAIR_ARRAY.replacen("[157,", "[157.0,", 1);
    assert!(keypair_from_str(&fraction).is_none());
}

#[test]
fn arrays_of_the_wrong_length_are_rejected() {
    let short = RFC_KEYPAIR_ARRAY.replacen("[157,", "[", 1);
    assert!(keypair_from_str(&short).is_none());
    let long = RFC_KEYPAIR_ARRAY.replacen("[157,", "[157,157,", 1);
    assert!(keypair_from_str(&long).is_none());
}

#[test]
fn inconsistent_keypairs_are_rejected() {
    let array = RFC_KEYPAIR_ARRAY.replacen("[157,", "[156,", 1);
    assert!(keypair_from_str(&array).is_none());
    let zeros = keypair_bytes_to_string([0u8; 64]);
    assert!(keypair_from_str(&zeros).is_none());
    // 64 zero bytes in base 58.
    let ones = "1".repeat(64);
    assert!(keypair_from_str(&ones).is_none());
}

#[test]
fn malformed_base58_is_rejected() {
    assert!(keypair_from_str("").is_none());
    assert!(keypair_from_str("0OIl").is_none());
    assert!(keypair_from_str("hello world").is_none());
    assert!(keypair_from_str("he11owor1d").is_none());
    let changed = RFC_KEYPAIR_BASE58.replacen("49W", "49X", 1);
    assert!(keypair_from_str(&changed).is_none());
    let truncated = &RFC_KEYPAIR_BASE58[..RFC_KEYPAIR_BASE58.len() - 1];
    assert!(keypair_from_str(truncated).is_none());
}

#[test]
fn decoded_bytes_become_a_keypair_only_if_consistent() {
    assert!(keypair_from_decoded(None).is_none());
    assert!(keypair_from_decoded(Some(vec![])).is_none());
    assert!(keypair_from_decoded(Some(vec![1, 2, 3])).is_none());
    assert!(keypair_from_decoded(Some(vec![0u8; 64])).is_none());
    let keypair = keypair_from_decoded(Some(RFC_KEYPAIR.to_vec())).unwrap();
    assert_eq!(keypair.to_bytes(), RFC_KEYPAIR);
}
