use mb_solana::account::keypair_bytes_to_string;
use mb_solana::text::{bytes_to_string, push_decimal};

fn decimal(b: u8) -> String {
    let mut out = String::new();
    push_decimal(&mut out, b);
    out
}

#[test]
fn decimal_of_one_digit() {
    assert_eq!(decimal(0), "0");
    assert_eq!(decimal(7), "7");
    assert_eq!(decimal(9), "9");
}

#[test]
fn decimal_of_two_digits() {
    assert_eq!(decimal(10), "10");
    assert_eq!(decimal(42), "42");
    assert_eq!(decimal(99), "99");
}

#[test]
fn decimal_of_three_digits() {
    assert_eq!(decimal(100), "100");
    assert_eq!(decimal(101), "101");
    assert_eq!(decimal(110), "110");
    assert_eq!(decimal(200), "200");
    assert_eq!(decimal(255), "255");
}

#[test]
fn decimal_of_every_byte_is_the_standard_notation() {
    for b in 0..=255u8 {
        assert_eq!(decimal(b), format!("{}", b));
    }
}

#[test]
fn decimal_is_appended_to_what_is_there() {
    let mut out = String::from("x=");
    push_decimal(&mut out, 205);
    assert_eq!(out, "x=205");
}

#[test]
fn empty_bytes_give_empty_brackets() {
    assert_eq!(bytes_to_string(&[]), "[]");
}

#[test]
fn one_byte_has_no_comma() {
    assert_eq!(bytes_to_string(&[0]), "[0]");
    assert_eq!(bytes_to_string(&[255]), "[255]");
}

#[test]
fn bytes_are_separated_by_commas_without_spaces() {
    assert_eq!(bytes_to_string(&[1, 2, 3]), "[1,2,3]");
    assert_eq!(bytes_to_string(&[0, 10, 100, 255, 9]), "[0,10,100,255,9]");
}

#[test]
fn byte_array_text_of_zero_bytes() {
    let text = keypair_bytes_to_string([0u8; 64]);
    let mut expected = String::from("[");
    for i in 0..64 {
        if i > 0 {
            expected.push(',');
        }
        expected.push('0');
    }
    expected.push(']');
    assert_eq!(text, expected);
}

#[test]
fn byte_array_text_of_a_keypair() {
    let mut bytes = [0u8; 64];
    for i in 0..64 {
        bytes[i] = (i * 4 + 3) as u8;
    }
    let expected = "[3,7,11,15,19,23,27,31,35,39,43,47,51,55,59,63,67,71,75,79,83,87,91,95,99,\
103,107,111,115,119,123,127,131,135,139,143,147,151,155,159,163,167,171,175,179,183,187,191,\
195,199,203,207,211,215,219,223,227,231,235,239,243,247,251,255]";
    assert_eq!(keypair_bytes_to_string(bytes), expected);
}

#[test]
fn byte_array_text_is_what_the_json_writer_gives() {
    let mut bytes = [0u8; 64];
    for i in 0..64 {
        bytes[i] = (i * 37 % 256) as u8;
    }
    let expected = serde_json::to_string(&bytes.to_vec()).unwrap();
    assert_eq!(keypair_bytes_to_string(bytes), expected);
}
