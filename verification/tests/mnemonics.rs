use mb_solana::error::KeyError;
use mb_solana::mnemonic::{derive_seed, generate_mnemonic, parse_mnemonic, FRESH_WORDS};

const TWELVE: &str =
    "abandon abandon abandon abandon abandon abandon abandon abandon abandon abandon abandon about";

const TWENTY_FOUR: &str = "abandon abandon abandon abandon abandon abandon abandon abandon \
abandon abandon abandon abandon abandon abandon abandon abandon abandon abandon abandon abandon \
abandon abandon abandon art";

fn hex(bytes: &[u8]) -> String {
    let mut out = String::new();
    for b in bytes {
        out.push_str(&format!("{:02x}", b));
    }
    out
}

fn reason(result: Result<mb_solana::mnemonic::Mnemonic, KeyError>) -> String {
    match result {
        Err(KeyError::InvalidMnemonic { reason }) => reason,
        other => panic!("expected InvalidMnemonic, got {:?}", other),
    }
}

#[test]
fn valid_phrases_are_accepted() {
    assert_eq!(parse_mnemonic(TWELVE).unwrap().phrase(), TWELVE);
    assert_eq!(parse_mnemonic(TWENTY_FOUR).unwrap().phrase(), TWENTY_FOUR);
}

#[test]
fn phrase_of_23_words_is_rejected() {
    let phrase = TWENTY_FOUR.replacen("abandon ", "", 1);
    assert_eq!(phrase.split(' ').count(), 23);
    assert_eq!(reason(parse_mnemonic(&phrase)), "invalid number of words in phrase: 23");
}

#[test]
fn word_outside_the_wordlist_is_rejected() {
    let phrase = TWENTY_FOUR.replacen("abandon", "abandonn", 1);
    assert_eq!(reason(parse_mnemonic(&phrase)), "invalid word in phrase");
    let phrase = TWELVE.replacen("about", "solana", 1);
    assert_eq!(reason(parse_mnemonic(&phrase)), "invalid word in phrase");
}

#[test]
fn wrong_checksum_is_rejected() {
    // All words are in the list and their number is right; "art" carries the
    // checksum, and "ask" differs from it in the checksum bits alone.
    let phrase = TWENTY_FOUR.replacen("art", "ask", 1);
    assert_eq!(reason(parse_mnemonic(&phrase)), "invalid checksum");
    let twelve = TWELVE.replacen("about", "abandon", 1);
    assert_eq!(reason(parse_mnemonic(&twelve)), "invalid checksum");
}

#[test]
fn empty_phrase_is_rejected() {
    assert!(matches!(parse_mnemonic(""), Err(KeyError::InvalidMnemonic { .. })));
}

#[test]
fn message_of_a_rejected_phrase_is_the_reason() {
    let error = parse_mnemonic("abandon").unwrap_err();
    assert_eq!(error.message(), "invalid number of words in phrase: 1");
}

#[test]
fn seed_of_a_known_phrase() {
    let mnemonic = parse_mnemonic(TWELVE).unwrap();
    let seed = derive_seed(&mnemonic, "");
    assert_eq!(seed.as_bytes().len(), 64);
    assert_eq!(
        hex(seed.as_bytes()),
        "5eb00bbddcf069084889a8ab9155568165f5c453ccb85e70811aaed6f6da5fc1\
9a5ac40b389cd370d086206dec8aa6c43daea6690f20ad3d8d48b2d2ce9e38e4"
    );
}

#[test]
fn seed_depends_on_the_passphrase() {
    let mnemonic = parse_mnemonic(TWELVE).unwrap();
    let seed = derive_seed(&mnemonic, "TREZOR");
    assert_eq!(
        hex(seed.as_bytes()),
        "c55257c360c07c72029aebc1b53c05ed0362ada38ead3e3e9efa3708e5349553\
1f09a6987599d18264c1e1c92f2cf141630c7a3c4ab7c81b2f001698e7463b04"
    );
}

#[test]
fn seed_of_24_words() {
    let mnemonic = parse_mnemonic(TWENTY_FOUR).unwrap();
    let seed = derive_seed(&mnemonic, "");
    assert_eq!(
        hex(seed.as_bytes()),
        "408b285c123836004f4b8842c89324c1f01382450c0d439af345ba7fc49acf70\
5489c6fc77dbd4e3dc1dd8cc6bc9f043db8ada1e243c4a0eafb290d399480840"
    );
}

#[test]
fn seed_is_the_same_on_every_call() {
    let first = parse_mnemonic(TWENTY_FOUR).unwrap();
    let second = parse_mnemonic(TWENTY_FOUR).unwrap();
    assert_eq!(derive_seed(&first, "salt").as_bytes(), derive_seed(&first, "salt").as_bytes());
    assert_eq!(derive_seed(&first, "salt").as_bytes(), derive_seed(&second, "salt").as_bytes());
    assert_ne!(derive_seed(&first, "salt").as_bytes(), derive_seed(&first, "pepper").as_bytes());
}

#[test]
fn white_space_between_words_does_not_change_the_seed() {
    let spaced = TWELVE.replace(" ", "  ");
    let plain = parse_mnemonic(TWELVE).unwrap();
    let wide = parse_mnemonic(&spaced).unwrap();
    assert_eq!(wide.phrase(), spaced);
    assert_eq!(derive_seed(&plain, "").as_bytes(), derive_seed(&wide, "").as_bytes());
}

#[test]
fn fresh_mnemonic_has_24_words() {
    assert_eq!(FRESH_WORDS, 24);
    for _ in 0..20 {
        let mnemonic = generate_mnemonic();
        let words: Vec<&str> = mnemonic.phrase().split(' ').collect();
        assert_eq!(words.len(), FRESH_WORDS);
        assert!(words.iter().all(|word| !word.is_empty()));
        assert!(!mnemonic.phrase().contains("  "));
    }
}

#[test]
fn fresh_mnemonic_passes_the_wordlist_check() {
    for _ in 0..20 {
        let mnemonic = generate_mnemonic();
        let again = parse_mnemonic(mnemonic.phrase()).unwrap();
        assert_eq!(again.phrase(), mnemonic.phrase());
    }
}

#[test]
fn fresh_mnemonics_differ() {
    let first = generate_mnemonic();
    let second = generate_mnemonic();
    assert_ne!(first.phrase(), second.phrase());
}

#[test]
fn seed_agrees_with_the_wordlist_library() {
    let mnemonic = generate_mnemonic();
    let theirs = bip39::Mnemonic::from_phrase(mnemonic.phrase(), bip39::Language::English).unwrap();
    let their_seed = bip39::Seed::new(&theirs, "pass phrase");
    assert_eq!(derive_seed(&mnemonic, "pass phrase").as_bytes(), their_seed.as_bytes());
}
