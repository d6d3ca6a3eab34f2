//! Base-58 and JSON, as the `bs58` and `serde_json` crates implement them.
//!
//! Nothing here is proved. Each function below makes one call into an outside
//! crate. Its contract gives the call's result a name and, beside the name,
//! says of the result what the crate's source shows.

use crate::batch::KeyEntry;
use crate::text::byte_array_text;
use vstd::prelude::*;

verus! {

/// The base-58 text of `bytes` in the Bitcoin alphabet, as `bs58::encode`
/// writes it.
pub uninterp spec fn base58_text(bytes: Seq<u8>) -> Seq<char>;

/// The bytes that `bs58::decode` reads from `text`, or `None` where it
/// rejects the text.
pub uninterp spec fn base58_bytes(text: Seq<char>) -> Option<Seq<u8>>;

/// The bytes that `serde_json::from_str` reads from `text` as an array of
/// integers from 0 to 255, or `None` where it rejects the text.
pub uninterp spec fn json_bytes(text: Seq<char>) -> Option<Seq<u8>>;

/// Whether `c` is one of the 58 characters of the Bitcoin alphabet: the
/// digits without `0`, the capital letters without `I` and `O`, and the small
/// letters without `l`.
pub open spec fn is_base58_char(c: char) -> bool {
    ||| '1' <= c <= '9'
    ||| 'A' <= c <= 'H'
    ||| 'J' <= c <= 'N'
    ||| 'P' <= c <= 'Z'
    ||| 'a' <= c <= 'k'
    ||| 'm' <= c <= 'z'
}

/// Calls `bs58::encode(..).into_string()`, through the re-export of the
/// Solana SDK. Assumed: the result depends on the bytes alone, and every
/// character of it is taken from the Bitcoin alphabet, which is the crate's
/// default.
#[verifier::external_body]
pub(crate) fn base58_encode(bytes: &[u8]) -> (text: String)
    ensures
        text@ == base58_text(bytes@),
        forall|i: int| 0 <= i < text@.len() ==> is_base58_char(#[trigger] text@[i]),
{
    solana_sdk::bs58::encode(bytes).into_string()
}

/// Calls `bs58::decode(..).into_vec()`, through the re-export of the Solana
/// SDK. Assumed: whether the text is read, and as which bytes, depends on the
/// text alone; and the text that `bs58::encode` writes for some bytes is read
/// as those bytes. The decoder undoes the encoder step by step: it counts the
/// leading `1`s that stand for leading zero bytes and turns the digits of
/// base 58 back into the same number in base 256.
#[verifier::external_body]
pub(crate) fn base58_decode(text: &str) -> (decoded: Option<Vec<u8>>)
    ensures
        match decoded {
            Some(bytes) => base58_bytes(text@) == Some(bytes@),
            None => base58_bytes(text@) is None,
        },
        forall|bytes: Seq<u8>| #[trigger]
            base58_text(bytes) == text@ ==> decoded is Some && decoded->0@ == bytes,
{
    match solana_sdk::bs58::decode(text).into_vec() {
        Ok(bytes) => Some(bytes),
        Err(_) => None,
    }
}

/// Calls `serde_json::from_str::<Vec<u8>>`. Assumed: whether the text is
/// read, and as which bytes, depends on the text alone; and byte-array text,
/// which is a JSON array of numbers from 0 to 255 in plain decimal notation,
/// is read as the bytes that it writes.
#[verifier::external_body]
pub(crate) fn json_decode(text: &str) -> (decoded: Option<Vec<u8>>)
    ensures
        match decoded {
            Some(bytes) => json_bytes(text@) == Some(bytes@),
            None => json_bytes(text@) is None,
        },
        forall|bytes: Seq<u8>| #[trigger]
            byte_array_text(bytes) == text@ ==> decoded is Some && decoded->0@ == bytes,
{
    match serde_json::from_str::<Vec<u8>>(text) {
        Ok(bytes) => Some(bytes),
        Err(_) => None,
    }
}

/// The text that `serde_json::to_string` writes for the JSON object whose
/// member names are `names` and whose member values, all of them strings, are
/// `values`, position by position, with the members in the order of their
/// names. Where a name stands at two positions, the later value is written.
pub uninterp spec fn json_object_text(names: Seq<Seq<char>>, values: Seq<Seq<char>>) -> Seq<char>;

/// Calls `serde_json::to_string` on a map, ordered by key, from each entry's
/// public text to its private text; the map is filled in the order of the
/// entries. Assumed: a text is always written, and it depends on the entries
/// alone. The documentation of `to_string` gives two
/// causes of failure, a `Serialize` impl that fails and a map whose keys are
/// no strings; a map from strings to strings has neither.
#[verifier::external_body]
pub(crate) fn entries_json(entries: &Vec<KeyEntry>) -> (json: Option<String>)
    ensures
        json is Some,
        json matches Some(text) ==> text@ == json_object_text(
            Seq::new(entries@.len(), |i: int| entries@[i].public@),
            Seq::new(entries@.len(), |i: int| entries@[i].private@),
        ),
{
    let map: std::collections::BTreeMap<&str, &str> = entries.iter().map(
        |entry| (entry.public.as_str(), entry.private.as_str()),
    ).collect();
    serde_json::to_string(&map).ok()
}

} // verus!
