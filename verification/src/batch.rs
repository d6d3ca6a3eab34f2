//! Fresh keypairs in bulk: a table from public key to private key.

use crate::account::{generate_keypair, is_array_text, keypair_bytes_to_string};
use crate::codec::{base58_text, entries_json, json_object_text};
use crate::keypair::Keypair;
use crate::scheme::consistent_keypair;
use crate::text::byte_array_text;
use vstd::prelude::*;

verus! {

/// One line of the table: a public key and the private key that belongs to
/// it, both as text.
#[derive(Debug)]
pub struct KeyEntry {
    pub public: String,
    pub private: String,
}

/// A table from public-key text to private-key text. No public key occurs
/// twice: an entry for a key that is already there takes the place of the
/// earlier one.
#[derive(Debug)]
pub struct KeyTable {
    entries: Vec<KeyEntry>,
}

impl View for KeyTable {
    type V = Map<Seq<char>, Seq<char>>;

    /// The table as a map from public-key text to private-key text.
    closed spec fn view(&self) -> Map<Seq<char>, Seq<char>> {
        Map::new(
            |key: Seq<char>| self.keys().contains(key),
            |key: Seq<char>| self.entries@[self.keys().index_of(key)].private@,
        )
    }
}

impl KeyTable {
    /// The public keys of the entries, in the order in which they are held.
    pub closed spec fn keys(&self) -> Seq<Seq<char>> {
        Seq::new(self.entries@.len(), |i: int| self.entries@[i].public@)
    }

    /// The private keys of the entries, in the order in which they are held.
    pub closed spec fn values(&self) -> Seq<Seq<char>> {
        Seq::new(self.entries@.len(), |i: int| self.entries@[i].private@)
    }

    /// No public key occurs twice.
    #[verifier::type_invariant]
    pub closed spec fn wf(&self) -> bool {
        self.keys().no_duplicates()
    }

    /// The number of entries.
    pub open spec fn count(&self) -> nat {
        self.keys().len()
    }

    /// A table without entries.
    pub fn new() -> (table: KeyTable)
        ensures
            table@ == Map::<Seq<char>, Seq<char>>::empty(),
            table.count() == 0,
    {
        let table = KeyTable { entries: Vec::new() };
        assert(table@ =~= Map::<Seq<char>, Seq<char>>::empty());
        table
    }

    /// The number of entries, which is the number of distinct public keys.
    pub fn len(&self) -> (n: usize)
        ensures
            n == self.count(),
            self@.dom().finite(),
            n == self@.dom().len(),
    {
        proof {
            use_type_invariant(self);
            self.keys().unique_seq_to_set();
            vstd::seq_lib::seq_to_set_is_finite(self.keys());
            assert(self@.dom() =~= self.keys().to_set());
        }
        self.entries.len()
    }

    /// The entry at position `i`.
    pub fn get(&self, i: usize) -> (entry: &KeyEntry)
        requires
            i < self.count(),
        ensures
            entry.public@ == self.keys()[i as int],
            entry.private@ == self.values()[i as int],
            self@.dom().contains(entry.public@),
            self@[entry.public@] == entry.private@,
    {
        proof {
            use_type_invariant(self);
            let key = self.keys()[i as int];
            assert(self.keys().contains(key));
            assert(self.keys().index_of(key) == i);
        }
        &self.entries[i]
    }

    /// The position of the entry for `public`, if there is one.
    fn position(&self, public: &String) -> (found: Option<usize>)
        ensures
            match found {
                Some(i) => i < self.count() && self.keys()[i as int] == public@,
                None => !self.keys().contains(public@),
            },
    {
        let mut i: usize = 0;
        while i < self.entries.len()
            invariant
                i <= self.entries.len(),
                forall|j: int| 0 <= j < i ==> self.keys()[j] != public@,
            decreases self.entries.len() - i,
        {
            if self.entries[i].public == *public {
                return Some(i);
            }
            i = i + 1;
        }
        None
    }

    /// The table with the private key for `public` set to `private`, in place
    /// of an earlier one if the table has one.
    pub fn insert(self, public: String, private: String) -> (table: KeyTable)
        ensures
            table@ == self@.insert(public@, private@),
            table.count() == if self@.dom().contains(public@) {
                self.count()
            } else {
                self.count() + 1
            },
    {
        proof {
            use_type_invariant(&self);
        }
        let ghost key = public@;
        let ghost value = private@;
        let found = self.position(&public);
        let mut entries = self.entries;
        match found {
            Some(i) => {
                entries.set(i, KeyEntry { public, private });
            },
            None => {
                entries.push(KeyEntry { public, private });
            },
        }
        let ghost keys = Seq::new(entries@.len(), |i: int| entries@[i].public@);
        proof {
            match found {
                Some(i) => {
                    assert(keys =~= self.keys());
                },
                None => {
                    assert(keys =~= self.keys().push(key));
                },
            }
        }
        let table = KeyTable { entries };
        proof {
            assert(table.keys() == keys);
            assert forall|k: Seq<char>| #[trigger] table.keys().contains(k) <==> (k == key
                || self.keys().contains(k)) by {
                if table.keys().contains(k) {
                    let j = table.keys().index_of(k);
                    if j < self.keys().len() {
                        assert(self.keys()[j] == k);
                    }
                }
                if self.keys().contains(k) {
                    let j = self.keys().index_of(k);
                    assert(table.keys()[j] == k);
                }
                if k == key {
                    match found {
                        Some(i) => {
                            assert(table.keys()[i as int] == k);
                        },
                        None => {
                            assert(table.keys()[self.keys().len() as int] == k);
                        },
                    }
                }
            }
            assert forall|k: Seq<char>| table.keys().contains(k) implies #[trigger] table@[k]
                == self@.insert(key, value)[k] by {
                let j = table.keys().index_of(k);
                if k != key {
                    assert(self.keys()[j] == k);
                    assert(self.keys().index_of(k) == j);
                }
            }
            assert(table@ =~= self@.insert(key, value));
        }
        table
    }

    /// The table as the text of a JSON object with one member for each entry,
    /// the members in the order of their names. Every table has such a text,
    /// and the text depends on the entries alone.
    pub fn to_json(&self) -> (json: Option<String>)
        ensures
            json matches Some(text) && text@ == json_object_text(self.keys(), self.values()),
    {
        entries_json(&self.entries)
    }
}

/// The text of a keypair's public key: its last 32 bytes in base 58.
pub open spec fn public_key_text(keypair: Seq<u8>) -> Seq<char> {
    base58_text(keypair.subrange(32, 64))
}

/// The text of a keypair's private key: its 64 raw bytes as byte-array text,
/// or in base 58.
pub open spec fn private_key_text(keypair: Seq<u8>, as_array: bool) -> Seq<char> {
    if as_array {
        byte_array_text(keypair)
    } else {
        base58_text(keypair)
    }
}

/// The table of `keypairs`: from the text of each public key to the text of
/// its private key. Where two keypairs have the same public-key text, the
/// later one is kept.
pub open spec fn key_table(keypairs: Seq<Seq<u8>>, as_array: bool) -> Map<Seq<char>, Seq<char>>
    decreases keypairs.len(),
{
    if keypairs.len() == 0 {
        Map::empty()
    } else {
        key_table(keypairs.drop_last(), as_array).insert(
            public_key_text(keypairs.last()),
            private_key_text(keypairs.last(), as_array),
        )
    }
}

/// The public-key texts of `keypairs`, in order.
pub open spec fn public_key_texts(keypairs: Seq<Seq<u8>>) -> Seq<Seq<char>> {
    Seq::new(keypairs.len(), |i: int| public_key_text(keypairs[i]))
}

/// Every entry of the table of `keypairs` holds the two texts of one of them,
/// and the table has no more entries than there are keypairs.
pub proof fn lemma_key_table_entries(keypairs: Seq<Seq<u8>>, as_array: bool)
    ensures
        key_table(keypairs, as_array).dom().finite(),
        key_table(keypairs, as_array).dom().len() <= keypairs.len(),
        forall|public: Seq<char>| #[trigger]
            key_table(keypairs, as_array).dom().contains(public) ==> exists|i: int|
                0 <= i < keypairs.len() && public == public_key_text(#[trigger] keypairs[i])
                    && key_table(keypairs, as_array)[public] == private_key_text(
                    keypairs[i],
                    as_array,
                ),
        forall|i: int|
            0 <= i < keypairs.len() ==> key_table(keypairs, as_array).dom().contains(
                public_key_text(#[trigger] keypairs[i]),
            ),
    decreases keypairs.len(),
{
    if keypairs.len() > 0 {
        let rest = keypairs.drop_last();
        let last = keypairs.last();
        lemma_key_table_entries(rest, as_array);
        let table = key_table(keypairs, as_array);
        assert forall|public: Seq<char>| #[trigger] table.dom().contains(public) implies exists|
            i: int,
        |
            0 <= i < keypairs.len() && public == public_key_text(#[trigger] keypairs[i])
                && table[public] == private_key_text(keypairs[i], as_array) by {
            if public == public_key_text(last) {
                assert(keypairs[keypairs.len() - 1] == last);
            } else {
                assert(key_table(rest, as_array).dom().contains(public));
                let i = choose|i: int|
                    0 <= i < rest.len() && public == public_key_text(#[trigger] rest[i])
                        && key_table(rest, as_array)[public] == private_key_text(
                        rest[i],
                        as_array,
                    );
                assert(keypairs[i] == rest[i]);
            }
        }
        assert forall|i: int| 0 <= i < keypairs.len() implies table.dom().contains(
            public_key_text(#[trigger] keypairs[i]),
        ) by {
            if i < rest.len() {
                assert(keypairs[i] == rest[i]);
            }
        }
    }
}

/// Where no two of `keypairs` have the same public-key text, their table has
/// one entry for each of them.
pub proof fn lemma_key_table_of_distinct_keys(keypairs: Seq<Seq<u8>>, as_array: bool)
    requires
        public_key_texts(keypairs).no_duplicates(),
    ensures
        key_table(keypairs, as_array).dom().finite(),
        key_table(keypairs, as_array).dom().len() == keypairs.len(),
    decreases keypairs.len(),
{
    lemma_key_table_entries(keypairs, as_array);
    if keypairs.len() > 0 {
        let rest = keypairs.drop_last();
        let last = keypairs.last();
        let texts = public_key_texts(keypairs);
        assert forall|i: int, j: int|
            0 <= i < rest.len() && 0 <= j < rest.len() && i != j implies public_key_texts(rest)[i]
            != public_key_texts(rest)[j] by {
            assert(texts[i] == public_key_texts(rest)[i]);
            assert(texts[j] == public_key_texts(rest)[j]);
        }
        lemma_key_table_of_distinct_keys(rest, as_array);
        lemma_key_table_entries(rest, as_array);
        if key_table(rest, as_array).dom().contains(public_key_text(last)) {
            let i = choose|i: int|
                0 <= i < rest.len() && public_key_text(last) == public_key_text(
                    #[trigger] rest[i],
                );
            assert(texts[i] == public_key_text(rest[i]));
            assert(texts[keypairs.len() - 1] == public_key_text(last));
        }
    }
}

/// The text of `keypair`'s private key, as an array or in base 58. The text
/// begins with a bracket in the first form and never in the second, so the
/// form can be told from the text.
pub fn private_key_string(keypair: &Keypair, as_array: bool) -> (text: String)
    ensures
        text@ == private_key_text(keypair@, as_array),
        is_array_text(text@) == as_array,
{
    if as_array {
        let text = keypair_bytes_to_string(keypair.to_bytes());
        assert(text@[0] == '[');
        text
    } else {
        keypair.to_base58_string()
    }
}

/// The table with the entry of `keypair` added: from the text of its public
/// key to the text of its private key.
pub fn add_keypair(table: KeyTable, keypair: &Keypair, as_array: bool) -> (res: KeyTable)
    ensures
        res@ == table@.insert(public_key_text(keypair@), private_key_text(keypair@, as_array)),
{
    let private = private_key_string(keypair, as_array);
    let public = keypair.pubkey();
    table.insert(public, private)
}

/// Generates `limit` fresh keypairs and collects them in a table from public
/// key to private key: the table of some `limit` consistent keypairs. A
/// batch of none is the empty table.
pub fn generate(limit: u16, private_key_as_array: bool) -> (table: KeyTable)
    ensures
        exists|keypairs: Seq<Seq<u8>>|
            {
                &&& keypairs.len() == limit
                &&& forall|i: int|
                    0 <= i < keypairs.len() ==> consistent_keypair(#[trigger] keypairs[i])
                &&& table@ == #[trigger] key_table(keypairs, private_key_as_array)
            },
        limit == 0 ==> table@ == Map::<Seq<char>, Seq<char>>::empty(),
{
    let mut table = KeyTable::new();
    let mut made: u16 = 0;
    let ghost mut keypairs: Seq<Seq<u8>> = Seq::empty();
    while made < limit
        invariant
            made <= limit,
            keypairs.len() == made,
            forall|i: int| 0 <= i < keypairs.len() ==> consistent_keypair(#[trigger] keypairs[i]),
            table@ == key_table(keypairs, private_key_as_array),
        decreases limit - made,
    {
        let keypair = generate_keypair();
        proof {
            use_type_invariant(&keypair);
            assert(keypairs.push(keypair@).drop_last() =~= keypairs);
            keypairs = keypairs.push(keypair@);
        }
        table = add_keypair(table, &keypair, private_key_as_array);
        made = made + 1;
    }
    table
}

} // verus!
