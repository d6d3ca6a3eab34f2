//! The bracketed decimal text of a byte sequence: `[b0,b1,...]`.

use vstd::prelude::*;

verus! {

/// The character that writes the digit `d`, for `d` from 0 to 9.
pub open spec fn digit_char(d: int) -> char {
    if d == 0 {
        '0'
    } else if d == 1 {
        '1'
    } else if d == 2 {
        '2'
    } else if d == 3 {
        '3'
    } else if d == 4 {
        '4'
    } else if d == 5 {
        '5'
    } else if d == 6 {
        '6'
    } else if d == 7 {
        '7'
    } else if d == 8 {
        '8'
    } else {
        '9'
    }
}

/// Whether `c` is one of the ten digits.
pub open spec fn is_digit(c: char) -> bool {
    c == '0' || c == '1' || c == '2' || c == '3' || c == '4' || c == '5' || c == '6' || c == '7'
        || c == '8' || c == '9'
}

/// Whether every character of `text` is a digit.
pub open spec fn all_digits(text: Seq<char>) -> bool {
    forall|i: int| 0 <= i < text.len() ==> is_digit(#[trigger] text[i])
}

/// The decimal notation of `n`, without sign or leading zeros.
pub open spec fn decimal_text(n: nat) -> Seq<char>
    decreases n,
{
    if n < 10 {
        seq![digit_char(n as int)]
    } else {
        decimal_text(n / 10).push(digit_char((n % 10) as int))
    }
}

/// The decimal notations of `bytes`, in order, with a comma between neighbours.
pub open spec fn joined_decimals(bytes: Seq<u8>) -> Seq<char>
    decreases bytes.len(),
{
    if bytes.len() == 0 {
        Seq::empty()
    } else if bytes.len() == 1 {
        decimal_text(bytes[0] as nat)
    } else {
        joined_decimals(bytes.drop_last()) + seq![','] + decimal_text(bytes.last() as nat)
    }
}

/// The byte-array text of `bytes`: an opening bracket, the joined decimals, a
/// closing bracket, and no white space anywhere.
pub open spec fn byte_array_text(bytes: Seq<u8>) -> Seq<char> {
    seq!['['] + joined_decimals(bytes) + seq![']']
}

/// Decimal notation is made of digits, at least one, and begins with a zero
/// only for zero itself.
pub proof fn lemma_decimal_text_shape(n: nat)
    ensures
        decimal_text(n).len() >= 1,
        all_digits(decimal_text(n)),
        n > 0 ==> decimal_text(n)[0] != '0',
    decreases n,
{
    if n >= 10 {
        lemma_decimal_text_shape(n / 10);
    }
}

/// Decimal notation tells numbers apart.
pub proof fn lemma_decimal_text_is_injective(a: nat, b: nat)
    requires
        decimal_text(a) == decimal_text(b),
    ensures
        a == b,
    decreases a,
{
    lemma_decimal_text_shape(a / 10);
    lemma_decimal_text_shape(b / 10);
    if a >= 10 && b >= 10 {
        let head_a = decimal_text(a / 10);
        let head_b = decimal_text(b / 10);
        let last_a = digit_char((a % 10) as int);
        let last_b = digit_char((b % 10) as int);
        assert(head_a.push(last_a).drop_last() =~= head_a);
        assert(head_b.push(last_b).drop_last() =~= head_b);
        assert(head_a.push(last_a).last() == last_a);
        assert(head_b.push(last_b).last() == last_b);
        lemma_decimal_text_is_injective(a / 10, b / 10);
    } else if a < 10 && b < 10 {
        assert(decimal_text(a)[0] == digit_char(a as int));
        assert(decimal_text(b)[0] == digit_char(b as int));
    } else if a < 10 {
        assert(decimal_text(b) == decimal_text(b / 10).push(digit_char((b % 10) as int)));
    } else {
        assert(decimal_text(a) == decimal_text(a / 10).push(digit_char((a % 10) as int)));
    }
}

/// Joined decimals are made of digits and commas, and are empty only for no
/// bytes.
proof fn lemma_joined_decimals_shape(bytes: Seq<u8>)
    ensures
        bytes.len() >= 1 ==> joined_decimals(bytes).len() >= 1,
        forall|i: int|
            0 <= i < joined_decimals(bytes).len() ==> is_digit(#[trigger] joined_decimals(bytes)[i])
                || joined_decimals(bytes)[i] == ',',
    decreases bytes.len(),
{
    if bytes.len() == 1 {
        lemma_decimal_text_shape(bytes[0] as nat);
    } else if bytes.len() >= 2 {
        lemma_joined_decimals_shape(bytes.drop_last());
        lemma_decimal_text_shape(bytes.last() as nat);
    }
}

/// A text is cut at its last comma in one way only.
proof fn lemma_cut_at_last_comma(
    head_a: Seq<char>,
    tail_a: Seq<char>,
    head_b: Seq<char>,
    tail_b: Seq<char>,
)
    requires
        all_digits(tail_a),
        all_digits(tail_b),
        head_a + seq![','] + tail_a == head_b + seq![','] + tail_b,
    ensures
        head_a == head_b,
        tail_a == tail_b,
{
    let text_a = head_a + seq![','] + tail_a;
    let text_b = head_b + seq![','] + tail_b;
    assert(text_a.len() == head_a.len() + 1 + tail_a.len());
    assert(text_b.len() == head_b.len() + 1 + tail_b.len());
    assert(text_a[head_a.len() as int] == ',');
    assert(text_b[head_b.len() as int] == ',');
    if head_a.len() < head_b.len() {
        assert(text_a[head_b.len() as int] == tail_a[head_b.len() - head_a.len() - 1]);
    } else if head_b.len() < head_a.len() {
        assert(text_b[head_a.len() as int] == tail_b[head_a.len() - head_b.len() - 1]);
    } else {
        assert(head_a =~= text_a.subrange(0, head_a.len() as int));
        assert(head_b =~= text_b.subrange(0, head_b.len() as int));
        assert(tail_a =~= text_a.subrange(head_a.len() as int + 1, text_a.len() as int));
        assert(tail_b =~= text_b.subrange(head_b.len() as int + 1, text_b.len() as int));
    }
}

/// Joined decimals tell byte sequences apart.
proof fn lemma_joined_decimals_is_injective(a: Seq<u8>, b: Seq<u8>)
    requires
        joined_decimals(a) == joined_decimals(b),
    ensures
        a == b,
    decreases a.len(),
{
    lemma_joined_decimals_shape(a);
    lemma_joined_decimals_shape(b);
    if a.len() >= 1 {
        lemma_decimal_text_shape(a.last() as nat);
    }
    if b.len() >= 1 {
        lemma_decimal_text_shape(b.last() as nat);
    }
    if a.len() == 0 || b.len() == 0 {
        assert(a.len() == b.len());
        assert(a =~= b);
    } else if a.len() == 1 && b.len() == 1 {
        lemma_decimal_text_is_injective(a[0] as nat, b[0] as nat);
        assert(a =~= b);
    } else if a.len() == 1 {
        let head = joined_decimals(b.drop_last());
        assert(joined_decimals(b)[head.len() as int] == ',');
    } else if b.len() == 1 {
        let head = joined_decimals(a.drop_last());
        assert(joined_decimals(a)[head.len() as int] == ',');
    } else {
        lemma_cut_at_last_comma(
            joined_decimals(a.drop_last()),
            decimal_text(a.last() as nat),
            joined_decimals(b.drop_last()),
            decimal_text(b.last() as nat),
        );
        lemma_decimal_text_is_injective(a.last() as nat, b.last() as nat);
        lemma_joined_decimals_is_injective(a.drop_last(), b.drop_last());
        assert(a =~= a.drop_last().push(a.last()));
        assert(b =~= b.drop_last().push(b.last()));
    }
}

/// Byte-array text is a bracket, then digits and commas, then a bracket:
/// there is no white space in it.
pub proof fn lemma_byte_array_text_shape(bytes: Seq<u8>)
    ensures
        byte_array_text(bytes).len() >= 2,
        byte_array_text(bytes).first() == '[',
        byte_array_text(bytes).last() == ']',
        forall|i: int|
            0 < i < byte_array_text(bytes).len() - 1 ==> is_digit(
                #[trigger] byte_array_text(bytes)[i],
            ) || byte_array_text(bytes)[i] == ',',
{
    lemma_joined_decimals_shape(bytes);
    let inner = joined_decimals(bytes);
    let text = byte_array_text(bytes);
    assert forall|i: int| 0 < i < text.len() - 1 implies is_digit(#[trigger] text[i]) || text[i]
        == ',' by {
        assert(text[i] == inner[i - 1]);
    }
}

/// Byte-array text tells byte sequences apart: no two of them share a text.
pub proof fn lemma_byte_array_text_is_injective(a: Seq<u8>, b: Seq<u8>)
    requires
        byte_array_text(a) == byte_array_text(b),
    ensures
        a == b,
{
    let text_a = byte_array_text(a);
    let text_b = byte_array_text(b);
    assert(joined_decimals(a) =~= text_a.subrange(1, text_a.len() - 1));
    assert(joined_decimals(b) =~= text_b.subrange(1, text_b.len() - 1));
    lemma_joined_decimals_is_injective(a, b);
}

/// The one-character string that writes the digit `d`.
fn digit_str(d: u8) -> (s: &'static str)
    requires
        d < 10,
    ensures
        s@ == seq![digit_char(d as int)],
{
    proof {
        reveal_strlit("0");
        reveal_strlit("1");
        reveal_strlit("2");
        reveal_strlit("3");
        reveal_strlit("4");
        reveal_strlit("5");
        reveal_strlit("6");
        reveal_strlit("7");
        reveal_strlit("8");
        reveal_strlit("9");
    }
    let s: &'static str = match d {
        0 => "0",
        1 => "1",
        2 => "2",
        3 => "3",
        4 => "4",
        5 => "5",
        6 => "6",
        7 => "7",
        8 => "8",
        _ => "9",
    };
    assert(s@ =~= seq![digit_char(d as int)]);
    s
}

/// Appends the decimal notation of `b` to `out`.
pub fn push_decimal(out: &mut String, b: u8)
    ensures
        final(out)@ == old(out)@ + decimal_text(b as nat),
{
    let ghost before = out@;
    if b >= 100 {
        out.append(digit_str(b / 100));
    }
    if b >= 10 {
        out.append(digit_str((b / 10) % 10));
    }
    out.append(digit_str(b % 10));
    proof {
        let n = b as nat;
        if n >= 100 {
            assert(decimal_text(n / 100) =~= seq![digit_char((n / 100) as int)]);
            assert((n / 10) / 10 == n / 100);
            assert(decimal_text(n / 10) =~= seq![digit_char((n / 100) as int)].push(
                digit_char(((n / 10) % 10) as int),
            ));
        } else if n >= 10 {
            assert(decimal_text(n / 10) =~= seq![digit_char((n / 10) as int)]);
        }
        assert(out@ =~= before + decimal_text(n));
    }
}

/// Writes `bytes` as byte-array text.
pub fn bytes_to_string(bytes: &[u8]) -> (text: String)
    ensures
        text@ == byte_array_text(bytes@),
{
    let mut text = String::new();
    proof {
        reveal_strlit("[");
        reveal_strlit(",");
        reveal_strlit("]");
    }
    text.append("[");
    let mut i: usize = 0;
    while i < bytes.len()
        invariant
            i <= bytes.len(),
            text@ == seq!['['] + joined_decimals(bytes@.take(i as int)),
            ","@ == seq![','],
        decreases bytes.len() - i,
    {
        let ghost head = bytes@.take(i as int);
        let ghost next = bytes@.take(i + 1);
        if i > 0 {
            text.append(",");
        }
        push_decimal(&mut text, bytes[i]);
        proof {
            assert(next.drop_last() =~= head);
            assert(next.last() == bytes@[i as int]);
            assert(text@ =~= seq!['['] + joined_decimals(next));
        }
        i = i + 1;
    }
    assert(bytes@.take(i as int) =~= bytes@);
    text.append("]");
    assert(text@ =~= byte_array_text(bytes@));
    text
}

} // verus!
