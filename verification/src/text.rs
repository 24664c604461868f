//! Text on the wire and in labels: UTF-8 and decimal numbers.

use vstd::prelude::*;
use vstd::utf8::{
    decode_utf8, decode_utf8_encode_utf8, decode_utf8_split, encode_scalar, encode_utf8,
    encode_utf8_decode_utf8, encode_utf8_first_scalar, encode_utf8_valid_utf8, is_ascii_chars,
    is_ascii_chars_encode_utf8, is_char_boundary, is_char_boundary_start_end_of_seq,
    pop_first_scalar, valid_utf8, valid_utf8_split,
};

verus! {

/// What `String::from_utf8_lossy` makes of bytes that are not UTF-8.
pub uninterp spec fn repaired_text(bytes: Seq<u8>) -> Seq<char>;

/// The text that bytes stand for where malformed ones are repaired: what they
/// encode if they are UTF-8.
pub open spec fn lossy_text(bytes: Seq<u8>) -> Seq<char> {
    if valid_utf8(bytes) {
        decode_utf8(bytes)
    } else {
        repaired_text(bytes)
    }
}

/// Calls `String::from_utf8_lossy`. Bytes that are UTF-8 come out as the text they
/// encode; what malformed bytes are replaced by is only named. Replacing never
/// leaves nothing: the text is empty exactly where there are no bytes.
#[verifier::external_body]
pub(crate) fn utf8_lossy(bytes: &[u8]) -> (text: String)
    ensures
        text@ == if valid_utf8(bytes@) {
            decode_utf8(bytes@)
        } else {
            repaired_text(bytes@)
        },
        text@.len() == 0 <==> bytes@.len() == 0,
{
    String::from_utf8_lossy(bytes).into_owned()
}

/// Calls `String::from_utf8`: the text that the bytes encode, if they are UTF-8.
#[verifier::external_body]
pub(crate) fn utf8_exact(bytes: Vec<u8>) -> (text: Option<String>)
    ensures
        text is Some <==> valid_utf8(bytes@),
        text matches Some(t) ==> t@ == decode_utf8(bytes@),
{
    String::from_utf8(bytes).ok()
}

/// The texts among byte strings; those that are not UTF-8 are left out.
pub open spec fn decoded_texts(all: Seq<Seq<u8>>) -> Seq<Seq<char>>
    decreases all.len(),
{
    if all.len() == 0 {
        seq![]
    } else if valid_utf8(all[0]) {
        seq![decode_utf8(all[0])] + decoded_texts(all.skip(1))
    } else {
        decoded_texts(all.skip(1))
    }
}

/// The bytes of a range, as a vector of their own.
pub fn copy_range(bytes: &[u8], from: usize, to: usize) -> (copy: Vec<u8>)
    requires
        from <= to <= bytes@.len(),
    ensures
        copy@ == bytes@.subrange(from as int, to as int),
{
    let mut copy: Vec<u8> = Vec::new();
    crate::wire::push_bytes(&mut copy, vstd::slice::slice_subrange(bytes, from, to));
    assert(copy@ =~= bytes@.subrange(from as int, to as int));
    copy
}

/// Encoded text is empty exactly where there are no bytes.
pub proof fn decoded_length(bytes: Seq<u8>)
    requires
        valid_utf8(bytes),
    ensures
        decode_utf8(bytes).len() == 0 <==> bytes.len() == 0,
{
}

/// Whether two runs of bytes are the same.
pub fn same_bytes(a: &[u8], b: &[u8]) -> (same: bool)
    ensures
        same == (a@ == b@),
{
    if a.len() != b.len() {
        return false;
    }
    let mut i: usize = 0;
    while i < a.len()
        invariant
            i <= a@.len() == b@.len(),
            forall|j: int| 0 <= j < i ==> a@[j] == b@[j],
        decreases a@.len() - i,
    {
        if a[i] != b[i] {
            assert(a@[i as int] != b@[i as int]);
            return false;
        }
        i += 1;
    }
    assert(a@ =~= b@);
    true
}

/// Whether two texts are the same.
pub fn same_text(a: &str, b: &str) -> (same: bool)
    ensures
        same == (a@ == b@),
{
    proof {
        encode_utf8_decode_utf8(a@);
        encode_utf8_decode_utf8(b@);
    }
    same_bytes(a.as_bytes(), b.as_bytes())
}

/// The longest beginning of a text that takes at most `limit` bytes.
pub open spec fn fitting(text: Seq<char>, limit: nat) -> Seq<char>
    decreases text.len(),
{
    if text.len() == 0 || encode_utf8(text).len() <= limit {
        text
    } else {
        fitting(text.drop_last(), limit)
    }
}

/// A fitting text is a beginning of the whole, fits, and is the longest that does.
pub proof fn fitting_text_is_the_longest(text: Seq<char>, limit: nat)
    ensures
        fitting(text, limit).len() <= text.len(),
        fitting(text, limit) == text.take(fitting(text, limit).len() as int),
        encode_utf8(fitting(text, limit)).len() <= limit,
        fitting(text, limit).len() == text.len() || encode_utf8(
            text.take(fitting(text, limit).len() as int + 1),
        ).len() > limit,
    decreases text.len(),
{
    let kept = fitting(text, limit).len() as int;
    if text.len() == 0 || encode_utf8(text).len() <= limit {
        assert(text.take(kept) =~= text);
    } else {
        let shorter = text.drop_last();
        fitting_text_is_the_longest(shorter, limit);
        assert(shorter.take(kept) =~= text.take(kept));
        if kept < shorter.len() {
            assert(shorter.take(kept + 1) =~= text.take(kept + 1));
        } else {
            assert(text.take(kept + 1) =~= text);
        }
    }
}

/// The encoding of a beginning of a text is a beginning of the text's encoding, and ends
/// at the end of a character.
proof fn encoded_beginning(text: Seq<char>, count: int)
    requires
        0 <= count <= text.len(),
    ensures
        encode_utf8(text.take(count)).len() <= encode_utf8(text).len(),
        is_char_boundary(encode_utf8(text), encode_utf8(text.take(count)).len() as int),
    decreases count,
{
    encode_utf8_valid_utf8(text);
    if count > 0 {
        let bytes = encode_utf8(text);
        let rest = text.drop_first();
        encode_utf8_first_scalar(text);
        assert(pop_first_scalar(bytes) =~= encode_utf8(rest));
        assert(text.take(count).drop_first() =~= rest.take(count - 1));
        assert(text.take(count)[0] == text[0]);
        encoded_beginning(rest, count - 1);
        assert(encode_utf8(text.take(count)).len() == encode_scalar(text[0] as u32).len()
            + encode_utf8(rest.take(count - 1)).len());
    }
}

/// Every character takes a byte.
proof fn longer_text_is_longer(text: Seq<char>)
    requires
        text.len() > 0,
    ensures
        encode_utf8(text.drop_last()).len() < encode_utf8(text).len(),
    decreases text.len(),
{
    let rest = text.drop_first();
    if text.len() > 1 {
        longer_text_is_longer(rest);
        assert(text.drop_last().drop_first() =~= rest.drop_last());
        assert(text.drop_last()[0] == text[0]);
    }
}

proof fn longest_is_fitting(text: Seq<char>, count: int, limit: nat)
    requires
        0 <= count <= text.len(),
        encode_utf8(text.take(count)).len() <= limit,
        count == text.len() || encode_utf8(text.take(count + 1)).len() > limit,
    ensures
        fitting(text, limit) == text.take(count),
    decreases text.len(),
{
    if count == text.len() {
        assert(text.take(count) =~= text);
    } else {
        let shorter = text.drop_last();
        encoded_beginning(text, count + 1);
        assert(shorter.take(count) =~= text.take(count));
        if count < shorter.len() {
            assert(shorter.take(count + 1) =~= text.take(count + 1));
        }
        longest_is_fitting(shorter, count, limit);
    }
}

/// How many bytes of a text its longest fitting beginning takes.
pub fn fitting_length(text: &str, limit: usize) -> (length: usize)
    ensures
        length <= encode_utf8(text@).len(),
        encode_utf8(text@).take(length as int) == encode_utf8(fitting(text@, limit as nat)),
{
    let ghost bytes = encode_utf8(text@);
    let len: usize = text.as_bytes().len();
    if len <= limit {
        assert(bytes.take(len as int) =~= bytes);
        return len;
    }
    proof {
        encode_utf8_valid_utf8(text@);
        is_char_boundary_start_end_of_seq(bytes);
    }
    let mut length: usize = limit;
    while !text.is_char_boundary(length)
        invariant
            bytes == encode_utf8(text@),
            is_char_boundary(bytes, 0),
            length <= limit < bytes.len(),
            forall|i: int| length < i <= limit ==> !is_char_boundary(bytes, i),
        decreases length,
    {
        length -= 1;
    }
    proof {
        let first = bytes.subrange(0, length as int);
        let second = bytes.subrange(length as int, bytes.len() as int);
        valid_utf8_split(bytes, length as int);
        decode_utf8_split(bytes, length as int);
        encode_utf8_decode_utf8(text@);
        decode_utf8_encode_utf8(first);
        let count = decode_utf8(first).len() as int;
        assert(text@ == decode_utf8(first) + decode_utf8(second));
        assert(text@.take(count) =~= decode_utf8(first));
        if count < text@.len() {
            encoded_beginning(text@, count + 1);
            longer_text_is_longer(text@.take(count + 1));
            assert(text@.take(count + 1).drop_last() =~= text@.take(count));
        }
        longest_is_fitting(text@, count, limit as nat);
        assert(bytes.take(length as int) =~= first);
    }
    length
}

/// The character of a digit.
pub open spec fn digit(value: nat) -> char {
    (48 + value % 10) as char
}

/// A number in decimal, without leading zeros.
pub open spec fn decimal_spec(value: nat) -> Seq<char>
    decreases value,
{
    if value < 10 {
        seq![digit(value)]
    } else {
        decimal_spec(value / 10).push(digit(value))
    }
}

/// Decimal digits are ASCII.
pub proof fn decimal_is_ascii(value: nat)
    ensures
        is_ascii_chars(decimal_spec(value)),
        decimal_spec(value).len() > 0,
    decreases value,
{
    if value >= 10 {
        decimal_is_ascii(value / 10);
        let front = decimal_spec(value / 10);
        assert forall|i: int| 0 <= i < decimal_spec(value).len() implies '\0' <= #[trigger] decimal_spec(
            value,
        )[i] <= '\u{7f}' by {
            if i < front.len() {
                assert(decimal_spec(value)[i] == front[i]);
            }
        }
    }
}

/// A number in decimal is made of digits.
pub proof fn digits_only(value: nat)
    ensures
        forall|i: int|
            0 <= i < decimal_spec(value).len() ==> '0' <= #[trigger] decimal_spec(value)[i]
                <= '9',
    decreases value,
{
    if value >= 10 {
        digits_only(value / 10);
        let front = decimal_spec(value / 10);
        assert forall|i: int| 0 <= i < decimal_spec(value).len() implies '0'
            <= #[trigger] decimal_spec(value)[i] <= '9' by {
            if i < front.len() {
                assert(decimal_spec(value)[i] == front[i]);
            }
        }
    }
}

/// A number of 32 bits has at most ten digits.
pub proof fn decimal_fits(value: nat)
    requires
        value <= u32::MAX,
    ensures
        1 <= decimal_spec(value).len() <= 10,
{
    reveal_with_fuel(decimal_spec, 11);
}

/// Different numbers differ in decimal.
pub proof fn decimal_is_injective(a: nat, b: nat)
    requires
        decimal_spec(a) == decimal_spec(b),
    ensures
        a == b,
    decreases a,
{
    let x = decimal_spec(a);
    let y = decimal_spec(b);
    assert(x.last() == digit(a));
    assert(y.last() == digit(b));
    assert(a % 10 == b % 10);
    if a < 10 && b < 10 {
    } else if a < 10 {
        decimal_is_ascii(b / 10);
        assert(y.len() > 1);
    } else if b < 10 {
        decimal_is_ascii(a / 10);
        assert(x.len() > 1);
    } else {
        assert(x.drop_last() =~= decimal_spec(a / 10));
        assert(y.drop_last() =~= decimal_spec(b / 10));
        decimal_is_injective(a / 10, b / 10);
    }
}

/// The bytes of a number in decimal.
fn decimal_bytes(value: u64) -> (bytes: Vec<u8>)
    ensures
        bytes@.len() == decimal_spec(value as nat).len(),
        forall|i: int|
            0 <= i < bytes@.len() ==> #[trigger] bytes@[i] as char == decimal_spec(
                value as nat,
            )[i],
    decreases value,
{
    let mut bytes: Vec<u8> = if value < 10 {
        Vec::new()
    } else {
        decimal_bytes(value / 10)
    };
    bytes.push((48 + value % 10) as u8);
    bytes
}

/// A signed number in decimal.
pub open spec fn signed_decimal_spec(value: int) -> Seq<char> {
    if value < 0 {
        "-"@ + decimal_spec((-value) as nat)
    } else {
        decimal_spec(value as nat)
    }
}

/// Writes a signed number in decimal.
pub fn signed_decimal(value: i32) -> (text: String)
    ensures
        text@ == signed_decimal_spec(value as int),
{
    if value < 0 {
        let mut text: String = "-".to_string();
        text.append(decimal((-(value as i64)) as u64).as_str());
        text
    } else {
        decimal(value as u64)
    }
}

/// Writes a number in decimal.
pub fn decimal(value: u64) -> (text: String)
    ensures
        text@ == decimal_spec(value as nat),
{
    let bytes: Vec<u8> = decimal_bytes(value);
    proof {
        let chars = decimal_spec(value as nat);
        decimal_is_ascii(value as nat);
        is_ascii_chars_encode_utf8(chars);
        assert(bytes@ =~= encode_utf8(chars));
        encode_utf8_decode_utf8(chars);
        encode_utf8_valid_utf8(chars);
    }
    match utf8_exact(bytes) {
        Some(text) => text,
        None => String::new(),
    }
}

/// The number that decimal digits stand for.
pub open spec fn decimal_value(text: Seq<char>) -> int
    decreases text.len(),
{
    if text.len() == 0 {
        0
    } else {
        10 * decimal_value(text.drop_last()) + (text.last() as int - '0' as int)
    }
}

/// A number in decimal reads back as the number, and has no zero in front unless it is
/// zero.
pub proof fn decimal_reads_back(value: nat)
    ensures
        decimal_value(decimal_spec(value)) == value,
        decimal_spec(value).len() > 0,
        value > 0 ==> decimal_spec(value)[0] != '0',
    decreases value,
{
    if value >= 10 {
        decimal_reads_back(value / 10);
        assert(decimal_spec(value).drop_last() =~= decimal_spec(value / 10));
    } else {
        assert(decimal_spec(value).drop_last() =~= Seq::<char>::empty());
        assert(decimal_value(Seq::<char>::empty()) == 0);
    }
}

/// A signed number in decimal is its size in decimal, behind a minus exactly where it is
/// below zero.
pub proof fn a_minus_stands_for_below_zero(value: int)
    ensures
        value >= 0 ==> decimal_value(signed_decimal_spec(value)) == value,
        value < 0 ==> {
            &&& signed_decimal_spec(value)[0] == '-'
            &&& decimal_value(signed_decimal_spec(value).skip(1)) == -value
        },
        value >= 0 ==> signed_decimal_spec(value)[0] != '-',
{
    reveal_strlit("-");
    if value < 0 {
        decimal_reads_back((-value) as nat);
        assert(signed_decimal_spec(value).skip(1) =~= decimal_spec((-value) as nat));
    } else {
        decimal_reads_back(value as nat);
        digits_only(value as nat);
    }
}

/// Of byte strings one after the other the texts come one after the other: each that is
/// UTF-8 gives the text that it encodes, and each that is not gives none.
pub proof fn texts_come_one_after_the_other(before: Seq<Seq<u8>>, bytes: Seq<u8>, text: Seq<char>)
    ensures
        valid_utf8(bytes) ==> decoded_texts(before.push(bytes)) == decoded_texts(before).push(
            decode_utf8(bytes),
        ),
        !valid_utf8(bytes) ==> decoded_texts(before.push(bytes)) == decoded_texts(before),
        decoded_texts(before.push(encode_utf8(text))) == decoded_texts(before).push(text),
        decoded_texts(Seq::empty()) == Seq::<Seq<char>>::empty(),
        decoded_texts(before).len() <= before.len(),
    decreases before.len(),
{
    encode_utf8_valid_utf8(text);
    encode_utf8_decode_utf8(text);
    one_more_text(before, bytes);
    one_more_text(before, encode_utf8(text));
}

proof fn one_more_text(before: Seq<Seq<u8>>, bytes: Seq<u8>)
    ensures
        decoded_texts(before.push(bytes)) == if valid_utf8(bytes) {
            decoded_texts(before).push(decode_utf8(bytes))
        } else {
            decoded_texts(before)
        },
        decoded_texts(before).len() <= before.len(),
    decreases before.len(),
{
    let all = before.push(bytes);
    if before.len() == 0 {
        assert(all.skip(1) =~= before);
        assert(decoded_texts(all) =~= if valid_utf8(bytes) {
            decoded_texts(before).push(decode_utf8(bytes))
        } else {
            decoded_texts(before)
        });
    } else {
        assert(all.skip(1) =~= before.skip(1).push(bytes));
        one_more_text(before.skip(1), bytes);
        assert(decoded_texts(all) =~= if valid_utf8(bytes) {
            decoded_texts(before).push(decode_utf8(bytes))
        } else {
            decoded_texts(before)
        });
    }
}

/// Text that is UTF-8 is never changed by repairing: what was encoded comes back.
pub proof fn sound_text_is_not_repaired(text: Seq<char>)
    ensures
        lossy_text(encode_utf8(text)) == text,
{
    encode_utf8_valid_utf8(text);
    encode_utf8_decode_utf8(text);
}

} // verus!
