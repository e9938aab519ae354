//! Integers as decimal text: read from configuration, written into request
//! bodies.

use vstd::prelude::*;
use vstd::string::*;
use vstd::utf8::encode_utf8;

verus! {

pub open spec fn is_digit(c: char) -> bool {
    '0' <= c <= '9'
}

/// One digit or more, and nothing else.
pub open spec fn is_digits(text: Seq<char>) -> bool {
    text.len() > 0 && forall|i: int| 0 <= i < text.len() ==> is_digit(#[trigger] text[i])
}

/// The number that a row of digits stands for.
pub open spec fn digits_value(text: Seq<char>) -> nat
    decreases text.len(),
{
    if text.len() == 0 {
        0
    } else {
        10 * digits_value(text.drop_last()) + (text.last() as nat - '0' as nat) as nat
    }
}

/// The number that `text` stands for without a minus sign: digits, perhaps
/// after a plus sign.
pub open spec fn unsigned_value(text: Seq<char>) -> Option<int> {
    if is_digits(text) {
        Some(digits_value(text) as int)
    } else if text.len() > 0 && text[0] == '+' && is_digits(text.drop_first()) {
        Some(digits_value(text.drop_first()) as int)
    } else {
        None
    }
}

/// The number that `text` stands for: digits, perhaps after a sign.
pub open spec fn signed_value(text: Seq<char>) -> Option<int> {
    if text.len() > 0 && text[0] == '-' && is_digits(text.drop_first()) {
        Some(-digits_value(text.drop_first()))
    } else {
        unsigned_value(text)
    }
}

/// `text` read as an `i64`: the number it stands for, where that number fits.
pub open spec fn i64_value(text: Seq<char>) -> Option<i64> {
    match signed_value(text) {
        Some(value) if i64::MIN <= value <= i64::MAX => Some(value as i64),
        _ => None,
    }
}

/// `text` read as a `u64`: the number it stands for, where that number fits.
pub open spec fn u64_value(text: Seq<char>) -> Option<u64> {
    match unsigned_value(text) {
        Some(value) if value <= u64::MAX => Some(value as u64),
        _ => None,
    }
}

/// `str::parse::<i64>`: an optional `+` or `-`, then only digits, and a value
/// that fits; anything else is refused. Which refusal it was is dropped.
#[verifier::external_body]
pub(crate) fn parse_i64(text: &str) -> (value: Option<i64>)
    ensures
        value == i64_value(text@),
{
    text.parse::<i64>().ok()
}

/// `str::parse::<u64>`: an optional `+`, then only digits, and a value that
/// fits; anything else is refused. Which refusal it was is dropped.
#[verifier::external_body]
pub(crate) fn parse_u64(text: &str) -> (value: Option<u64>)
    ensures
        value == u64_value(text@),
{
    text.parse::<u64>().ok()
}

/// The ASCII digits of a natural number, without leading zeros.
pub open spec fn magnitude(value: nat) -> Seq<u8>
    decreases value,
{
    if value < 10 {
        seq![(48 + value) as u8]
    } else {
        magnitude(value / 10).push((48 + value % 10) as u8)
    }
}

/// The ASCII decimal form of an integer: a minus sign where it is negative,
/// then its digits.
pub open spec fn decimal(value: int) -> Seq<u8> {
    if value < 0 {
        seq![45u8] + magnitude((-value) as nat)
    } else {
        magnitude(value as nat)
    }
}

/// The error type of `serde_json`, carried and never looked into.
#[verifier::external_type_specification]
#[verifier::external_body]
pub struct ExJsonError(serde_json::Error);

/// `serde_json::to_vec` on an `i64`: it writes the decimal form into a fresh
/// vector, which cannot fail.
#[verifier::external_body]
pub(crate) fn json_integer(value: i64) -> (written: Result<Vec<u8>, serde_json::Error>)
    ensures
        written is Ok,
        written->Ok_0@ == decimal(value as int),
{
    serde_json::to_vec(&value)
}

/// The JSON text `head`, then `value`, then a closing brace.
pub(crate) fn closed_object(head: &str, value: i64) -> (body: Vec<u8>)
    ensures
        body@ == encode_utf8(head@) + decimal(value as int) + encode_utf8("}"@),
{
    let mut body: Vec<u8> = head.as_bytes_vec();
    let mut digits: Vec<u8> = json_integer(value).unwrap();
    body.append(&mut digits);
    let mut tail: Vec<u8> = "}".as_bytes_vec();
    body.append(&mut tail);
    body
}

proof fn lemma_magnitude_shape(value: nat)
    ensures
        magnitude(value).len() > 0,
        magnitude(value)[0] != 45u8,
    decreases value,
{
    if value >= 10 {
        lemma_magnitude_shape(value / 10);
    }
}

proof fn lemma_magnitude_injective(a: nat, b: nat)
    requires
        magnitude(a) == magnitude(b),
    ensures
        a == b,
    decreases a,
{
    let (left, right) = (magnitude(a), magnitude(b));
    assert(left.last() == right.last());
    if a < 10 {
        if b >= 10 {
            lemma_magnitude_shape(b / 10);
        }
    } else {
        if b < 10 {
            lemma_magnitude_shape(a / 10);
        } else {
            assert(left.drop_last() == magnitude(a / 10));
            assert(right.drop_last() == magnitude(b / 10));
            lemma_magnitude_injective(a / 10, b / 10);
        }
    }
}

/// Bytes as text, one character each.
pub open spec fn as_text(bytes: Seq<u8>) -> Seq<char> {
    Seq::new(bytes.len(), |i: int| bytes[i] as char)
}

/// `text` spends no character it could do without: no plus sign, no zero
/// before another digit, no sign on zero.
pub open spec fn is_plain(text: Seq<char>) -> bool {
    &&& text.len() > 0
    &&& text[0] != '+'
    &&& text.len() > 1 ==> text[0] != '0'
    &&& text[0] == '-' ==> text.len() > 1 && text[1] != '0'
}

proof fn lemma_magnitude_reads_back(value: nat)
    ensures
        is_digits(as_text(magnitude(value))),
        digits_value(as_text(magnitude(value))) == value,
        value > 0 ==> magnitude(value)[0] != 48u8,
        value == 0 ==> magnitude(value).len() == 1,
    decreases value,
{
    let text = as_text(magnitude(value));
    if value < 10 {
        assert(text.len() == 1);
        assert(text.last() == (48 + value) as char);
        assert(text.drop_last() =~= Seq::<char>::empty());
        assert(digits_value(text.drop_last()) == 0);
    } else {
        let rest = value / 10;
        lemma_magnitude_shape(rest);
        lemma_magnitude_reads_back(rest);
        assert(text.drop_last() =~= as_text(magnitude(rest)));
        assert(text.last() == (48 + value % 10) as char);
        assert forall|i: int| 0 <= i < text.len() implies is_digit(#[trigger] text[i]) by {
            if i < text.len() - 1 {
                assert(text[i] == as_text(magnitude(rest))[i]);
            }
        }
    }
}

/// The decimal form of an integer, read as a number, is that integer again,
/// and no shorter text would do.
pub proof fn decimal_reads_back(value: int)
    ensures
        signed_value(as_text(decimal(value))) == Some(value),
        value >= 0 ==> unsigned_value(as_text(decimal(value))) == Some(value),
        is_plain(as_text(decimal(value))),
{
    let text = as_text(decimal(value));
    if value < 0 {
        let digits = magnitude((-value) as nat);
        lemma_magnitude_reads_back((-value) as nat);
        assert(text.drop_first() =~= as_text(digits));
        assert(text[0] == '-');
        assert(text[1] == digits[0] as char);
    } else {
        lemma_magnitude_reads_back(value as nat);
        assert(is_digit(text[0]));
    }
}

/// A row of digits is read by place: each digit after it makes it ten times
/// as much.
pub proof fn digits_count_by_place(text: Seq<char>, digit: char)
    requires
        is_digits(text),
        is_digit(digit),
    ensures
        unsigned_value(text) is Some,
        unsigned_value(text.push(digit)) == Some(
            10 * unsigned_value(text)->0 + (digit as int - '0' as int),
        ),
{
    assert(text.push(digit).drop_last() =~= text);
}

/// A plus sign changes nothing and a minus sign turns a number round; a
/// number that has to be natural takes no minus sign, and none takes two.
pub proof fn signs_are_read(digits: Seq<char>)
    requires
        is_digits(digits),
    ensures
        signed_value(seq!['+'] + digits) == signed_value(digits),
        unsigned_value(seq!['+'] + digits) == unsigned_value(digits),
        signed_value(seq!['-'] + digits) == Some(-signed_value(digits)->0),
        unsigned_value(seq!['-'] + digits) is None,
{
    let (plus, minus) = (seq!['+'] + digits, seq!['-'] + digits);
    assert(plus.drop_first() =~= digits);
    assert(minus.drop_first() =~= digits);
    assert(!is_digit(plus[0]) && !is_digit(minus[0]));
    assert(is_digit(digits[0]));
}

/// A number read from text fits its type, and only text of digits, perhaps
/// after one sign, is read.
pub proof fn only_numbers_are_read(text: Seq<char>)
    ensures
        i64_value(text) matches Some(value) ==> signed_value(text) == Some(value as int),
        u64_value(text) matches Some(value) ==> unsigned_value(text) == Some(value as int),
        i64_value(text) is None && signed_value(text) is Some ==> !(i64::MIN
            <= signed_value(text)->0 <= i64::MAX),
        u64_value(text) is None && unsigned_value(text) is Some ==> unsigned_value(text)->0
            > u64::MAX,
        forall|i: int|
            0 < i < text.len() && !is_digit(#[trigger] text[i]) ==> i64_value(text) is None
                && u64_value(text) is None,
        text.len() == 0 ==> i64_value(text) is None && u64_value(text) is None,
        text.len() > 0 && !is_digit(text[0]) && text[0] != '+' ==> u64_value(text) is None,
        text.len() > 0 && !is_digit(text[0]) && text[0] != '+' && text[0] != '-' ==> i64_value(text)
            is None,
{
    assert forall|i: int| 0 < i < text.len() && !is_digit(#[trigger] text[i]) implies i64_value(
        text,
    ) is None && u64_value(text) is None by {
        assert(text.drop_first()[i - 1] == text[i]);
    }
}

/// Two integers never share a decimal form.
pub proof fn decimal_is_injective(a: int, b: int)
    requires
        decimal(a) == decimal(b),
    ensures
        a == b,
{
    if a < 0 {
        lemma_magnitude_shape((-a) as nat);
        assert(decimal(a)[0] == 45u8);
    } else {
        lemma_magnitude_shape(a as nat);
    }
    if b < 0 {
        lemma_magnitude_shape((-b) as nat);
        assert(decimal(b)[0] == 45u8);
    } else {
        lemma_magnitude_shape(b as nat);
    }
    if a < 0 && b < 0 {
        assert(decimal(a).drop_first() == magnitude((-a) as nat));
        assert(decimal(b).drop_first() == magnitude((-b) as nat));
        lemma_magnitude_injective((-a) as nat, (-b) as nat);
    } else if a >= 0 && b >= 0 {
        lemma_magnitude_injective(a as nat, b as nat);
    }
}

/// What stands between `head` and `tail` in a framed decimal form reads back
/// as the integer.
pub(crate) proof fn lemma_framed_decimal_reads_back(
    body: Seq<u8>,
    head: Seq<u8>,
    value: i64,
    tail: Seq<u8>,
)
    requires
        body == head + decimal(value as int) + tail,
    ensures
        ({
            let end = body.len() - tail.len();
            let middle = as_text(body.subrange(head.len() as int, end));
            &&& head.len() <= end
            &&& body.subrange(0, head.len() as int) == head
            &&& body.subrange(end, body.len() as int) == tail
            &&& i64_value(middle) == Some(value)
            &&& is_plain(middle)
        }),
{
    let end = body.len() - tail.len();
    assert(body.subrange(0, head.len() as int) =~= head);
    assert(body.subrange(end, body.len() as int) =~= tail);
    assert(body.subrange(head.len() as int, end) =~= decimal(value as int));
    decimal_reads_back(value as int);
}

/// What stands around a decimal form does not blur which integer it is.
pub(crate) proof fn lemma_framed_decimal(head: Seq<u8>, a: int, b: int, tail: Seq<u8>)
    requires
        head + decimal(a) + tail == head + decimal(b) + tail,
    ensures
        a == b,
{
    let (left, right) = (head + decimal(a) + tail, head + decimal(b) + tail);
    assert(left.len() == head.len() + decimal(a).len() + tail.len());
    assert(right.len() == head.len() + decimal(b).len() + tail.len());
    let end = (head.len() + decimal(a).len()) as int;
    assert(left.subrange(head.len() as int, end) == decimal(a));
    assert(right.subrange(head.len() as int, end) == decimal(b));
    decimal_is_injective(a, b);
}

} // verus!
