//! UUIDs, held as their 128-bit value: the identity of this service, and one
//! for each request it makes.

use vstd::prelude::*;

use crate::error::TaskmasterError;

verus! {

pub open spec fn is_hex_digit(c: char) -> bool {
    '0' <= c <= '9' || 'a' <= c <= 'f' || 'A' <= c <= 'F'
}

pub open spec fn hex_digit_value(c: char) -> nat {
    if '0' <= c <= '9' {
        (c as nat - '0' as nat) as nat
    } else if 'a' <= c <= 'f' {
        (c as nat - 'a' as nat + 10) as nat
    } else {
        (c as nat - 'A' as nat + 10) as nat
    }
}

/// The number that a row of hexadecimal digits stands for.
pub open spec fn hex_value(digits: Seq<char>) -> nat
    decreases digits.len(),
{
    if digits.len() == 0 {
        0
    } else {
        16 * hex_value(digits.drop_last()) + hex_digit_value(digits.last())
    }
}

/// `text` without its four hyphens, where it has them at the places that
/// split thirty-two characters into groups of eight, four, four, four and
/// twelve.
pub open spec fn ungrouped(text: Seq<char>) -> Option<Seq<char>> {
    if text.len() == 36 && text[8] == '-' && text[13] == '-' && text[18] == '-' && text[23] == '-' {
        Some(
            text.subrange(0, 8) + text.subrange(9, 13) + text.subrange(14, 18) + text.subrange(
                19,
                23,
            ) + text.subrange(24, 36),
        )
    } else {
        None
    }
}

pub open spec fn ascii_lowercase(c: char) -> char {
    if 'A' <= c <= 'Z' {
        (c as int + 32) as char
    } else {
        c
    }
}

/// The thirty-two characters of `text` that stand where a UUID has its
/// digits: bare, grouped by hyphens, or grouped and then in braces or after
/// `urn:uuid:` in any case.
pub open spec fn uuid_digits(text: Seq<char>) -> Option<Seq<char>> {
    if text.len() == 32 {
        Some(text)
    } else if text.len() == 38 && text[0] == '{' && text[37] == '}' {
        ungrouped(text.subrange(1, 37))
    } else if text.len() == 45 && text.subrange(0, 9).map_values(|c: char| ascii_lowercase(c))
        == "urn:uuid:"@ {
        ungrouped(text.subrange(9, 45))
    } else {
        ungrouped(text)
    }
}

/// The UUID that `text` spells, as a number, most significant digit first.
pub open spec fn uuid_value(text: Seq<char>) -> Option<nat> {
    match uuid_digits(text) {
        Some(digits) => if forall|i: int|
            0 <= i < digits.len() ==> is_hex_digit(#[trigger] digits[i]) {
            Some(hex_value(digits))
        } else {
            None
        },
        None => None,
    }
}

/// `str::parse::<uuid::Uuid>`, which is `uuid::Uuid::parse_str`: it accepts
/// the simple, hyphenated, braced and URN forms in either case and nothing
/// else, and `uuid::Uuid::as_u128` gives the digits it read as one number.
/// Which refusal it was is dropped.
#[verifier::external_body]
pub(crate) fn parse_uuid(text: &str) -> (value: Option<u128>)
    ensures
        value is Some <==> uuid_value(text@) is Some,
        value matches Some(id) ==> Some(id as nat) == uuid_value(text@),
{
    text.parse::<uuid::Uuid>().ok().map(|id| id.as_u128())
}

/// Reads a service identity. Only a UUID is one.
pub fn parse_service_id(text: &str) -> (service_id: Result<u128, TaskmasterError>)
    ensures
        service_id is Ok <==> uuid_value(text@) is Some,
        service_id matches Ok(id) ==> Some(id as nat) == uuid_value(text@),
        service_id matches Err(error) ==> error == TaskmasterError::InvalidServiceId,
{
    match parse_uuid(text) {
        Some(id) => Ok(id),
        None => Err(TaskmasterError::InvalidServiceId),
    }
}

/// `id` has the version and the variant of a random UUID: the four bits from
/// the seventy-sixth up hold a four, the two from the sixty-second up a two.
pub open spec fn is_random_uuid(id: u128) -> bool {
    &&& (id / 0x1000_0000_0000_0000_0000) % 16 == 4
    &&& (id / 0x4000_0000_0000_0000) % 4 == 2
}

/// `uuid::Uuid::new_v4`, as a number by `uuid::Uuid::as_u128`: a fresh random
/// UUID. Its other bits come from the operating system, and it panics where
/// the operating system has none to give.
#[verifier::external_body]
pub(crate) fn fresh_request_id() -> (id: u128)
    ensures
        is_random_uuid(id),
{
    uuid::Uuid::new_v4().as_u128()
}

/// `id` came out of a draw of `fresh_request_id`.
pub closed spec fn is_fresh_request_id(id: u128) -> bool {
    call_ensures(fresh_request_id, (), id)
}

/// Draws the identifier of one request. Which one comes out rests on chance.
pub fn new_request_id() -> (id: u128)
    ensures
        is_fresh_request_id(id),
        is_random_uuid(id),
{
    fresh_request_id()
}

/// One more than the largest number of `width` hexadecimal digits.
pub open spec fn hex_range(width: nat) -> nat
    decreases width,
{
    if width == 0 {
        1
    } else {
        16 * hex_range((width - 1) as nat)
    }
}

proof fn lemma_hex_value_in_range(digits: Seq<char>)
    requires
        forall|i: int| 0 <= i < digits.len() ==> is_hex_digit(#[trigger] digits[i]),
    ensures
        hex_value(digits) < hex_range(digits.len()),
    decreases digits.len(),
{
    if digits.len() > 0 {
        let rest = digits.drop_last();
        assert forall|i: int| 0 <= i < rest.len() implies is_hex_digit(#[trigger] rest[i]) by {
            assert(rest[i] == digits[i]);
        }
        lemma_hex_value_in_range(rest);
        assert(is_hex_digit(digits[digits.len() - 1]));
        assert(hex_digit_value(digits.last()) < 16);
    }
}

proof fn lemma_uuid_range()
    ensures
        hex_range(32) == u128::MAX + 1,
{
    reveal_with_fuel(hex_range, 33);
}

/// Every UUID is a number of one hundred and twenty-eight bits.
pub proof fn uuid_fits(text: Seq<char>)
    ensures
        uuid_value(text) matches Some(id) ==> id <= u128::MAX,
{
    if let Some(digits) = uuid_digits(text) {
        if uuid_value(text) is Some {
            assert(digits.len() == 32);
            lemma_hex_value_in_range(digits);
            lemma_uuid_range();
        }
    }
}

/// The hexadecimal digit for a number below sixteen.
pub open spec fn hex_digit(value: nat) -> char {
    "0123456789abcdef"@[value as int]
}

/// A number as `width` hexadecimal digits, the most significant first.
pub open spec fn hex_text(value: nat, width: nat) -> Seq<char>
    decreases width,
{
    if width == 0 {
        Seq::empty()
    } else {
        hex_text(value / 16, (width - 1) as nat).push(hex_digit(value % 16))
    }
}

/// Thirty-two digits in groups of eight, four, four, four and twelve.
pub open spec fn grouped(digits: Seq<char>) -> Seq<char> {
    digits.subrange(0, 8) + seq!['-'] + digits.subrange(8, 12) + seq!['-'] + digits.subrange(12, 16)
        + seq!['-'] + digits.subrange(16, 20) + seq!['-'] + digits.subrange(20, 32)
}

proof fn lemma_hex_digit(value: nat)
    requires
        value < 16,
    ensures
        is_hex_digit(hex_digit(value)),
        hex_digit_value(hex_digit(value)) == value,
{
    reveal_strlit("0123456789abcdef");
}

proof fn lemma_hex_text_reads_back(value: nat, width: nat)
    requires
        value < hex_range(width),
    ensures
        hex_text(value, width).len() == width,
        forall|i: int| 0 <= i < width ==> is_hex_digit(#[trigger] hex_text(value, width)[i]),
        hex_value(hex_text(value, width)) == value,
    decreases width,
{
    if width > 0 {
        let rest = hex_text(value / 16, (width - 1) as nat);
        lemma_hex_text_reads_back(value / 16, (width - 1) as nat);
        lemma_hex_digit(value % 16);
        assert(hex_text(value, width).drop_last() =~= rest);
    }
}

proof fn lemma_grouped(digits: Seq<char>)
    requires
        digits.len() == 32,
    ensures
        grouped(digits).len() == 36,
        ungrouped(grouped(digits)) == Some(digits),
{
    let text = grouped(digits);
    assert(text.subrange(0, 8) =~= digits.subrange(0, 8));
    assert(text.subrange(9, 13) =~= digits.subrange(8, 12));
    assert(text.subrange(14, 18) =~= digits.subrange(12, 16));
    assert(text.subrange(19, 23) =~= digits.subrange(16, 20));
    assert(text.subrange(24, 36) =~= digits.subrange(20, 32));
    assert(ungrouped(text)->0 =~= digits);
}

/// Every identity can be named: its thirty-two hexadecimal digits, bare or in
/// groups, and the groups in braces or after `urn:uuid:` as well, are read as
/// that very identity.
pub proof fn written_identity_reads_back(
    id: u128,
    text: &str,
    service_id: Result<u128, TaskmasterError>,
)
    requires
        call_ensures(parse_service_id, (text,), service_id),
        ({
            let digits = hex_text(id as nat, 32);
            ||| text@ == digits
            ||| text@ == grouped(digits)
            ||| text@ == seq!['{'] + grouped(digits) + seq!['}']
            ||| text@ == "urn:uuid:"@ + grouped(digits)
        }),
    ensures
        service_id == Ok::<u128, TaskmasterError>(id),
{
    let digits = hex_text(id as nat, 32);
    lemma_uuid_range();
    lemma_hex_text_reads_back(id as nat, 32);
    lemma_grouped(digits);
    reveal_strlit("urn:uuid:");
    if text@ == seq!['{'] + grouped(digits) + seq!['}'] {
        assert(text@.subrange(1, 37) =~= grouped(digits));
    } else if text@ == "urn:uuid:"@ + grouped(digits) {
        assert(text@.subrange(9, 45) =~= grouped(digits));
        assert(text@.subrange(0, 9).map_values(|c: char| ascii_lowercase(c)) =~= "urn:uuid:"@);
    }
    assert(uuid_digits(text@) == Some(digits));
}

/// What is read is the number that the text spells, and a text that spells
/// none is refused.
pub proof fn identity_is_what_the_text_spells(
    text: &str,
    service_id: Result<u128, TaskmasterError>,
)
    requires
        call_ensures(parse_service_id, (text,), service_id),
    ensures
        service_id matches Ok(id) ==> uuid_value(text@) == Some(id as nat),
        uuid_value(text@) is None ==> service_id == Err::<u128, TaskmasterError>(
            TaskmasterError::InvalidServiceId,
        ),
        text@.len() != 32 && text@.len() != 36 && text@.len() != 38 && text@.len() != 45
            ==> service_id is Err,
{
}

/// A text in lower case.
pub open spec fn lowercased(text: Seq<char>) -> Seq<char> {
    text.map_values(|c: char| ascii_lowercase(c))
}

proof fn lemma_hex_value_ignores_case(digits: Seq<char>)
    requires
        forall|i: int| 0 <= i < digits.len() ==> is_hex_digit(#[trigger] digits[i]),
    ensures
        hex_value(lowercased(digits)) == hex_value(digits),
    decreases digits.len(),
{
    if digits.len() > 0 {
        let rest = digits.drop_last();
        assert forall|i: int| 0 <= i < rest.len() implies is_hex_digit(#[trigger] rest[i]) by {
            assert(rest[i] == digits[i]);
        }
        lemma_hex_value_ignores_case(rest);
        assert(lowercased(digits).drop_last() =~= lowercased(rest));
        assert(is_hex_digit(digits[digits.len() - 1]));
        assert(lowercased(digits).last() == ascii_lowercase(digits.last()));
    }
}

/// Upper and lower case spell the same identity.
pub proof fn identity_ignores_case(text: Seq<char>)
    ensures
        uuid_value(lowercased(text)) == uuid_value(text),
{
    let low = lowercased(text);
    assert(low.len() == text.len());
    assert forall|i: int| 0 <= i < text.len() implies #[trigger] low[i] == ascii_lowercase(
        text[i],
    ) by {}
    if text.len() == 45 {
        assert(low.subrange(0, 9).map_values(|c: char| ascii_lowercase(c)) =~= text.subrange(
            0,
            9,
        ).map_values(|c: char| ascii_lowercase(c)));
        assert(low.subrange(9, 45) =~= lowercased(text.subrange(9, 45)));
        lemma_ungrouped_ignores_case(text.subrange(9, 45));
    } else if text.len() == 38 {
        assert(low.subrange(1, 37) =~= lowercased(text.subrange(1, 37)));
        lemma_ungrouped_ignores_case(text.subrange(1, 37));
    } else if text.len() == 36 {
        lemma_ungrouped_ignores_case(text);
    }
    match uuid_digits(text) {
        Some(digits) => {
            let lower = uuid_digits(low)->0;
            assert(uuid_digits(low) == Some(lowercased(digits)));
            assert forall|i: int| 0 <= i < digits.len() implies is_hex_digit(#[trigger] lower[i])
                == is_hex_digit(digits[i]) by {
                assert(lower[i] == ascii_lowercase(digits[i]));
            }
            if forall|i: int| 0 <= i < digits.len() ==> is_hex_digit(#[trigger] digits[i]) {
                lemma_hex_value_ignores_case(digits);
            } else {
                let i = choose|i: int| 0 <= i < digits.len() && !is_hex_digit(#[trigger] digits[i]);
                assert(!is_hex_digit(lower[i]));
            }
        },
        None => {
            assert(uuid_digits(low) is None);
        },
    }
}

proof fn lemma_ungrouped_ignores_case(text: Seq<char>)
    ensures
        ungrouped(lowercased(text)) is Some <==> ungrouped(text) is Some,
        ungrouped(text) matches Some(digits) ==> ungrouped(lowercased(text)) == Some(
            lowercased(digits),
        ),
{
    let low = lowercased(text);
    if text.len() == 36 {
        assert(low[8] == ascii_lowercase(text[8]));
        assert(low[13] == ascii_lowercase(text[13]));
        assert(low[18] == ascii_lowercase(text[18]));
        assert(low[23] == ascii_lowercase(text[23]));
        if ungrouped(text) is Some {
            assert(ungrouped(low)->0 =~= lowercased(ungrouped(text)->0));
        }
    }
}

/// The identifier of a request is used as it was drawn, and has the version
/// and the variant of a random UUID.
pub(crate) proof fn identifier_is_used_as_drawn(id: u128)
    requires
        call_ensures(new_request_id, (), id),
    ensures
        call_ensures(fresh_request_id, (), id),
        (id / 0x1000_0000_0000_0000_0000) % 16 == 4,
        (id / 0x4000_0000_0000_0000) % 4 == 2,
        forall|other: u128| #[trigger]
            is_fresh_request_id(other) ==> call_ensures(fresh_request_id, (), other),
{
}

} // verus!
