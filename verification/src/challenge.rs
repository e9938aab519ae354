//! Enrollment challenges: fixed-length random bytes, handed to this process
//! as unpadded base64url text.

use base64::Engine;
use vstd::prelude::*;

use crate::error::TaskmasterError;

verus! {

/// How many bytes an enrollment challenge holds.
pub const CHALLENGE_LENGTH: usize = 32;

/// The base64url character for a six-bit value.
pub open spec fn symbol(value: int) -> char {
    if value < 26 {
        ('A' as int + value) as char
    } else if value < 52 {
        ('a' as int + value - 26) as char
    } else if value < 62 {
        ('0' as int + value - 52) as char
    } else if value == 62 {
        '-'
    } else {
        '_'
    }
}

/// Byte `i` of `bytes`, and zero past the end.
pub open spec fn byte_at(bytes: Seq<u8>, i: int) -> int {
    if 0 <= i < bytes.len() {
        bytes[i] as int
    } else {
        0
    }
}

/// The `i`-th group of six bits of `bytes`, first bits first.
pub open spec fn sextet(bytes: Seq<u8>, i: int) -> int {
    let first = 3 * (i / 4);
    if i % 4 == 0 {
        byte_at(bytes, first) / 4
    } else if i % 4 == 1 {
        (byte_at(bytes, first) % 4) * 16 + byte_at(bytes, first + 1) / 16
    } else if i % 4 == 2 {
        (byte_at(bytes, first + 1) % 16) * 4 + byte_at(bytes, first + 2) / 64
    } else {
        byte_at(bytes, first + 2) % 64
    }
}

/// The unpadded base64url text of `bytes`: one character for each six bits,
/// the last group filled up with zero bits.
pub open spec fn base64url(bytes: Seq<u8>) -> Seq<char> {
    Seq::new(((4 * bytes.len() + 2) / 3) as nat, |i: int| symbol(sextet(bytes, i)))
}

/// `base64::engine::general_purpose::URL_SAFE_NO_PAD.decode`: it accepts a
/// text exactly where some bytes have that text as their unpadded base64url
/// form, and returns those bytes. Padding, a foreign character, a dangling
/// character and set bits after the last byte are all refused; which of them
/// it was is dropped.
#[verifier::external_body]
pub(crate) fn decode_base64url(text: &str) -> (decoded: Option<Vec<u8>>)
    ensures
        decoded matches Some(bytes) ==> base64url(bytes@) == text@,
        decoded is None ==> forall|bytes: Seq<u8>| #[trigger] base64url(bytes) != text@,
{
    base64::engine::general_purpose::URL_SAFE_NO_PAD.decode(text).ok()
}

proof fn lemma_symbol_injective(a: int, b: int)
    requires
        0 <= a < 64,
        0 <= b < 64,
        symbol(a) == symbol(b),
    ensures
        a == b,
{
}

proof fn lemma_sextet_range(bytes: Seq<u8>, i: int)
    ensures
        0 <= sextet(bytes, i) < 64,
{
}

/// Two byte strings never share a base64url text.
pub proof fn base64url_is_injective(a: Seq<u8>, b: Seq<u8>)
    requires
        base64url(a) == base64url(b),
    ensures
        a == b,
{
    let n = base64url(a).len();
    assert(n == base64url(b).len());
    assert(a.len() == b.len());
    assert forall|i: int| 0 <= i < n implies sextet(a, i) == sextet(b, i) by {
        assert(base64url(a)[i] == symbol(sextet(a, i)));
        assert(base64url(b)[i] == symbol(sextet(b, i)));
        lemma_sextet_range(a, i);
        lemma_sextet_range(b, i);
        lemma_symbol_injective(sextet(a, i), sextet(b, i));
    }
    assert forall|j: int| 0 <= j < a.len() implies a[j] == b[j] by {
        let q = 4 * (j / 3);
        if j % 3 == 0 {
            assert(q / 4 == j / 3 && (q + 1) / 4 == j / 3);
            assert(sextet(a, q) == sextet(b, q));
            assert(sextet(a, q + 1) == sextet(b, q + 1));
        } else if j % 3 == 1 {
            assert(sextet(a, q + 1) == sextet(b, q + 1));
            assert(sextet(a, q + 2) == sextet(b, q + 2));
        } else {
            assert(sextet(a, q + 2) == sextet(b, q + 2));
            assert(sextet(a, q + 3) == sextet(b, q + 3));
        }
    }
    assert(a =~= b);
}

/// The bytes as a challenge, where there are as many as a challenge holds.
pub fn challenge_from_bytes(bytes: &[u8]) -> (challenge: Result<
    [u8; CHALLENGE_LENGTH],
    TaskmasterError,
>)
    ensures
        challenge is Ok <==> bytes@.len() == CHALLENGE_LENGTH,
        challenge matches Ok(held) ==> held@ == bytes@,
        challenge matches Err(error) ==> error == TaskmasterError::InvalidEnrollmentChallenge,
{
    if bytes.len() != CHALLENGE_LENGTH {
        return Err(TaskmasterError::InvalidEnrollmentChallenge);
    }
    let mut held: [u8; CHALLENGE_LENGTH] = [0u8; CHALLENGE_LENGTH];
    for i in 0..CHALLENGE_LENGTH
        invariant
            bytes@.len() == CHALLENGE_LENGTH,
            forall|j: int| 0 <= j < i ==> held@[j] == bytes@[j],
    {
        held[i] = bytes[i];
    }
    assert(held@ =~= bytes@);
    Ok(held)
}

/// Reads a challenge from its unpadded base64url text. Only the exact text of
/// a full-length challenge is accepted.
pub fn decode_challenge(value: &str) -> (challenge: Result<
    [u8; CHALLENGE_LENGTH],
    TaskmasterError,
>)
    ensures
        challenge matches Ok(held) ==> base64url(held@) == value@,
        forall|bytes: Seq<u8>|
            bytes.len() == CHALLENGE_LENGTH && #[trigger] base64url(bytes) == value@ ==> {
                &&& challenge is Ok
                &&& challenge->Ok_0@ == bytes
            },
        challenge matches Err(error) ==> error == TaskmasterError::InvalidEnrollmentChallenge,
{
    match decode_base64url(value) {
        Some(bytes) => {
            proof {
                assert forall|other: Seq<u8>| #[trigger]
                    base64url(other) == value@ implies other == bytes@ by {
                    base64url_is_injective(other, bytes@);
                }
            }
            challenge_from_bytes(bytes.as_slice())
        },
        None => Err(TaskmasterError::InvalidEnrollmentChallenge),
    }
}

/// The number that bytes stand for, the most significant first.
pub open spec fn bytes_value(bytes: Seq<u8>) -> nat
    decreases bytes.len(),
{
    if bytes.len() == 0 {
        0
    } else {
        256 * bytes_value(bytes.drop_last()) + bytes.last() as nat
    }
}

/// The place of a character in the base64url alphabet.
pub open spec fn place_of(c: char) -> int {
    choose|place: int|
        0 <= place < 64
            && #[trigger] "ABCDEFGHIJKLMNOPQRSTUVWXYZabcdefghijklmnopqrstuvwxyz0123456789-_"@[place]
            == c
}

/// The number that base64url text stands for, the most significant character
/// first.
pub open spec fn text_value(text: Seq<char>) -> int
    decreases text.len(),
{
    if text.len() == 0 {
        0
    } else {
        64 * text_value(text.drop_last()) + place_of(text.last())
    }
}

proof fn lemma_symbol_place(value: int)
    requires
        0 <= value < 64,
    ensures
        "ABCDEFGHIJKLMNOPQRSTUVWXYZabcdefghijklmnopqrstuvwxyz0123456789-_"@[value] == symbol(value),
        place_of(symbol(value)) == value,
{
    reveal_strlit("ABCDEFGHIJKLMNOPQRSTUVWXYZabcdefghijklmnopqrstuvwxyz0123456789-_");
    let alphabet = "ABCDEFGHIJKLMNOPQRSTUVWXYZabcdefghijklmnopqrstuvwxyz0123456789-_"@;
    assert forall|place: int| 0 <= place < 64 implies #[trigger] alphabet[place] == symbol(
        place,
    ) by {}
    assert(alphabet[value] == symbol(value));
    let place = place_of(symbol(value));
    assert(0 <= place < 64 && alphabet[place] == symbol(value));
    lemma_symbol_injective(place, value);
}

proof fn lemma_text_value_step(bytes: Seq<u8>, n: int)
    requires
        0 <= n < base64url(bytes).len(),
    ensures
        text_value(base64url(bytes).take(n + 1)) == 64 * text_value(base64url(bytes).take(n))
            + sextet(bytes, n),
{
    let text = base64url(bytes);
    assert(text.take(n + 1).drop_last() =~= text.take(n));
    assert(text.take(n + 1).last() == symbol(sextet(bytes, n)));
    lemma_sextet_range(bytes, n);
    lemma_symbol_place(sextet(bytes, n));
}

proof fn lemma_bytes_value_step(bytes: Seq<u8>, n: int)
    requires
        0 <= n < bytes.len(),
    ensures
        bytes_value(bytes.take(n + 1)) == 256 * bytes_value(bytes.take(n)) + bytes[n],
{
    assert(bytes.take(n + 1).drop_last() =~= bytes.take(n));
}

proof fn lemma_groups_keep_the_value(bytes: Seq<u8>, groups: int)
    requires
        0 <= groups,
        3 * groups <= bytes.len(),
    ensures
        text_value(base64url(bytes).take(4 * groups)) == bytes_value(bytes.take(3 * groups)),
    decreases groups,
{
    if groups > 0 {
        let g = groups - 1;
        lemma_groups_keep_the_value(bytes, g);
        let (t, b) = (4 * g, 3 * g);
        lemma_text_value_step(bytes, t);
        lemma_text_value_step(bytes, t + 1);
        lemma_text_value_step(bytes, t + 2);
        lemma_text_value_step(bytes, t + 3);
        lemma_bytes_value_step(bytes, b);
        lemma_bytes_value_step(bytes, b + 1);
        lemma_bytes_value_step(bytes, b + 2);
        assert(t / 4 == g && (t + 1) / 4 == g && (t + 2) / 4 == g && (t + 3) / 4 == g);
        assert(t % 4 == 0 && (t + 1) % 4 == 1 && (t + 2) % 4 == 2 && (t + 3) % 4 == 3);
    } else {
        assert(base64url(bytes).take(0) =~= Seq::<char>::empty());
        assert(bytes.take(0) =~= Seq::<u8>::empty());
    }
}

/// A challenge and its text are the same number, written to the bases two
/// hundred and fifty-six and sixty-four: forty-three characters of the
/// alphabet hold the thirty-two bytes and two zero bits behind them.
pub proof fn challenge_text_is_the_same_number(bytes: Seq<u8>)
    requires
        bytes.len() == 32,
    ensures
        base64url(bytes).len() == 43,
        text_value(base64url(bytes)) == 4 * bytes_value(bytes),
{
    lemma_groups_keep_the_value(bytes, 10);
    lemma_text_value_step(bytes, 40);
    lemma_text_value_step(bytes, 41);
    lemma_text_value_step(bytes, 42);
    lemma_bytes_value_step(bytes, 30);
    lemma_bytes_value_step(bytes, 31);
    assert(base64url(bytes).take(43) =~= base64url(bytes));
    assert(bytes.take(32) =~= bytes);
}

/// A challenge read from text is the thirty-two bytes that have that text,
/// each in its place; a text that no such bytes have is refused, and every
/// text that some have is read.
pub proof fn challenge_reads_back(
    value: &str,
    challenge: Result<[u8; CHALLENGE_LENGTH], TaskmasterError>,
)
    requires
        call_ensures(decode_challenge, (value,), challenge),
    ensures
        challenge matches Ok(held) ==> held@.len() == 32 && base64url(held@) == value@,
        challenge matches Ok(held) ==> value@.len() == 43 && text_value(value@) == 4 * bytes_value(
            held@,
        ),
        challenge matches Err(error) ==> error == TaskmasterError::InvalidEnrollmentChallenge,
        challenge is Err ==> forall|bytes: Seq<u8>|
            bytes.len() == 32 ==> #[trigger] base64url(bytes) != value@,
{
    if let Ok(held) = challenge {
        challenge_text_is_the_same_number(held@);
    }
}

/// Bytes make a challenge exactly where there are thirty-two, and then they
/// are the challenge, each in its place.
pub proof fn challenge_holds_its_bytes(
    bytes: &[u8],
    challenge: Result<[u8; CHALLENGE_LENGTH], TaskmasterError>,
)
    requires
        call_ensures(challenge_from_bytes, (bytes,), challenge),
    ensures
        challenge is Ok <==> bytes@.len() == 32,
        challenge matches Ok(held) ==> forall|i: int|
            0 <= i < 32 ==> #[trigger] held@[i] == bytes@[i],
        challenge matches Err(error) ==> error == TaskmasterError::InvalidEnrollmentChallenge,
{
}

} // verus!
