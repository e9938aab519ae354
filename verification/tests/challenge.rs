use base64::Engine;
use infernal_taskmaster_simple::challenge::{challenge_from_bytes, decode_challenge};
use infernal_taskmaster_simple::error::TaskmasterError;

fn encode(bytes: &[u8]) -> String {
    base64::engine::general_purpose::URL_SAFE_NO_PAD.encode(bytes)
}

#[test]
fn a_challenge_is_read_back_from_its_text() {
    let mut seed: u8 = 1;
    for _ in 0..100 {
        let mut challenge = [0u8; 32];
        for byte in challenge.iter_mut() {
            seed = seed.wrapping_mul(73).wrapping_add(91);
            *byte = seed;
        }
        assert_eq!(decode_challenge(&encode(&challenge)), Ok(challenge));
    }
    assert_eq!(
        decode_challenge("__________________________________________8"),
        Ok([255; 32])
    );
    assert_eq!(
        decode_challenge("AAAAAAAAAAAAAAAAAAAAAAAAAAAAAAAAAAAAAAAAAAA"),
        Ok([0; 32])
    );
}

#[test]
fn a_challenge_of_another_length_is_refused() {
    for length in [0, 1, 16, 31, 33, 64] {
        assert_eq!(
            decode_challenge(&encode(&vec![7; length])),
            Err(TaskmasterError::InvalidEnrollmentChallenge)
        );
        assert_eq!(
            challenge_from_bytes(&vec![7; length]),
            Err(TaskmasterError::InvalidEnrollmentChallenge)
        );
    }
    assert_eq!(challenge_from_bytes(&[7; 32]), Ok([7; 32]));
}

#[test]
fn anything_but_the_exact_text_is_refused() {
    let text = encode(&[251; 32]);
    let padded = format!("{text}=");
    let spaced = format!("{text}\n");
    let standard = base64::engine::general_purpose::STANDARD_NO_PAD.encode([251; 32]);
    // The last character holds four bits of the challenge; the other two must
    // be clear.
    let trailing_bits = "__________________________________________9";
    let dangling = "A".repeat(45);

    assert_ne!(text, standard);
    for refused in [
        padded.as_str(),
        spaced.as_str(),
        standard.as_str(),
        trailing_bits,
        dangling.as_str(),
        "",
        "not a challenge",
        "\u{e9}",
    ] {
        assert_eq!(
            decode_challenge(refused),
            Err(TaskmasterError::InvalidEnrollmentChallenge)
        );
    }
}
