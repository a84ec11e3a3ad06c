use hub::auth::{answer_challenge, check_answer};

/// HMAC-SHA256 of the bytes 0 to 15 under the key "open sesame".
const CODE: [u8; 32] = [
    0x82, 0xdd, 0x12, 0xc2, 0x44, 0x58, 0x56, 0x03,
    0xd6, 0x5c, 0x7b, 0xdb, 0xef, 0x68, 0xc6, 0x70,
    0x13, 0x77, 0x0c, 0xde, 0x4e, 0x4e, 0xcf, 0xf1,
    0x49, 0xe0, 0xc8, 0xf4, 0x54, 0x42, 0x22, 0xb2,
];

/// HMAC-SHA256 of the bytes 0 to 15 under the UTF-8 bytes of "schlüssel".
const UMLAUT_CODE: [u8; 32] = [
    0x4e, 0x11, 0x69, 0x81, 0xed, 0x71, 0x6a, 0x09,
    0x51, 0x80, 0xf9, 0xe3, 0xe6, 0x8a, 0x8d, 0x8c,
    0x94, 0x9d, 0x68, 0xc3, 0x05, 0xb3, 0x70, 0xe9,
    0x48, 0x17, 0x76, 0xd2, 0xe8, 0x69, 0xc4, 0xa7,
];

const KEY: &str = "open sesame";

fn challenge() -> Vec<u8> {
    (0..16).collect()
}

#[test]
fn answer_is_the_code_of_the_challenge() {
    assert_eq!(answer_challenge(KEY, &challenge()), CODE);
    assert_eq!(answer_challenge("schl\u{fc}ssel", &challenge()), UMLAUT_CODE);
}

#[test]
fn only_the_right_answer_passes() {
    let challenge = challenge();
    assert!(check_answer(KEY, &challenge, &CODE));
    for i in 0..CODE.len() {
        let mut wrong = CODE;
        wrong[i] ^= 1;
        assert!(!check_answer(KEY, &challenge, &wrong));
    }
    assert!(!check_answer(KEY, &challenge, &CODE[..31]));
    assert!(!check_answer(KEY, &challenge, &[]));
    assert!(!check_answer(KEY, &challenge[1..], &CODE));
    assert!(!check_answer(KEY, &challenge, &challenge));
    let mut longer = CODE.to_vec();
    longer.push(0);
    assert!(!check_answer(KEY, &challenge, &longer));
}

#[test]
fn answer_under_another_key_does_not_pass() {
    let challenge = challenge();
    for other in ["", "open", "Open sesame", "open sesame!", "top secret"] {
        assert!(!check_answer(other, &challenge, &CODE));
        assert!(!check_answer(KEY, &challenge, &answer_challenge(other, &challenge)));
    }
}

#[test]
fn every_challenge_can_be_answered() {
    for n in 0..70u8 {
        let challenge: Vec<u8> = (0..n).collect();
        let key = "k".repeat(usize::from(n));
        let answer = answer_challenge(&key, &challenge);
        assert_eq!(answer.len(), 32);
        assert!(check_answer(&key, &challenge, &answer));
    }
}
