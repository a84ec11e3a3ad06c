//! How a hub finds out whether a spoke may connect: it sends a challenge, and the spoke answers
//! with the HMAC-SHA256 code of the challenge under the key that both sides hold.
use hmac::digest::Mac;
use vstd::prelude::*;

verus! {

/// The HMAC-SHA256 code of some data under a key.
pub uninterp spec fn hmac_sha256(key: Seq<u8>, data: Seq<u8>) -> Seq<u8>;

/// `Mac::finalize` of `Hmac<Sha256>`, after `new_from_slice` with the key and one `update` with
/// the data: the code of the data under the key, 32 bytes long. A key of any length is taken.
#[verifier::external_body]
fn compute_code(key: &[u8], data: &[u8]) -> (code: Vec<u8>)
    ensures
        code@ == hmac_sha256(key@, data@),
        code@.len() == 32,
{
    let mut mac = hmac::Hmac::<sha2::Sha256>::new_from_slice(key).unwrap();
    mac.update(data);
    mac.finalize().into_bytes().to_vec()
}

/// `Mac::verify_slice` of `Hmac<Sha256>`, after `new_from_slice` with the key and one `update` with
/// the data: it succeeds on the code of the data under the key, and on nothing else.
#[verifier::external_body]
fn verify_code(key: &[u8], data: &[u8], code: &[u8]) -> (ok: bool)
    ensures
        ok <==> code@ == hmac_sha256(key@, data@),
{
    let mut mac = hmac::Hmac::<sha2::Sha256>::new_from_slice(key).unwrap();
    mac.update(data);
    mac.verify_slice(code).is_ok()
}

/// Whether some bytes have the form of a challenge: those of a random (version 4) UUID.
pub open spec fn is_challenge(bytes: Seq<u8>) -> bool {
    &&& bytes.len() == 16
    &&& 0x40 <= bytes[6] <= 0x4f
    &&& 0x80 <= bytes[8] <= 0xbf
}

/// `Uuid::new_v4` and `Uuid::into_bytes`: the sixteen bytes of a UUID of version 4 in the variant
/// of RFC 9562. The other bits are random, so nothing is said of them. Where the operating system
/// has no random bytes to give, `new_v4` panics.
#[verifier::external_body]
pub(crate) fn new_challenge() -> (challenge: Vec<u8>)
    ensures
        is_challenge(challenge@),
{
    uuid::Uuid::new_v4().into_bytes().to_vec()
}

/// The right answer to a challenge for those who hold a key: the code of the challenge under the
/// bytes of the key.
pub open spec fn right_answer(key: Seq<char>, challenge: Seq<u8>) -> Seq<u8> {
    hmac_sha256(vstd::utf8::encode_utf8(key), challenge)
}

/// Answers a challenge with a key.
pub fn answer_challenge(key: &str, challenge: &[u8]) -> (answer: Vec<u8>)
    ensures
        answer@ == right_answer(key@, challenge@),
        answer@.len() == 32,
{
    compute_code(key.as_bytes(), challenge)
}

/// Whether an answer to a challenge is the right one for a key.
pub fn check_answer(key: &str, challenge: &[u8], answer: &[u8]) -> (ok: bool)
    ensures
        ok <==> answer@ == right_answer(key@, challenge@),
{
    verify_code(key.as_bytes(), challenge, answer)
}

/// The answer to a challenge is its HMAC-SHA256 code under the bytes of the key, whatever the two
/// are, and the answer that is given is taken by those who hold the same key, and by nobody else
/// for whom the code is another.
pub proof fn answer_is_taken_under_the_same_key(
    key: &str,
    challenge: &[u8],
    answer: Vec<u8>,
    other: &str,
    posed: &[u8],
    code: &[u8],
    ok: bool,
)
    requires
        call_ensures(answer_challenge, (key, challenge), answer),
        call_ensures(check_answer, (other, posed, code), ok),
    ensures
        answer@ == hmac_sha256(vstd::utf8::encode_utf8(key@), challenge@),
        answer@.len() == 32,
        ok <==> code@ == hmac_sha256(vstd::utf8::encode_utf8(other@), posed@),
        code@ == answer@ && other@ == key@ && posed@ == challenge@ ==> ok,
{
}

} // verus!
