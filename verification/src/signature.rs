//! Issuer keys, the message that a credential is signed over, and Ed25519
//! signatures with their hexadecimal encodings.

use crate::decimal::{decimal_chars, digit_char, fr_to_decimal};
use crate::field::FieldElement;
use crate::hash::{sha256_bytes, sha256_digest};
use ed25519_dalek::Signer;
use rand::rngs::OsRng;
use vstd::prelude::*;
use vstd::string::*;
use vstd::utf8::encode_utf8;

verus! {

/// The Ed25519 public key that belongs to a 32-byte secret seed.
pub uninterp spec fn ed25519_public_key(seed: Seq<u8>) -> Seq<u8>;

/// The Ed25519 signature of `message` under a 32-byte secret seed. Signing is
/// deterministic.
pub uninterp spec fn ed25519_signature(seed: Seq<u8>, message: Seq<u8>) -> Seq<u8>;

/// The lower-case hexadecimal digit for a number below sixteen.
pub open spec fn hex_digit(d: nat) -> char {
    if d < 10 {
        digit_char(d)
    } else if d == 10 {
        'a'
    } else if d == 11 {
        'b'
    } else if d == 12 {
        'c'
    } else if d == 13 {
        'd'
    } else if d == 14 {
        'e'
    } else {
        'f'
    }
}

/// The lower-case hexadecimal text of a byte string, two digits to the byte,
/// the high half first.
pub open spec fn hex_chars(bytes: Seq<u8>) -> Seq<char>
    decreases bytes.len(),
{
    if bytes.len() == 0 {
        Seq::empty()
    } else {
        hex_chars(bytes.drop_last()).push(hex_digit(bytes.last() as nat / 16)).push(
            hex_digit(bytes.last() as nat % 16),
        )
    }
}

/// The decimal texts of a list of commitments, one after the other.
pub open spec fn commitments_text(commitments: Seq<nat>) -> Seq<char>
    decreases commitments.len(),
{
    if commitments.len() == 0 {
        Seq::empty()
    } else {
        commitments_text(commitments.drop_last()) + decimal_chars(commitments.last())
    }
}

/// The text that is hashed for a credential: its identifier, then the decimal
/// text of each commitment in order.
pub open spec fn message_text(credential_id: Seq<char>, commitments: Seq<nat>) -> Seq<char> {
    credential_id + commitments_text(commitments)
}

/// The message that is signed for a credential: the SHA-256 digest of the
/// UTF-8 bytes of its message text.
pub open spec fn credential_digest(credential_id: Seq<char>, commitments: Seq<nat>) -> Seq<u8> {
    sha256_digest(encode_utf8(message_text(credential_id, commitments)))
}

/// The representatives of a list of field elements.
pub open spec fn element_values(elements: Seq<&FieldElement>) -> Seq<nat> {
    elements.map_values(|f: &FieldElement| f@)
}

/// `SigningKey::generate` of `ed25519-dalek` on the operating system's
/// generator: the 32-byte seed of a fresh signing key. Nothing is known of it.
#[verifier::external_body]
pub(crate) fn dalek_generate() -> [u8; 32] {
    ed25519_dalek::SigningKey::generate(&mut OsRng).to_bytes()
}

/// `SigningKey::verifying_key` of `ed25519-dalek`, on the key made of `seed`:
/// the 32 bytes of the public key that belongs to the seed.
#[verifier::external_body]
fn dalek_verifying_key(seed: &[u8; 32]) -> (r: [u8; 32])
    ensures
        r@ == ed25519_public_key(seed@),
{
    ed25519_dalek::SigningKey::from_bytes(seed).verifying_key().to_bytes()
}

/// `Signer::sign` of `ed25519-dalek`, on the key made of `seed`: the 64 bytes
/// of the signature of `message`.
#[verifier::external_body]
fn dalek_sign(seed: &[u8; 32], message: &[u8]) -> (r: [u8; 64])
    ensures
        r@ == ed25519_signature(seed@, message@),
{
    ed25519_dalek::SigningKey::from_bytes(seed).sign(message).to_bytes()
}

/// `hex::encode`: each byte becomes two lower-case hexadecimal digits.
#[verifier::external_body]
fn hex_encode(bytes: &[u8]) -> (r: String)
    ensures
        r@ == hex_chars(bytes@),
{
    hex::encode(bytes)
}

/// An issuer's signing key: the 32-byte secret seed of an Ed25519 key.
#[derive(Clone)]
pub struct SigningKey {
    seed: [u8; 32],
}

/// An issuer's public key: the 32 bytes of an Ed25519 verifying key.
#[derive(Clone, Copy, Debug, PartialEq, Eq)]
pub struct VerifyingKey {
    bytes: [u8; 32],
}

impl View for SigningKey {
    type V = Seq<u8>;

    closed spec fn view(&self) -> Seq<u8> {
        self.seed@
    }
}

impl View for VerifyingKey {
    type V = Seq<u8>;

    closed spec fn view(&self) -> Seq<u8> {
        self.bytes@
    }
}

impl SigningKey {
    /// The signing key with the given secret seed.
    pub fn from_bytes(seed: &[u8; 32]) -> (key: SigningKey)
        ensures
            key@ == seed@,
    {
        SigningKey { seed: *seed }
    }

    /// The secret seed.
    pub fn to_bytes(&self) -> (seed: [u8; 32])
        ensures
            seed@ == self@,
    {
        self.seed
    }

    /// The public key that belongs to this signing key.
    pub fn verifying_key(&self) -> (key: VerifyingKey)
        ensures
            key@ == ed25519_public_key(self@),
    {
        VerifyingKey { bytes: dalek_verifying_key(&self.seed) }
    }
}

impl VerifyingKey {
    /// The public key with the given bytes.
    pub fn from_bytes(bytes: &[u8; 32]) -> (key: VerifyingKey)
        ensures
            key@ == bytes@,
    {
        VerifyingKey { bytes: *bytes }
    }

    /// The 32 bytes of the key.
    pub fn to_bytes(&self) -> (bytes: [u8; 32])
        ensures
            bytes@ == self@,
    {
        self.bytes
    }
}

/// The hexadecimal text of `n` bytes has `2 * n` characters.
pub proof fn lemma_hex_chars_len(bytes: Seq<u8>)
    ensures
        hex_chars(bytes).len() == 2 * bytes.len(),
    decreases bytes.len(),
{
    if bytes.len() > 0 {
        lemma_hex_chars_len(bytes.drop_last());
    }
}

/// The text that is hashed for a credential.
pub fn message_preimage(cred_id: &str, c_parts: &[&FieldElement]) -> (text: String)
    ensures
        text@ == message_text(cred_id@, element_values(c_parts@)),
{
    let ghost values = element_values(c_parts@);
    let mut text = String::from_str(cred_id);
    let mut i: usize = 0;
    assert(values.take(0) =~= Seq::<nat>::empty());
    while i < c_parts.len()
        invariant
            i <= c_parts.len(),
            values == element_values(c_parts@),
            text@ == message_text(cred_id@, values.take(i as int)),
        decreases c_parts.len() - i,
    {
        let part = fr_to_decimal(c_parts[i]);
        text.append(part.as_str());
        proof {
            let next = values.take(i + 1);
            assert(next.drop_last() =~= values.take(i as int));
            assert(next.last() == c_parts@[i as int]@);
            assert(text@ =~= message_text(cred_id@, next));
        }
        i = i + 1;
    }
    assert(values.take(i as int) =~= values);
    text
}

/// The message that is signed for a credential: the SHA-256 digest over its
/// identifier followed by the decimal text of each commitment, in the order
/// given.
pub fn credential_message(cred_id: &str, c_parts: &[&FieldElement]) -> (digest: Vec<u8>)
    ensures
        digest@ == credential_digest(cred_id@, element_values(c_parts@)),
        digest@.len() == 32,
{
    let text = message_preimage(cred_id, c_parts);
    sha256_bytes(text.as_str().as_bytes())
}

/// The signing key and the public key that belong to a secret seed.
pub fn keypair_from_seed(seed: &[u8; 32]) -> (pair: (SigningKey, VerifyingKey))
    ensures
        pair.0@ == seed@,
        pair.1@ == ed25519_public_key(seed@),
{
    let sk = SigningKey::from_bytes(seed);
    let vk = sk.verifying_key();
    (sk, vk)
}

/// Generates a fresh issuer key pair.
pub fn generate_keypair() -> (pair: (SigningKey, VerifyingKey))
    ensures
        pair.1@ == ed25519_public_key(pair.0@),
{
    let seed: [u8; 32] = dalek_generate();
    keypair_from_seed(&seed)
}

/// Encodes the 64 bytes of a signature as 128 hexadecimal digits.
pub fn signature_to_hex(signature: &[u8; 64]) -> (text: String)
    ensures
        text@ == hex_chars(signature@),
        text@.len() == 128,
{
    proof {
        lemma_hex_chars_len(signature@);
    }
    hex_encode(signature.as_slice())
}

/// Signs `msg` and returns the signature as 128 hexadecimal digits.
pub fn sign_message(sk: &SigningKey, msg: &[u8]) -> (sig: String)
    ensures
        sig@ == hex_chars(ed25519_signature(sk@, msg@)),
        sig@.len() == 128,
{
    let signature: [u8; 64] = dalek_sign(&sk.seed, msg);
    signature_to_hex(&signature)
}

/// Encodes a public key as 64 hexadecimal digits.
pub fn pk_to_hex(vk: &VerifyingKey) -> (text: String)
    ensures
        text@ == hex_chars(vk@),
        text@.len() == 64,
{
    proof {
        lemma_hex_chars_len(vk.bytes@);
    }
    hex_encode(vk.bytes.as_slice())
}

} // verus!
