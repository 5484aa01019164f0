use ed25519_dalek::Verifier;
use issuer_rust::field::{u64_to_fr, FieldElement};
use issuer_rust::signature::{
    credential_message, generate_keypair, keypair_from_seed, message_preimage, pk_to_hex,
    sign_message, signature_to_hex, SigningKey, VerifyingKey,
};

const SEED_HEX: &str = "9d61b19deffd5a60ba844af492ec2cc44449c5697b326919703bac031cae7f60";
const PUBLIC_HEX: &str = "d75a980182b10ab7d54bfed3c964073a0ee172f3daa62325af021a68f707511a";
const SIGNATURE_OF_EMPTY_HEX: &str = "e5564300c360ac729086e2cc806e828a84877f1eb8e5d974d873e065224901555fb8821590a33bacc61e39701cf9b46bd25bf5f0595bbe24655141438e7a100b";

fn seed() -> [u8; 32] {
    let bytes = hex::decode(SEED_HEX).unwrap();
    let mut seed = [0u8; 32];
    seed.copy_from_slice(&bytes);
    seed
}

fn verifies(vk: &VerifyingKey, msg: &[u8], sig_hex: &str) -> bool {
    let key = ed25519_dalek::VerifyingKey::from_bytes(&vk.to_bytes()).unwrap();
    let bytes = hex::decode(sig_hex).unwrap();
    let mut sig = [0u8; 64];
    sig.copy_from_slice(&bytes);
    key.verify(msg, &ed25519_dalek::Signature::from_bytes(&sig)).is_ok()
}

#[test]
fn test_signing() {
    let (sk, vk) = generate_keypair();
    let msg = b"hello hackathon";
    let sig_hex = sign_message(&sk, msg);
    assert!(!sig_hex.is_empty());
    // verify the signature bytes parse cleanly
    let sig_bytes = hex::decode(&sig_hex).unwrap();
    assert_eq!(sig_bytes.len(), 64);
    let _ = pk_to_hex(&vk);
}

#[test]
fn public_key_of_a_known_seed() {
    let (sk, vk) = keypair_from_seed(&seed());
    assert_eq!(sk.to_bytes(), seed());
    assert_eq!(pk_to_hex(&vk), PUBLIC_HEX);
    assert_eq!(hex::encode(vk.to_bytes()), PUBLIC_HEX);
    assert_eq!(SigningKey::from_bytes(&seed()).verifying_key(), vk);
}

#[test]
fn signature_of_a_known_seed() {
    let sk = SigningKey::from_bytes(&seed());
    assert_eq!(sign_message(&sk, b""), SIGNATURE_OF_EMPTY_HEX);
}

#[test]
fn encodings_have_fixed_width_and_lower_case() {
    let (sk, vk) = generate_keypair();
    let pk_hex = pk_to_hex(&vk);
    let sig_hex = sign_message(&sk, b"some message");
    assert_eq!(pk_hex.len(), 64);
    assert_eq!(sig_hex.len(), 128);
    for text in [pk_hex, sig_hex] {
        assert!(text.bytes().all(|b| b.is_ascii_digit() || (b'a'..=b'f').contains(&b)));
    }
}

#[test]
fn generated_keys_belong_together_and_are_fresh() {
    let (sk, vk) = generate_keypair();
    assert_eq!(sk.verifying_key(), vk);
    assert_eq!(keypair_from_seed(&sk.to_bytes()).1, vk);
    let (_, other) = generate_keypair();
    assert_ne!(vk, other);
}

#[test]
fn signing_is_deterministic() {
    let (sk, _) = generate_keypair();
    assert_eq!(sign_message(&sk, b"twice"), sign_message(&sk, b"twice"));
    assert_ne!(sign_message(&sk, b"twice"), sign_message(&sk, b"thrice"));
}

#[test]
fn message_known_answers() {
    let c1 = u64_to_fr(123);
    let c2 = u64_to_fr(456);
    assert_eq!(message_preimage("cred-1", &[&c1, &c2]), "cred-1123456");
    assert_eq!(
        hex::encode(credential_message("cred-1", &[&c1, &c2])),
        "1e196314773b5bb5325b23c7edf250eade8e0ec2537c580f91b10479b2f5f4db"
    );
    assert_eq!(message_preimage("cred-1", &[]), "cred-1");
    assert_eq!(
        hex::encode(credential_message("cred-1", &[])),
        "d9b90742146dc28626b7ac4ea88a3e2edfa2ad73830cf226e4b327375a13dcf1"
    );
    assert_eq!(message_preimage("", &[&u64_to_fr(0)]), "0");
    assert_eq!(message_preimage("caf\u{e9}", &[&c1]), "caf\u{e9}123");
}

#[test]
fn message_depends_on_the_order_of_the_commitments() {
    let c1 = u64_to_fr(123);
    let c2 = u64_to_fr(456);
    let forward = credential_message("id", &[&c1, &c2]);
    let backward = credential_message("id", &[&c2, &c1]);
    assert_eq!(forward.len(), 32);
    assert_ne!(forward, backward);
    assert_eq!(forward, credential_message("id", &[&c1, &c2]));
}

#[test]
fn signature_verifies_under_its_own_key_only() {
    let (sk, vk) = generate_keypair();
    let (_, other_vk) = generate_keypair();
    let commitments: Vec<FieldElement> = vec![u64_to_fr(11), u64_to_fr(22)];
    let parts: Vec<&FieldElement> = commitments.iter().collect();
    let msg = credential_message("0b0e5ab7-7b8a-4d6e-9f39-0c5d2f1f7a11", &parts);
    let sig_hex = sign_message(&sk, &msg);
    assert!(verifies(&vk, &msg, &sig_hex));
    assert!(!verifies(&other_vk, &msg, &sig_hex));
}

#[test]
fn signature_fails_when_a_commitment_is_altered() {
    let (sk, vk) = generate_keypair();
    let id = "0b0e5ab7-7b8a-4d6e-9f39-0c5d2f1f7a11";
    let c1 = u64_to_fr(11);
    let c2 = u64_to_fr(22);
    let msg = credential_message(id, &[&c1, &c2]);
    let sig_hex = sign_message(&sk, &msg);
    assert!(verifies(&vk, &msg, &sig_hex));
    let altered_second = credential_message(id, &[&c1, &u64_to_fr(23)]);
    let altered_first = credential_message(id, &[&u64_to_fr(12), &c2]);
    let swapped = credential_message(id, &[&c2, &c1]);
    let other_id = credential_message("0b0e5ab7-7b8a-4d6e-9f39-0c5d2f1f7a12", &[&c1, &c2]);
    for altered in [altered_second, altered_first, swapped, other_id] {
        assert!(!verifies(&vk, &altered, &sig_hex));
    }
}

#[test]
fn hexadecimal_encoding_known_answers() {
    let mut key = [0u8; 32];
    key[0] = 0x0f;
    key[1] = 0xf0;
    key[2] = 0xa9;
    key[31] = 0xff;
    let vk = VerifyingKey::from_bytes(&key);
    assert_eq!(vk.to_bytes(), key);
    assert_eq!(
        pk_to_hex(&vk),
        "0ff0a900000000000000000000000000000000000000000000000000000000ff"
    );
    let mut sig = [0x10u8; 64];
    sig[0] = 0x01;
    sig[63] = 0xbc;
    let text = signature_to_hex(&sig);
    assert_eq!(text.len(), 128);
    assert!(text.starts_with("0110"));
    assert!(text.ends_with("10bc"));
    assert_eq!(hex::decode(&text).unwrap(), sig.to_vec());
}
