use p256::ecdsa::signature::Signer;
use p256::ecdsa::{Signature, SigningKey};
use roblox_api::api::auth::v1::{
    authentication_binding, authentication_intent, intent_with, AuthenticationIntent,
};
use sha2::{Digest, Sha256};

fn secret_one() -> Vec<u8> {
    let mut secret = vec![0u8; 32];
    secret[31] = 1;
    secret
}

// The public key of the secret key 1 is the base point of the curve.
const BASE_POINT: &str =
    "BGsX0fLhLEJH+Lzm5WOkQPJ3A32BLeszoPShOUXYmMKWT+NC4v4af5uO5+tKfA+eFivOM1drMV7Oy7ZAaDe/UfU=";

#[test]
fn the_binding_joins_key_time_and_nonce() {
    assert_eq!(authentication_binding("pk", 0, ""), "pk:0:");
    assert_eq!(authentication_binding("a:b", 1700000000, "n"), "a:b:1700000000:n");
}

#[test]
fn an_intent_carries_the_public_key_in_base64() {
    let intent = intent_with(&secret_one(), 1700000000, "nonce-1").unwrap();
    assert_eq!(intent.public_key, BASE_POINT);
    assert_eq!(intent.epoch_timestamp, 1700000000);
    assert_eq!(intent.nonce, "nonce-1");
}

#[test]
fn an_intent_is_signed_over_the_digest_of_the_binding() {
    let intent = intent_with(&secret_one(), 1700000000, "nonce-1").unwrap();
    let binding = format!("{}:{}:{}", BASE_POINT, 1700000000u64, "nonce-1");
    let key = SigningKey::from_slice(&secret_one()).unwrap();
    let hash = Sha256::digest(binding);
    let signature: Signature = key.sign(&hash[..]);
    assert_eq!(intent.signature, String::from_utf8_lossy(&signature.to_bytes()).to_string());
    // signing the binding itself gives another signature
    let binding = format!("{}:{}:{}", BASE_POINT, 1700000000u64, "nonce-1");
    let unhashed: Signature = key.sign(binding.as_bytes());
    assert_ne!(intent.signature, String::from_utf8_lossy(&unhashed.to_bytes()).to_string());
}

#[test]
fn the_same_key_time_and_nonce_give_the_same_intent() {
    let first = intent_with(&secret_one(), 5, "n").unwrap();
    let second = intent_with(&secret_one(), 5, "n").unwrap();
    assert_eq!(first, second);
    let other_nonce = intent_with(&secret_one(), 5, "m").unwrap();
    assert_eq!(other_nonce.public_key, first.public_key);
    assert_ne!(other_nonce.signature, first.signature);
    let other_time = intent_with(&secret_one(), 6, "n").unwrap();
    assert_ne!(other_time.signature, first.signature);
    let mut secret = secret_one();
    secret[31] = 2;
    let other_key = intent_with(&secret, 5, "n").unwrap();
    assert_ne!(other_key.public_key, first.public_key);
}

#[test]
fn bytes_that_are_no_key_give_no_intent() {
    assert_eq!(intent_with(&[0u8; 32], 5, "n"), None);
    assert_eq!(intent_with(&[0xffu8; 32], 5, "n"), None);
    assert_eq!(intent_with(&[], 5, "n"), None);
}

#[test]
fn a_fresh_intent_has_a_key_of_its_own_and_the_time_of_the_clock() {
    let first: AuthenticationIntent = authentication_intent("n").unwrap();
    let second = authentication_intent("n").unwrap();
    assert_ne!(first.public_key, second.public_key);
    assert_eq!(first.nonce, "n");
    // an uncompressed point of 65 bytes is 88 characters of base64
    assert_eq!(first.public_key.len(), 88);
    assert!(first.public_key.starts_with('B'));
    // later than the first of January 2020
    assert!(first.epoch_timestamp > 1577836800);
}
