use pqc_dilithium::render::render_keypair;
use pqc_dilithium::{verify, Keypair, SignError, PUBLICKEYBYTES, SECRETKEYBYTES, SEEDBYTES, SIGNBYTES};

fn seeded(byte: u8) -> Keypair {
    Keypair::generate_with_seed([byte; SEEDBYTES])
}

#[test]
fn seeded_generation_repeats_and_separates() {
    let keys = seeded(3);
    let keys2 = seeded(3);
    assert!(keys.compare_secrets(&keys2));
    assert_eq!(keys.public, keys2.public);
    let keys3 = seeded(4);
    assert!(!keys.compare_secrets(&keys3));
}

#[test]
fn same_seed_gives_identical_bytes() {
    for byte in [0u8, 1, 0x5a, 0xff] {
        let a = seeded(byte);
        let b = seeded(byte);
        assert_eq!(a.public, b.public);
        assert_eq!(a.expose_secret(), b.expose_secret());
    }
}

#[test]
fn different_seeds_give_different_secrets() {
    let mut seed = [7u8; SEEDBYTES];
    let a = Keypair::generate_with_seed(seed);
    seed[SEEDBYTES - 1] = 8;
    let b = Keypair::generate_with_seed(seed);
    assert!(!a.compare_secrets(&b));
    assert_ne!(a.expose_secret(), b.expose_secret());
    assert_ne!(a.public, b.public);
}

#[test]
fn secret_compares_equal_to_itself() {
    let keys = Keypair::generate().unwrap();
    assert!(keys.compare_secrets(&keys));
    let copy = keys.clone();
    assert!(keys.compare_secrets(&copy));
}

#[test]
fn independent_keys_have_different_secrets() {
    let keys = Keypair::generate().unwrap();
    let keys2 = Keypair::generate().unwrap();
    assert!(!keys.compare_secrets(&keys2));
    assert!(keys.compare_secrets(&keys));
}

#[test]
fn generated_lengths() {
    let keys = Keypair::generate().unwrap();
    assert_eq!(keys.public.len(), PUBLICKEYBYTES);
    assert_eq!(keys.expose_secret().len(), SECRETKEYBYTES);
}

#[test]
fn derived_keys_are_not_the_seed_or_zero() {
    let keys = seeded(0);
    assert!(keys.expose_secret().iter().any(|b| *b != 0));
    assert!(keys.public.iter().any(|b| *b != 0));
}

#[test]
fn sign_hello_and_verify() {
    let keys = Keypair::generate().unwrap();
    let message = "Hello".as_bytes();
    let sig = keys.sign(message).unwrap();
    assert_eq!(sig.len(), SIGNBYTES);
    assert_eq!(verify(&sig, message, &keys.public), Ok(()));
}

#[test]
fn sign_verify_round_trip() {
    let keys = seeded(9);
    let long = vec![0xabu8; 10_000];
    let messages: [&[u8]; 4] = [&[], &[0u8; 32], b"abc", &long];
    for msg in messages {
        let sig = keys.sign(msg).unwrap();
        assert_eq!(verify(&sig, msg, &keys.public), Ok(()));
    }
}

#[test]
fn signing_is_deterministic() {
    let keys = seeded(11);
    assert_eq!(keys.sign(b"same").unwrap(), keys.sign(b"same").unwrap());
    assert_ne!(keys.sign(b"same").unwrap(), keys.sign(b"other").unwrap());
}

#[test]
fn wrong_signature_length_is_input_error() {
    let keys = seeded(1);
    let msg = b"message";
    let sig = keys.sign(msg).unwrap();
    assert_eq!(verify(&[], msg, &keys.public), Err(SignError::Input));
    assert_eq!(verify(&sig[..SIGNBYTES - 1], msg, &keys.public), Err(SignError::Input));
    let mut longer = sig.to_vec();
    longer.push(0);
    assert_eq!(verify(&longer, msg, &keys.public), Err(SignError::Input));
    assert_eq!(verify(&longer, msg, &[]), Err(SignError::Input));
}

#[test]
fn signature_under_other_key_is_rejected() {
    let k1 = seeded(1);
    let k2 = seeded(2);
    let msg = b"message";
    let sig = k1.sign(msg).unwrap();
    assert_eq!(verify(&sig, msg, &k2.public), Err(SignError::Verify));
}

#[test]
fn altered_message_or_signature_is_rejected() {
    let keys = seeded(5);
    let sig = keys.sign(b"pay 10").unwrap();
    assert_eq!(verify(&sig, b"pay 11", &keys.public), Err(SignError::Verify));
    let mut bad = sig;
    bad[0] ^= 1;
    assert_eq!(verify(&bad, b"pay 10", &keys.public), Err(SignError::Verify));
}

#[test]
fn public_key_of_wrong_length_is_rejected() {
    let keys = seeded(6);
    let sig = keys.sign(b"m").unwrap();
    assert_eq!(verify(&sig, b"m", &keys.public[1..]), Err(SignError::Verify));
    assert_eq!(verify(&sig, b"m", &[]), Err(SignError::Verify));
}

#[test]
fn debug_text_shows_public_and_elides_secret() {
    let keys = seeded(3);
    let text = keys.debug_text();
    assert_eq!(text, format!("public: {:?}\nsecret: <elided>", keys.public));
    let secret_text = format!("{:?}", keys.expose_secret());
    let secret_list = &secret_text[1..secret_text.len() - 1];
    assert!(!text.contains(secret_list));
}

#[test]
fn debug_text_same_for_same_public() {
    let keys = seeded(8);
    let copy = keys.clone();
    assert_eq!(keys.debug_text(), copy.debug_text());
}

#[test]
fn render_exact_text() {
    assert_eq!(render_keypair(&[]), "public: []\nsecret: <elided>");
    assert_eq!(render_keypair(&[0, 7, 42, 100, 255]), "public: [0, 7, 42, 100, 255]\nsecret: <elided>");
}

#[test]
fn sign_error_variants_differ() {
    assert_ne!(SignError::Input, SignError::Verify);
    assert_eq!(format!("{:?}", SignError::Input), "Input");
}
