use openssl::rsa::Rsa;
use openssl::symm::Cipher;
use slack::cipher::{
    decode_state, encode_state, has_zero_byte, open_plaintext, plaintext_token, CipherError,
    TokenCipher,
};

fn key_pems(passphrase: &[u8]) -> (Vec<u8>, Vec<u8>) {
    let rsa = Rsa::generate(1024).unwrap();
    let public = rsa.public_key_to_pem().unwrap();
    let private = rsa
        .private_key_to_pem_passphrase(Cipher::aes_128_cbc(), passphrase)
        .unwrap();
    (public, private)
}

fn cipher() -> TokenCipher {
    let (public, private) = key_pems(b"open sesame");
    TokenCipher::new(&public, &private, b"open sesame").unwrap()
}

#[test]
fn encode_state_writes_lower_case_pairs() {
    assert_eq!(encode_state(&[0x00, 0xff, 0x10, 0xab]), "00ff10ab");
    assert_eq!(encode_state(&[]), "");
}

#[test]
fn decode_state_reads_either_case() {
    assert_eq!(decode_state("00fF10Ab").unwrap(), vec![0x00, 0xff, 0x10, 0xab]);
    assert_eq!(decode_state("").unwrap(), Vec::<u8>::new());
}

#[test]
fn decode_state_refuses_odd_length() {
    assert_eq!(decode_state("abc"), Err(CipherError::MalformedState));
}

#[test]
fn decode_state_refuses_non_digits() {
    assert_eq!(decode_state("zz"), Err(CipherError::MalformedState));
    assert_eq!(decode_state("é0"), Err(CipherError::MalformedState));
}

#[test]
fn plaintext_token_takes_utf8() {
    assert_eq!(plaintext_token(b"xoxp-1".to_vec()).unwrap(), "xoxp-1");
    assert_eq!(plaintext_token(vec![0xff, 0xfe]), Err(CipherError::NotText));
}

#[test]
fn round_trip_recovers_the_token() {
    let c = cipher();
    for token in ["xoxp-1234-abcd", "", "naïve token ✓"] {
        let state = c.encrypt(token).unwrap();
        assert_eq!(c.decrypt(&state).unwrap(), token);
    }
}

#[test]
fn encrypt_gives_key_sized_hex() {
    let c = cipher();
    let state = c.encrypt("xoxp-1").unwrap();
    assert_eq!(state.len(), 256);
    assert!(state.chars().all(|ch| ch.is_ascii_hexdigit() && !ch.is_ascii_uppercase()));
}

#[test]
fn encrypt_refuses_a_token_too_long_for_the_key() {
    let c = cipher();
    let long = "x".repeat(200);
    assert_eq!(c.encrypt(&long), Err(CipherError::EncryptionFailed));
}

#[test]
fn decrypt_refuses_malformed_hex() {
    let c = cipher();
    assert_eq!(c.decrypt("not hex"), Err(CipherError::MalformedState));
    assert_eq!(c.decrypt("abc"), Err(CipherError::MalformedState));
}

#[test]
fn decrypt_refuses_wrong_length() {
    let c = cipher();
    assert_eq!(c.decrypt("00ff"), Err(CipherError::DecryptionFailed));
}

#[test]
fn decrypt_refuses_corrupted_ciphertext() {
    let c = cipher();
    let state = c.encrypt("xoxp-1").unwrap();
    let mut bytes = decode_state(&state).unwrap();
    bytes[0] ^= 0x01;
    bytes[10] ^= 0x80;
    let corrupted = encode_state(&bytes);
    assert!(c.decrypt(&corrupted).is_err());
}

#[test]
fn decrypt_refuses_state_of_another_key() {
    let a = cipher();
    let b = cipher();
    let state = a.encrypt("xoxp-1").unwrap();
    assert!(b.decrypt(&state).is_err());
}

#[test]
fn new_refuses_bad_keys() {
    let (public, private) = key_pems(b"right");
    assert!(matches!(
        TokenCipher::new(b"not a key", &private, b"right"),
        Err(CipherError::InvalidKey)
    ));
    assert!(matches!(
        TokenCipher::new(&public, &private, b"wrong"),
        Err(CipherError::InvalidKey)
    ));
    assert!(TokenCipher::new(&public, &private, b"right").is_ok());
}

#[test]
fn new_refuses_a_passphrase_with_a_zero_byte() {
    let (public, private) = key_pems(b"right");
    assert!(matches!(
        TokenCipher::new(&public, &private, b"rig\0ht"),
        Err(CipherError::InvalidKey)
    ));
}

#[test]
fn has_zero_byte_finds_it() {
    assert!(has_zero_byte(&[1, 0, 2]));
    assert!(!has_zero_byte(&[1, 2]));
    assert!(!has_zero_byte(&[]));
}

#[test]
fn open_plaintext_outcomes() {
    assert_eq!(open_plaintext(None), Err(CipherError::DecryptionFailed));
    assert_eq!(open_plaintext(Some(b"tok".to_vec())).unwrap(), "tok");
    assert_eq!(open_plaintext(Some(vec![0xc3])), Err(CipherError::NotText));
}

#[test]
fn encrypt_accepts_the_longest_token_that_fits() {
    let c = cipher();
    let token = "y".repeat(128 - 11);
    let state = c.encrypt(&token).unwrap();
    assert_eq!(c.decrypt(&state).unwrap(), token);
    assert_eq!(c.encrypt(&"y".repeat(128 - 10)), Err(CipherError::EncryptionFailed));
}
