//! The token cipher: an access token is encrypted with the public half of a
//! fixed RSA key pair and handed out as hexadecimal text, the "state"; the
//! private half, unlocked by a passphrase, turns a state back into the token.

use crate::hexcode::{hex_bytes, hex_text, lemma_hex_round_trip, lemma_hex_text_len};
use hex::FromHexError;
use openssl::error::ErrorStack;
use openssl::pkey::{Private, Public};
use openssl::rsa::{Padding, Rsa};
use std::string::FromUtf8Error;
use vstd::prelude::*;
use vstd::utf8::{
    decode_utf8, decode_utf8_encode_utf8, encode_utf8, encode_utf8_decode_utf8, valid_utf8,
};

verus! {

#[verifier::external_type_specification]
#[verifier::external_body]
#[verifier::reject_recursive_types(T)]
pub struct ExRsa<T>(Rsa<T>);

#[verifier::external_type_specification]
#[verifier::external_body]
pub struct ExPublic(Public);

#[verifier::external_type_specification]
#[verifier::external_body]
pub struct ExPrivate(Private);

#[verifier::external_type_specification]
#[verifier::external_body]
pub struct ExErrorStack(ErrorStack);

#[verifier::external_type_specification]
#[verifier::external_body]
pub struct ExFromHexError(FromHexError);

#[verifier::external_type_specification]
#[verifier::external_body]
pub struct ExFromUtf8Error(FromUtf8Error);

/// Why the cipher refused a key, a token or a state.
#[derive(Debug, Clone, Copy, PartialEq, Eq, Structural)]
pub enum CipherError {
    /// A key could not be read from its PEM text, or the passphrase did not
    /// unlock it.
    InvalidKey,
    /// The token could not be encrypted (it is longer than the key allows).
    EncryptionFailed,
    /// The state is not an even-length text of hexadecimal digits.
    MalformedState,
    /// The ciphertext has the wrong length or its padding does not check.
    DecryptionFailed,
    /// The decrypted bytes are not UTF-8 text.
    NotText,
}

/// Whether openssl reads these bytes as a PEM-encoded RSA public key.
pub uninterp spec fn reads_public_key(pem: Seq<u8>) -> bool;

/// Whether openssl reads these bytes as a PEM-encoded RSA private key
/// unlocked by the passphrase.
pub uninterp spec fn reads_private_key(pem: Seq<u8>, passphrase: Seq<u8>) -> bool;

/// Relies on openssl's `Rsa::public_key_from_pem`: reads a PEM-encoded
/// SubjectPublicKeyInfo RSA key, or fails. It asserts that the text is at
/// most `i32::MAX` bytes.
#[verifier::external_body]
fn read_public_key(pem: &[u8]) -> (r: Result<Rsa<Public>, ErrorStack>)
    requires
        pem@.len() <= i32::MAX,
    ensures
        r is Ok <==> reads_public_key(pem@),
{
    Rsa::public_key_from_pem(pem)
}

/// Relies on openssl's `Rsa::private_key_from_pem_passphrase`: reads a
/// PEM-encoded RSA private key encrypted under the passphrase, or fails. It
/// asserts that the text is at most `i32::MAX` bytes and unwraps the
/// passphrase as a C string, which holds no zero byte.
#[verifier::external_body]
fn read_private_key(pem: &[u8], passphrase: &[u8]) -> (r: Result<Rsa<Private>, ErrorStack>)
    requires
        pem@.len() <= i32::MAX,
        !passphrase@.contains(0u8),
    ensures
        r is Ok <==> reads_private_key(pem@, passphrase@),
{
    Rsa::private_key_from_pem_passphrase(pem, passphrase)
}

/// Relies on openssl's `RsaRef::size`: the modulus size of a public key, in
/// bytes.
#[verifier::external_body]
fn public_key_size(key: &Rsa<Public>) -> (r: u32) {
    key.size()
}

/// Relies on openssl's `RsaRef::size`: the modulus size of a private key, in
/// bytes.
#[verifier::external_body]
fn private_key_size(key: &Rsa<Private>) -> (r: u32) {
    key.size()
}

/// Relies on openssl's `RsaRef::public_encrypt` with PKCS#1 v1.5 padding.
/// The buffer has `public_size` bytes, what `RsaRef::size` gave for the key;
/// a successful call writes one block of exactly that size, and the padding
/// needs 11 bytes of it. The padding is random, so nothing more is promised
/// of the bytes. It asserts an input of at most `i32::MAX` bytes.
#[verifier::external_body]
fn rsa_public_encrypt(cipher: &TokenCipher, from: &[u8]) -> (r: Result<Vec<u8>, ErrorStack>)
    requires
        from@.len() <= i32::MAX,
    ensures
        r is Ok ==> r->Ok_0@.len() == cipher.public_size && from@.len() + 11
            <= cipher.public_size,
{
    let mut to = vec![0u8; cipher.public_size as usize];
    cipher.public_key.public_encrypt(from, &mut to, Padding::PKCS1).map(|n| to[..n].to_vec())
}

/// Relies on openssl's `RsaRef::private_decrypt` with PKCS#1 v1.5 padding.
/// The buffer has `private_size` bytes, what `RsaRef::size` gave for the
/// key; the bytes that the call reports written are returned, at most the
/// buffer. It fails where the padding does not check. It asserts an input
/// of at most `i32::MAX` bytes.
#[verifier::external_body]
fn rsa_private_decrypt(cipher: &TokenCipher, from: &[u8]) -> (r: Result<Vec<u8>, ErrorStack>)
    requires
        from@.len() <= i32::MAX,
    ensures
        r is Ok ==> r->Ok_0@.len() <= cipher.private_size,
{
    let mut to = vec![0u8; cipher.private_size as usize];
    cipher.private_key.private_decrypt(from, &mut to, Padding::PKCS1).map(|n| to[..n].to_vec())
}

/// Relies on `hex::encode`: two lower-case digits for each byte, in order.
#[verifier::external_body]
fn hex_encode(b: &[u8]) -> (r: String)
    ensures
        r@ == hex_text(b@),
{
    hex::encode(b)
}

/// Relies on `hex::decode`: it fails on an odd length or on a byte that is no
/// digit of either case, and else gives one byte for each pair of digits.
#[verifier::external_body]
fn hex_decode(s: &str) -> (r: Result<Vec<u8>, FromHexError>)
    ensures
        r is Ok <==> hex_bytes(s@) is Some,
        r is Ok ==> r->Ok_0@ == hex_bytes(s@)->0,
{
    hex::decode(s)
}

/// Relies on `String::from_utf8`: it succeeds exactly on valid UTF-8 and
/// then holds the characters that the bytes encode.
#[verifier::external_body]
fn string_from_utf8(b: Vec<u8>) -> (r: Result<String, FromUtf8Error>)
    ensures
        r is Ok <==> valid_utf8(b@),
        r is Ok ==> r->Ok_0@ == decode_utf8(b@),
{
    String::from_utf8(b)
}

/// The state text for a ciphertext: its bytes in lower-case hexadecimal.
pub fn encode_state(ciphertext: &[u8]) -> (r: String)
    ensures
        r@ == hex_text(ciphertext@),
{
    hex_encode(ciphertext)
}

/// The ciphertext that a state text stands for.
pub fn decode_state(state: &str) -> (r: Result<Vec<u8>, CipherError>)
    ensures
        match hex_bytes(state@) {
            Some(b) => r is Ok && r->Ok_0@ == b,
            None => r == Err::<Vec<u8>, CipherError>(CipherError::MalformedState),
        },
{
    match hex_decode(state) {
        Ok(b) => Ok(b),
        Err(_) => Err(CipherError::MalformedState),
    }
}

/// The token that decrypted bytes hold: they must be UTF-8 text.
pub fn plaintext_token(plain: Vec<u8>) -> (r: Result<String, CipherError>)
    ensures
        valid_utf8(plain@) ==> r is Ok && r->Ok_0@ == decode_utf8(plain@),
        !valid_utf8(plain@) ==> r == Err::<String, CipherError>(CipherError::NotText),
{
    match string_from_utf8(plain) {
        Ok(s) => Ok(s),
        Err(_) => Err(CipherError::NotText),
    }
}

/// The token that the outcome of the RSA step gives: `None` stands for a
/// ciphertext that the private key refused.
pub fn open_plaintext(outcome: Option<Vec<u8>>) -> (r: Result<String, CipherError>)
    ensures
        match outcome {
            None => r == Err::<String, CipherError>(CipherError::DecryptionFailed),
            Some(p) => (valid_utf8(p@) ==> r is Ok && r->Ok_0@ == decode_utf8(p@)) && (!valid_utf8(
                p@,
            ) ==> r == Err::<String, CipherError>(CipherError::NotText)),
        },
{
    match outcome {
        None => Err(CipherError::DecryptionFailed),
        Some(p) => plaintext_token(p),
    }
}

/// Whether a passphrase holds a zero byte.
pub fn has_zero_byte(b: &[u8]) -> (r: bool)
    ensures
        r == b@.contains(0u8),
{
    let mut i: usize = 0;
    while i < b.len()
        invariant
            i <= b@.len(),
            forall|k: int| 0 <= k < i ==> b@[k] != 0u8,
        decreases b@.len() - i,
    {
        if b[i] == 0 {
            assert(b@[i as int] == 0u8);
            return true;
        }
        i = i + 1;
    }
    false
}

/// The key pair, loaded once at startup and only read afterwards. Each
/// size is what `RsaRef::size` gave for its key when the cipher was made;
/// the fields are private and never change.
pub struct TokenCipher {
    public_key: Rsa<Public>,
    public_size: u32,
    private_key: Rsa<Private>,
    private_size: u32,
}

impl TokenCipher {
    /// The modulus size of the public key, in bytes: the length of every
    /// ciphertext it makes.
    pub closed spec fn public_modulus(&self) -> nat {
        self.public_size as nat
    }

    /// The modulus size of the private key, in bytes: the only ciphertext
    /// length it takes.
    pub closed spec fn private_modulus(&self) -> nat {
        self.private_size as nat
    }

    /// A state that is refused before the RSA step: not hexadecimal, or not
    /// of the private key's size.
    pub open spec fn refuses_state(&self, state: Seq<char>) -> bool {
        ||| hex_bytes(state) is None
        ||| hex_bytes(state)->0.len() != self.private_modulus()
        ||| hex_bytes(state)->0.len() > i32::MAX
    }

    /// What holds of a token that a state decrypted to: the state was taken
    /// to the RSA step, and the token's bytes fit in the key's block.
    pub open spec fn decrypted_from(&self, state: Seq<char>, token: Seq<char>) -> bool {
        &&& !self.refuses_state(state)
        &&& encode_utf8(token).len() <= self.private_modulus()
    }

    /// Whether a token is too long for the public key's PKCS#1 block.
    pub open spec fn token_too_long(&self, token: Seq<char>) -> bool {
        encode_utf8(token).len() > i32::MAX || encode_utf8(token).len() + 11
            > self.public_modulus()
    }

    /// Loads both keys; the private one is unlocked with the passphrase.
    pub fn new(public_pem: &[u8], private_pem: &[u8], passphrase: &[u8]) -> (r: Result<
        TokenCipher,
        CipherError,
    >)
        ensures
            r is Ok <==> (public_pem@.len() <= i32::MAX && reads_public_key(public_pem@)
                && private_pem@.len() <= i32::MAX && !passphrase@.contains(0u8)
                && reads_private_key(private_pem@, passphrase@)),
            r is Err ==> r == Err::<TokenCipher, CipherError>(CipherError::InvalidKey),
    {
        if public_pem.len() > i32::MAX as usize || private_pem.len() > i32::MAX as usize
            || has_zero_byte(passphrase) {
            return Err(CipherError::InvalidKey);
        }
        let public_key = match read_public_key(public_pem) {
            Ok(k) => k,
            Err(_) => return Err(CipherError::InvalidKey),
        };
        let private_key = match read_private_key(private_pem, passphrase) {
            Ok(k) => k,
            Err(_) => return Err(CipherError::InvalidKey),
        };
        let public_size = public_key_size(&public_key);
        let private_size = private_key_size(&private_key);
        Ok(TokenCipher { public_key, public_size, private_key, private_size })
    }

    /// Encrypts the token's UTF-8 bytes and writes the ciphertext as state
    /// text: twice the public key's size in lower-case hexadecimal digits. A
    /// token too long for the key is refused. The padding is random, so two
    /// calls on one token may differ.
    pub fn encrypt(&self, token: &str) -> (r: Result<String, CipherError>)
        ensures
            self.token_too_long(token@) ==> r == Err::<String, CipherError>(
                CipherError::EncryptionFailed,
            ),
            r is Err ==> r == Err::<String, CipherError>(CipherError::EncryptionFailed),
            r is Ok ==> r->Ok_0@.len() == 2 * self.public_modulus() && exists|c: Seq<u8>|
                c.len() == self.public_modulus() && r->Ok_0@ == hex_text(c),
    {
        let bytes = token.as_bytes();
        if bytes.len() > i32::MAX as usize || self.public_size < 11 || bytes.len() > (
        self.public_size - 11) as usize {
            return Err(CipherError::EncryptionFailed);
        }
        match rsa_public_encrypt(self, bytes) {
            Ok(c) => {
                proof {
                    lemma_hex_text_len(c@);
                }
                Ok(encode_state(c.as_slice()))
            },
            Err(_) => Err(CipherError::EncryptionFailed),
        }
    }

    /// Turns a state text back into the token. Malformed text, and a
    /// ciphertext that is not of the key's size, are refused before the RSA
    /// step; a ciphertext whose padding does not check, or that decrypts to
    /// bytes that are not text, is refused too. Nothing but the error comes
    /// back on a refusal.
    pub fn decrypt(&self, state: &str) -> (r: Result<String, CipherError>)
        ensures
            hex_bytes(state@) is None ==> r == Err::<String, CipherError>(
                CipherError::MalformedState,
            ),
            hex_bytes(state@) is Some && self.refuses_state(state@) ==> r == Err::<
                String,
                CipherError,
            >(CipherError::DecryptionFailed),
            r is Err ==> r->Err_0 == CipherError::MalformedState || r->Err_0
                == CipherError::DecryptionFailed || r->Err_0 == CipherError::NotText,
            r is Ok ==> self.decrypted_from(state@, r->Ok_0@),
    {
        let ciphertext = decode_state(state)?;
        if ciphertext.len() != self.private_size as usize || ciphertext.len() > i32::MAX as usize {
            return Err(CipherError::DecryptionFailed);
        }
        let outcome = match rsa_private_decrypt(self, ciphertext.as_slice()) {
            Ok(p) => Some(p),
            Err(_) => None,
        };
        let ghost p = outcome;
        let r = open_plaintext(outcome);
        proof {
            if r is Ok {
                decode_utf8_encode_utf8(p->0@);
            }
        }
        r
    }
}

/// The encodings on either side of the RSA step lose nothing: a token's
/// UTF-8 bytes decode to the token, and a ciphertext's state text decodes to
/// the ciphertext.
pub proof fn lemma_state_round_trip(token: Seq<char>, ciphertext: Seq<u8>)
    ensures
        valid_utf8(encode_utf8(token)),
        decode_utf8(encode_utf8(token)) == token,
        hex_bytes(hex_text(ciphertext)) == Some(ciphertext),
{
    vstd::utf8::encode_utf8_valid_utf8(token);
    encode_utf8_decode_utf8(token);
    lemma_hex_round_trip(ciphertext);
}

} // verus!
