//! Key pairs, encryption and decryption, done by the Botan library.
//!
//! Botan is reached through the small functions at the end of this file.
//! Nothing is known of what they return beyond what is written on each:
//! keys and ciphertexts depend on random numbers, and whether a ciphertext
//! opens under a key is Botan's to decide. What is known is when they must
//! fail: Botan takes texts as C strings, so a text that holds a NUL
//! character is refused before Botan sees it. The functions above them only
//! fix what is handed to Botan, in which order, and which condition is
//! reported when a call fails.
use vstd::prelude::*;
use vstd::string::*;
use crate::error::KeeperError;

verus! {

/// The algorithm of the key pair.
pub const KEY_ALGORITHM: &'static str = "RSA";

/// The size of the key pair, in bits, as Botan takes it.
pub const KEY_BITS: &'static str = "16384";

/// The padding scheme of encryption and decryption.
pub const PADDING: &'static str = "OAEP(SHA-256)";

/// The number of random bytes in a generated secret.
pub const SECRET_BYTES: usize = 16;

/// The two records of a key pair: the public key in armored text, and the
/// private key in armored text encrypted under the passphrase.
#[derive(Clone, Debug, PartialEq, Eq)]
pub struct KeyPair {
    pub public_pem: String,
    pub private_pem: String,
}

/// The 64 digits of base64, in the order of their values.
pub open spec fn base64_digits() -> Seq<char> {
    "ABCDEFGHIJKLMNOPQRSTUVWXYZabcdefghijklmnopqrstuvwxyz0123456789+/"@
}

/// The base64 digit of the value `v`.
pub open spec fn base64_digit(v: int) -> char {
    base64_digits()[v]
}

/// The base64 encoding of `data`, padded with `=` to a multiple of four
/// characters.
pub open spec fn base64(data: Seq<u8>) -> Seq<char>
    decreases data.len(),
{
    if data.len() == 0 {
        Seq::empty()
    } else if data.len() == 1 {
        let a = data[0] as int;
        seq![base64_digit(a / 4), base64_digit((a % 4) * 16), '=', '=']
    } else if data.len() == 2 {
        let a = data[0] as int;
        let b = data[1] as int;
        seq![
            base64_digit(a / 4),
            base64_digit((a % 4) * 16 + b / 16),
            base64_digit((b % 16) * 4),
            '=',
        ]
    } else {
        let a = data[0] as int;
        let b = data[1] as int;
        let c = data[2] as int;
        seq![
            base64_digit(a / 4),
            base64_digit((a % 4) * 16 + b / 16),
            base64_digit((b % 16) * 4 + c / 64),
            base64_digit(c % 64),
        ] + base64(data.skip(3))
    }
}

/// Whether `text` can be a generated secret: the base64 encoding of
/// [`SECRET_BYTES`] bytes.
pub open spec fn is_generated_secret(text: Seq<char>) -> bool {
    exists|data: Seq<u8>| data.len() == SECRET_BYTES && text == #[trigger] base64(data)
}

/// Whether making a key pair can be refused for this reason.
pub open spec fn refuses_key_pair(error: KeeperError) -> bool {
    ||| error == KeeperError::InitGenerator
    ||| error == KeeperError::CreatePrivateKey
    ||| error == KeeperError::CreatePublicKey
    ||| error == KeeperError::EncodePublicKey
    ||| error == KeeperError::EncodePrivateKey
}

/// Whether generating a secret can be refused for this reason.
pub open spec fn refuses_secret(error: KeeperError) -> bool {
    ||| error == KeeperError::InitGenerator
    ||| error == KeeperError::GenerateRandom
    ||| error == KeeperError::EncodeRandom
}

/// Whether encrypting can be refused for this reason.
pub open spec fn refuses_encryption(error: KeeperError) -> bool {
    ||| error == KeeperError::InitGenerator
    ||| error == KeeperError::LoadPublicKey
    ||| error == KeeperError::InitEncryptor
    ||| error == KeeperError::Encrypt
}

/// Whether decrypting can be refused for this reason.
pub open spec fn refuses_decryption(error: KeeperError) -> bool {
    ||| error == KeeperError::LoadPrivateKey
    ||| error == KeeperError::InitDecryptor
    ||| error == KeeperError::Decrypt
}

/// The base64 encoding has four characters for every three bytes begun.
pub proof fn lemma_base64_len(data: Seq<u8>)
    ensures
        base64(data).len() == 4 * ((data.len() + 2) / 3),
    decreases data.len(),
{
    if data.len() >= 3 {
        lemma_base64_len(data.skip(3));
    }
}

/// A generated secret has 24 characters.
pub proof fn lemma_generated_secret_len(text: Seq<char>)
    requires
        is_generated_secret(text),
    ensures
        text.len() == 24,
{
    let data = choose|data: Seq<u8>| data.len() == SECRET_BYTES && text == #[trigger] base64(data);
    lemma_base64_len(data);
}

/// Makes a key pair of `bits` bits and puts it into its two records, the
/// private one encrypted under `passphrase`.
///
/// No key is made for a size that holds a NUL character, and no private
/// record is made under a passphrase that holds one. Whether a key pair
/// comes of any other size and passphrase is for Botan to decide.
pub fn create_key_pair(bits: &str, passphrase: &str) -> (r: Result<KeyPair, KeeperError>)
    ensures
        r matches Err(error) ==> refuses_key_pair(error),
        holds_nul(bits@) ==> (r matches Err(error) && (error == KeeperError::InitGenerator
            || error == KeeperError::CreatePrivateKey)),
        holds_nul(passphrase@) ==> r is Err,
{
    let mut rng = match new_generator() {
        Ok(rng) => rng,
        Err(_) => {
            return Err(KeeperError::InitGenerator);
        },
    };
    let private_key = match create_private_key(KEY_ALGORITHM, bits, &mut rng) {
        Ok(key) => key,
        Err(_) => {
            return Err(KeeperError::CreatePrivateKey);
        },
    };
    let public_key = match derive_public_key(&private_key) {
        Ok(key) => key,
        Err(_) => {
            return Err(KeeperError::CreatePublicKey);
        },
    };
    let public_pem = match armor_public_key(&public_key) {
        Ok(pem) => pem,
        Err(_) => {
            return Err(KeeperError::EncodePublicKey);
        },
    };
    match armor_private_key(&private_key, passphrase, &mut rng) {
        Ok(private_pem) => Ok(KeyPair { public_pem, private_pem }),
        Err(_) => Err(KeeperError::EncodePrivateKey),
    }
}

/// Makes a key pair of the keeper's fixed size.
///
/// No private record is made under a passphrase that holds a NUL
/// character. Whether a key pair comes of any other passphrase is for
/// Botan to decide.
pub fn generate_key_pair(passphrase: &str) -> (r: Result<KeyPair, KeeperError>)
    ensures
        r matches Err(error) ==> refuses_key_pair(error),
        holds_nul(passphrase@) ==> r is Err,
{
    create_key_pair(KEY_BITS, passphrase)
}

/// Makes a fresh secret: [`SECRET_BYTES`] random bytes, in base64.
pub fn generate_secret() -> (r: Result<String, KeeperError>)
    ensures
        r matches Ok(secret) ==> is_generated_secret(secret@),
        r matches Err(error) ==> refuses_secret(error),
{
    let mut rng = match new_generator() {
        Ok(rng) => rng,
        Err(_) => {
            return Err(KeeperError::InitGenerator);
        },
    };
    let mut bytes: Vec<u8> = Vec::new();
    while bytes.len() < SECRET_BYTES
        invariant
            bytes.len() <= SECRET_BYTES,
        decreases SECRET_BYTES - bytes.len(),
    {
        bytes.push(0u8);
    }
    match fill_random(&mut rng, &mut bytes) {
        Ok(()) => {},
        Err(_) => {
            return Err(KeeperError::GenerateRandom);
        },
    }
    match base64_text(bytes.as_slice()) {
        Ok(secret) => Ok(secret),
        Err(_) => Err(KeeperError::EncodeRandom),
    }
}

/// Sees whether `pem` is the armored text of a public key.
///
/// A text that holds a NUL character is none. Whether any other text is
/// one is for Botan to decide.
pub fn check_public_key(pem: &str) -> (r: Result<(), KeeperError>)
    ensures
        r matches Err(error) ==> error == KeeperError::LoadPublicKey,
        holds_nul(pem@) ==> r is Err,
{
    match load_public_key(pem) {
        Ok(_) => Ok(()),
        Err(_) => Err(KeeperError::LoadPublicKey),
    }
}

/// Encrypts `plaintext` under the public key whose armored text is `pem`.
///
/// Nothing is encrypted under a text that holds a NUL character: it is no
/// key. What the ciphertext is, and whether there is one, is otherwise for
/// Botan to decide.
pub fn encrypt(pem: &str, plaintext: &str) -> (r: Result<Vec<u8>, KeeperError>)
    ensures
        r matches Err(error) ==> refuses_encryption(error),
        holds_nul(pem@) ==> (r matches Err(error) && (error == KeeperError::InitGenerator
            || error == KeeperError::LoadPublicKey)),
{
    let mut rng = match new_generator() {
        Ok(rng) => rng,
        Err(_) => {
            return Err(KeeperError::InitGenerator);
        },
    };
    let key = match load_public_key(pem) {
        Ok(key) => key,
        Err(_) => {
            return Err(KeeperError::LoadPublicKey);
        },
    };
    let mut encryptor = match new_encryptor(&key, PADDING) {
        Ok(encryptor) => encryptor,
        Err(_) => {
            return Err(KeeperError::InitEncryptor);
        },
    };
    match encrypt_with(&mut encryptor, plaintext.as_bytes(), &mut rng) {
        Ok(ciphertext) => Ok(ciphertext),
        Err(_) => Err(KeeperError::Encrypt),
    }
}

/// Decrypts `ciphertext` with the private key whose armored text, encrypted
/// under `passphrase`, is `pem`.
///
/// No key is loaded from a text that holds a NUL character, nor under a
/// passphrase that holds one. What the plaintext is, and whether there is
/// one, is otherwise for Botan to decide.
pub fn decrypt(pem: &str, passphrase: &str, ciphertext: &[u8]) -> (r: Result<
    Vec<u8>,
    KeeperError,
>)
    ensures
        r matches Err(error) ==> refuses_decryption(error),
        holds_nul(pem@) || holds_nul(passphrase@) ==> (r matches Err(error) && error
            == KeeperError::LoadPrivateKey),
{
    let key = match load_private_key(pem, passphrase) {
        Ok(key) => key,
        Err(_) => {
            return Err(KeeperError::LoadPrivateKey);
        },
    };
    let mut decryptor = match new_decryptor(&key, PADDING) {
        Ok(decryptor) => decryptor,
        Err(_) => {
            return Err(KeeperError::InitDecryptor);
        },
    };
    match decrypt_with(&mut decryptor, ciphertext) {
        Ok(plaintext) => Ok(plaintext),
        Err(_) => Err(KeeperError::Decrypt),
    }
}

/// Whether `text` holds the character NUL. Botan takes its texts as C
/// strings, which end at the first NUL: a text that holds one cannot be
/// handed to it.
pub open spec fn holds_nul(text: Seq<char>) -> bool {
    text.contains('\0')
}

/// Botan's random number generator.
#[verifier::external_type_specification]
#[verifier::external_body]
pub struct ExRandomNumberGenerator(botan::RandomNumberGenerator);

/// Botan's private key.
#[verifier::external_type_specification]
#[verifier::external_body]
pub struct ExPrivkey(botan::Privkey);

/// Botan's public key.
#[verifier::external_type_specification]
#[verifier::external_body]
pub struct ExPubkey(botan::Pubkey);

/// Botan's public-key encryption in progress.
#[verifier::external_type_specification]
#[verifier::external_body]
pub struct ExEncryptor(botan::Encryptor);

/// Botan's public-key decryption in progress.
#[verifier::external_type_specification]
#[verifier::external_body]
pub struct ExDecryptor(botan::Decryptor);

/// Botan's error.
#[verifier::external_type_specification]
#[verifier::external_body]
pub struct ExError(botan::Error);

/// `botan::RandomNumberGenerator::new`: a generator, or an error. Nothing
/// is claimed of either.
#[verifier::external_body]
fn new_generator() -> (r: Result<botan::RandomNumberGenerator, botan::Error>) {
    botan::RandomNumberGenerator::new()
}

/// `botan::RandomNumberGenerator::fill`: overwrites the bytes of `out` with
/// random ones. Claimed: `out` keeps its length.
#[verifier::external_body]
fn fill_random(rng: &mut botan::RandomNumberGenerator, out: &mut Vec<u8>) -> (r: Result<
    (),
    botan::Error,
>)
    ensures
        final(out)@.len() == old(out)@.len(),
{
    rng.fill(out.as_mut_slice())
}

/// `botan::base64_encode`. Claimed: where it succeeds, the text is the
/// padded base64 encoding of `data` in the standard alphabet.
#[verifier::external_body]
fn base64_text(data: &[u8]) -> (r: Result<String, botan::Error>)
    ensures
        r matches Ok(text) ==> text@ == base64(data@),
{
    botan::base64_encode(data)
}

/// `botan::Privkey::create`: a new private key of the algorithm and
/// parameters named. Claimed: it gives an error where either name holds a
/// NUL character, since it turns both into C strings before anything else.
/// Nothing is claimed of the key.
#[verifier::external_body]
fn create_private_key(
    algorithm: &str,
    params: &str,
    rng: &mut botan::RandomNumberGenerator,
) -> (r: Result<botan::Privkey, botan::Error>)
    ensures
        holds_nul(algorithm@) || holds_nul(params@) ==> r is Err,
{
    botan::Privkey::create(algorithm, params, rng)
}

/// `botan::Privkey::pubkey`: the public key of a private key. Nothing is
/// claimed of it.
#[verifier::external_body]
fn derive_public_key(key: &botan::Privkey) -> (r: Result<botan::Pubkey, botan::Error>) {
    key.pubkey()
}

/// `botan::Pubkey::pem_encode`: the armored text of a public key. Nothing
/// is claimed of it.
#[verifier::external_body]
fn armor_public_key(key: &botan::Pubkey) -> (r: Result<String, botan::Error>) {
    key.pem_encode()
}

/// `botan::Privkey::pem_encode_encrypted`: the armored text of a private
/// key, encrypted under the passphrase. Claimed: it gives an error where
/// the passphrase holds a NUL character, since it turns it into a C string
/// before anything else. Nothing is claimed of the text.
#[verifier::external_body]
fn armor_private_key(
    key: &botan::Privkey,
    passphrase: &str,
    rng: &mut botan::RandomNumberGenerator,
) -> (r: Result<String, botan::Error>)
    ensures
        holds_nul(passphrase@) ==> r is Err,
{
    key.pem_encode_encrypted(passphrase, rng)
}

/// `botan::Pubkey::load_pem`: the public key that an armored text holds.
/// Claimed: it gives an error where the text holds a NUL character, since
/// it turns it into a C string before anything else. Nothing is claimed of
/// the key.
#[verifier::external_body]
fn load_public_key(pem: &str) -> (r: Result<botan::Pubkey, botan::Error>)
    ensures
        holds_nul(pem@) ==> r is Err,
{
    botan::Pubkey::load_pem(pem)
}

/// `botan::Privkey::load_encrypted_pem`: the private key that an armored
/// text holds under a passphrase. Claimed: it gives an error where the text
/// or the passphrase holds a NUL character, since it turns both into C
/// strings before anything else. Nothing is claimed of the key.
#[verifier::external_body]
fn load_private_key(pem: &str, passphrase: &str) -> (r: Result<botan::Privkey, botan::Error>)
    ensures
        holds_nul(pem@) || holds_nul(passphrase@) ==> r is Err,
{
    botan::Privkey::load_encrypted_pem(pem, passphrase)
}

/// `botan::Encryptor::new`: an encryption under the key, with the padding
/// named. Nothing is claimed of it.
#[verifier::external_body]
fn new_encryptor(key: &botan::Pubkey, padding: &str) -> (r: Result<
    botan::Encryptor,
    botan::Error,
>) {
    botan::Encryptor::new(key, padding)
}

/// `botan::Encryptor::encrypt`: a ciphertext of the plaintext. Nothing is
/// claimed of it: it differs from call to call.
#[verifier::external_body]
fn encrypt_with(
    encryptor: &mut botan::Encryptor,
    plaintext: &[u8],
    rng: &mut botan::RandomNumberGenerator,
) -> (r: Result<Vec<u8>, botan::Error>) {
    encryptor.encrypt(plaintext, rng)
}

/// `botan::Decryptor::new`: a decryption with the key, with the padding
/// named. Nothing is claimed of it.
#[verifier::external_body]
fn new_decryptor(key: &botan::Privkey, padding: &str) -> (r: Result<
    botan::Decryptor,
    botan::Error,
>) {
    botan::Decryptor::new(key, padding)
}

/// `botan::Decryptor::decrypt`: the plaintext of a ciphertext, or an error
/// where the ciphertext does not open under the key. Nothing is claimed of
/// it.
#[verifier::external_body]
fn decrypt_with(decryptor: &mut botan::Decryptor, ciphertext: &[u8]) -> (r: Result<
    Vec<u8>,
    botan::Error,
>) {
    decryptor.decrypt(ciphertext)
}

} // verus!
