//! The calls into other crates and into parts of the standard library, with what
//! is taken on trust of each.
use vstd::prelude::*;
use vstd::utf8::*;
use aes_gcm::aead::Aead;
use aes_gcm::KeyInit;
use rand_core::RngCore;
use base64::Engine;
use crypto::digest::Digest;
use rand::seq::SliceRandom;
use rand::Rng;

verus! {

/// A moment on the system clock.
#[verifier::external_type_specification]
#[verifier::external_body]
pub struct ExSystemTime(std::time::SystemTime);

/// The error of a moment that lies before another.
#[verifier::external_type_specification]
#[verifier::external_body]
pub struct ExSystemTimeError(std::time::SystemTimeError);

/// The error of bytes that are no UTF-8.
#[verifier::external_type_specification]
#[verifier::external_body]
pub struct ExFromUtf8Error(std::string::FromUtf8Error);

/// The error of password-hash, for a salt that it refuses.
#[verifier::external_type_specification]
#[verifier::external_body]
pub struct ExSaltError(argon2::password_hash::Error);

/// The error of argon2.
#[verifier::external_type_specification]
#[verifier::external_body]
pub struct ExArgon2Error(argon2::Error);

/// The error of aes-gcm: it tells no cause.
#[verifier::external_type_specification]
#[verifier::external_body]
pub struct ExAeadError(aes_gcm::Error);

/// The error of base64, for a text that it cannot decode.
#[verifier::external_type_specification]
#[verifier::external_body]
pub struct ExDecodeError(base64::DecodeError);

/// `SystemTime::now` reads the clock; nothing is known of what it returns.
pub assume_specification[ std::time::SystemTime::now ]() -> (now: std::time::SystemTime);

/// `SystemTime::duration_since` with `UNIX_EPOCH` as the earlier moment; an error when
/// the moment lies before the epoch.
#[verifier::external_body]
pub(crate) fn since_unix_epoch(moment: &std::time::SystemTime) -> (elapsed: Result<
    std::time::Duration,
    std::time::SystemTimeError,
>) {
    moment.duration_since(std::time::UNIX_EPOCH)
}

/// `Duration::as_secs`: the whole seconds of a duration.
pub assume_specification[ std::time::Duration::as_secs ](elapsed: &std::time::Duration) -> (seconds: u64);

/// `String::push` appends one character.
pub assume_specification[ String::push ](text: &mut String, c: char)
    ensures
        final(text)@ == old(text)@.push(c),
;

/// `==` on string slices compares their characters.
pub assume_specification[ <str as PartialEq>::eq ](a: &str, b: &str) -> (same: bool)
    ensures
        same == (a@ == b@),
;

/// `String::from_utf8` succeeds exactly on well-formed UTF-8 and then returns the
/// text that the bytes encode.
pub assume_specification[ String::from_utf8 ](bytes: Vec<u8>) -> (text: Result<
    String,
    std::string::FromUtf8Error,
>)
    ensures
        text is Ok <==> valid_utf8(bytes@),
        text matches Ok(s) ==> s@ == decode_utf8(bytes@),
;

/// The lowercase hexadecimal digits.
pub open spec fn is_lower_hex(c: char) -> bool {
    ('0' <= c && c <= '9') || ('a' <= c && c <= 'f')
}

/// The SHA-256 digest of the UTF-8 bytes of a text, written as hexadecimal digits.
pub uninterp spec fn sha256_hex(text: Seq<char>) -> Seq<char>;

/// The longest text that is hashed here, in characters.
pub const HASHED_TEXT_MAX: usize = 64;

/// `Sha256::input_str` followed by `Sha256::result_str` of rust-crypto, on a fresh
/// hasher: the digest of the text as 64 lowercase hexadecimal digits. The digest
/// itself is not computed by this library; it is only named. The outside code panics
/// on an input of 2^61 bytes or more; the texts that are hashed here have at most 64
/// characters, which are at most 256 bytes.
#[verifier::external_body]
pub(crate) fn sha256_hex_digest(text: &str) -> (digest: String)
    requires
        text@.len() <= HASHED_TEXT_MAX,
    ensures
        digest@ == sha256_hex(text@),
        digest@.len() == 64,
        forall|i: int| 0 <= i < 64 ==> is_lower_hex(#[trigger] digest@[i]),
{
    let mut hasher = crypto::sha2::Sha256::new();
    hasher.input_str(text);
    hasher.result_str()
}

/// `Rng::gen_range(0..bound)` of rand on the thread's generator: some number below
/// `bound`. An empty range makes the outside function panic, so `bound` is positive.
#[verifier::external_body]
pub(crate) fn random_below(bound: u32) -> (n: u32)
    requires
        bound > 0,
    ensures
        n < bound,
{
    rand::thread_rng().gen_range(0..bound)
}

/// `SliceRandom::shuffle` of rand on the thread's generator: the same characters in
/// some order.
#[verifier::external_body]
pub(crate) fn shuffle_chars(chars: &mut Vec<char>)
    ensures
        final(chars)@.to_multiset() == old(chars)@.to_multiset(),
{
    chars.shuffle(&mut rand::thread_rng());
}

/// The characters that a salt may hold.
pub open spec fn is_salt_char(c: char) -> bool {
    ||| ('a' <= c && c <= 'z')
    ||| ('A' <= c && c <= 'Z')
    ||| ('0' <= c && c <= '9')
    ||| c == '/'
    ||| c == '+'
    ||| c == '.'
    ||| c == '-'
}

/// A salt is well formed when it has 4 to 64 characters, all of them salt characters.
pub open spec fn salt_text_ok(salt: Seq<char>) -> bool {
    &&& 4 <= salt.len() <= 64
    &&& forall|i: int| 0 <= i < salt.len() ==> is_salt_char(#[trigger] salt[i])
}

/// `SaltString::from_b64` of password-hash, its value dropped: it accepts a text of
/// 4 to 64 bytes whose characters all are letters, digits, `/`, `+`, `.` or `-`, and
/// refuses every other text.
#[verifier::external_body]
pub(crate) fn check_salt(salt: &str) -> (checked: Result<(), argon2::password_hash::Error>)
    ensures
        checked is Ok <==> salt_text_ok(salt@),
{
    match argon2::password_hash::SaltString::from_b64(salt) {
        Ok(_) => Ok(()),
        Err(refused) => Err(refused),
    }
}

/// `SaltString::generate` of password-hash on the system's generator, as text: 16
/// random bytes in unpadded base64, which are 22 salt characters. Which ones is not
/// known.
#[verifier::external_body]
pub(crate) fn fresh_salt() -> (salt: String)
    ensures
        salt_text_ok(salt@),
        salt@.len() == 22,
{
    let salt = argon2::password_hash::SaltString::generate(
        &mut argon2::password_hash::rand_core::OsRng,
    );
    salt.as_str().to_string()
}

/// `OsRng::fill_bytes` of rand_core on twelve bytes: nothing is known of them.
#[verifier::external_body]
pub(crate) fn generate_nonce() -> (nonce: [u8; 12]) {
    let mut nonce = [0u8; 12];
    rand_core::OsRng.fill_bytes(&mut nonce);
    nonce
}

/// The 32 bytes that Argon2id (version 0x13, 19 MiB, 2 passes, 1 lane, no secret, no
/// associated data) derives from a password and a salt, or `None` where it refuses
/// them.
pub uninterp spec fn argon2id_key(passkey: Seq<u8>, salt: Seq<u8>) -> Option<Seq<u8>>;

/// `Argon2::hash_password_into` of argon2 on the default context and a buffer of 32
/// bytes. It refuses a password of more than 0xFFFFFFFF bytes and a salt of fewer
/// than 8 or more than 0xFFFFFFFF bytes, and nothing else. The key itself is only
/// named.
#[verifier::external_body]
pub(crate) fn argon2id_hash(passkey: &[u8], salt: &[u8]) -> (hashed: Result<[u8; 32], argon2::Error>)
    ensures
        hashed matches Ok(key) ==> argon2id_key(passkey@, salt@) == Some(key@),
        hashed is Err ==> argon2id_key(passkey@, salt@) is None,
        hashed is Ok <==> (passkey@.len() <= 0xFFFF_FFFF && 8 <= salt@.len() <= 0xFFFF_FFFF),
{
    let mut key = [0u8; 32];
    match argon2::Argon2::default().hash_password_into(passkey, salt, &mut key) {
        Ok(()) => Ok(key),
        Err(refused) => Err(refused),
    }
}

/// What AES-256-GCM makes of a plaintext under a key and a nonce of 96 bits, with no
/// associated data: the ciphertext followed by its tag, or `None` where the
/// plaintext is too long.
pub uninterp spec fn aes256gcm_seal(key: Seq<u8>, nonce: Seq<u8>, plaintext: Seq<u8>) -> Option<
    Seq<u8>,
>;

/// What AES-256-GCM recovers from a ciphertext and its tag under a key and a nonce of
/// 96 bits, with no associated data: the plaintext, or `None` where the tag does not
/// fit.
pub uninterp spec fn aes256gcm_open(key: Seq<u8>, nonce: Seq<u8>, ciphertext: Seq<u8>) -> Option<
    Seq<u8>,
>;

/// The longest plaintext that AES-256-GCM takes, in bytes.
pub const AES_GCM_PLAINTEXT_MAX: u64 = 0x10_0000_0000;

/// `Aes256Gcm::new_from_slice` and `Aead::encrypt` of aes-gcm. A plaintext of more
/// than 2^36 bytes is refused and nothing else; the result is 16 bytes longer than
/// the plaintext, and `Aead::decrypt` under the same key and nonce gives the
/// plaintext back. A key of another length than 32 bytes or a nonce of another
/// length than 12 makes the outside code fail or panic.
#[verifier::external_body]
pub(crate) fn aes256gcm_encrypt(key: &[u8], nonce: &[u8], plaintext: &[u8]) -> (sealed: Result<
    Vec<u8>,
    aes_gcm::Error,
>)
    requires
        key@.len() == 32,
        nonce@.len() == 12,
    ensures
        sealed matches Ok(ciphertext) ==> aes256gcm_seal(key@, nonce@, plaintext@) == Some(
            ciphertext@,
        ),
        sealed matches Ok(ciphertext) ==> ciphertext@.len() == plaintext@.len() + 16,
        sealed matches Ok(ciphertext) ==> aes256gcm_open(key@, nonce@, ciphertext@) == Some(
            plaintext@,
        ),
        sealed is Err ==> aes256gcm_seal(key@, nonce@, plaintext@) is None,
        sealed is Ok <==> plaintext@.len() <= AES_GCM_PLAINTEXT_MAX,
{
    match aes_gcm::Aes256Gcm::new_from_slice(key) {
        Ok(cipher) => cipher.encrypt(aes_gcm::Nonce::from_slice(nonce), plaintext),
        Err(_) => Err(aes_gcm::Error),
    }
}

/// `Aes256Gcm::new_from_slice` and `Aead::decrypt` of aes-gcm: the plaintext where
/// the tag at the end of the ciphertext fits the key, the nonce and the rest, an
/// error where it does not.
#[verifier::external_body]
pub(crate) fn aes256gcm_decrypt(key: &[u8], nonce: &[u8], ciphertext: &[u8]) -> (opened: Result<
    Vec<u8>,
    aes_gcm::Error,
>)
    requires
        key@.len() == 32,
        nonce@.len() == 12,
    ensures
        opened matches Ok(plaintext) ==> aes256gcm_open(key@, nonce@, ciphertext@) == Some(
            plaintext@,
        ),
        opened is Err ==> aes256gcm_open(key@, nonce@, ciphertext@) is None,
{
    match aes_gcm::Aes256Gcm::new_from_slice(key) {
        Ok(cipher) => cipher.decrypt(aes_gcm::Nonce::from_slice(nonce), ciphertext),
        Err(_) => Err(aes_gcm::Error),
    }
}

/// Bytes in standard base64 with padding.
pub uninterp spec fn base64_text(bytes: Seq<u8>) -> Seq<char>;

/// The bytes that a text in standard base64 with canonical padding stands for, or
/// `None` where it is no such text.
pub uninterp spec fn base64_bytes(text: Seq<char>) -> Option<Seq<u8>>;

/// Whether bytes of this number can be written in base64 on this machine.
pub open spec fn base64_fits(len: int) -> bool {
    len / 3 * 4 + 4 <= isize::MAX
}

/// `Engine::encode` of base64 with the `STANDARD` engine; decoding the result gives
/// the bytes back. Where the encoded length does not fit the machine the outside
/// code panics.
#[verifier::external_body]
pub(crate) fn base64_encode(bytes: &[u8]) -> (text: String)
    requires
        base64_fits(bytes@.len() as int),
    ensures
        text@ == base64_text(bytes@),
        base64_bytes(text@) == Some(bytes@),
{
    base64::engine::general_purpose::STANDARD.encode(bytes)
}

/// `Engine::decode` of base64 with the `STANDARD` engine.
#[verifier::external_body]
pub(crate) fn base64_decode(text: &str) -> (decoded: Result<Vec<u8>, base64::DecodeError>)
    ensures
        decoded matches Ok(bytes) ==> base64_bytes(text@) == Some(bytes@),
        decoded is Err ==> base64_bytes(text@) is None,
{
    base64::engine::general_purpose::STANDARD.decode(text)
}

} // verus!
