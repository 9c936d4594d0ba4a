//! Sealing a store under a passkey and opening it again.
use vstd::prelude::*;
use vstd::utf8::*;
use crate::codec::decode_store;
use crate::codec::encode_store;
use crate::codec::encrypted_data_of_text;
use crate::codec::encrypted_data_of_text_inverts;
use crate::codec::encrypted_data_text;
use crate::codec::store_of_text;
use crate::codec::store_of_text_inverts;
use crate::codec::store_text;
use crate::codec::EncryptedData;
use crate::codec::EncryptedDataView;
use crate::models::ids_unique;
use crate::models::AccountView;
use crate::models::Database;
use crate::primitives::aes256gcm_decrypt;
use crate::primitives::aes256gcm_encrypt;
use crate::primitives::aes256gcm_open;
use crate::primitives::aes256gcm_seal;
use crate::primitives::argon2id_hash;
use crate::primitives::argon2id_key;
use crate::primitives::base64_bytes;
use crate::primitives::base64_decode;
use crate::primitives::base64_encode;
use crate::primitives::base64_fits;
use crate::primitives::base64_text;
use crate::primitives::check_salt;
use crate::primitives::fresh_salt;
use crate::primitives::generate_nonce;
use crate::primitives::salt_text_ok;
use crate::primitives::AES_GCM_PLAINTEXT_MAX;

verus! {

/// Why a store could not be sealed or opened.
#[derive(Debug, Clone, Copy, PartialEq, Eq, Structural)]
pub enum VaultError {
    /// The stored file, or the plaintext inside it, does not have the expected form.
    FormatError,
    /// The passkey is wrong or the stored file was altered; which of the two is not
    /// told.
    DecryptionError,
    /// The salt is malformed or the key derivation refused its input.
    KeyDerivationError,
    /// The store is too large to be encrypted.
    EncryptionError,
    /// The file could not be read or written.
    IOError,
}

/// What an error says to the user.
pub open spec fn message_of(error: VaultError) -> Seq<char> {
    match error {
        VaultError::FormatError => "Malformed database file"@,
        VaultError::DecryptionError => "Invalid passkey or corrupted database file"@,
        VaultError::KeyDerivationError => "Error deriving key"@,
        VaultError::EncryptionError => "Error encrypting data"@,
        VaultError::IOError => "Error reading or writing file"@,
    }
}

impl VaultError {
    /// What the error says to the user. A wrong passkey and an altered file give the
    /// same words.
    pub fn message(&self) -> (text: String)
        ensures
            text@ == message_of(*self),
    {
        match self {
            VaultError::FormatError => "Malformed database file".to_owned(),
            VaultError::DecryptionError => "Invalid passkey or corrupted database file".to_owned(),
            VaultError::KeyDerivationError => "Error deriving key".to_owned(),
            VaultError::EncryptionError => "Error encrypting data".to_owned(),
            VaultError::IOError => "Error reading or writing file".to_owned(),
        }
    }
}

/// The longest passkey that the key derivation takes, in bytes.
pub const PASSKEY_BYTES_MAX: u64 = 0xFFFF_FFFF;

/// The key that a passkey and a salt give: none where the salt is malformed or the
/// key derivation refuses its input.
pub open spec fn derived_key(passkey: Seq<char>, salt: Seq<char>) -> Option<Seq<u8>> {
    if salt_text_ok(salt) {
        argon2id_key(encode_utf8(passkey), encode_utf8(salt))
    } else {
        None
    }
}

/// The passkeys and salts from which a key is derived.
pub open spec fn key_derivable(passkey: Seq<char>, salt: Seq<char>) -> bool {
    &&& salt_text_ok(salt)
    &&& 8 <= salt.len()
    &&& encode_utf8(passkey).len() <= PASSKEY_BYTES_MAX
}

proof fn lemma_salt_bytes(salt: Seq<char>)
    requires
        salt_text_ok(salt),
    ensures
        encode_utf8(salt).len() == salt.len(),
{
    assert(is_ascii_chars(salt)) by {
        assert forall|i: int| 0 <= i < salt.len() implies '\0' <= #[trigger] salt[i] <= '\u{7f}' by {
            assert(crate::primitives::is_salt_char(salt[i]));
        }
    }
    is_ascii_chars_encode_utf8(salt);
}

/// Derives the 32-byte key for a passkey and a salt.
pub fn derive_key_with_salt(passkey: &str, salt_str: &str) -> (key: Result<[u8; 32], VaultError>)
    ensures
        key is Ok <==> key_derivable(passkey@, salt_str@),
        key matches Ok(bytes) ==> derived_key(passkey@, salt_str@) == Some(bytes@),
        key matches Err(error) ==> error == VaultError::KeyDerivationError && derived_key(
            passkey@,
            salt_str@,
        ) is None,
{
    match check_salt(salt_str) {
        Ok(()) => {},
        Err(_) => {
            return Err(VaultError::KeyDerivationError);
        },
    }
    proof {
        lemma_salt_bytes(salt_str@);
    }
    match argon2id_hash(passkey.as_bytes(), salt_str.as_bytes()) {
        Ok(key) => Ok(key),
        Err(_) => Err(VaultError::KeyDerivationError),
    }
}

/// The plaintexts that can be sealed on this machine, by their length in bytes.
pub open spec fn sealable(plaintext_len: int) -> bool {
    &&& plaintext_len <= AES_GCM_PLAINTEXT_MAX
    &&& base64_fits(plaintext_len + 16)
}

/// What sealing a plaintext under a passkey gives with a given salt and a given
/// nonce of 12 bytes: the record to store, or the reason why there is none.
pub open spec fn sealed_record(
    plaintext: Seq<u8>,
    passkey: Seq<char>,
    salt: Seq<char>,
    nonce: Seq<u8>,
) -> Result<EncryptedDataView, VaultError> {
    match derived_key(passkey, salt) {
        None => Err(VaultError::KeyDerivationError),
        Some(key) => match aes256gcm_seal(key, nonce, plaintext) {
            None => Err(VaultError::EncryptionError),
            Some(ciphertext) => if base64_fits(ciphertext.len() as int) {
                Ok(
                    EncryptedDataView {
                        nonce: base64_text(nonce),
                        salt,
                        data: base64_text(ciphertext),
                    },
                )
            } else {
                Err(VaultError::EncryptionError)
            },
        },
    }
}

/// What opening a record under a passkey gives: the plaintext that was sealed, or
/// the reason why there is none. A nonce or a ciphertext that is not base64, and a
/// nonce that is not 12 bytes long, are format errors; a ciphertext whose tag does
/// not fit is a decryption error, whatever the cause.
pub open spec fn opened_plaintext(record: EncryptedDataView, passkey: Seq<char>) -> Result<
    Seq<u8>,
    VaultError,
> {
    match base64_bytes(record.nonce) {
        None => Err(VaultError::FormatError),
        Some(nonce) => match base64_bytes(record.data) {
            None => Err(VaultError::FormatError),
            Some(ciphertext) => if nonce.len() != 12 {
                Err(VaultError::FormatError)
            } else {
                match derived_key(passkey, record.salt) {
                    None => Err(VaultError::KeyDerivationError),
                    Some(key) => match aes256gcm_open(key, nonce, ciphertext) {
                        None => Err(VaultError::DecryptionError),
                        Some(plaintext) => Ok(plaintext),
                    },
                }
            },
        },
    }
}

/// The text of the file that sealing a store gives with a given salt and nonce. A
/// store in which two accounts share an id is not sealed: its file would not open.
pub open spec fn sealed_text(
    accounts: Seq<AccountView>,
    passkey: Seq<char>,
    salt: Seq<char>,
    nonce: Seq<u8>,
) -> Result<Seq<u8>, VaultError> {
    if !ids_unique(accounts) {
        Err(VaultError::FormatError)
    } else {
        match sealed_record(store_text(accounts), passkey, salt, nonce) {
            Ok(record) => Ok(encrypted_data_text(record)),
            Err(error) => Err(error),
        }
    }
}

/// The stores and passkeys that `seal_database` seals: no two accounts share an id,
/// and neither the passkey nor the written store is too long.
pub open spec fn can_seal(accounts: Seq<AccountView>, passkey: Seq<char>) -> bool {
    &&& ids_unique(accounts)
    &&& encode_utf8(passkey).len() <= PASSKEY_BYTES_MAX
    &&& sealable(store_text(accounts).len() as int)
}

/// The error with which `seal_database` refuses: a format error for a store in which
/// two accounts share an id, else a key derivation error for a passkey that is too
/// long, else an encryption error for a store that is too long.
pub open spec fn seal_refusal(accounts: Seq<AccountView>, passkey: Seq<char>) -> VaultError {
    if !ids_unique(accounts) {
        VaultError::FormatError
    } else if encode_utf8(passkey).len() > PASSKEY_BYTES_MAX {
        VaultError::KeyDerivationError
    } else {
        VaultError::EncryptionError
    }
}

/// The store that opening the text of a file under a passkey gives. A text that is
/// no record, a plaintext that is no store, and a store in which two accounts share
/// an id are format errors.
pub open spec fn opened_store(text: Seq<u8>, passkey: Seq<char>) -> Result<
    Seq<AccountView>,
    VaultError,
> {
    match encrypted_data_of_text(text) {
        None => Err(VaultError::FormatError),
        Some(record) => match opened_plaintext(record, passkey) {
            Err(error) => Err(error),
            Ok(plaintext) => match store_of_text(plaintext) {
                None => Err(VaultError::FormatError),
                Some(accounts) => if ids_unique(accounts) {
                    Ok(accounts)
                } else {
                    Err(VaultError::FormatError)
                },
            },
        },
    }
}

/// Whether bytes of this number can be written in base64 on this machine.
fn fits_base64(len: usize) -> (fits: bool)
    ensures
        fits == base64_fits(len as int),
{
    len / 3 <= (isize::MAX as usize - 4) / 4
}

/// Seals a plaintext under a passkey with a given salt and nonce. The record that
/// comes back opens, under the same passkey, to the plaintext.
///
/// A salt and a nonce are for one sealing only: a nonce that is used twice under one
/// key gives the plaintexts away. `seal_database` draws both afresh at every call.
pub fn encrypt_with(plaintext: &[u8], passkey: &str, salt: &str, nonce: &[u8; 12]) -> (sealed:
    Result<EncryptedData, VaultError>)
    ensures
        sealed is Ok <==> (key_derivable(passkey@, salt@) && sealable(plaintext@.len() as int)),
        sealed matches Ok(record) ==> sealed_record(plaintext@, passkey@, salt@, nonce@) == Ok::<
            EncryptedDataView,
            VaultError,
        >(record@),
        sealed matches Ok(record) ==> opened_plaintext(record@, passkey@) == Ok::<
            Seq<u8>,
            VaultError,
        >(plaintext@),
        sealed matches Err(error) ==> sealed_record(plaintext@, passkey@, salt@, nonce@) == Err::<
            EncryptedDataView,
            VaultError,
        >(error),
        sealed matches Err(error) ==> error == (if key_derivable(passkey@, salt@) {
            VaultError::EncryptionError
        } else {
            VaultError::KeyDerivationError
        }),
{
    let key = match derive_key_with_salt(passkey, salt) {
        Ok(key) => key,
        Err(error) => {
            return Err(error);
        },
    };
    let ciphertext = match aes256gcm_encrypt(key.as_slice(), nonce.as_slice(), plaintext) {
        Ok(ciphertext) => ciphertext,
        Err(_) => {
            return Err(VaultError::EncryptionError);
        },
    };
    if !fits_base64(ciphertext.len()) {
        return Err(VaultError::EncryptionError);
    }
    let nonce_text = base64_encode(nonce.as_slice());
    let data_text = base64_encode(ciphertext.as_slice());
    Ok(EncryptedData { nonce: nonce_text, salt: salt.to_owned(), data: data_text })
}

/// Opens a record under a passkey.
pub fn decrypt(record: &EncryptedData, passkey: &str) -> (opened: Result<Vec<u8>, VaultError>)
    ensures
        opened matches Ok(plaintext) ==> opened_plaintext(record@, passkey@) == Ok::<
            Seq<u8>,
            VaultError,
        >(plaintext@),
        opened matches Err(error) ==> opened_plaintext(record@, passkey@) == Err::<
            Seq<u8>,
            VaultError,
        >(error),
{
    let nonce = match base64_decode(record.nonce.as_str()) {
        Ok(nonce) => nonce,
        Err(_) => {
            return Err(VaultError::FormatError);
        },
    };
    let ciphertext = match base64_decode(record.data.as_str()) {
        Ok(ciphertext) => ciphertext,
        Err(_) => {
            return Err(VaultError::FormatError);
        },
    };
    if nonce.len() != 12 {
        return Err(VaultError::FormatError);
    }
    let key = match derive_key_with_salt(passkey, record.salt.as_str()) {
        Ok(key) => key,
        Err(error) => {
            return Err(error);
        },
    };
    match aes256gcm_decrypt(key.as_slice(), nonce.as_slice(), ciphertext.as_slice()) {
        Ok(plaintext) => Ok(plaintext),
        Err(_) => Err(VaultError::DecryptionError),
    }
}

/// Seals a store under a passkey with a given salt and nonce: the text of the file
/// to write. Opening that text under the same passkey gives the store back. A store
/// in which two accounts share an id is refused with a format error.
///
/// A salt and a nonce are for one sealing only; `seal_database` draws both afresh at
/// every call.
pub fn seal_database_with(database: &Database, passkey: &str, salt: &str, nonce: &[u8; 12]) -> (sealed:
    Result<Vec<u8>, VaultError>)
    ensures
        sealed is Ok <==> (database.wf() && key_derivable(passkey@, salt@) && sealable(
            store_text(database@).len() as int,
        )),
        sealed matches Ok(text) ==> sealed_text(database@, passkey@, salt@, nonce@) == Ok::<
            Seq<u8>,
            VaultError,
        >(text@),
        sealed matches Ok(text) ==> opened_store(text@, passkey@) == Ok::<
            Seq<AccountView>,
            VaultError,
        >(database@),
        sealed matches Err(error) ==> sealed_text(database@, passkey@, salt@, nonce@) == Err::<
            Seq<u8>,
            VaultError,
        >(error),
        sealed matches Err(error) ==> error == (if !database.wf() {
            VaultError::FormatError
        } else if key_derivable(passkey@, salt@) {
            VaultError::EncryptionError
        } else {
            VaultError::KeyDerivationError
        }),
{
    if !database.is_wf() {
        return Err(VaultError::FormatError);
    }
    let plaintext = encode_store(database.get_accounts());
    match encrypt_with(plaintext.as_slice(), passkey, salt, nonce) {
        Ok(record) => {
            let text = record.to_text();
            proof {
                encrypted_data_of_text_inverts(record@);
                store_of_text_inverts(database@);
            }
            Ok(text)
        },
        Err(error) => Err(error),
    }
}

/// Seals a store under a passkey, with a salt of 16 random bytes (22 characters) and
/// a nonce of 12 random bytes that are drawn afresh at every call: the text of the
/// file to write. It is refused only for a store in which two accounts share an id
/// and for a passkey or a store that is too long. Opening the text under the same
/// passkey gives the store back.
pub fn seal_database(database: &Database, passkey: &str) -> (sealed: Result<Vec<u8>, VaultError>)
    ensures
        sealed is Ok <==> can_seal(database@, passkey@),
        sealed matches Ok(text) ==> exists|salt: Seq<char>, nonce: Seq<u8>|
            salt_text_ok(salt) && salt.len() == 22 && nonce.len() == 12 && #[trigger] sealed_text(
                database@,
                passkey@,
                salt,
                nonce,
            ) == Ok::<Seq<u8>, VaultError>(text@),
        sealed matches Ok(text) ==> opened_store(text@, passkey@) == Ok::<
            Seq<AccountView>,
            VaultError,
        >(database@),
        sealed matches Err(error) ==> error == seal_refusal(database@, passkey@),
{
    let salt = fresh_salt();
    let nonce = generate_nonce();
    seal_database_with(database, passkey, salt.as_str(), &nonce)
}

/// Opens the text of a file under a passkey: the store that was sealed, or the
/// reason why there is none.
pub fn open_database(text: &[u8], passkey: &str) -> (opened: Result<Database, VaultError>)
    ensures
        opened matches Ok(database) ==> database.wf() && opened_store(text@, passkey@) == Ok::<
            Seq<AccountView>,
            VaultError,
        >(database@),
        opened matches Err(error) ==> opened_store(text@, passkey@) == Err::<
            Seq<AccountView>,
            VaultError,
        >(error),
{
    let record = match EncryptedData::from_text(text) {
        Some(record) => record,
        None => {
            return Err(VaultError::FormatError);
        },
    };
    let plaintext = match decrypt(&record, passkey) {
        Ok(plaintext) => plaintext,
        Err(error) => {
            return Err(error);
        },
    };
    let accounts = match decode_store(plaintext.as_slice()) {
        Some(accounts) => accounts,
        None => {
            return Err(VaultError::FormatError);
        },
    };
    match Database::from_accounts(accounts) {
        Some(database) => Ok(database),
        None => Err(VaultError::FormatError),
    }
}

} // verus!
