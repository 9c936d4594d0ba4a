//! What holds between the functions of the library.
use vstd::prelude::*;
use crate::codec::encrypted_data_of_text;
use crate::codec::store_text;
use crate::codec::EncryptedDataView;
use crate::encryption::derived_key;
use crate::encryption::opened_plaintext;
use crate::encryption::opened_store;
use crate::encryption::VaultError;
use crate::models::find_by_id;
use crate::models::first_with_id_exists;
use crate::models::first_with_id_is_unique;
use crate::models::has_id;
use crate::models::ids_unique;
use crate::models::is_first_with_id;
use crate::models::remove_by_id;
use crate::models::AccountView;
use crate::password::has_lowercase;
use crate::password::has_number;
use crate::password::has_special;
use crate::password::has_uppercase;
use crate::password::password_valid;
use crate::password::MIN_PASSWORD_LENGTH;
use crate::primitives::aes256gcm_open;
use crate::primitives::base64_bytes;

verus! {

/// An account that was appended under an id that no account had is the account that
/// is found under that id.
pub proof fn find_after_create(accounts: Seq<AccountView>, account: AccountView)
    requires
        !has_id(accounts, account.id),
    ensures
        find_by_id(accounts.push(account), account.id) == Some(account),
{
    let after = accounts.push(account);
    let last = accounts.len() as int;
    assert(after[last] == account);
    assert forall|j: int| 0 <= j < last implies (#[trigger] after[j]).id != account.id by {
        assert(after[j] == accounts[j]);
    }
    assert(is_first_with_id(after, account.id, last));
    let found = choose|i: int| is_first_with_id(after, account.id, i);
    first_with_id_is_unique(after, account.id, found, last);
}

/// Appending an account under an id that no account had leaves every other id
/// where it was: what is found under it is what was found before.
pub proof fn find_other_after_create(accounts: Seq<AccountView>, account: AccountView, id: Seq<char>)
    requires
        id != account.id,
    ensures
        find_by_id(accounts.push(account), id) == find_by_id(accounts, id),
{
    let after = accounts.push(account);
    if has_id(accounts, id) {
        first_with_id_exists(accounts, id);
        let i = choose|i: int| is_first_with_id(accounts, id, i);
        assert(after[i] == accounts[i]);
        assert forall|j: int| 0 <= j < i implies (#[trigger] after[j]).id != id by {
            assert(after[j] == accounts[j]);
        }
        assert(is_first_with_id(after, id, i));
        let found = choose|k: int| is_first_with_id(after, id, k);
        first_with_id_is_unique(after, id, found, i);
    } else {
        if has_id(after, id) {
            let k = choose|k: int| 0 <= k < after.len() && (#[trigger] after[k]).id == id;
            assert(after[k] == accounts[k]);
        }
    }
}

/// In a store in which no two accounts share an id, nothing is found under an id
/// once the account with that id was removed.
pub proof fn find_after_remove(accounts: Seq<AccountView>, id: Seq<char>)
    requires
        ids_unique(accounts),
    ensures
        find_by_id(remove_by_id(accounts, id), id) is None,
{
    let after = remove_by_id(accounts, id);
    if has_id(accounts, id) {
        first_with_id_exists(accounts, id);
        let i = choose|i: int| is_first_with_id(accounts, id, i);
        if has_id(after, id) {
            let k = choose|k: int| 0 <= k < after.len() && (#[trigger] after[k]).id == id;
            if k < i {
                assert(after[k] == accounts[k]);
            } else {
                assert(after[k] == accounts[k + 1]);
                assert(accounts[i].id != accounts[k + 1].id);
            }
        }
    }
}

/// Removing under an id that no account has changes nothing: the store is the same,
/// and so is its length.
pub proof fn remove_unknown_changes_nothing(accounts: Seq<AccountView>, id: Seq<char>)
    requires
        !has_id(accounts, id),
    ensures
        remove_by_id(accounts, id) == accounts,
        remove_by_id(accounts, id).len() == accounts.len(),
{
}

/// Removing under an id that some account has makes the store shorter by one.
pub proof fn remove_known_shortens_by_one(accounts: Seq<AccountView>, id: Seq<char>)
    requires
        has_id(accounts, id),
    ensures
        remove_by_id(accounts, id).len() == accounts.len() - 1,
{
    first_with_id_exists(accounts, id);
}

/// Appending under an id that no account had, and removing, keep a store free of
/// shared ids.
pub proof fn ids_stay_unique(accounts: Seq<AccountView>, account: AccountView, id: Seq<char>)
    requires
        ids_unique(accounts),
    ensures
        !has_id(accounts, account.id) ==> ids_unique(accounts.push(account)),
        ids_unique(remove_by_id(accounts, id)),
{
    if !has_id(accounts, account.id) {
        let after = accounts.push(account);
        assert forall|i: int, j: int| 0 <= i < j < after.len() implies (#[trigger] after[i]).id != (
        #[trigger] after[j]).id by {
            if j < accounts.len() {
                assert(after[i] == accounts[i] && after[j] == accounts[j]);
            } else {
                assert(after[i] == accounts[i]);
            }
        }
    }
    if has_id(accounts, id) {
        first_with_id_exists(accounts, id);
        let at = choose|i: int| is_first_with_id(accounts, id, i);
        let after = accounts.remove(at);
        assert forall|i: int, j: int| 0 <= i < j < after.len() implies (#[trigger] after[i]).id != (
        #[trigger] after[j]).id by {
            let a = if i < at { i } else { i + 1 };
            let b = if j < at { j } else { j + 1 };
            assert(after[i] == accounts[a] && after[j] == accounts[b]);
        }
    }
}

/// A record whose ciphertext does not pass authentication under the key that the
/// passkey gives fails to open with a decryption error, and so does the text of a
/// file that holds it: whether the passkey is wrong or the record was altered makes
/// no difference.
pub proof fn unauthentic_is_decryption_error(
    text: Seq<u8>,
    record: EncryptedDataView,
    passkey: Seq<char>,
)
    requires
        encrypted_data_of_text(text) == Some(record),
        base64_bytes(record.nonce) is Some,
        base64_bytes(record.data) is Some,
        base64_bytes(record.nonce)->0.len() == 12,
        derived_key(passkey, record.salt) is Some,
        aes256gcm_open(
            derived_key(passkey, record.salt)->0,
            base64_bytes(record.nonce)->0,
            base64_bytes(record.data)->0,
        ) is None,
    ensures
        opened_plaintext(record, passkey) == Err::<Seq<u8>, VaultError>(VaultError::DecryptionError),
        opened_store(text, passkey) == Err::<Seq<AccountView>, VaultError>(
            VaultError::DecryptionError,
        ),
{
}

/// A store that opening gives is never made up: the text is a record, its
/// ciphertext passes authentication under the key that the passkey gives, and what
/// it authenticates is the written form of that store.
pub proof fn opened_store_is_authentic(text: Seq<u8>, passkey: Seq<char>, accounts: Seq<AccountView>)
    requires
        opened_store(text, passkey) == Ok::<Seq<AccountView>, VaultError>(accounts),
    ensures
        encrypted_data_of_text(text) is Some,
        ({
            let record = encrypted_data_of_text(text)->0;
            &&& derived_key(passkey, record.salt) is Some
            &&& base64_bytes(record.nonce) is Some
            &&& base64_bytes(record.data) is Some
            &&& aes256gcm_open(
                derived_key(passkey, record.salt)->0,
                base64_bytes(record.nonce)->0,
                base64_bytes(record.data)->0,
            ) == Some(store_text(accounts))
        }),
        ids_unique(accounts),
{
    let record = encrypted_data_of_text(text)->0;
    let plaintext = opened_plaintext(record, passkey)->Ok_0;
    assert(crate::codec::store_of_text(plaintext) == Some(accounts));
    assert(store_text(accounts) == plaintext);
}

/// A text of fewer than 15 characters is no valid password, whatever characters it
/// holds: 14 characters of all four classes are not enough.
pub proof fn short_password_is_invalid(text: Seq<char>)
    requires
        text.len() < MIN_PASSWORD_LENGTH,
    ensures
        !password_valid(text),
{
}

/// A text of 15 characters or more with a character of each class is a valid
/// password.
pub proof fn long_password_of_all_classes_is_valid(text: Seq<char>)
    requires
        text.len() >= MIN_PASSWORD_LENGTH,
        has_lowercase(text),
        has_uppercase(text),
        has_number(text),
        has_special(text),
    ensures
        password_valid(text),
{
}

/// A text that lacks one of the four classes of character is no valid password,
/// however long it is.
pub proof fn password_without_a_class_is_invalid(text: Seq<char>)
    requires
        !has_lowercase(text) || !has_uppercase(text) || !has_number(text) || !has_special(text),
    ensures
        !password_valid(text),
{
}

} // verus!
