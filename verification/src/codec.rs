//! The written form of stores and of stored files.
//!
//! A store is written as `{"accounts":[...]}`, each account as
//! `{"id":"..","username_or_email":"..","description":..,"password":".."}` with
//! `null` for a description that is not there, a stored file as
//! `{"nonce":"..","salt":"..","data":".."}`: no white space, the fields in this
//! order, texts in UTF-8 with `"`, `\` and the control characters escaped. Writing
//! gives exactly this form and reading accepts exactly this form, so that reading is
//! the inverse of writing.
use vstd::prelude::*;
use vstd::utf8::*;
use crate::models::views_of;
use crate::models::Account;
use crate::models::AccountView;

verus! {

/// The byte `"`.
pub const QUOTE: u8 = 0x22;

/// The byte `\`.
pub const BACKSLASH: u8 = 0x5c;

/// The byte `,`.
pub const COMMA: u8 = 0x2c;

/// The byte `]`.
pub const CLOSE_LIST: u8 = 0x5d;

/// The lowercase hexadecimal digit for `v`, for `v < 16`, as a byte of text.
pub open spec fn hex_digit(v: u8) -> u8 {
    if v < 10 {
        (0x30 + v) as u8
    } else {
        (0x57 + v) as u8
    }
}

/// How one byte of a text appears between quotes: `"` and `\` behind a backslash,
/// the control characters in their short form (`\b`, `\t`, `\n`, `\f`, `\r`) or else
/// as `\u00` and two hexadecimal digits, every other byte as itself.
pub open spec fn escape_byte(b: u8) -> Seq<u8> {
    if b == QUOTE {
        seq![BACKSLASH, QUOTE]
    } else if b == BACKSLASH {
        seq![BACKSLASH, BACKSLASH]
    } else if b == 0x08 {
        seq![BACKSLASH, 0x62u8]
    } else if b == 0x09 {
        seq![BACKSLASH, 0x74u8]
    } else if b == 0x0a {
        seq![BACKSLASH, 0x6eu8]
    } else if b == 0x0c {
        seq![BACKSLASH, 0x66u8]
    } else if b == 0x0d {
        seq![BACKSLASH, 0x72u8]
    } else if b < 0x20 {
        seq![BACKSLASH, 0x75u8, 0x30u8, 0x30u8, hex_digit(b / 16), hex_digit(b % 16)]
    } else {
        seq![b]
    }
}

/// The bytes of a text as they appear between quotes.
pub open spec fn escaped(bytes: Seq<u8>) -> Seq<u8>
    decreases bytes.len(),
{
    if bytes.len() == 0 {
        Seq::empty()
    } else {
        escape_byte(bytes[0]) + escaped(bytes.skip(1))
    }
}

/// A text as it is written in a file: its UTF-8 bytes, escaped, between quotes.
pub open spec fn quoted(text: Seq<char>) -> Seq<u8> {
    seq![QUOTE] + escaped(encode_utf8(text)) + seq![QUOTE]
}

/// The bytes of a fixed piece of the format.
pub open spec fn token(text: &str) -> Seq<u8> {
    encode_utf8(text@)
}

/// An optional text as it is written in a file: `null` where there is none.
pub open spec fn optional_text(text: Option<Seq<char>>) -> Seq<u8> {
    match text {
        Some(t) => quoted(t),
        None => token("null"),
    }
}

/// One account as it is written in a file: its four fields by name, in this order.
#[verifier::opaque]
pub open spec fn account_text(account: AccountView) -> Seq<u8> {
    token("{\"id\":") + quoted(account.id) + token(",\"username_or_email\":") + quoted(
        account.username_or_email,
    ) + token(",\"description\":") + optional_text(account.description) + token(
        ",\"password\":",
    ) + quoted(account.password) + token("}")
}

/// The accounts that follow the first one, each behind a comma, and the bracket
/// that closes the list.
pub open spec fn more_accounts_text(accounts: Seq<AccountView>) -> Seq<u8>
    decreases accounts.len(),
{
    if accounts.len() == 0 {
        seq![CLOSE_LIST]
    } else {
        seq![COMMA] + account_text(accounts[0]) + more_accounts_text(accounts.skip(1))
    }
}

/// The accounts of a list, with commas between them, and the bracket that closes
/// the list.
pub open spec fn accounts_text(accounts: Seq<AccountView>) -> Seq<u8> {
    if accounts.len() == 0 {
        seq![CLOSE_LIST]
    } else {
        account_text(accounts[0]) + more_accounts_text(accounts.skip(1))
    }
}

/// A store as it is written before it is encrypted: one object whose only field,
/// `accounts`, lists the accounts in order.
pub open spec fn store_text(accounts: Seq<AccountView>) -> Seq<u8> {
    token("{\"accounts\":[") + accounts_text(accounts) + token("}")
}

/// The store that a text is the written form of, if it is that of any.
pub open spec fn store_of_text(text: Seq<u8>) -> Option<Seq<AccountView>> {
    if exists|accounts: Seq<AccountView>| store_text(accounts) == text {
        Some(choose|accounts: Seq<AccountView>| store_text(accounts) == text)
    } else {
        None
    }
}

/// What a stored file holds, as mathematical values.
pub struct EncryptedDataView {
    pub nonce: Seq<char>,
    pub salt: Seq<char>,
    pub data: Seq<char>,
}

/// A stored file: one object with the fields `nonce`, `salt` and `data`, in this
/// order.
#[verifier::opaque]
pub open spec fn encrypted_data_text(record: EncryptedDataView) -> Seq<u8> {
    token("{\"nonce\":") + quoted(record.nonce) + token(",\"salt\":") + quoted(record.salt)
        + token(",\"data\":") + quoted(record.data) + token("}")
}

/// The record that a text is the written form of, if it is that of any.
pub open spec fn encrypted_data_of_text(text: Seq<u8>) -> Option<EncryptedDataView> {
    if exists|record: EncryptedDataView| encrypted_data_text(record) == text {
        Some(choose|record: EncryptedDataView| encrypted_data_text(record) == text)
    } else {
        None
    }
}

// ---------------------------------------------------------------------------
// Reading, as functions on what is left of the input. Each returns what it read
// and the input that follows, or `None` where the input does not begin with the
// written form of any value.
// ---------------------------------------------------------------------------

/// Reads one escaped byte from the front of `s`, which is not empty and does not
/// begin with a quote: the byte and the number of input bytes that stand for it.
#[verifier::opaque]
pub closed spec fn unescape_one(s: Seq<u8>) -> Option<(u8, int)> {
    if s[0] != BACKSLASH {
        if s[0] < 0x20 || s[0] == QUOTE {
            None
        } else {
            Some((s[0], 1))
        }
    } else if s.len() < 2 {
        None
    } else if s[1] == QUOTE {
        Some((QUOTE, 2))
    } else if s[1] == BACKSLASH {
        Some((BACKSLASH, 2))
    } else if s[1] == 0x62 {
        Some((0x08u8, 2))
    } else if s[1] == 0x74 {
        Some((0x09u8, 2))
    } else if s[1] == 0x6e {
        Some((0x0au8, 2))
    } else if s[1] == 0x66 {
        Some((0x0cu8, 2))
    } else if s[1] == 0x72 {
        Some((0x0du8, 2))
    } else if s[1] == 0x75 && s.len() >= 6 {
        let b = control_of(s[4], s[5]);
        if b < 0x20 && s.take(6) == escape_byte(b) {
            Some((b, 6))
        } else {
            None
        }
    } else {
        None
    }
}

/// The control character that two hexadecimal digits name, or 0x20 where they name
/// none.
pub closed spec fn control_of(high: u8, low: u8) -> u8 {
    let h: int = high - 0x30;
    let l: int = if 0x30 <= low <= 0x39 {
        low - 0x30
    } else if 0x61 <= low <= 0x66 {
        low - 0x57
    } else {
        16
    };
    if 0 <= h <= 1 && l < 16 {
        (16 * h + l) as u8
    } else {
        0x20
    }
}

/// Reads escaped bytes up to the closing quote: the bytes and what follows the quote.
#[verifier::opaque]
pub closed spec fn unescaped(s: Seq<u8>) -> Option<(Seq<u8>, Seq<u8>)>
    decreases s.len(),
{
    if s.len() == 0 {
        None
    } else if s[0] == QUOTE {
        Some((Seq::empty(), s.skip(1)))
    } else {
        match unescape_one(s) {
            Some((b, n)) => if 0 < n <= s.len() {
                match unescaped(s.skip(n)) {
                    Some((more, rest)) => Some((seq![b] + more, rest)),
                    None => None,
                }
            } else {
                None
            },
            None => None,
        }
    }
}

/// An escaped byte takes one to six bytes and never begins with a quote.
proof fn lemma_escape_byte_shape(b: u8)
    ensures
        1 <= escape_byte(b).len() <= 6,
        escape_byte(b)[0] != QUOTE,
{
}

/// An escaped byte, whatever follows it, reads back as the byte.
proof fn lemma_unescape_one_reads(b: u8, tail: Seq<u8>)
    ensures
        unescape_one(escape_byte(b) + tail) == Some((b, escape_byte(b).len() as int)),
{
    reveal(unescape_one);
    let s = escape_byte(b) + tail;
    if b < 0x20 && b != 0x08 && b != 0x09 && b != 0x0a && b != 0x0c && b != 0x0d {
        assert(s.take(6) =~= escape_byte(b));
        assert(s[4] == hex_digit(b / 16));
        assert(s[5] == hex_digit(b % 16));
        assert(control_of(s[4], s[5]) == b);
    }
}

/// What was read as one byte stands at the front of the input, escaped.
proof fn lemma_unescape_one_sound(s: Seq<u8>)
    requires
        s.len() > 0,
        s[0] != QUOTE,
        unescape_one(s) is Some,
    ensures
        ({
            let (b, n) = unescape_one(s)->0;
            0 < n <= s.len() && s.take(n) == escape_byte(b)
        }),
{
    reveal(unescape_one);
    let (b, n) = unescape_one(s)->0;
    assert(s.take(n) =~= escape_byte(b));
}

/// Escaped bytes, a quote and a tail read back as the bytes and the tail.
proof fn lemma_unescaped_reads(bytes: Seq<u8>, tail: Seq<u8>)
    ensures
        unescaped(escaped(bytes) + seq![QUOTE] + tail) == Some((bytes, tail)),
    decreases bytes.len(),
{
    reveal(unescaped);
    let s = escaped(bytes) + seq![QUOTE] + tail;
    if bytes.len() == 0 {
        assert(s.skip(1) =~= tail);
    } else {
        let first = escape_byte(bytes[0]);
        let n = first.len() as int;
        let after = escaped(bytes.skip(1)) + seq![QUOTE] + tail;
        lemma_escape_byte_shape(bytes[0]);
        assert(s =~= first + after);
        lemma_unescape_one_reads(bytes[0], after);
        assert(s.skip(n) =~= after);
        lemma_unescaped_reads(bytes.skip(1), tail);
        assert(seq![bytes[0]] + bytes.skip(1) =~= bytes);
    }
}

/// What was read stands at the front of the input, escaped and closed by a quote.
proof fn lemma_unescaped_sound(s: Seq<u8>)
    requires
        unescaped(s) is Some,
    ensures
        ({
            let (bytes, rest) = unescaped(s)->0;
            s == escaped(bytes) + seq![QUOTE] + rest
        }),
    decreases s.len(),
{
    reveal(unescaped);
    let (bytes, rest) = unescaped(s)->0;
    if s[0] == QUOTE {
        assert(escaped(bytes) =~= Seq::<u8>::empty());
        assert(s =~= escaped(bytes) + seq![QUOTE] + rest);
    } else {
        let (b, n) = unescape_one(s)->0;
        lemma_unescape_one_sound(s);
        lemma_unescaped_sound(s.skip(n));
        let (more, rest2) = unescaped(s.skip(n))->0;
        assert(bytes == seq![b] + more);
        assert(bytes.skip(1) =~= more);
        assert(escaped(bytes) == escape_byte(b) + escaped(more));
        assert(s =~= s.take(n) + s.skip(n));
        assert(s =~= escaped(bytes) + seq![QUOTE] + rest);
    }
}

/// Reads a quoted text.
#[verifier::opaque]
pub closed spec fn take_text(s: Seq<u8>) -> Option<(Seq<char>, Seq<u8>)> {
    if s.len() > 0 && s[0] == QUOTE {
        match unescaped(s.skip(1)) {
            Some((bytes, rest)) => if valid_utf8(bytes) {
                Some((decode_utf8(bytes), rest))
            } else {
                None
            },
            None => None,
        }
    } else {
        None
    }
}

/// A written text, whatever follows it, reads back as the text.
proof fn lemma_take_text_reads(text: Seq<char>, tail: Seq<u8>)
    ensures
        take_text(quoted(text) + tail) == Some((text, tail)),
{
    reveal(take_text);
    let s = quoted(text) + tail;
    let bytes = encode_utf8(text);
    assert(s.skip(1) =~= escaped(bytes) + seq![QUOTE] + tail);
    lemma_unescaped_reads(bytes, tail);
    encode_utf8_valid_utf8(text);
    encode_utf8_decode_utf8(text);
}

/// The text that was read stands at the front of the input in its written form.
proof fn lemma_take_text_sound(s: Seq<u8>)
    requires
        take_text(s) is Some,
    ensures
        ({
            let (text, rest) = take_text(s)->0;
            s == quoted(text) + rest
        }),
{
    reveal(take_text);
    let (bytes, rest) = unescaped(s.skip(1))->0;
    lemma_unescaped_sound(s.skip(1));
    decode_utf8_encode_utf8(bytes);
    assert(s =~= seq![QUOTE] + s.skip(1));
    assert(s =~= quoted(decode_utf8(bytes)) + rest);
}

/// Reads a fixed piece of the format.
#[verifier::opaque]
pub closed spec fn after_token(s: Seq<u8>, piece: Seq<u8>) -> Option<Seq<u8>> {
    if piece.is_prefix_of(s) {
        Some(s.skip(piece.len() as int))
    } else {
        None
    }
}

/// A piece, whatever follows it, reads as the piece.
proof fn lemma_after_token_reads(piece: Seq<u8>, tail: Seq<u8>)
    ensures
        after_token(piece + tail, piece) == Some(tail),
{
    reveal(after_token);
    let s = piece + tail;
    assert(s.subrange(0, piece.len() as int) =~= piece);
    assert(s.skip(piece.len() as int) =~= tail);
}

/// The piece that was read stands at the front of the input.
proof fn lemma_after_token_sound(s: Seq<u8>, piece: Seq<u8>)
    requires
        after_token(s, piece) is Some,
    ensures
        s == piece + after_token(s, piece)->0,
{
    reveal(after_token);
    assert(s =~= piece + s.skip(piece.len() as int));
}

/// The first bytes of the pieces by which the readers tell the cases apart.
proof fn lemma_token_heads()
    ensures
        token("null").len() > 0,
        token("null")[0] == 0x6e,
        token("{\"id\":").len() > 0,
        token("{\"id\":")[0] == 0x7b,
{
    reveal_strlit("null");
    reveal_strlit("{\"id\":");
    is_ascii_chars_encode_utf8("null"@);
    is_ascii_chars_encode_utf8("{\"id\":"@);
    assert("null"@[0] == 'n');
    assert("{\"id\":"@[0] == '{');
}

/// Reads an optional text.
#[verifier::opaque]
pub closed spec fn take_optional_text(s: Seq<u8>) -> Option<(Option<Seq<char>>, Seq<u8>)> {
    match after_token(s, token("null")) {
        Some(rest) => Some((None, rest)),
        None => match take_text(s) {
            Some((text, rest)) => Some((Some(text), rest)),
            None => None,
        },
    }
}

/// A written optional text, whatever follows it, reads back as the text.
proof fn lemma_take_optional_text_reads(text: Option<Seq<char>>, tail: Seq<u8>)
    ensures
        take_optional_text(optional_text(text) + tail) == Some((text, tail)),
{
    reveal(take_optional_text);
    reveal(after_token);
    let s = optional_text(text) + tail;
    lemma_token_heads();
    match text {
        Some(t) => {
            assert(s[0] == QUOTE);
            assert(!token("null").is_prefix_of(s)) by {
                if token("null").is_prefix_of(s) {
                    assert(s.subrange(0, token("null").len() as int)[0] == token("null")[0]);
                }
            }
            lemma_take_text_reads(t, tail);
        },
        None => {
            lemma_after_token_reads(token("null"), tail);
        },
    }
}

/// The optional text that was read stands at the front of the input in its written form.
proof fn lemma_take_optional_text_sound(s: Seq<u8>)
    requires
        take_optional_text(s) is Some,
    ensures
        ({
            let (text, rest) = take_optional_text(s)->0;
            s == optional_text(text) + rest
        }),
{
    reveal(take_optional_text);
    match after_token(s, token("null")) {
        Some(rest) => {
            lemma_after_token_sound(s, token("null"));
        },
        None => {
            lemma_take_text_sound(s);
        },
    }
}

/// Reads one account.
#[verifier::opaque]
pub closed spec fn take_account(s: Seq<u8>) -> Option<(AccountView, Seq<u8>)> {
    match after_token(s, token("{\"id\":")) {
        None => None,
        Some(s1) => match take_text(s1) {
            None => None,
            Some((id, s2)) => match after_token(s2, token(",\"username_or_email\":")) {
                None => None,
                Some(s3) => match take_text(s3) {
                    None => None,
                    Some((username_or_email, s4)) => match after_token(
                        s4,
                        token(",\"description\":"),
                    ) {
                        None => None,
                        Some(s5) => match take_optional_text(s5) {
                            None => None,
                            Some((description, s6)) => match after_token(
                                s6,
                                token(",\"password\":"),
                            ) {
                                None => None,
                                Some(s7) => match take_text(s7) {
                                    None => None,
                                    Some((password, s8)) => match after_token(s8, token("}")) {
                                        None => None,
                                        Some(rest) => Some(
                                            (
                                                AccountView {
                                                    id,
                                                    username_or_email,
                                                    description,
                                                    password,
                                                },
                                                rest,
                                            ),
                                        ),
                                    },
                                },
                            },
                        },
                    },
                },
            },
        },
    }
}

/// Concatenation may be regrouped.
proof fn lemma_concat_assoc(a: Seq<u8>, b: Seq<u8>, c: Seq<u8>)
    ensures
        (a + b) + c == a + (b + c),
{
    assert((a + b) + c =~= a + (b + c));
}

/// The pieces of a written account, with what follows it, grouped from the right.
spec fn account_text_then(account: AccountView, tail: Seq<u8>) -> Seq<u8> {
    token("{\"id\":") + (quoted(account.id) + (token(",\"username_or_email\":") + (quoted(
        account.username_or_email,
    ) + (token(",\"description\":") + (optional_text(account.description) + (token(
        ",\"password\":",
    ) + (quoted(account.password) + (token("}") + tail))))))))
}

/// The written form of an account, regrouped from the right.
proof fn lemma_account_text_then(account: AccountView, tail: Seq<u8>)
    ensures
        account_text(account) + tail == account_text_then(account, tail),
{
    reveal(account_text);
    let t1 = token("{\"id\":");
    let q1 = quoted(account.id);
    let t2 = token(",\"username_or_email\":");
    let q2 = quoted(account.username_or_email);
    let t3 = token(",\"description\":");
    let q3 = optional_text(account.description);
    let t4 = token(",\"password\":");
    let q4 = quoted(account.password);
    let t5 = token("}");
    let x2 = t1 + q1;
    let x3 = x2 + t2;
    let x4 = x3 + q2;
    let x5 = x4 + t3;
    let x6 = x5 + q3;
    let x7 = x6 + t4;
    let x8 = x7 + q4;
    let s8 = t5 + tail;
    let s7 = q4 + s8;
    let s6 = t4 + s7;
    let s5 = q3 + s6;
    let s4 = t3 + s5;
    let s3 = q2 + s4;
    let s2 = t2 + s3;
    let s1 = q1 + s2;
    lemma_concat_assoc(x8, t5, tail);
    lemma_concat_assoc(x7, q4, s8);
    lemma_concat_assoc(x6, t4, s7);
    lemma_concat_assoc(x5, q3, s6);
    lemma_concat_assoc(x4, t3, s5);
    lemma_concat_assoc(x3, q2, s4);
    lemma_concat_assoc(x2, t2, s3);
    lemma_concat_assoc(t1, q1, s2);
}

/// A written account, whatever follows it, reads back as the account.
proof fn lemma_take_account_reads(account: AccountView, tail: Seq<u8>)
    ensures
        take_account(account_text(account) + tail) == Some((account, tail)),
{
    reveal(take_account);
    let s8 = token("}") + tail;
    let s7 = quoted(account.password) + s8;
    let s6 = token(",\"password\":") + s7;
    let s5 = optional_text(account.description) + s6;
    let s4 = token(",\"description\":") + s5;
    let s3 = quoted(account.username_or_email) + s4;
    let s2 = token(",\"username_or_email\":") + s3;
    let s1 = quoted(account.id) + s2;
    lemma_account_text_then(account, tail);
    lemma_after_token_reads(token("{\"id\":"), s1);
    lemma_take_text_reads(account.id, s2);
    lemma_after_token_reads(token(",\"username_or_email\":"), s3);
    lemma_take_text_reads(account.username_or_email, s4);
    lemma_after_token_reads(token(",\"description\":"), s5);
    lemma_take_optional_text_reads(account.description, s6);
    lemma_after_token_reads(token(",\"password\":"), s7);
    lemma_take_text_reads(account.password, s8);
    lemma_after_token_reads(token("}"), tail);
}

/// The account that was read stands at the front of the input in its written form.
proof fn lemma_take_account_sound(s: Seq<u8>)
    requires
        take_account(s) is Some,
    ensures
        ({
            let (account, rest) = take_account(s)->0;
            s == account_text(account) + rest
        }),
{
    reveal(take_account);
    let (account, rest) = take_account(s)->0;
    let s1 = after_token(s, token("{\"id\":"))->0;
    let s2 = (take_text(s1)->0).1;
    let s3 = after_token(s2, token(",\"username_or_email\":"))->0;
    let s4 = (take_text(s3)->0).1;
    let s5 = after_token(s4, token(",\"description\":"))->0;
    let s6 = (take_optional_text(s5)->0).1;
    let s7 = after_token(s6, token(",\"password\":"))->0;
    let s8 = (take_text(s7)->0).1;
    lemma_after_token_sound(s, token("{\"id\":"));
    lemma_take_text_sound(s1);
    lemma_after_token_sound(s2, token(",\"username_or_email\":"));
    lemma_take_text_sound(s3);
    lemma_after_token_sound(s4, token(",\"description\":"));
    lemma_take_optional_text_sound(s5);
    lemma_after_token_sound(s6, token(",\"password\":"));
    lemma_take_text_sound(s7);
    lemma_after_token_sound(s8, token("}"));
    lemma_account_text_then(account, rest);
}

/// Reads the accounts that follow the first one, and the end of the list.
#[verifier::opaque]
pub closed spec fn take_more_accounts(s: Seq<u8>) -> Option<(Seq<AccountView>, Seq<u8>)>
    decreases s.len(),
{
    if s.len() == 0 {
        None
    } else if s[0] == CLOSE_LIST {
        Some((Seq::empty(), s.skip(1)))
    } else if s[0] == COMMA {
        match take_account(s.skip(1)) {
            Some((account, rest)) => if rest.len() < s.len() {
                match take_more_accounts(rest) {
                    Some((more, after)) => Some((seq![account] + more, after)),
                    None => None,
                }
            } else {
                None
            },
            None => None,
        }
    } else {
        None
    }
}

/// The written rest of a list, whatever follows it, reads back as the accounts.
proof fn lemma_take_more_accounts_reads(accounts: Seq<AccountView>, tail: Seq<u8>)
    ensures
        take_more_accounts(more_accounts_text(accounts) + tail) == Some((accounts, tail)),
    decreases accounts.len(),
{
    reveal(take_more_accounts);
    let s = more_accounts_text(accounts) + tail;
    if accounts.len() == 0 {
        assert(s.skip(1) =~= tail);
    } else {
        let rest = more_accounts_text(accounts.skip(1)) + tail;
        lemma_concat_assoc(seq![COMMA] + account_text(accounts[0]), more_accounts_text(accounts.skip(1)), tail);
        lemma_concat_assoc(seq![COMMA], account_text(accounts[0]), rest);
        assert(s == seq![COMMA] + (account_text(accounts[0]) + rest));
        assert(s.skip(1) =~= account_text(accounts[0]) + rest);
        lemma_take_account_reads(accounts[0], rest);
        lemma_take_more_accounts_reads(accounts.skip(1), tail);
        assert(seq![accounts[0]] + accounts.skip(1) =~= accounts);
    }
}

/// The accounts that were read stand at the front of the input as the rest of a list.
proof fn lemma_take_more_accounts_sound(s: Seq<u8>)
    requires
        take_more_accounts(s) is Some,
    ensures
        ({
            let (accounts, rest) = take_more_accounts(s)->0;
            s == more_accounts_text(accounts) + rest
        }),
    decreases s.len(),
{
    reveal(take_more_accounts);
    let (accounts, rest) = take_more_accounts(s)->0;
    if s[0] == CLOSE_LIST {
        assert(s =~= more_accounts_text(accounts) + rest);
    } else {
        let (account, s1) = take_account(s.skip(1))->0;
        let (more, after) = take_more_accounts(s1)->0;
        lemma_take_account_sound(s.skip(1));
        lemma_take_more_accounts_sound(s1);
        assert(accounts.skip(1) =~= more);
        assert(s =~= seq![COMMA] + s.skip(1));
        lemma_concat_assoc(seq![COMMA] + account_text(account), more_accounts_text(more), rest);
        lemma_concat_assoc(seq![COMMA], account_text(account), s1);
    }
}

/// Reads a list of accounts, from behind its opening bracket to its end.
#[verifier::opaque]
pub closed spec fn take_accounts(s: Seq<u8>) -> Option<(Seq<AccountView>, Seq<u8>)> {
    if s.len() > 0 && s[0] == CLOSE_LIST {
        Some((Seq::empty(), s.skip(1)))
    } else {
        match take_account(s) {
            Some((account, rest)) => match take_more_accounts(rest) {
                Some((more, after)) => Some((seq![account] + more, after)),
                None => None,
            },
            None => None,
        }
    }
}

/// A written account begins with an opening brace.
proof fn lemma_account_text_head(account: AccountView, tail: Seq<u8>)
    ensures
        (account_text(account) + tail).len() > 0,
        (account_text(account) + tail)[0] == 0x7b,
{
    lemma_token_heads();
    lemma_account_text_then(account, tail);
}

/// A written list, whatever follows it, reads back as the accounts.
proof fn lemma_take_accounts_reads(accounts: Seq<AccountView>, tail: Seq<u8>)
    ensures
        take_accounts(accounts_text(accounts) + tail) == Some((accounts, tail)),
{
    reveal(take_accounts);
    let s = accounts_text(accounts) + tail;
    if accounts.len() == 0 {
        assert(s.skip(1) =~= tail);
    } else {
        let first = accounts[0];
        let others = accounts.skip(1);
        let rest = more_accounts_text(others) + tail;
        assert(s == account_text(first) + rest) by {
            lemma_concat_assoc(account_text(first), more_accounts_text(others), tail);
        }
        assert(s.len() > 0 && s[0] != CLOSE_LIST) by {
            lemma_account_text_head(first, rest);
        }
        assert(take_account(s) == Some((first, rest))) by {
            lemma_take_account_reads(first, rest);
        }
        assert(take_more_accounts(rest) == Some((others, tail))) by {
            lemma_take_more_accounts_reads(others, tail);
        }
        assert(seq![first] + others =~= accounts);
    }
}

/// The accounts that were read stand at the front of the input as a list.
proof fn lemma_take_accounts_sound(s: Seq<u8>)
    requires
        take_accounts(s) is Some,
    ensures
        ({
            let (accounts, rest) = take_accounts(s)->0;
            s == accounts_text(accounts) + rest
        }),
{
    reveal(take_accounts);
    let (accounts, rest) = take_accounts(s)->0;
    if s.len() > 0 && s[0] == CLOSE_LIST {
        assert(s =~= accounts_text(accounts) + rest);
    } else {
        let (account, s1) = take_account(s)->0;
        let (more, after) = take_more_accounts(s1)->0;
        lemma_take_account_sound(s);
        lemma_take_more_accounts_sound(s1);
        assert(accounts.skip(1) =~= more);
        lemma_concat_assoc(account_text(account), more_accounts_text(more), rest);
    }
}

/// Reads a whole store: nothing may follow it.
#[verifier::opaque]
pub closed spec fn read_store(text: Seq<u8>) -> Option<Seq<AccountView>> {
    match after_token(text, token("{\"accounts\":[")) {
        None => None,
        Some(s1) => match take_accounts(s1) {
            None => None,
            Some((accounts, s2)) => if after_token(s2, token("}")) == Some(Seq::<u8>::empty()) {
                Some(accounts)
            } else {
                None
            },
        },
    }
}

/// The written form of a store reads back as the store.
proof fn lemma_read_store_reads(accounts: Seq<AccountView>)
    ensures
        read_store(store_text(accounts)) == Some(accounts),
{
    reveal(read_store);
    let tail = token("}") + Seq::<u8>::empty();
    assert(tail =~= token("}"));
    lemma_concat_assoc(token("{\"accounts\":["), accounts_text(accounts), token("}"));
    lemma_after_token_reads(token("{\"accounts\":["), accounts_text(accounts) + tail);
    lemma_take_accounts_reads(accounts, tail);
    lemma_after_token_reads(token("}"), Seq::<u8>::empty());
}

/// A text that reads as a store is the written form of that store.
proof fn lemma_read_store_sound(text: Seq<u8>)
    requires
        read_store(text) is Some,
    ensures
        text == store_text(read_store(text)->0),
{
    reveal(read_store);
    let s1 = after_token(text, token("{\"accounts\":["))->0;
    let (accounts, s2) = take_accounts(s1)->0;
    lemma_after_token_sound(text, token("{\"accounts\":["));
    lemma_take_accounts_sound(s1);
    lemma_after_token_sound(s2, token("}"));
    assert(token("}") + Seq::<u8>::empty() =~= token("}"));
    lemma_concat_assoc(token("{\"accounts\":["), accounts_text(accounts), token("}"));
}

/// Two stores with the same written form are the same store.
pub proof fn store_text_is_injective(a: Seq<AccountView>, b: Seq<AccountView>)
    requires
        store_text(a) == store_text(b),
    ensures
        a == b,
{
    lemma_read_store_reads(a);
    lemma_read_store_reads(b);
}

/// Reading the written form of a store gives the store back.
pub proof fn store_of_text_inverts(accounts: Seq<AccountView>)
    ensures
        store_of_text(store_text(accounts)) == Some(accounts),
{
    let found = choose|found: Seq<AccountView>| store_text(found) == store_text(accounts);
    store_text_is_injective(found, accounts);
}

/// Reading a store is the inverse of writing it.
proof fn lemma_read_store_is_store_of_text(text: Seq<u8>)
    ensures
        read_store(text) == store_of_text(text),
{
    if read_store(text) is Some {
        lemma_read_store_sound(text);
        store_of_text_inverts(read_store(text)->0);
    } else {
        if exists|accounts: Seq<AccountView>| store_text(accounts) == text {
            let accounts = choose|accounts: Seq<AccountView>| store_text(accounts) == text;
            lemma_read_store_reads(accounts);
        }
    }
}

/// Reads a whole stored file: nothing may follow it.
#[verifier::opaque]
pub closed spec fn read_encrypted_data(text: Seq<u8>) -> Option<EncryptedDataView> {
    match after_token(text, token("{\"nonce\":")) {
        None => None,
        Some(s1) => match take_text(s1) {
            None => None,
            Some((nonce, s2)) => match after_token(s2, token(",\"salt\":")) {
                None => None,
                Some(s3) => match take_text(s3) {
                    None => None,
                    Some((salt, s4)) => match after_token(s4, token(",\"data\":")) {
                        None => None,
                        Some(s5) => match take_text(s5) {
                            None => None,
                            Some((data, s6)) => if after_token(s6, token("}")) == Some(
                                Seq::<u8>::empty(),
                            ) {
                                Some(EncryptedDataView { nonce, salt, data })
                            } else {
                                None
                            },
                        },
                    },
                },
            },
        },
    }
}

/// The pieces of a written record, grouped from the right.
spec fn encrypted_data_text_then(record: EncryptedDataView) -> Seq<u8> {
    token("{\"nonce\":") + (quoted(record.nonce) + (token(",\"salt\":") + (quoted(record.salt)
        + (token(",\"data\":") + (quoted(record.data) + (token("}") + Seq::<u8>::empty()))))))
}

/// The written form of a record, regrouped from the right.
proof fn lemma_encrypted_data_text_then(record: EncryptedDataView)
    ensures
        encrypted_data_text(record) == encrypted_data_text_then(record),
{
    reveal(encrypted_data_text);
    let t1 = token("{\"nonce\":");
    let q1 = quoted(record.nonce);
    let t2 = token(",\"salt\":");
    let q2 = quoted(record.salt);
    let t3 = token(",\"data\":");
    let q3 = quoted(record.data);
    let t4 = token("}");
    let s6 = t4 + Seq::<u8>::empty();
    let s5 = q3 + s6;
    let s4 = t3 + s5;
    let s3 = q2 + s4;
    let s2 = t2 + s3;
    assert(s6 =~= t4);
    lemma_concat_assoc(t1 + q1 + t2 + q2 + t3, q3, t4);
    lemma_concat_assoc(t1 + q1 + t2 + q2, t3, s5);
    lemma_concat_assoc(t1 + q1 + t2, q2, s4);
    lemma_concat_assoc(t1 + q1, t2, s3);
    lemma_concat_assoc(t1, q1, s2);
}

/// The written form of a record reads back as the record.
proof fn lemma_read_encrypted_data_reads(record: EncryptedDataView)
    ensures
        read_encrypted_data(encrypted_data_text(record)) == Some(record),
{
    reveal(read_encrypted_data);
    let s6 = token("}") + Seq::<u8>::empty();
    let s5 = quoted(record.data) + s6;
    let s4 = token(",\"data\":") + s5;
    let s3 = quoted(record.salt) + s4;
    let s2 = token(",\"salt\":") + s3;
    let s1 = quoted(record.nonce) + s2;
    lemma_encrypted_data_text_then(record);
    lemma_after_token_reads(token("{\"nonce\":"), s1);
    lemma_take_text_reads(record.nonce, s2);
    lemma_after_token_reads(token(",\"salt\":"), s3);
    lemma_take_text_reads(record.salt, s4);
    lemma_after_token_reads(token(",\"data\":"), s5);
    lemma_take_text_reads(record.data, s6);
    lemma_after_token_reads(token("}"), Seq::<u8>::empty());
}

/// A text that reads as a record is the written form of that record.
proof fn lemma_read_encrypted_data_sound(text: Seq<u8>)
    requires
        read_encrypted_data(text) is Some,
    ensures
        text == encrypted_data_text(read_encrypted_data(text)->0),
{
    reveal(read_encrypted_data);
    let s1 = after_token(text, token("{\"nonce\":"))->0;
    let s2 = (take_text(s1)->0).1;
    let s3 = after_token(s2, token(",\"salt\":"))->0;
    let s4 = (take_text(s3)->0).1;
    let s5 = after_token(s4, token(",\"data\":"))->0;
    let s6 = (take_text(s5)->0).1;
    lemma_after_token_sound(text, token("{\"nonce\":"));
    lemma_take_text_sound(s1);
    lemma_after_token_sound(s2, token(",\"salt\":"));
    lemma_take_text_sound(s3);
    lemma_after_token_sound(s4, token(",\"data\":"));
    lemma_take_text_sound(s5);
    lemma_after_token_sound(s6, token("}"));
    lemma_encrypted_data_text_then(read_encrypted_data(text)->0);
}

/// Two records with the same written form are the same record.
pub proof fn encrypted_data_text_is_injective(a: EncryptedDataView, b: EncryptedDataView)
    requires
        encrypted_data_text(a) == encrypted_data_text(b),
    ensures
        a == b,
{
    lemma_read_encrypted_data_reads(a);
    lemma_read_encrypted_data_reads(b);
}

/// Reading the written form of a record gives the record back.
pub proof fn encrypted_data_of_text_inverts(record: EncryptedDataView)
    ensures
        encrypted_data_of_text(encrypted_data_text(record)) == Some(record),
{
    let found = choose|found: EncryptedDataView|
        encrypted_data_text(found) == encrypted_data_text(record);
    encrypted_data_text_is_injective(found, record);
}

/// Reading a record is the inverse of writing it.
proof fn lemma_read_encrypted_data_is_of_text(text: Seq<u8>)
    ensures
        read_encrypted_data(text) == encrypted_data_of_text(text),
{
    if read_encrypted_data(text) is Some {
        lemma_read_encrypted_data_sound(text);
        encrypted_data_of_text_inverts(read_encrypted_data(text)->0);
    } else {
        if exists|record: EncryptedDataView| encrypted_data_text(record) == text {
            let record = choose|record: EncryptedDataView| encrypted_data_text(record) == text;
            lemma_read_encrypted_data_reads(record);
        }
    }
}

// ---------------------------------------------------------------------------
// Writing.
// ---------------------------------------------------------------------------

/// Appends a fixed piece of the format.
fn write_token(out: &mut Vec<u8>, piece: &str)
    ensures
        final(out)@ == old(out)@ + token(piece),
{
    out.extend_from_slice(piece.as_bytes());
}

/// The lowercase hexadecimal digit for `v`.
fn hex_digit_byte(v: u8) -> (digit: u8)
    requires
        v < 16,
    ensures
        digit == hex_digit(v),
{
    if v < 10 {
        0x30 + v
    } else {
        0x57 + v
    }
}

/// Appends one byte of a text as it appears between quotes.
fn write_escaped_byte(out: &mut Vec<u8>, b: u8)
    ensures
        final(out)@ == old(out)@ + escape_byte(b),
{
    if b == QUOTE || b == BACKSLASH {
        out.push(BACKSLASH);
        out.push(b);
    } else if b == 0x08 {
        out.push(BACKSLASH);
        out.push(0x62);
    } else if b == 0x09 {
        out.push(BACKSLASH);
        out.push(0x74);
    } else if b == 0x0a {
        out.push(BACKSLASH);
        out.push(0x6e);
    } else if b == 0x0c {
        out.push(BACKSLASH);
        out.push(0x66);
    } else if b == 0x0d {
        out.push(BACKSLASH);
        out.push(0x72);
    } else if b < 0x20 {
        out.push(BACKSLASH);
        out.push(0x75);
        out.push(0x30);
        out.push(0x30);
        out.push(hex_digit_byte(b / 16));
        out.push(hex_digit_byte(b % 16));
    } else {
        out.push(b);
    }
    assert(out@ =~= old(out)@ + escape_byte(b));
}

/// Appends a text in its written form.
pub fn write_quoted(out: &mut Vec<u8>, text: &str)
    ensures
        final(out)@ == old(out)@ + quoted(text@),
{
    let bytes = text.as_bytes();
    out.push(QUOTE);
    let mut i: usize = 0;
    proof {
        assert(bytes@.skip(0) =~= bytes@);
        assert(out@ =~= old(out)@ + seq![QUOTE]);
    }
    while i < bytes.len()
        invariant
            i <= bytes.len(),
            bytes@ == encode_utf8(text@),
            out@ + escaped(bytes@.skip(i as int)) == old(out)@ + seq![QUOTE] + escaped(bytes@),
        decreases bytes.len() - i,
    {
        let ghost before = out@;
        let ghost left = bytes@.skip(i as int);
        write_escaped_byte(out, bytes[i]);
        proof {
            assert(left.skip(1) =~= bytes@.skip(i + 1));
            assert(escaped(left) == escape_byte(left[0]) + escaped(left.skip(1)));
            lemma_concat_assoc(before, escape_byte(bytes@[i as int]), escaped(bytes@.skip(i + 1)));
        }
        i += 1;
    }
    proof {
        assert(escaped(bytes@.skip(i as int)) =~= Seq::<u8>::empty());
        assert(out@ + Seq::<u8>::empty() =~= out@);
    }
    out.push(QUOTE);
    proof {
        lemma_concat_assoc(old(out)@, seq![QUOTE] + escaped(bytes@), seq![QUOTE]);
        lemma_concat_assoc(old(out)@, seq![QUOTE], escaped(bytes@));
        assert(out@ =~= (old(out)@ + seq![QUOTE] + escaped(bytes@)) + seq![QUOTE]);
    }
}

/// Appends an optional text in its written form.
fn write_optional_text(out: &mut Vec<u8>, text: &Option<String>)
    ensures
        final(out)@ == old(out)@ + optional_text(crate::models::text_of(*text)),
{
    match text {
        Some(t) => write_quoted(out, t.as_str()),
        None => write_token(out, "null"),
    }
}

/// Appends an account in its written form.
pub fn write_account(out: &mut Vec<u8>, account: &Account)
    ensures
        final(out)@ == old(out)@ + account_text(account@),
{
    reveal(account_text);
    let ghost start = out@;
    let ghost t1 = token("{\"id\":");
    let ghost q1 = quoted(account@.id);
    let ghost t2 = token(",\"username_or_email\":");
    let ghost q2 = quoted(account@.username_or_email);
    let ghost t3 = token(",\"description\":");
    let ghost q3 = optional_text(account@.description);
    let ghost t4 = token(",\"password\":");
    let ghost q4 = quoted(account@.password);
    let ghost t5 = token("}");
    write_token(out, "{\"id\":");
    write_quoted(out, account.get_id());
    proof {
        lemma_concat_assoc(start, t1, q1);
    }
    write_token(out, ",\"username_or_email\":");
    proof {
        lemma_concat_assoc(start, t1 + q1, t2);
    }
    write_quoted(out, account.get_username_or_email());
    proof {
        lemma_concat_assoc(start, t1 + q1 + t2, q2);
    }
    write_token(out, ",\"description\":");
    proof {
        lemma_concat_assoc(start, t1 + q1 + t2 + q2, t3);
    }
    write_optional_text(out, account.get_description());
    proof {
        lemma_concat_assoc(start, t1 + q1 + t2 + q2 + t3, q3);
    }
    write_token(out, ",\"password\":");
    proof {
        lemma_concat_assoc(start, t1 + q1 + t2 + q2 + t3 + q3, t4);
    }
    write_quoted(out, account.get_password());
    proof {
        lemma_concat_assoc(start, t1 + q1 + t2 + q2 + t3 + q3 + t4, q4);
    }
    write_token(out, "}");
    proof {
        lemma_concat_assoc(start, t1 + q1 + t2 + q2 + t3 + q3 + t4 + q4, t5);
    }
}

/// The written form of a list of accounts as a store.
pub fn encode_store(accounts: &Vec<Account>) -> (text: Vec<u8>)
    ensures
        text@ == store_text(views_of(accounts@)),
{
    let ghost views = views_of(accounts@);
    let ghost head = token("{\"accounts\":[");
    let mut out: Vec<u8> = Vec::new();
    write_token(&mut out, "{\"accounts\":[");
    assert(out@ =~= head);
    if accounts.len() > 0 {
        write_account(&mut out, &accounts[0]);
        proof {
            lemma_concat_assoc(head, account_text(views[0]), more_accounts_text(views.skip(1)));
        }
        let mut i: usize = 1;
        while i < accounts.len()
            invariant
                1 <= i <= accounts.len(),
                views == views_of(accounts@),
                out@ + more_accounts_text(views.skip(i as int)) == head + accounts_text(views),
            decreases accounts.len() - i,
        {
            let ghost before = out@;
            let ghost left = views.skip(i as int);
            out.push(COMMA);
            write_account(&mut out, &accounts[i]);
            proof {
                assert(left.skip(1) =~= views.skip(i + 1));
                assert(left[0] == accounts@[i as int]@);
                assert(out@ =~= before + (seq![COMMA] + account_text(left[0])));
                lemma_concat_assoc(
                    before,
                    seq![COMMA] + account_text(left[0]),
                    more_accounts_text(left.skip(1)),
                );
            }
            i += 1;
        }
        proof {
            assert(views.skip(i as int).len() == 0);
        }
        out.push(CLOSE_LIST);
        assert(out@ == head + accounts_text(views));
    } else {
        out.push(CLOSE_LIST);
        assert(out@ =~= head + accounts_text(views));
    }
    write_token(&mut out, "}");
    out
}

// ---------------------------------------------------------------------------
// Reading, on bytes: each function reads at a place of the input and returns what
// it read and the place behind it.
// ---------------------------------------------------------------------------

/// Reads a fixed piece of the format.
fn read_token(input: &[u8], pos: usize, piece: &str) -> (next: Option<usize>)
    requires
        pos <= input.len(),
    ensures
        match next {
            Some(n) => pos <= n <= input.len() && after_token(
                input@.skip(pos as int),
                token(piece),
            ) == Some(input@.skip(n as int)),
            None => after_token(input@.skip(pos as int), token(piece)) is None,
        },
{
    reveal(after_token);
    let bytes = piece.as_bytes();
    let ghost s = input@.skip(pos as int);
    if bytes.len() > input.len() - pos {
        return None;
    }
    let mut i: usize = 0;
    while i < bytes.len()
        invariant
            i <= bytes.len(),
            pos + bytes.len() <= input.len(),
            s == input@.skip(pos as int),
            bytes@ == token(piece),
            forall|j: int| 0 <= j < i ==> s[j] == bytes@[j],
        decreases bytes.len() - i,
    {
        if input[pos + i] != bytes[i] {
            proof {
                reveal(after_token);
                assert(s[i as int] != bytes@[i as int]);
                if bytes@.is_prefix_of(s) {
                    assert(s.subrange(0, bytes@.len() as int)[i as int] == bytes@[i as int]);
                }
            }
            return None;
        }
        i += 1;
    }
    proof {
        assert(bytes@ =~= s.subrange(0, bytes@.len() as int));
        assert(s.skip(bytes@.len() as int) =~= input@.skip(pos + bytes@.len()));
    }
    Some(pos + bytes.len())
}

/// The control character that two hexadecimal digits name.
fn control_byte(high: u8, low: u8) -> (b: u8)
    ensures
        b == control_of(high, low),
{
    if high != 0x30 && high != 0x31 {
        return 0x20;
    }
    let h: u8 = high - 0x30;
    if 0x30 <= low && low <= 0x39 {
        16 * h + (low - 0x30)
    } else if 0x61 <= low && low <= 0x66 {
        16 * h + (low - 0x57)
    } else {
        0x20
    }
}

/// Reads one escaped byte.
fn read_escaped_byte(input: &[u8], pos: usize) -> (read: Option<(u8, usize)>)
    requires
        pos < input.len(),
        input@[pos as int] != QUOTE,
    ensures
        match read {
            Some((b, next)) => pos < next <= input.len() && unescape_one(input@.skip(pos as int))
                == Some((b, next - pos)),
            None => unescape_one(input@.skip(pos as int)) is None,
        },
{
    reveal(unescape_one);
    let ghost s = input@.skip(pos as int);
    let first = input[pos];
    assert(s[0] == first);
    if first != BACKSLASH {
        if first < 0x20 {
            return None;
        }
        return Some((first, pos + 1));
    }
    if input.len() - pos < 2 {
        return None;
    }
    let second = input[pos + 1];
    assert(s[1] == second);
    if second == QUOTE {
        Some((QUOTE, pos + 2))
    } else if second == BACKSLASH {
        Some((BACKSLASH, pos + 2))
    } else if second == 0x62 {
        Some((0x08, pos + 2))
    } else if second == 0x74 {
        Some((0x09, pos + 2))
    } else if second == 0x6e {
        Some((0x0a, pos + 2))
    } else if second == 0x66 {
        Some((0x0c, pos + 2))
    } else if second == 0x72 {
        Some((0x0d, pos + 2))
    } else if second == 0x75 && input.len() - pos >= 6 {
        let b = control_byte(input[pos + 4], input[pos + 5]);
        assert(s[2] == input@[pos + 2] && s[3] == input@[pos + 3]);
        assert(s[4] == input@[pos + 4] && s[5] == input@[pos + 5]);
        assert(s.take(6).len() == 6);
        if b < 0x20 && b != 0x08 && b != 0x09 && b != 0x0a && b != 0x0c && b != 0x0d && input[pos
            + 2] == 0x30 && input[pos + 3] == 0x30 && input[pos + 4] == hex_digit_byte(b / 16)
            && input[pos + 5] == hex_digit_byte(b % 16) {
            assert(s.take(6) =~= escape_byte(b));
            Some((b, pos + 6))
        } else {
            proof {
                if b < 0x20 && s.take(6) == escape_byte(b) {
                    assert(s.take(6)[2] == s[2] && s.take(6)[3] == s[3]);
                    assert(s.take(6)[4] == s[4] && s.take(6)[5] == s[5]);
                }
            }
            None
        }
    } else {
        None
    }
}

/// What `more` gives once `bytes` stand before what it read.
spec fn behind(bytes: Seq<u8>, more: Option<(Seq<u8>, Seq<u8>)>) -> Option<(Seq<u8>, Seq<u8>)> {
    match more {
        Some((read, rest)) => Some((bytes + read, rest)),
        None => None,
    }
}

/// Reads a quoted text.
fn read_text(input: &[u8], pos: usize) -> (read: Option<(String, usize)>)
    requires
        pos <= input.len(),
    ensures
        match read {
            Some((text, next)) => pos <= next <= input.len() && take_text(input@.skip(pos as int))
                == Some((text@, input@.skip(next as int))),
            None => take_text(input@.skip(pos as int)) is None,
        },
{
    reveal(take_text);
    reveal(unescaped);
    let ghost s = input@.skip(pos as int);
    if pos >= input.len() || input[pos] != QUOTE {
        return None;
    }
    let mut raw: Vec<u8> = Vec::new();
    let mut i: usize = pos + 1;
    proof {
        assert(s.skip(1) =~= input@.skip(pos + 1));
        assert(raw@ + Seq::<u8>::empty() =~= Seq::<u8>::empty());
        let start = unescaped(input@.skip(i as int));
        if start is Some {
            assert(raw@ + (start->0).0 =~= (start->0).0);
        }
    }
    loop
        invariant
            pos < i <= input.len(),
            s == input@.skip(pos as int),
            s[0] == QUOTE,
            s.skip(1) == input@.skip(pos + 1),
            unescaped(input@.skip(pos + 1)) == behind(raw@, unescaped(input@.skip(i as int))),
        ensures
            i < input.len(),
            unescaped(input@.skip(pos + 1)) == Some((raw@, input@.skip(i + 1))),
        decreases input.len() - i,
    {
        let ghost here = input@.skip(i as int);
        proof {
            reveal(take_text);
            reveal(unescaped);
        }
        if i >= input.len() {
            return None;
        }
        assert(here[0] == input@[i as int]);
        if input[i] == QUOTE {
            proof {
                assert(here.skip(1) =~= input@.skip(i + 1));
                assert(raw@ + Seq::<u8>::empty() =~= raw@);
            }
            break;
        }
        match read_escaped_byte(input, i) {
            None => {
                return None;
            },
            Some((b, next)) => {
                proof {
                    let n = next - i;
                    assert(here.skip(n) =~= input@.skip(next as int));
                    let more = unescaped(input@.skip(next as int));
                    if more is Some {
                        lemma_concat_assoc(raw@, seq![b], (more->0).0);
                    }
                }
                raw.push(b);
                i = next;
            },
        }
    }
    match String::from_utf8(raw) {
        Ok(text) => Some((text, i + 1)),
        Err(_) => None,
    }
}

/// Reads an optional text.
fn read_optional_text(input: &[u8], pos: usize) -> (read: Option<(Option<String>, usize)>)
    requires
        pos <= input.len(),
    ensures
        match read {
            Some((text, next)) => pos <= next <= input.len() && take_optional_text(
                input@.skip(pos as int),
            ) == Some((crate::models::text_of(text), input@.skip(next as int))),
            None => take_optional_text(input@.skip(pos as int)) is None,
        },
{
    reveal(take_optional_text);
    match read_token(input, pos, "null") {
        Some(next) => Some((None, next)),
        None => match read_text(input, pos) {
            Some((text, next)) => Some((Some(text), next)),
            None => None,
        },
    }
}

/// Reads one account.
fn read_account(input: &[u8], pos: usize) -> (read: Option<(Account, usize)>)
    requires
        pos <= input.len(),
    ensures
        match read {
            Some((account, next)) => pos <= next <= input.len() && take_account(
                input@.skip(pos as int),
            ) == Some((account@, input@.skip(next as int))),
            None => take_account(input@.skip(pos as int)) is None,
        },
{
    reveal(take_account);
    let mark1 = match read_token(input, pos, "{\"id\":") {
        Some(next) => next,
        None => {
            return None;
        },
    };
    let (id, mark2) = match read_text(input, mark1) {
        Some(read) => read,
        None => {
            return None;
        },
    };
    let mark3 = match read_token(input, mark2, ",\"username_or_email\":") {
        Some(next) => next,
        None => {
            return None;
        },
    };
    let (username_or_email, mark4) = match read_text(input, mark3) {
        Some(read) => read,
        None => {
            return None;
        },
    };
    let mark5 = match read_token(input, mark4, ",\"description\":") {
        Some(next) => next,
        None => {
            return None;
        },
    };
    let (description, mark6) = match read_optional_text(input, mark5) {
        Some(read) => read,
        None => {
            return None;
        },
    };
    let mark7 = match read_token(input, mark6, ",\"password\":") {
        Some(next) => next,
        None => {
            return None;
        },
    };
    let (password, mark8) = match read_text(input, mark7) {
        Some(read) => read,
        None => {
            return None;
        },
    };
    let mark9 = match read_token(input, mark8, "}") {
        Some(next) => next,
        None => {
            return None;
        },
    };
    Some((Account::with_id(id, username_or_email, description, password), mark9))
}

/// What `more` gives once `accounts` stand before what it read.
spec fn behind_accounts(
    accounts: Seq<AccountView>,
    more: Option<(Seq<AccountView>, Seq<u8>)>,
) -> Option<(Seq<AccountView>, Seq<u8>)> {
    match more {
        Some((read, rest)) => Some((accounts + read, rest)),
        None => None,
    }
}

/// The views of a vector with one more account.
proof fn lemma_views_of_push(accounts: Seq<Account>, account: Account)
    ensures
        views_of(accounts.push(account)) == views_of(accounts).push(account@),
{
    assert(views_of(accounts.push(account)) =~= views_of(accounts).push(account@));
}

/// Reads a list of accounts, from behind its opening bracket to its end.
fn read_accounts(input: &[u8], pos: usize) -> (read: Option<(Vec<Account>, usize)>)
    requires
        pos <= input.len(),
    ensures
        match read {
            Some((accounts, next)) => pos <= next <= input.len() && take_accounts(
                input@.skip(pos as int),
            ) == Some((views_of(accounts@), input@.skip(next as int))),
            None => take_accounts(input@.skip(pos as int)) is None,
        },
{
    reveal(take_accounts);
    reveal(take_more_accounts);
    let ghost s = input@.skip(pos as int);
    let mut accounts: Vec<Account> = Vec::new();
    if pos < input.len() && input[pos] == CLOSE_LIST {
        proof {
            assert(s[0] == input@[pos as int]);
            assert(s.skip(1) =~= input@.skip(pos + 1));
            assert(views_of(accounts@) =~= Seq::<AccountView>::empty());
        }
        return Some((accounts, pos + 1));
    }
    assert(!(s.len() > 0 && s[0] == CLOSE_LIST)) by {
        if s.len() > 0 {
            assert(s[0] == input@[pos as int]);
        }
    }
    let (first, after_first) = match read_account(input, pos) {
        Some(read) => read,
        None => {
            return None;
        },
    };
    let mut i: usize = after_first;
    proof {
        lemma_views_of_push(accounts@, first);
        assert(views_of(accounts@.push(first)) =~= seq![first@]);
        let more = take_more_accounts(input@.skip(i as int));
        if more is Some {
            assert(seq![first@] + (more->0).0 =~= views_of(accounts@.push(first)) + (more->0).0);
        }
    }
    accounts.push(first);
    loop
        invariant
            pos <= i <= input.len(),
            s == input@.skip(pos as int),
            take_accounts(s) == behind_accounts(
                views_of(accounts@),
                take_more_accounts(input@.skip(i as int)),
            ),
        ensures
            i < input.len(),
            take_accounts(s) == Some((views_of(accounts@), input@.skip(i + 1))),
        decreases input.len() - i,
    {
        let ghost here = input@.skip(i as int);
        proof {
            reveal(take_more_accounts);
        }
        if i >= input.len() {
            return None;
        }
        assert(here[0] == input@[i as int]);
        if input[i] == CLOSE_LIST {
            proof {
                assert(here.skip(1) =~= input@.skip(i + 1));
                assert(views_of(accounts@) + Seq::<AccountView>::empty() =~= views_of(accounts@));
            }
            break;
        }
        if input[i] != COMMA {
            return None;
        }
        assert(here.skip(1) =~= input@.skip(i + 1));
        match read_account(input, i + 1) {
            None => {
                return None;
            },
            Some((account, next)) => {
                proof {
                    lemma_views_of_push(accounts@, account);
                    let more = take_more_accounts(input@.skip(next as int));
                    if more is Some {
                        assert(views_of(accounts@) + (seq![account@] + (more->0).0) =~= views_of(
                            accounts@,
                        ).push(account@) + (more->0).0);
                    }
                }
                accounts.push(account);
                i = next;
            },
        }
    }
    Some((accounts, i + 1))
}

/// Reads a store from its written form: the accounts, where `text` is the written
/// form of a store, and `None` where it is that of none.
pub fn decode_store(text: &[u8]) -> (accounts: Option<Vec<Account>>)
    ensures
        match accounts {
            Some(read) => store_of_text(text@) == Some(views_of(read@)),
            None => store_of_text(text@) is None,
        },
{
    reveal(read_store);
    proof {
        lemma_read_store_is_store_of_text(text@);
        assert(text@.skip(0) =~= text@);
    }
    let mark1 = match read_token(text, 0, "{\"accounts\":[") {
        Some(next) => next,
        None => {
            return None;
        },
    };
    let (accounts, mark2) = match read_accounts(text, mark1) {
        Some(read) => read,
        None => {
            return None;
        },
    };
    match read_token(text, mark2, "}") {
        Some(end) => {
            if end == text.len() {
                assert(text@.skip(end as int) =~= Seq::<u8>::empty());
                Some(accounts)
            } else {
                assert(text@.skip(end as int).len() > 0);
                None
            }
        },
        None => None,
    }
}

/// What a stored file holds: the nonce and the ciphertext in base64, and the salt.
#[derive(Debug, PartialEq, Eq)]
pub struct EncryptedData {
    pub nonce: String,
    pub salt: String,
    pub data: String,
}

impl View for EncryptedData {
    type V = EncryptedDataView;

    open spec fn view(&self) -> EncryptedDataView {
        EncryptedDataView { nonce: self.nonce@, salt: self.salt@, data: self.data@ }
    }
}

impl EncryptedData {
    /// The record as it is written to a file.
    pub fn to_text(&self) -> (text: Vec<u8>)
        ensures
            text@ == encrypted_data_text(self@),
    {
        reveal(encrypted_data_text);
        let ghost t1 = token("{\"nonce\":");
        let ghost q1 = quoted(self.nonce@);
        let ghost t2 = token(",\"salt\":");
        let ghost q2 = quoted(self.salt@);
        let ghost t3 = token(",\"data\":");
        let ghost q3 = quoted(self.data@);
        let mut out: Vec<u8> = Vec::new();
        write_token(&mut out, "{\"nonce\":");
        assert(out@ =~= t1);
        write_quoted(&mut out, self.nonce.as_str());
        write_token(&mut out, ",\"salt\":");
        write_quoted(&mut out, self.salt.as_str());
        write_token(&mut out, ",\"data\":");
        write_quoted(&mut out, self.data.as_str());
        write_token(&mut out, "}");
        out
    }

    /// Reads a record from the text of a file: `None` where the text is the written
    /// form of no record.
    pub fn from_text(text: &[u8]) -> (record: Option<Self>)
        ensures
            match record {
                Some(read) => encrypted_data_of_text(text@) == Some(read@),
                None => encrypted_data_of_text(text@) is None,
            },
    {
        reveal(read_encrypted_data);
        proof {
            lemma_read_encrypted_data_is_of_text(text@);
            assert(text@.skip(0) =~= text@);
        }
        let mark1 = match read_token(text, 0, "{\"nonce\":") {
            Some(next) => next,
            None => {
                return None;
            },
        };
        let (nonce, mark2) = match read_text(text, mark1) {
            Some(read) => read,
            None => {
                return None;
            },
        };
        let mark3 = match read_token(text, mark2, ",\"salt\":") {
            Some(next) => next,
            None => {
                return None;
            },
        };
        let (salt, mark4) = match read_text(text, mark3) {
            Some(read) => read,
            None => {
                return None;
            },
        };
        let mark5 = match read_token(text, mark4, ",\"data\":") {
            Some(next) => next,
            None => {
                return None;
            },
        };
        let (data, mark6) = match read_text(text, mark5) {
            Some(read) => read,
            None => {
                return None;
            },
        };
        match read_token(text, mark6, "}") {
            Some(end) => {
                if end == text.len() {
                    assert(text@.skip(end as int) =~= Seq::<u8>::empty());
                    Some(EncryptedData { nonce, salt, data })
                } else {
                    assert(text@.skip(end as int).len() > 0);
                    None
                }
            },
            None => None,
        }
    }
}

} // verus!
