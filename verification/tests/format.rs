use fp_vault::codec::decode_store;
use fp_vault::codec::encode_store;
use fp_vault::codec::write_account;
use fp_vault::codec::write_quoted;
use fp_vault::codec::EncryptedData;
use fp_vault::models::Account;
use rand::Rng;

fn account(id: &str, user: &str, description: Option<&str>, password: &str) -> Account {
    Account::with_id(
        id.to_string(),
        user.to_string(),
        description.map(|d| d.to_string()),
        password.to_string(),
    )
}

fn quoted(text: &str) -> String {
    let mut out = Vec::new();
    write_quoted(&mut out, text);
    String::from_utf8(out).unwrap()
}

#[test]
fn empty_store_is_written_as_an_empty_list() {
    assert_eq!(encode_store(&Vec::new()), b"{\"accounts\":[]}".to_vec());
    assert_eq!(decode_store(b"{\"accounts\":[]}"), Some(Vec::new()));
}

#[test]
fn store_is_written_field_by_field() {
    let accounts = vec![
        account("0a1b2c3d", "alice", Some("mail"), "pw1"),
        account("ffffffff", "bob", None, "pw2"),
    ];
    let expected = "{\"accounts\":[\
        {\"id\":\"0a1b2c3d\",\"username_or_email\":\"alice\",\"description\":\"mail\",\"password\":\"pw1\"},\
        {\"id\":\"ffffffff\",\"username_or_email\":\"bob\",\"description\":null,\"password\":\"pw2\"}]}";
    assert_eq!(String::from_utf8(encode_store(&accounts)).unwrap(), expected);
    assert_eq!(decode_store(expected.as_bytes()), Some(accounts));
}

#[test]
fn one_account_is_written_without_a_comma() {
    let mut out = b"x".to_vec();
    write_account(&mut out, &account("00000001", "u", None, "p"));
    assert_eq!(
        String::from_utf8(out).unwrap(),
        "x{\"id\":\"00000001\",\"username_or_email\":\"u\",\"description\":null,\"password\":\"p\"}"
    );
}

#[test]
fn quoting_escapes_what_must_be_escaped() {
    assert_eq!(quoted(""), "\"\"");
    assert_eq!(quoted("plain"), "\"plain\"");
    assert_eq!(quoted("a\"b"), "\"a\\\"b\"");
    assert_eq!(quoted("a\\b"), "\"a\\\\b\"");
    assert_eq!(quoted("\u{8}\t\n\u{c}\r"), "\"\\b\\t\\n\\f\\r\"");
    assert_eq!(quoted("\u{0}\u{1}\u{b}\u{1f}"), "\"\\u0000\\u0001\\u000b\\u001f\"");
    assert_eq!(quoted("\u{7f} /"), "\"\u{7f} /\"");
    assert_eq!(quoted("\u{e9}\u{20ac}\u{1f511}"), "\"\u{e9}\u{20ac}\u{1f511}\"");
}

#[test]
fn quoting_agrees_with_serde_json() {
    let mut every = String::new();
    for code in 0u32..0x250 {
        every.push(char::from_u32(code).unwrap());
    }
    every.push('\u{20ac}');
    every.push('\u{1f511}');
    let samples = [every.as_str(), "", "null", "\\u0041", "\"\"", "a\\", "tab\there"];
    for sample in samples {
        let expected = serde_json::to_string(&serde_json::Value::String(sample.to_string())).unwrap();
        assert_eq!(quoted(sample), expected);
    }
}

#[test]
fn written_store_is_json_with_the_same_values() {
    let accounts = vec![
        account("0a1b2c3d", "al\"ice\\", Some("line\nbreak\u{1}"), "p\u{e9}\u{1f511}"),
        account("ffffffff", "", None, "\u{7f}"),
    ];
    let text = encode_store(&accounts);
    let value: serde_json::Value = serde_json::from_slice(&text).unwrap();
    let list = value.get("accounts").unwrap().as_array().unwrap();
    assert_eq!(list.len(), 2);
    assert_eq!(list[0].get("id").unwrap().as_str(), Some("0a1b2c3d"));
    assert_eq!(list[0].get("username_or_email").unwrap().as_str(), Some("al\"ice\\"));
    assert_eq!(list[0].get("description").unwrap().as_str(), Some("line\nbreak\u{1}"));
    assert_eq!(list[0].get("password").unwrap().as_str(), Some("p\u{e9}\u{1f511}"));
    assert_eq!(list[1].get("username_or_email").unwrap().as_str(), Some(""));
    assert!(list[1].get("description").unwrap().is_null());
    assert_eq!(list[1].get("password").unwrap().as_str(), Some("\u{7f}"));
    assert_eq!(list[0].as_object().unwrap().len(), 4);
}

#[test]
fn reading_inverts_writing() {
    let accounts = vec![
        account("", "", Some(""), ""),
        account("\"", "\\", Some("null"), "\u{0}\u{1f}\u{8}\u{c}"),
        account("]},{", ",\"id\":", None, "\\u0041\\n"),
        account("\u{e9}", "\u{20ac}", Some("\u{1f511}"), "\u{10ffff}"),
    ];
    assert_eq!(decode_store(&encode_store(&accounts)), Some(accounts));
}

fn random_text(rng: &mut rand::rngs::ThreadRng) -> String {
    let length = rng.gen_range(0..12);
    let mut text = String::new();
    for _ in 0..length {
        let c = match rng.gen_range(0..6) {
            0 => char::from_u32(rng.gen_range(0..0x20)).unwrap(),
            1 => '"',
            2 => '\\',
            3 => char::from_u32(rng.gen_range(0x20..0x7f)).unwrap(),
            4 => char::from_u32(rng.gen_range(0x80..0xd800)).unwrap(),
            _ => char::from_u32(rng.gen_range(0xe000..0x110000)).unwrap(),
        };
        text.push(c);
    }
    text
}

#[test]
fn reading_inverts_writing_on_random_stores() {
    let mut rng = rand::thread_rng();
    for _ in 0..300 {
        let count = rng.gen_range(0..5);
        let mut accounts = Vec::new();
        for _ in 0..count {
            let description =
                if rng.gen_range(0..2) == 0 { None } else { Some(random_text(&mut rng)) };
            accounts.push(Account::with_id(
                random_text(&mut rng),
                random_text(&mut rng),
                description,
                random_text(&mut rng),
            ));
        }
        let text = encode_store(&accounts);
        let value: serde_json::Value = serde_json::from_slice(&text).unwrap();
        let list = value.get("accounts").unwrap().as_array().unwrap();
        assert_eq!(list.len(), accounts.len());
        for (written, account) in list.iter().zip(accounts.iter()) {
            assert_eq!(written.get("id").unwrap().as_str(), Some(account.get_id()));
            assert_eq!(
                written.get("password").unwrap().as_str(),
                Some(account.get_password())
            );
            assert_eq!(
                written.get("description").unwrap().as_str(),
                account.get_description().as_deref()
            );
        }
        assert_eq!(decode_store(&text), Some(accounts));
    }
}

#[test]
fn reading_refuses_what_writing_never_gives() {
    let good = "{\"accounts\":[{\"id\":\"1\",\"username_or_email\":\"u\",\"description\":null,\"password\":\"p\"}]}";
    assert!(decode_store(good.as_bytes()).is_some());
    let bad = [
        "",
        "{}",
        "{\"accounts\":[]",
        "{\"accounts\":[]} ",
        " {\"accounts\":[]}",
        "{\"accounts\":[]}\n",
        "{\"accounts\": []}",
        "{\"accounts\":[,]}",
        "{\"accounts\":[{\"id\":\"1\",\"username_or_email\":\"u\",\"description\":null,\"password\":\"p\"},]}",
        "{\"accounts\":[{\"id\":\"1\",\"username_or_email\":\"u\",\"password\":\"p\"}]}",
        "{\"accounts\":[{\"username_or_email\":\"u\",\"id\":\"1\",\"description\":null,\"password\":\"p\"}]}",
        "{\"accounts\":[{\"id\":\"1\",\"username_or_email\":\"u\",\"description\":nul,\"password\":\"p\"}]}",
        "{\"accounts\":[{\"id\":1,\"username_or_email\":\"u\",\"description\":null,\"password\":\"p\"}]}",
        "{\"accounts\":[{\"id\":\"1\",\"username_or_email\":\"u\",\"description\":null,\"password\":\"p}]}",
        "{\"accounts\":[{\"id\":\"\\u0041\",\"username_or_email\":\"u\",\"description\":null,\"password\":\"p\"}]}",
        "{\"accounts\":[{\"id\":\"\\u000A\",\"username_or_email\":\"u\",\"description\":null,\"password\":\"p\"}]}",
        "{\"accounts\":[{\"id\":\"\\u000a\",\"username_or_email\":\"u\",\"description\":null,\"password\":\"p\"}]}",
        "{\"accounts\":[{\"id\":\"\\/\",\"username_or_email\":\"u\",\"description\":null,\"password\":\"p\"}]}",
        "{\"accounts\":[{\"id\":\"\\x\",\"username_or_email\":\"u\",\"description\":null,\"password\":\"p\"}]}",
        "{\"accounts\":[{\"id\":\"a\tb\",\"username_or_email\":\"u\",\"description\":null,\"password\":\"p\"}]}",
    ];
    for text in bad {
        assert_eq!(decode_store(text.as_bytes()), None, "{}", text);
    }
    let mut invalid_utf8 = b"{\"accounts\":[{\"id\":\"".to_vec();
    invalid_utf8.extend_from_slice(&[0xc3, 0x28]);
    invalid_utf8.extend_from_slice(
        b"\",\"username_or_email\":\"u\",\"description\":null,\"password\":\"p\"}]}",
    );
    assert_eq!(decode_store(&invalid_utf8), None);
}

#[test]
fn reading_accepts_the_escapes_that_writing_gives() {
    let text = "{\"accounts\":[{\"id\":\"\\u000b\\n\\\"\",\"username_or_email\":\"\\\\\",\"description\":\"\\u001f\",\"password\":\"\\b\\f\\r\\t\"}]}";
    let read = decode_store(text.as_bytes()).unwrap();
    assert_eq!(read, vec![account("\u{b}\n\"", "\\", Some("\u{1f}"), "\u{8}\u{c}\r\t")]);
}

#[test]
fn record_is_written_nonce_salt_data() {
    let record = EncryptedData {
        nonce: "AQIDBAUGBwgJCgsM".to_string(),
        salt: "c29tZXNhbHQ".to_string(),
        data: "3q2+7w==".to_string(),
    };
    let text = record.to_text();
    assert_eq!(
        String::from_utf8(text.clone()).unwrap(),
        "{\"nonce\":\"AQIDBAUGBwgJCgsM\",\"salt\":\"c29tZXNhbHQ\",\"data\":\"3q2+7w==\"}"
    );
    assert_eq!(EncryptedData::from_text(&text), Some(record));
}

#[test]
fn record_reading_refuses_other_texts() {
    let bad = [
        "",
        "{}",
        "{\"nonce\":\"a\",\"salt\":\"b\"}",
        "{\"salt\":\"b\",\"nonce\":\"a\",\"data\":\"c\"}",
        "{\"nonce\":\"a\",\"salt\":\"b\",\"data\":\"c\"} ",
        "{\"nonce\":\"a\",\"salt\":\"b\",\"data\":\"c\"}}",
        "{\"nonce\":\"a\", \"salt\":\"b\",\"data\":\"c\"}",
        "{\"nonce\":null,\"salt\":\"b\",\"data\":\"c\"}",
    ];
    for text in bad {
        assert_eq!(EncryptedData::from_text(text.as_bytes()), None, "{}", text);
    }
    assert!(EncryptedData::from_text(b"{\"nonce\":\"\",\"salt\":\"\",\"data\":\"\"}").is_some());
}
