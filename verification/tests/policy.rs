use fp_vault::password::alphabet_char;
use fp_vault::password::generate_random_password;
use fp_vault::password::is_password_valid;
use fp_vault::password::lowercase_char;
use fp_vault::password::number_char;
use fp_vault::password::special_char;
use fp_vault::password::uppercase_char;

const SPECIAL: &str = "!@#$%^&*()-_=+[]{}|;:,.<>?/";

#[test]
fn generated_passwords_are_valid() {
    for _ in 0..1000 {
        let password = generate_random_password();
        assert!(is_password_valid(&password), "{}", password);
        assert_eq!(password.chars().count(), 20);
        assert!(password.chars().all(|c| c.is_ascii_alphanumeric() || SPECIAL.contains(c)));
    }
}

#[test]
fn generated_passwords_are_shuffled() {
    let mut special_first = 0;
    let mut digit_fourth = 0;
    for _ in 0..300 {
        let password = generate_random_password();
        let chars: Vec<char> = password.chars().collect();
        if SPECIAL.contains(chars[0]) {
            special_first += 1;
        }
        if chars[3].is_ascii_digit() {
            digit_fourth += 1;
        }
    }
    assert!(special_first < 300);
    assert!(digit_fourth < 300);
}

#[test]
fn generated_passwords_differ() {
    assert_ne!(generate_random_password(), generate_random_password());
}

#[test]
fn rejects_fourteen_characters_with_every_class() {
    assert!(!is_password_valid("Abcdefgh1234!?"));
    assert!(is_password_valid("Abcdefgh1234!?x"));
}

#[test]
fn rejects_twenty_characters_without_a_special_one() {
    assert!(!is_password_valid("Abcdefghij1234567890"));
    assert!(is_password_valid("Abcdefghij123456789/"));
}

#[test]
fn rejects_a_missing_class() {
    assert!(!is_password_valid("abcdefghij12345!@#$%"));
    assert!(!is_password_valid("ABCDEFGHIJ12345!@#$%"));
    assert!(!is_password_valid("ABCDEFGHIJabcde!@#$%"));
    assert!(!is_password_valid(""));
}

#[test]
fn accepts_the_example_passphrase() {
    assert!(is_password_valid("Tr0ub4dor&3xtra!!"));
    assert!(!is_password_valid("wrong-passphrase"));
}

#[test]
fn every_special_character_counts() {
    for c in SPECIAL.chars() {
        let password = format!("Abcdefghij1234{}", c);
        assert!(is_password_valid(&password), "{}", password);
    }
    assert!(!is_password_valid("Abcdefghij1234~"));
    assert!(!is_password_valid("Abcdefghij1234 "));
    assert!(!is_password_valid("Abcdefghij1234\""));
}

#[test]
fn length_is_counted_in_characters() {
    // 14 characters, 15 bytes.
    assert!(!is_password_valid("Abcdefgh1234!\u{e9}"));
    // 11 characters, 18 bytes.
    assert!(!is_password_valid("Aa1!\u{e9}\u{e9}\u{e9}\u{e9}\u{e9}\u{e9}\u{e9}"));
    // 15 characters, 26 bytes.
    assert!(is_password_valid(
        "Aa1!\u{e9}\u{e9}\u{e9}\u{e9}\u{e9}\u{e9}\u{e9}\u{e9}\u{e9}\u{e9}\u{e9}"
    ));
    // 13 characters, no class missing.
    assert!(!is_password_valid("Abcdefg1234!?"));
}

#[test]
fn letters_outside_ascii_are_no_class() {
    assert!(!is_password_valid("\u{e9}\u{e9}\u{e9}\u{e9}\u{e9}\u{e9}\u{e9}\u{e9}A1!ÀÀÀÀ"));
}

#[test]
fn alphabet_is_special_lower_upper_digits() {
    let all: String = (0..89).map(alphabet_char).collect();
    assert_eq!(
        all,
        "!@#$%^&*()-_=+[]{}|;:,.<>?/abcdefghijklmnopqrstuvwxyzABCDEFGHIJKLMNOPQRSTUVWXYZ0123456789"
    );
    assert_eq!(special_char(0), '!');
    assert_eq!(special_char(26), '/');
    assert_eq!(lowercase_char(25), 'z');
    assert_eq!(uppercase_char(0), 'A');
    assert_eq!(number_char(9), '9');
}
