//! The password rule and a generator of passwords that meet it.
use vstd::prelude::*;
use vstd::string::StrSliceExecFns;
use crate::primitives::random_below;
use crate::primitives::shuffle_chars;

verus! {

/// The shortest password that is accepted, in characters.
pub const MIN_PASSWORD_LENGTH: usize = 15;

pub open spec fn is_lowercase(c: char) -> bool {
    'a' <= c && c <= 'z'
}

pub open spec fn is_uppercase(c: char) -> bool {
    'A' <= c && c <= 'Z'
}

pub open spec fn is_number(c: char) -> bool {
    '0' <= c && c <= '9'
}

/// The special characters: ``!@#$%^&*()-_=+[]{}|;:,.<>?/``.
pub open spec fn is_special(c: char) -> bool {
    ||| c == '!'
    ||| c == '@'
    ||| c == '#'
    ||| c == '$'
    ||| c == '%'
    ||| c == '^'
    ||| c == '&'
    ||| c == '*'
    ||| c == '('
    ||| c == ')'
    ||| c == '-'
    ||| c == '_'
    ||| c == '='
    ||| c == '+'
    ||| c == '['
    ||| c == ']'
    ||| c == '{'
    ||| c == '}'
    ||| c == '|'
    ||| c == ';'
    ||| c == ':'
    ||| c == ','
    ||| c == '.'
    ||| c == '<'
    ||| c == '>'
    ||| c == '?'
    ||| c == '/'
}

/// Some character of `text` is a lowercase letter.
pub open spec fn has_lowercase(text: Seq<char>) -> bool {
    exists|i: int| 0 <= i < text.len() && is_lowercase(#[trigger] text[i])
}

/// Some character of `text` is an uppercase letter.
pub open spec fn has_uppercase(text: Seq<char>) -> bool {
    exists|i: int| 0 <= i < text.len() && is_uppercase(#[trigger] text[i])
}

/// Some character of `text` is a digit.
pub open spec fn has_number(text: Seq<char>) -> bool {
    exists|i: int| 0 <= i < text.len() && is_number(#[trigger] text[i])
}

/// Some character of `text` is a special character.
pub open spec fn has_special(text: Seq<char>) -> bool {
    exists|i: int| 0 <= i < text.len() && is_special(#[trigger] text[i])
}

/// The password rule: at least 15 characters, and a lowercase letter, an uppercase
/// letter, a digit and a special character among them.
pub open spec fn password_valid(text: Seq<char>) -> bool {
    &&& text.len() >= MIN_PASSWORD_LENGTH
    &&& has_lowercase(text)
    &&& has_uppercase(text)
    &&& has_number(text)
    &&& has_special(text)
}

proof fn lemma_classes_step(text: Seq<char>, k: int)
    requires
        0 <= k < text.len(),
    ensures
        has_lowercase(text.take(k + 1)) == (has_lowercase(text.take(k)) || is_lowercase(text[k])),
        has_uppercase(text.take(k + 1)) == (has_uppercase(text.take(k)) || is_uppercase(text[k])),
        has_number(text.take(k + 1)) == (has_number(text.take(k)) || is_number(text[k])),
        has_special(text.take(k + 1)) == (has_special(text.take(k)) || is_special(text[k])),
{
    let before = text.take(k);
    let after = text.take(k + 1);
    assert(after[k] == text[k]);
    assert forall|i: int| 0 <= i < k implies #[trigger] after[i] == before[i] by {}
    if has_lowercase(before) {
        let i = choose|i: int| 0 <= i < before.len() && is_lowercase(#[trigger] before[i]);
        assert(is_lowercase(after[i]));
    }
    if has_uppercase(before) {
        let i = choose|i: int| 0 <= i < before.len() && is_uppercase(#[trigger] before[i]);
        assert(is_uppercase(after[i]));
    }
    if has_number(before) {
        let i = choose|i: int| 0 <= i < before.len() && is_number(#[trigger] before[i]);
        assert(is_number(after[i]));
    }
    if has_special(before) {
        let i = choose|i: int| 0 <= i < before.len() && is_special(#[trigger] before[i]);
        assert(is_special(after[i]));
    }
    if has_lowercase(after) {
        let i = choose|i: int| 0 <= i < after.len() && is_lowercase(#[trigger] after[i]);
        if i < k {
            assert(is_lowercase(before[i]));
        }
    }
    if has_uppercase(after) {
        let i = choose|i: int| 0 <= i < after.len() && is_uppercase(#[trigger] after[i]);
        if i < k {
            assert(is_uppercase(before[i]));
        }
    }
    if has_number(after) {
        let i = choose|i: int| 0 <= i < after.len() && is_number(#[trigger] after[i]);
        if i < k {
            assert(is_number(before[i]));
        }
    }
    if has_special(after) {
        let i = choose|i: int| 0 <= i < after.len() && is_special(#[trigger] after[i]);
        if i < k {
            assert(is_special(before[i]));
        }
    }
}

fn special(c: char) -> (yes: bool)
    ensures
        yes == is_special(c),
{
    c == '!' || c == '@' || c == '#' || c == '$' || c == '%' || c == '^' || c == '&' || c == '*'
        || c == '(' || c == ')' || c == '-' || c == '_' || c == '=' || c == '+' || c == '['
        || c == ']' || c == '{' || c == '}' || c == '|' || c == ';' || c == ':' || c == ','
        || c == '.' || c == '<' || c == '>' || c == '?' || c == '/'
}

/// Whether a password meets the password rule.
pub fn is_password_valid(password: &str) -> (valid: bool)
    ensures
        valid == password_valid(password@),
{
    if password.unicode_len() < MIN_PASSWORD_LENGTH {
        return false;
    }
    let mut lower = false;
    let mut upper = false;
    let mut number = false;
    let mut other = false;
    for c in it: password.chars()
        invariant
            it.seq() == password@,
            lower == has_lowercase(password@.take(it.index() as int)),
            upper == has_uppercase(password@.take(it.index() as int)),
            number == has_number(password@.take(it.index() as int)),
            other == has_special(password@.take(it.index() as int)),
    {
        proof {
            lemma_classes_step(password@, it.index() as int);
        }
        if 'a' <= c && c <= 'z' {
            lower = true;
        }
        if 'A' <= c && c <= 'Z' {
            upper = true;
        }
        if '0' <= c && c <= '9' {
            number = true;
        }
        if special(c) {
            other = true;
        }
    }
    assert(password@.take(password@.len() as int) =~= password@);
    lower && upper && number && other
}

/// A character from which passwords are generated: a letter, a digit or a special
/// character.
pub open spec fn in_alphabet(c: char) -> bool {
    is_special(c) || is_lowercase(c) || is_uppercase(c) || is_number(c)
}

/// The length of a generated password, in characters.
pub const GENERATED_LENGTH: usize = 20;

/// The `i`-th of the 89 characters from which passwords are generated: the special
/// characters, then the lowercase letters, the uppercase letters and the digits.
pub open spec fn alphabet_at(i: int) -> char {
    if i < 27 {
        "!@#$%^&*()-_=+[]{}|;:,.<>?/"@[i]
    } else if i < 53 {
        "abcdefghijklmnopqrstuvwxyz"@[i - 27]
    } else if i < 79 {
        "ABCDEFGHIJKLMNOPQRSTUVWXYZ"@[i - 53]
    } else {
        "0123456789"@[i - 79]
    }
}

/// The `i`-th special character.
pub fn special_char(i: u32) -> (c: char)
    requires
        i < 27,
    ensures
        c == alphabet_at(i as int),
        is_special(c),
{
    proof {
        reveal_strlit("!@#$%^&*()-_=+[]{}|;:,.<>?/");
    }
    "!@#$%^&*()-_=+[]{}|;:,.<>?/".get_char(i as usize)
}

/// The `i`-th lowercase letter.
pub fn lowercase_char(i: u32) -> (c: char)
    requires
        i < 26,
    ensures
        c == alphabet_at(27 + i),
        is_lowercase(c),
{
    proof {
        reveal_strlit("abcdefghijklmnopqrstuvwxyz");
    }
    "abcdefghijklmnopqrstuvwxyz".get_char(i as usize)
}

/// The `i`-th uppercase letter.
pub fn uppercase_char(i: u32) -> (c: char)
    requires
        i < 26,
    ensures
        c == alphabet_at(53 + i),
        is_uppercase(c),
{
    proof {
        reveal_strlit("ABCDEFGHIJKLMNOPQRSTUVWXYZ");
    }
    "ABCDEFGHIJKLMNOPQRSTUVWXYZ".get_char(i as usize)
}

/// The `i`-th digit.
pub fn number_char(i: u32) -> (c: char)
    requires
        i < 10,
    ensures
        c == alphabet_at(79 + i),
        is_number(c),
{
    proof {
        reveal_strlit("0123456789");
    }
    "0123456789".get_char(i as usize)
}

/// The `i`-th character of the alphabet.
pub fn alphabet_char(i: u32) -> (c: char)
    requires
        i < 89,
    ensures
        c == alphabet_at(i as int),
        in_alphabet(c),
{
    if i < 27 {
        special_char(i)
    } else if i < 53 {
        lowercase_char(i - 27)
    } else if i < 79 {
        uppercase_char(i - 53)
    } else {
        number_char(i - 79)
    }
}

/// A text of 20 characters of the alphabet with a character of each class is a
/// valid password.
pub proof fn lemma_generated_is_valid(text: Seq<char>)
    requires
        text.len() == GENERATED_LENGTH,
        forall|i: int| 0 <= i < text.len() ==> in_alphabet(#[trigger] text[i]),
        has_lowercase(text),
        has_uppercase(text),
        has_number(text),
        has_special(text),
    ensures
        password_valid(text),
{
}

proof fn lemma_same_members(a: Seq<char>, b: Seq<char>, x: char)
    requires
        a.to_multiset() == b.to_multiset(),
        a.contains(x),
    ensures
        b.contains(x),
        a.len() == b.len(),
{
    a.to_multiset_ensures();
    b.to_multiset_ensures();
    assert(a.to_multiset().count(x) > 0);
    assert(b.to_multiset().count(x) > 0);
}

/// A random password of 20 characters: one character of each class and 16 more of
/// the alphabet, in a random order. It meets the password rule.
pub fn generate_random_password() -> (password: String)
    ensures
        password_valid(password@),
        password@.len() == GENERATED_LENGTH,
        forall|i: int| 0 <= i < password@.len() ==> in_alphabet(#[trigger] password@[i]),
{
    let mut chars: Vec<char> = Vec::new();
    chars.push(special_char(random_below(27)));
    chars.push(lowercase_char(random_below(26)));
    chars.push(uppercase_char(random_below(26)));
    chars.push(number_char(random_below(10)));
    let mut n: usize = 0;
    while n < 16
        invariant
            n <= 16,
            chars@.len() == 4 + n,
            is_special(chars@[0]),
            is_lowercase(chars@[1]),
            is_uppercase(chars@[2]),
            is_number(chars@[3]),
            forall|i: int| 0 <= i < chars@.len() ==> in_alphabet(#[trigger] chars@[i]),
        decreases 16 - n,
    {
        chars.push(alphabet_char(random_below(89)));
        n += 1;
    }
    let ghost drawn = chars@;
    shuffle_chars(&mut chars);
    proof {
        assert(drawn.contains(drawn[0]) && drawn.contains(drawn[1]) && drawn.contains(drawn[2])
            && drawn.contains(drawn[3]));
        lemma_same_members(drawn, chars@, drawn[0]);
        lemma_same_members(drawn, chars@, drawn[1]);
        lemma_same_members(drawn, chars@, drawn[2]);
        lemma_same_members(drawn, chars@, drawn[3]);
        assert forall|i: int| 0 <= i < chars@.len() implies in_alphabet(#[trigger] chars@[i]) by {
            assert(chars@.contains(chars@[i]));
            lemma_same_members(chars@, drawn, chars@[i]);
        }
        let j0 = choose|j: int| 0 <= j < chars@.len() && chars@[j] == drawn[0];
        assert(is_special(chars@[j0]));
        let j1 = choose|j: int| 0 <= j < chars@.len() && chars@[j] == drawn[1];
        assert(is_lowercase(chars@[j1]));
        let j2 = choose|j: int| 0 <= j < chars@.len() && chars@[j] == drawn[2];
        assert(is_uppercase(chars@[j2]));
        let j3 = choose|j: int| 0 <= j < chars@.len() && chars@[j] == drawn[3];
        assert(is_number(chars@[j3]));
        lemma_generated_is_valid(chars@);
    }
    let mut password = String::new();
    let mut i: usize = 0;
    while i < chars.len()
        invariant
            i <= chars.len(),
            password@ == chars@.take(i as int),
        decreases chars.len() - i,
    {
        password.push(chars[i]);
        assert(chars@.take(i + 1) =~= chars@.take(i as int).push(chars@[i as int]));
        i += 1;
    }
    assert(chars@.take(chars@.len() as int) =~= chars@);
    password
}

} // verus!
