use walkpwd::generator::{
    generate_random_password, password_policy, GenerationError, GeneratorPolicy, DEFAULT_LENGTH,
};

const DIGITS: &str = "23456789";
const LOWER: &str = "abcdefghjkmnpqrstuvwxyz";
const UPPER: &str = "ABCDEFGHJKLMNPQRSTUVWXYZ";
const SYMBOLS: &str = "!#$%&()*+,-./:;<=>?@[\\]^_{}~";
const AMBIGUOUS: &str = "iI1loO0\"'`|";

fn plain(c: char) -> bool {
    DIGITS.contains(c) || LOWER.contains(c) || UPPER.contains(c)
}

#[test]
fn default_length_is_twelve() {
    assert_eq!(DEFAULT_LENGTH, 12);
    let password = generate_random_password(None, false).unwrap();
    assert_eq!(password.chars().count(), 12);
}

#[test]
fn generated_password_has_the_requested_length() {
    for length in [1usize, 2, 7, 12, 33, 64, 500] {
        let password = generate_random_password(Some(length), false).unwrap();
        assert_eq!(password.chars().count(), length);
        let password = generate_random_password(Some(length), true).unwrap();
        assert_eq!(password.chars().count(), length);
    }
}

#[test]
fn without_symbols_only_digits_and_letters() {
    for _ in 0..50 {
        let password = generate_random_password(Some(200), false).unwrap();
        assert!(password.chars().all(plain));
    }
}

#[test]
fn with_symbols_only_digits_letters_and_symbols() {
    for _ in 0..50 {
        let password = generate_random_password(Some(200), true).unwrap();
        assert!(password.chars().all(|c| plain(c) || SYMBOLS.contains(c)));
    }
}

#[test]
fn never_ambiguous_and_never_blank() {
    for round in 0..50 {
        let password = generate_random_password(Some(200), round % 2 == 0).unwrap();
        assert!(password.chars().all(|c| !AMBIGUOUS.contains(c)));
        assert!(password.chars().all(|c| !c.is_whitespace()));
    }
}

#[test]
fn zero_length_is_refused() {
    assert_eq!(generate_random_password(Some(0), false), Err(GenerationError::NothingToDraw));
    assert_eq!(generate_random_password(Some(0), true), Err(GenerationError::NothingToDraw));
}

#[test]
fn one_character_password_is_generated() {
    let password = generate_random_password(Some(1), true).unwrap();
    assert_eq!(password.chars().count(), 1);
}

#[test]
fn policy_of_a_request() {
    assert_eq!(
        password_policy(None, false),
        GeneratorPolicy {
            length: 12,
            numbers: true,
            lowercase_letters: true,
            uppercase_letters: true,
            symbols: false,
            spaces: false,
            exclude_similar_characters: true,
            strict: false,
        }
    );
    assert_eq!(
        password_policy(Some(5), true),
        GeneratorPolicy {
            length: 5,
            numbers: true,
            lowercase_letters: true,
            uppercase_letters: true,
            symbols: true,
            spaces: false,
            exclude_similar_characters: true,
            strict: false,
        }
    );
    assert_eq!(password_policy(Some(0), false).length, 0);
}

#[test]
fn generation_error_message() {
    assert_eq!(GenerationError::NothingToDraw.message(), "The length of passwords cannot be 0.");
}
