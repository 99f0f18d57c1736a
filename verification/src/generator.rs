//! Random passwords under a fixed policy.
//!
//! A generated password is drawn from digits, lowercase and uppercase letters,
//! and from symbols where the caller asks for them. Characters that are easily
//! taken for one another are left out of every class, and blanks are never
//! used. The drawing itself is done by the `passwords` crate; this module fixes
//! the policy that is handed to it and states what comes back.

use vstd::prelude::*;

verus! {

/// The length of a generated password where the caller names none.
pub const DEFAULT_LENGTH: usize = 12;

/// The settings of a password generator.
#[derive(Debug, Clone, Copy, PartialEq, Eq, Structural)]
pub struct GeneratorPolicy {
    /// The number of characters of a password.
    pub length: usize,
    /// Digits may occur.
    pub numbers: bool,
    /// Lowercase letters may occur.
    pub lowercase_letters: bool,
    /// Uppercase letters may occur.
    pub uppercase_letters: bool,
    /// Symbols may occur.
    pub symbols: bool,
    /// The blank may occur.
    pub spaces: bool,
    /// Characters that look alike are left out of every class.
    pub exclude_similar_characters: bool,
    /// Every class that may occur must occur.
    pub strict: bool,
}

/// Why no password was generated.
#[derive(Debug, Clone, Copy, PartialEq, Eq, Structural)]
pub enum GenerationError {
    /// The policy leaves no character to draw: a password of no characters was
    /// asked for.
    NothingToDraw,
}

impl GenerationError {
    /// The failure in words.
    pub fn message(&self) -> (text: String)
        ensures
            text@ == "The length of passwords cannot be 0."@,
    {
        "The length of passwords cannot be 0.".to_owned()
    }
}

/// The digits of the generator.
pub open spec fn digits(exclude_similar: bool) -> Set<char> {
    if exclude_similar {
        set!['2', '3', '4', '5', '6', '7', '8', '9']
    } else {
        set!['0', '1', '2', '3', '4', '5', '6', '7', '8', '9']
    }
}

/// The lowercase letters of the generator.
pub open spec fn lowercase_letters(exclude_similar: bool) -> Set<char> {
    if exclude_similar {
        set![
            'a', 'b', 'c', 'd', 'e', 'f', 'g', 'h', 'j', 'k', 'm', 'n', 'p', 'q', 'r', 's', 't',
            'u', 'v', 'w', 'x', 'y', 'z',
        ]
    } else {
        set![
            'a', 'b', 'c', 'd', 'e', 'f', 'g', 'h', 'i', 'j', 'k', 'l', 'm', 'n', 'o', 'p', 'q',
            'r', 's', 't', 'u', 'v', 'w', 'x', 'y', 'z',
        ]
    }
}

/// The uppercase letters of the generator.
pub open spec fn uppercase_letters(exclude_similar: bool) -> Set<char> {
    if exclude_similar {
        set![
            'A', 'B', 'C', 'D', 'E', 'F', 'G', 'H', 'J', 'K', 'L', 'M', 'N', 'P', 'Q', 'R', 'S',
            'T', 'U', 'V', 'W', 'X', 'Y', 'Z',
        ]
    } else {
        set![
            'A', 'B', 'C', 'D', 'E', 'F', 'G', 'H', 'I', 'J', 'K', 'L', 'M', 'N', 'O', 'P', 'Q',
            'R', 'S', 'T', 'U', 'V', 'W', 'X', 'Y', 'Z',
        ]
    }
}

/// The symbols of the generator.
pub open spec fn symbols(exclude_similar: bool) -> Set<char> {
    if exclude_similar {
        set![
            '!', '#', '$', '%', '&', '(', ')', '*', '+', ',', '-', '.', '/', ':', ';', '<', '=',
            '>', '?', '@', '[', '\\', ']', '^', '_', '{', '}', '~',
        ]
    } else {
        set![
            '!', '"', '#', '$', '%', '&', '\'', '(', ')', '*', '+', ',', '-', '.', '/', ':', ';',
            '<', '=', '>', '?', '@', '[', '\\', ']', '^', '_', '`', '{', '|', '}', '~',
        ]
    }
}

/// Whether the policy lets any class of characters occur.
pub open spec fn has_class(policy: GeneratorPolicy) -> bool {
    policy.numbers || policy.lowercase_letters || policy.uppercase_letters || policy.symbols
        || policy.spaces
}

/// The characters that a password under `policy` is drawn from.
pub open spec fn pool(policy: GeneratorPolicy) -> Set<char> {
    Set::new(
        |c: char|
            {
                ||| policy.numbers && digits(policy.exclude_similar_characters).contains(c)
                ||| policy.lowercase_letters && lowercase_letters(
                    policy.exclude_similar_characters,
                ).contains(c)
                ||| policy.uppercase_letters && uppercase_letters(
                    policy.exclude_similar_characters,
                ).contains(c)
                ||| policy.symbols && symbols(policy.exclude_similar_characters).contains(c)
                ||| policy.spaces && c == ' '
            },
    )
}

/// Every character of `text` is in `allowed`.
pub open spec fn drawn_from(text: Seq<char>, allowed: Set<char>) -> bool {
    forall|i: int| 0 <= i < text.len() ==> allowed.contains(#[trigger] text[i])
}

/// The length that a request stands for.
pub open spec fn effective_length(length: Option<usize>) -> usize {
    match length {
        Some(n) => n,
        None => DEFAULT_LENGTH,
    }
}

/// The policy of this vault for a request.
pub open spec fn policy_for(length: Option<usize>, use_symbols: bool) -> GeneratorPolicy {
    GeneratorPolicy {
        length: effective_length(length),
        numbers: true,
        lowercase_letters: true,
        uppercase_letters: true,
        symbols: use_symbols,
        spaces: false,
        exclude_similar_characters: true,
        strict: false,
    }
}

/// The characters that a generated password may hold: digits and letters
/// without the ones that look alike, and the symbols that are left where
/// `use_symbols` is set.
pub open spec fn allowed_characters(use_symbols: bool) -> Set<char> {
    pool(policy_for(None, use_symbols))
}

/// The policy of this vault for a request: the length asked for, or the default
/// one; digits and letters of both cases, symbols on request, no blanks, no
/// characters that look alike, and no class is compulsory.
pub fn password_policy(length: Option<usize>, use_symbols: bool) -> (policy: GeneratorPolicy)
    ensures
        policy == policy_for(length, use_symbols),
{
    let length = match length {
        Some(n) => n,
        None => DEFAULT_LENGTH,
    };
    GeneratorPolicy {
        length,
        numbers: true,
        lowercase_letters: true,
        uppercase_letters: true,
        symbols: use_symbols,
        spaces: false,
        exclude_similar_characters: true,
        strict: false,
    }
}

/// Calls `passwords::PasswordGenerator::generate_one` with the settings of
/// `policy`. Not proved: that the call fails exactly where the length is zero
/// or no class is enabled, and that a password it returns has `policy.length`
/// characters, each from the classes that the policy enables. Left out are
/// strict policies, under which the generator draws again until every class
/// occurs, and lengths beyond `isize::MAX`, which no string can have.
#[verifier::external_body]
fn draw_password(policy: &GeneratorPolicy) -> (drawn: Result<String, &'static str>)
    requires
        !policy.strict,
        policy.length <= isize::MAX,
    ensures
        drawn is Err <==> policy.length == 0 || !has_class(*policy),
        drawn matches Ok(text) ==> text@.len() == policy.length && drawn_from(
            text@,
            pool(*policy),
        ),
{
    passwords::PasswordGenerator {
        length: policy.length,
        numbers: policy.numbers,
        lowercase_letters: policy.lowercase_letters,
        uppercase_letters: policy.uppercase_letters,
        symbols: policy.symbols,
        spaces: policy.spaces,
        exclude_similar_characters: policy.exclude_similar_characters,
        strict: policy.strict,
    }.generate_one()
}

/// A random password of `length` characters, or of `DEFAULT_LENGTH` where no
/// length is given. Which characters it holds is left to chance, within
/// `allowed_characters(use_symbols)`; no class is sure to occur. A length of
/// zero is the one request that fails. The length must be one that a string
/// can have.
pub fn generate_random_password(
    length: Option<usize>,
    use_symbols: bool,
) -> (generated: Result<String, GenerationError>)
    requires
        effective_length(length) <= isize::MAX,
    ensures
        effective_length(length) == 0 ==> generated == Err::<String, GenerationError>(
            GenerationError::NothingToDraw,
        ),
        effective_length(length) != 0 ==> generated is Ok,
        generated matches Ok(password) ==> password@.len() == effective_length(length)
            && drawn_from(password@, allowed_characters(use_symbols)),
{
    let policy = password_policy(length, use_symbols);
    match draw_password(&policy) {
        Ok(password) => {
            assert(pool(policy) =~= allowed_characters(use_symbols));
            Ok(password)
        },
        Err(_) => Err(GenerationError::NothingToDraw),
    }
}

/// No generated password holds a blank or a character that is easily taken for
/// another: `i`, `I`, `1`, `l`, `o`, `O`, `0`, the two quotes, the backtick and
/// the bar. Symbols occur only where they were asked for.
pub proof fn lemma_allowed_characters(use_symbols: bool, c: char)
    requires
        allowed_characters(use_symbols).contains(c),
    ensures
        c != ' ' && c != '\t' && c != '\n' && c != '\r',
        c != 'i' && c != 'I' && c != '1' && c != 'l' && c != 'o' && c != 'O' && c != '0',
        c != '"' && c != '\'' && c != '`' && c != '|',
        !use_symbols ==> digits(true).contains(c) || lowercase_letters(true).contains(c)
            || uppercase_letters(true).contains(c),
        allowed_characters(true).contains(c),
{
}

} // verus!
