//! Checks on diagram source text before it is rendered or stored.
use vstd::prelude::*;

use crate::models::{severity, ErrorCode, StatusLevel};

verus! {

/// The most characters of diagram source that are accepted.
pub const MAX_CHARS: usize = 24000;

/// Whether `c` has the Unicode White_Space property.
pub open spec fn is_white_space(c: char) -> bool {
    ||| '\u{9}' <= c <= '\u{d}'
    ||| c == ' '
    ||| c == '\u{85}'
    ||| c == '\u{a0}'
    ||| c == '\u{1680}'
    ||| '\u{2000}' <= c <= '\u{200a}'
    ||| c == '\u{2028}'
    ||| c == '\u{2029}'
    ||| c == '\u{202f}'
    ||| c == '\u{205f}'
    ||| c == '\u{3000}'
}

/// Whether nothing is left of `s` once surrounding whitespace is trimmed.
pub open spec fn is_blank(s: Seq<char>) -> bool {
    forall|i: int| 0 <= i < s.len() ==> is_white_space(#[trigger] s[i])
}

/// Why diagram source was refused.
#[derive(Debug, Clone, Copy, PartialEq, Eq, Structural)]
pub enum ValidationError {
    /// Nothing but whitespace.
    EmptyContent,
    /// Longer than allowed: the length found and the limit.
    ContentTooLarge(usize, usize),
}

/// What validation decides for the source `s`.
pub open spec fn validation_of(s: Seq<char>) -> Result<(), ValidationError> {
    if is_blank(s) {
        Err(ValidationError::EmptyContent)
    } else if s.len() > MAX_CHARS {
        Err(ValidationError::ContentTooLarge(s.len() as usize, MAX_CHARS))
    } else {
        Ok(())
    }
}

/// The outcome that reports a validation error.
pub open spec fn validation_code(e: ValidationError) -> ErrorCode {
    match e {
        ValidationError::EmptyContent => ErrorCode::ValidationEmpty,
        ValidationError::ContentTooLarge(actual, max) => ErrorCode::ValidationTextLimit {
            actual,
            max,
        },
    }
}

impl ValidationError {
    /// The outcome that reports this error.
    pub fn to_error_code(&self) -> (r: ErrorCode)
        ensures
            r == validation_code(*self),
    {
        match self {
            ValidationError::EmptyContent => ErrorCode::ValidationEmpty,
            ValidationError::ContentTooLarge(actual, max) => ErrorCode::ValidationTextLimit {
                actual: *actual,
                max: *max,
            },
        }
    }

    /// Validation errors are warnings: the user can correct the input.
    pub fn status_level(&self) -> (r: StatusLevel)
        ensures
            r == StatusLevel::Warning,
            r == severity(validation_code(*self)),
    {
        StatusLevel::Warning
    }
}

/// Whether `c` has the Unicode White_Space property.
pub fn is_white_space_char(c: char) -> (r: bool)
    ensures
        r == is_white_space(c),
{
    ('\u{9}' <= c && c <= '\u{d}') || c == ' ' || c == '\u{85}' || c == '\u{a0}' || c == '\u{1680}'
        || ('\u{2000}' <= c && c <= '\u{200a}') || c == '\u{2028}' || c == '\u{2029}' || c
        == '\u{202f}' || c == '\u{205f}' || c == '\u{3000}'
}

/// Whether `s` holds nothing but whitespace.
pub fn is_blank_str(s: &str) -> (r: bool)
    ensures
        r == is_blank(s@),
{
    let n = s.unicode_len();
    let mut i: usize = 0;
    while i < n
        invariant
            n == s@.len(),
            i <= n,
            forall|j: int| 0 <= j < i ==> is_white_space(#[trigger] s@[j]),
        decreases n - i,
    {
        if !is_white_space_char(s.get_char(i)) {
            return false;
        }
        i = i + 1;
    }
    true
}

/// Checks diagram source: it must not be blank, and must not exceed
/// `MAX_CHARS` characters. Markers such as `@startuml` are not looked for.
pub fn validate_plantuml_content(content: &str) -> (r: Result<(), ValidationError>)
    ensures
        r == validation_of(content@),
{
    if is_blank_str(content) {
        return Err(ValidationError::EmptyContent);
    }
    let len = content.unicode_len();
    if len > MAX_CHARS {
        return Err(ValidationError::ContentTooLarge(len, MAX_CHARS));
    }
    Ok(())
}

/// Blank text is refused as empty; text of one character over the limit is
/// refused as too long, with its length and the limit; text of exactly the
/// limit that is not blank passes.
pub proof fn validation_limits(s: Seq<char>)
    ensures
        is_blank(s) ==> validation_of(s) == Err::<(), ValidationError>(ValidationError::EmptyContent),
        !is_blank(s) && s.len() == MAX_CHARS + 1 ==> validation_of(s) == Err::<(), ValidationError>(
            ValidationError::ContentTooLarge(24001, 24000),
        ),
        !is_blank(s) && s.len() == MAX_CHARS ==> validation_of(s) is Ok,
{
}

/// The empty text and a text of spaces are both blank.
pub proof fn empty_and_spaces_are_blank(n: nat)
    ensures
        is_blank(Seq::<char>::empty()),
        is_blank(Seq::new(n, |i: int| ' ')),
{
}

} // verus!
