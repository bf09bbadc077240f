//! Compiled patterns and the one search the extractor runs with them.

use regex::Regex;
use vstd::prelude::*;

verus! {

/// A compiled regular expression of the `regex` crate, carried through as an
/// opaque value.
#[verifier::external_type_specification]
#[verifier::external_body]
pub struct ExRegex(Regex);

/// The error of the `regex` crate for a pattern that does not compile.
#[verifier::external_type_specification]
#[verifier::external_body]
pub struct ExRegexError(regex::Error);

/// What `Regex::captures` reports as the overall match (capture group 0) of
/// `re` in `text`: the text of the leftmost match, or `None` where `re`
/// matches nowhere in `text`.
pub uninterp spec fn first_match(re: Regex, text: Seq<char>) -> Option<Seq<char>>;

/// What `Regex::new` makes of `pattern`: the compiled expression, or `None`
/// where the pattern is refused.
pub uninterp spec fn compiled(pattern: Seq<char>) -> Option<Regex>;

/// The long form of a UUID: hexadecimal digits of either case, grouped
/// 8-4-4-4-12.
pub const LONG_PATTERN: &'static str =
    "[0-9a-fA-F]{8}-[0-9a-fA-F]{4}-[0-9a-fA-F]{4}-[0-9a-fA-F]{4}-[0-9a-fA-F]{12}";

/// The short form of a UUID: upper-case hexadecimal digits, grouped 4-4.
pub const SHORT_PATTERN: &'static str = "[A-F0-9]{4}-[A-F0-9]{4}";

/// Which of the two patterns did not compile.
#[derive(Clone, Copy, Debug, PartialEq, Eq, Structural)]
pub enum PatternError {
    Short,
    Long,
}

/// Calls `Regex::captures` and copies out capture group 0, the overall
/// match. Nothing is claimed of the search but that its outcome is
/// `first_match` of the expression and the text.
#[verifier::external_body]
pub(crate) fn find_first(re: &Regex, text: &str) -> (r: Option<String>)
    ensures
        r.deep_view() == first_match(*re, text@),
{
    match re.captures(text) {
        Some(caps) => Some(caps[0].to_string()),
        None => None,
    }
}

/// Calls `Regex::new`. It succeeds exactly where `compiled` holds an
/// expression for the pattern, and then returns that expression.
#[verifier::external_body]
pub(crate) fn compile(pattern: &str) -> (r: Result<Regex, regex::Error>)
    ensures
        match r {
            Ok(re) => compiled(pattern@) == Some(re),
            Err(_) => compiled(pattern@) is None,
        },
{
    Regex::new(pattern)
}

/// The outcome of compiling one of the two patterns, with this library's
/// error, which names the pattern, in place of the `regex` crate's.
pub fn named(outcome: Result<Regex, regex::Error>, which: PatternError) -> (r: Result<
    Regex,
    PatternError,
>)
    ensures
        match outcome {
            Ok(re) => r == Ok::<Regex, PatternError>(re),
            Err(_) => r == Err::<Regex, PatternError>(which),
        },
{
    match outcome {
        Ok(re) => Ok(re),
        Err(_) => Err(which),
    }
}

/// Compiles a long and a short pattern, the short one first, and returns the
/// two expressions, the long one first. The error names the pattern that
/// did not compile; where neither does, that is the short one.
pub fn compile_patterns(long: &str, short: &str) -> (r: Result<(Regex, Regex), PatternError>)
    ensures
        match r {
            Ok((lr, sr)) => compiled(long@) == Some(lr) && compiled(short@) == Some(sr),
            Err(PatternError::Short) => compiled(short@) is None,
            Err(PatternError::Long) => compiled(short@) is Some && compiled(long@) is None,
        },
{
    let sr = match named(compile(short), PatternError::Short) {
        Ok(re) => re,
        Err(e) => {
            return Err(e);
        },
    };
    let lr = match named(compile(long), PatternError::Long) {
        Ok(re) => re,
        Err(e) => {
            return Err(e);
        },
    };
    Ok((lr, sr))
}

/// Compiles the two UUID patterns and returns the long one and the short
/// one, in that order.
pub fn uuid_patterns() -> (r: Result<(Regex, Regex), PatternError>)
    ensures
        match r {
            Ok((lr, sr)) => compiled(LONG_PATTERN@) == Some(lr) && compiled(SHORT_PATTERN@) == Some(
                sr,
            ),
            Err(PatternError::Short) => compiled(SHORT_PATTERN@) is None,
            Err(PatternError::Long) => compiled(SHORT_PATTERN@) is Some && compiled(LONG_PATTERN@)
                is None,
        },
{
    compile_patterns(LONG_PATTERN, SHORT_PATTERN)
}

} // verus!
