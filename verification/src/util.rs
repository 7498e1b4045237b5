//! Names in snake case.
use regex::Regex;
use vstd::pervasive::unreached;
use vstd::prelude::*;
use vstd::string::*;

verus! {

/// The pattern that finds the upper case letters of a name.
pub const UPPER_CASE: &'static str = "([A-Z])";

/// What an upper case letter is replaced by: the letter after an underscore.
pub const UNDERSCORED: &'static str = "_$1";

/// A compiled regular expression, `regex::Regex`; nothing of it is
/// seen here.
#[verifier::external_type_specification]
#[verifier::external_body]
pub struct ExRegex(regex::Regex);

/// Why a pattern did not compile, `regex::Error`; nothing of it is seen
/// here.
#[verifier::external_type_specification]
#[verifier::external_body]
pub struct ExRegexError(regex::Error);

/// Whether `regex::Regex::new` accepts the pattern `source`.
pub uninterp spec fn regex_compiles(source: Seq<char>) -> bool;

/// The text that `regex::Regex::replace_all` returns for `text` and
/// `replacement`, on the regular expression compiled from `source`.
pub uninterp spec fn regex_replaced(
    source: Seq<char>,
    text: Seq<char>,
    replacement: Seq<char>,
) -> Seq<char>;

/// A regular expression with the text it was compiled from.
pub struct Pattern {
    source: String,
    matcher: Regex,
}

impl Pattern {
    /// The text that the expression was compiled from.
    pub closed spec fn source(&self) -> Seq<char> {
        self.source@
    }
}

/// Calls `regex::Regex::new`. Whether a pattern is accepted depends on the
/// pattern alone; the expression that comes back is kept beside its text.
#[verifier::external_body]
fn compile(source: &str) -> (r: Result<Pattern, regex::Error>)
    ensures
        r is Ok == regex_compiles(source@),
        r matches Ok(p) ==> p.source() == source@,
{
    match Regex::new(source) {
        Ok(matcher) => Ok(Pattern { source: source.to_string(), matcher }),
        Err(e) => Err(e),
    }
}

/// Calls `regex::Regex::replace_all`, which replaces every match of the
/// expression in `text` by the expansion of `replacement`. The result
/// depends on the expression, the text and the replacement alone.
#[verifier::external_body]
fn replace_all(pattern: &Pattern, text: &str, replacement: &str) -> (r: String)
    ensures
        r@ == regex_replaced(pattern.source(), text@, replacement@),
{
    pattern.matcher.replace_all(text, replacement).into_owned()
}

/// Whether names can be put in snake case: the pattern for upper case
/// letters compiles.
pub open spec fn snake_ready() -> bool {
    regex_compiles(UPPER_CASE@)
}

/// The first character of a name, as a text; nothing for the empty name.
pub open spec fn initial(name: Seq<char>) -> Seq<char> {
    if name.len() > 0 {
        name.take(1)
    } else {
        name
    }
}

/// What follows the first character of a name.
pub open spec fn after_initial(name: Seq<char>) -> Seq<char> {
    if name.len() > 0 {
        name.skip(1)
    } else {
        name
    }
}

/// Parts a name into its first character and the rest.
pub fn split_initial(name: &str) -> (r: (&str, &str))
    ensures
        r.0@ == initial(name@),
        r.1@ == after_initial(name@),
{
    let n = name.unicode_len();
    if n > 0 {
        (name.substring_char(0, 1), name.substring_char(1, n))
    } else {
        (name, name)
    }
}

/// The name in snake case: behind the first character an underscore goes
/// before each match of the upper case pattern, and the whole is put in
/// lower case.
pub open spec fn snake_case_text(name: Seq<char>) -> Seq<char> {
    crate::text::lowercase(
        initial(name) + regex_replaced(UPPER_CASE@, after_initial(name), UNDERSCORED@),
    )
}

/// Tests whether names can be put in snake case.
pub fn snake_case_ready() -> (r: bool)
    ensures
        r == snake_ready(),
{
    compile(UPPER_CASE).is_ok()
}

/// Puts a name in snake case.
pub fn snake_case(name: &str) -> (r: String)
    requires
        snake_ready(),
    ensures
        r@ == snake_case_text(name@),
{
    let (first, rest) = split_initial(name);
    match compile(UPPER_CASE) {
        Ok(pattern) => {
            let mut s = String::from_str(first);
            s.append(replace_all(&pattern, rest, UNDERSCORED).as_str());
            s.as_str().to_lowercase()
        },
        Err(_) => unreached(),
    }
}

/// Puts a name in snake case where that can be done: `None` where the
/// pattern for upper case letters does not compile.
pub fn checked_snake_case(name: &str) -> (r: Option<String>)
    ensures
        r is Some == snake_ready(),
        r matches Some(s) ==> s@ == snake_case_text(name@),
{
    if snake_case_ready() {
        Some(snake_case(name))
    } else {
        None
    }
}

} // verus!
