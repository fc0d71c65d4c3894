//! Free-form argument text and its tokenization through the shell lexer.

use vstd::prelude::*;

verus! {

/// Whether the shell lexer accepts this text (it rejects exactly an
/// unmatched quote).
pub uninterp spec fn shell_ok(s: Seq<char>) -> bool;

/// The argument words the shell lexer produces for this text.
pub uninterp spec fn shell_tokens(s: Seq<char>) -> Seq<Seq<char>>;

/// Whether this text holds nothing but whitespace.
pub uninterp spec fn blank(s: Seq<char>) -> bool;

#[verifier::external_type_specification]
#[verifier::external_body]
pub struct ExParseError(shell_words::ParseError);

/// Relies on shell_words::split: POSIX shell word splitting with quote
/// removal, a deterministic function of the text alone, which fails exactly
/// when the text holds an unmatched quote.
#[verifier::external_body]
pub(crate) fn split_words(text: &str) -> (r: Result<Vec<String>, shell_words::ParseError>)
    ensures
        r is Ok <==> shell_ok(text@),
        r matches Ok(words) ==> words.deep_view() == shell_tokens(text@),
{
    shell_words::split(text)
}

/// Relies on str::trim and str::is_empty: trim removes exactly the leading
/// and trailing whitespace, so the test decides whether the text is
/// whitespace only; the empty text trims to the empty text.
#[verifier::external_body]
pub(crate) fn is_blank(text: &str) -> (r: bool)
    ensures
        r == blank(text@),
        text@.len() == 0 ==> r,
{
    text.trim().is_empty()
}

/// The shell lexer rejected the argument text (an unmatched quote).
#[derive(Clone, Copy, PartialEq, Eq, Structural, Debug)]
pub struct LexError;

/// Parses one free-form argument field: whitespace-only text yields no
/// arguments at all, anything else is handed to the shell lexer.
pub fn parse_args(text: &str) -> (r: Result<Vec<String>, LexError>)
    ensures
        blank(text@) ==> (r matches Ok(args) && args@.len() == 0),
        !blank(text@) ==> (r is Ok <==> shell_ok(text@)),
        !blank(text@) ==> (r matches Ok(args) ==> args.deep_view() == shell_tokens(text@)),
{
    if is_blank(text) {
        Ok(Vec::new())
    } else {
        match split_words(text) {
            Ok(words) => Ok(words),
            Err(_) => Err(LexError),
        }
    }
}

} // verus!
