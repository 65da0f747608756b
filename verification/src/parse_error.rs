//! Errors of the parser, turned into script errors.

use vstd::prelude::*;

use lalrpop_util::ParseError;

use crate::error::Error;
use crate::error_kind::ErrorKind;
use crate::pos::{Location, Range};
use crate::text::{quotes_to_backticks, replace_quotes};

verus! {

#[verifier::external_type_specification]
#[verifier::external_body]
#[verifier::reject_recursive_types(L)]
#[verifier::reject_recursive_types(T)]
#[verifier::reject_recursive_types(E)]
pub struct ExParseError<L, T, E>(ParseError<L, T, E>);

/// What the parser reported, one variant for each of `lalrpop_util::ParseError`'s.
/// The reports that may become a plain parser error carry their rendering.
#[derive(Debug, PartialEq, Eq)]
#[allow(inconsistent_fields)]
pub enum ParserFailure {
    /// A character at `location` that starts no token.
    InvalidToken { location: Location },
    /// A token, spanning from its first to its last position, that none of the
    /// `expected` tokens matches; no token means the input ended too early.
    UnrecognizedToken {
        token: Option<(Location, String, Location)>,
        expected: Vec<String>,
        rendered: String,
    },
    /// A token after the end of what the grammar allows.
    ExtraToken { token: (Location, String, Location) },
    /// An error raised while parsing.
    User { error: Error, rendered: String },
}

/// The report that `lalrpop_util::ParseError`'s value `error` stands for, with
/// its `Debug` rendering where the report carries one.
pub uninterp spec fn parser_report(error: ParseError<Location, String, Error>) -> ParserFailure;

/// Whether the spans of the resulting error fit a `usize`: they reach two lines
/// below the token's end, and an invalid token is one column wide.
pub open spec fn fits(f: ParserFailure) -> bool {
    match f {
        ParserFailure::UnrecognizedToken { token: Some((_, _, end)), .. } => end.line + 2
            <= usize::MAX,
        ParserFailure::ExtraToken { token: (_, _, end) } => end.line + 2 <= usize::MAX,
        ParserFailure::InvalidToken { location } => location.line + 2 <= usize::MAX
            && location.column + 1 <= usize::MAX,
        _ => true,
    }
}

/// Whether the report points at a token of the script.
pub open spec fn reports_token(f: ParserFailure) -> bool {
    match f {
        ParserFailure::UnrecognizedToken { token, .. } => token is Some,
        ParserFailure::User { .. } => false,
        _ => true,
    }
}

/// The span shown for a token from `start` to `end`: two more lines on each side.
pub open spec fn surroundings(start: Location, end: Location) -> Range {
    Range(start.moved_up(2), end.moved_down(2))
}

/// Whether `k` is the script error for the parser's report `f`. Quotes in the
/// names of expected tokens become backticks; an invalid token is marked one
/// column wide; an early end of input and an error raised while parsing become
/// a parser error with the report's rendering.
pub open spec fn converted(f: ParserFailure, k: ErrorKind) -> bool {
    match f {
        ParserFailure::UnrecognizedToken { token: Some((start, token, end)), expected, .. } => {
            &&& k matches ErrorKind::UnrecognizedToken(outer, inner, t, l)
            &&& outer == surroundings(start, end)
            &&& inner == Range(start, end)
            &&& t == token
            &&& l.deep_view() == expected.deep_view().map_values(
                |s: Seq<char>| quotes_to_backticks(s),
            )
        },
        ParserFailure::UnrecognizedToken { token: None, rendered, .. } => k
            == ErrorKind::ParserError(rendered),
        ParserFailure::ExtraToken { token: (start, token, end) } => k == ErrorKind::ExtraToken(
            surroundings(start, end),
            Range(start, end),
            token,
        ),
        ParserFailure::InvalidToken { location } => {
            let end = Location { column: (location.column + 1) as usize, ..location };
            k == ErrorKind::InvalidToken(surroundings(location, end), Range(location, end))
        },
        ParserFailure::User { rendered, .. } => k == ErrorKind::ParserError(rendered),
    }
}

/// Whether `r` is what the report `f` becomes: its script error where its spans
/// fit a `usize`, `None` where they do not.
pub open spec fn report_outcome(f: ParserFailure, r: Option<Error>) -> bool {
    if fits(f) {
        r matches Some(e) && converted(f, e.0)
    } else {
        r is None
    }
}

/// Moves the fields of each variant of `lalrpop_util::ParseError` into the
/// matching variant of `ParserFailure`, with the error's `Debug` rendering in
/// the variants that carry one. The contract names the result.
#[verifier::external_body]
fn failure_of(error: ParseError<Location, String, Error>) -> (f: ParserFailure)
    ensures
        f == parser_report(error),
{
    let rendered = format!("{:?}", error);
    match error {
        ParseError::InvalidToken { location } => ParserFailure::InvalidToken { location },
        ParseError::UnrecognizedToken { token, expected } => {
            ParserFailure::UnrecognizedToken { token, expected, rendered }
        },
        ParseError::ExtraToken { token } => ParserFailure::ExtraToken { token },
        ParseError::User { error } => ParserFailure::User { error, rendered },
    }
}

/// The names of the expected tokens, their double quotes turned into backticks.
fn backticked(expected: &Vec<String>) -> (r: Vec<String>)
    ensures
        r.deep_view() == expected.deep_view().map_values(|s: Seq<char>| quotes_to_backticks(s)),
{
    let mut out: Vec<String> = Vec::new();
    let mut i: usize = 0;
    while i < expected.len()
        invariant
            i <= expected@.len(),
            out.deep_view() == expected.deep_view().take(i as int).map_values(
                |s: Seq<char>| quotes_to_backticks(s),
            ),
        decreases expected@.len() - i,
    {
        let ghost prev = out.deep_view();
        let name = replace_quotes(&expected[i]);
        out.push(name);
        assert(out.deep_view() =~= prev.push(quotes_to_backticks(expected.deep_view()[i as int])));
        assert(expected.deep_view().take(i + 1) =~= expected.deep_view().take(i as int).push(
            expected.deep_view()[i as int],
        ));
        assert(out.deep_view() =~= expected.deep_view().take(i + 1).map_values(
            |s: Seq<char>| quotes_to_backticks(s),
        ));
        i = i + 1;
    }
    assert(expected.deep_view().take(expected@.len() as int) =~= expected.deep_view());
    out
}

impl Error {
    /// The script error for what the parser reported.
    pub fn from_parser_failure(f: ParserFailure) -> (e: Error)
        requires
            fits(f),
        ensures
            converted(f, e.0),
    {
        match f {
            ParserFailure::UnrecognizedToken { token: Some((start, token, end)), expected, .. } => {
                let names = backticked(&expected);
                Error(
                    ErrorKind::UnrecognizedToken(
                        Range(start.move_up_lines(2), end.move_down_lines(2)),
                        Range(start, end),
                        token,
                        names,
                    ),
                )
            },
            ParserFailure::UnrecognizedToken { token: None, rendered, .. } => Error(
                ErrorKind::ParserError(rendered),
            ),
            ParserFailure::ExtraToken { token: (start, token, end) } => Error(
                ErrorKind::ExtraToken(
                    Range(start.move_up_lines(2), end.move_down_lines(2)),
                    Range(start, end),
                    token,
                ),
            ),
            ParserFailure::InvalidToken { location } => {
                let mut end = location;
                end.column = end.column + 1;
                Error(
                    ErrorKind::InvalidToken(
                        Range(location.move_up_lines(2), end.move_down_lines(2)),
                        Range(location, end),
                    ),
                )
            },
            ParserFailure::User { rendered, .. } => Error(ErrorKind::ParserError(rendered)),
        }
    }

    /// The script error for what the parser reported; `None` where the error's
    /// spans would not fit a `usize`.
    pub fn from_parser_report(f: ParserFailure) -> (r: Option<Error>)
        ensures
            report_outcome(f, r),
    {
        let fit = match &f {
            ParserFailure::UnrecognizedToken { token: Some((_, _, end)), .. } => end.line
                <= usize::MAX - 2,
            ParserFailure::ExtraToken { token: (_, _, end) } => end.line <= usize::MAX - 2,
            ParserFailure::InvalidToken { location } => location.line <= usize::MAX - 2
                && location.column < usize::MAX,
            _ => true,
        };
        if fit {
            Some(Error::from_parser_failure(f))
        } else {
            None
        }
    }

    /// The script error for an error of the parser, whose tokens are given by their
    /// text; `None` where the error's spans would not fit a `usize`.
    pub fn from_parse_error(error: ParseError<Location, String, Error>) -> (r: Option<Error>)
        ensures
            report_outcome(parser_report(error), r),
    {
        let f = failure_of(error);
        Error::from_parser_report(f)
    }
}

} // verus!
