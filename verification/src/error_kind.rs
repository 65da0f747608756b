//! The kinds of errors a script can run into, where they point in the script,
//! and what they tell the user.

use vstd::prelude::*;

use crate::hints::{damerau_levenshtein, damerau_levenshtein_distance};
use crate::pos::{expanded, start_of_script, Range};
use crate::text::{choices, choices_text, decimal, push_char, write_decimal};
use crate::value_type::{kind_name, t2s, kind_names, ValueType};

verus! {

/// The indices `start..end` of an array access.
#[derive(Clone, Copy, Debug, PartialEq, Eq, Structural, Hash)]
pub struct IndexRange {
    pub start: usize,
    pub end: usize,
}

/// Where an error points: the span to show and, inside it, the span to mark.
pub type ErrorLocation = (Option<Range>, Option<Range>);

/// What went wrong.
///
/// Most kinds carry two spans first: the span of the whole expression and the
/// span inside it that went wrong.
#[derive(Clone, Debug, PartialEq, Eq)]
pub enum ErrorKind {
    /// An input or output failure, with the failure's message and its description.
    Io(String, String),
    /// A failure of a grok pattern, with the failure's message and its description.
    Grok(String, String),
    /// Bytes that are not UTF-8, with the failure's message and its description.
    Utf8Error(String, String),
    /// A text that is not an integer, with the failure's message and its description.
    ParseIntError(String, String),
    /// A plain message.
    Msg(String),
    UnrecognizedToken(Range, Range, String, Vec<String>),
    ExtraToken(Range, Range, String),
    InvalidToken(Range, Range),
    EmptyScript,
    TypeConflict(Range, Range, ValueType, Vec<ValueType>),
    Oops(Range),
    BadArity(Range, Range, String, String, usize, usize),
    MissingModule(Range, Range, String, Option<(usize, String)>),
    MissingFunction(Range, Range, String, String, Option<(usize, String)>),
    BadType(Range, Range, String, String, usize),
    RuntimeError(Range, Range, String, String, usize, String),
    UnterminatedExtractor(Range, Range, String),
    UnterminatedStringLiteral(Range, Range, String),
    UnterminatedIdentLiteral(Range, Range, String),
    UnexpectedCharacter(Range, Range, char),
    UnexpectedEscapeCode(Range, Range, String, char),
    InvalidHexLiteral(Range, Range),
    InvalidIntLiteral(Range, Range),
    InvalidFloatLiteral(Range, Range),
    UnexpectedEndOfStream,
    ParserError(String),
    BadAccessInLocal(Range, Range, String),
    BadAccessInGlobal(Range, Range, String),
    BadAccessInEvent(Range, Range, String),
    ArrayOutOfRange(Range, Range, IndexRange),
    AssignIntoArray(Range, Range),
    InvalidAssign(Range, Range),
    InvalidEmit(Range, Range),
    InvalidDrop(Range, Range),
    BinaryEmit(Range, Range),
    BinaryDrop(Range, Range),
    /// An operator, as written in the script, that does not apply to a kind of value.
    InvalidUnary(Range, Range, String, ValueType),
    /// An operator, as written in the script, that does not apply to two kinds of values.
    InvalidBinary(Range, Range, String, ValueType, ValueType),
    InvalidExtractor(Range, Range, String, String, String),
    NoClauseHit(Range),
    MissingEffectors(Range, Range),
    InsertKeyExists(Range, Range, String),
    UpdateKeyMissing(Range, Range, String),
    MergeTypeConflict(Range, Range, String, ValueType),
    OverwritingLocal(Range, Range, String),
    InvalidInfluxData(String),
}

/// Whether the kind can say where it points: kinds that carry one span show it
/// widened by two lines, which must fit a `usize`.
pub open spec fn locatable(k: ErrorKind) -> bool {
    match k {
        ErrorKind::NoClauseHit(e) => e.can_expand(2),
        ErrorKind::Oops(e) => e.can_expand(2),
        _ => true,
    }
}

/// Where a kind of error points.
pub open spec fn context_of(k: ErrorKind) -> ErrorLocation {
    match k {
        ErrorKind::ArrayOutOfRange(e, i, _) => (Some(e), Some(i)),
        ErrorKind::AssignIntoArray(e, i) => (Some(e), Some(i)),
        ErrorKind::BadAccessInEvent(e, i, _) => (Some(e), Some(i)),
        ErrorKind::BadAccessInGlobal(e, i, _) => (Some(e), Some(i)),
        ErrorKind::BadAccessInLocal(e, i, _) => (Some(e), Some(i)),
        ErrorKind::BadArity(e, i, _, _, _, _) => (Some(e), Some(i)),
        ErrorKind::BadType(e, i, _, _, _) => (Some(e), Some(i)),
        ErrorKind::BinaryDrop(e, i) => (Some(e), Some(i)),
        ErrorKind::BinaryEmit(e, i) => (Some(e), Some(i)),
        ErrorKind::ExtraToken(e, i, _) => (Some(e), Some(i)),
        ErrorKind::InsertKeyExists(e, i, _) => (Some(e), Some(i)),
        ErrorKind::InvalidAssign(e, i) => (Some(e), Some(i)),
        ErrorKind::InvalidBinary(e, i, _, _, _) => (Some(e), Some(i)),
        ErrorKind::InvalidDrop(e, i) => (Some(e), Some(i)),
        ErrorKind::InvalidEmit(e, i) => (Some(e), Some(i)),
        ErrorKind::InvalidExtractor(e, i, _, _, _) => (Some(e), Some(i)),
        ErrorKind::InvalidFloatLiteral(e, i) => (Some(e), Some(i)),
        ErrorKind::InvalidHexLiteral(e, i) => (Some(e), Some(i)),
        ErrorKind::InvalidIntLiteral(e, i) => (Some(e), Some(i)),
        ErrorKind::InvalidToken(e, i) => (Some(e), Some(i)),
        ErrorKind::InvalidUnary(e, i, _, _) => (Some(e), Some(i)),
        ErrorKind::MergeTypeConflict(e, i, _, _) => (Some(e), Some(i)),
        ErrorKind::MissingEffectors(e, i) => (Some(e), Some(i)),
        ErrorKind::MissingFunction(e, i, _, _, _) => (Some(e), Some(i)),
        ErrorKind::MissingModule(e, i, _, _) => (Some(e), Some(i)),
        ErrorKind::NoClauseHit(e) => (Some(expanded(e, 2)), Some(e)),
        ErrorKind::Oops(e) => (Some(expanded(e, 2)), Some(e)),
        ErrorKind::OverwritingLocal(e, i, _) => (Some(e), Some(i)),
        ErrorKind::RuntimeError(e, i, _, _, _, _) => (Some(e), Some(i)),
        ErrorKind::TypeConflict(e, i, _, _) => (Some(e), Some(i)),
        ErrorKind::UnexpectedCharacter(e, i, _) => (Some(e), Some(i)),
        ErrorKind::UnexpectedEscapeCode(e, i, _, _) => (Some(e), Some(i)),
        ErrorKind::UnrecognizedToken(e, i, _, _) => (Some(e), Some(i)),
        ErrorKind::UnterminatedExtractor(e, i, _) => (Some(e), Some(i)),
        ErrorKind::UnterminatedIdentLiteral(e, i, _) => (Some(e), Some(i)),
        ErrorKind::UnterminatedStringLiteral(e, i, _) => (Some(e), Some(i)),
        ErrorKind::UpdateKeyMissing(e, i, _) => (Some(e), Some(i)),
        _ => (Some(start_of_script()), None),
    }
}

/// The offending text that a kind of error carries, where it carries one.
pub open spec fn token_of(k: ErrorKind) -> Option<Seq<char>> {
    match k {
        ErrorKind::UnterminatedExtractor(_, _, t) => Some(t@),
        ErrorKind::UnterminatedStringLiteral(_, _, t) => Some(t@),
        ErrorKind::UnterminatedIdentLiteral(_, _, t) => Some(t@),
        ErrorKind::UnexpectedEscapeCode(_, _, s, _) => Some(s@),
        _ => None,
    }
}

pub const SEMICOLON_HINT: &'static str = "It looks like a `;` is missing at the end of the script";

pub const EVENT_HINT: &'static str = "Did you mean to use event?";

pub const TRUNC_HINT: &'static str = "You can use math::trunc() and related functions to ensure numbers are integers.";

pub const RECORD_MODULE_HINT: &'static str = "Did you mean to use the `record` module";

pub const EVENT_KEY_HINT: &'static str = "It looks like you tried to use the key 'event' as parth of a path, consider quoting it as `event` to make it an ident oruse array like acces such as [\"event\"].";

pub const PARENTHESES_HINT: &'static str = "Try wrapping this expression in parentheses `(` ... `)`";

pub const DEFAULT_CLAUSE_HINT: &'static str = "Consider adding a `default => null` clause at the end of your match or validate full coverage beforehand.";

pub const TICKET_HINT: &'static str = "Please take the error output script and idealy data and open a ticket, this should not happen.";

/// The hint that names a suggestion.
pub open spec fn did_you_mean(suggestion: Seq<char>) -> Seq<char> {
    "Did you mean `"@ + suggestion + "`"@
}

/// The hint for a kind of error, where there is one.
pub open spec fn hint_of(k: ErrorKind) -> Option<Seq<char>> {
    match k {
        ErrorKind::UnrecognizedToken(outer, inner, t, l) => {
            if t@.len() == 0 && inner.0.absolute == outer.1.absolute {
                Some(SEMICOLON_HINT@)
            } else if t@ == "event"@ && l.deep_view().contains("`<ident>`"@) {
                Some(EVENT_KEY_HINT@)
            } else if t@ == "-"@ && l.deep_view().contains("`(`"@) {
                Some(PARENTHESES_HINT@)
            } else {
                None
            }
        },
        ErrorKind::BadAccessInLocal(_, _, key) => {
            if damerau_levenshtein_distance(key@, "event"@) <= 2 {
                Some(EVENT_HINT@)
            } else {
                None
            }
        },
        ErrorKind::TypeConflict(_, _, got, expected) => {
            if got == ValueType::F64 && expected@ == seq![ValueType::I64] {
                Some(TRUNC_HINT@)
            } else {
                None
            }
        },
        ErrorKind::MissingModule(_, _, m, suggestion) => {
            if m@ == "object"@ {
                Some(RECORD_MODULE_HINT@)
            } else {
                match suggestion {
                    Some((_, s)) => Some(did_you_mean(s@)),
                    None => None,
                }
            }
        },
        ErrorKind::MissingFunction(_, _, _, _, suggestion) => match suggestion {
            Some((_, s)) => Some(did_you_mean(s@)),
            None => None,
        },
        ErrorKind::NoClauseHit(_) => Some(DEFAULT_CLAUSE_HINT@),
        ErrorKind::Oops(_) => Some(TICKET_HINT@),
        _ => None,
    }
}

/// How a message writes the indices of an array access: the index itself, or `start..end`.
pub open spec fn index_text(r: IndexRange) -> Seq<char> {
    if r.start == r.end {
        decimal(r.start as nat)
    } else {
        decimal(r.start as nat) + ".."@ + decimal(r.end as nat)
    }
}

/// The message that a kind of error shows the user.
pub open spec fn message_of(k: ErrorKind) -> Seq<char> {
    match k {
        ErrorKind::Io(m, _) => m@,
        ErrorKind::Grok(m, _) => m@,
        ErrorKind::Utf8Error(m, _) => m@,
        ErrorKind::ParseIntError(m, _) => m@,
        ErrorKind::Msg(m) => m@,
        ErrorKind::UnrecognizedToken(_, _, token, expected) => "Found the token `"@ + token@
            + "` but expected "@ + choices_text(expected.deep_view()),
        ErrorKind::ExtraToken(_, _, token) => "Found an extra token: `"@ + token@
            + "` that does not belong there"@,
        ErrorKind::InvalidToken(_, _) => "Invalid token"@,
        ErrorKind::EmptyScript => "No expressions were found in the script"@,
        ErrorKind::TypeConflict(_, _, got, expected) => "Conflicting types, got "@ + kind_name(got)
            + " but expected "@ + choices_text(
            expected@.map_values(|t: ValueType| kind_name(t)),
        ),
        ErrorKind::Oops(_) => "Something went wrong and we're not sure what it was"@,
        ErrorKind::BadArity(_, _, m, f, a, calling_a) => "Bad arity for function "@ + m@ + "::"@
            + f@ + "/"@ + decimal(a as nat) + " but was called with "@ + decimal(calling_a as nat)
            + " arguments"@,
        ErrorKind::MissingModule(_, _, m, _) => "Call to undefined module "@ + m@,
        ErrorKind::MissingFunction(_, _, m, f, _) => "Call to undefined function "@ + m@ + "::"@
            + f@,
        ErrorKind::BadType(_, _, m, f, a) => "Bad type passed to function "@ + m@ + "::"@ + f@
            + "/"@ + decimal(a as nat),
        ErrorKind::RuntimeError(_, _, m, f, a, c) => "Runtime error in function "@ + m@ + "::"@
            + f@ + "/"@ + decimal(a as nat) + ": "@ + c@,
        ErrorKind::UnterminatedExtractor(_, _, _) =>
            "It looks like you forgot to terminate an extractor"@,
        ErrorKind::UnterminatedStringLiteral(_, _, _) =>
            "It looks like you forgot to terminate a string"@,
        ErrorKind::UnterminatedIdentLiteral(_, _, _) =>
            "It looks like you forgot to terminate an ident"@,
        ErrorKind::UnexpectedCharacter(_, _, found) => "An unexpected character '"@ + seq![found]
            + "' was found"@,
        ErrorKind::UnexpectedEscapeCode(_, _, _, found) => "An unexpected escape code '"@
            + seq![found] + "' was found"@,
        ErrorKind::InvalidHexLiteral(_, _) => "An invalid hexadecimal"@,
        ErrorKind::InvalidIntLiteral(_, _) => "An invalid integer literal"@,
        ErrorKind::InvalidFloatLiteral(_, _) => "An invalid float literal"@,
        ErrorKind::UnexpectedEndOfStream => "An unexpected end of stream was found"@,
        ErrorKind::ParserError(pos) => "Parser user error: "@ + pos@,
        ErrorKind::BadAccessInLocal(_, _, key) => "Trying to access a non existing local key `"@
            + key@ + "`"@,
        ErrorKind::BadAccessInGlobal(_, _, key) => "Trying to access a non existing global key `"@
            + key@ + "`"@,
        ErrorKind::BadAccessInEvent(_, _, key) => "Trying to access a non existing event key `"@
            + key@ + "`"@,
        ErrorKind::ArrayOutOfRange(_, _, r) => "Trying to access an index that is out of range "@
            + index_text(r),
        ErrorKind::AssignIntoArray(_, _) => "It is not supported to assign value into an array"@,
        ErrorKind::InvalidAssign(_, _) => "You are trying to assing to a value that isn't valid"@,
        ErrorKind::InvalidEmit(_, _) => "Can not emit from this location"@,
        ErrorKind::InvalidDrop(_, _) => "Can not drop from this location"@,
        ErrorKind::BinaryEmit(_, _) => BINARY_EMIT_MESSAGE@,
        ErrorKind::BinaryDrop(_, _) => BINARY_DROP_MESSAGE@,
        ErrorKind::InvalidUnary(_, _, op, val) => "The unary operation operation `"@ + op@
            + "` is not defined for the type `"@ + kind_name(val) + "`"@,
        ErrorKind::InvalidBinary(_, _, op, left, right) => "The binary operation operation `"@
            + op@ + "` is not defined for the type `"@ + kind_name(left) + "` and `"@ + kind_name(
            right,
        ) + "`"@,
        ErrorKind::InvalidExtractor(_, _, _, _, error) => "Invalid tilde predicate pattern: "@
            + error@,
        ErrorKind::NoClauseHit(_) => "A match expression executed bu no clause matched"@,
        ErrorKind::MissingEffectors(_, _) => "The clause is missing a body"@,
        ErrorKind::InsertKeyExists(_, _, key) =>
            "The key that is suposed to be inserted already exists: "@ + key@,
        ErrorKind::UpdateKeyMissing(_, _, key) =>
            "The key that is suposed to be updated does not exists: "@ + key@,
        ErrorKind::MergeTypeConflict(_, _, key, val) => MERGE_MESSAGE@ + key@ + "' has the type "@
            + kind_name(val),
        ErrorKind::OverwritingLocal(_, _, val) => "Trying to overwrite the local variable `"@
            + val@ + "` in a comprehension case"@,
        ErrorKind::InvalidInfluxData(s) => "Invalid Influx Line Protocol data: "@ + s@,
    }
}

pub const BINARY_EMIT_MESSAGE: &'static str = "The expression can be read as a binary expression, please put the value you wan to emit in parentheses.";

pub const BINARY_DROP_MESSAGE: &'static str = "The expression can be read as a binary expression, please put the value you wan to drop in parentheses.";

pub const MERGE_MESSAGE: &'static str = "Merge can only be performed on keys that either do not exist or are records but the key '";

/// The short description of a kind of error; failures from outside scripts carry
/// their own description, and a plain message describes itself.
pub open spec fn description_of(k: ErrorKind) -> Seq<char> {
    match k {
        ErrorKind::Io(_, d) => d@,
        ErrorKind::Grok(_, d) => d@,
        ErrorKind::Utf8Error(_, d) => d@,
        ErrorKind::ParseIntError(_, d) => d@,
        ErrorKind::Msg(m) => m@,
        ErrorKind::UnrecognizedToken(..) => "Unrecognized token"@,
        ErrorKind::ExtraToken(..) => "Extra token"@,
        ErrorKind::InvalidToken(..) => "Invalid token"@,
        ErrorKind::EmptyScript => "No expressions were found in the script"@,
        ErrorKind::TypeConflict(..) => "Conflicting types"@,
        ErrorKind::Oops(..) => "Something went wrong and we're not sure what it was"@,
        ErrorKind::BadArity(..) => "Bad arity for function"@,
        ErrorKind::MissingModule(..) => "Call to undefined module"@,
        ErrorKind::MissingFunction(..) => "Call to undefined function"@,
        ErrorKind::BadType(..) => "Bad type passed to function"@,
        ErrorKind::RuntimeError(..) => "Runtime error in function"@,
        ErrorKind::UnterminatedExtractor(..) => "Unterminated extractor"@,
        ErrorKind::UnterminatedStringLiteral(..) => "Unterminated string"@,
        ErrorKind::UnterminatedIdentLiteral(..) => "Unterminated ident"@,
        ErrorKind::UnexpectedCharacter(..) => "An unexpected character was found"@,
        ErrorKind::UnexpectedEscapeCode(..) => "An unexpected escape code was found"@,
        ErrorKind::InvalidHexLiteral(..) => "An invalid hexadecimal"@,
        ErrorKind::InvalidIntLiteral(..) => "An invalid integer literal"@,
        ErrorKind::InvalidFloatLiteral(..) => "An invalid float literal"@,
        ErrorKind::UnexpectedEndOfStream => "An unexpected end of stream was found"@,
        ErrorKind::ParserError(..) => "Parser user error"@,
        ErrorKind::BadAccessInLocal(..) => "Trying to access a non existing local key"@,
        ErrorKind::BadAccessInGlobal(..) => "Trying to access a non existing global key"@,
        ErrorKind::BadAccessInEvent(..) => "Trying to access a non existing event key"@,
        ErrorKind::ArrayOutOfRange(..) => "Trying to access an index that is out of range"@,
        ErrorKind::AssignIntoArray(..) => "Can not assign tinto a array"@,
        ErrorKind::InvalidAssign(..) => "You can not assign that"@,
        ErrorKind::InvalidEmit(..) => "Can not emit from this location"@,
        ErrorKind::InvalidDrop(..) => "Can not drop from this location"@,
        ErrorKind::BinaryEmit(..) => "Please enclose the value you want to emit"@,
        ErrorKind::BinaryDrop(..) => "Please enclose the value you want to rop"@,
        ErrorKind::InvalidUnary(..) => "Invalid ynary operation"@,
        ErrorKind::InvalidBinary(..) => "Invalid ynary operation"@,
        ErrorKind::InvalidExtractor(..) => "Invalid tilde predicate pattern"@,
        ErrorKind::NoClauseHit(..) => "A match expression executed bu no clause matched"@,
        ErrorKind::MissingEffectors(..) => "The clause has no effectors"@,
        ErrorKind::InsertKeyExists(..) => "The key that is suposed to be inserted already exists"@,
        ErrorKind::UpdateKeyMissing(..) => "The key that is suposed to be updated does not exists"@,
        ErrorKind::MergeTypeConflict(..) => "Merge can only be performed on keys that either do not exist or are records"@,
        ErrorKind::OverwritingLocal(..) => "Trying to overwrite a local variable in a comprehension case"@,
        ErrorKind::InvalidInfluxData(..) => "Invalid Influx Line Protocol data"@,
    }
}

/// Whether `s` is `t`.
fn same_text(s: &String, t: &str) -> (r: bool)
    ensures
        r == (s@ == t@),
{
    let t = String::from_str(t);
    *s == t
}

/// Whether `list` holds the text `t`.
fn lists(list: &Vec<String>, t: &str) -> (r: bool)
    ensures
        r == list.deep_view().contains(t@),
{
    let mut i: usize = 0;
    while i < list.len()
        invariant
            i <= list@.len(),
            forall|j: int| 0 <= j < i ==> list@[j]@ != t@,
        decreases list@.len() - i,
    {
        if same_text(&list[i], t) {
            assert(list.deep_view()[i as int] == t@);
            return true;
        }
        i = i + 1;
    }
    assert forall|j: int| 0 <= j < list.deep_view().len() implies list.deep_view()[j] != t@ by {
        assert(list.deep_view()[j] == list@[j]@);
    }
    false
}

impl ErrorKind {
    /// Where the error points: the span to show and the span to mark in it.
    /// Kinds that carry a single span show it widened by two lines; kinds that
    /// carry none point at the start of the script and mark nothing.
    pub fn expr(&self) -> (r: ErrorLocation)
        requires
            locatable(*self),
        ensures
            r == context_of(*self),
    {
        match self {
            ErrorKind::ArrayOutOfRange(e, i, _) => (Some(*e), Some(*i)),
            ErrorKind::AssignIntoArray(e, i) => (Some(*e), Some(*i)),
            ErrorKind::BadAccessInEvent(e, i, _) => (Some(*e), Some(*i)),
            ErrorKind::BadAccessInGlobal(e, i, _) => (Some(*e), Some(*i)),
            ErrorKind::BadAccessInLocal(e, i, _) => (Some(*e), Some(*i)),
            ErrorKind::BadArity(e, i, _, _, _, _) => (Some(*e), Some(*i)),
            ErrorKind::BadType(e, i, _, _, _) => (Some(*e), Some(*i)),
            ErrorKind::BinaryDrop(e, i) => (Some(*e), Some(*i)),
            ErrorKind::BinaryEmit(e, i) => (Some(*e), Some(*i)),
            ErrorKind::ExtraToken(e, i, _) => (Some(*e), Some(*i)),
            ErrorKind::InsertKeyExists(e, i, _) => (Some(*e), Some(*i)),
            ErrorKind::InvalidAssign(e, i) => (Some(*e), Some(*i)),
            ErrorKind::InvalidBinary(e, i, _, _, _) => (Some(*e), Some(*i)),
            ErrorKind::InvalidDrop(e, i) => (Some(*e), Some(*i)),
            ErrorKind::InvalidEmit(e, i) => (Some(*e), Some(*i)),
            ErrorKind::InvalidExtractor(e, i, _, _, _) => (Some(*e), Some(*i)),
            ErrorKind::InvalidFloatLiteral(e, i) => (Some(*e), Some(*i)),
            ErrorKind::InvalidHexLiteral(e, i) => (Some(*e), Some(*i)),
            ErrorKind::InvalidIntLiteral(e, i) => (Some(*e), Some(*i)),
            ErrorKind::InvalidToken(e, i) => (Some(*e), Some(*i)),
            ErrorKind::InvalidUnary(e, i, _, _) => (Some(*e), Some(*i)),
            ErrorKind::MergeTypeConflict(e, i, _, _) => (Some(*e), Some(*i)),
            ErrorKind::MissingEffectors(e, i) => (Some(*e), Some(*i)),
            ErrorKind::MissingFunction(e, i, _, _, _) => (Some(*e), Some(*i)),
            ErrorKind::MissingModule(e, i, _, _) => (Some(*e), Some(*i)),
            ErrorKind::NoClauseHit(e) => (Some(e.expand_lines(2)), Some(*e)),
            ErrorKind::Oops(e) => (Some(e.expand_lines(2)), Some(*e)),
            ErrorKind::OverwritingLocal(e, i, _) => (Some(*e), Some(*i)),
            ErrorKind::RuntimeError(e, i, _, _, _, _) => (Some(*e), Some(*i)),
            ErrorKind::TypeConflict(e, i, _, _) => (Some(*e), Some(*i)),
            ErrorKind::UnexpectedCharacter(e, i, _) => (Some(*e), Some(*i)),
            ErrorKind::UnexpectedEscapeCode(e, i, _, _) => (Some(*e), Some(*i)),
            ErrorKind::UnrecognizedToken(e, i, _, _) => (Some(*e), Some(*i)),
            ErrorKind::UnterminatedExtractor(e, i, _) => (Some(*e), Some(*i)),
            ErrorKind::UnterminatedIdentLiteral(e, i, _) => (Some(*e), Some(*i)),
            ErrorKind::UnterminatedStringLiteral(e, i, _) => (Some(*e), Some(*i)),
            ErrorKind::UpdateKeyMissing(e, i, _) => (Some(*e), Some(*i)),
            ErrorKind::EmptyScript
            | ErrorKind::Grok(..)
            | ErrorKind::InvalidInfluxData(_)
            | ErrorKind::Io(..)
            | ErrorKind::Msg(_)
            | ErrorKind::ParseIntError(..)
            | ErrorKind::ParserError(_)
            | ErrorKind::UnexpectedEndOfStream
            | ErrorKind::Utf8Error(..) => (Some(Range::default()), None),
        }
    }

    /// The offending text: that of an unterminated extractor, string or ident,
    /// or of an unexpected escape code.
    pub fn token(&self) -> (r: Option<String>)
        ensures
            r.deep_view() == token_of(*self),
    {
        match self {
            ErrorKind::UnterminatedExtractor(_, _, t) => Some(t.clone()),
            ErrorKind::UnterminatedStringLiteral(_, _, t) => Some(t.clone()),
            ErrorKind::UnterminatedIdentLiteral(_, _, t) => Some(t.clone()),
            ErrorKind::UnexpectedEscapeCode(_, _, s, _) => Some(s.clone()),
            _ => None,
        }
    }

    /// A hint on how to fix the error, where there is one.
    pub fn hint(&self) -> (r: Option<String>)
        ensures
            r.deep_view() == hint_of(*self),
    {
        match self {
            ErrorKind::UnrecognizedToken(outer, inner, t, l) => {
                if t.as_str().is_empty() && inner.0.absolute == outer.1.absolute {
                    Some(String::from_str(SEMICOLON_HINT))
                } else if same_text(t, "event") && lists(l, "`<ident>`") {
                    Some(String::from_str(EVENT_KEY_HINT))
                } else if same_text(t, "-") && lists(l, "`(`") {
                    Some(String::from_str(PARENTHESES_HINT))
                } else {
                    None
                }
            },
            ErrorKind::BadAccessInLocal(_, _, key) => {
                if damerau_levenshtein(key.as_str(), "event") <= 2 {
                    Some(String::from_str(EVENT_HINT))
                } else {
                    None
                }
            },
            ErrorKind::TypeConflict(_, _, got, expected) => {
                if *got == ValueType::F64 && expected.len() == 1 && expected[0] == ValueType::I64 {
                    assert(expected@ =~= seq![ValueType::I64]);
                    Some(String::from_str(TRUNC_HINT))
                } else {
                    assert(*got == ValueType::F64 && expected@.len() == 1 ==> expected@[0]
                        != ValueType::I64);
                    None
                }
            },
            ErrorKind::MissingModule(_, _, m, suggestion) => {
                if same_text(m, "object") {
                    Some(String::from_str(RECORD_MODULE_HINT))
                } else {
                    match suggestion {
                        Some((_, s)) => Some(did_you_mean_text(s)),
                        None => None,
                    }
                }
            },
            ErrorKind::MissingFunction(_, _, _, _, suggestion) => match suggestion {
                Some((_, s)) => Some(did_you_mean_text(s)),
                None => None,
            },
            ErrorKind::NoClauseHit(_) => Some(String::from_str(DEFAULT_CLAUSE_HINT)),
            ErrorKind::Oops(_) => Some(String::from_str(TICKET_HINT)),
            _ => None,
        }
    }

    /// The message the error shows the user.
    pub fn message(&self) -> (r: String)
        ensures
            r@ == message_of(*self),
    {
        match self {
            ErrorKind::Io(m, _) => m.clone(),
            ErrorKind::Grok(m, _) => m.clone(),
            ErrorKind::Utf8Error(m, _) => m.clone(),
            ErrorKind::ParseIntError(m, _) => m.clone(),
            ErrorKind::Msg(m) => m.clone(),
            ErrorKind::UnrecognizedToken(_, _, token, expected) => {
                let mut s = String::from_str("Found the token `");
                s.append(token.as_str());
                s.append("` but expected ");
                let listed = choices(expected.as_slice());
                s.append(listed.as_str());
                s
            },
            ErrorKind::ExtraToken(_, _, token) => {
                let mut s = String::from_str("Found an extra token: `");
                s.append(token.as_str());
                s.append("` that does not belong there");
                s
            },
            ErrorKind::InvalidToken(_, _) => String::from_str("Invalid token"),
            ErrorKind::EmptyScript => String::from_str("No expressions were found in the script"),
            ErrorKind::TypeConflict(_, _, got, expected) => {
                let mut s = String::from_str("Conflicting types, got ");
                s.append(t2s(*got));
                s.append(" but expected ");
                let names = kind_names(expected);
                let listed = choices(names.as_slice());
                s.append(listed.as_str());
                s
            },
            ErrorKind::Oops(_) => String::from_str(
                "Something went wrong and we're not sure what it was",
            ),
            ErrorKind::BadArity(_, _, m, f, a, calling_a) => {
                let mut s = String::from_str("Bad arity for function ");
                s.append(m.as_str());
                s.append("::");
                s.append(f.as_str());
                s.append("/");
                write_decimal(&mut s, *a);
                s.append(" but was called with ");
                write_decimal(&mut s, *calling_a);
                s.append(" arguments");
                s
            },
            ErrorKind::MissingModule(_, _, m, _) => {
                let mut s = String::from_str("Call to undefined module ");
                s.append(m.as_str());
                s
            },
            ErrorKind::MissingFunction(_, _, m, f, _) => {
                let mut s = String::from_str("Call to undefined function ");
                s.append(m.as_str());
                s.append("::");
                s.append(f.as_str());
                s
            },
            ErrorKind::BadType(_, _, m, f, a) => {
                let mut s = String::from_str("Bad type passed to function ");
                s.append(m.as_str());
                s.append("::");
                s.append(f.as_str());
                s.append("/");
                write_decimal(&mut s, *a);
                s
            },
            ErrorKind::RuntimeError(_, _, m, f, a, c) => {
                let mut s = String::from_str("Runtime error in function ");
                s.append(m.as_str());
                s.append("::");
                s.append(f.as_str());
                s.append("/");
                write_decimal(&mut s, *a);
                s.append(": ");
                s.append(c.as_str());
                s
            },
            ErrorKind::UnterminatedExtractor(_, _, _) => String::from_str(
                "It looks like you forgot to terminate an extractor",
            ),
            ErrorKind::UnterminatedStringLiteral(_, _, _) => String::from_str(
                "It looks like you forgot to terminate a string",
            ),
            ErrorKind::UnterminatedIdentLiteral(_, _, _) => String::from_str(
                "It looks like you forgot to terminate an ident",
            ),
            ErrorKind::UnexpectedCharacter(_, _, found) => {
                let mut s = String::from_str("An unexpected character '");
                push_char(&mut s, *found);
                s.append("' was found");
                s
            },
            ErrorKind::UnexpectedEscapeCode(_, _, _, found) => {
                let mut s = String::from_str("An unexpected escape code '");
                push_char(&mut s, *found);
                s.append("' was found");
                s
            },
            ErrorKind::InvalidHexLiteral(_, _) => String::from_str("An invalid hexadecimal"),
            ErrorKind::InvalidIntLiteral(_, _) => String::from_str("An invalid integer literal"),
            ErrorKind::InvalidFloatLiteral(_, _) => String::from_str("An invalid float literal"),
            ErrorKind::UnexpectedEndOfStream => String::from_str(
                "An unexpected end of stream was found",
            ),
            ErrorKind::ParserError(pos) => {
                let mut s = String::from_str("Parser user error: ");
                s.append(pos.as_str());
                s
            },
            ErrorKind::BadAccessInLocal(_, _, key) => {
                let mut s = String::from_str("Trying to access a non existing local key `");
                s.append(key.as_str());
                s.append("`");
                s
            },
            ErrorKind::BadAccessInGlobal(_, _, key) => {
                let mut s = String::from_str("Trying to access a non existing global key `");
                s.append(key.as_str());
                s.append("`");
                s
            },
            ErrorKind::BadAccessInEvent(_, _, key) => {
                let mut s = String::from_str("Trying to access a non existing event key `");
                s.append(key.as_str());
                s.append("`");
                s
            },
            ErrorKind::ArrayOutOfRange(_, _, r) => {
                let mut s = String::from_str("Trying to access an index that is out of range ");
                write_decimal(&mut s, r.start);
                if r.start != r.end {
                    s.append("..");
                    write_decimal(&mut s, r.end);
                }
                s
            },
            ErrorKind::AssignIntoArray(_, _) => String::from_str(
                "It is not supported to assign value into an array",
            ),
            ErrorKind::InvalidAssign(_, _) => String::from_str(
                "You are trying to assing to a value that isn't valid",
            ),
            ErrorKind::InvalidEmit(_, _) => String::from_str("Can not emit from this location"),
            ErrorKind::InvalidDrop(_, _) => String::from_str("Can not drop from this location"),
            ErrorKind::BinaryEmit(_, _) => String::from_str(BINARY_EMIT_MESSAGE),
            ErrorKind::BinaryDrop(_, _) => String::from_str(BINARY_DROP_MESSAGE),
            ErrorKind::InvalidUnary(_, _, op, val) => {
                let mut s = String::from_str("The unary operation operation `");
                s.append(op.as_str());
                s.append("` is not defined for the type `");
                s.append(t2s(*val));
                s.append("`");
                s
            },
            ErrorKind::InvalidBinary(_, _, op, left, right) => {
                let mut s = String::from_str("The binary operation operation `");
                s.append(op.as_str());
                s.append("` is not defined for the type `");
                s.append(t2s(*left));
                s.append("` and `");
                s.append(t2s(*right));
                s.append("`");
                s
            },
            ErrorKind::InvalidExtractor(_, _, _, _, error) => {
                let mut s = String::from_str("Invalid tilde predicate pattern: ");
                s.append(error.as_str());
                s
            },
            ErrorKind::NoClauseHit(_) => String::from_str(
                "A match expression executed bu no clause matched",
            ),
            ErrorKind::MissingEffectors(_, _) => String::from_str("The clause is missing a body"),
            ErrorKind::InsertKeyExists(_, _, key) => {
                let mut s = String::from_str(
                    "The key that is suposed to be inserted already exists: ",
                );
                s.append(key.as_str());
                s
            },
            ErrorKind::UpdateKeyMissing(_, _, key) => {
                let mut s = String::from_str(
                    "The key that is suposed to be updated does not exists: ",
                );
                s.append(key.as_str());
                s
            },
            ErrorKind::MergeTypeConflict(_, _, key, val) => {
                let mut s = String::from_str(MERGE_MESSAGE);
                s.append(key.as_str());
                s.append("' has the type ");
                s.append(t2s(*val));
                s
            },
            ErrorKind::OverwritingLocal(_, _, val) => {
                let mut s = String::from_str("Trying to overwrite the local variable `");
                s.append(val.as_str());
                s.append("` in a comprehension case");
                s
            },
            ErrorKind::InvalidInfluxData(d) => {
                let mut s = String::from_str("Invalid Influx Line Protocol data: ");
                s.append(d.as_str());
                s
            },
        }
    }

    /// The short description of the error.
    pub fn description(&self) -> (r: &str)
        ensures
            r@ == description_of(*self),
    {
        match self {
            ErrorKind::Io(_, d) => d.as_str(),
            ErrorKind::Grok(_, d) => d.as_str(),
            ErrorKind::Utf8Error(_, d) => d.as_str(),
            ErrorKind::ParseIntError(_, d) => d.as_str(),
            ErrorKind::Msg(m) => m.as_str(),
            ErrorKind::UnrecognizedToken(..) => "Unrecognized token",
            ErrorKind::ExtraToken(..) => "Extra token",
            ErrorKind::InvalidToken(..) => "Invalid token",
            ErrorKind::EmptyScript => "No expressions were found in the script",
            ErrorKind::TypeConflict(..) => "Conflicting types",
            ErrorKind::Oops(..) => "Something went wrong and we're not sure what it was",
            ErrorKind::BadArity(..) => "Bad arity for function",
            ErrorKind::MissingModule(..) => "Call to undefined module",
            ErrorKind::MissingFunction(..) => "Call to undefined function",
            ErrorKind::BadType(..) => "Bad type passed to function",
            ErrorKind::RuntimeError(..) => "Runtime error in function",
            ErrorKind::UnterminatedExtractor(..) => "Unterminated extractor",
            ErrorKind::UnterminatedStringLiteral(..) => "Unterminated string",
            ErrorKind::UnterminatedIdentLiteral(..) => "Unterminated ident",
            ErrorKind::UnexpectedCharacter(..) => "An unexpected character was found",
            ErrorKind::UnexpectedEscapeCode(..) => "An unexpected escape code was found",
            ErrorKind::InvalidHexLiteral(..) => "An invalid hexadecimal",
            ErrorKind::InvalidIntLiteral(..) => "An invalid integer literal",
            ErrorKind::InvalidFloatLiteral(..) => "An invalid float literal",
            ErrorKind::UnexpectedEndOfStream => "An unexpected end of stream was found",
            ErrorKind::ParserError(..) => "Parser user error",
            ErrorKind::BadAccessInLocal(..) => "Trying to access a non existing local key",
            ErrorKind::BadAccessInGlobal(..) => "Trying to access a non existing global key",
            ErrorKind::BadAccessInEvent(..) => "Trying to access a non existing event key",
            ErrorKind::ArrayOutOfRange(..) => "Trying to access an index that is out of range",
            ErrorKind::AssignIntoArray(..) => "Can not assign tinto a array",
            ErrorKind::InvalidAssign(..) => "You can not assign that",
            ErrorKind::InvalidEmit(..) => "Can not emit from this location",
            ErrorKind::InvalidDrop(..) => "Can not drop from this location",
            ErrorKind::BinaryEmit(..) => "Please enclose the value you want to emit",
            ErrorKind::BinaryDrop(..) => "Please enclose the value you want to rop",
            ErrorKind::InvalidUnary(..) => "Invalid ynary operation",
            ErrorKind::InvalidBinary(..) => "Invalid ynary operation",
            ErrorKind::InvalidExtractor(..) => "Invalid tilde predicate pattern",
            ErrorKind::NoClauseHit(..) => "A match expression executed bu no clause matched",
            ErrorKind::MissingEffectors(..) => "The clause has no effectors",
            ErrorKind::InsertKeyExists(..) => "The key that is suposed to be inserted already exists",
            ErrorKind::UpdateKeyMissing(..) => "The key that is suposed to be updated does not exists",
            ErrorKind::MergeTypeConflict(..) => "Merge can only be performed on keys that either do not exist or are records",
            ErrorKind::OverwritingLocal(..) => "Trying to overwrite a local variable in a comprehension case",
            ErrorKind::InvalidInfluxData(..) => "Invalid Influx Line Protocol data",
        }
    }
}

fn did_you_mean_text(s: &String) -> (r: String)
    ensures
        r@ == did_you_mean(s@),
{
    let mut out = String::from_str("Did you mean `");
    out.append(s.as_str());
    out.append("`");
    out
}

} // verus!
