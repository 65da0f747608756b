use lalrpop_util::ParseError;
use tremor_script::error::Error;
use tremor_script::error_kind::{ErrorKind, IndexRange};
use tremor_script::expr::{Expr, Path};
use tremor_script::hints::{best_hint, closest_option};
use tremor_script::parse_error::ParserFailure;
use tremor_script::pos::{Location, Range};
use tremor_script::text::{choices, join, replace_quotes, write_decimal};
use tremor_script::value_type::{t2s, ValueType};

fn loc(line: usize, column: usize, absolute: usize) -> Location {
    Location::new(line, column, absolute)
}

fn span(a: (usize, usize, usize), b: (usize, usize, usize)) -> Range {
    Range(loc(a.0, a.1, a.2), loc(b.0, b.1, b.2))
}

fn strings(items: &[&str]) -> Vec<String> {
    items.iter().map(|s| s.to_string()).collect()
}

fn outer() -> Range {
    span((1, 1, 0), (3, 5, 30))
}

fn inner() -> Range {
    span((2, 3, 12), (2, 8, 17))
}

#[test]
fn kind_names_call_objects_records() {
    assert_eq!(t2s(ValueType::Null), "null");
    assert_eq!(t2s(ValueType::Bool), "boolean");
    assert_eq!(t2s(ValueType::String), "string");
    assert_eq!(t2s(ValueType::I64), "integer");
    assert_eq!(t2s(ValueType::F64), "float");
    assert_eq!(t2s(ValueType::Array), "array");
    assert_eq!(t2s(ValueType::Object), "record");
}

#[test]
fn choices_name_a_single_choice_itself() {
    assert_eq!(choices(&strings(&["`;`"])), "`;`");
}

#[test]
fn choices_list_several_choices() {
    assert_eq!(choices(&strings(&["`;`", "`,`", "`)`"])), "one of `;`, `,`, `)`");
    assert_eq!(choices(&strings(&[])), "one of ");
}

#[test]
fn join_puts_the_separator_between_items() {
    assert_eq!(join(&strings(&["a", "b", "c"]), "--"), "a--b--c");
    assert_eq!(join(&strings(&["a"]), "--"), "a");
    assert_eq!(join(&strings(&[]), "--"), "");
}

#[test]
fn decimals_are_written_without_leading_zeros() {
    let mut s = String::from("n=");
    write_decimal(&mut s, 0);
    assert_eq!(s, "n=0");
    let mut s = String::new();
    write_decimal(&mut s, 1203);
    assert_eq!(s, "1203");
    let mut s = String::new();
    write_decimal(&mut s, usize::MAX);
    assert_eq!(s, usize::MAX.to_string());
}

#[test]
fn quotes_become_backticks() {
    assert_eq!(replace_quotes(&"\"event\"".to_string()), "`event`");
    assert_eq!(replace_quotes(&"é\"ü".to_string()), "é`ü");
    assert_eq!(replace_quotes(&"plain".to_string()), "plain");
}

#[test]
fn best_hint_measures_transpositions_as_one_edit() {
    let options = strings(&["hannha", "hxnnxh"]);
    assert_eq!(best_hint("hannah", &options, 1), Some((1, "hannha".to_string())));
    assert_eq!(best_hint("FOO", &strings(&["BOR"]), 2), Some((2, "BOR".to_string())));
    assert_eq!(best_hint("FOO", &strings(&["BOR"]), 1), None);
}

#[test]
fn best_hint_picks_the_closest_option() {
    let options = strings(&["meta", "event", "eve"]);
    assert_eq!(best_hint("evnt", &options, 2), Some((1, "event".to_string())));
}

#[test]
fn best_hint_breaks_ties_by_order_of_text() {
    let options = strings(&["ab", "aa", "ac"]);
    assert_eq!(best_hint("a", &options, 1), Some((1, "aa".to_string())));
}

#[test]
fn best_hint_gives_nothing_when_all_are_far() {
    let options = strings(&["record", "string"]);
    assert_eq!(best_hint("x", &options, 2), None);
    assert_eq!(best_hint("x", &[], 2), None);
}

#[test]
fn positional_errors_point_at_both_spans() {
    let k = ErrorKind::BadAccessInGlobal(outer(), inner(), "k".to_string());
    assert_eq!(k.expr(), (Some(outer()), Some(inner())));
    let e = Error::from_kind(k);
    assert_eq!(e.context(), (Some(outer()), Some(inner())));
}

#[test]
fn single_span_errors_show_two_more_lines() {
    let r = span((1, 4, 10), (5, 2, 60));
    let shown = span((0, 4, 10), (7, 2, 60));
    assert_eq!(ErrorKind::NoClauseHit(r).expr(), (Some(shown), Some(r)));
    assert_eq!(ErrorKind::Oops(r).expr(), (Some(shown), Some(r)));
}

#[test]
fn errors_without_spans_point_at_the_start() {
    let start = Range::default();
    assert_eq!(start, span((0, 0, 0), (0, 0, 0)));
    assert_eq!(ErrorKind::EmptyScript.expr(), (Some(start), None));
    assert_eq!(ErrorKind::Msg("m".to_string()).expr(), (Some(start), None));
    assert_eq!(ErrorKind::Io("disk full".to_string(), "io".to_string()).expr(), (Some(start), None));
}

#[test]
fn expanding_lines_stops_at_the_top() {
    let r = span((1, 1, 0), (1, 9, 8));
    assert_eq!(r.expand_lines(2), span((0, 1, 0), (3, 9, 8)));
    assert_eq!(loc(7, 2, 3).move_up_lines(2), loc(5, 2, 3));
    assert_eq!(loc(7, 2, 3).move_down_lines(2), loc(9, 2, 3));
}

#[test]
fn tokens_of_unterminated_literals() {
    let k = ErrorKind::UnterminatedStringLiteral(outer(), inner(), "\"abc".to_string());
    assert_eq!(k.token(), Some("\"abc".to_string()));
    let k = ErrorKind::UnexpectedEscapeCode(outer(), inner(), "\\q".to_string(), 'q');
    assert_eq!(Error::from_kind(k).token(), Some("\\q".to_string()));
    assert_eq!(ErrorKind::EmptyScript.token(), None);
}

#[test]
fn hint_for_a_missing_semicolon() {
    let o = span((1, 1, 0), (1, 10, 9));
    let i = span((1, 10, 9), (1, 10, 9));
    let k = ErrorKind::UnrecognizedToken(o, i, "".to_string(), strings(&["`;`"]));
    assert_eq!(
        k.hint(),
        Some("It looks like a `;` is missing at the end of the script".to_string())
    );
    let i2 = span((1, 5, 4), (1, 6, 5));
    let k = ErrorKind::UnrecognizedToken(o, i2, "".to_string(), strings(&["`;`"]));
    assert_eq!(k.hint(), None);
}

#[test]
fn hint_for_event_used_as_a_key() {
    let k = ErrorKind::UnrecognizedToken(
        outer(),
        inner(),
        "event".to_string(),
        strings(&["`(`", "`<ident>`"]),
    );
    assert_eq!(k.hint(), Some("It looks like you tried to use the key 'event' as parth of a path, consider quoting it as `event` to make it an ident oruse array like acces such as [\"event\"].".to_string()));
}

#[test]
fn hint_for_a_minus_that_needs_parentheses() {
    let k = ErrorKind::UnrecognizedToken(outer(), inner(), "-".to_string(), strings(&["`(`"]));
    assert_eq!(
        k.hint(),
        Some("Try wrapping this expression in parentheses `(` ... `)`".to_string())
    );
    let k = ErrorKind::UnrecognizedToken(outer(), inner(), "-".to_string(), strings(&["`[`"]));
    assert_eq!(k.hint(), None);
}

#[test]
fn hint_for_a_local_that_looks_like_event() {
    let k = ErrorKind::BadAccessInLocal(outer(), inner(), "evnet".to_string());
    assert_eq!(k.hint(), Some("Did you mean to use event?".to_string()));
    let k = ErrorKind::BadAccessInLocal(outer(), inner(), "counter".to_string());
    assert_eq!(k.hint(), None);
    let k = ErrorKind::BadAccessInGlobal(outer(), inner(), "event".to_string());
    assert_eq!(k.hint(), None);
}

#[test]
fn hint_for_a_float_where_an_integer_was_expected() {
    let k = ErrorKind::TypeConflict(outer(), inner(), ValueType::F64, vec![ValueType::I64]);
    assert_eq!(
        k.hint(),
        Some(
            "You can use math::trunc() and related functions to ensure numbers are integers."
                .to_string()
        )
    );
    let k = ErrorKind::TypeConflict(
        outer(),
        inner(),
        ValueType::F64,
        vec![ValueType::I64, ValueType::String],
    );
    assert_eq!(k.hint(), None);
    let k = ErrorKind::TypeConflict(outer(), inner(), ValueType::Bool, vec![ValueType::I64]);
    assert_eq!(k.hint(), None);
}

#[test]
fn hints_for_missing_modules_and_functions() {
    let k = ErrorKind::MissingModule(outer(), inner(), "object".to_string(), None);
    assert_eq!(k.hint(), Some("Did you mean to use the `record` module".to_string()));
    let k = ErrorKind::MissingModule(
        outer(),
        inner(),
        "strng".to_string(),
        Some((1, "string".to_string())),
    );
    assert_eq!(k.hint(), Some("Did you mean `string`".to_string()));
    let k = ErrorKind::MissingModule(outer(), inner(), "zzz".to_string(), None);
    assert_eq!(k.hint(), None);
    let k = ErrorKind::MissingFunction(
        outer(),
        inner(),
        "math".to_string(),
        "trnc".to_string(),
        Some((1, "trunc".to_string())),
    );
    assert_eq!(Error::from_kind(k).hint(), Some("Did you mean `trunc`".to_string()));
}

#[test]
fn hints_for_unmatched_and_unexpected() {
    assert_eq!(
        ErrorKind::NoClauseHit(inner()).hint(),
        Some("Consider adding a `default => null` clause at the end of your match or validate full coverage beforehand.".to_string())
    );
    assert_eq!(
        ErrorKind::Oops(inner()).hint(),
        Some("Please take the error output script and idealy data and open a ticket, this should not happen.".to_string())
    );
    assert_eq!(ErrorKind::EmptyScript.hint(), None);
}

#[test]
fn messages_of_parser_errors() {
    let k = ErrorKind::UnrecognizedToken(outer(), inner(), "}".to_string(), strings(&["`;`"]));
    assert_eq!(k.message(), "Found the token `}` but expected `;`");
    let k = ErrorKind::UnrecognizedToken(
        outer(),
        inner(),
        "}".to_string(),
        strings(&["`;`", "`,`"]),
    );
    assert_eq!(k.message(), "Found the token `}` but expected one of `;`, `,`");
    let k = ErrorKind::ExtraToken(outer(), inner(), "x".to_string());
    assert_eq!(k.message(), "Found an extra token: `x` that does not belong there");
    assert_eq!(ErrorKind::InvalidToken(outer(), inner()).message(), "Invalid token");
    assert_eq!(
        ErrorKind::ParserError("oh".to_string()).message(),
        "Parser user error: oh"
    );
}

#[test]
fn messages_of_functions() {
    let k = ErrorKind::BadArity(
        outer(),
        inner(),
        "math".to_string(),
        "max".to_string(),
        2,
        13,
    );
    assert_eq!(
        k.message(),
        "Bad arity for function math::max/2 but was called with 13 arguments"
    );
    let k = ErrorKind::BadType(outer(), inner(), "string".to_string(), "len".to_string(), 1);
    assert_eq!(k.message(), "Bad type passed to function string::len/1");
    let k = ErrorKind::RuntimeError(
        outer(),
        inner(),
        "re".to_string(),
        "split".to_string(),
        2,
        "bad regex".to_string(),
    );
    assert_eq!(k.message(), "Runtime error in function re::split/2: bad regex");
    let k = ErrorKind::MissingModule(outer(), inner(), "m".to_string(), None);
    assert_eq!(k.message(), "Call to undefined module m");
    let k = ErrorKind::MissingFunction(outer(), inner(), "m".to_string(), "f".to_string(), None);
    assert_eq!(k.message(), "Call to undefined function m::f");
}

#[test]
fn messages_of_types_and_operators() {
    let k = ErrorKind::TypeConflict(
        outer(),
        inner(),
        ValueType::Object,
        vec![ValueType::I64, ValueType::F64],
    );
    assert_eq!(k.message(), "Conflicting types, got record but expected one of integer, float");
    let k = ErrorKind::TypeConflict(outer(), inner(), ValueType::Null, vec![ValueType::Bool]);
    assert_eq!(k.message(), "Conflicting types, got null but expected boolean");
    let k = ErrorKind::InvalidUnary(outer(), inner(), "-".to_string(), ValueType::String);
    assert_eq!(
        k.message(),
        "The unary operation operation `-` is not defined for the type `string`"
    );
    let k = ErrorKind::InvalidBinary(
        outer(),
        inner(),
        "+".to_string(),
        ValueType::Array,
        ValueType::Bool,
    );
    assert_eq!(
        k.message(),
        "The binary operation operation `+` is not defined for the type `array` and `boolean`"
    );
    let k = ErrorKind::MergeTypeConflict(outer(), inner(), "a".to_string(), ValueType::I64);
    assert_eq!(k.message(), "Merge can only be performed on keys that either do not exist or are records but the key 'a' has the type integer");
}

#[test]
fn messages_of_lexer_errors() {
    let k = ErrorKind::UnexpectedCharacter(outer(), inner(), 'ß');
    assert_eq!(k.message(), "An unexpected character 'ß' was found");
    let k = ErrorKind::UnexpectedEscapeCode(outer(), inner(), "\\y".to_string(), 'y');
    assert_eq!(k.message(), "An unexpected escape code 'y' was found");
    let k = ErrorKind::UnterminatedExtractor(outer(), inner(), "|x".to_string());
    assert_eq!(k.message(), "It looks like you forgot to terminate an extractor");
    assert_eq!(
        ErrorKind::UnexpectedEndOfStream.message(),
        "An unexpected end of stream was found"
    );
    assert_eq!(
        ErrorKind::InvalidHexLiteral(outer(), inner()).message(),
        "An invalid hexadecimal"
    );
}

#[test]
fn messages_of_paths_and_patches() {
    let k = ErrorKind::ArrayOutOfRange(outer(), inner(), IndexRange { start: 3, end: 3 });
    assert_eq!(k.message(), "Trying to access an index that is out of range 3");
    let k = ErrorKind::ArrayOutOfRange(outer(), inner(), IndexRange { start: 1, end: 40 });
    assert_eq!(k.message(), "Trying to access an index that is out of range 1..40");
    let k = ErrorKind::BadAccessInEvent(outer(), inner(), "x".to_string());
    assert_eq!(k.message(), "Trying to access a non existing event key `x`");
    let k = ErrorKind::InsertKeyExists(outer(), inner(), "k".to_string());
    assert_eq!(
        k.message(),
        "The key that is suposed to be inserted already exists: k"
    );
    let k = ErrorKind::OverwritingLocal(outer(), inner(), "v".to_string());
    assert_eq!(
        k.message(),
        "Trying to overwrite the local variable `v` in a comprehension case"
    );
    let k = ErrorKind::InvalidInfluxData("weather".to_string());
    assert_eq!(k.message(), "Invalid Influx Line Protocol data: weather");
    assert_eq!(
        Error::from_kind(ErrorKind::Msg("plain".to_string())).message(),
        "plain"
    );
}

#[test]
fn descriptions_of_kinds() {
    assert_eq!(ErrorKind::EmptyScript.description(), "No expressions were found in the script");
    assert_eq!(
        ErrorKind::BinaryDrop(outer(), inner()).description(),
        "Please enclose the value you want to rop"
    );
    assert_eq!(
        ErrorKind::Grok("pattern %{X} did not match".to_string(), "no match".to_string())
            .description(),
        "no match"
    );
    assert_eq!(
        ErrorKind::Utf8Error("invalid utf-8 sequence".to_string(), "utf8".to_string()).message(),
        "invalid utf-8 sequence"
    );
    assert_eq!(
        Error::from_kind(ErrorKind::InvalidIntLiteral(outer(), inner())).description(),
        "An invalid integer literal"
    );
}

#[test]
fn errors_come_from_kinds() {
    let e: Error = ErrorKind::EmptyScript.into();
    assert_eq!(e.kind(), &ErrorKind::EmptyScript);
}

fn expr_at(a: (usize, usize, usize), b: (usize, usize, usize)) -> Expr {
    Expr { start: loc(a.0, a.1, a.2), end: loc(b.0, b.1, b.2) }
}

#[test]
fn bad_keys_name_where_the_path_starts() {
    let e = expr_at((1, 1, 0), (1, 20, 19));
    let i = expr_at((1, 5, 4), (1, 9, 8));
    let r: Result<(), Error> = e.error_bad_key(&i, &Path::Local, "a".to_string());
    assert_eq!(
        r,
        Err(Error(ErrorKind::BadAccessInLocal(e.range(), i.range(), "a".to_string())))
    );
    let r: Result<(), Error> = e.error_bad_key(&i, &Path::Meta, "a".to_string());
    assert_eq!(
        r,
        Err(Error(ErrorKind::BadAccessInGlobal(e.range(), i.range(), "a".to_string())))
    );
    let r: Result<(), Error> = e.error_bad_key(&i, &Path::Event, "a".to_string());
    assert_eq!(
        r,
        Err(Error(ErrorKind::BadAccessInEvent(e.range(), i.range(), "a".to_string())))
    );
}

#[test]
fn raised_errors_carry_both_spans() {
    let e = expr_at((2, 1, 10), (2, 30, 39));
    let i = expr_at((2, 4, 13), (2, 8, 17));
    let both = (Some(e.range()), Some(i.range()));
    let r: Result<u8, Error> =
        e.error_array_out_of_bound(&i, &Path::Event, IndexRange { start: 0, end: 2 });
    assert_eq!(r.unwrap_err().context(), both);
    let r: Result<u8, Error> = e.error_patch_insert_key_exists(&i, "k".to_string());
    assert_eq!(r.unwrap_err().context(), both);
    let r: Result<u8, Error> = e.error_patch_update_key_missing(&i, "k".to_string());
    assert_eq!(r.unwrap_err().context(), both);
    let r: Result<u8, Error> = e.error_missing_effector(&i);
    assert_eq!(r.unwrap_err().context(), both);
    let r: Result<u8, Error> = e.error_overwriting_local_in_comprehension(&i, "k".to_string());
    assert_eq!(r.unwrap_err().context(), both);
    let r: Result<u8, Error> = e.error_assign_array(&i);
    assert_eq!(r.unwrap_err().context(), both);
    let r: Result<u8, Error> =
        e.error_patch_merge_type_conflict(&i, "k".to_string(), ValueType::Array);
    assert_eq!(r.unwrap_err().context(), both);
}

#[test]
fn type_conflicts_raised_at_expressions() {
    let e = expr_at((1, 1, 0), (1, 9, 8));
    let i = expr_at((1, 2, 1), (1, 3, 2));
    let r: Result<(), Error> = e.error_type_conflict(&i, ValueType::F64, ValueType::I64);
    let err = r.unwrap_err();
    assert_eq!(
        err,
        Error(ErrorKind::TypeConflict(e.range(), i.range(), ValueType::F64, vec![ValueType::I64]))
    );
    assert!(err.hint().is_some());
    let r: Result<(), Error> = e.error_guard_not_bool(&i, ValueType::String);
    assert_eq!(
        r.unwrap_err().message(),
        "Conflicting types, got string but expected boolean"
    );
    let r: Result<(), Error> =
        e.error_type_conflict_mult(&i, ValueType::Null, vec![ValueType::Array, ValueType::Object]);
    assert_eq!(
        r.unwrap_err().message(),
        "Conflicting types, got null but expected one of array, record"
    );
    let r: Result<(), Error> = e.error_invalid_unary(&i, "not".to_string(), ValueType::I64);
    assert_eq!(
        r.unwrap_err(),
        Error(ErrorKind::InvalidUnary(e.range(), i.range(), "not".to_string(), ValueType::I64))
    );
    let r: Result<(), Error> =
        e.error_invalid_binary(&i, "and".to_string(), ValueType::I64, ValueType::Bool);
    assert_eq!(
        r.unwrap_err(),
        Error(ErrorKind::InvalidBinary(
            e.range(),
            i.range(),
            "and".to_string(),
            ValueType::I64,
            ValueType::Bool
        ))
    );
}

#[test]
fn self_located_errors_widen_the_expression() {
    let e = expr_at((4, 2, 40), (6, 1, 70));
    let shown = span((2, 2, 40), (8, 1, 70));
    let r: Result<(), Error> = e.error_no_clause_hit();
    assert_eq!(r.unwrap_err().context(), (Some(shown), Some(e.range())));
    let r: Result<(), Error> = e.error_oops();
    assert_eq!(r.unwrap_err().context(), (Some(shown), Some(e.range())));
    let r: Result<(), Error> = e.error_invalid_assign_target();
    assert_eq!(
        r.unwrap_err(),
        Error(ErrorKind::InvalidAssign(shown, e.range()))
    );
}

#[test]
fn parser_failures_become_script_errors() {
    let start = loc(3, 4, 20);
    let end = loc(3, 7, 23);
    let e = Error::from_parser_failure(ParserFailure::UnrecognizedToken {
        token: Some((start, "foo".to_string(), end)),
        expected: strings(&["\";\"", "\"end\""]),
        rendered: "unused".to_string(),
    });
    assert_eq!(
        e,
        Error(ErrorKind::UnrecognizedToken(
            span((1, 4, 20), (5, 7, 23)),
            Range(start, end),
            "foo".to_string(),
            strings(&["`;`", "`end`"])
        ))
    );
    assert_eq!(e.message(), "Found the token `foo` but expected one of `;`, `end`");

    let e = Error::from_parser_failure(ParserFailure::InvalidToken { location: loc(0, 9, 9) });
    assert_eq!(
        e,
        Error(ErrorKind::InvalidToken(
            span((0, 9, 9), (2, 10, 9)),
            span((0, 9, 9), (0, 10, 9))
        ))
    );

    let e = Error::from_parser_failure(ParserFailure::UnrecognizedToken {
        token: None,
        expected: strings(&["\";\""]),
        rendered: "early end".to_string(),
    });
    assert_eq!(e, Error(ErrorKind::ParserError("early end".to_string())));

    let e = Error::from_parser_failure(ParserFailure::User {
        error: Error(ErrorKind::EmptyScript),
        rendered: "raised".to_string(),
    });
    assert_eq!(e, Error(ErrorKind::ParserError("raised".to_string())));

    let e = Error::from_parser_failure(ParserFailure::ExtraToken {
        token: (start, "x".to_string(), end),
    });
    assert_eq!(
        e,
        Error(ErrorKind::ExtraToken(span((1, 4, 20), (5, 7, 23)), Range(start, end), "x".to_string()))
    );
}

#[test]
fn parser_reports_that_do_not_fit_give_nothing() {
    let far = loc(usize::MAX - 1, 0, 0);
    let r = Error::from_parser_report(ParserFailure::ExtraToken {
        token: (far, "x".to_string(), far),
    });
    assert_eq!(r, None);
    let r = Error::from_parser_report(ParserFailure::InvalidToken {
        location: loc(1, usize::MAX, 0),
    });
    assert_eq!(r, None);
    let near_end = loc(usize::MAX - 2, 0, 0);
    let r = Error::from_parser_report(ParserFailure::ExtraToken {
        token: (near_end, "x".to_string(), near_end),
    });
    assert!(r.is_some());
    let r = Error::from_parser_report(ParserFailure::UnrecognizedToken {
        token: None,
        expected: vec![],
        rendered: "eof".to_string(),
    });
    assert_eq!(r, Some(Error(ErrorKind::ParserError("eof".to_string()))));
}

#[test]
fn parse_errors_of_the_parser_generator() {
    let start = loc(1, 1, 0);
    let end = loc(1, 2, 1);
    let e = Error::from_parse_error(ParseError::UnrecognizedToken {
        token: Some((start, "-".to_string(), end)),
        expected: strings(&["\"(\""]),
    })
    .unwrap();
    assert_eq!(e.message(), "Found the token `-` but expected `(`");
    assert_eq!(
        e.hint(),
        Some("Try wrapping this expression in parentheses `(` ... `)`".to_string())
    );
    assert_eq!(e.context(), (Some(span((0, 1, 0), (3, 2, 1))), Some(Range(start, end))));

    let e = Error::from_parse_error(ParseError::ExtraToken {
        token: (start, "x".to_string(), end),
    })
    .unwrap();
    assert_eq!(
        e,
        Error(ErrorKind::ExtraToken(
            span((0, 1, 0), (3, 2, 1)),
            Range(start, end),
            "x".to_string()
        ))
    );

    let e = Error::from_parse_error(ParseError::InvalidToken { location: loc(5, 5, 50) }).unwrap();
    assert_eq!(
        e.kind(),
        &ErrorKind::InvalidToken(span((3, 5, 50), (7, 6, 50)), span((5, 5, 50), (5, 6, 50)))
    );

    let user = ParseError::User { error: Error(ErrorKind::Msg("m".to_string())) };
    let rendered = format!("{:?}", user);
    let e = Error::from_parse_error(user).unwrap();
    assert_eq!(e, Error(ErrorKind::ParserError(rendered)));

    let eof: ParseError<Location, String, Error> =
        ParseError::UnrecognizedToken { token: None, expected: vec![] };
    let e = Error::from_parse_error(eof).unwrap();
    assert_eq!(
        e.message(),
        "Parser user error: UnrecognizedToken { token: None, expected: [] }"
    );

    let far = loc(usize::MAX, 0, 0);
    let e = Error::from_parse_error(ParseError::ExtraToken {
        token: (far, "x".to_string(), far),
    });
    assert_eq!(e, None);
}

#[test]
fn closest_option_ranks_by_given_distances() {
    let options = strings(&["x", "y", "w"]);
    assert_eq!(closest_option(&options, &[2, 1, 1], 1), Some((1, "w".to_string())));
    assert_eq!(closest_option(&options, &[0, 1, 1], 1), Some((0, "x".to_string())));
    assert_eq!(closest_option(&options, &[5, 5, 9], 4), None);
}

#[test]
fn best_hint_ignores_the_order_of_options() {
    let a = strings(&["ac", "ab", "zz", "aa"]);
    let b = strings(&["aa", "zz", "ab", "ac", "ab"]);
    assert_eq!(best_hint("a", &a, 1), best_hint("a", &b, 1));
    assert_eq!(best_hint("a", &a, 1), Some((1, "aa".to_string())));
}

#[test]
fn best_hint_keeps_its_answer_under_a_wider_limit() {
    let options = strings(&["evnt", "vent", "xyz"]);
    let narrow = best_hint("event", &options, 1);
    assert_eq!(narrow, Some((1, "evnt".to_string())));
    assert_eq!(best_hint("event", &options, 5), narrow);
}

#[test]
fn every_error_shows_a_span() {
    assert!(ErrorKind::EmptyScript.expr().0.is_some());
    assert!(ErrorKind::NoClauseHit(inner()).expr().0.is_some());
    let e = Error::from_kind(ErrorKind::Oops(inner()));
    assert_eq!(e.context(), e.kind().expr());
}
