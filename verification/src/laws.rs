//! What holds of errors across the functions that raise, convert and locate them.

use vstd::prelude::*;

use crate::error_kind::{
    description_of, message_of, context_of, hint_of, locatable, token_of, ErrorKind, IndexRange, DEFAULT_CLAUSE_HINT,
    EVENT_HINT, RECORD_MODULE_HINT, SEMICOLON_HINT, TICKET_HINT, TRUNC_HINT,
};
use crate::hints::damerau_levenshtein_distance;
use crate::pos::Location;
use crate::hints::{best_among, bytes_le, distances_from, near, ranks_before, text_le};
use crate::expr::{Expr, Path};
use crate::parse_error::{converted, fits, reports_token, ParserFailure};
use crate::pos::{encloses, expanded, Range};
use crate::text::{choices_text, decimal, joined, quotes_to_backticks};
use crate::value_type::{kind_name, ValueType};

verus! {

/// An error raised at an expression about an inner expression points at both:
/// it shows the expression and marks the inner one, whatever else it carries.
pub proof fn lemma_raised_errors_point_at_both(
    expr: Expr,
    inner: Expr,
    path: Path,
    key: String,
    r: IndexRange,
    got: ValueType,
    expected: Vec<ValueType>,
    op: String,
    left: ValueType,
    right: ValueType,
)
    ensures
        ({
            let both = (Some(expr.span()), Some(inner.span()));
            &&& context_of(ErrorKind::ArrayOutOfRange(expr.span(), inner.span(), r)) == both
            &&& context_of(
                match path {
                    Path::Local => ErrorKind::BadAccessInLocal(expr.span(), inner.span(), key),
                    Path::Meta => ErrorKind::BadAccessInGlobal(expr.span(), inner.span(), key),
                    Path::Event => ErrorKind::BadAccessInEvent(expr.span(), inner.span(), key),
                },
            ) == both
            &&& context_of(ErrorKind::TypeConflict(expr.span(), inner.span(), got, expected))
                == both
            &&& context_of(ErrorKind::InvalidUnary(expr.span(), inner.span(), op, left)) == both
            &&& context_of(ErrorKind::InvalidBinary(expr.span(), inner.span(), op, left, right))
                == both
            &&& context_of(ErrorKind::InsertKeyExists(expr.span(), inner.span(), key)) == both
            &&& context_of(ErrorKind::UpdateKeyMissing(expr.span(), inner.span(), key)) == both
            &&& context_of(ErrorKind::MissingEffectors(expr.span(), inner.span())) == both
            &&& context_of(ErrorKind::OverwritingLocal(expr.span(), inner.span(), key)) == both
            &&& context_of(ErrorKind::MergeTypeConflict(expr.span(), inner.span(), key, got))
                == both
            &&& context_of(ErrorKind::AssignIntoArray(expr.span(), inner.span())) == both
        }),
{
}

/// An error raised at an expression alone marks that expression inside a span
/// that encloses it: no clause hit, something that should not happen, and an
/// invalid assignment target.
pub proof fn lemma_self_located_errors_enclose(expr: Expr)
    requires
        expr.span().can_expand(2),
    ensures
        ({
            let marked = expr.span();
            let shown = expanded(marked, 2);
            &&& locatable(ErrorKind::NoClauseHit(marked))
            &&& context_of(ErrorKind::NoClauseHit(marked)) == (Some(shown), Some(marked))
            &&& locatable(ErrorKind::Oops(marked))
            &&& context_of(ErrorKind::Oops(marked)) == (Some(shown), Some(marked))
            &&& context_of(ErrorKind::InvalidAssign(shown, marked)) == (Some(shown), Some(marked))
            &&& encloses(shown, marked)
        }),
{
}

/// The script error for a report of the parser about a token marks the token
/// inside the span it shows.
pub proof fn lemma_parser_errors_enclose_token(f: ParserFailure, k: ErrorKind)
    requires
        fits(f),
        converted(f, k),
        reports_token(f),
    ensures
        locatable(k),
        context_of(k) matches (Some(shown), Some(marked)) && encloses(shown, marked),
{
}

/// Every error shows a span: the one it carries, or the start of the script.
pub proof fn lemma_context_shows_a_span(k: ErrorKind)
    requires
        locatable(k),
    ensures
        context_of(k).0 is Some,
{
}

proof fn lemma_bytes_le_antisymmetric(a: Seq<u8>, b: Seq<u8>)
    requires
        bytes_le(a, b),
        bytes_le(b, a),
    ensures
        a == b,
    decreases a.len(),
{
    if a.len() > 0 && b.len() > 0 {
        lemma_bytes_le_antisymmetric(a.drop_first(), b.drop_first());
        assert(a =~= seq![a[0]] + a.drop_first());
        assert(b =~= seq![b[0]] + b.drop_first());
    }
}

proof fn lemma_text_le_antisymmetric(a: Seq<char>, b: Seq<char>)
    requires
        text_le(a, b),
        text_le(b, a),
    ensures
        a == b,
{
    lemma_bytes_le_antisymmetric(vstd::utf8::encode_utf8(a), vstd::utf8::encode_utf8(b));
    vstd::utf8::encode_utf8_decode_utf8(a);
    vstd::utf8::encode_utf8_decode_utf8(b);
}

/// There is only one best suggestion: two answers that are both best are the
/// same distance and the same text.
pub proof fn lemma_best_among_unique(
    options: Seq<Seq<char>>,
    dists: Seq<nat>,
    max_dist: nat,
    d1: nat,
    s1: Seq<char>,
    d2: nat,
    s2: Seq<char>,
)
    requires
        best_among(options, dists, max_dist, d1, s1),
        best_among(options, dists, max_dist, d2, s2),
    ensures
        d1 == d2,
        s1 == s2,
{
    let i1 = choose|i: int| 0 <= i < options.len() && options[i] == s1 && dists[i] == d1;
    let i2 = choose|i: int| 0 <= i < options.len() && options[i] == s2 && dists[i] == d2;
    assert(ranks_before(d1, s1, dists[i2], options[i2]));
    assert(ranks_before(d2, s2, dists[i1], options[i1]));
    lemma_text_le_antisymmetric(s1, s2);
}

/// Whether `options` holds the text `t` at distance `d`.
pub open spec fn holds_option(options: Seq<Seq<char>>, dists: Seq<nat>, t: Seq<char>, d: nat) -> bool {
    exists|j: int| 0 <= j < options.len() && options[j] == t && dists[j] == d
}

/// Whether two lists hold the same options at the same distances, in any order
/// and any number of times.
pub open spec fn same_options(
    options1: Seq<Seq<char>>,
    dists1: Seq<nat>,
    options2: Seq<Seq<char>>,
    dists2: Seq<nat>,
) -> bool {
    &&& forall|i: int|
        0 <= i < options1.len() ==> #[trigger] holds_option(options2, dists2, options1[i], dists1[i])
    &&& forall|j: int|
        0 <= j < options2.len() ==> #[trigger] holds_option(options1, dists1, options2[j], dists2[j])
}

/// The best suggestion does not depend on the order in which the options come.
pub proof fn lemma_best_among_ignores_order(
    options1: Seq<Seq<char>>,
    dists1: Seq<nat>,
    options2: Seq<Seq<char>>,
    dists2: Seq<nat>,
    max_dist: nat,
    d: nat,
    s: Seq<char>,
)
    requires
        same_options(options1, dists1, options2, dists2),
        best_among(options1, dists1, max_dist, d, s),
    ensures
        best_among(options2, dists2, max_dist, d, s),
{
    let i = choose|i: int| 0 <= i < options1.len() && options1[i] == s && dists1[i] == d;
    assert(holds_option(options2, dists2, options1[i], dists1[i]));
    let j = choose|j: int|
        0 <= j < options2.len() && options2[j] == options1[i] && dists2[j] == dists1[i];
    assert(0 <= j < options2.len() && options2[j] == s && dists2[j] == d);
    assert forall|k: int| 0 <= k < options2.len() && dists2[k] <= max_dist implies ranks_before(
        d,
        s,
        dists2[k],
        options2[k],
    ) by {
        assert(holds_option(options1, dists1, options2[k], dists2[k]));
        let m = choose|m: int|
            0 <= m < options1.len() && options1[m] == options2[k] && dists1[m] == dists2[k];
        assert(ranks_before(d, s, dists1[m], options1[m]));
    }
}

/// Whether `options` holds the text `t`.
pub open spec fn holds_text(options: Seq<Seq<char>>, t: Seq<char>) -> bool {
    exists|j: int| 0 <= j < options.len() && options[j] == t
}

/// Whether two lists of options hold the same texts, in any order and any number of times.
pub open spec fn same_texts(options1: Seq<Seq<char>>, options2: Seq<Seq<char>>) -> bool {
    &&& forall|i: int| 0 <= i < options1.len() ==> #[trigger] holds_text(options2, options1[i])
    &&& forall|j: int| 0 <= j < options2.len() ==> #[trigger] holds_text(options1, options2[j])
}

proof fn lemma_same_texts_same_distances(
    given: Seq<char>,
    options1: Seq<Seq<char>>,
    options2: Seq<Seq<char>>,
)
    requires
        same_texts(options1, options2),
    ensures
        same_options(
            options1,
            distances_from(given, options1),
            options2,
            distances_from(given, options2),
        ),
{
    let dists1 = distances_from(given, options1);
    let dists2 = distances_from(given, options2);
    assert forall|i: int| 0 <= i < options1.len() implies #[trigger] holds_option(
        options2,
        dists2,
        options1[i],
        dists1[i],
    ) by {
        assert(holds_text(options2, options1[i]));
        let j = choose|j: int| 0 <= j < options2.len() && options2[j] == options1[i];
        assert(dists2[j] == dists1[i]);
    }
    assert forall|j: int| 0 <= j < options2.len() implies #[trigger] holds_option(
        options1,
        dists1,
        options2[j],
        dists2[j],
    ) by {
        assert(holds_text(options1, options2[j]));
        let i = choose|i: int| 0 <= i < options1.len() && options1[i] == options2[j];
        assert(dists1[i] == dists2[j]);
    }
}

proof fn lemma_same_texts_near(
    given: Seq<char>,
    options1: Seq<Seq<char>>,
    options2: Seq<Seq<char>>,
    max_dist: nat,
    i: int,
)
    requires
        forall|k: int| 0 <= k < options1.len() ==> #[trigger] holds_text(options2, options1[k]),
        0 <= i < options1.len(),
        near(given, options1[i], max_dist),
    ensures
        exists|j: int| 0 <= j < options2.len() && near(given, options2[j], max_dist),
{
    assert(holds_text(options2, options1[i]));
    let j = choose|j: int| 0 <= j < options2.len() && options2[j] == options1[i];
    assert(near(given, options2[j], max_dist));
}

/// What `best_hint` suggests does not depend on the order of the options: where
/// two lists hold the same texts, both have a near option or neither has, and
/// the best suggestion of one is the best of the other.
pub proof fn lemma_best_hint_ignores_order(
    given: Seq<char>,
    options1: Seq<Seq<char>>,
    options2: Seq<Seq<char>>,
    max_dist: nat,
    d: nat,
    s: Seq<char>,
)
    requires
        same_texts(options1, options2),
    ensures
        (forall|i: int| 0 <= i < options1.len() ==> !near(given, options1[i], max_dist)) <==> (
        forall|j: int| 0 <= j < options2.len() ==> !near(given, options2[j], max_dist)),
        best_among(options1, distances_from(given, options1), max_dist, d, s) ==> best_among(
            options2,
            distances_from(given, options2),
            max_dist,
            d,
            s,
        ),
{
    lemma_same_texts_same_distances(given, options1, options2);
    if best_among(options1, distances_from(given, options1), max_dist, d, s) {
        lemma_best_among_ignores_order(
            options1,
            distances_from(given, options1),
            options2,
            distances_from(given, options2),
            max_dist,
            d,
            s,
        );
    }
    if exists|i: int| 0 <= i < options1.len() && near(given, options1[i], max_dist) {
        let i = choose|i: int| 0 <= i < options1.len() && near(given, options1[i], max_dist);
        lemma_same_texts_near(given, options1, options2, max_dist, i);
    }
    if exists|j: int| 0 <= j < options2.len() && near(given, options2[j], max_dist) {
        let j = choose|j: int| 0 <= j < options2.len() && near(given, options2[j], max_dist);
        lemma_same_texts_near(given, options2, options1, max_dist, j);
    }
}

/// Allowing more edits keeps the best suggestion: the options it lets in are all
/// farther than the suggestion already found.
pub proof fn lemma_best_among_wider_limit(
    options: Seq<Seq<char>>,
    dists: Seq<nat>,
    max1: nat,
    max2: nat,
    d: nat,
    s: Seq<char>,
)
    requires
        max1 <= max2,
        best_among(options, dists, max1, d, s),
    ensures
        best_among(options, dists, max2, d, s),
{
}

/// The parser's expected tokens keep their number and order in the script error,
/// and each name keeps its length and characters, except that every double quote
/// becomes a backtick.
pub proof fn lemma_expected_names_backticked(
    token: (crate::pos::Location, String, crate::pos::Location),
    expected: Vec<String>,
    rendered: String,
    k: ErrorKind,
)
    requires
        converted(
            ParserFailure::UnrecognizedToken { token: Some(token), expected, rendered },
            k,
        ),
    ensures
        k is UnrecognizedToken,
        k->UnrecognizedToken_2 == token.1,
        k->UnrecognizedToken_3@.len() == expected@.len(),
        forall|i: int|
            0 <= i < expected@.len() ==> (#[trigger] k->UnrecognizedToken_3@[i])@.len()
                == expected@[i]@.len(),
        forall|i: int, c: int|
            0 <= i < expected@.len() && 0 <= c < expected@[i]@.len() ==> #[trigger] k->UnrecognizedToken_3@[i]@[c]
                == (if expected@[i]@[c] == '"' {
                '`'
            } else {
                expected@[i]@[c]
            }),
{
    let names = k->UnrecognizedToken_3;
    let nd = names.deep_view();
    let ed = expected.deep_view();
    assert(nd == ed.map_values(|x: Seq<char>| quotes_to_backticks(x)));
    assert(names@.len() == nd.len());
    assert(expected@.len() == ed.len());
    assert forall|i: int| 0 <= i < expected@.len() implies (#[trigger] names@[i])@.len()
        == expected@[i]@.len() && names@[i]@ == quotes_to_backticks(expected@[i]@) by {
        assert(nd[i] == names@[i]@);
        assert(ed[i] == expected@[i]@);
    }
    assert forall|i: int, c: int|
        0 <= i < expected@.len() && 0 <= c < expected@[i]@.len() implies #[trigger] names@[i]@[c]
            == (if expected@[i]@[c] == '"' {
            '`'
        } else {
            expected@[i]@[c]
        }) by {
        assert(names@[i]@ == quotes_to_backticks(expected@[i]@));
    }
}

/// A type conflict hints at `math::trunc()` exactly when a float was got where
/// only an integer was expected; every other type conflict has no hint.
pub proof fn lemma_trunc_hint_only_for_float_as_integer(
    outer: Range,
    inner: Range,
    got: ValueType,
    expected: Vec<ValueType>,
)
    ensures
        ({
            let h = hint_of(ErrorKind::TypeConflict(outer, inner, got, expected));
            &&& h is Some <==> (got == ValueType::F64 && expected@.len() == 1 && expected@[0]
                == ValueType::I64)
            &&& h is Some ==> h == Some(TRUNC_HINT@)
        }),
{
    if got == ValueType::F64 && expected@.len() == 1 && expected@[0] == ValueType::I64 {
        assert(expected@ =~= seq![ValueType::I64]);
    }
}

/// Every kind that carries the span of an expression and a span inside it shows
/// the expression and marks the inner span, in that order.
pub proof fn lemma_two_span_kinds_show_outer_mark_inner()
    ensures
        forall|e: Range, i: Range, r: IndexRange|
            #[trigger] context_of(ErrorKind::ArrayOutOfRange(e, i, r)) == (Some(e), Some(i)),
        forall|e: Range, i: Range| #[trigger]
            context_of(ErrorKind::AssignIntoArray(e, i)) == (Some(e), Some(i)),
        forall|e: Range, i: Range, a: String|
            #[trigger] context_of(ErrorKind::BadAccessInEvent(e, i, a)) == (Some(e), Some(i)),
        forall|e: Range, i: Range, a: String|
            #[trigger] context_of(ErrorKind::BadAccessInGlobal(e, i, a)) == (Some(e), Some(i)),
        forall|e: Range, i: Range, a: String|
            #[trigger] context_of(ErrorKind::BadAccessInLocal(e, i, a)) == (Some(e), Some(i)),
        forall|e: Range, i: Range, m: String, f: String, a: usize, c: usize|
            #[trigger] context_of(ErrorKind::BadArity(e, i, m, f, a, c)) == (Some(e), Some(i)),
        forall|e: Range, i: Range, m: String, f: String, a: usize|
            #[trigger] context_of(ErrorKind::BadType(e, i, m, f, a)) == (Some(e), Some(i)),
        forall|e: Range, i: Range| #[trigger]
            context_of(ErrorKind::BinaryDrop(e, i)) == (Some(e), Some(i)),
        forall|e: Range, i: Range| #[trigger]
            context_of(ErrorKind::BinaryEmit(e, i)) == (Some(e), Some(i)),
        forall|e: Range, i: Range, a: String|
            #[trigger] context_of(ErrorKind::ExtraToken(e, i, a)) == (Some(e), Some(i)),
        forall|e: Range, i: Range, a: String|
            #[trigger] context_of(ErrorKind::InsertKeyExists(e, i, a)) == (Some(e), Some(i)),
        forall|e: Range, i: Range| #[trigger]
            context_of(ErrorKind::InvalidAssign(e, i)) == (Some(e), Some(i)),
        forall|e: Range, i: Range, op: String, l: ValueType, r: ValueType|
            #[trigger] context_of(ErrorKind::InvalidBinary(e, i, op, l, r)) == (Some(e), Some(i)),
        forall|e: Range, i: Range| #[trigger]
            context_of(ErrorKind::InvalidDrop(e, i)) == (Some(e), Some(i)),
        forall|e: Range, i: Range| #[trigger]
            context_of(ErrorKind::InvalidEmit(e, i)) == (Some(e), Some(i)),
        forall|e: Range, i: Range, n: String, p: String, x: String|
            #[trigger] context_of(ErrorKind::InvalidExtractor(e, i, n, p, x)) == (Some(e), Some(i)),
        forall|e: Range, i: Range| #[trigger]
            context_of(ErrorKind::InvalidFloatLiteral(e, i)) == (Some(e), Some(i)),
        forall|e: Range, i: Range| #[trigger]
            context_of(ErrorKind::InvalidHexLiteral(e, i)) == (Some(e), Some(i)),
        forall|e: Range, i: Range| #[trigger]
            context_of(ErrorKind::InvalidIntLiteral(e, i)) == (Some(e), Some(i)),
        forall|e: Range, i: Range| #[trigger]
            context_of(ErrorKind::InvalidToken(e, i)) == (Some(e), Some(i)),
        forall|e: Range, i: Range, op: String, v: ValueType|
            #[trigger] context_of(ErrorKind::InvalidUnary(e, i, op, v)) == (Some(e), Some(i)),
        forall|e: Range, i: Range, a: String, v: ValueType|
            #[trigger] context_of(ErrorKind::MergeTypeConflict(e, i, a, v)) == (Some(e), Some(i)),
        forall|e: Range, i: Range| #[trigger]
            context_of(ErrorKind::MissingEffectors(e, i)) == (Some(e), Some(i)),
        forall|e: Range, i: Range, m: String, f: String, s: Option<(usize, String)>|
            #[trigger] context_of(ErrorKind::MissingFunction(e, i, m, f, s)) == (Some(e), Some(i)),
        forall|e: Range, i: Range, m: String, s: Option<(usize, String)>|
            #[trigger] context_of(ErrorKind::MissingModule(e, i, m, s)) == (Some(e), Some(i)),
        forall|e: Range, i: Range, a: String|
            #[trigger] context_of(ErrorKind::OverwritingLocal(e, i, a)) == (Some(e), Some(i)),
        forall|e: Range, i: Range, m: String, f: String, a: usize, c: String|
            #[trigger] context_of(ErrorKind::RuntimeError(e, i, m, f, a, c)) == (Some(e), Some(i)),
        forall|e: Range, i: Range, g: ValueType, x: Vec<ValueType>|
            #[trigger] context_of(ErrorKind::TypeConflict(e, i, g, x)) == (Some(e), Some(i)),
        forall|e: Range, i: Range, c: char|
            #[trigger] context_of(ErrorKind::UnexpectedCharacter(e, i, c)) == (Some(e), Some(i)),
        forall|e: Range, i: Range, t: String, c: char|
            #[trigger] context_of(ErrorKind::UnexpectedEscapeCode(e, i, t, c)) == (Some(e), Some(i)),
        forall|e: Range, i: Range, t: String, x: Vec<String>|
            #[trigger] context_of(ErrorKind::UnrecognizedToken(e, i, t, x)) == (Some(e), Some(i)),
        forall|e: Range, i: Range, t: String|
            #[trigger] context_of(ErrorKind::UnterminatedExtractor(e, i, t)) == (Some(e), Some(i)),
        forall|e: Range, i: Range, t: String|
            #[trigger] context_of(ErrorKind::UnterminatedIdentLiteral(e, i, t)) == (Some(e), Some(
                i,
            )),
        forall|e: Range, i: Range, t: String|
            #[trigger] context_of(ErrorKind::UnterminatedStringLiteral(e, i, t)) == (Some(e), Some(
                i,
            )),
        forall|e: Range, i: Range, a: String|
            #[trigger] context_of(ErrorKind::UpdateKeyMissing(e, i, a)) == (Some(e), Some(i)),
{
}

/// The kinds that carry an offending text give it back as their token: an
/// unterminated extractor, string or ident, and an unexpected escape code.
/// No other kind has a token.
pub proof fn lemma_tokens_of_kinds(k: ErrorKind)
    ensures
        token_of(k) is Some <==> (k is UnterminatedExtractor || k is UnterminatedStringLiteral
            || k is UnterminatedIdentLiteral || k is UnexpectedEscapeCode),
        forall|e: Range, i: Range, t: String|
            #[trigger] token_of(ErrorKind::UnterminatedExtractor(e, i, t)) == Some(t@),
        forall|e: Range, i: Range, t: String|
            #[trigger] token_of(ErrorKind::UnterminatedStringLiteral(e, i, t)) == Some(t@),
        forall|e: Range, i: Range, t: String|
            #[trigger] token_of(ErrorKind::UnterminatedIdentLiteral(e, i, t)) == Some(t@),
        forall|e: Range, i: Range, t: String, c: char|
            #[trigger] token_of(ErrorKind::UnexpectedEscapeCode(e, i, t, c)) == Some(t@),
{
}

/// Only some kinds ever hint: an unrecognized token, a local key, a type
/// conflict, a missing module or function, a match without a matching clause and
/// an error that should not happen; the last two always do.
pub proof fn lemma_kinds_that_hint(k: ErrorKind)
    ensures
        hint_of(k) is Some ==> (k is UnrecognizedToken || k is BadAccessInLocal
            || k is TypeConflict || k is MissingModule || k is MissingFunction || k is NoClauseHit
            || k is Oops),
        k is NoClauseHit ==> hint_of(k) == Some(DEFAULT_CLAUSE_HINT@),
        k is Oops ==> hint_of(k) == Some(TICKET_HINT@),
{
}

/// A missing local key hints at `event` exactly when the key is within two edits
/// of `event`; missing global and event keys never hint.
pub proof fn lemma_event_hint(e: Range, i: Range, key: String)
    ensures
        hint_of(ErrorKind::BadAccessInLocal(e, i, key)) is Some <==> damerau_levenshtein_distance(
            key@,
            "event"@,
        ) <= 2,
        hint_of(ErrorKind::BadAccessInLocal(e, i, key)) is Some ==> hint_of(
            ErrorKind::BadAccessInLocal(e, i, key),
        ) == Some(EVENT_HINT@),
        hint_of(ErrorKind::BadAccessInGlobal(e, i, key)) is None,
        hint_of(ErrorKind::BadAccessInEvent(e, i, key)) is None,
{
}

/// A missing function hints at its suggestion, in backticks, exactly when it has
/// one. A missing module does the same, except that a module named `object` is
/// always pointed at the `record` module.
pub proof fn lemma_suggestion_hints(
    e: Range,
    i: Range,
    m: String,
    f: String,
    suggestion: Option<(usize, String)>,
)
    ensures
        hint_of(ErrorKind::MissingFunction(e, i, m, f, suggestion)) == match suggestion {
            Some((_, s)) => Some("Did you mean `"@ + s@ + "`"@),
            None => None::<Seq<char>>,
        },
        m@ == "object"@ ==> hint_of(ErrorKind::MissingModule(e, i, m, suggestion)) == Some(
            RECORD_MODULE_HINT@,
        ),
        m@ != "object"@ ==> hint_of(ErrorKind::MissingModule(e, i, m, suggestion)) == match suggestion {
            Some((_, s)) => Some("Did you mean `"@ + s@ + "`"@),
            None => None::<Seq<char>>,
        },
{
}

/// An empty unrecognized token right where the script ends means a missing `;`;
/// a token other than the empty one, `event` or `-` never hints.
pub proof fn lemma_unrecognized_token_hints(outer: Range, inner: Range, t: String, l: Vec<String>)
    ensures
        t@.len() == 0 && inner.0.absolute == outer.1.absolute ==> hint_of(
            ErrorKind::UnrecognizedToken(outer, inner, t, l),
        ) == Some(SEMICOLON_HINT@),
        t@.len() != 0 && t@ != "event"@ && t@ != "-"@ ==> hint_of(
            ErrorKind::UnrecognizedToken(outer, inner, t, l),
        ) is None,
{
}

/// The kinds that carry no span point at the very start of the script and mark
/// nothing; every other kind marks a span.
pub proof fn lemma_spanless_kinds_point_at_start(k: ErrorKind)
    ensures
        context_of(k).1 is None <==> (k is EmptyScript || k is Grok || k is InvalidInfluxData
            || k is Io || k is Msg || k is ParseIntError || k is ParserError
            || k is UnexpectedEndOfStream || k is Utf8Error),
        context_of(k).1 is None ==> context_of(k).0 == Some(
            Range(
                Location { line: 0, column: 0, absolute: 0 },
                Location { line: 0, column: 0, absolute: 0 },
            ),
        ),
{
}

/// An extra token keeps its text and is marked from its start to its end; the
/// span shown starts two lines higher (or at the top) and ends two lines lower,
/// keeping columns and offsets.
pub proof fn lemma_extra_token_converted(start: Location, t: String, end: Location, k: ErrorKind)
    requires
        converted(ParserFailure::ExtraToken { token: (start, t, end) }, k),
        fits(ParserFailure::ExtraToken { token: (start, t, end) }),
    ensures
        k matches ErrorKind::ExtraToken(shown, marked, text) && text == t && marked == Range(
            start,
            end,
        ) && shown.0.line == (if start.line >= 2 {
            start.line - 2
        } else {
            0
        }) && shown.1.line == end.line + 2 && shown.0.column == start.column && shown.0.absolute
            == start.absolute && shown.1.column == end.column && shown.1.absolute == end.absolute,
{
}

/// An invalid token is marked one column wide at its location, on the same line
/// and offset; the span shown reaches two lines further on each side.
pub proof fn lemma_invalid_token_converted(location: Location, k: ErrorKind)
    requires
        converted(ParserFailure::InvalidToken { location }, k),
        fits(ParserFailure::InvalidToken { location }),
    ensures
        k matches ErrorKind::InvalidToken(shown, marked) && marked.0 == location && marked.1.line
            == location.line && marked.1.column == location.column + 1 && marked.1.absolute
            == location.absolute && shown.0.line == (if location.line >= 2 {
            location.line - 2
        } else {
            0
        }) && shown.1.line == location.line + 2 && shown.1.column == location.column + 1,
{
}

/// An early end of input and an error raised while parsing become a parser error
/// that carries the report's rendering.
pub proof fn lemma_untokened_reports_become_parser_errors(
    expected: Vec<String>,
    error: crate::error::Error,
    rendered: String,
    k1: ErrorKind,
    k2: ErrorKind,
)
    requires
        converted(ParserFailure::UnrecognizedToken { token: None, expected, rendered }, k1),
        converted(ParserFailure::User { error, rendered }, k2),
    ensures
        k1 == ErrorKind::ParserError(rendered),
        k2 == ErrorKind::ParserError(rendered),
{
}

/// The number that a text of decimal digits stands for.
pub open spec fn digits_value(s: Seq<char>) -> nat
    decreases s.len(),
{
    if s.len() == 0 {
        0
    } else {
        digits_value(s.drop_last()) * 10 + ((s.last() as nat) - 48) as nat
    }
}

/// Whether every character of `s` is a decimal digit.
pub open spec fn all_digits(s: Seq<char>) -> bool {
    forall|i: int| 0 <= i < s.len() ==> '0' <= #[trigger] s[i] <= '9'
}

/// The decimal notation of a number is made of digits, stands for that number,
/// and starts with a zero only when the number is zero.
pub proof fn lemma_decimal_is_the_number(n: nat)
    ensures
        decimal(n).len() >= 1,
        all_digits(decimal(n)),
        digits_value(decimal(n)) == n,
        n >= 10 ==> decimal(n)[0] != '0',
    decreases n,
{
    if n < 10 {
        assert(((48 + n) as u8) as char as nat == 48 + n);
        let s = decimal(n);
        assert(s.drop_last() =~= Seq::<char>::empty());
        assert(digits_value(s.drop_last()) == 0);
        assert(s.last() as nat == 48 + n);
    } else {
        lemma_decimal_is_the_number(n / 10);
        let d = n % 10;
        assert(((48 + d) as u8) as char as nat == 48 + d);
        let s = decimal(n);
        assert(s.drop_last() =~= decimal(n / 10));
        assert(decimal(n / 10)[0] == s[0]);
        assert(s.last() as nat == 48 + d);
        assert(digits_value(s) == digits_value(s.drop_last()) * 10 + ((s.last() as nat) - 48) as nat);
        assert(n == (n / 10) * 10 + d);
        assert(all_digits(s)) by {
            assert forall|i: int| 0 <= i < s.len() implies '0' <= #[trigger] s[i] <= '9' by {
                if i < s.len() - 1 {
                    assert(s[i] == decimal(n / 10)[i]);
                }
            }
        }
    }
}

/// Choices name a single option by itself and otherwise say `one of` followed by
/// every option, with a comma and a space between each two.
pub proof fn lemma_choices_list_every_option(list: Seq<Seq<char>>)
    ensures
        list.len() == 1 ==> choices_text(list) == list[0],
        list.len() != 1 ==> choices_text(list) == "one of "@ + joined(list, ", "@),
        list.len() >= 2 ==> choices_text(list).len() == "one of "@.len() + total_len(list) + (
        list.len() - 1) * ", "@.len(),
{
    if list.len() >= 2 {
        lemma_joined_separates_every_text(list, ", "@);
    }
}

/// Whether `part` stands somewhere in `text` as a whole.
pub open spec fn mentions(text: Seq<char>, part: Seq<char>) -> bool {
    exists|i: int| #[trigger] stands_at(text, part, i)
}

/// Whether `part` stands in `text` from position `i` on.
pub open spec fn stands_at(text: Seq<char>, part: Seq<char>, i: int) -> bool {
    0 <= i && i + part.len() <= text.len() && text.subrange(i, i + part.len()) == part
}

broadcast proof fn lemma_mentions_itself(t: Seq<char>)
    ensures
        #[trigger] mentions(t, t),
{
    assert(t.subrange(0, t.len() as int) =~= t);
    assert(stands_at(t, t, 0));
}

broadcast proof fn lemma_mentions_before(x: Seq<char>, y: Seq<char>, t: Seq<char>)
    requires
        mentions(x, t),
    ensures
        #[trigger] mentions(x + y, t),
{
    let i = choose|i: int| #[trigger] stands_at(x, t, i);
    assert((x + y).subrange(i, i + t.len()) =~= x.subrange(i, i + t.len()));
    assert(stands_at(x + y, t, i));
}

broadcast proof fn lemma_mentions_after(x: Seq<char>, y: Seq<char>, t: Seq<char>)
    requires
        mentions(y, t),
    ensures
        #[trigger] mentions(x + y, t),
{
    let i = choose|i: int| #[trigger] stands_at(y, t, i);
    assert((x + y).subrange(x.len() + i, x.len() + i + t.len()) =~= y.subrange(i, i + t.len()));
    assert(stands_at(x + y, t, x.len() + i));
}

/// A message names what its error is about: the token, module, function, key,
/// operator or text that the error carries, and the kinds of values involved.
pub proof fn lemma_messages_mention_what_they_are_about(
    e: Range,
    i: Range,
    a: String,
    b: String,
    c: String,
    n: usize,
    m: usize,
    found: char,
    v: ValueType,
    w: ValueType,
    expected: Vec<String>,
    kinds: Vec<ValueType>,
    suggestion: Option<(usize, String)>,
)
    ensures
        mentions(message_of(ErrorKind::UnrecognizedToken(e, i, a, expected)), a@),
        mentions(message_of(ErrorKind::ExtraToken(e, i, a)), a@),
        mentions(message_of(ErrorKind::TypeConflict(e, i, v, kinds)), kind_name(v)),
        mentions(message_of(ErrorKind::BadArity(e, i, a, b, n, m)), a@),
        mentions(message_of(ErrorKind::BadArity(e, i, a, b, n, m)), b@),
        mentions(message_of(ErrorKind::BadArity(e, i, a, b, n, m)), decimal(n as nat)),
        mentions(message_of(ErrorKind::BadArity(e, i, a, b, n, m)), decimal(m as nat)),
        mentions(message_of(ErrorKind::MissingModule(e, i, a, suggestion)), a@),
        mentions(message_of(ErrorKind::MissingFunction(e, i, a, b, suggestion)), a@),
        mentions(message_of(ErrorKind::MissingFunction(e, i, a, b, suggestion)), b@),
        mentions(message_of(ErrorKind::BadType(e, i, a, b, n)), a@),
        mentions(message_of(ErrorKind::BadType(e, i, a, b, n)), b@),
        mentions(message_of(ErrorKind::BadType(e, i, a, b, n)), decimal(n as nat)),
        mentions(message_of(ErrorKind::RuntimeError(e, i, a, b, n, c)), a@),
        mentions(message_of(ErrorKind::RuntimeError(e, i, a, b, n, c)), b@),
        mentions(message_of(ErrorKind::RuntimeError(e, i, a, b, n, c)), decimal(n as nat)),
        mentions(message_of(ErrorKind::RuntimeError(e, i, a, b, n, c)), c@),
        mentions(message_of(ErrorKind::UnexpectedCharacter(e, i, found)), seq![found]),
        mentions(message_of(ErrorKind::UnexpectedEscapeCode(e, i, a, found)), seq![found]),
        mentions(message_of(ErrorKind::ParserError(a)), a@),
        mentions(message_of(ErrorKind::BadAccessInLocal(e, i, a)), a@),
        mentions(message_of(ErrorKind::BadAccessInGlobal(e, i, a)), a@),
        mentions(message_of(ErrorKind::BadAccessInEvent(e, i, a)), a@),
        mentions(message_of(ErrorKind::ArrayOutOfRange(e, i, IndexRange { start: n, end: m })), decimal(n as nat)),
        n != m ==> mentions(message_of(ErrorKind::ArrayOutOfRange(e, i, IndexRange { start: n, end: m })), decimal(m as nat)),
        mentions(message_of(ErrorKind::InvalidUnary(e, i, a, v)), a@),
        mentions(message_of(ErrorKind::InvalidUnary(e, i, a, v)), kind_name(v)),
        mentions(message_of(ErrorKind::InvalidBinary(e, i, a, v, w)), a@),
        mentions(message_of(ErrorKind::InvalidBinary(e, i, a, v, w)), kind_name(v)),
        mentions(message_of(ErrorKind::InvalidBinary(e, i, a, v, w)), kind_name(w)),
        mentions(message_of(ErrorKind::InvalidExtractor(e, i, b, c, a)), a@),
        mentions(message_of(ErrorKind::InsertKeyExists(e, i, a)), a@),
        mentions(message_of(ErrorKind::UpdateKeyMissing(e, i, a)), a@),
        mentions(message_of(ErrorKind::MergeTypeConflict(e, i, a, v)), a@),
        mentions(message_of(ErrorKind::MergeTypeConflict(e, i, a, v)), kind_name(v)),
        mentions(message_of(ErrorKind::OverwritingLocal(e, i, a)), a@),
        mentions(message_of(ErrorKind::InvalidInfluxData(a)), a@),
        message_of(ErrorKind::Msg(a)) == a@,
        message_of(ErrorKind::Io(a, b)) == a@,
        message_of(ErrorKind::Grok(a, b)) == a@,
        message_of(ErrorKind::Utf8Error(a, b)) == a@,
        message_of(ErrorKind::ParseIntError(a, b)) == a@,
{
    broadcast use lemma_mentions_itself, lemma_mentions_before, lemma_mentions_after;

}

/// A kind that carries one span marks it and shows it widened by two lines at
/// each end (stopping at the top), keeping columns and offsets.
pub proof fn lemma_single_span_kinds_show_two_more_lines(r: Range)
    requires
        r.can_expand(2),
    ensures
        context_of(ErrorKind::NoClauseHit(r)) == context_of(ErrorKind::Oops(r)),
        context_of(ErrorKind::NoClauseHit(r)) matches (Some(shown), Some(marked)) && marked == r
            && shown.0.line == (if r.0.line >= 2 {
            r.0.line - 2
        } else {
            0
        }) && shown.1.line == r.1.line + 2 && shown.0.column == r.0.column && shown.0.absolute
            == r.0.absolute && shown.1.column == r.1.column && shown.1.absolute == r.1.absolute,
{
}

/// Messages name different kinds of values differently.
pub proof fn lemma_kind_names_differ(a: ValueType, b: ValueType)
    ensures
        kind_name(a) == kind_name(b) ==> a == b,
{
    reveal_strlit("null");
    reveal_strlit("boolean");
    reveal_strlit("string");
    reveal_strlit("integer");
    reveal_strlit("float");
    reveal_strlit("array");
    reveal_strlit("record");
    if kind_name(a) == kind_name(b) {
        assert(kind_name(a)[0] == kind_name(b)[0]);
        assert(kind_name(a).len() == kind_name(b).len());
    }
}

/// Failures from outside scripts are described by the description they carry, and
/// a plain message by itself; their messages are the failure's own message.
pub proof fn lemma_carried_texts_describe(a: String, b: String)
    ensures
        description_of(ErrorKind::Io(a, b)) == b@,
        description_of(ErrorKind::Grok(a, b)) == b@,
        description_of(ErrorKind::Utf8Error(a, b)) == b@,
        description_of(ErrorKind::ParseIntError(a, b)) == b@,
        description_of(ErrorKind::Msg(a)) == a@,
{
}

/// The total length of the texts in `list`.
pub open spec fn total_len(list: Seq<Seq<char>>) -> nat
    decreases list.len(),
{
    if list.len() == 0 {
        0
    } else {
        total_len(list.drop_last()) + list.last().len()
    }
}

/// Joining `n >= 1` texts gives the first text, then each later text with the
/// separator before it; so its length is that of the texts plus `n - 1`
/// separators.
pub proof fn lemma_joined_separates_every_text(list: Seq<Seq<char>>, sep: Seq<char>)
    requires
        list.len() >= 1,
    ensures
        joined(list, sep) == list[0] + list.drop_first().map_values(|t: Seq<char>| sep + t).flatten(),
        joined(list, sep).len() == total_len(list) + (list.len() - 1) * sep.len(),
    decreases list.len(),
{
    let tail = list.drop_first().map_values(|t: Seq<char>| sep + t);
    if list.len() == 1 {
        assert(tail =~= Seq::<Seq<char>>::empty());
        assert(list.drop_last() =~= Seq::<Seq<char>>::empty());
        assert(list[0] + tail.flatten() =~= list[0]);
        assert(total_len(list.drop_last()) == 0);
        assert(total_len(list) == list[0].len());
        assert(joined(list, sep) == list[0]);
        assert((list.len() - 1) * sep.len() == 0);
    } else {
        let front = list.drop_last();
        lemma_joined_separates_every_text(front, sep);
        let front_tail = front.drop_first().map_values(|t: Seq<char>| sep + t);
        assert(tail =~= front_tail.push(sep + list.last()));
        front_tail.lemma_flatten_push(sep + list.last());
        assert(front[0] == list[0]);
        assert(joined(list, sep) =~= list[0] + tail.flatten());
        assert(joined(list, sep) == joined(front, sep) + sep + list.last());
        assert(total_len(list) == total_len(front) + list.last().len());
        assert((list.len() - 1) * sep.len() == (front.len() - 1) * sep.len() + sep.len())
            by (nonlinear_arith)
            requires
                front.len() == list.len() - 1,
        ;
    }
}

} // verus!
