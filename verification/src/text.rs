//! Building the text of messages: joining, listing choices, numbers and characters.

use vstd::prelude::*;

verus! {

/// Appends one character to a string.
///
/// Calls `String::push`, which appends the given character at the end of the
/// string; the contract says exactly that of the string's characters.
#[verifier::external_body]
pub(crate) fn push_char(s: &mut String, c: char)
    ensures
        final(s)@ == old(s)@.push(c),
{
    s.push(c);
}

/// The decimal digit for `d`, which is below ten.
pub open spec fn digit(d: nat) -> char {
    ((48 + d) as u8) as char
}

/// The decimal notation of `n`, most significant digit first, without leading zeros.
pub open spec fn decimal(n: nat) -> Seq<char>
    decreases n,
{
    if n < 10 {
        seq![digit(n)]
    } else {
        decimal(n / 10).push(digit(n % 10))
    }
}

/// Appends the decimal notation of `n` to `s`.
pub fn write_decimal(s: &mut String, n: usize)
    ensures
        final(s)@ == old(s)@ + decimal(n as nat),
    decreases n,
{
    if n >= 10 {
        write_decimal(s, n / 10);
    }
    let d: u8 = (n % 10) as u8;
    push_char(s, (48u8 + d) as char);
    assert(s@ =~= old(s)@ + decimal(n as nat));
}

/// `s` with every double quote replaced by a backtick.
pub open spec fn quotes_to_backticks(s: Seq<char>) -> Seq<char> {
    s.map_values(|c: char| if c == '"' { '`' } else { c })
}

/// Replaces every double quote in `s` by a backtick.
pub fn replace_quotes(s: &String) -> (r: String)
    ensures
        r@ == quotes_to_backticks(s@),
{
    broadcast use vstd::string::group_string_axioms;

    let mut out = String::new();
    for c in it: s.as_str().chars()
        invariant
            it.seq() == s@,
            out@ == quotes_to_backticks(s@.take(it.index() as int)),
    {
        let ghost before = out@;
        if c == '"' {
            push_char(&mut out, '`');
        } else {
            push_char(&mut out, c);
        }
        assert(s@.take(it.index() + 1) == s@.take(it.index() as int).push(c));
        assert(out@ =~= quotes_to_backticks(s@.take(it.index() + 1)));
    }
    assert(s@.take(s@.len() as int) =~= s@);
    out
}

/// The texts of `list`, one after the other, with `sep` between each two.
pub open spec fn joined(list: Seq<Seq<char>>, sep: Seq<char>) -> Seq<char>
    decreases list.len(),
{
    if list.len() == 0 {
        Seq::empty()
    } else if list.len() == 1 {
        list[0]
    } else {
        joined(list.drop_last(), sep) + sep + list.last()
    }
}

/// Joins the strings of `list`, putting `sep` between each two.
pub fn join(list: &[String], sep: &str) -> (r: String)
    ensures
        r@ == joined(list.deep_view(), sep@),
{
    let ghost texts = list.deep_view();
    let mut out = String::new();
    let mut i: usize = 0;
    while i < list.len()
        invariant
            i <= list@.len(),
            texts == list.deep_view(),
            out@ == joined(texts.take(i as int), sep@),
        decreases list@.len() - i,
    {
        if i != 0 {
            out.append(sep);
        }
        out.append(list[i].as_str());
        assert(texts.take(i + 1).drop_last() =~= texts.take(i as int));
        i = i + 1;
    }
    assert(texts.take(list@.len() as int) =~= texts);
    out
}

/// How a message names what was expected: the one choice itself, or `one of` a
/// comma separated list of them.
pub open spec fn choices_text(list: Seq<Seq<char>>) -> Seq<char> {
    if list.len() == 1 {
        list[0]
    } else {
        "one of "@ + joined(list, ", "@)
    }
}

/// Names the choices that were expected: the choice itself where there is one,
/// otherwise `one of` followed by the choices separated by commas.
pub fn choices(options: &[String]) -> (r: String)
    ensures
        r@ == choices_text(options.deep_view()),
{
    if options.len() == 1 {
        options[0].clone()
    } else {
        let listed = join(options, ", ");
        let mut out = String::from_str("one of ");
        out.append(listed.as_str());
        out
    }
}

} // verus!
