//! The kinds of values a script computes with, as errors name them.

use vstd::prelude::*;

verus! {

/// The kind of a value.
#[derive(Clone, Copy, Debug, PartialEq, Eq, Structural, Hash)]
pub enum ValueType {
    Null,
    Bool,
    String,
    I64,
    F64,
    Array,
    Object,
}

/// How messages name a kind of value; objects are called records in scripts.
pub open spec fn kind_name(t: ValueType) -> Seq<char> {
    match t {
        ValueType::Null => "null"@,
        ValueType::Bool => "boolean"@,
        ValueType::String => "string"@,
        ValueType::I64 => "integer"@,
        ValueType::F64 => "float"@,
        ValueType::Array => "array"@,
        ValueType::Object => "record"@,
    }
}

/// The name of a kind of value in messages.
pub fn t2s(t: ValueType) -> (r: &'static str)
    ensures
        r@ == kind_name(t),
{
    match t {
        ValueType::Null => "null",
        ValueType::Bool => "boolean",
        ValueType::String => "string",
        ValueType::I64 => "integer",
        ValueType::F64 => "float",
        ValueType::Array => "array",
        ValueType::Object => "record",
    }
}

/// The names of the kinds in `types`, in order.
pub fn kind_names(types: &Vec<ValueType>) -> (r: Vec<String>)
    ensures
        r.deep_view() == types@.map_values(|t: ValueType| kind_name(t)),
{
    let mut out: Vec<String> = Vec::new();
    let mut i: usize = 0;
    while i < types.len()
        invariant
            i <= types@.len(),
            out.deep_view() == types@.take(i as int).map_values(|t: ValueType| kind_name(t)),
        decreases types@.len() - i,
    {
        let ghost prev = out.deep_view();
        let name = String::from_str(t2s(types[i]));
        out.push(name);
        assert(out.deep_view() =~= prev.push(kind_name(types@[i as int])));
        assert(types@.take(i + 1) =~= types@.take(i as int).push(types@[i as int]));
        assert(out.deep_view() =~= types@.take(i + 1).map_values(|t: ValueType| kind_name(t)));
        i = i + 1;
    }
    assert(types@.take(types@.len() as int) =~= types@);
    out
}

} // verus!
