# tremor_script errors

The errors of the tremor scripting language, verified with Verus: what went
wrong, where in the script it happened, the message and the hint shown to the
user.

- `src/pos.rs`: positions and spans in a script.
- `src/value_type.rs`: the kinds of values and how messages name them.
- `src/text.rs`: building message text (joining, choices, numbers, quotes).
- `src/hints.rs`: edit distances and the closest suggestion among options.
- `src/error_kind.rs`: the kinds of errors, where they point, their messages,
  descriptions, tokens and hints.
- `src/error.rs`: the error type.
- `src/expr.rs`: raising errors at expressions.
- `src/parse_error.rs`: turning parser reports into script errors.
- `src/laws.rs`: properties that span these functions.
- `app/lib.rs`: `Display` and `std::error::Error`, and conversions from the
  errors of the standard library.
