//! Raising errors at the expressions of a script.

use vstd::prelude::*;

use crate::error::Error;
use crate::error_kind::{ErrorKind, IndexRange};
use crate::pos::{expanded, Location, Range};
use crate::value_type::ValueType;

verus! {

/// An expression of a script, as errors see it: where it starts and where it ends.
#[derive(Clone, Copy, Debug, PartialEq, Eq, Structural, Hash)]
pub struct Expr {
    pub start: Location,
    pub end: Location,
}

/// Where a path in a script starts: at a local variable, at the metadata or at the event.
#[derive(Clone, Copy, Debug, PartialEq, Eq, Structural, Hash)]
pub enum Path {
    Local,
    Meta,
    Event,
}

/// The error of kind `k`, raised.
pub open spec fn raised<T>(k: ErrorKind) -> Result<T, Error> {
    Err(Error(k))
}

impl Expr {
    /// The span of the expression.
    pub open spec fn span(self) -> Range {
        Range(self.start, self.end)
    }

    /// The span of the expression.
    pub fn range(&self) -> (r: Range)
        ensures
            r == self.span(),
    {
        Range(self.start, self.end)
    }

    /// An index range of an array, met at `inner` inside this expression, is out of range.
    pub fn error_array_out_of_bound<T>(
        &self,
        inner: &Expr,
        path: &Path,
        r: IndexRange,
    ) -> (res: Result<T, Error>)
        ensures
            res == raised::<T>(ErrorKind::ArrayOutOfRange(self.span(), inner.span(), r)),
    {
        let expr = self.range();
        Err(
            match path {
                Path::Local => Error(ErrorKind::ArrayOutOfRange(expr, inner.range(), r)),
                Path::Meta => Error(ErrorKind::ArrayOutOfRange(expr, inner.range(), r)),
                Path::Event => Error(ErrorKind::ArrayOutOfRange(expr, inner.range(), r)),
            },
        )
    }

    /// The key, met at `inner` inside this expression, does not exist where the path leads.
    pub fn error_bad_key<T>(&self, inner: &Expr, path: &Path, key: String) -> (res: Result<
        T,
        Error,
    >)
        ensures
            res == raised::<T>(
                match path {
                    Path::Local => ErrorKind::BadAccessInLocal(self.span(), inner.span(), key),
                    Path::Meta => ErrorKind::BadAccessInGlobal(self.span(), inner.span(), key),
                    Path::Event => ErrorKind::BadAccessInEvent(self.span(), inner.span(), key),
                },
            ),
    {
        let expr = self.range();
        Err(
            match path {
                Path::Local => Error(ErrorKind::BadAccessInLocal(expr, inner.range(), key)),
                Path::Meta => Error(ErrorKind::BadAccessInGlobal(expr, inner.range(), key)),
                Path::Event => Error(ErrorKind::BadAccessInEvent(expr, inner.range(), key)),
            },
        )
    }

    /// A value at `inner` is of kind `got` where one of the `expected` kinds was needed.
    pub fn error_type_conflict_mult<T>(
        &self,
        inner: &Expr,
        got: ValueType,
        expected: Vec<ValueType>,
    ) -> (res: Result<T, Error>)
        ensures
            res == raised::<T>(ErrorKind::TypeConflict(self.span(), inner.span(), got, expected)),
    {
        Err(Error(ErrorKind::TypeConflict(self.range(), inner.range(), got, expected)))
    }

    /// A value at `inner` is of kind `got` where a value of kind `expected` was needed.
    pub fn error_type_conflict<T>(&self, inner: &Expr, got: ValueType, expected: ValueType) -> (res:
        Result<T, Error>)
        ensures
            res matches Err(e) && e.0 matches ErrorKind::TypeConflict(outer, at, g, kinds) && outer
                == self.span() && at == inner.span() && g == got && kinds@ == seq![expected],
    {
        let mut kinds: Vec<ValueType> = Vec::new();
        kinds.push(expected);
        self.error_type_conflict_mult(inner, got, kinds)
    }

    /// The guard at `inner` gave a value of kind `got` where a boolean was needed.
    pub fn error_guard_not_bool<T>(&self, inner: &Expr, got: ValueType) -> (res: Result<T, Error>)
        ensures
            res matches Err(e) && e.0 matches ErrorKind::TypeConflict(outer, at, g, kinds) && outer
                == self.span() && at == inner.span() && g == got && kinds@ == seq![ValueType::Bool],
    {
        self.error_type_conflict(inner, got, ValueType::Bool)
    }

    /// The unary operator `op` does not apply to a value of kind `val`.
    pub fn error_invalid_unary<T>(&self, inner: &Expr, op: String, val: ValueType) -> (res: Result<
        T,
        Error,
    >)
        ensures
            res == raised::<T>(ErrorKind::InvalidUnary(self.span(), inner.span(), op, val)),
    {
        Err(Error(ErrorKind::InvalidUnary(self.range(), inner.range(), op, val)))
    }

    /// The binary operator `op` does not apply to values of kinds `left` and `right`.
    pub fn error_invalid_binary<T>(
        &self,
        inner: &Expr,
        op: String,
        left: ValueType,
        right: ValueType,
    ) -> (res: Result<T, Error>)
        ensures
            res == raised::<T>(
                ErrorKind::InvalidBinary(self.span(), inner.span(), op, left, right),
            ),
    {
        Err(Error(ErrorKind::InvalidBinary(self.range(), inner.range(), op, left, right)))
    }

    /// No clause of this match expression matched.
    pub fn error_no_clause_hit<T>(&self) -> (res: Result<T, Error>)
        ensures
            res == raised::<T>(ErrorKind::NoClauseHit(self.span())),
    {
        Err(Error(ErrorKind::NoClauseHit(self.range())))
    }

    /// Something went wrong at this expression that should not have.
    pub fn error_oops<T>(&self) -> (res: Result<T, Error>)
        ensures
            res == raised::<T>(ErrorKind::Oops(self.span())),
    {
        Err(Error(ErrorKind::Oops(self.range())))
    }

    /// A patch inserts the key `key`, which exists already.
    pub fn error_patch_insert_key_exists<T>(&self, inner: &Expr, key: String) -> (res: Result<
        T,
        Error,
    >)
        ensures
            res == raised::<T>(ErrorKind::InsertKeyExists(self.span(), inner.span(), key)),
    {
        Err(Error(ErrorKind::InsertKeyExists(self.range(), inner.range(), key)))
    }

    /// A patch updates the key `key`, which does not exist.
    pub fn error_patch_update_key_missing<T>(&self, inner: &Expr, key: String) -> (res: Result<
        T,
        Error,
    >)
        ensures
            res == raised::<T>(ErrorKind::UpdateKeyMissing(self.span(), inner.span(), key)),
    {
        Err(Error(ErrorKind::UpdateKeyMissing(self.range(), inner.range(), key)))
    }

    /// The clause at `inner` has no body.
    pub fn error_missing_effector<T>(&self, inner: &Expr) -> (res: Result<T, Error>)
        ensures
            res == raised::<T>(ErrorKind::MissingEffectors(self.span(), inner.span())),
    {
        Err(Error(ErrorKind::MissingEffectors(self.range(), inner.range())))
    }

    /// A comprehension case overwrites the local variable `key`.
    pub fn error_overwriting_local_in_comprehension<T>(&self, inner: &Expr, key: String) -> (res:
        Result<T, Error>)
        ensures
            res == raised::<T>(ErrorKind::OverwritingLocal(self.span(), inner.span(), key)),
    {
        Err(Error(ErrorKind::OverwritingLocal(self.range(), inner.range(), key)))
    }

    /// A patch merges into the key `key`, whose value is of kind `val` and not a record.
    pub fn error_patch_merge_type_conflict<T>(
        &self,
        inner: &Expr,
        key: String,
        val: ValueType,
    ) -> (res: Result<T, Error>)
        ensures
            res == raised::<T>(ErrorKind::MergeTypeConflict(self.span(), inner.span(), key, val)),
    {
        Err(Error(ErrorKind::MergeTypeConflict(self.range(), inner.range(), key, val)))
    }

    /// A value is assigned into an array.
    pub fn error_assign_array<T>(&self, inner: &Expr) -> (res: Result<T, Error>)
        ensures
            res == raised::<T>(ErrorKind::AssignIntoArray(self.span(), inner.span())),
    {
        Err(Error(ErrorKind::AssignIntoArray(self.range(), inner.range())))
    }

    /// This expression cannot be assigned to; the error shows it widened by two lines.
    pub fn error_invalid_assign_target<T>(&self) -> (res: Result<T, Error>)
        requires
            self.span().can_expand(2),
        ensures
            res == raised::<T>(ErrorKind::InvalidAssign(expanded(self.span(), 2), self.span())),
    {
        let inner = self.range();
        Err(Error(ErrorKind::InvalidAssign(inner.expand_lines(2), inner)))
    }
}

} // verus!
