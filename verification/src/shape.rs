//! Shape-only change detection.
//!
//! Two in-memory snapshots count as "the same" when both are absent, or both
//! are present with equal shape: equal row count and column count.  Cell
//! contents are deliberately ignored — re-render decisions downstream are
//! built against exactly this coarseness, so this is a named capability of
//! its own, not a general equality, and must not be deepened.

use vstd::prelude::*;
use crate::table::{Table, TableModel};

verus! {

/// Shape-only sameness of two optional tables: both absent, or both present
/// with equal (row count, column count).
pub open spec fn spec_same(a: Option<TableModel>, b: Option<TableModel>) -> bool {
    match (a, b) {
        (Option::None, Option::None) => true,
        (Option::Some(x), Option::Some(y)) => x.shape() == y.shape(),
        _ => false,
    }
}

/// The shape of a table: its (row count, column count) pair.
pub fn shape(t: &Table) -> (r: (usize, usize))
    ensures
        (r.0 as nat, r.1 as nat) == t@.shape(),
{
    (t.num_rows(), t.num_cols())
}

/// Shape equality of two tables; cell values play no part.
pub fn same_shape(a: &Table, b: &Table) -> (r: bool)
    ensures
        r == (a@.shape() == b@.shape()),
{
    let rows_eq = a.num_rows() == b.num_rows();
    let cols_eq = a.num_cols() == b.num_cols();
    rows_eq && cols_eq
}

/// The snapshot a view keeps of its dataset: a table, or nothing loaded yet.
pub struct DataFrameWrapper(pub Option<Table>);

impl View for DataFrameWrapper {
    type V = Option<TableModel>;

    open spec fn view(&self) -> Option<TableModel> {
        match self.0 {
            Option::Some(t) => Option::Some(t@),
            Option::None => Option::None,
        }
    }
}

impl DataFrameWrapper {
    /// Sameness under the shape-only rule: absent matches only absent, and
    /// two present tables match exactly when their shapes are equal.
    pub fn same(&self, other: &DataFrameWrapper) -> (r: bool)
        ensures
            r == spec_same(self@, other@),
    {
        match (&self.0, &other.0) {
            (Option::Some(a), Option::Some(b)) => same_shape(a, b),
            (Option::None, Option::None) => true,
            _ => false,
        }
    }
}

/// Shape-only sameness is an equivalence: reflexive, symmetric and
/// transitive — and blind to cell values: two present tables of equal shape
/// are the same whatever their contents.
pub proof fn lemma_same_equivalence(a: Option<TableModel>, b: Option<TableModel>, c: Option<TableModel>)
    ensures
        spec_same(a, a),
        spec_same(a, b) == spec_same(b, a),
        spec_same(a, b) && spec_same(b, c) ==> spec_same(a, c),
{
}

} // verus!
