//! In-memory columnar tables.
//!
//! A [`Table`] is an ordered collection of named columns, each holding one
//! optional text value per row.  The structural invariant is that every
//! column has the same number of values: the table's row count.

use vstd::prelude::*;

verus! {

/// Mathematical value of one column: its name and its cells, top to bottom.
pub struct ColumnModel {
    pub name: Seq<char>,
    pub cells: Seq<Option<Seq<char>>>,
}

/// Mathematical value of a table: a row count and the columns in order.
pub struct TableModel {
    pub rows: nat,
    pub cols: Seq<ColumnModel>,
}

impl TableModel {
    /// Structural invariant: every column holds exactly `rows` cells.
    pub open spec fn wf(self) -> bool {
        forall|j: int| 0 <= j < self.cols.len() ==> (#[trigger] self.cols[j]).cells.len() == self.rows
    }

    /// The (row count, column count) pair used for change detection.
    pub open spec fn shape(self) -> (nat, nat) {
        (self.rows, self.cols.len())
    }

    /// The table with the given column names and no rows.
    pub open spec fn empty(names: Seq<Seq<char>>) -> TableModel {
        TableModel {
            rows: 0,
            cols: Seq::new(names.len(), |j: int| ColumnModel { name: names[j], cells: Seq::empty() }),
        }
    }
}

/// One named column of optional text values.
#[derive(Clone, Debug, PartialEq, Eq)]
pub struct Column {
    name: String,
    cells: Vec<Option<String>>,
}

impl View for Column {
    type V = ColumnModel;

    closed spec fn view(&self) -> ColumnModel {
        ColumnModel { name: self.name@, cells: self.cells.deep_view() }
    }
}

impl Column {
    /// A column assembled from its name and cells.
    pub fn new(name: String, cells: Vec<Option<String>>) -> (c: Column)
        ensures
            c@ == (ColumnModel { name: name@, cells: cells.deep_view() }),
    {
        Column { name, cells }
    }

    /// The column's name.
    pub fn name(&self) -> (r: &String)
        ensures
            r@ == self@.name,
    {
        &self.name
    }

    /// The number of cells in the column.
    pub fn len(&self) -> (n: usize)
        ensures
            n == self@.cells.len(),
    {
        self.cells.len()
    }

    /// The cell at row `i`.
    pub fn cell(&self, i: usize) -> (r: &Option<String>)
        requires
            i < self@.cells.len(),
        ensures
            r.deep_view() == self@.cells[i as int],
    {
        &self.cells[i]
    }
}

/// An in-memory columnar table; all columns have the same length.
#[derive(Clone, Debug, PartialEq, Eq)]
pub struct Table {
    rows: usize,
    cols: Vec<Column>,
}

impl View for Table {
    type V = TableModel;

    closed spec fn view(&self) -> TableModel {
        TableModel { rows: self.rows as nat, cols: self.cols.deep_view() }
    }
}

impl DeepView for Column {
    type V = ColumnModel;

    open spec fn deep_view(&self) -> ColumnModel {
        self.view()
    }
}

impl DeepView for Table {
    type V = TableModel;

    open spec fn deep_view(&self) -> TableModel {
        self.view()
    }
}

impl Table {
    /// Structural invariant: uniform row count across columns.
    pub open spec fn wf(self) -> bool {
        self@.wf()
    }

    /// A table with the given column names and zero rows.
    pub fn new(names: Vec<String>) -> (t: Table)
        ensures
            t@ == TableModel::empty(names.deep_view()),
            t.wf(),
    {
        let mut cols: Vec<Column> = Vec::new();
        let mut j: usize = 0;
        while j < names.len()
            invariant
                j <= names.len(),
                cols.deep_view().len() == j,
                forall|k: int| 0 <= k < j ==> #[trigger] cols.deep_view()[k]
                    == (ColumnModel { name: names.deep_view()[k], cells: Seq::empty() }),
            decreases names.len() - j,
        {
            let ghost dv_pre = cols.deep_view();
            cols.push(Column { name: names[j].clone(), cells: Vec::new() });
            proof {
                assert forall|k: int| 0 <= k < j + 1 implies #[trigger] cols.deep_view()[k]
                    == (ColumnModel { name: names.deep_view()[k], cells: Seq::empty() }) by {
                    if k < j {
                        assert(cols.deep_view()[k] == dv_pre[k]);
                    } else {
                        assert(cols.deep_view()[j as int].cells =~= Seq::<Option<Seq<char>>>::empty());
                        assert(cols.deep_view()[j as int].name == names.deep_view()[j as int]);
                    }
                }
            }
            j = j + 1;
        }
        let t = Table { rows: 0, cols };
        proof {
            assert(t@.cols =~= TableModel::empty(names.deep_view()).cols);
            assert(t@ =~= TableModel::empty(names.deep_view()));
        }
        t
    }

    /// A table assembled from columns of uniform height.
    pub fn from_columns(rows: usize, cols: Vec<Column>) -> (t: Table)
        requires
            forall|j: int| 0 <= j < cols.deep_view().len()
                ==> (#[trigger] cols.deep_view()[j]).cells.len() == rows,
        ensures
            t@ == (TableModel { rows: rows as nat, cols: cols.deep_view() }),
            t.wf(),
    {
        Table { rows, cols }
    }

    /// The number of rows.
    pub fn num_rows(&self) -> (n: usize)
        ensures
            n == self@.rows,
    {
        self.rows
    }

    /// The number of columns.
    pub fn num_cols(&self) -> (n: usize)
        ensures
            n == self@.cols.len(),
    {
        self.cols.len()
    }

    /// The column at position `j`.
    pub fn column(&self, j: usize) -> (c: &Column)
        requires
            j < self@.cols.len(),
        ensures
            c@ == self@.cols[j as int],
    {
        &self.cols[j]
    }

    /// The cell at row `i` of column `j`.
    pub fn cell(&self, i: usize, j: usize) -> (r: &Option<String>)
        requires
            self.wf(),
            i < self@.rows,
            j < self@.cols.len(),
        ensures
            r.deep_view() == self@.cols[j as int].cells[i as int],
    {
        proof {
            assert(self@.cols[j as int].cells.len() == self@.rows);
        }
        self.cols[j].cell(i)
    }

    /// The text shown for a cell: its value, or empty when absent.
    pub fn cell_text(&self, i: usize, j: usize) -> (r: String)
        requires
            self.wf(),
            i < self@.rows,
            j < self@.cols.len(),
        ensures
            r@ == match self@.cols[j as int].cells[i as int] {
                Option::Some(s) => s,
                Option::None => Seq::<char>::empty(),
            },
    {
        match self.cell(i, j) {
            Option::Some(s) => s.clone(),
            Option::None => String::new(),
        }
    }

    /// Appends one row; the row must supply one value per column.
    pub fn push_row(&mut self, row: Vec<Option<String>>)
        requires
            old(self).wf(),
            row@.len() == old(self)@.cols.len(),
            old(self)@.rows < usize::MAX,
        ensures
            final(self).wf(),
            final(self)@.rows == old(self)@.rows + 1,
            final(self)@.cols.len() == old(self)@.cols.len(),
            forall|j: int| 0 <= j < old(self)@.cols.len() ==> (#[trigger] final(self)@.cols[j])
                == (ColumnModel {
                    name: old(self)@.cols[j].name,
                    cells: old(self)@.cols[j].cells.push(row.deep_view()[j]),
                }),
    {
        let ghost pre = self@;
        let ghost row_model = row.deep_view();
        let mut row = row;
        let mut old_cols: Vec<Column> = Vec::new();
        core::mem::swap(&mut self.cols, &mut old_cols);
        let n = old_cols.len();
        let mut new_cols: Vec<Column> = Vec::new();
        let mut j: usize = 0;
        while j < n
            invariant
                j <= n,
                n == pre.cols.len(),
                row_model.len() == n,
                old_cols@.len() == n - j,
                row@.len() == n - j,
                old_cols.deep_view() =~= pre.cols.skip(j as int),
                row.deep_view() =~= row_model.skip(j as int),
                new_cols.deep_view().len() == j,
                forall|k: int| 0 <= k < j ==> (#[trigger] new_cols.deep_view()[k])
                    == (ColumnModel { name: pre.cols[k].name, cells: pre.cols[k].cells.push(row_model[k]) }),
            decreases n - j,
        {
            let ghost oc_prev = old_cols@;
            let ghost row_prev = row@;
            let mut c = old_cols.remove(0);
            let cell = row.remove(0);
            proof {
                assert(c.deep_view() == oc_prev[0].deep_view());
                assert(c@ == pre.cols.skip(j as int)[0]);
                assert(cell.deep_view() == row_prev[0].deep_view());
                assert(cell.deep_view() == row_model.skip(j as int)[0]);
                assert forall|i: int| 0 <= i < old_cols@.len() implies old_cols.deep_view()[i]
                    == pre.cols.skip(j as int + 1)[i] by {
                    assert(old_cols@[i] == oc_prev[i + 1]);
                    assert(oc_prev[i + 1].deep_view() == pre.cols.skip(j as int)[i + 1]);
                }
                assert(old_cols.deep_view() =~= pre.cols.skip(j as int + 1));
                assert forall|i: int| 0 <= i < row@.len() implies row.deep_view()[i]
                    == row_model.skip(j as int + 1)[i] by {
                    assert(row@[i] == row_prev[i + 1]);
                    assert(row_prev[i + 1].deep_view() == row_model.skip(j as int)[i + 1]);
                }
                assert(row.deep_view() =~= row_model.skip(j as int + 1));
            }
            c.cells.push(cell);
            proof {
                assert(c@.cells =~= pre.cols[j as int].cells.push(row_model[j as int]));
            }
            let ghost nc_pre = new_cols.deep_view();
            let ghost c_model = c@;
            new_cols.push(c);
            proof {
                assert forall|k: int| 0 <= k < j + 1 implies (#[trigger] new_cols.deep_view()[k])
                    == (ColumnModel { name: pre.cols[k].name, cells: pre.cols[k].cells.push(row_model[k]) }) by {
                    if k < j {
                        assert(new_cols.deep_view()[k] == nc_pre[k]);
                    } else {
                        assert(new_cols.deep_view()[j as int] == c_model);
                    }
                }
            }
            j = j + 1;
        }
        core::mem::swap(&mut self.cols, &mut new_cols);
        self.rows = self.rows + 1;
    }
}

} // verus!
