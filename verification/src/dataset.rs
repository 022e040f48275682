//! The tabular data that a chart is built from: named columns of equal
//! length, each either a text column or a number column. A cell is absent
//! (missing value) or holds a text; in a number column a present cell is
//! expected to hold a decimal numeric literal.

use vstd::prelude::*;
use vstd::string::StringExecFns;

use crate::text::is_number_text;
use crate::text::is_numeric_literal;

verus! {

/// The text standing in for a missing or non-numeric value cell.
pub open spec fn zero_text() -> Seq<char> {
    seq!['0']
}

/// The axis label drawn from one cell of the label column: the cell's text,
/// or the empty text when the cell is missing.
pub open spec fn spec_x_label(cell: Option<Seq<char>>) -> Seq<char> {
    match cell {
        Option::Some(t) => t,
        Option::None => Seq::empty(),
    }
}

/// The axis labels drawn from a label column, row for row.
pub open spec fn spec_x_labels(cells: Seq<Option<Seq<char>>>) -> Seq<Seq<char>> {
    cells.map_values(|c: Option<Seq<char>>| spec_x_label(c))
}

/// The series value drawn from one cell of the value column: the cell's
/// text; zero when the cell is missing, or when the column is a text column
/// and the cell is not a decimal numeric literal.
pub open spec fn spec_y_value(kind: ColumnKind, cell: Option<Seq<char>>) -> Seq<char> {
    match cell {
        Option::None => zero_text(),
        Option::Some(t) => if kind == ColumnKind::Text && !is_number_text(t) {
            zero_text()
        } else {
            t
        },
    }
}

/// The series values drawn from a value column, row for row.
pub open spec fn spec_y_values(col: ColumnModel) -> Seq<Seq<char>> {
    col.cells.map_values(|c: Option<Seq<char>>| spec_y_value(col.kind, c))
}

/// Whether a column carries label text or numeric values.
#[derive(Clone, Copy, PartialEq, Eq, Structural, Debug)]
pub enum ColumnKind {
    Text,
    Number,
}

/// The mathematical model of one column.
#[verifier::ext_equal]
pub struct ColumnModel {
    pub name: Seq<char>,
    pub kind: ColumnKind,
    pub cells: Seq<Option<Seq<char>>>,
}

struct Column {
    name: String,
    kind: ColumnKind,
    cells: Vec<Option<String>>,
}

impl View for Column {
    type V = ColumnModel;

    closed spec fn view(&self) -> ColumnModel {
        ColumnModel { name: self.name@, kind: self.kind, cells: self.cells.deep_view() }
    }
}

impl DeepView for Column {
    type V = ColumnModel;

    open spec fn deep_view(&self) -> ColumnModel {
        self.view()
    }
}

/// The row count of a column set: the length of its first column, or zero
/// when there are no columns.
pub open spec fn spec_rows(cols: Seq<ColumnModel>) -> nat {
    if cols.len() == 0 {
        0
    } else {
        cols[0].cells.len()
    }
}

/// Every column of the set has the same length.
pub open spec fn rows_consistent(cols: Seq<ColumnModel>) -> bool {
    forall|i: int| 0 <= i < cols.len() ==> (#[trigger] cols[i]).cells.len() == spec_rows(cols)
}

/// Index of the first column named `name` at or after position `k`, or -1.
pub open spec fn find_from(cols: Seq<ColumnModel>, name: Seq<char>, k: int) -> int
    decreases cols.len() - k,
{
    if k < 0 || k >= cols.len() {
        -1
    } else if cols[k].name == name {
        k
    } else {
        find_from(cols, name, k + 1)
    }
}

/// Index of the first column named `name`, or -1 when no column has that name.
pub open spec fn spec_find(cols: Seq<ColumnModel>, name: Seq<char>) -> int {
    find_from(cols, name, 0)
}

/// What `find_from` returns: either -1 and no column in `k..` is named
/// `name`, or the first such position.
pub proof fn lemma_find_from(cols: Seq<ColumnModel>, name: Seq<char>, k: int)
    requires
        0 <= k,
    ensures
        find_from(cols, name, k) == -1 ==> forall|i: int|
            k <= i < cols.len() ==> (#[trigger] cols[i]).name != name,
        find_from(cols, name, k) != -1 ==> k <= find_from(cols, name, k) < cols.len() && cols[
            find_from(cols, name, k)
        ].name == name,
    decreases cols.len() - k,
{
    if k < cols.len() && cols[k].name != name {
        lemma_find_from(cols, name, k + 1);
    }
}

/// Failure of adding a column to a dataset.
#[derive(Clone, Copy, PartialEq, Eq, Structural, Debug)]
pub enum DatasetError {
    /// The new column's length differs from the dataset's row count.
    ShapeMismatch,
    /// A column with the same name is already present.
    DuplicateColumn,
}

/// A dataset: named columns of equal length. Its view is the sequence of
/// column models, in insertion order.
pub struct Dataset {
    columns: Vec<Column>,
}

impl View for Dataset {
    type V = Seq<ColumnModel>;

    closed spec fn view(&self) -> Seq<ColumnModel> {
        self.columns.deep_view()
    }
}

impl Dataset {
    /// Every column of the dataset has the dataset's row count.
    #[verifier::type_invariant]
    pub open spec fn wf(self) -> bool {
        rows_consistent(self@)
    }

    /// An empty dataset: no columns, no rows.
    pub fn new() -> (d: Dataset)
        ensures
            d@ == Seq::<ColumnModel>::empty(),
    {
        let d = Dataset { columns: Vec::new() };
        proof {
            assert(d@ =~= Seq::<ColumnModel>::empty());
        }
        d
    }

    /// The number of rows shared by all columns.
    pub fn row_count(&self) -> (r: usize)
        ensures
            r == spec_rows(self@),
    {
        proof {
            use_type_invariant(self);
        }
        if self.columns.len() == 0 {
            0
        } else {
            self.columns[0].cells.len()
        }
    }

    /// Position of the column named `name`, if one exists; the first such
    /// column when several share the name.
    pub(crate) fn find_column(&self, name: &String) -> (r: Option<usize>)
        ensures
            match r {
                Some(i) => spec_find(self@, name@) == i && i < self@.len(),
                None => spec_find(self@, name@) == -1,
            },
    {
        let n: usize = self.columns.len();
        let mut i: usize = 0;
        while i < n
            invariant
                i <= n,
                n == self@.len(),
                spec_find(self@, name@) == find_from(self@, name@, i as int),
            decreases n - i,
        {
            if self.columns[i].name == *name {
                return Some(i);
            }
            i += 1;
        }
        None
    }

    /// Whether the column at position `i` is a text column.
    pub(crate) fn column_is_text(&self, i: usize) -> (r: bool)
        requires
            i < self@.len(),
        ensures
            r == (self@[i as int].kind == ColumnKind::Text),
    {
        self.columns[i].kind == ColumnKind::Text
    }

    /// The axis labels of the column at position `i`: each cell's text,
    /// with the empty text substituted for a missing cell.
    pub(crate) fn extract_labels(&self, i: usize) -> (r: Vec<String>)
        requires
            i < self@.len(),
        ensures
            r.deep_view() == spec_x_labels(self@[i as int].cells),
    {
        let ghost cells = self@[i as int].cells;
        let col = &self.columns[i];
        proof {
            assert(col@ == self@[i as int]);
        }
        let n: usize = col.cells.len();
        let mut out: Vec<String> = Vec::new();
        let mut j: usize = 0;
        while j < n
            invariant
                j <= n,
                n == cells.len(),
                col@ == self@[i as int],
                col.cells.deep_view() == cells,
                out.deep_view() == spec_x_labels(cells.subrange(0, j as int)),
            decreases n - j,
        {
            let lab: String = match &col.cells[j] {
                Option::Some(s) => s.clone(),
                Option::None => String::new(),
            };
            proof {
                assert(cells[j as int] == col.cells@[j as int].deep_view());
                assert(lab@ == spec_x_label(cells[j as int]));
            }
            let ghost old_dv = out.deep_view();
            out.push(lab);
            proof {
                assert(out.deep_view() =~= old_dv.push(lab@));
                assert(spec_x_labels(cells.subrange(0, j as int + 1)) =~= spec_x_labels(
                    cells.subrange(0, j as int),
                ).push(spec_x_label(cells[j as int])));
            }
            j += 1;
        }
        proof {
            assert(cells.subrange(0, n as int) =~= cells);
        }
        out
    }

    /// The series values of the column at position `i`: each cell's text,
    /// with zero substituted for a missing cell and, in a text column, for
    /// a cell that is not a decimal numeric literal.
    pub(crate) fn extract_values(&self, i: usize) -> (r: Vec<String>)
        requires
            i < self@.len(),
        ensures
            r.deep_view() == spec_y_values(self@[i as int]),
    {
        let ghost cells = self@[i as int].cells;
        let ghost kind = self@[i as int].kind;
        let col = &self.columns[i];
        proof {
            assert(col@ == self@[i as int]);
        }
        let from_text: bool = col.kind == ColumnKind::Text;
        let n: usize = col.cells.len();
        let mut out: Vec<String> = Vec::new();
        let mut j: usize = 0;
        while j < n
            invariant
                j <= n,
                n == cells.len(),
                col@ == self@[i as int],
                col.cells.deep_view() == cells,
                from_text == (kind == ColumnKind::Text),
                out.deep_view() == cells.subrange(0, j as int).map_values(
                    |c: Option<Seq<char>>| spec_y_value(kind, c),
                ),
            decreases n - j,
        {
            let val: String = match &col.cells[j] {
                Option::Some(s) => if from_text && !is_numeric_literal(s.as_str()) {
                    String::from_str("0")
                } else {
                    s.clone()
                },
                Option::None => String::from_str("0"),
            };
            proof {
                reveal_strlit("0");
                assert("0"@ =~= zero_text());
                assert(cells[j as int] == col.cells@[j as int].deep_view());
                assert(val@ == spec_y_value(kind, cells[j as int]));
            }
            let ghost old_dv = out.deep_view();
            out.push(val);
            proof {
                assert(out.deep_view() =~= old_dv.push(val@));
                assert(cells.subrange(0, j as int + 1).map_values(
                    |c: Option<Seq<char>>| spec_y_value(kind, c),
                ) =~= cells.subrange(0, j as int).map_values(
                    |c: Option<Seq<char>>| spec_y_value(kind, c),
                ).push(spec_y_value(kind, cells[j as int])));
            }
            j += 1;
        }
        proof {
            assert(cells.subrange(0, n as int) =~= cells);
            assert(out.deep_view() =~= spec_y_values(self@[i as int]));
        }
        out
    }

    fn with_column(self, name: String, kind: ColumnKind, cells: Vec<Option<String>>) -> (r: Result<
        Dataset,
        DatasetError,
    >)
        ensures
            match r {
                Ok(d) => spec_find(self@, name@) == -1 && (self@.len() == 0
                    || cells.deep_view().len() == spec_rows(self@)) && d@ == self@.push(
                    (ColumnModel { name: name@, kind, cells: cells.deep_view() }),
                ),
                Err(DatasetError::DuplicateColumn) => spec_find(self@, name@) != -1,
                Err(DatasetError::ShapeMismatch) => spec_find(self@, name@) == -1 && self@.len()
                    > 0 && cells.deep_view().len() != spec_rows(self@),
            },
    {
        proof {
            use_type_invariant(&self);
        }
        if self.find_column(&name).is_some() {
            return Err(DatasetError::DuplicateColumn);
        }
        if self.columns.len() > 0 && cells.len() != self.row_count() {
            return Err(DatasetError::ShapeMismatch);
        }
        let ghost old_view = self@;
        let Dataset { mut columns } = self;
        let col = Column { name, kind, cells };
        let ghost colm = col@;
        columns.push(col);
        proof {
            let pushed = old_view.push(colm);
            assert(columns.deep_view() =~= pushed);
            assert forall|i: int| 0 <= i < pushed.len() implies (#[trigger] pushed[i]).cells.len()
                == spec_rows(pushed) by {
                if old_view.len() == 0 {
                    assert(pushed.len() == 1);
                } else {
                    assert(spec_rows(pushed) == spec_rows(old_view));
                }
            }
        }
        let d = Dataset { columns };
        Ok(d)
    }

    /// Adds a text column. Fails when the name is already used or the
    /// length does not match the dataset's row count.
    pub fn with_text_column(self, name: String, cells: Vec<Option<String>>) -> (r: Result<
        Dataset,
        DatasetError,
    >)
        ensures
            match r {
                Ok(d) => spec_find(self@, name@) == -1 && (self@.len() == 0
                    || cells.deep_view().len() == spec_rows(self@)) && d@ == self@.push(
                    (ColumnModel {
                        name: name@,
                        kind: ColumnKind::Text,
                        cells: cells.deep_view(),
                    }),
                ),
                Err(DatasetError::DuplicateColumn) => spec_find(self@, name@) != -1,
                Err(DatasetError::ShapeMismatch) => spec_find(self@, name@) == -1 && self@.len()
                    > 0 && cells.deep_view().len() != spec_rows(self@),
            },
    {
        self.with_column(name, ColumnKind::Text, cells)
    }

    /// Adds a number column; a present cell is expected to hold a decimal
    /// numeric literal. Fails when the name is already used or the length
    /// does not match the dataset's row count.
    pub fn with_number_column(self, name: String, cells: Vec<Option<String>>) -> (r: Result<
        Dataset,
        DatasetError,
    >)
        ensures
            match r {
                Ok(d) => spec_find(self@, name@) == -1 && (self@.len() == 0
                    || cells.deep_view().len() == spec_rows(self@)) && d@ == self@.push(
                    (ColumnModel {
                        name: name@,
                        kind: ColumnKind::Number,
                        cells: cells.deep_view(),
                    }),
                ),
                Err(DatasetError::DuplicateColumn) => spec_find(self@, name@) != -1,
                Err(DatasetError::ShapeMismatch) => spec_find(self@, name@) == -1 && self@.len()
                    > 0 && cells.deep_view().len() != spec_rows(self@),
            },
    {
        self.with_column(name, ColumnKind::Number, cells)
    }
}

} // verus!
