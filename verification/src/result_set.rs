//! The backend-agnostic result representation: an ordered sequence of
//! column names and the fully materialized rows, every row holding exactly
//! one tagged value per column, in column order.
use vstd::prelude::*;
use vstd::string::StrSliceExecFns;

use crate::text::str_eq;
use crate::value::ParameterizedValue;

verus! {

pub struct ResultSet {
    /// Column names, in the order the engine reported them.
    pub columns: Vec<String>,
    /// Rows, each holding one value per column, in column order.
    pub rows: Vec<Vec<ParameterizedValue>>,
}

/// Index of the first column named `name`, or the column count.
pub open spec fn col_find(cols: Seq<String>, name: Seq<char>, i: int) -> int
    decreases cols.len() - i,
{
    if i < 0 || i >= cols.len() {
        cols.len() as int
    } else if cols[i]@ == name {
        i
    } else {
        col_find(cols, name, i + 1)
    }
}

impl ResultSet {
    /// Every row is exactly as wide as the column list.
    pub open spec fn wf(self) -> bool {
        forall|i: int| 0 <= i < self.rows@.len() ==> self.rows@[i]@.len() == self.columns@.len()
    }

    pub fn new(columns: Vec<String>, rows: Vec<Vec<ParameterizedValue>>) -> (r: ResultSet)
        ensures
            r.columns == columns,
            r.rows == rows,
    {
        ResultSet { columns, rows }
    }

    pub fn len(&self) -> (n: usize)
        ensures
            n == self.rows@.len(),
    {
        self.rows.len()
    }

    /// Zero rows came back.
    pub fn is_empty(&self) -> (b: bool)
        ensures
            b == (self.rows@.len() == 0),
    {
        self.rows.len() == 0
    }

    pub fn column_count(&self) -> (n: usize)
        ensures
            n == self.columns@.len(),
    {
        self.columns.len()
    }

    pub fn get(&self, i: usize) -> (r: Option<&Vec<ParameterizedValue>>)
        ensures
            i < self.rows@.len() ==> r == Some(&self.rows@[i as int]),
            i >= self.rows@.len() ==> r is None,
    {
        if i < self.rows.len() {
            Some(&self.rows[i])
        } else {
            None
        }
    }

    /// Index of the first column named `name`.
    pub fn column_index(&self, name: &str) -> (r: Option<usize>)
        ensures
            r matches Some(j) ==> j == col_find(self.columns@, name@, 0)
                < self.columns@.len(),
            r is None ==> col_find(self.columns@, name@, 0) == self.columns@.len(),
    {
        let n = self.columns.len();
        let mut i: usize = 0;
        while i < n
            invariant
                i <= n,
                n == self.columns@.len(),
                forall|j: int| 0 <= j < i ==> self.columns@[j]@ != name@,
            decreases n - i,
        {
            if str_eq(self.columns[i].as_str(), name) {
                proof {
                    lemma_col_find_unique(self.columns@, name@, 0, i as int);
                }
                return Some(i);
            }
            i = i + 1;
        }
        proof {
            lemma_col_find_unique(self.columns@, name@, 0, n as int);
        }
        None
    }

    /// The value of row `row` in the first column named `name`: `Some`
    /// exactly when the row exists, a column of that name exists, and the
    /// row is wide enough to hold it.
    pub fn value_at(&self, row: usize, name: &str) -> (r: Option<&ParameterizedValue>)
        ensures
            ({
                let c = col_find(self.columns@, name@, 0);
                if row < self.rows@.len() && c < self.columns@.len() && c
                    < self.rows@[row as int]@.len() {
                    r == Some(&self.rows@[row as int]@[c])
                } else {
                    r is None
                }
            }),
    {
        if row >= self.rows.len() {
            return None;
        }
        match self.column_index(name) {
            Option::Some(c) => {
                if c < self.rows[row].len() {
                    Some(&self.rows[row][c])
                } else {
                    None
                }
            },
            Option::None => None,
        }
    }
}

proof fn lemma_col_find_unique(cols: Seq<String>, name: Seq<char>, i: int, k: int)
    requires
        0 <= i <= k <= cols.len(),
        forall|j: int| i <= j < k ==> cols[j]@ != name,
        k < cols.len() ==> cols[k]@ == name,
    ensures
        col_find(cols, name, i) == k,
    decreases k - i,
{
    if i < k {
        lemma_col_find_unique(cols, name, i + 1, k);
    }
}

} // verus!
