use vstd::prelude::*;

verus! {

/// A named column of integers.
pub struct Column {
    pub name: String,
    pub values: Vec<i32>,
}

/// Why columns do not form a table.
#[derive(Clone, Copy, Debug, PartialEq, Eq, Structural)]
pub enum FrameError {
    /// Column `column` has `found` values where the first column has
    /// `expected`.
    LengthMismatch { column: usize, expected: usize, found: usize },
}

/// Columns of one length, checked and ready to be handed to the interpreter
/// as a data frame.
pub struct DataFrame {
    columns: Vec<Column>,
    rows: usize,
}

pub open spec fn col_len(c: Column) -> nat {
    c.values@.len()
}

/// Every column has as many values as the first.
pub open spec fn equal_lengths(cols: Seq<Column>) -> bool {
    forall|i: int| 0 <= i < cols.len() ==> #[trigger] col_len(cols[i]) == col_len(cols[0])
}

/// The first column whose length differs from the first column's.
pub open spec fn is_first_mismatch(cols: Seq<Column>, i: int) -> bool {
    &&& 0 < i < cols.len()
    &&& col_len(cols[i]) != col_len(cols[0])
    &&& forall|j: int| 0 <= j < i ==> #[trigger] col_len(cols[j]) == col_len(cols[0])
}

impl DataFrame {
    pub closed spec fn columns_spec(&self) -> Seq<Column> {
        self.columns@
    }

    pub closed spec fn rows_spec(&self) -> nat {
        self.rows as nat
    }

    /// Every column has exactly `rows` values.
    pub closed spec fn wf(&self) -> bool {
        forall|i: int|
            0 <= i < self.columns@.len() ==> #[trigger] col_len(self.columns@[i]) == self.rows
    }

    /// The table of `columns`, in the order given. It has as many rows as
    /// each column has values (none when there is no column). Columns of
    /// different lengths are refused, never truncated or recycled; the
    /// error names the first column whose length differs from the first's.
    pub fn data_frame(columns: Vec<Column>) -> (r: Result<DataFrame, FrameError>)
        ensures
            r is Ok <==> equal_lengths(columns@),
            r is Ok ==> r->Ok_0.wf() && r->Ok_0.columns_spec() == columns@ && r->Ok_0.rows_spec()
                == (if columns@.len() == 0 {
                0
            } else {
                col_len(columns@[0])
            }),
            r is Err ==> exists|i: int|
                is_first_mismatch(columns@, i) && r->Err_0 == (FrameError::LengthMismatch {
                    column: i as usize,
                    expected: col_len(columns@[0]) as usize,
                    found: col_len(columns@[i]) as usize,
                }),
    {
        if columns.len() == 0 {
            return Ok(DataFrame { columns, rows: 0 });
        }
        let rows = columns[0].values.len();
        let mut i: usize = 1;
        while i < columns.len()
            invariant
                1 <= i <= columns@.len(),
                rows == col_len(columns@[0]),
                forall|j: int| 0 <= j < i ==> #[trigger] col_len(columns@[j]) == rows,
            decreases columns@.len() - i,
        {
            let found = columns[i].values.len();
            if found != rows {
                assert(is_first_mismatch(columns@, i as int));
                return Err(FrameError::LengthMismatch { column: i, expected: rows, found });
            }
            i = i + 1;
        }
        Ok(DataFrame { columns, rows })
    }

    /// The number of rows.
    pub fn nrows(&self) -> (r: usize)
        ensures
            r == self.rows_spec(),
    {
        self.rows
    }

    /// The number of columns.
    pub fn ncols(&self) -> (r: usize)
        ensures
            r == self.columns_spec().len(),
    {
        self.columns.len()
    }

    /// The columns, in order.
    pub fn columns(&self) -> (r: &Vec<Column>)
        ensures
            r@ == self.columns_spec(),
    {
        &self.columns
    }
}

} // verus!
