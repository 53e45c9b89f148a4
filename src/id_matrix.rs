//! A rectangular batch of integer ids (token, position or segment ids).
use vstd::prelude::*;

verus! {

/// Every row of `rows` has `width` entries.
pub open spec fn is_rectangular(rows: Seq<Seq<i64>>, width: nat) -> bool {
    forall|i: int| 0 <= i < rows.len() ==> #[trigger] rows[i].len() == width
}

/// The length of the first row, or zero when there is none.
pub open spec fn leading_width(rows: Seq<Seq<i64>>) -> nat {
    if rows.len() == 0 {
        0
    } else {
        rows[0].len()
    }
}

/// The rows of a vector of vectors, as sequences.
pub open spec fn rows_view(rows: Seq<Vec<i64>>) -> Seq<Seq<i64>> {
    rows.map_values(|r: Vec<i64>| r@)
}

/// The `batch` by `width` grid whose every entry is `value`.
pub open spec fn constant_grid(batch: nat, width: nat, value: i64) -> Seq<Seq<i64>> {
    Seq::new(batch, |i: int| Seq::new(width, |j: int| value))
}

/// A batch of id rows, all of the same length (the sequence length).
#[derive(Debug)]
pub struct IdMatrix {
    width: usize,
    rows: Vec<Vec<i64>>,
}

impl View for IdMatrix {
    type V = Seq<Seq<i64>>;

    closed spec fn view(&self) -> Seq<Seq<i64>> {
        rows_view(self.rows@)
    }
}

impl IdMatrix {
    #[verifier::type_invariant]
    spec fn inv(&self) -> bool {
        is_rectangular(rows_view(self.rows@), self.width as nat)
    }

    /// The sequence length: the number of ids in each row.
    pub closed spec fn width(&self) -> nat {
        self.width as nat
    }

    /// Wraps rows already known to be rectangular.
    pub(crate) fn from_rectangular(rows: Vec<Vec<i64>>, width: usize) -> (r: IdMatrix)
        requires
            is_rectangular(rows_view(rows@), width as nat),
        ensures
            r@ == rows_view(rows@),
            r.width() == width,
    {
        IdMatrix { width, rows }
    }

    /// Builds a matrix from its rows; `None` when the rows differ in length.
    /// The sequence length is that of the first row (zero without rows).
    pub fn from_rows(rows: Vec<Vec<i64>>) -> (r: Option<IdMatrix>)
        ensures
            r is Some <==> is_rectangular(rows_view(rows@), leading_width(rows_view(rows@))),
            r matches Some(m) ==> m@ == rows_view(rows@) && m.width() == leading_width(
                rows_view(rows@),
            ),
    {
        let width: usize = if rows.len() == 0 {
            0
        } else {
            rows[0].len()
        };
        let ghost view = rows_view(rows@);
        let mut i: usize = 0;
        while i < rows.len()
            invariant
                i <= rows.len(),
                view == rows_view(rows@),
                width == leading_width(view),
                forall|k: int| 0 <= k < i ==> #[trigger] view[k].len() == width,
            decreases rows.len() - i,
        {
            if rows[i].len() != width {
                assert(view[i as int].len() != width);
                return None;
            }
            i = i + 1;
        }
        Some(IdMatrix { width, rows })
    }

    /// The `batch` by `width` matrix whose every id is `value`.
    pub fn filled(batch: usize, width: usize, value: i64) -> (r: IdMatrix)
        ensures
            r@ == constant_grid(batch as nat, width as nat, value),
            r.width() == width,
    {
        let mut rows: Vec<Vec<i64>> = Vec::new();
        let mut i: usize = 0;
        while i < batch
            invariant
                i <= batch,
                rows@.len() == i,
                rows_view(rows@) == constant_grid(i as nat, width as nat, value),
            decreases batch - i,
        {
            let mut row: Vec<i64> = Vec::new();
            let mut j: usize = 0;
            while j < width
                invariant
                    j <= width,
                    row@ == Seq::new(j as nat, |k: int| value),
                decreases width - j,
            {
                row.push(value);
                j = j + 1;
                assert(row@ =~= Seq::new(j as nat, |k: int| value));
            }
            let ghost before = rows@;
            rows.push(row);
            proof {
                let grid = constant_grid((i + 1) as nat, width as nat, value);
                assert forall|k: int| 0 <= k < i + 1 implies #[trigger] rows_view(rows@)[k]
                    == grid[k] by {
                    if k < i {
                        assert(rows@[k] == before[k]);
                        assert(rows_view(before)[k] == constant_grid(i as nat, width as nat, value)[k]);
                    }
                }
                assert(rows_view(rows@) =~= grid);
            }
            i = i + 1;
        }
        IdMatrix { width, rows }
    }

    /// The number of rows.
    pub fn batch_size(&self) -> (r: usize)
        ensures
            r == self@.len(),
    {
        self.rows.len()
    }

    /// The number of ids in each row; every row holds that many.
    pub fn seq_len(&self) -> (r: usize)
        ensures
            r == self.width(),
            is_rectangular(self@, self.width()),
    {
        proof {
            use_type_invariant(self);
        }
        self.width
    }

    /// The row at `i`.
    pub fn row(&self, i: usize) -> (r: &Vec<i64>)
        requires
            i < self@.len(),
        ensures
            r@ == self@[i as int],
            r@.len() == self.width(),
    {
        proof {
            use_type_invariant(self);
        }
        &self.rows[i]
    }

    /// The rows, handed out.
    pub fn into_rows(self) -> (r: Vec<Vec<i64>>)
        ensures
            rows_view(r@) == self@,
    {
        self.rows
    }
}

} // verus!
