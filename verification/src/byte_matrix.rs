//! Matrices of bytes, held by `nalgebra`: one-hot targets and pixel data.

use vstd::prelude::*;
use crate::shape::Shape;

verus! {

/// A dynamically sized matrix of `u8`, stored as a `nalgebra::DMatrix<u8>`.
///
/// Verus does not look inside: what the matrix holds is named by [`cells`]
/// and [`width`], and the functions below the two names say what each
/// `nalgebra` call does to them.
#[verifier::external_body]
#[derive(Debug)]
pub struct ByteMatrix {
    inner: nalgebra::DMatrix<u8>,
}

/// The entries of a byte matrix, row by row.
pub uninterp spec fn cells(m: ByteMatrix) -> Seq<Seq<u8>>;

/// The number of columns of a byte matrix.
pub uninterp spec fn width(m: ByteMatrix) -> nat;

/// `nalgebra::DMatrix::<u8>::zeros`: a matrix of `rows` by `cols` entries, all of
/// them zero. `nalgebra` computes the product of the two and holds that many
/// bytes in a vector, which cannot hold more than `isize::MAX`.
#[verifier::external_body]
fn zeros(rows: usize, cols: usize) -> (m: ByteMatrix)
    requires
        rows * cols <= isize::MAX,
    ensures
        width(m) == cols,
        cells(m) == Seq::new(rows as nat, |i: int| Seq::new(cols as nat, |j: int| 0u8)),
{
    ByteMatrix { inner: nalgebra::DMatrix::<u8>::zeros(rows, cols) }
}

/// `nalgebra::DMatrix::<u8>::from_row_slice`: the matrix of `rows` by `cols`
/// entries whose rows are the consecutive chunks of `data`. `nalgebra` panics
/// unless `data` holds exactly `rows * cols` entries.
#[verifier::external_body]
fn from_row_slice(rows: usize, cols: usize, data: &Vec<u8>) -> (m: ByteMatrix)
    requires
        rows * cols == data@.len(),
    ensures
        width(m) == cols,
        cells(m) == Seq::new(
            rows as nat,
            |i: int| Seq::new(cols as nat, |j: int| data@[i * cols + j]),
        ),
{
    ByteMatrix { inner: nalgebra::DMatrix::<u8>::from_row_slice(rows, cols, data.as_slice()) }
}

/// `nalgebra::DMatrix::<u8>::from_vec`: the matrix of `rows` by `cols` entries
/// whose columns are the consecutive chunks of `data`. `nalgebra` panics
/// unless `data` holds exactly `rows * cols` entries.
#[verifier::external_body]
fn from_vec(rows: usize, cols: usize, data: Vec<u8>) -> (m: ByteMatrix)
    requires
        rows * cols == data@.len(),
    ensures
        width(m) == cols,
        cells(m) == Seq::new(
            rows as nat,
            |i: int| Seq::new(cols as nat, |j: int| data@[j * rows + i]),
        ),
{
    ByteMatrix { inner: nalgebra::DMatrix::<u8>::from_vec(rows, cols, data) }
}

/// `nalgebra::Matrix::nrows`: the number of rows.
#[verifier::external_body]
fn nrows(m: &ByteMatrix) -> (n: usize)
    ensures
        n == cells(*m).len(),
{
    m.inner.nrows()
}

/// `nalgebra::Matrix::ncols`: the number of columns, which is the length of
/// every row.
#[verifier::external_body]
fn ncols(m: &ByteMatrix) -> (n: usize)
    ensures
        n == width(*m),
        forall|i: int| 0 <= i < cells(*m).len() ==> (#[trigger] cells(*m)[i]).len() == n,
{
    m.inner.ncols()
}

/// Indexing a `nalgebra` matrix by `(row, column)`: the entry there. `nalgebra`
/// panics when either index is out of bounds.
#[verifier::external_body]
fn entry(m: &ByteMatrix, i: usize, j: usize) -> (v: u8)
    requires
        i < cells(*m).len(),
        j < width(*m),
    ensures
        v == cells(*m)[i as int][j as int],
{
    m.inner[(i, j)]
}

/// Assigning through a `nalgebra` matrix index `(row, column)`: that entry
/// becomes `v`, and nothing else changes. `nalgebra` panics when either index
/// is out of bounds.
#[verifier::external_body]
fn set_entry(m: &mut ByteMatrix, i: usize, j: usize, v: u8)
    requires
        i < cells(*old(m)).len(),
        j < width(*old(m)),
    ensures
        width(*final(m)) == width(*old(m)),
        cells(*final(m)) == cells(*old(m)).update(
            i as int,
            cells(*old(m))[i as int].update(j as int, v),
        ),
{
    m.inner[(i, j)] = v;
}

/// `nalgebra::Matrix::argmax` on row `i`, taken as a vector: the index of
/// the largest entry of the row, the first such index where the largest entry
/// occurs more than once. `nalgebra` panics on a row without entries.
#[verifier::external_body]
fn row_argmax(m: &ByteMatrix, i: usize) -> (k: usize)
    requires
        i < cells(*m).len(),
        0 < width(*m),
    ensures
        is_first_max(cells(*m)[i as int], k as int),
{
    m.inner.row(i).transpose().argmax().0
}

/// Whether `k` is the first index at which `row` takes its largest value.
pub open spec fn is_first_max(row: Seq<u8>, k: int) -> bool {
    &&& 0 <= k < row.len()
    &&& forall|j: int| 0 <= j < row.len() ==> row[j] <= row[k]
    &&& forall|j: int| 0 <= j < k ==> row[j] < row[k]
}

/// The first index at which `row` takes its largest value; for an empty row, 0.
pub open spec fn first_max(row: Seq<u8>) -> int {
    if exists|k: int| is_first_max(row, k) {
        choose|k: int| is_first_max(row, k)
    } else {
        0
    }
}

/// At most one index is the first at which a row takes its largest value.
pub proof fn lemma_first_max_unique(row: Seq<u8>, a: int, b: int)
    requires
        is_first_max(row, a),
        is_first_max(row, b),
    ensures
        a == b,
{
    if a < b {
        assert(row[a] < row[b]);
        assert(row[b] <= row[a]);
    } else if b < a {
        assert(row[b] < row[a]);
        assert(row[a] <= row[b]);
    }
}

/// An index that is the first maximum of a row is the value of [`first_max`].
pub proof fn lemma_first_max_is(row: Seq<u8>, k: int)
    requires
        is_first_max(row, k),
    ensures
        first_max(row) == k,
{
    let c = choose|c: int| is_first_max(row, c);
    lemma_first_max_unique(row, c, k);
}

/// A row that is zero everywhere but for a one at `k` has its first maximum
/// at `k`.
pub proof fn lemma_one_hot_first_max(row: Seq<u8>, k: int)
    requires
        0 <= k < row.len(),
        forall|j: int| 0 <= j < row.len() ==> row[j] == (if j == k { 1u8 } else { 0u8 }),
    ensures
        first_max(row) == k,
{
    assert(is_first_max(row, k));
    lemma_first_max_is(row, k);
}

impl View for ByteMatrix {
    type V = Seq<Seq<u8>>;

    /// The entries, row by row.
    open spec fn view(&self) -> Seq<Seq<u8>> {
        cells(*self)
    }
}

impl ByteMatrix {
    /// The number of columns.
    pub open spec fn spec_cols(&self) -> nat {
        width(*self)
    }

    /// The shape as a pair of mathematical integers.
    pub open spec fn spec_shape(&self) -> (nat, nat) {
        (self@.len(), width(*self))
    }

    /// The matrix without any entry.
    pub fn empty() -> (m: ByteMatrix)
        ensures
            m.spec_cols() == 0,
            m@.len() == 0,
    {
        self::zeros(0, 0)
    }

    /// The matrix of `rows` by `cols` zeros, or `None` where that many entries
    /// cannot be held.
    pub fn zeros(rows: usize, cols: usize) -> (r: Option<ByteMatrix>)
        ensures
            r is Some <==> rows * cols <= isize::MAX,
            r matches Some(m) ==> {
                &&& m.spec_cols() == cols
                &&& m@ == Seq::new(rows as nat, |i: int| Seq::new(cols as nat, |j: int| 0u8))
            },
    {
        match rows.checked_mul(cols) {
            Some(n) => {
                if n <= isize::MAX as usize {
                    Some(self::zeros(rows, cols))
                } else {
                    None
                }
            },
            None => None,
        }
    }

    /// The matrix of `rows` by `cols` entries read from `data` row by row, or
    /// `None` where `data` does not hold exactly `rows * cols` entries.
    pub fn from_rows(rows: usize, cols: usize, data: &Vec<u8>) -> (r: Option<ByteMatrix>)
        ensures
            r is Some <==> rows * cols == data@.len(),
            r matches Some(m) ==> {
                &&& m.spec_cols() == cols
                &&& m@ == Seq::new(
                    rows as nat,
                    |i: int| Seq::new(cols as nat, |j: int| data@[i * cols + j]),
                )
            },
    {
        let len: usize = data.len();
        match rows.checked_mul(cols) {
            Some(n) => {
                if n == len {
                    Some(from_row_slice(rows, cols, data))
                } else {
                    None
                }
            },
            None => None,
        }
    }

    /// The matrix of `rows` by `cols` entries read from `data` column by
    /// column, or `None` where `data` does not hold exactly `rows * cols`
    /// entries.
    pub fn from_columns(rows: usize, cols: usize, data: Vec<u8>) -> (r: Option<ByteMatrix>)
        ensures
            r is Some <==> rows * cols == data@.len(),
            r matches Some(m) ==> {
                &&& m.spec_cols() == cols
                &&& m@ == Seq::new(
                    rows as nat,
                    |i: int| Seq::new(cols as nat, |j: int| data@[j * rows + i]),
                )
            },
    {
        let len: usize = data.len();
        match rows.checked_mul(cols) {
            Some(n) => {
                if n == len {
                    Some(from_vec(rows, cols, data))
                } else {
                    None
                }
            },
            None => None,
        }
    }

    /// The number of rows.
    pub fn nrows(&self) -> (n: usize)
        ensures
            n == self@.len(),
    {
        nrows(self)
    }

    /// The number of columns; every row is that long.
    pub fn ncols(&self) -> (n: usize)
        ensures
            n == self.spec_cols(),
            forall|i: int| 0 <= i < self@.len() ==> (#[trigger] self@[i]).len() == n,
    {
        ncols(self)
    }

    /// The shape of the matrix.
    pub fn shape(&self) -> (s: Shape)
        ensures
            s.rows == self@.len(),
            s.cols == self.spec_cols(),
            forall|i: int| 0 <= i < self@.len() ==> (#[trigger] self@[i]).len() == s.cols,
    {
        Shape { rows: nrows(self), cols: ncols(self) }
    }

    /// The entry in row `i` and column `j`, or `None` where there is none.
    pub fn get(&self, i: usize, j: usize) -> (r: Option<u8>)
        ensures
            r is Some <==> i < self@.len() && j < self.spec_cols(),
            r matches Some(v) ==> v == self@[i as int][j as int],
    {
        if i < nrows(self) && j < ncols(self) {
            Some(entry(self, i, j))
        } else {
            None
        }
    }

    /// Sets the entry in row `i` and column `j` to `v`. Returns whether there
    /// is such an entry; where there is none, the matrix stays as it was.
    pub fn set(&mut self, i: usize, j: usize, v: u8) -> (done: bool)
        ensures
            done <==> i < old(self)@.len() && j < old(self).spec_cols(),
            final(self).spec_cols() == old(self).spec_cols(),
            done ==> final(self)@ == old(self)@.update(
                i as int,
                old(self)@[i as int].update(j as int, v),
            ),
            !done ==> final(self)@ == old(self)@,
    {
        if i < nrows(self) && j < ncols(self) {
            set_entry(self, i, j, v);
            true
        } else {
            false
        }
    }

    /// For every row, its number and the column of its largest entry (the
    /// first such column where the largest entry occurs more than once).
    ///
    /// A matrix with rows but no columns has no largest entry.
    pub fn max_index_by_column(&self) -> (r: Vec<(usize, usize)>)
        requires
            self@.len() == 0 || self.spec_cols() > 0,
        ensures
            r@.len() == self@.len(),
            forall|i: int| 0 <= i < r@.len() ==> {
                &&& (#[trigger] r@[i]).0 == i
                &&& r@[i].1 == first_max(self@[i])
            },
    {
        let n: usize = nrows(self);
        let mut r: Vec<(usize, usize)> = Vec::new();
        let mut i: usize = 0;
        while i < n
            invariant
                n == self@.len(),
                n == 0 || self.spec_cols() > 0,
                i <= n,
                r@.len() == i,
                forall|k: int| 0 <= k < i ==> {
                    &&& (#[trigger] r@[k]).0 == k
                    &&& r@[k].1 == first_max(self@[k])
                },
            decreases n - i,
        {
            let k: usize = row_argmax(self, i);
            proof {
                lemma_first_max_is(self@[i as int], k as int);
            }
            r.push((i, k));
            i += 1;
        }
        r
    }
}

} // verus!
