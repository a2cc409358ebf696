//! Shapes of two-dimensional tensors.

use vstd::prelude::*;

verus! {

/// The shape of a two-dimensional tensor: `rows` batch samples of `cols` features.
///
/// A one-dimensional per-feature vector is described by its length alone.
#[derive(Clone, Copy, Debug, PartialEq, Eq, Structural)]
pub struct Shape {
    pub rows: usize,
    pub cols: usize,
}

impl Shape {
    /// The shape with `rows` rows and `cols` columns.
    pub fn new(rows: usize, cols: usize) -> (s: Shape)
        ensures
            s == (Shape { rows, cols }),
    {
        Shape { rows, cols }
    }

    /// The shape of a tensor without any entry: zero rows and zero columns.
    pub fn empty() -> (s: Shape)
        ensures
            s == (Shape { rows: 0, cols: 0 }),
    {
        Shape { rows: 0, cols: 0 }
    }

    /// The shape of the transposed tensor.
    pub open spec fn transposed(self) -> Shape {
        Shape { rows: self.cols, cols: self.rows }
    }

    /// Whether the matrix product of a tensor of this shape with one of shape
    /// `rhs` is defined.
    pub open spec fn can_multiply(self, rhs: Shape) -> bool {
        self.cols == rhs.rows
    }

    /// The shape of the matrix product of a tensor of this shape with one of
    /// shape `rhs`.
    pub open spec fn product(self, rhs: Shape) -> Shape {
        Shape { rows: self.rows, cols: rhs.cols }
    }
}

} // verus!
