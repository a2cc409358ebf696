//! The parameter store of a plain network: weights and biases.

use vstd::prelude::*;
use crate::shape::Shape;

verus! {

/// The parameters of a network, by their shapes: one weight and one bias per
/// affine layer.
#[derive(Debug)]
pub struct Params {
    /// The shape of each weight.
    pub weight_list: Vec<Shape>,
    /// The length of each bias.
    pub bias_list: Vec<usize>,
}

/// What a parameter store holds.
pub struct ParamsView {
    pub weight_list: Seq<Shape>,
    pub bias_list: Seq<usize>,
}

impl View for Params {
    type V = ParamsView;

    open spec fn view(&self) -> ParamsView {
        ParamsView { weight_list: self.weight_list@, bias_list: self.bias_list@ }
    }
}

/// A list of `size` empty shapes.
pub fn empty_shapes(size: usize) -> (v: Vec<Shape>)
    ensures
        v@ == Seq::new(size as nat, |i: int| Shape { rows: 0, cols: 0 }),
{
    let mut v: Vec<Shape> = Vec::new();
    let mut i: usize = 0;
    while i < size
        invariant
            i <= size,
            v@ =~= Seq::new(i as nat, |i: int| Shape { rows: 0, cols: 0 }),
        decreases size - i,
    {
        v.push(Shape { rows: 0, cols: 0 });
        i += 1;
    }
    v
}

/// A list of `size` zero lengths.
pub fn empty_lengths(size: usize) -> (v: Vec<usize>)
    ensures
        v@ == Seq::new(size as nat, |i: int| 0usize),
{
    let mut v: Vec<usize> = Vec::new();
    let mut i: usize = 0;
    while i < size
        invariant
            i <= size,
            v@ =~= Seq::new(i as nat, |i: int| 0usize),
        decreases size - i,
    {
        v.push(0);
        i += 1;
    }
    v
}

/// Whether two lists of shapes are equal, entry by entry.
pub fn same_shapes(a: &Vec<Shape>, b: &Vec<Shape>) -> (r: bool)
    ensures
        r == (a@ == b@),
{
    if a.len() != b.len() {
        return false;
    }
    let n: usize = a.len();
    let mut i: usize = 0;
    while i < n
        invariant
            i <= n,
            n == a@.len(),
            n == b@.len(),
            a@.take(i as int) =~= b@.take(i as int),
        decreases n - i,
    {
        if a[i].rows != b[i].rows || a[i].cols != b[i].cols {
            return false;
        }
        assert(a@.take(i + 1) =~= a@.take(i as int).push(a@[i as int]));
        assert(b@.take(i + 1) =~= b@.take(i as int).push(b@[i as int]));
        i += 1;
    }
    assert(a@.take(n as int) =~= a@);
    assert(b@.take(n as int) =~= b@);
    true
}

/// Whether two lists of lengths are equal, entry by entry.
pub fn same_lengths(a: &Vec<usize>, b: &Vec<usize>) -> (r: bool)
    ensures
        r == (a@ == b@),
{
    if a.len() != b.len() {
        return false;
    }
    let n: usize = a.len();
    let mut i: usize = 0;
    while i < n
        invariant
            i <= n,
            n == a@.len(),
            n == b@.len(),
            a@.take(i as int) =~= b@.take(i as int),
        decreases n - i,
    {
        if a[i] != b[i] {
            return false;
        }
        assert(a@.take(i + 1) =~= a@.take(i as int).push(a@[i as int]));
        assert(b@.take(i + 1) =~= b@.take(i as int).push(b@[i as int]));
        i += 1;
    }
    assert(a@.take(n as int) =~= a@);
    assert(b@.take(n as int) =~= b@);
    true
}

/// A copy of a list of shapes.
pub fn copy_shapes(a: &Vec<Shape>) -> (v: Vec<Shape>)
    ensures
        v@ == a@,
{
    let mut v: Vec<Shape> = Vec::new();
    let n: usize = a.len();
    let mut i: usize = 0;
    while i < n
        invariant
            i <= n,
            n == a@.len(),
            v@ =~= a@.take(i as int),
        decreases n - i,
    {
        v.push(a[i]);
        i += 1;
    }
    assert(a@.take(n as int) =~= a@);
    v
}

/// A copy of a list of lengths.
pub fn copy_lengths(a: &Vec<usize>) -> (v: Vec<usize>)
    ensures
        v@ == a@,
{
    let mut v: Vec<usize> = Vec::new();
    let n: usize = a.len();
    let mut i: usize = 0;
    while i < n
        invariant
            i <= n,
            n == a@.len(),
            v@ =~= a@.take(i as int),
        decreases n - i,
    {
        v.push(a[i]);
        i += 1;
    }
    assert(a@.take(n as int) =~= a@);
    v
}

impl Params {
    /// A store of `size` weights and `size` biases, all of them empty.
    pub fn new(size: usize) -> (p: Self)
        ensures
            p@.weight_list == Seq::new(size as nat, |i: int| Shape { rows: 0, cols: 0 }),
            p@.bias_list == Seq::new(size as nat, |i: int| 0usize),
    {
        Self { weight_list: empty_shapes(size), bias_list: empty_lengths(size) }
    }
}

} // verus!
