//! Classification accuracy: how many predicted classes are the target ones.

use vstd::prelude::*;
use crate::byte_matrix::{first_max, ByteMatrix};

verus! {

/// A count of correct predictions among a number of samples.
///
/// The accuracy as a fraction is `correct` over `samples`.
#[derive(Clone, Copy, Debug, PartialEq, Eq, Structural)]
pub struct Accuracy {
    /// The number of samples whose predicted class is the target class.
    pub correct: usize,
    /// The number of samples that were predicted.
    pub samples: usize,
}

/// Among the first `n` samples, the number whose predicted class `y_max[i]`
/// is the class of the largest entry of the target row `t[i]`.
pub open spec fn matches_upto(y_max: Seq<usize>, t: Seq<Seq<u8>>, n: int) -> nat
    decreases n,
{
    if n <= 0 {
        0
    } else {
        matches_upto(y_max, t, n - 1) + if y_max[n - 1] == first_max(t[n - 1]) {
            1nat
        } else {
            0nat
        }
    }
}

/// The number of samples that have both a prediction and a target.
pub open spec fn paired(y_max: Seq<usize>, t: Seq<Seq<u8>>) -> int {
    if y_max.len() <= t.len() {
        y_max.len() as int
    } else {
        t.len() as int
    }
}

/// No more samples match than there are.
pub proof fn lemma_matches_bounded(y_max: Seq<usize>, t: Seq<Seq<u8>>, n: int)
    requires
        0 <= n,
    ensures
        matches_upto(y_max, t, n) <= n,
    decreases n,
{
    if n > 0 {
        lemma_matches_bounded(y_max, t, n - 1);
    }
}

/// Counts the samples whose predicted class is the target class.
///
/// `y_max` holds the predicted class of each sample, `t` the targets, one row
/// per sample; the target class of a row is the column of its largest entry.
/// Samples are paired in order, as far as both last. The result depends on
/// these two arguments and on nothing else. Targets that have rows but no
/// columns name no class: for them there is no count.
pub fn accuracy(y_max: &Vec<usize>, t: &ByteMatrix) -> (r: Option<Accuracy>)
    ensures
        r is Some <==> (t@.len() == 0 || t.spec_cols() > 0),
        r matches Some(a) ==> {
            &&& a.samples == y_max@.len()
            &&& a.correct == matches_upto(y_max@, t@, paired(y_max@, t@))
            &&& a.correct <= a.samples
        },
{
    let rows: usize = t.nrows();
    let cols: usize = t.ncols();
    if rows > 0 && cols == 0 {
        return None;
    }
    let t_max: Vec<(usize, usize)> = t.max_index_by_column();
    let samples: usize = y_max.len();
    let n: usize = if samples <= rows {
        samples
    } else {
        rows
    };
    let mut correct: usize = 0;
    let mut i: usize = 0;
    while i < n
        invariant
            i <= n,
            n == paired(y_max@, t@),
            t_max@.len() == t@.len(),
            forall|k: int|
                0 <= k < t_max@.len() ==> {
                    &&& (#[trigger] t_max@[k]).0 == k
                    &&& t_max@[k].1 == first_max(t@[k])
                },
            correct == matches_upto(y_max@, t@, i as int),
            correct <= i,
        decreases n - i,
    {
        let target: (usize, usize) = t_max[i];
        if y_max[i] == target.1 {
            correct += 1;
        }
        i += 1;
    }
    Some(Accuracy { correct, samples })
}

/// Where every prediction is the class that the one-hot target names, every
/// paired sample counts.
pub proof fn lemma_all_correct(y_max: Seq<usize>, t: Seq<Seq<u8>>, n: int)
    requires
        0 <= n <= y_max.len(),
        n <= t.len(),
        forall|i: int| 0 <= i < n ==> (#[trigger] y_max[i]) == first_max(t[i]),
    ensures
        matches_upto(y_max, t, n) == n,
    decreases n,
{
    if n > 0 {
        lemma_all_correct(y_max, t, n - 1);
    }
}

} // verus!
