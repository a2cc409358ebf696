//! What a training loop decides: which samples make the next mini-batch, and
//! after which iterations the network is evaluated.

use vstd::prelude::*;
use crate::byte_matrix::ByteMatrix;

verus! {

/// The largest number of indices that one mini-batch can hold.
pub const MAX_BATCH: usize = usize::MAX / 16;

/// `rand::seq::IteratorRandom::choose_multiple` on the range `0..train_size`
/// with `rand::thread_rng()`: `amount` indices below `train_size`, no two of
/// them equal. Which indices, and in which order, is left to chance. The
/// vector that holds them must be allocatable.
#[verifier::external_body]
fn choose_multiple(train_size: usize, amount: usize) -> (mask: Vec<usize>)
    requires
        amount <= train_size,
        amount <= MAX_BATCH,
    ensures
        is_batch_mask(mask@, train_size, amount),
{
    rand::seq::IteratorRandom::choose_multiple(0..train_size, &mut rand::thread_rng(), amount)
}

/// Whether `mask` can be a mini-batch of `amount` samples out of
/// `train_size`: it holds `amount` indices of samples, each at most once.
pub open spec fn is_batch_mask(mask: Seq<usize>, train_size: usize, amount: usize) -> bool {
    &&& mask.len() == amount
    &&& forall|i: int| 0 <= i < mask.len() ==> #[trigger] mask[i] < train_size
    &&& forall|i: int, j: int| 0 <= i < j < mask.len() ==> mask[i] != mask[j]
}

/// The size of the mini-batch that is drawn where `batch_size` samples are
/// asked for and `train_size` exist.
pub open spec fn drawn(train_size: usize, batch_size: usize) -> usize {
    if batch_size <= train_size {
        batch_size
    } else {
        train_size
    }
}

/// Draws the samples of the next mini-batch at random: `batch_size` of the
/// `train_size` samples, or all of them where there are fewer. More samples
/// than [`MAX_BATCH`] cannot be drawn at once.
pub fn mini_batch(train_size: usize, batch_size: usize) -> (r: Option<Vec<usize>>)
    ensures
        r is Some <==> drawn(train_size, batch_size) <= MAX_BATCH,
        r matches Some(mask) ==> is_batch_mask(
            mask@,
            train_size,
            drawn(train_size, batch_size),
        ),
{
    let amount: usize = if batch_size <= train_size {
        batch_size
    } else {
        train_size
    };
    if amount > MAX_BATCH {
        return None;
    }
    Some(choose_multiple(train_size, amount))
}

/// The rows that a mini-batch takes from `labels`: row `k` of the batch is
/// the row of sample `mask[k]`, as far as the mask reaches; the rows behind
/// are zero.
pub open spec fn gathered(labels: Seq<Seq<u8>>, cols: nat, mask: Seq<usize>, batch_size: nat) -> Seq<
    Seq<u8>,
> {
    Seq::new(
        batch_size,
        |k: int|
            if k < mask.len() {
                labels[mask[k] as int]
            } else {
                Seq::new(cols, |j: int| 0u8)
            },
    )
}

/// Gathers the target rows of a mini-batch: a matrix of `batch_size` rows in
/// which row `k` is row `batch_mask[k]` of `train_label`.
///
/// There is no such matrix where the mask names a sample that does not
/// exist, where it is longer than the batch, or where the batch cannot be
/// held.
pub fn label_batch(train_label: &ByteMatrix, batch_mask: &Vec<usize>, batch_size: usize) -> (r:
    Option<ByteMatrix>)
    ensures
        r is Some <==> {
            &&& batch_size * train_label.spec_cols() <= isize::MAX
            &&& batch_mask@.len() <= batch_size
            &&& forall|k: int|
                0 <= k < batch_mask@.len() ==> #[trigger] batch_mask@[k] < train_label@.len()
        },
        r matches Some(batch) ==> {
            &&& batch.spec_cols() == train_label.spec_cols()
            &&& batch@ == gathered(
                train_label@,
                train_label.spec_cols(),
                batch_mask@,
                batch_size as nat,
            )
        },
{
    let rows: usize = train_label.nrows();
    let cols: usize = train_label.ncols();
    let n: usize = batch_mask.len();
    if n > batch_size {
        return None;
    }
    let mut batch: ByteMatrix = match ByteMatrix::zeros(batch_size, cols) {
        Some(b) => b,
        None => {
            return None;
        },
    };
    let ghost want = gathered(train_label@, cols as nat, batch_mask@, batch_size as nat);
    let mut k: usize = 0;
    while k < n
        invariant
            k <= n,
            n == batch_mask@.len(),
            n <= batch_size,
            rows == train_label@.len(),
            cols == train_label.spec_cols(),
            forall|i: int| 0 <= i < train_label@.len() ==> (#[trigger] train_label@[i]).len() == cols,
            want == gathered(train_label@, cols as nat, batch_mask@, batch_size as nat),
            batch.spec_cols() == cols,
            batch@.len() == batch_size,
            forall|i: int| 0 <= i < batch_mask@.len() && i < k ==> #[trigger] batch_mask@[i] < rows,
            forall|i: int| 0 <= i < k ==> #[trigger] batch@[i] == want[i],
            forall|i: int| k <= i < batch_size ==> #[trigger] batch@[i] == Seq::new(cols as nat, |j: int| 0u8),
        decreases n - k,
    {
        let sample: usize = batch_mask[k];
        if sample >= rows {
            return None;
        }
        let mut j: usize = 0;
        while j < cols
            invariant
                j <= cols,
                k < n,
                n == batch_mask@.len(),
                n <= batch_size,
                sample == batch_mask@[k as int],
                sample < rows,
                rows == train_label@.len(),
                cols == train_label.spec_cols(),
                train_label@[sample as int].len() == cols,
                want == gathered(train_label@, cols as nat, batch_mask@, batch_size as nat),
                batch.spec_cols() == cols,
                batch@.len() == batch_size,
                forall|i: int| 0 <= i < k ==> #[trigger] batch@[i] == want[i],
                forall|i: int|
                    k < i < batch_size ==> #[trigger] batch@[i] == Seq::new(cols as nat, |j: int| 0u8),
                batch@[k as int].len() == cols,
                forall|c: int| 0 <= c < j ==> #[trigger] batch@[k as int][c] == train_label@[sample as int][c],
            decreases cols - j,
        {
            match train_label.get(sample, j) {
                Some(v) => {
                    let done: bool = batch.set(k, j, v);
                    assert(done);
                },
                None => {
                    proof {
                        assert(false);
                    }
                },
            }
            j += 1;
        }
        assert(batch@[k as int] =~= want[k as int]);
        k += 1;
    }
    assert(batch@ =~= want);
    Some(batch)
}

/// The number of iterations that make an epoch: the number of whole batches
/// in the training set, and at least one.
pub open spec fn spec_iter_per_epoch(train_size: usize, batch_size: usize) -> usize {
    if train_size / batch_size >= 1 {
        train_size / batch_size
    } else {
        1
    }
}

/// The number of iterations that make an epoch.
pub fn iter_per_epoch(train_size: usize, batch_size: usize) -> (n: usize)
    requires
        batch_size > 0,
    ensures
        n == spec_iter_per_epoch(train_size, batch_size),
        n >= 1,
{
    let whole: usize = train_size / batch_size;
    if whole >= 1 {
        whole
    } else {
        1
    }
}

/// Where a training run stands.
#[derive(Clone, Copy, Debug, PartialEq, Eq, Structural)]
pub struct Schedule {
    /// The number of iterations that make an epoch; at least one.
    pub iter_per_epoch: usize,
    /// The number of iterations after which the run ends at the latest.
    pub max_iterations: usize,
    /// The number of evaluations after which the run ends.
    pub max_epochs: usize,
    /// The number of iterations made so far.
    pub iteration: usize,
    /// The number of evaluations made so far.
    pub epoch_count: usize,
    /// Whether the run has ended for the number of its evaluations.
    pub stopped: bool,
}

impl Schedule {
    /// An epoch has iterations, and no more evaluations were made than
    /// iterations.
    pub open spec fn wf(&self) -> bool {
        &&& self.iter_per_epoch >= 1
        &&& self.iteration <= self.max_iterations
        &&& self.epoch_count <= self.iteration
    }

    /// Whether the network is evaluated after iteration `i` (counted from
    /// zero): after the first iteration, and after the last of every epoch.
    pub open spec fn evaluates(&self, i: usize) -> bool {
        i == 0 || (i + 1) % (self.iter_per_epoch as int) == 0
    }

    /// Whether the run is over: it has made all its iterations or all its
    /// evaluations.
    pub open spec fn finished(&self) -> bool {
        self.stopped || self.iteration >= self.max_iterations
    }

    /// The schedule after its next iteration.
    pub open spec fn advanced(self) -> Schedule {
        let evaluate = self.evaluates(self.iteration);
        let epoch_count = if evaluate {
            (self.epoch_count + 1) as usize
        } else {
            self.epoch_count
        };
        Schedule {
            iteration: (self.iteration + 1) as usize,
            epoch_count,
            stopped: evaluate && epoch_count >= self.max_epochs,
            ..self
        }
    }

    /// The schedule of a run before its first iteration.
    pub fn new(iter_per_epoch: usize, max_iterations: usize, max_epochs: usize) -> (s: Self)
        requires
            iter_per_epoch >= 1,
        ensures
            s == (Schedule {
                iter_per_epoch,
                max_iterations,
                max_epochs,
                iteration: 0,
                epoch_count: 0,
                stopped: false,
            }),
            s.wf(),
    {
        Self { iter_per_epoch, max_iterations, max_epochs, iteration: 0, epoch_count: 0, stopped: false }
    }

    /// Moves to the next iteration. Returns `None` where the run is over, and
    /// the schedule then stays as it was; else whether the network is to be
    /// evaluated after the iteration.
    pub fn next(&mut self) -> (r: Option<bool>)
        requires
            old(self).wf(),
        ensures
            final(self).wf(),
            r is None <==> old(self).finished(),
            r is None ==> *final(self) == *old(self),
            r matches Some(evaluate) ==> evaluate == old(self).evaluates(old(self).iteration)
                && *final(self) == old(self).advanced(),
    {
        if self.stopped || self.iteration >= self.max_iterations {
            return None;
        }
        let i: usize = self.iteration;
        let evaluate: bool = i == 0 || (i + 1) % self.iter_per_epoch == 0;
        if evaluate {
            self.epoch_count = self.epoch_count + 1;
            if self.epoch_count >= self.max_epochs {
                self.stopped = true;
            }
        }
        self.iteration = i + 1;
        Some(evaluate)
    }
}

} // verus!
