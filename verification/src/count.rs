//! The row counter: the number of rows of each batch of a stream, and their
//! running total.

use crate::batch::RowBatch;
use vstd::prelude::*;

verus! {

/// The number of rows of each batch, in order.
pub open spec fn row_counts<T>(batches: Seq<Seq<T>>) -> Seq<nat> {
    Seq::new(batches.len(), |i: int| batches[i].len())
}

/// The sum of `counts`.
pub open spec fn sum_counts(counts: Seq<nat>) -> nat
    decreases counts.len(),
{
    if counts.len() == 0 {
        0
    } else {
        sum_counts(counts.drop_last()) + counts.last()
    }
}

/// The counts of a stream are one for each batch, empty ones included, and
/// they add up to the number of rows of the batches laid end to end.
pub proof fn lemma_counts_of_stream<T>(batches: Seq<Seq<T>>)
    ensures
        row_counts(batches).len() == batches.len(),
        sum_counts(row_counts(batches)) == batches.flatten().len(),
    decreases batches.len(),
{
    if batches.len() > 0 {
        let front = batches.drop_last();
        lemma_counts_of_stream(front);
        assert(row_counts(batches).drop_last() =~= row_counts(front));
        assert(batches =~= front.push(batches.last()));
        front.lemma_flatten_push(batches.last());
    }
}

/// The running total of the rows of one stream.
#[derive(Clone, Copy, Debug, PartialEq, Eq)]
pub struct RowCounter {
    total: usize,
}

impl RowCounter {
    /// The rows counted so far.
    pub closed spec fn counted(&self) -> nat {
        self.total as nat
    }

    /// A counter that has counted nothing.
    pub fn new() -> (counter: RowCounter)
        ensures
            counter.counted() == 0,
    {
        RowCounter { total: 0 }
    }

    /// The rows counted so far.
    pub fn total(&self) -> (total: usize)
        ensures
            total == self.counted(),
    {
        self.total
    }

    /// Whether the counter can take `rows` more rows without running past
    /// the largest number it can hold.
    pub fn has_room(&self, rows: usize) -> (r: bool)
        ensures
            r == (self.counted() + rows <= usize::MAX),
    {
        rows <= usize::MAX - self.total
    }

    /// Counts the rows of `batch`, be they none, and adds them to the total.
    pub fn count(&mut self, batch: &RowBatch) -> (rows: usize)
        requires
            old(self).counted() + batch@.rows.len() <= usize::MAX,
        ensures
            rows == batch@.rows.len(),
            final(self).counted() == old(self).counted() + rows,
    {
        let rows = batch.num_rows();
        self.total = self.total + rows;
        rows
    }
}

} // verus!
