//! The column projector: each batch of a stream narrowed to a chosen list of
//! columns.
//!
//! The list is fixed when the projector is made. Each batch that has rows is
//! narrowed on its own: the indices have to name columns of that batch, and
//! nothing else is asked of it. The projector remembers a number of columns
//! that the indices were found to fit, so that a stream whose batches are
//! all as wide goes through the list once.

use crate::batch::batch_fields;
use crate::batch::batch_rows;
use crate::batch::indices_within;
use crate::batch::project_fields;
use crate::batch::project_rows;
use crate::batch::BatchView;
use crate::batch::Cell;
use crate::batch::RowBatch;
use crate::error::OperatorError;
use vstd::prelude::*;

verus! {

/// What becomes of a batch that meets a projector onto `columns`.
pub enum Projection {
    /// The batch has no rows and is passed over.
    Skipped,
    /// The batch is narrowed and sent on.
    Narrowed,
    /// An index names no column of the batch.
    OutOfRange,
}

/// What becomes of a batch that meets a projector onto `columns`: a batch
/// without rows is passed over, whatever its columns; a batch with rows is
/// narrowed where every index names one of its columns.
pub open spec fn meet(columns: Seq<usize>, batch: BatchView) -> Projection {
    if batch.rows.len() == 0 {
        Projection::Skipped
    } else if indices_within(columns, batch.kinds.len() as int) {
        Projection::Narrowed
    } else {
        Projection::OutOfRange
    }
}

/// The batches that a projector onto `columns` sends on when it is fed
/// `batches` in order and every one of them can be narrowed: the rows of
/// each batch that has rows, narrowed.
pub open spec fn narrowed(columns: Seq<usize>, batches: Seq<BatchView>) -> Seq<Seq<Seq<Cell>>>
    decreases batches.len(),
{
    if batches.len() == 0 {
        Seq::empty()
    } else if batches.last().rows.len() == 0 {
        narrowed(columns, batches.drop_last())
    } else {
        narrowed(columns, batches.drop_last()).push(project_rows(batches.last().rows, columns))
    }
}

/// The number of batches that have rows.
pub open spec fn with_rows(batches: Seq<BatchView>) -> nat
    decreases batches.len(),
{
    if batches.len() == 0 {
        0
    } else if batches.last().rows.len() == 0 {
        with_rows(batches.drop_last())
    } else {
        with_rows(batches.drop_last()) + 1
    }
}

/// As many batches are sent on as have rows, each with the rows that came.
pub proof fn lemma_one_output_per_batch_with_rows(columns: Seq<usize>, batches: Seq<BatchView>)
    ensures
        narrowed(columns, batches).len() == with_rows(batches),
        forall|i: int|
            0 <= i < narrowed(columns, batches).len() ==> (#[trigger] narrowed(
                columns,
                batches,
            )[i]).len() > 0,
    decreases batches.len(),
{
    if batches.len() > 0 {
        lemma_one_output_per_batch_with_rows(columns, batches.drop_last());
    }
}

/// The projector of one stream.
pub struct ColumnProjector {
    columns: Vec<usize>,
    fitted: Option<usize>,
}

impl View for ColumnProjector {
    type V = Seq<usize>;

    /// The indices of the columns to keep, in the order in which they are to
    /// stand.
    closed spec fn view(&self) -> Seq<usize> {
        self.columns@
    }
}

impl ColumnProjector {
    /// The indices fit the number of columns that is remembered.
    #[verifier::type_invariant]
    closed spec fn fits(self) -> bool {
        self.fitted matches Some(width) ==> indices_within(self.columns@, width as int)
    }

    /// A projector onto the columns at `columns`, in that order.
    pub fn new(columns: Vec<usize>) -> (projector: ColumnProjector)
        ensures
            projector@ == columns@,
    {
        ColumnProjector { columns, fitted: None }
    }

    /// Whether every index of the projector lies below `width`.
    pub fn fits_width(&self, width: usize) -> (r: bool)
        ensures
            r == indices_within(self@, width as int),
    {
        proof {
            use_type_invariant(self);
        }
        match self.fitted {
            Some(known) => {
                if known <= width {
                    return true;
                }
            },
            None => {},
        }
        let mut i: usize = 0;
        while i < self.columns.len()
            invariant
                i <= self.columns@.len(),
                forall|j: int| 0 <= j < i ==> self.columns@[j] < width,
            decreases self.columns@.len() - i,
        {
            if self.columns[i] >= width {
                return false;
            }
            i = i + 1;
        }
        true
    }

    /// Meets `input`: passes over a batch without rows, else gives the batch
    /// narrowed to the chosen columns, each under the field that it had. An
    /// index that names no column of `input` is an error. The list of
    /// columns never changes.
    pub fn project(&mut self, input: &RowBatch) -> (r: Result<Option<RowBatch>, OperatorError>)
        ensures
            final(self)@ == old(self)@,
            match meet(old(self)@, input@) {
                Projection::Skipped => r == Ok::<Option<RowBatch>, OperatorError>(None),
                Projection::Narrowed => {
                    &&& r matches Ok(Some(output))
                    &&& batch_rows(output) == project_rows(input@.rows, old(self)@)
                    &&& batch_fields(output) == project_fields(batch_fields(*input), old(self)@)
                },
                Projection::OutOfRange => r == Err::<Option<RowBatch>, OperatorError>(
                    OperatorError::ColumnOutOfRange,
                ),
            },
    {
        if input.num_rows() == 0 {
            return Ok(None);
        }
        let width = input.num_columns();
        if !self.fits_width(width) {
            return Err(OperatorError::ColumnOutOfRange);
        }
        self.fitted = Some(width);
        // Every index lies below `width` here, so the projection succeeds.
        match input.project(&self.columns) {
            Ok(output) => Ok(Some(output)),
            Err(_) => Err(OperatorError::ColumnOutOfRange),
        }
    }
}

} // verus!
