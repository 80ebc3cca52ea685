//! The concatenator: the batches of a stream gathered into one.
//!
//! Batches are held until the stream ends. A batch without rows is dropped
//! unless it is the first to arrive, so that a stream of nothing but empty
//! batches still yields one empty batch with its schema. At the end the held
//! batches are joined under the schema of the first.
//!
//! Joining is Arrow's work, and it is done here where Arrow is known not to
//! panic: for columns of fixed width, of bits and of text, and for no more
//! rows and batches than `MAX_JOINED_ROWS` and `MAX_JOINED_BATCHES`. Batches
//! with columns of another layout, such as lists and run-end encoded
//! columns, are handed back as they are held, for the caller to join as it
//! sees fit.

use crate::batch::batch_fields;
use crate::batch::batch_rows;
use crate::batch::batch_schema;
use crate::batch::join_batches;
use crate::batch::concatenable;
use crate::batch::fixed_schema;
use crate::batch::joinable_count;
use crate::batch::joinable_schema;
use crate::batch::kinds_differ;
use crate::batch::rows_of;
use crate::batch::schema_fields;
use crate::batch::share_schema;
use crate::batch::total_rows;
use crate::batch::widths_match;
use crate::batch::RowBatch;
use crate::batch::ColumnLayout;
use crate::batch::MAX_JOINED_BATCHES;
use crate::batch::MAX_JOINED_ROWS;
use crate::error::OperatorError;
use arrow_schema::ArrowError;
use vstd::prelude::*;

verus! {

/// Whether a batch of `rows` rows is held when `held` batches are held
/// already.
pub open spec fn keeps(held: nat, rows: nat) -> bool {
    rows > 0 || held == 0
}

/// The held batches after `batch` has arrived.
pub open spec fn hold<T>(held: Seq<Seq<T>>, batch: Seq<T>) -> Seq<Seq<T>> {
    if keeps(held.len(), batch.len()) {
        held.push(batch)
    } else {
        held
    }
}

/// The batches that are held once `batches` have arrived in order.
pub open spec fn held_of<T>(batches: Seq<Seq<T>>) -> Seq<Seq<T>>
    decreases batches.len(),
{
    if batches.len() == 0 {
        Seq::empty()
    } else {
        hold(held_of(batches.drop_last()), batches.last())
    }
}

/// Something is held exactly where a batch has arrived, so a stream of no
/// batches yields nothing and every other stream yields one batch. Only the
/// first held batch can be empty, and the rows held are the rows that
/// arrived, in their order.
pub proof fn lemma_held_of_stream<T>(batches: Seq<Seq<T>>)
    ensures
        held_of(batches).len() == 0 <==> batches.len() == 0,
        forall|i: int| 0 < i < held_of(batches).len() ==> (#[trigger] held_of(batches)[i]).len() > 0,
        held_of(batches).flatten() == batches.flatten(),
    decreases batches.len(),
{
    if batches.len() > 0 {
        let front = batches.drop_last();
        let last = batches.last();
        lemma_held_of_stream(front);
        assert(batches =~= front.push(last));
        front.lemma_flatten_push(last);
        if keeps(held_of(front).len(), last.len()) {
            held_of(front).lemma_flatten_push(last);
        } else {
            assert(front.flatten() + last =~= front.flatten());
        }
    }
}

/// A stream in which some batch has rows yields one batch.
pub proof fn lemma_rows_are_held<T>(batches: Seq<Seq<T>>, i: int)
    requires
        0 <= i < batches.len(),
        batches[i].len() > 0,
    ensures
        held_of(batches).len() > 0,
{
    lemma_held_of_stream(batches);
}

/// What the concatenator gives for what came of joining the held batches:
/// the joined batch, or the error that says that they do not fit together.
pub fn joined(outcome: Result<RowBatch, ArrowError>) -> (r: Result<Option<RowBatch>, OperatorError>)
    ensures
        r == match outcome {
            Ok(batch) => Ok::<Option<RowBatch>, OperatorError>(Some(batch)),
            Err(_) => Err::<Option<RowBatch>, OperatorError>(OperatorError::SchemaMismatch),
        },
{
    match outcome {
        Ok(batch) => Ok(Some(batch)),
        Err(_) => Err(OperatorError::SchemaMismatch),
    }
}

/// What ending the stream gives for the held batches `held`: nothing where
/// nothing is held; else the rows of the held batches in one batch under the
/// schema of the first, where they are as wide as the first and Arrow can
/// join them; else the error that says that they do not fit together.
pub open spec fn ends_in(held: Seq<RowBatch>, r: Result<Option<RowBatch>, OperatorError>) -> bool {
    match r {
        Ok(None) => held.len() == 0,
        Ok(Some(batch)) => {
            &&& held.len() > 0
            &&& widths_match(batch_schema(held[0]), held)
            &&& concatenable(batch_schema(held[0]), held)
            &&& batch_rows(batch) == rows_of(held).flatten()
            &&& batch_schema(batch) == batch_schema(held[0])
        },
        Err(error) => {
            &&& error == OperatorError::SchemaMismatch
            &&& held.len() > 0
            &&& !(widths_match(batch_schema(held[0]), held) && concatenable(
                batch_schema(held[0]),
                held,
            ))
        },
    }
}

/// When ending the stream owes a batch and when an error: held batches
/// that all have the schema of the first, with no text among their columns,
/// are joined; held batches with a column of another kind or layout than
/// the first has at its place are not.
pub open spec fn owed(held: Seq<RowBatch>, r: Result<Option<RowBatch>, OperatorError>) -> bool {
    &&& held.len() > 0 && share_schema(batch_schema(held[0]), held) && fixed_schema(
        batch_schema(held[0]),
    ) ==> r is Ok
    &&& held.len() > 0 && kinds_differ(batch_schema(held[0]), held) ==> r is Err
}

/// Whether batches held as `held` are joined here: where none is held, or
/// the columns of the first are of layouts that are joined, the rows of all
/// are no more than `MAX_JOINED_ROWS`, and, where there is text among the
/// columns, there are no more batches than are joined.
pub open spec fn joined_here(held: Seq<RowBatch>) -> bool {
    held.len() == 0 || {
        &&& joinable_schema(batch_schema(held[0]))
        &&& total_rows(held) <= MAX_JOINED_ROWS
        &&& fixed_schema(batch_schema(held[0])) || joinable_count(held.len())
    }
}

/// The rows of the first batches of a run are no more than the rows of all.
pub proof fn lemma_total_rows_grows(batches: Seq<RowBatch>, n: int)
    requires
        0 <= n <= batches.len(),
    ensures
        total_rows(batches.take(n)) <= total_rows(batches),
    decreases batches.len(),
{
    if n == batches.len() {
        assert(batches.take(n) =~= batches);
    } else {
        lemma_total_rows_grows(batches.drop_last(), n);
        assert(batches.drop_last().take(n) =~= batches.take(n));
    }
}

/// The batches of one stream, held until it ends.
pub struct BatchConcatenator {
    batches: Vec<RowBatch>,
}

impl BatchConcatenator {
    /// The batches held, in the order in which they arrived.
    pub closed spec fn held(&self) -> Seq<RowBatch> {
        self.batches@
    }

    /// A concatenator that holds nothing.
    pub fn new() -> (concatenator: BatchConcatenator)
        ensures
            concatenator.held().len() == 0,
    {
        BatchConcatenator { batches: Vec::new() }
    }

    /// The number of batches held.
    pub fn len(&self) -> (n: usize)
        ensures
            n == self.held().len(),
    {
        self.batches.len()
    }

    /// Takes `batch`: holds it, or drops it where it has no rows and a batch
    /// is held already. Says whether it was held.
    pub fn push(&mut self, batch: RowBatch) -> (kept: bool)
        ensures
            kept == keeps(old(self).held().len(), batch@.rows.len()),
            final(self).held() == if kept {
                old(self).held().push(batch)
            } else {
                old(self).held()
            },
            rows_of(final(self).held()) == hold(rows_of(old(self).held()), batch@.rows),
    {
        if batch.num_rows() == 0 && self.batches.len() > 0 {
            false
        } else {
            self.batches.push(batch);
            assert(rows_of(self.held()) =~= rows_of(old(self).held()).push(batch@.rows));
            true
        }
    }

    /// Whether the held batches are joined here.
    pub fn can_finish(&self) -> (r: bool)
        ensures
            r == joined_here(self.held()),
    {
        let held = self.batches.len();
        if held == 0 {
            return true;
        }
        let width = self.batches[0].num_columns();
        let mut fixed = true;
        let mut c: usize = 0;
        while c < width
            invariant
                c <= width,
                held == self.batches@.len(),
                held > 0,
                width == batch_fields(self.batches@[0]).len(),
                forall|j: int|
                    0 <= j < c ==> !((#[trigger] batch_fields(self.batches@[0])[j]).layout
                        is Other),
                fixed <==> forall|j: int|
                    0 <= j < c ==> {
                        let layout = (#[trigger] batch_fields(self.batches@[0])[j]).layout;
                        layout is Fixed || layout is Bits
                    },
            decreases width - c,
        {
            match self.batches[0].column(c).data_layout() {
                ColumnLayout::Other => {
                    assert(batch_fields(self.batches@[0])[c as int].layout is Other);
                    return false;
                },
                ColumnLayout::Text => {
                    assert(batch_fields(self.batches@[0])[c as int].layout is Text);
                    fixed = false;
                },
                _ => {},
            }
            c = c + 1;
        }
        if !fixed && held != 1 && held > MAX_JOINED_BATCHES {
            return false;
        }
        let mut rows: usize = 0;
        let mut i: usize = 0;
        while i < held
            invariant
                i <= held,
                held == self.batches@.len(),
                rows == total_rows(self.batches@.take(i as int)),
                rows <= MAX_JOINED_ROWS,
            decreases held - i,
        {
            let more = self.batches[i].num_rows();
            proof {
                assert(self.batches@.take(i + 1).drop_last() =~= self.batches@.take(i as int));
                lemma_total_rows_grows(self.batches@, i + 1);
            }
            if more > MAX_JOINED_ROWS - rows {
                return false;
            }
            rows = rows + more;
            i = i + 1;
        }
        assert(self.batches@.take(held as int) =~= self.batches@);
        true
    }

    /// Ends the stream: gives nothing where nothing is held, else the rows
    /// of the held batches in one batch under the schema of the first. Gives
    /// an error where the held batches differ in their number of columns or
    /// cannot be joined, as batches with a column of another kind than the
    /// first has cannot. Batches that all have the schema of the first can,
    /// unless they hold more text than 32-bit offsets find.
    pub fn finish(self) -> (r: Result<Option<RowBatch>, OperatorError>)
        requires
            joined_here(self.held()),
        ensures
            ends_in(self.held(), r),
            owed(self.held(), r),
    {
        let held = self.batches.len();
        if held == 0 {
            return Ok(None);
        }
        let schema = self.batches[0].schema();
        let width = self.batches[0].num_columns();
        let mut i: usize = 1;
        while i < held
            invariant
                1 <= i <= held,
                held == self.batches@.len(),
                width == schema_fields(*schema).len(),
                *schema == batch_schema(self.batches@[0]),
                forall|j: int| 0 <= j < i ==> (#[trigger] batch_fields(self.batches@[j])).len() == width,
            decreases held - i,
        {
            if self.batches[i].num_columns() != width {
                assert(batch_fields(self.held()[i as int]).len() != width);
                assert(batch_schema(self.held()[i as int]) != *schema);
                return Err(OperatorError::SchemaMismatch);
            }
            i = i + 1;
        }
        joined(join_batches(&schema, &self.batches))
    }

    /// Ends the stream where the held batches are joined here, as `finish`
    /// does; else hands the concatenator back as it is.
    pub fn try_finish(self) -> (r: Result<Result<Option<RowBatch>, OperatorError>, BatchConcatenator>)
        ensures
            match r {
                Ok(end) => {
                    &&& joined_here(self.held())
                    &&& ends_in(self.held(), end)
                    &&& owed(self.held(), end)
                },
                Err(same) => !joined_here(self.held()) && same.held() == self.held(),
            },
    {
        if self.can_finish() {
            Ok(self.finish())
        } else {
            Err(self)
        }
    }

    /// The held batches, in the order in which they arrived.
    pub fn into_batches(self) -> (batches: Vec<RowBatch>)
        ensures
            batches@ == self.held(),
    {
        self.batches
    }
}

} // verus!
