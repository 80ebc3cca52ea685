//! Column aggregates: the sum and the minimum of one column over a whole
//! stream, built up batch by batch.
//!
//! An aggregate starts from the null marker. Each batch brings a partial
//! result, or nothing: a batch without rows, a column of a kind that is not
//! summed here, and a column that holds no value bring nothing. The first
//! partial result seeds the aggregate and each later one is combined with it.
//! Columns of integers are aggregated here; the kernels wrap on overflow, and
//! so does the sum. Columns of floating-point numbers are told apart by their
//! kind and left to the caller.

use crate::batch::cell_ints;
use crate::batch::cells_hold;
use crate::batch::column_cells;
use crate::batch::column_kind;
use crate::batch::column_min;
use crate::batch::column_of;
use crate::batch::column_sum;
use crate::batch::count_values;
use crate::batch::least;
use crate::batch::total;
use crate::batch::BatchView;
use crate::batch::Cell;
use crate::batch::Column;
use crate::batch::ColumnKind;
use crate::batch::RowBatch;
use crate::error::OperatorError;
use crate::scalar::lemma_of_value;
use crate::scalar::lemma_sum_regroups;
use crate::scalar::lemma_wrap_holds;
use crate::scalar::lemma_wrap_sum;
use crate::scalar::ScalarValue;
use vstd::prelude::*;

verus! {

/// The scalar of kind `kind` for what a kernel found in a column: the null
/// marker where it found no value.
pub open spec fn scalar_or_null(kind: ColumnKind, value: Option<int>) -> ScalarValue {
    match value {
        Some(v) => ScalarValue::of(kind, v),
        None => ScalarValue::Null,
    }
}

/// The sum of a column: none where the kind of the column is no integer
/// kind, the null marker where the column holds no value, else the total of
/// its values wrapped to its kind.
pub open spec fn sum_of(kind: ColumnKind, cells: Seq<Cell>) -> Option<ScalarValue> {
    if kind.is_integer() {
        Some(scalar_or_null(kind, column_sum(kind, cells)))
    } else {
        None
    }
}

/// The minimum of a column: none where the kind of the column is no integer
/// kind, the null marker where the column holds no value, else the least of
/// its values.
pub open spec fn min_of(kind: ColumnKind, cells: Seq<Cell>) -> Option<ScalarValue> {
    if kind.is_integer() {
        Some(scalar_or_null(kind, column_min(cells)))
    } else {
        None
    }
}

/// The column of a batch that an aggregate over `column` reads: none where
/// the batch has no rows, an error where it has rows but no such column.
pub open spec fn target(batch: BatchView, column: usize) -> Result<
    Option<(ColumnKind, Seq<Cell>)>,
    OperatorError,
> {
    if batch.rows.len() == 0 {
        Ok(None)
    } else if column >= batch.kinds.len() {
        Err(OperatorError::ColumnOutOfRange)
    } else {
        Ok(Some((batch.kinds[column as int], column_of(batch.rows, column as int))))
    }
}

/// A partial result that counts: one that is there and is not the null
/// marker.
pub open spec fn counted(part: Option<ScalarValue>) -> Option<ScalarValue> {
    match part {
        Some(value) if !(value is Null) => Some(value),
        _ => None,
    }
}

/// What a batch brings to the sum of `column`.
pub open spec fn sum_part(batch: BatchView, column: usize) -> Result<
    Option<ScalarValue>,
    OperatorError,
> {
    match target(batch, column) {
        Err(error) => Err(error),
        Ok(None) => Ok(None),
        Ok(Some((kind, cells))) => Ok(counted(sum_of(kind, cells))),
    }
}

/// What a batch brings to the minimum of `column`.
pub open spec fn min_part(batch: BatchView, column: usize) -> Result<
    Option<ScalarValue>,
    OperatorError,
> {
    match target(batch, column) {
        Err(error) => Err(error),
        Ok(None) => Ok(None),
        Ok(Some((kind, cells))) => Ok(counted(min_of(kind, cells))),
    }
}

/// What a batch brings to the average of `column`: the sum of the values of
/// the column and their number. Nothing where the batch has no rows, the
/// column holds no value, or its kind is no integer kind.
pub open spec fn average_part(batch: BatchView, column: usize) -> Result<
    Option<(ScalarValue, nat)>,
    OperatorError,
> {
    match target(batch, column) {
        Err(error) => Err(error),
        Ok(None) => Ok(None),
        Ok(Some((kind, cells))) => if count_values(cells) == 0 {
            Ok(None)
        } else {
            match sum_of(kind, cells) {
                Some(sum) => Ok(Some((sum, count_values(cells)))),
                None => Ok(None),
            }
        },
    }
}

/// A sum combined with a partial result: the partial result where the sum
/// is still the null marker, else the two added; an error where they are of
/// different kinds.
pub open spec fn sum_merge(sum: ScalarValue, part: ScalarValue) -> Result<
    ScalarValue,
    OperatorError,
> {
    if sum is Null {
        Ok(part)
    } else {
        match sum.sum(part) {
            Some(both) => Ok(both),
            None => Err(OperatorError::KindMismatch),
        }
    }
}

/// A minimum combined with a partial result: the partial result where the
/// minimum is still the null marker or the partial result is below it, else
/// the minimum as it was.
pub open spec fn min_merge(min: ScalarValue, part: ScalarValue) -> ScalarValue {
    if min is Null || part.below(min) {
        part
    } else {
        min
    }
}

/// The sum of `column` after one more batch.
pub open spec fn sum_step(sum: ScalarValue, batch: BatchView, column: usize) -> Result<
    ScalarValue,
    OperatorError,
> {
    match sum_part(batch, column) {
        Err(error) => Err(error),
        Ok(None) => Ok(sum),
        Ok(Some(part)) => sum_merge(sum, part),
    }
}

/// The minimum of `column` after one more batch.
pub open spec fn min_step(min: ScalarValue, batch: BatchView, column: usize) -> Result<
    ScalarValue,
    OperatorError,
> {
    match min_part(batch, column) {
        Err(error) => Err(error),
        Ok(None) => Ok(min),
        Ok(Some(part)) => Ok(min_merge(min, part)),
    }
}

/// The sum of `column` over `batches` fed in order, the first error ending
/// the run.
pub open spec fn sum_run(batches: Seq<BatchView>, column: usize) -> Result<
    ScalarValue,
    OperatorError,
>
    decreases batches.len(),
{
    if batches.len() == 0 {
        Ok(ScalarValue::Null)
    } else {
        match sum_run(batches.drop_last(), column) {
            Err(error) => Err(error),
            Ok(sum) => sum_step(sum, batches.last(), column),
        }
    }
}

/// The minimum of `column` over `batches` fed in order, the first error
/// ending the run.
pub open spec fn min_run(batches: Seq<BatchView>, column: usize) -> Result<
    ScalarValue,
    OperatorError,
>
    decreases batches.len(),
{
    if batches.len() == 0 {
        Ok(ScalarValue::Null)
    } else {
        match min_run(batches.drop_last(), column) {
            Err(error) => Err(error),
            Ok(min) => min_step(min, batches.last(), column),
        }
    }
}

/// The integers that a batch holds in `column`: none where the batch has no
/// such column or the column is of no integer kind.
pub open spec fn batch_ints(batch: BatchView, column: usize) -> Seq<int> {
    if column < batch.kinds.len() && batch.kinds[column as int].is_integer() {
        cell_ints(column_of(batch.rows, column as int))
    } else {
        Seq::empty()
    }
}

/// The integers that the batches of a stream hold in `column`, in order.
pub open spec fn stream_ints(batches: Seq<BatchView>, column: usize) -> Seq<int>
    decreases batches.len(),
{
    if batches.len() == 0 {
        Seq::empty()
    } else {
        stream_ints(batches.drop_last(), column) + batch_ints(batches.last(), column)
    }
}

/// Whether every batch of the stream that has rows has the column `column`,
/// of kind `kind` or else of a kind that is no integer kind.
pub open spec fn of_one_kind(batches: Seq<BatchView>, column: usize, kind: ColumnKind) -> bool {
    forall|i: int|
        0 <= i < batches.len() && (#[trigger] batches[i]).rows.len() > 0 ==> column
            < batches[i].kinds.len() && (batches[i].kinds[column as int] == kind
            || !batches[i].kinds[column as int].is_integer())
}

/// Whether the integers that a batch holds in `column` are values of the
/// kind of that column, as they are in every batch that there is.
pub open spec fn column_holds(batch: BatchView, column: usize) -> bool {
    column < batch.kinds.len() ==> cells_hold(
        batch.kinds[column as int],
        column_of(batch.rows, column as int),
    )
}

/// Whether the integers that each batch of the stream holds in `column` are
/// values of the kind of that column.
pub open spec fn all_hold_their_kind(batches: Seq<BatchView>, column: usize) -> bool {
    forall|i: int| 0 <= i < batches.len() ==> column_holds(#[trigger] batches[i], column)
}

/// Whether each of `values` is a value of kind `kind`.
pub open spec fn all_hold(kind: ColumnKind, values: Seq<int>) -> bool {
    forall|i: int| 0 <= i < values.len() ==> kind.holds(#[trigger] values[i])
}

/// What holds of every batch of a stream holds of every batch but the last.
pub proof fn lemma_front_of_stream(batches: Seq<BatchView>, column: usize, kind: ColumnKind)
    requires
        batches.len() > 0,
    ensures
        of_one_kind(batches, column, kind) ==> of_one_kind(batches.drop_last(), column, kind),
        all_hold_their_kind(batches, column) ==> all_hold_their_kind(batches.drop_last(), column),
{
    let front = batches.drop_last();
    if of_one_kind(batches, column, kind) {
        assert forall|i: int| 0 <= i < front.len() && (#[trigger] front[i]).rows.len() > 0 implies column
            < front[i].kinds.len() && (front[i].kinds[column as int] == kind
            || !front[i].kinds[column as int].is_integer()) by {
            assert(front[i] == batches[i]);
        }
    }
    if all_hold_their_kind(batches, column) {
        assert forall|i: int| 0 <= i < front.len() implies column_holds(
            #[trigger] front[i],
            column,
        ) by {
            assert(front[i] == batches[i]);
        }
    }
}

/// The total of two runs of integers laid end to end is the sum of their
/// totals.
pub proof fn lemma_total_concat(a: Seq<int>, b: Seq<int>)
    ensures
        total(a + b) == total(a) + total(b),
    decreases b.len(),
{
    if b.len() == 0 {
        assert(a + b =~= a);
    } else {
        lemma_total_concat(a, b.drop_last());
        assert((a + b).drop_last() =~= a + b.drop_last());
    }
}

/// The least of a run of integers is one of them and none of them is below
/// it.
pub proof fn lemma_least_is_minimum(values: Seq<int>)
    requires
        values.len() > 0,
    ensures
        values.contains(least(values)),
        forall|i: int| 0 <= i < values.len() ==> least(values) <= values[i],
    decreases values.len(),
{
    if values.len() > 1 {
        let front = values.drop_last();
        lemma_least_is_minimum(front);
        let k = choose|k: int| 0 <= k < front.len() && front[k] == least(front);
        assert(values[k] == least(front));
        assert(values[values.len() - 1] == values.last());
        assert forall|i: int| 0 <= i < values.len() implies least(values) <= values[i] by {
            if i < front.len() {
                assert(front[i] == values[i]);
            }
        }
    } else {
        assert(values[0] == least(values));
    }
}

/// The least of two runs of integers laid end to end is the lesser of their
/// two least.
pub proof fn lemma_least_concat(a: Seq<int>, b: Seq<int>)
    requires
        a.len() > 0,
        b.len() > 0,
    ensures
        least(a + b) == if least(b) < least(a) {
            least(b)
        } else {
            least(a)
        },
    decreases b.len(),
{
    assert((a + b).drop_last() =~= a + b.drop_last());
    assert((a + b).last() == b.last());
    if b.len() == 1 {
        assert(a + b.drop_last() =~= a);
    } else {
        lemma_least_concat(a, b.drop_last());
    }
}

/// Combining is associative and the null marker is its neutral start: it
/// does not matter for a sum or a minimum whether two partial results of the
/// kind of the aggregate are combined with it one by one, or with each other
/// first.
pub proof fn lemma_merge_regroups(acc: ScalarValue, a: ScalarValue, b: ScalarValue)
    requires
        a.kind() is Some,
        a.kind() == b.kind(),
        acc is Null || acc.kind() == a.kind(),
    ensures
        sum_merge(ScalarValue::Null, a) == Ok::<ScalarValue, OperatorError>(a),
        min_merge(ScalarValue::Null, a) == a,
        sum_merge(a, b) is Ok,
        sum_merge(acc, a) is Ok,
        sum_merge(sum_merge(acc, a)->Ok_0, b) == sum_merge(acc, sum_merge(a, b)->Ok_0),
        min_merge(min_merge(acc, a), b) == min_merge(acc, min_merge(a, b)),
{
    if !(acc is Null) {
        lemma_sum_regroups(acc, a, b);
    }
}

/// The sum over a stream: where the column is of one integer kind in every
/// batch that counts, the aggregate is the total of all the values that the
/// stream holds in the column, wrapped to that kind, and so the exact total
/// where that is a value of the kind. Where the stream holds no value in the
/// column (no batch, no rows, nulls only, or kinds that are not summed) the
/// aggregate is the null marker.
pub proof fn lemma_sum_of_stream(batches: Seq<BatchView>, column: usize, kind: ColumnKind)
    requires
        kind.is_integer(),
        of_one_kind(batches, column, kind),
    ensures
        sum_run(batches, column) == Ok::<ScalarValue, OperatorError>(
            if stream_ints(batches, column).len() == 0 {
                ScalarValue::Null
            } else {
                ScalarValue::of(kind, kind.wrap(total(stream_ints(batches, column))))
            },
        ),
        stream_ints(batches, column).len() > 0 && kind.holds(total(stream_ints(batches, column)))
            ==> sum_run(batches, column)->Ok_0.kind() == Some(kind) && sum_run(
            batches,
            column,
        )->Ok_0.value() == total(stream_ints(batches, column)),
    decreases batches.len(),
{
    if batches.len() > 0 {
        let front = batches.drop_last();
        let last = batches.last();
        lemma_front_of_stream(batches, column, kind);
        lemma_sum_of_stream(front, column, kind);
        let a = stream_ints(front, column);
        let b = batch_ints(last, column);
        assert(last == batches[batches.len() - 1]);
        lemma_total_concat(a, b);
        lemma_wrap_sum(kind, total(a), total(b));
        lemma_wrap_holds(kind, total(a));
        lemma_wrap_holds(kind, total(b));
        lemma_wrap_holds(kind, total(a) + total(b));
        if a.len() == 0 {
            assert(a + b =~= b);
        }
        if b.len() == 0 {
            assert(a + b =~= a);
        }
    }
    if stream_ints(batches, column).len() > 0 && kind.holds(total(stream_ints(batches, column))) {
        lemma_of_value(kind, total(stream_ints(batches, column)));
    }
}

/// The integers of a column are values of its kind.
pub proof fn lemma_cell_ints_hold(kind: ColumnKind, cells: Seq<Cell>)
    requires
        cells_hold(kind, cells),
    ensures
        all_hold(kind, cell_ints(cells)),
    decreases cells.len(),
{
    if cells.len() > 0 {
        let front = cells.drop_last();
        assert forall|i: int| 0 <= i < front.len() implies ((#[trigger] front[i]) matches Cell::Int(
            value,
        ) ==> kind.holds(value)) by {
            assert(front[i] == cells[i]);
        }
        lemma_cell_ints_hold(kind, front);
        assert(cells.last() == cells[cells.len() - 1]);
    }
}

/// The integers of a stream whose column is of one integer kind are values
/// of that kind.
pub proof fn lemma_stream_ints_hold(batches: Seq<BatchView>, column: usize, kind: ColumnKind)
    requires
        of_one_kind(batches, column, kind),
        all_hold_their_kind(batches, column),
    ensures
        all_hold(kind, stream_ints(batches, column)),
    decreases batches.len(),
{
    if batches.len() > 0 {
        let front = batches.drop_last();
        let last = batches.last();
        lemma_front_of_stream(batches, column, kind);
        lemma_stream_ints_hold(front, column, kind);
        assert(last == batches[batches.len() - 1]);
        let b = batch_ints(last, column);
        if b.len() > 0 {
            let cells = column_of(last.rows, column as int);
            assert(last.rows.len() > 0);
            lemma_cell_ints_hold(kind, cells);
        }
    }
}

/// The minimum over a stream: where the column is of one integer kind in
/// every batch that counts, the aggregate is the least of all the values
/// that the stream holds in the column, nulls and batches of other kinds
/// left out; the null marker where the stream holds no value there.
pub proof fn lemma_min_of_stream(batches: Seq<BatchView>, column: usize, kind: ColumnKind)
    requires
        kind.is_integer(),
        of_one_kind(batches, column, kind),
        all_hold_their_kind(batches, column),
    ensures
        min_run(batches, column) == Ok::<ScalarValue, OperatorError>(
            if stream_ints(batches, column).len() == 0 {
                ScalarValue::Null
            } else {
                ScalarValue::of(kind, least(stream_ints(batches, column)))
            },
        ),
        stream_ints(batches, column).len() > 0 ==> {
            &&& min_run(batches, column)->Ok_0.kind() == Some(kind)
            &&& min_run(batches, column)->Ok_0.value() == least(stream_ints(batches, column))
            &&& stream_ints(batches, column).contains(least(stream_ints(batches, column)))
            &&& forall|i: int|
                0 <= i < stream_ints(batches, column).len() ==> least(
                    stream_ints(batches, column),
                ) <= stream_ints(batches, column)[i]
        },
    decreases batches.len(),
{
    let all = stream_ints(batches, column);
    lemma_stream_ints_hold(batches, column, kind);
    if batches.len() > 0 {
        let front = batches.drop_last();
        let last = batches.last();
        let a = stream_ints(front, column);
        let b = batch_ints(last, column);
        lemma_front_of_stream(batches, column, kind);
        assert forall|i: int| 0 <= i < a.len() implies kind.holds(#[trigger] a[i]) by {
            assert(all[i] == a[i]);
        }
        assert forall|i: int| 0 <= i < b.len() implies kind.holds(#[trigger] b[i]) by {
            assert(all[a.len() + i] == b[i]);
        }
        lemma_min_of_stream(front, column, kind);
        assert(last == batches[batches.len() - 1]);
        if a.len() > 0 {
            lemma_least_is_minimum(a);
            lemma_of_value(kind, least(a));
        }
        if b.len() > 0 {
            lemma_least_is_minimum(b);
            lemma_of_value(kind, least(b));
        }
        if a.len() > 0 && b.len() > 0 {
            lemma_least_concat(a, b);
        }
        if a.len() == 0 {
            assert(a + b =~= b);
        }
        if b.len() == 0 {
            assert(a + b =~= a);
        }
    }
    if all.len() > 0 {
        lemma_least_is_minimum(all);
        lemma_of_value(kind, least(all));
    }
}

impl Column {
    /// The kind of the column.
    pub fn kind(&self) -> (kind: ColumnKind)
        ensures
            kind == column_kind(*self),
    {
        self.data_kind()
    }

    /// The number of cells of the column that hold a value.
    pub fn value_count(&self) -> (n: usize)
        ensures
            n == count_values(column_cells(*self)),
    {
        let cells = self.cell_count();
        let nulls = self.null_count();
        cells - nulls
    }
}

/// The column of `batch` that an aggregate over `column` reads: none where
/// the batch has no rows, an error where it has rows but no such column.
pub fn target_column(batch: &RowBatch, column: usize) -> (r: Result<Option<Column>, OperatorError>)
    ensures
        match target(batch@, column) {
            Err(error) => r == Err::<Option<Column>, OperatorError>(error),
            Ok(None) => r == Ok::<Option<Column>, OperatorError>(None),
            Ok(Some((kind, cells))) => r matches Ok(Some(found)) && column_kind(found) == kind
                && column_cells(found) == cells,
        },
        r matches Ok(Some(found)) ==> cells_hold(column_kind(found), column_cells(found)),
{
    if batch.num_rows() == 0 {
        Ok(None)
    } else if column >= batch.num_columns() {
        Err(OperatorError::ColumnOutOfRange)
    } else {
        Ok(Some(batch.column(column)))
    }
}

/// What `batch` brings to the average of `column`: the sum of the values of
/// the column and their number, for the caller to divide. Nothing where the
/// batch has no rows, the column holds no value, or its kind is no integer
/// kind.
pub fn average_parts(batch: &RowBatch, column: usize) -> (r: Result<
    Option<(ScalarValue, usize)>,
    OperatorError,
>)
    ensures
        match average_part(batch@, column) {
            Err(error) => r == Err::<Option<(ScalarValue, usize)>, OperatorError>(error),
            Ok(None) => r == Ok::<Option<(ScalarValue, usize)>, OperatorError>(None),
            Ok(Some((sum, values))) => r matches Ok(Some(parts)) && parts.0 == sum && parts.1
                == values,
        },
{
    let found = match target_column(batch, column) {
        Err(error) => {
            return Err(error);
        },
        Ok(None) => {
            return Ok(None);
        },
        Ok(Some(found)) => found,
    };
    let values = found.value_count();
    if values == 0 {
        return Ok(None);
    }
    match sum_array(&found) {
        Some(sum) => Ok(Some((sum, values))),
        None => Ok(None),
    }
}

/// The scalar for what a kernel found in a column of 8-bit signed integers.
fn scalar_int8(value: Option<i8>) -> (r: ScalarValue)
    ensures
        r == scalar_or_null(
            ColumnKind::Int8,
            match value {
                Some(v) => Some(v as int),
                None => None,
            },
        ),
{
    match value {
        Some(v) => ScalarValue::Int8(v),
        None => ScalarValue::Null,
    }
}

/// The scalar for what a kernel found in a column of 16-bit signed integers.
fn scalar_int16(value: Option<i16>) -> (r: ScalarValue)
    ensures
        r == scalar_or_null(
            ColumnKind::Int16,
            match value {
                Some(v) => Some(v as int),
                None => None,
            },
        ),
{
    match value {
        Some(v) => ScalarValue::Int16(v),
        None => ScalarValue::Null,
    }
}

/// The scalar for what a kernel found in a column of 32-bit signed integers.
fn scalar_int32(value: Option<i32>) -> (r: ScalarValue)
    ensures
        r == scalar_or_null(
            ColumnKind::Int32,
            match value {
                Some(v) => Some(v as int),
                None => None,
            },
        ),
{
    match value {
        Some(v) => ScalarValue::Int32(v),
        None => ScalarValue::Null,
    }
}

/// The scalar for what a kernel found in a column of 64-bit signed integers.
fn scalar_int64(value: Option<i64>) -> (r: ScalarValue)
    ensures
        r == scalar_or_null(
            ColumnKind::Int64,
            match value {
                Some(v) => Some(v as int),
                None => None,
            },
        ),
{
    match value {
        Some(v) => ScalarValue::Int64(v),
        None => ScalarValue::Null,
    }
}

/// The scalar for what a kernel found in a column of 8-bit unsigned integers.
fn scalar_uint8(value: Option<u8>) -> (r: ScalarValue)
    ensures
        r == scalar_or_null(
            ColumnKind::UInt8,
            match value {
                Some(v) => Some(v as int),
                None => None,
            },
        ),
{
    match value {
        Some(v) => ScalarValue::UInt8(v),
        None => ScalarValue::Null,
    }
}

/// The scalar for what a kernel found in a column of 16-bit unsigned integers.
fn scalar_uint16(value: Option<u16>) -> (r: ScalarValue)
    ensures
        r == scalar_or_null(
            ColumnKind::UInt16,
            match value {
                Some(v) => Some(v as int),
                None => None,
            },
        ),
{
    match value {
        Some(v) => ScalarValue::UInt16(v),
        None => ScalarValue::Null,
    }
}

/// The scalar for what a kernel found in a column of 32-bit unsigned integers.
fn scalar_uint32(value: Option<u32>) -> (r: ScalarValue)
    ensures
        r == scalar_or_null(
            ColumnKind::UInt32,
            match value {
                Some(v) => Some(v as int),
                None => None,
            },
        ),
{
    match value {
        Some(v) => ScalarValue::UInt32(v),
        None => ScalarValue::Null,
    }
}

/// The scalar for what a kernel found in a column of 64-bit unsigned integers.
fn scalar_uint64(value: Option<u64>) -> (r: ScalarValue)
    ensures
        r == scalar_or_null(
            ColumnKind::UInt64,
            match value {
                Some(v) => Some(v as int),
                None => None,
            },
        ),
{
    match value {
        Some(v) => ScalarValue::UInt64(v),
        None => ScalarValue::Null,
    }
}

/// The sum of a column: none where its kind is no integer kind, the null
/// marker where it holds no value, else the wrapping sum of its values.
pub fn sum_array(column: &Column) -> (r: Option<ScalarValue>)
    ensures
        r == sum_of(column_kind(*column), column_cells(*column)),
{
    match column.data_kind() {
        ColumnKind::Int8 => Some(scalar_int8(column.sum_int8())),
        ColumnKind::Int16 => Some(scalar_int16(column.sum_int16())),
        ColumnKind::Int32 => Some(scalar_int32(column.sum_int32())),
        ColumnKind::Int64 => Some(scalar_int64(column.sum_int64())),
        ColumnKind::UInt8 => Some(scalar_uint8(column.sum_uint8())),
        ColumnKind::UInt16 => Some(scalar_uint16(column.sum_uint16())),
        ColumnKind::UInt32 => Some(scalar_uint32(column.sum_uint32())),
        ColumnKind::UInt64 => Some(scalar_uint64(column.sum_uint64())),
        _ => None,
    }
}

/// The minimum of a column: none where its kind is no integer kind, the
/// null marker where it holds no value, else the least of its values.
pub fn min_array(column: &Column) -> (r: Option<ScalarValue>)
    ensures
        r == min_of(column_kind(*column), column_cells(*column)),
{
    match column.data_kind() {
        ColumnKind::Int8 => Some(scalar_int8(column.min_int8())),
        ColumnKind::Int16 => Some(scalar_int16(column.min_int16())),
        ColumnKind::Int32 => Some(scalar_int32(column.min_int32())),
        ColumnKind::Int64 => Some(scalar_int64(column.min_int64())),
        ColumnKind::UInt8 => Some(scalar_uint8(column.min_uint8())),
        ColumnKind::UInt16 => Some(scalar_uint16(column.min_uint16())),
        ColumnKind::UInt32 => Some(scalar_uint32(column.min_uint32())),
        ColumnKind::UInt64 => Some(scalar_uint64(column.min_uint64())),
        _ => None,
    }
}

/// The sum of one column over a stream, fed batch by batch.
#[derive(Clone, Copy, Debug, PartialEq, Eq)]
pub struct ColumnSum {
    column: usize,
    sum: ScalarValue,
}

impl ColumnSum {
    /// The index of the column that is summed.
    pub closed spec fn index(&self) -> usize {
        self.column
    }

    /// The sum so far; the null marker while nothing has counted.
    pub closed spec fn so_far(&self) -> ScalarValue {
        self.sum
    }

    /// A sum over the column at `column`, with nothing summed yet.
    pub fn new(column: usize) -> (sum: ColumnSum)
        ensures
            sum.index() == column,
            sum.so_far() == ScalarValue::Null,
    {
        ColumnSum { column, sum: ScalarValue::Null }
    }

    /// The index of the column that is summed.
    pub fn column(&self) -> (column: usize)
        ensures
            column == self.index(),
    {
        self.column
    }

    /// The sum so far; the null marker while nothing has counted.
    pub fn value(&self) -> (value: ScalarValue)
        ensures
            value == self.so_far(),
    {
        self.sum
    }

    /// Takes one more batch into the sum. On an error the sum stays as it
    /// was.
    pub fn update(&mut self, batch: &RowBatch) -> (r: Result<(), OperatorError>)
        ensures
            final(self).index() == old(self).index(),
            match sum_step(old(self).so_far(), batch@, old(self).index()) {
                Ok(sum) => r is Ok && final(self).so_far() == sum,
                Err(error) => {
                    &&& r == Err::<(), OperatorError>(error)
                    &&& final(self).so_far() == old(self).so_far()
                },
            },
    {
        let column = match target_column(batch, self.column) {
            Err(error) => {
                return Err(error);
            },
            Ok(None) => {
                return Ok(());
            },
            Ok(Some(column)) => column,
        };
        let part = match sum_array(&column) {
            Some(part) => part,
            None => {
                return Ok(());
            },
        };
        if part.is_null() {
            return Ok(());
        }
        if self.sum.is_null() {
            self.sum = part;
            Ok(())
        } else {
            match self.sum.add_wrapping(&part) {
                Some(both) => {
                    self.sum = both;
                    Ok(())
                },
                None => Err(OperatorError::KindMismatch),
            }
        }
    }
}

/// The minimum of one column over a stream, fed batch by batch.
#[derive(Clone, Copy, Debug, PartialEq, Eq)]
pub struct ColumnMin {
    column: usize,
    min: ScalarValue,
}

impl ColumnMin {
    /// The index of the column whose minimum is sought.
    pub closed spec fn index(&self) -> usize {
        self.column
    }

    /// The minimum so far; the null marker while nothing has counted.
    pub closed spec fn so_far(&self) -> ScalarValue {
        self.min
    }

    /// A minimum over the column at `column`, with nothing seen yet.
    pub fn new(column: usize) -> (min: ColumnMin)
        ensures
            min.index() == column,
            min.so_far() == ScalarValue::Null,
    {
        ColumnMin { column, min: ScalarValue::Null }
    }

    /// The index of the column whose minimum is sought.
    pub fn column(&self) -> (column: usize)
        ensures
            column == self.index(),
    {
        self.column
    }

    /// The minimum so far; the null marker while nothing has counted.
    pub fn value(&self) -> (value: ScalarValue)
        ensures
            value == self.so_far(),
    {
        self.min
    }

    /// Takes one more batch into the minimum. On an error the minimum stays
    /// as it was.
    pub fn update(&mut self, batch: &RowBatch) -> (r: Result<(), OperatorError>)
        ensures
            final(self).index() == old(self).index(),
            match min_step(old(self).so_far(), batch@, old(self).index()) {
                Ok(min) => r is Ok && final(self).so_far() == min,
                Err(error) => {
                    &&& r == Err::<(), OperatorError>(error)
                    &&& final(self).so_far() == old(self).so_far()
                },
            },
    {
        let column = match target_column(batch, self.column) {
            Err(error) => {
                return Err(error);
            },
            Ok(None) => {
                return Ok(());
            },
            Ok(Some(column)) => column,
        };
        let part = match min_array(&column) {
            Some(part) => part,
            None => {
                return Ok(());
            },
        };
        if part.is_null() {
            return Ok(());
        }
        if self.min.is_null() || part.less_than(&self.min) {
            self.min = part;
        }
        Ok(())
    }
}

} // verus!
