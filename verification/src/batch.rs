//! Row batches and columns: the immutable columnar fragments that the
//! operators read, and the model of them that the contracts speak of.
//!
//! A batch is an Arrow `RecordBatch` and a column is an Arrow array. Verus
//! cannot look inside either, so each is held in a struct that is opaque to
//! the verifier, and what it holds is given a name: the rows and the schema of
//! a batch, the cells and the kind of a column. The functions in this module
//! that call into Arrow are trusted: their contracts say over those names
//! what Arrow's source shows, and nothing here proves them.

use arrow_arith::aggregate;
use arrow_array::cast::AsArray;
use arrow_array::types;
use arrow_array::Array;
use arrow_schema::ArrowError;
use arrow_schema::DataType;
use arrow_schema::Schema;
use std::sync::Arc;
use vstd::prelude::*;

verus! {

/// Arrow's error type, carried through as it comes.
#[verifier::external_type_specification]
#[verifier::external_body]
pub struct ExArrowError(ArrowError);

/// Arrow's schema type, carried through as it comes.
#[verifier::external_type_specification]
#[verifier::external_body]
pub struct ExSchema(Schema);

/// The data type of a column, as far as the operators tell data types apart.
#[derive(Clone, Copy, Debug, PartialEq, Eq, Structural)]
pub enum ColumnKind {
    Int8,
    Int16,
    Int32,
    Int64,
    UInt8,
    UInt16,
    UInt32,
    UInt64,
    Float16,
    Float32,
    Float64,
    /// Every data type that is not a primitive number.
    Other,
}

impl ColumnKind {
    /// Whether values of this kind are integers.
    pub open spec fn is_integer(self) -> bool {
        self.is_signed() || self.is_unsigned()
    }

    /// Whether values of this kind are signed integers.
    pub open spec fn is_signed(self) -> bool {
        self == ColumnKind::Int8 || self == ColumnKind::Int16 || self == ColumnKind::Int32 || self
            == ColumnKind::Int64
    }

    /// Whether values of this kind are unsigned integers.
    pub open spec fn is_unsigned(self) -> bool {
        self == ColumnKind::UInt8 || self == ColumnKind::UInt16 || self == ColumnKind::UInt32
            || self == ColumnKind::UInt64
    }

    /// Whether values of this kind are floating-point numbers.
    pub open spec fn is_float(self) -> bool {
        self == ColumnKind::Float16 || self == ColumnKind::Float32 || self == ColumnKind::Float64
    }

    /// The number of distinct values of an integer kind: two to the power of
    /// its width in bits. Zero for the other kinds.
    pub open spec fn modulus(self) -> int {
        match self {
            ColumnKind::Int8 | ColumnKind::UInt8 => 0x100,
            ColumnKind::Int16 | ColumnKind::UInt16 => 0x1_0000,
            ColumnKind::Int32 | ColumnKind::UInt32 => 0x1_0000_0000,
            ColumnKind::Int64 | ColumnKind::UInt64 => 0x1_0000_0000_0000_0000,
            _ => 0,
        }
    }

    /// The least value of an integer kind. Zero for the other kinds.
    pub open spec fn min_value(self) -> int {
        if self.is_signed() {
            -(self.modulus() / 2)
        } else {
            0
        }
    }

    /// The greatest value of an integer kind.
    pub open spec fn max_value(self) -> int {
        self.min_value() + self.modulus() - 1
    }

    /// Whether `value` is a value of this integer kind.
    pub open spec fn holds(self, value: int) -> bool {
        self.is_integer() && self.min_value() <= value <= self.max_value()
    }

    /// `value` brought into the range of this integer kind by adding or
    /// taking away a multiple of the kind's modulus, as two's-complement
    /// arithmetic does on overflow.
    pub open spec fn wrap(self, value: int) -> int
        recommends
            self.is_integer(),
    {
        self.min_value() + (value - self.min_value()) % self.modulus()
    }

    /// Whether values of this kind are integers.
    pub fn integer(self) -> (r: bool)
        ensures
            r == self.is_integer(),
    {
        match self {
            ColumnKind::Int8
            | ColumnKind::Int16
            | ColumnKind::Int32
            | ColumnKind::Int64
            | ColumnKind::UInt8
            | ColumnKind::UInt16
            | ColumnKind::UInt32
            | ColumnKind::UInt64 => true,
            _ => false,
        }
    }

    /// Whether values of this kind are floating-point numbers.
    pub fn float(self) -> (r: bool)
        ensures
            r == self.is_float(),
    {
        match self {
            ColumnKind::Float16 | ColumnKind::Float32 | ColumnKind::Float64 => true,
            _ => false,
        }
    }
}

/// How the values of a column are laid out, as far as joining columns end
/// to end depends on it.
#[derive(Clone, Copy, Debug, PartialEq, Eq, Structural)]
pub enum ColumnLayout {
    /// Values of one fixed width each: numbers, decimals, dates, times,
    /// timestamps, durations and intervals.
    Fixed,
    /// Booleans, one bit each.
    Bits,
    /// Text or bytes of any length, found by 32-bit offsets.
    Text,
    /// Every other layout: text with 64-bit offsets or in views, bytes of
    /// fixed size, dictionaries, run-end encoded columns, lists, maps,
    /// structs, unions and columns of nothing but nulls.
    Other,
}

/// What one cell of a column holds.
pub enum Cell {
    /// No value: a cell that the validity bitmap of its array marks as null.
    Null,
    /// A value of an integer column.
    Int(int),
    /// A value of any other column, by the bytes that stand for it.
    Other(Seq<u8>),
}

/// An immutable batch of rows: an Arrow `RecordBatch`.
///
/// Verus cannot take the type of the field, so the struct is opaque to it.
/// The field is public because any `RecordBatch` is a batch: there is
/// nothing that a caller could break by making one or taking one apart.
#[derive(Debug)]
#[verifier::external_body]
pub struct RowBatch {
    pub inner: arrow_array::RecordBatch,
}

/// One column of a batch: an Arrow array, shared.
///
/// Opaque to Verus as `RowBatch` is, and public in the same way.
#[derive(Debug)]
#[verifier::external_body]
pub struct Column {
    pub inner: arrow_array::ArrayRef,
}

/// The rows of a batch in order, each the sequence of its cells.
pub uninterp spec fn batch_rows(batch: RowBatch) -> Seq<Seq<Cell>>;

/// The schema of a batch.
pub uninterp spec fn batch_schema(batch: RowBatch) -> Schema;

/// What a schema says of one column.
pub struct Field {
    /// The name of the column.
    pub name: Seq<char>,
    /// The kind of its values.
    pub kind: ColumnKind,
    /// The layout of its values.
    pub layout: ColumnLayout,
}

/// The fields of a schema, one for each column, in order.
pub uninterp spec fn schema_fields(schema: Schema) -> Seq<Field>;

/// The kind of each column that a schema describes, in order.
pub open spec fn schema_kinds(schema: Schema) -> Seq<ColumnKind> {
    Seq::new(schema_fields(schema).len(), |i: int| schema_fields(schema)[i].kind)
}

/// The cells of a column in order.
pub uninterp spec fn column_cells(column: Column) -> Seq<Cell>;

/// The kind of a column.
pub uninterp spec fn column_kind(column: Column) -> ColumnKind;

/// The layout of a column.
pub uninterp spec fn column_layout(column: Column) -> ColumnLayout;

/// The kind of each column of a batch, in order.
pub open spec fn batch_kinds(batch: RowBatch) -> Seq<ColumnKind> {
    schema_kinds(batch_schema(batch))
}

/// The name and kind of each column of a batch, in order.
pub open spec fn batch_fields(batch: RowBatch) -> Seq<Field> {
    schema_fields(batch_schema(batch))
}

/// What the operators read of a batch: its rows and the kinds of its columns.
pub struct BatchView {
    /// The rows in order, each the sequence of its cells.
    pub rows: Seq<Seq<Cell>>,
    /// The kind of each column, in order.
    pub kinds: Seq<ColumnKind>,
}

impl View for RowBatch {
    type V = BatchView;

    open spec fn view(&self) -> BatchView {
        BatchView { rows: batch_rows(*self), kinds: batch_kinds(*self) }
    }
}

/// The cells that stand at place `index` of each row.
pub open spec fn column_of(rows: Seq<Seq<Cell>>, index: int) -> Seq<Cell> {
    Seq::new(rows.len(), |r: int| rows[r][index])
}

/// One row narrowed to the cells at `indices`, in that order.
pub open spec fn project_row(row: Seq<Cell>, indices: Seq<usize>) -> Seq<Cell> {
    Seq::new(indices.len(), |i: int| row[indices[i] as int])
}

/// Each row narrowed to the cells at `indices`, in that order.
pub open spec fn project_rows(rows: Seq<Seq<Cell>>, indices: Seq<usize>) -> Seq<Seq<Cell>> {
    Seq::new(rows.len(), |r: int| project_row(rows[r], indices))
}

/// The fields at `indices`, in that order.
pub open spec fn project_fields(fields: Seq<Field>, indices: Seq<usize>) -> Seq<Field> {
    Seq::new(indices.len(), |i: int| fields[indices[i] as int])
}

/// Whether every index lies below `width`.
pub open spec fn indices_within(indices: Seq<usize>, width: int) -> bool {
    forall|i: int| 0 <= i < indices.len() ==> indices[i] < width
}

/// The rows of each batch.
pub open spec fn rows_of(batches: Seq<RowBatch>) -> Seq<Seq<Seq<Cell>>> {
    Seq::new(batches.len(), |i: int| batch_rows(batches[i]))
}

/// Whether every batch has `schema`'s number of columns.
pub open spec fn widths_match(schema: Schema, batches: Seq<RowBatch>) -> bool {
    forall|i: int|
        0 <= i < batches.len() ==> (#[trigger] batch_fields(batches[i])).len() == schema_fields(
            schema,
        ).len()
}

/// Whether every batch has the schema `schema`.
pub open spec fn share_schema(schema: Schema, batches: Seq<RowBatch>) -> bool {
    forall|i: int| 0 <= i < batches.len() ==> #[trigger] batch_schema(batches[i]) == schema
}

/// Whether some column of some batch is of another kind or layout than
/// `schema` gives the column at its place.
pub open spec fn kinds_differ(schema: Schema, batches: Seq<RowBatch>) -> bool {
    exists|b: int, i: int|
        0 <= b < batches.len() && 0 <= i < schema_fields(schema).len() && i < batch_fields(
            batches[b],
        ).len() && {
            let field = #[trigger] batch_fields(batches[b])[i];
            field.kind != schema_fields(schema)[i].kind || field.layout != schema_fields(
                schema,
            )[i].layout
        }
}

/// Whether every column that `schema` describes is of a layout that is
/// joined here: of fixed width, of bits, or text.
pub open spec fn joinable_schema(schema: Schema) -> bool {
    forall|i: int|
        0 <= i < schema_fields(schema).len() ==> !((#[trigger] schema_fields(
            schema,
        )[i]).layout is Other)
}

/// Whether every column that `schema` describes holds values of fixed width
/// or bits, so that what is joined is bounded by the number of rows alone.
pub open spec fn fixed_schema(schema: Schema) -> bool {
    forall|i: int|
        0 <= i < schema_fields(schema).len() ==> {
            let layout = (#[trigger] schema_fields(schema)[i]).layout;
            layout is Fixed || layout is Bits
        }
}

/// The most rows that are joined into one batch: a sixty-fourth of the
/// largest `usize`, so that the values of a column of fixed width, of 32
/// bytes each at most, take fewer bytes than the largest `isize`.
pub const MAX_JOINED_ROWS: usize = usize::MAX / 64;

/// The most batches with text among their columns that are joined into one,
/// unless it is a single one: so few that the text of a column, of less
/// than 2 GiB in each batch, takes fewer bytes in all than the largest
/// `isize`.
pub const MAX_JOINED_BATCHES: usize = usize::MAX / 0x8000_0000 / 2;

/// Whether as many as `batches` batches are joined into one.
pub open spec fn joinable_count(batches: nat) -> bool {
    batches == 1 || batches <= MAX_JOINED_BATCHES
}

/// The number of rows of all `batches` together.
pub open spec fn total_rows(batches: Seq<RowBatch>) -> nat
    decreases batches.len(),
{
    if batches.len() == 0 {
        0
    } else {
        total_rows(batches.drop_last()) + batch_rows(batches.last()).len()
    }
}

/// Whether Arrow can concatenate `batches` under `schema`.
pub uninterp spec fn concatenable(schema: Schema, batches: Seq<RowBatch>) -> bool;

/// Whether the integers among `cells` are values of kind `kind`, as the
/// integers of a column of that kind are.
pub open spec fn cells_hold(kind: ColumnKind, cells: Seq<Cell>) -> bool {
    forall|i: int|
        0 <= i < cells.len() ==> ((#[trigger] cells[i]) matches Cell::Int(value) ==> kind.holds(
            value,
        ))
}

/// The integers among `cells` in order, nulls left out.
pub open spec fn cell_ints(cells: Seq<Cell>) -> Seq<int>
    decreases cells.len(),
{
    if cells.len() == 0 {
        Seq::empty()
    } else {
        match cells.last() {
            Cell::Int(value) => cell_ints(cells.drop_last()).push(value),
            _ => cell_ints(cells.drop_last()),
        }
    }
}

/// The number of cells that are not null.
pub open spec fn count_values(cells: Seq<Cell>) -> nat
    decreases cells.len(),
{
    if cells.len() == 0 {
        0
    } else if cells.last() is Null {
        count_values(cells.drop_last())
    } else {
        count_values(cells.drop_last()) + 1
    }
}

/// The sum of `values`.
pub open spec fn total(values: Seq<int>) -> int
    decreases values.len(),
{
    if values.len() == 0 {
        0
    } else {
        total(values.drop_last()) + values.last()
    }
}

/// The least of `values`; zero where there is none.
pub open spec fn least(values: Seq<int>) -> int
    decreases values.len(),
{
    if values.len() == 0 {
        0
    } else if values.len() == 1 {
        values.last()
    } else if values.last() < least(values.drop_last()) {
        values.last()
    } else {
        least(values.drop_last())
    }
}

/// What summing a column of integer kind `kind` gives: nothing where the
/// column has no value, else the total of its values wrapped to the kind.
pub open spec fn column_sum(kind: ColumnKind, cells: Seq<Cell>) -> Option<int> {
    if cell_ints(cells).len() == 0 {
        None
    } else {
        Some(kind.wrap(total(cell_ints(cells))))
    }
}

/// What the minimum of a column of integers is: nothing where the column has
/// no value, else the least of its values.
pub open spec fn column_min(cells: Seq<Cell>) -> Option<int> {
    if cell_ints(cells).len() == 0 {
        None
    } else {
        Some(least(cell_ints(cells)))
    }
}

impl RowBatch {
    /// `RecordBatch::num_rows`: the number of rows of the batch.
    #[verifier::external_body]
    pub(crate) fn num_rows(&self) -> (n: usize)
        ensures
            n == batch_rows(*self).len(),
    {
        self.inner.num_rows()
    }

    /// `RecordBatch::num_columns`: the number of columns of the batch, which
    /// is the number of fields of its schema.
    #[verifier::external_body]
    pub(crate) fn num_columns(&self) -> (n: usize)
        ensures
            n == schema_fields(batch_schema(*self)).len(),
    {
        self.inner.num_columns()
    }

    /// `RecordBatch::schema`: the schema of the batch, shared.
    #[verifier::external_body]
    pub(crate) fn schema(&self) -> (schema: Arc<Schema>)
        ensures
            *schema == batch_schema(*self),
    {
        self.inner.schema()
    }

    /// `RecordBatch::slice`: the `length` rows from row `offset` on, under the
    /// same schema; no rows where `length` is zero. Arrow panics where the
    /// range runs past the last row, so such a range is not admitted.
    #[verifier::external_body]
    pub(crate) fn slice(&self, offset: usize, length: usize) -> (batch: RowBatch)
        requires
            offset + length <= batch_rows(*self).len(),
        ensures
            batch_rows(batch) == batch_rows(*self).subrange(offset as int, offset + length),
            batch_schema(batch) == batch_schema(*self),
    {
        RowBatch { inner: self.inner.slice(offset, length) }
    }

    /// `RecordBatch::project`: the batch narrowed to the columns at `indices`,
    /// in that order, each under the field that it had. Arrow gives an error
    /// exactly where an index does not name a column of the batch.
    #[verifier::external_body]
    pub(crate) fn project(&self, indices: &Vec<usize>) -> (r: Result<RowBatch, ArrowError>)
        ensures
            r is Ok <==> indices_within(indices@, schema_fields(batch_schema(*self)).len() as int),
            r matches Ok(batch) ==> {
                &&& batch_rows(batch) == project_rows(batch_rows(*self), indices@)
                &&& schema_fields(batch_schema(batch)) == project_fields(
                    schema_fields(batch_schema(*self)),
                    indices@,
                )
            },
    {
        match self.inner.project(indices) {
            Ok(inner) => Ok(RowBatch { inner }),
            Err(error) => Err(error),
        }
    }

    /// `RecordBatch::column`: the column at `index`, shared. Arrow panics
    /// where `index` does not name a column, so such an index is not admitted.
    /// The column is of the data type that the schema gives it, and the
    /// values of a column of integers are of the width of its data type.
    #[verifier::external_body]
    pub(crate) fn column(&self, index: usize) -> (column: Column)
        requires
            index < schema_fields(batch_schema(*self)).len(),
        ensures
            column_cells(column) == column_of(batch_rows(*self), index as int),
            column_kind(column) == schema_fields(batch_schema(*self))[index as int].kind,
            column_layout(column) == schema_fields(batch_schema(*self))[index as int].layout,
            cells_hold(column_kind(column), column_cells(column)),
    {
        Column { inner: self.inner.column(index).clone() }
    }
}

/// `arrow_select::concat::concat_batches`: the rows of `batches` one after
/// another in a single batch under `schema`.
///
/// Arrow joins column `i` of the batches by the data type of those columns
/// and looks at `schema` only afterwards. What is admitted is what Arrow's
/// source shows to be free of panics:
/// - at least one batch, and `schema` the schema of the first (for no batch
///   Arrow builds empty arrays, which panics on some data types; with the
///   first batch under `schema`, a column of another data type in a later
///   batch is met by an error before anything is joined);
/// - batches as wide as `schema` (Arrow reads column `i` of every batch for
///   each field `i` and panics where there is none);
/// - columns of fixed width, of bits or of text with 32-bit offsets. For
///   lists, maps, list views and run-end encoded columns Arrow adds up
///   offsets and lengths in ways that panic or wrap once they outgrow their
///   index type, and so it does for the buffers of text in views; the text
///   of a batch with 64-bit offsets has no bound below `isize::MAX` bytes,
///   so that no number of batches keeps the sum within `usize`; structs,
///   dictionaries and unions hold columns of any of these; and the
///   remaining layouts are joined by code that is not known to be free of
///   panics;
/// - no more than `MAX_JOINED_ROWS` rows in all (Arrow adds the row counts
///   up unchecked and reserves room for as many values of up to 32 bytes,
///   which panics beyond `isize::MAX` bytes);
/// - where there is text among the columns, a single batch or no more than
///   `MAX_JOINED_BATCHES` (Arrow adds the bytes of the text of each batch
///   up unchecked and reserves as many).
///
/// As with any allocation, the joined batch has to fit in memory.
///
/// Whether Arrow then succeeds depends on the batches alone: the data types
/// of their columns, the nulls that `schema` admits and, for text, whether
/// all of it can be found by 32-bit offsets. That is only given a name, but
/// the source shows two things of it. A column of another kind or layout
/// than the first batch has at its place is of another data type, which is
/// an error. And batches that all have the schema `schema`, with no text
/// among their columns, are joined: the columns are of one data type each,
/// and a batch never holds a null that its own schema does not admit.
#[verifier::external_body]
pub(crate) fn join_batches(schema: &Arc<Schema>, batches: &Vec<RowBatch>) -> (r: Result<
    RowBatch,
    ArrowError,
>)
    requires
        batches@.len() > 0,
        batch_schema(batches@[0]) == **schema,
        widths_match(**schema, batches@),
        joinable_schema(**schema),
        total_rows(batches@) <= MAX_JOINED_ROWS,
        fixed_schema(**schema) || joinable_count(batches@.len()),
    ensures
        r is Ok <==> concatenable(**schema, batches@),
        share_schema(**schema, batches@) && fixed_schema(**schema) ==> r is Ok,
        kinds_differ(**schema, batches@) ==> r is Err,
        r matches Ok(batch) ==> {
            &&& batch_rows(batch) == rows_of(batches@).flatten()
            &&& batch_schema(batch) == **schema
        },
{
    match arrow_select::concat::concat_batches(schema, batches.iter().map(|b| &b.inner)) {
        Ok(inner) => Ok(RowBatch { inner }),
        Err(error) => Err(error),
    }
}

impl Column {
    /// `Array::data_type`: the data type of the column, as a kind.
    #[verifier::external_body]
    pub(crate) fn data_kind(&self) -> (kind: ColumnKind)
        ensures
            kind == column_kind(*self),
    {
        match self.inner.data_type() {
            DataType::Int8 => ColumnKind::Int8,
            DataType::Int16 => ColumnKind::Int16,
            DataType::Int32 => ColumnKind::Int32,
            DataType::Int64 => ColumnKind::Int64,
            DataType::UInt8 => ColumnKind::UInt8,
            DataType::UInt16 => ColumnKind::UInt16,
            DataType::UInt32 => ColumnKind::UInt32,
            DataType::UInt64 => ColumnKind::UInt64,
            DataType::Float16 => ColumnKind::Float16,
            DataType::Float32 => ColumnKind::Float32,
            DataType::Float64 => ColumnKind::Float64,
            _ => ColumnKind::Other,
        }
    }

    /// `Array::data_type`: the data type of the column, as a layout.
    #[verifier::external_body]
    pub(crate) fn data_layout(&self) -> (layout: ColumnLayout)
        ensures
            layout == column_layout(*self),
    {
        match self.inner.data_type() {
            DataType::Boolean => ColumnLayout::Bits,
            DataType::Utf8 | DataType::Binary => ColumnLayout::Text,
            DataType::Int8 | DataType::Int16 | DataType::Int32 | DataType::Int64
            | DataType::UInt8 | DataType::UInt16 | DataType::UInt32 | DataType::UInt64
            | DataType::Float16 | DataType::Float32 | DataType::Float64
            | DataType::Decimal32(..) | DataType::Decimal64(..)
            | DataType::Decimal128(..) | DataType::Decimal256(..)
            | DataType::Date32 | DataType::Date64 | DataType::Timestamp(..)
            | DataType::Time32(_) | DataType::Time64(_)
            | DataType::Duration(_) | DataType::Interval(_) => ColumnLayout::Fixed,
            _ => ColumnLayout::Other,
        }
    }

    /// `Array::len`: the number of cells of the column.
    #[verifier::external_body]
    pub(crate) fn cell_count(&self) -> (n: usize)
        ensures
            n == column_cells(*self).len(),
    {
        self.inner.len()
    }

    /// `Array::null_count`: the number of cells of the column that are null.
    #[verifier::external_body]
    pub(crate) fn null_count(&self) -> (n: usize)
        ensures
            n == column_cells(*self).len() - count_values(column_cells(*self)),
    {
        self.inner.null_count()
    }

    /// `arrow_arith::aggregate::sum` on an `Int8` array: nothing where the
    /// array has no value, else the wrapping sum of its values. Arrow panics
    /// on an array of another data type, so such a column is not admitted.
    #[verifier::external_body]
    pub(crate) fn sum_int8(&self) -> (r: Option<i8>)
        requires
            column_kind(*self) == ColumnKind::Int8,
        ensures
            column_sum(ColumnKind::Int8, column_cells(*self)) == match r {
                Some(v) => Some(v as int),
                None => None,
            },
    {
        aggregate::sum(self.inner.as_primitive::<types::Int8Type>())
    }

    /// `arrow_arith::aggregate::sum` on an `Int16` array: nothing where the
    /// array has no value, else the wrapping sum of its values. Arrow panics
    /// on an array of another data type, so such a column is not admitted.
    #[verifier::external_body]
    pub(crate) fn sum_int16(&self) -> (r: Option<i16>)
        requires
            column_kind(*self) == ColumnKind::Int16,
        ensures
            column_sum(ColumnKind::Int16, column_cells(*self)) == match r {
                Some(v) => Some(v as int),
                None => None,
            },
    {
        aggregate::sum(self.inner.as_primitive::<types::Int16Type>())
    }

    /// `arrow_arith::aggregate::sum` on an `Int32` array: nothing where the
    /// array has no value, else the wrapping sum of its values. Arrow panics
    /// on an array of another data type, so such a column is not admitted.
    #[verifier::external_body]
    pub(crate) fn sum_int32(&self) -> (r: Option<i32>)
        requires
            column_kind(*self) == ColumnKind::Int32,
        ensures
            column_sum(ColumnKind::Int32, column_cells(*self)) == match r {
                Some(v) => Some(v as int),
                None => None,
            },
    {
        aggregate::sum(self.inner.as_primitive::<types::Int32Type>())
    }

    /// `arrow_arith::aggregate::sum` on an `Int64` array: nothing where the
    /// array has no value, else the wrapping sum of its values. Arrow panics
    /// on an array of another data type, so such a column is not admitted.
    #[verifier::external_body]
    pub(crate) fn sum_int64(&self) -> (r: Option<i64>)
        requires
            column_kind(*self) == ColumnKind::Int64,
        ensures
            column_sum(ColumnKind::Int64, column_cells(*self)) == match r {
                Some(v) => Some(v as int),
                None => None,
            },
    {
        aggregate::sum(self.inner.as_primitive::<types::Int64Type>())
    }

    /// `arrow_arith::aggregate::sum` on an `UInt8` array: nothing where the
    /// array has no value, else the wrapping sum of its values. Arrow panics
    /// on an array of another data type, so such a column is not admitted.
    #[verifier::external_body]
    pub(crate) fn sum_uint8(&self) -> (r: Option<u8>)
        requires
            column_kind(*self) == ColumnKind::UInt8,
        ensures
            column_sum(ColumnKind::UInt8, column_cells(*self)) == match r {
                Some(v) => Some(v as int),
                None => None,
            },
    {
        aggregate::sum(self.inner.as_primitive::<types::UInt8Type>())
    }

    /// `arrow_arith::aggregate::sum` on an `UInt16` array: nothing where the
    /// array has no value, else the wrapping sum of its values. Arrow panics
    /// on an array of another data type, so such a column is not admitted.
    #[verifier::external_body]
    pub(crate) fn sum_uint16(&self) -> (r: Option<u16>)
        requires
            column_kind(*self) == ColumnKind::UInt16,
        ensures
            column_sum(ColumnKind::UInt16, column_cells(*self)) == match r {
                Some(v) => Some(v as int),
                None => None,
            },
    {
        aggregate::sum(self.inner.as_primitive::<types::UInt16Type>())
    }

    /// `arrow_arith::aggregate::sum` on an `UInt32` array: nothing where the
    /// array has no value, else the wrapping sum of its values. Arrow panics
    /// on an array of another data type, so such a column is not admitted.
    #[verifier::external_body]
    pub(crate) fn sum_uint32(&self) -> (r: Option<u32>)
        requires
            column_kind(*self) == ColumnKind::UInt32,
        ensures
            column_sum(ColumnKind::UInt32, column_cells(*self)) == match r {
                Some(v) => Some(v as int),
                None => None,
            },
    {
        aggregate::sum(self.inner.as_primitive::<types::UInt32Type>())
    }

    /// `arrow_arith::aggregate::sum` on an `UInt64` array: nothing where the
    /// array has no value, else the wrapping sum of its values. Arrow panics
    /// on an array of another data type, so such a column is not admitted.
    #[verifier::external_body]
    pub(crate) fn sum_uint64(&self) -> (r: Option<u64>)
        requires
            column_kind(*self) == ColumnKind::UInt64,
        ensures
            column_sum(ColumnKind::UInt64, column_cells(*self)) == match r {
                Some(v) => Some(v as int),
                None => None,
            },
    {
        aggregate::sum(self.inner.as_primitive::<types::UInt64Type>())
    }

    /// `arrow_arith::aggregate::min` on an `Int8` array: nothing where the
    /// array has no value, else the least of its values. Arrow panics on an
    /// array of another data type, so such a column is not admitted.
    #[verifier::external_body]
    pub(crate) fn min_int8(&self) -> (r: Option<i8>)
        requires
            column_kind(*self) == ColumnKind::Int8,
        ensures
            column_min(column_cells(*self)) == match r {
                Some(v) => Some(v as int),
                None => None,
            },
    {
        aggregate::min(self.inner.as_primitive::<types::Int8Type>())
    }

    /// `arrow_arith::aggregate::min` on an `Int16` array: nothing where the
    /// array has no value, else the least of its values. Arrow panics on an
    /// array of another data type, so such a column is not admitted.
    #[verifier::external_body]
    pub(crate) fn min_int16(&self) -> (r: Option<i16>)
        requires
            column_kind(*self) == ColumnKind::Int16,
        ensures
            column_min(column_cells(*self)) == match r {
                Some(v) => Some(v as int),
                None => None,
            },
    {
        aggregate::min(self.inner.as_primitive::<types::Int16Type>())
    }

    /// `arrow_arith::aggregate::min` on an `Int32` array: nothing where the
    /// array has no value, else the least of its values. Arrow panics on an
    /// array of another data type, so such a column is not admitted.
    #[verifier::external_body]
    pub(crate) fn min_int32(&self) -> (r: Option<i32>)
        requires
            column_kind(*self) == ColumnKind::Int32,
        ensures
            column_min(column_cells(*self)) == match r {
                Some(v) => Some(v as int),
                None => None,
            },
    {
        aggregate::min(self.inner.as_primitive::<types::Int32Type>())
    }

    /// `arrow_arith::aggregate::min` on an `Int64` array: nothing where the
    /// array has no value, else the least of its values. Arrow panics on an
    /// array of another data type, so such a column is not admitted.
    #[verifier::external_body]
    pub(crate) fn min_int64(&self) -> (r: Option<i64>)
        requires
            column_kind(*self) == ColumnKind::Int64,
        ensures
            column_min(column_cells(*self)) == match r {
                Some(v) => Some(v as int),
                None => None,
            },
    {
        aggregate::min(self.inner.as_primitive::<types::Int64Type>())
    }

    /// `arrow_arith::aggregate::min` on an `UInt8` array: nothing where the
    /// array has no value, else the least of its values. Arrow panics on an
    /// array of another data type, so such a column is not admitted.
    #[verifier::external_body]
    pub(crate) fn min_uint8(&self) -> (r: Option<u8>)
        requires
            column_kind(*self) == ColumnKind::UInt8,
        ensures
            column_min(column_cells(*self)) == match r {
                Some(v) => Some(v as int),
                None => None,
            },
    {
        aggregate::min(self.inner.as_primitive::<types::UInt8Type>())
    }

    /// `arrow_arith::aggregate::min` on an `UInt16` array: nothing where the
    /// array has no value, else the least of its values. Arrow panics on an
    /// array of another data type, so such a column is not admitted.
    #[verifier::external_body]
    pub(crate) fn min_uint16(&self) -> (r: Option<u16>)
        requires
            column_kind(*self) == ColumnKind::UInt16,
        ensures
            column_min(column_cells(*self)) == match r {
                Some(v) => Some(v as int),
                None => None,
            },
    {
        aggregate::min(self.inner.as_primitive::<types::UInt16Type>())
    }

    /// `arrow_arith::aggregate::min` on an `UInt32` array: nothing where the
    /// array has no value, else the least of its values. Arrow panics on an
    /// array of another data type, so such a column is not admitted.
    #[verifier::external_body]
    pub(crate) fn min_uint32(&self) -> (r: Option<u32>)
        requires
            column_kind(*self) == ColumnKind::UInt32,
        ensures
            column_min(column_cells(*self)) == match r {
                Some(v) => Some(v as int),
                None => None,
            },
    {
        aggregate::min(self.inner.as_primitive::<types::UInt32Type>())
    }

    /// `arrow_arith::aggregate::min` on an `UInt64` array: nothing where the
    /// array has no value, else the least of its values. Arrow panics on an
    /// array of another data type, so such a column is not admitted.
    #[verifier::external_body]
    pub(crate) fn min_uint64(&self) -> (r: Option<u64>)
        requires
            column_kind(*self) == ColumnKind::UInt64,
        ensures
            column_min(column_cells(*self)) == match r {
                Some(v) => Some(v as int),
                None => None,
            },
    {
        aggregate::min(self.inner.as_primitive::<types::UInt64Type>())
    }
}

} // verus!
