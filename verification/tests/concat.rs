use arrow_array::Array;
use arrow_array::types::Int32Type;
use arrow_array::ArrayRef;
use arrow_array::BooleanArray;
use arrow_array::Date32Array;
use arrow_array::Decimal128Array;
use arrow_array::Float64Array;
use arrow_array::Int32Array;
use arrow_array::Int64Array;
use arrow_array::LargeStringArray;
use arrow_array::ListArray;
use arrow_array::RecordBatch;
use arrow_array::RecordBatchOptions;
use arrow_array::StringArray;
use arrow_schema::ArrowError;
use arrow_schema::DataType;
use arrow_schema::Field;
use arrow_schema::Schema;
use rowflow::batch::MAX_JOINED_BATCHES;
use rowflow::batch::MAX_JOINED_ROWS;
use rowflow::concat::joined;
use rowflow::BatchConcatenator;
use rowflow::OperatorError;
use rowflow::RowBatch;
use std::sync::Arc;

fn numbers(values: Vec<i32>) -> RowBatch {
    let schema = Arc::new(Schema::new(vec![Field::new("n", DataType::Int32, false)]));
    let column: ArrayRef = Arc::new(Int32Array::from(values));
    RowBatch { inner: RecordBatch::try_new(schema, vec![column]).unwrap() }
}

fn nullable_numbers(values: Vec<Option<i32>>) -> RowBatch {
    let schema = Arc::new(Schema::new(vec![Field::new("n", DataType::Int32, true)]));
    let column: ArrayRef = Arc::new(Int32Array::from(values));
    RowBatch { inner: RecordBatch::try_new(schema, vec![column]).unwrap() }
}

fn wide_numbers(values: Vec<i64>) -> RowBatch {
    let schema = Arc::new(Schema::new(vec![Field::new("n", DataType::Int64, false)]));
    let column: ArrayRef = Arc::new(Int64Array::from(values));
    RowBatch { inner: RecordBatch::try_new(schema, vec![column]).unwrap() }
}

fn measures(numbers: Vec<i32>, weights: Vec<Option<f64>>) -> RowBatch {
    let schema = Arc::new(Schema::new(vec![
        Field::new("n", DataType::Int32, false),
        Field::new("w", DataType::Float64, true),
    ]));
    let first: ArrayRef = Arc::new(Int32Array::from(numbers));
    let second: ArrayRef = Arc::new(Float64Array::from(weights));
    RowBatch { inner: RecordBatch::try_new(schema, vec![first, second]).unwrap() }
}

fn pairs(numbers: Vec<i32>, names: Vec<&str>) -> RowBatch {
    let schema = Arc::new(Schema::new(vec![
        Field::new("n", DataType::Int32, false),
        Field::new("s", DataType::Utf8, false),
    ]));
    let first: ArrayRef = Arc::new(Int32Array::from(numbers));
    let second: ArrayRef = Arc::new(StringArray::from(names));
    RowBatch { inner: RecordBatch::try_new(schema, vec![first, second]).unwrap() }
}

fn one_column(column: ArrayRef) -> RowBatch {
    RowBatch { inner: RecordBatch::try_from_iter(vec![("v", column)]).unwrap() }
}

fn texts(values: Vec<Option<&str>>) -> RowBatch {
    one_column(Arc::new(StringArray::from(values)))
}

fn lists(values: Vec<Option<Vec<Option<i32>>>>) -> RowBatch {
    one_column(Arc::new(ListArray::from_iter_primitive::<Int32Type, _, _>(values)))
}

fn mixed(flags: Vec<bool>, days: Vec<i32>, sums: Vec<i128>, names: Vec<&str>) -> RowBatch {
    let flags: ArrayRef = Arc::new(BooleanArray::from(flags));
    let days: ArrayRef = Arc::new(Date32Array::from(days));
    let sums: ArrayRef = Arc::new(Decimal128Array::from(sums));
    let names: ArrayRef = Arc::new(StringArray::from(names));
    let columns = vec![("flag", flags), ("day", days), ("sum", sums), ("name", names)];
    RowBatch { inner: RecordBatch::try_from_iter(columns).unwrap() }
}

fn no_columns(rows: usize) -> RowBatch {
    let schema = Arc::new(Schema::empty());
    let options = RecordBatchOptions::new().with_row_count(Some(rows));
    RowBatch { inner: RecordBatch::try_new_with_options(schema, vec![], &options).unwrap() }
}

fn values_of(batch: &RowBatch) -> Vec<i32> {
    batch.inner.column(0).as_any().downcast_ref::<Int32Array>().unwrap().values().to_vec()
}

fn finish(concatenator: BatchConcatenator) -> Result<Option<RowBatch>, OperatorError> {
    assert!(concatenator.can_finish());
    match concatenator.try_finish() {
        Ok(end) => end,
        Err(_) => panic!("batches of plain numbers are joined"),
    }
}

#[test]
fn test_concat_batches() {
    let batch = numbers(vec![1, 2, 3, 4, 5, 6, 7, 8, 9, 10]);
    let mut concatenator = BatchConcatenator::new();
    assert!(concatenator.push(RowBatch { inner: batch.inner.clone() }));
    assert!(concatenator.push(RowBatch { inner: batch.inner.clone() }));
    let outputs: Vec<RowBatch> = finish(concatenator).unwrap().into_iter().collect();
    assert_eq!(outputs.len(), 1);
    for output in outputs {
        assert_eq!(output.inner.num_rows(), 20);
        assert_eq!(output.inner.num_columns(), 1);
    }
}

#[test]
fn concat_keeps_the_rows_in_order() {
    let mut concatenator = BatchConcatenator::new();
    concatenator.push(numbers(vec![3, 1]));
    concatenator.push(numbers(vec![]));
    concatenator.push(numbers(vec![4, 1, 5]));
    assert_eq!(concatenator.len(), 2);
    let output = finish(concatenator).unwrap().unwrap();
    assert_eq!(values_of(&output), vec![3, 1, 4, 1, 5]);
    assert_eq!(output.inner.schema().field(0).name(), "n");
}

#[test]
fn concat_of_no_batch_gives_nothing() {
    let concatenator = BatchConcatenator::new();
    assert_eq!(concatenator.len(), 0);
    assert!(finish(concatenator).unwrap().is_none());
}

#[test]
fn concat_keeps_one_leading_empty_batch() {
    let mut concatenator = BatchConcatenator::new();
    assert!(concatenator.push(numbers(vec![])));
    assert!(!concatenator.push(numbers(vec![])));
    assert_eq!(concatenator.len(), 1);
    let output = finish(concatenator).unwrap().unwrap();
    assert_eq!(output.inner.num_rows(), 0);
    assert_eq!(output.inner.num_columns(), 1);
}

#[test]
fn concat_drops_empty_batches_behind_the_first() {
    let mut concatenator = BatchConcatenator::new();
    assert!(concatenator.push(numbers(vec![])));
    assert!(concatenator.push(numbers(vec![7])));
    assert!(!concatenator.push(numbers(vec![])));
    assert!(concatenator.push(numbers(vec![8, 9])));
    assert_eq!(concatenator.len(), 3);
    let output = finish(concatenator).unwrap().unwrap();
    assert_eq!(values_of(&output), vec![7, 8, 9]);
}

#[test]
fn concat_refuses_another_number_of_columns() {
    let mut concatenator = BatchConcatenator::new();
    concatenator.push(measures(vec![1], vec![Some(0.5)]));
    concatenator.push(numbers(vec![2]));
    assert_eq!(finish(concatenator).err(), Some(OperatorError::SchemaMismatch));
}

#[test]
fn concat_refuses_more_columns_than_the_first() {
    let mut concatenator = BatchConcatenator::new();
    concatenator.push(numbers(vec![2]));
    concatenator.push(measures(vec![1], vec![None]));
    assert_eq!(finish(concatenator).err(), Some(OperatorError::SchemaMismatch));
}

#[test]
fn concat_refuses_another_data_type() {
    let mut concatenator = BatchConcatenator::new();
    concatenator.push(numbers(vec![1, 2]));
    concatenator.push(wide_numbers(vec![3]));
    let error = finish(concatenator).err().unwrap();
    assert_eq!(error, OperatorError::SchemaMismatch);
    assert!(!error.is_configuration());
    assert_eq!(error.message(), "batches do not fit together under one schema");
}

#[test]
fn concat_refuses_nulls_that_the_first_schema_does_not_admit() {
    let mut concatenator = BatchConcatenator::new();
    concatenator.push(numbers(vec![1, 2]));
    concatenator.push(nullable_numbers(vec![None, Some(3)]));
    assert_eq!(finish(concatenator).err(), Some(OperatorError::SchemaMismatch));
}

#[test]
fn concat_joins_every_column() {
    let mut concatenator = BatchConcatenator::new();
    concatenator.push(measures(vec![1, 2], vec![Some(0.5), None]));
    concatenator.push(measures(vec![3], vec![Some(1.5)]));
    let output = finish(concatenator).unwrap().unwrap();
    assert_eq!(values_of(&output), vec![1, 2, 3]);
    let weights = output.inner.column(1).as_any().downcast_ref::<Float64Array>().unwrap();
    assert_eq!(weights.len(), 3);
    assert_eq!(weights.value(0), 0.5);
    assert!(weights.is_null(1));
    assert_eq!(weights.value(2), 1.5);
}

#[test]
fn concat_joins_batches_without_columns() {
    let mut concatenator = BatchConcatenator::new();
    concatenator.push(no_columns(3));
    concatenator.push(no_columns(4));
    let output = finish(concatenator).unwrap().unwrap();
    assert_eq!(output.inner.num_rows(), 7);
    assert_eq!(output.inner.num_columns(), 0);
}

#[test]
fn concat_joins_text() {
    let mut concatenator = BatchConcatenator::new();
    concatenator.push(pairs(vec![1, 2], vec!["a", "b"]));
    concatenator.push(pairs(vec![3], vec!["c"]));
    let output = finish(concatenator).unwrap().unwrap();
    assert_eq!(values_of(&output), vec![1, 2, 3]);
    let names = output.inner.column(1).as_any().downcast_ref::<StringArray>().unwrap();
    assert_eq!(names.len(), 3);
    assert_eq!(names.value(0), "a");
    assert_eq!(names.value(1), "b");
    assert_eq!(names.value(2), "c");
    assert_eq!(output.inner.schema().field(1).name(), "s");
}

#[test]
fn concat_joins_text_with_nulls() {
    let mut concatenator = BatchConcatenator::new();
    concatenator.push(texts(vec![Some("x"), None]));
    concatenator.push(texts(vec![None, Some("yz")]));
    let output = finish(concatenator).unwrap().unwrap();
    let names = output.inner.column(0).as_any().downcast_ref::<StringArray>().unwrap();
    assert_eq!(names.len(), 4);
    assert_eq!(names.null_count(), 2);
    assert_eq!(names.value(0), "x");
    assert_eq!(names.value(3), "yz");
}

#[test]
fn concat_joins_booleans_dates_and_decimals() {
    let mut concatenator = BatchConcatenator::new();
    concatenator.push(mixed(vec![true, false], vec![10, 11], vec![100, 200], vec!["a", "b"]));
    concatenator.push(mixed(vec![true], vec![12], vec![300], vec!["c"]));
    let output = finish(concatenator).unwrap().unwrap();
    assert_eq!(output.inner.num_rows(), 3);
    assert_eq!(output.inner.num_columns(), 4);
    let flags = output.inner.column(0).as_any().downcast_ref::<BooleanArray>().unwrap();
    assert_eq!((flags.value(0), flags.value(1), flags.value(2)), (true, false, true));
    let days = output.inner.column(1).as_any().downcast_ref::<Date32Array>().unwrap();
    assert_eq!(days.values().to_vec(), vec![10, 11, 12]);
    let sums = output.inner.column(2).as_any().downcast_ref::<Decimal128Array>().unwrap();
    assert_eq!(sums.values().to_vec(), vec![100, 200, 300]);
}

#[test]
fn concat_refuses_text_where_numbers_were() {
    let mut concatenator = BatchConcatenator::new();
    concatenator.push(one_column(Arc::new(Int32Array::from(vec![1, 2]))));
    concatenator.push(texts(vec![Some("three")]));
    assert_eq!(finish(concatenator).err(), Some(OperatorError::SchemaMismatch));
}

#[test]
fn concat_refuses_numbers_where_text_was() {
    let mut concatenator = BatchConcatenator::new();
    concatenator.push(texts(vec![Some("one")]));
    concatenator.push(one_column(Arc::new(Int32Array::from(vec![2]))));
    assert_eq!(finish(concatenator).err(), Some(OperatorError::SchemaMismatch));
}

#[test]
fn concat_refuses_lists_where_numbers_were() {
    let mut concatenator = BatchConcatenator::new();
    concatenator.push(one_column(Arc::new(Int32Array::from(vec![1]))));
    concatenator.push(lists(vec![Some(vec![Some(2)])]));
    assert_eq!(finish(concatenator).err(), Some(OperatorError::SchemaMismatch));
}

#[test]
fn concat_hands_back_columns_of_other_layouts() {
    let mut concatenator = BatchConcatenator::new();
    concatenator.push(lists(vec![Some(vec![Some(1), None]), None]));
    concatenator.push(lists(vec![Some(vec![])]));
    assert!(!concatenator.can_finish());
    let same = concatenator.try_finish().err().unwrap();
    assert_eq!(same.len(), 2);
    let batches = same.into_batches();
    assert_eq!(batches.len(), 2);
    assert_eq!(batches[0].inner.num_rows(), 2);
    assert_eq!(batches[1].inner.num_rows(), 1);
    let mut large = BatchConcatenator::new();
    large.push(one_column(Arc::new(LargeStringArray::from(vec!["a"]))));
    assert!(!large.can_finish());
}

#[test]
fn concat_hands_back_more_rows_than_are_joined() {
    assert_eq!(MAX_JOINED_ROWS, usize::MAX / 64);
    assert_eq!(MAX_JOINED_BATCHES, usize::MAX / 0x8000_0000 / 2);
    let mut concatenator = BatchConcatenator::new();
    concatenator.push(no_columns(MAX_JOINED_ROWS));
    concatenator.push(no_columns(1));
    assert!(!concatenator.can_finish());
    assert_eq!(concatenator.try_finish().err().unwrap().len(), 2);
    let mut fitting = BatchConcatenator::new();
    fitting.push(no_columns(MAX_JOINED_ROWS - 1));
    fitting.push(no_columns(1));
    assert_eq!(finish(fitting).unwrap().unwrap().inner.num_rows(), MAX_JOINED_ROWS);
}

#[test]
fn joined_maps_each_outcome() {
    let batch = numbers(vec![1, 2]);
    let out = joined(Ok(batch)).unwrap().unwrap();
    assert_eq!(values_of(&out), vec![1, 2]);
    let failed = joined(Err(ArrowError::ComputeError(String::from("no"))));
    assert_eq!(failed.err(), Some(OperatorError::SchemaMismatch));
}

#[test]
fn concat_finishes_what_it_can_finish() {
    let mut concatenator = BatchConcatenator::new();
    concatenator.push(measures(vec![1], vec![Some(2.5)]));
    concatenator.push(measures(vec![2, 3], vec![None, None]));
    assert!(concatenator.can_finish());
    let output = concatenator.finish().unwrap().unwrap();
    assert_eq!(values_of(&output), vec![1, 2, 3]);
    assert_eq!(output.inner.schema().field(1).name(), "w");
}
