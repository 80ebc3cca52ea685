use arrow_array::ArrayRef;
use arrow_array::Float64Array;
use arrow_array::Int32Array;
use arrow_array::RecordBatch;
use arrow_array::StringArray;
use arrow_schema::DataType;
use arrow_schema::Field;
use arrow_schema::Schema;
use rowflow::RowBatch;
use rowflow::RowCounter;
use std::sync::Arc;

fn sample() -> RowBatch {
    let schema = Arc::new(Schema::new(vec![
        Field::new("a", DataType::Int32, false),
        Field::new("b", DataType::Float64, true),
        Field::new("c", DataType::Utf8, false),
    ]));
    let a: ArrayRef = Arc::new(Int32Array::from(vec![1, 2, 3]));
    let b: ArrayRef = Arc::new(Float64Array::from(vec![Some(4.0), None, Some(5.0)]));
    let c: ArrayRef = Arc::new(StringArray::from(vec!["alpha", "beta", "gamma"]));
    RowBatch { inner: RecordBatch::try_new(schema, vec![a, b, c]).unwrap() }
}

fn empty() -> RowBatch {
    RowBatch { inner: RecordBatch::new_empty(sample().inner.schema()) }
}

#[test]
fn test_count_rows() {
    let batch = sample();
    let mut counter = RowCounter::new();
    let mut counts = Vec::new();
    counts.push(counter.count(&batch));
    counts.push(counter.count(&batch));
    assert_eq!(counts.len(), 2);
    for count in counts {
        assert_eq!(count, 3);
    }
    assert_eq!(counter.total(), 6);
}

#[test]
fn count_of_nothing_is_zero() {
    let counter = RowCounter::new();
    assert_eq!(counter.total(), 0);
}

#[test]
fn count_takes_empty_batches_too() {
    let mut counter = RowCounter::new();
    let counts = vec![counter.count(&empty()), counter.count(&sample()), counter.count(&empty())];
    assert_eq!(counts, vec![0, 3, 0]);
    assert_eq!(counter.total(), 3);
}

#[test]
fn count_knows_its_room() {
    let mut counter = RowCounter::new();
    assert!(counter.has_room(usize::MAX));
    counter.count(&sample());
    assert!(counter.has_room(usize::MAX - 3));
    assert!(!counter.has_room(usize::MAX - 2));
}
