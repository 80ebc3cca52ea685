use arrow_array::ArrayRef;
use arrow_array::Float64Array;
use arrow_array::Int16Array;
use arrow_array::Int32Array;
use arrow_array::Int64Array;
use arrow_array::Int8Array;
use arrow_array::RecordBatch;
use arrow_array::StringArray;
use arrow_array::UInt16Array;
use arrow_array::UInt32Array;
use arrow_array::UInt64Array;
use arrow_array::UInt8Array;
use arrow_schema::DataType;
use arrow_schema::Field;
use arrow_schema::Schema;
use datafusion_common::ScalarValue as Outside;
use rowflow::aggregate::average_parts;
use rowflow::aggregate::target_column;
use rowflow::min_array;
use rowflow::sum_array;
use rowflow::Column;
use rowflow::ColumnKind;
use rowflow::ColumnMin;
use rowflow::ColumnSum;
use rowflow::OperatorError;
use rowflow::RowBatch;
use rowflow::ScalarValue;
use std::sync::Arc;

fn sample_data() -> RowBatch {
    let schema = Arc::new(Schema::new(vec![
        Field::new("a", DataType::Int32, false),
        Field::new("b", DataType::Float64, true),
        Field::new("c", DataType::Utf8, false),
    ]));
    let a: ArrayRef = Arc::new(Int32Array::from(vec![1, 2, 3, 4, 5]));
    let b: ArrayRef = Arc::new(Float64Array::from(vec![Some(4.0), None, Some(5.0), None, None]));
    let c: ArrayRef = Arc::new(StringArray::from(vec!["alpha", "beta", "gamma", "", ""]));
    RowBatch { inner: RecordBatch::try_new(schema, vec![a, b, c]).unwrap() }
}

fn one_column(column: ArrayRef) -> RowBatch {
    RowBatch { inner: RecordBatch::try_from_iter(vec![("v", column)]).unwrap() }
}

fn int32s(values: Vec<Option<i32>>) -> RowBatch {
    one_column(Arc::new(Int32Array::from(values)))
}

fn column(values: ArrayRef) -> Column {
    Column { inner: values }
}

fn outside(value: ScalarValue) -> Outside {
    match value {
        ScalarValue::Null => Outside::Null,
        ScalarValue::Int8(v) => Outside::from(v),
        ScalarValue::Int16(v) => Outside::from(v),
        ScalarValue::Int32(v) => Outside::from(v),
        ScalarValue::Int64(v) => Outside::from(v),
        ScalarValue::UInt8(v) => Outside::from(v),
        ScalarValue::UInt16(v) => Outside::from(v),
        ScalarValue::UInt32(v) => Outside::from(v),
        ScalarValue::UInt64(v) => Outside::from(v),
    }
}

#[test]
fn test_sum_column_i32() {
    let mut sum = ColumnSum::new(0);
    sum.update(&sample_data()).unwrap();
    sum.update(&sample_data()).unwrap();
    let outputs = vec![outside(sum.value())];
    assert_eq!(outputs.len(), 1);
    assert_eq!(outputs[0], Outside::from(30i32));
}

#[test]
fn test_min_column_i32() {
    let mut min = ColumnMin::new(0);
    min.update(&sample_data()).unwrap();
    min.update(&sample_data()).unwrap();
    let outputs = vec![outside(min.value())];
    assert_eq!(outputs.len(), 1);
    assert_eq!(outputs[0], Outside::from(1i32));
}

#[test]
fn sum_of_no_batch_is_null() {
    let sum = ColumnSum::new(3);
    assert_eq!(sum.column(), 3);
    assert_eq!(sum.value(), ScalarValue::Null);
    assert!(sum.value().is_null());
}

#[test]
fn sum_adds_known_values_exactly() {
    let mut sum = ColumnSum::new(0);
    sum.update(&int32s(vec![Some(7), None, Some(-10)])).unwrap();
    sum.update(&int32s(vec![Some(1000)])).unwrap();
    sum.update(&int32s(vec![None, Some(3)])).unwrap();
    assert_eq!(sum.value(), ScalarValue::Int32(1000));
}

#[test]
fn sum_over_nulls_only_is_null() {
    let mut sum = ColumnSum::new(0);
    sum.update(&int32s(vec![None, None])).unwrap();
    sum.update(&int32s(vec![None])).unwrap();
    assert_eq!(sum.value(), ScalarValue::Null);
}

#[test]
fn sum_passes_over_a_batch_of_nulls() {
    let mut sum = ColumnSum::new(0);
    sum.update(&int32s(vec![Some(5)])).unwrap();
    sum.update(&int32s(vec![None, None])).unwrap();
    sum.update(&int32s(vec![Some(6)])).unwrap();
    assert_eq!(sum.value(), ScalarValue::Int32(11));
}

#[test]
fn sum_over_text_is_null() {
    let mut sum = ColumnSum::new(2);
    sum.update(&sample_data()).unwrap();
    sum.update(&sample_data()).unwrap();
    assert_eq!(sum.value(), ScalarValue::Null);
}

#[test]
fn sum_passes_over_batches_of_other_kinds() {
    let mut sum = ColumnSum::new(0);
    sum.update(&one_column(Arc::new(StringArray::from(vec!["x", "y"])))).unwrap();
    sum.update(&int32s(vec![Some(2), Some(3)])).unwrap();
    sum.update(&one_column(Arc::new(StringArray::from(vec!["z"])))).unwrap();
    assert_eq!(sum.value(), ScalarValue::Int32(5));
}

#[test]
fn sum_passes_over_empty_batches() {
    let mut sum = ColumnSum::new(5);
    let empty = RowBatch { inner: RecordBatch::new_empty(sample_data().inner.schema()) };
    assert_eq!(sum.update(&empty), Ok(()));
    assert_eq!(sum.value(), ScalarValue::Null);
}

#[test]
fn sum_refuses_a_column_out_of_range() {
    let mut sum = ColumnSum::new(3);
    assert_eq!(sum.update(&sample_data()), Err(OperatorError::ColumnOutOfRange));
    assert_eq!(sum.value(), ScalarValue::Null);
}

#[test]
fn sum_refuses_two_kinds() {
    let mut sum = ColumnSum::new(0);
    sum.update(&int32s(vec![Some(1)])).unwrap();
    let wide = one_column(Arc::new(Int64Array::from(vec![2i64])));
    let error = sum.update(&wide).err().unwrap();
    assert_eq!(error, OperatorError::KindMismatch);
    assert_eq!(error.message(), "values of different kinds cannot be combined");
    assert_eq!(sum.value(), ScalarValue::Int32(1));
}

#[test]
fn sum_wraps_within_a_batch_and_between_batches() {
    let mut sum = ColumnSum::new(0);
    sum.update(&one_column(Arc::new(Int8Array::from(vec![100i8, 100])))).unwrap();
    assert_eq!(sum.value(), ScalarValue::Int8(-56));
    sum.update(&one_column(Arc::new(Int8Array::from(vec![-100i8])))).unwrap();
    assert_eq!(sum.value(), ScalarValue::Int8(100));
    let mut unsigned = ColumnSum::new(0);
    unsigned.update(&one_column(Arc::new(UInt8Array::from(vec![200u8])))).unwrap();
    unsigned.update(&one_column(Arc::new(UInt8Array::from(vec![100u8])))).unwrap();
    assert_eq!(unsigned.value(), ScalarValue::UInt8(44));
}

#[test]
fn min_ignores_nulls_and_other_kinds() {
    let mut min = ColumnMin::new(0);
    min.update(&int32s(vec![None, Some(8), Some(4)])).unwrap();
    min.update(&one_column(Arc::new(StringArray::from(vec!["a"])))).unwrap();
    min.update(&int32s(vec![None])).unwrap();
    min.update(&int32s(vec![Some(-3), None, Some(9)])).unwrap();
    min.update(&int32s(vec![Some(0)])).unwrap();
    assert_eq!(min.column(), 0);
    assert_eq!(min.value(), ScalarValue::Int32(-3));
}

#[test]
fn min_of_nothing_is_null() {
    let mut min = ColumnMin::new(1);
    assert_eq!(min.value(), ScalarValue::Null);
    min.update(&one_column(Arc::new(StringArray::from(vec!["a"])))).unwrap_err();
    let mut text = ColumnMin::new(0);
    text.update(&one_column(Arc::new(StringArray::from(vec!["a"])))).unwrap();
    text.update(&int32s(vec![None])).unwrap();
    assert_eq!(text.value(), ScalarValue::Null);
}

#[test]
fn min_refuses_a_column_out_of_range() {
    let mut min = ColumnMin::new(1);
    assert_eq!(min.update(&int32s(vec![Some(1)])), Err(OperatorError::ColumnOutOfRange));
}

#[test]
fn min_keeps_its_value_against_another_kind() {
    let mut min = ColumnMin::new(0);
    min.update(&int32s(vec![Some(5)])).unwrap();
    min.update(&one_column(Arc::new(Int64Array::from(vec![1i64])))).unwrap();
    assert_eq!(min.value(), ScalarValue::Int32(5));
}

#[test]
fn sum_array_of_each_kind() {
    assert_eq!(sum_array(&column(Arc::new(Int8Array::from(vec![1i8, -3])))), Some(ScalarValue::Int8(-2)));
    assert_eq!(sum_array(&column(Arc::new(Int16Array::from(vec![300i16, 5])))), Some(ScalarValue::Int16(305)));
    assert_eq!(sum_array(&column(Arc::new(Int32Array::from(vec![70000, 1])))), Some(ScalarValue::Int32(70001)));
    assert_eq!(
        sum_array(&column(Arc::new(Int64Array::from(vec![5_000_000_000i64, 2])))),
        Some(ScalarValue::Int64(5_000_000_002))
    );
    assert_eq!(sum_array(&column(Arc::new(UInt8Array::from(vec![200u8, 55])))), Some(ScalarValue::UInt8(255)));
    assert_eq!(sum_array(&column(Arc::new(UInt16Array::from(vec![60000u16, 5])))), Some(ScalarValue::UInt16(60005)));
    assert_eq!(
        sum_array(&column(Arc::new(UInt32Array::from(vec![4_000_000_000u32, 7])))),
        Some(ScalarValue::UInt32(4_000_000_007))
    );
    assert_eq!(
        sum_array(&column(Arc::new(UInt64Array::from(vec![u64::MAX - 1, 1])))),
        Some(ScalarValue::UInt64(u64::MAX))
    );
}

#[test]
fn sum_array_wraps() {
    assert_eq!(sum_array(&column(Arc::new(Int16Array::from(vec![i16::MAX, 1])))), Some(ScalarValue::Int16(i16::MIN)));
    assert_eq!(sum_array(&column(Arc::new(Int32Array::from(vec![i32::MIN, -1])))), Some(ScalarValue::Int32(i32::MAX)));
    assert_eq!(sum_array(&column(Arc::new(Int64Array::from(vec![i64::MAX, 2])))), Some(ScalarValue::Int64(i64::MIN + 1)));
    assert_eq!(sum_array(&column(Arc::new(UInt16Array::from(vec![u16::MAX, 2])))), Some(ScalarValue::UInt16(1)));
    assert_eq!(sum_array(&column(Arc::new(UInt32Array::from(vec![u32::MAX, 1])))), Some(ScalarValue::UInt32(0)));
    assert_eq!(sum_array(&column(Arc::new(UInt64Array::from(vec![u64::MAX, 3])))), Some(ScalarValue::UInt64(2)));
}

#[test]
fn sum_array_of_no_value_is_null() {
    assert_eq!(sum_array(&column(Arc::new(Int32Array::from(Vec::<i32>::new())))), Some(ScalarValue::Null));
    assert_eq!(sum_array(&column(Arc::new(UInt8Array::from(vec![None, None])))), Some(ScalarValue::Null));
}

#[test]
fn sum_array_of_other_kinds_is_nothing() {
    assert_eq!(sum_array(&column(Arc::new(StringArray::from(vec!["1", "2"])))), None);
    assert_eq!(sum_array(&column(Arc::new(Float64Array::from(vec![1.5, 2.5])))), None);
}

#[test]
fn min_array_of_each_kind() {
    assert_eq!(min_array(&column(Arc::new(Int8Array::from(vec![1i8, -3, 2])))), Some(ScalarValue::Int8(-3)));
    assert_eq!(min_array(&column(Arc::new(Int16Array::from(vec![300i16, 5])))), Some(ScalarValue::Int16(5)));
    assert_eq!(min_array(&column(Arc::new(Int32Array::from(vec![8, 2, 4])))), Some(ScalarValue::Int32(2)));
    assert_eq!(min_array(&column(Arc::new(Int64Array::from(vec![i64::MIN, 2])))), Some(ScalarValue::Int64(i64::MIN)));
    assert_eq!(min_array(&column(Arc::new(UInt8Array::from(vec![200u8, 55])))), Some(ScalarValue::UInt8(55)));
    assert_eq!(min_array(&column(Arc::new(UInt16Array::from(vec![60000u16, 5])))), Some(ScalarValue::UInt16(5)));
    assert_eq!(min_array(&column(Arc::new(UInt32Array::from(vec![9u32, 7, 8])))), Some(ScalarValue::UInt32(7)));
    assert_eq!(min_array(&column(Arc::new(UInt64Array::from(vec![u64::MAX, 3])))), Some(ScalarValue::UInt64(3)));
}

#[test]
fn min_array_ignores_nulls() {
    let values = Int32Array::from(vec![None, Some(6), None, Some(-6), Some(0)]);
    assert_eq!(min_array(&column(Arc::new(values))), Some(ScalarValue::Int32(-6)));
    assert_eq!(min_array(&column(Arc::new(Int64Array::from(vec![None, None])))), Some(ScalarValue::Null));
    assert_eq!(min_array(&column(Arc::new(StringArray::from(vec!["a"])))), None);
}

#[test]
fn column_knows_its_kind_and_values() {
    let numbers = column(Arc::new(Int32Array::from(vec![Some(1), None, Some(3), None])));
    assert_eq!(numbers.kind(), ColumnKind::Int32);
    assert!(numbers.kind().integer());
    assert!(!numbers.kind().float());
    assert_eq!(numbers.value_count(), 2);
    let halves = column(Arc::new(Float64Array::from(vec![Some(0.5), None])));
    assert_eq!(halves.kind(), ColumnKind::Float64);
    assert!(halves.kind().float());
    assert!(!halves.kind().integer());
    assert_eq!(halves.value_count(), 1);
    let text = column(Arc::new(StringArray::from(vec!["a", "b"])));
    assert_eq!(text.kind(), ColumnKind::Other);
    assert!(!text.kind().float());
    assert_eq!(text.value_count(), 2);
    assert_eq!(column(Arc::new(UInt16Array::from(vec![1u16]))).kind(), ColumnKind::UInt16);
}

#[test]
fn target_column_finds_the_column() {
    let batch = sample_data();
    let found = target_column(&batch, 0).unwrap().unwrap();
    assert_eq!(found.kind(), ColumnKind::Int32);
    assert_eq!(found.value_count(), 5);
    assert_eq!(target_column(&batch, 1).unwrap().unwrap().value_count(), 2);
    assert_eq!(target_column(&batch, 3).err(), Some(OperatorError::ColumnOutOfRange));
    let empty = RowBatch { inner: RecordBatch::new_empty(batch.inner.schema()) };
    assert!(target_column(&empty, 9).unwrap().is_none());
}

#[test]
fn test_avg_column_i32() {
    let mut tally = 0.0;
    let mut count = 0;
    for batch in [sample_data(), sample_data()] {
        let Some((sum, values)) = average_parts(&batch, 0).unwrap() else {
            continue;
        };
        let ScalarValue::Int32(sum) = sum else {
            panic!("the sum of 32-bit integers is a 32-bit integer");
        };
        tally += sum as f64 / values as f64;
        count += 1;
    }
    let outputs = vec![tally / count as f64];
    assert_eq!(outputs.len(), 1);
    assert_eq!(outputs[0], 3.0);
}

#[test]
fn average_parts_are_sum_and_number_of_values() {
    let batch = int32s(vec![Some(4), None, Some(6), None]);
    assert_eq!(average_parts(&batch, 0), Ok(Some((ScalarValue::Int32(10), 2))));
    assert_eq!(average_parts(&int32s(vec![None, None]), 0), Ok(None));
    assert_eq!(average_parts(&int32s(vec![]), 0), Ok(None));
    assert_eq!(average_parts(&sample_data(), 2), Ok(None));
    assert_eq!(average_parts(&sample_data(), 1), Ok(None));
    assert_eq!(average_parts(&sample_data(), 3), Err(OperatorError::ColumnOutOfRange));
}
