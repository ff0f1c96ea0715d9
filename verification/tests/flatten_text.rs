use dfembed::flatten::{extract_value_from_array, flatten_row, ColumnData, Field, RecordBatch, Schema};
use dfembed::text::{bool_to_text, i32_to_text, i64_to_text, u64_to_text};

#[test]
fn unsigned_decimal_rendering() {
    assert_eq!(u64_to_text(0), "0");
    assert_eq!(u64_to_text(7), "7");
    assert_eq!(u64_to_text(10), "10");
    assert_eq!(u64_to_text(1234567890), "1234567890");
    assert_eq!(u64_to_text(u64::MAX), "18446744073709551615");
}

#[test]
fn signed_decimal_rendering() {
    assert_eq!(i64_to_text(0), "0");
    assert_eq!(i64_to_text(-1), "-1");
    assert_eq!(i64_to_text(-45), "-45");
    assert_eq!(i64_to_text(i64::MAX), "9223372036854775807");
    assert_eq!(i64_to_text(i64::MIN), "-9223372036854775808");
    assert_eq!(i32_to_text(i32::MIN), "-2147483648");
    assert_eq!(i32_to_text(i32::MAX), "2147483647");
}

#[test]
fn boolean_rendering() {
    assert_eq!(bool_to_text(true), "true");
    assert_eq!(bool_to_text(false), "false");
}

#[test]
fn extract_values_by_column_type() {
    let utf8 = ColumnData::Utf8(vec![String::from("hi")]);
    assert_eq!(extract_value_from_array(&utf8, 0), "hi");
    let large = ColumnData::LargeUtf8(vec![String::from("a long utf-8 value")]);
    assert_eq!(extract_value_from_array(&large, 0), "a long utf-8 value");
    let i32s = ColumnData::Int32(vec![5, -6]);
    assert_eq!(extract_value_from_array(&i32s, 1), "-6");
    let i64s = ColumnData::Int64(vec![42]);
    assert_eq!(extract_value_from_array(&i64s, 0), "42");
    let f64s = ColumnData::Float64(vec![3.25f64.to_string()]);
    assert_eq!(extract_value_from_array(&f64s, 0), "3.25");
    let bools = ColumnData::Boolean(vec![false, true]);
    assert_eq!(extract_value_from_array(&bools, 1), "true");
    let odd = ColumnData::Unsupported(String::from("Duration(ns)"), 2);
    assert_eq!(extract_value_from_array(&odd, 0), "[unhandled type: Duration(ns)]");
}

#[test]
fn row_flattening_joins_fields_in_schema_order() {
    let schema = Schema {
        fields: vec![
            Field { name: String::from("name"), data_type: dfembed::flatten::DataType::Utf8 },
            Field { name: String::from("count"), data_type: dfembed::flatten::DataType::Int32 },
            Field { name: String::from("ratio"), data_type: dfembed::flatten::DataType::Float64 },
            Field { name: String::from("done"), data_type: dfembed::flatten::DataType::Boolean },
        ],
    };
    let batch = RecordBatch {
        columns: vec![
            ColumnData::Utf8(vec![String::from("widget")]),
            ColumnData::Int32(vec![-3]),
            ColumnData::Float64(vec![0.5f64.to_string()]),
            ColumnData::Boolean(vec![true]),
        ],
        num_rows: 1,
    };
    let doc = flatten_row(&schema, &batch, 0);
    assert_eq!(doc, "name is widget; count is -3; ratio is 0.5; done is true");
}

#[test]
fn single_column_row_has_no_separator() {
    let schema = Schema {
        fields: vec![Field { name: String::from("k"), data_type: dfembed::flatten::DataType::Int64 }],
    };
    let batch = RecordBatch { columns: vec![ColumnData::Int64(vec![9, 10])], num_rows: 2 };
    assert_eq!(flatten_row(&schema, &batch, 0), "k is 9");
    assert_eq!(flatten_row(&schema, &batch, 1), "k is 10");
}

#[test]
fn transform_batches_preserves_row_order() {
    let schema = Schema {
        fields: vec![Field { name: String::from("n"), data_type: dfembed::flatten::DataType::Int64 }],
    };
    let b1 = RecordBatch { columns: vec![ColumnData::Int64(vec![1, 2])], num_rows: 2 };
    let b2 = RecordBatch { columns: vec![ColumnData::Int64(vec![3])], num_rows: 1 };
    let docs = dfembed::flatten::transform_batches(&vec![b1, b2], &schema);
    assert_eq!(docs, vec!["n is 1", "n is 2", "n is 3"]);
}
