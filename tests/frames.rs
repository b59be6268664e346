use rembed::frame::{Column, DataFrame, FrameError};

fn col(name: &str, values: Vec<i32>) -> Column {
    Column { name: name.to_string(), values }
}

#[test]
fn equal_columns_give_their_row_count() {
    let first: Vec<i32> = (0..100).collect();
    let second: Vec<i32> = (100..200).collect();
    let df = DataFrame::data_frame(vec![col("first", first), col("second", second)]).unwrap();
    assert_eq!(df.nrows(), 100);
    assert_eq!(df.ncols(), 2);
    assert_eq!(df.columns()[1].name, "second");
    assert_eq!(df.columns()[1].values[0], 100);
}

#[test]
fn unequal_columns_are_refused() {
    let first: Vec<i32> = (0..100).collect();
    let second: Vec<i32> = (10..20).collect();
    let r = DataFrame::data_frame(vec![col("first", first), col("second", second)]);
    assert!(matches!(
        r,
        Err(FrameError::LengthMismatch { column: 1, expected: 100, found: 10 })
    ));
}

#[test]
fn first_mismatch_is_named() {
    let r = DataFrame::data_frame(vec![
        col("a", vec![1, 2]),
        col("b", vec![3, 4]),
        col("c", vec![5]),
        col("d", vec![]),
    ]);
    assert!(matches!(r, Err(FrameError::LengthMismatch { column: 2, expected: 2, found: 1 })));
}

#[test]
fn scalar_columns_make_one_row() {
    let df = DataFrame::data_frame(vec![col("x", vec![1]), col("y", vec![2])]).unwrap();
    assert_eq!(df.nrows(), 1);
}

#[test]
fn no_columns_no_rows() {
    let df = DataFrame::data_frame(vec![]).unwrap();
    assert_eq!(df.nrows(), 0);
    assert_eq!(df.ncols(), 0);
}
