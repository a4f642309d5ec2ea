use database::i64_to_dec;
use database::render_cell;
use database::u64_to_dec;
use database::CellValue;

#[test]
fn u64_zero() {
    assert_eq!(u64_to_dec(0), "0");
}

#[test]
fn u64_single_digit() {
    assert_eq!(u64_to_dec(7), "7");
}

#[test]
fn u64_round_number() {
    assert_eq!(u64_to_dec(1000), "1000");
}

#[test]
fn u64_largest() {
    assert_eq!(u64_to_dec(u64::MAX), "18446744073709551615");
}

#[test]
fn i64_negative() {
    assert_eq!(i64_to_dec(-42), "-42");
}

#[test]
fn i64_zero() {
    assert_eq!(i64_to_dec(0), "0");
}

#[test]
fn i64_smallest() {
    assert_eq!(i64_to_dec(i64::MIN), "-9223372036854775808");
}

#[test]
fn i64_largest() {
    assert_eq!(i64_to_dec(i64::MAX), "9223372036854775807");
}

#[test]
fn render_null_cell() {
    assert_eq!(render_cell(&CellValue::Null), "NULL");
}

#[test]
fn render_integer_cell() {
    assert_eq!(render_cell(&CellValue::Integer(-9001)), "-9001");
}

#[test]
fn render_real_cell() {
    let cell = CellValue::Real(String::from("3.25"));
    assert_eq!(render_cell(&cell), "3.25");
}

#[test]
fn render_text_cell() {
    let cell = CellValue::Text(String::from("hello world"));
    assert_eq!(render_cell(&cell), "hello world");
}

#[test]
fn render_blob_cell() {
    let cell = CellValue::Blob(vec![0, 255, 18]);
    assert_eq!(render_cell(&cell), "BLOB");
}

#[test]
fn render_empty_blob_cell() {
    let cell = CellValue::Blob(Vec::new());
    assert_eq!(render_cell(&cell), "BLOB");
}
