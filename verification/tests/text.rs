use gen_sql_statement::text::{debug_str_list, str_eq, to_lowercase, usize_to_decimal};

#[test]
fn decimal_numbers() {
    assert_eq!(usize_to_decimal(0), "0");
    assert_eq!(usize_to_decimal(9), "9");
    assert_eq!(usize_to_decimal(10), "10");
    assert_eq!(usize_to_decimal(12345), "12345");
    assert_eq!(usize_to_decimal(usize::MAX), usize::MAX.to_string());
}

#[test]
fn lowercase_and_equality() {
    assert_eq!(to_lowercase("TestStruct"), "teststruct");
    assert_eq!(to_lowercase("ÄB"), "äb");
    assert!(str_eq("id", "id"));
    assert!(!str_eq("id", "Id"));
}

#[test]
fn debug_rendering_of_names() {
    assert_eq!(debug_str_list(&vec!["a", "b"]), "[\"a\", \"b\"]");
    assert_eq!(debug_str_list(&vec![]), "[]");
}
