use tfg_backend::text::{i64_text, join_rows};

#[test]
fn decimal_of_zero_and_small_numbers() {
    assert_eq!(i64_text(0), "0");
    assert_eq!(i64_text(7), "7");
    assert_eq!(i64_text(42), "42");
    assert_eq!(i64_text(1000), "1000");
}

#[test]
fn decimal_of_negative_numbers() {
    assert_eq!(i64_text(-7), "-7");
    assert_eq!(i64_text(-120), "-120");
}

#[test]
fn decimal_matches_to_string_at_the_extremes() {
    for v in [i64::MIN, i64::MIN + 1, i32::MIN as i64, i32::MAX as i64, i64::MAX, -1, 9, 10, 99, 100] {
        assert_eq!(i64_text(v), v.to_string());
    }
}

#[test]
fn join_rows_puts_commas_only_between_rows() {
    let rows = vec!["(1)".to_string(), "(2)".to_string(), "(3)".to_string()];
    assert_eq!(join_rows("X ", &rows), "X (1),(2),(3)");
    assert_eq!(join_rows("X ", &vec!["(1)".to_string()]), "X (1)");
    assert_eq!(join_rows("X ", &Vec::new()), "X ");
}
