//! Tests for the verified text-formatting helpers.

use cli_errors::text::{join_strings, render_u64};

#[test]
fn decimal_rendering_exact_values() {
    assert_eq!(render_u64(0), "0");
    assert_eq!(render_u64(7), "7");
    assert_eq!(render_u64(10), "10");
    assert_eq!(render_u64(31545), "31545");
    assert_eq!(render_u64(u64::MAX), "18446744073709551615");
}

#[test]
fn join_with_quote_separator() {
    assert_eq!(join_strings(&Vec::new(), "' '"), "");
    assert_eq!(join_strings(&vec![String::from("a")], "' '"), "a");
    assert_eq!(
        join_strings(
            &vec![String::from("a"), String::from("b"), String::from("c")],
            "' '"
        ),
        "a' 'b' 'c"
    );
    assert_eq!(
        join_strings(&vec![String::new(), String::new()], ", "),
        ", "
    );
}
