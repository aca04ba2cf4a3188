use gossipsub_baseline_bench::text::{push_decimal, split_once, str_eq};

#[test]
fn decimal_rendering() {
    for n in [0u128, 7, 10, 99, 100, 1234567890, u64::MAX as u128, u128::MAX] {
        let mut s = String::from("x");
        push_decimal(&mut s, n);
        assert_eq!(s, format!("x{n}"));
    }
}

#[test]
fn text_comparisons_and_splits() {
    assert!(str_eq("abc", "abc"));
    assert!(!str_eq("abc", "abd"));
    assert!(!str_eq("ab", "abc"));
    assert_eq!(split_once("--k=v=w", '='), Some(("--k", "v=w")));
    assert_eq!(split_once("=", '='), Some(("", "")));
    assert_eq!(split_once("none", '='), None);
    assert_eq!(split_once("é=ü", '='), Some(("é", "ü")));
}
