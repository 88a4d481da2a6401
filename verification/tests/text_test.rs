use kadabra_runes::text::{
    copy_strings, join, push_decimal, push_repeated, push_right_aligned, push_signed_decimal,
    split_lines,
};

fn owned(parts: &[&str]) -> Vec<String> {
    parts.iter().map(|s| s.to_string()).collect()
}

#[test]
fn decimal_numerals() {
    for &n in &[0u64, 7, 10, 99, 100, 12345, u32::MAX as u64, u64::MAX] {
        let mut out = String::from("n=");
        push_decimal(&mut out, n);
        assert_eq!(out, format!("n={}", n));
    }
}

#[test]
fn signed_decimal_numerals() {
    for &i in &[0i64, 5, -5, -32601, i32::MIN as i64, i64::MIN, i64::MAX] {
        let mut out = String::new();
        push_signed_decimal(&mut out, i);
        assert_eq!(out, format!("{}", i));
    }
}

#[test]
fn right_alignment_pads_on_the_left() {
    for s in ["", "1", "22", "333", "4444", "55555"] {
        let mut out = String::from("|");
        push_right_aligned(&mut out, s, 4);
        assert_eq!(out, format!("|{:>4}", s));
    }
}

#[test]
fn repetition() {
    let mut out = String::from("x");
    push_repeated(&mut out, "ab", 3);
    assert_eq!(out, "xababab");
    push_repeated(&mut out, "ab", 0);
    assert_eq!(out, "xababab");
}

#[test]
fn joining() {
    assert_eq!(join(&owned(&[]), ", "), "");
    assert_eq!(join(&owned(&["a"]), ", "), "a");
    assert_eq!(join(&owned(&["a", "b", "c"]), ", "), "a, b, c");
    assert_eq!(join(&owned(&["", ""]), "-"), "-");
}

#[test]
fn lines_are_split_as_the_standard_library_splits_them() {
    let samples = [
        "",
        "one",
        "one\n",
        "one\ntwo",
        "one\r\ntwo\r\n",
        "one\n\ntwo",
        "\n",
        "\n\n",
        "a\rb\nc",
        "tail\r",
        "x\r\r\ny",
        "\r\n",
        "\r",
        "fn main() {\n    println!(\"hi\");\n}\n",
    ];
    for text in samples {
        let expected: Vec<String> = text.lines().map(|l| l.to_string()).collect();
        assert_eq!(split_lines(text), expected, "for {:?}", text);
    }
    assert_eq!(split_lines("one\r\ntwo\n\nthree"), owned(&["one", "two", "", "three"]));
}

#[test]
fn copies_hold_the_same_strings() {
    assert_eq!(copy_strings(&owned(&[])), owned(&[]));
    assert_eq!(copy_strings(&owned(&["--verbose", "", "x"])), owned(&["--verbose", "", "x"]));
}
