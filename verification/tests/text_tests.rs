use rust_labs::text::{add_chars_n, add_chars_n2, add_integer, add_space, add_str};

#[test]
fn add_chars_n_appends_copies() {
    let s = add_chars_n(String::from("ab"), 'x', 3);
    assert_eq!(s, "abxxx");
}

#[test]
fn add_chars_n_zero_count_keeps_text() {
    let s = add_chars_n(String::from("ab"), 'x', 0);
    assert_eq!(s, "ab");
}

#[test]
fn add_chars_n_builds_the_alphabet_triangle_start() {
    let mut s = String::new();
    s = add_chars_n(s, 'a', 26);
    s = add_chars_n(s, 'b', 25);
    assert_eq!(s.len(), 51);
    assert!(s.starts_with(&"a".repeat(26)));
    assert!(s.ends_with(&"b".repeat(25)));
}

#[test]
fn add_chars_n2_appends_in_place() {
    let mut s = String::from("z");
    add_chars_n2(&mut s, 'é', 2);
    assert_eq!(s, "zéé");
}

#[test]
fn add_chars_n_and_add_chars_n2_agree() {
    let by_value = add_chars_n(String::from("q"), '*', 4);
    let mut in_place = String::from("q");
    add_chars_n2(&mut in_place, '*', 4);
    assert_eq!(by_value, in_place);
}

#[test]
fn two_appends_equal_one_with_the_sum() {
    let twice = add_chars_n(add_chars_n(String::new(), '-', 2), '-', 3);
    let once = add_chars_n(String::new(), '-', 5);
    assert_eq!(twice, once);
}

#[test]
fn add_space_positive() {
    let mut s = String::from("a");
    add_space(&mut s, 3);
    assert_eq!(s, "a   ");
}

#[test]
fn add_space_zero_and_negative_append_nothing() {
    let mut s = String::from("a");
    add_space(&mut s, 0);
    add_space(&mut s, -7);
    assert_eq!(s, "a");
}

#[test]
fn add_space_matches_add_chars_n2_with_blank() {
    let mut a = String::new();
    add_space(&mut a, 15);
    let mut b = String::new();
    add_chars_n2(&mut b, ' ', 15);
    assert_eq!(a, b);
}

#[test]
fn add_str_appends_text() {
    let mut s = String::from("I ");
    add_str(&mut s, "💚 Rust");
    assert_eq!(s, "I 💚 Rust");
}

#[test]
fn add_integer_writes_reversed_grouped_digits() {
    let mut s = String::new();
    add_integer(&mut s, 306437968);
    assert_eq!(s, "869_734_603");
}

#[test]
fn add_integer_no_trailing_separator() {
    let mut s = String::new();
    add_integer(&mut s, 123);
    assert_eq!(s, "321");
    let mut t = String::new();
    add_integer(&mut t, 1000);
    assert_eq!(t, "000_1");
}

#[test]
fn add_integer_zero_and_negative_write_nothing() {
    let mut s = String::from("x");
    add_integer(&mut s, 0);
    add_integer(&mut s, -42);
    assert_eq!(s, "x");
}

#[test]
fn add_integer_max() {
    let mut s = String::new();
    add_integer(&mut s, i32::MAX);
    assert_eq!(s, "746_384_741_2");
}

#[test]
fn add_integer_digits_read_back_give_the_number() {
    for n in [1i32, 9, 10, 99, 100, 12345, 306437968, i32::MAX] {
        let mut s = String::new();
        add_integer(&mut s, n);
        let mut value: i64 = 0;
        let mut scale: i64 = 1;
        for c in s.chars() {
            if c == '_' {
                continue;
            }
            value += (c as i64 - '0' as i64) * scale;
            scale *= 10;
        }
        assert_eq!(value, n as i64);
    }
}
