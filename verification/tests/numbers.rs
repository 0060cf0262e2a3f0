use clsx::{push_digits, push_signed, push_unsigned, Clsx, ClsxArg};

fn text_of<T: ClsxArg>(number: T) -> String {
    let mut out = String::new();
    number.append_to(&mut out);
    out
}

#[test]
fn zero_is_written() {
    assert_eq!(Clsx::new(1).arg(&0u8).finish(), "0");
    assert_eq!(Clsx::new(3).arg(&"a").arg(&0i32).arg(&"b").finish(), "a 0 b");
    assert_eq!(text_of(0i64), "0");
    assert_eq!(text_of(0usize), "0");
}

#[test]
fn digits_are_written_without_separator() {
    let mut out = String::from("w-");
    push_digits(&mut out, 1234567890);
    assert_eq!(out, "w-1234567890");
    push_digits(&mut out, 0);
    assert_eq!(out, "w-12345678900");
    let mut next = String::new();
    push_digits(&mut next, 10);
    assert_eq!(next, "10");
    push_digits(&mut next, 9);
    assert_eq!(next, "109");
}

#[test]
fn unsigned_numbers_follow_one_separator() {
    let mut out = String::new();
    push_unsigned(&mut out, 42);
    assert_eq!(out, "42");
    push_unsigned(&mut out, 0);
    assert_eq!(out, "42 0");
    push_unsigned(&mut out, u64::MAX);
    assert_eq!(out, "42 0 18446744073709551615");
}

#[test]
fn signed_numbers_follow_one_separator() {
    let mut out = String::new();
    push_signed(&mut out, -5);
    assert_eq!(out, "-5");
    push_signed(&mut out, 0);
    assert_eq!(out, "-5 0");
    push_signed(&mut out, i64::MIN);
    assert_eq!(out, "-5 0 -9223372036854775808");
    push_signed(&mut out, i64::MAX);
    assert_eq!(out, "-5 0 -9223372036854775808 9223372036854775807");
}

#[test]
fn every_integer_type_is_written_in_full() {
    assert_eq!(text_of(i8::MIN), "-128");
    assert_eq!(text_of(i8::MAX), "127");
    assert_eq!(text_of(i16::MIN), "-32768");
    assert_eq!(text_of(i16::MAX), "32767");
    assert_eq!(text_of(i32::MIN), "-2147483648");
    assert_eq!(text_of(i32::MAX), "2147483647");
    assert_eq!(text_of(i64::MIN), "-9223372036854775808");
    assert_eq!(text_of(i64::MAX), "9223372036854775807");
    assert_eq!(text_of(isize::MIN), isize::MIN.to_string());
    assert_eq!(text_of(isize::MAX), isize::MAX.to_string());
    assert_eq!(text_of(u8::MAX), "255");
    assert_eq!(text_of(u16::MAX), "65535");
    assert_eq!(text_of(u32::MAX), "4294967295");
    assert_eq!(text_of(u64::MAX), "18446744073709551615");
    assert_eq!(text_of(usize::MAX), usize::MAX.to_string());
}

#[test]
fn decimal_text_is_what_the_standard_library_prints() {
    let samples: [i64; 12] = [0, 1, -1, 9, 10, 11, 99, 100, 101, -100, 1_000_000, -987_654_321];
    for n in samples {
        assert_eq!(text_of(n), n.to_string());
    }
    for n in 0u16..2000 {
        assert_eq!(text_of(n), n.to_string());
    }
}

#[test]
fn numbers_between_texts() {
    let result = Clsx::new(4).arg(&"start").arg(&10).arg(&-5i32).arg(&"end").finish();
    assert_eq!(result, "start 10 -5 end");
}
