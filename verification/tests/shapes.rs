use clsx::{push_with_space_if_needed, Clsx, ClsxArg, BYTES_PER_ARGUMENT};
use std::collections::HashMap;

fn appended<T: ClsxArg + ?Sized>(before: &str, arg: &T) -> String {
    let mut out = String::from(before);
    arg.append_to(&mut out);
    out
}

#[test]
fn push_into_empty_buffer_writes_no_separator() {
    let mut out = String::new();
    push_with_space_if_needed(&mut out, "btn");
    assert_eq!(out, "btn");
}

#[test]
fn push_into_filled_buffer_writes_one_separator() {
    let mut out = String::from("btn");
    push_with_space_if_needed(&mut out, "active");
    assert_eq!(out, "btn active");
}

#[test]
fn push_of_empty_text_changes_nothing() {
    let mut out = String::from("btn");
    push_with_space_if_needed(&mut out, "");
    assert_eq!(out, "btn");
    let mut empty = String::new();
    push_with_space_if_needed(&mut empty, "");
    assert_eq!(empty, "");
}

#[test]
fn push_keeps_text_verbatim() {
    let mut out = String::from("a");
    push_with_space_if_needed(&mut out, "md:hover:bg-[#fff] é");
    assert_eq!(out, "a md:hover:bg-[#fff] é");
}

#[test]
fn text_shapes_all_write_the_text() {
    let owned = String::from("owned");
    let slice: &str = "slice";
    let twice: &&str = &slice;
    assert_eq!(appended("x", &slice), "x slice");
    assert_eq!(appended("x", &owned), "x owned");
    assert_eq!(appended("x", &&owned), "x owned");
    assert_eq!(appended("x", &twice), "x slice");
    assert_eq!(appended("x", &&twice), "x slice");
    assert_eq!(appended("", &slice), "slice");
}

#[test]
fn empty_text_is_skipped_in_every_position() {
    let result = Clsx::new(5).arg(&"").arg(&"a").arg(&"").arg(&"b").arg(&"").finish();
    assert_eq!(result, "a b");
    assert_eq!(Clsx::new(2).arg(&"").arg(&String::new()).finish(), "");
}

#[test]
fn flags_write_nothing_in_any_position() {
    assert_eq!(Clsx::new(1).arg(&true).finish(), "");
    assert_eq!(Clsx::new(1).arg(&false).finish(), "");
    assert_eq!(Clsx::new(3).arg(&true).arg(&"a").arg(&false).finish(), "a");
    assert_eq!(appended("kept", &true), "kept");
}

#[test]
fn option_writes_what_it_holds() {
    assert_eq!(Clsx::new(3).arg(&Some("x")).arg(&None::<&str>).arg(&"base").finish(), "x base");
    assert_eq!(appended("a", &Some(7u8)), "a 7");
    assert_eq!(appended("a", &Some("")), "a");
    assert_eq!(appended("a", &Some(Some("deep"))), "a deep");
    assert_eq!(appended("a", &None::<String>), "a");
}

#[test]
fn pairs_write_only_when_true_and_not_empty() {
    let result = Clsx::new(3)
        .arg(&"btn")
        .arg(&(true, "active"))
        .arg(&(false, "disabled"))
        .finish();
    assert_eq!(result, "btn active");
    assert_eq!(appended("btn", &(true, "")), "btn");
    assert_eq!(appended("btn", &(true, String::from("on"))), "btn on");
    assert_eq!(appended("btn", &(false, String::from("off"))), "btn");
    assert_eq!(appended("btn", &(true, String::new())), "btn");
    assert_eq!(appended("", &(true, "first")), "first");
}

#[test]
fn sequences_flatten_in_order() {
    assert_eq!(Clsx::new(2).arg(&["a", "b"]).arg(&["c"]).finish(), "a b c");
    let list = vec!["a", "", "b"];
    assert_eq!(appended("x", &list), "x a b");
    let view: &[&str] = &list;
    assert_eq!(appended("x", &view), "x a b");
    let nested = vec![vec!["a", "b"], vec![], vec!["c"]];
    assert_eq!(appended("", &nested), "a b c");
    let none: [&str; 0] = [];
    assert_eq!(appended("x", &none), "x");
    let mixed = [Some("a"), None, Some("b")];
    assert_eq!(appended("", &mixed), "a b");
    let numbers = vec![1u8, 0, 2];
    assert_eq!(appended("n", &numbers), "n 1 0 2");
}

#[test]
fn flag_map_with_one_true_key() {
    let mut map = HashMap::new();
    map.insert("flex".to_string(), true);
    map.insert("hidden".to_string(), false);
    assert_eq!(Clsx::new(2).arg(&map).arg(&"base").finish(), "flex base");
    assert_eq!(Clsx::new(2).arg(&"base").arg(&map).finish(), "base flex");
}

#[test]
fn flag_map_writes_each_true_key_once_and_no_empty_key() {
    let mut map = HashMap::new();
    map.insert("a".to_string(), true);
    map.insert("b".to_string(), true);
    map.insert("c".to_string(), false);
    map.insert(String::new(), true);
    let result = appended("base", &map);
    assert!(result == "base a b" || result == "base b a");
}

#[test]
fn flag_map_without_true_keys_writes_nothing() {
    let mut map = HashMap::new();
    map.insert("a".to_string(), false);
    assert_eq!(appended("base", &map), "base");
    let empty: HashMap<String, bool> = HashMap::new();
    assert_eq!(appended("", &empty), "");
}

#[test]
fn producers_are_called_in_place() {
    assert_eq!(Clsx::new(2).arg(&"base").arg(&|| "dyn").finish(), "base dyn");
    assert_eq!(Clsx::new(2).arg(&"base").arg(&|| "").finish(), "base");
    assert_eq!(Clsx::new(2).arg(&"base").arg(&|| None::<&str>).finish(), "base");
    assert_eq!(Clsx::new(2).arg(&|| vec!["a", "b"]).arg(&|| 3u8).finish(), "a b 3");
    assert_eq!(Clsx::new(1).arg(&|| || "inner").finish(), "inner");
}

#[test]
fn producers_run_once_for_each_visit() {
    let calls = std::cell::Cell::new(0u32);
    let producer = || {
        calls.set(calls.get() + 1);
        "x"
    };
    let result = Clsx::new(2).arg(&producer).arg(&producer).finish();
    assert_eq!(result, "x x");
    assert_eq!(calls.get(), 2);
}

#[test]
fn composing_twice_gives_the_same_text() {
    let compose = || {
        Clsx::new(4)
            .arg(&"btn")
            .arg(&(true, "active"))
            .arg(&[Some("a"), None])
            .arg(&-3i16)
            .finish()
    };
    let first = compose();
    let second = compose();
    assert_eq!(first, "btn active a -3");
    assert_eq!(first, second);
}

#[test]
fn no_stray_separators_for_any_mix_of_empty_arguments() {
    let texts = ["", "a", "b"];
    for first in texts {
        for second in texts {
            for third in texts {
                let result = Clsx::new(5)
                    .arg(&first)
                    .arg(&false)
                    .arg(&second)
                    .arg(&None::<&str>)
                    .arg(&third)
                    .finish();
                assert!(!result.starts_with(' '));
                assert!(!result.ends_with(' '));
                assert!(!result.contains("  "));
                let expected: Vec<&str> =
                    [first, second, third].into_iter().filter(|t| !t.is_empty()).collect();
                assert_eq!(result, expected.join(" "));
            }
        }
    }
}

#[test]
fn count_only_sizes_the_buffer() {
    assert_eq!(Clsx::new(0).arg(&"a").arg(&"b").finish(), "a b");
    assert_eq!(Clsx::new(100).arg(&"a").finish(), "a");
    assert_eq!(Clsx::new(usize::MAX).arg(&"a").finish(), "a");
    assert_eq!(Clsx::new(7).finish(), "");
}

#[test]
fn long_composition_exceeds_the_hint() {
    let long = "x".repeat(100);
    let result = Clsx::new(2).arg(&long).arg(&long).finish();
    assert_eq!(result.len(), 201);
    assert_eq!(&result[100..101], " ");
}

#[test]
fn buffer_is_sized_at_eight_bytes_for_each_argument() {
    assert_eq!(BYTES_PER_ARGUMENT, 8);
    assert!(Clsx::new(3).finish().capacity() >= 24);
    assert!(Clsx::new(1).finish().capacity() >= 8);
    assert_eq!(Clsx::new(0).finish().capacity(), 0);
    assert_eq!(Clsx::new(3).finish(), "");
}
