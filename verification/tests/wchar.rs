use relibc::wchar::{
    memory_order_fits, string_order_fits, mbsinit, mbstate_t, wcscat, wcschr, wcscmp, wcscoll, wcscpy, wcscspn, wcslen, wcsncat,
    wcsncmp, wcsncpy, wcsrchr, wctob, wmemchr, wmemcmp, wmemcpy, wmemmove, wmemset, EOF, WEOF,
};

fn wide(text: &str) -> Vec<i32> {
    let mut ws: Vec<i32> = text.chars().map(|c| c as i32).collect();
    ws.push(0);
    ws
}

#[test]
fn no_state_is_the_initial_state() {
    assert_eq!(mbsinit(None), 1);
    assert_eq!(mbsinit(Some(&mbstate_t)), 0);
}

#[test]
fn the_first_128_wide_characters_are_bytes() {
    assert_eq!(wctob(0), 0);
    assert_eq!(wctob(0x41), 0x41);
    assert_eq!(wctob(0x7F), 0x7F);
    assert_eq!(wctob(0x80), EOF);
    assert_eq!(wctob(0xFF), -1);
    assert_eq!(wctob(0x20AC), -1);
    assert_eq!(wctob(WEOF), -1);
    assert_eq!(WEOF, u32::MAX);
}

#[test]
fn a_string_ends_at_its_first_null() {
    assert_eq!(wcslen(&[0]), 0);
    assert_eq!(wcslen(&wide("hello")), 5);
    assert_eq!(wcslen(&[104, 105, 0, 120, 0]), 2);
    assert_eq!(wcslen(&[-1, i32::MAX, i32::MIN, 0]), 3);
    assert_eq!(wcslen(&wide("gr\u{fc}\u{df}e \u{1F600}")), 7);
}

#[test]
fn the_first_place_of_a_wide_character_is_found() {
    let ws = wide("banana");
    assert_eq!(wcschr(&ws, 'b' as i32), Some(0));
    assert_eq!(wcschr(&ws, 'a' as i32), Some(1));
    assert_eq!(wcschr(&ws, 'n' as i32), Some(2));
    assert_eq!(wcschr(&ws, 'x' as i32), None);
    assert_eq!(wcschr(&ws, 0), Some(6));
    assert_eq!(wcschr(&[0, 7, 0], 7), None);
    assert_eq!(wcschr(&[0], 0), Some(0));
}

#[test]
fn the_last_place_of_a_wide_character_is_found() {
    let ws = wide("banana");
    assert_eq!(wcsrchr(&ws, 'b' as i32), Some(0));
    assert_eq!(wcsrchr(&ws, 'a' as i32), Some(5));
    assert_eq!(wcsrchr(&ws, 'n' as i32), Some(4));
    assert_eq!(wcsrchr(&ws, 'x' as i32), None);
    assert_eq!(wcsrchr(&ws, 0), None);
    assert_eq!(wcsrchr(&[1, 0, 1, 0], 1), Some(0));
}

#[test]
fn a_span_ends_at_the_first_wide_character_of_the_other_string() {
    assert_eq!(wcscspn(&wide("hello world"), &wide(" ")), 5);
    assert_eq!(wcscspn(&wide("hello world"), &wide("ol")), 2);
    assert_eq!(wcscspn(&wide("hello"), &wide("xyz")), 5);
    assert_eq!(wcscspn(&wide("hello"), &wide("")), 5);
    assert_eq!(wcscspn(&wide(""), &wide("abc")), 0);
    assert_eq!(wcscspn(&wide("hello"), &wide("h")), 0);
    assert_eq!(wcscspn(&[1, 2, 3, 0], &[9, 0, 2, 0]), 3);
}

#[test]
fn strings_are_ordered_by_their_first_difference() {
    assert_eq!(wcscmp(&wide("abc"), &wide("abc")), 0);
    assert_eq!(wcscmp(&wide("abc"), &wide("abd")), -1);
    assert_eq!(wcscmp(&wide("abd"), &wide("abc")), 1);
    assert_eq!(wcscmp(&wide("ab"), &wide("abc")), -('c' as i32));
    assert_eq!(wcscmp(&wide("abc"), &wide("ab")), 'c' as i32);
    assert_eq!(wcscmp(&wide(""), &wide("")), 0);
    assert_eq!(wcscmp(&wide("a"), &wide("z")), -25);
    assert_eq!(wcscmp(&[5, 0, 1, 0], &[5, 0, 2, 0]), 0);
    assert_eq!(wcscoll(&wide("abc"), &wide("abd")), -1);
    assert_eq!(wcscoll(&wide("\u{e4}"), &wide("z")), 0xe4 - 'z' as i32);
}

#[test]
fn strings_are_ordered_by_their_first_wide_characters() {
    assert_eq!(wcsncmp(&wide("abcdef"), &wide("abcxyz"), 3), 0);
    assert_eq!(wcsncmp(&wide("abcdef"), &wide("abcxyz"), 4), 'd' as i32 - 'x' as i32);
    assert_eq!(wcsncmp(&wide("abcdef"), &wide("abcxyz"), 0), 0);
    assert_eq!(wcsncmp(&wide("abc"), &wide("abc"), 100), 0);
    assert_eq!(wcsncmp(&wide("abc"), &wide("abc"), usize::MAX), 0);
    assert_eq!(wcsncmp(&[1, 2, 3], &[1, 2, 4], 2), 0);
    assert_eq!(wcsncmp(&[1, 2, 3], &[1, 2, 4], 3), -1);
    assert_eq!(wcsncmp(&[1, 0, 3], &[1, 0, 4], 3), 0);
    assert_eq!(wcsncmp(&[i32::MAX, 0], &[0], 1), i32::MAX);
    assert_eq!(wcsncmp(&[-1, 0], &[i32::MAX, 0], 5), i32::MIN);
}

#[test]
fn wide_memory_is_ordered_by_its_first_difference() {
    assert_eq!(wmemcmp(&[1, 0, 3], &[1, 0, 4], 3), -1);
    assert_eq!(wmemcmp(&[1, 0, 3], &[1, 0, 4], 2), 0);
    assert_eq!(wmemcmp(&[1, 0, 9], &[1, 0, 4], 3), 5);
    assert_eq!(wmemcmp(&[], &[], 0), 0);
    assert_eq!(wmemcmp(&[7], &[8], 0), 0);
    assert_eq!(wmemcmp(&[0, 0], &[0, 0], 2), 0);
    assert_eq!(wmemcmp(&[i32::MIN], &[0], 1), i32::MIN);
}

#[test]
fn a_wide_character_is_found_in_wide_memory() {
    let ws = [3, 0, 5, 0, 5];
    assert_eq!(wmemchr(&ws, 5, 5), Some(2));
    assert_eq!(wmemchr(&ws, 5, 3), Some(2));
    assert_eq!(wmemchr(&ws, 5, 2), None);
    assert_eq!(wmemchr(&ws, 0, 5), Some(1));
    assert_eq!(wmemchr(&ws, 3, 0), None);
    assert_eq!(wmemchr(&ws, 9, 5), None);
}

#[test]
fn wide_memory_is_set() {
    let mut ws = [1, 2, 3, 4];
    wmemset(&mut ws, 9, 2);
    assert_eq!(ws, [9, 9, 3, 4]);
    wmemset(&mut ws, 0, 0);
    assert_eq!(ws, [9, 9, 3, 4]);
    wmemset(&mut ws, -1, 4);
    assert_eq!(ws, [-1, -1, -1, -1]);
}

#[test]
fn wide_memory_is_copied() {
    let mut ws = [1, 2, 3, 4];
    wmemcpy(&mut ws, &[7, 8, 9], 2);
    assert_eq!(ws, [7, 8, 3, 4]);
    wmemcpy(&mut ws, &[5], 0);
    assert_eq!(ws, [7, 8, 3, 4]);
    wmemmove(&mut ws, &[0, 0, 0, 0, 1], 4);
    assert_eq!(ws, [0, 0, 0, 0]);
    wmemmove(&mut ws, &[6, 5], 1);
    assert_eq!(ws, [6, 0, 0, 0]);
}

#[test]
fn a_string_is_copied_with_its_null() {
    let mut ws = [9; 6];
    wcscpy(&mut ws, &wide("abc"));
    assert_eq!(ws, ['a' as i32, 'b' as i32, 'c' as i32, 0, 9, 9]);
    wcscpy(&mut ws, &[0, 1, 2]);
    assert_eq!(ws, [0, 'b' as i32, 'c' as i32, 0, 9, 9]);
    let mut exact = [9; 3];
    wcscpy(&mut exact, &[4, 5, 0]);
    assert_eq!(exact, [4, 5, 0]);
}

#[test]
fn a_bounded_copy_pads_with_nulls() {
    let mut ws = [9; 6];
    wcsncpy(&mut ws, &[1, 2, 0, 7], 5);
    assert_eq!(ws, [1, 2, 0, 0, 0, 9]);
    let mut ws = [9; 6];
    wcsncpy(&mut ws, &[1, 2, 3, 4, 0], 2);
    assert_eq!(ws, [1, 2, 9, 9, 9, 9]);
    wcsncpy(&mut ws, &[5, 6, 7], 3);
    assert_eq!(ws, [5, 6, 7, 9, 9, 9]);
    wcsncpy(&mut ws, &[0], 0);
    assert_eq!(ws, [5, 6, 7, 9, 9, 9]);
    wcsncpy(&mut ws, &[0], 6);
    assert_eq!(ws, [0; 6]);
}

#[test]
fn a_string_is_appended() {
    let mut ws = [1, 2, 0, 9, 9, 9, 9];
    wcscat(&mut ws, &[3, 4, 0]);
    assert_eq!(ws, [1, 2, 3, 4, 0, 9, 9]);
    wcscat(&mut ws, &[0]);
    assert_eq!(ws, [1, 2, 3, 4, 0, 9, 9]);
    wcscat(&mut ws, &[5, 6, 0, 7]);
    assert_eq!(ws, [1, 2, 3, 4, 5, 6, 0]);
    let mut empty = [0, 8, 8];
    wcscat(&mut empty, &[1, 0]);
    assert_eq!(empty, [1, 0, 8]);
}

#[test]
fn a_bounded_append_takes_at_most_n_wide_characters() {
    let mut ws = [1, 0, 9, 9, 9, 9];
    wcsncat(&mut ws, &[2, 3, 4, 0], 2);
    assert_eq!(ws, [1, 2, 3, 0, 9, 9]);
    wcsncat(&mut ws, &[5, 6, 7], 0);
    assert_eq!(ws, [1, 2, 3, 0, 9, 9]);
    wcsncat(&mut ws, &[5, 0, 7], 2);
    assert_eq!(ws, [1, 2, 3, 5, 0, 9]);
    wcsncat(&mut ws, &[6, 7, 8], 1);
    assert_eq!(ws, [1, 2, 3, 5, 6, 0]);
}

#[test]
fn an_order_fits_where_the_difference_is_an_int() {
    assert!(string_order_fits(&wide("abc"), &wide("abd"), 10));
    assert!(string_order_fits(&wide("abc"), &wide("abc"), usize::MAX));
    assert!(string_order_fits(&[i32::MAX, 0], &[0], 1));
    assert!(string_order_fits(&[-1, 0], &[i32::MAX, 0], 5));
    assert!(!string_order_fits(&[-2, 0], &[i32::MAX, 0], 5));
    assert!(!string_order_fits(&[i32::MAX, 0], &[-1, 0], 5));
    assert!(!string_order_fits(&[1, i32::MIN, 0], &[1, 1, 0], 2));
    assert!(string_order_fits(&[1, i32::MIN, 0], &[1, 1, 0], 1));
    assert!(string_order_fits(&[0, i32::MIN], &[0, 1], 2));
    assert!(memory_order_fits(&[0, i32::MIN], &[0, 0], 2));
    assert!(!memory_order_fits(&[0, i32::MIN], &[0, 1], 2));
    assert!(memory_order_fits(&[0, i32::MIN], &[0, 1], 1));
    assert!(memory_order_fits(&[], &[], 0));
    assert!(!memory_order_fits(&[i32::MAX], &[i32::MIN], 1));
}
