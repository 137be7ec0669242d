use rustbook::lifetimes::longest;
use rustbook::pig_latin::{binary_search, pig_latin};
use rustbook::text::str_equals;

#[test]
fn longest_picks_more_bytes() {
    assert_eq!(longest("abcd", "xyz"), "abcd");
    assert_eq!(longest("ab", "xyz"), "xyz");
    // a tie goes to the second
    assert_eq!(longest("abc", "xyz"), "xyz");
    // bytes, not characters: "é" is two bytes
    assert_eq!(longest("é", "a"), "é");
}

#[test]
fn pig_latin_words() {
    assert_eq!(pig_latin("apple"), "apple-hay");
    assert_eq!(pig_latin("first"), "irst-fay");
    assert_eq!(pig_latin("owl"), "owl-hay");
    // only a, e, i and o count as vowels
    assert_eq!(pig_latin("under"), "nder-uay");
    assert_eq!(pig_latin("x"), "-xay");
}

#[test]
fn binary_search_finds_or_places() {
    let v = [1u8, 3, 5, 7];
    assert_eq!(binary_search(&v, 5), Ok(2));
    assert_eq!(binary_search(&v, 4), Err(2));
    assert_eq!(binary_search(&v, 0), Err(0));
    assert_eq!(binary_search(&v, 9), Err(4));
    assert_eq!(binary_search(&[], 9), Err(0));
}

#[test]
fn str_equals_compares_characters() {
    assert!(str_equals("Add", "Add"));
    assert!(!str_equals("Add", "add"));
    assert!(!str_equals("to", "too"));
    assert!(str_equals("", ""));
}
