//! Tests of argument placeholder expansion and decimal rendering.

use texquery::placeholder::{decimal_string, replace_placeholder, PlaceHolderIterator};

#[test]
fn test_replace_placeholder_basic() {
    let r = replace_placeholder("doc.tex", "doc.pdf", 9, "%f:%l:%p").unwrap();
    assert_eq!(r, "doc.tex:10:doc.pdf".to_string());
}

#[test]
fn test_replace_placeholder_quoted_untouched() {
    let r = replace_placeholder("doc.tex", "doc.pdf", 0, "\"%f %l\"").unwrap();
    assert_eq!(r, "\"%f %l\"".to_string());
}

#[test]
fn test_replace_placeholder_escapes() {
    let r = replace_placeholder("t", "p", 0, "100%% done").unwrap();
    assert_eq!(r, "100% done".to_string());
}

#[test]
fn test_replace_placeholder_unknown_sequence_kept() {
    let r = replace_placeholder("t", "p", 0, "%x%f").unwrap();
    assert_eq!(r, "%xt".to_string());
}

#[test]
fn test_replace_placeholder_trailing_percent() {
    let r = replace_placeholder("t", "p", 0, "abc%").unwrap();
    assert_eq!(r, "abc%".to_string());
}

#[test]
fn test_replace_placeholder_plain_text() {
    let r = replace_placeholder("t", "p", 41, "--synctex").unwrap();
    assert_eq!(r, "--synctex".to_string());
}

#[test]
fn test_decimal_string() {
    assert_eq!(decimal_string(0), "0".to_string());
    assert_eq!(decimal_string(7), "7".to_string());
    assert_eq!(decimal_string(10), "10".to_string());
    assert_eq!(decimal_string(12345), "12345".to_string());
    assert_eq!(decimal_string(4294967294), "4294967294".to_string());
}

#[test]
fn test_iterator_chunks() {
    let mut it = PlaceHolderIterator::new("a%fb", "T", "P", "9");
    assert_eq!(it.next(), Some("a"));
    assert_eq!(it.next(), Some("T"));
    assert_eq!(it.next(), Some("b"));
    assert_eq!(it.next(), None);
}

#[test]
fn test_iterator_yield_methods() {
    let mut it = PlaceHolderIterator::new("xy%l", "T", "P", "9");
    assert_eq!(it.yield_str(2), Some("xy"));
    assert_eq!(it.yield_placeholder(), Some("9"));
    let mut rest = PlaceHolderIterator::new("tail", "T", "P", "9");
    assert_eq!(rest.yield_remainder(), Some("tail"));
    assert_eq!(rest.next(), None);
}
