use flipperzero::furi::string::{FuriString, Pattern};

fn s(text: &str) -> FuriString {
    FuriString::from_str(text)
}

#[test]
fn char_and_string_patterns_match_in_docs_example() {
    let haystack = s("baaaab");
    assert_eq!('a'.find_in(&haystack), Some(1));
    assert_eq!((&s("aa")).find_in(&haystack), Some(1));
    assert_eq!('a'.rfind_in(&haystack), Some(4));
    assert_eq!((&s("aa")).rfind_in(&haystack), Some(3));
}

#[test]
fn furi_string_pattern() {
    let haystack = s("hello world");
    let needle = s("o");
    assert!((&needle).is_contained_in(&haystack));
    assert_eq!((&needle).find_in(&haystack), Some(4));
    assert_eq!((&needle).rfind_in(&haystack), Some(7));
    assert!((&s("hello")).is_prefix_of(&haystack));
    assert!((&s("world")).is_suffix_of(&haystack));
    assert!(!(&s("world")).is_prefix_of(&haystack));
    assert_eq!((&s("xyz")).find_in(&haystack), None);
    assert_eq!((&s("")).find_in(&haystack), Some(0));
    assert_eq!((&s("")).rfind_in(&haystack), Some(11));
    assert_eq!((&s("hello world!")).find_in(&haystack), None);

    let mut h = s("hello world");
    assert!((&s("hello ")).strip_prefix_of(&mut h));
    assert_eq!(h.to_bytes(), b"world");
    assert!(!(&s("x")).strip_prefix_of(&mut h));
    assert_eq!(h.to_bytes(), b"world");
    assert!((&s("ld")).strip_suffix_of(&mut h));
    assert_eq!(h.to_bytes(), b"wor");
}

#[test]
fn byte_pattern() {
    let haystack = s("abcabc");
    assert!(b'c'.is_contained_in(&haystack));
    assert!(!b'z'.is_contained_in(&haystack));
    assert_eq!(b'b'.find_in(&haystack), Some(1));
    assert_eq!(b'b'.rfind_in(&haystack), Some(4));
    assert!(b'a'.is_prefix_of(&haystack));
    assert!(b'c'.is_suffix_of(&haystack));
    let mut h = s("abcabc");
    assert!(b'a'.strip_prefix_of(&mut h));
    assert!(b'c'.strip_suffix_of(&mut h));
    assert_eq!(h.to_bytes(), b"bcab");
    assert!(!b'a'.is_prefix_of(&s("")));
}

#[test]
fn c_string_pattern() {
    let haystack = s("one two one");
    let needle: &[u8] = b"one";
    assert_eq!(needle.find_in(&haystack), Some(0));
    assert_eq!(needle.rfind_in(&haystack), Some(8));
    assert!(needle.is_suffix_of(&haystack));
    let mut h = s("one two one");
    assert!(needle.strip_suffix_of(&mut h));
    assert_eq!(h.to_bytes(), b"one two ");
}

#[test]
fn non_ascii_char_pattern() {
    let haystack = s("x→y→z");
    assert_eq!('→'.find_in(&haystack), Some(1));
    assert_eq!('→'.rfind_in(&haystack), Some(5));
    assert!(!'→'.is_prefix_of(&haystack));
    let mut h = s("→a→");
    assert!('→'.strip_prefix_of(&mut h));
    assert_eq!(h.to_bytes(), "a→".as_bytes());
    assert!('→'.strip_suffix_of(&mut h));
    assert_eq!(h.to_bytes(), b"a");
    assert_eq!('é'.find_in(&s("café")), Some(3));
    assert_eq!('😀'.find_in(&s("a😀")), Some(1));
}

#[test]
fn char_set_pattern() {
    let haystack = s("the quick fox");
    let set: &[char] = &['q', 'x', 'e'];
    assert_eq!(set.find_in(&haystack), Some(2));
    assert_eq!(set.rfind_in(&haystack), Some(12));
    assert!(set.is_contained_in(&haystack));
    assert!(!['z', 'y'].is_contained_in(&haystack));
    assert_eq!(['z', 'y'].find_in(&haystack), None);
    assert!(['a', 't'].is_prefix_of(&haystack));
    assert!((&['x']).is_suffix_of(&haystack));

    let mut h = s("abc");
    assert!(['b', 'a'].strip_prefix_of(&mut h));
    assert_eq!(h.to_bytes(), b"bc");
    assert!(['c', 'b'].strip_suffix_of(&mut h));
    assert_eq!(h.to_bytes(), b"b");
    assert!(!['x'].strip_suffix_of(&mut h));
    assert_eq!(h.to_bytes(), b"b");
}

#[test]
fn furi_string_basics() {
    let mut h = s("abcdef");
    assert_eq!(h.len(), 6);
    h.truncate(10);
    assert_eq!(h.len(), 6);
    h.truncate(4);
    assert_eq!(h.to_bytes(), b"abcd");
    h.remove_front(1);
    assert_eq!(h.to_bytes(), b"bcd");
    h.remove_front(7);
    assert!(h.is_empty());
    assert_eq!(FuriString::new().len(), 0);
}
