use opcode_finder::finder::Finder;
use opcode_finder::pattern::find;

#[test]
fn find_returns_leftmost_offset() {
    assert_eq!(find(b"foo bar baz", b"foo"), Some(0));
    assert_eq!(find(b"foo bar baz", b"bar"), Some(4));
    assert_eq!(find(b"foo bar baz", b"baz"), Some(8));
}

#[test]
fn find_absent_needle_is_none() {
    assert_eq!(find(b"foo bar baz", b"quux"), None);
    assert_eq!(find(b"ab", b"abc"), None);
    assert_eq!(find(b"", b"a"), None);
}

#[test]
fn find_of_needle_placed_twice_gives_lower_offset() {
    let needle = [0xde, 0xad, 0xbe, 0xef];
    let mut buffer = vec![0u8; 64];
    buffer[17..21].copy_from_slice(&needle);
    buffer[40..44].copy_from_slice(&needle);
    assert_eq!(find(&buffer, &needle), Some(17));
}

#[test]
fn find_of_overlapping_occurrences_gives_first() {
    assert_eq!(find(b"xaaaa", b"aa"), Some(1));
}

#[test]
fn find_of_empty_needle_is_offset_zero() {
    assert_eq!(find(b"abc", b""), Some(0));
    assert_eq!(find(b"", b""), Some(0));
}

#[test]
fn find_of_needle_at_end() {
    assert_eq!(find(b"abcabd", b"abd"), Some(3));
}

#[test]
fn find_in_long_haystack() {
    let mut buffer = vec![0x41u8; 5000];
    buffer[4321] = 0x42;
    buffer[4322] = 0x43;
    assert_eq!(find(&buffer, &[0x42, 0x43]), Some(4321));
    assert_eq!(find(&buffer, &[0x43, 0x42]), None);
}

#[test]
fn search_pattern_is_the_same_search() {
    assert_eq!(Finder::search_pattern(b"foo bar baz bar", b"bar"), Some(4));
    assert_eq!(Finder::search_pattern(b"foo bar baz", b"quux"), None);
}
