use efi_loader::wide_text::{char_to_unit, CChar};

#[test]
fn decode_basic_ascii() {
    let s = CChar::new(vec![0x41, 0x42, 0]);
    assert_eq!(s.len(), 2);
    assert_eq!(s.chars(), vec!['A', 'B']);
}

#[test]
fn decode_stops_at_first_null() {
    let s = CChar::new(vec![0x41, 0, 0x42, 0]);
    assert_eq!(s.len(), 1);
    assert_eq!(s.chars(), vec!['A']);
}

#[test]
fn decode_empty_string() {
    let s = CChar::new(vec![0]);
    assert_eq!(s.len(), 0);
    assert_eq!(s.chars(), Vec::<char>::new());
}

#[test]
fn decode_surrogate_pair() {
    // U+1F600 encodes as the pair D83D DE00.
    let s = CChar::new(vec![0xD83D, 0xDE00, 0]);
    assert_eq!(s.chars(), vec!['\u{1F600}']);
}

#[test]
fn decode_lone_high_surrogate() {
    let s = CChar::new(vec![0xD800, 0x41, 0]);
    assert_eq!(s.chars(), vec!['\u{FFFD}', 'A']);
}

#[test]
fn decode_lone_low_surrogate() {
    let s = CChar::new(vec![0xDC00, 0]);
    assert_eq!(s.chars(), vec!['\u{FFFD}']);
}

#[test]
fn decode_high_surrogate_at_end() {
    let s = CChar::new(vec![0x41, 0xD800, 0]);
    assert_eq!(s.chars(), vec!['A', '\u{FFFD}']);
}

#[test]
fn decode_two_high_surrogates() {
    let s = CChar::new(vec![0xD800, 0xD800, 0xDC00, 0]);
    // The first high surrogate is unpaired; the next two form a pair.
    assert_eq!(s.chars(), vec!['\u{FFFD}', '\u{10000}']);
}

#[test]
fn decode_non_ascii_unit() {
    let s = CChar::new(vec![0x00E9, 0]);
    assert_eq!(s.chars(), vec!['\u{E9}']);
}

#[test]
fn slice_covers_prefix_before_null() {
    let s = CChar::new(vec![7, 8, 9, 0, 10, 0]);
    assert_eq!(s.as_slice(), &[7, 8, 9]);
}

#[test]
fn char_unit_truncates_to_sixteen_bits() {
    assert_eq!(char_to_unit('A'), 0x41);
    assert_eq!(char_to_unit('\u{10000}'), 0);
    assert_eq!(char_to_unit('\u{1F600}'), 0xF600);
}
