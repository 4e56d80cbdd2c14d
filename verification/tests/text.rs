use block_copy_command::text::{chars_of, range_equals, trimmed_bounds, white_space};

#[test]
fn white_space_matches_std() {
    for c in ['\t', '\n', '\u{b}', '\u{c}', '\r', ' ', '\u{85}', '\u{a0}', '\u{1680}', '\u{2000}',
        '\u{200a}', '\u{2028}', '\u{2029}', '\u{202f}', '\u{205f}', '\u{3000}', 'a', '0', ',', '\u{200b}',
        '\u{feff}', '\u{180e}', '_']
    {
        assert_eq!(white_space(c), c.is_whitespace(), "char {:?}", c);
    }
}

#[test]
fn trimmed_bounds_match_std_trim() {
    let s = "  a b \t,\u{3000}x\u{3000}";
    let v = chars_of(s);
    assert_eq!(v, s.chars().collect::<Vec<char>>());
    let (lo, hi) = trimmed_bounds(&v, 0, 7);
    let got: String = v[lo..hi].iter().collect();
    let first: String = v[0..7].iter().collect();
    assert_eq!(got, first.trim());
    let (lo, hi) = trimmed_bounds(&v, 8, v.len());
    let got: String = v[lo..hi].iter().collect();
    assert_eq!(got, "x");
    let (lo, hi) = trimmed_bounds(&v, 0, 2);
    assert_eq!(lo, hi);
}

#[test]
fn range_equals_compares_slices() {
    let v = chars_of("abcde");
    assert!(range_equals(&v, 1, 3, &vec!['b', 'c']));
    assert!(!range_equals(&v, 1, 3, &vec!['b', 'd']));
    assert!(!range_equals(&v, 1, 4, &vec!['b', 'c']));
    assert!(range_equals(&v, 2, 2, &vec![]));
}
