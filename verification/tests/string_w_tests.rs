use lib::string_w::CHncStringW;

#[test]
fn sizeof_8b_8align() {
    assert_eq!(std::mem::size_of::<CHncStringW>(), 8);
    assert_eq!(std::mem::align_of::<CHncStringW>(), 8);
}

#[test]
fn eq_compares_wide_content() {
    let a = CHncStringW::from_str("hello");
    let b = CHncStringW::from_str("hello");
    let c = CHncStringW::from_str("world");
    assert_eq!(a, b);
    assert_ne!(a, c);
}

#[test]
fn default_ctor_points_to_nil_sentinel() {
    let s = CHncStringW::new();
    assert_eq!(s.refcount(), -2);
    assert_eq!(s.length(), 0);
    assert_eq!(s.as_wide(), &[] as &[u16]);
}

#[test]
fn from_str_basic() {
    let s = CHncStringW::from_str("hello");
    assert_eq!(s.length(), 5);
    let wide: Vec<u16> = "hello".encode_utf16().collect();
    assert_eq!(s.as_wide(), &wide[..]);
    assert_eq!(s.refcount(), 1);
}

#[test]
fn from_wide_unicode() {
    let s = CHncStringW::from_str("한컴 KSAT");
    let expected: Vec<u16> = "한컴 KSAT".encode_utf16().collect();
    assert_eq!(s.as_wide(), &expected[..]);
    assert_eq!(s.length() as usize, expected.len());
}

#[test]
fn from_str_encodes_surrogate_pairs() {
    let s = CHncStringW::from_str("a\u{1F600}b");
    let expected: Vec<u16> = "a\u{1F600}b".encode_utf16().collect();
    assert_eq!(s.as_wide(), &expected[..]);
    assert_eq!(s.as_wide(), &[0x61u16, 0xD83D, 0xDE00, 0x62][..]);
}

#[test]
fn clone_increments_refcount() {
    let s1 = CHncStringW::from_str("share me");
    assert_eq!(s1.refcount(), 1);
    let s2 = s1.share();
    assert_eq!(s1.refcount(), 2);
    assert_eq!(s2.refcount(), 2);
    assert_eq!(s1, s2);
}

#[test]
fn drop_decrements_refcount_then_frees_at_zero() {
    let s1 = CHncStringW::from_str("test");
    let s2 = s1.share();
    assert_eq!(s1.refcount(), 2);
    drop(s1);
    assert_eq!(s2.refcount(), 1);
    assert_eq!(s2.as_wide()[0], 't' as u16);
}

#[test]
fn drop_skips_sentinel() {
    for _ in 0..1000 {
        let _ = CHncStringW::new();
    }
    let probe = CHncStringW::new();
    assert_eq!(probe.refcount(), -2);
}

#[test]
fn empty_str_from_str_uses_zero_length() {
    let s = CHncStringW::from_str("");
    assert_eq!(s.length(), 0);
    assert_eq!(s.refcount(), 1);
}

#[test]
fn many_clones_then_drops_work_cleanly() {
    let s = CHncStringW::from_str("stress");
    let mut copies = Vec::with_capacity(100);
    for _ in 0..100 {
        copies.push(s.share());
    }
    assert_eq!(s.refcount(), 101);
    copies.clear();
    assert_eq!(s.refcount(), 1);
}

#[test]
fn wide_equal_compares_units() {
    assert!(lib::string_w::wide_equal(&[1, 2, 3], &[1, 2, 3]));
    assert!(!lib::string_w::wide_equal(&[1, 2, 3], &[1, 2]));
    assert!(!lib::string_w::wide_equal(&[1, 2, 4], &[1, 2, 3]));
}
