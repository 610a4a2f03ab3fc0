use klag_exporter::memory::{get_rss_kb, read_resident_pages};

#[test]
fn resident_memory_is_four_kb_per_page() {
    assert_eq!(get_rss_kb(Some("12345 678 90 12 0 345 0\n")), 2712);
    assert_eq!(get_rss_kb(Some("1 0 0")), 0);
}

#[test]
fn unreadable_statistics_count_as_none() {
    assert_eq!(get_rss_kb(None), 0);
    assert_eq!(get_rss_kb(Some("")), 0);
    assert_eq!(get_rss_kb(Some("12345")), 0);
    assert_eq!(get_rss_kb(Some("12345 many")), 0);
    assert_eq!(get_rss_kb(Some("12345 -678")), 0);
    assert_eq!(get_rss_kb(Some("12345 + 1")), 0);
}

#[test]
fn any_white_space_separates() {
    assert_eq!(get_rss_kb(Some("  1\t\n 7 9")), 28);
    assert_eq!(get_rss_kb(Some("1\u{3000}7\u{a0}9")), 28);
}

#[test]
fn numbers_are_read_as_far_as_they_fit() {
    assert_eq!(read_resident_pages(Some("0 +7")), Some(7));
    assert_eq!(read_resident_pages(Some("0 0007")), Some(7));
    assert_eq!(read_resident_pages(Some("0 18446744073709551615")), Some(u64::MAX));
    assert_eq!(read_resident_pages(Some("0 18446744073709551616")), None);
    assert_eq!(read_resident_pages(Some("0 +")), None);
    assert_eq!(read_resident_pages(Some("0 1_000")), None);
    assert_eq!(read_resident_pages(None), None);
}
