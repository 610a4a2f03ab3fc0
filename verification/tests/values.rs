use klag_exporter::config::StringMap;
use klag_exporter::duration::Duration;
use klag_exporter::text::{contains_text, same_text};

#[test]
fn durations_are_taken_apart_as_they_were_made() {
    let d = Duration::new(2, 345_678_901);
    assert_eq!(d.as_secs(), 2);
    assert_eq!(d.subsec_nanos(), 345_678_901);
    assert_eq!(d.as_millis(), 2345);
    assert_eq!(Duration::from_secs(3), Duration::new(3, 0));
    let longest = Duration::new(u64::MAX, 999_999_999);
    assert_eq!(longest.as_secs(), u64::MAX);
    assert_eq!(longest.as_millis(), std::time::Duration::MAX.as_millis());
}

#[test]
fn durations_are_compared_and_reckoned_with() {
    let (short, long) = (Duration::from_secs(1), Duration::from_secs(5));
    assert!(long.exceeds(&short));
    assert!(!short.exceeds(&long));
    assert!(!short.exceeds(&short));
    assert_eq!(short.min(long), short);
    assert_eq!(long.min(short), short);
    assert_eq!(long.minus(short), Duration::from_secs(4));
    assert_eq!(long.doubled(), Duration::from_secs(10));
    assert_eq!(long.halved(), Duration::new(2, 500_000_000));
    assert_eq!(Duration::new(0, 1).halved(), Duration::from_secs(0));
}

#[test]
fn a_string_map_keeps_the_last_value() {
    let mut map = StringMap::new();
    assert!(map.get("a").is_none());
    map.insert("a".to_string(), "1".to_string());
    map.insert("b".to_string(), "2".to_string());
    map.insert("a".to_string(), "3".to_string());
    let copy = map.clone();
    assert_eq!(copy.get("a").unwrap(), "3");
    assert_eq!(copy.get("b").unwrap(), "2");
    assert!(copy.get("c").is_none());
}

#[test]
fn text_is_found_wherever_it_stands() {
    assert!(contains_text("compact", "compact"));
    assert!(contains_text("delete,compact", "compact"));
    assert!(contains_text("compcompact", "compact"));
    assert!(!contains_text("compac", "compact"));
    assert!(!contains_text("", "compact"));
    assert!(contains_text("anything", ""));
    assert!(contains_text("", ""));
    assert!(same_text("a\u{e9}", "a\u{e9}"));
    assert!(!same_text("a", "ab"));
    assert!(!same_text("ab", "ac"));
}
