use danmaku::batch::{batch_insert_event, parse_sec_ms, trimmed_eq, BatchSet};
use danmaku::ass::ass_header_text;
use danmaku::session::Danmaku;

#[test]
fn seconds_parse_to_milliseconds() {
    assert_eq!(parse_sec_ms("12.345"), Some(12345));
    assert_eq!(parse_sec_ms("12"), Some(12000));
    assert_eq!(parse_sec_ms("0.5"), Some(500));
    assert_eq!(parse_sec_ms(".5"), Some(500));
    assert_eq!(parse_sec_ms("7."), Some(7000));
    // a fourth fractional digit is truncated, not rounded
    assert_eq!(parse_sec_ms("1.2345"), Some(1234));
    assert_eq!(parse_sec_ms("1.9999"), Some(1999));
}

#[test]
fn malformed_seconds_rejected() {
    assert_eq!(parse_sec_ms(""), None);
    assert_eq!(parse_sec_ms("."), None);
    assert_eq!(parse_sec_ms("abc"), None);
    assert_eq!(parse_sec_ms("1.2.3"), None);
    assert_eq!(parse_sec_ms("-1.5"), None);
    assert_eq!(parse_sec_ms("1e3"), None);
    // beyond the largest presentation timestamp
    assert_eq!(parse_sec_ms("99999999999"), None);
}

#[test]
fn trimming_kind_fields() {
    assert!(trimmed_eq(" 4 ", '4'));
    assert!(trimmed_eq("4", '4'));
    assert!(trimmed_eq("\t5\n", '5'));
    assert!(!trimmed_eq("45", '4'));
    assert!(!trimmed_eq("", '4'));
    assert!(!trimmed_eq("   ", '4'));
}

// Two batch comments with the identical integer-millisecond key:
// only the later-inserted one remains in the set and the compiled
// document.
#[test]
fn same_key_keeps_later_comment() {
    let mut set = BatchSet::new();
    assert!(batch_insert_event(&mut set, "ffffff", "3.000,1", "early"));
    assert!(batch_insert_event(&mut set, "ffffff", "3.0,1", "late"));
    assert_eq!(set.entries.len(), 1);
    assert_eq!(set.entries[0].0, 3000);
    assert_eq!(set.entries[0].1.body, "late");

    let mut s = Danmaku::new(40, 5000, 255, false, true);
    let doc = s.compile_batch_document(&set);
    assert!(doc.contains("late"));
    assert!(!doc.contains("early"));
}

#[test]
fn entries_kept_in_time_order() {
    let mut set = BatchSet::new();
    assert!(batch_insert_event(&mut set, "ffffff", "9.5,1", "third"));
    assert!(batch_insert_event(&mut set, "ffffff", "0.25,1", "first"));
    assert!(batch_insert_event(&mut set, "ffffff", "4,1", "second"));
    let keys: Vec<u64> = set.entries.iter().map(|e| e.0).collect();
    assert_eq!(keys, vec![250, 4000, 9500]);
}

#[test]
fn malformed_batch_events_rejected() {
    let mut set = BatchSet::new();
    // no comma in the nickname field
    assert!(!batch_insert_event(&mut set, "ffffff", "3.5", "x"));
    // unparseable time
    assert!(!batch_insert_event(&mut set, "ffffff", "x,1", "x"));
    // short colour
    assert!(!batch_insert_event(&mut set, "fff", "3.5,1", "x"));
    assert_eq!(set.entries.len(), 0);
}

#[test]
fn compiled_document_layout() {
    let mut set = BatchSet::new();
    assert!(batch_insert_event(&mut set, "ff8800", "5,1", "ab"));
    let mut s = Danmaku::new(40, 5000, 255, false, true);
    let doc = s.compile_batch_document(&set);
    let expected_line = "Dialogue: 0, 0:00:05.00, 0:00:10.00,Default,,0,0,0,,\
        {\\alphaff\\fs40\\1c&0088ff&\\move(1920,0,-40,0)}ab\n";
    let expected = format!("{}{}", ass_header_text(), expected_line);
    assert_eq!(doc, expected);
}

// Fixed-position comments bypass the allocator and anchor to the
// bottom or the top.
#[test]
fn fixed_position_comments_anchor() {
    let mut set = BatchSet::new();
    assert!(batch_insert_event(&mut set, "ffffff", "1,4", "bottom text"));
    assert!(batch_insert_event(&mut set, "ffffff", "2, 5 ", "top text"));
    let mut s = Danmaku::new(40, 5000, 255, false, true);
    let doc = s.compile_batch_document(&set);
    assert!(doc.contains("\\an2}bottom text"));
    assert!(doc.contains("\\an8}top text"));
    // no lane was consumed
    assert!(s.dchannels.iter().all(|l| l.length == 0));
}

// A scrolling batch comment that finds no lane is left out of the
// document.
#[test]
fn crowded_scroll_comment_dropped() {
    let mut set = BatchSet::new();
    assert!(batch_insert_event(&mut set, "ffffff", "1.000,1", "kept"));
    assert!(batch_insert_event(&mut set, "ffffff", "1.001,1", "dropped"));
    // one active lane only
    let mut s = Danmaku::new(540, 5000, 255, false, true);
    let doc = s.compile_batch_document(&set);
    assert!(doc.contains("kept"));
    assert!(!doc.contains("dropped"));
}

#[test]
fn seconds_boundary_at_largest_timestamp() {
    // the largest presentation timestamp the core accepts
    assert_eq!(parse_sec_ms("4294967.295"), Some(4294967295));
    assert_eq!(parse_sec_ms("4294967.296"), None);
}
