use danmaku::text::display_length;
use danmaku::emoji::filter_emoji;
use danmaku::fmt::{ass_time, dec_u64, hex2_u8, neg_dec_u64};
use danmaku::session::Danmaku;

#[test]
fn ascii_characters_weigh_half_a_font_size() {
    // 2 ASCII characters at font size 40, unit ratio: 2 * 20 px
    assert_eq!(display_length(false, "", "ab", 40, 1000), 40);
}

#[test]
fn wide_characters_weigh_three_quarters() {
    assert_eq!(display_length(false, "", "\u{4e2d}", 40, 1000), 30);
    // mixed: 30 + 20, and the result rounds to nearest
    assert_eq!(display_length(false, "", "\u{4e2d}a", 40, 1000), 50);
}

#[test]
fn nickname_adds_separator_unit_when_shown() {
    // body "ab" = 40 px, nick "c" = 20 px, separator = 30 px
    assert_eq!(display_length(true, "c", "ab", 40, 1000), 90);
    assert_eq!(display_length(false, "c", "ab", 40, 1000), 40);
}

#[test]
fn ratio_scales_and_rounds_to_nearest() {
    // 40 px at ratio 1.5 -> 60; at ratio 0.333 -> 13.32 -> 13
    assert_eq!(display_length(false, "", "ab", 40, 1500), 60);
    assert_eq!(display_length(false, "", "ab", 40, 333), 13);
}

// Adding characters never decreases the estimate.
#[test]
fn display_length_monotone_in_body() {
    let s = Danmaku::new(40, 5000, 255, false, true);
    let mut prev = 0u64;
    let mut body = String::new();
    for c in ["a", "\u{4e2d}", "!", "\u{1F600}", "z"] {
        body.push_str(c);
        let cur = s.get_danmaku_display_length("nick", &body);
        assert!(cur >= prev);
        prev = cur;
    }
}

#[test]
fn emoji_ranges_replaced_with_marker() {
    assert_eq!(filter_emoji("a\u{1F600}b"), "a[em]b");
    assert_eq!(filter_emoji("\u{2705}ok"), "[em]ok");
    // the character class includes the vertical bar as a literal
    assert_eq!(filter_emoji("a|b"), "a[em]b");
    assert_eq!(filter_emoji("plain text"), "plain text");
    assert_eq!(filter_emoji(""), "");
}

#[test]
fn ass_times_are_truncated_to_centiseconds() {
    assert_eq!(ass_time(0), " 0:00:00.00");
    assert_eq!(ass_time(5000), " 0:00:05.00");
    assert_eq!(ass_time(3723456), " 1:02:03.45");
    assert_eq!(ass_time(13 * 3600000 + 59 * 60000 + 59999), "13:59:59.99");
    // wraps around at one day
    assert_eq!(ass_time(24 * 3600000 + 1500), " 0:00:01.50");
}

#[test]
fn number_formatting() {
    assert_eq!(dec_u64(0), "0");
    assert_eq!(dec_u64(10500), "10500");
    assert_eq!(neg_dec_u64(0), "0");
    assert_eq!(neg_dec_u64(137), "-137");
    assert_eq!(hex2_u8(255), "ff");
    assert_eq!(hex2_u8(0), "00");
    assert_eq!(hex2_u8(0x8a), "8a");
}
