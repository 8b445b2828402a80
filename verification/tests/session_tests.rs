use danmaku::session::{CommentEvent, Danmaku, DispatchOutcome};

fn event(color: &str, nickname: &str, body: &str) -> CommentEvent {
    CommentEvent {
        color: color.to_string(),
        nickname: nickname.to_string(),
        body: body.to_string(),
    }
}

// One lane, scroll duration 5000 ms, screen width 1920. Comment A
// (length 200) at t=0 takes lane 0; comment B (length 200) at t=100
// finds no lane; retried at t=5000 it takes lane 0 again.
#[test]
fn single_lane_reuse_after_exit() {
    // font size 540 gives exactly one active lane
    let mut s = Danmaku::new(540, 5000, 255, false, true);
    assert_eq!(s.get_avail_danmaku_channel(0, 200), Some(0));
    assert_eq!(s.get_avail_danmaku_channel(100, 200), None);
    assert_eq!(s.get_avail_danmaku_channel(5000, 200), Some(0));
}

#[test]
fn free_lanes_assigned_first_fit() {
    let mut s = Danmaku::new(40, 8000, 255, false, true);
    assert_eq!(s.get_avail_danmaku_channel(0, 100), Some(0));
    assert_eq!(s.get_avail_danmaku_channel(0, 100), Some(1));
    assert_eq!(s.get_avail_danmaku_channel(0, 100), Some(2));
}

// A whitespace-only nickname is always routed to the placeholder
// path, is consumed, and still advances the sequence counter, while
// lanes stay untouched.
#[test]
fn blank_nickname_suppressed_but_counted() {
    let mut s = Danmaku::new(40, 5000, 255, false, true);
    s.start();
    s.enqueue_event(event("ffffff", " \t ", "system message"));
    let before = s.read_order;
    let em = s.dispatch_front(10);
    assert!(matches!(em.outcome, DispatchOutcome::Suppressed));
    assert_eq!(s.read_order, before + 1);
    assert_eq!(s.dm_queue.len(), 0);
    assert!(s.dchannels.iter().all(|l| l.length == 0));
    // the placeholder cluster wraps the placeholder line
    let line = danmaku::ass::build_placeholder_line(before);
    let expected = danmaku::mkv_header::DMKVCluster::new(line.into_bytes(), 10, 1).to_bytes();
    assert_eq!(em.bytes, expected);
}

// A write failure stops the pipeline: the session leaves the running
// phase and the caller dispatches nothing further.
#[test]
fn write_failure_stops_session() {
    let mut s = Danmaku::new(40, 5000, 255, false, true);
    s.start();
    assert!(s.is_running());
    s.enqueue_event(event("ffffff", "alice", "hello"));
    let em = s.dispatch_front(5);
    assert!(matches!(em.outcome, DispatchOutcome::Shown(_)));
    s.note_write_failure();
    assert!(!s.is_running());
}

#[test]
fn shown_comment_writes_live_line_cluster() {
    let mut s = Danmaku::new(40, 5000, 255, false, true);
    s.start();
    s.enqueue_event(event("ff8800", "alice", "hello"));
    let em = s.dispatch_front(7);
    match em.outcome {
        DispatchOutcome::Shown(lane) => assert_eq!(lane, 0),
        other => panic!("expected a lane, got {:?}", other),
    }
    let dl = s.get_danmaku_display_length("alice", "hello");
    let line = danmaku::ass::build_live_line(0, false, "alice", "hello", 255, 40, "ff8800", 0, dl);
    assert_eq!(
        line,
        "0,0,Default,alice,0,0,0,,{\\alphaff\\fs40\\1c&0088ff&\\move(1920,0,-100,0)}hello"
    );
    let expected = danmaku::mkv_header::DMKVCluster::new(line.into_bytes(), 7, 5000).to_bytes();
    assert_eq!(em.bytes, expected);
    assert_eq!(s.dm_queue.len(), 0);
    assert_eq!(s.dchannels[0].length, dl);
    assert_eq!(s.dchannels[0].begin_pts, 7);
}

// When no lane accepts the comment, a placeholder is still written
// and counted, but the comment stays at the front of the queue.
#[test]
fn unavailable_emits_placeholder_and_retries() {
    let mut s = Danmaku::new(540, 5000, 255, false, true);
    s.start();
    s.enqueue_event(event("ffffff", "alice", "first"));
    s.enqueue_event(event("ffffff", "bob", "second"));
    let em1 = s.dispatch_front(0);
    assert!(matches!(em1.outcome, DispatchOutcome::Shown(0)));
    let em2 = s.dispatch_front(100);
    assert!(matches!(em2.outcome, DispatchOutcome::Unavailable));
    assert_eq!(s.read_order, 2);
    assert_eq!(s.dm_queue.len(), 1);
    assert_eq!(s.dm_queue[0].nickname, "bob");
    let line = danmaku::ass::build_placeholder_line(1);
    let expected = danmaku::mkv_header::DMKVCluster::new(line.into_bytes(), 100, 1).to_bytes();
    assert_eq!(em2.bytes, expected);
}

// A colour violating the six-digit contract is fatal.
#[test]
fn short_color_is_fatal() {
    let mut s = Danmaku::new(40, 5000, 255, false, true);
    s.start();
    s.enqueue_event(event("fff", "alice", "hello"));
    let em = s.dispatch_front(0);
    assert!(matches!(em.outcome, DispatchOutcome::Malformed));
    assert!(em.bytes.is_empty());
    assert!(!s.is_running());
    assert_eq!(s.dm_queue.len(), 1);
}

#[test]
fn preview_happens_once_per_pending_comment() {
    let mut s = Danmaku::new(40, 5000, 255, false, false);
    s.start();
    s.enqueue_event(event("ffffff", "alice", "hello"));
    let ins = s.inspect_front().unwrap();
    assert!(ins.preview);
    assert!(ins.consult_filter);
    let ins2 = s.inspect_front().unwrap();
    assert!(!ins2.preview);
    assert!(!ins2.consult_filter);
    assert!(s.inspect_front().is_some());
    s.drop_front();
    assert!(s.inspect_front().is_none());
}

#[test]
fn quiet_session_skips_preview_but_still_filters() {
    let mut s = Danmaku::new(40, 5000, 255, false, true);
    s.start();
    s.enqueue_event(event("ffffff", "alice", "hello"));
    let ins = s.inspect_front().unwrap();
    assert!(!ins.preview);
    assert!(ins.consult_filter);
}

#[test]
fn speed_accepted_only_within_bounds() {
    let mut s = Danmaku::new(40, 5000, 255, false, true);
    assert!(!s.set_speed(999));
    assert_eq!(s.speed, 5000);
    assert!(s.set_speed(1000));
    assert_eq!(s.speed, 1000);
    assert!(!s.set_speed(30000));
    assert_eq!(s.speed, 1000);
    assert!(s.set_speed(29999));
    assert_eq!(s.speed, 29999);
}

#[test]
fn font_size_rederives_lane_count() {
    let mut s = Danmaku::new(40, 5000, 255, false, true);
    assert_eq!(s.channel_num, 14);  // ceil(540 / 40)
    assert!(s.set_font_size(54));
    assert_eq!(s.channel_num, 10);
    assert!(s.set_font_size(541));
    assert_eq!(s.channel_num, 1);
    assert!(!s.set_font_size(0));
    assert_eq!(s.font_size, 541);
}

#[test]
fn toggle_show_nick_flips() {
    let mut s = Danmaku::new(40, 5000, 255, false, true);
    assert!(!s.show_nick);
    s.toggle_show_nick();
    assert!(s.show_nick);
    s.toggle_show_nick();
    assert!(!s.show_nick);
}

#[test]
fn reset_frees_lanes_and_counter() {
    let mut s = Danmaku::new(40, 5000, 255, false, true);
    s.start();
    s.enqueue_event(event("ffffff", "alice", "hello"));
    let _ = s.dispatch_front(0);
    assert!(s.read_order > 0);
    assert!(s.dchannels[0].length > 0);
    s.reset();
    assert_eq!(s.read_order, 0);
    assert!(s.dchannels.iter().all(|l| l.length == 0 && l.begin_pts == 0));
}

#[test]
fn nickname_prefix_when_shown() {
    let mut s = Danmaku::new(40, 5000, 255, true, true);
    s.start();
    s.enqueue_event(event("ffffff", "alice", "hi"));
    let em = s.dispatch_front(0);
    assert!(matches!(em.outcome, DispatchOutcome::Shown(0)));
    let needle = b"alice: hi";
    assert!(em.bytes.windows(needle.len()).any(|w| w == needle));
}

// The emoji filter runs on the body before the line is encoded.
#[test]
fn emoji_filtered_before_encoding() {
    let mut s = Danmaku::new(40, 5000, 255, false, true);
    s.start();
    s.enqueue_event(event("ffffff", "alice", "hi\u{1F600}"));
    let em = s.dispatch_front(0);
    assert!(matches!(em.outcome, DispatchOutcome::Shown(0)));
    let needle = b"hi[em]";
    assert!(em.bytes.windows(needle.len()).any(|w| w == needle));
}

#[test]
fn video_cid_stored() {
    let mut s = Danmaku::new(40, 5000, 255, false, true);
    s.set_bili_video_cid("123456");
    assert_eq!(s.bili_video_cid, "123456");
    s.set_font_alpha(128);
    assert_eq!(s.font_alpha, 128);
}

#[test]
fn empty_body_still_shown() {
    let mut s = Danmaku::new(40, 5000, 255, false, true);
    s.start();
    // an empty body skips preview and filter, but is dispatched
    assert!(s.inspect_front().is_none());
    s.enqueue_event(event("ffffff", "alice", ""));
    let ins = s.inspect_front().unwrap();
    assert!(!ins.preview);
    assert!(!ins.consult_filter);
    let em = s.dispatch_front(0);
    assert!(matches!(em.outcome, DispatchOutcome::Shown(0)));
    assert_eq!(s.dm_queue.len(), 0);
}

#[test]
fn placeholder_line_text() {
    assert_eq!(
        danmaku::ass::build_placeholder_line(3),
        "3,0,Default,placeholder,20,20,2,,"
    );
}
