//! The per-session state and the live dispatch logic: one owner
//! drains the inbound queue, previews and filters each front item,
//! estimates and allocates a lane for it, and hands back the encoded
//! cluster to write, advancing the monotonic sequence counter once
//! per attempted comment.

use vstd::prelude::*;
use vstd::pervasive::VecAdditionalExecFns;
use std::collections::VecDeque;
use vstd::utf8::encode_utf8;
use crate::{LANE_CAPACITY, WARMUP_THRESHOLD};
use crate::lanes::{
    DanmakuChannel, lanes_wf, spec_find_lane, find_avail_channel, active_lane_count, MAX_PTS,
    MAX_SPEED, MIN_SPEED,
};
use crate::text::{
    display_length, spec_display_length, is_blank, spec_blank, MAX_FONT_SIZE, MAX_RATIO_MILLI,
    MAX_TEXT_CHARS, MAX_EST_CHARS,
};
use crate::emoji::{filter_emoji, spec_emoji_filtered};
use crate::ass::{
    build_live_line, build_placeholder_line, spec_live_line_chars, spec_placeholder_line_chars,
    spec_valid_color, lemma_encode_utf8_len,
};
use crate::mkv_header::{DMKVCluster, spec_encoded_cluster, lemma_cluster_bytes_encoded};

verus! {

/// One inbound comment: its colour in `RRGGBB` hex, the sender's
/// nickname, and the body text.
#[derive(Debug)]
pub struct CommentEvent {
    pub color: String,
    pub nickname: String,
    pub body: String,
}

/// An event the session can work on: its text sizes are within the
/// machine bounds of the estimator.
pub open spec fn spec_event_ok(ev: CommentEvent) -> bool {
    ev.nickname@.len() + ev.body@.len() <= MAX_TEXT_CHARS
}

/// Lifecycle of a live session.
#[derive(Clone, Copy, Debug, PartialEq, Eq, Structural)]
pub enum SessionPhase {
    Idle,
    Running,
    Stopped,
}

/// How one dispatched comment ended.
#[derive(Clone, Copy, Debug, PartialEq, Eq, Structural)]
pub enum DispatchOutcome {
    /// Assigned to a lane; a normal cluster was produced and the
    /// comment was consumed.
    Shown(usize),
    /// Nickname was blank: routed to the placeholder path, consumed
    /// and counted, never shown.
    Suppressed,
    /// No lane free: a placeholder cluster was produced, but the
    /// comment stays queued for a later pass.
    Unavailable,
    /// The event violates its contract (a colour without six
    /// digits): fatal for the session, nothing produced.
    Malformed,
}

/// What a dispatch step hands back: the cluster bytes to append to
/// the output stream, and how the comment fared.
pub struct Emission {
    pub bytes: Vec<u8>,
    pub outcome: DispatchOutcome,
}

/// The encoded placeholder cluster for a sequence number and a
/// presentation timestamp; placeholders stay visible for one
/// millisecond.
pub open spec fn spec_placeholder_cluster(read_order: int, c_pts: u64) -> Seq<u8> {
    spec_encoded_cluster(encode_utf8(spec_placeholder_line_chars(read_order)), c_pts, 1u32)
}

/// Preview and filter decisions for the front item of the queue.
#[derive(Clone, Copy, Debug, PartialEq, Eq, Structural)]
pub struct FrontInspection {
    /// Surface the front item's text to the console once.
    pub preview: bool,
    /// Run the content filter over the front item's body.
    pub consult_filter: bool,
}

/// The state one overlay session owns: configuration mirrored from
/// its owner as plain values, the lane collection, the monotonic
/// sequence counter, the inbound queue, and the lifecycle phase.
pub struct Danmaku {
    pub show_nick: bool,
    pub font_size: u64,
    pub channel_num: usize,
    pub ratio_scale_milli: u64,
    pub read_order: u64,
    pub speed: u64,
    pub font_alpha: u8,
    pub quiet: bool,
    pub bili_video_cid: String,
    pub dchannels: Vec<DanmakuChannel>,
    pub phase: SessionPhase,
    pub dm_queue: VecDeque<CommentEvent>,
    pub printed: bool,
}

impl Danmaku {
    /// The session invariant: configuration within bounds, the lane
    /// collection at capacity, and the active-lane count derived
    /// from the font size (how many lanes fit in the upper half of
    /// the screen).
    pub open spec fn wf(self) -> bool {
        &&& 1 <= self.font_size <= MAX_FONT_SIZE
        &&& 1 <= self.ratio_scale_milli <= MAX_RATIO_MILLI
        &&& MIN_SPEED <= self.speed < MAX_SPEED
        &&& self.dchannels@.len() == LANE_CAPACITY
        &&& lanes_wf(self.dchannels@)
        &&& self.channel_num as int == (540 + self.font_size - 1) as int / self.font_size as int
    }

    /// The configuration fields two session states share.
    pub open spec fn same_config(self, other: Danmaku) -> bool {
        &&& self.show_nick == other.show_nick
        &&& self.font_size == other.font_size
        &&& self.channel_num == other.channel_num
        &&& self.ratio_scale_milli == other.ratio_scale_milli
        &&& self.speed == other.speed
        &&& self.font_alpha == other.font_alpha
        &&& self.quiet == other.quiet
        &&& self.bili_video_cid@ == other.bili_video_cid@
    }

    /// Every lane is free.
    pub open spec fn all_lanes_free(self) -> bool {
        forall|i: int|
            0 <= i < self.dchannels@.len() ==> (#[trigger] self.dchannels@[i]).length == 0
                && self.dchannels@[i].begin_pts == 0
    }

    /// Creates a session in the idle phase, with every lane free, the
    /// sequence counter at zero, an empty queue and a unit display
    /// ratio.
    pub fn new(font_size: u64, speed: u64, font_alpha: u8, show_nick: bool, quiet: bool) -> (r:
        Self)
        requires
            1 <= font_size <= MAX_FONT_SIZE,
            MIN_SPEED <= speed < MAX_SPEED,
        ensures
            r.wf(),
            r.font_size == font_size,
            r.speed == speed,
            r.font_alpha == font_alpha,
            r.show_nick == show_nick,
            r.quiet == quiet,
            r.ratio_scale_milli == 1000,
            r.read_order == 0,
            r.phase == SessionPhase::Idle,
            r.all_lanes_free(),
            r.dm_queue@.len() == 0,
            r.printed == false,
            r.bili_video_cid@ == Seq::<char>::empty(),
    {
        let ch: Vec<DanmakuChannel> = vec![DanmakuChannel { length: 0, begin_pts: 0 };LANE_CAPACITY];
        let channel_num: u64 = (540 + font_size - 1) / font_size;
        Danmaku {
            show_nick,
            font_size,
            channel_num: channel_num as usize,
            ratio_scale_milli: 1000,
            read_order: 0,
            speed,
            font_alpha,
            quiet,
            bili_video_cid: String::new(),
            dchannels: ch,
            phase: SessionPhase::Idle,
            dm_queue: VecDeque::new(),
            printed: false,
        }
    }

    /// Frees every lane and zeroes the sequence counter; the session
    /// starts over.
    pub fn reset(&mut self)
        requires
            old(self).wf(),
        ensures
            final(self).wf(),
            old(self).same_config(*final(self)),
            final(self).all_lanes_free(),
            final(self).read_order == 0,
            final(self).phase == old(self).phase,
            final(self).dm_queue@ == old(self).dm_queue@,
            final(self).printed == old(self).printed,
    {
        let n: usize = self.dchannels.len();
        let mut i: usize = 0;
        while i < n
            invariant
                i <= n,
                n == self.dchannels@.len(),
                self.dchannels@.len() == old(self).dchannels@.len(),
                lanes_wf(self.dchannels@),
                forall|j: int|
                    0 <= j < i ==> (#[trigger] self.dchannels@[j]).length == 0
                        && self.dchannels@[j].begin_pts == 0,
                self.show_nick == old(self).show_nick,
                self.font_size == old(self).font_size,
                self.channel_num == old(self).channel_num,
                self.ratio_scale_milli == old(self).ratio_scale_milli,
                self.speed == old(self).speed,
                self.font_alpha == old(self).font_alpha,
                self.quiet == old(self).quiet,
                self.bili_video_cid@ == old(self).bili_video_cid@,
                self.phase == old(self).phase,
                self.dm_queue@ == old(self).dm_queue@,
                self.printed == old(self).printed,
                self.read_order == old(self).read_order,
            decreases n - i,
        {
            self.dchannels.set(i, DanmakuChannel { length: 0, begin_pts: 0 });
            i += 1;
        }
        self.read_order = 0;
    }

    /// Starts a live session: lanes freed, counter zeroed, queue
    /// cleared, phase running. The caller writes the stream header.
    pub fn start(&mut self)
        requires
            old(self).wf(),
        ensures
            final(self).wf(),
            old(self).same_config(*final(self)),
            final(self).all_lanes_free(),
            final(self).read_order == 0,
            final(self).phase == SessionPhase::Running,
            final(self).dm_queue@.len() == 0,
            final(self).printed == false,
    {
        self.reset();
        self.dm_queue.clear();
        self.printed = false;
        self.phase = SessionPhase::Running;
    }

    /// Records a fatal output-stream failure: the session stops and
    /// dispatches nothing further.
    pub fn note_write_failure(&mut self)
        ensures
            final(self).phase == SessionPhase::Stopped,
            old(self).same_config(*final(self)),
            final(self).dchannels@ == old(self).dchannels@,
            final(self).dm_queue@ == old(self).dm_queue@,
            final(self).read_order == old(self).read_order,
            final(self).printed == old(self).printed,
    {
        self.phase = SessionPhase::Stopped;
    }

    /// Whether the session is in the running phase.
    pub fn is_running(&self) -> (r: bool)
        ensures
            r == (self.phase == SessionPhase::Running),
    {
        matches!(self.phase, SessionPhase::Running)
    }

    /// Accepts a scroll duration within its configured bounds;
    /// anything else leaves the setting untouched.
    pub fn set_speed(&mut self, speed: u64) -> (r: bool)
        requires
            old(self).wf(),
        ensures
            final(self).wf(),
            r == (MIN_SPEED <= speed < MAX_SPEED),
            final(self).speed == (if r {
                speed
            } else {
                old(self).speed
            }),
            final(self).show_nick == old(self).show_nick,
            final(self).font_size == old(self).font_size,
            final(self).channel_num == old(self).channel_num,
            final(self).ratio_scale_milli == old(self).ratio_scale_milli,
            final(self).font_alpha == old(self).font_alpha,
            final(self).quiet == old(self).quiet,
            final(self).bili_video_cid@ == old(self).bili_video_cid@,
            final(self).dchannels@ == old(self).dchannels@,
            final(self).dm_queue@ == old(self).dm_queue@,
            final(self).read_order == old(self).read_order,
            final(self).phase == old(self).phase,
            final(self).printed == old(self).printed,
    {
        if MIN_SPEED <= speed && speed < MAX_SPEED {
            self.speed = speed;
            true
        } else {
            false
        }
    }

    /// Accepts a font size within its bounds and re-derives the
    /// active-lane count from it; anything else leaves both
    /// untouched.
    pub fn set_font_size(&mut self, font_size: u64) -> (r: bool)
        requires
            old(self).wf(),
        ensures
            final(self).wf(),
            r == (1 <= font_size <= MAX_FONT_SIZE),
            final(self).font_size == (if r {
                font_size
            } else {
                old(self).font_size
            }),
            r ==> final(self).channel_num as int == (540 + font_size - 1) as int
                / font_size as int,
            !r ==> final(self).channel_num == old(self).channel_num,
            final(self).show_nick == old(self).show_nick,
            final(self).speed == old(self).speed,
            final(self).ratio_scale_milli == old(self).ratio_scale_milli,
            final(self).font_alpha == old(self).font_alpha,
            final(self).quiet == old(self).quiet,
            final(self).bili_video_cid@ == old(self).bili_video_cid@,
            final(self).dchannels@ == old(self).dchannels@,
            final(self).dm_queue@ == old(self).dm_queue@,
            final(self).read_order == old(self).read_order,
            final(self).phase == old(self).phase,
            final(self).printed == old(self).printed,
    {
        if 1 <= font_size && font_size <= MAX_FONT_SIZE {
            self.font_size = font_size;
            let channel_num: u64 = (540 + font_size - 1) / font_size;
            self.channel_num = channel_num as usize;
            true
        } else {
            false
        }
    }

    /// Sets the opacity byte the dialogue lines carry.
    pub fn set_font_alpha(&mut self, font_alpha: u8)
        requires
            old(self).wf(),
        ensures
            final(self).wf(),
            final(self).font_alpha == font_alpha,
            final(self).show_nick == old(self).show_nick,
            final(self).font_size == old(self).font_size,
            final(self).channel_num == old(self).channel_num,
            final(self).ratio_scale_milli == old(self).ratio_scale_milli,
            final(self).speed == old(self).speed,
            final(self).quiet == old(self).quiet,
            final(self).bili_video_cid@ == old(self).bili_video_cid@,
            final(self).dchannels@ == old(self).dchannels@,
            final(self).dm_queue@ == old(self).dm_queue@,
            final(self).read_order == old(self).read_order,
            final(self).phase == old(self).phase,
            final(self).printed == old(self).printed,
    {
        self.font_alpha = font_alpha;
    }

    /// Accepts a display-ratio scale (in thousandths) within its
    /// bounds; anything else leaves the setting untouched.
    pub fn set_ratio_scale(&mut self, ratio_milli: u64) -> (r: bool)
        requires
            old(self).wf(),
        ensures
            final(self).wf(),
            r == (1 <= ratio_milli <= MAX_RATIO_MILLI),
            final(self).ratio_scale_milli == (if r {
                ratio_milli
            } else {
                old(self).ratio_scale_milli
            }),
            final(self).show_nick == old(self).show_nick,
            final(self).font_size == old(self).font_size,
            final(self).channel_num == old(self).channel_num,
            final(self).speed == old(self).speed,
            final(self).font_alpha == old(self).font_alpha,
            final(self).quiet == old(self).quiet,
            final(self).bili_video_cid@ == old(self).bili_video_cid@,
            final(self).dchannels@ == old(self).dchannels@,
            final(self).dm_queue@ == old(self).dm_queue@,
            final(self).read_order == old(self).read_order,
            final(self).phase == old(self).phase,
            final(self).printed == old(self).printed,
    {
        if 1 <= ratio_milli && ratio_milli <= MAX_RATIO_MILLI {
            self.ratio_scale_milli = ratio_milli;
            true
        } else {
            false
        }
    }

    /// Flips whether nicknames are shown before comment bodies.
    pub fn toggle_show_nick(&mut self)
        requires
            old(self).wf(),
        ensures
            final(self).wf(),
            final(self).show_nick == !old(self).show_nick,
            final(self).font_size == old(self).font_size,
            final(self).channel_num == old(self).channel_num,
            final(self).ratio_scale_milli == old(self).ratio_scale_milli,
            final(self).speed == old(self).speed,
            final(self).font_alpha == old(self).font_alpha,
            final(self).quiet == old(self).quiet,
            final(self).bili_video_cid@ == old(self).bili_video_cid@,
            final(self).dchannels@ == old(self).dchannels@,
            final(self).dm_queue@ == old(self).dm_queue@,
            final(self).read_order == old(self).read_order,
            final(self).phase == old(self).phase,
            final(self).printed == old(self).printed,
    {
        self.show_nick = !self.show_nick;
    }

    /// Remembers the media identifier the batch fetcher asks for.
    pub fn set_bili_video_cid(&mut self, cid: &str)
        requires
            old(self).wf(),
        ensures
            final(self).wf(),
            final(self).bili_video_cid@ == cid@,
            final(self).show_nick == old(self).show_nick,
            final(self).font_size == old(self).font_size,
            final(self).channel_num == old(self).channel_num,
            final(self).ratio_scale_milli == old(self).ratio_scale_milli,
            final(self).speed == old(self).speed,
            final(self).font_alpha == old(self).font_alpha,
            final(self).quiet == old(self).quiet,
            final(self).dchannels@ == old(self).dchannels@,
            final(self).dm_queue@ == old(self).dm_queue@,
            final(self).read_order == old(self).read_order,
            final(self).phase == old(self).phase,
            final(self).printed == old(self).printed,
    {
        self.bili_video_cid = String::from_str(cid);
    }

    /// Estimated on-screen width of one comment under the session's
    /// current font size, ratio and nickname setting.
    pub fn get_danmaku_display_length(&self, nick: &str, dm: &str) -> (r: u64)
        requires
            self.wf(),
            nick@.len() + dm@.len() <= MAX_EST_CHARS,
        ensures
            r == spec_display_length(
                self.show_nick,
                nick@,
                dm@,
                self.font_size as int,
                self.ratio_scale_milli as int,
            ),
            r <= crate::lanes::MAX_LEN,
    {
        display_length(self.show_nick, nick, dm, self.font_size, self.ratio_scale_milli)
    }

    /// First-fit lane allocation for a candidate arriving at `c_pts`
    /// with display length `len`; assigns and records the candidate,
    /// or reports that every active lane would collide.
    pub fn get_avail_danmaku_channel(&mut self, c_pts: u64, len: u64) -> (r: Option<usize>)
        requires
            old(self).wf(),
            c_pts <= MAX_PTS,
            len <= crate::lanes::MAX_LEN,
        ensures
            final(self).wf(),
            old(self).same_config(*final(self)),
            final(self).dm_queue@ == old(self).dm_queue@,
            final(self).read_order == old(self).read_order,
            final(self).phase == old(self).phase,
            final(self).printed == old(self).printed,
            ({
                let sf = spec_find_lane(
                    old(self).dchannels@,
                    old(self).channel_num as int,
                    old(self).speed as int,
                    c_pts as int,
                    len as int,
                );
                match r {
                    Some(i) => {
                        &&& sf == Some(i as int)
                        &&& i < active_lane_count(old(self).dchannels@, old(self).channel_num as int)
                        &&& final(self).dchannels@ == old(self).dchannels@.update(
                            i as int,
                            DanmakuChannel { length: len, begin_pts: c_pts },
                        )
                    },
                    None => {
                        &&& sf is None
                        &&& final(self).dchannels@ == old(self).dchannels@
                    },
                }
            }),
    {
        find_avail_channel(&mut self.dchannels, self.channel_num, self.speed, c_pts, len)
    }

    /// Whether the live loop should pace itself on the tick interval:
    /// only after the warm-up threshold, so that a backlog drains
    /// quickly at startup.
    pub fn needs_pacing(&self) -> (r: bool)
        ensures
            r == (self.read_order > WARMUP_THRESHOLD),
    {
        self.read_order > WARMUP_THRESHOLD
    }

    /// Looks at the front of the queue and decides, once per distinct
    /// pending comment, whether to surface it to the console and
    /// whether to run the content filter over it. Marks the front
    /// item as surfaced when it is previewed.
    pub fn inspect_front(&mut self) -> (r: Option<FrontInspection>)
        ensures
            old(self).same_config(*final(self)),
            final(self).dchannels@ == old(self).dchannels@,
            final(self).dm_queue@ == old(self).dm_queue@,
            final(self).read_order == old(self).read_order,
            final(self).phase == old(self).phase,
            match r {
                None => {
                    &&& old(self).dm_queue@.len() == 0
                    &&& final(self).printed == old(self).printed
                },
                Some(ins) => {
                    &&& old(self).dm_queue@.len() > 0
                    &&& ins.consult_filter == (old(self).dm_queue@[0].body@.len() > 0 && !old(
                        self,
                    ).printed)
                    &&& ins.preview == (ins.consult_filter && !old(self).quiet)
                    &&& final(self).printed == (old(self).printed || ins.preview)
                },
            },
    {
        if self.dm_queue.len() == 0 {
            return None;
        }
        let body_nonempty: bool = !self.dm_queue[0].body.as_str().is_empty();
        let consult_filter = body_nonempty && !self.printed;
        let preview = consult_filter && !self.quiet;
        if preview {
            self.printed = true;
        }
        Some(FrontInspection { preview, consult_filter })
    }

    /// Discards the front item without encoding anything: the content
    /// filter rejected it.
    pub fn drop_front(&mut self)
        requires
            old(self).dm_queue@.len() > 0,
        ensures
            old(self).same_config(*final(self)),
            final(self).dchannels@ == old(self).dchannels@,
            final(self).dm_queue@ == old(self).dm_queue@.drop_first(),
            final(self).read_order == old(self).read_order,
            final(self).phase == old(self).phase,
            final(self).printed == false,
    {
        let _ = self.dm_queue.pop_front();
        self.printed = false;
        proof {
            assert(self.dm_queue@ =~= old(self).dm_queue@.drop_first());
        }
    }

    /// Pushes one inbound event onto the back of the queue.
    pub fn enqueue_event(&mut self, ev: CommentEvent)
        ensures
            old(self).same_config(*final(self)),
            final(self).dchannels@ == old(self).dchannels@,
            final(self).dm_queue@ == old(self).dm_queue@.push(ev),
            final(self).read_order == old(self).read_order,
            final(self).phase == old(self).phase,
            final(self).printed == old(self).printed,
    {
        self.dm_queue.push_back(ev);
    }

    /// Dispatches one comment, already emoji-filtered: blank-nickname
    /// comments go to the placeholder path and count; otherwise the
    /// comment is estimated and allocated, and either a normal
    /// cluster (lane assigned) or a placeholder cluster (no lane, to
    /// be retried) is produced. The sequence counter advances once
    /// per attempt. A colour that violates the event contract stops
    /// the session.
    pub fn launch_single_danmaku(&mut self, c: &str, n: &str, d: &str, c_pts: u64) -> (r: Emission)
        requires
            old(self).wf(),
            old(self).phase == SessionPhase::Running,
            old(self).read_order < u64::MAX,
            c_pts <= MAX_PTS,
            n@.len() + d@.len() <= MAX_EST_CHARS,
        ensures
            final(self).wf(),
            old(self).same_config(*final(self)),
            final(self).dm_queue@ == old(self).dm_queue@,
            final(self).printed == old(self).printed,
            ({
                let dl = spec_display_length(
                    old(self).show_nick,
                    n@,
                    d@,
                    old(self).font_size as int,
                    old(self).ratio_scale_milli as int,
                );
                let sf = spec_find_lane(
                    old(self).dchannels@,
                    old(self).channel_num as int,
                    old(self).speed as int,
                    c_pts as int,
                    dl,
                );
                match r.outcome {
                    DispatchOutcome::Suppressed => {
                        &&& spec_blank(n@)
                        &&& r.bytes@ == spec_placeholder_cluster(old(self).read_order as int, c_pts)
                        &&& final(self).read_order == old(self).read_order + 1
                        &&& final(self).dchannels@ == old(self).dchannels@
                        &&& final(self).phase == SessionPhase::Running
                    },
                    DispatchOutcome::Malformed => {
                        &&& !spec_blank(n@)
                        &&& !spec_valid_color(c@)
                        &&& r.bytes@.len() == 0
                        &&& final(self).read_order == old(self).read_order
                        &&& final(self).dchannels@ == old(self).dchannels@
                        &&& final(self).phase == SessionPhase::Stopped
                    },
                    DispatchOutcome::Shown(lane) => {
                        &&& !spec_blank(n@)
                        &&& spec_valid_color(c@)
                        &&& sf == Some(lane as int)
                        &&& final(self).dchannels@ == old(self).dchannels@.update(
                            lane as int,
                            DanmakuChannel { length: dl as u64, begin_pts: c_pts },
                        )
                        &&& r.bytes@ == spec_encoded_cluster(
                            encode_utf8(
                                spec_live_line_chars(
                                    old(self).read_order as int,
                                    old(self).show_nick,
                                    n@,
                                    d@,
                                    old(self).font_alpha as int,
                                    old(self).font_size as int,
                                    c@,
                                    lane * old(self).font_size as int,
                                    dl,
                                ),
                            ),
                            c_pts,
                            old(self).speed as u32,
                        )
                        &&& final(self).read_order == old(self).read_order + 1
                        &&& final(self).phase == SessionPhase::Running
                    },
                    DispatchOutcome::Unavailable => {
                        &&& !spec_blank(n@)
                        &&& spec_valid_color(c@)
                        &&& sf is None
                        &&& final(self).dchannels@ == old(self).dchannels@
                        &&& r.bytes@ == spec_placeholder_cluster(old(self).read_order as int, c_pts)
                        &&& final(self).read_order == old(self).read_order + 1
                        &&& final(self).phase == SessionPhase::Running
                    },
                }
            }),
    {
        if is_blank(n) {
            let line = build_placeholder_line(self.read_order);
            proof {
                lemma_encode_utf8_len(line@);
            }
            let ass = line.as_str().as_bytes_vec();
            let cluster = DMKVCluster::new(ass, c_pts as usize, 1);
            let bytes = cluster.to_bytes();
            proof {
                lemma_cluster_bytes_encoded(
                    cluster,
                    encode_utf8(spec_placeholder_line_chars(self.read_order as int)),
                    c_pts,
                    1u32,
                );
            }
            self.read_order = self.read_order + 1;
            Emission { bytes, outcome: DispatchOutcome::Suppressed }
        } else if c.unicode_len() < 6 {
            self.phase = SessionPhase::Stopped;
            Emission { bytes: Vec::new(), outcome: DispatchOutcome::Malformed }
        } else {
            let dl = display_length(self.show_nick, n, d, self.font_size, self.ratio_scale_milli);
            match find_avail_channel(
                &mut self.dchannels,
                self.channel_num,
                self.speed,
                c_pts,
                dl,
            ) {
                Some(lane) => {
                    proof {
                        assert(lane < LANE_CAPACITY);
                        assert((lane as int) * (self.font_size as int) <= 30 * 10000)
                            by (nonlinear_arith)
                            requires
                                (lane as int) >= 0,
                                (lane as int) < 30,
                                (self.font_size as int) >= 0,
                                (self.font_size as int) <= 10000,
                        ;
                    }
                    let y: u64 = (lane as u64) * self.font_size;
                    let line = build_live_line(
                        self.read_order,
                        self.show_nick,
                        n,
                        d,
                        self.font_alpha,
                        self.font_size,
                        c,
                        y,
                        dl,
                    );
                    proof {
                        lemma_encode_utf8_len(line@);
                    }
                    let ass = line.as_str().as_bytes_vec();
                    let cluster = DMKVCluster::new(ass, c_pts as usize, self.speed as usize);
                    let bytes = cluster.to_bytes();
                    proof {
                        lemma_cluster_bytes_encoded(
                            cluster,
                            encode_utf8(line@),
                            c_pts,
                            self.speed as u32,
                        );
                    }
                    self.read_order = self.read_order + 1;
                    Emission { bytes, outcome: DispatchOutcome::Shown(lane) }
                },
                None => {
                    let line = build_placeholder_line(self.read_order);
                    proof {
                        lemma_encode_utf8_len(line@);
                    }
                    let ass = line.as_str().as_bytes_vec();
                    let cluster = DMKVCluster::new(ass, c_pts as usize, 1);
                    let bytes = cluster.to_bytes();
                    proof {
                        lemma_cluster_bytes_encoded(
                            cluster,
                            encode_utf8(spec_placeholder_line_chars(self.read_order as int)),
                            c_pts,
                            1u32,
                        );
                    }
                    self.read_order = self.read_order + 1;
                    Emission { bytes, outcome: DispatchOutcome::Unavailable }
                },
            }
        }
    }

    /// Takes the front item off the queue, filters emoji out of its
    /// body, and dispatches it. A consumed comment (shown or
    /// suppressed) leaves the queue; one that found no lane is put
    /// back at the front, to be retried on a later pass.
    pub fn dispatch_front(&mut self, c_pts: u64) -> (r: Emission)
        requires
            old(self).wf(),
            old(self).phase == SessionPhase::Running,
            old(self).read_order < u64::MAX,
            c_pts <= MAX_PTS,
            old(self).dm_queue@.len() > 0,
            spec_event_ok(old(self).dm_queue@[0]),
        ensures
            final(self).wf(),
            old(self).same_config(*final(self)),
            ({
                let front = old(self).dm_queue@[0];
                let fbody = spec_emoji_filtered(front.body@);
                let dl = spec_display_length(
                    old(self).show_nick,
                    front.nickname@,
                    fbody,
                    old(self).font_size as int,
                    old(self).ratio_scale_milli as int,
                );
                let sf = spec_find_lane(
                    old(self).dchannels@,
                    old(self).channel_num as int,
                    old(self).speed as int,
                    c_pts as int,
                    dl,
                );
                match r.outcome {
                    DispatchOutcome::Suppressed => {
                        &&& spec_blank(front.nickname@)
                        &&& r.bytes@ == spec_placeholder_cluster(old(self).read_order as int, c_pts)
                        &&& final(self).read_order == old(self).read_order + 1
                        &&& final(self).dchannels@ == old(self).dchannels@
                        &&& final(self).dm_queue@ == old(self).dm_queue@.drop_first()
                        &&& final(self).printed == false
                        &&& final(self).phase == SessionPhase::Running
                    },
                    DispatchOutcome::Malformed => {
                        &&& !spec_blank(front.nickname@)
                        &&& !spec_valid_color(front.color@)
                        &&& r.bytes@.len() == 0
                        &&& final(self).read_order == old(self).read_order
                        &&& final(self).dchannels@ == old(self).dchannels@
                        &&& final(self).dm_queue@ == old(self).dm_queue@
                        &&& final(self).printed == old(self).printed
                        &&& final(self).phase == SessionPhase::Stopped
                    },
                    DispatchOutcome::Shown(lane) => {
                        &&& !spec_blank(front.nickname@)
                        &&& spec_valid_color(front.color@)
                        &&& sf == Some(lane as int)
                        &&& final(self).dchannels@ == old(self).dchannels@.update(
                            lane as int,
                            DanmakuChannel { length: dl as u64, begin_pts: c_pts },
                        )
                        &&& r.bytes@ == spec_encoded_cluster(
                            encode_utf8(
                                spec_live_line_chars(
                                    old(self).read_order as int,
                                    old(self).show_nick,
                                    front.nickname@,
                                    fbody,
                                    old(self).font_alpha as int,
                                    old(self).font_size as int,
                                    front.color@,
                                    lane * old(self).font_size as int,
                                    dl,
                                ),
                            ),
                            c_pts,
                            old(self).speed as u32,
                        )
                        &&& final(self).read_order == old(self).read_order + 1
                        &&& final(self).dm_queue@ == old(self).dm_queue@.drop_first()
                        &&& final(self).printed == false
                        &&& final(self).phase == SessionPhase::Running
                    },
                    DispatchOutcome::Unavailable => {
                        &&& !spec_blank(front.nickname@)
                        &&& spec_valid_color(front.color@)
                        &&& sf is None
                        &&& final(self).dchannels@ == old(self).dchannels@
                        &&& r.bytes@ == spec_placeholder_cluster(old(self).read_order as int, c_pts)
                        &&& final(self).read_order == old(self).read_order + 1
                        &&& final(self).dm_queue@ == old(self).dm_queue@
                        &&& final(self).printed == old(self).printed
                        &&& final(self).phase == SessionPhase::Running
                    },
                }
            }),
    {
        let ev = match self.dm_queue.pop_front() {
            Some(ev) => ev,
            None => {
                proof {
                    assert(false);
                }
                unreached()
            },
        };
        let fbody = filter_emoji(ev.body.as_str());
        let em = self.launch_single_danmaku(
            ev.color.as_str(),
            ev.nickname.as_str(),
            fbody.as_str(),
            c_pts,
        );
        match em.outcome {
            DispatchOutcome::Unavailable => {
                self.dm_queue.push_front(ev);
                proof {
                    assert(self.dm_queue@ =~= old(self).dm_queue@);
                }
            },
            DispatchOutcome::Malformed => {
                self.dm_queue.push_front(ev);
                proof {
                    assert(self.dm_queue@ =~= old(self).dm_queue@);
                }
            },
            _ => {
                self.printed = false;
            },
        }
        em
    }
}

} // verus!
