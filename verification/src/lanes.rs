//! Lane allocation: decides which horizontal display lane, if any, a
//! newly arriving scrolling comment may occupy without visually
//! overlapping the comment currently in that lane.
//!
//! Every displayed comment moves at a constant horizontal velocity
//! such that it travels `SCREEN_WIDTH + its own length` pixels over
//! exactly the configured scroll duration, entering at the right edge
//! and fully exiting past the left edge.

use vstd::prelude::*;
use vstd::pervasive::VecAdditionalExecFns;
use crate::SCREEN_WIDTH;

verus! {

/// Largest presentation timestamp (in ms) the allocator accepts.
pub const MAX_PTS: u64 = 0xffff_ffff;

/// Largest display length (in px) the allocator accepts.
pub const MAX_LEN: u64 = 0x20_0000_0000_0000;

/// Largest scroll duration (in ms) a session may be configured with.
pub const MAX_SPEED: u64 = 30000;

/// Smallest scroll duration (in ms) a session may be configured with.
pub const MIN_SPEED: u64 = 1000;

/// One display lane: the length of its current occupant in pixels
/// (`0` means the lane is free) and the presentation timestamp at
/// which that occupant entered the screen.
#[derive(Clone, Copy, Debug, PartialEq, Eq, Structural)]
pub struct DanmakuChannel {
    pub length: u64,
    pub begin_pts: u64,
}

/// A lane with no occupant.
pub open spec fn lane_free(l: DanmakuChannel) -> bool {
    l.length == 0
}

/// The candidate, crossing the screen at its own velocity
/// `(SCREEN_WIDTH + cand_len) / speed`, would catch up with the
/// lane's occupant before the occupant exits: the time the occupant
/// still needs, scaled by the candidate's velocity, exceeds one full
/// screen width of separation.
pub open spec fn spec_catches_up(speed: int, begin_pts: int, c_pts: int, cand_len: int) -> bool {
    (speed - (c_pts - begin_pts)) * (SCREEN_WIDTH as int + cand_len) > SCREEN_WIDTH as int * speed
}

/// The occupant has not yet moved far enough, proportional to its own
/// length, to guarantee that the candidate entering now cannot touch
/// it at the right edge.
pub open spec fn spec_not_cleared(speed: int, begin_pts: int, c_pts: int, occ_len: int) -> bool {
    (occ_len + SCREEN_WIDTH as int) * (c_pts - begin_pts) < occ_len * speed
}

/// An occupied lane may be reused by a candidate of length `cand_len`
/// arriving at `c_pts` exactly when both collision tests pass.
pub open spec fn lane_reusable(l: DanmakuChannel, speed: int, c_pts: int, cand_len: int) -> bool {
    &&& !spec_catches_up(speed, l.begin_pts as int, c_pts, cand_len)
    &&& !spec_not_cleared(speed, l.begin_pts as int, c_pts, l.length as int)
}

/// A lane takes the candidate when it is free or safely reusable.
pub open spec fn lane_accepts(l: DanmakuChannel, speed: int, c_pts: int, cand_len: int) -> bool {
    lane_free(l) || lane_reusable(l, speed, c_pts, cand_len)
}

/// Every lane's fields are within the bounds the arithmetic needs.
pub open spec fn lanes_wf(s: Seq<DanmakuChannel>) -> bool {
    forall|i: int| 0 <= i < s.len() ==> (#[trigger] s[i]).length <= MAX_LEN && s[i].begin_pts <= MAX_PTS
}

/// How many lanes are actually scanned: the configured active-lane
/// count, capped by the capacity of the lane collection.
pub open spec fn active_lane_count(s: Seq<DanmakuChannel>, channel_num: int) -> int {
    if channel_num <= s.len() { channel_num } else { s.len() as int }
}

/// The first lane at or after index `i` among the `active` first
/// lanes that accepts the candidate.
pub open spec fn spec_find_lane_from(
    lanes: Seq<DanmakuChannel>,
    active: int,
    speed: int,
    c_pts: int,
    cand_len: int,
    i: int,
) -> Option<int>
    decreases active - i,
{
    if i < 0 || i >= active {
        None
    } else if lane_accepts(lanes[i], speed, c_pts, cand_len) {
        Some(i)
    } else {
        spec_find_lane_from(lanes, active, speed, c_pts, cand_len, i + 1)
    }
}

/// The lane a candidate arriving at `c_pts` with display length
/// `cand_len` is assigned to, if any: the first free or safely
/// reusable lane among the active ones.
pub open spec fn spec_find_lane(
    lanes: Seq<DanmakuChannel>,
    channel_num: int,
    speed: int,
    c_pts: int,
    cand_len: int,
) -> Option<int> {
    spec_find_lane_from(lanes, active_lane_count(lanes, channel_num), speed, c_pts, cand_len, 0)
}

proof fn lemma_find_lane_from_first_fit(
    lanes: Seq<DanmakuChannel>,
    active: int,
    speed: int,
    c_pts: int,
    cand_len: int,
    i: int,
)
    requires
        0 <= i <= active,
        forall|j: int| 0 <= j < i ==> !lane_accepts(lanes[j], speed, c_pts, cand_len),
    ensures
        spec_find_lane_from(lanes, active, speed, c_pts, cand_len, 0) == spec_find_lane_from(
            lanes,
            active,
            speed,
            c_pts,
            cand_len,
            i,
        ),
    decreases i,
{
    if i > 0 {
        lemma_find_lane_from_first_fit(lanes, active, speed, c_pts, cand_len, i - 1);
        assert(spec_find_lane_from(lanes, active, speed, c_pts, cand_len, i - 1)
            == spec_find_lane_from(lanes, active, speed, c_pts, cand_len, i));
    }
}

/// First-fit scan over the active lanes, in index order: assigns the
/// candidate to the first free or safely reusable lane and records it
/// there, or reports that no lane is available. No lane is preferred
/// by recency or length.
///
/// A successful assignment into a previously occupied lane implies
/// that both collision tests passed for that occupant; see
/// [`lemma_assignment_is_collision_free`].
pub fn find_avail_channel(
    lanes: &mut Vec<DanmakuChannel>,
    channel_num: usize,
    speed: u64,
    c_pts: u64,
    len: u64,
) -> (r: Option<usize>)
    requires
        1 <= speed <= MAX_SPEED,
        c_pts <= MAX_PTS,
        len <= MAX_LEN,
        lanes_wf(old(lanes)@),
    ensures
        final(lanes)@.len() == old(lanes)@.len(),
        lanes_wf(final(lanes)@),
        ({
            let sf = spec_find_lane(old(lanes)@, channel_num as int, speed as int, c_pts as int, len as int);
            match r {
                Some(i) => sf == Some(i as int),
                None => sf is None,
            }
        }),
        match r {
            Some(i) => {
                &&& 0 <= i < active_lane_count(old(lanes)@, channel_num as int)
                &&& lane_accepts(old(lanes)@[i as int], speed as int, c_pts as int, len as int)
                &&& forall|j: int| 0 <= j < i ==> !lane_accepts(old(lanes)@[j], speed as int, c_pts as int, len as int)
                &&& final(lanes)@ == old(lanes)@.update(i as int, DanmakuChannel { length: len, begin_pts: c_pts })
            },
            None => {
                &&& final(lanes)@ == old(lanes)@
                &&& forall|j: int| 0 <= j < active_lane_count(old(lanes)@, channel_num as int)
                    ==> !lane_accepts(old(lanes)@[j], speed as int, c_pts as int, len as int)
            },
        },
{
    let n: usize = if channel_num <= lanes.len() { channel_num } else { lanes.len() };
    let mut i: usize = 0;
    while i < n
        invariant
            i <= n,
            n == active_lane_count(lanes@, channel_num as int),
            n <= lanes@.len(),
            1 <= speed <= MAX_SPEED,
            c_pts <= MAX_PTS,
            len <= MAX_LEN,
            lanes_wf(lanes@),
            lanes@ == old(lanes)@,
            forall|j: int| 0 <= j < i ==> !lane_accepts(lanes@[j], speed as int, c_pts as int, len as int),
        decreases n - i,
    {
        let c = lanes[i];
        if c.length == 0 {
            proof {
                lemma_find_lane_from_first_fit(
                    lanes@,
                    n as int,
                    speed as int,
                    c_pts as int,
                    len as int,
                    i as int,
                );
            }
            lanes.set(i, DanmakuChannel { length: len, begin_pts: c_pts });
            return Some(i);
        }
        let diff: i128 = c_pts as i128 - c.begin_pts as i128;
        let remain: i128 = speed as i128 - diff;
        let cand_span: i128 = 1920i128 + len as i128;
        proof {
            assert(remain * cand_span <= 0x40_0000_0000_0000i128 * 0x20_0000_0000_0780i128
                && remain * cand_span >= -(0x40_0000_0000_0000i128 * 0x20_0000_0000_0780i128))
                by (nonlinear_arith)
                requires
                    -0x40_0000_0000_0000i128 <= remain <= 0x40_0000_0000_0000i128,
                    0 < cand_span <= 0x20_0000_0000_0780i128,
            ;
        }
        if remain * cand_span > 1920i128 * speed as i128 {
            // candidate would catch up with the occupant
            assert(spec_catches_up(speed as int, c.begin_pts as int, c_pts as int, len as int));
            i += 1;
            continue;
        }
        let occ_span: i128 = c.length as i128 + 1920i128;
        proof {
            assert(occ_span * diff <= 0x20_0000_0000_0780i128 * 0x20_0000_0000_0000i128
                && occ_span * diff >= -(0x20_0000_0000_0780i128 * 0x20_0000_0000_0000i128))
                by (nonlinear_arith)
                requires
                    0 < occ_span <= 0x20_0000_0000_0780i128,
                    -0x20_0000_0000_0000i128 <= diff <= 0x20_0000_0000_0000i128,
            ;
            assert(c.length as i128 * speed as i128 <= 0x20_0000_0000_0000i128 * 30000i128
                && c.length as i128 * speed as i128 >= 0)
                by (nonlinear_arith)
                requires
                    0 <= c.length as i128 <= 0x20_0000_0000_0000i128,
                    0 <= speed as i128 <= 30000i128,
            ;
        }
        if occ_span * diff < c.length as i128 * speed as i128 {
            // occupant has not yet cleared enough of the screen
            assert(spec_not_cleared(speed as int, c.begin_pts as int, c_pts as int, c.length as int));
            i += 1;
            continue;
        }
        assert(lane_reusable(c, speed as int, c_pts as int, len as int));
        proof {
            lemma_find_lane_from_first_fit(
                lanes@,
                n as int,
                speed as int,
                c_pts as int,
                len as int,
                i as int,
            );
        }
        lanes.set(i, DanmakuChannel { length: len, begin_pts: c_pts });
        return Some(i);
    }
    proof {
        lemma_find_lane_from_first_fit(
            lanes@,
            n as int,
            speed as int,
            c_pts as int,
            len as int,
            n as int,
        );
    }
    None
}

/// For all lane states, a successful assignment never places two
/// simultaneously displayed occupants on one lane such that their
/// screen-space trajectories would intersect: whenever the allocator
/// overwrites a lane that still had an occupant, the candidate could
/// not catch up with that occupant before it exits, and the occupant
/// had already cleared enough of the screen.
pub proof fn lemma_assignment_is_collision_free(
    lanes: Seq<DanmakuChannel>,
    i: int,
    speed: int,
    c_pts: int,
    cand_len: int,
)
    requires
        0 <= i < lanes.len(),
        lane_accepts(lanes[i], speed, c_pts, cand_len),
        !lane_free(lanes[i]),
    ensures
        !spec_catches_up(speed, lanes[i].begin_pts as int, c_pts, cand_len),
        !spec_not_cleared(speed, lanes[i].begin_pts as int, c_pts, lanes[i].length as int),
{
}

} // verus!
