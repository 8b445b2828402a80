//! The batch path: all comments of a media item arrive up front,
//! each carrying its playback timestamp in decimal seconds and a
//! placement kind inside its nickname field. They are ordered into a
//! unique-key-per-millisecond set (a later comment at the very same
//! millisecond replaces the earlier one), then replayed in time
//! order through the same estimator and lane allocator into a static
//! subtitle document.

use vstd::prelude::*;
use vstd::pervasive::VecAdditionalExecFns;
use crate::lanes::{DanmakuChannel, spec_find_lane, find_avail_channel, MAX_PTS};
use crate::text::{
    spec_is_space, is_space_char, display_length, spec_display_length, MAX_TEXT_CHARS,
};
use crate::ass::{
    ass_header_text, spec_ass_header_chars, spec_valid_color, spec_batch_fixed_line_chars,
    spec_batch_scroll_line_chars, build_batch_fixed_line, build_batch_scroll_line,
};
use crate::session::Danmaku;
use crate::LANE_CAPACITY;

verus! {

/// Index of the first occurrence of a character, or the length when
/// it does not occur.
pub open spec fn spec_find_char(s: Seq<char>, c: char) -> int
    decreases s.len(),
{
    if s.len() == 0 {
        0
    } else if s[0] == c {
        0
    } else {
        1 + spec_find_char(s.drop_first(), c)
    }
}

proof fn lemma_find_char_is(s: Seq<char>, c: char, i: int)
    requires
        0 <= i <= s.len(),
        forall|j: int| 0 <= j < i ==> s[j] != c,
        i < s.len() ==> s[i] == c,
    ensures
        spec_find_char(s, c) == i,
    decreases i,
{
    if s.len() == 0 {
    } else if i == 0 {
    } else {
        lemma_find_char_is(s.drop_first(), c, i - 1);
    }
}

/// Leading whitespace removed.
pub open spec fn spec_trim_front(s: Seq<char>) -> Seq<char>
    decreases s.len(),
{
    if s.len() > 0 && spec_is_space(s[0]) {
        spec_trim_front(s.drop_first())
    } else {
        s
    }
}

/// Trailing whitespace removed.
pub open spec fn spec_trim_back(s: Seq<char>) -> Seq<char>
    decreases s.len(),
{
    if s.len() > 0 && spec_is_space(s.last()) {
        spec_trim_back(s.drop_last())
    } else {
        s
    }
}

/// Leading and trailing whitespace removed.
pub open spec fn spec_trim(s: Seq<char>) -> Seq<char> {
    spec_trim_back(spec_trim_front(s))
}

proof fn lemma_trim_front_is(s: Seq<char>, a: int)
    requires
        0 <= a <= s.len(),
        forall|j: int| 0 <= j < a ==> spec_is_space(#[trigger] s[j]),
        a < s.len() ==> !spec_is_space(s[a]),
    ensures
        spec_trim_front(s) == s.skip(a),
    decreases a,
{
    if a == 0 {
        assert(s.skip(0) =~= s);
    } else {
        lemma_trim_front_is(s.drop_first(), a - 1);
        assert(s.drop_first().skip(a - 1) =~= s.skip(a));
    }
}

proof fn lemma_trim_back_is(s: Seq<char>, b: int)
    requires
        0 <= b <= s.len(),
        forall|j: int| b <= j < s.len() ==> spec_is_space(#[trigger] s[j]),
        b > 0 ==> !spec_is_space(s[b - 1]),
    ensures
        spec_trim_back(s) == s.take(b),
    decreases s.len() - b,
{
    if b == s.len() {
        assert(s.take(b) =~= s);
    } else {
        lemma_trim_back_is(s.drop_last(), b);
        assert(s.drop_last().take(b) =~= s.take(b));
    }
}

/// Whether a text, once trimmed of whitespace, is exactly the one
/// given character.
pub fn trimmed_eq(s: &str, target: char) -> (r: bool)
    ensures
        r == (spec_trim(s@) == seq![target]),
{
    let n: usize = s.unicode_len();
    let mut a: usize = 0;
    while a < n && is_space_char(s.get_char(a))
        invariant
            a <= n,
            n == s@.len(),
            forall|j: int| 0 <= j < a ==> spec_is_space(#[trigger] s@[j]),
        decreases n - a,
    {
        a += 1;
    }
    if a == n {
        proof {
            lemma_trim_front_is(s@, a as int);
            assert(s@.skip(n as int) =~= Seq::<char>::empty());
            assert(spec_trim(s@).len() == 0);
        }
        return false;
    }
    let mut b: usize = n;
    while b > a && is_space_char(s.get_char(b - 1))
        invariant
            a <= b <= n,
            n == s@.len(),
            a < n,
            !spec_is_space(s@[a as int]),
            forall|j: int| b <= j < n ==> spec_is_space(#[trigger] s@[j]),
        decreases b,
    {
        b -= 1;
    }
    proof {
        assert(b > a);
        assert(!spec_is_space(s@[b - 1]));
        lemma_trim_front_is(s@, a as int);
        lemma_trim_back_is(s@.skip(a as int), b - a);
        assert(s@.skip(a as int).take(b - a) =~= s@.subrange(a as int, b as int));
    }
    let r = b - a == 1 && s.get_char(a) == target;
    proof {
        if r {
            assert(s@.subrange(a as int, b as int) =~= seq![target]);
        } else {
            if s@.subrange(a as int, b as int) == seq![target] {
                assert(s@.subrange(a as int, b as int).len() == 1);
                assert(s@.subrange(a as int, b as int)[0] == s@[a as int]);
            }
        }
    }
    r
}

/// A decimal digit.
pub open spec fn spec_is_digit(c: char) -> bool {
    48 <= c as int <= 57
}

/// The value of a sequence of decimal digits, most significant
/// first.
pub open spec fn spec_digits_val(s: Seq<char>) -> int
    decreases s.len(),
{
    if s.len() == 0 {
        0
    } else {
        spec_digits_val(s.drop_last()) * 10 + (s.last() as int - 48)
    }
}

pub open spec fn spec_all_digits(s: Seq<char>) -> bool {
    forall|i: int| 0 <= i < s.len() ==> spec_is_digit(#[trigger] s[i])
}

proof fn lemma_digits_val_nonneg(s: Seq<char>)
    requires
        spec_all_digits(s),
    ensures
        spec_digits_val(s) >= 0,
    decreases s.len(),
{
    if s.len() > 0 {
        assert(spec_all_digits(s.drop_last()));
        lemma_digits_val_nonneg(s.drop_last());
    }
}

proof fn lemma_digits_val_prefix(s: Seq<char>, i: int)
    requires
        spec_all_digits(s),
        0 <= i <= s.len(),
    ensures
        spec_digits_val(s.take(i)) <= spec_digits_val(s),
    decreases s.len() - i,
{
    if i < s.len() {
        lemma_digits_val_prefix(s, i + 1);
        assert(s.take(i + 1).drop_last() =~= s.take(i));
        assert(spec_all_digits(s.take(i)));
        lemma_digits_val_nonneg(s.take(i));
        assert(spec_digits_val(s.take(i + 1)) == spec_digits_val(s.take(i)) * 10 + (s[i] as int
            - 48));
    } else {
        assert(s.take(i) =~= s);
    }
}

/// The millisecond contribution of the fractional digits: the first
/// three, right-padded with zeroes, further digits truncated.
pub open spec fn spec_frac_ms(f: Seq<char>) -> int {
    if f.len() >= 3 {
        spec_digits_val(f.take(3))
    } else if f.len() == 2 {
        spec_digits_val(f) * 10
    } else if f.len() == 1 {
        spec_digits_val(f) * 100
    } else {
        0
    }
}

/// A well-formed time field: decimal seconds, digits with at most
/// one point, at least one digit.
pub open spec fn spec_valid_sec_chars(s: Seq<char>) -> bool {
    let dot = spec_find_char(s, '.');
    let ip = s.take(dot);
    let fp = if dot < s.len() {
        s.skip(dot + 1)
    } else {
        Seq::empty()
    };
    &&& spec_all_digits(ip)
    &&& spec_all_digits(fp)
    &&& ip.len() + fp.len() >= 1
}

/// The millisecond value of a well-formed time field: whole seconds
/// times a thousand plus the (truncated) fractional milliseconds.
pub open spec fn spec_sec_ms(s: Seq<char>) -> int {
    let dot = spec_find_char(s, '.');
    let ip = s.take(dot);
    let fp = if dot < s.len() {
        s.skip(dot + 1)
    } else {
        Seq::empty()
    };
    spec_digits_val(ip) * 1000 + spec_frac_ms(fp)
}

/// Parses a time field of decimal seconds into milliseconds.
/// Rejects anything that is not digits around at most one point, and
/// any value beyond the largest presentation timestamp.
pub fn parse_sec_ms(s: &str) -> (r: Option<u64>)
    ensures
        match r {
            Some(ms) => {
                &&& spec_valid_sec_chars(s@)
                &&& ms == spec_sec_ms(s@)
                &&& ms <= MAX_PTS
            },
            None => !spec_valid_sec_chars(s@) || spec_sec_ms(s@) > MAX_PTS,
        },
{
    let n: usize = s.unicode_len();
    // locate the point
    let mut dot: usize = 0;
    while dot < n && s.get_char(dot) != '.'
        invariant
            dot <= n,
            n == s@.len(),
            forall|j: int| 0 <= j < dot ==> s@[j] != '.',
        decreases n - dot,
    {
        dot += 1;
    }
    proof {
        lemma_find_char_is(s@, '.', dot as int);
    }
    if n == 0 || (dot == 0 && n == 1) {
        // empty, or a lone point
        return None;
    }
    // whole seconds
    let mut val: u64 = 0;
    let mut i: usize = 0;
    while i < dot
        invariant
            i <= dot <= n,
            n == s@.len(),
            spec_find_char(s@, '.') == dot as int,
            spec_all_digits(s@.take(i as int)),
            val == spec_digits_val(s@.take(i as int)),
            val <= MAX_PTS,
        decreases dot - i,
    {
        let c = s.get_char(i);
        let u = c as u32;
        if u < 48 || u > 57 {
            proof {
                assert(!spec_is_digit(s@[i as int]));
                assert(s@.take(dot as int)[i as int] == s@[i as int]);
                assert(!spec_all_digits(s@.take(spec_find_char(s@, '.'))));
            }
            return None;
        }
        proof {
            assert(s@.take(i as int + 1).drop_last() =~= s@.take(i as int));
            assert(s@.take(i as int + 1).last() == s@[i as int]);
        }
        val = val * 10 + (u - 48) as u64;
        i += 1;
        if val > MAX_PTS {
            proof {
                if spec_valid_sec_chars(s@) {
                    assert(s@.take(dot as int).take(i as int) =~= s@.take(i as int));
                    lemma_digits_val_prefix(s@.take(dot as int), i as int);
                    let fp = if (dot as int) < s@.len() {
                        s@.skip(dot as int + 1)
                    } else {
                        Seq::<char>::empty()
                    };
                    if fp.len() >= 3 {
                        assert(spec_all_digits(fp.take(3)));
                        lemma_digits_val_nonneg(fp.take(3));
                    } else {
                        lemma_digits_val_nonneg(fp);
                    }
                }
            }
            return None;
        }
    }
    proof {
        assert(s@.take(dot as int).take(dot as int) =~= s@.take(dot as int));
        assert(s@.take(dot as int) =~= s@.take(dot as int).take(dot as int));
    }
    // fractional digits
    let mut frac: u64 = 0;
    let mut fcount: usize = 0;
    if dot < n {
        let mut j: usize = dot + 1;
        while j < n
            invariant
                dot < n,
                dot + 1 <= j <= n,
                n == s@.len(),
                spec_find_char(s@, '.') == dot as int,
                spec_all_digits(s@.subrange(dot as int + 1, j as int)),
                fcount == (if j - dot - 1 <= 3 {
                    j - dot - 1
                } else {
                    3
                }),
                frac == spec_digits_val(s@.subrange(dot as int + 1, dot as int + 1 + fcount)),
                fcount == 0 ==> frac == 0,
                fcount == 1 ==> frac <= 9,
                fcount == 2 ==> frac <= 99,
                frac <= 999,
            decreases n - j,
        {
            let c = s.get_char(j);
            let u = c as u32;
            if u < 48 || u > 57 {
                proof {
                    assert(!spec_is_digit(s@[j as int]));
                    assert(s@.skip(dot as int + 1)[j - dot - 1] == s@[j as int]);
                }
                return None;
            }
            if fcount < 3 {
                proof {
                    let pre = s@.subrange(dot as int + 1, dot as int + 1 + fcount);
                    let post = s@.subrange(dot as int + 1, dot as int + 1 + fcount + 1);
                    assert(post.drop_last() =~= pre);
                    assert(post.last() == s@[dot as int + 1 + fcount]);
                }
                frac = frac * 10 + (u - 48) as u64;
                fcount += 1;
            }
            proof {
                assert(s@.subrange(dot as int + 1, j as int + 1).drop_last() =~= s@.subrange(
                    dot as int + 1,
                    j as int,
                ));
            }
            j += 1;
        }
    }
    // scale short fractions up to milliseconds
    let frac_ms: u64 = if dot >= n {
        0
    } else if fcount == 0 {
        0
    } else if fcount == 1 {
        frac * 100
    } else if fcount == 2 {
        frac * 10
    } else {
        frac
    };
    proof {
        let fp = if (dot as int) < s@.len() {
            s@.skip(dot as int + 1)
        } else {
            Seq::<char>::empty()
        };
        if (dot as int) < s@.len() {
            assert(fp =~= s@.subrange(dot as int + 1, n as int));
            if fp.len() >= 3 {
                assert(s@.subrange(dot as int + 1, dot as int + 4) =~= fp.take(3));
            } else {
                assert(s@.subrange(dot as int + 1, n as int) =~= fp);
            }
        }
        assert(frac_ms == spec_frac_ms(fp));
        assert(spec_valid_sec_chars(s@));
    }
    let ms: u64 = val * 1000 + frac_ms;
    if ms > MAX_PTS {
        return None;
    }
    Some(ms)
}

/// One comment of the batch set: its colour, its placement kind (the
/// second field of the nickname), and its body.
#[derive(Debug)]
pub struct BatchComment {
    pub color: String,
    pub kind: String,
    pub body: String,
}

/// A comment the compiler can lay out: a usable colour and a body
/// within the machine bounds of the estimator.
pub open spec fn spec_comment_ok(c: BatchComment) -> bool {
    &&& spec_valid_color(c.color@)
    &&& c.body@.len() <= MAX_TEXT_CHARS
}

/// The time-keyed comment set of one media item, ordered by
/// strictly increasing millisecond key: at most one comment per
/// millisecond.
#[derive(Debug)]
pub struct BatchSet {
    pub entries: Vec<(u64, BatchComment)>,
}

impl BatchSet {
    /// Keys strictly increasing and within range; every comment
    /// usable.
    pub open spec fn wf(self) -> bool {
        &&& forall|i: int, j: int|
            0 <= i < j < self.entries@.len() ==> (#[trigger] self.entries@[i]).0 < (
            #[trigger] self.entries@[j]).0
        &&& forall|i: int|
            0 <= i < self.entries@.len() ==> (#[trigger] self.entries@[i]).0 <= MAX_PTS
                && spec_comment_ok(self.entries@[i].1)
    }

    /// An empty set.
    pub fn new() -> (r: Self)
        ensures
            r.wf(),
            r.entries@.len() == 0,
    {
        BatchSet { entries: Vec::new() }
    }

    /// Inserts a comment under its millisecond key. A comment
    /// already stored under the very same key is replaced: the
    /// later-inserted comment wins.
    pub fn insert(&mut self, key: u64, c: BatchComment)
        requires
            old(self).wf(),
            key <= MAX_PTS,
            spec_comment_ok(c),
        ensures
            final(self).wf(),
            ({
                let es = old(self).entries@;
                if exists|i: int| 0 <= i < es.len() && (#[trigger] es[i]).0 == key {
                    let i = choose|i: int| 0 <= i < es.len() && (#[trigger] es[i]).0 == key;
                    final(self).entries@ == es.update(i, (key, c))
                } else {
                    exists|p: int|
                        {
                            &&& 0 <= p <= es.len()
                            &&& forall|j: int| 0 <= j < p ==> (#[trigger] es[j]).0 < key
                            &&& forall|j: int| p <= j < es.len() ==> (#[trigger] es[j]).0 > key
                            &&& final(self).entries@ == es.insert(p, (key, c))
                        }
                }
            }),
    {
        let n: usize = self.entries.len();
        let mut i: usize = 0;
        while i < n && self.entries[i].0 < key
            invariant
                i <= n,
                n == self.entries@.len(),
                forall|j: int| 0 <= j < i ==> (#[trigger] self.entries@[j]).0 < key,
            decreases n - i,
        {
            i += 1;
        }
        if i < n && self.entries[i].0 == key {
            self.entries.set(i, (key, c));
            proof {
                let es = old(self).entries@;
                let w = choose|w: int| 0 <= w < es.len() && (#[trigger] es[w]).0 == key;
                if w < i {
                    assert(es[w].0 < key);
                }
                if w > i {
                    assert(es[i as int].0 < es[w].0);
                }
                assert(w == i);
            }
        } else {
            proof {
                let es = self.entries@;
                assert(forall|j: int| i <= j < es.len() ==> es[i as int].0 <= (#[trigger] es[j]).0);
                if exists|w: int| 0 <= w < es.len() && (#[trigger] es[w]).0 == key {
                    let w = choose|w: int| 0 <= w < es.len() && (#[trigger] es[w]).0 == key;
                    assert(w >= i);
                    if i < es.len() {
                        assert(es[i as int].0 > key || es[i as int].0 < key);
                        assert(w > i ==> es[w].0 > es[i as int].0);
                    }
                    assert(false);
                }
            }
            self.entries.insert(i, (key, c));
            proof {
                let es = old(self).entries@;
                assert(forall|j: int|
                    i <= j < es.len() ==> (#[trigger] es[j]).0 > key) by {
                    assert(forall|j: int|
                        i < j < es.len() ==> es[i as int].0 < (#[trigger] es[j]).0);
                };
                assert(final(self).entries@ == es.insert(i as int, (key, c)));
            }
        }
    }
}

/// One step of the batch compilation: what one comment appends to
/// the document and how it changes the lane state. Fixed-position
/// comments bypass the allocator; a scrolling comment that finds no
/// lane is dropped from the document.
pub open spec fn spec_compile_step(
    cfg: Danmaku,
    acc: (Seq<char>, Seq<DanmakuChannel>),
    key: u64,
    c: BatchComment,
) -> (Seq<char>, Seq<DanmakuChannel>) {
    let t2 = key as int + cfg.speed as int;
    if spec_trim(c.kind@) == seq!['4'] {
        (
            acc.0 + spec_batch_fixed_line_chars(
                key as int,
                t2,
                cfg.font_alpha as int,
                cfg.font_size as int,
                c.color@,
                true,
                c.body@,
            ) + seq!['\n'],
            acc.1,
        )
    } else if spec_trim(c.kind@) == seq!['5'] {
        (
            acc.0 + spec_batch_fixed_line_chars(
                key as int,
                t2,
                cfg.font_alpha as int,
                cfg.font_size as int,
                c.color@,
                false,
                c.body@,
            ) + seq!['\n'],
            acc.1,
        )
    } else {
        let dl = spec_display_length(
            cfg.show_nick,
            Seq::empty(),
            c.body@,
            cfg.font_size as int,
            cfg.ratio_scale_milli as int,
        );
        match spec_find_lane(acc.1, cfg.channel_num as int, cfg.speed as int, key as int, dl) {
            None => acc,
            Some(i) => (
                acc.0 + spec_batch_scroll_line_chars(
                    key as int,
                    t2,
                    cfg.font_alpha as int,
                    cfg.font_size as int,
                    c.color@,
                    i * cfg.font_size as int,
                    dl,
                    c.body@,
                ) + seq!['\n'],
                acc.1.update(i, DanmakuChannel { length: dl as u64, begin_pts: key }),
            ),
        }
    }
}

/// The document body and final lane state after compiling a sequence
/// of time-ordered entries, starting from a given lane state.
pub open spec fn spec_compile_entries(
    cfg: Danmaku,
    entries: Seq<(u64, BatchComment)>,
    lanes0: Seq<DanmakuChannel>,
) -> (Seq<char>, Seq<DanmakuChannel>)
    decreases entries.len(),
{
    if entries.len() == 0 {
        (Seq::empty(), lanes0)
    } else {
        spec_compile_step(
            cfg,
            spec_compile_entries(cfg, entries.drop_last(), lanes0),
            entries.last().0,
            entries.last().1,
        )
    }
}

impl Danmaku {
    /// Compiles the batch set into a complete subtitle document: the
    /// style preamble followed by one dialogue statement per comment
    /// in time order, each shown from its key until one scroll
    /// duration later. The session's lanes carry the allocation
    /// state across the whole document.
    #[verifier::rlimit(100)]
    pub fn compile_batch_document(&mut self, set: &BatchSet) -> (r: String)
        requires
            old(self).wf(),
            set.wf(),
        ensures
            final(self).wf(),
            old(self).same_config(*final(self)),
            final(self).dm_queue@ == old(self).dm_queue@,
            final(self).read_order == old(self).read_order,
            final(self).phase == old(self).phase,
            final(self).printed == old(self).printed,
            ({
                let (doc, lanes2) = spec_compile_entries(
                    *old(self),
                    set.entries@,
                    old(self).dchannels@,
                );
                &&& r@ == spec_ass_header_chars() + doc
                &&& final(self).dchannels@ == lanes2
            }),
    {
        let mut doc = String::from_str(ass_header_text());
        let n: usize = set.entries.len();
        let mut i: usize = 0;
        while i < n
            invariant
                i <= n,
                n == set.entries@.len(),
                set.wf(),
                self.wf(),
                self.show_nick == old(self).show_nick,
                self.font_size == old(self).font_size,
                self.channel_num == old(self).channel_num,
                self.ratio_scale_milli == old(self).ratio_scale_milli,
                self.speed == old(self).speed,
                self.font_alpha == old(self).font_alpha,
                self.quiet == old(self).quiet,
                self.bili_video_cid@ == old(self).bili_video_cid@,
                self.read_order == old(self).read_order,
                self.phase == old(self).phase,
                self.printed == old(self).printed,
                self.dm_queue@ == old(self).dm_queue@,
                ({
                    let (d, l) = spec_compile_entries(
                        *old(self),
                        set.entries@.take(i as int),
                        old(self).dchannels@,
                    );
                    doc@ == spec_ass_header_chars() + d && self.dchannels@ == l
                }),
            decreases n - i,
        {
            let ghost prev = spec_compile_entries(
                *old(self),
                set.entries@.take(i as int),
                old(self).dchannels@,
            );
            let ghost entry = set.entries@[i as int];
            proof {
                assert(set.entries@.take(i as int + 1).drop_last() =~= set.entries@.take(i as int));
                assert(set.entries@.take(i as int + 1).last() == set.entries@[i as int]);
                assert(spec_compile_entries(
                    *old(self),
                    set.entries@.take(i as int + 1),
                    old(self).dchannels@,
                ) == spec_compile_step(*old(self), prev, entry.0, entry.1));
            }
            let key: u64 = set.entries[i].0;
            let t2: u64 = key + self.speed;
            let is4 = trimmed_eq(set.entries[i].1.kind.as_str(), '4');
            let is5 = trimmed_eq(set.entries[i].1.kind.as_str(), '5');
            if is4 {
                let line = build_batch_fixed_line(
                    key,
                    t2,
                    self.font_alpha,
                    self.font_size,
                    set.entries[i].1.color.as_str(),
                    true,
                    set.entries[i].1.body.as_str(),
                );
                doc.append(line.as_str());
                doc.append("\n");
                proof {
                    reveal_strlit("\n");
                    assert("\n"@ =~= seq!['\n']);
                    assert(spec_compile_step(*old(self), prev, entry.0, entry.1).0 == prev.0
                        + spec_batch_fixed_line_chars(
                        entry.0 as int,
                        entry.0 as int + old(self).speed as int,
                        old(self).font_alpha as int,
                        old(self).font_size as int,
                        entry.1.color@,
                        true,
                        entry.1.body@,
                    ) + seq!['\n']);
                    assert(spec_compile_step(*old(self), prev, entry.0, entry.1).1 == prev.1);
                    assert(doc@ == spec_ass_header_chars() + spec_compile_step(
                        *old(self),
                        prev,
                        entry.0,
                        entry.1,
                    ).0);
                }
            } else if is5 {
                let line = build_batch_fixed_line(
                    key,
                    t2,
                    self.font_alpha,
                    self.font_size,
                    set.entries[i].1.color.as_str(),
                    false,
                    set.entries[i].1.body.as_str(),
                );
                doc.append(line.as_str());
                doc.append("\n");
                proof {
                    reveal_strlit("\n");
                    assert("\n"@ =~= seq!['\n']);
                    assert(spec_compile_step(*old(self), prev, entry.0, entry.1).0 == prev.0
                        + spec_batch_fixed_line_chars(
                        entry.0 as int,
                        entry.0 as int + old(self).speed as int,
                        old(self).font_alpha as int,
                        old(self).font_size as int,
                        entry.1.color@,
                        false,
                        entry.1.body@,
                    ) + seq!['\n']);
                    assert(spec_compile_step(*old(self), prev, entry.0, entry.1).1 == prev.1);
                    assert(doc@ == spec_ass_header_chars() + spec_compile_step(
                        *old(self),
                        prev,
                        entry.0,
                        entry.1,
                    ).0);
                }
            } else {
                proof {
                    reveal_strlit("");
                    assert(""@ =~= Seq::<char>::empty());
                }
                let dl = display_length(
                    self.show_nick,
                    "",
                    set.entries[i].1.body.as_str(),
                    self.font_size,
                    self.ratio_scale_milli,
                );
                match find_avail_channel(
                    &mut self.dchannels,
                    self.channel_num,
                    self.speed,
                    key,
                    dl,
                ) {
                    Some(lane) => {
                        proof {
                            assert(lane < LANE_CAPACITY);
                            assert((lane as int) * (self.font_size as int) <= 30 * 10000)
                                by (nonlinear_arith)
                                requires
                                    (lane as int) >= 0,
                                    (lane as int) < 30,
                                    (self.font_size as int) >= 0,
                                    (self.font_size as int) <= 10000,
                            ;
                        }
                        let y: u64 = (lane as u64) * self.font_size;
                        let line = build_batch_scroll_line(
                            key,
                            t2,
                            self.font_alpha,
                            self.font_size,
                            set.entries[i].1.color.as_str(),
                            y,
                            dl,
                            set.entries[i].1.body.as_str(),
                        );
                        doc.append(line.as_str());
                        doc.append("\n");
                        proof {
                            reveal_strlit("\n");
                            assert("\n"@ =~= seq!['\n']);
                            let dls = spec_display_length(
                                old(self).show_nick,
                                Seq::empty(),
                                entry.1.body@,
                                old(self).font_size as int,
                                old(self).ratio_scale_milli as int,
                            );
                            assert(dl == dls);
                            assert(spec_find_lane(
                                prev.1,
                                old(self).channel_num as int,
                                old(self).speed as int,
                                entry.0 as int,
                                dls,
                            ) == Some(lane as int));
                            assert(spec_compile_step(*old(self), prev, entry.0, entry.1).0 == prev.0
                                + spec_batch_scroll_line_chars(
                                entry.0 as int,
                                entry.0 as int + old(self).speed as int,
                                old(self).font_alpha as int,
                                old(self).font_size as int,
                                entry.1.color@,
                                (lane as int) * old(self).font_size as int,
                                dls,
                                entry.1.body@,
                            ) + seq!['\n']);
                            assert(spec_compile_step(*old(self), prev, entry.0, entry.1).1
                                == prev.1.update(
                                lane as int,
                                DanmakuChannel { length: dls as u64, begin_pts: entry.0 },
                            ));
                            assert(doc@ == spec_ass_header_chars() + spec_compile_step(
                                *old(self),
                                prev,
                                entry.0,
                                entry.1,
                            ).0);
                            assert(self.dchannels@ == spec_compile_step(
                                *old(self),
                                prev,
                                entry.0,
                                entry.1,
                            ).1);
                        }
                    },
                    None => {},
                }
            }
            i += 1;
        }
        proof {
            assert(set.entries@.take(n as int) =~= set.entries@);
        }
        doc
    }
}

/// Everything a batch event must satisfy to enter the set: a
/// nickname field of the shape `seconds,kind`, seconds that parse
/// and fit, a usable colour, and a body within the machine bounds.
pub open spec fn spec_valid_batch_event(
    color: Seq<char>,
    nickname: Seq<char>,
    body: Seq<char>,
) -> bool {
    let comma = spec_find_char(nickname, ',');
    &&& comma < nickname.len()
    &&& spec_valid_sec_chars(nickname.take(comma))
    &&& spec_sec_ms(nickname.take(comma)) <= MAX_PTS
    &&& spec_valid_color(color)
    &&& body.len() <= MAX_TEXT_CHARS
}

/// The millisecond key a valid batch event is stored under.
pub open spec fn spec_batch_key(nickname: Seq<char>) -> int {
    spec_sec_ms(nickname.take(spec_find_char(nickname, ',')))
}

/// The placement kind of a batch event: the text between the first
/// comma of the nickname field and the second, or its end.
pub open spec fn spec_batch_kind(nickname: Seq<char>) -> Seq<char> {
    let comma = spec_find_char(nickname, ',');
    let rest = nickname.skip(comma + 1);
    rest.take(spec_find_char(rest, ','))
}

/// Parses one batch event and inserts it into the set under its
/// millisecond key, replacing any comment already stored at that
/// key. Returns false, leaving the set untouched, for an event that
/// violates the batch contract: that is fatal for the session.
pub fn batch_insert_event(set: &mut BatchSet, color: &str, nickname: &str, body: &str) -> (r: bool)
    requires
        old(set).wf(),
    ensures
        final(set).wf(),
        r == spec_valid_batch_event(color@, nickname@, body@),
        !r ==> final(set).entries@ == old(set).entries@,
        r ==> ({
            let key = spec_batch_key(nickname@) as u64;
            let es = old(set).entries@;
            exists|c: BatchComment|
                {
                    &&& c.color@ == color@
                    &&& c.kind@ == spec_batch_kind(nickname@)
                    &&& c.body@ == body@
                    &&& if exists|i: int| 0 <= i < es.len() && (#[trigger] es[i]).0 == key {
                        let i = choose|i: int| 0 <= i < es.len() && (#[trigger] es[i]).0 == key;
                        final(set).entries@ == es.update(i, (key, c))
                    } else {
                        exists|p: int|
                            {
                                &&& 0 <= p <= es.len()
                                &&& forall|j: int| 0 <= j < p ==> (#[trigger] es[j]).0 < key
                                &&& forall|j: int| p <= j < es.len() ==> (#[trigger] es[j]).0 > key
                                &&& final(set).entries@ == es.insert(p, (key, c))
                            }
                    }
                }
        }),
{
    let n: usize = nickname.unicode_len();
    let mut comma: usize = 0;
    while comma < n && nickname.get_char(comma) != ','
        invariant
            comma <= n,
            n == nickname@.len(),
            forall|j: int| 0 <= j < comma ==> nickname@[j] != ',',
        decreases n - comma,
    {
        comma += 1;
    }
    proof {
        lemma_find_char_is(nickname@, ',', comma as int);
    }
    if comma == n {
        return false;
    }
    if color.unicode_len() < 6 {
        return false;
    }
    if body.unicode_len() > MAX_TEXT_CHARS {
        return false;
    }
    let time_field = nickname.substring_char(0, comma);
    proof {
        assert(time_field@ =~= nickname@.take(comma as int));
    }
    let ms = match parse_sec_ms(time_field) {
        Some(ms) => ms,
        None => {
            return false;
        },
    };
    // the kind: up to the next comma, or the end
    let mut k2: usize = comma + 1;
    while k2 < n && nickname.get_char(k2) != ','
        invariant
            comma + 1 <= k2 <= n,
            n == nickname@.len(),
            forall|j: int| comma + 1 <= j < k2 ==> nickname@[j] != ',',
        decreases n - k2,
    {
        k2 += 1;
    }
    let kind_part = nickname.substring_char(comma + 1, k2);
    proof {
        let rest = nickname@.skip(comma as int + 1);
        assert(forall|j: int|
            0 <= j < k2 - comma - 1 ==> rest[j] == nickname@[j + comma + 1] && rest[j] != ',');
        if (k2 as int) - comma - 1 < rest.len() {
            assert(rest[k2 - comma - 1] == nickname@[k2 as int]);
        }
        lemma_find_char_is(rest, ',', k2 - comma - 1);
        assert(kind_part@ =~= rest.take(k2 - comma - 1));
    }
    let c = BatchComment {
        color: String::from_str(color),
        kind: String::from_str(kind_part),
        body: String::from_str(body),
    };
    let ghost gc = c;
    proof {
        assert(ms as int == spec_batch_key(nickname@));
    }
    set.insert(ms, c);
    proof {
        let key = spec_batch_key(nickname@) as u64;
        let es = old(set).entries@;
        assert(gc.color@ == color@);
        assert(gc.kind@ == spec_batch_kind(nickname@));
        assert(gc.body@ == body@);
        assert((if exists|i: int| 0 <= i < es.len() && (#[trigger] es[i]).0 == key {
            let i = choose|i: int| 0 <= i < es.len() && (#[trigger] es[i]).0 == key;
            set.entries@ == es.update(i, (key, gc))
        } else {
            exists|p: int|
                {
                    &&& 0 <= p <= es.len()
                    &&& forall|j: int| 0 <= j < p ==> (#[trigger] es[j]).0 < key
                    &&& forall|j: int| p <= j < es.len() ==> (#[trigger] es[j]).0 > key
                    &&& set.entries@ == es.insert(p, (key, gc))
                }
        }));
    }
    true
}

} // verus!
