//! Display-length estimation and text classification.
//!
//! A comment's estimated on-screen width weighs every non-ASCII
//! character at 1.5 times an ASCII character (0.75 vs 0.50 of the
//! font size), reflecting wide-glyph scripts. Widths are measured in
//! quarter-font-size units so that everything stays integral; the
//! display ratio is carried in thousandths.

use vstd::prelude::*;
use vstd::arithmetic::div_mod::lemma_div_is_ordered;

verus! {

/// Largest font size (px) a session may be configured with.
pub const MAX_FONT_SIZE: u64 = 10000;

/// Largest display-ratio scale (in thousandths) a session accepts.
pub const MAX_RATIO_MILLI: u64 = 1000000;

/// Largest total character count (nickname plus body) a comment
/// event may carry.
pub const MAX_TEXT_CHARS: usize = 1000000;

/// Largest total character count the estimator itself accepts; wide
/// enough for a maximal body whose every character was replaced by
/// the four-character emoji marker, plus a maximal nickname.
pub const MAX_EST_CHARS: usize = 5000000;

/// ASCII characters occupy half a font size on screen.
pub open spec fn spec_is_ascii_char(c: char) -> bool {
    (c as int) < 128
}

/// Width of one character in quarter-font-size units: 2 for ASCII,
/// 3 for everything else.
pub open spec fn spec_char_units(c: char) -> int {
    if spec_is_ascii_char(c) { 2 } else { 3 }
}

/// Total width of a text in quarter-font-size units.
pub open spec fn spec_text_units(s: Seq<char>) -> int
    decreases s.len(),
{
    if s.len() == 0 {
        0
    } else {
        spec_text_units(s.drop_last()) + spec_char_units(s.last())
    }
}

pub proof fn lemma_text_units_nonneg(s: Seq<char>)
    ensures
        spec_text_units(s) >= 0,
    decreases s.len(),
{
    if s.len() > 0 {
        lemma_text_units_nonneg(s.drop_last());
    }
}

pub proof fn lemma_text_units_concat(a: Seq<char>, b: Seq<char>)
    ensures
        spec_text_units(a + b) == spec_text_units(a) + spec_text_units(b),
    decreases b.len(),
{
    if b.len() == 0 {
        assert(a + b =~= a);
    } else {
        lemma_text_units_concat(a, b.drop_last());
        assert((a + b).drop_last() =~= a + b.drop_last());
        assert((a + b).last() == b.last());
    }
}

/// Width units charged for one comment: its body, plus, when
/// nicknames are shown, the nickname and one extra non-ASCII-weighted
/// unit for the separator.
pub open spec fn spec_comment_units(show_nick: bool, nick: Seq<char>, body: Seq<char>) -> int {
    spec_text_units(body) + if show_nick {
        spec_text_units(nick) + 3
    } else {
        0
    }
}

/// Estimated pixel width of one comment: font size times the width
/// units (in quarters) times the ratio scale (in thousandths),
/// rounded to the nearest pixel.
pub open spec fn spec_display_length(
    show_nick: bool,
    nick: Seq<char>,
    body: Seq<char>,
    font_size: int,
    ratio_milli: int,
) -> int {
    (font_size * spec_comment_units(show_nick, nick, body) * ratio_milli + 2000) / 4000
}

/// Width units of a string, walked character by character.
pub fn text_units(s: &str) -> (r: u64)
    requires
        s@.len() <= MAX_EST_CHARS,
    ensures
        r == spec_text_units(s@),
        r <= 3 * s@.len(),
{
    let n: usize = s.unicode_len();
    let mut units: u64 = 0;
    let mut i: usize = 0;
    while i < n
        invariant
            i <= n,
            n == s@.len(),
            n <= MAX_EST_CHARS,
            units == spec_text_units(s@.take(i as int)),
            units <= 3 * i,
        decreases n - i,
    {
        let c = s.get_char(i);
        proof {
            assert(s@.take(i as int + 1).drop_last() =~= s@.take(i as int));
            assert(s@.take(i as int + 1).last() == s@[i as int]);
        }
        if (c as u32) < 128 {
            units += 2;
        } else {
            units += 3;
        }
        i += 1;
    }
    proof {
        assert(s@.take(n as int) =~= s@);
    }
    units
}

/// Estimated on-screen pixel width of one comment. Pure; never fails.
pub fn display_length(
    show_nick: bool,
    nick: &str,
    body: &str,
    font_size: u64,
    ratio_milli: u64,
) -> (r: u64)
    requires
        nick@.len() + body@.len() <= MAX_EST_CHARS,
        1 <= font_size <= MAX_FONT_SIZE,
        1 <= ratio_milli <= MAX_RATIO_MILLI,
    ensures
        r == spec_display_length(show_nick, nick@, body@, font_size as int, ratio_milli as int),
        r <= crate::lanes::MAX_LEN,
{
    let body_units: u64 = text_units(body);
    let units: u64 = if show_nick {
        body_units + text_units(nick) + 3
    } else {
        body_units
    };
    proof {
        lemma_text_units_nonneg(body@);
        lemma_text_units_nonneg(nick@);
        assert(units == spec_comment_units(show_nick, nick@, body@));
        assert(font_size as u128 * units as u128 <= 10000u128 * 15000003u128
            && font_size as u128 * units as u128 >= 0) by (nonlinear_arith)
            requires
                0 <= font_size as u128 <= 10000u128,
                0 <= units as u128 <= 15000003u128,
        ;
        assert((font_size * units) as u128 * ratio_milli as u128 <= 150000030000u128 * 1000000u128
            && (font_size * units) as u128 * ratio_milli as u128 >= 0) by (nonlinear_arith)
            requires
                0 <= (font_size * units) as u128 <= 150000030000u128,
                0 <= ratio_milli as u128 <= 1000000u128,
        ;
    }
    let numer: u128 = font_size as u128 * units as u128 * ratio_milli as u128 + 2000;
    let q: u128 = numer / 4000;
    proof {
        assert(q <= 150000030000u128 * 1000000u128 / 4000);
    }
    q as u64
}

/// Adding characters to a comment's body, at any position, never
/// decreases its estimated display length, for a fixed nickname and
/// composition: the estimate is monotonically non-decreasing in the
/// body's length.
pub proof fn lemma_display_length_monotone(
    show_nick: bool,
    nick: Seq<char>,
    pre: Seq<char>,
    mid: Seq<char>,
    post: Seq<char>,
    font_size: int,
    ratio_milli: int,
)
    requires
        font_size >= 0,
        ratio_milli >= 0,
    ensures
        spec_display_length(show_nick, nick, pre + post, font_size, ratio_milli)
            <= spec_display_length(show_nick, nick, pre + mid + post, font_size, ratio_milli),
{
    lemma_text_units_concat(pre, post);
    lemma_text_units_concat(pre, mid);
    lemma_text_units_concat(pre + mid, post);
    lemma_text_units_nonneg(mid);
    let u1 = spec_comment_units(show_nick, nick, pre + post);
    let u2 = spec_comment_units(show_nick, nick, pre + mid + post);
    assert(u1 <= u2);
    assert(font_size * u1 * ratio_milli <= font_size * u2 * ratio_milli) by (nonlinear_arith)
        requires
            font_size >= 0,
            ratio_milli >= 0,
            u1 <= u2,
    ;
    lemma_div_is_ordered(
        font_size * u1 * ratio_milli + 2000,
        font_size * u2 * ratio_milli + 2000,
        4000,
    );
}

/// The Unicode whitespace characters, as `char::is_whitespace`
/// recognises them.
pub open spec fn spec_is_space(c: char) -> bool {
    ||| 0x9 <= c as int <= 0xd
    ||| c as int == 0x20
    ||| c as int == 0x85
    ||| c as int == 0xa0
    ||| c as int == 0x1680
    ||| 0x2000 <= c as int <= 0x200a
    ||| c as int == 0x2028
    ||| c as int == 0x2029
    ||| c as int == 0x202f
    ||| c as int == 0x205f
    ||| c as int == 0x3000
}

/// Whitespace test on one character.
pub fn is_space_char(c: char) -> (r: bool)
    ensures
        r == spec_is_space(c),
{
    let u = c as u32;
    (0x9 <= u && u <= 0xd) || u == 0x20 || u == 0x85 || u == 0xa0 || u == 0x1680
        || (0x2000 <= u && u <= 0x200a) || u == 0x2028 || u == 0x2029 || u == 0x202f
        || u == 0x205f || u == 0x3000
}

/// A text is blank when every character is whitespace; trimming a
/// blank text leaves nothing.
pub open spec fn spec_blank(s: Seq<char>) -> bool {
    forall|i: int| 0 <= i < s.len() ==> spec_is_space(#[trigger] s[i])
}

/// Whether a string is empty after trimming whitespace.
pub fn is_blank(s: &str) -> (r: bool)
    ensures
        r == spec_blank(s@),
{
    let n: usize = s.unicode_len();
    let mut i: usize = 0;
    while i < n
        invariant
            i <= n,
            n == s@.len(),
            forall|j: int| 0 <= j < i ==> spec_is_space(#[trigger] s@[j]),
        decreases n - i,
    {
        if !is_space_char(s.get_char(i)) {
            return false;
        }
        i += 1;
    }
    true
}

} // verus!
