//! Emoji filtering: before a comment body is put on a dialogue line,
//! every character in a fixed set of emoji ranges is replaced with
//! the literal marker `[em]`, since the player's subtitle renderer
//! cannot draw those glyphs.

use vstd::prelude::*;

verus! {

/// The replaced character set: emoji and symbol ranges, plus the
/// vertical bar, which the character class includes as a literal.
pub open spec fn spec_is_emoji(c: char) -> bool {
    ||| 0x1F300 <= c as int <= 0x1F5FF
    ||| 0x1F1E6 <= c as int <= 0x1F1FF
    ||| 0x2700 <= c as int <= 0x27BF
    ||| 0x1F900 <= c as int <= 0x1F9FF
    ||| 0x1F600 <= c as int <= 0x1F64F
    ||| 0x1F680 <= c as int <= 0x1F6FF
    ||| 0x2600 <= c as int <= 0x26FF
    ||| c as int == 0x7C
}

/// What one character contributes to the filtered text: itself, or
/// the four-character marker.
pub open spec fn spec_emoji_unit(c: char) -> Seq<char> {
    if spec_is_emoji(c) {
        seq!['[', 'e', 'm', ']']
    } else {
        seq![c]
    }
}

/// A text with every emoji-range character replaced by the marker.
pub open spec fn spec_emoji_filtered(s: Seq<char>) -> Seq<char>
    decreases s.len(),
{
    if s.len() == 0 {
        Seq::empty()
    } else {
        spec_emoji_filtered(s.drop_last()) + spec_emoji_unit(s.last())
    }
}

/// Membership test for the replaced character set.
pub fn is_emoji_char(c: char) -> (r: bool)
    ensures
        r == spec_is_emoji(c),
{
    let u = c as u32;
    (0x1F300 <= u && u <= 0x1F5FF) || (0x1F1E6 <= u && u <= 0x1F1FF)
        || (0x2700 <= u && u <= 0x27BF) || (0x1F900 <= u && u <= 0x1F9FF)
        || (0x1F600 <= u && u <= 0x1F64F) || (0x1F680 <= u && u <= 0x1F6FF)
        || (0x2600 <= u && u <= 0x26FF) || u == 0x7C
}

/// Replaces every emoji-range character of a text with the marker.
pub fn filter_emoji(s: &str) -> (r: String)
    ensures
        r@ == spec_emoji_filtered(s@),
        r@.len() <= 4 * s@.len(),
{
    let n: usize = s.unicode_len();
    let mut out = String::new();
    let mut i: usize = 0;
    while i < n
        invariant
            i <= n,
            n == s@.len(),
            out@ == spec_emoji_filtered(s@.take(i as int)),
            out@.len() <= 4 * i,
        decreases n - i,
    {
        let c = s.get_char(i);
        proof {
            assert(s@.take(i as int + 1).drop_last() =~= s@.take(i as int));
            assert(s@.take(i as int + 1).last() == s@[i as int]);
        }
        if is_emoji_char(c) {
            proof {
                reveal_strlit("[em]");
                assert("[em]"@ =~= seq!['[', 'e', 'm', ']']);
            }
            out.append("[em]");
        } else {
            out.append(s.substring_char(i, i + 1));
            proof {
                assert(s@.subrange(i as int, i as int + 1) =~= seq![s@[i as int]]);
            }
        }
        i += 1;
    }
    proof {
        assert(s@.take(n as int) =~= s@);
    }
    out
}

} // verus!
