//! Number formatting for the subtitle dialogue lines: decimal
//! integers, zero-padded pairs, lowercase hex pairs, and the ASS
//! `H:MM:SS.cc` timestamps of the batch document.

use vstd::prelude::*;

verus! {

/// The decimal digit character of a value below ten.
pub open spec fn spec_digit_char(d: int) -> char {
    if d == 0 {
        '0'
    } else if d == 1 {
        '1'
    } else if d == 2 {
        '2'
    } else if d == 3 {
        '3'
    } else if d == 4 {
        '4'
    } else if d == 5 {
        '5'
    } else if d == 6 {
        '6'
    } else if d == 7 {
        '7'
    } else if d == 8 {
        '8'
    } else {
        '9'
    }
}

/// The lowercase hex digit character of a value below sixteen.
pub open spec fn spec_hex_char(d: int) -> char {
    if d < 10 {
        spec_digit_char(d)
    } else if d == 10 {
        'a'
    } else if d == 11 {
        'b'
    } else if d == 12 {
        'c'
    } else if d == 13 {
        'd'
    } else if d == 14 {
        'e'
    } else {
        'f'
    }
}

/// The decimal digit string of a non-negative value, most significant
/// digit first, no leading zeroes.
pub open spec fn spec_dec_chars(n: int) -> Seq<char>
    decreases n,
{
    if n < 10 {
        seq![spec_digit_char(n)]
    } else {
        spec_dec_chars(n / 10) + seq![spec_digit_char(n % 10)]
    }
}

/// Two decimal digits, zero-padded, of a value below one hundred.
pub open spec fn spec_two_dig_chars(n: int) -> Seq<char> {
    seq![spec_digit_char(n / 10), spec_digit_char(n % 10)]
}

/// Two lowercase hex digits of a byte.
pub open spec fn spec_hex2_chars(b: int) -> Seq<char> {
    seq![spec_hex_char(b / 16), spec_hex_char(b % 16)]
}

/// The decimal representation of a value, possibly negated: `0` when
/// the value is zero, otherwise a minus sign and its digits. This is
/// how the left scroll endpoint `-length` is written.
pub open spec fn spec_neg_dec_chars(n: int) -> Seq<char> {
    if n == 0 {
        seq!['0']
    } else {
        seq!['-'] + spec_dec_chars(n)
    }
}

fn digit_str(d: u64) -> (r: &'static str)
    requires
        d < 10,
    ensures
        r@ == seq![spec_digit_char(d as int)],
{
    let r: &'static str = if d == 0 {
        "0"
    } else if d == 1 {
        "1"
    } else if d == 2 {
        "2"
    } else if d == 3 {
        "3"
    } else if d == 4 {
        "4"
    } else if d == 5 {
        "5"
    } else if d == 6 {
        "6"
    } else if d == 7 {
        "7"
    } else if d == 8 {
        "8"
    } else {
        "9"
    };
    proof {
        reveal_strlit("0");
        reveal_strlit("1");
        reveal_strlit("2");
        reveal_strlit("3");
        reveal_strlit("4");
        reveal_strlit("5");
        reveal_strlit("6");
        reveal_strlit("7");
        reveal_strlit("8");
        reveal_strlit("9");
        assert(r@ =~= seq![spec_digit_char(d as int)]);
    }
    r
}

fn hex_str(d: u64) -> (r: &'static str)
    requires
        d < 16,
    ensures
        r@ == seq![spec_hex_char(d as int)],
{
    if d < 10 {
        digit_str(d)
    } else {
        let r: &'static str = if d == 10 {
            "a"
        } else if d == 11 {
            "b"
        } else if d == 12 {
            "c"
        } else if d == 13 {
            "d"
        } else if d == 14 {
            "e"
        } else {
            "f"
        };
        proof {
            reveal_strlit("a");
            reveal_strlit("b");
            reveal_strlit("c");
            reveal_strlit("d");
            reveal_strlit("e");
            reveal_strlit("f");
            assert(r@ =~= seq![spec_hex_char(d as int)]);
        }
        r
    }
}

/// Powers of ten.
pub open spec fn pow10(k: int) -> int
    decreases k,
{
    if k <= 0 {
        1
    } else {
        10 * pow10(k - 1)
    }
}

proof fn lemma_dec_chars_len(n: int, k: int)
    requires
        0 <= n,
        1 <= k,
        n < pow10(k),
    ensures
        1 <= spec_dec_chars(n).len() <= k,
    decreases k,
{
    if n < 10 {
    } else {
        lemma_pow10_pos(k - 1);
        assert(n / 10 < pow10(k - 1)) by (nonlinear_arith)
            requires
                0 <= n,
                n < 10 * pow10(k - 1),
                pow10(k - 1) >= 1,
        ;
        lemma_dec_chars_len(n / 10, k - 1);
    }
}

proof fn lemma_pow10_pos(k: int)
    ensures
        pow10(k) >= 1,
    decreases (if k <= 0 { 0int } else { k }),
{
    if k > 0 {
        lemma_pow10_pos(k - 1);
    }
}

/// A 64-bit value has at most twenty decimal digits.
pub proof fn lemma_dec_chars_len_u64(n: u64)
    ensures
        1 <= spec_dec_chars(n as int).len() <= 20,
{
    assert(pow10(20) == 0x56bc75e2d63100000) by {
        reveal_with_fuel(pow10, 21);
    }
    lemma_dec_chars_len(n as int, 20);
}

/// Formats a value in decimal.
pub fn dec_u64(n: u64) -> (r: String)
    ensures
        r@ == spec_dec_chars(n as int),
        r@.len() >= 1,
    decreases n,
{
    if n < 10 {
        String::from_str(digit_str(n))
    } else {
        let mut s = dec_u64(n / 10);
        s.append(digit_str(n % 10));
        s
    }
}

/// Formats a value as `0`, or negated with a minus sign.
pub fn neg_dec_u64(n: u64) -> (r: String)
    ensures
        r@ == spec_neg_dec_chars(n as int),
        r@.len() >= 1,
{
    if n == 0 {
        proof {
            reveal_strlit("0");
            assert("0"@ =~= seq!['0']);
        }
        String::from_str("0")
    } else {
        proof {
            reveal_strlit("-");
            assert("-"@ =~= seq!['-']);
        }
        let mut s = String::from_str("-");
        s.append(dec_u64(n).as_str());
        s
    }
}

/// Formats a value below one hundred as two zero-padded digits.
pub fn two_dig_u64(n: u64) -> (r: String)
    requires
        n < 100,
    ensures
        r@ == spec_two_dig_chars(n as int),
{
    let mut s = String::from_str(digit_str(n / 10));
    s.append(digit_str(n % 10));
    proof {
        assert(s@ =~= spec_two_dig_chars(n as int));
    }
    s
}

/// Formats a byte as two lowercase hex digits.
pub fn hex2_u8(b: u8) -> (r: String)
    ensures
        r@ == spec_hex2_chars(b as int),
{
    let mut s = String::from_str(hex_str(b as u64 / 16));
    s.append(hex_str(b as u64 % 16));
    proof {
        assert(s@ =~= spec_hex2_chars(b as int));
    }
    s
}

/// An ASS document timestamp for a time offset in milliseconds:
/// space-padded hour of day, minutes, seconds and centiseconds,
/// `H:MM:SS.cc`. Times wrap around at one day.
pub open spec fn spec_ass_time_chars(ms: int) -> Seq<char> {
    let t = ms % 86400000;
    let h = t / 3600000;
    let mi = (t / 60000) % 60;
    let se = (t / 1000) % 60;
    let cs = (t % 1000) / 10;
    (if h < 10 {
        seq![' ', spec_digit_char(h)]
    } else {
        spec_two_dig_chars(h)
    }) + seq![':'] + spec_two_dig_chars(mi) + seq![':'] + spec_two_dig_chars(se) + seq!['.']
        + spec_two_dig_chars(cs)
}

/// Formats a millisecond offset as an ASS document timestamp.
pub fn ass_time(ms: u64) -> (r: String)
    ensures
        r@ == spec_ass_time_chars(ms as int),
{
    let t: u64 = ms % 86400000;
    let h: u64 = t / 3600000;
    let mi: u64 = (t / 60000) % 60;
    let se: u64 = (t / 1000) % 60;
    let cs: u64 = (t % 1000) / 10;
    let mut s: String = if h < 10 {
        proof {
            reveal_strlit(" ");
        }
        let mut p = String::from_str(" ");
        p.append(digit_str(h));
        proof {
            assert(p@ =~= seq![' ', spec_digit_char(h as int)]);
        }
        p
    } else {
        two_dig_u64(h)
    };
    proof {
        reveal_strlit(":");
        reveal_strlit(".");
        assert(":"@ =~= seq![':']);
        assert("."@ =~= seq!['.']);
    }
    s.append(":");
    s.append(two_dig_u64(mi).as_str());
    s.append(":");
    s.append(two_dig_u64(se).as_str());
    s.append(".");
    s.append(two_dig_u64(cs).as_str());
    proof {
        assert(s@ =~= spec_ass_time_chars(ms as int));
    }
    s
}

} // verus!
