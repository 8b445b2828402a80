//! ASS subtitle text: the style preamble of the subtitle document
//! and the dialogue lines, both for the live stream (where a line is
//! a cluster payload) and for the batch document (where a line is a
//! `Dialogue:` statement with literal timestamps).

use vstd::prelude::*;
use vstd::utf8::encode_utf8;
use crate::fmt::{
    spec_dec_chars, spec_hex2_chars, spec_neg_dec_chars, spec_ass_time_chars, dec_u64, hex2_u8,
    neg_dec_u64, ass_time, lemma_dec_chars_len_u64,
};

verus! {

/// The subtitle-document preamble: script metadata and the one named
/// style, at the fixed base font size, that every dialogue line uses.
pub open spec fn spec_ass_header_chars() -> Seq<char> {
    "[Script Info]\nTitle: Danmaku file\nScriptType: v4.00+\nWrapStyle: 0\nScaledBorderAndShadow: yes\nYCbCr Matrix: None\nPlayResX: 1920\nPlayResY: 1080\n\n[V4+ Styles]\nFormat: Name, Fontname, Fontsize, PrimaryColour, SecondaryColour, OutlineColour, BackColour, Bold, Italic, Underline, StrikeOut, ScaleX, ScaleY, Spacing, Angle, BorderStyle, Outline, Shadow, Alignment, MarginL, MarginR, MarginV, Encoding\nStyle: Default,Sans,40,&H00FFFFFF,&H000000FF,&H00000000,&H00000000,0,0,0,0,100,100,0,0,1,1,0,7,0,0,0,1\n\n[Events]\nFormat: Layer, Start, End, Style, Name, MarginL, MarginR, MarginV, Effect, Text\n"@
}

/// Returns the subtitle-document preamble that opens a batch
/// document (and, embedded in the track header, a live stream).
pub fn ass_header_text() -> (r: &'static str)
    ensures
        r@ == spec_ass_header_chars(),
{
    "[Script Info]\nTitle: Danmaku file\nScriptType: v4.00+\nWrapStyle: 0\nScaledBorderAndShadow: yes\nYCbCr Matrix: None\nPlayResX: 1920\nPlayResY: 1080\n\n[V4+ Styles]\nFormat: Name, Fontname, Fontsize, PrimaryColour, SecondaryColour, OutlineColour, BackColour, Bold, Italic, Underline, StrikeOut, ScaleX, ScaleY, Spacing, Angle, BorderStyle, Outline, Shadow, Alignment, MarginL, MarginR, MarginV, Encoding\nStyle: Default,Sans,40,&H00FFFFFF,&H000000FF,&H00000000,&H00000000,0,0,0,0,100,100,0,0,1,1,0,7,0,0,0,1\n\n[Events]\nFormat: Layer, Start, End, Style, Name, MarginL, MarginR, MarginV, Effect, Text\n"
}

/// An inbound colour is usable once it carries at least the six hex
/// digits of its `RRGGBB` form.
pub open spec fn spec_valid_color(color: Seq<char>) -> bool {
    color.len() >= 6
}

/// The subtitle format wants the colour's bytes in `BBGGRR` order:
/// the pairs of the inbound `RRGGBB` form, reversed.
pub open spec fn spec_bgr_chars(color: Seq<char>) -> Seq<char> {
    color.subrange(4, 6) + color.subrange(2, 4) + color.subrange(0, 2)
}

fn append_bgr(s: &mut String, color: &str)
    requires
        spec_valid_color(color@),
    ensures
        final(s)@ == old(s)@ + spec_bgr_chars(color@),
{
    s.append(color.substring_char(4, 6));
    s.append(color.substring_char(2, 4));
    s.append(color.substring_char(0, 2));
    proof {
        assert(s@ =~= old(s)@ + spec_bgr_chars(color@));
    }
}

/// A live dialogue line: the sequence counter, the style and name
/// fields, the override tags (opacity, font size, colour, and the
/// scroll from the right edge to `-length` past the left edge at
/// lane height `y`), then the optional `nick: ` prefix and the body.
pub open spec fn spec_live_line_chars(
    read_order: int,
    show_nick: bool,
    nick: Seq<char>,
    body: Seq<char>,
    alpha: int,
    font_size: int,
    color: Seq<char>,
    y: int,
    length: int,
) -> Seq<char> {
    spec_dec_chars(read_order) + ",0,Default,"@ + nick + ",0,0,0,,{\\alpha"@ + spec_hex2_chars(
        alpha,
    ) + "\\fs"@ + spec_dec_chars(font_size) + "\\1c&"@ + spec_bgr_chars(color) + "&\\move(1920,"@
        + spec_dec_chars(y) + ","@ + spec_neg_dec_chars(length) + ","@ + spec_dec_chars(y) + ")}"@
        + (if show_nick {
        nick + ": "@
    } else {
        Seq::empty()
    }) + body
}

/// A placeholder dialogue line: carries only the sequence counter and
/// a reserved name, no visible text.
pub open spec fn spec_placeholder_line_chars(read_order: int) -> Seq<char> {
    spec_dec_chars(read_order) + ",0,Default,placeholder,20,20,2,,"@
}

/// Builds a live dialogue line.
pub fn build_live_line(
    read_order: u64,
    show_nick: bool,
    nick: &str,
    body: &str,
    alpha: u8,
    font_size: u64,
    color: &str,
    y: u64,
    length: u64,
) -> (r: String)
    requires
        spec_valid_color(color@),
    ensures
        r@ == spec_live_line_chars(
            read_order as int,
            show_nick,
            nick@,
            body@,
            alpha as int,
            font_size as int,
            color@,
            y as int,
            length as int,
        ),
        r@.len() <= 200 + 2 * nick@.len() + body@.len(),
{
    let mut s = dec_u64(read_order);
    s.append(",0,Default,");
    s.append(nick);
    s.append(",0,0,0,,{\\alpha");
    s.append(hex2_u8(alpha).as_str());
    s.append("\\fs");
    s.append(dec_u64(font_size).as_str());
    s.append("\\1c&");
    append_bgr(&mut s, color);
    s.append("&\\move(1920,");
    s.append(dec_u64(y).as_str());
    s.append(",");
    s.append(neg_dec_u64(length).as_str());
    s.append(",");
    s.append(dec_u64(y).as_str());
    s.append(")}");
    if show_nick {
        s.append(nick);
        s.append(": ");
    }
    s.append(body);
    proof {
        assert(s@ =~= spec_live_line_chars(
            read_order as int,
            show_nick,
            nick@,
            body@,
            alpha as int,
            font_size as int,
            color@,
            y as int,
            length as int,
        ));
        lemma_dec_chars_len_u64(read_order);
        lemma_dec_chars_len_u64(font_size);
        lemma_dec_chars_len_u64(y);
        lemma_dec_chars_len_u64(length);
        reveal_strlit(",0,Default,");
        reveal_strlit(",0,0,0,,{\\alpha");
        reveal_strlit("\\fs");
        reveal_strlit("\\1c&");
        reveal_strlit("&\\move(1920,");
        reveal_strlit(",");
        reveal_strlit(")}");
        reveal_strlit(": ");
    }
    s
}

/// Builds a placeholder dialogue line.
pub fn build_placeholder_line(read_order: u64) -> (r: String)
    ensures
        r@ == spec_placeholder_line_chars(read_order as int),
        r@.len() <= 60,
{
    let mut s = dec_u64(read_order);
    s.append(",0,Default,placeholder,20,20,2,,");
    proof {
        lemma_dec_chars_len_u64(read_order);
        reveal_strlit(",0,Default,placeholder,20,20,2,,");
    }
    s
}

/// A batch dialogue statement for a fixed-position comment, anchored
/// to the bottom (`\an2`) or the top (`\an8`) of the screen, shown
/// from `start_ms` to `end_ms`.
#[verifier::opaque]
pub open spec fn spec_batch_fixed_line_chars(
    start_ms: int,
    end_ms: int,
    alpha: int,
    font_size: int,
    color: Seq<char>,
    bottom: bool,
    body: Seq<char>,
) -> Seq<char> {
    "Dialogue: 0,"@ + spec_ass_time_chars(start_ms) + ","@ + spec_ass_time_chars(end_ms)
        + ",Default,,0,0,0,,{\\alpha"@ + spec_hex2_chars(alpha) + "\\fs"@ + spec_dec_chars(
        font_size,
    ) + "\\1c&"@ + spec_bgr_chars(color) + (if bottom {
        "&\\an2}"@
    } else {
        "&\\an8}"@
    }) + body
}

/// A batch dialogue statement for a scrolling comment, shown from
/// `start_ms` to `end_ms` on the lane at height `y`.
#[verifier::opaque]
pub open spec fn spec_batch_scroll_line_chars(
    start_ms: int,
    end_ms: int,
    alpha: int,
    font_size: int,
    color: Seq<char>,
    y: int,
    length: int,
    body: Seq<char>,
) -> Seq<char> {
    "Dialogue: 0,"@ + spec_ass_time_chars(start_ms) + ","@ + spec_ass_time_chars(end_ms)
        + ",Default,,0,0,0,,{\\alpha"@ + spec_hex2_chars(alpha) + "\\fs"@ + spec_dec_chars(
        font_size,
    ) + "\\1c&"@ + spec_bgr_chars(color) + "&\\move(1920,"@ + spec_dec_chars(y) + ","@
        + spec_neg_dec_chars(length) + ","@ + spec_dec_chars(y) + ")}"@ + body
}

fn batch_line_head(
    start_ms: u64,
    end_ms: u64,
    alpha: u8,
    font_size: u64,
    color: &str,
) -> (r: String)
    requires
        spec_valid_color(color@),
    ensures
        r@ == "Dialogue: 0,"@ + spec_ass_time_chars(start_ms as int) + ","@ + spec_ass_time_chars(
            end_ms as int,
        ) + ",Default,,0,0,0,,{\\alpha"@ + spec_hex2_chars(alpha as int) + "\\fs"@
            + spec_dec_chars(font_size as int) + "\\1c&"@ + spec_bgr_chars(color@),
        r@.len() <= 100,
{
    let mut s = String::from_str("Dialogue: 0,");
    s.append(ass_time(start_ms).as_str());
    s.append(",");
    s.append(ass_time(end_ms).as_str());
    s.append(",Default,,0,0,0,,{\\alpha");
    s.append(hex2_u8(alpha).as_str());
    s.append("\\fs");
    s.append(dec_u64(font_size).as_str());
    s.append("\\1c&");
    append_bgr(&mut s, color);
    proof {
        lemma_dec_chars_len_u64(font_size);
        reveal_strlit("Dialogue: 0,");
        reveal_strlit(",");
        reveal_strlit(",Default,,0,0,0,,{\\alpha");
        reveal_strlit("\\fs");
        reveal_strlit("\\1c&");
    }
    s
}

/// Builds a batch dialogue statement for a fixed-position comment.
pub fn build_batch_fixed_line(
    start_ms: u64,
    end_ms: u64,
    alpha: u8,
    font_size: u64,
    color: &str,
    bottom: bool,
    body: &str,
) -> (r: String)
    requires
        spec_valid_color(color@),
    ensures
        r@ == spec_batch_fixed_line_chars(
            start_ms as int,
            end_ms as int,
            alpha as int,
            font_size as int,
            color@,
            bottom,
            body@,
        ),
        r@.len() <= 120 + body@.len(),
{
    let mut s = batch_line_head(start_ms, end_ms, alpha, font_size, color);
    if bottom {
        s.append("&\\an2}");
        proof {
            reveal_strlit("&\\an2}");
        }
    } else {
        s.append("&\\an8}");
        proof {
            reveal_strlit("&\\an8}");
        }
    }
    s.append(body);
    proof {
        reveal(spec_batch_fixed_line_chars);
        assert(s@ =~= spec_batch_fixed_line_chars(
            start_ms as int,
            end_ms as int,
            alpha as int,
            font_size as int,
            color@,
            bottom,
            body@,
        ));
    }
    s
}

/// Builds a batch dialogue statement for a scrolling comment.
pub fn build_batch_scroll_line(
    start_ms: u64,
    end_ms: u64,
    alpha: u8,
    font_size: u64,
    color: &str,
    y: u64,
    length: u64,
    body: &str,
) -> (r: String)
    requires
        spec_valid_color(color@),
    ensures
        r@ == spec_batch_scroll_line_chars(
            start_ms as int,
            end_ms as int,
            alpha as int,
            font_size as int,
            color@,
            y as int,
            length as int,
            body@,
        ),
        r@.len() <= 180 + body@.len(),
{
    let mut s = batch_line_head(start_ms, end_ms, alpha, font_size, color);
    s.append("&\\move(1920,");
    s.append(dec_u64(y).as_str());
    s.append(",");
    s.append(neg_dec_u64(length).as_str());
    s.append(",");
    s.append(dec_u64(y).as_str());
    s.append(")}");
    s.append(body);
    proof {
        reveal(spec_batch_scroll_line_chars);
        lemma_dec_chars_len_u64(y);
        lemma_dec_chars_len_u64(length);
        reveal_strlit("&\\move(1920,");
        reveal_strlit(",");
        reveal_strlit(")}");
        assert(s@ =~= spec_batch_scroll_line_chars(
            start_ms as int,
            end_ms as int,
            alpha as int,
            font_size as int,
            color@,
            y as int,
            length as int,
            body@,
        ));
    }
    s
}

/// A character encodes to at most four UTF-8 bytes.
pub proof fn lemma_encode_utf8_len(chars: Seq<char>)
    ensures
        encode_utf8(chars).len() <= 4 * chars.len(),
    decreases chars.len(),
{
    if chars.len() > 0 {
        lemma_encode_utf8_len(chars.drop_first());
    }
}

} // verus!
