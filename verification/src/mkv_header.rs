//! The Matroska side of the stream: the one-time header that opens a
//! live session and the per-comment cluster records appended after it.
//!
//! Every cluster is a fixed-shape binary record wrapping one subtitle
//! dialogue line. Each size field declares the exact byte count of
//! everything that follows until its own element ends; a mismatch
//! corrupts the stream for the player's demuxer, so the declared
//! sizes are proved against the encoding itself
//! (see [`lemma_cluster_size_fields_match`]).

use vstd::prelude::*;

verus! {

/// Byte length of the fixed stream header.
pub const MKV_HEADER_LEN: usize = 1218;

/// The fixed stream header: declares one "S_TEXT/ASS" subtitle track
/// whose codec-private payload is the ASS style preamble, under a
/// segment with an unknown (open-ended) total length, so that the
/// stream may be extended indefinitely by appending clusters.
pub open spec fn spec_mkv_header() -> Seq<u8> {
    seq![
        0x1au8, 0x45u8, 0xdfu8, 0xa3u8, 0xa3u8, 0x42u8, 0x86u8, 0x81u8, 0x01u8, 0x42u8, 0xf7u8, 0x81u8, 0x01u8, 0x42u8, 0xf2u8, 0x81u8,
        0x04u8, 0x42u8, 0xf3u8, 0x81u8, 0x08u8, 0x42u8, 0x82u8, 0x88u8, 0x6du8, 0x61u8, 0x74u8, 0x72u8, 0x6fu8, 0x73u8, 0x6bu8, 0x61u8,
        0x42u8, 0x87u8, 0x81u8, 0x04u8, 0x42u8, 0x85u8, 0x81u8, 0x02u8, 0x18u8, 0x53u8, 0x80u8, 0x67u8, 0x01u8, 0xffu8, 0xffu8, 0xffu8,
        0xffu8, 0xffu8, 0xffu8, 0xffu8, 0x11u8, 0x4du8, 0x9bu8, 0x74u8, 0xc1u8, 0xbfu8, 0x84u8, 0x35u8, 0x70u8, 0x23u8, 0xb2u8, 0x4du8,
        0xbbu8, 0x8bu8, 0x53u8, 0xabu8, 0x84u8, 0x15u8, 0x49u8, 0xa9u8, 0x66u8, 0x53u8, 0xacu8, 0x81u8, 0xe5u8, 0x4du8, 0xbbu8, 0x8cu8,
        0x53u8, 0xabu8, 0x84u8, 0x16u8, 0x54u8, 0xaeu8, 0x6bu8, 0x53u8, 0xacu8, 0x82u8, 0x01u8, 0x35u8, 0x4du8, 0xbbu8, 0x8cu8, 0x53u8,
        0xabu8, 0x84u8, 0x12u8, 0x54u8, 0xc3u8, 0x67u8, 0x53u8, 0xacu8, 0x82u8, 0x04u8, 0x06u8, 0x4du8, 0xbbu8, 0x8cu8, 0x53u8, 0xabu8,
        0x84u8, 0x1cu8, 0x53u8, 0xbbu8, 0x6bu8, 0x53u8, 0xacu8, 0x82u8, 0x04u8, 0xbeu8, 0xecu8, 0x01u8, 0x00u8, 0x00u8, 0x00u8, 0x00u8,
        0x00u8, 0x00u8, 0x96u8, 0x00u8, 0x00u8, 0x00u8, 0x00u8, 0x00u8, 0x00u8, 0x00u8, 0x00u8, 0x00u8, 0x00u8, 0x00u8, 0x00u8, 0x00u8,
        0x00u8, 0x00u8, 0x00u8, 0x00u8, 0x00u8, 0x00u8, 0x00u8, 0x00u8, 0x00u8, 0x00u8, 0x00u8, 0x00u8, 0x00u8, 0x00u8, 0x00u8, 0x00u8,
        0x00u8, 0x00u8, 0x00u8, 0x00u8, 0x00u8, 0x00u8, 0x00u8, 0x00u8, 0x00u8, 0x00u8, 0x00u8, 0x00u8, 0x00u8, 0x00u8, 0x00u8, 0x00u8,
        0x00u8, 0x00u8, 0x00u8, 0x00u8, 0x00u8, 0x00u8, 0x00u8, 0x00u8, 0x00u8, 0x00u8, 0x00u8, 0x00u8, 0x00u8, 0x00u8, 0x00u8, 0x00u8,
        0x00u8, 0x00u8, 0x00u8, 0x00u8, 0x00u8, 0x00u8, 0x00u8, 0x00u8, 0x00u8, 0x00u8, 0x00u8, 0x00u8, 0x00u8, 0x00u8, 0x00u8, 0x00u8,
        0x00u8, 0x00u8, 0x00u8, 0x00u8, 0x00u8, 0x00u8, 0x00u8, 0x00u8, 0x00u8, 0x00u8, 0x00u8, 0x00u8, 0x00u8, 0x00u8, 0x00u8, 0x00u8,
        0x00u8, 0x00u8, 0x00u8, 0x00u8, 0x00u8, 0x00u8, 0x00u8, 0x00u8, 0x00u8, 0x00u8, 0x00u8, 0x00u8, 0x00u8, 0x00u8, 0x00u8, 0x00u8,
        0x00u8, 0x00u8, 0x00u8, 0x00u8, 0x00u8, 0x00u8, 0x00u8, 0x00u8, 0x00u8, 0x00u8, 0x00u8, 0x00u8, 0x00u8, 0x00u8, 0x00u8, 0x00u8,
        0x00u8, 0x00u8, 0x00u8, 0x00u8, 0x00u8, 0x00u8, 0x00u8, 0x00u8, 0x00u8, 0x00u8, 0x00u8, 0x00u8, 0x00u8, 0x00u8, 0x00u8, 0x00u8,
        0x00u8, 0x00u8, 0x00u8, 0x00u8, 0x00u8, 0x00u8, 0x00u8, 0x00u8, 0x00u8, 0x15u8, 0x49u8, 0xa9u8, 0x66u8, 0xcbu8, 0xbfu8, 0x84u8,
        0x63u8, 0xabu8, 0xffu8, 0x6eu8, 0x2au8, 0xd7u8, 0xb1u8, 0x83u8, 0x0fu8, 0x42u8, 0x40u8, 0x4du8, 0x80u8, 0x8du8, 0x4cu8, 0x61u8,
        0x76u8, 0x66u8, 0x35u8, 0x38u8, 0x2eu8, 0x32u8, 0x39u8, 0x2eu8, 0x31u8, 0x30u8, 0x30u8, 0x57u8, 0x41u8, 0x8du8, 0x4cu8, 0x61u8,
        0x76u8, 0x66u8, 0x35u8, 0x38u8, 0x2eu8, 0x32u8, 0x39u8, 0x2eu8, 0x31u8, 0x30u8, 0x30u8, 0x73u8, 0xa4u8, 0x90u8, 0x07u8, 0x51u8,
        0x6fu8, 0x2fu8, 0x07u8, 0x62u8, 0x01u8, 0xf2u8, 0xd0u8, 0x3cu8, 0x06u8, 0xd9u8, 0x54u8, 0x7eu8, 0x86u8, 0x53u8, 0x44u8, 0x89u8,
        0x88u8, 0x40u8, 0xb3u8, 0x88u8, 0x00u8, 0x00u8, 0x00u8, 0x00u8, 0x00u8, 0x16u8, 0x54u8, 0xaeu8, 0x6bu8, 0x42u8, 0xcbu8, 0xbfu8,
        0x84u8, 0xbau8, 0x3cu8, 0x54u8, 0x88u8, 0xaeu8, 0x01u8, 0x00u8, 0x00u8, 0x00u8, 0x00u8, 0x00u8, 0x02u8, 0xbcu8, 0xd7u8, 0x81u8,
        0x01u8, 0x73u8, 0xc5u8, 0x81u8, 0x01u8, 0x9cu8, 0x81u8, 0x00u8, 0x22u8, 0xb5u8, 0x9cu8, 0x83u8, 0x75u8, 0x6eu8, 0x64u8, 0x86u8,
        0x8au8, 0x53u8, 0x5fu8, 0x54u8, 0x45u8, 0x58u8, 0x54u8, 0x2fu8, 0x41u8, 0x53u8, 0x53u8, 0x83u8, 0x81u8, 0x11u8, 0x63u8, 0xa2u8,
        0x42u8, 0x98u8, 0x5bu8, 0x53u8, 0x63u8, 0x72u8, 0x69u8, 0x70u8, 0x74u8, 0x20u8, 0x49u8, 0x6eu8, 0x66u8, 0x6fu8, 0x5du8, 0x0au8,
        0x3bu8, 0x20u8, 0x53u8, 0x63u8, 0x72u8, 0x69u8, 0x70u8, 0x74u8, 0x20u8, 0x67u8, 0x65u8, 0x6eu8, 0x65u8, 0x72u8, 0x61u8, 0x74u8,
        0x65u8, 0x64u8, 0x20u8, 0x62u8, 0x79u8, 0x20u8, 0x51u8, 0x4cu8, 0x69u8, 0x76u8, 0x65u8, 0x50u8, 0x6cu8, 0x61u8, 0x79u8, 0x65u8,
        0x72u8, 0x0au8, 0x3bu8, 0x20u8, 0x68u8, 0x74u8, 0x74u8, 0x70u8, 0x73u8, 0x3au8, 0x2fu8, 0x2fu8, 0x67u8, 0x69u8, 0x74u8, 0x68u8,
        0x75u8, 0x62u8, 0x2eu8, 0x63u8, 0x6fu8, 0x6du8, 0x2fu8, 0x49u8, 0x73u8, 0x6fu8, 0x61u8, 0x53u8, 0x46u8, 0x6cu8, 0x75u8, 0x73u8,
        0x2fu8, 0x51u8, 0x4cu8, 0x69u8, 0x76u8, 0x65u8, 0x50u8, 0x6cu8, 0x61u8, 0x79u8, 0x65u8, 0x72u8, 0x0au8, 0x54u8, 0x69u8, 0x74u8,
        0x6cu8, 0x65u8, 0x3au8, 0x20u8, 0x44u8, 0x61u8, 0x6eu8, 0x6du8, 0x61u8, 0x6bu8, 0x75u8, 0x20u8, 0x66u8, 0x69u8, 0x6cu8, 0x65u8,
        0x0au8, 0x53u8, 0x63u8, 0x72u8, 0x69u8, 0x70u8, 0x74u8, 0x54u8, 0x79u8, 0x70u8, 0x65u8, 0x3au8, 0x20u8, 0x76u8, 0x34u8, 0x2eu8,
        0x30u8, 0x30u8, 0x2bu8, 0x0au8, 0x57u8, 0x72u8, 0x61u8, 0x70u8, 0x53u8, 0x74u8, 0x79u8, 0x6cu8, 0x65u8, 0x3au8, 0x20u8, 0x30u8,
        0x0au8, 0x53u8, 0x63u8, 0x61u8, 0x6cu8, 0x65u8, 0x64u8, 0x42u8, 0x6fu8, 0x72u8, 0x64u8, 0x65u8, 0x72u8, 0x41u8, 0x6eu8, 0x64u8,
        0x53u8, 0x68u8, 0x61u8, 0x64u8, 0x6fu8, 0x77u8, 0x3au8, 0x20u8, 0x79u8, 0x65u8, 0x73u8, 0x0au8, 0x59u8, 0x43u8, 0x62u8, 0x43u8,
        0x72u8, 0x20u8, 0x4du8, 0x61u8, 0x74u8, 0x72u8, 0x69u8, 0x78u8, 0x3au8, 0x20u8, 0x4eu8, 0x6fu8, 0x6eu8, 0x65u8, 0x0au8, 0x50u8,
        0x6cu8, 0x61u8, 0x79u8, 0x52u8, 0x65u8, 0x73u8, 0x58u8, 0x3au8, 0x20u8, 0x31u8, 0x39u8, 0x32u8, 0x30u8, 0x0au8, 0x50u8, 0x6cu8,
        0x61u8, 0x79u8, 0x52u8, 0x65u8, 0x73u8, 0x59u8, 0x3au8, 0x20u8, 0x31u8, 0x30u8, 0x38u8, 0x30u8, 0x0au8, 0x0au8, 0x5bu8, 0x56u8,
        0x34u8, 0x2bu8, 0x20u8, 0x53u8, 0x74u8, 0x79u8, 0x6cu8, 0x65u8, 0x73u8, 0x5du8, 0x0au8, 0x46u8, 0x6fu8, 0x72u8, 0x6du8, 0x61u8,
        0x74u8, 0x3au8, 0x20u8, 0x4eu8, 0x61u8, 0x6du8, 0x65u8, 0x2cu8, 0x20u8, 0x46u8, 0x6fu8, 0x6eu8, 0x74u8, 0x6eu8, 0x61u8, 0x6du8,
        0x65u8, 0x2cu8, 0x20u8, 0x46u8, 0x6fu8, 0x6eu8, 0x74u8, 0x73u8, 0x69u8, 0x7au8, 0x65u8, 0x2cu8, 0x20u8, 0x50u8, 0x72u8, 0x69u8,
        0x6du8, 0x61u8, 0x72u8, 0x79u8, 0x43u8, 0x6fu8, 0x6cu8, 0x6fu8, 0x75u8, 0x72u8, 0x2cu8, 0x20u8, 0x53u8, 0x65u8, 0x63u8, 0x6fu8,
        0x6eu8, 0x64u8, 0x61u8, 0x72u8, 0x79u8, 0x43u8, 0x6fu8, 0x6cu8, 0x6fu8, 0x75u8, 0x72u8, 0x2cu8, 0x20u8, 0x4fu8, 0x75u8, 0x74u8,
        0x6cu8, 0x69u8, 0x6eu8, 0x65u8, 0x43u8, 0x6fu8, 0x6cu8, 0x6fu8, 0x75u8, 0x72u8, 0x2cu8, 0x20u8, 0x42u8, 0x61u8, 0x63u8, 0x6bu8,
        0x43u8, 0x6fu8, 0x6cu8, 0x6fu8, 0x75u8, 0x72u8, 0x2cu8, 0x20u8, 0x42u8, 0x6fu8, 0x6cu8, 0x64u8, 0x2cu8, 0x20u8, 0x49u8, 0x74u8,
        0x61u8, 0x6cu8, 0x69u8, 0x63u8, 0x2cu8, 0x20u8, 0x55u8, 0x6eu8, 0x64u8, 0x65u8, 0x72u8, 0x6cu8, 0x69u8, 0x6eu8, 0x65u8, 0x2cu8,
        0x20u8, 0x53u8, 0x74u8, 0x72u8, 0x69u8, 0x6bu8, 0x65u8, 0x4fu8, 0x75u8, 0x74u8, 0x2cu8, 0x20u8, 0x53u8, 0x63u8, 0x61u8, 0x6cu8,
        0x65u8, 0x58u8, 0x2cu8, 0x20u8, 0x53u8, 0x63u8, 0x61u8, 0x6cu8, 0x65u8, 0x59u8, 0x2cu8, 0x20u8, 0x53u8, 0x70u8, 0x61u8, 0x63u8,
        0x69u8, 0x6eu8, 0x67u8, 0x2cu8, 0x20u8, 0x41u8, 0x6eu8, 0x67u8, 0x6cu8, 0x65u8, 0x2cu8, 0x20u8, 0x42u8, 0x6fu8, 0x72u8, 0x64u8,
        0x65u8, 0x72u8, 0x53u8, 0x74u8, 0x79u8, 0x6cu8, 0x65u8, 0x2cu8, 0x20u8, 0x4fu8, 0x75u8, 0x74u8, 0x6cu8, 0x69u8, 0x6eu8, 0x65u8,
        0x2cu8, 0x20u8, 0x53u8, 0x68u8, 0x61u8, 0x64u8, 0x6fu8, 0x77u8, 0x2cu8, 0x20u8, 0x41u8, 0x6cu8, 0x69u8, 0x67u8, 0x6eu8, 0x6du8,
        0x65u8, 0x6eu8, 0x74u8, 0x2cu8, 0x20u8, 0x4du8, 0x61u8, 0x72u8, 0x67u8, 0x69u8, 0x6eu8, 0x4cu8, 0x2cu8, 0x20u8, 0x4du8, 0x61u8,
        0x72u8, 0x67u8, 0x69u8, 0x6eu8, 0x52u8, 0x2cu8, 0x20u8, 0x4du8, 0x61u8, 0x72u8, 0x67u8, 0x69u8, 0x6eu8, 0x56u8, 0x2cu8, 0x20u8,
        0x45u8, 0x6eu8, 0x63u8, 0x6fu8, 0x64u8, 0x69u8, 0x6eu8, 0x67u8, 0x0au8, 0x53u8, 0x74u8, 0x79u8, 0x6cu8, 0x65u8, 0x3au8, 0x20u8,
        0x44u8, 0x65u8, 0x66u8, 0x61u8, 0x75u8, 0x6cu8, 0x74u8, 0x2cu8, 0x53u8, 0x61u8, 0x6eu8, 0x73u8, 0x2cu8, 0x34u8, 0x30u8, 0x2cu8,
        0x26u8, 0x48u8, 0x30u8, 0x30u8, 0x46u8, 0x46u8, 0x46u8, 0x46u8, 0x46u8, 0x46u8, 0x2cu8, 0x26u8, 0x48u8, 0x30u8, 0x30u8, 0x30u8,
        0x30u8, 0x30u8, 0x30u8, 0x46u8, 0x46u8, 0x2cu8, 0x26u8, 0x48u8, 0x30u8, 0x30u8, 0x30u8, 0x30u8, 0x30u8, 0x30u8, 0x30u8, 0x30u8,
        0x2cu8, 0x26u8, 0x48u8, 0x30u8, 0x30u8, 0x30u8, 0x30u8, 0x30u8, 0x30u8, 0x30u8, 0x30u8, 0x2cu8, 0x30u8, 0x2cu8, 0x30u8, 0x2cu8,
        0x30u8, 0x2cu8, 0x30u8, 0x2cu8, 0x31u8, 0x30u8, 0x30u8, 0x2cu8, 0x31u8, 0x30u8, 0x30u8, 0x2cu8, 0x30u8, 0x2cu8, 0x30u8, 0x2cu8,
        0x31u8, 0x2cu8, 0x31u8, 0x2cu8, 0x30u8, 0x2cu8, 0x37u8, 0x2cu8, 0x30u8, 0x2cu8, 0x30u8, 0x2cu8, 0x30u8, 0x2cu8, 0x31u8, 0x0au8,
        0x0au8, 0x5bu8, 0x45u8, 0x76u8, 0x65u8, 0x6eu8, 0x74u8, 0x73u8, 0x5du8, 0x0au8, 0x46u8, 0x6fu8, 0x72u8, 0x6du8, 0x61u8, 0x74u8,
        0x3au8, 0x20u8, 0x4cu8, 0x61u8, 0x79u8, 0x65u8, 0x72u8, 0x2cu8, 0x20u8, 0x53u8, 0x74u8, 0x61u8, 0x72u8, 0x74u8, 0x2cu8, 0x20u8,
        0x45u8, 0x6eu8, 0x64u8, 0x2cu8, 0x20u8, 0x53u8, 0x74u8, 0x79u8, 0x6cu8, 0x65u8, 0x2cu8, 0x20u8, 0x4eu8, 0x61u8, 0x6du8, 0x65u8,
        0x2cu8, 0x20u8, 0x4du8, 0x61u8, 0x72u8, 0x67u8, 0x69u8, 0x6eu8, 0x4cu8, 0x2cu8, 0x20u8, 0x4du8, 0x61u8, 0x72u8, 0x67u8, 0x69u8,
        0x6eu8, 0x52u8, 0x2cu8, 0x20u8, 0x4du8, 0x61u8, 0x72u8, 0x67u8, 0x69u8, 0x6eu8, 0x56u8, 0x2cu8, 0x20u8, 0x45u8, 0x66u8, 0x66u8,
        0x65u8, 0x63u8, 0x74u8, 0x2cu8, 0x20u8, 0x54u8, 0x65u8, 0x78u8, 0x74u8, 0x0au8, 0x12u8, 0x54u8, 0xc3u8, 0x67u8, 0x40u8, 0x82u8,
        0xbfu8, 0x84u8, 0xc0u8, 0xe7u8, 0x7du8, 0x7eu8, 0x73u8, 0x73u8, 0x01u8, 0x00u8, 0x00u8, 0x00u8, 0x00u8, 0x00u8, 0x00u8, 0x2eu8,
        0x63u8, 0xc0u8, 0x01u8, 0x00u8, 0x00u8, 0x00u8, 0x00u8, 0x00u8, 0x00u8, 0x00u8, 0x67u8, 0xc8u8, 0x01u8, 0x00u8, 0x00u8, 0x00u8,
        0x00u8, 0x00u8, 0x00u8, 0x1au8, 0x45u8, 0xa3u8, 0x87u8, 0x45u8, 0x4eu8, 0x43u8, 0x4fu8, 0x44u8, 0x45u8, 0x52u8, 0x44u8, 0x87u8,
        0x8du8, 0x4cu8, 0x61u8, 0x76u8, 0x66u8, 0x35u8, 0x38u8, 0x2eu8, 0x32u8, 0x39u8, 0x2eu8, 0x31u8, 0x30u8, 0x30u8, 0x73u8, 0x73u8,
        0x01u8, 0x00u8, 0x00u8, 0x00u8, 0x00u8, 0x00u8, 0x00u8, 0x3au8, 0x63u8, 0xc0u8, 0x01u8, 0x00u8, 0x00u8, 0x00u8, 0x00u8, 0x00u8,
        0x00u8, 0x04u8, 0x63u8, 0xc5u8, 0x81u8, 0x01u8, 0x67u8, 0xc8u8, 0x01u8, 0x00u8, 0x00u8, 0x00u8, 0x00u8, 0x00u8, 0x00u8, 0x22u8,
        0x45u8, 0xa3u8, 0x88u8, 0x44u8, 0x55u8, 0x52u8, 0x41u8, 0x54u8, 0x49u8, 0x4fu8, 0x4eu8, 0x44u8, 0x87u8, 0x94u8, 0x30u8, 0x30u8,
        0x3au8, 0x30u8, 0x30u8, 0x3au8, 0x30u8, 0x35u8, 0x2eu8, 0x30u8, 0x30u8, 0x30u8, 0x30u8, 0x30u8, 0x30u8, 0x30u8, 0x30u8, 0x30u8,
        0x00u8, 0x00u8,
    ]
}

/// Returns the one-time stream header written before the first
/// cluster of a live session.
pub fn get_mkv_header() -> (r: Vec<u8>)
    ensures
        r@ == spec_mkv_header(),
        r@.len() == MKV_HEADER_LEN,
{
    let v: Vec<u8> = vec![
        0x1au8, 0x45u8, 0xdfu8, 0xa3u8, 0xa3u8, 0x42u8, 0x86u8, 0x81u8, 0x01u8, 0x42u8, 0xf7u8, 0x81u8, 0x01u8, 0x42u8, 0xf2u8, 0x81u8,
        0x04u8, 0x42u8, 0xf3u8, 0x81u8, 0x08u8, 0x42u8, 0x82u8, 0x88u8, 0x6du8, 0x61u8, 0x74u8, 0x72u8, 0x6fu8, 0x73u8, 0x6bu8, 0x61u8,
        0x42u8, 0x87u8, 0x81u8, 0x04u8, 0x42u8, 0x85u8, 0x81u8, 0x02u8, 0x18u8, 0x53u8, 0x80u8, 0x67u8, 0x01u8, 0xffu8, 0xffu8, 0xffu8,
        0xffu8, 0xffu8, 0xffu8, 0xffu8, 0x11u8, 0x4du8, 0x9bu8, 0x74u8, 0xc1u8, 0xbfu8, 0x84u8, 0x35u8, 0x70u8, 0x23u8, 0xb2u8, 0x4du8,
        0xbbu8, 0x8bu8, 0x53u8, 0xabu8, 0x84u8, 0x15u8, 0x49u8, 0xa9u8, 0x66u8, 0x53u8, 0xacu8, 0x81u8, 0xe5u8, 0x4du8, 0xbbu8, 0x8cu8,
        0x53u8, 0xabu8, 0x84u8, 0x16u8, 0x54u8, 0xaeu8, 0x6bu8, 0x53u8, 0xacu8, 0x82u8, 0x01u8, 0x35u8, 0x4du8, 0xbbu8, 0x8cu8, 0x53u8,
        0xabu8, 0x84u8, 0x12u8, 0x54u8, 0xc3u8, 0x67u8, 0x53u8, 0xacu8, 0x82u8, 0x04u8, 0x06u8, 0x4du8, 0xbbu8, 0x8cu8, 0x53u8, 0xabu8,
        0x84u8, 0x1cu8, 0x53u8, 0xbbu8, 0x6bu8, 0x53u8, 0xacu8, 0x82u8, 0x04u8, 0xbeu8, 0xecu8, 0x01u8, 0x00u8, 0x00u8, 0x00u8, 0x00u8,
        0x00u8, 0x00u8, 0x96u8, 0x00u8, 0x00u8, 0x00u8, 0x00u8, 0x00u8, 0x00u8, 0x00u8, 0x00u8, 0x00u8, 0x00u8, 0x00u8, 0x00u8, 0x00u8,
        0x00u8, 0x00u8, 0x00u8, 0x00u8, 0x00u8, 0x00u8, 0x00u8, 0x00u8, 0x00u8, 0x00u8, 0x00u8, 0x00u8, 0x00u8, 0x00u8, 0x00u8, 0x00u8,
        0x00u8, 0x00u8, 0x00u8, 0x00u8, 0x00u8, 0x00u8, 0x00u8, 0x00u8, 0x00u8, 0x00u8, 0x00u8, 0x00u8, 0x00u8, 0x00u8, 0x00u8, 0x00u8,
        0x00u8, 0x00u8, 0x00u8, 0x00u8, 0x00u8, 0x00u8, 0x00u8, 0x00u8, 0x00u8, 0x00u8, 0x00u8, 0x00u8, 0x00u8, 0x00u8, 0x00u8, 0x00u8,
        0x00u8, 0x00u8, 0x00u8, 0x00u8, 0x00u8, 0x00u8, 0x00u8, 0x00u8, 0x00u8, 0x00u8, 0x00u8, 0x00u8, 0x00u8, 0x00u8, 0x00u8, 0x00u8,
        0x00u8, 0x00u8, 0x00u8, 0x00u8, 0x00u8, 0x00u8, 0x00u8, 0x00u8, 0x00u8, 0x00u8, 0x00u8, 0x00u8, 0x00u8, 0x00u8, 0x00u8, 0x00u8,
        0x00u8, 0x00u8, 0x00u8, 0x00u8, 0x00u8, 0x00u8, 0x00u8, 0x00u8, 0x00u8, 0x00u8, 0x00u8, 0x00u8, 0x00u8, 0x00u8, 0x00u8, 0x00u8,
        0x00u8, 0x00u8, 0x00u8, 0x00u8, 0x00u8, 0x00u8, 0x00u8, 0x00u8, 0x00u8, 0x00u8, 0x00u8, 0x00u8, 0x00u8, 0x00u8, 0x00u8, 0x00u8,
        0x00u8, 0x00u8, 0x00u8, 0x00u8, 0x00u8, 0x00u8, 0x00u8, 0x00u8, 0x00u8, 0x00u8, 0x00u8, 0x00u8, 0x00u8, 0x00u8, 0x00u8, 0x00u8,
        0x00u8, 0x00u8, 0x00u8, 0x00u8, 0x00u8, 0x00u8, 0x00u8, 0x00u8, 0x00u8, 0x15u8, 0x49u8, 0xa9u8, 0x66u8, 0xcbu8, 0xbfu8, 0x84u8,
        0x63u8, 0xabu8, 0xffu8, 0x6eu8, 0x2au8, 0xd7u8, 0xb1u8, 0x83u8, 0x0fu8, 0x42u8, 0x40u8, 0x4du8, 0x80u8, 0x8du8, 0x4cu8, 0x61u8,
        0x76u8, 0x66u8, 0x35u8, 0x38u8, 0x2eu8, 0x32u8, 0x39u8, 0x2eu8, 0x31u8, 0x30u8, 0x30u8, 0x57u8, 0x41u8, 0x8du8, 0x4cu8, 0x61u8,
        0x76u8, 0x66u8, 0x35u8, 0x38u8, 0x2eu8, 0x32u8, 0x39u8, 0x2eu8, 0x31u8, 0x30u8, 0x30u8, 0x73u8, 0xa4u8, 0x90u8, 0x07u8, 0x51u8,
        0x6fu8, 0x2fu8, 0x07u8, 0x62u8, 0x01u8, 0xf2u8, 0xd0u8, 0x3cu8, 0x06u8, 0xd9u8, 0x54u8, 0x7eu8, 0x86u8, 0x53u8, 0x44u8, 0x89u8,
        0x88u8, 0x40u8, 0xb3u8, 0x88u8, 0x00u8, 0x00u8, 0x00u8, 0x00u8, 0x00u8, 0x16u8, 0x54u8, 0xaeu8, 0x6bu8, 0x42u8, 0xcbu8, 0xbfu8,
        0x84u8, 0xbau8, 0x3cu8, 0x54u8, 0x88u8, 0xaeu8, 0x01u8, 0x00u8, 0x00u8, 0x00u8, 0x00u8, 0x00u8, 0x02u8, 0xbcu8, 0xd7u8, 0x81u8,
        0x01u8, 0x73u8, 0xc5u8, 0x81u8, 0x01u8, 0x9cu8, 0x81u8, 0x00u8, 0x22u8, 0xb5u8, 0x9cu8, 0x83u8, 0x75u8, 0x6eu8, 0x64u8, 0x86u8,
        0x8au8, 0x53u8, 0x5fu8, 0x54u8, 0x45u8, 0x58u8, 0x54u8, 0x2fu8, 0x41u8, 0x53u8, 0x53u8, 0x83u8, 0x81u8, 0x11u8, 0x63u8, 0xa2u8,
        0x42u8, 0x98u8, 0x5bu8, 0x53u8, 0x63u8, 0x72u8, 0x69u8, 0x70u8, 0x74u8, 0x20u8, 0x49u8, 0x6eu8, 0x66u8, 0x6fu8, 0x5du8, 0x0au8,
        0x3bu8, 0x20u8, 0x53u8, 0x63u8, 0x72u8, 0x69u8, 0x70u8, 0x74u8, 0x20u8, 0x67u8, 0x65u8, 0x6eu8, 0x65u8, 0x72u8, 0x61u8, 0x74u8,
        0x65u8, 0x64u8, 0x20u8, 0x62u8, 0x79u8, 0x20u8, 0x51u8, 0x4cu8, 0x69u8, 0x76u8, 0x65u8, 0x50u8, 0x6cu8, 0x61u8, 0x79u8, 0x65u8,
        0x72u8, 0x0au8, 0x3bu8, 0x20u8, 0x68u8, 0x74u8, 0x74u8, 0x70u8, 0x73u8, 0x3au8, 0x2fu8, 0x2fu8, 0x67u8, 0x69u8, 0x74u8, 0x68u8,
        0x75u8, 0x62u8, 0x2eu8, 0x63u8, 0x6fu8, 0x6du8, 0x2fu8, 0x49u8, 0x73u8, 0x6fu8, 0x61u8, 0x53u8, 0x46u8, 0x6cu8, 0x75u8, 0x73u8,
        0x2fu8, 0x51u8, 0x4cu8, 0x69u8, 0x76u8, 0x65u8, 0x50u8, 0x6cu8, 0x61u8, 0x79u8, 0x65u8, 0x72u8, 0x0au8, 0x54u8, 0x69u8, 0x74u8,
        0x6cu8, 0x65u8, 0x3au8, 0x20u8, 0x44u8, 0x61u8, 0x6eu8, 0x6du8, 0x61u8, 0x6bu8, 0x75u8, 0x20u8, 0x66u8, 0x69u8, 0x6cu8, 0x65u8,
        0x0au8, 0x53u8, 0x63u8, 0x72u8, 0x69u8, 0x70u8, 0x74u8, 0x54u8, 0x79u8, 0x70u8, 0x65u8, 0x3au8, 0x20u8, 0x76u8, 0x34u8, 0x2eu8,
        0x30u8, 0x30u8, 0x2bu8, 0x0au8, 0x57u8, 0x72u8, 0x61u8, 0x70u8, 0x53u8, 0x74u8, 0x79u8, 0x6cu8, 0x65u8, 0x3au8, 0x20u8, 0x30u8,
        0x0au8, 0x53u8, 0x63u8, 0x61u8, 0x6cu8, 0x65u8, 0x64u8, 0x42u8, 0x6fu8, 0x72u8, 0x64u8, 0x65u8, 0x72u8, 0x41u8, 0x6eu8, 0x64u8,
        0x53u8, 0x68u8, 0x61u8, 0x64u8, 0x6fu8, 0x77u8, 0x3au8, 0x20u8, 0x79u8, 0x65u8, 0x73u8, 0x0au8, 0x59u8, 0x43u8, 0x62u8, 0x43u8,
        0x72u8, 0x20u8, 0x4du8, 0x61u8, 0x74u8, 0x72u8, 0x69u8, 0x78u8, 0x3au8, 0x20u8, 0x4eu8, 0x6fu8, 0x6eu8, 0x65u8, 0x0au8, 0x50u8,
        0x6cu8, 0x61u8, 0x79u8, 0x52u8, 0x65u8, 0x73u8, 0x58u8, 0x3au8, 0x20u8, 0x31u8, 0x39u8, 0x32u8, 0x30u8, 0x0au8, 0x50u8, 0x6cu8,
        0x61u8, 0x79u8, 0x52u8, 0x65u8, 0x73u8, 0x59u8, 0x3au8, 0x20u8, 0x31u8, 0x30u8, 0x38u8, 0x30u8, 0x0au8, 0x0au8, 0x5bu8, 0x56u8,
        0x34u8, 0x2bu8, 0x20u8, 0x53u8, 0x74u8, 0x79u8, 0x6cu8, 0x65u8, 0x73u8, 0x5du8, 0x0au8, 0x46u8, 0x6fu8, 0x72u8, 0x6du8, 0x61u8,
        0x74u8, 0x3au8, 0x20u8, 0x4eu8, 0x61u8, 0x6du8, 0x65u8, 0x2cu8, 0x20u8, 0x46u8, 0x6fu8, 0x6eu8, 0x74u8, 0x6eu8, 0x61u8, 0x6du8,
        0x65u8, 0x2cu8, 0x20u8, 0x46u8, 0x6fu8, 0x6eu8, 0x74u8, 0x73u8, 0x69u8, 0x7au8, 0x65u8, 0x2cu8, 0x20u8, 0x50u8, 0x72u8, 0x69u8,
        0x6du8, 0x61u8, 0x72u8, 0x79u8, 0x43u8, 0x6fu8, 0x6cu8, 0x6fu8, 0x75u8, 0x72u8, 0x2cu8, 0x20u8, 0x53u8, 0x65u8, 0x63u8, 0x6fu8,
        0x6eu8, 0x64u8, 0x61u8, 0x72u8, 0x79u8, 0x43u8, 0x6fu8, 0x6cu8, 0x6fu8, 0x75u8, 0x72u8, 0x2cu8, 0x20u8, 0x4fu8, 0x75u8, 0x74u8,
        0x6cu8, 0x69u8, 0x6eu8, 0x65u8, 0x43u8, 0x6fu8, 0x6cu8, 0x6fu8, 0x75u8, 0x72u8, 0x2cu8, 0x20u8, 0x42u8, 0x61u8, 0x63u8, 0x6bu8,
        0x43u8, 0x6fu8, 0x6cu8, 0x6fu8, 0x75u8, 0x72u8, 0x2cu8, 0x20u8, 0x42u8, 0x6fu8, 0x6cu8, 0x64u8, 0x2cu8, 0x20u8, 0x49u8, 0x74u8,
        0x61u8, 0x6cu8, 0x69u8, 0x63u8, 0x2cu8, 0x20u8, 0x55u8, 0x6eu8, 0x64u8, 0x65u8, 0x72u8, 0x6cu8, 0x69u8, 0x6eu8, 0x65u8, 0x2cu8,
        0x20u8, 0x53u8, 0x74u8, 0x72u8, 0x69u8, 0x6bu8, 0x65u8, 0x4fu8, 0x75u8, 0x74u8, 0x2cu8, 0x20u8, 0x53u8, 0x63u8, 0x61u8, 0x6cu8,
        0x65u8, 0x58u8, 0x2cu8, 0x20u8, 0x53u8, 0x63u8, 0x61u8, 0x6cu8, 0x65u8, 0x59u8, 0x2cu8, 0x20u8, 0x53u8, 0x70u8, 0x61u8, 0x63u8,
        0x69u8, 0x6eu8, 0x67u8, 0x2cu8, 0x20u8, 0x41u8, 0x6eu8, 0x67u8, 0x6cu8, 0x65u8, 0x2cu8, 0x20u8, 0x42u8, 0x6fu8, 0x72u8, 0x64u8,
        0x65u8, 0x72u8, 0x53u8, 0x74u8, 0x79u8, 0x6cu8, 0x65u8, 0x2cu8, 0x20u8, 0x4fu8, 0x75u8, 0x74u8, 0x6cu8, 0x69u8, 0x6eu8, 0x65u8,
        0x2cu8, 0x20u8, 0x53u8, 0x68u8, 0x61u8, 0x64u8, 0x6fu8, 0x77u8, 0x2cu8, 0x20u8, 0x41u8, 0x6cu8, 0x69u8, 0x67u8, 0x6eu8, 0x6du8,
        0x65u8, 0x6eu8, 0x74u8, 0x2cu8, 0x20u8, 0x4du8, 0x61u8, 0x72u8, 0x67u8, 0x69u8, 0x6eu8, 0x4cu8, 0x2cu8, 0x20u8, 0x4du8, 0x61u8,
        0x72u8, 0x67u8, 0x69u8, 0x6eu8, 0x52u8, 0x2cu8, 0x20u8, 0x4du8, 0x61u8, 0x72u8, 0x67u8, 0x69u8, 0x6eu8, 0x56u8, 0x2cu8, 0x20u8,
        0x45u8, 0x6eu8, 0x63u8, 0x6fu8, 0x64u8, 0x69u8, 0x6eu8, 0x67u8, 0x0au8, 0x53u8, 0x74u8, 0x79u8, 0x6cu8, 0x65u8, 0x3au8, 0x20u8,
        0x44u8, 0x65u8, 0x66u8, 0x61u8, 0x75u8, 0x6cu8, 0x74u8, 0x2cu8, 0x53u8, 0x61u8, 0x6eu8, 0x73u8, 0x2cu8, 0x34u8, 0x30u8, 0x2cu8,
        0x26u8, 0x48u8, 0x30u8, 0x30u8, 0x46u8, 0x46u8, 0x46u8, 0x46u8, 0x46u8, 0x46u8, 0x2cu8, 0x26u8, 0x48u8, 0x30u8, 0x30u8, 0x30u8,
        0x30u8, 0x30u8, 0x30u8, 0x46u8, 0x46u8, 0x2cu8, 0x26u8, 0x48u8, 0x30u8, 0x30u8, 0x30u8, 0x30u8, 0x30u8, 0x30u8, 0x30u8, 0x30u8,
        0x2cu8, 0x26u8, 0x48u8, 0x30u8, 0x30u8, 0x30u8, 0x30u8, 0x30u8, 0x30u8, 0x30u8, 0x30u8, 0x2cu8, 0x30u8, 0x2cu8, 0x30u8, 0x2cu8,
        0x30u8, 0x2cu8, 0x30u8, 0x2cu8, 0x31u8, 0x30u8, 0x30u8, 0x2cu8, 0x31u8, 0x30u8, 0x30u8, 0x2cu8, 0x30u8, 0x2cu8, 0x30u8, 0x2cu8,
        0x31u8, 0x2cu8, 0x31u8, 0x2cu8, 0x30u8, 0x2cu8, 0x37u8, 0x2cu8, 0x30u8, 0x2cu8, 0x30u8, 0x2cu8, 0x30u8, 0x2cu8, 0x31u8, 0x0au8,
        0x0au8, 0x5bu8, 0x45u8, 0x76u8, 0x65u8, 0x6eu8, 0x74u8, 0x73u8, 0x5du8, 0x0au8, 0x46u8, 0x6fu8, 0x72u8, 0x6du8, 0x61u8, 0x74u8,
        0x3au8, 0x20u8, 0x4cu8, 0x61u8, 0x79u8, 0x65u8, 0x72u8, 0x2cu8, 0x20u8, 0x53u8, 0x74u8, 0x61u8, 0x72u8, 0x74u8, 0x2cu8, 0x20u8,
        0x45u8, 0x6eu8, 0x64u8, 0x2cu8, 0x20u8, 0x53u8, 0x74u8, 0x79u8, 0x6cu8, 0x65u8, 0x2cu8, 0x20u8, 0x4eu8, 0x61u8, 0x6du8, 0x65u8,
        0x2cu8, 0x20u8, 0x4du8, 0x61u8, 0x72u8, 0x67u8, 0x69u8, 0x6eu8, 0x4cu8, 0x2cu8, 0x20u8, 0x4du8, 0x61u8, 0x72u8, 0x67u8, 0x69u8,
        0x6eu8, 0x52u8, 0x2cu8, 0x20u8, 0x4du8, 0x61u8, 0x72u8, 0x67u8, 0x69u8, 0x6eu8, 0x56u8, 0x2cu8, 0x20u8, 0x45u8, 0x66u8, 0x66u8,
        0x65u8, 0x63u8, 0x74u8, 0x2cu8, 0x20u8, 0x54u8, 0x65u8, 0x78u8, 0x74u8, 0x0au8, 0x12u8, 0x54u8, 0xc3u8, 0x67u8, 0x40u8, 0x82u8,
        0xbfu8, 0x84u8, 0xc0u8, 0xe7u8, 0x7du8, 0x7eu8, 0x73u8, 0x73u8, 0x01u8, 0x00u8, 0x00u8, 0x00u8, 0x00u8, 0x00u8, 0x00u8, 0x2eu8,
        0x63u8, 0xc0u8, 0x01u8, 0x00u8, 0x00u8, 0x00u8, 0x00u8, 0x00u8, 0x00u8, 0x00u8, 0x67u8, 0xc8u8, 0x01u8, 0x00u8, 0x00u8, 0x00u8,
        0x00u8, 0x00u8, 0x00u8, 0x1au8, 0x45u8, 0xa3u8, 0x87u8, 0x45u8, 0x4eu8, 0x43u8, 0x4fu8, 0x44u8, 0x45u8, 0x52u8, 0x44u8, 0x87u8,
        0x8du8, 0x4cu8, 0x61u8, 0x76u8, 0x66u8, 0x35u8, 0x38u8, 0x2eu8, 0x32u8, 0x39u8, 0x2eu8, 0x31u8, 0x30u8, 0x30u8, 0x73u8, 0x73u8,
        0x01u8, 0x00u8, 0x00u8, 0x00u8, 0x00u8, 0x00u8, 0x00u8, 0x3au8, 0x63u8, 0xc0u8, 0x01u8, 0x00u8, 0x00u8, 0x00u8, 0x00u8, 0x00u8,
        0x00u8, 0x04u8, 0x63u8, 0xc5u8, 0x81u8, 0x01u8, 0x67u8, 0xc8u8, 0x01u8, 0x00u8, 0x00u8, 0x00u8, 0x00u8, 0x00u8, 0x00u8, 0x22u8,
        0x45u8, 0xa3u8, 0x88u8, 0x44u8, 0x55u8, 0x52u8, 0x41u8, 0x54u8, 0x49u8, 0x4fu8, 0x4eu8, 0x44u8, 0x87u8, 0x94u8, 0x30u8, 0x30u8,
        0x3au8, 0x30u8, 0x30u8, 0x3au8, 0x30u8, 0x35u8, 0x2eu8, 0x30u8, 0x30u8, 0x30u8, 0x30u8, 0x30u8, 0x30u8, 0x30u8, 0x30u8, 0x30u8,
        0x00u8, 0x00u8,
    ];
    proof {
        assert(v@ =~= spec_mkv_header());
    }
    v
}

/// EBML length marker of an eight-byte size field: the size value is
/// carried in the low 56 bits.
pub const SIZE_MARKER_8: u64 = 0x0100_0000_0000_0000;

/// EBML length marker of a four-byte size field: the size value is
/// carried in the low 28 bits.
pub const SIZE_MARKER_4: u32 = 0x1000_0000;

/// Largest dialogue-line payload a cluster can carry; the nested
/// four-byte size fields hold 28 bits.
pub const MAX_CLUSTER_PAYLOAD: usize = 0x0fff_fff0;

/// One self-contained, appendable container cluster wrapping exactly
/// one subtitle dialogue line, tagged with a presentation timestamp
/// and a display duration. Immutable once built; written once.
#[derive(Debug)]
pub struct DMKVCluster {
    pub cluster_id: u32,
    pub cluster_size: u64,
    pub timestamp_id: u8,
    pub timestamp_size: u8,
    pub timestamp: u64,
    pub block_group_id: u8,
    pub block_group_size: u32,
    pub block_id: u8,
    pub block_size: u32,
    pub block_content_header: u32,
    pub block_content: Vec<u8>,
    pub block_duration_id: u8,
    pub block_duration_size: u8,
    pub block_duration_content: u32,
}

/// Big-endian bytes of a 32-bit value.
pub open spec fn spec_be32(x: u32) -> Seq<u8> {
    seq![
        ((x >> 24) & 0xff) as u8,
        ((x >> 16) & 0xff) as u8,
        ((x >> 8) & 0xff) as u8,
        (x & 0xff) as u8,
    ]
}

/// Big-endian bytes of a 64-bit value.
pub open spec fn spec_be64(x: u64) -> Seq<u8> {
    seq![
        ((x >> 56) & 0xff) as u8,
        ((x >> 48) & 0xff) as u8,
        ((x >> 40) & 0xff) as u8,
        ((x >> 32) & 0xff) as u8,
        ((x >> 24) & 0xff) as u8,
        ((x >> 16) & 0xff) as u8,
        ((x >> 8) & 0xff) as u8,
        (x & 0xff) as u8,
    ]
}

fn be32(x: u32) -> (r: Vec<u8>)
    ensures
        r@ == spec_be32(x),
{
    proof {
        assert(((x >> 24) & 0xff) < 256 && ((x >> 16) & 0xff) < 256 && ((x >> 8) & 0xff) < 256
            && (x & 0xff) < 256) by (bit_vector);
    }
    let mut v: Vec<u8> = Vec::new();
    v.push(((x >> 24) & 0xff) as u8);
    v.push(((x >> 16) & 0xff) as u8);
    v.push(((x >> 8) & 0xff) as u8);
    v.push((x & 0xff) as u8);
    proof {
        assert(v@ =~= spec_be32(x));
    }
    v
}

fn be64(x: u64) -> (r: Vec<u8>)
    ensures
        r@ == spec_be64(x),
{
    proof {
        assert(((x >> 56) & 0xff) < 256 && ((x >> 48) & 0xff) < 256 && ((x >> 40) & 0xff) < 256
            && ((x >> 32) & 0xff) < 256 && ((x >> 24) & 0xff) < 256 && ((x >> 16) & 0xff) < 256
            && ((x >> 8) & 0xff) < 256 && (x & 0xff) < 256) by (bit_vector);
    }
    let mut v: Vec<u8> = Vec::new();
    v.push(((x >> 56) & 0xff) as u8);
    v.push(((x >> 48) & 0xff) as u8);
    v.push(((x >> 40) & 0xff) as u8);
    v.push(((x >> 32) & 0xff) as u8);
    v.push(((x >> 24) & 0xff) as u8);
    v.push(((x >> 16) & 0xff) as u8);
    v.push(((x >> 8) & 0xff) as u8);
    v.push((x & 0xff) as u8);
    proof {
        assert(v@ =~= spec_be64(x));
    }
    v
}

proof fn lemma_or_marker_8(x: u64)
    requires
        x < 0x0100_0000_0000_0000u64,
    ensures
        x | 0x0100_0000_0000_0000u64 == x + 0x0100_0000_0000_0000u64,
{
    assert(x < 0x0100_0000_0000_0000u64 ==> (x | 0x0100_0000_0000_0000u64) == x
        + 0x0100_0000_0000_0000u64) by (bit_vector);
}

proof fn lemma_or_marker_4(x: u32)
    requires
        x < 0x1000_0000u32,
    ensures
        x | 0x1000_0000u32 == x + 0x1000_0000u32,
{
    assert(x < 0x1000_0000u32 ==> (x | 0x1000_0000u32) == x + 0x1000_0000u32) by (bit_vector);
}

/// The field values a cluster built from dialogue-line bytes `ass`,
/// presentation timestamp `ts` and display duration `speed` carries.
pub open spec fn spec_cluster_fields(c: DMKVCluster, ass: Seq<u8>, ts: u64, speed: u32) -> bool {
    &&& c.cluster_id == 0x1f43b675u32
    &&& c.cluster_size as int == SIZE_MARKER_8 as int + ass.len() + 30
    &&& c.timestamp_id == 0xe7u8
    &&& c.timestamp_size == 0x88u8
    &&& c.timestamp == ts
    &&& c.block_group_id == 0xa0u8
    &&& c.block_group_size as int == SIZE_MARKER_4 as int + ass.len() + 15
    &&& c.block_id == 0xa1u8
    &&& c.block_size as int == SIZE_MARKER_4 as int + ass.len() + 4
    &&& c.block_content_header == 0x8100_0000u32
    &&& c.block_content@ == ass
    &&& c.block_duration_id == 0x9bu8
    &&& c.block_duration_size == 0x84u8
    &&& c.block_duration_content == speed
}

/// The wire encoding of a cluster: every field in order, numbers in
/// big-endian byte order, the dialogue-line bytes in the middle.
pub open spec fn spec_cluster_bytes(c: DMKVCluster) -> Seq<u8> {
    spec_be32(c.cluster_id) + spec_be64(c.cluster_size) + seq![c.timestamp_id, c.timestamp_size]
        + spec_be64(c.timestamp) + seq![c.block_group_id] + spec_be32(c.block_group_size)
        + seq![c.block_id] + spec_be32(c.block_size) + spec_be32(c.block_content_header)
        + c.block_content@ + seq![c.block_duration_id, c.block_duration_size] + spec_be32(
        c.block_duration_content,
    )
}

impl DMKVCluster {
    /// Builds the cluster for one dialogue line. The caller supplies
    /// the line as UTF-8 bytes, the presentation timestamp in
    /// milliseconds, and the display duration in milliseconds.
    pub fn new(ass: Vec<u8>, ts: usize, speed: usize) -> (r: Self)
        requires
            ass@.len() <= MAX_CLUSTER_PAYLOAD,
            speed <= u32::MAX,
        ensures
            spec_cluster_fields(r, ass@, ts as u64, speed as u32),
    {
        let ass_len: usize = ass.len();
        proof {
            lemma_or_marker_8((ass_len + 30) as u64);
            lemma_or_marker_4((ass_len + 15) as u32);
            lemma_or_marker_4((ass_len + 4) as u32);
        }
        Self {
            cluster_id: 0x1f43b675,
            cluster_size: (ass_len + 30) as u64 | SIZE_MARKER_8,
            timestamp_id: 0xe7,
            timestamp_size: 0x88,
            timestamp: ts as u64,
            block_group_id: 0xa0,
            block_group_size: (ass_len + 15) as u32 | SIZE_MARKER_4,
            block_id: 0xa1,
            block_size: (ass_len + 4) as u32 | SIZE_MARKER_4,
            block_content_header: 0x8100_0000u32,
            block_content: ass,
            block_duration_id: 0x9b,
            block_duration_size: 0x84,
            block_duration_content: speed as u32,
        }
    }

    /// Serialises the cluster into the exact bytes the player reads.
    pub fn to_bytes(&self) -> (r: Vec<u8>)
        ensures
            r@ == spec_cluster_bytes(*self),
    {
        let mut out: Vec<u8> = Vec::new();
        let mut part = be32(self.cluster_id);
        out.append(&mut part);
        let mut part = be64(self.cluster_size);
        out.append(&mut part);
        out.push(self.timestamp_id);
        out.push(self.timestamp_size);
        let mut part = be64(self.timestamp);
        out.append(&mut part);
        out.push(self.block_group_id);
        let mut part = be32(self.block_group_size);
        out.append(&mut part);
        out.push(self.block_id);
        let mut part = be32(self.block_size);
        out.append(&mut part);
        let mut part = be32(self.block_content_header);
        out.append(&mut part);
        out.extend_from_slice(self.block_content.as_slice());
        out.push(self.block_duration_id);
        out.push(self.block_duration_size);
        let mut part = be32(self.block_duration_content);
        out.append(&mut part);
        proof {
            assert(out@ =~= spec_cluster_bytes(*self));
        }
        out
    }
}

/// The wire encoding of the cluster built from dialogue-line bytes
/// `ass`, presentation timestamp `ts` and display duration `speed`,
/// as a function of those inputs alone.
pub open spec fn spec_encoded_cluster(ass: Seq<u8>, ts: u64, speed: u32) -> Seq<u8> {
    spec_be32(0x1f43b675u32) + spec_be64((SIZE_MARKER_8 as int + ass.len() + 30) as u64)
        + seq![0xe7u8, 0x88u8] + spec_be64(ts) + seq![0xa0u8] + spec_be32(
        (SIZE_MARKER_4 as int + ass.len() + 15) as u32,
    ) + seq![0xa1u8] + spec_be32((SIZE_MARKER_4 as int + ass.len() + 4) as u32) + spec_be32(
        0x8100_0000u32,
    ) + ass + seq![0x9bu8, 0x84u8] + spec_be32(speed)
}

/// A cluster carrying the stated fields serialises to the encoding
/// of its inputs.
pub proof fn lemma_cluster_bytes_encoded(c: DMKVCluster, ass: Seq<u8>, ts: u64, speed: u32)
    requires
        ass.len() <= MAX_CLUSTER_PAYLOAD,
        spec_cluster_fields(c, ass, ts, speed),
    ensures
        spec_cluster_bytes(c) == spec_encoded_cluster(ass, ts, speed),
{
}

/// Encoding the same dialogue line with the same timestamp and the
/// same duration always yields byte-identical clusters.
pub proof fn lemma_cluster_encoding_deterministic(
    c1: DMKVCluster,
    c2: DMKVCluster,
    ass: Seq<u8>,
    ts: u64,
    speed: u32,
)
    requires
        spec_cluster_fields(c1, ass, ts, speed),
        spec_cluster_fields(c2, ass, ts, speed),
    ensures
        spec_cluster_bytes(c1) == spec_cluster_bytes(c2),
{
}

/// Every size field of an encoded cluster declares the exact byte
/// count of the rest of its own element: the cluster size covers
/// everything after itself, the block-group size reaches the
/// cluster's end, the block size ends where the duration element
/// begins, and the one-byte timestamp and duration size markers
/// declare eight and four bytes. The dialogue payload sits unchanged
/// between the block header and the duration element.
pub proof fn lemma_cluster_size_fields_match(c: DMKVCluster, ass: Seq<u8>, ts: u64, speed: u32)
    requires
        ass.len() <= MAX_CLUSTER_PAYLOAD,
        spec_cluster_fields(c, ass, ts, speed),
    ensures
        ({
            let bytes = spec_cluster_bytes(c);
            &&& bytes.len() == 42 + ass.len()
            &&& c.cluster_size as int - SIZE_MARKER_8 as int == bytes.len() - 12
            &&& c.block_group_size as int - SIZE_MARKER_4 as int == bytes.len() - 27
            &&& c.block_size as int - SIZE_MARKER_4 as int == (bytes.len() - 6) - 32
            &&& c.timestamp_size as int - 0x80 == 8
            &&& c.block_duration_size as int - 0x80 == 4
            &&& bytes.subrange(36, bytes.len() - 6) == ass
        }),
{
    let bytes = spec_cluster_bytes(c);
    assert(bytes.len() == 42 + ass.len());
    assert(bytes.subrange(36, bytes.len() - 6) =~= ass);
}

} // verus!
