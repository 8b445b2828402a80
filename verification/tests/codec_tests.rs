use danmaku::mkv_header::{get_mkv_header, DMKVCluster, MKV_HEADER_LEN};

#[test]
fn header_is_the_fixed_blob() {
    let h = get_mkv_header();
    assert_eq!(h.len(), MKV_HEADER_LEN);
    // EBML magic
    assert_eq!(&h[0..4], &[0x1a, 0x45, 0xdf, 0xa3]);
    // segment with unknown (open-ended) length
    let seg = h
        .windows(12)
        .position(|w| w == [0x18, 0x53, 0x80, 0x67, 0x01, 0xff, 0xff, 0xff, 0xff, 0xff, 0xff, 0xff]);
    assert!(seg.is_some());
}

// Encoding the same comment with the same timestamp and duration
// always yields byte-identical clusters.
#[test]
fn encoding_is_deterministic() {
    let ass = b"1,0,Default,bob,0,0,0,,hi".to_vec();
    let a = DMKVCluster::new(ass.clone(), 1234, 8000).to_bytes();
    let b = DMKVCluster::new(ass, 1234, 8000).to_bytes();
    assert_eq!(a, b);
}

fn be64(bytes: &[u8]) -> u64 {
    bytes.iter().fold(0u64, |acc, &b| (acc << 8) | b as u64)
}

fn be32(bytes: &[u8]) -> u32 {
    bytes.iter().fold(0u32, |acc, &b| (acc << 8) | b as u32)
}

// Every size field declares the exact byte count of the rest of its
// own element.
#[test]
fn size_fields_match_remaining_lengths() {
    let payload = b"9,0,Default,carol,0,0,0,,some text".to_vec();
    let n = payload.len();
    let bytes = DMKVCluster::new(payload.clone(), 777, 12000).to_bytes();
    assert_eq!(bytes.len(), 42 + n);
    // cluster id, then an eight-byte size: low 56 bits hold the count
    assert_eq!(be32(&bytes[0..4]), 0x1f43b675);
    let cluster_size = be64(&bytes[4..12]) & 0x00ff_ffff_ffff_ffff;
    assert_eq!(cluster_size as usize, bytes.len() - 12);
    // timestamp element: id, one-byte size declaring eight bytes
    assert_eq!(bytes[12], 0xe7);
    assert_eq!(bytes[13], 0x88);
    assert_eq!(be64(&bytes[14..22]), 777);
    // block group: id, four-byte size reaching the cluster's end
    assert_eq!(bytes[22], 0xa0);
    let group_size = be32(&bytes[23..27]) & 0x0fff_ffff;
    assert_eq!(group_size as usize, bytes.len() - 27);
    // block: id, four-byte size ending where the duration begins
    assert_eq!(bytes[27], 0xa1);
    let block_size = be32(&bytes[28..32]) & 0x0fff_ffff;
    assert_eq!(block_size as usize, (bytes.len() - 6) - 32);
    // fixed content header: track 1, zero offset, no flags
    assert_eq!(&bytes[32..36], &[0x81, 0x00, 0x00, 0x00]);
    // the dialogue line itself
    assert_eq!(&bytes[36..36 + n], payload.as_slice());
    // duration element: id, one-byte size declaring four bytes
    assert_eq!(bytes[36 + n], 0x9b);
    assert_eq!(bytes[37 + n], 0x84);
    assert_eq!(be32(&bytes[38 + n..42 + n]), 12000);
}

#[test]
fn cluster_fields_carry_marked_sizes() {
    let c = DMKVCluster::new(vec![0u8; 10], 5, 1);
    assert_eq!(c.cluster_size, 40 | 0x0100_0000_0000_0000);
    assert_eq!(c.block_group_size, 25 | 0x1000_0000);
    assert_eq!(c.block_size, 14 | 0x1000_0000);
    assert_eq!(c.block_duration_content, 1);
}
