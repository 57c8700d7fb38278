use mirror::scanner::{resolution_pattern, scan};

/// Builds a synthetic shared-structure prefix: marker, then two 64-bit
/// little-endian dimension words.
fn layout_prefix(width: u32, height: u32) -> Vec<u8> {
    let mut v = Vec::new();
    v.extend_from_slice(&[0x0D, 0x0E, 0x0A, 0x0D, 0x0B, 0x0A, 0x0B, 0x0E]);
    v.extend_from_slice(&(width as u64).to_le_bytes());
    v.extend_from_slice(&(height as u64).to_le_bytes());
    v
}

#[test]
fn scanner_finds_marker_offset() {
    let mut buf = vec![0xCCu8; 37];
    buf.extend_from_slice(&layout_prefix(800, 600));
    buf.extend_from_slice(&[0xCC; 50]);
    let pat = resolution_pattern();
    assert_eq!(scan(&buf, &pat), Some(37));
}

#[test]
fn scanner_finds_first_of_two_matches() {
    let mut buf = vec![0xCCu8; 5];
    buf.extend_from_slice(&layout_prefix(1920, 1080));
    buf.extend_from_slice(&[0xCC; 11]);
    let second = buf.len();
    buf.extend_from_slice(&layout_prefix(640, 480));
    let pat = resolution_pattern();
    assert!(second > 5);
    assert_eq!(scan(&buf, &pat), Some(5));
}

#[test]
fn scanner_accepts_arbitrary_low_dimension_bytes() {
    // The four bytes after the marker are wildcards: any 32-bit value works.
    let mut buf = layout_prefix(0xDEAD_BEEF, 0x0BAD_F00D);
    buf.extend_from_slice(&[0u8; 8]);
    let pat = resolution_pattern();
    assert_eq!(scan(&buf, &pat), Some(0));
}

#[test]
fn scanner_rejects_when_trailing_zero_constraint_violated() {
    // A dimension with a nonzero high half breaks the trailing-zero mask.
    let mut buf = Vec::new();
    buf.extend_from_slice(&[0x0D, 0x0E, 0x0A, 0x0D, 0x0B, 0x0A, 0x0B, 0x0E]);
    buf.extend_from_slice(&0x1_0000_0320u64.to_le_bytes()); // high half nonzero
    buf.extend_from_slice(&600u64.to_le_bytes());
    let pat = resolution_pattern();
    assert_eq!(scan(&buf, &pat), None);

    let mut buf2 = Vec::new();
    buf2.extend_from_slice(&[0x0D, 0x0E, 0x0A, 0x0D, 0x0B, 0x0A, 0x0B, 0x0E]);
    buf2.extend_from_slice(&800u64.to_le_bytes());
    buf2.extend_from_slice(&0xFF00_0000_0000u64.to_le_bytes());
    assert_eq!(scan(&buf2, &pat), None);
}

#[test]
fn scanner_rejects_wrong_marker() {
    let mut buf = layout_prefix(800, 600);
    buf[0] = 0x0E;
    let pat = resolution_pattern();
    assert_eq!(scan(&buf, &pat), None);
}

#[test]
fn scanner_rejects_short_buffer() {
    // A buffer shorter than the pattern can hold no match.
    let buf = layout_prefix(800, 600); // 24 bytes, pattern is 24: fits
    let pat = resolution_pattern();
    assert_eq!(scan(&buf[..23], &pat), None);
    assert_eq!(scan(&buf, &pat), Some(0));
}
