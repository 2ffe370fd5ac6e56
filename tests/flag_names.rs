use solar_split::deep_pointer::DeepPointer;
use solar_split::flag_name::{decode_name, FlagNameResolver};
use solar_split::memory::MemoryImage;

const BASE: u64 = 0x1000;
const FLAGS_FIELD: u64 = 0x1500;
const ARRAY: u64 = 0x1600;
const POOL: u64 = 0x1A00;
const CHUNK: u64 = 0x1C00;

fn put(buf: &mut Vec<u8>, addr: u64, bytes: &[u8]) {
    let at = (addr - BASE) as usize;
    buf[at..at + bytes.len()].copy_from_slice(bytes);
}

/// A save flag array with `ids` in its slots, and name entries `(offset, header, text)` in
/// chunk 1 of the name pool, in an image of `size` bytes.
fn image(ids: &[u64], entries: &[(u16, u16, &[u8])], size: usize) -> MemoryImage {
    let mut buf = vec![0u8; size];
    put(&mut buf, FLAGS_FIELD, &ARRAY.to_le_bytes());
    for (i, id) in ids.iter().enumerate() {
        put(&mut buf, ARRAY + 8 * i as u64, &id.to_le_bytes());
    }
    put(&mut buf, POOL + 8 * (1 + 2), &CHUNK.to_le_bytes());
    for (offset, header, text) in entries {
        let at = CHUNK + 2 * *offset as u64;
        put(&mut buf, at, &header.to_le_bytes());
        put(&mut buf, at + 2, text);
    }
    MemoryImage::new(BASE, buf)
}

fn flags() -> DeepPointer {
    DeepPointer::new(0, vec![FLAGS_FIELD])
}

fn id(chunk: u64, offset: u64, high: u64) -> u64 {
    (high << 32) | (chunk << 16) | offset
}

#[test]
fn decodes_newest_flag_name() {
    let m = image(
        &[id(1, 0x10, 7), id(1, 0x40, 9)],
        &[(0x10, 5 << 6, b"First"), (0x40, (21 << 6) | 0x3F, b"Vale_Starseed_Remnant")],
        0x1000,
    );
    let mut r = FlagNameResolver::new();
    assert_eq!(r.newest_flag_name(&m, &flags(), POOL, 2), Some("Vale_Starseed_Remnant".to_string()));
    assert_eq!(r.newest_flag_name(&m, &flags(), POOL, 1), Some("First".to_string()));
}

#[test]
fn non_positive_count_gives_no_flag() {
    let m = image(&[id(1, 0x10, 0)], &[(0x10, 5 << 6, b"First")], 0x1000);
    let mut r = FlagNameResolver::new();
    assert_eq!(r.newest_flag_name(&m, &flags(), POOL, 0), None);
    assert_eq!(r.newest_flag_name(&m, &flags(), POOL, -3), None);
}

#[test]
fn failed_read_gives_no_flag() {
    let m = image(&[id(1, 0x10, 0)], &[(0x10, 5 << 6, b"First")], 0x1000);
    let mut r = FlagNameResolver::new();
    // Slot 5 lies past the populated part but inside the image: its chunk table entry is zero.
    assert_eq!(r.newest_flag_name(&m, &flags(), POOL, 5), None);
    // The array field cannot be read at all.
    assert_eq!(r.newest_flag_name(&m, &DeepPointer::new(0, vec![0x9000]), POOL, 1), None);
}

#[test]
fn cache_answers_repeat_lookup() {
    let first = image(&[id(1, 0x10, 3)], &[(0x10, 5 << 6, b"First")], 0x1000);
    let mut r = FlagNameResolver::new();
    let a = r.newest_flag_name(&first, &flags(), POOL, 1);
    // Same identity, but the pool now holds another text: the cached name is returned,
    // so the walk was not repeated.
    let changed = image(&[id(1, 0x10, 3)], &[(0x10, 5 << 6, b"Other")], 0x1000);
    let b = r.newest_flag_name(&changed, &flags(), POOL, 1);
    assert_eq!(a, Some("First".to_string()));
    assert_eq!(a, b);
    // A different identity is decoded afresh.
    let other_id = image(&[id(1, 0x10, 4)], &[(0x10, 5 << 6, b"Other")], 0x1000);
    assert_eq!(r.newest_flag_name(&other_id, &flags(), POOL, 1), Some("Other".to_string()));
}

#[test]
fn name_length_is_clamped_and_bytes_past_clamp_are_not_read() {
    let text = [b'a'; 64];
    // Header announces 100 characters; the image ends right after 64 bytes of text.
    let end = CHUNK + 2 * 0x10 + 2 + 64;
    let m = image(&[id(1, 0x10, 0)], &[(0x10, 100 << 6, &text)], (end - BASE) as usize);
    let name = decode_name(&m, POOL, id(1, 0x10, 0)).unwrap();
    assert_eq!(name.len(), 64);
    assert_eq!(name, "a".repeat(64));
}

#[test]
fn header_flag_bits_are_ignored() {
    let m = image(&[id(1, 0x10, 0)], &[(0x10, (3 << 6) | 0x2A, b"abcdef")], 0x1000);
    assert_eq!(decode_name(&m, POOL, id(1, 0x10, 0)), Some("abc".to_string()));
}

#[test]
fn invalid_text_decodes_to_empty_name() {
    let m = image(&[id(1, 0x10, 0)], &[(0x10, 3 << 6, &[0xFF, 0xFE, 0x41])], 0x1000);
    let mut r = FlagNameResolver::new();
    assert_eq!(r.newest_flag_name(&m, &flags(), POOL, 1), Some(String::new()));
}

#[test]
fn multibyte_text_decodes_by_bytes() {
    let m = image(&[id(1, 0x10, 0)], &[(0x10, 5 << 6, "é€".as_bytes())], 0x1000);
    assert_eq!(decode_name(&m, POOL, id(1, 0x10, 0)), Some("é€".to_string()));
    // Cutting the text inside a character leaves invalid UTF-8, hence the empty name.
    let cut = image(&[id(1, 0x10, 0)], &[(0x10, 4 << 6, "é€".as_bytes())], 0x1000);
    assert_eq!(decode_name(&cut, POOL, id(1, 0x10, 0)), Some(String::new()));
}
