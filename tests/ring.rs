use ac97::ring::{
    build, encode, fill_window, new_audio_buffer, DESCRIPTOR_BYTES, ENTRY_BYTES, LAST_ENTRY,
    RING_LEN, WINDOW,
};

#[test]
fn ring_sizes() {
    assert_eq!(RING_LEN, 31);
    assert_eq!(LAST_ENTRY as usize, RING_LEN - 1);
    assert_eq!(ENTRY_BYTES, 131_068);
    assert_eq!(WINDOW, 4_063_108);
}

#[test]
fn built_ring_covers_the_buffer() {
    let base: u32 = 0x0010_0000;
    let ring = build(base);
    assert_eq!(ring.len(), 31);
    for (i, d) in ring.iter().enumerate() {
        assert_eq!(d.addr, base + i as u32 * 0xFFFE * 2);
        assert_eq!(d.samples, 0xFFFE);
        assert_eq!(d.ctl.last(), i == 30);
        assert!(!d.ctl.fire_interrupt());
    }
    assert_eq!(ring[30].ctl.into_bits(), 0x4000);
    assert_eq!(ring[0].ctl.into_bits(), 0);
}

#[test]
fn ring_at_highest_base() {
    let base: u32 = (0x1_0000_0000u64 - WINDOW as u64) as u32;
    let ring = build(base);
    assert_eq!(ring[30].addr as u64 + ENTRY_BYTES as u64, 0x1_0000_0000);
}

#[test]
fn ring_memory_image() {
    let ring = build(0x1234_5678);
    let image = encode(&ring);
    assert_eq!(image.len(), 31 * DESCRIPTOR_BYTES);
    assert_eq!(&image[0..8], &[0x78, 0x56, 0x34, 0x12, 0xFE, 0xFF, 0x00, 0x00]);
    let second = 0x1234_5678u32 + 131_068;
    let b = second.to_le_bytes();
    assert_eq!(&image[8..16], &[b[0], b[1], b[2], b[3], 0xFE, 0xFF, 0x00, 0x00]);
    assert_eq!(&image[240..248][6..8], &[0x00, 0x40]);
}

#[test]
fn fresh_buffer_is_silent() {
    let buf = new_audio_buffer();
    assert_eq!(buf.len(), WINDOW);
    assert!(buf.iter().all(|b| *b == 0));
}

#[test]
fn short_window_is_zero_padded() {
    let mut buf = vec![7u8; WINDOW];
    let data: Vec<u8> = vec![1, 2, 3, 4, 5];
    fill_window(&mut buf, &data, 2);
    assert_eq!(&buf[0..3], &[3, 4, 5]);
    assert!(buf[3..].iter().all(|b| *b == 0));
}

#[test]
fn window_past_the_input_is_silence() {
    let mut buf = vec![9u8; WINDOW];
    let data: Vec<u8> = vec![1, 2, 3];
    fill_window(&mut buf, &data, 10);
    assert!(buf.iter().all(|b| *b == 0));
}

#[test]
fn buffer_placement_limits() {
    assert!(ac97::ring::buffer_fits((0x1_0000_0000u64 - WINDOW as u64) as u32));
    assert!(!ac97::ring::buffer_fits((0x1_0000_0000u64 - WINDOW as u64) as u32 + 1));
    assert!(ac97::ring::buffer_fits(0));
}
