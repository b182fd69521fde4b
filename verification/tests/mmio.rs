//! The memory-window arithmetic: mapping geometry and the little-endian
//! word codec.

use pru_rproc_user::mmio::{
    map_request, read_u32_at, u32_le_bytes, window_offset, PRU0_DRAM_BASE, PRU0_DRAM_SIZE,
};

#[test]
fn map_request_aligns_to_the_enclosing_page() {
    let r = map_request(0x4A310005, 0x100);
    assert_eq!(r.aligned_base, 0x4A310000);
    assert_eq!(r.page_offset, 5);
    assert_eq!(r.aligned_len, 0x105);
}

#[test]
fn map_request_of_an_aligned_base_is_itself() {
    let r = map_request(PRU0_DRAM_BASE, PRU0_DRAM_SIZE);
    assert_eq!(r.aligned_base, PRU0_DRAM_BASE);
    assert_eq!(r.page_offset, 0);
    assert_eq!(r.aligned_len, PRU0_DRAM_SIZE);
}

#[test]
fn window_offset_is_the_distance_from_the_base() {
    assert_eq!(window_offset(PRU0_DRAM_BASE, PRU0_DRAM_SIZE, PRU0_DRAM_BASE + 0x40), 0x40);
    assert_eq!(window_offset(PRU0_DRAM_BASE, PRU0_DRAM_SIZE, PRU0_DRAM_BASE), 0);
}

#[test]
fn word_codec_is_little_endian() {
    let bytes = [0x78u8, 0x56, 0x34, 0x12];
    assert_eq!(read_u32_at(&bytes, 0), 0x12345678);
    assert_eq!(u32_le_bytes(0x12345678), vec![0x78, 0x56, 0x34, 0x12]);
}

#[test]
fn word_codec_round_trips() {
    for v in [0u32, 1, 0xFF, 0x100, 0xDEADBEEF, u32::MAX] {
        let b = u32_le_bytes(v);
        assert_eq!(read_u32_at(&b, 0), v);
    }
    let buf = [0u8, 0, 0xAA, 0xBB, 0xCC, 0xDD, 0, 0];
    assert_eq!(read_u32_at(&buf, 2), 0xDDCCBBAA);
}
