//! The arithmetic behind the physical-memory window accessor: page-aligned
//! mapping geometry for a requested window, offsets of physical addresses
//! inside a mapped window, and the little-endian coding of the single
//! words read and written through it.  The host performs the actual
//! mapping and holds the mapped bytes.

use vstd::prelude::*;

verus! {

/// Failures of the physical-memory window accessor.
#[derive(Clone, Debug, PartialEq, Eq)]
pub enum MmioError {
    /// An underlying host call failed; the raw OS error code is kept.
    Io(i32),
    /// The mapping primitive refused the request, with its own words.
    Mapping(String),
}

/// Size of one page, the granule the mapping primitive aligns to.
pub const PAGE_SIZE: u64 = 4096;

/// Common physical base of the whole coprocessor subsystem region.
pub const PRUSS_BASE: u64 = 0x4A300000;

/// Size of the whole coprocessor subsystem region.
pub const PRUSS_SIZE: usize = 0x20000;

/// Physical base of core 0's data RAM.
pub const PRU0_DRAM_BASE: u64 = 0x4A310000;

/// Size of core 0's data RAM.
pub const PRU0_DRAM_SIZE: usize = 0x2000;

/// Physical base of core 1's data RAM.
pub const PRU1_DRAM_BASE: u64 = 0x4A320000;

/// Size of core 1's data RAM.
pub const PRU1_DRAM_SIZE: usize = 0x2000;

/// The page-aligned request handed to the host's mapping primitive for a
/// window of `len` bytes at physical `base`: the mapping starts at the
/// enclosing page boundary and grows by the offset into that page.
#[derive(Clone, Copy, Debug, PartialEq, Eq, Structural)]
pub struct MapRequest {
    /// Page-aligned physical address at which to map.
    pub aligned_base: u64,
    /// Bytes to map from `aligned_base` on.
    pub aligned_len: usize,
    /// Where the requested window starts inside the mapping.
    pub page_offset: usize,
}

/// Page-align a window request so the mapping covers exactly the bytes
/// `base .. base + len` of physical memory.
pub fn map_request(base: u64, len: usize) -> (r: MapRequest)
    requires
        len + (base as int % PAGE_SIZE as int) <= usize::MAX,
    ensures
        r.page_offset == base as int % PAGE_SIZE as int,
        r.aligned_base == base as int - r.page_offset,
        r.aligned_base as int % PAGE_SIZE as int == 0,
        r.aligned_base + r.page_offset == base,
        r.aligned_len == len + r.page_offset,
{
    let page_offset: u64 = base % PAGE_SIZE;
    let aligned_base: u64 = base - page_offset;
    proof {
        assert(aligned_base as int % PAGE_SIZE as int == 0) by (nonlinear_arith)
            requires
                aligned_base == base - (base as int % 4096),
                PAGE_SIZE == 4096,
                base >= 0,
        ;
    }
    let aligned_len: usize = len + (page_offset as usize);
    MapRequest { aligned_base, aligned_len, page_offset: page_offset as usize }
}

/// Offset of physical address `addr` inside a window of `len` bytes based
/// at `base`, leaving room for one four-byte word.
pub fn window_offset(base: u64, len: usize, addr: u64) -> (off: usize)
    requires
        base <= addr,
        addr - base + 4 <= len,
    ensures
        off == addr - base,
        off + 4 <= len,
{
    (addr - base) as usize
}

/// The word value four little-endian bytes encode.
pub open spec fn spec_u32_le(b0: u8, b1: u8, b2: u8, b3: u8) -> int {
    b0 + 256 * b1 + 65536 * b2 + 16777216 * b3
}

/// Decode the four bytes at `off` as one little-endian word.
pub fn read_u32_at(bytes: &[u8], off: usize) -> (v: u32)
    requires
        off + 4 <= bytes@.len(),
    ensures
        v == spec_u32_le(bytes@[off as int], bytes@[off + 1], bytes@[off + 2], bytes@[off + 3]),
{
    let b0: u32 = bytes[off] as u32;
    let b1: u32 = bytes[off + 1] as u32;
    let b2: u32 = bytes[off + 2] as u32;
    let b3: u32 = bytes[off + 3] as u32;
    b0 + 256 * b1 + 65536 * b2 + 16777216 * b3
}

/// The four little-endian bytes of `v`, lowest first.
pub fn u32_le_bytes(v: u32) -> (b: Vec<u8>)
    ensures
        b@.len() == 4,
        b@[0] == v as int % 256,
        b@[1] == (v as int / 256) % 256,
        b@[2] == (v as int / 65536) % 256,
        b@[3] == (v as int / 16777216) % 256,
        spec_u32_le(b@[0], b@[1], b@[2], b@[3]) == v,
{
    let b0: u8 = (v % 256) as u8;
    let b1: u8 = ((v / 256) % 256) as u8;
    let b2: u8 = ((v / 65536) % 256) as u8;
    let b3: u8 = ((v / 16777216) % 256) as u8;
    let mut out: Vec<u8> = Vec::new();
    out.push(b0);
    out.push(b1);
    out.push(b2);
    out.push(b3);
    proof {
        assert(b0 + 256 * b1 + 65536 * b2 + 16777216 * b3 == v) by (nonlinear_arith)
            requires
                b0 == v as int % 256,
                b1 == (v as int / 256) % 256,
                b2 == (v as int / 65536) % 256,
                b3 == (v as int / 16777216) % 256,
                0 <= v <= 0xFFFFFFFF,
        ;
    }
    out
}

} // verus!
