//! TLB entry word encodings for 1MB and 4MB pages, and the fields they
//! decode to.

use vstd::prelude::*;

verus! {

/// Number of TLB entries reserved by the runtime for its fixed mappings.
pub const TLB_FIXED_ENTRIES: u32 = 6;

/// All permissions: execute, write, read, user.
pub const TLB_PERM_XWRU: u32 = 0xF;

/// Supervisor only: execute, write, read (no user).
pub const TLB_PERM_XWR: u32 = 0xE;

/// Read and user only.
pub const TLB_PERM_RU: u32 = 0x3;

/// Write, read and user (no execute).
pub const TLB_PERM_WRU: u32 = 0x7;

/// The hi word in the runtime's own format: bits 31:30 = 0b11, VPN in
/// bits 19:8, ASID in bits 7:1, global flag in bit 0.
pub open spec fn tlb_hi_value(vpn_1m: u32, asid: u32, global: bool) -> int {
    0xC000_0000 + (vpn_1m % 0x1000) * 0x100 + (asid % 0x80) * 2 + (if global { 1int } else { 0int })
}

/// Cache attribute field value: write-back cacheable or uncached device.
pub open spec fn cache_attr(cached: bool) -> u32 {
    if cached { 7 } else { 4 }
}

/// The lo word of a 1MB page: permissions in bits 31:28, cache attribute
/// in bits 27:24, PPN in bits 23:9, and the 1MB size marker 0x10.
pub open spec fn tlb_lo_value(ppn_1m: u32, perm_bits: u32, cached: bool) -> int {
    (perm_bits % 0x10) * 0x1000_0000 + cache_attr(cached) * 0x100_0000 + (ppn_1m % 0x8000) * 0x200
        + 0x10
}

/// The lo word of a 4MB page: as for 1MB, with size marker 0x20.
pub open spec fn tlb_lo_4m_value(ppn_1m: u32, perm_bits: u32, cached: bool) -> int {
    (perm_bits % 0x10) * 0x1000_0000 + cache_attr(cached) * 0x100_0000 + (ppn_1m % 0x8000) * 0x200
        + 0x20
}

/// The hi word in the architectural layout: V in bit 31, G in bit 30,
/// ASID in bits 26:20 and VPN in bits 19:8.
pub open spec fn tlb_hi_vg_value(vpn_1m: u32, asid: u32, global: bool) -> int {
    0x8000_0000 + (if global { 0x4000_0000int } else { 0int }) + (asid % 0x80) * 0x10_0000 + (
    vpn_1m % 0x1000) * 0x100
}

// ---------------------------------------------------------------------------
// Field decoders
// ---------------------------------------------------------------------------

/// VPN field (bits 19:8) of a hi word.
pub open spec fn hi_vpn(hi: u32) -> u32 {
    (hi >> 8u32) & 0xFFF
}

/// ASID field (bits 7:1) of a runtime-format hi word.
pub open spec fn hi_asid(hi: u32) -> u32 {
    (hi >> 1u32) & 0x7F
}

/// Global flag (bit 0) of a runtime-format hi word.
pub open spec fn hi_global(hi: u32) -> bool {
    hi & 1 == 1
}

/// Bits 31:30 of a hi word.
pub open spec fn hi_top(hi: u32) -> u32 {
    hi >> 30u32
}

/// ASID field (bits 26:20) of an architectural hi word.
pub open spec fn hi_vg_asid(hi: u32) -> u32 {
    (hi >> 20u32) & 0x7F
}

/// Valid bit (31) of an architectural hi word.
pub open spec fn hi_vg_valid(hi: u32) -> bool {
    (hi >> 31u32) == 1
}

/// Global bit (30) of an architectural hi word.
pub open spec fn hi_vg_global(hi: u32) -> bool {
    (hi >> 30u32) & 1 == 1
}

/// Permission field (bits 31:28) of a lo word.
pub open spec fn lo_perm(lo: u32) -> u32 {
    lo >> 28u32
}

/// Cache attribute field (bits 27:24) of a lo word.
pub open spec fn lo_cache_attr(lo: u32) -> u32 {
    (lo >> 24u32) & 0xF
}

/// PPN field (bits 23:9) of a lo word.
pub open spec fn lo_ppn(lo: u32) -> u32 {
    (lo >> 9u32) & 0x7FFF
}

/// Page-size field (bits 8:0) of a lo word.
pub open spec fn lo_size(lo: u32) -> u32 {
    lo & 0x1FF
}

// ---------------------------------------------------------------------------
// Encoders
// ---------------------------------------------------------------------------

/// Build a TLB hi word (runtime format): VPN is the 1MB page number (VA >>
/// 20) placed at bits 19:8, ASID at bits 7:1, global flag at bit 0, and
/// bits 31:30 = 0b11.
pub fn make_tlb_hi(vpn_1m: u32, asid: u32, global: bool) -> (hi: u32)
    ensures
        hi == tlb_hi_value(vpn_1m, asid, global),
        hi_vpn(hi) == vpn_1m & 0xFFF,
        hi_asid(hi) == asid & 0x7F,
        hi_global(hi) == global,
        hi_top(hi) == 3,
{
    let g: u32 = if global { 1 } else { 0 };
    let hi = 0xC000_0000u32 | ((vpn_1m & 0xFFF) << 8) | ((asid & 0x7F) << 1) | g;
    assert(hi == 0xC000_0000 + (vpn_1m % 0x1000) * 0x100 + (asid % 0x80) * 2 + g
        && (hi >> 8u32) & 0xFFF == vpn_1m & 0xFFF && (hi >> 1u32) & 0x7F == asid & 0x7F
        && (hi & 1 == 1) == (g == 1) && hi >> 30u32 == 3) by (bit_vector)
        requires
            hi == 0xC000_0000u32 | ((vpn_1m & 0xFFF) << 8) | ((asid & 0x7F) << 1) | g,
            g <= 1,
    ;
    hi
}

/// Build a TLB lo word for a 1MB page: permissions in bits 31:28, cache
/// attribute (7 cached, 4 uncached) in bits 27:24, PPN in bits 23:9 and
/// the 1MB size marker 0x10 in bits 4:0.
pub fn make_tlb_lo(ppn_1m: u32, perm_bits: u32, cached: bool) -> (lo: u32)
    ensures
        lo == tlb_lo_value(ppn_1m, perm_bits, cached),
        lo_perm(lo) == perm_bits & 0xF,
        lo_cache_attr(lo) == cache_attr(cached),
        lo_ppn(lo) == ppn_1m & 0x7FFF,
        lo_size(lo) == 0x10,
{
    let cache_attr: u32 = if cached { 0x07 } else { 0x04 };
    let lo = ((perm_bits & 0xF) << 28) | (cache_attr << 24) | ((ppn_1m & 0x7FFF) << 9) | 0x10;
    assert(lo == (perm_bits % 0x10) * 0x1000_0000 + cache_attr * 0x100_0000 + (ppn_1m % 0x8000)
        * 0x200 + 0x10 && lo >> 28u32 == perm_bits & 0xF && (lo >> 24u32) & 0xF == cache_attr
        && (lo >> 9u32) & 0x7FFF == ppn_1m & 0x7FFF && lo & 0x1FF == 0x10) by (bit_vector)
        requires
            lo == ((perm_bits & 0xF) << 28) | (cache_attr << 24) | ((ppn_1m & 0x7FFF) << 9) | 0x10,
            cache_attr <= 7,
    ;
    lo
}

/// Build a TLB lo word for a 4MB page: as [`make_tlb_lo`] with the 4MB size
/// marker 0x20.
pub fn make_tlb_lo_4m(ppn_1m: u32, perm_bits: u32, cached: bool) -> (lo: u32)
    ensures
        lo == tlb_lo_4m_value(ppn_1m, perm_bits, cached),
        lo_perm(lo) == perm_bits & 0xF,
        lo_cache_attr(lo) == cache_attr(cached),
        lo_ppn(lo) == ppn_1m & 0x7FFF,
        lo_size(lo) == 0x20,
{
    let cache_attr: u32 = if cached { 0x07 } else { 0x04 };
    let lo = ((perm_bits & 0xF) << 28) | (cache_attr << 24) | ((ppn_1m & 0x7FFF) << 9) | 0x20;
    assert(lo == (perm_bits % 0x10) * 0x1000_0000 + cache_attr * 0x100_0000 + (ppn_1m % 0x8000)
        * 0x200 + 0x20 && lo >> 28u32 == perm_bits & 0xF && (lo >> 24u32) & 0xF == cache_attr
        && (lo >> 9u32) & 0x7FFF == ppn_1m & 0x7FFF && lo & 0x1FF == 0x20) by (bit_vector)
        requires
            lo == ((perm_bits & 0xF) << 28) | (cache_attr << 24) | ((ppn_1m & 0x7FFF) << 9) | 0x20,
            cache_attr <= 7,
    ;
    lo
}

/// Build a TLB hi word with explicit V and G bits: V (bit 31) set, G in
/// bit 30, ASID in bits 26:20, VPN in bits 19:8.
pub fn make_tlb_hi_vg(vpn_1m: u32, asid: u32, global: bool) -> (hi: u32)
    ensures
        hi == tlb_hi_vg_value(vpn_1m, asid, global),
        hi_vg_valid(hi),
        hi_vg_global(hi) == global,
        hi_vg_asid(hi) == asid & 0x7F,
        hi_vpn(hi) == vpn_1m & 0xFFF,
        hi & 0x3800_00FF == 0,
{
    let g: u32 = if global { 1 } else { 0 };
    let hi = 0x8000_0000u32 | (g << 30) | ((asid & 0x7F) << 20) | ((vpn_1m & 0xFFF) << 8);
    assert(hi == 0x8000_0000 + g * 0x4000_0000 + (asid % 0x80) * 0x10_0000 + (vpn_1m % 0x1000)
        * 0x100) by (bit_vector)
        requires
            hi == 0x8000_0000u32 | (g << 30u32) | ((asid & 0x7F) << 20u32) | ((vpn_1m & 0xFFF) << 8u32),
            g <= 1,
    ;
    assert(hi >> 31u32 == 1 && ((hi >> 30u32) & 1 == 1) == (g == 1) && (hi >> 20u32) & 0x7F
        == asid & 0x7F && (hi >> 8u32) & 0xFFF == vpn_1m & 0xFFF && hi & 0x3800_00FF == 0)
        by (bit_vector)
        requires
            hi == 0x8000_0000u32 | (g << 30u32) | ((asid & 0x7F) << 20u32) | ((vpn_1m & 0xFFF) << 8u32),
            g <= 1,
    ;
    hi
}

/// The hi word of a 4MB entry with explicit V and G bits: the same word as
/// for 1MB, since the page size lives in the lo word.
pub fn make_tlb_hi_vg_4m(vpn_1m: u32, asid: u32, global: bool) -> (hi: u32)
    ensures
        hi == tlb_hi_vg_value(vpn_1m, asid, global),
{
    make_tlb_hi_vg(vpn_1m, asid, global)
}

// ---------------------------------------------------------------------------
// Laws
// ---------------------------------------------------------------------------

/// Two runtime-format hi words are equal exactly when their VPN, ASID and
/// global fields are.
pub proof fn law_tlb_hi_injective(v1: u32, a1: u32, g1: bool, v2: u32, a2: u32, g2: bool)
    ensures
        (tlb_hi_value(v1, a1, g1) == tlb_hi_value(v2, a2, g2)) <==> (v1 % 0x1000 == v2 % 0x1000 && a1
            % 0x80 == a2 % 0x80 && g1 == g2),
{
}

/// Two 1MB lo words are equal exactly when their PPN, permission and
/// cacheability fields are.
pub proof fn law_tlb_lo_injective(p1: u32, r1: u32, c1: bool, p2: u32, r2: u32, c2: bool)
    ensures
        (tlb_lo_value(p1, r1, c1) == tlb_lo_value(p2, r2, c2)) <==> (p1 % 0x8000 == p2 % 0x8000 && r1
            % 0x10 == r2 % 0x10 && c1 == c2),
{
}

/// A 1MB and a 4MB lo word never coincide: they differ in the size field.
pub proof fn law_tlb_lo_sizes_differ(p1: u32, r1: u32, c1: bool, p2: u32, r2: u32, c2: bool)
    ensures
        tlb_lo_value(p1, r1, c1) != tlb_lo_4m_value(p2, r2, c2),
{
}

/// Every encoded word fits in 32 bits.
pub proof fn law_tlb_words_in_range(vpn: u32, asid: u32, global: bool, ppn: u32, perm: u32, cached: bool)
    ensures
        0 <= tlb_hi_value(vpn, asid, global) <= u32::MAX,
        0 <= tlb_hi_vg_value(vpn, asid, global) <= u32::MAX,
        0 <= tlb_lo_value(ppn, perm, cached) <= u32::MAX,
        0 <= tlb_lo_4m_value(ppn, perm, cached) <= u32::MAX,
{
}

} // verus!
