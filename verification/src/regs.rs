//! System register layouts, configuration-table and device offsets, and the
//! field arithmetic the tests perform on them.

use vstd::prelude::*;

verus! {

// ---------------------------------------------------------------------------
// SSR
// ---------------------------------------------------------------------------
pub const SSR_CAUSE_SHIFT: u32 = 0;
pub const SSR_ASID_SHIFT: u32 = 8;
pub const SSR_UM_BIT: u32 = 16;
pub const SSR_EX_BIT: u32 = 17;
pub const SSR_IE_BIT: u32 = 18;
pub const SSR_GM_BIT: u32 = 19;
pub const SSR_CE_BIT: u32 = 23;
pub const SSR_PE_BIT: u32 = 24;
pub const SSR_SS_BIT: u32 = 30;
pub const SSR_XE_BIT: u32 = 31;

pub const SSR_UM: u32 = 0x0001_0000;
pub const SSR_EX: u32 = 0x0002_0000;
pub const SSR_IE: u32 = 0x0004_0000;
pub const SSR_GM: u32 = 0x0008_0000;
pub const SSR_CE: u32 = 0x0080_0000;
pub const SSR_PE: u32 = 0x0100_0000;
pub const SSR_XA_SHIFT: u32 = 27;
/// Bits 29:27, between the PE bit below and SS (bit 30) above.
pub const SSR_XA_MASK: u32 = 0x3800_0000;
pub const SSR_SS: u32 = 0x4000_0000;
pub const SSR_XE: u32 = 0x8000_0000;

// ---------------------------------------------------------------------------
// SYSCFG
// ---------------------------------------------------------------------------
pub const SYSCFG_MMU_EN: u32 = 0x01;
pub const SYSCFG_ICACHE_EN: u32 = 0x02;
pub const SYSCFG_DCACHE_EN: u32 = 0x04;
pub const SYSCFG_INT_EN: u32 = 0x10;
pub const SYSCFG_PCYCLE_EN: u32 = 0x40;
/// Dual-mode threading enable, set by the startup code.
pub const SYSCFG_DMT_EN: u32 = 0x8000;

// ---------------------------------------------------------------------------
// STID, SCHEDCFG
// ---------------------------------------------------------------------------
pub const STID_PRIO_SHIFT: u32 = 16;
pub const STID_PRIO_MASK: u32 = 0x00FF_0000;
pub const SCHEDCFG_EN: u32 = 0x100;

// ---------------------------------------------------------------------------
// Configuration table field offsets
// ---------------------------------------------------------------------------
pub const CFGTABLE_SUBSYSTEM_BASE: u32 = 0x08;
pub const CFGTABLE_FASTL2VIC_BASE: u32 = 0x28;
pub const CFGTABLE_COPROC_PRESENT: u32 = 0x30;
pub const CFGTABLE_EXT_CONTEXTS: u32 = 0x34;
pub const CFGTABLE_THREAD_ENABLE_MASK: u32 = 0x48;

// ---------------------------------------------------------------------------
// QTimer
// ---------------------------------------------------------------------------
/// From the subsystem base.
pub const QTIMER_DEVICE_OFFSET: u32 = 0x2_0000;
/// Timer frame within the QTimer.
pub const QTIMER_FRAME_OFFSET: u32 = 0x1000;
/// Version register within the frame.
pub const QTIMER_VERSION_OFFSET: u32 = 0xfd0;
pub const QTIMER_EXPECTED_VERSION: u32 = 0x2002_0000;

// ---------------------------------------------------------------------------
// L2VIC
// ---------------------------------------------------------------------------
/// From the subsystem base.
pub const L2VIC_DEVICE_OFFSET: u32 = 0x1_0000;
pub const L2VIC_INT_ENABLE: u32 = 0x100;
pub const L2VIC_INT_ENABLE_CLR: u32 = 0x180;
pub const L2VIC_INT_ENABLE_SET: u32 = 0x200;
pub const L2VIC_INT_TYPE: u32 = 0x280;
pub const L2VIC_INT_STATUS: u32 = 0x380;
pub const L2VIC_INT_CLEAR: u32 = 0x400;
pub const L2VIC_SOFT_INT: u32 = 0x480;
pub const L2VIC_INT_PENDING: u32 = 0x500;

// ---------------------------------------------------------------------------
// CCR
// ---------------------------------------------------------------------------
pub const CCR_GIE_BIT: u32 = 24;
pub const CCR_GTE_BIT: u32 = 25;
pub const CCR_GEE_BIT: u32 = 26;
pub const CCR_GRE_BIT: u32 = 27;
pub const CCR_VV1_BIT: u32 = 29;

pub const CCR_GIE: u32 = 0x0100_0000;
pub const CCR_GTE: u32 = 0x0200_0000;
pub const CCR_GEE: u32 = 0x0400_0000;
pub const CCR_GRE: u32 = 0x0800_0000;
pub const CCR_VV1: u32 = 0x2000_0000;

// ---------------------------------------------------------------------------
// Exception cause codes
// ---------------------------------------------------------------------------
pub const CAUSE_PRECISE_BUS_ERROR: u32 = 0x01;
pub const CAUSE_NPC_ERROR: u32 = 0x02;
pub const CAUSE_PRIV_NO_UREAD: u32 = 0x24;
pub const CAUSE_PRIV_NO_UWRITE: u32 = 0x25;
pub const CAUSE_PRIV_NO_UXEC: u32 = 0x14;
pub const CAUSE_PRIV_INSN_IN_USER: u32 = 0x1B;
pub const CAUSE_NO_COPROC_ENABLE: u32 = 0x16;
/// Imprecise multiple-TLB-match, delivered as an NMI.
pub const CAUSE_MULTI_TLB_MATCH: u32 = 0x44;

/// The one-bit mask for bit `n` (n < 32).
pub open spec fn bit(n: u32) -> u32 {
    1u32 << n
}

// ---------------------------------------------------------------------------
// Field arithmetic
// ---------------------------------------------------------------------------

/// The ASID field (bits 14:8) of SSR.
pub open spec fn ssr_asid_spec(ssr: u32) -> u32 {
    (ssr >> 8u32) & 0x7F
}

/// SSR with its ASID field replaced: `(ssr & !(0x7F << 8)) | (asid << 8)`.
pub open spec fn ssr_with_asid_spec(ssr: u32, asid: u32) -> u32 {
    (ssr & !0x7F00u32) | ((asid << 8u32) as u32)
}

/// The ASID field of SSR.
pub fn ssr_asid(ssr: u32) -> (a: u32)
    ensures
        a == ssr_asid_spec(ssr),
        a < 0x80,
{
    let a = (ssr >> SSR_ASID_SHIFT) & 0x7F;
    assert((ssr >> 8u32) & 0x7F < 0x80) by (bit_vector);
    a
}

/// SSR with a new ASID.
pub fn ssr_with_asid(ssr: u32, asid: u32) -> (r: u32)
    requires
        asid < 0x80,
    ensures
        r == ssr_with_asid_spec(ssr, asid),
{
    let mask: u32 = 0x7F << SSR_ASID_SHIFT;
    assert(0x7Fu32 << 8u32 == 0x7F00u32) by (bit_vector);
    (ssr & !mask) | (asid << SSR_ASID_SHIFT)
}

/// The XA field (bits 29:27) of SSR.
pub open spec fn ssr_xa_spec(ssr: u32) -> u32 {
    (ssr & SSR_XA_MASK) >> 27u32
}

/// SSR selecting extension context `xa` with HVX enabled:
/// `(ssr & !XA_MASK) | XE | ((xa << XA_SHIFT) & XA_MASK)`.
pub open spec fn ssr_select_xa_spec(ssr: u32, xa: u32) -> u32 {
    (ssr & !SSR_XA_MASK) | SSR_XE | (((xa << 27u32) as u32) & SSR_XA_MASK)
}

/// SSR with HVX disabled.
pub open spec fn ssr_xe_cleared_spec(ssr: u32) -> u32 {
    ssr & !SSR_XE
}

/// SSR selecting extension context `xa` with HVX enabled.
pub fn ssr_select_xa(ssr: u32, xa: u32) -> (r: u32)
    ensures
        r == ssr_select_xa_spec(ssr, xa),
{
    (ssr & !SSR_XA_MASK) | SSR_XE | ((xa << SSR_XA_SHIFT) & SSR_XA_MASK)
}

/// The XA field of SSR.
pub fn ssr_xa(ssr: u32) -> (x: u32)
    ensures
        x == ssr_xa_spec(ssr),
        x < 8,
{
    let x = (ssr & SSR_XA_MASK) >> SSR_XA_SHIFT;
    assert((ssr & 0x3800_0000u32) >> 27u32 < 8) by (bit_vector);
    x
}

/// The PRIO field (bits 23:16) of STID.
pub open spec fn stid_prio_spec(stid: u32) -> u32 {
    (stid >> 16u32) & 0xFF
}

/// STID with a new priority: `(stid & !PRIO_MASK) | (prio << PRIO_SHIFT)`.
pub open spec fn stid_with_prio_spec(stid: u32, prio: u32) -> u32 {
    (stid & !STID_PRIO_MASK) | ((prio << 16u32) as u32)
}

/// STID with a new priority.
pub fn stid_with_prio(stid: u32, prio: u32) -> (r: u32)
    ensures
        r == stid_with_prio_spec(stid, prio),
{
    (stid & !STID_PRIO_MASK) | (prio << STID_PRIO_SHIFT)
}

/// The PRIO field of STID.
pub fn stid_prio(stid: u32) -> (p: u32)
    ensures
        p == stid_prio_spec(stid),
{
    (stid >> STID_PRIO_SHIFT) & 0xFF
}

/// SCHEDCFG with priority steering enabled for interrupt `intno`:
/// `(saved & !0xF) | EN | intno`.
pub open spec fn schedcfg_steering_spec(saved: u32, intno: u32) -> u32 {
    (saved & !0xFu32) | SCHEDCFG_EN | intno
}

/// SCHEDCFG with priority steering enabled for interrupt `intno`.
pub fn schedcfg_steering(saved: u32, intno: u32) -> (r: u32)
    ensures
        r == schedcfg_steering_spec(saved, intno),
{
    (saved & !0xF) | SCHEDCFG_EN | intno
}

/// The operand of `iassignw`/`iassignr`: interrupt number in bits 20:16,
/// thread mask in the low bits.
pub open spec fn iassign_word_spec(intno: u32, mask: u32) -> u32 {
    ((intno << 16u32) as u32) | mask
}

/// The operand of `iassignw`/`iassignr`.
pub fn iassign_word(intno: u32, mask: u32) -> (r: u32)
    ensures
        r == iassign_word_spec(intno, mask),
{
    (intno << 16) | mask
}

/// A device base from a configuration-table field holding its address
/// in 64KB units.
pub open spec fn cfg_base_spec(raw: u32) -> u32 {
    (raw << 16u32) as u32
}

/// A device base from a configuration-table field holding its address
/// in 64KB units.
pub fn cfg_base(raw: u32) -> (r: u32)
    ensures
        r == cfg_base_spec(raw),
{
    raw << 16
}

/// The 1MB page number of an address.
pub open spec fn vpn_of_spec(addr: u32) -> u32 {
    addr >> 20u32
}

/// The 1MB page number of an address.
pub fn vpn_of(addr: u32) -> (r: u32)
    ensures
        r == vpn_of_spec(addr),
        r < 0x1000,
{
    let r = addr >> 20;
    assert(addr >> 20u32 < 0x1000) by (bit_vector);
    r
}

/// `a + b` modulo 2^32.
pub open spec fn add32(a: u32, b: u32) -> u32 {
    ((a + b) % 0x1_0000_0000) as u32
}

/// `a + b` modulo 2^32, as address arithmetic in a release build does.
pub fn wrapping_add32(a: u32, b: u32) -> (r: u32)
    ensures
        r == add32(a, b),
{
    if a <= u32::MAX - b {
        a + b
    } else {
        let r = a - (u32::MAX - b) - 1;
        r
    }
}

/// Offset of the 32-interrupt slice register holding `irq`:
/// `reg + 4 * (irq / 32)`.
pub open spec fn l2vic_reg_spec(reg: u32, irq: u32) -> u32 {
    (reg + 4 * (irq / 32)) as u32
}

/// Offset of the slice register holding `irq`.
pub fn l2vic_reg(reg: u32, irq: u32) -> (r: u32)
    requires
        reg <= 0x500,
    ensures
        r == l2vic_reg_spec(reg, irq),
{
    reg + 4 * (irq / 32)
}

/// The bit of `irq` within its slice register: `1 << (irq % 32)`.
pub open spec fn l2vic_bit_spec(irq: u32) -> u32 {
    1u32 << ((irq % 32) as u32)
}

/// The bit of `irq` within its slice register.
pub fn l2vic_bit(irq: u32) -> (r: u32)
    ensures
        r == l2vic_bit_spec(irq),
{
    1u32 << (irq % 32)
}

/// VID0, the L2 interrupt vector number (bits 9:0 of VID).
pub open spec fn vid0_spec(vid: u32) -> u32 {
    vid & 0x3FF
}

/// VID0 of VID.
pub fn vid0(vid: u32) -> (r: u32)
    ensures
        r == vid0_spec(vid),
        r < 0x400,
{
    let r = vid & 0x3FF;
    assert(vid & 0x3FF < 0x400) by (bit_vector);
    r
}

/// A fast L2VIC command: `(cmd << 16) | irq` (cmd 0 enables, 1 disables,
/// 2 raises a software interrupt).
pub open spec fn fast_l2vic_cmd_spec(cmd: u32, irq: u32) -> u32 {
    ((cmd << 16u32) as u32) | irq
}

/// A fast L2VIC command word.
pub fn fast_l2vic_cmd(cmd: u32, irq: u32) -> (r: u32)
    ensures
        r == fast_l2vic_cmd_spec(cmd, irq),
{
    (cmd << 16) | irq
}

/// The values of the one-bit masks.
pub proof fn lemma_bit_values()
    by (bit_vector)
    ensures
        1u32 << 0u32 == 0x1,
        1u32 << 1u32 == 0x2,
        1u32 << 2u32 == 0x4,
        1u32 << 3u32 == 0x8,
        1u32 << 4u32 == 0x10,
        1u32 << 5u32 == 0x20,
        1u32 << 6u32 == 0x40,
        1u32 << 7u32 == 0x80,
        1u32 << 8u32 == 0x100,
        1u32 << 9u32 == 0x200,
        1u32 << 10u32 == 0x400,
        1u32 << 11u32 == 0x800,
        1u32 << 12u32 == 0x1000,
        1u32 << 13u32 == 0x2000,
        1u32 << 14u32 == 0x4000,
        1u32 << 15u32 == 0x8000,
        1u32 << 16u32 == 0x10000,
        1u32 << 17u32 == 0x20000,
        1u32 << 18u32 == 0x40000,
        1u32 << 19u32 == 0x80000,
        1u32 << 20u32 == 0x100000,
        1u32 << 21u32 == 0x200000,
        1u32 << 22u32 == 0x400000,
        1u32 << 23u32 == 0x800000,
        1u32 << 24u32 == 0x1000000,
        1u32 << 25u32 == 0x2000000,
        1u32 << 26u32 == 0x4000000,
        1u32 << 27u32 == 0x8000000,
        1u32 << 28u32 == 0x10000000,
        1u32 << 29u32 == 0x20000000,
        1u32 << 30u32 == 0x40000000,
        1u32 << 31u32 == 0x80000000,
{
}

// ---------------------------------------------------------------------------
// Laws
// ---------------------------------------------------------------------------

/// Replacing the ASID of SSR and reading it back gives the new ASID, and
/// no other bit of SSR changes.
pub proof fn law_ssr_asid_roundtrip(ssr: u32, asid: u32)
    requires
        asid < 0x80,
    ensures
        ssr_asid_spec(ssr_with_asid_spec(ssr, asid)) == asid,
        ssr_with_asid_spec(ssr, asid) & !0x7F00u32 == ssr & !0x7F00u32,
{
    assert(((((ssr & !0x7F00u32) | ((asid << 8u32) as u32)) >> 8u32) & 0x7F) == asid
        && (((ssr & !0x7F00u32) | ((asid << 8u32) as u32)) & !0x7F00u32) == ssr & !0x7F00u32)
        by (bit_vector)
        requires
            asid < 0x80,
    ;
}

/// Selecting an extension context sets XA to `xa` modulo 8, sets XE, and
/// leaves every other bit of SSR (SS among them) unchanged; clearing XE
/// touches only XE.
pub proof fn law_ssr_select_xa(ssr: u32, xa: u32)
    ensures
        ssr_xa_spec(ssr_select_xa_spec(ssr, xa)) == xa % 8,
        ssr_select_xa_spec(ssr, xa) & SSR_XE == SSR_XE,
        ssr_select_xa_spec(ssr, xa) & !(SSR_XA_MASK | SSR_XE) == ssr & !(SSR_XA_MASK | SSR_XE),
        ssr_xe_cleared_spec(ssr) & SSR_XE == 0,
        ssr_xe_cleared_spec(ssr) & !SSR_XE == ssr & !SSR_XE,
        ssr_select_xa_spec(ssr, xa) & SSR_SS == ssr & SSR_SS,
{
    assert(((((ssr & !0x3800_0000u32) | 0x8000_0000u32 | (((xa << 27u32) as u32) & 0x3800_0000u32))
        & 0x3800_0000u32) >> 27u32) == xa % 8
        && (((ssr & !0x3800_0000u32) | 0x8000_0000u32 | (((xa << 27u32) as u32) & 0x3800_0000u32))
        & 0x8000_0000u32) == 0x8000_0000u32
        && (((ssr & !0x3800_0000u32) | 0x8000_0000u32 | (((xa << 27u32) as u32) & 0x3800_0000u32))
        & !(0x3800_0000u32 | 0x8000_0000u32)) == ssr & !(0x3800_0000u32 | 0x8000_0000u32)
        && ((ssr & !0x8000_0000u32) & 0x8000_0000u32) == 0
        && ((ssr & !0x8000_0000u32) & !0x8000_0000u32) == ssr & !0x8000_0000u32
        && (((ssr & !0x3800_0000u32) | 0x8000_0000u32 | (((xa << 27u32) as u32) & 0x3800_0000u32))
        & 0x4000_0000u32) == ssr & 0x4000_0000u32)
        by (bit_vector);
}

/// Setting a priority of at most 0xFF in STID reads back as that priority,
/// and no other bit of STID changes.
pub proof fn law_stid_prio_roundtrip(stid: u32, prio: u32)
    requires
        prio <= 0xFF,
    ensures
        stid_prio_spec(stid_with_prio_spec(stid, prio)) == prio,
        stid_with_prio_spec(stid, prio) & !STID_PRIO_MASK == stid & !STID_PRIO_MASK,
{
    assert(((((stid & !0x00FF_0000u32) | ((prio << 16u32) as u32)) >> 16u32) & 0xFF) == prio
        && (((stid & !0x00FF_0000u32) | ((prio << 16u32) as u32)) & !0x00FF_0000u32) == stid
        & !0x00FF_0000u32) by (bit_vector)
        requires
            prio <= 0xFF,
    ;
}

/// An interrupt number below 32 and a thread mask below 2^16 are carried
/// in disjoint fields of the `iassign` operand.
pub proof fn law_iassign_fields(intno: u32, mask: u32)
    requires
        intno < 32,
        mask < 0x1_0000,
    ensures
        (iassign_word_spec(intno, mask) >> 16u32) == intno,
        iassign_word_spec(intno, mask) & 0xFFFF == mask,
{
    assert((((intno << 16u32) as u32 | mask) >> 16u32) == intno && (((intno << 16u32) as u32
        | mask) & 0xFFFF) == mask) by (bit_vector)
        requires
            intno < 32,
            mask < 0x1_0000,
    ;
}

/// Every interrupt lives in exactly one slice register bit: the slice and
/// bit determine the interrupt number, and the bit is the single bit at
/// the interrupt's position within its slice.
pub proof fn law_l2vic_slice_bit(irq: u32)
    ensures
        irq == 32 * (irq / 32) + irq % 32,
        l2vic_bit_spec(irq) != 0,
        l2vic_bit_spec(irq) & (l2vic_bit_spec(irq) - 1) as u32 == 0,
        l2vic_bit_spec(irq) >> ((irq % 32) as u32) == 1,
{
    let b = (irq % 32) as u32;
    assert(b < 32);
    assert((1u32 << b) != 0 && (1u32 << b) & (((1u32 << b) - 1) as u32) == 0 && (1u32 << b) >> b == 1)
        by (bit_vector)
        requires
            b < 32,
    ;
}

/// The L2VIC's slice registers: the register of an interrupt lies a whole
/// number of 4-byte words past the base register `reg`; interrupts 0 to 31
/// use `reg` itself; two interrupts share a register exactly when they lie
/// in the same 32-interrupt slice; and each slice's register is the word
/// after the previous slice's.
pub proof fn law_l2vic_slice_register(reg: u32, irq: u32, other: u32)
    requires
        reg <= 0x500,
    ensures
        l2vic_reg_spec(reg, irq) >= reg,
        (l2vic_reg_spec(reg, irq) - reg) % 4 == 0,
        irq < 32 ==> l2vic_reg_spec(reg, irq) == reg,
        (l2vic_reg_spec(reg, irq) == l2vic_reg_spec(reg, other)) <==> (irq / 32 == other / 32),
        irq <= u32::MAX - 32 ==> l2vic_reg_spec(reg, (irq + 32) as u32) == l2vic_reg_spec(reg, irq) + 4,
{
}

/// Steering interrupt `intno` (below 16) through SCHEDCFG puts it in the
/// low four bits, sets the enable bit, and keeps every other bit.
pub proof fn law_schedcfg_steering_fields(saved: u32, intno: u32)
    requires
        intno < 16,
    ensures
        schedcfg_steering_spec(saved, intno) & 0xF == intno,
        schedcfg_steering_spec(saved, intno) & SCHEDCFG_EN == SCHEDCFG_EN,
        schedcfg_steering_spec(saved, intno) & !0x10Fu32 == saved & !0x10Fu32,
{
    assert((((saved & !0xFu32) | 0x100u32 | intno) & 0xF) == intno && (((saved & !0xFu32) | 0x100u32 | intno)
        & 0x100u32) == 0x100u32 && (((saved & !0xFu32) | 0x100u32 | intno) & !0x10Fu32) == saved & !0x10Fu32)
        by (bit_vector)
        requires
            intno < 16,
    ;
}

/// A device base read from the configuration table is the field in 64KB
/// units: its low 16 bits are zero and its high 16 bits are the field's low
/// 16 bits.
pub proof fn law_cfg_base_units(raw: u32)
    ensures
        cfg_base_spec(raw) & 0xFFFF == 0,
        cfg_base_spec(raw) >> 16u32 == raw & 0xFFFF,
{
    assert((((raw << 16u32) as u32) & 0xFFFF) == 0 && (((raw << 16u32) as u32) >> 16u32) == raw & 0xFFFF)
        by (bit_vector);
}

/// The 1MB page of an address is the one that contains it.
pub proof fn law_vpn_of_page(addr: u32)
    ensures
        vpn_of_spec(addr) * 0x10_0000 <= addr < vpn_of_spec(addr) * 0x10_0000 + 0x10_0000,
{
    assert(addr >> 20u32 == addr / 0x10_0000) by (bit_vector);
}

/// VID0 keeps exactly the low ten bits of VID: it is below 0x400, equals
/// VID when VID is, and together with VID's other bits gives VID back.
pub proof fn law_vid0_low_bits(vid: u32)
    ensures
        vid0_spec(vid) < 0x400,
        vid < 0x400 ==> vid0_spec(vid) == vid,
        (vid & !0x3FFu32) | vid0_spec(vid) == vid,
{
    assert((vid & 0x3FF) < 0x400 && (vid < 0x400 ==> vid & 0x3FF == vid) && ((vid & !0x3FFu32) | (vid & 0x3FF))
        == vid) by (bit_vector);
}

/// A fast L2VIC command word carries the command in its high half and the
/// interrupt number in its low half.
pub proof fn law_fast_l2vic_cmd_fields(cmd: u32, irq: u32)
    requires
        cmd < 0x1_0000,
        irq < 0x1_0000,
    ensures
        fast_l2vic_cmd_spec(cmd, irq) >> 16u32 == cmd,
        fast_l2vic_cmd_spec(cmd, irq) & 0xFFFF == irq,
{
    assert((((cmd << 16u32) as u32 | irq) >> 16u32) == cmd && (((cmd << 16u32) as u32 | irq) & 0xFFFF) == irq)
        by (bit_vector)
        requires
            cmd < 0x1_0000,
            irq < 0x1_0000,
    ;
}

} // verus!
