use lib::regs::{
    cfg_base, fast_l2vic_cmd, iassign_word, l2vic_bit, l2vic_reg, schedcfg_steering, ssr_asid, ssr_select_xa,
    ssr_with_asid, ssr_xa, stid_prio, stid_with_prio, vid0, vpn_of, wrapping_add32, L2VIC_INT_CLEAR, SSR_SS,
    SSR_XA_MASK, SSR_XE,
};
use lib::tlb::{
    make_tlb_hi, make_tlb_hi_vg, make_tlb_hi_vg_4m, make_tlb_lo, make_tlb_lo_4m, TLB_PERM_RU, TLB_PERM_XWR,
    TLB_PERM_XWRU,
};

#[test]
fn tlb_hi_runtime_format_values() {
    assert_eq!(make_tlb_hi(0x300, 0, true), 0xC003_0001);
    assert_eq!(make_tlb_hi(0x200, 0x7F, false), 0xC002_00FE);
    assert_eq!(make_tlb_hi(0x160, 5, false), 0xC001_600A);
}

#[test]
fn tlb_hi_fields_are_masked() {
    assert_eq!(make_tlb_hi(0x1300, 0x85, true), make_tlb_hi(0x300, 0x05, true));
}

#[test]
fn tlb_lo_values() {
    assert_eq!(make_tlb_lo(0x300, TLB_PERM_XWRU, true), 0xF706_0010);
    assert_eq!(make_tlb_lo(0x500, TLB_PERM_XWRU, false), 0xF40A_0010);
    assert_eq!(make_tlb_lo(0x150, TLB_PERM_XWR, true), 0xE702_A010);
    assert_eq!(make_tlb_lo(0x170, TLB_PERM_RU, true), 0x3702_E010);
    assert_eq!(make_tlb_lo_4m(0x480, TLB_PERM_XWRU, true), 0xF709_0020);
}

#[test]
fn tlb_hi_vg_values() {
    assert_eq!(make_tlb_hi_vg(0x420, 3, false), 0x8034_2000);
    assert_eq!(make_tlb_hi_vg(0x430, 0, true), 0xC004_3000);
    assert_eq!(make_tlb_hi_vg_4m(0x480, 0, true), make_tlb_hi_vg(0x480, 0, true));
}

#[test]
fn tlb_words_distinguish_their_fields() {
    assert_ne!(make_tlb_hi(0x300, 0, true), make_tlb_hi(0x301, 0, true));
    assert_ne!(make_tlb_hi(0x300, 0, true), make_tlb_hi(0x300, 1, true));
    assert_ne!(make_tlb_hi(0x300, 0, true), make_tlb_hi(0x300, 0, false));
    assert_ne!(make_tlb_lo(0x300, TLB_PERM_XWRU, true), make_tlb_lo(0x300, TLB_PERM_XWRU, false));
    assert_ne!(make_tlb_lo(0x480, TLB_PERM_XWRU, true), make_tlb_lo_4m(0x480, TLB_PERM_XWRU, true));
}

#[test]
fn ssr_asid_roundtrip_keeps_other_bits() {
    let s = ssr_with_asid(0xFFFF_FFFF, 0x5A);
    assert_eq!(ssr_asid(s), 0x5A);
    assert_eq!(s & !0x7F00, 0xFFFF_FFFF & !0x7F00);
    assert_eq!(ssr_asid(0x0000_7F00), 0x7F);
}

#[test]
fn ssr_select_xa_sets_field_and_enable() {
    assert_eq!(ssr_select_xa(0, 3), 0x9800_0000);
    assert_eq!(ssr_xa(ssr_select_xa(0x0004_0000, 5)), 5);
    assert_eq!(ssr_select_xa(0x0004_0000, 5) & SSR_XE, SSR_XE);
    assert_eq!(ssr_select_xa(0x7804_0000, 1) & !(SSR_XA_MASK | SSR_XE), 0x4004_0000);
    assert_eq!(ssr_select_xa(0x4000_0000, 7) & SSR_SS, SSR_SS);
    assert_eq!(ssr_select_xa(0, 7) & SSR_SS, 0);
    assert_eq!(ssr_xa(ssr_select_xa(0, 9)), 1);
}

#[test]
fn stid_priority_roundtrip() {
    let s = stid_with_prio(0x1234_5678, 42);
    assert_eq!(s, 0x122A_5678);
    assert_eq!(stid_prio(s), 42);
}

#[test]
fn schedcfg_and_iassign_words() {
    assert_eq!(schedcfg_steering(0xFFFF_FFFF, 2), 0xFFFF_FFF2);
    assert_eq!(schedcfg_steering(0, 2), 0x102);
    assert_eq!(iassign_word(2, 5), 0x0002_0005);
    assert_eq!(iassign_word(2, 0), 0x0002_0000);
}

#[test]
fn device_base_and_page_number() {
    assert_eq!(cfg_base(0xABCD), 0xABCD_0000);
    assert_eq!(vpn_of(0xABCD_0000), 0xABC);
    assert_eq!(wrapping_add32(0xFFFF_0000, 0x1_0000), 0);
    assert_eq!(wrapping_add32(0x1234_0000, 0x1_0000), 0x1235_0000);
}

#[test]
fn l2vic_slices_and_vectors() {
    assert_eq!(l2vic_reg(L2VIC_INT_CLEAR, 5), 0x400);
    assert_eq!(l2vic_reg(L2VIC_INT_CLEAR, 33), 0x404);
    assert_eq!(l2vic_reg(L2VIC_INT_CLEAR, 100), 0x40C);
    assert_eq!(l2vic_bit(5), 0x20);
    assert_eq!(l2vic_bit(33), 0x2);
    assert_eq!(l2vic_bit(100), 0x10);
    assert_eq!(vid0(0x1234_5405), 0x5);
    assert_eq!(fast_l2vic_cmd(0, 10), 0xA);
    assert_eq!(fast_l2vic_cmd(1, 10), 0x0001_000A);
}
