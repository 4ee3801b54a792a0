//! TLB and MMU tests: write, read and probe, invalidation, ASID matching,
//! page-size field decoding, overlap detection with `ctlbw` and `tlboc`,
//! and what a load or store through overlapping entries does (a
//! multi-TLB-match NMI, with the lowest-index entry translating).

use vstd::prelude::*;
use crate::console::{dec, hexw, nl, text};
use crate::machine::{Barrier, Ev, ExcField, Hexagon, RunState, Runtime};
use crate::regs::CAUSE_MULTI_TLB_MATCH;
use crate::report::{Fatal, TestCase};
use crate::tlb::{
    hi_asid, hi_global, hi_vpn, make_tlb_hi, make_tlb_hi_vg, make_tlb_hi_vg_4m, make_tlb_lo, make_tlb_lo_4m, tlb_hi_value, tlb_hi_vg_value,
    tlb_lo_4m_value, tlb_lo_value, TLB_PERM_RU, TLB_PERM_XWR, TLB_PERM_XWRU,
};

verus! {

/// The TLB index most tests use, clear of the runtime's fixed entries.
pub const TEST_TLB_IDX: u32 = 60;

/// The 1MB page most tests map (VA 0x3000_0000, clear of the UART).
pub const TEST_VPN: u32 = 0x300;

/// `tlboc`/`ctlbw` result: no overlapping entry.
pub const NO_OVERLAP: u32 = 0x8000_0000;

/// `tlboc`/`ctlbw` result: more than one overlapping entry.
pub const MULTI_OVERLAP: u32 = 0xFFFF_FFFF;

/// A lo word with an empty page-size field (bits set only above 23:0).
pub const EMPTY_PPD_LO: u32 = 0xF700_0000;

/// A lo word whose size field encodes the largest page.
pub const WIDEST_PAGE_LO: u32 = 0x0000_1000;

/// Patterns placed at the two physical pages of the overlap tests.
pub const SENTINEL_A: u32 = 0xDEAD_BEEF;
pub const SENTINEL_B: u32 = 0xCAFE_BABE;

/// The physical pages and the virtual address of the overlap tests.
pub const PA_A: u32 = 0x5000_0000;
pub const PA_B: u32 = 0x6000_0000;
pub const VA_TEST: u32 = 0x7000_0000;
pub const VPN_TEST: u32 = 0x700;
pub const PPN_A: u32 = 0x500;
pub const PPN_B: u32 = 0x600;

/// The lower and higher of the two overlapping indices.
pub const LOW_IDX: u32 = 50;
pub const HIGH_IDX: u32 = 58;

/// A runtime-format hi word.
pub open spec fn hi_w(vpn: u32, asid: u32, global: bool) -> u32 {
    tlb_hi_value(vpn, asid, global) as u32
}

/// An architectural-format hi word (V and G bits).
pub open spec fn hv_w(vpn: u32, asid: u32, global: bool) -> u32 {
    tlb_hi_vg_value(vpn, asid, global) as u32
}

/// A 1MB lo word.
pub open spec fn lo_w(ppn: u32, perm: u32, cached: bool) -> u32 {
    tlb_lo_value(ppn, perm, cached) as u32
}

/// A 4MB lo word.
pub open spec fn lo4_w(ppn: u32, perm: u32, cached: bool) -> u32 {
    tlb_lo_4m_value(ppn, perm, cached) as u32
}

/// The lo word of round `i` of the all-encodings test: cacheable, PPN 0,
/// size bit `i`.
pub open spec fn pgsize_lo(i: u32) -> u32 {
    0x0700_0000u32 | (1u32 << i)
}

impl RunState {
    pub open spec fn tlbw(self, hi: u32, lo: u32, idx: u32) -> RunState {
        self.ev(Ev::TlbWrite(hi, lo, idx))
    }

    pub open spec fn isy(self) -> RunState {
        self.ev(Ev::Barrier(Barrier::Isync))
    }

    pub open spec fn sync(self) -> RunState {
        self.ev(Ev::Barrier(Barrier::Syncht))
    }

    pub open spec fn tlbr(self, idx: u32, rh: u32, rl: u32) -> RunState {
        self.ev(Ev::TlbRead(idx, rh, rl))
    }

    pub open spec fn tlbp(self, hi: u32, r: i32) -> RunState {
        self.ev(Ev::TlbProbe(hi, r))
    }

    pub open spec fn ctlb(self, hi: u32, lo: u32, idx: u32, r: u32) -> RunState {
        self.ev(Ev::Ctlbw(hi, lo, idx, r))
    }

    pub open spec fn tloc(self, hi: u32, lo: u32, r: u32) -> RunState {
        self.ev(Ev::Tlboc(hi, lo, r))
    }

    pub open spec fn inv(self, idx: u32) -> RunState {
        self.tlb_invalidated(idx)
    }

    /// Read entry `idx` back (as `rh`, `rl`) and check it holds `hi`, `lo`.
    pub open spec fn tlbr_checked(self, idx: u32, rh: u32, rl: u32, hi: u32, lo: u32) -> RunState {
        self.tlbr(idx, rh, rl).check32(rh, hi).check32(rl, lo)
    }

    /// Write an entry with an empty or unusual size field at the test
    /// index, read it back verbatim, probe it, and invalidate it.
    pub open spec fn pgsize_round(self, hi: u32, lo: u32, o: (u32, u32, i32)) -> RunState {
        self.tlbw(hi, lo, TEST_TLB_IDX).isy().tlbr_checked(TEST_TLB_IDX, o.0, o.1, hi, lo).tlbp(hi, o.2).check32(
            o.2 as u32,
            TEST_TLB_IDX,
        ).inv(TEST_TLB_IDX)
    }

    /// Rounds `0` to `obs.len() - 1` of the all-encodings test.
    pub open spec fn pgsize_rounds(self, obs: Seq<(u32, u32, i32)>) -> RunState
        decreases obs.len(),
    {
        if obs.len() == 0 {
            self
        } else {
            let i = (obs.len() - 1) as u32;
            self.pgsize_rounds(obs.drop_last()).pgsize_round(hi_w(0x800, 0, true), pgsize_lo(i), obs.last())
        }
    }

    /// Place the sentinels, reset the NMI record, and map `VA_TEST` twice:
    /// through `lo_low` at the low index and `lo_high` at the high one.
    pub open spec fn overlap_setup(self, a: u32, b: u32, lo_low: u32, lo_high: u32) -> RunState {
        self.ev(Ev::MmioWrite(PA_A, a)).ev(Ev::MmioWrite(PA_B, b)).sync().ev(Ev::ResetNmi).tlbw(
            hv_w(VPN_TEST, 0, true),
            lo_low,
            LOW_IDX,
        ).tlbw(hv_w(VPN_TEST, 0, true), lo_high, HIGH_IDX).isy()
    }

    /// Read the NMI count and cause, print them, and check the
    /// multi-TLB-match NMI was taken.
    pub open spec fn nmi_checked(self, count: u32, cause: u32) -> RunState {
        self.ev(Ev::ReadException(ExcField::NmiCount, count)).ev(Ev::ReadException(ExcField::NmiCause, cause)).out(
            text("  nmi_count="),
        ).out(dec(count as nat)).out(text(" nmi_cause=0x")).out(hexw(cause as nat, 2)).out(nl()).check32_ne(
            count,
            0,
        ).check32(cause, CAUSE_MULTI_TLB_MATCH)
    }

    /// Print the value loaded and the sentinel expected.
    pub open spec fn load_reported(self, val: u32, name: &str, sentinel: u32) -> RunState {
        self.out(text("  load=0x")).out(hexw(val as nat, 8)).out(text(" (expect ")).out(text(name)).out(text("=0x")).out(
            hexw(sentinel as nat, 8),
        ).out(text(")")).out(nl())
    }

    pub open spec fn tlb_write_read_run(self, rh: u32, rl: u32) -> RunState {
        self.tlbw(hi_w(TEST_VPN, 0, true), lo_w(TEST_VPN, TLB_PERM_XWRU, true), TEST_TLB_IDX).isy().tlbr_checked(TEST_TLB_IDX, rh, rl, hi_w(TEST_VPN, 0, true), lo_w(TEST_VPN, TLB_PERM_XWRU, true)).inv(TEST_TLB_IDX)
    }

    pub open spec fn tlb_probe_hit_run(self, r: i32) -> RunState {
        self.tlbw(hi_w(TEST_VPN, 0, true), lo_w(TEST_VPN, TLB_PERM_XWRU, true), TEST_TLB_IDX).isy().tlbp(hi_w(TEST_VPN, 0, true), r).check(r >= 0, "result >= 0").check32(
            r as u32,
            TEST_TLB_IDX,
        ).inv(TEST_TLB_IDX)
    }

    pub open spec fn tlb_probe_miss_run(self, r: i32) -> RunState {
        self.tlbp(hi_w(0x200, 0x7F, false), r).check(r < 0, "result < 0")
    }

    pub open spec fn tlb_invalidate_run(self, r1: i32, r2: i32) -> RunState {
        self.tlbw(hi_w(TEST_VPN, 0, true), lo_w(TEST_VPN, TLB_PERM_XWRU, true), TEST_TLB_IDX).isy().tlbp(hi_w(TEST_VPN, 0, true), r1).check(r1 >= 0, "result >= 0").inv(
            TEST_TLB_IDX,
        ).tlbp(hi_w(TEST_VPN, 0, true), r2).check(r2 < 0, "result2 < 0")
    }

    pub open spec fn tlb_global_entry_run(self, r: i32, rh: u32, rl: u32) -> RunState {
        self.tlbw(hi_w(0x180, 0, true), lo_w(0x180, TLB_PERM_XWRU, true), TEST_TLB_IDX).isy().tlbp(
            hi_w(0x180, 0, true),
            r,
        ).check(r >= 0, "result >= 0").check32(r as u32, TEST_TLB_IDX).tlbr(TEST_TLB_IDX, rh, rl).check(
            rh & 1 != 0,
            "read_hi & 1 != 0",
        ).inv(TEST_TLB_IDX)
    }

    pub open spec fn tlb_multiple_entries_run(self, ra: i32, rb: i32, rc: i32, ha: u32, la: u32, hb: u32, lb: u32) -> RunState {
        self.tlbw(hi_w(0x110, 0, true), lo_w(0x110, TLB_PERM_XWRU, true), 58).tlbw(
            hi_w(0x120, 0, true),
            lo_w(0x120, TLB_PERM_XWRU, true),
            59,
        ).tlbw(hi_w(0x130, 0, true), lo_w(0x130, TLB_PERM_XWRU, true), TEST_TLB_IDX).isy().tlbp(
            hi_w(0x110, 0, true),
            ra,
        ).tlbp(hi_w(0x120, 0, true), rb).tlbp(hi_w(0x130, 0, true), rc).check32(ra as u32, 58).check32(
            rb as u32,
            59,
        ).check32(rc as u32, TEST_TLB_IDX).tlbr_checked(58, ha, la, hi_w(0x110, 0, true), lo_w(0x110, TLB_PERM_XWRU, true)).tlbr_checked(
            59,
            hb,
            lb,
            hi_w(0x120, 0, true),
            lo_w(0x120, TLB_PERM_XWRU, true),
        ).inv(58).inv(59).inv(TEST_TLB_IDX)
    }

    pub open spec fn tlb_overwrite_run(self, rh1: u32, rl1: u32, rh2: u32, rl2: u32, ro: i32, rn: i32) -> RunState {
        self.tlbw(hi_w(0x140, 0, true), lo_w(0x140, TLB_PERM_XWRU, true), TEST_TLB_IDX).isy().tlbr_checked(
            TEST_TLB_IDX,
            rh1,
            rl1,
            hi_w(0x140, 0, true),
            lo_w(0x140, TLB_PERM_XWRU, true),
        ).tlbw(hi_w(0x150, 0, true), lo_w(0x150, TLB_PERM_XWR, true), TEST_TLB_IDX).isy().tlbr_checked(
            TEST_TLB_IDX,
            rh2,
            rl2,
            hi_w(0x150, 0, true),
            lo_w(0x150, TLB_PERM_XWR, true),
        ).tlbp(hi_w(0x140, 0, true), ro).check(
            ro < 0 || ro as u32 != TEST_TLB_IDX,
            "result_old < 0 || result_old as u32 != TEST_TLB_IDX",
        ).tlbp(hi_w(0x150, 0, true), rn).check32(rn as u32, TEST_TLB_IDX).inv(TEST_TLB_IDX)
    }

    pub open spec fn tlb_asid_match_run(self, r: i32) -> RunState {
        self.tlbw(hi_w(0x160, 5, false), lo_w(0x160, TLB_PERM_XWRU, true), TEST_TLB_IDX).isy().tlbp(
            hi_w(0x160, 5, false),
            r,
        ).check(r >= 0, "result >= 0").check32(r as u32, TEST_TLB_IDX).inv(TEST_TLB_IDX)
    }

    pub open spec fn tlb_permissions_run(self, rh: u32, rl: u32) -> RunState {
        self.tlbw(hi_w(0x170, 0, true), lo_w(0x170, TLB_PERM_RU, true), TEST_TLB_IDX).isy().tlbr(
            TEST_TLB_IDX,
            rh,
            rl,
        ).check32_ne(rl, lo_w(0x170, TLB_PERM_XWRU, true)).inv(TEST_TLB_IDX)
    }

    pub open spec fn tlb_pgsize_field_decode_run(self, o1: (u32, u32, i32), o2: (u32, u32, i32), o3: (u32, u32, i32)) -> RunState {
        self.pgsize_round(hi_w(0x1A0, 0, true), 0x0100_0000, o1).pgsize_round(hi_w(0x1A0, 0, true), 0x0100_0400, o2).pgsize_round(
            hi_w(0x1A0, 0, true),
            0x0080_0000,
            o3,
        )
    }

    pub open spec fn tlb_pgsize_all_encodings_run(self, obs: Seq<(u32, u32, i32)>) -> RunState {
        self.pgsize_rounds(obs)
    }

    pub open spec fn tlboc_no_overlap_run(self, r: u32) -> RunState {
        self.tloc(hv_w(0x400, 0, true), lo_w(0x400, TLB_PERM_XWRU, true), r).check32(r, NO_OVERLAP)
    }

    pub open spec fn ctlbw_no_overlap_writes_run(self, r: u32, rh: u32, rl: u32) -> RunState {
        self.ctlb(hv_w(0x410, 0, true), lo_w(0x410, TLB_PERM_XWRU, true), 55, r).isy().check32(r, NO_OVERLAP).tlbr_checked(
            55,
            rh,
            rl,
            hv_w(0x410, 0, true),
            lo_w(0x410, TLB_PERM_XWRU, true),
        ).inv(55)
    }

    pub open spec fn ctlbw_single_overlap_same_vpn_asid_run(self, r: u32, rh: u32, rl: u32) -> RunState {
        self.tlbw(hv_w(0x420, 3, false), lo_w(0x420, TLB_PERM_XWRU, true), 56).isy().ctlb(
            hv_w(0x420, 3, false),
            lo_w(0x500, TLB_PERM_XWRU, true),
            57,
            r,
        ).check32(r, 56).tlbr(57, rh, rl).check32_ne(rh, hv_w(0x420, 3, false)).inv(56).inv(57)
    }

    pub open spec fn tlboc_overlap_global_entry_run(self, r: u32) -> RunState {
        self.tlbw(hv_w(0x430, 0, true), lo_w(0x430, TLB_PERM_XWRU, true), 56).isy().tloc(
            hv_w(0x430, 5, false),
            lo_w(0x430, TLB_PERM_XWRU, true),
            r,
        ).check32(r, 56).inv(56)
    }

    pub open spec fn tlboc_no_overlap_different_asid_run(self, r: u32) -> RunState {
        self.tlbw(hv_w(0x440, 3, false), lo_w(0x440, TLB_PERM_XWRU, true), 56).isy().tloc(
            hv_w(0x440, 7, false),
            lo_w(0x440, TLB_PERM_XWRU, true),
            r,
        ).check32(r, NO_OVERLAP).inv(56)
    }

    pub open spec fn ctlbw_multi_overlap_run(self, r: u32) -> RunState {
        self.tlbw(hv_w(0x450, 0, true), lo_w(0x450, TLB_PERM_XWRU, true), 54).tlbw(
            hv_w(0x450, 0, true),
            lo_w(0x451, TLB_PERM_XWRU, true),
            55,
        ).isy().ctlb(hv_w(0x450, 0, true), lo_w(0x452, TLB_PERM_XWRU, true), 56, r).check32(r, MULTI_OVERLAP).inv(
            54,
        ).inv(55).inv(56)
    }

    pub open spec fn tlboc_multi_overlap_run(self, r: u32) -> RunState {
        self.tlbw(hv_w(0x460, 0, true), lo_w(0x460, TLB_PERM_XWRU, true), 54).tlbw(
            hv_w(0x460, 0, true),
            lo_w(0x461, TLB_PERM_XWRU, true),
            55,
        ).isy().tloc(hv_w(0x460, 0, true), lo_w(0x462, TLB_PERM_XWRU, true), r).check32(r, MULTI_OVERLAP).inv(54).inv(
            55,
        )
    }

    pub open spec fn tlboc_overlap_different_page_sizes_run(self, r: u32) -> RunState {
        self.tlbw(hv_w(0x480, 0, true), lo4_w(0x480, TLB_PERM_XWRU, true), 56).isy().tloc(
            hv_w(0x481, 0, true),
            lo_w(0x481, TLB_PERM_XWRU, true),
            r,
        ).check32(r, 56).inv(56)
    }

    pub open spec fn tlboc_no_overlap_different_page_sizes_run(self, r: u32) -> RunState {
        self.tlbw(hv_w(0x480, 0, true), lo4_w(0x480, TLB_PERM_XWRU, true), 56).isy().tloc(
            hv_w(0x490, 0, true),
            lo_w(0x490, TLB_PERM_XWRU, true),
            r,
        ).check32(r, NO_OVERLAP).inv(56)
    }

    pub open spec fn ctlbw_ignores_invalid_entries_run(self, r: u32, rh: u32, rl: u32) -> RunState {
        self.tlbw(hv_w(0x4A0, 0, true), lo_w(0x4A0, TLB_PERM_XWRU, true), 56).isy().inv(56).ctlb(
            hv_w(0x4A0, 0, true),
            lo_w(0x4A0, TLB_PERM_XWRU, true),
            57,
            r,
        ).isy().check32(r, NO_OVERLAP).tlbr_checked(57, rh, rl, hv_w(0x4A0, 0, true), lo_w(0x4A0, TLB_PERM_XWRU, true)).inv(
            57,
        )
    }

    pub open spec fn tlboc_incoming_global_no_bypass_run(self, r: u32) -> RunState {
        self.tlbw(hv_w(0x4B0, 3, false), lo_w(0x4B0, TLB_PERM_XWRU, true), 56).isy().tloc(
            hv_w(0x4B0, 7, true),
            lo_w(0x4B0, TLB_PERM_XWRU, true),
            r,
        ).check32(r, NO_OVERLAP).inv(56)
    }

    pub open spec fn tlboc_empty_ppd_is_not_giant_page_run(self, r: u32) -> RunState {
        self.tlbw(hv_w(0x4C0, 0, true), lo_w(0x4C0, TLB_PERM_XWRU, true), 56).isy().tloc(
            hv_w(0x4D0, 0, true),
            EMPTY_PPD_LO,
            r,
        ).check32(r, NO_OVERLAP).inv(56)
    }

    pub open spec fn ctlbw_ignores_invalid_nonzero_entries_run(self, rh: u32, rl: u32, r: u32, wh: u32, wl: u32) -> RunState {
        self.tlbw(0x0001_2345, WIDEST_PAGE_LO, 56).isy().tlbr_checked(56, rh, rl, 0x0001_2345, WIDEST_PAGE_LO).ctlb(
            hv_w(0x4E0, 0, true),
            lo_w(0x4E0, TLB_PERM_XWRU, true),
            57,
            r,
        ).isy().check32(r, NO_OVERLAP).tlbr_checked(57, wh, wl, hv_w(0x4E0, 0, true), lo_w(0x4E0, TLB_PERM_XWRU, true)).inv(
            56,
        ).inv(57)
    }

    pub open spec fn tlb_bit27_does_not_relocate_jtlb_entry_run(self, rh: u32, rl: u32, r: i32) -> RunState {
        self.tlbw(hv_w(0x4F0, 0, true), lo_w(0x4F0, TLB_PERM_XWRU, true) | 0x0800_0000, 58).isy().tlbr_checked(
            58,
            rh,
            rl,
            hv_w(0x4F0, 0, true),
            lo_w(0x4F0, TLB_PERM_XWRU, true) | 0x0800_0000,
        ).tlbp(hv_w(0x4F0, 0, true), r).check(r >= 0, "result >= 0").check32(r as u32, 58).inv(58)
    }

    pub open spec fn overlap_load_raises_nmi_run(self, val: u32, count: u32, cause: u32) -> RunState {
        self.overlap_setup(SENTINEL_A, SENTINEL_B, lo_w(PPN_A, TLB_PERM_XWRU, false), lo_w(PPN_B, TLB_PERM_XWRU, false)).ev(Ev::MmioRead(VA_TEST, val)).nmi_checked(
            count,
            cause,
        ).inv(LOW_IDX).inv(HIGH_IDX)
    }

    pub open spec fn overlap_store_raises_nmi_run(self, count: u32, cause: u32) -> RunState {
        self.overlap_setup(0, 0, lo_w(PPN_A, TLB_PERM_XWRU, false), lo_w(PPN_B, TLB_PERM_XWRU, false)).ev(Ev::MmioWrite(VA_TEST, 0x1234_5678)).sync().nmi_checked(count, cause).inv(
            LOW_IDX,
        ).inv(HIGH_IDX)
    }

    pub open spec fn overlap_lowest_idx_wins_run(self, val: u32, count: u32) -> RunState {
        self.overlap_setup(SENTINEL_A, SENTINEL_B, lo_w(PPN_A, TLB_PERM_XWRU, false), lo_w(PPN_B, TLB_PERM_XWRU, false)).ev(Ev::MmioRead(VA_TEST, val)).load_reported(
            val,
            "SENTINEL_A",
            SENTINEL_A,
        ).ev(Ev::ReadException(ExcField::NmiCount, count)).check32_ne(count, 0).check32(val, SENTINEL_A).inv(LOW_IDX).inv(
            HIGH_IDX,
        )
    }

    pub open spec fn overlap_lowest_idx_reversed_run(self, val: u32, count: u32) -> RunState {
        self.overlap_setup(SENTINEL_A, SENTINEL_B, lo_w(PPN_B, TLB_PERM_XWRU, false), lo_w(PPN_A, TLB_PERM_XWRU, false)).ev(Ev::MmioRead(VA_TEST, val)).load_reported(
            val,
            "SENTINEL_B",
            SENTINEL_B,
        ).ev(Ev::ReadException(ExcField::NmiCount, count)).check32_ne(count, 0).check32(val, SENTINEL_B).inv(LOW_IDX).inv(
            HIGH_IDX,
        )
    }
}

/// One round of the size-field tests: write `hi`/`lo` at the test index,
/// read it back verbatim, probe it, invalidate it; returns what was read
/// and the probe result.
fn pgsize_round<M: Hexagon>(rt: &mut Runtime<M>, hi: u32, lo: u32) -> (o: (u32, u32, i32))
    ensures
        final(rt)@ == old(rt)@.pgsize_round(hi, lo, o),
{
    rt.tlb_write(hi, lo, TEST_TLB_IDX);
    rt.isync();
    let (rh, rl) = rt.tlb_read(TEST_TLB_IDX);
    rt.check32(rh, hi);
    rt.check32(rl, lo);
    let result = rt.tlb_probe(hi);
    rt.check32(result as u32, TEST_TLB_IDX);
    rt.tlb_invalidate(TEST_TLB_IDX);
    (rh, rl, result)
}

/// Place the sentinels at the two physical pages, reset the NMI record,
/// and map `VA_TEST` to both pages: page A at the low index and page B at
/// the high one, or the other way round when `reversed`.
fn overlap_setup<M: Hexagon>(rt: &mut Runtime<M>, a: u32, b: u32, reversed: bool)
    ensures
        final(rt)@ == if reversed {
            old(rt)@.overlap_setup(a, b, lo_w(PPN_B, TLB_PERM_XWRU, false), lo_w(PPN_A, TLB_PERM_XWRU, false))
        } else {
            old(rt)@.overlap_setup(a, b, lo_w(PPN_A, TLB_PERM_XWRU, false), lo_w(PPN_B, TLB_PERM_XWRU, false))
        },
{
    rt.mmio_write(PA_A, a);
    rt.mmio_write(PA_B, b);
    rt.syncht();
    let hi = make_tlb_hi_vg(VPN_TEST, 0, true);
    let lo_a = make_tlb_lo(PPN_A, TLB_PERM_XWRU, false);
    let lo_b = make_tlb_lo(PPN_B, TLB_PERM_XWRU, false);
    rt.reset_nmi_state();
    if reversed {
        rt.tlb_write(hi, lo_b, LOW_IDX);
        rt.tlb_write(hi, lo_a, HIGH_IDX);
    } else {
        rt.tlb_write(hi, lo_a, LOW_IDX);
        rt.tlb_write(hi, lo_b, HIGH_IDX);
    }
    rt.isync();
}

/// Read the NMI count and cause, print them, and check the
/// multi-TLB-match NMI was taken; returns them.
fn nmi_report<M: Hexagon>(rt: &mut Runtime<M>) -> (r: (u32, u32))
    ensures
        final(rt)@ == old(rt)@.nmi_checked(r.0, r.1),
{
    let count = rt.get_nmi_count();
    let cause = rt.get_nmi_cause();
    rt.puts("  nmi_count=");
    rt.put_dec(count as u64);
    rt.puts(" nmi_cause=0x");
    rt.put_hexw(cause as u64, 2);
    rt.newline();
    rt.check32_ne(count, 0);
    rt.check32(cause, CAUSE_MULTI_TLB_MATCH);
    (count, cause)
}

/// Print the value loaded and the sentinel expected.
fn report_load<M: Hexagon>(rt: &mut Runtime<M>, val: u32, name: &str, sentinel: u32)
    ensures
        final(rt)@ == old(rt)@.load_reported(val, name, sentinel),
{
    rt.puts("  load=0x");
    rt.put_hexw(val as u64, 8);
    rt.puts(" (expect ");
    rt.puts(name);
    rt.puts("=0x");
    rt.put_hexw(sentinel as u64, 8);
    rt.puts(")");
    rt.newline();
}

/// An entry written at the test index reads back unchanged.
pub fn test_tlb_write_read<M: Hexagon>(rt: &mut Runtime<M>)
    ensures
        exists|rh: u32, rl: u32| #[trigger] old(rt)@.tlb_write_read_run(rh, rl) == final(rt)@,
{
    let hi = make_tlb_hi(TEST_VPN, 0, true);
    let lo = make_tlb_lo(TEST_VPN, TLB_PERM_XWRU, true);
    rt.tlb_write(hi, lo, TEST_TLB_IDX);
    rt.isync();
    let (rh, rl) = rt.tlb_read(TEST_TLB_IDX);
    rt.check32(rh, hi);
    rt.check32(rl, lo);
    rt.tlb_invalidate(TEST_TLB_IDX);
    assert(old(rt)@.tlb_write_read_run(rh, rl) == rt@);
}

/// Probing a written entry finds it at its index.
pub fn test_tlb_probe_hit<M: Hexagon>(rt: &mut Runtime<M>)
    ensures
        exists|r: i32| #[trigger] old(rt)@.tlb_probe_hit_run(r) == final(rt)@,
{
    let hi = make_tlb_hi(TEST_VPN, 0, true);
    let lo = make_tlb_lo(TEST_VPN, TLB_PERM_XWRU, true);
    rt.tlb_write(hi, lo, TEST_TLB_IDX);
    rt.isync();
    let result = rt.tlb_probe(hi);
    rt.check(result >= 0, "result >= 0");
    rt.check32(result as u32, TEST_TLB_IDX);
    rt.tlb_invalidate(TEST_TLB_IDX);
    assert(old(rt)@.tlb_probe_hit_run(result) == rt@);
}

/// Probing an unmapped page (ASID 0x7F, not global) misses.
pub fn test_tlb_probe_miss<M: Hexagon>(rt: &mut Runtime<M>)
    ensures
        exists|r: i32| #[trigger] old(rt)@.tlb_probe_miss_run(r) == final(rt)@,
{
    let probe_hi = make_tlb_hi(0x200, 0x7F, false);
    let result = rt.tlb_probe(probe_hi);
    rt.check(result < 0, "result < 0");
    assert(old(rt)@.tlb_probe_miss_run(result) == rt@);
}

/// An invalidated entry is no longer found.
pub fn test_tlb_invalidate<M: Hexagon>(rt: &mut Runtime<M>)
    ensures
        exists|r1: i32, r2: i32| #[trigger] old(rt)@.tlb_invalidate_run(r1, r2) == final(rt)@,
{
    let hi = make_tlb_hi(TEST_VPN, 0, true);
    let lo = make_tlb_lo(TEST_VPN, TLB_PERM_XWRU, true);
    rt.tlb_write(hi, lo, TEST_TLB_IDX);
    rt.isync();
    let result = rt.tlb_probe(hi);
    rt.check(result >= 0, "result >= 0");
    rt.tlb_invalidate(TEST_TLB_IDX);
    let result2 = rt.tlb_probe(hi);
    rt.check(result2 < 0, "result2 < 0");
    assert(old(rt)@.tlb_invalidate_run(result, result2) == rt@);
}

/// A global entry is found, and reads back with its global bit set.
pub fn test_tlb_global_entry<M: Hexagon>(rt: &mut Runtime<M>)
    ensures
        exists|r: i32, rh: u32, rl: u32| #[trigger] old(rt)@.tlb_global_entry_run(r, rh, rl) == final(rt)@,
{
    let hi = make_tlb_hi(0x180, 0, true);
    let lo = make_tlb_lo(0x180, TLB_PERM_XWRU, true);
    rt.tlb_write(hi, lo, TEST_TLB_IDX);
    rt.isync();
    let result = rt.tlb_probe(hi);
    rt.check(result >= 0, "result >= 0");
    rt.check32(result as u32, TEST_TLB_IDX);
    let (read_hi, read_lo) = rt.tlb_read(TEST_TLB_IDX);
    rt.check(read_hi & 1 != 0, "read_hi & 1 != 0");
    rt.tlb_invalidate(TEST_TLB_IDX);
    assert(old(rt)@.tlb_global_entry_run(result, read_hi, read_lo) == rt@);
}

/// Three entries at different indices are each found at their own index and read back.
pub fn test_tlb_multiple_entries<M: Hexagon>(rt: &mut Runtime<M>)
    ensures
        exists|ra: i32, rb: i32, rc: i32, ha: u32, la: u32, hb: u32, lb: u32| #[trigger] old(rt)@.tlb_multiple_entries_run(ra, rb, rc, ha, la, hb, lb) == final(rt)@,
{
    let hi_a = make_tlb_hi(0x110, 0, true);
    let lo_a = make_tlb_lo(0x110, TLB_PERM_XWRU, true);
    let hi_b = make_tlb_hi(0x120, 0, true);
    let lo_b = make_tlb_lo(0x120, TLB_PERM_XWRU, true);
    let hi_c = make_tlb_hi(0x130, 0, true);
    let lo_c = make_tlb_lo(0x130, TLB_PERM_XWRU, true);
    rt.tlb_write(hi_a, lo_a, 58);
    rt.tlb_write(hi_b, lo_b, 59);
    rt.tlb_write(hi_c, lo_c, TEST_TLB_IDX);
    rt.isync();
    let res_a = rt.tlb_probe(hi_a);
    let res_b = rt.tlb_probe(hi_b);
    let res_c = rt.tlb_probe(hi_c);
    rt.check32(res_a as u32, 58);
    rt.check32(res_b as u32, 59);
    rt.check32(res_c as u32, TEST_TLB_IDX);
    let (rh_a, rl_a) = rt.tlb_read(58);
    rt.check32(rh_a, hi_a);
    rt.check32(rl_a, lo_a);
    let (rh_b, rl_b) = rt.tlb_read(59);
    rt.check32(rh_b, hi_b);
    rt.check32(rl_b, lo_b);
    rt.tlb_invalidate(58);
    rt.tlb_invalidate(59);
    rt.tlb_invalidate(TEST_TLB_IDX);
    assert(old(rt)@.tlb_multiple_entries_run(res_a, res_b, res_c, rh_a, rl_a, rh_b, rl_b) == rt@);
}

/// Overwriting an index replaces its entry: the new one reads back and probes there, the old one no longer probes there.
pub fn test_tlb_overwrite<M: Hexagon>(rt: &mut Runtime<M>)
    ensures
        exists|rh1: u32, rl1: u32, rh2: u32, rl2: u32, ro: i32, rn: i32| #[trigger] old(rt)@.tlb_overwrite_run(rh1, rl1, rh2, rl2, ro, rn) == final(rt)@,
{
    let hi1 = make_tlb_hi(0x140, 0, true);
    let lo1 = make_tlb_lo(0x140, TLB_PERM_XWRU, true);
    rt.tlb_write(hi1, lo1, TEST_TLB_IDX);
    rt.isync();
    let (rh1, rl1) = rt.tlb_read(TEST_TLB_IDX);
    rt.check32(rh1, hi1);
    rt.check32(rl1, lo1);
    let hi2 = make_tlb_hi(0x150, 0, true);
    let lo2 = make_tlb_lo(0x150, TLB_PERM_XWR, true);
    rt.tlb_write(hi2, lo2, TEST_TLB_IDX);
    rt.isync();
    let (rh2, rl2) = rt.tlb_read(TEST_TLB_IDX);
    rt.check32(rh2, hi2);
    rt.check32(rl2, lo2);
    let result_old = rt.tlb_probe(hi1);
    rt.check(result_old < 0 || result_old as u32 != TEST_TLB_IDX, "result_old < 0 || result_old as u32 != TEST_TLB_IDX");
    let result_new = rt.tlb_probe(hi2);
    rt.check32(result_new as u32, TEST_TLB_IDX);
    rt.tlb_invalidate(TEST_TLB_IDX);
    assert(old(rt)@.tlb_overwrite_run(rh1, rl1, rh2, rl2, result_old, result_new) == rt@);
}

/// A non-global entry is found by a probe with its ASID.
pub fn test_tlb_asid_match<M: Hexagon>(rt: &mut Runtime<M>)
    ensures
        exists|r: i32| #[trigger] old(rt)@.tlb_asid_match_run(r) == final(rt)@,
{
    let asid: u32 = 5;
    let hi = make_tlb_hi(0x160, asid, false);
    let lo = make_tlb_lo(0x160, TLB_PERM_XWRU, true);
    rt.tlb_write(hi, lo, TEST_TLB_IDX);
    rt.isync();
    let probe_hi = make_tlb_hi(0x160, asid, false);
    let result = rt.tlb_probe(probe_hi);
    rt.check(result >= 0, "result >= 0");
    rt.check32(result as u32, TEST_TLB_IDX);
    rt.tlb_invalidate(TEST_TLB_IDX);
    assert(old(rt)@.tlb_asid_match_run(result) == rt@);
}

/// An entry with read-and-user permissions reads back different from the all-permission one.
pub fn test_tlb_permissions<M: Hexagon>(rt: &mut Runtime<M>)
    ensures
        exists|rh: u32, rl: u32| #[trigger] old(rt)@.tlb_permissions_run(rh, rl) == final(rt)@,
{
    let hi = make_tlb_hi(0x170, 0, true);
    let lo_ru = make_tlb_lo(0x170, TLB_PERM_RU, true);
    rt.tlb_write(hi, lo_ru, TEST_TLB_IDX);
    rt.isync();
    let (rh, rl) = rt.tlb_read(TEST_TLB_IDX);
    let lo_xwru = make_tlb_lo(0x170, TLB_PERM_XWRU, true);
    rt.check32_ne(rl, lo_xwru);
    rt.tlb_invalidate(TEST_TLB_IDX);
    assert(old(rt)@.tlb_permissions_run(rh, rl) == rt@);
}

/// Entries whose size field is empty (with the cache field, bit 10, or the top PPN bit set) read back verbatim and probe at their index.
pub fn test_tlb_pgsize_field_decode<M: Hexagon>(rt: &mut Runtime<M>)
    ensures
        exists|o1: (u32, u32, i32), o2: (u32, u32, i32), o3: (u32, u32, i32)| #[trigger] old(rt)@.tlb_pgsize_field_decode_run(o1, o2, o3) == final(rt)@,
{
    let hi = make_tlb_hi(0x1A0, 0, true);
    let o1 = pgsize_round(rt, hi, 0x0100_0000);
    let o2 = pgsize_round(rt, hi, 0x0100_0400);
    let o3 = pgsize_round(rt, hi, 0x0080_0000);
    assert(old(rt)@.tlb_pgsize_field_decode_run(o1, o2, o3) == rt@);
}

/// Every size encoding from 4KB to 1GB reads back and probes at its index.
pub fn test_tlb_pgsize_all_encodings<M: Hexagon>(rt: &mut Runtime<M>)
    ensures
        exists|obs: Seq<(u32, u32, i32)>| #[trigger] old(rt)@.tlb_pgsize_all_encodings_run(obs) == final(rt)@,
{
    let ghost s0 = rt@;
    let ghost mut obs: Seq<(u32, u32, i32)> = Seq::empty();
    for i in 0..10u32
        invariant
            obs.len() == i,
            rt@ == s0.pgsize_rounds(obs),
    {
        let size_bits: u32 = 1 << i;
        let lo: u32 = (0x7 << 24) | size_bits;
        assert(lo == pgsize_lo(i)) by (bit_vector)
            requires
                lo == (0x7u32 << 24u32) | size_bits,
                size_bits == 1u32 << i,
        ;
        let hi = make_tlb_hi(0x800, 0, true);
        let o = pgsize_round(rt, hi, lo);
        proof {
            let obs2 = obs.push(o);
            assert(obs2.drop_last() =~= obs);
            obs = obs2;
        }
    }
    assert(obs.len() == 10);
    assert(old(rt)@.tlb_pgsize_all_encodings_run(obs) == rt@);
}

/// `tlboc` for an unmapped page finds no overlap.
pub fn test_tlboc_no_overlap<M: Hexagon>(rt: &mut Runtime<M>)
    ensures
        exists|r: u32| #[trigger] old(rt)@.tlboc_no_overlap_run(r) == final(rt)@,
{
    let hi = make_tlb_hi_vg(0x400, 0, true);
    let lo = make_tlb_lo(0x400, TLB_PERM_XWRU, true);
    let result = rt.tlboc(hi, lo);
    rt.check32(result, 0x8000_0000);
    assert(old(rt)@.tlboc_no_overlap_run(result) == rt@);
}

/// `ctlbw` with no overlap reports none and writes the entry.
pub fn test_ctlbw_no_overlap_writes<M: Hexagon>(rt: &mut Runtime<M>)
    ensures
        exists|r: u32, rh: u32, rl: u32| #[trigger] old(rt)@.ctlbw_no_overlap_writes_run(r, rh, rl) == final(rt)@,
{
    let hi = make_tlb_hi_vg(0x410, 0, true);
    let lo = make_tlb_lo(0x410, TLB_PERM_XWRU, true);
    let result = rt.ctlbw(hi, lo, 55);
    rt.isync();
    rt.check32(result, 0x8000_0000);
    let (read_hi, read_lo) = rt.tlb_read(55);
    rt.check32(read_hi, hi);
    rt.check32(read_lo, lo);
    rt.tlb_invalidate(55);
    assert(old(rt)@.ctlbw_no_overlap_writes_run(result, read_hi, read_lo) == rt@);
}

/// `ctlbw` for the VPN and ASID of an existing entry reports that entry's index and writes nothing.
pub fn test_ctlbw_single_overlap_same_vpn_asid<M: Hexagon>(rt: &mut Runtime<M>)
    ensures
        exists|r: u32, rh: u32, rl: u32| #[trigger] old(rt)@.ctlbw_single_overlap_same_vpn_asid_run(r, rh, rl) == final(rt)@,
{
    let hi = make_tlb_hi_vg(0x420, 3, false);
    let lo = make_tlb_lo(0x420, TLB_PERM_XWRU, true);
    rt.tlb_write(hi, lo, 56);
    rt.isync();
    let new_hi = make_tlb_hi_vg(0x420, 3, false);
    let new_lo = make_tlb_lo(0x500, TLB_PERM_XWRU, true);
    let result = rt.ctlbw(new_hi, new_lo, 57);
    rt.check32(result, 56);
    let (read_hi, read_lo) = rt.tlb_read(57);
    rt.check32_ne(read_hi, new_hi);
    rt.tlb_invalidate(56);
    rt.tlb_invalidate(57);
    assert(old(rt)@.ctlbw_single_overlap_same_vpn_asid_run(result, read_hi, read_lo) == rt@);
}

/// A global entry overlaps an entry for the same page with any ASID.
pub fn test_tlboc_overlap_global_entry<M: Hexagon>(rt: &mut Runtime<M>)
    ensures
        exists|r: u32| #[trigger] old(rt)@.tlboc_overlap_global_entry_run(r) == final(rt)@,
{
    let hi = make_tlb_hi_vg(0x430, 0, true);
    let lo = make_tlb_lo(0x430, TLB_PERM_XWRU, true);
    rt.tlb_write(hi, lo, 56);
    rt.isync();
    let check_hi = make_tlb_hi_vg(0x430, 5, false);
    let check_lo = make_tlb_lo(0x430, TLB_PERM_XWRU, true);
    let result = rt.tlboc(check_hi, check_lo);
    rt.check32(result, 56);
    rt.tlb_invalidate(56);
    assert(old(rt)@.tlboc_overlap_global_entry_run(result) == rt@);
}

/// Non-global entries for the same page with different ASIDs do not overlap.
pub fn test_tlboc_no_overlap_different_asid<M: Hexagon>(rt: &mut Runtime<M>)
    ensures
        exists|r: u32| #[trigger] old(rt)@.tlboc_no_overlap_different_asid_run(r) == final(rt)@,
{
    let hi = make_tlb_hi_vg(0x440, 3, false);
    let lo = make_tlb_lo(0x440, TLB_PERM_XWRU, true);
    rt.tlb_write(hi, lo, 56);
    rt.isync();
    let check_hi = make_tlb_hi_vg(0x440, 7, false);
    let check_lo = make_tlb_lo(0x440, TLB_PERM_XWRU, true);
    let result = rt.tlboc(check_hi, check_lo);
    rt.check32(result, 0x8000_0000);
    rt.tlb_invalidate(56);
    assert(old(rt)@.tlboc_no_overlap_different_asid_run(result) == rt@);
}

/// `ctlbw` against two overlapping entries reports several.
pub fn test_ctlbw_multi_overlap<M: Hexagon>(rt: &mut Runtime<M>)
    ensures
        exists|r: u32| #[trigger] old(rt)@.ctlbw_multi_overlap_run(r) == final(rt)@,
{
    let hi_a = make_tlb_hi_vg(0x450, 0, true);
    let lo_a = make_tlb_lo(0x450, TLB_PERM_XWRU, true);
    let hi_b = make_tlb_hi_vg(0x450, 0, true);
    let lo_b = make_tlb_lo(0x451, TLB_PERM_XWRU, true);
    rt.tlb_write(hi_a, lo_a, 54);
    rt.tlb_write(hi_b, lo_b, 55);
    rt.isync();
    let new_hi = make_tlb_hi_vg(0x450, 0, true);
    let new_lo = make_tlb_lo(0x452, TLB_PERM_XWRU, true);
    let result = rt.ctlbw(new_hi, new_lo, 56);
    rt.check32(result, 0xFFFF_FFFF);
    rt.tlb_invalidate(54);
    rt.tlb_invalidate(55);
    rt.tlb_invalidate(56);
    assert(old(rt)@.ctlbw_multi_overlap_run(result) == rt@);
}

/// `tlboc` against two overlapping entries reports several.
pub fn test_tlboc_multi_overlap<M: Hexagon>(rt: &mut Runtime<M>)
    ensures
        exists|r: u32| #[trigger] old(rt)@.tlboc_multi_overlap_run(r) == final(rt)@,
{
    let hi_a = make_tlb_hi_vg(0x460, 0, true);
    let lo_a = make_tlb_lo(0x460, TLB_PERM_XWRU, true);
    let hi_b = make_tlb_hi_vg(0x460, 0, true);
    let lo_b = make_tlb_lo(0x461, TLB_PERM_XWRU, true);
    rt.tlb_write(hi_a, lo_a, 54);
    rt.tlb_write(hi_b, lo_b, 55);
    rt.isync();
    let check_hi = make_tlb_hi_vg(0x460, 0, true);
    let check_lo = make_tlb_lo(0x462, TLB_PERM_XWRU, true);
    let result = rt.tlboc(check_hi, check_lo);
    rt.check32(result, 0xFFFF_FFFF);
    rt.tlb_invalidate(54);
    rt.tlb_invalidate(55);
    assert(old(rt)@.tlboc_multi_overlap_run(result) == rt@);
}

/// A 4MB page overlaps a 1MB page inside it.
pub fn test_tlboc_overlap_different_page_sizes<M: Hexagon>(rt: &mut Runtime<M>)
    ensures
        exists|r: u32| #[trigger] old(rt)@.tlboc_overlap_different_page_sizes_run(r) == final(rt)@,
{
    let hi_4m = make_tlb_hi_vg_4m(0x480, 0, true);
    let lo_4m = make_tlb_lo_4m(0x480, TLB_PERM_XWRU, true);
    rt.tlb_write(hi_4m, lo_4m, 56);
    rt.isync();
    let check_hi = make_tlb_hi_vg(0x481, 0, true);
    let check_lo = make_tlb_lo(0x481, TLB_PERM_XWRU, true);
    let result = rt.tlboc(check_hi, check_lo);
    rt.check32(result, 56);
    rt.tlb_invalidate(56);
    assert(old(rt)@.tlboc_overlap_different_page_sizes_run(result) == rt@);
}

/// A 4MB page does not overlap a 1MB page outside it.
pub fn test_tlboc_no_overlap_different_page_sizes<M: Hexagon>(rt: &mut Runtime<M>)
    ensures
        exists|r: u32| #[trigger] old(rt)@.tlboc_no_overlap_different_page_sizes_run(r) == final(rt)@,
{
    let hi_4m = make_tlb_hi_vg_4m(0x480, 0, true);
    let lo_4m = make_tlb_lo_4m(0x480, TLB_PERM_XWRU, true);
    rt.tlb_write(hi_4m, lo_4m, 56);
    rt.isync();
    let check_hi = make_tlb_hi_vg(0x490, 0, true);
    let check_lo = make_tlb_lo(0x490, TLB_PERM_XWRU, true);
    let result = rt.tlboc(check_hi, check_lo);
    rt.check32(result, 0x8000_0000);
    rt.tlb_invalidate(56);
    assert(old(rt)@.tlboc_no_overlap_different_page_sizes_run(result) == rt@);
}

/// An invalidated entry does not count as an overlap for `ctlbw`.
pub fn test_ctlbw_ignores_invalid_entries<M: Hexagon>(rt: &mut Runtime<M>)
    ensures
        exists|r: u32, rh: u32, rl: u32| #[trigger] old(rt)@.ctlbw_ignores_invalid_entries_run(r, rh, rl) == final(rt)@,
{
    let hi = make_tlb_hi_vg(0x4A0, 0, true);
    let lo = make_tlb_lo(0x4A0, TLB_PERM_XWRU, true);
    rt.tlb_write(hi, lo, 56);
    rt.isync();
    rt.tlb_invalidate(56);
    let new_hi = make_tlb_hi_vg(0x4A0, 0, true);
    let new_lo = make_tlb_lo(0x4A0, TLB_PERM_XWRU, true);
    let result = rt.ctlbw(new_hi, new_lo, 57);
    rt.isync();
    rt.check32(result, 0x8000_0000);
    let (read_hi, read_lo) = rt.tlb_read(57);
    rt.check32(read_hi, new_hi);
    rt.check32(read_lo, new_lo);
    rt.tlb_invalidate(57);
    assert(old(rt)@.ctlbw_ignores_invalid_entries_run(result, read_hi, read_lo) == rt@);
}

/// The incoming entry's global bit does not widen the match: no overlap with a non-global entry of another ASID.
pub fn test_tlboc_incoming_global_no_bypass<M: Hexagon>(rt: &mut Runtime<M>)
    ensures
        exists|r: u32| #[trigger] old(rt)@.tlboc_incoming_global_no_bypass_run(r) == final(rt)@,
{
    let hi = make_tlb_hi_vg(0x4B0, 3, false);
    let lo = make_tlb_lo(0x4B0, TLB_PERM_XWRU, true);
    rt.tlb_write(hi, lo, 56);
    rt.isync();
    let check_hi = make_tlb_hi_vg(0x4B0, 7, true);
    let check_lo = make_tlb_lo(0x4B0, TLB_PERM_XWRU, true);
    let result = rt.tlboc(check_hi, check_lo);
    rt.check32(result, 0x8000_0000);
    rt.tlb_invalidate(56);
    assert(old(rt)@.tlboc_incoming_global_no_bypass_run(result) == rt@);
}

/// A probe entry with an empty size field is one small page, not a page overlapping an unrelated mapping.
pub fn test_tlboc_empty_ppd_is_not_giant_page<M: Hexagon>(rt: &mut Runtime<M>)
    ensures
        exists|r: u32| #[trigger] old(rt)@.tlboc_empty_ppd_is_not_giant_page_run(r) == final(rt)@,
{
    let other_hi = make_tlb_hi_vg(0x4C0, 0, true);
    let other_lo = make_tlb_lo(0x4C0, TLB_PERM_XWRU, true);
    rt.tlb_write(other_hi, other_lo, 56);
    rt.isync();
    let check_hi = make_tlb_hi_vg(0x4D0, 0, true);
    let result = rt.tlboc(check_hi, EMPTY_PPD_LO);
    rt.check32(result, 0x8000_0000);
    rt.tlb_invalidate(56);
    assert(old(rt)@.tlboc_empty_ppd_is_not_giant_page_run(result) == rt@);
}

/// An invalid slot holding a non-zero value (one that would span everything) is ignored by `ctlbw`.
pub fn test_ctlbw_ignores_invalid_nonzero_entries<M: Hexagon>(rt: &mut Runtime<M>)
    ensures
        exists|rh: u32, rl: u32, r: u32, wh: u32, wl: u32| #[trigger] old(rt)@.ctlbw_ignores_invalid_nonzero_entries_run(rh, rl, r, wh, wl) == final(rt)@,
{
    let garbage_hi: u32 = 0x0001_2345;
    rt.tlb_write(garbage_hi, WIDEST_PAGE_LO, 56);
    rt.isync();
    let (read_hi, read_lo) = rt.tlb_read(56);
    rt.check32(read_hi, garbage_hi);
    rt.check32(read_lo, WIDEST_PAGE_LO);
    let new_hi = make_tlb_hi_vg(0x4E0, 0, true);
    let new_lo = make_tlb_lo(0x4E0, TLB_PERM_XWRU, true);
    let result = rt.ctlbw(new_hi, new_lo, 57);
    rt.isync();
    rt.check32(result, 0x8000_0000);
    let (written_hi, written_lo) = rt.tlb_read(57);
    rt.check32(written_hi, new_hi);
    rt.check32(written_lo, new_lo);
    rt.tlb_invalidate(56);
    rt.tlb_invalidate(57);
    assert(old(rt)@.ctlbw_ignores_invalid_nonzero_entries_run(read_hi, read_lo, result, written_hi, written_lo) == rt@);
}

/// Bit 27 of a lo word (a cache attribute bit) leaves the entry at its VPN: it reads back and probes.
pub fn test_tlb_bit27_does_not_relocate_jtlb_entry<M: Hexagon>(rt: &mut Runtime<M>)
    ensures
        exists|rh: u32, rl: u32, r: i32| #[trigger] old(rt)@.tlb_bit27_does_not_relocate_jtlb_entry_run(rh, rl, r) == final(rt)@,
{
    let hi = make_tlb_hi_vg(0x4F0, 0, true);
    let lo = make_tlb_lo(0x4F0, TLB_PERM_XWRU, true) | (1 << 27);
    assert(1u32 << 27u32 == 0x0800_0000) by (bit_vector);
    rt.tlb_write(hi, lo, 58);
    rt.isync();
    let (read_hi, read_lo) = rt.tlb_read(58);
    rt.check32(read_hi, hi);
    rt.check32(read_lo, lo);
    let result = rt.tlb_probe(hi);
    rt.check(result >= 0, "result >= 0");
    rt.check32(result as u32, 58);
    rt.tlb_invalidate(58);
    assert(old(rt)@.tlb_bit27_does_not_relocate_jtlb_entry_run(read_hi, read_lo, result) == rt@);
}

/// A load through two entries for one page raises the multi-TLB-match NMI.
pub fn test_overlap_load_raises_nmi<M: Hexagon>(rt: &mut Runtime<M>)
    ensures
        exists|val: u32, count: u32, cause: u32| #[trigger] old(rt)@.overlap_load_raises_nmi_run(val, count, cause) == final(rt)@,
{
    overlap_setup(rt, SENTINEL_A, SENTINEL_B, false);
    let val = rt.mmio_read(VA_TEST);
    let (count, cause) = nmi_report(rt);
    rt.tlb_invalidate(LOW_IDX);
    rt.tlb_invalidate(HIGH_IDX);
    assert(old(rt)@.overlap_load_raises_nmi_run(val, count, cause) == rt@);
}

/// A store through two entries for one page raises the multi-TLB-match NMI.
pub fn test_overlap_store_raises_nmi<M: Hexagon>(rt: &mut Runtime<M>)
    ensures
        exists|count: u32, cause: u32| #[trigger] old(rt)@.overlap_store_raises_nmi_run(count, cause) == final(rt)@,
{
    overlap_setup(rt, 0, 0, false);
    rt.mmio_write(VA_TEST, 0x1234_5678);
    rt.syncht();
    let (count, cause) = nmi_report(rt);
    rt.tlb_invalidate(LOW_IDX);
    rt.tlb_invalidate(HIGH_IDX);
    assert(old(rt)@.overlap_store_raises_nmi_run(count, cause) == rt@);
}

/// With two entries for one page, the NMI is taken and the lower index translates the load.
pub fn test_overlap_resolution_lowest_index_wins<M: Hexagon>(rt: &mut Runtime<M>)
    ensures
        exists|val: u32, count: u32| #[trigger] old(rt)@.overlap_lowest_idx_wins_run(val, count) == final(rt)@,
{
    overlap_setup(rt, SENTINEL_A, SENTINEL_B, false);
    let val = rt.mmio_read(VA_TEST);
    report_load(rt, val, "SENTINEL_A", SENTINEL_A);
    let count = rt.get_nmi_count();
    rt.check32_ne(count, 0);
    rt.check32(val, SENTINEL_A);
    rt.tlb_invalidate(LOW_IDX);
    rt.tlb_invalidate(HIGH_IDX);
    assert(old(rt)@.overlap_lowest_idx_wins_run(val, count) == rt@);
}

/// With the mappings swapped, the lower index still translates the load: the choice goes by index, not by order of writing.
pub fn test_overlap_resolution_lowest_index_reversed<M: Hexagon>(rt: &mut Runtime<M>)
    ensures
        exists|val: u32, count: u32| #[trigger] old(rt)@.overlap_lowest_idx_reversed_run(val, count) == final(rt)@,
{
    overlap_setup(rt, SENTINEL_A, SENTINEL_B, true);
    let val = rt.mmio_read(VA_TEST);
    report_load(rt, val, "SENTINEL_B", SENTINEL_B);
    let count = rt.get_nmi_count();
    rt.check32_ne(count, 0);
    rt.check32(val, SENTINEL_B);
    rt.tlb_invalidate(LOW_IDX);
    rt.tlb_invalidate(HIGH_IDX);
    assert(old(rt)@.overlap_lowest_idx_reversed_run(val, count) == rt@);
}

/// The tests of this suite.
#[derive(Clone, Copy)]
pub enum TlbMmuTest {
    TlbWriteRead,
    TlbProbeHit,
    TlbProbeMiss,
    TlbInvalidate,
    TlbGlobalEntry,
    TlbMultipleEntries,
    TlbOverwrite,
    TlbAsidMatch,
    TlbPermissions,
    TlbPgsizeFieldDecode,
    TlbPgsizeAllEncodings,
    TlbocNoOverlap,
    CtlbwNoOverlapWrites,
    CtlbwSingleOverlapSameVpnAsid,
    TlbocOverlapGlobalEntry,
    TlbocNoOverlapDifferentAsid,
    CtlbwMultiOverlap,
    TlbocMultiOverlap,
    TlbocOverlapDifferentPageSizes,
    TlbocNoOverlapDifferentPageSizes,
    CtlbwIgnoresInvalidEntries,
    TlbocIncomingGlobalNoBypass,
    TlbocEmptyPpdIsNotGiantPage,
    CtlbwIgnoresInvalidNonzeroEntries,
    TlbBit27DoesNotRelocateJtlbEntry,
    OverlapLoadRaisesNmi,
    OverlapStoreRaisesNmi,
    OverlapLowestIdxWins,
    OverlapLowestIdxReversed,
}

impl TestCase for TlbMmuTest {
    open spec fn runs(&self, pre: RunState, post: RunState) -> bool {
        match *self {
            TlbMmuTest::TlbWriteRead => exists|rh: u32, rl: u32| #[trigger] pre.tlb_write_read_run(rh, rl) == post,
            TlbMmuTest::TlbProbeHit => exists|r: i32| #[trigger] pre.tlb_probe_hit_run(r) == post,
            TlbMmuTest::TlbProbeMiss => exists|r: i32| #[trigger] pre.tlb_probe_miss_run(r) == post,
            TlbMmuTest::TlbInvalidate => exists|r1: i32, r2: i32| #[trigger] pre.tlb_invalidate_run(r1, r2) == post,
            TlbMmuTest::TlbGlobalEntry => exists|r: i32, rh: u32, rl: u32| #[trigger] pre.tlb_global_entry_run(r, rh, rl) == post,
            TlbMmuTest::TlbMultipleEntries => exists|ra: i32, rb: i32, rc: i32, ha: u32, la: u32, hb: u32, lb: u32| #[trigger] pre.tlb_multiple_entries_run(ra, rb, rc, ha, la, hb, lb) == post,
            TlbMmuTest::TlbOverwrite => exists|rh1: u32, rl1: u32, rh2: u32, rl2: u32, ro: i32, rn: i32| #[trigger] pre.tlb_overwrite_run(rh1, rl1, rh2, rl2, ro, rn) == post,
            TlbMmuTest::TlbAsidMatch => exists|r: i32| #[trigger] pre.tlb_asid_match_run(r) == post,
            TlbMmuTest::TlbPermissions => exists|rh: u32, rl: u32| #[trigger] pre.tlb_permissions_run(rh, rl) == post,
            TlbMmuTest::TlbPgsizeFieldDecode => exists|o1: (u32, u32, i32), o2: (u32, u32, i32), o3: (u32, u32, i32)| #[trigger] pre.tlb_pgsize_field_decode_run(o1, o2, o3) == post,
            TlbMmuTest::TlbPgsizeAllEncodings => exists|obs: Seq<(u32, u32, i32)>| #[trigger] pre.tlb_pgsize_all_encodings_run(obs) == post,
            TlbMmuTest::TlbocNoOverlap => exists|r: u32| #[trigger] pre.tlboc_no_overlap_run(r) == post,
            TlbMmuTest::CtlbwNoOverlapWrites => exists|r: u32, rh: u32, rl: u32| #[trigger] pre.ctlbw_no_overlap_writes_run(r, rh, rl) == post,
            TlbMmuTest::CtlbwSingleOverlapSameVpnAsid => exists|r: u32, rh: u32, rl: u32| #[trigger] pre.ctlbw_single_overlap_same_vpn_asid_run(r, rh, rl) == post,
            TlbMmuTest::TlbocOverlapGlobalEntry => exists|r: u32| #[trigger] pre.tlboc_overlap_global_entry_run(r) == post,
            TlbMmuTest::TlbocNoOverlapDifferentAsid => exists|r: u32| #[trigger] pre.tlboc_no_overlap_different_asid_run(r) == post,
            TlbMmuTest::CtlbwMultiOverlap => exists|r: u32| #[trigger] pre.ctlbw_multi_overlap_run(r) == post,
            TlbMmuTest::TlbocMultiOverlap => exists|r: u32| #[trigger] pre.tlboc_multi_overlap_run(r) == post,
            TlbMmuTest::TlbocOverlapDifferentPageSizes => exists|r: u32| #[trigger] pre.tlboc_overlap_different_page_sizes_run(r) == post,
            TlbMmuTest::TlbocNoOverlapDifferentPageSizes => exists|r: u32| #[trigger] pre.tlboc_no_overlap_different_page_sizes_run(r) == post,
            TlbMmuTest::CtlbwIgnoresInvalidEntries => exists|r: u32, rh: u32, rl: u32| #[trigger] pre.ctlbw_ignores_invalid_entries_run(r, rh, rl) == post,
            TlbMmuTest::TlbocIncomingGlobalNoBypass => exists|r: u32| #[trigger] pre.tlboc_incoming_global_no_bypass_run(r) == post,
            TlbMmuTest::TlbocEmptyPpdIsNotGiantPage => exists|r: u32| #[trigger] pre.tlboc_empty_ppd_is_not_giant_page_run(r) == post,
            TlbMmuTest::CtlbwIgnoresInvalidNonzeroEntries => exists|rh: u32, rl: u32, r: u32, wh: u32, wl: u32| #[trigger] pre.ctlbw_ignores_invalid_nonzero_entries_run(rh, rl, r, wh, wl) == post,
            TlbMmuTest::TlbBit27DoesNotRelocateJtlbEntry => exists|rh: u32, rl: u32, r: i32| #[trigger] pre.tlb_bit27_does_not_relocate_jtlb_entry_run(rh, rl, r) == post,
            TlbMmuTest::OverlapLoadRaisesNmi => exists|val: u32, count: u32, cause: u32| #[trigger] pre.overlap_load_raises_nmi_run(val, count, cause) == post,
            TlbMmuTest::OverlapStoreRaisesNmi => exists|count: u32, cause: u32| #[trigger] pre.overlap_store_raises_nmi_run(count, cause) == post,
            TlbMmuTest::OverlapLowestIdxWins => exists|val: u32, count: u32| #[trigger] pre.overlap_lowest_idx_wins_run(val, count) == post,
            TlbMmuTest::OverlapLowestIdxReversed => exists|val: u32, count: u32| #[trigger] pre.overlap_lowest_idx_reversed_run(val, count) == post,
        }
    }

    open spec fn aborts(&self, pre: RunState, post: RunState, f: Fatal) -> bool {
        false
    }

    open spec fn at(&self) -> &'static str {
        match *self {
            TlbMmuTest::TlbWriteRead => "src/suites/tlb_mmu.rs:test_tlb_write_read",
            TlbMmuTest::TlbProbeHit => "src/suites/tlb_mmu.rs:test_tlb_probe_hit",
            TlbMmuTest::TlbProbeMiss => "src/suites/tlb_mmu.rs:test_tlb_probe_miss",
            TlbMmuTest::TlbInvalidate => "src/suites/tlb_mmu.rs:test_tlb_invalidate",
            TlbMmuTest::TlbGlobalEntry => "src/suites/tlb_mmu.rs:test_tlb_global_entry",
            TlbMmuTest::TlbMultipleEntries => "src/suites/tlb_mmu.rs:test_tlb_multiple_entries",
            TlbMmuTest::TlbOverwrite => "src/suites/tlb_mmu.rs:test_tlb_overwrite",
            TlbMmuTest::TlbAsidMatch => "src/suites/tlb_mmu.rs:test_tlb_asid_match",
            TlbMmuTest::TlbPermissions => "src/suites/tlb_mmu.rs:test_tlb_permissions",
            TlbMmuTest::TlbPgsizeFieldDecode => "src/suites/tlb_mmu.rs:test_tlb_pgsize_field_decode",
            TlbMmuTest::TlbPgsizeAllEncodings => "src/suites/tlb_mmu.rs:test_tlb_pgsize_all_encodings",
            TlbMmuTest::TlbocNoOverlap => "src/suites/tlb_mmu.rs:test_tlboc_no_overlap",
            TlbMmuTest::CtlbwNoOverlapWrites => "src/suites/tlb_mmu.rs:test_ctlbw_no_overlap_writes",
            TlbMmuTest::CtlbwSingleOverlapSameVpnAsid => "src/suites/tlb_mmu.rs:test_ctlbw_single_overlap_same_vpn_asid",
            TlbMmuTest::TlbocOverlapGlobalEntry => "src/suites/tlb_mmu.rs:test_tlboc_overlap_global_entry",
            TlbMmuTest::TlbocNoOverlapDifferentAsid => "src/suites/tlb_mmu.rs:test_tlboc_no_overlap_different_asid",
            TlbMmuTest::CtlbwMultiOverlap => "src/suites/tlb_mmu.rs:test_ctlbw_multi_overlap",
            TlbMmuTest::TlbocMultiOverlap => "src/suites/tlb_mmu.rs:test_tlboc_multi_overlap",
            TlbMmuTest::TlbocOverlapDifferentPageSizes => "src/suites/tlb_mmu.rs:test_tlboc_overlap_different_page_sizes",
            TlbMmuTest::TlbocNoOverlapDifferentPageSizes => "src/suites/tlb_mmu.rs:test_tlboc_no_overlap_different_page_sizes",
            TlbMmuTest::CtlbwIgnoresInvalidEntries => "src/suites/tlb_mmu.rs:test_ctlbw_ignores_invalid_entries",
            TlbMmuTest::TlbocIncomingGlobalNoBypass => "src/suites/tlb_mmu.rs:test_tlboc_incoming_global_no_bypass",
            TlbMmuTest::TlbocEmptyPpdIsNotGiantPage => "src/suites/tlb_mmu.rs:test_tlboc_empty_ppd_is_not_giant_page",
            TlbMmuTest::CtlbwIgnoresInvalidNonzeroEntries => "src/suites/tlb_mmu.rs:test_ctlbw_ignores_invalid_nonzero_entries",
            TlbMmuTest::TlbBit27DoesNotRelocateJtlbEntry => "src/suites/tlb_mmu.rs:test_tlb_bit27_does_not_relocate_jtlb_entry",
            TlbMmuTest::OverlapLoadRaisesNmi => "src/suites/tlb_mmu.rs:test_overlap_load_raises_nmi",
            TlbMmuTest::OverlapStoreRaisesNmi => "src/suites/tlb_mmu.rs:test_overlap_store_raises_nmi",
            TlbMmuTest::OverlapLowestIdxWins => "src/suites/tlb_mmu.rs:test_overlap_resolution_lowest_index_wins",
            TlbMmuTest::OverlapLowestIdxReversed => "src/suites/tlb_mmu.rs:test_overlap_resolution_lowest_index_reversed",
        }
    }

    fn location(&self) -> (at: &'static str) {
        match *self {
            TlbMmuTest::TlbWriteRead => "src/suites/tlb_mmu.rs:test_tlb_write_read",
            TlbMmuTest::TlbProbeHit => "src/suites/tlb_mmu.rs:test_tlb_probe_hit",
            TlbMmuTest::TlbProbeMiss => "src/suites/tlb_mmu.rs:test_tlb_probe_miss",
            TlbMmuTest::TlbInvalidate => "src/suites/tlb_mmu.rs:test_tlb_invalidate",
            TlbMmuTest::TlbGlobalEntry => "src/suites/tlb_mmu.rs:test_tlb_global_entry",
            TlbMmuTest::TlbMultipleEntries => "src/suites/tlb_mmu.rs:test_tlb_multiple_entries",
            TlbMmuTest::TlbOverwrite => "src/suites/tlb_mmu.rs:test_tlb_overwrite",
            TlbMmuTest::TlbAsidMatch => "src/suites/tlb_mmu.rs:test_tlb_asid_match",
            TlbMmuTest::TlbPermissions => "src/suites/tlb_mmu.rs:test_tlb_permissions",
            TlbMmuTest::TlbPgsizeFieldDecode => "src/suites/tlb_mmu.rs:test_tlb_pgsize_field_decode",
            TlbMmuTest::TlbPgsizeAllEncodings => "src/suites/tlb_mmu.rs:test_tlb_pgsize_all_encodings",
            TlbMmuTest::TlbocNoOverlap => "src/suites/tlb_mmu.rs:test_tlboc_no_overlap",
            TlbMmuTest::CtlbwNoOverlapWrites => "src/suites/tlb_mmu.rs:test_ctlbw_no_overlap_writes",
            TlbMmuTest::CtlbwSingleOverlapSameVpnAsid => "src/suites/tlb_mmu.rs:test_ctlbw_single_overlap_same_vpn_asid",
            TlbMmuTest::TlbocOverlapGlobalEntry => "src/suites/tlb_mmu.rs:test_tlboc_overlap_global_entry",
            TlbMmuTest::TlbocNoOverlapDifferentAsid => "src/suites/tlb_mmu.rs:test_tlboc_no_overlap_different_asid",
            TlbMmuTest::CtlbwMultiOverlap => "src/suites/tlb_mmu.rs:test_ctlbw_multi_overlap",
            TlbMmuTest::TlbocMultiOverlap => "src/suites/tlb_mmu.rs:test_tlboc_multi_overlap",
            TlbMmuTest::TlbocOverlapDifferentPageSizes => "src/suites/tlb_mmu.rs:test_tlboc_overlap_different_page_sizes",
            TlbMmuTest::TlbocNoOverlapDifferentPageSizes => "src/suites/tlb_mmu.rs:test_tlboc_no_overlap_different_page_sizes",
            TlbMmuTest::CtlbwIgnoresInvalidEntries => "src/suites/tlb_mmu.rs:test_ctlbw_ignores_invalid_entries",
            TlbMmuTest::TlbocIncomingGlobalNoBypass => "src/suites/tlb_mmu.rs:test_tlboc_incoming_global_no_bypass",
            TlbMmuTest::TlbocEmptyPpdIsNotGiantPage => "src/suites/tlb_mmu.rs:test_tlboc_empty_ppd_is_not_giant_page",
            TlbMmuTest::CtlbwIgnoresInvalidNonzeroEntries => "src/suites/tlb_mmu.rs:test_ctlbw_ignores_invalid_nonzero_entries",
            TlbMmuTest::TlbBit27DoesNotRelocateJtlbEntry => "src/suites/tlb_mmu.rs:test_tlb_bit27_does_not_relocate_jtlb_entry",
            TlbMmuTest::OverlapLoadRaisesNmi => "src/suites/tlb_mmu.rs:test_overlap_load_raises_nmi",
            TlbMmuTest::OverlapStoreRaisesNmi => "src/suites/tlb_mmu.rs:test_overlap_store_raises_nmi",
            TlbMmuTest::OverlapLowestIdxWins => "src/suites/tlb_mmu.rs:test_overlap_resolution_lowest_index_wins",
            TlbMmuTest::OverlapLowestIdxReversed => "src/suites/tlb_mmu.rs:test_overlap_resolution_lowest_index_reversed",
        }
    }

    fn run<M: Hexagon>(&self, rt: &mut Runtime<M>) -> (r: Result<(), Fatal>) {
        match *self {
            TlbMmuTest::TlbWriteRead => {
                test_tlb_write_read(rt);
                Ok(())
            },
            TlbMmuTest::TlbProbeHit => {
                test_tlb_probe_hit(rt);
                Ok(())
            },
            TlbMmuTest::TlbProbeMiss => {
                test_tlb_probe_miss(rt);
                Ok(())
            },
            TlbMmuTest::TlbInvalidate => {
                test_tlb_invalidate(rt);
                Ok(())
            },
            TlbMmuTest::TlbGlobalEntry => {
                test_tlb_global_entry(rt);
                Ok(())
            },
            TlbMmuTest::TlbMultipleEntries => {
                test_tlb_multiple_entries(rt);
                Ok(())
            },
            TlbMmuTest::TlbOverwrite => {
                test_tlb_overwrite(rt);
                Ok(())
            },
            TlbMmuTest::TlbAsidMatch => {
                test_tlb_asid_match(rt);
                Ok(())
            },
            TlbMmuTest::TlbPermissions => {
                test_tlb_permissions(rt);
                Ok(())
            },
            TlbMmuTest::TlbPgsizeFieldDecode => {
                test_tlb_pgsize_field_decode(rt);
                Ok(())
            },
            TlbMmuTest::TlbPgsizeAllEncodings => {
                test_tlb_pgsize_all_encodings(rt);
                Ok(())
            },
            TlbMmuTest::TlbocNoOverlap => {
                test_tlboc_no_overlap(rt);
                Ok(())
            },
            TlbMmuTest::CtlbwNoOverlapWrites => {
                test_ctlbw_no_overlap_writes(rt);
                Ok(())
            },
            TlbMmuTest::CtlbwSingleOverlapSameVpnAsid => {
                test_ctlbw_single_overlap_same_vpn_asid(rt);
                Ok(())
            },
            TlbMmuTest::TlbocOverlapGlobalEntry => {
                test_tlboc_overlap_global_entry(rt);
                Ok(())
            },
            TlbMmuTest::TlbocNoOverlapDifferentAsid => {
                test_tlboc_no_overlap_different_asid(rt);
                Ok(())
            },
            TlbMmuTest::CtlbwMultiOverlap => {
                test_ctlbw_multi_overlap(rt);
                Ok(())
            },
            TlbMmuTest::TlbocMultiOverlap => {
                test_tlboc_multi_overlap(rt);
                Ok(())
            },
            TlbMmuTest::TlbocOverlapDifferentPageSizes => {
                test_tlboc_overlap_different_page_sizes(rt);
                Ok(())
            },
            TlbMmuTest::TlbocNoOverlapDifferentPageSizes => {
                test_tlboc_no_overlap_different_page_sizes(rt);
                Ok(())
            },
            TlbMmuTest::CtlbwIgnoresInvalidEntries => {
                test_ctlbw_ignores_invalid_entries(rt);
                Ok(())
            },
            TlbMmuTest::TlbocIncomingGlobalNoBypass => {
                test_tlboc_incoming_global_no_bypass(rt);
                Ok(())
            },
            TlbMmuTest::TlbocEmptyPpdIsNotGiantPage => {
                test_tlboc_empty_ppd_is_not_giant_page(rt);
                Ok(())
            },
            TlbMmuTest::CtlbwIgnoresInvalidNonzeroEntries => {
                test_ctlbw_ignores_invalid_nonzero_entries(rt);
                Ok(())
            },
            TlbMmuTest::TlbBit27DoesNotRelocateJtlbEntry => {
                test_tlb_bit27_does_not_relocate_jtlb_entry(rt);
                Ok(())
            },
            TlbMmuTest::OverlapLoadRaisesNmi => {
                test_overlap_load_raises_nmi(rt);
                Ok(())
            },
            TlbMmuTest::OverlapStoreRaisesNmi => {
                test_overlap_store_raises_nmi(rt);
                Ok(())
            },
            TlbMmuTest::OverlapLowestIdxWins => {
                test_overlap_resolution_lowest_index_wins(rt);
                Ok(())
            },
            TlbMmuTest::OverlapLowestIdxReversed => {
                test_overlap_resolution_lowest_index_reversed(rt);
                Ok(())
            },
        }
    }
}

/// The suite's tests, in the order they run.
pub open spec fn tlb_mmu_tests() -> Seq<(&'static str, TlbMmuTest)> {
    seq![
        ("tlb_write_read", TlbMmuTest::TlbWriteRead),
        ("tlb_probe_hit", TlbMmuTest::TlbProbeHit),
        ("tlb_probe_miss", TlbMmuTest::TlbProbeMiss),
        ("tlb_invalidate", TlbMmuTest::TlbInvalidate),
        ("tlb_global_entry", TlbMmuTest::TlbGlobalEntry),
        ("tlb_multiple_entries", TlbMmuTest::TlbMultipleEntries),
        ("tlb_overwrite", TlbMmuTest::TlbOverwrite),
        ("tlb_asid_match", TlbMmuTest::TlbAsidMatch),
        ("tlb_permissions", TlbMmuTest::TlbPermissions),
        ("tlb_pgsize_field_decode", TlbMmuTest::TlbPgsizeFieldDecode),
        ("tlb_pgsize_all_encodings", TlbMmuTest::TlbPgsizeAllEncodings),
        ("tlboc_no_overlap", TlbMmuTest::TlbocNoOverlap),
        ("ctlbw_no_overlap_writes", TlbMmuTest::CtlbwNoOverlapWrites),
        ("ctlbw_single_overlap_same_vpn_asid", TlbMmuTest::CtlbwSingleOverlapSameVpnAsid),
        ("tlboc_overlap_global_entry", TlbMmuTest::TlbocOverlapGlobalEntry),
        ("tlboc_no_overlap_different_asid", TlbMmuTest::TlbocNoOverlapDifferentAsid),
        ("ctlbw_multi_overlap", TlbMmuTest::CtlbwMultiOverlap),
        ("tlboc_multi_overlap", TlbMmuTest::TlbocMultiOverlap),
        ("tlboc_overlap_different_page_sizes", TlbMmuTest::TlbocOverlapDifferentPageSizes),
        ("tlboc_no_overlap_different_page_sizes", TlbMmuTest::TlbocNoOverlapDifferentPageSizes),
        ("ctlbw_ignores_invalid_entries", TlbMmuTest::CtlbwIgnoresInvalidEntries),
        ("tlboc_incoming_global_no_bypass", TlbMmuTest::TlbocIncomingGlobalNoBypass),
        ("tlboc_empty_ppd_is_not_giant_page", TlbMmuTest::TlbocEmptyPpdIsNotGiantPage),
        ("ctlbw_ignores_invalid_nonzero_entries", TlbMmuTest::CtlbwIgnoresInvalidNonzeroEntries),
        ("tlb_bit27_does_not_relocate_jtlb_entry", TlbMmuTest::TlbBit27DoesNotRelocateJtlbEntry),
        ("overlap_load_raises_nmi", TlbMmuTest::OverlapLoadRaisesNmi),
        ("overlap_store_raises_nmi", TlbMmuTest::OverlapStoreRaisesNmi),
        ("overlap_lowest_idx_wins", TlbMmuTest::OverlapLowestIdxWins),
        ("overlap_lowest_idx_reversed", TlbMmuTest::OverlapLowestIdxReversed),
    ]
}

/// Run the TLB/MMU suite and return its error count.
pub fn rust_main<M: Hexagon>(rt: &mut Runtime<M>) -> (code: i32)
    ensures
        old(rt)@.suite_begin("TLB/MMU").suite_ran(tlb_mmu_tests(), final(rt)@, code),
{
    rt.test_suite_begin("TLB/MMU");
    let tests = [
        ("tlb_write_read", TlbMmuTest::TlbWriteRead),
        ("tlb_probe_hit", TlbMmuTest::TlbProbeHit),
        ("tlb_probe_miss", TlbMmuTest::TlbProbeMiss),
        ("tlb_invalidate", TlbMmuTest::TlbInvalidate),
        ("tlb_global_entry", TlbMmuTest::TlbGlobalEntry),
        ("tlb_multiple_entries", TlbMmuTest::TlbMultipleEntries),
        ("tlb_overwrite", TlbMmuTest::TlbOverwrite),
        ("tlb_asid_match", TlbMmuTest::TlbAsidMatch),
        ("tlb_permissions", TlbMmuTest::TlbPermissions),
        ("tlb_pgsize_field_decode", TlbMmuTest::TlbPgsizeFieldDecode),
        ("tlb_pgsize_all_encodings", TlbMmuTest::TlbPgsizeAllEncodings),
        ("tlboc_no_overlap", TlbMmuTest::TlbocNoOverlap),
        ("ctlbw_no_overlap_writes", TlbMmuTest::CtlbwNoOverlapWrites),
        ("ctlbw_single_overlap_same_vpn_asid", TlbMmuTest::CtlbwSingleOverlapSameVpnAsid),
        ("tlboc_overlap_global_entry", TlbMmuTest::TlbocOverlapGlobalEntry),
        ("tlboc_no_overlap_different_asid", TlbMmuTest::TlbocNoOverlapDifferentAsid),
        ("ctlbw_multi_overlap", TlbMmuTest::CtlbwMultiOverlap),
        ("tlboc_multi_overlap", TlbMmuTest::TlbocMultiOverlap),
        ("tlboc_overlap_different_page_sizes", TlbMmuTest::TlbocOverlapDifferentPageSizes),
        ("tlboc_no_overlap_different_page_sizes", TlbMmuTest::TlbocNoOverlapDifferentPageSizes),
        ("ctlbw_ignores_invalid_entries", TlbMmuTest::CtlbwIgnoresInvalidEntries),
        ("tlboc_incoming_global_no_bypass", TlbMmuTest::TlbocIncomingGlobalNoBypass),
        ("tlboc_empty_ppd_is_not_giant_page", TlbMmuTest::TlbocEmptyPpdIsNotGiantPage),
        ("ctlbw_ignores_invalid_nonzero_entries", TlbMmuTest::CtlbwIgnoresInvalidNonzeroEntries),
        ("tlb_bit27_does_not_relocate_jtlb_entry", TlbMmuTest::TlbBit27DoesNotRelocateJtlbEntry),
        ("overlap_load_raises_nmi", TlbMmuTest::OverlapLoadRaisesNmi),
        ("overlap_store_raises_nmi", TlbMmuTest::OverlapStoreRaisesNmi),
        ("overlap_lowest_idx_wins", TlbMmuTest::OverlapLowestIdxWins),
        ("overlap_lowest_idx_reversed", TlbMmuTest::OverlapLowestIdxReversed),
    ];
    assert(tests@ =~= tlb_mmu_tests());
    rt.run_suite(&tests)
}

/// The ASID-match test probes with exactly the word it wrote: the probe's
/// hi word is that of the entry written at the test index, a non-global
/// entry for VPN 0x160 with ASID 5.  The test records no error exactly when
/// the probe answers with the test index, and one for each way it misses it
/// (a negative answer, an answer other than the test index).
pub proof fn law_tlb_asid_match_probes_written_entry(s: RunState, r: i32)
    ensures
        ({
            let t = s.tlb_asid_match_run(r);
            let n = s.events.len() as int;
            &&& match t.events[n] {
                Ev::TlbWrite(h, _, idx) => idx == TEST_TLB_IDX && hi_vpn(h) == 0x160 && hi_asid(h) == 5
                    && !hi_global(h) && t.events[n + 2] == Ev::TlbProbe(h, r),
                _ => false,
            }
            &&& t.recorded() == s.recorded() + (if r < 0 { 1nat } else { 0nat }) + (if r as u32
                != TEST_TLB_IDX { 1nat } else { 0nat })
        }),
{
    broadcast use crate::report::group_recorded;

    let h = hi_w(0x160, 5, false);
    assert(h == 0xC001_600Au32);
    assert((0xC001_600Au32 >> 8u32) & 0xFFF == 0x160 && (0xC001_600Au32 >> 1u32) & 0x7F == 5
        && 0xC001_600Au32 & 1 != 1) by (bit_vector);
}

/// One round of the page-size tests records one error for each of the
/// read-back words and the probe answer that is not as written.
pub broadcast proof fn lemma_recorded_pgsize_round(t: RunState, hi: u32, lo: u32, o: (u32, u32, i32))
    ensures
        #[trigger] t.pgsize_round(hi, lo, o).recorded() == t.recorded() + (if o.0 == hi { 0nat } else { 1nat }) + (
        if o.1 == lo { 0nat } else { 1nat }) + (if o.2 as u32 == TEST_TLB_IDX { 0nat } else { 1nat }),
{
    broadcast use crate::report::group_recorded;

}

/// The tests of TLB entries (write, read, probe, invalidate,
/// global and ASID matching, permissions): each records exactly one error
/// for every expectation that fails and none for those that hold.  The
/// expectations of each test are the conditions counted below, over what
/// the hardware answered.
#[verifier::rlimit(80)]
#[verifier::spinoff_prover]
pub proof fn law_tlb_entry_tests_count_failed_expectations()
    ensures
        forall|s: RunState, rh: u32, rl: u32|
            #[trigger] s.tlb_write_read_run(rh, rl).recorded() == s.recorded()
                + (if (rh) == (hi_w(TEST_VPN, 0, true)) { 0nat } else { 1nat })
                + (if (rl) == (lo_w(TEST_VPN, TLB_PERM_XWRU, true)) { 0nat } else { 1nat }),
        forall|s: RunState, r: i32|
            #[trigger] s.tlb_probe_hit_run(r).recorded() == s.recorded()
                + (if r >= 0 { 0nat } else { 1nat })
                + (if r as u32 == TEST_TLB_IDX { 0nat } else { 1nat }),
        forall|s: RunState, r: i32|
            #[trigger] s.tlb_probe_miss_run(r).recorded() == s.recorded()
                + (if r < 0 { 0nat } else { 1nat }),
        forall|s: RunState, r1: i32, r2: i32|
            #[trigger] s.tlb_invalidate_run(r1, r2).recorded() == s.recorded()
                + (if r1 >= 0 { 0nat } else { 1nat })
                + (if r2 < 0 { 0nat } else { 1nat }),
        forall|s: RunState, r: i32, rh: u32, rl: u32|
            #[trigger] s.tlb_global_entry_run(r, rh, rl).recorded() == s.recorded()
                + (if r >= 0 { 0nat } else { 1nat })
                + (if r as u32 == TEST_TLB_IDX { 0nat } else { 1nat })
                + (if rh & 1 != 0 { 0nat } else { 1nat }),
        forall|s: RunState, ra: i32, rb: i32, rc: i32, ha: u32, la: u32, hb: u32, lb: u32|
            #[trigger] s.tlb_multiple_entries_run(ra, rb, rc, ha, la, hb, lb).recorded() == s.recorded()
                + (if ra as u32 == 58 { 0nat } else { 1nat })
                + (if rb as u32 == 59 { 0nat } else { 1nat })
                + (if rc as u32 == TEST_TLB_IDX { 0nat } else { 1nat })
                + (if (ha) == (hi_w(0x110, 0, true)) { 0nat } else { 1nat })
                + (if (la) == (lo_w(0x110, TLB_PERM_XWRU, true)) { 0nat } else { 1nat })
                + (if (hb) == (hi_w(0x120, 0, true)) { 0nat } else { 1nat })
                + (if (lb) == (lo_w(0x120, TLB_PERM_XWRU, true)) { 0nat } else { 1nat }),
        forall|s: RunState, rh1: u32, rl1: u32, rh2: u32, rl2: u32, ro: i32, rn: i32|
            #[trigger] s.tlb_overwrite_run(rh1, rl1, rh2, rl2, ro, rn).recorded() == s.recorded()
                + (if (rh1) == (hi_w(0x140, 0, true)) { 0nat } else { 1nat })
                + (if (rl1) == (lo_w(0x140, TLB_PERM_XWRU, true)) { 0nat } else { 1nat })
                + (if (rh2) == (hi_w(0x150, 0, true)) { 0nat } else { 1nat })
                + (if (rl2) == (lo_w(0x150, TLB_PERM_XWR, true)) { 0nat } else { 1nat })
                + (if ro < 0 || ro as u32 != TEST_TLB_IDX { 0nat } else { 1nat })
                + (if rn as u32 == TEST_TLB_IDX { 0nat } else { 1nat }),
        forall|s: RunState, rh: u32, rl: u32|
            #[trigger] s.tlb_permissions_run(rh, rl).recorded() == s.recorded()
                + (if rl != lo_w(0x170, TLB_PERM_XWRU, true) { 0nat } else { 1nat }),
        forall|s: RunState, rh: u32, rl: u32, r: i32|
            #[trigger] s.tlb_bit27_does_not_relocate_jtlb_entry_run(rh, rl, r).recorded() == s.recorded()
                + (if (rh) == (hv_w(0x4F0, 0, true)) { 0nat } else { 1nat })
                + (if (rl) == (lo_w(0x4F0, TLB_PERM_XWRU, true) | 0x0800_0000) { 0nat } else { 1nat })
                + (if r >= 0 { 0nat } else { 1nat })
                + (if r as u32 == 58 { 0nat } else { 1nat }),
{
    broadcast use crate::report::group_recorded;

    assert forall|s: RunState, rh: u32, rl: u32|
        #[trigger] s.tlb_write_read_run(rh, rl).recorded() == s.recorded()
            + (if (rh) == (hi_w(TEST_VPN, 0, true)) { 0nat } else { 1nat })
            + (if (rl) == (lo_w(TEST_VPN, TLB_PERM_XWRU, true)) { 0nat } else { 1nat }) by {}
    assert forall|s: RunState, r: i32|
        #[trigger] s.tlb_probe_hit_run(r).recorded() == s.recorded()
            + (if r >= 0 { 0nat } else { 1nat })
            + (if r as u32 == TEST_TLB_IDX { 0nat } else { 1nat }) by {}
    assert forall|s: RunState, r: i32|
        #[trigger] s.tlb_probe_miss_run(r).recorded() == s.recorded()
            + (if r < 0 { 0nat } else { 1nat }) by {}
    assert forall|s: RunState, r1: i32, r2: i32|
        #[trigger] s.tlb_invalidate_run(r1, r2).recorded() == s.recorded()
            + (if r1 >= 0 { 0nat } else { 1nat })
            + (if r2 < 0 { 0nat } else { 1nat }) by {}
    assert forall|s: RunState, r: i32, rh: u32, rl: u32|
        #[trigger] s.tlb_global_entry_run(r, rh, rl).recorded() == s.recorded()
            + (if r >= 0 { 0nat } else { 1nat })
            + (if r as u32 == TEST_TLB_IDX { 0nat } else { 1nat })
            + (if rh & 1 != 0 { 0nat } else { 1nat }) by {}
    assert forall|s: RunState, ra: i32, rb: i32, rc: i32, ha: u32, la: u32, hb: u32, lb: u32|
        #[trigger] s.tlb_multiple_entries_run(ra, rb, rc, ha, la, hb, lb).recorded() == s.recorded()
            + (if ra as u32 == 58 { 0nat } else { 1nat })
            + (if rb as u32 == 59 { 0nat } else { 1nat })
            + (if rc as u32 == TEST_TLB_IDX { 0nat } else { 1nat })
            + (if (ha) == (hi_w(0x110, 0, true)) { 0nat } else { 1nat })
            + (if (la) == (lo_w(0x110, TLB_PERM_XWRU, true)) { 0nat } else { 1nat })
            + (if (hb) == (hi_w(0x120, 0, true)) { 0nat } else { 1nat })
            + (if (lb) == (lo_w(0x120, TLB_PERM_XWRU, true)) { 0nat } else { 1nat }) by {}
    assert forall|s: RunState, rh1: u32, rl1: u32, rh2: u32, rl2: u32, ro: i32, rn: i32|
        #[trigger] s.tlb_overwrite_run(rh1, rl1, rh2, rl2, ro, rn).recorded() == s.recorded()
            + (if (rh1) == (hi_w(0x140, 0, true)) { 0nat } else { 1nat })
            + (if (rl1) == (lo_w(0x140, TLB_PERM_XWRU, true)) { 0nat } else { 1nat })
            + (if (rh2) == (hi_w(0x150, 0, true)) { 0nat } else { 1nat })
            + (if (rl2) == (lo_w(0x150, TLB_PERM_XWR, true)) { 0nat } else { 1nat })
            + (if ro < 0 || ro as u32 != TEST_TLB_IDX { 0nat } else { 1nat })
            + (if rn as u32 == TEST_TLB_IDX { 0nat } else { 1nat }) by {}
    assert forall|s: RunState, rh: u32, rl: u32|
        #[trigger] s.tlb_permissions_run(rh, rl).recorded() == s.recorded()
            + (if rl != lo_w(0x170, TLB_PERM_XWRU, true) { 0nat } else { 1nat }) by {}
    assert forall|s: RunState, rh: u32, rl: u32, r: i32|
        #[trigger] s.tlb_bit27_does_not_relocate_jtlb_entry_run(rh, rl, r).recorded() == s.recorded()
            + (if (rh) == (hv_w(0x4F0, 0, true)) { 0nat } else { 1nat })
            + (if (rl) == (lo_w(0x4F0, TLB_PERM_XWRU, true) | 0x0800_0000) { 0nat } else { 1nat })
            + (if r >= 0 { 0nat } else { 1nat })
            + (if r as u32 == 58 { 0nat } else { 1nat }) by {}
}

/// The tests of the page-size field: each records exactly one error
/// for every expectation that fails and none for those that hold.  The
/// expectations of each test are the conditions counted below, over what
/// the hardware answered.
#[verifier::rlimit(80)]
#[verifier::spinoff_prover]
pub proof fn law_tlb_page_size_tests_count_failed_expectations()
    ensures
        forall|s: RunState, o1: (u32, u32, i32), o2: (u32, u32, i32), o3: (u32, u32, i32)|
            #[trigger] s.tlb_pgsize_field_decode_run(o1, o2, o3).recorded() == s.recorded()
                + (if ((o1).0) == ((hi_w(0x1A0, 0, true))) { 0nat } else { 1nat })
                + (if ((o1).1) == ((0x0100_0000)) { 0nat } else { 1nat })
                + (if (o1).2 as u32 == TEST_TLB_IDX { 0nat } else { 1nat })
                + (if ((o2).0) == ((hi_w(0x1A0, 0, true))) { 0nat } else { 1nat })
                + (if ((o2).1) == ((0x0100_0400)) { 0nat } else { 1nat })
                + (if (o2).2 as u32 == TEST_TLB_IDX { 0nat } else { 1nat })
                + (if ((o3).0) == ((hi_w(0x1A0, 0, true))) { 0nat } else { 1nat })
                + (if ((o3).1) == ((0x0080_0000)) { 0nat } else { 1nat })
                + (if (o3).2 as u32 == TEST_TLB_IDX { 0nat } else { 1nat }),
{
    broadcast use crate::report::group_recorded, lemma_recorded_pgsize_round;

    assert forall|s: RunState, o1: (u32, u32, i32), o2: (u32, u32, i32), o3: (u32, u32, i32)|
        #[trigger] s.tlb_pgsize_field_decode_run(o1, o2, o3).recorded() == s.recorded()
            + (if ((o1).0) == ((hi_w(0x1A0, 0, true))) { 0nat } else { 1nat })
            + (if ((o1).1) == ((0x0100_0000)) { 0nat } else { 1nat })
            + (if (o1).2 as u32 == TEST_TLB_IDX { 0nat } else { 1nat })
            + (if ((o2).0) == ((hi_w(0x1A0, 0, true))) { 0nat } else { 1nat })
            + (if ((o2).1) == ((0x0100_0400)) { 0nat } else { 1nat })
            + (if (o2).2 as u32 == TEST_TLB_IDX { 0nat } else { 1nat })
            + (if ((o3).0) == ((hi_w(0x1A0, 0, true))) { 0nat } else { 1nat })
            + (if ((o3).1) == ((0x0080_0000)) { 0nat } else { 1nat })
            + (if (o3).2 as u32 == TEST_TLB_IDX { 0nat } else { 1nat }) by {}
}

/// The tests of the `ctlbw` and `tlboc`
/// overlap checks: each records exactly one error
/// for every expectation that fails and none for those that hold.  The
/// expectations of each test are the conditions counted below, over what
/// the hardware answered.
#[verifier::rlimit(80)]
#[verifier::spinoff_prover]
pub proof fn law_tlb_overlap_check_tests_count_failed_expectations()
    ensures
        forall|s: RunState, r: u32|
            #[trigger] s.tlboc_no_overlap_run(r).recorded() == s.recorded()
                + (if r == NO_OVERLAP { 0nat } else { 1nat }),
        forall|s: RunState, r: u32, rh: u32, rl: u32|
            #[trigger] s.ctlbw_no_overlap_writes_run(r, rh, rl).recorded() == s.recorded()
                + (if r == NO_OVERLAP { 0nat } else { 1nat })
                + (if (rh) == (hv_w(0x410, 0, true)) { 0nat } else { 1nat })
                + (if (rl) == (lo_w(0x410, TLB_PERM_XWRU, true)) { 0nat } else { 1nat }),
        forall|s: RunState, r: u32, rh: u32, rl: u32|
            #[trigger] s.ctlbw_single_overlap_same_vpn_asid_run(r, rh, rl).recorded() == s.recorded()
                + (if r == 56 { 0nat } else { 1nat })
                + (if rh != hv_w(0x420, 3, false) { 0nat } else { 1nat }),
        forall|s: RunState, r: u32|
            #[trigger] s.tlboc_overlap_global_entry_run(r).recorded() == s.recorded()
                + (if r == 56 { 0nat } else { 1nat }),
        forall|s: RunState, r: u32|
            #[trigger] s.tlboc_no_overlap_different_asid_run(r).recorded() == s.recorded()
                + (if r == NO_OVERLAP { 0nat } else { 1nat }),
        forall|s: RunState, r: u32|
            #[trigger] s.ctlbw_multi_overlap_run(r).recorded() == s.recorded()
                + (if r == MULTI_OVERLAP { 0nat } else { 1nat }),
        forall|s: RunState, r: u32|
            #[trigger] s.tlboc_multi_overlap_run(r).recorded() == s.recorded()
                + (if r == MULTI_OVERLAP { 0nat } else { 1nat }),
        forall|s: RunState, r: u32|
            #[trigger] s.tlboc_overlap_different_page_sizes_run(r).recorded() == s.recorded()
                + (if r == 56 { 0nat } else { 1nat }),
        forall|s: RunState, r: u32|
            #[trigger] s.tlboc_no_overlap_different_page_sizes_run(r).recorded() == s.recorded()
                + (if r == NO_OVERLAP { 0nat } else { 1nat }),
        forall|s: RunState, r: u32, rh: u32, rl: u32|
            #[trigger] s.ctlbw_ignores_invalid_entries_run(r, rh, rl).recorded() == s.recorded()
                + (if r == NO_OVERLAP { 0nat } else { 1nat })
                + (if (rh) == (hv_w(0x4A0, 0, true)) { 0nat } else { 1nat })
                + (if (rl) == (lo_w(0x4A0, TLB_PERM_XWRU, true)) { 0nat } else { 1nat }),
        forall|s: RunState, r: u32|
            #[trigger] s.tlboc_incoming_global_no_bypass_run(r).recorded() == s.recorded()
                + (if r == NO_OVERLAP { 0nat } else { 1nat }),
        forall|s: RunState, r: u32|
            #[trigger] s.tlboc_empty_ppd_is_not_giant_page_run(r).recorded() == s.recorded()
                + (if r == NO_OVERLAP { 0nat } else { 1nat }),
        forall|s: RunState, rh: u32, rl: u32, r: u32, wh: u32, wl: u32|
            #[trigger] s.ctlbw_ignores_invalid_nonzero_entries_run(rh, rl, r, wh, wl).recorded() == s.recorded()
                + (if (rh) == (0x0001_2345) { 0nat } else { 1nat })
                + (if (rl) == (WIDEST_PAGE_LO) { 0nat } else { 1nat })
                + (if r == NO_OVERLAP { 0nat } else { 1nat })
                + (if (wh) == (hv_w(0x4E0, 0, true)) { 0nat } else { 1nat })
                + (if (wl) == (lo_w(0x4E0, TLB_PERM_XWRU, true)) { 0nat } else { 1nat }),
{
    broadcast use crate::report::group_recorded;

    assert forall|s: RunState, r: u32|
        #[trigger] s.tlboc_no_overlap_run(r).recorded() == s.recorded()
            + (if r == NO_OVERLAP { 0nat } else { 1nat }) by {}
    assert forall|s: RunState, r: u32, rh: u32, rl: u32|
        #[trigger] s.ctlbw_no_overlap_writes_run(r, rh, rl).recorded() == s.recorded()
            + (if r == NO_OVERLAP { 0nat } else { 1nat })
            + (if (rh) == (hv_w(0x410, 0, true)) { 0nat } else { 1nat })
            + (if (rl) == (lo_w(0x410, TLB_PERM_XWRU, true)) { 0nat } else { 1nat }) by {}
    assert forall|s: RunState, r: u32, rh: u32, rl: u32|
        #[trigger] s.ctlbw_single_overlap_same_vpn_asid_run(r, rh, rl).recorded() == s.recorded()
            + (if r == 56 { 0nat } else { 1nat })
            + (if rh != hv_w(0x420, 3, false) { 0nat } else { 1nat }) by {}
    assert forall|s: RunState, r: u32|
        #[trigger] s.tlboc_overlap_global_entry_run(r).recorded() == s.recorded()
            + (if r == 56 { 0nat } else { 1nat }) by {}
    assert forall|s: RunState, r: u32|
        #[trigger] s.tlboc_no_overlap_different_asid_run(r).recorded() == s.recorded()
            + (if r == NO_OVERLAP { 0nat } else { 1nat }) by {}
    assert forall|s: RunState, r: u32|
        #[trigger] s.ctlbw_multi_overlap_run(r).recorded() == s.recorded()
            + (if r == MULTI_OVERLAP { 0nat } else { 1nat }) by {}
    assert forall|s: RunState, r: u32|
        #[trigger] s.tlboc_multi_overlap_run(r).recorded() == s.recorded()
            + (if r == MULTI_OVERLAP { 0nat } else { 1nat }) by {}
    assert forall|s: RunState, r: u32|
        #[trigger] s.tlboc_overlap_different_page_sizes_run(r).recorded() == s.recorded()
            + (if r == 56 { 0nat } else { 1nat }) by {}
    assert forall|s: RunState, r: u32|
        #[trigger] s.tlboc_no_overlap_different_page_sizes_run(r).recorded() == s.recorded()
            + (if r == NO_OVERLAP { 0nat } else { 1nat }) by {}
    assert forall|s: RunState, r: u32, rh: u32, rl: u32|
        #[trigger] s.ctlbw_ignores_invalid_entries_run(r, rh, rl).recorded() == s.recorded()
            + (if r == NO_OVERLAP { 0nat } else { 1nat })
            + (if (rh) == (hv_w(0x4A0, 0, true)) { 0nat } else { 1nat })
            + (if (rl) == (lo_w(0x4A0, TLB_PERM_XWRU, true)) { 0nat } else { 1nat }) by {}
    assert forall|s: RunState, r: u32|
        #[trigger] s.tlboc_incoming_global_no_bypass_run(r).recorded() == s.recorded()
            + (if r == NO_OVERLAP { 0nat } else { 1nat }) by {}
    assert forall|s: RunState, r: u32|
        #[trigger] s.tlboc_empty_ppd_is_not_giant_page_run(r).recorded() == s.recorded()
            + (if r == NO_OVERLAP { 0nat } else { 1nat }) by {}
    assert forall|s: RunState, rh: u32, rl: u32, r: u32, wh: u32, wl: u32|
        #[trigger] s.ctlbw_ignores_invalid_nonzero_entries_run(rh, rl, r, wh, wl).recorded() == s.recorded()
            + (if (rh) == (0x0001_2345) { 0nat } else { 1nat })
            + (if (rl) == (WIDEST_PAGE_LO) { 0nat } else { 1nat })
            + (if r == NO_OVERLAP { 0nat } else { 1nat })
            + (if (wh) == (hv_w(0x4E0, 0, true)) { 0nat } else { 1nat })
            + (if (wl) == (lo_w(0x4E0, TLB_PERM_XWRU, true)) { 0nat } else { 1nat }) by {}
}

/// The tests of accesses through overlapping
/// entries: each records exactly one error
/// for every expectation that fails and none for those that hold.  The
/// expectations of each test are the conditions counted below, over what
/// the hardware answered.
#[verifier::rlimit(80)]
#[verifier::spinoff_prover]
pub proof fn law_tlb_overlap_nmi_tests_count_failed_expectations()
    ensures
        forall|s: RunState, val: u32, count: u32, cause: u32|
            #[trigger] s.overlap_load_raises_nmi_run(val, count, cause).recorded() == s.recorded()
                + (if (count) != 0 { 0nat } else { 1nat })
                + (if (cause) == CAUSE_MULTI_TLB_MATCH { 0nat } else { 1nat }),
        forall|s: RunState, count: u32, cause: u32|
            #[trigger] s.overlap_store_raises_nmi_run(count, cause).recorded() == s.recorded()
                + (if (count) != 0 { 0nat } else { 1nat })
                + (if (cause) == CAUSE_MULTI_TLB_MATCH { 0nat } else { 1nat }),
        forall|s: RunState, val: u32, count: u32|
            #[trigger] s.overlap_lowest_idx_wins_run(val, count).recorded() == s.recorded()
                + (if count != 0 { 0nat } else { 1nat })
                + (if val == SENTINEL_A { 0nat } else { 1nat }),
        forall|s: RunState, val: u32, count: u32|
            #[trigger] s.overlap_lowest_idx_reversed_run(val, count).recorded() == s.recorded()
                + (if count != 0 { 0nat } else { 1nat })
                + (if val == SENTINEL_B { 0nat } else { 1nat }),
{
    broadcast use crate::report::group_recorded;

    assert forall|s: RunState, val: u32, count: u32, cause: u32|
        #[trigger] s.overlap_load_raises_nmi_run(val, count, cause).recorded() == s.recorded()
            + (if (count) != 0 { 0nat } else { 1nat })
            + (if (cause) == CAUSE_MULTI_TLB_MATCH { 0nat } else { 1nat }) by {}
    assert forall|s: RunState, count: u32, cause: u32|
        #[trigger] s.overlap_store_raises_nmi_run(count, cause).recorded() == s.recorded()
            + (if (count) != 0 { 0nat } else { 1nat })
            + (if (cause) == CAUSE_MULTI_TLB_MATCH { 0nat } else { 1nat }) by {}
    assert forall|s: RunState, val: u32, count: u32|
        #[trigger] s.overlap_lowest_idx_wins_run(val, count).recorded() == s.recorded()
            + (if count != 0 { 0nat } else { 1nat })
            + (if val == SENTINEL_A { 0nat } else { 1nat }) by {}
    assert forall|s: RunState, val: u32, count: u32|
        #[trigger] s.overlap_lowest_idx_reversed_run(val, count).recorded() == s.recorded()
            + (if count != 0 { 0nat } else { 1nat })
            + (if val == SENTINEL_B { 0nat } else { 1nat }) by {}
}

} // verus!
