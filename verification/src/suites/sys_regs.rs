//! System register access tests: SSR, EVB, SYSCFG, IMASK, VID, MODECTL,
//! CFGBASE, FRAMEKEY, HTID, SGP0/1, STID, BADVA/ELR, DIAG.

use vstd::prelude::*;
use crate::machine::{Hexagon, RunState, Runtime, SysReg};
use crate::regs::{
    ssr_asid, ssr_asid_spec, ssr_with_asid, ssr_with_asid_spec, SSR_IE, SSR_UM, SSR_XE,
    SYSCFG_DMT_EN, SYSCFG_ICACHE_EN, SYSCFG_INT_EN, SYSCFG_MMU_EN, SYSCFG_PCYCLE_EN,
};
use crate::report::{Fatal, TestCase};
use crate::suites::common::reg_roundtrip;

verus! {

impl RunState {
    pub open spec fn ssr_initial_run(self, ssr: u32) -> RunState {
        self.rd(SysReg::Ssr, ssr).check(ssr & SSR_UM == 0, "ssr & SSR_UM == 0").check(
            ssr & SSR_IE != 0,
            "ssr & SSR_IE != 0",
        ).check(ssr & SSR_XE != 0, "ssr & SSR_XE != 0").check32(ssr_asid_spec(ssr), 0)
    }

    pub open spec fn evb_run(self, evb: u32) -> RunState {
        self.rd(SysReg::Evb, evb).check32_ne(evb, 0).check32(evb & 0xFFF, 0)
    }

    pub open spec fn syscfg_run(self, syscfg: u32) -> RunState {
        self.rd(SysReg::Syscfg, syscfg).check(
            syscfg & SYSCFG_MMU_EN != 0,
            "syscfg & SYSCFG_MMU_EN != 0",
        ).check(syscfg & SYSCFG_ICACHE_EN != 0, "syscfg & SYSCFG_ICACHE_EN != 0").check(
            syscfg & SYSCFG_INT_EN != 0,
            "syscfg & SYSCFG_INT_EN != 0",
        ).check(syscfg & SYSCFG_PCYCLE_EN != 0, "syscfg & SYSCFG_PCYCLE_EN != 0")
    }

    pub open spec fn modectl_run(self, modectl: u32) -> RunState {
        self.rd(SysReg::Modectl, modectl).check(modectl & 1 != 0, "modectl & 1 != 0")
    }

    pub open spec fn cfgbase_run(self, cfgbase: u32) -> RunState {
        self.rd(SysReg::Cfgbase, cfgbase).check32_ne(cfgbase, 0)
    }

    pub open spec fn htid_run(self, htid: u32) -> RunState {
        self.rd(SysReg::Htid, htid).check32(htid, 0)
    }

    pub open spec fn sgp_run(self, s0: u32, s1: u32, rb0: u32, rb1: u32) -> RunState {
        self.rd(SysReg::Sgp0, s0).rd(SysReg::Sgp1, s1).wr(SysReg::Sgp0, 0xAAAA_5555).wr(
            SysReg::Sgp1,
            0x5555_AAAA,
        ).rd(SysReg::Sgp0, rb0).rd(SysReg::Sgp1, rb1).check32(rb0, 0xAAAA_5555).check32(
            rb1,
            0x5555_AAAA,
        ).wr(SysReg::Sgp0, s0).wr(SysReg::Sgp1, s1)
    }

    pub open spec fn stid_rw_run(self, saved: u32, rb: u32) -> RunState {
        self.rd(SysReg::Stid, saved).wr(SysReg::Stid, 0x3F).rd(SysReg::Stid, rb).check32(
            rb & 0x3F,
            0x3F,
        ).wr(SysReg::Stid, saved)
    }

    pub open spec fn evb_write_run(self, saved: u32, rb: u32) -> RunState {
        self.rd(SysReg::Evb, saved).wr(SysReg::Evb, saved).rd(SysReg::Evb, rb).check32(
            rb,
            saved,
        ).check32(rb & 0xFFF, 0).wr(SysReg::Evb, saved)
    }

    pub open spec fn badva_elr_run(self, badva: u32, elr: u32) -> RunState {
        self.rd(SysReg::Badva, badva).rd(SysReg::Elr, elr).check(badva & 0 == 0, "badva & 0x0 == 0").check(
            elr & 0 == 0,
            "elr & 0x0 == 0",
        )
    }

    pub open spec fn diag_run(self, diag: u32) -> RunState {
        self.rd(SysReg::Diag, diag).check(diag | 0 == diag, "diag | 0 == diag")
    }

    pub open spec fn ssr_asid_run(self, ssr: u32, rb: u32) -> RunState {
        self.rd(SysReg::Ssr, ssr).check32(ssr_asid_spec(ssr), 0).wr(
            SysReg::Ssr,
            ssr_with_asid_spec(ssr, 0x42),
        ).rd(SysReg::Ssr, rb).check32(ssr_asid_spec(rb), 0x42).wr(SysReg::Ssr, ssr)
    }

    pub open spec fn syscfg_dmt_run(self, syscfg: u32) -> RunState {
        self.rd(SysReg::Syscfg, syscfg).check(syscfg & SYSCFG_DMT_EN != 0, "syscfg & (1 << 15) != 0")
    }
}

/// SSR at boot: supervisor mode (UM=0), interrupts enabled (IE=1),
/// extensions enabled (XE=1), ASID 0.
pub fn test_ssr_initial<M: Hexagon>(rt: &mut Runtime<M>)
    ensures
        exists|ssr: u32| #[trigger] old(rt)@.ssr_initial_run(ssr) == final(rt)@,
{
    let ssr = rt.read_ssr();
    rt.check(ssr & SSR_UM == 0, "ssr & SSR_UM == 0");
    rt.check(ssr & SSR_IE != 0, "ssr & SSR_IE != 0");
    rt.check(ssr & SSR_XE != 0, "ssr & SSR_XE != 0");
    let asid = ssr_asid(ssr);
    rt.check32(asid, 0);
    assert(old(rt)@.ssr_initial_run(ssr) == rt@);
}

/// EVB is non-zero and 4K-aligned.
pub fn test_evb<M: Hexagon>(rt: &mut Runtime<M>)
    ensures
        exists|evb: u32| #[trigger] old(rt)@.evb_run(evb) == final(rt)@,
{
    let evb = rt.read_evb();
    rt.check32_ne(evb, 0);
    rt.check32(evb & 0xFFF, 0);
    assert(old(rt)@.evb_run(evb) == rt@);
}

/// SYSCFG has the MMU, icache, interrupts and pcycle enabled.
pub fn test_syscfg<M: Hexagon>(rt: &mut Runtime<M>)
    ensures
        exists|v: u32| #[trigger] old(rt)@.syscfg_run(v) == final(rt)@,
{
    let syscfg = rt.read_syscfg();
    rt.check(syscfg & SYSCFG_MMU_EN != 0, "syscfg & SYSCFG_MMU_EN != 0");
    rt.check(syscfg & SYSCFG_ICACHE_EN != 0, "syscfg & SYSCFG_ICACHE_EN != 0");
    rt.check(syscfg & SYSCFG_INT_EN != 0, "syscfg & SYSCFG_INT_EN != 0");
    rt.check(syscfg & SYSCFG_PCYCLE_EN != 0, "syscfg & SYSCFG_PCYCLE_EN != 0");
    assert(old(rt)@.syscfg_run(syscfg) == rt@);
}

/// IMASK reads back a written pattern.
pub fn test_imask_readwrite<M: Hexagon>(rt: &mut Runtime<M>)
    ensures
        exists|saved: u32, rb: u32|
            #[trigger] old(rt)@.reg_roundtrip(SysReg::Imask, 0xAAAA_0000, saved, rb) == final(rt)@,
{
    reg_roundtrip(rt, SysReg::Imask, 0xAAAA_0000);
}

/// VID reads back a written routing value.
pub fn test_vid_readwrite<M: Hexagon>(rt: &mut Runtime<M>)
    ensures
        exists|saved: u32, rb: u32|
            #[trigger] old(rt)@.reg_roundtrip(SysReg::Vid, 5, saved, rb) == final(rt)@,
{
    reg_roundtrip(rt, SysReg::Vid, 5);
}

/// MODECTL shows thread 0 enabled.
pub fn test_modectl<M: Hexagon>(rt: &mut Runtime<M>)
    ensures
        exists|v: u32| #[trigger] old(rt)@.modectl_run(v) == final(rt)@,
{
    let modectl = rt.read_modectl();
    rt.check(modectl & 1 != 0, "modectl & 1 != 0");
    assert(old(rt)@.modectl_run(modectl) == rt@);
}

/// CFGBASE is non-zero.
pub fn test_cfgbase<M: Hexagon>(rt: &mut Runtime<M>)
    ensures
        exists|v: u32| #[trigger] old(rt)@.cfgbase_run(v) == final(rt)@,
{
    let cfgbase = rt.read_cfgbase();
    rt.check32_ne(cfgbase, 0);
    assert(old(rt)@.cfgbase_run(cfgbase) == rt@);
}

/// FRAMEKEY reads back a written key.
pub fn test_framekey<M: Hexagon>(rt: &mut Runtime<M>)
    ensures
        exists|saved: u32, rb: u32|
            #[trigger] old(rt)@.reg_roundtrip(SysReg::Framekey, 0xDEAD_BEEF, saved, rb) == final(rt)@,
{
    reg_roundtrip(rt, SysReg::Framekey, 0xDEAD_BEEF);
}

/// HTID of the main thread is 0.
pub fn test_htid<M: Hexagon>(rt: &mut Runtime<M>)
    ensures
        exists|v: u32| #[trigger] old(rt)@.htid_run(v) == final(rt)@,
{
    let htid = rt.read_htid();
    rt.check32(htid, 0);
    assert(old(rt)@.htid_run(htid) == rt@);
}

/// SGP0 and SGP1 read back written patterns.
pub fn test_sgp_readwrite<M: Hexagon>(rt: &mut Runtime<M>)
    ensures
        exists|s0: u32, s1: u32, rb0: u32, rb1: u32|
            #[trigger] old(rt)@.sgp_run(s0, s1, rb0, rb1) == final(rt)@,
{
    let saved_sgp0 = rt.read_sgp0();
    let saved_sgp1 = rt.read_sgp1();
    let test0: u32 = 0xAAAA_5555;
    let test1: u32 = 0x5555_AAAA;
    rt.write_sgp0(test0);
    rt.write_sgp1(test1);
    let rb0 = rt.read_sgp0();
    let rb1 = rt.read_sgp1();
    rt.check32(rb0, test0);
    rt.check32(rb1, test1);
    rt.write_sgp0(saved_sgp0);
    rt.write_sgp1(saved_sgp1);
    assert(old(rt)@.sgp_run(saved_sgp0, saved_sgp1, rb0, rb1) == rt@);
}

/// STID's low six bits read back a written value.
pub fn test_stid_readwrite<M: Hexagon>(rt: &mut Runtime<M>)
    ensures
        exists|saved: u32, rb: u32| #[trigger] old(rt)@.stid_rw_run(saved, rb) == final(rt)@,
{
    let saved = rt.read_stid();
    let test_val: u32 = 0x3F;
    rt.write_stid(test_val);
    let rb = rt.read_stid();
    assert(0x3Fu32 & 0x3F == 0x3F) by (bit_vector);
    rt.check32(rb & 0x3F, test_val & 0x3F);
    rt.write_stid(saved);
    assert(old(rt)@.stid_rw_run(saved, rb) == rt@);
}

/// Writing EVB (with its own value, so event dispatch keeps working) reads
/// back and stays 4K-aligned.
pub fn test_evb_write<M: Hexagon>(rt: &mut Runtime<M>)
    ensures
        exists|saved: u32, rb: u32| #[trigger] old(rt)@.evb_write_run(saved, rb) == final(rt)@,
{
    let saved = rt.read_evb();
    let test_evb = saved;
    rt.write_evb(test_evb);
    let rb = rt.read_evb();
    rt.check32(rb, test_evb);
    rt.check32(rb & 0xFFF, 0);
    rt.write_evb(saved);
    assert(old(rt)@.evb_write_run(saved, rb) == rt@);
}

/// BADVA and ELR are readable from supervisor mode.
pub fn test_badva_elr_direct<M: Hexagon>(rt: &mut Runtime<M>)
    ensures
        exists|badva: u32, elr: u32| #[trigger] old(rt)@.badva_elr_run(badva, elr) == final(rt)@,
{
    let badva = rt.read_badva();
    let elr = rt.read_elr();
    rt.check(badva & 0x0 == 0, "badva & 0x0 == 0");
    rt.check(elr & 0x0 == 0, "elr & 0x0 == 0");
    assert(old(rt)@.badva_elr_run(badva, elr) == rt@);
}

/// DIAG is readable.
pub fn test_diag<M: Hexagon>(rt: &mut Runtime<M>)
    ensures
        exists|v: u32| #[trigger] old(rt)@.diag_run(v) == final(rt)@,
{
    let diag = rt.read_diag();
    rt.check(diag | 0 == diag, "diag | 0 == diag");
    assert(old(rt)@.diag_run(diag) == rt@);
}

/// SSR.ASID is 0 at boot and reads back a written value.
pub fn test_ssr_asid<M: Hexagon>(rt: &mut Runtime<M>)
    ensures
        exists|ssr: u32, rb: u32| #[trigger] old(rt)@.ssr_asid_run(ssr, rb) == final(rt)@,
{
    let ssr = rt.read_ssr();
    let orig_asid = ssr_asid(ssr);
    rt.check32(orig_asid, 0);
    let new_ssr = ssr_with_asid(ssr, 0x42);
    rt.write_ssr(new_ssr);
    let rb = rt.read_ssr();
    let rb_asid = ssr_asid(rb);
    rt.check32(rb_asid, 0x42);
    rt.write_ssr(ssr);
    assert(old(rt)@.ssr_asid_run(ssr, rb) == rt@);
}

/// SYSCFG has dual-mode threading (bit 15) enabled.
pub fn test_syscfg_dmt<M: Hexagon>(rt: &mut Runtime<M>)
    ensures
        exists|v: u32| #[trigger] old(rt)@.syscfg_dmt_run(v) == final(rt)@,
{
    let syscfg = rt.read_syscfg();
    rt.check(syscfg & SYSCFG_DMT_EN != 0, "syscfg & (1 << 15) != 0");
    assert(old(rt)@.syscfg_dmt_run(syscfg) == rt@);
}

/// The tests of this suite.
#[derive(Clone, Copy)]
pub enum SysRegsTest {
    SsrInitial,
    Evb,
    Syscfg,
    ImaskReadwrite,
    VidReadwrite,
    Modectl,
    Cfgbase,
    Framekey,
    Htid,
    SgpReadwrite,
    StidReadwrite,
    EvbWrite,
    BadvaElrDirect,
    Diag,
    SsrAsid,
    SyscfgDmt,
}

impl TestCase for SysRegsTest {
    open spec fn runs(&self, pre: RunState, post: RunState) -> bool {
        match *self {
            SysRegsTest::SsrInitial => exists|v: u32| #[trigger] pre.ssr_initial_run(v) == post,
            SysRegsTest::Evb => exists|v: u32| #[trigger] pre.evb_run(v) == post,
            SysRegsTest::Syscfg => exists|v: u32| #[trigger] pre.syscfg_run(v) == post,
            SysRegsTest::ImaskReadwrite => exists|s: u32, r: u32|
                #[trigger] pre.reg_roundtrip(SysReg::Imask, 0xAAAA_0000, s, r) == post,
            SysRegsTest::VidReadwrite => exists|s: u32, r: u32|
                #[trigger] pre.reg_roundtrip(SysReg::Vid, 5, s, r) == post,
            SysRegsTest::Modectl => exists|v: u32| #[trigger] pre.modectl_run(v) == post,
            SysRegsTest::Cfgbase => exists|v: u32| #[trigger] pre.cfgbase_run(v) == post,
            SysRegsTest::Framekey => exists|s: u32, r: u32|
                #[trigger] pre.reg_roundtrip(SysReg::Framekey, 0xDEAD_BEEF, s, r) == post,
            SysRegsTest::Htid => exists|v: u32| #[trigger] pre.htid_run(v) == post,
            SysRegsTest::SgpReadwrite => exists|a: u32, b: u32, c: u32, d: u32|
                #[trigger] pre.sgp_run(a, b, c, d) == post,
            SysRegsTest::StidReadwrite => exists|s: u32, r: u32| #[trigger] pre.stid_rw_run(s, r) == post,
            SysRegsTest::EvbWrite => exists|s: u32, r: u32| #[trigger] pre.evb_write_run(s, r) == post,
            SysRegsTest::BadvaElrDirect => exists|a: u32, b: u32| #[trigger] pre.badva_elr_run(a, b) == post,
            SysRegsTest::Diag => exists|v: u32| #[trigger] pre.diag_run(v) == post,
            SysRegsTest::SsrAsid => exists|s: u32, r: u32| #[trigger] pre.ssr_asid_run(s, r) == post,
            SysRegsTest::SyscfgDmt => exists|v: u32| #[trigger] pre.syscfg_dmt_run(v) == post,
        }
    }

    open spec fn aborts(&self, pre: RunState, post: RunState, f: Fatal) -> bool {
        false
    }

    open spec fn at(&self) -> &'static str {
        match *self {
            SysRegsTest::SsrInitial => "src/suites/sys_regs.rs:test_ssr_initial",
            SysRegsTest::Evb => "src/suites/sys_regs.rs:test_evb",
            SysRegsTest::Syscfg => "src/suites/sys_regs.rs:test_syscfg",
            SysRegsTest::ImaskReadwrite => "src/suites/sys_regs.rs:test_imask_readwrite",
            SysRegsTest::VidReadwrite => "src/suites/sys_regs.rs:test_vid_readwrite",
            SysRegsTest::Modectl => "src/suites/sys_regs.rs:test_modectl",
            SysRegsTest::Cfgbase => "src/suites/sys_regs.rs:test_cfgbase",
            SysRegsTest::Framekey => "src/suites/sys_regs.rs:test_framekey",
            SysRegsTest::Htid => "src/suites/sys_regs.rs:test_htid",
            SysRegsTest::SgpReadwrite => "src/suites/sys_regs.rs:test_sgp_readwrite",
            SysRegsTest::StidReadwrite => "src/suites/sys_regs.rs:test_stid_readwrite",
            SysRegsTest::EvbWrite => "src/suites/sys_regs.rs:test_evb_write",
            SysRegsTest::BadvaElrDirect => "src/suites/sys_regs.rs:test_badva_elr_direct",
            SysRegsTest::Diag => "src/suites/sys_regs.rs:test_diag",
            SysRegsTest::SsrAsid => "src/suites/sys_regs.rs:test_ssr_asid",
            SysRegsTest::SyscfgDmt => "src/suites/sys_regs.rs:test_syscfg_dmt",
        }
    }

    fn location(&self) -> (at: &'static str) {
        match *self {
            SysRegsTest::SsrInitial => "src/suites/sys_regs.rs:test_ssr_initial",
            SysRegsTest::Evb => "src/suites/sys_regs.rs:test_evb",
            SysRegsTest::Syscfg => "src/suites/sys_regs.rs:test_syscfg",
            SysRegsTest::ImaskReadwrite => "src/suites/sys_regs.rs:test_imask_readwrite",
            SysRegsTest::VidReadwrite => "src/suites/sys_regs.rs:test_vid_readwrite",
            SysRegsTest::Modectl => "src/suites/sys_regs.rs:test_modectl",
            SysRegsTest::Cfgbase => "src/suites/sys_regs.rs:test_cfgbase",
            SysRegsTest::Framekey => "src/suites/sys_regs.rs:test_framekey",
            SysRegsTest::Htid => "src/suites/sys_regs.rs:test_htid",
            SysRegsTest::SgpReadwrite => "src/suites/sys_regs.rs:test_sgp_readwrite",
            SysRegsTest::StidReadwrite => "src/suites/sys_regs.rs:test_stid_readwrite",
            SysRegsTest::EvbWrite => "src/suites/sys_regs.rs:test_evb_write",
            SysRegsTest::BadvaElrDirect => "src/suites/sys_regs.rs:test_badva_elr_direct",
            SysRegsTest::Diag => "src/suites/sys_regs.rs:test_diag",
            SysRegsTest::SsrAsid => "src/suites/sys_regs.rs:test_ssr_asid",
            SysRegsTest::SyscfgDmt => "src/suites/sys_regs.rs:test_syscfg_dmt",
        }
    }

    fn run<M: Hexagon>(&self, rt: &mut Runtime<M>) -> (r: Result<(), Fatal>) {
        match *self {
            SysRegsTest::SsrInitial => {
                test_ssr_initial(rt);
                Ok(())
            },
            SysRegsTest::Evb => {
                test_evb(rt);
                Ok(())
            },
            SysRegsTest::Syscfg => {
                test_syscfg(rt);
                Ok(())
            },
            SysRegsTest::ImaskReadwrite => {
                test_imask_readwrite(rt);
                Ok(())
            },
            SysRegsTest::VidReadwrite => {
                test_vid_readwrite(rt);
                Ok(())
            },
            SysRegsTest::Modectl => {
                test_modectl(rt);
                Ok(())
            },
            SysRegsTest::Cfgbase => {
                test_cfgbase(rt);
                Ok(())
            },
            SysRegsTest::Framekey => {
                test_framekey(rt);
                Ok(())
            },
            SysRegsTest::Htid => {
                test_htid(rt);
                Ok(())
            },
            SysRegsTest::SgpReadwrite => {
                test_sgp_readwrite(rt);
                Ok(())
            },
            SysRegsTest::StidReadwrite => {
                test_stid_readwrite(rt);
                Ok(())
            },
            SysRegsTest::EvbWrite => {
                test_evb_write(rt);
                Ok(())
            },
            SysRegsTest::BadvaElrDirect => {
                test_badva_elr_direct(rt);
                Ok(())
            },
            SysRegsTest::Diag => {
                test_diag(rt);
                Ok(())
            },
            SysRegsTest::SsrAsid => {
                test_ssr_asid(rt);
                Ok(())
            },
            SysRegsTest::SyscfgDmt => {
                test_syscfg_dmt(rt);
                Ok(())
            },
        }
    }
}

/// The suite's tests, in the order they run.
pub open spec fn sys_regs_tests() -> Seq<(&'static str, SysRegsTest)> {
    seq![
        ("ssr_initial", SysRegsTest::SsrInitial),
        ("evb", SysRegsTest::Evb),
        ("syscfg", SysRegsTest::Syscfg),
        ("imask_readwrite", SysRegsTest::ImaskReadwrite),
        ("vid_readwrite", SysRegsTest::VidReadwrite),
        ("modectl", SysRegsTest::Modectl),
        ("cfgbase", SysRegsTest::Cfgbase),
        ("framekey", SysRegsTest::Framekey),
        ("htid", SysRegsTest::Htid),
        ("sgp_readwrite", SysRegsTest::SgpReadwrite),
        ("stid_readwrite", SysRegsTest::StidReadwrite),
        ("evb_write", SysRegsTest::EvbWrite),
        ("badva_elr_direct", SysRegsTest::BadvaElrDirect),
        ("diag", SysRegsTest::Diag),
        ("ssr_asid", SysRegsTest::SsrAsid),
        ("syscfg_dmt", SysRegsTest::SyscfgDmt),
    ]
}

/// Run the system register suite and return its error count.
pub fn rust_main<M: Hexagon>(rt: &mut Runtime<M>) -> (code: i32)
    ensures
        old(rt)@.suite_begin("System Registers").suite_ran(sys_regs_tests(), final(rt)@, code),
{
    rt.test_suite_begin("System Registers");
    let tests = [
        ("ssr_initial", SysRegsTest::SsrInitial),
        ("evb", SysRegsTest::Evb),
        ("syscfg", SysRegsTest::Syscfg),
        ("imask_readwrite", SysRegsTest::ImaskReadwrite),
        ("vid_readwrite", SysRegsTest::VidReadwrite),
        ("modectl", SysRegsTest::Modectl),
        ("cfgbase", SysRegsTest::Cfgbase),
        ("framekey", SysRegsTest::Framekey),
        ("htid", SysRegsTest::Htid),
        ("sgp_readwrite", SysRegsTest::SgpReadwrite),
        ("stid_readwrite", SysRegsTest::StidReadwrite),
        ("evb_write", SysRegsTest::EvbWrite),
        ("badva_elr_direct", SysRegsTest::BadvaElrDirect),
        ("diag", SysRegsTest::Diag),
        ("ssr_asid", SysRegsTest::SsrAsid),
        ("syscfg_dmt", SysRegsTest::SyscfgDmt),
    ];
    assert(tests@ =~= sys_regs_tests());
    rt.run_suite(&tests)
}

/// The tests of this suite: each records exactly one error
/// for every expectation that fails and none for those that hold.  The
/// expectations of each test are the conditions counted below, over what
/// the hardware answered.
#[verifier::rlimit(80)]
#[verifier::spinoff_prover]
pub proof fn law_sys_regs_tests_count_failed_expectations()
    ensures
        forall|s: RunState, ssr: u32|
            #[trigger] s.ssr_initial_run(ssr).recorded() == s.recorded()
                + (if ssr & SSR_UM == 0 { 0nat } else { 1nat })
                + (if ssr & SSR_IE != 0 { 0nat } else { 1nat })
                + (if ssr & SSR_XE != 0 { 0nat } else { 1nat })
                + (if ssr_asid_spec(ssr) == 0 { 0nat } else { 1nat }),
        forall|s: RunState, evb: u32|
            #[trigger] s.evb_run(evb).recorded() == s.recorded()
                + (if evb != 0 { 0nat } else { 1nat })
                + (if evb & 0xFFF == 0 { 0nat } else { 1nat }),
        forall|s: RunState, syscfg: u32|
            #[trigger] s.syscfg_run(syscfg).recorded() == s.recorded()
                + (if syscfg & SYSCFG_MMU_EN != 0 { 0nat } else { 1nat })
                + (if syscfg & SYSCFG_ICACHE_EN != 0 { 0nat } else { 1nat })
                + (if syscfg & SYSCFG_INT_EN != 0 { 0nat } else { 1nat })
                + (if syscfg & SYSCFG_PCYCLE_EN != 0 { 0nat } else { 1nat }),
        forall|s: RunState, modectl: u32|
            #[trigger] s.modectl_run(modectl).recorded() == s.recorded()
                + (if modectl & 1 != 0 { 0nat } else { 1nat }),
        forall|s: RunState, cfgbase: u32|
            #[trigger] s.cfgbase_run(cfgbase).recorded() == s.recorded()
                + (if cfgbase != 0 { 0nat } else { 1nat }),
        forall|s: RunState, htid: u32|
            #[trigger] s.htid_run(htid).recorded() == s.recorded()
                + (if htid == 0 { 0nat } else { 1nat }),
        forall|s: RunState, s0: u32, s1: u32, rb0: u32, rb1: u32|
            #[trigger] s.sgp_run(s0, s1, rb0, rb1).recorded() == s.recorded()
                + (if rb0 == 0xAAAA_5555 { 0nat } else { 1nat })
                + (if rb1 == 0x5555_AAAA { 0nat } else { 1nat }),
        forall|s: RunState, saved: u32, rb: u32|
            #[trigger] s.stid_rw_run(saved, rb).recorded() == s.recorded()
                + (if rb & 0x3F == 0x3F { 0nat } else { 1nat }),
        forall|s: RunState, saved: u32, rb: u32|
            #[trigger] s.evb_write_run(saved, rb).recorded() == s.recorded()
                + (if rb == saved { 0nat } else { 1nat })
                + (if rb & 0xFFF == 0 { 0nat } else { 1nat }),
        forall|s: RunState, badva: u32, elr: u32|
            #[trigger] s.badva_elr_run(badva, elr).recorded() == s.recorded()
                + (if badva & 0 == 0 { 0nat } else { 1nat })
                + (if elr & 0 == 0 { 0nat } else { 1nat }),
        forall|s: RunState, diag: u32|
            #[trigger] s.diag_run(diag).recorded() == s.recorded()
                + (if diag | 0 == diag { 0nat } else { 1nat }),
        forall|s: RunState, ssr: u32, rb: u32|
            #[trigger] s.ssr_asid_run(ssr, rb).recorded() == s.recorded()
                + (if ssr_asid_spec(ssr) == 0 { 0nat } else { 1nat })
                + (if ssr_asid_spec(rb) == 0x42 { 0nat } else { 1nat }),
        forall|s: RunState, syscfg: u32|
            #[trigger] s.syscfg_dmt_run(syscfg).recorded() == s.recorded()
                + (if syscfg & SYSCFG_DMT_EN != 0 { 0nat } else { 1nat }),
{
    broadcast use crate::report::group_recorded;

    assert forall|s: RunState, ssr: u32|
        #[trigger] s.ssr_initial_run(ssr).recorded() == s.recorded()
            + (if ssr & SSR_UM == 0 { 0nat } else { 1nat })
            + (if ssr & SSR_IE != 0 { 0nat } else { 1nat })
            + (if ssr & SSR_XE != 0 { 0nat } else { 1nat })
            + (if ssr_asid_spec(ssr) == 0 { 0nat } else { 1nat }) by {}
    assert forall|s: RunState, evb: u32|
        #[trigger] s.evb_run(evb).recorded() == s.recorded()
            + (if evb != 0 { 0nat } else { 1nat })
            + (if evb & 0xFFF == 0 { 0nat } else { 1nat }) by {}
    assert forall|s: RunState, syscfg: u32|
        #[trigger] s.syscfg_run(syscfg).recorded() == s.recorded()
            + (if syscfg & SYSCFG_MMU_EN != 0 { 0nat } else { 1nat })
            + (if syscfg & SYSCFG_ICACHE_EN != 0 { 0nat } else { 1nat })
            + (if syscfg & SYSCFG_INT_EN != 0 { 0nat } else { 1nat })
            + (if syscfg & SYSCFG_PCYCLE_EN != 0 { 0nat } else { 1nat }) by {}
    assert forall|s: RunState, modectl: u32|
        #[trigger] s.modectl_run(modectl).recorded() == s.recorded()
            + (if modectl & 1 != 0 { 0nat } else { 1nat }) by {}
    assert forall|s: RunState, cfgbase: u32|
        #[trigger] s.cfgbase_run(cfgbase).recorded() == s.recorded()
            + (if cfgbase != 0 { 0nat } else { 1nat }) by {}
    assert forall|s: RunState, htid: u32|
        #[trigger] s.htid_run(htid).recorded() == s.recorded()
            + (if htid == 0 { 0nat } else { 1nat }) by {}
    assert forall|s: RunState, s0: u32, s1: u32, rb0: u32, rb1: u32|
        #[trigger] s.sgp_run(s0, s1, rb0, rb1).recorded() == s.recorded()
            + (if rb0 == 0xAAAA_5555 { 0nat } else { 1nat })
            + (if rb1 == 0x5555_AAAA { 0nat } else { 1nat }) by {}
    assert forall|s: RunState, saved: u32, rb: u32|
        #[trigger] s.stid_rw_run(saved, rb).recorded() == s.recorded()
            + (if rb & 0x3F == 0x3F { 0nat } else { 1nat }) by {}
    assert forall|s: RunState, saved: u32, rb: u32|
        #[trigger] s.evb_write_run(saved, rb).recorded() == s.recorded()
            + (if rb == saved { 0nat } else { 1nat })
            + (if rb & 0xFFF == 0 { 0nat } else { 1nat }) by {}
    assert forall|s: RunState, badva: u32, elr: u32|
        #[trigger] s.badva_elr_run(badva, elr).recorded() == s.recorded()
            + (if badva & 0 == 0 { 0nat } else { 1nat })
            + (if elr & 0 == 0 { 0nat } else { 1nat }) by {}
    assert forall|s: RunState, diag: u32|
        #[trigger] s.diag_run(diag).recorded() == s.recorded()
            + (if diag | 0 == diag { 0nat } else { 1nat }) by {}
    assert forall|s: RunState, ssr: u32, rb: u32|
        #[trigger] s.ssr_asid_run(ssr, rb).recorded() == s.recorded()
            + (if ssr_asid_spec(ssr) == 0 { 0nat } else { 1nat })
            + (if ssr_asid_spec(rb) == 0x42 { 0nat } else { 1nat }) by {}
    assert forall|s: RunState, syscfg: u32|
        #[trigger] s.syscfg_dmt_run(syscfg).recorded() == s.recorded()
            + (if syscfg & SYSCFG_DMT_EN != 0 { 0nat } else { 1nat }) by {}
}

} // verus!
