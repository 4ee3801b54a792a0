//! Monitor/guest virtualization register tests: SSR.GM, CCR and the guest
//! registers GELR, GSR, GOSP and GBADVA, accessed from monitor mode.

use vstd::prelude::*;
use crate::machine::{Hexagon, RunState, Runtime, SysReg};
use crate::regs::{CCR_GEE, CCR_GIE, CCR_GRE, CCR_GTE, CCR_VV1, SSR_GM};
use crate::report::{Fatal, TestCase};
use crate::suites::common::{bit_toggle, reg_roundtrip, reg_roundtrip_masked};

verus! {

/// The four guest enable bits of CCR.
pub open spec fn ccr_guest_bits() -> u32 {
    CCR_GIE | CCR_GTE | CCR_GEE | CCR_GRE
}

impl RunState {
    pub open spec fn not_in_guest_mode_run(self, ssr: u32) -> RunState {
        self.rd(SysReg::Ssr, ssr).check(ssr & SSR_GM == 0, "ssr & SSR_GM == 0")
    }

    pub open spec fn ssr_gm_bit_run(self, ssr: u32, rb: u32, fin: u32) -> RunState {
        self.rd(SysReg::Ssr, ssr).check(ssr & SSR_GM == 0, "ssr & SSR_GM == 0").wr(SysReg::Ssr, ssr | SSR_GM).rd(
            SysReg::Ssr,
            rb,
        ).wr(SysReg::Ssr, ssr & !SSR_GM).rd(SysReg::Ssr, fin).check(
            fin & SSR_GM == 0,
            "final_ssr & SSR_GM == 0",
        )
    }

    pub open spec fn ccr_readwrite_run(self, ccr: u32, rb1: u32, rb2: u32, restored: u32) -> RunState {
        self.rd(SysReg::Ccr, ccr).wr(SysReg::Ccr, ccr | CCR_GIE).rd(SysReg::Ccr, rb1).check(
            rb1 & CCR_GIE != 0,
            "readback & CCR_GIE != 0",
        ).wr(SysReg::Ccr, ccr | CCR_GTE).rd(SysReg::Ccr, rb2).check(
            rb2 & CCR_GTE != 0,
            "readback2 & CCR_GTE != 0",
        ).wr(SysReg::Ccr, ccr).rd(SysReg::Ccr, restored).check32(restored, ccr)
    }

    pub open spec fn ccr_gie_bits_run(self, ccr: u32, rb1: u32, rb2: u32) -> RunState {
        self.rd(SysReg::Ccr, ccr).wr(SysReg::Ccr, ccr | ccr_guest_bits()).rd(SysReg::Ccr, rb1).check(
            rb1 & ccr_guest_bits() == ccr_guest_bits(),
            "readback & guest_bits == guest_bits",
        ).wr(SysReg::Ccr, ccr & !ccr_guest_bits()).rd(SysReg::Ccr, rb2).check(
            rb2 & ccr_guest_bits() == 0,
            "readback2 & guest_bits == 0",
        ).wr(SysReg::Ccr, ccr)
    }
}

/// We are not in guest mode: SSR.GM = 0.
pub fn test_not_in_guest_mode<M: Hexagon>(rt: &mut Runtime<M>)
    ensures
        exists|v: u32| #[trigger] old(rt)@.not_in_guest_mode_run(v) == final(rt)@,
{
    let ssr = rt.read_ssr();
    rt.check(ssr & SSR_GM == 0, "ssr & SSR_GM == 0");
    assert(old(rt)@.not_in_guest_mode_run(ssr) == rt@);
}

/// SSR.GM is writable from monitor mode (writing it without `rte` does not
/// enter guest mode) and reads back clear after being cleared.
pub fn test_ssr_gm_bit<M: Hexagon>(rt: &mut Runtime<M>)
    ensures
        exists|v: u32, rb: u32, f: u32| #[trigger] old(rt)@.ssr_gm_bit_run(v, rb, f) == final(rt)@,
{
    let ssr = rt.read_ssr();
    rt.check(ssr & SSR_GM == 0, "ssr & SSR_GM == 0");
    rt.write_ssr(ssr | SSR_GM);
    let readback = rt.read_ssr();
    rt.write_ssr(ssr & !SSR_GM);
    let final_ssr = rt.read_ssr();
    rt.check(final_ssr & SSR_GM == 0, "final_ssr & SSR_GM == 0");
    assert(old(rt)@.ssr_gm_bit_run(ssr, readback, final_ssr) == rt@);
}

/// CCR's GIE and GTE bits can be set, and CCR restores.
pub fn test_ccr_readwrite<M: Hexagon>(rt: &mut Runtime<M>)
    ensures
        exists|c: u32, a: u32, b: u32, r: u32| #[trigger] old(rt)@.ccr_readwrite_run(c, a, b, r) == final(rt)@,
{
    let ccr = rt.read_ccr();
    rt.write_ccr(ccr | CCR_GIE);
    let readback = rt.read_ccr();
    rt.check(readback & CCR_GIE != 0, "readback & CCR_GIE != 0");
    rt.write_ccr(ccr | CCR_GTE);
    let readback2 = rt.read_ccr();
    rt.check(readback2 & CCR_GTE != 0, "readback2 & CCR_GTE != 0");
    rt.write_ccr(ccr);
    let restored = rt.read_ccr();
    rt.check32(restored, ccr);
    assert(old(rt)@.ccr_readwrite_run(ccr, readback, readback2, restored) == rt@);
}

/// The guest enable bits of CCR (GIE, GTE, GEE, GRE) can all be set and
/// all be cleared.
pub fn test_ccr_gie_bits<M: Hexagon>(rt: &mut Runtime<M>)
    ensures
        exists|c: u32, a: u32, b: u32| #[trigger] old(rt)@.ccr_gie_bits_run(c, a, b) == final(rt)@,
{
    let ccr = rt.read_ccr();
    let guest_bits = CCR_GIE | CCR_GTE | CCR_GEE | CCR_GRE;
    rt.write_ccr(ccr | guest_bits);
    let readback = rt.read_ccr();
    rt.check(readback & guest_bits == guest_bits, "readback & guest_bits == guest_bits");
    rt.write_ccr(ccr & !guest_bits);
    let readback2 = rt.read_ccr();
    rt.check(readback2 & guest_bits == 0, "readback2 & guest_bits == 0");
    rt.write_ccr(ccr);
    assert(old(rt)@.ccr_gie_bits_run(ccr, readback, readback2) == rt@);
}

/// VID reads back a written value.
pub fn test_vid_register<M: Hexagon>(rt: &mut Runtime<M>)
    ensures
        exists|s: u32, r: u32| #[trigger] old(rt)@.reg_roundtrip(SysReg::Vid, 0xAA, s, r) == final(rt)@,
{
    reg_roundtrip(rt, SysReg::Vid, 0xAA);
}

/// MODECTL shows thread 0 enabled.
pub fn test_modectl_register<M: Hexagon>(rt: &mut Runtime<M>)
    ensures
        exists|v: u32| #[trigger] old(rt)@.modectl_run(v) == final(rt)@,
{
    crate::suites::sys_regs::test_modectl(rt);
}

/// GELR reads back a written value.
pub fn test_gelr_readwrite<M: Hexagon>(rt: &mut Runtime<M>)
    ensures
        exists|s: u32, r: u32| #[trigger] old(rt)@.reg_roundtrip(SysReg::Gelr, 0x1000, s, r) == final(rt)@,
{
    reg_roundtrip(rt, SysReg::Gelr, 0x1000);
}

/// GSR's cause field (bits 7:0) reads back a written value.
pub fn test_gsr_readwrite<M: Hexagon>(rt: &mut Runtime<M>)
    ensures
        exists|s: u32, r: u32|
            #[trigger] old(rt)@.reg_roundtrip_masked(SysReg::Gsr, 0x12, 0xFF, s, r) == final(rt)@,
{
    reg_roundtrip_masked(rt, SysReg::Gsr, 0x12, 0xFF);
}

/// GOSP reads back a written value.
pub fn test_gosp_readwrite<M: Hexagon>(rt: &mut Runtime<M>)
    ensures
        exists|s: u32, r: u32|
            #[trigger] old(rt)@.reg_roundtrip(SysReg::Gosp, 0xABCD_0000, s, r) == final(rt)@,
{
    reg_roundtrip(rt, SysReg::Gosp, 0xABCD_0000);
}

/// GBADVA reads back a written value.
pub fn test_gbadva_readwrite<M: Hexagon>(rt: &mut Runtime<M>)
    ensures
        exists|s: u32, r: u32|
            #[trigger] old(rt)@.reg_roundtrip(SysReg::Gbadva, 0xDEAD_0000, s, r) == final(rt)@,
{
    reg_roundtrip(rt, SysReg::Gbadva, 0xDEAD_0000);
}

/// CCR.VV1 can be set and cleared.
pub fn test_ccr_vv1_bit<M: Hexagon>(rt: &mut Runtime<M>)
    ensures
        exists|v: u32, a: u32, b: u32|
            #[trigger] old(rt)@.bit_toggle(
                SysReg::Ccr,
                CCR_VV1,
                "rb & CCR_VV1 != 0",
                "rb2 & CCR_VV1 == 0",
                v,
                a,
                b,
            ) == final(rt)@,
{
    bit_toggle(rt, SysReg::Ccr, CCR_VV1, "rb & CCR_VV1 != 0", "rb2 & CCR_VV1 == 0");
}

/// The tests of this suite.
#[derive(Clone, Copy)]
pub enum GuestModeTest {
    NotInGuestMode,
    SsrGmBit,
    CcrReadwrite,
    CcrGieBits,
    VidRegister,
    ModectlRegister,
    GelrReadwrite,
    GsrReadwrite,
    GospReadwrite,
    GbadvaReadwrite,
    CcrVv1Bit,
}

impl TestCase for GuestModeTest {
    open spec fn runs(&self, pre: RunState, post: RunState) -> bool {
        match *self {
            GuestModeTest::NotInGuestMode => exists|v: u32| #[trigger] pre.not_in_guest_mode_run(v) == post,
            GuestModeTest::SsrGmBit => exists|v: u32, rb: u32, f: u32|
                #[trigger] pre.ssr_gm_bit_run(v, rb, f) == post,
            GuestModeTest::CcrReadwrite => exists|c: u32, a: u32, b: u32, r: u32|
                #[trigger] pre.ccr_readwrite_run(c, a, b, r) == post,
            GuestModeTest::CcrGieBits => exists|c: u32, a: u32, b: u32|
                #[trigger] pre.ccr_gie_bits_run(c, a, b) == post,
            GuestModeTest::VidRegister => exists|s: u32, r: u32|
                #[trigger] pre.reg_roundtrip(SysReg::Vid, 0xAA, s, r) == post,
            GuestModeTest::ModectlRegister => exists|v: u32| #[trigger] pre.modectl_run(v) == post,
            GuestModeTest::GelrReadwrite => exists|s: u32, r: u32|
                #[trigger] pre.reg_roundtrip(SysReg::Gelr, 0x1000, s, r) == post,
            GuestModeTest::GsrReadwrite => exists|s: u32, r: u32|
                #[trigger] pre.reg_roundtrip_masked(SysReg::Gsr, 0x12, 0xFF, s, r) == post,
            GuestModeTest::GospReadwrite => exists|s: u32, r: u32|
                #[trigger] pre.reg_roundtrip(SysReg::Gosp, 0xABCD_0000, s, r) == post,
            GuestModeTest::GbadvaReadwrite => exists|s: u32, r: u32|
                #[trigger] pre.reg_roundtrip(SysReg::Gbadva, 0xDEAD_0000, s, r) == post,
            GuestModeTest::CcrVv1Bit => exists|v: u32, a: u32, b: u32|
                #[trigger] pre.bit_toggle(
                    SysReg::Ccr,
                    CCR_VV1,
                    "rb & CCR_VV1 != 0",
                    "rb2 & CCR_VV1 == 0",
                    v,
                    a,
                    b,
                ) == post,
        }
    }

    open spec fn aborts(&self, pre: RunState, post: RunState, f: Fatal) -> bool {
        false
    }

    open spec fn at(&self) -> &'static str {
        match *self {
            GuestModeTest::NotInGuestMode => "src/suites/guest_mode.rs:test_not_in_guest_mode",
            GuestModeTest::SsrGmBit => "src/suites/guest_mode.rs:test_ssr_gm_bit",
            GuestModeTest::CcrReadwrite => "src/suites/guest_mode.rs:test_ccr_readwrite",
            GuestModeTest::CcrGieBits => "src/suites/guest_mode.rs:test_ccr_gie_bits",
            GuestModeTest::VidRegister => "src/suites/guest_mode.rs:test_vid_register",
            GuestModeTest::ModectlRegister => "src/suites/guest_mode.rs:test_modectl_register",
            GuestModeTest::GelrReadwrite => "src/suites/guest_mode.rs:test_gelr_readwrite",
            GuestModeTest::GsrReadwrite => "src/suites/guest_mode.rs:test_gsr_readwrite",
            GuestModeTest::GospReadwrite => "src/suites/guest_mode.rs:test_gosp_readwrite",
            GuestModeTest::GbadvaReadwrite => "src/suites/guest_mode.rs:test_gbadva_readwrite",
            GuestModeTest::CcrVv1Bit => "src/suites/guest_mode.rs:test_ccr_vv1_bit",
        }
    }

    fn location(&self) -> (at: &'static str) {
        match *self {
            GuestModeTest::NotInGuestMode => "src/suites/guest_mode.rs:test_not_in_guest_mode",
            GuestModeTest::SsrGmBit => "src/suites/guest_mode.rs:test_ssr_gm_bit",
            GuestModeTest::CcrReadwrite => "src/suites/guest_mode.rs:test_ccr_readwrite",
            GuestModeTest::CcrGieBits => "src/suites/guest_mode.rs:test_ccr_gie_bits",
            GuestModeTest::VidRegister => "src/suites/guest_mode.rs:test_vid_register",
            GuestModeTest::ModectlRegister => "src/suites/guest_mode.rs:test_modectl_register",
            GuestModeTest::GelrReadwrite => "src/suites/guest_mode.rs:test_gelr_readwrite",
            GuestModeTest::GsrReadwrite => "src/suites/guest_mode.rs:test_gsr_readwrite",
            GuestModeTest::GospReadwrite => "src/suites/guest_mode.rs:test_gosp_readwrite",
            GuestModeTest::GbadvaReadwrite => "src/suites/guest_mode.rs:test_gbadva_readwrite",
            GuestModeTest::CcrVv1Bit => "src/suites/guest_mode.rs:test_ccr_vv1_bit",
        }
    }

    fn run<M: Hexagon>(&self, rt: &mut Runtime<M>) -> (r: Result<(), Fatal>) {
        match *self {
            GuestModeTest::NotInGuestMode => {
                test_not_in_guest_mode(rt);
                Ok(())
            },
            GuestModeTest::SsrGmBit => {
                test_ssr_gm_bit(rt);
                Ok(())
            },
            GuestModeTest::CcrReadwrite => {
                test_ccr_readwrite(rt);
                Ok(())
            },
            GuestModeTest::CcrGieBits => {
                test_ccr_gie_bits(rt);
                Ok(())
            },
            GuestModeTest::VidRegister => {
                test_vid_register(rt);
                Ok(())
            },
            GuestModeTest::ModectlRegister => {
                test_modectl_register(rt);
                Ok(())
            },
            GuestModeTest::GelrReadwrite => {
                test_gelr_readwrite(rt);
                Ok(())
            },
            GuestModeTest::GsrReadwrite => {
                test_gsr_readwrite(rt);
                Ok(())
            },
            GuestModeTest::GospReadwrite => {
                test_gosp_readwrite(rt);
                Ok(())
            },
            GuestModeTest::GbadvaReadwrite => {
                test_gbadva_readwrite(rt);
                Ok(())
            },
            GuestModeTest::CcrVv1Bit => {
                test_ccr_vv1_bit(rt);
                Ok(())
            },
        }
    }
}

/// The suite's tests, in the order they run.
pub open spec fn guest_mode_tests() -> Seq<(&'static str, GuestModeTest)> {
    seq![
        ("not_in_guest_mode", GuestModeTest::NotInGuestMode),
        ("ssr_gm_bit", GuestModeTest::SsrGmBit),
        ("ccr_readwrite", GuestModeTest::CcrReadwrite),
        ("ccr_gie_bits", GuestModeTest::CcrGieBits),
        ("vid_register", GuestModeTest::VidRegister),
        ("modectl_register", GuestModeTest::ModectlRegister),
        ("gelr_readwrite", GuestModeTest::GelrReadwrite),
        ("gsr_readwrite", GuestModeTest::GsrReadwrite),
        ("gosp_readwrite", GuestModeTest::GospReadwrite),
        ("gbadva_readwrite", GuestModeTest::GbadvaReadwrite),
        ("ccr_vv1_bit", GuestModeTest::CcrVv1Bit),
    ]
}

/// Run the guest mode suite and return its error count.
pub fn rust_main<M: Hexagon>(rt: &mut Runtime<M>) -> (code: i32)
    ensures
        old(rt)@.suite_begin("Guest Mode / Virtualization").suite_ran(guest_mode_tests(), final(rt)@, code),
{
    rt.test_suite_begin("Guest Mode / Virtualization");
    let tests = [
        ("not_in_guest_mode", GuestModeTest::NotInGuestMode),
        ("ssr_gm_bit", GuestModeTest::SsrGmBit),
        ("ccr_readwrite", GuestModeTest::CcrReadwrite),
        ("ccr_gie_bits", GuestModeTest::CcrGieBits),
        ("vid_register", GuestModeTest::VidRegister),
        ("modectl_register", GuestModeTest::ModectlRegister),
        ("gelr_readwrite", GuestModeTest::GelrReadwrite),
        ("gsr_readwrite", GuestModeTest::GsrReadwrite),
        ("gosp_readwrite", GuestModeTest::GospReadwrite),
        ("gbadva_readwrite", GuestModeTest::GbadvaReadwrite),
        ("ccr_vv1_bit", GuestModeTest::CcrVv1Bit),
    ];
    assert(tests@ =~= guest_mode_tests());
    rt.run_suite(&tests)
}

/// The tests of this suite: each records exactly one error
/// for every expectation that fails and none for those that hold.  The
/// expectations of each test are the conditions counted below, over what
/// the hardware answered.
#[verifier::rlimit(80)]
#[verifier::spinoff_prover]
pub proof fn law_guest_mode_tests_count_failed_expectations()
    ensures
        forall|s: RunState, ssr: u32|
            #[trigger] s.not_in_guest_mode_run(ssr).recorded() == s.recorded()
                + (if ssr & SSR_GM == 0 { 0nat } else { 1nat }),
        forall|s: RunState, ssr: u32, rb: u32, fin: u32|
            #[trigger] s.ssr_gm_bit_run(ssr, rb, fin).recorded() == s.recorded()
                + (if ssr & SSR_GM == 0 { 0nat } else { 1nat })
                + (if fin & SSR_GM == 0 { 0nat } else { 1nat }),
        forall|s: RunState, ccr: u32, rb1: u32, rb2: u32, restored: u32|
            #[trigger] s.ccr_readwrite_run(ccr, rb1, rb2, restored).recorded() == s.recorded()
                + (if rb1 & CCR_GIE != 0 { 0nat } else { 1nat })
                + (if rb2 & CCR_GTE != 0 { 0nat } else { 1nat })
                + (if restored == ccr { 0nat } else { 1nat }),
        forall|s: RunState, ccr: u32, rb1: u32, rb2: u32|
            #[trigger] s.ccr_gie_bits_run(ccr, rb1, rb2).recorded() == s.recorded()
                + (if rb1 & ccr_guest_bits() == ccr_guest_bits() { 0nat } else { 1nat })
                + (if rb2 & ccr_guest_bits() == 0 { 0nat } else { 1nat }),
{
    broadcast use crate::report::group_recorded;

    assert forall|s: RunState, ssr: u32|
        #[trigger] s.not_in_guest_mode_run(ssr).recorded() == s.recorded()
            + (if ssr & SSR_GM == 0 { 0nat } else { 1nat }) by {}
    assert forall|s: RunState, ssr: u32, rb: u32, fin: u32|
        #[trigger] s.ssr_gm_bit_run(ssr, rb, fin).recorded() == s.recorded()
            + (if ssr & SSR_GM == 0 { 0nat } else { 1nat })
            + (if fin & SSR_GM == 0 { 0nat } else { 1nat }) by {}
    assert forall|s: RunState, ccr: u32, rb1: u32, rb2: u32, restored: u32|
        #[trigger] s.ccr_readwrite_run(ccr, rb1, rb2, restored).recorded() == s.recorded()
            + (if rb1 & CCR_GIE != 0 { 0nat } else { 1nat })
            + (if rb2 & CCR_GTE != 0 { 0nat } else { 1nat })
            + (if restored == ccr { 0nat } else { 1nat }) by {}
    assert forall|s: RunState, ccr: u32, rb1: u32, rb2: u32|
        #[trigger] s.ccr_gie_bits_run(ccr, rb1, rb2).recorded() == s.recorded()
            + (if rb1 & ccr_guest_bits() == ccr_guest_bits() { 0nat } else { 1nat })
            + (if rb2 & ccr_guest_bits() == 0 { 0nat } else { 1nat }) by {}
}

} // verus!
