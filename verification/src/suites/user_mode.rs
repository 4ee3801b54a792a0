//! Privilege mode tests: SSR privilege bits and the `trap0(#1)` exit-user-mode
//! handler path taken from supervisor mode.

use vstd::prelude::*;
use crate::machine::{Ev, Hexagon, RunState, Runtime, SysReg, TrapKind};
use crate::regs::{SSR_CE, SSR_IE, SSR_PE, SSR_UM, SSR_XE};
use crate::report::{Fatal, TestCase};
use crate::suites::common::bit_toggle;

verus! {

impl RunState {
    pub open spec fn supervisor_mode_run(self, ssr: u32) -> RunState {
        self.rd(SysReg::Ssr, ssr).check(ssr & SSR_UM == 0, "ssr & SSR_UM == 0")
    }

    pub open spec fn ssr_um_bit_run(self, ssr: u32, rb: u32) -> RunState {
        self.rd(SysReg::Ssr, ssr).check(ssr & SSR_UM == 0, "ssr & SSR_UM == 0").wr(SysReg::Ssr, ssr ^ SSR_PE).rd(
            SysReg::Ssr,
            rb,
        ).check(rb & SSR_PE == (ssr ^ SSR_PE) & SSR_PE, "readback & SSR_PE == modified & SSR_PE").wr(
            SysReg::Ssr,
            ssr,
        )
    }

    pub open spec fn trap0_exit_user_run(self, ssr: u32) -> RunState {
        self.ev(Ev::ResetExceptions).ev(Ev::Trap(TrapKind::Trap0, 1)).rd(SysReg::Ssr, ssr).check(
            ssr & SSR_UM == 0,
            "ssr & SSR_UM == 0",
        )
    }

    pub open spec fn ssr_xe_bit_run(self, ssr: u32) -> RunState {
        self.rd(SysReg::Ssr, ssr).check(ssr & SSR_XE != 0, "ssr & SSR_XE != 0")
    }
}

/// We are in supervisor mode: SSR.UM = 0.
pub fn test_supervisor_mode<M: Hexagon>(rt: &mut Runtime<M>)
    ensures
        exists|v: u32| #[trigger] old(rt)@.supervisor_mode_run(v) == final(rt)@,
{
    let ssr = rt.read_ssr();
    rt.check(ssr & SSR_UM == 0, "ssr & SSR_UM == 0");
    assert(old(rt)@.supervisor_mode_run(ssr) == rt@);
}

/// SSR.UM is 0 and SSR is writable (toggling PE, a safe bit; UM itself is
/// not set, as that would drop privilege at once).
pub fn test_ssr_um_bit<M: Hexagon>(rt: &mut Runtime<M>)
    ensures
        exists|v: u32, rb: u32| #[trigger] old(rt)@.ssr_um_bit_run(v, rb) == final(rt)@,
{
    let ssr = rt.read_ssr();
    rt.check(ssr & SSR_UM == 0, "ssr & SSR_UM == 0");
    let modified = ssr ^ SSR_PE;
    rt.write_ssr(modified);
    let readback = rt.read_ssr();
    rt.check(readback & SSR_PE == modified & SSR_PE, "readback & SSR_PE == modified & SSR_PE");
    rt.write_ssr(ssr);
    assert(old(rt)@.ssr_um_bit_run(ssr, readback) == rt@);
}

/// SSR.IE can be set and cleared.
pub fn test_ssr_ie_toggle<M: Hexagon>(rt: &mut Runtime<M>)
    ensures
        exists|v: u32, a: u32, b: u32|
            #[trigger] old(rt)@.bit_toggle(
                SysReg::Ssr,
                SSR_IE,
                "readback & SSR_IE != 0",
                "readback2 & SSR_IE == 0",
                v,
                a,
                b,
            ) == final(rt)@,
{
    bit_toggle(rt, SysReg::Ssr, SSR_IE, "readback & SSR_IE != 0", "readback2 & SSR_IE == 0");
}

/// `trap0(#1)` from supervisor mode returns, still in supervisor mode.
pub fn test_trap0_exit_user_handler<M: Hexagon>(rt: &mut Runtime<M>)
    ensures
        exists|v: u32| #[trigger] old(rt)@.trap0_exit_user_run(v) == final(rt)@,
{
    rt.reset_exception_state();
    rt.trap0(1);
    let ssr = rt.read_ssr();
    rt.check(ssr & SSR_UM == 0, "ssr & SSR_UM == 0");
    assert(old(rt)@.trap0_exit_user_run(ssr) == rt@);
}

/// SSR.XE is set by the startup code.
pub fn test_ssr_xe_bit<M: Hexagon>(rt: &mut Runtime<M>)
    ensures
        exists|v: u32| #[trigger] old(rt)@.ssr_xe_bit_run(v) == final(rt)@,
{
    let ssr = rt.read_ssr();
    rt.check(ssr & SSR_XE != 0, "ssr & SSR_XE != 0");
    assert(old(rt)@.ssr_xe_bit_run(ssr) == rt@);
}

/// SSR.CE (user cycle counter enable) can be set and cleared.
pub fn test_ssr_ce_bit<M: Hexagon>(rt: &mut Runtime<M>)
    ensures
        exists|v: u32, a: u32, b: u32|
            #[trigger] old(rt)@.bit_toggle(
                SysReg::Ssr,
                SSR_CE,
                "readback & SSR_CE != 0",
                "readback2 & SSR_CE == 0",
                v,
                a,
                b,
            ) == final(rt)@,
{
    bit_toggle(rt, SysReg::Ssr, SSR_CE, "readback & SSR_CE != 0", "readback2 & SSR_CE == 0");
}

/// SSR.PE (parity enable) can be set and cleared.
pub fn test_ssr_pe_bit<M: Hexagon>(rt: &mut Runtime<M>)
    ensures
        exists|v: u32, a: u32, b: u32|
            #[trigger] old(rt)@.bit_toggle(
                SysReg::Ssr,
                SSR_PE,
                "rb & SSR_PE != 0",
                "rb2 & SSR_PE == 0",
                v,
                a,
                b,
            ) == final(rt)@,
{
    bit_toggle(rt, SysReg::Ssr, SSR_PE, "rb & SSR_PE != 0", "rb2 & SSR_PE == 0");
}

/// The tests of this suite.
#[derive(Clone, Copy)]
pub enum UserModeTest {
    SupervisorMode,
    SsrUmBit,
    SsrIeToggle,
    Trap0ExitUserHandler,
    SsrXeBit,
    SsrCeBit,
    SsrPeBit,
}

impl TestCase for UserModeTest {
    open spec fn runs(&self, pre: RunState, post: RunState) -> bool {
        match *self {
            UserModeTest::SupervisorMode => exists|v: u32| #[trigger] pre.supervisor_mode_run(v) == post,
            UserModeTest::SsrUmBit => exists|v: u32, rb: u32| #[trigger] pre.ssr_um_bit_run(v, rb) == post,
            UserModeTest::SsrIeToggle => exists|v: u32, a: u32, b: u32|
                #[trigger] pre.bit_toggle(
                    SysReg::Ssr,
                    SSR_IE,
                    "readback & SSR_IE != 0",
                    "readback2 & SSR_IE == 0",
                    v,
                    a,
                    b,
                ) == post,
            UserModeTest::Trap0ExitUserHandler => exists|v: u32|
                #[trigger] pre.trap0_exit_user_run(v) == post,
            UserModeTest::SsrXeBit => exists|v: u32| #[trigger] pre.ssr_xe_bit_run(v) == post,
            UserModeTest::SsrCeBit => exists|v: u32, a: u32, b: u32|
                #[trigger] pre.bit_toggle(
                    SysReg::Ssr,
                    SSR_CE,
                    "readback & SSR_CE != 0",
                    "readback2 & SSR_CE == 0",
                    v,
                    a,
                    b,
                ) == post,
            UserModeTest::SsrPeBit => exists|v: u32, a: u32, b: u32|
                #[trigger] pre.bit_toggle(
                    SysReg::Ssr,
                    SSR_PE,
                    "rb & SSR_PE != 0",
                    "rb2 & SSR_PE == 0",
                    v,
                    a,
                    b,
                ) == post,
        }
    }

    open spec fn aborts(&self, pre: RunState, post: RunState, f: Fatal) -> bool {
        false
    }

    open spec fn at(&self) -> &'static str {
        match *self {
            UserModeTest::SupervisorMode => "src/suites/user_mode.rs:test_supervisor_mode",
            UserModeTest::SsrUmBit => "src/suites/user_mode.rs:test_ssr_um_bit",
            UserModeTest::SsrIeToggle => "src/suites/user_mode.rs:test_ssr_ie_toggle",
            UserModeTest::Trap0ExitUserHandler => "src/suites/user_mode.rs:test_trap0_exit_user_handler",
            UserModeTest::SsrXeBit => "src/suites/user_mode.rs:test_ssr_xe_bit",
            UserModeTest::SsrCeBit => "src/suites/user_mode.rs:test_ssr_ce_bit",
            UserModeTest::SsrPeBit => "src/suites/user_mode.rs:test_ssr_pe_bit",
        }
    }

    fn location(&self) -> (at: &'static str) {
        match *self {
            UserModeTest::SupervisorMode => "src/suites/user_mode.rs:test_supervisor_mode",
            UserModeTest::SsrUmBit => "src/suites/user_mode.rs:test_ssr_um_bit",
            UserModeTest::SsrIeToggle => "src/suites/user_mode.rs:test_ssr_ie_toggle",
            UserModeTest::Trap0ExitUserHandler => "src/suites/user_mode.rs:test_trap0_exit_user_handler",
            UserModeTest::SsrXeBit => "src/suites/user_mode.rs:test_ssr_xe_bit",
            UserModeTest::SsrCeBit => "src/suites/user_mode.rs:test_ssr_ce_bit",
            UserModeTest::SsrPeBit => "src/suites/user_mode.rs:test_ssr_pe_bit",
        }
    }

    fn run<M: Hexagon>(&self, rt: &mut Runtime<M>) -> (r: Result<(), Fatal>) {
        match *self {
            UserModeTest::SupervisorMode => {
                test_supervisor_mode(rt);
                Ok(())
            },
            UserModeTest::SsrUmBit => {
                test_ssr_um_bit(rt);
                Ok(())
            },
            UserModeTest::SsrIeToggle => {
                test_ssr_ie_toggle(rt);
                Ok(())
            },
            UserModeTest::Trap0ExitUserHandler => {
                test_trap0_exit_user_handler(rt);
                Ok(())
            },
            UserModeTest::SsrXeBit => {
                test_ssr_xe_bit(rt);
                Ok(())
            },
            UserModeTest::SsrCeBit => {
                test_ssr_ce_bit(rt);
                Ok(())
            },
            UserModeTest::SsrPeBit => {
                test_ssr_pe_bit(rt);
                Ok(())
            },
        }
    }
}

/// The suite's tests, in the order they run.
pub open spec fn user_mode_tests() -> Seq<(&'static str, UserModeTest)> {
    seq![
        ("supervisor_mode", UserModeTest::SupervisorMode),
        ("ssr_um_bit", UserModeTest::SsrUmBit),
        ("ssr_ie_toggle", UserModeTest::SsrIeToggle),
        ("trap0_exit_user_handler", UserModeTest::Trap0ExitUserHandler),
        ("ssr_xe_bit", UserModeTest::SsrXeBit),
        ("ssr_ce_bit", UserModeTest::SsrCeBit),
        ("ssr_pe_bit", UserModeTest::SsrPeBit),
    ]
}

/// Run the privilege mode suite and return its error count.
pub fn rust_main<M: Hexagon>(rt: &mut Runtime<M>) -> (code: i32)
    ensures
        old(rt)@.suite_begin("User Mode / Privilege").suite_ran(user_mode_tests(), final(rt)@, code),
{
    rt.test_suite_begin("User Mode / Privilege");
    let tests = [
        ("supervisor_mode", UserModeTest::SupervisorMode),
        ("ssr_um_bit", UserModeTest::SsrUmBit),
        ("ssr_ie_toggle", UserModeTest::SsrIeToggle),
        ("trap0_exit_user_handler", UserModeTest::Trap0ExitUserHandler),
        ("ssr_xe_bit", UserModeTest::SsrXeBit),
        ("ssr_ce_bit", UserModeTest::SsrCeBit),
        ("ssr_pe_bit", UserModeTest::SsrPeBit),
    ];
    assert(tests@ =~= user_mode_tests());
    rt.run_suite(&tests)
}

/// The tests of this suite: each records exactly one error
/// for every expectation that fails and none for those that hold.  The
/// expectations of each test are the conditions counted below, over what
/// the hardware answered.
#[verifier::rlimit(80)]
#[verifier::spinoff_prover]
pub proof fn law_user_mode_tests_count_failed_expectations()
    ensures
        forall|s: RunState, ssr: u32|
            #[trigger] s.supervisor_mode_run(ssr).recorded() == s.recorded()
                + (if ssr & SSR_UM == 0 { 0nat } else { 1nat }),
        forall|s: RunState, ssr: u32, rb: u32|
            #[trigger] s.ssr_um_bit_run(ssr, rb).recorded() == s.recorded()
                + (if ssr & SSR_UM == 0 { 0nat } else { 1nat })
                + (if rb & SSR_PE == (ssr ^ SSR_PE) & SSR_PE { 0nat } else { 1nat }),
        forall|s: RunState, ssr: u32|
            #[trigger] s.trap0_exit_user_run(ssr).recorded() == s.recorded()
                + (if ssr & SSR_UM == 0 { 0nat } else { 1nat }),
        forall|s: RunState, ssr: u32|
            #[trigger] s.ssr_xe_bit_run(ssr).recorded() == s.recorded()
                + (if ssr & SSR_XE != 0 { 0nat } else { 1nat }),
{
    broadcast use crate::report::group_recorded;

    assert forall|s: RunState, ssr: u32|
        #[trigger] s.supervisor_mode_run(ssr).recorded() == s.recorded()
            + (if ssr & SSR_UM == 0 { 0nat } else { 1nat }) by {}
    assert forall|s: RunState, ssr: u32, rb: u32|
        #[trigger] s.ssr_um_bit_run(ssr, rb).recorded() == s.recorded()
            + (if ssr & SSR_UM == 0 { 0nat } else { 1nat })
            + (if rb & SSR_PE == (ssr ^ SSR_PE) & SSR_PE { 0nat } else { 1nat }) by {}
    assert forall|s: RunState, ssr: u32|
        #[trigger] s.trap0_exit_user_run(ssr).recorded() == s.recorded()
            + (if ssr & SSR_UM == 0 { 0nat } else { 1nat }) by {}
    assert forall|s: RunState, ssr: u32|
        #[trigger] s.ssr_xe_bit_run(ssr).recorded() == s.recorded()
            + (if ssr & SSR_XE != 0 { 0nat } else { 1nat }) by {}
}

} // verus!
