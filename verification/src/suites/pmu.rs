//! Performance counter tests: PCYCLE, PCYCLELO/HI, UPCYCLE, and gating
//! the counter through SYSCFG.

use vstd::prelude::*;
use crate::machine::{Counter64, Hexagon, RunState, Runtime, SysReg};
use crate::regs::{SSR_CE, SYSCFG_PCYCLE_EN};
use crate::report::{Fatal, TestCase};

verus! {

/// The 64-bit value of a hi:lo register pair.
pub open spec fn pair64(hi: u32, lo: u32) -> u64 {
    (((hi as u64) << 32u64) | (lo as u64)) as u64
}

impl RunState {
    /// Read PCYCLE, delay, read it again, and check it advanced.
    pub open spec fn pcycle_advance_run(self, n: nat, before: u64, after: u64) -> RunState {
        self.rdc(Counter64::Pcycle, before).delay(n).rdc(Counter64::Pcycle, after).check(
            after > before,
            "after > before",
        )
    }

    pub open spec fn pcycle_hilo_run(self, lo: u32, hi: u32) -> RunState {
        self.rd(SysReg::Pcyclelo, lo).rd(SysReg::Pcyclehi, hi).check(pair64(hi, lo) > 0, "combined > 0")
    }

    /// Stop the counter through SYSCFG and check it holds still across a
    /// delay, then restart it and check it advances.
    pub open spec fn pcycle_gate_run(
        self,
        syscfg: u32,
        before: u64,
        after: u64,
        before2: u64,
        after2: u64,
    ) -> RunState {
        self.rd(SysReg::Syscfg, syscfg).wr(SysReg::Syscfg, syscfg & !SYSCFG_PCYCLE_EN).rdc(
            Counter64::Pcycle,
            before,
        ).delay(100).rdc(Counter64::Pcycle, after).check(after == before, "after == before").wr(
            SysReg::Syscfg,
            syscfg | SYSCFG_PCYCLE_EN,
        ).rdc(Counter64::Pcycle, before2).delay(100).rdc(Counter64::Pcycle, after2).check(
            after2 > before2,
            "after2 > before2",
        )
    }

    pub open spec fn upcycle_run(self, ssr: u32, upc: u64) -> RunState {
        self.rd(SysReg::Ssr, ssr).wr(SysReg::Ssr, ssr | SSR_CE).rdc(Counter64::Upcycle, upc).check(
            upc > 0,
            "upc > 0",
        ).wr(SysReg::Ssr, ssr)
    }

    /// Read PCYCLE three times with delays of `n` between, checking each
    /// reading exceeds the one before.
    pub open spec fn pcycle_monotonic_run(self, n: nat, a: u64, b: u64, c: u64) -> RunState {
        self.rdc(Counter64::Pcycle, a).delay(n).rdc(Counter64::Pcycle, b).delay(n).rdc(
            Counter64::Pcycle,
            c,
        ).check(b > a, "b > a").check(c > b, "c > b")
    }

    pub open spec fn pcycle_consistency_run(self, combined: u64, lo: u32, hi: u32) -> RunState {
        self.rdc(Counter64::Pcycle, combined).rd(SysReg::Pcyclelo, lo).rd(SysReg::Pcyclehi, hi).check32(
            hi,
            (combined >> 32u64) as u32,
        ).check(lo >= combined as u32, "lo >= combined_lo")
    }

    pub open spec fn pcycle_syscfg_bit_run(self, syscfg: u32) -> RunState {
        self.rd(SysReg::Syscfg, syscfg).check(
            syscfg & SYSCFG_PCYCLE_EN != 0,
            "syscfg & SYSCFG_PCYCLE_EN != 0",
        )
    }
}

/// PCYCLE advances across a delay.
pub fn test_pcycle_incrementing<M: Hexagon>(rt: &mut Runtime<M>)
    ensures
        exists|a: u64, b: u64| #[trigger] old(rt)@.pcycle_advance_run(100, a, b) == final(rt)@,
{
    let before = rt.read_pcycle();
    rt.busy_loop(100);
    let after = rt.read_pcycle();
    rt.check(after > before, "after > before");
    assert(old(rt)@.pcycle_advance_run(100, before, after) == rt@);
}

/// PCYCLEHI:PCYCLELO is non-zero once the core has been running.
pub fn test_pcycle_hilo<M: Hexagon>(rt: &mut Runtime<M>)
    ensures
        exists|lo: u32, hi: u32| #[trigger] old(rt)@.pcycle_hilo_run(lo, hi) == final(rt)@,
{
    let lo = rt.read_pcyclelo();
    let hi = rt.read_pcyclehi();
    let combined = ((hi as u64) << 32) | (lo as u64);
    rt.check(combined > 0, "combined > 0");
    assert(old(rt)@.pcycle_hilo_run(lo, hi) == rt@);
}

/// Clearing SYSCFG.PCYCLE_EN stops the counter; setting it restarts it.
pub fn test_pcycle_enable_disable<M: Hexagon>(rt: &mut Runtime<M>)
    ensures
        exists|s: u32, a: u64, b: u64, c: u64, d: u64|
            #[trigger] old(rt)@.pcycle_gate_run(s, a, b, c, d) == final(rt)@,
{
    let syscfg = rt.read_syscfg();
    rt.write_syscfg(syscfg & !SYSCFG_PCYCLE_EN);
    let before = rt.read_pcycle();
    rt.busy_loop(100);
    let after = rt.read_pcycle();
    rt.check(after == before, "after == before");
    rt.write_syscfg(syscfg | SYSCFG_PCYCLE_EN);
    let before2 = rt.read_pcycle();
    rt.busy_loop(100);
    let after2 = rt.read_pcycle();
    rt.check(after2 > before2, "after2 > before2");
    assert(old(rt)@.pcycle_gate_run(syscfg, before, after, before2, after2) == rt@);
}

/// With SSR.CE set, UPCYCLE is readable and non-zero.
pub fn test_upcycle<M: Hexagon>(rt: &mut Runtime<M>)
    ensures
        exists|s: u32, u: u64| #[trigger] old(rt)@.upcycle_run(s, u) == final(rt)@,
{
    let ssr = rt.read_ssr();
    rt.write_ssr(ssr | SSR_CE);
    let upc = rt.read_upcycle();
    rt.check(upc > 0, "upc > 0");
    rt.write_ssr(ssr);
    assert(old(rt)@.upcycle_run(ssr, upc) == rt@);
}

/// Successive PCYCLE readings, `n` delay iterations apart, strictly
/// increase.
pub fn test_pcycle_monotonic_n<M: Hexagon>(rt: &mut Runtime<M>, n: u32)
    ensures
        exists|a: u64, b: u64, c: u64|
            #[trigger] old(rt)@.pcycle_monotonic_run(n as nat, a, b, c) == final(rt)@,
{
    let a = rt.read_pcycle();
    rt.busy_loop(n);
    let b = rt.read_pcycle();
    rt.busy_loop(n);
    let c = rt.read_pcycle();
    rt.check(b > a, "b > a");
    rt.check(c > b, "c > b");
    assert(old(rt)@.pcycle_monotonic_run(n as nat, a, b, c) == rt@);
}

/// Successive PCYCLE readings strictly increase.
pub fn test_pcycle_monotonic<M: Hexagon>(rt: &mut Runtime<M>)
    ensures
        exists|a: u64, b: u64, c: u64| #[trigger] old(rt)@.pcycle_monotonic_run(10, a, b, c) == final(rt)@,
{
    test_pcycle_monotonic_n(rt, 10);
}

/// PCYCLEHI read later equals the high half of PCYCLE, and PCYCLELO read
/// later is not below its low half.
pub fn test_pcycle_64bit_consistency<M: Hexagon>(rt: &mut Runtime<M>)
    ensures
        exists|c: u64, lo: u32, hi: u32| #[trigger] old(rt)@.pcycle_consistency_run(c, lo, hi) == final(rt)@,
{
    let combined = rt.read_pcycle();
    let lo = rt.read_pcyclelo();
    let hi = rt.read_pcyclehi();
    let combined_lo = combined as u32;
    let combined_hi = (combined >> 32) as u32;
    rt.check32(hi, combined_hi);
    rt.check(lo >= combined_lo, "lo >= combined_lo");
    assert(old(rt)@.pcycle_consistency_run(combined, lo, hi) == rt@);
}

/// SYSCFG.PCYCLE_EN is set.
pub fn test_pcycle_syscfg_bit<M: Hexagon>(rt: &mut Runtime<M>)
    ensures
        exists|v: u32| #[trigger] old(rt)@.pcycle_syscfg_bit_run(v) == final(rt)@,
{
    let syscfg = rt.read_syscfg();
    rt.check(syscfg & SYSCFG_PCYCLE_EN != 0, "syscfg & SYSCFG_PCYCLE_EN != 0");
    assert(old(rt)@.pcycle_syscfg_bit_run(syscfg) == rt@);
}

/// The tests of this suite.
#[derive(Clone, Copy)]
pub enum PmuTest {
    PcycleIncrementing,
    PcycleHilo,
    PcycleEnableDisable,
    Upcycle,
    PcycleMonotonic,
    Pcycle64bitConsistency,
    PcycleSyscfgBit,
}

impl TestCase for PmuTest {
    open spec fn runs(&self, pre: RunState, post: RunState) -> bool {
        match *self {
            PmuTest::PcycleIncrementing => exists|v0: u64, v1: u64| #[trigger] pre.pcycle_advance_run(100, v0, v1) == post,
            PmuTest::PcycleHilo => exists|v0: u32, v1: u32| #[trigger] pre.pcycle_hilo_run(v0, v1) == post,
            PmuTest::PcycleEnableDisable => exists|s: u32, a: u64, b: u64, c: u64, d: u64| #[trigger] pre.pcycle_gate_run(s, a, b, c, d) == post,
            PmuTest::Upcycle => exists|v0: u32, v1: u64| #[trigger] pre.upcycle_run(v0, v1) == post,
            PmuTest::PcycleMonotonic => exists|v0: u64, v1: u64, v2: u64| #[trigger] pre.pcycle_monotonic_run(10, v0, v1, v2) == post,
            PmuTest::Pcycle64bitConsistency => exists|v0: u64, v1: u32, v2: u32| #[trigger] pre.pcycle_consistency_run(v0, v1, v2) == post,
            PmuTest::PcycleSyscfgBit => exists|v0: u32| #[trigger] pre.pcycle_syscfg_bit_run(v0) == post,
        }
    }

    open spec fn aborts(&self, pre: RunState, post: RunState, f: Fatal) -> bool {
        false
    }

    open spec fn at(&self) -> &'static str {
        match *self {
            PmuTest::PcycleIncrementing => "src/suites/pmu.rs:test_pcycle_incrementing",
            PmuTest::PcycleHilo => "src/suites/pmu.rs:test_pcycle_hilo",
            PmuTest::PcycleEnableDisable => "src/suites/pmu.rs:test_pcycle_enable_disable",
            PmuTest::Upcycle => "src/suites/pmu.rs:test_upcycle",
            PmuTest::PcycleMonotonic => "src/suites/pmu.rs:test_pcycle_monotonic",
            PmuTest::Pcycle64bitConsistency => "src/suites/pmu.rs:test_pcycle_64bit_consistency",
            PmuTest::PcycleSyscfgBit => "src/suites/pmu.rs:test_pcycle_syscfg_bit",
        }
    }

    fn location(&self) -> (at: &'static str) {
        match *self {
            PmuTest::PcycleIncrementing => "src/suites/pmu.rs:test_pcycle_incrementing",
            PmuTest::PcycleHilo => "src/suites/pmu.rs:test_pcycle_hilo",
            PmuTest::PcycleEnableDisable => "src/suites/pmu.rs:test_pcycle_enable_disable",
            PmuTest::Upcycle => "src/suites/pmu.rs:test_upcycle",
            PmuTest::PcycleMonotonic => "src/suites/pmu.rs:test_pcycle_monotonic",
            PmuTest::Pcycle64bitConsistency => "src/suites/pmu.rs:test_pcycle_64bit_consistency",
            PmuTest::PcycleSyscfgBit => "src/suites/pmu.rs:test_pcycle_syscfg_bit",
        }
    }

    fn run<M: Hexagon>(&self, rt: &mut Runtime<M>) -> (r: Result<(), Fatal>) {
        match *self {
            PmuTest::PcycleIncrementing => {
                test_pcycle_incrementing(rt);
                Ok(())
            },
            PmuTest::PcycleHilo => {
                test_pcycle_hilo(rt);
                Ok(())
            },
            PmuTest::PcycleEnableDisable => {
                test_pcycle_enable_disable(rt);
                Ok(())
            },
            PmuTest::Upcycle => {
                test_upcycle(rt);
                Ok(())
            },
            PmuTest::PcycleMonotonic => {
                test_pcycle_monotonic(rt);
                Ok(())
            },
            PmuTest::Pcycle64bitConsistency => {
                test_pcycle_64bit_consistency(rt);
                Ok(())
            },
            PmuTest::PcycleSyscfgBit => {
                test_pcycle_syscfg_bit(rt);
                Ok(())
            },
        }
    }
}

/// The suite's tests, in the order they run.
pub open spec fn pmu_tests() -> Seq<(&'static str, PmuTest)> {
    seq![
        ("pcycle_incrementing", PmuTest::PcycleIncrementing),
        ("pcycle_hilo", PmuTest::PcycleHilo),
        ("pcycle_enable_disable", PmuTest::PcycleEnableDisable),
        ("upcycle", PmuTest::Upcycle),
        ("pcycle_monotonic", PmuTest::PcycleMonotonic),
        ("pcycle_64bit_consistency", PmuTest::Pcycle64bitConsistency),
        ("pcycle_syscfg_bit", PmuTest::PcycleSyscfgBit),
    ]
}

/// Run the performance counter suite and return its error count.
pub fn rust_main<M: Hexagon>(rt: &mut Runtime<M>) -> (code: i32)
    ensures
        old(rt)@.suite_begin("Performance Counters").suite_ran(pmu_tests(), final(rt)@, code),
{
    rt.test_suite_begin("Performance Counters");
    let tests = [
        ("pcycle_incrementing", PmuTest::PcycleIncrementing),
        ("pcycle_hilo", PmuTest::PcycleHilo),
        ("pcycle_enable_disable", PmuTest::PcycleEnableDisable),
        ("upcycle", PmuTest::Upcycle),
        ("pcycle_monotonic", PmuTest::PcycleMonotonic),
        ("pcycle_64bit_consistency", PmuTest::Pcycle64bitConsistency),
        ("pcycle_syscfg_bit", PmuTest::PcycleSyscfgBit),
    ];
    assert(tests@ =~= pmu_tests());
    rt.run_suite(&tests)
}

/// The tests of this suite: each records exactly one error
/// for every expectation that fails and none for those that hold.  The
/// expectations of each test are the conditions counted below, over what
/// the hardware answered.
#[verifier::rlimit(80)]
#[verifier::spinoff_prover]
pub proof fn law_pmu_tests_count_failed_expectations()
    ensures
        forall|s: RunState, n: nat, before: u64, after: u64|
            #[trigger] s.pcycle_advance_run(n, before, after).recorded() == s.recorded()
                + (if after > before { 0nat } else { 1nat }),
        forall|s: RunState, lo: u32, hi: u32|
            #[trigger] s.pcycle_hilo_run(lo, hi).recorded() == s.recorded()
                + (if pair64(hi, lo) > 0 { 0nat } else { 1nat }),
        forall|s: RunState, syscfg: u32, before: u64, after: u64, before2: u64, after2: u64|
            #[trigger] s.pcycle_gate_run(syscfg, before, after, before2, after2).recorded() == s.recorded()
                + (if after == before { 0nat } else { 1nat })
                + (if after2 > before2 { 0nat } else { 1nat }),
        forall|s: RunState, ssr: u32, upc: u64|
            #[trigger] s.upcycle_run(ssr, upc).recorded() == s.recorded()
                + (if upc > 0 { 0nat } else { 1nat }),
        forall|s: RunState, n: nat, a: u64, b: u64, c: u64|
            #[trigger] s.pcycle_monotonic_run(n, a, b, c).recorded() == s.recorded()
                + (if b > a { 0nat } else { 1nat })
                + (if c > b { 0nat } else { 1nat }),
        forall|s: RunState, combined: u64, lo: u32, hi: u32|
            #[trigger] s.pcycle_consistency_run(combined, lo, hi).recorded() == s.recorded()
                + (if hi == (combined >> 32u64) as u32 { 0nat } else { 1nat })
                + (if lo >= combined as u32 { 0nat } else { 1nat }),
        forall|s: RunState, syscfg: u32|
            #[trigger] s.pcycle_syscfg_bit_run(syscfg).recorded() == s.recorded()
                + (if syscfg & SYSCFG_PCYCLE_EN != 0 { 0nat } else { 1nat }),
{
    broadcast use crate::report::group_recorded;

    assert forall|s: RunState, n: nat, before: u64, after: u64|
        #[trigger] s.pcycle_advance_run(n, before, after).recorded() == s.recorded()
            + (if after > before { 0nat } else { 1nat }) by {}
    assert forall|s: RunState, lo: u32, hi: u32|
        #[trigger] s.pcycle_hilo_run(lo, hi).recorded() == s.recorded()
            + (if pair64(hi, lo) > 0 { 0nat } else { 1nat }) by {}
    assert forall|s: RunState, syscfg: u32, before: u64, after: u64, before2: u64, after2: u64|
        #[trigger] s.pcycle_gate_run(syscfg, before, after, before2, after2).recorded() == s.recorded()
            + (if after == before { 0nat } else { 1nat })
            + (if after2 > before2 { 0nat } else { 1nat }) by {}
    assert forall|s: RunState, ssr: u32, upc: u64|
        #[trigger] s.upcycle_run(ssr, upc).recorded() == s.recorded()
            + (if upc > 0 { 0nat } else { 1nat }) by {}
    assert forall|s: RunState, n: nat, a: u64, b: u64, c: u64|
        #[trigger] s.pcycle_monotonic_run(n, a, b, c).recorded() == s.recorded()
            + (if b > a { 0nat } else { 1nat })
            + (if c > b { 0nat } else { 1nat }) by {}
    assert forall|s: RunState, combined: u64, lo: u32, hi: u32|
        #[trigger] s.pcycle_consistency_run(combined, lo, hi).recorded() == s.recorded()
            + (if hi == (combined >> 32u64) as u32 { 0nat } else { 1nat })
            + (if lo >= combined as u32 { 0nat } else { 1nat }) by {}
    assert forall|s: RunState, syscfg: u32|
        #[trigger] s.pcycle_syscfg_bit_run(syscfg).recorded() == s.recorded()
            + (if syscfg & SYSCFG_PCYCLE_EN != 0 { 0nat } else { 1nat }) by {}
}

} // verus!
