//! System timer tests: TIMERLO/TIMERHI (the QTimer), its MMIO version
//! register, and PCYCLE used as a timer.  A missing QTimer is an error.

use vstd::prelude::*;
use crate::console::{hexw, nl, text};
use crate::machine::{Ev, Hexagon, RunState, Runtime, SysReg};
use crate::regs::{
    add32, cfg_base, cfg_base_spec, vpn_of, wrapping_add32, CFGTABLE_SUBSYSTEM_BASE,
    QTIMER_DEVICE_OFFSET, QTIMER_EXPECTED_VERSION, QTIMER_FRAME_OFFSET, QTIMER_VERSION_OFFSET,
};
use crate::report::{lemma_recorded_polled, Fatal, TestCase};
use crate::runtime::{poll_hit, poll_run};
use crate::suites::pmu::{test_pcycle_enable_disable, test_pcycle_monotonic_n};

verus! {

/// The TLB index the QTimer mapping is installed at.
pub const QTIMER_TLB_IDX: u32 = 2;

/// How many times the timer is polled for a change.
pub const QTIMER_POLLS: u32 = 100_000;

/// The hit predicate of the timer-change poll.
pub open spec fn differs_from(before: u32) -> spec_fn(u32) -> bool {
    |o: u32| o != before
}

/// The QTimer base derived from the configuration table's subsystem field.
pub open spec fn qtimer_base_spec(raw: u32) -> u32 {
    add32(cfg_base_spec(raw), QTIMER_DEVICE_OFFSET)
}

/// Address of the QTimer version register.
pub open spec fn qtimer_version_addr_spec(raw: u32) -> u32 {
    add32(add32(qtimer_base_spec(raw), QTIMER_FRAME_OFFSET), QTIMER_VERSION_OFFSET)
}

impl RunState {
    /// Read TIMERLO and TIMERHI; if both are zero, report the QTimer
    /// missing and record an error.
    pub open spec fn qtimer_required(self, lo: u32, hi: u32) -> RunState {
        let s = self.rd(SysReg::Timerlo, lo).rd(SysReg::Timerhi, hi);
        if lo == 0 && hi == 0 {
            s.out(text("FATAL: QTimer not available (TIMERLO/TIMERHI both zero)")).out(nl()).error()
        } else {
            s
        }
    }

    pub open spec fn qtimer_read_run(self, lo: u32, hi: u32) -> RunState {
        self.rd(SysReg::Timerlo, lo).rd(SysReg::Timerhi, hi).check(lo != 0 || hi != 0, "lo != 0 || hi != 0")
    }

    pub open spec fn qtimer_monotonic_run(self, lo: u32, hi: u32, a: u32, b: u32, c: u32) -> RunState {
        let s = self.qtimer_required(lo, hi);
        if lo == 0 && hi == 0 {
            s
        } else {
            s.rd(SysReg::Timerlo, a).delay(20).rd(SysReg::Timerlo, b).delay(20).rd(SysReg::Timerlo, c).check(
                b >= a,
                "b >= a",
            ).check(c >= b, "c >= b")
        }
    }

    /// Poll TIMERLO, with no pause, until it differs from `before`.
    pub open spec fn timer_watched(self, before: u32, obs: Seq<u32>) -> RunState {
        self.polled(|o: u32| Ev::ReadReg(SysReg::Timerlo, o), differs_from(before), 0, obs)
    }

    pub open spec fn qtimer_increments_run(self, lo: u32, hi: u32, before: u32, obs: Seq<u32>) -> RunState {
        let s = self.qtimer_required(lo, hi);
        if lo == 0 && hi == 0 {
            s
        } else {
            let t = s.rd(SysReg::Timerlo, before).timer_watched(before, obs);
            let changed = poll_hit(differs_from(before), obs);
            let u = if changed {
                t
            } else {
                t.out(text("    timer stuck at 0x")).out(hexw(before as nat, 8)).out(
                    text(" after 100k polls"),
                ).out(nl())
            };
            u.check(changed, "changed")
        }
    }

    pub open spec fn qtimer_version_run(
        self,
        lo: u32,
        hi: u32,
        cb: u32,
        raw: u32,
        version: u32,
    ) -> RunState {
        let s = self.qtimer_required(lo, hi);
        if lo == 0 && hi == 0 {
            s
        } else {
            let t = s.cfg_read(CFGTABLE_SUBSYSTEM_BASE, cb, raw);
            if raw == 0 {
                t.out(text("FATAL: subsystem_base is 0 in config table")).out(nl()).error()
            } else {
                let vpn = qtimer_base_spec(raw) >> 20u32;
                let u = t.device_mapped(vpn, vpn, QTIMER_TLB_IDX).ev(
                    Ev::MmioRead(qtimer_version_addr_spec(raw), version),
                );
                let w = if version == 0 {
                    u.out(text("(skip: MMIO not modeled by cosim)")).out(nl())
                } else {
                    u.check32(version, QTIMER_EXPECTED_VERSION)
                };
                w.tlb_invalidated(QTIMER_TLB_IDX)
            }
        }
    }
}

impl<M: Hexagon> Runtime<M> {
    /// Require the QTimer: if TIMERLO and TIMERHI both read zero, report
    /// it, record an error and return false.
    pub fn require_qtimer(&mut self) -> (ok: bool)
        ensures
            exists|lo: u32, hi: u32|
                #[trigger] old(self)@.qtimer_required(lo, hi) == final(self)@ && ok == !(lo == 0 && hi
                    == 0),
    {
        let lo = self.read_timerlo();
        let hi = self.read_timerhi();
        if lo == 0 && hi == 0 {
            self.println("FATAL: QTimer not available (TIMERLO/TIMERHI both zero)");
            self.count_error();
            assert(old(self)@.qtimer_required(lo, hi) == self@);
            return false;
        }
        assert(old(self)@.qtimer_required(lo, hi) == self@);
        true
    }
}

/// TIMERLO/TIMERHI are readable and not both zero.
pub fn test_qtimer_read<M: Hexagon>(rt: &mut Runtime<M>)
    ensures
        exists|lo: u32, hi: u32| #[trigger] old(rt)@.qtimer_read_run(lo, hi) == final(rt)@,
{
    let lo = rt.read_timerlo();
    let hi = rt.read_timerhi();
    rt.check(lo != 0 || hi != 0, "lo != 0 || hi != 0");
    assert(old(rt)@.qtimer_read_run(lo, hi) == rt@);
}

/// TIMERLO never decreases across delays.
pub fn test_qtimer_monotonic<M: Hexagon>(rt: &mut Runtime<M>)
    ensures
        exists|lo: u32, hi: u32, a: u32, b: u32, c: u32|
            #[trigger] old(rt)@.qtimer_monotonic_run(lo, hi, a, b, c) == final(rt)@,
{
    if !rt.require_qtimer() {
        let ghost w = choose|lo: u32, hi: u32| #[trigger] old(rt)@.qtimer_required(lo, hi) == rt@ && !(lo == 0 && hi == 0) == false;
        assert(old(rt)@.qtimer_monotonic_run(w.0, w.1, 0, 0, 0) == rt@);
        return;
    }
    let ghost w = choose|lo: u32, hi: u32| #[trigger] old(rt)@.qtimer_required(lo, hi) == rt@ && !(lo == 0 && hi == 0) == true;
    let a = rt.read_timerlo();
    rt.busy_loop(20);
    let b = rt.read_timerlo();
    rt.busy_loop(20);
    let c = rt.read_timerlo();
    rt.check(b >= a, "b >= a");
    rt.check(c >= b, "c >= b");
    assert(old(rt)@.qtimer_monotonic_run(w.0, w.1, a, b, c) == rt@);
}

/// TIMERLO changes within 100k polls (the simulator updates it lazily).
pub fn test_qtimer_increments<M: Hexagon>(rt: &mut Runtime<M>)
    ensures
        exists|lo: u32, hi: u32, before: u32, obs: Seq<u32>|
            #[trigger] old(rt)@.qtimer_increments_run(lo, hi, before, obs) == final(rt)@ && poll_run(
                differs_from(before),
                QTIMER_POLLS,
                obs,
            ),
{
    if !rt.require_qtimer() {
        let ghost w = choose|lo: u32, hi: u32| #[trigger] old(rt)@.qtimer_required(lo, hi) == rt@ && !(lo == 0 && hi == 0) == false;
        let ghost obs: Seq<u32> = Seq::new(QTIMER_POLLS as nat, |i: int| 0u32);
        assert(poll_run(differs_from(0), QTIMER_POLLS, obs));
        assert(old(rt)@.qtimer_increments_run(w.0, w.1, 0, obs) == rt@);
        return;
    }
    let ghost w = choose|lo: u32, hi: u32| #[trigger] old(rt)@.qtimer_required(lo, hi) == rt@ && !(lo == 0 && hi == 0) == true;
    let before = rt.read_timerlo();
    let ghost s0 = rt@;
    let ghost mut obs: Seq<u32> = Seq::empty();
    let mut changed = false;
    let mut i: u32 = 0;
    while i < QTIMER_POLLS
        invariant_except_break
            obs.len() == i,
            !changed,
            forall|k: int| 0 <= k < obs.len() ==> !differs_from(before)(#[trigger] obs[k]),
        invariant
            i <= QTIMER_POLLS,
            rt@ == s0.timer_watched(before, obs),
        ensures
            poll_run(differs_from(before), QTIMER_POLLS, obs),
            changed == poll_hit(differs_from(before), obs),
        decreases QTIMER_POLLS - i,
    {
        let now = rt.read_timerlo();
        proof {
            let obs2 = obs.push(now);
            assert(obs2.drop_last() =~= obs);
            obs = obs2;
        }
        if now != before {
            changed = true;
            assert(differs_from(before)(now));
            assert(obs.last() == now);
            break;
        }
        i = i + 1;
    }
    if !changed {
        rt.puts("    timer stuck at 0x");
        rt.put_hexw(before as u64, 8);
        rt.puts(" after 100k polls");
        rt.newline();
    }
    rt.check(changed, "changed");
    assert(old(rt)@.qtimer_increments_run(w.0, w.1, before, obs) == rt@);
}

/// The QTimer's MMIO version register, found through the configuration
/// table, holds the expected version (skipped when the simulator does not
/// model the MMIO space and reads zero).
pub fn test_qtimer_version_register<M: Hexagon>(rt: &mut Runtime<M>)
    ensures
        exists|lo: u32, hi: u32, cb: u32, raw: u32, version: u32|
            #[trigger] old(rt)@.qtimer_version_run(lo, hi, cb, raw, version) == final(rt)@,
{
    if !rt.require_qtimer() {
        let ghost w = choose|lo: u32, hi: u32| #[trigger] old(rt)@.qtimer_required(lo, hi) == rt@ && !(lo == 0 && hi == 0) == false;
        assert(old(rt)@.qtimer_version_run(w.0, w.1, 0, 0, 0) == rt@);
        return;
    }
    let ghost w = choose|lo: u32, hi: u32| #[trigger] old(rt)@.qtimer_required(lo, hi) == rt@ && !(lo == 0 && hi == 0) == true;
    let ghost s1 = rt@;
    let subsys_raw = rt.read_cfgtable_field(CFGTABLE_SUBSYSTEM_BASE);
    let ghost cb = choose|cb: u32| #[trigger] s1.cfg_read(CFGTABLE_SUBSYSTEM_BASE, cb, subsys_raw) == rt@;
    if subsys_raw == 0 {
        rt.println("FATAL: subsystem_base is 0 in config table");
        rt.count_error();
        assert(old(rt)@.qtimer_version_run(w.0, w.1, cb, subsys_raw, 0) == rt@);
        return;
    }
    let subsys_base = cfg_base(subsys_raw);
    let qtimer_base = wrapping_add32(subsys_base, QTIMER_DEVICE_OFFSET);
    let vpn_1m = vpn_of(qtimer_base);
    rt.install_device_mapping(vpn_1m, vpn_1m, QTIMER_TLB_IDX);
    let version_addr = wrapping_add32(wrapping_add32(qtimer_base, QTIMER_FRAME_OFFSET), QTIMER_VERSION_OFFSET);
    let version = rt.mmio_read(version_addr);
    if version == 0 {
        rt.println("(skip: MMIO not modeled by cosim)");
    } else {
        rt.check32(version, QTIMER_EXPECTED_VERSION);
    }
    rt.tlb_invalidate(QTIMER_TLB_IDX);
    assert(old(rt)@.qtimer_version_run(w.0, w.1, cb, subsys_raw, version) == rt@);
}

/// PCYCLE works as a local timer: it strictly increases across delays.
pub fn test_pcycle_as_timer<M: Hexagon>(rt: &mut Runtime<M>)
    ensures
        exists|a: u64, b: u64, c: u64| #[trigger] old(rt)@.pcycle_monotonic_run(50, a, b, c) == final(rt)@,
{
    test_pcycle_monotonic_n(rt, 50);
}

/// Gating PCYCLE through SYSCFG stops and restarts it.
pub fn test_pcycle_timer_gate<M: Hexagon>(rt: &mut Runtime<M>)
    ensures
        exists|s: u32, a: u64, b: u64, c: u64, d: u64|
            #[trigger] old(rt)@.pcycle_gate_run(s, a, b, c, d) == final(rt)@,
{
    test_pcycle_enable_disable(rt);
}

/// The tests of this suite.
#[derive(Clone, Copy)]
pub enum TimerTest {
    QtimerRead,
    QtimerMonotonic,
    QtimerIncrements,
    QtimerVersionRegister,
    PcycleAsTimer,
    PcycleTimerGate,
}

impl TestCase for TimerTest {
    open spec fn runs(&self, pre: RunState, post: RunState) -> bool {
        match *self {
            TimerTest::QtimerRead => exists|v0: u32, v1: u32| #[trigger] pre.qtimer_read_run(v0, v1) == post,
            TimerTest::QtimerMonotonic => exists|v0: u32, v1: u32, v2: u32, v3: u32, v4: u32| #[trigger] pre.qtimer_monotonic_run(v0, v1, v2, v3, v4) == post,
            TimerTest::QtimerIncrements => exists|lo: u32, hi: u32, before: u32, obs: Seq<u32>| #[trigger] pre.qtimer_increments_run(lo, hi, before, obs) == post && poll_run(differs_from(before), QTIMER_POLLS, obs),
            TimerTest::QtimerVersionRegister => exists|v0: u32, v1: u32, v2: u32, v3: u32, v4: u32| #[trigger] pre.qtimer_version_run(v0, v1, v2, v3, v4) == post,
            TimerTest::PcycleAsTimer => exists|v0: u64, v1: u64, v2: u64| #[trigger] pre.pcycle_monotonic_run(50, v0, v1, v2) == post,
            TimerTest::PcycleTimerGate => exists|s: u32, a: u64, b: u64, c: u64, d: u64| #[trigger] pre.pcycle_gate_run(s, a, b, c, d) == post,
        }
    }

    open spec fn aborts(&self, pre: RunState, post: RunState, f: Fatal) -> bool {
        false
    }

    open spec fn at(&self) -> &'static str {
        match *self {
            TimerTest::QtimerRead => "src/suites/timer.rs:test_qtimer_read",
            TimerTest::QtimerMonotonic => "src/suites/timer.rs:test_qtimer_monotonic",
            TimerTest::QtimerIncrements => "src/suites/timer.rs:test_qtimer_increments",
            TimerTest::QtimerVersionRegister => "src/suites/timer.rs:test_qtimer_version_register",
            TimerTest::PcycleAsTimer => "src/suites/timer.rs:test_pcycle_as_timer",
            TimerTest::PcycleTimerGate => "src/suites/timer.rs:test_pcycle_timer_gate",
        }
    }

    fn location(&self) -> (at: &'static str) {
        match *self {
            TimerTest::QtimerRead => "src/suites/timer.rs:test_qtimer_read",
            TimerTest::QtimerMonotonic => "src/suites/timer.rs:test_qtimer_monotonic",
            TimerTest::QtimerIncrements => "src/suites/timer.rs:test_qtimer_increments",
            TimerTest::QtimerVersionRegister => "src/suites/timer.rs:test_qtimer_version_register",
            TimerTest::PcycleAsTimer => "src/suites/timer.rs:test_pcycle_as_timer",
            TimerTest::PcycleTimerGate => "src/suites/timer.rs:test_pcycle_timer_gate",
        }
    }

    fn run<M: Hexagon>(&self, rt: &mut Runtime<M>) -> (r: Result<(), Fatal>) {
        match *self {
            TimerTest::QtimerRead => {
                test_qtimer_read(rt);
                Ok(())
            },
            TimerTest::QtimerMonotonic => {
                test_qtimer_monotonic(rt);
                Ok(())
            },
            TimerTest::QtimerIncrements => {
                test_qtimer_increments(rt);
                Ok(())
            },
            TimerTest::QtimerVersionRegister => {
                test_qtimer_version_register(rt);
                Ok(())
            },
            TimerTest::PcycleAsTimer => {
                test_pcycle_as_timer(rt);
                Ok(())
            },
            TimerTest::PcycleTimerGate => {
                test_pcycle_timer_gate(rt);
                Ok(())
            },
        }
    }
}

/// The suite's tests, in the order they run.
pub open spec fn timer_tests() -> Seq<(&'static str, TimerTest)> {
    seq![
        ("qtimer_read", TimerTest::QtimerRead),
        ("qtimer_monotonic", TimerTest::QtimerMonotonic),
        ("qtimer_increments", TimerTest::QtimerIncrements),
        ("qtimer_version_register", TimerTest::QtimerVersionRegister),
        ("pcycle_as_timer", TimerTest::PcycleAsTimer),
        ("pcycle_timer_gate", TimerTest::PcycleTimerGate),
    ]
}

/// Run the system timer suite and return its error count.
pub fn rust_main<M: Hexagon>(rt: &mut Runtime<M>) -> (code: i32)
    ensures
        old(rt)@.suite_begin("System Timer").suite_ran(timer_tests(), final(rt)@, code),
{
    rt.test_suite_begin("System Timer");
    let tests = [
        ("qtimer_read", TimerTest::QtimerRead),
        ("qtimer_monotonic", TimerTest::QtimerMonotonic),
        ("qtimer_increments", TimerTest::QtimerIncrements),
        ("qtimer_version_register", TimerTest::QtimerVersionRegister),
        ("pcycle_as_timer", TimerTest::PcycleAsTimer),
        ("pcycle_timer_gate", TimerTest::PcycleTimerGate),
    ];
    assert(tests@ =~= timer_tests());
    rt.run_suite(&tests)
}

/// The monotonic QTimer test counts decreases.  With the QTimer present, it
/// records one error for each TIMERLO reading smaller than the one before
/// it and none for equal or larger ones; without it, the one error of the
/// missing timer.
pub proof fn law_qtimer_monotonic_counts_decreases(s: RunState, lo: u32, hi: u32, a: u32, b: u32, c: u32)
    ensures
        s.qtimer_monotonic_run(lo, hi, a, b, c).recorded() == s.recorded() + if lo == 0 && hi == 0 {
            1nat
        } else {
            (if b < a { 1nat } else { 0nat }) + (if c < b { 1nat } else { 0nat })
        },
{
    broadcast use crate::report::group_recorded;

}

/// Watching TIMERLO records no error.
pub broadcast proof fn lemma_recorded_timer_watched(t: RunState, before: u32, obs: Seq<u32>)
    ensures
        #[trigger] t.timer_watched(before, obs).recorded() == t.recorded(),
{
    assert forall|read: spec_fn(u32) -> Ev, hit: spec_fn(u32) -> bool, pause: nat|
        (forall|o: u32| crate::machine::counter_increment(#[trigger] read(o)) == 0) implies #[trigger] t.polled(
            read,
            hit,
            pause,
            obs,
        ).recorded() == t.recorded() by {
        lemma_recorded_polled(t, read, hit, pause, obs);
    }
}

/// The QTimer tests that need the timer record the one error of a missing
/// timer when TIMERLO and TIMERHI both read zero.  Otherwise the increment
/// test records one error exactly when TIMERLO never changed while it was
/// watched, and the version test records one error for a zero subsystem
/// base, none when the version reads zero (not modelled), and otherwise one
/// exactly when the version is not the expected one.
#[verifier::rlimit(80)]
pub proof fn law_qtimer_device_tests_count_failures(
    s: RunState,
    lo: u32,
    hi: u32,
    before: u32,
    obs: Seq<u32>,
    cb: u32,
    raw: u32,
    version: u32,
)
    ensures
        s.qtimer_increments_run(lo, hi, before, obs).recorded() == s.recorded() + if lo == 0 && hi == 0 {
            1nat
        } else if poll_hit(differs_from(before), obs) {
            0nat
        } else {
            1nat
        },
        s.qtimer_version_run(lo, hi, cb, raw, version).recorded() == s.recorded() + if lo == 0 && hi == 0 {
            1nat
        } else if raw == 0 {
            1nat
        } else if version == 0 || version == QTIMER_EXPECTED_VERSION {
            0nat
        } else {
            1nat
        },
{
    broadcast use crate::report::group_recorded, lemma_recorded_timer_watched;

}

/// The tests of this suite: each records exactly one error
/// for every expectation that fails and none for those that hold.  The
/// expectations of each test are the conditions counted below, over what
/// the hardware answered.
#[verifier::rlimit(80)]
#[verifier::spinoff_prover]
pub proof fn law_timer_tests_count_failed_expectations()
    ensures
        forall|s: RunState, lo: u32, hi: u32|
            #[trigger] s.qtimer_read_run(lo, hi).recorded() == s.recorded()
                + (if lo != 0 || hi != 0 { 0nat } else { 1nat }),
{
    broadcast use crate::report::group_recorded;

    assert forall|s: RunState, lo: u32, hi: u32|
        #[trigger] s.qtimer_read_run(lo, hi).recorded() == s.recorded()
            + (if lo != 0 || hi != 0 { 0nat } else { 1nat }) by {}
}

} // verus!
