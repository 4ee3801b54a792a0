//! Cache operation tests: invalidation, zero-allocate, clean, enable and
//! disable through SYSCFG, and barriers.

use vstd::prelude::*;
use crate::machine::{Barrier, CacheKill, CacheLineOp, Ev, Hexagon, RunState, Runtime, SysReg};
use crate::regs::{add32, wrapping_add32, SYSCFG_DCACHE_EN, SYSCFG_ICACHE_EN};
use crate::report::{Fatal, TestCase};

verus! {

/// The value `base + step * i` a scratch word is written with or expected
/// to hold.
pub open spec fn word_value(base: u32, step: u32, i: int) -> u32 {
    (base + step * i) as u32
}

impl RunState {
    /// Word-by-word volatile reads of the scratch buffer, each checked
    /// against `word_value(base, step, i)`; `vals` are the values read.
    pub open spec fn words_checked(self, base: u32, step: u32, vals: Seq<u32>) -> RunState
        decreases vals.len(),
    {
        if vals.len() == 0 {
            self
        } else {
            let i = vals.len() - 1;
            self.words_checked(base, step, vals.drop_last()).ev(Ev::ScratchRead(i as u32, vals.last())).check32(
                vals.last(),
                word_value(base, step, i),
            )
        }
    }

    /// Word-by-word volatile writes of `word_value(base, step, i)` to the
    /// first `n` words of the scratch buffer.
    pub open spec fn words_written(self, base: u32, step: u32, n: nat) -> RunState
        decreases n,
    {
        if n == 0 {
            self
        } else {
            let i = n - 1;
            self.words_written(base, step, (n - 1) as nat).ev(Ev::ScratchWrite(i as u32, word_value(base, step, i)))
        }
    }

    /// A volatile store and load of `val` on the stack, checked.
    pub open spec fn echo_checked(self, val: u32, rb: u32) -> RunState {
        self.ev(Ev::Echo(val, rb)).check32(rb, val)
    }

    /// A whole-cache invalidation followed by `isync`.
    pub open spec fn killed(self, k: CacheKill) -> RunState {
        self.ev(Ev::CacheKill(k)).ev(Ev::Barrier(Barrier::Isync))
    }

    pub open spec fn dckill_ickill_run(self, rb: u32) -> RunState {
        self.killed(CacheKill::Dckill).killed(CacheKill::Ickill).echo_checked(0xCAFE, rb)
    }

    pub open spec fn l2kill_run(self, rb: u32) -> RunState {
        self.killed(CacheKill::L2kill).echo_checked(0xBEEF, rb)
    }

    /// Fill a scratch buffer of `n` words with `fill`, apply `op` to the
    /// given line addresses, `syncht`, and check every word.
    pub open spec fn line_op_run(
        self,
        n: u32,
        fill: u32,
        op: CacheLineOp,
        addr: u32,
        lines: nat,
        base: u32,
        step: u32,
        vals: Seq<u32>,
    ) -> RunState {
        let s = self.ev(Ev::ScratchInit(n, fill, addr));
        let t = if lines == 2 {
            s.ev(Ev::CacheLine(op, addr)).ev(Ev::CacheLine(op, add32(addr, 32)))
        } else {
            s.ev(Ev::CacheLine(op, addr))
        };
        t.ev(Ev::Barrier(Barrier::Syncht)).words_checked(base, step, vals)
    }

    /// Zero a scratch buffer of 8 words, write `base + step * i` to word
    /// `i`, apply `op`, `syncht`, and check every word kept its value.
    pub open spec fn written_op_run(self, op: CacheLineOp, base: u32, step: u32, addr: u32, vals: Seq<u32>) -> RunState {
        self.ev(Ev::ScratchInit(8, 0, addr)).words_written(base, step, 8).ev(Ev::CacheLine(op, addr)).ev(
            Ev::Barrier(Barrier::Syncht),
        ).words_checked(base, step, vals)
    }

    pub open spec fn dcache_toggle_run(self, syscfg: u32, with: u32, without: u32, rb: u32) -> RunState {
        self.rd(SysReg::Syscfg, syscfg).wr(SysReg::Syscfg, syscfg | SYSCFG_DCACHE_EN).rd(SysReg::Syscfg, with).check(
            with & SYSCFG_DCACHE_EN != 0,
            "with_dcache & SYSCFG_DCACHE_EN != 0",
        ).wr(SysReg::Syscfg, with & !SYSCFG_DCACHE_EN).rd(SysReg::Syscfg, without).check(
            without & SYSCFG_DCACHE_EN == 0,
            "without_dcache & SYSCFG_DCACHE_EN == 0",
        ).echo_checked(0x1234_5678, rb).wr(SysReg::Syscfg, syscfg | SYSCFG_DCACHE_EN)
    }

    pub open spec fn barriers_run(self) -> RunState {
        self.ev(Ev::Barrier(Barrier::Syncht)).ev(Ev::Barrier(Barrier::Isync)).ev(Ev::Barrier(Barrier::Syncht)).ev(
            Ev::Barrier(Barrier::Isync),
        ).check(true, "true")
    }

    pub open spec fn icache_toggle_run(self, syscfg: u32, with: u32, without: u32) -> RunState {
        self.rd(SysReg::Syscfg, syscfg).wr(SysReg::Syscfg, syscfg | SYSCFG_ICACHE_EN).rd(SysReg::Syscfg, with).check(
            with & SYSCFG_ICACHE_EN != 0,
            "with & SYSCFG_ICACHE_EN != 0",
        ).wr(SysReg::Syscfg, with & !SYSCFG_ICACHE_EN).rd(SysReg::Syscfg, without).check(
            without & SYSCFG_ICACHE_EN == 0,
            "without & SYSCFG_ICACHE_EN == 0",
        ).wr(SysReg::Syscfg, syscfg | SYSCFG_ICACHE_EN)
    }
}

/// Read the first `n` scratch words, checking word `i` against
/// `base + step * i`.
pub fn check_scratch_words<M: Hexagon>(rt: &mut Runtime<M>, n: u32, base: u32, step: u32)
    requires
        n <= 16,
        step <= 1,
        base <= 0xFFFF_0000,
    ensures
        exists|vals: Seq<u32>| vals.len() == n && #[trigger] old(rt)@.words_checked(base, step, vals) == final(rt)@,
{
    let ghost s0 = rt@;
    let ghost mut vals: Seq<u32> = Seq::empty();
    let mut i: u32 = 0;
    while i < n
        invariant
            i <= n <= 16,
            step <= 1,
            base <= 0xFFFF_0000,
            vals.len() == i,
            rt@ == s0.words_checked(base, step, vals),
        decreases n - i,
    {
        let val = rt.scratch_read(i);
        let off: u32 = if step == 0 { 0 } else { i };
        let exp = base + off;
        assert(exp == word_value(base, step, i as int)) by {
            assert(step == 0 ==> step * i == 0) by (nonlinear_arith);
            assert(step == 1 ==> step * i == i) by (nonlinear_arith);
        }
        rt.check32(val, exp);
        proof {
            let v2 = vals.push(val);
            assert(v2.drop_last() =~= vals);
            vals = v2;
        }
        i = i + 1;
    }
}

/// Write `base + step * i` to each of the first `n` scratch words.
pub fn write_scratch_words<M: Hexagon>(rt: &mut Runtime<M>, n: u32, base: u32, step: u32)
    requires
        n <= 16,
        step <= 1,
        base <= 0xFFFF_0000,
    ensures
        final(rt)@ == old(rt)@.words_written(base, step, n as nat),
{
    let ghost s0 = rt@;
    let mut i: u32 = 0;
    while i < n
        invariant
            i <= n <= 16,
            step <= 1,
            base <= 0xFFFF_0000,
            rt@ == s0.words_written(base, step, i as nat),
        decreases n - i,
    {
        let off: u32 = if step == 0 { 0 } else { i };
        let v = base + off;
        assert(v == word_value(base, step, i as int)) by {
            assert(step == 0 ==> step * i == 0) by (nonlinear_arith);
            assert(step == 1 ==> step * i == i) by (nonlinear_arith);
        }
        rt.scratch_write(i, v);
        i = i + 1;
    }
}

/// After `dckill` and `ickill`, memory is still readable.
pub fn test_dckill_ickill<M: Hexagon>(rt: &mut Runtime<M>)
    ensures
        exists|rb: u32| #[trigger] old(rt)@.dckill_ickill_run(rb) == final(rt)@,
{
    rt.dckill();
    rt.isync();
    rt.ickill();
    rt.isync();
    let readback = rt.volatile_echo(0xCAFE);
    rt.check32(readback, 0xCAFE);
    assert(old(rt)@.dckill_ickill_run(readback) == rt@);
}

/// After `l2kill`, memory is still readable.
pub fn test_l2kill<M: Hexagon>(rt: &mut Runtime<M>)
    ensures
        exists|rb: u32| #[trigger] old(rt)@.l2kill_run(rb) == final(rt)@,
{
    rt.l2kill();
    rt.isync();
    let readback = rt.volatile_echo(0xBEEF);
    rt.check32(readback, 0xBEEF);
    assert(old(rt)@.l2kill_run(readback) == rt@);
}

/// `dczeroa` zeroes a 32-byte line that held 0xDEADBEEF.
pub fn test_dczeroa<M: Hexagon>(rt: &mut Runtime<M>)
    ensures
        exists|addr: u32, vals: Seq<u32>|
            #[trigger] old(rt)@.line_op_run(8, 0xDEAD_BEEF, CacheLineOp::Dczeroa, addr, 1, 0, 0, vals) == final(rt)@
                && vals.len() == 8,
{
    let addr = rt.scratch_init(8, 0xDEAD_BEEF);
    rt.dczeroa(addr);
    rt.syncht();
    let ghost s = rt@;
    check_scratch_words(rt, 8, 0, 0);
    let ghost vals = choose|vals: Seq<u32>| vals.len() == 8 && #[trigger] s.words_checked(0, 0, vals) == rt@;
    assert(old(rt)@.line_op_run(8, 0xDEAD_BEEF, CacheLineOp::Dczeroa, addr, 1, 0, 0, vals) == rt@);
}

/// Data written before `dccleaninva` persists.
pub fn test_dccleaninva<M: Hexagon>(rt: &mut Runtime<M>)
    ensures
        exists|addr: u32, vals: Seq<u32>|
            #[trigger] old(rt)@.written_op_run(CacheLineOp::Dccleaninva, 1, 1, addr, vals) == final(rt)@
                && vals.len() == 8,
{
    let addr = rt.scratch_init(8, 0);
    write_scratch_words(rt, 8, 1, 1);
    rt.dccleaninva(addr);
    rt.syncht();
    let ghost s = rt@;
    check_scratch_words(rt, 8, 1, 1);
    let ghost vals = choose|vals: Seq<u32>| vals.len() == 8 && #[trigger] s.words_checked(1, 1, vals) == rt@;
    assert(old(rt)@.written_op_run(CacheLineOp::Dccleaninva, 1, 1, addr, vals) == rt@);
}

/// SYSCFG.DCACHE_EN can be set and cleared, and memory works without the
/// data cache.
pub fn test_cache_disable_enable<M: Hexagon>(rt: &mut Runtime<M>)
    ensures
        exists|s: u32, w: u32, wo: u32, rb: u32| #[trigger] old(rt)@.dcache_toggle_run(s, w, wo, rb) == final(rt)@,
{
    let syscfg = rt.read_syscfg();
    rt.write_syscfg(syscfg | SYSCFG_DCACHE_EN);
    let with_dcache = rt.read_syscfg();
    rt.check(with_dcache & SYSCFG_DCACHE_EN != 0, "with_dcache & SYSCFG_DCACHE_EN != 0");
    rt.write_syscfg(with_dcache & !SYSCFG_DCACHE_EN);
    let without_dcache = rt.read_syscfg();
    rt.check(without_dcache & SYSCFG_DCACHE_EN == 0, "without_dcache & SYSCFG_DCACHE_EN == 0");
    let readback_val = rt.volatile_echo(0x1234_5678);
    rt.check32(readback_val, 0x1234_5678);
    rt.write_syscfg(syscfg | SYSCFG_DCACHE_EN);
    assert(old(rt)@.dcache_toggle_run(syscfg, with_dcache, without_dcache, readback_val) == rt@);
}

/// `syncht` and `isync` execute.
pub fn test_barriers<M: Hexagon>(rt: &mut Runtime<M>)
    ensures
        final(rt)@ == old(rt)@.barriers_run(),
{
    rt.syncht();
    rt.isync();
    rt.syncht();
    rt.isync();
    rt.check(true, "true");
}

/// Memory behind a line invalidated with `dcinva` is still readable.
pub fn test_dcinva<M: Hexagon>(rt: &mut Runtime<M>)
    ensures
        exists|addr: u32, vals: Seq<u32>|
            #[trigger] old(rt)@.line_op_run(8, 0x1111_2222, CacheLineOp::Dcinva, addr, 1, 0x1111_2222, 0, vals)
                == final(rt)@ && vals.len() == 1,
{
    let addr = rt.scratch_init(8, 0x1111_2222);
    rt.dcinva(addr);
    rt.syncht();
    let ghost s = rt@;
    check_scratch_words(rt, 1, 0x1111_2222, 0);
    let ghost vals = choose|vals: Seq<u32>| vals.len() == 1 && #[trigger] s.words_checked(0x1111_2222, 0, vals) == rt@;
    assert(old(rt)@.line_op_run(8, 0x1111_2222, CacheLineOp::Dcinva, addr, 1, 0x1111_2222, 0, vals) == rt@);
}

/// Data written before `dccleana` persists.
pub fn test_dccleana<M: Hexagon>(rt: &mut Runtime<M>)
    ensures
        exists|addr: u32, vals: Seq<u32>|
            #[trigger] old(rt)@.written_op_run(CacheLineOp::Dccleana, 0xAA00, 1, addr, vals) == final(rt)@
                && vals.len() == 8,
{
    let addr = rt.scratch_init(8, 0);
    write_scratch_words(rt, 8, 0xAA00, 1);
    rt.dccleana(addr);
    rt.syncht();
    let ghost s = rt@;
    check_scratch_words(rt, 8, 0xAA00, 1);
    let ghost vals = choose|vals: Seq<u32>| vals.len() == 8 && #[trigger] s.words_checked(0xAA00, 1, vals) == rt@;
    assert(old(rt)@.written_op_run(CacheLineOp::Dccleana, 0xAA00, 1, addr, vals) == rt@);
}

/// SYSCFG.ICACHE_EN can be set and cleared.
pub fn test_icache_toggle<M: Hexagon>(rt: &mut Runtime<M>)
    ensures
        exists|s: u32, w: u32, wo: u32| #[trigger] old(rt)@.icache_toggle_run(s, w, wo) == final(rt)@,
{
    let syscfg = rt.read_syscfg();
    rt.write_syscfg(syscfg | SYSCFG_ICACHE_EN);
    let with = rt.read_syscfg();
    rt.check(with & SYSCFG_ICACHE_EN != 0, "with & SYSCFG_ICACHE_EN != 0");
    rt.write_syscfg(with & !SYSCFG_ICACHE_EN);
    let without = rt.read_syscfg();
    rt.check(without & SYSCFG_ICACHE_EN == 0, "without & SYSCFG_ICACHE_EN == 0");
    rt.write_syscfg(syscfg | SYSCFG_ICACHE_EN);
    assert(old(rt)@.icache_toggle_run(syscfg, with, without) == rt@);
}

/// `dczeroa` on two consecutive lines zeroes all 16 words.
pub fn test_dczeroa_multiple<M: Hexagon>(rt: &mut Runtime<M>)
    ensures
        exists|addr: u32, vals: Seq<u32>|
            #[trigger] old(rt)@.line_op_run(16, 0xBAAD_F00D, CacheLineOp::Dczeroa, addr, 2, 0, 0, vals) == final(rt)@
                && vals.len() == 16,
{
    let base = rt.scratch_init(16, 0xBAAD_F00D);
    rt.dczeroa(base);
    rt.dczeroa(wrapping_add32(base, 32));
    rt.syncht();
    let ghost s = rt@;
    check_scratch_words(rt, 16, 0, 0);
    let ghost vals = choose|vals: Seq<u32>| vals.len() == 16 && #[trigger] s.words_checked(0, 0, vals) == rt@;
    assert(old(rt)@.line_op_run(16, 0xBAAD_F00D, CacheLineOp::Dczeroa, base, 2, 0, 0, vals) == rt@);
}

/// The tests of this suite.
#[derive(Clone, Copy)]
pub enum CacheTest {
    DckillIckill,
    L2kill,
    Dczeroa,
    Dccleaninva,
    CacheDisableEnable,
    Barriers,
    Dcinva,
    Dccleana,
    IcacheToggle,
    DczeroaMultiple,
}

impl TestCase for CacheTest {
    open spec fn runs(&self, pre: RunState, post: RunState) -> bool {
        match *self {
            CacheTest::DckillIckill => exists|v0: u32| #[trigger] pre.dckill_ickill_run(v0) == post,
            CacheTest::L2kill => exists|v0: u32| #[trigger] pre.l2kill_run(v0) == post,
            CacheTest::Dczeroa => exists|addr: u32, vals: Seq<u32>| #[trigger] pre.line_op_run(8, 0xDEAD_BEEF, CacheLineOp::Dczeroa, addr, 1, 0, 0, vals) == post && vals.len() == 8,
            CacheTest::Dccleaninva => exists|addr: u32, vals: Seq<u32>| #[trigger] pre.written_op_run(CacheLineOp::Dccleaninva, 1, 1, addr, vals) == post && vals.len() == 8,
            CacheTest::CacheDisableEnable => exists|v0: u32, v1: u32, v2: u32, v3: u32| #[trigger] pre.dcache_toggle_run(v0, v1, v2, v3) == post,
            CacheTest::Barriers => post == pre.barriers_run(),
            CacheTest::Dcinva => exists|addr: u32, vals: Seq<u32>| #[trigger] pre.line_op_run(8, 0x1111_2222, CacheLineOp::Dcinva, addr, 1, 0x1111_2222, 0, vals) == post && vals.len() == 1,
            CacheTest::Dccleana => exists|addr: u32, vals: Seq<u32>| #[trigger] pre.written_op_run(CacheLineOp::Dccleana, 0xAA00, 1, addr, vals) == post && vals.len() == 8,
            CacheTest::IcacheToggle => exists|v0: u32, v1: u32, v2: u32| #[trigger] pre.icache_toggle_run(v0, v1, v2) == post,
            CacheTest::DczeroaMultiple => exists|addr: u32, vals: Seq<u32>| #[trigger] pre.line_op_run(16, 0xBAAD_F00D, CacheLineOp::Dczeroa, addr, 2, 0, 0, vals) == post && vals.len() == 16,
        }
    }

    open spec fn aborts(&self, pre: RunState, post: RunState, f: Fatal) -> bool {
        false
    }

    open spec fn at(&self) -> &'static str {
        match *self {
            CacheTest::DckillIckill => "src/suites/cache.rs:test_dckill_ickill",
            CacheTest::L2kill => "src/suites/cache.rs:test_l2kill",
            CacheTest::Dczeroa => "src/suites/cache.rs:test_dczeroa",
            CacheTest::Dccleaninva => "src/suites/cache.rs:test_dccleaninva",
            CacheTest::CacheDisableEnable => "src/suites/cache.rs:test_cache_disable_enable",
            CacheTest::Barriers => "src/suites/cache.rs:test_barriers",
            CacheTest::Dcinva => "src/suites/cache.rs:test_dcinva",
            CacheTest::Dccleana => "src/suites/cache.rs:test_dccleana",
            CacheTest::IcacheToggle => "src/suites/cache.rs:test_icache_toggle",
            CacheTest::DczeroaMultiple => "src/suites/cache.rs:test_dczeroa_multiple",
        }
    }

    fn location(&self) -> (at: &'static str) {
        match *self {
            CacheTest::DckillIckill => "src/suites/cache.rs:test_dckill_ickill",
            CacheTest::L2kill => "src/suites/cache.rs:test_l2kill",
            CacheTest::Dczeroa => "src/suites/cache.rs:test_dczeroa",
            CacheTest::Dccleaninva => "src/suites/cache.rs:test_dccleaninva",
            CacheTest::CacheDisableEnable => "src/suites/cache.rs:test_cache_disable_enable",
            CacheTest::Barriers => "src/suites/cache.rs:test_barriers",
            CacheTest::Dcinva => "src/suites/cache.rs:test_dcinva",
            CacheTest::Dccleana => "src/suites/cache.rs:test_dccleana",
            CacheTest::IcacheToggle => "src/suites/cache.rs:test_icache_toggle",
            CacheTest::DczeroaMultiple => "src/suites/cache.rs:test_dczeroa_multiple",
        }
    }

    fn run<M: Hexagon>(&self, rt: &mut Runtime<M>) -> (r: Result<(), Fatal>) {
        match *self {
            CacheTest::DckillIckill => {
                test_dckill_ickill(rt);
                Ok(())
            },
            CacheTest::L2kill => {
                test_l2kill(rt);
                Ok(())
            },
            CacheTest::Dczeroa => {
                test_dczeroa(rt);
                Ok(())
            },
            CacheTest::Dccleaninva => {
                test_dccleaninva(rt);
                Ok(())
            },
            CacheTest::CacheDisableEnable => {
                test_cache_disable_enable(rt);
                Ok(())
            },
            CacheTest::Barriers => {
                test_barriers(rt);
                Ok(())
            },
            CacheTest::Dcinva => {
                test_dcinva(rt);
                Ok(())
            },
            CacheTest::Dccleana => {
                test_dccleana(rt);
                Ok(())
            },
            CacheTest::IcacheToggle => {
                test_icache_toggle(rt);
                Ok(())
            },
            CacheTest::DczeroaMultiple => {
                test_dczeroa_multiple(rt);
                Ok(())
            },
        }
    }
}

/// The suite's tests, in the order they run.
pub open spec fn cache_tests() -> Seq<(&'static str, CacheTest)> {
    seq![
        ("dckill_ickill", CacheTest::DckillIckill),
        ("l2kill", CacheTest::L2kill),
        ("dczeroa", CacheTest::Dczeroa),
        ("dccleaninva", CacheTest::Dccleaninva),
        ("cache_disable_enable", CacheTest::CacheDisableEnable),
        ("barriers", CacheTest::Barriers),
        ("dcinva", CacheTest::Dcinva),
        ("dccleana", CacheTest::Dccleana),
        ("icache_toggle", CacheTest::IcacheToggle),
        ("dczeroa_multiple", CacheTest::DczeroaMultiple),
    ]
}

/// Run the cache operation suite and return its error count.
pub fn rust_main<M: Hexagon>(rt: &mut Runtime<M>) -> (code: i32)
    ensures
        old(rt)@.suite_begin("Cache Operations").suite_ran(cache_tests(), final(rt)@, code),
{
    rt.test_suite_begin("Cache Operations");
    let tests = [
        ("dckill_ickill", CacheTest::DckillIckill),
        ("l2kill", CacheTest::L2kill),
        ("dczeroa", CacheTest::Dczeroa),
        ("dccleaninva", CacheTest::Dccleaninva),
        ("cache_disable_enable", CacheTest::CacheDisableEnable),
        ("barriers", CacheTest::Barriers),
        ("dcinva", CacheTest::Dcinva),
        ("dccleana", CacheTest::Dccleana),
        ("icache_toggle", CacheTest::IcacheToggle),
        ("dczeroa_multiple", CacheTest::DczeroaMultiple),
    ];
    assert(tests@ =~= cache_tests());
    rt.run_suite(&tests)
}

/// The tests of this suite: each records exactly one error
/// for every expectation that fails and none for those that hold.  The
/// expectations of each test are the conditions counted below, over what
/// the hardware answered.
#[verifier::rlimit(80)]
#[verifier::spinoff_prover]
pub proof fn law_cache_tests_count_failed_expectations()
    ensures
        forall|s: RunState, rb: u32|
            #[trigger] s.dckill_ickill_run(rb).recorded() == s.recorded()
                + (if (rb) == (0xCAFE) { 0nat } else { 1nat }),
        forall|s: RunState, rb: u32|
            #[trigger] s.l2kill_run(rb).recorded() == s.recorded()
                + (if (rb) == (0xBEEF) { 0nat } else { 1nat }),
        forall|s: RunState, syscfg: u32, with: u32, without: u32, rb: u32|
            #[trigger] s.dcache_toggle_run(syscfg, with, without, rb).recorded() == s.recorded()
                + (if with & SYSCFG_DCACHE_EN != 0 { 0nat } else { 1nat })
                + (if without & SYSCFG_DCACHE_EN == 0 { 0nat } else { 1nat })
                + (if (rb) == (0x1234_5678) { 0nat } else { 1nat }),
        forall|s: RunState|
            #[trigger] s.barriers_run().recorded() == s.recorded()
                + (if true { 0nat } else { 1nat }),
        forall|s: RunState, syscfg: u32, with: u32, without: u32|
            #[trigger] s.icache_toggle_run(syscfg, with, without).recorded() == s.recorded()
                + (if with & SYSCFG_ICACHE_EN != 0 { 0nat } else { 1nat })
                + (if without & SYSCFG_ICACHE_EN == 0 { 0nat } else { 1nat }),
{
    broadcast use crate::report::group_recorded;

    assert forall|s: RunState, rb: u32|
        #[trigger] s.dckill_ickill_run(rb).recorded() == s.recorded()
            + (if (rb) == (0xCAFE) { 0nat } else { 1nat }) by {}
    assert forall|s: RunState, rb: u32|
        #[trigger] s.l2kill_run(rb).recorded() == s.recorded()
            + (if (rb) == (0xBEEF) { 0nat } else { 1nat }) by {}
    assert forall|s: RunState, syscfg: u32, with: u32, without: u32, rb: u32|
        #[trigger] s.dcache_toggle_run(syscfg, with, without, rb).recorded() == s.recorded()
            + (if with & SYSCFG_DCACHE_EN != 0 { 0nat } else { 1nat })
            + (if without & SYSCFG_DCACHE_EN == 0 { 0nat } else { 1nat })
            + (if (rb) == (0x1234_5678) { 0nat } else { 1nat }) by {}
    assert forall|s: RunState|
        #[trigger] s.barriers_run().recorded() == s.recorded()
            + (if true { 0nat } else { 1nat }) by {}
    assert forall|s: RunState, syscfg: u32, with: u32, without: u32|
        #[trigger] s.icache_toggle_run(syscfg, with, without).recorded() == s.recorded()
            + (if with & SYSCFG_ICACHE_EN != 0 { 0nat } else { 1nat })
            + (if without & SYSCFG_ICACHE_EN == 0 { 0nat } else { 1nat }) by {}
}

} // verus!
