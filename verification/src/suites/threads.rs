//! Hardware thread tests: start, stop, wait and resume; MODECTL state;
//! shared-memory communication; per-thread HTID; STID priority; SCHEDCFG
//! and BESTWAIT.

use vstd::prelude::*;
use crate::machine::{Ev, Hexagon, RunState, Runtime, Shared, SysReg, ThreadCtl, ThreadEntry};
use crate::regs::{lemma_bit_values, stid_prio, stid_prio_spec, stid_with_prio, stid_with_prio_spec};
use crate::report::{Fatal, TestCase};
use crate::runtime::{equals, poll_hit, poll_run, thread_bit_clear};
use crate::suites::common::{reg_roundtrip_masked, wait_flag_checked, wait_stopped, wait_stopped_checked};

verus! {

/// How many times a flag or MODECTL is polled.
pub const POLL_LIMIT: u32 = 10000;

impl RunState {
    pub open spec fn start_stop_run(self, o1: Seq<u32>, o2: Seq<u32>) -> RunState {
        self.st(Shared::ThreadFlag, 0).st(Shared::ThreadHtid, 0xFFFF).entry(1, ThreadEntry::Thread1Basic).start(
            2,
        ).flag_checked(Shared::ThreadFlag, 1, "ok", o1).stop_checked(1, "stopped", o2)
    }

    pub open spec fn modectl_state_run(self, before: u32, o1: Seq<u32>, o2: Seq<u32>, after: u32) -> RunState {
        self.rd(SysReg::Modectl, before).check(before & 1 != 0, "before & 1 != 0").check(
            before & 2 == 0,
            "before & (1 << 1) == 0",
        ).st(Shared::ThreadFlag, 0).st(Shared::ThreadData, 0).entry(1, ThreadEntry::Thread1DataWriter).start(
            2,
        ).flag_checked(Shared::ThreadFlag, 1, "ok", o1).stop_checked(1, "stopped", o2).rd(
            SysReg::Modectl,
            after,
        ).check(after & 2 == 0, "after & (1 << 1) == 0")
    }

    pub open spec fn per_thread_htid_run(self, o1: Seq<u32>, h: u32, o2: Seq<u32>) -> RunState {
        self.st(Shared::ThreadFlag, 0).st(Shared::ThreadHtid, 0xFFFF).entry(1, ThreadEntry::Thread1Basic).start(
            2,
        ).flag_checked(Shared::ThreadFlag, 1, "ok", o1).ld(Shared::ThreadHtid, h).check32(h, 1).stop_polled(1, o2)
    }

    pub open spec fn shared_memory_run(self, o1: Seq<u32>, d: u32, o2: Seq<u32>) -> RunState {
        self.st(Shared::ThreadFlag, 0).st(Shared::ThreadData, 0).entry(1, ThreadEntry::Thread1DataWriter).start(
            2,
        ).flag_checked(Shared::ThreadFlag, 1, "ok", o1).ld(Shared::ThreadData, d).check32(d, 0xCAFE_BABE).stop_polled(
            1,
            o2,
        )
    }

    pub open spec fn multiple_threads_run(
        self,
        o1: Seq<u32>,
        o2: Seq<u32>,
        o3: Seq<u32>,
        o4: Seq<u32>,
        h: u32,
    ) -> RunState {
        self.st(Shared::ThreadFlag, 0).st(Shared::Thread2Flag, 0).st(Shared::ThreadHtid, 0xFFFF).entry(
            1,
            ThreadEntry::Thread1Basic,
        ).entry(2, ThreadEntry::Thread2Flag).start(6).flag_polled(Shared::ThreadFlag, 1, o1).flag_polled(
            Shared::Thread2Flag,
            1,
            o2,
        ).check(poll_hit(equals(1), o1), "ok1").check(poll_hit(equals(1), o2), "ok2").stop_polled(1, o3).stop_polled(
            2,
            o4,
        ).ld(Shared::ThreadHtid, h).check32(h, 1)
    }

    pub open spec fn wait_resume_run(self, o1: Seq<u32>, m: u32, o2: Seq<u32>, o3: Seq<u32>) -> RunState {
        self.st(Shared::ThreadFlag, 0).st(Shared::ThreadResumed, 0).entry(1, ThreadEntry::Thread1WaitResume).start(
            2,
        ).flag_checked(Shared::ThreadFlag, 1, "alive", o1).delay(200).rd(SysReg::Modectl, m).check(
            m & 0x2_0000 != 0,
            "modectl & (1 << 17) != 0",
        ).ev(Ev::ThreadCtl(ThreadCtl::Resume, 2)).flag_checked(Shared::ThreadResumed, 1, "resumed", o2).stop_polled(
            1,
            o3,
        )
    }

    pub open spec fn stid_priority_run(self, saved: u32, rb: u32) -> RunState {
        self.rd(SysReg::Stid, saved).wr(SysReg::Stid, stid_with_prio_spec(saved, 42)).rd(SysReg::Stid, rb).check32(
            stid_prio_spec(rb),
            42,
        ).wr(SysReg::Stid, saved)
    }

    /// Thread 1's basic entry: publish HTID, then raise the flag.
    pub open spec fn thread1_basic_run(self, htid: u32) -> RunState {
        self.rd(SysReg::Htid, htid).st(Shared::ThreadHtid, htid).st(Shared::ThreadFlag, 1)
    }

    /// Thread 1's data-writer entry.
    pub open spec fn thread1_data_writer_run(self) -> RunState {
        self.st(Shared::ThreadData, 0xCAFE_BABE).st(Shared::ThreadFlag, 1)
    }

    /// Thread 1's wait/resume entry: raise the flag, wait, and on resume
    /// raise the resumed flag.
    pub open spec fn thread1_wait_resume_run(self) -> RunState {
        self.st(Shared::ThreadFlag, 1).ev(Ev::ThreadCtl(ThreadCtl::Wait, 0)).st(Shared::ThreadResumed, 1)
    }
}

/// Secondary thread entry: publish HTID, then set the flag.
pub fn thread1_basic<M: Hexagon>(rt: &mut Runtime<M>)
    ensures
        exists|h: u32| #[trigger] old(rt)@.thread1_basic_run(h) == final(rt)@,
{
    let htid = rt.read_htid();
    rt.shared_store(Shared::ThreadHtid, htid);
    rt.shared_store(Shared::ThreadFlag, 1);
    assert(old(rt)@.thread1_basic_run(htid) == rt@);
}

/// Secondary thread entry: write a data pattern, then set the flag.
pub fn thread1_data_writer<M: Hexagon>(rt: &mut Runtime<M>)
    ensures
        final(rt)@ == old(rt)@.thread1_data_writer_run(),
{
    rt.shared_store(Shared::ThreadData, 0xCAFE_BABE);
    rt.shared_store(Shared::ThreadFlag, 1);
}

/// Thread 2 entry: set its own flag.
pub fn thread2_entry<M: Hexagon>(rt: &mut Runtime<M>)
    ensures
        final(rt)@ == old(rt)@.st(Shared::Thread2Flag, 1),
{
    rt.shared_store(Shared::Thread2Flag, 1);
}

/// Thread entry that signals it is alive, waits, and signals again once
/// resumed.
pub fn thread1_wait_resume<M: Hexagon>(rt: &mut Runtime<M>)
    ensures
        final(rt)@ == old(rt)@.thread1_wait_resume_run(),
{
    rt.shared_store(Shared::ThreadFlag, 1);
    rt.wait_self(0);
    rt.shared_store(Shared::ThreadResumed, 1);
}

/// Thread 1 runs, sets its flag, and stops.
pub fn test_start_stop_thread<M: Hexagon>(rt: &mut Runtime<M>)
    ensures
        exists|o1: Seq<u32>, o2: Seq<u32>|
            #[trigger] old(rt)@.start_stop_run(o1, o2) == final(rt)@ && poll_run(equals(1), POLL_LIMIT, o1)
                && poll_run(thread_bit_clear(1), POLL_LIMIT, o2),
{
    proof {
        lemma_bit_values();
    }
    rt.shared_store(Shared::ThreadFlag, 0);
    rt.shared_store(Shared::ThreadHtid, 0xFFFF);
    rt.set_thread_entry(1, Some(ThreadEntry::Thread1Basic));
    rt.start_threads(1 << 1);
    let ghost s1 = rt@;
    wait_flag_checked(rt, Shared::ThreadFlag, 1, POLL_LIMIT, "ok");
    let ghost o1 = choose|o: Seq<u32>| #[trigger] s1.flag_checked(Shared::ThreadFlag, 1, "ok", o) == rt@ && poll_run(equals(1), POLL_LIMIT, o);
    let ghost s2 = rt@;
    wait_stopped_checked(rt, 1, POLL_LIMIT, "stopped");
    let ghost o2 = choose|o: Seq<u32>| #[trigger] s2.stop_checked(1, "stopped", o) == rt@ && poll_run(thread_bit_clear(1), POLL_LIMIT, o);
    assert(old(rt)@.start_stop_run(o1, o2) == rt@);
}

/// MODECTL shows thread 0 enabled and thread 1 stopped before and after
/// thread 1 runs.
pub fn test_modectl_state<M: Hexagon>(rt: &mut Runtime<M>)
    ensures
        exists|b: u32, o1: Seq<u32>, o2: Seq<u32>, a: u32|
            #[trigger] old(rt)@.modectl_state_run(b, o1, o2, a) == final(rt)@ && poll_run(equals(1), POLL_LIMIT, o1)
                && poll_run(thread_bit_clear(1), POLL_LIMIT, o2),
{
    proof {
        lemma_bit_values();
    }
    let before = rt.read_modectl();
    rt.check(before & 1 != 0, "before & 1 != 0");
    rt.check(before & (1 << 1) == 0, "before & (1 << 1) == 0");
    rt.shared_store(Shared::ThreadFlag, 0);
    rt.shared_store(Shared::ThreadData, 0);
    rt.set_thread_entry(1, Some(ThreadEntry::Thread1DataWriter));
    rt.start_threads(1 << 1);
    let ghost s1 = rt@;
    wait_flag_checked(rt, Shared::ThreadFlag, 1, POLL_LIMIT, "ok");
    let ghost o1 = choose|o: Seq<u32>| #[trigger] s1.flag_checked(Shared::ThreadFlag, 1, "ok", o) == rt@ && poll_run(equals(1), POLL_LIMIT, o);
    let ghost s2 = rt@;
    wait_stopped_checked(rt, 1, POLL_LIMIT, "stopped");
    let ghost o2 = choose|o: Seq<u32>| #[trigger] s2.stop_checked(1, "stopped", o) == rt@ && poll_run(thread_bit_clear(1), POLL_LIMIT, o);
    let after = rt.read_modectl();
    rt.check(after & (1 << 1) == 0, "after & (1 << 1) == 0");
    assert(old(rt)@.modectl_state_run(before, o1, o2, after) == rt@);
}

/// Thread 1 reads HTID = 1.
pub fn test_per_thread_htid<M: Hexagon>(rt: &mut Runtime<M>)
    ensures
        exists|o1: Seq<u32>, h: u32, o2: Seq<u32>|
            #[trigger] old(rt)@.per_thread_htid_run(o1, h, o2) == final(rt)@ && poll_run(equals(1), POLL_LIMIT, o1)
                && poll_run(thread_bit_clear(1), POLL_LIMIT, o2),
{
    proof {
        lemma_bit_values();
    }
    rt.shared_store(Shared::ThreadFlag, 0);
    rt.shared_store(Shared::ThreadHtid, 0xFFFF);
    rt.set_thread_entry(1, Some(ThreadEntry::Thread1Basic));
    rt.start_threads(1 << 1);
    let ghost s1 = rt@;
    wait_flag_checked(rt, Shared::ThreadFlag, 1, POLL_LIMIT, "ok");
    let ghost o1 = choose|o: Seq<u32>| #[trigger] s1.flag_checked(Shared::ThreadFlag, 1, "ok", o) == rt@ && poll_run(equals(1), POLL_LIMIT, o);
    let h = rt.shared_load(Shared::ThreadHtid);
    rt.check32(h, 1);
    let ghost s2 = rt@;
    wait_stopped(rt, 1, POLL_LIMIT);
    let ghost o2 = choose|o: Seq<u32>| #[trigger] s2.stop_polled(1, o) == rt@ && poll_run(thread_bit_clear(1), POLL_LIMIT, o);
    assert(old(rt)@.per_thread_htid_run(o1, h, o2) == rt@);
}

/// Thread 1 writes shared memory that thread 0 then reads.
pub fn test_shared_memory<M: Hexagon>(rt: &mut Runtime<M>)
    ensures
        exists|o1: Seq<u32>, d: u32, o2: Seq<u32>|
            #[trigger] old(rt)@.shared_memory_run(o1, d, o2) == final(rt)@ && poll_run(equals(1), POLL_LIMIT, o1)
                && poll_run(thread_bit_clear(1), POLL_LIMIT, o2),
{
    proof {
        lemma_bit_values();
    }
    rt.shared_store(Shared::ThreadFlag, 0);
    rt.shared_store(Shared::ThreadData, 0);
    rt.set_thread_entry(1, Some(ThreadEntry::Thread1DataWriter));
    rt.start_threads(1 << 1);
    let ghost s1 = rt@;
    wait_flag_checked(rt, Shared::ThreadFlag, 1, POLL_LIMIT, "ok");
    let ghost o1 = choose|o: Seq<u32>| #[trigger] s1.flag_checked(Shared::ThreadFlag, 1, "ok", o) == rt@ && poll_run(equals(1), POLL_LIMIT, o);
    let d = rt.shared_load(Shared::ThreadData);
    rt.check32(d, 0xCAFE_BABE);
    let ghost s2 = rt@;
    wait_stopped(rt, 1, POLL_LIMIT);
    let ghost o2 = choose|o: Seq<u32>| #[trigger] s2.stop_polled(1, o) == rt@ && poll_run(thread_bit_clear(1), POLL_LIMIT, o);
    assert(old(rt)@.shared_memory_run(o1, d, o2) == rt@);
}

/// Threads 1 and 2 started together both run and stop; thread 1 read
/// HTID = 1.
pub fn test_multiple_threads<M: Hexagon>(rt: &mut Runtime<M>)
    ensures
        exists|o1: Seq<u32>, o2: Seq<u32>, o3: Seq<u32>, o4: Seq<u32>, h: u32|
            #[trigger] old(rt)@.multiple_threads_run(o1, o2, o3, o4, h) == final(rt)@ && poll_run(
                equals(1),
                POLL_LIMIT,
                o1,
            ) && poll_run(equals(1), POLL_LIMIT, o2) && poll_run(thread_bit_clear(1), POLL_LIMIT, o3) && poll_run(
                thread_bit_clear(2),
                POLL_LIMIT,
                o4,
            ),
{
    proof {
        lemma_bit_values();
    }
    rt.shared_store(Shared::ThreadFlag, 0);
    rt.shared_store(Shared::Thread2Flag, 0);
    rt.shared_store(Shared::ThreadHtid, 0xFFFF);
    rt.set_thread_entry(1, Some(ThreadEntry::Thread1Basic));
    rt.set_thread_entry(2, Some(ThreadEntry::Thread2Flag));
    assert(0x2u32 | 0x4u32 == 6) by (bit_vector);
    rt.start_threads((1 << 1) | (1 << 2));
    let ghost s1 = rt@;
    let ok1 = rt.wait_for_flag(Shared::ThreadFlag, 1, POLL_LIMIT);
    let ghost o1 = choose|o: Seq<u32>| #![trigger s1.flag_polled(Shared::ThreadFlag, 1, o)] poll_run(equals(1), POLL_LIMIT, o) && ok1 == poll_hit(equals(1), o) && rt@ == s1.flag_polled(Shared::ThreadFlag, 1, o);
    let ghost s2 = rt@;
    let ok2 = rt.wait_for_flag(Shared::Thread2Flag, 1, POLL_LIMIT);
    let ghost o2 = choose|o: Seq<u32>| #![trigger s2.flag_polled(Shared::Thread2Flag, 1, o)] poll_run(equals(1), POLL_LIMIT, o) && ok2 == poll_hit(equals(1), o) && rt@ == s2.flag_polled(Shared::Thread2Flag, 1, o);
    rt.check(ok1, "ok1");
    rt.check(ok2, "ok2");
    let ghost s3 = rt@;
    wait_stopped(rt, 1, POLL_LIMIT);
    let ghost o3 = choose|o: Seq<u32>| #[trigger] s3.stop_polled(1, o) == rt@ && poll_run(thread_bit_clear(1), POLL_LIMIT, o);
    let ghost s4 = rt@;
    wait_stopped(rt, 2, POLL_LIMIT);
    let ghost o4 = choose|o: Seq<u32>| #[trigger] s4.stop_polled(2, o) == rt@ && poll_run(thread_bit_clear(2), POLL_LIMIT, o);
    let h = rt.shared_load(Shared::ThreadHtid);
    rt.check32(h, 1);
    assert(old(rt)@.multiple_threads_run(o1, o2, o3, o4, h) == rt@);
}

/// Thread 1 enters wait mode (MODECTL wait bit 17 set), and runs on when
/// resumed.
pub fn test_wait_resume<M: Hexagon>(rt: &mut Runtime<M>)
    ensures
        exists|o1: Seq<u32>, m: u32, o2: Seq<u32>, o3: Seq<u32>|
            #[trigger] old(rt)@.wait_resume_run(o1, m, o2, o3) == final(rt)@ && poll_run(equals(1), POLL_LIMIT, o1)
                && poll_run(equals(1), POLL_LIMIT, o2) && poll_run(thread_bit_clear(1), POLL_LIMIT, o3),
{
    proof {
        lemma_bit_values();
    }
    rt.shared_store(Shared::ThreadFlag, 0);
    rt.shared_store(Shared::ThreadResumed, 0);
    rt.set_thread_entry(1, Some(ThreadEntry::Thread1WaitResume));
    rt.start_threads(1 << 1);
    let ghost s1 = rt@;
    wait_flag_checked(rt, Shared::ThreadFlag, 1, POLL_LIMIT, "alive");
    let ghost o1 = choose|o: Seq<u32>| #[trigger] s1.flag_checked(Shared::ThreadFlag, 1, "alive", o) == rt@ && poll_run(equals(1), POLL_LIMIT, o);
    rt.busy_loop(200);
    let modectl = rt.read_modectl();
    rt.check(modectl & (1 << 17) != 0, "modectl & (1 << 17) != 0");
    rt.resume_threads(1 << 1);
    let ghost s2 = rt@;
    wait_flag_checked(rt, Shared::ThreadResumed, 1, POLL_LIMIT, "resumed");
    let ghost o2 = choose|o: Seq<u32>| #[trigger] s2.flag_checked(Shared::ThreadResumed, 1, "resumed", o) == rt@ && poll_run(equals(1), POLL_LIMIT, o);
    let ghost s3 = rt@;
    wait_stopped(rt, 1, POLL_LIMIT);
    let ghost o3 = choose|o: Seq<u32>| #[trigger] s3.stop_polled(1, o) == rt@ && poll_run(thread_bit_clear(1), POLL_LIMIT, o);
    assert(old(rt)@.wait_resume_run(o1, modectl, o2, o3) == rt@);
}

/// STID.PRIO (bits 23:16) reads back a written priority.
pub fn test_stid_priority<M: Hexagon>(rt: &mut Runtime<M>)
    ensures
        exists|s: u32, r: u32| #[trigger] old(rt)@.stid_priority_run(s, r) == final(rt)@,
{
    let saved = rt.read_stid();
    let prio: u32 = 42;
    let new_stid = stid_with_prio(saved, prio);
    rt.write_stid(new_stid);
    let rb = rt.read_stid();
    rt.check32(stid_prio(rb), prio);
    rt.write_stid(saved);
    assert(old(rt)@.stid_priority_run(saved, rb) == rt@);
}

/// SCHEDCFG's EN and INTNO fields read back written values.
pub fn test_schedcfg_readwrite<M: Hexagon>(rt: &mut Runtime<M>)
    ensures
        exists|s: u32, r: u32|
            #[trigger] old(rt)@.reg_roundtrip_masked(SysReg::Schedcfg, 0x105, 0x10F, s, r) == final(rt)@,
{
    proof {
        lemma_bit_values();
    }
    assert(0x100u32 | 5u32 == 0x105) by (bit_vector);
    reg_roundtrip_masked(rt, SysReg::Schedcfg, (1 << 8) | 5, 0x10F);
}

/// BESTWAIT reads back a written value.
pub fn test_bestwait_readwrite<M: Hexagon>(rt: &mut Runtime<M>)
    ensures
        exists|s: u32, r: u32|
            #[trigger] old(rt)@.reg_roundtrip_masked(SysReg::Bestwait, 0x7F, 0x1FF, s, r) == final(rt)@,
{
    reg_roundtrip_masked(rt, SysReg::Bestwait, 0x7F, 0x1FF);
}

/// The tests of this suite.
#[derive(Clone, Copy)]
pub enum ThreadsTest {
    StartStopThread,
    ModectlState,
    PerThreadHtid,
    SharedMemory,
    MultipleThreads,
    WaitResume,
    StidPriority,
    SchedcfgReadwrite,
    BestwaitReadwrite,
}

impl TestCase for ThreadsTest {
    open spec fn runs(&self, pre: RunState, post: RunState) -> bool {
        match *self {
            ThreadsTest::StartStopThread => exists|v0: Seq<u32>, v1: Seq<u32>| #[trigger] pre.start_stop_run(v0, v1) == post && poll_run(equals(1), POLL_LIMIT, v0) && poll_run(thread_bit_clear(1), POLL_LIMIT, v1),
            ThreadsTest::ModectlState => exists|v0: u32, v1: Seq<u32>, v2: Seq<u32>, v3: u32| #[trigger] pre.modectl_state_run(v0, v1, v2, v3) == post && poll_run(equals(1), POLL_LIMIT, v1) && poll_run(thread_bit_clear(1), POLL_LIMIT, v2),
            ThreadsTest::PerThreadHtid => exists|v0: Seq<u32>, v1: u32, v2: Seq<u32>| #[trigger] pre.per_thread_htid_run(v0, v1, v2) == post && poll_run(equals(1), POLL_LIMIT, v0) && poll_run(thread_bit_clear(1), POLL_LIMIT, v2),
            ThreadsTest::SharedMemory => exists|v0: Seq<u32>, v1: u32, v2: Seq<u32>| #[trigger] pre.shared_memory_run(v0, v1, v2) == post && poll_run(equals(1), POLL_LIMIT, v0) && poll_run(thread_bit_clear(1), POLL_LIMIT, v2),
            ThreadsTest::MultipleThreads => exists|v0: Seq<u32>, v1: Seq<u32>, v2: Seq<u32>, v3: Seq<u32>, v4: u32| #[trigger] pre.multiple_threads_run(v0, v1, v2, v3, v4) == post && poll_run(equals(1), POLL_LIMIT, v0) && poll_run(equals(1), POLL_LIMIT, v1) && poll_run(thread_bit_clear(1), POLL_LIMIT, v2) && poll_run(thread_bit_clear(2), POLL_LIMIT, v3),
            ThreadsTest::WaitResume => exists|v0: Seq<u32>, v1: u32, v2: Seq<u32>, v3: Seq<u32>| #[trigger] pre.wait_resume_run(v0, v1, v2, v3) == post && poll_run(equals(1), POLL_LIMIT, v0) && poll_run(equals(1), POLL_LIMIT, v2) && poll_run(thread_bit_clear(1), POLL_LIMIT, v3),
            ThreadsTest::StidPriority => exists|v0: u32, v1: u32| #[trigger] pre.stid_priority_run(v0, v1) == post,
            ThreadsTest::SchedcfgReadwrite => exists|s: u32, r: u32| #[trigger] pre.reg_roundtrip_masked(SysReg::Schedcfg, 0x105, 0x10F, s, r) == post,
            ThreadsTest::BestwaitReadwrite => exists|s: u32, r: u32| #[trigger] pre.reg_roundtrip_masked(SysReg::Bestwait, 0x7F, 0x1FF, s, r) == post,
        }
    }

    open spec fn aborts(&self, pre: RunState, post: RunState, f: Fatal) -> bool {
        false
    }

    open spec fn at(&self) -> &'static str {
        match *self {
            ThreadsTest::StartStopThread => "src/suites/threads.rs:test_start_stop_thread",
            ThreadsTest::ModectlState => "src/suites/threads.rs:test_modectl_state",
            ThreadsTest::PerThreadHtid => "src/suites/threads.rs:test_per_thread_htid",
            ThreadsTest::SharedMemory => "src/suites/threads.rs:test_shared_memory",
            ThreadsTest::MultipleThreads => "src/suites/threads.rs:test_multiple_threads",
            ThreadsTest::WaitResume => "src/suites/threads.rs:test_wait_resume",
            ThreadsTest::StidPriority => "src/suites/threads.rs:test_stid_priority",
            ThreadsTest::SchedcfgReadwrite => "src/suites/threads.rs:test_schedcfg_readwrite",
            ThreadsTest::BestwaitReadwrite => "src/suites/threads.rs:test_bestwait_readwrite",
        }
    }

    fn location(&self) -> (at: &'static str) {
        match *self {
            ThreadsTest::StartStopThread => "src/suites/threads.rs:test_start_stop_thread",
            ThreadsTest::ModectlState => "src/suites/threads.rs:test_modectl_state",
            ThreadsTest::PerThreadHtid => "src/suites/threads.rs:test_per_thread_htid",
            ThreadsTest::SharedMemory => "src/suites/threads.rs:test_shared_memory",
            ThreadsTest::MultipleThreads => "src/suites/threads.rs:test_multiple_threads",
            ThreadsTest::WaitResume => "src/suites/threads.rs:test_wait_resume",
            ThreadsTest::StidPriority => "src/suites/threads.rs:test_stid_priority",
            ThreadsTest::SchedcfgReadwrite => "src/suites/threads.rs:test_schedcfg_readwrite",
            ThreadsTest::BestwaitReadwrite => "src/suites/threads.rs:test_bestwait_readwrite",
        }
    }

    fn run<M: Hexagon>(&self, rt: &mut Runtime<M>) -> (r: Result<(), Fatal>) {
        match *self {
            ThreadsTest::StartStopThread => {
                test_start_stop_thread(rt);
                Ok(())
            },
            ThreadsTest::ModectlState => {
                test_modectl_state(rt);
                Ok(())
            },
            ThreadsTest::PerThreadHtid => {
                test_per_thread_htid(rt);
                Ok(())
            },
            ThreadsTest::SharedMemory => {
                test_shared_memory(rt);
                Ok(())
            },
            ThreadsTest::MultipleThreads => {
                test_multiple_threads(rt);
                Ok(())
            },
            ThreadsTest::WaitResume => {
                test_wait_resume(rt);
                Ok(())
            },
            ThreadsTest::StidPriority => {
                test_stid_priority(rt);
                Ok(())
            },
            ThreadsTest::SchedcfgReadwrite => {
                test_schedcfg_readwrite(rt);
                Ok(())
            },
            ThreadsTest::BestwaitReadwrite => {
                test_bestwait_readwrite(rt);
                Ok(())
            },
        }
    }
}

/// The suite's tests, in the order they run.
pub open spec fn threads_tests() -> Seq<(&'static str, ThreadsTest)> {
    seq![
        ("start_stop_thread", ThreadsTest::StartStopThread),
        ("modectl_state", ThreadsTest::ModectlState),
        ("per_thread_htid", ThreadsTest::PerThreadHtid),
        ("shared_memory", ThreadsTest::SharedMemory),
        ("multiple_threads", ThreadsTest::MultipleThreads),
        ("wait_resume", ThreadsTest::WaitResume),
        ("stid_priority", ThreadsTest::StidPriority),
        ("schedcfg_readwrite", ThreadsTest::SchedcfgReadwrite),
        ("bestwait_readwrite", ThreadsTest::BestwaitReadwrite),
    ]
}

/// Run the hardware thread suite (threads 0-2 required) and return its error count.
pub fn rust_main<M: Hexagon>(rt: &mut Runtime<M>) -> (code: i32)
    ensures
        exists|cb: u32, avail: u32|
            #![trigger old(rt)@.suite_begin("Hardware Threads").threads_required(0x7, cb, avail)]
            old(rt)@.suite_begin("Hardware Threads").threads_required(0x7, cb, avail).summarized(final(rt)@, code)
                && avail & 0x7 != 0x7
            || old(rt)@.suite_begin("Hardware Threads").threads_required(0x7, cb, avail).suite_ran(threads_tests(), final(rt)@, code)
                && avail & 0x7 == 0x7,
{
    rt.test_suite_begin("Hardware Threads");
    let ghost s1 = rt@;
    let ok = rt.require_threads(0x7);
    let ghost w = choose|cb: u32, avail: u32|
        #[trigger] s1.threads_required(0x7, cb, avail) == rt@ && ok == (avail & 0x7 == 0x7);
    if !ok {
        let errs = rt.test_suite_end();
        assert(s1.threads_required(0x7, w.0, w.1).suite_end(errs) == rt@);
        return errs as i32;
    }
    let tests = [
        ("start_stop_thread", ThreadsTest::StartStopThread),
        ("modectl_state", ThreadsTest::ModectlState),
        ("per_thread_htid", ThreadsTest::PerThreadHtid),
        ("shared_memory", ThreadsTest::SharedMemory),
        ("multiple_threads", ThreadsTest::MultipleThreads),
        ("wait_resume", ThreadsTest::WaitResume),
        ("stid_priority", ThreadsTest::StidPriority),
        ("schedcfg_readwrite", ThreadsTest::SchedcfgReadwrite),
        ("bestwait_readwrite", ThreadsTest::BestwaitReadwrite),
    ];
    assert(tests@ =~= threads_tests());
    let code = rt.run_suite(&tests);
    assert(s1.threads_required(0x7, w.0, w.1).suite_ran(threads_tests(), rt@, code));
    code
}

/// The MODECTL-state test wants thread 0 running and thread 1 stopped
/// before thread 1 is started, and thread 1 stopped again at the end.  It
/// records one error each for bit 0 clear and for bit 1 set in the first
/// MODECTL reading, one for each wait that timed out, and one for bit 1 set
/// in the last reading; so a first reading with bits 1:0 equal to 0b01
/// records no error of its own.
pub proof fn law_modectl_state_checks_thread_bits(s: RunState, before: u32, o1: Seq<u32>, o2: Seq<u32>, after: u32)
    ensures
        s.modectl_state_run(before, o1, o2, after).recorded() == s.recorded() + (if before & 1 != 0 { 0nat } else {
            1nat
        }) + (if before & 2 == 0 { 0nat } else { 1nat }) + (if poll_hit(equals(1), o1) { 0nat } else { 1nat }) + (
        if poll_hit(thread_bit_clear(1), o2) { 0nat } else { 1nat }) + (if after & 2 == 0 { 0nat } else { 1nat }),
{
    broadcast use crate::report::group_recorded;

}

/// The tests of this suite: each records exactly one error
/// for every expectation that fails and none for those that hold.  The
/// expectations of each test are the conditions counted below, over what
/// the hardware answered.
#[verifier::rlimit(80)]
#[verifier::spinoff_prover]
pub proof fn law_threads_tests_count_failed_expectations()
    ensures
        forall|s: RunState, o1: Seq<u32>, o2: Seq<u32>|
            #[trigger] s.start_stop_run(o1, o2).recorded() == s.recorded()
                + (if poll_hit(equals((1)), (o1)) { 0nat } else { 1nat })
                + (if poll_hit(thread_bit_clear((1)), (o2)) { 0nat } else { 1nat }),
        forall|s: RunState, o1: Seq<u32>, h: u32, o2: Seq<u32>|
            #[trigger] s.per_thread_htid_run(o1, h, o2).recorded() == s.recorded()
                + (if poll_hit(equals((1)), (o1)) { 0nat } else { 1nat })
                + (if h == 1 { 0nat } else { 1nat }),
        forall|s: RunState, o1: Seq<u32>, d: u32, o2: Seq<u32>|
            #[trigger] s.shared_memory_run(o1, d, o2).recorded() == s.recorded()
                + (if poll_hit(equals((1)), (o1)) { 0nat } else { 1nat })
                + (if d == 0xCAFE_BABE { 0nat } else { 1nat }),
        forall|s: RunState, o1: Seq<u32>, o2: Seq<u32>, o3: Seq<u32>, o4: Seq<u32>, h: u32|
            #[trigger] s.multiple_threads_run(o1, o2, o3, o4, h).recorded() == s.recorded()
                + (if poll_hit(equals(1), o1) { 0nat } else { 1nat })
                + (if poll_hit(equals(1), o2) { 0nat } else { 1nat })
                + (if h == 1 { 0nat } else { 1nat }),
        forall|s: RunState, o1: Seq<u32>, m: u32, o2: Seq<u32>, o3: Seq<u32>|
            #[trigger] s.wait_resume_run(o1, m, o2, o3).recorded() == s.recorded()
                + (if poll_hit(equals((1)), (o1)) { 0nat } else { 1nat })
                + (if m & 0x2_0000 != 0 { 0nat } else { 1nat })
                + (if poll_hit(equals((1)), (o2)) { 0nat } else { 1nat }),
        forall|s: RunState, saved: u32, rb: u32|
            #[trigger] s.stid_priority_run(saved, rb).recorded() == s.recorded()
                + (if stid_prio_spec(rb) == 42 { 0nat } else { 1nat }),
{
    broadcast use crate::report::group_recorded;

    assert forall|s: RunState, o1: Seq<u32>, o2: Seq<u32>|
        #[trigger] s.start_stop_run(o1, o2).recorded() == s.recorded()
            + (if poll_hit(equals((1)), (o1)) { 0nat } else { 1nat })
            + (if poll_hit(thread_bit_clear((1)), (o2)) { 0nat } else { 1nat }) by {}
    assert forall|s: RunState, o1: Seq<u32>, h: u32, o2: Seq<u32>|
        #[trigger] s.per_thread_htid_run(o1, h, o2).recorded() == s.recorded()
            + (if poll_hit(equals((1)), (o1)) { 0nat } else { 1nat })
            + (if h == 1 { 0nat } else { 1nat }) by {}
    assert forall|s: RunState, o1: Seq<u32>, d: u32, o2: Seq<u32>|
        #[trigger] s.shared_memory_run(o1, d, o2).recorded() == s.recorded()
            + (if poll_hit(equals((1)), (o1)) { 0nat } else { 1nat })
            + (if d == 0xCAFE_BABE { 0nat } else { 1nat }) by {}
    assert forall|s: RunState, o1: Seq<u32>, o2: Seq<u32>, o3: Seq<u32>, o4: Seq<u32>, h: u32|
        #[trigger] s.multiple_threads_run(o1, o2, o3, o4, h).recorded() == s.recorded()
            + (if poll_hit(equals(1), o1) { 0nat } else { 1nat })
            + (if poll_hit(equals(1), o2) { 0nat } else { 1nat })
            + (if h == 1 { 0nat } else { 1nat }) by {}
    assert forall|s: RunState, o1: Seq<u32>, m: u32, o2: Seq<u32>, o3: Seq<u32>|
        #[trigger] s.wait_resume_run(o1, m, o2, o3).recorded() == s.recorded()
            + (if poll_hit(equals((1)), (o1)) { 0nat } else { 1nat })
            + (if m & 0x2_0000 != 0 { 0nat } else { 1nat })
            + (if poll_hit(equals((1)), (o2)) { 0nat } else { 1nat }) by {}
    assert forall|s: RunState, saved: u32, rb: u32|
        #[trigger] s.stid_priority_run(saved, rb).recorded() == s.recorded()
            + (if stid_prio_spec(rb) == 42 { 0nat } else { 1nat }) by {}
}

} // verus!
