//! Interrupt steering tests: priority-based thread qualification through
//! SCHEDCFG and STID.PRIO, IMASK routing through `iassignw`, and how
//! priority steering interacts with SSR.IE and IMASK.  Cross-thread
//! delivery goes through the L2VIC (SOFT_INT to L1 interrupt 2), since a
//! software interrupt only pends on the thread that raises it.  Three
//! threads are used; a missing or non-functional L2VIC is fatal.

use vstd::prelude::*;
use crate::machine::{Ev, Hexagon, IntCtl, IrqHandler, RunState, Runtime, Shared, SysReg, ThreadEntry};
use crate::regs::{
    iassign_word, iassign_word_spec, l2vic_bit, l2vic_bit_spec, l2vic_reg, l2vic_reg_spec, lemma_bit_values,
    schedcfg_steering, schedcfg_steering_spec, stid_with_prio, stid_with_prio_spec, vid0, vid0_spec,
    L2VIC_INT_CLEAR, L2VIC_INT_ENABLE_CLR, L2VIC_INT_ENABLE_SET, L2VIC_INT_TYPE, L2VIC_SOFT_INT, SCHEDCFG_EN,
    SSR_IE,
};
use crate::report::{aborted_tests, ran_tests, Fatal, TestCase};
use crate::runtime::{equals, poll_run, thread_bit_clear};
use crate::suites::l2vic::{l2vic_base_spec, l2vic_probe, setup_l2vic, L2VIC_L1_INTNO, L2VIC_TLB_IDX};

verus! {

/// The L2 interrupt raised to reach the other threads.
pub const TEST_L2_IRQ: u32 = 3;

/// The software interrupt of the steering-disabled test.
pub const SWI_INTNO: u32 = 5;

/// How many times a thread's running flag or MODECTL is polled.
pub const THREAD_WAIT_LIMIT: u32 = 50000;

/// How many times the handler count is polled after a trigger.
pub const DELIVERY_POLLS: u32 = 200;

/// The hit predicate of the delivery poll.
pub open spec fn positive() -> spec_fn(u32) -> bool {
    |o: u32| o > 0
}

/// What one steered delivery observed: the threads' start polls, the
/// L2VIC base and SSR seen while clearing, the delivery poll, and the
/// handler count and thread read back.
pub struct SteerRound {
    pub up1: Seq<u32>,
    pub up2: Seq<u32>,
    pub clear_base: u32,
    pub clear_ssr: u32,
    pub fire_base: u32,
    pub fire: Seq<u32>,
    pub count: u32,
    pub htid: u32,
}

impl SteerRound {
    /// The polls were bounded as the test bounds them.
    pub open spec fn bounded(self) -> bool {
        &&& poll_run(equals(1), THREAD_WAIT_LIMIT, self.up1)
        &&& poll_run(equals(1), THREAD_WAIT_LIMIT, self.up2)
        &&& poll_run(positive(), DELIVERY_POLLS, self.fire)
    }
}

/// What the restoring tail of a test observed: the stop polls of the two
/// threads and the L2VIC base and SSR seen while clearing.
pub struct SteerTail {
    pub down1: Seq<u32>,
    pub down2: Seq<u32>,
    pub base: u32,
    pub ssr: u32,
}

impl SteerTail {
    /// The stop polls were bounded as the test bounds them.
    pub open spec fn bounded(self) -> bool {
        &&& poll_run(thread_bit_clear(1), THREAD_WAIT_LIMIT, self.down1)
        &&& poll_run(thread_bit_clear(2), THREAD_WAIT_LIMIT, self.down2)
    }
}

impl RunState {
    /// The SWI handler: record the handling thread and count.
    pub open spec fn steer_swi_handler_run(self, htid: u32) -> RunState {
        self.rd(SysReg::Htid, htid).st(Shared::HandlerHtid, htid).ev(Ev::SharedAdd(Shared::HandlerCount, 1))
    }

    /// The L2VIC handler: record the handling thread, count, and clear the
    /// L2 interrupt named by VID0 if the L2VIC is mapped.
    pub open spec fn steer_l2vic_handler_run(self, htid: u32, vid: u32, base: u32) -> RunState {
        let irq = vid0_spec(vid);
        let s = self.steer_swi_handler_run(htid).rd(SysReg::Vid, vid).ld(Shared::L2vicVa, base);
        if base != 0 {
            s.l2w(base, l2vic_reg_spec(L2VIC_INT_CLEAR, irq), l2vic_bit_spec(irq))
        } else {
            s
        }
    }

    /// Thread 1's start: take its priority, unmask everything, enable
    /// interrupts unless told not to, and report running.
    pub open spec fn steer_thread1_started(self, prio: u32, stid: u32, clear_ie: u32, ssr: u32) -> RunState {
        let s = self.ld(Shared::T1DesiredPrio, prio).rd(SysReg::Stid, stid).wr(
            SysReg::Stid,
            stid_with_prio_spec(stid, prio),
        ).wr(SysReg::Imask, 0).ld(Shared::T1ClearIe, clear_ie);
        let s2 = if clear_ie == 0 {
            s.rd(SysReg::Ssr, ssr).wr(SysReg::Ssr, ssr | SSR_IE)
        } else {
            s
        };
        s2.st(Shared::T1Running, 1)
    }

    /// Thread 2's start: take its priority, unmask everything, enable
    /// interrupts, and report running.
    pub open spec fn steer_thread2_started(self, prio: u32, stid: u32, ssr: u32) -> RunState {
        self.ld(Shared::T2DesiredPrio, prio).rd(SysReg::Stid, stid).wr(SysReg::Stid, stid_with_prio_spec(stid, prio)).wr(
            SysReg::Imask,
            0,
        ).rd(SysReg::Ssr, ssr).wr(SysReg::Ssr, ssr | SSR_IE).st(Shared::T2Running, 1)
    }

    /// Forget the last delivery.
    pub open spec fn handler_state_reset(self) -> RunState {
        self.st(Shared::HandlerHtid, 0xFFFF).st(Shared::HandlerCount, 0)
    }

    /// Start threads 1 and 2 with the given priorities, wait for both to
    /// report running, and let them settle.
    pub open spec fn steer_threads_up(self, p1: u32, p2: u32, o1: Seq<u32>, o2: Seq<u32>) -> RunState {
        self.st(Shared::T1Running, 0).st(Shared::T1Exit, 0).st(Shared::T2Running, 0).st(Shared::T2Exit, 0).st(
            Shared::T1DesiredPrio,
            p1,
        ).st(Shared::T2DesiredPrio, p2).entry(1, ThreadEntry::SteeringThread1).entry(2, ThreadEntry::SteeringThread2).start(
            6,
        ).flag_polled(Shared::T1Running, 1, o1).flag_polled(Shared::T2Running, 1, o2).delay(200)
    }

    /// Tell threads 1 and 2 to exit and wait for both to stop.
    pub open spec fn steer_threads_down(self, o1: Seq<u32>, o2: Seq<u32>) -> RunState {
        self.st(Shared::T1Exit, 1).st(Shared::T2Exit, 1).stop_polled(1, o1).stop_polled(2, o2)
    }

    /// Clear the test L2 interrupt (if the L2VIC is mapped) and L1
    /// interrupt 2's pending and auto-disable bits, leaving SSR.IE on.
    pub open spec fn steer_cleared(self, base: u32, ssr: u32) -> RunState {
        let s = self.ld(Shared::L2vicVa, base);
        let s2 = if base != 0 {
            s.l2w(base, l2vic_reg_spec(L2VIC_INT_CLEAR, TEST_L2_IRQ), l2vic_bit_spec(TEST_L2_IRQ))
        } else {
            s
        };
        s2.rd(SysReg::Ssr, ssr).wr(SysReg::Ssr, ssr & !SSR_IE).ictl(IntCtl::Cswi, 4).ictl(IntCtl::Ciad, 4).wr(
            SysReg::Ssr,
            ssr | SSR_IE,
        )
    }

    /// Re-arm and raise the test L2 interrupt, then poll the handler count
    /// until it is positive, pausing between reads.
    pub open spec fn steer_fired(self, base: u32, obs: Seq<u32>) -> RunState {
        let b = l2vic_bit_spec(TEST_L2_IRQ);
        self.ld(Shared::L2vicVa, base).l2w(base, l2vic_reg_spec(L2VIC_INT_ENABLE_SET, TEST_L2_IRQ), b).delay(10).l2w(
            base,
            l2vic_reg_spec(L2VIC_SOFT_INT, TEST_L2_IRQ),
            b,
        ).count_polled(obs)
    }

    /// Poll the handler count until it is positive, pausing between reads.
    pub open spec fn count_polled(self, obs: Seq<u32>) -> RunState {
        self.polled(|o: u32| Ev::SharedLoad(Shared::HandlerCount, o), positive(), 50, obs)
    }

    /// Check that the handler ran, on thread `expected`.
    pub open spec fn delivery_checked(self, count: u32, htid: u32, expected: u32) -> RunState {
        self.ld(Shared::HandlerCount, count).check(count >= 1, "HANDLER_COUNT.load(Ordering::SeqCst) >= 1").ld(Shared::HandlerHtid, htid).check32(
            htid,
            expected,
        )
    }

    /// Start threads 1 and 2 with priorities `p1` and `p2`, route L1
    /// interrupt 2 with the `iassignw` mask `mask`, raise the test L2
    /// interrupt and check thread `expected` handled it.
    pub open spec fn steered(self, p1: u32, p2: u32, mask: u32, expected: u32, r: SteerRound) -> RunState {
        self.steer_threads_up(p1, p2, r.up1, r.up2).ictl(
            IntCtl::Iassignw,
            iassign_word_spec(L2VIC_L1_INTNO, mask),
        ).steer_cleared(r.clear_base, r.clear_ssr).steer_fired(r.fire_base, r.fire).delivery_checked(
            r.count,
            r.htid,
            expected,
        )
    }

    /// Stop the threads, with the stop polls of the tail `t`.
    pub open spec fn steer_tail(self, t: SteerTail) -> RunState {
        self.steer_threads_down(t.down1, t.down2)
    }

    pub open spec fn steering_disabled_run(
        self,
        sc: u32,
        imask: u32,
        ssr: u32,
        count: u32,
        htid: u32,
        ssr2: u32,
    ) -> RunState {
        self.rd(SysReg::Schedcfg, sc).rd(SysReg::Imask, imask).wr(SysReg::Schedcfg, sc & !SCHEDCFG_EN).handler_state_reset().handler(
            SWI_INTNO,
            IrqHandler::SwiHtid,
        ).wr(SysReg::Imask, imask & !0x20u32).rd(SysReg::Ssr, ssr).wr(SysReg::Ssr, ssr & !SSR_IE).ictl(IntCtl::Cswi, 0x20).ictl(
            IntCtl::Ciad,
            0x20,
        ).wr(SysReg::Ssr, ssr | SSR_IE).ictl(IntCtl::Swi, 0x20).delay(200).delivery_checked(count, htid, 0).wr(
            SysReg::Imask,
            imask,
        ).wr(SysReg::Schedcfg, sc).rd(SysReg::Ssr, ssr2).wr(SysReg::Ssr, ssr2 & !SSR_IE).ictl(IntCtl::Cswi, 0x20).ictl(
            IntCtl::Ciad,
            0x20,
        ).wr(SysReg::Ssr, ssr2)
    }

    /// An `iassignw` routing test with priority steering off.
    pub open spec fn iassign_case_run(
        self,
        mask: u32,
        expected: u32,
        sc: u32,
        imask: u32,
        r: SteerRound,
        t: SteerTail,
    ) -> RunState {
        self.rd(SysReg::Schedcfg, sc).rd(SysReg::Imask, imask).wr(SysReg::Schedcfg, sc & !SCHEDCFG_EN).handler_state_reset().wr(
            SysReg::Imask,
            imask & !4u32,
        ).steered(100, 100, mask, expected, r).ictl(IntCtl::Iassignw, iassign_word_spec(L2VIC_L1_INTNO, 0)).steer_tail(
            t,
        ).wr(SysReg::Imask, imask).wr(SysReg::Schedcfg, sc).steer_cleared(t.base, t.ssr)
    }

    /// A priority-steering test: thread 0 at priority `p0`, threads 1 and 2
    /// at `p1` and `p2`, routing mask `mask`; thread 1 leaves SSR.IE off
    /// when `clear_ie` holds.
    pub open spec fn priority_case_run(
        self,
        p0: u32,
        p1: u32,
        p2: u32,
        mask: u32,
        expected: u32,
        clear_ie: bool,
        sc: u32,
        stid: u32,
        imask: u32,
        r: SteerRound,
        t: SteerTail,
    ) -> RunState {
        let s = self.rd(SysReg::Schedcfg, sc).rd(SysReg::Stid, stid).rd(SysReg::Imask, imask).wr(
            SysReg::Schedcfg,
            schedcfg_steering_spec(sc, L2VIC_L1_INTNO),
        ).wr(SysReg::Stid, stid_with_prio_spec(stid, p0)).wr(SysReg::Imask, imask & !4u32).handler_state_reset();
        let s2 = if clear_ie {
            s.st(Shared::T1ClearIe, 1)
        } else {
            s
        };
        let s3 = s2.steered(p1, p2, mask, expected, r).ictl(IntCtl::Iassignw, iassign_word_spec(L2VIC_L1_INTNO, 0));
        let s4 = if clear_ie {
            s3.st(Shared::T1ClearIe, 0)
        } else {
            s3
        };
        s4.steer_tail(t).wr(SysReg::Stid, stid).wr(SysReg::Imask, imask).wr(SysReg::Schedcfg, sc).steer_cleared(
            t.base,
            t.ssr,
        )
    }

    /// The dynamic-priority test: a first round with thread 1 preferred,
    /// then a second with thread 0 preferred.
    pub open spec fn dynamic_priority_run(
        self,
        sc: u32,
        stid: u32,
        imask: u32,
        r1: SteerRound,
        t1: SteerTail,
        r2: SteerRound,
        t2: SteerTail,
    ) -> RunState {
        self.rd(SysReg::Schedcfg, sc).rd(SysReg::Stid, stid).rd(SysReg::Imask, imask).wr(
            SysReg::Schedcfg,
            schedcfg_steering_spec(sc, L2VIC_L1_INTNO),
        ).wr(SysReg::Imask, imask & !4u32).wr(SysReg::Stid, stid_with_prio_spec(stid, 10)).handler_state_reset().steered(
            200,
            100,
            0,
            1,
            r1,
        ).steer_tail(t1).steer_cleared(t1.base, t1.ssr).wr(SysReg::Stid, stid_with_prio_spec(stid, 200)).handler_state_reset().steered(
            10,
            100,
            0,
            0,
            r2,
        ).ictl(IntCtl::Iassignw, iassign_word_spec(L2VIC_L1_INTNO, 0)).steer_tail(t2).wr(SysReg::Stid, stid).wr(
            SysReg::Imask,
            imask,
        ).wr(SysReg::Schedcfg, sc).steer_cleared(t2.base, t2.ssr)
    }

    /// The suite's L2VIC setup after the probe: make the test L2 interrupt
    /// edge-triggered and enabled, and install the handler for L1
    /// interrupt 2.
    pub open spec fn steer_configured(self, base: u32, ty: u32) -> RunState {
        let b = l2vic_bit_spec(TEST_L2_IRQ);
        let t = l2vic_reg_spec(L2VIC_INT_TYPE, TEST_L2_IRQ);
        self.l2r(base, t, ty).l2w(base, t, ty | b).l2w(base, l2vic_reg_spec(L2VIC_INT_ENABLE_SET, TEST_L2_IRQ), b).handler(
            L2VIC_L1_INTNO,
            IrqHandler::L2vicHtid,
        )
    }

    /// Disable the test L2 interrupt (if the L2VIC is mapped) and unmap
    /// the L2VIC.
    pub open spec fn steer_l2vic_cleaned(self, base: u32) -> RunState {
        let s = self.ld(Shared::L2vicVa, base);
        let s2 = if base != 0 {
            s.l2w(base, l2vic_reg_spec(L2VIC_INT_ENABLE_CLR, TEST_L2_IRQ), l2vic_bit_spec(TEST_L2_IRQ))
        } else {
            s
        };
        s2.tlb_invalidated(L2VIC_TLB_IDX).st(Shared::L2vicVa, 0)
    }

    /// After the L2VIC was found, probed and configured (the state
    /// `self`), the tests ran, the L2VIC was cleaned up and the summary
    /// printed.
    pub open spec fn steer_tests_ran(self, post: RunState, code: i32) -> bool {
        exists|t: RunState, b: u32|
            #![trigger ran_tests(self, steering_tests(), t), t.steer_l2vic_cleaned(b)]
            ran_tests(self, steering_tests(), t) && t.steer_l2vic_cleaned(b).summarized(post, code)
    }

    /// The suite after its thread check passed: L2VIC setup (fatal on a
    /// missing or failing L2VIC), the tests, the L2VIC cleanup and the
    /// summary.
    pub open spec fn steering_suite_ran(self, post: RunState, code: i32) -> bool {
        exists|cb: u32, raw: u32|
            #![trigger self.l2vic_setup(cb, raw)]
            {
                ||| self.l2vic_setup_failed(cb, raw, post) && code == 1
                ||| exists|es: u32, ec: u32| #[trigger] self.l2vic_probe_failed(cb, raw, es, ec, post) && code == 1
                ||| exists|es: u32, ec: u32, ty: u32|
                    #![trigger self.l2vic_setup(cb, raw).l2vic_probed(l2vic_base_spec(raw), es, ec).steer_configured(l2vic_base_spec(raw), ty)]
                    {
                        let base = l2vic_base_spec(raw);
                        &&& raw != 0
                        &&& !(es & 1 == 0 || ec & 1 != 0)
                        &&& self.l2vic_setup(cb, raw).l2vic_probed(base, es, ec).steer_configured(base, ty).steer_tests_ran(
                            post,
                            code,
                        )
                    }
            }
    }
}

/// SWI handler: record the handling thread and count.
pub fn swi_handler<M: Hexagon>(rt: &mut Runtime<M>, _intno: u32)
    ensures
        exists|h: u32| #[trigger] old(rt)@.steer_swi_handler_run(h) == final(rt)@,
{
    let htid = rt.read_htid();
    rt.shared_store(Shared::HandlerHtid, htid);
    rt.shared_add(Shared::HandlerCount, 1);
    assert(old(rt)@.steer_swi_handler_run(htid) == rt@);
}

/// L2VIC handler for L1 interrupt 2: record the handling thread, count,
/// and clear the L2 interrupt that fired.
pub fn l2vic_handler<M: Hexagon>(rt: &mut Runtime<M>, _intno: u32)
    ensures
        exists|h: u32, v: u32, b: u32| #[trigger] old(rt)@.steer_l2vic_handler_run(h, v, b) == final(rt)@,
{
    let htid = rt.read_htid();
    rt.shared_store(Shared::HandlerHtid, htid);
    rt.shared_add(Shared::HandlerCount, 1);
    let vid = rt.read_vid();
    let l2_irq = vid0(vid);
    let base = rt.shared_load(Shared::L2vicVa);
    if base != 0 {
        rt.l2vic_write(base, l2vic_reg(L2VIC_INT_CLEAR, l2_irq), l2vic_bit(l2_irq));
    }
    assert(old(rt)@.steer_l2vic_handler_run(htid, vid, base) == rt@);
}

/// Thread 1's entry up to its exit wait (which polls `T1Exit` with
/// [`crate::suites::common::exit_poll`]): take the desired priority,
/// unmask all interrupts, enable SSR.IE unless told not to, report
/// running.
pub fn thread1_entry<M: Hexagon>(rt: &mut Runtime<M>)
    ensures
        exists|p: u32, s: u32, c: u32, x: u32| #[trigger] old(rt)@.steer_thread1_started(p, s, c, x) == final(rt)@,
{
    let prio = rt.shared_load(Shared::T1DesiredPrio);
    let stid = rt.read_stid();
    rt.write_stid(stid_with_prio(stid, prio));
    rt.write_imask(0);
    let clear_ie = rt.shared_load(Shared::T1ClearIe);
    let ghost mut ssr: u32 = 0;
    if clear_ie == 0 {
        let s = rt.read_ssr();
        rt.write_ssr(s | SSR_IE);
        proof {
            ssr = s;
        }
    }
    rt.shared_store(Shared::T1Running, 1);
    assert(old(rt)@.steer_thread1_started(prio, stid, clear_ie, ssr) == rt@);
}

/// Thread 2's entry up to its exit wait (which polls `T2Exit`).
pub fn thread2_entry<M: Hexagon>(rt: &mut Runtime<M>)
    ensures
        exists|p: u32, s: u32, x: u32| #[trigger] old(rt)@.steer_thread2_started(p, s, x) == final(rt)@,
{
    let prio = rt.shared_load(Shared::T2DesiredPrio);
    let stid = rt.read_stid();
    rt.write_stid(stid_with_prio(stid, prio));
    rt.write_imask(0);
    let ssr = rt.read_ssr();
    rt.write_ssr(ssr | SSR_IE);
    rt.shared_store(Shared::T2Running, 1);
    assert(old(rt)@.steer_thread2_started(prio, stid, ssr) == rt@);
}

/// Start threads 1 and 2 at the given priorities and wait until both run.
fn setup_threads<M: Hexagon>(rt: &mut Runtime<M>, prio1: u32, prio2: u32)
    ensures
        exists|o1: Seq<u32>, o2: Seq<u32>|
            #[trigger] old(rt)@.steer_threads_up(prio1, prio2, o1, o2) == final(rt)@ && poll_run(
                equals(1),
                THREAD_WAIT_LIMIT,
                o1,
            ) && poll_run(equals(1), THREAD_WAIT_LIMIT, o2),
{
    rt.shared_store(Shared::T1Running, 0);
    rt.shared_store(Shared::T1Exit, 0);
    rt.shared_store(Shared::T2Running, 0);
    rt.shared_store(Shared::T2Exit, 0);
    rt.shared_store(Shared::T1DesiredPrio, prio1);
    rt.shared_store(Shared::T2DesiredPrio, prio2);
    rt.set_thread_entry(1, Some(ThreadEntry::SteeringThread1));
    rt.set_thread_entry(2, Some(ThreadEntry::SteeringThread2));
    rt.start_threads((1 << 1) | (1 << 2));
    assert((1u32 << 1u32) | (1u32 << 2u32) == 6) by (bit_vector);
    let ghost s1 = rt@;
    let _ = rt.wait_for_flag(Shared::T1Running, 1, THREAD_WAIT_LIMIT);
    let ghost o1 = choose|o: Seq<u32>|
        #![trigger s1.flag_polled(Shared::T1Running, 1, o)]
        poll_run(equals(1), THREAD_WAIT_LIMIT, o) && rt@ == s1.flag_polled(Shared::T1Running, 1, o);
    let ghost s2 = rt@;
    let _ = rt.wait_for_flag(Shared::T2Running, 1, THREAD_WAIT_LIMIT);
    let ghost o2 = choose|o: Seq<u32>|
        #![trigger s2.flag_polled(Shared::T2Running, 1, o)]
        poll_run(equals(1), THREAD_WAIT_LIMIT, o) && rt@ == s2.flag_polled(Shared::T2Running, 1, o);
    rt.busy_loop(200);
    assert(old(rt)@.steer_threads_up(prio1, prio2, o1, o2) == rt@);
}

/// Tell threads 1 and 2 to exit and wait for both to stop.
fn teardown_threads<M: Hexagon>(rt: &mut Runtime<M>)
    ensures
        exists|o1: Seq<u32>, o2: Seq<u32>|
            #[trigger] old(rt)@.steer_threads_down(o1, o2) == final(rt)@ && poll_run(
                thread_bit_clear(1),
                THREAD_WAIT_LIMIT,
                o1,
            ) && poll_run(thread_bit_clear(2), THREAD_WAIT_LIMIT, o2),
{
    rt.shared_store(Shared::T1Exit, 1);
    rt.shared_store(Shared::T2Exit, 1);
    let ghost s1 = rt@;
    let _ = rt.wait_for_thread_stopped(1, THREAD_WAIT_LIMIT);
    let ghost o1 = choose|o: Seq<u32>|
        #![trigger s1.stop_polled(1, o)]
        poll_run(thread_bit_clear(1), THREAD_WAIT_LIMIT, o) && rt@ == s1.stop_polled(1, o);
    let ghost s2 = rt@;
    let _ = rt.wait_for_thread_stopped(2, THREAD_WAIT_LIMIT);
    let ghost o2 = choose|o: Seq<u32>|
        #![trigger s2.stop_polled(2, o)]
        poll_run(thread_bit_clear(2), THREAD_WAIT_LIMIT, o) && rt@ == s2.stop_polled(2, o);
    assert(old(rt)@.steer_threads_down(o1, o2) == rt@);
}

/// Forget the last delivery.
fn reset_handler_state<M: Hexagon>(rt: &mut Runtime<M>)
    ensures
        final(rt)@ == old(rt)@.handler_state_reset(),
{
    rt.shared_store(Shared::HandlerHtid, 0xFFFF);
    rt.shared_store(Shared::HandlerCount, 0);
}

/// Clear the L2VIC and L1 interrupt 2 state between tests; SSR.IE is left
/// on whatever it was before.
fn clear_l2vic_state<M: Hexagon>(rt: &mut Runtime<M>)
    ensures
        exists|b: u32, s: u32| #[trigger] old(rt)@.steer_cleared(b, s) == final(rt)@,
{
    proof {
        lemma_bit_values();
    }
    let base = rt.shared_load(Shared::L2vicVa);
    if base != 0 {
        rt.l2vic_write(base, l2vic_reg(L2VIC_INT_CLEAR, TEST_L2_IRQ), l2vic_bit(TEST_L2_IRQ));
    }
    let ghost s1 = rt@;
    let ssr = rt.read_ssr();
    rt.write_ssr(ssr & !SSR_IE);
    rt.clear_swi(1 << L2VIC_L1_INTNO);
    rt.ciad(1 << L2VIC_L1_INTNO);
    rt.write_ssr(ssr | SSR_IE);
    assert(old(rt)@.steer_cleared(base, ssr) == rt@);
}

/// Poll the handler count until it is positive, at most `DELIVERY_POLLS`
/// reads, pausing between reads.
fn wait_for_delivery<M: Hexagon>(rt: &mut Runtime<M>)
    ensures
        exists|obs: Seq<u32>|
            #[trigger] old(rt)@.count_polled(obs) == final(rt)@ && poll_run(positive(), DELIVERY_POLLS, obs),
{
    let ghost s0 = rt@;
    let ghost mut obs: Seq<u32> = Seq::empty();
    let mut i: u32 = 0;
    while i < DELIVERY_POLLS
        invariant
            i <= DELIVERY_POLLS,
            obs.len() == i,
            s0 == old(rt)@,
            forall|k: int| 0 <= k < obs.len() ==> !positive()(#[trigger] obs[k]),
            rt@ == s0.count_polled(obs),
        decreases DELIVERY_POLLS - i,
    {
        let c = rt.shared_load(Shared::HandlerCount);
        proof {
            let obs2 = obs.push(c);
            assert(obs2.drop_last() =~= obs);
        }
        if c > 0 {
            proof {
                obs = obs.push(c);
            }
            assert(positive()(obs.last()));
            assert(poll_run(positive(), DELIVERY_POLLS, obs));
            assert(rt@ == s0.count_polled(obs));
            return;
        }
        rt.busy_loop(50);
        proof {
            obs = obs.push(c);
        }
        i = i + 1;
    }
    assert(poll_run(positive(), DELIVERY_POLLS, obs));
}

/// Re-arm and raise the test L2 interrupt and wait for its delivery.  The
/// interrupt is re-enabled each time because some L2VIC models clear the
/// enable of an edge-triggered interrupt when it is cleared.
fn trigger_l2vic_and_wait<M: Hexagon>(rt: &mut Runtime<M>)
    ensures
        exists|b: u32, obs: Seq<u32>|
            #[trigger] old(rt)@.steer_fired(b, obs) == final(rt)@ && poll_run(positive(), DELIVERY_POLLS, obs),
{
    let base = rt.shared_load(Shared::L2vicVa);
    let bit = l2vic_bit(TEST_L2_IRQ);
    rt.l2vic_write(base, l2vic_reg(L2VIC_INT_ENABLE_SET, TEST_L2_IRQ), bit);
    rt.busy_loop(10);
    rt.l2vic_write(base, l2vic_reg(L2VIC_SOFT_INT, TEST_L2_IRQ), bit);
    let ghost s1 = rt@;
    wait_for_delivery(rt);
    let ghost obs = choose|obs: Seq<u32>|
        #[trigger] s1.count_polled(obs) == rt@ && poll_run(positive(), DELIVERY_POLLS, obs);
    assert(old(rt)@.steer_fired(base, obs) == rt@);
}

/// Check that the handler ran, on thread `expected`.
fn check_delivery<M: Hexagon>(rt: &mut Runtime<M>, expected: u32)
    ensures
        exists|c: u32, h: u32| #[trigger] old(rt)@.delivery_checked(c, h, expected) == final(rt)@,
{
    let count = rt.shared_load(Shared::HandlerCount);
    rt.check(count >= 1, "HANDLER_COUNT.load(Ordering::SeqCst) >= 1");
    let htid = rt.shared_load(Shared::HandlerHtid);
    rt.check32(htid, expected);
    assert(old(rt)@.delivery_checked(count, htid, expected) == rt@);
}

/// Start the threads, route L1 interrupt 2 with `mask`, deliver the test
/// L2 interrupt and check which thread handled it.
fn steer_round<M: Hexagon>(rt: &mut Runtime<M>, prio1: u32, prio2: u32, mask: u32, expected: u32)
    ensures
        exists|r: SteerRound| #[trigger] old(rt)@.steered(prio1, prio2, mask, expected, r) == final(rt)@ && r.bounded(),
{
    setup_threads(rt, prio1, prio2);
    let ghost s1 = rt@;
    let ghost (up1, up2) = choose|o1: Seq<u32>, o2: Seq<u32>|
        #[trigger] old(rt)@.steer_threads_up(prio1, prio2, o1, o2) == s1 && poll_run(equals(1), THREAD_WAIT_LIMIT, o1)
            && poll_run(equals(1), THREAD_WAIT_LIMIT, o2);
    rt.iassignw(iassign_word(L2VIC_L1_INTNO, mask));
    let ghost s2 = rt@;
    clear_l2vic_state(rt);
    let ghost (cb, cs) = choose|b: u32, s: u32| #[trigger] s2.steer_cleared(b, s) == rt@;
    let ghost s3 = rt@;
    trigger_l2vic_and_wait(rt);
    let ghost (fb, fire) = choose|b: u32, obs: Seq<u32>|
        #[trigger] s3.steer_fired(b, obs) == rt@ && poll_run(positive(), DELIVERY_POLLS, obs);
    let ghost s4 = rt@;
    check_delivery(rt, expected);
    let ghost (c, h) = choose|c: u32, h: u32| #[trigger] s4.delivery_checked(c, h, expected) == rt@;
    let ghost r = SteerRound { up1, up2, clear_base: cb, clear_ssr: cs, fire_base: fb, fire, count: c, htid: h };
    assert(old(rt)@.steered(prio1, prio2, mask, expected, r) == rt@);
}

/// Stop the threads; the tail returned holds their stop polls (its L2VIC
/// base and SSR are filled in by [`steer_clear_tail`]).
fn steer_stop<M: Hexagon>(rt: &mut Runtime<M>) -> (t: Ghost<SteerTail>)
    ensures
        final(rt)@ == old(rt)@.steer_tail(t@),
        t@.bounded(),
{
    teardown_threads(rt);
    let ghost (d1, d2) = choose|o1: Seq<u32>, o2: Seq<u32>|
        #[trigger] old(rt)@.steer_threads_down(o1, o2) == rt@ && poll_run(thread_bit_clear(1), THREAD_WAIT_LIMIT, o1)
            && poll_run(thread_bit_clear(2), THREAD_WAIT_LIMIT, o2);
    Ghost(SteerTail { down1: d1, down2: d2, base: 0, ssr: 0 })
}

/// Clear the interrupt state at the end of a test, recording what was
/// seen in the tail.
fn steer_clear_tail<M: Hexagon>(rt: &mut Runtime<M>, t: Ghost<SteerTail>) -> (t2: Ghost<SteerTail>)
    ensures
        final(rt)@ == old(rt)@.steer_cleared(t2@.base, t2@.ssr),
        t2@.down1 == t@.down1,
        t2@.down2 == t@.down2,
{
    clear_l2vic_state(rt);
    let ghost (b, s) = choose|b: u32, s: u32| #[trigger] old(rt)@.steer_cleared(b, s) == rt@;
    Ghost(SteerTail { down1: t@.down1, down2: t@.down2, base: b, ssr: s })
}

/// Steering disabled: a software interrupt is taken by the thread that
/// raised it, thread 0.
pub fn test_steering_disabled<M: Hexagon>(rt: &mut Runtime<M>)
    ensures
        exists|sc: u32, m: u32, s: u32, c: u32, h: u32, s2: u32|
            #[trigger] old(rt)@.steering_disabled_run(sc, m, s, c, h, s2) == final(rt)@,
{
    proof {
        lemma_bit_values();
    }
    let saved_schedcfg = rt.read_schedcfg();
    let saved_imask = rt.read_imask();
    rt.write_schedcfg(saved_schedcfg & !SCHEDCFG_EN);
    reset_handler_state(rt);
    rt.register_interrupt(SWI_INTNO, IrqHandler::SwiHtid);
    rt.write_imask(saved_imask & !(1 << SWI_INTNO));
    let ssr = rt.read_ssr();
    rt.write_ssr(ssr & !SSR_IE);
    rt.clear_swi(1 << SWI_INTNO);
    rt.ciad(1 << SWI_INTNO);
    rt.write_ssr(ssr | SSR_IE);
    rt.trigger_swi(1 << SWI_INTNO);
    rt.busy_loop(200);
    let ghost s1 = rt@;
    check_delivery(rt, 0);
    let ghost (c, h) = choose|c: u32, h: u32| #[trigger] s1.delivery_checked(c, h, 0) == rt@;
    rt.write_imask(saved_imask);
    rt.write_schedcfg(saved_schedcfg);
    let ssr2 = rt.read_ssr();
    rt.write_ssr(ssr2 & !SSR_IE);
    rt.clear_swi(1 << SWI_INTNO);
    rt.ciad(1 << SWI_INTNO);
    rt.write_ssr(ssr2);
    assert(old(rt)@.steering_disabled_run(saved_schedcfg, saved_imask, ssr, c, h, ssr2) == rt@);
}

/// An `iassignw` routing test with priority steering off: L1 interrupt 2
/// is masked on the threads of `mask`, and thread `expected` must take
/// it.
fn iassign_case<M: Hexagon>(rt: &mut Runtime<M>, mask: u32, expected: u32)
    ensures
        exists|sc: u32, m: u32, r: SteerRound, t: SteerTail|
            #[trigger] old(rt)@.iassign_case_run(mask, expected, sc, m, r, t) == final(rt)@ && r.bounded() && t.bounded(),
{
    proof {
        lemma_bit_values();
    }
    let saved_schedcfg = rt.read_schedcfg();
    let saved_imask = rt.read_imask();
    rt.write_schedcfg(saved_schedcfg & !SCHEDCFG_EN);
    reset_handler_state(rt);
    rt.write_imask(saved_imask & !(1 << L2VIC_L1_INTNO));
    let ghost s1 = rt@;
    steer_round(rt, 100, 100, mask, expected);
    let ghost r = choose|r: SteerRound| #[trigger] s1.steered(100, 100, mask, expected, r) == rt@ && r.bounded();
    rt.iassignw(iassign_word(L2VIC_L1_INTNO, 0));
    let t = steer_stop(rt);
    rt.write_imask(saved_imask);
    rt.write_schedcfg(saved_schedcfg);
    let t2 = steer_clear_tail(rt, t);
    assert(old(rt)@.iassign_case_run(mask, expected, saved_schedcfg, saved_imask, r, t2@) == rt@);
}

/// A priority-steering test: steering on for L1 interrupt 2, thread 0 at
/// priority `p0`, threads 1 and 2 at `p1` and `p2`, routing mask `mask`;
/// thread 1 leaves SSR.IE off when `clear_ie` holds.  Thread `expected`
/// must take the interrupt.
fn priority_case<M: Hexagon>(
    rt: &mut Runtime<M>,
    p0: u32,
    p1: u32,
    p2: u32,
    mask: u32,
    expected: u32,
    clear_ie: bool,
)
    ensures
        exists|sc: u32, st: u32, m: u32, r: SteerRound, t: SteerTail|
            #[trigger] old(rt)@.priority_case_run(p0, p1, p2, mask, expected, clear_ie, sc, st, m, r, t) == final(rt)@
                && r.bounded() && t.bounded(),
{
    proof {
        lemma_bit_values();
    }
    let saved_schedcfg = rt.read_schedcfg();
    let saved_stid = rt.read_stid();
    let saved_imask = rt.read_imask();
    rt.write_schedcfg(schedcfg_steering(saved_schedcfg, L2VIC_L1_INTNO));
    rt.write_stid(stid_with_prio(saved_stid, p0));
    rt.write_imask(saved_imask & !(1 << L2VIC_L1_INTNO));
    reset_handler_state(rt);
    if clear_ie {
        rt.shared_store(Shared::T1ClearIe, 1);
    }
    let ghost s1 = rt@;
    steer_round(rt, p1, p2, mask, expected);
    let ghost r = choose|r: SteerRound| #[trigger] s1.steered(p1, p2, mask, expected, r) == rt@ && r.bounded();
    rt.iassignw(iassign_word(L2VIC_L1_INTNO, 0));
    if clear_ie {
        rt.shared_store(Shared::T1ClearIe, 0);
    }
    let t = steer_stop(rt);
    rt.write_stid(saved_stid);
    rt.write_imask(saved_imask);
    rt.write_schedcfg(saved_schedcfg);
    let t2 = steer_clear_tail(rt, t);
    assert(old(rt)@.priority_case_run(
        p0,
        p1,
        p2,
        mask,
        expected,
        clear_ie,
        saved_schedcfg,
        saved_stid,
        saved_imask,
        r,
        t2@,
    ) == rt@);
}

/// `iassignw` masking threads 0 and 2 routes L1 interrupt 2 to thread 1.
pub fn test_iassign_to_thread1<M: Hexagon>(rt: &mut Runtime<M>)
    ensures
        exists|sc: u32, m: u32, r: SteerRound, t: SteerTail|
            #[trigger] old(rt)@.iassign_case_run(0x5, 1, sc, m, r, t) == final(rt)@ && r.bounded() && t.bounded(),
{
    iassign_case(rt, 0x5, 1);
}

/// `iassignw` masking threads 1 and 2 routes L1 interrupt 2 to thread 0.
pub fn test_iassign_to_thread0<M: Hexagon>(rt: &mut Runtime<M>)
    ensures
        exists|sc: u32, m: u32, r: SteerRound, t: SteerTail|
            #[trigger] old(rt)@.iassign_case_run(0x6, 0, sc, m, r, t) == final(rt)@ && r.bounded() && t.bounded(),
{
    iassign_case(rt, 0x6, 0);
}

/// Priority steering picks the thread with the highest STID.PRIO: thread 1
/// at 200 over thread 2 at 100 and thread 0 at 10.
pub fn test_steering_priority_basic<M: Hexagon>(rt: &mut Runtime<M>)
    ensures
        exists|sc: u32, st: u32, m: u32, r: SteerRound, t: SteerTail|
            #[trigger] old(rt)@.priority_case_run(10, 200, 100, 0, 1, false, sc, st, m, r, t) == final(rt)@
                && r.bounded() && t.bounded(),
{
    priority_case(rt, 10, 200, 100, 0, 1, false);
}

/// Thread 0 at 200 is preferred over threads 1 (10) and 2 (100).
pub fn test_steering_priority_reversed<M: Hexagon>(rt: &mut Runtime<M>)
    ensures
        exists|sc: u32, st: u32, m: u32, r: SteerRound, t: SteerTail|
            #[trigger] old(rt)@.priority_case_run(200, 10, 100, 0, 0, false, sc, st, m, r, t) == final(rt)@
                && r.bounded() && t.bounded(),
{
    priority_case(rt, 200, 10, 100, 0, 0, false);
}

/// Thread 2 at 200 is preferred over threads 1 (100) and 0 (50).
pub fn test_steering_three_thread_ordering<M: Hexagon>(rt: &mut Runtime<M>)
    ensures
        exists|sc: u32, st: u32, m: u32, r: SteerRound, t: SteerTail|
            #[trigger] old(rt)@.priority_case_run(50, 100, 200, 0, 2, false, sc, st, m, r, t) == final(rt)@
                && r.bounded() && t.bounded(),
{
    priority_case(rt, 50, 100, 200, 0, 2, false);
}

/// `iassignw` routing wins over priority: with threads 0 (200) and 1
/// (100) masked, thread 2 (10) takes the interrupt.
pub fn test_steering_imask_overrides_priority<M: Hexagon>(rt: &mut Runtime<M>)
    ensures
        exists|sc: u32, st: u32, m: u32, r: SteerRound, t: SteerTail|
            #[trigger] old(rt)@.priority_case_run(200, 100, 10, 0x3, 2, false, sc, st, m, r, t) == final(rt)@
                && r.bounded() && t.bounded(),
{
    priority_case(rt, 200, 100, 10, 0x3, 2, false);
}

/// A thread with SSR.IE off does not qualify: thread 1 (200) keeps IE off,
/// so thread 2 (100) takes the interrupt.
pub fn test_steering_ie_qualification<M: Hexagon>(rt: &mut Runtime<M>)
    ensures
        exists|sc: u32, st: u32, m: u32, r: SteerRound, t: SteerTail|
            #[trigger] old(rt)@.priority_case_run(10, 200, 100, 0, 2, true, sc, st, m, r, t) == final(rt)@
                && r.bounded() && t.bounded(),
{
    priority_case(rt, 10, 200, 100, 0, 2, true);
}

/// Changing priorities between rounds changes the chosen thread: first
/// thread 1 (200), then thread 0 (200).
pub fn test_steering_dynamic_priority<M: Hexagon>(rt: &mut Runtime<M>)
    ensures
        exists|sc: u32, st: u32, m: u32, r1: SteerRound, t1: SteerTail, r2: SteerRound, t2: SteerTail|
            #[trigger] old(rt)@.dynamic_priority_run(sc, st, m, r1, t1, r2, t2) == final(rt)@ && r1.bounded()
                && t1.bounded() && r2.bounded() && t2.bounded(),
{
    proof {
        lemma_bit_values();
    }
    let saved_schedcfg = rt.read_schedcfg();
    let saved_stid = rt.read_stid();
    let saved_imask = rt.read_imask();
    rt.write_schedcfg(schedcfg_steering(saved_schedcfg, L2VIC_L1_INTNO));
    rt.write_imask(saved_imask & !(1 << L2VIC_L1_INTNO));
    rt.write_stid(stid_with_prio(saved_stid, 10));
    reset_handler_state(rt);
    let ghost s1 = rt@;
    steer_round(rt, 200, 100, 0, 1);
    let ghost r1 = choose|r: SteerRound| #[trigger] s1.steered(200, 100, 0, 1, r) == rt@ && r.bounded();
    let t = steer_stop(rt);
    let t1 = steer_clear_tail(rt, t);
    rt.write_stid(stid_with_prio(saved_stid, 200));
    reset_handler_state(rt);
    let ghost s2 = rt@;
    steer_round(rt, 10, 100, 0, 0);
    let ghost r2 = choose|r: SteerRound| #[trigger] s2.steered(10, 100, 0, 0, r) == rt@ && r.bounded();
    rt.iassignw(iassign_word(L2VIC_L1_INTNO, 0));
    let u = steer_stop(rt);
    rt.write_stid(saved_stid);
    rt.write_imask(saved_imask);
    rt.write_schedcfg(saved_schedcfg);
    let t2 = steer_clear_tail(rt, u);
    assert(old(rt)@.dynamic_priority_run(saved_schedcfg, saved_stid, saved_imask, r1, t1@, r2, t2@) == rt@);
}

/// The suite's L2VIC setup after the probe: make the test L2 interrupt
/// edge-triggered and enabled, and install the L2VIC handler.
fn configure_test_irq<M: Hexagon>(rt: &mut Runtime<M>, base: u32)
    ensures
        exists|ty: u32| #[trigger] old(rt)@.steer_configured(base, ty) == final(rt)@,
{
    let bit = l2vic_bit(TEST_L2_IRQ);
    let treg = l2vic_reg(L2VIC_INT_TYPE, TEST_L2_IRQ);
    let type_reg = rt.l2vic_read(base, treg);
    rt.l2vic_write(base, treg, type_reg | bit);
    rt.l2vic_write(base, l2vic_reg(L2VIC_INT_ENABLE_SET, TEST_L2_IRQ), bit);
    rt.register_interrupt(L2VIC_L1_INTNO, IrqHandler::L2vicHtid);
    assert(old(rt)@.steer_configured(base, type_reg) == rt@);
}

/// Disable the test L2 interrupt and unmap the L2VIC.
fn cleanup_l2vic<M: Hexagon>(rt: &mut Runtime<M>)
    ensures
        exists|b: u32| #[trigger] old(rt)@.steer_l2vic_cleaned(b) == final(rt)@,
{
    let base = rt.shared_load(Shared::L2vicVa);
    if base != 0 {
        rt.l2vic_write(base, l2vic_reg(L2VIC_INT_ENABLE_CLR, TEST_L2_IRQ), l2vic_bit(TEST_L2_IRQ));
    }
    rt.tlb_invalidate(L2VIC_TLB_IDX);
    rt.shared_store(Shared::L2vicVa, 0);
    assert(old(rt)@.steer_l2vic_cleaned(base) == rt@);
}

/// The tests of this suite.
#[derive(Clone, Copy)]
pub enum SteeringTest {
    SteeringDisabled,
    IassignToThread1,
    IassignToThread0,
    SteeringPriorityBasic,
    SteeringPriorityReversed,
    SteeringThreeThreadOrdering,
    SteeringImaskOverridesPriority,
    SteeringIeQualification,
    SteeringDynamicPriority,
}

impl TestCase for SteeringTest {
    open spec fn runs(&self, pre: RunState, post: RunState) -> bool {
        match *self {
            SteeringTest::SteeringDisabled => exists|v0: u32, v1: u32, v2: u32, v3: u32, v4: u32, v5: u32| #[trigger] pre.steering_disabled_run(v0, v1, v2, v3, v4, v5) == post,
            SteeringTest::IassignToThread1 => exists|sc: u32, m: u32, r: SteerRound, t: SteerTail| #[trigger] pre.iassign_case_run(0x5, 1, sc, m, r, t) == post && r.bounded() && t.bounded(),
            SteeringTest::IassignToThread0 => exists|sc: u32, m: u32, r: SteerRound, t: SteerTail| #[trigger] pre.iassign_case_run(0x6, 0, sc, m, r, t) == post && r.bounded() && t.bounded(),
            SteeringTest::SteeringPriorityBasic => exists|sc: u32, st: u32, m: u32, r: SteerRound, t: SteerTail| #[trigger] pre.priority_case_run(10, 200, 100, 0, 1, false, sc, st, m, r, t) == post && r.bounded() && t.bounded(),
            SteeringTest::SteeringPriorityReversed => exists|sc: u32, st: u32, m: u32, r: SteerRound, t: SteerTail| #[trigger] pre.priority_case_run(200, 10, 100, 0, 0, false, sc, st, m, r, t) == post && r.bounded() && t.bounded(),
            SteeringTest::SteeringThreeThreadOrdering => exists|sc: u32, st: u32, m: u32, r: SteerRound, t: SteerTail| #[trigger] pre.priority_case_run(50, 100, 200, 0, 2, false, sc, st, m, r, t) == post && r.bounded() && t.bounded(),
            SteeringTest::SteeringImaskOverridesPriority => exists|sc: u32, st: u32, m: u32, r: SteerRound, t: SteerTail| #[trigger] pre.priority_case_run(200, 100, 10, 0x3, 2, false, sc, st, m, r, t) == post && r.bounded() && t.bounded(),
            SteeringTest::SteeringIeQualification => exists|sc: u32, st: u32, m: u32, r: SteerRound, t: SteerTail| #[trigger] pre.priority_case_run(10, 200, 100, 0, 2, true, sc, st, m, r, t) == post && r.bounded() && t.bounded(),
            SteeringTest::SteeringDynamicPriority => exists|sc: u32, st: u32, m: u32, r1: SteerRound, t1: SteerTail, r2: SteerRound, t2: SteerTail| #[trigger] pre.dynamic_priority_run(sc, st, m, r1, t1, r2, t2) == post && r1.bounded() && t1.bounded() && r2.bounded() && t2.bounded(),
        }
    }

    open spec fn aborts(&self, pre: RunState, post: RunState, f: Fatal) -> bool {
        false
    }

    open spec fn at(&self) -> &'static str {
        match *self {
            SteeringTest::SteeringDisabled => "src/suites/int_steering.rs:test_steering_disabled",
            SteeringTest::IassignToThread1 => "src/suites/int_steering.rs:test_iassign_to_thread1",
            SteeringTest::IassignToThread0 => "src/suites/int_steering.rs:test_iassign_to_thread0",
            SteeringTest::SteeringPriorityBasic => "src/suites/int_steering.rs:test_steering_priority_basic",
            SteeringTest::SteeringPriorityReversed => "src/suites/int_steering.rs:test_steering_priority_reversed",
            SteeringTest::SteeringThreeThreadOrdering => "src/suites/int_steering.rs:test_steering_three_thread_ordering",
            SteeringTest::SteeringImaskOverridesPriority => "src/suites/int_steering.rs:test_steering_imask_overrides_priority",
            SteeringTest::SteeringIeQualification => "src/suites/int_steering.rs:test_steering_ie_qualification",
            SteeringTest::SteeringDynamicPriority => "src/suites/int_steering.rs:test_steering_dynamic_priority",
        }
    }

    fn location(&self) -> (at: &'static str) {
        match *self {
            SteeringTest::SteeringDisabled => "src/suites/int_steering.rs:test_steering_disabled",
            SteeringTest::IassignToThread1 => "src/suites/int_steering.rs:test_iassign_to_thread1",
            SteeringTest::IassignToThread0 => "src/suites/int_steering.rs:test_iassign_to_thread0",
            SteeringTest::SteeringPriorityBasic => "src/suites/int_steering.rs:test_steering_priority_basic",
            SteeringTest::SteeringPriorityReversed => "src/suites/int_steering.rs:test_steering_priority_reversed",
            SteeringTest::SteeringThreeThreadOrdering => "src/suites/int_steering.rs:test_steering_three_thread_ordering",
            SteeringTest::SteeringImaskOverridesPriority => "src/suites/int_steering.rs:test_steering_imask_overrides_priority",
            SteeringTest::SteeringIeQualification => "src/suites/int_steering.rs:test_steering_ie_qualification",
            SteeringTest::SteeringDynamicPriority => "src/suites/int_steering.rs:test_steering_dynamic_priority",
        }
    }

    fn run<M: Hexagon>(&self, rt: &mut Runtime<M>) -> (r: Result<(), Fatal>) {
        match *self {
            SteeringTest::SteeringDisabled => {
                test_steering_disabled(rt);
                Ok(())
            },
            SteeringTest::IassignToThread1 => {
                test_iassign_to_thread1(rt);
                Ok(())
            },
            SteeringTest::IassignToThread0 => {
                test_iassign_to_thread0(rt);
                Ok(())
            },
            SteeringTest::SteeringPriorityBasic => {
                test_steering_priority_basic(rt);
                Ok(())
            },
            SteeringTest::SteeringPriorityReversed => {
                test_steering_priority_reversed(rt);
                Ok(())
            },
            SteeringTest::SteeringThreeThreadOrdering => {
                test_steering_three_thread_ordering(rt);
                Ok(())
            },
            SteeringTest::SteeringImaskOverridesPriority => {
                test_steering_imask_overrides_priority(rt);
                Ok(())
            },
            SteeringTest::SteeringIeQualification => {
                test_steering_ie_qualification(rt);
                Ok(())
            },
            SteeringTest::SteeringDynamicPriority => {
                test_steering_dynamic_priority(rt);
                Ok(())
            },
        }
    }
}

/// The suite's tests, in the order they run.
pub open spec fn steering_tests() -> Seq<(&'static str, SteeringTest)> {
    seq![
        ("steering_disabled", SteeringTest::SteeringDisabled),
        ("iassign_to_thread1", SteeringTest::IassignToThread1),
        ("iassign_to_thread0", SteeringTest::IassignToThread0),
        ("steering_priority_basic", SteeringTest::SteeringPriorityBasic),
        ("steering_priority_reversed", SteeringTest::SteeringPriorityReversed),
        ("steering_three_thread_ordering", SteeringTest::SteeringThreeThreadOrdering),
        ("steering_imask_overrides_priority", SteeringTest::SteeringImaskOverridesPriority),
        ("steering_ie_qualification", SteeringTest::SteeringIeQualification),
        ("steering_dynamic_priority", SteeringTest::SteeringDynamicPriority),
    ]
}

/// The interrupt steering suite: needs threads 0 to 2; finds, probes and
/// configures the L2VIC (a missing or failing L2VIC ends the suite with
/// the panic line and 1), runs the tests, and unmaps the L2VIC.
pub fn rust_main<M: Hexagon>(rt: &mut Runtime<M>) -> (code: i32)
    ensures
        exists|cb: u32, avail: u32|
            #![trigger old(rt)@.suite_begin("Interrupt Steering").threads_required(7, cb, avail)]
            {
                let s = old(rt)@.suite_begin("Interrupt Steering").threads_required(7, cb, avail);
                if avail & 7 != 7 {
                    s.summarized(final(rt)@, code)
                } else {
                    s.steering_suite_ran(final(rt)@, code)
                }
            },
{
    rt.test_suite_begin("Interrupt Steering");
    let ghost s0 = rt@;
    let ok = rt.require_threads(0x7);
    let ghost (tcb, avail) = choose|cb: u32, avail: u32|
        #[trigger] s0.threads_required(7, cb, avail) == rt@ && ok == (avail & 7 == 7);
    if !ok {
        let errs = rt.test_suite_end();
        return errs as i32;
    }
    let ghost s1 = rt@;
    let base = match setup_l2vic(rt) {
        Ok(b) => b,
        Err(f) => {
            let ghost s = rt@;
            rt.report_fatal(f);
            assert(s1.steering_suite_ran(rt@, 1)) by {
                let (cb, raw) = choose|cb: u32, raw: u32| #[trigger] s1.l2vic_setup(cb, raw) == s && raw == 0;
                assert(s1.l2vic_setup_failed(cb, raw, rt@));
            }
            return 1;
        },
    };
    let ghost sa = rt@;
    let ghost (cb, raw) = choose|cb: u32, raw: u32|
        #[trigger] s1.l2vic_setup(cb, raw) == sa && raw != 0 && base == l2vic_base_spec(raw);
    match l2vic_probe(rt, base) {
        Ok(()) => {},
        Err(f) => {
            let ghost s = rt@;
            rt.report_fatal(f);
            assert(s1.steering_suite_ran(rt@, 1)) by {
                let (es, ec) = choose|es: u32, ec: u32|
                    #[trigger] sa.l2vic_probed(base, es, ec) == s && (es & 1 == 0 || ec & 1 != 0) && f
                        == Fatal::ProbeFailed { base, en_set: es, en_clr: ec };
                assert(s1.l2vic_probe_failed(cb, raw, es, ec, rt@));
            }
            return 1;
        },
    }
    let ghost sb = rt@;
    let ghost (es, ec) = choose|es: u32, ec: u32|
        #[trigger] sa.l2vic_probed(base, es, ec) == sb && !(es & 1 == 0 || ec & 1 != 0);
    configure_test_irq(rt, base);
    let ghost ty = choose|ty: u32| #[trigger] sb.steer_configured(base, ty) == rt@;
    let ghost s2 = rt@;
    let tests = [
        ("steering_disabled", SteeringTest::SteeringDisabled),
        ("iassign_to_thread1", SteeringTest::IassignToThread1),
        ("iassign_to_thread0", SteeringTest::IassignToThread0),
        ("steering_priority_basic", SteeringTest::SteeringPriorityBasic),
        ("steering_priority_reversed", SteeringTest::SteeringPriorityReversed),
        ("steering_three_thread_ordering", SteeringTest::SteeringThreeThreadOrdering),
        ("steering_imask_overrides_priority", SteeringTest::SteeringImaskOverridesPriority),
        ("steering_ie_qualification", SteeringTest::SteeringIeQualification),
        ("steering_dynamic_priority", SteeringTest::SteeringDynamicPriority),
    ];
    assert(tests@ =~= steering_tests());
    match rt.run_tests(&tests) {
        Ok(()) => {
            let ghost t = rt@;
            cleanup_l2vic(rt);
            let ghost b = choose|b: u32| #[trigger] t.steer_l2vic_cleaned(b) == rt@;
            let errs = rt.test_suite_end();
            assert(s1.steering_suite_ran(rt@, errs as i32)) by {
                assert(ran_tests(s2, steering_tests(), t));
                assert(t.steer_l2vic_cleaned(b).suite_end(errs) == rt@);
                assert(s2.steer_tests_ran(rt@, errs as i32));
                assert(s1.l2vic_setup(cb, raw).l2vic_probed(l2vic_base_spec(raw), es, ec).steer_configured(
                    l2vic_base_spec(raw),
                    ty,
                ) == s2);
            }
            errs as i32
        },
        Err(f) => {
            proof {
                let k = choose|k: int| #[trigger] aborted_tests(s2, steering_tests(), k, rt@, f);
                assert(aborted_tests(s2, steering_tests(), k, rt@, f));
                assert(false);
            }
            1
        },
    }
}

/// Polling the handler count records no error.
pub broadcast proof fn lemma_recorded_count_polled(t: RunState, obs: Seq<u32>)
    ensures
        #[trigger] t.count_polled(obs).recorded() == t.recorded(),
{
    assert forall|read: spec_fn(u32) -> Ev, hit: spec_fn(u32) -> bool, pause: nat|
        (forall|o: u32| crate::machine::counter_increment(#[trigger] read(o)) == 0) implies #[trigger] t.polled(
            read,
            hit,
            pause,
            obs,
        ).recorded() == t.recorded() by {
        crate::report::lemma_recorded_polled(t, read, hit, pause, obs);
    }
}

/// Clearing the test interrupt records no error.
pub broadcast proof fn lemma_recorded_steer_cleared(t: RunState, base: u32, ssr: u32)
    ensures
        #[trigger] t.steer_cleared(base, ssr).recorded() == t.recorded(),
{
    broadcast use crate::report::group_recorded;

}

/// Stopping the steering threads records no error.
pub broadcast proof fn lemma_recorded_steer_tail(t: RunState, tail: SteerTail)
    ensures
        #[trigger] t.steer_tail(tail).recorded() == t.recorded(),
{
    broadcast use crate::report::group_recorded;

}

/// One steering round records one error when the handler never ran and
/// one when it ran on a thread other than `expected`.
pub broadcast proof fn lemma_recorded_steered(t: RunState, p1: u32, p2: u32, mask: u32, expected: u32, r: SteerRound)
    ensures
        #[trigger] t.steered(p1, p2, mask, expected, r).recorded() == t.recorded() + (if r.count >= 1 {
            0nat
        } else {
            1nat
        }) + (if r.htid == expected { 0nat } else { 1nat }),
{
    broadcast use crate::report::group_recorded, lemma_recorded_count_polled, lemma_recorded_steer_cleared;

}

/// A priority-steering test records one error when the handler never ran
/// and one when it ran on a thread other than `expected`, and no other,
/// whether or not thread 1 leaves its interrupts disabled.
#[verifier::rlimit(80)]
#[verifier::spinoff_prover]
pub proof fn law_priority_case_counts_failed_expectations(
    s: RunState,
    p0: u32,
    p1: u32,
    p2: u32,
    mask: u32,
    expected: u32,
    clear_ie: bool,
    sc: u32,
    stid: u32,
    imask: u32,
    r: SteerRound,
    t: SteerTail,
)
    ensures
        s.priority_case_run(p0, p1, p2, mask, expected, clear_ie, sc, stid, imask, r, t).recorded() == s.recorded() + (
        if r.count >= 1 { 0nat } else { 1nat }) + (if r.htid == expected { 0nat } else { 1nat }),
{
    broadcast use crate::report::group_recorded, lemma_recorded_steered, lemma_recorded_steer_tail, lemma_recorded_steer_cleared;

}

/// The tests of this suite: each records exactly one error
/// for every expectation that fails and none for those that hold.  The
/// expectations of each test are the conditions counted below, over what
/// the hardware answered.
#[verifier::rlimit(80)]
#[verifier::spinoff_prover]
pub proof fn law_int_steering_tests_count_failed_expectations()
    ensures
        forall|s: RunState, sc: u32, imask: u32, ssr: u32, count: u32, htid: u32, ssr2: u32|
            #[trigger] s.steering_disabled_run(sc, imask, ssr, count, htid, ssr2).recorded() == s.recorded()
                + (if (count) >= 1 { 0nat } else { 1nat })
                + (if (htid) == (0) { 0nat } else { 1nat }),
        forall|s: RunState, mask: u32, expected: u32, sc: u32, imask: u32, r: SteerRound, t: SteerTail|
            #[trigger] s.iassign_case_run(mask, expected, sc, imask, r, t).recorded() == s.recorded()
                + (if r.count >= 1 { 0nat } else { 1nat })
                + (if r.htid == expected { 0nat } else { 1nat }),
        forall|s: RunState, sc: u32, stid: u32, imask: u32, r1: SteerRound, t1: SteerTail, r2: SteerRound, t2: SteerTail|
            #[trigger] s.dynamic_priority_run(sc, stid, imask, r1, t1, r2, t2).recorded() == s.recorded()
                + (if r1.count >= 1 { 0nat } else { 1nat })
                + (if r1.htid == 1 { 0nat } else { 1nat })
                + (if r2.count >= 1 { 0nat } else { 1nat })
                + (if r2.htid == 0 { 0nat } else { 1nat }),
{
    broadcast use crate::report::group_recorded, lemma_recorded_steered, lemma_recorded_steer_tail, lemma_recorded_steer_cleared;

    assert forall|s: RunState, sc: u32, imask: u32, ssr: u32, count: u32, htid: u32, ssr2: u32|
        #[trigger] s.steering_disabled_run(sc, imask, ssr, count, htid, ssr2).recorded() == s.recorded()
            + (if (count) >= 1 { 0nat } else { 1nat })
            + (if (htid) == (0) { 0nat } else { 1nat }) by {}
    assert forall|s: RunState, mask: u32, expected: u32, sc: u32, imask: u32, r: SteerRound, t: SteerTail|
        #[trigger] s.iassign_case_run(mask, expected, sc, imask, r, t).recorded() == s.recorded()
            + (if r.count >= 1 { 0nat } else { 1nat })
            + (if r.htid == expected { 0nat } else { 1nat }) by {}
    assert forall|s: RunState, sc: u32, stid: u32, imask: u32, r1: SteerRound, t1: SteerTail, r2: SteerRound, t2: SteerTail|
        #[trigger] s.dynamic_priority_run(sc, stid, imask, r1, t1, r2, t2).recorded() == s.recorded()
            + (if r1.count >= 1 { 0nat } else { 1nat })
            + (if r1.htid == 1 { 0nat } else { 1nat })
            + (if r2.count >= 1 { 0nat } else { 1nat })
            + (if r2.htid == 0 { 0nat } else { 1nat }) by {}
}

} // verus!
