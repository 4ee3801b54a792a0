//! Interrupt stress tests: bursts of different interrupts, several
//! software interrupt bits raised at once, rapid re-raising of one
//! interrupt, an interrupt raised from a handler, interrupts held back by
//! SSR.IE and released together, handlers writing shared memory, and the
//! same patterns while a second thread runs, spins or waits.

use vstd::prelude::*;
use crate::machine::{Ev, Hexagon, IntCtl, IrqHandler, RunState, Runtime, Shared, SysReg, ThreadCtl, ThreadEntry};
use crate::regs::{lemma_bit_values, SSR_IE};
use crate::report::{Fatal, TestCase};
use crate::runtime::{equals, poll_hit, poll_run, thread_bit_clear};
use crate::suites::common::wait_flag_checked;

verus! {

/// How many times a worker's flag is polled.
pub const WORKER_WAIT_LIMIT: u32 = 50000;

/// How many times MODECTL is polled for the worker to stop.
pub const WORKER_STOP_LIMIT: u32 = 10000;

/// How many times the busy worker writes shared memory.
pub const BUSY_WORKER_WRITES: u32 = 1000;

impl RunState {
    /// The counting handler: count interrupts 0 to 15.
    pub open spec fn counting_handler_run(self, intno: u32) -> RunState {
        if intno < 16 {
            self.ev(Ev::SharedAdd(Shared::IntCount(intno), 1))
        } else {
            self
        }
    }

    /// The cascade handler: count, then raise software interrupt 3.
    pub open spec fn cascade_handler_run(self, intno: u32) -> RunState {
        self.ev(Ev::SharedAdd(Shared::IntCount(intno), 1)).ictl(IntCtl::Swi, 8)
    }

    /// The data-writer handler: count, and for interrupts 0 to 7 write
    /// `0xDEAD_0000 | intno` to the interrupt's data word.
    pub open spec fn data_writer_handler_run(self, intno: u32) -> RunState {
        let s = self.ev(Ev::SharedAdd(Shared::IntCount(intno), 1));
        if intno < 8 {
            s.st(Shared::HandlerData(intno), 0xDEAD_0000u32 | intno)
        } else {
            s
        }
    }

    /// Zero the counters of interrupts 0 to `n - 1`, in order.
    pub open spec fn counts_zeroed(self, n: nat) -> RunState
        decreases n,
    {
        if n == 0 {
            self
        } else {
            self.counts_zeroed((n - 1) as nat).st(Shared::IntCount((n - 1) as u32), 0)
        }
    }

    /// Zero the data words 0 to `n - 1`, in order.
    pub open spec fn data_zeroed(self, n: nat) -> RunState
        decreases n,
    {
        if n == 0 {
            self
        } else {
            self.data_zeroed((n - 1) as nat).st(Shared::HandlerData((n - 1) as u32), 0)
        }
    }

    /// Clear every pending software interrupt and auto-disable bit with
    /// SSR.IE off.
    pub open spec fn swi_iad_cleared(self, ssr: u32) -> RunState {
        self.rd(SysReg::Ssr, ssr).wr(SysReg::Ssr, ssr & !SSR_IE).ictl(IntCtl::Cswi, 0xFFFF_FFFF).ictl(
            IntCtl::Ciad,
            0xFFFF_FFFF,
        ).wr(SysReg::Ssr, ssr)
    }

    /// Install `h` for interrupts `lo` to `lo + n - 1`, in order.
    pub open spec fn handlers_installed(self, lo: u32, n: nat, h: IrqHandler) -> RunState
        decreases n,
    {
        if n == 0 {
            self
        } else {
            self.handlers_installed(lo, (n - 1) as nat, h).handler((lo + n - 1) as u32, h)
        }
    }

    /// Read the counters of interrupts `lo` onwards (the values `cs`) and
    /// check each fired.
    pub open spec fn all_fired(self, lo: u32, cs: Seq<u32>) -> RunState
        decreases cs.len(),
    {
        if cs.len() == 0 {
            self
        } else {
            self.all_fired(lo, cs.drop_last()).fired((lo + cs.len() - 1) as u32, "INT_COUNT[i as usize].load(Ordering::SeqCst) >= 1", cs.last())
        }
    }

    /// Read the counters of interrupts `lo` onwards (the values `cs`) and
    /// check none fired.
    pub open spec fn none_fired(self, lo: u32, cs: Seq<u32>) -> RunState
        decreases cs.len(),
    {
        if cs.len() == 0 {
            self
        } else {
            self.none_fired(lo, cs.drop_last()).not_fired((lo + cs.len() - 1) as u32, cs.last())
        }
    }

    /// Read the data words of interrupts `lo` onwards (the values `ds`) and
    /// check each holds its handler's pattern.
    pub open spec fn data_checked(self, lo: u32, ds: Seq<u32>) -> RunState
        decreases ds.len(),
    {
        if ds.len() == 0 {
            self
        } else {
            let i = (lo + ds.len() - 1) as u32;
            self.data_checked(lo, ds.drop_last()).ld(Shared::HandlerData(i), ds.last()).check32(
                ds.last(),
                0xDEAD_0000u32 | i,
            )
        }
    }

    /// Cycles of raising software interrupt 2, waiting, and clearing its
    /// pending and auto-disable bits with SSR.IE off (the SSR values read
    /// are `ssrs`), leaving SSR.IE on.
    pub open spec fn refired(self, ssrs: Seq<u32>) -> RunState
        decreases ssrs.len(),
    {
        if ssrs.len() == 0 {
            self
        } else {
            let ssr = ssrs.last();
            self.refired(ssrs.drop_last()).ictl(IntCtl::Swi, 4).delay(50).rd(SysReg::Ssr, ssr).wr(
                SysReg::Ssr,
                ssr & !SSR_IE,
            ).ictl(IntCtl::Cswi, 4).ictl(IntCtl::Ciad, 4).wr(SysReg::Ssr, ssr | SSR_IE)
        }
    }

    /// The busy worker's writes: data word 0 takes 0 to `n - 1`, with a
    /// short pause after each.
    pub open spec fn data_hammered(self, n: nat) -> RunState
        decreases n,
    {
        if n == 0 {
            self
        } else {
            self.data_hammered((n - 1) as nat).st(Shared::HandlerData(0), (n - 1) as u32).delay(5)
        }
    }

    /// Raise software interrupts 2 to 7, one instruction each.
    pub open spec fn burst_raised(self) -> RunState {
        self.ictl(IntCtl::Swi, 0x4).ictl(IntCtl::Swi, 0x8).ictl(IntCtl::Swi, 0x10).ictl(IntCtl::Swi, 0x20).ictl(
            IntCtl::Swi,
            0x40,
        ).ictl(IntCtl::Swi, 0x80)
    }

    /// The common start of a test: clear interrupt state and counters.
    pub open spec fn stress_reset(self, ssr: u32) -> RunState {
        self.swi_iad_cleared(ssr).counts_zeroed(16)
    }

    /// Clear the worker's flags.
    pub open spec fn worker_flags_reset(self) -> RunState {
        self.st(Shared::Thread1Ready, 0).st(Shared::Thread1Done, 0)
    }

    /// Start thread 1 at `e`.
    pub open spec fn worker_started(self, e: ThreadEntry) -> RunState {
        self.entry(1, e).start(2)
    }

    /// The busy worker: report ready, write shared memory, report done.
    pub open spec fn busy_worker_run(self) -> RunState {
        self.st(Shared::Thread1Ready, 1).data_hammered(BUSY_WORKER_WRITES as nat).st(Shared::Thread1Done, 1)
    }

    /// The waiting worker: report ready, wait until resumed, report done.
    pub open spec fn wait_worker_run(self) -> RunState {
        self.st(Shared::Thread1Ready, 1).ev(Ev::ThreadCtl(ThreadCtl::Wait, 0)).st(Shared::Thread1Done, 1)
    }

    pub open spec fn multi_int_burst_run(
        self,
        s1: u32,
        cs: Seq<u32>,
        s2: u32,
    ) -> RunState {
        self.stress_reset(s1).handlers_installed(2, 6, IrqHandler::Counting).burst_raised().delay(200).all_fired(2, cs).swi_iad_cleared(
            s2,
        )
    }

    pub open spec fn simultaneous_swi_bits_run(
        self,
        s1: u32,
        c2: u32,
        c3: u32,
        c4: u32,
        s2: u32,
    ) -> RunState {
        self.stress_reset(s1).handler(2, IrqHandler::Counting).handler(3, IrqHandler::Counting).handler(
            4,
            IrqHandler::Counting,
        ).ictl(IntCtl::Swi, 0x1C).delay(200).fired(2, "INT_COUNT[2].load(Ordering::SeqCst) >= 1", c2).fired(3, "INT_COUNT[3].load(Ordering::SeqCst) >= 1", c3).fired(
            4,
            "INT_COUNT[4].load(Ordering::SeqCst) >= 1",
            c4,
        ).swi_iad_cleared(s2)
    }

    pub open spec fn rapid_refire_cycle_run(
        self,
        s1: u32,
        ssrs: Seq<u32>,
        c: u32,
        s2: u32,
    ) -> RunState {
        self.stress_reset(s1).handler(2, IrqHandler::Counting).refired(ssrs).ld(Shared::IntCount(2), c).check(
            c >= 20,
            "INT_COUNT[2].load(Ordering::SeqCst) >= iterations",
        ).swi_iad_cleared(s2)
    }

    pub open spec fn nested_swi_from_handler_run(
        self,
        s1: u32,
        c2: u32,
        c3: u32,
        s2: u32,
    ) -> RunState {
        self.stress_reset(s1).handler(2, IrqHandler::Cascade).handler(3, IrqHandler::Counting).ictl(IntCtl::Swi, 4).delay(
            200,
        ).fired(2, "INT_COUNT[2].load(Ordering::SeqCst) >= 1", c2).fired(3, "INT_COUNT[3].load(Ordering::SeqCst) >= 1", c3).swi_iad_cleared(s2)
    }

    pub open spec fn delayed_delivery_burst_run(
        self,
        s1: u32,
        ssr: u32,
        cs1: Seq<u32>,
        cs2: Seq<u32>,
        s2: u32,
    ) -> RunState {
        self.stress_reset(s1).handlers_installed(2, 4, IrqHandler::Counting).rd(SysReg::Ssr, ssr).wr(
            SysReg::Ssr,
            ssr & !SSR_IE,
        ).ictl(IntCtl::Swi, 0x3C).delay(20).none_fired(2, cs1).wr(SysReg::Ssr, ssr | SSR_IE).delay(200).all_fired(
            2,
            cs2,
        ).swi_iad_cleared(s2)
    }

    pub open spec fn handler_shared_memory_run(
        self,
        s1: u32,
        ds: Seq<u32>,
        s2: u32,
    ) -> RunState {
        self.stress_reset(s1).data_zeroed(8).handlers_installed(2, 4, IrqHandler::DataWriter).ictl(IntCtl::Swi, 0x3C).delay(
            200,
        ).data_checked(2, ds).swi_iad_cleared(s2)
    }

    pub open spec fn int_burst_with_busy_thread_run(
        self,
        s1: u32,
        o1: Seq<u32>,
        cs: Seq<u32>,
        o2: Seq<u32>,
        o3: Seq<u32>,
        d: u32,
        s2: u32,
    ) -> RunState {
        self.stress_reset(s1).data_zeroed(8).worker_flags_reset().handlers_installed(2, 6, IrqHandler::Counting).worker_started(
            ThreadEntry::BusyWorker,
        ).flag_checked(Shared::Thread1Ready, 1, "ready", o1).burst_raised().delay(200).all_fired(2, cs).flag_checked(
            Shared::Thread1Done,
            1,
            "done",
            o2,
        ).stop_polled(1, o3).ld(Shared::HandlerData(0), d).check32(d, 999).swi_iad_cleared(s2)
    }

    pub open spec fn rapid_refire_with_spinning_thread_run(
        self,
        s1: u32,
        o1: Seq<u32>,
        ssrs: Seq<u32>,
        c: u32,
        o2: Seq<u32>,
        s2: u32,
    ) -> RunState {
        self.stress_reset(s1).worker_flags_reset().handler(2, IrqHandler::Counting).worker_started(ThreadEntry::SpinWorker).flag_checked(
            Shared::Thread1Ready,
            1,
            "ready",
            o1,
        ).refired(ssrs).ld(Shared::IntCount(2), c).check(c >= 10, "INT_COUNT[2].load(Ordering::SeqCst) >= iterations").st(
            Shared::Thread1Done,
            1,
        ).stop_polled(1, o2).swi_iad_cleared(s2)
    }

    pub open spec fn interrupt_during_thread_start_run(
        self,
        s1: u32,
        c: u32,
        o1: Seq<u32>,
        o2: Seq<u32>,
        s2: u32,
    ) -> RunState {
        self.stress_reset(s1).worker_flags_reset().handler(2, IrqHandler::Counting).worker_started(ThreadEntry::BusyWorker).ictl(
            IntCtl::Swi,
            4,
        ).delay(100).fired(2, "INT_COUNT[2].load(Ordering::SeqCst) >= 1", c).flag_checked(Shared::Thread1Done, 1, "done", o1).stop_polled(
            1,
            o2,
        ).swi_iad_cleared(s2)
    }

    pub open spec fn int_with_thread_wait_resume_run(
        self,
        s1: u32,
        o1: Seq<u32>,
        c2: u32,
        sa: u32,
        c3: u32,
        sb: u32,
        o2: Seq<u32>,
        o3: Seq<u32>,
    ) -> RunState {
        self.stress_reset(s1).worker_flags_reset().handler(2, IrqHandler::Counting).handler(3, IrqHandler::Counting).worker_started(
            ThreadEntry::WaitWorker,
        ).flag_checked(Shared::Thread1Ready, 1, "ready", o1).delay(200).ictl(IntCtl::Swi, 4).delay(100).fired(
            2,
            "INT_COUNT[2].load(Ordering::SeqCst) >= 1",
            c2,
        ).swi_iad_cleared(sa).ictl(IntCtl::Swi, 8).delay(100).fired(3, "INT_COUNT[3].load(Ordering::SeqCst) >= 1", c3).swi_iad_cleared(
            sb,
        ).ev(Ev::ThreadCtl(ThreadCtl::Resume, 2)).flag_checked(Shared::Thread1Done, 1, "done", o2).stop_polled(1, o3)
    }
}

/// How many of the interrupt counts read are zero: interrupts whose
/// handler never ran.
pub open spec fn zero_counts(cs: Seq<u32>) -> nat
    decreases cs.len(),
{
    if cs.len() == 0 {
        0
    } else {
        zero_counts(cs.drop_last()) + if cs.last() >= 1 { 0nat } else { 1nat }
    }
}

/// How many of the interrupt counts read are not zero: interrupts whose
/// handler ran.
pub open spec fn nonzero_counts(cs: Seq<u32>) -> nat
    decreases cs.len(),
{
    if cs.len() == 0 {
        0
    } else {
        nonzero_counts(cs.drop_last()) + if cs.last() == 0 { 0nat } else { 1nat }
    }
}

/// How many of the data words read, for interrupts `lo` onwards, differ
/// from the pattern `0xDEAD_0000 | intno` their handler writes.
pub open spec fn data_mismatches(lo: u32, ds: Seq<u32>) -> nat
    decreases ds.len(),
{
    if ds.len() == 0 {
        0
    } else {
        data_mismatches(lo, ds.drop_last()) + if ds.last() == 0xDEAD_0000u32 | ((lo + ds.len() - 1) as u32) {
            0nat
        } else {
            1nat
        }
    }
}

/// Zeroing counters records no error.
pub broadcast proof fn lemma_recorded_counts_zeroed(t: RunState, n: nat)
    ensures
        #[trigger] t.counts_zeroed(n).recorded() == t.recorded(),
    decreases n,
{
    broadcast use crate::report::group_recorded;

    if n > 0 {
        lemma_recorded_counts_zeroed(t, (n - 1) as nat);
    }
}

/// Zeroing data words records no error.
pub broadcast proof fn lemma_recorded_data_zeroed(t: RunState, n: nat)
    ensures
        #[trigger] t.data_zeroed(n).recorded() == t.recorded(),
    decreases n,
{
    broadcast use crate::report::group_recorded;

    if n > 0 {
        lemma_recorded_data_zeroed(t, (n - 1) as nat);
    }
}

/// Installing handlers records no error.
pub broadcast proof fn lemma_recorded_handlers_installed(t: RunState, lo: u32, n: nat, h: IrqHandler)
    ensures
        #[trigger] t.handlers_installed(lo, n, h).recorded() == t.recorded(),
    decreases n,
{
    broadcast use crate::report::group_recorded;

    if n > 0 {
        lemma_recorded_handlers_installed(t, lo, (n - 1) as nat, h);
    }
}

/// Refiring cycles record no error.
pub broadcast proof fn lemma_recorded_refired(t: RunState, ssrs: Seq<u32>)
    ensures
        #[trigger] t.refired(ssrs).recorded() == t.recorded(),
    decreases ssrs.len(),
{
    broadcast use crate::report::group_recorded;

    if ssrs.len() > 0 {
        lemma_recorded_refired(t, ssrs.drop_last());
    }
}

/// Checking that interrupts fired records one error per interrupt whose
/// count is zero.
pub broadcast proof fn lemma_recorded_all_fired(t: RunState, lo: u32, cs: Seq<u32>)
    ensures
        #[trigger] t.all_fired(lo, cs).recorded() == t.recorded() + zero_counts(cs),
    decreases cs.len(),
{
    broadcast use crate::report::group_recorded;

    if cs.len() > 0 {
        lemma_recorded_all_fired(t, lo, cs.drop_last());
    }
}

/// Checking that interrupts did not fire records one error per interrupt
/// whose count is not zero.
pub broadcast proof fn lemma_recorded_none_fired(t: RunState, lo: u32, cs: Seq<u32>)
    ensures
        #[trigger] t.none_fired(lo, cs).recorded() == t.recorded() + nonzero_counts(cs),
    decreases cs.len(),
{
    broadcast use crate::report::group_recorded;

    if cs.len() > 0 {
        lemma_recorded_none_fired(t, lo, cs.drop_last());
    }
}

/// Checking the handlers' data words records one error per word that does
/// not hold its handler's pattern.
pub broadcast proof fn lemma_recorded_data_checked(t: RunState, lo: u32, ds: Seq<u32>)
    ensures
        #[trigger] t.data_checked(lo, ds).recorded() == t.recorded() + data_mismatches(lo, ds),
    decreases ds.len(),
{
    broadcast use crate::report::group_recorded;

    if ds.len() > 0 {
        lemma_recorded_data_checked(t, lo, ds.drop_last());
    }
}

/// The errors recorded by this suite's building blocks.
pub broadcast group group_isr_recorded {
    lemma_recorded_counts_zeroed,
    lemma_recorded_data_zeroed,
    lemma_recorded_handlers_installed,
    lemma_recorded_refired,
    lemma_recorded_all_fired,
    lemma_recorded_none_fired,
    lemma_recorded_data_checked,
}

/// Counting handler: count interrupts 0 to 15.
pub fn counting_handler<M: Hexagon>(rt: &mut Runtime<M>, intno: u32)
    ensures
        final(rt)@ == old(rt)@.counting_handler_run(intno),
{
    if intno < 16 {
        rt.shared_add(Shared::IntCount(intno), 1);
    }
}

/// Cascade handler: count, then raise software interrupt 3, which is
/// taken once this handler returns and SSR.IE is back on.
pub fn cascade_handler<M: Hexagon>(rt: &mut Runtime<M>, intno: u32)
    requires
        intno < 16,
    ensures
        final(rt)@ == old(rt)@.cascade_handler_run(intno),
{
    rt.shared_add(Shared::IntCount(intno), 1);
    rt.trigger_swi(1 << 3);
    assert(1u32 << 3u32 == 8) by (bit_vector);
}

/// Data-writer handler: count, and leave a pattern naming the interrupt
/// in its data word.
pub fn data_writer_handler<M: Hexagon>(rt: &mut Runtime<M>, intno: u32)
    requires
        intno < 16,
    ensures
        final(rt)@ == old(rt)@.data_writer_handler_run(intno),
{
    rt.shared_add(Shared::IntCount(intno), 1);
    if intno < 8 {
        rt.shared_store(Shared::HandlerData(intno), 0xDEAD_0000 | intno);
    }
}

/// Zero the 16 interrupt counters.
fn reset_counts<M: Hexagon>(rt: &mut Runtime<M>)
    ensures
        final(rt)@ == old(rt)@.counts_zeroed(16),
{
    let ghost s0 = rt@;
    for i in 0..16u32
        invariant
            rt@ == s0.counts_zeroed(i as nat),
    {
        rt.shared_store(Shared::IntCount(i), 0);
    }
}

/// Zero the 8 handler data words.
fn reset_handler_data<M: Hexagon>(rt: &mut Runtime<M>)
    ensures
        final(rt)@ == old(rt)@.data_zeroed(8),
{
    let ghost s0 = rt@;
    for i in 0..8u32
        invariant
            rt@ == s0.data_zeroed(i as nat),
    {
        rt.shared_store(Shared::HandlerData(i), 0);
    }
}

/// Clear every pending software interrupt and auto-disable bit with
/// SSR.IE off, then restore SSR.
pub fn clear_all_swi<M: Hexagon>(rt: &mut Runtime<M>)
    ensures
        exists|s: u32| #[trigger] old(rt)@.swi_iad_cleared(s) == final(rt)@,
{
    let ssr = rt.read_ssr();
    rt.write_ssr(ssr & !SSR_IE);
    rt.clear_swi(0xFFFF_FFFF);
    rt.ciad(0xFFFF_FFFF);
    rt.write_ssr(ssr);
    assert(old(rt)@.swi_iad_cleared(ssr) == rt@);
}

/// Clear interrupt state and zero the counters.
fn stress_reset<M: Hexagon>(rt: &mut Runtime<M>)
    ensures
        exists|s: u32| #[trigger] old(rt)@.stress_reset(s) == final(rt)@,
{
    clear_all_swi(rt);
    let ghost s = choose|s: u32| #[trigger] old(rt)@.swi_iad_cleared(s) == rt@;
    reset_counts(rt);
    assert(old(rt)@.stress_reset(s) == rt@);
}

/// Install `h` for interrupts `lo` to `hi - 1`.
fn install_handlers<M: Hexagon>(rt: &mut Runtime<M>, lo: u32, hi: u32, h: IrqHandler)
    requires
        lo <= hi <= 32,
    ensures
        final(rt)@ == old(rt)@.handlers_installed(lo, (hi - lo) as nat, h),
{
    let ghost s0 = rt@;
    for i in lo..hi
        invariant
            lo <= hi <= 32,
            rt@ == s0.handlers_installed(lo, (i - lo) as nat, h),
    {
        rt.register_interrupt(i, h);
        assert(rt@ == s0.handlers_installed(lo, (i + 1 - lo) as nat, h));
    }
}

/// Check that interrupts `lo` to `hi - 1` fired.
fn check_all_fired<M: Hexagon>(rt: &mut Runtime<M>, lo: u32, hi: u32)
    requires
        lo <= hi <= 16,
    ensures
        exists|cs: Seq<u32>| #[trigger] old(rt)@.all_fired(lo, cs) == final(rt)@ && cs.len() == hi - lo,
{
    let ghost s0 = rt@;
    let ghost mut cs: Seq<u32> = Seq::empty();
    for i in lo..hi
        invariant
            lo <= hi <= 16,
            cs.len() == i - lo,
            rt@ == s0.all_fired(lo, cs),
    {
        let c = rt.shared_load(Shared::IntCount(i));
        rt.check(c >= 1, "INT_COUNT[i as usize].load(Ordering::SeqCst) >= 1");
        proof {
            let cs2 = cs.push(c);
            assert(cs2.drop_last() =~= cs);
            cs = cs2;
        }
    }
    assert(s0.all_fired(lo, cs) == rt@);
}

/// Check that interrupts `lo` to `hi - 1` did not fire.
fn check_none_fired<M: Hexagon>(rt: &mut Runtime<M>, lo: u32, hi: u32)
    requires
        lo <= hi <= 16,
    ensures
        exists|cs: Seq<u32>| #[trigger] old(rt)@.none_fired(lo, cs) == final(rt)@ && cs.len() == hi - lo,
{
    let ghost s0 = rt@;
    let ghost mut cs: Seq<u32> = Seq::empty();
    for i in lo..hi
        invariant
            lo <= hi <= 16,
            cs.len() == i - lo,
            rt@ == s0.none_fired(lo, cs),
    {
        let c = rt.shared_load(Shared::IntCount(i));
        rt.check32(c, 0);
        proof {
            let cs2 = cs.push(c);
            assert(cs2.drop_last() =~= cs);
            cs = cs2;
        }
    }
    assert(s0.none_fired(lo, cs) == rt@);
}

/// Check the data words of interrupts `lo` to `hi - 1`.
fn check_handler_data<M: Hexagon>(rt: &mut Runtime<M>, lo: u32, hi: u32)
    requires
        lo <= hi <= 8,
    ensures
        exists|ds: Seq<u32>| #[trigger] old(rt)@.data_checked(lo, ds) == final(rt)@ && ds.len() == hi - lo,
{
    let ghost s0 = rt@;
    let ghost mut ds: Seq<u32> = Seq::empty();
    for i in lo..hi
        invariant
            lo <= hi <= 8,
            ds.len() == i - lo,
            rt@ == s0.data_checked(lo, ds),
    {
        let d = rt.shared_load(Shared::HandlerData(i));
        rt.check32(d, 0xDEAD_0000 | i);
        proof {
            let ds2 = ds.push(d);
            assert(ds2.drop_last() =~= ds);
            ds = ds2;
        }
    }
    assert(s0.data_checked(lo, ds) == rt@);
}

/// `n` cycles of raising software interrupt 2 and clearing it.
fn refire_cycles<M: Hexagon>(rt: &mut Runtime<M>, n: u32)
    ensures
        exists|ssrs: Seq<u32>| #[trigger] old(rt)@.refired(ssrs) == final(rt)@ && ssrs.len() == n,
{
    let ghost s0 = rt@;
    let ghost mut ssrs: Seq<u32> = Seq::empty();
    for _k in 0..n
        invariant
            ssrs.len() == _k,
            rt@ == s0.refired(ssrs),
    {
        proof {
            lemma_bit_values();
        }
        rt.trigger_swi(1 << 2);
        rt.busy_loop(50);
        let ssr = rt.read_ssr();
        rt.write_ssr(ssr & !SSR_IE);
        rt.clear_swi(1 << 2);
        rt.ciad(1 << 2);
        rt.write_ssr(ssr | SSR_IE);
        proof {
            let ssrs2 = ssrs.push(ssr);
            assert(ssrs2.drop_last() =~= ssrs);
            ssrs = ssrs2;
        }
    }
    assert(s0.refired(ssrs) == rt@);
}

/// Raise software interrupts 2 to 7, one instruction each.
fn raise_burst<M: Hexagon>(rt: &mut Runtime<M>)
    ensures
        final(rt)@ == old(rt)@.burst_raised(),
{
    proof {
        lemma_bit_values();
    }
    rt.trigger_swi(1 << 2);
    rt.trigger_swi(1 << 3);
    rt.trigger_swi(1 << 4);
    rt.trigger_swi(1 << 5);
    rt.trigger_swi(1 << 6);
    rt.trigger_swi(1 << 7);
}

/// Clear the worker's flags and start thread 1 at `e`.
fn start_worker<M: Hexagon>(rt: &mut Runtime<M>, e: ThreadEntry)
    ensures
        final(rt)@ == old(rt)@.worker_started(e),
{
    rt.set_thread_entry(1, Some(e));
    rt.start_threads(1 << 1);
    assert(1u32 << 1u32 == 2) by (bit_vector);
}

/// Wait for thread 1 to stop.
fn wait_worker_stopped<M: Hexagon>(rt: &mut Runtime<M>)
    ensures
        exists|o: Seq<u32>|
            #[trigger] old(rt)@.stop_polled(1, o) == final(rt)@ && poll_run(thread_bit_clear(1), WORKER_STOP_LIMIT, o),
{
    let _ = rt.wait_for_thread_stopped(1, WORKER_STOP_LIMIT);
}

/// Worker entry: report ready, write shared memory many times, report
/// done.
pub fn thread_busy_worker<M: Hexagon>(rt: &mut Runtime<M>)
    ensures
        final(rt)@ == old(rt)@.busy_worker_run(),
{
    rt.shared_store(Shared::Thread1Ready, 1);
    let ghost s1 = rt@;
    for i in 0..BUSY_WORKER_WRITES
        invariant
            rt@ == s1.data_hammered(i as nat),
    {
        rt.shared_store(Shared::HandlerData(0), i);
        rt.busy_loop(5);
    }
    rt.shared_store(Shared::Thread1Done, 1);
}

/// Worker entry up to its spin (which polls `Thread1Done` with
/// [`crate::suites::common::exit_poll`]): report ready.
pub fn thread_spin_worker<M: Hexagon>(rt: &mut Runtime<M>)
    ensures
        final(rt)@ == old(rt)@.st(Shared::Thread1Ready, 1),
{
    rt.shared_store(Shared::Thread1Ready, 1);
}

/// Worker entry: report ready, wait until resumed, report done.
pub fn thread_wait_worker<M: Hexagon>(rt: &mut Runtime<M>)
    ensures
        final(rt)@ == old(rt)@.wait_worker_run(),
{
    rt.shared_store(Shared::Thread1Ready, 1);
    rt.wait_self(0);
    rt.shared_store(Shared::Thread1Done, 1);
}

/// Six different interrupts raised back to back on thread 0 all fire.
pub fn test_multi_int_burst<M: Hexagon>(rt: &mut Runtime<M>)
    ensures
        exists|s1: u32, cs: Seq<u32>, s2: u32| #[trigger] old(rt)@.multi_int_burst_run(s1, cs, s2) == final(rt)@ && cs.len() == 6,
{
    stress_reset(rt);
    let ghost s1 = choose|s: u32| #[trigger] old(rt)@.stress_reset(s) == rt@;
    install_handlers(rt, 2, 8, IrqHandler::Counting);
    raise_burst(rt);
    rt.busy_loop(200);
    let ghost a = rt@;
    check_all_fired(rt, 2, 8);
    let ghost cs = choose|cs: Seq<u32>| #[trigger] a.all_fired(2, cs) == rt@ && cs.len() == 6;
    let ghost b = rt@;
    clear_all_swi(rt);
    let ghost s2 = choose|s: u32| #[trigger] b.swi_iad_cleared(s) == rt@;
    assert(old(rt)@.multi_int_burst_run(s1, cs, s2) == rt@);
}

/// Three software interrupt bits raised by one instruction all fire.
pub fn test_simultaneous_swi_bits<M: Hexagon>(rt: &mut Runtime<M>)
    ensures
        exists|s1: u32, c2: u32, c3: u32, c4: u32, s2: u32| #[trigger] old(rt)@.simultaneous_swi_bits_run(s1, c2, c3, c4, s2) == final(rt)@,
{
    proof {
        lemma_bit_values();
    }
    stress_reset(rt);
    let ghost s1 = choose|s: u32| #[trigger] old(rt)@.stress_reset(s) == rt@;
    rt.register_interrupt(2, IrqHandler::Counting);
    rt.register_interrupt(3, IrqHandler::Counting);
    rt.register_interrupt(4, IrqHandler::Counting);
    rt.trigger_swi((1 << 2) | (1 << 3) | (1 << 4));
    assert((1u32 << 2u32) | (1u32 << 3u32) | (1u32 << 4u32) == 0x1C) by (bit_vector);
    rt.busy_loop(200);
    let c2 = rt.shared_load(Shared::IntCount(2));
    rt.check(c2 >= 1, "INT_COUNT[2].load(Ordering::SeqCst) >= 1");
    let c3 = rt.shared_load(Shared::IntCount(3));
    rt.check(c3 >= 1, "INT_COUNT[3].load(Ordering::SeqCst) >= 1");
    let c4 = rt.shared_load(Shared::IntCount(4));
    rt.check(c4 >= 1, "INT_COUNT[4].load(Ordering::SeqCst) >= 1");
    let ghost b = rt@;
    clear_all_swi(rt);
    let ghost s2 = choose|s: u32| #[trigger] b.swi_iad_cleared(s) == rt@;
    assert(old(rt)@.simultaneous_swi_bits_run(s1, c2, c3, c4, s2) == rt@);
}

/// One interrupt raised and cleared twenty times fires every time.
pub fn test_rapid_refire_cycle<M: Hexagon>(rt: &mut Runtime<M>)
    ensures
        exists|s1: u32, ssrs: Seq<u32>, c: u32, s2: u32| #[trigger] old(rt)@.rapid_refire_cycle_run(s1, ssrs, c, s2) == final(rt)@ && ssrs.len() == 20,
{
    stress_reset(rt);
    let ghost s1 = choose|s: u32| #[trigger] old(rt)@.stress_reset(s) == rt@;
    rt.register_interrupt(2, IrqHandler::Counting);
    let iterations: u32 = 20;
    let ghost a = rt@;
    refire_cycles(rt, iterations);
    let ghost ssrs = choose|ssrs: Seq<u32>| #[trigger] a.refired(ssrs) == rt@ && ssrs.len() == 20;
    let c = rt.shared_load(Shared::IntCount(2));
    rt.check(c >= iterations, "INT_COUNT[2].load(Ordering::SeqCst) >= iterations");
    let ghost b = rt@;
    clear_all_swi(rt);
    let ghost s2 = choose|s: u32| #[trigger] b.swi_iad_cleared(s) == rt@;
    assert(old(rt)@.rapid_refire_cycle_run(s1, ssrs, c, s2) == rt@);
}

/// A handler for interrupt 2 that raises interrupt 3: both fire.
pub fn test_nested_swi_from_handler<M: Hexagon>(rt: &mut Runtime<M>)
    ensures
        exists|s1: u32, c2: u32, c3: u32, s2: u32| #[trigger] old(rt)@.nested_swi_from_handler_run(s1, c2, c3, s2) == final(rt)@,
{
    proof {
        lemma_bit_values();
    }
    stress_reset(rt);
    let ghost s1 = choose|s: u32| #[trigger] old(rt)@.stress_reset(s) == rt@;
    rt.register_interrupt(2, IrqHandler::Cascade);
    rt.register_interrupt(3, IrqHandler::Counting);
    rt.trigger_swi(1 << 2);
    rt.busy_loop(200);
    let c2 = rt.shared_load(Shared::IntCount(2));
    rt.check(c2 >= 1, "INT_COUNT[2].load(Ordering::SeqCst) >= 1");
    let c3 = rt.shared_load(Shared::IntCount(3));
    rt.check(c3 >= 1, "INT_COUNT[3].load(Ordering::SeqCst) >= 1");
    let ghost b = rt@;
    clear_all_swi(rt);
    let ghost s2 = choose|s: u32| #[trigger] b.swi_iad_cleared(s) == rt@;
    assert(old(rt)@.nested_swi_from_handler_run(s1, c2, c3, s2) == rt@);
}

/// Four interrupts raised with SSR.IE off stay pending, then all fire once
/// SSR.IE is back on.
pub fn test_delayed_delivery_burst<M: Hexagon>(rt: &mut Runtime<M>)
    ensures
        exists|s1: u32, ssr: u32, cs1: Seq<u32>, cs2: Seq<u32>, s2: u32| #[trigger] old(rt)@.delayed_delivery_burst_run(s1, ssr, cs1, cs2, s2) == final(rt)@ && cs1.len() == 4 && cs2.len() == 4,
{
    proof {
        lemma_bit_values();
    }
    stress_reset(rt);
    let ghost s1 = choose|s: u32| #[trigger] old(rt)@.stress_reset(s) == rt@;
    install_handlers(rt, 2, 6, IrqHandler::Counting);
    let ssr = rt.read_ssr();
    rt.write_ssr(ssr & !SSR_IE);
    rt.trigger_swi((1 << 2) | (1 << 3) | (1 << 4) | (1 << 5));
    assert((1u32 << 2u32) | (1u32 << 3u32) | (1u32 << 4u32) | (1u32 << 5u32) == 0x3C) by (bit_vector);
    rt.busy_loop(20);
    let ghost a = rt@;
    check_none_fired(rt, 2, 6);
    let ghost cs1 = choose|cs: Seq<u32>| #[trigger] a.none_fired(2, cs) == rt@ && cs.len() == 4;
    rt.write_ssr(ssr | SSR_IE);
    rt.busy_loop(200);
    let ghost b = rt@;
    check_all_fired(rt, 2, 6);
    let ghost cs2 = choose|cs: Seq<u32>| #[trigger] b.all_fired(2, cs) == rt@ && cs.len() == 4;
    let ghost c = rt@;
    clear_all_swi(rt);
    let ghost s2 = choose|s: u32| #[trigger] c.swi_iad_cleared(s) == rt@;
    assert(old(rt)@.delayed_delivery_burst_run(s1, ssr, cs1, cs2, s2) == rt@);
}

/// Four handlers each leave their pattern in shared memory, visible to the
/// main program afterwards.
pub fn test_handler_shared_memory<M: Hexagon>(rt: &mut Runtime<M>)
    ensures
        exists|s1: u32, ds: Seq<u32>, s2: u32| #[trigger] old(rt)@.handler_shared_memory_run(s1, ds, s2) == final(rt)@ && ds.len() == 4,
{
    proof {
        lemma_bit_values();
    }
    stress_reset(rt);
    let ghost s1 = choose|s: u32| #[trigger] old(rt)@.stress_reset(s) == rt@;
    reset_handler_data(rt);
    install_handlers(rt, 2, 6, IrqHandler::DataWriter);
    rt.trigger_swi((1 << 2) | (1 << 3) | (1 << 4) | (1 << 5));
    assert((1u32 << 2u32) | (1u32 << 3u32) | (1u32 << 4u32) | (1u32 << 5u32) == 0x3C) by (bit_vector);
    rt.busy_loop(200);
    let ghost a = rt@;
    check_handler_data(rt, 2, 6);
    let ghost ds = choose|ds: Seq<u32>| #[trigger] a.data_checked(2, ds) == rt@ && ds.len() == 4;
    let ghost b = rt@;
    clear_all_swi(rt);
    let ghost s2 = choose|s: u32| #[trigger] b.swi_iad_cleared(s) == rt@;
    assert(old(rt)@.handler_shared_memory_run(s1, ds, s2) == rt@);
}

/// A burst of six interrupts while thread 1 writes shared memory: all
/// fire, and the worker's last write is seen.
pub fn test_int_burst_with_busy_thread<M: Hexagon>(rt: &mut Runtime<M>)
    ensures
        exists|s1: u32, o1: Seq<u32>, cs: Seq<u32>, o2: Seq<u32>, o3: Seq<u32>, d: u32, s2: u32| #[trigger] old(rt)@.int_burst_with_busy_thread_run(s1, o1, cs, o2, o3, d, s2) == final(rt)@ && cs.len() == 6 && poll_run(equals(1), WORKER_WAIT_LIMIT, o1) && poll_run(equals(1), WORKER_WAIT_LIMIT, o2) && poll_run(thread_bit_clear(1), WORKER_STOP_LIMIT, o3),
{
    stress_reset(rt);
    let ghost s1 = choose|s: u32| #[trigger] old(rt)@.stress_reset(s) == rt@;
    reset_handler_data(rt);
    rt.shared_store(Shared::Thread1Ready, 0);
    rt.shared_store(Shared::Thread1Done, 0);
    install_handlers(rt, 2, 8, IrqHandler::Counting);
    start_worker(rt, ThreadEntry::BusyWorker);
    let ghost a = rt@;
    wait_flag_checked(rt, Shared::Thread1Ready, 1, WORKER_WAIT_LIMIT, "ready");
    let ghost o1 = choose|o: Seq<u32>|
        #[trigger] a.flag_checked(Shared::Thread1Ready, 1, "ready", o) == rt@ && poll_run(equals(1), WORKER_WAIT_LIMIT, o);
    raise_burst(rt);
    rt.busy_loop(200);
    let ghost b = rt@;
    check_all_fired(rt, 2, 8);
    let ghost cs = choose|cs: Seq<u32>| #[trigger] b.all_fired(2, cs) == rt@ && cs.len() == 6;
    let ghost c = rt@;
    wait_flag_checked(rt, Shared::Thread1Done, 1, WORKER_WAIT_LIMIT, "done");
    let ghost o2 = choose|o: Seq<u32>|
        #[trigger] c.flag_checked(Shared::Thread1Done, 1, "done", o) == rt@ && poll_run(equals(1), WORKER_WAIT_LIMIT, o);
    let ghost d = rt@;
    wait_worker_stopped(rt);
    let ghost o3 = choose|o: Seq<u32>|
        #[trigger] d.stop_polled(1, o) == rt@ && poll_run(thread_bit_clear(1), WORKER_STOP_LIMIT, o);
    let last = rt.shared_load(Shared::HandlerData(0));
    rt.check32(last, 999);
    let ghost e = rt@;
    clear_all_swi(rt);
    let ghost s2 = choose|s: u32| #[trigger] e.swi_iad_cleared(s) == rt@;
    assert(old(rt)@.int_burst_with_busy_thread_run(s1, o1, cs, o2, o3, last, s2) == rt@);
}

/// Interrupt 2 raised and cleared ten times while thread 1 spins fires
/// every time.
pub fn test_rapid_refire_with_spinning_thread<M: Hexagon>(rt: &mut Runtime<M>)
    ensures
        exists|s1: u32, o1: Seq<u32>, ssrs: Seq<u32>, c: u32, o2: Seq<u32>, s2: u32| #[trigger] old(rt)@.rapid_refire_with_spinning_thread_run(s1, o1, ssrs, c, o2, s2) == final(rt)@ && ssrs.len() == 10 && poll_run(equals(1), WORKER_WAIT_LIMIT, o1) && poll_run(thread_bit_clear(1), WORKER_STOP_LIMIT, o2),
{
    stress_reset(rt);
    let ghost s1 = choose|s: u32| #[trigger] old(rt)@.stress_reset(s) == rt@;
    rt.shared_store(Shared::Thread1Ready, 0);
    rt.shared_store(Shared::Thread1Done, 0);
    rt.register_interrupt(2, IrqHandler::Counting);
    start_worker(rt, ThreadEntry::SpinWorker);
    let ghost a = rt@;
    wait_flag_checked(rt, Shared::Thread1Ready, 1, WORKER_WAIT_LIMIT, "ready");
    let ghost o1 = choose|o: Seq<u32>|
        #[trigger] a.flag_checked(Shared::Thread1Ready, 1, "ready", o) == rt@ && poll_run(equals(1), WORKER_WAIT_LIMIT, o);
    let iterations: u32 = 10;
    let ghost b = rt@;
    refire_cycles(rt, iterations);
    let ghost ssrs = choose|ssrs: Seq<u32>| #[trigger] b.refired(ssrs) == rt@ && ssrs.len() == 10;
    let c = rt.shared_load(Shared::IntCount(2));
    rt.check(c >= iterations, "INT_COUNT[2].load(Ordering::SeqCst) >= iterations");
    rt.shared_store(Shared::Thread1Done, 1);
    let ghost d = rt@;
    wait_worker_stopped(rt);
    let ghost o2 = choose|o: Seq<u32>|
        #[trigger] d.stop_polled(1, o) == rt@ && poll_run(thread_bit_clear(1), WORKER_STOP_LIMIT, o);
    let ghost e = rt@;
    clear_all_swi(rt);
    let ghost s2 = choose|s: u32| #[trigger] e.swi_iad_cleared(s) == rt@;
    assert(old(rt)@.rapid_refire_with_spinning_thread_run(s1, o1, ssrs, c, o2, s2) == rt@);
}

/// An interrupt raised right after thread 1 is started fires.
pub fn test_interrupt_during_thread_start<M: Hexagon>(rt: &mut Runtime<M>)
    ensures
        exists|s1: u32, c: u32, o1: Seq<u32>, o2: Seq<u32>, s2: u32| #[trigger] old(rt)@.interrupt_during_thread_start_run(s1, c, o1, o2, s2) == final(rt)@ && poll_run(equals(1), WORKER_WAIT_LIMIT, o1) && poll_run(thread_bit_clear(1), WORKER_STOP_LIMIT, o2),
{
    proof {
        lemma_bit_values();
    }
    stress_reset(rt);
    let ghost s1 = choose|s: u32| #[trigger] old(rt)@.stress_reset(s) == rt@;
    rt.shared_store(Shared::Thread1Ready, 0);
    rt.shared_store(Shared::Thread1Done, 0);
    rt.register_interrupt(2, IrqHandler::Counting);
    start_worker(rt, ThreadEntry::BusyWorker);
    rt.trigger_swi(1 << 2);
    rt.busy_loop(100);
    let c = rt.shared_load(Shared::IntCount(2));
    rt.check(c >= 1, "INT_COUNT[2].load(Ordering::SeqCst) >= 1");
    let ghost a = rt@;
    wait_flag_checked(rt, Shared::Thread1Done, 1, WORKER_WAIT_LIMIT, "done");
    let ghost o1 = choose|o: Seq<u32>|
        #[trigger] a.flag_checked(Shared::Thread1Done, 1, "done", o) == rt@ && poll_run(equals(1), WORKER_WAIT_LIMIT, o);
    let ghost d = rt@;
    wait_worker_stopped(rt);
    let ghost o2 = choose|o: Seq<u32>|
        #[trigger] d.stop_polled(1, o) == rt@ && poll_run(thread_bit_clear(1), WORKER_STOP_LIMIT, o);
    let ghost e = rt@;
    clear_all_swi(rt);
    let ghost s2 = choose|s: u32| #[trigger] e.swi_iad_cleared(s) == rt@;
    assert(old(rt)@.interrupt_during_thread_start_run(s1, c, o1, o2, s2) == rt@);
}

/// Interrupts fire while thread 1 waits, and thread 1 resumes afterwards.
pub fn test_int_with_thread_wait_resume<M: Hexagon>(rt: &mut Runtime<M>)
    ensures
        exists|s1: u32, o1: Seq<u32>, c2: u32, sa: u32, c3: u32, sb: u32, o2: Seq<u32>, o3: Seq<u32>| #[trigger] old(rt)@.int_with_thread_wait_resume_run(s1, o1, c2, sa, c3, sb, o2, o3) == final(rt)@ && poll_run(equals(1), WORKER_WAIT_LIMIT, o1) && poll_run(equals(1), WORKER_WAIT_LIMIT, o2) && poll_run(thread_bit_clear(1), WORKER_STOP_LIMIT, o3),
{
    proof {
        lemma_bit_values();
    }
    stress_reset(rt);
    let ghost s1 = choose|s: u32| #[trigger] old(rt)@.stress_reset(s) == rt@;
    rt.shared_store(Shared::Thread1Ready, 0);
    rt.shared_store(Shared::Thread1Done, 0);
    rt.register_interrupt(2, IrqHandler::Counting);
    rt.register_interrupt(3, IrqHandler::Counting);
    start_worker(rt, ThreadEntry::WaitWorker);
    let ghost a = rt@;
    wait_flag_checked(rt, Shared::Thread1Ready, 1, WORKER_WAIT_LIMIT, "ready");
    let ghost o1 = choose|o: Seq<u32>|
        #[trigger] a.flag_checked(Shared::Thread1Ready, 1, "ready", o) == rt@ && poll_run(equals(1), WORKER_WAIT_LIMIT, o);
    rt.busy_loop(200);
    rt.trigger_swi(1 << 2);
    rt.busy_loop(100);
    let c2 = rt.shared_load(Shared::IntCount(2));
    rt.check(c2 >= 1, "INT_COUNT[2].load(Ordering::SeqCst) >= 1");
    let ghost b = rt@;
    clear_all_swi(rt);
    let ghost sa = choose|s: u32| #[trigger] b.swi_iad_cleared(s) == rt@;
    rt.trigger_swi(1 << 3);
    rt.busy_loop(100);
    let c3 = rt.shared_load(Shared::IntCount(3));
    rt.check(c3 >= 1, "INT_COUNT[3].load(Ordering::SeqCst) >= 1");
    let ghost c = rt@;
    clear_all_swi(rt);
    let ghost sb = choose|s: u32| #[trigger] c.swi_iad_cleared(s) == rt@;
    rt.resume_threads(1 << 1);
    let ghost d = rt@;
    wait_flag_checked(rt, Shared::Thread1Done, 1, WORKER_WAIT_LIMIT, "done");
    let ghost o2 = choose|o: Seq<u32>|
        #[trigger] d.flag_checked(Shared::Thread1Done, 1, "done", o) == rt@ && poll_run(equals(1), WORKER_WAIT_LIMIT, o);
    let ghost e = rt@;
    wait_worker_stopped(rt);
    let ghost o3 = choose|o: Seq<u32>|
        #[trigger] e.stop_polled(1, o) == rt@ && poll_run(thread_bit_clear(1), WORKER_STOP_LIMIT, o);
    assert(old(rt)@.int_with_thread_wait_resume_run(s1, o1, c2, sa, c3, sb, o2, o3) == rt@);
}

/// The tests of this suite.
#[derive(Clone, Copy)]
pub enum IsrStressTest {
    MultiIntBurst,
    SimultaneousSwiBits,
    RapidRefireCycle,
    NestedSwiFromHandler,
    DelayedDeliveryBurst,
    HandlerSharedMemory,
    IntBurstWithBusyThread,
    RapidRefireWithSpinningThread,
    InterruptDuringThreadStart,
    IntWithThreadWaitResume,
}

impl TestCase for IsrStressTest {
    open spec fn runs(&self, pre: RunState, post: RunState) -> bool {
        match *self {
            IsrStressTest::MultiIntBurst => exists|s1: u32, cs: Seq<u32>, s2: u32| #[trigger] pre.multi_int_burst_run(s1, cs, s2) == post && cs.len() == 6,
            IsrStressTest::SimultaneousSwiBits => exists|s1: u32, c2: u32, c3: u32, c4: u32, s2: u32| #[trigger] pre.simultaneous_swi_bits_run(s1, c2, c3, c4, s2) == post,
            IsrStressTest::RapidRefireCycle => exists|s1: u32, ssrs: Seq<u32>, c: u32, s2: u32| #[trigger] pre.rapid_refire_cycle_run(s1, ssrs, c, s2) == post && ssrs.len() == 20,
            IsrStressTest::NestedSwiFromHandler => exists|s1: u32, c2: u32, c3: u32, s2: u32| #[trigger] pre.nested_swi_from_handler_run(s1, c2, c3, s2) == post,
            IsrStressTest::DelayedDeliveryBurst => exists|s1: u32, ssr: u32, cs1: Seq<u32>, cs2: Seq<u32>, s2: u32| #[trigger] pre.delayed_delivery_burst_run(s1, ssr, cs1, cs2, s2) == post && cs1.len() == 4 && cs2.len() == 4,
            IsrStressTest::HandlerSharedMemory => exists|s1: u32, ds: Seq<u32>, s2: u32| #[trigger] pre.handler_shared_memory_run(s1, ds, s2) == post && ds.len() == 4,
            IsrStressTest::IntBurstWithBusyThread => exists|s1: u32, o1: Seq<u32>, cs: Seq<u32>, o2: Seq<u32>, o3: Seq<u32>, d: u32, s2: u32| #[trigger] pre.int_burst_with_busy_thread_run(s1, o1, cs, o2, o3, d, s2) == post && cs.len() == 6 && poll_run(equals(1), WORKER_WAIT_LIMIT, o1) && poll_run(equals(1), WORKER_WAIT_LIMIT, o2) && poll_run(thread_bit_clear(1), WORKER_STOP_LIMIT, o3),
            IsrStressTest::RapidRefireWithSpinningThread => exists|s1: u32, o1: Seq<u32>, ssrs: Seq<u32>, c: u32, o2: Seq<u32>, s2: u32| #[trigger] pre.rapid_refire_with_spinning_thread_run(s1, o1, ssrs, c, o2, s2) == post && ssrs.len() == 10 && poll_run(equals(1), WORKER_WAIT_LIMIT, o1) && poll_run(thread_bit_clear(1), WORKER_STOP_LIMIT, o2),
            IsrStressTest::InterruptDuringThreadStart => exists|s1: u32, c: u32, o1: Seq<u32>, o2: Seq<u32>, s2: u32| #[trigger] pre.interrupt_during_thread_start_run(s1, c, o1, o2, s2) == post && poll_run(equals(1), WORKER_WAIT_LIMIT, o1) && poll_run(thread_bit_clear(1), WORKER_STOP_LIMIT, o2),
            IsrStressTest::IntWithThreadWaitResume => exists|s1: u32, o1: Seq<u32>, c2: u32, sa: u32, c3: u32, sb: u32, o2: Seq<u32>, o3: Seq<u32>| #[trigger] pre.int_with_thread_wait_resume_run(s1, o1, c2, sa, c3, sb, o2, o3) == post && poll_run(equals(1), WORKER_WAIT_LIMIT, o1) && poll_run(equals(1), WORKER_WAIT_LIMIT, o2) && poll_run(thread_bit_clear(1), WORKER_STOP_LIMIT, o3),
        }
    }

    open spec fn aborts(&self, pre: RunState, post: RunState, f: Fatal) -> bool {
        false
    }

    open spec fn at(&self) -> &'static str {
        match *self {
            IsrStressTest::MultiIntBurst => "src/suites/isr_stress.rs:test_multi_int_burst",
            IsrStressTest::SimultaneousSwiBits => "src/suites/isr_stress.rs:test_simultaneous_swi_bits",
            IsrStressTest::RapidRefireCycle => "src/suites/isr_stress.rs:test_rapid_refire_cycle",
            IsrStressTest::NestedSwiFromHandler => "src/suites/isr_stress.rs:test_nested_swi_from_handler",
            IsrStressTest::DelayedDeliveryBurst => "src/suites/isr_stress.rs:test_delayed_delivery_burst",
            IsrStressTest::HandlerSharedMemory => "src/suites/isr_stress.rs:test_handler_shared_memory",
            IsrStressTest::IntBurstWithBusyThread => "src/suites/isr_stress.rs:test_int_burst_with_busy_thread",
            IsrStressTest::RapidRefireWithSpinningThread => "src/suites/isr_stress.rs:test_rapid_refire_with_spinning_thread",
            IsrStressTest::InterruptDuringThreadStart => "src/suites/isr_stress.rs:test_interrupt_during_thread_start",
            IsrStressTest::IntWithThreadWaitResume => "src/suites/isr_stress.rs:test_int_with_thread_wait_resume",
        }
    }

    fn location(&self) -> (at: &'static str) {
        match *self {
            IsrStressTest::MultiIntBurst => "src/suites/isr_stress.rs:test_multi_int_burst",
            IsrStressTest::SimultaneousSwiBits => "src/suites/isr_stress.rs:test_simultaneous_swi_bits",
            IsrStressTest::RapidRefireCycle => "src/suites/isr_stress.rs:test_rapid_refire_cycle",
            IsrStressTest::NestedSwiFromHandler => "src/suites/isr_stress.rs:test_nested_swi_from_handler",
            IsrStressTest::DelayedDeliveryBurst => "src/suites/isr_stress.rs:test_delayed_delivery_burst",
            IsrStressTest::HandlerSharedMemory => "src/suites/isr_stress.rs:test_handler_shared_memory",
            IsrStressTest::IntBurstWithBusyThread => "src/suites/isr_stress.rs:test_int_burst_with_busy_thread",
            IsrStressTest::RapidRefireWithSpinningThread => "src/suites/isr_stress.rs:test_rapid_refire_with_spinning_thread",
            IsrStressTest::InterruptDuringThreadStart => "src/suites/isr_stress.rs:test_interrupt_during_thread_start",
            IsrStressTest::IntWithThreadWaitResume => "src/suites/isr_stress.rs:test_int_with_thread_wait_resume",
        }
    }

    fn run<M: Hexagon>(&self, rt: &mut Runtime<M>) -> (r: Result<(), Fatal>) {
        match *self {
            IsrStressTest::MultiIntBurst => {
                test_multi_int_burst(rt);
                Ok(())
            },
            IsrStressTest::SimultaneousSwiBits => {
                test_simultaneous_swi_bits(rt);
                Ok(())
            },
            IsrStressTest::RapidRefireCycle => {
                test_rapid_refire_cycle(rt);
                Ok(())
            },
            IsrStressTest::NestedSwiFromHandler => {
                test_nested_swi_from_handler(rt);
                Ok(())
            },
            IsrStressTest::DelayedDeliveryBurst => {
                test_delayed_delivery_burst(rt);
                Ok(())
            },
            IsrStressTest::HandlerSharedMemory => {
                test_handler_shared_memory(rt);
                Ok(())
            },
            IsrStressTest::IntBurstWithBusyThread => {
                test_int_burst_with_busy_thread(rt);
                Ok(())
            },
            IsrStressTest::RapidRefireWithSpinningThread => {
                test_rapid_refire_with_spinning_thread(rt);
                Ok(())
            },
            IsrStressTest::InterruptDuringThreadStart => {
                test_interrupt_during_thread_start(rt);
                Ok(())
            },
            IsrStressTest::IntWithThreadWaitResume => {
                test_int_with_thread_wait_resume(rt);
                Ok(())
            },
        }
    }
}

/// The suite's tests, in the order they run.
pub open spec fn isr_stress_tests() -> Seq<(&'static str, IsrStressTest)> {
    seq![
        ("multi_int_burst", IsrStressTest::MultiIntBurst),
        ("simultaneous_swi_bits", IsrStressTest::SimultaneousSwiBits),
        ("rapid_refire_cycle", IsrStressTest::RapidRefireCycle),
        ("nested_swi_from_handler", IsrStressTest::NestedSwiFromHandler),
        ("delayed_delivery_burst", IsrStressTest::DelayedDeliveryBurst),
        ("handler_shared_memory", IsrStressTest::HandlerSharedMemory),
        ("int_burst_with_busy_thread", IsrStressTest::IntBurstWithBusyThread),
        ("rapid_refire_with_spinning_thread", IsrStressTest::RapidRefireWithSpinningThread),
        ("interrupt_during_thread_start", IsrStressTest::InterruptDuringThreadStart),
        ("int_with_thread_wait_resume", IsrStressTest::IntWithThreadWaitResume),
    ]
}

/// Run the interrupt stress suite (threads 0 and 1 required) and return its error count.
pub fn rust_main<M: Hexagon>(rt: &mut Runtime<M>) -> (code: i32)
    ensures
        exists|cb: u32, avail: u32|
            #![trigger old(rt)@.suite_begin("Interrupt Stress (ISR)").threads_required(0x3, cb, avail)]
            old(rt)@.suite_begin("Interrupt Stress (ISR)").threads_required(0x3, cb, avail).summarized(final(rt)@, code)
                && avail & 0x3 != 0x3
            || old(rt)@.suite_begin("Interrupt Stress (ISR)").threads_required(0x3, cb, avail).suite_ran(isr_stress_tests(), final(rt)@, code)
                && avail & 0x3 == 0x3,
{
    rt.test_suite_begin("Interrupt Stress (ISR)");
    let ghost s1 = rt@;
    let ok = rt.require_threads(0x3);
    let ghost w = choose|cb: u32, avail: u32|
        #[trigger] s1.threads_required(0x3, cb, avail) == rt@ && ok == (avail & 0x3 == 0x3);
    if !ok {
        let errs = rt.test_suite_end();
        assert(s1.threads_required(0x3, w.0, w.1).suite_end(errs) == rt@);
        return errs as i32;
    }
    let tests = [
        ("multi_int_burst", IsrStressTest::MultiIntBurst),
        ("simultaneous_swi_bits", IsrStressTest::SimultaneousSwiBits),
        ("rapid_refire_cycle", IsrStressTest::RapidRefireCycle),
        ("nested_swi_from_handler", IsrStressTest::NestedSwiFromHandler),
        ("delayed_delivery_burst", IsrStressTest::DelayedDeliveryBurst),
        ("handler_shared_memory", IsrStressTest::HandlerSharedMemory),
        ("int_burst_with_busy_thread", IsrStressTest::IntBurstWithBusyThread),
        ("rapid_refire_with_spinning_thread", IsrStressTest::RapidRefireWithSpinningThread),
        ("interrupt_during_thread_start", IsrStressTest::InterruptDuringThreadStart),
        ("int_with_thread_wait_resume", IsrStressTest::IntWithThreadWaitResume),
    ];
    assert(tests@ =~= isr_stress_tests());
    let code = rt.run_suite(&tests);
    assert(s1.threads_required(0x3, w.0, w.1).suite_ran(isr_stress_tests(), rt@, code));
    code
}

/// The tests of this suite: each records exactly one error
/// for every expectation that fails and none for those that hold.  The
/// expectations of each test are the conditions counted below, over what
/// the hardware answered.
#[verifier::rlimit(80)]
#[verifier::spinoff_prover]
pub proof fn law_isr_stress_tests_count_failed_expectations()
    ensures
        forall|s: RunState, s1: u32, cs: Seq<u32>, s2: u32|
            #[trigger] s.multi_int_burst_run(s1, cs, s2).recorded() == s.recorded()
                + zero_counts(cs),
        forall|s: RunState, s1: u32, c2: u32, c3: u32, c4: u32, s2: u32|
            #[trigger] s.simultaneous_swi_bits_run(s1, c2, c3, c4, s2).recorded() == s.recorded()
                + (if (c2) >= 1 { 0nat } else { 1nat })
                + (if (c3) >= 1 { 0nat } else { 1nat })
                + (if (c4) >= 1 { 0nat } else { 1nat }),
        forall|s: RunState, s1: u32, ssrs: Seq<u32>, c: u32, s2: u32|
            #[trigger] s.rapid_refire_cycle_run(s1, ssrs, c, s2).recorded() == s.recorded()
                + (if c >= 20 { 0nat } else { 1nat }),
        forall|s: RunState, s1: u32, c2: u32, c3: u32, s2: u32|
            #[trigger] s.nested_swi_from_handler_run(s1, c2, c3, s2).recorded() == s.recorded()
                + (if (c2) >= 1 { 0nat } else { 1nat })
                + (if (c3) >= 1 { 0nat } else { 1nat }),
        forall|s: RunState, s1: u32, ssr: u32, cs1: Seq<u32>, cs2: Seq<u32>, s2: u32|
            #[trigger] s.delayed_delivery_burst_run(s1, ssr, cs1, cs2, s2).recorded() == s.recorded()
                + nonzero_counts(cs1)
                + zero_counts(cs2),
        forall|s: RunState, s1: u32, ds: Seq<u32>, s2: u32|
            #[trigger] s.handler_shared_memory_run(s1, ds, s2).recorded() == s.recorded()
                + data_mismatches(2, ds),
        forall|s: RunState, s1: u32, o1: Seq<u32>, cs: Seq<u32>, o2: Seq<u32>, o3: Seq<u32>, d: u32, s2: u32|
            #[trigger] s.int_burst_with_busy_thread_run(s1, o1, cs, o2, o3, d, s2).recorded() == s.recorded()
                + (if poll_hit(equals((1)), (o1)) { 0nat } else { 1nat })
                + zero_counts(cs)
                + (if poll_hit(equals((1)), (o2)) { 0nat } else { 1nat })
                + (if d == 999 { 0nat } else { 1nat }),
        forall|s: RunState, s1: u32, o1: Seq<u32>, ssrs: Seq<u32>, c: u32, o2: Seq<u32>, s2: u32|
            #[trigger] s.rapid_refire_with_spinning_thread_run(s1, o1, ssrs, c, o2, s2).recorded() == s.recorded()
                + (if poll_hit(equals((1)), (o1)) { 0nat } else { 1nat })
                + (if c >= 10 { 0nat } else { 1nat }),
        forall|s: RunState, s1: u32, c: u32, o1: Seq<u32>, o2: Seq<u32>, s2: u32|
            #[trigger] s.interrupt_during_thread_start_run(s1, c, o1, o2, s2).recorded() == s.recorded()
                + (if (c) >= 1 { 0nat } else { 1nat })
                + (if poll_hit(equals((1)), (o1)) { 0nat } else { 1nat }),
        forall|s: RunState, s1: u32, o1: Seq<u32>, c2: u32, sa: u32, c3: u32, sb: u32, o2: Seq<u32>, o3: Seq<u32>|
            #[trigger] s.int_with_thread_wait_resume_run(s1, o1, c2, sa, c3, sb, o2, o3).recorded() == s.recorded()
                + (if poll_hit(equals((1)), (o1)) { 0nat } else { 1nat })
                + (if (c2) >= 1 { 0nat } else { 1nat })
                + (if (c3) >= 1 { 0nat } else { 1nat })
                + (if poll_hit(equals((1)), (o2)) { 0nat } else { 1nat }),
{
    broadcast use crate::report::group_recorded, group_isr_recorded;

    assert forall|s: RunState, s1: u32, cs: Seq<u32>, s2: u32|
        #[trigger] s.multi_int_burst_run(s1, cs, s2).recorded() == s.recorded()
            + zero_counts(cs) by {}
    assert forall|s: RunState, s1: u32, c2: u32, c3: u32, c4: u32, s2: u32|
        #[trigger] s.simultaneous_swi_bits_run(s1, c2, c3, c4, s2).recorded() == s.recorded()
            + (if (c2) >= 1 { 0nat } else { 1nat })
            + (if (c3) >= 1 { 0nat } else { 1nat })
            + (if (c4) >= 1 { 0nat } else { 1nat }) by {}
    assert forall|s: RunState, s1: u32, ssrs: Seq<u32>, c: u32, s2: u32|
        #[trigger] s.rapid_refire_cycle_run(s1, ssrs, c, s2).recorded() == s.recorded()
            + (if c >= 20 { 0nat } else { 1nat }) by {}
    assert forall|s: RunState, s1: u32, c2: u32, c3: u32, s2: u32|
        #[trigger] s.nested_swi_from_handler_run(s1, c2, c3, s2).recorded() == s.recorded()
            + (if (c2) >= 1 { 0nat } else { 1nat })
            + (if (c3) >= 1 { 0nat } else { 1nat }) by {}
    assert forall|s: RunState, s1: u32, ssr: u32, cs1: Seq<u32>, cs2: Seq<u32>, s2: u32|
        #[trigger] s.delayed_delivery_burst_run(s1, ssr, cs1, cs2, s2).recorded() == s.recorded()
            + nonzero_counts(cs1)
            + zero_counts(cs2) by {}
    assert forall|s: RunState, s1: u32, ds: Seq<u32>, s2: u32|
        #[trigger] s.handler_shared_memory_run(s1, ds, s2).recorded() == s.recorded()
            + data_mismatches(2, ds) by {}
    assert forall|s: RunState, s1: u32, o1: Seq<u32>, cs: Seq<u32>, o2: Seq<u32>, o3: Seq<u32>, d: u32, s2: u32|
        #[trigger] s.int_burst_with_busy_thread_run(s1, o1, cs, o2, o3, d, s2).recorded() == s.recorded()
            + (if poll_hit(equals((1)), (o1)) { 0nat } else { 1nat })
            + zero_counts(cs)
            + (if poll_hit(equals((1)), (o2)) { 0nat } else { 1nat })
            + (if d == 999 { 0nat } else { 1nat }) by {}
    assert forall|s: RunState, s1: u32, o1: Seq<u32>, ssrs: Seq<u32>, c: u32, o2: Seq<u32>, s2: u32|
        #[trigger] s.rapid_refire_with_spinning_thread_run(s1, o1, ssrs, c, o2, s2).recorded() == s.recorded()
            + (if poll_hit(equals((1)), (o1)) { 0nat } else { 1nat })
            + (if c >= 10 { 0nat } else { 1nat }) by {}
    assert forall|s: RunState, s1: u32, c: u32, o1: Seq<u32>, o2: Seq<u32>, s2: u32|
        #[trigger] s.interrupt_during_thread_start_run(s1, c, o1, o2, s2).recorded() == s.recorded()
            + (if (c) >= 1 { 0nat } else { 1nat })
            + (if poll_hit(equals((1)), (o1)) { 0nat } else { 1nat }) by {}
    assert forall|s: RunState, s1: u32, o1: Seq<u32>, c2: u32, sa: u32, c3: u32, sb: u32, o2: Seq<u32>, o3: Seq<u32>|
        #[trigger] s.int_with_thread_wait_resume_run(s1, o1, c2, sa, c3, sb, o2, o3).recorded() == s.recorded()
            + (if poll_hit(equals((1)), (o1)) { 0nat } else { 1nat })
            + (if (c2) >= 1 { 0nat } else { 1nat })
            + (if (c3) >= 1 { 0nat } else { 1nat })
            + (if poll_hit(equals((1)), (o2)) { 0nat } else { 1nat }) by {}
}

} // verus!
