//! Interrupt delivery and control tests: software interrupts, dispatch,
//! masking through IMASK and SSR.IE, clearing, auto-disable, and
//! interrupt-to-thread assignment.

use vstd::prelude::*;
use crate::machine::{Ev, Hexagon, IntCtl, IrqHandler, RunState, Runtime, Shared, SysReg};
use crate::regs::{iassign_word, iassign_word_spec, lemma_bit_values, SSR_IE, SYSCFG_INT_EN};
use crate::report::{Fatal, TestCase};

verus! {

impl RunState {
    /// An interrupt control instruction.
    pub open spec fn ictl(self, op: IntCtl, v: u32) -> RunState {
        self.ev(Ev::IntCtl(op, v))
    }

    /// Install the given handler for interrupt `n`.
    pub open spec fn handler(self, n: u32, h: IrqHandler) -> RunState {
        self.ev(Ev::RegisterInterrupt(n, h))
    }

    /// Clear every pending software interrupt with SSR.IE off.
    pub open spec fn all_swi_cleared(self, ssr: u32) -> RunState {
        self.rd(SysReg::Ssr, ssr).wr(SysReg::Ssr, ssr & !SSR_IE).ictl(IntCtl::Cswi, 0xFFFF_FFFF).wr(SysReg::Ssr, ssr)
    }

    /// Read an interrupt's handler count and check it fired.
    pub open spec fn fired(self, n: u32, what: &str, c: u32) -> RunState {
        self.ld(Shared::IntCount(n), c).check(c >= 1, what)
    }

    /// Read an interrupt's handler count and check it did not fire.
    pub open spec fn not_fired(self, n: u32, c: u32) -> RunState {
        self.ld(Shared::IntCount(n), c).check32(c, 0)
    }

    /// The generic handler: count the interrupt (for 0 to 15) and record
    /// its number.
    pub open spec fn generic_handler_run(self, intno: u32) -> RunState {
        let s = if intno < 16 {
            self.ev(Ev::SharedAdd(Shared::IntCount(intno), 1))
        } else {
            self
        };
        s.st(Shared::IntLastArg, intno)
    }

    pub open spec fn swi_delivery_run(self, s1: u32, c: u32, a: u32, s2: u32) -> RunState {
        self.all_swi_cleared(s1).st(Shared::IntCount(2), 0).st(Shared::IntLastArg, 0xFF).handler(
            2,
            IrqHandler::Generic,
        ).ictl(IntCtl::Swi, 4).delay(50).fired(2, "INT_COUNT[2].load(Ordering::SeqCst) >= 1", c).ld(Shared::IntLastArg, a).check32(a, 2).all_swi_cleared(
            s2,
        )
    }

    pub open spec fn multiple_swi_run(self, s1: u32, c3: u32, s2: u32, c5: u32, s3: u32) -> RunState {
        self.all_swi_cleared(s1).st(Shared::IntCount(3), 0).st(Shared::IntCount(5), 0).handler(3, IrqHandler::Generic).handler(
            5,
            IrqHandler::Generic,
        ).ictl(IntCtl::Swi, 8).delay(50).fired(3, "INT_COUNT[3].load(Ordering::SeqCst) >= 1", c3).all_swi_cleared(s2).ictl(IntCtl::Swi, 32).delay(
            50,
        ).fired(5, "INT_COUNT[5].load(Ordering::SeqCst) >= 1", c5).all_swi_cleared(s3)
    }

    pub open spec fn imask_masking_run(self, imask: u32, ssr: u32, c: u32) -> RunState {
        self.st(Shared::IntCount(4), 0).handler(4, IrqHandler::Generic).rd(SysReg::Imask, imask).wr(
            SysReg::Imask,
            imask | 16,
        ).rd(SysReg::Ssr, ssr).wr(SysReg::Ssr, ssr & !SSR_IE).ictl(IntCtl::Swi, 16).delay(50).not_fired(4, c).ictl(
            IntCtl::Cswi,
            16,
        ).wr(SysReg::Imask, imask).wr(SysReg::Ssr, ssr)
    }

    pub open spec fn cswi_clear_run(self, ssr: u32, c: u32) -> RunState {
        self.st(Shared::IntCount(6), 0).handler(6, IrqHandler::Generic).rd(SysReg::Ssr, ssr).wr(SysReg::Ssr, ssr & !SSR_IE).ictl(
            IntCtl::Swi,
            64,
        ).delay(10).ictl(IntCtl::Cswi, 64).wr(SysReg::Ssr, ssr | SSR_IE).delay(50).not_fired(6, c)
    }

    pub open spec fn handler_argument_run(self, s1: u32, c: u32, a: u32, s2: u32) -> RunState {
        self.all_swi_cleared(s1).st(Shared::IntCount(7), 0).st(Shared::IntLastArg, 0xFF).handler(
            7,
            IrqHandler::Generic,
        ).ictl(IntCtl::Swi, 128).delay(50).fired(7, "INT_COUNT[7].load(Ordering::SeqCst) >= 1", c).ld(Shared::IntLastArg, a).check32(a, 7).all_swi_cleared(
            s2,
        )
    }

    pub open spec fn ipend_inspection_run(self, ssr: u32, syscfg: u32, c: u32) -> RunState {
        self.handler(2, IrqHandler::Generic).st(Shared::IntCount(2), 0).rd(SysReg::Ssr, ssr).wr(SysReg::Ssr, ssr & !SSR_IE).rd(
            SysReg::Syscfg,
            syscfg,
        ).wr(SysReg::Syscfg, syscfg & !SYSCFG_INT_EN).ictl(IntCtl::Swi, 4).delay(20).not_fired(2, c).ictl(
            IntCtl::Cswi,
            4,
        ).wr(SysReg::Syscfg, syscfg).wr(SysReg::Ssr, ssr)
    }

    pub open spec fn sequential_swi_run(self, s1: u32, c8: u32, s2: u32, c9: u32, s3: u32) -> RunState {
        self.all_swi_cleared(s1).st(Shared::IntCount(8), 0).st(Shared::IntCount(9), 0).handler(8, IrqHandler::Generic).handler(
            9,
            IrqHandler::Generic,
        ).ictl(IntCtl::Swi, 256).delay(50).fired(8, "INT_COUNT[8].load(Ordering::SeqCst) >= 1", c8).all_swi_cleared(s2).ictl(IntCtl::Swi, 512).delay(
            50,
        ).fired(9, "INT_COUNT[9].load(Ordering::SeqCst) >= 1", c9).all_swi_cleared(s3)
    }

    pub open spec fn swi_delayed_delivery_run(self, s1: u32, ssr: u32, c1: u32, c2: u32, s2: u32) -> RunState {
        self.all_swi_cleared(s1).st(Shared::IntCount(6), 0).handler(6, IrqHandler::Generic).rd(SysReg::Ssr, ssr).wr(
            SysReg::Ssr,
            ssr & !SSR_IE,
        ).ictl(IntCtl::Swi, 64).delay(20).not_fired(6, c1).wr(SysReg::Ssr, ssr | SSR_IE).delay(50).fired(
            6,
            "INT_COUNT[6].load(Ordering::SeqCst) >= 1",
            c2,
        ).all_swi_cleared(s2)
    }

    pub open spec fn iad_cleared_run(self, c1: u32, ssr: u32, c2: u32, ssr2: u32) -> RunState {
        self.ictl(IntCtl::Cswi, 0xFFFF_FFFF).st(Shared::IntCount(10), 0).handler(10, IrqHandler::Generic).ictl(IntCtl::Swi, 1024).delay(
            50,
        ).fired(10, "INT_COUNT[10].load(Ordering::SeqCst) >= 1", c1).rd(SysReg::Ssr, ssr).wr(SysReg::Ssr, ssr & !SSR_IE).ictl(IntCtl::Cswi, 1024).ictl(
            IntCtl::Ciad,
            1024,
        ).st(Shared::IntCount(10), 0).wr(SysReg::Ssr, ssr | SSR_IE).ictl(IntCtl::Swi, 1024).delay(50).fired(
            10,
            "INT_COUNT[10].load(Ordering::SeqCst) >= 1",
            c2,
        ).rd(SysReg::Ssr, ssr2).wr(SysReg::Ssr, ssr2 & !SSR_IE).ictl(IntCtl::Cswi, 1024).wr(SysReg::Ssr, ssr2 | SSR_IE)
    }

    pub open spec fn iassign_readwrite_run(self, saved: u32, rb: u32, rb2: u32) -> RunState {
        let q = iassign_word_spec(11, 0);
        self.ev(Ev::Iassignr(q, saved)).ictl(IntCtl::Iassignw, iassign_word_spec(11, 1)).ev(Ev::Iassignr(q, rb)).check32(
            rb & 1,
            1,
        ).ictl(IntCtl::Iassignw, iassign_word_spec(11, 3)).ev(Ev::Iassignr(q, rb2)).check32(rb2 & 3, 3).ictl(
            IntCtl::Iassignw,
            iassign_word_spec(11, saved),
        )
    }

    pub open spec fn ciad_explicit_run(self, s1: u32, c1: u32, ssr: u32, c2: u32, s2: u32) -> RunState {
        self.all_swi_cleared(s1).st(Shared::IntCount(12), 0).handler(12, IrqHandler::Generic).ictl(IntCtl::Swi, 4096).delay(
            50,
        ).fired(12, "INT_COUNT[12].load(Ordering::SeqCst) >= 1", c1).rd(SysReg::Ssr, ssr).wr(SysReg::Ssr, ssr & !SSR_IE).ictl(IntCtl::Cswi, 4096).st(
            Shared::IntCount(12),
            0,
        ).ictl(IntCtl::Ciad, 4096).wr(SysReg::Ssr, ssr | SSR_IE).ictl(IntCtl::Swi, 4096).delay(50).fired(
            12,
            "INT_COUNT[12].load(Ordering::SeqCst) >= 1",
            c2,
        ).all_swi_cleared(s2)
    }
}

/// The handler installed by this suite: count interrupts 0 to 15 and
/// record the interrupt number passed in.
pub fn generic_handler<M: Hexagon>(rt: &mut Runtime<M>, intno: u32)
    ensures
        final(rt)@ == old(rt)@.generic_handler_run(intno),
{
    if intno < 16 {
        rt.shared_add(Shared::IntCount(intno), 1);
    }
    rt.shared_store(Shared::IntLastArg, intno);
}

/// Clear all pending software interrupts safely: disable IE, clear every
/// SWI bit, restore SSR.
pub fn clear_all_swi<M: Hexagon>(rt: &mut Runtime<M>)
    ensures
        exists|ssr: u32| #[trigger] old(rt)@.all_swi_cleared(ssr) == final(rt)@,
{
    let ssr = rt.read_ssr();
    rt.write_ssr(ssr & !SSR_IE);
    rt.clear_swi(0xFFFF_FFFF);
    rt.write_ssr(ssr);
    assert(old(rt)@.all_swi_cleared(ssr) == rt@);
}

/// Read interrupt `n`'s handler count and check it fired at least once.
fn check_fired<M: Hexagon>(rt: &mut Runtime<M>, n: u32, what: &str)
    ensures
        exists|c: u32| #[trigger] old(rt)@.fired(n, what, c) == final(rt)@,
{
    let c = rt.shared_load(Shared::IntCount(n));
    rt.check(c >= 1, what);
    assert(old(rt)@.fired(n, what, c) == rt@);
}

/// Read interrupt `n`'s handler count and check it did not fire.
fn check_not_fired<M: Hexagon>(rt: &mut Runtime<M>, n: u32)
    ensures
        exists|c: u32| #[trigger] old(rt)@.not_fired(n, c) == final(rt)@,
{
    let c = rt.shared_load(Shared::IntCount(n));
    rt.check32(c, 0);
    assert(old(rt)@.not_fired(n, c) == rt@);
}

/// A software interrupt for INT2 reaches its handler with argument 2.
pub fn test_swi_delivery<M: Hexagon>(rt: &mut Runtime<M>)
    ensures
        exists|v0: u32, v1: u32, v2: u32, v3: u32| #[trigger] old(rt)@.swi_delivery_run(v0, v1, v2, v3) == final(rt)@,
{
    proof {
        lemma_bit_values();
    }
    let ghost s0 = rt@;
    clear_all_swi(rt);
    let ghost a0 = choose|x: u32| #[trigger] s0.all_swi_cleared(x) == rt@;
    rt.shared_store(Shared::IntCount(2), 0);
    rt.shared_store(Shared::IntLastArg, 0xFF);
    rt.register_interrupt(2, IrqHandler::Generic);
    rt.trigger_swi(1 << 2);
    rt.busy_loop(50);
    let ghost s1 = rt@;
    check_fired(rt, 2, "INT_COUNT[2].load(Ordering::SeqCst) >= 1");
    let ghost a1 = choose|x: u32| #[trigger] s1.fired(2, "INT_COUNT[2].load(Ordering::SeqCst) >= 1", x) == rt@;
    let arg = rt.shared_load(Shared::IntLastArg);
    rt.check32(arg, 2);
    let ghost s2 = rt@;
    clear_all_swi(rt);
    let ghost a2 = choose|x: u32| #[trigger] s2.all_swi_cleared(x) == rt@;
    assert(old(rt)@.swi_delivery_run(a0, a1, arg, a2) == rt@);
}

/// Software interrupts for INT3 and INT5 each reach their handler.
pub fn test_multiple_swi<M: Hexagon>(rt: &mut Runtime<M>)
    ensures
        exists|v0: u32, v1: u32, v2: u32, v3: u32, v4: u32| #[trigger] old(rt)@.multiple_swi_run(v0, v1, v2, v3, v4) == final(rt)@,
{
    proof {
        lemma_bit_values();
    }
    let ghost s0 = rt@;
    clear_all_swi(rt);
    let ghost a0 = choose|x: u32| #[trigger] s0.all_swi_cleared(x) == rt@;
    rt.shared_store(Shared::IntCount(3), 0);
    rt.shared_store(Shared::IntCount(5), 0);
    rt.register_interrupt(3, IrqHandler::Generic);
    rt.register_interrupt(5, IrqHandler::Generic);
    rt.trigger_swi(1 << 3);
    rt.busy_loop(50);
    let ghost s1 = rt@;
    check_fired(rt, 3, "INT_COUNT[3].load(Ordering::SeqCst) >= 1");
    let ghost a1 = choose|x: u32| #[trigger] s1.fired(3, "INT_COUNT[3].load(Ordering::SeqCst) >= 1", x) == rt@;
    let ghost s2 = rt@;
    clear_all_swi(rt);
    let ghost a2 = choose|x: u32| #[trigger] s2.all_swi_cleared(x) == rt@;
    rt.trigger_swi(1 << 5);
    rt.busy_loop(50);
    let ghost s3 = rt@;
    check_fired(rt, 5, "INT_COUNT[5].load(Ordering::SeqCst) >= 1");
    let ghost a3 = choose|x: u32| #[trigger] s3.fired(5, "INT_COUNT[5].load(Ordering::SeqCst) >= 1", x) == rt@;
    let ghost s4 = rt@;
    clear_all_swi(rt);
    let ghost a4 = choose|x: u32| #[trigger] s4.all_swi_cleared(x) == rt@;
    assert(old(rt)@.multiple_swi_run(a0, a1, a2, a3, a4) == rt@);
}

/// With INT4 masked in IMASK and SSR.IE off, its software interrupt is
/// not delivered.
pub fn test_imask_masking<M: Hexagon>(rt: &mut Runtime<M>)
    ensures
        exists|v0: u32, v1: u32, v2: u32| #[trigger] old(rt)@.imask_masking_run(v0, v1, v2) == final(rt)@,
{
    proof {
        lemma_bit_values();
    }
    rt.shared_store(Shared::IntCount(4), 0);
    rt.register_interrupt(4, IrqHandler::Generic);
    let saved_imask = rt.read_imask();
    rt.write_imask(saved_imask | (1 << 4));
    let ssr = rt.read_ssr();
    rt.write_ssr(ssr & !SSR_IE);
    rt.trigger_swi(1 << 4);
    rt.busy_loop(50);
    let ghost s1 = rt@;
    check_not_fired(rt, 4);
    let ghost a1 = choose|x: u32| #[trigger] s1.not_fired(4, x) == rt@;
    rt.clear_swi(1 << 4);
    rt.write_imask(saved_imask);
    rt.write_ssr(ssr);
    assert(old(rt)@.imask_masking_run(saved_imask, ssr, a1) == rt@);
}

/// A software interrupt cleared with `cswi` while SSR.IE is off is not
/// delivered once IE is back on.
pub fn test_cswi_clear<M: Hexagon>(rt: &mut Runtime<M>)
    ensures
        exists|v0: u32, v1: u32| #[trigger] old(rt)@.cswi_clear_run(v0, v1) == final(rt)@,
{
    proof {
        lemma_bit_values();
    }
    rt.shared_store(Shared::IntCount(6), 0);
    rt.register_interrupt(6, IrqHandler::Generic);
    let ssr = rt.read_ssr();
    rt.write_ssr(ssr & !SSR_IE);
    rt.trigger_swi(1 << 6);
    rt.busy_loop(10);
    rt.clear_swi(1 << 6);
    rt.write_ssr(ssr | SSR_IE);
    rt.busy_loop(50);
    let ghost s1 = rt@;
    check_not_fired(rt, 6);
    let ghost a1 = choose|x: u32| #[trigger] s1.not_fired(6, x) == rt@;
    assert(old(rt)@.cswi_clear_run(ssr, a1) == rt@);
}

/// The handler receives the interrupt number (7) as its argument.
pub fn test_handler_argument<M: Hexagon>(rt: &mut Runtime<M>)
    ensures
        exists|v0: u32, v1: u32, v2: u32, v3: u32| #[trigger] old(rt)@.handler_argument_run(v0, v1, v2, v3) == final(rt)@,
{
    proof {
        lemma_bit_values();
    }
    let ghost s0 = rt@;
    clear_all_swi(rt);
    let ghost a0 = choose|x: u32| #[trigger] s0.all_swi_cleared(x) == rt@;
    rt.shared_store(Shared::IntCount(7), 0);
    rt.shared_store(Shared::IntLastArg, 0xFF);
    rt.register_interrupt(7, IrqHandler::Generic);
    rt.trigger_swi(1 << 7);
    rt.busy_loop(50);
    let ghost s1 = rt@;
    check_fired(rt, 7, "INT_COUNT[7].load(Ordering::SeqCst) >= 1");
    let ghost a1 = choose|x: u32| #[trigger] s1.fired(7, "INT_COUNT[7].load(Ordering::SeqCst) >= 1", x) == rt@;
    let arg = rt.shared_load(Shared::IntLastArg);
    rt.check32(arg, 7);
    let ghost s2 = rt@;
    clear_all_swi(rt);
    let ghost a2 = choose|x: u32| #[trigger] s2.all_swi_cleared(x) == rt@;
    assert(old(rt)@.handler_argument_run(a0, a1, arg, a2) == rt@);
}

/// With SSR.IE and SYSCFG.INT_EN off, a software interrupt stays pending
/// and its handler does not run.
pub fn test_ipend_inspection<M: Hexagon>(rt: &mut Runtime<M>)
    ensures
        exists|v0: u32, v1: u32, v2: u32| #[trigger] old(rt)@.ipend_inspection_run(v0, v1, v2) == final(rt)@,
{
    proof {
        lemma_bit_values();
    }
    rt.register_interrupt(2, IrqHandler::Generic);
    rt.shared_store(Shared::IntCount(2), 0);
    let ssr = rt.read_ssr();
    rt.write_ssr(ssr & !SSR_IE);
    let syscfg = rt.read_syscfg();
    rt.write_syscfg(syscfg & !SYSCFG_INT_EN);
    rt.trigger_swi(1 << 2);
    rt.busy_loop(20);
    let ghost s1 = rt@;
    check_not_fired(rt, 2);
    let ghost a1 = choose|x: u32| #[trigger] s1.not_fired(2, x) == rt@;
    rt.clear_swi(1 << 2);
    rt.write_syscfg(syscfg);
    rt.write_ssr(ssr);
    assert(old(rt)@.ipend_inspection_run(ssr, syscfg, a1) == rt@);
}

/// Software interrupts for INT8 then INT9 each reach their handler.
pub fn test_sequential_swi<M: Hexagon>(rt: &mut Runtime<M>)
    ensures
        exists|v0: u32, v1: u32, v2: u32, v3: u32, v4: u32| #[trigger] old(rt)@.sequential_swi_run(v0, v1, v2, v3, v4) == final(rt)@,
{
    proof {
        lemma_bit_values();
    }
    let ghost s0 = rt@;
    clear_all_swi(rt);
    let ghost a0 = choose|x: u32| #[trigger] s0.all_swi_cleared(x) == rt@;
    rt.shared_store(Shared::IntCount(8), 0);
    rt.shared_store(Shared::IntCount(9), 0);
    rt.register_interrupt(8, IrqHandler::Generic);
    rt.register_interrupt(9, IrqHandler::Generic);
    rt.trigger_swi(1 << 8);
    rt.busy_loop(50);
    let ghost s1 = rt@;
    check_fired(rt, 8, "INT_COUNT[8].load(Ordering::SeqCst) >= 1");
    let ghost a1 = choose|x: u32| #[trigger] s1.fired(8, "INT_COUNT[8].load(Ordering::SeqCst) >= 1", x) == rt@;
    let ghost s2 = rt@;
    clear_all_swi(rt);
    let ghost a2 = choose|x: u32| #[trigger] s2.all_swi_cleared(x) == rt@;
    rt.trigger_swi(1 << 9);
    rt.busy_loop(50);
    let ghost s3 = rt@;
    check_fired(rt, 9, "INT_COUNT[9].load(Ordering::SeqCst) >= 1");
    let ghost a3 = choose|x: u32| #[trigger] s3.fired(9, "INT_COUNT[9].load(Ordering::SeqCst) >= 1", x) == rt@;
    let ghost s4 = rt@;
    clear_all_swi(rt);
    let ghost a4 = choose|x: u32| #[trigger] s4.all_swi_cleared(x) == rt@;
    assert(old(rt)@.sequential_swi_run(a0, a1, a2, a3, a4) == rt@);
}

/// A software interrupt raised with SSR.IE off is delivered once IE is
/// turned back on.
pub fn test_swi_delayed_delivery<M: Hexagon>(rt: &mut Runtime<M>)
    ensures
        exists|v0: u32, v1: u32, v2: u32, v3: u32, v4: u32| #[trigger] old(rt)@.swi_delayed_delivery_run(v0, v1, v2, v3, v4) == final(rt)@,
{
    proof {
        lemma_bit_values();
    }
    let ghost s0 = rt@;
    clear_all_swi(rt);
    let ghost a0 = choose|x: u32| #[trigger] s0.all_swi_cleared(x) == rt@;
    rt.shared_store(Shared::IntCount(6), 0);
    rt.register_interrupt(6, IrqHandler::Generic);
    let ssr = rt.read_ssr();
    rt.write_ssr(ssr & !SSR_IE);
    rt.trigger_swi(1 << 6);
    rt.busy_loop(20);
    let ghost s1 = rt@;
    check_not_fired(rt, 6);
    let ghost a1 = choose|x: u32| #[trigger] s1.not_fired(6, x) == rt@;
    rt.write_ssr(ssr | SSR_IE);
    rt.busy_loop(50);
    let ghost s2 = rt@;
    check_fired(rt, 6, "INT_COUNT[6].load(Ordering::SeqCst) >= 1");
    let ghost a2 = choose|x: u32| #[trigger] s2.fired(6, "INT_COUNT[6].load(Ordering::SeqCst) >= 1", x) == rt@;
    let ghost s3 = rt@;
    clear_all_swi(rt);
    let ghost a3 = choose|x: u32| #[trigger] s3.all_swi_cleared(x) == rt@;
    assert(old(rt)@.swi_delayed_delivery_run(a0, ssr, a1, a2, a3) == rt@);
}

/// After a delivered interrupt (whose dispatch clears its auto-disable
/// bit) and an explicit clean-up, the interrupt is delivered again.
pub fn test_iad_cleared_after_handler<M: Hexagon>(rt: &mut Runtime<M>)
    ensures
        exists|v0: u32, v1: u32, v2: u32, v3: u32| #[trigger] old(rt)@.iad_cleared_run(v0, v1, v2, v3) == final(rt)@,
{
    proof {
        lemma_bit_values();
    }
    rt.clear_swi(0xFFFF_FFFF);
    rt.shared_store(Shared::IntCount(10), 0);
    rt.register_interrupt(10, IrqHandler::Generic);
    rt.trigger_swi(1 << 10);
    rt.busy_loop(50);
    let ghost s1 = rt@;
    check_fired(rt, 10, "INT_COUNT[10].load(Ordering::SeqCst) >= 1");
    let ghost a1 = choose|x: u32| #[trigger] s1.fired(10, "INT_COUNT[10].load(Ordering::SeqCst) >= 1", x) == rt@;
    let ssr = rt.read_ssr();
    rt.write_ssr(ssr & !SSR_IE);
    rt.clear_swi(1 << 10);
    rt.ciad(1 << 10);
    rt.shared_store(Shared::IntCount(10), 0);
    rt.write_ssr(ssr | SSR_IE);
    rt.trigger_swi(1 << 10);
    rt.busy_loop(50);
    let ghost s2 = rt@;
    check_fired(rt, 10, "INT_COUNT[10].load(Ordering::SeqCst) >= 1");
    let ghost a2 = choose|x: u32| #[trigger] s2.fired(10, "INT_COUNT[10].load(Ordering::SeqCst) >= 1", x) == rt@;
    let ssr2 = rt.read_ssr();
    rt.write_ssr(ssr2 & !SSR_IE);
    rt.clear_swi(1 << 10);
    rt.write_ssr(ssr2 | SSR_IE);
    assert(old(rt)@.iad_cleared_run(a1, ssr, a2, ssr2) == rt@);
}

/// `iassignw` assignments of INT11 read back through `iassignr`.
pub fn test_iassign_readwrite<M: Hexagon>(rt: &mut Runtime<M>)
    ensures
        exists|v0: u32, v1: u32, v2: u32| #[trigger] old(rt)@.iassign_readwrite_run(v0, v1, v2) == final(rt)@,
{
    proof {
        lemma_bit_values();
    }
    let intno: u32 = 11;
    let query = iassign_word(intno, 0);
    let saved = rt.iassignr(query);
    rt.iassignw(iassign_word(intno, 0x1));
    let rb = rt.iassignr(query);
    rt.check32(rb & 0x1, 1);
    rt.iassignw(iassign_word(intno, 0x3));
    let rb2 = rt.iassignr(query);
    rt.check32(rb2 & 0x3, 0x3);
    rt.iassignw(iassign_word(intno, saved));
    assert(old(rt)@.iassign_readwrite_run(saved, rb, rb2) == rt@);
}

/// After an explicit `ciad`, INT12 can fire again.
pub fn test_ciad_explicit<M: Hexagon>(rt: &mut Runtime<M>)
    ensures
        exists|v0: u32, v1: u32, v2: u32, v3: u32, v4: u32| #[trigger] old(rt)@.ciad_explicit_run(v0, v1, v2, v3, v4) == final(rt)@,
{
    proof {
        lemma_bit_values();
    }
    let ghost s0 = rt@;
    clear_all_swi(rt);
    let ghost a0 = choose|x: u32| #[trigger] s0.all_swi_cleared(x) == rt@;
    rt.shared_store(Shared::IntCount(12), 0);
    rt.register_interrupt(12, IrqHandler::Generic);
    rt.trigger_swi(1 << 12);
    rt.busy_loop(50);
    let ghost s1 = rt@;
    check_fired(rt, 12, "INT_COUNT[12].load(Ordering::SeqCst) >= 1");
    let ghost a1 = choose|x: u32| #[trigger] s1.fired(12, "INT_COUNT[12].load(Ordering::SeqCst) >= 1", x) == rt@;
    let ssr = rt.read_ssr();
    rt.write_ssr(ssr & !SSR_IE);
    rt.clear_swi(1 << 12);
    rt.shared_store(Shared::IntCount(12), 0);
    rt.ciad(1 << 12);
    rt.write_ssr(ssr | SSR_IE);
    rt.trigger_swi(1 << 12);
    rt.busy_loop(50);
    let ghost s2 = rt@;
    check_fired(rt, 12, "INT_COUNT[12].load(Ordering::SeqCst) >= 1");
    let ghost a2 = choose|x: u32| #[trigger] s2.fired(12, "INT_COUNT[12].load(Ordering::SeqCst) >= 1", x) == rt@;
    let ghost s3 = rt@;
    clear_all_swi(rt);
    let ghost a3 = choose|x: u32| #[trigger] s3.all_swi_cleared(x) == rt@;
    assert(old(rt)@.ciad_explicit_run(a0, a1, ssr, a2, a3) == rt@);
}

/// The tests of this suite.
#[derive(Clone, Copy)]
pub enum InterruptsTest {
    SwiDelivery,
    MultipleSwi,
    ImaskMasking,
    CswiClear,
    HandlerArgument,
    IpendInspection,
    SequentialSwi,
    SwiDelayedDelivery,
    IadClearedAfterHandler,
    IassignReadwrite,
    CiadExplicit,
}

impl TestCase for InterruptsTest {
    open spec fn runs(&self, pre: RunState, post: RunState) -> bool {
        match *self {
            InterruptsTest::SwiDelivery => exists|v0: u32, v1: u32, v2: u32, v3: u32| #[trigger] pre.swi_delivery_run(v0, v1, v2, v3) == post,
            InterruptsTest::MultipleSwi => exists|v0: u32, v1: u32, v2: u32, v3: u32, v4: u32| #[trigger] pre.multiple_swi_run(v0, v1, v2, v3, v4) == post,
            InterruptsTest::ImaskMasking => exists|v0: u32, v1: u32, v2: u32| #[trigger] pre.imask_masking_run(v0, v1, v2) == post,
            InterruptsTest::CswiClear => exists|v0: u32, v1: u32| #[trigger] pre.cswi_clear_run(v0, v1) == post,
            InterruptsTest::HandlerArgument => exists|v0: u32, v1: u32, v2: u32, v3: u32| #[trigger] pre.handler_argument_run(v0, v1, v2, v3) == post,
            InterruptsTest::IpendInspection => exists|v0: u32, v1: u32, v2: u32| #[trigger] pre.ipend_inspection_run(v0, v1, v2) == post,
            InterruptsTest::SequentialSwi => exists|v0: u32, v1: u32, v2: u32, v3: u32, v4: u32| #[trigger] pre.sequential_swi_run(v0, v1, v2, v3, v4) == post,
            InterruptsTest::SwiDelayedDelivery => exists|v0: u32, v1: u32, v2: u32, v3: u32, v4: u32| #[trigger] pre.swi_delayed_delivery_run(v0, v1, v2, v3, v4) == post,
            InterruptsTest::IadClearedAfterHandler => exists|v0: u32, v1: u32, v2: u32, v3: u32| #[trigger] pre.iad_cleared_run(v0, v1, v2, v3) == post,
            InterruptsTest::IassignReadwrite => exists|v0: u32, v1: u32, v2: u32| #[trigger] pre.iassign_readwrite_run(v0, v1, v2) == post,
            InterruptsTest::CiadExplicit => exists|v0: u32, v1: u32, v2: u32, v3: u32, v4: u32| #[trigger] pre.ciad_explicit_run(v0, v1, v2, v3, v4) == post,
        }
    }

    open spec fn aborts(&self, pre: RunState, post: RunState, f: Fatal) -> bool {
        false
    }

    open spec fn at(&self) -> &'static str {
        match *self {
            InterruptsTest::SwiDelivery => "src/suites/interrupts.rs:test_swi_delivery",
            InterruptsTest::MultipleSwi => "src/suites/interrupts.rs:test_multiple_swi",
            InterruptsTest::ImaskMasking => "src/suites/interrupts.rs:test_imask_masking",
            InterruptsTest::CswiClear => "src/suites/interrupts.rs:test_cswi_clear",
            InterruptsTest::HandlerArgument => "src/suites/interrupts.rs:test_handler_argument",
            InterruptsTest::IpendInspection => "src/suites/interrupts.rs:test_ipend_inspection",
            InterruptsTest::SequentialSwi => "src/suites/interrupts.rs:test_sequential_swi",
            InterruptsTest::SwiDelayedDelivery => "src/suites/interrupts.rs:test_swi_delayed_delivery",
            InterruptsTest::IadClearedAfterHandler => "src/suites/interrupts.rs:test_iad_cleared_after_handler",
            InterruptsTest::IassignReadwrite => "src/suites/interrupts.rs:test_iassign_readwrite",
            InterruptsTest::CiadExplicit => "src/suites/interrupts.rs:test_ciad_explicit",
        }
    }

    fn location(&self) -> (at: &'static str) {
        match *self {
            InterruptsTest::SwiDelivery => "src/suites/interrupts.rs:test_swi_delivery",
            InterruptsTest::MultipleSwi => "src/suites/interrupts.rs:test_multiple_swi",
            InterruptsTest::ImaskMasking => "src/suites/interrupts.rs:test_imask_masking",
            InterruptsTest::CswiClear => "src/suites/interrupts.rs:test_cswi_clear",
            InterruptsTest::HandlerArgument => "src/suites/interrupts.rs:test_handler_argument",
            InterruptsTest::IpendInspection => "src/suites/interrupts.rs:test_ipend_inspection",
            InterruptsTest::SequentialSwi => "src/suites/interrupts.rs:test_sequential_swi",
            InterruptsTest::SwiDelayedDelivery => "src/suites/interrupts.rs:test_swi_delayed_delivery",
            InterruptsTest::IadClearedAfterHandler => "src/suites/interrupts.rs:test_iad_cleared_after_handler",
            InterruptsTest::IassignReadwrite => "src/suites/interrupts.rs:test_iassign_readwrite",
            InterruptsTest::CiadExplicit => "src/suites/interrupts.rs:test_ciad_explicit",
        }
    }

    fn run<M: Hexagon>(&self, rt: &mut Runtime<M>) -> (r: Result<(), Fatal>) {
        match *self {
            InterruptsTest::SwiDelivery => {
                test_swi_delivery(rt);
                Ok(())
            },
            InterruptsTest::MultipleSwi => {
                test_multiple_swi(rt);
                Ok(())
            },
            InterruptsTest::ImaskMasking => {
                test_imask_masking(rt);
                Ok(())
            },
            InterruptsTest::CswiClear => {
                test_cswi_clear(rt);
                Ok(())
            },
            InterruptsTest::HandlerArgument => {
                test_handler_argument(rt);
                Ok(())
            },
            InterruptsTest::IpendInspection => {
                test_ipend_inspection(rt);
                Ok(())
            },
            InterruptsTest::SequentialSwi => {
                test_sequential_swi(rt);
                Ok(())
            },
            InterruptsTest::SwiDelayedDelivery => {
                test_swi_delayed_delivery(rt);
                Ok(())
            },
            InterruptsTest::IadClearedAfterHandler => {
                test_iad_cleared_after_handler(rt);
                Ok(())
            },
            InterruptsTest::IassignReadwrite => {
                test_iassign_readwrite(rt);
                Ok(())
            },
            InterruptsTest::CiadExplicit => {
                test_ciad_explicit(rt);
                Ok(())
            },
        }
    }
}

/// The suite's tests, in the order they run.
pub open spec fn interrupts_tests() -> Seq<(&'static str, InterruptsTest)> {
    seq![
        ("swi_delivery", InterruptsTest::SwiDelivery),
        ("multiple_swi", InterruptsTest::MultipleSwi),
        ("imask_masking", InterruptsTest::ImaskMasking),
        ("cswi_clear", InterruptsTest::CswiClear),
        ("handler_argument", InterruptsTest::HandlerArgument),
        ("ipend_inspection", InterruptsTest::IpendInspection),
        ("sequential_swi", InterruptsTest::SequentialSwi),
        ("swi_delayed_delivery", InterruptsTest::SwiDelayedDelivery),
        ("iad_cleared_after_handler", InterruptsTest::IadClearedAfterHandler),
        ("iassign_readwrite", InterruptsTest::IassignReadwrite),
        ("ciad_explicit", InterruptsTest::CiadExplicit),
    ]
}

/// Run the interrupt suite and return its error count.
pub fn rust_main<M: Hexagon>(rt: &mut Runtime<M>) -> (code: i32)
    ensures
        old(rt)@.suite_begin("Interrupts").suite_ran(interrupts_tests(), final(rt)@, code),
{
    rt.test_suite_begin("Interrupts");
    let tests = [
        ("swi_delivery", InterruptsTest::SwiDelivery),
        ("multiple_swi", InterruptsTest::MultipleSwi),
        ("imask_masking", InterruptsTest::ImaskMasking),
        ("cswi_clear", InterruptsTest::CswiClear),
        ("handler_argument", InterruptsTest::HandlerArgument),
        ("ipend_inspection", InterruptsTest::IpendInspection),
        ("sequential_swi", InterruptsTest::SequentialSwi),
        ("swi_delayed_delivery", InterruptsTest::SwiDelayedDelivery),
        ("iad_cleared_after_handler", InterruptsTest::IadClearedAfterHandler),
        ("iassign_readwrite", InterruptsTest::IassignReadwrite),
        ("ciad_explicit", InterruptsTest::CiadExplicit),
    ];
    assert(tests@ =~= interrupts_tests());
    rt.run_suite(&tests)
}

/// The handler-argument test expects the number of the interrupt it raises,
/// which is what the generic handler stores: the handler for interrupt 7
/// ends by storing 7 as the last argument, and the test records an error
/// for the argument exactly when the value it loads is not 7 (and one more
/// if the handler's count shows it never ran).
pub proof fn law_handler_argument_expects_number(s: RunState, s1: u32, c: u32, a: u32, s2: u32, h: RunState)
    ensures
        h.generic_handler_run(7).events.last() == Ev::SharedStore(Shared::IntLastArg, 7),
        s.handler_argument_run(s1, c, a, s2).recorded() == s.recorded() + (if c >= 1 { 0nat } else { 1nat }) + (
        if a == 7 { 0nat } else { 1nat }),
{
    broadcast use crate::report::group_recorded;

}

/// The tests of this suite: each records exactly one error
/// for every expectation that fails and none for those that hold.  The
/// expectations of each test are the conditions counted below, over what
/// the hardware answered.
#[verifier::rlimit(80)]
#[verifier::spinoff_prover]
pub proof fn law_interrupts_tests_count_failed_expectations()
    ensures
        forall|s: RunState, s1: u32, c: u32, a: u32, s2: u32|
            #[trigger] s.swi_delivery_run(s1, c, a, s2).recorded() == s.recorded()
                + (if (c) >= 1 { 0nat } else { 1nat })
                + (if a == 2 { 0nat } else { 1nat }),
        forall|s: RunState, s1: u32, c3: u32, s2: u32, c5: u32, s3: u32|
            #[trigger] s.multiple_swi_run(s1, c3, s2, c5, s3).recorded() == s.recorded()
                + (if (c3) >= 1 { 0nat } else { 1nat })
                + (if (c5) >= 1 { 0nat } else { 1nat }),
        forall|s: RunState, imask: u32, ssr: u32, c: u32|
            #[trigger] s.imask_masking_run(imask, ssr, c).recorded() == s.recorded()
                + (if (c) == 0 { 0nat } else { 1nat }),
        forall|s: RunState, ssr: u32, c: u32|
            #[trigger] s.cswi_clear_run(ssr, c).recorded() == s.recorded()
                + (if (c) == 0 { 0nat } else { 1nat }),
        forall|s: RunState, ssr: u32, syscfg: u32, c: u32|
            #[trigger] s.ipend_inspection_run(ssr, syscfg, c).recorded() == s.recorded()
                + (if (c) == 0 { 0nat } else { 1nat }),
        forall|s: RunState, s1: u32, c8: u32, s2: u32, c9: u32, s3: u32|
            #[trigger] s.sequential_swi_run(s1, c8, s2, c9, s3).recorded() == s.recorded()
                + (if (c8) >= 1 { 0nat } else { 1nat })
                + (if (c9) >= 1 { 0nat } else { 1nat }),
        forall|s: RunState, s1: u32, ssr: u32, c1: u32, c2: u32, s2: u32|
            #[trigger] s.swi_delayed_delivery_run(s1, ssr, c1, c2, s2).recorded() == s.recorded()
                + (if (c1) == 0 { 0nat } else { 1nat })
                + (if (c2) >= 1 { 0nat } else { 1nat }),
        forall|s: RunState, c1: u32, ssr: u32, c2: u32, ssr2: u32|
            #[trigger] s.iad_cleared_run(c1, ssr, c2, ssr2).recorded() == s.recorded()
                + (if (c1) >= 1 { 0nat } else { 1nat })
                + (if (c2) >= 1 { 0nat } else { 1nat }),
        forall|s: RunState, saved: u32, rb: u32, rb2: u32|
            #[trigger] s.iassign_readwrite_run(saved, rb, rb2).recorded() == s.recorded()
                + (if rb & 1 == 1 { 0nat } else { 1nat })
                + (if rb2 & 3 == 3 { 0nat } else { 1nat }),
        forall|s: RunState, s1: u32, c1: u32, ssr: u32, c2: u32, s2: u32|
            #[trigger] s.ciad_explicit_run(s1, c1, ssr, c2, s2).recorded() == s.recorded()
                + (if (c1) >= 1 { 0nat } else { 1nat })
                + (if (c2) >= 1 { 0nat } else { 1nat }),
{
    broadcast use crate::report::group_recorded;

    assert forall|s: RunState, s1: u32, c: u32, a: u32, s2: u32|
        #[trigger] s.swi_delivery_run(s1, c, a, s2).recorded() == s.recorded()
            + (if (c) >= 1 { 0nat } else { 1nat })
            + (if a == 2 { 0nat } else { 1nat }) by {}
    assert forall|s: RunState, s1: u32, c3: u32, s2: u32, c5: u32, s3: u32|
        #[trigger] s.multiple_swi_run(s1, c3, s2, c5, s3).recorded() == s.recorded()
            + (if (c3) >= 1 { 0nat } else { 1nat })
            + (if (c5) >= 1 { 0nat } else { 1nat }) by {}
    assert forall|s: RunState, imask: u32, ssr: u32, c: u32|
        #[trigger] s.imask_masking_run(imask, ssr, c).recorded() == s.recorded()
            + (if (c) == 0 { 0nat } else { 1nat }) by {}
    assert forall|s: RunState, ssr: u32, c: u32|
        #[trigger] s.cswi_clear_run(ssr, c).recorded() == s.recorded()
            + (if (c) == 0 { 0nat } else { 1nat }) by {}
    assert forall|s: RunState, ssr: u32, syscfg: u32, c: u32|
        #[trigger] s.ipend_inspection_run(ssr, syscfg, c).recorded() == s.recorded()
            + (if (c) == 0 { 0nat } else { 1nat }) by {}
    assert forall|s: RunState, s1: u32, c8: u32, s2: u32, c9: u32, s3: u32|
        #[trigger] s.sequential_swi_run(s1, c8, s2, c9, s3).recorded() == s.recorded()
            + (if (c8) >= 1 { 0nat } else { 1nat })
            + (if (c9) >= 1 { 0nat } else { 1nat }) by {}
    assert forall|s: RunState, s1: u32, ssr: u32, c1: u32, c2: u32, s2: u32|
        #[trigger] s.swi_delayed_delivery_run(s1, ssr, c1, c2, s2).recorded() == s.recorded()
            + (if (c1) == 0 { 0nat } else { 1nat })
            + (if (c2) >= 1 { 0nat } else { 1nat }) by {}
    assert forall|s: RunState, c1: u32, ssr: u32, c2: u32, ssr2: u32|
        #[trigger] s.iad_cleared_run(c1, ssr, c2, ssr2).recorded() == s.recorded()
            + (if (c1) >= 1 { 0nat } else { 1nat })
            + (if (c2) >= 1 { 0nat } else { 1nat }) by {}
    assert forall|s: RunState, saved: u32, rb: u32, rb2: u32|
        #[trigger] s.iassign_readwrite_run(saved, rb, rb2).recorded() == s.recorded()
            + (if rb & 1 == 1 { 0nat } else { 1nat })
            + (if rb2 & 3 == 3 { 0nat } else { 1nat }) by {}
    assert forall|s: RunState, s1: u32, c1: u32, ssr: u32, c2: u32, s2: u32|
        #[trigger] s.ciad_explicit_run(s1, c1, ssr, c2, s2).recorded() == s.recorded()
            + (if (c1) >= 1 { 0nat } else { 1nat })
            + (if (c2) >= 1 { 0nat } else { 1nat }) by {}
}

} // verus!
