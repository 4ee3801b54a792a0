//! L2VIC interrupt controller tests: register access (enable, type, soft
//! interrupt pending), VID capture from L2VIC-delivered interrupts, several
//! vectors, and the fast L2VIC interface.  The L2VIC base comes from the
//! configuration table; group 0 interrupts reach L1 interrupt 2.  A missing
//! or non-functional L2VIC is fatal.

use vstd::prelude::*;
use crate::console::{nl, text};
use crate::machine::{Ev, Hexagon, IntCtl, IrqHandler, RunState, Runtime, Shared, SysReg};
use crate::regs::{
    add32, cfg_base, cfg_base_spec, fast_l2vic_cmd, fast_l2vic_cmd_spec, l2vic_bit, l2vic_bit_spec,
    l2vic_reg, l2vic_reg_spec, lemma_bit_values, vid0, vid0_spec, vpn_of, wrapping_add32,
    CFGTABLE_FASTL2VIC_BASE, CFGTABLE_SUBSYSTEM_BASE, L2VIC_DEVICE_OFFSET, L2VIC_INT_CLEAR,
    L2VIC_INT_ENABLE, L2VIC_INT_ENABLE_CLR, L2VIC_INT_ENABLE_SET, L2VIC_INT_PENDING, L2VIC_INT_TYPE,
    L2VIC_SOFT_INT, SSR_IE,
};
use crate::report::{aborted_tests, ran_tests, Fatal, TestCase};

verus! {

/// TLB index of the L2VIC mapping.
pub const L2VIC_TLB_IDX: u32 = 2;

/// TLB index of the fast L2VIC mapping.
pub const FASTL2VIC_TLB_IDX: u32 = 3;

/// The L1 interrupt L2VIC group 0 is wired to.
pub const L2VIC_L1_INTNO: u32 = 2;

/// The L2VIC base for a configuration-table subsystem field.
pub open spec fn l2vic_base_spec(raw: u32) -> u32 {
    add32(cfg_base_spec(raw), L2VIC_DEVICE_OFFSET)
}

impl RunState {
    /// A write to an L2VIC register.
    pub open spec fn l2w(self, base: u32, reg: u32, v: u32) -> RunState {
        self.ev(Ev::MmioWrite(add32(base, reg), v))
    }

    /// A read of an L2VIC register that returned `v`.
    pub open spec fn l2r(self, base: u32, reg: u32, v: u32) -> RunState {
        self.ev(Ev::MmioRead(add32(base, reg), v))
    }

    /// The L2VIC vector handler: record VID0, count, and clear the
    /// interrupt that fired if the L2VIC is mapped.
    pub open spec fn l2vic_int_handler_run(self, vid: u32, base: u32) -> RunState {
        let irq = vid0_spec(vid);
        let s = self.rd(SysReg::Vid, vid).st(Shared::HandlerVid, irq).ev(Ev::SharedAdd(Shared::HandlerCount, 1)).ld(
            Shared::L2vicVa,
            base,
        );
        if base != 0 {
            s.l2w(base, l2vic_reg_spec(L2VIC_INT_CLEAR, irq), l2vic_bit_spec(irq))
        } else {
            s
        }
    }

    /// Find the L2VIC through the configuration table and map it; fatal if
    /// the subsystem base is zero.
    pub open spec fn l2vic_setup(self, cb: u32, raw: u32) -> RunState {
        let s = self.cfg_read(CFGTABLE_SUBSYSTEM_BASE, cb, raw);
        if raw == 0 {
            s
        } else {
            let b = l2vic_base_spec(raw);
            s.device_mapped(b >> 20u32, b >> 20u32, L2VIC_TLB_IDX).st(Shared::L2vicVa, b)
        }
    }

    /// Probe that SET and CLR both act on INT_ENABLE.
    pub open spec fn l2vic_probed(self, base: u32, en_set: u32, en_clr: u32) -> RunState {
        self.l2w(base, L2VIC_INT_ENABLE_CLR, 1).delay(10).l2w(base, L2VIC_INT_ENABLE_SET, 1).delay(10).l2r(
            base,
            L2VIC_INT_ENABLE,
            en_set,
        ).l2w(base, L2VIC_INT_ENABLE_CLR, 1).delay(10).l2r(base, L2VIC_INT_ENABLE, en_clr)
    }

    /// Disable and clear an L2 interrupt.
    pub open spec fn irq_cleared(self, base: u32, irq: u32) -> RunState {
        self.l2w(base, l2vic_reg_spec(L2VIC_INT_ENABLE_CLR, irq), l2vic_bit_spec(irq)).l2w(
            base,
            l2vic_reg_spec(L2VIC_INT_CLEAR, irq),
            l2vic_bit_spec(irq),
        )
    }

    /// Clear L1 interrupt 2 and its auto-disable bit with SSR.IE off.
    pub open spec fn l1_int2_cleared(self, ssr: u32) -> RunState {
        self.rd(SysReg::Ssr, ssr).wr(SysReg::Ssr, ssr & !SSR_IE).ev(Ev::IntCtl(IntCtl::Cswi, 4)).ev(
            Ev::IntCtl(IntCtl::Ciad, 4),
        ).wr(SysReg::Ssr, ssr)
    }

    /// Unmap the L2VIC.
    pub open spec fn l2vic_cleaned(self) -> RunState {
        self.tlb_invalidated(L2VIC_TLB_IDX).st(Shared::L2vicVa, 0)
    }

    pub open spec fn enable_readback_run(self, base: u32, en: u32, en2: u32) -> RunState {
        let b = l2vic_bit_spec(5);
        self.ld(Shared::L2vicVa, base).l2w(base, l2vic_reg_spec(L2VIC_INT_ENABLE_SET, 5), b).delay(20).l2r(
            base,
            l2vic_reg_spec(L2VIC_INT_ENABLE, 5),
            en,
        ).check(en & b != 0, "en & (1 << bit) != 0").l2w(base, l2vic_reg_spec(L2VIC_INT_ENABLE_CLR, 5), b).delay(
            20,
        ).l2r(base, l2vic_reg_spec(L2VIC_INT_ENABLE, 5), en2).check(en2 & b == 0, "en2 & (1 << bit) == 0")
    }

    pub open spec fn type_readback_run(self, base: u32, saved: u32, rb: u32) -> RunState {
        let b = l2vic_bit_spec(5);
        let t = l2vic_reg_spec(L2VIC_INT_TYPE, 5);
        self.ld(Shared::L2vicVa, base).l2r(base, t, saved).l2w(base, t, saved | b).delay(10).l2r(base, t, rb).check(
            rb & b != 0,
            "rb & (1 << bit) != 0",
        ).l2w(base, t, saved)
    }

    pub open spec fn soft_int_pending_run(
        self,
        base: u32,
        ssr: u32,
        imask: u32,
        ty: u32,
        pending: u32,
        ssr2: u32,
    ) -> RunState {
        let b = l2vic_bit_spec(7);
        let t = l2vic_reg_spec(L2VIC_INT_TYPE, 7);
        let s = self.ld(Shared::L2vicVa, base).rd(SysReg::Ssr, ssr).rd(SysReg::Imask, imask).wr(SysReg::Ssr, ssr & !SSR_IE).wr(
            SysReg::Imask,
            imask | 4,
        ).l2r(base, t, ty).l2w(base, t, ty & !b).l2w(base, l2vic_reg_spec(L2VIC_INT_ENABLE_SET, 7), b).delay(10).l2w(
            base,
            l2vic_reg_spec(L2VIC_SOFT_INT, 7),
            b,
        ).delay(20).l2r(base, l2vic_reg_spec(L2VIC_INT_PENDING, 7), pending);
        let s2 = if pending & b == 0 {
            s.out(text("(skip: INT_PENDING not modeled by cosim)")).out(nl())
        } else {
            s
        };
        s2.l2w(base, l2vic_reg_spec(L2VIC_INT_CLEAR, 7), b).irq_cleared(base, 7).l2w(base, t, ty).wr(SysReg::Imask, imask).wr(
            SysReg::Ssr,
            ssr | SSR_IE,
        ).l1_int2_cleared(ssr2)
    }

    /// Raise L2 interrupt `irq` through SOFT_INT (edge-triggered, enabled),
    /// wait, and check the handler ran and captured `irq` as VID0.
    pub open spec fn vector_delivered(self, base: u32, irq: u32, ty: u32, c: u32, v: u32) -> RunState {
        let b = l2vic_bit_spec(irq);
        let t = l2vic_reg_spec(L2VIC_INT_TYPE, irq);
        self.l2r(base, t, ty).l2w(base, t, ty | b).l2w(base, l2vic_reg_spec(L2VIC_INT_ENABLE_SET, irq), b).delay(10)
    }

    /// The second half of a delivery: raise, wait, check the handler's
    /// count and captured vector, then clean up.
    pub open spec fn vector_checked(self, base: u32, irq: u32, ty: u32, c: u32, v: u32) -> RunState {
        let b = l2vic_bit_spec(irq);
        self.l2w(base, l2vic_reg_spec(L2VIC_SOFT_INT, irq), b).delay(200).ld(Shared::HandlerCount, c).check(
            c >= 1,
            "HANDLER_COUNT.load(Ordering::SeqCst) >= 1",
        ).ld(Shared::HandlerVid, v).check32(v, irq).irq_cleared(base, irq).l2w(base, l2vic_reg_spec(L2VIC_INT_TYPE, irq), ty)
    }

    pub open spec fn vid_capture_run(
        self,
        base: u32,
        imask: u32,
        ty: u32,
        c: u32,
        v: u32,
        ssr: u32,
    ) -> RunState {
        self.ld(Shared::L2vicVa, base).st(Shared::HandlerVid, 0xFFFF_FFFF).st(Shared::HandlerCount, 0).rd(
            SysReg::Imask,
            imask,
        ).wr(SysReg::Imask, imask & !4u32).ev(Ev::RegisterInterrupt(2, IrqHandler::L2vicVector)).vector_delivered(
            base,
            5,
            ty,
            c,
            v,
        ).vector_checked(base, 5, ty, c, v).wr(SysReg::Imask, imask).l1_int2_cleared(ssr)
    }

    /// One round of the several-vectors test for L2 interrupt `irq`.
    pub open spec fn vector_round(
        self,
        base: u32,
        irq: u32,
        ty: u32,
        ssr: u32,
        c: u32,
        v: u32,
        ssr2: u32,
    ) -> RunState {
        self.st(Shared::HandlerVid, 0xFFFF_FFFF).st(Shared::HandlerCount, 0).vector_delivered(base, irq, ty, c, v).rd(
            SysReg::Ssr,
            ssr,
        ).wr(SysReg::Ssr, ssr & !SSR_IE).ev(Ev::IntCtl(IntCtl::Cswi, 4)).ev(Ev::IntCtl(IntCtl::Ciad, 4)).wr(
            SysReg::Ssr,
            ssr | SSR_IE,
        ).vector_checked(base, irq, ty, c, v).l1_int2_cleared(ssr2)
    }

    pub open spec fn fast_interface_run(self, base: u32, cb: u32, raw: u32, en: u32, en2: u32) -> RunState {
        let s = self.ld(Shared::L2vicVa, base).cfg_read(CFGTABLE_FASTL2VIC_BASE, cb, raw);
        let fb = cfg_base_spec(raw);
        let b = l2vic_bit_spec(10);
        s.device_mapped(fb >> 20u32, fb >> 20u32, FASTL2VIC_TLB_IDX).l2w(base, l2vic_reg_spec(L2VIC_INT_ENABLE_CLR, 10), b).delay(
            10,
        ).ev(Ev::MmioWrite(fb, fast_l2vic_cmd_spec(0, 10))).delay(20).l2r(base, l2vic_reg_spec(L2VIC_INT_ENABLE, 10), en).check(
            en & b != 0,
            "en & (1 << bit) != 0",
        ).ev(Ev::MmioWrite(fb, fast_l2vic_cmd_spec(1, 10))).delay(20).l2r(base, l2vic_reg_spec(L2VIC_INT_ENABLE, 10), en2).check(
            en2 & b == 0,
            "en2 & (1 << bit) == 0",
        ).tlb_invalidated(FASTL2VIC_TLB_IDX)
    }

    /// One round of the several-vectors test for `irq`, from `self` to `post`.
    pub open spec fn round_done(self, base: u32, irq: u32, post: RunState) -> bool {
        exists|t: u32, s: u32, c: u32, v: u32, s2: u32| #[trigger] self.vector_round(base, irq, t, s, c, v, s2) == post
    }

    /// The several-vectors test: L1 interrupt 2 unmasked with the vector
    /// handler installed, one round for each of L2 interrupts 5, 33 and
    /// 100, then IMASK restored.
    pub open spec fn multiple_vectors_run(self, base: u32, imask: u32, post: RunState) -> bool {
        let s = self.ld(Shared::L2vicVa, base).rd(SysReg::Imask, imask).wr(SysReg::Imask, imask & !4u32).ev(
            Ev::RegisterInterrupt(2, IrqHandler::L2vicVector),
        );
        exists|mid: RunState| #[trigger] vector_rounds(s, base, multi_vector_irqs(), mid) && post == mid.wr(SysReg::Imask, imask)
    }

    /// Setup found no L2VIC: the suite ends with the panic line.
    pub open spec fn l2vic_setup_failed(self, cb: u32, raw: u32, post: RunState) -> bool {
        raw == 0 && post == self.l2vic_setup(cb, raw).fatal_reported(Fatal::SubsystemBaseZero)
    }

    /// The L2VIC was found but its probe failed: the suite ends with the
    /// panic line.
    pub open spec fn l2vic_probe_failed(self, cb: u32, raw: u32, es: u32, ec: u32, post: RunState) -> bool {
        let base = l2vic_base_spec(raw);
        &&& raw != 0
        &&& es & 1 == 0 || ec & 1 != 0
        &&& post == self.l2vic_setup(cb, raw).l2vic_probed(base, es, ec).fatal_reported(
            Fatal::ProbeFailed { base, en_set: es, en_clr: ec },
        )
    }

    /// The L2VIC was found and probed, and the tests ran: either all of them,
    /// followed by the unmapping and the summary, or up to a fatal error.
    pub open spec fn l2vic_tests_ran(self, cb: u32, raw: u32, es: u32, ec: u32, post: RunState, code: i32) -> bool {
        let base = l2vic_base_spec(raw);
        let s = self.l2vic_setup(cb, raw).l2vic_probed(base, es, ec);
        &&& raw != 0
        &&& !(es & 1 == 0 || ec & 1 != 0)
        &&& {
            ||| exists|t: RunState|
                #[trigger] ran_tests(s, l2vic_tests(), t) && t.l2vic_cleaned().summarized(post, code)
            ||| exists|t: RunState, k: int, f: Fatal|
                #[trigger] aborted_tests(s, l2vic_tests(), k, t, f) && post == t.fatal_reported(f) && code == 1
        }
    }

    /// The whole L2VIC suite after its header.
    pub open spec fn l2vic_suite_ran(self, post: RunState, code: i32) -> bool {
        exists|cb: u32, raw: u32|
            #![trigger self.l2vic_setup(cb, raw)]
            {
                ||| self.l2vic_setup_failed(cb, raw, post) && code == 1
                ||| exists|es: u32, ec: u32| #[trigger] self.l2vic_probe_failed(cb, raw, es, ec, post) && code == 1
                ||| exists|es: u32, ec: u32| #[trigger] self.l2vic_tests_ran(cb, raw, es, ec, post, code)
            }
    }
}

/// The L2 interrupts of the several-vectors test.
pub open spec fn multi_vector_irqs() -> Seq<u32> {
    seq![5u32, 33, 100]
}

/// The states between the rounds of the several-vectors test for the L2
/// interrupts `irqs`, in order.
pub open spec fn rounds_chain(base: u32, irqs: Seq<u32>, states: Seq<RunState>) -> bool {
    &&& states.len() == irqs.len() + 1
    &&& forall|i: int| 0 <= i < irqs.len() ==> #[trigger] states[i].round_done(base, irqs[i], states[i + 1])
}

/// The rounds of the several-vectors test for the L2 interrupts `irqs`, in
/// order.
pub open spec fn vector_rounds(pre: RunState, base: u32, irqs: Seq<u32>, post: RunState) -> bool {
    exists|states: Seq<RunState>| #[trigger] rounds_chain(base, irqs, states) && states[0] == pre && states.last() == post
}

/// One more round extends the rounds done so far by the next interrupt.
proof fn lemma_vector_rounds_step(pre: RunState, base: u32, irqs: Seq<u32>, i: int, mid: RunState, post: RunState)
    requires
        0 <= i < irqs.len(),
        vector_rounds(pre, base, irqs.take(i), mid),
        mid.round_done(base, irqs[i], post),
    ensures
        vector_rounds(pre, base, irqs.take(i + 1), post),
{
    let states = choose|states: Seq<RunState>|
        #[trigger] rounds_chain(base, irqs.take(i), states) && states[0] == pre && states.last() == mid;
    let next = states.push(post);
    assert forall|j: int| 0 <= j < i + 1 implies #[trigger] next[j].round_done(base, irqs.take(i + 1)[j], next[j + 1]) by {
        if j < i {
            assert(states[j].round_done(base, irqs.take(i)[j], states[j + 1]));
        }
    }
    assert(rounds_chain(base, irqs.take(i + 1), next));
}

/// The L2VIC vector handler for L1 interrupt 2: record VID0 (the L2
/// interrupt number), count, and clear that L2 interrupt.
pub fn l2vic_int_handler<M: Hexagon>(rt: &mut Runtime<M>, _intno: u32)
    ensures
        exists|vid: u32, base: u32| #[trigger] old(rt)@.l2vic_int_handler_run(vid, base) == final(rt)@,
{
    let vid = rt.read_vid();
    let irq = vid0(vid);
    rt.shared_store(Shared::HandlerVid, irq);
    rt.shared_add(Shared::HandlerCount, 1);
    let base = rt.shared_load(Shared::L2vicVa);
    if base != 0 {
        rt.l2vic_write(base, l2vic_reg(L2VIC_INT_CLEAR, irq), l2vic_bit(irq));
    }
    assert(old(rt)@.l2vic_int_handler_run(vid, base) == rt@);
}

/// Find the L2VIC base in the configuration table, map it, and record it;
/// a zero subsystem base is fatal.
pub fn setup_l2vic<M: Hexagon>(rt: &mut Runtime<M>) -> (r: Result<u32, Fatal>)
    ensures
        exists|cb: u32, raw: u32|
            #[trigger] old(rt)@.l2vic_setup(cb, raw) == final(rt)@ && r == if raw == 0 {
                Err::<u32, Fatal>(Fatal::SubsystemBaseZero)
            } else {
                Ok::<u32, Fatal>(l2vic_base_spec(raw))
            },
{
    let ghost s0 = rt@;
    let subsys_raw = rt.read_cfgtable_field(CFGTABLE_SUBSYSTEM_BASE);
    let ghost cb = choose|cb: u32| #[trigger] s0.cfg_read(CFGTABLE_SUBSYSTEM_BASE, cb, subsys_raw) == rt@;
    if subsys_raw == 0 {
        assert(s0.l2vic_setup(cb, subsys_raw) == rt@);
        return Err(Fatal::SubsystemBaseZero);
    }
    let subsys_base = cfg_base(subsys_raw);
    let l2vic_base = wrapping_add32(subsys_base, L2VIC_DEVICE_OFFSET);
    let vpn_1m = vpn_of(l2vic_base);
    rt.install_device_mapping(vpn_1m, vpn_1m, L2VIC_TLB_IDX);
    rt.shared_store(Shared::L2vicVa, l2vic_base);
    assert(s0.l2vic_setup(cb, subsys_raw) == rt@);
    Ok(l2vic_base)
}

/// Check that the L2VIC enable logic works: after a SET bit 0 reads set,
/// after a CLR it reads clear; otherwise the failure is fatal.
pub fn l2vic_probe<M: Hexagon>(rt: &mut Runtime<M>, base: u32) -> (r: Result<(), Fatal>)
    ensures
        exists|en_set: u32, en_clr: u32|
            #[trigger] old(rt)@.l2vic_probed(base, en_set, en_clr) == final(rt)@ && r == if en_set & 1 == 0 || en_clr
                & 1 != 0 {
                Err::<(), Fatal>(Fatal::ProbeFailed { base, en_set, en_clr })
            } else {
                Ok::<(), Fatal>(())
            },
{
    rt.l2vic_write(base, L2VIC_INT_ENABLE_CLR, 1 << 0);
    rt.busy_loop(10);
    rt.l2vic_write(base, L2VIC_INT_ENABLE_SET, 1 << 0);
    rt.busy_loop(10);
    let en_set = rt.l2vic_read(base, L2VIC_INT_ENABLE);
    rt.l2vic_write(base, L2VIC_INT_ENABLE_CLR, 1 << 0);
    rt.busy_loop(10);
    let en_clr = rt.l2vic_read(base, L2VIC_INT_ENABLE);
    assert(1u32 << 0u32 == 1) by (bit_vector);
    assert(old(rt)@.l2vic_probed(base, en_set, en_clr) == rt@);
    if (en_set & 1 == 0) || (en_clr & 1 != 0) {
        return Err(Fatal::ProbeFailed { base, en_set, en_clr });
    }
    Ok(())
}

/// Unmap the L2VIC and forget its base.
pub fn cleanup_l2vic<M: Hexagon>(rt: &mut Runtime<M>)
    ensures
        final(rt)@ == old(rt)@.l2vic_cleaned(),
{
    rt.tlb_invalidate(L2VIC_TLB_IDX);
    rt.shared_store(Shared::L2vicVa, 0);
}

/// Disable and clear L2 interrupt `l2_irq`.
pub fn l2vic_clear_irq<M: Hexagon>(rt: &mut Runtime<M>, base: u32, l2_irq: u32)
    ensures
        final(rt)@ == old(rt)@.irq_cleared(base, l2_irq),
{
    let bit = l2vic_bit(l2_irq);
    rt.l2vic_write(base, l2vic_reg(L2VIC_INT_ENABLE_CLR, l2_irq), bit);
    rt.l2vic_write(base, l2vic_reg(L2VIC_INT_CLEAR, l2_irq), bit);
}

/// Clear L1 interrupt 2's pending and auto-disable bits with SSR.IE off.
pub fn clear_l1_int2<M: Hexagon>(rt: &mut Runtime<M>)
    ensures
        exists|ssr: u32| #[trigger] old(rt)@.l1_int2_cleared(ssr) == final(rt)@,
{
    proof {
        lemma_bit_values();
    }
    let ssr = rt.read_ssr();
    rt.write_ssr(ssr & !SSR_IE);
    rt.clear_swi(1 << L2VIC_L1_INTNO);
    rt.ciad(1 << L2VIC_L1_INTNO);
    rt.write_ssr(ssr);
    assert(old(rt)@.l1_int2_cleared(ssr) == rt@);
}

/// Enabling L2 interrupt 5 through INT_ENABLE_SET shows in INT_ENABLE,
/// and disabling it through INT_ENABLE_CLR clears it.
pub fn test_l2vic_enable_readback<M: Hexagon>(rt: &mut Runtime<M>)
    ensures
        exists|b: u32, e1: u32, e2: u32| #[trigger] old(rt)@.enable_readback_run(b, e1, e2) == final(rt)@,
{
    let base = rt.shared_load(Shared::L2vicVa);
    let l2_irq: u32 = 5;
    let bit = l2vic_bit(l2_irq);
    rt.l2vic_write(base, l2vic_reg(L2VIC_INT_ENABLE_SET, l2_irq), bit);
    rt.busy_loop(20);
    let en = rt.l2vic_read(base, l2vic_reg(L2VIC_INT_ENABLE, l2_irq));
    rt.check(en & bit != 0, "en & (1 << bit) != 0");
    rt.l2vic_write(base, l2vic_reg(L2VIC_INT_ENABLE_CLR, l2_irq), bit);
    rt.busy_loop(20);
    let en2 = rt.l2vic_read(base, l2vic_reg(L2VIC_INT_ENABLE, l2_irq));
    rt.check(en2 & bit == 0, "en2 & (1 << bit) == 0");
    assert(old(rt)@.enable_readback_run(base, en, en2) == rt@);
}

/// Setting L2 interrupt 5's INT_TYPE bit (edge-triggered) reads back.
pub fn test_l2vic_type_readback<M: Hexagon>(rt: &mut Runtime<M>)
    ensures
        exists|b: u32, s: u32, r: u32| #[trigger] old(rt)@.type_readback_run(b, s, r) == final(rt)@,
{
    let base = rt.shared_load(Shared::L2vicVa);
    let l2_irq: u32 = 5;
    let bit = l2vic_bit(l2_irq);
    let treg = l2vic_reg(L2VIC_INT_TYPE, l2_irq);
    let saved = rt.l2vic_read(base, treg);
    rt.l2vic_write(base, treg, saved | bit);
    rt.busy_loop(10);
    let rb = rt.l2vic_read(base, treg);
    rt.check(rb & bit != 0, "rb & (1 << bit) != 0");
    rt.l2vic_write(base, treg, saved);
    assert(old(rt)@.type_readback_run(base, saved, rb) == rt@);
}

/// A SOFT_INT write shows in INT_PENDING while delivery is blocked (SSR.IE
/// off, L1 interrupt 2 masked); a simulator that does not model
/// INT_PENDING only gets a skip note, and nothing is checked.
pub fn test_l2vic_soft_int_pending<M: Hexagon>(rt: &mut Runtime<M>)
    ensures
        exists|b: u32, s: u32, m: u32, t: u32, p: u32, s2: u32|
            #[trigger] old(rt)@.soft_int_pending_run(b, s, m, t, p, s2) == final(rt)@,
{
    proof {
        lemma_bit_values();
    }
    let base = rt.shared_load(Shared::L2vicVa);
    let l2_irq: u32 = 7;
    let bit = l2vic_bit(l2_irq);
    let treg = l2vic_reg(L2VIC_INT_TYPE, l2_irq);
    let saved_ssr = rt.read_ssr();
    let saved_imask = rt.read_imask();
    rt.write_ssr(saved_ssr & !SSR_IE);
    rt.write_imask(saved_imask | (1 << L2VIC_L1_INTNO));
    let saved_type = rt.l2vic_read(base, treg);
    rt.l2vic_write(base, treg, saved_type & !bit);
    rt.l2vic_write(base, l2vic_reg(L2VIC_INT_ENABLE_SET, l2_irq), bit);
    rt.busy_loop(10);
    rt.l2vic_write(base, l2vic_reg(L2VIC_SOFT_INT, l2_irq), bit);
    rt.busy_loop(20);
    let pending = rt.l2vic_read(base, l2vic_reg(L2VIC_INT_PENDING, l2_irq));
    if pending & bit == 0 {
        rt.println("(skip: INT_PENDING not modeled by cosim)");
    }
    rt.l2vic_write(base, l2vic_reg(L2VIC_INT_CLEAR, l2_irq), bit);
    l2vic_clear_irq(rt, base, l2_irq);
    rt.l2vic_write(base, treg, saved_type);
    rt.write_imask(saved_imask);
    rt.write_ssr(saved_ssr | SSR_IE);
    let ghost s9 = rt@;
    clear_l1_int2(rt);
    let ghost w = choose|x: u32| #[trigger] s9.l1_int2_cleared(x) == rt@;
    assert(old(rt)@.soft_int_pending_run(base, saved_ssr, saved_imask, saved_type, pending, w) == rt@);
}

/// Arm L2 interrupt `irq` as edge-triggered and enabled.
fn arm_vector<M: Hexagon>(rt: &mut Runtime<M>, base: u32, irq: u32) -> (ty: u32)
    ensures
        final(rt)@ == old(rt)@.vector_delivered(base, irq, ty, 0, 0),
{
    let bit = l2vic_bit(irq);
    let treg = l2vic_reg(L2VIC_INT_TYPE, irq);
    let saved_type = rt.l2vic_read(base, treg);
    rt.l2vic_write(base, treg, saved_type | bit);
    rt.l2vic_write(base, l2vic_reg(L2VIC_INT_ENABLE_SET, irq), bit);
    rt.busy_loop(10);
    saved_type
}

/// Raise armed L2 interrupt `irq`, wait, check the handler's count and the
/// vector it captured, then disarm it.
fn raise_and_check_vector<M: Hexagon>(rt: &mut Runtime<M>, base: u32, irq: u32, saved_type: u32)
    ensures
        exists|c: u32, v: u32| #[trigger] old(rt)@.vector_checked(base, irq, saved_type, c, v) == final(rt)@,
{
    let bit = l2vic_bit(irq);
    rt.l2vic_write(base, l2vic_reg(L2VIC_SOFT_INT, irq), bit);
    rt.busy_loop(200);
    let c = rt.shared_load(Shared::HandlerCount);
    rt.check(c >= 1, "HANDLER_COUNT.load(Ordering::SeqCst) >= 1");
    let v = rt.shared_load(Shared::HandlerVid);
    rt.check32(v, irq);
    l2vic_clear_irq(rt, base, irq);
    rt.l2vic_write(base, l2vic_reg(L2VIC_INT_TYPE, irq), saved_type);
    assert(old(rt)@.vector_checked(base, irq, saved_type, c, v) == rt@);
}

/// An L2VIC-delivered interrupt for L2 interrupt 5 runs the handler, which
/// captures VID0 = 5.
pub fn test_l2vic_vid_capture<M: Hexagon>(rt: &mut Runtime<M>)
    ensures
        exists|b: u32, m: u32, t: u32, c: u32, v: u32, s: u32|
            #[trigger] old(rt)@.vid_capture_run(b, m, t, c, v, s) == final(rt)@,
{
    proof {
        lemma_bit_values();
    }
    let base = rt.shared_load(Shared::L2vicVa);
    let l2_irq: u32 = 5;
    rt.shared_store(Shared::HandlerVid, 0xFFFF_FFFF);
    rt.shared_store(Shared::HandlerCount, 0);
    let saved_imask = rt.read_imask();
    rt.write_imask(saved_imask & !(1 << L2VIC_L1_INTNO));
    rt.register_interrupt(L2VIC_L1_INTNO, IrqHandler::L2vicVector);
    let saved_type = arm_vector(rt, base, l2_irq);
    let ghost s1 = rt@;
    raise_and_check_vector(rt, base, l2_irq, saved_type);
    let ghost w = choose|c: u32, v: u32| #[trigger] s1.vector_checked(base, l2_irq, saved_type, c, v) == rt@;
    rt.write_imask(saved_imask);
    let ghost s2 = rt@;
    clear_l1_int2(rt);
    let ghost x = choose|x: u32| #[trigger] s2.l1_int2_cleared(x) == rt@;
    assert(old(rt)@.ld(Shared::L2vicVa, base).st(Shared::HandlerVid, 0xFFFF_FFFF).st(Shared::HandlerCount, 0).rd(
        SysReg::Imask, saved_imask).wr(SysReg::Imask, saved_imask & !4u32).ev(Ev::RegisterInterrupt(2, IrqHandler::L2vicVector)).vector_delivered(
        base, 5, saved_type, w.0, w.1) == s1);
    assert(old(rt)@.vid_capture_run(base, saved_imask, saved_type, w.0, w.1, x) == rt@);
}

/// One round of the several-vectors test.
fn vector_round<M: Hexagon>(rt: &mut Runtime<M>, base: u32, l2_irq: u32)
    ensures
        exists|t: u32, s: u32, c: u32, v: u32, s2: u32|
            #[trigger] old(rt)@.vector_round(base, l2_irq, t, s, c, v, s2) == final(rt)@,
{
    proof {
        lemma_bit_values();
    }
    rt.shared_store(Shared::HandlerVid, 0xFFFF_FFFF);
    rt.shared_store(Shared::HandlerCount, 0);
    let saved_type = arm_vector(rt, base, l2_irq);
    let ssr = rt.read_ssr();
    rt.write_ssr(ssr & !SSR_IE);
    rt.clear_swi(1 << L2VIC_L1_INTNO);
    rt.ciad(1 << L2VIC_L1_INTNO);
    rt.write_ssr(ssr | SSR_IE);
    let ghost s1 = rt@;
    raise_and_check_vector(rt, base, l2_irq, saved_type);
    let ghost w = choose|c: u32, v: u32| #[trigger] s1.vector_checked(base, l2_irq, saved_type, c, v) == rt@;
    let ghost s2 = rt@;
    clear_l1_int2(rt);
    let ghost x = choose|x: u32| #[trigger] s2.l1_int2_cleared(x) == rt@;
    assert(old(rt)@.st(Shared::HandlerVid, 0xFFFF_FFFF).st(Shared::HandlerCount, 0).vector_delivered(base, l2_irq, saved_type, w.0, w.1)
        == old(rt)@.st(Shared::HandlerVid, 0xFFFF_FFFF).st(Shared::HandlerCount, 0).vector_delivered(base, l2_irq, saved_type, 0, 0));
    assert(old(rt)@.vector_round(base, l2_irq, saved_type, ssr, w.0, w.1, x) == rt@);
}

/// L2 interrupts 5, 33 and 100 each produce their own VID0.
pub fn test_l2vic_vid_multiple_vectors<M: Hexagon>(rt: &mut Runtime<M>)
    ensures
        exists|b: u32, m: u32| #[trigger] old(rt)@.multiple_vectors_run(b, m, final(rt)@),
{
    proof {
        lemma_bit_values();
    }
    let base = rt.shared_load(Shared::L2vicVa);
    let irqs: [u32; 3] = [5, 33, 100];
    let saved_imask = rt.read_imask();
    rt.write_imask(saved_imask & !(1 << L2VIC_L1_INTNO));
    rt.register_interrupt(L2VIC_L1_INTNO, IrqHandler::L2vicVector);
    let ghost s1 = rt@;
    assert(rounds_chain(base, irqs@.take(0), seq![rt@]));
    assert(irqs@ =~= multi_vector_irqs());
    let mut i: usize = 0;
    while i < 3
        invariant
            i <= 3,
            irqs@ == multi_vector_irqs(),
            vector_rounds(s1, base, irqs@.take(i as int), rt@),
        decreases 3 - i,
    {
        let l2_irq = irqs[i];
        let ghost m = rt@;
        vector_round(rt, base, l2_irq);
        proof {
            lemma_vector_rounds_step(s1, base, irqs@, i as int, m, rt@);
        }
        i = i + 1;
    }
    rt.write_imask(saved_imask);
    assert(irqs@.take(3) =~= irqs@);
    assert(old(rt)@.ld(Shared::L2vicVa, base).rd(SysReg::Imask, saved_imask).wr(SysReg::Imask, saved_imask & !4u32).ev(
        Ev::RegisterInterrupt(2, IrqHandler::L2vicVector)) == s1);
    assert(old(rt)@.multiple_vectors_run(base, saved_imask, rt@));
}

/// Enabling and disabling L2 interrupt 10 through the fast L2VIC interface
/// shows in INT_ENABLE; a zero fast L2VIC base is fatal.
pub fn test_l2vic_fast_interface<M: Hexagon>(rt: &mut Runtime<M>) -> (r: Result<(), Fatal>)
    ensures
        match r {
            Ok(()) => exists|b: u32, cb: u32, raw: u32, e1: u32, e2: u32|
                #[trigger] old(rt)@.fast_interface_run(b, cb, raw, e1, e2) == final(rt)@ && raw != 0,
            Err(f) => f == Fatal::FastL2vicBaseZero && exists|b: u32, cb: u32|
                #[trigger] old(rt)@.ld(Shared::L2vicVa, b).cfg_read(CFGTABLE_FASTL2VIC_BASE, cb, 0) == final(rt)@,
        },
{
    let base = rt.shared_load(Shared::L2vicVa);
    let ghost s0 = rt@;
    let fast_raw = rt.read_cfgtable_field(CFGTABLE_FASTL2VIC_BASE);
    let ghost cb = choose|cb: u32| #[trigger] s0.cfg_read(CFGTABLE_FASTL2VIC_BASE, cb, fast_raw) == rt@;
    if fast_raw == 0 {
        assert(old(rt)@.ld(Shared::L2vicVa, base).cfg_read(CFGTABLE_FASTL2VIC_BASE, cb, 0) == rt@);
        return Err(Fatal::FastL2vicBaseZero);
    }
    let fast_base = cfg_base(fast_raw);
    let fast_vpn = vpn_of(fast_base);
    rt.install_device_mapping(fast_vpn, fast_vpn, FASTL2VIC_TLB_IDX);
    let l2_irq: u32 = 10;
    let bit = l2vic_bit(l2_irq);
    rt.l2vic_write(base, l2vic_reg(L2VIC_INT_ENABLE_CLR, l2_irq), bit);
    rt.busy_loop(10);
    rt.mmio_write(fast_base, fast_l2vic_cmd(0, l2_irq));
    rt.busy_loop(20);
    let en = rt.l2vic_read(base, l2vic_reg(L2VIC_INT_ENABLE, l2_irq));
    rt.check(en & bit != 0, "en & (1 << bit) != 0");
    rt.mmio_write(fast_base, fast_l2vic_cmd(1, l2_irq));
    rt.busy_loop(20);
    let en2 = rt.l2vic_read(base, l2vic_reg(L2VIC_INT_ENABLE, l2_irq));
    rt.check(en2 & bit == 0, "en2 & (1 << bit) == 0");
    rt.tlb_invalidate(FASTL2VIC_TLB_IDX);
    assert(old(rt)@.fast_interface_run(base, cb, fast_raw, en, en2) == rt@);
    Ok(())
}

/// The tests of this suite.
#[derive(Clone, Copy)]
pub enum L2vicTest {
    EnableReadback,
    TypeReadback,
    SoftIntPending,
    VidCapture,
    VidMultipleVectors,
    FastInterface,
}

impl TestCase for L2vicTest {
    open spec fn runs(&self, pre: RunState, post: RunState) -> bool {
        match *self {
            L2vicTest::EnableReadback => exists|v0: u32, v1: u32, v2: u32| #[trigger] pre.enable_readback_run(v0, v1, v2) == post,
            L2vicTest::TypeReadback => exists|v0: u32, v1: u32, v2: u32| #[trigger] pre.type_readback_run(v0, v1, v2) == post,
            L2vicTest::SoftIntPending => exists|v0: u32, v1: u32, v2: u32, v3: u32, v4: u32, v5: u32| #[trigger] pre.soft_int_pending_run(v0, v1, v2, v3, v4, v5) == post,
            L2vicTest::VidCapture => exists|v0: u32, v1: u32, v2: u32, v3: u32, v4: u32, v5: u32| #[trigger] pre.vid_capture_run(v0, v1, v2, v3, v4, v5) == post,
            L2vicTest::VidMultipleVectors => exists|v0: u32, v1: u32| #[trigger] pre.multiple_vectors_run(v0, v1, post),
            L2vicTest::FastInterface => exists|v0: u32, v1: u32, v2: u32, v3: u32, v4: u32| #[trigger] pre.fast_interface_run(v0, v1, v2, v3, v4) == post && v2 != 0,
        }
    }

    open spec fn aborts(&self, pre: RunState, post: RunState, f: Fatal) -> bool {
        match *self {
            L2vicTest::FastInterface => f == Fatal::FastL2vicBaseZero && exists|b: u32, cb: u32|
                #[trigger] pre.ld(Shared::L2vicVa, b).cfg_read(CFGTABLE_FASTL2VIC_BASE, cb, 0) == post,
            _ => false,
        }
    }

    open spec fn at(&self) -> &'static str {
        match *self {
            L2vicTest::EnableReadback => "src/suites/l2vic.rs:test_l2vic_enable_readback",
            L2vicTest::TypeReadback => "src/suites/l2vic.rs:test_l2vic_type_readback",
            L2vicTest::SoftIntPending => "src/suites/l2vic.rs:test_l2vic_soft_int_pending",
            L2vicTest::VidCapture => "src/suites/l2vic.rs:test_l2vic_vid_capture",
            L2vicTest::VidMultipleVectors => "src/suites/l2vic.rs:test_l2vic_vid_multiple_vectors",
            L2vicTest::FastInterface => "src/suites/l2vic.rs:test_l2vic_fast_interface",
        }
    }

    fn location(&self) -> (at: &'static str) {
        match *self {
            L2vicTest::EnableReadback => "src/suites/l2vic.rs:test_l2vic_enable_readback",
            L2vicTest::TypeReadback => "src/suites/l2vic.rs:test_l2vic_type_readback",
            L2vicTest::SoftIntPending => "src/suites/l2vic.rs:test_l2vic_soft_int_pending",
            L2vicTest::VidCapture => "src/suites/l2vic.rs:test_l2vic_vid_capture",
            L2vicTest::VidMultipleVectors => "src/suites/l2vic.rs:test_l2vic_vid_multiple_vectors",
            L2vicTest::FastInterface => "src/suites/l2vic.rs:test_l2vic_fast_interface",
        }
    }

    fn run<M: Hexagon>(&self, rt: &mut Runtime<M>) -> (r: Result<(), Fatal>) {
        match *self {
            L2vicTest::EnableReadback => {
                test_l2vic_enable_readback(rt);
                Ok(())
            },
            L2vicTest::TypeReadback => {
                test_l2vic_type_readback(rt);
                Ok(())
            },
            L2vicTest::SoftIntPending => {
                test_l2vic_soft_int_pending(rt);
                Ok(())
            },
            L2vicTest::VidCapture => {
                test_l2vic_vid_capture(rt);
                Ok(())
            },
            L2vicTest::VidMultipleVectors => {
                test_l2vic_vid_multiple_vectors(rt);
                Ok(())
            },
            L2vicTest::FastInterface => test_l2vic_fast_interface(rt),
        }
    }
}

/// The suite's tests, in the order they run.
pub open spec fn l2vic_tests() -> Seq<(&'static str, L2vicTest)> {
    seq![
        ("l2vic_enable_readback", L2vicTest::EnableReadback),
        ("l2vic_type_readback", L2vicTest::TypeReadback),
        ("l2vic_soft_int_pending", L2vicTest::SoftIntPending),
        ("l2vic_vid_capture", L2vicTest::VidCapture),
        ("l2vic_vid_multiple_vectors", L2vicTest::VidMultipleVectors),
        ("l2vic_fast_interface", L2vicTest::FastInterface),
    ]
}

/// The L2VIC suite.  The L2VIC is found and probed before the tests; the
/// mapping is removed after them.  A missing or non-functional L2VIC, or a
/// missing fast L2VIC, ends the suite with the panic line and 1.
pub fn rust_main<M: Hexagon>(rt: &mut Runtime<M>) -> (code: i32)
    ensures
        old(rt)@.suite_begin("L2VIC").l2vic_suite_ran(final(rt)@, code),
{
    rt.test_suite_begin("L2VIC");
    let ghost s0 = rt@;
    let base = match setup_l2vic(rt) {
        Ok(b) => b,
        Err(f) => {
            let ghost s = rt@;
            rt.report_fatal(f);
            assert(s0.l2vic_suite_ran(rt@, 1)) by {
                let (cb, raw) = choose|cb: u32, raw: u32| #[trigger] s0.l2vic_setup(cb, raw) == s && raw == 0;
                assert(s0.l2vic_setup_failed(cb, raw, rt@));
            }
            return 1;
        },
    };
    let ghost s1 = rt@;
    let ghost (cb, raw) = choose|cb: u32, raw: u32|
        #[trigger] s0.l2vic_setup(cb, raw) == s1 && raw != 0 && base == l2vic_base_spec(raw);
    match l2vic_probe(rt, base) {
        Ok(()) => {},
        Err(f) => {
            let ghost s = rt@;
            rt.report_fatal(f);
            assert(s0.l2vic_suite_ran(rt@, 1)) by {
                let (es, ec) = choose|es: u32, ec: u32|
                    #[trigger] s1.l2vic_probed(base, es, ec) == s && (es & 1 == 0 || ec & 1 != 0) && f
                        == Fatal::ProbeFailed { base, en_set: es, en_clr: ec };
                assert(s0.l2vic_probe_failed(cb, raw, es, ec, rt@));
            }
            return 1;
        },
    }
    let ghost s2 = rt@;
    let ghost (es, ec) = choose|es: u32, ec: u32|
        #[trigger] s1.l2vic_probed(base, es, ec) == s2 && !(es & 1 == 0 || ec & 1 != 0);
    let tests = [
        ("l2vic_enable_readback", L2vicTest::EnableReadback),
        ("l2vic_type_readback", L2vicTest::TypeReadback),
        ("l2vic_soft_int_pending", L2vicTest::SoftIntPending),
        ("l2vic_vid_capture", L2vicTest::VidCapture),
        ("l2vic_vid_multiple_vectors", L2vicTest::VidMultipleVectors),
        ("l2vic_fast_interface", L2vicTest::FastInterface),
    ];
    assert(tests@ =~= l2vic_tests());
    match rt.run_tests(&tests) {
        Ok(()) => {
            let ghost s = rt@;
            cleanup_l2vic(rt);
            let errs = rt.test_suite_end();
            assert(s0.l2vic_tests_ran(cb, raw, es, ec, rt@, errs as i32)) by {
                assert(ran_tests(s2, l2vic_tests(), s));
            }
            errs as i32
        },
        Err(f) => {
            let ghost s = rt@;
            let ghost k = choose|k: int| #[trigger] aborted_tests(s2, l2vic_tests(), k, s, f);
            rt.report_fatal(f);
            assert(s0.l2vic_tests_ran(cb, raw, es, ec, rt@, 1)) by {
                assert(aborted_tests(s2, l2vic_tests(), k, s, f));
            }
            1
        },
    }
}

/// The tests of this suite: each records exactly one error
/// for every expectation that fails and none for those that hold.  The
/// expectations of each test are the conditions counted below, over what
/// the hardware answered.
#[verifier::rlimit(80)]
#[verifier::spinoff_prover]
pub proof fn law_l2vic_tests_count_failed_expectations()
    ensures
        forall|s: RunState, base: u32, en: u32, en2: u32|
            #[trigger] s.enable_readback_run(base, en, en2).recorded() == s.recorded()
                + (if en & (l2vic_bit_spec(5)) != 0 { 0nat } else { 1nat })
                + (if en2 & (l2vic_bit_spec(5)) == 0 { 0nat } else { 1nat }),
        forall|s: RunState, base: u32, saved: u32, rb: u32|
            #[trigger] s.type_readback_run(base, saved, rb).recorded() == s.recorded()
                + (if rb & (l2vic_bit_spec(5)) != 0 { 0nat } else { 1nat }),
        forall|s: RunState, base: u32, imask: u32, ty: u32, c: u32, v: u32, ssr: u32|
            #[trigger] s.vid_capture_run(base, imask, ty, c, v, ssr).recorded() == s.recorded()
                + (if (c) >= 1 { 0nat } else { 1nat })
                + (if (v) == (5) { 0nat } else { 1nat }),
        forall|s: RunState, base: u32, cb: u32, raw: u32, en: u32, en2: u32|
            #[trigger] s.fast_interface_run(base, cb, raw, en, en2).recorded() == s.recorded()
                + (if en & (l2vic_bit_spec(10)) != 0 { 0nat } else { 1nat })
                + (if en2 & (l2vic_bit_spec(10)) == 0 { 0nat } else { 1nat }),
{
    broadcast use crate::report::group_recorded;

    assert forall|s: RunState, base: u32, en: u32, en2: u32|
        #[trigger] s.enable_readback_run(base, en, en2).recorded() == s.recorded()
            + (if en & (l2vic_bit_spec(5)) != 0 { 0nat } else { 1nat })
            + (if en2 & (l2vic_bit_spec(5)) == 0 { 0nat } else { 1nat }) by {}
    assert forall|s: RunState, base: u32, saved: u32, rb: u32|
        #[trigger] s.type_readback_run(base, saved, rb).recorded() == s.recorded()
            + (if rb & (l2vic_bit_spec(5)) != 0 { 0nat } else { 1nat }) by {}
    assert forall|s: RunState, base: u32, imask: u32, ty: u32, c: u32, v: u32, ssr: u32|
        #[trigger] s.vid_capture_run(base, imask, ty, c, v, ssr).recorded() == s.recorded()
            + (if (c) >= 1 { 0nat } else { 1nat })
            + (if (v) == (5) { 0nat } else { 1nat }) by {}
    assert forall|s: RunState, base: u32, cb: u32, raw: u32, en: u32, en2: u32|
        #[trigger] s.fast_interface_run(base, cb, raw, en, en2).recorded() == s.recorded()
            + (if en & (l2vic_bit_spec(10)) != 0 { 0nat } else { 1nat })
            + (if en2 & (l2vic_bit_spec(10)) == 0 { 0nat } else { 1nat }) by {}
}

} // verus!
