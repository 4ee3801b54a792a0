//! HVX context tests: presence, SSR.XA selection and readback, distinct
//! register files per extension context, contexts keeping their contents
//! while another is selected, a context handed from one hardware thread
//! to another, and the exception on HVX use with SSR.XE clear.  V0 is
//! always read back out of the register file after SSR.XA changes, so a
//! core that ignored SSR.XA would fail.

use vstd::prelude::*;
use crate::console::{dec, hexw, nl, text};
use crate::machine::{Ev, ExcField, Hexagon, RunState, Runtime, Shared, SysReg, ThreadEntry};
use crate::regs::{
    ssr_select_xa, ssr_select_xa_spec, CAUSE_NO_COPROC_ENABLE, CFGTABLE_COPROC_PRESENT, CFGTABLE_EXT_CONTEXTS,
    SSR_SS, SSR_XA_MASK, SSR_XA_SHIFT, SSR_XE,
};
use crate::report::{Fatal, TestCase};
use crate::runtime::{equals, poll_hit, poll_run, thread_bit_clear};
use crate::suites::common::wait_flag_checked;

verus! {

/// How many times thread 1's flag, or MODECTL, is polled.
pub const HVX_WAIT_LIMIT: u32 = 50000;

/// The index of the first word of `words`, from `from` on, that differs
/// from word 0; the length if there is none.
pub open spec fn first_mismatch(words: Seq<u32>, from: int) -> int
    decreases words.len() - from,
{
    if from >= words.len() {
        words.len() as int
    } else if words[from] != words[0] {
        from
    } else {
        first_mismatch(words, from + 1)
    }
}

/// The index of the first word of `words`, from `from` on, that differs
/// from `expected`; the length if there is none.
pub open spec fn first_unequal(words: Seq<u32>, expected: u32, from: int) -> int
    decreases words.len() - from,
{
    if from >= words.len() {
        words.len() as int
    } else if words[from] != expected {
        from
    } else {
        first_unequal(words, expected, from + 1)
    }
}

/// Every lane of a V0 store agrees with lane 0.
pub open spec fn lanes_agree(words: Seq<u32>) -> bool {
    forall|i: int| 1 <= i < words.len() ==> #[trigger] words[i] == words[0]
}

/// Every word of a buffer holds `expected`.
pub open spec fn all_words(words: Seq<u32>, expected: u32) -> bool {
    forall|i: int| 0 <= i < words.len() ==> #[trigger] words[i] == expected
}

proof fn lemma_first_mismatch(words: Seq<u32>, from: int)
    requires
        1 <= from,
    ensures
        first_mismatch(words, from) < words.len() <==> exists|i: int| from <= i < words.len() && #[trigger] words[i]
            != words[0],
    decreases words.len() - from,
{
    if from < words.len() && words[from] == words[0] {
        lemma_first_mismatch(words, from + 1);
        if exists|i: int| from <= i < words.len() && #[trigger] words[i] != words[0] {
            let i = choose|i: int| from <= i < words.len() && #[trigger] words[i] != words[0];
            assert(from + 1 <= i);
        }
    }
}

proof fn lemma_first_unequal(words: Seq<u32>, expected: u32, from: int)
    requires
        0 <= from,
    ensures
        first_unequal(words, expected, from) < words.len() <==> exists|i: int| from <= i < words.len()
            && #[trigger] words[i] != expected,
    decreases words.len() - from,
{
    if from < words.len() && words[from] == expected {
        lemma_first_unequal(words, expected, from + 1);
        if exists|i: int| from <= i < words.len() && #[trigger] words[i] != expected {
            let i = choose|i: int| from <= i < words.len() && #[trigger] words[i] != expected;
            assert(from + 1 <= i);
        }
    }
}

/// Checking the lanes of a V0 store records one error exactly when some
/// lane differs from lane 0.
pub broadcast proof fn lemma_recorded_lanes_checked(t: RunState, words: Seq<u32>)
    ensures
        #[trigger] t.lanes_checked(words).recorded() == t.recorded() + if lanes_agree(words) { 0nat } else { 1nat },
{
    broadcast use crate::report::group_recorded;

    lemma_first_mismatch(words, 1);
}

/// Checking a buffer records one error exactly when some word differs from
/// the expected value.
pub broadcast proof fn lemma_recorded_buf_checked(t: RunState, words: Seq<u32>, expected: u32)
    ensures
        #[trigger] t.buf_checked(words, expected).recorded() == t.recorded() + if all_words(words, expected) {
            0nat
        } else {
            1nat
        },
{
    broadcast use crate::report::group_recorded;

    lemma_first_unequal(words, expected, 0);
}

/// The errors recorded by this suite's V0 checks.
pub broadcast group group_hvx_recorded {
    lemma_recorded_lanes_checked,
    lemma_recorded_buf_checked,
}

/// One read of V0: the SSR value it started from and the 32 words stored.
pub struct V0Read {
    pub ssr: u32,
    pub words: Seq<u32>,
}

impl V0Read {
    /// Lane 0, the value the read returns.
    pub open spec fn value(self) -> u32 {
        self.words[0]
    }
}

/// A 128-byte buffer for vector stores, seen as 32 words.
pub struct HvxBuf {
    pub words: [u32; 32],
}

impl RunState {
    /// Report the first lane of a V0 store that differs from lane 0.
    pub open spec fn lanes_checked(self, words: Seq<u32>) -> RunState {
        let i = first_mismatch(words, 1);
        if i < words.len() {
            self.out(text("FAIL: v0 lane ")).out(dec(i as nat)).out(text(" = 0x")).out(hexw(words[i] as nat, 8)).out(
                text(" but lane 0 = 0x"),
            ).out(hexw(words[0] as nat, 8)).out(nl()).error()
        } else {
            self
        }
    }

    /// Report the first word of a buffer that differs from `expected`.
    pub open spec fn buf_checked(self, words: Seq<u32>, expected: u32) -> RunState {
        let i = first_unequal(words, expected, 0);
        if i < words.len() {
            self.out(text("FAIL: buf word[")).out(dec(i as nat)).out(text("] = 0x")).out(hexw(words[i] as nat, 8)).out(
                text(", expected 0x"),
            ).out(hexw(expected as nat, 8)).out(nl()).error()
        } else {
            self
        }
    }

    /// Select context `xa` (SSR read as `ssr`), set V0 to a splat of
    /// `val`, and disable HVX again.
    pub open spec fn v0_splatted(self, ssr: u32, xa: u32, val: u32) -> RunState {
        self.rd(SysReg::Ssr, ssr).ev(Ev::HvxV0Splat(ssr_select_xa_spec(ssr, xa), val, ssr & !SSR_XE))
    }

    /// Select context `xa`, store V0, disable HVX, and check all lanes
    /// agree with lane 0.
    pub open spec fn v0_read(self, xa: u32, r: V0Read) -> RunState {
        self.rd(SysReg::Ssr, r.ssr).ev(Ev::HvxV0Store(ssr_select_xa_spec(r.ssr, xa), r.ssr & !SSR_XE, r.words)).lanes_checked(
            r.words,
        )
    }

    /// Read V0 of context `xa` and check it holds `expected`.
    pub open spec fn v0_expect(self, xa: u32, r: V0Read, expected: u32) -> RunState {
        self.v0_read(xa, r).check32(r.value(), expected)
    }

    /// Write XA values `0` to `rbs.len() - 1` over `base` in turn, reading
    /// SSR back (as `rbs`) and checking XA took the value and neither
    /// SSR.SS nor SSR.XE changed.
    pub open spec fn xa_rounds(self, base: u32, rbs: Seq<u32>) -> RunState
        decreases rbs.len(),
    {
        if rbs.len() == 0 {
            self
        } else {
            let xa = (rbs.len() - 1) as u32;
            let rb = rbs.last();
            self.xa_rounds(base, rbs.drop_last()).wr(SysReg::Ssr, base | ((xa << SSR_XA_SHIFT) as u32)).rd(
                SysReg::Ssr,
                rb,
            ).check32((rb & SSR_XA_MASK) >> SSR_XA_SHIFT, xa).check32(rb & SSR_SS, base & SSR_SS).check32(rb & SSR_XE, 0)
        }
    }

    /// Thread 1's isolation entry: fill V0 of context 1 and read it back,
    /// then report done.
    pub open spec fn hvx_context_thread_run(self, ssr: u32, r: V0Read) -> RunState {
        self.v0_splatted(ssr, 1, 0xBBBB_BBBB).v0_read(1, r).st(Shared::T1Flag, 1)
    }

    /// Thread 1's hand-off entry: report what contexts 0 and 1 hold, leave
    /// a new value in context 1, and report done.
    pub open spec fn hvx_handoff_thread_run(self, r0: V0Read, r1: V0Read, ssr: u32) -> RunState {
        self.v0_read(0, r0).st(Shared::T1SawCtx0, r0.value()).v0_read(1, r1).st(Shared::T1SawCtx1, r1.value()).v0_splatted(
            ssr,
            1,
            0xD00D_FEED,
        ).st(Shared::T1Flag, 1)
    }

    pub open spec fn hvx_present_run(self, cb1: u32, present: u32, cb2: u32, contexts: u32) -> RunState {
        self.cfg_read(CFGTABLE_COPROC_PRESENT, cb1, present).check(present & 1 != 0, "present & 1 != 0").cfg_read(
            CFGTABLE_EXT_CONTEXTS,
            cb2,
            contexts,
        ).check(contexts >= 1, "contexts >= 1")
    }

    pub open spec fn ssr_xa_readback_run(self, saved: u32, rbs: Seq<u32>) -> RunState {
        self.rd(SysReg::Ssr, saved).xa_rounds(saved & !(SSR_XA_MASK | SSR_XE), rbs).wr(SysReg::Ssr, saved)
    }

    pub open spec fn hvx_vsplat_store_run(self, words: Seq<u32>) -> RunState {
        self.ev(Ev::HvxSplatStore(0xDEAD_BEEF, words)).buf_checked(words, 0xDEAD_BEEF)
    }

    pub open spec fn hvx_context_isolation_run(
        self,
        saved: u32,
        x: u32,
        r1: V0Read,
        o1: Seq<u32>,
        o2: Seq<u32>,
        r2: V0Read,
    ) -> RunState {
        self.st(Shared::T1Flag, 0).rd(SysReg::Ssr, saved).v0_splatted(x, 0, 0xAAAA_AAAA).v0_expect(0, r1, 0xAAAA_AAAA).entry(
            1,
            ThreadEntry::HvxContext,
        ).start(2).flag_checked(Shared::T1Flag, 1, "ok", o1).stop_polled(1, o2).v0_expect(0, r2, 0xAAAA_AAAA).wr(
            SysReg::Ssr,
            saved,
        )
    }

    pub open spec fn hvx_xe_disable_exception_run(self, saved: u32, count: u32, cause: u32) -> RunState {
        self.ev(Ev::ResetExceptions).rd(SysReg::Ssr, saved).wr(SysReg::Ssr, saved & !SSR_XE).ev(Ev::HvxProbe).ev(
            Ev::ReadException(ExcField::Count, count),
        ).check32(count, 1).ev(Ev::ReadException(ExcField::Cause, cause)).check32(cause, CAUSE_NO_COPROC_ENABLE).wr(
            SysReg::Ssr,
            saved,
        )
    }

    pub open spec fn hvx_context_switch_xa_run(
        self,
        saved: u32,
        x0: u32,
        r1: V0Read,
        r2: V0Read,
        x1: u32,
        r3: V0Read,
        r4: V0Read,
        r5: V0Read,
    ) -> RunState {
        self.rd(SysReg::Ssr, saved).v0_splatted(x0, 0, 0xAAAA_AAAA).v0_expect(0, r1, 0xAAAA_AAAA).v0_read(1, r2).check32_ne(
            r2.value(),
            0xAAAA_AAAA,
        ).v0_splatted(x1, 1, 0xBBBB_BBBB).v0_expect(1, r3, 0xBBBB_BBBB).v0_expect(0, r4, 0xAAAA_AAAA).v0_expect(
            1,
            r5,
            0xBBBB_BBBB,
        ).wr(SysReg::Ssr, saved)
    }

    pub open spec fn hvx_context_handoff_run(
        self,
        saved: u32,
        x: u32,
        r1: V0Read,
        o1: Seq<u32>,
        o2: Seq<u32>,
        a: u32,
        b: u32,
        r2: V0Read,
    ) -> RunState {
        self.st(Shared::T1Flag, 0).st(Shared::T1SawCtx0, 0).st(Shared::T1SawCtx1, 0).rd(SysReg::Ssr, saved).v0_splatted(
            x,
            1,
            0xC0FF_EE00,
        ).v0_expect(1, r1, 0xC0FF_EE00).entry(1, ThreadEntry::HvxHandoff).start(2).flag_checked(
            Shared::T1Flag,
            1,
            "ok",
            o1,
        ).stop_polled(1, o2).ld(Shared::T1SawCtx0, a).check32_ne(a, 0xC0FF_EE00).ld(Shared::T1SawCtx1, b).check32(
            b,
            0xC0FF_EE00,
        ).v0_expect(1, r2, 0xD00D_FEED).wr(SysReg::Ssr, saved)
    }

    /// The suite after its thread check passed: the HVX check, then the
    /// tests, or the summary alone if HVX falls short.
    pub open spec fn hvx_suite_ran(self, post: RunState, code: i32) -> bool {
        exists|mid: RunState, ok: bool|
            #[trigger] self.hvx_required(2, ok, mid) && if ok {
                mid.suite_ran(hvx_tests(), post, code)
            } else {
                mid.summarized(post, code)
            }
    }
}

/// The register traffic of the XA readback rounds alone: each XA value
/// written over `base` and SSR read back (as `rbs`).
pub open spec fn xa_traffic(pre: RunState, base: u32, rbs: Seq<u32>) -> RunState
    decreases rbs.len(),
{
    if rbs.len() == 0 {
        pre
    } else {
        let xa = (rbs.len() - 1) as u32;
        xa_traffic(pre, base, rbs.drop_last()).wr(SysReg::Ssr, base | ((xa << SSR_XA_SHIFT) as u32)).rd(
            SysReg::Ssr,
            rbs.last(),
        )
    }
}

/// On an SSR that reads back what was written, the XA readback rounds
/// print nothing and record no error: every XA value round-trips through
/// bits 29:27 without touching SS or XE.
pub proof fn law_ssr_xa_readback_clean(pre: RunState, base: u32, rbs: Seq<u32>)
    requires
        base & (SSR_XA_MASK | SSR_XE) == 0,
        rbs.len() <= 8,
        forall|i: int| 0 <= i < rbs.len() ==> #[trigger] rbs[i] == base | (((i as u32) << SSR_XA_SHIFT) as u32),
    ensures
        pre.xa_rounds(base, rbs) == xa_traffic(pre, base, rbs),
    decreases rbs.len(),
{
    if rbs.len() > 0 {
        let xa = (rbs.len() - 1) as u32;
        let rb = rbs.last();
        assert(rb == rbs[rbs.len() - 1]);
        assert(forall|i: int| 0 <= i < rbs.drop_last().len() ==> #[trigger] rbs.drop_last()[i] == rbs[i]);
        law_ssr_xa_readback_clean(pre, base, rbs.drop_last());
        assert(((rb & 0x3800_0000u32) >> 27u32) == xa && rb & 0x4000_0000u32 == base & 0x4000_0000u32 && rb
            & 0x8000_0000u32 == 0) by (bit_vector)
            requires
                base & (0x3800_0000u32 | 0x8000_0000u32) == 0,
                xa < 8,
                rb == base | ((xa << 27u32) as u32),
        ;
    }
}

/// A read of V0 stored 32 words.
pub open spec fn read_ok(r: V0Read) -> bool {
    r.words.len() == 32
}

impl HvxBuf {
    /// A buffer of zeros.
    pub fn zeroed() -> (b: HvxBuf)
        ensures
            b.words@ == Seq::new(32, |i: int| 0u32),
    {
        let b = HvxBuf {
            words: [
                0u32, 0, 0, 0, 0, 0, 0, 0, 0, 0, 0, 0, 0, 0, 0, 0,
                0, 0, 0, 0, 0, 0, 0, 0, 0, 0, 0, 0, 0, 0, 0, 0,
            ],
        };
        assert(b.words@ =~= Seq::new(32, |i: int| 0u32));
        b
    }

    /// Check that every word of the buffer is `expected`; report the
    /// first that is not.
    pub fn check_all_words<M: Hexagon>(&self, rt: &mut Runtime<M>, expected: u32)
        ensures
            final(rt)@ == old(rt)@.buf_checked(self.words@, expected),
    {
        let mut i: usize = 0;
        while i < 32 && self.words[i] == expected
            invariant
                i <= 32,
                self.words@.len() == 32,
                first_unequal(self.words@, expected, 0) == first_unequal(self.words@, expected, i as int),
            decreases 32 - i,
        {
            i = i + 1;
        }
        if i < 32 {
            let v = self.words[i];
            rt.puts("FAIL: buf word[");
            rt.put_dec(i as u64);
            rt.puts("] = 0x");
            rt.put_hexw(v as u64, 8);
            rt.puts(", expected 0x");
            rt.put_hexw(expected as u64, 8);
            rt.newline();
            rt.count_error();
        }
    }
}

/// Select context `xa`, set V0 to a splat of `val`, and disable HVX again.
pub fn v0_splat<M: Hexagon>(rt: &mut Runtime<M>, xa: u32, val: u32)
    ensures
        exists|s: u32| #[trigger] old(rt)@.v0_splatted(s, xa, val) == final(rt)@,
{
    let ssr = rt.read_ssr();
    let selected = ssr_select_xa(ssr, xa);
    let disabled = ssr & !SSR_XE;
    rt.hvx_v0_splat(selected, val, disabled);
    assert(old(rt)@.v0_splatted(ssr, xa, val) == rt@);
}

/// Select context `xa`, store V0, disable HVX again, check all lanes agree
/// with lane 0 (reporting the first that does not), and return lane 0.
pub fn v0_readback<M: Hexagon>(rt: &mut Runtime<M>, xa: u32) -> (w0: u32)
    ensures
        exists|r: V0Read| #[trigger] old(rt)@.v0_read(xa, r) == final(rt)@ && read_ok(r) && w0 == r.value(),
{
    let ssr = rt.read_ssr();
    let selected = ssr_select_xa(ssr, xa);
    let disabled = ssr & !SSR_XE;
    let words = rt.hvx_v0_store(selected, disabled);
    let ghost r = V0Read { ssr, words: words@ };
    let w0 = words[0];
    let mut i: usize = 1;
    while i < 32 && words[i] == w0
        invariant
            1 <= i <= 32,
            words@.len() == 32,
            w0 == words@[0],
            first_mismatch(words@, 1) == first_mismatch(words@, i as int),
        decreases 32 - i,
    {
        i = i + 1;
    }
    if i < 32 {
        let w = words[i];
        rt.puts("FAIL: v0 lane ");
        rt.put_dec(i as u64);
        rt.puts(" = 0x");
        rt.put_hexw(w as u64, 8);
        rt.puts(" but lane 0 = 0x");
        rt.put_hexw(w0 as u64, 8);
        rt.newline();
        rt.count_error();
    }
    assert(old(rt)@.v0_read(xa, r) == rt@);
    w0
}

/// Thread 1's entry for the isolation test: fill V0 of context 1 with
/// `0xBBBB_BBBB`, read it back, and report done.
pub fn thread1_hvx_context<M: Hexagon>(rt: &mut Runtime<M>)
    ensures
        exists|x: u32, r: V0Read| #[trigger] old(rt)@.hvx_context_thread_run(x, r) == final(rt)@ && read_ok(r),
{
    v0_splat(rt, 1, 0xBBBB_BBBB);
    let ghost x = choose|s: u32| #[trigger] old(rt)@.v0_splatted(s, 1, 0xBBBB_BBBB) == rt@;
    let ghost s1 = rt@;
    let _ = v0_readback(rt, 1);
    let ghost r = choose|r: V0Read| #[trigger] s1.v0_read(1, r) == rt@ && read_ok(r);
    rt.shared_store(Shared::T1Flag, 1);
    assert(old(rt)@.hvx_context_thread_run(x, r) == rt@);
}

/// Thread 1's entry for the hand-off test: report what contexts 0 and 1
/// hold, leave `0xD00D_FEED` in context 1, and report done.
pub fn thread1_hvx_handoff<M: Hexagon>(rt: &mut Runtime<M>)
    ensures
        exists|r0: V0Read, r1: V0Read, x: u32|
            #[trigger] old(rt)@.hvx_handoff_thread_run(r0, r1, x) == final(rt)@ && read_ok(r0) && read_ok(r1),
{
    let v0 = v0_readback(rt, 0);
    let ghost r0 = choose|r: V0Read| #[trigger] old(rt)@.v0_read(0, r) == rt@ && read_ok(r) && v0 == r.value();
    rt.shared_store(Shared::T1SawCtx0, v0);
    let ghost s1 = rt@;
    let v1 = v0_readback(rt, 1);
    let ghost r1 = choose|r: V0Read| #[trigger] s1.v0_read(1, r) == rt@ && read_ok(r) && v1 == r.value();
    rt.shared_store(Shared::T1SawCtx1, v1);
    let ghost s2 = rt@;
    v0_splat(rt, 1, 0xD00D_FEED);
    let ghost x = choose|s: u32| #[trigger] s2.v0_splatted(s, 1, 0xD00D_FEED) == rt@;
    rt.shared_store(Shared::T1Flag, 1);
    assert(old(rt)@.hvx_handoff_thread_run(r0, r1, x) == rt@);
}

/// Read V0 of context `xa` and check it holds `expected`.
fn v0_expect<M: Hexagon>(rt: &mut Runtime<M>, xa: u32, expected: u32)
    ensures
        exists|r: V0Read| #[trigger] old(rt)@.v0_expect(xa, r, expected) == final(rt)@ && read_ok(r),
{
    let v = v0_readback(rt, xa);
    let ghost r = choose|r: V0Read| #[trigger] old(rt)@.v0_read(xa, r) == rt@ && read_ok(r) && v == r.value();
    rt.check32(v, expected);
    assert(old(rt)@.v0_expect(xa, r, expected) == rt@);
}

/// The configuration table shows HVX present with at least one context.
pub fn test_hvx_present<M: Hexagon>(rt: &mut Runtime<M>)
    ensures
        exists|cb1: u32, p: u32, cb2: u32, c: u32| #[trigger] old(rt)@.hvx_present_run(cb1, p, cb2, c) == final(rt)@,
{
    let present = rt.read_cfgtable_field(CFGTABLE_COPROC_PRESENT);
    let ghost cb1 = choose|cb: u32| #[trigger] old(rt)@.cfg_read(CFGTABLE_COPROC_PRESENT, cb, present) == rt@;
    rt.check(present & 1 != 0, "present & 1 != 0");
    let ghost s1 = rt@;
    let contexts = rt.read_cfgtable_field(CFGTABLE_EXT_CONTEXTS);
    let ghost cb2 = choose|cb: u32| #[trigger] s1.cfg_read(CFGTABLE_EXT_CONTEXTS, cb, contexts) == rt@;
    rt.check(contexts >= 1, "contexts >= 1");
    assert(old(rt)@.hvx_present_run(cb1, present, cb2, contexts) == rt@);
}

/// All eight SSR.XA encodings read back, and none disturbs SSR.SS or
/// SSR.XE.  HVX stays disabled: an encoding beyond the available contexts
/// need not name a usable one.
pub fn test_ssr_xa_readback<M: Hexagon>(rt: &mut Runtime<M>)
    ensures
        exists|saved: u32, rbs: Seq<u32>| #[trigger] old(rt)@.ssr_xa_readback_run(saved, rbs) == final(rt)@ && rbs.len() == 8,
{
    let saved = rt.read_ssr();
    let base = saved & !(SSR_XA_MASK | SSR_XE);
    let ghost s1 = rt@;
    let ghost mut rbs: Seq<u32> = Seq::empty();
    for xa in 0..8u32
        invariant
            base == saved & !(SSR_XA_MASK | SSR_XE),
            rbs.len() == xa,
            rt@ == s1.xa_rounds(base, rbs),
    {
        rt.write_ssr(base | (xa << SSR_XA_SHIFT));
        let rb = rt.read_ssr();
        rt.check32((rb & SSR_XA_MASK) >> SSR_XA_SHIFT, xa);
        rt.check32(rb & SSR_SS, base & SSR_SS);
        rt.check32(rb & SSR_XE, 0);
        proof {
            let rbs2 = rbs.push(rb);
            assert(rbs2.drop_last() =~= rbs);
            rbs = rbs2;
        }
    }
    rt.write_ssr(saved);
    assert(old(rt)@.ssr_xa_readback_run(saved, rbs) == rt@);
}

/// A splat of `0xDEAD_BEEF` stored to memory fills all 32 words.
pub fn test_hvx_vsplat_store<M: Hexagon>(rt: &mut Runtime<M>)
    ensures
        exists|words: Seq<u32>| #[trigger] old(rt)@.hvx_vsplat_store_run(words) == final(rt)@ && words.len() == 32,
{
    let mut buf = HvxBuf::zeroed();
    buf.words = rt.hvx_splat_store(0xDEAD_BEEF);
    buf.check_all_words(rt, 0xDEAD_BEEF);
    assert(old(rt)@.hvx_vsplat_store_run(buf.words@) == rt@);
}

/// Thread 1 filling V0 of context 1 leaves thread 0's V0 in context 0
/// untouched.
pub fn test_hvx_context_isolation<M: Hexagon>(rt: &mut Runtime<M>)
    ensures
        exists|saved: u32, x: u32, r1: V0Read, o1: Seq<u32>, o2: Seq<u32>, r2: V0Read| #[trigger] old(rt)@.hvx_context_isolation_run(saved, x, r1, o1, o2, r2) == final(rt)@ && read_ok(r1) && read_ok(r2) && poll_run(equals(1), HVX_WAIT_LIMIT, o1) && poll_run(thread_bit_clear(1), HVX_WAIT_LIMIT, o2),
{
    rt.shared_store(Shared::T1Flag, 0);
    let saved_ssr = rt.read_ssr();
    let ghost s1 = rt@;
    v0_splat(rt, 0, 0xAAAA_AAAA);
    let ghost x = choose|s: u32| #[trigger] s1.v0_splatted(s, 0, 0xAAAA_AAAA) == rt@;
    let ghost s2 = rt@;
    v0_expect(rt, 0, 0xAAAA_AAAA);
    let ghost r1 = choose|r: V0Read| #[trigger] s2.v0_expect(0, r, 0xAAAA_AAAA) == rt@ && read_ok(r);
    rt.set_thread_entry(1, Some(ThreadEntry::HvxContext));
    rt.start_threads(1 << 1);
    assert(1u32 << 1u32 == 2) by (bit_vector);
    let ghost s3 = rt@;
    wait_flag_checked(rt, Shared::T1Flag, 1, HVX_WAIT_LIMIT, "ok");
    let ghost o1 = choose|o: Seq<u32>|
        #[trigger] s3.flag_checked(Shared::T1Flag, 1, "ok", o) == rt@ && poll_run(equals(1), HVX_WAIT_LIMIT, o);
    let ghost s4 = rt@;
    let _ = rt.wait_for_thread_stopped(1, HVX_WAIT_LIMIT);
    let ghost o2 = choose|o: Seq<u32>|
        #![trigger s4.stop_polled(1, o)]
        poll_run(thread_bit_clear(1), HVX_WAIT_LIMIT, o) && rt@ == s4.stop_polled(1, o);
    let ghost s5 = rt@;
    v0_expect(rt, 0, 0xAAAA_AAAA);
    let ghost r2 = choose|r: V0Read| #[trigger] s5.v0_expect(0, r, 0xAAAA_AAAA) == rt@ && read_ok(r);
    rt.write_ssr(saved_ssr);
    assert(old(rt)@.hvx_context_isolation_run(saved_ssr, x, r1, o1, o2, r2) == rt@);
}

/// An HVX instruction with SSR.XE clear raises exactly one exception, with
/// the coprocessor-disabled cause.
pub fn test_hvx_xe_disable_exception<M: Hexagon>(rt: &mut Runtime<M>)
    ensures
        exists|saved: u32, count: u32, cause: u32| #[trigger] old(rt)@.hvx_xe_disable_exception_run(saved, count, cause) == final(rt)@,
{
    rt.reset_exception_state();
    let saved_ssr = rt.read_ssr();
    rt.write_ssr(saved_ssr & !SSR_XE);
    rt.hvx_probe_insn();
    let count = rt.get_exception_count();
    rt.check32(count, 1);
    let cause = rt.get_exception_cause();
    rt.check32(cause, CAUSE_NO_COPROC_ENABLE);
    rt.write_ssr(saved_ssr);
    assert(old(rt)@.hvx_xe_disable_exception_run(saved_ssr, count, cause) == rt@);
}

/// One thread moving between contexts 0 and 1: each keeps its own V0.
pub fn test_hvx_context_switch_xa<M: Hexagon>(rt: &mut Runtime<M>)
    ensures
        exists|saved: u32, x0: u32, r1: V0Read, r2: V0Read, x1: u32, r3: V0Read, r4: V0Read, r5: V0Read| #[trigger] old(rt)@.hvx_context_switch_xa_run(saved, x0, r1, r2, x1, r3, r4, r5) == final(rt)@ && read_ok(r1) && read_ok(r2) && read_ok(r3) && read_ok(r4) && read_ok(r5),
{
    let saved_ssr = rt.read_ssr();
    let ghost s1 = rt@;
    v0_splat(rt, 0, 0xAAAA_AAAA);
    let ghost x0 = choose|s: u32| #[trigger] s1.v0_splatted(s, 0, 0xAAAA_AAAA) == rt@;
    let ghost s2 = rt@;
    v0_expect(rt, 0, 0xAAAA_AAAA);
    let ghost r1 = choose|r: V0Read| #[trigger] s2.v0_expect(0, r, 0xAAAA_AAAA) == rt@ && read_ok(r);
    let ghost s3 = rt@;
    let other = v0_readback(rt, 1);
    let ghost r2 = choose|r: V0Read| #[trigger] s3.v0_read(1, r) == rt@ && read_ok(r) && other == r.value();
    rt.check32_ne(other, 0xAAAA_AAAA);
    let ghost s4 = rt@;
    v0_splat(rt, 1, 0xBBBB_BBBB);
    let ghost x1 = choose|s: u32| #[trigger] s4.v0_splatted(s, 1, 0xBBBB_BBBB) == rt@;
    let ghost s5 = rt@;
    v0_expect(rt, 1, 0xBBBB_BBBB);
    let ghost r3 = choose|r: V0Read| #[trigger] s5.v0_expect(1, r, 0xBBBB_BBBB) == rt@ && read_ok(r);
    let ghost s6 = rt@;
    v0_expect(rt, 0, 0xAAAA_AAAA);
    let ghost r4 = choose|r: V0Read| #[trigger] s6.v0_expect(0, r, 0xAAAA_AAAA) == rt@ && read_ok(r);
    let ghost s7 = rt@;
    v0_expect(rt, 1, 0xBBBB_BBBB);
    let ghost r5 = choose|r: V0Read| #[trigger] s7.v0_expect(1, r, 0xBBBB_BBBB) == rt@ && read_ok(r);
    rt.write_ssr(saved_ssr);
    assert(old(rt)@.hvx_context_switch_xa_run(saved_ssr, x0, r1, r2, x1, r3, r4, r5) == rt@);
}

/// A context handed from thread 0 to thread 1 and back keeps what each
/// left in it, and context 0 never sees it.
pub fn test_hvx_context_handoff<M: Hexagon>(rt: &mut Runtime<M>)
    ensures
        exists|saved: u32, x: u32, r1: V0Read, o1: Seq<u32>, o2: Seq<u32>, a: u32, b: u32, r2: V0Read| #[trigger] old(rt)@.hvx_context_handoff_run(saved, x, r1, o1, o2, a, b, r2) == final(rt)@ && read_ok(r1) && read_ok(r2) && poll_run(equals(1), HVX_WAIT_LIMIT, o1) && poll_run(thread_bit_clear(1), HVX_WAIT_LIMIT, o2),
{
    rt.shared_store(Shared::T1Flag, 0);
    rt.shared_store(Shared::T1SawCtx0, 0);
    rt.shared_store(Shared::T1SawCtx1, 0);
    let saved_ssr = rt.read_ssr();
    let ghost s1 = rt@;
    v0_splat(rt, 1, 0xC0FF_EE00);
    let ghost x = choose|s: u32| #[trigger] s1.v0_splatted(s, 1, 0xC0FF_EE00) == rt@;
    let ghost s2 = rt@;
    v0_expect(rt, 1, 0xC0FF_EE00);
    let ghost r1 = choose|r: V0Read| #[trigger] s2.v0_expect(1, r, 0xC0FF_EE00) == rt@ && read_ok(r);
    rt.set_thread_entry(1, Some(ThreadEntry::HvxHandoff));
    rt.start_threads(1 << 1);
    assert(1u32 << 1u32 == 2) by (bit_vector);
    let ghost s3 = rt@;
    wait_flag_checked(rt, Shared::T1Flag, 1, HVX_WAIT_LIMIT, "ok");
    let ghost o1 = choose|o: Seq<u32>|
        #[trigger] s3.flag_checked(Shared::T1Flag, 1, "ok", o) == rt@ && poll_run(equals(1), HVX_WAIT_LIMIT, o);
    let ghost s4 = rt@;
    let _ = rt.wait_for_thread_stopped(1, HVX_WAIT_LIMIT);
    let ghost o2 = choose|o: Seq<u32>|
        #![trigger s4.stop_polled(1, o)]
        poll_run(thread_bit_clear(1), HVX_WAIT_LIMIT, o) && rt@ == s4.stop_polled(1, o);
    let a = rt.shared_load(Shared::T1SawCtx0);
    rt.check32_ne(a, 0xC0FF_EE00);
    let b = rt.shared_load(Shared::T1SawCtx1);
    rt.check32(b, 0xC0FF_EE00);
    let ghost s5 = rt@;
    v0_expect(rt, 1, 0xD00D_FEED);
    let ghost r2 = choose|r: V0Read| #[trigger] s5.v0_expect(1, r, 0xD00D_FEED) == rt@ && read_ok(r);
    rt.write_ssr(saved_ssr);
    assert(old(rt)@.hvx_context_handoff_run(saved_ssr, x, r1, o1, o2, a, b, r2) == rt@);
}

/// The tests of this suite.
#[derive(Clone, Copy)]
pub enum HvxTest {
    HvxPresent,
    SsrXaReadback,
    HvxVsplatStore,
    HvxContextIsolation,
    HvxXeDisableException,
    HvxContextSwitchXa,
    HvxContextHandoff,
}

impl TestCase for HvxTest {
    open spec fn runs(&self, pre: RunState, post: RunState) -> bool {
        match *self {
            HvxTest::HvxPresent => exists|cb1: u32, p: u32, cb2: u32, c: u32| #[trigger] pre.hvx_present_run(cb1, p, cb2, c) == post,
            HvxTest::SsrXaReadback => exists|saved: u32, rbs: Seq<u32>| #[trigger] pre.ssr_xa_readback_run(saved, rbs) == post && rbs.len() == 8,
            HvxTest::HvxVsplatStore => exists|words: Seq<u32>| #[trigger] pre.hvx_vsplat_store_run(words) == post && words.len() == 32,
            HvxTest::HvxContextIsolation => exists|saved: u32, x: u32, r1: V0Read, o1: Seq<u32>, o2: Seq<u32>, r2: V0Read| #[trigger] pre.hvx_context_isolation_run(saved, x, r1, o1, o2, r2) == post && read_ok(r1) && read_ok(r2) && poll_run(equals(1), HVX_WAIT_LIMIT, o1) && poll_run(thread_bit_clear(1), HVX_WAIT_LIMIT, o2),
            HvxTest::HvxXeDisableException => exists|saved: u32, count: u32, cause: u32| #[trigger] pre.hvx_xe_disable_exception_run(saved, count, cause) == post,
            HvxTest::HvxContextSwitchXa => exists|saved: u32, x0: u32, r1: V0Read, r2: V0Read, x1: u32, r3: V0Read, r4: V0Read, r5: V0Read| #[trigger] pre.hvx_context_switch_xa_run(saved, x0, r1, r2, x1, r3, r4, r5) == post && read_ok(r1) && read_ok(r2) && read_ok(r3) && read_ok(r4) && read_ok(r5),
            HvxTest::HvxContextHandoff => exists|saved: u32, x: u32, r1: V0Read, o1: Seq<u32>, o2: Seq<u32>, a: u32, b: u32, r2: V0Read| #[trigger] pre.hvx_context_handoff_run(saved, x, r1, o1, o2, a, b, r2) == post && read_ok(r1) && read_ok(r2) && poll_run(equals(1), HVX_WAIT_LIMIT, o1) && poll_run(thread_bit_clear(1), HVX_WAIT_LIMIT, o2),
        }
    }

    open spec fn aborts(&self, pre: RunState, post: RunState, f: Fatal) -> bool {
        false
    }

    open spec fn at(&self) -> &'static str {
        match *self {
            HvxTest::HvxPresent => "src/suites/hvx_context.rs:test_hvx_present",
            HvxTest::SsrXaReadback => "src/suites/hvx_context.rs:test_ssr_xa_readback",
            HvxTest::HvxVsplatStore => "src/suites/hvx_context.rs:test_hvx_vsplat_store",
            HvxTest::HvxContextIsolation => "src/suites/hvx_context.rs:test_hvx_context_isolation",
            HvxTest::HvxXeDisableException => "src/suites/hvx_context.rs:test_hvx_xe_disable_exception",
            HvxTest::HvxContextSwitchXa => "src/suites/hvx_context.rs:test_hvx_context_switch_xa",
            HvxTest::HvxContextHandoff => "src/suites/hvx_context.rs:test_hvx_context_handoff",
        }
    }

    fn location(&self) -> (at: &'static str) {
        match *self {
            HvxTest::HvxPresent => "src/suites/hvx_context.rs:test_hvx_present",
            HvxTest::SsrXaReadback => "src/suites/hvx_context.rs:test_ssr_xa_readback",
            HvxTest::HvxVsplatStore => "src/suites/hvx_context.rs:test_hvx_vsplat_store",
            HvxTest::HvxContextIsolation => "src/suites/hvx_context.rs:test_hvx_context_isolation",
            HvxTest::HvxXeDisableException => "src/suites/hvx_context.rs:test_hvx_xe_disable_exception",
            HvxTest::HvxContextSwitchXa => "src/suites/hvx_context.rs:test_hvx_context_switch_xa",
            HvxTest::HvxContextHandoff => "src/suites/hvx_context.rs:test_hvx_context_handoff",
        }
    }

    fn run<M: Hexagon>(&self, rt: &mut Runtime<M>) -> (r: Result<(), Fatal>) {
        match *self {
            HvxTest::HvxPresent => {
                test_hvx_present(rt);
                Ok(())
            },
            HvxTest::SsrXaReadback => {
                test_ssr_xa_readback(rt);
                Ok(())
            },
            HvxTest::HvxVsplatStore => {
                test_hvx_vsplat_store(rt);
                Ok(())
            },
            HvxTest::HvxContextIsolation => {
                test_hvx_context_isolation(rt);
                Ok(())
            },
            HvxTest::HvxXeDisableException => {
                test_hvx_xe_disable_exception(rt);
                Ok(())
            },
            HvxTest::HvxContextSwitchXa => {
                test_hvx_context_switch_xa(rt);
                Ok(())
            },
            HvxTest::HvxContextHandoff => {
                test_hvx_context_handoff(rt);
                Ok(())
            },
        }
    }
}

/// The suite's tests, in the order they run.
pub open spec fn hvx_tests() -> Seq<(&'static str, HvxTest)> {
    seq![
        ("hvx_present", HvxTest::HvxPresent),
        ("ssr_xa_readback", HvxTest::SsrXaReadback),
        ("hvx_vsplat_store", HvxTest::HvxVsplatStore),
        ("hvx_context_isolation", HvxTest::HvxContextIsolation),
        ("hvx_xe_disable_exception", HvxTest::HvxXeDisableException),
        ("hvx_context_switch_xa", HvxTest::HvxContextSwitchXa),
        ("hvx_context_handoff", HvxTest::HvxContextHandoff),
    ]
}

/// Run the HVX context suite (threads 0 and 1 and two HVX contexts required)
/// and return its error count.
pub fn rust_main<M: Hexagon>(rt: &mut Runtime<M>) -> (code: i32)
    ensures
        exists|cb: u32, avail: u32|
            #![trigger old(rt)@.suite_begin("HVX Context").threads_required(3, cb, avail)]
            {
                let s = old(rt)@.suite_begin("HVX Context").threads_required(3, cb, avail);
                if avail & 3 != 3 {
                    s.summarized(final(rt)@, code)
                } else {
                    s.hvx_suite_ran(final(rt)@, code)
                }
            },
{
    rt.test_suite_begin("HVX Context");
    let ghost s0 = rt@;
    let ok = rt.require_threads(0x3);
    let ghost (cb, avail) = choose|cb: u32, avail: u32|
        #[trigger] s0.threads_required(3, cb, avail) == rt@ && ok == (avail & 3 == 3);
    if !ok {
        let errs = rt.test_suite_end();
        return errs as i32;
    }
    let ghost s1 = rt@;
    let hvx_ok = rt.require_hvx_contexts(2);
    let ghost s2 = rt@;
    if !hvx_ok {
        let errs = rt.test_suite_end();
        assert(s1.hvx_required(2, hvx_ok, s2));
        return errs as i32;
    }
    let tests = [
        ("hvx_present", HvxTest::HvxPresent),
        ("ssr_xa_readback", HvxTest::SsrXaReadback),
        ("hvx_vsplat_store", HvxTest::HvxVsplatStore),
        ("hvx_context_isolation", HvxTest::HvxContextIsolation),
        ("hvx_xe_disable_exception", HvxTest::HvxXeDisableException),
        ("hvx_context_switch_xa", HvxTest::HvxContextSwitchXa),
        ("hvx_context_handoff", HvxTest::HvxContextHandoff),
    ];
    assert(tests@ =~= hvx_tests());
    let code = rt.run_suite(&tests);
    assert(s1.hvx_required(2, hvx_ok, s2));
    code
}

/// The tests of this suite: each records exactly one error
/// for every expectation that fails and none for those that hold.  The
/// expectations of each test are the conditions counted below, over what
/// the hardware answered.
#[verifier::rlimit(80)]
#[verifier::spinoff_prover]
pub proof fn law_hvx_context_tests_count_failed_expectations()
    ensures
        forall|s: RunState, ssr: u32, r: V0Read|
            #[trigger] s.hvx_context_thread_run(ssr, r).recorded() == s.recorded()
                + (if lanes_agree((r).words) { 0nat } else { 1nat }),
        forall|s: RunState, r0: V0Read, r1: V0Read, ssr: u32|
            #[trigger] s.hvx_handoff_thread_run(r0, r1, ssr).recorded() == s.recorded()
                + (if lanes_agree((r0).words) { 0nat } else { 1nat })
                + (if lanes_agree((r1).words) { 0nat } else { 1nat }),
        forall|s: RunState, cb1: u32, present: u32, cb2: u32, contexts: u32|
            #[trigger] s.hvx_present_run(cb1, present, cb2, contexts).recorded() == s.recorded()
                + (if present & 1 != 0 { 0nat } else { 1nat })
                + (if contexts >= 1 { 0nat } else { 1nat }),
        forall|s: RunState, words: Seq<u32>|
            #[trigger] s.hvx_vsplat_store_run(words).recorded() == s.recorded()
                + (if all_words(words, 0xDEAD_BEEF) { 0nat } else { 1nat }),
        forall|s: RunState, saved: u32, x: u32, r1: V0Read, o1: Seq<u32>, o2: Seq<u32>, r2: V0Read|
            #[trigger] s.hvx_context_isolation_run(saved, x, r1, o1, o2, r2).recorded() == s.recorded()
                + (if lanes_agree(((r1)).words) { 0nat } else { 1nat })
                + (if (r1).value() == (0xAAAA_AAAA) { 0nat } else { 1nat })
                + (if poll_hit(equals((1)), (o1)) { 0nat } else { 1nat })
                + (if lanes_agree(((r2)).words) { 0nat } else { 1nat })
                + (if (r2).value() == (0xAAAA_AAAA) { 0nat } else { 1nat }),
        forall|s: RunState, saved: u32, count: u32, cause: u32|
            #[trigger] s.hvx_xe_disable_exception_run(saved, count, cause).recorded() == s.recorded()
                + (if count == 1 { 0nat } else { 1nat })
                + (if cause == CAUSE_NO_COPROC_ENABLE { 0nat } else { 1nat }),
        forall|s: RunState, saved: u32, x0: u32, r1: V0Read, r2: V0Read, x1: u32, r3: V0Read, r4: V0Read, r5: V0Read|
            #[trigger] s.hvx_context_switch_xa_run(saved, x0, r1, r2, x1, r3, r4, r5).recorded() == s.recorded()
                + (if lanes_agree(((r1)).words) { 0nat } else { 1nat })
                + (if (r1).value() == (0xAAAA_AAAA) { 0nat } else { 1nat })
                + (if lanes_agree((r2).words) { 0nat } else { 1nat })
                + (if r2.value() != 0xAAAA_AAAA { 0nat } else { 1nat })
                + (if lanes_agree(((r3)).words) { 0nat } else { 1nat })
                + (if (r3).value() == (0xBBBB_BBBB) { 0nat } else { 1nat })
                + (if lanes_agree(((r4)).words) { 0nat } else { 1nat })
                + (if (r4).value() == (0xAAAA_AAAA) { 0nat } else { 1nat })
                + (if lanes_agree(((r5)).words) { 0nat } else { 1nat })
                + (if (r5).value() == (0xBBBB_BBBB) { 0nat } else { 1nat }),
        forall|s: RunState, saved: u32, x: u32, r1: V0Read, o1: Seq<u32>, o2: Seq<u32>, a: u32, b: u32, r2: V0Read|
            #[trigger] s.hvx_context_handoff_run(saved, x, r1, o1, o2, a, b, r2).recorded() == s.recorded()
                + (if lanes_agree(((r1)).words) { 0nat } else { 1nat })
                + (if (r1).value() == (0xC0FF_EE00) { 0nat } else { 1nat })
                + (if poll_hit(equals((1)), (o1)) { 0nat } else { 1nat })
                + (if a != 0xC0FF_EE00 { 0nat } else { 1nat })
                + (if b == 0xC0FF_EE00 { 0nat } else { 1nat })
                + (if lanes_agree(((r2)).words) { 0nat } else { 1nat })
                + (if (r2).value() == (0xD00D_FEED) { 0nat } else { 1nat }),
{
    broadcast use crate::report::group_recorded, group_hvx_recorded;

    assert forall|s: RunState, ssr: u32, r: V0Read|
        #[trigger] s.hvx_context_thread_run(ssr, r).recorded() == s.recorded()
            + (if lanes_agree((r).words) { 0nat } else { 1nat }) by {}
    assert forall|s: RunState, r0: V0Read, r1: V0Read, ssr: u32|
        #[trigger] s.hvx_handoff_thread_run(r0, r1, ssr).recorded() == s.recorded()
            + (if lanes_agree((r0).words) { 0nat } else { 1nat })
            + (if lanes_agree((r1).words) { 0nat } else { 1nat }) by {}
    assert forall|s: RunState, cb1: u32, present: u32, cb2: u32, contexts: u32|
        #[trigger] s.hvx_present_run(cb1, present, cb2, contexts).recorded() == s.recorded()
            + (if present & 1 != 0 { 0nat } else { 1nat })
            + (if contexts >= 1 { 0nat } else { 1nat }) by {}
    assert forall|s: RunState, words: Seq<u32>|
        #[trigger] s.hvx_vsplat_store_run(words).recorded() == s.recorded()
            + (if all_words(words, 0xDEAD_BEEF) { 0nat } else { 1nat }) by {}
    assert forall|s: RunState, saved: u32, x: u32, r1: V0Read, o1: Seq<u32>, o2: Seq<u32>, r2: V0Read|
        #[trigger] s.hvx_context_isolation_run(saved, x, r1, o1, o2, r2).recorded() == s.recorded()
            + (if lanes_agree(((r1)).words) { 0nat } else { 1nat })
            + (if (r1).value() == (0xAAAA_AAAA) { 0nat } else { 1nat })
            + (if poll_hit(equals((1)), (o1)) { 0nat } else { 1nat })
            + (if lanes_agree(((r2)).words) { 0nat } else { 1nat })
            + (if (r2).value() == (0xAAAA_AAAA) { 0nat } else { 1nat }) by {}
    assert forall|s: RunState, saved: u32, count: u32, cause: u32|
        #[trigger] s.hvx_xe_disable_exception_run(saved, count, cause).recorded() == s.recorded()
            + (if count == 1 { 0nat } else { 1nat })
            + (if cause == CAUSE_NO_COPROC_ENABLE { 0nat } else { 1nat }) by {}
    assert forall|s: RunState, saved: u32, x0: u32, r1: V0Read, r2: V0Read, x1: u32, r3: V0Read, r4: V0Read, r5: V0Read|
        #[trigger] s.hvx_context_switch_xa_run(saved, x0, r1, r2, x1, r3, r4, r5).recorded() == s.recorded()
            + (if lanes_agree(((r1)).words) { 0nat } else { 1nat })
            + (if (r1).value() == (0xAAAA_AAAA) { 0nat } else { 1nat })
            + (if lanes_agree((r2).words) { 0nat } else { 1nat })
            + (if r2.value() != 0xAAAA_AAAA { 0nat } else { 1nat })
            + (if lanes_agree(((r3)).words) { 0nat } else { 1nat })
            + (if (r3).value() == (0xBBBB_BBBB) { 0nat } else { 1nat })
            + (if lanes_agree(((r4)).words) { 0nat } else { 1nat })
            + (if (r4).value() == (0xAAAA_AAAA) { 0nat } else { 1nat })
            + (if lanes_agree(((r5)).words) { 0nat } else { 1nat })
            + (if (r5).value() == (0xBBBB_BBBB) { 0nat } else { 1nat }) by {}
    assert forall|s: RunState, saved: u32, x: u32, r1: V0Read, o1: Seq<u32>, o2: Seq<u32>, a: u32, b: u32, r2: V0Read|
        #[trigger] s.hvx_context_handoff_run(saved, x, r1, o1, o2, a, b, r2).recorded() == s.recorded()
            + (if lanes_agree(((r1)).words) { 0nat } else { 1nat })
            + (if (r1).value() == (0xC0FF_EE00) { 0nat } else { 1nat })
            + (if poll_hit(equals((1)), (o1)) { 0nat } else { 1nat })
            + (if a != 0xC0FF_EE00 { 0nat } else { 1nat })
            + (if b == 0xC0FF_EE00 { 0nat } else { 1nat })
            + (if lanes_agree(((r2)).words) { 0nat } else { 1nat })
            + (if (r2).value() == (0xD00D_FEED) { 0nat } else { 1nat }) by {}
}

} // verus!
