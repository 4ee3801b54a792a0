//! Register access patterns shared by several suites.

use vstd::prelude::*;
use crate::machine::{Ev, Hexagon, RunState, Runtime, Shared, SysReg, ThreadCtl, ThreadEntry};
use crate::runtime::{equals, poll_hit, poll_run, thread_bit_clear};

verus! {

impl RunState {
    /// A store to a shared word.
    pub open spec fn st(self, var: Shared, v: u32) -> RunState {
        self.ev(Ev::SharedStore(var, v))
    }

    /// A load of a shared word that returned `v`.
    pub open spec fn ld(self, var: Shared, v: u32) -> RunState {
        self.ev(Ev::SharedLoad(var, v))
    }

    /// Set the entry routine of thread `tid`.
    pub open spec fn entry(self, tid: u32, e: ThreadEntry) -> RunState {
        self.ev(Ev::SetThreadEntry(tid, Some(e)))
    }

    /// Start the threads in `mask`.
    pub open spec fn start(self, mask: u32) -> RunState {
        self.ev(Ev::ThreadCtl(ThreadCtl::Start, mask))
    }

    /// Wait for a shared word to equal `expected` and check that it did.
    pub open spec fn flag_checked(self, var: Shared, expected: u32, what: &str, obs: Seq<u32>) -> RunState {
        self.flag_polled(var, expected, obs).check(poll_hit(equals(expected), obs), what)
    }

    /// One check of a secondary thread's exit flag: read it, and if it is
    /// still clear, pause before the next check.
    pub open spec fn exit_polled(self, var: Shared, v: u32) -> RunState {
        if v == 0 {
            self.ld(var, v).delay(10)
        } else {
            self.ld(var, v)
        }
    }

    /// Wait for thread `tid` to stop and check that it did.
    pub open spec fn stop_checked(self, tid: u32, what: &str, obs: Seq<u32>) -> RunState {
        self.stop_polled(tid, obs).check(poll_hit(thread_bit_clear(tid), obs), what)
    }

    /// Save a register, write `pattern`, read it back and check it, and
    /// restore the saved value.
    pub open spec fn reg_roundtrip(self, r: SysReg, pattern: u32, saved: u32, rb: u32) -> RunState {
        self.rd(r, saved).wr(r, pattern).rd(r, rb).check32(rb, pattern).wr(r, saved)
    }

    /// As `reg_roundtrip`, comparing only the bits of `mask`.
    pub open spec fn reg_roundtrip_masked(
        self,
        r: SysReg,
        pattern: u32,
        mask: u32,
        saved: u32,
        rb: u32,
    ) -> RunState {
        self.rd(r, saved).wr(r, pattern).rd(r, rb).check32(rb & mask, pattern & mask).wr(r, saved)
    }

    /// Set `bit` in a register and check it reads back set, clear it and
    /// check it reads back clear, then restore the original value.
    pub open spec fn bit_toggle(
        self,
        r: SysReg,
        bit: u32,
        set_what: &str,
        clear_what: &str,
        v: u32,
        rb1: u32,
        rb2: u32,
    ) -> RunState {
        self.rd(r, v).wr(r, v | bit).rd(r, rb1).check(rb1 & bit != 0, set_what).wr(r, v & !bit).rd(
            r,
            rb2,
        ).check(rb2 & bit == 0, clear_what).wr(r, v)
    }
}

/// Wait for a shared word to equal `expected`, at most `max` reads, and
/// check that it did.
pub fn wait_flag_checked<M: Hexagon>(rt: &mut Runtime<M>, var: Shared, expected: u32, max: u32, what: &str)
    ensures
        exists|obs: Seq<u32>|
            #[trigger] old(rt)@.flag_checked(var, expected, what, obs) == final(rt)@ && poll_run(
                equals(expected),
                max,
                obs,
            ),
{
    let ghost s0 = rt@;
    let ok = rt.wait_for_flag(var, expected, max);
    let ghost obs = choose|obs: Seq<u32>|
        #![trigger s0.flag_polled(var, expected, obs)]
        poll_run(equals(expected), max, obs) && ok == poll_hit(equals(expected), obs) && rt@
            == s0.flag_polled(var, expected, obs);
    rt.check(ok, what);
    assert(s0.flag_checked(var, expected, what, obs) == rt@);
}

/// One check of a secondary thread's exit flag, for a thread that keeps
/// running until told to stop: returns whether the flag is set, pausing
/// when it is not.
pub fn exit_poll<M: Hexagon>(rt: &mut Runtime<M>, var: Shared) -> (stop: bool)
    ensures
        exists|v: u32| #[trigger] old(rt)@.exit_polled(var, v) == final(rt)@ && stop == (v != 0),
{
    let v = rt.shared_load(var);
    if v == 0 {
        rt.busy_loop(10);
        assert(old(rt)@.exit_polled(var, v) == rt@);
        return false;
    }
    assert(old(rt)@.exit_polled(var, v) == rt@);
    true
}

/// Wait for thread `tid` to stop, at most `max` reads of MODECTL.
pub fn wait_stopped<M: Hexagon>(rt: &mut Runtime<M>, tid: u32, max: u32)
    requires
        tid < 32,
    ensures
        exists|obs: Seq<u32>|
            #[trigger] old(rt)@.stop_polled(tid, obs) == final(rt)@ && poll_run(thread_bit_clear(tid), max, obs),
{
    let _ = rt.wait_for_thread_stopped(tid, max);
}

/// Wait for thread `tid` to stop, at most `max` reads of MODECTL, and check
/// that it did.
pub fn wait_stopped_checked<M: Hexagon>(rt: &mut Runtime<M>, tid: u32, max: u32, what: &str)
    requires
        tid < 32,
    ensures
        exists|obs: Seq<u32>|
            #[trigger] old(rt)@.stop_checked(tid, what, obs) == final(rt)@ && poll_run(
                thread_bit_clear(tid),
                max,
                obs,
            ),
{
    let ghost s0 = rt@;
    let ok = rt.wait_for_thread_stopped(tid, max);
    let ghost obs = choose|obs: Seq<u32>|
        #![trigger s0.stop_polled(tid, obs)]
        poll_run(thread_bit_clear(tid), max, obs) && ok == poll_hit(thread_bit_clear(tid), obs) && rt@
            == s0.stop_polled(tid, obs);
    rt.check(ok, what);
    assert(s0.stop_checked(tid, what, obs) == rt@);
}

/// Save a register, write `pattern`, read it back and check it, then
/// restore the saved value.
pub fn reg_roundtrip<M: Hexagon>(rt: &mut Runtime<M>, r: SysReg, pattern: u32)
    ensures
        exists|saved: u32, rb: u32| #[trigger] old(rt)@.reg_roundtrip(r, pattern, saved, rb) == final(rt)@,
{
    let saved = rt.read_reg(r);
    rt.write_reg(r, pattern);
    let rb = rt.read_reg(r);
    rt.check32(rb, pattern);
    rt.write_reg(r, saved);
    assert(old(rt)@.reg_roundtrip(r, pattern, saved, rb) == rt@);
}

/// As [`reg_roundtrip`], comparing only the bits of `mask`.
pub fn reg_roundtrip_masked<M: Hexagon>(rt: &mut Runtime<M>, r: SysReg, pattern: u32, mask: u32)
    ensures
        exists|saved: u32, rb: u32|
            #[trigger] old(rt)@.reg_roundtrip_masked(r, pattern, mask, saved, rb) == final(rt)@,
{
    let saved = rt.read_reg(r);
    rt.write_reg(r, pattern);
    let rb = rt.read_reg(r);
    rt.check32(rb & mask, pattern & mask);
    rt.write_reg(r, saved);
    assert(old(rt)@.reg_roundtrip_masked(r, pattern, mask, saved, rb) == rt@);
}

/// Set a bit of a register and check it reads back set, clear it and
/// check it reads back clear, then restore the original value.
pub fn bit_toggle<M: Hexagon>(rt: &mut Runtime<M>, r: SysReg, bit: u32, set_what: &str, clear_what: &str)
    ensures
        exists|v: u32, rb1: u32, rb2: u32|
            #[trigger] old(rt)@.bit_toggle(r, bit, set_what, clear_what, v, rb1, rb2) == final(rt)@,
{
    let v = rt.read_reg(r);
    rt.write_reg(r, v | bit);
    let rb1 = rt.read_reg(r);
    rt.check(rb1 & bit != 0, set_what);
    rt.write_reg(r, v & !bit);
    let rb2 = rt.read_reg(r);
    rt.check(rb2 & bit == 0, clear_what);
    rt.write_reg(r, v);
    assert(old(rt)@.bit_toggle(r, bit, set_what, clear_what, v, rb1, rb2) == rt@);
}

/// The shared register and thread patterns record exactly one error for
/// every expectation that fails and none for those that hold: a round trip
/// expects the pattern back (in the masked bits), a bit toggle expects the
/// bit set and then clear, and a wait expects the flag or the stop to be
/// seen.
#[verifier::rlimit(80)]
#[verifier::spinoff_prover]
pub proof fn law_shared_patterns_count_failed_expectations()
    ensures
        forall|s: RunState, r: SysReg, pattern: u32, saved: u32, rb: u32|
            #[trigger] s.reg_roundtrip(r, pattern, saved, rb).recorded() == s.recorded() + (if rb == pattern {
                0nat
            } else {
                1nat
            }),
        forall|s: RunState, r: SysReg, pattern: u32, mask: u32, saved: u32, rb: u32|
            #[trigger] s.reg_roundtrip_masked(r, pattern, mask, saved, rb).recorded() == s.recorded() + (if rb & mask
                == pattern & mask { 0nat } else { 1nat }),
        forall|s: RunState, r: SysReg, bit: u32, set_what: &str, clear_what: &str, v: u32, rb1: u32, rb2: u32|
            #[trigger] s.bit_toggle(r, bit, set_what, clear_what, v, rb1, rb2).recorded() == s.recorded() + (if rb1
                & bit != 0 { 0nat } else { 1nat }) + (if rb2 & bit == 0 { 0nat } else { 1nat }),
        forall|s: RunState, var: Shared, expected: u32, what: &str, obs: Seq<u32>|
            #[trigger] s.flag_checked(var, expected, what, obs).recorded() == s.recorded() + (if obs.len() > 0
                && obs.last() == expected { 0nat } else { 1nat }),
        forall|s: RunState, tid: u32, what: &str, obs: Seq<u32>|
            #[trigger] s.stop_checked(tid, what, obs).recorded() == s.recorded() + (if obs.len() > 0 && obs.last()
                & (1u32 << tid) == 0 { 0nat } else { 1nat }),
{
    broadcast use crate::report::group_recorded;

    assert forall|s: RunState, r: SysReg, pattern: u32, saved: u32, rb: u32|
        #[trigger] s.reg_roundtrip(r, pattern, saved, rb).recorded() == s.recorded() + (if rb == pattern {
            0nat
        } else {
            1nat
        }) by {}
    assert forall|s: RunState, r: SysReg, pattern: u32, mask: u32, saved: u32, rb: u32|
        #[trigger] s.reg_roundtrip_masked(r, pattern, mask, saved, rb).recorded() == s.recorded() + (if rb & mask
            == pattern & mask { 0nat } else { 1nat }) by {}
    assert forall|s: RunState, r: SysReg, bit: u32, set_what: &str, clear_what: &str, v: u32, rb1: u32, rb2: u32|
        #[trigger] s.bit_toggle(r, bit, set_what, clear_what, v, rb1, rb2).recorded() == s.recorded() + (if rb1
            & bit != 0 { 0nat } else { 1nat }) + (if rb2 & bit == 0 { 0nat } else { 1nat }) by {}
    assert forall|s: RunState, var: Shared, expected: u32, what: &str, obs: Seq<u32>|
        #[trigger] s.flag_checked(var, expected, what, obs).recorded() == s.recorded() + (if obs.len() > 0
            && obs.last() == expected { 0nat } else { 1nat }) by {}
    assert forall|s: RunState, tid: u32, what: &str, obs: Seq<u32>|
        #[trigger] s.stop_checked(tid, what, obs).recorded() == s.recorded() + (if obs.len() > 0 && obs.last()
            & (1u32 << tid) == 0 { 0nat } else { 1nat }) by {}
}

} // verus!
