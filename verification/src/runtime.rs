//! Runtime services built from machine operations: delays, polling, the
//! configuration table, device mappings and precondition checks.

use vstd::prelude::*;
use crate::console::{dec, hex, nl, text};
use crate::machine::{Ev, Hexagon, RunState, Runtime, Shared, SysReg};
use crate::regs::{add32, wrapping_add32, CFGTABLE_COPROC_PRESENT, CFGTABLE_EXT_CONTEXTS, CFGTABLE_THREAD_ENABLE_MASK};
use crate::tlb::{make_tlb_hi, make_tlb_lo, tlb_hi_value, tlb_lo_value, TLB_PERM_XWRU};

verus! {

impl RunState {
    /// Invalidate TLB entry `idx`: write zeros there, then `isync`.
    pub open spec fn tlb_invalidated(self, idx: u32) -> RunState {
        self.ev(Ev::TlbWrite(0, 0, idx)).ev(Ev::Barrier(crate::machine::Barrier::Isync))
    }

    /// Read a configuration-table field: CFGBASE is read, and the word at
    /// `offset` is read with `memw_phys` using CFGBASE << 5 as base.
    pub open spec fn cfg_read(self, offset: u32, cfgbase: u32, val: u32) -> RunState {
        self.ev(Ev::ReadReg(SysReg::Cfgbase, cfgbase)).ev(
            Ev::MemwPhys(offset, (cfgbase << 5u32) as u32, val),
        )
    }

    /// Install a global, all-permission, uncached 1MB mapping.
    pub open spec fn device_mapped(self, vpn_1m: u32, ppn_1m: u32, idx: u32) -> RunState {
        self.ev(
            Ev::TlbWrite(
                tlb_hi_value(vpn_1m, 0, true) as u32,
                tlb_lo_value(ppn_1m, TLB_PERM_XWRU, false) as u32,
                idx,
            ),
        ).ev(Ev::Barrier(crate::machine::Barrier::Isync))
    }

    /// Check for the hardware threads in `mask` in the configuration
    /// table's thread-enable field `avail`; report and count an error if
    /// any is missing.
    pub open spec fn threads_required(self, mask: u32, cb: u32, avail: u32) -> RunState {
        let s = self.cfg_read(CFGTABLE_THREAD_ENABLE_MASK, cb, avail);
        if avail & mask == mask {
            s
        } else {
            s.out(text("FAIL: required thread mask 0x")).out(hex(mask as nat)).out(
                text(" but hardware has 0x"),
            ).out(hex(avail as nat)).out(nl()).error()
        }
    }

    /// Check that HVX is present with at least `n` contexts: the
    /// configuration table's coprocessor field is read, then (if HVX is
    /// present) its context count; a shortfall is reported and counted.
    /// `ok` tells whether the requirement holds.
    pub open spec fn hvx_required(self, n: u32, ok: bool, post: RunState) -> bool {
        exists|cb1: u32, present: u32|
            #![trigger self.cfg_read(CFGTABLE_COPROC_PRESENT, cb1, present)]
            {
                let s = self.cfg_read(CFGTABLE_COPROC_PRESENT, cb1, present);
                if present & 1 == 0 {
                    &&& !ok
                    &&& post == s.out(text("FAIL: HVX not present (COPROCESSOR_PRESENT=0x")).out(
                        hex(present as nat),
                    ).out(text(")")).out(nl()).error()
                } else {
                    exists|cb2: u32, contexts: u32|
                        #![trigger s.cfg_read(CFGTABLE_EXT_CONTEXTS, cb2, contexts)]
                        {
                            let t = s.cfg_read(CFGTABLE_EXT_CONTEXTS, cb2, contexts);
                            &&& ok == (contexts >= n)
                            &&& post == if ok {
                                t
                            } else {
                                t.out(text("FAIL: need ")).out(dec(n as nat)).out(
                                    text(" HVX contexts but hardware has "),
                                ).out(dec(contexts as nat)).out(nl()).error()
                            }
                        }
                }
            }
    }

    /// Polling: `obs` are the values read, one per iteration; every
    /// iteration whose value is not a hit is followed by a delay of
    /// `pause` iterations (none when `pause` is 0).
    pub open spec fn polled(
        self,
        read: spec_fn(u32) -> Ev,
        hit: spec_fn(u32) -> bool,
        pause: nat,
        obs: Seq<u32>,
    ) -> RunState
        decreases obs.len(),
    {
        if obs.len() == 0 {
            self
        } else {
            let o = obs.last();
            let s = self.polled(read, hit, pause, obs.drop_last()).ev(read(o));
            if hit(o) || pause == 0 {
                s
            } else {
                s.delay(pause)
            }
        }
    }

    /// Wait for a shared word to equal `expected`.
    pub open spec fn flag_polled(self, var: Shared, expected: u32, obs: Seq<u32>) -> RunState {
        self.polled(|o: u32| Ev::SharedLoad(var, o), |o: u32| o == expected, 10, obs)
    }

    /// Wait for thread `tid`'s enable bit in MODECTL to clear.
    pub open spec fn stop_polled(self, tid: u32, obs: Seq<u32>) -> RunState {
        self.polled(
            |o: u32| Ev::ReadReg(SysReg::Modectl, o),
            |o: u32| o & (1u32 << tid) == 0,
            10,
            obs,
        )
    }
}

/// The values read by a bounded poll: no value before the last is a hit,
/// at most `max` values were read, and if the last is not a hit all `max`
/// were read.
pub open spec fn poll_run(hit: spec_fn(u32) -> bool, max: u32, obs: Seq<u32>) -> bool {
    &&& obs.len() <= max
    &&& forall|i: int| 0 <= i < obs.len() - 1 ==> !hit(#[trigger] obs[i])
    &&& (obs.len() == 0 || !hit(obs.last())) ==> obs.len() == max
}

/// Whether a bounded poll succeeded.
pub open spec fn poll_hit(hit: spec_fn(u32) -> bool, obs: Seq<u32>) -> bool {
    obs.len() > 0 && hit(obs.last())
}

/// The hit predicate of a flag poll.
pub open spec fn equals(expected: u32) -> spec_fn(u32) -> bool {
    |o: u32| o == expected
}

/// The hit predicate of a thread-stopped poll.
pub open spec fn thread_bit_clear(tid: u32) -> spec_fn(u32) -> bool {
    |o: u32| o & (1u32 << tid) == 0
}

impl<M: Hexagon> Runtime<M> {
    /// Execute `n` volatile store iterations to create a delay.
    pub fn busy_loop(&mut self, n: u32)
        ensures
            final(self)@ == old(self)@.delay(n as nat),
    {
        let ghost s0 = self@;
        proof {
            assert(crate::machine::delay_events(0) =~= Seq::<Ev>::empty());
            assert(s0.events + Seq::<Ev>::empty() =~= s0.events);
        }
        for i in 0..n
            invariant
                self@ == s0.delay(i as nat),
        {
            self.delay_store(i);
            proof {
                assert(crate::machine::delay_events(i as nat).push(Ev::DelayStore(i))
                    =~= crate::machine::delay_events((i + 1) as nat));
                assert((s0.events + crate::machine::delay_events(i as nat)).push(Ev::DelayStore(i))
                    =~= s0.events + crate::machine::delay_events((i + 1) as nat));
            }
        }
    }

    /// Invalidate a TLB entry by writing zeros at the given index.
    pub fn tlb_invalidate(&mut self, idx: u32)
        ensures
            final(self)@ == old(self)@.tlb_invalidated(idx),
    {
        self.tlb_write(0, 0, idx);
        self.isync();
    }

    /// Read a field from the configuration table at byte `offset`, using
    /// CFGBASE shifted left by 5 as the `memw_phys` base.
    pub fn read_cfgtable_field(&mut self, offset: u32) -> (v: u32)
        ensures
            exists|cb: u32| #[trigger] old(self)@.cfg_read(offset, cb, v) == final(self)@,
    {
        let cb = self.read_cfgbase();
        let base = cb << 5;
        let v = self.memw_phys_read(offset, base);
        assert(old(self)@.cfg_read(offset, cb, v) == self@);
        v
    }

    /// Install a 1MB uncached device mapping `vpn_1m -> ppn_1m` at TLB index
    /// `tlb_idx`, global and with all permissions.
    pub fn install_device_mapping(&mut self, vpn_1m: u32, ppn_1m: u32, tlb_idx: u32)
        ensures
            final(self)@ == old(self)@.device_mapped(vpn_1m, ppn_1m, tlb_idx),
    {
        let hi = make_tlb_hi(vpn_1m, 0, true);
        let lo = make_tlb_lo(ppn_1m, TLB_PERM_XWRU, false);
        self.tlb_write(hi, lo, tlb_idx);
        self.isync();
    }

    /// Volatile read of the L2VIC register at `base_va + reg_offset`.
    pub fn l2vic_read(&mut self, base_va: u32, reg_offset: u32) -> (v: u32)
        ensures
            final(self)@ == old(self)@.ev(Ev::MmioRead(add32(base_va, reg_offset), v)),
    {
        let addr = wrapping_add32(base_va, reg_offset);
        self.mmio_read(addr)
    }

    /// Volatile write of the L2VIC register at `base_va + reg_offset`.
    pub fn l2vic_write(&mut self, base_va: u32, reg_offset: u32, val: u32)
        ensures
            final(self)@ == old(self)@.ev(Ev::MmioWrite(add32(base_va, reg_offset), val)),
    {
        let addr = wrapping_add32(base_va, reg_offset);
        self.mmio_write(addr, val)
    }

    /// Check that the hardware threads in `mask` are present; if any is
    /// missing, report it, record an error and return false.
    pub fn require_threads(&mut self, mask: u32) -> (ok: bool)
        ensures
            exists|cb: u32, avail: u32|
                #[trigger] old(self)@.threads_required(mask, cb, avail) == final(self)@ && ok == (avail & mask
                    == mask),
    {
        let ghost s0 = self@;
        let cb = self.read_cfgbase();
        let available = self.memw_phys_read(CFGTABLE_THREAD_ENABLE_MASK, cb << 5);
        if (available & mask) != mask {
            self.puts("FAIL: required thread mask 0x");
            self.put_hex(mask as u64);
            self.puts(" but hardware has 0x");
            self.put_hex(available as u64);
            self.newline();
            self.count_error();
            assert(s0.threads_required(mask, cb, available) == self@);
            return false;
        }
        assert(s0.threads_required(mask, cb, available) == self@);
        true
    }

    /// Check that HVX is present with at least `n` contexts; if not,
    /// report it, record an error and return false.
    pub fn require_hvx_contexts(&mut self, n: u32) -> (ok: bool)
        ensures
            old(self)@.hvx_required(n, ok, final(self)@),
    {
        let ghost s0 = self@;
        let cb1 = self.read_cfgbase();
        let present = self.memw_phys_read(CFGTABLE_COPROC_PRESENT, cb1 << 5);
        let ghost s = self@;
        assert(s == s0.cfg_read(CFGTABLE_COPROC_PRESENT, cb1, present));
        if present & 1 == 0 {
            self.puts("FAIL: HVX not present (COPROCESSOR_PRESENT=0x");
            self.put_hex(present as u64);
            self.puts(")");
            self.newline();
            self.count_error();
            return false;
        }
        let cb2 = self.read_cfgbase();
        let contexts = self.memw_phys_read(CFGTABLE_EXT_CONTEXTS, cb2 << 5);
        assert(self@ == s.cfg_read(CFGTABLE_EXT_CONTEXTS, cb2, contexts));
        if contexts < n {
            self.puts("FAIL: need ");
            self.put_dec(n as u64);
            self.puts(" HVX contexts but hardware has ");
            self.put_dec(contexts as u64);
            self.newline();
            self.count_error();
            return false;
        }
        true
    }

    /// Spin until a shared word equals `expected`, reading it at most
    /// `max_iters` times with a delay of 10 between reads.
    pub fn wait_for_flag(&mut self, var: Shared, expected: u32, max_iters: u32) -> (found: bool)
        ensures
            exists|obs: Seq<u32>|
                #![trigger old(self)@.flag_polled(var, expected, obs)]
                poll_run(equals(expected), max_iters, obs) && found == poll_hit(equals(expected), obs)
                    && final(self)@ == old(self)@.flag_polled(var, expected, obs),
    {
        let ghost s0 = self@;
        let ghost mut obs: Seq<u32> = Seq::empty();
        let mut i: u32 = 0;
        while i < max_iters
            invariant
                i <= max_iters,
                obs.len() == i,
                s0 == old(self)@,
                forall|k: int| 0 <= k < obs.len() ==> !equals(expected)(#[trigger] obs[k]),
                self@ == s0.flag_polled(var, expected, obs),
            decreases max_iters - i,
        {
            let v = self.shared_load(var);
            proof {
                let obs2 = obs.push(v);
                assert(obs2.drop_last() =~= obs);
            }
            if v == expected {
                proof {
                    obs = obs.push(v);
                }
                assert(obs.last() == v);
                assert(equals(expected)(v));
                assert(poll_hit(equals(expected), obs));
                assert(poll_run(equals(expected), max_iters, obs));
                assert(self@ == s0.flag_polled(var, expected, obs));
                return true;
            }
            self.busy_loop(10);
            proof {
                obs = obs.push(v);
            }
            i = i + 1;
        }
        assert(poll_run(equals(expected), max_iters, obs));
        assert(self@ == s0.flag_polled(var, expected, obs));
        false
    }

    /// Spin until thread `tid`'s enable bit in MODECTL is clear, reading
    /// MODECTL at most `max_iters` times with a delay of 10 between reads.
    pub fn wait_for_thread_stopped(&mut self, tid: u32, max_iters: u32) -> (stopped: bool)
        requires
            tid < 32,
        ensures
            exists|obs: Seq<u32>|
                #![trigger old(self)@.stop_polled(tid, obs)]
                poll_run(thread_bit_clear(tid), max_iters, obs) && stopped == poll_hit(
                    thread_bit_clear(tid),
                    obs,
                ) && final(self)@ == old(self)@.stop_polled(tid, obs),
    {
        let ghost s0 = self@;
        let mask = 1u32 << tid;
        let ghost mut obs: Seq<u32> = Seq::empty();
        let mut i: u32 = 0;
        while i < max_iters
            invariant
                i <= max_iters,
                tid < 32,
                mask == 1u32 << tid,
                obs.len() == i,
                s0 == old(self)@,
                forall|k: int| 0 <= k < obs.len() ==> !thread_bit_clear(tid)(#[trigger] obs[k]),
                self@ == s0.stop_polled(tid, obs),
            decreases max_iters - i,
        {
            let m = self.read_modectl();
            proof {
                let obs2 = obs.push(m);
                assert(obs2.drop_last() =~= obs);
            }
            if m & mask == 0 {
                proof {
                    obs = obs.push(m);
                }
                assert(obs.last() == m);
                assert(thread_bit_clear(tid)(m));
                assert(poll_hit(thread_bit_clear(tid), obs));
                assert(poll_run(thread_bit_clear(tid), max_iters, obs));
                assert(self@ == s0.stop_polled(tid, obs));
                return true;
            }
            self.busy_loop(10);
            proof {
                obs = obs.push(m);
            }
            i = i + 1;
        }
        assert(poll_run(thread_bit_clear(tid), max_iters, obs));
        assert(self@ == s0.stop_polled(tid, obs));
        false
    }
}

/// A writer that sends text to the console.
pub struct SemihostWriter;

impl SemihostWriter {
    /// Write a string to the console.
    pub fn write_str<M: Hexagon>(&mut self, rt: &mut Runtime<M>, s: &str)
        ensures
            final(rt)@ == old(rt)@.out(text(s)),
    {
        rt.puts(s);
    }
}

} // verus!
