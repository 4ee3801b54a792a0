//! The hardware interface and the runtime that drives it.
//!
//! Every instruction the runtime issues to the core goes through the
//! [`Hexagon`] trait, whose methods promise nothing: the library takes no
//! answer of the hardware for granted.  [`Runtime`] wraps a machine and
//! records every operation it issues, together with the
//! value the hardware returned, in a ghost event log.  The contracts of the
//! library are stated over that log, so each one says exactly which
//! instructions a function issues and what it concludes from the answers.

use vstd::prelude::*;

verus! {

/// Supervisor, guest and scheduler registers reachable with `Rd = Ss` /
/// `Sd = Rs` transfers.
#[derive(Clone, Copy, Debug)]
pub enum SysReg {
    Ssr,
    Evb,
    Syscfg,
    Ccr,
    Imask,
    Ipend,
    Vid,
    Modectl,
    Elr,
    Badva,
    Htid,
    Framekey,
    Cfgbase,
    Sgp0,
    Sgp1,
    Stid,
    Diag,
    Gelr,
    Gsr,
    Gosp,
    Gbadva,
    Pcyclelo,
    Pcyclehi,
    Timerlo,
    Timerhi,
    Bestwait,
    Schedcfg,
}

/// 64-bit counters read as a register pair.
#[derive(Clone, Copy, Debug)]
pub enum Counter64 {
    Pcycle,
    Upcycle,
}

/// Instruction barriers.
#[derive(Clone, Copy, Debug)]
pub enum Barrier {
    Isync,
    Syncht,
}

/// Thread control instructions taking a thread mask.
#[derive(Clone, Copy, Debug)]
pub enum ThreadCtl {
    Start,
    Stop,
    Wait,
    Resume,
}

/// Interrupt control instructions taking one register operand.
#[derive(Clone, Copy, Debug)]
pub enum IntCtl {
    Swi,
    Cswi,
    Ciad,
    Iassignw,
}

/// Data cache line operations taking an address.
#[derive(Clone, Copy, Debug)]
pub enum CacheLineOp {
    Dczeroa,
    Dccleana,
    Dcinva,
    Dccleaninva,
}

/// Whole-cache invalidations.
#[derive(Clone, Copy, Debug)]
pub enum CacheKill {
    Dckill,
    Ickill,
    L2kill,
}

/// Fields recorded by the startup code's exception and NMI handlers.
#[derive(Clone, Copy, Debug)]
pub enum ExcField {
    Cause,
    Elr,
    Badva,
    Count,
    NmiCause,
    NmiCount,
}

/// Trap instructions.
#[derive(Clone, Copy, Debug)]
pub enum TrapKind {
    Trap0,
    Trap1,
}

/// Entry points a secondary hardware thread can be started at.
#[derive(Clone, Copy, Debug)]
pub enum ThreadEntry {
    Thread1Basic,
    Thread1DataWriter,
    Thread2Flag,
    Thread1WaitResume,
    SteeringThread1,
    SteeringThread2,
    BusyWorker,
    SpinWorker,
    WaitWorker,
    HvxContext,
    HvxHandoff,
}

/// Interrupt handlers that can be installed in the dispatch table.
#[derive(Clone, Copy, Debug)]
pub enum IrqHandler {
    Generic,
    Counting,
    Cascade,
    DataWriter,
    L2vicVector,
    SwiHtid,
    L2vicHtid,
}

/// Words of memory shared between the main thread, secondary hardware
/// threads and interrupt handlers.
#[derive(Clone, Copy, Debug)]
pub enum Shared {
    ThreadFlag,
    ThreadHtid,
    ThreadData,
    Thread2Flag,
    ThreadResumed,
    IntCount(u32),
    IntLastArg,
    Thread1Ready,
    Thread1Done,
    HandlerData(u32),
    HandlerVid,
    HandlerCount,
    HandlerHtid,
    T1Running,
    T1Exit,
    T2Running,
    T2Exit,
    T1DesiredPrio,
    T2DesiredPrio,
    T1ClearIe,
    T1Flag,
    T1SawCtx0,
    T1SawCtx1,
    L2vicVa,
    /// The error counter, shared by every hardware thread and handler.
    ErrCount,
}

/// The raw instructions and memory accesses of the core.  An implementation
/// issues exactly the instruction each method names; the library takes
/// nothing about the values returned for granted.
pub trait Hexagon {
    /// Write one byte to the console.
    fn putc(&mut self, c: u8);

    /// Transfer a system register to a general register.
    fn read_reg(&mut self, r: SysReg) -> u32;

    /// Transfer a general register to a system register (with the `isync`
    /// the architecture requires after SSR, SYSCFG and EVB writes).
    fn write_reg(&mut self, r: SysReg, val: u32);

    /// Read a 64-bit counter as a register pair.
    fn read_counter(&mut self, c: Counter64) -> u64;

    fn barrier(&mut self, b: Barrier);

    fn thread_ctl(&mut self, op: ThreadCtl, mask: u32);

    fn int_ctl(&mut self, op: IntCtl, val: u32);

    /// `iassignr(Rs)`: read the per-thread assignment of an interrupt.
    fn iassignr(&mut self, val: u32) -> u32;

    /// `tlbw(Rss, Rt)`.
    fn tlb_write(&mut self, hi: u32, lo: u32, idx: u32);

    /// `Rdd = tlbr(Rs)`, returned as (hi, lo).
    fn tlb_read(&mut self, idx: u32) -> (u32, u32);

    /// `Rd = tlbp(Rs)`.
    fn tlb_probe(&mut self, va: u32) -> i32;

    /// `Rd = ctlbw(Rss, Rt)`.
    fn ctlbw(&mut self, hi: u32, lo: u32, idx: u32) -> u32;

    /// `Rd = tlboc(Rss)`.
    fn tlboc(&mut self, hi: u32, lo: u32) -> u32;

    fn cache_line_op(&mut self, op: CacheLineOp, addr: u32);

    fn cache_kill(&mut self, k: CacheKill);

    /// Zero the words recorded by the exception handlers.
    fn reset_exception_state(&mut self);

    /// Zero the words recorded by the NMI handler.
    fn reset_nmi_state(&mut self);

    /// Volatile read of a word recorded by the exception or NMI handler.
    fn exception_field(&mut self, f: ExcField) -> u32;

    /// Execute `trap0(#imm)` or `trap1(#imm)`.
    fn trap(&mut self, t: TrapKind, imm: u32);

    /// One volatile store of the delay loop.
    fn delay_store(&mut self, val: u32);

    /// `Rd = memw_phys(Rs, Rt)`.
    fn memw_phys(&mut self, offset: u32, base: u32) -> u32;

    /// Volatile 32-bit load from an address.
    fn mmio_read(&mut self, addr: u32) -> u32;

    /// Volatile 32-bit store to an address.
    fn mmio_write(&mut self, addr: u32, val: u32);

    /// Set (or clear) the entry routine of a secondary hardware thread.
    fn set_thread_entry(&mut self, tid: u32, entry: Option<ThreadEntry>);

    /// Install an interrupt handler in the dispatch table.
    fn register_interrupt(&mut self, intno: u32, handler: IrqHandler);

    /// Sequentially consistent load of a shared word.
    fn shared_load(&mut self, v: Shared) -> u32;

    /// Sequentially consistent store of a shared word.
    fn shared_store(&mut self, v: Shared, val: u32);

    /// Atomic fetch-and-add on a shared word.
    fn shared_add(&mut self, v: Shared, val: u32);

    /// Atomic fetch-and-add on a shared word, returning the value it held
    /// before.
    fn shared_fetch_add(&mut self, v: Shared, val: u32) -> u32;

    /// Fill a 32-byte aligned scratch buffer of `words` words with `fill`
    /// and return its address.
    fn scratch_init(&mut self, words: u32, fill: u32) -> u32;

    /// Volatile load of word `i` of the scratch buffer.
    fn scratch_read(&mut self, i: u32) -> u32;

    /// Volatile store to word `i` of the scratch buffer.
    fn scratch_write(&mut self, i: u32, val: u32);

    /// Store a value to a stack slot and load it back with volatile accesses.
    fn volatile_echo(&mut self, val: u32) -> u32;

    /// Execute `Rd = add(Rs, #1)`.
    fn add_one(&mut self, val: u32) -> u32;

    /// Splat `val` into an HVX vector with the compiler's intrinsic and store
    /// it to an aligned buffer; returns the 32 words of the buffer.
    fn hvx_splat_store(&mut self, val: u32) -> [u32; 32];

    /// Write `selected` to SSR, set V0 to a splat of `val`, then write
    /// `disabled` to SSR: one instruction sequence.
    fn hvx_v0_splat(&mut self, selected: u32, val: u32, disabled: u32);

    /// Write `selected` to SSR, store V0 to memory, then write `disabled` to
    /// SSR; returns the 32 words stored.
    fn hvx_v0_store(&mut self, selected: u32, disabled: u32) -> [u32; 32];

    /// Execute `v0 = vsplat(#0)` in a packet of its own.
    fn hvx_probe_insn(&mut self);
}

/// One operation issued to the machine, with the answer it gave.
pub enum Ev {
    Putc(u8),
    ReadReg(SysReg, u32),
    WriteReg(SysReg, u32),
    ReadCounter(Counter64, u64),
    Barrier(Barrier),
    ThreadCtl(ThreadCtl, u32),
    IntCtl(IntCtl, u32),
    Iassignr(u32, u32),
    TlbWrite(u32, u32, u32),
    TlbRead(u32, u32, u32),
    TlbProbe(u32, i32),
    Ctlbw(u32, u32, u32, u32),
    Tlboc(u32, u32, u32),
    CacheLine(CacheLineOp, u32),
    CacheKill(CacheKill),
    ResetExceptions,
    ResetNmi,
    ReadException(ExcField, u32),
    Trap(TrapKind, u32),
    DelayStore(u32),
    MemwPhys(u32, u32, u32),
    MmioRead(u32, u32),
    MmioWrite(u32, u32),
    SetThreadEntry(u32, Option<ThreadEntry>),
    RegisterInterrupt(u32, IrqHandler),
    SharedLoad(Shared, u32),
    SharedStore(Shared, u32),
    SharedAdd(Shared, u32),
    SharedFetchAdd(Shared, u32, u32),
    ScratchInit(u32, u32, u32),
    ScratchRead(u32, u32),
    ScratchWrite(u32, u32),
    Echo(u32, u32),
    AddOne(u32, u32),
    HvxSplatStore(u32, Seq<u32>),
    HvxV0Splat(u32, u32, u32),
    HvxV0Store(u32, u32, Seq<u32>),
    HvxProbe,
}

/// What the runtime has done so far: the operations issued, in order, and
/// the source location that failure reports currently name (the test being
/// run), if any.
pub struct RunState {
    pub events: Seq<Ev>,
    pub at: Option<&'static str>,
}

/// A counter after one more increment; it wraps like an atomic fetch-add.
pub open spec fn next_count(n: u32) -> u32 {
    if n < u32::MAX { (n + 1) as u32 } else { 0 }
}

/// What one operation adds to the shared error counter.
pub open spec fn counter_increment(e: Ev) -> nat {
    match e {
        Ev::SharedAdd(Shared::ErrCount, v) => v as nat,
        Ev::SharedFetchAdd(Shared::ErrCount, v, _) => v as nat,
        _ => 0,
    }
}

/// Whether an operation overwrites the shared error counter.
pub open spec fn counter_stored(e: Ev) -> bool {
    match e {
        Ev::SharedStore(Shared::ErrCount, _) => true,
        _ => false,
    }
}

/// The errors that a run of operations adds to the shared counter.
pub open spec fn errors_added(es: Seq<Ev>) -> nat
    decreases es.len(),
{
    if es.len() == 0 {
        0
    } else {
        errors_added(es.drop_last()) + counter_increment(es.last())
    }
}

/// No operation of the run overwrites the shared error counter.
pub open spec fn counter_not_stored(es: Seq<Ev>) -> bool {
    forall|i: int| 0 <= i < es.len() ==> !counter_stored(#[trigger] es[i])
}

/// The error counter after one operation, for a counter that is a plain
/// 32-bit word: adds wrap around, a store overwrites it, and every other
/// operation leaves it alone.
pub open spec fn counter_step(c: u32, e: Ev) -> u32 {
    match e {
        Ev::SharedStore(Shared::ErrCount, v) => v,
        _ => ((c + counter_increment(e)) % 0x1_0000_0000) as u32,
    }
}

/// The error counter after a run of operations, starting from `c`.
pub open spec fn counter_after(c: u32, es: Seq<Ev>) -> u32
    decreases es.len(),
{
    if es.len() == 0 {
        c
    } else {
        counter_step(counter_after(c, es.drop_last()), es.last())
    }
}

/// Whether an operation that reads the error counter (a load, or the value
/// a fetch-and-add returned) saw `c`.
pub open spec fn counter_read_sees(c: u32, e: Ev) -> bool {
    match e {
        Ev::SharedLoad(Shared::ErrCount, v) => v == c,
        Ev::SharedFetchAdd(Shared::ErrCount, _, prev) => prev == c,
        _ => true,
    }
}

/// Over the run `es`, the shared error counter behaves as a plain word of
/// storage that starts at `c` and has no writer besides the run itself:
/// every read sees what the operations before it left there.
pub open spec fn counter_is_storage(c: u32, es: Seq<Ev>) -> bool {
    forall|i: int| 0 <= i < es.len() ==> counter_read_sees(counter_after(c, es.take(i)), #[trigger] es[i])
}

/// The console events that write the given bytes.
pub open spec fn putcs(bytes: Seq<u8>) -> Seq<Ev> {
    bytes.map_values(|c: u8| Ev::Putc(c))
}

/// The events of a delay loop of `n` iterations.
pub open spec fn delay_events(n: nat) -> Seq<Ev> {
    Seq::new(n, |i: int| Ev::DelayStore(i as u32))
}

impl RunState {
    /// One more operation.
    pub open spec fn ev(self, e: Ev) -> RunState {
        RunState { events: self.events.push(e), at: self.at }
    }

    /// Several more operations.
    pub open spec fn evs(self, es: Seq<Ev>) -> RunState {
        RunState { events: self.events + es, at: self.at }
    }

    /// The same operations, with failure reports naming `at`.
    pub open spec fn located(self, at: Option<&'static str>) -> RunState {
        RunState { events: self.events, at }
    }

    /// Console output of the given bytes.
    pub open spec fn out(self, bytes: Seq<u8>) -> RunState {
        self.evs(putcs(bytes))
    }

    /// One more error added to the shared error counter.
    pub open spec fn error(self) -> RunState {
        self.ev(Ev::SharedAdd(Shared::ErrCount, 1))
    }

    /// The errors recorded so far: what the logged operations added to the
    /// shared error counter.
    pub open spec fn recorded(self) -> nat {
        errors_added(self.events)
    }

    /// A read of the shared error counter that returned `n`.
    pub open spec fn count_read(self, n: u32) -> RunState {
        self.ev(Ev::SharedLoad(Shared::ErrCount, n))
    }

    /// A delay loop of `n` iterations.
    pub open spec fn delay(self, n: nat) -> RunState {
        self.evs(delay_events(n))
    }

    /// A system register read that returned `v`.
    pub open spec fn rd(self, r: SysReg, v: u32) -> RunState {
        self.ev(Ev::ReadReg(r, v))
    }

    /// A 64-bit counter read that returned `v`.
    pub open spec fn rdc(self, c: Counter64, v: u64) -> RunState {
        self.ev(Ev::ReadCounter(c, v))
    }

    /// A system register write of `v`.
    pub open spec fn wr(self, r: SysReg, v: u32) -> RunState {
        self.ev(Ev::WriteReg(r, v))
    }
}

/// The runtime: a machine and the log of the operations issued to it.
pub struct Runtime<M: Hexagon> {
    machine: M,
    log: Ghost<Seq<Ev>>,
    at: Option<&'static str>,
}

impl<M: Hexagon> View for Runtime<M> {
    type V = RunState;

    closed spec fn view(&self) -> RunState {
        RunState { events: self.log@, at: self.at }
    }
}

impl<M: Hexagon> Runtime<M> {
    /// A runtime over a machine, with nothing issued yet.
    pub fn new(machine: M) -> (rt: Self)
        ensures
            rt@.events == Seq::<Ev>::empty(),
            rt@.at is None,
    {
        Runtime { machine, log: Ghost(Seq::empty()), at: None }
    }

    /// The source location failure reports currently name.
    pub fn location(&self) -> (at: Option<&'static str>)
        ensures
            at == self@.at,
    {
        self.at
    }

    /// Name `at` in failure reports from now on.
    pub fn set_location(&mut self, at: Option<&'static str>)
        ensures
            final(self)@ == old(self)@.located(at),
    {
        self.at = at;
    }

    /// Give the machine back.
    pub fn into_machine(self) -> M {
        self.machine
    }

    /// Add one to the shared error counter and return its new value.
    pub fn record_error(&mut self) -> (n: u32)
        ensures
            exists|prev: u32|
                #[trigger] old(self)@.ev(Ev::SharedFetchAdd(Shared::ErrCount, 1, prev)) == final(self)@ && n
                    == next_count(prev),
    {
        let prev = self.machine.shared_fetch_add(Shared::ErrCount, 1);
        self.log = Ghost(self.log@.push(Ev::SharedFetchAdd(Shared::ErrCount, 1, prev)));
        assert(old(self)@.ev(Ev::SharedFetchAdd(Shared::ErrCount, 1, prev)) == self@);
        if prev < u32::MAX {
            prev + 1
        } else {
            0
        }
    }

    /// Add one to the shared error counter, the way a failed check does.
    pub fn count_error(&mut self)
        ensures
            final(self)@ == old(self)@.error(),
    {
        self.shared_add(Shared::ErrCount, 1);
    }

    /// Read the shared error counter.
    pub fn error_count(&mut self) -> (n: u32)
        ensures
            final(self)@ == old(self)@.count_read(n),
    {
        self.shared_load(Shared::ErrCount)
    }

    /// Reset the shared error counter to zero.
    pub fn reset_errors(&mut self)
        ensures
            final(self)@ == old(self)@.ev(Ev::SharedStore(Shared::ErrCount, 0)),
    {
        self.shared_store(Shared::ErrCount, 0);
    }

    // ------------------------------------------------------------------
    // Console
    // ------------------------------------------------------------------

    /// Write a single byte to the console.
    pub fn putc(&mut self, c: u8)
        ensures
            final(self)@ == old(self)@.ev(Ev::Putc(c)),
    {
        self.machine.putc(c);
        self.log = Ghost(self.log@.push(Ev::Putc(c)));
    }

    // ------------------------------------------------------------------
    // System registers
    // ------------------------------------------------------------------

    /// Read a system register.
    pub fn read_reg(&mut self, r: SysReg) -> (v: u32)
        ensures
            final(self)@ == old(self)@.ev(Ev::ReadReg(r, v)),
    {
        let v = self.machine.read_reg(r);
        self.log = Ghost(self.log@.push(Ev::ReadReg(r, v)));
        v
    }

    /// Write a system register.
    pub fn write_reg(&mut self, r: SysReg, val: u32)
        ensures
            final(self)@ == old(self)@.ev(Ev::WriteReg(r, val)),
    {
        self.machine.write_reg(r, val);
        self.log = Ghost(self.log@.push(Ev::WriteReg(r, val)));
    }

    /// Read a 64-bit counter.
    pub fn read_counter(&mut self, c: Counter64) -> (v: u64)
        ensures
            final(self)@ == old(self)@.ev(Ev::ReadCounter(c, v)),
    {
        let v = self.machine.read_counter(c);
        self.log = Ghost(self.log@.push(Ev::ReadCounter(c, v)));
        v
    }

    pub fn read_ssr(&mut self) -> (v: u32)
        ensures final(self)@ == old(self)@.ev(Ev::ReadReg(SysReg::Ssr, v)),
    {
        self.read_reg(SysReg::Ssr)
    }

    pub fn write_ssr(&mut self, val: u32)
        ensures final(self)@ == old(self)@.ev(Ev::WriteReg(SysReg::Ssr, val)),
    {
        self.write_reg(SysReg::Ssr, val)
    }

    pub fn read_evb(&mut self) -> (v: u32)
        ensures final(self)@ == old(self)@.ev(Ev::ReadReg(SysReg::Evb, v)),
    {
        self.read_reg(SysReg::Evb)
    }

    pub fn write_evb(&mut self, val: u32)
        ensures final(self)@ == old(self)@.ev(Ev::WriteReg(SysReg::Evb, val)),
    {
        self.write_reg(SysReg::Evb, val)
    }

    pub fn read_syscfg(&mut self) -> (v: u32)
        ensures final(self)@ == old(self)@.ev(Ev::ReadReg(SysReg::Syscfg, v)),
    {
        self.read_reg(SysReg::Syscfg)
    }

    pub fn write_syscfg(&mut self, val: u32)
        ensures final(self)@ == old(self)@.ev(Ev::WriteReg(SysReg::Syscfg, val)),
    {
        self.write_reg(SysReg::Syscfg, val)
    }

    pub fn read_ccr(&mut self) -> (v: u32)
        ensures final(self)@ == old(self)@.ev(Ev::ReadReg(SysReg::Ccr, v)),
    {
        self.read_reg(SysReg::Ccr)
    }

    pub fn write_ccr(&mut self, val: u32)
        ensures final(self)@ == old(self)@.ev(Ev::WriteReg(SysReg::Ccr, val)),
    {
        self.write_reg(SysReg::Ccr, val)
    }

    pub fn read_imask(&mut self) -> (v: u32)
        ensures final(self)@ == old(self)@.ev(Ev::ReadReg(SysReg::Imask, v)),
    {
        self.read_reg(SysReg::Imask)
    }

    pub fn write_imask(&mut self, val: u32)
        ensures final(self)@ == old(self)@.ev(Ev::WriteReg(SysReg::Imask, val)),
    {
        self.write_reg(SysReg::Imask, val)
    }

    /// Read IPEND (interrupt pending).
    pub fn read_ipend(&mut self) -> (v: u32)
        ensures final(self)@ == old(self)@.ev(Ev::ReadReg(SysReg::Ipend, v)),
    {
        self.read_reg(SysReg::Ipend)
    }

    pub fn read_vid(&mut self) -> (v: u32)
        ensures final(self)@ == old(self)@.ev(Ev::ReadReg(SysReg::Vid, v)),
    {
        self.read_reg(SysReg::Vid)
    }

    pub fn write_vid(&mut self, val: u32)
        ensures final(self)@ == old(self)@.ev(Ev::WriteReg(SysReg::Vid, val)),
    {
        self.write_reg(SysReg::Vid, val)
    }

    pub fn read_modectl(&mut self) -> (v: u32)
        ensures final(self)@ == old(self)@.ev(Ev::ReadReg(SysReg::Modectl, v)),
    {
        self.read_reg(SysReg::Modectl)
    }

    /// Write MODECTL; it may not be writable on every implementation.
    pub fn write_modectl(&mut self, val: u32)
        ensures final(self)@ == old(self)@.ev(Ev::WriteReg(SysReg::Modectl, val)),
    {
        self.write_reg(SysReg::Modectl, val)
    }

    pub fn read_elr(&mut self) -> (v: u32)
        ensures final(self)@ == old(self)@.ev(Ev::ReadReg(SysReg::Elr, v)),
    {
        self.read_reg(SysReg::Elr)
    }

    pub fn read_badva(&mut self) -> (v: u32)
        ensures final(self)@ == old(self)@.ev(Ev::ReadReg(SysReg::Badva, v)),
    {
        self.read_reg(SysReg::Badva)
    }

    pub fn read_htid(&mut self) -> (v: u32)
        ensures final(self)@ == old(self)@.ev(Ev::ReadReg(SysReg::Htid, v)),
    {
        self.read_reg(SysReg::Htid)
    }

    pub fn read_framekey(&mut self) -> (v: u32)
        ensures final(self)@ == old(self)@.ev(Ev::ReadReg(SysReg::Framekey, v)),
    {
        self.read_reg(SysReg::Framekey)
    }

    pub fn write_framekey(&mut self, val: u32)
        ensures final(self)@ == old(self)@.ev(Ev::WriteReg(SysReg::Framekey, val)),
    {
        self.write_reg(SysReg::Framekey, val)
    }

    pub fn read_cfgbase(&mut self) -> (v: u32)
        ensures final(self)@ == old(self)@.ev(Ev::ReadReg(SysReg::Cfgbase, v)),
    {
        self.read_reg(SysReg::Cfgbase)
    }

    pub fn read_sgp0(&mut self) -> (v: u32)
        ensures final(self)@ == old(self)@.ev(Ev::ReadReg(SysReg::Sgp0, v)),
    {
        self.read_reg(SysReg::Sgp0)
    }

    pub fn write_sgp0(&mut self, val: u32)
        ensures final(self)@ == old(self)@.ev(Ev::WriteReg(SysReg::Sgp0, val)),
    {
        self.write_reg(SysReg::Sgp0, val)
    }

    pub fn read_sgp1(&mut self) -> (v: u32)
        ensures final(self)@ == old(self)@.ev(Ev::ReadReg(SysReg::Sgp1, v)),
    {
        self.read_reg(SysReg::Sgp1)
    }

    pub fn write_sgp1(&mut self, val: u32)
        ensures final(self)@ == old(self)@.ev(Ev::WriteReg(SysReg::Sgp1, val)),
    {
        self.write_reg(SysReg::Sgp1, val)
    }

    pub fn read_stid(&mut self) -> (v: u32)
        ensures final(self)@ == old(self)@.ev(Ev::ReadReg(SysReg::Stid, v)),
    {
        self.read_reg(SysReg::Stid)
    }

    pub fn write_stid(&mut self, val: u32)
        ensures final(self)@ == old(self)@.ev(Ev::WriteReg(SysReg::Stid, val)),
    {
        self.write_reg(SysReg::Stid, val)
    }

    pub fn read_diag(&mut self) -> (v: u32)
        ensures final(self)@ == old(self)@.ev(Ev::ReadReg(SysReg::Diag, v)),
    {
        self.read_reg(SysReg::Diag)
    }

    pub fn read_gelr(&mut self) -> (v: u32)
        ensures final(self)@ == old(self)@.ev(Ev::ReadReg(SysReg::Gelr, v)),
    {
        self.read_reg(SysReg::Gelr)
    }

    pub fn write_gelr(&mut self, val: u32)
        ensures final(self)@ == old(self)@.ev(Ev::WriteReg(SysReg::Gelr, val)),
    {
        self.write_reg(SysReg::Gelr, val)
    }

    pub fn read_gsr(&mut self) -> (v: u32)
        ensures final(self)@ == old(self)@.ev(Ev::ReadReg(SysReg::Gsr, v)),
    {
        self.read_reg(SysReg::Gsr)
    }

    pub fn write_gsr(&mut self, val: u32)
        ensures final(self)@ == old(self)@.ev(Ev::WriteReg(SysReg::Gsr, val)),
    {
        self.write_reg(SysReg::Gsr, val)
    }

    pub fn read_gosp(&mut self) -> (v: u32)
        ensures final(self)@ == old(self)@.ev(Ev::ReadReg(SysReg::Gosp, v)),
    {
        self.read_reg(SysReg::Gosp)
    }

    pub fn write_gosp(&mut self, val: u32)
        ensures final(self)@ == old(self)@.ev(Ev::WriteReg(SysReg::Gosp, val)),
    {
        self.write_reg(SysReg::Gosp, val)
    }

    pub fn read_gbadva(&mut self) -> (v: u32)
        ensures final(self)@ == old(self)@.ev(Ev::ReadReg(SysReg::Gbadva, v)),
    {
        self.read_reg(SysReg::Gbadva)
    }

    pub fn write_gbadva(&mut self, val: u32)
        ensures final(self)@ == old(self)@.ev(Ev::WriteReg(SysReg::Gbadva, val)),
    {
        self.write_reg(SysReg::Gbadva, val)
    }

    /// Read the 64-bit pcycle counter.
    pub fn read_pcycle(&mut self) -> (v: u64)
        ensures final(self)@ == old(self)@.ev(Ev::ReadCounter(Counter64::Pcycle, v)),
    {
        self.read_counter(Counter64::Pcycle)
    }

    pub fn read_pcyclelo(&mut self) -> (v: u32)
        ensures final(self)@ == old(self)@.ev(Ev::ReadReg(SysReg::Pcyclelo, v)),
    {
        self.read_reg(SysReg::Pcyclelo)
    }

    pub fn read_pcyclehi(&mut self) -> (v: u32)
        ensures final(self)@ == old(self)@.ev(Ev::ReadReg(SysReg::Pcyclehi, v)),
    {
        self.read_reg(SysReg::Pcyclehi)
    }

    /// Read the 64-bit user pcycle counter.
    pub fn read_upcycle(&mut self) -> (v: u64)
        ensures final(self)@ == old(self)@.ev(Ev::ReadCounter(Counter64::Upcycle, v)),
    {
        self.read_counter(Counter64::Upcycle)
    }

    /// Read TIMERLO, the lower half of the system timer.
    pub fn read_timerlo(&mut self) -> (v: u32)
        ensures final(self)@ == old(self)@.ev(Ev::ReadReg(SysReg::Timerlo, v)),
    {
        self.read_reg(SysReg::Timerlo)
    }

    /// Read TIMERHI, the upper half of the system timer.
    pub fn read_timerhi(&mut self) -> (v: u32)
        ensures final(self)@ == old(self)@.ev(Ev::ReadReg(SysReg::Timerhi, v)),
    {
        self.read_reg(SysReg::Timerhi)
    }

    pub fn read_bestwait(&mut self) -> (v: u32)
        ensures final(self)@ == old(self)@.ev(Ev::ReadReg(SysReg::Bestwait, v)),
    {
        self.read_reg(SysReg::Bestwait)
    }

    pub fn write_bestwait(&mut self, val: u32)
        ensures final(self)@ == old(self)@.ev(Ev::WriteReg(SysReg::Bestwait, val)),
    {
        self.write_reg(SysReg::Bestwait, val)
    }

    pub fn read_schedcfg(&mut self) -> (v: u32)
        ensures final(self)@ == old(self)@.ev(Ev::ReadReg(SysReg::Schedcfg, v)),
    {
        self.read_reg(SysReg::Schedcfg)
    }

    pub fn write_schedcfg(&mut self, val: u32)
        ensures final(self)@ == old(self)@.ev(Ev::WriteReg(SysReg::Schedcfg, val)),
    {
        self.write_reg(SysReg::Schedcfg, val)
    }

    // ------------------------------------------------------------------
    // Barriers, thread and interrupt control
    // ------------------------------------------------------------------

    pub fn isync(&mut self)
        ensures final(self)@ == old(self)@.ev(Ev::Barrier(Barrier::Isync)),
    {
        self.machine.barrier(Barrier::Isync);
        self.log = Ghost(self.log@.push(Ev::Barrier(Barrier::Isync)));
    }

    pub fn syncht(&mut self)
        ensures final(self)@ == old(self)@.ev(Ev::Barrier(Barrier::Syncht)),
    {
        self.machine.barrier(Barrier::Syncht);
        self.log = Ghost(self.log@.push(Ev::Barrier(Barrier::Syncht)));
    }

    /// Issue a thread control instruction.
    pub fn thread_ctl(&mut self, op: ThreadCtl, mask: u32)
        ensures final(self)@ == old(self)@.ev(Ev::ThreadCtl(op, mask)),
    {
        self.machine.thread_ctl(op, mask);
        self.log = Ghost(self.log@.push(Ev::ThreadCtl(op, mask)));
    }

    /// Start the threads in the mask at their reset vector.
    pub fn start_threads(&mut self, mask: u32)
        ensures final(self)@ == old(self)@.ev(Ev::ThreadCtl(ThreadCtl::Start, mask)),
    {
        self.thread_ctl(ThreadCtl::Start, mask)
    }

    /// Stop the calling thread.
    pub fn stop_self(&mut self, mask: u32)
        ensures final(self)@ == old(self)@.ev(Ev::ThreadCtl(ThreadCtl::Stop, mask)),
    {
        self.thread_ctl(ThreadCtl::Stop, mask)
    }

    /// Put the calling thread in wait mode.
    pub fn wait_self(&mut self, mask: u32)
        ensures final(self)@ == old(self)@.ev(Ev::ThreadCtl(ThreadCtl::Wait, mask)),
    {
        self.thread_ctl(ThreadCtl::Wait, mask)
    }

    /// Resume the waiting threads in the mask.
    pub fn resume_threads(&mut self, mask: u32)
        ensures final(self)@ == old(self)@.ev(Ev::ThreadCtl(ThreadCtl::Resume, mask)),
    {
        self.thread_ctl(ThreadCtl::Resume, mask)
    }

    /// Issue an interrupt control instruction.
    pub fn int_ctl(&mut self, op: IntCtl, val: u32)
        ensures final(self)@ == old(self)@.ev(Ev::IntCtl(op, val)),
    {
        self.machine.int_ctl(op, val);
        self.log = Ghost(self.log@.push(Ev::IntCtl(op, val)));
    }

    /// Clear the interrupt auto-disable bits in the mask.
    pub fn ciad(&mut self, mask: u32)
        ensures final(self)@ == old(self)@.ev(Ev::IntCtl(IntCtl::Ciad, mask)),
    {
        self.int_ctl(IntCtl::Ciad, mask)
    }

    /// Assign an interrupt to threads: interrupt number in bits 20:16,
    /// thread mask in the low bits.
    pub fn iassignw(&mut self, val: u32)
        ensures final(self)@ == old(self)@.ev(Ev::IntCtl(IntCtl::Iassignw, val)),
    {
        self.int_ctl(IntCtl::Iassignw, val)
    }

    /// Read the per-thread assignment of the interrupt in bits 20:16.
    pub fn iassignr(&mut self, val: u32) -> (res: u32)
        ensures final(self)@ == old(self)@.ev(Ev::Iassignr(val, res)),
    {
        let res = self.machine.iassignr(val);
        self.log = Ghost(self.log@.push(Ev::Iassignr(val, res)));
        res
    }

    /// Raise the software interrupts in the mask.
    pub fn trigger_swi(&mut self, mask: u32)
        ensures final(self)@ == old(self)@.ev(Ev::IntCtl(IntCtl::Swi, mask)),
    {
        self.int_ctl(IntCtl::Swi, mask)
    }

    /// Clear the software interrupts in the mask.
    pub fn clear_swi(&mut self, mask: u32)
        ensures final(self)@ == old(self)@.ev(Ev::IntCtl(IntCtl::Cswi, mask)),
    {
        self.int_ctl(IntCtl::Cswi, mask)
    }

    /// Set the entry routine of a secondary thread; `None` clears it.
    /// There are 16 thread slots.
    pub fn set_thread_entry(&mut self, tid: u32, entry: Option<ThreadEntry>)
        requires
            tid < 16,
        ensures final(self)@ == old(self)@.ev(Ev::SetThreadEntry(tid, entry)),
    {
        self.machine.set_thread_entry(tid, entry);
        self.log = Ghost(self.log@.push(Ev::SetThreadEntry(tid, entry)));
    }

    /// Register an interrupt handler for interrupt `intno` (0 to 31).
    pub fn register_interrupt(&mut self, intno: u32, handler: IrqHandler)
        requires
            intno < 32,
        ensures final(self)@ == old(self)@.ev(Ev::RegisterInterrupt(intno, handler)),
    {
        self.machine.register_interrupt(intno, handler);
        self.log = Ghost(self.log@.push(Ev::RegisterInterrupt(intno, handler)));
    }

    // ------------------------------------------------------------------
    // TLB
    // ------------------------------------------------------------------

    /// Write a TLB entry (hi, lo) at index `idx`.
    pub fn tlb_write(&mut self, hi: u32, lo: u32, idx: u32)
        ensures final(self)@ == old(self)@.ev(Ev::TlbWrite(hi, lo, idx)),
    {
        self.machine.tlb_write(hi, lo, idx);
        self.log = Ghost(self.log@.push(Ev::TlbWrite(hi, lo, idx)));
    }

    /// Read the TLB entry at `idx`, as (hi, lo).
    pub fn tlb_read(&mut self, idx: u32) -> (r: (u32, u32))
        ensures final(self)@ == old(self)@.ev(Ev::TlbRead(idx, r.0, r.1)),
    {
        let r = self.machine.tlb_read(idx);
        self.log = Ghost(self.log@.push(Ev::TlbRead(idx, r.0, r.1)));
        r
    }

    /// Probe the TLB; a negative answer means no entry matched.
    pub fn tlb_probe(&mut self, va: u32) -> (r: i32)
        ensures final(self)@ == old(self)@.ev(Ev::TlbProbe(va, r)),
    {
        let r = self.machine.tlb_probe(va);
        self.log = Ghost(self.log@.push(Ev::TlbProbe(va, r)));
        r
    }

    /// Conditional TLB write.
    pub fn ctlbw(&mut self, hi: u32, lo: u32, idx: u32) -> (r: u32)
        ensures final(self)@ == old(self)@.ev(Ev::Ctlbw(hi, lo, idx, r)),
    {
        let r = self.machine.ctlbw(hi, lo, idx);
        self.log = Ghost(self.log@.push(Ev::Ctlbw(hi, lo, idx, r)));
        r
    }

    /// TLB overlap check.
    pub fn tlboc(&mut self, hi: u32, lo: u32) -> (r: u32)
        ensures final(self)@ == old(self)@.ev(Ev::Tlboc(hi, lo, r)),
    {
        let r = self.machine.tlboc(hi, lo);
        self.log = Ghost(self.log@.push(Ev::Tlboc(hi, lo, r)));
        r
    }

    // ------------------------------------------------------------------
    // Caches
    // ------------------------------------------------------------------

    pub fn cache_line_op(&mut self, op: CacheLineOp, addr: u32)
        ensures final(self)@ == old(self)@.ev(Ev::CacheLine(op, addr)),
    {
        self.machine.cache_line_op(op, addr);
        self.log = Ghost(self.log@.push(Ev::CacheLine(op, addr)));
    }

    pub fn dczeroa(&mut self, addr: u32)
        ensures final(self)@ == old(self)@.ev(Ev::CacheLine(CacheLineOp::Dczeroa, addr)),
    {
        self.cache_line_op(CacheLineOp::Dczeroa, addr)
    }

    pub fn dccleana(&mut self, addr: u32)
        ensures final(self)@ == old(self)@.ev(Ev::CacheLine(CacheLineOp::Dccleana, addr)),
    {
        self.cache_line_op(CacheLineOp::Dccleana, addr)
    }

    pub fn dcinva(&mut self, addr: u32)
        ensures final(self)@ == old(self)@.ev(Ev::CacheLine(CacheLineOp::Dcinva, addr)),
    {
        self.cache_line_op(CacheLineOp::Dcinva, addr)
    }

    pub fn dccleaninva(&mut self, addr: u32)
        ensures final(self)@ == old(self)@.ev(Ev::CacheLine(CacheLineOp::Dccleaninva, addr)),
    {
        self.cache_line_op(CacheLineOp::Dccleaninva, addr)
    }

    pub fn cache_kill(&mut self, k: CacheKill)
        ensures final(self)@ == old(self)@.ev(Ev::CacheKill(k)),
    {
        self.machine.cache_kill(k);
        self.log = Ghost(self.log@.push(Ev::CacheKill(k)));
    }

    pub fn dckill(&mut self)
        ensures final(self)@ == old(self)@.ev(Ev::CacheKill(CacheKill::Dckill)),
    {
        self.cache_kill(CacheKill::Dckill)
    }

    pub fn ickill(&mut self)
        ensures final(self)@ == old(self)@.ev(Ev::CacheKill(CacheKill::Ickill)),
    {
        self.cache_kill(CacheKill::Ickill)
    }

    pub fn l2kill(&mut self)
        ensures final(self)@ == old(self)@.ev(Ev::CacheKill(CacheKill::L2kill)),
    {
        self.cache_kill(CacheKill::L2kill)
    }

    // ------------------------------------------------------------------
    // Exception recording and traps
    // ------------------------------------------------------------------

    /// Reset all exception recording words to zero.
    pub fn reset_exception_state(&mut self)
        ensures final(self)@ == old(self)@.ev(Ev::ResetExceptions),
    {
        self.machine.reset_exception_state();
        self.log = Ghost(self.log@.push(Ev::ResetExceptions));
    }

    /// Reset the NMI recording words to zero.
    pub fn reset_nmi_state(&mut self)
        ensures final(self)@ == old(self)@.ev(Ev::ResetNmi),
    {
        self.machine.reset_nmi_state();
        self.log = Ghost(self.log@.push(Ev::ResetNmi));
    }

    /// Read a word recorded by the exception or NMI handler.
    pub fn exception_field(&mut self, f: ExcField) -> (v: u32)
        ensures final(self)@ == old(self)@.ev(Ev::ReadException(f, v)),
    {
        let v = self.machine.exception_field(f);
        self.log = Ghost(self.log@.push(Ev::ReadException(f, v)));
        v
    }

    pub fn get_exception_cause(&mut self) -> (v: u32)
        ensures final(self)@ == old(self)@.ev(Ev::ReadException(ExcField::Cause, v)),
    {
        self.exception_field(ExcField::Cause)
    }

    pub fn get_exception_elr(&mut self) -> (v: u32)
        ensures final(self)@ == old(self)@.ev(Ev::ReadException(ExcField::Elr, v)),
    {
        self.exception_field(ExcField::Elr)
    }

    pub fn get_exception_badva(&mut self) -> (v: u32)
        ensures final(self)@ == old(self)@.ev(Ev::ReadException(ExcField::Badva, v)),
    {
        self.exception_field(ExcField::Badva)
    }

    pub fn get_exception_count(&mut self) -> (v: u32)
        ensures final(self)@ == old(self)@.ev(Ev::ReadException(ExcField::Count, v)),
    {
        self.exception_field(ExcField::Count)
    }

    pub fn get_nmi_count(&mut self) -> (v: u32)
        ensures final(self)@ == old(self)@.ev(Ev::ReadException(ExcField::NmiCount, v)),
    {
        self.exception_field(ExcField::NmiCount)
    }

    pub fn get_nmi_cause(&mut self) -> (v: u32)
        ensures final(self)@ == old(self)@.ev(Ev::ReadException(ExcField::NmiCause, v)),
    {
        self.exception_field(ExcField::NmiCause)
    }

    /// Execute a trap instruction with the given immediate.
    pub fn trap(&mut self, t: TrapKind, imm: u32)
        ensures final(self)@ == old(self)@.ev(Ev::Trap(t, imm)),
    {
        self.machine.trap(t, imm);
        self.log = Ghost(self.log@.push(Ev::Trap(t, imm)));
    }

    /// Execute `trap0(#imm)`; `#0` is semihosting and `#1` exits user mode.
    pub fn trap0(&mut self, imm: u32)
        ensures final(self)@ == old(self)@.ev(Ev::Trap(TrapKind::Trap0, imm)),
    {
        self.trap(TrapKind::Trap0, imm)
    }

    /// Execute `trap1(#imm)`.
    pub fn trap1(&mut self, imm: u32)
        ensures final(self)@ == old(self)@.ev(Ev::Trap(TrapKind::Trap1, imm)),
    {
        self.trap(TrapKind::Trap1, imm)
    }

    /// Leave user mode by executing `trap0(#1)`.
    pub fn exit_user_mode(&mut self)
        ensures final(self)@ == old(self)@.ev(Ev::Trap(TrapKind::Trap0, 1)),
    {
        self.trap(TrapKind::Trap0, 1)
    }

    // ------------------------------------------------------------------
    // Memory
    // ------------------------------------------------------------------

    /// One volatile store of the delay loop.
    pub fn delay_store(&mut self, val: u32)
        ensures final(self)@ == old(self)@.ev(Ev::DelayStore(val)),
    {
        self.machine.delay_store(val);
        self.log = Ghost(self.log@.push(Ev::DelayStore(val)));
    }

    /// Read a word of physical memory: the address is
    /// `(offset & 0x7FF) + (base << 11)`.
    pub fn memw_phys_read(&mut self, offset: u32, base: u32) -> (v: u32)
        ensures final(self)@ == old(self)@.ev(Ev::MemwPhys(offset, base, v)),
    {
        let v = self.machine.memw_phys(offset, base);
        self.log = Ghost(self.log@.push(Ev::MemwPhys(offset, base, v)));
        v
    }

    /// Volatile 32-bit read from an MMIO address.
    pub fn mmio_read(&mut self, addr: u32) -> (v: u32)
        ensures final(self)@ == old(self)@.ev(Ev::MmioRead(addr, v)),
    {
        let v = self.machine.mmio_read(addr);
        self.log = Ghost(self.log@.push(Ev::MmioRead(addr, v)));
        v
    }

    /// Volatile 32-bit write to an MMIO address.
    pub fn mmio_write(&mut self, addr: u32, val: u32)
        ensures final(self)@ == old(self)@.ev(Ev::MmioWrite(addr, val)),
    {
        self.machine.mmio_write(addr, val);
        self.log = Ghost(self.log@.push(Ev::MmioWrite(addr, val)));
    }

    pub fn shared_load(&mut self, var: Shared) -> (v: u32)
        ensures final(self)@ == old(self)@.ev(Ev::SharedLoad(var, v)),
    {
        let v = self.machine.shared_load(var);
        self.log = Ghost(self.log@.push(Ev::SharedLoad(var, v)));
        v
    }

    pub fn shared_store(&mut self, var: Shared, val: u32)
        ensures final(self)@ == old(self)@.ev(Ev::SharedStore(var, val)),
    {
        self.machine.shared_store(var, val);
        self.log = Ghost(self.log@.push(Ev::SharedStore(var, val)));
    }

    pub fn shared_add(&mut self, var: Shared, val: u32)
        ensures final(self)@ == old(self)@.ev(Ev::SharedAdd(var, val)),
    {
        self.machine.shared_add(var, val);
        self.log = Ghost(self.log@.push(Ev::SharedAdd(var, val)));
    }

    pub fn scratch_init(&mut self, words: u32, fill: u32) -> (addr: u32)
        ensures final(self)@ == old(self)@.ev(Ev::ScratchInit(words, fill, addr)),
    {
        let addr = self.machine.scratch_init(words, fill);
        self.log = Ghost(self.log@.push(Ev::ScratchInit(words, fill, addr)));
        addr
    }

    pub fn scratch_read(&mut self, i: u32) -> (v: u32)
        ensures final(self)@ == old(self)@.ev(Ev::ScratchRead(i, v)),
    {
        let v = self.machine.scratch_read(i);
        self.log = Ghost(self.log@.push(Ev::ScratchRead(i, v)));
        v
    }

    pub fn scratch_write(&mut self, i: u32, val: u32)
        ensures final(self)@ == old(self)@.ev(Ev::ScratchWrite(i, val)),
    {
        self.machine.scratch_write(i, val);
        self.log = Ghost(self.log@.push(Ev::ScratchWrite(i, val)));
    }

    pub fn volatile_echo(&mut self, val: u32) -> (v: u32)
        ensures final(self)@ == old(self)@.ev(Ev::Echo(val, v)),
    {
        let v = self.machine.volatile_echo(val);
        self.log = Ghost(self.log@.push(Ev::Echo(val, v)));
        v
    }

    pub fn add_one(&mut self, val: u32) -> (v: u32)
        ensures final(self)@ == old(self)@.ev(Ev::AddOne(val, v)),
    {
        let v = self.machine.add_one(val);
        self.log = Ghost(self.log@.push(Ev::AddOne(val, v)));
        v
    }

    // ------------------------------------------------------------------
    // HVX
    // ------------------------------------------------------------------

    pub fn hvx_splat_store(&mut self, val: u32) -> (words: [u32; 32])
        ensures final(self)@ == old(self)@.ev(Ev::HvxSplatStore(val, words@)),
    {
        let words = self.machine.hvx_splat_store(val);
        self.log = Ghost(self.log@.push(Ev::HvxSplatStore(val, words@)));
        words
    }

    pub fn hvx_v0_splat(&mut self, selected: u32, val: u32, disabled: u32)
        ensures final(self)@ == old(self)@.ev(Ev::HvxV0Splat(selected, val, disabled)),
    {
        self.machine.hvx_v0_splat(selected, val, disabled);
        self.log = Ghost(self.log@.push(Ev::HvxV0Splat(selected, val, disabled)));
    }

    pub fn hvx_v0_store(&mut self, selected: u32, disabled: u32) -> (words: [u32; 32])
        ensures final(self)@ == old(self)@.ev(Ev::HvxV0Store(selected, disabled, words@)),
    {
        let words = self.machine.hvx_v0_store(selected, disabled);
        self.log = Ghost(self.log@.push(Ev::HvxV0Store(selected, disabled, words@)));
        words
    }

    pub fn hvx_probe_insn(&mut self)
        ensures final(self)@ == old(self)@.ev(Ev::HvxProbe),
    {
        self.machine.hvx_probe_insn();
        self.log = Ghost(self.log@.push(Ev::HvxProbe));
    }
}

} // verus!
