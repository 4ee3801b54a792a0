//! Exception and trap tests: `trap0` and `trap1` are vectored, the handler
//! records ELR, and execution resumes after the trap.  SSR.CAUSE is an
//! exception type code, not the trap immediate.

use vstd::prelude::*;
use crate::machine::{Ev, ExcField, Hexagon, RunState, Runtime, TrapKind};
use crate::report::{Fatal, TestCase};

verus! {

impl RunState {
    /// Reset the exception record, trap, and read the recorded ELR.
    pub open spec fn trap_elr(self, t: TrapKind, imm: u32, elr: u32) -> RunState {
        self.ev(Ev::ResetExceptions).ev(Ev::Trap(t, imm)).ev(Ev::ReadException(ExcField::Elr, elr))
    }

    /// A trapped ELR must be non-zero and word-aligned.
    pub open spec fn trap_handler_run(self, t: TrapKind, elr: u32) -> RunState {
        self.trap_elr(t, 2, elr).check32_ne(elr, 0).check32(elr & 0x3, 0)
    }

    pub open spec fn trap_different_elr_run(self, e0: u32, e1: u32) -> RunState {
        self.trap_elr(TrapKind::Trap0, 2, e0).trap_elr(TrapKind::Trap1, 2, e1).check32_ne(e0, e1)
    }

    pub open spec fn multiple_traps_run(self, e1: u32, e2: u32, e3: u32) -> RunState {
        self.trap_elr(TrapKind::Trap0, 2, e1).check32_ne(e1, 0).trap_elr(TrapKind::Trap0, 3, e2).check32_ne(
            e2,
            0,
        ).trap_elr(TrapKind::Trap1, 1, e3).check32_ne(e3, 0)
    }

    /// After a trap, ELR was recorded and ordinary instructions still run:
    /// `add(x, #1)` of `x` gives `x + 1`.
    pub open spec fn trap_resume_run(self, t: TrapKind, imm: u32, x: u32, elr: u32, sum: u32) -> RunState {
        self.trap_elr(t, imm, elr).check32_ne(elr, 0).ev(Ev::AddOne(x, sum)).check32(sum, (x + 1) as u32)
    }

    pub open spec fn exception_count_run(self, c1: u32, c2: u32) -> RunState {
        self.ev(Ev::ResetExceptions).ev(Ev::ReadException(ExcField::Count, c1)).check32(c1, 0).ev(
            Ev::ReadException(ExcField::Count, c2),
        ).check32(c2, 0)
    }

    pub open spec fn exception_state_overwrite_run(self, e1: u32, e2: u32) -> RunState {
        self.trap_elr(TrapKind::Trap0, 2, e1).check32_ne(e1, 0).ev(Ev::Trap(TrapKind::Trap1, 1)).ev(
            Ev::ReadException(ExcField::Elr, e2),
        ).check32_ne(e2, 0).check32_ne(e1, e2)
    }

    /// Two traps, each after a reset, record non-zero and distinct ELRs.
    pub open spec fn two_traps_run(self, t2: TrapKind, imm2: u32, e1: u32, e2: u32) -> RunState {
        self.trap_elr(TrapKind::Trap0, 2, e1).check32_ne(e1, 0).trap_elr(t2, imm2, e2).check32_ne(e2, 0).check32_ne(
            e1,
            e2,
        )
    }
}

/// Reset the exception record, trap, and return the recorded ELR.
fn trap_and_read_elr<M: Hexagon>(rt: &mut Runtime<M>, t: TrapKind, imm: u32) -> (elr: u32)
    ensures
        final(rt)@ == old(rt)@.trap_elr(t, imm, elr),
{
    rt.reset_exception_state();
    rt.trap(t, imm);
    rt.get_exception_elr()
}

/// `trap0(#2)`: the handler runs and records a non-zero, aligned ELR.
pub fn test_trap0_handler<M: Hexagon>(rt: &mut Runtime<M>)
    ensures
        exists|e: u32| #[trigger] old(rt)@.trap_handler_run(TrapKind::Trap0, e) == final(rt)@,
{
    let elr = trap_and_read_elr(rt, TrapKind::Trap0, 2);
    rt.check32_ne(elr, 0);
    rt.check32(elr & 0x3, 0);
    assert(old(rt)@.trap_handler_run(TrapKind::Trap0, elr) == rt@);
}

/// `trap1(#2)`: the handler runs and records a non-zero, aligned ELR.
pub fn test_trap1_handler<M: Hexagon>(rt: &mut Runtime<M>)
    ensures
        exists|e: u32| #[trigger] old(rt)@.trap_handler_run(TrapKind::Trap1, e) == final(rt)@,
{
    let elr = trap_and_read_elr(rt, TrapKind::Trap1, 2);
    rt.check32_ne(elr, 0);
    rt.check32(elr & 0x3, 0);
    assert(old(rt)@.trap_handler_run(TrapKind::Trap1, elr) == rt@);
}

/// `trap0` and `trap1` at different PCs record different ELRs.
pub fn test_trap_different_elr<M: Hexagon>(rt: &mut Runtime<M>)
    ensures
        exists|a: u32, b: u32| #[trigger] old(rt)@.trap_different_elr_run(a, b) == final(rt)@,
{
    let elr_trap0 = trap_and_read_elr(rt, TrapKind::Trap0, 2);
    let elr_trap1 = trap_and_read_elr(rt, TrapKind::Trap1, 2);
    rt.check32_ne(elr_trap0, elr_trap1);
    assert(old(rt)@.trap_different_elr_run(elr_trap0, elr_trap1) == rt@);
}

/// Each of several traps in sequence records an ELR.
pub fn test_multiple_traps<M: Hexagon>(rt: &mut Runtime<M>)
    ensures
        exists|a: u32, b: u32, c: u32| #[trigger] old(rt)@.multiple_traps_run(a, b, c) == final(rt)@,
{
    let elr1 = trap_and_read_elr(rt, TrapKind::Trap0, 2);
    rt.check32_ne(elr1, 0);
    let elr2 = trap_and_read_elr(rt, TrapKind::Trap0, 3);
    rt.check32_ne(elr2, 0);
    let elr3 = trap_and_read_elr(rt, TrapKind::Trap1, 1);
    rt.check32_ne(elr3, 0);
    assert(old(rt)@.multiple_traps_run(elr1, elr2, elr3) == rt@);
}

/// Execution continues after `trap0`: ELR is recorded and `41 + 1 == 42`.
pub fn test_trap_resume<M: Hexagon>(rt: &mut Runtime<M>)
    ensures
        exists|e: u32, x: u32| #[trigger] old(rt)@.trap_resume_run(TrapKind::Trap0, 2, 41, e, x) == final(rt)@,
{
    let elr = trap_and_read_elr(rt, TrapKind::Trap0, 2);
    rt.check32_ne(elr, 0);
    let x = rt.add_one(41);
    rt.check32(x, 42);
    assert(old(rt)@.trap_resume_run(TrapKind::Trap0, 2, 41, elr, x) == rt@);
}

/// Execution continues after `trap1`: ELR is recorded and `99 + 1 == 100`.
pub fn test_trap1_resume<M: Hexagon>(rt: &mut Runtime<M>)
    ensures
        exists|e: u32, x: u32| #[trigger] old(rt)@.trap_resume_run(TrapKind::Trap1, 0, 99, e, x) == final(rt)@,
{
    let elr = trap_and_read_elr(rt, TrapKind::Trap1, 0);
    rt.check32_ne(elr, 0);
    let x = rt.add_one(99);
    rt.check32(x, 100);
    assert(old(rt)@.trap_resume_run(TrapKind::Trap1, 0, 99, elr, x) == rt@);
}

/// The exception count is zero after a reset (traps use their own
/// handlers, which do not count).
pub fn test_exception_count<M: Hexagon>(rt: &mut Runtime<M>)
    ensures
        exists|a: u32, b: u32| #[trigger] old(rt)@.exception_count_run(a, b) == final(rt)@,
{
    rt.reset_exception_state();
    let c1 = rt.get_exception_count();
    rt.check32(c1, 0);
    let count_before = rt.get_exception_count();
    rt.check32(count_before, 0);
    assert(old(rt)@.exception_count_run(c1, count_before) == rt@);
}

/// A second trap overwrites the recorded ELR with a different one.
pub fn test_exception_state_overwrite<M: Hexagon>(rt: &mut Runtime<M>)
    ensures
        exists|a: u32, b: u32| #[trigger] old(rt)@.exception_state_overwrite_run(a, b) == final(rt)@,
{
    let elr1 = trap_and_read_elr(rt, TrapKind::Trap0, 2);
    rt.check32_ne(elr1, 0);
    rt.trap1(1);
    let elr2 = rt.get_exception_elr();
    rt.check32_ne(elr2, 0);
    rt.check32_ne(elr1, elr2);
    assert(old(rt)@.exception_state_overwrite_run(elr1, elr2) == rt@);
}

/// `trap0(#2)` and `trap0(#3)` both resume and record different ELRs.
pub fn test_trap0_causes<M: Hexagon>(rt: &mut Runtime<M>)
    ensures
        exists|a: u32, b: u32| #[trigger] old(rt)@.two_traps_run(TrapKind::Trap0, 3, a, b) == final(rt)@,
{
    let elr2 = trap_and_read_elr(rt, TrapKind::Trap0, 2);
    rt.check32_ne(elr2, 0);
    let elr3 = trap_and_read_elr(rt, TrapKind::Trap0, 3);
    rt.check32_ne(elr3, 0);
    rt.check32_ne(elr2, elr3);
    assert(old(rt)@.two_traps_run(TrapKind::Trap0, 3, elr2, elr3) == rt@);
}

/// Consecutive `trap0` and `trap1` record valid, different ELRs.
pub fn test_sequential_traps<M: Hexagon>(rt: &mut Runtime<M>)
    ensures
        exists|a: u32, b: u32| #[trigger] old(rt)@.two_traps_run(TrapKind::Trap1, 1, a, b) == final(rt)@,
{
    let first = trap_and_read_elr(rt, TrapKind::Trap0, 2);
    rt.check32_ne(first, 0);
    let second = trap_and_read_elr(rt, TrapKind::Trap1, 1);
    rt.check32_ne(second, 0);
    rt.check32_ne(first, second);
    assert(old(rt)@.two_traps_run(TrapKind::Trap1, 1, first, second) == rt@);
}

/// The tests of this suite.
#[derive(Clone, Copy)]
pub enum ExceptionsTest {
    Trap0Handler,
    Trap1Handler,
    TrapDifferentElr,
    MultipleTraps,
    TrapResume,
    Trap1Resume,
    ExceptionCount,
    ExceptionStateOverwrite,
    Trap0Causes,
    SequentialTraps,
}

impl TestCase for ExceptionsTest {
    open spec fn runs(&self, pre: RunState, post: RunState) -> bool {
        match *self {
            ExceptionsTest::Trap0Handler => exists|v0: u32| #[trigger] pre.trap_handler_run(TrapKind::Trap0, v0) == post,
            ExceptionsTest::Trap1Handler => exists|v0: u32| #[trigger] pre.trap_handler_run(TrapKind::Trap1, v0) == post,
            ExceptionsTest::TrapDifferentElr => exists|v0: u32, v1: u32| #[trigger] pre.trap_different_elr_run(v0, v1) == post,
            ExceptionsTest::MultipleTraps => exists|v0: u32, v1: u32, v2: u32| #[trigger] pre.multiple_traps_run(v0, v1, v2) == post,
            ExceptionsTest::TrapResume => exists|e: u32, x: u32| #[trigger] pre.trap_resume_run(TrapKind::Trap0, 2, 41, e, x) == post,
            ExceptionsTest::Trap1Resume => exists|e: u32, x: u32| #[trigger] pre.trap_resume_run(TrapKind::Trap1, 0, 99, e, x) == post,
            ExceptionsTest::ExceptionCount => exists|v0: u32, v1: u32| #[trigger] pre.exception_count_run(v0, v1) == post,
            ExceptionsTest::ExceptionStateOverwrite => exists|v0: u32, v1: u32| #[trigger] pre.exception_state_overwrite_run(v0, v1) == post,
            ExceptionsTest::Trap0Causes => exists|a: u32, b: u32| #[trigger] pre.two_traps_run(TrapKind::Trap0, 3, a, b) == post,
            ExceptionsTest::SequentialTraps => exists|a: u32, b: u32| #[trigger] pre.two_traps_run(TrapKind::Trap1, 1, a, b) == post,
        }
    }

    open spec fn aborts(&self, pre: RunState, post: RunState, f: Fatal) -> bool {
        false
    }

    open spec fn at(&self) -> &'static str {
        match *self {
            ExceptionsTest::Trap0Handler => "src/suites/exceptions.rs:test_trap0_handler",
            ExceptionsTest::Trap1Handler => "src/suites/exceptions.rs:test_trap1_handler",
            ExceptionsTest::TrapDifferentElr => "src/suites/exceptions.rs:test_trap_different_elr",
            ExceptionsTest::MultipleTraps => "src/suites/exceptions.rs:test_multiple_traps",
            ExceptionsTest::TrapResume => "src/suites/exceptions.rs:test_trap_resume",
            ExceptionsTest::Trap1Resume => "src/suites/exceptions.rs:test_trap1_resume",
            ExceptionsTest::ExceptionCount => "src/suites/exceptions.rs:test_exception_count",
            ExceptionsTest::ExceptionStateOverwrite => "src/suites/exceptions.rs:test_exception_state_overwrite",
            ExceptionsTest::Trap0Causes => "src/suites/exceptions.rs:test_trap0_causes",
            ExceptionsTest::SequentialTraps => "src/suites/exceptions.rs:test_sequential_traps",
        }
    }

    fn location(&self) -> (at: &'static str) {
        match *self {
            ExceptionsTest::Trap0Handler => "src/suites/exceptions.rs:test_trap0_handler",
            ExceptionsTest::Trap1Handler => "src/suites/exceptions.rs:test_trap1_handler",
            ExceptionsTest::TrapDifferentElr => "src/suites/exceptions.rs:test_trap_different_elr",
            ExceptionsTest::MultipleTraps => "src/suites/exceptions.rs:test_multiple_traps",
            ExceptionsTest::TrapResume => "src/suites/exceptions.rs:test_trap_resume",
            ExceptionsTest::Trap1Resume => "src/suites/exceptions.rs:test_trap1_resume",
            ExceptionsTest::ExceptionCount => "src/suites/exceptions.rs:test_exception_count",
            ExceptionsTest::ExceptionStateOverwrite => "src/suites/exceptions.rs:test_exception_state_overwrite",
            ExceptionsTest::Trap0Causes => "src/suites/exceptions.rs:test_trap0_causes",
            ExceptionsTest::SequentialTraps => "src/suites/exceptions.rs:test_sequential_traps",
        }
    }

    fn run<M: Hexagon>(&self, rt: &mut Runtime<M>) -> (r: Result<(), Fatal>) {
        match *self {
            ExceptionsTest::Trap0Handler => {
                test_trap0_handler(rt);
                Ok(())
            },
            ExceptionsTest::Trap1Handler => {
                test_trap1_handler(rt);
                Ok(())
            },
            ExceptionsTest::TrapDifferentElr => {
                test_trap_different_elr(rt);
                Ok(())
            },
            ExceptionsTest::MultipleTraps => {
                test_multiple_traps(rt);
                Ok(())
            },
            ExceptionsTest::TrapResume => {
                test_trap_resume(rt);
                Ok(())
            },
            ExceptionsTest::Trap1Resume => {
                test_trap1_resume(rt);
                Ok(())
            },
            ExceptionsTest::ExceptionCount => {
                test_exception_count(rt);
                Ok(())
            },
            ExceptionsTest::ExceptionStateOverwrite => {
                test_exception_state_overwrite(rt);
                Ok(())
            },
            ExceptionsTest::Trap0Causes => {
                test_trap0_causes(rt);
                Ok(())
            },
            ExceptionsTest::SequentialTraps => {
                test_sequential_traps(rt);
                Ok(())
            },
        }
    }
}

/// The suite's tests, in the order they run.
pub open spec fn exceptions_tests() -> Seq<(&'static str, ExceptionsTest)> {
    seq![
        ("trap0_handler", ExceptionsTest::Trap0Handler),
        ("trap1_handler", ExceptionsTest::Trap1Handler),
        ("trap_different_elr", ExceptionsTest::TrapDifferentElr),
        ("multiple_traps", ExceptionsTest::MultipleTraps),
        ("trap_resume", ExceptionsTest::TrapResume),
        ("trap1_resume", ExceptionsTest::Trap1Resume),
        ("exception_count", ExceptionsTest::ExceptionCount),
        ("exception_state_overwrite", ExceptionsTest::ExceptionStateOverwrite),
        ("trap0_causes", ExceptionsTest::Trap0Causes),
        ("sequential_traps", ExceptionsTest::SequentialTraps),
    ]
}

/// Run the exception suite and return its error count.
pub fn rust_main<M: Hexagon>(rt: &mut Runtime<M>) -> (code: i32)
    ensures
        old(rt)@.suite_begin("Exceptions").suite_ran(exceptions_tests(), final(rt)@, code),
{
    rt.test_suite_begin("Exceptions");
    let tests = [
        ("trap0_handler", ExceptionsTest::Trap0Handler),
        ("trap1_handler", ExceptionsTest::Trap1Handler),
        ("trap_different_elr", ExceptionsTest::TrapDifferentElr),
        ("multiple_traps", ExceptionsTest::MultipleTraps),
        ("trap_resume", ExceptionsTest::TrapResume),
        ("trap1_resume", ExceptionsTest::Trap1Resume),
        ("exception_count", ExceptionsTest::ExceptionCount),
        ("exception_state_overwrite", ExceptionsTest::ExceptionStateOverwrite),
        ("trap0_causes", ExceptionsTest::Trap0Causes),
        ("sequential_traps", ExceptionsTest::SequentialTraps),
    ];
    assert(tests@ =~= exceptions_tests());
    rt.run_suite(&tests)
}

/// The tests of this suite: each records exactly one error
/// for every expectation that fails and none for those that hold.  The
/// expectations of each test are the conditions counted below, over what
/// the hardware answered.
#[verifier::rlimit(80)]
#[verifier::spinoff_prover]
pub proof fn law_exceptions_tests_count_failed_expectations()
    ensures
        forall|s: RunState, t: TrapKind, elr: u32|
            #[trigger] s.trap_handler_run(t, elr).recorded() == s.recorded()
                + (if elr != 0 { 0nat } else { 1nat })
                + (if elr & 0x3 == 0 { 0nat } else { 1nat }),
        forall|s: RunState, e0: u32, e1: u32|
            #[trigger] s.trap_different_elr_run(e0, e1).recorded() == s.recorded()
                + (if e0 != e1 { 0nat } else { 1nat }),
        forall|s: RunState, e1: u32, e2: u32, e3: u32|
            #[trigger] s.multiple_traps_run(e1, e2, e3).recorded() == s.recorded()
                + (if e1 != 0 { 0nat } else { 1nat })
                + (if e2 != 0 { 0nat } else { 1nat })
                + (if e3 != 0 { 0nat } else { 1nat }),
        forall|s: RunState, t: TrapKind, imm: u32, x: u32, elr: u32, sum: u32|
            #[trigger] s.trap_resume_run(t, imm, x, elr, sum).recorded() == s.recorded()
                + (if elr != 0 { 0nat } else { 1nat })
                + (if sum == (x + 1) as u32 { 0nat } else { 1nat }),
        forall|s: RunState, c1: u32, c2: u32|
            #[trigger] s.exception_count_run(c1, c2).recorded() == s.recorded()
                + (if c1 == 0 { 0nat } else { 1nat })
                + (if c2 == 0 { 0nat } else { 1nat }),
        forall|s: RunState, e1: u32, e2: u32|
            #[trigger] s.exception_state_overwrite_run(e1, e2).recorded() == s.recorded()
                + (if e1 != 0 { 0nat } else { 1nat })
                + (if e2 != 0 { 0nat } else { 1nat })
                + (if e1 != e2 { 0nat } else { 1nat }),
        forall|s: RunState, t2: TrapKind, imm2: u32, e1: u32, e2: u32|
            #[trigger] s.two_traps_run(t2, imm2, e1, e2).recorded() == s.recorded()
                + (if e1 != 0 { 0nat } else { 1nat })
                + (if e2 != 0 { 0nat } else { 1nat })
                + (if e1 != e2 { 0nat } else { 1nat }),
{
    broadcast use crate::report::group_recorded;

    assert forall|s: RunState, t: TrapKind, elr: u32|
        #[trigger] s.trap_handler_run(t, elr).recorded() == s.recorded()
            + (if elr != 0 { 0nat } else { 1nat })
            + (if elr & 0x3 == 0 { 0nat } else { 1nat }) by {}
    assert forall|s: RunState, e0: u32, e1: u32|
        #[trigger] s.trap_different_elr_run(e0, e1).recorded() == s.recorded()
            + (if e0 != e1 { 0nat } else { 1nat }) by {}
    assert forall|s: RunState, e1: u32, e2: u32, e3: u32|
        #[trigger] s.multiple_traps_run(e1, e2, e3).recorded() == s.recorded()
            + (if e1 != 0 { 0nat } else { 1nat })
            + (if e2 != 0 { 0nat } else { 1nat })
            + (if e3 != 0 { 0nat } else { 1nat }) by {}
    assert forall|s: RunState, t: TrapKind, imm: u32, x: u32, elr: u32, sum: u32|
        #[trigger] s.trap_resume_run(t, imm, x, elr, sum).recorded() == s.recorded()
            + (if elr != 0 { 0nat } else { 1nat })
            + (if sum == (x + 1) as u32 { 0nat } else { 1nat }) by {}
    assert forall|s: RunState, c1: u32, c2: u32|
        #[trigger] s.exception_count_run(c1, c2).recorded() == s.recorded()
            + (if c1 == 0 { 0nat } else { 1nat })
            + (if c2 == 0 { 0nat } else { 1nat }) by {}
    assert forall|s: RunState, e1: u32, e2: u32|
        #[trigger] s.exception_state_overwrite_run(e1, e2).recorded() == s.recorded()
            + (if e1 != 0 { 0nat } else { 1nat })
            + (if e2 != 0 { 0nat } else { 1nat })
            + (if e1 != e2 { 0nat } else { 1nat }) by {}
    assert forall|s: RunState, t2: TrapKind, imm2: u32, e1: u32, e2: u32|
        #[trigger] s.two_traps_run(t2, imm2, e1, e2).recorded() == s.recorded()
            + (if e1 != 0 { 0nat } else { 1nat })
            + (if e2 != 0 { 0nat } else { 1nat })
            + (if e1 != e2 { 0nat } else { 1nat }) by {}
}

} // verus!
