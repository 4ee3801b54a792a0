//! Checks, error accounting and the test runner.

use vstd::prelude::*;
use crate::console::{dec, hex, hexw, lemma_out_append, nl, text};
use crate::machine::{
    counter_after, counter_increment, counter_is_storage, counter_not_stored, counter_stored, delay_events, errors_added, putcs, Ev,
    Hexagon, RunState, Runtime, Shared,
};

verus! {

impl RunState {
    /// How a failure line starts: `FAIL at <location>: ` while a test is
    /// running, `FAIL: ` where no location is named.
    pub open spec fn fail_prefix(self) -> Seq<u8> {
        match self.at {
            Some(a) => text("FAIL at ") + text(a) + text(": "),
            None => text("FAIL: "),
        }
    }

    /// A 32-bit equality check: on mismatch, a failure line and one error.
    pub open spec fn check32(self, val: u32, exp: u32) -> RunState {
        if val == exp {
            self
        } else {
            self.out(self.fail_prefix()).out(text("got 0x")).out(hexw(val as nat, 8)).out(
                text(", expected 0x"),
            ).out(hexw(exp as nat, 8)).out(nl()).error()
        }
    }

    /// A 64-bit equality check.
    pub open spec fn check64(self, val: u64, exp: u64) -> RunState {
        if val == exp {
            self
        } else {
            self.out(self.fail_prefix()).out(text("got 0x")).out(hexw(val as nat, 16)).out(
                text(", expected 0x"),
            ).out(hexw(exp as nat, 16)).out(nl()).error()
        }
    }

    /// A range check `min <= val <= max`.
    pub open spec fn check32_range(self, val: u32, min: u32, max: u32) -> RunState {
        if min <= val && val <= max {
            self
        } else {
            self.out(self.fail_prefix()).out(text("0x")).out(hexw(val as nat, 8)).out(text(" not in [0x")).out(
                hexw(min as nat, 8),
            ).out(text(", 0x")).out(hexw(max as nat, 8)).out(text("]")).out(nl()).error()
        }
    }

    /// An inequality check.
    pub open spec fn check32_ne(self, val: u32, ne: u32) -> RunState {
        if val != ne {
            self
        } else {
            self.out(self.fail_prefix()).out(text("got 0x")).out(hexw(val as nat, 8)).out(
                text(", expected != 0x"),
            ).out(hexw(ne as nat, 8)).out(nl()).error()
        }
    }

    /// A boolean check, `what` naming the condition.
    pub open spec fn check(self, cond: bool, what: &str) -> RunState {
        if cond {
            self
        } else {
            self.out(self.fail_prefix()).out(text("condition '")).out(text(what)).out(text("' was false")).out(
                nl(),
            ).error()
        }
    }

    /// The line a test's name is announced with.
    pub open spec fn test_header(self, name: &str) -> RunState {
        self.out(text("  ")).out(text(name)).out(text(" ... "))
    }

    /// The verdict of a test that started with the error counter at
    /// `before`: the counter is read again (as `after`), and the test is
    /// "ok" if it has not moved.
    pub open spec fn test_verdict(self, before: u32, after: u32) -> RunState {
        let s = self.count_read(after);
        if after == before {
            s.out(text("ok")).out(nl())
        } else {
            s.out(text("FAILED (")).out(dec(count_diff(after, before) as nat)).out(text(" errors)")).out(nl())
        }
    }

    /// The suite header line.
    pub open spec fn suite_begin(self, name: &str) -> RunState {
        self.out(text("=== Test Suite: ")).out(text(name)).out(text(" ===")).out(nl())
    }

    /// The suite summary: the error counter is read (as `errs`) and
    /// reported.
    pub open spec fn suite_end(self, errs: u32) -> RunState {
        let s = self.count_read(errs);
        if errs == 0 {
            s.out(text("PASS")).out(nl())
        } else {
            s.out(text("FAIL (")).out(dec(errs as nat)).out(text(" errors)")).out(nl())
        }
    }

    /// The summary ends the run in `post`, and `code` is the error count it
    /// read.
    pub open spec fn summarized(self, post: RunState, code: i32) -> bool {
        exists|errs: u32| #[trigger] self.suite_end(errs) == post && code == errs as i32
    }
}

/// The number of errors recorded between two readings of the wrapping
/// counter.
pub open spec fn count_diff(after: u32, before: u32) -> u32 {
    if after >= before {
        (after - before) as u32
    } else {
        (after + 0x1_0000_0000 - before) as u32
    }
}

/// The start of a test: its name is announced, the error counter read (as
/// `before`), and failure reports from then on name the test's location
/// `at`.
pub open spec fn test_started(pre: RunState, name: &str, at: &'static str, before: u32) -> RunState {
    pre.test_header(name).count_read(before).located(Some(at))
}

/// One step of a test run: the test is announced, run from there to
/// `mid`, and given its verdict (with the location failure reports name
/// put back), ending in `post`; `counts` are the two readings of the error
/// counter.
pub open spec fn test_step<T: TestCase>(
    pre: RunState,
    name: &str,
    test: T,
    mid: RunState,
    post: RunState,
    counts: (u32, u32),
) -> bool {
    test.runs(test_started(pre, name, test.at(), counts.0), mid) && post == mid.located(pre.at).test_verdict(
        counts.0,
        counts.1,
    )
}

/// The states between the tests of a run, the states right after each
/// test body, and the counter readings of each test.
pub open spec fn steps_ok<T: TestCase>(
    tests: Seq<(&str, T)>,
    states: Seq<RunState>,
    mids: Seq<RunState>,
    counts: Seq<(u32, u32)>,
) -> bool {
    &&& states.len() == tests.len() + 1
    &&& mids.len() == tests.len()
    &&& counts.len() == tests.len()
    &&& forall|i: int|
        0 <= i < tests.len() ==> #[trigger] test_step(
            states[i],
            tests[i].0,
            tests[i].1,
            mids[i],
            states[i + 1],
            counts[i],
        )
}

/// What running the tests in order does: each is announced, run, and
/// given its verdict.
pub open spec fn ran_tests<T: TestCase>(pre: RunState, tests: Seq<(&str, T)>, post: RunState) -> bool {
    exists|states: Seq<RunState>, mids: Seq<RunState>, counts: Seq<(u32, u32)>|
        #[trigger] steps_ok(tests, states, mids, counts) && states[0] == pre && states.last() == post
}

/// A run of the tests that stopped on a fatal error in test `k`: the tests
/// before it ran to completion, and test `k` was announced and aborted.
pub open spec fn aborted_tests<T: TestCase>(
    pre: RunState,
    tests: Seq<(&str, T)>,
    k: int,
    post: RunState,
    f: Fatal,
) -> bool {
    &&& 0 <= k < tests.len()
    &&& exists|before: RunState, count: u32|
        #![trigger ran_tests(pre, tests.take(k), before), test_started(before, tests[k].0, tests[k].1.at(), count)]
        ran_tests(pre, tests.take(k), before) && tests[k].1.aborts(
            test_started(before, tests[k].0, tests[k].1.at(), count),
            post,
            f,
        )
}

/// A condition under which a test cannot go on and the program stops.
#[derive(Clone, Copy)]
pub enum Fatal {
    /// The configuration table's subsystem base is zero: no L2VIC.
    SubsystemBaseZero,
    /// The L2VIC enable probe at `base` read `en_set` after a SET and
    /// `en_clr` after a CLR.
    ProbeFailed { base: u32, en_set: u32, en_clr: u32 },
    /// The configuration table's fast L2VIC base is zero.
    FastL2vicBaseZero,
}

impl Fatal {
    /// The function of this library that raises the condition.
    pub open spec fn raised_at(self) -> &'static str {
        match self {
            Fatal::SubsystemBaseZero => "src/suites/l2vic.rs:setup_l2vic",
            Fatal::ProbeFailed { .. } => "src/suites/l2vic.rs:l2vic_probe",
            Fatal::FastL2vicBaseZero => "src/suites/l2vic.rs:test_l2vic_fast_interface",
        }
    }

    /// Where the condition is raised, as the panic report names it.
    pub fn location(&self) -> (at: &'static str)
        ensures
            at == self.raised_at(),
    {
        match self {
            Fatal::SubsystemBaseZero => "src/suites/l2vic.rs:setup_l2vic",
            Fatal::ProbeFailed { .. } => "src/suites/l2vic.rs:l2vic_probe",
            Fatal::FastL2vicBaseZero => "src/suites/l2vic.rs:test_l2vic_fast_interface",
        }
    }
}

impl RunState {
    /// The message a fatal condition is reported with.
    pub open spec fn fatal_message(self, f: Fatal) -> RunState {
        match f {
            Fatal::SubsystemBaseZero => self.out(text("FATAL: subsystem_base is 0 — cannot discover L2VIC")),
            Fatal::ProbeFailed { base, en_set, en_clr } => self.out(text("FATAL: L2VIC probe failed at 0x")).out(
                hexw(base as nat, 8),
            ).out(text(": enable after SET=0x")).out(hex(en_set as nat)).out(text(", after CLR=0x")).out(
                hex(en_clr as nat),
            ),
            Fatal::FastL2vicBaseZero => self.out(text("FATAL: fast L2VIC base is 0 in config table")),
        }
    }

    /// The panic report of a fatal condition: where it was raised, then its
    /// message.
    pub open spec fn fatal_reported(self, f: Fatal) -> RunState {
        self.out(text("PANIC: panicked at ")).out(text(f.raised_at())).out(text(":")).out(nl()).fatal_message(
            f,
        ).out(nl())
    }

    /// A whole suite: header, tests, and either the summary (returning the
    /// error count) or, on a fatal error, the panic line (returning 1).
    pub open spec fn suite_ran<T: TestCase>(self, tests: Seq<(&str, T)>, post: RunState, code: i32) -> bool {
        ||| exists|s: RunState| #[trigger] ran_tests(self, tests, s) && s.summarized(post, code)
        ||| exists|s: RunState, k: int, f: Fatal|
            #[trigger] aborted_tests(self, tests, k, s, f) && post == s.fatal_reported(f) && code == 1
    }
}

/// A test the runner can execute.  `runs(pre, post)` describes a run that
/// completes; `aborts(pre, post, f)` one stopped by the fatal condition `f`;
/// `at()` is where the test stands in the source, which its failure reports
/// name.
pub trait TestCase {
    spec fn runs(&self, pre: RunState, post: RunState) -> bool;

    spec fn aborts(&self, pre: RunState, post: RunState, f: Fatal) -> bool;

    spec fn at(&self) -> &'static str;

    fn location(&self) -> (at: &'static str)
        ensures
            at == self.at(),
    ;

    fn run<M: Hexagon>(&self, rt: &mut Runtime<M>) -> (r: Result<(), Fatal>)
        ensures
            match r {
                Ok(()) => self.runs(old(rt)@, final(rt)@),
                Err(f) => self.aborts(old(rt)@, final(rt)@, f),
            },
    ;
}

impl<M: Hexagon> Runtime<M> {
    /// Print the start of a failure line.
    fn put_fail_prefix(&mut self)
        ensures
            final(self)@ == old(self)@.out(old(self)@.fail_prefix()),
    {
        match self.location() {
            Some(a) => {
                self.puts("FAIL at ");
                self.puts(a);
                self.puts(": ");
                proof {
                    lemma_out_append(old(self)@, text("FAIL at "), text(a));
                    lemma_out_append(old(self)@, text("FAIL at ") + text(a), text(": "));
                }
            },
            None => {
                self.puts("FAIL: ");
            },
        }
    }

    /// Check that a 32-bit value matches the expected one.
    pub fn check32(&mut self, val: u32, exp: u32)
        ensures
            final(self)@ == old(self)@.check32(val, exp),
    {
        if val != exp {
            self.put_fail_prefix();
            self.puts("got 0x");
            self.put_hexw(val as u64, 8);
            self.puts(", expected 0x");
            self.put_hexw(exp as u64, 8);
            self.newline();
            self.count_error();
        }
    }

    /// Check that a 64-bit value matches the expected one.
    pub fn check64(&mut self, val: u64, exp: u64)
        ensures
            final(self)@ == old(self)@.check64(val, exp),
    {
        if val != exp {
            self.put_fail_prefix();
            self.puts("got 0x");
            self.put_hexw(val, 16);
            self.puts(", expected 0x");
            self.put_hexw(exp, 16);
            self.newline();
            self.count_error();
        }
    }

    /// Check that a 32-bit value lies in `[min, max]`.
    pub fn check32_range(&mut self, val: u32, min: u32, max: u32)
        ensures
            final(self)@ == old(self)@.check32_range(val, min, max),
    {
        if val < min || val > max {
            self.put_fail_prefix();
            self.puts("0x");
            self.put_hexw(val as u64, 8);
            self.puts(" not in [0x");
            self.put_hexw(min as u64, 8);
            self.puts(", 0x");
            self.put_hexw(max as u64, 8);
            self.puts("]");
            self.newline();
            self.count_error();
        }
    }

    /// Check that a 32-bit value differs from another.
    pub fn check32_ne(&mut self, val: u32, ne: u32)
        ensures
            final(self)@ == old(self)@.check32_ne(val, ne),
    {
        if val == ne {
            self.put_fail_prefix();
            self.puts("got 0x");
            self.put_hexw(val as u64, 8);
            self.puts(", expected != 0x");
            self.put_hexw(ne as u64, 8);
            self.newline();
            self.count_error();
        }
    }

    /// Check a boolean condition described by `what`.
    pub fn check(&mut self, cond: bool, what: &str)
        ensures
            final(self)@ == old(self)@.check(cond, what),
    {
        if !cond {
            self.put_fail_prefix();
            self.puts("condition '");
            self.puts(what);
            self.puts("' was false");
            self.newline();
            self.count_error();
        }
    }

    /// Run a named test and report whether it recorded errors; failure
    /// reports inside it name the test's location.  A fatal error stops it
    /// before the verdict.
    pub fn run_test<T: TestCase>(&mut self, name: &str, test: &T) -> (r: Result<(), Fatal>)
        ensures
            match r {
                Ok(()) => exists|mid: RunState, b: u32, a: u32|
                    #![trigger test.runs(test_started(old(self)@, name, test.at(), b), mid), mid.located(old(self)@.at).test_verdict(b, a)]
                    test.runs(test_started(old(self)@, name, test.at(), b), mid) && final(self)@ == mid.located(
                        old(self)@.at,
                    ).test_verdict(b, a),
                Err(f) => exists|b: u32|
                    #[trigger] test.aborts(test_started(old(self)@, name, test.at(), b), final(self)@, f),
            },
    {
        self.puts("  ");
        self.puts(name);
        self.puts(" ... ");
        let before = self.error_count();
        let outer = self.location();
        self.set_location(Some(test.location()));
        let r = test.run(self);
        if let Err(f) = r {
            assert(test.aborts(test_started(old(self)@, name, test.at(), before), self@, f));
            return Err(f);
        }
        let ghost mid = self@;
        self.set_location(outer);
        let after = self.error_count();
        if after == before {
            self.puts("ok");
            self.newline();
        } else {
            let diff: u32 = if after >= before { after - before } else {
                after + (u32::MAX - before) + 1
            };
            self.puts("FAILED (");
            self.put_dec(diff as u64);
            self.puts(" errors)");
            self.newline();
        }
        assert(test.runs(test_started(old(self)@, name, test.at(), before), mid));
        assert(self@ == mid.located(old(self)@.at).test_verdict(before, after));
        Ok(())
    }

    /// Run the tests in order, stopping at the first fatal error.
    pub fn run_tests<T: TestCase>(&mut self, tests: &[(&str, T)]) -> (r: Result<(), Fatal>)
        ensures
            match r {
                Ok(()) => ran_tests(old(self)@, tests@, final(self)@),
                Err(f) => exists|k: int| #[trigger] aborted_tests(old(self)@, tests@, k, final(self)@, f),
            },
    {
        let ghost s0 = self@;
        let ghost mut states: Seq<RunState> = seq![s0];
        let ghost mut mids: Seq<RunState> = Seq::empty();
        let ghost mut counts: Seq<(u32, u32)> = Seq::empty();
        let mut i: usize = 0;
        while i < tests.len()
            invariant
                i <= tests.len(),
                steps_ok(tests@.take(i as int), states, mids, counts),
                states[0] == s0,
                states.last() == self@,
                s0 == old(self)@,
            decreases tests.len() - i,
        {
            let ghost before = self@;
            let name = tests[i].0;
            let test = &tests[i].1;
            let r = self.run_test(name, test);
            if let Err(f) = r {
                proof {
                    let b = choose|b: u32|
                        #[trigger] test.aborts(test_started(before, name, test.at(), b), self@, f);
                    assert(ran_tests(s0, tests@.take(i as int), before));
                    assert(tests@[i as int] == (name, *test));
                    assert(aborted_tests(s0, tests@, i as int, self@, f));
                }
                return Err(f);
            }
            proof {
                let (mid, b, a) = choose|mid: RunState, b: u32, a: u32|
                    #![trigger test.runs(test_started(before, name, test.at(), b), mid), mid.located(before.at).test_verdict(b, a)]
                    test.runs(test_started(before, name, test.at(), b), mid) && self@ == mid.located(
                        before.at,
                    ).test_verdict(b, a);
                let old_states = states;
                let old_mids = mids;
                let old_counts = counts;
                states = states.push(self@);
                mids = mids.push(mid);
                counts = counts.push((b, a));
                let t = tests@.take(i + 1);
                assert forall|k: int| 0 <= k < t.len() implies #[trigger] test_step(
                    states[k],
                    t[k].0,
                    t[k].1,
                    mids[k],
                    states[k + 1],
                    counts[k],
                ) by {
                    if k < i {
                        assert(t[k] == tests@.take(i as int)[k]);
                        assert(test_step(
                            old_states[k],
                            tests@.take(i as int)[k].0,
                            tests@.take(i as int)[k].1,
                            old_mids[k],
                            old_states[k + 1],
                            old_counts[k],
                        ));
                    } else {
                        assert(t[k] == tests@[i as int]);
                        assert(test_step(before, name, *test, mid, self@, (b, a)));
                    }
                }
                assert(steps_ok(t, states, mids, counts));
            }
            i = i + 1;
        }
        proof {
            assert(tests@.take(i as int) =~= tests@);
            assert(steps_ok(tests@, states, mids, counts));
        }
        Ok(())
    }

    /// Report a fatal error the way the panic handler does: where it was
    /// raised, then its message.
    pub fn report_fatal(&mut self, f: Fatal)
        ensures
            final(self)@ == old(self)@.fatal_reported(f),
    {
        self.puts("PANIC: panicked at ");
        self.puts(f.location());
        self.puts(":");
        self.newline();
        match f {
            Fatal::SubsystemBaseZero => {
                self.puts("FATAL: subsystem_base is 0 — cannot discover L2VIC");
            },
            Fatal::ProbeFailed { base, en_set, en_clr } => {
                self.puts("FATAL: L2VIC probe failed at 0x");
                self.put_hexw(base as u64, 8);
                self.puts(": enable after SET=0x");
                self.put_hex(en_set as u64);
                self.puts(", after CLR=0x");
                self.put_hex(en_clr as u64);
            },
            Fatal::FastL2vicBaseZero => {
                self.puts("FATAL: fast L2VIC base is 0 in config table");
            },
        }
        self.newline();
    }

    /// Run a suite's tests between its header and its summary, returning the
    /// error count; on a fatal error, report it and return 1.
    pub fn run_suite<T: TestCase>(&mut self, tests: &[(&str, T)]) -> (code: i32)
        ensures
            old(self)@.suite_ran(tests@, final(self)@, code),
    {
        match self.run_tests(tests) {
            Ok(()) => {
                let ghost s = self@;
                let errs = self.test_suite_end();
                assert(ran_tests(old(self)@, tests@, s));
                assert(s.summarized(self@, errs as i32));
                errs as i32
            },
            Err(f) => {
                let ghost s = self@;
                let ghost k = choose|k: int| #[trigger] aborted_tests(old(self)@, tests@, k, s, f);
                self.report_fatal(f);
                assert(aborted_tests(old(self)@, tests@, k, s, f));
                1
            },
        }
    }

    /// Print the suite header.
    pub fn test_suite_begin(&mut self, name: &str)
        ensures
            final(self)@ == old(self)@.suite_begin(name),
    {
        self.puts("=== Test Suite: ");
        self.puts(name);
        self.puts(" ===");
        self.newline();
    }

    /// Print the suite summary and return the error count.
    pub fn test_suite_end(&mut self) -> (errs: u32)
        ensures
            final(self)@ == old(self)@.suite_end(errs),
    {
        let errs = self.error_count();
        if errs == 0 {
            self.puts("PASS");
            self.newline();
        } else {
            self.puts("FAIL (");
            self.put_dec(errs as u64);
            self.puts(" errors)");
            self.newline();
        }
        errs
    }
}


// ---------------------------------------------------------------------------
// Laws
// ---------------------------------------------------------------------------

/// A 32-bit check that passes leaves the run untouched; one that fails
/// prints one line and records exactly one more error.
pub proof fn law_check32_outcome(s: RunState, val: u32, exp: u32)
    ensures
        val == exp ==> s.check32(val, exp) == s,
        val != exp ==> exists|line: Seq<u8>|
            #[trigger] s.out(line).error() == s.check32(val, exp) && line.len() > 0 && line.last() == 10u8,
{
    if val != exp {
        let p = s.fail_prefix();
        let a = text("got 0x");
        let b = hexw(val as nat, 8);
        let c = text(", expected 0x");
        let d = hexw(exp as nat, 8);
        lemma_out_append(s, p, a);
        lemma_out_append(s, p + a, b);
        lemma_out_append(s, p + a + b, c);
        lemma_out_append(s, p + a + b + c, d);
        lemma_out_append(s, p + a + b + c + d, nl());
        let line = p + a + b + c + d + nl();
        assert(line.last() == 10u8);
        assert(s.out(line).error() == s.check32(val, exp));
    }
}

/// A condition check that holds leaves the run untouched; one that fails
/// prints one line and records exactly one more error.
pub proof fn law_check_outcome(s: RunState, cond: bool, what: &str)
    ensures
        cond ==> s.check(cond, what) == s,
        !cond ==> exists|line: Seq<u8>|
            #[trigger] s.out(line).error() == s.check(cond, what) && line.len() > 0 && line.last() == 10u8,
{
    if !cond {
        let p = s.fail_prefix();
        let a = text("condition '");
        let b = text(what);
        let c = text("' was false");
        lemma_out_append(s, p, a);
        lemma_out_append(s, p + a, b);
        lemma_out_append(s, p + a + b, c);
        lemma_out_append(s, p + a + b + c, nl());
        let line = p + a + b + c + nl();
        assert(line.last() == 10u8);
        assert(s.out(line).error() == s.check(cond, what));
    }
}

/// What a suite returns is the error count its summary read and printed,
/// or 1 when a fatal error ended it.
pub proof fn law_suite_code<T: TestCase>(pre: RunState, tests: Seq<(&str, T)>, post: RunState, code: i32)
    requires
        pre.suite_ran(tests, post, code),
    ensures
        code == 1 || exists|s: RunState, errs: u32| #[trigger] s.suite_end(errs) == post && code == errs as i32,
{
    if exists|s: RunState| #[trigger] ran_tests(pre, tests, s) && s.summarized(post, code) {
        let s = choose|s: RunState| #[trigger] ran_tests(pre, tests, s) && s.summarized(post, code);
        let errs = choose|errs: u32| #[trigger] s.suite_end(errs) == post && code == errs as i32;
        assert(s.suite_end(errs) == post);
    }
}

/// A test's verdict is "ok" exactly when the error counter reads the same
/// after the test as before it.
pub proof fn law_verdict_ok_iff_no_new_errors(s: RunState, before: u32, after: u32)
    ensures
        (s.test_verdict(before, after) == s.count_read(after).out(text("ok")).out(nl())) <==> after == before,
{
    if after != before {
        reveal_strlit("ok");
        reveal_strlit("FAILED (");
        vstd::string::is_ascii_spec_bytes("ok");
        vstd::string::is_ascii_spec_bytes("FAILED (");
        let n = (s.events.len() + 1) as int;
        let failed = s.test_verdict(before, after);
        let ok = s.count_read(after).out(text("ok")).out(nl());
        assert(text("FAILED (")[0] == 70u8);
        assert(text("ok")[0] == 111u8);
        assert(failed.events[n] == Ev::Putc(70u8));
        assert(ok.events[n] == Ev::Putc(111u8));
    }
}

/// A suite's summary is "PASS" exactly when the error counter reads zero.
pub proof fn law_summary_pass_iff_no_errors(s: RunState, errs: u32)
    ensures
        (s.suite_end(errs) == s.count_read(errs).out(text("PASS")).out(nl())) <==> errs == 0,
{
    if errs != 0 {
        reveal_strlit("PASS");
        reveal_strlit("FAIL (");
        vstd::string::is_ascii_spec_bytes("PASS");
        vstd::string::is_ascii_spec_bytes("FAIL (");
        let n = (s.events.len() + 1) as int;
        let fail = s.suite_end(errs);
        let pass = s.count_read(errs).out(text("PASS")).out(nl());
        assert(text("FAIL (")[0] == 70u8);
        assert(text("PASS")[0] == 80u8);
        assert(fail.events[n] == Ev::Putc(70u8));
        assert(pass.events[n] == Ev::Putc(80u8));
    }
}

// ---------------------------------------------------------------------------
// The error counter
// ---------------------------------------------------------------------------

/// The operations issued between two states of a run.
pub open spec fn ops_since(s: RunState, t: RunState) -> Seq<Ev> {
    t.events.skip(s.events.len() as int)
}

/// Errors add up: what two runs of operations, one after the other, add to
/// the counter is the sum of what each adds.
pub proof fn law_errors_add_up(a: Seq<Ev>, b: Seq<Ev>)
    ensures
        errors_added(a + b) == errors_added(a) + errors_added(b),
    decreases b.len(),
{
    if b.len() > 0 {
        law_errors_add_up(a, b.drop_last());
        assert((a + b).drop_last() =~= a + b.drop_last());
        assert((a + b).last() == b.last());
    } else {
        assert(a + b =~= a);
    }
}

proof fn lemma_counter_after_append(c: u32, a: Seq<Ev>, b: Seq<Ev>)
    ensures
        counter_after(c, a + b) == counter_after(counter_after(c, a), b),
    decreases b.len(),
{
    if b.len() > 0 {
        lemma_counter_after_append(c, a, b.drop_last());
        assert((a + b).drop_last() =~= a + b.drop_last());
        assert((a + b).last() == b.last());
    } else {
        assert(a + b =~= a);
    }
}

/// Without a store, the counter ends where its start and the errors added
/// put it, wrapping at 2^32.
proof fn lemma_counter_after_adds(c: u32, es: Seq<Ev>)
    requires
        counter_not_stored(es),
    ensures
        counter_after(c, es) as int == (c + errors_added(es)) % 0x1_0000_0000,
    decreases es.len(),
{
    if es.len() > 0 {
        let d = es.drop_last();
        assert(counter_not_stored(d)) by {
            assert forall|i: int| 0 <= i < d.len() implies !counter_stored(#[trigger] d[i]) by {
                assert(d[i] == es[i]);
            }
        }
        lemma_counter_after_adds(c, d);
        assert(!counter_stored(es[es.len() - 1]));
        let x = c + errors_added(d);
        let inc = counter_increment(es.last());
        assert(inc < 0x1_0000_0000);
        vstd::arithmetic::div_mod::lemma_add_mod_noop(x, inc as int, 0x1_0000_0000);
        vstd::arithmetic::div_mod::lemma_small_mod(inc, 0x1_0000_0000);
    } else {
        vstd::arithmetic::div_mod::lemma_small_mod(c as nat, 0x1_0000_0000);
    }
}

/// Whether `t` is `s` followed by more operations.
pub open spec fn extends(t: RunState, s: RunState) -> bool {
    s.events.is_prefix_of(t.events)
}

proof fn lemma_reset_then_read(c: u32, body: Seq<Ev>, n: u32)
    requires
        counter_not_stored(body),
        counter_is_storage(
            c,
            seq![Ev::SharedStore(Shared::ErrCount, 0)] + body + seq![Ev::SharedLoad(Shared::ErrCount, n)],
        ),
    ensures
        n as int == errors_added(body) % 0x1_0000_0000,
{
    let reset = seq![Ev::SharedStore(Shared::ErrCount, 0)];
    let es = reset + body + seq![Ev::SharedLoad(Shared::ErrCount, n)];
    let last = es.len() - 1;
    assert(es[last] == Ev::SharedLoad(Shared::ErrCount, n));
    assert(es.take(last) =~= reset + body);
    lemma_counter_after_append(c, reset, body);
    assert(reset.drop_last() =~= Seq::<Ev>::empty());
    assert(counter_after(c, reset) == 0);
    lemma_counter_after_adds(0, body);
}

/// After `reset_errors`, `error_count` reads the number of errors recorded
/// since, modulo 2^32.  `s` is the state `reset_errors` starts from, `t` the
/// one `error_count` starts from; this holds provided the counter behaves
/// as a plain word of storage with no writer besides the logged operations
/// from the reset to the read, and nothing resets it again in between.  So
/// after a reset and k failed checks, the count reads k.
pub proof fn law_error_count_after_reset(s: RunState, t: RunState, n: u32, c: u32)
    requires
        extends(t, s.ev(Ev::SharedStore(Shared::ErrCount, 0))),
        counter_not_stored(ops_since(s.ev(Ev::SharedStore(Shared::ErrCount, 0)), t)),
        counter_is_storage(c, ops_since(s, t.count_read(n))),
    ensures
        n as int == errors_added(ops_since(s.ev(Ev::SharedStore(Shared::ErrCount, 0)), t)) % 0x1_0000_0000,
{
    let r = s.ev(Ev::SharedStore(Shared::ErrCount, 0));
    let body = ops_since(r, t);
    assert(ops_since(s, t.count_read(n)) =~= seq![Ev::SharedStore(Shared::ErrCount, 0)] + body + seq![
        Ev::SharedLoad(Shared::ErrCount, n),
    ]) by {
        assert(r.events.len() == s.events.len() + 1);
        assert(t.events.subrange(0, r.events.len() as int) =~= r.events);
        assert forall|i: int| 0 <= i < ops_since(s, t.count_read(n)).len() implies ops_since(s, t.count_read(n))[i]
            == (seq![Ev::SharedStore(Shared::ErrCount, 0)] + body + seq![Ev::SharedLoad(Shared::ErrCount, n)])[i] by {
            if i == 0 {
                assert(t.events[s.events.len() as int] == r.events[s.events.len() as int]);
            }
        }
    }
    lemma_reset_then_read(c, body, n);
}

proof fn lemma_count_diff_wraps(before: u32, after: u32, added: nat)
    requires
        after as int == (before + added) % 0x1_0000_0000,
    ensures
        count_diff(after, before) as int == added % 0x1_0000_0000,
{
    let a = added as int;
    let m: int = 0x1_0000_0000;
    let r = a % m;
    vstd::arithmetic::div_mod::lemma_add_mod_noop(before as int, a, m);
    vstd::arithmetic::div_mod::lemma_small_mod(before as nat, m as nat);
    assert(0 <= r < m);
    assert(after as int == (before + r) % m);
    if before + r < m {
        vstd::arithmetic::div_mod::lemma_small_mod((before + r) as nat, m as nat);
    } else {
        vstd::arithmetic::div_mod::lemma_mod_sub_multiples_vanish(before + r, m);
        vstd::arithmetic::div_mod::lemma_small_mod((before + r - m) as nat, m as nat);
    }
}

/// A test's verdict reports exactly the errors recorded while it ran.  `pre`
/// is the state `run_test` starts from and `mid` the state the test body
/// ends in, as in `run_test`'s contract.  Provided the counter behaves as a
/// plain word of storage with no writer besides the logged operations from
/// the read before the test to the read after it, and nothing resets it in
/// between, the verdict is "ok" when the test recorded no error and
/// "FAILED (n errors)" with n the number it recorded (modulo 2^32)
/// otherwise.
pub proof fn law_verdict_counts_own_errors(
    pre: RunState,
    name: &str,
    at: &'static str,
    before: u32,
    mid: RunState,
    after: u32,
    c: u32,
)
    requires
        extends(mid, test_started(pre, name, at, before)),
        counter_not_stored(ops_since(test_started(pre, name, at, before), mid)),
        counter_is_storage(c, ops_since(pre.test_header(name), mid.count_read(after))),
    ensures
        ({
            let n = errors_added(ops_since(test_started(pre, name, at, before), mid)) % 0x1_0000_0000;
            let t = mid.located(pre.at);
            &&& count_diff(after, before) as int == n
            &&& t.test_verdict(before, after) == if n == 0 {
                t.count_read(after).out(text("ok")).out(nl())
            } else {
                t.count_read(after).out(text("FAILED (")).out(dec(n as nat)).out(text(" errors)")).out(nl())
            }
        }),
{
    let h = pre.test_header(name);
    let st = test_started(pre, name, at, before);
    let body = ops_since(st, mid);
    let first = seq![Ev::SharedLoad(Shared::ErrCount, before)];
    let es = ops_since(h, mid.count_read(after));
    assert(st.events.len() == h.events.len() + 1);
    assert(mid.events.subrange(0, st.events.len() as int) =~= st.events);
    assert(es =~= first + body + seq![Ev::SharedLoad(Shared::ErrCount, after)]) by {
        assert forall|i: int| 0 <= i < es.len() implies es[i] == (first + body + seq![
            Ev::SharedLoad(Shared::ErrCount, after),
        ])[i] by {
            if i == 0 {
                assert(mid.events[h.events.len() as int] == st.events[h.events.len() as int]);
            }
        }
    }
    let last = es.len() - 1;
    assert(es[0] == Ev::SharedLoad(Shared::ErrCount, before));
    assert(es.take(0) =~= Seq::<Ev>::empty());
    assert(before == c);
    assert(es[last] == Ev::SharedLoad(Shared::ErrCount, after));
    assert(es.take(last) =~= first + body);
    lemma_counter_after_append(c, first, body);
    assert(first.drop_last() =~= Seq::<Ev>::empty());
    vstd::arithmetic::div_mod::lemma_small_mod(c as nat, 0x1_0000_0000);
    assert(counter_after(c, first) == c);
    lemma_counter_after_adds(c, body);
    lemma_count_diff_wraps(before, after, errors_added(body));
}

proof fn lemma_output_records_nothing(bytes: Seq<u8>)
    ensures
        errors_added(putcs(bytes)) == 0,
        counter_not_stored(putcs(bytes)),
    decreases bytes.len(),
{
    if bytes.len() > 0 {
        lemma_output_records_nothing(bytes.drop_last());
        assert(putcs(bytes).drop_last() =~= putcs(bytes.drop_last()));
    }
}

/// A failure line followed by one more error records exactly one error.
proof fn lemma_failure_records_one_error(s: RunState, line: Seq<u8>)
    ensures
        errors_added(ops_since(s, s.out(line).error())) == 1,
        counter_not_stored(ops_since(s, s.out(line).error())),
{
    let ops = ops_since(s, s.out(line).error());
    assert(ops =~= putcs(line).push(Ev::SharedAdd(Shared::ErrCount, 1)));
    lemma_output_records_nothing(line);
    assert(ops.drop_last() =~= putcs(line));
    assert forall|i: int| 0 <= i < ops.len() implies !counter_stored(#[trigger] ops[i]) by {
        if i < ops.len() - 1 {
            assert(ops[i] == putcs(line)[i]);
        }
    }
}

proof fn lemma_nothing_issued(s: RunState)
    ensures
        errors_added(ops_since(s, s)) == 0,
        counter_not_stored(ops_since(s, s)),
{
    assert(ops_since(s, s) =~= Seq::<Ev>::empty());
}

/// Every kind of check records exactly one error when it fails and none
/// when it passes, and none of them overwrites the error counter.
pub proof fn law_failed_check_records_one_error(
    s: RunState,
    val: u32,
    exp: u32,
    val64: u64,
    exp64: u64,
    min: u32,
    max: u32,
    cond: bool,
    what: &str,
)
    ensures
        errors_added(ops_since(s, s.check32(val, exp))) == (if val == exp { 0nat } else { 1nat }),
        errors_added(ops_since(s, s.check64(val64, exp64))) == (if val64 == exp64 { 0nat } else { 1nat }),
        errors_added(ops_since(s, s.check32_range(val, min, max))) == (if min <= val <= max { 0nat } else { 1nat }),
        errors_added(ops_since(s, s.check32_ne(val, exp))) == (if val != exp { 0nat } else { 1nat }),
        errors_added(ops_since(s, s.check(cond, what))) == (if cond { 0nat } else { 1nat }),
        counter_not_stored(ops_since(s, s.check32(val, exp))),
        counter_not_stored(ops_since(s, s.check64(val64, exp64))),
        counter_not_stored(ops_since(s, s.check32_range(val, min, max))),
        counter_not_stored(ops_since(s, s.check32_ne(val, exp))),
        counter_not_stored(ops_since(s, s.check(cond, what))),
{
    lemma_nothing_issued(s);
    let p = s.fail_prefix();
    if val != exp {
        let l = p + text("got 0x") + hexw(val as nat, 8) + text(", expected 0x") + hexw(exp as nat, 8) + nl();
        lemma_out_append(s, p, text("got 0x"));
        lemma_out_append(s, p + text("got 0x"), hexw(val as nat, 8));
        lemma_out_append(s, p + text("got 0x") + hexw(val as nat, 8), text(", expected 0x"));
        lemma_out_append(s, p + text("got 0x") + hexw(val as nat, 8) + text(", expected 0x"), hexw(exp as nat, 8));
        lemma_out_append(
            s,
            p + text("got 0x") + hexw(val as nat, 8) + text(", expected 0x") + hexw(exp as nat, 8),
            nl(),
        );
        assert(s.check32(val, exp) == s.out(l).error());
        lemma_failure_records_one_error(s, l);
    }
    if val64 != exp64 {
        let l = p + text("got 0x") + hexw(val64 as nat, 16) + text(", expected 0x") + hexw(exp64 as nat, 16) + nl();
        lemma_out_append(s, p, text("got 0x"));
        lemma_out_append(s, p + text("got 0x"), hexw(val64 as nat, 16));
        lemma_out_append(s, p + text("got 0x") + hexw(val64 as nat, 16), text(", expected 0x"));
        lemma_out_append(
            s,
            p + text("got 0x") + hexw(val64 as nat, 16) + text(", expected 0x"),
            hexw(exp64 as nat, 16),
        );
        lemma_out_append(
            s,
            p + text("got 0x") + hexw(val64 as nat, 16) + text(", expected 0x") + hexw(exp64 as nat, 16),
            nl(),
        );
        assert(s.check64(val64, exp64) == s.out(l).error());
        lemma_failure_records_one_error(s, l);
    }
    if !(min <= val && val <= max) {
        let a = p + text("0x") + hexw(val as nat, 8);
        let b = a + text(" not in [0x") + hexw(min as nat, 8);
        let c = b + text(", 0x") + hexw(max as nat, 8);
        let l = c + text("]") + nl();
        lemma_out_append(s, p, text("0x"));
        lemma_out_append(s, p + text("0x"), hexw(val as nat, 8));
        lemma_out_append(s, a, text(" not in [0x"));
        lemma_out_append(s, a + text(" not in [0x"), hexw(min as nat, 8));
        lemma_out_append(s, b, text(", 0x"));
        lemma_out_append(s, b + text(", 0x"), hexw(max as nat, 8));
        lemma_out_append(s, c, text("]"));
        lemma_out_append(s, c + text("]"), nl());
        assert(s.check32_range(val, min, max) == s.out(l).error());
        lemma_failure_records_one_error(s, l);
    }
    if val == exp {
        let l = p + text("got 0x") + hexw(val as nat, 8) + text(", expected != 0x") + hexw(exp as nat, 8) + nl();
        lemma_out_append(s, p, text("got 0x"));
        lemma_out_append(s, p + text("got 0x"), hexw(val as nat, 8));
        lemma_out_append(s, p + text("got 0x") + hexw(val as nat, 8), text(", expected != 0x"));
        lemma_out_append(
            s,
            p + text("got 0x") + hexw(val as nat, 8) + text(", expected != 0x"),
            hexw(exp as nat, 8),
        );
        lemma_out_append(
            s,
            p + text("got 0x") + hexw(val as nat, 8) + text(", expected != 0x") + hexw(exp as nat, 8),
            nl(),
        );
        assert(s.check32_ne(val, exp) == s.out(l).error());
        lemma_failure_records_one_error(s, l);
    }
    if !cond {
        let l = p + text("condition '") + text(what) + text("' was false") + nl();
        lemma_out_append(s, p, text("condition '"));
        lemma_out_append(s, p + text("condition '"), text(what));
        lemma_out_append(s, p + text("condition '") + text(what), text("' was false"));
        lemma_out_append(s, p + text("condition '") + text(what) + text("' was false"), nl());
        assert(s.check(cond, what) == s.out(l).error());
        lemma_failure_records_one_error(s, l);
    }
}

// ---------------------------------------------------------------------------
// Errors recorded along a run
// ---------------------------------------------------------------------------

/// One more operation records what it adds to the counter.
pub broadcast proof fn lemma_recorded_ev(t: RunState, e: Ev)
    ensures
        #[trigger] t.ev(e).recorded() == t.recorded() + counter_increment(e),
{
    assert(t.ev(e).events.drop_last() =~= t.events);
}

/// Several more operations record what they add to the counter.
pub broadcast proof fn lemma_recorded_evs(t: RunState, es: Seq<Ev>)
    ensures
        #[trigger] t.evs(es).recorded() == t.recorded() + errors_added(es),
{
    law_errors_add_up(t.events, es);
}

/// Console output records no error.
pub broadcast proof fn lemma_recorded_out(t: RunState, bytes: Seq<u8>)
    ensures
        #[trigger] t.out(bytes).recorded() == t.recorded(),
{
    lemma_output_records_nothing(bytes);
    lemma_recorded_evs(t, putcs(bytes));
}

proof fn lemma_delay_records_nothing(n: nat)
    ensures
        errors_added(delay_events(n)) == 0,
    decreases n,
{
    if n > 0 {
        lemma_delay_records_nothing((n - 1) as nat);
        assert(delay_events(n).drop_last() =~= delay_events((n - 1) as nat));
    }
}

/// A delay loop records no error.
pub broadcast proof fn lemma_recorded_delay(t: RunState, n: nat)
    ensures
        #[trigger] t.delay(n).recorded() == t.recorded(),
{
    lemma_delay_records_nothing(n);
    lemma_recorded_evs(t, delay_events(n));
}

/// Changing the location failure reports name records nothing.
pub broadcast proof fn lemma_recorded_located(t: RunState, at: Option<&'static str>)
    ensures
        #[trigger] t.located(at).recorded() == t.recorded(),
{
}

/// A failure line followed by one error records exactly one error.
pub broadcast proof fn lemma_recorded_failure(t: RunState, line: Seq<u8>)
    ensures
        #[trigger] t.out(line).error().recorded() == t.recorded() + 1,
{
    lemma_recorded_out(t, line);
    lemma_recorded_ev(t.out(line), Ev::SharedAdd(Shared::ErrCount, 1));
}

/// Each check records one error when it fails and none when it passes.
pub proof fn law_checks_record_failures(
    t: RunState,
    val: u32,
    exp: u32,
    val64: u64,
    exp64: u64,
    min: u32,
    max: u32,
    cond: bool,
    what: &str,
)
    ensures
        t.check32(val, exp).recorded() == t.recorded() + (if val == exp { 0nat } else { 1nat }),
        t.check64(val64, exp64).recorded() == t.recorded() + (if val64 == exp64 { 0nat } else { 1nat }),
        t.check32_range(val, min, max).recorded() == t.recorded() + (if min <= val <= max { 0nat } else { 1nat }),
        t.check32_ne(val, exp).recorded() == t.recorded() + (if val != exp { 0nat } else { 1nat }),
        t.check(cond, what).recorded() == t.recorded() + (if cond { 0nat } else { 1nat }),
{
    broadcast use lemma_recorded_out, lemma_recorded_ev;

}

/// Polling records no error when no read adds to the counter.
pub proof fn lemma_recorded_polled(
    t: RunState,
    read: spec_fn(u32) -> Ev,
    hit: spec_fn(u32) -> bool,
    pause: nat,
    obs: Seq<u32>,
)
    requires
        forall|o: u32| counter_increment(#[trigger] read(o)) == 0,
    ensures
        t.polled(read, hit, pause, obs).recorded() == t.recorded(),
    decreases obs.len(),
{
    broadcast use lemma_recorded_ev, lemma_recorded_delay;

    if obs.len() > 0 {
        lemma_recorded_polled(t, read, hit, pause, obs.drop_last());
        let _ = read(obs.last());
    }
}

/// Waiting for a shared word records no error.
pub broadcast proof fn lemma_recorded_flag_polled(t: RunState, var: Shared, expected: u32, obs: Seq<u32>)
    ensures
        #[trigger] t.flag_polled(var, expected, obs).recorded() == t.recorded(),
{
    assert forall|read: spec_fn(u32) -> Ev, hit: spec_fn(u32) -> bool, pause: nat|
        (forall|o: u32| counter_increment(#[trigger] read(o)) == 0) implies #[trigger] t.polled(
            read,
            hit,
            pause,
            obs,
        ).recorded() == t.recorded() by {
        lemma_recorded_polled(t, read, hit, pause, obs);
    }
}

/// Waiting for a thread to stop records no error.
pub broadcast proof fn lemma_recorded_stop_polled(t: RunState, tid: u32, obs: Seq<u32>)
    ensures
        #[trigger] t.stop_polled(tid, obs).recorded() == t.recorded(),
{
    lemma_recorded_polled(
        t,
        |o: u32| Ev::ReadReg(crate::machine::SysReg::Modectl, o),
        |o: u32| o & (1u32 << tid) == 0,
        10,
        obs,
    );
}

/// The broadcast facts about errors recorded along a run.
pub broadcast group group_recorded {
    lemma_recorded_ev,
    lemma_recorded_evs,
    lemma_recorded_out,
    lemma_recorded_delay,
    lemma_recorded_located,
    lemma_recorded_failure,
    lemma_recorded_flag_polled,
    lemma_recorded_stop_polled,
}

} // verus!
