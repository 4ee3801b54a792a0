# Hexagon system-architecture test runtime, verified

A runtime and a set of test suites for the Hexagon system architecture
(registers, threads, interrupts, the L2VIC, TLB and MMU, caches, HVX
contexts, timers), written in Verus.

Every instruction the library issues goes through the `Hexagon` trait in
`src/machine.rs`, which promises nothing about the answers the hardware
gives.  `Runtime` records each operation with its answer in a ghost log;
the contract of every function says, over that log, exactly which
operations it issues, what it prints and how many errors it records, for
every answer the hardware could give.

Layout:

- `src/machine.rs`: the machine interface, the runtime and its event log,
  the error counter, and one method per instruction.
- `src/console.rs`: console output and number formatting.
- `src/report.rs`: checks, test verdicts, suite summaries, fatal errors,
  the test runner, and the laws of the shared error counter.  A failed
  check inside a test prints `FAIL at src/suites/<suite>.rs:<test>: ...`,
  naming the test function it stands in; a fatal error prints
  `PANIC: panicked at <file>:<function>:` and its message.
- `src/runtime.rs`: delays, TLB helpers, configuration-table reads,
  polling, and the thread and HVX preconditions.
- `src/regs.rs`, `src/tlb.rs`: register fields and TLB entry encodings.
- `src/suites/`: one module per test suite, each with a `rust_main`.
- `tests/`: tests run against a machine that behaves like storage.
- `app/`: the program that runs a suite on a Hexagon core (inline
  assembly for each instruction, handler and thread-entry dispatch).
