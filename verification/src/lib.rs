//! Verified core of a bare-metal Hexagon system-architecture test runtime.

pub mod console;
pub mod machine;
pub mod regs;
pub mod report;
pub mod runtime;
pub mod suites;
pub mod tlb;
