//! The test suites, one module per suite.

pub mod cache;
pub mod common;
pub mod exceptions;
pub mod guest_mode;
pub mod hvx_context;
pub mod int_steering;
pub mod interrupts;
pub mod isr_stress;
pub mod l2vic;
pub mod pmu;
pub mod sys_regs;
pub mod threads;
pub mod timer;
pub mod tlb_mmu;
pub mod user_mode;
